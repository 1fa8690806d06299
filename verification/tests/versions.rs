use bmputil::probe_identity::{GitVersion, VersionKind, VersionNumber, VersionParts};
use bmputil::version::is_newer;

#[test]
fn parts_read_from_text() {
    let parts = VersionParts::try_from("1.10.0").unwrap();
    assert_eq!(parts, VersionParts::from_parts(1, 10, 0, VersionKind::Release, false));
}

#[test]
fn parts_with_candidate_and_dirty_flag() {
    let parts = VersionParts::try_from("2.0.0-rc1-dirty").unwrap();
    assert_eq!(parts, VersionParts::from_parts(2, 0, 0, VersionKind::ReleaseCandidate(1), true));
}

#[test]
fn parts_with_development_build() {
    let parts = VersionParts::try_from("1.10.0-1273-g2b1ce9aee").unwrap();
    assert_eq!(
        parts,
        VersionParts::from_parts(
            1,
            10,
            0,
            VersionKind::Development(GitVersion::from_parts(None, 1273, "g2b1ce9aee".into())),
            false
        )
    );
}

#[test]
fn parts_refuse_bad_numbers() {
    assert!(VersionParts::try_from("1.x.0").is_err());
    assert!(VersionParts::try_from("").is_err());
}

#[test]
fn parts_written_back() {
    let parts = VersionParts::from_parts(
        2,
        0,
        0,
        VersionKind::Development(GitVersion::from_parts(Some(2), 65, "g221c3031f".into())),
        true,
    );
    let text = parts.to_string();
    assert_eq!(text, "2.0.0-rc2-65-g221c3031f-dirty");
    assert_eq!(VersionParts::try_from(&text).unwrap(), parts);
}

#[test]
fn number_kinds() {
    assert_eq!(VersionNumber::from("g1234abc"), VersionNumber::GitHash("1234abc".into()));
    assert_eq!(
        VersionNumber::from("v1.2.3"),
        VersionNumber::FullVersion(VersionParts::from_parts(1, 2, 3, VersionKind::Release, false))
    );
    assert_eq!(VersionNumber::from("1.2.3"), VersionNumber::Invalid);
    assert_eq!(VersionNumber::from("vX"), VersionNumber::Invalid);
    assert_eq!(VersionNumber::Invalid.to_string(), "<invalid version>");
    assert_eq!(VersionNumber::Unknown.to_string(), "");
    assert_eq!(VersionNumber::from("v1.2.3").to_string(), "1.2.3");
}

#[test]
fn newer_versions() {
    let v1_10 = VersionNumber::from("v1.10.0");
    let v2_rc1 = VersionNumber::from("v2.0.0-rc1");
    let v2_rc2 = VersionNumber::from("v2.0.0-rc2");
    let v2 = VersionNumber::from("v2.0.0");
    assert!(is_newer(&v2, &v1_10));
    assert!(!is_newer(&v1_10, &v2));
    assert!(is_newer(&v2, &v2_rc2));
    assert!(is_newer(&v2_rc2, &v2_rc1));
    assert!(!is_newer(&v2, &v2));
}

#[test]
fn development_builds_come_after_releases() {
    let rc = VersionNumber::from("v2.0.0-rc1");
    let dev = VersionNumber::from("v2.0.0-rc1-5-gabcdef0");
    let release = VersionNumber::from("v2.0.0");
    assert!(is_newer(&dev, &rc));
    assert!(is_newer(&dev, &release));
    assert!(!is_newer(&release, &dev));
}
