use bmputil::metadata::structs::Probe;
use bmputil::probe_identity::{GitVersion, ProbeIdentity, VersionKind, VersionNumber, VersionParts};

#[test]
fn extract_native() {
    let result = ProbeIdentity::try_from("Black Magic Probe v2.0.0-rc2").unwrap();

    assert_eq!(result.variant(), Some(Probe::Native));
    assert_eq!(
        result.version,
        VersionNumber::FullVersion(VersionParts::from_parts(2, 0, 0, VersionKind::ReleaseCandidate(2), false))
    );
}

#[test]
fn extract_old() {
    let result = ProbeIdentity::try_from("Black Magic Probe").unwrap();

    assert_eq!(result.variant(), Some(Probe::Native));
    assert_eq!(result.version, VersionNumber::Unknown);
}

#[test]
fn extract_without_parathesis() {
    let result = ProbeIdentity::try_from("Black Magic Probe v2.0.0-rc2-65-g221c3031f").unwrap();

    assert_eq!(result.variant(), Some(Probe::Native));
    assert_eq!(
        result.version,
        VersionNumber::FullVersion(VersionParts::from_parts(
            2,
            0,
            0,
            VersionKind::Development(GitVersion::from_parts(Some(2), 65, "g221c3031f".into())),
            false
        ))
    );
}

#[test]
fn extract_version_only_hash() {
    let result = ProbeIdentity::try_from("Black Magic Probe g221c3031f").unwrap();

    assert_eq!(result.variant(), Some(Probe::Native));
    assert_eq!(result.version, VersionNumber::GitHash("221c3031f".into()));
}

#[test]
fn extract_st_link() {
    let result = ProbeIdentity::try_from("Black Magic Probe (ST-Link/v2) v1.10.0-1273-g2b1ce9aee").unwrap();

    assert_eq!(result.variant(), Some(Probe::Stlink));
    assert_eq!(
        result.version,
        VersionNumber::FullVersion(VersionParts::from_parts(
            1,
            10,
            0,
            VersionKind::Development(GitVersion::from_parts(None, 1273, "g2b1ce9aee".into())),
            false
        ))
    );
}

#[test]
fn extract_without_closing() {
    let result = ProbeIdentity::try_from("Black Magic Probe (ST-Link");

    assert!(result.is_err());
    if let Err(err) = result {
        assert_eq!(
            err.to_string(),
            "Error while parsing probe string: Not a matching pair of parenthesis found."
        );
    }
}

#[test]
fn unknown() {
    let result = ProbeIdentity::try_from("Something (v1.2.3)");

    assert!(result.is_err());
    if let Err(err) = result {
        assert_eq!(err.to_string(), "Product string doesn't start with 'Black Magic Probe'");
    }
}

#[test]
fn identity_written_as_text() {
    let identity = ProbeIdentity::try_from("Black Magic Probe (ST-Link/v2) v1.10.0-1273-g2b1ce9aee").unwrap();
    assert_eq!(identity.to_string(), "Black Magic Probe (stlink) 1.10.0-1273-g2b1ce9aee");
    let native = ProbeIdentity::try_from("Black Magic Probe g221c3031f").unwrap();
    assert_eq!(native.to_string(), "Black Magic Probe 221c3031f");
    let old = ProbeIdentity::try_from("Black Magic Probe").unwrap();
    assert_eq!(old.to_string(), "Black Magic Probe");
}

#[test]
fn identity_from_owned_string() {
    let identity = ProbeIdentity::try_from_string("Black Magic Probe v1.9.2".to_string()).unwrap();
    assert_eq!(identity.variant(), Some(Probe::Native));
    assert_eq!(identity.version.to_string(), "1.9.2");
}
