use bmputil::error::ErrorKind;
use bmputil::metadata::firmware_download::FirmwareDownload;
use bmputil::metadata::structs::{
    handle_v1_metadata, validate_metadata, BMDAArch, Firmware, Metadata, Probe, Release, TargetArch, TargetOS,
};
use bmputil::metadata::{compute_etag, etag_from_digest, hex_digit, metadata_response_action};
use bmputil::probe_identity::{VersionKind, VersionNumber, VersionParts};

fn release(includes_bmda: bool, with_bmda: bool) -> Release {
    Release {
        includes_bmda,
        firmware: vec![],
        bmda: if with_bmda { Some(vec![(TargetOS::Linux, BMDAArch { binaries: vec![] })]) } else { None },
    }
}

fn metadata(names: &[&str]) -> Metadata {
    Metadata {
        schema: "https://summon.black-magic.org/metadata.schema.json".to_string(),
        version: 1,
        releases: names.iter().map(|n| (n.to_string(), release(false, false))).collect(),
    }
}

#[test]
fn latest_release_skips_candidates() {
    let m = metadata(&["v1.10.0", "v1.9.2", "v2.0.0-rc1"]);
    let (version, _) = m.latest(false).unwrap();
    assert_eq!(version, VersionNumber::FullVersion(VersionParts::from_parts(1, 10, 0, VersionKind::Release, false)));
    let (version, _) = m.latest(true).unwrap();
    assert_eq!(
        version,
        VersionNumber::FullVersion(VersionParts::from_parts(2, 0, 0, VersionKind::ReleaseCandidate(1), false))
    );
}

#[test]
fn latest_release_of_nothing() {
    assert!(metadata(&[]).latest(true).is_none());
    assert!(metadata(&["v2.0.0-rc2"]).latest(false).is_none());
}

#[test]
fn latest_release_refers_to_its_entry() {
    let mut m = metadata(&["v1.0.0", "v1.1.0"]);
    m.releases[1].1.includes_bmda = true;
    let (_, rel) = m.latest(false).unwrap();
    assert!(rel.includes_bmda);
}

#[test]
fn metadata_validation() {
    let good = metadata(&["v1.0.0"]);
    assert!(validate_metadata(good).is_ok());
    let mut wrong_version = metadata(&["v1.0.0"]);
    wrong_version.version = 2;
    assert_eq!(validate_metadata(wrong_version).err().map(|_| ()), Some(()));
    let mut missing = metadata(&["v1.0.0"]);
    missing.releases[0].1 = release(true, false);
    assert!(matches!(handle_v1_metadata(missing), Err(ErrorKind::ReleaseMetadataInvalid)));
    let mut extra = metadata(&["v1.0.0"]);
    extra.releases[0].1 = release(false, true);
    assert!(matches!(handle_v1_metadata(extra), Err(ErrorKind::ReleaseMetadataInvalid)));
    let mut both = metadata(&["v1.0.0"]);
    both.releases[0].1 = release(true, true);
    assert!(handle_v1_metadata(both).is_ok());
}

#[test]
fn etags() {
    assert_eq!(hex_digit(0), '0');
    assert_eq!(hex_digit(9), '9');
    assert_eq!(hex_digit(10), 'a');
    assert_eq!(hex_digit(15), 'f');
    assert_eq!(etag_from_digest(&[0x01, 0xab, 0xff]), "\"01abff\"");
    assert_eq!(
        compute_etag(b""),
        "\"e3b0c44298fc1c149afbf4c8996fb92427ae41e4649b934ca495991b7852b855\""
    );
    assert_eq!(compute_etag(b"abc").len(), 66);
}

#[test]
fn metadata_responses() {
    assert_eq!(metadata_response_action(200), Ok(true));
    assert_eq!(metadata_response_action(304), Ok(false));
    assert_eq!(metadata_response_action(404), Err(ErrorKind::ReleaseMetadataInvalid));
}

#[test]
fn names_in_metadata() {
    assert_eq!(Probe::from_str("native"), Ok(Probe::Native));
    assert_eq!(Probe::from_str("96b_carbon"), Ok(Probe::_96bCarbon));
    assert!(Probe::from_str("nonsense").is_err());
    assert_eq!(Probe::Stlinkv3.to_string(), "stlinkv3");
    assert_eq!(Probe::try_from("st-link/v2".to_string()), Some(Probe::Stlink));
    assert!(TargetOS::from_str("linux").is_ok());
    assert!(TargetArch::from_str("amd64").is_ok());
    let firmware = Firmware {
        variants: vec![(
            "full".to_string(),
            FirmwareDownload::new("BMP (full)".into(), "f.elf".into(), "https://example.com/f.elf".into()).unwrap(),
        )],
    };
    assert_eq!(firmware.variants[0].1.friendly_name(), "BMP (full)");
}

#[test]
fn releases_listed_as_a_map() {
    assert!(metadata(&["v1.10.0", "v1.9.2", "v2.0.0-rc1"]).releases_in_order());
    assert!(metadata(&[]).releases_in_order());
    assert!(!metadata(&["v1.9.2", "v1.10.0"]).releases_in_order());
    assert!(!metadata(&["v1.9.2", "v1.9.2"]).releases_in_order());
    assert!(metadata(&["v1.10.0", "v1.9.2"]).well_formed());
    let mut m = metadata(&["v1.9.2"]);
    m.releases[0].1.firmware = vec![
        (Probe::Native, Firmware { variants: vec![] }),
        (Probe::Native, Firmware { variants: vec![] }),
    ];
    assert!(!m.releases[0].1.keys_distinct());
    assert!(!m.well_formed());
    m.releases[0].1.firmware.pop();
    assert!(m.releases[0].1.keys_distinct());
    let mut dup_os = release(true, true);
    if let Some(b) = dup_os.bmda.as_mut() {
        b.push((TargetOS::Linux, BMDAArch { binaries: vec![] }));
    }
    assert!(!dup_os.keys_distinct());
}
