use bmputil::error::ErrorKind;
use bmputil::switcher::{is_identity_readable, parse_firmware_identity, product_and_version, ProbeIdentity};

#[test]
fn native_identity() {
    let id = parse_firmware_identity("Black Magic Probe v1.10.0");
    assert_eq!(id.product.as_deref(), Some("native"));
    assert_eq!(id.version.as_deref(), Some("v1.10.0"));
}

#[test]
fn old_native_identity() {
    let id = parse_firmware_identity("Black Magic Probe");
    assert_eq!(id.product.as_deref(), Some("native"));
    assert_eq!(id.version, None);
    let (product, version) = product_and_version(id).unwrap();
    assert_eq!(product, "native");
    assert_eq!(version, "v1.6");
}

#[test]
fn hosted_identity_lowercases_product() {
    let id = parse_firmware_identity("Black Magic Probe (ST-Link v2) v1.10.0-1273-g2b1ce9aee");
    assert_eq!(id.product.as_deref(), Some("st-link v2"));
    assert_eq!(id.version.as_deref(), Some("v1.10.0-1273-g2b1ce9aee"));
    let id = parse_firmware_identity("Black Magic Probe (ST-Link/v2)");
    assert_eq!(id.product.as_deref(), Some("st-link/v2"));
    assert_eq!(id.version, None);
}

#[test]
fn readable_identities() {
    assert!(is_identity_readable("Black Magic Probe"));
    assert!(is_identity_readable("Black Magic Probe v2.0.0-rc2"));
    assert!(is_identity_readable("Black Magic Probe (ST-Link v2) v1.10.0-1273-g2b1ce9aee"));
    assert!(is_identity_readable("Black Magic Probe )( v1"));
    assert!(!is_identity_readable("Black Magic"));
    assert!(!is_identity_readable("Black Magic Probe (ST-Link \u{e9}) v1"));
    assert!(!is_identity_readable("BlackxMagicxProbexv1"));
}

#[test]
fn unclosed_parenthesis() {
    let id = parse_firmware_identity("Black Magic Probe (ST-Link");
    assert_eq!(id.product, None);
    assert_eq!(id.version, None);
    match product_and_version(id) {
        Err(ErrorKind::DeviceSeemsInvalid(m)) => assert_eq!(m, "invalid product string"),
        _ => panic!("expected an invalid device"),
    }
}

#[test]
fn product_and_version_pass_through() {
    let id = ProbeIdentity { product: Some("stlink".into()), version: Some("v2.0.0".into()) };
    assert_eq!(product_and_version(id).unwrap(), ("stlink".to_string(), "v2.0.0".to_string()));
}
