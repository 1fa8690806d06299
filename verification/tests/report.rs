use bmputil::metadata::firmware_download::FirmwareDownload;
use bmputil::metadata::report::release_details;
use bmputil::metadata::structs::{BMDAArch, BMDABinary, Firmware, Metadata, Probe, Release, TargetArch, TargetOS};

#[test]
fn release_details_lines() {
    let uri = "https://github.com/blackmagic-debug/blackmagic/releases/download/v2.0.0/blackmagic-native-full.elf";
    let download =
        FirmwareDownload::new("Black Magic Debug for BMP (full)".into(), "native-full.elf".into(), uri.into()).unwrap();
    let metadata = Metadata {
        schema: String::new(),
        version: 1,
        releases: vec![(
            "v2.0.0".into(),
            Release {
                includes_bmda: true,
                firmware: vec![
                    (Probe::Native, Firmware { variants: vec![("full".into(), download)] }),
                    (Probe::Stlink, Firmware { variants: vec![] }),
                ],
                bmda: Some(vec![(
                    TargetOS::Linux,
                    BMDAArch {
                        binaries: vec![(
                            TargetArch::AMD64,
                            BMDABinary { file_name: "blackmagic".into(), uri: "https://example.com/bmda.zip".into() },
                        )],
                    },
                )]),
            },
        )],
    };
    let lines = release_details(&metadata);
    let expected = vec![
        "Details of release v2.0.0:".to_string(),
        "-> Release includes BMDA builds? true".to_string(),
        "-> Release done for probes: native, stlink".to_string(),
        "-> probe native has 1 firmware variants".to_string(),
        "  -> Firmware variant full".to_string(),
        "    -> Black Magic Debug for BMP (full) will be downloaded as native-full.elf".to_string(),
        format!("    -> Variant will be downloaded from {}", uri),
        "-> probe stlink has 0 firmware variants".to_string(),
        "-> Release contains BMDA for 1 OSes".to_string(),
        "  -> Linux release is for 1 architectures".to_string(),
        "    -> BMDA binary for AMD64".to_string(),
        "    -> Name of executable in archive: blackmagic".to_string(),
        "    -> Archive will be downloaded from https://example.com/bmda.zip".to_string(),
    ];
    assert_eq!(lines, expected);
}

#[test]
fn release_details_of_nothing() {
    let metadata = Metadata { schema: String::new(), version: 1, releases: vec![] };
    assert!(release_details(&metadata).is_empty());
}
