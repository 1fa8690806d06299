use bmputil::metadata::firmware_download::FirmwareDownload;
use bmputil::metadata::structs::{Firmware, Metadata, Probe, Release};
use bmputil::probe_identity::VersionNumber;
use bmputil::update::{firmware_for, plan_update, reboot_plan, version_change, RebootPlan, UpdatePlan, VersionChange};
use bmputil::usb::DfuOperatingMode;

fn download(file_name: &str) -> FirmwareDownload {
    let uri = format!("https://github.com/blackmagic-debug/blackmagic/releases/download/v2.0.0/{}", file_name);
    FirmwareDownload::new("Black Magic Debug for BMP".into(), file_name.into(), uri).unwrap()
}

fn firmware(files: &[&str]) -> Firmware {
    Firmware { variants: files.iter().map(|f| (f.to_string(), download(f))).collect() }
}

fn metadata() -> Metadata {
    Metadata {
        schema: "https://summon.black-magic.org/metadata.schema.json".into(),
        version: 1,
        releases: vec![
            (
                "v1.10.0".into(),
                Release { includes_bmda: false, firmware: vec![(Probe::Native, firmware(&["old.elf"]))], bmda: None },
            ),
            (
                "v2.0.0".into(),
                Release {
                    includes_bmda: false,
                    firmware: vec![
                        (Probe::Stlink, firmware(&["stlink.elf"])),
                        (Probe::Native, firmware(&["common.elf", "full.elf"])),
                    ],
                    bmda: None,
                },
            ),
            (
                "v2.1.0-rc1".into(),
                Release { includes_bmda: false, firmware: vec![(Probe::Native, firmware(&["rc.elf"]))], bmda: None },
            ),
        ],
    }
}

#[test]
fn version_changes() {
    let v1 = VersionNumber::from("v1.10.0");
    let v2 = VersionNumber::from("v2.0.0");
    assert_eq!(version_change(&v1, &v2, false), Some(VersionChange::Upgrade));
    assert_eq!(version_change(&v2, &v2, false), None);
    assert_eq!(version_change(&v2, &v1, false), None);
    assert_eq!(version_change(&v2, &v1, true), Some(VersionChange::ForcedDowngrade));
    assert_eq!(version_change(&VersionNumber::Unknown, &v2, false), Some(VersionChange::Unordered));
    assert_eq!(version_change(&VersionNumber::Unknown, &v2, true), Some(VersionChange::ForcedDowngrade));
}

#[test]
fn update_to_latest_release() {
    let m = metadata();
    match plan_update(&m, Probe::Native, &VersionNumber::from("v1.10.0"), false, false) {
        UpdatePlan::Flash { version, firmware, change } => {
            assert_eq!(version, VersionNumber::from("v2.0.0"));
            assert_eq!(change, VersionChange::Upgrade);
            assert_eq!(firmware.variants.len(), 2);
            assert!(firmware.only_variant().is_none());
        },
        _ => panic!("expected an update"),
    }
}

#[test]
fn update_with_candidates() {
    let m = metadata();
    match plan_update(&m, Probe::Native, &VersionNumber::from("v2.0.0"), true, false) {
        UpdatePlan::Flash { version, firmware, change } => {
            assert_eq!(version, VersionNumber::from("v2.1.0-rc1"));
            assert_eq!(change, VersionChange::Upgrade);
            assert_eq!(firmware.only_variant().unwrap().file_name(), "rc.elf");
        },
        _ => panic!("expected an update"),
    }
}

#[test]
fn no_update_when_current() {
    let m = metadata();
    match plan_update(&m, Probe::Native, &VersionNumber::from("v2.0.0"), false, false) {
        UpdatePlan::NotNewer(v) => assert_eq!(v, VersionNumber::from("v2.0.0")),
        _ => panic!("expected no update"),
    }
    match plan_update(&m, Probe::Native, &VersionNumber::from("v2.0.0"), false, true) {
        UpdatePlan::Flash { change, .. } => assert_eq!(change, VersionChange::ForcedDowngrade),
        _ => panic!("expected a forced update"),
    }
}

#[test]
fn no_firmware_or_release() {
    let m = metadata();
    match plan_update(&m, Probe::Swlink, &VersionNumber::from("v1.0.0"), false, false) {
        UpdatePlan::NoFirmwareForProbe(v) => assert_eq!(v, VersionNumber::from("v2.0.0")),
        _ => panic!("expected no firmware"),
    }
    let empty = Metadata { schema: String::new(), version: 1, releases: vec![] };
    assert!(matches!(
        plan_update(&empty, Probe::Native, &VersionNumber::Unknown, false, false),
        UpdatePlan::NoLatestRelease
    ));
}

#[test]
fn firmware_lookup_takes_the_first() {
    let fs = vec![(Probe::Native, firmware(&["a.elf"])), (Probe::Native, firmware(&["b.elf"]))];
    assert_eq!(firmware_for(&fs, Probe::Native).unwrap().variants[0].0, "a.elf");
    assert!(firmware_for(&fs, Probe::F3).is_none());
}

#[test]
fn reboot_plans() {
    assert_eq!(reboot_plan(DfuOperatingMode::Runtime, true, false), RebootPlan::IntoBootloader);
    assert_eq!(reboot_plan(DfuOperatingMode::FirmwareUpgrade, true, true), RebootPlan::AlreadyInBootloader);
    assert_eq!(reboot_plan(DfuOperatingMode::Runtime, false, true), RebootPlan::Switch);
    assert_eq!(reboot_plan(DfuOperatingMode::Runtime, false, false), RebootPlan::ThroughBootloader);
    assert_eq!(reboot_plan(DfuOperatingMode::FirmwareUpgrade, false, false), RebootPlan::IntoFirmware);
}
