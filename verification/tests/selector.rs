use bmputil::firmware_selector::{FirmwareMultichoice, State};
use bmputil::metadata::firmware_download::FirmwareDownload;

fn download(friendly_name: &str, file_name: &str) -> FirmwareDownload {
    let uri = format!("https://github.com/blackmagic-debug/blackmagic/releases/download/v2.0.0/{}", file_name);
    FirmwareDownload::new(friendly_name.into(), file_name.into(), uri).unwrap()
}

fn choice() -> FirmwareMultichoice {
    FirmwareMultichoice::new(
        "v2.0.0",
        vec![
            download("Black Magic Debug for BMP (common targets)", "blackmagic-native-common.elf"),
            download("Black Magic Debug for BMP (full)", "blackmagic-native-full.elf"),
        ],
    )
}

#[test]
fn starts_by_picking_a_variant() {
    let fsm = choice();
    assert_eq!(fsm.state(), State::PickFirmware);
    assert_eq!(fsm.release(), "v2.0.0");
    assert_eq!(
        fsm.friendly_names().to_vec(),
        vec!["Black Magic Debug for BMP (common targets)".to_string(), "Black Magic Debug for BMP (full)".to_string()]
    );
    assert!(!fsm.complete());
    assert!(fsm.selection().is_none());
}

#[test]
fn flashing_a_variant_selects_it() {
    let mut fsm = choice();
    fsm.choose_firmware(Some(1));
    assert_eq!(fsm.state(), State::PickAction(1));
    assert!(fsm.choose_action(Some(0)).is_ok());
    assert_eq!(fsm.state(), State::FlashFirmware(1));
    assert!(fsm.complete());
    assert_eq!(fsm.selection().unwrap().file_name(), "blackmagic-native-full.elf");
}

#[test]
fn documentation_then_back() {
    let mut fsm = choice();
    fsm.choose_firmware(Some(0));
    assert!(fsm.choose_action(Some(1)).is_ok());
    assert_eq!(fsm.state(), State::ShowDocs(0, 0));
    assert_eq!(fsm.documentation_variant().unwrap().file_name(), "blackmagic-native-common.elf");
    fsm.documentation_shown();
    assert_eq!(fsm.state(), State::PickAction(0));
    assert!(fsm.choose_action(Some(2)).is_ok());
    assert_eq!(fsm.state(), State::PickFirmware);
}

#[test]
fn cancelling() {
    let mut fsm = choice();
    fsm.choose_firmware(None);
    assert_eq!(fsm.state(), State::Cancel);
    assert!(fsm.complete());
    assert!(fsm.selection().is_none());

    let mut fsm = choice();
    fsm.choose_firmware(Some(0));
    assert!(fsm.choose_action(None).is_ok());
    assert_eq!(fsm.state(), State::Cancel);
}

#[test]
fn impossible_action_refused() {
    let mut fsm = choice();
    fsm.choose_firmware(Some(1));
    assert_eq!(fsm.choose_action(Some(3)), Err("Impossible selection for action".to_string()));
    assert_eq!(fsm.state(), State::PickAction(1));
}

#[test]
fn same_names_pick_the_first_variant() {
    let mut fsm = FirmwareMultichoice::new(
        "v2.0.0",
        vec![download("Same", "first.elf"), download("Same", "second.elf")],
    );
    fsm.choose_firmware(Some(1));
    assert!(fsm.choose_action(Some(0)).is_ok());
    assert_eq!(fsm.state(), State::FlashFirmware(0));
    assert_eq!(fsm.selection().unwrap().file_name(), "first.elf");
}
