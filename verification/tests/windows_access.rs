use bmputil::windows_access::{
    driver_database_key, drivers_to_install, elevated_parameters, hardware_id_matches, nothing_to_install,
    DriverInstalls, APP_MODE_HARDWARE_ID, DFU_MODE_HARDWARE_ID,
};

#[test]
fn driver_database_location() {
    assert_eq!(driver_database_key("USB"), "SYSTEM\\DriverDatabase\\DeviceIds\\USB");
}

#[test]
fn hardware_ids_match_without_case() {
    assert!(hardware_id_matches("vid_1d50&pid_6018&mi_04", APP_MODE_HARDWARE_ID));
    assert!(hardware_id_matches("VID_1D50&PID_6017", DFU_MODE_HARDWARE_ID));
    assert!(!hardware_id_matches("VID_1D50&PID_6018", APP_MODE_HARDWARE_ID));
}

#[test]
fn which_drivers_to_install() {
    assert_eq!(drivers_to_install(true, Some(1), Some(2)), DriverInstalls { app_mode: true, dfu_mode: true });
    assert_eq!(drivers_to_install(false, Some(0), None), DriverInstalls { app_mode: true, dfu_mode: true });
    assert_eq!(drivers_to_install(false, Some(1), Some(0)), DriverInstalls { app_mode: false, dfu_mode: true });
    let none = drivers_to_install(false, Some(1), Some(3));
    assert_eq!(none, DriverInstalls { app_mode: false, dfu_mode: false });
    assert!(nothing_to_install(none));
    assert!(!nothing_to_install(drivers_to_install(true, Some(1), Some(1))));
}

#[test]
fn restart_parameters() {
    let args = vec!["bmputil-cli".to_string(), "probe".to_string(), "update".to_string()];
    assert_eq!(elevated_parameters(&args, 1234), "probe update --windows-wdi-install-mode=1234");
    assert_eq!(elevated_parameters(&args[..1], 7), "--windows-wdi-install-mode=7");
}
