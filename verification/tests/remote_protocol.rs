use bmputil::serial::remote::protocol_v0::{RemoteV0, RemoteV0Plus, REMOTE_JTAG_INIT, REMOTE_SWD_INIT};
use bmputil::serial::remote::protocol_v2::{RemoteV2, REMOTE_TARGET_VOLTAGE};
use bmputil::serial::remote::protocol_v3::RemoteV3;
use bmputil::serial::remote::protocol_v4::{RemoteV4, REMOTE_HL_ACCEL, REMOTE_HL_ARCHS, REMOTE_HL_FAMILIES};
use bmputil::serial::bmd_rsp::{scan_response, REMOTE_HL_CHECK, REMOTE_START};
use bmputil::serial::interface::ProbeInterface;
use bmputil::serial::remote::{
    accelerations_from_response, architectures_from_response, check_init_response, check_startup_response,
    decode_response, families_from_response, power_from_response, protocol_version_from_response, Acceleration,
    ProtocolVersion, TargetArchitecture, TargetFamily,
};

#[test]
fn decode_response_reads_hex_digits() {
    assert_eq!(decode_response("1f", 8), 0x1f);
    assert_eq!(decode_response("DEADbeef00", 8), 0xdeadbeef);
    assert_eq!(decode_response("", 8), 0);
    assert_eq!(decode_response("ffffffffffffffff1", 17), 0xffff_ffff_ffff_fff1);
}

#[test]
fn protocol_versions() {
    assert_eq!(protocol_version_from_response("N"), Ok(ProtocolVersion::V0));
    assert_eq!(protocol_version_from_response("K00000000"), Ok(ProtocolVersion::V0Plus));
    assert_eq!(protocol_version_from_response("K4"), Ok(ProtocolVersion::V4));
    assert_eq!(protocol_version_from_response("K7"), Err("Unknown remote protocol version 7".to_string()));
    assert_eq!(
        protocol_version_from_response(""),
        Err("Probe failed to respond at all to protocol version request".to_string())
    );
    assert_eq!(
        protocol_version_from_response("Ebad"),
        Err("Probe responded improperly to protocol version request with Ebad".to_string())
    );
    assert_eq!(ProtocolVersion::V0Plus.to_string(), "v0+");
    assert_eq!(ProtocolVersion::Unknown.to_string(), "<unknown>");
}

#[test]
fn session_replies() {
    assert_eq!(check_startup_response("KBlack Magic Probe v2.0.0"), Ok(()));
    assert_eq!(check_startup_response("E"), Err("Remote protocol startup failed, error unknown".to_string()));
    assert_eq!(check_startup_response("Eoops"), Err("Remote protocol startup failed, error oops".to_string()));
    assert_eq!(check_init_response("K", "JTAG"), Ok(()));
    assert_eq!(check_init_response("E12", "SWD"), Err("Remote SWD init failed, error 12".to_string()));
    assert_eq!(power_from_response("K1"), Ok(true));
    assert_eq!(power_from_response("K0"), Ok(false));
    assert_eq!(power_from_response("K"), Err("Current powered response is too short".to_string()));
    assert_eq!(power_from_response("E"), Err("Supported current powered request failed".to_string()));
}

#[test]
fn capability_replies() {
    let archs = architectures_from_response("K5").unwrap().unwrap();
    assert_eq!(archs.bits(), 5);
    assert_eq!(archs.to_string(), "ARM Cortex-M, RISC-V 32-bit");
    assert!(archs.contains(TargetArchitecture::cortex_m()));
    assert!(!archs.contains(TargetArchitecture::riscv64()));
    assert!(architectures_from_response("N").unwrap().is_none());
    assert_eq!(
        families_from_response("Efail").err(),
        Some("Supported architectures request failed, error fail".to_string())
    );
    let families = families_from_response("K80801").unwrap().unwrap();
    assert_eq!(families.to_string(), "AteryTek AT32, NXP i.MXRT, Puya PY32");
    assert_eq!(TargetFamily::from(0).to_string(), "");
}

#[test]
fn acceleration_replies() {
    let accel = accelerations_from_response("K0f").unwrap();
    assert_eq!(accel.to_string(), "ADIv5, ADIv6, RISC-V, Cortex-A/R");
    assert!(accel.contains(Acceleration::adiv6()));
    assert_eq!(
        accelerations_from_response("E\"x").err(),
        Some("Error talking with probe, expected OK response to supported accelerations query, got \"E\\\"x\"".to_string())
    );
}

#[test]
fn response_framing() {
    assert_eq!(scan_response(b"junk&K1234#rest"), Some((b"K1234".to_vec(), 11)));
    assert_eq!(scan_response(b"&K12"), None);
    assert_eq!(scan_response(b"no reply"), None);
    let mut long = vec![b'&'];
    long.extend(std::iter::repeat(b'x').take(1100));
    let (reply, used) = scan_response(&long).unwrap();
    assert_eq!(reply.len(), 1024);
    assert_eq!(used, 1025);
    assert_eq!(REMOTE_START, "+#!GA#");
    assert_eq!(REMOTE_HL_CHECK, "!HC#");
}

#[test]
fn gdb_port_names() {
    let probe = ProbeInterface::new("7BB180B4".to_string());
    let name = "usb-Black_Magic_Debug_Black_Magic_Probe_v2.0.0_7BB180B4-if00";
    assert!(ProbeInterface::device_is_bmd_gdb_port(name));
    assert!(probe.serial_matches(name));
    assert!(!ProbeInterface::device_is_bmd_gdb_port("usb-Black_Magic_Debug_Black_Magic_Probe_v2.0.0_7BB180B4-if02"));
    assert!(!ProbeInterface::device_is_bmd_gdb_port("usb-FTDI_FT232R_A1B2-if00"));
    let names = vec![
        "usb-1BitSquared_Black_Magic_Probe_v1.10_ABCDEF-if00".to_string(),
        name.to_string(),
        "usb-Black_Magic_Debug_Black_Magic_Probe_v2.0.0_7BB180B4-if02".to_string(),
    ];
    assert_eq!(probe.find_gdb_port(&names), Some(1));
    assert_eq!(ProbeInterface::new("0000".to_string()).find_gdb_port(&names), None);
    assert_eq!(probe.not_found_message(), "Failed to locate a device matching serial number 7BB180B4");
    assert_eq!(probe.serial_number(), "7BB180B4");
}

#[test]
fn port_paths_per_system() {
    let probe = ProbeInterface::new("7BB180B4".to_string());
    assert_eq!(probe.macos_port_path(), "/dev/cu.usbmodem7BB180B41");
    assert_eq!(probe.windows_serial_subpath(), "\\7BB180B4");
    assert_eq!(
        ProbeInterface::windows_key_path(&probe.windows_serial_subpath()),
        "SYSTEM\\CurrentControlSet\\Enum\\USB\\VID_1D50&PID_6018\\7BB180B4"
    );
    assert_eq!(
        ProbeInterface::windows_parameter_subpath("6&1a2b3c"),
        "&MI_00\\6&1a2b3c&0000\\Device Parameters"
    );
    assert_eq!(ProbeInterface::windows_port_path("COM3"), "\\\\.\\COM3");
    assert_eq!(ProbeInterface::windows_port_path("\\\\.\\COM12"), "\\\\.\\COM12");
}

#[test]
fn protocol_v0_offers_little() {
    let v0 = RemoteV0::new();
    assert_eq!(REMOTE_JTAG_INIT, "!JS#");
    assert_eq!(REMOTE_SWD_INIT, "!SS#");
    assert_eq!(v0.jtag_init("K"), Ok(()));
    assert_eq!(v0.swd_init("Eno target"), Err("Remote SWD init failed, error no target".to_string()));
    assert!(!v0.adiv5_init() && !v0.adiv6_init() && !v0.riscv_jtag_init());
    assert_eq!(v0.get_comms_frequency(), u32::MAX);
    assert!(!v0.set_comms_frequency(1_000_000));
    assert!(v0.supported_architectures().is_none());
    assert!(v0.supported_families().is_none());
    assert_eq!(v0.get_target_power_state(), Err("Not supported".to_string()));
    assert!(RemoteV0Plus::new().adiv5_init());
}

#[test]
fn protocol_v2_and_v3() {
    let v2 = RemoteV2::new();
    assert_eq!(REMOTE_TARGET_VOLTAGE, "!Gp#");
    assert_eq!(v2.get_target_power_state("K1"), Ok(true));
    assert_eq!(v2.get_target_power_state("K0"), Ok(false));
    assert_eq!(v2.get_target_power_state("E"), Err("Supported current powered request failed".to_string()));
    assert_eq!(v2.jtag_init(""), Err("Remote JTAG init failed, error unknown".to_string()));
    assert_eq!(v2.get_comms_frequency(), u32::MAX);
    let v3 = RemoteV3::new();
    assert!(v3.adiv5_init());
    assert_eq!(v3.inner().get_target_power_state("K1"), Ok(true));
}

#[test]
fn protocol_v4_accelerations() {
    assert_eq!((REMOTE_HL_ACCEL, REMOTE_HL_ARCHS, REMOTE_HL_FAMILIES), ("!HA#", "!Ha#", "!HF#"));
    let v4 = RemoteV4::new("K5").unwrap();
    assert!(v4.adiv5_init());
    assert!(!v4.adiv6_init());
    assert!(v4.riscv_jtag_init());
    assert!(RemoteV4::new("E").is_err());
    assert_eq!(v4.supported_architectures("K3").unwrap().unwrap().bits(), 3);
    assert!(v4.supported_families("N").unwrap().is_none());
    assert_eq!(
        v4.supported_families("Efail"),
        Err("Supported architectures request failed, error fail".to_string())
    );
    assert!(v4.inner().adiv5_init());
}

#[test]
fn named_target_families() {
    assert_eq!(TargetFamily::at32().bits(), 0x1);
    assert_eq!(TargetFamily::stm().bits(), 0x1_0000);
    assert_eq!(TargetFamily::nxp_imxrt().bits(), 0x8_0000);
    assert_eq!(TargetFamily::renesas_rz().to_string(), "Renesas RZ");
    assert_eq!(TargetFamily::renesas_ra().to_string(), "Renesas RA");
    let families = TargetFamily::from(TargetFamily::stm().bits() | TargetFamily::rp().bits());
    assert!(families.contains(TargetFamily::stm()));
    assert!(!families.contains(TargetFamily::sam()));
    assert_eq!(families.to_string(), "RPi Foundation RP2040/RP2350, ST Micro STM32");
}
