use bmputil::bmp::{
    detach_requests, dfu_functional_descriptor, display_text, find_dfu_interface, find_functional_descriptor,
    has_functional_descriptor, BmpPlatform, DfuControlRequest,
};
use bmputil::bmp_matcher::{BmpMatchResults, BmpMatcher, ProbeMatch, UsbCandidate};
use bmputil::error::{Error, ErrorKind, ErrorSource};
use bmputil::firmware_type::FirmwareType;
use bmputil::usb::{
    is_descriptor_chain, DescriptorConvertError, DfuFunctionalDescriptor, DfuOperatingMode, DfuRequest,
    GenericDescriptorRef, Pid, PortId, Vid,
};
use bmputil::reboot_wait::{reboot_wait_step, search_reports, RebootWaitStep, SearchOutcome};
use bmputil::{AllowDangerous, BmpParams};

#[test]
fn platforms_from_usb_ids() {
    assert_eq!(
        BmpPlatform::from_vid_pid(Vid(0x1d50), Pid(0x6018)),
        Some((BmpPlatform::BlackMagicDebug, DfuOperatingMode::Runtime))
    );
    assert_eq!(
        BmpPlatform::from_vid_pid(Vid(0x1209), Pid(0xbadb)),
        Some((BmpPlatform::DragonBoot, DfuOperatingMode::FirmwareUpgrade))
    );
    assert_eq!(BmpPlatform::from_vid_pid(Vid(0x1d50), Pid(0x6019)), None);
    for platform in [BmpPlatform::BlackMagicDebug, BmpPlatform::DragonBoot, BmpPlatform::STM32DeviceDFU] {
        let (vid, pid) = platform.dfu_ids();
        assert_eq!(BmpPlatform::from_vid_pid(vid, pid), Some((platform, DfuOperatingMode::FirmwareUpgrade)));
        assert_eq!(platform.ids_for_mode(DfuOperatingMode::Runtime), (Vid(0x1d50), Pid(0x6018)));
        assert_eq!(platform.ids_for_mode(DfuOperatingMode::FirmwareUpgrade), platform.dfu_ids());
        assert_eq!(platform.runtime_ids(), BmpPlatform::bmd_runtime_vid_pid());
    }
    assert_eq!(BmpPlatform::STM32DeviceDFU.dfu_ids(), (Vid(0x0483), Pid(0xdf11)));
    assert_eq!(BmpPlatform::default(), BmpPlatform::BlackMagicDebug);
}

#[test]
fn platform_load_addresses() {
    assert_eq!(BmpPlatform::BlackMagicDebug.load_address(FirmwareType::Bootloader), 0x0800_0000);
    assert_eq!(BmpPlatform::BlackMagicDebug.load_address(FirmwareType::Application), 0x0800_2000);
    assert_eq!(BmpPlatform::DragonBoot.load_address(FirmwareType::Bootloader), 0x0800_2000);
    assert_eq!(BmpPlatform::STM32DeviceDFU.load_address(FirmwareType::Application), 0x0800_0000);
}

const FUNCTIONAL: [u8; 9] = [0x09, 0x21, 0x0b, 0xff, 0x00, 0x00, 0x08, 0x1a, 0x01];

#[test]
fn dfu_functional_descriptors() {
    let d = DfuFunctionalDescriptor::copy_from_bytes(&FUNCTIONAL).unwrap();
    assert_eq!(d.wDetachTimeOut, 255);
    assert_eq!(d.wTransferSize, 2048);
    assert_eq!(d.bcdDFUVersion, 0x011a);
    let mut wrong = FUNCTIONAL;
    wrong[0] = 7;
    assert_eq!(
        DfuFunctionalDescriptor::copy_from_bytes(&wrong),
        Err(DescriptorConvertError::LengthFieldMismatch { provided_length: 7, correct_length: 9 })
    );
    let mut other = FUNCTIONAL;
    other[1] = 0x24;
    assert_eq!(
        DfuFunctionalDescriptor::copy_from_bytes(&other),
        Err(DescriptorConvertError::DescriptorTypeMismatch { provided_type: 0x24, correct_type: 0x21 })
    );
}

#[test]
fn descriptor_chains() {
    let mut extra = vec![0x05, 0x24, 0x00, 0x10, 0x01];
    extra.extend_from_slice(&FUNCTIONAL);
    let parts = GenericDescriptorRef::multiple_from_bytes(&extra);
    assert_eq!(parts.len(), 2);
    assert_eq!(parts[0].length(), 5);
    assert_eq!(parts[1].descriptor_type(), 0x21);
    let d = dfu_functional_descriptor(&extra).unwrap();
    assert_eq!(d.wDetachTimeOut, 255);
}

#[test]
fn dfu_interfaces_and_detach() {
    let interfaces = vec![vec![(0x02u8, 0x02u8)], vec![(0x0a, 0x00), (0xfe, 0x01)], vec![(0xfe, 0x01)]];
    assert_eq!(find_dfu_interface(&interfaces), Some(1));
    assert_eq!(find_dfu_interface(&interfaces[..1]), None);
    let d = DfuFunctionalDescriptor::copy_from_bytes(&FUNCTIONAL).unwrap();
    assert_eq!(
        detach_requests(DfuOperatingMode::Runtime, 2, &d),
        vec![DfuControlRequest { request: DfuRequest::Detach, value: 255, index: 2 }]
    );
    assert_eq!(
        detach_requests(DfuOperatingMode::FirmwareUpgrade, 2, &d),
        vec![
            DfuControlRequest { request: DfuRequest::Dnload, value: 0, index: 0 },
            DfuControlRequest { request: DfuRequest::GetStatus, value: 0, index: 2 },
        ]
    );
    assert_eq!(DfuRequest::GetStatus.code(), 3);
}

#[test]
fn ports_and_display() {
    let port = PortId::new(1, "/sys/bus/usb/devices/1-4.2".to_string());
    assert_eq!(port.to_string(), "1-4.2");
    assert!(port.eq(&port.duplicate()));
    assert!(!port.eq(&PortId::new(2, "/sys/bus/usb/devices/1-4.2".to_string())));
    assert_eq!(PortId::new(1, "/".to_string()).to_string(), "Invalid PortId (bad path)");
    assert_eq!(
        display_text("Black Magic Probe v2.0.0", "ABC123", &port),
        "Black Magic Probe v2.0.0\n  Serial: ABC123\n  Port:  1-4.2"
    );
}

fn candidate(vid: u16, pid: u16, serial: Option<&str>, bus: u8) -> UsbCandidate {
    UsbCandidate {
        vid,
        pid,
        serial: serial.map(|s| s.to_string()),
        port: PortId::new(bus, format!("/dev/bus/usb/00{bus}/1")),
    }
}

#[test]
fn matching_probes() {
    let devices = vec![
        candidate(0x046d, 0xc52b, None, 1),
        candidate(0x1d50, 0x6018, Some("AAA"), 2),
        candidate(0x1d50, 0x6017, Some("BBB"), 3),
    ];
    assert_eq!(
        BmpMatcher::new().classify(&devices),
        vec![ProbeMatch::NotAProbe, ProbeMatch::Selected, ProbeMatch::Selected]
    );
    assert_eq!(
        BmpMatcher::new().index(Some(1)).classify(&devices),
        vec![ProbeMatch::NotAProbe, ProbeMatch::FilteredOut, ProbeMatch::Selected]
    );
    assert_eq!(
        BmpMatcher::new().serial(Some("AAA")).classify(&devices),
        vec![ProbeMatch::NotAProbe, ProbeMatch::Selected, ProbeMatch::FilteredOut]
    );
    let port = devices[2].port.duplicate();
    assert_eq!(
        BmpMatcher::new_with_port(port).classify(&devices),
        vec![ProbeMatch::NotAProbe, ProbeMatch::FilteredOut, ProbeMatch::Selected]
    );
}

#[test]
fn matcher_builder() {
    let m = BmpMatcher::new().index(Some(3)).serial(Some("XYZ")).port(Some(PortId::new(4, "/a/b".to_string())));
    assert_eq!(m.get_index(), Some(3));
    assert_eq!(m.get_serial(), Some("XYZ"));
    assert!(m.get_port().unwrap().eq(&PortId::new(4, "/a/b".to_string())));
    let cleared = m.serial(None).port(None).index(None);
    assert_eq!(cleared.get_index(), None);
    assert_eq!(cleared.get_serial(), None);
    assert!(cleared.get_port().is_none());
}

struct Params;

impl BmpParams for Params {
    fn spec_index(&self) -> Option<usize> {
        Some(2)
    }

    fn spec_serial_number(&self) -> Option<&str> {
        Some("S1")
    }

    fn index(&self) -> Option<usize> {
        Some(2)
    }

    fn serial_number(&self) -> Option<&str> {
        Some("S1")
    }
}

#[test]
fn matcher_from_params() {
    let m = BmpMatcher::from_params(&Params);
    assert_eq!(m.get_index(), Some(2));
    assert_eq!(m.get_serial(), Some("S1"));
    assert!(m.get_port().is_none());
}

#[test]
fn popping_match_results() {
    let mut none: BmpMatchResults<u32, u32, String> =
        BmpMatchResults { found: vec![], filtered_out: vec![7], errors: vec!["e".to_string()] };
    assert_eq!(none.pop_single("flash").err(), Some(ErrorKind::DeviceNotFound));
    assert_eq!(none.pop_all().err(), Some(ErrorKind::DeviceNotFound));
    assert!(none.filtered_out.is_empty());
    let mut one: BmpMatchResults<u32, u32, String> = BmpMatchResults { found: vec![5], filtered_out: vec![], errors: vec![] };
    assert_eq!(one.pop_single("flash"), Ok(5));
    assert!(one.found.is_empty());
    let mut two: BmpMatchResults<u32, u32, String> = BmpMatchResults { found: vec![5, 6], filtered_out: vec![], errors: vec![] };
    assert_eq!(two.pop_single_silent().err(), Some(ErrorKind::TooManyDevices));
    assert_eq!(two.found, vec![5, 6]);
    assert_eq!(two.pop_all(), Ok(vec![5, 6]));
    assert!(two.found.is_empty());
}

#[test]
fn error_messages() {
    assert_eq!(ErrorKind::DeviceNotFound.to_string(), "Black Magic Probe device not found (check connection?)");
    assert_eq!(
        ErrorKind::DeviceSeemsInvalid("no string descriptor languages".to_string()).to_string(),
        "\nBlack Magic Probe device returned bad data (no string descriptor languages) during configuration.\nThis generally shouldn't be possible. Maybe cable is bad, or OS is messing with things?"
    );
    assert_eq!(
        ErrorKind::External(ErrorSource::Nusb("boom".to_string())).to_string(),
        "unhandled nusb error: boom"
    );
    let mut e = ErrorKind::TooManyDevices.error_from("cause".to_string());
    e.context = Some("reading firmware version".to_string());
    assert_eq!(
        e.to_string(),
        "(while reading firmware version): current operation only supports one Black Magic Probe device but more than one device was found\nCaused by: cause\n"
    );
    assert_eq!(Error::new(ErrorKind::ReleaseMetadataInvalid, None).to_string(), "Black Magic Debug release metadata was mallformed");
    assert_eq!(ErrorKind::DeviceNotFound.error().kind, ErrorKind::DeviceNotFound);
}

#[test]
fn dangerous_option_names() {
    assert_eq!(AllowDangerous::value_variants(), vec![AllowDangerous::Never, AllowDangerous::Really]);
    assert_eq!(AllowDangerous::Never.name(), "never");
    assert_eq!(AllowDangerous::Really.name(), "really");
}

#[test]
fn descriptor_chain_checks() {
    let mut extra = vec![0x05, 0x24, 0x00, 0x10, 0x01];
    extra.extend_from_slice(&FUNCTIONAL);
    assert!(is_descriptor_chain(&extra));
    assert!(is_descriptor_chain(&FUNCTIONAL));
    assert!(!is_descriptor_chain(&[]));
    assert!(!is_descriptor_chain(&[0x00, 0x01, 0x02]));
    assert!(!is_descriptor_chain(&[0x04, 0x01, 0x02]));
    assert!(!is_descriptor_chain(&[0x02, 0x01, 0x02, 0x03]));
    assert!(has_functional_descriptor(&extra));
    assert_eq!(find_functional_descriptor(&extra).unwrap().unwrap().wDetachTimeOut, 255);
    let no_functional = [0x05u8, 0x24, 0x00, 0x10, 0x01];
    assert!(!has_functional_descriptor(&no_functional));
    assert!(find_functional_descriptor(&no_functional).is_none());
    let short_functional = [0x05u8, 0x24, 0x00, 0x10, 0x01, 0x04, 0x21, 0x00, 0x00];
    assert!(!has_functional_descriptor(&short_functional));
    let untyped_first = [0x01u8, 0x09, 0x21, 0x0b, 0xff, 0x00, 0x00, 0x08, 0x1a, 0x01];
    assert!(is_descriptor_chain(&untyped_first));
    assert!(!has_functional_descriptor(&untyped_first));
    let mut bad_type = FUNCTIONAL;
    bad_type[0] = 0x0a;
    let mut chain = bad_type.to_vec();
    chain.push(0);
    assert!(has_functional_descriptor(&chain));
    assert_eq!(
        find_functional_descriptor(&chain),
        Some(Err(DescriptorConvertError::LengthFieldMismatch { provided_length: 0x0a, correct_length: 9 }))
    );
}

#[test]
fn waiting_for_reboot() {
    assert_eq!(reboot_wait_step(SearchOutcome::Found, 10, 5), RebootWaitStep::Finish);
    assert_eq!(reboot_wait_step(SearchOutcome::Failed, 1, 5), RebootWaitStep::Finish);
    assert_eq!(reboot_wait_step(SearchOutcome::NotFound, 5, 5), RebootWaitStep::SearchAgain);
    assert_eq!(reboot_wait_step(SearchOutcome::NotFound, 6, 5), RebootWaitStep::TimedOut);
    assert!(!search_reports(2, 5));
    assert!(search_reports(3, 5));
    assert!(!search_reports(5, 10));
}
