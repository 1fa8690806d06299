use bmputil::error::{DfuCoreFailure, DfuNusbFailure, Error, ErrorKind, ErrorSource};

#[test]
fn dfu_transport_failures() {
    let e = Error::from_dfu_nusb(DfuNusbFailure::Nusb("pipe".into()));
    assert_eq!(e.kind, ErrorKind::External(ErrorSource::Nusb("pipe".into())));
    assert!(e.source.is_none());
    assert_eq!(e.to_string(), "unhandled nusb error: pipe");

    let e = Error::from_dfu_nusb(DfuNusbFailure::AltSettingNotFound("no alt".into()));
    assert_eq!(e.kind, ErrorKind::DeviceSeemsInvalid("DFU interface (alt mode) not found".into()));
    assert_eq!(e.source.as_deref(), Some("no alt"));

    let e = Error::from_dfu_nusb(DfuNusbFailure::FunctionalDescriptorNotFound("x".into()));
    assert_eq!(e.kind, ErrorKind::DeviceSeemsInvalid("DFU functional descriptor not found".into()));

    let e = Error::from_dfu_nusb(DfuNusbFailure::FunctionalDescriptor("short".into()));
    assert_eq!(e.kind, ErrorKind::DeviceSeemsInvalid("DFU functional interface descriptor".into()));
    assert_eq!(
        e.to_string(),
        "\nBlack Magic Probe device returned bad data (DFU functional interface descriptor) during configuration.\n\
         This generally shouldn't be possible. Maybe cable is bad, or OS is messing with things?\nCaused by: short\n"
    );

    let e = Error::from_dfu_nusb(DfuNusbFailure::Other("stall".into()));
    assert_eq!(e.kind, ErrorKind::External(ErrorSource::DfuNusb("stall".into())));
}

#[test]
fn dfu_engine_failures() {
    for f in [
        DfuCoreFailure::MemoryLayout("m".into()),
        DfuCoreFailure::InvalidAddress("a".into()),
        DfuCoreFailure::InvalidInterfaceString("i".into()),
    ] {
        let e = Error::from_dfu_core(f);
        assert_eq!(e.kind, ErrorKind::DeviceSeemsInvalid("DFU interface memory layout string".into()));
        assert!(e.source.is_some());
    }
    let e = Error::from_dfu_core(DfuCoreFailure::Other("state".into()));
    assert_eq!(e.kind, ErrorKind::External(ErrorSource::DfuCore("state".into())));
    assert_eq!(e.to_string(), "unhandled dfu_core error: state");
}
