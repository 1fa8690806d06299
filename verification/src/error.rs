//! Errors of Black Magic Probe operations: what kind of failure, what caused it, and what was
//! being attempted.
use vstd::prelude::*;

use crate::text::string_extend_str;

verus! {

/// Sources of external error: the message of the failing library's error.
#[derive(Debug, Clone, PartialEq, Eq)]
pub enum ErrorSource {
    Nusb(String),
    DfuNusb(String),
    DfuCore(String),
}

/// Kinds of errors for [`Error`].
#[derive(Debug, Clone, PartialEq, Eq)]
pub enum ErrorKind {
    /// Current operation only supports one Black Magic Probe but more than one device was found.
    TooManyDevices,
    /// Black Magic Probe device not found.
    DeviceNotFound,
    /// Black Magic Probe found disconnected during an ongoing operation.
    DeviceDisconnectDuringOperation,
    /// Black Magic Probe device returned bad data during configuration.
    ///
    /// This generally shouldn't be possible, but could happen if the cable is bad, the OS is
    /// messing with things, or the firmware on the device is corrupted.
    DeviceSeemsInvalid(String),
    /// Black Magic Debug release metadata was invalid in some way
    ReleaseMetadataInvalid,
    /// Unhandled external error.
    External(ErrorSource),
}

/// The message for an error kind.
pub open spec fn error_kind_text(k: ErrorKind) -> Seq<char> {
    match k {
        ErrorKind::TooManyDevices =>
            "current operation only supports one Black Magic Probe device but more than one device was found"@,
        ErrorKind::DeviceNotFound => "Black Magic Probe device not found (check connection?)"@,
        ErrorKind::DeviceDisconnectDuringOperation => "Black Magic Probe device found disconnected"@,
        ErrorKind::DeviceSeemsInvalid(thing) => "\nBlack Magic Probe device returned bad data ("@ + thing@
            + ") during configuration.\nThis generally shouldn't be possible. Maybe cable is bad, or OS is messing with things?"@,
        ErrorKind::ReleaseMetadataInvalid => "Black Magic Debug release metadata was mallformed"@,
        ErrorKind::External(ErrorSource::Nusb(e)) => "unhandled nusb error: "@ + e@,
        ErrorKind::External(ErrorSource::DfuNusb(e)) => "unhandled dfu_nusb error: "@ + e@,
        ErrorKind::External(ErrorSource::DfuCore(e)) => "unhandled dfu_core error: "@ + e@,
    }
}

impl ErrorKind {
    /// The message for this error kind.
    pub fn to_string(&self) -> (r: String)
        ensures
            r@ == error_kind_text(*self),
    {
        match self {
            ErrorKind::TooManyDevices => "current operation only supports one Black Magic Probe device but more than one device was found".to_owned(),
            ErrorKind::DeviceNotFound => "Black Magic Probe device not found (check connection?)".to_owned(),
            ErrorKind::DeviceDisconnectDuringOperation => "Black Magic Probe device found disconnected".to_owned(),
            ErrorKind::DeviceSeemsInvalid(thing) => {
                let mut r = "\nBlack Magic Probe device returned bad data (".to_owned();
                string_extend_str(&mut r, thing.as_str());
                string_extend_str(
                    &mut r,
                    ") during configuration.\nThis generally shouldn't be possible. Maybe cable is bad, or OS is messing with things?",
                );
                r
            },
            ErrorKind::ReleaseMetadataInvalid => "Black Magic Debug release metadata was mallformed".to_owned(),
            ErrorKind::External(source) => {
                let (mut r, e) = match source {
                    ErrorSource::Nusb(e) => ("unhandled nusb error: ".to_owned(), e),
                    ErrorSource::DfuNusb(e) => ("unhandled dfu_nusb error: ".to_owned(), e),
                    ErrorSource::DfuCore(e) => ("unhandled dfu_core error: ".to_owned(), e),
                };
                string_extend_str(&mut r, e.as_str());
                r
            },
        }
    }

    /// Creates a new [`Error`] from this error kind.
    pub fn error(self) -> (r: Error)
        ensures
            r.kind == self,
            r.source is None,
            r.context is None,
    {
        Error::new(self, None)
    }

    /// Creates a new [`Error`] from this error kind, with the message of the error that caused it.
    pub fn error_from(self, source: String) -> (r: Error)
        ensures
            r.kind == self,
            r.source == Some(source),
            r.context is None,
    {
        Error::new(self, Some(source))
    }
}

/// Error type for Black Magic Probe operations. Easily constructed from [`ErrorKind`].
#[derive(Debug)]
pub struct Error {
    pub kind: ErrorKind,
    /// The message of the error that caused this one.
    pub source: Option<String>,
    /// A string for additional context about what was being attempted when this error occurred.
    ///
    /// Example: "reading current firmware version".
    pub context: Option<String>,
}

/// The message for an error: the kind, after the context where there is one, and then the cause.
pub open spec fn error_text(e: Error) -> Seq<char> {
    let head = match e.context {
        Some(ctx) => "(while "@ + ctx@ + "): "@ + error_kind_text(e.kind),
        None => error_kind_text(e.kind),
    };
    match e.source {
        Some(src) => head + "\nCaused by: "@ + src@ + "\n"@,
        None => head,
    }
}

impl Error {
    /// An error of a kind, with an optional cause and no context.
    pub fn new(kind: ErrorKind, source: Option<String>) -> (r: Self)
        ensures
            r.kind == kind,
            r.source == source,
            r.context is None,
    {
        Error { kind, source, context: None }
    }

    /// The message for this error.
    pub fn to_string(&self) -> (r: String)
        ensures
            r@ == error_text(*self),
    {
        let mut r = String::new();
        match &self.context {
            Some(ctx) => {
                string_extend_str(&mut r, "(while ");
                string_extend_str(&mut r, ctx.as_str());
                string_extend_str(&mut r, "): ");
                let k = self.kind.to_string();
                string_extend_str(&mut r, k.as_str());
            },
            None => {
                let k = self.kind.to_string();
                string_extend_str(&mut r, k.as_str());
            },
        }
        match &self.source {
            Some(src) => {
                string_extend_str(&mut r, "\nCaused by: ");
                string_extend_str(&mut r, src.as_str());
                string_extend_str(&mut r, "\n");
            },
            None => {},
        }
        r
    }
}

/// A failure of the DFU transport over nusb, told apart as far as the errors it maps to differ;
/// each carries the failing library's message.
#[derive(Debug, Clone, PartialEq, Eq)]
pub enum DfuNusbFailure {
    /// A USB error.
    Nusb(String),
    /// The DFU interface's alternate setting was not found.
    AltSettingNotFound(String),
    /// The DFU functional descriptor was not found.
    FunctionalDescriptorNotFound(String),
    /// The DFU functional descriptor could not be read; the message of why.
    FunctionalDescriptor(String),
    /// Any other failure.
    Other(String),
}

/// A failure of the DFU protocol engine, told apart as far as the errors it maps to differ; each
/// carries the failing library's message.
#[derive(Debug, Clone, PartialEq, Eq)]
pub enum DfuCoreFailure {
    /// The memory layout string could not be read; the message of why.
    MemoryLayout(String),
    /// The address in the memory layout is invalid.
    InvalidAddress(String),
    /// The interface string is invalid.
    InvalidInterfaceString(String),
    /// Any other failure.
    Other(String),
}

/// Whether an error says that the device seems invalid because of `thing`, caused by an error
/// with message `cause`.
pub open spec fn seems_invalid(e: Error, thing: Seq<char>, cause: String) -> bool {
    &&& e.kind matches ErrorKind::DeviceSeemsInvalid(t) && t@ == thing
    &&& e.source == Some(cause)
    &&& e.context is None
}

/// Whether an error passes on an external error, with no cause or context of its own.
pub open spec fn passed_on(e: Error, source: ErrorSource) -> bool {
    &&& e.kind == ErrorKind::External(source)
    &&& e.source is None
    &&& e.context is None
}

impl Error {
    /// The error a DFU transport failure becomes: USB errors and other failures are passed on;
    /// a missing or unreadable DFU interface or functional descriptor means the device seems
    /// invalid.
    pub fn from_dfu_nusb(f: DfuNusbFailure) -> (r: Error)
        ensures
            match f {
                DfuNusbFailure::Nusb(m) => passed_on(r, ErrorSource::Nusb(m)),
                DfuNusbFailure::AltSettingNotFound(m) => seems_invalid(r, "DFU interface (alt mode) not found"@, m),
                DfuNusbFailure::FunctionalDescriptorNotFound(m) => seems_invalid(
                    r,
                    "DFU functional descriptor not found"@,
                    m,
                ),
                DfuNusbFailure::FunctionalDescriptor(m) => seems_invalid(r, "DFU functional interface descriptor"@, m),
                DfuNusbFailure::Other(m) => passed_on(r, ErrorSource::DfuNusb(m)),
            },
    {
        match f {
            DfuNusbFailure::Nusb(m) => ErrorKind::External(ErrorSource::Nusb(m)).error(),
            DfuNusbFailure::AltSettingNotFound(m) => ErrorKind::DeviceSeemsInvalid(
                "DFU interface (alt mode) not found".to_owned(),
            ).error_from(m),
            DfuNusbFailure::FunctionalDescriptorNotFound(m) => ErrorKind::DeviceSeemsInvalid(
                "DFU functional descriptor not found".to_owned(),
            ).error_from(m),
            DfuNusbFailure::FunctionalDescriptor(m) => ErrorKind::DeviceSeemsInvalid(
                "DFU functional interface descriptor".to_owned(),
            ).error_from(m),
            DfuNusbFailure::Other(m) => ErrorKind::External(ErrorSource::DfuNusb(m)).error(),
        }
    }

    /// The error a DFU protocol engine failure becomes: a bad memory layout, address or interface
    /// string means the device seems invalid; other failures are passed on.
    pub fn from_dfu_core(f: DfuCoreFailure) -> (r: Error)
        ensures
            match f {
                DfuCoreFailure::MemoryLayout(m) => seems_invalid(r, "DFU interface memory layout string"@, m),
                DfuCoreFailure::InvalidAddress(m) => seems_invalid(r, "DFU interface memory layout string"@, m),
                DfuCoreFailure::InvalidInterfaceString(m) => seems_invalid(
                    r,
                    "DFU interface memory layout string"@,
                    m,
                ),
                DfuCoreFailure::Other(m) => passed_on(r, ErrorSource::DfuCore(m)),
            },
    {
        match f {
            DfuCoreFailure::MemoryLayout(m) => ErrorKind::DeviceSeemsInvalid(
                "DFU interface memory layout string".to_owned(),
            ).error_from(m),
            DfuCoreFailure::InvalidAddress(m) => ErrorKind::DeviceSeemsInvalid(
                "DFU interface memory layout string".to_owned(),
            ).error_from(m),
            DfuCoreFailure::InvalidInterfaceString(m) => ErrorKind::DeviceSeemsInvalid(
                "DFU interface memory layout string".to_owned(),
            ).error_from(m),
            DfuCoreFailure::Other(m) => ErrorKind::External(ErrorSource::DfuCore(m)).error(),
        }
    }
}

} // verus!
