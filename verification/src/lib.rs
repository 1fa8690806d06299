//! Companion library for Black Magic Debug probes.
pub mod text;
pub mod version;
pub mod version_order;
pub mod version_text;
pub mod metadata;
pub mod probe_identity;
pub mod usb;
pub mod error;
pub mod firmware_file;
pub mod firmware_type;
pub mod bmp;
pub mod bmp_matcher;
pub mod docs_viewer;
pub mod elf;
pub mod serial;
pub mod firmware_selector;
pub mod switcher;
pub mod update;
pub mod reboot_wait;
pub mod windows_access;

use vstd::prelude::*;

use crate::firmware_type::FirmwareType;

verus! {

/// The parameters that select a probe. An implementation names, in `spec_index` and
/// `spec_serial_number`, the values that its `index` and `serial_number` return.
pub trait BmpParams {
    /// The index of the probe to select among those found, if one is given.
    spec fn spec_index(&self) -> Option<usize>;

    /// The serial number of the probe to select, if one is given.
    spec fn spec_serial_number(&self) -> Option<&str>;

    fn index(&self) -> (r: Option<usize>)
        ensures
            r == self.spec_index(),
    ;

    fn serial_number(&self) -> (r: Option<&str>)
        ensures
            crate::bmp_matcher::opt_str_view(r) == crate::bmp_matcher::opt_str_view(self.spec_serial_number()),
    ;
}

/// The parameters of a flashing operation.
pub trait FlashParams {
    fn allow_dangerous_options(&self) -> AllowDangerous;

    fn override_firmware_type(&self) -> Option<FirmwareType>;
}

/// Whether options that can leave a probe unusable are allowed.
#[derive(Debug, Clone, Copy, PartialEq, Eq, Structural)]
pub enum AllowDangerous {
    Never,
    Really,
}

/// The name of a setting, as the command line spells it.
pub open spec fn allow_dangerous_name(a: AllowDangerous) -> Seq<char> {
    match a {
        AllowDangerous::Never => "never"@,
        AllowDangerous::Really => "really"@,
    }
}

impl AllowDangerous {
    /// Every setting, in the order the command line lists them.
    pub fn value_variants() -> (r: Vec<AllowDangerous>)
        ensures
            r@ == seq![AllowDangerous::Never, AllowDangerous::Really],
    {
        vec![AllowDangerous::Never, AllowDangerous::Really]
    }

    /// The name of this setting, as the command line spells it.
    pub fn name(&self) -> (r: &'static str)
        ensures
            r@ == allow_dangerous_name(*self),
    {
        match self {
            AllowDangerous::Never => "never",
            AllowDangerous::Really => "really",
        }
    }
}

/// The commands that act on a probe's target.
#[derive(Debug, Clone, Copy, PartialEq, Eq, Structural)]
pub enum TargetCommmands {
    /// Print information about the target power control state
    Power,
}

} // verus!
