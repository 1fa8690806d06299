//! The decisions of the firmware update and reboot commands, apart from the USB and network work
//! that carries them out: which release and firmware a probe is updated to and whether it is
//! updated at all, and how a probe is rebooted.
use core::cmp::Ordering;

use vstd::prelude::*;

use crate::metadata::structs::{latest_among, release_names, Firmware, FirmwareDownload, Metadata, Probe};
use crate::usb::DfuOperatingMode;
use crate::version::{version_number_order, VersionNumber, VersionNumberView};

verus! {

/// How the firmware on a probe relates to the release it is being updated to.
#[derive(Debug, Clone, Copy, PartialEq, Eq, Structural)]
pub enum VersionChange {
    /// The release is newer than the probe's firmware.
    Upgrade,
    /// The release is not newer, and the update was forced.
    ForcedDowngrade,
    /// The two versions cannot be ordered; the update goes ahead without comment.
    Unordered,
}

/// Whether, and how, a probe running `current` is updated to `latest`: not at all where the
/// release is not newer (unless forced); otherwise as an upgrade where it is newer, as a forced
/// downgrade where forced, and silently where the versions cannot be ordered.
pub open spec fn spec_version_change(current: VersionNumberView, latest: VersionNumberView, force: bool) -> Option<
    VersionChange,
> {
    let o = version_number_order(current, latest);
    if (o == Some(Ordering::Greater) || o == Some(Ordering::Equal)) && !force {
        None
    } else if o == Some(Ordering::Less) {
        Some(VersionChange::Upgrade)
    } else if force {
        Some(VersionChange::ForcedDowngrade)
    } else {
        Some(VersionChange::Unordered)
    }
}

/// Decides whether a probe running `current` is updated to `latest` (see
/// [`spec_version_change`]); `None` means the release is not newer and nothing is done.
pub fn version_change(current: &VersionNumber, latest: &VersionNumber, force: bool) -> (r: Option<VersionChange>)
    ensures
        r == spec_version_change(current@, latest@, force),
{
    let o = current.partial_cmp(latest);
    let not_older = match o {
        Some(Ordering::Greater) => true,
        Some(Ordering::Equal) => true,
        _ => false,
    };
    if not_older && !force {
        return None;
    }
    match o {
        Some(Ordering::Less) => Some(VersionChange::Upgrade),
        _ => if force {
            Some(VersionChange::ForcedDowngrade)
        } else {
            Some(VersionChange::Unordered)
        },
    }
}

/// Without forcing, a probe's firmware is never replaced by a release that is not newer: a
/// change comes only where the release is newer (an upgrade), or where the two versions cannot be
/// ordered; and a forced update always goes ahead.
pub proof fn law_unforced_update_never_downgrades(current: VersionNumberView, latest: VersionNumberView)
    ensures
        spec_version_change(current, latest, false) matches Some(c) ==> {
            ||| c == VersionChange::Upgrade && version_number_order(current, latest) == Some(Ordering::Less)
            ||| c == VersionChange::Unordered && version_number_order(current, latest) is None
        },
        spec_version_change(current, latest, true) is Some,
{
}

/// Whether `j` is the position of the first firmware for `probe`.
pub open spec fn is_first_firmware_for(firmware: Seq<(Probe, Firmware)>, probe: Probe, j: int) -> bool {
    &&& 0 <= j < firmware.len()
    &&& firmware[j].0 == probe
    &&& forall|k: int| 0 <= k < j ==> firmware[k].0 != probe
}

/// Whether a release holds firmware for `probe`.
pub open spec fn has_firmware_for(firmware: Seq<(Probe, Firmware)>, probe: Probe) -> bool {
    exists|j: int| 0 <= j < firmware.len() && firmware[j].0 == probe
}

/// The firmware a release holds for a probe platform, if any.
pub fn firmware_for(firmware: &[(Probe, Firmware)], probe: Probe) -> (r: Option<&Firmware>)
    ensures
        match r {
            Some(f) => exists|j: int| is_first_firmware_for(firmware@, probe, j) && *f == firmware@[j].1,
            None => !has_firmware_for(firmware@, probe),
        },
{
    let mut j: usize = 0;
    while j < firmware.len()
        invariant
            j <= firmware@.len(),
            forall|k: int| 0 <= k < j ==> firmware@[k].0 != probe,
        decreases firmware@.len() - j,
    {
        if firmware[j].0 == probe {
            assert(is_first_firmware_for(firmware@, probe, j as int));
            return Some(&firmware[j].1);
        }
        j = j + 1;
    }
    None
}

impl Firmware {
    /// The variant to use without asking, where the firmware comes in exactly one variant.
    pub fn only_variant(&self) -> (r: Option<&FirmwareDownload>)
        ensures
            match r {
                Some(d) => self.variants@.len() == 1 && *d == self.variants@[0].1,
                None => self.variants@.len() != 1,
            },
    {
        if self.variants.len() == 1 {
            Some(&self.variants[0].1)
        } else {
            None
        }
    }
}

/// What updating a probe to the latest release comes to.
pub enum UpdatePlan<'a> {
    /// No release could be chosen as the latest.
    NoLatestRelease,
    /// The latest release, of this version, has no firmware for the probe's platform.
    NoFirmwareForProbe(VersionNumber),
    /// The latest release, of this version, is not newer than the probe's firmware.
    NotNewer(VersionNumber),
    /// Flash the firmware of the latest release, of this version, for the probe's platform.
    Flash { version: VersionNumber, firmware: &'a Firmware, change: VersionChange },
}

/// What updating a probe of platform `probe` running `current` comes to, given the release
/// metadata: the latest release (pre-releases only if `use_rc`), the first firmware in it for the
/// platform, and whether the probe's firmware is to be replaced (see [`spec_version_change`]).
pub fn plan_update<'a>(metadata: &'a Metadata, probe: Probe, current: &VersionNumber, use_rc: bool, force: bool) -> (r:
    UpdatePlan<'a>)
    ensures
        match latest_among(release_names(metadata.releases@), use_rc, metadata.releases@.len() as int) {
            None => r is NoLatestRelease,
            Some((v, i)) => {
                let fs = metadata.releases@[i].1.firmware@;
                if !has_firmware_for(fs, probe) {
                    r matches UpdatePlan::NoFirmwareForProbe(lv) && lv@ == v
                } else {
                    match spec_version_change(current@, v, force) {
                        None => r matches UpdatePlan::NotNewer(lv) && lv@ == v,
                        Some(c) => r matches UpdatePlan::Flash { version, firmware, change } && version@ == v
                            && change == c && exists|j: int|
                            is_first_firmware_for(fs, probe, j) && *firmware == fs[j].1,
                    }
                }
            },
        },
{
    let (version, release) = match metadata.latest(use_rc) {
        None => return UpdatePlan::NoLatestRelease,
        Some(found) => found,
    };
    let firmware = match firmware_for(release.firmware.as_slice(), probe) {
        None => return UpdatePlan::NoFirmwareForProbe(version),
        Some(f) => f,
    };
    match version_change(current, &version, force) {
        None => UpdatePlan::NotNewer(version),
        Some(change) => UpdatePlan::Flash { version, firmware, change },
    }
}

/// The steps of rebooting a probe.
#[derive(Debug, Clone, Copy, PartialEq, Eq, Structural)]
pub enum RebootPlan {
    /// Detach the probe from its firmware into the bootloader.
    IntoBootloader,
    /// The probe already runs its bootloader: nothing to do.
    AlreadyInBootloader,
    /// Detach once, switching between bootloader and firmware.
    Switch,
    /// Detach into the bootloader and wait for it, then detach back into the firmware.
    ThroughBootloader,
    /// Detach from the bootloader into the firmware.
    IntoFirmware,
}

/// How a probe in `mode` is rebooted: into the bootloader where `dfu` is asked for (if it is not
/// there already); once across where `repeat` is asked for; otherwise back into its firmware,
/// through the bootloader where it runs its firmware.
pub open spec fn spec_reboot_plan(mode: DfuOperatingMode, dfu: bool, repeat: bool) -> RebootPlan {
    if dfu {
        match mode {
            DfuOperatingMode::Runtime => RebootPlan::IntoBootloader,
            DfuOperatingMode::FirmwareUpgrade => RebootPlan::AlreadyInBootloader,
        }
    } else if repeat {
        RebootPlan::Switch
    } else {
        match mode {
            DfuOperatingMode::Runtime => RebootPlan::ThroughBootloader,
            DfuOperatingMode::FirmwareUpgrade => RebootPlan::IntoFirmware,
        }
    }
}

/// Decides how a probe is rebooted (see [`spec_reboot_plan`]).
pub fn reboot_plan(mode: DfuOperatingMode, dfu: bool, repeat: bool) -> (r: RebootPlan)
    ensures
        r == spec_reboot_plan(mode, dfu, repeat),
{
    if dfu {
        match mode {
            DfuOperatingMode::Runtime => RebootPlan::IntoBootloader,
            DfuOperatingMode::FirmwareUpgrade => RebootPlan::AlreadyInBootloader,
        }
    } else if repeat {
        RebootPlan::Switch
    } else {
        match mode {
            DfuOperatingMode::Runtime => RebootPlan::ThroughBootloader,
            DfuOperatingMode::FirmwareUpgrade => RebootPlan::IntoFirmware,
        }
    }
}

} // verus!
