//! The decisions of giving a probe the WinUSB driver on Windows: which of the probe's device
//! nodes need the driver, how the driver database in the registry is searched for them, and the
//! command line with which the tool restarts itself with administrator rights. Reading the
//! registry, installing drivers and starting processes is the caller's.
use vstd::prelude::*;

use crate::text::{push_decimal, spec_to_lowercase, str_eq, string_extend_str, strings_view, to_lowercase};

verus! {

/// The hardware ID of the probe's DFU interface while it runs its firmware.
pub const APP_MODE_HARDWARE_ID: &'static str = "VID_1D50&PID_6018&MI_04";

/// The hardware ID of the probe while it runs its bootloader.
pub const DFU_MODE_HARDWARE_ID: &'static str = "VID_1D50&PID_6017";

/// The registry key, under `HKEY_LOCAL_MACHINE`, listing the devices of an enumerator and the
/// drivers bound to them.
pub open spec fn spec_driver_database_key(enumerator: Seq<char>) -> Seq<char> {
    "SYSTEM\\DriverDatabase\\DeviceIds\\"@ + enumerator
}

/// The registry key listing the devices of `enumerator` (see [`spec_driver_database_key`]).
pub fn driver_database_key(enumerator: &str) -> (r: String)
    ensures
        r@ == spec_driver_database_key(enumerator@),
{
    let mut r = "SYSTEM\\DriverDatabase\\DeviceIds\\".to_owned();
    string_extend_str(&mut r, enumerator);
    r
}

/// Whether a device's key in the driver database is that of `hardware_id`: the two are compared
/// without regard to case.
pub fn hardware_id_matches(key_name: &str, hardware_id: &str) -> (r: bool)
    ensures
        r == (spec_to_lowercase(key_name@) == spec_to_lowercase(hardware_id@)),
{
    let key = to_lowercase(key_name);
    let id = to_lowercase(hardware_id);
    str_eq(key.as_str(), id.as_str())
}

/// Which of the probe's device nodes get the driver installed.
#[derive(Debug, Clone, Copy, PartialEq, Eq, Structural)]
pub struct DriverInstalls {
    /// The node of the probe running its firmware.
    pub app_mode: bool,
    /// The node of the probe running its bootloader.
    pub dfu_mode: bool,
}

/// Whether a device node needs the driver, given how many drivers the lookup found bound to it
/// (`None` where the lookup failed): where forced, where the lookup failed (to be safe), and
/// where no driver is bound.
pub open spec fn needs_driver(force: bool, bound: Option<usize>) -> bool {
    force || match bound {
        None => true,
        Some(n) => n == 0,
    }
}

/// Decides which device nodes get the driver (see [`needs_driver`]).
pub fn drivers_to_install(force: bool, app_mode_bound: Option<usize>, dfu_mode_bound: Option<usize>) -> (r:
    DriverInstalls)
    ensures
        r.app_mode == needs_driver(force, app_mode_bound),
        r.dfu_mode == needs_driver(force, dfu_mode_bound),
{
    let app_mode = force || match app_mode_bound {
        None => true,
        Some(n) => n == 0,
    };
    let dfu_mode = force || match dfu_mode_bound {
        None => true,
        Some(n) => n == 0,
    };
    DriverInstalls { app_mode, dfu_mode }
}

/// Whether nothing is to be installed.
pub fn nothing_to_install(installs: DriverInstalls) -> (r: bool)
    ensures
        r == (!installs.app_mode && !installs.dfu_mode),
{
    !installs.app_mode && !installs.dfu_mode
}

/// Parts joined with single spaces between them.
pub open spec fn join_with_spaces(parts: Seq<Seq<char>>) -> Seq<char>
    decreases parts.len(),
{
    if parts.len() == 0 {
        seq![]
    } else if parts.len() == 1 {
        parts[0]
    } else {
        join_with_spaces(parts.drop_last()) + " "@ + parts.last()
    }
}

/// The option that marks the restarted process, naming the process that restarted it.
pub open spec fn install_mode_option(parent_pid: u32) -> Seq<char> {
    "--windows-wdi-install-mode="@ + crate::text::decimal_digits(parent_pid as nat)
}

/// The parameters of the restarted process: this process's arguments after the program name,
/// and the option naming this process, joined with spaces.
pub open spec fn spec_elevated_parameters(args: Seq<Seq<char>>, parent_pid: u32) -> Seq<char> {
    join_with_spaces(args.drop_first().push(install_mode_option(parent_pid)))
}

/// The parameters with which the tool restarts itself with administrator rights (see
/// [`spec_elevated_parameters`]); `args` starts with the program name.
pub fn elevated_parameters(args: &[String], parent_pid: u32) -> (r: String)
    requires
        args@.len() >= 1,
    ensures
        r@ == spec_elevated_parameters(strings_view(args@), parent_pid),
{
    let ghost all = strings_view(args@);
    let ghost parts = all.drop_first().push(install_mode_option(parent_pid));
    let mut r = String::new();
    let mut k: usize = 1;
    while k < args.len()
        invariant
            1 <= k <= args@.len(),
            all == strings_view(args@),
            all.len() == args@.len(),
            parts == all.drop_first().push(install_mode_option(parent_pid)),
            r@ == join_with_spaces(parts.subrange(0, k - 1)),
        decreases args@.len() - k,
    {
        if k > 1 {
            string_extend_str(&mut r, " ");
        }
        string_extend_str(&mut r, args[k].as_str());
        proof {
            let after = parts.subrange(0, k as int);
            assert(after.drop_last() =~= parts.subrange(0, k - 1));
            assert(after.last() == all[k as int]);
            assert(all[k as int] == args@[k as int]@);
            if k == 1 {
                assert(r@ =~= join_with_spaces(after));
            } else {
                assert(r@ =~= join_with_spaces(after.drop_last()) + " "@ + after.last());
            }
        }
        k = k + 1;
    }
    let ghost before = r@;
    if args.len() > 1 {
        string_extend_str(&mut r, " ");
    }
    string_extend_str(&mut r, "--windows-wdi-install-mode=");
    push_decimal(&mut r, parent_pid as usize);
    proof {
        assert(parts.subrange(0, parts.len() as int) =~= parts);
        assert(parts.drop_last() =~= parts.subrange(0, args@.len() - 1));
        if args@.len() == 1 {
            assert(r@ =~= join_with_spaces(parts));
        } else {
            assert(r@ =~= join_with_spaces(parts.drop_last()) + " "@ + parts.last());
        }
    }
    r
}

} // verus!
