//! Locating the GDB serial interface of a probe from its serial number, as each host system
//! names serial devices.
use vstd::prelude::*;

use crate::text::{chars_of, push_upper_hex_fixed, string_extend_str};

verus! {

/// The serial device name prefix of probes made by 1BitSquared.
pub open spec fn idstring_1bitsquared() -> Seq<char> {
    "usb-1BitSquared_Black_Magic_Probe"@
}

/// The serial device name prefix of probes reporting as Black Magic Debug.
pub open spec fn idstring_blackmagic() -> Seq<char> {
    "usb-Black_Magic_Debug_Black_Magic_Probe"@
}

/// The serial device name prefix of probes reporting as Black Sphere Technologies.
pub open spec fn idstring_blacksphere() -> Seq<char> {
    "usb-Black_Sphere_Technologies_Black_Magic_Probe"@
}

/// Whether a `/dev/serial/by-id` name is the GDB port (interface 0) of a Black Magic Probe.
pub open spec fn spec_is_bmd_gdb_port(name: Seq<char>) -> bool {
    &&& (crate::text::is_prefix(idstring_blacksphere(), name) || crate::text::is_prefix(idstring_blackmagic(), name)
        || crate::text::is_prefix(idstring_1bitsquared(), name))
    &&& crate::text::is_suffix("-if00"@, name)
}

/// Whether the serial number in a GDB port's name (between its last `_` and the `-if00`
/// interface suffix) is `serial`.
pub open spec fn spec_serial_matches(name: Seq<char>, serial: Seq<char>) -> bool {
    match crate::text::spec_rfind(name, '_') {
        None => false,
        Some(p) => name.subrange(p + 1, name.len() - 5) == serial,
    }
}

/// The GDB serial interface of the probe with a given serial number.
pub struct ProbeInterface {
    serial_number: String,
}

impl View for ProbeInterface {
    type V = Seq<char>;

    closed spec fn view(&self) -> Seq<char> {
        self.serial_number@
    }
}

/// The first of some device names that is the GDB port of the probe with this serial number.
pub open spec fn is_first_gdb_port(names: Seq<Seq<char>>, serial: Seq<char>, i: int) -> bool {
    &&& 0 <= i < names.len()
    &&& spec_is_bmd_gdb_port(names[i]) && spec_serial_matches(names[i], serial)
    &&& forall|j: int| 0 <= j < i ==> !(spec_is_bmd_gdb_port(#[trigger] names[j]) && spec_serial_matches(names[j], serial))
}

impl ProbeInterface {
    /// The interface of the probe with this serial number.
    pub fn new(serial_number: String) -> (r: Self)
        ensures
            r@ == serial_number@,
    {
        ProbeInterface { serial_number }
    }

    /// The probe's serial number.
    pub fn serial_number(&self) -> (r: &str)
        ensures
            r@ == self@,
    {
        self.serial_number.as_str()
    }

    /// Whether a `/dev/serial/by-id` name is the GDB port of a Black Magic Probe: it starts with
    /// one of the known prefixes and ends with the interface 0 suffix.
    pub fn device_is_bmd_gdb_port(file_name: &str) -> (r: bool)
        ensures
            r == spec_is_bmd_gdb_port(file_name@),
    {
        let name = chars_of(file_name);
        let p1 = chars_of("usb-Black_Sphere_Technologies_Black_Magic_Probe");
        let p2 = chars_of("usb-Black_Magic_Debug_Black_Magic_Probe");
        let p3 = chars_of("usb-1BitSquared_Black_Magic_Probe");
        let suffix = chars_of("-if00");
        (crate::text::starts_with(name.as_slice(), p1.as_slice()) || crate::text::starts_with(
            name.as_slice(),
            p2.as_slice(),
        ) || crate::text::starts_with(name.as_slice(), p3.as_slice())) && crate::text::ends_with(
            name.as_slice(),
            suffix.as_slice(),
        )
    }

    /// Whether the serial number in a GDB port's name is this probe's.
    pub fn serial_matches(&self, file_name: &str) -> (r: bool)
        requires
            spec_is_bmd_gdb_port(file_name@),
        ensures
            r == spec_serial_matches(file_name@, self@),
    {
        let name = chars_of(file_name);
        let n = name.len();
        proof {
            reveal_strlit("-if00");
            let tail = name@.subrange(n - 5, n as int);
            assert(tail == "-if00"@);
            assert forall|j: int| n - 5 <= j < n implies name@[j] != '_' by {
                assert(name@[j] == tail[j - (n - 5)]);
            }
        }
        let last_underscore = match crate::text::rfind_char(name.as_slice(), '_') {
            None => return false,
            Some(p) => p,
        };
        assert(last_underscore < n - 5);
        let begin = last_underscore + 1;
        let end = n - 5;
        let serial = chars_of(self.serial_number.as_str());
        crate::text::chars_eq(&name.as_slice()[begin..end], serial.as_slice())
    }

    /// The first of some `/dev/serial/by-id` names that is this probe's GDB port.
    pub fn find_gdb_port(&self, names: &[String]) -> (r: Option<usize>)
        ensures
            match r {
                Some(i) => is_first_gdb_port(crate::text::strings_view(names@), self@, i as int),
                None => forall|j: int|
                    0 <= j < names@.len() ==> !(spec_is_bmd_gdb_port(#[trigger] crate::text::strings_view(names@)[j])
                        && spec_serial_matches(crate::text::strings_view(names@)[j], self@)),
            },
    {
        let ghost nv = crate::text::strings_view(names@);
        let mut i: usize = 0;
        while i < names.len()
            invariant
                i <= names@.len(),
                nv == crate::text::strings_view(names@),
                nv.len() == names@.len(),
                forall|j: int| 0 <= j < i ==> !(spec_is_bmd_gdb_port(#[trigger] nv[j]) && spec_serial_matches(nv[j], self@)),
            decreases names@.len() - i,
        {
            let name = names[i].as_str();
            assert(nv[i as int] == name@);
            if Self::device_is_bmd_gdb_port(name) && self.serial_matches(name) {
                return Some(i);
            }
            i = i + 1;
        }
        None
    }

    /// The message for a probe whose GDB port could not be found.
    pub fn not_found_message(&self) -> (r: String)
        ensures
            r@ == "Failed to locate a device matching serial number "@ + self@,
    {
        let mut r = "Failed to locate a device matching serial number ".to_owned();
        string_extend_str(&mut r, self.serial_number.as_str());
        r
    }

    /// The GDB port of the probe on macOS.
    pub fn macos_port_path(&self) -> (r: String)
        ensures
            r@ == "/dev/cu.usbmodem"@ + self@ + "1"@,
    {
        let mut r = "/dev/cu.usbmodem".to_owned();
        string_extend_str(&mut r, self.serial_number.as_str());
        string_extend_str(&mut r, "1");
        r
    }

    /// The registry path, below the probe's USB key, of the probe's instance on Windows.
    pub fn windows_serial_subpath(&self) -> (r: String)
        ensures
            r@ == "\\"@ + self@,
    {
        let mut r = "\\".to_owned();
        string_extend_str(&mut r, self.serial_number.as_str());
        r
    }

    /// The registry path, below the probe's USB key, of the parameters of interface 0 on Windows.
    pub fn windows_parameter_subpath(prefix: &str) -> (r: String)
        ensures
            r@ == "&MI_00\\"@ + prefix@ + "&0000\\Device Parameters"@,
    {
        let mut r = "&MI_00\\".to_owned();
        string_extend_str(&mut r, prefix);
        string_extend_str(&mut r, "&0000\\Device Parameters");
        r
    }

    /// The registry key of a Black Magic Probe's USB enumeration data on Windows, with a subpath.
    pub fn windows_key_path(subpath: &str) -> (r: String)
        ensures
            r@ == "SYSTEM\\CurrentControlSet\\Enum\\USB\\VID_"@ + crate::text::upper_hex_digits_fixed(0x1d50, 4)
                + "&PID_"@ + crate::text::upper_hex_digits_fixed(0x6018, 4) + subpath@,
    {
        let mut r = "SYSTEM\\CurrentControlSet\\Enum\\USB\\VID_".to_owned();
        push_upper_hex_fixed(&mut r, 0x1d50, 4);
        string_extend_str(&mut r, "&PID_");
        push_upper_hex_fixed(&mut r, 0x6018, 4);
        string_extend_str(&mut r, subpath);
        r
    }

    /// The device path of a COM port on Windows: the name, put under `\\.\` unless it already is.
    pub fn windows_port_path(port_name: &str) -> (r: String)
        ensures
            r@ == (if crate::text::is_prefix("\\\\.\\"@, port_name@) {
                port_name@
            } else {
                "\\\\.\\"@ + port_name@
            }),
    {
        let name = chars_of(port_name);
        let device_prefix = chars_of("\\\\.\\");
        if crate::text::starts_with(name.as_slice(), device_prefix.as_slice()) {
            port_name.to_owned()
        } else {
            let mut r = "\\\\.\\".to_owned();
            string_extend_str(&mut r, port_name);
            r
        }
    }
}

} // verus!
