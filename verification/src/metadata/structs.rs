//! The platforms, operating systems and architectures that Black Magic Debug releases are
//! built for, and the names they go by in release metadata.
use vstd::prelude::*;

use crate::text::{chars_eq, chars_of};
use crate::version::VersionNumber;

pub use crate::metadata::firmware_download::FirmwareDownload;

verus! {

/// Whether the characters `cs` spell out the string literal `lit`.
pub fn chars_are(cs: &[char], lit: &str) -> (r: bool)
    ensures
        r == (cs@ == lit@),
{
    let l = chars_of(lit);
    chars_eq(cs, l.as_slice())
}

/// Builds `prefix + value + suffix` as a new `String`.
pub fn framed_message(prefix: &str, value: &str, suffix: &str) -> (r: String)
    ensures
        r@ == prefix@ + value@ + suffix@,
{
    let mut r = prefix.to_owned();
    crate::text::string_extend_str(&mut r, value);
    crate::text::string_extend_str(&mut r, suffix);
    r
}

/// Enumeration of the valid probe platforms
#[derive(Debug, PartialEq, Eq, PartialOrd, Ord, Clone, Copy, Hash, Structural)]
pub enum Probe {
    _96bCarbon,
    BlackpillF401CC,
    BlackpillF401CE,
    BlackpillF411CE,
    Bluepill,
    CtxLink,
    F072,
    F3,
    F4Discovery,
    HydraBus,
    LaunchpadICDI,
    Native,
    Stlink,
    Stlinkv3,
    Swlink,
}

/// The name a probe platform goes by in release metadata.
pub open spec fn probe_name(p: Probe) -> Seq<char> {
    match p {
        Probe::_96bCarbon => "96b_carbon"@,
        Probe::BlackpillF401CC => "blackpill-f401cc"@,
        Probe::BlackpillF401CE => "blackpill-f401ce"@,
        Probe::BlackpillF411CE => "blackpill-f411ce"@,
        Probe::Bluepill => "bluepill"@,
        Probe::CtxLink => "ctxlink"@,
        Probe::F072 => "f072"@,
        Probe::F3 => "f3"@,
        Probe::F4Discovery => "f4discovery"@,
        Probe::HydraBus => "hydrabus"@,
        Probe::LaunchpadICDI => "launchpad-icdi"@,
        Probe::Native => "native"@,
        Probe::Stlink => "stlink"@,
        Probe::Stlinkv3 => "stlinkv3"@,
        Probe::Swlink => "swlink"@,
    }
}

/// The probe platform that goes by the given metadata name, if any.
pub open spec fn probe_from_name(s: Seq<char>) -> Option<Probe> {
    if s == "96b_carbon"@ {
        Some(Probe::_96bCarbon)
    } else if s == "blackpill-f401cc"@ {
        Some(Probe::BlackpillF401CC)
    } else if s == "blackpill-f401ce"@ {
        Some(Probe::BlackpillF401CE)
    } else if s == "blackpill-f411ce"@ {
        Some(Probe::BlackpillF411CE)
    } else if s == "bluepill"@ {
        Some(Probe::Bluepill)
    } else if s == "ctxlink"@ {
        Some(Probe::CtxLink)
    } else if s == "f072"@ {
        Some(Probe::F072)
    } else if s == "f3"@ {
        Some(Probe::F3)
    } else if s == "f4discovery"@ {
        Some(Probe::F4Discovery)
    } else if s == "hydrabus"@ {
        Some(Probe::HydraBus)
    } else if s == "launchpad-icdi"@ {
        Some(Probe::LaunchpadICDI)
    } else if s == "native"@ {
        Some(Probe::Native)
    } else if s == "stlink"@ {
        Some(Probe::Stlink)
    } else if s == "stlinkv3"@ {
        Some(Probe::Stlinkv3)
    } else if s == "swlink"@ {
        Some(Probe::Swlink)
    } else {
        None
    }
}

/// The probe platform named (in lower case) in a probe's product string, if known.
pub open spec fn probe_from_identity_name(s: Seq<char>) -> Option<Probe> {
    if s == "96b carbon"@ {
        Some(Probe::_96bCarbon)
    } else if s == "blackpill-f401cc"@ {
        Some(Probe::BlackpillF401CC)
    } else if s == "blackpill-f401ce"@ {
        Some(Probe::BlackpillF401CE)
    } else if s == "blackpill-f411ce"@ {
        Some(Probe::BlackpillF411CE)
    } else if s == "ctxlink"@ {
        Some(Probe::CtxLink)
    } else if s == "f072-if"@ {
        Some(Probe::F072)
    } else if s == "f3-if"@ {
        Some(Probe::F3)
    } else if s == "f4discovery"@ {
        Some(Probe::F4Discovery)
    } else if s == "hydrabus"@ {
        Some(Probe::HydraBus)
    } else if s == "launchpad icdi"@ {
        Some(Probe::LaunchpadICDI)
    } else if s == "native"@ {
        Some(Probe::Native)
    } else if s == "st-link/v2"@ {
        Some(Probe::Stlink)
    } else if s == "st-link v3"@ {
        Some(Probe::Stlinkv3)
    } else if s == "swlink"@ {
        Some(Probe::Swlink)
    } else {
        None
    }
}

impl Probe {
    /// Maps a metadata name to a probe platform; the error names the rejected value.
    pub fn from_str(value: &str) -> (r: Result<Probe, String>)
        ensures
            match r {
                Ok(p) => probe_from_name(value@) == Some(p),
                Err(m) => probe_from_name(value@) is None
                    && m@ == "Failed to translate invalid probe name "@ + value@ + " to Probe enum"@,
            },
    {
        let cs = chars_of(value);
        let s = cs.as_slice();
        if chars_are(s, "96b_carbon") {
            Ok(Probe::_96bCarbon)
        } else if chars_are(s, "blackpill-f401cc") {
            Ok(Probe::BlackpillF401CC)
        } else if chars_are(s, "blackpill-f401ce") {
            Ok(Probe::BlackpillF401CE)
        } else if chars_are(s, "blackpill-f411ce") {
            Ok(Probe::BlackpillF411CE)
        } else if chars_are(s, "bluepill") {
            Ok(Probe::Bluepill)
        } else if chars_are(s, "ctxlink") {
            Ok(Probe::CtxLink)
        } else if chars_are(s, "f072") {
            Ok(Probe::F072)
        } else if chars_are(s, "f3") {
            Ok(Probe::F3)
        } else if chars_are(s, "f4discovery") {
            Ok(Probe::F4Discovery)
        } else if chars_are(s, "hydrabus") {
            Ok(Probe::HydraBus)
        } else if chars_are(s, "launchpad-icdi") {
            Ok(Probe::LaunchpadICDI)
        } else if chars_are(s, "native") {
            Ok(Probe::Native)
        } else if chars_are(s, "stlink") {
            Ok(Probe::Stlink)
        } else if chars_are(s, "stlinkv3") {
            Ok(Probe::Stlinkv3)
        } else if chars_are(s, "swlink") {
            Ok(Probe::Swlink)
        } else {
            Err(framed_message("Failed to translate invalid probe name ", value, " to Probe enum"))
        }
    }

    /// Maps the (lower-cased) platform name from a probe's product string to a probe platform.
    pub fn try_from(value: String) -> (r: Option<Probe>)
        ensures
            r == probe_from_identity_name(value@),
    {
        let cs = chars_of(value.as_str());
        let s = cs.as_slice();
        if chars_are(s, "96b carbon") {
            Some(Probe::_96bCarbon)
        } else if chars_are(s, "blackpill-f401cc") {
            Some(Probe::BlackpillF401CC)
        } else if chars_are(s, "blackpill-f401ce") {
            Some(Probe::BlackpillF401CE)
        } else if chars_are(s, "blackpill-f411ce") {
            Some(Probe::BlackpillF411CE)
        } else if chars_are(s, "ctxlink") {
            Some(Probe::CtxLink)
        } else if chars_are(s, "f072-if") {
            Some(Probe::F072)
        } else if chars_are(s, "f3-if") {
            Some(Probe::F3)
        } else if chars_are(s, "f4discovery") {
            Some(Probe::F4Discovery)
        } else if chars_are(s, "hydrabus") {
            Some(Probe::HydraBus)
        } else if chars_are(s, "launchpad icdi") {
            Some(Probe::LaunchpadICDI)
        } else if chars_are(s, "native") {
            Some(Probe::Native)
        } else if chars_are(s, "st-link/v2") {
            Some(Probe::Stlink)
        } else if chars_are(s, "st-link v3") {
            Some(Probe::Stlinkv3)
        } else if chars_are(s, "swlink") {
            Some(Probe::Swlink)
        } else {
            None
        }
    }

    /// The name this probe platform goes by in release metadata.
    pub fn to_string(&self) -> (r: String)
        ensures
            r@ == probe_name(*self),
    {
        match self {
            Probe::_96bCarbon => "96b_carbon".to_owned(),
            Probe::BlackpillF401CC => "blackpill-f401cc".to_owned(),
            Probe::BlackpillF401CE => "blackpill-f401ce".to_owned(),
            Probe::BlackpillF411CE => "blackpill-f411ce".to_owned(),
            Probe::Bluepill => "bluepill".to_owned(),
            Probe::CtxLink => "ctxlink".to_owned(),
            Probe::F072 => "f072".to_owned(),
            Probe::F3 => "f3".to_owned(),
            Probe::F4Discovery => "f4discovery".to_owned(),
            Probe::HydraBus => "hydrabus".to_owned(),
            Probe::LaunchpadICDI => "launchpad-icdi".to_owned(),
            Probe::Native => "native".to_owned(),
            Probe::Stlink => "stlink".to_owned(),
            Probe::Stlinkv3 => "stlinkv3".to_owned(),
            Probe::Swlink => "swlink".to_owned(),
        }
    }
}

/// Two character sequences that differ somewhere are different.
proof fn lemma_differ_at(a: Seq<char>, b: Seq<char>, i: int)
    requires
        0 <= i < a.len(),
        i < b.len(),
        a[i] != b[i],
    ensures
        a != b,
{
}

/// What each platform name of a product string names.
proof fn lemma_identity_name_values()
    ensures
        probe_from_identity_name("96b carbon"@) == Some(Probe::_96bCarbon),
        probe_from_identity_name("blackpill-f401cc"@) == Some(Probe::BlackpillF401CC),
        probe_from_identity_name("blackpill-f401ce"@) == Some(Probe::BlackpillF401CE),
        probe_from_identity_name("blackpill-f411ce"@) == Some(Probe::BlackpillF411CE),
        probe_from_identity_name("ctxlink"@) == Some(Probe::CtxLink),
        probe_from_identity_name("f072-if"@) == Some(Probe::F072),
        probe_from_identity_name("f3-if"@) == Some(Probe::F3),
        probe_from_identity_name("f4discovery"@) == Some(Probe::F4Discovery),
        probe_from_identity_name("hydrabus"@) == Some(Probe::HydraBus),
        probe_from_identity_name("launchpad icdi"@) == Some(Probe::LaunchpadICDI),
        probe_from_identity_name("native"@) == Some(Probe::Native),
        probe_from_identity_name("st-link/v2"@) == Some(Probe::Stlink),
        probe_from_identity_name("st-link v3"@) == Some(Probe::Stlinkv3),
        probe_from_identity_name("swlink"@) == Some(Probe::Swlink),
{
    assert(probe_from_identity_name("96b carbon"@) == Some(Probe::_96bCarbon)) by {
        reveal_strlit("96b carbon");
        reveal_strlit("blackpill-f401cc");
        reveal_strlit("blackpill-f401ce");
        reveal_strlit("blackpill-f411ce");
        reveal_strlit("ctxlink");
        reveal_strlit("f072-if");
        reveal_strlit("f3-if");
        reveal_strlit("f4discovery");
        reveal_strlit("hydrabus");
        reveal_strlit("launchpad icdi");
        reveal_strlit("native");
        reveal_strlit("st-link/v2");
        reveal_strlit("st-link v3");
        reveal_strlit("swlink");
    }
    assert(probe_from_identity_name("blackpill-f401cc"@) == Some(Probe::BlackpillF401CC)) by {
        reveal_strlit("96b carbon");
        reveal_strlit("blackpill-f401cc");
        reveal_strlit("blackpill-f401ce");
        reveal_strlit("blackpill-f411ce");
        reveal_strlit("ctxlink");
        reveal_strlit("f072-if");
        reveal_strlit("f3-if");
        reveal_strlit("f4discovery");
        reveal_strlit("hydrabus");
        reveal_strlit("launchpad icdi");
        reveal_strlit("native");
        reveal_strlit("st-link/v2");
        reveal_strlit("st-link v3");
        reveal_strlit("swlink");
        assert("blackpill-f401cc"@[0] != "96b carbon"@[0]);
    }
    assert(probe_from_identity_name("blackpill-f401ce"@) == Some(Probe::BlackpillF401CE)) by {
        reveal_strlit("96b carbon");
        reveal_strlit("blackpill-f401cc");
        reveal_strlit("blackpill-f401ce");
        reveal_strlit("blackpill-f411ce");
        reveal_strlit("ctxlink");
        reveal_strlit("f072-if");
        reveal_strlit("f3-if");
        reveal_strlit("f4discovery");
        reveal_strlit("hydrabus");
        reveal_strlit("launchpad icdi");
        reveal_strlit("native");
        reveal_strlit("st-link/v2");
        reveal_strlit("st-link v3");
        reveal_strlit("swlink");
        assert("blackpill-f401ce"@[0] != "96b carbon"@[0]);
        assert("blackpill-f401ce"@[15] != "blackpill-f401cc"@[15]);
    }
    assert(probe_from_identity_name("blackpill-f411ce"@) == Some(Probe::BlackpillF411CE)) by {
        reveal_strlit("96b carbon");
        reveal_strlit("blackpill-f401cc");
        reveal_strlit("blackpill-f401ce");
        reveal_strlit("blackpill-f411ce");
        reveal_strlit("ctxlink");
        reveal_strlit("f072-if");
        reveal_strlit("f3-if");
        reveal_strlit("f4discovery");
        reveal_strlit("hydrabus");
        reveal_strlit("launchpad icdi");
        reveal_strlit("native");
        reveal_strlit("st-link/v2");
        reveal_strlit("st-link v3");
        reveal_strlit("swlink");
        assert("blackpill-f411ce"@[0] != "96b carbon"@[0]);
        assert("blackpill-f411ce"@[12] != "blackpill-f401cc"@[12]);
        assert("blackpill-f411ce"@[12] != "blackpill-f401ce"@[12]);
    }
    assert(probe_from_identity_name("ctxlink"@) == Some(Probe::CtxLink)) by {
        reveal_strlit("96b carbon");
        reveal_strlit("blackpill-f401cc");
        reveal_strlit("blackpill-f401ce");
        reveal_strlit("blackpill-f411ce");
        reveal_strlit("ctxlink");
        reveal_strlit("f072-if");
        reveal_strlit("f3-if");
        reveal_strlit("f4discovery");
        reveal_strlit("hydrabus");
        reveal_strlit("launchpad icdi");
        reveal_strlit("native");
        reveal_strlit("st-link/v2");
        reveal_strlit("st-link v3");
        reveal_strlit("swlink");
        assert("ctxlink"@[0] != "96b carbon"@[0]);
        assert("ctxlink"@[0] != "blackpill-f401cc"@[0]);
        assert("ctxlink"@[0] != "blackpill-f401ce"@[0]);
        assert("ctxlink"@[0] != "blackpill-f411ce"@[0]);
    }
    assert(probe_from_identity_name("f072-if"@) == Some(Probe::F072)) by {
        reveal_strlit("96b carbon");
        reveal_strlit("blackpill-f401cc");
        reveal_strlit("blackpill-f401ce");
        reveal_strlit("blackpill-f411ce");
        reveal_strlit("ctxlink");
        reveal_strlit("f072-if");
        reveal_strlit("f3-if");
        reveal_strlit("f4discovery");
        reveal_strlit("hydrabus");
        reveal_strlit("launchpad icdi");
        reveal_strlit("native");
        reveal_strlit("st-link/v2");
        reveal_strlit("st-link v3");
        reveal_strlit("swlink");
        assert("f072-if"@[0] != "96b carbon"@[0]);
        assert("f072-if"@[0] != "blackpill-f401cc"@[0]);
        assert("f072-if"@[0] != "blackpill-f401ce"@[0]);
        assert("f072-if"@[0] != "blackpill-f411ce"@[0]);
        assert("f072-if"@[0] != "ctxlink"@[0]);
    }
    assert(probe_from_identity_name("f3-if"@) == Some(Probe::F3)) by {
        reveal_strlit("96b carbon");
        reveal_strlit("blackpill-f401cc");
        reveal_strlit("blackpill-f401ce");
        reveal_strlit("blackpill-f411ce");
        reveal_strlit("ctxlink");
        reveal_strlit("f072-if");
        reveal_strlit("f3-if");
        reveal_strlit("f4discovery");
        reveal_strlit("hydrabus");
        reveal_strlit("launchpad icdi");
        reveal_strlit("native");
        reveal_strlit("st-link/v2");
        reveal_strlit("st-link v3");
        reveal_strlit("swlink");
        assert("f3-if"@[0] != "96b carbon"@[0]);
        assert("f3-if"@[0] != "blackpill-f401cc"@[0]);
        assert("f3-if"@[0] != "blackpill-f401ce"@[0]);
        assert("f3-if"@[0] != "blackpill-f411ce"@[0]);
        assert("f3-if"@[0] != "ctxlink"@[0]);
        assert("f3-if"@[1] != "f072-if"@[1]);
    }
    assert(probe_from_identity_name("f4discovery"@) == Some(Probe::F4Discovery)) by {
        reveal_strlit("96b carbon");
        reveal_strlit("blackpill-f401cc");
        reveal_strlit("blackpill-f401ce");
        reveal_strlit("blackpill-f411ce");
        reveal_strlit("ctxlink");
        reveal_strlit("f072-if");
        reveal_strlit("f3-if");
        reveal_strlit("f4discovery");
        reveal_strlit("hydrabus");
        reveal_strlit("launchpad icdi");
        reveal_strlit("native");
        reveal_strlit("st-link/v2");
        reveal_strlit("st-link v3");
        reveal_strlit("swlink");
        assert("f4discovery"@[0] != "96b carbon"@[0]);
        assert("f4discovery"@[0] != "blackpill-f401cc"@[0]);
        assert("f4discovery"@[0] != "blackpill-f401ce"@[0]);
        assert("f4discovery"@[0] != "blackpill-f411ce"@[0]);
        assert("f4discovery"@[0] != "ctxlink"@[0]);
        assert("f4discovery"@[1] != "f072-if"@[1]);
        assert("f4discovery"@[1] != "f3-if"@[1]);
    }
    assert(probe_from_identity_name("hydrabus"@) == Some(Probe::HydraBus)) by {
        reveal_strlit("96b carbon");
        reveal_strlit("blackpill-f401cc");
        reveal_strlit("blackpill-f401ce");
        reveal_strlit("blackpill-f411ce");
        reveal_strlit("ctxlink");
        reveal_strlit("f072-if");
        reveal_strlit("f3-if");
        reveal_strlit("f4discovery");
        reveal_strlit("hydrabus");
        reveal_strlit("launchpad icdi");
        reveal_strlit("native");
        reveal_strlit("st-link/v2");
        reveal_strlit("st-link v3");
        reveal_strlit("swlink");
        assert("hydrabus"@[0] != "96b carbon"@[0]);
        assert("hydrabus"@[0] != "blackpill-f401cc"@[0]);
        assert("hydrabus"@[0] != "blackpill-f401ce"@[0]);
        assert("hydrabus"@[0] != "blackpill-f411ce"@[0]);
        assert("hydrabus"@[0] != "ctxlink"@[0]);
        assert("hydrabus"@[0] != "f072-if"@[0]);
        assert("hydrabus"@[0] != "f3-if"@[0]);
        assert("hydrabus"@[0] != "f4discovery"@[0]);
    }
    assert(probe_from_identity_name("launchpad icdi"@) == Some(Probe::LaunchpadICDI)) by {
        reveal_strlit("96b carbon");
        reveal_strlit("blackpill-f401cc");
        reveal_strlit("blackpill-f401ce");
        reveal_strlit("blackpill-f411ce");
        reveal_strlit("ctxlink");
        reveal_strlit("f072-if");
        reveal_strlit("f3-if");
        reveal_strlit("f4discovery");
        reveal_strlit("hydrabus");
        reveal_strlit("launchpad icdi");
        reveal_strlit("native");
        reveal_strlit("st-link/v2");
        reveal_strlit("st-link v3");
        reveal_strlit("swlink");
        assert("launchpad icdi"@[0] != "96b carbon"@[0]);
        assert("launchpad icdi"@[0] != "blackpill-f401cc"@[0]);
        assert("launchpad icdi"@[0] != "blackpill-f401ce"@[0]);
        assert("launchpad icdi"@[0] != "blackpill-f411ce"@[0]);
        assert("launchpad icdi"@[0] != "ctxlink"@[0]);
        assert("launchpad icdi"@[0] != "f072-if"@[0]);
        assert("launchpad icdi"@[0] != "f3-if"@[0]);
        assert("launchpad icdi"@[0] != "f4discovery"@[0]);
        assert("launchpad icdi"@[0] != "hydrabus"@[0]);
    }
    assert(probe_from_identity_name("native"@) == Some(Probe::Native)) by {
        reveal_strlit("96b carbon");
        reveal_strlit("blackpill-f401cc");
        reveal_strlit("blackpill-f401ce");
        reveal_strlit("blackpill-f411ce");
        reveal_strlit("ctxlink");
        reveal_strlit("f072-if");
        reveal_strlit("f3-if");
        reveal_strlit("f4discovery");
        reveal_strlit("hydrabus");
        reveal_strlit("launchpad icdi");
        reveal_strlit("native");
        reveal_strlit("st-link/v2");
        reveal_strlit("st-link v3");
        reveal_strlit("swlink");
        assert("native"@[0] != "96b carbon"@[0]);
        assert("native"@[0] != "blackpill-f401cc"@[0]);
        assert("native"@[0] != "blackpill-f401ce"@[0]);
        assert("native"@[0] != "blackpill-f411ce"@[0]);
        assert("native"@[0] != "ctxlink"@[0]);
        assert("native"@[0] != "f072-if"@[0]);
        assert("native"@[0] != "f3-if"@[0]);
        assert("native"@[0] != "f4discovery"@[0]);
        assert("native"@[0] != "hydrabus"@[0]);
        assert("native"@[0] != "launchpad icdi"@[0]);
    }
    assert(probe_from_identity_name("st-link/v2"@) == Some(Probe::Stlink)) by {
        reveal_strlit("96b carbon");
        reveal_strlit("blackpill-f401cc");
        reveal_strlit("blackpill-f401ce");
        reveal_strlit("blackpill-f411ce");
        reveal_strlit("ctxlink");
        reveal_strlit("f072-if");
        reveal_strlit("f3-if");
        reveal_strlit("f4discovery");
        reveal_strlit("hydrabus");
        reveal_strlit("launchpad icdi");
        reveal_strlit("native");
        reveal_strlit("st-link/v2");
        reveal_strlit("st-link v3");
        reveal_strlit("swlink");
        assert("st-link/v2"@[0] != "96b carbon"@[0]);
        assert("st-link/v2"@[0] != "blackpill-f401cc"@[0]);
        assert("st-link/v2"@[0] != "blackpill-f401ce"@[0]);
        assert("st-link/v2"@[0] != "blackpill-f411ce"@[0]);
        assert("st-link/v2"@[0] != "ctxlink"@[0]);
        assert("st-link/v2"@[0] != "f072-if"@[0]);
        assert("st-link/v2"@[0] != "f3-if"@[0]);
        assert("st-link/v2"@[0] != "f4discovery"@[0]);
        assert("st-link/v2"@[0] != "hydrabus"@[0]);
        assert("st-link/v2"@[0] != "launchpad icdi"@[0]);
        assert("st-link/v2"@[0] != "native"@[0]);
    }
    assert(probe_from_identity_name("st-link v3"@) == Some(Probe::Stlinkv3)) by {
        reveal_strlit("96b carbon");
        reveal_strlit("blackpill-f401cc");
        reveal_strlit("blackpill-f401ce");
        reveal_strlit("blackpill-f411ce");
        reveal_strlit("ctxlink");
        reveal_strlit("f072-if");
        reveal_strlit("f3-if");
        reveal_strlit("f4discovery");
        reveal_strlit("hydrabus");
        reveal_strlit("launchpad icdi");
        reveal_strlit("native");
        reveal_strlit("st-link/v2");
        reveal_strlit("st-link v3");
        reveal_strlit("swlink");
        assert("st-link v3"@[0] != "96b carbon"@[0]);
        assert("st-link v3"@[0] != "blackpill-f401cc"@[0]);
        assert("st-link v3"@[0] != "blackpill-f401ce"@[0]);
        assert("st-link v3"@[0] != "blackpill-f411ce"@[0]);
        assert("st-link v3"@[0] != "ctxlink"@[0]);
        assert("st-link v3"@[0] != "f072-if"@[0]);
        assert("st-link v3"@[0] != "f3-if"@[0]);
        assert("st-link v3"@[0] != "f4discovery"@[0]);
        assert("st-link v3"@[0] != "hydrabus"@[0]);
        assert("st-link v3"@[0] != "launchpad icdi"@[0]);
        assert("st-link v3"@[0] != "native"@[0]);
        assert("st-link v3"@[7] != "st-link/v2"@[7]);
    }
    assert(probe_from_identity_name("swlink"@) == Some(Probe::Swlink)) by {
        reveal_strlit("96b carbon");
        reveal_strlit("blackpill-f401cc");
        reveal_strlit("blackpill-f401ce");
        reveal_strlit("blackpill-f411ce");
        reveal_strlit("ctxlink");
        reveal_strlit("f072-if");
        reveal_strlit("f3-if");
        reveal_strlit("f4discovery");
        reveal_strlit("hydrabus");
        reveal_strlit("launchpad icdi");
        reveal_strlit("native");
        reveal_strlit("st-link/v2");
        reveal_strlit("st-link v3");
        reveal_strlit("swlink");
        assert("swlink"@[0] != "96b carbon"@[0]);
        assert("swlink"@[0] != "blackpill-f401cc"@[0]);
        assert("swlink"@[0] != "blackpill-f401ce"@[0]);
        assert("swlink"@[0] != "blackpill-f411ce"@[0]);
        assert("swlink"@[0] != "ctxlink"@[0]);
        assert("swlink"@[0] != "f072-if"@[0]);
        assert("swlink"@[0] != "f3-if"@[0]);
        assert("swlink"@[0] != "f4discovery"@[0]);
        assert("swlink"@[0] != "hydrabus"@[0]);
        assert("swlink"@[0] != "launchpad icdi"@[0]);
        assert("swlink"@[0] != "native"@[0]);
        assert("swlink"@[1] != "st-link/v2"@[1]);
        assert("swlink"@[1] != "st-link v3"@[1]);
    }
}

/// What the metadata names of the platforms that product strings name, name.
proof fn lemma_metadata_name_values()
    ensures
        probe_from_name("96b_carbon"@) == Some(Probe::_96bCarbon),
        probe_from_name("blackpill-f401cc"@) == Some(Probe::BlackpillF401CC),
        probe_from_name("blackpill-f401ce"@) == Some(Probe::BlackpillF401CE),
        probe_from_name("blackpill-f411ce"@) == Some(Probe::BlackpillF411CE),
        probe_from_name("ctxlink"@) == Some(Probe::CtxLink),
        probe_from_name("f072"@) == Some(Probe::F072),
        probe_from_name("f3"@) == Some(Probe::F3),
        probe_from_name("f4discovery"@) == Some(Probe::F4Discovery),
        probe_from_name("hydrabus"@) == Some(Probe::HydraBus),
        probe_from_name("launchpad-icdi"@) == Some(Probe::LaunchpadICDI),
        probe_from_name("native"@) == Some(Probe::Native),
        probe_from_name("stlink"@) == Some(Probe::Stlink),
        probe_from_name("stlinkv3"@) == Some(Probe::Stlinkv3),
        probe_from_name("swlink"@) == Some(Probe::Swlink),
{
    assert(probe_from_name("96b_carbon"@) == Some(Probe::_96bCarbon)) by {
        reveal_strlit("96b_carbon");
        reveal_strlit("blackpill-f401cc");
        reveal_strlit("blackpill-f401ce");
        reveal_strlit("blackpill-f411ce");
        reveal_strlit("bluepill");
        reveal_strlit("ctxlink");
        reveal_strlit("f072");
        reveal_strlit("f3");
        reveal_strlit("f4discovery");
        reveal_strlit("hydrabus");
        reveal_strlit("launchpad-icdi");
        reveal_strlit("native");
        reveal_strlit("stlink");
        reveal_strlit("stlinkv3");
        reveal_strlit("swlink");
    }
    assert(probe_from_name("blackpill-f401cc"@) == Some(Probe::BlackpillF401CC)) by {
        reveal_strlit("96b_carbon");
        reveal_strlit("blackpill-f401cc");
        reveal_strlit("blackpill-f401ce");
        reveal_strlit("blackpill-f411ce");
        reveal_strlit("bluepill");
        reveal_strlit("ctxlink");
        reveal_strlit("f072");
        reveal_strlit("f3");
        reveal_strlit("f4discovery");
        reveal_strlit("hydrabus");
        reveal_strlit("launchpad-icdi");
        reveal_strlit("native");
        reveal_strlit("stlink");
        reveal_strlit("stlinkv3");
        reveal_strlit("swlink");
        assert("blackpill-f401cc"@[0] != "96b_carbon"@[0]);
    }
    assert(probe_from_name("blackpill-f401ce"@) == Some(Probe::BlackpillF401CE)) by {
        reveal_strlit("96b_carbon");
        reveal_strlit("blackpill-f401cc");
        reveal_strlit("blackpill-f401ce");
        reveal_strlit("blackpill-f411ce");
        reveal_strlit("bluepill");
        reveal_strlit("ctxlink");
        reveal_strlit("f072");
        reveal_strlit("f3");
        reveal_strlit("f4discovery");
        reveal_strlit("hydrabus");
        reveal_strlit("launchpad-icdi");
        reveal_strlit("native");
        reveal_strlit("stlink");
        reveal_strlit("stlinkv3");
        reveal_strlit("swlink");
        assert("blackpill-f401ce"@[0] != "96b_carbon"@[0]);
        assert("blackpill-f401ce"@[15] != "blackpill-f401cc"@[15]);
    }
    assert(probe_from_name("blackpill-f411ce"@) == Some(Probe::BlackpillF411CE)) by {
        reveal_strlit("96b_carbon");
        reveal_strlit("blackpill-f401cc");
        reveal_strlit("blackpill-f401ce");
        reveal_strlit("blackpill-f411ce");
        reveal_strlit("bluepill");
        reveal_strlit("ctxlink");
        reveal_strlit("f072");
        reveal_strlit("f3");
        reveal_strlit("f4discovery");
        reveal_strlit("hydrabus");
        reveal_strlit("launchpad-icdi");
        reveal_strlit("native");
        reveal_strlit("stlink");
        reveal_strlit("stlinkv3");
        reveal_strlit("swlink");
        assert("blackpill-f411ce"@[0] != "96b_carbon"@[0]);
        assert("blackpill-f411ce"@[12] != "blackpill-f401cc"@[12]);
        assert("blackpill-f411ce"@[12] != "blackpill-f401ce"@[12]);
    }
    assert(probe_from_name("ctxlink"@) == Some(Probe::CtxLink)) by {
        reveal_strlit("96b_carbon");
        reveal_strlit("blackpill-f401cc");
        reveal_strlit("blackpill-f401ce");
        reveal_strlit("blackpill-f411ce");
        reveal_strlit("bluepill");
        reveal_strlit("ctxlink");
        reveal_strlit("f072");
        reveal_strlit("f3");
        reveal_strlit("f4discovery");
        reveal_strlit("hydrabus");
        reveal_strlit("launchpad-icdi");
        reveal_strlit("native");
        reveal_strlit("stlink");
        reveal_strlit("stlinkv3");
        reveal_strlit("swlink");
        assert("ctxlink"@[0] != "96b_carbon"@[0]);
        assert("ctxlink"@[0] != "blackpill-f401cc"@[0]);
        assert("ctxlink"@[0] != "blackpill-f401ce"@[0]);
        assert("ctxlink"@[0] != "blackpill-f411ce"@[0]);
        assert("ctxlink"@[0] != "bluepill"@[0]);
    }
    assert(probe_from_name("f072"@) == Some(Probe::F072)) by {
        reveal_strlit("96b_carbon");
        reveal_strlit("blackpill-f401cc");
        reveal_strlit("blackpill-f401ce");
        reveal_strlit("blackpill-f411ce");
        reveal_strlit("bluepill");
        reveal_strlit("ctxlink");
        reveal_strlit("f072");
        reveal_strlit("f3");
        reveal_strlit("f4discovery");
        reveal_strlit("hydrabus");
        reveal_strlit("launchpad-icdi");
        reveal_strlit("native");
        reveal_strlit("stlink");
        reveal_strlit("stlinkv3");
        reveal_strlit("swlink");
        assert("f072"@[0] != "96b_carbon"@[0]);
        assert("f072"@[0] != "blackpill-f401cc"@[0]);
        assert("f072"@[0] != "blackpill-f401ce"@[0]);
        assert("f072"@[0] != "blackpill-f411ce"@[0]);
        assert("f072"@[0] != "bluepill"@[0]);
        assert("f072"@[0] != "ctxlink"@[0]);
    }
    assert(probe_from_name("f3"@) == Some(Probe::F3)) by {
        reveal_strlit("96b_carbon");
        reveal_strlit("blackpill-f401cc");
        reveal_strlit("blackpill-f401ce");
        reveal_strlit("blackpill-f411ce");
        reveal_strlit("bluepill");
        reveal_strlit("ctxlink");
        reveal_strlit("f072");
        reveal_strlit("f3");
        reveal_strlit("f4discovery");
        reveal_strlit("hydrabus");
        reveal_strlit("launchpad-icdi");
        reveal_strlit("native");
        reveal_strlit("stlink");
        reveal_strlit("stlinkv3");
        reveal_strlit("swlink");
        assert("f3"@[0] != "96b_carbon"@[0]);
        assert("f3"@[0] != "blackpill-f401cc"@[0]);
        assert("f3"@[0] != "blackpill-f401ce"@[0]);
        assert("f3"@[0] != "blackpill-f411ce"@[0]);
        assert("f3"@[0] != "bluepill"@[0]);
        assert("f3"@[0] != "ctxlink"@[0]);
        assert("f3"@[1] != "f072"@[1]);
    }
    assert(probe_from_name("f4discovery"@) == Some(Probe::F4Discovery)) by {
        reveal_strlit("96b_carbon");
        reveal_strlit("blackpill-f401cc");
        reveal_strlit("blackpill-f401ce");
        reveal_strlit("blackpill-f411ce");
        reveal_strlit("bluepill");
        reveal_strlit("ctxlink");
        reveal_strlit("f072");
        reveal_strlit("f3");
        reveal_strlit("f4discovery");
        reveal_strlit("hydrabus");
        reveal_strlit("launchpad-icdi");
        reveal_strlit("native");
        reveal_strlit("stlink");
        reveal_strlit("stlinkv3");
        reveal_strlit("swlink");
        assert("f4discovery"@[0] != "96b_carbon"@[0]);
        assert("f4discovery"@[0] != "blackpill-f401cc"@[0]);
        assert("f4discovery"@[0] != "blackpill-f401ce"@[0]);
        assert("f4discovery"@[0] != "blackpill-f411ce"@[0]);
        assert("f4discovery"@[0] != "bluepill"@[0]);
        assert("f4discovery"@[0] != "ctxlink"@[0]);
        assert("f4discovery"@[1] != "f072"@[1]);
        assert("f4discovery"@[1] != "f3"@[1]);
    }
    assert(probe_from_name("hydrabus"@) == Some(Probe::HydraBus)) by {
        reveal_strlit("96b_carbon");
        reveal_strlit("blackpill-f401cc");
        reveal_strlit("blackpill-f401ce");
        reveal_strlit("blackpill-f411ce");
        reveal_strlit("bluepill");
        reveal_strlit("ctxlink");
        reveal_strlit("f072");
        reveal_strlit("f3");
        reveal_strlit("f4discovery");
        reveal_strlit("hydrabus");
        reveal_strlit("launchpad-icdi");
        reveal_strlit("native");
        reveal_strlit("stlink");
        reveal_strlit("stlinkv3");
        reveal_strlit("swlink");
        assert("hydrabus"@[0] != "96b_carbon"@[0]);
        assert("hydrabus"@[0] != "blackpill-f401cc"@[0]);
        assert("hydrabus"@[0] != "blackpill-f401ce"@[0]);
        assert("hydrabus"@[0] != "blackpill-f411ce"@[0]);
        assert("hydrabus"@[0] != "bluepill"@[0]);
        assert("hydrabus"@[0] != "ctxlink"@[0]);
        assert("hydrabus"@[0] != "f072"@[0]);
        assert("hydrabus"@[0] != "f3"@[0]);
        assert("hydrabus"@[0] != "f4discovery"@[0]);
    }
    assert(probe_from_name("launchpad-icdi"@) == Some(Probe::LaunchpadICDI)) by {
        reveal_strlit("96b_carbon");
        reveal_strlit("blackpill-f401cc");
        reveal_strlit("blackpill-f401ce");
        reveal_strlit("blackpill-f411ce");
        reveal_strlit("bluepill");
        reveal_strlit("ctxlink");
        reveal_strlit("f072");
        reveal_strlit("f3");
        reveal_strlit("f4discovery");
        reveal_strlit("hydrabus");
        reveal_strlit("launchpad-icdi");
        reveal_strlit("native");
        reveal_strlit("stlink");
        reveal_strlit("stlinkv3");
        reveal_strlit("swlink");
        assert("launchpad-icdi"@[0] != "96b_carbon"@[0]);
        assert("launchpad-icdi"@[0] != "blackpill-f401cc"@[0]);
        assert("launchpad-icdi"@[0] != "blackpill-f401ce"@[0]);
        assert("launchpad-icdi"@[0] != "blackpill-f411ce"@[0]);
        assert("launchpad-icdi"@[0] != "bluepill"@[0]);
        assert("launchpad-icdi"@[0] != "ctxlink"@[0]);
        assert("launchpad-icdi"@[0] != "f072"@[0]);
        assert("launchpad-icdi"@[0] != "f3"@[0]);
        assert("launchpad-icdi"@[0] != "f4discovery"@[0]);
        assert("launchpad-icdi"@[0] != "hydrabus"@[0]);
    }
    assert(probe_from_name("native"@) == Some(Probe::Native)) by {
        reveal_strlit("96b_carbon");
        reveal_strlit("blackpill-f401cc");
        reveal_strlit("blackpill-f401ce");
        reveal_strlit("blackpill-f411ce");
        reveal_strlit("bluepill");
        reveal_strlit("ctxlink");
        reveal_strlit("f072");
        reveal_strlit("f3");
        reveal_strlit("f4discovery");
        reveal_strlit("hydrabus");
        reveal_strlit("launchpad-icdi");
        reveal_strlit("native");
        reveal_strlit("stlink");
        reveal_strlit("stlinkv3");
        reveal_strlit("swlink");
        assert("native"@[0] != "96b_carbon"@[0]);
        assert("native"@[0] != "blackpill-f401cc"@[0]);
        assert("native"@[0] != "blackpill-f401ce"@[0]);
        assert("native"@[0] != "blackpill-f411ce"@[0]);
        assert("native"@[0] != "bluepill"@[0]);
        assert("native"@[0] != "ctxlink"@[0]);
        assert("native"@[0] != "f072"@[0]);
        assert("native"@[0] != "f3"@[0]);
        assert("native"@[0] != "f4discovery"@[0]);
        assert("native"@[0] != "hydrabus"@[0]);
        assert("native"@[0] != "launchpad-icdi"@[0]);
    }
    assert(probe_from_name("stlink"@) == Some(Probe::Stlink)) by {
        reveal_strlit("96b_carbon");
        reveal_strlit("blackpill-f401cc");
        reveal_strlit("blackpill-f401ce");
        reveal_strlit("blackpill-f411ce");
        reveal_strlit("bluepill");
        reveal_strlit("ctxlink");
        reveal_strlit("f072");
        reveal_strlit("f3");
        reveal_strlit("f4discovery");
        reveal_strlit("hydrabus");
        reveal_strlit("launchpad-icdi");
        reveal_strlit("native");
        reveal_strlit("stlink");
        reveal_strlit("stlinkv3");
        reveal_strlit("swlink");
        assert("stlink"@[0] != "96b_carbon"@[0]);
        assert("stlink"@[0] != "blackpill-f401cc"@[0]);
        assert("stlink"@[0] != "blackpill-f401ce"@[0]);
        assert("stlink"@[0] != "blackpill-f411ce"@[0]);
        assert("stlink"@[0] != "bluepill"@[0]);
        assert("stlink"@[0] != "ctxlink"@[0]);
        assert("stlink"@[0] != "f072"@[0]);
        assert("stlink"@[0] != "f3"@[0]);
        assert("stlink"@[0] != "f4discovery"@[0]);
        assert("stlink"@[0] != "hydrabus"@[0]);
        assert("stlink"@[0] != "launchpad-icdi"@[0]);
        assert("stlink"@[0] != "native"@[0]);
    }
    assert(probe_from_name("stlinkv3"@) == Some(Probe::Stlinkv3)) by {
        reveal_strlit("96b_carbon");
        reveal_strlit("blackpill-f401cc");
        reveal_strlit("blackpill-f401ce");
        reveal_strlit("blackpill-f411ce");
        reveal_strlit("bluepill");
        reveal_strlit("ctxlink");
        reveal_strlit("f072");
        reveal_strlit("f3");
        reveal_strlit("f4discovery");
        reveal_strlit("hydrabus");
        reveal_strlit("launchpad-icdi");
        reveal_strlit("native");
        reveal_strlit("stlink");
        reveal_strlit("stlinkv3");
        reveal_strlit("swlink");
        assert("stlinkv3"@[0] != "96b_carbon"@[0]);
        assert("stlinkv3"@[0] != "blackpill-f401cc"@[0]);
        assert("stlinkv3"@[0] != "blackpill-f401ce"@[0]);
        assert("stlinkv3"@[0] != "blackpill-f411ce"@[0]);
        assert("stlinkv3"@[0] != "bluepill"@[0]);
        assert("stlinkv3"@[0] != "ctxlink"@[0]);
        assert("stlinkv3"@[0] != "f072"@[0]);
        assert("stlinkv3"@[0] != "f3"@[0]);
        assert("stlinkv3"@[0] != "f4discovery"@[0]);
        assert("stlinkv3"@[0] != "hydrabus"@[0]);
        assert("stlinkv3"@[0] != "launchpad-icdi"@[0]);
        assert("stlinkv3"@[0] != "native"@[0]);
        assert("stlinkv3"@.len() != "stlink"@.len());
    }
    assert(probe_from_name("swlink"@) == Some(Probe::Swlink)) by {
        reveal_strlit("96b_carbon");
        reveal_strlit("blackpill-f401cc");
        reveal_strlit("blackpill-f401ce");
        reveal_strlit("blackpill-f411ce");
        reveal_strlit("bluepill");
        reveal_strlit("ctxlink");
        reveal_strlit("f072");
        reveal_strlit("f3");
        reveal_strlit("f4discovery");
        reveal_strlit("hydrabus");
        reveal_strlit("launchpad-icdi");
        reveal_strlit("native");
        reveal_strlit("stlink");
        reveal_strlit("stlinkv3");
        reveal_strlit("swlink");
        assert("swlink"@[0] != "96b_carbon"@[0]);
        assert("swlink"@[0] != "blackpill-f401cc"@[0]);
        assert("swlink"@[0] != "blackpill-f401ce"@[0]);
        assert("swlink"@[0] != "blackpill-f411ce"@[0]);
        assert("swlink"@[0] != "bluepill"@[0]);
        assert("swlink"@[0] != "ctxlink"@[0]);
        assert("swlink"@[0] != "f072"@[0]);
        assert("swlink"@[0] != "f3"@[0]);
        assert("swlink"@[0] != "f4discovery"@[0]);
        assert("swlink"@[0] != "hydrabus"@[0]);
        assert("swlink"@[0] != "launchpad-icdi"@[0]);
        assert("swlink"@[0] != "native"@[0]);
        assert("swlink"@[1] != "stlink"@[1]);
        assert("swlink"@[1] != "stlinkv3"@[1]);
    }
}

/// The platform names a probe's product string uses, beside the names release metadata uses for
/// the same platforms.
pub open spec fn identity_and_metadata_names() -> Seq<(Seq<char>, Seq<char>)> {
    seq![
        ("96b carbon"@, "96b_carbon"@),
        ("blackpill-f401cc"@, "blackpill-f401cc"@),
        ("blackpill-f401ce"@, "blackpill-f401ce"@),
        ("blackpill-f411ce"@, "blackpill-f411ce"@),
        ("ctxlink"@, "ctxlink"@),
        ("f072-if"@, "f072"@),
        ("f3-if"@, "f3"@),
        ("f4discovery"@, "f4discovery"@),
        ("hydrabus"@, "hydrabus"@),
        ("launchpad icdi"@, "launchpad-icdi"@),
        ("native"@, "native"@),
        ("st-link/v2"@, "stlink"@),
        ("st-link v3"@, "stlinkv3"@),
        ("swlink"@, "swlink"@)
    ]
}

/// A product string's platform name names one platform, and names the platform that its
/// metadata name names: the platform read from a product string is the one whose firmware the
/// metadata offers under the matching name. No two names in a product string name the same
/// platform, and every name that names a platform is one of those listed.
#[verifier::rlimit(60)]
pub proof fn law_identity_names_agree_with_metadata_names(s: Seq<char>, t: Seq<char>)
    ensures
        probe_from_identity_name(s) is Some && probe_from_identity_name(s) == probe_from_identity_name(t) ==> s
            == t,
        probe_from_identity_name(s) is Some ==> exists|i: int|
            0 <= i < identity_and_metadata_names().len() && (#[trigger] identity_and_metadata_names()[i]).0 == s,
        forall|i: int|
            0 <= i < identity_and_metadata_names().len() ==> probe_from_identity_name(
                (#[trigger] identity_and_metadata_names()[i]).0,
            ) is Some && probe_from_identity_name(identity_and_metadata_names()[i].0) == probe_from_name(
                identity_and_metadata_names()[i].1,
            ),
{
    reveal_strlit("96b carbon");
    reveal_strlit("96b_carbon");
    reveal_strlit("blackpill-f401cc");
    reveal_strlit("blackpill-f401ce");
    reveal_strlit("blackpill-f411ce");
    reveal_strlit("bluepill");
    reveal_strlit("ctxlink");
    reveal_strlit("f072");
    reveal_strlit("f072-if");
    reveal_strlit("f3");
    reveal_strlit("f3-if");
    reveal_strlit("f4discovery");
    reveal_strlit("hydrabus");
    reveal_strlit("launchpad icdi");
    reveal_strlit("launchpad-icdi");
    reveal_strlit("native");
    reveal_strlit("st-link v3");
    reveal_strlit("st-link/v2");
    reveal_strlit("stlink");
    reveal_strlit("stlinkv3");
    reveal_strlit("swlink");
    let t = identity_and_metadata_names();
    assert(t[0] == ("96b carbon"@, "96b_carbon"@));
    assert(t[1] == ("blackpill-f401cc"@, "blackpill-f401cc"@));
    assert(t[2] == ("blackpill-f401ce"@, "blackpill-f401ce"@));
    assert(t[3] == ("blackpill-f411ce"@, "blackpill-f411ce"@));
    assert(t[4] == ("ctxlink"@, "ctxlink"@));
    assert(t[5] == ("f072-if"@, "f072"@));
    assert(t[6] == ("f3-if"@, "f3"@));
    assert(t[7] == ("f4discovery"@, "f4discovery"@));
    assert(t[8] == ("hydrabus"@, "hydrabus"@));
    assert(t[9] == ("launchpad icdi"@, "launchpad-icdi"@));
    assert(t[10] == ("native"@, "native"@));
    assert(t[11] == ("st-link/v2"@, "stlink"@));
    assert(t[12] == ("st-link v3"@, "stlinkv3"@));
    assert(t[13] == ("swlink"@, "swlink"@));
    lemma_identity_name_values();
    lemma_metadata_name_values();
    assert forall|i: int| 0 <= i < t.len() implies probe_from_identity_name((#[trigger] t[i]).0) is Some
        && probe_from_identity_name(t[i].0) == probe_from_name(t[i].1) by {
        if i == 0 {} else if i == 1 {} else if i == 2 {} else if i == 3 {} else if i == 4 {}
        else if i == 5 {} else if i == 6 {} else if i == 7 {} else if i == 8 {} else if i == 9 {}
        else if i == 10 {} else if i == 11 {} else if i == 12 {} else {}
    }
    if probe_from_identity_name(s) is Some {
        if s == "96b carbon"@ { assert(t[0].0 == s); }
        else if s == "blackpill-f401cc"@ { assert(t[1].0 == s); }
        else if s == "blackpill-f401ce"@ { assert(t[2].0 == s); }
        else if s == "blackpill-f411ce"@ { assert(t[3].0 == s); }
        else if s == "ctxlink"@ { assert(t[4].0 == s); }
        else if s == "f072-if"@ { assert(t[5].0 == s); }
        else if s == "f3-if"@ { assert(t[6].0 == s); }
        else if s == "f4discovery"@ { assert(t[7].0 == s); }
        else if s == "hydrabus"@ { assert(t[8].0 == s); }
        else if s == "launchpad icdi"@ { assert(t[9].0 == s); }
        else if s == "native"@ { assert(t[10].0 == s); }
        else if s == "st-link/v2"@ { assert(t[11].0 == s); }
        else if s == "st-link v3"@ { assert(t[12].0 == s); }
        else { assert(t[13].0 == s); }
    }
}

/// Reading back the metadata name of a probe platform gives the same platform.
pub proof fn law_probe_name_round_trip(p: Probe)
    ensures
        probe_from_name(probe_name(p)) == Some(p),
{
    reveal_strlit("96b_carbon");
    reveal_strlit("blackpill-f401cc");
    reveal_strlit("blackpill-f401ce");
    reveal_strlit("blackpill-f411ce");
    reveal_strlit("bluepill");
    reveal_strlit("ctxlink");
    reveal_strlit("f072");
    reveal_strlit("f3");
    reveal_strlit("f4discovery");
    reveal_strlit("hydrabus");
    reveal_strlit("launchpad-icdi");
    reveal_strlit("native");
    reveal_strlit("stlink");
    reveal_strlit("stlinkv3");
    reveal_strlit("swlink");
    match p {
        Probe::_96bCarbon => {
        },
        Probe::BlackpillF401CC => {
            assert("blackpill-f401cc"@.len() != "96b_carbon"@.len());
        },
        Probe::BlackpillF401CE => {
            assert("blackpill-f401ce"@.len() != "96b_carbon"@.len());
            lemma_differ_at("blackpill-f401ce"@, "blackpill-f401cc"@, 15);
        },
        Probe::BlackpillF411CE => {
            assert("blackpill-f411ce"@.len() != "96b_carbon"@.len());
            lemma_differ_at("blackpill-f411ce"@, "blackpill-f401cc"@, 12);
            lemma_differ_at("blackpill-f411ce"@, "blackpill-f401ce"@, 12);
        },
        Probe::Bluepill => {
            assert("bluepill"@.len() != "96b_carbon"@.len());
            assert("bluepill"@.len() != "blackpill-f401cc"@.len());
            assert("bluepill"@.len() != "blackpill-f401ce"@.len());
            assert("bluepill"@.len() != "blackpill-f411ce"@.len());
        },
        Probe::CtxLink => {
            assert("ctxlink"@.len() != "96b_carbon"@.len());
            assert("ctxlink"@.len() != "blackpill-f401cc"@.len());
            assert("ctxlink"@.len() != "blackpill-f401ce"@.len());
            assert("ctxlink"@.len() != "blackpill-f411ce"@.len());
            assert("ctxlink"@.len() != "bluepill"@.len());
        },
        Probe::F072 => {
            assert("f072"@.len() != "96b_carbon"@.len());
            assert("f072"@.len() != "blackpill-f401cc"@.len());
            assert("f072"@.len() != "blackpill-f401ce"@.len());
            assert("f072"@.len() != "blackpill-f411ce"@.len());
            assert("f072"@.len() != "bluepill"@.len());
            assert("f072"@.len() != "ctxlink"@.len());
        },
        Probe::F3 => {
            assert("f3"@.len() != "96b_carbon"@.len());
            assert("f3"@.len() != "blackpill-f401cc"@.len());
            assert("f3"@.len() != "blackpill-f401ce"@.len());
            assert("f3"@.len() != "blackpill-f411ce"@.len());
            assert("f3"@.len() != "bluepill"@.len());
            assert("f3"@.len() != "ctxlink"@.len());
            assert("f3"@.len() != "f072"@.len());
        },
        Probe::F4Discovery => {
            assert("f4discovery"@.len() != "96b_carbon"@.len());
            assert("f4discovery"@.len() != "blackpill-f401cc"@.len());
            assert("f4discovery"@.len() != "blackpill-f401ce"@.len());
            assert("f4discovery"@.len() != "blackpill-f411ce"@.len());
            assert("f4discovery"@.len() != "bluepill"@.len());
            assert("f4discovery"@.len() != "ctxlink"@.len());
            assert("f4discovery"@.len() != "f072"@.len());
            assert("f4discovery"@.len() != "f3"@.len());
        },
        Probe::HydraBus => {
            assert("hydrabus"@.len() != "96b_carbon"@.len());
            assert("hydrabus"@.len() != "blackpill-f401cc"@.len());
            assert("hydrabus"@.len() != "blackpill-f401ce"@.len());
            assert("hydrabus"@.len() != "blackpill-f411ce"@.len());
            lemma_differ_at("hydrabus"@, "bluepill"@, 0);
            assert("hydrabus"@.len() != "ctxlink"@.len());
            assert("hydrabus"@.len() != "f072"@.len());
            assert("hydrabus"@.len() != "f3"@.len());
            assert("hydrabus"@.len() != "f4discovery"@.len());
        },
        Probe::LaunchpadICDI => {
            assert("launchpad-icdi"@.len() != "96b_carbon"@.len());
            assert("launchpad-icdi"@.len() != "blackpill-f401cc"@.len());
            assert("launchpad-icdi"@.len() != "blackpill-f401ce"@.len());
            assert("launchpad-icdi"@.len() != "blackpill-f411ce"@.len());
            assert("launchpad-icdi"@.len() != "bluepill"@.len());
            assert("launchpad-icdi"@.len() != "ctxlink"@.len());
            assert("launchpad-icdi"@.len() != "f072"@.len());
            assert("launchpad-icdi"@.len() != "f3"@.len());
            assert("launchpad-icdi"@.len() != "f4discovery"@.len());
            assert("launchpad-icdi"@.len() != "hydrabus"@.len());
        },
        Probe::Native => {
            assert("native"@.len() != "96b_carbon"@.len());
            assert("native"@.len() != "blackpill-f401cc"@.len());
            assert("native"@.len() != "blackpill-f401ce"@.len());
            assert("native"@.len() != "blackpill-f411ce"@.len());
            assert("native"@.len() != "bluepill"@.len());
            assert("native"@.len() != "ctxlink"@.len());
            assert("native"@.len() != "f072"@.len());
            assert("native"@.len() != "f3"@.len());
            assert("native"@.len() != "f4discovery"@.len());
            assert("native"@.len() != "hydrabus"@.len());
            assert("native"@.len() != "launchpad-icdi"@.len());
        },
        Probe::Stlink => {
            assert("stlink"@.len() != "96b_carbon"@.len());
            assert("stlink"@.len() != "blackpill-f401cc"@.len());
            assert("stlink"@.len() != "blackpill-f401ce"@.len());
            assert("stlink"@.len() != "blackpill-f411ce"@.len());
            assert("stlink"@.len() != "bluepill"@.len());
            assert("stlink"@.len() != "ctxlink"@.len());
            assert("stlink"@.len() != "f072"@.len());
            assert("stlink"@.len() != "f3"@.len());
            assert("stlink"@.len() != "f4discovery"@.len());
            assert("stlink"@.len() != "hydrabus"@.len());
            assert("stlink"@.len() != "launchpad-icdi"@.len());
            lemma_differ_at("stlink"@, "native"@, 0);
        },
        Probe::Stlinkv3 => {
            assert("stlinkv3"@.len() != "96b_carbon"@.len());
            assert("stlinkv3"@.len() != "blackpill-f401cc"@.len());
            assert("stlinkv3"@.len() != "blackpill-f401ce"@.len());
            assert("stlinkv3"@.len() != "blackpill-f411ce"@.len());
            lemma_differ_at("stlinkv3"@, "bluepill"@, 0);
            assert("stlinkv3"@.len() != "ctxlink"@.len());
            assert("stlinkv3"@.len() != "f072"@.len());
            assert("stlinkv3"@.len() != "f3"@.len());
            assert("stlinkv3"@.len() != "f4discovery"@.len());
            lemma_differ_at("stlinkv3"@, "hydrabus"@, 0);
            assert("stlinkv3"@.len() != "launchpad-icdi"@.len());
            assert("stlinkv3"@.len() != "native"@.len());
            assert("stlinkv3"@.len() != "stlink"@.len());
        },
        Probe::Swlink => {
            assert("swlink"@.len() != "96b_carbon"@.len());
            assert("swlink"@.len() != "blackpill-f401cc"@.len());
            assert("swlink"@.len() != "blackpill-f401ce"@.len());
            assert("swlink"@.len() != "blackpill-f411ce"@.len());
            assert("swlink"@.len() != "bluepill"@.len());
            assert("swlink"@.len() != "ctxlink"@.len());
            assert("swlink"@.len() != "f072"@.len());
            assert("swlink"@.len() != "f3"@.len());
            assert("swlink"@.len() != "f4discovery"@.len());
            assert("swlink"@.len() != "hydrabus"@.len());
            assert("swlink"@.len() != "launchpad-icdi"@.len());
            lemma_differ_at("swlink"@, "native"@, 0);
            lemma_differ_at("swlink"@, "stlink"@, 1);
            assert("swlink"@.len() != "stlinkv3"@.len());
        },
    }
}

/// Enumeration of the OSes that BMDA can be officially run on
#[derive(Debug, PartialEq, Eq, PartialOrd, Ord, Clone, Copy, Hash, Structural)]
pub enum TargetOS {
    Linux,
    MacOS,
    Windows,
}

/// The operating system that goes by the given metadata name, if any.
pub open spec fn target_os_from_name(s: Seq<char>) -> Option<TargetOS> {
    if s == "linux"@ {
        Some(TargetOS::Linux)
    } else if s == "macos"@ {
        Some(TargetOS::MacOS)
    } else if s == "windows"@ {
        Some(TargetOS::Windows)
    } else {
        None
    }
}

/// How an operating system is shown to the user.
pub open spec fn target_os_display(os: TargetOS) -> Seq<char> {
    match os {
        TargetOS::Linux => "Linux"@,
        TargetOS::MacOS => "macOS"@,
        TargetOS::Windows => "Windows"@,
    }
}

impl TargetOS {
    /// Maps a metadata name to an operating system; the error names the rejected value.
    pub fn from_str(value: &str) -> (r: Result<TargetOS, String>)
        ensures
            match r {
                Ok(os) => target_os_from_name(value@) == Some(os),
                Err(m) => target_os_from_name(value@) is None
                    && m@ == "Failed to translate invalid operating system name "@ + value@
                    + " to TargetOS enum"@,
            },
    {
        let cs = chars_of(value);
        let s = cs.as_slice();
        if chars_are(s, "linux") {
            Ok(TargetOS::Linux)
        } else if chars_are(s, "macos") {
            Ok(TargetOS::MacOS)
        } else if chars_are(s, "windows") {
            Ok(TargetOS::Windows)
        } else {
            Err(
                framed_message(
                    "Failed to translate invalid operating system name ",
                    value,
                    " to TargetOS enum",
                ),
            )
        }
    }

    /// How this operating system is shown to the user.
    pub fn to_string(&self) -> (r: String)
        ensures
            r@ == target_os_display(*self),
    {
        match self {
            TargetOS::Linux => "Linux".to_owned(),
            TargetOS::MacOS => "macOS".to_owned(),
            TargetOS::Windows => "Windows".to_owned(),
        }
    }
}

/// Enumeration of the CPU architectures that BMDA can be officially run on
#[derive(Debug, PartialEq, Eq, PartialOrd, Ord, Clone, Copy, Hash, Structural)]
pub enum TargetArch {
    I386,
    AMD64,
    AArch32,
    AArch64,
}

/// The architecture that goes by the given metadata name, if any.
pub open spec fn target_arch_from_name(s: Seq<char>) -> Option<TargetArch> {
    if s == "i386"@ {
        Some(TargetArch::I386)
    } else if s == "amd64"@ {
        Some(TargetArch::AMD64)
    } else if s == "aarch32"@ {
        Some(TargetArch::AArch32)
    } else if s == "aarch64"@ {
        Some(TargetArch::AArch64)
    } else {
        None
    }
}

/// How an architecture is shown to the user.
pub open spec fn target_arch_display(arch: TargetArch) -> Seq<char> {
    match arch {
        TargetArch::I386 => "i386"@,
        TargetArch::AMD64 => "AMD64"@,
        TargetArch::AArch32 => "AArch32"@,
        TargetArch::AArch64 => "AArch64"@,
    }
}

impl TargetArch {
    /// Maps a metadata name to an architecture; the error names the rejected value.
    pub fn from_str(value: &str) -> (r: Result<TargetArch, String>)
        ensures
            match r {
                Ok(a) => target_arch_from_name(value@) == Some(a),
                Err(m) => target_arch_from_name(value@) is None
                    && m@ == "Failed to translate invalid architecture name "@ + value@
                    + " to TargetArch enum"@,
            },
    {
        let cs = chars_of(value);
        let s = cs.as_slice();
        if chars_are(s, "i386") {
            Ok(TargetArch::I386)
        } else if chars_are(s, "amd64") {
            Ok(TargetArch::AMD64)
        } else if chars_are(s, "aarch32") {
            Ok(TargetArch::AArch32)
        } else if chars_are(s, "aarch64") {
            Ok(TargetArch::AArch64)
        } else {
            Err(
                framed_message(
                    "Failed to translate invalid architecture name ",
                    value,
                    " to TargetArch enum",
                ),
            )
        }
    }

    /// How this architecture is shown to the user.
    pub fn to_string(&self) -> (r: String)
        ensures
            r@ == target_arch_display(*self),
    {
        match self {
            TargetArch::I386 => "i386".to_owned(),
            TargetArch::AMD64 => "AMD64".to_owned(),
            TargetArch::AArch32 => "AArch32".to_owned(),
            TargetArch::AArch64 => "AArch64".to_owned(),
        }
    }
}


/// The variants of a probe's firmware in a release, by variant name.
pub struct Firmware {
    pub variants: Vec<(String, FirmwareDownload)>,
}

/// A build of BMDA for one architecture.
pub struct BMDABinary {
    /// Name of the file from in the linked archive which should be executed as BMDA
    pub file_name: String,
    /// URI of where to go to pull the .zip archive of BMDA and its supporting files
    pub uri: String,
}

/// The builds of BMDA for one operating system, by architecture.
pub struct BMDAArch {
    pub binaries: Vec<(TargetArch, BMDABinary)>,
}

/// One release: its firmware by probe, and its BMDA builds where it includes them.
pub struct Release {
    pub includes_bmda: bool,
    pub firmware: Vec<(Probe, Firmware)>,
    pub bmda: Option<Vec<(TargetOS, BMDAArch)>>,
}

/// The release metadata index: its schema, its version, and the releases by version name, in
/// the order of their names.
pub struct Metadata {
    pub schema: String,
    pub version: usize,
    pub releases: Vec<(String, Release)>,
}

/// The names of some releases, in order.
pub open spec fn release_names(releases: Seq<(String, Release)>) -> Seq<Seq<char>> {
    releases.map_values(|r: (String, Release)| r.0@)
}

/// Whether a release of this name takes part in the search for the latest: pre-releases (names
/// holding `-rc`) only when they are asked for.
pub open spec fn release_considered(name: Seq<char>, include_rcs: bool) -> bool {
    include_rcs || !crate::text::contains_sub(name, "-rc"@)
}

/// The search for the latest release after looking at the release named `name` at position
/// `k`, having found `prev` before it: a considered release that is newer than `prev` (or the
/// first considered) takes its place.
pub open spec fn latest_step(
    prev: Option<(crate::version::VersionNumberView, int)>,
    name: Seq<char>,
    k: int,
    include_rcs: bool,
) -> Option<(crate::version::VersionNumberView, int)> {
    if !release_considered(name, include_rcs) {
        prev
    } else {
        let v = crate::version::version_of_name(name);
        match prev {
            None => Some((v, k)),
            Some((current, _)) => if crate::version::newer(v, current) {
                Some((v, k))
            } else {
                prev
            },
        }
    }
}

/// The newest version among the first `k` release names that are considered, with the position
/// of its release; the first of equally new versions is kept.
pub open spec fn latest_among(names: Seq<Seq<char>>, include_rcs: bool, k: int) -> Option<
    (crate::version::VersionNumberView, int),
>
    decreases k,
{
    if k <= 0 {
        None
    } else {
        latest_step(latest_among(names, include_rcs, k - 1), names[k - 1], k - 1, include_rcs)
    }
}

/// The model of the search's current pick.
pub open spec fn pick_view(p: Option<(VersionNumber, usize)>) -> Option<(crate::version::VersionNumberView, int)> {
    match p {
        None => None,
        Some((v, i)) => Some((v@, i as int)),
    }
}

/// One step of the search for the latest release (see [`latest_step`]).
fn latest_step_exec(current: Option<(VersionNumber, usize)>, name: &str, k: usize, include_rcs: bool) -> (r: Option<
    (VersionNumber, usize),
>)
    ensures
        pick_view(r) == latest_step(pick_view(current), name@, k as int, include_rcs),
{
    let cs = chars_of(name);
    let rc = chars_of("-rc");
    let is_rc = crate::text::chars_contain(cs.as_slice(), rc.as_slice());
    if is_rc && !include_rcs {
        return current;
    }
    let version = VersionNumber::from(name);
    proof {
        crate::version::lemma_version_of_name(name@);
    }
    match current {
        None => Some((version, k)),
        Some((cv, ci)) => {
            if crate::version::is_newer(&version, &cv) {
                Some((version, k))
            } else {
                Some((cv, ci))
            }
        },
    }
}

/// Whether every release says truthfully whether it includes BMDA.
pub open spec fn releases_consistent(releases: Seq<(String, Release)>) -> bool {
    forall|i: int| 0 <= i < releases.len() ==> (#[trigger] releases[i]).1.includes_bmda == releases[i].1.bmda is Some
}

/// What validating metadata gives: version 1 metadata whose releases are consistent is
/// accepted; anything else is invalid.
pub open spec fn metadata_valid(m: Metadata) -> bool {
    m.version == 1 && releases_consistent(m.releases@)
}

impl Metadata {
    /// The newest release, skipping pre-releases unless `include_rcs`; among equally new
    /// versions the first listed is kept.
    pub fn latest(&self, include_rcs: bool) -> (r: Option<(VersionNumber, &Release)>)
        ensures
            match latest_among(release_names(self.releases@), include_rcs, self.releases@.len() as int) {
                None => r is None,
                Some((v, i)) => r matches Some((version, release)) && version@ == v && 0 <= i
                    < self.releases@.len() && *release == self.releases@[i].1,
            },
    {
        let ghost names = release_names(self.releases@);
        let mut current: Option<(VersionNumber, usize)> = None;
        let mut k: usize = 0;
        while k < self.releases.len()
            invariant
                k <= self.releases@.len(),
                names == release_names(self.releases@),
                names.len() == self.releases@.len(),
                pick_view(current) == latest_among(names, include_rcs, k as int),
                current matches Some((_, i)) ==> i < k,
            decreases self.releases@.len() - k,
        {
            let name = self.releases[k].0.as_str();
            assert(names[k as int] == name@);
            current = latest_step_exec(current, name, k, include_rcs);
            k = k + 1;
        }
        match current {
            None => None,
            Some((v, i)) => Some((v, &self.releases[i].1)),
        }
    }
}

/// Whether the releases are listed strictly in the order of their names, as a map keyed by
/// name holds them: each name comes before every later one, so no name occurs twice.
pub open spec fn releases_in_name_order(releases: Seq<(String, Release)>) -> bool {
    forall|i: int, j: int|
        0 <= i < j < releases.len() ==> crate::text::chars_less(#[trigger] releases[i].0@, #[trigger] releases[j].0@)
}

/// Releases listed in name order have distinct names.
pub proof fn lemma_ordered_names_distinct(releases: Seq<(String, Release)>, i: int, j: int)
    requires
        releases_in_name_order(releases),
        0 <= i < releases.len(),
        0 <= j < releases.len(),
        i != j,
    ensures
        releases[i].0@ != releases[j].0@,
{
    if i < j {
        crate::text::lemma_chars_less_from_irreflexive(releases[i].0@, 0);
    } else {
        crate::text::lemma_chars_less_from_irreflexive(releases[j].0@, 0);
    }
}

impl Metadata {
    /// Whether the releases are listed strictly in the order of their names (see
    /// [`releases_in_name_order`]).
    pub fn releases_in_order(&self) -> (r: bool)
        ensures
            r == releases_in_name_order(self.releases@),
    {
        let n = self.releases.len();
        if n < 2 {
            return true;
        }
        let mut k: usize = 1;
        while k < n
            invariant
                n == self.releases@.len(),
                1 <= k <= n,
                forall|i: int, j: int|
                    0 <= i < j < k ==> crate::text::chars_less(
                        #[trigger] self.releases@[i].0@,
                        #[trigger] self.releases@[j].0@,
                    ),
            decreases n - k,
        {
            let prev = chars_of(self.releases[k - 1].0.as_str());
            let next = chars_of(self.releases[k].0.as_str());
            if !crate::text::chars_lt(prev.as_slice(), next.as_slice()) {
                assert(!crate::text::chars_less(self.releases@[k - 1].0@, self.releases@[k as int].0@));
                return false;
            }
            proof {
                let rs = self.releases@;
                assert forall|i: int, j: int| 0 <= i < j < k + 1 implies crate::text::chars_less(
                    #[trigger] rs[i].0@,
                    #[trigger] rs[j].0@,
                ) by {
                    if j == k && i < k - 1 {
                        let a = rs[i].0@;
                        let b = rs[k - 1].0@;
                        let c = rs[j].0@;
                        assert(crate::text::chars_less(a, b));
                        crate::text::lemma_chars_less_from_transitive(a, b, c, 0);
                    }
                }
            }
            k = k + 1;
        }
        true
    }
}

/// Whether no probe platform has two entries among a release's firmware, as in a map keyed by
/// platform.
pub open spec fn firmware_keys_distinct(firmware: Seq<(Probe, Firmware)>) -> bool {
    forall|i: int, j: int| 0 <= i < j < firmware.len() ==> #[trigger] firmware[i].0 != #[trigger] firmware[j].0
}

/// Whether no operating system has two entries among a release's BMDA builds, as in a map keyed
/// by operating system.
pub open spec fn bmda_keys_distinct(bmda: Seq<(TargetOS, BMDAArch)>) -> bool {
    forall|i: int, j: int| 0 <= i < j < bmda.len() ==> #[trigger] bmda[i].0 != #[trigger] bmda[j].0
}

/// Whether a release holds each key once: each probe platform among its firmware, and each
/// operating system among its BMDA builds.
pub open spec fn release_keys_distinct(r: Release) -> bool {
    &&& firmware_keys_distinct(r.firmware@)
    &&& (r.bmda matches Some(b) ==> bmda_keys_distinct(b@))
}

/// Whether a release's firmware names each probe platform once.
fn firmware_keys_distinct_exec(firmware: &Vec<(Probe, Firmware)>) -> (r: bool)
    ensures
        r == firmware_keys_distinct(firmware@),
{
    let n = firmware.len();
    let mut j: usize = 0;
    while j < n
        invariant
            n == firmware@.len(),
            j <= n,
            forall|a: int, b: int| 0 <= a < b < j ==> #[trigger] firmware@[a].0 != #[trigger] firmware@[b].0,
        decreases n - j,
    {
        let mut i: usize = 0;
        while i < j
            invariant
                n == firmware@.len(),
                i <= j < n,
                forall|a: int, b: int| 0 <= a < b < j ==> #[trigger] firmware@[a].0 != #[trigger] firmware@[b].0,
                forall|a: int| 0 <= a < i ==> #[trigger] firmware@[a].0 != firmware@[j as int].0,
            decreases j - i,
        {
            if firmware[i].0 == firmware[j].0 {
                return false;
            }
            i = i + 1;
        }
        j = j + 1;
    }
    true
}

/// Whether a release's BMDA builds name each operating system once.
fn bmda_keys_distinct_exec(bmda: &Vec<(TargetOS, BMDAArch)>) -> (r: bool)
    ensures
        r == bmda_keys_distinct(bmda@),
{
    let n = bmda.len();
    let mut j: usize = 0;
    while j < n
        invariant
            n == bmda@.len(),
            j <= n,
            forall|a: int, b: int| 0 <= a < b < j ==> #[trigger] bmda@[a].0 != #[trigger] bmda@[b].0,
        decreases n - j,
    {
        let mut i: usize = 0;
        while i < j
            invariant
                n == bmda@.len(),
                i <= j < n,
                forall|a: int, b: int| 0 <= a < b < j ==> #[trigger] bmda@[a].0 != #[trigger] bmda@[b].0,
                forall|a: int| 0 <= a < i ==> #[trigger] bmda@[a].0 != bmda@[j as int].0,
            decreases j - i,
        {
            if bmda[i].0 == bmda[j].0 {
                return false;
            }
            i = i + 1;
        }
        j = j + 1;
    }
    true
}

impl Release {
    /// Whether the release holds each key once (see [`release_keys_distinct`]).
    pub fn keys_distinct(&self) -> (r: bool)
        ensures
            r == release_keys_distinct(*self),
    {
        if !firmware_keys_distinct_exec(&self.firmware) {
            return false;
        }
        match &self.bmda {
            Some(b) => bmda_keys_distinct_exec(b),
            None => true,
        }
    }
}

/// Whether metadata holds its maps as maps: releases strictly in name order, and each release
/// holding each of its keys once.
pub open spec fn metadata_well_formed(m: Metadata) -> bool {
    &&& releases_in_name_order(m.releases@)
    &&& forall|i: int| 0 <= i < m.releases@.len() ==> release_keys_distinct(#[trigger] m.releases@[i].1)
}

impl Metadata {
    /// Whether the metadata holds its maps as maps (see [`metadata_well_formed`]).
    pub fn well_formed(&self) -> (r: bool)
        ensures
            r == metadata_well_formed(*self),
    {
        if !self.releases_in_order() {
            return false;
        }
        let mut k: usize = 0;
        while k < self.releases.len()
            invariant
                k <= self.releases@.len(),
                forall|i: int| 0 <= i < k ==> release_keys_distinct(#[trigger] self.releases@[i].1),
            decreases self.releases@.len() - k,
        {
            if !self.releases[k].1.keys_distinct() {
                return false;
            }
            k = k + 1;
        }
        true
    }
}

/// Checks that every release says truthfully whether it includes BMDA.
pub fn handle_v1_metadata(metadata: Metadata) -> (r: Result<Metadata, crate::error::ErrorKind>)
    ensures
        match r {
            Ok(m) => m == metadata && releases_consistent(metadata.releases@),
            Err(e) => e == crate::error::ErrorKind::ReleaseMetadataInvalid && !releases_consistent(metadata.releases@),
        },
{
    let mut k: usize = 0;
    while k < metadata.releases.len()
        invariant
            k <= metadata.releases@.len(),
            forall|i: int| 0 <= i < k ==> (#[trigger] metadata.releases@[i]).1.includes_bmda
                == metadata.releases@[i].1.bmda is Some,
        decreases metadata.releases@.len() - k,
    {
        let release = &metadata.releases[k].1;
        let has_bmda = match &release.bmda {
            Some(_) => true,
            None => false,
        };
        if release.includes_bmda != has_bmda {
            return Err(crate::error::ErrorKind::ReleaseMetadataInvalid);
        }
        k = k + 1;
    }
    Ok(metadata)
}

/// Validates freshly loaded metadata: only version 1 is understood.
pub fn validate_metadata(metadata: Metadata) -> (r: Result<Metadata, crate::error::ErrorKind>)
    ensures
        match r {
            Ok(m) => m == metadata && metadata_valid(metadata),
            Err(e) => e == crate::error::ErrorKind::ReleaseMetadataInvalid && !metadata_valid(metadata),
        },
{
    if metadata.version == 1 {
        handle_v1_metadata(metadata)
    } else {
        Err(crate::error::ErrorKind::ReleaseMetadataInvalid)
    }
}

/// What the search for the latest release finds among the first `k` names: a considered release
/// that no considered release is newer than, or nothing where none is considered.
proof fn lemma_latest_among(names: Seq<Seq<char>>, include_rcs: bool, k: int)
    requires
        0 <= k <= names.len(),
    ensures
        match latest_among(names, include_rcs, k) {
            Some((v, i)) => {
                &&& 0 <= i < k
                &&& v == crate::version::version_of_name(names[i])
                &&& release_considered(names[i], include_rcs)
                &&& forall|j: int|
                    0 <= j < k && release_considered(#[trigger] names[j], include_rcs) ==> !crate::version::newer(
                        crate::version::version_of_name(names[j]),
                        v,
                    )
            },
            None => forall|j: int| 0 <= j < k ==> !release_considered(#[trigger] names[j], include_rcs),
        },
    decreases k,
{
    if k > 0 {
        lemma_latest_among(names, include_rcs, k - 1);
        let prev = latest_among(names, include_rcs, k - 1);
        let name = names[k - 1];
        let vk = crate::version::version_of_name(name);
        crate::version_order::law_version_number_not_newer_than_itself(vk);
        if release_considered(name, include_rcs) {
            match prev {
                None => {},
                Some((c, ci)) => {
                    if crate::version::newer(vk, c) {
                        assert forall|j: int|
                            0 <= j < k && release_considered(#[trigger] names[j], include_rcs) implies !crate::version::newer(
                            crate::version::version_of_name(names[j]),
                            vk,
                        ) by {
                            let vj = crate::version::version_of_name(names[j]);
                            if j < k - 1 && crate::version::newer(vj, vk) {
                                crate::version_order::law_version_number_newer_transitive(vj, vk, c);
                            }
                        }
                    }
                },
            }
        }
    }
}

/// The latest release is the newest: the release found takes part in the search, and no release
/// that takes part is newer; nothing is found only where no release takes part.
pub proof fn law_latest_is_newest(names: Seq<Seq<char>>, include_rcs: bool)
    ensures
        match latest_among(names, include_rcs, names.len() as int) {
            Some((v, i)) => {
                &&& 0 <= i < names.len()
                &&& v == crate::version::version_of_name(names[i])
                &&& release_considered(names[i], include_rcs)
                &&& forall|j: int|
                    0 <= j < names.len() && release_considered(#[trigger] names[j], include_rcs)
                        ==> !crate::version::newer(crate::version::version_of_name(names[j]), v)
            },
            None => forall|j: int| 0 <= j < names.len() ==> !release_considered(#[trigger] names[j], include_rcs),
        },
{
    lemma_latest_among(names, include_rcs, names.len() as int);
}

} // verus!
