//! Reading the product and version out of a probe's firmware identity string, as the firmware
//! switcher does before it offers a change of firmware.
use vstd::prelude::*;

use crate::error::ErrorKind;
use crate::text::{chars_of, find_char, rfind_char, string_from_chars};

verus! {

/// The product and the version read from an identity string, where they could be read.
pub struct ProbeIdentity {
    pub product: Option<String>,
    pub version: Option<String>,
}

/// The length of the product string every Black Magic Debug identity starts with
/// (`Black Magic Probe`).
pub open spec fn product_string_length() -> int {
    17
}

/// Whether every character is ASCII.
pub open spec fn all_ascii(s: Seq<char>) -> bool {
    forall|i: int| 0 <= i < s.len() ==> (#[trigger] s[i] as u32) < 0x80
}

/// The identities the switcher's reading takes: ASCII strings at least as long as the product
/// string, of which one with no `(` after the product string and more than it holds a space.
pub open spec fn identity_readable(s: Seq<char>) -> bool {
    &&& all_ascii(s)
    &&& s.len() >= product_string_length()
    &&& (crate::text::spec_find(s.subrange(product_string_length(), s.len() as int), '(') is None
        && s.len() > product_string_length() ==> crate::text::spec_rfind(s, ' ') is Some)
}

/// Whether the switcher can read an identity (see [`identity_readable`]).
pub fn is_identity_readable(identity: &str) -> (r: bool)
    ensures
        r == identity_readable(identity@),
{
    let s = chars_of(identity);
    let n = s.len();
    let mut i: usize = 0;
    while i < n
        invariant
            n == identity@.len(),
            s@ == identity@,
            i <= n,
            forall|j: int| 0 <= j < i ==> (#[trigger] identity@[j] as u32) < 0x80,
        decreases n - i,
    {
        if (s[i] as u32) >= 0x80 {
            assert(!all_ascii(identity@));
            return false;
        }
        i = i + 1;
    }
    if n < 17 {
        return false;
    }
    let tail = &s.as_slice()[17..n];
    assert(tail@ == identity@.subrange(17, n as int));
    match find_char(tail, '(') {
        Some(_) => true,
        None => n == 17 || rfind_char(s.as_slice(), ' ').is_some(),
    }
}

/// What the switcher reads from an identity, all positions counted in the whole string. Without
/// a `(` after the product string the probe is native, and its version is what follows the last
/// space, where there is anything after the product string. With a `(`, the product is the text
/// strictly between it and the next `)`, in lower case, and the version is the text after the
/// first space that follows that `)`; without such a `)` neither can be read.
pub open spec fn spec_parse_firmware_identity(s: Seq<char>) -> (Option<Seq<char>>, Option<Seq<char>>) {
    match crate::text::spec_find(s.subrange(product_string_length(), s.len() as int), '(') {
        None => (
            Some("native"@),
            if s.len() > product_string_length() {
                Some(s.subrange(crate::text::spec_rfind(s, ' ')->0 + 1, s.len() as int))
            } else {
                None
            },
        ),
        Some(k) => {
            let op = product_string_length() + k;
            match crate::text::spec_find(s.subrange(op, s.len() as int), ')') {
                None => (None, None),
                Some(j) => {
                    let cp = op + j;
                    (
                        Some(crate::text::spec_to_lowercase(s.subrange(op + 1, cp))),
                        match crate::text::spec_find(s.subrange(cp, s.len() as int), ' ') {
                            Some(m) => Some(s.subrange(cp + m + 1, s.len() as int)),
                            None => None,
                        },
                    )
                },
            }
        },
    }
}

/// The model of an optional string.
pub open spec fn opt_view(s: Option<String>) -> Option<Seq<char>> {
    match s {
        Some(t) => Some(t@),
        None => None,
    }
}

/// Reads the product and version from a probe's identity string (see
/// [`spec_parse_firmware_identity`]).
pub fn parse_firmware_identity(identity: &str) -> (r: ProbeIdentity)
    requires
        identity_readable(identity@),
    ensures
        (opt_view(r.product), opt_view(r.version)) == spec_parse_firmware_identity(identity@),
{
    let s = chars_of(identity);
    let n = s.len();
    let tail = &s.as_slice()[17..n];
    assert(tail@ == identity@.subrange(17, n as int));
    match find_char(tail, '(') {
        None => {
            let version = if n > 17 {
                let vb = match rfind_char(s.as_slice(), ' ') {
                    Some(vb) => vb,
                    None => {
                        assert(false);
                        0
                    },
                };
                let v = string_from_chars(&s.as_slice()[vb + 1..n]);
                Some(v)
            } else {
                None
            };
            ProbeIdentity { product: Some("native".to_owned()), version }
        },
        Some(k) => {
            let op = 17 + k;
            let from_op = &s.as_slice()[op..n];
            assert(from_op@ == identity@.subrange(op as int, n as int));
            match find_char(from_op, ')') {
                None => ProbeIdentity { product: None, version: None },
                Some(j) => {
                    let cp = op + j;
                    assert(from_op@[j as int] == ')');
                    let from_cp = &s.as_slice()[cp..n];
                    assert(from_cp@ == identity@.subrange(cp as int, n as int));
                    let version = match find_char(from_cp, ' ') {
                        Some(m) => Some(string_from_chars(&s.as_slice()[cp + m + 1..n])),
                        None => None,
                    };
                    let inner = string_from_chars(&s.as_slice()[op + 1..cp]);
                    let product = crate::text::to_lowercase(inner.as_str());
                    ProbeIdentity { product: Some(product), version }
                },
            }
        },
    }
}

/// The product and version to report for a probe: a probe whose product could not be read
/// seems invalid, and one whose version could not be read is taken to run v1.6 (older firmware
/// does not report its version).
pub fn product_and_version(identity: ProbeIdentity) -> (r: Result<(String, String), ErrorKind>)
    ensures
        match identity.product {
            None => r matches Err(ErrorKind::DeviceSeemsInvalid(m)) && m@ == "invalid product string"@,
            Some(p) => r matches Ok((product, version)) && product@ == p@ && version@ == (match identity.version {
                Some(v) => v@,
                None => "v1.6"@,
            }),
        },
{
    match identity.product {
        None => Err(ErrorKind::DeviceSeemsInvalid("invalid product string".to_owned())),
        Some(product) => {
            let version = match identity.version {
                Some(v) => v,
                None => "v1.6".to_owned(),
            };
            Ok((product, version))
        },
    }
}

} // verus!
