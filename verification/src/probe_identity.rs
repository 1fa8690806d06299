//! The identity of a probe running Black Magic Debug, as read from its USB product string.
//!
//! Product strings come in the following forms:
//! - `Black Magic Probe v2.0.0-rc2`
//! - `Black Magic Probe (ST-Link/v2) v1.10.0-1273-g2b1ce9aee`
//! - `Black Magic Probe` (old firmware, version unknown)
use vstd::prelude::*;

use crate::metadata::structs;
use crate::metadata::structs::Probe;
use crate::text;
use crate::text::{chars_of, find_char, is_blank, rfind_char, starts_with, string_extend, string_extend_str, string_from_chars, to_lowercase};
use crate::version;
pub use crate::version::{GitVersion, VersionKind, VersionNumber, VersionParts};

verus! {

/// A probe's platform and firmware version.
#[derive(Debug, PartialEq, Eq)]
pub struct ProbeIdentity {
    pub(crate) probe: Probe,
    pub version: VersionNumber,
}

/// Mathematical model of a [`ProbeIdentity`].
pub struct ProbeIdentityView {
    pub probe: Probe,
    pub version: version::VersionNumberView,
}

impl View for ProbeIdentity {
    type V = ProbeIdentityView;

    closed spec fn view(&self) -> ProbeIdentityView {
        ProbeIdentityView { probe: self.probe, version: self.version@ }
    }
}

/// Why the platform name could not be found in a product string.
#[derive(Debug, PartialEq, Eq, Clone, Copy, Structural)]
pub enum ParseNameError {
    OpeningParenthesisAfterClosingParenthesis,
    FoundNotMatchedParenthesis,
}

/// Why the version could not be found in a product string.
#[derive(Debug, PartialEq, Eq, Clone, Copy, Structural)]
pub enum ParseVersionError {
    FormattingPatternError,
    EmptyOrWhitespaceVersion,
}

/// Why a product string does not identify a probe.
#[derive(Debug, PartialEq, Eq, Clone, Copy, Structural)]
pub enum ProbeIdentityError {
    /// The string does not start with `Black Magic Probe`.
    NotBlackMagicProbe,
    /// The platform name in parentheses is malformed.
    ProbeName(ParseNameError),
    /// The platform name is not one this library knows.
    UnknownProbe,
    /// The version is missing or blank.
    Version(ParseVersionError),
}

/// `Black Magic Probe`, which every product string starts with.
pub open spec fn product_text() -> Seq<char> {
    seq!['B', 'l', 'a', 'c', 'k', ' ', 'M', 'a', 'g', 'i', 'c', ' ', 'P', 'r', 'o', 'b', 'e']
}

/// `native`, the platform of a probe whose product string names none.
pub open spec fn native_text() -> Seq<char> {
    seq!['n', 'a', 't', 'i', 'v', 'e']
}

/// The platform name between the parentheses of what follows the product name, or `native`
/// when there are no parentheses.
pub open spec fn spec_parse_name(input: Seq<char>) -> Result<Seq<char>, ParseNameError> {
    let opening = text::spec_find(input, '(');
    let closing = text::spec_find(input, ')');
    if opening is None && closing is None {
        Ok(native_text())
    } else if opening is Some && closing is Some {
        if opening->0 > closing->0 {
            Err(ParseNameError::OpeningParenthesisAfterClosingParenthesis)
        } else {
            Ok(input.subrange(opening->0 + 1, closing->0))
        }
    } else {
        Err(ParseNameError::FoundNotMatchedParenthesis)
    }
}

/// The version: whatever follows the last space, which must not be blank.
pub open spec fn spec_parse_version(input: Seq<char>) -> Result<Seq<char>, ParseVersionError> {
    match text::spec_rfind(input, ' ') {
        None => Err(ParseVersionError::FormattingPatternError),
        Some(start) => {
            let v = input.subrange(start + 1, input.len() as int);
            if text::all_whitespace(v) {
                Err(ParseVersionError::EmptyOrWhitespaceVersion)
            } else {
                Ok(v)
            }
        },
    }
}

/// What a product string says about a probe.
pub open spec fn spec_parse_identity(s: Seq<char>) -> Result<ProbeIdentityView, ProbeIdentityError> {
    if !text::is_prefix(product_text(), s) {
        Err(ProbeIdentityError::NotBlackMagicProbe)
    } else if s == product_text() {
        Ok(ProbeIdentityView { probe: Probe::Native, version: version::VersionNumberView::Unknown })
    } else {
        let rest = s.subrange(product_text().len() as int, s.len() as int);
        match spec_parse_name(rest) {
            Err(e) => Err(ProbeIdentityError::ProbeName(e)),
            Ok(name) => match structs::probe_from_identity_name(text::spec_to_lowercase(name)) {
                None => Err(ProbeIdentityError::UnknownProbe),
                Some(probe) => match spec_parse_version(rest) {
                    Err(e) => Err(ProbeIdentityError::Version(e)),
                    Ok(v) => Ok(ProbeIdentityView { probe, version: version::spec_version_number(v) }),
                },
            },
        }
    }
}

/// Whether what follows the product name in a product string holds no parentheses, so that it
/// names no platform.
pub open spec fn names_no_platform(rest: Seq<char>) -> bool {
    text::spec_find(rest, '(') is None && text::spec_find(rest, ')') is None
}

/// The probe platform a product string names: native where it names none, otherwise the
/// platform whose name is the text between the parentheses, in lower case.
pub open spec fn spec_named_platform(s: Seq<char>) -> Option<Probe> {
    let rest = s.subrange(product_text().len() as int, s.len() as int);
    if s == product_text() || names_no_platform(rest) {
        Some(Probe::Native)
    } else {
        match spec_parse_name(rest) {
            Ok(name) => structs::probe_from_identity_name(text::spec_to_lowercase(name)),
            Err(_) => None,
        }
    }
}

/// Lower-casing leaves `native` as it is.
proof fn lemma_native_text_lowercase_fixed()
    ensures
        forall|i: int| 0 <= i < native_text().len() ==> text::lowercase_fixed(#[trigger] native_text()[i]),
        structs::probe_from_identity_name(native_text()) == Some(Probe::Native),
{
    assert(native_text() =~= "native"@) by {
        reveal_strlit("native");
    }
    assert(structs::probe_from_identity_name(native_text()) == Some(Probe::Native)) by {
        reveal_strlit("96b carbon");
        reveal_strlit("blackpill-f401cc");
        reveal_strlit("blackpill-f401ce");
        reveal_strlit("blackpill-f411ce");
        reveal_strlit("ctxlink");
        reveal_strlit("f072-if");
        reveal_strlit("f3-if");
        reveal_strlit("f4discovery");
        reveal_strlit("hydrabus");
        reveal_strlit("launchpad icdi");
        reveal_strlit("native");
    }
}

/// The message for a malformed platform name.
pub open spec fn parse_name_error_text(e: ParseNameError) -> Seq<char> {
    match e {
        ParseNameError::OpeningParenthesisAfterClosingParenthesis => "A '(' parenthesis is found after a ')'."@,
        ParseNameError::FoundNotMatchedParenthesis => "Not a matching pair of parenthesis found."@,
    }
}

/// The message for a missing version.
pub open spec fn parse_version_error_text(e: ParseVersionError) -> Seq<char> {
    match e {
        ParseVersionError::FormattingPatternError => "The version failed to match the pattern of 'Black Magic Probe (<version number>)'."@,
        ParseVersionError::EmptyOrWhitespaceVersion => "The extracted version is empty or whitespace"@,
    }
}

/// The message for a product string that does not identify a probe.
pub open spec fn identity_error_text(e: ProbeIdentityError) -> Seq<char> {
    match e {
        ProbeIdentityError::NotBlackMagicProbe => "Product string doesn't start with 'Black Magic Probe'"@,
        ProbeIdentityError::ProbeName(n) => "Error while parsing probe string: "@ + parse_name_error_text(n),
        ProbeIdentityError::UnknownProbe => "Probe with unknown product string encountered"@,
        ProbeIdentityError::Version(v) => "Error while parsing version string: "@ + parse_version_error_text(v),
    }
}

/// How a probe identity is shown: the product name, the platform in parentheses unless it is a
/// native probe, and the version.
pub open spec fn identity_text(id: ProbeIdentityView) -> Seq<char> {
    let platform = if id.probe == Probe::Native {
        Seq::empty()
    } else {
        " ("@ + structs::probe_name(id.probe) + ")"@
    };
    let version = match id.version {
        version::VersionNumberView::Unknown => Seq::empty(),
        version::VersionNumberView::Invalid => " <invalid version>"@,
        version::VersionNumberView::GitHash(h) => " "@ + h,
        version::VersionNumberView::FullVersion(p) => " "@ + version::version_parts_text(p),
    };
    product_text() + platform + version
}

impl ParseNameError {
    /// The message for this error.
    pub fn to_string(&self) -> (r: String)
        ensures
            r@ == parse_name_error_text(*self),
    {
        match self {
            ParseNameError::OpeningParenthesisAfterClosingParenthesis => "A '(' parenthesis is found after a ')'.".to_owned(),
            ParseNameError::FoundNotMatchedParenthesis => "Not a matching pair of parenthesis found.".to_owned(),
        }
    }
}

impl ParseVersionError {
    /// The message for this error.
    pub fn to_string(&self) -> (r: String)
        ensures
            r@ == parse_version_error_text(*self),
    {
        match self {
            ParseVersionError::FormattingPatternError => "The version failed to match the pattern of 'Black Magic Probe (<version number>)'.".to_owned(),
            ParseVersionError::EmptyOrWhitespaceVersion => "The extracted version is empty or whitespace".to_owned(),
        }
    }
}

impl ProbeIdentityError {
    /// The message for this error.
    pub fn to_string(&self) -> (r: String)
        ensures
            r@ == identity_error_text(*self),
    {
        match self {
            ProbeIdentityError::NotBlackMagicProbe => "Product string doesn't start with 'Black Magic Probe'".to_owned(),
            ProbeIdentityError::ProbeName(n) => {
                let mut r = "Error while parsing probe string: ".to_owned();
                let m = n.to_string();
                string_extend_str(&mut r, m.as_str());
                r
            },
            ProbeIdentityError::UnknownProbe => "Probe with unknown product string encountered".to_owned(),
            ProbeIdentityError::Version(v) => {
                let mut r = "Error while parsing version string: ".to_owned();
                let m = v.to_string();
                string_extend_str(&mut r, m.as_str());
                r
            },
        }
    }
}

/// Finds the platform name in what follows the product name (see [`spec_parse_name`]).
pub fn parse_name_from_identity_string(input: &[char]) -> (r: Result<Vec<char>, ParseNameError>)
    ensures
        match r {
            Ok(n) => spec_parse_name(input@) == Ok::<Seq<char>, ParseNameError>(n@),
            Err(e) => spec_parse_name(input@) == Err::<Seq<char>, ParseNameError>(e),
        },
{
    let opening = find_char(input, '(');
    let closing = find_char(input, ')');
    match (opening, closing) {
        (None, None) => {
            let v = vec!['n', 'a', 't', 'i', 'v', 'e'];
            assert(v@ =~= native_text());
            Ok(v)
        },
        (Some(o), Some(c)) => {
            if o > c {
                Err(ParseNameError::OpeningParenthesisAfterClosingParenthesis)
            } else {
                assert(o != c);
                Ok(vstd::slice::slice_to_vec(&input[o + 1..c]))
            }
        },
        _ => Err(ParseNameError::FoundNotMatchedParenthesis),
    }
}

/// Finds the version in what follows the product name (see [`spec_parse_version`]).
pub fn parse_version_from_identity_string(input: &[char]) -> (r: Result<&[char], ParseVersionError>)
    ensures
        match r {
            Ok(v) => spec_parse_version(input@) == Ok::<Seq<char>, ParseVersionError>(v@),
            Err(e) => spec_parse_version(input@) == Err::<Seq<char>, ParseVersionError>(e),
        },
{
    match rfind_char(input, ' ') {
        None => Err(ParseVersionError::FormattingPatternError),
        Some(start) => {
            assert(start < input.len());
            let v = &input[start + 1..input.len()];
            if is_blank(v) {
                Err(ParseVersionError::EmptyOrWhitespaceVersion)
            } else {
                Ok(v)
            }
        },
    }
}

impl ProbeIdentity {
    /// Reads a probe's identity from its product string (see [`spec_parse_identity`]); the
    /// platform found is the one the string names (see [`spec_named_platform`]).
    #[verifier::rlimit(30)]
    pub fn try_from(identity: &str) -> (r: Result<ProbeIdentity, ProbeIdentityError>)
        ensures
            match r {
                Ok(id) => spec_parse_identity(identity@) == Ok::<ProbeIdentityView, ProbeIdentityError>(id@),
                Err(e) => spec_parse_identity(identity@) == Err::<ProbeIdentityView, ProbeIdentityError>(e),
            },
            r matches Ok(id) ==> spec_named_platform(identity@) == Some(id@.probe),
    {
        let cs = chars_of(identity);
        let product: [char; 17] = ['B', 'l', 'a', 'c', 'k', ' ', 'M', 'a', 'g', 'i', 'c', ' ', 'P', 'r', 'o', 'b', 'e'];
        assert(product@ =~= product_text());
        if !starts_with(cs.as_slice(), &product) {
            return Err(ProbeIdentityError::NotBlackMagicProbe);
        }
        if cs.len() == 17 {
            assert(cs@ =~= cs@.subrange(0, 17));
            return Ok(ProbeIdentity { probe: Probe::Native, version: VersionNumber::Unknown });
        }
        let rest = &cs.as_slice()[17..cs.len()];
        let name = match parse_name_from_identity_string(rest) {
            Err(e) => return Err(ProbeIdentityError::ProbeName(e)),
            Ok(n) => n,
        };
        let name_string = string_from_chars(name.as_slice());
        let lower = to_lowercase(name_string.as_str());
        proof {
            if names_no_platform(rest@) {
                lemma_native_text_lowercase_fixed();
            }
        }
        let probe = match Probe::try_from(lower) {
            None => return Err(ProbeIdentityError::UnknownProbe),
            Some(p) => p,
        };
        let version = match parse_version_from_identity_string(rest) {
            Err(e) => return Err(ProbeIdentityError::Version(e)),
            Ok(v) => v,
        };
        Ok(ProbeIdentity { probe, version: VersionNumber::from_chars(version) })
    }

    /// As [`ProbeIdentity::try_from`], for an owned string.
    pub fn try_from_string(identity: String) -> (r: Result<ProbeIdentity, ProbeIdentityError>)
        ensures
            match r {
                Ok(id) => spec_parse_identity(identity@) == Ok::<ProbeIdentityView, ProbeIdentityError>(id@),
                Err(e) => spec_parse_identity(identity@) == Err::<ProbeIdentityView, ProbeIdentityError>(e),
            },
    {
        ProbeIdentity::try_from(identity.as_str())
    }

    /// The probe platform, known for every identity read from a product string.
    pub fn variant(&self) -> (r: Option<Probe>)
        ensures
            r == Some(self@.probe),
    {
        Some(self.probe)
    }

    /// Shows the identity as the probe's product string would name it.
    pub fn to_string(&self) -> (r: String)
        ensures
            r@ == identity_text(self@),
    {
        let mut r = String::new();
        string_extend(&mut r, &['B', 'l', 'a', 'c', 'k', ' ', 'M', 'a', 'g', 'i', 'c', ' ', 'P', 'r', 'o', 'b', 'e']);
        let ghost after_product = r@;
        if self.probe != Probe::Native {
            string_extend_str(&mut r, " (");
            let name = self.probe.to_string();
            string_extend_str(&mut r, name.as_str());
            string_extend_str(&mut r, ")");
        }
        let ghost after_platform = r@;
        match &self.version {
            VersionNumber::Unknown => {},
            VersionNumber::Invalid => string_extend_str(&mut r, " <invalid version>"),
            VersionNumber::GitHash(h) => {
                string_extend_str(&mut r, " ");
                string_extend_str(&mut r, h.as_str());
            },
            VersionNumber::FullVersion(p) => {
                string_extend_str(&mut r, " ");
                let text = p.to_string();
                string_extend_str(&mut r, text.as_str());
            },
        }
        proof {
            let id = self@;
            let platform = if id.probe == Probe::Native {
                Seq::<char>::empty()
            } else {
                " ("@ + structs::probe_name(id.probe) + ")"@
            };
            assert(after_product =~= product_text());
            assert(after_platform =~= product_text() + platform);
            let version = match id.version {
                version::VersionNumberView::Unknown => Seq::<char>::empty(),
                version::VersionNumberView::Invalid => " <invalid version>"@,
                version::VersionNumberView::GitHash(h) => " "@ + h,
                version::VersionNumberView::FullVersion(p) => " "@ + version::version_parts_text(p),
            };
            assert(r@ =~= product_text() + platform + version);
        }
        r
    }
}

} // verus!
