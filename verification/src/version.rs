//! Firmware version numbers of Black Magic Debug probes: their parts, how they are read
//! from the text a probe reports, how they are written back out, and how they are ordered.
use core::cmp::Ordering;

use vstd::prelude::*;
use vstd::std_specs::cmp::PartialOrdSpecImpl;

use crate::text;
use crate::text::{
    chars_eq, chars_of, find_char, parse_usize, push_decimal, rfind_char, string_extend, string_extend_str,
    string_from_chars, string_push,
};

verus! {

/// Git build information carried by a development version.
#[derive(Debug, PartialEq, Eq)]
pub struct GitVersion {
    pub(crate) release_candidate: Option<usize>,
    pub(crate) commits: usize,
    pub(crate) hash: String,
}

/// What kind of build a version describes.
#[derive(Debug, PartialEq, Eq)]
pub enum VersionKind {
    Release,
    ReleaseCandidate(usize),
    Development(GitVersion),
}

/// A fully spelled out version: `major.minor.revision` plus its kind and dirtiness.
#[derive(Debug, PartialEq, Eq)]
pub struct VersionParts {
    pub(crate) major: usize,
    pub(crate) minor: usize,
    pub(crate) revision: usize,
    pub(crate) kind: VersionKind,
    pub(crate) dirty: bool,
}

/// A version as reported by a probe.
#[derive(Debug, PartialEq, Eq)]
pub enum VersionNumber {
    Unknown,
    Invalid,
    GitHash(String),
    FullVersion(VersionParts),
}

/// Why a version string could not be split into parts.
#[derive(Debug, PartialEq, Eq, Clone, Copy, Structural)]
pub enum VersionPartsError {
    /// A numeric component (major, minor, revision, candidate or commit count) is not a number.
    MalformedNumber,
    /// The Git part of a development version has no `-` between commit count and hash.
    MalformedGitTag,
}

/// Mathematical model of a [`GitVersion`].
pub struct GitVersionView {
    pub release_candidate: Option<usize>,
    pub commits: usize,
    pub hash: Seq<char>,
}

/// Mathematical model of a [`VersionKind`].
pub enum VersionKindView {
    Release,
    ReleaseCandidate(usize),
    Development(GitVersionView),
}

/// Mathematical model of [`VersionParts`].
pub struct VersionPartsView {
    pub major: usize,
    pub minor: usize,
    pub revision: usize,
    pub kind: VersionKindView,
    pub dirty: bool,
}

/// Mathematical model of a [`VersionNumber`].
pub enum VersionNumberView {
    Unknown,
    Invalid,
    GitHash(Seq<char>),
    FullVersion(VersionPartsView),
}

impl View for GitVersion {
    type V = GitVersionView;

    closed spec fn view(&self) -> GitVersionView {
        GitVersionView {
            release_candidate: self.release_candidate,
            commits: self.commits,
            hash: self.hash@,
        }
    }
}

impl View for VersionKind {
    type V = VersionKindView;

    open spec fn view(&self) -> VersionKindView {
        match self {
            VersionKind::Release => VersionKindView::Release,
            VersionKind::ReleaseCandidate(n) => VersionKindView::ReleaseCandidate(*n),
            VersionKind::Development(g) => VersionKindView::Development(g@),
        }
    }
}

impl View for VersionParts {
    type V = VersionPartsView;

    closed spec fn view(&self) -> VersionPartsView {
        VersionPartsView {
            major: self.major,
            minor: self.minor,
            revision: self.revision,
            kind: self.kind@,
            dirty: self.dirty,
        }
    }
}

impl View for VersionNumber {
    type V = VersionNumberView;

    open spec fn view(&self) -> VersionNumberView {
        match self {
            VersionNumber::Unknown => VersionNumberView::Unknown,
            VersionNumber::Invalid => VersionNumberView::Invalid,
            VersionNumber::GitHash(h) => VersionNumberView::GitHash(h@),
            VersionNumber::FullVersion(p) => VersionNumberView::FullVersion(p@),
        }
    }
}

/// The text `dirty` that marks a build from a modified tree.
pub open spec fn dirty_text() -> Seq<char> {
    seq!['d', 'i', 'r', 't', 'y']
}

/// Where the field that ends at the first `c` of `s` ends (the whole of `s` if there is no `c`).
pub open spec fn field_end(s: Seq<char>, c: char) -> int {
    match text::spec_find(s, c) {
        Some(i) => i,
        None => s.len() as int,
    }
}

/// What follows the field that ends at the first `c` of `s`, without the `c` itself.
pub open spec fn after_field(s: Seq<char>, c: char) -> Seq<char> {
    let e = field_end(s, c);
    if e == s.len() {
        Seq::empty()
    } else {
        s.subrange(e + 1, s.len() as int)
    }
}

/// Parses the Git part `<commits>-<hash>` of a development version, or finishes a release
/// candidate when nothing is left.
pub open spec fn spec_parse_development(
    candidate: Option<usize>,
    v: Seq<char>,
) -> Result<VersionKindView, VersionPartsError> {
    if v.len() == 0 {
        match candidate {
            Some(rc) => Ok(VersionKindView::ReleaseCandidate(rc)),
            None => Err(VersionPartsError::MalformedGitTag),
        }
    } else {
        match text::spec_find(v, '-') {
            None => Err(VersionPartsError::MalformedGitTag),
            Some(ce) => match text::spec_parse_usize(v.subrange(0, ce)) {
                None => Err(VersionPartsError::MalformedNumber),
                Some(commits) => Ok(
                    VersionKindView::Development(
                        GitVersionView {
                            release_candidate: candidate,
                            commits,
                            hash: v.subrange(ce + 1, v.len() as int),
                        },
                    ),
                ),
            },
        }
    }
}

/// Whether `v` starts with `rc`.
pub open spec fn starts_with_rc(v: Seq<char>) -> bool {
    v.len() >= 2 && v[0] == 'r' && v[1] == 'c'
}

/// Parses what follows the revision number (dirty marker already removed).
pub open spec fn spec_parse_kind(v: Seq<char>) -> Result<VersionKindView, VersionPartsError> {
    if v.len() == 0 {
        Ok(VersionKindView::Release)
    } else if starts_with_rc(v) {
        match text::spec_parse_usize(v.subrange(2, field_end(v, '-'))) {
            None => Err(VersionPartsError::MalformedNumber),
            Some(rc) => spec_parse_development(Some(rc), after_field(v, '-')),
        }
    } else {
        spec_parse_development(None, v)
    }
}

/// Where the text after the last `-` of `v` begins (or 0 if there is no `-`).
pub open spec fn dirty_begin(v: Seq<char>) -> int {
    match text::spec_rfind(v, '-') {
        Some(i) => i + 1,
        None => 0,
    }
}

/// Whether the text after the last `-` of `v` is `dirty`.
pub open spec fn is_dirty(v: Seq<char>) -> bool {
    v.subrange(dirty_begin(v), v.len() as int) == dirty_text()
}

/// `v` with a trailing `-dirty` (or a bare `dirty`) removed.
pub open spec fn strip_dirty(v: Seq<char>) -> Seq<char> {
    if is_dirty(v) {
        let t = v.subrange(0, dirty_begin(v));
        if t.len() > 0 && t.last() == '-' {
            t.drop_last()
        } else {
            t
        }
    } else {
        v
    }
}

/// Parses `major.minor.revision[-rcN][-commits-hash][-dirty]` (without a leading `v`).
pub open spec fn spec_parse_version_parts(v: Seq<char>) -> Result<
    VersionPartsView,
    VersionPartsError,
> {
    let major = text::spec_parse_usize(v.subrange(0, field_end(v, '.')));
    let v1 = after_field(v, '.');
    let minor = text::spec_parse_usize(v1.subrange(0, field_end(v1, '.')));
    let v2 = after_field(v1, '.');
    let revision = text::spec_parse_usize(v2.subrange(0, field_end(v2, '-')));
    let v3 = after_field(v2, '-');
    if major is None || minor is None || revision is None {
        Err(VersionPartsError::MalformedNumber)
    } else {
        match spec_parse_kind(strip_dirty(v3)) {
            Err(e) => Err(e),
            Ok(kind) => Ok(
                VersionPartsView {
                    major: major->0,
                    minor: minor->0,
                    revision: revision->0,
                    kind,
                    dirty: is_dirty(v3),
                },
            ),
        }
    }
}

/// Reads a version as a probe reports it: `g<hash>` is a bare Git hash, `v<parts>` a full
/// version, anything else is invalid.
pub open spec fn spec_version_number(v: Seq<char>) -> VersionNumberView {
    if v.len() > 0 && v[0] == 'g' {
        VersionNumberView::GitHash(v.drop_first())
    } else if v.len() > 0 && v[0] == 'v' {
        match spec_parse_version_parts(v.drop_first()) {
            Ok(p) => VersionNumberView::FullVersion(p),
            Err(_) => VersionNumberView::Invalid,
        }
    } else {
        VersionNumberView::Invalid
    }
}

/// `-rc<n>`.
pub open spec fn rc_text(n: usize) -> Seq<char> {
    seq!['-', 'r', 'c'] + text::decimal_digits(n as nat)
}

/// How a [`GitVersion`] is written: `[-rc<n>]-<commits>-<hash>`.
pub open spec fn git_version_text(g: GitVersionView) -> Seq<char> {
    let base = match g.release_candidate {
        None => Seq::empty(),
        Some(n) => rc_text(n),
    };
    base + seq!['-'] + text::decimal_digits(g.commits as nat) + seq!['-'] + g.hash
}

/// How a [`VersionKind`] is written.
pub open spec fn version_kind_text(k: VersionKindView) -> Seq<char> {
    match k {
        VersionKindView::Release => Seq::empty(),
        VersionKindView::ReleaseCandidate(n) => rc_text(n),
        VersionKindView::Development(g) => git_version_text(g),
    }
}

/// How [`VersionParts`] are written: `major.minor.revision<kind>[-dirty]`.
pub open spec fn version_parts_text(p: VersionPartsView) -> Seq<char> {
    text::decimal_digits(p.major as nat) + seq!['.'] + text::decimal_digits(p.minor as nat) + seq!['.']
        + text::decimal_digits(p.revision as nat) + version_kind_text(p.kind) + (if p.dirty {
        seq!['-'] + dirty_text()
    } else {
        Seq::empty()
    })
}

/// The text `<invalid version>`.
pub open spec fn invalid_version_text() -> Seq<char> {
    seq!['<', 'i', 'n', 'v', 'a', 'l', 'i', 'd', ' ', 'v', 'e', 'r', 's', 'i', 'o', 'n', '>']
}

/// How a [`VersionNumber`] is written.
pub open spec fn version_number_text(v: VersionNumberView) -> Seq<char> {
    match v {
        VersionNumberView::Unknown => Seq::empty(),
        VersionNumberView::Invalid => invalid_version_text(),
        VersionNumberView::GitHash(h) => h,
        VersionNumberView::FullVersion(p) => version_parts_text(p),
    }
}

/// The total order of two numbers.
pub open spec fn usize_order(a: usize, b: usize) -> Option<Ordering> {
    if a < b {
        Some(Ordering::Less)
    } else if a > b {
        Some(Ordering::Greater)
    } else {
        Some(Ordering::Equal)
    }
}

/// How two Git builds are ordered: release candidates come before releases, then fewer commits
/// come first; builds with the same commit count are equal if the hashes match and unordered
/// otherwise.
pub open spec fn git_version_order(a: GitVersionView, b: GitVersionView) -> Option<Ordering> {
    if a.release_candidate is Some && b.release_candidate is Some && a.release_candidate->0
        != b.release_candidate->0 {
        usize_order(a.release_candidate->0, b.release_candidate->0)
    } else if a.release_candidate is Some && b.release_candidate is None {
        Some(Ordering::Less)
    } else if a.release_candidate is None && b.release_candidate is Some {
        Some(Ordering::Greater)
    } else if a.commits < b.commits {
        Some(Ordering::Less)
    } else if a.commits > b.commits {
        Some(Ordering::Greater)
    } else if a.hash == b.hash {
        Some(Ordering::Equal)
    } else {
        None
    }
}

/// How two kinds of build on the same base version are ordered: release candidates, then the
/// release, then development builds.
pub open spec fn version_kind_order(a: VersionKindView, b: VersionKindView) -> Option<Ordering> {
    match a {
        VersionKindView::Release => match b {
            VersionKindView::Release => Some(Ordering::Equal),
            VersionKindView::ReleaseCandidate(_) => Some(Ordering::Greater),
            VersionKindView::Development(_) => Some(Ordering::Less),
        },
        VersionKindView::ReleaseCandidate(l) => match b {
            VersionKindView::Release => Some(Ordering::Less),
            VersionKindView::ReleaseCandidate(r) => usize_order(l, r),
            VersionKindView::Development(_) => Some(Ordering::Less),
        },
        VersionKindView::Development(l) => match b {
            VersionKindView::Development(r) => git_version_order(l, r),
            _ => Some(Ordering::Greater),
        },
    }
}

/// How two full versions are ordered: by major, minor and revision, then by kind, and a dirty
/// build after a clean one.
pub open spec fn version_parts_order(a: VersionPartsView, b: VersionPartsView) -> Option<Ordering> {
    if a.major != b.major {
        usize_order(a.major, b.major)
    } else if a.minor != b.minor {
        usize_order(a.minor, b.minor)
    } else if a.revision != b.revision {
        usize_order(a.revision, b.revision)
    } else if version_kind_order(a.kind, b.kind) == Some(Ordering::Less) {
        Some(Ordering::Less)
    } else if version_kind_order(a.kind, b.kind) == Some(Ordering::Greater) {
        Some(Ordering::Greater)
    } else if a.dirty && !b.dirty {
        Some(Ordering::Greater)
    } else if !a.dirty && b.dirty {
        Some(Ordering::Less)
    } else {
        Some(Ordering::Equal)
    }
}

/// How two reported versions are ordered: full versions by their parts, bare Git hashes only
/// by equality, and unknown or invalid versions not at all.
pub open spec fn version_number_order(a: VersionNumberView, b: VersionNumberView) -> Option<
    Ordering,
> {
    match a {
        VersionNumberView::GitHash(l) => match b {
            VersionNumberView::GitHash(r) => if l == r {
                Some(Ordering::Equal)
            } else {
                None
            },
            _ => None,
        },
        VersionNumberView::FullVersion(l) => match b {
            VersionNumberView::FullVersion(r) => version_parts_order(l, r),
            _ => None,
        },
        _ => None,
    }
}

/// The ordering seen from the other side.
pub open spec fn flipped(o: Option<Ordering>) -> Option<Ordering> {
    match o {
        Some(Ordering::Less) => Some(Ordering::Greater),
        Some(Ordering::Greater) => Some(Ordering::Less),
        other => other,
    }
}

impl GitVersion {
    /// Builds a Git version from its parts.
    pub fn from_parts(release_candidate: Option<usize>, commits: usize, hash: String) -> (r: Self)
        ensures
            r@ == (GitVersionView { release_candidate, commits, hash: hash@ }),
    {
        GitVersion { release_candidate, commits, hash }
    }

    /// Writes the Git version as `[-rc<n>]-<commits>-<hash>`.
    pub fn to_string(&self) -> (r: String)
        ensures
            r@ == git_version_text(self@),
    {
        let mut r = String::new();
        match self.release_candidate {
            None => {},
            Some(n) => {
                string_extend(&mut r, &['-', 'r', 'c']);
                push_decimal(&mut r, n);
            },
        }
        string_push(&mut r, '-');
        push_decimal(&mut r, self.commits);
        string_push(&mut r, '-');
        string_extend_str(&mut r, self.hash.as_str());
        proof {
            let base = match self.release_candidate {
                None => Seq::<char>::empty(),
                Some(n) => rc_text(n),
            };
            assert(r@ =~= base + seq!['-'] + text::decimal_digits(self.commits as nat) + seq!['-']
                + self.hash@);
        }
        r
    }
}

impl VersionKind {
    /// Writes the kind: nothing for a release, `-rc<n>` for a candidate, the Git version for a
    /// development build.
    pub fn to_string(&self) -> (r: String)
        ensures
            r@ == version_kind_text(self@),
    {
        match self {
            VersionKind::Release => String::new(),
            VersionKind::ReleaseCandidate(n) => {
                let mut r = String::new();
                string_extend(&mut r, &['-', 'r', 'c']);
                push_decimal(&mut r, *n);
                assert(r@ =~= rc_text(*n));
                r
            },
            VersionKind::Development(g) => g.to_string(),
        }
    }
}

impl VersionParts {
    /// Builds a full version from its parts.
    pub fn from_parts(major: usize, minor: usize, revision: usize, kind: VersionKind, dirty: bool) -> (r:
        Self)
        ensures
            r@ == (VersionPartsView { major, minor, revision, kind: kind@, dirty }),
    {
        VersionParts { major, minor, revision, kind, dirty }
    }

    /// Reads `major.minor.revision[-rcN][-commits-hash][-dirty]` (the leading `v` already removed).
    pub fn try_from(value: &str) -> (r: Result<Self, VersionPartsError>)
        ensures
            match r {
                Ok(p) => spec_parse_version_parts(value@) == Ok::<VersionPartsView, VersionPartsError>(p@),
                Err(e) => spec_parse_version_parts(value@) == Err::<VersionPartsView, VersionPartsError>(e),
            },
    {
        let cs = chars_of(value);
        parse_version_parts(cs.as_slice())
    }

    /// Writes the version as `major.minor.revision<kind>[-dirty]`.
    pub fn to_string(&self) -> (r: String)
        ensures
            r@ == version_parts_text(self@),
    {
        let mut r = String::new();
        push_decimal(&mut r, self.major);
        string_push(&mut r, '.');
        push_decimal(&mut r, self.minor);
        string_push(&mut r, '.');
        push_decimal(&mut r, self.revision);
        let kind = self.kind.to_string();
        string_extend_str(&mut r, kind.as_str());
        if self.dirty {
            string_extend(&mut r, &['-', 'd', 'i', 'r', 't', 'y']);
        }
        proof {
            let tail = if self.dirty {
                seq!['-'] + dirty_text()
            } else {
                Seq::<char>::empty()
            };
            assert(r@ =~= text::decimal_digits(self.major as nat) + seq!['.'] + text::decimal_digits(
                self.minor as nat,
            ) + seq!['.'] + text::decimal_digits(self.revision as nat) + version_kind_text(self.kind@)
                + tail);
        }
        r
    }
}

/// Splits `s` at its first `c`: the field before it and what follows it.
fn split_field<'a>(s: &'a [char], c: char) -> (r: (&'a [char], &'a [char]))
    ensures
        r.0@ == s@.subrange(0, field_end(s@, c)),
        r.1@ == after_field(s@, c),
        0 <= field_end(s@, c) <= s@.len(),
{
    proof {
        text::lemma_find_some(s@, c);
    }
    match find_char(s, c) {
        Some(i) => {
            assert(i < s.len());
            (&s[0..i], &s[i + 1..s.len()])
        },
        None => {
            assert(s@.subrange(s@.len() as int, s@.len() as int) =~= Seq::<char>::empty());
            (&s[0..s.len()], &s[s.len()..s.len()])
        },
    }
}

/// Parses the Git part of a development version (see [`spec_parse_development`]).
fn parse_development(candidate: Option<usize>, v: &[char]) -> (r: Result<VersionKind, VersionPartsError>)
    ensures
        match r {
            Ok(k) => spec_parse_development(candidate, v@) == Ok::<VersionKindView, VersionPartsError>(k@),
            Err(e) => spec_parse_development(candidate, v@) == Err::<VersionKindView, VersionPartsError>(e),
        },
{
    if v.len() == 0 {
        return match candidate {
            Some(rc) => Ok(VersionKind::ReleaseCandidate(rc)),
            None => Err(VersionPartsError::MalformedGitTag),
        };
    }
    proof {
        text::lemma_find_some(v@, '-');
    }
    match find_char(v, '-') {
        None => Err(VersionPartsError::MalformedGitTag),
        Some(ce) => match parse_usize(&v[0..ce]) {
            None => Err(VersionPartsError::MalformedNumber),
            Some(commits) => {
                let hash = string_from_chars(&v[ce + 1..v.len()]);
                Ok(VersionKind::Development(GitVersion { release_candidate: candidate, commits, hash }))
            },
        },
    }
}

/// Parses what follows the revision number (see [`spec_parse_kind`]).
fn parse_kind(v: &[char]) -> (r: Result<VersionKind, VersionPartsError>)
    ensures
        match r {
            Ok(k) => spec_parse_kind(v@) == Ok::<VersionKindView, VersionPartsError>(k@),
            Err(e) => spec_parse_kind(v@) == Err::<VersionKindView, VersionPartsError>(e),
        },
{
    if v.len() == 0 {
        return Ok(VersionKind::Release);
    }
    if v.len() >= 2 && v[0] == 'r' && v[1] == 'c' {
        let (head, tail) = split_field(v, '-');
        proof {
            text::lemma_find_some(v@, '-');
        }
        assert(head@.len() >= 2);
        match parse_usize(&head[2..head.len()]) {
            None => {
                assert(head@.subrange(2, head@.len() as int) == v@.subrange(2, field_end(v@, '-')));
                Err(VersionPartsError::MalformedNumber)
            },
            Some(rc) => {
                assert(head@.subrange(2, head@.len() as int) == v@.subrange(2, field_end(v@, '-')));
                parse_development(Some(rc), tail)
            },
        }
    } else {
        parse_development(None, v)
    }
}

/// Parses a version without its leading `v` (see [`spec_parse_version_parts`]).
fn parse_version_parts(v: &[char]) -> (r: Result<VersionParts, VersionPartsError>)
    ensures
        match r {
            Ok(p) => spec_parse_version_parts(v@) == Ok::<VersionPartsView, VersionPartsError>(p@),
            Err(e) => spec_parse_version_parts(v@) == Err::<VersionPartsView, VersionPartsError>(e),
        },
{
    let (major_text, v1) = split_field(v, '.');
    let major = parse_usize(major_text);
    let (minor_text, v2) = split_field(v1, '.');
    let minor = parse_usize(minor_text);
    let (revision_text, v3) = split_field(v2, '-');
    let revision = parse_usize(revision_text);
    if major.is_none() || minor.is_none() || revision.is_none() {
        return Err(VersionPartsError::MalformedNumber);
    }
    // Look for the dirty marker after the last `-`
    proof {
        text::lemma_rfind_some(v3@, '-');
    }
    let begin: usize = match rfind_char(v3, '-') {
        Some(i) => {
            assert(i < v3.len());
            i + 1
        },
        None => 0,
    };
    let dirty_marker: [char; 5] = ['d', 'i', 'r', 't', 'y'];
    assert(dirty_marker@ =~= dirty_text());
    let dirty = chars_eq(&v3[begin..v3.len()], &dirty_marker);
    let v4: &[char] = if dirty {
        let t = &v3[0..begin];
        if t.len() > 0 && t[t.len() - 1] == '-' {
            let s = &t[0..t.len() - 1];
            assert(s@ == t@.drop_last());
            s
        } else {
            t
        }
    } else {
        v3
    };
    assert(v4@ == strip_dirty(v3@));
    match parse_kind(v4) {
        Err(e) => Err(e),
        Ok(kind) => {
            let major = match major {
                Some(n) => n,
                None => 0,
            };
            let minor = match minor {
                Some(n) => n,
                None => 0,
            };
            let revision = match revision {
                Some(n) => n,
                None => 0,
            };
            Ok(VersionParts { major, minor, revision, kind, dirty })
        },
    }
}

impl VersionNumber {
    /// Reads a version as a probe reports it: `g<hash>`, `v<parts>`, or anything else (invalid).
    pub fn from(value: &str) -> (r: Self)
        ensures
            r@ == spec_version_number(value@),
    {
        let cs = chars_of(value);
        VersionNumber::from_chars(cs.as_slice())
    }

    /// As [`VersionNumber::from`], for a string held as characters.
    pub fn from_chars(cs: &[char]) -> (r: Self)
        ensures
            r@ == spec_version_number(cs@),
    {
        if cs.len() > 0 && cs[0] == 'g' {
            let hash = string_from_chars(&cs[1..cs.len()]);
            assert(cs@.subrange(1, cs@.len() as int) == cs@.drop_first());
            VersionNumber::GitHash(hash)
        } else if cs.len() > 0 && cs[0] == 'v' {
            assert(cs@.subrange(1, cs@.len() as int) == cs@.drop_first());
            match parse_version_parts(&cs[1..cs.len()]) {
                Ok(p) => VersionNumber::FullVersion(p),
                Err(_) => VersionNumber::Invalid,
            }
        } else {
            VersionNumber::Invalid
        }
    }

    /// Writes the version: nothing if unknown, `<invalid version>`, the bare hash, or the parts.
    pub fn to_string(&self) -> (r: String)
        ensures
            r@ == version_number_text(self@),
    {
        match self {
            VersionNumber::Unknown => String::new(),
            VersionNumber::Invalid => {
                let mut r = String::new();
                string_extend(
                    &mut r,
                    &['<', 'i', 'n', 'v', 'a', 'l', 'i', 'd', ' ', 'v', 'e', 'r', 's', 'i', 'o', 'n', '>'],
                );
                assert(r@ =~= invalid_version_text());
                r
            },
            VersionNumber::GitHash(h) => {
                let mut r = String::new();
                string_extend_str(&mut r, h.as_str());
                assert(r@ =~= h@);
                r
            },
            VersionNumber::FullVersion(p) => p.to_string(),
        }
    }
}

/// Compares two numbers.
fn order_of(a: usize, b: usize) -> (r: Option<Ordering>)
    ensures
        r == usize_order(a, b),
{
    if a < b {
        Some(Ordering::Less)
    } else if a > b {
        Some(Ordering::Greater)
    } else {
        Some(Ordering::Equal)
    }
}

/// The version a release name stands for, as [`VersionNumber::from`] reads it.
pub closed spec fn version_of_name(name: Seq<char>) -> VersionNumberView {
    spec_version_number(name)
}

/// [`version_of_name`] is how [`VersionNumber::from`] reads a name.
pub proof fn lemma_version_of_name(name: Seq<char>)
    ensures
        version_of_name(name) == spec_version_number(name),
{
}

/// Whether version `a` is strictly newer than version `b` (`a > b`).
pub open spec fn newer(a: VersionNumberView, b: VersionNumberView) -> bool {
    version_number_order(a, b) == Some(Ordering::Greater)
}

/// Whether version `a` is strictly newer than version `b` (`a > b`).
pub fn is_newer(a: &VersionNumber, b: &VersionNumber) -> (r: bool)
    ensures
        r == newer(a@, b@),
{
    match a.partial_cmp(b) {
        Some(Ordering::Greater) => true,
        _ => false,
    }
}

impl PartialOrd for GitVersion {
    fn partial_cmp(&self, other: &Self) -> (r: Option<Ordering>) {
        match self.release_candidate {
            Some(lhs_rc) => match other.release_candidate {
                Some(rhs_rc) => {
                    if lhs_rc != rhs_rc {
                        return order_of(lhs_rc, rhs_rc);
                    }
                },
                None => return Some(Ordering::Less),
            },
            None => match other.release_candidate {
                Some(_) => return Some(Ordering::Greater),
                None => {},
            },
        }
        if self.commits < other.commits {
            Some(Ordering::Less)
        } else if self.commits > other.commits {
            Some(Ordering::Greater)
        } else if self.hash == other.hash {
            Some(Ordering::Equal)
        } else {
            None
        }
    }
}

impl PartialOrdSpecImpl for GitVersion {
    open spec fn obeys_partial_cmp_spec() -> bool {
        true
    }

    open spec fn partial_cmp_spec(&self, other: &Self) -> Option<Ordering> {
        git_version_order(self@, other@)
    }
}

impl PartialOrd for VersionKind {
    fn partial_cmp(&self, other: &Self) -> (r: Option<Ordering>) {
        match self {
            VersionKind::Release => match other {
                VersionKind::Release => Some(Ordering::Equal),
                VersionKind::ReleaseCandidate(_) => Some(Ordering::Greater),
                VersionKind::Development(_) => Some(Ordering::Less),
            },
            VersionKind::ReleaseCandidate(lhs) => match other {
                VersionKind::Release => Some(Ordering::Less),
                VersionKind::ReleaseCandidate(rhs) => order_of(*lhs, *rhs),
                VersionKind::Development(_) => Some(Ordering::Less),
            },
            VersionKind::Development(lhs) => match other {
                VersionKind::Development(rhs) => lhs.partial_cmp(rhs),
                _ => Some(Ordering::Greater),
            },
        }
    }
}

impl PartialOrdSpecImpl for VersionKind {
    open spec fn obeys_partial_cmp_spec() -> bool {
        true
    }

    open spec fn partial_cmp_spec(&self, other: &Self) -> Option<Ordering> {
        version_kind_order(self@, other@)
    }
}

impl PartialOrd for VersionParts {
    fn partial_cmp(&self, other: &Self) -> (r: Option<Ordering>) {
        if self.major < other.major {
            return Some(Ordering::Less);
        } else if self.major > other.major {
            return Some(Ordering::Greater);
        }
        if self.minor < other.minor {
            return Some(Ordering::Less);
        } else if self.minor > other.minor {
            return Some(Ordering::Greater);
        }
        if self.revision < other.revision {
            return Some(Ordering::Less);
        } else if self.revision > other.revision {
            return Some(Ordering::Greater);
        }
        // Same base numbers, so the kinds decide
        let kind_order = self.kind.partial_cmp(&other.kind);
        match kind_order {
            Some(Ordering::Less) => return Some(Ordering::Less),
            Some(Ordering::Greater) => return Some(Ordering::Greater),
            _ => {},
        }
        // A dirty build comes after the clean one
        if self.dirty && !other.dirty {
            Some(Ordering::Greater)
        } else if !self.dirty && other.dirty {
            Some(Ordering::Less)
        } else {
            Some(Ordering::Equal)
        }
    }
}

impl PartialOrdSpecImpl for VersionParts {
    open spec fn obeys_partial_cmp_spec() -> bool {
        true
    }

    open spec fn partial_cmp_spec(&self, other: &Self) -> Option<Ordering> {
        version_parts_order(self@, other@)
    }
}

impl PartialOrd for VersionNumber {
    fn partial_cmp(&self, other: &Self) -> (r: Option<Ordering>) {
        match self {
            VersionNumber::Unknown => None,
            VersionNumber::Invalid => None,
            VersionNumber::GitHash(lhs) => match other {
                VersionNumber::GitHash(rhs) => {
                    if *lhs == *rhs {
                        Some(Ordering::Equal)
                    } else {
                        None
                    }
                },
                _ => None,
            },
            VersionNumber::FullVersion(lhs) => match other {
                VersionNumber::FullVersion(rhs) => lhs.partial_cmp(rhs),
                _ => None,
            },
        }
    }
}

impl PartialOrdSpecImpl for VersionNumber {
    open spec fn obeys_partial_cmp_spec() -> bool {
        true
    }

    open spec fn partial_cmp_spec(&self, other: &Self) -> Option<Ordering> {
        version_number_order(self@, other@)
    }
}

} // verus!
