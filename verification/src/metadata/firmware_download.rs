//! A downloadable firmware variant of a release, and the web pages that go with it: its
//! documentation beside the download, and the release page.
use vstd::prelude::*;

use crate::text::{chars_eq, chars_of, string_extend_str, string_from_chars};

verus! {

/// The path of a URL, where `url::Url::parse` accepts it.
pub uninterp spec fn spec_url_path(uri: Seq<char>) -> Option<Seq<char>>;

/// A URL with its path replaced and its query and fragment removed.
pub uninterp spec fn spec_url_with_path(uri: Seq<char>, path: Seq<char>) -> Seq<char>;

/// The extension of a path (`std::path::Path::extension`).
pub uninterp spec fn spec_path_extension(path: Seq<char>) -> Option<Seq<char>>;

/// How `{:?}` renders a path's extension (`Option<&OsStr>`).
pub uninterp spec fn spec_path_extension_debug(path: Seq<char>) -> Seq<char>;

/// A path with its extension replaced (`std::path::PathBuf::set_extension`).
pub uninterp spec fn spec_path_with_extension(path: Seq<char>, extension: Seq<char>) -> Seq<char>;

/// The path made by pushing components in turn (`std::path::PathBuf: FromIterator`).
pub uninterp spec fn spec_path_from_components(parts: Seq<Seq<char>>) -> Seq<char>;

/// Parses a URL with `url::Url::parse` and gives its path (`Url::path`), or `None` where the
/// parser refuses the text. What the parser accepts and the path it finds are named by
/// [`spec_url_path`]; they depend on the text alone.
#[verifier::external_body]
fn url_path(uri: &str) -> (r: Option<String>)
    ensures
        match r {
            Some(p) => spec_url_path(uri@) == Some(p@),
            None => spec_url_path(uri@) is None,
        },
{
    url::Url::parse(uri).ok().map(|u| u.path().to_owned())
}

/// Parses a URL that `url::Url::parse` accepts, sets its path with `Url::set_path`, removes its
/// fragment and query (`set_fragment(None)`, `set_query(None)`), and gives its serialization;
/// the result is named by [`spec_url_with_path`].
#[verifier::external_body]
fn url_with_path(uri: &str, path: &str) -> (r: String)
    requires
        spec_url_path(uri@) is Some,
    ensures
        r@ == spec_url_with_path(uri@, path@),
{
    let mut u = url::Url::parse(uri).expect("the URL was parsed before");
    u.set_path(path);
    u.set_fragment(None);
    u.set_query(None);
    u.to_string()
}

/// `std::path::Path::extension` on a UTF-8 path, whose extension is UTF-8 too. How a path splits
/// into components depends on the target (which characters separate them), so the named result
/// is fixed for each target.
#[verifier::external_body]
fn path_extension(path: &str) -> (r: Option<String>)
    ensures
        match r {
            Some(e) => spec_path_extension(path@) == Some(e@),
            None => spec_path_extension(path@) is None,
        },
{
    std::path::Path::new(path).extension().map(|e| e.to_string_lossy().into_owned())
}

/// `{:?}` of `std::path::Path::extension` (an `Option<&OsStr>`); like the extension itself, the
/// named result is fixed for each target.
#[verifier::external_body]
fn path_extension_debug(path: &str) -> (r: String)
    ensures
        r@ == spec_path_extension_debug(path@),
{
    format!("{:?}", std::path::Path::new(path).extension())
}

/// `std::path::PathBuf::set_extension` on a UTF-8 path with a UTF-8 extension, whose result is
/// UTF-8 too; the named result is fixed for each target. `set_extension` panics where the
/// extension holds a path separator, so the extension holds neither `/` nor `\\`.
#[verifier::external_body]
fn path_with_extension(path: &str, extension: &str) -> (r: String)
    requires
        !extension@.contains('/'),
        !extension@.contains('\\'),
    ensures
        r@ == spec_path_with_extension(path@, extension@),
{
    let mut p = std::path::PathBuf::from(path);
    p.set_extension(extension);
    p.to_string_lossy().into_owned()
}

/// Collects UTF-8 components into a `std::path::PathBuf`, whose text is UTF-8 too. The separator
/// put between components depends on the target, so the named result is fixed for each target.
#[verifier::external_body]
fn path_from_components(parts: &[String]) -> (r: String)
    ensures
        r@ == spec_path_from_components(crate::text::strings_view(parts@)),
{
    parts.iter().collect::<std::path::PathBuf>().to_string_lossy().into_owned()
}

/// A downloadable firmware variant: its name for people, its file name, and where to get it.
pub struct FirmwareDownload {
    friendly_name: String,
    file_name: String,
    uri: String,
}

/// Mathematical model of a [`FirmwareDownload`].
pub struct FirmwareDownloadView {
    pub friendly_name: Seq<char>,
    pub file_name: Seq<char>,
    pub uri: Seq<char>,
}

impl FirmwareDownload {
    /// A download's URL always parses.
    #[verifier::type_invariant]
    spec fn uri_ok(self) -> bool {
        download_uri_ok(self.uri@)
    }
}

impl View for FirmwareDownload {
    type V = FirmwareDownloadView;

    closed spec fn view(&self) -> FirmwareDownloadView {
        FirmwareDownloadView { friendly_name: self.friendly_name@, file_name: self.file_name@, uri: self.uri@ }
    }
}

/// The path segments of a URL path, as `url::Url::path_segments` gives them: the pieces between
/// `/`s of a path that starts with `/`; none otherwise (a URL that cannot be a base).
pub open spec fn spec_path_segments(path: Seq<char>) -> Option<Seq<Seq<char>>> {
    if path.len() > 0 && path[0] == '/' {
        Some(crate::text::split_on(path.drop_first(), '/'))
    } else {
        None
    }
}

/// Whether a URL can serve as a firmware download: it parses.
pub open spec fn download_uri_ok(uri: Seq<char>) -> bool {
    spec_url_path(uri) is Some
}

/// Whether a download URL has path segments (a URL that cannot be a base has none), as the
/// release page is built from them.
pub open spec fn has_path_segments(uri: Seq<char>) -> bool {
    spec_url_path(uri) matches Some(p) && spec_path_segments(p) is Some
}

/// The position of the first segment equal to `release`.
pub open spec fn is_first_segment(segs: Seq<Seq<char>>, release: Seq<char>, i: int) -> bool {
    &&& 0 <= i < segs.len()
    &&& segs[i] == release
    &&& forall|j: int| 0 <= j < i ==> segs[j] != release
}

/// The release page of a download: the download URL's segments before the `download` segment
/// that precedes the release segment, then `tag` and the release.
pub open spec fn spec_release_uri(uri: Seq<char>, release: Seq<char>) -> Result<Seq<char>, Seq<char>> {
    let segs = spec_path_segments(spec_url_path(uri)->0)->0;
    if !(exists|i: int| is_first_segment(segs, release, i)) {
        Err("The provided uri doesn't contain the release segment '"@ + release + "'"@)
    } else {
        let p = choose|i: int| is_first_segment(segs, release, i);
        if p == 0 {
            Err("The release segment '"@ + release + "' can't be the first one"@)
        } else {
            let parts = segs.subrange(0, p - 1) + seq!["tag"@, release];
            Ok(spec_url_with_path(uri, spec_path_from_components(parts)))
        }
    }
}

/// The documentation of a download: the download URL with its `.elf` path ending in `.md`.
pub open spec fn spec_documentation_url(uri: Seq<char>) -> Result<Seq<char>, Seq<char>> {
    let path = spec_url_path(uri)->0;
    if spec_path_extension(path) == Some("elf"@) {
        Ok(spec_url_with_path(uri, spec_path_with_extension(path, "md"@)))
    } else {
        Err("Path extension is not of '\"elf\"', got '"@ + spec_path_extension_debug(path) + "'"@)
    }
}

/// The path segments of a URL path (see [`spec_path_segments`]).
fn path_segments(path: &str) -> (r: Option<Vec<String>>)
    ensures
        match r {
            Some(v) => spec_path_segments(path@) == Some(crate::text::strings_view(v@)),
            None => spec_path_segments(path@) is None,
        },
{
    let cs = chars_of(path);
    if cs.len() > 0 && cs[0] == '/' {
        assert(cs@.subrange(1, cs@.len() as int) =~= path@.drop_first());
        Some(crate::text::split_chars(&cs.as_slice()[1..cs.len()], '/'))
    } else {
        None
    }
}

impl FirmwareDownload {
    /// A download, where its URL parses.
    pub fn new(friendly_name: String, file_name: String, uri: String) -> (r: Option<Self>)
        ensures
            match r {
                Some(d) => d@ == (FirmwareDownloadView {
                    friendly_name: friendly_name@,
                    file_name: file_name@,
                    uri: uri@,
                }) && download_uri_ok(uri@),
                None => !download_uri_ok(uri@),
            },
    {
        match url_path(uri.as_str()) {
            None => None,
            Some(_) => Some(FirmwareDownload { friendly_name, file_name, uri }),
        }
    }

    /// The name of this variant for people.
    pub fn friendly_name(&self) -> (r: &str)
        ensures
            r@ == self@.friendly_name,
    {
        self.friendly_name.as_str()
    }

    /// The file name of this variant.
    pub fn file_name(&self) -> (r: &str)
        ensures
            r@ == self@.file_name,
    {
        self.file_name.as_str()
    }

    /// Where to download this variant.
    pub fn uri(&self) -> (r: &str)
        ensures
            r@ == self@.uri,
    {
        self.uri.as_str()
    }

    /// A second download equal to this one.
    pub fn duplicate(&self) -> (r: Self)
        ensures
            r@ == self@,
    {
        proof {
            use_type_invariant(self);
        }
        FirmwareDownload {
            friendly_name: self.friendly_name.clone(),
            file_name: self.file_name.clone(),
            uri: self.uri.clone(),
        }
    }

    /// The URL of this variant's documentation (see [`spec_documentation_url`]).
    pub fn build_documentation_url(&self) -> (r: Result<String, String>)
        ensures
            match r {
                Ok(u) => spec_documentation_url(self@.uri) == Ok::<Seq<char>, Seq<char>>(u@),
                Err(m) => spec_documentation_url(self@.uri) == Err::<Seq<char>, Seq<char>>(m@),
            },
    {
        proof {
            use_type_invariant(self);
        }
        let path = match url_path(self.uri.as_str()) {
            Some(p) => p,
            None => {
                assert(false);
                String::new()
            },
        };
        match path_extension(path.as_str()) {
            Some(e) => {
                let ec = chars_of(e.as_str());
                let elf = chars_of("elf");
                if chars_eq(ec.as_slice(), elf.as_slice()) {
                    proof {
                        reveal_strlit("md");
                    }
                    let docs_path = path_with_extension(path.as_str(), "md");
                    return Ok(url_with_path(self.uri.as_str(), docs_path.as_str()));
                }
            },
            None => {},
        }
        let mut m = "Path extension is not of '\"elf\"', got '".to_owned();
        let d = path_extension_debug(path.as_str());
        string_extend_str(&mut m, d.as_str());
        string_extend_str(&mut m, "'");
        Err(m)
    }

    /// The URL of the release page this variant belongs to (see [`spec_release_uri`]); the
    /// download URL must have path segments.
    pub fn build_release_uri(&self, release: &str) -> (r: Result<String, String>)
        requires
            has_path_segments(self@.uri),
        ensures
            match r {
                Ok(u) => spec_release_uri(self@.uri, release@) == Ok::<Seq<char>, Seq<char>>(u@),
                Err(m) => spec_release_uri(self@.uri, release@) == Err::<Seq<char>, Seq<char>>(m@),
            },
    {
        proof {
            use_type_invariant(self);
        }
        let path = match url_path(self.uri.as_str()) {
            Some(p) => p,
            None => {
                assert(false);
                String::new()
            },
        };
        let segs = match path_segments(path.as_str()) {
            Some(s) => s,
            None => {
                assert(false);
                Vec::new()
            },
        };
        let ghost sv = crate::text::strings_view(segs@);
        assert(spec_path_segments(spec_url_path(self@.uri)->0)->0 == sv);
        let rel = chars_of(release);
        let mut i: usize = 0;
        let mut found = false;
        while i < segs.len() && !found
            invariant
                i <= segs@.len(),
                sv == crate::text::strings_view(segs@),
                sv.len() == segs@.len(),
                rel@ == release@,
                found ==> i < segs@.len() && sv[i as int] == release@,
                forall|j: int| 0 <= j < i ==> sv[j] != release@,
            decreases segs@.len() - i, if found { 0int } else { 1int },
        {
            let sc = chars_of(segs[i].as_str());
            assert(sv[i as int] == segs@[i as int]@);
            if chars_eq(sc.as_slice(), rel.as_slice()) {
                found = true;
            } else {
                i = i + 1;
            }
        }
        if !found {
            assert(!exists|k: int| is_first_segment(sv, release@, k));
            let mut m = "The provided uri doesn't contain the release segment '".to_owned();
            string_extend_str(&mut m, release);
            string_extend_str(&mut m, "'");
            return Err(m);
        }
        proof {
            assert(is_first_segment(sv, release@, i as int));
            let p = choose|k: int| is_first_segment(sv, release@, k);
            if p < i {
                assert(sv[p] != release@);
            }
            if i < p {
                assert(sv[i as int] != release@);
            }
            assert(p == i);
        }
        if i == 0 {
            let mut m = "The release segment '".to_owned();
            string_extend_str(&mut m, release);
            string_extend_str(&mut m, "' can't be the first one");
            return Err(m);
        }
        let download_position = i - 1;
        let mut parts: Vec<String> = Vec::new();
        let mut k: usize = 0;
        while k < download_position
            invariant
                k <= download_position,
                download_position < segs@.len(),
                sv == crate::text::strings_view(segs@),
                sv.len() == segs@.len(),
                crate::text::strings_view(parts@) == sv.subrange(0, k as int),
            decreases download_position - k,
        {
            let seg = segs[k].clone();
            assert(seg@ == sv[k as int]);
            let ghost old_parts = parts@;
            let ghost sg = seg@;
            parts.push(seg);
            assert(crate::text::strings_view(parts@) =~= crate::text::strings_view(old_parts).push(sg));
            assert(crate::text::strings_view(parts@) =~= sv.subrange(0, k + 1));
            k = k + 1;
        }
        let ghost before = parts@;
        parts.push("tag".to_owned());
        let ghost mid = parts@;
        assert(crate::text::strings_view(mid) =~= crate::text::strings_view(before).push("tag"@));
        parts.push(release.to_owned());
        assert(crate::text::strings_view(parts@) =~= crate::text::strings_view(mid).push(release@));
        assert(crate::text::strings_view(parts@) =~= sv.subrange(0, i - 1) + seq!["tag"@, release@]);
        let new_path = path_from_components(parts.as_slice());
        Ok(url_with_path(self.uri.as_str(), new_path.as_str()))
    }

    /// The URL of the release page this variant belongs to, where the download URL has path
    /// segments (see [`FirmwareDownload::build_release_uri`]); `None` where it has none.
    pub fn try_build_release_uri(&self, release: &str) -> (r: Option<Result<String, String>>)
        ensures
            match r {
                Some(Ok(u)) => has_path_segments(self@.uri) && spec_release_uri(self@.uri, release@) == Ok::<
                    Seq<char>,
                    Seq<char>,
                >(u@),
                Some(Err(m)) => has_path_segments(self@.uri) && spec_release_uri(self@.uri, release@) == Err::<
                    Seq<char>,
                    Seq<char>,
                >(m@),
                None => !has_path_segments(self@.uri),
            },
    {
        proof {
            use_type_invariant(self);
        }
        let path = match url_path(self.uri.as_str()) {
            Some(p) => p,
            None => {
                assert(false);
                String::new()
            },
        };
        match path_segments(path.as_str()) {
            None => None,
            Some(_) => Some(self.build_release_uri(release)),
        }
    }
}

} // verus!
