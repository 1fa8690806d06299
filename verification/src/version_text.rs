//! The written form of a version reads back as the version.
use vstd::prelude::*;

use crate::text;
use crate::version;
use crate::version::{GitVersionView, VersionKindView, VersionPartsView};

verus! {

/// No decimal rendering holds a character that is not a digit.
proof fn lemma_digits_lack(n: nat, c: char)
    requires
        !text::is_digit(c),
    ensures
        forall|i: int| 0 <= i < text::decimal_digits(n).len() ==> text::decimal_digits(n)[i] != c,
        text::decimal_digits(n).len() >= 1,
        text::decimal_digits(n)[0] != 'r',
{
    text::lemma_decimal_digits_value(n);
    assert forall|i: int| 0 <= i < text::decimal_digits(n).len() implies text::decimal_digits(n)[i] != c by {
        assert(text::is_digit(text::decimal_digits(n)[i]));
    }
}

/// The first `c` of `a + [c] + b`, where `a` holds none, ends the field `a`, and what follows is `b`.
proof fn lemma_field_before(a: Seq<char>, c: char, b: Seq<char>)
    requires
        forall|i: int| 0 <= i < a.len() ==> a[i] != c,
    ensures
        text::spec_find(a + seq![c] + b, c) == Some(a.len() as int),
        version::field_end(a + seq![c] + b, c) == a.len(),
        version::after_field(a + seq![c] + b, c) == b,
        (a + seq![c] + b).subrange(0, a.len() as int) == a,
{
    let s = a + seq![c] + b;
    assert(text::is_first_index(s, c, a.len() as int)) by {
        assert forall|j: int| 0 <= j < a.len() implies s[j] != c by {
            assert(s[j] == a[j]);
        }
    }
    text::lemma_find_is(s, c, a.len() as int);
    assert(s.subrange(a.len() as int + 1, s.len() as int) =~= b);
    assert(s.subrange(0, a.len() as int) =~= a);
}

/// A field with no `c` runs to the end, and nothing follows it.
proof fn lemma_field_whole(a: Seq<char>, c: char)
    requires
        forall|i: int| 0 <= i < a.len() ==> a[i] != c,
    ensures
        version::field_end(a, c) == a.len(),
        version::after_field(a, c) == Seq::<char>::empty(),
        a.subrange(0, a.len() as int) == a,
{
    text::lemma_find_none(a, c);
    assert(a.subrange(0, a.len() as int) =~= a);
}

/// Where the last `c` is in a text that ends with a part holding a `c`: in that part.
proof fn lemma_rfind_in_tail(a: Seq<char>, t: Seq<char>, c: char)
    requires
        text::spec_rfind(t, c) is Some,
    ensures
        text::spec_rfind(a + t, c) == Some(a.len() + text::spec_rfind(t, c)->0),
{
    text::lemma_rfind_some(t, c);
    let i = text::spec_rfind(t, c)->0;
    let s = a + t;
    assert(text::is_last_index(s, c, a.len() + i)) by {
        assert forall|j: int| a.len() + i < j < s.len() implies s[j] != c by {
            assert(s[j] == t[j - a.len()]);
        }
    }
    text::lemma_rfind_is(s, c, a.len() + i);
}

/// A trailing `-dirty` marks the text as dirty, and stripping it leaves what came before.
proof fn lemma_dirty_suffix(a: Seq<char>)
    ensures
        version::is_dirty(a + seq!['-'] + version::dirty_text()),
        version::strip_dirty(a + seq!['-'] + version::dirty_text()) == a,
{
    let d = version::dirty_text();
    let t = seq!['-'] + d;
    let s = a + t;
    assert(a + seq!['-'] + d =~= s);
    assert(text::is_last_index(t, '-', 0)) by {
        assert forall|j: int| 0 < j < t.len() implies t[j] != '-' by {
            assert(t[j] == d[j - 1]);
        }
    }
    text::lemma_rfind_is(t, '-', 0);
    lemma_rfind_in_tail(a, t, '-');
    assert(version::dirty_begin(s) == a.len() + 1);
    assert(s.subrange(a.len() as int + 1, s.len() as int) =~= d);
    let p = s.subrange(0, a.len() as int + 1);
    assert(p.drop_last() =~= a);
}

/// A text with no `-` that is not `dirty` is not dirty, and stripping leaves it as it is.
proof fn lemma_clean_no_dash(a: Seq<char>)
    requires
        forall|i: int| 0 <= i < a.len() ==> a[i] != '-',
        a != version::dirty_text(),
    ensures
        !version::is_dirty(a),
        version::strip_dirty(a) == a,
{
    text::lemma_rfind_some(a, '-');
    if text::spec_rfind(a, '-') is Some {
        let i = text::spec_rfind(a, '-')->0;
        assert(a[i] == '-');
    }
    assert(version::dirty_begin(a) == 0);
    assert(a.subrange(0, a.len() as int) =~= a);
}

/// A text ending in a part that holds a `-` is dirty just when that part is.
proof fn lemma_dirty_in_tail(a: Seq<char>, t: Seq<char>)
    requires
        t.len() > 0,
        t[0] == '-',
    ensures
        version::is_dirty(a + t) == version::is_dirty(t),
        !version::is_dirty(t) ==> version::strip_dirty(a + t) == a + t,
{
    text::lemma_rfind_some(t, '-');
    if text::spec_rfind(t, '-') is None {
        assert(t[0] != '-');
    }
    lemma_rfind_in_tail(a, t, '-');
    let s = a + t;
    let b = version::dirty_begin(t);
    assert(version::dirty_begin(s) == a.len() + b);
    assert(s.subrange(a.len() + b, s.len() as int) =~= t.subrange(b, t.len() as int));
}

/// A release with its dirty marker reads back as a release.
proof fn lemma_release_reads_back(dirty: bool, tail: Seq<char>)
    requires
        tail == (if dirty {
            version::dirty_text()
        } else {
            Seq::<char>::empty()
        }),
    ensures
        version::is_dirty(tail) == dirty,
        version::spec_parse_kind(version::strip_dirty(tail)) == Ok::<VersionKindView, version::VersionPartsError>(
            VersionKindView::Release,
        ),
{
    let d = version::dirty_text();
    if dirty {
        text::lemma_rfind_some(d, '-');
        if text::spec_rfind(d, '-') is Some {
            let i = text::spec_rfind(d, '-')->0;
            assert(d[i] == '-');
        }
        assert(d.subrange(0, d.len() as int) =~= d);
        assert(d.subrange(0, 0) =~= Seq::<char>::empty());
        assert(version::strip_dirty(tail) =~= Seq::<char>::empty());
    } else {
        lemma_clean_no_dash(tail);
    }
}

/// A release candidate with its dirty marker reads back as the candidate.
#[verifier::rlimit(30)]
proof fn lemma_candidate_reads_back(n: usize, dirty: bool, tail: Seq<char>)
    requires
        tail == seq!['r', 'c'] + text::decimal_digits(n as nat) + (if dirty {
            seq!['-'] + version::dirty_text()
        } else {
            Seq::<char>::empty()
        }),
    ensures
        version::is_dirty(tail) == dirty,
        version::spec_parse_kind(version::strip_dirty(tail)) == Ok::<VersionKindView, version::VersionPartsError>(
            VersionKindView::ReleaseCandidate(n),
        ),
{
    let d = version::dirty_text();
    let dn = text::decimal_digits(n as nat);
    let body = seq!['r', 'c'] + dn;
    lemma_digits_lack(n as nat, '-');
    text::lemma_parse_decimal_digits(n);
    assert forall|i: int| 0 <= i < body.len() implies body[i] != '-' by {
        if i >= 2 {
            assert(body[i] == dn[i - 2]);
        }
    }
    if dirty {
        assert(tail =~= body + seq!['-'] + d);
        lemma_dirty_suffix(body);
    } else {
        assert(tail =~= body);
        assert(body != d) by {
            assert(body[0] == 'r');
        }
        lemma_clean_no_dash(body);
    }
    assert(version::strip_dirty(tail) == body);
    lemma_field_whole(body, '-');
    assert(body.subrange(2, body.len() as int) =~= dn);
    assert(version::starts_with_rc(body));
}

/// The Git part `<commits>-<hash>` reads back, for any candidate number.
proof fn lemma_git_part_reads_back(candidate: Option<usize>, commits: usize, hash: Seq<char>)
    ensures
        version::spec_parse_development(candidate, text::decimal_digits(commits as nat) + seq!['-'] + hash)
            == Ok::<VersionKindView, version::VersionPartsError>(
            VersionKindView::Development(GitVersionView { release_candidate: candidate, commits, hash }),
        ),
{
    let dc = text::decimal_digits(commits as nat);
    lemma_digits_lack(commits as nat, '-');
    text::lemma_parse_decimal_digits(commits);
    lemma_field_before(dc, '-', hash);
    let dev = dc + seq!['-'] + hash;
    assert(dev.subrange(dc.len() as int + 1, dev.len() as int) =~= hash);
}

/// The text of a development build after its first `-`, in two parts: all before the `-` that
/// starts its hash, and that `-` with the hash.
#[verifier::rlimit(40)]
proof fn lemma_development_body(g: GitVersionView)
    ensures
        version::git_version_text(g).len() > 0,
        version::git_version_text(g)[0] == '-',
        version::spec_parse_kind(version::git_version_text(g).drop_first()) == Ok::<
            VersionKindView,
            version::VersionPartsError,
        >(VersionKindView::Development(g)),
{
    let dc = text::decimal_digits(g.commits as nat);
    lemma_digits_lack(g.commits as nat, '-');
    let dev = dc + seq!['-'] + g.hash;
    lemma_git_part_reads_back(g.release_candidate, g.commits, g.hash);
    let body = version::git_version_text(g).drop_first();
    match g.release_candidate {
        None => {
            assert(version::git_version_text(g) =~= seq!['-'] + dev);
            assert(body =~= dev);
            assert(!version::starts_with_rc(body)) by {
                assert(body[0] == dc[0]);
            }
        },
        Some(n) => {
            let dn = text::decimal_digits(n as nat);
            lemma_digits_lack(n as nat, '-');
            text::lemma_parse_decimal_digits(n);
            let rc = seq!['r', 'c'] + dn;
            assert(version::git_version_text(g) =~= seq!['-'] + (rc + seq!['-'] + dev));
            assert(body =~= rc + seq!['-'] + dev);
            assert forall|i: int| 0 <= i < rc.len() implies rc[i] != '-' by {
                if i >= 2 {
                    assert(rc[i] == dn[i - 2]);
                }
            }
            lemma_field_before(rc, '-', dev);
            assert(body.subrange(2, rc.len() as int) =~= dn);
            assert(version::starts_with_rc(body));
        },
    }
}

/// The text of a development build ends in `-` and its hash.
proof fn lemma_development_ends_in_hash(g: GitVersionView)
    ensures
        ({
            let body = version::git_version_text(g).drop_first();
            let h = seq!['-'] + g.hash;
            body.len() >= h.len() && body == body.subrange(0, body.len() - h.len()) + h
        }),
{
    let body = version::git_version_text(g).drop_first();
    let h = seq!['-'] + g.hash;
    let dc = text::decimal_digits(g.commits as nat);
    match g.release_candidate {
        None => {
            assert(body =~= dc + h);
        },
        Some(n) => {
            assert(body =~= (seq!['r', 'c'] + text::decimal_digits(n as nat) + seq!['-'] + dc) + h);
        },
    }
    assert(body =~= body.subrange(0, body.len() - h.len()) + h);
}

/// A development build with its dirty marker reads back as the build, provided its hash does
/// not end in a `dirty` part.
proof fn lemma_development_reads_back(g: GitVersionView, dirty: bool, tail: Seq<char>)
    requires
        tail == version::git_version_text(g).drop_first() + (if dirty {
            seq!['-'] + version::dirty_text()
        } else {
            Seq::<char>::empty()
        }),
        !version::is_dirty(seq!['-'] + g.hash),
    ensures
        version::is_dirty(tail) == dirty,
        version::spec_parse_kind(version::strip_dirty(tail)) == Ok::<VersionKindView, version::VersionPartsError>(
            VersionKindView::Development(g),
        ),
{
    let body = version::git_version_text(g).drop_first();
    let h = seq!['-'] + g.hash;
    lemma_development_body(g);
    lemma_development_ends_in_hash(g);
    let front = body.subrange(0, body.len() - h.len());
    if dirty {
        assert(tail =~= body + seq!['-'] + version::dirty_text());
        lemma_dirty_suffix(body);
    } else {
        assert(tail =~= body);
        lemma_dirty_in_tail(front, h);
    }
}

/// What follows the `-` that ends the revision: the kind's text after its own `-`, then the
/// dirty marker.
pub open spec fn kind_tail(k: VersionKindView, dirty: bool) -> Seq<char> {
    (match k {
        VersionKindView::Release => Seq::<char>::empty(),
        VersionKindView::ReleaseCandidate(n) => seq!['r', 'c'] + text::decimal_digits(n as nat),
        VersionKindView::Development(g) => version::git_version_text(g).drop_first(),
    }) + (if dirty {
        if k is Release {
            version::dirty_text()
        } else {
            seq!['-'] + version::dirty_text()
        }
    } else {
        Seq::<char>::empty()
    })
}

/// The kind and dirty marker read back from what follows the revision.
proof fn lemma_kind_tail_reads_back(k: VersionKindView, dirty: bool)
    requires
        k matches VersionKindView::Development(g) ==> !version::is_dirty(seq!['-'] + g.hash),
    ensures
        version::is_dirty(kind_tail(k, dirty)) == dirty,
        version::spec_parse_kind(version::strip_dirty(kind_tail(k, dirty))) == Ok::<
            VersionKindView,
            version::VersionPartsError,
        >(k),
{
    let t = kind_tail(k, dirty);
    match k {
        VersionKindView::Release => {
            if dirty {
                assert(t =~= version::dirty_text());
            } else {
                assert(t =~= Seq::<char>::empty());
            }
            lemma_release_reads_back(dirty, t);
        },
        VersionKindView::ReleaseCandidate(n) => {
            lemma_candidate_reads_back(n, dirty, t);
        },
        VersionKindView::Development(g) => {
            lemma_development_reads_back(g, dirty, t);
        },
    }
}

/// What follows the revision in the written form: nothing, or a `-` and the kind's tail.
proof fn lemma_rest_layout(k: VersionKindView, dirty: bool)
    ensures
        version::version_kind_text(k) + (if dirty {
            seq!['-'] + version::dirty_text()
        } else {
            Seq::<char>::empty()
        }) == (if kind_tail(k, dirty).len() == 0 {
            Seq::<char>::empty()
        } else {
            seq!['-'] + kind_tail(k, dirty)
        }),
{
    let t = kind_tail(k, dirty);
    let dt = if dirty {
        seq!['-'] + version::dirty_text()
    } else {
        Seq::<char>::empty()
    };
    match k {
        VersionKindView::Release => {
            if dirty {
                assert(t =~= version::dirty_text());
                assert(version::version_kind_text(k) + dt =~= seq!['-'] + t);
            } else {
                assert(t =~= Seq::<char>::empty());
                assert(version::version_kind_text(k) + dt =~= Seq::<char>::empty());
            }
        },
        VersionKindView::ReleaseCandidate(n) => {
            assert(version::version_kind_text(k) + dt =~= seq!['-'] + t);
        },
        VersionKindView::Development(g) => {
            lemma_development_body(g);
            let gt = version::git_version_text(g);
            assert(gt =~= seq!['-'] + gt.drop_first());
            assert(version::version_kind_text(k) + dt =~= seq!['-'] + t);
        },
    }
}

/// How the written form of a version is laid out: the three numbers between `.`s, then, where
/// anything follows, a `-` and the kind and dirty marker.
proof fn lemma_text_layout(p: VersionPartsView)
    ensures
        version::version_parts_text(p) == text::decimal_digits(p.major as nat) + seq!['.'] + (text::decimal_digits(
            p.minor as nat,
        ) + seq!['.'] + (text::decimal_digits(p.revision as nat) + (if kind_tail(p.kind, p.dirty).len() == 0 {
            Seq::<char>::empty()
        } else {
            seq!['-'] + kind_tail(p.kind, p.dirty)
        }))),
{
    lemma_rest_layout(p.kind, p.dirty);
    let rest = version::version_kind_text(p.kind) + (if p.dirty {
        seq!['-'] + version::dirty_text()
    } else {
        Seq::<char>::empty()
    });
    assert(version::version_parts_text(p) =~= text::decimal_digits(p.major as nat) + seq!['.'] + (
    text::decimal_digits(p.minor as nat) + seq!['.'] + (text::decimal_digits(p.revision as nat) + rest)));
}

/// The written form of a version reads back as the version, provided a development build's
/// hash does not itself end in a `dirty` part.
#[verifier::rlimit(40)]
pub proof fn law_version_parts_text_reads_back(p: VersionPartsView)
    requires
        p.kind matches VersionKindView::Development(g) ==> !version::is_dirty(seq!['-'] + g.hash),
    ensures
        version::spec_parse_version_parts(version::version_parts_text(p)) == Ok::<
            VersionPartsView,
            version::VersionPartsError,
        >(p),
{
    let d_major = text::decimal_digits(p.major as nat);
    let d_minor = text::decimal_digits(p.minor as nat);
    let d_rev = text::decimal_digits(p.revision as nat);
    lemma_digits_lack(p.major as nat, '.');
    lemma_digits_lack(p.minor as nat, '.');
    lemma_digits_lack(p.revision as nat, '-');
    text::lemma_parse_decimal_digits(p.major);
    text::lemma_parse_decimal_digits(p.minor);
    text::lemma_parse_decimal_digits(p.revision);
    let t = kind_tail(p.kind, p.dirty);
    let rest = if t.len() == 0 {
        Seq::<char>::empty()
    } else {
        seq!['-'] + t
    };
    let v2 = d_rev + rest;
    let v1 = d_minor + seq!['.'] + v2;
    lemma_text_layout(p);
    lemma_field_before(d_major, '.', v1);
    lemma_field_before(d_minor, '.', v2);
    if t.len() == 0 {
        assert(v2 =~= d_rev);
        lemma_field_whole(d_rev, '-');
    } else {
        assert(v2 =~= d_rev + seq!['-'] + t);
        lemma_field_before(d_rev, '-', t);
    }
    lemma_kind_tail_reads_back(p.kind, p.dirty);
}

} // verus!
