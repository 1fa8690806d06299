//! The partial order on firmware versions, and the laws it keeps.
use core::cmp::Ordering;

use vstd::prelude::*;

use crate::version;
use crate::version::{GitVersionView, VersionKindView, VersionNumberView, VersionPartsView};

verus! {

/// Comparing two Git builds the other way round gives the opposite answer.
pub proof fn law_git_version_order_flips(a: GitVersionView, b: GitVersionView)
    ensures
        version::git_version_order(a, b) == version::flipped(version::git_version_order(b, a)),
{
}

/// Comparing two kinds of build the other way round gives the opposite answer.
pub proof fn law_version_kind_order_flips(a: VersionKindView, b: VersionKindView)
    ensures
        version::version_kind_order(a, b) == version::flipped(version::version_kind_order(b, a)),
{
    match (a, b) {
        (VersionKindView::Development(l), VersionKindView::Development(r)) => {
            law_git_version_order_flips(l, r);
        },
        _ => {},
    }
}

/// Comparing two full versions the other way round gives the opposite answer.
pub proof fn law_version_parts_order_flips(a: VersionPartsView, b: VersionPartsView)
    ensures
        version::version_parts_order(a, b) == version::flipped(version::version_parts_order(b, a)),
{
    law_version_kind_order_flips(a.kind, b.kind);
}

/// Comparing two reported versions the other way round gives the opposite answer.
pub proof fn law_version_number_order_flips(a: VersionNumberView, b: VersionNumberView)
    ensures
        version::version_number_order(a, b) == version::flipped(version::version_number_order(b, a)),
{
    match (a, b) {
        (VersionNumberView::FullVersion(l), VersionNumberView::FullVersion(r)) => {
            law_version_parts_order_flips(l, r);
        },
        _ => {},
    }
}

/// Every full version equals itself.
pub proof fn law_version_parts_order_reflexive(a: VersionPartsView)
    ensures
        version::version_parts_order(a, a) == Some(Ordering::Equal),
{
}

/// Every full version and every bare Git hash equals itself; unknown and invalid versions
/// are not even equal to themselves.
pub proof fn law_version_number_order_reflexive(a: VersionNumberView)
    ensures
        version::version_number_order(a, a) == (match a {
            VersionNumberView::GitHash(_) | VersionNumberView::FullVersion(_) => Some(Ordering::Equal),
            _ => None::<Ordering>,
        }),
{
}

/// Being an earlier Git build is transitive.
pub proof fn law_git_version_less_transitive(a: GitVersionView, b: GitVersionView, c: GitVersionView)
    requires
        version::git_version_order(a, b) == Some(Ordering::Less),
        version::git_version_order(b, c) == Some(Ordering::Less),
    ensures
        version::git_version_order(a, c) == Some(Ordering::Less),
{
}

/// Being an earlier kind of build is transitive.
pub proof fn law_version_kind_less_transitive(a: VersionKindView, b: VersionKindView, c: VersionKindView)
    requires
        version::version_kind_order(a, b) == Some(Ordering::Less),
        version::version_kind_order(b, c) == Some(Ordering::Less),
    ensures
        version::version_kind_order(a, c) == Some(Ordering::Less),
{
    match (a, b, c) {
        (
            VersionKindView::Development(x),
            VersionKindView::Development(y),
            VersionKindView::Development(z),
        ) => {
            law_git_version_less_transitive(x, y, z);
        },
        _ => {},
    }
}

/// Two kinds that neither precede nor follow one another sit at the same place relative to
/// every other kind.
proof fn lemma_kind_tie_substitutes(a: VersionKindView, b: VersionKindView, c: VersionKindView)
    requires
        version::version_kind_order(a, b) != Some(Ordering::Less),
        version::version_kind_order(a, b) != Some(Ordering::Greater),
    ensures
        version::version_kind_order(a, c) == Some(Ordering::Less) <==> version::version_kind_order(b, c) == Some(
            Ordering::Less,
        ),
        version::version_kind_order(c, a) == Some(Ordering::Less) <==> version::version_kind_order(c, b) == Some(
            Ordering::Less,
        ),
{
}

/// Being an earlier full version is transitive.
pub proof fn law_version_parts_less_transitive(a: VersionPartsView, b: VersionPartsView, c: VersionPartsView)
    requires
        version::version_parts_order(a, b) == Some(Ordering::Less),
        version::version_parts_order(b, c) == Some(Ordering::Less),
    ensures
        version::version_parts_order(a, c) == Some(Ordering::Less),
{
    law_version_kind_order_flips(a.kind, b.kind);
    law_version_kind_order_flips(b.kind, c.kind);
    law_version_kind_order_flips(a.kind, c.kind);
    if a.major == b.major && b.major == c.major && a.minor == b.minor && b.minor == c.minor
        && a.revision == b.revision && b.revision == c.revision {
        let ab = version::version_kind_order(a.kind, b.kind);
        let bc = version::version_kind_order(b.kind, c.kind);
        if ab == Some(Ordering::Less) && bc == Some(Ordering::Less) {
            law_version_kind_less_transitive(a.kind, b.kind, c.kind);
        } else if ab == Some(Ordering::Less) {
            lemma_kind_tie_substitutes(b.kind, c.kind, a.kind);
        } else if bc == Some(Ordering::Less) {
            lemma_kind_tie_substitutes(a.kind, b.kind, c.kind);
        } else {
            lemma_kind_tie_substitutes(a.kind, b.kind, c.kind);
        }
    }
}

/// Being an earlier reported version is transitive.
pub proof fn law_version_number_less_transitive(a: VersionNumberView, b: VersionNumberView, c: VersionNumberView)
    requires
        version::version_number_order(a, b) == Some(Ordering::Less),
        version::version_number_order(b, c) == Some(Ordering::Less),
    ensures
        version::version_number_order(a, c) == Some(Ordering::Less),
{
    match (a, b, c) {
        (
            VersionNumberView::FullVersion(x),
            VersionNumberView::FullVersion(y),
            VersionNumberView::FullVersion(z),
        ) => {
            law_version_parts_less_transitive(x, y, z);
        },
        _ => {},
    }
}

/// On the same base version, a release candidate comes before the release, and the release
/// before its development builds.
pub proof fn law_candidate_release_development(
    major: usize,
    minor: usize,
    revision: usize,
    rc: usize,
    git: GitVersionView,
    dirty: bool,
)
    ensures
        version::version_parts_order(
            VersionPartsView { major, minor, revision, kind: VersionKindView::ReleaseCandidate(rc), dirty },
            VersionPartsView { major, minor, revision, kind: VersionKindView::Release, dirty },
        ) == Some(Ordering::Less),
        version::version_parts_order(
            VersionPartsView { major, minor, revision, kind: VersionKindView::Release, dirty },
            VersionPartsView { major, minor, revision, kind: VersionKindView::Development(git), dirty },
        ) == Some(Ordering::Less),
{
}

/// Being newer is transitive: a version newer than one that is newer than a third is newer than
/// the third.
pub proof fn law_version_number_newer_transitive(a: VersionNumberView, b: VersionNumberView, c: VersionNumberView)
    requires
        version::newer(a, b),
        version::newer(b, c),
    ensures
        version::newer(a, c),
{
    law_version_number_order_flips(a, b);
    law_version_number_order_flips(b, c);
    law_version_number_order_flips(a, c);
    law_version_number_less_transitive(c, b, a);
}

/// No version is newer than itself.
pub proof fn law_version_number_not_newer_than_itself(a: VersionNumberView)
    ensures
        !version::newer(a, a),
{
    law_version_number_order_reflexive(a);
}

/// Full versions are ordered first by their numbers: a version with a higher major number, or
/// the same major and a higher minor number, or the same major and minor and a higher revision,
/// is newer than the other, whatever their kinds and whether they are dirty.
pub proof fn law_higher_version_numbers_are_newer(a: VersionPartsView, b: VersionPartsView)
    requires
        a.major > b.major || (a.major == b.major && (a.minor > b.minor || (a.minor == b.minor && a.revision
            > b.revision))),
    ensures
        version::version_parts_order(a, b) == Some(Ordering::Greater),
        version::version_parts_order(b, a) == Some(Ordering::Less),
        version::newer(VersionNumberView::FullVersion(a), VersionNumberView::FullVersion(b)),
        !version::newer(VersionNumberView::FullVersion(b), VersionNumberView::FullVersion(a)),
{
}

} // verus!
