//! Entries keyed by a 32-bit address, kept in address order with one entry per address.
use vstd::prelude::*;

verus! {

/// Places an entry among entries ordered by address; an entry at an address already present
/// takes its place.
pub open spec fn insert_keyed<T>(s: Seq<(u32, T)>, g: (u32, T)) -> Seq<(u32, T)>
    decreases s.len(),
{
    if s.len() == 0 {
        seq![g]
    } else if s[0].0 == g.0 {
        seq![g] + s.drop_first()
    } else if g.0 < s[0].0 {
        seq![g] + s
    } else {
        seq![s[0]] + insert_keyed(s.drop_first(), g)
    }
}

/// The entries ordered by address, a later entry at the same address replacing an earlier one.
pub open spec fn sorted_keyed<T>(list: Seq<(u32, T)>) -> Seq<(u32, T)>
    decreases list.len(),
{
    if list.len() == 0 {
        seq![]
    } else {
        insert_keyed(sorted_keyed(list.drop_last()), list.last())
    }
}

/// Whether the entries' addresses strictly increase.
pub open spec fn keys_strictly_sorted<T>(s: Seq<(u32, T)>) -> bool {
    forall|i: int, j: int| 0 <= i < j < s.len() ==> (#[trigger] s[i]).0 < (#[trigger] s[j]).0
}

/// Inserting an entry where the addresses below it end.
pub proof fn lemma_insert_keyed_at<T>(s: Seq<(u32, T)>, g: (u32, T), i: int)
    requires
        keys_strictly_sorted(s),
        0 <= i <= s.len(),
        forall|j: int| 0 <= j < i ==> (#[trigger] s[j]).0 < g.0,
        i < s.len() ==> s[i].0 >= g.0,
    ensures
        insert_keyed(s, g) == (if i < s.len() && s[i].0 == g.0 {
            s.update(i, g)
        } else {
            s.insert(i, g)
        }),
        keys_strictly_sorted(insert_keyed(s, g)),
    decreases s.len(),
{
    if i == 0 {
        if s.len() == 0 {
            assert(seq![g] =~= s.insert(0, g));
        } else if s[0].0 == g.0 {
            assert(seq![g] + s.drop_first() =~= s.update(0, g));
        } else {
            assert(seq![g] + s =~= s.insert(0, g));
        }
    } else {
        let t = s.drop_first();
        assert(keys_strictly_sorted(t)) by {
            assert forall|a: int, b: int| 0 <= a < b < t.len() implies (#[trigger] t[a]).0 < (#[trigger] t[b]).0 by {
                assert(t[a] == s[a + 1]);
                assert(t[b] == s[b + 1]);
            }
        }
        assert forall|j: int| 0 <= j < i - 1 implies (#[trigger] t[j]).0 < g.0 by {
            assert(t[j] == s[j + 1]);
        }
        lemma_insert_keyed_at(t, g, i - 1);
        if i < s.len() && s[i].0 == g.0 {
            assert(seq![s[0]] + t.update(i - 1, g) =~= s.update(i, g));
        } else {
            assert(seq![s[0]] + t.insert(i - 1, g) =~= s.insert(i, g));
        }
    }
    let r = insert_keyed(s, g);
    assert forall|a: int, b: int| 0 <= a < b < r.len() implies (#[trigger] r[a]).0 < (#[trigger] r[b]).0 by {
        if i < s.len() && s[i].0 == g.0 {
            assert(r[a].0 == s[a].0);
            assert(r[b].0 == s[b].0);
        } else {
            if b < i {
                assert(r[a] == s[a] && r[b] == s[b]);
            } else if b == i {
                assert(r[b] == g);
                assert(r[a] == s[a]);
            } else if a < i {
                assert(r[a] == s[a] && r[b] == s[b - 1]);
            } else if a == i {
                assert(r[a] == g && r[b] == s[b - 1]);
            } else {
                assert(r[a] == s[a - 1] && r[b] == s[b - 1]);
            }
        }
    }
}

} // verus!
