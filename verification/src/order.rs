//! Ordering of the report index: features are listed by name, ascending and
//! case-sensitive, by code-point order. The sort is an insertion sort whose
//! result is pinned down as a spec-level fold, so the index is a function of
//! the entries alone.

use vstd::prelude::*;
use crate::render::{FeatureRenderStatsData, FeatureRenderStatsDataView};

verus! {

/// Case-sensitive lexicographic order on character sequences, by code point.
pub open spec fn lex_le(a: Seq<char>, b: Seq<char>) -> bool
    decreases a.len(),
{
    if a.len() == 0 {
        true
    } else if b.len() == 0 {
        false
    } else if a[0] == b[0] {
        lex_le(a.drop_first(), b.drop_first())
    } else {
        (a[0] as u32) < (b[0] as u32)
    }
}

/// On sequences that agree up to `i`, the order is decided by the rest.
proof fn lemma_lex_le_skip(a: Seq<char>, b: Seq<char>, i: int)
    requires
        0 <= i <= a.len(),
        i <= b.len(),
        forall|j: int| 0 <= j < i ==> a[j] == b[j],
    ensures
        lex_le(a, b) == lex_le(a.skip(i), b.skip(i)),
    decreases i,
{
    if i == 0 {
        assert(a.skip(0) =~= a);
        assert(b.skip(0) =~= b);
    } else {
        let a1 = a.drop_first();
        let b1 = b.drop_first();
        assert(a[0] == b[0]);
        assert forall|j: int| 0 <= j < i - 1 implies a1[j] == b1[j] by {
            assert(a1[j] == a[j + 1]);
            assert(b1[j] == b[j + 1]);
        }
        lemma_lex_le_skip(a1, b1, i - 1);
        assert(a1.skip(i - 1) =~= a.skip(i));
        assert(b1.skip(i - 1) =~= b.skip(i));
    }
}

/// Compares two strings lexicographically by code point.
pub fn string_le(a: &str, b: &str) -> (r: bool)
    ensures
        r == lex_le(a@, b@),
{
    let na = a.unicode_len();
    let nb = b.unicode_len();
    let mut i: usize = 0;
    loop
        invariant
            i <= na,
            i <= nb,
            na == a@.len(),
            nb == b@.len(),
            forall|j: int| 0 <= j < i ==> a@[j] == b@[j],
        decreases na - i,
    {
        if i >= na {
            proof {
                lemma_lex_le_skip(a@, b@, i as int);
            }
            return true;
        }
        if i >= nb {
            proof {
                lemma_lex_le_skip(a@, b@, i as int);
                assert(a@.skip(i as int).len() > 0);
            }
            return false;
        }
        let ca = a.get_char(i);
        let cb = b.get_char(i);
        if ca != cb {
            proof {
                lemma_lex_le_skip(a@, b@, i as int);
                assert(a@.skip(i as int)[0] == a@[i as int]);
                assert(b@.skip(i as int)[0] == b@[i as int]);
            }
            return (ca as u32) < (cb as u32);
        }
        i = i + 1;
    }
}

/// Where a new entry lands among already sorted entries: after every entry
/// whose name is not greater than its own, so an entry with a name already
/// present goes after the ones seen earlier.
pub open spec fn spec_insert_entry(
    s: Seq<FeatureRenderStatsDataView>,
    x: FeatureRenderStatsDataView,
) -> Seq<FeatureRenderStatsDataView>
    decreases s.len(),
{
    if s.len() == 0 {
        seq![x]
    } else if lex_le(s.last().name, x.name) {
        s.push(x)
    } else {
        spec_insert_entry(s.drop_last(), x).push(s.last())
    }
}

/// The index order: entries folded left to right into a sorted sequence.
pub open spec fn spec_sort_entries(s: Seq<FeatureRenderStatsDataView>) -> Seq<
    FeatureRenderStatsDataView,
>
    decreases s.len(),
{
    if s.len() == 0 {
        Seq::empty()
    } else {
        spec_insert_entry(spec_sort_entries(s.drop_last()), s.last())
    }
}

/// Inserts one entry into the sorted vector at its place.
fn insert_entry(out: &mut Vec<FeatureRenderStatsData>, x: FeatureRenderStatsData)
    ensures
        final(out).deep_view() == spec_insert_entry(old(out).deep_view(), x@),
{
    let ghost s = out.deep_view();
    let mut p = out.len();
    proof {
        assert(s.take(s.len() as int) =~= s);
        assert(s.skip(s.len() as int) =~= Seq::<FeatureRenderStatsDataView>::empty());
        assert(spec_insert_entry(s, x@) + s.skip(s.len() as int) =~= spec_insert_entry(s, x@));
    }
    while p > 0 && !string_le(out[p - 1].name.as_str(), x.name.as_str())
        invariant
            p <= out.len(),
            s == out.deep_view(),
            s.len() == out.len(),
            x@ == x.deep_view(),
            spec_insert_entry(s, x@) == spec_insert_entry(s.take(p as int), x@) + s.skip(p as int),
        decreases p,
    {
        proof {
            let t = s.take(p as int);
            assert(t.last() == s[p as int - 1]);
            assert(s[p as int - 1] == out.deep_view()[p as int - 1]);
            assert(out.deep_view()[p as int - 1].name == out@[p as int - 1].name@);
            assert(!lex_le(t.last().name, x@.name));
            assert(t.drop_last() =~= s.take(p as int - 1));
            assert(spec_insert_entry(t, x@) == spec_insert_entry(
                s.take(p as int - 1),
                x@,
            ).push(s[p as int - 1]));
            assert(spec_insert_entry(s.take(p as int - 1), x@).push(s[p as int - 1]) + s.skip(
                p as int,
            ) =~= spec_insert_entry(s.take(p as int - 1), x@) + s.skip(p as int - 1));
        }
        p = p - 1;
    }
    proof {
        if p > 0 {
            let t = s.take(p as int);
            assert(t.last() == s[p as int - 1]);
            assert(out.deep_view()[p as int - 1].name == out@[p as int - 1].name@);
            assert(lex_le(t.last().name, x@.name));
            assert(spec_insert_entry(t, x@) == t.push(x@));
        } else {
            assert(s.take(0).len() == 0);
            assert(spec_insert_entry(s.take(0), x@) =~= seq![x@]);
        }
    }
    let ghost pp = p as int;
    out.insert(p, x);
    proof {
        assert(out@ == old(out)@.insert(pp, x));
        assert forall|j: int| 0 <= j < out@.len() implies out.deep_view()[j] == (spec_insert_entry(
            s.take(pp),
            x@,
        ) + s.skip(pp))[j] by {
            assert(out.deep_view()[j] == out@[j].deep_view());
            if j < pp {
                assert(out@[j] == old(out)@[j]);
                assert((spec_insert_entry(s.take(pp), x@) + s.skip(pp))[j] == s.take(pp)[j]);
            } else if j == pp {
                assert(out@[j] == x);
            } else {
                assert(out@[j] == old(out)@[j - 1]);
                assert((spec_insert_entry(s.take(pp), x@) + s.skip(pp))[j] == s.skip(pp)[j - pp
                    - 1]);
                assert(s.skip(pp)[j - pp - 1] == s[j - 1]);
            }
        }
        assert(out.deep_view() =~= spec_insert_entry(s.take(pp), x@) + s.skip(pp));
    }
}

/// Sorts index entries by feature name, ascending and case-sensitive; the
/// result is exactly the spec-level fold, entry by entry.
pub fn sort_entries(entries: Vec<FeatureRenderStatsData>) -> (r: Vec<FeatureRenderStatsData>)
    ensures
        r.deep_view() == spec_sort_entries(entries.deep_view()),
{
    let ghost orig = entries.deep_view();
    let mut rest = entries;
    let mut out: Vec<FeatureRenderStatsData> = Vec::new();
    proof {
        assert(orig.take(0) =~= Seq::<FeatureRenderStatsDataView>::empty());
        assert(out.deep_view() =~= spec_sort_entries(orig.take(0)));
        assert(rest.deep_view() =~= orig.skip(0));
    }
    while rest.len() > 0
        invariant
            rest.len() <= orig.len(),
            rest.deep_view() == orig.skip(orig.len() - rest.len()),
            out.deep_view() == spec_sort_entries(orig.take(orig.len() - rest.len())),
        decreases rest.len(),
    {
        let ghost k = orig.len() - rest.len();
        let e = rest.remove(0);
        proof {
            assert(e.deep_view() == orig.skip(k)[0]);
            assert(orig.skip(k)[0] == orig[k]);
            assert(rest.deep_view() =~= orig.skip(k).drop_first());
            assert(orig.skip(k).drop_first() =~= orig.skip(k + 1));
        }
        insert_entry(&mut out, e);
        proof {
            let t = orig.take(k + 1);
            assert(t.last() == orig[k]);
            assert(t.drop_last() =~= orig.take(k));
            assert(out.deep_view() == spec_insert_entry(spec_sort_entries(orig.take(k)), orig[k]));
            assert(spec_sort_entries(t) == spec_insert_entry(
                spec_sort_entries(t.drop_last()),
                t.last(),
            ));
        }
    }
    proof {
        assert(orig.take(orig.len() as int) =~= orig);
    }
    out
}

/// The order is total: of two names, one is not greater than the other.
pub proof fn lemma_lex_le_total(a: Seq<char>, b: Seq<char>)
    ensures
        lex_le(a, b) || lex_le(b, a),
    decreases a.len(),
{
    if a.len() == 0 {
    } else if b.len() == 0 {
    } else if a[0] == b[0] {
        lemma_lex_le_total(a.drop_first(), b.drop_first());
    } else {
        vstd::utf8::char_u32_cast(a[0], a[0] as u32);
        vstd::utf8::char_u32_cast(b[0], b[0] as u32);
        assert(a[0] as u32 != b[0] as u32);
    }
}

/// The order is transitive.
pub proof fn lemma_lex_le_trans(a: Seq<char>, b: Seq<char>, c: Seq<char>)
    requires
        lex_le(a, b),
        lex_le(b, c),
    ensures
        lex_le(a, c),
    decreases a.len(),
{
    if a.len() == 0 {
    } else {
        if a[0] == b[0] && b[0] == c[0] {
            lemma_lex_le_trans(a.drop_first(), b.drop_first(), c.drop_first());
        }
    }
}

/// The index order: every entry's name is not greater than any later one.
pub open spec fn entries_sorted(s: Seq<FeatureRenderStatsDataView>) -> bool {
    forall|i: int, j: int| 0 <= i < j < s.len() ==> lex_le(s[i].name, s[j].name)
}

/// Inserting leaves exactly the old entries and the new one: same multiset.
proof fn lemma_insert_entry_multiset(
    s: Seq<FeatureRenderStatsDataView>,
    x: FeatureRenderStatsDataView,
)
    ensures
        spec_insert_entry(s, x).len() == s.len() + 1,
        spec_insert_entry(s, x).to_multiset() == s.to_multiset().insert(x),
    decreases s.len(),
{
    broadcast use vstd::seq_lib::group_to_multiset_ensures;

    if s.len() == 0 {
        assert(seq![x] =~= Seq::<FeatureRenderStatsDataView>::empty().push(x));
        assert(Seq::<FeatureRenderStatsDataView>::empty().push(x).to_multiset()
            =~= Seq::<FeatureRenderStatsDataView>::empty().to_multiset().insert(x));
    } else if lex_le(s.last().name, x.name) {
        assert(s.push(x).to_multiset() =~= s.to_multiset().insert(x));
    } else {
        lemma_insert_entry_multiset(s.drop_last(), x);
        let t = spec_insert_entry(s.drop_last(), x);
        assert(t.push(s.last()).to_multiset() =~= t.to_multiset().insert(s.last()));
        assert(s.drop_last().push(s.last()) =~= s);
        assert(s.drop_last().push(s.last()).to_multiset() =~= s.drop_last().to_multiset().insert(
            s.last(),
        ));
        assert(t.to_multiset().insert(s.last()) =~= s.drop_last().to_multiset().insert(x).insert(
            s.last(),
        ));
        assert(s.drop_last().to_multiset().insert(x).insert(s.last())
            =~= s.drop_last().to_multiset().insert(s.last()).insert(x));
    }
}

/// Every entry the insertion yields is the new one or one of the old ones.
proof fn lemma_insert_entry_membership(
    s: Seq<FeatureRenderStatsDataView>,
    x: FeatureRenderStatsDataView,
)
    ensures
        forall|k: int|
            0 <= k < spec_insert_entry(s, x).len() ==> (#[trigger] spec_insert_entry(s, x)[k] == x
                || s.contains(spec_insert_entry(s, x)[k])),
    decreases s.len(),
{
    lemma_insert_entry_multiset(s, x);
    if s.len() == 0 {
    } else if lex_le(s.last().name, x.name) {
        assert forall|k: int|
            0 <= k < spec_insert_entry(s, x).len() implies (#[trigger] spec_insert_entry(s, x)[k]
            == x || s.contains(spec_insert_entry(s, x)[k])) by {
            if k < s.len() {
                assert(spec_insert_entry(s, x)[k] == s[k]);
            }
        }
    } else {
        lemma_insert_entry_membership(s.drop_last(), x);
        let t = spec_insert_entry(s.drop_last(), x);
        assert forall|k: int|
            0 <= k < spec_insert_entry(s, x).len() implies (#[trigger] spec_insert_entry(s, x)[k]
            == x || s.contains(spec_insert_entry(s, x)[k])) by {
            if k < t.len() {
                assert(spec_insert_entry(s, x)[k] == t[k]);
                if t[k] != x {
                    let l = choose|l: int| 0 <= l < s.drop_last().len() && s.drop_last()[l] == t[k];
                    assert(s[l] == t[k]);
                }
            } else {
                assert(spec_insert_entry(s, x)[k] == s.last());
                assert(s[s.len() - 1] == s.last());
            }
        }
    }
}

/// Inserting into a sorted sequence keeps it sorted.
proof fn lemma_insert_entry_sorted(
    s: Seq<FeatureRenderStatsDataView>,
    x: FeatureRenderStatsDataView,
)
    requires
        entries_sorted(s),
    ensures
        entries_sorted(spec_insert_entry(s, x)),
    decreases s.len(),
{
    if s.len() == 0 {
    } else if lex_le(s.last().name, x.name) {
        let t = s.push(x);
        assert forall|i: int, j: int| 0 <= i < j < t.len() implies lex_le(t[i].name, t[j].name) by {
            if j < s.len() {
                assert(t[i] == s[i] && t[j] == s[j]);
            } else {
                assert(t[j] == x);
                assert(t[i] == s[i]);
                if i < s.len() - 1 {
                    assert(lex_le(s[i].name, s.last().name));
                    lemma_lex_le_trans(s[i].name, s.last().name, x.name);
                }
            }
        }
    } else {
        assert forall|i: int, j: int|
            0 <= i < j < s.drop_last().len() implies lex_le(
            s.drop_last()[i].name,
            s.drop_last()[j].name,
        ) by {
            assert(s.drop_last()[i] == s[i] && s.drop_last()[j] == s[j]);
        }
        lemma_insert_entry_sorted(s.drop_last(), x);
        lemma_insert_entry_membership(s.drop_last(), x);
        lemma_lex_le_total(s.last().name, x.name);
        let t = spec_insert_entry(s.drop_last(), x);
        let u = t.push(s.last());
        assert forall|i: int, j: int| 0 <= i < j < u.len() implies lex_le(u[i].name, u[j].name) by {
            if j < t.len() {
                assert(u[i] == t[i] && u[j] == t[j]);
            } else {
                assert(u[j] == s.last());
                assert(u[i] == t[i]);
                if t[i] == x {
                    assert(lex_le(x.name, s.last().name));
                } else {
                    let l = choose|l: int|
                        0 <= l < s.drop_last().len() && s.drop_last()[l] == t[i];
                    assert(s[l] == t[i]);
                    assert(lex_le(s[l].name, s.last().name));
                }
            }
        }
    }
}

/// Index ordering: the sorted index lists its entries by name, ascending and
/// case-sensitive, and holds exactly the entries it was given.
pub proof fn lemma_sort_entries_sorted(s: Seq<FeatureRenderStatsDataView>)
    ensures
        entries_sorted(spec_sort_entries(s)),
        spec_sort_entries(s).len() == s.len(),
        spec_sort_entries(s).to_multiset() == s.to_multiset(),
    decreases s.len(),
{
    broadcast use vstd::seq_lib::group_to_multiset_ensures;

    if s.len() == 0 {
    } else {
        lemma_sort_entries_sorted(s.drop_last());
        lemma_insert_entry_sorted(spec_sort_entries(s.drop_last()), s.last());
        lemma_insert_entry_multiset(spec_sort_entries(s.drop_last()), s.last());
        assert(s.drop_last().push(s.last()) =~= s);
        assert(s.drop_last().push(s.last()).to_multiset() =~= s.drop_last().to_multiset().insert(
            s.last(),
        ));
    }
}

} // verus!
