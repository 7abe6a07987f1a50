//! Normal forms of lists of names: membership, sorting, and dropping repeats.

use crate::text::{str_eq, str_le, str_le_antisymmetric, str_le_exec, str_le_total,
    str_le_transitive, texts};
use vstd::prelude::*;
use vstd::seq_lib::*;

verus! {

/// A list of texts in ascending order; repeats may stand side by side.
pub open spec fn sorted(s: Seq<Seq<char>>) -> bool {
    forall|i: int, j: int| 0 <= i <= j < s.len() ==> str_le(#[trigger] s[i], #[trigger] s[j])
}

/// A list of texts in ascending order in which no text stands twice.
pub open spec fn strictly_sorted(s: Seq<Seq<char>>) -> bool {
    forall|i: int, j: int|
        0 <= i < j < s.len() ==> str_le(#[trigger] s[i], #[trigger] s[j]) && s[i] != s[j]
}

/// The list without the items that repeat the item just before them.
pub open spec fn without_repeats(s: Seq<Seq<char>>) -> Seq<Seq<char>>
    decreases s.len(),
{
    if s.len() <= 1 {
        s
    } else if s[s.len() - 1] == s[s.len() - 2] {
        without_repeats(s.drop_last())
    } else {
        without_repeats(s.drop_last()).push(s.last())
    }
}

/// Dropping repeats keeps the last item and the set of items, and never makes
/// the list longer.
pub proof fn without_repeats_keeps_items(s: Seq<Seq<char>>)
    ensures
        without_repeats(s).to_set() == s.to_set(),
        without_repeats(s).len() <= s.len(),
        s.len() > 0 ==> without_repeats(s).len() > 0 && without_repeats(s).last() == s.last(),
    decreases s.len(),
{
    if s.len() > 1 {
        let head = s.drop_last();
        without_repeats_keeps_items(head);
        let r = without_repeats(head);
        assert(s =~= head.push(s.last()));
        assert forall|x: Seq<char>| s.to_set().contains(x) <==> without_repeats(s).to_set().contains(
            x,
        ) by {
            if s.contains(x) {
                let i = choose|i: int| 0 <= i < s.len() && s[i] == x;
                if i < head.len() {
                    assert(head[i] == x);
                    assert(head.to_set().contains(x));
                    assert(r.contains(x));
                    let k = choose|k: int| 0 <= k < r.len() && r[k] == x;
                    if s[s.len() - 1] != s[s.len() - 2] {
                        assert(r.push(s.last())[k] == x);
                    }
                } else {
                    if s[s.len() - 1] == s[s.len() - 2] {
                        assert(head[head.len() - 1] == x);
                        assert(head.to_set().contains(x));
                        assert(r.contains(x));
                    } else {
                        assert(r.push(s.last())[r.len() as int] == x);
                    }
                }
            }
            if without_repeats(s).contains(x) {
                let k = choose|k: int| 0 <= k < without_repeats(s).len() && without_repeats(s)[k] == x;
                if s[s.len() - 1] != s[s.len() - 2] && k == r.len() {
                    assert(s[s.len() - 1] == x);
                } else {
                    assert(r[k] == x);
                    assert(r.to_set().contains(x));
                    assert(head.contains(x));
                    let i = choose|i: int| 0 <= i < head.len() && head[i] == x;
                    assert(s[i] == x);
                }
            }
        }
        assert(without_repeats(s).to_set() =~= s.to_set());
    }
}

/// Dropping repeats from an ascending list leaves an ascending list in which
/// no text stands twice.
pub proof fn without_repeats_of_sorted(s: Seq<Seq<char>>)
    requires
        sorted(s),
    ensures
        strictly_sorted(without_repeats(s)),
    decreases s.len(),
{
    if s.len() > 1 {
        let head = s.drop_last();
        assert(sorted(head)) by {
            assert forall|i: int, j: int| 0 <= i <= j < head.len() implies str_le(
                #[trigger] head[i],
                #[trigger] head[j],
            ) by {
                assert(str_le(s[i], s[j]));
            }
        }
        without_repeats_of_sorted(head);
        without_repeats_keeps_items(head);
        let r = without_repeats(head);
        if s[s.len() - 1] != s[s.len() - 2] {
            let out = r.push(s.last());
            assert forall|i: int, j: int| 0 <= i < j < out.len() implies str_le(
                #[trigger] out[i],
                #[trigger] out[j],
            ) && out[i] != out[j] by {
                if j == r.len() {
                    assert(r.to_set().contains(r[i]));
                    assert(head.contains(r[i]));
                    let k = choose|k: int| 0 <= k < head.len() && head[k] == r[i];
                    assert(str_le(s[k], s[s.len() - 1]));
                    if out[i] == out[j] {
                        assert(str_le(s[k], s[s.len() - 2]));
                        assert(str_le(s[s.len() - 2], s[s.len() - 1]));
                        str_le_antisymmetric(s[s.len() - 2], s[s.len() - 1]);
                    }
                } else {
                    assert(str_le(r[i], r[j]) && r[i] != r[j]);
                }
            }
        }
    } else {
        assert(strictly_sorted(s));
    }
}

/// Tells whether a list of strings holds a text.
pub fn contains_text(v: &Vec<String>, s: &str) -> (found: bool)
    ensures
        found == texts(v@).contains(s@),
{
    let mut i: usize = 0;
    while i < v.len()
        invariant
            i <= v.len(),
            forall|k: int| 0 <= k < i ==> texts(v@)[k] != s@,
        decreases v.len() - i,
    {
        if str_eq(v[i].as_str(), s) {
            assert(texts(v@)[i as int] == s@);
            return true;
        }
        i = i + 1;
    }
    false
}

/// Sorts a list of strings into ascending order. The result holds the texts
/// of the input, each as often as the input held it.
pub fn sort_strings(v: &mut Vec<String>)
    ensures
        sorted(texts(final(v)@)),
        texts(final(v)@).to_multiset() == texts(old(v)@).to_multiset(),
        final(v)@.len() == old(v)@.len(),
{
    broadcast use group_to_multiset_ensures;

    let mut out: Vec<String> = Vec::new();
    let mut i: usize = 0;
    assert(texts(v@).take(0) =~= texts(out@));
    while i < v.len()
        invariant
            i <= v.len(),
            *v == *old(v),
            out@.len() == i,
            sorted(texts(out@)),
            texts(out@).to_multiset() == texts(v@).take(i as int).to_multiset(),
        decreases v.len() - i,
    {
        let item = v[i].clone();
        let mut j: usize = 0;
        while j < out.len() && str_le_exec(out[j].as_str(), item.as_str())
            invariant
                j <= out.len(),
                forall|k: int| 0 <= k < j ==> str_le(#[trigger] texts(out@)[k], item@),
            decreases out.len() - j,
        {
            j = j + 1;
        }
        let ghost before = texts(out@);
        proof {
            if j < out.len() {
                assert(!str_le(before[j as int], item@));
                str_le_total(before[j as int], item@);
                assert forall|k: int| j <= k < before.len() implies str_le(
                    item@,
                    #[trigger] before[k],
                ) by {
                    assert(str_le(before[j as int], before[k]));
                    str_le_transitive(item@, before[j as int], before[k]);
                }
            }
        }
        out.insert(j, item);
        proof {
            let after = texts(out@);
            assert(after =~= before.insert(j as int, item@));
            assert forall|a: int, b: int| 0 <= a <= b < after.len() implies str_le(
                #[trigger] after[a],
                #[trigger] after[b],
            ) by {
                if a == b {
                    crate::text::bytes_le_reflexive(vstd::utf8::encode_utf8(after[a]));
                } else if a == j {
                    assert(after[b] == before[b - 1]);
                } else if b == j {
                    assert(after[a] == before[a]);
                } else {
                    let a0 = if a < j { a } else { a - 1 };
                    let b0 = if b < j { b } else { b - 1 };
                    assert(after[a] == before[a0] && after[b] == before[b0]);
                    assert(str_le(before[a0], before[b0]));
                }
            }
            let seen = texts(v@).take(i as int);
            assert(texts(v@).take(i + 1) =~= seen.push(item@));
            to_multiset_insert(before, j as int, item@);
            to_multiset_build(seen, item@);
            assert(after.to_multiset() =~= before.to_multiset().insert(item@));
            assert(seen.push(item@).to_multiset() =~= seen.to_multiset().insert(item@));
        }
        i = i + 1;
    }
    assert(texts(v@).take(v@.len() as int) =~= texts(v@));
    *v = out;
}

/// Drops every item that repeats the item just before it.
pub fn dedup_strings(v: &mut Vec<String>)
    ensures
        texts(final(v)@) == without_repeats(texts(old(v)@)),
{
    let mut out: Vec<String> = Vec::new();
    let mut i: usize = 0;
    assert(texts(v@).take(0) =~= texts(out@));
    while i < v.len()
        invariant
            i <= v.len(),
            *v == *old(v),
            texts(out@) == without_repeats(texts(v@).take(i as int)),
        decreases v.len() - i,
    {
        let ghost seen = texts(v@).take(i as int);
        let ghost next = texts(v@).take(i + 1);
        proof {
            assert(next.drop_last() =~= seen);
            assert(next.last() == v@[i as int]@);
        }
        let repeat = i > 0 && str_eq(v[i].as_str(), v[i - 1].as_str());
        if !repeat {
            let ghost before = texts(out@);
            out.push(v[i].clone());
            proof {
                assert(texts(out@) =~= before.push(v@[i as int]@));
                if i > 0 {
                    assert(next[next.len() - 2] == v@[i - 1]@);
                } else {
                    assert(seen =~= Seq::<Seq<char>>::empty());
                    assert(next =~= seq![v@[0]@]);
                    assert(texts(out@) =~= next);
                }
            }
        } else {
            proof {
                assert(next[next.len() - 2] == v@[i - 1]@);
            }
        }
        i = i + 1;
    }
    assert(texts(v@).take(v@.len() as int) =~= texts(v@));
    *v = out;
}

/// A copy of a list of strings.
pub fn copy_strings(v: &Vec<String>) -> (copy: Vec<String>)
    ensures
        texts(copy@) == texts(v@),
{
    let mut copy: Vec<String> = Vec::new();
    let mut i: usize = 0;
    while i < v.len()
        invariant
            i <= v.len(),
            copy@.len() == i,
            forall|k: int| 0 <= k < i ==> copy@[k]@ == v@[k]@,
        decreases v.len() - i,
    {
        copy.push(v[i].clone());
        i = i + 1;
    }
    assert(texts(copy@) =~= texts(v@));
    copy
}

/// The normal form of a list of names: ascending, each name once, and the
/// same names as the list it was made from.
pub open spec fn normal_names(raw: Seq<Seq<char>>, out: Seq<Seq<char>>) -> bool {
    strictly_sorted(out) && out.to_set() == raw.to_set()
}

/// Lists with the same items, each as often, hold the same set of items.
pub proof fn same_items_same_set(a: Seq<Seq<char>>, b: Seq<Seq<char>>)
    requires
        a.to_multiset() == b.to_multiset(),
    ensures
        a.to_set() == b.to_set(),
{
    assert forall|x: Seq<char>| a.to_set().contains(x) <==> b.to_set().contains(x) by {
        to_multiset_contains(a, x);
        to_multiset_contains(b, x);
    }
    assert(a.to_set() =~= b.to_set());
}

/// Brings a list of names into its normal form: sorted, without repeats.
pub fn normalize_names(v: &mut Vec<String>)
    ensures
        normal_names(texts(old(v)@), texts(final(v)@)),
        old(v)@.len() > 0 ==> final(v)@.len() > 0,
        final(v)@.len() <= old(v)@.len(),
{
    sort_strings(v);
    let ghost ordered = texts(v@);
    dedup_strings(v);
    proof {
        same_items_same_set(ordered, texts(old(v)@));
        without_repeats_keeps_items(ordered);
        without_repeats_of_sorted(ordered);
    }
}

} // verus!
