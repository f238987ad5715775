//! Lexicographic order on character sequences, and sorting by it.
use vstd::prelude::*;
use vstd::relations::{sorted_by, total_ordering};

verus! {

/// `a` comes no later than `b` in lexicographic order of their characters
/// (code points); a proper prefix comes first.
pub open spec fn lex_le(a: Seq<char>, b: Seq<char>) -> bool
    decreases a.len(),
{
    if a.len() == 0 {
        true
    } else if b.len() == 0 {
        false
    } else if a[0] != b[0] {
        a[0] < b[0]
    } else {
        lex_le(a.drop_first(), b.drop_first())
    }
}

/// The lexicographic order as a relation, for `sorted_by` and `sort_by`.
pub open spec fn lex_order() -> spec_fn(Seq<char>, Seq<char>) -> bool {
    |a: Seq<char>, b: Seq<char>| lex_le(a, b)
}

pub proof fn lemma_lex_reflexive(a: Seq<char>)
    ensures
        lex_le(a, a),
    decreases a.len(),
{
    if a.len() > 0 {
        lemma_lex_reflexive(a.drop_first());
    }
}

pub proof fn lemma_lex_antisymmetric(a: Seq<char>, b: Seq<char>)
    requires
        lex_le(a, b),
        lex_le(b, a),
    ensures
        a == b,
    decreases a.len(),
{
    if a.len() == 0 {
        assert(b.len() == 0);
        assert(a =~= b);
    } else {
        assert(b.len() > 0);
        assert(a[0] == b[0]);
        lemma_lex_antisymmetric(a.drop_first(), b.drop_first());
        assert(a =~= seq![a[0]] + a.drop_first());
        assert(b =~= seq![b[0]] + b.drop_first());
    }
}

pub proof fn lemma_lex_transitive(a: Seq<char>, b: Seq<char>, c: Seq<char>)
    requires
        lex_le(a, b),
        lex_le(b, c),
    ensures
        lex_le(a, c),
    decreases a.len(),
{
    if a.len() > 0 && b.len() > 0 && c.len() > 0 {
        if a[0] == b[0] && b[0] == c[0] {
            lemma_lex_transitive(a.drop_first(), b.drop_first(), c.drop_first());
        }
    }
}

pub proof fn lemma_lex_total(a: Seq<char>, b: Seq<char>)
    ensures
        lex_le(a, b) || lex_le(b, a),
    decreases a.len(),
{
    if a.len() > 0 && b.len() > 0 && a[0] == b[0] {
        lemma_lex_total(a.drop_first(), b.drop_first());
    }
}

/// The lexicographic order is a total order.
pub proof fn lemma_lex_total_ordering()
    ensures
        total_ordering(lex_order()),
{
    let r = lex_order();
    assert forall|x: Seq<char>| #[trigger] r(x, x) by {
        lemma_lex_reflexive(x);
    }
    assert forall|x: Seq<char>, y: Seq<char>| #[trigger] r(x, y) && #[trigger] r(y, x) implies x
        == y by {
        lemma_lex_antisymmetric(x, y);
    }
    assert forall|x: Seq<char>, y: Seq<char>, z: Seq<char>| #[trigger]
        r(x, y) && #[trigger] r(y, z) implies r(x, z) by {
        lemma_lex_transitive(x, y, z);
    }
    assert forall|x: Seq<char>, y: Seq<char>| #[trigger] r(x, y) || #[trigger] r(y, x) by {
        lemma_lex_total(x, y);
    }
}

/// A text comes no later than any text that extends it: `v1` before `v10`.
pub proof fn lemma_lex_prefix_first(a: Seq<char>, b: Seq<char>)
    ensures
        lex_le(a, a + b),
    decreases a.len(),
{
    if a.len() > 0 {
        assert((a + b).drop_first() =~= a.drop_first() + b);
        lemma_lex_prefix_first(a.drop_first(), b);
    }
}

/// Two texts that agree up to position `k` and differ there are ordered by
/// the characters at `k`, whatever follows: `v10` before `v9`, `v2-b`
/// after `v2-a`.
pub proof fn lemma_lex_first_difference(a: Seq<char>, b: Seq<char>, k: int)
    requires
        0 <= k < a.len(),
        k < b.len(),
        forall|j: int| 0 <= j < k ==> a[j] == b[j],
        a[k] < b[k],
    ensures
        lex_le(a, b),
        !lex_le(b, a),
    decreases k,
{
    if k > 0 {
        lemma_lex_first_difference(a.drop_first(), b.drop_first(), k - 1);
    }
}

/// Sorting by the lexicographic order puts the texts in that order and
/// keeps each of them as often as it was there.
pub proof fn lemma_sorted_lex(items: Seq<Seq<char>>)
    ensures
        sorted_by(items.sort_by(lex_order()), lex_order()),
        items.sort_by(lex_order()).to_multiset() == items.to_multiset(),
        items.sort_by(lex_order()).len() == items.len(),
        forall|i: int, j: int|
            0 <= i < j < items.len() ==> lex_le(
                #[trigger] items.sort_by(lex_order())[i],
                #[trigger] items.sort_by(lex_order())[j],
            ),
{
    lemma_lex_total_ordering();
    items.lemma_sort_by_ensures(lex_order());
    items.to_multiset_ensures();
    items.sort_by(lex_order()).to_multiset_ensures();
    assert forall|i: int, j: int| 0 <= i < j < items.len() implies lex_le(
        #[trigger] items.sort_by(lex_order())[i],
        #[trigger] items.sort_by(lex_order())[j],
    ) by {
        assert(lex_order()(items.sort_by(lex_order())[i], items.sort_by(lex_order())[j]));
    }
}

/// Whether `a` comes no later than `b` in lexicographic order.
pub fn lex_le_exec(a: &Vec<char>, b: &Vec<char>) -> (r: bool)
    ensures
        r == lex_le(a@, b@),
{
    let mut i: usize = 0;
    assert(a@.skip(0) =~= a@);
    assert(b@.skip(0) =~= b@);
    while i < a.len() && i < b.len()
        invariant
            i <= a.len(),
            i <= b.len(),
            lex_le(a@, b@) == lex_le(a@.skip(i as int), b@.skip(i as int)),
        decreases a.len() - i,
    {
        let x = a[i];
        let y = b[i];
        assert(a@.skip(i as int)[0] == x);
        assert(b@.skip(i as int)[0] == y);
        if x != y {
            return x < y;
        }
        assert(a@.skip(i as int).drop_first() =~= a@.skip(i + 1));
        assert(b@.skip(i as int).drop_first() =~= b@.skip(i + 1));
        i = i + 1;
    }
    if i == a.len() {
        assert(a@.skip(i as int).len() == 0);
        true
    } else {
        assert(b@.skip(i as int).len() == 0);
        false
    }
}

/// The character sequences held by a vector of character vectors.
pub open spec fn char_seqs(v: Seq<Vec<char>>) -> Seq<Seq<char>> {
    v.map_values(|c: Vec<char>| c@)
}

/// Sorts character sequences into lexicographic order.
pub fn sort_lex(items: Vec<Vec<char>>) -> (out: Vec<Vec<char>>)
    ensures
        char_seqs(out@) == char_seqs(items@).sort_by(lex_order()),
{
    broadcast use vstd::seq_lib::group_to_multiset_ensures, vstd::multiset::group_multiset_axioms;

    let ghost original = char_seqs(items@);
    let mut items = items;
    let mut out: Vec<Vec<char>> = Vec::new();
    proof {
        lemma_lex_total_ordering();
        assert(char_seqs(out@) =~= Seq::<Seq<char>>::empty());
        assert(char_seqs(out@).to_multiset() =~= vstd::multiset::Multiset::empty());
    }
    while items.len() > 0
        invariant
            total_ordering(lex_order()),
            sorted_by(char_seqs(out@), lex_order()),
            char_seqs(out@).to_multiset().add(char_seqs(items@).to_multiset())
                == original.to_multiset(),
        decreases items.len(),
    {
        let ghost before_items = char_seqs(items@);
        let ghost before_out = char_seqs(out@);
        let x = items.pop().unwrap();
        proof {
            assert(char_seqs(items@) =~= before_items.drop_last());
            assert(before_items =~= char_seqs(items@).push(x@));
            vstd::seq_lib::to_multiset_build(char_seqs(items@), x@);
            assert(before_items.to_multiset() == char_seqs(items@).to_multiset().insert(x@));
        }
        let mut p: usize = 0;
        while p < out.len() && lex_le_exec(&out[p], &x)
            invariant
                p <= out.len(),
                char_seqs(out@) == before_out,
                forall|k: int| 0 <= k < p ==> lex_le(#[trigger] before_out[k], x@),
            decreases out.len() - p,
        {
            p = p + 1;
        }
        proof {
            if p < out.len() {
                lemma_lex_total(before_out[p as int], x@);
            }
            assert forall|j: int| p <= j < before_out.len() implies lex_le(
                x@,
                #[trigger] before_out[j],
            ) by {
                assert(lex_order()(before_out[p as int], before_out[j]) || p == j);
                if p != j {
                    lemma_lex_transitive(x@, before_out[p as int], before_out[j]);
                }
            }
        }
        out.insert(p, x);
        proof {
            let now = char_seqs(out@);
            assert(now =~= before_out.insert(p as int, x@));
            assert forall|i: int, j: int| 0 <= i < j < now.len() implies #[trigger] lex_order()(
                now[i],
                now[j],
            ) by {
                if i < p && j < p {
                    assert(lex_order()(before_out[i], before_out[j]));
                } else if i < p && j == p {
                } else if i < p && j > p {
                    assert(lex_order()(before_out[i], before_out[j - 1]));
                } else if i == p {
                } else {
                    assert(lex_order()(before_out[i - 1], before_out[j - 1]));
                }
            }
            vstd::seq_lib::to_multiset_insert(before_out, p as int, x@);
            assert(now.to_multiset().add(char_seqs(items@).to_multiset()) =~= original.to_multiset());
        }
    }
    proof {
        assert(char_seqs(items@).to_multiset() =~= vstd::multiset::Multiset::empty());
        original.lemma_sort_by_ensures(lex_order());
        assert(char_seqs(out@).to_multiset() =~= original.to_multiset());
        vstd::seq_lib::lemma_sorted_unique(char_seqs(out@), original.sort_by(lex_order()), lex_order());
    }
    out
}

} // verus!
