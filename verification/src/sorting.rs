//! Ordering a list by a rank and a text: the order in which completion
//! suggestions and help lines are shown.

use crate::text::{
    comes_before, lemma_lex_less_asymmetric, lemma_lex_less_irreflexive, lemma_lex_less_total,
    lemma_lex_less_transitive, lex_less,
};
use vstd::prelude::*;

verus! {

/// What an entry is ordered by: first the rank, lower first, then the text
/// in dictionary order.
pub struct SortKey {
    pub rank: u64,
    pub text: Vec<char>,
}

impl View for SortKey {
    type V = (u64, Seq<char>);

    open spec fn view(&self) -> (u64, Seq<char>) {
        (self.rank, self.text@)
    }
}

/// The keys of `v` as rank and text.
pub open spec fn key_views(v: Seq<SortKey>) -> Seq<(u64, Seq<char>)> {
    Seq::new(v.len(), |i: int| v[i]@)
}

/// Whether key `a` comes strictly before key `b`.
pub open spec fn key_before(a: (u64, Seq<char>), b: (u64, Seq<char>)) -> bool {
    a.0 < b.0 || (a.0 == b.0 && lex_less(a.1, b.1))
}

/// Whether entry `i` of `keys` is shown before entry `j`: by key, and
/// among entries of one key the earlier in `keys` first.
pub open spec fn entry_before(keys: Seq<(u64, Seq<char>)>, i: int, j: int) -> bool {
    key_before(keys[i], keys[j]) || (keys[i] == keys[j] && i < j)
}

/// Whether `k` is one of the indices that `order` lists.
pub open spec fn lists(order: Seq<usize>, k: int) -> bool {
    exists|i: int| 0 <= i < order.len() && #[trigger] order[i] == k
}

/// Whether `order` lists every index of `keys` once, each before all that
/// are shown after it.
pub open spec fn is_sorted_order(keys: Seq<(u64, Seq<char>)>, order: Seq<usize>) -> bool {
    &&& order.len() == keys.len()
    &&& forall|i: int| 0 <= i < order.len() ==> 0 <= #[trigger] order[i] < keys.len()
    &&& forall|k: int| 0 <= k < keys.len() ==> #[trigger] lists(order, k)
    &&& forall|i: int, j: int|
        0 <= i < j < order.len() ==> entry_before(keys, #[trigger] order[i] as int, #[trigger] order[j] as int)
}

/// Of two different entries one is shown before the other.
pub proof fn lemma_entry_before_total(keys: Seq<(u64, Seq<char>)>, i: int, j: int)
    requires
        i != j,
    ensures
        entry_before(keys, i, j) || entry_before(keys, j, i),
{
    lemma_lex_less_total(keys[i].1, keys[j].1);
}

/// The order of entries is transitive.
pub proof fn lemma_entry_before_transitive(keys: Seq<(u64, Seq<char>)>, i: int, j: int, k: int)
    requires
        entry_before(keys, i, j),
        entry_before(keys, j, k),
    ensures
        entry_before(keys, i, k),
{
    let a = keys[i];
    let b = keys[j];
    let c = keys[k];
    if a.0 == b.0 && b.0 == c.0 {
        if lex_less(a.1, b.1) && lex_less(b.1, c.1) {
            lemma_lex_less_transitive(a.1, b.1, c.1);
        }
    }
}

/// No entry is shown before itself.
pub proof fn lemma_entry_before_irreflexive(keys: Seq<(u64, Seq<char>)>, i: int)
    ensures
        !entry_before(keys, i, i),
{
    lemma_lex_less_irreflexive(keys[i].1);
}

/// Whether each entry of `s` stands before all later ones in the order
/// `before`.
pub open spec fn strictly_sorted<T>(before: spec_fn(T, T) -> bool, s: Seq<T>) -> bool {
    forall|i: int, j: int| 0 <= i < j < s.len() ==> before(#[trigger] s[i], #[trigger] s[j])
}

/// Whether `before` never holds of a thing and itself, and holds of two
/// things whenever it holds of the first and a third and of the third and
/// the second.
pub open spec fn is_strict_order<T>(before: spec_fn(T, T) -> bool) -> bool {
    &&& forall|x: T| !#[trigger] before(x, x)
    &&& forall|x: T, y: T, z: T| #[trigger] before(x, y) && #[trigger] before(y, z) ==> before(x, z)
}

/// Two lists that hold the same things, each in strictly rising order, are
/// one list.
pub proof fn lemma_sorted_lists_equal<T>(before: spec_fn(T, T) -> bool, a: Seq<T>, b: Seq<T>)
    requires
        is_strict_order(before),
        strictly_sorted(before, a),
        strictly_sorted(before, b),
        forall|x: T| a.contains(x) <==> b.contains(x),
    ensures
        a == b,
    decreases a.len(),
{
    if a.len() == 0 {
        if b.len() > 0 {
            assert(b.contains(b[0]));
        }
        assert(a =~= b);
    } else {
        assert(a.contains(a[0]));
        let j = choose|j: int| 0 <= j < b.len() && b[j] == a[0];
        assert(b.contains(b[0]));
        let i = choose|i: int| 0 <= i < a.len() && a[i] == b[0];
        if i > 0 {
            assert(before(a[0], a[i]));
            if j > 0 {
                assert(before(b[0], b[j]));
            }
        }
        assert(a[0] == b[0]);
        let a1 = a.drop_first();
        let b1 = b.drop_first();
        assert forall|x: T| a1.contains(x) <==> b1.contains(x) by {
            if a1.contains(x) {
                let k = choose|k: int| 0 <= k < a1.len() && a1[k] == x;
                assert(a[k + 1] == x);
                assert(before(a[0], a[k + 1]));
                assert(a.contains(x));
                let m = choose|m: int| 0 <= m < b.len() && b[m] == x;
                assert(m > 0);
                assert(b1[m - 1] == x);
            }
            if b1.contains(x) {
                let k = choose|k: int| 0 <= k < b1.len() && b1[k] == x;
                assert(b[k + 1] == x);
                assert(before(b[0], b[k + 1]));
                assert(b.contains(x));
                let m = choose|m: int| 0 <= m < a.len() && a[m] == x;
                assert(m > 0);
                assert(a1[m - 1] == x);
            }
        }
        assert forall|p: int, q: int| 0 <= p < q < a1.len() implies before(
            #[trigger] a1[p],
            #[trigger] a1[q],
        ) by {
            assert(a1[p] == a[p + 1] && a1[q] == a[q + 1]);
        }
        assert forall|p: int, q: int| 0 <= p < q < b1.len() implies before(
            #[trigger] b1[p],
            #[trigger] b1[q],
        ) by {
            assert(b1[p] == b[p + 1] && b1[q] == b[q + 1]);
        }
        lemma_sorted_lists_equal(before, a1, b1);
        assert(a =~= seq![a[0]] + a1);
        assert(b =~= seq![b[0]] + b1);
    }
}

/// There is one order in which the entries of `keys` are shown.
pub proof fn lemma_sorted_order_unique(keys: Seq<(u64, Seq<char>)>, a: Seq<usize>, b: Seq<usize>)
    requires
        is_sorted_order(keys, a),
        is_sorted_order(keys, b),
    ensures
        a == b,
{
    let before = |i: usize, j: usize| entry_before(keys, i as int, j as int);
    assert forall|x: usize| !#[trigger] before(x, x) by {
        lemma_entry_before_irreflexive(keys, x as int);
    }
    assert forall|x: usize, y: usize, z: usize| #[trigger]
        before(x, y) && #[trigger] before(y, z) implies before(x, z) by {
        lemma_entry_before_transitive(keys, x as int, y as int, z as int);
    }
    assert forall|x: usize| a.contains(x) <==> b.contains(x) by {
        if a.contains(x) {
            let i = choose|i: int| 0 <= i < a.len() && a[i] == x;
            assert(lists(b, x as int));
            let j = choose|j: int| 0 <= j < b.len() && #[trigger] b[j] == x as int;
            assert(b[j] == x);
        }
        if b.contains(x) {
            let i = choose|i: int| 0 <= i < b.len() && b[i] == x;
            assert(lists(a, x as int));
            let j = choose|j: int| 0 <= j < a.len() && #[trigger] a[j] == x as int;
            assert(a[j] == x);
        }
    }
    lemma_sorted_lists_equal(before, a, b);
}

/// Whether entry `i` of `keys` is shown before entry `j`.
pub fn shown_before(keys: &Vec<SortKey>, i: usize, j: usize) -> (r: bool)
    requires
        i < keys.len(),
        j < keys.len(),
    ensures
        r == entry_before(key_views(keys@), i as int, j as int),
{
    let a = &keys[i];
    let b = &keys[j];
    if a.rank != b.rank {
        proof {
            if lex_less(a.text@, b.text@) {
            }
        }
        return a.rank < b.rank;
    }
    if comes_before(&a.text, &b.text) {
        return true;
    }
    if comes_before(&b.text, &a.text) {
        proof {
            lemma_lex_less_asymmetric(b.text@, a.text@);
            lemma_lex_less_irreflexive(a.text@);
        }
        return false;
    }
    proof {
        lemma_lex_less_total(a.text@, b.text@);
    }
    i < j
}

/// The indices of `keys` in the order in which the entries are shown.
pub fn sorted_order(keys: &Vec<SortKey>) -> (order: Vec<usize>)
    ensures
        is_sorted_order(key_views(keys@), order@),
{
    let n = keys.len();
    let mut order: Vec<usize> = Vec::new();
    let mut k: usize = 0;
    while k < n
        invariant
            n == keys.len(),
            k <= n,
            order.len() == k,
            forall|i: int| 0 <= i < order.len() ==> 0 <= #[trigger] order[i] < k,
            forall|m: int| 0 <= m < k ==> #[trigger] lists(order@, m),
            forall|i: int, j: int|
                0 <= i < j < order.len() ==> entry_before(
                    key_views(keys@),
                    #[trigger] order[i] as int,
                    #[trigger] order[j] as int,
                ),
        decreases n - k,
    {
        let mut p: usize = 0;
        while p < order.len() && !shown_before(keys, k, order[p])
            invariant
                n == keys.len(),
                k < n,
                p <= order.len(),
                order.len() == k,
                forall|i: int| 0 <= i < order.len() ==> 0 <= #[trigger] order[i] < k,
                forall|i: int| 0 <= i < p ==> entry_before(key_views(keys@), #[trigger] order[i] as int, k as int),
            decreases order.len() - p,
        {
            proof {
                lemma_entry_before_total(key_views(keys@), k as int, order[p as int] as int);
            }
            p += 1;
        }
        let ghost old_order = order@;
        order.insert(p, k);
        proof {
            assert forall|i: int, j: int| 0 <= i < j < order.len() implies entry_before(
                key_views(keys@),
                #[trigger] order[i] as int,
                #[trigger] order[j] as int,
            ) by {
                if j < p {
                    assert(order[i] == old_order[i] && order[j] == old_order[j]);
                } else if j == p {
                    assert(order[i] == old_order[i]);
                } else if i < p {
                    assert(order[i] == old_order[i] && order[j] == old_order[j - 1]);
                } else if i == p {
                    assert(order[j] == old_order[j - 1]);
                    if j - 1 > p {
                        lemma_entry_before_transitive(
                            key_views(keys@),
                            k as int,
                            old_order[p as int] as int,
                            old_order[j - 1] as int,
                        );
                    }
                } else {
                    assert(order[i] == old_order[i - 1] && order[j] == old_order[j - 1]);
                }
            }
            assert forall|m: int| 0 <= m < k + 1 implies #[trigger] lists(order@, m) by {
                if m == k {
                    assert(order[p as int] == m);
                } else {
                    assert(lists(old_order, m));
                    let i0 = choose|i: int| 0 <= i < old_order.len() && #[trigger] old_order[i] == m;
                    if i0 < p {
                        assert(order[i0] == m);
                    } else {
                        assert(order[i0 + 1] == m);
                    }
                }
            }
            assert forall|i: int| 0 <= i < order.len() implies 0 <= #[trigger] order[i] < k + 1 by {
                if i < p {
                    assert(order[i] == old_order[i]);
                } else if i > p {
                    assert(order[i] == old_order[i - 1]);
                }
            }
        }
        k += 1;
    }
    order
}

} // verus!
