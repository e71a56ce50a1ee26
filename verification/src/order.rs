//! Sorting records by a text key, in the order of `String`.
use vstd::multiset::Multiset;
use vstd::prelude::*;

use crate::text::{lemma_lex_le_total, lemma_lex_le_trans, lex_le, lex_le_chars};

verus! {

/// A record ordered by a text key.
pub trait Keyed: Sized {
    spec fn key_view(&self) -> Seq<char>;

    fn key_chars(&self) -> (k: Vec<char>)
        ensures
            k@ == self.key_view(),
    ;
}

/// Whether key `a` may stand before key `b`.
pub open spec fn in_order(a: Seq<char>, b: Seq<char>, descending: bool) -> bool {
    if descending {
        lex_le(b, a)
    } else {
        lex_le(a, b)
    }
}

/// Every record's key may stand before the keys of all records after it.
pub open spec fn sorted_by_key<T: Keyed>(s: Seq<T>, descending: bool) -> bool {
    forall|i: int, j: int|
        0 <= i < j < s.len() ==> in_order(#[trigger] s[i].key_view(), #[trigger] s[j].key_view(), descending)
}

proof fn lemma_in_order_total(a: Seq<char>, b: Seq<char>, descending: bool)
    ensures
        in_order(a, b, descending) || in_order(b, a, descending),
{
    lemma_lex_le_total(a, b);
}

proof fn lemma_in_order_trans(a: Seq<char>, b: Seq<char>, c: Seq<char>, descending: bool)
    requires
        in_order(a, b, descending),
        in_order(b, c, descending),
    ensures
        in_order(a, c, descending),
{
    if descending {
        lemma_lex_le_trans(c, b, a);
    } else {
        lemma_lex_le_trans(a, b, c);
    }
}

fn in_order_exec(a: &Vec<char>, b: &Vec<char>, descending: bool) -> (res: bool)
    ensures
        res == in_order(a@, b@, descending),
{
    if descending {
        lex_le_chars(b, a)
    } else {
        lex_le_chars(a, b)
    }
}

/// The records of `items`, sorted by key (ascending, or descending when
/// `descending` is set).
pub fn sort_by_key<T: Keyed>(items: Vec<T>, descending: bool) -> (res: Vec<T>)
    ensures
        res@.to_multiset() == items@.to_multiset(),
        sorted_by_key(res@, descending),
{
    broadcast use vstd::seq_lib::group_to_multiset_ensures;
    broadcast use vstd::multiset::group_multiset_axioms;

    let mut rest = items;
    let mut res: Vec<T> = Vec::new();
    assert(res@.to_multiset() =~= Multiset::<T>::empty());
    assert(res@.to_multiset().add(rest@.to_multiset()) =~= items@.to_multiset());
    while rest.len() > 0
        invariant
            res@.to_multiset().add(rest@.to_multiset()) == items@.to_multiset(),
            sorted_by_key(res@, descending),
        decreases rest.len(),
    {
        let ghost before = rest@;
        let x = rest.pop().unwrap();
        assert(before =~= rest@.push(x));
        let kx = x.key_chars();
        let mut j: usize = 0;
        while j < res.len() && in_order_exec(&res[j].key_chars(), &kx, descending)
            invariant
                j <= res.len(),
                kx@ == x.key_view(),
                forall|k: int| 0 <= k < j ==> in_order(#[trigger] res@[k].key_view(), kx@, descending),
            decreases res.len() - j,
        {
            j = j + 1;
        }
        let ghost old_res = res@;
        proof {
            if j < res.len() {
                lemma_in_order_total(old_res[j as int].key_view(), x.key_view(), descending);
            }
            assert forall|k: int| j <= k < old_res.len() implies in_order(
                x.key_view(),
                #[trigger] old_res[k].key_view(),
                descending,
            ) by {
                if k > j {
                    lemma_in_order_trans(x.key_view(), old_res[j as int].key_view(), old_res[k].key_view(), descending);
                }
            }
        }
        res.insert(j, x);
        proof {
            vstd::seq_lib::to_multiset_insert(old_res, j as int, x);
            assert(res@ == old_res.insert(j as int, x));
            assert forall|a: int, b: int| 0 <= a < b < res@.len() implies in_order(
                #[trigger] res@[a].key_view(),
                #[trigger] res@[b].key_view(),
                descending,
            ) by {
                if b < j {
                    assert(res@[a] == old_res[a] && res@[b] == old_res[b]);
                } else if b == j {
                    assert(res@[a] == old_res[a]);
                } else if a == j {
                    assert(res@[b] == old_res[b - 1]);
                    assert(in_order(x.key_view(), old_res[b - 1].key_view(), descending));
                } else if a < j {
                    assert(res@[a] == old_res[a] && res@[b] == old_res[b - 1]);
                    assert(in_order(old_res[a].key_view(), x.key_view(), descending));
                    assert(in_order(x.key_view(), old_res[b - 1].key_view(), descending));
                    lemma_in_order_trans(old_res[a].key_view(), x.key_view(), old_res[b - 1].key_view(), descending);
                } else {
                    assert(res@[a] == old_res[a - 1] && res@[b] == old_res[b - 1]);
                }
            }
            vstd::seq_lib::to_multiset_build(rest@, x);
            assert(before.to_multiset() =~= rest@.to_multiset().insert(x));
            assert(res@.to_multiset() =~= old_res.to_multiset().insert(x));
            assert(res@.to_multiset().add(rest@.to_multiset()) =~= old_res.to_multiset().add(
                before.to_multiset(),
            ));
        }
    }
    assert(rest@.to_multiset() =~= Multiset::<T>::empty());
    assert(res@.to_multiset() =~= items@.to_multiset());
    res
}

/// Rearranging a sequence rearranges its image under `f` alike.
pub proof fn lemma_map_multiset<A, B>(a: Seq<A>, b: Seq<A>, f: spec_fn(A) -> B)
    requires
        a.to_multiset() == b.to_multiset(),
    ensures
        a.map_values(f).to_multiset() == b.map_values(f).to_multiset(),
    decreases a.len(),
{
    broadcast use vstd::seq_lib::group_to_multiset_ensures;
    broadcast use vstd::multiset::group_multiset_axioms;

    if a.len() == 0 {
        vstd::seq_lib::to_multiset_len(a);
        vstd::seq_lib::to_multiset_len(b);
        assert(b.len() == 0);
        assert(a.map_values(f) =~= b.map_values(f));
    } else {
        let x = a.last();
        let a0 = a.drop_last();
        assert(a =~= a0.push(x));
        assert(a.to_multiset().count(x) > 0);
        assert(b.contains(x));
        let i = choose|i: int| 0 <= i < b.len() && b[i] == x;
        let b0 = b.remove(i);
        assert(b0.to_multiset() =~= b.to_multiset().remove(x));
        assert(a0.to_multiset() =~= a.to_multiset().remove(x));
        lemma_map_multiset(a0, b0, f);
        assert(a.map_values(f) =~= a0.map_values(f).push(f(x)));
        assert(b.map_values(f).remove(i) =~= b0.map_values(f));
        assert(b.map_values(f)[i] == f(x));
        assert(b.map_values(f).remove(i).to_multiset() =~= b.map_values(f).to_multiset().remove(f(x)));
        assert(b.map_values(f).to_multiset().count(f(x)) > 0) by {
            assert(b.map_values(f).contains(f(x)));
        }
        assert(a.map_values(f).to_multiset() =~= b.map_values(f).to_multiset());
    }
}

} // verus!
