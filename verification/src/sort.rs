//! A stable sort over any ranked item.

use vstd::prelude::*;

verus! {

/// Items with a total, transitive rank.
pub trait Ranked: Sized {
    /// `self` may stand before `other`.
    spec fn le(self, other: Self) -> bool;

    proof fn le_total(a: Self, b: Self)
        ensures
            a.le(b) || b.le(a),
    ;

    proof fn le_trans(a: Self, b: Self, c: Self)
        requires
            a.le(b),
            b.le(c),
        ensures
            a.le(c),
    ;

    /// Whether `self` may stand before `other`.
    fn ranks(&self, other: &Self) -> (r: bool)
        ensures
            r == self.le(*other),
    ;
}

/// Whether the two items have the same rank.
pub open spec fn tied<T: Ranked>(a: T, b: T) -> bool {
    a.le(b) && b.le(a)
}

/// Whether every item may stand before the later ones.
pub open spec fn in_order<T: Ranked>(s: Seq<T>) -> bool {
    forall|i: int, j: int| 0 <= i < j < s.len() ==> (#[trigger] s[i]).le(#[trigger] s[j])
}

/// The items of `s` with the rank of `x`, in their order in `s`.
pub open spec fn ties_of<T: Ranked>(s: Seq<T>, x: T) -> Seq<T> {
    s.filter(|y: T| tied(x, y))
}

/// `t` holds the items of `s` in rank order, and items of one rank in the
/// order that they had in `s`.
pub open spec fn is_stable_sort_of<T: Ranked>(t: Seq<T>, s: Seq<T>) -> bool {
    &&& in_order(t)
    &&& t.to_multiset() == s.to_multiset()
    &&& forall|x: T| #[trigger] ties_of(t, x) == ties_of(s, x)
}

proof fn lemma_no_ties<T: Ranked>(s: Seq<T>, x: T)
    requires
        forall|i: int| 0 <= i < s.len() ==> !tied(x, #[trigger] s[i]),
    ensures
        ties_of(s, x) == Seq::<T>::empty(),
    decreases s.len(),
{
    reveal(Seq::filter);
    if s.len() > 0 {
        assert forall|i: int| 0 <= i < s.drop_last().len() implies !tied(
            x,
            #[trigger] s.drop_last()[i],
        ) by {
            assert(s.drop_last()[i] == s[i]);
        }
        lemma_no_ties(s.drop_last(), x);
    }
}

proof fn lemma_insert<T: Ranked>(t: Seq<T>, s: Seq<T>, p: int, x: T)
    requires
        is_stable_sort_of(t, s),
        0 <= p <= t.len(),
        forall|i: int| 0 <= i < p ==> (#[trigger] t[i]).le(x),
        forall|i: int| p <= i < t.len() ==> !(#[trigger] t[i]).le(x),
    ensures
        is_stable_sort_of(t.insert(p, x), s.push(x)),
{
    let n = t.insert(p, x);
    assert forall|i: int, j: int| 0 <= i < j < n.len() implies (#[trigger] n[i]).le(
        #[trigger] n[j],
    ) by {
        if i < p {
            assert(n[i] == t[i]);
            if j > p {
                assert(n[j] == t[j - 1]);
            } else if j < p {
                assert(n[j] == t[j]);
            }
        } else if i == p {
            assert(n[j] == t[j - 1]);
            T::le_total(x, t[j - 1]);
        } else {
            assert(n[i] == t[i - 1] && n[j] == t[j - 1]);
        }
    }
    let l = t.take(p);
    let r = t.skip(p);
    assert(t =~= l + r);
    assert(n =~= l + seq![x] + r);
    vstd::seq_lib::lemma_multiset_commutative(l, r);
    vstd::seq_lib::lemma_multiset_commutative(l + seq![x], r);
    vstd::seq_lib::lemma_multiset_commutative(l, seq![x]);
    vstd::seq_lib::lemma_multiset_commutative(s, seq![x]);
    assert(s.push(x) =~= s + seq![x]);
    assert(n.to_multiset() =~= s.push(x).to_multiset());
    assert forall|z: T| #[trigger] ties_of(n, z) == ties_of(s.push(x), z) by {
        let f = |y: T| tied(z, y);
        Seq::<T>::filter_distributes_over_add(l + seq![x], r, f);
        Seq::<T>::filter_distributes_over_add(l, seq![x], f);
        Seq::<T>::filter_distributes_over_add(l, r, f);
        Seq::<T>::filter_distributes_over_add(s, seq![x], f);
        assert(ties_of(t, z) == ties_of(s, z));
        if tied(z, x) {
            assert forall|i: int| 0 <= i < r.len() implies !tied(z, #[trigger] r[i]) by {
                assert(r[i] == t[p + i]);
                if tied(z, r[i]) {
                    T::le_trans(r[i], z, x);
                }
            }
            lemma_no_ties(r, z);
            assert(l.filter(f) + r.filter(f) =~= l.filter(f));
            assert(l.filter(f) + seq![x].filter(f) + r.filter(f) =~= l.filter(f) + seq![x].filter(
                f,
            ));
        } else {
            assert forall|i: int| 0 <= i < seq![x].len() implies !tied(
                z,
                #[trigger] seq![x][i],
            ) by {}
            lemma_no_ties(seq![x], z);
            assert(l.filter(f) + seq![x].filter(f) + r.filter(f) =~= l.filter(f) + r.filter(f));
            assert(s.filter(f) + seq![x].filter(f) =~= s.filter(f));
        }
    }
}

/// The items of `v` in rank order; items of one rank keep their order.
pub fn stable_sort<T: Ranked>(v: Vec<T>) -> (out: Vec<T>)
    ensures
        is_stable_sort_of(out@, v@),
{
    let mut v = v;
    let mut out: Vec<T> = Vec::new();
    let ghost all = v@;
    let ghost mut done: Seq<T> = Seq::empty();
    assert(done + v@ =~= all);
    while v.len() > 0
        invariant
            done + v@ == all,
            is_stable_sort_of(out@, done),
        decreases v.len(),
    {
        let ghost rest = v@;
        let x = v.remove(0);
        let mut p: usize = out.len();
        while p > 0 && !out[p - 1].ranks(&x)
            invariant
                p <= out.len(),
                forall|i: int| p <= i < out.len() ==> !(#[trigger] out@[i]).le(x),
            decreases p,
        {
            p = p - 1;
        }
        proof {
            assert forall|i: int| 0 <= i < p implies (#[trigger] out@[i]).le(x) by {
                if i < p - 1 {
                    T::le_trans(out@[i], out@[p - 1], x);
                }
            }
            lemma_insert(out@, done, p as int, x);
            assert(rest =~= seq![x] + v@);
            assert(done.push(x) + v@ =~= done + rest);
            done = done.push(x);
        }
        out.insert(p, x);
    }
    assert(done + v@ =~= done);
    out
}

} // verus!
