//! Tables: lists whose entries are found again by a text key.

use crate::text::same;
use vstd::prelude::*;

verus! {

/// An entry that is found again by a text.
pub trait Keyed: Sized {
    /// The text this entry is found by.
    spec fn key(self) -> Seq<char>;

    /// The text this entry is found by.
    fn key_text(&self) -> (r: &str)
        ensures
            r@ == self.key(),
    ;
}

/// Whether an entry of `s` has this key.
pub open spec fn has_key<T: Keyed>(s: Seq<T>, key: Seq<char>) -> bool {
    exists|i: int| 0 <= i < s.len() && #[trigger] s[i].key() == key
}

/// The first entry of `s` with this key.
pub open spec fn lookup<T: Keyed>(s: Seq<T>, key: Seq<char>) -> Option<T>
    decreases s.len(),
{
    if s.len() == 0 {
        None
    } else if s[0].key() == key {
        Some(s[0])
    } else {
        lookup(s.skip(1), key)
    }
}

/// The position of the first entry of `s` with this key.
pub open spec fn key_at<T: Keyed>(s: Seq<T>, key: Seq<char>) -> Option<int>
    decreases s.len(),
{
    if s.len() == 0 {
        None
    } else if s[0].key() == key {
        Some(0)
    } else {
        match key_at(s.skip(1), key) {
            Some(i) => Some(i + 1),
            None => None,
        }
    }
}

/// `key_at` and `lookup` speak of the same entry.
pub proof fn lemma_key_at<T: Keyed>(s: Seq<T>, key: Seq<char>)
    ensures
        match key_at(s, key) {
            Some(i) => 0 <= i < s.len() && s[i].key() == key && lookup(s, key) == Some(s[i])
                && forall|j: int| 0 <= j < i ==> #[trigger] s[j].key() != key,
            None => lookup(s, key) is None,
        },
    decreases s.len(),
{
    if s.len() > 0 && s[0].key() != key {
        lemma_key_at(s.skip(1), key);
        if let Some(i) = key_at(s, key) {
            assert forall|j: int| 0 <= j < i implies #[trigger] s[j].key() != key by {
                if j > 0 {
                    assert(s.skip(1)[j - 1].key() != key);
                }
            }
        }
    }
}

/// The entries with another key than this.
pub open spec fn other_than<T: Keyed>(key: Seq<char>) -> spec_fn(T) -> bool {
    |t: T| t.key() != key
}

/// The entries of `s` that do not have this key.
pub open spec fn without<T: Keyed>(s: Seq<T>, key: Seq<char>) -> Seq<T> {
    s.filter(other_than(key))
}

/// No two entries share a key.
pub open spec fn distinct_keys<T: Keyed>(s: Seq<T>) -> bool {
    forall|i: int, j: int| 0 <= i < j < s.len() ==> #[trigger] s[i].key() != #[trigger] s[j].key()
}

/// `lookup` answers exactly on the keys that an entry has.
pub proof fn lemma_lookup<T: Keyed>(s: Seq<T>, key: Seq<char>)
    ensures
        lookup(s, key) is Some <==> has_key(s, key),
        lookup(s, key) matches Some(t) ==> t.key() == key && s.contains(t),
    decreases s.len(),
{
    if s.len() > 0 {
        lemma_lookup(s.skip(1), key);
        if s[0].key() != key {
            if has_key(s, key) {
                let i = choose|i: int| 0 <= i < s.len() && #[trigger] s[i].key() == key;
                assert(s.skip(1)[i - 1].key() == key);
            }
            if has_key(s.skip(1), key) {
                let i = choose|i: int|
                    0 <= i < s.skip(1).len() && #[trigger] s.skip(1)[i].key() == key;
                assert(s[i + 1].key() == key);
            }
            if lookup(s, key) is Some {
                let t = lookup(s, key)->0;
                let i = choose|i: int| 0 <= i < s.skip(1).len() && s.skip(1)[i] == t;
                assert(s[i + 1] == t);
            }
        } else {
            assert(s[0].key() == key);
        }
    }
}

/// An entry at a position before which the key does not occur is the one that
/// `lookup` finds.
pub proof fn lemma_lookup_at<T: Keyed>(s: Seq<T>, key: Seq<char>, i: int)
    requires
        0 <= i < s.len(),
        s[i].key() == key,
        forall|j: int| 0 <= j < i ==> #[trigger] s[j].key() != key,
    ensures
        lookup(s, key) == Some(s[i]),
    decreases i,
{
    if i > 0 {
        assert(s[0].key() != key);
        assert forall|j: int| 0 <= j < i - 1 implies #[trigger] s.skip(1)[j].key() != key by {
            assert(s[j + 1].key() != key);
        }
        lemma_lookup_at(s.skip(1), key, i - 1);
    }
}

/// Removing a key leaves no entry with it and every other entry findable as
/// before.
pub proof fn lemma_without<T: Keyed>(s: Seq<T>, key: Seq<char>)
    ensures
        !has_key(without(s, key), key),
        lookup(without(s, key), key) is None,
        forall|k: Seq<char>|
            k != key ==> #[trigger] lookup(without(s, key), k) == lookup(s, k),
        distinct_keys(s) ==> distinct_keys(without(s, key)),
        !has_key(s, key) ==> without(s, key) == s,
        forall|t: T| #[trigger] without(s, key).contains(t) ==> s.contains(t) && t.key() != key,
        without(s, key).len() <= s.len(),
    decreases s.len(),
{
    let p = other_than::<T>(key);
    reveal(Seq::filter);
    broadcast use vstd::seq_lib::group_filter_ensures;

    if s.len() > 0 {
        let d = s.drop_last();
        let x = s.last();
        lemma_without(d, key);
        assert(s =~= d.push(x));
        let w = without(d, key);
        if x.key() != key {
            assert(without(s, key) == w.push(x));
        } else {
            assert(without(s, key) == w);
        }
        assert forall|k: Seq<char>| k != key implies #[trigger] lookup(without(s, key), k)
            == lookup(s, k) by {
            lemma_lookup_push(d, x, k);
            lemma_lookup_push(w, x, k);
            assert(lookup(w, k) == lookup(d, k));
        }
        if distinct_keys(s) {
            assert(distinct_keys(d)) by {
                assert forall|i: int, j: int| 0 <= i < j < d.len() implies #[trigger] d[i].key()
                    != #[trigger] d[j].key() by {
                    assert(s[i] == d[i] && s[j] == d[j]);
                }
            }
            let r = without(s, key);
            assert forall|i: int, j: int| 0 <= i < j < r.len() implies #[trigger] r[i].key()
                != #[trigger] r[j].key() by {
                if x.key() != key && j == w.len() {
                    assert(w.contains(w[i]));
                    assert(d.contains(w[i]));
                    let m = choose|m: int| 0 <= m < d.len() && d[m] == w[i];
                    assert(s[m].key() != s[s.len() - 1].key());
                } else {
                    assert(w[i].key() != w[j].key());
                }
            }
        }
        if !has_key(s, key) {
            assert(!has_key(d, key)) by {
                assert forall|i: int| 0 <= i < d.len() implies #[trigger] d[i].key() != key by {
                    assert(s[i].key() != key);
                }
            }
            assert(s[s.len() - 1].key() != key);
            assert(without(s, key) =~= s);
        }
    } else {
        assert(without(s, key) =~= s);
    }
    assert forall|t: T| #[trigger] without(s, key).contains(t) implies s.contains(t) && t.key()
        != key by {
        let r = without(s, key);
        let i = choose|i: int| 0 <= i < r.len() && r[i] == t;
        assert(p(s.filter(p)[i]));
        if s.len() > 0 {
            let d = s.drop_last();
            let w = without(d, key);
            if i < w.len() {
                assert(w[i] == t);
                assert(w.contains(t));
                let m = choose|m: int| 0 <= m < d.len() && d[m] == t;
                assert(s[m] == t);
            } else {
                assert(s[s.len() - 1] == t);
            }
        }
    }
    assert(!has_key(without(s, key), key)) by {
        let r = without(s, key);
        assert forall|i: int| 0 <= i < r.len() implies #[trigger] r[i].key() != key by {
            assert(p(s.filter(p)[i]));
        }
    }
    lemma_lookup(without(s, key), key);
}

/// What `lookup` finds once an entry was added at the end.
pub proof fn lemma_lookup_push<T: Keyed>(s: Seq<T>, x: T, key: Seq<char>)
    ensures
        lookup(s.push(x), key) == (if lookup(s, key) is Some {
            lookup(s, key)
        } else if x.key() == key {
            Some(x)
        } else {
            None
        }),
    decreases s.len(),
{
    if s.len() == 0 {
        assert(s.push(x).skip(1) =~= Seq::<T>::empty());
        assert(lookup(s.push(x).skip(1), key) is None);
        assert(s.push(x)[0] == x);
    } else {
        assert(s.push(x)[0] == s[0]);
        assert(s.push(x).skip(1) =~= s.skip(1).push(x));
        lemma_lookup_push(s.skip(1), x, key);
    }
}

/// `s` with `x` in the place of any entry that has its key.
pub open spec fn with_entry<T: Keyed>(s: Seq<T>, x: T) -> Seq<T> {
    without(s, x.key()).push(x)
}

/// A stored entry is found by its key, every other entry as before, and keys
/// stay distinct.
pub proof fn law_stored_entry_is_found<T: Keyed>(s: Seq<T>, x: T)
    ensures
        lookup(with_entry(s, x), x.key()) == Some(x),
        forall|k: Seq<char>|
            k != x.key() ==> #[trigger] lookup(with_entry(s, x), k) == lookup(s, k),
        distinct_keys(s) ==> distinct_keys(with_entry(s, x)),
{
    lemma_without(s, x.key());
    let w = without(s, x.key());
    lemma_lookup_push(w, x, x.key());
    assert forall|k: Seq<char>| k != x.key() implies #[trigger] lookup(with_entry(s, x), k)
        == lookup(s, k) by {
        lemma_lookup_push(w, x, k);
    }
    if distinct_keys(s) {
        let r = with_entry(s, x);
        assert forall|i: int, j: int| 0 <= i < j < r.len() implies #[trigger] r[i].key()
            != #[trigger] r[j].key() by {
            if j == w.len() {
                assert(w[i].key() != x.key());
            } else {
                assert(w[i].key() != w[j].key());
            }
        }
    }
}

/// The position of the first entry with this key.
pub fn position<T: Keyed>(v: &Vec<T>, key: &str) -> (r: Option<usize>)
    ensures
        match r {
            Some(i) => i < v@.len() && v@[i as int].key() == key@ && lookup(v@, key@) == Some(
                v@[i as int],
            ) && has_key(v@, key@) && key_at(v@, key@) == Some(i as int),
            None => !has_key(v@, key@) && lookup(v@, key@) is None && key_at(v@, key@) is None,
        },
{
    let mut i: usize = 0;
    while i < v.len()
        invariant
            i <= v.len(),
            forall|j: int| 0 <= j < i ==> #[trigger] v@[j].key() != key@,
        decreases v.len() - i,
    {
        if same(v[i].key_text(), key) {
            proof {
                lemma_lookup_at(v@, key@, i as int);
                lemma_lookup(v@, key@);
                lemma_key_at(v@, key@);
                let k = key_at(v@, key@)->0;
                if k < i {
                    assert(v@[k].key() != key@);
                } else if i < k {
                    assert(v@[i as int].key() != key@);
                }
            }
            return Some(i);
        }
        i = i + 1;
    }
    proof {
        lemma_lookup(v@, key@);
        lemma_key_at(v@, key@);
    }
    None
}

/// The first entry with this key.
pub fn find<'a, T: Keyed>(v: &'a Vec<T>, key: &str) -> (r: Option<&'a T>)
    ensures
        match r {
            Some(t) => lookup(v@, key@) == Some(*t) && t.key() == key@ && has_key(v@, key@),
            None => lookup(v@, key@) is None && !has_key(v@, key@),
        },
{
    match position(v, key) {
        Some(i) => Some(&v[i]),
        None => None,
    }
}

/// A test that entries are kept by.
pub trait Filter<T> {
    /// The entries that pass.
    spec fn keeps(&self) -> spec_fn(T) -> bool;

    /// Whether `t` passes.
    fn test(&self, t: &T) -> (b: bool)
        ensures
            b == (self.keeps())(*t),
    ;
}

/// Keeps the entries that pass the test, in their order.
pub fn retain<T, F: Filter<T>>(v: &mut Vec<T>, keep: &F)
    ensures
        final(v)@ == old(v)@.filter(keep.keeps()),
{
    let ghost p = keep.keeps();
    let ghost all = v@;
    let mut i: usize = 0;
    let ghost mut done: int = 0;
    assert(all.take(0).filter(p) =~= Seq::<T>::empty()) by {
        reveal(Seq::filter);
    }
    while i < v.len()
        invariant
            p == keep.keeps(),
            0 <= done <= all.len(),
            i <= v.len(),
            v@.take(i as int) == all.take(done).filter(p),
            v@.skip(i as int) == all.skip(done),
        decreases v.len() - i,
    {
        proof {
            reveal(Seq::filter);
            assert(v@.skip(i as int).len() == all.skip(done).len());
            assert(v@[i as int] == v@.skip(i as int)[0]);
            assert(all.skip(done)[0] == all[done]);
            assert(all.take(done + 1).drop_last() =~= all.take(done));
            assert(all.skip(done).skip(1) =~= all.skip(done + 1));
        }
        let ghost before = v@;
        if keep.test(&v[i]) {
            i = i + 1;
            proof {
                assert(v@.take(i as int) =~= before.take(i - 1).push(all[done]));
                assert(v@.skip(i as int) =~= before.skip(i - 1).skip(1));
                done = done + 1;
            }
        } else {
            v.remove(i);
            proof {
                assert(v@.take(i as int) =~= before.take(i as int));
                assert(v@.skip(i as int) =~= before.skip(i as int).skip(1));
                done = done + 1;
            }
        }
    }
    proof {
        assert(v@.take(i as int) =~= v@);
        assert(all.skip(done).len() == 0);
        assert(all.take(done) =~= all);
    }
}

/// Passes the entries with another key than this.
pub struct NotKey<'a> {
    pub key: &'a str,
}

impl<'a, T: Keyed> Filter<T> for NotKey<'a> {
    open spec fn keeps(&self) -> spec_fn(T) -> bool {
        other_than(self.key@)
    }

    fn test(&self, t: &T) -> bool {
        !same(t.key_text(), self.key)
    }
}

/// Takes every entry with this key out; tells whether there was one.
pub fn remove_key<T: Keyed>(v: &mut Vec<T>, key: &str) -> (r: bool)
    ensures
        final(v)@ == without(old(v)@, key@),
        r == has_key(old(v)@, key@),
{
    let found = position(v, key).is_some();
    retain(v, &NotKey { key });
    found
}

/// Stores `x` in the place of any entry that has its key.
pub fn put<T: Keyed>(v: &mut Vec<T>, x: T)
    ensures
        final(v)@ == with_entry(old(v)@, x),
{
    let _ = remove_key(v, x.key_text());
    v.push(x);
}

} // verus!
