//! A small keyed collection of configuration entries.
//!
//! The stored document keys providers, model aliases and auth profiles by
//! name. The collection here keeps those entries as a vector of
//! `(name, value)` pairs whose keys are unique, and its operations carry
//! map-like contracts: what a lookup returns, and how an insert or a
//! removal changes the lookups of every key.

use vstd::prelude::*;

verus! {

/// First value bound to `k` among the keyed entries `s`, scanning left
/// to right.
pub open spec fn assoc_get<T>(s: Seq<(Seq<char>, T)>, k: Seq<char>) -> Option<T>
    decreases s.len(),
{
    if s.len() == 0 {
        None
    } else if s[0].0 == k {
        Some(s[0].1)
    } else {
        assoc_get(s.drop_first(), k)
    }
}

/// Whether some entry of `s` is keyed by `k`.
pub open spec fn assoc_has_key<T>(s: Seq<(Seq<char>, T)>, k: Seq<char>) -> bool {
    exists|i: int| 0 <= i < s.len() && s[i].0 == k
}

/// No two entries of `s` share a key.
pub open spec fn assoc_unique_keys<T>(s: Seq<(Seq<char>, T)>) -> bool {
    forall|i: int, j: int| 0 <= i < j < s.len() ==> s[i].0 != s[j].0
}

/// A lookup succeeds exactly on the keys that occur in `s`.
pub proof fn lemma_assoc_get_some_iff_has_key<T>(s: Seq<(Seq<char>, T)>, k: Seq<char>)
    ensures
        assoc_has_key(s, k) <==> assoc_get(s, k) is Some,
    decreases s.len(),
{
    if s.len() == 0 {
    } else if s[0].0 == k {
        assert(assoc_has_key(s, k));
    } else {
        lemma_assoc_get_some_iff_has_key(s.drop_first(), k);
        assert forall|i: int| 0 <= i < s.len() && s[i].0 == k implies assoc_has_key(
            s.drop_first(),
            k,
        ) by {
            assert(s.drop_first()[i - 1] == s[i]);
        }
        if assoc_has_key(s.drop_first(), k) {
            let i = choose|i: int| 0 <= i < s.drop_first().len() && s.drop_first()[i].0 == k;
            assert(s[i + 1].0 == k);
        }
    }
}

/// A lookup returns the value at the first index whose key matches.
pub proof fn lemma_assoc_get_at_first_match<T>(s: Seq<(Seq<char>, T)>, k: Seq<char>, i: int)
    requires
        0 <= i < s.len(),
        s[i].0 == k,
        forall|j: int| 0 <= j < i ==> s[j].0 != k,
    ensures
        assoc_get(s, k) == Some(s[i].1),
    decreases s.len(),
{
    if i == 0 {
    } else {
        assert(s[0].0 != k);
        assert(s.drop_first()[i - 1] == s[i]);
        assert forall|j: int| 0 <= j < i - 1 implies s.drop_first()[j].0 != k by {
            assert(s.drop_first()[j] == s[j + 1]);
        }
        lemma_assoc_get_at_first_match(s.drop_first(), k, i - 1);
    }
}

/// Removing the entry at index `i` removes `i`'s key from the lookups and
/// leaves every other key's lookup unchanged, provided keys are unique.
pub proof fn lemma_assoc_get_remove<T>(s: Seq<(Seq<char>, T)>, i: int, k2: Seq<char>)
    requires
        assoc_unique_keys(s),
        0 <= i < s.len(),
    ensures
        assoc_get(s.remove(i), k2) == if k2 == s[i].0 {
            None::<T>
        } else {
            assoc_get(s, k2)
        },
        assoc_unique_keys(s.remove(i)),
    decreases s.len(),
{
    let r = s.remove(i);
    assert forall|a: int, b: int| 0 <= a < b < r.len() implies r[a].0 != r[b].0 by {
        let a0: int = if a < i { a } else { a + 1 };
        let b0: int = if b < i { b } else { b + 1 };
        assert(r[a] == s[a0] && r[b] == s[b0]);
    }
    if i == 0 {
        assert(r =~= s.drop_first());
        if k2 == s[0].0 {
            lemma_assoc_get_some_iff_has_key(r, k2);
            if assoc_has_key(r, k2) {
                let j = choose|j: int| 0 <= j < r.len() && r[j].0 == k2;
                assert(s[j + 1].0 == s[0].0);
            }
        }
    } else {
        assert(s[0].0 != s[i].0);
        if k2 == s[0].0 {
            assert(r[0] == s[0]);
        } else {
            assert(r.drop_first() =~= s.drop_first().remove(i - 1));
            assert forall|a: int, b: int| 0 <= a < b < s.drop_first().len() implies s.drop_first()[a].0
                != s.drop_first()[b].0 by {
                assert(s.drop_first()[a] == s[a + 1] && s.drop_first()[b] == s[b + 1]);
            }
            assert(s.drop_first()[i - 1] == s[i]);
            lemma_assoc_get_remove(s.drop_first(), i - 1, k2);
            assert(r[0] == s[0]);
        }
    }
}

/// Appending an entry with a fresh key binds that key and leaves every
/// other key's lookup unchanged.
pub proof fn lemma_assoc_get_push<T>(s: Seq<(Seq<char>, T)>, k: Seq<char>, v: T, k2: Seq<char>)
    requires
        !assoc_has_key(s, k),
    ensures
        assoc_get(s.push((k, v)), k2) == if k2 == k {
            Some(v)
        } else {
            assoc_get(s, k2)
        },
    decreases s.len(),
{
    let p = s.push((k, v));
    if s.len() == 0 {
        assert(p[0] == (k, v));
        if k2 != k {
            assert(p.drop_first() =~= Seq::<(Seq<char>, T)>::empty());
        }
    } else {
        assert(p[0] == s[0]);
        assert(s[0].0 != k);
        if k2 == s[0].0 {
        } else {
            assert forall|i: int| 0 <= i < s.drop_first().len() implies s.drop_first()[i].0 != k by {
                assert(s.drop_first()[i] == s[i + 1]);
            }
            if assoc_has_key(s.drop_first(), k) {
                let j = choose|j: int| 0 <= j < s.drop_first().len() && s.drop_first()[j].0 == k;
                assert(s.drop_first()[j] == s[j + 1]);
                assert(s[j + 1].0 == k);
                assert(assoc_has_key(s, k));
            }
            assert(p.drop_first() =~= s.drop_first().push((k, v)));
            lemma_assoc_get_push(s.drop_first(), k, v, k2);
            assert(assoc_get(p, k2) == assoc_get(p.drop_first(), k2));
            assert(assoc_get(s, k2) == assoc_get(s.drop_first(), k2));
        }
    }
}

/// Keyed entries with unique keys. The view is the sequence of
/// `(key characters, value)` pairs; lookups are specified by
/// [`assoc_get`] over that view.
#[derive(Debug)]
pub struct Dict<T> {
    entries: Vec<(String, T)>,
}

impl<T> View for Dict<T> {
    type V = Seq<(Seq<char>, T)>;

    closed spec fn view(&self) -> Seq<(Seq<char>, T)> {
        self.entries@.map_values(|e: (String, T)| (e.0@, e.1))
    }
}

impl<T> Dict<T> {
    /// Keys are unique; every operation preserves this.
    pub open spec fn wf(&self) -> bool {
        assoc_unique_keys(self@)
    }

    /// Value bound to the key whose characters are `k`.
    pub open spec fn spec_get(&self, k: Seq<char>) -> Option<T> {
        assoc_get(self@, k)
    }

    /// Whether the key whose characters are `k` is present.
    pub open spec fn spec_contains_key(&self, k: Seq<char>) -> bool {
        assoc_has_key(self@, k)
    }

    pub fn new() -> (r: Dict<T>)
        ensures
            r@ =~= Seq::<(Seq<char>, T)>::empty(),
            r.wf(),
    {
        Dict { entries: Vec::new() }
    }

    pub fn len(&self) -> (r: usize)
        ensures
            r == self@.len(),
    {
        self.entries.len()
    }

    pub fn is_empty(&self) -> (r: bool)
        ensures
            r == (self@.len() == 0),
    {
        self.entries.is_empty()
    }

    /// Index of the first entry keyed by `k`, if any.
    fn index_of(&self, k: &String) -> (r: Option<usize>)
        ensures
            match r {
                Some(i) => i < self@.len() && self@[i as int].0 == k@ && forall|j: int|
                    0 <= j < i ==> self@[j].0 != k@,
                None => !self.spec_contains_key(k@),
            },
    {
        let n = self.entries.len();
        let mut i: usize = 0;
        while i < n
            invariant
                n == self@.len(),
                i <= n,
                forall|j: int| 0 <= j < i ==> self@[j].0 != k@,
            decreases n - i,
        {
            if self.entries[i].0.eq(k) {
                assert(self@[i as int].0 == k@);
                return Some(i);
            }
            assert(self@[i as int].0 != k@);
            i = i + 1;
        }
        None
    }

    pub fn contains_key(&self, k: &String) -> (r: bool)
        ensures
            r == self.spec_contains_key(k@),
    {
        match self.index_of(k) {
            Some(_) => true,
            None => false,
        }
    }

    pub fn get(&self, k: &String) -> (r: Option<&T>)
        requires
            self.wf(),
        ensures
            match r {
                Some(v) => self.spec_get(k@) == Some(*v),
                None => self.spec_get(k@) is None,
            },
    {
        match self.index_of(k) {
            Some(i) => {
                proof {
                    lemma_assoc_get_at_first_match(self@, k@, i as int);
                }
                Some(&self.entries[i].1)
            },
            None => {
                proof {
                    lemma_assoc_get_some_iff_has_key(self@, k@);
                }
                None
            },
        }
    }

    /// Binds `k` to `v`, replacing any entry `k` was bound to.
    pub fn insert(&mut self, k: String, v: T)
        requires
            old(self).wf(),
        ensures
            final(self).wf(),
            final(self).spec_get(k@) == Some(v),
            forall|k2: Seq<char>| k2 != k@ ==> final(self).spec_get(k2) == old(self).spec_get(k2),
            forall|k2: Seq<char>| #[trigger] final(self).spec_contains_key(k2) == (
                old(self).spec_contains_key(k2) || k2 == k@),
            final(self)@.len() == if old(self).spec_contains_key(k@) {
                old(self)@.len()
            } else {
                old(self)@.len() + 1
            },
    {
        let ghost pre = self@;
        let ghost kv = k@;
        let found = self.index_of(&k);
        match found {
            Some(i) => {
                self.entries.remove(i);
                proof {
                    assert(self@ =~= pre.remove(i as int));
                }
            },
            None => {},
        }
        let ghost mid = self@;
        proof {
            match found {
                Some(i) => {
                    lemma_assoc_get_remove(pre, i as int, kv);
                    lemma_assoc_get_some_iff_has_key(mid, kv);
                },
                None => {
                    lemma_assoc_get_some_iff_has_key(mid, kv);
                    lemma_assoc_get_some_iff_has_key(pre, kv);
                },
            }
            assert(!assoc_has_key(mid, kv));
            assert(assoc_unique_keys(mid));
        }
        self.entries.push((k, v));
        proof {
            assert(self@ =~= mid.push((kv, v)));
            let post = self@;
            assert forall|a: int, b: int| 0 <= a < b < post.len() implies post[a].0 != post[b].0 by {
                if b < post.len() - 1 {
                    assert(post[a] == mid[a] && post[b] == mid[b]);
                } else {
                    assert(post[a] == mid[a]);
                    assert(post[b].0 == kv);
                    if mid[a].0 == kv {
                        assert(assoc_has_key(mid, kv));
                    }
                }
            }
            assert forall|k2: Seq<char>| #![auto] true implies assoc_get(post, k2) == (if k2 == kv {
                Some(v)
            } else {
                assoc_get(pre, k2)
            }) && assoc_has_key(post, k2) == (assoc_has_key(pre, k2) || k2 == kv) by {
                lemma_assoc_get_push(mid, kv, v, k2);
                if k2 != kv {
                    match found {
                        Some(i) => {
                            lemma_assoc_get_remove(pre, i as int, k2);
                        },
                        None => {},
                    }
                }
                lemma_assoc_get_some_iff_has_key(post, k2);
                lemma_assoc_get_some_iff_has_key(pre, k2);
            }
            match found {
                Some(i) => {
                    assert(assoc_has_key(pre, kv));
                },
                None => {},
            }
        }
    }

    /// Hands the entries out in storage order.
    pub fn into_entries(self) -> (r: Vec<(String, T)>)
        ensures
            r@.map_values(|e: (String, T)| (e.0@, e.1)) == self@,
            r@.len() == self@.len(),
    {
        self.entries
    }

    /// Removes the entry bound to `k`, if any.
    pub fn remove(&mut self, k: &String)
        requires
            old(self).wf(),
        ensures
            final(self).wf(),
            final(self).spec_get(k@) is None,
            forall|k2: Seq<char>| k2 != k@ ==> final(self).spec_get(k2) == old(self).spec_get(k2),
            forall|k2: Seq<char>| #[trigger] final(self).spec_contains_key(k2) == (
                old(self).spec_contains_key(k2) && k2 != k@),
            final(self)@.len() == if old(self).spec_contains_key(k@) {
                old(self)@.len() - 1
            } else {
                old(self)@.len() as int
            },
    {
        let ghost pre = self@;
        let found = self.index_of(k);
        match found {
            Some(i) => {
                self.entries.remove(i);
                proof {
                    assert(self@ =~= pre.remove(i as int));
                    let post = self@;
                    assert(assoc_has_key(pre, k@));
                    assert forall|k2: Seq<char>| #![auto] true implies assoc_get(post, k2) == (
                    if k2 == k@ {
                        None::<T>
                    } else {
                        assoc_get(pre, k2)
                    }) && assoc_has_key(post, k2) == (assoc_has_key(pre, k2) && k2 != k@) by {
                        lemma_assoc_get_remove(pre, i as int, k2);
                        lemma_assoc_get_some_iff_has_key(post, k2);
                        lemma_assoc_get_some_iff_has_key(pre, k2);
                    }
                }
            },
            None => {
                proof {
                    lemma_assoc_get_some_iff_has_key(pre, k@);
                }
            },
        }
    }
}

} // verus!
