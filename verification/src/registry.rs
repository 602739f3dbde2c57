//! The key registry: an in-memory set of opaque identifier strings that other
//! parties may register and query. Registering the same value twice is a
//! no-op, and no removal operation exists.

use vstd::prelude::*;

verus! {

/// The set of distinct character sequences occurring in a sequence of strings.
pub open spec fn string_seq_set(s: Seq<String>) -> Set<Seq<char>> {
    Set::new(|k: Seq<char>| exists|i: int| 0 <= i < s.len() && s[i]@ == k)
}

/// An in-memory set of opaque identifier strings (public key material),
/// with set semantics: duplicates collapse, order carries no meaning.
pub struct KeyRegistry {
    keys: Vec<String>,
}

impl View for KeyRegistry {
    type V = Set<Seq<char>>;

    /// The registry's content: the set of distinct keys registered so far.
    closed spec fn view(&self) -> Set<Seq<char>> {
        string_seq_set(self.keys@)
    }
}

impl KeyRegistry {
    /// No key occurs twice in the backing vector.
    pub closed spec fn wf(&self) -> bool {
        forall|i: int, j: int|
            0 <= i < j < self.keys@.len() ==> self.keys@[i]@ != self.keys@[j]@
    }

    pub fn new() -> (r: Self)
        ensures
            r.wf(),
            r@ == Set::<Seq<char>>::empty(),
    {
        let r = KeyRegistry { keys: Vec::new() };
        proof {
            assert(r@ =~= Set::<Seq<char>>::empty());
        }
        r
    }

    /// Idempotent insert: afterwards the registry holds exactly the old keys
    /// plus the given one.
    pub fn register(&mut self, key: String)
        requires
            old(self).wf(),
        ensures
            final(self).wf(),
            final(self)@ == old(self)@.insert(key@),
    {
        if self.contains(&key) {
            proof {
                assert(self@ =~= old(self)@.insert(key@));
            }
        } else {
            self.keys.push(key);
            proof {
                let prev = old(self).keys@;
                assert(self.keys@ == prev.push(key));
                assert forall|k: Seq<char>| self@.contains(k) <==> old(self)@.insert(key@).contains(k) by {
                    if k == key@ {
                        assert(self.keys@[prev.len() as int]@ == k);
                        assert(self@.contains(k));
                    } else {
                        if self@.contains(k) {
                            let i = choose|i: int| 0 <= i < self.keys@.len() && self.keys@[i]@ == k;
                            assert(prev[i]@ == k);
                            assert(old(self)@.contains(k));
                        }
                        if old(self)@.contains(k) {
                            let i = choose|i: int| 0 <= i < prev.len() && prev[i]@ == k;
                            assert(self.keys@[i]@ == k);
                        }
                    }
                }
                assert(self@ =~= old(self)@.insert(key@));
                assert forall|i: int, j: int|
                    0 <= i < j < self.keys@.len() implies self.keys@[i]@ != self.keys@[j]@ by {
                    if j == prev.len() {
                        assert(!old(self)@.contains(key@));
                        assert(prev[i]@ != key@);
                    }
                }
            }
        }
    }

    /// A snapshot of the registered keys; the returned vector holds each
    /// registered key exactly once, in no promised order.
    pub fn list_keys(&self) -> (r: Vec<String>)
        ensures
            string_seq_set(r@) == self@,
            r@.len() == self.spec_len(),
    {
        let r = self.keys.clone();
        proof {
            assert(r@.len() == self.keys@.len());
            assert forall|i: int| 0 <= i < r@.len() implies r@[i]@ == self.keys@[i]@ by {
                assert(cloned::<String>(self.keys@[i], r@[i]));
            }
            assert forall|k: Seq<char>| string_seq_set(r@).contains(k) <==> self@.contains(k) by {
                if string_seq_set(r@).contains(k) {
                    let i = choose|i: int| 0 <= i < r@.len() && r@[i]@ == k;
                    assert(self.keys@[i]@ == k);
                }
                if self@.contains(k) {
                    let i = choose|i: int| 0 <= i < self.keys@.len() && self.keys@[i]@ == k;
                    assert(r@[i]@ == k);
                }
            }
            assert(string_seq_set(r@) =~= self@);
        }
        r
    }

    /// The number of distinct keys held.
    pub closed spec fn spec_len(&self) -> nat {
        self.keys@.len()
    }

    /// Whether the given key has been registered.
    pub fn contains(&self, key: &String) -> (r: bool)
        ensures
            r == self@.contains(key@),
    {
        let n = self.keys.len();
        let mut i: usize = 0;
        while i < n
            invariant
                n == self.keys@.len(),
                forall|j: int| 0 <= j < i ==> self.keys@[j]@ != key@,
            decreases n - i,
        {
            if self.keys[i] == *key {
                assert(self@.contains(key@));
                return true;
            }
            i += 1;
        }
        assert(!self@.contains(key@));
        false
    }
}

/// Registering a key that is already present leaves the registry's content
/// unchanged: for any sequence of `register` calls, the content is the set of
/// distinct keys registered so far, regardless of duplicates.
pub proof fn lemma_register_idempotent(s: Set<Seq<char>>, k: Seq<char>)
    ensures
        s.insert(k).insert(k) == s.insert(k),
{
    assert(s.insert(k).insert(k) =~= s.insert(k));
}

/// The registry's content does not depend on the order in which keys are
/// registered.
pub proof fn lemma_register_order_irrelevant(s: Set<Seq<char>>, k1: Seq<char>, k2: Seq<char>)
    ensures
        s.insert(k1).insert(k2) == s.insert(k2).insert(k1),
{
    assert(s.insert(k1).insert(k2) =~= s.insert(k2).insert(k1));
}

} // verus!
