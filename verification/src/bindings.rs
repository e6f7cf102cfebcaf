//! The registry of bound windows: each binding is kept under its `bound_id`, a
//! new binding under the same ID replaces the old one, and a lookup of an ID
//! that was never bound is refused.

use vstd::prelude::*;

use crate::text::{owned, str_eq};

verus! {

/// The view of a list of bindings: each bound ID with its record.
pub open spec fn bindings_view<B>(v: Seq<(String, B)>) -> Seq<(Seq<char>, B)> {
    v.map_values(|e: (String, B)| (e.0@, e.1))
}

/// No bound ID occurs twice.
pub open spec fn bound_ids_distinct<B>(s: Seq<(Seq<char>, B)>) -> bool {
    forall|i: int, j: int| 0 <= i < j < s.len() ==> (#[trigger] s[i]).0 != (#[trigger] s[j]).0
}

/// The record bound under `id`, if any.
pub open spec fn binding_of<B>(s: Seq<(Seq<char>, B)>, id: Seq<char>) -> Option<B> {
    if exists|i: int| 0 <= i < s.len() && (#[trigger] s[i]).0 == id {
        Some(s[choose|i: int| 0 <= i < s.len() && (#[trigger] s[i]).0 == id].1)
    } else {
        None
    }
}

/// In a list without repeated IDs, the record bound under an ID is the one at
/// the place where the ID stands.
pub proof fn lemma_binding_at<B>(s: Seq<(Seq<char>, B)>, k: int)
    requires
        bound_ids_distinct(s),
        0 <= k < s.len(),
    ensures
        binding_of(s, s[k].0) == Some(s[k].1),
{
    let id = s[k].0;
    assert(exists|i: int| 0 <= i < s.len() && (#[trigger] s[i]).0 == id);
    let c = choose|i: int| 0 <= i < s.len() && (#[trigger] s[i]).0 == id;
    if c != k {
        if c < k {
            assert(s[c].0 != s[k].0);
        } else {
            assert(s[k].0 != s[c].0);
        }
    }
}

/// A lookup refused because the bound ID is not registered (`binding_not_found`).
#[derive(Debug, Clone, PartialEq, Eq)]
pub struct BindingNotFound {
    pub bound_id: String,
}

impl BindingNotFound {
    /// The error code the tool reports.
    pub fn code(&self) -> (r: &'static str)
        ensures
            r@ == "binding_not_found"@,
    {
        "binding_not_found"
    }

    /// The message the tool reports.
    pub fn message(&self) -> (r: &'static str)
        ensures
            r@ == "bound_id is not registered"@,
    {
        "bound_id is not registered"
    }
}

/// The bound windows, each record under its bound ID.
pub struct BindingRegistry<B> {
    bindings: Vec<(String, B)>,
}

impl<B> View for BindingRegistry<B> {
    type V = Seq<(Seq<char>, B)>;

    closed spec fn view(&self) -> Seq<(Seq<char>, B)> {
        bindings_view(self.bindings@)
    }
}

impl<B> BindingRegistry<B> {
    /// The registry is well formed: no bound ID occurs twice.
    pub open spec fn wf(&self) -> bool {
        bound_ids_distinct(self@)
    }

    /// The record bound under `id`, if any.
    pub open spec fn binding(&self, id: Seq<char>) -> Option<B> {
        binding_of(self@, id)
    }

    /// An empty registry.
    pub fn new() -> (r: BindingRegistry<B>)
        ensures
            r.wf(),
            forall|id: Seq<char>| #[trigger] r.binding(id) is None,
    {
        let r = BindingRegistry { bindings: Vec::new() };
        assert(r@ =~= Seq::<(Seq<char>, B)>::empty());
        r
    }

    fn position(&self, bound_id: &str) -> (r: Option<usize>)
        ensures
            match r {
                Some(i) => i < self@.len() && self@[i as int].0 == bound_id@,
                None => forall|j: int| 0 <= j < self@.len() ==> (#[trigger] self@[j]).0 != bound_id@,
            },
    {
        let mut i: usize = 0;
        while i < self.bindings.len()
            invariant
                i <= self@.len(),
                self@ == bindings_view(self.bindings@),
                forall|j: int| 0 <= j < i ==> (#[trigger] self@[j]).0 != bound_id@,
            decreases self.bindings.len() - i,
        {
            assert(self@[i as int].0 == self.bindings@[i as int].0@);
            if str_eq(self.bindings[i].0.as_str(), bound_id) {
                return Some(i);
            }
            i += 1;
        }
        None
    }

    /// Binds `record` under `bound_id`, replacing an earlier binding of that ID;
    /// every other binding stays.
    pub fn bind(&mut self, bound_id: String, record: B)
        requires
            old(self).wf(),
        ensures
            final(self).wf(),
            final(self).binding(bound_id@) == Some(record),
            forall|id: Seq<char>| id != bound_id@ ==> #[trigger] final(self).binding(id) == old(self).binding(id),
    {
        let ghost s = self@;
        let ghost id = bound_id@;
        let ghost rest: Seq<(Seq<char>, B)>;
        match self.position(bound_id.as_str()) {
            Some(i) => {
                self.bindings.remove(i);
                proof {
                    rest = s.remove(i as int);
                    assert(self@ =~= rest);
                }
            },
            None => {
                proof {
                    rest = s;
                }
            },
        }
        self.bindings.push((bound_id, record));
        proof {
            let s2 = rest.push((id, record));
            assert(self@ =~= s2);
            assert(forall|j: int| 0 <= j < rest.len() ==> (#[trigger] rest[j]).0 != id) by {
                assert forall|j: int| 0 <= j < rest.len() implies (#[trigger] rest[j]).0 != id by {
                    if rest.len() < s.len() {
                        let i = choose|i: int| 0 <= i < s.len() && s[i].0 == id && rest == s.remove(i);
                        if j < i {
                            assert(rest[j] == s[j]);
                        } else {
                            assert(rest[j] == s[j + 1]);
                        }
                    } else {
                        assert(rest[j] == s[j]);
                    }
                }
            }
            assert(bound_ids_distinct(rest)) by {
                assert forall|a: int, b: int| 0 <= a < b < rest.len() implies (#[trigger] rest[a]).0 != (#[trigger] rest[b]).0 by {
                    if rest.len() < s.len() {
                        let i = choose|i: int| 0 <= i < s.len() && s[i].0 == id && rest == s.remove(i);
                        let a2 = if a < i { a } else { a + 1 };
                        let b2 = if b < i { b } else { b + 1 };
                        assert(rest[a] == s[a2] && rest[b] == s[b2]);
                    } else {
                        assert(rest[a] == s[a] && rest[b] == s[b]);
                    }
                }
            }
            assert(bound_ids_distinct(s2)) by {
                assert forall|a: int, b: int| 0 <= a < b < s2.len() implies (#[trigger] s2[a]).0 != (#[trigger] s2[b]).0 by {
                    assert(s2[a] == rest[a]);
                    if b < rest.len() {
                        assert(s2[b] == rest[b]);
                    }
                }
            }
            lemma_binding_at(s2, rest.len() as int);
            assert forall|other: Seq<char>| other != id implies #[trigger] binding_of(s2, other) == binding_of(s, other) by {
                if exists|k: int| 0 <= k < s.len() && (#[trigger] s[k]).0 == other {
                    let k = choose|k: int| 0 <= k < s.len() && (#[trigger] s[k]).0 == other;
                    lemma_binding_at(s, k);
                    if rest.len() < s.len() {
                        let i = choose|i: int| 0 <= i < s.len() && s[i].0 == id && rest == s.remove(i);
                        let k2 = if k < i { k } else { k - 1 };
                        assert(k != i);
                        assert(s2[k2] == s[k]);
                        lemma_binding_at(s2, k2);
                    } else {
                        assert(s2[k] == s[k]);
                        lemma_binding_at(s2, k);
                    }
                } else {
                    assert forall|k: int| 0 <= k < s2.len() implies (#[trigger] s2[k]).0 != other by {
                        if k < rest.len() {
                            if rest.len() < s.len() {
                                let i = choose|i: int| 0 <= i < s.len() && s[i].0 == id && rest == s.remove(i);
                                if k < i {
                                    assert(rest[k] == s[k]);
                                } else {
                                    assert(rest[k] == s[k + 1]);
                                }
                            } else {
                                assert(rest[k] == s[k]);
                            }
                            assert(s2[k] == rest[k]);
                        }
                    }
                }
            }
        }
    }

    /// The record bound under `bound_id`, or `BindingNotFound` when the ID is
    /// not registered.
    pub fn lookup(&self, bound_id: &str) -> (r: Result<&B, BindingNotFound>)
        requires
            self.wf(),
        ensures
            match r {
                Ok(b) => self.binding(bound_id@) == Some(*b),
                Err(e) => self.binding(bound_id@) is None && e.bound_id@ == bound_id@,
            },
    {
        match self.position(bound_id) {
            Some(i) => {
                proof {
                    lemma_binding_at(self@, i as int);
                    assert(self@[i as int].1 == self.bindings@[i as int].1);
                }
                Ok(&self.bindings[i].1)
            },
            None => Err(BindingNotFound { bound_id: owned(bound_id) }),
        }
    }
}

} // verus!
