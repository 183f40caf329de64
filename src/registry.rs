use vstd::prelude::*;
use crate::pairs::{distinct_keys, find_key, key_map, lemma_absent_key, lemma_key_map_push, lemma_key_map_remove};

verus! {

/// Two starts for one module leave one entry for it. After the first
/// start the module maps to the first handle, which the second start hands
/// back, as `insert` states; after the second the module maps to the later
/// handle alone, as if the first start had not happened; one stop after that
/// leaves no entry for the module.
pub proof fn lemma_restart_then_stop<H>(before: Map<Seq<char>, H>, module: Seq<char>, first: H, second: H)
    ensures
        before.insert(module, first).contains_key(module),
        before.insert(module, first)[module] == first,
        before.insert(module, first).insert(module, second) == before.insert(module, second),
        before.insert(module, first).insert(module, second)[module] == second,
        !before.insert(module, first).insert(module, second).remove(module).contains_key(module),
        before.insert(module, first).insert(module, second).remove(module) == before.remove(module),
{
    assert(before.insert(module, first).insert(module, second) =~= before.insert(module, second));
    assert(before.insert(module, second).remove(module) =~= before.remove(module));
}

/// The running listeners, one handle per module. No module has two entries.
pub struct ListenerRegistry<H> {
    entries: Vec<(String, H)>,
}

impl<H> View for ListenerRegistry<H> {
    type V = Map<Seq<char>, H>;

    closed spec fn view(&self) -> Map<Seq<char>, H> {
        key_map(self.entries@)
    }
}

impl<H> ListenerRegistry<H> {
    /// The registry's own invariant: no module has two entries.
    pub closed spec fn wf(&self) -> bool {
        distinct_keys(self.entries@)
    }

    /// An empty registry.
    pub fn new() -> (r: Self)
        ensures
            r.wf(),
            r@ == Map::<Seq<char>, H>::empty(),
    {
        ListenerRegistry { entries: Vec::new() }
    }

    fn position(&self, module: &String) -> (r: Option<usize>)
        requires
            self.wf(),
        ensures
            match r {
                Some(k) => k < self.entries@.len() && self.entries@[k as int].0@ == module@,
                None => !self@.contains_key(module@),
            },
    {
        let r = find_key(&self.entries, module);
        proof {
            if r is None {
                lemma_absent_key(self.entries@, module@);
            }
        }
        r
    }

    /// Whether a listener is registered for `module`.
    pub fn contains(&self, module: &String) -> (r: bool)
        requires
            self.wf(),
        ensures
            r == self@.contains_key(module@),
    {
        match self.position(module) {
            Some(k) => {
                proof {
                    lemma_key_map_remove(self.entries@, k as int);
                }
                true
            },
            None => false,
        }
    }

    /// Registers `handle` for `module`. A handle that was registered for the
    /// module before is taken out and returned, so that its listener can be
    /// shut down: the module keeps exactly one entry.
    pub fn insert(&mut self, module: String, handle: H) -> (r: Option<H>)
        requires
            old(self).wf(),
        ensures
            final(self).wf(),
            final(self)@ == old(self)@.insert(module@, handle),
            r == (if old(self)@.contains_key(module@) {
                Some(old(self)@[module@])
            } else {
                None
            }),
    {
        let previous = self.remove(&module);
        proof {
            assert forall|m: int| 0 <= m < self.entries@.len() implies self.entries@[m].0@
                != module@ by {
                if self.entries@[m].0@ == module@ {
                    lemma_key_map_remove(self.entries@, m);
                }
            }
            lemma_key_map_push(self.entries@, (module, handle));
            assert(old(self)@.remove(module@).insert(module@, handle) =~= old(self)@.insert(
                module@,
                handle,
            ));
        }
        self.entries.push((module, handle));
        previous
    }

    /// Takes the entry of `module` out of the registry and returns its
    /// handle. Where the module has no entry, nothing changes and `None`
    /// comes back.
    pub fn remove(&mut self, module: &String) -> (r: Option<H>)
        requires
            old(self).wf(),
        ensures
            final(self).wf(),
            final(self)@ == old(self)@.remove(module@),
            r == (if old(self)@.contains_key(module@) {
                Some(old(self)@[module@])
            } else {
                None
            }),
            !old(self)@.contains_key(module@) ==> *final(self) == *old(self),
    {
        match self.position(module) {
            Some(k) => {
                proof {
                    lemma_key_map_remove(self.entries@, k as int);
                }
                let (_, handle) = self.entries.remove(k);
                Some(handle)
            },
            None => {
                proof {
                    assert(old(self)@.remove(module@) =~= old(self)@);
                }
                None
            },
        }
    }
}

} // verus!
