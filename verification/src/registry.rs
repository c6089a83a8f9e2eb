//! The source registry: one sink pair per camera identity, for the life of
//! the process.
//!
//! The registry deduplicates upstream sessions: the first request for a
//! camera creates its sink pair (and the caller then starts the one relay
//! session bound to it), every later request finds the same pair.  Entries
//! are never replaced and never removed.  The registry itself is a
//! sequential structure; the process serializes `get_or_create` calls per
//! registry behind one critical section, so that the check-then-create path
//! below is atomic and at most one session per camera is ever started.

use vstd::prelude::*;

use crate::locator::CameraIdentity;
use crate::tracks::{make_sink_pair, SinkPair};

verus! {

struct RegistryEntry {
    key: String,
    sinks: SinkPair,
}

/// Mapping from camera identity to its published sink pair.
pub struct Registry {
    entries: Vec<RegistryEntry>,
}

impl Registry {
    /// The camera identities registered so far, in creation order.
    pub closed spec fn keys(self) -> Seq<Seq<char>> {
        self.entries@.map(|i: int, e: RegistryEntry| e.key@)
    }

    /// The published sink pairs, in creation order.
    pub closed spec fn sink_seq(self) -> Seq<SinkPair> {
        self.entries@.map(|i: int, e: RegistryEntry| e.sinks)
    }

    pub open spec fn len(self) -> nat {
        self.keys().len()
    }

    pub open spec fn contains(self, k: Seq<char>) -> bool {
        exists|i: int| 0 <= i < self.len() && self.keys()[i] == k
    }

    /// Identities are registered at most once, and every identity has its
    /// sink pair: `keys()` and `sink_seq()` run in step.
    pub open spec fn wf(self) -> bool {
        &&& self.sink_seq().len() == self.len()
        &&& forall|i: int, j: int| 0 <= i < j < self.len() ==> self.keys()[i] != self.keys()[j]
    }

    /// An empty registry, built once at process start.
    pub fn new() -> (r: Registry)
        ensures
            r.wf(),
            r.len() == 0,
    {
        Registry { entries: Vec::new() }
    }

    /// How many cameras are registered.
    pub fn count(&self) -> (n: usize)
        ensures
            n == self.len(),
    {
        self.entries.len()
    }

    /// Non-blocking read: the index of this camera's entry, if present.
    pub fn lookup(&self, key: &CameraIdentity) -> (r: Option<usize>)
        ensures
            match r {
                Some(i) => i < self.len() && self.keys()[i as int] == key.url@,
                None => !self.contains(key.url@),
            },
    {
        let n = self.entries.len();
        let mut i: usize = 0;
        while i < n
            invariant
                0 <= i <= n,
                n == self.entries@.len(),
                forall|j: int| 0 <= j < i ==> self.keys()[j] != key.url@,
            decreases n - i,
        {
            if self.entries[i].key == key.url {
                return Some(i);
            }
            i = i + 1;
        }
        None
    }

    /// The sink pair at a registry index.
    pub fn sinks_at(&self, i: usize) -> (r: &SinkPair)
        requires
            i < self.len(),
        ensures
            *r == self.sink_seq()[i as int],
    {
        &self.entries[i].sinks
    }

    /// Find this camera's entry, creating it — with a fresh sink pair — if
    /// it is absent.  Returns the entry's index and whether it was created;
    /// on creation the caller starts the camera's one relay session before
    /// letting any other caller in.  Existing entries are never touched:
    /// once published, a sink pair stays for the life of the registry.
    pub fn get_or_create(&mut self, key: &CameraIdentity) -> (r: (usize, bool))
        requires
            old(self).wf(),
        ensures
            final(self).wf(),
            final(self).contains(key.url@),
            final(self).keys().take(old(self).len() as int) == old(self).keys(),
            final(self).sink_seq().take(old(self).len() as int) == old(self).sink_seq(),
            ({
                let (i, created) = r;
                &&& i < final(self).len()
                &&& final(self).keys()[i as int] == key.url@
                &&& created == !old(self).contains(key.url@)
                &&& if created {
                    final(self).len() == old(self).len() + 1 && i == old(self).len()
                } else {
                    *final(self) == *old(self)
                }
            }),
    {
        match self.lookup(key) {
            Some(i) => {
                proof {
                    let post = *final(self);
                    assert(post.keys().take(old(self).len() as int) =~= post.keys());
                    assert(post.sink_seq().take(old(self).len() as int) =~= post.sink_seq());
                    assert(post.contains(key.url@));
                }
                (i, false)
            },
            None => {
                let sinks = make_sink_pair();
                let entry = RegistryEntry { key: key.url.clone(), sinks };
                self.entries.push(entry);
                let i = self.entries.len() - 1;
                proof {
                    let post = *final(self);
                    assert(post.keys() =~= old(self).keys().push(key.url@));
                    assert(post.sink_seq().take(old(self).len() as int) =~= old(self).sink_seq());
                    assert(post.keys()[i as int] == key.url@);
                    assert(post.contains(key.url@));
                }
                (i, true)
            },
        }
    }
}

/// Identity lookups are unambiguous: in a well-formed registry two indices
/// holding the same camera identity are the same index — so every viewer of
/// a camera is attached to the one sink pair published for it.
pub proof fn lemma_key_index_unique(r: Registry, i: int, j: int)
    requires
        r.wf(),
        0 <= i < r.len(),
        0 <= j < r.len(),
        r.keys()[i] == r.keys()[j],
    ensures
        i == j,
{
}

} // verus!
