//! The registry of running per-namespace watch tasks: at most one task
//! handle per namespace name.
use vstd::prelude::*;

use crate::annotation::{ChangeObject, State};

verus! {

/// What the namespace-event loop does with the registry for an event.
#[derive(Clone, Copy, Debug, PartialEq, Eq, Structural)]
pub enum NamespaceAction {
    /// Start a watch task for the namespace.
    Start,
    /// Cancel the namespace's watch task.
    Stop,
    /// Leave the registry alone.
    Ignore,
}

pub open spec fn action_of(state: State) -> NamespaceAction {
    match state {
        State::Added => NamespaceAction::Start,
        State::Deleted => NamespaceAction::Stop,
        State::Modified => NamespaceAction::Ignore,
    }
}

/// `Added` starts a watch task, `Deleted` stops it, `Modified` is ignored.
pub fn namespace_action(state: State) -> (r: NamespaceAction)
    ensures
        r == action_of(state),
{
    match state {
        State::Added => NamespaceAction::Start,
        State::Deleted => NamespaceAction::Stop,
        State::Modified => NamespaceAction::Ignore,
    }
}

/// The events that stand in for namespace discovery when a static list of
/// namespaces is configured: one `Added` event per namespace, in order.
pub fn static_namespace_events(namespaces: Vec<String>) -> (r: Vec<ChangeObject<String>>)
    ensures
        r@.len() == namespaces@.len(),
        forall|i: int|
            0 <= i < r@.len() ==> (#[trigger] r@[i]).object == namespaces@[i] && r@[i].state
                == State::Added,
{
    let mut out: Vec<ChangeObject<String>> = Vec::new();
    let mut i: usize = 0;
    while i < namespaces.len()
        invariant
            i <= namespaces@.len(),
            out@.len() == i,
            forall|j: int|
                0 <= j < i ==> (#[trigger] out@[j]).object == namespaces@[j] && out@[j].state
                    == State::Added,
        decreases namespaces@.len() - i,
    {
        out.push(ChangeObject { object: namespaces[i].clone(), state: State::Added });
        i += 1;
    }
    out
}

/// Maps a namespace name to the handle of the watch task running for it.
pub struct WatcherRegistry<H> {
    entries: Vec<(String, H)>,
}

impl<H> View for WatcherRegistry<H> {
    type V = Map<Seq<char>, H>;

    closed spec fn view(&self) -> Map<Seq<char>, H> {
        Map::new(
            |k: Seq<char>| exists|j: int| 0 <= j < self.entries@.len() && self.key_at(j) == k,
            |k: Seq<char>|
                self.entries@[choose|j: int| 0 <= j < self.entries@.len() && self.key_at(j) == k].1,
        )
    }
}

impl<H> WatcherRegistry<H> {
    spec fn key_at(&self, j: int) -> Seq<char> {
        self.entries@[j].0@
    }

    /// No two entries share a name.
    pub closed spec fn wf(&self) -> bool {
        forall|a: int, b: int|
            0 <= a < self.entries@.len() && 0 <= b < self.entries@.len() && a != b ==> #[trigger] self.key_at(a)
                != #[trigger] self.key_at(b)
    }

    proof fn lemma_view_at(&self, j: int)
        requires
            self.wf(),
            0 <= j < self.entries@.len(),
        ensures
            self@.contains_key(self.key_at(j)),
            self@[self.key_at(j)] == self.entries@[j].1,
    {
        let k = self.key_at(j);
        assert(exists|x: int| 0 <= x < self.entries@.len() && self.key_at(x) == k);
        let c = choose|x: int| 0 <= x < self.entries@.len() && self.key_at(x) == k;
        assert(c == j);
    }

    /// An empty registry.
    pub fn new() -> (r: WatcherRegistry<H>)
        ensures
            r.wf(),
            r@ == Map::<Seq<char>, H>::empty(),
    {
        let r = WatcherRegistry { entries: Vec::new() };
        assert(r@ =~= Map::<Seq<char>, H>::empty());
        r
    }

    /// The number of registered namespaces.
    pub fn len(&self) -> (r: usize)
        requires
            self.wf(),
        ensures
            r == self@.len(),
    {
        proof {
            self.lemma_len();
        }
        self.entries.len()
    }

    proof fn lemma_len(&self)
        requires
            self.wf(),
        ensures
            self@.dom().len() == self.entries@.len(),
    {
        let keys = Seq::new(self.entries@.len(), |j: int| self.key_at(j));
        assert forall|a: int, b: int| 0 <= a < keys.len() && 0 <= b < keys.len() && a != b implies keys[a]
            != keys[b] by {
            assert(self.key_at(a) != self.key_at(b));
        }
        assert(keys.no_duplicates());
        assert(keys.to_set() =~= self@.dom()) by {
            assert forall|k: Seq<char>| keys.to_set().contains(k) implies self@.dom().contains(k) by {
                let j = choose|j: int| 0 <= j < keys.len() && keys[j] == k;
                self.lemma_view_at(j);
            }
            assert forall|k: Seq<char>| self@.dom().contains(k) implies keys.to_set().contains(k) by {
                let j = choose|j: int| 0 <= j < self.entries@.len() && self.key_at(j) == k;
                assert(keys[j] == k);
            }
        }
        keys.unique_seq_to_set();
    }

    fn position(&self, name: &String) -> (r: Option<usize>)
        ensures
            r matches Some(i) ==> i < self.entries@.len() && self.key_at(i as int) == name@,
            r is None ==> forall|j: int| 0 <= j < self.entries@.len() ==> self.key_at(j) != name@,
    {
        let mut i: usize = 0;
        while i < self.entries.len()
            invariant
                i <= self.entries@.len(),
                forall|j: int| 0 <= j < i ==> self.key_at(j) != name@,
            decreases self.entries@.len() - i,
        {
            if self.entries[i].0 == *name {
                return Some(i);
            }
            i += 1;
        }
        None
    }

    /// Whether a task is registered for `name`.
    pub fn contains(&self, name: &String) -> (r: bool)
        requires
            self.wf(),
        ensures
            r == self@.contains_key(name@),
    {
        match self.position(name) {
            Some(i) => {
                proof {
                    self.lemma_view_at(i as int);
                }
                true
            },
            None => false,
        }
    }

    /// Removes the entry of `name` and hands back its handle, so that the
    /// caller can cancel the task; a name with no entry is left alone.
    pub fn remove(&mut self, name: &String) -> (r: Option<H>)
        requires
            old(self).wf(),
        ensures
            final(self).wf(),
            final(self)@ == old(self)@.remove(name@),
            r is Some <==> old(self)@.contains_key(name@),
            r matches Some(h) ==> h == old(self)@[name@],
    {
        match self.position(name) {
            None => {
                assert(self@ =~= self@.remove(name@));
                None
            },
            Some(i) => {
                let ghost pre = *self;
                proof {
                    pre.lemma_view_at(i as int);
                }
                let (_, h) = self.entries.remove(i);
                assert(self.entries@ == pre.entries@.remove(i as int));
                assert forall|a: int, b: int|
                    0 <= a < self.entries@.len() && 0 <= b < self.entries@.len() && a != b implies #[trigger] self.key_at(a)
                    != #[trigger] self.key_at(b) by {
                    let pa = if a < i { a } else { a + 1 };
                    let pb = if b < i { b } else { b + 1 };
                    assert(self.key_at(a) == pre.key_at(pa));
                    assert(self.key_at(b) == pre.key_at(pb));
                }
                assert forall|k: Seq<char>|
                    #![trigger self@.contains_key(k)]
                    #![trigger pre@.remove(name@).contains_key(k)]
                    self@.contains_key(k) <==> pre@.remove(name@).contains_key(k) by {
                    if self@.contains_key(k) {
                        let j = choose|j: int| 0 <= j < self.entries@.len() && self.key_at(j) == k;
                        let pj = if j < i { j } else { j + 1 };
                        assert(pre.key_at(pj) == k);
                        assert(pre.key_at(i as int) == name@);
                        pre.lemma_view_at(pj);
                    }
                    if pre@.remove(name@).contains_key(k) {
                        let pj = choose|j: int| 0 <= j < pre.entries@.len() && pre.key_at(j) == k;
                        assert(pj != i);
                        let j = if pj < i { pj } else { pj - 1 };
                        assert(self.key_at(j) == k);
                    }
                }
                assert forall|k: Seq<char>| #[trigger] self@.contains_key(k) implies self@[k]
                    == pre@.remove(name@)[k] by {
                    let j = choose|j: int| 0 <= j < self.entries@.len() && self.key_at(j) == k;
                    let pj = if j < i { j } else { j + 1 };
                    self.lemma_view_at(j);
                    pre.lemma_view_at(pj);
                }
                assert(self@ =~= pre@.remove(name@));
                Some(h)
            },
        }
    }

    /// Registers the task of `name`. A task already registered for the name
    /// is handed back, so that the caller can cancel it: at most one task runs
    /// per namespace.
    pub fn add(&mut self, name: String, handle: H) -> (r: Option<H>)
        requires
            old(self).wf(),
        ensures
            final(self).wf(),
            final(self)@ == old(self)@.insert(name@, handle),
            r is Some <==> old(self)@.contains_key(name@),
            r matches Some(h) ==> h == old(self)@[name@],
    {
        let displaced = self.remove(&name);
        let ghost mid = *self;
        let ghost key = name@;
        self.entries.push((name, handle));
        let ghost n = mid.entries@.len() as int;
        assert(forall|j: int| 0 <= j < n ==> self.key_at(j) == mid.key_at(j));
        assert(self.key_at(n) == key);
        assert(!mid@.contains_key(key));
        assert forall|j: int| 0 <= j < n implies mid.key_at(j) != key by {
            if mid.key_at(j) == key {
                mid.lemma_view_at(j);
            }
        }
        assert forall|a: int, b: int|
            0 <= a < self.entries@.len() && 0 <= b < self.entries@.len() && a != b implies #[trigger] self.key_at(a)
            != #[trigger] self.key_at(b) by {
            if a < n && b < n {
                assert(mid.key_at(a) != mid.key_at(b));
            } else if a < n {
                assert(self.key_at(a) == mid.key_at(a));
                assert(mid.key_at(a) != key);
            } else {
                assert(self.key_at(b) == mid.key_at(b));
                assert(mid.key_at(b) != key);
            }
        }
        assert forall|k: Seq<char>|
            #![trigger self@.contains_key(k)]
            #![trigger mid@.insert(key, handle).contains_key(k)]
            self@.contains_key(k) <==> mid@.insert(key, handle).contains_key(k) by {
            if self@.contains_key(k) && k != key {
                let j = choose|j: int| 0 <= j < self.entries@.len() && self.key_at(j) == k;
                assert(j < n);
                mid.lemma_view_at(j);
            }
            if mid@.contains_key(k) {
                let j = choose|j: int| 0 <= j < mid.entries@.len() && mid.key_at(j) == k;
                assert(self.key_at(j) == k);
            }
            if k == key {
                assert(self.key_at(n) == k);
            }
        }
        assert forall|k: Seq<char>| #[trigger] self@.contains_key(k) implies self@[k]
            == mid@.insert(key, handle)[k] by {
            let j = choose|j: int| 0 <= j < self.entries@.len() && self.key_at(j) == k;
            self.lemma_view_at(j);
            if j < n {
                mid.lemma_view_at(j);
            }
        }
        assert(self@ =~= mid@.insert(key, handle));
        displaced
    }
}

} // verus!
