//! The set of resource names that wait for the end of the current tick.

use crate::names::{lemma_names_of_push, lemma_record_distinct, names_of, record, Name};
use vstd::prelude::*;

verus! {

/// The names notified during one tick. A name is held once however often it
/// was notified; the names are kept in the order of their first arrival.
pub struct PendingSet {
    names: Vec<String>,
}

impl View for PendingSet {
    type V = Seq<Name>;

    closed spec fn view(&self) -> Seq<Name> {
        names_of(self.names@)
    }
}

impl PendingSet {
    /// No name is held twice.
    pub open spec fn wf(&self) -> bool {
        self@.no_duplicates()
    }

    /// An empty set, as at the start of a tick.
    pub fn new() -> (set: PendingSet)
        ensures
            set.wf(),
            set@ == Seq::<Name>::empty(),
    {
        let set = PendingSet { names: Vec::new() };
        assert(set@ =~= Seq::<Name>::empty());
        set
    }

    /// The number of distinct names that wait.
    pub fn len(&self) -> (n: usize)
        ensures
            n == self@.len(),
    {
        self.names.len()
    }

    /// Whether no name waits.
    pub fn is_empty(&self) -> (empty: bool)
        ensures
            empty == (self@.len() == 0),
    {
        self.names.len() == 0
    }

    /// Whether `name` waits.
    pub fn contains(&self, name: &String) -> (found: bool)
        ensures
            found == self@.contains(name@),
    {
        let mut i: usize = 0;
        while i < self.names.len()
            invariant
                i <= self.names.len(),
                forall|j: int| 0 <= j < i ==> self@[j] != name@,
            decreases self.names.len() - i,
        {
            if self.names[i] == *name {
                assert(self@[i as int] == name@);
                return true;
            }
            i += 1;
        }
        false
    }

    /// Takes in one notification. Returns whether the name was new to the
    /// set; a name that already waits leaves the set as it was.
    pub fn insert(&mut self, name: String) -> (fresh: bool)
        requires
            old(self).wf(),
        ensures
            final(self).wf(),
            final(self)@ == record(old(self)@, name@),
            fresh == !old(self)@.contains(name@),
    {
        proof {
            lemma_record_distinct(self@, name@);
        }
        if self.contains(&name) {
            false
        } else {
            proof {
                lemma_names_of_push(self.names@, name);
            }
            self.names.push(name);
            true
        }
    }

    /// Hands out the names that wait, in the order of their first arrival,
    /// and leaves the set empty for the next tick.
    pub fn drain(&mut self) -> (names: Vec<String>)
        requires
            old(self).wf(),
        ensures
            final(self).wf(),
            final(self)@ == Seq::<Name>::empty(),
            names_of(names@) == old(self)@,
            names_of(names@).no_duplicates(),
    {
        let mut names: Vec<String> = Vec::new();
        std::mem::swap(&mut self.names, &mut names);
        assert(self@ =~= Seq::<Name>::empty());
        names
    }
}

} // verus!
