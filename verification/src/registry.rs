//! The registry of resources: which names are exported at startup, and
//! which names have a resource behind them.

use crate::names::{names_of, Name};
use vstd::prelude::*;

verus! {

/// What a registry holds, as contracts see it.
pub struct RegistryView {
    /// The names exported at startup, in the order of export.
    pub names: Seq<Name>,
    /// The names that have a resource behind them. The position of a name
    /// is the handle of its resource.
    pub registered: Seq<Name>,
}

/// The handle of the resource registered under `name`: the first position
/// at which `registered` holds the name, or `None` where it holds it
/// nowhere.
pub open spec fn resource_of(registered: Seq<Name>, name: Name) -> Option<int> {
    registered.index_of_first(name)
}

/// A handle is the one that `resource_of` gives exactly if the name stands
/// at it and nowhere before it.
pub proof fn lemma_resource_of(registered: Seq<Name>, name: Name)
    ensures
        match resource_of(registered, name) {
            Some(handle) => {
                &&& 0 <= handle < registered.len()
                &&& registered[handle] == name
                &&& forall|j: int| 0 <= j < handle ==> registered[j] != name
            },
            None => forall|j: int| 0 <= j < registered.len() ==> registered[j] != name,
        },
{
    registered.index_of_first_ensures(name);
}

/// A read-only table, built once at startup. It names the resources to
/// export at startup and finds the resource that a name stands for. The
/// resources themselves stay with the caller, who keeps them in the order
/// in which their names were registered.
pub struct Registry {
    names: Vec<String>,
    registered: Vec<String>,
}

impl View for Registry {
    type V = RegistryView;

    closed spec fn view(&self) -> RegistryView {
        RegistryView { names: names_of(self.names@), registered: names_of(self.registered@) }
    }
}

impl Registry {
    /// A registry that exports `names` at startup, in that order, and has a
    /// resource behind each name of `registered`.
    pub fn new(names: Vec<String>, registered: Vec<String>) -> (registry: Registry)
        ensures
            registry@.names == names_of(names@),
            registry@.registered == names_of(registered@),
    {
        Registry { names, registered }
    }

    /// The names to export at startup, in the order of export.
    pub fn all_names(&self) -> (names: &Vec<String>)
        ensures
            names_of(names@) == self@.names,
    {
        &self.names
    }

    /// Finds the resource registered under `name` and returns its handle.
    /// A name without a resource is no error: the answer is `None`.
    pub fn lookup(&self, name: &String) -> (found: Option<usize>)
        ensures
            match found {
                Some(handle) => resource_of(self@.registered, name@) == Some(handle as int),
                None => resource_of(self@.registered, name@) is None,
            },
    {
        let mut i: usize = 0;
        while i < self.registered.len()
            invariant
                i <= self.registered.len(),
                forall|j: int| 0 <= j < i ==> self@.registered[j] != name@,
            decreases self.registered.len() - i,
        {
            if self.registered[i] == *name {
                proof {
                    lemma_resource_of(self@.registered, name@);
                    assert(self@.registered[i as int] == name@);
                }
                return Some(i);
            }
            i += 1;
        }
        proof {
            lemma_resource_of(self@.registered, name@);
        }
        None
    }
}

} // verus!
