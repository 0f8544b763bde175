//! Resource names, and how the notifications of one tick merge.

use vstd::prelude::*;

verus! {

/// A resource name as contracts see it: the characters of the string.
/// Names are compared character by character, so case matters.
pub type Name = Seq<char>;

/// The names held by a sequence of strings.
pub open spec fn names_of(strings: Seq<String>) -> Seq<Name> {
    Seq::new(strings.len(), |i: int| strings[i]@)
}

/// `pending` after one more notification for `name`: a name that is already
/// waiting is not added again.
pub open spec fn record(pending: Seq<Name>, name: Name) -> Seq<Name> {
    if pending.contains(name) {
        pending
    } else {
        pending.push(name)
    }
}

/// `pending` after the notifications `heard`, taken in the order of arrival.
pub open spec fn absorb(pending: Seq<Name>, heard: Seq<Name>) -> Seq<Name>
    decreases heard.len(),
{
    if heard.len() == 0 {
        pending
    } else {
        record(absorb(pending, heard.drop_last()), heard.last())
    }
}

/// The names that wait after the notifications `heard` of one tick: each
/// name once, in the order of its first arrival.
pub open spec fn coalesce(heard: Seq<Name>) -> Seq<Name> {
    absorb(Seq::empty(), heard)
}

/// Recording a name keeps the waiting names free of repetition.
pub proof fn lemma_record_distinct(pending: Seq<Name>, name: Name)
    requires
        pending.no_duplicates(),
    ensures
        record(pending, name).no_duplicates(),
        record(pending, name).contains(name),
        forall|other: Name| #[trigger]
            record(pending, name).contains(other) <==> (pending.contains(other) || other == name),
{
    let after = record(pending, name);
    if !pending.contains(name) {
        assert forall|i: int, j: int| 0 <= i < after.len() && 0 <= j < after.len() && i != j implies after[i]
            != after[j] by {
            if i == pending.len() {
                assert(pending[j] == after[j]);
            } else if j == pending.len() {
                assert(pending[i] == after[i]);
            }
        }
        assert(after[pending.len() as int] == name);
    }
    assert forall|other: Name| #[trigger]
        after.contains(other) <==> (pending.contains(other) || other == name) by {
        if pending.contains(other) {
            let i = choose|i: int| 0 <= i < pending.len() && pending[i] == other;
            assert(after[i] == other);
        }
        if after.contains(other) && other != name {
            let i = choose|i: int| 0 <= i < after.len() && after[i] == other;
            assert(pending[i] == other);
        }
    }
}

/// Absorbing notifications keeps the waiting names free of repetition, and
/// the names that wait afterwards are those that waited before and those
/// that were heard.
pub proof fn lemma_absorb(pending: Seq<Name>, heard: Seq<Name>)
    requires
        pending.no_duplicates(),
    ensures
        absorb(pending, heard).no_duplicates(),
        forall|name: Name| #[trigger]
            absorb(pending, heard).contains(name) <==> (pending.contains(name) || heard.contains(
                name,
            )),
    decreases heard.len(),
{
    if heard.len() > 0 {
        let front = heard.drop_last();
        let before = absorb(pending, front);
        lemma_absorb(pending, front);
        lemma_record_distinct(before, heard.last());
        assert forall|name: Name| #[trigger]
            absorb(pending, heard).contains(name) <==> (pending.contains(name) || heard.contains(
                name,
            )) by {
            if front.contains(name) {
                let i = choose|i: int| 0 <= i < front.len() && front[i] == name;
                assert(heard[i] == name);
            }
            if heard.contains(name) && name != heard.last() {
                let i = choose|i: int| 0 <= i < heard.len() && heard[i] == name;
                assert(front[i] == name);
            }
            assert(heard[heard.len() - 1] == heard.last());
        }
    }
}

/// Appending a string to a vector appends its name to the names held.
pub proof fn lemma_names_of_push(strings: Seq<String>, last: String)
    ensures
        names_of(strings.push(last)) == names_of(strings).push(last@),
{
    assert(names_of(strings.push(last)) =~= names_of(strings).push(last@));
}

} // verus!
