//! What a generated method does to a value of its type.
//!
//! A value of a struct is held as its fields by name. Calling a generated
//! method with a new value replaces the field that the method sets and
//! leaves every other field as it was. The consuming form takes the value
//! and returns the updated one; the mutating form updates it in place.

use vstd::prelude::*;
use crate::model::{MethodSpec, Mutability};

verus! {

/// One field of a value, with what it holds.
#[derive(Debug, Clone, PartialEq, Eq)]
pub struct Slot<V> {
    pub name: String,
    pub value: V,
}

/// A value of a struct: its fields in the order of the declaration.
#[derive(Debug, Clone, PartialEq, Eq)]
pub struct Instance<V> {
    pub slots: Vec<Slot<V>>,
}

impl<V> Instance<V> {
    /// The fields as pairs of name and content.
    pub open spec fn model(&self) -> Seq<(Seq<char>, V)> {
        Seq::new(self.slots.len() as nat, |i: int| (self.slots[i].name@, self.slots[i].value))
    }
}

/// Some field of the value has this name.
pub open spec fn has_field<V>(slots: Seq<(Seq<char>, V)>, field: Seq<char>) -> bool {
    exists|i: int| 0 <= i < slots.len() && (#[trigger] slots[i]).0 == field
}

/// Position `i` holds the first field of this name.
pub open spec fn is_target<V>(slots: Seq<(Seq<char>, V)>, field: Seq<char>, i: int) -> bool {
    &&& 0 <= i < slots.len()
    &&& slots[i].0 == field
    &&& forall|j: int| 0 <= j < i ==> (#[trigger] slots[j]).0 != field
}

/// The value after `field` was set: the first field of that name holds
/// `value`, and all others hold what they held.
pub open spec fn assigned<V>(slots: Seq<(Seq<char>, V)>, field: Seq<char>, value: V) -> Seq<
    (Seq<char>, V),
> {
    Seq::new(
        slots.len(),
        |i: int|
            if is_target(slots, field, i) {
                (field, value)
            } else {
                slots[i]
            },
    )
}

/// Finds the first field named `field`.
fn find_slot<V>(receiver: &Instance<V>, field: &String) -> (res: Option<usize>)
    ensures
        match res {
            Some(i) => is_target(receiver.model(), field@, i as int),
            None => !has_field(receiver.model(), field@),
        },
{
    let mut i: usize = 0;
    while i < receiver.slots.len()
        invariant
            i <= receiver.slots.len(),
            forall|j: int| 0 <= j < i ==> (#[trigger] receiver.model()[j]).0 != field@,
        decreases receiver.slots.len() - i,
    {
        if receiver.slots[i].name == *field {
            assert(receiver.model()[i as int].0 == field@);
            return Some(i);
        }
        assert(receiver.model()[i as int].0 != field@);
        i += 1;
    }
    None
}

impl MethodSpec {
    /// Calls a consuming method: takes the receiver and returns it with the
    /// method's field set to `value`. There is no such call, and `None` is
    /// returned, where the method is not a consuming one or the receiver
    /// has no field of that name.
    pub fn apply<V>(&self, receiver: Instance<V>, value: V) -> (res: Option<Instance<V>>)
        ensures
            res is Some <==> self.mutability == Mutability::Consuming && has_field(
                receiver.model(),
                self.field@,
            ),
            res is Some ==> res->Some_0.model() == assigned(receiver.model(), self.field@, value),
    {
        match self.mutability {
            Mutability::Consuming => {},
            Mutability::Mutating => {
                return None;
            },
        }
        match find_slot(&receiver, &self.field) {
            Some(at) => {
                let mut updated = receiver;
                updated.slots.set(at, Slot { name: self.field.clone(), value });
                assert(updated.model() =~= assigned(receiver.model(), self.field@, value));
                Some(updated)
            },
            None => None,
        }
    }

    /// Calls a mutating method: sets the method's field of the receiver to
    /// `value` in place and says that it did. Where the method is not a
    /// mutating one or the receiver has no field of that name, the
    /// receiver stays as it was.
    pub fn apply_mut<V>(&self, receiver: &mut Instance<V>, value: V) -> (done: bool)
        ensures
            done <==> self.mutability == Mutability::Mutating && has_field(
                old(receiver).model(),
                self.field@,
            ),
            done ==> final(receiver).model() == assigned(
                old(receiver).model(),
                self.field@,
                value,
            ),
            !done ==> *final(receiver) == *old(receiver),
    {
        match self.mutability {
            Mutability::Mutating => {},
            Mutability::Consuming => {
                return false;
            },
        }
        match find_slot(receiver, &self.field) {
            Some(at) => {
                receiver.slots.set(at, Slot { name: self.field.clone(), value });
                assert(receiver.model() =~= assigned(old(receiver).model(), self.field@, value));
                true
            },
            None => false,
        }
    }
}

} // verus!
