//! The cyclic accessor itself.

use vstd::prelude::*;

use crate::model::{bump, slot_of, step, Access};

verus! {

/// The error returned when an accessor is built from an empty sequence:
/// with no slots there is no slot for the cursor to target.
#[derive(Clone, Copy, Debug, PartialEq, Eq, Structural)]
pub enum LooperError {
    EmptySequence,
}

/// A round-robin accessor over a fixed-length sequence of slots.
///
/// The view `self@` is the owned sequence of elements; `self.cursor()` is
/// the counter whose value modulo `self@.len()` names the slot the next
/// access touches.  Every access advances the cursor by exactly one,
/// wrapping at the machine-word bound.
#[derive(Debug)]
pub struct Looper<T> {
    slots: Vec<T>,
    cursor: usize,
}

impl<T> View for Looper<T> {
    type V = Seq<T>;

    closed spec fn view(&self) -> Seq<T> {
        self.slots@
    }
}

impl<T> Looper<T> {
    /// The cursor's current value.
    pub closed spec fn cursor(&self) -> nat {
        self.cursor as nat
    }

    /// A valid accessor holds at least one slot, and its cursor fits in a
    /// machine word.
    #[verifier::type_invariant]
    pub closed spec fn wf(self) -> bool {
        &&& self@.len() >= 1
        &&& self.cursor() <= usize::MAX
    }

    /// Builds an accessor that owns `values` and starts with cursor `0`.
    /// An empty sequence is rejected: every access indexes by the cursor
    /// modulo the length, which an empty sequence leaves undefined.
    pub fn from_vec(values: Vec<T>) -> (result: Result<Looper<T>, LooperError>)
        ensures
            match result {
                Ok(looper) => {
                    &&& values@.len() >= 1
                    &&& looper@ == values@
                    &&& looper.cursor() == 0
                },
                Err(e) => {
                    &&& values@.len() == 0
                    &&& e == LooperError::EmptySequence
                },
            },
    {
        if values.len() == 0 {
            Err(LooperError::EmptySequence)
        } else {
            Ok(Looper { slots: values, cursor: 0 })
        }
    }

    /// Stores `value` in the slot the cursor targets and advances the
    /// cursor by one.
    pub fn set(&mut self, value: T)
        ensures
            final(self)@ == old(self)@.update(
                slot_of(old(self).cursor(), old(self)@.len()) as int,
                value,
            ),
            final(self).cursor() == bump(old(self).cursor()),
            (final(self)@, final(self).cursor()) == step(
                old(self)@,
                old(self).cursor(),
                Access::Assign(value),
            ),
    {
        proof {
            use_type_invariant(&*self);
        }
        let len = self.slots.len();
        let index = self.cursor;
        self.cursor = if index == usize::MAX {
            0
        } else {
            index + 1
        };
        self.slots[index % len] = value;
    }

    /// Returns the element in the slot the cursor targets and advances the
    /// cursor by one.  The elements themselves are left unchanged.
    pub fn get(&mut self) -> (element: &T)
        ensures
            *element == old(self)@[slot_of(old(self).cursor(), old(self)@.len()) as int],
            final(self)@ == old(self)@,
            final(self).cursor() == bump(old(self).cursor()),
            (final(self)@, final(self).cursor()) == step(
                old(self)@,
                old(self).cursor(),
                Access::Observe,
            ),
    {
        proof {
            use_type_invariant(&*self);
        }
        let len = self.slots.len();
        let index = self.cursor;
        self.cursor = if index == usize::MAX {
            0
        } else {
            index + 1
        };
        &self.slots[index % len]
    }

    /// Returns a mutable reference into the slot the cursor targets and
    /// advances the cursor by one — by one even when the caller never
    /// writes through the reference: obtaining it spends the turn.
    pub fn get_mut(&mut self) -> (element: &mut T)
        ensures
            *element == old(self)@[slot_of(old(self).cursor(), old(self)@.len()) as int],
            final(self)@ == old(self)@.update(
                slot_of(old(self).cursor(), old(self)@.len()) as int,
                *final(element),
            ),
            final(self).cursor() == bump(old(self).cursor()),
            (final(self)@, final(self).cursor()) == step(
                old(self)@,
                old(self).cursor(),
                Access::Update(*final(element)),
            ),
    {
        proof {
            use_type_invariant(&*self);
        }
        let len = self.slots.len();
        let index = self.cursor;
        self.cursor = if index == usize::MAX {
            0
        } else {
            index + 1
        };
        &mut self.slots[index % len]
    }
}

} // verus!
