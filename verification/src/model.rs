//! Mathematical model of the cyclic accessor.
//!
//! The accessor's state is a sequence of elements together with a cursor.
//! Every access advances the cursor by one, wrapping at the machine-word
//! bound, and touches the slot at the old cursor value modulo the length.
//! [`Access`] describes one access by its effect on the touched slot, and
//! [`step`] / [`run`] give the state after one access or a run of them.

use vstd::prelude::*;

verus! {

/// The cursor value after one access: one more than `cursor`, wrapping to
/// zero at the machine-word bound, as an unsigned counter does.
pub open spec fn bump(cursor: nat) -> nat {
    if cursor < usize::MAX {
        cursor + 1
    } else {
        0
    }
}

/// The slot an access touches when the cursor stands at `cursor`.
pub open spec fn slot_of(cursor: nat, len: nat) -> nat
    recommends
        len >= 1,
{
    cursor % len
}

/// The cursor value after `k` accesses starting from `c0`.
pub open spec fn cursor_after(c0: nat, k: nat) -> nat
    decreases k,
{
    if k == 0 {
        c0
    } else {
        bump(cursor_after(c0, (k - 1) as nat))
    }
}

/// The slot touched by the access made `k` accesses after the cursor stood
/// at `c0` (so `k == 0` names the very next access).
pub open spec fn slot_visited(c0: nat, len: nat, k: nat) -> nat
    recommends
        len >= 1,
{
    slot_of(cursor_after(c0, k), len)
}

/// One access, described by its effect on the slot it touches.
///
/// `Assign(v)` stands for a write that stores `v`; `Observe` for a read,
/// which leaves the slot as it was; `Update(v)` for an access through a
/// mutable reference after which the slot holds `v` (a caller that never
/// writes through the reference is `Update` with the slot's old value).
/// Every kind advances the cursor by exactly one.
pub enum Access<T> {
    Assign(T),
    Observe,
    Update(T),
}

/// The state — elements and cursor — after one access.
pub open spec fn step<T>(elems: Seq<T>, cursor: nat, access: Access<T>) -> (Seq<T>, nat)
    recommends
        elems.len() >= 1,
{
    let s = slot_of(cursor, elems.len()) as int;
    let stepped = match access {
        Access::Assign(v) => elems.update(s, v),
        Access::Observe => elems,
        Access::Update(v) => elems.update(s, v),
    };
    (stepped, bump(cursor))
}

/// The state after a run of accesses, applied in order.
pub open spec fn run<T>(elems: Seq<T>, cursor: nat, accesses: Seq<Access<T>>) -> (Seq<T>, nat)
    recommends
        elems.len() >= 1,
    decreases accesses.len(),
{
    if accesses.len() == 0 {
        (elems, cursor)
    } else {
        let stepped = step(elems, cursor, accesses[0]);
        run(stepped.0, stepped.1, accesses.drop_first())
    }
}

} // verus!
