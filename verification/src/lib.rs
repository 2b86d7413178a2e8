//! A round-robin accessor over a fixed-length sequence of slots.
//!
//! A [`Looper`](looper::Looper) owns a non-empty sequence of elements and a
//! cursor.  Every access — a write with [`set`](looper::Looper::set), a read
//! with [`get`](looper::Looper::get), or an in-place update through
//! [`get_mut`](looper::Looper::get_mut) — advances the cursor by one and
//! touches the slot at the old cursor position modulo the length, so that
//! consecutive accesses visit the slots cyclically: `0, 1, ..., len - 1, 0, ...`.
//!
//! The module [`model`] gives the mathematical description of the cursor and
//! of a run of accesses, and [`laws`] proves the round-robin guarantees over
//! that description.

pub mod laws;
pub mod looper;
pub mod model;
