//! The round-robin guarantees, proved over the model.

use vstd::arithmetic::div_mod::{
    lemma_add_mod_noop, lemma_mod_add_multiples_vanish, lemma_mod_division_less_than_divisor,
    lemma_mod_self_0, lemma_small_mod,
};
use vstd::prelude::*;

use crate::model::{bump, cursor_after, run, slot_of, slot_visited, step, Access};

verus! {

/// As long as the counter does not wrap, the cursor value obtained by the
/// access made `k` accesses after the cursor stood at `c0` is exactly
/// `c0 + k`: successive accesses obtain pairwise distinct cursor values
/// that form a contiguous range starting at `c0`.
pub proof fn lemma_contiguous_cursor_values(c0: nat, k: nat)
    requires
        c0 + k <= usize::MAX,
    ensures
        cursor_after(c0, k) == c0 + k,
    decreases k,
{
    if k > 0 {
        lemma_contiguous_cursor_values(c0, (k - 1) as nat);
    }
}

/// Cyclic visitation: starting from cursor `0` over `len` slots, the first
/// `len` accesses visit the slots `0, 1, ..., len - 1` in order, and the
/// access after those revisits slot `0`.
pub proof fn lemma_cyclic_visitation(len: nat, k: nat)
    requires
        1 <= len <= usize::MAX,
        k < len,
    ensures
        slot_visited(0, len, k) == k,
        slot_visited(0, len, len) == 0,
{
    lemma_contiguous_cursor_values(0, k);
    lemma_contiguous_cursor_values(0, len);
    lemma_small_mod(k, len);
    lemma_mod_self_0(len as int);
}

/// Fetch-and-add determinism, one half: the slot an access touches is
/// fixed by the starting cursor and the access's position in the run
/// alone — the access made `k` accesses after the cursor stood at `c0`
/// touches slot `(c0 + k) % len`, as long as the counter does not wrap.
pub proof fn lemma_fetch_add_determinism(c0: nat, len: nat, k: nat)
    requires
        len >= 1,
        c0 + k <= usize::MAX,
    ensures
        slot_visited(c0, len, k) == (c0 + k) % len,
{
    lemma_contiguous_cursor_values(c0, k);
}

/// Fetch-and-add determinism, the other half: every kind of access
/// advances the cursor by exactly one, so the cursor after a run depends
/// only on how many accesses the run holds, never on whether they write,
/// read, or update — and no run changes the number of slots.
pub proof fn lemma_every_access_advances_once<T>(elems: Seq<T>, c0: nat, accesses: Seq<Access<T>>)
    requires
        elems.len() >= 1,
    ensures
        run(elems, c0, accesses).1 == cursor_after(c0, accesses.len()),
        run(elems, c0, accesses).0.len() == elems.len(),
    decreases accesses.len(),
{
    if accesses.len() > 0 {
        let stepped = step(elems, c0, accesses[0]);
        lemma_every_access_advances_once(stepped.0, stepped.1, accesses.drop_first());
        lemma_cursor_after_shift(c0, (accesses.len() - 1) as nat);
    }
}

/// Counting `k` accesses from the cursor value after one access reaches
/// the same cursor as counting `k + 1` accesses from the start.
proof fn lemma_cursor_after_shift(c0: nat, k: nat)
    ensures
        cursor_after(bump(c0), k) == cursor_after(c0, k + 1),
    decreases k,
{
    if k == 0 {
        assert(cursor_after(c0, 1) == bump(cursor_after(c0, 0)));
    } else {
        lemma_cursor_after_shift(c0, (k - 1) as nat);
        assert(cursor_after(bump(c0), k) == bump(cursor_after(bump(c0), (k - 1) as nat)));
        assert(cursor_after(c0, k + 1) == bump(cursor_after(c0, k)));
    }
}

/// A run whose accesses all miss slot `s` leaves the element in slot `s`
/// as it was.
proof fn lemma_untouched_slot_keeps_value<T>(
    elems: Seq<T>,
    c0: nat,
    accesses: Seq<Access<T>>,
    s: nat,
)
    requires
        elems.len() >= 1,
        s < elems.len(),
        c0 + accesses.len() <= usize::MAX,
        forall|c: nat|
            c0 <= c < c0 + accesses.len() ==> #[trigger] slot_of(c, elems.len()) != s,
    ensures
        run(elems, c0, accesses).0.len() == elems.len(),
        run(elems, c0, accesses).0[s as int] == elems[s as int],
    decreases accesses.len(),
{
    if accesses.len() > 0 {
        let stepped = step(elems, c0, accesses[0]);
        assert(slot_of(c0, elems.len()) != s);
        lemma_untouched_slot_keeps_value(stepped.0, stepped.1, accesses.drop_first(), s);
    }
}

/// Read reflects the latest write: a write at cursor `c0` lands in slot
/// `s = c0 % len`.  The next `len - 1` accesses, whatever they do, all
/// miss slot `s`, so after exactly those `len - 1` further accesses the
/// cursor targets slot `s` again and the slot still holds the written
/// value — the read that follows returns it.  Stated while the counter
/// does not wrap.
pub proof fn lemma_read_reflects_latest_write<T>(
    elems: Seq<T>,
    c0: nat,
    value: T,
    later: Seq<Access<T>>,
)
    requires
        elems.len() >= 1,
        later.len() == elems.len() - 1,
        c0 + elems.len() <= usize::MAX,
    ensures
        ({
            let written = step(elems, c0, Access::Assign(value));
            let end = run(written.0, written.1, later);
            &&& end.0.len() == elems.len()
            &&& end.0[slot_of(c0, elems.len()) as int] == value
            &&& slot_of(end.1, elems.len()) == slot_of(c0, elems.len())
        }),
{
    let len = elems.len();
    let s = slot_of(c0, len);
    let written = step(elems, c0, Access::Assign(value));
    lemma_mod_division_less_than_divisor(c0 as int, len as int);
    assert forall|c: nat| c0 + 1 <= c < c0 + len implies #[trigger] slot_of(c, len) != s by {
        let m = (c - c0) as nat;
        lemma_add_mod_noop(c0 as int, m as int, len as int);
        lemma_small_mod(m, len);
        if s + m < len {
            lemma_small_mod((s + m) as nat, len);
        } else {
            let b = (s + m - len) as nat;
            lemma_mod_add_multiples_vanish(b as int, len as int);
            lemma_small_mod(b, len);
        }
    };
    lemma_untouched_slot_keeps_value(written.0, written.1, later, s);
    lemma_every_access_advances_once(written.0, written.1, later);
    lemma_contiguous_cursor_values((c0 + 1) as nat, later.len());
    lemma_mod_add_multiples_vanish(c0 as int, len as int);
}

} // verus!
