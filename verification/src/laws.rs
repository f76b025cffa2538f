//! Laws relating the cursor operations.
//!
//! Each public proof function here states one property of [`CycleCursor`]
//! over the same specification functions that the operations' own contracts
//! use, so the property holds of every sequence of calls that establishes the
//! stated premises.

use vstd::prelude::*;
use vstd::arithmetic::div_mod::lemma_add_mod_noop_right;
use vstd::arithmetic::div_mod::lemma_mod_add_multiples_vanish;
use vstd::arithmetic::div_mod::lemma_mod_bound;
use vstd::arithmetic::div_mod::lemma_mod_sub_multiples_vanish;
use vstd::arithmetic::div_mod::lemma_small_mod;
use crate::cursor::CycleCursor;

verus! {

/// The cursor after `count` forward steps.
pub open spec fn cycled_next_n<T>(cursor: CycleCursor<T>, count: nat) -> CycleCursor<T>
    decreases count,
{
    if count == 0 {
        cursor
    } else {
        cycled_next_n(cursor, (count - 1) as nat).cycled_next()
    }
}

/// The cursor after `count` backward steps.
pub open spec fn cycled_prev_n<T>(cursor: CycleCursor<T>, count: nat) -> CycleCursor<T>
    decreases count,
{
    if count == 0 {
        cursor
    } else {
        cycled_prev_n(cursor, (count - 1) as nat).cycled_prev()
    }
}

/// The backing sequence of a real vector is never longer than `usize` can
/// count, so a wrapped index can be carried in a `usize` without loss.
proof fn lemma_length_fits<T>(cursor: CycleCursor<T>)
    ensures
        cursor.length() <= usize::MAX,
{
    broadcast use vstd::std_specs::vec::axiom_spec_len;

    assert(cursor.inner.len() == cursor.inner@.len());
}

/// From a set, in-bounds position, `count` forward steps land exactly where
/// a single seek by `count` lands.
proof fn lemma_cycled_next_n_is_sought<T>(cursor: CycleCursor<T>, count: nat)
    requires
        cursor.pos matches Some(p) && p < cursor.length(),
    ensures
        cycled_next_n(cursor, count) == cursor.sought(count as int),
    decreases count,
{
    let n = cursor.length();
    let p = cursor.pos.unwrap() as int;
    if count == 0 {
        lemma_small_mod(p as nat, n as nat);
        assert(cursor.sought(0) == cursor);
    } else {
        lemma_length_fits(cursor);
        lemma_cycled_next_n_is_sought(cursor, (count - 1) as nat);
        lemma_mod_bound(p + count - 1, n);
        lemma_add_mod_noop_right(1, p + count - 1, n);
    }
}

/// From a set, in-bounds position, `count` backward steps land exactly where
/// a single seek by `-count` lands.
proof fn lemma_cycled_prev_n_is_sought<T>(cursor: CycleCursor<T>, count: nat)
    requires
        cursor.pos matches Some(p) && p < cursor.length(),
    ensures
        cycled_prev_n(cursor, count) == cursor.sought(-(count as int)),
    decreases count,
{
    let n = cursor.length();
    let p = cursor.pos.unwrap() as int;
    if count == 0 {
        lemma_small_mod(p as nat, n as nat);
        assert(cursor.sought(0) == cursor);
    } else {
        lemma_length_fits(cursor);
        lemma_cycled_prev_n_is_sought(cursor, (count - 1) as nat);
        lemma_mod_bound(p - (count - 1), n);
        lemma_add_mod_noop_right(-1, p - (count - 1), n);
    }
}

/// Full-cycle identity, forward: from a set, in-bounds position, as many
/// consecutive forward steps as the sequence has elements return the cursor
/// to exactly the state it started in, so what it reads is unchanged.
pub proof fn lemma_full_cycle_next<T>(cursor: CycleCursor<T>)
    requires
        cursor.pos matches Some(p) && p < cursor.length(),
    ensures
        cycled_next_n(cursor, cursor.length() as nat) == cursor,
{
    let n = cursor.length();
    let p = cursor.pos.unwrap() as int;
    lemma_cycled_next_n_is_sought(cursor, n as nat);
    lemma_mod_add_multiples_vanish(p, n);
    lemma_small_mod(p as nat, n as nat);
}

/// Full-cycle identity, backward: from a set, in-bounds position, as many
/// consecutive backward steps as the sequence has elements return the cursor
/// to exactly the state it started in, so what it reads is unchanged.
pub proof fn lemma_full_cycle_prev<T>(cursor: CycleCursor<T>)
    requires
        cursor.pos matches Some(p) && p < cursor.length(),
    ensures
        cycled_prev_n(cursor, cursor.length() as nat) == cursor,
{
    let n = cursor.length();
    let p = cursor.pos.unwrap() as int;
    lemma_cycled_prev_n_is_sought(cursor, n as nat);
    lemma_mod_sub_multiples_vanish(p, n);
    lemma_small_mod(p as nat, n as nat);
}

/// Seek and peek agree: seeking by an offset and then reading the current
/// element gives exactly what a peek at the same offset gave beforehand. On
/// an empty sequence this needs the position to be unset, as it is on every
/// cursor the library itself positioned.
pub proof fn lemma_seek_then_get_is_peek<T>(cursor: CycleCursor<T>, offset: int)
    requires
        cursor.length() == 0 ==> cursor.pos is None,
    ensures
        cursor.sought(offset).current() == cursor.peeked(offset),
{
    if cursor.length() > 0 {
        lemma_length_fits(cursor);
        let at = match cursor.pos {
            Some(p) => p as int,
            None => cursor.length() - 1,
        };
        lemma_mod_bound(at + offset, cursor.length());
    }
}

/// Zero offset is a pure alias for the current position: with a set,
/// in-bounds position — as after any sequence of moves — a peek at offset 0
/// finds exactly the current element.
pub proof fn lemma_peek_zero_is_get<T>(cursor: CycleCursor<T>)
    requires
        cursor.pos matches Some(p) && p < cursor.length(),
    ensures
        cursor.peeked(0) == cursor.current(),
{
    let p = cursor.pos.unwrap() as int;
    lemma_small_mod(p as nat, cursor.length() as nat);
}

/// Modular wrap: offsets `offset` and `offset + length` reach the same
/// element when peeking and the same state when seeking.
pub proof fn lemma_offset_wraps<T>(cursor: CycleCursor<T>, offset: int)
    requires
        0 <= offset < cursor.length(),
    ensures
        cursor.peeked(offset + cursor.length()) == cursor.peeked(offset),
        cursor.sought(offset + cursor.length()) == cursor.sought(offset),
{
    let n = cursor.length();
    let at = match cursor.pos {
        Some(p) => p as int,
        None => n - 1,
    };
    lemma_mod_add_multiples_vanish(at + offset, n);
}

/// An empty sequence is inert: every movement is a no-op that leaves the
/// cursor — in particular an unset position — unchanged, peeking finds
/// nothing, and with the position unset there is no current element.
pub proof fn lemma_empty_cursor_noops<T>(cursor: CycleCursor<T>, offset: int)
    requires
        cursor.length() == 0,
    ensures
        cursor.cycled_next() == cursor,
        cursor.cycled_prev() == cursor,
        cursor.sought(offset) == cursor,
        cursor.peeked(offset) is None,
        cursor.pos is None ==> cursor.current() is None,
{
}

} // verus!
