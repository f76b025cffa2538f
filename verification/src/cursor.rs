//! The cursor type, its operations, and their specifications.

use vstd::prelude::*;
use vstd::arithmetic::div_mod::lemma_add_mod_noop_right;
use vstd::arithmetic::div_mod::lemma_mod_add_multiples_vanish;
use vstd::arithmetic::div_mod::lemma_mod_bound;
use vstd::arithmetic::div_mod::lemma_small_mod;

verus! {

/// Returned by [`CycleCursor::try_get`] when the stored position no longer
/// indexes into the backing sequence because the sequence was shortened
/// through direct access after the position was last set.
#[derive(Clone, Copy, Debug, PartialEq, Eq, Structural)]
pub struct StalePosition;

/// A cyclic, bidirectional, peekable cursor over an owned sequence of
/// elements.
///
/// The cursor owns a backing vector, [`Self::inner`], and an optional current
/// position, [`Self::pos`]. A freshly built cursor has no position; the first
/// call to [`Self::cycle_next`] or [`Self::cycle_prev`] enters the sequence.
///
/// Both fields are public on purpose: `inner` may be read and mutated
/// directly, so the full vector interface stays available without being
/// re-exposed method by method. The price of direct mutation is that `pos` is
/// left untouched and may become stale (an index at or past the new end) when
/// the sequence shrinks. Moving the cursor again ([`Self::cycle_next`],
/// [`Self::cycle_prev`] or [`Self::seek`]) brings the position back into
/// range. [`Self::get`] demands a position that is not stale, while
/// [`Self::try_get`] reports a stale position as an error instead of ever
/// returning a wrong or silently absent value.
#[derive(Clone, Debug)]
pub struct CycleCursor<T> {
    /// The backing sequence, in the order the cursor walks it.
    pub inner: Vec<T>,
    /// The current position: an index into `inner`, or `None` while unset.
    pub pos: Option<usize>,
}

impl<T> CycleCursor<T> {
    /// Length of the backing sequence, as a mathematical integer.
    pub open spec fn length(self) -> int {
        self.inner@.len() as int
    }

    /// True when the stored position, if set, indexes into the backing
    /// sequence.
    pub open spec fn position_in_bounds(self) -> bool {
        match self.pos {
            Some(p) => (p as int) < self.length(),
            None => true,
        }
    }

    /// The element under the cursor: `None` while the position is unset.
    pub open spec fn current(self) -> Option<T>
        recommends
            self.position_in_bounds(),
    {
        match self.pos {
            Some(p) => Some(self.inner@[p as int]),
            None => None,
        }
    }

    /// The index reached from the current position (from the last index, when
    /// the position is unset) by moving `offset` slots, wrapping modulo the
    /// length.
    pub open spec fn target_index(self, offset: int) -> int
        recommends
            self.length() > 0,
    {
        let base = match self.pos {
            Some(p) => p as int,
            None => self.length() - 1,
        };
        (base + offset) % self.length()
    }

    /// The cursor after one forward step: unchanged on an empty sequence;
    /// otherwise the position enters at index 0 when it was unset, and
    /// advances one slot, wrapping past the last index, when it was set.
    pub open spec fn cycled_next(self) -> Self {
        if self.length() == 0 {
            self
        } else {
            let next = match self.pos {
                Some(p) => (p as int + 1) % self.length(),
                None => 0int,
            };
            CycleCursor { inner: self.inner, pos: Some(next as usize) }
        }
    }

    /// The cursor after one backward step: unchanged on an empty sequence;
    /// otherwise the position enters at the last index when it was unset, and
    /// moves back one slot, wrapping below index 0, when it was set.
    pub open spec fn cycled_prev(self) -> Self {
        if self.length() == 0 {
            self
        } else {
            let prev = match self.pos {
                Some(p) => (p as int - 1) % self.length(),
                None => self.length() - 1,
            };
            CycleCursor { inner: self.inner, pos: Some(prev as usize) }
        }
    }

    /// The cursor after a relative seek: unchanged on an empty sequence;
    /// otherwise positioned at [`Self::target_index`] of `offset`.
    pub open spec fn sought(self, offset: int) -> Self {
        if self.length() == 0 {
            self
        } else {
            CycleCursor { inner: self.inner, pos: Some(self.target_index(offset) as usize) }
        }
    }

    /// The element a relative peek finds: `None` on an empty sequence,
    /// otherwise the element at [`Self::target_index`] of `offset`.
    pub open spec fn peeked(self, offset: int) -> Option<T> {
        if self.length() == 0 {
            None
        } else {
            Some(self.inner@[self.target_index(offset)])
        }
    }

    /// Moves the cursor one element forward, wrapping back to the first
    /// element after the last. On an empty sequence this is a no-op; from an
    /// unset position it enters the sequence at the first element.
    pub fn cycle_next(&mut self)
        ensures
            *final(self) == old(self).cycled_next(),
    {
        let max_items: usize = self.inner.len();
        if max_items == 0 {
            return;
        }

        let base: usize = match self.pos {
            Some(p) => p % max_items,
            None => max_items - 1,
        };
        let next: usize = if base + 1 == max_items {
            0
        } else {
            base + 1
        };
        proof {
            let n = self.length();
            if let Some(p) = self.pos {
                lemma_add_mod_noop_right(1, p as int, n);
                lemma_mod_bound(p as int, n);
                if (p as int) % n + 1 == n {
                    lemma_mod_add_multiples_vanish(0, n);
                } else {
                    lemma_small_mod(((p as int) % n + 1) as nat, n as nat);
                }
            }
        }
        self.pos = Some(next);
    }

    /// Moves the cursor one element backward, wrapping to the last element
    /// before the first. On an empty sequence this is a no-op; from an unset
    /// position it enters the sequence at the last element.
    pub fn cycle_prev(&mut self)
        ensures
            *final(self) == old(self).cycled_prev(),
    {
        let max_items: usize = self.inner.len();
        if max_items == 0 {
            return;
        }

        let prev: usize = match self.pos {
            Some(p) => {
                let wrapped: usize = p % max_items;
                if wrapped == 0 {
                    max_items - 1
                } else {
                    wrapped - 1
                }
            },
            None => max_items - 1,
        };
        proof {
            let n = self.length();
            if let Some(p) = self.pos {
                lemma_add_mod_noop_right(-1, p as int, n);
                lemma_mod_bound(p as int, n);
                if (p as int) % n == 0 {
                    lemma_mod_add_multiples_vanish(-1, n);
                    lemma_small_mod((n - 1) as nat, n as nat);
                } else {
                    lemma_small_mod(((p as int) % n - 1) as nat, n as nat);
                }
            }
        }
        self.pos = Some(prev);
    }

    /// The wrapped index for a relative `offset`, as executable code. A
    /// negative offset is normalized by adding the length once, so it must
    /// not be smaller than the negated length; a non-negative offset of any
    /// magnitude is reduced modulo the length.
    fn wrap_index(&self, offset: isize) -> (idx: usize)
        requires
            self.length() > 0,
            offset as int >= -self.length(),
        ensures
            idx == self.target_index(offset as int),
            idx < self.inner@.len(),
    {
        let max_items: usize = self.inner.len();
        let base: usize = match self.pos {
            Some(p) => p % max_items,
            None => max_items - 1,
        };
        let norm: usize = if offset < 0 {
            let magnitude: usize = ((-1 - offset) as usize) + 1;
            max_items - magnitude
        } else {
            (offset as usize) % max_items
        };
        let idx: usize = if norm >= max_items - base {
            norm - (max_items - base)
        } else {
            base + norm
        };
        proof {
            let n = self.length();
            let at = match self.pos {
                Some(p) => p as int,
                None => n - 1,
            };
            // The exec `base` is `at` reduced modulo the length.
            lemma_mod_bound(at, n);
            lemma_small_mod((n - 1) as nat, n as nat);
            // Reducing the base first does not change the wrapped sum.
            if offset < 0 {
                lemma_mod_add_multiples_vanish(at % n + offset, n);
                lemma_add_mod_noop_right(offset as int, at, n);
            } else {
                lemma_add_mod_noop_right(at % n, offset as int, n);
                lemma_add_mod_noop_right(offset as int, at, n);
            }
            // The conditional subtraction is the final modulo.
            if base + norm >= n {
                lemma_mod_add_multiples_vanish(base + norm - n, n);
                lemma_small_mod((base + norm - n) as nat, n as nat);
            } else {
                lemma_small_mod((base + norm) as nat, n as nat);
            }
        }
        idx
    }

    /// Reads the element `peek_distance` slots away from the current position
    /// (from the last index, when the position is unset), wrapping at either
    /// end, without moving the cursor. Returns `None` exactly when the
    /// sequence is empty.
    pub fn peek(&self, peek_distance: isize) -> (r: Option<&T>)
        requires
            self.length() > 0 ==> peek_distance as int >= -self.length(),
        ensures
            r is Some <==> self.peeked(peek_distance as int) is Some,
            r matches Some(element) ==> Some(*element) == self.peeked(peek_distance as int),
    {
        let max_items: usize = self.inner.len();
        if max_items == 0 {
            return None;
        }
        let idx: usize = self.wrap_index(peek_distance);
        Some(&self.inner[idx])
    }

    /// Moves the cursor by `seek_distance` slots from the current position
    /// (from the last index, when the position is unset), wrapping at either
    /// end. On an empty sequence this is a no-op.
    pub fn seek(&mut self, seek_distance: isize)
        requires
            old(self).length() > 0 ==> seek_distance as int >= -old(self).length(),
        ensures
            *final(self) == old(self).sought(seek_distance as int),
    {
        let max_items: usize = self.inner.len();
        if max_items == 0 {
            return;
        }
        let idx: usize = self.wrap_index(seek_distance);
        self.pos = Some(idx);
    }

    /// Reads the element at the current position, or `None` while the
    /// position is unset. The position must not be stale: a caller that may
    /// have shortened the backing sequence since the position was last set
    /// moves the cursor first, or calls [`Self::try_get`] instead.
    pub fn get(&self) -> (r: Option<&T>)
        requires
            self.position_in_bounds(),
        ensures
            r is Some <==> self.current() is Some,
            r matches Some(element) ==> Some(*element) == self.current(),
    {
        match self.pos {
            Some(p) => Some(&self.inner[p]),
            None => None,
        }
    }

    /// Reads the element at the current position like [`Self::get`], but
    /// reports a stale position — one at or past the end of the shortened
    /// backing sequence — as [`StalePosition`] rather than demanding in
    /// advance that it cannot occur.
    pub fn try_get(&self) -> (r: Result<Option<&T>, StalePosition>)
        ensures
            r is Ok <==> self.position_in_bounds(),
            r matches Ok(found) ==> (found is Some <==> self.current() is Some),
            r matches Ok(found) ==> (found matches Some(element) ==> Some(*element)
                == self.current()),
    {
        match self.pos {
            Some(p) => {
                if p < self.inner.len() {
                    Ok(Some(&self.inner[p]))
                } else {
                    Err(StalePosition)
                }
            },
            None => Ok(None),
        }
    }
}

impl<T> From<Vec<T>> for CycleCursor<T> {
    /// Builds a cursor that owns `elements` in their given order, with the
    /// position unset.
    fn from(elements: Vec<T>) -> Self {
        CycleCursor { inner: elements, pos: None }
    }
}

impl<T> vstd::std_specs::convert::FromSpecImpl<Vec<T>> for CycleCursor<T> {
    open spec fn obeys_from_spec() -> bool {
        true
    }

    open spec fn from_spec(elements: Vec<T>) -> Self {
        CycleCursor { inner: elements, pos: None }
    }
}

impl<T> Default for CycleCursor<T> {
    /// An empty cursor with no position.
    fn default() -> (cursor: Self)
        ensures
            cursor.length() == 0,
            cursor.pos is None,
    {
        CycleCursor { inner: Vec::new(), pos: None }
    }
}

} // verus!
