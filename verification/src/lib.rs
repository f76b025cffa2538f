//! A cyclic, bidirectional, peekable cursor over an owned sequence.
//!
//! [`CycleCursor`] owns a resizable sequence of elements together with an
//! optional current position. It can step forward or backward with wrap-around
//! at either end, read an element at a signed relative offset without moving
//! (`peek`), jump by a signed relative offset in one step (`seek`), and read
//! the current element (`get`). A freshly built cursor has no position until
//! the first movement.
//!
//! Every operation carries a contract relating the cursor before and after the
//! call, and the laws tying the operations together (full-cycle identity,
//! seek/peek agreement, modular wrap, emptiness) are stated and proved in
//! [`laws`].

mod cursor;
pub mod laws;

pub use cursor::CycleCursor;
pub use cursor::StalePosition;
