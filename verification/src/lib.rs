//! Shared ownership with deterministic reclamation, and cells that allow
//! mutation under statically or dynamically checked aliasing rules.
//!
//! A shared value lives in a control block that counts its owning and its
//! non-owning handles. The counting is explicit: handles are tokens into a
//! heap of control blocks, and every operation that touches a count goes
//! through the heap, so that its contract can say what becomes of the counts,
//! of the payload and of the block.
//!
//! * [`rc`] holds the single-threaded heap, [`rc_laws`] what holds of every
//!   history of a block.
//! * [`arc`] holds the heap whose counters are atomic ([`atomic`]), and
//!   [`arc_protocol`] the proof that its counting is safe under every
//!   interleaving of single atomic accesses.
//! * [`cell`] and [`refcell`] are the two cells of one thread; [`lock`] is
//!   the cell of many threads, with its condition variable, and
//!   [`handshake`] the proof that waiting on a condition under the lock
//!   loses no wake-up.
//! * [`schedule`] and [`exclusion`] treat threads as schedules and prove that
//!   neither atomic increments nor increments under a lock lose an update.
//! * [`once`] is the slot that is filled on first use, [`slices`] the split
//!   of a mutable slice, [`tally`] a count of words.
//!
//! The modules whose names end in `scenarios`, and [`cycles`] and
//! [`globals`], are short programs over these types; each returns what it
//! observed, and its contract says what that is. The remaining modules hold
//! small utilities that the programs around the library use.

pub mod arc;
pub mod arc_protocol;
pub mod arith;
pub mod atomic;
pub mod atomic_scenarios;
pub mod boxes;
pub mod cell;
pub mod cell_scenarios;
pub mod closures;
pub mod combinators;
pub mod cycles;
pub mod draw;
pub mod enums;
pub mod exclusion;
pub mod functions;
pub mod generic;
pub mod globals;
pub mod handshake;
pub mod iter;
pub mod lock;
pub mod messenger;
pub mod minigrep;
pub mod once;
pub mod ops;
pub mod rc;
pub mod rc_laws;
pub mod rc_scenarios;
pub mod refcell;
pub mod schedule;
pub mod shapes;
pub mod slices;
pub mod summary;
pub mod sync_scenarios;
pub mod tally;
pub mod text;
pub mod vectors;
pub mod visibility;
