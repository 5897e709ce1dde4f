//! User-space synchronization primitives: a reader-writer lock whose
//! scheduling discipline is chosen by a moderator, a spinning mutual-exclusion
//! lock and a write-once cell that can be waited on.
//!
//! The bookkeeping that decides who may go on (counters, tickets, flags) is
//! plain data with verified transitions; what holds of a lock whatever its
//! moderator is proved of the abstract machine in [`model`]. The standard
//! library's mutex, condition variable, reader-writer lock and clock are
//! reached through the bindings in [`sync`] and [`clock`], of which nothing is
//! proved. Values are kept in standard locks, so that no access to a value
//! depends on the bookkeeping alone.

pub mod clock;
pub mod completable;
pub mod deadline;
pub mod model;
pub mod spinlock;
pub mod sync;
pub mod urw_lock;
pub mod xlock;
