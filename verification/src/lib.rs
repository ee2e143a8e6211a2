//! Primitives for unchecked shared mutability.
//!
//! Three small wrapper types let a program name an aliased mutable location
//! instead of scattering bare pointer casts:
//!
//! - [`SharedMut`](pointer::SharedMut): a copyable handle on a raw mutable
//!   pointer, which it never dereferences.
//! - [`RacyCell`](racy::RacyCell): a cell that owns one value and hands out
//!   references to it without tracking how many are outstanding.
//! - [`RecklessCell`](reckless::RecklessCell): a cell that composes a
//!   [`RacyCell`](racy::RacyCell) and offers the same accessors.
//!
//! None of these types performs any synchronization: they only name the
//! aliasing relationship.  Keeping concurrent accesses free of conflicts is
//! entirely the caller's obligation.

pub mod pointer;
pub mod racy;
pub mod reckless;

pub use pointer::SharedMut;
pub use racy::RacyCell;
pub use reckless::RecklessCell;
