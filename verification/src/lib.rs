//! Unix file owner and group: who owns a path, by number or by name, and how to change it.
//!
//! An `Owner` or a `Group` is a numeric identifier. A caller names one by number or by name
//! (`OwnerSpec`, `GroupSpec`); a name is resolved in the system's directory before anything
//! is changed. `set_owner`, `set_group` and `set_owner_group` ask the system for a change;
//! `owner`, `group` and `owner_group` turn what a read of a path's metadata returned into
//! identities. Every failure is a `FileOwnerError`.

pub mod change;
pub mod decimal;
mod directory;
pub mod error;
pub mod identity;
pub mod read;

pub use crate::change::{set_group, set_owner, set_owner_group, Change, UNCHANGED};
pub use crate::error::{ErrorSource, Failure, FileOwnerError};
pub use crate::identity::{Group, GroupSpec, Owner, OwnerSpec};
pub use crate::read::{group, owner, owner_group, Stat};
