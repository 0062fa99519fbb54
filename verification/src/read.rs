//! Reading who owns a path: from the two numbers in its metadata to `Owner` and `Group`.
//!
//! The read itself is the caller's: it hands in what the read returned, and one read serves
//! for both identities.

use vstd::prelude::*;
use crate::error::{fails_with, Failure, FileOwnerError};
use crate::identity::{Group, Owner};

verus! {

/// The ownership that a path's metadata holds: the numeric identifiers of its owner and of
/// its group.
#[derive(Debug, Copy, Clone, PartialEq, Eq, Structural)]
pub struct Stat {
    /// The identifier of the owning user.
    pub uid: u32,
    /// The identifier of the owning group.
    pub gid: u32,
}

/// The owner of a path, `read` being what reading the path's metadata returned: the owner
/// that the metadata name, or the failure of the read as an `IoError`.
pub fn owner(read: Result<Stat, std::io::Error>) -> (r: Result<Owner, FileOwnerError>)
    ensures
        match read {
            Ok(stat) => r matches Ok(owner) && owner@ == stat.uid,
            Err(e) => fails_with(r, Failure::Io(e)),
        },
{
    match read {
        Ok(stat) => Ok(Owner::from_uid(stat.uid)),
        Err(e) => Err(FileOwnerError::IoError(e)),
    }
}

/// The group of a path, `read` being what reading the path's metadata returned: the group
/// that the metadata name, or the failure of the read as an `IoError`.
pub fn group(read: Result<Stat, std::io::Error>) -> (r: Result<Group, FileOwnerError>)
    ensures
        match read {
            Ok(stat) => r matches Ok(group) && group@ == stat.gid,
            Err(e) => fails_with(r, Failure::Io(e)),
        },
{
    match read {
        Ok(stat) => Ok(Group::from_gid(stat.gid)),
        Err(e) => Err(FileOwnerError::IoError(e)),
    }
}

/// The owner and the group of a path from one read of its metadata, `read` being what the
/// read returned: both identities that the metadata name, or the failure of the read as an
/// `IoError`.
pub fn owner_group(read: Result<Stat, std::io::Error>) -> (r: Result<
    (Owner, Group),
    FileOwnerError,
>)
    ensures
        match read {
            Ok(stat) => r matches Ok(both) && both.0@ == stat.uid && both.1@ == stat.gid,
            Err(e) => fails_with(r, Failure::Io(e)),
        },
{
    match read {
        Ok(stat) => Ok((Owner::from_uid(stat.uid), Group::from_gid(stat.gid))),
        Err(e) => Err(FileOwnerError::IoError(e)),
    }
}

} // verus!
