//! The user and group directory of the operating system, asked through `nix`.
//!
//! What the directory holds is not known to the library: an answer depends on the machine and
//! on the moment, and two lookups of one name may differ. So each lookup here promises only
//! what holds of every answer, and the functions that use an answer say what they do with
//! each one.

use vstd::prelude::*;

verus! {

/// `nix::unistd::User::from_name`: the numeric identifier of the user called `name`.
///
/// `Ok(None)` says that the directory has no such user, `Err` that the lookup itself failed.
/// A name with a NUL character in it is never handed to the system: the answer is `Ok(None)`.
/// Nothing else is claimed.
#[verifier::external_body]
pub(crate) fn user_id_by_name(name: &str) -> (found: Result<Option<u32>, nix::errno::Errno>)
    ensures
        name@.contains('\0') ==> found matches Ok(None),
{
    nix::unistd::User::from_name(name).map(|entry| entry.map(|user| user.uid.as_raw()))
}

/// `nix::unistd::User::from_uid`: the name of the user with the identifier `uid`.
///
/// `Ok(None)` says that the directory has no such user, `Err` that the lookup itself failed.
/// A name that is found was read from a C string, which ends at its first NUL, so it has
/// no NUL character in it. Nothing else is claimed.
#[verifier::external_body]
pub(crate) fn user_name_by_id(uid: u32) -> (found: Result<Option<String>, nix::errno::Errno>)
    ensures
        found matches Ok(Some(name)) ==> !name@.contains('\0'),
{
    nix::unistd::User::from_uid(nix::unistd::Uid::from_raw(uid)).map(
        |entry| entry.map(|user| user.name),
    )
}

/// `nix::unistd::Group::from_name`: the numeric identifier of the group called `name`.
///
/// `Ok(None)` says that the directory has no such group, `Err` that the lookup itself failed.
/// A name with a NUL character in it is never handed to the system: the answer is `Ok(None)`.
/// Nothing else is claimed.
#[verifier::external_body]
pub(crate) fn group_id_by_name(name: &str) -> (found: Result<Option<u32>, nix::errno::Errno>)
    ensures
        name@.contains('\0') ==> found matches Ok(None),
{
    nix::unistd::Group::from_name(name).map(|entry| entry.map(|group| group.gid.as_raw()))
}

/// `nix::unistd::Group::from_gid`: the name of the group with the identifier `gid`.
///
/// `Ok(None)` says that the directory has no such group, `Err` that the lookup itself failed.
/// A name that is found was read from a C string, which ends at its first NUL, so it has
/// no NUL character in it. Nothing else is claimed.
#[verifier::external_body]
pub(crate) fn group_name_by_id(gid: u32) -> (found: Result<Option<String>, nix::errno::Errno>)
    ensures
        found matches Ok(Some(name)) ==> !name@.contains('\0'),
{
    nix::unistd::Group::from_gid(nix::unistd::Gid::from_raw(gid)).map(
        |entry| entry.map(|group| group.name),
    )
}

} // verus!
