//! Changing who owns a path: the owner, the group, or both in one call.

use vstd::prelude::*;
use crate::error::{fails_in_os, fails_only_in_os, fails_with, Failure, FileOwnerError};
use crate::identity::{Group, GroupSpec, Owner, OwnerSpec};
use crate::read::Stat;

verus! {

/// `std::path::Path`: a path as the caller holds it. The library hands it on to the system
/// and never looks inside.
#[verifier::external_type_specification]
#[verifier::external_body]
pub struct ExPath(std::path::Path);

/// The identifier that stands for "leave this side as it is" in a change of ownership: the
/// number with all bits set, which is -1 to the system.
pub const UNCHANGED: u32 = 0xffff_ffff;

/// One change of ownership as the system is asked for it: a new owner, a new group, or both.
/// A side that is `None` is not part of the request.
#[derive(Debug, Copy, Clone)]
pub struct Change {
    /// The new owner, if the owner is to change.
    pub owner: Option<Owner>,
    /// The new group, if the group is to change.
    pub group: Option<Group>,
}

impl Change {
    /// The change that asks for a new owner and nothing else.
    pub open spec fn spec_of_owner(owner: Owner) -> Change {
        Change { owner: Some(owner), group: None }
    }

    /// The change that asks for a new group and nothing else.
    pub open spec fn spec_of_group(group: Group) -> Change {
        Change { owner: None, group: Some(group) }
    }

    /// The change that asks for a new owner and a new group at once.
    pub open spec fn spec_of_both(owner: Owner, group: Group) -> Change {
        Change { owner: Some(owner), group: Some(group) }
    }

    /// The two numbers that go to the system: each side's identifier where the side is part
    /// of the request.
    pub open spec fn spec_raw_ids(self) -> (Option<u32>, Option<u32>) {
        (
            match self.owner {
                Some(owner) => Some(owner@),
                None => None,
            },
            match self.group {
                Some(group) => Some(group@),
                None => None,
            },
        )
    }

    /// The ownership of a path after this change has succeeded on it, `before` being its
    /// ownership until then. This is what chown(2) lays down: a side that is not part of the
    /// request stays, and so does a side whose new identifier is `UNCHANGED`.
    pub open spec fn spec_applied(self, before: Stat) -> Stat {
        let ids = self.spec_raw_ids();
        Stat {
            uid: match ids.0 {
                Some(uid) => if uid == UNCHANGED {
                    before.uid
                } else {
                    uid
                },
                None => before.uid,
            },
            gid: match ids.1 {
                Some(gid) => if gid == UNCHANGED {
                    before.gid
                } else {
                    gid
                },
                None => before.gid,
            },
        }
    }

    /// The change that asks for a new owner and nothing else.
    #[verifier::when_used_as_spec(spec_of_owner)]
    pub fn of_owner(owner: Owner) -> (change: Change)
        ensures
            change == Change::spec_of_owner(owner),
    {
        Change { owner: Some(owner), group: None }
    }

    /// The change that asks for a new group and nothing else.
    #[verifier::when_used_as_spec(spec_of_group)]
    pub fn of_group(group: Group) -> (change: Change)
        ensures
            change == Change::spec_of_group(group),
    {
        Change { owner: None, group: Some(group) }
    }

    /// The change that asks for a new owner and a new group at once.
    #[verifier::when_used_as_spec(spec_of_both)]
    pub fn of_both(owner: Owner, group: Group) -> (change: Change)
        ensures
            change == Change::spec_of_both(owner, group),
    {
        Change { owner: Some(owner), group: Some(group) }
    }

    /// The two numbers that go to the system.
    #[verifier::when_used_as_spec(spec_raw_ids)]
    pub fn raw_ids(self) -> (ids: (Option<u32>, Option<u32>))
        ensures
            ids == self.spec_raw_ids(),
    {
        (
            match self.owner {
                Some(owner) => Some(owner.id()),
                None => None,
            },
            match self.group {
                Some(group) => Some(group.id()),
                None => None,
            },
        )
    }

    /// The ownership of a path after this change has succeeded on it, `before` being its
    /// ownership until then.
    #[verifier::when_used_as_spec(spec_applied)]
    pub fn applied(self, before: Stat) -> (after: Stat)
        ensures
            after == self.spec_applied(before),
    {
        let ids = self.raw_ids();
        Stat {
            uid: match ids.0 {
                Some(uid) => if uid == UNCHANGED {
                    before.uid
                } else {
                    uid
                },
                None => before.uid,
            },
            gid: match ids.1 {
                Some(gid) => if gid == UNCHANGED {
                    before.gid
                } else {
                    gid
                },
                None => before.gid,
            },
        }
    }

    /// The change that sets the owner to the one that `owner` names, and nothing else.
    ///
    /// The owner is resolved here, before anything is asked of the system. A number always
    /// gives a change, to that number. A name fails as `Owner::from_name` does.
    pub fn for_owner(owner: &OwnerSpec) -> (r: Result<Change, FileOwnerError>)
        ensures
            r matches Ok(change) ==> change.owner is Some && change.group is None,
            match owner {
                OwnerSpec::ById(uid) => r matches Ok(change) && change.raw_ids().0 == Some(*uid),
                OwnerSpec::ByName(name) => Owner::looked_up(name@, r),
            },
    {
        match owner.resolve() {
            Ok(new_owner) => Ok(Change::of_owner(new_owner)),
            Err(e) => Err(e),
        }
    }

    /// The change that sets the group to the one that `group` names, and nothing else.
    ///
    /// The group is resolved here, before anything is asked of the system. A number always
    /// gives a change, to that number. A name fails as `Group::from_name` does.
    pub fn for_group(group: &GroupSpec) -> (r: Result<Change, FileOwnerError>)
        ensures
            r matches Ok(change) ==> change.owner is None && change.group is Some,
            match group {
                GroupSpec::ById(gid) => r matches Ok(change) && change.raw_ids().1 == Some(*gid),
                GroupSpec::ByName(name) => Group::looked_up(name@, r),
            },
    {
        match group.resolve() {
            Ok(new_group) => Ok(Change::of_group(new_group)),
            Err(e) => Err(e),
        }
    }

    /// The change that sets the owner and the group to those that `owner` and `group` name.
    ///
    /// Both are resolved here, the owner first, before anything is asked of the system:
    /// there is a change only if both are resolved, and it always has both sides. A side
    /// given by number is set to that number. Two numbers always give a change.
    pub fn for_both(owner: &OwnerSpec, group: &GroupSpec) -> (r: Result<
        Change,
        FileOwnerError,
    >)
        ensures
            r matches Ok(change) ==> change.owner is Some && change.group is Some,
            owner matches OwnerSpec::ById(uid) ==> (r matches Ok(change) ==> change.raw_ids().0
                == Some(*uid)),
            group matches GroupSpec::ById(gid) ==> (r matches Ok(change) ==> change.raw_ids().1
                == Some(*gid)),
            match (owner, group) {
                (OwnerSpec::ById(_), GroupSpec::ById(_)) => r is Ok,
                (OwnerSpec::ByName(user), GroupSpec::ById(_)) => Owner::looked_up(user@, r),
                (OwnerSpec::ById(_), GroupSpec::ByName(name)) => Group::looked_up(name@, r),
                (OwnerSpec::ByName(user), GroupSpec::ByName(name)) => both_looked_up(
                    user@,
                    name@,
                    r,
                ),
            },
    {
        match owner.resolve() {
            Ok(new_owner) => match group.resolve() {
                Ok(new_group) => Ok(Change::of_both(new_owner, new_group)),
                Err(e) => Err(e),
            },
            Err(e) => Err(e),
        }
    }

    /// What a change returns when the system answered `changed` to it: success as it
    /// stands, a failure as an `OsError`.
    pub fn outcome(changed: Result<(), nix::errno::Errno>) -> (r: Result<(), FileOwnerError>)
        ensures
            match changed {
                Ok(_) => r is Ok,
                Err(errno) => fails_with(r, Failure::Os(errno)),
            },
    {
        match changed {
            Ok(()) => Ok(()),
            Err(errno) => Err(FileOwnerError::OsError(errno)),
        }
    }

    /// Asks the system for this change on `path`, in one call.
    ///
    /// Whether the path exists and the caller may change it is for the system to say; the
    /// only failure is an `OsError`. What goes to the system is `raw_ids`, and `outcome`
    /// says what becomes of each answer.
    pub fn apply(self, path: &std::path::Path) -> (r: Result<(), FileOwnerError>)
        ensures
            fails_only_in_os(r),
    {
        let ids = self.raw_ids();
        Change::outcome(chown(path, ids.0, ids.1))
    }
}

/// `nix::unistd::chown`: asks the system to set the owner of `path` to `uid` and its group
/// to `gid`, leaving a side that is `None` as it is.
///
/// The answer depends on the file system and on the caller's rights, and the effect is on
/// the file system, of which the library holds no value. So nothing is claimed.
#[verifier::external_body]
fn chown(path: &std::path::Path, uid: Option<u32>, gid: Option<u32>) -> (changed: Result<
    (),
    nix::errno::Errno,
>) {
    nix::unistd::chown(
        path,
        uid.map(nix::unistd::Uid::from_raw),
        gid.map(nix::unistd::Gid::from_raw),
    )
}

/// What holds of `r`, the outcome of something for which the user `user` and then the group
/// `group` had to be looked up first, whatever the directory and the system answered: a
/// failure is an `OsError`, or it is that one of the two names was not found, with exactly
/// that name. The user comes first: a user's name with a NUL character in it is the one not
/// found. A group's name with one makes for a failure, as not found or earlier on the user.
pub open spec fn both_looked_up<T>(
    user: Seq<char>,
    group: Seq<char>,
    r: Result<T, FileOwnerError>,
) -> bool {
    &&& r is Err ==> {
        ||| fails_in_os(r)
        ||| fails_with(r, Failure::UserNotFound(user))
        ||| fails_with(r, Failure::GroupNotFound(group))
    }
    &&& user.contains('\0') ==> fails_with(r, Failure::UserNotFound(user))
    &&& group.contains('\0') ==> r is Err
}

/// Sets the owner of the file at `path`, and leaves its group as it is.
///
/// The change is `Change::for_owner`: the owner is resolved first, and if that fails, the
/// failure is returned as it is and the system is not asked for any change. With an owner
/// given by number nothing is looked up, and the only failure is an `OsError`.
pub fn set_owner(path: &std::path::Path, owner: OwnerSpec) -> (r: Result<(), FileOwnerError>)
    ensures
        match owner {
            OwnerSpec::ById(_) => fails_only_in_os(r),
            OwnerSpec::ByName(name) => Owner::looked_up(name@, r),
        },
{
    match Change::for_owner(&owner) {
        Ok(change) => change.apply(path),
        Err(e) => Err(e),
    }
}

/// Sets the group of the file at `path`, and leaves its owner as it is.
///
/// The change is `Change::for_group`: the group is resolved first, and if that fails, the
/// failure is returned as it is and the system is not asked for any change. With a group
/// given by number nothing is looked up, and the only failure is an `OsError`.
pub fn set_group(path: &std::path::Path, group: GroupSpec) -> (r: Result<(), FileOwnerError>)
    ensures
        match group {
            GroupSpec::ById(_) => fails_only_in_os(r),
            GroupSpec::ByName(name) => Group::looked_up(name@, r),
        },
{
    match Change::for_group(&group) {
        Ok(change) => change.apply(path),
        Err(e) => Err(e),
    }
}

/// Sets the owner and the group of the file at `path` in one call to the system.
///
/// The change is `Change::for_both`: the owner is resolved first, then the group. If either
/// fails, the failure is returned as it is and the system is not asked for any change:
/// never is one side set without the other.
pub fn set_owner_group(path: &std::path::Path, owner: OwnerSpec, group: GroupSpec) -> (r: Result<
    (),
    FileOwnerError,
>)
    ensures
        match (owner, group) {
            (OwnerSpec::ById(_), GroupSpec::ById(_)) => fails_only_in_os(r),
            (OwnerSpec::ByName(user), GroupSpec::ById(_)) => Owner::looked_up(user@, r),
            (OwnerSpec::ById(_), GroupSpec::ByName(name)) => Group::looked_up(name@, r),
            (OwnerSpec::ByName(user), GroupSpec::ByName(name)) => both_looked_up(
                user@,
                name@,
                r,
            ),
        },
{
    match Change::for_both(&owner, &group) {
        Ok(change) => change.apply(path),
        Err(e) => Err(e),
    }
}

/// A side that is not part of a change stays as it was. So changing the owner alone leaves
/// the group of a path, and changing the group alone leaves the owner: the changes of
/// `for_owner` and `of_owner` have no group side, those of `for_group` and `of_group` no
/// owner side.
pub proof fn law_one_side_leaves_the_other(
    change: Change,
    owner: Owner,
    group: Group,
    before: Stat,
)
    ensures
        change.group is None ==> change.applied(before).gid == before.gid,
        change.owner is None ==> change.applied(before).uid == before.uid,
        Change::of_owner(owner).group is None,
        Change::of_group(group).owner is None,
        Change::of_owner(owner).applied(before).gid == before.gid,
        Change::of_group(group).applied(before).uid == before.uid,
{
}

/// A change made twice in a row leaves a path as the change made once does: the second
/// time nothing moves.
pub proof fn law_twice_is_once(change: Change, before: Stat)
    ensures
        change.applied(change.applied(before)) == change.applied(before),
{
}

/// What was set is what is read: after a change the metadata name the new owner and the new
/// group, on each side that was part of the request. This holds for every identifier but
/// `UNCHANGED`, which the system takes as no request.
pub proof fn law_set_then_read(owner: Owner, group: Group, before: Stat)
    requires
        owner@ != UNCHANGED,
        group@ != UNCHANGED,
    ensures
        Change::of_owner(owner).applied(before) == (Stat { uid: owner@, gid: before.gid }),
        Change::of_group(group).applied(before) == (Stat { uid: before.uid, gid: group@ }),
        Change::of_both(owner, group).applied(before) == (Stat { uid: owner@, gid: group@ }),
{
}

/// The identifier `UNCHANGED` asks for nothing: a change to it leaves the side as it was.
pub proof fn law_unchanged_asks_for_nothing(before: Stat)
    ensures
        Change::of_both(Owner::from_uid(UNCHANGED), Group::from_gid(UNCHANGED)).applied(before)
            == before,
{
    crate::identity::law_owner_is_its_id(
        Owner::from_uid(UNCHANGED),
        Owner::from_uid(UNCHANGED),
        UNCHANGED,
    );
    crate::identity::law_group_is_its_id(
        Group::from_gid(UNCHANGED),
        Group::from_gid(UNCHANGED),
        UNCHANGED,
    );
}

} // verus!
