//! Who owns a file: `Owner` and `Group`, each a numeric identifier that can be found by name
//! and shown by name.

use vstd::prelude::*;
use vstd::string::*;
use crate::decimal::{decimal, decimal_string, law_decimal_has_no_nul};
use crate::directory::{group_id_by_name, group_name_by_id, user_id_by_name, user_name_by_id};
use crate::error::{
    fails_in_os, fails_only_in_os, fails_with, succeeds_with, Failure, FileOwnerError,
};

verus! {

/// The owner of a file: a user of the system, held as the numeric identifier.
///
/// Two owners are equal when their identifiers are; a name plays no part.
#[derive(Debug, Copy, Clone, PartialEq, Eq, Hash, Structural)]
pub struct Owner {
    uid: u32,
}

impl View for Owner {
    type V = u32;

    closed spec fn view(&self) -> u32 {
        self.uid
    }
}

impl Owner {
    /// The owner with the identifier `uid`, as contracts write it.
    pub closed spec fn spec_from_uid(uid: u32) -> Owner {
        Owner { uid }
    }

    /// The identifier of this owner, as contracts write it.
    pub closed spec fn spec_id(&self) -> u32 {
        self.uid
    }

    /// What is shown for the owner `uid` when the lookup of its name gave `name`: the name
    /// where there is one, else the identifier as a decimal numeral. A failed lookup counts
    /// as no name.
    pub open spec fn text(uid: u32, name: Result<Option<String>, FileOwnerError>) -> Seq<char> {
        match name {
            Ok(Some(n)) => n@,
            _ => decimal(uid as nat),
        }
    }

    /// What holds of `r`, the outcome of looking the user `name` up, whatever the directory
    /// answered: a failure is `UserNotFound` with exactly this name or an `OsError`, and a
    /// name with a NUL character in it is not found.
    pub open spec fn looked_up<T>(name: Seq<char>, r: Result<T, FileOwnerError>) -> bool {
        &&& r is Err ==> fails_in_os(r) || fails_with(r, Failure::UserNotFound(name))
        &&& name.contains('\0') ==> fails_with(r, Failure::UserNotFound(name))
    }

    /// The owner with the identifier `uid`. Nothing is looked up: the identifier need not
    /// belong to any user.
    #[verifier::when_used_as_spec(spec_from_uid)]
    pub fn from_uid(uid: u32) -> (owner: Owner)
        ensures
            owner == Owner::spec_from_uid(uid),
            owner@ == uid,
    {
        Owner { uid }
    }

    /// The outcome of looking the user `name` up, `found` being what the directory answered:
    /// the user's identifier, no such user, or a failure of the lookup.
    pub fn from_lookup(name: &str, found: Result<Option<u32>, nix::errno::Errno>) -> (r: Result<
        Owner,
        FileOwnerError,
    >)
        ensures
            match found {
                Ok(Some(uid)) => r matches Ok(owner) && owner@ == uid,
                Ok(None) => fails_with(r, Failure::UserNotFound(name@)),
                Err(errno) => fails_with(r, Failure::Os(errno)),
            },
    {
        match found {
            Ok(Some(uid)) => Ok(Owner::from_uid(uid)),
            Ok(None) => Err(FileOwnerError::UserNotFound(String::from_str(name))),
            Err(errno) => Err(FileOwnerError::OsError(errno)),
        }
    }

    /// The owner called `name` in the user directory.
    ///
    /// Whether there is such a user is for the directory to say; `from_lookup` says what
    /// becomes of each answer.
    pub fn from_name(name: &str) -> (r: Result<Owner, FileOwnerError>)
        ensures
            Owner::looked_up(name@, r),
    {
        Owner::from_lookup(name, user_id_by_name(name))
    }

    /// The identifier.
    #[verifier::when_used_as_spec(spec_id)]
    pub fn id(&self) -> (uid: u32)
        ensures
            uid == self@,
            uid == self.spec_id(),
    {
        self.uid
    }

    /// What `name` returns when the directory answered `found` to the lookup of an
    /// identifier: the name or its absence as it stands, a failure as an `OsError`.
    pub fn name_from_lookup(found: Result<Option<String>, nix::errno::Errno>) -> (r: Result<
        Option<String>,
        FileOwnerError,
    >)
        ensures
            match found {
                Ok(name) => succeeds_with(r, name),
                Err(errno) => fails_with(r, Failure::Os(errno)),
            },
    {
        match found {
            Ok(name) => Ok(name),
            Err(errno) => Err(FileOwnerError::OsError(errno)),
        }
    }

    /// The name that the user directory has for this identifier, `None` where it has none.
    ///
    /// That an identifier has no name is no failure; the only failure is an `OsError`.
    /// Whether there is a name, and which, is for the directory to say; a name that it gives
    /// has no NUL character in it. `name_from_lookup` says what becomes of each answer.
    pub fn name(&self) -> (r: Result<Option<String>, FileOwnerError>)
        ensures
            name_looked_up(r),
    {
        Owner::name_from_lookup(user_name_by_id(self.uid))
    }

    /// What is shown for this owner when the lookup of its name gave `name`: the name where
    /// there is one, else the identifier as a decimal numeral.
    pub fn shown(&self, name: Result<Option<String>, FileOwnerError>) -> (s: String)
        ensures
            s@ == Owner::text(self@, name),
            !(name matches Ok(Some(_))) ==> s@ == decimal(self@ as nat),
    {
        match name {
            Ok(Some(n)) => n,
            _ => decimal_string(self.uid),
        }
    }

    /// The name of this owner where the directory has one, else the identifier as a decimal
    /// numeral. A lookup that fails is taken as no name, so this never fails.
    ///
    /// Which of the two it is lies with the directory. Whatever it answered, the text is
    /// what `shown` makes of an answer that `name` may give, and so has no NUL character in
    /// it.
    pub fn to_string(&self) -> (s: String)
        ensures
            exists|name: Result<Option<String>, FileOwnerError>|
                name_looked_up(name) && s@ == #[trigger] Owner::text(self@, name),
            !s@.contains('\0'),
    {
        let name = self.name();
        proof {
            law_decimal_has_no_nul(self@ as nat);
        }
        self.shown(name)
    }
}

/// An owner is its identifier and nothing more: building one from a number and asking for
/// the number gives the number back, building one from an owner's number gives that owner
/// back, and two owners are equal exactly when their numbers are.
pub proof fn law_owner_is_its_id(a: Owner, b: Owner, n: u32)
    ensures
        Owner::from_uid(n).id() == n,
        Owner::from_uid(n)@ == n,
        Owner::from_uid(a.id()) == a,
        a.id() == a@,
        (a == b) <==> (a.id() == b.id()),
{
}

/// An owner as a caller names it: by number or by name.
#[derive(Debug)]
pub enum OwnerSpec {
    /// The numeric identifier, taken as it is.
    ById(u32),
    /// The name, to be looked up in the user directory.
    ByName(String),
}

impl OwnerSpec {
    /// The owner that is meant.
    ///
    /// A number is taken as it is: that always succeeds, and nothing is looked up. A name
    /// goes to the user directory, with the outcome of `Owner::from_name`.
    pub fn resolve(&self) -> (r: Result<Owner, FileOwnerError>)
        ensures
            match self {
                OwnerSpec::ById(uid) => r matches Ok(owner) && owner@ == uid,
                OwnerSpec::ByName(name) => Owner::looked_up(name@, r),
            },
    {
        match self {
            OwnerSpec::ById(uid) => Ok(Owner::from_uid(*uid)),
            OwnerSpec::ByName(name) => Owner::from_name(name.as_str()),
        }
    }
}

/// The group of a file: a group of the system, held as the numeric identifier.
///
/// Two groups are equal when their identifiers are; a name plays no part.
#[derive(Debug, Copy, Clone, PartialEq, Eq, Hash, Structural)]
pub struct Group {
    gid: u32,
}

impl View for Group {
    type V = u32;

    closed spec fn view(&self) -> u32 {
        self.gid
    }
}

impl Group {
    /// The group with the identifier `gid`, as contracts write it.
    pub closed spec fn spec_from_gid(gid: u32) -> Group {
        Group { gid }
    }

    /// The identifier of this group, as contracts write it.
    pub closed spec fn spec_id(&self) -> u32 {
        self.gid
    }

    /// What is shown for the group `gid` when the lookup of its name gave `name`: the name
    /// where there is one, else the identifier as a decimal numeral. A failed lookup counts
    /// as no name.
    pub open spec fn text(gid: u32, name: Result<Option<String>, FileOwnerError>) -> Seq<char> {
        match name {
            Ok(Some(n)) => n@,
            _ => decimal(gid as nat),
        }
    }

    /// What holds of `r`, the outcome of looking the group `name` up, whatever the directory
    /// answered: a failure is `GroupNotFound` with exactly this name or an `OsError`, and a
    /// name with a NUL character in it is not found.
    pub open spec fn looked_up<T>(name: Seq<char>, r: Result<T, FileOwnerError>) -> bool {
        &&& r is Err ==> fails_in_os(r) || fails_with(r, Failure::GroupNotFound(name))
        &&& name.contains('\0') ==> fails_with(r, Failure::GroupNotFound(name))
    }

    /// The group with the identifier `gid`. Nothing is looked up: the identifier need not
    /// belong to any group.
    #[verifier::when_used_as_spec(spec_from_gid)]
    pub fn from_gid(gid: u32) -> (group: Group)
        ensures
            group == Group::spec_from_gid(gid),
            group@ == gid,
    {
        Group { gid }
    }

    /// The outcome of looking the group `name` up, `found` being what the directory answered:
    /// the group's identifier, no such group, or a failure of the lookup.
    pub fn from_lookup(name: &str, found: Result<Option<u32>, nix::errno::Errno>) -> (r: Result<
        Group,
        FileOwnerError,
    >)
        ensures
            match found {
                Ok(Some(gid)) => r matches Ok(group) && group@ == gid,
                Ok(None) => fails_with(r, Failure::GroupNotFound(name@)),
                Err(errno) => fails_with(r, Failure::Os(errno)),
            },
    {
        match found {
            Ok(Some(gid)) => Ok(Group::from_gid(gid)),
            Ok(None) => Err(FileOwnerError::GroupNotFound(String::from_str(name))),
            Err(errno) => Err(FileOwnerError::OsError(errno)),
        }
    }

    /// The group called `name` in the group directory.
    ///
    /// Whether there is such a group is for the directory to say; `from_lookup` says what
    /// becomes of each answer.
    pub fn from_name(name: &str) -> (r: Result<Group, FileOwnerError>)
        ensures
            Group::looked_up(name@, r),
    {
        Group::from_lookup(name, group_id_by_name(name))
    }

    /// The identifier.
    #[verifier::when_used_as_spec(spec_id)]
    pub fn id(&self) -> (gid: u32)
        ensures
            gid == self@,
            gid == self.spec_id(),
    {
        self.gid
    }

    /// What `name` returns when the directory answered `found` to the lookup of an
    /// identifier: the name or its absence as it stands, a failure as an `OsError`.
    pub fn name_from_lookup(found: Result<Option<String>, nix::errno::Errno>) -> (r: Result<
        Option<String>,
        FileOwnerError,
    >)
        ensures
            match found {
                Ok(name) => succeeds_with(r, name),
                Err(errno) => fails_with(r, Failure::Os(errno)),
            },
    {
        match found {
            Ok(name) => Ok(name),
            Err(errno) => Err(FileOwnerError::OsError(errno)),
        }
    }

    /// The name that the group directory has for this identifier, `None` where it has none.
    ///
    /// That an identifier has no name is no failure; the only failure is an `OsError`.
    /// Whether there is a name, and which, is for the directory to say; a name that it gives
    /// has no NUL character in it. `name_from_lookup` says what becomes of each answer.
    pub fn name(&self) -> (r: Result<Option<String>, FileOwnerError>)
        ensures
            name_looked_up(r),
    {
        Group::name_from_lookup(group_name_by_id(self.gid))
    }

    /// What is shown for this group when the lookup of its name gave `name`: the name where
    /// there is one, else the identifier as a decimal numeral.
    pub fn shown(&self, name: Result<Option<String>, FileOwnerError>) -> (s: String)
        ensures
            s@ == Group::text(self@, name),
            !(name matches Ok(Some(_))) ==> s@ == decimal(self@ as nat),
    {
        match name {
            Ok(Some(n)) => n,
            _ => decimal_string(self.gid),
        }
    }

    /// The name of this group where the directory has one, else the identifier as a decimal
    /// numeral. A lookup that fails is taken as no name, so this never fails.
    ///
    /// Which of the two it is lies with the directory. Whatever it answered, the text is
    /// what `shown` makes of an answer that `name` may give, and so has no NUL character in
    /// it.
    pub fn to_string(&self) -> (s: String)
        ensures
            exists|name: Result<Option<String>, FileOwnerError>|
                name_looked_up(name) && s@ == #[trigger] Group::text(self@, name),
            !s@.contains('\0'),
    {
        let name = self.name();
        proof {
            law_decimal_has_no_nul(self@ as nat);
        }
        self.shown(name)
    }
}

/// A group is its identifier and nothing more: building one from a number and asking for
/// the number gives the number back, building one from a group's number gives that group
/// back, and two groups are equal exactly when their numbers are.
pub proof fn law_group_is_its_id(a: Group, b: Group, n: u32)
    ensures
        Group::from_gid(n).id() == n,
        Group::from_gid(n)@ == n,
        Group::from_gid(a.id()) == a,
        a.id() == a@,
        (a == b) <==> (a.id() == b.id()),
{
}

/// A group as a caller names it: by number or by name.
#[derive(Debug)]
pub enum GroupSpec {
    /// The numeric identifier, taken as it is.
    ById(u32),
    /// The name, to be looked up in the group directory.
    ByName(String),
}

impl GroupSpec {
    /// The group that is meant.
    ///
    /// A number is taken as it is: that always succeeds, and nothing is looked up. A name
    /// goes to the group directory, with the outcome of `Group::from_name`.
    pub fn resolve(&self) -> (r: Result<Group, FileOwnerError>)
        ensures
            match self {
                GroupSpec::ById(gid) => r matches Ok(group) && group@ == gid,
                GroupSpec::ByName(name) => Group::looked_up(name@, r),
            },
    {
        match self {
            GroupSpec::ById(gid) => Ok(Group::from_gid(*gid)),
            GroupSpec::ByName(name) => Group::from_name(name.as_str()),
        }
    }
}

/// What holds of `r`, the outcome of asking the directory for the name of an identifier,
/// whatever it answered: a failure is an `OsError`, and a name that is found has no NUL
/// character in it.
pub open spec fn name_looked_up(r: Result<Option<String>, FileOwnerError>) -> bool {
    &&& fails_only_in_os(r)
    &&& r matches Ok(Some(name)) ==> !name@.contains('\0')
}

/// The text shown for an identifier has no NUL character in it, whatever the lookup of the
/// name gave: a name that the directory gives has none, and a numeral has none.
pub proof fn law_text_has_no_nul(id: u32, name: Result<Option<String>, FileOwnerError>)
    requires
        name_looked_up(name),
    ensures
        !Owner::text(id, name).contains('\0'),
        !Group::text(id, name).contains('\0'),
{
    law_decimal_has_no_nul(id as nat);
}

} // verus!
