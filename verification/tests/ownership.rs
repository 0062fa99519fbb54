use std::path::Path;

use file_owner::{
    group, owner, owner_group, set_group, set_owner, set_owner_group, Change, FileOwnerError,
    Group, GroupSpec, Owner, OwnerSpec, Stat, UNCHANGED,
};

/// What the metadata of `path` hold.
fn read(path: &Path) -> Result<Stat, std::io::Error> {
    match nix::sys::stat::stat(path) {
        Ok(meta) => Ok(Stat { uid: meta.st_uid, gid: meta.st_gid }),
        Err(errno) => Err(std::io::Error::from(errno)),
    }
}

/// Whether the system let the change through. A caller without the right to change
/// ownership is refused by the system, and what then comes back must be an `OsError`.
fn went_through(r: Result<(), FileOwnerError>) -> bool {
    match r {
        Ok(()) => true,
        Err(FileOwnerError::OsError(_)) => false,
        Err(other) => panic!("{:?}", other),
    }
}

fn by_name(name: &str) -> OwnerSpec {
    OwnerSpec::ByName(name.to_string())
}

fn group_by_name(name: &str) -> GroupSpec {
    GroupSpec::ByName(name.to_string())
}

#[test]
fn test_set_get() {
    let nobody_id = Owner::from_name("nobody").unwrap().id();
    let nogroup_id = Group::from_name("nogroup").unwrap().id();

    let file1 = tempfile::NamedTempFile::new().unwrap();
    let file_path1 = file1.path();
    let file2 = tempfile::NamedTempFile::new().unwrap();
    let file_path2 = file2.path();

    if went_through(set_owner(file_path1, by_name("nobody"))) {
        assert_eq!(owner(read(file_path1)).unwrap().name().unwrap().as_deref(), Some("nobody"));
    }
    if went_through(set_owner(file_path2, OwnerSpec::ById(nobody_id))) {
        assert_eq!(owner(read(file_path2)).unwrap().name().unwrap().as_deref(), Some("nobody"));
    }

    if went_through(set_group(file_path1, group_by_name("nogroup"))) {
        assert_eq!(group(read(file_path1)).unwrap().name().unwrap().as_deref(), Some("nogroup"));
    }
    if went_through(set_group(file_path2, GroupSpec::ById(nogroup_id))) {
        assert_eq!(group(read(file_path2)).unwrap().name().unwrap().as_deref(), Some("nogroup"));
    }
}

#[test]
fn test_set_get_all() {
    let nobody_id = Owner::from_name("nobody").unwrap().id();
    let nogroup_id = Group::from_name("nogroup").unwrap().id();

    let file1 = tempfile::NamedTempFile::new().unwrap();
    let file_path1 = file1.path();
    let file2 = tempfile::NamedTempFile::new().unwrap();
    let file_path2 = file2.path();
    let file3 = tempfile::NamedTempFile::new().unwrap();
    let file_path3 = file3.path();
    let file4 = tempfile::NamedTempFile::new().unwrap();
    let file_path4 = file4.path();

    if went_through(set_owner_group(file_path1, by_name("nobody"), group_by_name("nogroup"))) {
        assert_eq!(owner(read(file_path1)).unwrap().name().unwrap().as_deref(), Some("nobody"));
        assert_eq!(group(read(file_path1)).unwrap().name().unwrap().as_deref(), Some("nogroup"));
    }
    if went_through(set_owner_group(
        file_path2,
        OwnerSpec::ById(nobody_id),
        GroupSpec::ById(nogroup_id),
    )) {
        assert_eq!(owner(read(file_path2)).unwrap().name().unwrap().as_deref(), Some("nobody"));
        assert_eq!(group(read(file_path2)).unwrap().name().unwrap().as_deref(), Some("nogroup"));
    }

    if went_through(set_owner_group(
        file_path3,
        OwnerSpec::ById(nobody_id),
        group_by_name("nogroup"),
    )) {
        assert_eq!(owner(read(file_path3)).unwrap().name().unwrap().as_deref(), Some("nobody"));
        assert_eq!(group(read(file_path3)).unwrap().name().unwrap().as_deref(), Some("nogroup"));
    }
    if went_through(set_owner_group(
        file_path4,
        by_name("nobody"),
        GroupSpec::ById(nogroup_id),
    )) {
        assert_eq!(owner(read(file_path4)).unwrap().name().unwrap().as_deref(), Some("nobody"));
        assert_eq!(group(read(file_path4)).unwrap().name().unwrap().as_deref(), Some("nogroup"));
    }
}

#[test]
fn test_get_all() {
    let file = tempfile::NamedTempFile::new().unwrap();
    let file_path = file.path();

    if went_through(set_owner_group(file_path, by_name("nobody"), group_by_name("nogroup"))) {
        let (o, g) = owner_group(read(file_path)).unwrap();
        assert_eq!(o.name().unwrap().as_deref(), Some("nobody"));
        assert_eq!(g.name().unwrap().as_deref(), Some("nogroup"));
    }
}

#[test]
fn set_both_to_99_then_read_both() {
    let file = tempfile::NamedTempFile::new().unwrap();
    let path = file.path();

    if went_through(set_owner_group(path, OwnerSpec::ById(99), GroupSpec::ById(99))) {
        let (o, g) = owner_group(read(path)).unwrap();
        assert_eq!(o, Owner::from_uid(99));
        assert_eq!(g, Group::from_gid(99));
        assert_eq!(o.id(), 99);
        assert_eq!(g.id(), 99);
        assert_eq!(o.name().unwrap(), Owner::from_uid(99).name().unwrap());
        assert_eq!(g.name().unwrap(), Group::from_gid(99).name().unwrap());
    }
}

#[test]
fn reading_names_the_ids_of_the_metadata() {
    let file = tempfile::NamedTempFile::new().unwrap();
    let path = file.path();
    let meta = read(path).unwrap();

    assert_eq!(owner(read(path)).unwrap().id(), meta.uid);
    assert_eq!(group(read(path)).unwrap().id(), meta.gid);
    let (o, g) = owner_group(read(path)).unwrap();
    assert_eq!(o, owner(read(path)).unwrap());
    assert_eq!(g, group(read(path)).unwrap());
}

#[test]
fn reading_takes_the_numbers_as_they_are() {
    assert_eq!(owner(Ok(Stat { uid: 99, gid: 7 })).unwrap(), Owner::from_uid(99));
    assert_eq!(group(Ok(Stat { uid: 99, gid: 7 })).unwrap(), Group::from_gid(7));
    let (o, g) = owner_group(Ok(Stat { uid: 321321, gid: 0 })).unwrap();
    assert_eq!(o.id(), 321321);
    assert_eq!(g.id(), 0);
    let (o, g) = owner_group(Ok(Stat { uid: 0, gid: u32::MAX })).unwrap();
    assert_eq!(o.id(), 0);
    assert_eq!(g.id(), u32::MAX);
}

#[test]
fn failed_read_is_an_io_error() {
    let missing = Path::new("/no-such-directory-7f3a/no-such-file");
    match owner(read(missing)) {
        Err(FileOwnerError::IoError(e)) => assert_eq!(e.kind(), std::io::ErrorKind::NotFound),
        other => panic!("{:?}", other),
    }
    match group(read(missing)) {
        Err(FileOwnerError::IoError(e)) => assert_eq!(e.kind(), std::io::ErrorKind::NotFound),
        other => panic!("{:?}", other),
    }
    match owner_group(Err(std::io::Error::from(std::io::ErrorKind::PermissionDenied))) {
        Err(FileOwnerError::IoError(e)) => {
            assert_eq!(e.kind(), std::io::ErrorKind::PermissionDenied)
        }
        other => panic!("{:?}", other),
    }
}

#[test]
fn change_on_a_missing_path_is_an_os_error() {
    let missing = Path::new("/no-such-directory-7f3a/no-such-file");
    match set_owner(missing, OwnerSpec::ById(0)) {
        Err(FileOwnerError::OsError(errno)) => assert_eq!(errno, nix::errno::Errno::ENOENT),
        other => panic!("{:?}", other),
    }
    match set_group(missing, GroupSpec::ById(0)) {
        Err(FileOwnerError::OsError(errno)) => assert_eq!(errno, nix::errno::Errno::ENOENT),
        other => panic!("{:?}", other),
    }
    match set_owner_group(missing, OwnerSpec::ById(0), GroupSpec::ById(0)) {
        Err(FileOwnerError::OsError(errno)) => assert_eq!(errno, nix::errno::Errno::ENOENT),
        other => panic!("{:?}", other),
    }
    match Change::of_owner(Owner::from_uid(0)).apply(missing) {
        Err(FileOwnerError::OsError(errno)) => assert_eq!(errno, nix::errno::Errno::ENOENT),
        other => panic!("{:?}", other),
    }
}

#[test]
fn unresolved_name_changes_nothing() {
    let file = tempfile::NamedTempFile::new().unwrap();
    let path = file.path();
    let before = read(path).unwrap();

    match set_owner(path, by_name("no-such-user-7f3a")) {
        Err(FileOwnerError::UserNotFound(name)) => assert_eq!(name, "no-such-user-7f3a"),
        other => panic!("{:?}", other),
    }
    match set_group(path, group_by_name("no-such-group-7f3a")) {
        Err(FileOwnerError::GroupNotFound(name)) => assert_eq!(name, "no-such-group-7f3a"),
        other => panic!("{:?}", other),
    }
    match set_owner_group(path, by_name("no-such-user-7f3a"), group_by_name("nogroup")) {
        Err(FileOwnerError::UserNotFound(name)) => assert_eq!(name, "no-such-user-7f3a"),
        other => panic!("{:?}", other),
    }
    match set_owner_group(path, by_name("nobody"), group_by_name("no-such-group-7f3a")) {
        Err(FileOwnerError::GroupNotFound(name)) => assert_eq!(name, "no-such-group-7f3a"),
        other => panic!("{:?}", other),
    }
    match set_owner_group(path, OwnerSpec::ById(99), group_by_name("no-such-group-7f3a")) {
        Err(FileOwnerError::GroupNotFound(name)) => assert_eq!(name, "no-such-group-7f3a"),
        other => panic!("{:?}", other),
    }
    match set_owner_group(
        path,
        by_name("no-such-user-7f3a"),
        group_by_name("no-such-group-7f3a"),
    ) {
        Err(FileOwnerError::UserNotFound(name)) => assert_eq!(name, "no-such-user-7f3a"),
        other => panic!("{:?}", other),
    }

    assert_eq!(read(path).unwrap(), before);
}

#[test]
fn name_with_nul_changes_nothing() {
    let file = tempfile::NamedTempFile::new().unwrap();
    let path = file.path();
    let before = read(path).unwrap();

    match set_owner(path, by_name("no\0body")) {
        Err(FileOwnerError::UserNotFound(name)) => assert_eq!(name, "no\0body"),
        other => panic!("{:?}", other),
    }
    match set_owner_group(path, OwnerSpec::ById(99), group_by_name("no\0group")) {
        Err(FileOwnerError::GroupNotFound(name)) => assert_eq!(name, "no\0group"),
        other => panic!("{:?}", other),
    }

    assert_eq!(read(path).unwrap(), before);
}

#[test]
fn set_group_twice_is_set_group_once() {
    let file = tempfile::NamedTempFile::new().unwrap();
    let path = file.path();
    let before = read(path).unwrap();

    assert!(went_through(set_group(path, GroupSpec::ById(before.gid))));
    let once = read(path).unwrap();
    assert!(went_through(set_group(path, GroupSpec::ById(before.gid))));
    let twice = read(path).unwrap();
    assert_eq!(once, before);
    assert_eq!(twice, once);

    if went_through(set_group(path, group_by_name("nogroup"))) {
        let once = read(path).unwrap();
        assert!(went_through(set_group(path, group_by_name("nogroup"))));
        let twice = read(path).unwrap();
        assert_eq!(twice, once);
        assert_eq!(group(Ok(twice)).unwrap().name().unwrap().as_deref(), Some("nogroup"));
    }
}

#[test]
fn set_owner_leaves_the_group() {
    let file = tempfile::NamedTempFile::new().unwrap();
    let path = file.path();
    let before = read(path).unwrap();

    assert!(went_through(set_owner(path, OwnerSpec::ById(before.uid))));
    assert_eq!(read(path).unwrap(), before);

    if went_through(set_owner(path, by_name("nobody"))) {
        let after = read(path).unwrap();
        assert_eq!(after.gid, before.gid);
        assert_eq!(owner(Ok(after)).unwrap(), Owner::from_name("nobody").unwrap());
    }
}

#[test]
fn set_group_leaves_the_owner() {
    let file = tempfile::NamedTempFile::new().unwrap();
    let path = file.path();
    let before = read(path).unwrap();

    assert!(went_through(set_group(path, GroupSpec::ById(before.gid))));
    assert_eq!(read(path).unwrap(), before);

    if went_through(set_group(path, group_by_name("nogroup"))) {
        let after = read(path).unwrap();
        assert_eq!(after.uid, before.uid);
        assert_eq!(group(Ok(after)).unwrap(), Group::from_name("nogroup").unwrap());
    }
}

#[test]
fn all_bits_set_asks_for_nothing() {
    assert_eq!(UNCHANGED, u32::MAX);

    let file = tempfile::NamedTempFile::new().unwrap();
    let path = file.path();
    let before = read(path).unwrap();

    if went_through(set_owner_group(
        path,
        OwnerSpec::ById(UNCHANGED),
        GroupSpec::ById(UNCHANGED),
    )) {
        assert_eq!(read(path).unwrap(), before);
    }
    if went_through(set_owner(path, OwnerSpec::ById(UNCHANGED))) {
        assert_eq!(read(path).unwrap(), before);
    }
}

#[test]
fn change_holds_the_sides_asked_for() {
    let o = Owner::from_uid(99);
    let g = Group::from_gid(7);

    let change = Change::of_owner(o);
    assert_eq!(change.owner, Some(o));
    assert_eq!(change.group, None);
    assert_eq!(change.raw_ids(), (Some(99), None));

    let change = Change::of_group(g);
    assert_eq!(change.owner, None);
    assert_eq!(change.group, Some(g));
    assert_eq!(change.raw_ids(), (None, Some(7)));

    let change = Change::of_both(o, g);
    assert_eq!(change.owner, Some(o));
    assert_eq!(change.group, Some(g));
    assert_eq!(change.raw_ids(), (Some(99), Some(7)));
}

#[test]
fn outcome_takes_each_answer() {
    assert!(Change::outcome(Ok(())).is_ok());
    match Change::outcome(Err(nix::errno::Errno::EPERM)) {
        Err(FileOwnerError::OsError(errno)) => assert_eq!(errno, nix::errno::Errno::EPERM),
        other => panic!("{:?}", other),
    }
}

#[test]
fn apply_sets_what_the_change_holds() {
    let file = tempfile::NamedTempFile::new().unwrap();
    let path = file.path();
    let before = read(path).unwrap();

    let same = Change::of_both(Owner::from_uid(before.uid), Group::from_gid(before.gid));
    assert!(went_through(same.apply(path)));
    assert_eq!(read(path).unwrap(), before);

    let other = Change::of_both(Owner::from_uid(99), Group::from_gid(98));
    if went_through(other.apply(path)) {
        assert_eq!(read(path).unwrap(), Stat { uid: 99, gid: 98 });
    }
}

#[test]
fn change_for_an_owner_has_no_group_side() {
    let change = Change::for_owner(&OwnerSpec::ById(99)).unwrap();
    assert_eq!(change.raw_ids(), (Some(99), None));
    let change = Change::for_owner(&OwnerSpec::ById(UNCHANGED)).unwrap();
    assert_eq!(change.raw_ids(), (Some(u32::MAX), None));

    let change = Change::for_owner(&by_name("root")).unwrap();
    assert_eq!(change.raw_ids(), (Some(0), None));
    let nobody_id = Owner::from_name("nobody").unwrap().id();
    let change = Change::for_owner(&by_name("nobody")).unwrap();
    assert_eq!(change.raw_ids(), (Some(nobody_id), None));

    match Change::for_owner(&by_name("no-such-user-7f3a")) {
        Err(FileOwnerError::UserNotFound(name)) => assert_eq!(name, "no-such-user-7f3a"),
        other => panic!("{:?}", other),
    }
}

#[test]
fn change_for_a_group_has_no_owner_side() {
    let change = Change::for_group(&GroupSpec::ById(7)).unwrap();
    assert_eq!(change.raw_ids(), (None, Some(7)));

    let nogroup_id = Group::from_name("nogroup").unwrap().id();
    let change = Change::for_group(&group_by_name("nogroup")).unwrap();
    assert_eq!(change.raw_ids(), (None, Some(nogroup_id)));

    match Change::for_group(&group_by_name("no-such-group-7f3a")) {
        Err(FileOwnerError::GroupNotFound(name)) => assert_eq!(name, "no-such-group-7f3a"),
        other => panic!("{:?}", other),
    }
}

#[test]
fn change_for_both_has_both_sides_or_fails() {
    let change = Change::for_both(&OwnerSpec::ById(99), &GroupSpec::ById(98)).unwrap();
    assert_eq!(change.raw_ids(), (Some(99), Some(98)));

    let nogroup_id = Group::from_name("nogroup").unwrap().id();
    let change = Change::for_both(&by_name("root"), &group_by_name("nogroup")).unwrap();
    assert_eq!(change.raw_ids(), (Some(0), Some(nogroup_id)));
    let change = Change::for_both(&OwnerSpec::ById(5), &group_by_name("root")).unwrap();
    assert_eq!(change.raw_ids(), (Some(5), Some(0)));

    match Change::for_both(&by_name("no-such-user-7f3a"), &GroupSpec::ById(0)) {
        Err(FileOwnerError::UserNotFound(name)) => assert_eq!(name, "no-such-user-7f3a"),
        other => panic!("{:?}", other),
    }
    match Change::for_both(&by_name("root"), &group_by_name("no-such-group-7f3a")) {
        Err(FileOwnerError::GroupNotFound(name)) => assert_eq!(name, "no-such-group-7f3a"),
        other => panic!("{:?}", other),
    }
    match Change::for_both(&by_name("no-such-user-7f3a"), &group_by_name("no\0group")) {
        Err(FileOwnerError::UserNotFound(name)) => assert_eq!(name, "no-such-user-7f3a"),
        other => panic!("{:?}", other),
    }
}

#[test]
fn applied_sets_the_sides_asked_for() {
    let before = Stat { uid: 1, gid: 2 };
    let o = Owner::from_uid(7);
    let g = Group::from_gid(8);

    assert_eq!(Change::of_owner(o).applied(before), Stat { uid: 7, gid: 2 });
    assert_eq!(Change::of_group(g).applied(before), Stat { uid: 1, gid: 8 });
    assert_eq!(Change::of_both(o, g).applied(before), Stat { uid: 7, gid: 8 });
    assert_eq!(Change { owner: None, group: None }.applied(before), before);
    assert_eq!(Change::of_owner(Owner::from_uid(0)).applied(before), Stat { uid: 0, gid: 2 });
}

#[test]
fn applied_takes_all_bits_set_as_no_request() {
    let before = Stat { uid: 1, gid: 2 };
    let keep_owner = Owner::from_uid(UNCHANGED);
    let keep_group = Group::from_gid(UNCHANGED);

    assert_eq!(Change::of_owner(keep_owner).applied(before), before);
    assert_eq!(Change::of_group(keep_group).applied(before), before);
    assert_eq!(Change::of_both(keep_owner, keep_group).applied(before), before);
    assert_eq!(
        Change::of_both(keep_owner, Group::from_gid(8)).applied(before),
        Stat { uid: 1, gid: 8 }
    );
    assert_eq!(
        Change::of_both(Owner::from_uid(7), keep_group).applied(before),
        Stat { uid: 7, gid: 2 }
    );
    assert_eq!(
        Change::of_owner(Owner::from_uid(UNCHANGED - 1)).applied(before),
        Stat { uid: u32::MAX - 1, gid: 2 }
    );
}

#[test]
fn applied_twice_is_applied_once() {
    let before = Stat { uid: 1, gid: 2 };
    for change in [
        Change::of_owner(Owner::from_uid(7)),
        Change::of_group(Group::from_gid(8)),
        Change::of_both(Owner::from_uid(7), Group::from_gid(8)),
        Change::of_both(Owner::from_uid(UNCHANGED), Group::from_gid(8)),
        Change { owner: None, group: None },
    ] {
        let once = change.applied(before);
        assert_eq!(change.applied(once), once);
    }
}

#[test]
fn the_system_does_what_a_change_says() {
    let file = tempfile::NamedTempFile::new().unwrap();
    let path = file.path();
    let start = read(path).unwrap();

    for change in [
        Change::of_owner(Owner::from_uid(start.uid)),
        Change::of_group(Group::from_gid(start.gid)),
        Change::of_both(Owner::from_uid(start.uid), Group::from_gid(start.gid)),
        Change::of_owner(Owner::from_uid(UNCHANGED)),
        Change::of_group(Group::from_gid(UNCHANGED)),
        Change::of_both(Owner::from_uid(UNCHANGED), Group::from_gid(UNCHANGED)),
        Change::of_both(Owner::from_uid(start.uid), Group::from_gid(UNCHANGED)),
        Change::of_both(Owner::from_uid(99), Group::from_gid(98)),
        Change::of_owner(Owner::from_uid(65534)),
        Change::of_group(Group::from_gid(65534)),
        Change::of_both(Owner::from_uid(UNCHANGED), Group::from_gid(97)),
        Change::of_both(Owner::from_uid(96), Group::from_gid(UNCHANGED)),
        Change::of_both(Owner::from_uid(start.uid), Group::from_gid(start.gid)),
    ] {
        let before = read(path).unwrap();
        if went_through(change.apply(path)) {
            assert_eq!(read(path).unwrap(), change.applied(before));
        } else {
            assert_eq!(read(path).unwrap(), before);
        }
    }
}
