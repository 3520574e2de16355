use group_keeper::dispatcher::{classify, ChangeKind, Dispatcher, PathAction, RawKind};
use group_keeper::enforcer::{EnforceError, EntryKind, FsOp};
use group_keeper::mode::ModePolicy;
use group_keeper::suppression::{same_path, SuppressionSet};

fn p(s: &str) -> Vec<u8> {
    s.as_bytes().to_vec()
}

#[test]
fn paths_compare_by_bytes() {
    assert!(same_path(&p("/a/b"), &p("/a/b")));
    assert!(!same_path(&p("/a/b"), &p("/a/c")));
    assert!(!same_path(&p("/a"), &p("/a/")));
    assert!(same_path(&p(""), &p("")));
}

#[test]
fn suppression_set_is_a_set() {
    let mut s = SuppressionSet::new();
    assert_eq!(s.len(), 0);
    s.insert(&p("/x"));
    s.insert(&p("/x"));
    s.insert(&p("/y"));
    assert_eq!(s.len(), 2);
    assert!(s.contains(&p("/x")));
    assert!(s.remove(&p("/x")));
    assert!(!s.remove(&p("/x")));
    assert!(!s.contains(&p("/x")));
    assert!(s.contains(&p("/y")));
    assert_eq!(s.len(), 1);
}

#[test]
fn only_creation_and_metadata_count() {
    assert_eq!(classify(RawKind::Create), ChangeKind::Created);
    assert_eq!(classify(RawKind::ModifyMetadata), ChangeKind::MetadataModified);
    for k in [
        RawKind::Any,
        RawKind::Access,
        RawKind::ModifyData,
        RawKind::ModifyName,
        RawKind::ModifyAny,
        RawKind::ModifyOther,
        RawKind::Remove,
        RawKind::Other,
    ] {
        assert_eq!(classify(k), ChangeKind::Other);
    }
}

#[test]
fn rename_and_content_write_are_ignored() {
    let mut d = Dispatcher::new(1000, ModePolicy::new());
    let f = p("/shared/f.txt");
    assert_eq!(d.on_path(classify(RawKind::ModifyName), &f, false), PathAction::Ignore);
    assert_eq!(d.on_path(classify(RawKind::ModifyData), &f, false), PathAction::Ignore);
    assert_eq!(d.marked_count(), 0);
}

#[test]
fn created_file_is_enforced_and_its_echo_dropped() {
    let mut d = Dispatcher::new(1000, ModePolicy::new());
    let f = p("/shared/new.txt");
    assert_eq!(d.on_path(ChangeKind::Created, &f, false), PathAction::Enforce);
    assert!(d.is_marked(&f));
    let mut e = d.enforcer(EntryKind::File);
    assert_eq!(e.next_op(), Some(FsOp::SetGroup { group: 1000 }));
    e.record(Ok(()));
    assert_eq!(e.next_op(), Some(FsOp::SetMode { mode: 0o660 }));
    e.record(Ok(()));
    assert_eq!(e.next_op(), None);
    assert_eq!(e.outcome(), Ok(()));
    assert_eq!(d.on_path(ChangeKind::MetadataModified, &f, false), PathAction::Suppressed);
    assert!(!d.is_marked(&f));
    assert_eq!(d.marked_count(), 0);
}

#[test]
fn created_directory_is_walked_and_each_echo_dropped_once() {
    let mut d = Dispatcher::new(1000, ModePolicy::new());
    let sub = p("/shared/sub");
    let a = p("/shared/sub/a.txt");
    let b = p("/shared/sub/b.txt");
    assert_eq!(d.on_path(ChangeKind::Created, &sub, true), PathAction::Walk);
    assert_eq!(d.marked_count(), 0);

    let mut e = d.walk_entry(&sub, EntryKind::Directory);
    assert_eq!(e.next_op(), Some(FsOp::SetGroup { group: 1000 }));
    e.record(Ok(()));
    assert_eq!(e.next_op(), Some(FsOp::SetMode { mode: 0o770 }));
    e.record(Ok(()));
    assert_eq!(e.outcome(), Ok(()));
    for child in [&a, &b] {
        let mut e = d.walk_entry(child, EntryKind::File);
        assert_eq!(e.next_op(), Some(FsOp::SetGroup { group: 1000 }));
        e.record(Ok(()));
        assert_eq!(e.next_op(), Some(FsOp::SetMode { mode: 0o660 }));
        e.record(Ok(()));
        assert_eq!(e.outcome(), Ok(()));
    }
    assert_eq!(d.marked_count(), 3);

    for path in [&sub, &a, &b] {
        assert_eq!(d.on_path(ChangeKind::MetadataModified, path, false), PathAction::Suppressed);
    }
    assert_eq!(d.marked_count(), 0);
    assert_eq!(d.on_path(ChangeKind::MetadataModified, &a, false), PathAction::Enforce);
}

#[test]
fn half_failed_write_still_has_its_echo_dropped_once() {
    let mut d = Dispatcher::new(1000, ModePolicy::new());
    let f = p("/shared/sub/c.txt");
    let mut e = d.walk_entry(&f, EntryKind::File);
    e.record(Ok(()));
    e.record(Err(1));
    assert_eq!(e.outcome(), Err(EnforceError::Mode { errno: 1 }));
    assert_eq!(d.on_path(ChangeKind::MetadataModified, &f, false), PathAction::Suppressed);
    assert_eq!(d.on_path(ChangeKind::MetadataModified, &f, false), PathAction::Enforce);
    assert_eq!(d.on_path(ChangeKind::MetadataModified, &f, false), PathAction::Suppressed);
}

#[test]
fn echo_of_a_directory_is_dropped_without_a_walk() {
    let mut d = Dispatcher::new(5, ModePolicy::new());
    let dir = p("/shared/d");
    let _ = d.walk_entry(&dir, EntryKind::Directory);
    assert_eq!(d.on_path(ChangeKind::MetadataModified, &dir, true), PathAction::Suppressed);
    assert_eq!(d.on_path(ChangeKind::MetadataModified, &dir, true), PathAction::Walk);
    assert_eq!(d.group_id(), 5);
}
