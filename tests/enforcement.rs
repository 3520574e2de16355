use group_keeper::enforcer::{EnforceError, Enforcer, EntryKind, FsOp};
use group_keeper::mode::ModePolicy;

fn run_all_ok(mut e: Enforcer) -> (Vec<FsOp>, Result<(), EnforceError>) {
    let mut ops = Vec::new();
    while let Some(op) = e.next_op() {
        ops.push(op);
        e.record(Ok(()));
    }
    (ops, e.outcome())
}

#[test]
fn policy_modes() {
    let p = ModePolicy::new();
    assert_eq!(p.file_mode, 0o660);
    assert_eq!(p.dir_mode, 0o770);
    assert_eq!(p.file_mode & 0o007, 0);
    assert_eq!(p.dir_mode & 0o007, 0);
    assert_eq!(p.file_mode & 0o110, 0);
    assert_eq!(p.dir_mode & 0o110, 0o110);
}

#[test]
fn directory_gets_group_then_dir_mode() {
    let (ops, out) = run_all_ok(Enforcer::new(1000, EntryKind::Directory, ModePolicy::new()));
    assert_eq!(ops, vec![FsOp::SetGroup { group: 1000 }, FsOp::SetMode { mode: 0o770 }]);
    assert_eq!(out, Ok(()));
}

#[test]
fn file_gets_group_then_file_mode() {
    let (ops, out) = run_all_ok(Enforcer::new(1000, EntryKind::File, ModePolicy::new()));
    assert_eq!(ops, vec![FsOp::SetGroup { group: 1000 }, FsOp::SetMode { mode: 0o660 }]);
    assert_eq!(out, Ok(()));
}

#[test]
fn symlink_gets_group_only() {
    let (ops, out) = run_all_ok(Enforcer::new(7, EntryKind::Symlink, ModePolicy::new()));
    assert_eq!(ops, vec![FsOp::SetGroup { group: 7 }]);
    assert_eq!(out, Ok(()));
}

#[test]
fn missing_metadata_skips_mode() {
    let (ops, out) = run_all_ok(Enforcer::new(7, EntryKind::Unavailable, ModePolicy::new()));
    assert_eq!(ops, vec![FsOp::SetGroup { group: 7 }]);
    assert_eq!(out, Ok(()));
}

#[test]
fn enforcing_twice_writes_the_same() {
    let (first, _) = run_all_ok(Enforcer::new(1000, EntryKind::File, ModePolicy::new()));
    let (second, _) = run_all_ok(Enforcer::new(1000, EntryKind::File, ModePolicy::new()));
    assert_eq!(first, second);
}

#[test]
fn ownership_failure_stops_before_mode() {
    let mut e = Enforcer::new(1000, EntryKind::File, ModePolicy::new());
    assert_eq!(e.next_op(), Some(FsOp::SetGroup { group: 1000 }));
    e.record(Err(1));
    assert_eq!(e.next_op(), None);
    assert_eq!(e.outcome(), Err(EnforceError::Ownership { errno: 1 }));
}

#[test]
fn mode_failure_after_group_set() {
    let mut e = Enforcer::new(1000, EntryKind::Directory, ModePolicy::new());
    e.record(Ok(()));
    assert_eq!(e.next_op(), Some(FsOp::SetMode { mode: 0o770 }));
    e.record(Err(13));
    assert_eq!(e.next_op(), None);
    assert_eq!(e.outcome(), Err(EnforceError::Mode { errno: 13 }));
}
