//! The corrective write for one path: set its group without following a
//! trailing symlink, then set the policy's mode unless the entry is a symlink
//! or its metadata could not be read.
//!
//! The writes themselves are made by the caller: an `Enforcer` says which
//! write comes next and takes back how it went.
use vstd::prelude::*;
use crate::mode::{ModePolicy, spec_dir_mode, spec_file_mode, OWNER_READ, OWNER_WRITE, OWNER_EXEC,
    GROUP_READ, GROUP_WRITE, GROUP_EXEC, OTHER_ALL, lemma_dir_mode_bits, lemma_file_mode_bits};

verus! {

/// What the entry at a path is, as its own metadata (not its target's) says.
#[derive(Clone, Copy, Debug, PartialEq, Eq, Structural)]
pub enum EntryKind {
    Directory,
    Symlink,
    /// Anything else: a regular file, a device, a socket, a pipe.
    File,
    /// The metadata could not be read.
    Unavailable,
}

/// One metadata write on the path being enforced.
#[derive(Clone, Copy, Debug, PartialEq, Eq, Structural)]
pub enum FsOp {
    /// Set the group owner of the entry itself, not of a symlink's target;
    /// the user owner stays as it is.
    SetGroup { group: u32 },
    /// Set the permission bits.
    SetMode { mode: u32 },
}

/// Why the corrective write for a path failed, with the OS error number.
#[derive(Clone, Copy, Debug, PartialEq, Eq, Structural)]
pub enum EnforceError {
    /// Changing the group owner failed; the mode was left as it was.
    Ownership { errno: i32 },
    /// The group was set, but changing the mode failed.
    Mode { errno: i32 },
}

/// The writes that bring an entry of `kind` to `group` and the policy.
pub open spec fn planned_ops(kind: EntryKind, group: u32, policy: ModePolicy) -> Seq<FsOp> {
    match kind {
        EntryKind::Directory => seq![FsOp::SetGroup { group }, FsOp::SetMode { mode: policy.dir_mode }],
        EntryKind::File => seq![FsOp::SetGroup { group }, FsOp::SetMode { mode: policy.file_mode }],
        EntryKind::Symlink => seq![FsOp::SetGroup { group }],
        EntryKind::Unavailable => seq![FsOp::SetGroup { group }],
    }
}

/// The error that a failed write turns into.
pub open spec fn error_of(op: FsOp, errno: i32) -> EnforceError {
    match op {
        FsOp::SetGroup { .. } => EnforceError::Ownership { errno },
        FsOp::SetMode { .. } => EnforceError::Mode { errno },
    }
}

/// The metadata of one entry that the enforcement reads and writes.
pub struct EntryMeta {
    pub kind: EntryKind,
    pub group: u32,
    pub mode: u32,
}

/// An entry's metadata after one successful write on it.
pub open spec fn apply_op(m: EntryMeta, op: FsOp) -> EntryMeta {
    match op {
        FsOp::SetGroup { group } => EntryMeta { group, ..m },
        FsOp::SetMode { mode } => EntryMeta { mode, ..m },
    }
}

/// An entry's metadata after the writes of `ops`, all successful, in order.
pub open spec fn apply_ops(m: EntryMeta, ops: Seq<FsOp>) -> EntryMeta
    decreases ops.len(),
{
    if ops.len() == 0 {
        m
    } else {
        apply_ops(apply_op(m, ops[0]), ops.drop_first())
    }
}

/// An entry's metadata after a complete enforcement in which every write
/// succeeded.
pub open spec fn enforced(m: EntryMeta, group: u32, policy: ModePolicy) -> EntryMeta {
    apply_ops(m, planned_ops(m.kind, group, policy))
}

/// The enforcement of one path, from its first write to its outcome.
#[derive(Debug)]
pub struct Enforcer {
    ops: Vec<FsOp>,
    done: usize,
    failure: Option<EnforceError>,
}

impl Enforcer {
    /// The writes, in the order they are made.
    pub closed spec fn ops(&self) -> Seq<FsOp> {
        self.ops@
    }

    /// How many writes have succeeded.
    pub closed spec fn done(&self) -> nat {
        self.done as nat
    }

    /// The failure that ended the enforcement, if one did.
    pub closed spec fn failure(&self) -> Option<EnforceError> {
        self.failure
    }

    pub closed spec fn wf(&self) -> bool {
        self.done <= self.ops@.len()
    }

    /// Whether no write is left to make.
    pub open spec fn is_finished(&self) -> bool {
        self.failure() is Some || self.done() == self.ops().len()
    }

    /// Starts the enforcement of an entry of `kind`.
    pub fn new(group: u32, kind: EntryKind, policy: ModePolicy) -> (r: Enforcer)
        ensures
            r.wf(),
            r.ops() == planned_ops(kind, group, policy),
            r.done() == 0,
            r.failure() is None,
    {
        let mut ops: Vec<FsOp> = Vec::new();
        ops.push(FsOp::SetGroup { group });
        match kind {
            EntryKind::Directory => ops.push(FsOp::SetMode { mode: policy.dir_mode }),
            EntryKind::File => ops.push(FsOp::SetMode { mode: policy.file_mode }),
            EntryKind::Symlink => {},
            EntryKind::Unavailable => {},
        }
        let r = Enforcer { ops, done: 0, failure: None };
        assert(r.ops() =~= planned_ops(kind, group, policy));
        r
    }

    /// The next write to make, or `None` once the enforcement is finished.
    pub fn next_op(&self) -> (r: Option<FsOp>)
        requires
            self.wf(),
        ensures
            self.is_finished() ==> r is None,
            !self.is_finished() ==> r == Some(self.ops()[self.done() as int]),
    {
        if self.failure.is_some() || self.done == self.ops.len() {
            None
        } else {
            Some(self.ops[self.done])
        }
    }

    /// Takes back the result of the write that `next_op` gave: on success the
    /// next one is due; on failure the enforcement ends with that error.
    pub fn record(&mut self, result: Result<(), i32>)
        requires
            old(self).wf(),
            !old(self).is_finished(),
        ensures
            final(self).wf(),
            final(self).ops() == old(self).ops(),
            match result {
                Ok(()) => final(self).done() == old(self).done() + 1 && final(self).failure() is None,
                Err(errno) => final(self).done() == old(self).done() && final(self).failure()
                    == Some(error_of(old(self).ops()[old(self).done() as int], errno)),
            },
    {
        match result {
            Ok(()) => {
                assert(self.done < self.ops.len());
                self.done = self.done + 1;
            },
            Err(errno) => {
                let err = match self.ops[self.done] {
                    FsOp::SetGroup { .. } => EnforceError::Ownership { errno },
                    FsOp::SetMode { .. } => EnforceError::Mode { errno },
                };
                self.failure = Some(err);
            },
        }
    }

    /// The outcome of a finished enforcement.
    pub fn outcome(&self) -> (r: Result<(), EnforceError>)
        requires
            self.is_finished(),
        ensures
            match self.failure() {
                Some(e) => r == Err::<(), EnforceError>(e),
                None => r is Ok,
            },
    {
        match self.failure {
            Some(e) => Err(e),
            None => Ok(()),
        }
    }
}

/// What a complete enforcement leaves, kind by kind.
proof fn lemma_enforced_shape(m: EntryMeta, group: u32, policy: ModePolicy)
    ensures
        enforced(m, group, policy) == (match m.kind {
            EntryKind::Directory => EntryMeta { group, mode: policy.dir_mode, ..m },
            EntryKind::File => EntryMeta { group, mode: policy.file_mode, ..m },
            _ => EntryMeta { group, ..m },
        }),
{
    reveal_with_fuel(apply_ops, 3);
    let ops = planned_ops(m.kind, group, policy);
    if ops.len() == 2 {
        assert(ops.drop_first().drop_first() =~= Seq::<FsOp>::empty());
        assert(ops.drop_first()[0] == ops[1]);
    } else {
        assert(ops.drop_first() =~= Seq::<FsOp>::empty());
    }
}

/// Enforcing twice gives the same metadata as enforcing once: the group and
/// the mode are set, never toggled.
pub proof fn lemma_enforce_idempotent(m: EntryMeta, group: u32, policy: ModePolicy)
    ensures
        enforced(m, group, policy).kind == m.kind,
        enforced(enforced(m, group, policy), group, policy) == enforced(m, group, policy),
{
    reveal_with_fuel(apply_ops, 3);
    lemma_enforced_shape(m, group, policy);
    lemma_enforced_shape(enforced(m, group, policy), group, policy);
}

/// Under the fixed policy a directory ends up owned by the group with owner
/// and group read, write and execute and nothing for others; any other entry
/// that is not a symlink ends up with owner and group read and write only.
pub proof fn lemma_enforced_modes(m: EntryMeta, group: u32, policy: ModePolicy)
    requires
        policy.is_standard(),
    ensures
        m.kind == EntryKind::Directory ==> {
            let e = enforced(m, group, policy);
            &&& e.group == group
            &&& e.mode == spec_dir_mode()
            &&& e.mode & (OWNER_READ | OWNER_WRITE | OWNER_EXEC) == (OWNER_READ | OWNER_WRITE | OWNER_EXEC)
            &&& e.mode & (GROUP_READ | GROUP_WRITE | GROUP_EXEC) == (GROUP_READ | GROUP_WRITE | GROUP_EXEC)
            &&& e.mode & OTHER_ALL == 0
        },
        m.kind == EntryKind::File ==> {
            let e = enforced(m, group, policy);
            &&& e.group == group
            &&& e.mode == spec_file_mode()
            &&& e.mode == OWNER_READ | OWNER_WRITE | GROUP_READ | GROUP_WRITE
        },
{
    reveal_with_fuel(apply_ops, 3);
    lemma_dir_mode_bits();
    lemma_file_mode_bits();
    assert(0o770u32 & (0o400u32 | 0o200u32 | 0o100u32) == (0o400u32 | 0o200u32 | 0o100u32)
        && 0o770u32 & (0o040u32 | 0o020u32 | 0o010u32) == (0o040u32 | 0o020u32 | 0o010u32)
        && 0o770u32 & 0o007u32 == 0) by (bit_vector);
}

/// A symlink's mode is never written: no mode write is planned for it, its
/// mode stays, and the group of the link entry itself is still set.
pub proof fn lemma_symlink_mode_untouched(m: EntryMeta, group: u32, policy: ModePolicy)
    requires
        m.kind == EntryKind::Symlink,
    ensures
        forall|i: int| 0 <= i < planned_ops(m.kind, group, policy).len()
            ==> planned_ops(m.kind, group, policy)[i] is SetGroup,
        planned_ops(m.kind, group, policy).contains(FsOp::SetGroup { group }),
        enforced(m, group, policy).mode == m.mode,
        enforced(m, group, policy).group == group,
{
    reveal_with_fuel(apply_ops, 2);
    assert(planned_ops(m.kind, group, policy)[0] == FsOp::SetGroup { group });
}

} // verus!
