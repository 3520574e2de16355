//! The decisions of the watch loop: which notifications call for a
//! corrective write, which are the echo of one of our own, and what is
//! marked before each write so that its echo is recognised.
use vstd::prelude::*;
use crate::enforcer::{EntryKind, Enforcer, planned_ops};
use crate::mode::ModePolicy;
use crate::suppression::SuppressionSet;

verus! {

/// The kind of a change as the watch backend reports it.
#[derive(Clone, Copy, Debug, PartialEq, Eq, Structural)]
pub enum RawKind {
    Any,
    Access,
    Create,
    /// The content was written.
    ModifyData,
    /// Permissions, ownership, times or size changed.
    ModifyMetadata,
    /// The entry was renamed.
    ModifyName,
    ModifyAny,
    ModifyOther,
    Remove,
    Other,
}

/// The kind of a change as the loop sees it.
#[derive(Clone, Copy, Debug, PartialEq, Eq, Structural)]
pub enum ChangeKind {
    Created,
    MetadataModified,
    /// Renames, removals, content writes, accesses: nothing to enforce.
    Other,
}

pub open spec fn spec_classify(k: RawKind) -> ChangeKind {
    match k {
        RawKind::Create => ChangeKind::Created,
        RawKind::ModifyMetadata => ChangeKind::MetadataModified,
        _ => ChangeKind::Other,
    }
}

/// Only creations and metadata changes call for enforcement.
pub fn classify(k: RawKind) -> (r: ChangeKind)
    ensures
        r == spec_classify(k),
{
    match k {
        RawKind::Create => ChangeKind::Created,
        RawKind::ModifyMetadata => ChangeKind::MetadataModified,
        _ => ChangeKind::Other,
    }
}

/// What the loop does about one path of a notification.
#[derive(Clone, Copy, Debug, PartialEq, Eq, Structural)]
pub enum PathAction {
    /// The kind of change calls for nothing.
    Ignore,
    /// The notification is the echo of our own write; its mark was cleared.
    Suppressed,
    /// Walk the directory: mark and enforce it and every entry below it.
    Walk,
    /// The path was marked; enforce it alone.
    Enforce,
}

/// What the loop does about `path` when the marked paths are `marked`.
pub open spec fn path_action(marked: Set<Seq<u8>>, kind: ChangeKind, path: Seq<u8>, is_dir: bool) -> PathAction {
    if kind == ChangeKind::Other {
        PathAction::Ignore
    } else if marked.contains(path) {
        PathAction::Suppressed
    } else if is_dir {
        PathAction::Walk
    } else {
        PathAction::Enforce
    }
}

/// The marked paths after the loop has dealt with `path`.
pub open spec fn marked_after(marked: Set<Seq<u8>>, kind: ChangeKind, path: Seq<u8>, is_dir: bool) -> Set<Seq<u8>> {
    match path_action(marked, kind, path, is_dir) {
        PathAction::Suppressed => marked.remove(path),
        PathAction::Enforce => marked.insert(path),
        _ => marked,
    }
}

/// The state of the watch loop: the target group, the mode policy and the
/// marked paths.
#[derive(Debug)]
pub struct Dispatcher {
    group: u32,
    policy: ModePolicy,
    marked: SuppressionSet,
}

impl Dispatcher {
    pub closed spec fn wf(&self) -> bool {
        self.marked.wf()
    }

    /// The paths whose next notification is taken for our own echo.
    pub closed spec fn marked(&self) -> Set<Seq<u8>> {
        self.marked@
    }

    pub closed spec fn group(&self) -> u32 {
        self.group
    }

    pub closed spec fn policy(&self) -> ModePolicy {
        self.policy
    }

    /// A loop for `group` with no path marked.
    pub fn new(group: u32, policy: ModePolicy) -> (r: Dispatcher)
        ensures
            r.wf(),
            r.group() == group,
            r.policy() == policy,
            r.marked() == Set::<Seq<u8>>::empty(),
    {
        Dispatcher { group, policy, marked: SuppressionSet::new() }
    }

    /// The target group.
    pub fn group_id(&self) -> (r: u32)
        ensures
            r == self.group(),
    {
        self.group
    }

    /// How many paths are marked.
    pub fn marked_count(&self) -> (r: usize)
        requires
            self.wf(),
        ensures
            r as nat == self.marked().len(),
    {
        self.marked.len()
    }

    /// Whether `path` is marked.
    pub fn is_marked(&self, path: &Vec<u8>) -> (r: bool)
        ensures
            r == self.marked().contains(path@),
    {
        self.marked.contains(path)
    }

    /// Deals with one path of a notification of `kind`; `is_dir` tells
    /// whether the path now denotes a directory. An echo clears its mark; a
    /// path that is not a directory is marked before it is enforced.
    pub fn on_path(&mut self, kind: ChangeKind, path: &Vec<u8>, is_dir: bool) -> (r: PathAction)
        requires
            old(self).wf(),
        ensures
            final(self).wf(),
            final(self).group() == old(self).group(),
            final(self).policy() == old(self).policy(),
            r == path_action(old(self).marked(), kind, path@, is_dir),
            final(self).marked() == marked_after(old(self).marked(), kind, path@, is_dir),
    {
        if kind == ChangeKind::Other {
            return PathAction::Ignore;
        }
        if self.marked.remove(path) {
            return PathAction::Suppressed;
        }
        assert(self.marked@ =~= old(self).marked@);
        if is_dir {
            PathAction::Walk
        } else {
            self.marked.insert(path);
            PathAction::Enforce
        }
    }

    /// The enforcement of a path that `on_path` marked, now known to be of
    /// `kind`.
    pub fn enforcer(&self, kind: EntryKind) -> (r: Enforcer)
        ensures
            r.wf(),
            r.ops() == planned_ops(kind, self.group(), self.policy()),
            r.done() == 0,
            r.failure() is None,
    {
        Enforcer::new(self.group, kind, self.policy)
    }

    /// One entry of a directory walk, of `kind`: marks it, and only then
    /// starts its enforcement, so that its echo is recognised even where a
    /// write fails halfway.
    pub fn walk_entry(&mut self, path: &Vec<u8>, kind: EntryKind) -> (r: Enforcer)
        requires
            old(self).wf(),
        ensures
            final(self).wf(),
            final(self).group() == old(self).group(),
            final(self).policy() == old(self).policy(),
            final(self).marked() == old(self).marked().insert(path@),
            r.wf(),
            r.ops() == planned_ops(kind, old(self).group(), old(self).policy()),
            r.done() == 0,
            r.failure() is None,
    {
        self.marked.insert(path);
        Enforcer::new(self.group, kind, self.policy)
    }
}

/// An outside creation or metadata change of a path that is not a directory
/// leads to one enforcement, after which the path is marked; the echo of that
/// write is discarded, causes no write of its own, and leaves the marks as
/// they were before the change.
pub proof fn lemma_no_feedback(
    marked: Set<Seq<u8>>,
    kind: ChangeKind,
    path: Seq<u8>,
    echo: ChangeKind,
    echo_is_dir: bool,
)
    requires
        kind != ChangeKind::Other,
        echo != ChangeKind::Other,
        !marked.contains(path),
    ensures
        path_action(marked, kind, path, false) == PathAction::Enforce,
        marked_after(marked, kind, path, false).contains(path),
        path_action(marked_after(marked, kind, path, false), echo, path, echo_is_dir)
            == PathAction::Suppressed,
        marked_after(marked_after(marked, kind, path, false), echo, path, echo_is_dir) == marked,
{
    assert(marked.insert(path).remove(path) =~= marked);
}

/// A path marked before its write (by `on_path` or by a walk) has its next
/// notification discarded whatever became of the write, and only that one:
/// the mark is gone afterwards, so a later notification is dealt with anew.
pub proof fn lemma_mark_is_one_shot(
    marked: Set<Seq<u8>>,
    path: Seq<u8>,
    echo: ChangeKind,
    echo_is_dir: bool,
    later: ChangeKind,
    later_is_dir: bool,
)
    requires
        echo != ChangeKind::Other,
        later != ChangeKind::Other,
    ensures
        path_action(marked.insert(path), echo, path, echo_is_dir) == PathAction::Suppressed,
        marked_after(marked.insert(path), echo, path, echo_is_dir) == marked.remove(path),
        path_action(marked_after(marked.insert(path), echo, path, echo_is_dir), later, path, later_is_dir)
            != PathAction::Suppressed,
{
    assert(marked.insert(path).remove(path) =~= marked.remove(path));
}

/// Renames, content writes and every other kind of change but creation and
/// metadata change lead to no write and leave the marks as they are.
pub proof fn lemma_ignored_kinds(marked: Set<Seq<u8>>, raw: RawKind, path: Seq<u8>, is_dir: bool)
    requires
        raw != RawKind::Create,
        raw != RawKind::ModifyMetadata,
    ensures
        path_action(marked, spec_classify(raw), path, is_dir) == PathAction::Ignore,
        marked_after(marked, spec_classify(raw), path, is_dir) == marked,
{
}

} // verus!
