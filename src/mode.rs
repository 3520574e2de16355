//! The fixed mode policy: one set of permission bits for files and one for
//! directories.
use vstd::prelude::*;

verus! {

/// Read permission for the owner.
pub const OWNER_READ: u32 = 0o400;
/// Write permission for the owner.
pub const OWNER_WRITE: u32 = 0o200;
/// Execute (traverse) permission for the owner.
pub const OWNER_EXEC: u32 = 0o100;
/// Read permission for the group.
pub const GROUP_READ: u32 = 0o040;
/// Write permission for the group.
pub const GROUP_WRITE: u32 = 0o020;
/// Execute (traverse) permission for the group.
pub const GROUP_EXEC: u32 = 0o010;
/// All permission bits of other users.
pub const OTHER_ALL: u32 = 0o007;

/// The mode given to every entry that is not a directory: owner and group
/// may read and write, nobody may execute, others have no access.
pub open spec fn spec_file_mode() -> u32 {
    OWNER_READ | OWNER_WRITE | GROUP_READ | GROUP_WRITE
}

/// The mode given to every directory: the file mode plus traversal for the
/// owner and the group.
pub open spec fn spec_dir_mode() -> u32 {
    spec_file_mode() | OWNER_EXEC | GROUP_EXEC
}

/// The two modes of the policy, computed once.
#[derive(Clone, Copy, Debug, PartialEq, Eq)]
pub struct ModePolicy {
    pub file_mode: u32,
    pub dir_mode: u32,
}

impl ModePolicy {
    /// Whether this is the fixed policy.
    pub open spec fn is_standard(self) -> bool {
        self.file_mode == spec_file_mode() && self.dir_mode == spec_dir_mode()
    }

    /// Builds the fixed policy from the single permission bits.
    pub fn new() -> (r: ModePolicy)
        ensures
            r.is_standard(),
            r.file_mode == 0o660,
            r.dir_mode == 0o770,
    {
        let mut file_mode: u32 = 0;
        file_mode = file_mode | OWNER_READ;
        file_mode = file_mode | OWNER_WRITE;
        file_mode = file_mode | GROUP_READ;
        file_mode = file_mode | GROUP_WRITE;
        let dir_mode: u32 = file_mode | OWNER_EXEC | GROUP_EXEC;
        assert(file_mode == 0o660u32) by (bit_vector)
            requires file_mode == 0u32 | 0o400u32 | 0o200u32 | 0o040u32 | 0o020u32;
        assert(dir_mode == 0o770u32) by (bit_vector)
            requires dir_mode == file_mode | 0o100u32 | 0o010u32, file_mode == 0o660u32;
        assert(spec_file_mode() == 0o660u32) by (bit_vector);
        assert(spec_dir_mode() == 0o770u32) by (bit_vector);
        ModePolicy { file_mode, dir_mode }
    }
}

/// The file mode grants owner and group read and write, and nothing else.
pub proof fn lemma_file_mode_bits()
    ensures
        spec_file_mode() & OWNER_READ != 0,
        spec_file_mode() & OWNER_WRITE != 0,
        spec_file_mode() & GROUP_READ != 0,
        spec_file_mode() & GROUP_WRITE != 0,
        spec_file_mode() & OWNER_EXEC == 0,
        spec_file_mode() & GROUP_EXEC == 0,
        spec_file_mode() & OTHER_ALL == 0,
        spec_file_mode() == 0o660,
{
    assert(spec_file_mode() == 0o660u32) by (bit_vector);
    assert(0o660u32 & 0o400u32 != 0 && 0o660u32 & 0o200u32 != 0 && 0o660u32 & 0o040u32 != 0
        && 0o660u32 & 0o020u32 != 0 && 0o660u32 & 0o100u32 == 0 && 0o660u32 & 0o010u32 == 0
        && 0o660u32 & 0o007u32 == 0) by (bit_vector);
}

/// The directory mode grants owner and group read, write and execute, and
/// nothing to others.
pub proof fn lemma_dir_mode_bits()
    ensures
        spec_dir_mode() & OWNER_READ != 0,
        spec_dir_mode() & OWNER_WRITE != 0,
        spec_dir_mode() & OWNER_EXEC != 0,
        spec_dir_mode() & GROUP_READ != 0,
        spec_dir_mode() & GROUP_WRITE != 0,
        spec_dir_mode() & GROUP_EXEC != 0,
        spec_dir_mode() & OTHER_ALL == 0,
        spec_dir_mode() == 0o770,
{
    assert(spec_dir_mode() == 0o770u32) by (bit_vector);
    assert(0o770u32 & 0o400u32 != 0 && 0o770u32 & 0o200u32 != 0 && 0o770u32 & 0o100u32 != 0
        && 0o770u32 & 0o040u32 != 0 && 0o770u32 & 0o020u32 != 0 && 0o770u32 & 0o010u32 != 0
        && 0o770u32 & 0o007u32 == 0) by (bit_vector);
}

} // verus!
