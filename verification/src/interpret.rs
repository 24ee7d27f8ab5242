//! Classification of a probe's raw `(return value, errno)` pair into the
//! fixed outcome taxonomy, plus the two derived predicates used by the
//! scanner and the profile matcher.

use vstd::prelude::*;

verus! {

/// Operation not permitted.
pub const EPERM: i32 = 1;
/// Permission denied.
pub const EACCES: i32 = 13;
/// Bad address handed to the kernel.
pub const EFAULT: i32 = 14;
/// Invalid argument.
pub const EINVAL: i32 = 22;
/// Inappropriate ioctl for device: the canonical "command does not exist".
pub const ENOTTY: i32 = 25;

/// Interpretation of one executed ioctl probe.
#[derive(Debug, Clone, Copy, PartialEq, Eq, Structural)]
pub enum Interpretation {
    /// The command does not exist (ENOTTY).
    NotExist,
    /// The command exists but rejected the argument (EFAULT / EINVAL).
    Exists,
    /// The command is permission-gated (EPERM / EACCES).
    Permission,
    /// The call succeeded (return value >= 0, errno 0).
    Success,
    /// Any other error code.
    Unknown(i32),
}

/// The canonical classification of a probe result. A pure function of the
/// pair alone: ENOTTY means the command does not exist; EPERM and EACCES
/// mean it is permission-gated; EFAULT and EINVAL mean it exists but
/// rejected this argument; a non-negative return with errno 0 is a success;
/// everything else is an unknown error.
pub open spec fn spec_interpret(ret: i32, errno: i32) -> Interpretation {
    if errno == ENOTTY {
        Interpretation::NotExist
    } else if errno == EPERM || errno == EACCES {
        Interpretation::Permission
    } else if errno == EFAULT || errno == EINVAL {
        Interpretation::Exists
    } else if ret >= 0 && errno == 0 {
        Interpretation::Success
    } else {
        Interpretation::Unknown(errno)
    }
}

/// The re-classification applied after a probe is repeated at a discovered
/// size: success, or EINVAL as a continued existence signal, or unknown.
pub open spec fn spec_reinterpret(ret: i32, errno: i32) -> Interpretation {
    if ret >= 0 && errno == 0 {
        Interpretation::Success
    } else if errno == EINVAL {
        Interpretation::Exists
    } else {
        Interpretation::Unknown(errno)
    }
}

/// The single existence predicate used by every call site: only the
/// canonical ENOTTY means "does not exist"; success, parameter errors and
/// EPERM all witness that the command is wired up in the driver.
pub open spec fn spec_exists_errno(errno: i32) -> bool {
    errno == 0 || errno == EFAULT || errno == EINVAL || errno == EPERM
}

/// The usability predicate consulted before reading buffer contents:
/// success or a parameter error, excluding permission-gated commands.
pub open spec fn spec_looks_usable(errno: i32) -> bool {
    errno == 0 || errno == EFAULT || errno == EINVAL
}

/// Classify a probe result. See [`spec_interpret`].
pub fn interpret(ret: i32, errno: i32) -> (r: Interpretation)
    ensures
        r == spec_interpret(ret, errno),
{
    if errno == ENOTTY {
        Interpretation::NotExist
    } else if errno == EPERM || errno == EACCES {
        Interpretation::Permission
    } else if errno == EFAULT || errno == EINVAL {
        Interpretation::Exists
    } else if ret >= 0 && errno == 0 {
        Interpretation::Success
    } else {
        Interpretation::Unknown(errno)
    }
}

/// Structured result of one null-argument test of a command.
#[derive(Debug, Clone, Copy, PartialEq, Eq, Structural)]
pub struct IoctlTestResult {
    /// The packed command word that was probed.
    pub cmd: u32,
    /// Raw return value of the call.
    pub result: i32,
    /// OS error code, 0 on success.
    pub errno: i32,
    /// Whether the command appears wired up at all (not ENOTTY).
    pub returns_data: bool,
}

impl IoctlTestResult {
    /// Whether the probe looks usable: success, EFAULT or EINVAL.
    pub fn is_success(&self) -> (r: bool)
        ensures
            r == spec_looks_usable(self.errno),
    {
        self.errno == 0 || self.errno == EFAULT || self.errno == EINVAL
    }

    /// Whether the command exists at all; used for profile signature
    /// matching. Permission-gated commands count as existing.
    pub fn command_exists(&self) -> (r: bool)
        ensures
            r == spec_exists_errno(self.errno),
    {
        self.errno == 0 || self.errno == EFAULT || self.errno == EINVAL || self.errno == EPERM
    }
}

/// The interpreter is a pure function of the pair, and maps each canonical
/// errno class to its outcome: ENOTTY to NotExist, EFAULT and EINVAL to
/// Exists, EPERM and EACCES to Permission, a non-negative return with errno
/// 0 to Success, and anything else to Unknown carrying the errno.
pub proof fn lemma_interpreter_table(ret: i32, errno: i32)
    ensures
        errno == ENOTTY ==> spec_interpret(ret, errno) == Interpretation::NotExist,
        errno == EFAULT || errno == EINVAL ==> spec_interpret(ret, errno)
            == Interpretation::Exists,
        errno == EPERM || errno == EACCES ==> spec_interpret(ret, errno)
            == Interpretation::Permission,
        ret >= 0 && errno == 0 ==> spec_interpret(ret, errno) == Interpretation::Success,
        errno != 0 && errno != EPERM && errno != EACCES && errno != EFAULT && errno != EINVAL
            && errno != ENOTTY ==> spec_interpret(ret, errno) == Interpretation::Unknown(errno),
{
}

/// Existence is weaker than success: every probe classified Success also
/// satisfies the existence predicate.
pub proof fn lemma_success_implies_exists(ret: i32, errno: i32)
    ensures
        spec_interpret(ret, errno) == Interpretation::Success ==> spec_exists_errno(errno),
{
}

} // verus!
