//! The numbers shared with the operating system: access masks, error codes,
//! and the three-way reading of a call's status.
use vstd::prelude::*;

verus! {

/// Mask bit of an access probe: may the path be read?
pub const READ: i32 = 4;

/// Mask bit of an access probe: may the path be written?
pub const WRITE: i32 = 2;

/// Mask bit of an access probe: may the path be executed or, for a directory, searched?
pub const EXECUTE: i32 = 1;

/// The empty mask of an access probe: is the path there at all?
pub const EXISTENCE: i32 = 0;

/// The mask that asks for write and search permission together.
pub const WRITE_EXECUTE: i32 = 3;

/// `libc::R_OK`. The contract claims its value, 4, which libc gives it on
/// every target that has it.
#[verifier::external_body]
pub(crate) fn read_ok() -> (mask: i32)
    ensures
        mask == READ,
{
    libc::R_OK
}

/// `libc::W_OK`. The contract claims its value, 2, which libc gives it on
/// every target that has it.
#[verifier::external_body]
pub(crate) fn write_ok() -> (mask: i32)
    ensures
        mask == WRITE,
{
    libc::W_OK
}

/// `libc::X_OK`. The contract claims its value, 1, which libc gives it on
/// every target that has it.
#[verifier::external_body]
pub(crate) fn execute_ok() -> (mask: i32)
    ensures
        mask == EXECUTE,
{
    libc::X_OK
}

/// The numbers by which the operating system names the three failures that
/// are read as answers. They differ from system to system, so nothing here
/// rests on what they are: they are taken from the system and handed on.
#[derive(Clone, Copy, Debug, PartialEq, Eq, Structural)]
pub struct ErrorCodes {
    /// "Permission denied": the path may not be searched or touched.
    pub denied: i32,
    /// "Operation not permitted": the caller is not the owner.
    pub not_permitted: i32,
    /// "No such file or directory".
    pub no_entry: i32,
}

/// `libc::EACCES`, `libc::EPERM` and `libc::ENOENT`, as libc has them for the
/// target this is built for. The contract claims no number, only that the
/// three differ from one another, which holds on every target for which libc
/// defines all three.
#[verifier::external_body]
fn libc_codes() -> (codes: ErrorCodes)
    ensures
        codes.denied != codes.not_permitted,
        codes.denied != codes.no_entry,
        codes.not_permitted != codes.no_entry,
{
    ErrorCodes { denied: libc::EACCES, not_permitted: libc::EPERM, no_entry: libc::ENOENT }
}

impl ErrorCodes {
    /// No two of the three failures share a number.
    pub open spec fn distinct(self) -> bool {
        &&& self.denied != self.not_permitted
        &&& self.denied != self.no_entry
        &&& self.not_permitted != self.no_entry
    }

    /// The codes of the system this is built for.
    pub fn system() -> (codes: ErrorCodes)
        ensures
            codes.distinct(),
    {
        libc_codes()
    }
}

/// A failure of the operating system that is passed on to the caller as it came.
#[derive(Clone, Copy, Debug, PartialEq, Eq, Structural)]
pub struct OsError {
    /// The error code the operating system set.
    pub code: i32,
}

/// What a permission call handed back: its return value, and the error code
/// that was current when it returned. The code counts only where `ret` is not zero.
#[derive(Clone, Copy, Debug, PartialEq, Eq, Structural)]
pub struct Status {
    pub ret: i32,
    pub errno: i32,
}

/// The reading of an access probe: granted, refused, or broken.
pub open spec fn access_outcome(status: Status, codes: ErrorCodes) -> Result<bool, OsError> {
    if status.ret == 0 {
        Ok(true)
    } else if status.errno == codes.denied {
        Ok(false)
    } else {
        Err(OsError { code: status.errno })
    }
}

/// Does this error code say that permission is wanting? Two codes do: the one
/// for a path that may not be searched or touched, and the one for a caller who
/// is not the owner.
pub open spec fn lacks_permission(code: i32, codes: ErrorCodes) -> bool {
    code == codes.denied || code == codes.not_permitted
}

/// The reading of a mode change: done, not possible here, or broken.
pub open spec fn chmod_outcome(status: Status, codes: ErrorCodes) -> Result<bool, OsError> {
    if status.ret == 0 {
        Ok(true)
    } else if lacks_permission(status.errno, codes) || status.errno == codes.no_entry {
        Ok(false)
    } else {
        Err(OsError { code: status.errno })
    }
}

/// Reads the status of an access probe. Success is `Ok(true)`. A failure with
/// "permission denied" is an answer, not an error: `Ok(false)`. Every other
/// failure, a missing path among them, is passed on with its code.
pub fn classify_access(status: Status, codes: ErrorCodes) -> (outcome: Result<bool, OsError>)
    ensures
        outcome == access_outcome(status, codes),
{
    if status.ret == 0 {
        Ok(true)
    } else if status.errno == codes.denied {
        Ok(false)
    } else {
        Err(OsError { code: status.errno })
    }
}

/// Reads the status of a mode change. Success is `Ok(true)`. Want of
/// permission and a missing path leave the mode as it was and are reported as
/// `Ok(false)`. Every other failure is passed on with its code.
pub fn classify_chmod(status: Status, codes: ErrorCodes) -> (outcome: Result<bool, OsError>)
    ensures
        outcome == chmod_outcome(status, codes),
{
    if status.ret == 0 {
        Ok(true)
    } else if status.errno == codes.denied || status.errno == codes.not_permitted
        || status.errno == codes.no_entry {
        Ok(false)
    } else {
        Err(OsError { code: status.errno })
    }
}

/// A path that is not there is read in two ways, and the two are kept apart:
/// to an access probe it is a failure that is passed on, to a mode change it
/// is the answer `Ok(false)`. "Permission denied" is `Ok(false)` to both.
pub proof fn absence_is_read_in_two_ways(ret: i32, codes: ErrorCodes)
    requires
        ret != 0,
        codes.distinct(),
    ensures
        access_outcome(Status { ret, errno: codes.no_entry }, codes) == Err::<bool, OsError>(
            OsError { code: codes.no_entry },
        ),
        chmod_outcome(Status { ret, errno: codes.no_entry }, codes) == Ok::<bool, OsError>(false),
        access_outcome(Status { ret, errno: codes.denied }, codes) == Ok::<bool, OsError>(false),
        chmod_outcome(Status { ret, errno: codes.denied }, codes) == Ok::<bool, OsError>(false),
{
}

} // verus!
