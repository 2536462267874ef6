//! What is read off a path's metadata: whether its mode holds given bits, and
//! its mode as text.
use vstd::prelude::*;
use crate::codes::{ErrorCodes, OsError};
use crate::mode::{contains, mode_contains, render, rendered};

verus! {

/// The part of a path's metadata that permission questions read. It is taken
/// anew for every question and never kept.
#[derive(Clone, Copy, Debug, PartialEq, Eq, Structural)]
pub struct Metadata {
    /// The mode, sixteen bits of it: permission and special bits below, the
    /// kind of file above.
    pub mode: u16,
    /// The user who owns the path.
    pub owner_uid: u32,
}

/// Whether a path is there, given what the metadata call gave. Metadata
/// says it is; the failure "no such file or directory" says it is not; any
/// other failure leaves the question open and is itself the outcome.
pub open spec fn presence_of(stat: Result<Metadata, OsError>, codes: ErrorCodes) -> Result<
    bool,
    OsError,
> {
    match stat {
        Ok(metadata) => Ok(true),
        Err(error) => if error.code == codes.no_entry {
            Ok(false)
        } else {
            Err(error)
        },
    }
}

/// Tells whether a path is there from the outcome of the metadata call. Only
/// "no such file or directory" counts as absence: a lookup that failed for
/// another reason is passed on as it came.
pub fn presence(stat: Result<Metadata, OsError>, codes: ErrorCodes) -> (outcome: Result<
    bool,
    OsError,
>)
    ensures
        outcome == presence_of(stat, codes),
{
    match stat {
        Ok(metadata) => Ok(true),
        Err(error) => if error.code == codes.no_entry {
            Ok(false)
        } else {
            Err(error)
        },
    }
}

/// The answer to a mode test, given what the metadata call gave.
pub open spec fn mode_test(stat: Result<Metadata, OsError>, wanted: u16) -> Result<bool, OsError> {
    match stat {
        Ok(metadata) => Ok(contains(metadata.mode, wanted)),
        Err(error) => Err(error),
    }
}

/// Tests whether a path's mode holds every bit of `wanted`, given the outcome
/// of the metadata call. A failed call is passed on as it came.
pub fn check_access(stat: Result<Metadata, OsError>, wanted: u16) -> (outcome: Result<
    bool,
    OsError,
>)
    ensures
        outcome == mode_test(stat, wanted),
{
    match stat {
        Ok(metadata) => Ok(mode_contains(metadata.mode, wanted)),
        Err(error) => Err(error),
    }
}

/// Writes a path's mode as text, given the outcome of the metadata call:
/// special bits first, permission bits second, each as a base-8 numeral. A
/// failed call is passed on as it came.
pub fn get_access(stat: Result<Metadata, OsError>) -> (outcome: Result<String, OsError>)
    ensures
        match outcome {
            Ok(text) => stat matches Ok(metadata) && text@ == rendered(metadata.mode),
            Err(error) => stat == Err::<Metadata, OsError>(error),
        },
{
    match stat {
        Ok(metadata) => Ok(render(metadata.mode)),
        Err(error) => Err(error),
    }
}

} // verus!
