//! The questions put to the operating system, and its replies.
use vstd::prelude::*;
use crate::codes::{OsError, Status};
use crate::inspect::Metadata;

verus! {

/// One question for the operating system. The caller puts it and hands back
/// the matching [`Reply`].
#[derive(Debug, PartialEq, Eq)]
pub enum Request {
    /// The metadata of `path`, which also tells whether the path is there.
    /// Answered by `Reply::Stat`.
    Stat { path: Vec<u8> },
    /// The effective user id of this process. Answered by `Reply::EffectiveUid`.
    EffectiveUid,
    /// An access probe with mask `amode`. `path` ends in the zero byte and is
    /// ready to be handed over. Answered by `Reply::Status`.
    Access { path: Vec<u8>, amode: i32 },
    /// A change of mode to `mode`. `path` ends in the zero byte and is ready
    /// to be handed over. Answered by `Reply::Status`.
    Chmod { path: Vec<u8>, mode: u16 },
}

/// A [`Request`] as a mathematical value.
pub enum RequestView {
    Stat { path: Seq<u8> },
    EffectiveUid,
    Access { path: Seq<u8>, amode: i32 },
    Chmod { path: Seq<u8>, mode: u16 },
}

impl View for Request {
    type V = RequestView;

    open spec fn view(&self) -> RequestView {
        match *self {
            Request::Stat { path } => RequestView::Stat { path: path@ },
            Request::EffectiveUid => RequestView::EffectiveUid,
            Request::Access { path, amode } => RequestView::Access { path: path@, amode },
            Request::Chmod { path, mode } => RequestView::Chmod { path: path@, mode },
        }
    }
}

/// What the operating system said.
#[derive(Clone, Copy, Debug, PartialEq, Eq)]
pub enum Reply {
    /// The metadata, or why it could not be had.
    Stat(Result<Metadata, OsError>),
    /// The effective user id.
    EffectiveUid(u32),
    /// The status of an access probe or of a mode change.
    Status(Status),
}

} // verus!
