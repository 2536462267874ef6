//! A model of the operating system at one moment, to say what the resolver's
//! answers are answers about.
//!
//! A [`World`] fixes what each request would be told. Real systems change
//! between two requests; a world does not, so what is proved of the resolver
//! in a world is what it does when nothing changes under it.
use vstd::prelude::*;
use crate::codes::{access_outcome, chmod_outcome, ErrorCodes, OsError, Status, WRITE_EXECUTE};
use crate::inspect::{mode_test, presence_of, Metadata};
use crate::mode::{contains, STICKY};
use crate::path::{current_dir, holder_of, parent_is_shorter, parent_of};
use crate::request::{Reply, RequestView};
use crate::resolver::{pending, step, ResolverView};

verus! {

/// What the operating system would say, to every request, at one moment.
pub struct World {
    /// The numbers by which this system names its failures.
    pub codes: ErrorCodes,
    /// The metadata of a path, or why it cannot be had.
    pub stat: spec_fn(Seq<u8>) -> Result<Metadata, OsError>,
    /// The effective user id of the process.
    pub euid: u32,
    /// The status of an access probe of a path with a mask.
    pub access: spec_fn(Seq<u8>, i32) -> Status,
    /// The status of a change of a path's mode.
    pub chmod: spec_fn(Seq<u8>, u16) -> Status,
}

/// The reply of a world to a request. Access probes and mode changes carry
/// their path with a zero byte behind it, which is taken off again.
pub open spec fn reply_to(world: World, request: RequestView) -> Reply {
    match request {
        RequestView::Stat { path } => Reply::Stat((world.stat)(path)),
        RequestView::EffectiveUid => Reply::EffectiveUid(world.euid),
        RequestView::Access { path, amode } => Reply::Status(
            (world.access)(path.drop_last(), amode),
        ),
        RequestView::Chmod { path, mode } => Reply::Status((world.chmod)(path.drop_last(), mode)),
    }
}

/// A resolver after at most `rounds` requests were put to a world and their
/// replies taken.
pub open spec fn run(world: World, state: ResolverView, rounds: nat) -> ResolverView
    decreases rounds,
{
    if rounds == 0 {
        state
    } else {
        match pending(state) {
            Some(request) => run(
                world,
                step(state, reply_to(world, request), world.codes),
                (rounds - 1) as nat,
            ),
            None => state,
        }
    }
}

/// The resolver that holds `outcome`.
pub open spec fn done(outcome: Result<bool, OsError>) -> ResolverView {
    ResolverView::Done { outcome }
}

/// Whether a path is there in a world: yes, no, or the failure that leaves it open.
pub open spec fn present(world: World, path: Seq<u8>) -> Result<bool, OsError> {
    presence_of((world.stat)(path), world.codes)
}

/// Whether a world grants access to a path in the ways of a mask.
pub open spec fn accessible(world: World, path: Seq<u8>, amode: i32) -> Result<bool, OsError> {
    access_outcome((world.access)(path, amode), world.codes)
}

/// Whether a path could be created in a world. Its nearest ancestor that is
/// there decides, by granting write and search permission together or not;
/// where the path, or the last ancestor that is not there, has no parent, the
/// current directory decides. An ancestor of which the world cannot say
/// whether it is there ends the search with that failure.
pub open spec fn creatable(world: World, path: Seq<u8>) -> Result<bool, OsError>
    decreases path.len(),
    via creatable_ends
{
    match parent_of(path) {
        Some(dir) => match present(world, dir) {
            Ok(found) => if found {
                accessible(world, dir, WRITE_EXECUTE)
            } else {
                creatable(world, dir)
            },
            Err(error) => Err(error),
        },
        None => accessible(world, current_dir(), WRITE_EXECUTE),
    }
}

#[via_fn]
proof fn creatable_ends(world: World, path: Seq<u8>) {
    parent_is_shorter(path);
}

/// Whether a path could be removed in a world.
pub open spec fn removable(world: World, path: Seq<u8>) -> Result<bool, OsError> {
    let dir = holder_of(path);
    match present(world, path) {
        Err(error) => Err(error),
        Ok(found) => if !found {
            Ok(false)
        } else {
            match (world.stat)(dir) {
                Err(error) => Err(error),
                Ok(holder) => if !contains(holder.mode, STICKY) {
                    accessible(world, dir, WRITE_EXECUTE)
                } else {
                    match (world.stat)(path) {
                        Err(error) => Err(error),
                        Ok(target) => if world.euid == target.owner_uid {
                            accessible(world, dir, WRITE_EXECUTE)
                        } else {
                            Ok(false)
                        },
                    }
                },
            }
        },
    }
}

/// Whether the mode of a path holds given bits in a world.
pub open spec fn holds_mode(world: World, path: Seq<u8>, wanted: u16) -> Result<bool, OsError> {
    mode_test((world.stat)(path), wanted)
}

/// Whether a world lets the mode of a path be changed.
pub open spec fn changeable(world: World, path: Seq<u8>, mode: u16) -> Result<bool, OsError> {
    chmod_outcome((world.chmod)(path, mode), world.codes)
}

} // verus!
