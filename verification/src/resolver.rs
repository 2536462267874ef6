//! The permission resolver: for each question about a path, which requests go
//! to the operating system, in which order, and what the replies amount to.
//!
//! A [`Resolver`] is one question under way. It waits on at most one request;
//! [`Resolver::request`] names it, [`Resolver::advance`] takes the reply.
//! Nothing is remembered between questions, and every request is built anew.
use vstd::prelude::*;
use crate::codes::{
    access_outcome, chmod_outcome, classify_access, classify_chmod, execute_ok, read_ok, write_ok,
    ErrorCodes, OsError, EXECUTE, READ, WRITE, WRITE_EXECUTE,
};
use crate::inspect::{check_access, mode_test, presence, presence_of};
use crate::mode::{contains, mode_contains, STICKY};
use crate::path::{
    current, current_dir, holder, holder_of, parent, parent_is_shorter, parent_of, terminate,
    terminated,
};
use crate::request::{Reply, Request, RequestView};

verus! {

/// A question about a path, and how far it has come.
#[derive(Debug, PartialEq, Eq)]
pub enum Resolver {
    /// An access probe of `path` with `amode` is awaited. Its reading is the answer.
    Probe { path: Vec<u8>, amode: i32 },
    /// A change of the mode of `path` to `mode` is awaited. Its reading is the answer.
    Change { path: Vec<u8>, mode: u16 },
    /// The metadata of `path` is awaited, to test its mode for `wanted`.
    Inspect { path: Vec<u8>, wanted: u16 },
    /// On the way up from a path that is to be created: the metadata of
    /// `candidate` is awaited, to see whether it is there.
    Climb { candidate: Vec<u8> },
    /// Before a removal: the metadata of `path` is awaited, to see whether it
    /// is there.
    Locate { path: Vec<u8> },
    /// Before a removal: the metadata of `dir`, which holds `path`, is
    /// awaited, for its sticky bit.
    Guard { path: Vec<u8>, dir: Vec<u8> },
    /// Before a removal from a sticky directory: the metadata of `path` is
    /// awaited, for its owner.
    Owner { path: Vec<u8>, dir: Vec<u8> },
    /// Before a removal from a sticky directory: the effective user id is
    /// awaited, to hold it against `owner`.
    Identity { dir: Vec<u8>, owner: u32 },
    /// The answer is there.
    Done { outcome: Result<bool, OsError> },
}

/// A [`Resolver`] as a mathematical value.
pub enum ResolverView {
    Probe { path: Seq<u8>, amode: i32 },
    Change { path: Seq<u8>, mode: u16 },
    Inspect { path: Seq<u8>, wanted: u16 },
    Climb { candidate: Seq<u8> },
    Locate { path: Seq<u8> },
    Guard { path: Seq<u8>, dir: Seq<u8> },
    Owner { path: Seq<u8>, dir: Seq<u8> },
    Identity { dir: Seq<u8>, owner: u32 },
    Done { outcome: Result<bool, OsError> },
}

impl View for Resolver {
    type V = ResolverView;

    open spec fn view(&self) -> ResolverView {
        match *self {
            Resolver::Probe { path, amode } => ResolverView::Probe { path: path@, amode },
            Resolver::Change { path, mode } => ResolverView::Change { path: path@, mode },
            Resolver::Inspect { path, wanted } => ResolverView::Inspect { path: path@, wanted },
            Resolver::Climb { candidate } => ResolverView::Climb { candidate: candidate@ },
            Resolver::Locate { path } => ResolverView::Locate { path: path@ },
            Resolver::Guard { path, dir } => ResolverView::Guard { path: path@, dir: dir@ },
            Resolver::Owner { path, dir } => ResolverView::Owner { path: path@, dir: dir@ },
            Resolver::Identity { dir, owner } => ResolverView::Identity { dir: dir@, owner },
            Resolver::Done { outcome } => ResolverView::Done { outcome },
        }
    }
}

/// The probe that settles whether an entry can be put into, or taken out of,
/// `dir`: write and search permission on it, asked for together.
pub open spec fn entry_probe(dir: Seq<u8>) -> ResolverView {
    ResolverView::Probe { path: dir, amode: WRITE_EXECUTE }
}

/// Where the way up from `below` goes next. With a parent, the parent is the
/// next candidate. Without one, the current directory is the last resort and
/// is probed as it is.
pub open spec fn climb_from(below: Seq<u8>) -> ResolverView {
    match parent_of(below) {
        Some(dir) => ResolverView::Climb { candidate: dir },
        None => entry_probe(current_dir()),
    }
}

/// The request a resolver waits on, if any.
pub open spec fn pending(state: ResolverView) -> Option<RequestView> {
    match state {
        ResolverView::Probe { path, amode } => Some(
            RequestView::Access { path: terminated(path), amode },
        ),
        ResolverView::Change { path, mode } => Some(
            RequestView::Chmod { path: terminated(path), mode },
        ),
        ResolverView::Inspect { path, wanted } => Some(RequestView::Stat { path }),
        ResolverView::Climb { candidate } => Some(RequestView::Stat { path: candidate }),
        ResolverView::Locate { path } => Some(RequestView::Stat { path }),
        ResolverView::Guard { path, dir } => Some(RequestView::Stat { path: dir }),
        ResolverView::Owner { path, dir } => Some(RequestView::Stat { path }),
        ResolverView::Identity { dir, owner } => Some(RequestView::EffectiveUid),
        ResolverView::Done { outcome } => None,
    }
}

/// The answer a resolver holds, if it has one.
pub open spec fn answer_of(state: ResolverView) -> Option<Result<bool, OsError>> {
    match state {
        ResolverView::Done { outcome } => Some(outcome),
        _ => None,
    }
}

/// What a reply makes of a resolver, on a system with the given error
/// codes. A reply of another kind than the one awaited changes nothing, and
/// nothing changes an answer. A metadata call that fails is passed on as the
/// answer, but where the question is whether a path is there: then "no such
/// file or directory", and that failure alone, means that it is not.
pub open spec fn step(state: ResolverView, reply: Reply, codes: ErrorCodes) -> ResolverView {
    match (state, reply) {
        (ResolverView::Probe { path, amode }, Reply::Status(status)) => ResolverView::Done {
            outcome: access_outcome(status, codes),
        },
        (ResolverView::Change { path, mode }, Reply::Status(status)) => ResolverView::Done {
            outcome: chmod_outcome(status, codes),
        },
        (ResolverView::Inspect { path, wanted }, Reply::Stat(stat)) => ResolverView::Done {
            outcome: mode_test(stat, wanted),
        },
        (ResolverView::Climb { candidate }, Reply::Stat(stat)) => match presence_of(stat, codes) {
            Ok(found) => if found {
                entry_probe(candidate)
            } else {
                climb_from(candidate)
            },
            Err(error) => ResolverView::Done { outcome: Err(error) },
        },
        (ResolverView::Locate { path }, Reply::Stat(stat)) => match presence_of(stat, codes) {
            Ok(found) => if found {
                ResolverView::Guard { path, dir: holder_of(path) }
            } else {
                ResolverView::Done { outcome: Ok(false) }
            },
            Err(error) => ResolverView::Done { outcome: Err(error) },
        },
        (ResolverView::Guard { path, dir }, Reply::Stat(stat)) => match stat {
            Ok(metadata) => if contains(metadata.mode, STICKY) {
                ResolverView::Owner { path, dir }
            } else {
                entry_probe(dir)
            },
            Err(error) => ResolverView::Done { outcome: Err(error) },
        },
        (ResolverView::Owner { path, dir }, Reply::Stat(stat)) => match stat {
            Ok(metadata) => ResolverView::Identity { dir, owner: metadata.owner_uid },
            Err(error) => ResolverView::Done { outcome: Err(error) },
        },
        (ResolverView::Identity { dir, owner }, Reply::EffectiveUid(uid)) => if uid == owner {
            entry_probe(dir)
        } else {
            ResolverView::Done { outcome: Ok(false) }
        },
        _ => state,
    }
}

/// Does the reply answer the request?
pub open spec fn answers(request: RequestView, reply: Reply) -> bool {
    match request {
        RequestView::Stat { path } => reply is Stat,
        RequestView::EffectiveUid => reply is EffectiveUid,
        RequestView::Access { path, amode } => reply is Status,
        RequestView::Chmod { path, mode } => reply is Status,
    }
}

/// How many requests a resolver may still put, at most.
pub open spec fn rounds_left(state: ResolverView) -> nat {
    match state {
        ResolverView::Probe { path, amode } => 1,
        ResolverView::Change { path, mode } => 1,
        ResolverView::Inspect { path, wanted } => 1,
        ResolverView::Climb { candidate } => candidate.len() + 2,
        ResolverView::Locate { path } => 5,
        ResolverView::Guard { path, dir } => 4,
        ResolverView::Owner { path, dir } => 3,
        ResolverView::Identity { dir, owner } => 2,
        ResolverView::Done { outcome } => 0,
    }
}

/// Every answer brings the end nearer, whatever it says and whether or not
/// the world has changed since the last one: a resolver that is given the
/// reply to its request has fewer requests left than before. A reply that
/// does not answer the request leaves the resolver as it was. So a caller
/// that answers each request comes to the end after `rounds_left` requests
/// at most; the way up from a path takes no more than one request for each
/// of its bytes and one more.
pub proof fn each_answer_brings_the_end_nearer(
    state: ResolverView,
    reply: Reply,
    codes: ErrorCodes,
)
    ensures
        match pending(state) {
            Some(request) => if answers(request, reply) {
                rounds_left(step(state, reply, codes)) < rounds_left(state)
            } else {
                step(state, reply, codes) == state
            },
            None => step(state, reply, codes) == state,
        },
        rounds_left(state) == 0 <==> state is Done,
        state is Done <==> pending(state) is None,
{
    match state {
        ResolverView::Climb { candidate } => {
            parent_is_shorter(candidate);
        },
        _ => {},
    }
}

/// The way up from a path puts at most one request for each byte of the path
/// and one more.
pub proof fn climb_is_bounded(below: Seq<u8>)
    ensures
        1 <= rounds_left(climb_from(below)) <= below.len() + 1,
{
    parent_is_shorter(below);
}

/// Copies a path.
fn copy(path: &[u8]) -> (same: Vec<u8>)
    ensures
        same@ == path@,
{
    let mut same: Vec<u8> = Vec::new();
    let mut i: usize = 0;
    while i < path.len()
        invariant
            i <= path.len(),
            same@ == path@.take(i as int),
        decreases path.len() - i,
    {
        same.push(path[i]);
        assert(same@ =~= path@.take(i + 1));
        i += 1;
    }
    assert(path@.take(i as int) =~= path@);
    same
}

/// The resolver that probes `dir` for write and search permission together.
fn probe_entry(dir: Vec<u8>) -> (state: Resolver)
    ensures
        state@ == entry_probe(dir@),
{
    let write: i32 = write_ok();
    let execute: i32 = execute_ok();
    assert(2i32 | 1i32 == 3i32) by (bit_vector);
    Resolver::Probe { path: dir, amode: write | execute }
}

/// The resolver for the next step up from `below`.
fn climb(below: &[u8]) -> (state: Resolver)
    ensures
        state@ == climb_from(below@),
{
    match parent(below) {
        Some(dir) => Resolver::Climb { candidate: dir },
        None => probe_entry(current()),
    }
}

impl Resolver {
    /// Asks whether this process may access `path` in the ways `amode` names:
    /// one access probe, whose reading is the answer. A path that is not there
    /// comes out as the operating system's error.
    pub fn access(path: &[u8], amode: i32) -> (state: Resolver)
        ensures
            state@ == (ResolverView::Probe { path: path@, amode }),
    {
        Resolver::Probe { path: copy(path), amode }
    }

    /// Asks whether `path` can be read: an access probe for reading.
    pub fn is_readable(path: &[u8]) -> (state: Resolver)
        ensures
            state@ == (ResolverView::Probe { path: path@, amode: READ }),
    {
        Resolver::access(path, read_ok())
    }

    /// Asks whether `path` can be written: an access probe for writing.
    pub fn is_writable(path: &[u8]) -> (state: Resolver)
        ensures
            state@ == (ResolverView::Probe { path: path@, amode: WRITE }),
    {
        Resolver::access(path, write_ok())
    }

    /// Asks whether `path` can be executed: an access probe for executing.
    pub fn is_excutable(path: &[u8]) -> (state: Resolver)
        ensures
            state@ == (ResolverView::Probe { path: path@, amode: EXECUTE }),
    {
        Resolver::access(path, execute_ok())
    }

    /// Asks whether `path`, which is not there yet, could be created. The
    /// resolver goes up from parent to parent until one is there, and probes
    /// that one for write and search permission together. A path without a
    /// parent is taken to lie in the current directory. A parent whose
    /// metadata cannot be had, for another reason than that it is not there,
    /// ends the way up with that failure.
    pub fn is_creatable(path: &[u8]) -> (state: Resolver)
        ensures
            state@ == climb_from(path@),
    {
        climb(path)
    }

    /// Asks whether `path` could be removed. A path that is not there cannot:
    /// the answer is `Ok(false)`. Otherwise the directory that holds it
    /// decides. Without the sticky bit, write and search permission on the
    /// directory is all it takes. With it, the path must also belong to the
    /// effective user of this process. Metadata that cannot be had, of the
    /// path or of the directory, is a failure and is passed on; only "no such
    /// file or directory" for the path itself means that it is not there.
    pub fn is_removable(path: &[u8]) -> (state: Resolver)
        ensures
            state@ == (ResolverView::Locate { path: path@ }),
    {
        Resolver::Locate { path: copy(path) }
    }

    /// Asks whether the mode of `path` holds every bit of `mode`.
    pub fn check_access(path: &[u8], mode: u16) -> (state: Resolver)
        ensures
            state@ == (ResolverView::Inspect { path: path@, wanted: mode }),
    {
        Resolver::Inspect { path: copy(path), wanted: mode }
    }

    /// Asks for the mode of `path`, and of nothing below it, to be set to
    /// `mode`. The answer says whether it was.
    pub fn chmod(path: &[u8], mode: u16) -> (state: Resolver)
        ensures
            state@ == (ResolverView::Change { path: path@, mode }),
    {
        Resolver::Change { path: copy(path), mode }
    }

    /// The request this resolver waits on; `None` once it holds its answer.
    /// A path that goes to an access probe or a mode change gets its
    /// terminating zero byte here, each time anew.
    pub fn request(&self) -> (asked: Option<Request>)
        ensures
            match asked {
                Some(request) => pending(self@) == Some(request@),
                None => pending(self@) is None,
            },
    {
        match self {
            Resolver::Probe { path, amode } => Some(
                Request::Access { path: terminate(path.as_slice()), amode: *amode },
            ),
            Resolver::Change { path, mode } => Some(
                Request::Chmod { path: terminate(path.as_slice()), mode: *mode },
            ),
            Resolver::Inspect { path, wanted } => Some(
                Request::Stat { path: copy(path.as_slice()) },
            ),
            Resolver::Climb { candidate } => Some(
                Request::Stat { path: copy(candidate.as_slice()) },
            ),
            Resolver::Locate { path } => Some(Request::Stat { path: copy(path.as_slice()) }),
            Resolver::Guard { path, dir } => Some(Request::Stat { path: copy(dir.as_slice()) }),
            Resolver::Owner { path, dir } => Some(Request::Stat { path: copy(path.as_slice()) }),
            Resolver::Identity { dir, owner } => Some(Request::EffectiveUid),
            Resolver::Done { outcome } => None,
        }
    }

    /// The answer; `None` while a request is still open.
    pub fn outcome(&self) -> (answer: Option<Result<bool, OsError>>)
        ensures
            answer == answer_of(self@),
    {
        match self {
            Resolver::Done { outcome } => Some(*outcome),
            _ => None,
        }
    }

    /// Takes the reply to the open request and moves on, reading failures by
    /// the error codes of the system that gave the reply. A reply of another
    /// kind than the one awaited leaves the resolver as it is, and so does any
    /// reply once the answer is there.
    pub fn advance(self, reply: Reply, codes: ErrorCodes) -> (next: Resolver)
        ensures
            next@ == step(self@, reply, codes),
    {
        match self {
            Resolver::Probe { path, amode } => match reply {
                Reply::Status(status) => Resolver::Done { outcome: classify_access(status, codes) },
                _ => Resolver::Probe { path, amode },
            },
            Resolver::Change { path, mode } => match reply {
                Reply::Status(status) => Resolver::Done { outcome: classify_chmod(status, codes) },
                _ => Resolver::Change { path, mode },
            },
            Resolver::Inspect { path, wanted } => match reply {
                Reply::Stat(stat) => Resolver::Done { outcome: check_access(stat, wanted) },
                _ => Resolver::Inspect { path, wanted },
            },
            Resolver::Climb { candidate } => match reply {
                Reply::Stat(stat) => match presence(stat, codes) {
                    Ok(found) => if found {
                        probe_entry(candidate)
                    } else {
                        climb(candidate.as_slice())
                    },
                    Err(error) => Resolver::Done { outcome: Err(error) },
                },
                _ => Resolver::Climb { candidate },
            },
            Resolver::Locate { path } => match reply {
                Reply::Stat(stat) => match presence(stat, codes) {
                    Ok(found) => if found {
                        let dir = holder(path.as_slice());
                        Resolver::Guard { path, dir }
                    } else {
                        Resolver::Done { outcome: Ok(false) }
                    },
                    Err(error) => Resolver::Done { outcome: Err(error) },
                },
                _ => Resolver::Locate { path },
            },
            Resolver::Guard { path, dir } => match reply {
                Reply::Stat(stat) => match stat {
                    Ok(metadata) => if mode_contains(metadata.mode, STICKY) {
                        Resolver::Owner { path, dir }
                    } else {
                        probe_entry(dir)
                    },
                    Err(error) => Resolver::Done { outcome: Err(error) },
                },
                _ => Resolver::Guard { path, dir },
            },
            Resolver::Owner { path, dir } => match reply {
                Reply::Stat(stat) => match stat {
                    Ok(metadata) => Resolver::Identity { dir, owner: metadata.owner_uid },
                    Err(error) => Resolver::Done { outcome: Err(error) },
                },
                _ => Resolver::Owner { path, dir },
            },
            Resolver::Identity { dir, owner } => match reply {
                Reply::EffectiveUid(uid) => if uid == owner {
                    probe_entry(dir)
                } else {
                    Resolver::Done { outcome: Ok(false) }
                },
                _ => Resolver::Identity { dir, owner },
            },
            Resolver::Done { outcome } => Resolver::Done { outcome },
        }
    }
}

} // verus!
