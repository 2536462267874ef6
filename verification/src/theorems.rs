//! What the resolver's answers come to, in every world.
use vstd::prelude::*;
use crate::codes::{access_outcome, ErrorCodes, OsError, EXECUTE, READ, WRITE, WRITE_EXECUTE};
use crate::inspect::Metadata;
use crate::mode::{contains, STICKY};
use crate::path::{current_dir, holder_of, parent_is_shorter, parent_of, terminated};
use crate::request::{Reply, RequestView};
use crate::resolver::{
    climb_from, each_answer_brings_the_end_nearer, entry_probe, pending, rounds_left, step,
    ResolverView,
};
use crate::world::{
    accessible, changeable, creatable, done, holds_mode, present, removable, reply_to, run, World,
};

verus! {

/// Taking the terminating zero byte off again gives the path back.
pub proof fn terminated_drops_back(path: Seq<u8>)
    ensures
        terminated(path).drop_last() == path,
        terminated(path).len() == path.len() + 1,
        terminated(path).last() == 0u8,
{
    assert(terminated(path).drop_last() =~= path);
}

/// An answer stays: once a run has come to an answer, more rounds change nothing.
pub proof fn answer_stays(world: World, state: ResolverView, rounds: nat, more: nat)
    requires
        run(world, state, rounds) is Done,
    ensures
        run(world, state, rounds + more) == run(world, state, rounds),
    decreases rounds,
{
    if rounds == 0 {
        assert(pending(state) is None);
        if more > 0 {
            assert(run(world, state, more) == state);
        }
    } else {
        match pending(state) {
            Some(request) => {
                answer_stays(
                    world,
                    step(state, reply_to(world, request), world.codes),
                    (rounds - 1) as nat,
                    more,
                );
            },
            None => {},
        }
    }
}

/// In a world every request is answered, so every run ends: after as many
/// rounds as the resolver has left, the answer is there.
pub proof fn run_ends(world: World, state: ResolverView, rounds: nat)
    requires
        rounds >= rounds_left(state),
    ensures
        run(world, state, rounds) is Done,
    decreases rounds_left(state),
{
    match pending(state) {
        Some(request) => {
            let reply = reply_to(world, request);
            each_answer_brings_the_end_nearer(state, reply, world.codes);
            run_ends(world, step(state, reply, world.codes), (rounds - 1) as nat);
        },
        None => {
            assert(run(world, state, rounds) == state);
        },
    }
}

/// A probe is one request: after one round or more, the answer is the
/// reading of what the world says to that probe.
pub proof fn probe_run(world: World, path: Seq<u8>, amode: i32, rounds: nat)
    requires
        rounds >= 1,
    ensures
        run(world, ResolverView::Probe { path, amode }, rounds) == done(
            accessible(world, path, amode),
        ),
{
    terminated_drops_back(path);
    let start = ResolverView::Probe { path, amode };
    reveal_with_fuel(run, 2);
    assert(run(world, start, 1) == done(accessible(world, path, amode)));
    answer_stays(world, start, 1, (rounds - 1) as nat);
}

/// Where the world grants a path for reading, the readable question is
/// answered `Ok(true)`; where it refuses with "permission denied", `Ok(false)`;
/// and where the probe fails in any other way, a missing path among them, the
/// answer is that failure.
pub proof fn readable_follows_the_world(world: World, path: Seq<u8>, rounds: nat)
    requires
        rounds >= 1,
    ensures
        ({
            let status = (world.access)(path, READ);
            let answer = run(world, ResolverView::Probe { path, amode: READ }, rounds);
            &&& status.ret == 0 ==> answer == done(Ok(true))
            &&& status.ret != 0 && status.errno == world.codes.denied ==> answer == done(Ok(false))
            &&& status.ret != 0 && status.errno != world.codes.denied ==> answer == done(
                Err(OsError { code: status.errno }),
            )
            &&& status.ret != 0 && status.errno == world.codes.no_entry && world.codes.distinct()
                ==> answer == done(Err(OsError { code: world.codes.no_entry }))
        }),
{
    probe_run(world, path, READ, rounds);
}

/// A mode test is one request: the answer is whether the mode that the world
/// reports holds the bits, or the failure of the metadata call.
pub proof fn check_access_run(world: World, path: Seq<u8>, wanted: u16, rounds: nat)
    requires
        rounds >= 1,
    ensures
        run(world, ResolverView::Inspect { path, wanted }, rounds) == done(
            holds_mode(world, path, wanted),
        ),
{
    let start = ResolverView::Inspect { path, wanted };
    reveal_with_fuel(run, 2);
    assert(run(world, start, 1) == done(holds_mode(world, path, wanted)));
    answer_stays(world, start, 1, (rounds - 1) as nat);
}

/// The sticky test of a path answers `Ok(true)` exactly where the path's
/// mode has the sticky bit set, whatever its other bits are.
pub proof fn sticky_test_run(world: World, path: Seq<u8>, metadata: Metadata, rounds: nat)
    requires
        rounds >= 1,
        (world.stat)(path) == Ok::<Metadata, OsError>(metadata),
    ensures
        run(world, ResolverView::Inspect { path, wanted: STICKY }, rounds) == done(
            Ok((metadata.mode >> 9) & 1 == 1),
        ),
{
    check_access_run(world, path, STICKY, rounds);
    crate::mode::sticky_test_reads_one_bit(metadata.mode);
}

/// A mode change is one request: the answer is the reading of what the world
/// says to it.
pub proof fn chmod_run(world: World, path: Seq<u8>, mode: u16, rounds: nat)
    requires
        rounds >= 1,
    ensures
        run(world, ResolverView::Change { path, mode }, rounds) == done(
            changeable(world, path, mode),
        ),
{
    terminated_drops_back(path);
    let start = ResolverView::Change { path, mode };
    reveal_with_fuel(run, 2);
    assert(run(world, start, 1) == done(changeable(world, path, mode)));
    answer_stays(world, start, 1, (rounds - 1) as nat);
}

/// The way up always ends. From any path, after at most one round for each
/// byte of the path and one more, the creatable question is answered, and the
/// answer is `creatable` of the world: whether the nearest ancestor that is
/// there, or the current directory where there is none, grants write and
/// search permission in one probe, or the failure that kept the world from
/// saying whether an ancestor is there.
pub proof fn creatable_run(world: World, path: Seq<u8>, rounds: nat)
    requires
        rounds >= path.len() + 1,
    ensures
        run(world, climb_from(path), rounds) == done(creatable(world, path)),
    decreases path.len(),
{
    parent_is_shorter(path);
    let start = climb_from(path);
    match parent_of(path) {
        None => {
            probe_run(world, current_dir(), WRITE_EXECUTE, rounds);
        },
        Some(dir) => {
            let reply = reply_to(world, RequestView::Stat { path: dir });
            let next = step(start, reply, world.codes);
            assert(pending(start) == Some(RequestView::Stat { path: dir }));
            assert(run(world, start, rounds) == run(world, next, (rounds - 1) as nat));
            match present(world, dir) {
                Ok(found) => {
                    if found {
                        assert(next == entry_probe(dir));
                        probe_run(world, dir, WRITE_EXECUTE, (rounds - 1) as nat);
                    } else {
                        assert(next == climb_from(dir));
                        creatable_run(world, dir, (rounds - 1) as nat);
                    }
                },
                Err(error) => {
                    assert(next == done(Err(error)));
                    assert(run(world, next, (rounds - 1) as nat) == next);
                },
            }
        },
    }
}

/// A path whose parent and grandparent are not there, and whose
/// great-grandparent is, can be created exactly where one probe of the
/// great-grandparent for write and search permission together says so. The
/// resolver looks three times for an ancestor and probes once.
pub proof fn creatable_two_levels_up(
    world: World,
    path: Seq<u8>,
    first: Seq<u8>,
    second: Seq<u8>,
    third: Seq<u8>,
)
    requires
        parent_of(path) == Some(first),
        parent_of(first) == Some(second),
        parent_of(second) == Some(third),
        present(world, first) == Ok::<bool, OsError>(false),
        present(world, second) == Ok::<bool, OsError>(false),
        present(world, third) == Ok::<bool, OsError>(true),
    ensures
        creatable(world, path) == accessible(world, third, WRITE_EXECUTE),
        creatable(world, path) == creatable(world, second),
        run(world, climb_from(path), 3) == entry_probe(third),
        run(world, climb_from(path), 4) == done(
            access_outcome((world.access)(third, WRITE_EXECUTE), world.codes),
        ),
        WRITE_EXECUTE == WRITE | EXECUTE,
{
    reveal_with_fuel(creatable, 4);
    reveal_with_fuel(run, 5);
    terminated_drops_back(third);
    assert(2i32 | 1i32 == 3i32) by (bit_vector);
}

/// The removable question takes five rounds at most, and its answer is
/// `removable` of the world.
pub proof fn removable_run(world: World, path: Seq<u8>, rounds: nat)
    requires
        rounds >= 5,
    ensures
        run(world, ResolverView::Locate { path }, rounds) == done(removable(world, path)),
{
    let start = ResolverView::Locate { path };
    let dir = holder_of(path);
    terminated_drops_back(dir);
    reveal_with_fuel(run, 6);
    assert(run(world, start, 5) == done(removable(world, path)));
    answer_stays(world, start, 5, (rounds - 5) as nat);
}

/// A path that is not there is not removable: the answer is `Ok(false)`,
/// never an error, after the one request that finds it missing.
pub proof fn missing_path_is_not_removable(world: World, path: Seq<u8>, rounds: nat)
    requires
        (world.stat)(path) == Err::<Metadata, OsError>(OsError { code: world.codes.no_entry }),
        rounds >= 1,
    ensures
        removable(world, path) == Ok::<bool, OsError>(false),
        run(world, ResolverView::Locate { path }, rounds) == done(Ok(false)),
{
    let start = ResolverView::Locate { path };
    reveal_with_fuel(run, 2);
    assert(run(world, start, 1) == done(Ok(false)));
    answer_stays(world, start, 1, (rounds - 1) as nat);
}

/// A lookup that fails is not absence. Where the metadata of a path cannot
/// be had for another reason than that the path is not there, the removable
/// question is answered with that failure, after the one request that met it.
pub proof fn failed_lookup_is_not_absence(
    world: World,
    path: Seq<u8>,
    error: OsError,
    rounds: nat,
)
    requires
        (world.stat)(path) == Err::<Metadata, OsError>(error),
        error.code != world.codes.no_entry,
        rounds >= 1,
    ensures
        removable(world, path) == Err::<bool, OsError>(error),
        run(world, ResolverView::Locate { path }, rounds) == done(Err(error)),
{
    let start = ResolverView::Locate { path };
    reveal_with_fuel(run, 2);
    assert(run(world, start, 1) == done(Err(error)));
    answer_stays(world, start, 1, (rounds - 1) as nat);
}

/// On the way up, too, a lookup that fails is not absence: where the
/// metadata of a path's parent cannot be had for another reason than that the
/// parent is not there, the creatable question is answered with that failure
/// and the way up ends there.
pub proof fn failed_lookup_ends_the_way_up(
    world: World,
    path: Seq<u8>,
    dir: Seq<u8>,
    error: OsError,
    rounds: nat,
)
    requires
        parent_of(path) == Some(dir),
        (world.stat)(dir) == Err::<Metadata, OsError>(error),
        error.code != world.codes.no_entry,
        rounds >= 1,
    ensures
        creatable(world, path) == Err::<bool, OsError>(error),
        run(world, climb_from(path), rounds) == done(Err(error)),
{
    let start = climb_from(path);
    reveal_with_fuel(run, 2);
    assert(run(world, start, 1) == done(Err(error)));
    answer_stays(world, start, 1, (rounds - 1) as nat);
}

/// A path that was there a moment ago and whose metadata can no longer be
/// had is a failure, not an absence: once the removable question has found
/// the path, a metadata call that fails, for the directory or for the path,
/// ends it with that failure, "no such file or directory" included.
pub proof fn vanished_metadata_is_a_failure(
    path: Seq<u8>,
    dir: Seq<u8>,
    error: OsError,
    codes: ErrorCodes,
)
    ensures
        step(ResolverView::Guard { path, dir }, Reply::Stat(Err(error)), codes) == done(
            Err(error),
        ),
        step(ResolverView::Owner { path, dir }, Reply::Stat(Err(error)), codes) == done(
            Err(error),
        ),
{
}

/// In a sticky directory only the owner removes. Where the directory that
/// holds a path has the sticky bit set, a process whose effective user is not
/// the path's owner gets `Ok(false)`, whatever the directory would grant it;
/// the owner gets what a probe of the directory for write and search
/// permission says, `Ok(true)` where that probe succeeds.
pub proof fn sticky_dir_guards_owner(
    world: World,
    path: Seq<u8>,
    holder: Metadata,
    target: Metadata,
    rounds: nat,
)
    requires
        (world.stat)(holder_of(path)) == Ok::<Metadata, OsError>(holder),
        (world.stat)(path) == Ok::<Metadata, OsError>(target),
        contains(holder.mode, STICKY),
        rounds >= 5,
    ensures
        run(world, ResolverView::Locate { path }, rounds) == done(removable(world, path)),
        world.euid != target.owner_uid ==> removable(world, path) == Ok::<bool, OsError>(false),
        world.euid == target.owner_uid ==> removable(world, path) == accessible(
            world,
            holder_of(path),
            WRITE_EXECUTE,
        ),
        world.euid == target.owner_uid && (world.access)(holder_of(path), WRITE_EXECUTE).ret == 0
            ==> removable(world, path) == Ok::<bool, OsError>(true),
{
    removable_run(world, path, rounds);
}

/// Without the sticky bit the owner does not matter. Where the directory
/// that holds a path has no sticky bit, the path is removable exactly where a
/// probe of the directory for write and search permission says so, whoever
/// owns the path and whoever asks: `Ok(true)` where that probe succeeds.
pub proof fn plain_dir_ignores_owner(
    world: World,
    path: Seq<u8>,
    holder: Metadata,
    target: Metadata,
    rounds: nat,
)
    requires
        (world.stat)(path) == Ok::<Metadata, OsError>(target),
        (world.stat)(holder_of(path)) == Ok::<Metadata, OsError>(holder),
        !contains(holder.mode, STICKY),
        rounds >= 5,
    ensures
        run(world, ResolverView::Locate { path }, rounds) == done(removable(world, path)),
        removable(world, path) == accessible(world, holder_of(path), WRITE_EXECUTE),
        (world.access)(holder_of(path), WRITE_EXECUTE).ret == 0 ==> removable(world, path) == Ok::<
            bool,
            OsError,
        >(true),
{
    removable_run(world, path, rounds);
}

/// Metadata that cannot be had is an error, not a refusal: where the path is
/// there and the metadata call fails for the directory that holds it, the
/// answer is that failure, whatever the failure is.
pub proof fn removable_passes_failures_on(
    world: World,
    path: Seq<u8>,
    target: Metadata,
    error: OsError,
)
    requires
        (world.stat)(path) == Ok::<Metadata, OsError>(target),
        (world.stat)(holder_of(path)) == Err::<Metadata, OsError>(error),
    ensures
        removable(world, path) == Err::<bool, OsError>(error),
{
}

} // verus!
