//! Paths as the operating system sees them: plain bytes, with `/` between
//! components. Nothing here looks at the filesystem.
use vstd::prelude::*;

verus! {

/// The byte that parts components.
pub const SEPARATOR: u8 = 47;

/// The byte of a full stop.
pub const DOT: u8 = 46;

/// A path with the zero byte behind it that the operating system asks for.
pub open spec fn terminated(path: Seq<u8>) -> Seq<u8> {
    path.push(0u8)
}

/// The directory that stands in where a path names no parent: the current one.
pub open spec fn current_dir() -> Seq<u8> {
    seq![DOT, SEPARATOR]
}

/// Does the path start at the root?
pub open spec fn is_rooted(path: Seq<u8>) -> bool {
    path.len() > 0 && path[0] == SEPARATOR
}

/// Does the path start with a `.` that is a component of its own?
pub open spec fn starts_at_current(path: Seq<u8>) -> bool {
    path.len() > 0 && path[0] == DOT && (path.len() == 1 || path[1] == SEPARATOR)
}

/// The length of what stands before the components proper: a root or a
/// leading `.`, one byte either way, or nothing.
pub open spec fn head_len(path: Seq<u8>) -> nat {
    if is_rooted(path) || starts_at_current(path) {
        1
    } else {
        0
    }
}

/// Where `path[..end]` ends once the separators and the `.` components at
/// its end are dropped. The head is never dropped.
pub open spec fn trimmed(path: Seq<u8>, end: nat) -> nat
    decreases end,
{
    let head = head_len(path);
    if end <= head || end > path.len() {
        end
    } else if path[end - 1] == SEPARATOR {
        trimmed(path, (end - 1) as nat)
    } else if path[end - 1] == DOT && end - 1 == head {
        head
    } else if path[end - 1] == DOT && end - 2 >= head && path[end - 2] == SEPARATOR {
        trimmed(path, (end - 2) as nat)
    } else {
        end
    }
}

/// Where the last component of `path[..end]` starts: right behind the last
/// separator before `end`, or at the end of the head.
pub open spec fn last_start(path: Seq<u8>, end: nat) -> nat
    decreases end,
{
    if end <= head_len(path) || end > path.len() {
        end
    } else if path[end - 1] == SEPARATOR {
        end
    } else {
        last_start(path, (end - 1) as nat)
    }
}

/// The length of the parent, where the path has one. Separators and `.`
/// components at the end are passed over, the last component that remains is
/// taken off with the separator before it, and what then stands at the end is
/// passed over again. There is no parent where no component remains (the path
/// is empty, a root, or a lone `.`) or where nothing is left before the
/// component (a bare relative name).
pub open spec fn parent_len(path: Seq<u8>) -> Option<nat> {
    let head = head_len(path);
    let end = trimmed(path, path.len());
    if end <= head {
        None
    } else {
        let start = last_start(path, end);
        let cut = if start > head {
            (start - 1) as nat
        } else {
            start
        };
        let len = trimmed(path, cut);
        if len == 0 {
            None
        } else {
            Some(len)
        }
    }
}

/// The parent of a path: the prefix of length `parent_len`.
pub open spec fn parent_of(path: Seq<u8>) -> Option<Seq<u8>> {
    match parent_len(path) {
        Some(len) => Some(path.take(len as int)),
        None => None,
    }
}

/// The directory that holds a path's last component: its parent, or the
/// current directory where it has none.
pub open spec fn holder_of(path: Seq<u8>) -> Seq<u8> {
    match parent_of(path) {
        Some(dir) => dir,
        None => current_dir(),
    }
}

/// Trimming never moves forward, never crosses the head, and leaves nothing
/// more to trim.
pub proof fn trimmed_bounds(path: Seq<u8>, end: nat)
    requires
        end <= path.len(),
    ensures
        trimmed(path, end) <= end,
        end >= head_len(path) ==> trimmed(path, end) >= head_len(path),
        trimmed(path, trimmed(path, end)) == trimmed(path, end),
    decreases end,
{
    let head = head_len(path);
    if end <= head {
    } else if path[end - 1] == SEPARATOR {
        trimmed_bounds(path, (end - 1) as nat);
    } else if path[end - 1] == DOT && end - 1 == head {
    } else if path[end - 1] == DOT && end - 2 >= head && path[end - 2] == SEPARATOR {
        trimmed_bounds(path, (end - 2) as nat);
    } else {
    }
}

/// The last component starts between the head and `end`, and is not empty
/// where `path[..end]` ends in a byte that is no separator.
pub proof fn last_start_bounds(path: Seq<u8>, end: nat)
    requires
        end <= path.len(),
    ensures
        last_start(path, end) <= end,
        end >= head_len(path) ==> last_start(path, end) >= head_len(path),
        end > head_len(path) && path[end - 1] != SEPARATOR ==> last_start(path, end) < end,
        last_start(path, end) > head_len(path) ==> path[last_start(path, end) - 1] == SEPARATOR,
        forall|i: int| last_start(path, end) <= i < end ==> path[i] != SEPARATOR,
    decreases end,
{
    if end <= head_len(path) {
    } else if path[end - 1] == SEPARATOR {
    } else {
        last_start_bounds(path, (end - 1) as nat);
    }
}

/// A parent is a proper prefix of its path and is never empty: each step up
/// makes the path shorter, so a walk from ancestor to ancestor ends.
pub proof fn parent_is_shorter(path: Seq<u8>)
    ensures
        match parent_len(path) {
            Some(len) => 0 < len < path.len() && parent_of(path) == Some(path.take(len as int)),
            None => parent_of(path) is None,
        },
        parent_of(path) matches Some(dir) ==> 0 < dir.len() < path.len() && dir.is_prefix_of(path),
{
    let head = head_len(path);
    trimmed_bounds(path, path.len());
    let end = trimmed(path, path.len());
    if end > head {
        last_start_bounds(path, end);
        let start = last_start(path, end);
        // What trimming left ends in a byte of a component.
        assert(path[end - 1] != SEPARATOR) by {
            trimmed_ends_in_component(path, path.len());
        }
        let cut = if start > head {
            (start - 1) as nat
        } else {
            start
        };
        trimmed_bounds(path, cut);
    }
}

/// Where trimming stops above the head, the byte before the stop is no separator.
pub proof fn trimmed_ends_in_component(path: Seq<u8>, end: nat)
    requires
        end <= path.len(),
    ensures
        trimmed(path, end) > head_len(path) ==> path[trimmed(path, end) - 1] != SEPARATOR,
    decreases end,
{
    let head = head_len(path);
    if end <= head {
    } else if path[end - 1] == SEPARATOR {
        trimmed_ends_in_component(path, (end - 1) as nat);
    } else if path[end - 1] == DOT && end - 1 == head {
    } else if path[end - 1] == DOT && end - 2 >= head && path[end - 2] == SEPARATOR {
        trimmed_ends_in_component(path, (end - 2) as nat);
    } else {
    }
}

/// A parent carries nothing at its end that could be dropped: it ends in a
/// component, or it is the head alone.
pub proof fn parent_is_trimmed(path: Seq<u8>)
    ensures
        parent_len(path) matches Some(len) ==> trimmed(path, len) == len && (len == head_len(path)
            || path[len - 1] != SEPARATOR),
{
    let head = head_len(path);
    trimmed_bounds(path, path.len());
    let end = trimmed(path, path.len());
    if end > head {
        last_start_bounds(path, end);
        let start = last_start(path, end);
        let cut = if start > head {
            (start - 1) as nat
        } else {
            start
        };
        trimmed_bounds(path, cut);
        trimmed_ends_in_component(path, cut);
    }
}

/// Copies a path and sets the terminating zero byte behind it.
pub fn terminate(path: &[u8]) -> (buffer: Vec<u8>)
    ensures
        buffer@ == terminated(path@),
{
    let mut buffer: Vec<u8> = Vec::new();
    let mut i: usize = 0;
    while i < path.len()
        invariant
            i <= path.len(),
            buffer@ == path@.take(i as int),
        decreases path.len() - i,
    {
        buffer.push(path[i]);
        assert(buffer@ =~= path@.take(i + 1));
        i += 1;
    }
    assert(path@.take(i as int) =~= path@);
    buffer.push(0u8);
    buffer
}

/// Copies the first `len` bytes of a path.
fn prefix(path: &[u8], len: usize) -> (copy: Vec<u8>)
    requires
        len <= path.len(),
    ensures
        copy@ == path@.take(len as int),
{
    let mut copy: Vec<u8> = Vec::new();
    let mut i: usize = 0;
    while i < len
        invariant
            i <= len <= path.len(),
            copy@ == path@.take(i as int),
        decreases len - i,
    {
        copy.push(path[i]);
        assert(copy@ =~= path@.take(i + 1));
        i += 1;
    }
    copy
}

/// The length of the head of a path.
fn head(path: &[u8]) -> (len: usize)
    ensures
        len == head_len(path@),
        len <= path.len(),
{
    if path.len() == 0 {
        0
    } else if path[0] == SEPARATOR {
        1
    } else if path[0] == DOT && (path.len() == 1 || path[1] == SEPARATOR) {
        1
    } else {
        0
    }
}

/// Drops the separators and `.` components at the end of `path[..end]`.
fn trim(path: &[u8], end: usize) -> (stop: usize)
    requires
        end <= path.len(),
    ensures
        stop == trimmed(path@, end as nat),
        stop <= end,
{
    let head: usize = head(path);
    let mut stop: usize = end;
    while stop > head
        invariant
            stop <= end <= path.len(),
            head == head_len(path@),
            trimmed(path@, stop as nat) == trimmed(path@, end as nat),
        decreases stop,
    {
        if path[stop - 1] == SEPARATOR {
            stop -= 1;
        } else if path[stop - 1] == DOT && stop - 1 == head {
            proof {
                // Nothing but the head is left, and the head trims to itself.
                assert(trimmed(path@, stop as nat) == head);
                assert(trimmed(path@, head as nat) == head);
            }
            stop = head;
        } else if path[stop - 1] == DOT && stop - 2 >= head && path[stop - 2] == SEPARATOR {
            stop -= 2;
        } else {
            return stop;
        }
    }
    stop
}

/// Finds where the last component of `path[..end]` starts.
fn component_start(path: &[u8], end: usize) -> (start: usize)
    requires
        end <= path.len(),
    ensures
        start == last_start(path@, end as nat),
        start <= end,
{
    let head: usize = head(path);
    let mut start: usize = end;
    while start > head
        invariant
            start <= end <= path.len(),
            head == head_len(path@),
            last_start(path@, start as nat) == last_start(path@, end as nat),
        decreases start,
    {
        if path[start - 1] == SEPARATOR {
            return start;
        }
        start -= 1;
    }
    start
}

/// The parent of a path, read off its bytes alone. `/a/b` gives `/a`, `a/b/`
/// gives `a`, `/a` gives `/`, `./a` gives `.`; repeated separators and `.`
/// components between the two are passed over. A path with nothing before its
/// last component has no parent: a bare name such as `a`, a root, a lone `.`,
/// the empty path.
pub fn parent(path: &[u8]) -> (dir: Option<Vec<u8>>)
    ensures
        match dir {
            Some(d) => parent_of(path@) == Some(d@),
            None => parent_of(path@) is None,
        },
{
    let head: usize = head(path);
    let end: usize = trim(path, path.len());
    if end <= head {
        return None;
    }
    let start: usize = component_start(path, end);
    proof {
        last_start_bounds(path@, end as nat);
    }
    let cut: usize = if start > head {
        start - 1
    } else {
        start
    };
    let len: usize = trim(path, cut);
    if len == 0 {
        None
    } else {
        Some(prefix(path, len))
    }
}

/// The current directory as a path: `./`.
pub fn current() -> (dir: Vec<u8>)
    ensures
        dir@ == current_dir(),
{
    let mut dir: Vec<u8> = Vec::new();
    dir.push(DOT);
    dir.push(SEPARATOR);
    assert(dir@ =~= current_dir());
    dir
}

/// The directory that holds a path's last component: its parent, or `./`
/// where it has none.
pub fn holder(path: &[u8]) -> (dir: Vec<u8>)
    ensures
        dir@ == holder_of(path@),
{
    match parent(path) {
        Some(dir) => dir,
        None => current(),
    }
}

} // verus!
