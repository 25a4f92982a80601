//! Laws of the filesystem primitives.

use crate::file::{
    ancestors, fd_path_run, mkdir_each_run, mkdir_run, mkdirs_run, realpath_run, same_file,
    set_attr_run, FileAttr,
};
use crate::sys::{os_error, Reply, Stat, Step, Syscall, EEXIST, ENOENT, S_IFLNK};
use vstd::prelude::*;

verus! {

/// What [`Utf8CStr::mkdir`] comes to, by the replies to its calls: a
/// directory that was made, or that exists and took the mode, is a
/// success; every other failure is the result, under the name of the call
/// that failed.
pub proof fn lemma_mkdir_outcome(path: Seq<char>, mode: u32, seen: Seq<Reply>, at: int)
    requires
        0 <= at < seen.len(),
    ensures
        seen[at].status() is Ok ==> mkdir_run(path, mode, seen, at) == (
            Step::<(), Seq<char>>::Done(Ok(())),
            at + 1,
        ),
        seen[at].status() is Err && seen[at].status() != Err::<i64, i32>(EEXIST) ==> mkdir_run(
            path,
            mode,
            seen,
            at,
        ) == (
            Step::<(), Seq<char>>::Done(
                Err(os_error(seen[at].status()->Err_0, "mkdir", Some(path), None)),
            ),
            at + 1,
        ),
        seen[at].status() == Err::<i64, i32>(EEXIST) && at + 1 >= seen.len() ==> mkdir_run(
            path,
            mode,
            seen,
            at,
        ) == (Step::<(), Seq<char>>::Call(Syscall::Chmod(path, mode)), at + 1),
        seen[at].status() == Err::<i64, i32>(EEXIST) && at + 1 < seen.len() && seen[at
            + 1].status() is Ok ==> mkdir_run(path, mode, seen, at) == (
            Step::<(), Seq<char>>::Done(Ok(())),
            at + 2,
        ),
        seen[at].status() == Err::<i64, i32>(EEXIST) && at + 1 < seen.len() && seen[at
            + 1].status() is Err ==> mkdir_run(path, mode, seen, at) == (
            Step::<(), Seq<char>>::Done(
                Err(os_error(seen[at + 1].status()->Err_0, "chmod", Some(path), None)),
            ),
            at + 2,
        ),
{
}

/// Whether a reply lets [`mkdir_each_run`] go on: the directory was made,
/// or it exists.
pub open spec fn made_or_exists(reply: Reply) -> bool {
    reply.status() is Ok || reply.status() == Err::<i64, i32>(EEXIST)
}

/// Making directories is idempotent: as long as every reply says that the
/// directory was made or exists already, the next call makes the next
/// directory, with the same mode; and when every directory is answered so,
/// the whole has succeeded. A second run over the same directories meets
/// only such replies.
pub proof fn lemma_mkdir_each_tolerates_existing(
    dirs: Seq<Seq<char>>,
    k: int,
    mode: u32,
    seen: Seq<Reply>,
    at: int,
)
    requires
        0 <= at,
        0 <= k <= dirs.len(),
        forall|i: int| at <= i < seen.len() && i < at + dirs.len() - k ==> made_or_exists(#[trigger] seen[i]),
    ensures
        seen.len() >= at + dirs.len() - k ==> mkdir_each_run(dirs, k, mode, seen, at) == (
            Step::<(), Seq<char>>::Done(Ok(())),
            at + dirs.len() - k,
        ),
        at <= seen.len() < at + dirs.len() - k ==> mkdir_each_run(dirs, k, mode, seen, at) == (
            Step::<(), Seq<char>>::Call(Syscall::Mkdir(dirs[k + seen.len() - at], mode)),
            seen.len() as int,
        ),
    decreases dirs.len() - k,
{
    if k < dirs.len() && at < seen.len() {
        assert(made_or_exists(seen[at]));
        lemma_mkdir_each_tolerates_existing(dirs, k + 1, mode, seen, at + 1);
    }
}

/// The first failure other than that the directory exists ends
/// [`mkdir_each_run`], and is its result.
pub proof fn lemma_mkdir_each_stops_at_failure(
    dirs: Seq<Seq<char>>,
    k: int,
    mode: u32,
    seen: Seq<Reply>,
    at: int,
    j: int,
)
    requires
        0 <= at,
        0 <= k,
        0 <= j,
        k + j < dirs.len(),
        at + j < seen.len(),
        forall|i: int| at <= i < at + j ==> made_or_exists(#[trigger] seen[i]),
        !made_or_exists(seen[at + j]),
    ensures
        mkdir_each_run(dirs, k, mode, seen, at) == (
            Step::<(), Seq<char>>::Done(
                Err(os_error(seen[at + j].status()->Err_0, "mkdir", Some(dirs[k + j]), None)),
            ),
            at + j + 1,
        ),
    decreases j,
{
    if j > 0 {
        assert(made_or_exists(seen[at]));
        lemma_mkdir_each_stops_at_failure(dirs, k + 1, mode, seen, at + 1, j - 1);
    }
}

/// The directories that exist, each with its mode: as much of a filesystem
/// as decides how `mkdir` is answered where nothing but existence stands in
/// its way.
pub type Dirs = Map<Seq<char>, u32>;

/// The directories after `mkdir` of `path` with `mode`: a directory that
/// exists is left as it is.
pub open spec fn dirs_after_mkdir(dirs: Dirs, path: Seq<char>, mode: u32) -> Dirs {
    if dirs.contains_key(path) {
        dirs
    } else {
        dirs.insert(path, mode)
    }
}

/// Whether `reply` is what `mkdir` of `path` is answered with among `dirs`:
/// `EEXIST` where the directory exists, success where it does not.
pub open spec fn answers_mkdir(dirs: Dirs, path: Seq<char>, reply: Reply) -> bool {
    if dirs.contains_key(path) {
        reply.status() == Err::<i64, i32>(EEXIST)
    } else {
        reply.status() is Ok
    }
}

/// The directories after `mkdir` with `mode` of each of `targets` from the
/// `k`-th on.
pub open spec fn dirs_after_each(dirs: Dirs, targets: Seq<Seq<char>>, k: int, mode: u32) -> Dirs
    decreases targets.len() - k,
{
    if k < 0 || k >= targets.len() {
        dirs
    } else {
        dirs_after_each(dirs_after_mkdir(dirs, targets[k], mode), targets, k + 1, mode)
    }
}

/// Whether the replies from `at` on are those that the calls of
/// [`mkdir_each_run`] get, one after the other, when `dirs` are the
/// directories at its start.
pub open spec fn answered_among(
    dirs: Dirs,
    targets: Seq<Seq<char>>,
    k: int,
    mode: u32,
    seen: Seq<Reply>,
    at: int,
) -> bool
    decreases targets.len() - k,
{
    if k < 0 || k >= targets.len() {
        true
    } else {
        &&& 0 <= at < seen.len()
        &&& answers_mkdir(dirs, targets[k], seen[at])
        &&& answered_among(dirs_after_mkdir(dirs, targets[k], mode), targets, k + 1, mode, seen, at + 1)
    }
}

/// Among directories that answer as above, [`mkdir_each_run`] succeeds.
/// After it every target exists; one that was made has the mode asked for,
/// and one that was there before has kept its own.
pub proof fn lemma_mkdir_each_among(
    dirs: Dirs,
    targets: Seq<Seq<char>>,
    k: int,
    mode: u32,
    seen: Seq<Reply>,
    at: int,
)
    requires
        0 <= k <= targets.len(),
        answered_among(dirs, targets, k, mode, seen, at),
    ensures
        mkdir_each_run(targets, k, mode, seen, at) == (
            Step::<(), Seq<char>>::Done(Ok(())),
            at + targets.len() - k,
        ),
        forall|p: Seq<char>| #[trigger]
            dirs.contains_key(p) ==> dirs_after_each(dirs, targets, k, mode).contains_key(p)
                && dirs_after_each(dirs, targets, k, mode)[p] == dirs[p],
        forall|i: int|
            k <= i < targets.len() ==> dirs_after_each(dirs, targets, k, mode).contains_key(
                #[trigger] targets[i],
            ),
        forall|i: int|
            k <= i < targets.len() && !dirs.contains_key(#[trigger] targets[i])
                ==> dirs_after_each(dirs, targets, k, mode)[targets[i]] == mode,
    decreases targets.len() - k,
{
    if k < targets.len() {
        let next = dirs_after_mkdir(dirs, targets[k], mode);
        let last = dirs_after_each(dirs, targets, k, mode);
        lemma_mkdir_each_among(next, targets, k + 1, mode, seen, at + 1);
        assert(last == dirs_after_each(next, targets, k + 1, mode));
        assert(next.contains_key(targets[k]));
        assert forall|p: Seq<char>| #[trigger] dirs.contains_key(p) implies last.contains_key(p)
            && last[p] == dirs[p] by {
            assert(next.contains_key(p) && next[p] == dirs[p]);
        }
        assert forall|i: int| k <= i < targets.len() implies last.contains_key(
            #[trigger] targets[i],
        ) by {
            if i == k {
                assert(next.contains_key(targets[k]));
            }
        }
        assert forall|i: int|
            k <= i < targets.len() && !dirs.contains_key(#[trigger] targets[i]) implies dirs_after_each(
            dirs,
            targets,
            k,
            mode,
        )[targets[i]] == mode by {
            if targets[i] == targets[k] {
                assert(next.contains_key(targets[k]));
                assert(next[targets[k]] == mode);
            } else {
                assert(!next.contains_key(targets[i]));
            }
        }
    }
}

/// Where every target exists, [`mkdir_each_run`] changes nothing.
pub proof fn lemma_mkdir_each_changes_nothing(
    dirs: Dirs,
    targets: Seq<Seq<char>>,
    k: int,
    mode: u32,
)
    requires
        0 <= k <= targets.len(),
        forall|i: int| k <= i < targets.len() ==> dirs.contains_key(#[trigger] targets[i]),
    ensures
        dirs_after_each(dirs, targets, k, mode) == dirs,
    decreases targets.len() - k,
{
    if k < targets.len() {
        assert(dirs.contains_key(targets[k]));
        lemma_mkdir_each_changes_nothing(dirs, targets, k + 1, mode);
    }
}

/// Making a path twice is idempotent. Let `first` be answered among
/// `dirs`, and `second` among what the first run leaves. Then both runs
/// succeed, the second changes nothing, and every directory that the first
/// run had to make has the mode asked for. A directory that was there
/// before keeps the mode it had, whatever mode is asked for.
pub proof fn lemma_mkdirs_twice(
    dirs: Dirs,
    path: Seq<char>,
    mode: u32,
    first: Seq<Reply>,
    second: Seq<Reply>,
)
    requires
        answered_among(dirs, ancestors(path), 0, mode, first, 0),
        answered_among(
            dirs_after_each(dirs, ancestors(path), 0, mode),
            ancestors(path),
            0,
            mode,
            second,
            0,
        ),
    ensures
        mkdirs_run(path, mode, first, 0).0 == Step::<(), Seq<char>>::Done(Ok(())),
        mkdirs_run(path, mode, second, 0).0 == Step::<(), Seq<char>>::Done(Ok(())),
        dirs_after_each(dirs_after_each(dirs, ancestors(path), 0, mode), ancestors(path), 0, mode)
            == dirs_after_each(dirs, ancestors(path), 0, mode),
        forall|i: int|
            0 <= i < ancestors(path).len() && !dirs.contains_key(#[trigger] ancestors(path)[i])
                ==> dirs_after_each(dirs, ancestors(path), 0, mode)[ancestors(path)[i]] == mode,
{
    let made = dirs_after_each(dirs, ancestors(path), 0, mode);
    lemma_mkdir_each_among(dirs, ancestors(path), 0, mode, first, 0);
    lemma_mkdir_each_among(made, ancestors(path), 0, mode, second, 0);
    lemma_mkdir_each_changes_nothing(made, ancestors(path), 0, mode);
}

/// A symbolic link never receives a change of its permission bits, and an
/// empty label is never written: no call of [`set_attr_run`] for the
/// snapshot of a symbolic link is a `chmod`, and none for a snapshot with
/// an empty label sets a label.
pub proof fn lemma_set_attr_spares(
    path: Seq<char>,
    attr: FileAttr<Seq<char>>,
    seen: Seq<Reply>,
    at: int,
)
    ensures
        attr.st.is(S_IFLNK) ==> !(set_attr_run(path, attr, seen, at).0 matches Step::Call(
            Syscall::Chmod(_, _),
        )),
        attr.con.len() == 0 ==> !(set_attr_run(path, attr, seen, at).0 matches Step::Call(
            Syscall::LsetLabel { .. },
        )),
{
}

/// A path that was changed under [`realpath_run`] is not returned: where
/// the file that was opened and the file under the resolved path differ,
/// the result is the error `ENOENT`, and the descriptor is closed before.
pub proof fn lemma_realpath_detects_race(
    path: Seq<char>,
    seen: Seq<Reply>,
    at: int,
    fd: i32,
    opened: Stat,
    resolved: Stat,
)
    requires
        0 <= at,
        at + 4 <= seen.len(),
        seen[at].fd() == Ok::<i32, i32>(fd),
        seen[at + 1].stat() == Ok::<Stat, i32>(opened),
        seen[at + 2].text() is Ok,
        seen[at + 3].stat() == Ok::<Stat, i32>(resolved),
        !same_file(opened, resolved),
    ensures
        seen.len() == at + 4 ==> realpath_run(path, seen, at) == (
            Step::<Seq<char>, Seq<char>>::Call(Syscall::Close(fd)),
            at + 4,
        ),
        seen.len() > at + 4 ==> realpath_run(path, seen, at) == (
            Step::<Seq<char>, Seq<char>>::Done(Err(os_error(ENOENT, "realpath", Some(path), None))),
            at + 5,
        ),
{
}

/// The descriptor that [`realpath_run`] opens is closed on every way out:
/// where the path could be opened, the run is done only after one more
/// reply, and the call that this reply answers is the `close` of the
/// descriptor.
pub proof fn lemma_realpath_closes(path: Seq<char>, seen: Seq<Reply>, at: int, fd: i32)
    requires
        0 <= at < seen.len(),
        seen[at].fd() == Ok::<i32, i32>(fd),
        realpath_run(path, seen, at).0 is Done,
    ensures
        at + 2 < realpath_run(path, seen, at).1 <= seen.len(),
        realpath_run(path, seen.take(realpath_run(path, seen, at).1 - 1), at) == (
            Step::<Seq<char>, Seq<char>>::Call(Syscall::Close(fd)),
            realpath_run(path, seen, at).1 - 1,
        ),
{
    let end = realpath_run(path, seen, at).1;
    let before = seen.take(end - 1);
    assert(forall|i: int| 0 <= i < end - 1 ==> before[i] == seen[i]);
    let found = fd_path_run(fd, seen, at + 2);
    let found_before = fd_path_run(fd, before, at + 2);
    assert(found.0 is Done);
    if let Step::Done(Ok(canon)) = found.0 {
        assert(found_before == found);
    }
}

} // verus!
