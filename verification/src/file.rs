//! The filesystem primitives: what each of them asks of the operating
//! system, in which order, and what it makes of the replies.

use crate::call::{
    call, check, close_with, fd_call, label_call, result_view, run_call, run_close, run_fd,
    run_label, run_stat, run_text, stat_call, text_call, with_args,
};
use crate::cstr::Utf8CStr;
use crate::path::{path_appended, path_appended_fmt, slash, FsPathBuilder};
use crate::sys::{
    forget, os_error, set_args, then, Next, OsError, Replay, Reply, Run, Stat, Step, Syscall,
    EEXIST, ENOENT, O_CLOEXEC, O_CREAT, O_PATH, S_IFBLK, S_IFCHR, S_IFDIR, S_IFIFO, S_IFLNK, S_IFMT,
    S_IFREG, S_IFSOCK,
};
use crate::text::{
    find_char, index_of, index_past, lemma_find_char_bounds, lemma_skip_run_bounds, skip_run,
};
use vstd::prelude::*;
use vstd::string::*;

verus! {

impl Stat {
    /// Whether the file type in the mode is `kind`.
    pub open spec fn is(self, kind: u32) -> bool {
        self.st_mode & S_IFMT == kind
    }

    /// The permission bits of the mode.
    pub open spec fn perm(self) -> u32 {
        self.st_mode & 0o777
    }
}

/// A snapshot of the attributes of a file: what `stat` reports and the
/// security label, which is empty where the file has none.
#[derive(Debug, Clone, PartialEq, Eq)]
pub struct FileAttr<P> {
    pub st: Stat,
    pub con: P,
}

impl View for FileAttr<Utf8CStr> {
    type V = FileAttr<Seq<char>>;

    open spec fn view(&self) -> FileAttr<Seq<char>> {
        FileAttr { st: self.st, con: self.con@ }
    }
}

impl<P> FileAttr<P> {
    fn is(&self, kind: u32) -> (r: bool)
        ensures
            r == self.st.is(kind),
    {
        self.st.st_mode & S_IFMT == kind
    }

    pub fn is_dir(&self) -> (r: bool)
        ensures
            r == self.st.is(S_IFDIR),
    {
        self.is(S_IFDIR)
    }

    pub fn is_file(&self) -> (r: bool)
        ensures
            r == self.st.is(S_IFREG),
    {
        self.is(S_IFREG)
    }

    pub fn is_symlink(&self) -> (r: bool)
        ensures
            r == self.st.is(S_IFLNK),
    {
        self.is(S_IFLNK)
    }

    pub fn is_block_device(&self) -> (r: bool)
        ensures
            r == self.st.is(S_IFBLK),
    {
        self.is(S_IFBLK)
    }

    pub fn is_char_device(&self) -> (r: bool)
        ensures
            r == self.st.is(S_IFCHR),
    {
        self.is(S_IFCHR)
    }

    pub fn is_fifo(&self) -> (r: bool)
        ensures
            r == self.st.is(S_IFIFO),
    {
        self.is(S_IFIFO)
    }

    pub fn is_socket(&self) -> (r: bool)
        ensures
            r == self.st.is(S_IFSOCK),
    {
        self.is(S_IFSOCK)
    }

    /// A whiteout is a character device with device number 0.
    pub fn is_whiteout(&self) -> (r: bool)
        ensures
            r == (self.st.is(S_IFCHR) && self.st.st_rdev == 0),
    {
        self.is_char_device() && self.st.st_rdev == 0
    }
}

/// A path that follows a final symbolic link where the plain path would
/// look at the link itself.
pub struct FsPathFollow {
    pub path: Utf8CStr,
}

impl View for FsPathFollow {
    type V = Seq<char>;

    open spec fn view(&self) -> Seq<char> {
        self.path@
    }
}

/// The view of a list of paths.
pub open spec fn paths_view(v: Seq<Utf8CStr>) -> Seq<Seq<char>> {
    v.map_values(|p: Utf8CStr| p@)
}

/// What [`open_fd`] does.
pub open spec fn open_fd_run(
    path: Seq<char>,
    flags: i32,
    mode: u32,
    seen: Seq<Reply>,
    at: int,
) -> Run<i32> {
    run_fd(Syscall::Open(path, flags, mode), "open", Some(path), seen, at)
}

/// The path under which the kernel shows where a descriptor points.
pub open spec fn fd_link(fd: i32) -> Seq<char> {
    path_appended_fmt("/proc/self/fd"@, fd as int)
}

/// What [`fd_path`] does. Its error names no path.
pub open spec fn fd_path_run(fd: i32, seen: Seq<Reply>, at: int) -> Run<Seq<char>> {
    run_text(Syscall::Readlink(fd_link(fd)), "readlink", None, seen, at)
}

/// What [`Utf8CStr::path_exists`] and [`FsPathFollow::path_exists`] do.
pub open spec fn exists_run(path: Seq<char>, follow: bool, seen: Seq<Reply>, at: int) -> Run<bool> {
    if at < 0 || at >= seen.len() {
        (
            Step::Call(
                if follow {
                    Syscall::Stat(path)
                } else {
                    Syscall::Lstat(path)
                },
            ),
            at,
        )
    } else {
        (Step::Done(Ok(seen[at].status() is Ok)), at + 1)
    }
}

/// What [`Utf8CStr::get_secontext`] does.
pub open spec fn get_secontext_run(
    path: Seq<char>,
    follow: bool,
    seen: Seq<Reply>,
    at: int,
) -> Run<Seq<char>> {
    if follow {
        run_label(Syscall::GetLabel(path), "getxattr", Some(path), seen, at)
    } else {
        run_label(Syscall::LgetLabel(path), "lgetxattr", Some(path), seen, at)
    }
}

/// What [`Utf8CStr::get_attr`] and [`FsPathFollow::get_attr`] do: the
/// `stat` call, then the label.
pub open spec fn get_attr_run(
    path: Seq<char>,
    follow: bool,
    seen: Seq<Reply>,
    at: int,
) -> Run<FileAttr<Seq<char>>> {
    then(
        if follow {
            run_stat(Syscall::Stat(path), "stat", Some(path), seen, at)
        } else {
            run_stat(Syscall::Lstat(path), "lstat", Some(path), seen, at)
        },
        |st: Stat, at1: int|
            then(
                get_secontext_run(path, follow, seen, at1),
                |con: Seq<char>, at2: int| (Step::Done(Ok(FileAttr { st, con })), at2),
            ),
    )
}

/// What [`Utf8CStr::set_secontext`] does.
pub open spec fn set_secontext_run(
    path: Seq<char>,
    con: Seq<char>,
    seen: Seq<Reply>,
    at: int,
) -> Run<()> {
    forget(
        run_call(
            Syscall::LsetLabel { path, label: con },
            "lsetxattr",
            Some(path),
            Some(con),
            seen,
            at,
        ),
    )
}

/// The second half of [`set_attr_run`]: owner and group, then the label
/// unless it is empty.
pub open spec fn set_owner_run(
    path: Seq<char>,
    attr: FileAttr<Seq<char>>,
    seen: Seq<Reply>,
    at: int,
) -> Run<()> {
    then(
        run_call(
            Syscall::Lchown(path, attr.st.st_uid, attr.st.st_gid),
            "lchown",
            Some(path),
            None,
            seen,
            at,
        ),
        |ret: i64, at1: int|
            if attr.con.len() > 0 {
                set_secontext_run(path, attr.con, seen, at1)
            } else {
                (Step::Done(Ok(())), at1)
            },
    )
}

/// What [`Utf8CStr::set_attr`] does. Unless the snapshot is of a symbolic
/// link, it sets the permission bits first. Where that fails, it looks at
/// the file again: the failure is passed over if the file is a symbolic
/// link now, and is the result otherwise.
pub open spec fn set_attr_run(
    path: Seq<char>,
    attr: FileAttr<Seq<char>>,
    seen: Seq<Reply>,
    at: int,
) -> Run<()> {
    if attr.st.is(S_IFLNK) {
        set_owner_run(path, attr, seen, at)
    } else if at < 0 || at >= seen.len() {
        (Step::Call(Syscall::Chmod(path, attr.st.perm())), at)
    } else {
        match seen[at].status() {
            Ok(_) => set_owner_run(path, attr, seen, at + 1),
            Err(code) => then(
                get_attr_run(path, false, seen, at + 1),
                |now: FileAttr<Seq<char>>, at1: int|
                    if now.st.is(S_IFLNK) {
                        set_owner_run(path, attr, seen, at1)
                    } else {
                        (Step::Done(Err(os_error(code, "chmod", Some(path), None))), at1)
                    },
            ),
        }
    }
}

/// What [`Utf8CStr::read_link`] does.
pub open spec fn read_link_run(path: Seq<char>, seen: Seq<Reply>, at: int) -> Run<Seq<char>> {
    run_text(Syscall::Readlink(path), "readlink", Some(path), seen, at)
}

/// What [`Utf8CStr::mkdir`] does: it makes the directory; where one is there
/// already, it sets the mode of that one.
pub open spec fn mkdir_run(path: Seq<char>, mode: u32, seen: Seq<Reply>, at: int) -> Run<()> {
    if at < 0 || at >= seen.len() {
        (Step::Call(Syscall::Mkdir(path, mode)), at)
    } else {
        match seen[at].status() {
            Ok(_) => (Step::Done(Ok(())), at + 1),
            Err(code) => if code == EEXIST {
                forget(run_call(Syscall::Chmod(path, mode), "chmod", Some(path), None, seen, at + 1))
            } else {
                (Step::Done(Err(os_error(code, "mkdir", Some(path), None))), at + 1)
            },
        }
    }
}

/// One `mkdir` for each of `dirs` from the `k`-th on. A directory that
/// exists already is passed over; any other failure ends the run.
pub open spec fn mkdir_each_run(
    dirs: Seq<Seq<char>>,
    k: int,
    mode: u32,
    seen: Seq<Reply>,
    at: int,
) -> Run<()>
    decreases dirs.len() - k,
{
    if k < 0 || k >= dirs.len() {
        (Step::Done(Ok(())), at)
    } else if at < 0 || at >= seen.len() {
        (Step::Call(Syscall::Mkdir(dirs[k], mode)), at)
    } else {
        match seen[at].status() {
            Err(code) if code != EEXIST => (
                Step::Done(Err(os_error(code, "mkdir", Some(dirs[k]), None))),
                at + 1,
            ),
            _ => mkdir_each_run(dirs, k + 1, mode, seen, at + 1),
        }
    }
}

/// The directories on the way to the rest of `path` from `from` on, when
/// `buf` is the directory reached so far: one for each component, each a
/// component longer than the one before. Empty components count for
/// nothing.
pub open spec fn ancestors_from(path: Seq<char>, from: int, buf: Seq<char>) -> Seq<Seq<char>>
    decreases path.len() - from,
{
    let b = skip_run(path, '/', from);
    let e = find_char(path, '/', b);
    if from < 0 || b < from || b >= path.len() || e <= b || e > path.len() {
        Seq::empty()
    } else {
        let dir = path_appended(buf, path.subrange(b, e));
        seq![dir] + ancestors_from(path, e, dir)
    }
}

/// The directories that [`Utf8CStr::mkdirs`] makes for `path`, outermost
/// first. For `/a/b` they are `/a` and `/a/b`; for `a/b` they are `a` and
/// `a/b`.
pub open spec fn ancestors(path: Seq<char>) -> Seq<Seq<char>> {
    ancestors_from(
        path,
        0,
        if path.len() > 0 && path[0] == '/' {
            seq!['/']
        } else {
            Seq::empty()
        },
    )
}

/// What [`Utf8CStr::mkdirs`] does.
pub open spec fn mkdirs_run(path: Seq<char>, mode: u32, seen: Seq<Reply>, at: int) -> Run<()> {
    mkdir_each_run(ancestors(path), 0, mode, seen, at)
}

/// Whether the file that was opened and the file that its resolved path
/// names are one file: same device, same inode.
pub open spec fn same_file(opened: Stat, resolved: Stat) -> bool {
    opened.st_dev == resolved.st_dev && opened.st_ino == resolved.st_ino
}

/// The result of [`Utf8CStr::realpath`] once both files were looked at.
/// `opened` is an error where the kernel cannot tell of the open file, and
/// then nothing is compared. Where the files differ, the path was changed
/// under the call, and the result is `ENOENT`.
pub open spec fn realpath_verdict(
    path: Seq<char>,
    canon: Seq<char>,
    opened: Result<Stat, i32>,
    resolved: Stat,
) -> Result<Seq<char>, OsError<Seq<char>>> {
    if opened is Ok && !same_file(opened->Ok_0, resolved) {
        Err(os_error(ENOENT, "realpath", Some(path), None))
    } else {
        Ok(canon)
    }
}

/// What [`Utf8CStr::realpath`] does: it opens the path without following a
/// final link, looks at the open file, reads the path of the descriptor,
/// looks at the file under that path, and compares. The descriptor is
/// closed on every way out.
pub open spec fn realpath_run(path: Seq<char>, seen: Seq<Reply>, at: int) -> Run<Seq<char>> {
    then(
        open_fd_run(path, O_PATH | O_CLOEXEC, 0, seen, at),
        |fd: i32, at1: int|
            if at1 < 0 || at1 >= seen.len() {
                (Step::Call(Syscall::Fstat(fd)), at1)
            } else {
                let found = fd_path_run(fd, seen, at1 + 1);
                match found.0 {
                    Step::Call(c) => (Step::Call(c), found.1),
                    Step::Done(Err(e)) => run_close(fd, Err(e), seen, found.1),
                    Step::Done(Ok(canon)) => {
                        let resolved = run_stat(
                            Syscall::Stat(canon),
                            "stat",
                            Some(path),
                            seen,
                            found.1,
                        );
                        match resolved.0 {
                            Step::Call(c) => (Step::Call(c), resolved.1),
                            Step::Done(Err(e)) => run_close(fd, Err(e), seen, resolved.1),
                            Step::Done(Ok(st)) => run_close(
                                fd,
                                realpath_verdict(path, canon, seen[at1].stat(), st),
                                seen,
                                resolved.1,
                            ),
                        }
                    },
                }
            },
    )
}

/// What [`fd_get_secontext`] does.
pub open spec fn fd_get_secontext_run(fd: i32, seen: Seq<Reply>, at: int) -> Run<Seq<char>> {
    run_label(Syscall::FgetLabel(fd), "fgetxattr", None, seen, at)
}

/// What [`fd_set_secontext`] does.
pub open spec fn fd_set_secontext_run(
    fd: i32,
    con: Seq<char>,
    seen: Seq<Reply>,
    at: int,
) -> Run<()> {
    forget(run_call(Syscall::FsetLabel { fd, label: con }, "fsetxattr", Some(con), None, seen, at))
}

/// What [`fd_get_attr`] does.
pub open spec fn fd_get_attr_run(fd: i32, seen: Seq<Reply>, at: int) -> Run<FileAttr<Seq<char>>> {
    then(
        run_stat(Syscall::Fstat(fd), "fstat", None, seen, at),
        |st: Stat, at1: int|
            then(
                fd_get_secontext_run(fd, seen, at1),
                |con: Seq<char>, at2: int| (Step::Done(Ok(FileAttr { st, con })), at2),
            ),
    )
}

/// What [`fd_set_attr`] does: permission bits, owner and group, then the
/// label unless it is empty.
pub open spec fn fd_set_attr_run(
    fd: i32,
    attr: FileAttr<Seq<char>>,
    seen: Seq<Reply>,
    at: int,
) -> Run<()> {
    then(
        run_call(Syscall::Fchmod(fd, attr.st.perm()), "fchmod", None, None, seen, at),
        |ret: i64, at1: int|
            then(
                run_call(
                    Syscall::Fchown(fd, attr.st.st_uid, attr.st.st_gid),
                    "fchown",
                    None,
                    None,
                    seen,
                    at1,
                ),
                |ret: i64, at2: int|
                    if attr.con.len() > 0 {
                        fd_set_secontext_run(fd, attr.con, seen, at2)
                    } else {
                        (Step::Done(Ok(())), at2)
                    },
            ),
    )
}

/// What [`clone_attr`] does. An error names the file that the failing half
/// worked on.
pub open spec fn clone_attr_run(a: Seq<char>, b: Seq<char>, seen: Seq<Reply>, at: int) -> Run<()> {
    then(
        set_args(get_attr_run(a, false, seen, at), Some(a), None),
        |attr: FileAttr<Seq<char>>, at1: int|
            set_args(set_attr_run(b, attr, seen, at1), Some(b), None),
    )
}

/// What [`fclone_attr`] does.
pub open spec fn fclone_attr_run(a: i32, b: i32, seen: Seq<Reply>, at: int) -> Run<()> {
    then(
        fd_get_attr_run(a, seen, at),
        |attr: FileAttr<Seq<char>>, at1: int| set_args(fd_set_attr_run(b, attr, seen, at1), None, None),
    )
}

/// Opens `path` and returns the descriptor.
pub fn open_fd(path: &Utf8CStr, flags: i32, mode: u32, io: &mut Replay) -> (next: Next<i32>)
    ensures
        final(io).served(*old(io), next),
        (next@, final(io).at as int) == open_fd_run(
            path@,
            flags,
            mode,
            old(io).seen@,
            old(io).at as int,
        ),
{
    fd_call(io, Syscall::Open(path.clone(), flags, mode), "open", Some(path))
}

/// Finds the path that the descriptor `fd` is open on.
pub fn fd_path(fd: i32, io: &mut Replay) -> (next: Next<Utf8CStr>)
    ensures
        final(io).served(*old(io), next),
        (next@, final(io).at as int) == fd_path_run(fd, old(io).seen@, old(io).at as int),
{
    proof {
        reveal_strlit("/proc/self/fd");
    }
    let dir = Utf8CStr::from_text("/proc/self/fd");
    let path = Utf8CStr::empty().join_path(&dir).join_path_fmt(fd);
    assert(path@ =~= fd_link(fd));
    text_call(io, Syscall::Readlink(path), "readlink", None)
}

fn get_attr_of(path: &Utf8CStr, follow: bool, io: &mut Replay) -> (next: Next<FileAttr<Utf8CStr>>)
    ensures
        final(io).served(*old(io), next),
        (next@, final(io).at as int) == get_attr_run(
            path@,
            follow,
            old(io).seen@,
            old(io).at as int,
        ),
{
    let first = if follow {
        stat_call(io, Syscall::Stat(path.clone()), "stat", Some(path))
    } else {
        stat_call(io, Syscall::Lstat(path.clone()), "lstat", Some(path))
    };
    let st = match first {
        Step::Done(Ok(st)) => st,
        Step::Done(Err(e)) => return Step::Done(Err(e)),
        Step::Call(c) => return Step::Call(c),
    };
    let second = if follow {
        label_call(io, Syscall::GetLabel(path.clone()), "getxattr", Some(path))
    } else {
        label_call(io, Syscall::LgetLabel(path.clone()), "lgetxattr", Some(path))
    };
    match second {
        Step::Done(Ok(con)) => Step::Done(Ok(FileAttr { st, con })),
        Step::Done(Err(e)) => Step::Done(Err(e)),
        Step::Call(c) => Step::Call(c),
    }
}

fn exists_of(path: &Utf8CStr, follow: bool, io: &mut Replay) -> (next: Next<bool>)
    ensures
        final(io).served(*old(io), next),
        (next@, final(io).at as int) == exists_run(path@, follow, old(io).seen@, old(io).at as int),
{
    match io.next() {
        None => Step::Call(
            if follow {
                Syscall::Stat(path.clone())
            } else {
                Syscall::Lstat(path.clone())
            },
        ),
        Some(reply) => Step::Done(Ok(reply.get_status().is_ok())),
    }
}

impl FsPathFollow {
    /// Whether there is a file where the path leads, links followed.
    pub fn path_exists(&self, io: &mut Replay) -> (next: Next<bool>)
        ensures
            final(io).served(*old(io), next),
            (next@, final(io).at as int) == exists_run(self@, true, old(io).seen@, old(io).at as int),
    {
        exists_of(&self.path, true, io)
    }

    /// The attributes of the file where the path leads, links followed.
    pub fn get_attr(&self, io: &mut Replay) -> (next: Next<FileAttr<Utf8CStr>>)
        ensures
            final(io).served(*old(io), next),
            (next@, final(io).at as int) == get_attr_run(
                self@,
                true,
                old(io).seen@,
                old(io).at as int,
            ),
    {
        get_attr_of(&self.path, true, io)
    }
}

/// Decides what [`Utf8CStr::realpath`] returns once both files were looked
/// at.
pub fn check_realpath(
    path: &Utf8CStr,
    canon: Utf8CStr,
    opened: Result<Stat, i32>,
    resolved: &Stat,
) -> (r: Result<Utf8CStr, OsError<Utf8CStr>>)
    ensures
        result_view(r) == realpath_verdict(path@, canon@, opened, *resolved),
        opened is Ok && !same_file(opened->Ok_0, *resolved) ==> r is Err && r->Err_0.code == ENOENT,
        opened is Err || same_file(opened->Ok_0, *resolved) ==> r is Ok && r->Ok_0@ == canon@,
{
    match opened {
        Ok(st) if st.st_dev != resolved.st_dev || st.st_ino != resolved.st_ino => Err(
            OsError { code: ENOENT, name: "realpath", arg1: Some(path.clone()), arg2: None },
        ),
        _ => Ok(canon),
    }
}

impl Utf8CStr {
    /// The same path, with final symbolic links followed.
    pub fn follow_link(&self) -> (r: FsPathFollow)
        ensures
            r@ == self@,
    {
        FsPathFollow { path: self.clone() }
    }

    /// Opens the file and returns the descriptor.
    pub fn open(&self, flags: i32, io: &mut Replay) -> (next: Next<i32>)
        ensures
            final(io).served(*old(io), next),
            (next@, final(io).at as int) == open_fd_run(
                self@,
                flags,
                0,
                old(io).seen@,
                old(io).at as int,
            ),
    {
        open_fd(self, flags, 0, io)
    }

    /// Opens the file, creating it with `mode` where there is none, and
    /// returns the descriptor.
    pub fn create(&self, flags: i32, mode: u32, io: &mut Replay) -> (next: Next<i32>)
        ensures
            final(io).served(*old(io), next),
            (next@, final(io).at as int) == open_fd_run(
                self@,
                O_CREAT | flags,
                mode,
                old(io).seen@,
                old(io).at as int,
            ),
    {
        open_fd(self, O_CREAT | flags, mode, io)
    }

    /// Whether there is a file under the path, be it a symbolic link.
    pub fn path_exists(&self, io: &mut Replay) -> (next: Next<bool>)
        ensures
            final(io).served(*old(io), next),
            (next@, final(io).at as int) == exists_run(self@, false, old(io).seen@, old(io).at as int),
    {
        exists_of(self, false, io)
    }

    /// Renames the file to `name`.
    pub fn rename_to(&self, name: &Utf8CStr, io: &mut Replay) -> (next: Next<()>)
        ensures
            final(io).served(*old(io), next),
            (next@, final(io).at as int) == forget(
                run_call(
                    Syscall::Rename(self@, name@),
                    "rename",
                    Some(self@),
                    Some(name@),
                    old(io).seen@,
                    old(io).at as int,
                ),
            ),
    {
        check(io, Syscall::Rename(self.clone(), name.clone()), "rename", Some(self), Some(name))
    }

    /// Removes the file, or the empty directory.
    pub fn remove(&self, io: &mut Replay) -> (next: Next<()>)
        ensures
            final(io).served(*old(io), next),
            (next@, final(io).at as int) == forget(
                run_call(
                    Syscall::Remove(self@),
                    "remove",
                    Some(self@),
                    None,
                    old(io).seen@,
                    old(io).at as int,
                ),
            ),
    {
        check(io, Syscall::Remove(self.clone()), "remove", Some(self), None)
    }

    /// Reads where the symbolic link points.
    pub fn read_link(&self, io: &mut Replay) -> (next: Next<Utf8CStr>)
        ensures
            final(io).served(*old(io), next),
            (next@, final(io).at as int) == read_link_run(self@, old(io).seen@, old(io).at as int),
    {
        text_call(io, Syscall::Readlink(self.clone()), "readlink", Some(self))
    }

    /// Creates the directory, or repairs the mode of the one that exists.
    pub fn mkdir(&self, mode: u32, io: &mut Replay) -> (next: Next<()>)
        ensures
            final(io).served(*old(io), next),
            (next@, final(io).at as int) == mkdir_run(self@, mode, old(io).seen@, old(io).at as int),
    {
        let reply = match io.next() {
            Some(reply) => reply,
            None => return Step::Call(Syscall::Mkdir(self.clone(), mode)),
        };
        match reply.get_status() {
            Ok(_) => Step::Done(Ok(())),
            Err(code) => if code == EEXIST {
                check(io, Syscall::Chmod(self.clone(), mode), "chmod", Some(self), None)
            } else {
                Step::Done(Err(OsError { code, name: "mkdir", arg1: Some(self.clone()), arg2: None }))
            },
        }
    }

    /// The directories on the way to the path, outermost first.
    pub fn ancestor_dirs(&self) -> (dirs: Vec<Utf8CStr>)
        ensures
            paths_view(dirs@) == ancestors(self@),
    {
        let chars = self.chars();
        let n = chars.len();
        let mut dirs: Vec<Utf8CStr> = Vec::new();
        let mut buf = Utf8CStr::empty();
        if self.starts_with('/') {
            buf.append_path(&slash());
            assert(buf@ =~= seq!['/']);
        }
        let mut i: usize = 0;
        loop
            invariant_except_break
                ancestors(self@) == paths_view(dirs@) + ancestors_from(self@, i as int, buf@),
            invariant
                chars@ == self@,
                n == chars@.len(),
                i <= n,
            ensures
                paths_view(dirs@) == ancestors(self@),
            decreases n - i,
        {
            let b = index_past(&chars, '/', i);
            if b >= n {
                assert(paths_view(dirs@) + ancestors_from(self@, i as int, buf@) =~= paths_view(
                    dirs@,
                ));
                break;
            }
            let e = index_of(&chars, '/', b);
            proof {
                lemma_find_char_bounds(self@, '/', b as int);
                lemma_skip_run_bounds(self@, '/', i as int);
            }
            buf.append_path(&self.substring(b, e));
            let ghost before = dirs@;
            dirs.push(buf.clone());
            proof {
                assert(paths_view(dirs@) =~= paths_view(before) + seq![buf@]);
            }
            i = e;
        }
        dirs
    }

    /// Creates every directory on the way to the path, and the path.
    pub fn mkdirs(&self, mode: u32, io: &mut Replay) -> (next: Next<()>)
        ensures
            final(io).served(*old(io), next),
            (next@, final(io).at as int) == mkdirs_run(self@, mode, old(io).seen@, old(io).at as int),
    {
        let dirs = self.ancestor_dirs();
        let mut k: usize = 0;
        while k < dirs.len()
            invariant
                k <= dirs@.len(),
                io.follows(*old(io)),
                paths_view(dirs@) == ancestors(self@),
                mkdirs_run(self@, mode, old(io).seen@, old(io).at as int) == mkdir_each_run(
                    ancestors(self@),
                    k as int,
                    mode,
                    io.seen@,
                    io.at as int,
                ),
            decreases dirs@.len() - k,
        {
            let reply = match io.next() {
                Some(reply) => reply,
                None => return Step::Call(Syscall::Mkdir(dirs[k].clone(), mode)),
            };
            match reply.get_status() {
                Err(code) if code != EEXIST => {
                    return Step::Done(
                        Err(
                            OsError {
                                code,
                                name: "mkdir",
                                arg1: Some(dirs[k].clone()),
                                arg2: None,
                            },
                        ),
                    );
                },
                _ => {},
            }
            k = k + 1;
        }
        Step::Done(Ok(()))
    }

    /// Resolves the path to its canonical form, and makes sure that the
    /// canonical path names the file that was opened.
    pub fn realpath(&self, io: &mut Replay) -> (next: Next<Utf8CStr>)
        ensures
            final(io).served(*old(io), next),
            (next@, final(io).at as int) == realpath_run(self@, old(io).seen@, old(io).at as int),
    {
        let fd = match self.open(O_PATH | O_CLOEXEC, io) {
            Step::Done(Ok(fd)) => fd,
            Step::Done(Err(e)) => return Step::Done(Err(e)),
            Step::Call(c) => return Step::Call(c),
        };
        let opened = match io.next() {
            Some(reply) => reply.get_stat(),
            None => return Step::Call(Syscall::Fstat(fd)),
        };
        let canon = match fd_path(fd, io) {
            Step::Done(Ok(canon)) => canon,
            Step::Done(Err(e)) => return close_with(io, fd, Err(e)),
            Step::Call(c) => return Step::Call(c),
        };
        let resolved = match stat_call(io, Syscall::Stat(canon.clone()), "stat", Some(self)) {
            Step::Done(Ok(st)) => st,
            Step::Done(Err(e)) => return close_with(io, fd, Err(e)),
            Step::Call(c) => return Step::Call(c),
        };
        close_with(io, fd, check_realpath(self, canon, opened, &resolved))
    }

    /// Takes a snapshot of the attributes of the file, a symbolic link
    /// included.
    pub fn get_attr(&self, io: &mut Replay) -> (next: Next<FileAttr<Utf8CStr>>)
        ensures
            final(io).served(*old(io), next),
            (next@, final(io).at as int) == get_attr_run(
                self@,
                false,
                old(io).seen@,
                old(io).at as int,
            ),
    {
        get_attr_of(self, false, io)
    }

    fn set_owner(&self, attr: &FileAttr<Utf8CStr>, io: &mut Replay) -> (next: Next<()>)
        ensures
            final(io).served(*old(io), next),
            (next@, final(io).at as int) == set_owner_run(
                self@,
                attr@,
                old(io).seen@,
                old(io).at as int,
            ),
    {
        match call(
            io,
            Syscall::Lchown(self.clone(), attr.st.st_uid, attr.st.st_gid),
            "lchown",
            Some(self),
            None,
        ) {
            Step::Done(Ok(_)) => {},
            Step::Done(Err(e)) => return Step::Done(Err(e)),
            Step::Call(c) => return Step::Call(c),
        }
        if !attr.con.is_empty() {
            self.set_secontext(&attr.con, io)
        } else {
            Step::Done(Ok(()))
        }
    }

    /// Gives the file the attributes of the snapshot.
    pub fn set_attr(&self, attr: &FileAttr<Utf8CStr>, io: &mut Replay) -> (next: Next<()>)
        ensures
            final(io).served(*old(io), next),
            (next@, final(io).at as int) == set_attr_run(
                self@,
                attr@,
                old(io).seen@,
                old(io).at as int,
            ),
    {
        if !attr.is_symlink() {
            let reply = match io.next() {
                Some(reply) => reply,
                None => return Step::Call(Syscall::Chmod(self.clone(), attr.st.st_mode & 0o777)),
            };
            if let Err(code) = reply.get_status() {
                let now = match self.get_attr(io) {
                    Step::Done(Ok(now)) => now,
                    Step::Done(Err(e)) => return Step::Done(Err(e)),
                    Step::Call(c) => return Step::Call(c),
                };
                if !now.is_symlink() {
                    return Step::Done(
                        Err(OsError { code, name: "chmod", arg1: Some(self.clone()), arg2: None }),
                    );
                }
            }
        }
        self.set_owner(attr, io)
    }

    /// Reads the security label of the file; empty where it has none.
    pub fn get_secontext(&self, io: &mut Replay) -> (next: Next<Utf8CStr>)
        ensures
            final(io).served(*old(io), next),
            (next@, final(io).at as int) == get_secontext_run(
                self@,
                false,
                old(io).seen@,
                old(io).at as int,
            ),
    {
        label_call(io, Syscall::LgetLabel(self.clone()), "lgetxattr", Some(self))
    }

    /// Sets the security label of the file.
    pub fn set_secontext(&self, con: &Utf8CStr, io: &mut Replay) -> (next: Next<()>)
        ensures
            final(io).served(*old(io), next),
            (next@, final(io).at as int) == set_secontext_run(
                self@,
                con@,
                old(io).seen@,
                old(io).at as int,
            ),
    {
        check(
            io,
            Syscall::LsetLabel { path: self.clone(), label: con.clone() },
            "lsetxattr",
            Some(self),
            Some(con),
        )
    }

    /// Makes the path a symbolic link to `target`.
    pub fn create_symlink_to(&self, target: &Utf8CStr, io: &mut Replay) -> (next: Next<()>)
        ensures
            final(io).served(*old(io), next),
            (next@, final(io).at as int) == forget(
                run_call(
                    Syscall::Symlink { target: target@, link: self@ },
                    "symlink",
                    Some(target@),
                    Some(self@),
                    old(io).seen@,
                    old(io).at as int,
                ),
            ),
    {
        check(
            io,
            Syscall::Symlink { target: target.clone(), link: self.clone() },
            "symlink",
            Some(target),
            Some(self),
        )
    }

    /// Makes a named pipe.
    pub fn mkfifo(&self, mode: u32, io: &mut Replay) -> (next: Next<()>)
        ensures
            final(io).served(*old(io), next),
            (next@, final(io).at as int) == forget(
                run_call(
                    Syscall::Mkfifo(self@, mode),
                    "mkfifo",
                    Some(self@),
                    None,
                    old(io).seen@,
                    old(io).at as int,
                ),
            ),
    {
        check(io, Syscall::Mkfifo(self.clone(), mode), "mkfifo", Some(self), None)
    }
}

/// Takes a snapshot of the attributes of an open file.
pub fn fd_get_attr(fd: i32, io: &mut Replay) -> (next: Next<FileAttr<Utf8CStr>>)
    ensures
        final(io).served(*old(io), next),
        (next@, final(io).at as int) == fd_get_attr_run(fd, old(io).seen@, old(io).at as int),
{
    let st = match stat_call(io, Syscall::Fstat(fd), "fstat", None) {
        Step::Done(Ok(st)) => st,
        Step::Done(Err(e)) => return Step::Done(Err(e)),
        Step::Call(c) => return Step::Call(c),
    };
    match fd_get_secontext(fd, io) {
        Step::Done(Ok(con)) => Step::Done(Ok(FileAttr { st, con })),
        Step::Done(Err(e)) => Step::Done(Err(e)),
        Step::Call(c) => Step::Call(c),
    }
}

/// Gives an open file the attributes of the snapshot.
pub fn fd_set_attr(fd: i32, attr: &FileAttr<Utf8CStr>, io: &mut Replay) -> (next: Next<()>)
    ensures
        final(io).served(*old(io), next),
        (next@, final(io).at as int) == fd_set_attr_run(fd, attr@, old(io).seen@, old(io).at as int),
{
    match call(io, Syscall::Fchmod(fd, attr.st.st_mode & 0o777), "fchmod", None, None) {
        Step::Done(Ok(_)) => {},
        Step::Done(Err(e)) => return Step::Done(Err(e)),
        Step::Call(c) => return Step::Call(c),
    }
    match call(io, Syscall::Fchown(fd, attr.st.st_uid, attr.st.st_gid), "fchown", None, None) {
        Step::Done(Ok(_)) => {},
        Step::Done(Err(e)) => return Step::Done(Err(e)),
        Step::Call(c) => return Step::Call(c),
    }
    if !attr.con.is_empty() {
        fd_set_secontext(fd, &attr.con, io)
    } else {
        Step::Done(Ok(()))
    }
}

/// Reads the security label of an open file; empty where it has none.
pub fn fd_get_secontext(fd: i32, io: &mut Replay) -> (next: Next<Utf8CStr>)
    ensures
        final(io).served(*old(io), next),
        (next@, final(io).at as int) == fd_get_secontext_run(fd, old(io).seen@, old(io).at as int),
{
    label_call(io, Syscall::FgetLabel(fd), "fgetxattr", None)
}

/// Sets the security label of an open file.
pub fn fd_set_secontext(fd: i32, con: &Utf8CStr, io: &mut Replay) -> (next: Next<()>)
    ensures
        final(io).served(*old(io), next),
        (next@, final(io).at as int) == fd_set_secontext_run(
            fd,
            con@,
            old(io).seen@,
            old(io).at as int,
        ),
{
    check(io, Syscall::FsetLabel { fd, label: con.clone() }, "fsetxattr", Some(con), None)
}

/// Gives the file `b` the attributes of the file `a`.
pub fn clone_attr(a: &Utf8CStr, b: &Utf8CStr, io: &mut Replay) -> (next: Next<()>)
    ensures
        final(io).served(*old(io), next),
        (next@, final(io).at as int) == clone_attr_run(a@, b@, old(io).seen@, old(io).at as int),
{
    let attr = match with_args(a.get_attr(io), Some(a), None) {
        Step::Done(Ok(attr)) => attr,
        Step::Done(Err(e)) => return Step::Done(Err(e)),
        Step::Call(c) => return Step::Call(c),
    };
    with_args(b.set_attr(&attr, io), Some(b), None)
}

/// Gives the open file `b` the attributes of the open file `a`.
pub fn fclone_attr(a: i32, b: i32, io: &mut Replay) -> (next: Next<()>)
    ensures
        final(io).served(*old(io), next),
        (next@, final(io).at as int) == fclone_attr_run(a, b, old(io).seen@, old(io).at as int),
{
    let attr = match fd_get_attr(a, io) {
        Step::Done(Ok(attr)) => attr,
        Step::Done(Err(e)) => return Step::Done(Err(e)),
        Step::Call(c) => return Step::Call(c),
    };
    with_args(fd_set_attr(b, &attr, io), None, None)
}

} // verus!
