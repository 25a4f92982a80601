//! Operations on whole trees: copy, move, hard-link and removal, each entry
//! with its own attributes.

use crate::call::{check, close_with, run_call, run_close};
use crate::cstr::Utf8CStr;
use crate::file::{
    exists_run, get_attr_run, mkdir_run, open_fd_run, read_link_run, set_attr_run, FileAttr,
};
use crate::sys::{
    forget, halt, os_error, then, Next, OsError, Replay, Reply, Run, Step, Syscall, O_CLOEXEC,
    O_CREAT, O_RDONLY, O_TRUNC, O_WRONLY, S_IFDIR, S_IFLNK, S_IFREG,
};
use crate::text::text_is;
use vstd::prelude::*;
use vstd::string::*;

verus! {

/// Whether `name` is one of the two entries that every directory has for
/// itself and for its parent.
pub open spec fn is_dot(name: Seq<char>) -> bool {
    name == "."@ || name == ".."@
}

/// The path of the entry `name` of the directory `dir`.
pub open spec fn child_path(dir: Seq<char>, name: Seq<char>) -> Seq<char> {
    if dir.len() > 0 && dir.last() != '/' {
        dir + seq!['/'] + name
    } else {
        dir + name
    }
}

/// An operation of one call that is answered with the names in a
/// directory.
pub open spec fn read_dir_run(path: Seq<char>, seen: Seq<Reply>, at: int) -> Run<Seq<Utf8CStr>> {
    if at < 0 || at >= seen.len() {
        (Step::Call(Syscall::ReadDir(path)), at)
    } else {
        match seen[at].names() {
            Ok(names) => (Step::Done(Ok(names)), at + 1),
            Err(code) => (Step::Done(Err(os_error(code, "opendir", Some(path), None))), at + 1),
        }
    }
}

/// The open flags with which a copy writes its destination.
pub open spec fn copy_flags() -> i32 {
    O_CREAT | (O_WRONLY | O_CREAT | O_TRUNC | O_CLOEXEC)
}

/// Copies the bytes of the regular file `src` to `dst`: opens both, copies,
/// and closes both on every way out.
pub open spec fn copy_data_run(
    src: Seq<char>,
    dst: Seq<char>,
    seen: Seq<Reply>,
    at: int,
) -> Run<()> {
    then(
        open_fd_run(src, O_RDONLY | O_CLOEXEC, 0, seen, at),
        |from: i32, at1: int|
            {
                let opened = open_fd_run(dst, copy_flags(), 0o777, seen, at1);
                match opened.0 {
                    Step::Call(c) => (Step::Call(c), opened.1),
                    Step::Done(Err(e)) => run_close(from, Err(e), seen, opened.1),
                    Step::Done(Ok(to)) => {
                        let copied = forget(
                            run_call(
                                Syscall::CopyData(from, to),
                                "copy",
                                Some(src),
                                Some(dst),
                                seen,
                                opened.1,
                            ),
                        );
                        match copied.0 {
                            Step::Call(c) => (Step::Call(c), copied.1),
                            Step::Done(r) => then(
                                run_close(to, Ok(()), seen, copied.1),
                                |u: (), at2: int| run_close(from, r, seen, at2),
                            ),
                        }
                    },
                }
            },
    )
}

/// Places at `dst` what a file that is no directory holds: the bytes of a
/// regular file, the target of a symbolic link, nothing of any other. What
/// was at `dst` is removed first; that this may fail is accepted.
pub open spec fn copy_entry_run(
    src: Seq<char>,
    dst: Seq<char>,
    attr: FileAttr<Seq<char>>,
    seen: Seq<Reply>,
    at: int,
) -> Run<()> {
    let removed = run_call(Syscall::Remove(dst), "remove", Some(dst), None, seen, at);
    match removed.0 {
        Step::Call(c) => (Step::Call(c), removed.1),
        Step::Done(_) => if attr.st.is(S_IFREG) {
            copy_data_run(src, dst, seen, removed.1)
        } else if attr.st.is(S_IFLNK) {
            then(
                read_link_run(src, seen, removed.1),
                |target: Seq<char>, at1: int|
                    forget(
                        run_call(
                            Syscall::Symlink { target, link: dst },
                            "symlink",
                            Some(target),
                            Some(dst),
                            seen,
                            at1,
                        ),
                    ),
            )
        } else {
            (Step::Done(Ok(())), removed.1)
        },
    }
}

/// What [`Utf8CStr::copy_to`] does. The snapshot of the source is taken
/// first and given to the destination last, after the content is in place.
///
/// Here and in the operations below, the test on the number of replies read
/// before an operation goes into a directory always holds: every operation
/// reads on. It is written out to show that the recursion ends.
pub open spec fn copy_to_run(src: Seq<char>, dst: Seq<char>, seen: Seq<Reply>, at: int) -> Run<()>
    decreases seen.len() - at, 0int, 0int,
{
    let got = get_attr_run(src, false, seen, at);
    if let Step::Done(Ok(attr)) = got.0 {
        let placed: Run<()> = if attr.st.is(S_IFDIR) {
            let made = mkdir_run(dst, 0o777, seen, got.1);
            if let Step::Done(Ok(_)) = made.0 {
                let listed = read_dir_run(src, seen, made.1);
                if let Step::Done(Ok(names)) = listed.0 {
                    if at < listed.1 <= seen.len() {
                        copy_into_run(src, dst, names, 0, seen, listed.1)
                    } else {
                        (Step::Done(Ok(())), listed.1)
                    }
                } else {
                    halt(listed)
                }
            } else {
                halt(made)
            }
        } else {
            copy_entry_run(src, dst, attr, seen, got.1)
        };
        then(placed, |u: (), at1: int| set_attr_run(dst, attr, seen, at1))
    } else {
        halt(got)
    }
}

/// What [`Directory::copy_into`] does from the `k`-th name on: one
/// [`copy_to_run`] for each entry but `.` and `..`, until one fails.
pub open spec fn copy_into_run(
    src: Seq<char>,
    dst: Seq<char>,
    names: Seq<Utf8CStr>,
    k: int,
    seen: Seq<Reply>,
    at: int,
) -> Run<()>
    decreases seen.len() - at, 1int, names.len() - k,
{
    if k < 0 || k >= names.len() {
        (Step::Done(Ok(())), at)
    } else if is_dot(names[k]@) {
        copy_into_run(src, dst, names, k + 1, seen, at)
    } else {
        let one = copy_to_run(child_path(src, names[k]@), child_path(dst, names[k]@), seen, at);
        if let Step::Done(Ok(_)) = one.0 {
            if at <= one.1 <= seen.len() {
                copy_into_run(src, dst, names, k + 1, seen, one.1)
            } else {
                one
            }
        } else {
            one
        }
    }
}

/// What [`Utf8CStr::move_to`] does. Into a directory that exists the
/// entries are moved one by one; anything else that exists is removed, and
/// the source renamed.
pub open spec fn move_to_run(src: Seq<char>, dst: Seq<char>, seen: Seq<Reply>, at: int) -> Run<()>
    decreases seen.len() - at, 0int, 0int,
{
    let probed = exists_run(dst, false, seen, at);
    let rename = |at1: int|
        forget(run_call(Syscall::Rename(src, dst), "rename", Some(src), Some(dst), seen, at1));
    if let Step::Done(Ok(there)) = probed.0 {
        if there {
            let got = get_attr_run(dst, false, seen, probed.1);
            if let Step::Done(Ok(attr)) = got.0 {
                if attr.st.is(S_IFDIR) {
                    let listed = read_dir_run(src, seen, got.1);
                    if let Step::Done(Ok(names)) = listed.0 {
                        if at < listed.1 <= seen.len() {
                            move_into_run(src, dst, names, 0, seen, listed.1)
                        } else {
                            (Step::Done(Ok(())), listed.1)
                        }
                    } else {
                        halt(listed)
                    }
                } else {
                    then(
                        run_call(Syscall::Remove(dst), "remove", Some(dst), None, seen, got.1),
                        |ret: i64, at1: int| rename(at1),
                    )
                }
            } else {
                halt(got)
            }
        } else {
            rename(probed.1)
        }
    } else {
        halt(probed)
    }
}

/// What [`Directory::move_into`] does from the `k`-th name on: one
/// [`move_to_run`] for each entry but `.` and `..`, until one fails.
pub open spec fn move_into_run(
    src: Seq<char>,
    dst: Seq<char>,
    names: Seq<Utf8CStr>,
    k: int,
    seen: Seq<Reply>,
    at: int,
) -> Run<()>
    decreases seen.len() - at, 1int, names.len() - k,
{
    if k < 0 || k >= names.len() {
        (Step::Done(Ok(())), at)
    } else if is_dot(names[k]@) {
        move_into_run(src, dst, names, k + 1, seen, at)
    } else {
        let one = move_to_run(child_path(src, names[k]@), child_path(dst, names[k]@), seen, at);
        if let Step::Done(Ok(_)) = one.0 {
            if at <= one.1 <= seen.len() {
                move_into_run(src, dst, names, k + 1, seen, one.1)
            } else {
                one
            }
        } else {
            one
        }
    }
}

/// What [`Utf8CStr::link_to`] does. A directory is made anew and given the
/// attributes of the source, and its entries are linked one by one; any
/// other file gets a hard link.
pub open spec fn link_to_run(src: Seq<char>, dst: Seq<char>, seen: Seq<Reply>, at: int) -> Run<()>
    decreases seen.len() - at, 0int, 0int,
{
    let got = get_attr_run(src, false, seen, at);
    if let Step::Done(Ok(attr)) = got.0 {
        if attr.st.is(S_IFDIR) {
            let made = then(
                mkdir_run(dst, 0o777, seen, got.1),
                |u: (), at1: int| set_attr_run(dst, attr, seen, at1),
            );
            if let Step::Done(Ok(_)) = made.0 {
                let listed = read_dir_run(src, seen, made.1);
                if let Step::Done(Ok(names)) = listed.0 {
                    if at < listed.1 <= seen.len() {
                        link_into_run(src, dst, names, 0, seen, listed.1)
                    } else {
                        (Step::Done(Ok(())), listed.1)
                    }
                } else {
                    halt(listed)
                }
            } else {
                halt(made)
            }
        } else {
            forget(run_call(Syscall::Link(src, dst), "link", Some(src), Some(dst), seen, got.1))
        }
    } else {
        halt(got)
    }
}

/// What [`Directory::link_into`] does from the `k`-th name on: one
/// [`link_to_run`] for each entry but `.` and `..`, until one fails.
pub open spec fn link_into_run(
    src: Seq<char>,
    dst: Seq<char>,
    names: Seq<Utf8CStr>,
    k: int,
    seen: Seq<Reply>,
    at: int,
) -> Run<()>
    decreases seen.len() - at, 1int, names.len() - k,
{
    if k < 0 || k >= names.len() {
        (Step::Done(Ok(())), at)
    } else if is_dot(names[k]@) {
        link_into_run(src, dst, names, k + 1, seen, at)
    } else {
        let one = link_to_run(child_path(src, names[k]@), child_path(dst, names[k]@), seen, at);
        if let Step::Done(Ok(_)) = one.0 {
            if at <= one.1 <= seen.len() {
                link_into_run(src, dst, names, k + 1, seen, one.1)
            } else {
                one
            }
        } else {
            one
        }
    }
}

/// What [`Utf8CStr::remove_all`] does: the entries of a directory go first,
/// each with all below it, then the file or the emptied directory itself.
pub open spec fn remove_all_run(path: Seq<char>, seen: Seq<Reply>, at: int) -> Run<()>
    decreases seen.len() - at, 0int, 0int,
{
    let got = get_attr_run(path, false, seen, at);
    let remove = |at1: int|
        forget(run_call(Syscall::Remove(path), "remove", Some(path), None, seen, at1));
    if let Step::Done(Ok(attr)) = got.0 {
        if attr.st.is(S_IFDIR) {
            let listed = read_dir_run(path, seen, got.1);
            if let Step::Done(Ok(names)) = listed.0 {
                let emptied = if at < listed.1 <= seen.len() {
                    remove_each_run(path, names, 0, seen, listed.1)
                } else {
                    (Step::Done(Ok(())), listed.1)
                };
                then(emptied, |u: (), at1: int| remove(at1))
            } else {
                halt(listed)
            }
        } else {
            remove(got.1)
        }
    } else {
        halt(got)
    }
}

/// What [`Directory::remove_all`] does from the `k`-th name on: one
/// [`remove_all_run`] for each entry but `.` and `..`, until one fails.
pub open spec fn remove_each_run(
    dir: Seq<char>,
    names: Seq<Utf8CStr>,
    k: int,
    seen: Seq<Reply>,
    at: int,
) -> Run<()>
    decreases seen.len() - at, 1int, names.len() - k,
{
    if k < 0 || k >= names.len() {
        (Step::Done(Ok(())), at)
    } else if is_dot(names[k]@) {
        remove_each_run(dir, names, k + 1, seen, at)
    } else {
        let one = remove_all_run(child_path(dir, names[k]@), seen, at);
        if let Step::Done(Ok(_)) = one.0 {
            if at <= one.1 <= seen.len() {
                remove_each_run(dir, names, k + 1, seen, one.1)
            } else {
                one
            }
        } else {
            one
        }
    }
}

/// A directory that was read: its path and the names it holds.
pub struct Directory<'a> {
    pub path: Utf8CStr,
    pub names: &'a Vec<Utf8CStr>,
}

/// Tells `.` and `..` from the other names.
pub fn is_dot_name(name: &Utf8CStr) -> (r: bool)
    ensures
        r == is_dot(name@),
{
    text_is(name.as_str(), ".") || text_is(name.as_str(), "..")
}

/// The path of the entry `name` of the directory `dir`.
pub fn child(dir: &Utf8CStr, name: &Utf8CStr) -> (r: Utf8CStr)
    ensures
        r@ == child_path(dir@, name@),
{
    let mut r = dir.clone();
    if !r.is_empty() && !r.ends_with('/') {
        r.push_str(&crate::path::slash());
    }
    r.push_str(name);
    r
}

fn copy_data(src: &Utf8CStr, dst: &Utf8CStr, io: &mut Replay) -> (next: Next<()>)
    ensures
        final(io).served(*old(io), next),
        (next@, final(io).at as int) == copy_data_run(src@, dst@, old(io).seen@, old(io).at as int),
{
    let from = match src.open(O_RDONLY | O_CLOEXEC, io) {
        Step::Done(Ok(fd)) => fd,
        Step::Done(Err(e)) => return Step::Done(Err(e)),
        Step::Call(c) => return Step::Call(c),
    };
    let to = match dst.create(O_WRONLY | O_CREAT | O_TRUNC | O_CLOEXEC, 0o777, io) {
        Step::Done(Ok(fd)) => fd,
        Step::Done(Err(e)) => return close_with(io, from, Err(e)),
        Step::Call(c) => return Step::Call(c),
    };
    let copied = match check(io, Syscall::CopyData(from, to), "copy", Some(src), Some(dst)) {
        Step::Done(r) => r,
        Step::Call(c) => return Step::Call(c),
    };
    match close_with(io, to, Ok(())) {
        Step::Done(_) => {},
        Step::Call(c) => return Step::Call(c),
    }
    close_with(io, from, copied)
}

fn copy_entry(
    src: &Utf8CStr,
    dst: &Utf8CStr,
    attr: &FileAttr<Utf8CStr>,
    io: &mut Replay,
) -> (next: Next<()>)
    ensures
        final(io).served(*old(io), next),
        (next@, final(io).at as int) == copy_entry_run(
            src@,
            dst@,
            attr@,
            old(io).seen@,
            old(io).at as int,
        ),
{
    match dst.remove(io) {
        Step::Done(_) => {},
        Step::Call(c) => return Step::Call(c),
    }
    if attr.is_file() {
        copy_data(src, dst, io)
    } else if attr.is_symlink() {
        let target = match src.read_link(io) {
            Step::Done(Ok(target)) => target,
            Step::Done(Err(e)) => return Step::Done(Err(e)),
            Step::Call(c) => return Step::Call(c),
        };
        dst.create_symlink_to(&target, io)
    } else {
        Step::Done(Ok(()))
    }
}

impl<'a> View for Directory<'a> {
    type V = (Seq<char>, Seq<Utf8CStr>);

    open spec fn view(&self) -> (Seq<char>, Seq<Utf8CStr>) {
        (self.path@, self.names@)
    }
}

impl<'a> Directory<'a> {
    /// Reads the names in the directory at `path`.
    pub fn open(path: &Utf8CStr, io: &mut Replay<'a>) -> (next: Next<Directory<'a>>)
        ensures
            final(io).served(*old(io), next),
            (next@, final(io).at as int) == then(
                read_dir_run(path@, old(io).seen@, old(io).at as int),
                |names: Seq<Utf8CStr>, at: int| (Step::Done(Ok((path@, names))), at),
            ),
    {
        match io.next() {
            None => Step::Call(Syscall::ReadDir(path.clone())),
            Some(reply) => match reply.get_names() {
                Ok(names) => Step::Done(Ok(Directory { path: path.clone(), names })),
                Err(code) => Step::Done(
                    Err(OsError { code, name: "opendir", arg1: Some(path.clone()), arg2: None }),
                ),
            },
        }
    }

    /// Copies every entry into the directory `dest`.
    pub fn copy_into(&self, dest: &Utf8CStr, io: &mut Replay) -> (next: Next<()>)
        ensures
            final(io).served(*old(io), next),
            (next@, final(io).at as int) == copy_into_run(
                self.path@,
                dest@,
                self.names@,
                0,
                old(io).seen@,
                old(io).at as int,
            ),
        decreases old(io).seen@.len() - old(io).at, 1int,
    {
        let mut k: usize = 0;
        while k < self.names.len()
            invariant
                k <= self.names@.len(),
                io.follows(*old(io)),
                copy_into_run(
                    self.path@,
                    dest@,
                    self.names@,
                    0,
                    old(io).seen@,
                    old(io).at as int,
                ) == copy_into_run(self.path@, dest@, self.names@, k as int, io.seen@, io.at as int),
            decreases self.names@.len() - k,
        {
            if !is_dot_name(&self.names[k]) {
                let src = child(&self.path, &self.names[k]);
                let dst = child(dest, &self.names[k]);
                match src.copy_to(&dst, io) {
                    Step::Done(Ok(_)) => {},
                    other => return other,
                }
            }
            k = k + 1;
        }
        Step::Done(Ok(()))
    }

    /// Moves every entry into the directory `dest`.
    pub fn move_into(&self, dest: &Utf8CStr, io: &mut Replay) -> (next: Next<()>)
        ensures
            final(io).served(*old(io), next),
            (next@, final(io).at as int) == move_into_run(
                self.path@,
                dest@,
                self.names@,
                0,
                old(io).seen@,
                old(io).at as int,
            ),
        decreases old(io).seen@.len() - old(io).at, 1int,
    {
        let mut k: usize = 0;
        while k < self.names.len()
            invariant
                k <= self.names@.len(),
                io.follows(*old(io)),
                move_into_run(
                    self.path@,
                    dest@,
                    self.names@,
                    0,
                    old(io).seen@,
                    old(io).at as int,
                ) == move_into_run(self.path@, dest@, self.names@, k as int, io.seen@, io.at as int),
            decreases self.names@.len() - k,
        {
            if !is_dot_name(&self.names[k]) {
                let src = child(&self.path, &self.names[k]);
                let dst = child(dest, &self.names[k]);
                match src.move_to(&dst, io) {
                    Step::Done(Ok(_)) => {},
                    other => return other,
                }
            }
            k = k + 1;
        }
        Step::Done(Ok(()))
    }

    /// Links every entry into the directory `dest`.
    pub fn link_into(&self, dest: &Utf8CStr, io: &mut Replay) -> (next: Next<()>)
        ensures
            final(io).served(*old(io), next),
            (next@, final(io).at as int) == link_into_run(
                self.path@,
                dest@,
                self.names@,
                0,
                old(io).seen@,
                old(io).at as int,
            ),
        decreases old(io).seen@.len() - old(io).at, 1int,
    {
        let mut k: usize = 0;
        while k < self.names.len()
            invariant
                k <= self.names@.len(),
                io.follows(*old(io)),
                link_into_run(
                    self.path@,
                    dest@,
                    self.names@,
                    0,
                    old(io).seen@,
                    old(io).at as int,
                ) == link_into_run(self.path@, dest@, self.names@, k as int, io.seen@, io.at as int),
            decreases self.names@.len() - k,
        {
            if !is_dot_name(&self.names[k]) {
                let src = child(&self.path, &self.names[k]);
                let dst = child(dest, &self.names[k]);
                match src.link_to(&dst, io) {
                    Step::Done(Ok(_)) => {},
                    other => return other,
                }
            }
            k = k + 1;
        }
        Step::Done(Ok(()))
    }

    /// Removes every entry, with all that is below it.
    pub fn remove_all(&self, io: &mut Replay) -> (next: Next<()>)
        ensures
            final(io).served(*old(io), next),
            (next@, final(io).at as int) == remove_each_run(
                self.path@,
                self.names@,
                0,
                old(io).seen@,
                old(io).at as int,
            ),
        decreases old(io).seen@.len() - old(io).at, 1int,
    {
        let mut k: usize = 0;
        while k < self.names.len()
            invariant
                k <= self.names@.len(),
                io.follows(*old(io)),
                remove_each_run(self.path@, self.names@, 0, old(io).seen@, old(io).at as int)
                    == remove_each_run(self.path@, self.names@, k as int, io.seen@, io.at as int),
            decreases self.names@.len() - k,
        {
            if !is_dot_name(&self.names[k]) {
                let path = child(&self.path, &self.names[k]);
                match path.remove_all(io) {
                    Step::Done(Ok(_)) => {},
                    other => return other,
                }
            }
            k = k + 1;
        }
        Step::Done(Ok(()))
    }
}

impl Utf8CStr {
    /// Copies the file, the symbolic link or the whole directory to `path`,
    /// with its attributes.
    pub fn copy_to(&self, path: &Utf8CStr, io: &mut Replay) -> (next: Next<()>)
        ensures
            final(io).served(*old(io), next),
            (next@, final(io).at as int) == copy_to_run(
                self@,
                path@,
                old(io).seen@,
                old(io).at as int,
            ),
        decreases old(io).seen@.len() - old(io).at, 0int,
    {
        let attr = match self.get_attr(io) {
            Step::Done(Ok(attr)) => attr,
            Step::Done(Err(e)) => return Step::Done(Err(e)),
            Step::Call(c) => return Step::Call(c),
        };
        let placed = if attr.is_dir() {
            match path.mkdir(0o777, io) {
                Step::Done(Ok(_)) => {},
                other => return other,
            }
            let src = match Directory::open(self, io) {
                Step::Done(Ok(dir)) => dir,
                Step::Done(Err(e)) => return Step::Done(Err(e)),
                Step::Call(c) => return Step::Call(c),
            };
            src.copy_into(path, io)
        } else {
            copy_entry(self, path, &attr, io)
        };
        match placed {
            Step::Done(Ok(_)) => path.set_attr(&attr, io),
            other => other,
        }
    }

    /// Moves the file to `path`; into `path`, where that is a directory.
    pub fn move_to(&self, path: &Utf8CStr, io: &mut Replay) -> (next: Next<()>)
        ensures
            final(io).served(*old(io), next),
            (next@, final(io).at as int) == move_to_run(
                self@,
                path@,
                old(io).seen@,
                old(io).at as int,
            ),
        decreases old(io).seen@.len() - old(io).at, 0int,
    {
        let there = match path.path_exists(io) {
            Step::Done(Ok(there)) => there,
            Step::Done(Err(e)) => return Step::Done(Err(e)),
            Step::Call(c) => return Step::Call(c),
        };
        if there {
            let attr = match path.get_attr(io) {
                Step::Done(Ok(attr)) => attr,
                Step::Done(Err(e)) => return Step::Done(Err(e)),
                Step::Call(c) => return Step::Call(c),
            };
            if attr.is_dir() {
                let src = match Directory::open(self, io) {
                    Step::Done(Ok(dir)) => dir,
                    Step::Done(Err(e)) => return Step::Done(Err(e)),
                    Step::Call(c) => return Step::Call(c),
                };
                return src.move_into(path, io);
            } else {
                match path.remove(io) {
                    Step::Done(Ok(_)) => {},
                    other => return other,
                }
            }
        }
        self.rename_to(path, io)
    }

    /// Makes `path` a hard link to the file; for a directory, a directory
    /// of hard links.
    pub fn link_to(&self, path: &Utf8CStr, io: &mut Replay) -> (next: Next<()>)
        ensures
            final(io).served(*old(io), next),
            (next@, final(io).at as int) == link_to_run(
                self@,
                path@,
                old(io).seen@,
                old(io).at as int,
            ),
        decreases old(io).seen@.len() - old(io).at, 0int,
    {
        let attr = match self.get_attr(io) {
            Step::Done(Ok(attr)) => attr,
            Step::Done(Err(e)) => return Step::Done(Err(e)),
            Step::Call(c) => return Step::Call(c),
        };
        if attr.is_dir() {
            match path.mkdir(0o777, io) {
                Step::Done(Ok(_)) => {},
                other => return other,
            }
            match path.set_attr(&attr, io) {
                Step::Done(Ok(_)) => {},
                other => return other,
            }
            let src = match Directory::open(self, io) {
                Step::Done(Ok(dir)) => dir,
                Step::Done(Err(e)) => return Step::Done(Err(e)),
                Step::Call(c) => return Step::Call(c),
            };
            src.link_into(path, io)
        } else {
            check(io, Syscall::Link(self.clone(), path.clone()), "link", Some(self), Some(path))
        }
    }

    /// Removes the file, or the directory with all that is below it.
    pub fn remove_all(&self, io: &mut Replay) -> (next: Next<()>)
        ensures
            final(io).served(*old(io), next),
            (next@, final(io).at as int) == remove_all_run(self@, old(io).seen@, old(io).at as int),
        decreases old(io).seen@.len() - old(io).at, 0int,
    {
        let attr = match self.get_attr(io) {
            Step::Done(Ok(attr)) => attr,
            Step::Done(Err(e)) => return Step::Done(Err(e)),
            Step::Call(c) => return Step::Call(c),
        };
        if attr.is_dir() {
            let dir = match Directory::open(self, io) {
                Step::Done(Ok(dir)) => dir,
                Step::Done(Err(e)) => return Step::Done(Err(e)),
                Step::Call(c) => return Step::Call(c),
            };
            match dir.remove_all(io) {
                Step::Done(Ok(_)) => {},
                other => return other,
            }
        }
        self.remove(io)
    }
}

} // verus!
