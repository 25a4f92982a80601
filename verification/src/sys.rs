//! The vocabulary between this library and the operating system. The
//! library performs no system call. An operation is a function of the
//! replies that its earlier calls have received: it either names the next
//! call to make, or is done. Whoever drives it makes the call, appends the
//! reply to the record, and asks again.

use crate::cstr::Utf8CStr;
use vstd::prelude::*;

verus! {

/// `errno`: there is no such file or directory.
pub const ENOENT: i32 = 2;

/// `errno`: the file exists.
pub const EEXIST: i32 = 17;

/// `errno`: there is no such attribute.
pub const ENODATA: i32 = 61;

/// `errno`: the reply does not answer the call.
pub const EPROTO: i32 = 71;

/// Open for reading.
pub const O_RDONLY: i32 = 0;

/// Open for writing.
pub const O_WRONLY: i32 = 0o1;

/// Open for reading and writing.
pub const O_RDWR: i32 = 0o2;

/// Create the file where there is none.
pub const O_CREAT: i32 = 0o100;

/// Empty the file.
pub const O_TRUNC: i32 = 0o1000;

/// Write at the end.
pub const O_APPEND: i32 = 0o2000;

/// Close the descriptor when a program is executed.
pub const O_CLOEXEC: i32 = 0o2000000;

/// Open the path only, not the file.
pub const O_PATH: i32 = 0o10000000;

/// In place of a directory descriptor: the working directory.
pub const AT_FDCWD: i32 = -100;

/// Mount what is mounted elsewhere.
pub const MS_BIND: u64 = 4096;

/// Mount with all that is mounted below.
pub const MS_REC: u64 = 16384;

/// Detach now, unmount when no longer busy.
pub const MNT_DETACH: i32 = 2;

/// The mapping can be read.
pub const PROT_READ: i32 = 1;

/// The mapping can be written.
pub const PROT_WRITE: i32 = 2;

/// Writes to the mapping reach the file.
pub const MAP_SHARED: i32 = 1;

/// Writes to the mapping stay with the process.
pub const MAP_PRIVATE: i32 = 2;

/// What `mmap` returns in place of an address when it fails.
pub const MAP_FAILED: i64 = -1;

/// The bits of a mode that hold the file type.
pub const S_IFMT: u32 = 0o170000;

/// File type: socket.
pub const S_IFSOCK: u32 = 0o140000;

/// File type: symbolic link.
pub const S_IFLNK: u32 = 0o120000;

/// File type: regular file.
pub const S_IFREG: u32 = 0o100000;

/// File type: block device.
pub const S_IFBLK: u32 = 0o060000;

/// File type: directory.
pub const S_IFDIR: u32 = 0o040000;

/// File type: character device.
pub const S_IFCHR: u32 = 0o020000;

/// File type: named pipe.
pub const S_IFIFO: u32 = 0o010000;

/// The descriptor of the standard input.
pub const STDIN_FILENO: i32 = 0;

/// The descriptor of the standard output.
pub const STDOUT_FILENO: i32 = 1;

/// The descriptor of the standard error.
pub const STDERR_FILENO: i32 = 2;

/// What `stat` reports of a file, as far as this library reads it.
#[derive(Debug, Clone, Copy, PartialEq, Eq, Structural)]
pub struct Stat {
    pub st_mode: u32,
    pub st_uid: u32,
    pub st_gid: u32,
    pub st_rdev: u64,
    pub st_dev: u64,
    pub st_ino: u64,
    pub st_size: i64,
}

impl View for Stat {
    type V = Stat;

    open spec fn view(&self) -> Stat {
        *self
    }
}

/// A call for the operating system. `P` is the type of a path: the handle
/// in executable code, its text in specifications. A security label is the
/// value of the extended attribute `security.selinux`.
#[derive(Debug, Clone, PartialEq, Eq)]
pub enum Syscall<P> {
    /// `lstat`; answered by [`Reply::Stat`].
    Lstat(P),
    /// `stat`; answered by [`Reply::Stat`].
    Stat(P),
    /// `fstat`; answered by [`Reply::Stat`].
    Fstat(i32),
    /// `open` with flags and mode; returns the descriptor.
    Open(P, i32, u32),
    /// `openat` below a directory descriptor, with flags; returns the
    /// descriptor.
    Openat(i32, P, i32),
    /// `close`.
    Close(i32),
    /// `mkdir` with a mode.
    Mkdir(P, u32),
    /// `chmod` with a mode.
    Chmod(P, u32),
    /// `fchmod` with a mode.
    Fchmod(i32, u32),
    /// `lchown` with owner and group.
    Lchown(P, u32, u32),
    /// `fchown` with owner and group.
    Fchown(i32, u32, u32),
    /// `remove`: `unlink`, or `rmdir` for a directory.
    Remove(P),
    /// `rename` from the first to the second.
    Rename(P, P),
    /// `symlink`: makes `link` point to `target`.
    Symlink { target: P, link: P },
    /// `link`: makes the second a hard link to the first.
    Link(P, P),
    /// `mkfifo` with a mode.
    Mkfifo(P, u32),
    /// `mknod` of a character device with permission bits, major and minor.
    Mknod { path: P, perm: u32, major: u32, minor: u32 },
    /// `readlink`; answered by [`Reply::Text`].
    Readlink(P),
    /// The names in a directory; answered by [`Reply::Names`].
    ReadDir(P),
    /// The whole text of a file; answered by [`Reply::Content`].
    ReadFile(P),
    /// `getxattr` of the security label; answered by [`Reply::Text`].
    GetLabel(P),
    /// `lgetxattr` of the security label; answered by [`Reply::Text`].
    LgetLabel(P),
    /// `fgetxattr` of the security label; answered by [`Reply::Text`].
    FgetLabel(i32),
    /// `lsetxattr` of the security label to `label`.
    LsetLabel { path: P, label: P },
    /// `fsetxattr` of the security label to `label`.
    FsetLabel { fd: i32, label: P },
    /// Copies all that can be read from the first descriptor to the second.
    CopyData(i32, i32),
    /// `mount`.
    Mount { source: P, target: P, fstype: Option<P>, flags: u64, data: Option<P> },
    /// `umount2` with flags.
    Umount2(P, i32),
    /// `dup3` of the first descriptor onto the second, with flags.
    Dup3(i32, i32, i32),
    /// Writes the text to a descriptor.
    WriteText(i32, P),
    /// The size of a block device in bytes; answered by [`Reply::Size`].
    BlockSize(i32),
    /// `mmap` of `len` bytes of a descriptor from offset 0; returns the
    /// address.
    Mmap { fd: i32, len: usize, prot: i32, flags: i32 },
    /// `munmap`.
    Munmap { addr: usize, len: usize },
    /// Replaces each occurrence of `from` in a mapping by `to`; returns how
    /// many were replaced.
    PatchMapped { addr: usize, len: usize, from: P, to: P },
    /// Writes all bytes of a mapping to a descriptor.
    WriteMapped { fd: i32, addr: usize, len: usize },
    /// Makes the text the first argument of this process.
    SetArgv0(P),
    /// `execve` of the path with the arguments and the environment of this
    /// process.
    Execve(P),
}

/// The view of an optional path.
pub open spec fn opt_view(p: Option<Utf8CStr>) -> Option<Seq<char>> {
    match p {
        Some(p) => Some(p@),
        None => None,
    }
}

impl View for Syscall<Utf8CStr> {
    type V = Syscall<Seq<char>>;

    open spec fn view(&self) -> Syscall<Seq<char>> {
        match *self {
            Syscall::Lstat(p) => Syscall::Lstat(p@),
            Syscall::Stat(p) => Syscall::Stat(p@),
            Syscall::Fstat(fd) => Syscall::Fstat(fd),
            Syscall::Open(p, flags, mode) => Syscall::Open(p@, flags, mode),
            Syscall::Openat(dir, p, flags) => Syscall::Openat(dir, p@, flags),
            Syscall::Close(fd) => Syscall::Close(fd),
            Syscall::Mkdir(p, mode) => Syscall::Mkdir(p@, mode),
            Syscall::Chmod(p, mode) => Syscall::Chmod(p@, mode),
            Syscall::Fchmod(fd, mode) => Syscall::Fchmod(fd, mode),
            Syscall::Lchown(p, uid, gid) => Syscall::Lchown(p@, uid, gid),
            Syscall::Fchown(fd, uid, gid) => Syscall::Fchown(fd, uid, gid),
            Syscall::Remove(p) => Syscall::Remove(p@),
            Syscall::Rename(a, b) => Syscall::Rename(a@, b@),
            Syscall::Symlink { target, link } => Syscall::Symlink { target: target@, link: link@ },
            Syscall::Link(a, b) => Syscall::Link(a@, b@),
            Syscall::Mkfifo(p, mode) => Syscall::Mkfifo(p@, mode),
            Syscall::Mknod { path, perm, major, minor } => Syscall::Mknod {
                path: path@,
                perm,
                major,
                minor,
            },
            Syscall::Readlink(p) => Syscall::Readlink(p@),
            Syscall::ReadDir(p) => Syscall::ReadDir(p@),
            Syscall::ReadFile(p) => Syscall::ReadFile(p@),
            Syscall::GetLabel(p) => Syscall::GetLabel(p@),
            Syscall::LgetLabel(p) => Syscall::LgetLabel(p@),
            Syscall::FgetLabel(fd) => Syscall::FgetLabel(fd),
            Syscall::LsetLabel { path, label } => Syscall::LsetLabel { path: path@, label: label@ },
            Syscall::FsetLabel { fd, label } => Syscall::FsetLabel { fd, label: label@ },
            Syscall::CopyData(a, b) => Syscall::CopyData(a, b),
            Syscall::Mount { source, target, fstype, flags, data } => Syscall::Mount {
                source: source@,
                target: target@,
                fstype: opt_view(fstype),
                flags,
                data: opt_view(data),
            },
            Syscall::Umount2(p, flags) => Syscall::Umount2(p@, flags),
            Syscall::Dup3(a, b, flags) => Syscall::Dup3(a, b, flags),
            Syscall::WriteText(fd, text) => Syscall::WriteText(fd, text@),
            Syscall::BlockSize(fd) => Syscall::BlockSize(fd),
            Syscall::Mmap { fd, len, prot, flags } => Syscall::Mmap { fd, len, prot, flags },
            Syscall::Munmap { addr, len } => Syscall::Munmap { addr, len },
            Syscall::PatchMapped { addr, len, from, to } => Syscall::PatchMapped {
                addr,
                len,
                from: from@,
                to: to@,
            },
            Syscall::WriteMapped { fd, addr, len } => Syscall::WriteMapped { fd, addr, len },
            Syscall::SetArgv0(p) => Syscall::SetArgv0(p@),
            Syscall::Execve(p) => Syscall::Execve(p@),
        }
    }
}

/// What the operating system answered to a call.
#[derive(Debug, Clone, PartialEq, Eq)]
pub enum Reply {
    /// The value that the call returned, and `errno` after it. A negative
    /// value reports a failure.
    Ret { ret: i64, errno: i32 },
    /// The attributes that a successful `stat` call wrote.
    Stat(Stat),
    /// The text that a successful call wrote, up to its terminating NUL.
    Text(Utf8CStr),
    /// The names that a directory holds.
    Names(Vec<Utf8CStr>),
    /// The text of a file.
    Content(String),
    /// A size in bytes.
    Size(u64),
}

impl Reply {
    /// The value a call returned, or the `errno` of its failure. A reply
    /// that carries data reports success.
    pub open spec fn status(self) -> Result<i64, i32> {
        match self {
            Reply::Ret { ret, errno } => if ret < 0 {
                Err(errno)
            } else {
                Ok(ret)
            },
            _ => Ok(0),
        }
    }

    /// The `errno` with which a reply fails a call that asked for data of
    /// another kind: its own if it reports a failure, else `EPROTO`.
    pub open spec fn refusal(self) -> i32 {
        match self.status() {
            Err(errno) => errno,
            Ok(_) => EPROTO,
        }
    }

    /// The attributes in the reply, or the `errno` of the failure.
    pub open spec fn stat(self) -> Result<Stat, i32> {
        match self {
            Reply::Stat(st) => Ok(st),
            _ => Err(self.refusal()),
        }
    }

    /// The text in the reply, or the `errno` of the failure.
    pub open spec fn text(self) -> Result<Seq<char>, i32> {
        match self {
            Reply::Text(t) => Ok(t@),
            _ => Err(self.refusal()),
        }
    }

    /// The names in the reply, or the `errno` of the failure.
    pub open spec fn names(self) -> Result<Seq<Utf8CStr>, i32> {
        match self {
            Reply::Names(v) => Ok(v@),
            _ => Err(self.refusal()),
        }
    }

    /// The file content in the reply, or the `errno` of the failure.
    pub open spec fn content(self) -> Result<Seq<char>, i32> {
        match self {
            Reply::Content(t) => Ok(t@),
            _ => Err(self.refusal()),
        }
    }

    /// The size in the reply, or the `errno` of the failure.
    pub open spec fn size(self) -> Result<u64, i32> {
        match self {
            Reply::Size(n) => Ok(n),
            _ => Err(self.refusal()),
        }
    }

    /// The file descriptor that the call returned, or the `errno` of the
    /// failure. A value that is no descriptor fails with `EPROTO`.
    pub open spec fn fd(self) -> Result<i32, i32> {
        match self.status() {
            Ok(ret) => if ret <= i32::MAX {
                Ok(ret as i32)
            } else {
                Err(EPROTO)
            },
            Err(code) => Err(code),
        }
    }

    /// The address that the call returned, or the `errno` of the failure.
    /// A value that is no address fails with `EPROTO`.
    pub open spec fn addr(self) -> Result<usize, i32> {
        match self.status() {
            Ok(ret) => if ret <= usize::MAX {
                Ok(ret as usize)
            } else {
                Err(EPROTO)
            },
            Err(code) => Err(code),
        }
    }

    /// The security label in the reply to a call that reads one. A call
    /// that returns no text fails. Where it fails with `ENODATA` the file
    /// has no label, and the label is empty.
    pub open spec fn label(self) -> Result<Seq<char>, i32> {
        match self {
            Reply::Text(t) => Ok(t@),
            Reply::Ret { ret, errno } => if errno == ENODATA {
                Ok(Seq::empty())
            } else {
                Err(errno)
            },
            _ => Err(EPROTO),
        }
    }

    /// The value the call returned, or the `errno` of its failure.
    pub fn get_status(&self) -> (r: Result<i64, i32>)
        ensures
            r == self.status(),
    {
        match self {
            Reply::Ret { ret, errno } => if *ret < 0 {
                Err(*errno)
            } else {
                Ok(*ret)
            },
            _ => Ok(0),
        }
    }

    /// The `errno` with which the reply fails a call that asked for data of
    /// another kind.
    pub fn get_refusal(&self) -> (r: i32)
        ensures
            r == self.refusal(),
    {
        match self.get_status() {
            Err(errno) => errno,
            Ok(_) => EPROTO,
        }
    }

    /// The attributes in the reply, or the `errno` of the failure.
    pub fn get_stat(&self) -> (r: Result<Stat, i32>)
        ensures
            r == self.stat(),
    {
        match self {
            Reply::Stat(st) => Ok(*st),
            _ => Err(self.get_refusal()),
        }
    }

    /// The text in the reply, or the `errno` of the failure.
    pub fn get_text(&self) -> (r: Result<Utf8CStr, i32>)
        ensures
            r is Ok == self.text() is Ok,
            r is Ok ==> r->Ok_0@ == self.text()->Ok_0,
            r is Err ==> r->Err_0 == self.text()->Err_0,
    {
        match self {
            Reply::Text(t) => Ok(t.clone()),
            _ => Err(self.get_refusal()),
        }
    }

    /// The names in the reply, or the `errno` of the failure.
    pub fn get_names<'a>(&'a self) -> (r: Result<&'a Vec<Utf8CStr>, i32>)
        ensures
            r is Ok == self.names() is Ok,
            r is Ok ==> r->Ok_0@ == self.names()->Ok_0,
            r is Err ==> r->Err_0 == self.names()->Err_0,
    {
        match self {
            Reply::Names(v) => Ok(v),
            _ => Err(self.get_refusal()),
        }
    }

    /// The file content in the reply, or the `errno` of the failure.
    pub fn get_content(&self) -> (r: Result<&str, i32>)
        ensures
            r is Ok == self.content() is Ok,
            r is Ok ==> r->Ok_0@ == self.content()->Ok_0,
            r is Err ==> r->Err_0 == self.content()->Err_0,
    {
        match self {
            Reply::Content(t) => Ok(t.as_str()),
            _ => Err(self.get_refusal()),
        }
    }

    /// The file descriptor that the call returned, or the `errno` of the failure.
    pub fn get_fd(&self) -> (r: Result<i32, i32>)
        ensures
            r == self.fd(),
    {
        match self.get_status() {
            Ok(ret) => if ret <= i32::MAX as i64 {
                Ok(ret as i32)
            } else {
                Err(EPROTO)
            },
            Err(code) => Err(code),
        }
    }

    /// The address that the call returned, or the `errno` of the failure.
    pub fn get_addr(&self) -> (r: Result<usize, i32>)
        ensures
            r == self.addr(),
    {
        match self.get_status() {
            Ok(ret) => if ret as u64 <= usize::MAX as u64 {
                Ok(ret as usize)
            } else {
                Err(EPROTO)
            },
            Err(code) => Err(code),
        }
    }

    /// The security label in the reply, empty where the file has none, or the
    /// `errno` of the failure.
    pub fn get_label(&self) -> (r: Result<Utf8CStr, i32>)
        ensures
            r is Ok == self.label() is Ok,
            r is Ok ==> r->Ok_0@ == self.label()->Ok_0,
            r is Err ==> r->Err_0 == self.label()->Err_0,
    {
        match self {
            Reply::Text(t) => Ok(t.clone()),
            Reply::Ret { ret, errno } => if *errno == ENODATA {
                Ok(Utf8CStr::empty())
            } else {
                Err(*errno)
            },
            _ => Err(EPROTO),
        }
    }

    /// The size in the reply, or the `errno` of the failure.
    pub fn get_size(&self) -> (r: Result<u64, i32>)
        ensures
            r == self.size(),
    {
        match self {
            Reply::Size(n) => Ok(*n),
            _ => Err(self.get_refusal()),
        }
    }
}

/// A failed system call: its `errno`, its name and the paths it was made
/// with.
#[derive(Debug, Clone, PartialEq, Eq)]
pub struct OsError<P> {
    pub code: i32,
    pub name: &'static str,
    pub arg1: Option<P>,
    pub arg2: Option<P>,
}

impl View for OsError<Utf8CStr> {
    type V = OsError<Seq<char>>;

    open spec fn view(&self) -> OsError<Seq<char>> {
        OsError {
            code: self.code,
            name: self.name,
            arg1: opt_view(self.arg1),
            arg2: opt_view(self.arg2),
        }
    }
}

impl OsError<Utf8CStr> {
    /// The same error, naming the paths `arg1` and `arg2`.
    pub fn set_args(self, arg1: Option<&Utf8CStr>, arg2: Option<&Utf8CStr>) -> (e: Self)
        ensures
            e@ == (OsError { arg1: opt_ref_view(arg1), arg2: opt_ref_view(arg2), ..self@ }),
    {
        OsError {
            code: self.code,
            name: self.name,
            arg1: match arg1 {
                Some(p) => Some(p.clone()),
                None => None,
            },
            arg2: match arg2 {
                Some(p) => Some(p.clone()),
                None => None,
            },
        }
    }
}

/// Where an operation stands after the replies so far: done with a result,
/// or in need of the reply to one more call.
#[derive(Debug, PartialEq, Eq)]
pub enum Step<T, P> {
    Done(Result<T, OsError<P>>),
    Call(Syscall<P>),
}

impl<T: View> View for Step<T, Utf8CStr> {
    type V = Step<T::V, Seq<char>>;

    open spec fn view(&self) -> Step<T::V, Seq<char>> {
        match *self {
            Step::Done(Ok(v)) => Step::Done(Ok(v@)),
            Step::Done(Err(e)) => Step::Done(Err(e@)),
            Step::Call(c) => Step::Call(c@),
        }
    }
}

/// A step of an operation in executable code.
pub type Next<T> = Step<T, Utf8CStr>;

/// A step of an operation in specifications, with the number of replies
/// that the operation has read.
pub type Run<T> = (Step<T, Seq<char>>, int);

/// The first operation, and after its success the rest, which gets the
/// value of the first. A failure of the first ends both.
pub open spec fn then<A, B>(first: Run<A>, rest: spec_fn(A, int) -> Run<B>) -> Run<B> {
    match first.0 {
        Step::Done(Ok(v)) => rest(v, first.1),
        Step::Done(Err(e)) => (Step::Done(Err(e)), first.1),
        Step::Call(c) => (Step::Call(c), first.1),
    }
}

/// The first operation, and when it is done the rest, which is told whether
/// the first succeeded.
pub open spec fn attempt<A, B>(first: Run<A>, rest: spec_fn(bool, int) -> Run<B>) -> Run<B> {
    match first.0 {
        Step::Done(r) => rest(r is Ok, first.1),
        Step::Call(c) => (Step::Call(c), first.1),
    }
}

/// A run that did not succeed, as a run of an operation with another
/// result: the same call, or the same error.
pub open spec fn halt<A, B>(run: Run<A>) -> Run<B> {
    match run.0 {
        Step::Call(c) => (Step::Call(c), run.1),
        Step::Done(Err(e)) => (Step::Done(Err(e)), run.1),
        Step::Done(Ok(_)) => arbitrary(),
    }
}

/// A run whose error, if it ends in one, names the paths `arg1` and `arg2`
/// in place of its own.
pub open spec fn set_args<T>(
    run: Run<T>,
    arg1: Option<Seq<char>>,
    arg2: Option<Seq<char>>,
) -> Run<T> {
    match run.0 {
        Step::Done(Err(e)) => (Step::Done(Err(OsError { arg1, arg2, ..e })), run.1),
        _ => run,
    }
}

/// The result of a run without the value that it carries.
pub open spec fn forget<T>(run: Run<T>) -> Run<()> {
    match run.0 {
        Step::Done(Ok(_)) => (Step::Done(Ok(())), run.1),
        Step::Done(Err(e)) => (Step::Done(Err(e)), run.1),
        Step::Call(c) => (Step::Call(c), run.1),
    }
}

/// The error of the call `name` on the paths `arg1` and `arg2`.
pub open spec fn os_error(
    code: i32,
    name: &'static str,
    arg1: Option<Seq<char>>,
    arg2: Option<Seq<char>>,
) -> OsError<Seq<char>> {
    OsError { code, name, arg1, arg2 }
}

/// The view of an optional reference to a path.
pub open spec fn opt_ref_view(p: Option<&Utf8CStr>) -> Option<Seq<char>> {
    match p {
        Some(p) => Some(p@),
        None => None,
    }
}

/// The record of replies, and how many of them have been read.
pub struct Replay<'a> {
    pub seen: &'a Vec<Reply>,
    pub at: usize,
}

impl<'a> Replay<'a> {
    /// A reader at the start of the record.
    pub fn new(seen: &'a Vec<Reply>) -> (io: Replay<'a>)
        ensures
            io.seen == seen,
            io.at == 0,
    {
        Replay { seen, at: 0 }
    }

    /// Whether this reader stands where `before` can have got by reading
    /// replies: on the same record, no further back, and not beyond its
    /// end unless `before` stood there.
    pub open spec fn follows(self, before: Replay<'a>) -> bool {
        &&& self.seen == before.seen
        &&& before.at <= self.at
        &&& self.at <= self.seen@.len() || self.at == before.at
    }

    /// Whether this reader stands where an operation that began at `before`
    /// can have left it with the step `next`: it follows `before`, and a
    /// call is asked for only once every reply in the record is read.
    pub open spec fn served<T>(self, before: Replay<'a>, next: Next<T>) -> bool {
        &&& self.follows(before)
        &&& next is Call ==> self.at >= self.seen@.len()
    }

    /// The next reply, if the record holds one more.
    pub fn next(&mut self) -> (r: Option<&'a Reply>)
        ensures
            final(self).follows(*old(self)),
            old(self).at < old(self).seen@.len() ==> r == Some(&old(self).seen@[old(self).at as int])
                && final(self).at == old(self).at + 1,
            old(self).at >= old(self).seen@.len() ==> r is None && final(self).at == old(self).at,
    {
        if self.at < self.seen.len() {
            let r = &self.seen[self.at];
            self.at = self.at + 1;
            Some(r)
        } else {
            None
        }
    }
}

} // verus!
