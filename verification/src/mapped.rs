//! Files mapped into memory.

use crate::call::{close_with, fd_call, run_close, run_fd, with_args};
use crate::cstr::Utf8CStr;
use crate::file::{fd_get_attr, fd_get_attr_run, FileAttr};
use crate::sys::{
    os_error, set_args, then, Next, OsError, Replay, Reply, Run, Step, Syscall, AT_FDCWD,
    MAP_PRIVATE, MAP_SHARED, O_CLOEXEC, O_RDONLY, O_RDWR, PROT_READ, PROT_WRITE, S_IFBLK,
};
use vstd::prelude::*;

verus! {

/// A file mapped into memory: where the mapping starts and how long it is.
/// The mapping belongs to the one who holds this value, and ends with
/// [`MappedFile::unmap`].
#[derive(Debug, PartialEq, Eq)]
pub struct MappedFile {
    pub addr: usize,
    pub len: usize,
}

impl View for MappedFile {
    type V = MappedFile;

    open spec fn view(&self) -> MappedFile {
        *self
    }
}

/// The open flags for a file that is to be mapped.
pub open spec fn map_open_flags(rw: bool) -> i32 {
    if rw {
        O_RDWR | O_CLOEXEC
    } else {
        O_RDONLY | O_CLOEXEC
    }
}

/// The sharing of a mapping: writes reach the file only where it is mapped
/// for writing.
pub open spec fn map_sharing(rw: bool) -> i32 {
    if rw {
        MAP_SHARED
    } else {
        MAP_PRIVATE
    }
}

/// What [`map_fd`] does.
pub open spec fn map_fd_run(
    fd: i32,
    sz: usize,
    rw: bool,
    seen: Seq<Reply>,
    at: int,
) -> Run<MappedFile> {
    if at < 0 || at >= seen.len() {
        (
            Step::Call(
                Syscall::Mmap { fd, len: sz, prot: PROT_READ | PROT_WRITE, flags: map_sharing(rw) },
            ),
            at,
        )
    } else {
        match seen[at].addr() {
            Ok(addr) => (Step::Done(Ok(MappedFile { addr, len: sz })), at + 1),
            Err(code) => (Step::Done(Err(os_error(code, "mmap", None, None))), at + 1),
        }
    }
}

/// The number of bytes to map of an open file that is no block device: its
/// size.
pub open spec fn file_extent(st_size: i64) -> u64 {
    st_size as u64
}

/// The extent of the open file `fd` with the attributes `attr`: what the
/// device reports where it is a block device, else the size of the file.
pub open spec fn extent_run(
    fd: i32,
    path: Seq<char>,
    attr: FileAttr<Seq<char>>,
    seen: Seq<Reply>,
    at: int,
) -> Run<u64> {
    if !attr.st.is(S_IFBLK) {
        (Step::Done(Ok(file_extent(attr.st.st_size))), at)
    } else if at < 0 || at >= seen.len() {
        (Step::Call(Syscall::BlockSize(fd)), at)
    } else {
        match seen[at].size() {
            Ok(n) => (Step::Done(Ok(n)), at + 1),
            Err(code) => (Step::Done(Err(os_error(code, "ioctl", Some(path), None))), at + 1),
        }
    }
}

/// What [`map_file_at`] does: it opens the file, finds its extent, maps
/// it, and closes the descriptor on every way out.
pub open spec fn map_file_at_run(
    dirfd: i32,
    path: Seq<char>,
    rw: bool,
    seen: Seq<Reply>,
    at: int,
) -> Run<MappedFile> {
    then(
        run_fd(Syscall::Openat(dirfd, path, map_open_flags(rw)), "openat", Some(path), seen, at),
        |fd: i32, at1: int|
            {
                let got = fd_get_attr_run(fd, seen, at1);
                match got.0 {
                    Step::Call(c) => (Step::Call(c), got.1),
                    Step::Done(Err(e)) => run_close(fd, Err(e), seen, got.1),
                    Step::Done(Ok(attr)) => {
                        let sized = extent_run(fd, path, attr, seen, got.1);
                        match sized.0 {
                            Step::Call(c) => (Step::Call(c), sized.1),
                            Step::Done(Err(e)) => run_close(fd, Err(e), seen, sized.1),
                            Step::Done(Ok(sz)) => {
                                let mapped = set_args(
                                    map_fd_run(fd, sz as usize, rw, seen, sized.1),
                                    Some(path),
                                    None,
                                );
                                match mapped.0 {
                                    Step::Call(c) => (Step::Call(c), mapped.1),
                                    Step::Done(r) => run_close(fd, r, seen, mapped.1),
                                }
                            },
                        }
                    },
                }
            },
    )
}

/// What [`MappedFile::unmap`] does.
pub open spec fn unmap_run(map: MappedFile, seen: Seq<Reply>, at: int) -> Run<()> {
    if at < 0 || at >= seen.len() {
        (Step::Call(Syscall::Munmap { addr: map.addr, len: map.len }), at)
    } else {
        (Step::Done(Ok(())), at + 1)
    }
}

/// Maps `sz` bytes of the open file `fd`.
pub fn map_fd(fd: i32, sz: usize, rw: bool, io: &mut Replay) -> (next: Next<MappedFile>)
    ensures
        final(io).served(*old(io), next),
        (next@, final(io).at as int) == map_fd_run(fd, sz, rw, old(io).seen@, old(io).at as int),
{
    let flags = if rw {
        MAP_SHARED
    } else {
        MAP_PRIVATE
    };
    match io.next() {
        None => Step::Call(Syscall::Mmap { fd, len: sz, prot: PROT_READ | PROT_WRITE, flags }),
        Some(reply) => match reply.get_addr() {
            Ok(addr) => Step::Done(Ok(MappedFile { addr, len: sz })),
            Err(code) => Step::Done(Err(OsError { code, name: "mmap", arg1: None, arg2: None })),
        },
    }
}

fn extent(fd: i32, path: &Utf8CStr, attr: &FileAttr<Utf8CStr>, io: &mut Replay) -> (next: Next<u64>)
    ensures
        final(io).served(*old(io), next),
        (next@, final(io).at as int) == extent_run(
            fd,
            path@,
            attr@,
            old(io).seen@,
            old(io).at as int,
        ),
{
    if !attr.is_block_device() {
        return Step::Done(Ok(#[verifier::truncate] (attr.st.st_size as u64)));
    }
    match io.next() {
        None => Step::Call(Syscall::BlockSize(fd)),
        Some(reply) => match reply.get_size() {
            Ok(n) => Step::Done(Ok(n)),
            Err(code) => Step::Done(
                Err(OsError { code, name: "ioctl", arg1: Some(path.clone()), arg2: None }),
            ),
        },
    }
}

/// Maps the file at `path` below the directory `dirfd`.
pub fn map_file_at(
    dirfd: i32,
    path: &Utf8CStr,
    rw: bool,
    io: &mut Replay,
) -> (next: Next<MappedFile>)
    ensures
        final(io).served(*old(io), next),
        (next@, final(io).at as int) == map_file_at_run(
            dirfd,
            path@,
            rw,
            old(io).seen@,
            old(io).at as int,
        ),
{
    let flags = if rw {
        O_RDWR | O_CLOEXEC
    } else {
        O_RDONLY | O_CLOEXEC
    };
    let fd = match fd_call(io, Syscall::Openat(dirfd, path.clone(), flags), "openat", Some(path)) {
        Step::Done(Ok(fd)) => fd,
        Step::Done(Err(e)) => return Step::Done(Err(e)),
        Step::Call(c) => return Step::Call(c),
    };
    let attr = match fd_get_attr(fd, io) {
        Step::Done(Ok(attr)) => attr,
        Step::Done(Err(e)) => return close_with(io, fd, Err(e)),
        Step::Call(c) => return Step::Call(c),
    };
    let sz = match extent(fd, path, &attr, io) {
        Step::Done(Ok(sz)) => sz,
        Step::Done(Err(e)) => return close_with(io, fd, Err(e)),
        Step::Call(c) => return Step::Call(c),
    };
    let mapped = map_fd(fd, #[verifier::truncate] (sz as usize), rw, io);
    match with_args(mapped, Some(path), None) {
        Step::Done(r) => close_with(io, fd, r),
        Step::Call(c) => Step::Call(c),
    }
}

/// Maps the file at `path`.
pub fn map_file(path: &Utf8CStr, rw: bool, io: &mut Replay) -> (next: Next<MappedFile>)
    ensures
        final(io).served(*old(io), next),
        (next@, final(io).at as int) == map_file_at_run(
            AT_FDCWD,
            path@,
            rw,
            old(io).seen@,
            old(io).at as int,
        ),
{
    map_file_at(AT_FDCWD, path, rw, io)
}

impl MappedFile {
    /// Maps the file at `path` for reading; writes to the mapping stay
    /// private.
    pub fn open(path: &Utf8CStr, io: &mut Replay) -> (next: Next<MappedFile>)
        ensures
            final(io).served(*old(io), next),
            (next@, final(io).at as int) == map_file_at_run(
                AT_FDCWD,
                path@,
                false,
                old(io).seen@,
                old(io).at as int,
            ),
    {
        map_file(path, false, io)
    }

    /// Maps the file at `path` for reading and writing; writes to the
    /// mapping reach the file.
    pub fn open_rw(path: &Utf8CStr, io: &mut Replay) -> (next: Next<MappedFile>)
        ensures
            final(io).served(*old(io), next),
            (next@, final(io).at as int) == map_file_at_run(
                AT_FDCWD,
                path@,
                true,
                old(io).seen@,
                old(io).at as int,
            ),
    {
        map_file(path, true, io)
    }

    /// Maps the file at `path` below the directory `dir` for reading.
    pub fn openat(dir: i32, path: &Utf8CStr, io: &mut Replay) -> (next: Next<MappedFile>)
        ensures
            final(io).served(*old(io), next),
            (next@, final(io).at as int) == map_file_at_run(
                dir,
                path@,
                false,
                old(io).seen@,
                old(io).at as int,
            ),
    {
        map_file_at(dir, path, false, io)
    }

    /// Maps the file at `path` below the directory `dir` for reading and
    /// writing.
    pub fn openat_rw(dir: i32, path: &Utf8CStr, io: &mut Replay) -> (next: Next<MappedFile>)
        ensures
            final(io).served(*old(io), next),
            (next@, final(io).at as int) == map_file_at_run(
                dir,
                path@,
                true,
                old(io).seen@,
                old(io).at as int,
            ),
    {
        map_file_at(dir, path, true, io)
    }

    /// Maps `sz` bytes of the open file `fd`.
    pub fn create(fd: i32, sz: usize, rw: bool, io: &mut Replay) -> (next: Next<MappedFile>)
        ensures
            final(io).served(*old(io), next),
            (next@, final(io).at as int) == map_fd_run(fd, sz, rw, old(io).seen@, old(io).at as int),
    {
        map_fd(fd, sz, rw, io)
    }

    /// Ends the mapping. That this may fail is accepted.
    pub fn unmap(self, io: &mut Replay) -> (next: Next<()>)
        ensures
            final(io).served(*old(io), next),
            (next@, final(io).at as int) == unmap_run(self, old(io).seen@, old(io).at as int),
    {
        match io.next() {
            None => Step::Call(Syscall::Munmap { addr: self.addr, len: self.len }),
            Some(_) => Step::Done(Ok(())),
        }
    }
}

} // verus!
