//! Bind mounts and unmounting.

use crate::call::{check, run_call};
use crate::cstr::Utf8CStr;
use crate::sys::{forget, Next, Replay, Reply, Run, Syscall, MNT_DETACH, MS_BIND, MS_REC};
use vstd::prelude::*;

verus! {

/// The mount flags of a bind mount, recursive or not.
pub open spec fn bind_flags(rec: bool) -> u64 {
    if rec {
        MS_BIND | MS_REC
    } else {
        MS_BIND
    }
}

/// What [`Utf8CStr::bind_mount_to`] does.
pub open spec fn bind_mount_run(
    src: Seq<char>,
    dst: Seq<char>,
    rec: bool,
    seen: Seq<Reply>,
    at: int,
) -> Run<()> {
    forget(
        run_call(
            Syscall::Mount { source: src, target: dst, fstype: None, flags: bind_flags(rec), data: None },
            "bind_mount",
            Some(src),
            Some(dst),
            seen,
            at,
        ),
    )
}

/// What [`Utf8CStr::unmount`] does: a lazy unmount, which detaches the mount
/// now and cleans up when it is no longer busy.
pub open spec fn unmount_run(path: Seq<char>, seen: Seq<Reply>, at: int) -> Run<()> {
    forget(run_call(Syscall::Umount2(path, MNT_DETACH), "unmount", Some(path), None, seen, at))
}

impl Utf8CStr {
    /// Shows what is under this path at `path` too.
    pub fn bind_mount_to(&self, path: &Utf8CStr, rec: bool, io: &mut Replay) -> (next: Next<()>)
        ensures
            final(io).served(*old(io), next),
            (next@, final(io).at as int) == bind_mount_run(
                self@,
                path@,
                rec,
                old(io).seen@,
                old(io).at as int,
            ),
    {
        let flags = if rec {
            MS_BIND | MS_REC
        } else {
            MS_BIND
        };
        check(
            io,
            Syscall::Mount {
                source: self.clone(),
                target: path.clone(),
                fstype: None,
                flags,
                data: None,
            },
            "bind_mount",
            Some(self),
            Some(path),
        )
    }

    /// Detaches what is mounted at this path.
    pub fn unmount(&self, io: &mut Replay) -> (next: Next<()>)
        ensures
            final(io).served(*old(io), next),
            (next@, final(io).at as int) == unmount_run(self@, old(io).seen@, old(io).at as int),
    {
        check(io, Syscall::Umount2(self.clone(), MNT_DETACH), "unmount", Some(self), None)
    }
}

} // verus!
