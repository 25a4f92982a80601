//! Operations of one call: what is asked, and what is made of the reply.

use crate::cstr::Utf8CStr;
use crate::sys::{
    forget, opt_ref_view, opt_view, os_error, set_args, Next, OsError, Replay, Reply, Run, Stat,
    Step, Syscall,
};
use vstd::prelude::*;

verus! {

/// An operation of one call whose reply only tells success from failure.
pub open spec fn run_call(
    call: Syscall<Seq<char>>,
    name: &'static str,
    arg1: Option<Seq<char>>,
    arg2: Option<Seq<char>>,
    seen: Seq<Reply>,
    at: int,
) -> Run<i64> {
    if at < 0 || at >= seen.len() {
        (Step::Call(call), at)
    } else {
        match seen[at].status() {
            Ok(ret) => (Step::Done(Ok(ret)), at + 1),
            Err(code) => (Step::Done(Err(os_error(code, name, arg1, arg2))), at + 1),
        }
    }
}

/// Makes one call and tells success from failure.
pub fn call(
    io: &mut Replay,
    c: Syscall<Utf8CStr>,
    name: &'static str,
    arg1: Option<&Utf8CStr>,
    arg2: Option<&Utf8CStr>,
) -> (next: Next<i64>)
    ensures
        final(io).served(*old(io), next),
        (next@, final(io).at as int) == run_call(
            c@,
            name,
            opt_ref_view(arg1),
            opt_ref_view(arg2),
            old(io).seen@,
            old(io).at as int,
        ),
{
    match io.next() {
        None => Step::Call(c),
        Some(reply) => match reply.get_status() {
            Ok(ret) => Step::Done(Ok(ret)),
            Err(code) => Step::Done(
                Err(OsError { code, name, arg1: opt_clone(arg1), arg2: opt_clone(arg2) }),
            ),
        },
    }
}

/// Makes one call and tells success from failure, dropping the value.
pub fn check(
    io: &mut Replay,
    c: Syscall<Utf8CStr>,
    name: &'static str,
    arg1: Option<&Utf8CStr>,
    arg2: Option<&Utf8CStr>,
) -> (next: Next<()>)
    ensures
        final(io).served(*old(io), next),
        (next@, final(io).at as int) == forget(
            run_call(
                c@,
                name,
                opt_ref_view(arg1),
                opt_ref_view(arg2),
                old(io).seen@,
                old(io).at as int,
            ),
        ),
{
    match call(io, c, name, arg1, arg2) {
        Step::Done(Ok(_)) => Step::Done(Ok(())),
        Step::Done(Err(e)) => Step::Done(Err(e)),
        Step::Call(c) => Step::Call(c),
    }
}

/// An operation of one call that is answered with attributes.
pub open spec fn run_stat(
    call: Syscall<Seq<char>>,
    name: &'static str,
    arg1: Option<Seq<char>>,
    seen: Seq<Reply>,
    at: int,
) -> Run<Stat> {
    if at < 0 || at >= seen.len() {
        (Step::Call(call), at)
    } else {
        match seen[at].stat() {
            Ok(st) => (Step::Done(Ok(st)), at + 1),
            Err(code) => (Step::Done(Err(os_error(code, name, arg1, None))), at + 1),
        }
    }
}

/// Makes one call that is answered with attributes.
pub fn stat_call(
    io: &mut Replay,
    c: Syscall<Utf8CStr>,
    name: &'static str,
    arg1: Option<&Utf8CStr>,
) -> (next: Next<Stat>)
    ensures
        final(io).served(*old(io), next),
        (next@, final(io).at as int) == run_stat(
            c@,
            name,
            opt_ref_view(arg1),
            old(io).seen@,
            old(io).at as int,
        ),
{
    match io.next() {
        None => Step::Call(c),
        Some(reply) => match reply.get_stat() {
            Ok(st) => Step::Done(Ok(st)),
            Err(code) => Step::Done(Err(OsError { code, name, arg1: opt_clone(arg1), arg2: None })),
        },
    }
}

/// An operation of one call that is answered with text.
pub open spec fn run_text(
    call: Syscall<Seq<char>>,
    name: &'static str,
    arg1: Option<Seq<char>>,
    seen: Seq<Reply>,
    at: int,
) -> Run<Seq<char>> {
    if at < 0 || at >= seen.len() {
        (Step::Call(call), at)
    } else {
        match seen[at].text() {
            Ok(t) => (Step::Done(Ok(t)), at + 1),
            Err(code) => (Step::Done(Err(os_error(code, name, arg1, None))), at + 1),
        }
    }
}

/// Makes one call that is answered with text.
pub fn text_call(
    io: &mut Replay,
    c: Syscall<Utf8CStr>,
    name: &'static str,
    arg1: Option<&Utf8CStr>,
) -> (next: Next<Utf8CStr>)
    ensures
        final(io).served(*old(io), next),
        (next@, final(io).at as int) == run_text(
            c@,
            name,
            opt_ref_view(arg1),
            old(io).seen@,
            old(io).at as int,
        ),
{
    match io.next() {
        None => Step::Call(c),
        Some(reply) => match reply.get_text() {
            Ok(t) => Step::Done(Ok(t)),
            Err(code) => Step::Done(Err(OsError { code, name, arg1: opt_clone(arg1), arg2: None })),
        },
    }
}

/// An operation of one call that reads a security label.
pub open spec fn run_label(
    call: Syscall<Seq<char>>,
    name: &'static str,
    arg1: Option<Seq<char>>,
    seen: Seq<Reply>,
    at: int,
) -> Run<Seq<char>> {
    if at < 0 || at >= seen.len() {
        (Step::Call(call), at)
    } else {
        match seen[at].label() {
            Ok(t) => (Step::Done(Ok(t)), at + 1),
            Err(code) => (Step::Done(Err(os_error(code, name, arg1, None))), at + 1),
        }
    }
}

/// Makes one call that reads a security label.
pub fn label_call(
    io: &mut Replay,
    c: Syscall<Utf8CStr>,
    name: &'static str,
    arg1: Option<&Utf8CStr>,
) -> (next: Next<Utf8CStr>)
    ensures
        final(io).served(*old(io), next),
        (next@, final(io).at as int) == run_label(
            c@,
            name,
            opt_ref_view(arg1),
            old(io).seen@,
            old(io).at as int,
        ),
{
    match io.next() {
        None => Step::Call(c),
        Some(reply) => match reply.get_label() {
            Ok(t) => Step::Done(Ok(t)),
            Err(code) => Step::Done(Err(OsError { code, name, arg1: opt_clone(arg1), arg2: None })),
        },
    }
}

/// An operation of one call that returns a file descriptor.
pub open spec fn run_fd(
    call: Syscall<Seq<char>>,
    name: &'static str,
    arg1: Option<Seq<char>>,
    seen: Seq<Reply>,
    at: int,
) -> Run<i32> {
    if at < 0 || at >= seen.len() {
        (Step::Call(call), at)
    } else {
        match seen[at].fd() {
            Ok(fd) => (Step::Done(Ok(fd)), at + 1),
            Err(code) => (Step::Done(Err(os_error(code, name, arg1, None))), at + 1),
        }
    }
}

/// Makes one call that returns a file descriptor.
pub fn fd_call(
    io: &mut Replay,
    c: Syscall<Utf8CStr>,
    name: &'static str,
    arg1: Option<&Utf8CStr>,
) -> (next: Next<i32>)
    ensures
        final(io).served(*old(io), next),
        (next@, final(io).at as int) == run_fd(
            c@,
            name,
            opt_ref_view(arg1),
            old(io).seen@,
            old(io).at as int,
        ),
{
    match io.next() {
        None => Step::Call(c),
        Some(reply) => match reply.get_fd() {
            Ok(fd) => Step::Done(Ok(fd)),
            Err(code) => Step::Done(Err(OsError { code, name, arg1: opt_clone(arg1), arg2: None })),
        },
    }
}

/// The view of a result.
pub open spec fn result_view<T: View>(
    r: Result<T, OsError<Utf8CStr>>,
) -> Result<T::V, OsError<Seq<char>>> {
    match r {
        Ok(v) => Ok(v@),
        Err(e) => Err(e@),
    }
}

/// Closes `fd` and is then done with `result`, whatever the reply.
pub open spec fn run_close<T>(
    fd: i32,
    result: Result<T, OsError<Seq<char>>>,
    seen: Seq<Reply>,
    at: int,
) -> Run<T> {
    if at < 0 || at >= seen.len() {
        (Step::Call(Syscall::Close(fd)), at)
    } else {
        (Step::Done(result), at + 1)
    }
}

/// Closes `fd` and is then done with `result`.
pub fn close_with<T: View>(
    io: &mut Replay,
    fd: i32,
    result: Result<T, OsError<Utf8CStr>>,
) -> (next: Next<T>)
    ensures
        final(io).served(*old(io), next),
        (next@, final(io).at as int) == run_close(
            fd,
            result_view(result),
            old(io).seen@,
            old(io).at as int,
        ),
{
    match io.next() {
        None => Step::Call(Syscall::Close(fd)),
        Some(_) => Step::Done(result),
    }
}

/// A step whose error, if it is one, names the paths `arg1` and `arg2`.
pub fn with_args<T: View>(
    next: Next<T>,
    arg1: Option<&Utf8CStr>,
    arg2: Option<&Utf8CStr>,
) -> (r: Next<T>)
    ensures
        r is Call == next is Call,
        forall|at: int|
            (r@, at) == #[trigger] set_args((next@, at), opt_ref_view(arg1), opt_ref_view(arg2)),
{
    match next {
        Step::Done(Err(e)) => Step::Done(Err(e.set_args(arg1, arg2))),
        other => other,
    }
}

fn opt_clone(p: Option<&Utf8CStr>) -> (r: Option<Utf8CStr>)
    ensures
        opt_view(r) == opt_ref_view(p),
{
    match p {
        Some(p) => Some(p.clone()),
        None => None,
    }
}

} // verus!
