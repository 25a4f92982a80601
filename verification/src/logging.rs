//! Leveled logging to the kernel log.

use crate::call::{check, close_with, run_call, run_close};
use crate::cstr::Utf8CStr;
use crate::file::{open_fd, open_fd_run};
use crate::sys::{
    attempt, forget, then, Next, OsError, Replay, Reply, Run, Step, Syscall, O_CLOEXEC, O_RDWR,
    O_WRONLY, STDERR_FILENO, STDIN_FILENO, STDOUT_FILENO,
};
use crate::text::{decimal, decimal_text, lemma_decimal_no_nul, no_nul};
use vstd::prelude::*;
use vstd::string::*;

verus! {

/// Flag: errors are not written.
pub const DISABLE_ERROR: u32 = 1;

/// Flag: warnings are not written.
pub const DISABLE_WARN: u32 = 2;

/// Flag: information is not written.
pub const DISABLE_INFO: u32 = 4;

/// Flag: debug messages are not written.
pub const DISABLE_DEBUG: u32 = 8;

/// Flag: an error of the highest severity ends the process.
pub const EXIT_ON_ERROR: u32 = 16;

/// How grave a message is.
#[derive(Debug, Clone, Copy, PartialEq, Eq, Structural)]
pub enum LogLevel {
    ErrorCxx,
    Error,
    Warn,
    Info,
    Debug,
}

impl LogLevel {
    /// The flag that silences this level.
    pub open spec fn disable_flag(self) -> u32 {
        match self {
            LogLevel::Error | LogLevel::ErrorCxx => DISABLE_ERROR,
            LogLevel::Warn => DISABLE_WARN,
            LogLevel::Info => DISABLE_INFO,
            LogLevel::Debug => DISABLE_DEBUG,
        }
    }

    /// The flag that silences this level.
    pub fn as_disable_flag(&self) -> (flag: u32)
        ensures
            flag == self.disable_flag(),
    {
        match *self {
            LogLevel::Error | LogLevel::ErrorCxx => DISABLE_ERROR,
            LogLevel::Warn => DISABLE_WARN,
            LogLevel::Info => DISABLE_INFO,
            LogLevel::Debug => DISABLE_DEBUG,
        }
    }
}

/// The logger of the process: the descriptor of the kernel log, negative
/// where there is none, and the flags.
#[derive(Debug, Clone, Copy, PartialEq, Eq, Structural)]
pub struct Logger {
    pub kmsg: i32,
    pub flags: u32,
}

impl View for Logger {
    type V = Logger;

    open spec fn view(&self) -> Logger {
        *self
    }
}

impl Logger {
    /// The logger that writes nowhere.
    pub fn new() -> (logger: Logger)
        ensures
            logger == (Logger { kmsg: -1i32, flags: 0 }),
    {
        Logger { kmsg: -1, flags: 0 }
    }

    /// Whether messages of `level` are written.
    pub open spec fn enabled(self, level: LogLevel) -> bool {
        self.flags & level.disable_flag() == 0
    }

    /// Whether a message of `level` ends the process once it is written.
    pub open spec fn exits_on(self, level: LogLevel) -> bool {
        level == LogLevel::ErrorCxx && self.flags & EXIT_ON_ERROR != 0
    }
}

/// What to do with a message.
#[derive(Debug, Clone, Copy, PartialEq, Eq, Structural)]
pub struct Emit {
    /// Write it.
    pub write: bool,
    /// End the process after it is written.
    pub exit: bool,
}

/// The flags after the level with the flag `flag` is enabled or disabled.
pub open spec fn flags_with(flags: u32, flag: u32, enabled: bool) -> u32 {
    if enabled {
        flags & !flag
    } else {
        flags | flag
    }
}

/// The prefix of every line in the kernel log.
pub open spec fn log_line(msg: Seq<char>) -> Seq<char> {
    "magiskinit: "@ + msg
}

/// What [`log_with_formatter`] does with the message `msg`: nothing where
/// the level is disabled; else it writes the line where there is a kernel
/// log. The result tells whether the process is to exit.
pub open spec fn log_run(
    logger: Logger,
    level: LogLevel,
    msg: Seq<char>,
    seen: Seq<Reply>,
    at: int,
) -> Run<bool> {
    if !logger.enabled(level) {
        (Step::Done(Ok(false)), at)
    } else if logger.kmsg < 0 {
        (Step::Done(Ok(logger.exits_on(level))), at)
    } else if at < 0 || at >= seen.len() {
        (Step::Call(Syscall::WriteText(logger.kmsg, log_line(msg))), at)
    } else {
        (Step::Done(Ok(logger.exits_on(level))), at + 1)
    }
}

/// An argument of a failed call, as it stands in the log: in quotes, after
/// a space.
pub open spec fn quoted(arg: Seq<char>) -> Seq<char> {
    " '"@ + arg + "'"@
}

/// What the log says of a failed call: the name of the call with the paths
/// that it was made with, and the number of the error. A failure without a
/// name is told by the number alone.
pub open spec fn error_text(e: OsError<Seq<char>>) -> Seq<char> {
    let cause = "os error "@ + decimal(e.code as int);
    if e.name@.len() == 0 || !no_nul(e.name@) {
        cause
    } else {
        match (e.arg1, e.arg2) {
            (Some(a), Some(b)) => e.name@ + quoted(a) + quoted(b) + ": "@ + cause,
            (Some(a), None) => e.name@ + quoted(a) + ": "@ + cause,
            _ => e.name@ + ": "@ + cause,
        }
    }
}

/// A message as a line.
pub open spec fn as_line(msg: Seq<char>) -> Seq<char> {
    msg + "\n"@
}

/// What [`say`] does: it logs the line of `msg` at `level`.
pub open spec fn say_run(
    logger: Logger,
    level: LogLevel,
    msg: Seq<char>,
    seen: Seq<Reply>,
    at: int,
) -> Run<()> {
    forget(log_run(logger, level, as_line(msg), seen, at))
}

/// The run `run` with its failure logged, if it ends in one. The result
/// tells whether it succeeded, and is never an error itself.
pub open spec fn logged<T>(run: Run<T>, logger: Logger, seen: Seq<Reply>) -> Run<bool> {
    match run.0 {
        Step::Call(c) => (Step::Call(c), run.1),
        Step::Done(Ok(_)) => (Step::Done(Ok(true)), run.1),
        Step::Done(Err(e)) => then(
            say_run(logger, LogLevel::Error, error_text(e), seen, run.1),
            |u: (), at: int| (Step::Done(Ok(false)), at),
        ),
    }
}

/// Opens the device at `path`. Where that fails, makes the character device
/// with major number 1 and the minor number `minor` at `fallback`, opens
/// that, and removes it again. The result is the descriptor, or -1.
pub open spec fn open_device_run(
    path: Seq<char>,
    fallback: Seq<char>,
    flags: i32,
    minor: u32,
    seen: Seq<Reply>,
    at: int,
) -> Run<i32> {
    let first = open_fd_run(path, flags, 0, seen, at);
    match first.0 {
        Step::Call(c) => (Step::Call(c), first.1),
        Step::Done(Ok(fd)) => (Step::Done(Ok(fd)), first.1),
        Step::Done(Err(_)) => attempt(
            run_call(
                Syscall::Mknod { path: fallback, perm: 0o666, major: 1, minor },
                "mknod",
                Some(fallback),
                None,
                seen,
                first.1,
            ),
            |made: bool, at1: int|
                {
                    let second = open_fd_run(fallback, flags, 0, seen, at1);
                    match second.0 {
                        Step::Call(c) => (Step::Call(c), second.1),
                        Step::Done(r) => attempt(
                            run_call(
                                Syscall::Remove(fallback),
                                "remove",
                                Some(fallback),
                                None,
                                seen,
                                second.1,
                            ),
                            |removed: bool, at2: int|
                                (
                                    Step::Done(
                                        Ok(
                                            match r {
                                                Ok(fd) => fd,
                                                Err(_) => -1i32,
                                            },
                                        ),
                                    ),
                                    at2,
                                ),
                        ),
                    }
                },
        ),
    }
}

/// Makes the open file `fd` the standard input, output and error of the
/// process, unless `fd` is negative.
pub open spec fn redirect_run(fd: i32, seen: Seq<Reply>, at: int) -> Run<()> {
    if fd < 0 {
        (Step::Done(Ok(())), at)
    } else {
        attempt(
            run_call(Syscall::Dup3(fd, STDIN_FILENO, O_CLOEXEC), "dup3", None, None, seen, at),
            |a: bool, at1: int|
                attempt(
                    run_call(
                        Syscall::Dup3(fd, STDOUT_FILENO, O_CLOEXEC),
                        "dup3",
                        None,
                        None,
                        seen,
                        at1,
                    ),
                    |b: bool, at2: int|
                        attempt(
                            run_call(
                                Syscall::Dup3(fd, STDERR_FILENO, O_CLOEXEC),
                                "dup3",
                                None,
                                None,
                                seen,
                                at2,
                            ),
                            |c: bool, at3: int| (Step::Done(Ok(())), at3),
                        ),
                ),
        )
    }
}

/// Tells the kernel not to limit the rate of lines from user space: writes
/// `on` to the file at `path`, if it can be opened.
pub open spec fn unlimit_run(path: Seq<char>, seen: Seq<Reply>, at: int) -> Run<()> {
    let opened = open_fd_run(path, O_WRONLY | O_CLOEXEC, 0, seen, at);
    match opened.0 {
        Step::Call(c) => (Step::Call(c), opened.1),
        Step::Done(Err(_)) => (Step::Done(Ok(())), opened.1),
        Step::Done(Ok(fd)) => attempt(
            run_call(Syscall::WriteText(fd, "on\n"@), "write", None, None, seen, opened.1),
            |written: bool, at1: int| run_close(fd, Ok(()), seen, at1),
        ),
    }
}

/// What [`setup_klog`] does: the standard streams go to the null device,
/// the kernel log is opened for the logger, and the rate limit is lifted.
/// None of the steps can fail the whole.
pub open spec fn setup_klog_run(seen: Seq<Reply>, at: int) -> Run<Logger> {
    let null = open_device_run("/dev/null"@, "/null"@, O_RDWR | O_CLOEXEC, 3, seen, at);
    match null.0 {
        Step::Done(Ok(null_fd)) => {
            let redirected = redirect_run(null_fd, seen, null.1);
            match redirected.0 {
                Step::Done(_) => {
                    let kmsg = open_device_run(
                        "/dev/kmsg"@,
                        "/kmsg"@,
                        O_WRONLY | O_CLOEXEC,
                        11,
                        seen,
                        redirected.1,
                    );
                    match kmsg.0 {
                        Step::Done(Ok(kmsg_fd)) => {
                            let closed: Run<()> = if null_fd < 0 {
                                (Step::Done(Ok(())), kmsg.1)
                            } else {
                                run_close(null_fd, Ok(()), seen, kmsg.1)
                            };
                            match closed.0 {
                                Step::Done(_) => {
                                    let rate = unlimit_run(
                                        "/proc/sys/kernel/printk_devkmsg"@,
                                        seen,
                                        closed.1,
                                    );
                                    match rate.0 {
                                        Step::Done(_) => (
                                            Step::Done(Ok(Logger { kmsg: kmsg_fd, flags: 0 })),
                                            rate.1,
                                        ),
                                        Step::Call(c) => (Step::Call(c), rate.1),
                                    }
                                },
                                Step::Call(c) => (Step::Call(c), closed.1),
                            }
                        },
                        Step::Done(Err(e)) => (Step::Done(Err(e)), kmsg.1),
                        Step::Call(c) => (Step::Call(c), kmsg.1),
                    }
                },
                Step::Call(c) => (Step::Call(c), redirected.1),
            }
        },
        Step::Done(Err(e)) => (Step::Done(Err(e)), null.1),
        Step::Call(c) => (Step::Call(c), null.1),
    }
}

/// Decides what becomes of a message of `level`.
pub fn log_with_writer(logger: &Logger, level: LogLevel) -> (emit: Emit)
    ensures
        emit.write == logger.enabled(level),
        emit.exit == (logger.enabled(level) && logger.exits_on(level)),
{
    if (logger.flags & level.as_disable_flag()) != 0 {
        return Emit { write: false, exit: false };
    }
    let exit = match level {
        LogLevel::ErrorCxx => (logger.flags & EXIT_ON_ERROR) != 0,
        _ => false,
    };
    Emit { write: true, exit }
}

/// Logs the formatted message `msg` at `level`.
pub fn log_with_formatter(
    logger: &Logger,
    level: LogLevel,
    msg: &Utf8CStr,
    io: &mut Replay,
) -> (next: Next<bool>)
    ensures
        final(io).served(*old(io), next),
        (next@, final(io).at as int) == log_run(
            *logger,
            level,
            msg@,
            old(io).seen@,
            old(io).at as int,
        ),
{
    let emit = log_with_writer(logger, level);
    if !emit.write {
        return Step::Done(Ok(false));
    }
    if logger.kmsg >= 0 {
        proof {
            reveal_strlit("magiskinit: ");
        }
        let mut line = Utf8CStr::from_text("magiskinit: ");
        line.push_str(msg);
        match io.next() {
            None => return Step::Call(Syscall::WriteText(logger.kmsg, line)),
            Some(_) => {},
        }
    }
    Step::Done(Ok(emit.exit))
}

fn quote(arg: &Utf8CStr) -> (r: Utf8CStr)
    ensures
        r@ == quoted(arg@),
{
    proof {
        reveal_strlit(" '");
        reveal_strlit("'");
    }
    let mut r = Utf8CStr::from_text(" '");
    r.push_str(arg);
    r.push_str(&Utf8CStr::from_text("'"));
    r
}

/// Words a failed call for the log.
pub fn error_message(e: &OsError<Utf8CStr>) -> (msg: Utf8CStr)
    ensures
        msg@ == error_text(e@),
{
    proof {
        reveal_strlit("os error ");
        reveal_strlit(": ");
        lemma_decimal_no_nul(e.code as int);
    }
    let mut cause = Utf8CStr::from_text("os error ");
    cause.push_str(&Utf8CStr::from_text(decimal_text(e.code).as_str()));
    let mut msg = match Utf8CStr::new(e.name) {
        Some(name) => name,
        None => return cause,
    };
    if msg.is_empty() {
        return cause;
    }
    match (&e.arg1, &e.arg2) {
        (Some(a), Some(b)) => {
            msg.push_str(&quote(a));
            msg.push_str(&quote(b));
        },
        (Some(a), None) => {
            msg.push_str(&quote(a));
        },
        _ => {},
    }
    msg.push_str(&Utf8CStr::from_text(": "));
    msg.push_str(&cause);
    msg
}

/// Logs the message `msg` at `level`, as a line.
pub fn say(logger: &Logger, level: LogLevel, msg: &Utf8CStr, io: &mut Replay) -> (next: Next<()>)
    ensures
        final(io).served(*old(io), next),
        (next@, final(io).at as int) == say_run(
            *logger,
            level,
            msg@,
            old(io).seen@,
            old(io).at as int,
        ),
{
    proof {
        reveal_strlit("\n");
    }
    let mut line = msg.clone();
    line.push_str(&Utf8CStr::from_text("\n"));
    match log_with_formatter(logger, level, &line, io) {
        Step::Done(Ok(_)) => Step::Done(Ok(())),
        Step::Done(Err(e)) => Step::Done(Err(e)),
        Step::Call(c) => Step::Call(c),
    }
}

/// Logs the failure of a step that is done, if it failed, and tells
/// whether it succeeded.
pub fn log_failure<T: View>(logger: &Logger, next: Next<T>, io: &mut Replay) -> (r: Next<bool>)
    ensures
        final(io).follows(*old(io)),
        next is Call ==> r is Call && final(io).at == old(io).at,
        !(next is Call) ==> final(io).served(*old(io), r),
        (r@, final(io).at as int) == logged((next@, old(io).at as int), *logger, old(io).seen@),
{
    match next {
        Step::Call(c) => Step::Call(c),
        Step::Done(Ok(_)) => Step::Done(Ok(true)),
        Step::Done(Err(e)) => match say(logger, LogLevel::Error, &error_message(&e), io) {
            Step::Done(Ok(_)) => Step::Done(Ok(false)),
            Step::Done(Err(e)) => Step::Done(Err(e)),
            Step::Call(c) => Step::Call(c),
        },
    }
}

/// Enables or disables the messages of `level`.
pub fn set_log_level_state(logger: &mut Logger, level: LogLevel, enabled: bool)
    ensures
        final(logger).kmsg == old(logger).kmsg,
        final(logger).flags == flags_with(old(logger).flags, level.disable_flag(), enabled),
        final(logger).enabled(level) == enabled,
        forall|other: LogLevel|
            other.disable_flag() != level.disable_flag() ==> final(logger).enabled(other) == old(
                logger,
            ).enabled(other),
        forall|other: LogLevel| final(logger).exits_on(other) == old(logger).exits_on(other),
{
    let flag = level.as_disable_flag();
    let flags = logger.flags;
    if enabled {
        logger.flags = flags & !flag;
    } else {
        logger.flags = flags | flag;
    }
    proof {
        let now = logger.flags;
        assert(flag == 1 || flag == 2 || flag == 4 || flag == 8);
        assert((flags & !flag) & flag == 0) by (bit_vector);
        assert(flag != 0 ==> (flags | flag) & flag != 0) by (bit_vector);
        assert forall|g: u32|
            (g == 1 || g == 2 || g == 4 || g == 8 || g == 16) && g != flag implies (now & g == 0) == (
            flags & g == 0) by {
            assert((flag == 1 || flag == 2 || flag == 4 || flag == 8) && (g == 1 || g == 2 || g == 4
                || g == 8 || g == 16) && g != flag ==> ((flags & !flag) & g == 0) == (flags & g
                == 0) && ((flags | flag) & g == 0) == (flags & g == 0)) by (bit_vector);
        }
        assert forall|other: LogLevel| other.disable_flag() != level.disable_flag() implies logger.enabled(
            other,
        ) == old(logger).enabled(other) by {
            let g = other.disable_flag();
            assert(g == 1 || g == 2 || g == 4 || g == 8);
        }
        assert(EXIT_ON_ERROR == 16);
    }
}

fn open_device(
    path: &Utf8CStr,
    fallback: &Utf8CStr,
    flags: i32,
    minor: u32,
    io: &mut Replay,
) -> (next: Next<i32>)
    ensures
        final(io).served(*old(io), next),
        (next@, final(io).at as int) == open_device_run(
            path@,
            fallback@,
            flags,
            minor,
            old(io).seen@,
            old(io).at as int,
        ),
{
    match open_fd(path, flags, 0, io) {
        Step::Done(Ok(fd)) => return Step::Done(Ok(fd)),
        Step::Done(Err(_)) => {},
        Step::Call(c) => return Step::Call(c),
    }
    match check(
        io,
        Syscall::Mknod { path: fallback.clone(), perm: 0o666, major: 1, minor },
        "mknod",
        Some(fallback),
        None,
    ) {
        Step::Done(_) => {},
        Step::Call(c) => return Step::Call(c),
    }
    let second = match open_fd(fallback, flags, 0, io) {
        Step::Done(r) => r,
        Step::Call(c) => return Step::Call(c),
    };
    match fallback.remove(io) {
        Step::Done(_) => {},
        Step::Call(c) => return Step::Call(c),
    }
    Step::Done(
        Ok(
            match second {
                Ok(fd) => fd,
                Err(_) => -1,
            },
        ),
    )
}

fn redirect(fd: i32, io: &mut Replay) -> (next: Next<()>)
    ensures
        final(io).served(*old(io), next),
        (next@, final(io).at as int) == redirect_run(fd, old(io).seen@, old(io).at as int),
{
    if fd < 0 {
        return Step::Done(Ok(()));
    }
    match check(io, Syscall::Dup3(fd, STDIN_FILENO, O_CLOEXEC), "dup3", None, None) {
        Step::Done(_) => {},
        Step::Call(c) => return Step::Call(c),
    }
    match check(io, Syscall::Dup3(fd, STDOUT_FILENO, O_CLOEXEC), "dup3", None, None) {
        Step::Done(_) => {},
        Step::Call(c) => return Step::Call(c),
    }
    match check(io, Syscall::Dup3(fd, STDERR_FILENO, O_CLOEXEC), "dup3", None, None) {
        Step::Done(_) => {},
        Step::Call(c) => return Step::Call(c),
    }
    Step::Done(Ok(()))
}

fn unlimit(path: &Utf8CStr, io: &mut Replay) -> (next: Next<()>)
    ensures
        final(io).served(*old(io), next),
        (next@, final(io).at as int) == unlimit_run(path@, old(io).seen@, old(io).at as int),
{
    let fd = match open_fd(path, O_WRONLY | O_CLOEXEC, 0, io) {
        Step::Done(Ok(fd)) => fd,
        Step::Done(Err(_)) => return Step::Done(Ok(())),
        Step::Call(c) => return Step::Call(c),
    };
    proof {
        reveal_strlit("on\n");
    }
    match check(io, Syscall::WriteText(fd, Utf8CStr::from_text("on\n")), "write", None, None) {
        Step::Done(_) => {},
        Step::Call(c) => return Step::Call(c),
    }
    close_with(io, fd, Ok(()))
}

/// Sends the standard streams to the null device and opens the kernel log.
pub fn setup_klog(io: &mut Replay) -> (next: Next<Logger>)
    ensures
        final(io).served(*old(io), next),
        (next@, final(io).at as int) == setup_klog_run(old(io).seen@, old(io).at as int),
        !(next matches Step::Done(Err(_))),
{
    proof {
        reveal_strlit("/dev/null");
        reveal_strlit("/null");
        reveal_strlit("/dev/kmsg");
        reveal_strlit("/kmsg");
        reveal_strlit("/proc/sys/kernel/printk_devkmsg");
    }
    let null_fd = match open_device(
        &Utf8CStr::from_text("/dev/null"),
        &Utf8CStr::from_text("/null"),
        O_RDWR | O_CLOEXEC,
        3,
        io,
    ) {
        Step::Done(Ok(fd)) => fd,
        Step::Done(Err(e)) => return Step::Done(Err(e)),
        Step::Call(c) => return Step::Call(c),
    };
    match redirect(null_fd, io) {
        Step::Done(_) => {},
        Step::Call(c) => return Step::Call(c),
    }
    let kmsg = match open_device(
        &Utf8CStr::from_text("/dev/kmsg"),
        &Utf8CStr::from_text("/kmsg"),
        O_WRONLY | O_CLOEXEC,
        11,
        io,
    ) {
        Step::Done(Ok(fd)) => fd,
        Step::Done(Err(e)) => return Step::Done(Err(e)),
        Step::Call(c) => return Step::Call(c),
    };
    if null_fd >= 0 {
        match close_with(io, null_fd, Ok(())) {
            Step::Done(_) => {},
            Step::Call(c) => return Step::Call(c),
        }
    }
    match unlimit(&Utf8CStr::from_text("/proc/sys/kernel/printk_devkmsg"), io) {
        Step::Done(_) => {},
        Step::Call(c) => return Step::Call(c),
    }
    Step::Done(Ok(Logger { kmsg, flags: 0 }))
}

} // verus!
