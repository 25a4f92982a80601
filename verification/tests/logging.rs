use fuseisk::cstr::Utf8CStr;
use fuseisk::logging::{
    error_message, log_failure, log_with_formatter, log_with_writer, say, set_log_level_state,
    setup_klog, Emit, LogLevel, Logger, DISABLE_DEBUG, DISABLE_ERROR, DISABLE_INFO, DISABLE_WARN,
    EXIT_ON_ERROR,
};
use fuseisk::result::Silent;
use fuseisk::sys::{
    OsError, Replay, Reply, Step, Syscall, O_CLOEXEC, O_RDWR, O_WRONLY, STDERR_FILENO,
    STDIN_FILENO, STDOUT_FILENO,
};

type Call = Syscall<Utf8CStr>;

fn p(s: &str) -> Utf8CStr {
    Utf8CStr::new(s).unwrap()
}

fn ok() -> Reply {
    Reply::Ret { ret: 0, errno: 0 }
}

fn fail(errno: i32) -> Reply {
    Reply::Ret { ret: -1, errno }
}

fn fd(n: i64) -> Reply {
    Reply::Ret { ret: n, errno: 0 }
}

fn script<T>(
    replies: Vec<Reply>,
    op: impl Fn(&mut Replay) -> Step<T, Utf8CStr>,
) -> (Vec<Call>, Option<Result<T, OsError<Utf8CStr>>>) {
    let mut seen: Vec<Reply> = Vec::new();
    let mut calls = Vec::new();
    let mut rest = replies.into_iter();
    loop {
        let next = {
            let mut io = Replay::new(&seen);
            op(&mut io)
        };
        match next {
            Step::Done(r) => return (calls, Some(r)),
            Step::Call(c) => {
                calls.push(c);
                match rest.next() {
                    Some(reply) => seen.push(reply),
                    None => return (calls, None),
                }
            }
        }
    }
}

const ALL: [LogLevel; 5] =
    [LogLevel::ErrorCxx, LogLevel::Error, LogLevel::Warn, LogLevel::Info, LogLevel::Debug];

#[test]
fn test_debug_log() {
    let logger = Logger { kmsg: 1, flags: 0 };
    let (calls, exit) =
        script(vec![ok()], |io| log_with_formatter(&logger, LogLevel::Debug, &p(" test_debug_log \n"), io));
    assert_eq!(calls, vec![Syscall::WriteText(1, p("magiskinit:  test_debug_log \n"))]);
    assert_eq!(exit, Some(Ok(false)));
    let (calls, exit) =
        script(vec![ok()], |io| log_with_formatter(&logger, LogLevel::Debug, &p("log_with_args\n"), io));
    assert_eq!(calls, vec![Syscall::WriteText(1, p("magiskinit: log_with_args\n"))]);
    assert_eq!(exit, Some(Ok(false)));
}

#[test]
fn disable_flags() {
    assert_eq!(LogLevel::ErrorCxx.as_disable_flag(), 1);
    assert_eq!(LogLevel::Error.as_disable_flag(), 1);
    assert_eq!(LogLevel::Warn.as_disable_flag(), 2);
    assert_eq!(LogLevel::Info.as_disable_flag(), 4);
    assert_eq!(LogLevel::Debug.as_disable_flag(), 8);
    assert_eq!(
        (DISABLE_ERROR, DISABLE_WARN, DISABLE_INFO, DISABLE_DEBUG, EXIT_ON_ERROR),
        (1, 2, 4, 8, 16)
    );
}

#[test]
fn a_new_logger_writes_nowhere() {
    let logger = Logger::new();
    assert_eq!(logger, Logger { kmsg: -1, flags: 0 });
    let (calls, exit) =
        script(vec![], |io| log_with_formatter(&logger, LogLevel::Error, &p("lost\n"), io));
    assert!(calls.is_empty());
    assert_eq!(exit, Some(Ok(false)));
}

#[test]
fn a_disabled_level_is_not_written() {
    let logger = Logger { kmsg: 4, flags: DISABLE_INFO };
    let (calls, exit) = script(vec![], |io| log_with_formatter(&logger, LogLevel::Info, &p("x\n"), io));
    assert!(calls.is_empty());
    assert_eq!(exit, Some(Ok(false)));
    let (calls, _) = script(vec![ok()], |io| log_with_formatter(&logger, LogLevel::Warn, &p("x\n"), io));
    assert_eq!(calls, vec![Syscall::WriteText(4, p("magiskinit: x\n"))]);
}

#[test]
fn only_the_highest_severity_can_end_the_process() {
    let logger = Logger { kmsg: 4, flags: EXIT_ON_ERROR };
    for level in ALL {
        let (_, exit) = script(vec![fail(5)], |io| log_with_formatter(&logger, level, &p("x\n"), io));
        assert_eq!(exit, Some(Ok(matches!(level, LogLevel::ErrorCxx))));
        assert_eq!(
            log_with_writer(&logger, level),
            Emit { write: true, exit: matches!(level, LogLevel::ErrorCxx) }
        );
    }
    let quiet = Logger { kmsg: 4, flags: EXIT_ON_ERROR | DISABLE_ERROR };
    assert_eq!(log_with_writer(&quiet, LogLevel::ErrorCxx), Emit { write: false, exit: false });
    let plain = Logger { kmsg: 4, flags: 0 };
    assert_eq!(log_with_writer(&plain, LogLevel::ErrorCxx), Emit { write: true, exit: false });
    let silent = Logger { kmsg: -1, flags: EXIT_ON_ERROR };
    let (calls, exit) =
        script(vec![], |io| log_with_formatter(&silent, LogLevel::ErrorCxx, &p("x\n"), io));
    assert!(calls.is_empty());
    assert_eq!(exit, Some(Ok(true)));
}

#[test]
fn levels_toggle_independently() {
    let mut logger = Logger { kmsg: 3, flags: EXIT_ON_ERROR };
    set_log_level_state(&mut logger, LogLevel::Debug, false);
    assert_eq!(logger.flags, EXIT_ON_ERROR | DISABLE_DEBUG);
    set_log_level_state(&mut logger, LogLevel::Warn, false);
    assert_eq!(logger.flags, EXIT_ON_ERROR | DISABLE_DEBUG | DISABLE_WARN);
    set_log_level_state(&mut logger, LogLevel::Warn, false);
    assert_eq!(logger.flags, EXIT_ON_ERROR | DISABLE_DEBUG | DISABLE_WARN);
    set_log_level_state(&mut logger, LogLevel::Debug, true);
    assert_eq!(logger.flags, EXIT_ON_ERROR | DISABLE_WARN);
    set_log_level_state(&mut logger, LogLevel::Info, true);
    assert_eq!(logger.flags, EXIT_ON_ERROR | DISABLE_WARN);
    set_log_level_state(&mut logger, LogLevel::ErrorCxx, false);
    assert!(!log_with_writer(&logger, LogLevel::Error).write);
    assert!(!log_with_writer(&logger, LogLevel::ErrorCxx).write);
    assert!(log_with_writer(&logger, LogLevel::Info).write);
    assert_eq!(logger.kmsg, 3);
}

#[test]
fn setup_klog_with_both_devices() {
    let replies = vec![fd(3), ok(), ok(), ok(), fd(4), ok(), fd(5), ok(), ok()];
    let (calls, logger) = script(replies, setup_klog);
    assert_eq!(
        calls,
        vec![
            Syscall::Open(p("/dev/null"), O_RDWR | O_CLOEXEC, 0),
            Syscall::Dup3(3, STDIN_FILENO, O_CLOEXEC),
            Syscall::Dup3(3, STDOUT_FILENO, O_CLOEXEC),
            Syscall::Dup3(3, STDERR_FILENO, O_CLOEXEC),
            Syscall::Open(p("/dev/kmsg"), O_WRONLY | O_CLOEXEC, 0),
            Syscall::Close(3),
            Syscall::Open(p("/proc/sys/kernel/printk_devkmsg"), O_WRONLY | O_CLOEXEC, 0),
            Syscall::WriteText(5, p("on\n")),
            Syscall::Close(5),
        ]
    );
    assert_eq!(logger, Some(Ok(Logger { kmsg: 4, flags: 0 })));
}

#[test]
fn setup_klog_makes_the_devices_where_they_are_missing() {
    let replies = vec![
        fail(2),
        ok(),
        fd(3),
        ok(),
        ok(),
        ok(),
        ok(),
        fail(2),
        ok(),
        fd(4),
        ok(),
        ok(),
        fail(2),
    ];
    let (calls, logger) = script(replies, setup_klog);
    assert_eq!(
        calls,
        vec![
            Syscall::Open(p("/dev/null"), O_RDWR | O_CLOEXEC, 0),
            Syscall::Mknod { path: p("/null"), perm: 0o666, major: 1, minor: 3 },
            Syscall::Open(p("/null"), O_RDWR | O_CLOEXEC, 0),
            Syscall::Remove(p("/null")),
            Syscall::Dup3(3, 0, O_CLOEXEC),
            Syscall::Dup3(3, 1, O_CLOEXEC),
            Syscall::Dup3(3, 2, O_CLOEXEC),
            Syscall::Open(p("/dev/kmsg"), O_WRONLY | O_CLOEXEC, 0),
            Syscall::Mknod { path: p("/kmsg"), perm: 0o666, major: 1, minor: 11 },
            Syscall::Open(p("/kmsg"), O_WRONLY | O_CLOEXEC, 0),
            Syscall::Remove(p("/kmsg")),
            Syscall::Close(3),
            Syscall::Open(p("/proc/sys/kernel/printk_devkmsg"), O_WRONLY | O_CLOEXEC, 0),
        ]
    );
    assert_eq!(logger, Some(Ok(Logger { kmsg: 4, flags: 0 })));
}

#[test]
fn setup_klog_goes_on_without_any_device() {
    let replies = vec![fail(2), fail(1), fail(2), fail(2), fail(2), fail(1), fail(2), fail(2), fail(2)];
    let (calls, logger) = script(replies, setup_klog);
    assert_eq!(calls.len(), 9);
    assert!(!calls.iter().any(|c| matches!(c, Syscall::Dup3(..) | Syscall::Close(_))));
    assert_eq!(logger, Some(Ok(Logger { kmsg: -1, flags: 0 })));
}

#[test]
fn silent_keeps_the_value_and_drops_the_error() {
    let good: Result<i32, String> = Ok(3);
    let bad: Result<i32, String> = Err("no".to_string());
    assert_eq!(good.silent(), Some(3));
    assert_eq!(bad.silent(), None);
}

fn os_err(code: i32, name: &'static str, arg1: Option<&str>, arg2: Option<&str>) -> OsError<Utf8CStr> {
    OsError { code, name, arg1: arg1.map(p), arg2: arg2.map(p) }
}

#[test]
fn error_messages() {
    assert_eq!(error_message(&os_err(2, "lstat", Some("/a"), None)).as_str(), "lstat '/a': os error 2");
    assert_eq!(
        error_message(&os_err(17, "symlink", Some("/t"), Some("/l"))).as_str(),
        "symlink '/t' '/l': os error 17"
    );
    assert_eq!(error_message(&os_err(12, "mmap", None, None)).as_str(), "mmap: os error 12");
    assert_eq!(error_message(&os_err(12, "mmap", None, Some("/x"))).as_str(), "mmap: os error 12");
    assert_eq!(error_message(&os_err(5, "", Some("/a"), Some("/b"))).as_str(), "os error 5");
    assert_eq!(error_message(&os_err(-1, "x", None, None)).as_str(), "x: os error -1");
    assert_eq!(error_message(&os_err(5, "a\0b", Some("/a"), None)).as_str(), "os error 5");
}

#[test]
fn say_writes_a_line() {
    let logger = Logger { kmsg: 7, flags: 0 };
    let (calls, r) = script(vec![ok()], |io| say(&logger, LogLevel::Info, &p("First Stage Init"), io));
    assert_eq!(calls, vec![Syscall::WriteText(7, p("magiskinit: First Stage Init\n"))]);
    assert_eq!(r, Some(Ok(())));
    let off = Logger { kmsg: 7, flags: DISABLE_INFO };
    let (calls, r) = script(vec![], |io| say(&off, LogLevel::Info, &p("x"), io));
    assert!(calls.is_empty());
    assert_eq!(r, Some(Ok(())));
}

#[test]
fn log_failure_logs_only_failures() {
    let logger = Logger { kmsg: 7, flags: 0 };
    let (calls, r) = script(vec![ok()], |io| log_failure(&logger, p("/a").remove(io), io));
    assert_eq!(calls, vec![Syscall::Remove(p("/a"))]);
    assert_eq!(r, Some(Ok(true)));
    let (calls, r) = script(vec![fail(13), fail(5)], |io| log_failure(&logger, p("/a").remove(io), io));
    assert_eq!(
        calls,
        vec![Syscall::Remove(p("/a")), Syscall::WriteText(7, p("magiskinit: remove '/a': os error 13\n"))]
    );
    assert_eq!(r, Some(Ok(false)));
}
