//! The boot-stage orchestrator: from the first probe to the hand-over to
//! the original init.

use crate::OverlayAttr;
use crate::bootconfig::{bootconfig_pairs, cmdline_pairs, BootConfig, BootConfigView};
use crate::call::{check, close_with, run_call, run_close};
use crate::cstr::Utf8CStr;
use crate::dir::copy_to_run;
use crate::file::{exists_run, get_attr_run, mkdir_run, mkdirs_run, open_fd_run, set_attr_run};
use crate::known::Known;
use crate::logging::{
    log_failure, logged, say, say_run, setup_klog, setup_klog_run, LogLevel, Logger,
};
use crate::mapped::{map_file_at_run, unmap_run, MappedFile};
use crate::mount::{bind_mount_run, unmount_run};
use crate::sys::{
    attempt, forget, os_error, then, Next, OsError, Replay, Reply, Run, Step, Syscall, AT_FDCWD,
    O_APPEND, O_CLOEXEC, O_CREAT, O_RDONLY, O_WRONLY,
};
use crate::text::text_is;
use vstd::prelude::*;
use vstd::string::*;

verus! {

/// The strategies of a boot, of which exactly one is taken.
#[derive(Debug, Clone, Copy, PartialEq, Eq, Structural)]
pub enum Stage {
    SecondStage,
    LegacySystemAsRoot,
    FirstStage,
    Recovery,
    RootFS,
}

impl View for Stage {
    type V = Stage;

    open spec fn view(&self) -> Stage {
        *self
    }
}

/// The strategy for a boot: the first of these that applies. The second
/// argument of the process asks for the second stage; the configuration
/// skips the initramfs; the configuration forces a normal boot; there is a
/// recovery binary; the device boots in two stages.
pub open spec fn stage_for(
    selinux_setup: bool,
    skip_initramfs: bool,
    force_normal_boot: bool,
    recovery: bool,
    two_stage: bool,
) -> Stage {
    if selinux_setup {
        Stage::SecondStage
    } else if skip_initramfs {
        Stage::LegacySystemAsRoot
    } else if force_normal_boot {
        Stage::FirstStage
    } else if recovery {
        Stage::Recovery
    } else if two_stage {
        Stage::FirstStage
    } else {
        Stage::RootFS
    }
}

/// Selects the strategy for a boot.
pub fn dispatch(
    selinux_setup: bool,
    skip_initramfs: bool,
    force_normal_boot: bool,
    recovery: bool,
    two_stage: bool,
) -> (stage: Stage)
    ensures
        stage == stage_for(selinux_setup, skip_initramfs, force_normal_boot, recovery, two_stage),
{
    if selinux_setup {
        Stage::SecondStage
    } else if skip_initramfs {
        Stage::LegacySystemAsRoot
    } else if force_normal_boot {
        Stage::FirstStage
    } else if recovery {
        Stage::Recovery
    } else if two_stage {
        Stage::FirstStage
    } else {
        Stage::RootFS
    }
}

/// Whether the arguments of the process ask for the second stage.
pub open spec fn wants_second_stage(argv: Seq<Seq<char>>) -> bool {
    argv.len() > 1 && argv[1] == "selinux_setup"@
}

/// Whether a device boots in two stages. Every device is taken to.
pub open spec fn two_stage() -> bool {
    true
}

/// The mount of the filesystem `fstype` at `target`.
pub open spec fn mount_call(
    source: Seq<char>,
    target: Seq<char>,
    fstype: Seq<char>,
    data: Option<Seq<char>>,
) -> Syscall<Seq<char>> {
    Syscall::Mount { source, target, fstype: Some(fstype), flags: 0, data }
}

/// Makes sure that the filesystem `fs` is mounted at `dir`: where `probe`
/// does not exist, `dir` is made and the filesystem mounted. The result
/// tells whether it was mounted here. A failure of either step ends the
/// run.
pub open spec fn ensure_mounted_run(
    probe: Seq<char>,
    dir: Seq<char>,
    fs: Seq<char>,
    seen: Seq<Reply>,
    at: int,
) -> Run<bool> {
    then(
        exists_run(probe, false, seen, at),
        |there: bool, at1: int|
            if there {
                (Step::Done(Ok(false)), at1)
            } else {
                then(
                    mkdir_run(dir, 0o755, seen, at1),
                    |u: (), at2: int|
                        then(
                            run_call(mount_call(fs, dir, fs, None), "", None, None, seen, at2),
                            |ret: i64, at3: int| (Step::Done(Ok(true)), at3),
                        ),
                )
            },
    )
}

/// An operation of one call that is answered with the text of a file.
pub open spec fn read_file_run(path: Seq<char>, seen: Seq<Reply>, at: int) -> Run<Seq<char>> {
    if at < 0 || at >= seen.len() {
        (Step::Call(Syscall::ReadFile(path)), at)
    } else {
        match seen[at].content() {
            Ok(text) => (Step::Done(Ok(text)), at + 1),
            Err(code) => (Step::Done(Err(os_error(code, "read", Some(path), None))), at + 1),
        }
    }
}

/// Loads the boot configuration: the kernel command line first, then the
/// boot configuration file. Without either there is no configuration, and
/// the run ends.
pub open spec fn load_config_run(seen: Seq<Reply>, at: int) -> Run<BootConfigView> {
    then(
        read_file_run("/proc/cmdline"@, seen, at),
        |cmdline: Seq<char>, at1: int|
            then(
                read_file_run("/proc/bootconfig"@, seen, at1),
                |bootconfig: Seq<char>, at2: int|
                    (
                        Step::Done(
                            Ok(
                                BootConfigView::empty().apply_all(cmdline_pairs(cmdline)).apply_all(
                                    bootconfig_pairs(bootconfig),
                                ),
                            ),
                        ),
                        at2,
                    ),
            ),
    )
}

/// What the log says of the configuration.
pub open spec fn config_text(cfg: BootConfigView) -> Seq<char> {
    "skip_initramfs=["@ + (if cfg.skip_initramfs {
        "true"@
    } else {
        "false"@
    }) + "]"@
}

/// Logs the configuration.
pub open spec fn print_config_run(
    logger: Logger,
    cfg: BootConfigView,
    seen: Seq<Reply>,
    at: int,
) -> Run<()> {
    then(
        say_run(logger, LogLevel::Info, "Device config:\n"@, seen, at),
        |u: (), at1: int| say_run(logger, LogLevel::Info, config_text(cfg), seen, at1),
    )
}

/// Finds out whether a recovery binary exists, at one of its two places.
pub open spec fn probe_recovery_run(seen: Seq<Reply>, at: int) -> Run<bool> {
    then(
        exists_run("/sbin/recovery"@, false, seen, at),
        |there: bool, at1: int|
            if there {
                (Step::Done(Ok(true)), at1)
            } else {
                exists_run("/system/bin/recovery"@, false, seen, at1)
            },
    )
}

/// Selects the strategy. The recovery binary is looked for only where the
/// choice depends on it.
pub open spec fn select_stage_run(
    selinux_setup: bool,
    cfg: BootConfigView,
    seen: Seq<Reply>,
    at: int,
) -> Run<Stage> {
    if selinux_setup || cfg.skip_initramfs || cfg.force_normal_boot {
        (
            Step::Done(
                Ok(
                    stage_for(
                        selinux_setup,
                        cfg.skip_initramfs,
                        cfg.force_normal_boot,
                        false,
                        two_stage(),
                    ),
                ),
            ),
            at,
        )
    } else {
        then(
            probe_recovery_run(seen, at),
            |recovery: bool, at1: int|
                (Step::Done(Ok(stage_for(false, false, false, recovery, two_stage()))), at1),
        )
    }
}

/// Unmounts `mounts[k - 1]`, then the ones before it, last first. A
/// failure is logged, and stops nothing.
pub open spec fn unwind_run(
    mounts: Seq<Seq<char>>,
    k: int,
    logger: Logger,
    seen: Seq<Reply>,
    at: int,
) -> Run<()>
    decreases k,
{
    if k <= 0 || k > mounts.len() {
        (Step::Done(Ok(())), at)
    } else {
        let one = logged(unmount_run(mounts[k - 1], seen, at), logger, seen);
        match one.0 {
            Step::Call(c) => (Step::Call(c), one.1),
            Step::Done(_) => unwind_run(mounts, k - 1, logger, seen, one.1),
        }
    }
}

/// What [`exec_init`] does: it unmounts what this run has mounted, last
/// first, and executes the original init. Should that return, the failure
/// is logged and the process is to exit with status 1.
pub open spec fn exec_init_run(
    mounts: Seq<Seq<char>>,
    logger: Logger,
    seen: Seq<Reply>,
    at: int,
) -> Run<i32> {
    attempt(
        unwind_run(mounts, mounts.len() as int, logger, seen, at),
        |unwound: bool, at1: int|
            then(
                logged(
                    run_call(Syscall::Execve("/init"@), "", None, None, seen, at1),
                    logger,
                    seen,
                ),
                |executed: bool, at2: int| (Step::Done(Ok(1i32)), at2),
            ),
    )
}

/// What [`prepare_data`] does: it makes `/data`, mounts a tmpfs there and
/// copies this program into it. A failure is logged, and none can fail the
/// run. The result tells whether the tmpfs was mounted.
pub open spec fn prepare_data_run(logger: Logger, seen: Seq<Reply>, at: int) -> Run<bool> {
    then(
        logged(mkdir_run("/data"@, 0o755, seen, at), logger, seen),
        |made: bool, at1: int|
            then(
                logged(
                    run_call(
                        mount_call("magisk"@, "/data"@, "tmpfs"@, Some("mode=755"@)),
                        "",
                        None,
                        None,
                        seen,
                        at1,
                    ),
                    logger,
                    seen,
                ),
                |mounted: bool, at2: int|
                    then(
                        logged(copy_to_run("/init"@, "/data/magiskinit"@, seen, at2), logger, seen),
                        |copied: bool, at3: int| (Step::Done(Ok(mounted)), at3),
                    ),
            ),
    )
}

/// Creates the file at `path`, should there be none, and closes it at once.
pub open spec fn touch_run(path: Seq<char>, seen: Seq<Reply>, at: int) -> Run<()> {
    let opened = open_fd_run(path, O_CREAT | (O_RDONLY | O_CREAT | O_CLOEXEC), 0, seen, at);
    match opened.0 {
        Step::Call(c) => (Step::Call(c), opened.1),
        Step::Done(Err(e)) => (Step::Done(Err(e)), opened.1),
        Step::Done(Ok(fd)) => run_close(fd, Ok(()), seen, opened.1),
    }
}

/// The symbolic link at `link` to the place where the init of the second
/// stage is before the roots are switched.
pub open spec fn link_primary_run(link: Seq<char>, seen: Seq<Reply>, at: int) -> Run<()> {
    forget(
        run_call(
            Syscall::Symlink { target: "/system/system/bin/init"@, link },
            "symlink",
            Some("/system/system/bin/init"@),
            Some(link),
            seen,
            at,
        ),
    )
}

/// What [`hijack_init_with_switch_root`] does. The original init moves
/// every mount under the new root and enters it. So this program is
/// mounted on `/sdcard`, which in the new root is a link to
/// `/storage/self/primary`; that is made a link to where the init of the
/// second stage will be, and the move puts this program in its place.
/// Where a normal boot is forced, the original init works below the first
/// stage ramdisk, and so does this. A failure is logged, and none can fail
/// the run.
pub open spec fn hijack_run(
    force_normal_boot: bool,
    logger: Logger,
    seen: Seq<Reply>,
    at: int,
) -> Run<()> {
    let prepared: Run<bool> = if force_normal_boot {
        then(
            logged(mkdirs_run("/first_stage_ramdisk/storage/self"@, 0o755, seen, at), logger, seen),
            |made: bool, at1: int|
                then(
                    logged(
                        link_primary_run("/first_stage_ramdisk/storage/self/primary"@, seen, at1),
                        logger,
                        seen,
                    ),
                    |linked: bool, at2: int|
                        logged(touch_run("/first_stage_ramdisk/sdcard"@, seen, at2), logger, seen),
                ),
        )
    } else {
        then(
            logged(mkdirs_run("/storage/self"@, 0o755, seen, at), logger, seen),
            |made: bool, at1: int|
                logged(link_primary_run("/storage/self/primary"@, seen, at1), logger, seen),
        )
    };
    then(
        prepared,
        |ok: bool, at1: int|
            then(
                logged(
                    run_call(
                        Syscall::Rename("/init"@, "/sdcard"@),
                        "rename",
                        Some("/init"@),
                        Some("/sdcard"@),
                        seen,
                        at1,
                    ),
                    logger,
                    seen,
                ),
                |renamed: bool, at2: int|
                    attempt(
                        bind_mount_run("/sdcard"@, "/sdcard"@, false, seen, at2),
                        |bound: bool, at3: int|
                            if bound {
                                (Step::Done(Ok(())), at3)
                            } else {
                                forget(
                                    logged(
                                        bind_mount_run(
                                            "/data/magiskinit"@,
                                            "/sdcard"@,
                                            false,
                                            seen,
                                            at3,
                                        ),
                                        logger,
                                        seen,
                                    ),
                                )
                            },
                    ),
            ),
    )
}

/// What [`restore_ramdisk_init`] does: `/init` becomes the original init
/// again. Where no copy of it was kept, the ramdisk never had one, and
/// `/init` becomes a link to the init of the system. A failure of either is
/// logged, and none can fail the run.
pub open spec fn restore_init_run(logger: Logger, seen: Seq<Reply>, at: int) -> Run<()> {
    attempt(
        run_call(Syscall::Remove("/init"@), "remove", Some("/init"@), None, seen, at),
        |removed: bool, at1: int|
            then(
                exists_run("init_back"@, false, seen, at1),
                |kept: bool, at2: int|
                    forget(
                        logged(
                            if kept {
                                run_call(
                                    Syscall::Rename("init_back"@, "/init"@),
                                    "rename",
                                    Some("init_back"@),
                                    Some("/init"@),
                                    seen,
                                    at2,
                                )
                            } else {
                                run_call(
                                    Syscall::Symlink { target: "/system/bin/init"@, link: "/init"@ },
                                    "symlink",
                                    Some("/system/bin/init"@),
                                    Some("/init"@),
                                    seen,
                                    at2,
                                )
                            },
                            logger,
                            seen,
                        ),
                    ),
            ),
    )
}

/// The steps of [`replace_init_run`] on the open file `fd`: the first that
/// fails ends them.
pub open spec fn replace_init_steps_run(
    map: MappedFile,
    fd: i32,
    seen: Seq<Reply>,
    at: int,
) -> Run<()> {
    then(
        run_call(
            Syscall::WriteMapped { fd, addr: map.addr, len: map.len },
            "",
            None,
            None,
            seen,
            at,
        ),
        |ret: i64, at1: int|
            then(
                get_attr_run("/init"@, true, seen, at1),
                |attr: crate::file::FileAttr<Seq<char>>, at2: int|
                    then(
                        set_attr_run("/data/init"@, attr, seen, at2),
                        |u: (), at3: int| bind_mount_run("/data/init"@, "/init"@, false, seen, at3),
                    ),
            ),
    )
}

/// Puts a patched copy of `/init`, which is mapped at `map`, in the place
/// of `/init`: the bytes are written to `/data/init`, that file gets the
/// attributes of `/init` and is mounted over it. The first step that fails
/// is logged and ends this; the file is closed in any case. Nothing of it
/// can fail the run.
pub open spec fn replace_init_run(
    map: MappedFile,
    logger: Logger,
    seen: Seq<Reply>,
    at: int,
) -> Run<()> {
    let opened = open_fd_run("/data/init"@, O_CREAT | (O_CREAT | O_WRONLY), 0, seen, at);
    match opened.0 {
        Step::Done(Ok(fd)) => then(
            logged(replace_init_steps_run(map, fd, seen, opened.1), logger, seen),
            |replaced: bool, at1: int| run_close(fd, Ok(()), seen, at1),
        ),
        _ => forget(logged(opened, logger, seen)),
    }
}

/// What [`hexpatch_init_for_second_stage`] does: in the image of `/init`,
/// the path of the init of the second stage is replaced by the path of
/// this program. Where `/init` cannot be written, a patched copy is mounted
/// over it. Where `/init` cannot be mapped, that is logged and nothing is
/// done. Nothing of this can fail the run.
pub open spec fn hexpatch_run(
    writable: bool,
    logger: Logger,
    seen: Seq<Reply>,
    at: int,
) -> Run<()> {
    let mapped = map_file_at_run(AT_FDCWD, "/init"@, writable, seen, at);
    match mapped.0 {
        Step::Call(c) => (Step::Call(c), mapped.1),
        Step::Done(Err(_)) => say_run(
            logger,
            LogLevel::Info,
            "Failed to open /init for hexpatch"@,
            seen,
            mapped.1,
        ),
        Step::Done(Ok(map)) => attempt(
            run_call(
                Syscall::PatchMapped {
                    addr: map.addr,
                    len: map.len,
                    from: "/system/bin/init"@,
                    to: "/data/magiskinit"@,
                },
                "patch",
                None,
                None,
                seen,
                mapped.1,
            ),
            |patched: bool, at1: int|
                attempt(
                    if writable {
                        (Step::Done(Ok(())), at1)
                    } else {
                        replace_init_run(map, logger, seen, at1)
                    },
                    |replaced: bool, at2: int| unmap_run(map, seen, at2),
                ),
        ),
    }
}

/// Finds out whether the mount point that the switch of roots would move
/// exists already, at one of its two places.
pub open spec fn probe_sdcard_run(seen: Seq<Reply>, at: int) -> Run<bool> {
    then(
        exists_run("/sdcard"@, false, seen, at),
        |there: bool, at1: int|
            if there {
                (Step::Done(Ok(true)), at1)
            } else {
                exists_run("/first_stage_ramdisk/sdcard"@, false, seen, at1)
            },
    )
}

/// What the first stage does. The result tells whether `/data` was
/// mounted. Where `/sdcard` exists before the switch of roots, the root is
/// not switched, and the image of the original init is patched instead,
/// once it is back in its place.
pub open spec fn first_stage_run(
    force_normal_boot: bool,
    logger: Logger,
    seen: Seq<Reply>,
    at: int,
) -> Run<bool> {
    then(
        say_run(logger, LogLevel::Info, "First Stage Init"@, seen, at),
        |u: (), at0: int|
            then(
                prepare_data_run(logger, seen, at0),
                |mounted: bool, at1: int|
                    then(
                        probe_sdcard_run(seen, at1),
                        |there: bool, at2: int|
                            if !there {
                                then(
                                    hijack_run(force_normal_boot, logger, seen, at2),
                                    |u: (), at3: int|
                                        then(
                                            restore_init_run(logger, seen, at3),
                                            |u: (), at4: int| (Step::Done(Ok(mounted)), at4),
                                        ),
                                )
                            } else {
                                then(
                                    say_run(
                                        logger,
                                        LogLevel::Info,
                                        "First Stage start error, /sdcard or /first_stage_ramdisk/sdcard is exits"@,
                                        seen,
                                        at2,
                                    ),
                                    |u: (), at3: int|
                                        then(
                                            restore_init_run(logger, seen, at3),
                                            |u: (), at4: int|
                                                then(
                                                    hexpatch_run(true, logger, seen, at4),
                                                    |u: (), at5: int|
                                                        (Step::Done(Ok(mounted)), at5),
                                                ),
                                        ),
                                )
                            },
                    ),
            ),
    )
}

/// The boot script of the system.
pub open spec fn init_rc() -> Seq<char> {
    "/system/etc/init/hw/init.rc"@
}

/// The line that marks a patched boot script.
pub open spec fn marker_line() -> Seq<char> {
    "#rzxrzfewfewfewf\n"@
}

/// Appends the marker line to the boot script. Only that the script cannot
/// be opened ends the run.
pub open spec fn mark_script_run(seen: Seq<Reply>, at: int) -> Run<()> {
    then(
        open_fd_run(init_rc(), O_WRONLY | O_APPEND | O_CLOEXEC, 0, seen, at),
        |fd: i32, at1: int|
            attempt(
                run_call(Syscall::WriteText(fd, marker_line()), "write", None, None, seen, at1),
                |written: bool, at2: int| run_close(fd, Ok(()), seen, at2),
            ),
    )
}

/// What [`patch_ro_root`] does: where the boot script exists, it is copied
/// to `/data/init.rc`, the copy is mounted over the script, and the
/// marker line is appended. Where it does not exist, nothing is done. That
/// the copy fails is logged.
pub open spec fn patch_ro_root_run(logger: Logger, seen: Seq<Reply>, at: int) -> Run<()> {
    then(
        exists_run(init_rc(), false, seen, at),
        |there: bool, at1: int|
            if !there {
                (Step::Done(Ok(())), at1)
            } else {
                then(
                    logged(copy_to_run(init_rc(), "/data/init.rc"@, seen, at1), logger, seen),
                    |copied: bool, at2: int|
                        attempt(
                            bind_mount_run("/data/init.rc"@, init_rc(), false, seen, at2),
                            |bound: bool, at3: int|
                                if bound {
                                    mark_script_run(seen, at3)
                                } else {
                                    (Step::Done(Ok(())), at3)
                                },
                        ),
                )
            },
    )
}

/// What the second stage does: it unmounts the init image that runs,
/// removes the staging file, makes the process show as the init of the
/// system, and patches the boot script.
pub open spec fn second_stage_run(logger: Logger, seen: Seq<Reply>, at: int) -> Run<()> {
    then(
        say_run(logger, LogLevel::Info, "Second Stage Init"@, seen, at),
        |u: (), at0: int|
            attempt(
                unmount_run("/init"@, seen, at0),
                |a: bool, at1: int|
                    attempt(
                        unmount_run("/system/bin/init"@, seen, at1),
                        |b: bool, at2: int|
                            attempt(
                                run_call(
                                    Syscall::Remove("/data/init"@),
                                    "remove",
                                    Some("/data/init"@),
                                    None,
                                    seen,
                                    at2,
                                ),
                                |c: bool, at3: int|
                                    attempt(
                                        run_call(
                                            Syscall::SetArgv0("/system/bin/init"@),
                                            "argv",
                                            None,
                                            None,
                                            seen,
                                            at3,
                                        ),
                                        |d: bool, at4: int| patch_ro_root_run(logger, seen, at4),
                                    ),
                            ),
                    ),
            ),
    )
}

/// What the strategies do that this program declines to apply: nothing.
pub open spec fn idle_run(seen: Seq<Reply>, at: int) -> Run<()> {
    (Step::Done(Ok(())), at)
}

/// Carries out the strategy `stage`. The result tells whether `/data` is
/// to be unmounted before the hand-over. The strategies other than the two
/// stages do nothing.
pub open spec fn stage_run(
    stage: Stage,
    cfg: BootConfigView,
    logger: Logger,
    seen: Seq<Reply>,
    at: int,
) -> Run<bool> {
    match stage {
        Stage::SecondStage => then(
            second_stage_run(logger, seen, at),
            |u: (), at1: int| (Step::Done(Ok(true)), at1),
        ),
        Stage::FirstStage => first_stage_run(cfg.force_normal_boot, logger, seen, at),
        _ => then(idle_run(seen, at), |u: (), at1: int| (Step::Done(Ok(false)), at1)),
    }
}

/// The mounts to undo before the hand-over, in the order in which they
/// were made.
pub open spec fn mount_list(proc: bool, sys: bool, data: bool) -> Seq<Seq<char>> {
    (if proc {
        seq!["/proc"@]
    } else {
        Seq::empty()
    }) + (if sys {
        seq!["/sys"@]
    } else {
        Seq::empty()
    }) + (if data {
        seq!["/data"@]
    } else {
        Seq::empty()
    })
}

/// What [`MagiskInit::start`] does for a process with the arguments
/// `argv`, when `mounts` are recorded already. The result is the exit
/// status for the process, which it needs only where the original init
/// could not be executed.
pub open spec fn start_run(
    argv: Seq<Seq<char>>,
    mounts: Seq<Seq<char>>,
    seen: Seq<Reply>,
    at: int,
) -> Run<i32> {
    then(
        ensure_mounted_run("/proc/cmdline"@, "/proc"@, "proc"@, seen, at),
        |proc: bool, at1: int|
            then(
                ensure_mounted_run("/sys/block"@, "/sys"@, "sysfs"@, seen, at1),
                |sys: bool, at2: int|
                    then(
                        setup_klog_run(seen, at2),
                        |logger: Logger, at3: int|
                            then(
                                load_config_run(seen, at3),
                                |cfg: BootConfigView, at4: int|
                                    then(
                                        print_config_run(logger, cfg, seen, at4),
                                        |u: (), at5: int|
                                            then(
                                                select_stage_run(
                                                    wants_second_stage(argv),
                                                    cfg,
                                                    seen,
                                                    at5,
                                                ),
                                                |stage: Stage, at6: int|
                                                    then(
                                                        stage_run(stage, cfg, logger, seen, at6),
                                                        |data: bool, at7: int|
                                                            exec_init_run(
                                                                mounts + mount_list(
                                                                    proc,
                                                                    sys,
                                                                    data,
                                                                ),
                                                                logger,
                                                                seen,
                                                                at7,
                                                            ),
                                                    ),
                                            ),
                                    ),
                            ),
                    ),
            ),
    )
}

fn ensure_mounted(
    probe: &Utf8CStr,
    dir: &Utf8CStr,
    fs: &Utf8CStr,
    io: &mut Replay,
) -> (next: Next<bool>)
    ensures
        final(io).served(*old(io), next),
        (next@, final(io).at as int) == ensure_mounted_run(
            probe@,
            dir@,
            fs@,
            old(io).seen@,
            old(io).at as int,
        ),
{
    let there = match probe.path_exists(io) {
        Step::Done(Ok(there)) => there,
        Step::Done(Err(e)) => return Step::Done(Err(e)),
        Step::Call(c) => return Step::Call(c),
    };
    if there {
        return Step::Done(Ok(false));
    }
    match dir.mkdir(0o755, io) {
        Step::Done(Ok(_)) => {},
        Step::Done(Err(e)) => return Step::Done(Err(e)),
        Step::Call(c) => return Step::Call(c),
    }
    let mount = Syscall::Mount {
        source: fs.clone(),
        target: dir.clone(),
        fstype: Some(fs.clone()),
        flags: 0,
        data: None,
    };
    match check(io, mount, "", None, None) {
        Step::Done(Ok(_)) => Step::Done(Ok(true)),
        Step::Done(Err(e)) => Step::Done(Err(e)),
        Step::Call(c) => Step::Call(c),
    }
}

fn read_file<'a>(path: &Utf8CStr, io: &mut Replay<'a>) -> (next: Next<&'a str>)
    ensures
        final(io).served(*old(io), next),
        (next@, final(io).at as int) == read_file_run(path@, old(io).seen@, old(io).at as int),
{
    match io.next() {
        None => Step::Call(Syscall::ReadFile(path.clone())),
        Some(reply) => match reply.get_content() {
            Ok(text) => Step::Done(Ok(text)),
            Err(code) => Step::Done(
                Err(OsError { code, name: "read", arg1: Some(path.clone()), arg2: None }),
            ),
        },
    }
}

/// Loads the boot configuration.
pub fn load_config(io: &mut Replay) -> (next: Next<BootConfig>)
    ensures
        final(io).served(*old(io), next),
        (next@, final(io).at as int) == load_config_run(old(io).seen@, old(io).at as int),
{
    let cmdline = match read_file(&Known::proc_cmdline(), io) {
        Step::Done(Ok(text)) => text,
        Step::Done(Err(e)) => return Step::Done(Err(e)),
        Step::Call(c) => return Step::Call(c),
    };
    let bootconfig = match read_file(&Known::proc_bootconfig(), io) {
        Step::Done(Ok(text)) => text,
        Step::Done(Err(e)) => return Step::Done(Err(e)),
        Step::Call(c) => return Step::Call(c),
    };
    let mut cfg = BootConfig::new();
    cfg.init(cmdline, bootconfig);
    Step::Done(Ok(cfg))
}

/// Logs the configuration.
pub fn print_config(logger: &Logger, cfg: &BootConfig, io: &mut Replay) -> (next: Next<()>)
    ensures
        final(io).served(*old(io), next),
        (next@, final(io).at as int) == print_config_run(
            *logger,
            cfg@,
            old(io).seen@,
            old(io).at as int,
        ),
{
    match say(logger, LogLevel::Info, &Known::says_config(), io) {
        Step::Done(Ok(_)) => {},
        other => return other,
    }
    proof {
        reveal_strlit("skip_initramfs=[");
        reveal_strlit("true");
        reveal_strlit("false");
        reveal_strlit("]");
    }
    let mut text = Utf8CStr::from_text("skip_initramfs=[");
    if cfg.skip_initramfs {
        text.push_str(&Utf8CStr::from_text("true"));
    } else {
        text.push_str(&Utf8CStr::from_text("false"));
    }
    text.push_str(&Utf8CStr::from_text("]"));
    say(logger, LogLevel::Info, &text, io)
}

fn probe_recovery(io: &mut Replay) -> (next: Next<bool>)
    ensures
        final(io).served(*old(io), next),
        (next@, final(io).at as int) == probe_recovery_run(old(io).seen@, old(io).at as int),
{
    match Known::sbin_recovery().path_exists(io) {
        Step::Done(Ok(true)) => Step::Done(Ok(true)),
        Step::Done(Ok(false)) => Known::system_recovery().path_exists(io),
        other => other,
    }
}

/// Whether the device boots in two stages.
pub fn check_two_stage() -> (r: bool)
    ensures
        r == two_stage(),
{
    true
}

/// Selects the strategy of this boot.
pub fn select_stage(selinux_setup: bool, cfg: &BootConfig, io: &mut Replay) -> (next: Next<Stage>)
    ensures
        final(io).served(*old(io), next),
        (next@, final(io).at as int) == select_stage_run(
            selinux_setup,
            cfg@,
            old(io).seen@,
            old(io).at as int,
        ),
{
    if selinux_setup || cfg.skip_initramfs || cfg.force_normal_boot {
        return Step::Done(
            Ok(
                dispatch(
                    selinux_setup,
                    cfg.skip_initramfs,
                    cfg.force_normal_boot,
                    false,
                    check_two_stage(),
                ),
            ),
        );
    }
    match probe_recovery(io) {
        Step::Done(Ok(recovery)) => Step::Done(
            Ok(dispatch(false, false, false, recovery, check_two_stage())),
        ),
        Step::Done(Err(e)) => Step::Done(Err(e)),
        Step::Call(c) => Step::Call(c),
    }
}

/// Unmounts what this run has mounted, last first, and executes the
/// original init.
pub fn exec_init(logger: &Logger, mounts: &Vec<Utf8CStr>, io: &mut Replay) -> (next: Next<i32>)
    ensures
        final(io).served(*old(io), next),
        (next@, final(io).at as int) == exec_init_run(
            crate::file::paths_view(mounts@),
            *logger,
            old(io).seen@,
            old(io).at as int,
        ),
{
    let ghost paths = crate::file::paths_view(mounts@);
    let mut k: usize = mounts.len();
    while k > 0
        invariant
            k <= mounts@.len(),
            paths == crate::file::paths_view(mounts@),
            io.follows(*old(io)),
            unwind_run(paths, paths.len() as int, *logger, old(io).seen@, old(io).at as int)
                == unwind_run(paths, k as int, *logger, io.seen@, io.at as int),
        decreases k,
    {
        let unmounted = mounts[k - 1].unmount(io);
        match log_failure(logger, unmounted, io) {
            Step::Done(_) => {},
            Step::Call(c) => return Step::Call(c),
        }
        k = k - 1;
    }
    let executed = check(io, Syscall::Execve(Known::init()), "", None, None);
    match log_failure(logger, executed, io) {
        Step::Done(_) => Step::Done(Ok(1)),
        Step::Call(c) => Step::Call(c),
    }
}

/// Sets up the staging area.
pub fn prepare_data(logger: &Logger, io: &mut Replay) -> (next: Next<bool>)
    ensures
        final(io).served(*old(io), next),
        (next@, final(io).at as int) == prepare_data_run(*logger, old(io).seen@, old(io).at as int),
{
    let made = Known::data().mkdir(0o755, io);
    match log_failure(logger, made, io) {
        Step::Done(_) => {},
        Step::Call(c) => return Step::Call(c),
    }
    let mount = Syscall::Mount {
        source: Known::magisk(),
        target: Known::data(),
        fstype: Some(Known::tmpfs()),
        flags: 0,
        data: Some(Known::mode_755()),
    };
    let tried = check(io, mount, "", None, None);
    let mounted = match log_failure(logger, tried, io) {
        Step::Done(Ok(mounted)) => mounted,
        Step::Done(Err(e)) => return Step::Done(Err(e)),
        Step::Call(c) => return Step::Call(c),
    };
    let copied = Known::init().copy_to(&Known::data_magiskinit(), io);
    match log_failure(logger, copied, io) {
        Step::Done(Ok(_)) => Step::Done(Ok(mounted)),
        other => other,
    }
}

fn touch(path: &Utf8CStr, io: &mut Replay) -> (next: Next<()>)
    ensures
        final(io).served(*old(io), next),
        (next@, final(io).at as int) == touch_run(path@, old(io).seen@, old(io).at as int),
{
    match path.create(O_RDONLY | O_CREAT | O_CLOEXEC, 0, io) {
        Step::Done(Ok(fd)) => close_with(io, fd, Ok(())),
        Step::Done(Err(e)) => Step::Done(Err(e)),
        Step::Call(c) => Step::Call(c),
    }
}

fn link_primary(link: &Utf8CStr, io: &mut Replay) -> (next: Next<()>)
    ensures
        final(io).served(*old(io), next),
        (next@, final(io).at as int) == link_primary_run(link@, old(io).seen@, old(io).at as int),
{
    link.create_symlink_to(&Known::switched_init(), io)
}

/// Arranges for the original init to mount this program in the place of
/// the init of the second stage.
pub fn hijack_init_with_switch_root(
    logger: &Logger,
    force_normal_boot: bool,
    io: &mut Replay,
) -> (next: Next<()>)
    ensures
        final(io).served(*old(io), next),
        (next@, final(io).at as int) == hijack_run(
            force_normal_boot,
            *logger,
            old(io).seen@,
            old(io).at as int,
        ),
{
    if force_normal_boot {
        let made = Known::ramdisk_storage_self().mkdirs(0o755, io);
        match log_failure(logger, made, io) {
            Step::Done(_) => {},
            Step::Call(c) => return Step::Call(c),
        }
        let linked = link_primary(&Known::ramdisk_primary(), io);
        match log_failure(logger, linked, io) {
            Step::Done(_) => {},
            Step::Call(c) => return Step::Call(c),
        }
        let touched = touch(&Known::ramdisk_sdcard(), io);
        match log_failure(logger, touched, io) {
            Step::Done(_) => {},
            Step::Call(c) => return Step::Call(c),
        }
    } else {
        let made = Known::storage_self().mkdirs(0o755, io);
        match log_failure(logger, made, io) {
            Step::Done(_) => {},
            Step::Call(c) => return Step::Call(c),
        }
        let linked = link_primary(&Known::primary(), io);
        match log_failure(logger, linked, io) {
            Step::Done(_) => {},
            Step::Call(c) => return Step::Call(c),
        }
    }
    let renamed = Known::init().rename_to(&Known::sdcard(), io);
    match log_failure(logger, renamed, io) {
        Step::Done(_) => {},
        Step::Call(c) => return Step::Call(c),
    }
    // Mounting from the root filesystem first works around a kernel protection.
    let bound = match Known::sdcard().bind_mount_to(&Known::sdcard(), false, io) {
        Step::Done(r) => r.is_ok(),
        Step::Call(c) => return Step::Call(c),
    };
    if bound {
        return Step::Done(Ok(()));
    }
    // Old kernels cannot bind mount from the root filesystem.
    let again = Known::data_magiskinit().bind_mount_to(&Known::sdcard(), false, io);
    match log_failure(logger, again, io) {
        Step::Done(_) => Step::Done(Ok(())),
        Step::Call(c) => Step::Call(c),
    }
}

/// Puts the original init back in its place.
pub fn restore_ramdisk_init(logger: &Logger, io: &mut Replay) -> (next: Next<()>)
    ensures
        final(io).served(*old(io), next),
        (next@, final(io).at as int) == restore_init_run(*logger, old(io).seen@, old(io).at as int),
{
    match Known::init().remove(io) {
        Step::Done(_) => {},
        Step::Call(c) => return Step::Call(c),
    }
    let kept = match Known::init_back().path_exists(io) {
        Step::Done(Ok(kept)) => kept,
        Step::Done(Err(e)) => return Step::Done(Err(e)),
        Step::Call(c) => return Step::Call(c),
    };
    let restored = if kept {
        Known::init_back().rename_to(&Known::init(), io)
    } else {
        // The ramdisk was made without an init of its own: the real one is that of the system.
        Known::init().create_symlink_to(&Known::system_init(), io)
    };
    match log_failure(logger, restored, io) {
        Step::Done(_) => Step::Done(Ok(())),
        Step::Call(c) => Step::Call(c),
    }
}

fn replace_init_steps(map: &MappedFile, fd: i32, io: &mut Replay) -> (next: Next<()>)
    ensures
        final(io).served(*old(io), next),
        (next@, final(io).at as int) == replace_init_steps_run(
            *map,
            fd,
            old(io).seen@,
            old(io).at as int,
        ),
{
    match check(io, Syscall::WriteMapped { fd, addr: map.addr, len: map.len }, "", None, None) {
        Step::Done(Ok(_)) => {},
        other => return other,
    }
    let attr = match Known::init().follow_link().get_attr(io) {
        Step::Done(Ok(attr)) => attr,
        Step::Done(Err(e)) => return Step::Done(Err(e)),
        Step::Call(c) => return Step::Call(c),
    };
    match Known::data_init().set_attr(&attr, io) {
        Step::Done(Ok(_)) => {},
        other => return other,
    }
    Known::data_init().bind_mount_to(&Known::init(), false, io)
}

fn replace_init(logger: &Logger, map: &MappedFile, io: &mut Replay) -> (next: Next<()>)
    ensures
        final(io).served(*old(io), next),
        (next@, final(io).at as int) == replace_init_run(
            *map,
            *logger,
            old(io).seen@,
            old(io).at as int,
        ),
{
    let opened = Known::data_init().create(O_CREAT | O_WRONLY, 0, io);
    let fd = match opened {
        Step::Done(Ok(fd)) => fd,
        other => {
            return match log_failure(logger, other, io) {
                Step::Done(_) => Step::Done(Ok(())),
                Step::Call(c) => Step::Call(c),
            };
        },
    };
    let replaced = replace_init_steps(map, fd, io);
    match log_failure(logger, replaced, io) {
        Step::Done(_) => close_with(io, fd, Ok(())),
        Step::Call(c) => Step::Call(c),
    }
}

/// Redirects the original init to this program by patching its image.
pub fn hexpatch_init_for_second_stage(
    logger: &Logger,
    writable: bool,
    io: &mut Replay,
) -> (next: Next<()>)
    ensures
        final(io).served(*old(io), next),
        (next@, final(io).at as int) == hexpatch_run(
            writable,
            *logger,
            old(io).seen@,
            old(io).at as int,
        ),
{
    let mapped = if writable {
        MappedFile::open_rw(&Known::init(), io)
    } else {
        MappedFile::open(&Known::init(), io)
    };
    let map = match mapped {
        Step::Done(Ok(map)) => map,
        Step::Done(Err(_)) => return say(logger, LogLevel::Info, &Known::says_no_image(), io),
        Step::Call(c) => return Step::Call(c),
    };
    let patch = Syscall::PatchMapped {
        addr: map.addr,
        len: map.len,
        from: Known::system_init(),
        to: Known::data_magiskinit(),
    };
    match check(io, patch, "patch", None, None) {
        Step::Done(_) => {},
        Step::Call(c) => return Step::Call(c),
    }
    if !writable {
        // The image cannot be changed in place, so a changed copy is mounted over it.
        match replace_init(logger, &map, io) {
            Step::Done(_) => {},
            Step::Call(c) => return Step::Call(c),
        }
    }
    map.unmap(io)
}

fn probe_sdcard(io: &mut Replay) -> (next: Next<bool>)
    ensures
        final(io).served(*old(io), next),
        (next@, final(io).at as int) == probe_sdcard_run(old(io).seen@, old(io).at as int),
{
    match Known::sdcard().path_exists(io) {
        Step::Done(Ok(true)) => Step::Done(Ok(true)),
        Step::Done(Ok(false)) => Known::ramdisk_sdcard().path_exists(io),
        other => other,
    }
}

/// The first stage: this program is staged, and the original init is led
/// to put it in the place of the init of the second stage.
pub fn first_stage(logger: &Logger, force_normal_boot: bool, io: &mut Replay) -> (next: Next<bool>)
    ensures
        final(io).served(*old(io), next),
        (next@, final(io).at as int) == first_stage_run(
            force_normal_boot,
            *logger,
            old(io).seen@,
            old(io).at as int,
        ),
{
    match say(logger, LogLevel::Info, &Known::says_first_stage(), io) {
        Step::Done(Ok(_)) => {},
        Step::Done(Err(e)) => return Step::Done(Err(e)),
        Step::Call(c) => return Step::Call(c),
    }
    let mounted = match prepare_data(logger, io) {
        Step::Done(Ok(mounted)) => mounted,
        Step::Done(Err(e)) => return Step::Done(Err(e)),
        Step::Call(c) => return Step::Call(c),
    };
    let there = match probe_sdcard(io) {
        Step::Done(Ok(there)) => there,
        Step::Done(Err(e)) => return Step::Done(Err(e)),
        Step::Call(c) => return Step::Call(c),
    };
    if !there {
        match hijack_init_with_switch_root(logger, force_normal_boot, io) {
            Step::Done(Ok(_)) => {},
            Step::Done(Err(e)) => return Step::Done(Err(e)),
            Step::Call(c) => return Step::Call(c),
        }
        match restore_ramdisk_init(logger, io) {
            Step::Done(Ok(_)) => Step::Done(Ok(mounted)),
            Step::Done(Err(e)) => Step::Done(Err(e)),
            Step::Call(c) => Step::Call(c),
        }
    } else {
        match say(logger, LogLevel::Info, &Known::says_no_switch(), io) {
            Step::Done(Ok(_)) => {},
            Step::Done(Err(e)) => return Step::Done(Err(e)),
            Step::Call(c) => return Step::Call(c),
        }
        match restore_ramdisk_init(logger, io) {
            Step::Done(Ok(_)) => {},
            Step::Done(Err(e)) => return Step::Done(Err(e)),
            Step::Call(c) => return Step::Call(c),
        }
        // The root will not be switched: patch the image of the original init.
        match hexpatch_init_for_second_stage(logger, true, io) {
            Step::Done(Ok(_)) => Step::Done(Ok(mounted)),
            Step::Done(Err(e)) => Step::Done(Err(e)),
            Step::Call(c) => Step::Call(c),
        }
    }
}

fn mark_script(io: &mut Replay) -> (next: Next<()>)
    ensures
        final(io).served(*old(io), next),
        (next@, final(io).at as int) == mark_script_run(old(io).seen@, old(io).at as int),
{
    let fd = match Known::init_rc_path().open(O_WRONLY | O_APPEND | O_CLOEXEC, io) {
        Step::Done(Ok(fd)) => fd,
        Step::Done(Err(e)) => return Step::Done(Err(e)),
        Step::Call(c) => return Step::Call(c),
    };
    match check(io, Syscall::WriteText(fd, Known::marker()), "write", None, None) {
        Step::Done(_) => {},
        Step::Call(c) => return Step::Call(c),
    }
    close_with(io, fd, Ok(()))
}

/// Patches the boot script of a root that cannot be written.
pub fn patch_ro_root(logger: &Logger, io: &mut Replay) -> (next: Next<()>)
    ensures
        final(io).served(*old(io), next),
        (next@, final(io).at as int) == patch_ro_root_run(*logger, old(io).seen@, old(io).at as int),
{
    let script = Known::init_rc_path();
    let there = match script.path_exists(io) {
        Step::Done(Ok(there)) => there,
        Step::Done(Err(e)) => return Step::Done(Err(e)),
        Step::Call(c) => return Step::Call(c),
    };
    if !there {
        return Step::Done(Ok(()));
    }
    let copied = script.copy_to(&Known::data_init_rc(), io);
    match log_failure(logger, copied, io) {
        Step::Done(_) => {},
        Step::Call(c) => return Step::Call(c),
    }
    let bound = match Known::data_init_rc().bind_mount_to(&script, false, io) {
        Step::Done(r) => r.is_ok(),
        Step::Call(c) => return Step::Call(c),
    };
    if bound {
        mark_script(io)
    } else {
        Step::Done(Ok(()))
    }
}

/// The second stage: the traces of the first are removed and the boot
/// script is patched.
pub fn second_stage(logger: &Logger, io: &mut Replay) -> (next: Next<()>)
    ensures
        final(io).served(*old(io), next),
        (next@, final(io).at as int) == second_stage_run(*logger, old(io).seen@, old(io).at as int),
{
    match say(logger, LogLevel::Info, &Known::says_second_stage(), io) {
        Step::Done(Ok(_)) => {},
        other => return other,
    }
    match Known::init().unmount(io) {
        Step::Done(_) => {},
        Step::Call(c) => return Step::Call(c),
    }
    match Known::system_init().unmount(io) {
        Step::Done(_) => {},
        Step::Call(c) => return Step::Call(c),
    }
    match Known::data_init().remove(io) {
        Step::Done(_) => {},
        Step::Call(c) => return Step::Call(c),
    }
    // The lines that init writes to the kernel log carry the name of the process.
    match check(io, Syscall::SetArgv0(Known::system_init()), "argv", None, None) {
        Step::Done(_) => {},
        Step::Call(c) => return Step::Call(c),
    }
    patch_ro_root(logger, io)
}

/// The strategy for a system that is its own root: nothing is done.
pub fn legacy_system_as_root(io: &mut Replay) -> (next: Next<()>)
    ensures
        *final(io) == *old(io),
        (next@, final(io).at as int) == idle_run(old(io).seen@, old(io).at as int),
{
    Step::Done(Ok(()))
}

/// The strategy for a boot into recovery: nothing is done.
pub fn recovery(io: &mut Replay) -> (next: Next<()>)
    ensures
        *final(io) == *old(io),
        (next@, final(io).at as int) == idle_run(old(io).seen@, old(io).at as int),
{
    Step::Done(Ok(()))
}

/// The strategy for a root filesystem in the ramdisk: nothing is done.
pub fn rootfs(io: &mut Replay) -> (next: Next<()>)
    ensures
        *final(io) == *old(io),
        (next@, final(io).at as int) == idle_run(old(io).seen@, old(io).at as int),
{
    Step::Done(Ok(()))
}

/// The orchestrator of one boot.
pub struct MagiskInit {
    pub preinit_dev: String,
    pub mount_list: Vec<Utf8CStr>,
    pub argv: Vec<Utf8CStr>,
    pub config: BootConfig,
    pub overlay_con: Vec<OverlayAttr>,
}

impl MagiskInit {
    /// The orchestrator for a process with the arguments `argv`: nothing
    /// mounted, nothing configured.
    pub fn new(argv: Vec<Utf8CStr>) -> (init: MagiskInit)
        ensures
            init.argv == argv,
            init.mount_list@.len() == 0,
            init.overlay_con@.len() == 0,
            init.preinit_dev@.len() == 0,
            init.config@ == BootConfigView::empty(),
    {
        MagiskInit {
            preinit_dev: String::new(),
            mount_list: Vec::new(),
            overlay_con: Vec::new(),
            argv,
            config: BootConfig::new(),
        }
    }

    /// Whether the process was started for the second stage.
    pub fn is_second_stage(&self) -> (r: bool)
        ensures
            r == wants_second_stage(crate::file::paths_view(self.argv@)),
    {
        self.argv.len() > 1 && text_is(self.argv[1].as_str(), "selinux_setup")
    }

    /// Runs the boot from its first probe to the hand-over.
    pub fn start(self, io: &mut Replay) -> (next: Next<i32>)
        ensures
            final(io).served(*old(io), next),
            (next@, final(io).at as int) == start_run(
                crate::file::paths_view(self.argv@),
                crate::file::paths_view(self.mount_list@),
                old(io).seen@,
                old(io).at as int,
            ),
    {
        let mut this = self;
        let proc = match ensure_mounted(
            &Known::proc_cmdline(),
            &Known::proc_dir(),
            &Known::proc_fs(),
            io,
        ) {
            Step::Done(Ok(mounted)) => mounted,
            Step::Done(Err(e)) => return Step::Done(Err(e)),
            Step::Call(c) => return Step::Call(c),
        };
        if proc {
            this.mount_list.push(Known::proc_dir());
        }
        let sys = match ensure_mounted(&Known::sys_block(), &Known::sys_dir(), &Known::sys_fs(), io) {
            Step::Done(Ok(mounted)) => mounted,
            Step::Done(Err(e)) => return Step::Done(Err(e)),
            Step::Call(c) => return Step::Call(c),
        };
        if sys {
            this.mount_list.push(Known::sys_dir());
        }
        let logger = match setup_klog(io) {
            Step::Done(Ok(logger)) => logger,
            Step::Done(Err(e)) => return Step::Done(Err(e)),
            Step::Call(c) => return Step::Call(c),
        };
        this.config = match load_config(io) {
            Step::Done(Ok(cfg)) => cfg,
            Step::Done(Err(e)) => return Step::Done(Err(e)),
            Step::Call(c) => return Step::Call(c),
        };
        match print_config(&logger, &this.config, io) {
            Step::Done(Ok(_)) => {},
            Step::Done(Err(e)) => return Step::Done(Err(e)),
            Step::Call(c) => return Step::Call(c),
        }
        let stage = match select_stage(this.is_second_stage(), &this.config, io) {
            Step::Done(Ok(stage)) => stage,
            Step::Done(Err(e)) => return Step::Done(Err(e)),
            Step::Call(c) => return Step::Call(c),
        };
        let data = match stage {
            Stage::SecondStage => match second_stage(&logger, io) {
                Step::Done(Ok(_)) => true,
                Step::Done(Err(e)) => return Step::Done(Err(e)),
                Step::Call(c) => return Step::Call(c),
            },
            Stage::FirstStage => match first_stage(&logger, this.config.force_normal_boot, io) {
                Step::Done(Ok(mounted)) => mounted,
                Step::Done(Err(e)) => return Step::Done(Err(e)),
                Step::Call(c) => return Step::Call(c),
            },
            Stage::LegacySystemAsRoot => match legacy_system_as_root(io) {
                Step::Done(Ok(_)) => false,
                Step::Done(Err(e)) => return Step::Done(Err(e)),
                Step::Call(c) => return Step::Call(c),
            },
            Stage::Recovery => match recovery(io) {
                Step::Done(Ok(_)) => false,
                Step::Done(Err(e)) => return Step::Done(Err(e)),
                Step::Call(c) => return Step::Call(c),
            },
            Stage::RootFS => match rootfs(io) {
                Step::Done(Ok(_)) => false,
                Step::Done(Err(e)) => return Step::Done(Err(e)),
                Step::Call(c) => return Step::Call(c),
            },
        };
        if data {
            this.mount_list.push(Known::data());
        }
        assert(crate::file::paths_view(this.mount_list@) =~= crate::file::paths_view(
            self.mount_list@,
        ) + mount_list(proc, sys, data));
        exec_init(&logger, &this.mount_list, io)
    }
}

} // verus!
