//! Laws of the boot-stage orchestrator.

use crate::call::run_call;
use crate::dir::copy_to_run;
use crate::file::mkdir_run;
use crate::init::{
    ensure_mounted_run, exec_init_run, first_stage_run, hexpatch_run, hijack_run, init_rc,
    load_config_run, mount_call, mount_list, prepare_data_run, print_config_run, probe_sdcard_run,
    restore_init_run, second_stage_run, select_stage_run, stage_for, stage_run, start_run,
    two_stage, unwind_run, wants_second_stage, Stage,
};
use crate::logging::{logged, say_run, setup_klog_run, LogLevel, Logger};
use crate::mount::unmount_run;
use crate::sys::{OsError, Reply, Step, Syscall, MNT_DETACH};
use vstd::prelude::*;

verus! {

/// Without the request for the second stage and without either flag of the
/// configuration, and where no recovery binary exists, the first stage is
/// taken if the device boots in two stages, and the root filesystem
/// strategy otherwise.
pub proof fn lemma_dispatch_plain_boot(two_stage: bool)
    ensures
        stage_for(false, false, false, false, two_stage) == if two_stage {
            Stage::FirstStage
        } else {
            Stage::RootFS
        },
{
}

/// The unwinding is last in, first out: with `k` mounts left to undo, its
/// next call is the unmount of the last of them.
pub proof fn lemma_unwind_starts_with_the_last(
    mounts: Seq<Seq<char>>,
    k: int,
    logger: Logger,
    seen: Seq<Reply>,
    at: int,
)
    requires
        0 < k <= mounts.len(),
        at >= seen.len(),
    ensures
        unwind_run(mounts, k, logger, seen, at) == (
            Step::<(), Seq<char>>::Call(Syscall::Umount2(mounts[k - 1], MNT_DETACH)),
            at,
        ),
{
}

/// No failure stops the unwinding: whatever the reply to the unmount of the
/// last of `k` mounts says, the unwinding goes on with the `k - 1` before
/// it. A success takes one reply; a failure takes one more where the logger
/// writes a line for it.
pub proof fn lemma_unwind_goes_on(
    mounts: Seq<Seq<char>>,
    k: int,
    logger: Logger,
    seen: Seq<Reply>,
    at: int,
)
    requires
        0 < k <= mounts.len(),
        0 <= at < seen.len(),
    ensures
        ({
            let writes = seen[at].status() is Err && logger.enabled(LogLevel::Error) && logger.kmsg
                >= 0;
            let run = unwind_run(mounts, k, logger, seen, at);
            &&& !writes ==> run == unwind_run(mounts, k - 1, logger, seen, at + 1)
            &&& writes && at + 1 < seen.len() ==> run == unwind_run(mounts, k - 1, logger, seen, at + 2)
            &&& writes && at + 1 >= seen.len() ==> run.0 is Call && run.0->Call_0 is WriteText
        }),
{
}

/// The unwinding never ends in an error.
pub proof fn lemma_unwind_never_fails(
    mounts: Seq<Seq<char>>,
    k: int,
    logger: Logger,
    seen: Seq<Reply>,
    at: int,
)
    ensures
        !(unwind_run(mounts, k, logger, seen, at).0 matches Step::Done(Err(_))),
    decreases k,
{
    if 0 < k <= mounts.len() {
        let one = logged(unmount_run(mounts[k - 1], seen, at), logger, seen);
        lemma_unwind_never_fails(mounts, k - 1, logger, seen, one.1);
    }
}

/// With a logger that writes nowhere, the unwinding makes one call for each
/// mount: whatever the replies to the first `j` unmounts say, the next call
/// is the unmount of the `j`-th mount from the end; and when all are
/// answered, it is done.
pub proof fn lemma_unwind_is_lifo(mounts: Seq<Seq<char>>, logger: Logger, seen: Seq<Reply>, at: int)
    requires
        0 <= at <= seen.len(),
        logger.kmsg < 0,
    ensures
        seen.len() - at < mounts.len() ==> unwind_run(
            mounts,
            mounts.len() as int,
            logger,
            seen,
            at,
        ) == (
            Step::<(), Seq<char>>::Call(
                Syscall::Umount2(mounts[mounts.len() - 1 - (seen.len() - at)], MNT_DETACH),
            ),
            seen.len() as int,
        ),
        seen.len() - at >= mounts.len() ==> unwind_run(
            mounts,
            mounts.len() as int,
            logger,
            seen,
            at,
        ) == (Step::<(), Seq<char>>::Done(Ok(())), at + mounts.len()),
{
    lemma_unwind_quiet(mounts, mounts.len() as int, logger, seen, at);
}

/// The unwinding of the first `k` mounts with a logger that writes nowhere.
pub proof fn lemma_unwind_quiet(
    mounts: Seq<Seq<char>>,
    k: int,
    logger: Logger,
    seen: Seq<Reply>,
    at: int,
)
    requires
        0 <= at <= seen.len(),
        0 <= k <= mounts.len(),
        logger.kmsg < 0,
    ensures
        seen.len() - at < k ==> unwind_run(mounts, k, logger, seen, at) == (
            Step::<(), Seq<char>>::Call(Syscall::Umount2(mounts[k - 1 - (seen.len() - at)], MNT_DETACH)),
            seen.len() as int,
        ),
        seen.len() - at >= k ==> unwind_run(mounts, k, logger, seen, at) == (
            Step::<(), Seq<char>>::Done(Ok(())),
            at + k,
        ),
    decreases k,
{
    if k > 0 && at < seen.len() {
        lemma_unwind_quiet(mounts, k - 1, logger, seen, at + 1);
    }
}

/// Setting up the staging area cannot fail the run.
pub proof fn lemma_prepare_data_never_fails(logger: Logger, seen: Seq<Reply>, at: int)
    ensures
        !(prepare_data_run(logger, seen, at).0 matches Step::Done(Err(_))),
{
    let made = logged(mkdir_run("/data"@, 0o755, seen, at), logger, seen);
    if let Step::Done(Ok(_)) = made.0 {
        let mounted = logged(
            run_call(
                mount_call("magisk"@, "/data"@, "tmpfs"@, Some("mode=755"@)),
                "",
                None,
                None,
                seen,
                made.1,
            ),
            logger,
            seen,
        );
        if let Step::Done(Ok(_)) = mounted.0 {
            let copied = logged(
                copy_to_run("/init"@, "/data/magiskinit"@, seen, mounted.1),
                logger,
                seen,
            );
            assert(!(copied.0 matches Step::Done(Err(_))));
        }
    }
}

/// Arranging the switch of roots cannot fail the run.
pub proof fn lemma_hijack_never_fails(
    force_normal_boot: bool,
    logger: Logger,
    seen: Seq<Reply>,
    at: int,
)
    ensures
        !(hijack_run(force_normal_boot, logger, seen, at).0 matches Step::Done(Err(_))),
{
}

/// Putting the original init back cannot fail the run.
pub proof fn lemma_restore_never_fails(logger: Logger, seen: Seq<Reply>, at: int)
    ensures
        !(restore_init_run(logger, seen, at).0 matches Step::Done(Err(_))),
{
}

/// Patching the image of the original init cannot fail the run.
pub proof fn lemma_hexpatch_never_fails(writable: bool, logger: Logger, seen: Seq<Reply>, at: int)
    ensures
        !(hexpatch_run(writable, logger, seen, at).0 matches Step::Done(Err(_))),
{
}

/// Nothing in the first stage can fail the run: whatever the replies say,
/// the first stage does not end in an error.
pub proof fn lemma_first_stage_never_fails(
    force_normal_boot: bool,
    logger: Logger,
    seen: Seq<Reply>,
    at: int,
)
    ensures
        !(first_stage_run(force_normal_boot, logger, seen, at).0 matches Step::Done(Err(_))),
{
    let said = say_run(logger, LogLevel::Info, "First Stage Init"@, seen, at);
    if let Step::Done(Ok(_)) = said.0 {
        lemma_prepare_data_never_fails(logger, seen, said.1);
        let prepared = prepare_data_run(logger, seen, said.1);
        if let Step::Done(Ok(_)) = prepared.0 {
            let probed = probe_sdcard_run(seen, prepared.1);
            if let Step::Done(Ok(there)) = probed.0 {
                if !there {
                    lemma_hijack_never_fails(force_normal_boot, logger, seen, probed.1);
                    let hijacked = hijack_run(force_normal_boot, logger, seen, probed.1);
                    lemma_restore_never_fails(logger, seen, hijacked.1);
                } else {
                    let told = say_run(
                        logger,
                        LogLevel::Info,
                        "First Stage start error, /sdcard or /first_stage_ramdisk/sdcard is exits"@,
                        seen,
                        probed.1,
                    );
                    lemma_restore_never_fails(logger, seen, told.1);
                    let restored = restore_init_run(logger, seen, told.1);
                    lemma_hexpatch_never_fails(true, logger, seen, restored.1);
                }
            }
        }
    }
}

/// The second stage fails the run in one case only: the boot script was
/// mounted over and cannot be opened for the marker line.
pub proof fn lemma_second_stage_fails_at_the_marker_only(logger: Logger, seen: Seq<Reply>, at: int)
    ensures
        second_stage_run(logger, seen, at).0 matches Step::Done(Err(e)) ==> e.name == "open"
            && e.arg1 == Some(init_rc()),
{
}

/// Where the unwinding is reached, the run has one end: the original init
/// was called for, the call came back, and the exit status is 1.
pub proof fn lemma_hand_over_exits_with_one(
    mounts: Seq<Seq<char>>,
    logger: Logger,
    seen: Seq<Reply>,
    at: int,
)
    ensures
        exec_init_run(mounts, logger, seen, at).0 matches Step::Done(r) ==> r == Ok::<
            i32,
            OsError<Seq<char>>,
        >(1i32),
{
    lemma_unwind_never_fails(mounts, mounts.len() as int, logger, seen, at);
}

/// A boot ends in one of two ways. Either it got as far as the hand-over,
/// the original init could not be executed, and the exit status is 1. Or
/// it was given up before: a filesystem of the kernel could not be
/// mounted, the boot parameters could not be read, or the boot script
/// could not be opened for the marker line.
pub proof fn lemma_start_ends(
    argv: Seq<Seq<char>>,
    mounts: Seq<Seq<char>>,
    seen: Seq<Reply>,
    at: int,
)
    ensures
        start_run(argv, mounts, seen, at).0 matches Step::Done(Ok(status)) ==> status == 1,
        start_run(argv, mounts, seen, at).0 matches Step::Done(Err(e)) ==> e.name == "mkdir"
            || e.name == "chmod" || e.name == "" || e.name == "read" || e.name == "open",
{
    let proc = ensure_mounted_run("/proc/cmdline"@, "/proc"@, "proc"@, seen, at);
    if let Step::Done(Ok(p)) = proc.0 {
        let sys = ensure_mounted_run("/sys/block"@, "/sys"@, "sysfs"@, seen, proc.1);
        if let Step::Done(Ok(s)) = sys.0 {
            let klog = setup_klog_run(seen, sys.1);
            if let Step::Done(Ok(logger)) = klog.0 {
                let loaded = load_config_run(seen, klog.1);
                if let Step::Done(Ok(cfg)) = loaded.0 {
                    let printed = print_config_run(logger, cfg, seen, loaded.1);
                    if let Step::Done(Ok(_)) = printed.0 {
                        let selected = select_stage_run(
                            wants_second_stage(argv),
                            cfg,
                            seen,
                            printed.1,
                        );
                        if let Step::Done(Ok(stage)) = selected.0 {
                            lemma_first_stage_never_fails(
                                cfg.force_normal_boot,
                                logger,
                                seen,
                                selected.1,
                            );
                            lemma_second_stage_fails_at_the_marker_only(logger, seen, selected.1);
                            let staged = stage_run(stage, cfg, logger, seen, selected.1);
                            if let Step::Done(Ok(data)) = staged.0 {
                                lemma_hand_over_exits_with_one(
                                    mounts + mount_list(p, s, data),
                                    logger,
                                    seen,
                                    staged.1,
                                );
                            }
                        }
                    }
                }
            }
        }
    }
}

} // verus!
