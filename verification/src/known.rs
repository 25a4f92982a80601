//! The well-known paths and texts of the boot.

use crate::cstr::Utf8CStr;
use vstd::prelude::*;
use vstd::string::*;

verus! {

/// The well-known paths and texts of the boot, as handles.
pub struct Known {}

impl Known {
    /// The kernel command line.
    pub fn proc_cmdline() -> (p: Utf8CStr)
        ensures
            p@ == "/proc/cmdline"@,
    {
        proof {
            reveal_strlit("/proc/cmdline");
        }
        Utf8CStr::from_text("/proc/cmdline")
    }

    /// Where the process filesystem is mounted.
    pub fn proc_dir() -> (p: Utf8CStr)
        ensures
            p@ == "/proc"@,
    {
        proof {
            reveal_strlit("/proc");
        }
        Utf8CStr::from_text("/proc")
    }

    /// The name of the process filesystem.
    pub fn proc_fs() -> (p: Utf8CStr)
        ensures
            p@ == "proc"@,
    {
        proof {
            reveal_strlit("proc");
        }
        Utf8CStr::from_text("proc")
    }

    /// A directory that exists where the system filesystem is mounted.
    pub fn sys_block() -> (p: Utf8CStr)
        ensures
            p@ == "/sys/block"@,
    {
        proof {
            reveal_strlit("/sys/block");
        }
        Utf8CStr::from_text("/sys/block")
    }

    /// Where the system filesystem is mounted.
    pub fn sys_dir() -> (p: Utf8CStr)
        ensures
            p@ == "/sys"@,
    {
        proof {
            reveal_strlit("/sys");
        }
        Utf8CStr::from_text("/sys")
    }

    /// The name of the system filesystem.
    pub fn sys_fs() -> (p: Utf8CStr)
        ensures
            p@ == "sysfs"@,
    {
        proof {
            reveal_strlit("sysfs");
        }
        Utf8CStr::from_text("sysfs")
    }

    /// The boot configuration file.
    pub fn proc_bootconfig() -> (p: Utf8CStr)
        ensures
            p@ == "/proc/bootconfig"@,
    {
        proof {
            reveal_strlit("/proc/bootconfig");
        }
        Utf8CStr::from_text("/proc/bootconfig")
    }

    /// The first place of a recovery binary.
    pub fn sbin_recovery() -> (p: Utf8CStr)
        ensures
            p@ == "/sbin/recovery"@,
    {
        proof {
            reveal_strlit("/sbin/recovery");
        }
        Utf8CStr::from_text("/sbin/recovery")
    }

    /// The second place of a recovery binary.
    pub fn system_recovery() -> (p: Utf8CStr)
        ensures
            p@ == "/system/bin/recovery"@,
    {
        proof {
            reveal_strlit("/system/bin/recovery");
        }
        Utf8CStr::from_text("/system/bin/recovery")
    }

    /// The init of the ramdisk.
    pub fn init() -> (p: Utf8CStr)
        ensures
            p@ == "/init"@,
    {
        proof {
            reveal_strlit("/init");
        }
        Utf8CStr::from_text("/init")
    }

    /// The staging area.
    pub fn data() -> (p: Utf8CStr)
        ensures
            p@ == "/data"@,
    {
        proof {
            reveal_strlit("/data");
        }
        Utf8CStr::from_text("/data")
    }

    /// The source name of the staging area.
    pub fn magisk() -> (p: Utf8CStr)
        ensures
            p@ == "magisk"@,
    {
        proof {
            reveal_strlit("magisk");
        }
        Utf8CStr::from_text("magisk")
    }

    /// The filesystem of the staging area.
    pub fn tmpfs() -> (p: Utf8CStr)
        ensures
            p@ == "tmpfs"@,
    {
        proof {
            reveal_strlit("tmpfs");
        }
        Utf8CStr::from_text("tmpfs")
    }

    /// The mount data of the staging area.
    pub fn mode_755() -> (p: Utf8CStr)
        ensures
            p@ == "mode=755"@,
    {
        proof {
            reveal_strlit("mode=755");
        }
        Utf8CStr::from_text("mode=755")
    }

    /// This program in the staging area.
    pub fn data_magiskinit() -> (p: Utf8CStr)
        ensures
            p@ == "/data/magiskinit"@,
    {
        proof {
            reveal_strlit("/data/magiskinit");
        }
        Utf8CStr::from_text("/data/magiskinit")
    }

    /// The patched copy of the original init.
    pub fn data_init() -> (p: Utf8CStr)
        ensures
            p@ == "/data/init"@,
    {
        proof {
            reveal_strlit("/data/init");
        }
        Utf8CStr::from_text("/data/init")
    }

    /// The writable copy of the boot script.
    pub fn data_init_rc() -> (p: Utf8CStr)
        ensures
            p@ == "/data/init.rc"@,
    {
        proof {
            reveal_strlit("/data/init.rc");
        }
        Utf8CStr::from_text("/data/init.rc")
    }

    /// The mount point that the switch of roots moves.
    pub fn sdcard() -> (p: Utf8CStr)
        ensures
            p@ == "/sdcard"@,
    {
        proof {
            reveal_strlit("/sdcard");
        }
        Utf8CStr::from_text("/sdcard")
    }

    /// The same mount point below the first stage ramdisk.
    pub fn ramdisk_sdcard() -> (p: Utf8CStr)
        ensures
            p@ == "/first_stage_ramdisk/sdcard"@,
    {
        proof {
            reveal_strlit("/first_stage_ramdisk/sdcard");
        }
        Utf8CStr::from_text("/first_stage_ramdisk/sdcard")
    }

    /// The directory of the primary storage link below the first stage ramdisk.
    pub fn ramdisk_storage_self() -> (p: Utf8CStr)
        ensures
            p@ == "/first_stage_ramdisk/storage/self"@,
    {
        proof {
            reveal_strlit("/first_stage_ramdisk/storage/self");
        }
        Utf8CStr::from_text("/first_stage_ramdisk/storage/self")
    }

    /// The primary storage link below the first stage ramdisk.
    pub fn ramdisk_primary() -> (p: Utf8CStr)
        ensures
            p@ == "/first_stage_ramdisk/storage/self/primary"@,
    {
        proof {
            reveal_strlit("/first_stage_ramdisk/storage/self/primary");
        }
        Utf8CStr::from_text("/first_stage_ramdisk/storage/self/primary")
    }

    /// The directory of the primary storage link.
    pub fn storage_self() -> (p: Utf8CStr)
        ensures
            p@ == "/storage/self"@,
    {
        proof {
            reveal_strlit("/storage/self");
        }
        Utf8CStr::from_text("/storage/self")
    }

    /// The primary storage link.
    pub fn primary() -> (p: Utf8CStr)
        ensures
            p@ == "/storage/self/primary"@,
    {
        proof {
            reveal_strlit("/storage/self/primary");
        }
        Utf8CStr::from_text("/storage/self/primary")
    }

    /// The init of the system.
    pub fn system_init() -> (p: Utf8CStr)
        ensures
            p@ == "/system/bin/init"@,
    {
        proof {
            reveal_strlit("/system/bin/init");
        }
        Utf8CStr::from_text("/system/bin/init")
    }

    /// The init of the system as seen before the switch of roots.
    pub fn switched_init() -> (p: Utf8CStr)
        ensures
            p@ == "/system/system/bin/init"@,
    {
        proof {
            reveal_strlit("/system/system/bin/init");
        }
        Utf8CStr::from_text("/system/system/bin/init")
    }

    /// The copy that was kept of the original init.
    pub fn init_back() -> (p: Utf8CStr)
        ensures
            p@ == "init_back"@,
    {
        proof {
            reveal_strlit("init_back");
        }
        Utf8CStr::from_text("init_back")
    }

    /// The boot script of the system.
    pub fn init_rc_path() -> (p: Utf8CStr)
        ensures
            p@ == "/system/etc/init/hw/init.rc"@,
    {
        proof {
            reveal_strlit("/system/etc/init/hw/init.rc");
        }
        Utf8CStr::from_text("/system/etc/init/hw/init.rc")
    }

    /// The line that marks a patched boot script.
    pub fn marker() -> (p: Utf8CStr)
        ensures
            p@ == "#rzxrzfewfewfewf\n"@,
    {
        proof {
            reveal_strlit("#rzxrzfewfewfewf\n");
        }
        Utf8CStr::from_text("#rzxrzfewfewfewf\n")
    }

    /// The heading of the configuration in the log.
    pub fn says_config() -> (p: Utf8CStr)
        ensures
            p@ == "Device config:\n"@,
    {
        proof {
            reveal_strlit("Device config:\n");
        }
        Utf8CStr::from_text("Device config:\n")
    }

    /// The announcement of the first stage.
    pub fn says_first_stage() -> (p: Utf8CStr)
        ensures
            p@ == "First Stage Init"@,
    {
        proof {
            reveal_strlit("First Stage Init");
        }
        Utf8CStr::from_text("First Stage Init")
    }

    /// The announcement of the second stage.
    pub fn says_second_stage() -> (p: Utf8CStr)
        ensures
            p@ == "Second Stage Init"@,
    {
        proof {
            reveal_strlit("Second Stage Init");
        }
        Utf8CStr::from_text("Second Stage Init")
    }

    /// The message that the root will not be switched.
    pub fn says_no_switch() -> (p: Utf8CStr)
        ensures
            p@ == "First Stage start error, /sdcard or /first_stage_ramdisk/sdcard is exits"@,
    {
        proof {
            reveal_strlit("First Stage start error, /sdcard or /first_stage_ramdisk/sdcard is exits");
        }
        Utf8CStr::from_text("First Stage start error, /sdcard or /first_stage_ramdisk/sdcard is exits")
    }

    /// The message that the image of the original init cannot be mapped.
    pub fn says_no_image() -> (p: Utf8CStr)
        ensures
            p@ == "Failed to open /init for hexpatch"@,
    {
        proof {
            reveal_strlit("Failed to open /init for hexpatch");
        }
        Utf8CStr::from_text("Failed to open /init for hexpatch")
    }

}

} // verus!
