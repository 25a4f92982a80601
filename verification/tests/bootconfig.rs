use fuseisk::bootconfig::{parse_bootconfig, parse_cmdline, BootConfig};

fn pairs(v: &[(&str, &str)]) -> Vec<(String, String)> {
    v.iter().map(|(k, v)| (k.to_string(), v.to_string())).collect()
}

fn set_one(key: &str, value: &str) -> BootConfig {
    let mut cfg = BootConfig::new();
    cfg.set(pairs(&[(key, value)]));
    cfg
}

#[test]
fn new_config_is_empty() {
    let cfg = BootConfig::new();
    assert!(!cfg.skip_initramfs);
    assert!(!cfg.force_normal_boot);
    assert!(!cfg.rootwait);
    assert!(!cfg.emulator);
    assert_eq!(cfg.slot, "");
    assert_eq!(cfg.dt_dir, "");
    assert_eq!(cfg.fstab_suffix, "");
    assert_eq!(cfg.hardware, "");
    assert_eq!(cfg.hardware_plat, "");
    assert!(cfg.partition_map.is_empty());
}

#[test]
fn test_cmdline_parst() {
    let content = "console=ttyS0 androidboot.hardware=ranchu  rootwait\tqemu=1 a=b=c\n";
    let kv_pairs = parse_cmdline(content);
    for (key, value) in &kv_pairs {
        println!("{} = {}", key, value);
    }
    assert_eq!(
        kv_pairs,
        pairs(&[
            ("console", "ttyS0"),
            ("androidboot.hardware", "ranchu"),
            ("rootwait", ""),
            ("qemu", "1"),
            ("a", "b=c"),
        ])
    );
}

#[test]
fn test_bootconfig_parst() {
    let content = "androidboot.slot_suffix = \"_b\"\nandroidboot.hardware=\"qcom\"\nbare token\n";
    let kv_pairs = parse_bootconfig(content);
    for (key, value) in &kv_pairs {
        println!("{} = {}", key, value);
    }
    assert_eq!(
        kv_pairs,
        pairs(&[
            ("androidboot.slot_suffix", "_b"),
            ("androidboot.hardware", "qcom"),
            ("bare token", ""),
            ("", ""),
        ])
    );
}

#[test]
fn cmdline_of_nothing_but_whitespace_has_no_pairs() {
    assert!(parse_cmdline("").is_empty());
    assert!(parse_cmdline(" \t\n ").is_empty());
}

#[test]
fn cmdline_splits_at_unicode_whitespace() {
    assert_eq!(parse_cmdline("a=1\u{2003}b=2\u{a0}c"), pairs(&[("a", "1"), ("b", "2"), ("c", "")]));
}

#[test]
fn cmdline_token_splits_at_first_equals_sign() {
    assert_eq!(parse_cmdline("=x"), pairs(&[("", "x")]));
    assert_eq!(parse_cmdline("k="), pairs(&[("k", "")]));
    assert_eq!(parse_cmdline("k==v"), pairs(&[("k", "=v")]));
}

#[test]
fn cmdline_keeps_quotes() {
    assert_eq!(parse_cmdline("k=\"v\""), pairs(&[("k", "\"v\"")]));
}

#[test]
fn bootconfig_of_empty_text_is_one_empty_line() {
    assert_eq!(parse_bootconfig(""), pairs(&[("", "")]));
}

#[test]
fn bootconfig_trims_and_unquotes() {
    assert_eq!(parse_bootconfig("  k  =  \"a b\"  "), pairs(&[("k", "a b")]));
    assert_eq!(parse_bootconfig("k=\""), pairs(&[("k", "\"")]));
    assert_eq!(parse_bootconfig("k=\"\""), pairs(&[("k", "")]));
    assert_eq!(parse_bootconfig("k=\"a"), pairs(&[("k", "\"a")]));
    assert_eq!(parse_bootconfig("k=a\""), pairs(&[("k", "a\"")]));
    assert_eq!(parse_bootconfig("k = \" a \""), pairs(&[("k", " a ")]));
}

#[test]
fn bootconfig_line_without_equals_sign_is_kept_untrimmed() {
    assert_eq!(parse_bootconfig("  bare  \nx=1"), pairs(&[("  bare  ", ""), ("x", "1")]));
}

#[test]
fn bootconfig_splits_only_at_newlines() {
    assert_eq!(parse_bootconfig("a=1 b=2\r\nc=3"), pairs(&[("a", "1 b=2"), ("c", "3")]));
}

#[test]
fn slot_gets_an_underscore_in_front() {
    let mut cfg = BootConfig::new();
    cfg.set(parse_cmdline("androidboot.slot=a"));
    assert_eq!(cfg.slot, "_a");
}

#[test]
fn slot_suffix_normal_is_ignored() {
    let mut cfg = BootConfig::new();
    cfg.set(parse_cmdline("androidboot.slot_suffix=normal"));
    assert_eq!(cfg.slot, "");
    cfg.set(parse_cmdline("androidboot.slot_suffix=_b"));
    assert_eq!(cfg.slot, "_b");
    cfg.set(parse_cmdline("androidboot.slot_suffix=normal"));
    assert_eq!(cfg.slot, "_b");
}

#[test]
fn later_slot_wins() {
    let mut cfg = BootConfig::new();
    cfg.set(pairs(&[("androidboot.slot_suffix", "_a"), ("androidboot.slot", "b")]));
    assert_eq!(cfg.slot, "_b");
}

#[test]
fn presence_sets_the_flags() {
    assert!(set_one("skip_initramfs", "").skip_initramfs);
    assert!(set_one("skip_initramfs", "0").skip_initramfs);
    assert!(set_one("rootwait", "").rootwait);
    assert!(set_one("qemu", "anything").emulator);
}

#[test]
fn force_normal_boot_needs_the_value_one() {
    assert!(set_one("androidboot.force_normal_boot", "1").force_normal_boot);
    assert!(!set_one("androidboot.force_normal_boot", "0").force_normal_boot);
    assert!(!set_one("androidboot.force_normal_boot", "").force_normal_boot);
    assert!(!set_one("androidboot.force_normal_boot", "11").force_normal_boot);
    let mut cfg = set_one("androidboot.force_normal_boot", "1");
    cfg.set(pairs(&[("androidboot.force_normal_boot", "0")]));
    assert!(cfg.force_normal_boot);
}

#[test]
fn text_values_are_stored() {
    assert_eq!(set_one("androidboot.android_dt_dir", "/dt").dt_dir, "/dt");
    assert_eq!(set_one("androidboot.hardware", "qcom").hardware, "qcom");
    assert_eq!(set_one("androidboot.hardware.platform", "sm8450").hardware_plat, "sm8450");
    assert_eq!(set_one("androidboot.fstab_suffix", "default").fstab_suffix, "default");
}

#[test]
fn unknown_keys_change_nothing() {
    let cfg = set_one("androidboot.unknown", "1");
    assert!(!cfg.skip_initramfs && !cfg.force_normal_boot && !cfg.rootwait && !cfg.emulator);
    assert_eq!(cfg.slot, "");
    assert_eq!(cfg.hardware, "");
    let cfg = set_one("ROOTWAIT", "");
    assert!(!cfg.rootwait);
}

#[test]
fn init_reads_the_command_line_first() {
    let mut cfg = BootConfig::new();
    cfg.init(
        "androidboot.hardware=old skip_initramfs",
        "androidboot.hardware = \"new\"\nandroidboot.slot = b",
    );
    assert_eq!(cfg.hardware, "new");
    assert_eq!(cfg.slot, "_b");
    assert!(cfg.skip_initramfs);
    assert!(!cfg.rootwait);
}
