//! The boot configuration: a record folded from the kernel command line and
//! from the boot configuration file, both given as text.

use crate::text::{
    chars_of, find_char, index_of, lemma_find_char_bounds, lemma_scan_space_bounds, scan_space,
    skip_space, text_is, trim, trimmed,
};
use vstd::prelude::*;
use vstd::string::*;

verus! {

/// A key with its value.
pub struct KeyValue {
    pub key: String,
    pub value: String,
}

/// What the boot parameters say about this boot.
pub struct BootConfig {
    pub skip_initramfs: bool,
    pub force_normal_boot: bool,
    pub rootwait: bool,
    pub emulator: bool,
    pub slot: String,
    pub dt_dir: String,
    pub fstab_suffix: String,
    pub hardware: String,
    pub hardware_plat: String,
    pub partition_map: Vec<KeyValue>,
}

/// The mathematical content of a [`BootConfig`].
pub struct BootConfigView {
    pub skip_initramfs: bool,
    pub force_normal_boot: bool,
    pub rootwait: bool,
    pub emulator: bool,
    pub slot: Seq<char>,
    pub dt_dir: Seq<char>,
    pub fstab_suffix: Seq<char>,
    pub hardware: Seq<char>,
    pub hardware_plat: Seq<char>,
    pub partition_map: Seq<(Seq<char>, Seq<char>)>,
}

impl View for BootConfig {
    type V = BootConfigView;

    open spec fn view(&self) -> BootConfigView {
        BootConfigView {
            skip_initramfs: self.skip_initramfs,
            force_normal_boot: self.force_normal_boot,
            rootwait: self.rootwait,
            emulator: self.emulator,
            slot: self.slot@,
            dt_dir: self.dt_dir@,
            fstab_suffix: self.fstab_suffix@,
            hardware: self.hardware@,
            hardware_plat: self.hardware_plat@,
            partition_map: self.partition_map@.map_values(|kv: KeyValue| (kv.key@, kv.value@)),
        }
    }
}

/// The content of a list of pairs of strings.
pub open spec fn pairs_view(kv: Seq<(String, String)>) -> Seq<(Seq<char>, Seq<char>)> {
    kv.map_values(|p: (String, String)| (p.0@, p.1@))
}

impl BootConfigView {
    /// The configuration in which nothing is set.
    pub open spec fn empty() -> BootConfigView {
        BootConfigView {
            skip_initramfs: false,
            force_normal_boot: false,
            rootwait: false,
            emulator: false,
            slot: Seq::empty(),
            dt_dir: Seq::empty(),
            fstab_suffix: Seq::empty(),
            hardware: Seq::empty(),
            hardware_plat: Seq::empty(),
            partition_map: Seq::empty(),
        }
    }

    /// The configuration after one more parameter. Keys outside the
    /// recognized set change nothing.
    pub open spec fn apply(self, key: Seq<char>, value: Seq<char>) -> BootConfigView {
        if key == "androidboot.slot_suffix"@ {
            if value == "normal"@ {
                self
            } else {
                BootConfigView { slot: value, ..self }
            }
        } else if key == "androidboot.slot"@ {
            BootConfigView { slot: "_"@ + value, ..self }
        } else if key == "skip_initramfs"@ {
            BootConfigView { skip_initramfs: true, ..self }
        } else if key == "androidboot.force_normal_boot"@ {
            if value == "1"@ {
                BootConfigView { force_normal_boot: true, ..self }
            } else {
                self
            }
        } else if key == "rootwait"@ {
            BootConfigView { rootwait: true, ..self }
        } else if key == "androidboot.android_dt_dir"@ {
            BootConfigView { dt_dir: value, ..self }
        } else if key == "androidboot.hardware"@ {
            BootConfigView { hardware: value, ..self }
        } else if key == "androidboot.hardware.platform"@ {
            BootConfigView { hardware_plat: value, ..self }
        } else if key == "androidboot.fstab_suffix"@ {
            BootConfigView { fstab_suffix: value, ..self }
        } else if key == "qemu"@ {
            BootConfigView { emulator: true, ..self }
        } else {
            self
        }
    }

    /// The configuration after the first `n` parameters of `kv`, in order.
    pub open spec fn apply_first(self, kv: Seq<(Seq<char>, Seq<char>)>, n: int) -> BootConfigView
        decreases n,
    {
        if n <= 0 || n > kv.len() {
            self
        } else {
            self.apply_first(kv, n - 1).apply(kv[n - 1].0, kv[n - 1].1)
        }
    }

    /// The configuration after all parameters of `kv`, in order.
    pub open spec fn apply_all(self, kv: Seq<(Seq<char>, Seq<char>)>) -> BootConfigView {
        self.apply_first(kv, kv.len() as int)
    }
}

/// A token of the command line as key and value: split at its first `=`,
/// or the whole token with an empty value.
pub open spec fn cmdline_pair(token: Seq<char>) -> (Seq<char>, Seq<char>) {
    let k = find_char(token, '=', 0);
    if k < token.len() {
        (token.subrange(0, k), token.subrange(k + 1, token.len() as int))
    } else {
        (token, Seq::empty())
    }
}

/// The pairs of the whitespace-separated tokens of `s` that start at or
/// after `from`.
pub open spec fn cmdline_pairs_from(s: Seq<char>, from: int) -> Seq<(Seq<char>, Seq<char>)>
    decreases s.len() - from,
{
    let b = scan_space(s, from, false);
    let e = scan_space(s, b, true);
    if from < 0 || b < from || b >= s.len() || e <= b || e > s.len() {
        Seq::empty()
    } else {
        seq![cmdline_pair(s.subrange(b, e))] + cmdline_pairs_from(s, e)
    }
}

/// What [`parse_cmdline`] returns: one pair for each maximal run of
/// characters that are not whitespace.
pub open spec fn cmdline_pairs(s: Seq<char>) -> Seq<(Seq<char>, Seq<char>)> {
    cmdline_pairs_from(s, 0)
}

/// A value without the double quotes around it, if it has both.
pub open spec fn unquote(v: Seq<char>) -> Seq<char> {
    if v.len() >= 2 && v[0] == '"' && v[v.len() - 1] == '"' {
        v.subrange(1, v.len() - 1)
    } else {
        v
    }
}

/// A line of the boot configuration file as key and value. A line with `=`
/// is split at the first one, both sides are trimmed and the value is
/// unquoted; any other line is a key as it stands, with an empty value.
pub open spec fn bootconfig_pair(line: Seq<char>) -> (Seq<char>, Seq<char>) {
    let k = find_char(line, '=', 0);
    if k < line.len() {
        (trim(line.subrange(0, k)), unquote(trim(line.subrange(k + 1, line.len() as int))))
    } else {
        (line, Seq::empty())
    }
}

/// The pairs of the lines of `s`, the first of which starts at `from`.
/// Lines are separated by `\n`, so the text after the last `\n` is a line
/// too, even when it is empty.
pub open spec fn bootconfig_pairs_from(s: Seq<char>, from: int) -> Seq<(Seq<char>, Seq<char>)>
    decreases s.len() - from,
{
    let e = find_char(s, '\n', from);
    if from < 0 || from > s.len() {
        Seq::empty()
    } else if e >= s.len() || e < from {
        seq![bootconfig_pair(s.subrange(from, s.len() as int))]
    } else {
        seq![bootconfig_pair(s.subrange(from, e))] + bootconfig_pairs_from(s, e + 1)
    }
}

/// What [`parse_bootconfig`] returns: one pair for each line.
pub open spec fn bootconfig_pairs(s: Seq<char>) -> Seq<(Seq<char>, Seq<char>)> {
    bootconfig_pairs_from(s, 0)
}

/// The slot given by `androidboot.slot` is stored with a `_` in front of
/// it, whatever the configuration held before.
pub proof fn lemma_slot_gets_underscore(cfg: BootConfigView, value: Seq<char>)
    ensures
        cfg.apply("androidboot.slot"@, value) == (BootConfigView { slot: "_"@ + value, ..cfg }),
{
    reveal_strlit("androidboot.slot");
    reveal_strlit("androidboot.slot_suffix");
    assert("androidboot.slot"@.len() == 16);
    assert("androidboot.slot_suffix"@.len() == 23);
}

/// The slot suffix `normal` is no slot: it leaves the configuration as it
/// is. Any other suffix becomes the slot.
pub proof fn lemma_slot_suffix_normal_is_ignored(cfg: BootConfigView, value: Seq<char>)
    ensures
        cfg.apply("androidboot.slot_suffix"@, "normal"@) == cfg,
        value != "normal"@ ==> cfg.apply("androidboot.slot_suffix"@, value) == (BootConfigView {
            slot: value,
            ..cfg
        }),
{
}

/// A key that is not recognized changes nothing.
pub proof fn lemma_unknown_key_is_ignored(cfg: BootConfigView, key: Seq<char>, value: Seq<char>)
    requires
        key != "androidboot.slot_suffix"@,
        key != "androidboot.slot"@,
        key != "skip_initramfs"@,
        key != "androidboot.force_normal_boot"@,
        key != "rootwait"@,
        key != "androidboot.android_dt_dir"@,
        key != "androidboot.hardware"@,
        key != "androidboot.hardware.platform"@,
        key != "androidboot.fstab_suffix"@,
        key != "qemu"@,
    ensures
        cfg.apply(key, value) == cfg,
{
}

/// Parameters are folded one after the other: the configuration after two
/// lists is that after the second, begun with that after the first.
pub proof fn lemma_apply_all_concat(
    cfg: BootConfigView,
    a: Seq<(Seq<char>, Seq<char>)>,
    b: Seq<(Seq<char>, Seq<char>)>,
)
    ensures
        cfg.apply_all(a + b) == cfg.apply_all(a).apply_all(b),
{
    lemma_apply_first_concat(cfg, a, b, b.len() as int);
}

/// The configuration after the parameters of `a` and the first `n` of `b`.
pub proof fn lemma_apply_first_concat(
    cfg: BootConfigView,
    a: Seq<(Seq<char>, Seq<char>)>,
    b: Seq<(Seq<char>, Seq<char>)>,
    n: int,
)
    requires
        0 <= n <= b.len(),
    ensures
        cfg.apply_first(a + b, a.len() + n) == cfg.apply_all(a).apply_first(b, n),
    decreases n,
{
    if n > 0 {
        lemma_apply_first_concat(cfg, a, b, n - 1);
        assert((a + b)[a.len() + n - 1] == b[n - 1]);
    } else {
        lemma_apply_first_prefix(cfg, a, a + b, a.len() as int);
    }
}

/// The first `n` parameters decide the configuration after them.
pub proof fn lemma_apply_first_prefix(
    cfg: BootConfigView,
    a: Seq<(Seq<char>, Seq<char>)>,
    b: Seq<(Seq<char>, Seq<char>)>,
    n: int,
)
    requires
        0 <= n <= a.len(),
        n <= b.len(),
        forall|i: int| 0 <= i < n ==> a[i] == b[i],
    ensures
        cfg.apply_first(a, n) == cfg.apply_first(b, n),
    decreases n,
{
    if n > 0 {
        lemma_apply_first_prefix(cfg, a, b, n - 1);
    }
}

/// A token is split at its first `=`: the key holds none, and key, `=` and
/// value make up the token. A token without `=` is a key without a value.
pub proof fn lemma_cmdline_pair_splits(token: Seq<char>)
    ensures
        !cmdline_pair(token).0.contains('='),
        token.contains('=') ==> token == cmdline_pair(token).0 + seq!['='] + cmdline_pair(token).1,
        !token.contains('=') ==> cmdline_pair(token) == (token, Seq::<char>::empty()),
{
    let k = find_char(token, '=', 0);
    lemma_find_char_bounds(token, '=', 0);
    let (key, value) = cmdline_pair(token);
    if k < token.len() {
        assert(token.contains('='));
        assert(token =~= key + seq!['='] + value);
        if key.contains('=') {
            let i = choose|i: int| 0 <= i < key.len() && key[i] == '=';
            assert(token[i] == '=');
        }
    } else {
        if token.contains('=') {
            let i = choose|i: int| 0 <= i < token.len() && token[i] == '=';
            assert(token[i] != '=');
        }
    }
}

fn split_token(token: &str) -> (r: (String, String))
    ensures
        (r.0@, r.1@) == cmdline_pair(token@),
{
    let chars = chars_of(token);
    let k = index_of(&chars, '=', 0);
    if k < chars.len() {
        (
            String::from_str(token.substring_char(0, k)),
            String::from_str(token.substring_char(k + 1, chars.len())),
        )
    } else {
        (String::from_str(token), String::new())
    }
}

fn strip_quotes(value: String) -> (r: String)
    ensures
        r@ == unquote(value@),
{
    let chars = chars_of(value.as_str());
    let n = chars.len();
    if n >= 2 && chars[0] == '"' && chars[n - 1] == '"' {
        String::from_str(value.as_str().substring_char(1, n - 1))
    } else {
        value
    }
}

fn split_line(line: &str) -> (r: (String, String))
    ensures
        (r.0@, r.1@) == bootconfig_pair(line@),
{
    let chars = chars_of(line);
    let k = index_of(&chars, '=', 0);
    if k < chars.len() {
        let key = trimmed(line.substring_char(0, k));
        let value = trimmed(line.substring_char(k + 1, chars.len()));
        (key, strip_quotes(value))
    } else {
        (String::from_str(line), String::new())
    }
}

/// Splits the kernel command line into its parameters.
pub fn parse_cmdline(input: &str) -> (kv: Vec<(String, String)>)
    ensures
        pairs_view(kv@) == cmdline_pairs(input@),
{
    let chars = chars_of(input);
    let n = chars.len();
    let mut kv: Vec<(String, String)> = Vec::new();
    let mut i: usize = 0;
    loop
        invariant_except_break
            cmdline_pairs(input@) == pairs_view(kv@) + cmdline_pairs_from(input@, i as int),
        invariant
            chars@ == input@,
            n == chars@.len(),
            i <= n,
        ensures
            pairs_view(kv@) == cmdline_pairs(input@),
        decreases n - i,
    {
        let b = skip_space(&chars, i, false);
        if b >= n {
            assert(pairs_view(kv@) + cmdline_pairs_from(input@, i as int) =~= pairs_view(kv@));
            break;
        }
        let e = skip_space(&chars, b, true);
        proof {
            lemma_scan_space_bounds(input@, b as int, true);
            lemma_scan_space_bounds(input@, i as int, false);
        }
        let pair = split_token(input.substring_char(b, e));
        let ghost before = kv@;
        kv.push(pair);
        proof {
            assert(pairs_view(kv@) =~= pairs_view(before) + seq![
                cmdline_pair(input@.subrange(b as int, e as int)),
            ]);
        }
        i = e;
    }
    kv
}

/// Splits the boot configuration file into its parameters, one for each
/// line.
pub fn parse_bootconfig(input: &str) -> (kv: Vec<(String, String)>)
    ensures
        pairs_view(kv@) == bootconfig_pairs(input@),
{
    let chars = chars_of(input);
    let n = chars.len();
    let mut kv: Vec<(String, String)> = Vec::new();
    let mut i: usize = 0;
    loop
        invariant_except_break
            bootconfig_pairs(input@) == pairs_view(kv@) + bootconfig_pairs_from(input@, i as int),
        invariant
            chars@ == input@,
            n == chars@.len(),
            i <= n,
        ensures
            pairs_view(kv@) == bootconfig_pairs(input@),
        decreases n - i,
    {
        let e = index_of(&chars, '\n', i);
        let pair = split_line(input.substring_char(i, e));
        let ghost before = kv@;
        kv.push(pair);
        proof {
            assert(pairs_view(kv@) =~= pairs_view(before) + seq![
                bootconfig_pair(input@.subrange(i as int, e as int)),
            ]);
        }
        if e >= n {
            break;
        }
        i = e + 1;
    }
    kv
}

impl BootConfig {
    /// The configuration in which nothing is set.
    pub fn new() -> (cfg: BootConfig)
        ensures
            cfg@ == BootConfigView::empty(),
    {
        let cfg = BootConfig {
            skip_initramfs: false,
            force_normal_boot: false,
            rootwait: false,
            emulator: false,
            slot: String::new(),
            dt_dir: String::new(),
            fstab_suffix: String::new(),
            hardware: String::new(),
            hardware_plat: String::new(),
            partition_map: Vec::new(),
        };
        assert(cfg@.partition_map =~= Seq::empty());
        cfg
    }

    fn set_one(&mut self, key: &str, value: &String)
        ensures
            final(self)@ == old(self)@.apply(key@, value@),
    {
        if text_is(key, "androidboot.slot_suffix") {
            // Some A-only devices still pass a suffix, with this value.
            if !text_is(value.as_str(), "normal") {
                self.slot = value.clone();
            }
        } else if text_is(key, "androidboot.slot") {
            self.slot = String::from_str("_").concat(value.as_str());
        } else if text_is(key, "skip_initramfs") {
            self.skip_initramfs = true;
        } else if text_is(key, "androidboot.force_normal_boot") {
            if text_is(value.as_str(), "1") {
                self.force_normal_boot = true;
            }
        } else if text_is(key, "rootwait") {
            self.rootwait = true;
        } else if text_is(key, "androidboot.android_dt_dir") {
            self.dt_dir = value.clone();
        } else if text_is(key, "androidboot.hardware") {
            self.hardware = value.clone();
        } else if text_is(key, "androidboot.hardware.platform") {
            self.hardware_plat = value.clone();
        } else if text_is(key, "androidboot.fstab_suffix") {
            self.fstab_suffix = value.clone();
        } else if text_is(key, "qemu") {
            self.emulator = true;
        }
    }

    /// Folds the parameters `kv` into the configuration, in order.
    pub fn set(&mut self, kv: Vec<(String, String)>)
        ensures
            final(self)@ == old(self)@.apply_all(pairs_view(kv@)),
    {
        let mut i: usize = 0;
        while i < kv.len()
            invariant
                i <= kv@.len(),
                self@ == old(self)@.apply_first(pairs_view(kv@), i as int),
            decreases kv@.len() - i,
        {
            self.set_one(kv[i].0.as_str(), &kv[i].1);
            i = i + 1;
        }
    }

    /// Loads the configuration from the text of the kernel command line and
    /// of the boot configuration file, the command line first.
    pub fn init(&mut self, cmdline: &str, bootconfig: &str)
        ensures
            final(self)@ == old(self)@.apply_all(cmdline_pairs(cmdline@)).apply_all(
                bootconfig_pairs(bootconfig@),
            ),
    {
        self.set(parse_cmdline(cmdline));
        self.set(parse_bootconfig(bootconfig));
    }
}

} // verus!
