use fuseisk::cstr::Utf8CStr;
use fuseisk::path::{append_path_impl, slash, FsPathBuilder};
use fuseisk::text::{char_is_whitespace, chars_of, decimal_text, text_is, trimmed};

fn p(s: &str) -> Utf8CStr {
    Utf8CStr::new(s).unwrap()
}

fn appended(buf: &str, path: &str) -> String {
    let mut b = p(buf);
    append_path_impl(&mut b, &p(path));
    b.as_str().to_string()
}

#[test]
fn handle_rejects_interior_nul() {
    assert!(Utf8CStr::new("a\0b").is_none());
    assert!(Utf8CStr::new("\0").is_none());
    assert_eq!(Utf8CStr::new("/init").unwrap().as_str(), "/init");
    assert_eq!(Utf8CStr::new("").unwrap().as_str(), "");
    assert_eq!(Utf8CStr::new("/d\u{e9}j\u{e0}").unwrap().as_str(), "/d\u{e9}j\u{e0}");
}

#[test]
fn handle_basics() {
    let h = p("/a/b");
    assert!(!h.is_empty());
    assert!(Utf8CStr::empty().is_empty());
    assert!(h.starts_with('/'));
    assert!(!h.starts_with('a'));
    assert!(h.ends_with('b'));
    assert!(!Utf8CStr::empty().ends_with('/'));
    assert_eq!(h.chars(), vec!['/', 'a', '/', 'b']);
    assert_eq!(h.substring(1, 2).as_str(), "a");
    assert_eq!(h.clone(), h);
    let mut g = h.clone();
    g.push_str(&p("/c"));
    assert_eq!(g.as_str(), "/a/b/c");
    g.clear();
    assert_eq!(g.as_str(), "");
    assert_eq!(slash().as_str(), "/");
}

#[test]
fn append_path_puts_one_separator() {
    assert_eq!(appended("/a", "b"), "/a/b");
    assert_eq!(appended("/a/", "b"), "/a/b");
    assert_eq!(appended("", "b"), "b");
    assert_eq!(appended("a", "b/c"), "a/b/c");
    assert_eq!(appended("/a", ""), "/a/");
}

#[test]
fn append_path_absolute_replaces() {
    assert_eq!(appended("/a/b", "/c"), "/c");
    assert_eq!(appended("", "/"), "/");
    assert_eq!(appended("x", "/"), "/");
}

#[test]
fn join_path_and_fmt() {
    assert_eq!(
        Utf8CStr::empty().join_path(&p("/proc/self/fd")).join_path_fmt(17).as_str(),
        "/proc/self/fd/17"
    );
    assert_eq!(p("/x").join_path_fmt(-3).as_str(), "/x/-3");
    assert_eq!(p("/x/").join_path_fmt(0).as_str(), "/x//0");
    let mut b = p("/a");
    b.append_path(&p("b"));
    b.append_path_fmt(2147483647);
    assert_eq!(b.as_str(), "/a/b/2147483647");
    let mut c = p("");
    c.append_path_fmt(-2147483648);
    assert_eq!(c.as_str(), "/-2147483648");
}

#[test]
fn parent_dir_is_what_std_finds() {
    assert_eq!(p("/a/b").parent_dir(), Some("/a"));
    assert_eq!(p("/a").parent_dir(), Some("/"));
    assert_eq!(p("/").parent_dir(), None);
    assert_eq!(p("").parent_dir(), None);
    assert_eq!(p("a").parent_dir(), Some(""));
    assert_eq!(p("/a/b/").parent_dir(), Some("/a"));
}

#[test]
fn file_name_is_what_std_finds() {
    assert_eq!(p("/a/b").file_name(), Some("b"));
    assert_eq!(p("/a/b/").file_name(), Some("b"));
    assert_eq!(p("/").file_name(), None);
    assert_eq!(p("/a/..").file_name(), None);
    assert_eq!(p("init.rc").file_name(), Some("init.rc"));
}

#[test]
fn decimal_text_of_numbers() {
    assert_eq!(decimal_text(0), "0");
    assert_eq!(decimal_text(7), "7");
    assert_eq!(decimal_text(10), "10");
    assert_eq!(decimal_text(1234567890), "1234567890");
    assert_eq!(decimal_text(-1), "-1");
    assert_eq!(decimal_text(i32::MAX), "2147483647");
    assert_eq!(decimal_text(i32::MIN), "-2147483648");
}

#[test]
fn whitespace_is_the_unicode_property() {
    for c in ['\t', '\n', '\u{b}', '\u{c}', '\r', ' ', '\u{85}', '\u{a0}', '\u{1680}', '\u{2000}',
        '\u{200a}', '\u{2028}', '\u{2029}', '\u{202f}', '\u{205f}', '\u{3000}']
    {
        assert!(char_is_whitespace(c), "{:?}", c);
    }
    for c in ['a', '=', '\0', '\u{8}', '\u{e}', '\u{200b}', '\u{feff}', '\u{180e}', '"'] {
        assert!(!char_is_whitespace(c), "{:?}", c);
    }
    let mut c = 0u32;
    while c < 0x3100 {
        if let Some(ch) = char::from_u32(c) {
            assert_eq!(char_is_whitespace(ch), ch.is_whitespace(), "{:#x}", c);
        }
        c += 1;
    }
}

#[test]
fn trimmed_drops_whitespace_at_both_ends() {
    assert_eq!(trimmed("  a b \t"), "a b");
    assert_eq!(trimmed(""), "");
    assert_eq!(trimmed(" \n "), "");
    assert_eq!(trimmed("x"), "x");
    assert_eq!(trimmed("\u{3000}x\u{a0}"), "x");
}

#[test]
fn text_helpers() {
    assert!(text_is("qemu", "qemu"));
    assert!(!text_is("qemu", "qemu "));
    assert!(!text_is("", "a"));
    assert_eq!(chars_of("a\u{e9}"), vec!['a', '\u{e9}']);
}
