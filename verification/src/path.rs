//! Building and taking apart paths.

use crate::cstr::Utf8CStr;
use crate::text::{decimal, decimal_text, lemma_decimal_no_nul};
use vstd::prelude::*;
use vstd::string::*;

verus! {

/// The path `buf` with `path` appended to it. An absolute `path` replaces
/// `buf`; otherwise one `/` separates the two, unless `buf` is empty or
/// ends with a `/` already.
pub open spec fn path_appended(buf: Seq<char>, path: Seq<char>) -> Seq<char> {
    let base = if path.len() > 0 && path[0] == '/' {
        Seq::empty()
    } else {
        buf
    };
    if base.len() > 0 && base.last() != '/' {
        base + seq!['/'] + path
    } else {
        base + path
    }
}

/// The path `buf` with a `/` and the number `name` in decimal behind it.
pub open spec fn path_appended_fmt(buf: Seq<char>, name: int) -> Seq<char> {
    buf + seq!['/'] + decimal(name)
}

/// The path separator as a handle.
pub fn slash() -> (r: Utf8CStr)
    ensures
        r@ == seq!['/'],
{
    proof {
        reveal_strlit("/");
    }
    let r = Utf8CStr::from_text("/");
    assert(r@ =~= seq!['/']);
    r
}

/// Appends `path` to the path in `buf`.
pub fn append_path_impl(buf: &mut Utf8CStr, path: &Utf8CStr)
    ensures
        final(buf)@ == path_appended(old(buf)@, path@),
{
    if path.starts_with('/') {
        buf.clear();
    }
    if !buf.is_empty() && !buf.ends_with('/') {
        buf.push_str(&slash());
    }
    buf.push_str(path);
}

/// Paths that grow by components.
pub trait FsPathBuilder: Sized {
    /// The text of the path.
    spec fn path_text(&self) -> Seq<char>;

    /// The path with `path` appended.
    fn join_path(self, path: &Utf8CStr) -> (r: Self)
        ensures
            r.path_text() == path_appended(self.path_text(), path@),
    ;

    /// The path with `/` and `name` in decimal behind it.
    fn join_path_fmt(self, name: i32) -> (r: Self)
        ensures
            r.path_text() == path_appended_fmt(self.path_text(), name as int),
    ;

    /// Appends `path`.
    fn append_path(&mut self, path: &Utf8CStr)
        ensures
            final(self).path_text() == path_appended(old(self).path_text(), path@),
    ;

    /// Puts `/` and `name` in decimal behind the path.
    fn append_path_fmt(&mut self, name: i32)
        ensures
            final(self).path_text() == path_appended_fmt(old(self).path_text(), name as int),
    ;
}

impl FsPathBuilder for Utf8CStr {
    open spec fn path_text(&self) -> Seq<char> {
        self@
    }

    fn join_path(self, path: &Utf8CStr) -> (r: Self) {
        let mut r = self;
        r.append_path(path);
        r
    }

    fn join_path_fmt(self, name: i32) -> (r: Self) {
        let mut r = self;
        r.append_path_fmt(name);
        r
    }

    fn append_path(&mut self, path: &Utf8CStr) {
        append_path_impl(self, path);
    }

    fn append_path_fmt(&mut self, name: i32) {
        let digits = decimal_text(name);
        proof {
            lemma_decimal_no_nul(name as int);
        }
        self.push_str(&slash());
        self.push_str(&Utf8CStr::from_text(digits.as_str()));
    }
}

/// The parent that `std::path::Path::parent` finds for a path, if it finds
/// one.
pub uninterp spec fn path_parent(path: Seq<char>) -> Option<Seq<char>>;

/// The final component that `std::path::Path::file_name` finds in a path,
/// if it finds one.
pub uninterp spec fn path_file_name(path: Seq<char>) -> Option<Seq<char>>;

/// Calls `std::path::Path::parent` on `path` and returns its result as
/// text. The contract gives that result the name [`path_parent`] and says
/// nothing more of it.
#[verifier::external_body]
fn std_parent(path: &str) -> (r: Option<&str>)
    ensures
        r is Some == path_parent(path@) is Some,
        r is Some ==> r->0@ == path_parent(path@)->0,
{
    std::path::Path::new(path).parent().and_then(|p| p.to_str())
}

/// Calls `std::path::Path::file_name` on `path` and returns its result as
/// text. The contract gives that result the name [`path_file_name`] and
/// says nothing more of it.
#[verifier::external_body]
fn std_file_name(path: &str) -> (r: Option<&str>)
    ensures
        r is Some == path_file_name(path@) is Some,
        r is Some ==> r->0@ == path_file_name(path@)->0,
{
    std::path::Path::new(path).file_name().and_then(|p| p.to_str())
}

impl Utf8CStr {
    /// The path without its final component, if it has one.
    pub fn parent_dir(&self) -> (r: Option<&str>)
        ensures
            r is Some == path_parent(self@) is Some,
            r is Some ==> r->0@ == path_parent(self@)->0,
    {
        std_parent(self.as_str())
    }

    /// The final component of the path, if it has one.
    pub fn file_name(&self) -> (r: Option<&str>)
        ensures
            r is Some == path_file_name(self@) is Some,
            r is Some ==> r->0@ == path_file_name(self@)->0,
    {
        std_file_name(self.as_str())
    }
}

} // verus!
