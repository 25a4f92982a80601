//! The path handle: text that can be handed to the operating system as a
//! NUL-terminated string.

use crate::text::{chars_of, index_of, lemma_find_char_bounds, no_nul};
use vstd::prelude::*;
use vstd::string::*;

verus! {

/// Text without an interior NUL, so that the text followed by one NUL is a
/// C string. Being a `String`, it is valid UTF-8.
#[derive(Debug, PartialEq, Eq)]
pub struct Utf8CStr {
    text: String,
}

impl View for Utf8CStr {
    type V = Seq<char>;

    closed spec fn view(&self) -> Seq<char> {
        self.text@
    }
}

impl Clone for Utf8CStr {
    fn clone(&self) -> (r: Utf8CStr)
        ensures
            r@ == self@,
    {
        proof {
            use_type_invariant(self);
        }
        Utf8CStr { text: self.text.clone() }
    }
}

impl Utf8CStr {
    #[verifier::type_invariant]
    spec fn well_formed(self) -> bool {
        no_nul(self.text@)
    }

    /// The handle for `s`, unless `s` holds a NUL.
    pub fn new(s: &str) -> (r: Option<Utf8CStr>)
        ensures
            r is Some <==> no_nul(s@),
            r is Some ==> r->0@ == s@,
    {
        let chars = chars_of(s);
        let k = index_of(&chars, '\0', 0);
        proof {
            lemma_find_char_bounds(s@, '\0', 0);
        }
        if k < chars.len() {
            None
        } else {
            Some(Utf8CStr { text: String::from_str(s) })
        }
    }

    /// The handle for text known to be free of NUL.
    pub(crate) fn from_text(s: &str) -> (r: Utf8CStr)
        requires
            no_nul(s@),
        ensures
            r@ == s@,
    {
        Utf8CStr { text: String::from_str(s) }
    }

    /// The empty handle.
    pub fn empty() -> (r: Utf8CStr)
        ensures
            r@ == Seq::<char>::empty(),
    {
        Utf8CStr { text: String::new() }
    }

    /// The text of the handle.
    pub fn as_str(&self) -> (r: &str)
        ensures
            r@ == self@,
            no_nul(r@),
    {
        proof {
            use_type_invariant(self);
        }
        self.text.as_str()
    }

    /// Whether the text is empty.
    pub fn is_empty(&self) -> (r: bool)
        ensures
            r == (self@.len() == 0),
    {
        self.text.as_str().unicode_len() == 0
    }

    /// Whether the text starts with `c`.
    pub fn starts_with(&self, c: char) -> (r: bool)
        ensures
            r == (self@.len() > 0 && self@[0] == c),
    {
        let s = self.text.as_str();
        s.unicode_len() > 0 && s.get_char(0) == c
    }

    /// Whether the text ends with `c`.
    pub fn ends_with(&self, c: char) -> (r: bool)
        ensures
            r == (self@.len() > 0 && self@.last() == c),
    {
        let s = self.text.as_str();
        let n = s.unicode_len();
        n > 0 && s.get_char(n - 1) == c
    }

    /// The characters of the text.
    pub fn chars(&self) -> (r: Vec<char>)
        ensures
            r@ == self@,
    {
        chars_of(self.text.as_str())
    }

    /// The part of the text from character `from` up to character `to`.
    pub fn substring(&self, from: usize, to: usize) -> (r: Utf8CStr)
        requires
            from <= to <= self@.len(),
        ensures
            r@ == self@.subrange(from as int, to as int),
    {
        proof {
            use_type_invariant(self);
        }
        Utf8CStr { text: String::from_str(self.text.as_str().substring_char(from, to)) }
    }

    /// Empties the text.
    pub fn clear(&mut self)
        ensures
            final(self)@ == Seq::<char>::empty(),
    {
        self.text = String::new();
    }

    /// Puts `other` behind the text.
    pub fn push_str(&mut self, other: &Utf8CStr)
        ensures
            final(self)@ == old(self)@ + other@,
    {
        proof {
            use_type_invariant(&*self);
            use_type_invariant(other);
        }
        self.text = self.text.clone().concat(other.text.as_str());
    }
}

} // verus!
