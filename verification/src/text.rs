//! Scanning of character sequences: the vocabulary in which the parsers and
//! the path operations of this crate are specified.

use vstd::prelude::*;
use vstd::string::*;

verus! {

/// Whether `c` carries the Unicode `White_Space` property.
pub open spec fn is_whitespace(c: char) -> bool {
    let u = c as u32;
    ||| 0x09 <= u <= 0x0d
    ||| u == 0x20
    ||| u == 0x85
    ||| u == 0xa0
    ||| u == 0x1680
    ||| 0x2000 <= u <= 0x200a
    ||| u == 0x2028
    ||| u == 0x2029
    ||| u == 0x202f
    ||| u == 0x205f
    ||| u == 0x3000
}

/// The first index in `[from, s.len())` whose character is whitespace
/// (`want`) or is not (`!want`); `s.len()` if there is none.
pub open spec fn scan_space(s: Seq<char>, from: int, want: bool) -> int
    decreases s.len() - from,
{
    if from < 0 || from >= s.len() {
        s.len() as int
    } else if is_whitespace(s[from]) == want {
        from
    } else {
        scan_space(s, from + 1, want)
    }
}

/// The first index in `[from, s.len())` that holds `c`; `s.len()` if there
/// is none.
pub open spec fn find_char(s: Seq<char>, c: char, from: int) -> int
    decreases s.len() - from,
{
    if from < 0 || from >= s.len() {
        s.len() as int
    } else if s[from] == c {
        from
    } else {
        find_char(s, c, from + 1)
    }
}

/// The first index in `[from, s.len())` that does not hold `c`; `s.len()` if
/// there is none.
pub open spec fn skip_run(s: Seq<char>, c: char, from: int) -> int
    decreases s.len() - from,
{
    if from < 0 || from >= s.len() {
        s.len() as int
    } else if s[from] != c {
        from
    } else {
        skip_run(s, c, from + 1)
    }
}

/// One past the last of the first `upto` characters of `s` that is not
/// whitespace; 0 if there is none.
pub open spec fn trim_end_at(s: Seq<char>, upto: int) -> int
    decreases upto,
{
    if upto <= 0 || upto > s.len() {
        0
    } else if !is_whitespace(s[upto - 1]) {
        upto
    } else {
        trim_end_at(s, upto - 1)
    }
}

/// `s` without its leading and trailing whitespace.
pub open spec fn trim(s: Seq<char>) -> Seq<char> {
    let b = scan_space(s, 0, false);
    if b >= s.len() {
        Seq::empty()
    } else {
        s.subrange(b, trim_end_at(s, s.len() as int))
    }
}

/// [`scan_space`] finds the first index of its kind, and passes over none.
pub proof fn lemma_scan_space_bounds(s: Seq<char>, from: int, want: bool)
    requires
        0 <= from <= s.len(),
    ensures
        from <= scan_space(s, from, want) <= s.len(),
        forall|j: int| from <= j < scan_space(s, from, want) ==> is_whitespace(#[trigger] s[j]) != want,
        scan_space(s, from, want) < s.len() ==> is_whitespace(s[scan_space(s, from, want)]) == want,
    decreases s.len() - from,
{
    if from < s.len() && is_whitespace(s[from]) != want {
        lemma_scan_space_bounds(s, from + 1, want);
    }
}

/// [`find_char`] finds the first index that holds the character.
pub proof fn lemma_find_char_bounds(s: Seq<char>, c: char, from: int)
    requires
        0 <= from <= s.len(),
    ensures
        from <= find_char(s, c, from) <= s.len(),
        forall|j: int| from <= j < find_char(s, c, from) ==> #[trigger] s[j] != c,
        find_char(s, c, from) < s.len() ==> s[find_char(s, c, from)] == c,
    decreases s.len() - from,
{
    if from < s.len() && s[from] != c {
        lemma_find_char_bounds(s, c, from + 1);
    }
}

/// [`skip_run`] finds the first index that does not hold the character.
pub proof fn lemma_skip_run_bounds(s: Seq<char>, c: char, from: int)
    requires
        0 <= from <= s.len(),
    ensures
        from <= skip_run(s, c, from) <= s.len(),
        forall|j: int| from <= j < skip_run(s, c, from) ==> #[trigger] s[j] == c,
        skip_run(s, c, from) < s.len() ==> s[skip_run(s, c, from)] != c,
    decreases s.len() - from,
{
    if from < s.len() && s[from] == c {
        lemma_skip_run_bounds(s, c, from + 1);
    }
}

/// [`trim_end_at`] cuts off whitespace, all of it and nothing else.
pub proof fn lemma_trim_end_bounds(s: Seq<char>, upto: int)
    requires
        0 <= upto <= s.len(),
    ensures
        0 <= trim_end_at(s, upto) <= upto,
        forall|j: int| trim_end_at(s, upto) <= j < upto ==> is_whitespace(#[trigger] s[j]),
        trim_end_at(s, upto) > 0 ==> !is_whitespace(s[trim_end_at(s, upto) - 1]),
    decreases upto,
{
    if upto > 0 && is_whitespace(s[upto - 1]) {
        lemma_trim_end_bounds(s, upto - 1);
    }
}

/// The decimal digit for `d`.
pub open spec fn digit_char(d: int) -> char {
    if d == 0 {
        '0'
    } else if d == 1 {
        '1'
    } else if d == 2 {
        '2'
    } else if d == 3 {
        '3'
    } else if d == 4 {
        '4'
    } else if d == 5 {
        '5'
    } else if d == 6 {
        '6'
    } else if d == 7 {
        '7'
    } else if d == 8 {
        '8'
    } else {
        '9'
    }
}

/// The decimal digits of `n`, without leading zeros.
pub open spec fn decimal_nat(n: nat) -> Seq<char>
    decreases n,
{
    if n < 10 {
        seq![digit_char(n as int)]
    } else {
        decimal_nat(n / 10).push(digit_char((n % 10) as int))
    }
}

/// `n` in decimal, with `-` in front where it is negative.
pub open spec fn decimal(n: int) -> Seq<char> {
    if n < 0 {
        seq!['-'] + decimal_nat((-n) as nat)
    } else {
        decimal_nat(n as nat)
    }
}

/// Whether `s` holds no NUL character.
pub open spec fn no_nul(s: Seq<char>) -> bool {
    forall|i: int| 0 <= i < s.len() ==> s[i] != '\0'
}

/// Digits are no NUL.
pub proof fn lemma_decimal_nat_no_nul(n: nat)
    ensures
        no_nul(decimal_nat(n)),
    decreases n,
{
    if n >= 10 {
        lemma_decimal_nat_no_nul(n / 10);
        let head = decimal_nat(n / 10);
        let last = digit_char((n % 10) as int);
        assert forall|i: int| 0 <= i < head.push(last).len() implies head.push(last)[i] != '\0' by {
            if i < head.len() {
                assert(head.push(last)[i] == head[i]);
            }
        }
    }
}

/// A number in decimal holds no NUL.
pub proof fn lemma_decimal_no_nul(n: int)
    ensures
        no_nul(decimal(n)),
{
    if n < 0 {
        lemma_decimal_nat_no_nul((-n) as nat);
        let digits = decimal_nat((-n) as nat);
        assert forall|i: int| 0 <= i < (seq!['-'] + digits).len() implies (seq!['-'] + digits)[i]
            != '\0' by {
            if i > 0 {
                assert((seq!['-'] + digits)[i] == digits[i - 1]);
            }
        }
    } else {
        lemma_decimal_nat_no_nul(n as nat);
    }
}

fn digit_text(d: u64) -> (r: &'static str)
    requires
        d < 10,
    ensures
        r@ == seq![digit_char(d as int)],
{
    proof {
        reveal_strlit("0");
        reveal_strlit("1");
        reveal_strlit("2");
        reveal_strlit("3");
        reveal_strlit("4");
        reveal_strlit("5");
        reveal_strlit("6");
        reveal_strlit("7");
        reveal_strlit("8");
        reveal_strlit("9");
    }
    let r = if d == 0 {
        "0"
    } else if d == 1 {
        "1"
    } else if d == 2 {
        "2"
    } else if d == 3 {
        "3"
    } else if d == 4 {
        "4"
    } else if d == 5 {
        "5"
    } else if d == 6 {
        "6"
    } else if d == 7 {
        "7"
    } else if d == 8 {
        "8"
    } else {
        "9"
    };
    assert(r@ =~= seq![digit_char(d as int)]);
    r
}

fn decimal_digits(n: u64) -> (r: String)
    ensures
        r@ == decimal_nat(n as nat),
    decreases n,
{
    if n < 10 {
        String::from_str(digit_text(n))
    } else {
        let r = decimal_digits(n / 10).concat(digit_text(n % 10));
        assert(r@ =~= decimal_nat((n / 10) as nat).push(digit_char((n % 10) as int)));
        r
    }
}

/// `n` in decimal.
pub fn decimal_text(n: i32) -> (r: String)
    ensures
        r@ == decimal(n as int),
{
    if n < 0 {
        let m: u64 = (-(n as i64)) as u64;
        proof {
            reveal_strlit("-");
            assert("-"@ =~= seq!['-']);
        }
        String::from_str("-").concat(decimal_digits(m).as_str())
    } else {
        decimal_digits(n as u64)
    }
}

/// Tests the Unicode `White_Space` property.
pub fn char_is_whitespace(c: char) -> (r: bool)
    ensures
        r == is_whitespace(c),
{
    let u: u32 = c as u32;
    (0x09 <= u && u <= 0x0d) || u == 0x20 || u == 0x85 || u == 0xa0 || u == 0x1680 || (0x2000 <= u
        && u <= 0x200a) || u == 0x2028 || u == 0x2029 || u == 0x202f || u == 0x205f || u == 0x3000
}

/// The characters of `s`, for indexing in constant time.
pub fn chars_of(s: &str) -> (v: Vec<char>)
    ensures
        v@ == s@,
{
    let mut v: Vec<char> = Vec::new();
    for c in it: s.chars()
        invariant
            it.seq() == s@,
            v@ == it.seq().subrange(0, it.index() as int),
    {
        v.push(c);
        assert(v@ =~= it.seq().subrange(0, it.index() + 1));
    }
    assert(v@ =~= s@);
    v
}

/// Whether `s` reads exactly as `lit`.
pub fn text_is(s: &str, lit: &str) -> (r: bool)
    ensures
        r == (s@ == lit@),
{
    let a = String::from_str(s);
    let b = String::from_str(lit);
    a == b
}

/// The index of the first whitespace (`want`) or non-whitespace (`!want`)
/// character at or after `from`.
pub(crate) fn skip_space(chars: &Vec<char>, from: usize, want: bool) -> (r: usize)
    requires
        from <= chars@.len(),
    ensures
        r as int == scan_space(chars@, from as int, want),
        from <= r <= chars@.len(),
{
    let mut i: usize = from;
    while i < chars.len() && char_is_whitespace(chars[i]) != want
        invariant
            from <= i <= chars@.len(),
            scan_space(chars@, from as int, want) == scan_space(chars@, i as int, want),
        decreases chars@.len() - i,
    {
        i = i + 1;
    }
    proof {
        lemma_scan_space_bounds(chars@, from as int, want);
    }
    i
}

/// The index of the first `c` at or after `from`, or the length.
pub(crate) fn index_of(chars: &Vec<char>, c: char, from: usize) -> (r: usize)
    requires
        from <= chars@.len(),
    ensures
        r as int == find_char(chars@, c, from as int),
        from <= r <= chars@.len(),
{
    let mut i: usize = from;
    while i < chars.len() && chars[i] != c
        invariant
            from <= i <= chars@.len(),
            find_char(chars@, c, from as int) == find_char(chars@, c, i as int),
        decreases chars@.len() - i,
    {
        i = i + 1;
    }
    proof {
        lemma_find_char_bounds(chars@, c, from as int);
    }
    i
}

/// The index of the first character other than `c` at or after `from`, or
/// the length.
pub(crate) fn index_past(chars: &Vec<char>, c: char, from: usize) -> (r: usize)
    requires
        from <= chars@.len(),
    ensures
        r as int == skip_run(chars@, c, from as int),
        from <= r <= chars@.len(),
{
    let mut i: usize = from;
    while i < chars.len() && chars[i] == c
        invariant
            from <= i <= chars@.len(),
            skip_run(chars@, c, from as int) == skip_run(chars@, c, i as int),
        decreases chars@.len() - i,
    {
        i = i + 1;
    }
    proof {
        lemma_skip_run_bounds(chars@, c, from as int);
    }
    i
}

/// One past the last non-whitespace character before `upto`, or 0.
pub(crate) fn trim_end_index(chars: &Vec<char>, upto: usize) -> (r: usize)
    requires
        upto <= chars@.len(),
    ensures
        r as int == trim_end_at(chars@, upto as int),
        r <= upto,
{
    let mut i: usize = upto;
    while i > 0 && char_is_whitespace(chars[i - 1])
        invariant
            i <= upto <= chars@.len(),
            trim_end_at(chars@, upto as int) == trim_end_at(chars@, i as int),
        decreases i,
    {
        i = i - 1;
    }
    proof {
        lemma_trim_end_bounds(chars@, upto as int);
    }
    i
}

/// A copy of `s` without its leading and trailing whitespace.
pub fn trimmed(s: &str) -> (r: String)
    ensures
        r@ == trim(s@),
{
    let chars = chars_of(s);
    let b = skip_space(&chars, 0, false);
    if b >= chars.len() {
        String::new()
    } else {
        let e = trim_end_index(&chars, chars.len());
        proof {
            lemma_trim_end_bounds(chars@, chars@.len() as int);
            lemma_scan_space_bounds(chars@, 0, false);
            // The character at `b` is not whitespace, so the cut from the end stops behind it.
            assert(b < e) by {
                if e <= b {
                    assert(is_whitespace(chars@[b as int]));
                }
            }
        }
        String::from_str(s.substring_char(b, e))
    }
}

} // verus!
