//! Character classes and low-level text scanning.
//!
//! The parser works on `&str` with an explicit cursor position, measured in
//! characters.  The spec functions here define exactly which characters a scan
//! consumes; the executable functions return precisely what the spec
//! functions say.

use vstd::prelude::*;
use vstd::string::StrSliceExecFns;

verus! {

/// Whitespace between tokens.
pub open spec fn is_ws(c: char) -> bool {
    c == ' ' || c == '\t' || c == '\n' || c == '\r'
}

/// A character that can start an identifier segment.
pub open spec fn is_ident_start(c: char) -> bool {
    (97 <= c as u32 && c as u32 <= 122) || (65 <= c as u32 && c as u32 <= 90) || c == '_'
}

/// A character that can continue an identifier segment.
pub open spec fn is_ident_char(c: char) -> bool {
    is_ident_start(c) || is_digit(c)
}

/// A decimal digit.
pub open spec fn is_digit(c: char) -> bool {
    48 <= c as u32 && c as u32 <= 57
}

/// The value of a decimal digit character.
pub open spec fn digit_val(c: char) -> nat {
    (c as u32 - 48) as nat
}

/// The first position at or after `p` that does not hold whitespace.
pub open spec fn spec_skip_ws(s: Seq<char>, p: int) -> int
    decreases s.len() - p,
    when 0 <= p <= s.len()
{
    if p >= s.len() {
        p
    } else if is_ws(s[p]) {
        spec_skip_ws(s, p + 1)
    } else {
        p
    }
}

pub proof fn lemma_skip_ws(s: Seq<char>, p: int)
    requires
        0 <= p <= s.len(),
    ensures
        p <= spec_skip_ws(s, p) <= s.len(),
        spec_skip_ws(s, p) < s.len() ==> !is_ws(s[spec_skip_ws(s, p)]),
    decreases s.len() - p,
{
    if p < s.len() && is_ws(s[p]) {
        lemma_skip_ws(s, p + 1);
    }
}

/// The end of the maximal run of identifier characters starting at `p`.
pub open spec fn spec_ident_end(s: Seq<char>, p: int) -> int
    decreases s.len() - p,
    when 0 <= p <= s.len()
{
    if p < s.len() && is_ident_char(s[p]) {
        spec_ident_end(s, p + 1)
    } else {
        p
    }
}

pub proof fn lemma_ident_end(s: Seq<char>, p: int)
    requires
        0 <= p <= s.len(),
    ensures
        p <= spec_ident_end(s, p) <= s.len(),
        spec_ident_end(s, p) < s.len() ==> !is_ident_char(s[spec_ident_end(s, p)]),
        forall|j: int| p <= j < spec_ident_end(s, p) ==> is_ident_char(#[trigger] s[j]),
    decreases s.len() - p,
{
    if p < s.len() && is_ident_char(s[p]) {
        lemma_ident_end(s, p + 1);
    }
}

/// The end of the maximal run of digits starting at `p`.
pub open spec fn spec_digits_end(s: Seq<char>, p: int) -> int
    decreases s.len() - p,
    when 0 <= p <= s.len()
{
    if p < s.len() && is_digit(s[p]) {
        spec_digits_end(s, p + 1)
    } else {
        p
    }
}

pub proof fn lemma_digits_end(s: Seq<char>, p: int)
    requires
        0 <= p <= s.len(),
    ensures
        p <= spec_digits_end(s, p) <= s.len(),
        spec_digits_end(s, p) < s.len() ==> !is_digit(s[spec_digits_end(s, p)]),
        forall|j: int| p <= j < spec_digits_end(s, p) ==> is_digit(#[trigger] s[j]),
    decreases s.len() - p,
{
    if p < s.len() && is_digit(s[p]) {
        lemma_digits_end(s, p + 1);
    }
}

/// The value of the digit run `s[p..e]`, read as a decimal number.
pub open spec fn spec_digits_val(s: Seq<char>, p: int, e: int) -> nat
    decreases e - p,
    when 0 <= p <= e
{
    if p >= e {
        0
    } else {
        spec_digits_val(s, p, e - 1) * 10 + digit_val(s[e - 1])
    }
}

/// An opaque fragment of host-language code, captured verbatim from a
/// brace-delimited escape block and never interpreted here.  It renders as
/// nothing; an external code generator is what resolves it.
#[derive(Debug, Clone, PartialEq)]
pub struct EscapeBlock {
    pub tokens: String,
}

/// Relies on `String::push`: appends exactly the one character `c`.
#[verifier::external_body]
pub fn push_char(out: &mut String, c: char)
    ensures
        final(out)@ == old(out)@.push(c),
{
    out.push(c);
}

/// Whitespace test, as [`is_ws`].
pub fn ws_char(c: char) -> (r: bool)
    ensures
        r == is_ws(c),
{
    c == ' ' || c == '\t' || c == '\n' || c == '\r'
}

/// Identifier-start test, as [`is_ident_start`].
pub fn ident_start_char(c: char) -> (r: bool)
    ensures
        r == is_ident_start(c),
{
    let u = c as u32;
    (97 <= u && u <= 122) || (65 <= u && u <= 90) || c == '_'
}

/// Identifier-continue test, as [`is_ident_char`].
pub fn ident_char(c: char) -> (r: bool)
    ensures
        r == is_ident_char(c),
{
    ident_start_char(c) || digit_char_test(c)
}

/// Digit test, as [`is_digit`].
pub fn digit_char_test(c: char) -> (r: bool)
    ensures
        r == is_digit(c),
{
    let u = c as u32;
    48 <= u && u <= 57
}

/// Advances `p` past whitespace, as [`spec_skip_ws`].
pub fn skip_ws(s: &str, p: usize) -> (r: usize)
    requires
        p <= s@.len(),
    ensures
        r == spec_skip_ws(s@, p as int),
        p <= r <= s@.len(),
        r < s@.len() ==> !is_ws(s@[r as int]),
{
    let len = s.unicode_len();
    let mut i: usize = p;
    while i < len && ws_char(s.get_char(i))
        invariant
            p <= i <= len,
            len == s@.len(),
            spec_skip_ws(s@, p as int) == spec_skip_ws(s@, i as int),
        decreases len - i,
    {
        i = i + 1;
    }
    i
}

/// The end of the identifier run at `p`, as [`spec_ident_end`].
pub fn ident_end(s: &str, p: usize) -> (r: usize)
    requires
        p <= s@.len(),
    ensures
        r == spec_ident_end(s@, p as int),
        p <= r <= s@.len(),
{
    let len = s.unicode_len();
    let mut i: usize = p;
    while i < len && ident_char(s.get_char(i))
        invariant
            p <= i <= len,
            len == s@.len(),
            spec_ident_end(s@, p as int) == spec_ident_end(s@, i as int),
        decreases len - i,
    {
        i = i + 1;
    }
    i
}

/// The end of the digit run at `p`, as [`spec_digits_end`].
pub fn digits_end(s: &str, p: usize) -> (r: usize)
    requires
        p <= s@.len(),
    ensures
        r == spec_digits_end(s@, p as int),
        p <= r <= s@.len(),
{
    let len = s.unicode_len();
    let mut i: usize = p;
    while i < len && digit_char_test(s.get_char(i))
        invariant
            p <= i <= len,
            len == s@.len(),
            spec_digits_end(s@, p as int) == spec_digits_end(s@, i as int),
        decreases len - i,
    {
        i = i + 1;
    }
    i
}

/// The substring `s[p..e]`, copied into an owned `String`.
pub fn copy_range(s: &str, p: usize, e: usize) -> (r: String)
    requires
        p <= e <= s@.len(),
    ensures
        r@ == s@.subrange(p as int, e as int),
{
    let mut out = String::new();
    let mut i: usize = p;
    while i < e
        invariant
            p <= i <= e <= s@.len(),
            out@ == s@.subrange(p as int, i as int),
        decreases e - i,
    {
        let c = s.get_char(i);
        push_char(&mut out, c);
        proof {
            assert(out@ =~= s@.subrange(p as int, (i + 1) as int));
        }
        i = i + 1;
    }
    out
}

/// Whether the character sequences of `a` and `b` are equal.
pub fn str_eq(a: &str, b: &str) -> (r: bool)
    ensures
        r == (a@ == b@),
{
    let la = a.unicode_len();
    let lb = b.unicode_len();
    if la != lb {
        return false;
    }
    let mut i: usize = 0;
    let mut same: bool = true;
    while i < la && same
        invariant
            i <= la,
            la == a@.len(),
            la == b@.len(),
            same ==> forall|j: int| 0 <= j < i ==> a@[j] == b@[j],
            !same ==> a@ != b@,
        decreases la - i,
    {
        if a.get_char(i) != b.get_char(i) {
            same = false;
        }
        i = i + 1;
    }
    if same {
        proof {
            assert(a@ =~= b@);
        }
    }
    same
}


/// Reassociating a chain of two appended pieces, for any element type.
pub proof fn lemma_cat2_any<T>(o: Seq<T>, a: Seq<T>, b: Seq<T>)
    ensures
        (o + a) + b == o + (a + b),
{
    assert((o + a) + b =~= o + (a + b));
}

/// Reassociating a chain of two appended pieces.
pub proof fn lemma_cat2(o: Seq<char>, a: Seq<char>, b: Seq<char>)
    ensures
        (o + a) + b == o + (a + b),
{
    assert((o + a) + b =~= o + (a + b));
}

/// Reassociating a chain of three appended pieces.
pub proof fn lemma_cat3(o: Seq<char>, a: Seq<char>, s: Seq<char>, b: Seq<char>)
    ensures
        ((o + a) + s) + b == o + (a + s + b),
{
    assert(((o + a) + s) + b =~= o + (a + s + b));
}

/// Reassociating a chain of five appended pieces.
pub proof fn lemma_cat5(
    o: Seq<char>,
    a: Seq<char>,
    s1: Seq<char>,
    b: Seq<char>,
    s2: Seq<char>,
    c: Seq<char>,
)
    ensures
        ((((o + a) + s1) + b) + s2) + c == o + (a + s1 + b + s2 + c),
{
    assert(((((o + a) + s1) + b) + s2) + c =~= o + (a + s1 + b + s2 + c));
}

/// Reassociating a chain of seven appended pieces.
pub proof fn lemma_cat7(
    o: Seq<char>,
    a: Seq<char>,
    s1: Seq<char>,
    b: Seq<char>,
    s2: Seq<char>,
    c: Seq<char>,
    s3: Seq<char>,
    d: Seq<char>,
)
    ensures
        ((((((o + a) + s1) + b) + s2) + c) + s3) + d == o + (a + s1 + b + s2 + c + s3 + d),
{
    assert(((((((o + a) + s1) + b) + s2) + c) + s3) + d =~= o + (a + s1 + b + s2 + c + s3 + d));
}

} // verus!
