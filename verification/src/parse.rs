//! Parsing infrastructure: cursor helpers, hyphen-words and numeric
//! literals.
//!
//! Parsers take the input string and a character position and return the
//! parsed value with the position after it, or a [`ParseError`].  Every
//! executable parser returns exactly what its specification function says,
//! so all reasoning about the grammar can happen at the specification level.

use vstd::prelude::*;
use vstd::string::StrSliceExecFns;
use crate::diag::{err_matches, ParseError, SpecErr, TryList, quoted, spec_insert};
use crate::num::{pow10, Num};
use crate::text::{
    copy_range, digits_end, ident_end, is_digit, is_ident_char, is_ident_start, is_ws, push_char,
    skip_ws, spec_digits_end, spec_digits_val, spec_ident_end, spec_skip_ws, digit_val,
    lemma_skip_ws, lemma_ident_end, lemma_digits_end, ident_start_char, digit_char_test, ws_char,
};

verus! {

/// Whether an executable mid-stream parse result is the one the spec names.
pub open spec fn res_matches<T>(
    r: Result<(T, usize), ParseError>,
    sr: Result<(T, int), SpecErr>,
) -> bool {
    match r {
        Ok((v, e)) => sr is Ok && sr->Ok_0.0 == v && sr->Ok_0.1 == e as int,
        Err(er) => sr is Err && err_matches(er, sr->Err_0),
    }
}

/// Whether an executable whole-input parse result is the one the spec names.
pub open spec fn res_str_matches<T>(r: Result<T, ParseError>, sr: Result<T, SpecErr>) -> bool {
    match r {
        Ok(v) => sr is Ok && sr->Ok_0 == v,
        Err(er) => sr is Err && err_matches(er, sr->Err_0),
    }
}

/// Requires the whole rest of the input to be consumed: a parse that left
/// anything but whitespace behind fails at the leftover.
pub open spec fn spec_complete<T>(s: Seq<char>, r: Result<(T, int), SpecErr>) -> Result<
    T,
    SpecErr,
> {
    match r {
        Ok((v, e)) => {
            let q = spec_skip_ws(s, e);
            if q >= s.len() {
                Ok(v)
            } else {
                Err(SpecErr { pos: q, msg: "unexpected token"@ })
            }
        },
        Err(e) => Err(e),
    }
}

/// Finishes a whole-input parse: fails on anything left but whitespace.
pub fn complete_parse<T>(s: &str, r: Result<(T, usize), ParseError>) -> (out: Result<
    T,
    ParseError,
>)
    requires
        r is Ok ==> r->Ok_0.1 <= s@.len(),
    ensures
        forall|sr: Result<(T, int), SpecErr>|
            res_matches(r, sr) ==> res_str_matches(out, #[trigger] spec_complete(s@, sr)),
{
    match r {
        Ok((v, e)) => {
            let q = skip_ws(s, e);
            let len = s.unicode_len();
            if q >= len {
                Ok(v)
            } else {
                Err(crate::diag::error_at(q, "unexpected token"))
            }
        },
        Err(e) => Err(e),
    }
}

/// Whether the current rule is finished: end of input or a `;` ahead.
pub open spec fn spec_finished(s: Seq<char>, p: int) -> bool {
    let q = spec_skip_ws(s, p);
    q >= s.len() || s[q] == ';'
}

/// Whether the current rule is finished, as [`spec_finished`].
pub fn finished_rule(s: &str, p: usize) -> (r: bool)
    requires
        p <= s@.len(),
    ensures
        r == spec_finished(s@, p as int),
{
    let q = skip_ws(s, p);
    let len = s.unicode_len();
    q >= len || s.get_char(q) == ';'
}

/// The first position at or after `p` holding `c`, or the input's end.
pub open spec fn spec_find_char(s: Seq<char>, p: int, c: char) -> int
    decreases s.len() - p,
    when 0 <= p <= s.len()
{
    if p >= s.len() {
        p
    } else if s[p] == c {
        p
    } else {
        spec_find_char(s, p + 1, c)
    }
}

pub proof fn lemma_find_char(s: Seq<char>, p: int, c: char)
    requires
        0 <= p <= s.len(),
    ensures
        p <= spec_find_char(s, p, c) <= s.len(),
        spec_find_char(s, p, c) < s.len() ==> s[spec_find_char(s, p, c)] == c,
    decreases s.len() - p,
{
    if p < s.len() && s[p] != c {
        lemma_find_char(s, p + 1, c);
    }
}

/// Finds `c`, as [`spec_find_char`].
pub fn find_char(s: &str, p: usize, c: char) -> (r: usize)
    requires
        p <= s@.len(),
    ensures
        r == spec_find_char(s@, p as int, c),
        p <= r <= s@.len(),
{
    let len = s.unicode_len();
    let mut i: usize = p;
    while i < len && s.get_char(i) != c
        invariant
            p <= i <= len,
            len == s@.len(),
            spec_find_char(s@, p as int, c) == spec_find_char(s@, i as int, c),
        decreases len - i,
    {
        i = i + 1;
    }
    i
}

/// What a hyphen-word parse yields at the spec level: the word (absent when
/// no identifier is ahead), the position it starts at (for diagnostics), and
/// the position after it.
pub ghost struct SpecHw {
    pub word: Option<Seq<char>>,
    pub at: int,
    pub end: int,
}

/// Joining further `-segment` parts onto a word that started at `at`.
pub open spec fn spec_hw_loop(s: Seq<char>, word: Seq<char>, at: int, p: int) -> Result<
    SpecHw,
    SpecErr,
>
    decreases s.len() - p,
    when 0 <= p <= s.len()
    via spec_hw_loop_dec
{
    let q = spec_skip_ws(s, p);
    if q < s.len() && s[q] == '-' {
        let q2 = spec_skip_ws(s, q + 1);
        if q2 >= s.len() || !is_ident_start(s[q2]) {
            Err(SpecErr { pos: q2, msg: "expected identifier"@ })
        } else {
            let e2 = spec_ident_end(s, q2);
            spec_hw_loop(s, word + seq!['-'] + s.subrange(q2, e2), at, e2)
        }
    } else {
        Ok(SpecHw { word: Some(word), at, end: p })
    }
}

#[via_fn]
proof fn spec_hw_loop_dec(s: Seq<char>, word: Seq<char>, at: int, p: int) {
    lemma_skip_ws(s, p);
    let q = spec_skip_ws(s, p);
    if q < s.len() && s[q] == '-' {
        lemma_skip_ws(s, q + 1);
        let q2 = spec_skip_ws(s, q + 1);
        if !(q2 >= s.len() || !is_ident_start(s[q2])) {
            lemma_ident_end(s, q2);
        }
    }
}

/// A hyphen-word: one or more identifier segments joined by single hyphens,
/// or no word at all when no identifier is ahead (in which case nothing is
/// consumed and the missing word still takes part in diagnostics).
pub open spec fn spec_hyphen_word(s: Seq<char>, p: int) -> Result<SpecHw, SpecErr> {
    let q = spec_skip_ws(s, p);
    if q >= s.len() || !is_ident_start(s[q]) {
        Ok(SpecHw { word: None, at: q, end: p })
    } else {
        let e1 = spec_ident_end(s, q);
        spec_hw_loop(s, s.subrange(q, e1), q, e1)
    }
}

/// On success a hyphen word never moves backwards, and a present word
/// consumed at least one character.
pub proof fn lemma_hw_advances(s: Seq<char>, p: int)
    requires
        0 <= p <= s.len(),
    ensures
        spec_hyphen_word(s, p) is Ok ==> p <= spec_hyphen_word(s, p)->Ok_0.end <= s.len(),
        spec_hyphen_word(s, p) is Ok && spec_hyphen_word(s, p)->Ok_0.word is Some ==> p
            < spec_hyphen_word(s, p)->Ok_0.end,
        spec_hyphen_word(s, p) is Ok ==> 0 <= spec_hyphen_word(s, p)->Ok_0.at <= s.len(),
{
    lemma_skip_ws(s, p);
    let q = spec_skip_ws(s, p);
    if !(q >= s.len() || !is_ident_start(s[q])) {
        lemma_ident_end(s, q);
        let e1 = spec_ident_end(s, q);
        lemma_hw_loop_advances(s, s.subrange(q, e1), q, e1);
    }
}

proof fn lemma_hw_loop_advances(s: Seq<char>, word: Seq<char>, at: int, p: int)
    requires
        0 <= p <= s.len(),
    ensures
        spec_hw_loop(s, word, at, p) is Ok ==> p <= spec_hw_loop(s, word, at, p)->Ok_0.end
            <= s.len(),
        spec_hw_loop(s, word, at, p) is Ok ==> spec_hw_loop(s, word, at, p)->Ok_0.at == at,
        spec_hw_loop(s, word, at, p) is Ok ==> spec_hw_loop(s, word, at, p)->Ok_0.word is Some,
    decreases s.len() - p,
{
    lemma_skip_ws(s, p);
    let q = spec_skip_ws(s, p);
    if q < s.len() && s[q] == '-' {
        lemma_skip_ws(s, q + 1);
        let q2 = spec_skip_ws(s, q + 1);
        if !(q2 >= s.len() || !is_ident_start(s[q2])) {
            lemma_ident_end(s, q2);
            let e2 = spec_ident_end(s, q2);
            lemma_hw_loop_advances(s, word + seq!['-'] + s.subrange(q2, e2), at, e2);
        }
    }
}

/// A consumed hyphen-word, together with the candidates that dispatch has
/// tried against it.
#[derive(Debug)]
pub struct HyphenWord {
    pub pos: usize,
    pub word: Option<String>,
    pub tried: TryList,
}

impl HyphenWord {
    /// The word as a character sequence, if one was present.
    pub open spec fn word_view(self) -> Option<Seq<char>> {
        match self.word {
            Option::Some(w) => Option::Some(w@),
            Option::None => Option::None,
        }
    }

    /// A word parsed at `pos`.
    pub fn new(pos: usize, word: String) -> (r: HyphenWord)
        ensures
            r.pos == pos,
            r.word_view() == Option::Some(word@),
            r.tried.view_seq() =~= Seq::<Seq<char>>::empty(),
    {
        HyphenWord { pos, word: Option::Some(word), tried: TryList::new() }
    }

    /// The placeholder when no identifier was ahead at `pos`.
    pub fn new_no_word(pos: usize) -> (r: HyphenWord)
        ensures
            r.pos == pos,
            r.word_view() is None,
            r.tried.view_seq() =~= Seq::<Seq<char>>::empty(),
    {
        HyphenWord { pos, word: Option::None, tried: TryList::new() }
    }

    /// Compares the word against one candidate; a failed candidate is
    /// recorded for the combined diagnostic.
    pub fn try_match(&mut self, other: &str) -> (r: bool)
        ensures
            r == (old(self).word_view() == Option::Some(other@)),
            final(self).pos == old(self).pos,
            final(self).word == old(self).word,
            final(self).tried.view_seq() == if r {
                old(self).tried.view_seq()
            } else {
                spec_insert(old(self).tried.view_seq(), quoted(other@))
            },
    {
        let matched = match &self.word {
            Option::Some(w) => crate::text::str_eq(w.as_str(), other),
            Option::None => false,
        };
        if matched {
            true
        } else {
            self.tried.add_literal(other);
            false
        }
    }

    /// Records a candidate described in prose for the diagnostic.
    pub fn add_expected(&mut self, ty: &str)
        ensures
            final(self).pos == old(self).pos,
            final(self).word == old(self).word,
            final(self).tried.view_seq() == spec_insert(old(self).tried.view_seq(), ty@),
    {
        self.tried.add(ty);
    }

    /// The `expected one of` diagnostic at the word's position; at least one
    /// candidate must have been tried.
    pub fn error(&self) -> (r: ParseError)
        requires
            self.tried.view_seq().len() > 0,
        ensures
            r.pos == self.pos,
            r.msg@ == "expected one of "@ + crate::diag::spec_join(self.tried.view_seq()),
    {
        self.tried.to_error(self.pos)
    }

    /// Whether an identifier is ahead.
    pub fn peek(s: &str, p: usize) -> (r: bool)
        requires
            p <= s@.len(),
        ensures
            r == ({
                let q = spec_skip_ws(s@, p as int);
                q < s@.len() && is_ident_start(s@[q])
            }),
    {
        let q = skip_ws(s, p);
        let len = s.unicode_len();
        q < len && ident_start_char(s.get_char(q))
    }

    /// The word as a string slice, if one was present.
    pub fn word(&self) -> (r: Option<&str>)
        ensures
            match r {
                Option::Some(w) => self.word_view() == Option::Some(w@),
                Option::None => self.word_view() is None,
            },
    {
        match &self.word {
            Option::Some(w) => Option::Some(w.as_str()),
            Option::None => Option::None,
        }
    }

    /// Whether the executable outcome is the one the spec names: the word,
    /// its position, the cursor after it, and no candidate tried yet.
    pub open spec fn hw_matches(
        r: Result<(HyphenWord, usize), ParseError>,
        sr: Result<SpecHw, SpecErr>,
    ) -> bool {
        match r {
            Ok((hw, e)) => sr is Ok && hw.word_view() == sr->Ok_0.word && hw.pos as int
                == sr->Ok_0.at && e as int == sr->Ok_0.end && hw.tried.view_seq()
                == Seq::<Seq<char>>::empty(),
            Err(er) => sr is Err && err_matches(er, sr->Err_0),
        }
    }

    /// Consumes a hyphen-word, as [`spec_hyphen_word`]; consumes nothing
    /// when no identifier is ahead.
    pub fn parse(s: &str, pos: usize) -> (r: Result<(HyphenWord, usize), ParseError>)
        requires
            pos <= s@.len(),
        ensures
            Self::hw_matches(r, spec_hyphen_word(s@, pos as int)),
            r is Ok ==> r->Ok_0.1 <= s@.len(),
    {
        let len = s.unicode_len();
        let q = skip_ws(s, pos);
        if q >= len || !ident_start_char(s.get_char(q)) {
            return Ok((HyphenWord::new_no_word(q), pos));
        }
        let e1 = ident_end(s, q);
        let mut word = copy_range(s, q, e1);
        let mut p: usize = e1;
        proof {
            lemma_ident_end(s@, q as int);
        }
        loop
            invariant
                q <= p <= s@.len(),
                len == s@.len(),
                spec_hyphen_word(s@, pos as int) == spec_hw_loop(s@, word@, q as int, p as int),
            decreases s@.len() - p,
        {
            let q1 = skip_ws(s, p);
            if q1 < len && s.get_char(q1) == '-' {
                let q2 = skip_ws(s, q1 + 1);
                if q2 >= len || !ident_start_char(s.get_char(q2)) {
                    return Err(crate::diag::error_at(q2, "expected identifier"));
                }
                let e2 = ident_end(s, q2);
                proof {
                    lemma_ident_end(s@, q2 as int);
                }
                let ghost w0 = word@;
                push_char(&mut word, '-');
                let seg = copy_range(s, q2, e2);
                word.append(seg.as_str());
                proof {
                    assert(word@ =~= w0 + seq!['-'] + s@.subrange(q2 as int, e2 as int));
                }
                p = e2;
            } else {
                return Ok((HyphenWord::new(q, word), p));
            }
        }
    }
}

} // verus!

verus! {

/// Normalizing a fraction: strips factors of ten into the scale until the
/// mantissa no longer ends in zero (or the scale is used up).
pub open spec fn spec_normalize(m: nat, sc: nat) -> (nat, nat)
    decreases sc,
{
    if sc == 0 || m % 10 != 0 {
        (m, sc)
    } else {
        spec_normalize(m / 10, (sc - 1) as nat)
    }
}

pub proof fn lemma_normalize(m: nat, sc: nat)
    ensures
        spec_normalize(m, sc).1 <= sc,
        spec_normalize(m, sc).0 <= m,
        spec_normalize(m, sc).1 == 0 || spec_normalize(m, sc).0 % 10 != 0,
    decreases sc,
{
    if !(sc == 0 || m % 10 != 0) {
        lemma_normalize(m / 10, (sc - 1) as nat);
    }
}

/// What a numeric-literal parse yields at the spec level.
pub ghost struct SpecNumber {
    pub value: Num,
    pub suffix: Seq<char>,
    pub at: int,
    pub end: int,
}

/// The suffix after a number: an adjacent identifier run; else a following
/// `%`; else a following string literal, whose text is the suffix (the
/// quoted-unit escape); else no suffix.
pub open spec fn spec_num_suffix(s: Seq<char>, at: int, v: Num, p: int) -> Result<
    SpecNumber,
    SpecErr,
> {
    if p < s.len() && is_ident_start(s[p]) {
        let e = spec_ident_end(s, p);
        Ok(SpecNumber { value: v, suffix: s.subrange(p, e), at, end: e })
    } else {
        let q = spec_skip_ws(s, p);
        if q < s.len() && s[q] == '%' {
            Ok(SpecNumber { value: v, suffix: seq!['%'], at, end: q + 1 })
        } else if q < s.len() && s[q] == '"' {
            let e = spec_find_char(s, q + 1, '"');
            if e >= s.len() {
                Err(SpecErr { pos: q, msg: "unterminated string"@ })
            } else {
                Ok(SpecNumber { value: v, suffix: s.subrange(q + 1, e), at, end: e + 1 })
            }
        } else {
            Ok(SpecNumber { value: v, suffix: Seq::empty(), at, end: p })
        }
    }
}

/// A numeric literal: an integer (at most `u32::MAX`, as CSS magnitudes
/// never need more) or a decimal fraction (mantissa at most `u64::MAX`),
/// followed by its optional unit suffix.  The value is normalized.
pub open spec fn spec_number(s: Seq<char>, p: int) -> Result<SpecNumber, SpecErr> {
    let q = spec_skip_ws(s, p);
    if q >= s.len() || !is_digit(s[q]) {
        Err(SpecErr { pos: q, msg: "expected number"@ })
    } else {
        let e1 = spec_digits_end(s, q);
        let iv = spec_digits_val(s, q, e1);
        if e1 < s.len() && s[e1] == '.' {
            let e2 = spec_digits_end(s, e1 + 1);
            let fl = e2 - (e1 + 1);
            let total = iv * pow10(fl as nat) + spec_digits_val(s, e1 + 1, e2);
            if fl > u32::MAX as int || total > u64::MAX as nat {
                Err(SpecErr { pos: q, msg: "number too large"@ })
            } else {
                let n = spec_normalize(total, fl as nat);
                spec_num_suffix(s, q, Num { mantissa: n.0 as u64, scale: n.1 as u32 }, e2)
            }
        } else {
            if iv > u32::MAX as nat {
                Err(SpecErr { pos: q, msg: "number too large"@ })
            } else {
                spec_num_suffix(s, q, Num { mantissa: iv as u64, scale: 0 }, e1)
            }
        }
    }
}

/// Reads the digit run `s[p..e]` on top of `base`: the result stands for
/// `base * 10^(e-p) + value(s[p..e])`, or `None` when that exceeds `u64`.
fn digits_value_base(s: &str, p: usize, e: usize, base: Option<u64>) -> (r: Option<u64>)
    requires
        p <= e <= s@.len(),
        forall|j: int| p <= j < e ==> is_digit(#[trigger] s@[j]),
    ensures
        match base {
            Option::Some(b) => {
                let total = (b as nat) * pow10((e - p) as nat) + spec_digits_val(
                    s@,
                    p as int,
                    e as int,
                );
                match r {
                    Option::Some(v) => v as nat == total,
                    Option::None => total > u64::MAX,
                }
            },
            Option::None => r is None,
        },
{
    let b = match base {
        Option::Some(b) => b,
        Option::None => {
            return Option::None;
        },
    };
    let mut cur: u64 = b;
    let mut over: bool = false;
    let mut i: usize = p;
    proof {
        assert((b as nat) * pow10(0) == b as nat) by (nonlinear_arith)
            requires
                pow10(0) == 1,
        ;
    }
    while i < e
        invariant
            p <= i <= e <= s@.len(),
            forall|j: int| p <= j < e ==> is_digit(#[trigger] s@[j]),
            !over ==> cur as nat == (b as nat) * pow10((i - p) as nat) + spec_digits_val(
                s@,
                p as int,
                i as int,
            ),
            over ==> (b as nat) * pow10((i - p) as nat) + spec_digits_val(s@, p as int, i as int)
                > u64::MAX,
        decreases e - i,
    {
        let ghost total = (b as nat) * pow10((i - p) as nat) + spec_digits_val(
            s@,
            p as int,
            i as int,
        );
        let c = s.get_char(i);
        let d: u64 = ((c as u32) - 48) as u64;
        proof {
            assert(spec_digits_val(s@, p as int, i as int + 1) == spec_digits_val(
                s@,
                p as int,
                i as int,
            ) * 10 + digit_val(s@[i as int]));
            assert(pow10((i + 1 - p) as nat) == 10 * pow10((i - p) as nat));
            assert((b as nat) * (10 * pow10((i - p) as nat)) == ((b as nat) * pow10(
                (i - p) as nat,
            )) * 10) by (nonlinear_arith);
            assert((b as nat) * pow10((i + 1 - p) as nat) + spec_digits_val(
                s@,
                p as int,
                i as int + 1,
            ) == total * 10 + digit_val(s@[i as int])) by (nonlinear_arith)
                requires
                    (b as nat) * pow10((i + 1 - p) as nat) == ((b as nat) * pow10(
                        (i - p) as nat,
                    )) * 10,
                    spec_digits_val(s@, p as int, i as int + 1) == spec_digits_val(
                        s@,
                        p as int,
                        i as int,
                    ) * 10 + digit_val(s@[i as int]),
                    total == (b as nat) * pow10((i - p) as nat) + spec_digits_val(
                        s@,
                        p as int,
                        i as int,
                    ),
            ;
        }
        if over {
            proof {
                assert(total * 10 >= total) by (nonlinear_arith)
                    requires
                        total >= 0,
                ;
            }
        } else {
            let threshold = (18446744073709551615u64 - d) / 10;
            proof {
                vstd::arithmetic::div_mod::lemma_fundamental_div_mod(
                    18446744073709551615int - d,
                    10,
                );
                vstd::arithmetic::div_mod::lemma_mod_division_less_than_divisor(
                    18446744073709551615int - d,
                    10,
                );
            }
            if cur > threshold {
                over = true;
                proof {
                    vstd::arithmetic::mul::lemma_mul_inequality(
                        threshold as int + 1,
                        cur as int,
                        10,
                    );
                }
            } else {
                proof {
                    vstd::arithmetic::mul::lemma_mul_inequality(
                        cur as int,
                        threshold as int,
                        10,
                    );
                }
                cur = cur * 10 + d;
            }
        }
        i = i + 1;
    }
    if over {
        Option::None
    } else {
        Option::Some(cur)
    }
}

/// A numeric literal with its unit suffix and source position.
#[derive(Debug)]
pub struct Number {
    pub value: Num,
    pub suffix: String,
    pub pos: usize,
}

impl Number {
    /// Whether the executable outcome is the one the spec names.
    pub open spec fn num_matches(
        r: Result<(Number, usize), ParseError>,
        sr: Result<SpecNumber, SpecErr>,
    ) -> bool {
        match r {
            Ok((n, e)) => sr is Ok && n.value == sr->Ok_0.value && n.suffix@ == sr->Ok_0.suffix
                && n.pos as int == sr->Ok_0.at && e as int == sr->Ok_0.end,
            Err(er) => sr is Err && err_matches(er, sr->Err_0),
        }
    }

    /// Rejects a nonempty suffix, as the contexts that take a bare number do.
    pub fn empty_suffix(&self) -> (r: Result<(), ParseError>)
        ensures
            r is Ok <==> self.suffix@.len() == 0,
            r is Err ==> r->Err_0.pos == self.pos && r->Err_0.msg@
                == "unexpected characters after number"@,
    {
        if self.suffix.as_str().is_empty() {
            Ok(())
        } else {
            Err(crate::diag::error_at(self.pos, "unexpected characters after number"))
        }
    }

    /// Whether the literal has exactly this value and suffix.
    pub fn check_value(&self, value: Num, suffix: &str) -> (r: bool)
        ensures
            r == (self.value == value && self.suffix@ == suffix@),
    {
        let ve = self.value.mantissa == value.mantissa && self.value.scale == value.scale;
        ve && crate::text::str_eq(self.suffix.as_str(), suffix)
    }

    /// The suffix continuation, as [`spec_num_suffix`].
    fn parse_suffix(s: &str, at: usize, v: Num, p: usize) -> (r: Result<(Number, usize), ParseError>)
        requires
            p <= s@.len(),
        ensures
            Self::num_matches(r, spec_num_suffix(s@, at as int, v, p as int)),
            r is Ok ==> r->Ok_0.1 <= s@.len(),
    {
        let len = s.unicode_len();
        if p < len && ident_start_char(s.get_char(p)) {
            let e = ident_end(s, p);
            let suffix = copy_range(s, p, e);
            Ok((Number { value: v, suffix, pos: at }, e))
        } else {
            let q = skip_ws(s, p);
            if q < len && s.get_char(q) == '%' {
                let suffix = String::new();
                let mut suffix = suffix;
                push_char(&mut suffix, '%');
                proof {
                    assert(suffix@ =~= seq!['%']);
                }
                Ok((Number { value: v, suffix, pos: at }, q + 1))
            } else if q < len && s.get_char(q) == '"' {
                let e = find_char(s, q + 1, '"');
                proof {
                    lemma_find_char(s@, q as int + 1, '"');
                }
                if e >= len {
                    Err(crate::diag::error_at(q, "unterminated string"))
                } else {
                    let suffix = copy_range(s, q + 1, e);
                    Ok((Number { value: v, suffix, pos: at }, e + 1))
                }
            } else {
                Ok((Number { value: v, suffix: String::new(), pos: at }, p))
            }
        }
    }

    /// Consumes a numeric literal and its suffix, as [`spec_number`].
    pub fn parse(s: &str, pos: usize) -> (r: Result<(Number, usize), ParseError>)
        requires
            pos <= s@.len(),
        ensures
            Self::num_matches(r, spec_number(s@, pos as int)),
            r is Ok ==> r->Ok_0.1 <= s@.len(),
    {
        let len = s.unicode_len();
        let q = skip_ws(s, pos);
        if q >= len || !digit_char_test(s.get_char(q)) {
            return Err(crate::diag::error_at(q, "expected number"));
        }
        let e1 = digits_end(s, q);
        proof {
            lemma_digits_end(s@, q as int);
        }
        let r1 = digits_value_base(s, q, e1, Option::Some(0));
        proof {
            assert((0 as nat) * pow10((e1 - q) as nat) == 0) by (nonlinear_arith);
        }
        if e1 < len && s.get_char(e1) == '.' {
            let e2 = digits_end(s, e1 + 1);
            proof {
                lemma_digits_end(s@, e1 as int + 1);
            }
            if e2 - (e1 + 1) > 4294967295usize {
                return Err(crate::diag::error_at(q, "number too large"));
            }
            let r2 = digits_value_base(s, e1 + 1, e2, r1);
            match r2 {
                Option::None => {
                    proof {
                        let fl = (e2 - (e1 + 1)) as nat;
                        let iv = spec_digits_val(s@, q as int, e1 as int);
                        crate::num::lemma_pow10_pos(fl);
                        assert(iv * pow10(fl) >= iv) by (nonlinear_arith)
                            requires
                                pow10(fl) >= 1,
                                iv >= 0,
                        ;
                    }
                    Err(crate::diag::error_at(q, "number too large"))
                },
                Option::Some(total) => {
                    let ghost fl = (e2 - (e1 + 1)) as nat;
                    let mut m: u64 = total;
                    let mut sc: u32 = (e2 - e1 - 1) as u32;
                    proof {
                        lemma_normalize(total as nat, fl);
                    }
                    while sc > 0 && m % 10 == 0
                        invariant
                            spec_normalize(total as nat, fl) == spec_normalize(
                                m as nat,
                                sc as nat,
                            ),
                        decreases sc,
                    {
                        m = m / 10;
                        sc = sc - 1;
                    }
                    Self::parse_suffix(s, q, Num { mantissa: m, scale: sc }, e2)
                },
            }
        } else {
            match r1 {
                Option::None => Err(crate::diag::error_at(q, "number too large")),
                Option::Some(v) => {
                    if v > 4294967295u64 {
                        Err(crate::diag::error_at(q, "number too large"))
                    } else {
                        Self::parse_suffix(s, q, Num { mantissa: v, scale: 0 }, e1)
                    }
                },
            }
        }
    }

    /// Parses a whole string as one numeric literal: anything left after it
    /// but whitespace fails at the leftover.
    pub fn parse_str(s: &str) -> (r: Result<Number, ParseError>)
        ensures
            match spec_number(s@, 0) {
                Ok(sn) => {
                    let q = spec_skip_ws(s@, sn.end);
                    if q >= s@.len() {
                        r is Ok && r->Ok_0.value == sn.value && r->Ok_0.suffix@ == sn.suffix
                            && r->Ok_0.pos as int == sn.at
                    } else {
                        r is Err && r->Err_0.pos as int == q && r->Err_0.msg@
                            == "unexpected token"@
                    }
                },
                Err(se) => r is Err && err_matches(r->Err_0, se),
            },
    {
        let len = s.unicode_len();
        match Self::parse(s, 0) {
            Ok((n, e)) => {
                let q = skip_ws(s, e);
                if q >= len {
                    Ok(n)
                } else {
                    Err(crate::diag::error_at(q, "unexpected token"))
                }
            },
            Err(er) => Err(er),
        }
    }
}

} // verus!

verus! {

/// The position just past the brace that closes `depth` open braces, or
/// `None` when the input ends first.  Braces nest; nothing else is
/// interpreted.
pub open spec fn spec_block_end(s: Seq<char>, p: int, depth: int) -> Option<int>
    decreases s.len() - p,
    when 0 <= p <= s.len() && depth >= 1
{
    if p >= s.len() {
        None
    } else if s[p] == '{' {
        spec_block_end(s, p + 1, depth + 1)
    } else if s[p] == '}' {
        if depth == 1 {
            Some(p + 1)
        } else {
            spec_block_end(s, p + 1, depth - 1)
        }
    } else {
        spec_block_end(s, p + 1, depth)
    }
}

pub proof fn lemma_block_end(s: Seq<char>, p: int, depth: int)
    requires
        0 <= p <= s.len(),
        depth >= 1,
    ensures
        spec_block_end(s, p, depth) is Some ==> p < spec_block_end(s, p, depth)->0 <= s.len(),
    decreases s.len() - p,
{
    if p < s.len() {
        if s[p] == '{' {
            lemma_block_end(s, p + 1, depth + 1);
        } else if s[p] == '}' {
            if depth != 1 {
                lemma_block_end(s, p + 1, depth - 1);
            }
        } else {
            lemma_block_end(s, p + 1, depth);
        }
    }
}

/// Scans to the close of the block opened before `p`, as
/// [`spec_block_end`].
pub fn block_end(s: &str, p: usize) -> (r: Option<usize>)
    requires
        p <= s@.len(),
    ensures
        match r {
            Option::Some(e) => spec_block_end(s@, p as int, 1) == Option::Some(e as int) && p < e
                <= s@.len(),
            Option::None => spec_block_end(s@, p as int, 1) is None,
        },
{
    let len = s.unicode_len();
    let mut i: usize = p;
    let mut depth: u128 = 1;
    proof {
        lemma_block_end(s@, p as int, 1);
    }
    loop
        invariant
            p <= i <= len,
            len == s@.len(),
            depth >= 1,
            depth <= i - p + 1,
            spec_block_end(s@, p as int, 1) == spec_block_end(s@, i as int, depth as int),
            spec_block_end(s@, p as int, 1) is Some ==> p < spec_block_end(s@, p as int, 1)->0
                <= s@.len(),
        decreases len - i,
    {
        if i >= len {
            return Option::None;
        }
        let c = s.get_char(i);
        if c == '{' {
            depth = depth + 1;
        } else if c == '}' {
            if depth == 1 {
                return Option::Some(i + 1);
            }
            depth = depth - 1;
        }
        i = i + 1;
    }
}

/// The single identifier `kw` ahead at `p` (whitespace skipped): the
/// position after it, or nothing if some other token is ahead.
pub open spec fn spec_kw_token(s: Seq<char>, p: int, kw: Seq<char>) -> Option<int> {
    let q = spec_skip_ws(s, p);
    if q < s.len() && is_ident_start(s[q]) && s.subrange(q, spec_ident_end(s, q)) == kw {
        Some(spec_ident_end(s, q))
    } else {
        None
    }
}

/// Matches a single-identifier keyword, as [`spec_kw_token`].
pub fn peek_kw(s: &str, p: usize, kw: &str) -> (r: Option<usize>)
    requires
        p <= s@.len(),
    ensures
        match r {
            Option::Some(e) => spec_kw_token(s@, p as int, kw@) == Option::Some(e as int) && p <= e
                <= s@.len(),
            Option::None => spec_kw_token(s@, p as int, kw@) is None,
        },
{
    let len = s.unicode_len();
    let q = skip_ws(s, p);
    if q < len && ident_start_char(s.get_char(q)) {
        let e = ident_end(s, q);
        let t = copy_range(s, q, e);
        if crate::text::str_eq(t.as_str(), kw) {
            Option::Some(e)
        } else {
            Option::None
        }
    } else {
        Option::None
    }
}

/// Expecting one punctuation character: the position after it, or an error
/// carrying `msg` at the spot.
pub open spec fn spec_expect_char(s: Seq<char>, p: int, c: char, msg: Seq<char>) -> Result<
    int,
    SpecErr,
> {
    let q = spec_skip_ws(s, p);
    if q < s.len() && s[q] == c {
        Ok(q + 1)
    } else {
        Err(SpecErr { pos: q, msg })
    }
}

/// Whether an executable position result is the one the spec names.
pub open spec fn pos_matches(r: Result<usize, ParseError>, sr: Result<int, SpecErr>) -> bool {
    match r {
        Ok(e) => sr is Ok && sr->Ok_0 == e as int,
        Err(er) => sr is Err && err_matches(er, sr->Err_0),
    }
}

/// Consumes one expected character, as [`spec_expect_char`].
pub fn expect_char(s: &str, p: usize, c: char, msg: &str) -> (r: Result<usize, ParseError>)
    requires
        p <= s@.len(),
    ensures
        pos_matches(r, spec_expect_char(s@, p as int, c, msg@)),
        r is Ok ==> p < r->Ok_0 <= s@.len(),
{
    let len = s.unicode_len();
    let q = skip_ws(s, p);
    if q < len && s.get_char(q) == c {
        Ok(q + 1)
    } else {
        Err(crate::diag::error_at(q, msg))
    }
}

} // verus!

verus! {

impl HyphenWord {
    /// Parses a whole string as one hyphen-word: anything left after it but
    /// whitespace fails at the leftover.
    pub fn parse_str(s: &str) -> (r: Result<HyphenWord, ParseError>)
        ensures
            match spec_hyphen_word(s@, 0) {
                Ok(sh) => {
                    let q = spec_skip_ws(s@, sh.end);
                    if q >= s@.len() {
                        r is Ok && r->Ok_0.word_view() == sh.word && r->Ok_0.pos as int == sh.at
                    } else {
                        r is Err && r->Err_0.pos as int == q && r->Err_0.msg@
                            == "unexpected token"@
                    }
                },
                Err(se) => r is Err && err_matches(r->Err_0, se),
            },
    {
        let len = s.unicode_len();
        match Self::parse(s, 0) {
            Ok((hw, e)) => {
                let q = skip_ws(s, e);
                if q >= len {
                    Ok(hw)
                } else {
                    Err(crate::diag::error_at(q, "unexpected token"))
                }
            },
            Err(er) => Err(er),
        }
    }
}

} // verus!
