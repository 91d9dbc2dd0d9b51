//! Round-trip laws: canonical text re-parses to the value it came from.
//!
//! The central statements are compositional: a value's canonical text,
//! standing anywhere in a larger input with an innocuous continuation after
//! it, parses back to exactly that value, ending exactly past the text.

use vstd::prelude::*;
use vstd::arithmetic::div_mod::{lemma_breakdown, lemma_fundamental_div_mod};
use crate::num::{dec_digits, digit_char, frac_digits, lemma_pow10_pos, pow10, Num};
use crate::parse::{spec_num_suffix, spec_number, SpecNumber};
use crate::text::{
    digit_val, is_digit, is_ident_char, is_ident_start, is_ws, lemma_digits_end, lemma_skip_ws,
    spec_digits_end, spec_digits_val, spec_ident_end, spec_skip_ws,
};
use crate::values::{Length, LengthPercentage, Percentage};
use crate::quads::{BorderStyle, Padding};
use crate::color::Color;
use crate::keywords::{AlignItems, BoxSizing, Cursor, Display, FlexDirection, FlexWrap, FontStyle, JustifyContent, LineStyle, ListStyleType, Resize};

verus! {

/// Digit characters carry their value and are digits, not whitespace.
pub proof fn lemma_digit_char_facts(d: nat)
    requires
        d < 10,
    ensures
        is_digit(digit_char(d)),
        digit_val(digit_char(d)) == d,
        !is_ws(digit_char(d)),
{
}

/// The decimal rendering is nonempty and all digits.
pub proof fn lemma_dec_digits_digits(m: nat)
    ensures
        dec_digits(m).len() >= 1,
        forall|i: int| 0 <= i < dec_digits(m).len() ==> is_digit(#[trigger] dec_digits(m)[i]),
    decreases m,
{
    lemma_digit_char_facts(m % 10);
    if m < 10 {
        lemma_digit_char_facts(m);
    } else {
        lemma_dec_digits_digits(m / 10);
    }
}

/// The fraction rendering has exactly the asked width and is all digits.
pub proof fn lemma_frac_digits_digits(m: nat, k: nat)
    ensures
        frac_digits(m, k).len() == k,
        forall|i: int| 0 <= i < k ==> is_digit(#[trigger] frac_digits(m, k)[i]),
    decreases k,
{
    if k > 0 {
        lemma_digit_char_facts(m % 10);
        lemma_frac_digits_digits(m / 10, (k - 1) as nat);
    }
}

/// A digit run bounded by a non-digit scans to exactly its end.
pub proof fn lemma_scan_digits(s: Seq<char>, p: int, e: int)
    requires
        0 <= p <= e <= s.len(),
        forall|j: int| p <= j < e ==> is_digit(#[trigger] s[j]),
        e < s.len() ==> !is_digit(s[e]),
    ensures
        spec_digits_end(s, p) == e,
    decreases e - p,
{
    if p < e {
        lemma_scan_digits(s, p + 1, e);
    }
}

/// An identifier run bounded by a non-identifier character scans to exactly
/// its end.
pub proof fn lemma_scan_ident(s: Seq<char>, p: int, e: int)
    requires
        0 <= p <= e <= s.len(),
        forall|j: int| p <= j < e ==> is_ident_char(#[trigger] s[j]),
        e < s.len() ==> !is_ident_char(s[e]),
    ensures
        spec_ident_end(s, p) == e,
    decreases e - p,
{
    if p < e {
        lemma_scan_ident(s, p + 1, e);
    }
}

/// Reading back the decimal rendering of `m` gives `m`.
pub proof fn lemma_val_dec(s: Seq<char>, p: int, e: int, m: nat)
    requires
        0 <= p <= e <= s.len(),
        s.subrange(p, e) == dec_digits(m),
    ensures
        spec_digits_val(s, p, e) == m,
    decreases m,
{
    lemma_dec_digits_digits(m);
    assert(e - p == dec_digits(m).len());
    if m < 10 {
        assert(s[e - 1] == dec_digits(m)[e - 1 - p]);
        lemma_digit_char_facts(m);
        assert(spec_digits_val(s, p, e) == spec_digits_val(s, p, e - 1) * 10 + digit_val(
            s[e - 1],
        ));
        assert(spec_digits_val(s, p, e - 1) == 0);
    } else {
        assert(s.subrange(p, e - 1) =~= dec_digits(m / 10)) by {
            assert(forall|i: int|
                0 <= i < e - 1 - p ==> s.subrange(p, e - 1)[i] == #[trigger] s.subrange(p, e)[i]);
        }
        lemma_val_dec(s, p, e - 1, m / 10);
        assert(s[e - 1] == dec_digits(m)[e - 1 - p]);
        assert(dec_digits(m)[e - 1 - p] == digit_char(m % 10));
        lemma_digit_char_facts(m % 10);
        lemma_fundamental_div_mod(m as int, 10);
    }
}

/// Reading back the fraction rendering of `m` at width `k` gives
/// `m % 10^k`.
pub proof fn lemma_val_frac(s: Seq<char>, p: int, e: int, m: nat, k: nat)
    requires
        0 <= p <= e <= s.len(),
        e - p == k,
        s.subrange(p, e) == frac_digits(m, k),
    ensures
        spec_digits_val(s, p, e) == m % pow10(k),
    decreases k,
{
    lemma_frac_digits_digits(m, k);
    lemma_pow10_pos(k);
    if k == 0 {
        assert(m % pow10(0) == 0);
    } else {
        assert(s.subrange(p, e - 1) =~= frac_digits(m / 10, (k - 1) as nat)) by {
            assert(forall|i: int|
                0 <= i < e - 1 - p ==> s.subrange(p, e - 1)[i] == #[trigger] s.subrange(p, e)[i]);
        }
        lemma_val_frac(s, p, e - 1, m / 10, (k - 1) as nat);
        assert(s[e - 1] == frac_digits(m, k)[e - 1 - p]);
        assert(frac_digits(m, k)[e - 1 - p] == digit_char(m % 10));
        lemma_digit_char_facts(m % 10);
        lemma_pow10_pos((k - 1) as nat);
        lemma_breakdown(m as int, 10, pow10((k - 1) as nat) as int);
        assert(pow10(k) == 10 * pow10((k - 1) as nat));
        assert(spec_digits_val(s, p, e) == spec_digits_val(s, p, e - 1) * 10 + digit_val(
            s[e - 1],
        ));
        assert((m as int) % ((10 * pow10((k - 1) as nat)) as int) == 10 * (((m as int) / 10) % (
        pow10((k - 1) as nat) as int)) + (m as int) % 10);
    }
}

impl Num {
    /// The rendering re-parses: normalized, and an integer rendering stays
    /// within the integer literal bound.
    pub open spec fn parseable(self) -> bool {
        self.wf() && (self.scale == 0 ==> self.mantissa <= u32::MAX)
    }
}

/// The continuation after a number's text takes no part in the number: no
/// digit, dot, identifier character or quote follows at once, and the next
/// token is neither `%` nor a string literal.
pub open spec fn num_stop(s: Seq<char>, e: int) -> bool {
    &&& (e == s.len() || (!is_ident_char(s[e]) && s[e] != '.' && s[e] != '"'))
    &&& (spec_skip_ws(s, e) >= s.len() || (s[spec_skip_ws(s, e)] != '%' && s[spec_skip_ws(s, e)]
        != '"'))
}

/// The canonical rendering of a parseable number, with an innocuous
/// continuation, reads back as that number, leaving the cursor at the start
/// of its suffix.
pub proof fn lemma_num_core(s: Seq<char>, p: int, v: Num)
    requires
        0 <= p,
        p + v.css().len() <= s.len(),
        s.subrange(p, p + v.css().len()) == v.css(),
        v.parseable(),
        p + v.css().len() < s.len() ==> !is_digit(s[p + v.css().len()]) && s[p + v.css().len()]
            != '.',
    ensures
        spec_number(s, p) == spec_num_suffix(s, p, v, p + v.css().len()),
{
    let e = p + v.css().len();
    let m = v.mantissa as nat;
    let sc = v.scale as nat;
    lemma_pow10_pos(sc);
    if v.scale == 0 {
        lemma_dec_digits_digits(m);
        assert forall|j: int| p <= j < e implies is_digit(s[j]) by {
            assert(s.subrange(p, e)[j - p] == s[j]);
            assert(v.css()[j - p] == dec_digits(m)[j - p]);
        }
        assert(s.subrange(p, e)[0] == s[p]);
        assert(s[p] == v.css()[0]);
        lemma_scan_digits(s, p, e);
        assert(s.subrange(p, e) == dec_digits(m));
        lemma_val_dec(s, p, e, m);
        assert(spec_skip_ws(s, p) == p);
    } else {
        let ip = dec_digits(m / pow10(sc));
        let il = ip.len() as int;
        let d = p + il;
        lemma_dec_digits_digits(m / pow10(sc));
        lemma_frac_digits_digits(m, sc);
        assert(v.css().len() == il + 1 + sc);
        assert forall|j: int| p <= j < e implies s[j] == v.css()[j - p] by {
            assert(s.subrange(p, e)[j - p] == s[j]);
        }
        assert(forall|i: int| 0 <= i < il ==> v.css()[i] == #[trigger] ip[i]);
        assert(v.css()[il] == '.');
        assert(forall|i: int| 0 <= i < sc ==> v.css()[il + 1 + i] == #[trigger] frac_digits(
            m,
            sc,
        )[i]);
        assert forall|j: int| p <= j < d implies is_digit(s[j]) by {
            assert(s[j] == v.css()[j - p]);
            assert(v.css()[j - p] == ip[j - p]);
        }
        assert(s[d] == '.');
        assert(!is_digit('.'));
        lemma_scan_digits(s, p, d);
        assert(s[p] == ip[0]);
        assert(spec_skip_ws(s, p) == p);
        assert(s.subrange(p, d) =~= ip);
        lemma_val_dec(s, p, d, m / pow10(sc));
        assert forall|j: int| d + 1 <= j < e implies is_digit(s[j]) by {
            assert(s[j] == v.css()[j - p]);
            assert(v.css()[j - p] == frac_digits(m, sc)[j - p - il - 1]);
        }
        lemma_scan_digits(s, d + 1, e);
        assert(s.subrange(d + 1, e) =~= frac_digits(m, sc));
        lemma_val_frac(s, d + 1, e, m, sc);
        // The mantissa reassembles from its integer part and fraction.
        lemma_fundamental_div_mod(m as int, pow10(sc) as int);
        assert((m / pow10(sc)) * pow10(sc) + m % pow10(sc) == m) by (nonlinear_arith)
            requires
                pow10(sc) >= 1,
                (m as int) == (pow10(sc) as int) * ((m as int) / (pow10(sc) as int)) + (m as int)
                    % (pow10(sc) as int),
        ;
        // Normalization leaves a well-formed mantissa alone.
        assert(crate::parse::spec_normalize(m, sc) == (m, sc));
        assert(spec_number(s, p) == spec_num_suffix(s, p, v, e));
    }
}

} // verus!

verus! {

impl Length {
    /// The rendering re-parses: the component number does.
    pub open spec fn parseable(self) -> bool {
        match self {
            Length::Em(v) => v.parseable(),
            Length::Ex(v) => v.parseable(),
            Length::In(v) => v.parseable(),
            Length::Cm(v) => v.parseable(),
            Length::Mm(v) => v.parseable(),
            Length::Pt(v) => v.parseable(),
            Length::Pc(v) => v.parseable(),
            Length::Px(v) => v.parseable(),
            Length::Zero => true,
        }
    }
}

impl LengthPercentage {
    /// The rendering re-parses: the component number does.
    pub open spec fn parseable(self) -> bool {
        match self {
            LengthPercentage::Length(l) => l.parseable(),
            LengthPercentage::Percentage(v) => v.0.parseable(),
        }
    }
}

/// A number followed by an adjacent identifier suffix reads back as that
/// number with that suffix.
pub proof fn lemma_num_with_ident_suffix(s: Seq<char>, p: int, v: Num, u: Seq<char>)
    requires
        0 <= p,
        p + v.css().len() + u.len() <= s.len(),
        s.subrange(p, p + v.css().len() + u.len()) == v.css() + u,
        v.parseable(),
        u.len() >= 1,
        is_ident_start(u[0]),
        forall|i: int| 0 <= i < u.len() ==> is_ident_char(#[trigger] u[i]),
        p + v.css().len() + u.len() == s.len() || !is_ident_char(
            s[p + v.css().len() + u.len()],
        ),
    ensures
        spec_number(s, p) == Ok::<SpecNumber, crate::diag::SpecErr>(
            SpecNumber {
                value: v,
                suffix: u,
                at: p,
                end: p + v.css().len() + u.len(),
            },
        ),
{
    let vl = v.css().len() as int;
    let e = p + vl + u.len();
    assert forall|j: int| p <= j < e implies s[j] == (v.css() + u)[j - p] by {
        assert(s.subrange(p, e)[j - p] == s[j]);
    }
    assert(s.subrange(p, p + vl) =~= v.css());
    assert(s[p + vl] == u[0]);
    lemma_num_core(s, p, v);
    assert forall|j: int| p + vl <= j < e implies is_ident_char(s[j]) by {
        assert(s[j] == u[j - p - vl]);
    }
    lemma_scan_ident(s, p + vl, e);
    assert(s.subrange(p + vl, e) =~= u);
}

/// A number with nothing of a suffix after it reads back bare.
pub proof fn lemma_num_bare(s: Seq<char>, p: int, v: Num)
    requires
        0 <= p,
        p + v.css().len() <= s.len(),
        s.subrange(p, p + v.css().len()) == v.css(),
        v.parseable(),
        num_stop(s, p + v.css().len()),
    ensures
        spec_number(s, p) == Ok::<SpecNumber, crate::diag::SpecErr>(
            SpecNumber {
                value: v,
                suffix: Seq::empty(),
                at: p,
                end: p + v.css().len(),
            },
        ),
{
    let e = p + v.css().len();
    lemma_num_core(s, p, v);
    lemma_skip_ws(s, e);
}

/// A number followed by an adjacent `%` reads back with the percent suffix.
pub proof fn lemma_num_percent(s: Seq<char>, p: int, v: Num)
    requires
        0 <= p,
        p + v.css().len() + 1 <= s.len(),
        s.subrange(p, p + v.css().len() + 1) == v.css() + seq!['%'],
        v.parseable(),
    ensures
        spec_number(s, p) == Ok::<SpecNumber, crate::diag::SpecErr>(
            SpecNumber {
                value: v,
                suffix: seq!['%'],
                at: p,
                end: p + v.css().len() + 1,
            },
        ),
{
    let vl = v.css().len() as int;
    let e = p + vl + 1;
    assert forall|j: int| p <= j < e implies s[j] == (v.css() + seq!['%'])[j - p] by {
        assert(s.subrange(p, e)[j - p] == s[j]);
    }
    assert(s.subrange(p, p + vl) =~= v.css());
    assert(s[p + vl] == '%');
    lemma_num_core(s, p, v);
}

/// Helper for one length unit: its text reads back as that unit.
proof fn proof_unit_case(s: Seq<char>, p: int, v: Num, unit: &str)
    requires
        0 <= p,
        unit@ == "em"@ || unit@ == "ex"@ || unit@ == "in"@ || unit@ == "cm"@ || unit@ == "mm"@
            || unit@ == "pt"@ || unit@ == "pc"@ || unit@ == "px"@,
        p + v.css().len() + unit@.len() <= s.len(),
        s.subrange(p, p + v.css().len() + unit@.len()) == v.css() + unit@,
        v.parseable(),
        p + v.css().len() + unit@.len() == s.len() || !is_ident_char(
            s[p + v.css().len() + unit@.len()],
        ),
    ensures
        spec_number(s, p) == Ok::<SpecNumber, crate::diag::SpecErr>(
            SpecNumber {
                value: v,
                suffix: unit@,
                at: p,
                end: p + v.css().len() + unit@.len(),
            },
        ),
{
    reveal_strlit("em");
    reveal_strlit("ex");
    reveal_strlit("in");
    reveal_strlit("cm");
    reveal_strlit("mm");
    reveal_strlit("pt");
    reveal_strlit("pc");
    reveal_strlit("px");
    lemma_num_with_ident_suffix(s, p, v, unit@);
}

/// The eight length units are pairwise distinct words, distinct from `%`,
/// and not empty.
proof fn lemma_unit_words()
    ensures
        "em"@.len() == 2 && "ex"@.len() == 2 && "in"@.len() == 2 && "cm"@.len() == 2 && "mm"@.len()
            == 2 && "pt"@.len() == 2 && "pc"@.len() == 2 && "px"@.len() == 2,
        "em"@ != "ex"@ && "em"@ != "in"@ && "em"@ != "cm"@ && "em"@ != "mm"@ && "em"@ != "pt"@
            && "em"@ != "pc"@ && "em"@ != "px"@,
        "ex"@ != "in"@ && "ex"@ != "cm"@ && "ex"@ != "mm"@ && "ex"@ != "pt"@ && "ex"@ != "pc"@
            && "ex"@ != "px"@,
        "in"@ != "cm"@ && "in"@ != "mm"@ && "in"@ != "pt"@ && "in"@ != "pc"@ && "in"@ != "px"@,
        "cm"@ != "mm"@ && "cm"@ != "pt"@ && "cm"@ != "pc"@ && "cm"@ != "px"@,
        "mm"@ != "pt"@ && "mm"@ != "pc"@ && "mm"@ != "px"@,
        "pt"@ != "pc"@ && "pt"@ != "px"@,
        "pc"@ != "px"@,
        "%"@ == seq!['%'],
        forall|i: int| 0 <= i < 2 ==> is_ident_char(#[trigger] "em"@[i]),
        is_ident_start("em"@[0]),
        is_ident_start("ex"@[0]),
        is_ident_start("in"@[0]),
        is_ident_start("cm"@[0]),
        is_ident_start("mm"@[0]),
        is_ident_start("pt"@[0]),
        is_ident_start("pc"@[0]),
        is_ident_start("px"@[0]),
        forall|i: int| 0 <= i < 2 ==> is_ident_char(#[trigger] "ex"@[i]),
        forall|i: int| 0 <= i < 2 ==> is_ident_char(#[trigger] "in"@[i]),
        forall|i: int| 0 <= i < 2 ==> is_ident_char(#[trigger] "cm"@[i]),
        forall|i: int| 0 <= i < 2 ==> is_ident_char(#[trigger] "mm"@[i]),
        forall|i: int| 0 <= i < 2 ==> is_ident_char(#[trigger] "pt"@[i]),
        forall|i: int| 0 <= i < 2 ==> is_ident_char(#[trigger] "pc"@[i]),
        forall|i: int| 0 <= i < 2 ==> is_ident_char(#[trigger] "px"@[i]),
{
    reveal_strlit("em");
    reveal_strlit("ex");
    reveal_strlit("in");
    reveal_strlit("cm");
    reveal_strlit("mm");
    reveal_strlit("pt");
    reveal_strlit("pc");
    reveal_strlit("px");
    reveal_strlit("%");
    assert("%"@ =~= seq!['%']);
    assert("em"@ != "ex"@) by {
        assert("em"@[1] == 'm');
        assert("ex"@[1] == 'x');
    }
    assert("em"@ != "in"@) by {
        assert("em"@[0] == 'e');
        assert("in"@[0] == 'i');
    }
    assert("em"@ != "cm"@) by {
        assert("em"@[0] == 'e');
        assert("cm"@[0] == 'c');
    }
    assert("em"@ != "mm"@) by {
        assert("em"@[0] == 'e');
        assert("mm"@[0] == 'm');
    }
    assert("em"@ != "pt"@) by {
        assert("em"@[0] == 'e');
        assert("pt"@[0] == 'p');
    }
    assert("em"@ != "pc"@) by {
        assert("em"@[0] == 'e');
        assert("pc"@[0] == 'p');
    }
    assert("em"@ != "px"@) by {
        assert("em"@[0] == 'e');
        assert("px"@[0] == 'p');
    }
    assert("ex"@ != "in"@) by {
        assert("ex"@[0] == 'e');
        assert("in"@[0] == 'i');
    }
    assert("ex"@ != "cm"@) by {
        assert("ex"@[0] == 'e');
        assert("cm"@[0] == 'c');
    }
    assert("ex"@ != "mm"@) by {
        assert("ex"@[0] == 'e');
        assert("mm"@[0] == 'm');
    }
    assert("ex"@ != "pt"@) by {
        assert("ex"@[0] == 'e');
        assert("pt"@[0] == 'p');
    }
    assert("ex"@ != "pc"@) by {
        assert("ex"@[0] == 'e');
        assert("pc"@[0] == 'p');
    }
    assert("ex"@ != "px"@) by {
        assert("ex"@[0] == 'e');
        assert("px"@[0] == 'p');
    }
    assert("in"@ != "cm"@) by {
        assert("in"@[0] == 'i');
        assert("cm"@[0] == 'c');
    }
    assert("in"@ != "mm"@) by {
        assert("in"@[0] == 'i');
        assert("mm"@[0] == 'm');
    }
    assert("in"@ != "pt"@) by {
        assert("in"@[0] == 'i');
        assert("pt"@[0] == 'p');
    }
    assert("in"@ != "pc"@) by {
        assert("in"@[0] == 'i');
        assert("pc"@[0] == 'p');
    }
    assert("in"@ != "px"@) by {
        assert("in"@[0] == 'i');
        assert("px"@[0] == 'p');
    }
    assert("cm"@ != "mm"@) by {
        assert("cm"@[0] == 'c');
        assert("mm"@[0] == 'm');
    }
    assert("cm"@ != "pt"@) by {
        assert("cm"@[0] == 'c');
        assert("pt"@[0] == 'p');
    }
    assert("cm"@ != "pc"@) by {
        assert("cm"@[0] == 'c');
        assert("pc"@[0] == 'p');
    }
    assert("cm"@ != "px"@) by {
        assert("cm"@[0] == 'c');
        assert("px"@[0] == 'p');
    }
    assert("mm"@ != "pt"@) by {
        assert("mm"@[0] == 'm');
        assert("pt"@[0] == 'p');
    }
    assert("mm"@ != "pc"@) by {
        assert("mm"@[0] == 'm');
        assert("pc"@[0] == 'p');
    }
    assert("mm"@ != "px"@) by {
        assert("mm"@[0] == 'm');
        assert("px"@[0] == 'p');
    }
    assert("pt"@ != "pc"@) by {
        assert("pt"@[1] == 't');
        assert("pc"@[1] == 'c');
    }
    assert("pt"@ != "px"@) by {
        assert("pt"@[1] == 't');
        assert("px"@[1] == 'x');
    }
    assert("pc"@ != "px"@) by {
        assert("pc"@[1] == 'c');
        assert("px"@[1] == 'x');
    }
}

/// A length's canonical text, with an innocuous continuation, reads back as
/// exactly that length.
pub proof fn lemma_length_round(s: Seq<char>, p: int, l: Length)
    requires
        0 <= p,
        p + l.css().len() <= s.len(),
        s.subrange(p, p + l.css().len()) == l.css(),
        l.parseable(),
        num_stop(s, p + l.css().len()),
    ensures
        Length::spec_parse(s, p) == Ok::<(Length, int), crate::diag::SpecErr>(
            (l, p + l.css().len()),
        ),
{
    lemma_unit_words();
    match l {
        Length::Em(v) => {
            proof_unit_case(s, p, v, "em");
        },
        Length::Ex(v) => {
            proof_unit_case(s, p, v, "ex");
        },
        Length::In(v) => {
            proof_unit_case(s, p, v, "in");
        },
        Length::Cm(v) => {
            proof_unit_case(s, p, v, "cm");
        },
        Length::Mm(v) => {
            proof_unit_case(s, p, v, "mm");
        },
        Length::Pt(v) => {
            proof_unit_case(s, p, v, "pt");
        },
        Length::Pc(v) => {
            proof_unit_case(s, p, v, "pc");
        },
        Length::Px(v) => {
            proof_unit_case(s, p, v, "px");
        },
        Length::Zero => {
            let z = Num { mantissa: 0, scale: 0 };
            reveal_strlit("0");
            assert(z.css() =~= "0"@);
            assert(s.subrange(p, p + 1) == z.css());
            lemma_num_bare(s, p, z);
        },
    }
}

/// A percentage's canonical text reads back as exactly that percentage.
pub proof fn lemma_percentage_round(s: Seq<char>, p: int, v: Percentage)
    requires
        0 <= p,
        p + v.css().len() <= s.len(),
        s.subrange(p, p + v.css().len()) == v.css(),
        v.0.parseable(),
    ensures
        Percentage::spec_parse(s, p) == Ok::<(Percentage, int), crate::diag::SpecErr>(
            (v, p + v.css().len()),
        ),
{
    lemma_unit_words();
    assert(v.css() =~= v.0.css() + seq!['%']);
    lemma_num_percent(s, p, v.0);
}

/// A length-or-percentage's canonical text, with an innocuous continuation,
/// reads back as exactly that value.
pub proof fn lemma_lp_round(s: Seq<char>, p: int, v: LengthPercentage)
    requires
        0 <= p,
        p + v.css().len() <= s.len(),
        s.subrange(p, p + v.css().len()) == v.css(),
        v.parseable(),
        num_stop(s, p + v.css().len()),
    ensures
        LengthPercentage::spec_parse(s, p) == Ok::<(LengthPercentage, int), crate::diag::SpecErr>(
            (v, p + v.css().len()),
        ),
{
    lemma_unit_words();
    match v {
        LengthPercentage::Percentage(pc) => {
            assert(pc.css() =~= pc.0.css() + seq!['%']);
            lemma_num_percent(s, p, pc.0);
        },
        LengthPercentage::Length(l) => {
            lemma_length_round(s, p, l);
            match l {
        Length::Em(v) => {
            proof_unit_case(s, p, v, "em");
        },
        Length::Ex(v) => {
            proof_unit_case(s, p, v, "ex");
        },
        Length::In(v) => {
            proof_unit_case(s, p, v, "in");
        },
        Length::Cm(v) => {
            proof_unit_case(s, p, v, "cm");
        },
        Length::Mm(v) => {
            proof_unit_case(s, p, v, "mm");
        },
        Length::Pt(v) => {
            proof_unit_case(s, p, v, "pt");
        },
        Length::Pc(v) => {
            proof_unit_case(s, p, v, "pc");
        },
        Length::Px(v) => {
            proof_unit_case(s, p, v, "px");
        },
                Length::Zero => {
                    let z = Num { mantissa: 0, scale: 0 };
                    reveal_strlit("0");
                    assert(z.css() =~= "0"@);
                    assert(s.subrange(p, p + 1) == z.css());
                    lemma_num_bare(s, p, z);
                },
            }
        },
    }
}

/// Round trip for a standalone length: parsing its canonical text gives it
/// back, consuming everything.
pub proof fn lemma_length_round_trip(l: Length)
    requires
        l.parseable(),
    ensures
        Length::spec_parse(l.css(), 0) == Ok::<(Length, int), crate::diag::SpecErr>(
            (l, l.css().len() as int),
        ),
{
    let s = l.css();
    assert(s.subrange(0, s.len() as int) =~= s);
    lemma_skip_ws(s, s.len() as int);
    lemma_length_round(s, 0, l);
}

/// Round trip for a standalone length-or-percentage.
pub proof fn lemma_lp_round_trip(v: LengthPercentage)
    requires
        v.parseable(),
    ensures
        LengthPercentage::spec_parse(v.css(), 0) == Ok::<
            (LengthPercentage, int),
            crate::diag::SpecErr,
        >((v, v.css().len() as int)),
{
    let s = v.css();
    assert(s.subrange(0, s.len() as int) =~= s);
    lemma_skip_ws(s, s.len() as int);
    lemma_lp_round(s, 0, v);
}

} // verus!

verus! {

/// The shape of a hyphen-word: identifier characters and single hyphens,
/// starting with an identifier character, every hyphen followed by one.
pub open spec fn word_shape(w: Seq<char>) -> bool {
    &&& w.len() > 0
    &&& is_ident_start(w[0])
    &&& forall|i: int| 0 <= i < w.len() ==> is_ident_char(#[trigger] w[i]) || w[i] == '-'
    &&& forall|i: int|
        0 <= i < w.len() && #[trigger] w[i] == '-' ==> i + 1 < w.len() && is_ident_start(
            w[i + 1],
        )
}

/// The continuation after a hyphen-word takes no part in it: no identifier
/// character follows at once, and the next token is not a hyphen.
pub open spec fn word_stop(s: Seq<char>, e: int) -> bool {
    &&& (e == s.len() || !is_ident_char(s[e]))
    &&& (spec_skip_ws(s, e) >= s.len() || s[spec_skip_ws(s, e)] != '-')
}

proof fn lemma_hw_loop_round(s: Seq<char>, acc: Seq<char>, at: int, p: int, rest: Seq<char>)
    requires
        0 <= p,
        p + rest.len() <= s.len(),
        s.subrange(p, p + rest.len()) == rest,
        forall|i: int| 0 <= i < rest.len() ==> is_ident_char(#[trigger] rest[i]) || rest[i] == '-',
        forall|i: int|
            0 <= i < rest.len() && #[trigger] rest[i] == '-' ==> i + 1 < rest.len()
                && is_ident_start(rest[i + 1]),
        rest.len() > 0 ==> rest[0] == '-',
        word_stop(s, p + rest.len()),
    ensures
        crate::parse::spec_hw_loop(s, acc, at, p) == Ok::<
            crate::parse::SpecHw,
            crate::diag::SpecErr,
        >(crate::parse::SpecHw { word: Some(acc + rest), at, end: p + rest.len() }),
    decreases rest.len(),
{
    let e = p + rest.len();
    assert forall|j: int| p <= j < e implies s[j] == rest[j - p] by {
        assert(s.subrange(p, e)[j - p] == s[j]);
    }
    lemma_skip_ws(s, e);
    if rest.len() == 0 {
        lemma_skip_ws(s, p);
        assert(acc + rest =~= acc);
    } else {
        assert(s[p] == '-');
        assert(spec_skip_ws(s, p) == p);
        assert(is_ident_start(rest[1]));
        assert(spec_skip_ws(s, p + 1) == p + 1);
        let k = spec_ident_end(rest, 1);
        crate::text::lemma_ident_end(rest, 1);
        assert(forall|i: int| 1 <= i < k ==> is_ident_char(#[trigger] rest[i]));
        assert forall|j: int| p + 1 <= j < p + k implies is_ident_char(s[j]) by {
            assert(s[j] == rest[j - p]);
        }
        if k < rest.len() {
            assert(!is_ident_char(rest[k]));
            assert(rest[k] == '-');
            assert(s[p + k] == '-');
            assert(!is_ident_char(s[p + k]));
        }
        lemma_scan_ident(s, p + 1, p + k);
        let seg = s.subrange(p + 1, p + k);
        assert(seg =~= rest.subrange(1, k));
        let acc2 = acc + seq!['-'] + seg;
        let rest2 = rest.subrange(k, rest.len() as int);
        assert(s.subrange(p + k, e) =~= rest2);
        if rest2.len() > 0 {
            assert(rest2[0] == rest[k]);
        }
        assert(forall|i: int|
            0 <= i < rest2.len() ==> is_ident_char(#[trigger] rest2[i]) || rest2[i] == '-');
        assert forall|i: int|
            0 <= i < rest2.len() && #[trigger] rest2[i] == '-' implies i + 1 < rest2.len()
                && is_ident_start(rest2[i + 1]) by {
            assert(rest2[i] == rest[k + i]);
            assert(rest[k + i] == '-');
            assert(is_ident_start(rest[k + i + 1]));
            if i + 1 < rest2.len() {
                assert(rest2[i + 1] == rest[k + i + 1]);
            }
        }
        lemma_hw_loop_round(s, acc2, at, p + k, rest2);
        assert(acc2 + rest2 =~= acc + rest);
    }
}

/// A hyphen-word's text, with an innocuous continuation, reads back as
/// exactly that word.
pub proof fn lemma_hw_round(s: Seq<char>, p: int, w: Seq<char>)
    requires
        0 <= p,
        p + w.len() <= s.len(),
        s.subrange(p, p + w.len()) == w,
        word_shape(w),
        word_stop(s, p + w.len()),
    ensures
        crate::parse::spec_hyphen_word(s, p) == Ok::<
            crate::parse::SpecHw,
            crate::diag::SpecErr,
        >(crate::parse::SpecHw { word: Some(w), at: p, end: p + w.len() }),
{
    let e = p + w.len();
    assert forall|j: int| p <= j < e implies s[j] == w[j - p] by {
        assert(s.subrange(p, e)[j - p] == s[j]);
    }
    assert(s[p] == w[0]);
    assert(spec_skip_ws(s, p) == p);
    let k = spec_ident_end(w, 0);
    crate::text::lemma_ident_end(w, 0);
    assert forall|j: int| p <= j < p + k implies is_ident_char(s[j]) by {
        assert(s[j] == w[j - p]);
    }
    if k < w.len() {
        assert(!is_ident_char(w[k]));
        assert(w[k] == '-');
        assert(s[p + k] == '-');
        assert(!is_ident_char(s[p + k]));
    }
    lemma_scan_ident(s, p, p + k);
    let seg = s.subrange(p, p + k);
    assert(seg =~= w.subrange(0, k));
    let rest = w.subrange(k, w.len() as int);
    assert(s.subrange(p + k, e) =~= rest);
    if rest.len() > 0 {
        assert(rest[0] == w[k]);
    }
    assert(forall|i: int|
        0 <= i < rest.len() ==> is_ident_char(#[trigger] rest[i]) || rest[i] == '-');
    assert forall|i: int|
        0 <= i < rest.len() && #[trigger] rest[i] == '-' implies i + 1 < rest.len()
            && is_ident_start(rest[i + 1]) by {
        assert(rest[i] == w[k + i]);
        assert(w[k + i] == '-');
        assert(is_ident_start(w[k + i + 1]));
        if i + 1 < rest.len() {
            assert(rest[i + 1] == w[k + i + 1]);
        }
    }
    lemma_hw_loop_round(s, seg, p, p + k, rest);
    assert(seg + rest =~= w);
}

} // verus!

verus! {

/// A `AlignItems` keyword's text, with an innocuous continuation, reads back as
/// exactly that value.
pub proof fn lemma_alignitems_round(s: Seq<char>, p: int, v: AlignItems)
    requires
        0 <= p,
        p + v.css().len() <= s.len(),
        s.subrange(p, p + v.css().len()) == v.css(),
        word_stop(s, p + v.css().len()),
    ensures
        AlignItems::spec_parse(s, p) == Ok::<(AlignItems, int), crate::diag::SpecErr>(
            (v, p + v.css().len()),
        ),
{
    reveal_strlit("normal");
    reveal_strlit("stretch");
    reveal_strlit("center");
    reveal_strlit("start");
    reveal_strlit("end");
    match v {
        AlignItems::Normal => {
            assert(word_shape("normal"@));

            lemma_hw_round(s, p, "normal"@);
        },
        AlignItems::Stretch => {
            assert(word_shape("stretch"@));
            assert("stretch"@ != "normal"@) by {
                assert("stretch"@.len() == 7);
                assert("normal"@.len() == 6);
            }
            lemma_hw_round(s, p, "stretch"@);
        },
        AlignItems::Center => {
            assert(word_shape("center"@));
            assert("center"@ != "normal"@) by {
                assert("center"@[0] == 'c');
                assert("normal"@[0] == 'n');
            }
            assert("center"@ != "stretch"@) by {
                assert("center"@.len() == 6);
                assert("stretch"@.len() == 7);
            }
            lemma_hw_round(s, p, "center"@);
        },
        AlignItems::Start => {
            assert(word_shape("start"@));
            assert("start"@ != "normal"@) by {
                assert("start"@.len() == 5);
                assert("normal"@.len() == 6);
            }
            assert("start"@ != "stretch"@) by {
                assert("start"@.len() == 5);
                assert("stretch"@.len() == 7);
            }
            assert("start"@ != "center"@) by {
                assert("start"@.len() == 5);
                assert("center"@.len() == 6);
            }
            lemma_hw_round(s, p, "start"@);
        },
        AlignItems::End => {
            assert(word_shape("end"@));
            assert("end"@ != "normal"@) by {
                assert("end"@.len() == 3);
                assert("normal"@.len() == 6);
            }
            assert("end"@ != "stretch"@) by {
                assert("end"@.len() == 3);
                assert("stretch"@.len() == 7);
            }
            assert("end"@ != "center"@) by {
                assert("end"@.len() == 3);
                assert("center"@.len() == 6);
            }
            assert("end"@ != "start"@) by {
                assert("end"@.len() == 3);
                assert("start"@.len() == 5);
            }
            lemma_hw_round(s, p, "end"@);
        },
    }
}

/// Round trip for a standalone `AlignItems` keyword: parsing its canonical text
/// gives it back, consuming everything.
pub proof fn lemma_alignitems_round_trip(v: AlignItems)
    ensures
        AlignItems::spec_parse(v.css(), 0) == Ok::<(AlignItems, int), crate::diag::SpecErr>(
            (v, v.css().len() as int),
        ),
{
    let s = v.css();
    assert(s.subrange(0, s.len() as int) =~= s);
    lemma_skip_ws(s, s.len() as int);
    lemma_alignitems_round(s, 0, v);
}

/// A `BoxSizing` keyword's text, with an innocuous continuation, reads back as
/// exactly that value.
pub proof fn lemma_boxsizing_round(s: Seq<char>, p: int, v: BoxSizing)
    requires
        0 <= p,
        p + v.css().len() <= s.len(),
        s.subrange(p, p + v.css().len()) == v.css(),
        word_stop(s, p + v.css().len()),
    ensures
        BoxSizing::spec_parse(s, p) == Ok::<(BoxSizing, int), crate::diag::SpecErr>(
            (v, p + v.css().len()),
        ),
{
    reveal_strlit("border-box");
    reveal_strlit("content-box");
    match v {
        BoxSizing::BorderBox => {
            assert(word_shape("border-box"@));

            lemma_hw_round(s, p, "border-box"@);
        },
        BoxSizing::ContentBox => {
            assert(word_shape("content-box"@));
            assert("content-box"@ != "border-box"@) by {
                assert("content-box"@.len() == 11);
                assert("border-box"@.len() == 10);
            }
            lemma_hw_round(s, p, "content-box"@);
        },
    }
}

/// Round trip for a standalone `BoxSizing` keyword: parsing its canonical text
/// gives it back, consuming everything.
pub proof fn lemma_boxsizing_round_trip(v: BoxSizing)
    ensures
        BoxSizing::spec_parse(v.css(), 0) == Ok::<(BoxSizing, int), crate::diag::SpecErr>(
            (v, v.css().len() as int),
        ),
{
    let s = v.css();
    assert(s.subrange(0, s.len() as int) =~= s);
    lemma_skip_ws(s, s.len() as int);
    lemma_boxsizing_round(s, 0, v);
}

/// A `Cursor` keyword's text, with an innocuous continuation, reads back as
/// exactly that value.
#[verifier::rlimit(100)]
pub proof fn lemma_cursor_round(s: Seq<char>, p: int, v: Cursor)
    requires
        0 <= p,
        p + v.css().len() <= s.len(),
        s.subrange(p, p + v.css().len()) == v.css(),
        word_stop(s, p + v.css().len()),
    ensures
        Cursor::spec_parse(s, p) == Ok::<(Cursor, int), crate::diag::SpecErr>(
            (v, p + v.css().len()),
        ),
{
    reveal_strlit("auto");
    reveal_strlit("default");
    reveal_strlit("none");
    reveal_strlit("context-menu");
    reveal_strlit("help");
    reveal_strlit("pointer");
    reveal_strlit("progress");
    reveal_strlit("wait");
    reveal_strlit("cell");
    reveal_strlit("crosshair");
    reveal_strlit("text");
    reveal_strlit("vertical-text");
    reveal_strlit("alias");
    reveal_strlit("copy");
    reveal_strlit("move");
    reveal_strlit("no-drop");
    reveal_strlit("not-allowed");
    reveal_strlit("grab");
    reveal_strlit("grabbing");
    reveal_strlit("e-resize");
    reveal_strlit("n-resize");
    reveal_strlit("ne-resize");
    reveal_strlit("nw-resize");
    reveal_strlit("s-resize");
    reveal_strlit("se-resize");
    reveal_strlit("sw-resize");
    reveal_strlit("w-resize");
    reveal_strlit("ew-resize");
    reveal_strlit("ns-resize");
    reveal_strlit("nesw-resize");
    reveal_strlit("nwse-resize");
    reveal_strlit("col-resize");
    reveal_strlit("row-resize");
    reveal_strlit("all-scroll");
    reveal_strlit("zoom-in");
    reveal_strlit("zoom-out");
    match v {
        Cursor::Auto => {
            assert(word_shape("auto"@));

            lemma_hw_round(s, p, "auto"@);
        },
        Cursor::Default => {
            assert(word_shape("default"@));
            assert("default"@ != "auto"@) by {
                assert("default"@.len() == 7);
                assert("auto"@.len() == 4);
            }
            lemma_hw_round(s, p, "default"@);
        },
        Cursor::NoneValue => {
            assert(word_shape("none"@));
            assert("none"@ != "auto"@) by {
                assert("none"@[0] == 'n');
                assert("auto"@[0] == 'a');
            }
            assert("none"@ != "default"@) by {
                assert("none"@.len() == 4);
                assert("default"@.len() == 7);
            }
            lemma_hw_round(s, p, "none"@);
        },
        Cursor::ContextMenu => {
            assert(word_shape("context-menu"@));
            assert("context-menu"@ != "auto"@) by {
                assert("context-menu"@.len() == 12);
                assert("auto"@.len() == 4);
            }
            assert("context-menu"@ != "default"@) by {
                assert("context-menu"@.len() == 12);
                assert("default"@.len() == 7);
            }
            assert("context-menu"@ != "none"@) by {
                assert("context-menu"@.len() == 12);
                assert("none"@.len() == 4);
            }
            lemma_hw_round(s, p, "context-menu"@);
        },
        Cursor::Help => {
            assert(word_shape("help"@));
            assert("help"@ != "auto"@) by {
                assert("help"@[0] == 'h');
                assert("auto"@[0] == 'a');
            }
            assert("help"@ != "default"@) by {
                assert("help"@.len() == 4);
                assert("default"@.len() == 7);
            }
            assert("help"@ != "none"@) by {
                assert("help"@[0] == 'h');
                assert("none"@[0] == 'n');
            }
            assert("help"@ != "context-menu"@) by {
                assert("help"@.len() == 4);
                assert("context-menu"@.len() == 12);
            }
            lemma_hw_round(s, p, "help"@);
        },
        Cursor::Pointer => {
            assert(word_shape("pointer"@));
            assert("pointer"@ != "auto"@) by {
                assert("pointer"@.len() == 7);
                assert("auto"@.len() == 4);
            }
            assert("pointer"@ != "default"@) by {
                assert("pointer"@[0] == 'p');
                assert("default"@[0] == 'd');
            }
            assert("pointer"@ != "none"@) by {
                assert("pointer"@.len() == 7);
                assert("none"@.len() == 4);
            }
            assert("pointer"@ != "context-menu"@) by {
                assert("pointer"@.len() == 7);
                assert("context-menu"@.len() == 12);
            }
            assert("pointer"@ != "help"@) by {
                assert("pointer"@.len() == 7);
                assert("help"@.len() == 4);
            }
            lemma_hw_round(s, p, "pointer"@);
        },
        Cursor::Progress => {
            assert(word_shape("progress"@));
            assert("progress"@ != "auto"@) by {
                assert("progress"@.len() == 8);
                assert("auto"@.len() == 4);
            }
            assert("progress"@ != "default"@) by {
                assert("progress"@.len() == 8);
                assert("default"@.len() == 7);
            }
            assert("progress"@ != "none"@) by {
                assert("progress"@.len() == 8);
                assert("none"@.len() == 4);
            }
            assert("progress"@ != "context-menu"@) by {
                assert("progress"@.len() == 8);
                assert("context-menu"@.len() == 12);
            }
            assert("progress"@ != "help"@) by {
                assert("progress"@.len() == 8);
                assert("help"@.len() == 4);
            }
            assert("progress"@ != "pointer"@) by {
                assert("progress"@.len() == 8);
                assert("pointer"@.len() == 7);
            }
            lemma_hw_round(s, p, "progress"@);
        },
        Cursor::Wait => {
            assert(word_shape("wait"@));
            assert("wait"@ != "auto"@) by {
                assert("wait"@[0] == 'w');
                assert("auto"@[0] == 'a');
            }
            assert("wait"@ != "default"@) by {
                assert("wait"@.len() == 4);
                assert("default"@.len() == 7);
            }
            assert("wait"@ != "none"@) by {
                assert("wait"@[0] == 'w');
                assert("none"@[0] == 'n');
            }
            assert("wait"@ != "context-menu"@) by {
                assert("wait"@.len() == 4);
                assert("context-menu"@.len() == 12);
            }
            assert("wait"@ != "help"@) by {
                assert("wait"@[0] == 'w');
                assert("help"@[0] == 'h');
            }
            assert("wait"@ != "pointer"@) by {
                assert("wait"@.len() == 4);
                assert("pointer"@.len() == 7);
            }
            assert("wait"@ != "progress"@) by {
                assert("wait"@.len() == 4);
                assert("progress"@.len() == 8);
            }
            lemma_hw_round(s, p, "wait"@);
        },
        Cursor::Cell => {
            assert(word_shape("cell"@));
            assert("cell"@ != "auto"@) by {
                assert("cell"@[0] == 'c');
                assert("auto"@[0] == 'a');
            }
            assert("cell"@ != "default"@) by {
                assert("cell"@.len() == 4);
                assert("default"@.len() == 7);
            }
            assert("cell"@ != "none"@) by {
                assert("cell"@[0] == 'c');
                assert("none"@[0] == 'n');
            }
            assert("cell"@ != "context-menu"@) by {
                assert("cell"@.len() == 4);
                assert("context-menu"@.len() == 12);
            }
            assert("cell"@ != "help"@) by {
                assert("cell"@[0] == 'c');
                assert("help"@[0] == 'h');
            }
            assert("cell"@ != "pointer"@) by {
                assert("cell"@.len() == 4);
                assert("pointer"@.len() == 7);
            }
            assert("cell"@ != "progress"@) by {
                assert("cell"@.len() == 4);
                assert("progress"@.len() == 8);
            }
            assert("cell"@ != "wait"@) by {
                assert("cell"@[0] == 'c');
                assert("wait"@[0] == 'w');
            }
            lemma_hw_round(s, p, "cell"@);
        },
        Cursor::Crosshair => {
            assert(word_shape("crosshair"@));
            assert("crosshair"@ != "auto"@) by {
                assert("crosshair"@.len() == 9);
                assert("auto"@.len() == 4);
            }
            assert("crosshair"@ != "default"@) by {
                assert("crosshair"@.len() == 9);
                assert("default"@.len() == 7);
            }
            assert("crosshair"@ != "none"@) by {
                assert("crosshair"@.len() == 9);
                assert("none"@.len() == 4);
            }
            assert("crosshair"@ != "context-menu"@) by {
                assert("crosshair"@.len() == 9);
                assert("context-menu"@.len() == 12);
            }
            assert("crosshair"@ != "help"@) by {
                assert("crosshair"@.len() == 9);
                assert("help"@.len() == 4);
            }
            assert("crosshair"@ != "pointer"@) by {
                assert("crosshair"@.len() == 9);
                assert("pointer"@.len() == 7);
            }
            assert("crosshair"@ != "progress"@) by {
                assert("crosshair"@.len() == 9);
                assert("progress"@.len() == 8);
            }
            assert("crosshair"@ != "wait"@) by {
                assert("crosshair"@.len() == 9);
                assert("wait"@.len() == 4);
            }
            assert("crosshair"@ != "cell"@) by {
                assert("crosshair"@.len() == 9);
                assert("cell"@.len() == 4);
            }
            lemma_hw_round(s, p, "crosshair"@);
        },
        Cursor::Text => {
            assert(word_shape("text"@));
            assert("text"@ != "auto"@) by {
                assert("text"@[0] == 't');
                assert("auto"@[0] == 'a');
            }
            assert("text"@ != "default"@) by {
                assert("text"@.len() == 4);
                assert("default"@.len() == 7);
            }
            assert("text"@ != "none"@) by {
                assert("text"@[0] == 't');
                assert("none"@[0] == 'n');
            }
            assert("text"@ != "context-menu"@) by {
                assert("text"@.len() == 4);
                assert("context-menu"@.len() == 12);
            }
            assert("text"@ != "help"@) by {
                assert("text"@[0] == 't');
                assert("help"@[0] == 'h');
            }
            assert("text"@ != "pointer"@) by {
                assert("text"@.len() == 4);
                assert("pointer"@.len() == 7);
            }
            assert("text"@ != "progress"@) by {
                assert("text"@.len() == 4);
                assert("progress"@.len() == 8);
            }
            assert("text"@ != "wait"@) by {
                assert("text"@[0] == 't');
                assert("wait"@[0] == 'w');
            }
            assert("text"@ != "cell"@) by {
                assert("text"@[0] == 't');
                assert("cell"@[0] == 'c');
            }
            assert("text"@ != "crosshair"@) by {
                assert("text"@.len() == 4);
                assert("crosshair"@.len() == 9);
            }
            lemma_hw_round(s, p, "text"@);
        },
        Cursor::VerticalText => {
            assert(word_shape("vertical-text"@));
            assert("vertical-text"@ != "auto"@) by {
                assert("vertical-text"@.len() == 13);
                assert("auto"@.len() == 4);
            }
            assert("vertical-text"@ != "default"@) by {
                assert("vertical-text"@.len() == 13);
                assert("default"@.len() == 7);
            }
            assert("vertical-text"@ != "none"@) by {
                assert("vertical-text"@.len() == 13);
                assert("none"@.len() == 4);
            }
            assert("vertical-text"@ != "context-menu"@) by {
                assert("vertical-text"@.len() == 13);
                assert("context-menu"@.len() == 12);
            }
            assert("vertical-text"@ != "help"@) by {
                assert("vertical-text"@.len() == 13);
                assert("help"@.len() == 4);
            }
            assert("vertical-text"@ != "pointer"@) by {
                assert("vertical-text"@.len() == 13);
                assert("pointer"@.len() == 7);
            }
            assert("vertical-text"@ != "progress"@) by {
                assert("vertical-text"@.len() == 13);
                assert("progress"@.len() == 8);
            }
            assert("vertical-text"@ != "wait"@) by {
                assert("vertical-text"@.len() == 13);
                assert("wait"@.len() == 4);
            }
            assert("vertical-text"@ != "cell"@) by {
                assert("vertical-text"@.len() == 13);
                assert("cell"@.len() == 4);
            }
            assert("vertical-text"@ != "crosshair"@) by {
                assert("vertical-text"@.len() == 13);
                assert("crosshair"@.len() == 9);
            }
            assert("vertical-text"@ != "text"@) by {
                assert("vertical-text"@.len() == 13);
                assert("text"@.len() == 4);
            }
            lemma_hw_round(s, p, "vertical-text"@);
        },
        Cursor::Alias => {
            assert(word_shape("alias"@));
            assert("alias"@ != "auto"@) by {
                assert("alias"@.len() == 5);
                assert("auto"@.len() == 4);
            }
            assert("alias"@ != "default"@) by {
                assert("alias"@.len() == 5);
                assert("default"@.len() == 7);
            }
            assert("alias"@ != "none"@) by {
                assert("alias"@.len() == 5);
                assert("none"@.len() == 4);
            }
            assert("alias"@ != "context-menu"@) by {
                assert("alias"@.len() == 5);
                assert("context-menu"@.len() == 12);
            }
            assert("alias"@ != "help"@) by {
                assert("alias"@.len() == 5);
                assert("help"@.len() == 4);
            }
            assert("alias"@ != "pointer"@) by {
                assert("alias"@.len() == 5);
                assert("pointer"@.len() == 7);
            }
            assert("alias"@ != "progress"@) by {
                assert("alias"@.len() == 5);
                assert("progress"@.len() == 8);
            }
            assert("alias"@ != "wait"@) by {
                assert("alias"@.len() == 5);
                assert("wait"@.len() == 4);
            }
            assert("alias"@ != "cell"@) by {
                assert("alias"@.len() == 5);
                assert("cell"@.len() == 4);
            }
            assert("alias"@ != "crosshair"@) by {
                assert("alias"@.len() == 5);
                assert("crosshair"@.len() == 9);
            }
            assert("alias"@ != "text"@) by {
                assert("alias"@.len() == 5);
                assert("text"@.len() == 4);
            }
            assert("alias"@ != "vertical-text"@) by {
                assert("alias"@.len() == 5);
                assert("vertical-text"@.len() == 13);
            }
            lemma_hw_round(s, p, "alias"@);
        },
        Cursor::Copy => {
            assert(word_shape("copy"@));
            assert("copy"@ != "auto"@) by {
                assert("copy"@[0] == 'c');
                assert("auto"@[0] == 'a');
            }
            assert("copy"@ != "default"@) by {
                assert("copy"@.len() == 4);
                assert("default"@.len() == 7);
            }
            assert("copy"@ != "none"@) by {
                assert("copy"@[0] == 'c');
                assert("none"@[0] == 'n');
            }
            assert("copy"@ != "context-menu"@) by {
                assert("copy"@.len() == 4);
                assert("context-menu"@.len() == 12);
            }
            assert("copy"@ != "help"@) by {
                assert("copy"@[0] == 'c');
                assert("help"@[0] == 'h');
            }
            assert("copy"@ != "pointer"@) by {
                assert("copy"@.len() == 4);
                assert("pointer"@.len() == 7);
            }
            assert("copy"@ != "progress"@) by {
                assert("copy"@.len() == 4);
                assert("progress"@.len() == 8);
            }
            assert("copy"@ != "wait"@) by {
                assert("copy"@[0] == 'c');
                assert("wait"@[0] == 'w');
            }
            assert("copy"@ != "cell"@) by {
                assert("copy"@[1] == 'o');
                assert("cell"@[1] == 'e');
            }
            assert("copy"@ != "crosshair"@) by {
                assert("copy"@.len() == 4);
                assert("crosshair"@.len() == 9);
            }
            assert("copy"@ != "text"@) by {
                assert("copy"@[0] == 'c');
                assert("text"@[0] == 't');
            }
            assert("copy"@ != "vertical-text"@) by {
                assert("copy"@.len() == 4);
                assert("vertical-text"@.len() == 13);
            }
            assert("copy"@ != "alias"@) by {
                assert("copy"@.len() == 4);
                assert("alias"@.len() == 5);
            }
            lemma_hw_round(s, p, "copy"@);
        },
        Cursor::Move => {
            assert(word_shape("move"@));
            assert("move"@ != "auto"@) by {
                assert("move"@[0] == 'm');
                assert("auto"@[0] == 'a');
            }
            assert("move"@ != "default"@) by {
                assert("move"@.len() == 4);
                assert("default"@.len() == 7);
            }
            assert("move"@ != "none"@) by {
                assert("move"@[0] == 'm');
                assert("none"@[0] == 'n');
            }
            assert("move"@ != "context-menu"@) by {
                assert("move"@.len() == 4);
                assert("context-menu"@.len() == 12);
            }
            assert("move"@ != "help"@) by {
                assert("move"@[0] == 'm');
                assert("help"@[0] == 'h');
            }
            assert("move"@ != "pointer"@) by {
                assert("move"@.len() == 4);
                assert("pointer"@.len() == 7);
            }
            assert("move"@ != "progress"@) by {
                assert("move"@.len() == 4);
                assert("progress"@.len() == 8);
            }
            assert("move"@ != "wait"@) by {
                assert("move"@[0] == 'm');
                assert("wait"@[0] == 'w');
            }
            assert("move"@ != "cell"@) by {
                assert("move"@[0] == 'm');
                assert("cell"@[0] == 'c');
            }
            assert("move"@ != "crosshair"@) by {
                assert("move"@.len() == 4);
                assert("crosshair"@.len() == 9);
            }
            assert("move"@ != "text"@) by {
                assert("move"@[0] == 'm');
                assert("text"@[0] == 't');
            }
            assert("move"@ != "vertical-text"@) by {
                assert("move"@.len() == 4);
                assert("vertical-text"@.len() == 13);
            }
            assert("move"@ != "alias"@) by {
                assert("move"@.len() == 4);
                assert("alias"@.len() == 5);
            }
            assert("move"@ != "copy"@) by {
                assert("move"@[0] == 'm');
                assert("copy"@[0] == 'c');
            }
            lemma_hw_round(s, p, "move"@);
        },
        Cursor::NoDrop => {
            assert(word_shape("no-drop"@));
            assert("no-drop"@ != "auto"@) by {
                assert("no-drop"@.len() == 7);
                assert("auto"@.len() == 4);
            }
            assert("no-drop"@ != "default"@) by {
                assert("no-drop"@[0] == 'n');
                assert("default"@[0] == 'd');
            }
            assert("no-drop"@ != "none"@) by {
                assert("no-drop"@.len() == 7);
                assert("none"@.len() == 4);
            }
            assert("no-drop"@ != "context-menu"@) by {
                assert("no-drop"@.len() == 7);
                assert("context-menu"@.len() == 12);
            }
            assert("no-drop"@ != "help"@) by {
                assert("no-drop"@.len() == 7);
                assert("help"@.len() == 4);
            }
            assert("no-drop"@ != "pointer"@) by {
                assert("no-drop"@[0] == 'n');
                assert("pointer"@[0] == 'p');
            }
            assert("no-drop"@ != "progress"@) by {
                assert("no-drop"@.len() == 7);
                assert("progress"@.len() == 8);
            }
            assert("no-drop"@ != "wait"@) by {
                assert("no-drop"@.len() == 7);
                assert("wait"@.len() == 4);
            }
            assert("no-drop"@ != "cell"@) by {
                assert("no-drop"@.len() == 7);
                assert("cell"@.len() == 4);
            }
            assert("no-drop"@ != "crosshair"@) by {
                assert("no-drop"@.len() == 7);
                assert("crosshair"@.len() == 9);
            }
            assert("no-drop"@ != "text"@) by {
                assert("no-drop"@.len() == 7);
                assert("text"@.len() == 4);
            }
            assert("no-drop"@ != "vertical-text"@) by {
                assert("no-drop"@.len() == 7);
                assert("vertical-text"@.len() == 13);
            }
            assert("no-drop"@ != "alias"@) by {
                assert("no-drop"@.len() == 7);
                assert("alias"@.len() == 5);
            }
            assert("no-drop"@ != "copy"@) by {
                assert("no-drop"@.len() == 7);
                assert("copy"@.len() == 4);
            }
            assert("no-drop"@ != "move"@) by {
                assert("no-drop"@.len() == 7);
                assert("move"@.len() == 4);
            }
            lemma_hw_round(s, p, "no-drop"@);
        },
        Cursor::NotAllowed => {
            assert(word_shape("not-allowed"@));
            assert("not-allowed"@ != "auto"@) by {
                assert("not-allowed"@.len() == 11);
                assert("auto"@.len() == 4);
            }
            assert("not-allowed"@ != "default"@) by {
                assert("not-allowed"@.len() == 11);
                assert("default"@.len() == 7);
            }
            assert("not-allowed"@ != "none"@) by {
                assert("not-allowed"@.len() == 11);
                assert("none"@.len() == 4);
            }
            assert("not-allowed"@ != "context-menu"@) by {
                assert("not-allowed"@.len() == 11);
                assert("context-menu"@.len() == 12);
            }
            assert("not-allowed"@ != "help"@) by {
                assert("not-allowed"@.len() == 11);
                assert("help"@.len() == 4);
            }
            assert("not-allowed"@ != "pointer"@) by {
                assert("not-allowed"@.len() == 11);
                assert("pointer"@.len() == 7);
            }
            assert("not-allowed"@ != "progress"@) by {
                assert("not-allowed"@.len() == 11);
                assert("progress"@.len() == 8);
            }
            assert("not-allowed"@ != "wait"@) by {
                assert("not-allowed"@.len() == 11);
                assert("wait"@.len() == 4);
            }
            assert("not-allowed"@ != "cell"@) by {
                assert("not-allowed"@.len() == 11);
                assert("cell"@.len() == 4);
            }
            assert("not-allowed"@ != "crosshair"@) by {
                assert("not-allowed"@.len() == 11);
                assert("crosshair"@.len() == 9);
            }
            assert("not-allowed"@ != "text"@) by {
                assert("not-allowed"@.len() == 11);
                assert("text"@.len() == 4);
            }
            assert("not-allowed"@ != "vertical-text"@) by {
                assert("not-allowed"@.len() == 11);
                assert("vertical-text"@.len() == 13);
            }
            assert("not-allowed"@ != "alias"@) by {
                assert("not-allowed"@.len() == 11);
                assert("alias"@.len() == 5);
            }
            assert("not-allowed"@ != "copy"@) by {
                assert("not-allowed"@.len() == 11);
                assert("copy"@.len() == 4);
            }
            assert("not-allowed"@ != "move"@) by {
                assert("not-allowed"@.len() == 11);
                assert("move"@.len() == 4);
            }
            assert("not-allowed"@ != "no-drop"@) by {
                assert("not-allowed"@.len() == 11);
                assert("no-drop"@.len() == 7);
            }
            lemma_hw_round(s, p, "not-allowed"@);
        },
        Cursor::Grab => {
            assert(word_shape("grab"@));
            assert("grab"@ != "auto"@) by {
                assert("grab"@[0] == 'g');
                assert("auto"@[0] == 'a');
            }
            assert("grab"@ != "default"@) by {
                assert("grab"@.len() == 4);
                assert("default"@.len() == 7);
            }
            assert("grab"@ != "none"@) by {
                assert("grab"@[0] == 'g');
                assert("none"@[0] == 'n');
            }
            assert("grab"@ != "context-menu"@) by {
                assert("grab"@.len() == 4);
                assert("context-menu"@.len() == 12);
            }
            assert("grab"@ != "help"@) by {
                assert("grab"@[0] == 'g');
                assert("help"@[0] == 'h');
            }
            assert("grab"@ != "pointer"@) by {
                assert("grab"@.len() == 4);
                assert("pointer"@.len() == 7);
            }
            assert("grab"@ != "progress"@) by {
                assert("grab"@.len() == 4);
                assert("progress"@.len() == 8);
            }
            assert("grab"@ != "wait"@) by {
                assert("grab"@[0] == 'g');
                assert("wait"@[0] == 'w');
            }
            assert("grab"@ != "cell"@) by {
                assert("grab"@[0] == 'g');
                assert("cell"@[0] == 'c');
            }
            assert("grab"@ != "crosshair"@) by {
                assert("grab"@.len() == 4);
                assert("crosshair"@.len() == 9);
            }
            assert("grab"@ != "text"@) by {
                assert("grab"@[0] == 'g');
                assert("text"@[0] == 't');
            }
            assert("grab"@ != "vertical-text"@) by {
                assert("grab"@.len() == 4);
                assert("vertical-text"@.len() == 13);
            }
            assert("grab"@ != "alias"@) by {
                assert("grab"@.len() == 4);
                assert("alias"@.len() == 5);
            }
            assert("grab"@ != "copy"@) by {
                assert("grab"@[0] == 'g');
                assert("copy"@[0] == 'c');
            }
            assert("grab"@ != "move"@) by {
                assert("grab"@[0] == 'g');
                assert("move"@[0] == 'm');
            }
            assert("grab"@ != "no-drop"@) by {
                assert("grab"@.len() == 4);
                assert("no-drop"@.len() == 7);
            }
            assert("grab"@ != "not-allowed"@) by {
                assert("grab"@.len() == 4);
                assert("not-allowed"@.len() == 11);
            }
            lemma_hw_round(s, p, "grab"@);
        },
        Cursor::Grabbing => {
            assert(word_shape("grabbing"@));
            assert("grabbing"@ != "auto"@) by {
                assert("grabbing"@.len() == 8);
                assert("auto"@.len() == 4);
            }
            assert("grabbing"@ != "default"@) by {
                assert("grabbing"@.len() == 8);
                assert("default"@.len() == 7);
            }
            assert("grabbing"@ != "none"@) by {
                assert("grabbing"@.len() == 8);
                assert("none"@.len() == 4);
            }
            assert("grabbing"@ != "context-menu"@) by {
                assert("grabbing"@.len() == 8);
                assert("context-menu"@.len() == 12);
            }
            assert("grabbing"@ != "help"@) by {
                assert("grabbing"@.len() == 8);
                assert("help"@.len() == 4);
            }
            assert("grabbing"@ != "pointer"@) by {
                assert("grabbing"@.len() == 8);
                assert("pointer"@.len() == 7);
            }
            assert("grabbing"@ != "progress"@) by {
                assert("grabbing"@[0] == 'g');
                assert("progress"@[0] == 'p');
            }
            assert("grabbing"@ != "wait"@) by {
                assert("grabbing"@.len() == 8);
                assert("wait"@.len() == 4);
            }
            assert("grabbing"@ != "cell"@) by {
                assert("grabbing"@.len() == 8);
                assert("cell"@.len() == 4);
            }
            assert("grabbing"@ != "crosshair"@) by {
                assert("grabbing"@.len() == 8);
                assert("crosshair"@.len() == 9);
            }
            assert("grabbing"@ != "text"@) by {
                assert("grabbing"@.len() == 8);
                assert("text"@.len() == 4);
            }
            assert("grabbing"@ != "vertical-text"@) by {
                assert("grabbing"@.len() == 8);
                assert("vertical-text"@.len() == 13);
            }
            assert("grabbing"@ != "alias"@) by {
                assert("grabbing"@.len() == 8);
                assert("alias"@.len() == 5);
            }
            assert("grabbing"@ != "copy"@) by {
                assert("grabbing"@.len() == 8);
                assert("copy"@.len() == 4);
            }
            assert("grabbing"@ != "move"@) by {
                assert("grabbing"@.len() == 8);
                assert("move"@.len() == 4);
            }
            assert("grabbing"@ != "no-drop"@) by {
                assert("grabbing"@.len() == 8);
                assert("no-drop"@.len() == 7);
            }
            assert("grabbing"@ != "not-allowed"@) by {
                assert("grabbing"@.len() == 8);
                assert("not-allowed"@.len() == 11);
            }
            assert("grabbing"@ != "grab"@) by {
                assert("grabbing"@.len() == 8);
                assert("grab"@.len() == 4);
            }
            lemma_hw_round(s, p, "grabbing"@);
        },
        Cursor::EResize => {
            assert(word_shape("e-resize"@));
            assert("e-resize"@ != "auto"@) by {
                assert("e-resize"@.len() == 8);
                assert("auto"@.len() == 4);
            }
            assert("e-resize"@ != "default"@) by {
                assert("e-resize"@.len() == 8);
                assert("default"@.len() == 7);
            }
            assert("e-resize"@ != "none"@) by {
                assert("e-resize"@.len() == 8);
                assert("none"@.len() == 4);
            }
            assert("e-resize"@ != "context-menu"@) by {
                assert("e-resize"@.len() == 8);
                assert("context-menu"@.len() == 12);
            }
            assert("e-resize"@ != "help"@) by {
                assert("e-resize"@.len() == 8);
                assert("help"@.len() == 4);
            }
            assert("e-resize"@ != "pointer"@) by {
                assert("e-resize"@.len() == 8);
                assert("pointer"@.len() == 7);
            }
            assert("e-resize"@ != "progress"@) by {
                assert("e-resize"@[0] == 'e');
                assert("progress"@[0] == 'p');
            }
            assert("e-resize"@ != "wait"@) by {
                assert("e-resize"@.len() == 8);
                assert("wait"@.len() == 4);
            }
            assert("e-resize"@ != "cell"@) by {
                assert("e-resize"@.len() == 8);
                assert("cell"@.len() == 4);
            }
            assert("e-resize"@ != "crosshair"@) by {
                assert("e-resize"@.len() == 8);
                assert("crosshair"@.len() == 9);
            }
            assert("e-resize"@ != "text"@) by {
                assert("e-resize"@.len() == 8);
                assert("text"@.len() == 4);
            }
            assert("e-resize"@ != "vertical-text"@) by {
                assert("e-resize"@.len() == 8);
                assert("vertical-text"@.len() == 13);
            }
            assert("e-resize"@ != "alias"@) by {
                assert("e-resize"@.len() == 8);
                assert("alias"@.len() == 5);
            }
            assert("e-resize"@ != "copy"@) by {
                assert("e-resize"@.len() == 8);
                assert("copy"@.len() == 4);
            }
            assert("e-resize"@ != "move"@) by {
                assert("e-resize"@.len() == 8);
                assert("move"@.len() == 4);
            }
            assert("e-resize"@ != "no-drop"@) by {
                assert("e-resize"@.len() == 8);
                assert("no-drop"@.len() == 7);
            }
            assert("e-resize"@ != "not-allowed"@) by {
                assert("e-resize"@.len() == 8);
                assert("not-allowed"@.len() == 11);
            }
            assert("e-resize"@ != "grab"@) by {
                assert("e-resize"@.len() == 8);
                assert("grab"@.len() == 4);
            }
            assert("e-resize"@ != "grabbing"@) by {
                assert("e-resize"@[0] == 'e');
                assert("grabbing"@[0] == 'g');
            }
            lemma_hw_round(s, p, "e-resize"@);
        },
        Cursor::NResize => {
            assert(word_shape("n-resize"@));
            assert("n-resize"@ != "auto"@) by {
                assert("n-resize"@.len() == 8);
                assert("auto"@.len() == 4);
            }
            assert("n-resize"@ != "default"@) by {
                assert("n-resize"@.len() == 8);
                assert("default"@.len() == 7);
            }
            assert("n-resize"@ != "none"@) by {
                assert("n-resize"@.len() == 8);
                assert("none"@.len() == 4);
            }
            assert("n-resize"@ != "context-menu"@) by {
                assert("n-resize"@.len() == 8);
                assert("context-menu"@.len() == 12);
            }
            assert("n-resize"@ != "help"@) by {
                assert("n-resize"@.len() == 8);
                assert("help"@.len() == 4);
            }
            assert("n-resize"@ != "pointer"@) by {
                assert("n-resize"@.len() == 8);
                assert("pointer"@.len() == 7);
            }
            assert("n-resize"@ != "progress"@) by {
                assert("n-resize"@[0] == 'n');
                assert("progress"@[0] == 'p');
            }
            assert("n-resize"@ != "wait"@) by {
                assert("n-resize"@.len() == 8);
                assert("wait"@.len() == 4);
            }
            assert("n-resize"@ != "cell"@) by {
                assert("n-resize"@.len() == 8);
                assert("cell"@.len() == 4);
            }
            assert("n-resize"@ != "crosshair"@) by {
                assert("n-resize"@.len() == 8);
                assert("crosshair"@.len() == 9);
            }
            assert("n-resize"@ != "text"@) by {
                assert("n-resize"@.len() == 8);
                assert("text"@.len() == 4);
            }
            assert("n-resize"@ != "vertical-text"@) by {
                assert("n-resize"@.len() == 8);
                assert("vertical-text"@.len() == 13);
            }
            assert("n-resize"@ != "alias"@) by {
                assert("n-resize"@.len() == 8);
                assert("alias"@.len() == 5);
            }
            assert("n-resize"@ != "copy"@) by {
                assert("n-resize"@.len() == 8);
                assert("copy"@.len() == 4);
            }
            assert("n-resize"@ != "move"@) by {
                assert("n-resize"@.len() == 8);
                assert("move"@.len() == 4);
            }
            assert("n-resize"@ != "no-drop"@) by {
                assert("n-resize"@.len() == 8);
                assert("no-drop"@.len() == 7);
            }
            assert("n-resize"@ != "not-allowed"@) by {
                assert("n-resize"@.len() == 8);
                assert("not-allowed"@.len() == 11);
            }
            assert("n-resize"@ != "grab"@) by {
                assert("n-resize"@.len() == 8);
                assert("grab"@.len() == 4);
            }
            assert("n-resize"@ != "grabbing"@) by {
                assert("n-resize"@[0] == 'n');
                assert("grabbing"@[0] == 'g');
            }
            assert("n-resize"@ != "e-resize"@) by {
                assert("n-resize"@[0] == 'n');
                assert("e-resize"@[0] == 'e');
            }
            lemma_hw_round(s, p, "n-resize"@);
        },
        Cursor::NEResize => {
            assert(word_shape("ne-resize"@));
            assert("ne-resize"@ != "auto"@) by {
                assert("ne-resize"@.len() == 9);
                assert("auto"@.len() == 4);
            }
            assert("ne-resize"@ != "default"@) by {
                assert("ne-resize"@.len() == 9);
                assert("default"@.len() == 7);
            }
            assert("ne-resize"@ != "none"@) by {
                assert("ne-resize"@.len() == 9);
                assert("none"@.len() == 4);
            }
            assert("ne-resize"@ != "context-menu"@) by {
                assert("ne-resize"@.len() == 9);
                assert("context-menu"@.len() == 12);
            }
            assert("ne-resize"@ != "help"@) by {
                assert("ne-resize"@.len() == 9);
                assert("help"@.len() == 4);
            }
            assert("ne-resize"@ != "pointer"@) by {
                assert("ne-resize"@.len() == 9);
                assert("pointer"@.len() == 7);
            }
            assert("ne-resize"@ != "progress"@) by {
                assert("ne-resize"@.len() == 9);
                assert("progress"@.len() == 8);
            }
            assert("ne-resize"@ != "wait"@) by {
                assert("ne-resize"@.len() == 9);
                assert("wait"@.len() == 4);
            }
            assert("ne-resize"@ != "cell"@) by {
                assert("ne-resize"@.len() == 9);
                assert("cell"@.len() == 4);
            }
            assert("ne-resize"@ != "crosshair"@) by {
                assert("ne-resize"@[0] == 'n');
                assert("crosshair"@[0] == 'c');
            }
            assert("ne-resize"@ != "text"@) by {
                assert("ne-resize"@.len() == 9);
                assert("text"@.len() == 4);
            }
            assert("ne-resize"@ != "vertical-text"@) by {
                assert("ne-resize"@.len() == 9);
                assert("vertical-text"@.len() == 13);
            }
            assert("ne-resize"@ != "alias"@) by {
                assert("ne-resize"@.len() == 9);
                assert("alias"@.len() == 5);
            }
            assert("ne-resize"@ != "copy"@) by {
                assert("ne-resize"@.len() == 9);
                assert("copy"@.len() == 4);
            }
            assert("ne-resize"@ != "move"@) by {
                assert("ne-resize"@.len() == 9);
                assert("move"@.len() == 4);
            }
            assert("ne-resize"@ != "no-drop"@) by {
                assert("ne-resize"@.len() == 9);
                assert("no-drop"@.len() == 7);
            }
            assert("ne-resize"@ != "not-allowed"@) by {
                assert("ne-resize"@.len() == 9);
                assert("not-allowed"@.len() == 11);
            }
            assert("ne-resize"@ != "grab"@) by {
                assert("ne-resize"@.len() == 9);
                assert("grab"@.len() == 4);
            }
            assert("ne-resize"@ != "grabbing"@) by {
                assert("ne-resize"@.len() == 9);
                assert("grabbing"@.len() == 8);
            }
            assert("ne-resize"@ != "e-resize"@) by {
                assert("ne-resize"@.len() == 9);
                assert("e-resize"@.len() == 8);
            }
            assert("ne-resize"@ != "n-resize"@) by {
                assert("ne-resize"@.len() == 9);
                assert("n-resize"@.len() == 8);
            }
            lemma_hw_round(s, p, "ne-resize"@);
        },
        Cursor::NWResize => {
            assert(word_shape("nw-resize"@));
            assert("nw-resize"@ != "auto"@) by {
                assert("nw-resize"@.len() == 9);
                assert("auto"@.len() == 4);
            }
            assert("nw-resize"@ != "default"@) by {
                assert("nw-resize"@.len() == 9);
                assert("default"@.len() == 7);
            }
            assert("nw-resize"@ != "none"@) by {
                assert("nw-resize"@.len() == 9);
                assert("none"@.len() == 4);
            }
            assert("nw-resize"@ != "context-menu"@) by {
                assert("nw-resize"@.len() == 9);
                assert("context-menu"@.len() == 12);
            }
            assert("nw-resize"@ != "help"@) by {
                assert("nw-resize"@.len() == 9);
                assert("help"@.len() == 4);
            }
            assert("nw-resize"@ != "pointer"@) by {
                assert("nw-resize"@.len() == 9);
                assert("pointer"@.len() == 7);
            }
            assert("nw-resize"@ != "progress"@) by {
                assert("nw-resize"@.len() == 9);
                assert("progress"@.len() == 8);
            }
            assert("nw-resize"@ != "wait"@) by {
                assert("nw-resize"@.len() == 9);
                assert("wait"@.len() == 4);
            }
            assert("nw-resize"@ != "cell"@) by {
                assert("nw-resize"@.len() == 9);
                assert("cell"@.len() == 4);
            }
            assert("nw-resize"@ != "crosshair"@) by {
                assert("nw-resize"@[0] == 'n');
                assert("crosshair"@[0] == 'c');
            }
            assert("nw-resize"@ != "text"@) by {
                assert("nw-resize"@.len() == 9);
                assert("text"@.len() == 4);
            }
            assert("nw-resize"@ != "vertical-text"@) by {
                assert("nw-resize"@.len() == 9);
                assert("vertical-text"@.len() == 13);
            }
            assert("nw-resize"@ != "alias"@) by {
                assert("nw-resize"@.len() == 9);
                assert("alias"@.len() == 5);
            }
            assert("nw-resize"@ != "copy"@) by {
                assert("nw-resize"@.len() == 9);
                assert("copy"@.len() == 4);
            }
            assert("nw-resize"@ != "move"@) by {
                assert("nw-resize"@.len() == 9);
                assert("move"@.len() == 4);
            }
            assert("nw-resize"@ != "no-drop"@) by {
                assert("nw-resize"@.len() == 9);
                assert("no-drop"@.len() == 7);
            }
            assert("nw-resize"@ != "not-allowed"@) by {
                assert("nw-resize"@.len() == 9);
                assert("not-allowed"@.len() == 11);
            }
            assert("nw-resize"@ != "grab"@) by {
                assert("nw-resize"@.len() == 9);
                assert("grab"@.len() == 4);
            }
            assert("nw-resize"@ != "grabbing"@) by {
                assert("nw-resize"@.len() == 9);
                assert("grabbing"@.len() == 8);
            }
            assert("nw-resize"@ != "e-resize"@) by {
                assert("nw-resize"@.len() == 9);
                assert("e-resize"@.len() == 8);
            }
            assert("nw-resize"@ != "n-resize"@) by {
                assert("nw-resize"@.len() == 9);
                assert("n-resize"@.len() == 8);
            }
            assert("nw-resize"@ != "ne-resize"@) by {
                assert("nw-resize"@[1] == 'w');
                assert("ne-resize"@[1] == 'e');
            }
            lemma_hw_round(s, p, "nw-resize"@);
        },
        Cursor::SResize => {
            assert(word_shape("s-resize"@));
            assert("s-resize"@ != "auto"@) by {
                assert("s-resize"@.len() == 8);
                assert("auto"@.len() == 4);
            }
            assert("s-resize"@ != "default"@) by {
                assert("s-resize"@.len() == 8);
                assert("default"@.len() == 7);
            }
            assert("s-resize"@ != "none"@) by {
                assert("s-resize"@.len() == 8);
                assert("none"@.len() == 4);
            }
            assert("s-resize"@ != "context-menu"@) by {
                assert("s-resize"@.len() == 8);
                assert("context-menu"@.len() == 12);
            }
            assert("s-resize"@ != "help"@) by {
                assert("s-resize"@.len() == 8);
                assert("help"@.len() == 4);
            }
            assert("s-resize"@ != "pointer"@) by {
                assert("s-resize"@.len() == 8);
                assert("pointer"@.len() == 7);
            }
            assert("s-resize"@ != "progress"@) by {
                assert("s-resize"@[0] == 's');
                assert("progress"@[0] == 'p');
            }
            assert("s-resize"@ != "wait"@) by {
                assert("s-resize"@.len() == 8);
                assert("wait"@.len() == 4);
            }
            assert("s-resize"@ != "cell"@) by {
                assert("s-resize"@.len() == 8);
                assert("cell"@.len() == 4);
            }
            assert("s-resize"@ != "crosshair"@) by {
                assert("s-resize"@.len() == 8);
                assert("crosshair"@.len() == 9);
            }
            assert("s-resize"@ != "text"@) by {
                assert("s-resize"@.len() == 8);
                assert("text"@.len() == 4);
            }
            assert("s-resize"@ != "vertical-text"@) by {
                assert("s-resize"@.len() == 8);
                assert("vertical-text"@.len() == 13);
            }
            assert("s-resize"@ != "alias"@) by {
                assert("s-resize"@.len() == 8);
                assert("alias"@.len() == 5);
            }
            assert("s-resize"@ != "copy"@) by {
                assert("s-resize"@.len() == 8);
                assert("copy"@.len() == 4);
            }
            assert("s-resize"@ != "move"@) by {
                assert("s-resize"@.len() == 8);
                assert("move"@.len() == 4);
            }
            assert("s-resize"@ != "no-drop"@) by {
                assert("s-resize"@.len() == 8);
                assert("no-drop"@.len() == 7);
            }
            assert("s-resize"@ != "not-allowed"@) by {
                assert("s-resize"@.len() == 8);
                assert("not-allowed"@.len() == 11);
            }
            assert("s-resize"@ != "grab"@) by {
                assert("s-resize"@.len() == 8);
                assert("grab"@.len() == 4);
            }
            assert("s-resize"@ != "grabbing"@) by {
                assert("s-resize"@[0] == 's');
                assert("grabbing"@[0] == 'g');
            }
            assert("s-resize"@ != "e-resize"@) by {
                assert("s-resize"@[0] == 's');
                assert("e-resize"@[0] == 'e');
            }
            assert("s-resize"@ != "n-resize"@) by {
                assert("s-resize"@[0] == 's');
                assert("n-resize"@[0] == 'n');
            }
            assert("s-resize"@ != "ne-resize"@) by {
                assert("s-resize"@.len() == 8);
                assert("ne-resize"@.len() == 9);
            }
            assert("s-resize"@ != "nw-resize"@) by {
                assert("s-resize"@.len() == 8);
                assert("nw-resize"@.len() == 9);
            }
            lemma_hw_round(s, p, "s-resize"@);
        },
        Cursor::SEResize => {
            assert(word_shape("se-resize"@));
            assert("se-resize"@ != "auto"@) by {
                assert("se-resize"@.len() == 9);
                assert("auto"@.len() == 4);
            }
            assert("se-resize"@ != "default"@) by {
                assert("se-resize"@.len() == 9);
                assert("default"@.len() == 7);
            }
            assert("se-resize"@ != "none"@) by {
                assert("se-resize"@.len() == 9);
                assert("none"@.len() == 4);
            }
            assert("se-resize"@ != "context-menu"@) by {
                assert("se-resize"@.len() == 9);
                assert("context-menu"@.len() == 12);
            }
            assert("se-resize"@ != "help"@) by {
                assert("se-resize"@.len() == 9);
                assert("help"@.len() == 4);
            }
            assert("se-resize"@ != "pointer"@) by {
                assert("se-resize"@.len() == 9);
                assert("pointer"@.len() == 7);
            }
            assert("se-resize"@ != "progress"@) by {
                assert("se-resize"@.len() == 9);
                assert("progress"@.len() == 8);
            }
            assert("se-resize"@ != "wait"@) by {
                assert("se-resize"@.len() == 9);
                assert("wait"@.len() == 4);
            }
            assert("se-resize"@ != "cell"@) by {
                assert("se-resize"@.len() == 9);
                assert("cell"@.len() == 4);
            }
            assert("se-resize"@ != "crosshair"@) by {
                assert("se-resize"@[0] == 's');
                assert("crosshair"@[0] == 'c');
            }
            assert("se-resize"@ != "text"@) by {
                assert("se-resize"@.len() == 9);
                assert("text"@.len() == 4);
            }
            assert("se-resize"@ != "vertical-text"@) by {
                assert("se-resize"@.len() == 9);
                assert("vertical-text"@.len() == 13);
            }
            assert("se-resize"@ != "alias"@) by {
                assert("se-resize"@.len() == 9);
                assert("alias"@.len() == 5);
            }
            assert("se-resize"@ != "copy"@) by {
                assert("se-resize"@.len() == 9);
                assert("copy"@.len() == 4);
            }
            assert("se-resize"@ != "move"@) by {
                assert("se-resize"@.len() == 9);
                assert("move"@.len() == 4);
            }
            assert("se-resize"@ != "no-drop"@) by {
                assert("se-resize"@.len() == 9);
                assert("no-drop"@.len() == 7);
            }
            assert("se-resize"@ != "not-allowed"@) by {
                assert("se-resize"@.len() == 9);
                assert("not-allowed"@.len() == 11);
            }
            assert("se-resize"@ != "grab"@) by {
                assert("se-resize"@.len() == 9);
                assert("grab"@.len() == 4);
            }
            assert("se-resize"@ != "grabbing"@) by {
                assert("se-resize"@.len() == 9);
                assert("grabbing"@.len() == 8);
            }
            assert("se-resize"@ != "e-resize"@) by {
                assert("se-resize"@.len() == 9);
                assert("e-resize"@.len() == 8);
            }
            assert("se-resize"@ != "n-resize"@) by {
                assert("se-resize"@.len() == 9);
                assert("n-resize"@.len() == 8);
            }
            assert("se-resize"@ != "ne-resize"@) by {
                assert("se-resize"@[0] == 's');
                assert("ne-resize"@[0] == 'n');
            }
            assert("se-resize"@ != "nw-resize"@) by {
                assert("se-resize"@[0] == 's');
                assert("nw-resize"@[0] == 'n');
            }
            assert("se-resize"@ != "s-resize"@) by {
                assert("se-resize"@.len() == 9);
                assert("s-resize"@.len() == 8);
            }
            lemma_hw_round(s, p, "se-resize"@);
        },
        Cursor::SWResize => {
            assert(word_shape("sw-resize"@));
            assert("sw-resize"@ != "auto"@) by {
                assert("sw-resize"@.len() == 9);
                assert("auto"@.len() == 4);
            }
            assert("sw-resize"@ != "default"@) by {
                assert("sw-resize"@.len() == 9);
                assert("default"@.len() == 7);
            }
            assert("sw-resize"@ != "none"@) by {
                assert("sw-resize"@.len() == 9);
                assert("none"@.len() == 4);
            }
            assert("sw-resize"@ != "context-menu"@) by {
                assert("sw-resize"@.len() == 9);
                assert("context-menu"@.len() == 12);
            }
            assert("sw-resize"@ != "help"@) by {
                assert("sw-resize"@.len() == 9);
                assert("help"@.len() == 4);
            }
            assert("sw-resize"@ != "pointer"@) by {
                assert("sw-resize"@.len() == 9);
                assert("pointer"@.len() == 7);
            }
            assert("sw-resize"@ != "progress"@) by {
                assert("sw-resize"@.len() == 9);
                assert("progress"@.len() == 8);
            }
            assert("sw-resize"@ != "wait"@) by {
                assert("sw-resize"@.len() == 9);
                assert("wait"@.len() == 4);
            }
            assert("sw-resize"@ != "cell"@) by {
                assert("sw-resize"@.len() == 9);
                assert("cell"@.len() == 4);
            }
            assert("sw-resize"@ != "crosshair"@) by {
                assert("sw-resize"@[0] == 's');
                assert("crosshair"@[0] == 'c');
            }
            assert("sw-resize"@ != "text"@) by {
                assert("sw-resize"@.len() == 9);
                assert("text"@.len() == 4);
            }
            assert("sw-resize"@ != "vertical-text"@) by {
                assert("sw-resize"@.len() == 9);
                assert("vertical-text"@.len() == 13);
            }
            assert("sw-resize"@ != "alias"@) by {
                assert("sw-resize"@.len() == 9);
                assert("alias"@.len() == 5);
            }
            assert("sw-resize"@ != "copy"@) by {
                assert("sw-resize"@.len() == 9);
                assert("copy"@.len() == 4);
            }
            assert("sw-resize"@ != "move"@) by {
                assert("sw-resize"@.len() == 9);
                assert("move"@.len() == 4);
            }
            assert("sw-resize"@ != "no-drop"@) by {
                assert("sw-resize"@.len() == 9);
                assert("no-drop"@.len() == 7);
            }
            assert("sw-resize"@ != "not-allowed"@) by {
                assert("sw-resize"@.len() == 9);
                assert("not-allowed"@.len() == 11);
            }
            assert("sw-resize"@ != "grab"@) by {
                assert("sw-resize"@.len() == 9);
                assert("grab"@.len() == 4);
            }
            assert("sw-resize"@ != "grabbing"@) by {
                assert("sw-resize"@.len() == 9);
                assert("grabbing"@.len() == 8);
            }
            assert("sw-resize"@ != "e-resize"@) by {
                assert("sw-resize"@.len() == 9);
                assert("e-resize"@.len() == 8);
            }
            assert("sw-resize"@ != "n-resize"@) by {
                assert("sw-resize"@.len() == 9);
                assert("n-resize"@.len() == 8);
            }
            assert("sw-resize"@ != "ne-resize"@) by {
                assert("sw-resize"@[0] == 's');
                assert("ne-resize"@[0] == 'n');
            }
            assert("sw-resize"@ != "nw-resize"@) by {
                assert("sw-resize"@[0] == 's');
                assert("nw-resize"@[0] == 'n');
            }
            assert("sw-resize"@ != "s-resize"@) by {
                assert("sw-resize"@.len() == 9);
                assert("s-resize"@.len() == 8);
            }
            assert("sw-resize"@ != "se-resize"@) by {
                assert("sw-resize"@[1] == 'w');
                assert("se-resize"@[1] == 'e');
            }
            lemma_hw_round(s, p, "sw-resize"@);
        },
        Cursor::WResize => {
            assert(word_shape("w-resize"@));
            assert("w-resize"@ != "auto"@) by {
                assert("w-resize"@.len() == 8);
                assert("auto"@.len() == 4);
            }
            assert("w-resize"@ != "default"@) by {
                assert("w-resize"@.len() == 8);
                assert("default"@.len() == 7);
            }
            assert("w-resize"@ != "none"@) by {
                assert("w-resize"@.len() == 8);
                assert("none"@.len() == 4);
            }
            assert("w-resize"@ != "context-menu"@) by {
                assert("w-resize"@.len() == 8);
                assert("context-menu"@.len() == 12);
            }
            assert("w-resize"@ != "help"@) by {
                assert("w-resize"@.len() == 8);
                assert("help"@.len() == 4);
            }
            assert("w-resize"@ != "pointer"@) by {
                assert("w-resize"@.len() == 8);
                assert("pointer"@.len() == 7);
            }
            assert("w-resize"@ != "progress"@) by {
                assert("w-resize"@[0] == 'w');
                assert("progress"@[0] == 'p');
            }
            assert("w-resize"@ != "wait"@) by {
                assert("w-resize"@.len() == 8);
                assert("wait"@.len() == 4);
            }
            assert("w-resize"@ != "cell"@) by {
                assert("w-resize"@.len() == 8);
                assert("cell"@.len() == 4);
            }
            assert("w-resize"@ != "crosshair"@) by {
                assert("w-resize"@.len() == 8);
                assert("crosshair"@.len() == 9);
            }
            assert("w-resize"@ != "text"@) by {
                assert("w-resize"@.len() == 8);
                assert("text"@.len() == 4);
            }
            assert("w-resize"@ != "vertical-text"@) by {
                assert("w-resize"@.len() == 8);
                assert("vertical-text"@.len() == 13);
            }
            assert("w-resize"@ != "alias"@) by {
                assert("w-resize"@.len() == 8);
                assert("alias"@.len() == 5);
            }
            assert("w-resize"@ != "copy"@) by {
                assert("w-resize"@.len() == 8);
                assert("copy"@.len() == 4);
            }
            assert("w-resize"@ != "move"@) by {
                assert("w-resize"@.len() == 8);
                assert("move"@.len() == 4);
            }
            assert("w-resize"@ != "no-drop"@) by {
                assert("w-resize"@.len() == 8);
                assert("no-drop"@.len() == 7);
            }
            assert("w-resize"@ != "not-allowed"@) by {
                assert("w-resize"@.len() == 8);
                assert("not-allowed"@.len() == 11);
            }
            assert("w-resize"@ != "grab"@) by {
                assert("w-resize"@.len() == 8);
                assert("grab"@.len() == 4);
            }
            assert("w-resize"@ != "grabbing"@) by {
                assert("w-resize"@[0] == 'w');
                assert("grabbing"@[0] == 'g');
            }
            assert("w-resize"@ != "e-resize"@) by {
                assert("w-resize"@[0] == 'w');
                assert("e-resize"@[0] == 'e');
            }
            assert("w-resize"@ != "n-resize"@) by {
                assert("w-resize"@[0] == 'w');
                assert("n-resize"@[0] == 'n');
            }
            assert("w-resize"@ != "ne-resize"@) by {
                assert("w-resize"@.len() == 8);
                assert("ne-resize"@.len() == 9);
            }
            assert("w-resize"@ != "nw-resize"@) by {
                assert("w-resize"@.len() == 8);
                assert("nw-resize"@.len() == 9);
            }
            assert("w-resize"@ != "s-resize"@) by {
                assert("w-resize"@[0] == 'w');
                assert("s-resize"@[0] == 's');
            }
            assert("w-resize"@ != "se-resize"@) by {
                assert("w-resize"@.len() == 8);
                assert("se-resize"@.len() == 9);
            }
            assert("w-resize"@ != "sw-resize"@) by {
                assert("w-resize"@.len() == 8);
                assert("sw-resize"@.len() == 9);
            }
            lemma_hw_round(s, p, "w-resize"@);
        },
        Cursor::EWResize => {
            assert(word_shape("ew-resize"@));
            assert("ew-resize"@ != "auto"@) by {
                assert("ew-resize"@.len() == 9);
                assert("auto"@.len() == 4);
            }
            assert("ew-resize"@ != "default"@) by {
                assert("ew-resize"@.len() == 9);
                assert("default"@.len() == 7);
            }
            assert("ew-resize"@ != "none"@) by {
                assert("ew-resize"@.len() == 9);
                assert("none"@.len() == 4);
            }
            assert("ew-resize"@ != "context-menu"@) by {
                assert("ew-resize"@.len() == 9);
                assert("context-menu"@.len() == 12);
            }
            assert("ew-resize"@ != "help"@) by {
                assert("ew-resize"@.len() == 9);
                assert("help"@.len() == 4);
            }
            assert("ew-resize"@ != "pointer"@) by {
                assert("ew-resize"@.len() == 9);
                assert("pointer"@.len() == 7);
            }
            assert("ew-resize"@ != "progress"@) by {
                assert("ew-resize"@.len() == 9);
                assert("progress"@.len() == 8);
            }
            assert("ew-resize"@ != "wait"@) by {
                assert("ew-resize"@.len() == 9);
                assert("wait"@.len() == 4);
            }
            assert("ew-resize"@ != "cell"@) by {
                assert("ew-resize"@.len() == 9);
                assert("cell"@.len() == 4);
            }
            assert("ew-resize"@ != "crosshair"@) by {
                assert("ew-resize"@[0] == 'e');
                assert("crosshair"@[0] == 'c');
            }
            assert("ew-resize"@ != "text"@) by {
                assert("ew-resize"@.len() == 9);
                assert("text"@.len() == 4);
            }
            assert("ew-resize"@ != "vertical-text"@) by {
                assert("ew-resize"@.len() == 9);
                assert("vertical-text"@.len() == 13);
            }
            assert("ew-resize"@ != "alias"@) by {
                assert("ew-resize"@.len() == 9);
                assert("alias"@.len() == 5);
            }
            assert("ew-resize"@ != "copy"@) by {
                assert("ew-resize"@.len() == 9);
                assert("copy"@.len() == 4);
            }
            assert("ew-resize"@ != "move"@) by {
                assert("ew-resize"@.len() == 9);
                assert("move"@.len() == 4);
            }
            assert("ew-resize"@ != "no-drop"@) by {
                assert("ew-resize"@.len() == 9);
                assert("no-drop"@.len() == 7);
            }
            assert("ew-resize"@ != "not-allowed"@) by {
                assert("ew-resize"@.len() == 9);
                assert("not-allowed"@.len() == 11);
            }
            assert("ew-resize"@ != "grab"@) by {
                assert("ew-resize"@.len() == 9);
                assert("grab"@.len() == 4);
            }
            assert("ew-resize"@ != "grabbing"@) by {
                assert("ew-resize"@.len() == 9);
                assert("grabbing"@.len() == 8);
            }
            assert("ew-resize"@ != "e-resize"@) by {
                assert("ew-resize"@.len() == 9);
                assert("e-resize"@.len() == 8);
            }
            assert("ew-resize"@ != "n-resize"@) by {
                assert("ew-resize"@.len() == 9);
                assert("n-resize"@.len() == 8);
            }
            assert("ew-resize"@ != "ne-resize"@) by {
                assert("ew-resize"@[0] == 'e');
                assert("ne-resize"@[0] == 'n');
            }
            assert("ew-resize"@ != "nw-resize"@) by {
                assert("ew-resize"@[0] == 'e');
                assert("nw-resize"@[0] == 'n');
            }
            assert("ew-resize"@ != "s-resize"@) by {
                assert("ew-resize"@.len() == 9);
                assert("s-resize"@.len() == 8);
            }
            assert("ew-resize"@ != "se-resize"@) by {
                assert("ew-resize"@[0] == 'e');
                assert("se-resize"@[0] == 's');
            }
            assert("ew-resize"@ != "sw-resize"@) by {
                assert("ew-resize"@[0] == 'e');
                assert("sw-resize"@[0] == 's');
            }
            assert("ew-resize"@ != "w-resize"@) by {
                assert("ew-resize"@.len() == 9);
                assert("w-resize"@.len() == 8);
            }
            lemma_hw_round(s, p, "ew-resize"@);
        },
        Cursor::NSResize => {
            assert(word_shape("ns-resize"@));
            assert("ns-resize"@ != "auto"@) by {
                assert("ns-resize"@.len() == 9);
                assert("auto"@.len() == 4);
            }
            assert("ns-resize"@ != "default"@) by {
                assert("ns-resize"@.len() == 9);
                assert("default"@.len() == 7);
            }
            assert("ns-resize"@ != "none"@) by {
                assert("ns-resize"@.len() == 9);
                assert("none"@.len() == 4);
            }
            assert("ns-resize"@ != "context-menu"@) by {
                assert("ns-resize"@.len() == 9);
                assert("context-menu"@.len() == 12);
            }
            assert("ns-resize"@ != "help"@) by {
                assert("ns-resize"@.len() == 9);
                assert("help"@.len() == 4);
            }
            assert("ns-resize"@ != "pointer"@) by {
                assert("ns-resize"@.len() == 9);
                assert("pointer"@.len() == 7);
            }
            assert("ns-resize"@ != "progress"@) by {
                assert("ns-resize"@.len() == 9);
                assert("progress"@.len() == 8);
            }
            assert("ns-resize"@ != "wait"@) by {
                assert("ns-resize"@.len() == 9);
                assert("wait"@.len() == 4);
            }
            assert("ns-resize"@ != "cell"@) by {
                assert("ns-resize"@.len() == 9);
                assert("cell"@.len() == 4);
            }
            assert("ns-resize"@ != "crosshair"@) by {
                assert("ns-resize"@[0] == 'n');
                assert("crosshair"@[0] == 'c');
            }
            assert("ns-resize"@ != "text"@) by {
                assert("ns-resize"@.len() == 9);
                assert("text"@.len() == 4);
            }
            assert("ns-resize"@ != "vertical-text"@) by {
                assert("ns-resize"@.len() == 9);
                assert("vertical-text"@.len() == 13);
            }
            assert("ns-resize"@ != "alias"@) by {
                assert("ns-resize"@.len() == 9);
                assert("alias"@.len() == 5);
            }
            assert("ns-resize"@ != "copy"@) by {
                assert("ns-resize"@.len() == 9);
                assert("copy"@.len() == 4);
            }
            assert("ns-resize"@ != "move"@) by {
                assert("ns-resize"@.len() == 9);
                assert("move"@.len() == 4);
            }
            assert("ns-resize"@ != "no-drop"@) by {
                assert("ns-resize"@.len() == 9);
                assert("no-drop"@.len() == 7);
            }
            assert("ns-resize"@ != "not-allowed"@) by {
                assert("ns-resize"@.len() == 9);
                assert("not-allowed"@.len() == 11);
            }
            assert("ns-resize"@ != "grab"@) by {
                assert("ns-resize"@.len() == 9);
                assert("grab"@.len() == 4);
            }
            assert("ns-resize"@ != "grabbing"@) by {
                assert("ns-resize"@.len() == 9);
                assert("grabbing"@.len() == 8);
            }
            assert("ns-resize"@ != "e-resize"@) by {
                assert("ns-resize"@.len() == 9);
                assert("e-resize"@.len() == 8);
            }
            assert("ns-resize"@ != "n-resize"@) by {
                assert("ns-resize"@.len() == 9);
                assert("n-resize"@.len() == 8);
            }
            assert("ns-resize"@ != "ne-resize"@) by {
                assert("ns-resize"@[1] == 's');
                assert("ne-resize"@[1] == 'e');
            }
            assert("ns-resize"@ != "nw-resize"@) by {
                assert("ns-resize"@[1] == 's');
                assert("nw-resize"@[1] == 'w');
            }
            assert("ns-resize"@ != "s-resize"@) by {
                assert("ns-resize"@.len() == 9);
                assert("s-resize"@.len() == 8);
            }
            assert("ns-resize"@ != "se-resize"@) by {
                assert("ns-resize"@[0] == 'n');
                assert("se-resize"@[0] == 's');
            }
            assert("ns-resize"@ != "sw-resize"@) by {
                assert("ns-resize"@[0] == 'n');
                assert("sw-resize"@[0] == 's');
            }
            assert("ns-resize"@ != "w-resize"@) by {
                assert("ns-resize"@.len() == 9);
                assert("w-resize"@.len() == 8);
            }
            assert("ns-resize"@ != "ew-resize"@) by {
                assert("ns-resize"@[0] == 'n');
                assert("ew-resize"@[0] == 'e');
            }
            lemma_hw_round(s, p, "ns-resize"@);
        },
        Cursor::NESWResize => {
            assert(word_shape("nesw-resize"@));
            assert("nesw-resize"@ != "auto"@) by {
                assert("nesw-resize"@.len() == 11);
                assert("auto"@.len() == 4);
            }
            assert("nesw-resize"@ != "default"@) by {
                assert("nesw-resize"@.len() == 11);
                assert("default"@.len() == 7);
            }
            assert("nesw-resize"@ != "none"@) by {
                assert("nesw-resize"@.len() == 11);
                assert("none"@.len() == 4);
            }
            assert("nesw-resize"@ != "context-menu"@) by {
                assert("nesw-resize"@.len() == 11);
                assert("context-menu"@.len() == 12);
            }
            assert("nesw-resize"@ != "help"@) by {
                assert("nesw-resize"@.len() == 11);
                assert("help"@.len() == 4);
            }
            assert("nesw-resize"@ != "pointer"@) by {
                assert("nesw-resize"@.len() == 11);
                assert("pointer"@.len() == 7);
            }
            assert("nesw-resize"@ != "progress"@) by {
                assert("nesw-resize"@.len() == 11);
                assert("progress"@.len() == 8);
            }
            assert("nesw-resize"@ != "wait"@) by {
                assert("nesw-resize"@.len() == 11);
                assert("wait"@.len() == 4);
            }
            assert("nesw-resize"@ != "cell"@) by {
                assert("nesw-resize"@.len() == 11);
                assert("cell"@.len() == 4);
            }
            assert("nesw-resize"@ != "crosshair"@) by {
                assert("nesw-resize"@.len() == 11);
                assert("crosshair"@.len() == 9);
            }
            assert("nesw-resize"@ != "text"@) by {
                assert("nesw-resize"@.len() == 11);
                assert("text"@.len() == 4);
            }
            assert("nesw-resize"@ != "vertical-text"@) by {
                assert("nesw-resize"@.len() == 11);
                assert("vertical-text"@.len() == 13);
            }
            assert("nesw-resize"@ != "alias"@) by {
                assert("nesw-resize"@.len() == 11);
                assert("alias"@.len() == 5);
            }
            assert("nesw-resize"@ != "copy"@) by {
                assert("nesw-resize"@.len() == 11);
                assert("copy"@.len() == 4);
            }
            assert("nesw-resize"@ != "move"@) by {
                assert("nesw-resize"@.len() == 11);
                assert("move"@.len() == 4);
            }
            assert("nesw-resize"@ != "no-drop"@) by {
                assert("nesw-resize"@.len() == 11);
                assert("no-drop"@.len() == 7);
            }
            assert("nesw-resize"@ != "not-allowed"@) by {
                assert("nesw-resize"@[1] == 'e');
                assert("not-allowed"@[1] == 'o');
            }
            assert("nesw-resize"@ != "grab"@) by {
                assert("nesw-resize"@.len() == 11);
                assert("grab"@.len() == 4);
            }
            assert("nesw-resize"@ != "grabbing"@) by {
                assert("nesw-resize"@.len() == 11);
                assert("grabbing"@.len() == 8);
            }
            assert("nesw-resize"@ != "e-resize"@) by {
                assert("nesw-resize"@.len() == 11);
                assert("e-resize"@.len() == 8);
            }
            assert("nesw-resize"@ != "n-resize"@) by {
                assert("nesw-resize"@.len() == 11);
                assert("n-resize"@.len() == 8);
            }
            assert("nesw-resize"@ != "ne-resize"@) by {
                assert("nesw-resize"@.len() == 11);
                assert("ne-resize"@.len() == 9);
            }
            assert("nesw-resize"@ != "nw-resize"@) by {
                assert("nesw-resize"@.len() == 11);
                assert("nw-resize"@.len() == 9);
            }
            assert("nesw-resize"@ != "s-resize"@) by {
                assert("nesw-resize"@.len() == 11);
                assert("s-resize"@.len() == 8);
            }
            assert("nesw-resize"@ != "se-resize"@) by {
                assert("nesw-resize"@.len() == 11);
                assert("se-resize"@.len() == 9);
            }
            assert("nesw-resize"@ != "sw-resize"@) by {
                assert("nesw-resize"@.len() == 11);
                assert("sw-resize"@.len() == 9);
            }
            assert("nesw-resize"@ != "w-resize"@) by {
                assert("nesw-resize"@.len() == 11);
                assert("w-resize"@.len() == 8);
            }
            assert("nesw-resize"@ != "ew-resize"@) by {
                assert("nesw-resize"@.len() == 11);
                assert("ew-resize"@.len() == 9);
            }
            assert("nesw-resize"@ != "ns-resize"@) by {
                assert("nesw-resize"@.len() == 11);
                assert("ns-resize"@.len() == 9);
            }
            lemma_hw_round(s, p, "nesw-resize"@);
        },
        Cursor::NWSEResize => {
            assert(word_shape("nwse-resize"@));
            assert("nwse-resize"@ != "auto"@) by {
                assert("nwse-resize"@.len() == 11);
                assert("auto"@.len() == 4);
            }
            assert("nwse-resize"@ != "default"@) by {
                assert("nwse-resize"@.len() == 11);
                assert("default"@.len() == 7);
            }
            assert("nwse-resize"@ != "none"@) by {
                assert("nwse-resize"@.len() == 11);
                assert("none"@.len() == 4);
            }
            assert("nwse-resize"@ != "context-menu"@) by {
                assert("nwse-resize"@.len() == 11);
                assert("context-menu"@.len() == 12);
            }
            assert("nwse-resize"@ != "help"@) by {
                assert("nwse-resize"@.len() == 11);
                assert("help"@.len() == 4);
            }
            assert("nwse-resize"@ != "pointer"@) by {
                assert("nwse-resize"@.len() == 11);
                assert("pointer"@.len() == 7);
            }
            assert("nwse-resize"@ != "progress"@) by {
                assert("nwse-resize"@.len() == 11);
                assert("progress"@.len() == 8);
            }
            assert("nwse-resize"@ != "wait"@) by {
                assert("nwse-resize"@.len() == 11);
                assert("wait"@.len() == 4);
            }
            assert("nwse-resize"@ != "cell"@) by {
                assert("nwse-resize"@.len() == 11);
                assert("cell"@.len() == 4);
            }
            assert("nwse-resize"@ != "crosshair"@) by {
                assert("nwse-resize"@.len() == 11);
                assert("crosshair"@.len() == 9);
            }
            assert("nwse-resize"@ != "text"@) by {
                assert("nwse-resize"@.len() == 11);
                assert("text"@.len() == 4);
            }
            assert("nwse-resize"@ != "vertical-text"@) by {
                assert("nwse-resize"@.len() == 11);
                assert("vertical-text"@.len() == 13);
            }
            assert("nwse-resize"@ != "alias"@) by {
                assert("nwse-resize"@.len() == 11);
                assert("alias"@.len() == 5);
            }
            assert("nwse-resize"@ != "copy"@) by {
                assert("nwse-resize"@.len() == 11);
                assert("copy"@.len() == 4);
            }
            assert("nwse-resize"@ != "move"@) by {
                assert("nwse-resize"@.len() == 11);
                assert("move"@.len() == 4);
            }
            assert("nwse-resize"@ != "no-drop"@) by {
                assert("nwse-resize"@.len() == 11);
                assert("no-drop"@.len() == 7);
            }
            assert("nwse-resize"@ != "not-allowed"@) by {
                assert("nwse-resize"@[1] == 'w');
                assert("not-allowed"@[1] == 'o');
            }
            assert("nwse-resize"@ != "grab"@) by {
                assert("nwse-resize"@.len() == 11);
                assert("grab"@.len() == 4);
            }
            assert("nwse-resize"@ != "grabbing"@) by {
                assert("nwse-resize"@.len() == 11);
                assert("grabbing"@.len() == 8);
            }
            assert("nwse-resize"@ != "e-resize"@) by {
                assert("nwse-resize"@.len() == 11);
                assert("e-resize"@.len() == 8);
            }
            assert("nwse-resize"@ != "n-resize"@) by {
                assert("nwse-resize"@.len() == 11);
                assert("n-resize"@.len() == 8);
            }
            assert("nwse-resize"@ != "ne-resize"@) by {
                assert("nwse-resize"@.len() == 11);
                assert("ne-resize"@.len() == 9);
            }
            assert("nwse-resize"@ != "nw-resize"@) by {
                assert("nwse-resize"@.len() == 11);
                assert("nw-resize"@.len() == 9);
            }
            assert("nwse-resize"@ != "s-resize"@) by {
                assert("nwse-resize"@.len() == 11);
                assert("s-resize"@.len() == 8);
            }
            assert("nwse-resize"@ != "se-resize"@) by {
                assert("nwse-resize"@.len() == 11);
                assert("se-resize"@.len() == 9);
            }
            assert("nwse-resize"@ != "sw-resize"@) by {
                assert("nwse-resize"@.len() == 11);
                assert("sw-resize"@.len() == 9);
            }
            assert("nwse-resize"@ != "w-resize"@) by {
                assert("nwse-resize"@.len() == 11);
                assert("w-resize"@.len() == 8);
            }
            assert("nwse-resize"@ != "ew-resize"@) by {
                assert("nwse-resize"@.len() == 11);
                assert("ew-resize"@.len() == 9);
            }
            assert("nwse-resize"@ != "ns-resize"@) by {
                assert("nwse-resize"@.len() == 11);
                assert("ns-resize"@.len() == 9);
            }
            assert("nwse-resize"@ != "nesw-resize"@) by {
                assert("nwse-resize"@[1] == 'w');
                assert("nesw-resize"@[1] == 'e');
            }
            lemma_hw_round(s, p, "nwse-resize"@);
        },
        Cursor::ColResize => {
            assert(word_shape("col-resize"@));
            assert("col-resize"@ != "auto"@) by {
                assert("col-resize"@.len() == 10);
                assert("auto"@.len() == 4);
            }
            assert("col-resize"@ != "default"@) by {
                assert("col-resize"@.len() == 10);
                assert("default"@.len() == 7);
            }
            assert("col-resize"@ != "none"@) by {
                assert("col-resize"@.len() == 10);
                assert("none"@.len() == 4);
            }
            assert("col-resize"@ != "context-menu"@) by {
                assert("col-resize"@.len() == 10);
                assert("context-menu"@.len() == 12);
            }
            assert("col-resize"@ != "help"@) by {
                assert("col-resize"@.len() == 10);
                assert("help"@.len() == 4);
            }
            assert("col-resize"@ != "pointer"@) by {
                assert("col-resize"@.len() == 10);
                assert("pointer"@.len() == 7);
            }
            assert("col-resize"@ != "progress"@) by {
                assert("col-resize"@.len() == 10);
                assert("progress"@.len() == 8);
            }
            assert("col-resize"@ != "wait"@) by {
                assert("col-resize"@.len() == 10);
                assert("wait"@.len() == 4);
            }
            assert("col-resize"@ != "cell"@) by {
                assert("col-resize"@.len() == 10);
                assert("cell"@.len() == 4);
            }
            assert("col-resize"@ != "crosshair"@) by {
                assert("col-resize"@.len() == 10);
                assert("crosshair"@.len() == 9);
            }
            assert("col-resize"@ != "text"@) by {
                assert("col-resize"@.len() == 10);
                assert("text"@.len() == 4);
            }
            assert("col-resize"@ != "vertical-text"@) by {
                assert("col-resize"@.len() == 10);
                assert("vertical-text"@.len() == 13);
            }
            assert("col-resize"@ != "alias"@) by {
                assert("col-resize"@.len() == 10);
                assert("alias"@.len() == 5);
            }
            assert("col-resize"@ != "copy"@) by {
                assert("col-resize"@.len() == 10);
                assert("copy"@.len() == 4);
            }
            assert("col-resize"@ != "move"@) by {
                assert("col-resize"@.len() == 10);
                assert("move"@.len() == 4);
            }
            assert("col-resize"@ != "no-drop"@) by {
                assert("col-resize"@.len() == 10);
                assert("no-drop"@.len() == 7);
            }
            assert("col-resize"@ != "not-allowed"@) by {
                assert("col-resize"@.len() == 10);
                assert("not-allowed"@.len() == 11);
            }
            assert("col-resize"@ != "grab"@) by {
                assert("col-resize"@.len() == 10);
                assert("grab"@.len() == 4);
            }
            assert("col-resize"@ != "grabbing"@) by {
                assert("col-resize"@.len() == 10);
                assert("grabbing"@.len() == 8);
            }
            assert("col-resize"@ != "e-resize"@) by {
                assert("col-resize"@.len() == 10);
                assert("e-resize"@.len() == 8);
            }
            assert("col-resize"@ != "n-resize"@) by {
                assert("col-resize"@.len() == 10);
                assert("n-resize"@.len() == 8);
            }
            assert("col-resize"@ != "ne-resize"@) by {
                assert("col-resize"@.len() == 10);
                assert("ne-resize"@.len() == 9);
            }
            assert("col-resize"@ != "nw-resize"@) by {
                assert("col-resize"@.len() == 10);
                assert("nw-resize"@.len() == 9);
            }
            assert("col-resize"@ != "s-resize"@) by {
                assert("col-resize"@.len() == 10);
                assert("s-resize"@.len() == 8);
            }
            assert("col-resize"@ != "se-resize"@) by {
                assert("col-resize"@.len() == 10);
                assert("se-resize"@.len() == 9);
            }
            assert("col-resize"@ != "sw-resize"@) by {
                assert("col-resize"@.len() == 10);
                assert("sw-resize"@.len() == 9);
            }
            assert("col-resize"@ != "w-resize"@) by {
                assert("col-resize"@.len() == 10);
                assert("w-resize"@.len() == 8);
            }
            assert("col-resize"@ != "ew-resize"@) by {
                assert("col-resize"@.len() == 10);
                assert("ew-resize"@.len() == 9);
            }
            assert("col-resize"@ != "ns-resize"@) by {
                assert("col-resize"@.len() == 10);
                assert("ns-resize"@.len() == 9);
            }
            assert("col-resize"@ != "nesw-resize"@) by {
                assert("col-resize"@.len() == 10);
                assert("nesw-resize"@.len() == 11);
            }
            assert("col-resize"@ != "nwse-resize"@) by {
                assert("col-resize"@.len() == 10);
                assert("nwse-resize"@.len() == 11);
            }
            lemma_hw_round(s, p, "col-resize"@);
        },
        Cursor::RowResize => {
            assert(word_shape("row-resize"@));
            assert("row-resize"@ != "auto"@) by {
                assert("row-resize"@.len() == 10);
                assert("auto"@.len() == 4);
            }
            assert("row-resize"@ != "default"@) by {
                assert("row-resize"@.len() == 10);
                assert("default"@.len() == 7);
            }
            assert("row-resize"@ != "none"@) by {
                assert("row-resize"@.len() == 10);
                assert("none"@.len() == 4);
            }
            assert("row-resize"@ != "context-menu"@) by {
                assert("row-resize"@.len() == 10);
                assert("context-menu"@.len() == 12);
            }
            assert("row-resize"@ != "help"@) by {
                assert("row-resize"@.len() == 10);
                assert("help"@.len() == 4);
            }
            assert("row-resize"@ != "pointer"@) by {
                assert("row-resize"@.len() == 10);
                assert("pointer"@.len() == 7);
            }
            assert("row-resize"@ != "progress"@) by {
                assert("row-resize"@.len() == 10);
                assert("progress"@.len() == 8);
            }
            assert("row-resize"@ != "wait"@) by {
                assert("row-resize"@.len() == 10);
                assert("wait"@.len() == 4);
            }
            assert("row-resize"@ != "cell"@) by {
                assert("row-resize"@.len() == 10);
                assert("cell"@.len() == 4);
            }
            assert("row-resize"@ != "crosshair"@) by {
                assert("row-resize"@.len() == 10);
                assert("crosshair"@.len() == 9);
            }
            assert("row-resize"@ != "text"@) by {
                assert("row-resize"@.len() == 10);
                assert("text"@.len() == 4);
            }
            assert("row-resize"@ != "vertical-text"@) by {
                assert("row-resize"@.len() == 10);
                assert("vertical-text"@.len() == 13);
            }
            assert("row-resize"@ != "alias"@) by {
                assert("row-resize"@.len() == 10);
                assert("alias"@.len() == 5);
            }
            assert("row-resize"@ != "copy"@) by {
                assert("row-resize"@.len() == 10);
                assert("copy"@.len() == 4);
            }
            assert("row-resize"@ != "move"@) by {
                assert("row-resize"@.len() == 10);
                assert("move"@.len() == 4);
            }
            assert("row-resize"@ != "no-drop"@) by {
                assert("row-resize"@.len() == 10);
                assert("no-drop"@.len() == 7);
            }
            assert("row-resize"@ != "not-allowed"@) by {
                assert("row-resize"@.len() == 10);
                assert("not-allowed"@.len() == 11);
            }
            assert("row-resize"@ != "grab"@) by {
                assert("row-resize"@.len() == 10);
                assert("grab"@.len() == 4);
            }
            assert("row-resize"@ != "grabbing"@) by {
                assert("row-resize"@.len() == 10);
                assert("grabbing"@.len() == 8);
            }
            assert("row-resize"@ != "e-resize"@) by {
                assert("row-resize"@.len() == 10);
                assert("e-resize"@.len() == 8);
            }
            assert("row-resize"@ != "n-resize"@) by {
                assert("row-resize"@.len() == 10);
                assert("n-resize"@.len() == 8);
            }
            assert("row-resize"@ != "ne-resize"@) by {
                assert("row-resize"@.len() == 10);
                assert("ne-resize"@.len() == 9);
            }
            assert("row-resize"@ != "nw-resize"@) by {
                assert("row-resize"@.len() == 10);
                assert("nw-resize"@.len() == 9);
            }
            assert("row-resize"@ != "s-resize"@) by {
                assert("row-resize"@.len() == 10);
                assert("s-resize"@.len() == 8);
            }
            assert("row-resize"@ != "se-resize"@) by {
                assert("row-resize"@.len() == 10);
                assert("se-resize"@.len() == 9);
            }
            assert("row-resize"@ != "sw-resize"@) by {
                assert("row-resize"@.len() == 10);
                assert("sw-resize"@.len() == 9);
            }
            assert("row-resize"@ != "w-resize"@) by {
                assert("row-resize"@.len() == 10);
                assert("w-resize"@.len() == 8);
            }
            assert("row-resize"@ != "ew-resize"@) by {
                assert("row-resize"@.len() == 10);
                assert("ew-resize"@.len() == 9);
            }
            assert("row-resize"@ != "ns-resize"@) by {
                assert("row-resize"@.len() == 10);
                assert("ns-resize"@.len() == 9);
            }
            assert("row-resize"@ != "nesw-resize"@) by {
                assert("row-resize"@.len() == 10);
                assert("nesw-resize"@.len() == 11);
            }
            assert("row-resize"@ != "nwse-resize"@) by {
                assert("row-resize"@.len() == 10);
                assert("nwse-resize"@.len() == 11);
            }
            assert("row-resize"@ != "col-resize"@) by {
                assert("row-resize"@[0] == 'r');
                assert("col-resize"@[0] == 'c');
            }
            lemma_hw_round(s, p, "row-resize"@);
        },
        Cursor::AllScroll => {
            assert(word_shape("all-scroll"@));
            assert("all-scroll"@ != "auto"@) by {
                assert("all-scroll"@.len() == 10);
                assert("auto"@.len() == 4);
            }
            assert("all-scroll"@ != "default"@) by {
                assert("all-scroll"@.len() == 10);
                assert("default"@.len() == 7);
            }
            assert("all-scroll"@ != "none"@) by {
                assert("all-scroll"@.len() == 10);
                assert("none"@.len() == 4);
            }
            assert("all-scroll"@ != "context-menu"@) by {
                assert("all-scroll"@.len() == 10);
                assert("context-menu"@.len() == 12);
            }
            assert("all-scroll"@ != "help"@) by {
                assert("all-scroll"@.len() == 10);
                assert("help"@.len() == 4);
            }
            assert("all-scroll"@ != "pointer"@) by {
                assert("all-scroll"@.len() == 10);
                assert("pointer"@.len() == 7);
            }
            assert("all-scroll"@ != "progress"@) by {
                assert("all-scroll"@.len() == 10);
                assert("progress"@.len() == 8);
            }
            assert("all-scroll"@ != "wait"@) by {
                assert("all-scroll"@.len() == 10);
                assert("wait"@.len() == 4);
            }
            assert("all-scroll"@ != "cell"@) by {
                assert("all-scroll"@.len() == 10);
                assert("cell"@.len() == 4);
            }
            assert("all-scroll"@ != "crosshair"@) by {
                assert("all-scroll"@.len() == 10);
                assert("crosshair"@.len() == 9);
            }
            assert("all-scroll"@ != "text"@) by {
                assert("all-scroll"@.len() == 10);
                assert("text"@.len() == 4);
            }
            assert("all-scroll"@ != "vertical-text"@) by {
                assert("all-scroll"@.len() == 10);
                assert("vertical-text"@.len() == 13);
            }
            assert("all-scroll"@ != "alias"@) by {
                assert("all-scroll"@.len() == 10);
                assert("alias"@.len() == 5);
            }
            assert("all-scroll"@ != "copy"@) by {
                assert("all-scroll"@.len() == 10);
                assert("copy"@.len() == 4);
            }
            assert("all-scroll"@ != "move"@) by {
                assert("all-scroll"@.len() == 10);
                assert("move"@.len() == 4);
            }
            assert("all-scroll"@ != "no-drop"@) by {
                assert("all-scroll"@.len() == 10);
                assert("no-drop"@.len() == 7);
            }
            assert("all-scroll"@ != "not-allowed"@) by {
                assert("all-scroll"@.len() == 10);
                assert("not-allowed"@.len() == 11);
            }
            assert("all-scroll"@ != "grab"@) by {
                assert("all-scroll"@.len() == 10);
                assert("grab"@.len() == 4);
            }
            assert("all-scroll"@ != "grabbing"@) by {
                assert("all-scroll"@.len() == 10);
                assert("grabbing"@.len() == 8);
            }
            assert("all-scroll"@ != "e-resize"@) by {
                assert("all-scroll"@.len() == 10);
                assert("e-resize"@.len() == 8);
            }
            assert("all-scroll"@ != "n-resize"@) by {
                assert("all-scroll"@.len() == 10);
                assert("n-resize"@.len() == 8);
            }
            assert("all-scroll"@ != "ne-resize"@) by {
                assert("all-scroll"@.len() == 10);
                assert("ne-resize"@.len() == 9);
            }
            assert("all-scroll"@ != "nw-resize"@) by {
                assert("all-scroll"@.len() == 10);
                assert("nw-resize"@.len() == 9);
            }
            assert("all-scroll"@ != "s-resize"@) by {
                assert("all-scroll"@.len() == 10);
                assert("s-resize"@.len() == 8);
            }
            assert("all-scroll"@ != "se-resize"@) by {
                assert("all-scroll"@.len() == 10);
                assert("se-resize"@.len() == 9);
            }
            assert("all-scroll"@ != "sw-resize"@) by {
                assert("all-scroll"@.len() == 10);
                assert("sw-resize"@.len() == 9);
            }
            assert("all-scroll"@ != "w-resize"@) by {
                assert("all-scroll"@.len() == 10);
                assert("w-resize"@.len() == 8);
            }
            assert("all-scroll"@ != "ew-resize"@) by {
                assert("all-scroll"@.len() == 10);
                assert("ew-resize"@.len() == 9);
            }
            assert("all-scroll"@ != "ns-resize"@) by {
                assert("all-scroll"@.len() == 10);
                assert("ns-resize"@.len() == 9);
            }
            assert("all-scroll"@ != "nesw-resize"@) by {
                assert("all-scroll"@.len() == 10);
                assert("nesw-resize"@.len() == 11);
            }
            assert("all-scroll"@ != "nwse-resize"@) by {
                assert("all-scroll"@.len() == 10);
                assert("nwse-resize"@.len() == 11);
            }
            assert("all-scroll"@ != "col-resize"@) by {
                assert("all-scroll"@[0] == 'a');
                assert("col-resize"@[0] == 'c');
            }
            assert("all-scroll"@ != "row-resize"@) by {
                assert("all-scroll"@[0] == 'a');
                assert("row-resize"@[0] == 'r');
            }
            lemma_hw_round(s, p, "all-scroll"@);
        },
        Cursor::ZoomIn => {
            assert(word_shape("zoom-in"@));
            assert("zoom-in"@ != "auto"@) by {
                assert("zoom-in"@.len() == 7);
                assert("auto"@.len() == 4);
            }
            assert("zoom-in"@ != "default"@) by {
                assert("zoom-in"@[0] == 'z');
                assert("default"@[0] == 'd');
            }
            assert("zoom-in"@ != "none"@) by {
                assert("zoom-in"@.len() == 7);
                assert("none"@.len() == 4);
            }
            assert("zoom-in"@ != "context-menu"@) by {
                assert("zoom-in"@.len() == 7);
                assert("context-menu"@.len() == 12);
            }
            assert("zoom-in"@ != "help"@) by {
                assert("zoom-in"@.len() == 7);
                assert("help"@.len() == 4);
            }
            assert("zoom-in"@ != "pointer"@) by {
                assert("zoom-in"@[0] == 'z');
                assert("pointer"@[0] == 'p');
            }
            assert("zoom-in"@ != "progress"@) by {
                assert("zoom-in"@.len() == 7);
                assert("progress"@.len() == 8);
            }
            assert("zoom-in"@ != "wait"@) by {
                assert("zoom-in"@.len() == 7);
                assert("wait"@.len() == 4);
            }
            assert("zoom-in"@ != "cell"@) by {
                assert("zoom-in"@.len() == 7);
                assert("cell"@.len() == 4);
            }
            assert("zoom-in"@ != "crosshair"@) by {
                assert("zoom-in"@.len() == 7);
                assert("crosshair"@.len() == 9);
            }
            assert("zoom-in"@ != "text"@) by {
                assert("zoom-in"@.len() == 7);
                assert("text"@.len() == 4);
            }
            assert("zoom-in"@ != "vertical-text"@) by {
                assert("zoom-in"@.len() == 7);
                assert("vertical-text"@.len() == 13);
            }
            assert("zoom-in"@ != "alias"@) by {
                assert("zoom-in"@.len() == 7);
                assert("alias"@.len() == 5);
            }
            assert("zoom-in"@ != "copy"@) by {
                assert("zoom-in"@.len() == 7);
                assert("copy"@.len() == 4);
            }
            assert("zoom-in"@ != "move"@) by {
                assert("zoom-in"@.len() == 7);
                assert("move"@.len() == 4);
            }
            assert("zoom-in"@ != "no-drop"@) by {
                assert("zoom-in"@[0] == 'z');
                assert("no-drop"@[0] == 'n');
            }
            assert("zoom-in"@ != "not-allowed"@) by {
                assert("zoom-in"@.len() == 7);
                assert("not-allowed"@.len() == 11);
            }
            assert("zoom-in"@ != "grab"@) by {
                assert("zoom-in"@.len() == 7);
                assert("grab"@.len() == 4);
            }
            assert("zoom-in"@ != "grabbing"@) by {
                assert("zoom-in"@.len() == 7);
                assert("grabbing"@.len() == 8);
            }
            assert("zoom-in"@ != "e-resize"@) by {
                assert("zoom-in"@.len() == 7);
                assert("e-resize"@.len() == 8);
            }
            assert("zoom-in"@ != "n-resize"@) by {
                assert("zoom-in"@.len() == 7);
                assert("n-resize"@.len() == 8);
            }
            assert("zoom-in"@ != "ne-resize"@) by {
                assert("zoom-in"@.len() == 7);
                assert("ne-resize"@.len() == 9);
            }
            assert("zoom-in"@ != "nw-resize"@) by {
                assert("zoom-in"@.len() == 7);
                assert("nw-resize"@.len() == 9);
            }
            assert("zoom-in"@ != "s-resize"@) by {
                assert("zoom-in"@.len() == 7);
                assert("s-resize"@.len() == 8);
            }
            assert("zoom-in"@ != "se-resize"@) by {
                assert("zoom-in"@.len() == 7);
                assert("se-resize"@.len() == 9);
            }
            assert("zoom-in"@ != "sw-resize"@) by {
                assert("zoom-in"@.len() == 7);
                assert("sw-resize"@.len() == 9);
            }
            assert("zoom-in"@ != "w-resize"@) by {
                assert("zoom-in"@.len() == 7);
                assert("w-resize"@.len() == 8);
            }
            assert("zoom-in"@ != "ew-resize"@) by {
                assert("zoom-in"@.len() == 7);
                assert("ew-resize"@.len() == 9);
            }
            assert("zoom-in"@ != "ns-resize"@) by {
                assert("zoom-in"@.len() == 7);
                assert("ns-resize"@.len() == 9);
            }
            assert("zoom-in"@ != "nesw-resize"@) by {
                assert("zoom-in"@.len() == 7);
                assert("nesw-resize"@.len() == 11);
            }
            assert("zoom-in"@ != "nwse-resize"@) by {
                assert("zoom-in"@.len() == 7);
                assert("nwse-resize"@.len() == 11);
            }
            assert("zoom-in"@ != "col-resize"@) by {
                assert("zoom-in"@.len() == 7);
                assert("col-resize"@.len() == 10);
            }
            assert("zoom-in"@ != "row-resize"@) by {
                assert("zoom-in"@.len() == 7);
                assert("row-resize"@.len() == 10);
            }
            assert("zoom-in"@ != "all-scroll"@) by {
                assert("zoom-in"@.len() == 7);
                assert("all-scroll"@.len() == 10);
            }
            lemma_hw_round(s, p, "zoom-in"@);
        },
        Cursor::ZoomOut => {
            assert(word_shape("zoom-out"@));
            assert("zoom-out"@ != "auto"@) by {
                assert("zoom-out"@.len() == 8);
                assert("auto"@.len() == 4);
            }
            assert("zoom-out"@ != "default"@) by {
                assert("zoom-out"@.len() == 8);
                assert("default"@.len() == 7);
            }
            assert("zoom-out"@ != "none"@) by {
                assert("zoom-out"@.len() == 8);
                assert("none"@.len() == 4);
            }
            assert("zoom-out"@ != "context-menu"@) by {
                assert("zoom-out"@.len() == 8);
                assert("context-menu"@.len() == 12);
            }
            assert("zoom-out"@ != "help"@) by {
                assert("zoom-out"@.len() == 8);
                assert("help"@.len() == 4);
            }
            assert("zoom-out"@ != "pointer"@) by {
                assert("zoom-out"@.len() == 8);
                assert("pointer"@.len() == 7);
            }
            assert("zoom-out"@ != "progress"@) by {
                assert("zoom-out"@[0] == 'z');
                assert("progress"@[0] == 'p');
            }
            assert("zoom-out"@ != "wait"@) by {
                assert("zoom-out"@.len() == 8);
                assert("wait"@.len() == 4);
            }
            assert("zoom-out"@ != "cell"@) by {
                assert("zoom-out"@.len() == 8);
                assert("cell"@.len() == 4);
            }
            assert("zoom-out"@ != "crosshair"@) by {
                assert("zoom-out"@.len() == 8);
                assert("crosshair"@.len() == 9);
            }
            assert("zoom-out"@ != "text"@) by {
                assert("zoom-out"@.len() == 8);
                assert("text"@.len() == 4);
            }
            assert("zoom-out"@ != "vertical-text"@) by {
                assert("zoom-out"@.len() == 8);
                assert("vertical-text"@.len() == 13);
            }
            assert("zoom-out"@ != "alias"@) by {
                assert("zoom-out"@.len() == 8);
                assert("alias"@.len() == 5);
            }
            assert("zoom-out"@ != "copy"@) by {
                assert("zoom-out"@.len() == 8);
                assert("copy"@.len() == 4);
            }
            assert("zoom-out"@ != "move"@) by {
                assert("zoom-out"@.len() == 8);
                assert("move"@.len() == 4);
            }
            assert("zoom-out"@ != "no-drop"@) by {
                assert("zoom-out"@.len() == 8);
                assert("no-drop"@.len() == 7);
            }
            assert("zoom-out"@ != "not-allowed"@) by {
                assert("zoom-out"@.len() == 8);
                assert("not-allowed"@.len() == 11);
            }
            assert("zoom-out"@ != "grab"@) by {
                assert("zoom-out"@.len() == 8);
                assert("grab"@.len() == 4);
            }
            assert("zoom-out"@ != "grabbing"@) by {
                assert("zoom-out"@[0] == 'z');
                assert("grabbing"@[0] == 'g');
            }
            assert("zoom-out"@ != "e-resize"@) by {
                assert("zoom-out"@[0] == 'z');
                assert("e-resize"@[0] == 'e');
            }
            assert("zoom-out"@ != "n-resize"@) by {
                assert("zoom-out"@[0] == 'z');
                assert("n-resize"@[0] == 'n');
            }
            assert("zoom-out"@ != "ne-resize"@) by {
                assert("zoom-out"@.len() == 8);
                assert("ne-resize"@.len() == 9);
            }
            assert("zoom-out"@ != "nw-resize"@) by {
                assert("zoom-out"@.len() == 8);
                assert("nw-resize"@.len() == 9);
            }
            assert("zoom-out"@ != "s-resize"@) by {
                assert("zoom-out"@[0] == 'z');
                assert("s-resize"@[0] == 's');
            }
            assert("zoom-out"@ != "se-resize"@) by {
                assert("zoom-out"@.len() == 8);
                assert("se-resize"@.len() == 9);
            }
            assert("zoom-out"@ != "sw-resize"@) by {
                assert("zoom-out"@.len() == 8);
                assert("sw-resize"@.len() == 9);
            }
            assert("zoom-out"@ != "w-resize"@) by {
                assert("zoom-out"@[0] == 'z');
                assert("w-resize"@[0] == 'w');
            }
            assert("zoom-out"@ != "ew-resize"@) by {
                assert("zoom-out"@.len() == 8);
                assert("ew-resize"@.len() == 9);
            }
            assert("zoom-out"@ != "ns-resize"@) by {
                assert("zoom-out"@.len() == 8);
                assert("ns-resize"@.len() == 9);
            }
            assert("zoom-out"@ != "nesw-resize"@) by {
                assert("zoom-out"@.len() == 8);
                assert("nesw-resize"@.len() == 11);
            }
            assert("zoom-out"@ != "nwse-resize"@) by {
                assert("zoom-out"@.len() == 8);
                assert("nwse-resize"@.len() == 11);
            }
            assert("zoom-out"@ != "col-resize"@) by {
                assert("zoom-out"@.len() == 8);
                assert("col-resize"@.len() == 10);
            }
            assert("zoom-out"@ != "row-resize"@) by {
                assert("zoom-out"@.len() == 8);
                assert("row-resize"@.len() == 10);
            }
            assert("zoom-out"@ != "all-scroll"@) by {
                assert("zoom-out"@.len() == 8);
                assert("all-scroll"@.len() == 10);
            }
            assert("zoom-out"@ != "zoom-in"@) by {
                assert("zoom-out"@.len() == 8);
                assert("zoom-in"@.len() == 7);
            }
            lemma_hw_round(s, p, "zoom-out"@);
        },
    }
}

/// Round trip for a standalone `Cursor` keyword: parsing its canonical text
/// gives it back, consuming everything.
pub proof fn lemma_cursor_round_trip(v: Cursor)
    ensures
        Cursor::spec_parse(v.css(), 0) == Ok::<(Cursor, int), crate::diag::SpecErr>(
            (v, v.css().len() as int),
        ),
{
    let s = v.css();
    assert(s.subrange(0, s.len() as int) =~= s);
    lemma_skip_ws(s, s.len() as int);
    lemma_cursor_round(s, 0, v);
}

/// A `Display` keyword's text, with an innocuous continuation, reads back as
/// exactly that value.
pub proof fn lemma_display_round(s: Seq<char>, p: int, v: Display)
    requires
        0 <= p,
        p + v.css().len() <= s.len(),
        s.subrange(p, p + v.css().len()) == v.css(),
        word_stop(s, p + v.css().len()),
    ensures
        Display::spec_parse(s, p) == Ok::<(Display, int), crate::diag::SpecErr>(
            (v, p + v.css().len()),
        ),
{
    reveal_strlit("block");
    reveal_strlit("flex");
    reveal_strlit("inline");
    match v {
        Display::Block => {
            assert(word_shape("block"@));

            lemma_hw_round(s, p, "block"@);
        },
        Display::Flex => {
            assert(word_shape("flex"@));
            assert("flex"@ != "block"@) by {
                assert("flex"@.len() == 4);
                assert("block"@.len() == 5);
            }
            lemma_hw_round(s, p, "flex"@);
        },
        Display::Inline => {
            assert(word_shape("inline"@));
            assert("inline"@ != "block"@) by {
                assert("inline"@.len() == 6);
                assert("block"@.len() == 5);
            }
            assert("inline"@ != "flex"@) by {
                assert("inline"@.len() == 6);
                assert("flex"@.len() == 4);
            }
            lemma_hw_round(s, p, "inline"@);
        },
    }
}

/// Round trip for a standalone `Display` keyword: parsing its canonical text
/// gives it back, consuming everything.
pub proof fn lemma_display_round_trip(v: Display)
    ensures
        Display::spec_parse(v.css(), 0) == Ok::<(Display, int), crate::diag::SpecErr>(
            (v, v.css().len() as int),
        ),
{
    let s = v.css();
    assert(s.subrange(0, s.len() as int) =~= s);
    lemma_skip_ws(s, s.len() as int);
    lemma_display_round(s, 0, v);
}

/// A `FlexDirection` keyword's text, with an innocuous continuation, reads back as
/// exactly that value.
pub proof fn lemma_flexdirection_round(s: Seq<char>, p: int, v: FlexDirection)
    requires
        0 <= p,
        p + v.css().len() <= s.len(),
        s.subrange(p, p + v.css().len()) == v.css(),
        word_stop(s, p + v.css().len()),
    ensures
        FlexDirection::spec_parse(s, p) == Ok::<(FlexDirection, int), crate::diag::SpecErr>(
            (v, p + v.css().len()),
        ),
{
    reveal_strlit("column");
    reveal_strlit("row");
    match v {
        FlexDirection::Column => {
            assert(word_shape("column"@));

            lemma_hw_round(s, p, "column"@);
        },
        FlexDirection::Row => {
            assert(word_shape("row"@));
            assert("row"@ != "column"@) by {
                assert("row"@.len() == 3);
                assert("column"@.len() == 6);
            }
            lemma_hw_round(s, p, "row"@);
        },
    }
}

/// Round trip for a standalone `FlexDirection` keyword: parsing its canonical text
/// gives it back, consuming everything.
pub proof fn lemma_flexdirection_round_trip(v: FlexDirection)
    ensures
        FlexDirection::spec_parse(v.css(), 0) == Ok::<(FlexDirection, int), crate::diag::SpecErr>(
            (v, v.css().len() as int),
        ),
{
    let s = v.css();
    assert(s.subrange(0, s.len() as int) =~= s);
    lemma_skip_ws(s, s.len() as int);
    lemma_flexdirection_round(s, 0, v);
}

/// A `FlexWrap` keyword's text, with an innocuous continuation, reads back as
/// exactly that value.
pub proof fn lemma_flexwrap_round(s: Seq<char>, p: int, v: FlexWrap)
    requires
        0 <= p,
        p + v.css().len() <= s.len(),
        s.subrange(p, p + v.css().len()) == v.css(),
        word_stop(s, p + v.css().len()),
    ensures
        FlexWrap::spec_parse(s, p) == Ok::<(FlexWrap, int), crate::diag::SpecErr>(
            (v, p + v.css().len()),
        ),
{
    reveal_strlit("wrap");
    reveal_strlit("nowrap");
    match v {
        FlexWrap::Wrap => {
            assert(word_shape("wrap"@));

            lemma_hw_round(s, p, "wrap"@);
        },
        FlexWrap::Nowrap => {
            assert(word_shape("nowrap"@));
            assert("nowrap"@ != "wrap"@) by {
                assert("nowrap"@.len() == 6);
                assert("wrap"@.len() == 4);
            }
            lemma_hw_round(s, p, "nowrap"@);
        },
    }
}

/// Round trip for a standalone `FlexWrap` keyword: parsing its canonical text
/// gives it back, consuming everything.
pub proof fn lemma_flexwrap_round_trip(v: FlexWrap)
    ensures
        FlexWrap::spec_parse(v.css(), 0) == Ok::<(FlexWrap, int), crate::diag::SpecErr>(
            (v, v.css().len() as int),
        ),
{
    let s = v.css();
    assert(s.subrange(0, s.len() as int) =~= s);
    lemma_skip_ws(s, s.len() as int);
    lemma_flexwrap_round(s, 0, v);
}

/// A `FontStyle` keyword's text, with an innocuous continuation, reads back as
/// exactly that value.
pub proof fn lemma_fontstyle_round(s: Seq<char>, p: int, v: FontStyle)
    requires
        0 <= p,
        p + v.css().len() <= s.len(),
        s.subrange(p, p + v.css().len()) == v.css(),
        word_stop(s, p + v.css().len()),
    ensures
        FontStyle::spec_parse(s, p) == Ok::<(FontStyle, int), crate::diag::SpecErr>(
            (v, p + v.css().len()),
        ),
{
    reveal_strlit("normal");
    reveal_strlit("italic");
    reveal_strlit("oblique");
    match v {
        FontStyle::Normal => {
            assert(word_shape("normal"@));

            lemma_hw_round(s, p, "normal"@);
        },
        FontStyle::Italic => {
            assert(word_shape("italic"@));
            assert("italic"@ != "normal"@) by {
                assert("italic"@[0] == 'i');
                assert("normal"@[0] == 'n');
            }
            lemma_hw_round(s, p, "italic"@);
        },
        FontStyle::Oblique => {
            assert(word_shape("oblique"@));
            assert("oblique"@ != "normal"@) by {
                assert("oblique"@.len() == 7);
                assert("normal"@.len() == 6);
            }
            assert("oblique"@ != "italic"@) by {
                assert("oblique"@.len() == 7);
                assert("italic"@.len() == 6);
            }
            lemma_hw_round(s, p, "oblique"@);
        },
    }
}

/// Round trip for a standalone `FontStyle` keyword: parsing its canonical text
/// gives it back, consuming everything.
pub proof fn lemma_fontstyle_round_trip(v: FontStyle)
    ensures
        FontStyle::spec_parse(v.css(), 0) == Ok::<(FontStyle, int), crate::diag::SpecErr>(
            (v, v.css().len() as int),
        ),
{
    let s = v.css();
    assert(s.subrange(0, s.len() as int) =~= s);
    lemma_skip_ws(s, s.len() as int);
    lemma_fontstyle_round(s, 0, v);
}

/// A `JustifyContent` keyword's text, with an innocuous continuation, reads back as
/// exactly that value.
pub proof fn lemma_justifycontent_round(s: Seq<char>, p: int, v: JustifyContent)
    requires
        0 <= p,
        p + v.css().len() <= s.len(),
        s.subrange(p, p + v.css().len()) == v.css(),
        word_stop(s, p + v.css().len()),
    ensures
        JustifyContent::spec_parse(s, p) == Ok::<(JustifyContent, int), crate::diag::SpecErr>(
            (v, p + v.css().len()),
        ),
{
    reveal_strlit("flex-start");
    reveal_strlit("flex-end");
    reveal_strlit("center");
    reveal_strlit("space-between");
    reveal_strlit("space-around");
    reveal_strlit("start");
    reveal_strlit("end");
    match v {
        JustifyContent::FlexStart => {
            assert(word_shape("flex-start"@));

            lemma_hw_round(s, p, "flex-start"@);
        },
        JustifyContent::FlexEnd => {
            assert(word_shape("flex-end"@));
            assert("flex-end"@ != "flex-start"@) by {
                assert("flex-end"@.len() == 8);
                assert("flex-start"@.len() == 10);
            }
            lemma_hw_round(s, p, "flex-end"@);
        },
        JustifyContent::Center => {
            assert(word_shape("center"@));
            assert("center"@ != "flex-start"@) by {
                assert("center"@.len() == 6);
                assert("flex-start"@.len() == 10);
            }
            assert("center"@ != "flex-end"@) by {
                assert("center"@.len() == 6);
                assert("flex-end"@.len() == 8);
            }
            lemma_hw_round(s, p, "center"@);
        },
        JustifyContent::SpaceBetween => {
            assert(word_shape("space-between"@));
            assert("space-between"@ != "flex-start"@) by {
                assert("space-between"@.len() == 13);
                assert("flex-start"@.len() == 10);
            }
            assert("space-between"@ != "flex-end"@) by {
                assert("space-between"@.len() == 13);
                assert("flex-end"@.len() == 8);
            }
            assert("space-between"@ != "center"@) by {
                assert("space-between"@.len() == 13);
                assert("center"@.len() == 6);
            }
            lemma_hw_round(s, p, "space-between"@);
        },
        JustifyContent::SpaceAround => {
            assert(word_shape("space-around"@));
            assert("space-around"@ != "flex-start"@) by {
                assert("space-around"@.len() == 12);
                assert("flex-start"@.len() == 10);
            }
            assert("space-around"@ != "flex-end"@) by {
                assert("space-around"@.len() == 12);
                assert("flex-end"@.len() == 8);
            }
            assert("space-around"@ != "center"@) by {
                assert("space-around"@.len() == 12);
                assert("center"@.len() == 6);
            }
            assert("space-around"@ != "space-between"@) by {
                assert("space-around"@.len() == 12);
                assert("space-between"@.len() == 13);
            }
            lemma_hw_round(s, p, "space-around"@);
        },
    }
}

/// Round trip for a standalone `JustifyContent` keyword: parsing its canonical text
/// gives it back, consuming everything.
pub proof fn lemma_justifycontent_round_trip(v: JustifyContent)
    ensures
        JustifyContent::spec_parse(v.css(), 0) == Ok::<(JustifyContent, int), crate::diag::SpecErr>(
            (v, v.css().len() as int),
        ),
{
    let s = v.css();
    assert(s.subrange(0, s.len() as int) =~= s);
    lemma_skip_ws(s, s.len() as int);
    lemma_justifycontent_round(s, 0, v);
}

/// A `LineStyle` keyword's text, with an innocuous continuation, reads back as
/// exactly that value.
pub proof fn lemma_linestyle_round(s: Seq<char>, p: int, v: LineStyle)
    requires
        0 <= p,
        p + v.css().len() <= s.len(),
        s.subrange(p, p + v.css().len()) == v.css(),
        word_stop(s, p + v.css().len()),
    ensures
        LineStyle::spec_parse(s, p) == Ok::<(LineStyle, int), crate::diag::SpecErr>(
            (v, p + v.css().len()),
        ),
{
    reveal_strlit("none");
    reveal_strlit("hidden");
    reveal_strlit("dotted");
    reveal_strlit("dashed");
    reveal_strlit("solid");
    reveal_strlit("double");
    reveal_strlit("groove");
    reveal_strlit("ridge");
    reveal_strlit("inset");
    reveal_strlit("outset");
    match v {
        LineStyle::NoneValue => {
            assert(word_shape("none"@));

            lemma_hw_round(s, p, "none"@);
        },
        LineStyle::Hidden => {
            assert(word_shape("hidden"@));
            assert("hidden"@ != "none"@) by {
                assert("hidden"@.len() == 6);
                assert("none"@.len() == 4);
            }
            lemma_hw_round(s, p, "hidden"@);
        },
        LineStyle::Dotted => {
            assert(word_shape("dotted"@));
            assert("dotted"@ != "none"@) by {
                assert("dotted"@.len() == 6);
                assert("none"@.len() == 4);
            }
            assert("dotted"@ != "hidden"@) by {
                assert("dotted"@[0] == 'd');
                assert("hidden"@[0] == 'h');
            }
            lemma_hw_round(s, p, "dotted"@);
        },
        LineStyle::Dashed => {
            assert(word_shape("dashed"@));
            assert("dashed"@ != "none"@) by {
                assert("dashed"@.len() == 6);
                assert("none"@.len() == 4);
            }
            assert("dashed"@ != "hidden"@) by {
                assert("dashed"@[0] == 'd');
                assert("hidden"@[0] == 'h');
            }
            assert("dashed"@ != "dotted"@) by {
                assert("dashed"@[1] == 'a');
                assert("dotted"@[1] == 'o');
            }
            lemma_hw_round(s, p, "dashed"@);
        },
        LineStyle::Solid => {
            assert(word_shape("solid"@));
            assert("solid"@ != "none"@) by {
                assert("solid"@.len() == 5);
                assert("none"@.len() == 4);
            }
            assert("solid"@ != "hidden"@) by {
                assert("solid"@.len() == 5);
                assert("hidden"@.len() == 6);
            }
            assert("solid"@ != "dotted"@) by {
                assert("solid"@.len() == 5);
                assert("dotted"@.len() == 6);
            }
            assert("solid"@ != "dashed"@) by {
                assert("solid"@.len() == 5);
                assert("dashed"@.len() == 6);
            }
            lemma_hw_round(s, p, "solid"@);
        },
        LineStyle::Double => {
            assert(word_shape("double"@));
            assert("double"@ != "none"@) by {
                assert("double"@.len() == 6);
                assert("none"@.len() == 4);
            }
            assert("double"@ != "hidden"@) by {
                assert("double"@[0] == 'd');
                assert("hidden"@[0] == 'h');
            }
            assert("double"@ != "dotted"@) by {
                assert("double"@[2] == 'u');
                assert("dotted"@[2] == 't');
            }
            assert("double"@ != "dashed"@) by {
                assert("double"@[1] == 'o');
                assert("dashed"@[1] == 'a');
            }
            assert("double"@ != "solid"@) by {
                assert("double"@.len() == 6);
                assert("solid"@.len() == 5);
            }
            lemma_hw_round(s, p, "double"@);
        },
        LineStyle::Groove => {
            assert(word_shape("groove"@));
            assert("groove"@ != "none"@) by {
                assert("groove"@.len() == 6);
                assert("none"@.len() == 4);
            }
            assert("groove"@ != "hidden"@) by {
                assert("groove"@[0] == 'g');
                assert("hidden"@[0] == 'h');
            }
            assert("groove"@ != "dotted"@) by {
                assert("groove"@[0] == 'g');
                assert("dotted"@[0] == 'd');
            }
            assert("groove"@ != "dashed"@) by {
                assert("groove"@[0] == 'g');
                assert("dashed"@[0] == 'd');
            }
            assert("groove"@ != "solid"@) by {
                assert("groove"@.len() == 6);
                assert("solid"@.len() == 5);
            }
            assert("groove"@ != "double"@) by {
                assert("groove"@[0] == 'g');
                assert("double"@[0] == 'd');
            }
            lemma_hw_round(s, p, "groove"@);
        },
        LineStyle::Ridge => {
            assert(word_shape("ridge"@));
            assert("ridge"@ != "none"@) by {
                assert("ridge"@.len() == 5);
                assert("none"@.len() == 4);
            }
            assert("ridge"@ != "hidden"@) by {
                assert("ridge"@.len() == 5);
                assert("hidden"@.len() == 6);
            }
            assert("ridge"@ != "dotted"@) by {
                assert("ridge"@.len() == 5);
                assert("dotted"@.len() == 6);
            }
            assert("ridge"@ != "dashed"@) by {
                assert("ridge"@.len() == 5);
                assert("dashed"@.len() == 6);
            }
            assert("ridge"@ != "solid"@) by {
                assert("ridge"@[0] == 'r');
                assert("solid"@[0] == 's');
            }
            assert("ridge"@ != "double"@) by {
                assert("ridge"@.len() == 5);
                assert("double"@.len() == 6);
            }
            assert("ridge"@ != "groove"@) by {
                assert("ridge"@.len() == 5);
                assert("groove"@.len() == 6);
            }
            lemma_hw_round(s, p, "ridge"@);
        },
        LineStyle::Inset => {
            assert(word_shape("inset"@));
            assert("inset"@ != "none"@) by {
                assert("inset"@.len() == 5);
                assert("none"@.len() == 4);
            }
            assert("inset"@ != "hidden"@) by {
                assert("inset"@.len() == 5);
                assert("hidden"@.len() == 6);
            }
            assert("inset"@ != "dotted"@) by {
                assert("inset"@.len() == 5);
                assert("dotted"@.len() == 6);
            }
            assert("inset"@ != "dashed"@) by {
                assert("inset"@.len() == 5);
                assert("dashed"@.len() == 6);
            }
            assert("inset"@ != "solid"@) by {
                assert("inset"@[0] == 'i');
                assert("solid"@[0] == 's');
            }
            assert("inset"@ != "double"@) by {
                assert("inset"@.len() == 5);
                assert("double"@.len() == 6);
            }
            assert("inset"@ != "groove"@) by {
                assert("inset"@.len() == 5);
                assert("groove"@.len() == 6);
            }
            assert("inset"@ != "ridge"@) by {
                assert("inset"@[0] == 'i');
                assert("ridge"@[0] == 'r');
            }
            lemma_hw_round(s, p, "inset"@);
        },
        LineStyle::Outset => {
            assert(word_shape("outset"@));
            assert("outset"@ != "none"@) by {
                assert("outset"@.len() == 6);
                assert("none"@.len() == 4);
            }
            assert("outset"@ != "hidden"@) by {
                assert("outset"@[0] == 'o');
                assert("hidden"@[0] == 'h');
            }
            assert("outset"@ != "dotted"@) by {
                assert("outset"@[0] == 'o');
                assert("dotted"@[0] == 'd');
            }
            assert("outset"@ != "dashed"@) by {
                assert("outset"@[0] == 'o');
                assert("dashed"@[0] == 'd');
            }
            assert("outset"@ != "solid"@) by {
                assert("outset"@.len() == 6);
                assert("solid"@.len() == 5);
            }
            assert("outset"@ != "double"@) by {
                assert("outset"@[0] == 'o');
                assert("double"@[0] == 'd');
            }
            assert("outset"@ != "groove"@) by {
                assert("outset"@[0] == 'o');
                assert("groove"@[0] == 'g');
            }
            assert("outset"@ != "ridge"@) by {
                assert("outset"@.len() == 6);
                assert("ridge"@.len() == 5);
            }
            assert("outset"@ != "inset"@) by {
                assert("outset"@.len() == 6);
                assert("inset"@.len() == 5);
            }
            lemma_hw_round(s, p, "outset"@);
        },
    }
}

/// Round trip for a standalone `LineStyle` keyword: parsing its canonical text
/// gives it back, consuming everything.
pub proof fn lemma_linestyle_round_trip(v: LineStyle)
    ensures
        LineStyle::spec_parse(v.css(), 0) == Ok::<(LineStyle, int), crate::diag::SpecErr>(
            (v, v.css().len() as int),
        ),
{
    let s = v.css();
    assert(s.subrange(0, s.len() as int) =~= s);
    lemma_skip_ws(s, s.len() as int);
    lemma_linestyle_round(s, 0, v);
}

/// A `ListStyleType` keyword's text, with an innocuous continuation, reads back as
/// exactly that value.
pub proof fn lemma_liststyletype_round(s: Seq<char>, p: int, v: ListStyleType)
    requires
        0 <= p,
        p + v.css().len() <= s.len(),
        s.subrange(p, p + v.css().len()) == v.css(),
        word_stop(s, p + v.css().len()),
    ensures
        ListStyleType::spec_parse(s, p) == Ok::<(ListStyleType, int), crate::diag::SpecErr>(
            (v, p + v.css().len()),
        ),
{
    reveal_strlit("disc");
    reveal_strlit("circle");
    reveal_strlit("square");
    reveal_strlit("decimal");
    reveal_strlit("decimal-leading-zero");
    reveal_strlit("lower-roman");
    reveal_strlit("upper-roman");
    reveal_strlit("lower-greek");
    reveal_strlit("upper-greek");
    reveal_strlit("lower-latin");
    reveal_strlit("upper-latin");
    reveal_strlit("armenian");
    reveal_strlit("georgian");
    reveal_strlit("lower-alpha");
    reveal_strlit("upper-alpha");
    reveal_strlit("none");
    match v {
        ListStyleType::Disc => {
            assert(word_shape("disc"@));

            lemma_hw_round(s, p, "disc"@);
        },
        ListStyleType::Circle => {
            assert(word_shape("circle"@));
            assert("circle"@ != "disc"@) by {
                assert("circle"@.len() == 6);
                assert("disc"@.len() == 4);
            }
            lemma_hw_round(s, p, "circle"@);
        },
        ListStyleType::Square => {
            assert(word_shape("square"@));
            assert("square"@ != "disc"@) by {
                assert("square"@.len() == 6);
                assert("disc"@.len() == 4);
            }
            assert("square"@ != "circle"@) by {
                assert("square"@[0] == 's');
                assert("circle"@[0] == 'c');
            }
            lemma_hw_round(s, p, "square"@);
        },
        ListStyleType::Decimal => {
            assert(word_shape("decimal"@));
            assert("decimal"@ != "disc"@) by {
                assert("decimal"@.len() == 7);
                assert("disc"@.len() == 4);
            }
            assert("decimal"@ != "circle"@) by {
                assert("decimal"@.len() == 7);
                assert("circle"@.len() == 6);
            }
            assert("decimal"@ != "square"@) by {
                assert("decimal"@.len() == 7);
                assert("square"@.len() == 6);
            }
            lemma_hw_round(s, p, "decimal"@);
        },
        ListStyleType::DecimalLeadingZero => {
            assert(word_shape("decimal-leading-zero"@));
            assert("decimal-leading-zero"@ != "disc"@) by {
                assert("decimal-leading-zero"@.len() == 20);
                assert("disc"@.len() == 4);
            }
            assert("decimal-leading-zero"@ != "circle"@) by {
                assert("decimal-leading-zero"@.len() == 20);
                assert("circle"@.len() == 6);
            }
            assert("decimal-leading-zero"@ != "square"@) by {
                assert("decimal-leading-zero"@.len() == 20);
                assert("square"@.len() == 6);
            }
            assert("decimal-leading-zero"@ != "decimal"@) by {
                assert("decimal-leading-zero"@.len() == 20);
                assert("decimal"@.len() == 7);
            }
            lemma_hw_round(s, p, "decimal-leading-zero"@);
        },
        ListStyleType::LowerRoman => {
            assert(word_shape("lower-roman"@));
            assert("lower-roman"@ != "disc"@) by {
                assert("lower-roman"@.len() == 11);
                assert("disc"@.len() == 4);
            }
            assert("lower-roman"@ != "circle"@) by {
                assert("lower-roman"@.len() == 11);
                assert("circle"@.len() == 6);
            }
            assert("lower-roman"@ != "square"@) by {
                assert("lower-roman"@.len() == 11);
                assert("square"@.len() == 6);
            }
            assert("lower-roman"@ != "decimal"@) by {
                assert("lower-roman"@.len() == 11);
                assert("decimal"@.len() == 7);
            }
            assert("lower-roman"@ != "decimal-leading-zero"@) by {
                assert("lower-roman"@.len() == 11);
                assert("decimal-leading-zero"@.len() == 20);
            }
            lemma_hw_round(s, p, "lower-roman"@);
        },
        ListStyleType::UpperRoman => {
            assert(word_shape("upper-roman"@));
            assert("upper-roman"@ != "disc"@) by {
                assert("upper-roman"@.len() == 11);
                assert("disc"@.len() == 4);
            }
            assert("upper-roman"@ != "circle"@) by {
                assert("upper-roman"@.len() == 11);
                assert("circle"@.len() == 6);
            }
            assert("upper-roman"@ != "square"@) by {
                assert("upper-roman"@.len() == 11);
                assert("square"@.len() == 6);
            }
            assert("upper-roman"@ != "decimal"@) by {
                assert("upper-roman"@.len() == 11);
                assert("decimal"@.len() == 7);
            }
            assert("upper-roman"@ != "decimal-leading-zero"@) by {
                assert("upper-roman"@.len() == 11);
                assert("decimal-leading-zero"@.len() == 20);
            }
            assert("upper-roman"@ != "lower-roman"@) by {
                assert("upper-roman"@[0] == 'u');
                assert("lower-roman"@[0] == 'l');
            }
            lemma_hw_round(s, p, "upper-roman"@);
        },
        ListStyleType::LowerGreek => {
            assert(word_shape("lower-greek"@));
            assert("lower-greek"@ != "disc"@) by {
                assert("lower-greek"@.len() == 11);
                assert("disc"@.len() == 4);
            }
            assert("lower-greek"@ != "circle"@) by {
                assert("lower-greek"@.len() == 11);
                assert("circle"@.len() == 6);
            }
            assert("lower-greek"@ != "square"@) by {
                assert("lower-greek"@.len() == 11);
                assert("square"@.len() == 6);
            }
            assert("lower-greek"@ != "decimal"@) by {
                assert("lower-greek"@.len() == 11);
                assert("decimal"@.len() == 7);
            }
            assert("lower-greek"@ != "decimal-leading-zero"@) by {
                assert("lower-greek"@.len() == 11);
                assert("decimal-leading-zero"@.len() == 20);
            }
            assert("lower-greek"@ != "lower-roman"@) by {
                assert("lower-greek"@[6] == 'g');
                assert("lower-roman"@[6] == 'r');
            }
            assert("lower-greek"@ != "upper-roman"@) by {
                assert("lower-greek"@[0] == 'l');
                assert("upper-roman"@[0] == 'u');
            }
            lemma_hw_round(s, p, "lower-greek"@);
        },
        ListStyleType::UpperGreek => {
            assert(word_shape("upper-greek"@));
            assert("upper-greek"@ != "disc"@) by {
                assert("upper-greek"@.len() == 11);
                assert("disc"@.len() == 4);
            }
            assert("upper-greek"@ != "circle"@) by {
                assert("upper-greek"@.len() == 11);
                assert("circle"@.len() == 6);
            }
            assert("upper-greek"@ != "square"@) by {
                assert("upper-greek"@.len() == 11);
                assert("square"@.len() == 6);
            }
            assert("upper-greek"@ != "decimal"@) by {
                assert("upper-greek"@.len() == 11);
                assert("decimal"@.len() == 7);
            }
            assert("upper-greek"@ != "decimal-leading-zero"@) by {
                assert("upper-greek"@.len() == 11);
                assert("decimal-leading-zero"@.len() == 20);
            }
            assert("upper-greek"@ != "lower-roman"@) by {
                assert("upper-greek"@[0] == 'u');
                assert("lower-roman"@[0] == 'l');
            }
            assert("upper-greek"@ != "upper-roman"@) by {
                assert("upper-greek"@[6] == 'g');
                assert("upper-roman"@[6] == 'r');
            }
            assert("upper-greek"@ != "lower-greek"@) by {
                assert("upper-greek"@[0] == 'u');
                assert("lower-greek"@[0] == 'l');
            }
            lemma_hw_round(s, p, "upper-greek"@);
        },
        ListStyleType::LowerLatin => {
            assert(word_shape("lower-latin"@));
            assert("lower-latin"@ != "disc"@) by {
                assert("lower-latin"@.len() == 11);
                assert("disc"@.len() == 4);
            }
            assert("lower-latin"@ != "circle"@) by {
                assert("lower-latin"@.len() == 11);
                assert("circle"@.len() == 6);
            }
            assert("lower-latin"@ != "square"@) by {
                assert("lower-latin"@.len() == 11);
                assert("square"@.len() == 6);
            }
            assert("lower-latin"@ != "decimal"@) by {
                assert("lower-latin"@.len() == 11);
                assert("decimal"@.len() == 7);
            }
            assert("lower-latin"@ != "decimal-leading-zero"@) by {
                assert("lower-latin"@.len() == 11);
                assert("decimal-leading-zero"@.len() == 20);
            }
            assert("lower-latin"@ != "lower-roman"@) by {
                assert("lower-latin"@[6] == 'l');
                assert("lower-roman"@[6] == 'r');
            }
            assert("lower-latin"@ != "upper-roman"@) by {
                assert("lower-latin"@[0] == 'l');
                assert("upper-roman"@[0] == 'u');
            }
            assert("lower-latin"@ != "lower-greek"@) by {
                assert("lower-latin"@[6] == 'l');
                assert("lower-greek"@[6] == 'g');
            }
            assert("lower-latin"@ != "upper-greek"@) by {
                assert("lower-latin"@[0] == 'l');
                assert("upper-greek"@[0] == 'u');
            }
            lemma_hw_round(s, p, "lower-latin"@);
        },
        ListStyleType::UpperLatin => {
            assert(word_shape("upper-latin"@));
            assert("upper-latin"@ != "disc"@) by {
                assert("upper-latin"@.len() == 11);
                assert("disc"@.len() == 4);
            }
            assert("upper-latin"@ != "circle"@) by {
                assert("upper-latin"@.len() == 11);
                assert("circle"@.len() == 6);
            }
            assert("upper-latin"@ != "square"@) by {
                assert("upper-latin"@.len() == 11);
                assert("square"@.len() == 6);
            }
            assert("upper-latin"@ != "decimal"@) by {
                assert("upper-latin"@.len() == 11);
                assert("decimal"@.len() == 7);
            }
            assert("upper-latin"@ != "decimal-leading-zero"@) by {
                assert("upper-latin"@.len() == 11);
                assert("decimal-leading-zero"@.len() == 20);
            }
            assert("upper-latin"@ != "lower-roman"@) by {
                assert("upper-latin"@[0] == 'u');
                assert("lower-roman"@[0] == 'l');
            }
            assert("upper-latin"@ != "upper-roman"@) by {
                assert("upper-latin"@[6] == 'l');
                assert("upper-roman"@[6] == 'r');
            }
            assert("upper-latin"@ != "lower-greek"@) by {
                assert("upper-latin"@[0] == 'u');
                assert("lower-greek"@[0] == 'l');
            }
            assert("upper-latin"@ != "upper-greek"@) by {
                assert("upper-latin"@[6] == 'l');
                assert("upper-greek"@[6] == 'g');
            }
            assert("upper-latin"@ != "lower-latin"@) by {
                assert("upper-latin"@[0] == 'u');
                assert("lower-latin"@[0] == 'l');
            }
            lemma_hw_round(s, p, "upper-latin"@);
        },
        ListStyleType::Armenian => {
            assert(word_shape("armenian"@));
            assert("armenian"@ != "disc"@) by {
                assert("armenian"@.len() == 8);
                assert("disc"@.len() == 4);
            }
            assert("armenian"@ != "circle"@) by {
                assert("armenian"@.len() == 8);
                assert("circle"@.len() == 6);
            }
            assert("armenian"@ != "square"@) by {
                assert("armenian"@.len() == 8);
                assert("square"@.len() == 6);
            }
            assert("armenian"@ != "decimal"@) by {
                assert("armenian"@.len() == 8);
                assert("decimal"@.len() == 7);
            }
            assert("armenian"@ != "decimal-leading-zero"@) by {
                assert("armenian"@.len() == 8);
                assert("decimal-leading-zero"@.len() == 20);
            }
            assert("armenian"@ != "lower-roman"@) by {
                assert("armenian"@.len() == 8);
                assert("lower-roman"@.len() == 11);
            }
            assert("armenian"@ != "upper-roman"@) by {
                assert("armenian"@.len() == 8);
                assert("upper-roman"@.len() == 11);
            }
            assert("armenian"@ != "lower-greek"@) by {
                assert("armenian"@.len() == 8);
                assert("lower-greek"@.len() == 11);
            }
            assert("armenian"@ != "upper-greek"@) by {
                assert("armenian"@.len() == 8);
                assert("upper-greek"@.len() == 11);
            }
            assert("armenian"@ != "lower-latin"@) by {
                assert("armenian"@.len() == 8);
                assert("lower-latin"@.len() == 11);
            }
            assert("armenian"@ != "upper-latin"@) by {
                assert("armenian"@.len() == 8);
                assert("upper-latin"@.len() == 11);
            }
            lemma_hw_round(s, p, "armenian"@);
        },
        ListStyleType::Georgian => {
            assert(word_shape("georgian"@));
            assert("georgian"@ != "disc"@) by {
                assert("georgian"@.len() == 8);
                assert("disc"@.len() == 4);
            }
            assert("georgian"@ != "circle"@) by {
                assert("georgian"@.len() == 8);
                assert("circle"@.len() == 6);
            }
            assert("georgian"@ != "square"@) by {
                assert("georgian"@.len() == 8);
                assert("square"@.len() == 6);
            }
            assert("georgian"@ != "decimal"@) by {
                assert("georgian"@.len() == 8);
                assert("decimal"@.len() == 7);
            }
            assert("georgian"@ != "decimal-leading-zero"@) by {
                assert("georgian"@.len() == 8);
                assert("decimal-leading-zero"@.len() == 20);
            }
            assert("georgian"@ != "lower-roman"@) by {
                assert("georgian"@.len() == 8);
                assert("lower-roman"@.len() == 11);
            }
            assert("georgian"@ != "upper-roman"@) by {
                assert("georgian"@.len() == 8);
                assert("upper-roman"@.len() == 11);
            }
            assert("georgian"@ != "lower-greek"@) by {
                assert("georgian"@.len() == 8);
                assert("lower-greek"@.len() == 11);
            }
            assert("georgian"@ != "upper-greek"@) by {
                assert("georgian"@.len() == 8);
                assert("upper-greek"@.len() == 11);
            }
            assert("georgian"@ != "lower-latin"@) by {
                assert("georgian"@.len() == 8);
                assert("lower-latin"@.len() == 11);
            }
            assert("georgian"@ != "upper-latin"@) by {
                assert("georgian"@.len() == 8);
                assert("upper-latin"@.len() == 11);
            }
            assert("georgian"@ != "armenian"@) by {
                assert("georgian"@[0] == 'g');
                assert("armenian"@[0] == 'a');
            }
            lemma_hw_round(s, p, "georgian"@);
        },
        ListStyleType::LowerAlpha => {
            assert(word_shape("lower-alpha"@));
            assert("lower-alpha"@ != "disc"@) by {
                assert("lower-alpha"@.len() == 11);
                assert("disc"@.len() == 4);
            }
            assert("lower-alpha"@ != "circle"@) by {
                assert("lower-alpha"@.len() == 11);
                assert("circle"@.len() == 6);
            }
            assert("lower-alpha"@ != "square"@) by {
                assert("lower-alpha"@.len() == 11);
                assert("square"@.len() == 6);
            }
            assert("lower-alpha"@ != "decimal"@) by {
                assert("lower-alpha"@.len() == 11);
                assert("decimal"@.len() == 7);
            }
            assert("lower-alpha"@ != "decimal-leading-zero"@) by {
                assert("lower-alpha"@.len() == 11);
                assert("decimal-leading-zero"@.len() == 20);
            }
            assert("lower-alpha"@ != "lower-roman"@) by {
                assert("lower-alpha"@[6] == 'a');
                assert("lower-roman"@[6] == 'r');
            }
            assert("lower-alpha"@ != "upper-roman"@) by {
                assert("lower-alpha"@[0] == 'l');
                assert("upper-roman"@[0] == 'u');
            }
            assert("lower-alpha"@ != "lower-greek"@) by {
                assert("lower-alpha"@[6] == 'a');
                assert("lower-greek"@[6] == 'g');
            }
            assert("lower-alpha"@ != "upper-greek"@) by {
                assert("lower-alpha"@[0] == 'l');
                assert("upper-greek"@[0] == 'u');
            }
            assert("lower-alpha"@ != "lower-latin"@) by {
                assert("lower-alpha"@[6] == 'a');
                assert("lower-latin"@[6] == 'l');
            }
            assert("lower-alpha"@ != "upper-latin"@) by {
                assert("lower-alpha"@[0] == 'l');
                assert("upper-latin"@[0] == 'u');
            }
            assert("lower-alpha"@ != "armenian"@) by {
                assert("lower-alpha"@.len() == 11);
                assert("armenian"@.len() == 8);
            }
            assert("lower-alpha"@ != "georgian"@) by {
                assert("lower-alpha"@.len() == 11);
                assert("georgian"@.len() == 8);
            }
            lemma_hw_round(s, p, "lower-alpha"@);
        },
        ListStyleType::UpperAlpha => {
            assert(word_shape("upper-alpha"@));
            assert("upper-alpha"@ != "disc"@) by {
                assert("upper-alpha"@.len() == 11);
                assert("disc"@.len() == 4);
            }
            assert("upper-alpha"@ != "circle"@) by {
                assert("upper-alpha"@.len() == 11);
                assert("circle"@.len() == 6);
            }
            assert("upper-alpha"@ != "square"@) by {
                assert("upper-alpha"@.len() == 11);
                assert("square"@.len() == 6);
            }
            assert("upper-alpha"@ != "decimal"@) by {
                assert("upper-alpha"@.len() == 11);
                assert("decimal"@.len() == 7);
            }
            assert("upper-alpha"@ != "decimal-leading-zero"@) by {
                assert("upper-alpha"@.len() == 11);
                assert("decimal-leading-zero"@.len() == 20);
            }
            assert("upper-alpha"@ != "lower-roman"@) by {
                assert("upper-alpha"@[0] == 'u');
                assert("lower-roman"@[0] == 'l');
            }
            assert("upper-alpha"@ != "upper-roman"@) by {
                assert("upper-alpha"@[6] == 'a');
                assert("upper-roman"@[6] == 'r');
            }
            assert("upper-alpha"@ != "lower-greek"@) by {
                assert("upper-alpha"@[0] == 'u');
                assert("lower-greek"@[0] == 'l');
            }
            assert("upper-alpha"@ != "upper-greek"@) by {
                assert("upper-alpha"@[6] == 'a');
                assert("upper-greek"@[6] == 'g');
            }
            assert("upper-alpha"@ != "lower-latin"@) by {
                assert("upper-alpha"@[0] == 'u');
                assert("lower-latin"@[0] == 'l');
            }
            assert("upper-alpha"@ != "upper-latin"@) by {
                assert("upper-alpha"@[6] == 'a');
                assert("upper-latin"@[6] == 'l');
            }
            assert("upper-alpha"@ != "armenian"@) by {
                assert("upper-alpha"@.len() == 11);
                assert("armenian"@.len() == 8);
            }
            assert("upper-alpha"@ != "georgian"@) by {
                assert("upper-alpha"@.len() == 11);
                assert("georgian"@.len() == 8);
            }
            assert("upper-alpha"@ != "lower-alpha"@) by {
                assert("upper-alpha"@[0] == 'u');
                assert("lower-alpha"@[0] == 'l');
            }
            lemma_hw_round(s, p, "upper-alpha"@);
        },
        ListStyleType::NoneValue => {
            assert(word_shape("none"@));
            assert("none"@ != "disc"@) by {
                assert("none"@[0] == 'n');
                assert("disc"@[0] == 'd');
            }
            assert("none"@ != "circle"@) by {
                assert("none"@.len() == 4);
                assert("circle"@.len() == 6);
            }
            assert("none"@ != "square"@) by {
                assert("none"@.len() == 4);
                assert("square"@.len() == 6);
            }
            assert("none"@ != "decimal"@) by {
                assert("none"@.len() == 4);
                assert("decimal"@.len() == 7);
            }
            assert("none"@ != "decimal-leading-zero"@) by {
                assert("none"@.len() == 4);
                assert("decimal-leading-zero"@.len() == 20);
            }
            assert("none"@ != "lower-roman"@) by {
                assert("none"@.len() == 4);
                assert("lower-roman"@.len() == 11);
            }
            assert("none"@ != "upper-roman"@) by {
                assert("none"@.len() == 4);
                assert("upper-roman"@.len() == 11);
            }
            assert("none"@ != "lower-greek"@) by {
                assert("none"@.len() == 4);
                assert("lower-greek"@.len() == 11);
            }
            assert("none"@ != "upper-greek"@) by {
                assert("none"@.len() == 4);
                assert("upper-greek"@.len() == 11);
            }
            assert("none"@ != "lower-latin"@) by {
                assert("none"@.len() == 4);
                assert("lower-latin"@.len() == 11);
            }
            assert("none"@ != "upper-latin"@) by {
                assert("none"@.len() == 4);
                assert("upper-latin"@.len() == 11);
            }
            assert("none"@ != "armenian"@) by {
                assert("none"@.len() == 4);
                assert("armenian"@.len() == 8);
            }
            assert("none"@ != "georgian"@) by {
                assert("none"@.len() == 4);
                assert("georgian"@.len() == 8);
            }
            assert("none"@ != "lower-alpha"@) by {
                assert("none"@.len() == 4);
                assert("lower-alpha"@.len() == 11);
            }
            assert("none"@ != "upper-alpha"@) by {
                assert("none"@.len() == 4);
                assert("upper-alpha"@.len() == 11);
            }
            lemma_hw_round(s, p, "none"@);
        },
    }
}

/// Round trip for a standalone `ListStyleType` keyword: parsing its canonical text
/// gives it back, consuming everything.
pub proof fn lemma_liststyletype_round_trip(v: ListStyleType)
    ensures
        ListStyleType::spec_parse(v.css(), 0) == Ok::<(ListStyleType, int), crate::diag::SpecErr>(
            (v, v.css().len() as int),
        ),
{
    let s = v.css();
    assert(s.subrange(0, s.len() as int) =~= s);
    lemma_skip_ws(s, s.len() as int);
    lemma_liststyletype_round(s, 0, v);
}

/// A `Resize` keyword's text, with an innocuous continuation, reads back as
/// exactly that value.
pub proof fn lemma_resize_round(s: Seq<char>, p: int, v: Resize)
    requires
        0 <= p,
        p + v.css().len() <= s.len(),
        s.subrange(p, p + v.css().len()) == v.css(),
        word_stop(s, p + v.css().len()),
    ensures
        Resize::spec_parse(s, p) == Ok::<(Resize, int), crate::diag::SpecErr>(
            (v, p + v.css().len()),
        ),
{
    reveal_strlit("none");
    reveal_strlit("both");
    reveal_strlit("horizontal");
    reveal_strlit("vertical");
    match v {
        Resize::NoneValue => {
            assert(word_shape("none"@));

            lemma_hw_round(s, p, "none"@);
        },
        Resize::Both => {
            assert(word_shape("both"@));
            assert("both"@ != "none"@) by {
                assert("both"@[0] == 'b');
                assert("none"@[0] == 'n');
            }
            lemma_hw_round(s, p, "both"@);
        },
        Resize::Horizontal => {
            assert(word_shape("horizontal"@));
            assert("horizontal"@ != "none"@) by {
                assert("horizontal"@.len() == 10);
                assert("none"@.len() == 4);
            }
            assert("horizontal"@ != "both"@) by {
                assert("horizontal"@.len() == 10);
                assert("both"@.len() == 4);
            }
            lemma_hw_round(s, p, "horizontal"@);
        },
        Resize::Vertical => {
            assert(word_shape("vertical"@));
            assert("vertical"@ != "none"@) by {
                assert("vertical"@.len() == 8);
                assert("none"@.len() == 4);
            }
            assert("vertical"@ != "both"@) by {
                assert("vertical"@.len() == 8);
                assert("both"@.len() == 4);
            }
            assert("vertical"@ != "horizontal"@) by {
                assert("vertical"@.len() == 8);
                assert("horizontal"@.len() == 10);
            }
            lemma_hw_round(s, p, "vertical"@);
        },
    }
}

/// Round trip for a standalone `Resize` keyword: parsing its canonical text
/// gives it back, consuming everything.
pub proof fn lemma_resize_round_trip(v: Resize)
    ensures
        Resize::spec_parse(v.css(), 0) == Ok::<(Resize, int), crate::diag::SpecErr>(
            (v, v.css().len() as int),
        ),
{
    let s = v.css();
    assert(s.subrange(0, s.len() as int) =~= s);
    lemma_skip_ws(s, s.len() as int);
    lemma_resize_round(s, 0, v);
}

} // verus!

verus! {

impl Padding {
    /// The rendering re-parses: every component number does.
    pub open spec fn parseable(self) -> bool {
        match self {
            Padding::All(a) => a.parseable(),
            Padding::VerticalHorizontal(a, b) => a.parseable() && b.parseable(),
            Padding::TopHorizontalBottom(a, b, c) => a.parseable() && b.parseable()
                && c.parseable(),
            Padding::TopRightBottomLeft(a, b, c, d) => a.parseable() && b.parseable()
                && c.parseable() && d.parseable(),
        }
    }
}

/// Skipping whitespace twice is skipping it once.
pub proof fn lemma_skip_idem(s: Seq<char>, p: int)
    requires
        0 <= p <= s.len(),
    ensures
        spec_skip_ws(s, spec_skip_ws(s, p)) == spec_skip_ws(s, p),
{
    lemma_skip_ws(s, p);
}

/// A number parse is unmoved by starting before its leading whitespace.
pub proof fn lemma_number_shift(s: Seq<char>, p: int)
    requires
        0 <= p <= s.len(),
    ensures
        spec_number(s, p) == spec_number(s, spec_skip_ws(s, p)),
{
    lemma_skip_ws(s, p);
    lemma_skip_idem(s, p);
}

/// A hyphen-word parse is unmoved by starting before its leading
/// whitespace, when a word is ahead.
pub proof fn lemma_hw_shift(s: Seq<char>, p: int)
    requires
        0 <= p <= s.len(),
        spec_skip_ws(s, p) < s.len() && is_ident_start(s[spec_skip_ws(s, p)]),
    ensures
        crate::parse::spec_hyphen_word(s, p) == crate::parse::spec_hyphen_word(
            s,
            spec_skip_ws(s, p),
        ),
{
    lemma_skip_ws(s, p);
    lemma_skip_idem(s, p);
}

/// A number's rendering starts with a digit.
pub proof fn lemma_num_css_first(v: Num)
    ensures
        v.css().len() >= 1,
        is_digit(v.css()[0]),
{
    lemma_dec_digits_digits(v.mantissa as nat);
    lemma_dec_digits_digits((v.mantissa as nat) / pow10(v.scale as nat));
}

/// A length-or-percentage's rendering starts with a digit.
pub proof fn lemma_lp_css_first(v: LengthPercentage)
    ensures
        v.css().len() >= 1,
        is_digit(v.css()[0]),
{
    match v {
        LengthPercentage::Percentage(pc) => {
            lemma_num_css_first(pc.0);
        },
        LengthPercentage::Length(l) => {
            match l {
                Length::Em(n) => lemma_num_css_first(n),
                Length::Ex(n) => lemma_num_css_first(n),
                Length::In(n) => lemma_num_css_first(n),
                Length::Cm(n) => lemma_num_css_first(n),
                Length::Mm(n) => lemma_num_css_first(n),
                Length::Pt(n) => lemma_num_css_first(n),
                Length::Pc(n) => lemma_num_css_first(n),
                Length::Px(n) => lemma_num_css_first(n),
                Length::Zero => {
                    reveal_strlit("0");
                    assert(l.css()[0] == '0');
                },
            }
        },
    }
}

/// A line-style keyword starts with a letter.
pub proof fn lemma_linestyle_css_first(v: LineStyle)
    ensures
        v.css().len() >= 1,
        is_ident_start(v.css()[0]),
        !is_ws(v.css()[0]),
        v.css()[0] != ';',
        v.css()[0] != '-',
{
    match v {
        LineStyle::NoneValue => {
            reveal_strlit("none");
            assert(v.css()[0] == 'n');
        },
        LineStyle::Hidden => {
            reveal_strlit("hidden");
            assert(v.css()[0] == 'h');
        },
        LineStyle::Dotted => {
            reveal_strlit("dotted");
            assert(v.css()[0] == 'd');
        },
        LineStyle::Dashed => {
            reveal_strlit("dashed");
            assert(v.css()[0] == 'd');
        },
        LineStyle::Solid => {
            reveal_strlit("solid");
            assert(v.css()[0] == 's');
        },
        LineStyle::Double => {
            reveal_strlit("double");
            assert(v.css()[0] == 'd');
        },
        LineStyle::Groove => {
            reveal_strlit("groove");
            assert(v.css()[0] == 'g');
        },
        LineStyle::Ridge => {
            reveal_strlit("ridge");
            assert(v.css()[0] == 'r');
        },
        LineStyle::Inset => {
            reveal_strlit("inset");
            assert(v.css()[0] == 'i');
        },
        LineStyle::Outset => {
            reveal_strlit("outset");
            assert(v.css()[0] == 'o');
        },
    }
}

#[verifier::rlimit(100)]
#[verifier::spinoff_prover]
proof fn lemma_padding_rt_1(a: LengthPercentage)
    requires
        a.parseable(),
    ensures
        Padding::spec_parse(Padding::All(a).css(), 0) == Ok::<
            (Padding, int),
            crate::diag::SpecErr,
        >((Padding::All(a), Padding::All(a).css().len() as int)),
{
    let q = Padding::All(a);
    let s = q.css();
    reveal_strlit(" ");
    assert(" "@ =~= seq![' ']);
    let l0 = a.css().len() as int;
    lemma_lp_css_first(a);
    assert(s.len() == (0 + l0));
    assert(s.subrange(0, 0 + l0) =~= a.css());
    lemma_skip_ws(s, s.len() as int);
    lemma_lp_round(s, 0, a);
}

#[verifier::rlimit(100)]
#[verifier::spinoff_prover]
proof fn lemma_padding_rt_2(a: LengthPercentage, b: LengthPercentage)
    requires
        a.parseable(),
        b.parseable(),
    ensures
        Padding::spec_parse(Padding::VerticalHorizontal(a, b).css(), 0) == Ok::<
            (Padding, int),
            crate::diag::SpecErr,
        >((Padding::VerticalHorizontal(a, b), Padding::VerticalHorizontal(a, b).css().len() as int)),
{
    let q = Padding::VerticalHorizontal(a, b);
    let s = q.css();
    reveal_strlit(" ");
    assert(" "@ =~= seq![' ']);
    let l0 = a.css().len() as int;
    lemma_lp_css_first(a);
    let l1 = b.css().len() as int;
    lemma_lp_css_first(b);
    assert(s.len() == ((0 + l0 + 1) + l1));
    assert(s.subrange(0, 0 + l0) =~= a.css());
    assert(s[0 + l0] == ' ');
    assert(s[0 + l0 + 1] == b.css()[0]);
    assert(spec_skip_ws(s, 0 + l0) == 0 + l0 + 1);
    assert(s.subrange((0 + l0 + 1), (0 + l0 + 1) + l1) =~= b.css());
    lemma_skip_ws(s, s.len() as int);
    lemma_lp_round(s, 0, a);
    lemma_number_shift(s, (0 + l0));
    assert(LengthPercentage::spec_parse(s, (0 + l0)) == LengthPercentage::spec_parse(s, (0 + l0 + 1)));
    lemma_lp_round(s, (0 + l0 + 1), b);
}

#[verifier::rlimit(100)]
#[verifier::spinoff_prover]
proof fn lemma_padding_rt_3(a: LengthPercentage, b: LengthPercentage, c: LengthPercentage)
    requires
        a.parseable(),
        b.parseable(),
        c.parseable(),
    ensures
        Padding::spec_parse(Padding::TopHorizontalBottom(a, b, c).css(), 0) == Ok::<
            (Padding, int),
            crate::diag::SpecErr,
        >((Padding::TopHorizontalBottom(a, b, c), Padding::TopHorizontalBottom(a, b, c).css().len() as int)),
{
    let q = Padding::TopHorizontalBottom(a, b, c);
    let s = q.css();
    reveal_strlit(" ");
    assert(" "@ =~= seq![' ']);
    let l0 = a.css().len() as int;
    lemma_lp_css_first(a);
    let l1 = b.css().len() as int;
    lemma_lp_css_first(b);
    let l2 = c.css().len() as int;
    lemma_lp_css_first(c);
    assert(s.len() == (((0 + l0 + 1) + l1 + 1) + l2));
    assert(s.subrange(0, 0 + l0) =~= a.css());
    assert(s[0 + l0] == ' ');
    assert(s[0 + l0 + 1] == b.css()[0]);
    assert(spec_skip_ws(s, 0 + l0) == 0 + l0 + 1);
    assert(s.subrange((0 + l0 + 1), (0 + l0 + 1) + l1) =~= b.css());
    assert(s[(0 + l0 + 1) + l1] == ' ');
    assert(s[(0 + l0 + 1) + l1 + 1] == c.css()[0]);
    assert(spec_skip_ws(s, (0 + l0 + 1) + l1) == (0 + l0 + 1) + l1 + 1);
    assert(s.subrange(((0 + l0 + 1) + l1 + 1), ((0 + l0 + 1) + l1 + 1) + l2) =~= c.css());
    lemma_skip_ws(s, s.len() as int);
    lemma_lp_round(s, 0, a);
    lemma_number_shift(s, (0 + l0));
    assert(LengthPercentage::spec_parse(s, (0 + l0)) == LengthPercentage::spec_parse(s, (0 + l0 + 1)));
    lemma_lp_round(s, (0 + l0 + 1), b);
    lemma_number_shift(s, ((0 + l0 + 1) + l1));
    assert(LengthPercentage::spec_parse(s, ((0 + l0 + 1) + l1)) == LengthPercentage::spec_parse(s, ((0 + l0 + 1) + l1 + 1)));
    lemma_lp_round(s, ((0 + l0 + 1) + l1 + 1), c);
}

#[verifier::rlimit(100)]
#[verifier::spinoff_prover]
proof fn lemma_padding_rt_4(a: LengthPercentage, b: LengthPercentage, c: LengthPercentage, d: LengthPercentage)
    requires
        a.parseable(),
        b.parseable(),
        c.parseable(),
        d.parseable(),
    ensures
        Padding::spec_parse(Padding::TopRightBottomLeft(a, b, c, d).css(), 0) == Ok::<
            (Padding, int),
            crate::diag::SpecErr,
        >((Padding::TopRightBottomLeft(a, b, c, d), Padding::TopRightBottomLeft(a, b, c, d).css().len() as int)),
{
    let q = Padding::TopRightBottomLeft(a, b, c, d);
    let s = q.css();
    reveal_strlit(" ");
    assert(" "@ =~= seq![' ']);
    let l0 = a.css().len() as int;
    lemma_lp_css_first(a);
    let l1 = b.css().len() as int;
    lemma_lp_css_first(b);
    let l2 = c.css().len() as int;
    lemma_lp_css_first(c);
    let l3 = d.css().len() as int;
    lemma_lp_css_first(d);
    assert(s.len() == ((((0 + l0 + 1) + l1 + 1) + l2 + 1) + l3));
    assert(s.subrange(0, 0 + l0) =~= a.css());
    assert(s[0 + l0] == ' ');
    assert(s[0 + l0 + 1] == b.css()[0]);
    assert(spec_skip_ws(s, 0 + l0) == 0 + l0 + 1);
    assert(s.subrange((0 + l0 + 1), (0 + l0 + 1) + l1) =~= b.css());
    assert(s[(0 + l0 + 1) + l1] == ' ');
    assert(s[(0 + l0 + 1) + l1 + 1] == c.css()[0]);
    assert(spec_skip_ws(s, (0 + l0 + 1) + l1) == (0 + l0 + 1) + l1 + 1);
    assert(s.subrange(((0 + l0 + 1) + l1 + 1), ((0 + l0 + 1) + l1 + 1) + l2) =~= c.css());
    assert(s[((0 + l0 + 1) + l1 + 1) + l2] == ' ');
    assert(s[((0 + l0 + 1) + l1 + 1) + l2 + 1] == d.css()[0]);
    assert(spec_skip_ws(s, ((0 + l0 + 1) + l1 + 1) + l2) == ((0 + l0 + 1) + l1 + 1) + l2 + 1);
    assert(s.subrange((((0 + l0 + 1) + l1 + 1) + l2 + 1), (((0 + l0 + 1) + l1 + 1) + l2 + 1) + l3) =~= d.css());
    lemma_skip_ws(s, s.len() as int);
    lemma_lp_round(s, 0, a);
    lemma_number_shift(s, (0 + l0));
    assert(LengthPercentage::spec_parse(s, (0 + l0)) == LengthPercentage::spec_parse(s, (0 + l0 + 1)));
    lemma_lp_round(s, (0 + l0 + 1), b);
    lemma_number_shift(s, ((0 + l0 + 1) + l1));
    assert(LengthPercentage::spec_parse(s, ((0 + l0 + 1) + l1)) == LengthPercentage::spec_parse(s, ((0 + l0 + 1) + l1 + 1)));
    lemma_lp_round(s, ((0 + l0 + 1) + l1 + 1), c);
    lemma_number_shift(s, (((0 + l0 + 1) + l1 + 1) + l2));
    assert(LengthPercentage::spec_parse(s, (((0 + l0 + 1) + l1 + 1) + l2)) == LengthPercentage::spec_parse(s, (((0 + l0 + 1) + l1 + 1) + l2 + 1)));
    lemma_lp_round(s, (((0 + l0 + 1) + l1 + 1) + l2 + 1), d);
}

/// Round trip for a standalone `Padding` quad: parsing its canonical text
/// gives back the same arity and values.
pub proof fn lemma_padding_round_trip(q: Padding)
    requires
        q.parseable(),
    ensures
        Padding::spec_parse(q.css(), 0) == Ok::<(Padding, int), crate::diag::SpecErr>(
            (q, q.css().len() as int),
        ),
{
    match q {
        Padding::All(a) => lemma_padding_rt_1(a),
        Padding::VerticalHorizontal(a, b) => lemma_padding_rt_2(a, b),
        Padding::TopHorizontalBottom(a, b, c) => lemma_padding_rt_3(a, b, c),
        Padding::TopRightBottomLeft(a, b, c, d) => lemma_padding_rt_4(a, b, c, d),
    }
}

#[verifier::rlimit(100)]
proof fn lemma_borderstyle_rt_1(a: LineStyle)
    ensures
        BorderStyle::spec_parse(BorderStyle::All(a).css(), 0) == Ok::<
            (BorderStyle, int),
            crate::diag::SpecErr,
        >((BorderStyle::All(a), BorderStyle::All(a).css().len() as int)),
{
    let q = BorderStyle::All(a);
    let s = q.css();
    reveal_strlit(" ");
    assert(" "@ =~= seq![' ']);
    let l0 = a.css().len() as int;
    lemma_linestyle_css_first(a);
    assert(s.len() == (0 + l0));
    assert(s.subrange(0, 0 + l0) =~= a.css());
    lemma_skip_ws(s, s.len() as int);
    lemma_linestyle_round(s, 0, a);
}

#[verifier::rlimit(100)]
proof fn lemma_borderstyle_rt_2(a: LineStyle, b: LineStyle)
    ensures
        BorderStyle::spec_parse(BorderStyle::VerticalHorizontal(a, b).css(), 0) == Ok::<
            (BorderStyle, int),
            crate::diag::SpecErr,
        >((BorderStyle::VerticalHorizontal(a, b), BorderStyle::VerticalHorizontal(a, b).css().len() as int)),
{
    let q = BorderStyle::VerticalHorizontal(a, b);
    let s = q.css();
    reveal_strlit(" ");
    assert(" "@ =~= seq![' ']);
    let l0 = a.css().len() as int;
    lemma_linestyle_css_first(a);
    let l1 = b.css().len() as int;
    lemma_linestyle_css_first(b);
    assert(s.len() == ((0 + l0 + 1) + l1));
    assert(s.subrange(0, 0 + l0) =~= a.css());
    assert(s[0 + l0] == ' ');
    assert(s[0 + l0 + 1] == b.css()[0]);
    assert(spec_skip_ws(s, 0 + l0) == 0 + l0 + 1);
    assert(s.subrange((0 + l0 + 1), (0 + l0 + 1) + l1) =~= b.css());
    lemma_skip_ws(s, s.len() as int);
    lemma_linestyle_round(s, 0, a);
    lemma_hw_shift(s, (0 + l0));
    assert(LineStyle::spec_parse(s, (0 + l0)) == LineStyle::spec_parse(s, (0 + l0 + 1)));
    lemma_linestyle_round(s, (0 + l0 + 1), b);
}

#[verifier::rlimit(100)]
proof fn lemma_borderstyle_rt_3(a: LineStyle, b: LineStyle, c: LineStyle)
    ensures
        BorderStyle::spec_parse(BorderStyle::TopHorizontalBottom(a, b, c).css(), 0) == Ok::<
            (BorderStyle, int),
            crate::diag::SpecErr,
        >((BorderStyle::TopHorizontalBottom(a, b, c), BorderStyle::TopHorizontalBottom(a, b, c).css().len() as int)),
{
    let q = BorderStyle::TopHorizontalBottom(a, b, c);
    let s = q.css();
    reveal_strlit(" ");
    assert(" "@ =~= seq![' ']);
    let l0 = a.css().len() as int;
    lemma_linestyle_css_first(a);
    let l1 = b.css().len() as int;
    lemma_linestyle_css_first(b);
    let l2 = c.css().len() as int;
    lemma_linestyle_css_first(c);
    assert(s.len() == (((0 + l0 + 1) + l1 + 1) + l2));
    assert(s.subrange(0, 0 + l0) =~= a.css());
    assert(s[0 + l0] == ' ');
    assert(s[0 + l0 + 1] == b.css()[0]);
    assert(spec_skip_ws(s, 0 + l0) == 0 + l0 + 1);
    assert(s.subrange((0 + l0 + 1), (0 + l0 + 1) + l1) =~= b.css());
    assert(s[(0 + l0 + 1) + l1] == ' ');
    assert(s[(0 + l0 + 1) + l1 + 1] == c.css()[0]);
    assert(spec_skip_ws(s, (0 + l0 + 1) + l1) == (0 + l0 + 1) + l1 + 1);
    assert(s.subrange(((0 + l0 + 1) + l1 + 1), ((0 + l0 + 1) + l1 + 1) + l2) =~= c.css());
    lemma_skip_ws(s, s.len() as int);
    lemma_linestyle_round(s, 0, a);
    lemma_hw_shift(s, (0 + l0));
    assert(LineStyle::spec_parse(s, (0 + l0)) == LineStyle::spec_parse(s, (0 + l0 + 1)));
    lemma_linestyle_round(s, (0 + l0 + 1), b);
    lemma_hw_shift(s, ((0 + l0 + 1) + l1));
    assert(LineStyle::spec_parse(s, ((0 + l0 + 1) + l1)) == LineStyle::spec_parse(s, ((0 + l0 + 1) + l1 + 1)));
    lemma_linestyle_round(s, ((0 + l0 + 1) + l1 + 1), c);
}

#[verifier::rlimit(100)]
#[verifier::spinoff_prover]
proof fn lemma_borderstyle_rt_4(a: LineStyle, b: LineStyle, c: LineStyle, d: LineStyle)
    ensures
        BorderStyle::spec_parse(BorderStyle::TopRightBottomLeft(a, b, c, d).css(), 0) == Ok::<
            (BorderStyle, int),
            crate::diag::SpecErr,
        >((BorderStyle::TopRightBottomLeft(a, b, c, d), BorderStyle::TopRightBottomLeft(a, b, c, d).css().len() as int)),
{
    let q = BorderStyle::TopRightBottomLeft(a, b, c, d);
    let s = q.css();
    reveal_strlit(" ");
    assert(" "@ =~= seq![' ']);
    let l0 = a.css().len() as int;
    lemma_linestyle_css_first(a);
    let l1 = b.css().len() as int;
    lemma_linestyle_css_first(b);
    let l2 = c.css().len() as int;
    lemma_linestyle_css_first(c);
    let l3 = d.css().len() as int;
    lemma_linestyle_css_first(d);
    assert(s.len() == ((((0 + l0 + 1) + l1 + 1) + l2 + 1) + l3));
    assert(s.subrange(0, 0 + l0) =~= a.css());
    assert(s[0 + l0] == ' ');
    assert(s[0 + l0 + 1] == b.css()[0]);
    assert(spec_skip_ws(s, 0 + l0) == 0 + l0 + 1);
    assert(s.subrange((0 + l0 + 1), (0 + l0 + 1) + l1) =~= b.css());
    assert(s[(0 + l0 + 1) + l1] == ' ');
    assert(s[(0 + l0 + 1) + l1 + 1] == c.css()[0]);
    assert(spec_skip_ws(s, (0 + l0 + 1) + l1) == (0 + l0 + 1) + l1 + 1);
    assert(s.subrange(((0 + l0 + 1) + l1 + 1), ((0 + l0 + 1) + l1 + 1) + l2) =~= c.css());
    assert(s[((0 + l0 + 1) + l1 + 1) + l2] == ' ');
    assert(s[((0 + l0 + 1) + l1 + 1) + l2 + 1] == d.css()[0]);
    assert(spec_skip_ws(s, ((0 + l0 + 1) + l1 + 1) + l2) == ((0 + l0 + 1) + l1 + 1) + l2 + 1);
    assert(s.subrange((((0 + l0 + 1) + l1 + 1) + l2 + 1), (((0 + l0 + 1) + l1 + 1) + l2 + 1) + l3) =~= d.css());
    lemma_skip_ws(s, s.len() as int);
    lemma_linestyle_round(s, 0, a);
    lemma_hw_shift(s, (0 + l0));
    assert(LineStyle::spec_parse(s, (0 + l0)) == LineStyle::spec_parse(s, (0 + l0 + 1)));
    lemma_linestyle_round(s, (0 + l0 + 1), b);
    lemma_hw_shift(s, ((0 + l0 + 1) + l1));
    assert(LineStyle::spec_parse(s, ((0 + l0 + 1) + l1)) == LineStyle::spec_parse(s, ((0 + l0 + 1) + l1 + 1)));
    lemma_linestyle_round(s, ((0 + l0 + 1) + l1 + 1), c);
    lemma_hw_shift(s, (((0 + l0 + 1) + l1 + 1) + l2));
    assert(LineStyle::spec_parse(s, (((0 + l0 + 1) + l1 + 1) + l2)) == LineStyle::spec_parse(s, (((0 + l0 + 1) + l1 + 1) + l2 + 1)));
    lemma_linestyle_round(s, (((0 + l0 + 1) + l1 + 1) + l2 + 1), d);
}

/// Round trip for a standalone `BorderStyle` quad: parsing its canonical
/// text gives back the same arity and values.
pub proof fn lemma_borderstyle_round_trip(q: BorderStyle)
    ensures
        BorderStyle::spec_parse(q.css(), 0) == Ok::<(BorderStyle, int), crate::diag::SpecErr>(
            (q, q.css().len() as int),
        ),
{
    match q {
        BorderStyle::All(a) => lemma_borderstyle_rt_1(a),
        BorderStyle::VerticalHorizontal(a, b) => lemma_borderstyle_rt_2(a, b),
        BorderStyle::TopHorizontalBottom(a, b, c) => lemma_borderstyle_rt_3(a, b, c),
        BorderStyle::TopRightBottomLeft(a, b, c, d) => lemma_borderstyle_rt_4(a, b, c, d),
    }
}

} // verus!

verus! {

/// Hex digit characters are identifier characters carrying their value.
pub proof fn lemma_hex_digit_char_facts(d: nat)
    requires
        d < 16,
    ensures
        crate::color::is_hex_digit(crate::color::hex_digit_char(d)),
        crate::color::hex_val(crate::color::hex_digit_char(d)) == d,
        is_ident_char(crate::color::hex_digit_char(d)),
        crate::color::hex_digit_char(d) != '"',
{
}

/// The two hex digits of a byte read back as the byte.
pub proof fn lemma_hex2_facts(v: nat)
    requires
        v < 256,
    ensures
        crate::color::hex2(v).len() == 2,
        crate::color::is_hex_digit(crate::color::hex2(v)[0]),
        crate::color::is_hex_digit(crate::color::hex2(v)[1]),
        is_ident_char(crate::color::hex2(v)[0]),
        is_ident_char(crate::color::hex2(v)[1]),
        crate::color::hex_val(crate::color::hex2(v)[0]) * 16 + crate::color::hex_val(
            crate::color::hex2(v)[1],
        ) == v,
{
    lemma_hex_digit_char_facts(v / 16);
    lemma_hex_digit_char_facts(v % 16);
    vstd::arithmetic::div_mod::lemma_fundamental_div_mod(v as int, 16);
}

/// Round trip for a standalone hex color: parsing `#rrggbb` or `#rrggbbaa`
/// gives back the same bytes.
#[verifier::rlimit(100)]
pub proof fn lemma_hex_color_round_trip(c: Color)
    requires
        c is HexRGB || c is HexRGBA,
    ensures
        Color::spec_parse(c.css(), 0) == Ok::<(Color, int), crate::diag::SpecErr>(
            (c, c.css().len() as int),
        ),
{
    let s = c.css();
    match c {
        Color::HexRGB(r, g, b) => {
            lemma_hex2_facts(r as nat);
            lemma_hex2_facts(g as nat);
            lemma_hex2_facts(b as nat);
            assert(s.len() == 7);
            assert(s[0] == '#');
            assert forall|j: int| 1 <= j < 7 implies is_ident_char(s[j]) && crate::color::is_hex_digit(
                s[j],
            ) && s[j] != '"' by {
                if j < 3 {
                    assert(s[j] == crate::color::hex2(r as nat)[j - 1]);
                    lemma_hex_digit_char_facts((if j == 1 { r / 16 } else { r % 16 }) as nat);
                } else if j < 5 {
                    assert(s[j] == crate::color::hex2(g as nat)[j - 3]);
                    lemma_hex_digit_char_facts((if j == 3 { g / 16 } else { g % 16 }) as nat);
                } else {
                    assert(s[j] == crate::color::hex2(b as nat)[j - 5]);
                    lemma_hex_digit_char_facts((if j == 5 { b / 16 } else { b % 16 }) as nat);
                }
            }
            lemma_scan_ident(s, 1, 7);
            let h = s.subrange(1, 7);
            assert(h[0] == crate::color::hex2(r as nat)[0]);
            assert(h[1] == crate::color::hex2(r as nat)[1]);
            assert(h[2] == crate::color::hex2(g as nat)[0]);
            assert(h[3] == crate::color::hex2(g as nat)[1]);
            assert(h[4] == crate::color::hex2(b as nat)[0]);
            assert(h[5] == crate::color::hex2(b as nat)[1]);
            assert(crate::color::spec_parse_hex(h) == Option::Some(Color::HexRGB(r, g, b)));
        },
        Color::HexRGBA(r, g, b, a) => {
            lemma_hex2_facts(r as nat);
            lemma_hex2_facts(g as nat);
            lemma_hex2_facts(b as nat);
            lemma_hex2_facts(a as nat);
            assert(s.len() == 9);
            assert(s[0] == '#');
            assert forall|j: int| 1 <= j < 9 implies is_ident_char(s[j]) && crate::color::is_hex_digit(
                s[j],
            ) && s[j] != '"' by {
                if j < 3 {
                    assert(s[j] == crate::color::hex2(r as nat)[j - 1]);
                } else if j < 5 {
                    assert(s[j] == crate::color::hex2(g as nat)[j - 3]);
                } else if j < 7 {
                    assert(s[j] == crate::color::hex2(b as nat)[j - 5]);
                } else {
                    assert(s[j] == crate::color::hex2(a as nat)[j - 7]);
                }
            }
            lemma_scan_ident(s, 1, 9);
            let h = s.subrange(1, 9);
            assert(h[0] == crate::color::hex2(r as nat)[0]);
            assert(h[1] == crate::color::hex2(r as nat)[1]);
            assert(h[2] == crate::color::hex2(g as nat)[0]);
            assert(h[3] == crate::color::hex2(g as nat)[1]);
            assert(h[4] == crate::color::hex2(b as nat)[0]);
            assert(h[5] == crate::color::hex2(b as nat)[1]);
            assert(h[6] == crate::color::hex2(a as nat)[0]);
            assert(h[7] == crate::color::hex2(a as nat)[1]);
            assert(crate::color::spec_parse_hex(h) == Option::Some(Color::HexRGBA(r, g, b, a)));
        },
        _ => {},
    }
}

} // verus!

verus! {

/// Whether the color is one of this group of named colors.
pub open spec fn named_rt_group1(v: Color) -> bool {
    match v {
        Color::AliceBlue | Color::AntiqueWhite | Color::Aqua | Color::Aquamarine | Color::Azure | Color::Beige | Color::Bisque | Color::Black | Color::BlanchedAlmond | Color::Blue | Color::BlueViolet | Color::Brown | Color::BurlyWood | Color::CadetBlue | Color::Chartreuse | Color::Chocolate | Color::Coral | Color::CornflowerBlue | Color::Cornsilk | Color::Crimson | Color::Cyan | Color::DarkBlue | Color::DarkCyan | Color::DarkGoldenrod | Color::DarkGray | Color::DarkGreen | Color::DarkGrey | Color::DarkKhaki | Color::DarkMagenta | Color::DarkOliveGreen | Color::DarkOrange | Color::DarkOrchid | Color::DarkRed | Color::DarkSalmon | Color::DarkSeaGreen | Color::DarkSlateBlue | Color::DarkSlateGray => true,
        _ => false,
    }
}

#[verifier::rlimit(100)]
proof fn lemma_named_rt_group1(v: Color)
    requires
        named_rt_group1(v),
    ensures
        Color::spec_parse(v.css(), 0) == Ok::<(Color, int), crate::diag::SpecErr>(
            (v, v.css().len() as int),
        ),
{
    reveal_strlit("hsl");
    reveal_strlit("hsla");
    let s = v.css();
    assert(s.subrange(0, s.len() as int) =~= s);
    lemma_skip_ws(s, s.len() as int);
    match v {
        Color::AliceBlue => {
            reveal_strlit("aliceblue");
            assert("aliceblue"@ != "hsl"@) by {
                assert("aliceblue"@.len() == 9);
                assert("hsl"@.len() == 3);
            }
            assert("aliceblue"@ != "hsla"@) by {
                assert("aliceblue"@.len() == 9);
                assert("hsla"@.len() == 4);
            }
            assert(word_shape("aliceblue"@));
            assert("aliceblue"@[0] == 'a');
            lemma_hw_round(s, 0, "aliceblue"@);
            assert(crate::color::named_of("aliceblue"@) == Option::Some(Color::AliceBlue));
        },
        Color::AntiqueWhite => {
            reveal_strlit("antiquewhite");
            reveal_strlit("aliceblue");
            assert("antiquewhite"@ != "aliceblue"@) by {
                assert("antiquewhite"@.len() == 12);
                assert("aliceblue"@.len() == 9);
            }
            assert("antiquewhite"@ != "hsl"@) by {
                assert("antiquewhite"@.len() == 12);
                assert("hsl"@.len() == 3);
            }
            assert("antiquewhite"@ != "hsla"@) by {
                assert("antiquewhite"@.len() == 12);
                assert("hsla"@.len() == 4);
            }
            assert(word_shape("antiquewhite"@));
            assert("antiquewhite"@[0] == 'a');
            lemma_hw_round(s, 0, "antiquewhite"@);
            assert(crate::color::named_of("antiquewhite"@) == Option::Some(Color::AntiqueWhite));
        },
        Color::Aqua => {
            reveal_strlit("aqua");
            reveal_strlit("aliceblue");
            reveal_strlit("antiquewhite");
            assert("aqua"@ != "aliceblue"@) by {
                assert("aqua"@.len() == 4);
                assert("aliceblue"@.len() == 9);
            }
            assert("aqua"@ != "antiquewhite"@) by {
                assert("aqua"@.len() == 4);
                assert("antiquewhite"@.len() == 12);
            }
            assert("aqua"@ != "hsl"@) by {
                assert("aqua"@.len() == 4);
                assert("hsl"@.len() == 3);
            }
            assert("aqua"@ != "hsla"@) by {
                assert("aqua"@[0] == 'a');
                assert("hsla"@[0] == 'h');
            }
            assert(word_shape("aqua"@));
            assert("aqua"@[0] == 'a');
            lemma_hw_round(s, 0, "aqua"@);
            assert(crate::color::named_of("aqua"@) == Option::Some(Color::Aqua));
        },
        Color::Aquamarine => {
            reveal_strlit("aquamarine");
            reveal_strlit("aliceblue");
            reveal_strlit("antiquewhite");
            reveal_strlit("aqua");
            assert("aquamarine"@ != "aliceblue"@) by {
                assert("aquamarine"@.len() == 10);
                assert("aliceblue"@.len() == 9);
            }
            assert("aquamarine"@ != "antiquewhite"@) by {
                assert("aquamarine"@.len() == 10);
                assert("antiquewhite"@.len() == 12);
            }
            assert("aquamarine"@ != "aqua"@) by {
                assert("aquamarine"@.len() == 10);
                assert("aqua"@.len() == 4);
            }
            assert("aquamarine"@ != "hsl"@) by {
                assert("aquamarine"@.len() == 10);
                assert("hsl"@.len() == 3);
            }
            assert("aquamarine"@ != "hsla"@) by {
                assert("aquamarine"@.len() == 10);
                assert("hsla"@.len() == 4);
            }
            assert(word_shape("aquamarine"@));
            assert("aquamarine"@[0] == 'a');
            lemma_hw_round(s, 0, "aquamarine"@);
            assert(crate::color::named_of("aquamarine"@) == Option::Some(Color::Aquamarine));
        },
        Color::Azure => {
            reveal_strlit("azure");
            reveal_strlit("aliceblue");
            reveal_strlit("antiquewhite");
            reveal_strlit("aqua");
            reveal_strlit("aquamarine");
            assert("azure"@ != "aliceblue"@) by {
                assert("azure"@.len() == 5);
                assert("aliceblue"@.len() == 9);
            }
            assert("azure"@ != "antiquewhite"@) by {
                assert("azure"@.len() == 5);
                assert("antiquewhite"@.len() == 12);
            }
            assert("azure"@ != "aqua"@) by {
                assert("azure"@.len() == 5);
                assert("aqua"@.len() == 4);
            }
            assert("azure"@ != "aquamarine"@) by {
                assert("azure"@.len() == 5);
                assert("aquamarine"@.len() == 10);
            }
            assert("azure"@ != "hsl"@) by {
                assert("azure"@.len() == 5);
                assert("hsl"@.len() == 3);
            }
            assert("azure"@ != "hsla"@) by {
                assert("azure"@.len() == 5);
                assert("hsla"@.len() == 4);
            }
            assert(word_shape("azure"@));
            assert("azure"@[0] == 'a');
            lemma_hw_round(s, 0, "azure"@);
            assert(crate::color::named_of("azure"@) == Option::Some(Color::Azure));
        },
        Color::Beige => {
            reveal_strlit("beige");
            assert("beige"@ != "hsl"@) by {
                assert("beige"@.len() == 5);
                assert("hsl"@.len() == 3);
            }
            assert("beige"@ != "hsla"@) by {
                assert("beige"@.len() == 5);
                assert("hsla"@.len() == 4);
            }
            assert(word_shape("beige"@));
            assert("beige"@[0] == 'b');
            lemma_hw_round(s, 0, "beige"@);
            assert(crate::color::named_of("beige"@) == Option::Some(Color::Beige));
        },
        Color::Bisque => {
            reveal_strlit("bisque");
            reveal_strlit("beige");
            assert("bisque"@ != "beige"@) by {
                assert("bisque"@.len() == 6);
                assert("beige"@.len() == 5);
            }
            assert("bisque"@ != "hsl"@) by {
                assert("bisque"@.len() == 6);
                assert("hsl"@.len() == 3);
            }
            assert("bisque"@ != "hsla"@) by {
                assert("bisque"@.len() == 6);
                assert("hsla"@.len() == 4);
            }
            assert(word_shape("bisque"@));
            assert("bisque"@[0] == 'b');
            lemma_hw_round(s, 0, "bisque"@);
            assert(crate::color::named_of("bisque"@) == Option::Some(Color::Bisque));
        },
        Color::Black => {
            reveal_strlit("black");
            reveal_strlit("beige");
            reveal_strlit("bisque");
            assert("black"@ != "beige"@) by {
                assert("black"@[1] == 'l');
                assert("beige"@[1] == 'e');
            }
            assert("black"@ != "bisque"@) by {
                assert("black"@.len() == 5);
                assert("bisque"@.len() == 6);
            }
            assert("black"@ != "hsl"@) by {
                assert("black"@.len() == 5);
                assert("hsl"@.len() == 3);
            }
            assert("black"@ != "hsla"@) by {
                assert("black"@.len() == 5);
                assert("hsla"@.len() == 4);
            }
            assert(word_shape("black"@));
            assert("black"@[0] == 'b');
            lemma_hw_round(s, 0, "black"@);
            assert(crate::color::named_of("black"@) == Option::Some(Color::Black));
        },
        Color::BlanchedAlmond => {
            reveal_strlit("blanchedalmond");
            reveal_strlit("beige");
            reveal_strlit("bisque");
            reveal_strlit("black");
            assert("blanchedalmond"@ != "beige"@) by {
                assert("blanchedalmond"@.len() == 14);
                assert("beige"@.len() == 5);
            }
            assert("blanchedalmond"@ != "bisque"@) by {
                assert("blanchedalmond"@.len() == 14);
                assert("bisque"@.len() == 6);
            }
            assert("blanchedalmond"@ != "black"@) by {
                assert("blanchedalmond"@.len() == 14);
                assert("black"@.len() == 5);
            }
            assert("blanchedalmond"@ != "hsl"@) by {
                assert("blanchedalmond"@.len() == 14);
                assert("hsl"@.len() == 3);
            }
            assert("blanchedalmond"@ != "hsla"@) by {
                assert("blanchedalmond"@.len() == 14);
                assert("hsla"@.len() == 4);
            }
            assert(word_shape("blanchedalmond"@));
            assert("blanchedalmond"@[0] == 'b');
            lemma_hw_round(s, 0, "blanchedalmond"@);
            assert(crate::color::named_of("blanchedalmond"@) == Option::Some(Color::BlanchedAlmond));
        },
        Color::Blue => {
            reveal_strlit("blue");
            reveal_strlit("beige");
            reveal_strlit("bisque");
            reveal_strlit("black");
            reveal_strlit("blanchedalmond");
            assert("blue"@ != "beige"@) by {
                assert("blue"@.len() == 4);
                assert("beige"@.len() == 5);
            }
            assert("blue"@ != "bisque"@) by {
                assert("blue"@.len() == 4);
                assert("bisque"@.len() == 6);
            }
            assert("blue"@ != "black"@) by {
                assert("blue"@.len() == 4);
                assert("black"@.len() == 5);
            }
            assert("blue"@ != "blanchedalmond"@) by {
                assert("blue"@.len() == 4);
                assert("blanchedalmond"@.len() == 14);
            }
            assert("blue"@ != "hsl"@) by {
                assert("blue"@.len() == 4);
                assert("hsl"@.len() == 3);
            }
            assert("blue"@ != "hsla"@) by {
                assert("blue"@[0] == 'b');
                assert("hsla"@[0] == 'h');
            }
            assert(word_shape("blue"@));
            assert("blue"@[0] == 'b');
            lemma_hw_round(s, 0, "blue"@);
            assert(crate::color::named_of("blue"@) == Option::Some(Color::Blue));
        },
        Color::BlueViolet => {
            reveal_strlit("blueviolet");
            reveal_strlit("beige");
            reveal_strlit("bisque");
            reveal_strlit("black");
            reveal_strlit("blanchedalmond");
            reveal_strlit("blue");
            assert("blueviolet"@ != "beige"@) by {
                assert("blueviolet"@.len() == 10);
                assert("beige"@.len() == 5);
            }
            assert("blueviolet"@ != "bisque"@) by {
                assert("blueviolet"@.len() == 10);
                assert("bisque"@.len() == 6);
            }
            assert("blueviolet"@ != "black"@) by {
                assert("blueviolet"@.len() == 10);
                assert("black"@.len() == 5);
            }
            assert("blueviolet"@ != "blanchedalmond"@) by {
                assert("blueviolet"@.len() == 10);
                assert("blanchedalmond"@.len() == 14);
            }
            assert("blueviolet"@ != "blue"@) by {
                assert("blueviolet"@.len() == 10);
                assert("blue"@.len() == 4);
            }
            assert("blueviolet"@ != "hsl"@) by {
                assert("blueviolet"@.len() == 10);
                assert("hsl"@.len() == 3);
            }
            assert("blueviolet"@ != "hsla"@) by {
                assert("blueviolet"@.len() == 10);
                assert("hsla"@.len() == 4);
            }
            assert(word_shape("blueviolet"@));
            assert("blueviolet"@[0] == 'b');
            lemma_hw_round(s, 0, "blueviolet"@);
            assert(crate::color::named_of("blueviolet"@) == Option::Some(Color::BlueViolet));
        },
        Color::Brown => {
            reveal_strlit("brown");
            reveal_strlit("beige");
            reveal_strlit("bisque");
            reveal_strlit("black");
            reveal_strlit("blanchedalmond");
            reveal_strlit("blue");
            reveal_strlit("blueviolet");
            assert("brown"@ != "beige"@) by {
                assert("brown"@[1] == 'r');
                assert("beige"@[1] == 'e');
            }
            assert("brown"@ != "bisque"@) by {
                assert("brown"@.len() == 5);
                assert("bisque"@.len() == 6);
            }
            assert("brown"@ != "black"@) by {
                assert("brown"@[1] == 'r');
                assert("black"@[1] == 'l');
            }
            assert("brown"@ != "blanchedalmond"@) by {
                assert("brown"@.len() == 5);
                assert("blanchedalmond"@.len() == 14);
            }
            assert("brown"@ != "blue"@) by {
                assert("brown"@.len() == 5);
                assert("blue"@.len() == 4);
            }
            assert("brown"@ != "blueviolet"@) by {
                assert("brown"@.len() == 5);
                assert("blueviolet"@.len() == 10);
            }
            assert("brown"@ != "hsl"@) by {
                assert("brown"@.len() == 5);
                assert("hsl"@.len() == 3);
            }
            assert("brown"@ != "hsla"@) by {
                assert("brown"@.len() == 5);
                assert("hsla"@.len() == 4);
            }
            assert(word_shape("brown"@));
            assert("brown"@[0] == 'b');
            lemma_hw_round(s, 0, "brown"@);
            assert(crate::color::named_of("brown"@) == Option::Some(Color::Brown));
        },
        Color::BurlyWood => {
            reveal_strlit("burlywood");
            reveal_strlit("beige");
            reveal_strlit("bisque");
            reveal_strlit("black");
            reveal_strlit("blanchedalmond");
            reveal_strlit("blue");
            reveal_strlit("blueviolet");
            reveal_strlit("brown");
            assert("burlywood"@ != "beige"@) by {
                assert("burlywood"@.len() == 9);
                assert("beige"@.len() == 5);
            }
            assert("burlywood"@ != "bisque"@) by {
                assert("burlywood"@.len() == 9);
                assert("bisque"@.len() == 6);
            }
            assert("burlywood"@ != "black"@) by {
                assert("burlywood"@.len() == 9);
                assert("black"@.len() == 5);
            }
            assert("burlywood"@ != "blanchedalmond"@) by {
                assert("burlywood"@.len() == 9);
                assert("blanchedalmond"@.len() == 14);
            }
            assert("burlywood"@ != "blue"@) by {
                assert("burlywood"@.len() == 9);
                assert("blue"@.len() == 4);
            }
            assert("burlywood"@ != "blueviolet"@) by {
                assert("burlywood"@.len() == 9);
                assert("blueviolet"@.len() == 10);
            }
            assert("burlywood"@ != "brown"@) by {
                assert("burlywood"@.len() == 9);
                assert("brown"@.len() == 5);
            }
            assert("burlywood"@ != "hsl"@) by {
                assert("burlywood"@.len() == 9);
                assert("hsl"@.len() == 3);
            }
            assert("burlywood"@ != "hsla"@) by {
                assert("burlywood"@.len() == 9);
                assert("hsla"@.len() == 4);
            }
            assert(word_shape("burlywood"@));
            assert("burlywood"@[0] == 'b');
            lemma_hw_round(s, 0, "burlywood"@);
            assert(crate::color::named_of("burlywood"@) == Option::Some(Color::BurlyWood));
        },
        Color::CadetBlue => {
            reveal_strlit("cadetblue");
            assert("cadetblue"@ != "hsl"@) by {
                assert("cadetblue"@.len() == 9);
                assert("hsl"@.len() == 3);
            }
            assert("cadetblue"@ != "hsla"@) by {
                assert("cadetblue"@.len() == 9);
                assert("hsla"@.len() == 4);
            }
            assert(word_shape("cadetblue"@));
            assert("cadetblue"@[0] == 'c');
            lemma_hw_round(s, 0, "cadetblue"@);
            assert(crate::color::named_of("cadetblue"@) == Option::Some(Color::CadetBlue));
        },
        Color::Chartreuse => {
            reveal_strlit("chartreuse");
            reveal_strlit("cadetblue");
            assert("chartreuse"@ != "cadetblue"@) by {
                assert("chartreuse"@.len() == 10);
                assert("cadetblue"@.len() == 9);
            }
            assert("chartreuse"@ != "hsl"@) by {
                assert("chartreuse"@.len() == 10);
                assert("hsl"@.len() == 3);
            }
            assert("chartreuse"@ != "hsla"@) by {
                assert("chartreuse"@.len() == 10);
                assert("hsla"@.len() == 4);
            }
            assert(word_shape("chartreuse"@));
            assert("chartreuse"@[0] == 'c');
            lemma_hw_round(s, 0, "chartreuse"@);
            assert(crate::color::named_of("chartreuse"@) == Option::Some(Color::Chartreuse));
        },
        Color::Chocolate => {
            reveal_strlit("chocolate");
            reveal_strlit("cadetblue");
            reveal_strlit("chartreuse");
            assert("chocolate"@ != "cadetblue"@) by {
                assert("chocolate"@[1] == 'h');
                assert("cadetblue"@[1] == 'a');
            }
            assert("chocolate"@ != "chartreuse"@) by {
                assert("chocolate"@.len() == 9);
                assert("chartreuse"@.len() == 10);
            }
            assert("chocolate"@ != "hsl"@) by {
                assert("chocolate"@.len() == 9);
                assert("hsl"@.len() == 3);
            }
            assert("chocolate"@ != "hsla"@) by {
                assert("chocolate"@.len() == 9);
                assert("hsla"@.len() == 4);
            }
            assert(word_shape("chocolate"@));
            assert("chocolate"@[0] == 'c');
            lemma_hw_round(s, 0, "chocolate"@);
            assert(crate::color::named_of("chocolate"@) == Option::Some(Color::Chocolate));
        },
        Color::Coral => {
            reveal_strlit("coral");
            reveal_strlit("cadetblue");
            reveal_strlit("chartreuse");
            reveal_strlit("chocolate");
            assert("coral"@ != "cadetblue"@) by {
                assert("coral"@.len() == 5);
                assert("cadetblue"@.len() == 9);
            }
            assert("coral"@ != "chartreuse"@) by {
                assert("coral"@.len() == 5);
                assert("chartreuse"@.len() == 10);
            }
            assert("coral"@ != "chocolate"@) by {
                assert("coral"@.len() == 5);
                assert("chocolate"@.len() == 9);
            }
            assert("coral"@ != "hsl"@) by {
                assert("coral"@.len() == 5);
                assert("hsl"@.len() == 3);
            }
            assert("coral"@ != "hsla"@) by {
                assert("coral"@.len() == 5);
                assert("hsla"@.len() == 4);
            }
            assert(word_shape("coral"@));
            assert("coral"@[0] == 'c');
            lemma_hw_round(s, 0, "coral"@);
            assert(crate::color::named_of("coral"@) == Option::Some(Color::Coral));
        },
        Color::CornflowerBlue => {
            reveal_strlit("cornflowerblue");
            reveal_strlit("cadetblue");
            reveal_strlit("chartreuse");
            reveal_strlit("chocolate");
            reveal_strlit("coral");
            assert("cornflowerblue"@ != "cadetblue"@) by {
                assert("cornflowerblue"@.len() == 14);
                assert("cadetblue"@.len() == 9);
            }
            assert("cornflowerblue"@ != "chartreuse"@) by {
                assert("cornflowerblue"@.len() == 14);
                assert("chartreuse"@.len() == 10);
            }
            assert("cornflowerblue"@ != "chocolate"@) by {
                assert("cornflowerblue"@.len() == 14);
                assert("chocolate"@.len() == 9);
            }
            assert("cornflowerblue"@ != "coral"@) by {
                assert("cornflowerblue"@.len() == 14);
                assert("coral"@.len() == 5);
            }
            assert("cornflowerblue"@ != "hsl"@) by {
                assert("cornflowerblue"@.len() == 14);
                assert("hsl"@.len() == 3);
            }
            assert("cornflowerblue"@ != "hsla"@) by {
                assert("cornflowerblue"@.len() == 14);
                assert("hsla"@.len() == 4);
            }
            assert(word_shape("cornflowerblue"@));
            assert("cornflowerblue"@[0] == 'c');
            lemma_hw_round(s, 0, "cornflowerblue"@);
            assert(crate::color::named_of("cornflowerblue"@) == Option::Some(Color::CornflowerBlue));
        },
        Color::Cornsilk => {
            reveal_strlit("cornsilk");
            reveal_strlit("cadetblue");
            reveal_strlit("chartreuse");
            reveal_strlit("chocolate");
            reveal_strlit("coral");
            reveal_strlit("cornflowerblue");
            assert("cornsilk"@ != "cadetblue"@) by {
                assert("cornsilk"@.len() == 8);
                assert("cadetblue"@.len() == 9);
            }
            assert("cornsilk"@ != "chartreuse"@) by {
                assert("cornsilk"@.len() == 8);
                assert("chartreuse"@.len() == 10);
            }
            assert("cornsilk"@ != "chocolate"@) by {
                assert("cornsilk"@.len() == 8);
                assert("chocolate"@.len() == 9);
            }
            assert("cornsilk"@ != "coral"@) by {
                assert("cornsilk"@.len() == 8);
                assert("coral"@.len() == 5);
            }
            assert("cornsilk"@ != "cornflowerblue"@) by {
                assert("cornsilk"@.len() == 8);
                assert("cornflowerblue"@.len() == 14);
            }
            assert("cornsilk"@ != "hsl"@) by {
                assert("cornsilk"@.len() == 8);
                assert("hsl"@.len() == 3);
            }
            assert("cornsilk"@ != "hsla"@) by {
                assert("cornsilk"@.len() == 8);
                assert("hsla"@.len() == 4);
            }
            assert(word_shape("cornsilk"@));
            assert("cornsilk"@[0] == 'c');
            lemma_hw_round(s, 0, "cornsilk"@);
            assert(crate::color::named_of("cornsilk"@) == Option::Some(Color::Cornsilk));
        },
        Color::Crimson => {
            reveal_strlit("crimson");
            reveal_strlit("cadetblue");
            reveal_strlit("chartreuse");
            reveal_strlit("chocolate");
            reveal_strlit("coral");
            reveal_strlit("cornflowerblue");
            reveal_strlit("cornsilk");
            assert("crimson"@ != "cadetblue"@) by {
                assert("crimson"@.len() == 7);
                assert("cadetblue"@.len() == 9);
            }
            assert("crimson"@ != "chartreuse"@) by {
                assert("crimson"@.len() == 7);
                assert("chartreuse"@.len() == 10);
            }
            assert("crimson"@ != "chocolate"@) by {
                assert("crimson"@.len() == 7);
                assert("chocolate"@.len() == 9);
            }
            assert("crimson"@ != "coral"@) by {
                assert("crimson"@.len() == 7);
                assert("coral"@.len() == 5);
            }
            assert("crimson"@ != "cornflowerblue"@) by {
                assert("crimson"@.len() == 7);
                assert("cornflowerblue"@.len() == 14);
            }
            assert("crimson"@ != "cornsilk"@) by {
                assert("crimson"@.len() == 7);
                assert("cornsilk"@.len() == 8);
            }
            assert("crimson"@ != "hsl"@) by {
                assert("crimson"@.len() == 7);
                assert("hsl"@.len() == 3);
            }
            assert("crimson"@ != "hsla"@) by {
                assert("crimson"@.len() == 7);
                assert("hsla"@.len() == 4);
            }
            assert(word_shape("crimson"@));
            assert("crimson"@[0] == 'c');
            lemma_hw_round(s, 0, "crimson"@);
            assert(crate::color::named_of("crimson"@) == Option::Some(Color::Crimson));
        },
        Color::Cyan => {
            reveal_strlit("cyan");
            reveal_strlit("cadetblue");
            reveal_strlit("chartreuse");
            reveal_strlit("chocolate");
            reveal_strlit("coral");
            reveal_strlit("cornflowerblue");
            reveal_strlit("cornsilk");
            reveal_strlit("crimson");
            assert("cyan"@ != "cadetblue"@) by {
                assert("cyan"@.len() == 4);
                assert("cadetblue"@.len() == 9);
            }
            assert("cyan"@ != "chartreuse"@) by {
                assert("cyan"@.len() == 4);
                assert("chartreuse"@.len() == 10);
            }
            assert("cyan"@ != "chocolate"@) by {
                assert("cyan"@.len() == 4);
                assert("chocolate"@.len() == 9);
            }
            assert("cyan"@ != "coral"@) by {
                assert("cyan"@.len() == 4);
                assert("coral"@.len() == 5);
            }
            assert("cyan"@ != "cornflowerblue"@) by {
                assert("cyan"@.len() == 4);
                assert("cornflowerblue"@.len() == 14);
            }
            assert("cyan"@ != "cornsilk"@) by {
                assert("cyan"@.len() == 4);
                assert("cornsilk"@.len() == 8);
            }
            assert("cyan"@ != "crimson"@) by {
                assert("cyan"@.len() == 4);
                assert("crimson"@.len() == 7);
            }
            assert("cyan"@ != "hsl"@) by {
                assert("cyan"@.len() == 4);
                assert("hsl"@.len() == 3);
            }
            assert("cyan"@ != "hsla"@) by {
                assert("cyan"@[0] == 'c');
                assert("hsla"@[0] == 'h');
            }
            assert(word_shape("cyan"@));
            assert("cyan"@[0] == 'c');
            lemma_hw_round(s, 0, "cyan"@);
            assert(crate::color::named_of("cyan"@) == Option::Some(Color::Cyan));
        },
        Color::DarkBlue => {
            reveal_strlit("darkblue");
            assert("darkblue"@ != "hsl"@) by {
                assert("darkblue"@.len() == 8);
                assert("hsl"@.len() == 3);
            }
            assert("darkblue"@ != "hsla"@) by {
                assert("darkblue"@.len() == 8);
                assert("hsla"@.len() == 4);
            }
            assert(word_shape("darkblue"@));
            assert("darkblue"@[0] == 'd');
            lemma_hw_round(s, 0, "darkblue"@);
            assert(crate::color::named_of("darkblue"@) == Option::Some(Color::DarkBlue));
        },
        Color::DarkCyan => {
            reveal_strlit("darkcyan");
            reveal_strlit("darkblue");
            assert("darkcyan"@ != "darkblue"@) by {
                assert("darkcyan"@[4] == 'c');
                assert("darkblue"@[4] == 'b');
            }
            assert("darkcyan"@ != "hsl"@) by {
                assert("darkcyan"@.len() == 8);
                assert("hsl"@.len() == 3);
            }
            assert("darkcyan"@ != "hsla"@) by {
                assert("darkcyan"@.len() == 8);
                assert("hsla"@.len() == 4);
            }
            assert(word_shape("darkcyan"@));
            assert("darkcyan"@[0] == 'd');
            lemma_hw_round(s, 0, "darkcyan"@);
            assert(crate::color::named_of("darkcyan"@) == Option::Some(Color::DarkCyan));
        },
        Color::DarkGoldenrod => {
            reveal_strlit("darkgoldenrod");
            reveal_strlit("darkblue");
            reveal_strlit("darkcyan");
            assert("darkgoldenrod"@ != "darkblue"@) by {
                assert("darkgoldenrod"@.len() == 13);
                assert("darkblue"@.len() == 8);
            }
            assert("darkgoldenrod"@ != "darkcyan"@) by {
                assert("darkgoldenrod"@.len() == 13);
                assert("darkcyan"@.len() == 8);
            }
            assert("darkgoldenrod"@ != "hsl"@) by {
                assert("darkgoldenrod"@.len() == 13);
                assert("hsl"@.len() == 3);
            }
            assert("darkgoldenrod"@ != "hsla"@) by {
                assert("darkgoldenrod"@.len() == 13);
                assert("hsla"@.len() == 4);
            }
            assert(word_shape("darkgoldenrod"@));
            assert("darkgoldenrod"@[0] == 'd');
            lemma_hw_round(s, 0, "darkgoldenrod"@);
            assert(crate::color::named_of("darkgoldenrod"@) == Option::Some(Color::DarkGoldenrod));
        },
        Color::DarkGray => {
            reveal_strlit("darkgray");
            reveal_strlit("darkblue");
            reveal_strlit("darkcyan");
            reveal_strlit("darkgoldenrod");
            assert("darkgray"@ != "darkblue"@) by {
                assert("darkgray"@[4] == 'g');
                assert("darkblue"@[4] == 'b');
            }
            assert("darkgray"@ != "darkcyan"@) by {
                assert("darkgray"@[4] == 'g');
                assert("darkcyan"@[4] == 'c');
            }
            assert("darkgray"@ != "darkgoldenrod"@) by {
                assert("darkgray"@.len() == 8);
                assert("darkgoldenrod"@.len() == 13);
            }
            assert("darkgray"@ != "hsl"@) by {
                assert("darkgray"@.len() == 8);
                assert("hsl"@.len() == 3);
            }
            assert("darkgray"@ != "hsla"@) by {
                assert("darkgray"@.len() == 8);
                assert("hsla"@.len() == 4);
            }
            assert(word_shape("darkgray"@));
            assert("darkgray"@[0] == 'd');
            lemma_hw_round(s, 0, "darkgray"@);
            assert(crate::color::named_of("darkgray"@) == Option::Some(Color::DarkGray));
        },
        Color::DarkGreen => {
            reveal_strlit("darkgreen");
            reveal_strlit("darkblue");
            reveal_strlit("darkcyan");
            reveal_strlit("darkgoldenrod");
            reveal_strlit("darkgray");
            assert("darkgreen"@ != "darkblue"@) by {
                assert("darkgreen"@.len() == 9);
                assert("darkblue"@.len() == 8);
            }
            assert("darkgreen"@ != "darkcyan"@) by {
                assert("darkgreen"@.len() == 9);
                assert("darkcyan"@.len() == 8);
            }
            assert("darkgreen"@ != "darkgoldenrod"@) by {
                assert("darkgreen"@.len() == 9);
                assert("darkgoldenrod"@.len() == 13);
            }
            assert("darkgreen"@ != "darkgray"@) by {
                assert("darkgreen"@.len() == 9);
                assert("darkgray"@.len() == 8);
            }
            assert("darkgreen"@ != "hsl"@) by {
                assert("darkgreen"@.len() == 9);
                assert("hsl"@.len() == 3);
            }
            assert("darkgreen"@ != "hsla"@) by {
                assert("darkgreen"@.len() == 9);
                assert("hsla"@.len() == 4);
            }
            assert(word_shape("darkgreen"@));
            assert("darkgreen"@[0] == 'd');
            lemma_hw_round(s, 0, "darkgreen"@);
            assert(crate::color::named_of("darkgreen"@) == Option::Some(Color::DarkGreen));
        },
        Color::DarkGrey => {
            reveal_strlit("darkgrey");
            reveal_strlit("darkblue");
            reveal_strlit("darkcyan");
            reveal_strlit("darkgoldenrod");
            reveal_strlit("darkgray");
            reveal_strlit("darkgreen");
            assert("darkgrey"@ != "darkblue"@) by {
                assert("darkgrey"@[4] == 'g');
                assert("darkblue"@[4] == 'b');
            }
            assert("darkgrey"@ != "darkcyan"@) by {
                assert("darkgrey"@[4] == 'g');
                assert("darkcyan"@[4] == 'c');
            }
            assert("darkgrey"@ != "darkgoldenrod"@) by {
                assert("darkgrey"@.len() == 8);
                assert("darkgoldenrod"@.len() == 13);
            }
            assert("darkgrey"@ != "darkgray"@) by {
                assert("darkgrey"@[6] == 'e');
                assert("darkgray"@[6] == 'a');
            }
            assert("darkgrey"@ != "darkgreen"@) by {
                assert("darkgrey"@.len() == 8);
                assert("darkgreen"@.len() == 9);
            }
            assert("darkgrey"@ != "hsl"@) by {
                assert("darkgrey"@.len() == 8);
                assert("hsl"@.len() == 3);
            }
            assert("darkgrey"@ != "hsla"@) by {
                assert("darkgrey"@.len() == 8);
                assert("hsla"@.len() == 4);
            }
            assert(word_shape("darkgrey"@));
            assert("darkgrey"@[0] == 'd');
            lemma_hw_round(s, 0, "darkgrey"@);
            assert(crate::color::named_of("darkgrey"@) == Option::Some(Color::DarkGrey));
        },
        Color::DarkKhaki => {
            reveal_strlit("darkkhaki");
            reveal_strlit("darkblue");
            reveal_strlit("darkcyan");
            reveal_strlit("darkgoldenrod");
            reveal_strlit("darkgray");
            reveal_strlit("darkgreen");
            reveal_strlit("darkgrey");
            assert("darkkhaki"@ != "darkblue"@) by {
                assert("darkkhaki"@.len() == 9);
                assert("darkblue"@.len() == 8);
            }
            assert("darkkhaki"@ != "darkcyan"@) by {
                assert("darkkhaki"@.len() == 9);
                assert("darkcyan"@.len() == 8);
            }
            assert("darkkhaki"@ != "darkgoldenrod"@) by {
                assert("darkkhaki"@.len() == 9);
                assert("darkgoldenrod"@.len() == 13);
            }
            assert("darkkhaki"@ != "darkgray"@) by {
                assert("darkkhaki"@.len() == 9);
                assert("darkgray"@.len() == 8);
            }
            assert("darkkhaki"@ != "darkgreen"@) by {
                assert("darkkhaki"@[4] == 'k');
                assert("darkgreen"@[4] == 'g');
            }
            assert("darkkhaki"@ != "darkgrey"@) by {
                assert("darkkhaki"@.len() == 9);
                assert("darkgrey"@.len() == 8);
            }
            assert("darkkhaki"@ != "hsl"@) by {
                assert("darkkhaki"@.len() == 9);
                assert("hsl"@.len() == 3);
            }
            assert("darkkhaki"@ != "hsla"@) by {
                assert("darkkhaki"@.len() == 9);
                assert("hsla"@.len() == 4);
            }
            assert(word_shape("darkkhaki"@));
            assert("darkkhaki"@[0] == 'd');
            lemma_hw_round(s, 0, "darkkhaki"@);
            assert(crate::color::named_of("darkkhaki"@) == Option::Some(Color::DarkKhaki));
        },
        Color::DarkMagenta => {
            reveal_strlit("darkmagenta");
            reveal_strlit("darkblue");
            reveal_strlit("darkcyan");
            reveal_strlit("darkgoldenrod");
            reveal_strlit("darkgray");
            reveal_strlit("darkgreen");
            reveal_strlit("darkgrey");
            reveal_strlit("darkkhaki");
            assert("darkmagenta"@ != "darkblue"@) by {
                assert("darkmagenta"@.len() == 11);
                assert("darkblue"@.len() == 8);
            }
            assert("darkmagenta"@ != "darkcyan"@) by {
                assert("darkmagenta"@.len() == 11);
                assert("darkcyan"@.len() == 8);
            }
            assert("darkmagenta"@ != "darkgoldenrod"@) by {
                assert("darkmagenta"@.len() == 11);
                assert("darkgoldenrod"@.len() == 13);
            }
            assert("darkmagenta"@ != "darkgray"@) by {
                assert("darkmagenta"@.len() == 11);
                assert("darkgray"@.len() == 8);
            }
            assert("darkmagenta"@ != "darkgreen"@) by {
                assert("darkmagenta"@.len() == 11);
                assert("darkgreen"@.len() == 9);
            }
            assert("darkmagenta"@ != "darkgrey"@) by {
                assert("darkmagenta"@.len() == 11);
                assert("darkgrey"@.len() == 8);
            }
            assert("darkmagenta"@ != "darkkhaki"@) by {
                assert("darkmagenta"@.len() == 11);
                assert("darkkhaki"@.len() == 9);
            }
            assert("darkmagenta"@ != "hsl"@) by {
                assert("darkmagenta"@.len() == 11);
                assert("hsl"@.len() == 3);
            }
            assert("darkmagenta"@ != "hsla"@) by {
                assert("darkmagenta"@.len() == 11);
                assert("hsla"@.len() == 4);
            }
            assert(word_shape("darkmagenta"@));
            assert("darkmagenta"@[0] == 'd');
            lemma_hw_round(s, 0, "darkmagenta"@);
            assert(crate::color::named_of("darkmagenta"@) == Option::Some(Color::DarkMagenta));
        },
        Color::DarkOliveGreen => {
            reveal_strlit("darkolivegreen");
            reveal_strlit("darkblue");
            reveal_strlit("darkcyan");
            reveal_strlit("darkgoldenrod");
            reveal_strlit("darkgray");
            reveal_strlit("darkgreen");
            reveal_strlit("darkgrey");
            reveal_strlit("darkkhaki");
            reveal_strlit("darkmagenta");
            assert("darkolivegreen"@ != "darkblue"@) by {
                assert("darkolivegreen"@.len() == 14);
                assert("darkblue"@.len() == 8);
            }
            assert("darkolivegreen"@ != "darkcyan"@) by {
                assert("darkolivegreen"@.len() == 14);
                assert("darkcyan"@.len() == 8);
            }
            assert("darkolivegreen"@ != "darkgoldenrod"@) by {
                assert("darkolivegreen"@.len() == 14);
                assert("darkgoldenrod"@.len() == 13);
            }
            assert("darkolivegreen"@ != "darkgray"@) by {
                assert("darkolivegreen"@.len() == 14);
                assert("darkgray"@.len() == 8);
            }
            assert("darkolivegreen"@ != "darkgreen"@) by {
                assert("darkolivegreen"@.len() == 14);
                assert("darkgreen"@.len() == 9);
            }
            assert("darkolivegreen"@ != "darkgrey"@) by {
                assert("darkolivegreen"@.len() == 14);
                assert("darkgrey"@.len() == 8);
            }
            assert("darkolivegreen"@ != "darkkhaki"@) by {
                assert("darkolivegreen"@.len() == 14);
                assert("darkkhaki"@.len() == 9);
            }
            assert("darkolivegreen"@ != "darkmagenta"@) by {
                assert("darkolivegreen"@.len() == 14);
                assert("darkmagenta"@.len() == 11);
            }
            assert("darkolivegreen"@ != "hsl"@) by {
                assert("darkolivegreen"@.len() == 14);
                assert("hsl"@.len() == 3);
            }
            assert("darkolivegreen"@ != "hsla"@) by {
                assert("darkolivegreen"@.len() == 14);
                assert("hsla"@.len() == 4);
            }
            assert(word_shape("darkolivegreen"@));
            assert("darkolivegreen"@[0] == 'd');
            lemma_hw_round(s, 0, "darkolivegreen"@);
            assert(crate::color::named_of("darkolivegreen"@) == Option::Some(Color::DarkOliveGreen));
        },
        Color::DarkOrange => {
            reveal_strlit("darkorange");
            reveal_strlit("darkblue");
            reveal_strlit("darkcyan");
            reveal_strlit("darkgoldenrod");
            reveal_strlit("darkgray");
            reveal_strlit("darkgreen");
            reveal_strlit("darkgrey");
            reveal_strlit("darkkhaki");
            reveal_strlit("darkmagenta");
            reveal_strlit("darkolivegreen");
            assert("darkorange"@ != "darkblue"@) by {
                assert("darkorange"@.len() == 10);
                assert("darkblue"@.len() == 8);
            }
            assert("darkorange"@ != "darkcyan"@) by {
                assert("darkorange"@.len() == 10);
                assert("darkcyan"@.len() == 8);
            }
            assert("darkorange"@ != "darkgoldenrod"@) by {
                assert("darkorange"@.len() == 10);
                assert("darkgoldenrod"@.len() == 13);
            }
            assert("darkorange"@ != "darkgray"@) by {
                assert("darkorange"@.len() == 10);
                assert("darkgray"@.len() == 8);
            }
            assert("darkorange"@ != "darkgreen"@) by {
                assert("darkorange"@.len() == 10);
                assert("darkgreen"@.len() == 9);
            }
            assert("darkorange"@ != "darkgrey"@) by {
                assert("darkorange"@.len() == 10);
                assert("darkgrey"@.len() == 8);
            }
            assert("darkorange"@ != "darkkhaki"@) by {
                assert("darkorange"@.len() == 10);
                assert("darkkhaki"@.len() == 9);
            }
            assert("darkorange"@ != "darkmagenta"@) by {
                assert("darkorange"@.len() == 10);
                assert("darkmagenta"@.len() == 11);
            }
            assert("darkorange"@ != "darkolivegreen"@) by {
                assert("darkorange"@.len() == 10);
                assert("darkolivegreen"@.len() == 14);
            }
            assert("darkorange"@ != "hsl"@) by {
                assert("darkorange"@.len() == 10);
                assert("hsl"@.len() == 3);
            }
            assert("darkorange"@ != "hsla"@) by {
                assert("darkorange"@.len() == 10);
                assert("hsla"@.len() == 4);
            }
            assert(word_shape("darkorange"@));
            assert("darkorange"@[0] == 'd');
            lemma_hw_round(s, 0, "darkorange"@);
            assert(crate::color::named_of("darkorange"@) == Option::Some(Color::DarkOrange));
        },
        Color::DarkOrchid => {
            reveal_strlit("darkorchid");
            reveal_strlit("darkblue");
            reveal_strlit("darkcyan");
            reveal_strlit("darkgoldenrod");
            reveal_strlit("darkgray");
            reveal_strlit("darkgreen");
            reveal_strlit("darkgrey");
            reveal_strlit("darkkhaki");
            reveal_strlit("darkmagenta");
            reveal_strlit("darkolivegreen");
            reveal_strlit("darkorange");
            assert("darkorchid"@ != "darkblue"@) by {
                assert("darkorchid"@.len() == 10);
                assert("darkblue"@.len() == 8);
            }
            assert("darkorchid"@ != "darkcyan"@) by {
                assert("darkorchid"@.len() == 10);
                assert("darkcyan"@.len() == 8);
            }
            assert("darkorchid"@ != "darkgoldenrod"@) by {
                assert("darkorchid"@.len() == 10);
                assert("darkgoldenrod"@.len() == 13);
            }
            assert("darkorchid"@ != "darkgray"@) by {
                assert("darkorchid"@.len() == 10);
                assert("darkgray"@.len() == 8);
            }
            assert("darkorchid"@ != "darkgreen"@) by {
                assert("darkorchid"@.len() == 10);
                assert("darkgreen"@.len() == 9);
            }
            assert("darkorchid"@ != "darkgrey"@) by {
                assert("darkorchid"@.len() == 10);
                assert("darkgrey"@.len() == 8);
            }
            assert("darkorchid"@ != "darkkhaki"@) by {
                assert("darkorchid"@.len() == 10);
                assert("darkkhaki"@.len() == 9);
            }
            assert("darkorchid"@ != "darkmagenta"@) by {
                assert("darkorchid"@.len() == 10);
                assert("darkmagenta"@.len() == 11);
            }
            assert("darkorchid"@ != "darkolivegreen"@) by {
                assert("darkorchid"@.len() == 10);
                assert("darkolivegreen"@.len() == 14);
            }
            assert("darkorchid"@ != "darkorange"@) by {
                assert("darkorchid"@[6] == 'c');
                assert("darkorange"@[6] == 'a');
            }
            assert("darkorchid"@ != "hsl"@) by {
                assert("darkorchid"@.len() == 10);
                assert("hsl"@.len() == 3);
            }
            assert("darkorchid"@ != "hsla"@) by {
                assert("darkorchid"@.len() == 10);
                assert("hsla"@.len() == 4);
            }
            assert(word_shape("darkorchid"@));
            assert("darkorchid"@[0] == 'd');
            lemma_hw_round(s, 0, "darkorchid"@);
            assert(crate::color::named_of("darkorchid"@) == Option::Some(Color::DarkOrchid));
        },
        Color::DarkRed => {
            reveal_strlit("darkred");
            reveal_strlit("darkblue");
            reveal_strlit("darkcyan");
            reveal_strlit("darkgoldenrod");
            reveal_strlit("darkgray");
            reveal_strlit("darkgreen");
            reveal_strlit("darkgrey");
            reveal_strlit("darkkhaki");
            reveal_strlit("darkmagenta");
            reveal_strlit("darkolivegreen");
            reveal_strlit("darkorange");
            reveal_strlit("darkorchid");
            assert("darkred"@ != "darkblue"@) by {
                assert("darkred"@.len() == 7);
                assert("darkblue"@.len() == 8);
            }
            assert("darkred"@ != "darkcyan"@) by {
                assert("darkred"@.len() == 7);
                assert("darkcyan"@.len() == 8);
            }
            assert("darkred"@ != "darkgoldenrod"@) by {
                assert("darkred"@.len() == 7);
                assert("darkgoldenrod"@.len() == 13);
            }
            assert("darkred"@ != "darkgray"@) by {
                assert("darkred"@.len() == 7);
                assert("darkgray"@.len() == 8);
            }
            assert("darkred"@ != "darkgreen"@) by {
                assert("darkred"@.len() == 7);
                assert("darkgreen"@.len() == 9);
            }
            assert("darkred"@ != "darkgrey"@) by {
                assert("darkred"@.len() == 7);
                assert("darkgrey"@.len() == 8);
            }
            assert("darkred"@ != "darkkhaki"@) by {
                assert("darkred"@.len() == 7);
                assert("darkkhaki"@.len() == 9);
            }
            assert("darkred"@ != "darkmagenta"@) by {
                assert("darkred"@.len() == 7);
                assert("darkmagenta"@.len() == 11);
            }
            assert("darkred"@ != "darkolivegreen"@) by {
                assert("darkred"@.len() == 7);
                assert("darkolivegreen"@.len() == 14);
            }
            assert("darkred"@ != "darkorange"@) by {
                assert("darkred"@.len() == 7);
                assert("darkorange"@.len() == 10);
            }
            assert("darkred"@ != "darkorchid"@) by {
                assert("darkred"@.len() == 7);
                assert("darkorchid"@.len() == 10);
            }
            assert("darkred"@ != "hsl"@) by {
                assert("darkred"@.len() == 7);
                assert("hsl"@.len() == 3);
            }
            assert("darkred"@ != "hsla"@) by {
                assert("darkred"@.len() == 7);
                assert("hsla"@.len() == 4);
            }
            assert(word_shape("darkred"@));
            assert("darkred"@[0] == 'd');
            lemma_hw_round(s, 0, "darkred"@);
            assert(crate::color::named_of("darkred"@) == Option::Some(Color::DarkRed));
        },
        Color::DarkSalmon => {
            reveal_strlit("darksalmon");
            reveal_strlit("darkblue");
            reveal_strlit("darkcyan");
            reveal_strlit("darkgoldenrod");
            reveal_strlit("darkgray");
            reveal_strlit("darkgreen");
            reveal_strlit("darkgrey");
            reveal_strlit("darkkhaki");
            reveal_strlit("darkmagenta");
            reveal_strlit("darkolivegreen");
            reveal_strlit("darkorange");
            reveal_strlit("darkorchid");
            reveal_strlit("darkred");
            assert("darksalmon"@ != "darkblue"@) by {
                assert("darksalmon"@.len() == 10);
                assert("darkblue"@.len() == 8);
            }
            assert("darksalmon"@ != "darkcyan"@) by {
                assert("darksalmon"@.len() == 10);
                assert("darkcyan"@.len() == 8);
            }
            assert("darksalmon"@ != "darkgoldenrod"@) by {
                assert("darksalmon"@.len() == 10);
                assert("darkgoldenrod"@.len() == 13);
            }
            assert("darksalmon"@ != "darkgray"@) by {
                assert("darksalmon"@.len() == 10);
                assert("darkgray"@.len() == 8);
            }
            assert("darksalmon"@ != "darkgreen"@) by {
                assert("darksalmon"@.len() == 10);
                assert("darkgreen"@.len() == 9);
            }
            assert("darksalmon"@ != "darkgrey"@) by {
                assert("darksalmon"@.len() == 10);
                assert("darkgrey"@.len() == 8);
            }
            assert("darksalmon"@ != "darkkhaki"@) by {
                assert("darksalmon"@.len() == 10);
                assert("darkkhaki"@.len() == 9);
            }
            assert("darksalmon"@ != "darkmagenta"@) by {
                assert("darksalmon"@.len() == 10);
                assert("darkmagenta"@.len() == 11);
            }
            assert("darksalmon"@ != "darkolivegreen"@) by {
                assert("darksalmon"@.len() == 10);
                assert("darkolivegreen"@.len() == 14);
            }
            assert("darksalmon"@ != "darkorange"@) by {
                assert("darksalmon"@[4] == 's');
                assert("darkorange"@[4] == 'o');
            }
            assert("darksalmon"@ != "darkorchid"@) by {
                assert("darksalmon"@[4] == 's');
                assert("darkorchid"@[4] == 'o');
            }
            assert("darksalmon"@ != "darkred"@) by {
                assert("darksalmon"@.len() == 10);
                assert("darkred"@.len() == 7);
            }
            assert("darksalmon"@ != "hsl"@) by {
                assert("darksalmon"@.len() == 10);
                assert("hsl"@.len() == 3);
            }
            assert("darksalmon"@ != "hsla"@) by {
                assert("darksalmon"@.len() == 10);
                assert("hsla"@.len() == 4);
            }
            assert(word_shape("darksalmon"@));
            assert("darksalmon"@[0] == 'd');
            lemma_hw_round(s, 0, "darksalmon"@);
            assert(crate::color::named_of("darksalmon"@) == Option::Some(Color::DarkSalmon));
        },
        Color::DarkSeaGreen => {
            reveal_strlit("darkseagreen");
            reveal_strlit("darkblue");
            reveal_strlit("darkcyan");
            reveal_strlit("darkgoldenrod");
            reveal_strlit("darkgray");
            reveal_strlit("darkgreen");
            reveal_strlit("darkgrey");
            reveal_strlit("darkkhaki");
            reveal_strlit("darkmagenta");
            reveal_strlit("darkolivegreen");
            reveal_strlit("darkorange");
            reveal_strlit("darkorchid");
            reveal_strlit("darkred");
            reveal_strlit("darksalmon");
            assert("darkseagreen"@ != "darkblue"@) by {
                assert("darkseagreen"@.len() == 12);
                assert("darkblue"@.len() == 8);
            }
            assert("darkseagreen"@ != "darkcyan"@) by {
                assert("darkseagreen"@.len() == 12);
                assert("darkcyan"@.len() == 8);
            }
            assert("darkseagreen"@ != "darkgoldenrod"@) by {
                assert("darkseagreen"@.len() == 12);
                assert("darkgoldenrod"@.len() == 13);
            }
            assert("darkseagreen"@ != "darkgray"@) by {
                assert("darkseagreen"@.len() == 12);
                assert("darkgray"@.len() == 8);
            }
            assert("darkseagreen"@ != "darkgreen"@) by {
                assert("darkseagreen"@.len() == 12);
                assert("darkgreen"@.len() == 9);
            }
            assert("darkseagreen"@ != "darkgrey"@) by {
                assert("darkseagreen"@.len() == 12);
                assert("darkgrey"@.len() == 8);
            }
            assert("darkseagreen"@ != "darkkhaki"@) by {
                assert("darkseagreen"@.len() == 12);
                assert("darkkhaki"@.len() == 9);
            }
            assert("darkseagreen"@ != "darkmagenta"@) by {
                assert("darkseagreen"@.len() == 12);
                assert("darkmagenta"@.len() == 11);
            }
            assert("darkseagreen"@ != "darkolivegreen"@) by {
                assert("darkseagreen"@.len() == 12);
                assert("darkolivegreen"@.len() == 14);
            }
            assert("darkseagreen"@ != "darkorange"@) by {
                assert("darkseagreen"@.len() == 12);
                assert("darkorange"@.len() == 10);
            }
            assert("darkseagreen"@ != "darkorchid"@) by {
                assert("darkseagreen"@.len() == 12);
                assert("darkorchid"@.len() == 10);
            }
            assert("darkseagreen"@ != "darkred"@) by {
                assert("darkseagreen"@.len() == 12);
                assert("darkred"@.len() == 7);
            }
            assert("darkseagreen"@ != "darksalmon"@) by {
                assert("darkseagreen"@.len() == 12);
                assert("darksalmon"@.len() == 10);
            }
            assert("darkseagreen"@ != "hsl"@) by {
                assert("darkseagreen"@.len() == 12);
                assert("hsl"@.len() == 3);
            }
            assert("darkseagreen"@ != "hsla"@) by {
                assert("darkseagreen"@.len() == 12);
                assert("hsla"@.len() == 4);
            }
            assert(word_shape("darkseagreen"@));
            assert("darkseagreen"@[0] == 'd');
            lemma_hw_round(s, 0, "darkseagreen"@);
            assert(crate::color::named_of("darkseagreen"@) == Option::Some(Color::DarkSeaGreen));
        },
        Color::DarkSlateBlue => {
            reveal_strlit("darkslateblue");
            reveal_strlit("darkblue");
            reveal_strlit("darkcyan");
            reveal_strlit("darkgoldenrod");
            reveal_strlit("darkgray");
            reveal_strlit("darkgreen");
            reveal_strlit("darkgrey");
            reveal_strlit("darkkhaki");
            reveal_strlit("darkmagenta");
            reveal_strlit("darkolivegreen");
            reveal_strlit("darkorange");
            reveal_strlit("darkorchid");
            reveal_strlit("darkred");
            reveal_strlit("darksalmon");
            reveal_strlit("darkseagreen");
            assert("darkslateblue"@ != "darkblue"@) by {
                assert("darkslateblue"@.len() == 13);
                assert("darkblue"@.len() == 8);
            }
            assert("darkslateblue"@ != "darkcyan"@) by {
                assert("darkslateblue"@.len() == 13);
                assert("darkcyan"@.len() == 8);
            }
            assert("darkslateblue"@ != "darkgoldenrod"@) by {
                assert("darkslateblue"@[4] == 's');
                assert("darkgoldenrod"@[4] == 'g');
            }
            assert("darkslateblue"@ != "darkgray"@) by {
                assert("darkslateblue"@.len() == 13);
                assert("darkgray"@.len() == 8);
            }
            assert("darkslateblue"@ != "darkgreen"@) by {
                assert("darkslateblue"@.len() == 13);
                assert("darkgreen"@.len() == 9);
            }
            assert("darkslateblue"@ != "darkgrey"@) by {
                assert("darkslateblue"@.len() == 13);
                assert("darkgrey"@.len() == 8);
            }
            assert("darkslateblue"@ != "darkkhaki"@) by {
                assert("darkslateblue"@.len() == 13);
                assert("darkkhaki"@.len() == 9);
            }
            assert("darkslateblue"@ != "darkmagenta"@) by {
                assert("darkslateblue"@.len() == 13);
                assert("darkmagenta"@.len() == 11);
            }
            assert("darkslateblue"@ != "darkolivegreen"@) by {
                assert("darkslateblue"@.len() == 13);
                assert("darkolivegreen"@.len() == 14);
            }
            assert("darkslateblue"@ != "darkorange"@) by {
                assert("darkslateblue"@.len() == 13);
                assert("darkorange"@.len() == 10);
            }
            assert("darkslateblue"@ != "darkorchid"@) by {
                assert("darkslateblue"@.len() == 13);
                assert("darkorchid"@.len() == 10);
            }
            assert("darkslateblue"@ != "darkred"@) by {
                assert("darkslateblue"@.len() == 13);
                assert("darkred"@.len() == 7);
            }
            assert("darkslateblue"@ != "darksalmon"@) by {
                assert("darkslateblue"@.len() == 13);
                assert("darksalmon"@.len() == 10);
            }
            assert("darkslateblue"@ != "darkseagreen"@) by {
                assert("darkslateblue"@.len() == 13);
                assert("darkseagreen"@.len() == 12);
            }
            assert("darkslateblue"@ != "hsl"@) by {
                assert("darkslateblue"@.len() == 13);
                assert("hsl"@.len() == 3);
            }
            assert("darkslateblue"@ != "hsla"@) by {
                assert("darkslateblue"@.len() == 13);
                assert("hsla"@.len() == 4);
            }
            assert(word_shape("darkslateblue"@));
            assert("darkslateblue"@[0] == 'd');
            lemma_hw_round(s, 0, "darkslateblue"@);
            assert(crate::color::named_of("darkslateblue"@) == Option::Some(Color::DarkSlateBlue));
        },
        Color::DarkSlateGray => {
            reveal_strlit("darkslategray");
            reveal_strlit("darkblue");
            reveal_strlit("darkcyan");
            reveal_strlit("darkgoldenrod");
            reveal_strlit("darkgray");
            reveal_strlit("darkgreen");
            reveal_strlit("darkgrey");
            reveal_strlit("darkkhaki");
            reveal_strlit("darkmagenta");
            reveal_strlit("darkolivegreen");
            reveal_strlit("darkorange");
            reveal_strlit("darkorchid");
            reveal_strlit("darkred");
            reveal_strlit("darksalmon");
            reveal_strlit("darkseagreen");
            reveal_strlit("darkslateblue");
            assert("darkslategray"@ != "darkblue"@) by {
                assert("darkslategray"@.len() == 13);
                assert("darkblue"@.len() == 8);
            }
            assert("darkslategray"@ != "darkcyan"@) by {
                assert("darkslategray"@.len() == 13);
                assert("darkcyan"@.len() == 8);
            }
            assert("darkslategray"@ != "darkgoldenrod"@) by {
                assert("darkslategray"@[4] == 's');
                assert("darkgoldenrod"@[4] == 'g');
            }
            assert("darkslategray"@ != "darkgray"@) by {
                assert("darkslategray"@.len() == 13);
                assert("darkgray"@.len() == 8);
            }
            assert("darkslategray"@ != "darkgreen"@) by {
                assert("darkslategray"@.len() == 13);
                assert("darkgreen"@.len() == 9);
            }
            assert("darkslategray"@ != "darkgrey"@) by {
                assert("darkslategray"@.len() == 13);
                assert("darkgrey"@.len() == 8);
            }
            assert("darkslategray"@ != "darkkhaki"@) by {
                assert("darkslategray"@.len() == 13);
                assert("darkkhaki"@.len() == 9);
            }
            assert("darkslategray"@ != "darkmagenta"@) by {
                assert("darkslategray"@.len() == 13);
                assert("darkmagenta"@.len() == 11);
            }
            assert("darkslategray"@ != "darkolivegreen"@) by {
                assert("darkslategray"@.len() == 13);
                assert("darkolivegreen"@.len() == 14);
            }
            assert("darkslategray"@ != "darkorange"@) by {
                assert("darkslategray"@.len() == 13);
                assert("darkorange"@.len() == 10);
            }
            assert("darkslategray"@ != "darkorchid"@) by {
                assert("darkslategray"@.len() == 13);
                assert("darkorchid"@.len() == 10);
            }
            assert("darkslategray"@ != "darkred"@) by {
                assert("darkslategray"@.len() == 13);
                assert("darkred"@.len() == 7);
            }
            assert("darkslategray"@ != "darksalmon"@) by {
                assert("darkslategray"@.len() == 13);
                assert("darksalmon"@.len() == 10);
            }
            assert("darkslategray"@ != "darkseagreen"@) by {
                assert("darkslategray"@.len() == 13);
                assert("darkseagreen"@.len() == 12);
            }
            assert("darkslategray"@ != "darkslateblue"@) by {
                assert("darkslategray"@[9] == 'g');
                assert("darkslateblue"@[9] == 'b');
            }
            assert("darkslategray"@ != "hsl"@) by {
                assert("darkslategray"@.len() == 13);
                assert("hsl"@.len() == 3);
            }
            assert("darkslategray"@ != "hsla"@) by {
                assert("darkslategray"@.len() == 13);
                assert("hsla"@.len() == 4);
            }
            assert(word_shape("darkslategray"@));
            assert("darkslategray"@[0] == 'd');
            lemma_hw_round(s, 0, "darkslategray"@);
            assert(crate::color::named_of("darkslategray"@) == Option::Some(Color::DarkSlateGray));
        },
        _ => {},
    }
}

/// Whether the color is one of this group of named colors.
pub open spec fn named_rt_group2(v: Color) -> bool {
    match v {
        Color::DarkSlateGrey | Color::DarkTurquoise | Color::DarkViolet | Color::DeepPink | Color::DeepSkyBlue | Color::DimGray | Color::DimGrey | Color::DodgerBlue | Color::FireBrick | Color::FloralWhite | Color::ForestGreen | Color::Fuchsia | Color::Gainsboro | Color::GhostWhite | Color::Gold | Color::Goldenrod | Color::Gray | Color::Green | Color::GreenYellow | Color::Grey | Color::Honeydew | Color::HotPink | Color::IndianRed | Color::Indigo | Color::Ivory | Color::Khaki | Color::Lavender | Color::LavenderBlush | Color::LawnGreen | Color::LemonChiffon | Color::LightBlue | Color::LightCoral | Color::LightCyan | Color::LightGoldenrodYellow | Color::LightGray | Color::LightGreen | Color::LightGrey => true,
        _ => false,
    }
}

#[verifier::rlimit(100)]
proof fn lemma_named_rt_group2(v: Color)
    requires
        named_rt_group2(v),
    ensures
        Color::spec_parse(v.css(), 0) == Ok::<(Color, int), crate::diag::SpecErr>(
            (v, v.css().len() as int),
        ),
{
    reveal_strlit("hsl");
    reveal_strlit("hsla");
    let s = v.css();
    assert(s.subrange(0, s.len() as int) =~= s);
    lemma_skip_ws(s, s.len() as int);
    match v {
        Color::DarkSlateGrey => {
            reveal_strlit("darkslategrey");
            reveal_strlit("darkblue");
            reveal_strlit("darkcyan");
            reveal_strlit("darkgoldenrod");
            reveal_strlit("darkgray");
            reveal_strlit("darkgreen");
            reveal_strlit("darkgrey");
            reveal_strlit("darkkhaki");
            reveal_strlit("darkmagenta");
            reveal_strlit("darkolivegreen");
            reveal_strlit("darkorange");
            reveal_strlit("darkorchid");
            reveal_strlit("darkred");
            reveal_strlit("darksalmon");
            reveal_strlit("darkseagreen");
            reveal_strlit("darkslateblue");
            reveal_strlit("darkslategray");
            assert("darkslategrey"@ != "darkblue"@) by {
                assert("darkslategrey"@.len() == 13);
                assert("darkblue"@.len() == 8);
            }
            assert("darkslategrey"@ != "darkcyan"@) by {
                assert("darkslategrey"@.len() == 13);
                assert("darkcyan"@.len() == 8);
            }
            assert("darkslategrey"@ != "darkgoldenrod"@) by {
                assert("darkslategrey"@[4] == 's');
                assert("darkgoldenrod"@[4] == 'g');
            }
            assert("darkslategrey"@ != "darkgray"@) by {
                assert("darkslategrey"@.len() == 13);
                assert("darkgray"@.len() == 8);
            }
            assert("darkslategrey"@ != "darkgreen"@) by {
                assert("darkslategrey"@.len() == 13);
                assert("darkgreen"@.len() == 9);
            }
            assert("darkslategrey"@ != "darkgrey"@) by {
                assert("darkslategrey"@.len() == 13);
                assert("darkgrey"@.len() == 8);
            }
            assert("darkslategrey"@ != "darkkhaki"@) by {
                assert("darkslategrey"@.len() == 13);
                assert("darkkhaki"@.len() == 9);
            }
            assert("darkslategrey"@ != "darkmagenta"@) by {
                assert("darkslategrey"@.len() == 13);
                assert("darkmagenta"@.len() == 11);
            }
            assert("darkslategrey"@ != "darkolivegreen"@) by {
                assert("darkslategrey"@.len() == 13);
                assert("darkolivegreen"@.len() == 14);
            }
            assert("darkslategrey"@ != "darkorange"@) by {
                assert("darkslategrey"@.len() == 13);
                assert("darkorange"@.len() == 10);
            }
            assert("darkslategrey"@ != "darkorchid"@) by {
                assert("darkslategrey"@.len() == 13);
                assert("darkorchid"@.len() == 10);
            }
            assert("darkslategrey"@ != "darkred"@) by {
                assert("darkslategrey"@.len() == 13);
                assert("darkred"@.len() == 7);
            }
            assert("darkslategrey"@ != "darksalmon"@) by {
                assert("darkslategrey"@.len() == 13);
                assert("darksalmon"@.len() == 10);
            }
            assert("darkslategrey"@ != "darkseagreen"@) by {
                assert("darkslategrey"@.len() == 13);
                assert("darkseagreen"@.len() == 12);
            }
            assert("darkslategrey"@ != "darkslateblue"@) by {
                assert("darkslategrey"@[9] == 'g');
                assert("darkslateblue"@[9] == 'b');
            }
            assert("darkslategrey"@ != "darkslategray"@) by {
                assert("darkslategrey"@[11] == 'e');
                assert("darkslategray"@[11] == 'a');
            }
            assert("darkslategrey"@ != "hsl"@) by {
                assert("darkslategrey"@.len() == 13);
                assert("hsl"@.len() == 3);
            }
            assert("darkslategrey"@ != "hsla"@) by {
                assert("darkslategrey"@.len() == 13);
                assert("hsla"@.len() == 4);
            }
            assert(word_shape("darkslategrey"@));
            assert("darkslategrey"@[0] == 'd');
            lemma_hw_round(s, 0, "darkslategrey"@);
            assert(crate::color::named_of("darkslategrey"@) == Option::Some(Color::DarkSlateGrey));
        },
        Color::DarkTurquoise => {
            reveal_strlit("darkturquoise");
            reveal_strlit("darkblue");
            reveal_strlit("darkcyan");
            reveal_strlit("darkgoldenrod");
            reveal_strlit("darkgray");
            reveal_strlit("darkgreen");
            reveal_strlit("darkgrey");
            reveal_strlit("darkkhaki");
            reveal_strlit("darkmagenta");
            reveal_strlit("darkolivegreen");
            reveal_strlit("darkorange");
            reveal_strlit("darkorchid");
            reveal_strlit("darkred");
            reveal_strlit("darksalmon");
            reveal_strlit("darkseagreen");
            reveal_strlit("darkslateblue");
            reveal_strlit("darkslategray");
            reveal_strlit("darkslategrey");
            assert("darkturquoise"@ != "darkblue"@) by {
                assert("darkturquoise"@.len() == 13);
                assert("darkblue"@.len() == 8);
            }
            assert("darkturquoise"@ != "darkcyan"@) by {
                assert("darkturquoise"@.len() == 13);
                assert("darkcyan"@.len() == 8);
            }
            assert("darkturquoise"@ != "darkgoldenrod"@) by {
                assert("darkturquoise"@[4] == 't');
                assert("darkgoldenrod"@[4] == 'g');
            }
            assert("darkturquoise"@ != "darkgray"@) by {
                assert("darkturquoise"@.len() == 13);
                assert("darkgray"@.len() == 8);
            }
            assert("darkturquoise"@ != "darkgreen"@) by {
                assert("darkturquoise"@.len() == 13);
                assert("darkgreen"@.len() == 9);
            }
            assert("darkturquoise"@ != "darkgrey"@) by {
                assert("darkturquoise"@.len() == 13);
                assert("darkgrey"@.len() == 8);
            }
            assert("darkturquoise"@ != "darkkhaki"@) by {
                assert("darkturquoise"@.len() == 13);
                assert("darkkhaki"@.len() == 9);
            }
            assert("darkturquoise"@ != "darkmagenta"@) by {
                assert("darkturquoise"@.len() == 13);
                assert("darkmagenta"@.len() == 11);
            }
            assert("darkturquoise"@ != "darkolivegreen"@) by {
                assert("darkturquoise"@.len() == 13);
                assert("darkolivegreen"@.len() == 14);
            }
            assert("darkturquoise"@ != "darkorange"@) by {
                assert("darkturquoise"@.len() == 13);
                assert("darkorange"@.len() == 10);
            }
            assert("darkturquoise"@ != "darkorchid"@) by {
                assert("darkturquoise"@.len() == 13);
                assert("darkorchid"@.len() == 10);
            }
            assert("darkturquoise"@ != "darkred"@) by {
                assert("darkturquoise"@.len() == 13);
                assert("darkred"@.len() == 7);
            }
            assert("darkturquoise"@ != "darksalmon"@) by {
                assert("darkturquoise"@.len() == 13);
                assert("darksalmon"@.len() == 10);
            }
            assert("darkturquoise"@ != "darkseagreen"@) by {
                assert("darkturquoise"@.len() == 13);
                assert("darkseagreen"@.len() == 12);
            }
            assert("darkturquoise"@ != "darkslateblue"@) by {
                assert("darkturquoise"@[4] == 't');
                assert("darkslateblue"@[4] == 's');
            }
            assert("darkturquoise"@ != "darkslategray"@) by {
                assert("darkturquoise"@[4] == 't');
                assert("darkslategray"@[4] == 's');
            }
            assert("darkturquoise"@ != "darkslategrey"@) by {
                assert("darkturquoise"@[4] == 't');
                assert("darkslategrey"@[4] == 's');
            }
            assert("darkturquoise"@ != "hsl"@) by {
                assert("darkturquoise"@.len() == 13);
                assert("hsl"@.len() == 3);
            }
            assert("darkturquoise"@ != "hsla"@) by {
                assert("darkturquoise"@.len() == 13);
                assert("hsla"@.len() == 4);
            }
            assert(word_shape("darkturquoise"@));
            assert("darkturquoise"@[0] == 'd');
            lemma_hw_round(s, 0, "darkturquoise"@);
            assert(crate::color::named_of("darkturquoise"@) == Option::Some(Color::DarkTurquoise));
        },
        Color::DarkViolet => {
            reveal_strlit("darkviolet");
            reveal_strlit("darkblue");
            reveal_strlit("darkcyan");
            reveal_strlit("darkgoldenrod");
            reveal_strlit("darkgray");
            reveal_strlit("darkgreen");
            reveal_strlit("darkgrey");
            reveal_strlit("darkkhaki");
            reveal_strlit("darkmagenta");
            reveal_strlit("darkolivegreen");
            reveal_strlit("darkorange");
            reveal_strlit("darkorchid");
            reveal_strlit("darkred");
            reveal_strlit("darksalmon");
            reveal_strlit("darkseagreen");
            reveal_strlit("darkslateblue");
            reveal_strlit("darkslategray");
            reveal_strlit("darkslategrey");
            reveal_strlit("darkturquoise");
            assert("darkviolet"@ != "darkblue"@) by {
                assert("darkviolet"@.len() == 10);
                assert("darkblue"@.len() == 8);
            }
            assert("darkviolet"@ != "darkcyan"@) by {
                assert("darkviolet"@.len() == 10);
                assert("darkcyan"@.len() == 8);
            }
            assert("darkviolet"@ != "darkgoldenrod"@) by {
                assert("darkviolet"@.len() == 10);
                assert("darkgoldenrod"@.len() == 13);
            }
            assert("darkviolet"@ != "darkgray"@) by {
                assert("darkviolet"@.len() == 10);
                assert("darkgray"@.len() == 8);
            }
            assert("darkviolet"@ != "darkgreen"@) by {
                assert("darkviolet"@.len() == 10);
                assert("darkgreen"@.len() == 9);
            }
            assert("darkviolet"@ != "darkgrey"@) by {
                assert("darkviolet"@.len() == 10);
                assert("darkgrey"@.len() == 8);
            }
            assert("darkviolet"@ != "darkkhaki"@) by {
                assert("darkviolet"@.len() == 10);
                assert("darkkhaki"@.len() == 9);
            }
            assert("darkviolet"@ != "darkmagenta"@) by {
                assert("darkviolet"@.len() == 10);
                assert("darkmagenta"@.len() == 11);
            }
            assert("darkviolet"@ != "darkolivegreen"@) by {
                assert("darkviolet"@.len() == 10);
                assert("darkolivegreen"@.len() == 14);
            }
            assert("darkviolet"@ != "darkorange"@) by {
                assert("darkviolet"@[4] == 'v');
                assert("darkorange"@[4] == 'o');
            }
            assert("darkviolet"@ != "darkorchid"@) by {
                assert("darkviolet"@[4] == 'v');
                assert("darkorchid"@[4] == 'o');
            }
            assert("darkviolet"@ != "darkred"@) by {
                assert("darkviolet"@.len() == 10);
                assert("darkred"@.len() == 7);
            }
            assert("darkviolet"@ != "darksalmon"@) by {
                assert("darkviolet"@[4] == 'v');
                assert("darksalmon"@[4] == 's');
            }
            assert("darkviolet"@ != "darkseagreen"@) by {
                assert("darkviolet"@.len() == 10);
                assert("darkseagreen"@.len() == 12);
            }
            assert("darkviolet"@ != "darkslateblue"@) by {
                assert("darkviolet"@.len() == 10);
                assert("darkslateblue"@.len() == 13);
            }
            assert("darkviolet"@ != "darkslategray"@) by {
                assert("darkviolet"@.len() == 10);
                assert("darkslategray"@.len() == 13);
            }
            assert("darkviolet"@ != "darkslategrey"@) by {
                assert("darkviolet"@.len() == 10);
                assert("darkslategrey"@.len() == 13);
            }
            assert("darkviolet"@ != "darkturquoise"@) by {
                assert("darkviolet"@.len() == 10);
                assert("darkturquoise"@.len() == 13);
            }
            assert("darkviolet"@ != "hsl"@) by {
                assert("darkviolet"@.len() == 10);
                assert("hsl"@.len() == 3);
            }
            assert("darkviolet"@ != "hsla"@) by {
                assert("darkviolet"@.len() == 10);
                assert("hsla"@.len() == 4);
            }
            assert(word_shape("darkviolet"@));
            assert("darkviolet"@[0] == 'd');
            lemma_hw_round(s, 0, "darkviolet"@);
            assert(crate::color::named_of("darkviolet"@) == Option::Some(Color::DarkViolet));
        },
        Color::DeepPink => {
            reveal_strlit("deeppink");
            reveal_strlit("darkblue");
            reveal_strlit("darkcyan");
            reveal_strlit("darkgoldenrod");
            reveal_strlit("darkgray");
            reveal_strlit("darkgreen");
            reveal_strlit("darkgrey");
            reveal_strlit("darkkhaki");
            reveal_strlit("darkmagenta");
            reveal_strlit("darkolivegreen");
            reveal_strlit("darkorange");
            reveal_strlit("darkorchid");
            reveal_strlit("darkred");
            reveal_strlit("darksalmon");
            reveal_strlit("darkseagreen");
            reveal_strlit("darkslateblue");
            reveal_strlit("darkslategray");
            reveal_strlit("darkslategrey");
            reveal_strlit("darkturquoise");
            reveal_strlit("darkviolet");
            assert("deeppink"@ != "darkblue"@) by {
                assert("deeppink"@[1] == 'e');
                assert("darkblue"@[1] == 'a');
            }
            assert("deeppink"@ != "darkcyan"@) by {
                assert("deeppink"@[1] == 'e');
                assert("darkcyan"@[1] == 'a');
            }
            assert("deeppink"@ != "darkgoldenrod"@) by {
                assert("deeppink"@.len() == 8);
                assert("darkgoldenrod"@.len() == 13);
            }
            assert("deeppink"@ != "darkgray"@) by {
                assert("deeppink"@[1] == 'e');
                assert("darkgray"@[1] == 'a');
            }
            assert("deeppink"@ != "darkgreen"@) by {
                assert("deeppink"@.len() == 8);
                assert("darkgreen"@.len() == 9);
            }
            assert("deeppink"@ != "darkgrey"@) by {
                assert("deeppink"@[1] == 'e');
                assert("darkgrey"@[1] == 'a');
            }
            assert("deeppink"@ != "darkkhaki"@) by {
                assert("deeppink"@.len() == 8);
                assert("darkkhaki"@.len() == 9);
            }
            assert("deeppink"@ != "darkmagenta"@) by {
                assert("deeppink"@.len() == 8);
                assert("darkmagenta"@.len() == 11);
            }
            assert("deeppink"@ != "darkolivegreen"@) by {
                assert("deeppink"@.len() == 8);
                assert("darkolivegreen"@.len() == 14);
            }
            assert("deeppink"@ != "darkorange"@) by {
                assert("deeppink"@.len() == 8);
                assert("darkorange"@.len() == 10);
            }
            assert("deeppink"@ != "darkorchid"@) by {
                assert("deeppink"@.len() == 8);
                assert("darkorchid"@.len() == 10);
            }
            assert("deeppink"@ != "darkred"@) by {
                assert("deeppink"@.len() == 8);
                assert("darkred"@.len() == 7);
            }
            assert("deeppink"@ != "darksalmon"@) by {
                assert("deeppink"@.len() == 8);
                assert("darksalmon"@.len() == 10);
            }
            assert("deeppink"@ != "darkseagreen"@) by {
                assert("deeppink"@.len() == 8);
                assert("darkseagreen"@.len() == 12);
            }
            assert("deeppink"@ != "darkslateblue"@) by {
                assert("deeppink"@.len() == 8);
                assert("darkslateblue"@.len() == 13);
            }
            assert("deeppink"@ != "darkslategray"@) by {
                assert("deeppink"@.len() == 8);
                assert("darkslategray"@.len() == 13);
            }
            assert("deeppink"@ != "darkslategrey"@) by {
                assert("deeppink"@.len() == 8);
                assert("darkslategrey"@.len() == 13);
            }
            assert("deeppink"@ != "darkturquoise"@) by {
                assert("deeppink"@.len() == 8);
                assert("darkturquoise"@.len() == 13);
            }
            assert("deeppink"@ != "darkviolet"@) by {
                assert("deeppink"@.len() == 8);
                assert("darkviolet"@.len() == 10);
            }
            assert("deeppink"@ != "hsl"@) by {
                assert("deeppink"@.len() == 8);
                assert("hsl"@.len() == 3);
            }
            assert("deeppink"@ != "hsla"@) by {
                assert("deeppink"@.len() == 8);
                assert("hsla"@.len() == 4);
            }
            assert(word_shape("deeppink"@));
            assert("deeppink"@[0] == 'd');
            lemma_hw_round(s, 0, "deeppink"@);
            assert(crate::color::named_of("deeppink"@) == Option::Some(Color::DeepPink));
        },
        Color::DeepSkyBlue => {
            reveal_strlit("deepskyblue");
            reveal_strlit("darkblue");
            reveal_strlit("darkcyan");
            reveal_strlit("darkgoldenrod");
            reveal_strlit("darkgray");
            reveal_strlit("darkgreen");
            reveal_strlit("darkgrey");
            reveal_strlit("darkkhaki");
            reveal_strlit("darkmagenta");
            reveal_strlit("darkolivegreen");
            reveal_strlit("darkorange");
            reveal_strlit("darkorchid");
            reveal_strlit("darkred");
            reveal_strlit("darksalmon");
            reveal_strlit("darkseagreen");
            reveal_strlit("darkslateblue");
            reveal_strlit("darkslategray");
            reveal_strlit("darkslategrey");
            reveal_strlit("darkturquoise");
            reveal_strlit("darkviolet");
            reveal_strlit("deeppink");
            assert("deepskyblue"@ != "darkblue"@) by {
                assert("deepskyblue"@.len() == 11);
                assert("darkblue"@.len() == 8);
            }
            assert("deepskyblue"@ != "darkcyan"@) by {
                assert("deepskyblue"@.len() == 11);
                assert("darkcyan"@.len() == 8);
            }
            assert("deepskyblue"@ != "darkgoldenrod"@) by {
                assert("deepskyblue"@.len() == 11);
                assert("darkgoldenrod"@.len() == 13);
            }
            assert("deepskyblue"@ != "darkgray"@) by {
                assert("deepskyblue"@.len() == 11);
                assert("darkgray"@.len() == 8);
            }
            assert("deepskyblue"@ != "darkgreen"@) by {
                assert("deepskyblue"@.len() == 11);
                assert("darkgreen"@.len() == 9);
            }
            assert("deepskyblue"@ != "darkgrey"@) by {
                assert("deepskyblue"@.len() == 11);
                assert("darkgrey"@.len() == 8);
            }
            assert("deepskyblue"@ != "darkkhaki"@) by {
                assert("deepskyblue"@.len() == 11);
                assert("darkkhaki"@.len() == 9);
            }
            assert("deepskyblue"@ != "darkmagenta"@) by {
                assert("deepskyblue"@[1] == 'e');
                assert("darkmagenta"@[1] == 'a');
            }
            assert("deepskyblue"@ != "darkolivegreen"@) by {
                assert("deepskyblue"@.len() == 11);
                assert("darkolivegreen"@.len() == 14);
            }
            assert("deepskyblue"@ != "darkorange"@) by {
                assert("deepskyblue"@.len() == 11);
                assert("darkorange"@.len() == 10);
            }
            assert("deepskyblue"@ != "darkorchid"@) by {
                assert("deepskyblue"@.len() == 11);
                assert("darkorchid"@.len() == 10);
            }
            assert("deepskyblue"@ != "darkred"@) by {
                assert("deepskyblue"@.len() == 11);
                assert("darkred"@.len() == 7);
            }
            assert("deepskyblue"@ != "darksalmon"@) by {
                assert("deepskyblue"@.len() == 11);
                assert("darksalmon"@.len() == 10);
            }
            assert("deepskyblue"@ != "darkseagreen"@) by {
                assert("deepskyblue"@.len() == 11);
                assert("darkseagreen"@.len() == 12);
            }
            assert("deepskyblue"@ != "darkslateblue"@) by {
                assert("deepskyblue"@.len() == 11);
                assert("darkslateblue"@.len() == 13);
            }
            assert("deepskyblue"@ != "darkslategray"@) by {
                assert("deepskyblue"@.len() == 11);
                assert("darkslategray"@.len() == 13);
            }
            assert("deepskyblue"@ != "darkslategrey"@) by {
                assert("deepskyblue"@.len() == 11);
                assert("darkslategrey"@.len() == 13);
            }
            assert("deepskyblue"@ != "darkturquoise"@) by {
                assert("deepskyblue"@.len() == 11);
                assert("darkturquoise"@.len() == 13);
            }
            assert("deepskyblue"@ != "darkviolet"@) by {
                assert("deepskyblue"@.len() == 11);
                assert("darkviolet"@.len() == 10);
            }
            assert("deepskyblue"@ != "deeppink"@) by {
                assert("deepskyblue"@.len() == 11);
                assert("deeppink"@.len() == 8);
            }
            assert("deepskyblue"@ != "hsl"@) by {
                assert("deepskyblue"@.len() == 11);
                assert("hsl"@.len() == 3);
            }
            assert("deepskyblue"@ != "hsla"@) by {
                assert("deepskyblue"@.len() == 11);
                assert("hsla"@.len() == 4);
            }
            assert(word_shape("deepskyblue"@));
            assert("deepskyblue"@[0] == 'd');
            lemma_hw_round(s, 0, "deepskyblue"@);
            assert(crate::color::named_of("deepskyblue"@) == Option::Some(Color::DeepSkyBlue));
        },
        Color::DimGray => {
            reveal_strlit("dimgray");
            reveal_strlit("darkblue");
            reveal_strlit("darkcyan");
            reveal_strlit("darkgoldenrod");
            reveal_strlit("darkgray");
            reveal_strlit("darkgreen");
            reveal_strlit("darkgrey");
            reveal_strlit("darkkhaki");
            reveal_strlit("darkmagenta");
            reveal_strlit("darkolivegreen");
            reveal_strlit("darkorange");
            reveal_strlit("darkorchid");
            reveal_strlit("darkred");
            reveal_strlit("darksalmon");
            reveal_strlit("darkseagreen");
            reveal_strlit("darkslateblue");
            reveal_strlit("darkslategray");
            reveal_strlit("darkslategrey");
            reveal_strlit("darkturquoise");
            reveal_strlit("darkviolet");
            reveal_strlit("deeppink");
            reveal_strlit("deepskyblue");
            assert("dimgray"@ != "darkblue"@) by {
                assert("dimgray"@.len() == 7);
                assert("darkblue"@.len() == 8);
            }
            assert("dimgray"@ != "darkcyan"@) by {
                assert("dimgray"@.len() == 7);
                assert("darkcyan"@.len() == 8);
            }
            assert("dimgray"@ != "darkgoldenrod"@) by {
                assert("dimgray"@.len() == 7);
                assert("darkgoldenrod"@.len() == 13);
            }
            assert("dimgray"@ != "darkgray"@) by {
                assert("dimgray"@.len() == 7);
                assert("darkgray"@.len() == 8);
            }
            assert("dimgray"@ != "darkgreen"@) by {
                assert("dimgray"@.len() == 7);
                assert("darkgreen"@.len() == 9);
            }
            assert("dimgray"@ != "darkgrey"@) by {
                assert("dimgray"@.len() == 7);
                assert("darkgrey"@.len() == 8);
            }
            assert("dimgray"@ != "darkkhaki"@) by {
                assert("dimgray"@.len() == 7);
                assert("darkkhaki"@.len() == 9);
            }
            assert("dimgray"@ != "darkmagenta"@) by {
                assert("dimgray"@.len() == 7);
                assert("darkmagenta"@.len() == 11);
            }
            assert("dimgray"@ != "darkolivegreen"@) by {
                assert("dimgray"@.len() == 7);
                assert("darkolivegreen"@.len() == 14);
            }
            assert("dimgray"@ != "darkorange"@) by {
                assert("dimgray"@.len() == 7);
                assert("darkorange"@.len() == 10);
            }
            assert("dimgray"@ != "darkorchid"@) by {
                assert("dimgray"@.len() == 7);
                assert("darkorchid"@.len() == 10);
            }
            assert("dimgray"@ != "darkred"@) by {
                assert("dimgray"@[1] == 'i');
                assert("darkred"@[1] == 'a');
            }
            assert("dimgray"@ != "darksalmon"@) by {
                assert("dimgray"@.len() == 7);
                assert("darksalmon"@.len() == 10);
            }
            assert("dimgray"@ != "darkseagreen"@) by {
                assert("dimgray"@.len() == 7);
                assert("darkseagreen"@.len() == 12);
            }
            assert("dimgray"@ != "darkslateblue"@) by {
                assert("dimgray"@.len() == 7);
                assert("darkslateblue"@.len() == 13);
            }
            assert("dimgray"@ != "darkslategray"@) by {
                assert("dimgray"@.len() == 7);
                assert("darkslategray"@.len() == 13);
            }
            assert("dimgray"@ != "darkslategrey"@) by {
                assert("dimgray"@.len() == 7);
                assert("darkslategrey"@.len() == 13);
            }
            assert("dimgray"@ != "darkturquoise"@) by {
                assert("dimgray"@.len() == 7);
                assert("darkturquoise"@.len() == 13);
            }
            assert("dimgray"@ != "darkviolet"@) by {
                assert("dimgray"@.len() == 7);
                assert("darkviolet"@.len() == 10);
            }
            assert("dimgray"@ != "deeppink"@) by {
                assert("dimgray"@.len() == 7);
                assert("deeppink"@.len() == 8);
            }
            assert("dimgray"@ != "deepskyblue"@) by {
                assert("dimgray"@.len() == 7);
                assert("deepskyblue"@.len() == 11);
            }
            assert("dimgray"@ != "hsl"@) by {
                assert("dimgray"@.len() == 7);
                assert("hsl"@.len() == 3);
            }
            assert("dimgray"@ != "hsla"@) by {
                assert("dimgray"@.len() == 7);
                assert("hsla"@.len() == 4);
            }
            assert(word_shape("dimgray"@));
            assert("dimgray"@[0] == 'd');
            lemma_hw_round(s, 0, "dimgray"@);
            assert(crate::color::named_of("dimgray"@) == Option::Some(Color::DimGray));
        },
        Color::DimGrey => {
            reveal_strlit("dimgrey");
            reveal_strlit("darkblue");
            reveal_strlit("darkcyan");
            reveal_strlit("darkgoldenrod");
            reveal_strlit("darkgray");
            reveal_strlit("darkgreen");
            reveal_strlit("darkgrey");
            reveal_strlit("darkkhaki");
            reveal_strlit("darkmagenta");
            reveal_strlit("darkolivegreen");
            reveal_strlit("darkorange");
            reveal_strlit("darkorchid");
            reveal_strlit("darkred");
            reveal_strlit("darksalmon");
            reveal_strlit("darkseagreen");
            reveal_strlit("darkslateblue");
            reveal_strlit("darkslategray");
            reveal_strlit("darkslategrey");
            reveal_strlit("darkturquoise");
            reveal_strlit("darkviolet");
            reveal_strlit("deeppink");
            reveal_strlit("deepskyblue");
            reveal_strlit("dimgray");
            assert("dimgrey"@ != "darkblue"@) by {
                assert("dimgrey"@.len() == 7);
                assert("darkblue"@.len() == 8);
            }
            assert("dimgrey"@ != "darkcyan"@) by {
                assert("dimgrey"@.len() == 7);
                assert("darkcyan"@.len() == 8);
            }
            assert("dimgrey"@ != "darkgoldenrod"@) by {
                assert("dimgrey"@.len() == 7);
                assert("darkgoldenrod"@.len() == 13);
            }
            assert("dimgrey"@ != "darkgray"@) by {
                assert("dimgrey"@.len() == 7);
                assert("darkgray"@.len() == 8);
            }
            assert("dimgrey"@ != "darkgreen"@) by {
                assert("dimgrey"@.len() == 7);
                assert("darkgreen"@.len() == 9);
            }
            assert("dimgrey"@ != "darkgrey"@) by {
                assert("dimgrey"@.len() == 7);
                assert("darkgrey"@.len() == 8);
            }
            assert("dimgrey"@ != "darkkhaki"@) by {
                assert("dimgrey"@.len() == 7);
                assert("darkkhaki"@.len() == 9);
            }
            assert("dimgrey"@ != "darkmagenta"@) by {
                assert("dimgrey"@.len() == 7);
                assert("darkmagenta"@.len() == 11);
            }
            assert("dimgrey"@ != "darkolivegreen"@) by {
                assert("dimgrey"@.len() == 7);
                assert("darkolivegreen"@.len() == 14);
            }
            assert("dimgrey"@ != "darkorange"@) by {
                assert("dimgrey"@.len() == 7);
                assert("darkorange"@.len() == 10);
            }
            assert("dimgrey"@ != "darkorchid"@) by {
                assert("dimgrey"@.len() == 7);
                assert("darkorchid"@.len() == 10);
            }
            assert("dimgrey"@ != "darkred"@) by {
                assert("dimgrey"@[1] == 'i');
                assert("darkred"@[1] == 'a');
            }
            assert("dimgrey"@ != "darksalmon"@) by {
                assert("dimgrey"@.len() == 7);
                assert("darksalmon"@.len() == 10);
            }
            assert("dimgrey"@ != "darkseagreen"@) by {
                assert("dimgrey"@.len() == 7);
                assert("darkseagreen"@.len() == 12);
            }
            assert("dimgrey"@ != "darkslateblue"@) by {
                assert("dimgrey"@.len() == 7);
                assert("darkslateblue"@.len() == 13);
            }
            assert("dimgrey"@ != "darkslategray"@) by {
                assert("dimgrey"@.len() == 7);
                assert("darkslategray"@.len() == 13);
            }
            assert("dimgrey"@ != "darkslategrey"@) by {
                assert("dimgrey"@.len() == 7);
                assert("darkslategrey"@.len() == 13);
            }
            assert("dimgrey"@ != "darkturquoise"@) by {
                assert("dimgrey"@.len() == 7);
                assert("darkturquoise"@.len() == 13);
            }
            assert("dimgrey"@ != "darkviolet"@) by {
                assert("dimgrey"@.len() == 7);
                assert("darkviolet"@.len() == 10);
            }
            assert("dimgrey"@ != "deeppink"@) by {
                assert("dimgrey"@.len() == 7);
                assert("deeppink"@.len() == 8);
            }
            assert("dimgrey"@ != "deepskyblue"@) by {
                assert("dimgrey"@.len() == 7);
                assert("deepskyblue"@.len() == 11);
            }
            assert("dimgrey"@ != "dimgray"@) by {
                assert("dimgrey"@[5] == 'e');
                assert("dimgray"@[5] == 'a');
            }
            assert("dimgrey"@ != "hsl"@) by {
                assert("dimgrey"@.len() == 7);
                assert("hsl"@.len() == 3);
            }
            assert("dimgrey"@ != "hsla"@) by {
                assert("dimgrey"@.len() == 7);
                assert("hsla"@.len() == 4);
            }
            assert(word_shape("dimgrey"@));
            assert("dimgrey"@[0] == 'd');
            lemma_hw_round(s, 0, "dimgrey"@);
            assert(crate::color::named_of("dimgrey"@) == Option::Some(Color::DimGrey));
        },
        Color::DodgerBlue => {
            reveal_strlit("dodgerblue");
            reveal_strlit("darkblue");
            reveal_strlit("darkcyan");
            reveal_strlit("darkgoldenrod");
            reveal_strlit("darkgray");
            reveal_strlit("darkgreen");
            reveal_strlit("darkgrey");
            reveal_strlit("darkkhaki");
            reveal_strlit("darkmagenta");
            reveal_strlit("darkolivegreen");
            reveal_strlit("darkorange");
            reveal_strlit("darkorchid");
            reveal_strlit("darkred");
            reveal_strlit("darksalmon");
            reveal_strlit("darkseagreen");
            reveal_strlit("darkslateblue");
            reveal_strlit("darkslategray");
            reveal_strlit("darkslategrey");
            reveal_strlit("darkturquoise");
            reveal_strlit("darkviolet");
            reveal_strlit("deeppink");
            reveal_strlit("deepskyblue");
            reveal_strlit("dimgray");
            reveal_strlit("dimgrey");
            assert("dodgerblue"@ != "darkblue"@) by {
                assert("dodgerblue"@.len() == 10);
                assert("darkblue"@.len() == 8);
            }
            assert("dodgerblue"@ != "darkcyan"@) by {
                assert("dodgerblue"@.len() == 10);
                assert("darkcyan"@.len() == 8);
            }
            assert("dodgerblue"@ != "darkgoldenrod"@) by {
                assert("dodgerblue"@.len() == 10);
                assert("darkgoldenrod"@.len() == 13);
            }
            assert("dodgerblue"@ != "darkgray"@) by {
                assert("dodgerblue"@.len() == 10);
                assert("darkgray"@.len() == 8);
            }
            assert("dodgerblue"@ != "darkgreen"@) by {
                assert("dodgerblue"@.len() == 10);
                assert("darkgreen"@.len() == 9);
            }
            assert("dodgerblue"@ != "darkgrey"@) by {
                assert("dodgerblue"@.len() == 10);
                assert("darkgrey"@.len() == 8);
            }
            assert("dodgerblue"@ != "darkkhaki"@) by {
                assert("dodgerblue"@.len() == 10);
                assert("darkkhaki"@.len() == 9);
            }
            assert("dodgerblue"@ != "darkmagenta"@) by {
                assert("dodgerblue"@.len() == 10);
                assert("darkmagenta"@.len() == 11);
            }
            assert("dodgerblue"@ != "darkolivegreen"@) by {
                assert("dodgerblue"@.len() == 10);
                assert("darkolivegreen"@.len() == 14);
            }
            assert("dodgerblue"@ != "darkorange"@) by {
                assert("dodgerblue"@[1] == 'o');
                assert("darkorange"@[1] == 'a');
            }
            assert("dodgerblue"@ != "darkorchid"@) by {
                assert("dodgerblue"@[1] == 'o');
                assert("darkorchid"@[1] == 'a');
            }
            assert("dodgerblue"@ != "darkred"@) by {
                assert("dodgerblue"@.len() == 10);
                assert("darkred"@.len() == 7);
            }
            assert("dodgerblue"@ != "darksalmon"@) by {
                assert("dodgerblue"@[1] == 'o');
                assert("darksalmon"@[1] == 'a');
            }
            assert("dodgerblue"@ != "darkseagreen"@) by {
                assert("dodgerblue"@.len() == 10);
                assert("darkseagreen"@.len() == 12);
            }
            assert("dodgerblue"@ != "darkslateblue"@) by {
                assert("dodgerblue"@.len() == 10);
                assert("darkslateblue"@.len() == 13);
            }
            assert("dodgerblue"@ != "darkslategray"@) by {
                assert("dodgerblue"@.len() == 10);
                assert("darkslategray"@.len() == 13);
            }
            assert("dodgerblue"@ != "darkslategrey"@) by {
                assert("dodgerblue"@.len() == 10);
                assert("darkslategrey"@.len() == 13);
            }
            assert("dodgerblue"@ != "darkturquoise"@) by {
                assert("dodgerblue"@.len() == 10);
                assert("darkturquoise"@.len() == 13);
            }
            assert("dodgerblue"@ != "darkviolet"@) by {
                assert("dodgerblue"@[1] == 'o');
                assert("darkviolet"@[1] == 'a');
            }
            assert("dodgerblue"@ != "deeppink"@) by {
                assert("dodgerblue"@.len() == 10);
                assert("deeppink"@.len() == 8);
            }
            assert("dodgerblue"@ != "deepskyblue"@) by {
                assert("dodgerblue"@.len() == 10);
                assert("deepskyblue"@.len() == 11);
            }
            assert("dodgerblue"@ != "dimgray"@) by {
                assert("dodgerblue"@.len() == 10);
                assert("dimgray"@.len() == 7);
            }
            assert("dodgerblue"@ != "dimgrey"@) by {
                assert("dodgerblue"@.len() == 10);
                assert("dimgrey"@.len() == 7);
            }
            assert("dodgerblue"@ != "hsl"@) by {
                assert("dodgerblue"@.len() == 10);
                assert("hsl"@.len() == 3);
            }
            assert("dodgerblue"@ != "hsla"@) by {
                assert("dodgerblue"@.len() == 10);
                assert("hsla"@.len() == 4);
            }
            assert(word_shape("dodgerblue"@));
            assert("dodgerblue"@[0] == 'd');
            lemma_hw_round(s, 0, "dodgerblue"@);
            assert(crate::color::named_of("dodgerblue"@) == Option::Some(Color::DodgerBlue));
        },
        Color::FireBrick => {
            reveal_strlit("firebrick");
            assert("firebrick"@ != "hsl"@) by {
                assert("firebrick"@.len() == 9);
                assert("hsl"@.len() == 3);
            }
            assert("firebrick"@ != "hsla"@) by {
                assert("firebrick"@.len() == 9);
                assert("hsla"@.len() == 4);
            }
            assert(word_shape("firebrick"@));
            assert("firebrick"@[0] == 'f');
            lemma_hw_round(s, 0, "firebrick"@);
            assert(crate::color::named_of("firebrick"@) == Option::Some(Color::FireBrick));
        },
        Color::FloralWhite => {
            reveal_strlit("floralwhite");
            reveal_strlit("firebrick");
            assert("floralwhite"@ != "firebrick"@) by {
                assert("floralwhite"@.len() == 11);
                assert("firebrick"@.len() == 9);
            }
            assert("floralwhite"@ != "hsl"@) by {
                assert("floralwhite"@.len() == 11);
                assert("hsl"@.len() == 3);
            }
            assert("floralwhite"@ != "hsla"@) by {
                assert("floralwhite"@.len() == 11);
                assert("hsla"@.len() == 4);
            }
            assert(word_shape("floralwhite"@));
            assert("floralwhite"@[0] == 'f');
            lemma_hw_round(s, 0, "floralwhite"@);
            assert(crate::color::named_of("floralwhite"@) == Option::Some(Color::FloralWhite));
        },
        Color::ForestGreen => {
            reveal_strlit("forestgreen");
            reveal_strlit("firebrick");
            reveal_strlit("floralwhite");
            assert("forestgreen"@ != "firebrick"@) by {
                assert("forestgreen"@.len() == 11);
                assert("firebrick"@.len() == 9);
            }
            assert("forestgreen"@ != "floralwhite"@) by {
                assert("forestgreen"@[1] == 'o');
                assert("floralwhite"@[1] == 'l');
            }
            assert("forestgreen"@ != "hsl"@) by {
                assert("forestgreen"@.len() == 11);
                assert("hsl"@.len() == 3);
            }
            assert("forestgreen"@ != "hsla"@) by {
                assert("forestgreen"@.len() == 11);
                assert("hsla"@.len() == 4);
            }
            assert(word_shape("forestgreen"@));
            assert("forestgreen"@[0] == 'f');
            lemma_hw_round(s, 0, "forestgreen"@);
            assert(crate::color::named_of("forestgreen"@) == Option::Some(Color::ForestGreen));
        },
        Color::Fuchsia => {
            reveal_strlit("fuchsia");
            reveal_strlit("firebrick");
            reveal_strlit("floralwhite");
            reveal_strlit("forestgreen");
            assert("fuchsia"@ != "firebrick"@) by {
                assert("fuchsia"@.len() == 7);
                assert("firebrick"@.len() == 9);
            }
            assert("fuchsia"@ != "floralwhite"@) by {
                assert("fuchsia"@.len() == 7);
                assert("floralwhite"@.len() == 11);
            }
            assert("fuchsia"@ != "forestgreen"@) by {
                assert("fuchsia"@.len() == 7);
                assert("forestgreen"@.len() == 11);
            }
            assert("fuchsia"@ != "hsl"@) by {
                assert("fuchsia"@.len() == 7);
                assert("hsl"@.len() == 3);
            }
            assert("fuchsia"@ != "hsla"@) by {
                assert("fuchsia"@.len() == 7);
                assert("hsla"@.len() == 4);
            }
            assert(word_shape("fuchsia"@));
            assert("fuchsia"@[0] == 'f');
            lemma_hw_round(s, 0, "fuchsia"@);
            assert(crate::color::named_of("fuchsia"@) == Option::Some(Color::Fuchsia));
        },
        Color::Gainsboro => {
            reveal_strlit("gainsboro");
            assert("gainsboro"@ != "hsl"@) by {
                assert("gainsboro"@.len() == 9);
                assert("hsl"@.len() == 3);
            }
            assert("gainsboro"@ != "hsla"@) by {
                assert("gainsboro"@.len() == 9);
                assert("hsla"@.len() == 4);
            }
            assert(word_shape("gainsboro"@));
            assert("gainsboro"@[0] == 'g');
            lemma_hw_round(s, 0, "gainsboro"@);
            assert(crate::color::named_of("gainsboro"@) == Option::Some(Color::Gainsboro));
        },
        Color::GhostWhite => {
            reveal_strlit("ghostwhite");
            reveal_strlit("gainsboro");
            assert("ghostwhite"@ != "gainsboro"@) by {
                assert("ghostwhite"@.len() == 10);
                assert("gainsboro"@.len() == 9);
            }
            assert("ghostwhite"@ != "hsl"@) by {
                assert("ghostwhite"@.len() == 10);
                assert("hsl"@.len() == 3);
            }
            assert("ghostwhite"@ != "hsla"@) by {
                assert("ghostwhite"@.len() == 10);
                assert("hsla"@.len() == 4);
            }
            assert(word_shape("ghostwhite"@));
            assert("ghostwhite"@[0] == 'g');
            lemma_hw_round(s, 0, "ghostwhite"@);
            assert(crate::color::named_of("ghostwhite"@) == Option::Some(Color::GhostWhite));
        },
        Color::Gold => {
            reveal_strlit("gold");
            reveal_strlit("gainsboro");
            reveal_strlit("ghostwhite");
            assert("gold"@ != "gainsboro"@) by {
                assert("gold"@.len() == 4);
                assert("gainsboro"@.len() == 9);
            }
            assert("gold"@ != "ghostwhite"@) by {
                assert("gold"@.len() == 4);
                assert("ghostwhite"@.len() == 10);
            }
            assert("gold"@ != "hsl"@) by {
                assert("gold"@.len() == 4);
                assert("hsl"@.len() == 3);
            }
            assert("gold"@ != "hsla"@) by {
                assert("gold"@[0] == 'g');
                assert("hsla"@[0] == 'h');
            }
            assert(word_shape("gold"@));
            assert("gold"@[0] == 'g');
            lemma_hw_round(s, 0, "gold"@);
            assert(crate::color::named_of("gold"@) == Option::Some(Color::Gold));
        },
        Color::Goldenrod => {
            reveal_strlit("goldenrod");
            reveal_strlit("gainsboro");
            reveal_strlit("ghostwhite");
            reveal_strlit("gold");
            assert("goldenrod"@ != "gainsboro"@) by {
                assert("goldenrod"@[1] == 'o');
                assert("gainsboro"@[1] == 'a');
            }
            assert("goldenrod"@ != "ghostwhite"@) by {
                assert("goldenrod"@.len() == 9);
                assert("ghostwhite"@.len() == 10);
            }
            assert("goldenrod"@ != "gold"@) by {
                assert("goldenrod"@.len() == 9);
                assert("gold"@.len() == 4);
            }
            assert("goldenrod"@ != "hsl"@) by {
                assert("goldenrod"@.len() == 9);
                assert("hsl"@.len() == 3);
            }
            assert("goldenrod"@ != "hsla"@) by {
                assert("goldenrod"@.len() == 9);
                assert("hsla"@.len() == 4);
            }
            assert(word_shape("goldenrod"@));
            assert("goldenrod"@[0] == 'g');
            lemma_hw_round(s, 0, "goldenrod"@);
            assert(crate::color::named_of("goldenrod"@) == Option::Some(Color::Goldenrod));
        },
        Color::Gray => {
            reveal_strlit("gray");
            reveal_strlit("gainsboro");
            reveal_strlit("ghostwhite");
            reveal_strlit("gold");
            reveal_strlit("goldenrod");
            assert("gray"@ != "gainsboro"@) by {
                assert("gray"@.len() == 4);
                assert("gainsboro"@.len() == 9);
            }
            assert("gray"@ != "ghostwhite"@) by {
                assert("gray"@.len() == 4);
                assert("ghostwhite"@.len() == 10);
            }
            assert("gray"@ != "gold"@) by {
                assert("gray"@[1] == 'r');
                assert("gold"@[1] == 'o');
            }
            assert("gray"@ != "goldenrod"@) by {
                assert("gray"@.len() == 4);
                assert("goldenrod"@.len() == 9);
            }
            assert("gray"@ != "hsl"@) by {
                assert("gray"@.len() == 4);
                assert("hsl"@.len() == 3);
            }
            assert("gray"@ != "hsla"@) by {
                assert("gray"@[0] == 'g');
                assert("hsla"@[0] == 'h');
            }
            assert(word_shape("gray"@));
            assert("gray"@[0] == 'g');
            lemma_hw_round(s, 0, "gray"@);
            assert(crate::color::named_of("gray"@) == Option::Some(Color::Gray));
        },
        Color::Green => {
            reveal_strlit("green");
            reveal_strlit("gainsboro");
            reveal_strlit("ghostwhite");
            reveal_strlit("gold");
            reveal_strlit("goldenrod");
            reveal_strlit("gray");
            assert("green"@ != "gainsboro"@) by {
                assert("green"@.len() == 5);
                assert("gainsboro"@.len() == 9);
            }
            assert("green"@ != "ghostwhite"@) by {
                assert("green"@.len() == 5);
                assert("ghostwhite"@.len() == 10);
            }
            assert("green"@ != "gold"@) by {
                assert("green"@.len() == 5);
                assert("gold"@.len() == 4);
            }
            assert("green"@ != "goldenrod"@) by {
                assert("green"@.len() == 5);
                assert("goldenrod"@.len() == 9);
            }
            assert("green"@ != "gray"@) by {
                assert("green"@.len() == 5);
                assert("gray"@.len() == 4);
            }
            assert("green"@ != "hsl"@) by {
                assert("green"@.len() == 5);
                assert("hsl"@.len() == 3);
            }
            assert("green"@ != "hsla"@) by {
                assert("green"@.len() == 5);
                assert("hsla"@.len() == 4);
            }
            assert(word_shape("green"@));
            assert("green"@[0] == 'g');
            lemma_hw_round(s, 0, "green"@);
            assert(crate::color::named_of("green"@) == Option::Some(Color::Green));
        },
        Color::GreenYellow => {
            reveal_strlit("greenyellow");
            reveal_strlit("gainsboro");
            reveal_strlit("ghostwhite");
            reveal_strlit("gold");
            reveal_strlit("goldenrod");
            reveal_strlit("gray");
            reveal_strlit("green");
            assert("greenyellow"@ != "gainsboro"@) by {
                assert("greenyellow"@.len() == 11);
                assert("gainsboro"@.len() == 9);
            }
            assert("greenyellow"@ != "ghostwhite"@) by {
                assert("greenyellow"@.len() == 11);
                assert("ghostwhite"@.len() == 10);
            }
            assert("greenyellow"@ != "gold"@) by {
                assert("greenyellow"@.len() == 11);
                assert("gold"@.len() == 4);
            }
            assert("greenyellow"@ != "goldenrod"@) by {
                assert("greenyellow"@.len() == 11);
                assert("goldenrod"@.len() == 9);
            }
            assert("greenyellow"@ != "gray"@) by {
                assert("greenyellow"@.len() == 11);
                assert("gray"@.len() == 4);
            }
            assert("greenyellow"@ != "green"@) by {
                assert("greenyellow"@.len() == 11);
                assert("green"@.len() == 5);
            }
            assert("greenyellow"@ != "hsl"@) by {
                assert("greenyellow"@.len() == 11);
                assert("hsl"@.len() == 3);
            }
            assert("greenyellow"@ != "hsla"@) by {
                assert("greenyellow"@.len() == 11);
                assert("hsla"@.len() == 4);
            }
            assert(word_shape("greenyellow"@));
            assert("greenyellow"@[0] == 'g');
            lemma_hw_round(s, 0, "greenyellow"@);
            assert(crate::color::named_of("greenyellow"@) == Option::Some(Color::GreenYellow));
        },
        Color::Grey => {
            reveal_strlit("grey");
            reveal_strlit("gainsboro");
            reveal_strlit("ghostwhite");
            reveal_strlit("gold");
            reveal_strlit("goldenrod");
            reveal_strlit("gray");
            reveal_strlit("green");
            reveal_strlit("greenyellow");
            assert("grey"@ != "gainsboro"@) by {
                assert("grey"@.len() == 4);
                assert("gainsboro"@.len() == 9);
            }
            assert("grey"@ != "ghostwhite"@) by {
                assert("grey"@.len() == 4);
                assert("ghostwhite"@.len() == 10);
            }
            assert("grey"@ != "gold"@) by {
                assert("grey"@[1] == 'r');
                assert("gold"@[1] == 'o');
            }
            assert("grey"@ != "goldenrod"@) by {
                assert("grey"@.len() == 4);
                assert("goldenrod"@.len() == 9);
            }
            assert("grey"@ != "gray"@) by {
                assert("grey"@[2] == 'e');
                assert("gray"@[2] == 'a');
            }
            assert("grey"@ != "green"@) by {
                assert("grey"@.len() == 4);
                assert("green"@.len() == 5);
            }
            assert("grey"@ != "greenyellow"@) by {
                assert("grey"@.len() == 4);
                assert("greenyellow"@.len() == 11);
            }
            assert("grey"@ != "hsl"@) by {
                assert("grey"@.len() == 4);
                assert("hsl"@.len() == 3);
            }
            assert("grey"@ != "hsla"@) by {
                assert("grey"@[0] == 'g');
                assert("hsla"@[0] == 'h');
            }
            assert(word_shape("grey"@));
            assert("grey"@[0] == 'g');
            lemma_hw_round(s, 0, "grey"@);
            assert(crate::color::named_of("grey"@) == Option::Some(Color::Grey));
        },
        Color::Honeydew => {
            reveal_strlit("honeydew");
            assert("honeydew"@ != "hsl"@) by {
                assert("honeydew"@.len() == 8);
                assert("hsl"@.len() == 3);
            }
            assert("honeydew"@ != "hsla"@) by {
                assert("honeydew"@.len() == 8);
                assert("hsla"@.len() == 4);
            }
            assert(word_shape("honeydew"@));
            assert("honeydew"@[0] == 'h');
            lemma_hw_round(s, 0, "honeydew"@);
            assert(crate::color::named_of("honeydew"@) == Option::Some(Color::Honeydew));
        },
        Color::HotPink => {
            reveal_strlit("hotpink");
            reveal_strlit("honeydew");
            assert("hotpink"@ != "honeydew"@) by {
                assert("hotpink"@.len() == 7);
                assert("honeydew"@.len() == 8);
            }
            assert("hotpink"@ != "hsl"@) by {
                assert("hotpink"@.len() == 7);
                assert("hsl"@.len() == 3);
            }
            assert("hotpink"@ != "hsla"@) by {
                assert("hotpink"@.len() == 7);
                assert("hsla"@.len() == 4);
            }
            assert(word_shape("hotpink"@));
            assert("hotpink"@[0] == 'h');
            lemma_hw_round(s, 0, "hotpink"@);
            assert(crate::color::named_of("hotpink"@) == Option::Some(Color::HotPink));
        },
        Color::IndianRed => {
            reveal_strlit("indianred");
            assert("indianred"@ != "hsl"@) by {
                assert("indianred"@.len() == 9);
                assert("hsl"@.len() == 3);
            }
            assert("indianred"@ != "hsla"@) by {
                assert("indianred"@.len() == 9);
                assert("hsla"@.len() == 4);
            }
            assert(word_shape("indianred"@));
            assert("indianred"@[0] == 'i');
            lemma_hw_round(s, 0, "indianred"@);
            assert(crate::color::named_of("indianred"@) == Option::Some(Color::IndianRed));
        },
        Color::Indigo => {
            reveal_strlit("indigo");
            reveal_strlit("indianred");
            assert("indigo"@ != "indianred"@) by {
                assert("indigo"@.len() == 6);
                assert("indianred"@.len() == 9);
            }
            assert("indigo"@ != "hsl"@) by {
                assert("indigo"@.len() == 6);
                assert("hsl"@.len() == 3);
            }
            assert("indigo"@ != "hsla"@) by {
                assert("indigo"@.len() == 6);
                assert("hsla"@.len() == 4);
            }
            assert(word_shape("indigo"@));
            assert("indigo"@[0] == 'i');
            lemma_hw_round(s, 0, "indigo"@);
            assert(crate::color::named_of("indigo"@) == Option::Some(Color::Indigo));
        },
        Color::Ivory => {
            reveal_strlit("ivory");
            reveal_strlit("indianred");
            reveal_strlit("indigo");
            assert("ivory"@ != "indianred"@) by {
                assert("ivory"@.len() == 5);
                assert("indianred"@.len() == 9);
            }
            assert("ivory"@ != "indigo"@) by {
                assert("ivory"@.len() == 5);
                assert("indigo"@.len() == 6);
            }
            assert("ivory"@ != "hsl"@) by {
                assert("ivory"@.len() == 5);
                assert("hsl"@.len() == 3);
            }
            assert("ivory"@ != "hsla"@) by {
                assert("ivory"@.len() == 5);
                assert("hsla"@.len() == 4);
            }
            assert(word_shape("ivory"@));
            assert("ivory"@[0] == 'i');
            lemma_hw_round(s, 0, "ivory"@);
            assert(crate::color::named_of("ivory"@) == Option::Some(Color::Ivory));
        },
        Color::Khaki => {
            reveal_strlit("khaki");
            assert("khaki"@ != "hsl"@) by {
                assert("khaki"@.len() == 5);
                assert("hsl"@.len() == 3);
            }
            assert("khaki"@ != "hsla"@) by {
                assert("khaki"@.len() == 5);
                assert("hsla"@.len() == 4);
            }
            assert(word_shape("khaki"@));
            assert("khaki"@[0] == 'k');
            lemma_hw_round(s, 0, "khaki"@);
            assert(crate::color::named_of("khaki"@) == Option::Some(Color::Khaki));
        },
        Color::Lavender => {
            reveal_strlit("lavender");
            assert("lavender"@ != "hsl"@) by {
                assert("lavender"@.len() == 8);
                assert("hsl"@.len() == 3);
            }
            assert("lavender"@ != "hsla"@) by {
                assert("lavender"@.len() == 8);
                assert("hsla"@.len() == 4);
            }
            assert(word_shape("lavender"@));
            assert("lavender"@[0] == 'l');
            lemma_hw_round(s, 0, "lavender"@);
            assert(crate::color::named_of("lavender"@) == Option::Some(Color::Lavender));
        },
        Color::LavenderBlush => {
            reveal_strlit("lavenderblush");
            reveal_strlit("lavender");
            assert("lavenderblush"@ != "lavender"@) by {
                assert("lavenderblush"@.len() == 13);
                assert("lavender"@.len() == 8);
            }
            assert("lavenderblush"@ != "hsl"@) by {
                assert("lavenderblush"@.len() == 13);
                assert("hsl"@.len() == 3);
            }
            assert("lavenderblush"@ != "hsla"@) by {
                assert("lavenderblush"@.len() == 13);
                assert("hsla"@.len() == 4);
            }
            assert(word_shape("lavenderblush"@));
            assert("lavenderblush"@[0] == 'l');
            lemma_hw_round(s, 0, "lavenderblush"@);
            assert(crate::color::named_of("lavenderblush"@) == Option::Some(Color::LavenderBlush));
        },
        Color::LawnGreen => {
            reveal_strlit("lawngreen");
            reveal_strlit("lavender");
            reveal_strlit("lavenderblush");
            assert("lawngreen"@ != "lavender"@) by {
                assert("lawngreen"@.len() == 9);
                assert("lavender"@.len() == 8);
            }
            assert("lawngreen"@ != "lavenderblush"@) by {
                assert("lawngreen"@.len() == 9);
                assert("lavenderblush"@.len() == 13);
            }
            assert("lawngreen"@ != "hsl"@) by {
                assert("lawngreen"@.len() == 9);
                assert("hsl"@.len() == 3);
            }
            assert("lawngreen"@ != "hsla"@) by {
                assert("lawngreen"@.len() == 9);
                assert("hsla"@.len() == 4);
            }
            assert(word_shape("lawngreen"@));
            assert("lawngreen"@[0] == 'l');
            lemma_hw_round(s, 0, "lawngreen"@);
            assert(crate::color::named_of("lawngreen"@) == Option::Some(Color::LawnGreen));
        },
        Color::LemonChiffon => {
            reveal_strlit("lemonchiffon");
            reveal_strlit("lavender");
            reveal_strlit("lavenderblush");
            reveal_strlit("lawngreen");
            assert("lemonchiffon"@ != "lavender"@) by {
                assert("lemonchiffon"@.len() == 12);
                assert("lavender"@.len() == 8);
            }
            assert("lemonchiffon"@ != "lavenderblush"@) by {
                assert("lemonchiffon"@.len() == 12);
                assert("lavenderblush"@.len() == 13);
            }
            assert("lemonchiffon"@ != "lawngreen"@) by {
                assert("lemonchiffon"@.len() == 12);
                assert("lawngreen"@.len() == 9);
            }
            assert("lemonchiffon"@ != "hsl"@) by {
                assert("lemonchiffon"@.len() == 12);
                assert("hsl"@.len() == 3);
            }
            assert("lemonchiffon"@ != "hsla"@) by {
                assert("lemonchiffon"@.len() == 12);
                assert("hsla"@.len() == 4);
            }
            assert(word_shape("lemonchiffon"@));
            assert("lemonchiffon"@[0] == 'l');
            lemma_hw_round(s, 0, "lemonchiffon"@);
            assert(crate::color::named_of("lemonchiffon"@) == Option::Some(Color::LemonChiffon));
        },
        Color::LightBlue => {
            reveal_strlit("lightblue");
            reveal_strlit("lavender");
            reveal_strlit("lavenderblush");
            reveal_strlit("lawngreen");
            reveal_strlit("lemonchiffon");
            assert("lightblue"@ != "lavender"@) by {
                assert("lightblue"@.len() == 9);
                assert("lavender"@.len() == 8);
            }
            assert("lightblue"@ != "lavenderblush"@) by {
                assert("lightblue"@.len() == 9);
                assert("lavenderblush"@.len() == 13);
            }
            assert("lightblue"@ != "lawngreen"@) by {
                assert("lightblue"@[1] == 'i');
                assert("lawngreen"@[1] == 'a');
            }
            assert("lightblue"@ != "lemonchiffon"@) by {
                assert("lightblue"@.len() == 9);
                assert("lemonchiffon"@.len() == 12);
            }
            assert("lightblue"@ != "hsl"@) by {
                assert("lightblue"@.len() == 9);
                assert("hsl"@.len() == 3);
            }
            assert("lightblue"@ != "hsla"@) by {
                assert("lightblue"@.len() == 9);
                assert("hsla"@.len() == 4);
            }
            assert(word_shape("lightblue"@));
            assert("lightblue"@[0] == 'l');
            lemma_hw_round(s, 0, "lightblue"@);
            assert(crate::color::named_of("lightblue"@) == Option::Some(Color::LightBlue));
        },
        Color::LightCoral => {
            reveal_strlit("lightcoral");
            reveal_strlit("lavender");
            reveal_strlit("lavenderblush");
            reveal_strlit("lawngreen");
            reveal_strlit("lemonchiffon");
            reveal_strlit("lightblue");
            assert("lightcoral"@ != "lavender"@) by {
                assert("lightcoral"@.len() == 10);
                assert("lavender"@.len() == 8);
            }
            assert("lightcoral"@ != "lavenderblush"@) by {
                assert("lightcoral"@.len() == 10);
                assert("lavenderblush"@.len() == 13);
            }
            assert("lightcoral"@ != "lawngreen"@) by {
                assert("lightcoral"@.len() == 10);
                assert("lawngreen"@.len() == 9);
            }
            assert("lightcoral"@ != "lemonchiffon"@) by {
                assert("lightcoral"@.len() == 10);
                assert("lemonchiffon"@.len() == 12);
            }
            assert("lightcoral"@ != "lightblue"@) by {
                assert("lightcoral"@.len() == 10);
                assert("lightblue"@.len() == 9);
            }
            assert("lightcoral"@ != "hsl"@) by {
                assert("lightcoral"@.len() == 10);
                assert("hsl"@.len() == 3);
            }
            assert("lightcoral"@ != "hsla"@) by {
                assert("lightcoral"@.len() == 10);
                assert("hsla"@.len() == 4);
            }
            assert(word_shape("lightcoral"@));
            assert("lightcoral"@[0] == 'l');
            lemma_hw_round(s, 0, "lightcoral"@);
            assert(crate::color::named_of("lightcoral"@) == Option::Some(Color::LightCoral));
        },
        Color::LightCyan => {
            reveal_strlit("lightcyan");
            reveal_strlit("lavender");
            reveal_strlit("lavenderblush");
            reveal_strlit("lawngreen");
            reveal_strlit("lemonchiffon");
            reveal_strlit("lightblue");
            reveal_strlit("lightcoral");
            assert("lightcyan"@ != "lavender"@) by {
                assert("lightcyan"@.len() == 9);
                assert("lavender"@.len() == 8);
            }
            assert("lightcyan"@ != "lavenderblush"@) by {
                assert("lightcyan"@.len() == 9);
                assert("lavenderblush"@.len() == 13);
            }
            assert("lightcyan"@ != "lawngreen"@) by {
                assert("lightcyan"@[1] == 'i');
                assert("lawngreen"@[1] == 'a');
            }
            assert("lightcyan"@ != "lemonchiffon"@) by {
                assert("lightcyan"@.len() == 9);
                assert("lemonchiffon"@.len() == 12);
            }
            assert("lightcyan"@ != "lightblue"@) by {
                assert("lightcyan"@[5] == 'c');
                assert("lightblue"@[5] == 'b');
            }
            assert("lightcyan"@ != "lightcoral"@) by {
                assert("lightcyan"@.len() == 9);
                assert("lightcoral"@.len() == 10);
            }
            assert("lightcyan"@ != "hsl"@) by {
                assert("lightcyan"@.len() == 9);
                assert("hsl"@.len() == 3);
            }
            assert("lightcyan"@ != "hsla"@) by {
                assert("lightcyan"@.len() == 9);
                assert("hsla"@.len() == 4);
            }
            assert(word_shape("lightcyan"@));
            assert("lightcyan"@[0] == 'l');
            lemma_hw_round(s, 0, "lightcyan"@);
            assert(crate::color::named_of("lightcyan"@) == Option::Some(Color::LightCyan));
        },
        Color::LightGoldenrodYellow => {
            reveal_strlit("lightgoldenrodyellow");
            reveal_strlit("lavender");
            reveal_strlit("lavenderblush");
            reveal_strlit("lawngreen");
            reveal_strlit("lemonchiffon");
            reveal_strlit("lightblue");
            reveal_strlit("lightcoral");
            reveal_strlit("lightcyan");
            assert("lightgoldenrodyellow"@ != "lavender"@) by {
                assert("lightgoldenrodyellow"@.len() == 20);
                assert("lavender"@.len() == 8);
            }
            assert("lightgoldenrodyellow"@ != "lavenderblush"@) by {
                assert("lightgoldenrodyellow"@.len() == 20);
                assert("lavenderblush"@.len() == 13);
            }
            assert("lightgoldenrodyellow"@ != "lawngreen"@) by {
                assert("lightgoldenrodyellow"@.len() == 20);
                assert("lawngreen"@.len() == 9);
            }
            assert("lightgoldenrodyellow"@ != "lemonchiffon"@) by {
                assert("lightgoldenrodyellow"@.len() == 20);
                assert("lemonchiffon"@.len() == 12);
            }
            assert("lightgoldenrodyellow"@ != "lightblue"@) by {
                assert("lightgoldenrodyellow"@.len() == 20);
                assert("lightblue"@.len() == 9);
            }
            assert("lightgoldenrodyellow"@ != "lightcoral"@) by {
                assert("lightgoldenrodyellow"@.len() == 20);
                assert("lightcoral"@.len() == 10);
            }
            assert("lightgoldenrodyellow"@ != "lightcyan"@) by {
                assert("lightgoldenrodyellow"@.len() == 20);
                assert("lightcyan"@.len() == 9);
            }
            assert("lightgoldenrodyellow"@ != "hsl"@) by {
                assert("lightgoldenrodyellow"@.len() == 20);
                assert("hsl"@.len() == 3);
            }
            assert("lightgoldenrodyellow"@ != "hsla"@) by {
                assert("lightgoldenrodyellow"@.len() == 20);
                assert("hsla"@.len() == 4);
            }
            assert(word_shape("lightgoldenrodyellow"@));
            assert("lightgoldenrodyellow"@[0] == 'l');
            lemma_hw_round(s, 0, "lightgoldenrodyellow"@);
            assert(crate::color::named_of("lightgoldenrodyellow"@) == Option::Some(Color::LightGoldenrodYellow));
        },
        Color::LightGray => {
            reveal_strlit("lightgray");
            reveal_strlit("lavender");
            reveal_strlit("lavenderblush");
            reveal_strlit("lawngreen");
            reveal_strlit("lemonchiffon");
            reveal_strlit("lightblue");
            reveal_strlit("lightcoral");
            reveal_strlit("lightcyan");
            reveal_strlit("lightgoldenrodyellow");
            assert("lightgray"@ != "lavender"@) by {
                assert("lightgray"@.len() == 9);
                assert("lavender"@.len() == 8);
            }
            assert("lightgray"@ != "lavenderblush"@) by {
                assert("lightgray"@.len() == 9);
                assert("lavenderblush"@.len() == 13);
            }
            assert("lightgray"@ != "lawngreen"@) by {
                assert("lightgray"@[1] == 'i');
                assert("lawngreen"@[1] == 'a');
            }
            assert("lightgray"@ != "lemonchiffon"@) by {
                assert("lightgray"@.len() == 9);
                assert("lemonchiffon"@.len() == 12);
            }
            assert("lightgray"@ != "lightblue"@) by {
                assert("lightgray"@[5] == 'g');
                assert("lightblue"@[5] == 'b');
            }
            assert("lightgray"@ != "lightcoral"@) by {
                assert("lightgray"@.len() == 9);
                assert("lightcoral"@.len() == 10);
            }
            assert("lightgray"@ != "lightcyan"@) by {
                assert("lightgray"@[5] == 'g');
                assert("lightcyan"@[5] == 'c');
            }
            assert("lightgray"@ != "lightgoldenrodyellow"@) by {
                assert("lightgray"@.len() == 9);
                assert("lightgoldenrodyellow"@.len() == 20);
            }
            assert("lightgray"@ != "hsl"@) by {
                assert("lightgray"@.len() == 9);
                assert("hsl"@.len() == 3);
            }
            assert("lightgray"@ != "hsla"@) by {
                assert("lightgray"@.len() == 9);
                assert("hsla"@.len() == 4);
            }
            assert(word_shape("lightgray"@));
            assert("lightgray"@[0] == 'l');
            lemma_hw_round(s, 0, "lightgray"@);
            assert(crate::color::named_of("lightgray"@) == Option::Some(Color::LightGray));
        },
        Color::LightGreen => {
            reveal_strlit("lightgreen");
            reveal_strlit("lavender");
            reveal_strlit("lavenderblush");
            reveal_strlit("lawngreen");
            reveal_strlit("lemonchiffon");
            reveal_strlit("lightblue");
            reveal_strlit("lightcoral");
            reveal_strlit("lightcyan");
            reveal_strlit("lightgoldenrodyellow");
            reveal_strlit("lightgray");
            assert("lightgreen"@ != "lavender"@) by {
                assert("lightgreen"@.len() == 10);
                assert("lavender"@.len() == 8);
            }
            assert("lightgreen"@ != "lavenderblush"@) by {
                assert("lightgreen"@.len() == 10);
                assert("lavenderblush"@.len() == 13);
            }
            assert("lightgreen"@ != "lawngreen"@) by {
                assert("lightgreen"@.len() == 10);
                assert("lawngreen"@.len() == 9);
            }
            assert("lightgreen"@ != "lemonchiffon"@) by {
                assert("lightgreen"@.len() == 10);
                assert("lemonchiffon"@.len() == 12);
            }
            assert("lightgreen"@ != "lightblue"@) by {
                assert("lightgreen"@.len() == 10);
                assert("lightblue"@.len() == 9);
            }
            assert("lightgreen"@ != "lightcoral"@) by {
                assert("lightgreen"@[5] == 'g');
                assert("lightcoral"@[5] == 'c');
            }
            assert("lightgreen"@ != "lightcyan"@) by {
                assert("lightgreen"@.len() == 10);
                assert("lightcyan"@.len() == 9);
            }
            assert("lightgreen"@ != "lightgoldenrodyellow"@) by {
                assert("lightgreen"@.len() == 10);
                assert("lightgoldenrodyellow"@.len() == 20);
            }
            assert("lightgreen"@ != "lightgray"@) by {
                assert("lightgreen"@.len() == 10);
                assert("lightgray"@.len() == 9);
            }
            assert("lightgreen"@ != "hsl"@) by {
                assert("lightgreen"@.len() == 10);
                assert("hsl"@.len() == 3);
            }
            assert("lightgreen"@ != "hsla"@) by {
                assert("lightgreen"@.len() == 10);
                assert("hsla"@.len() == 4);
            }
            assert(word_shape("lightgreen"@));
            assert("lightgreen"@[0] == 'l');
            lemma_hw_round(s, 0, "lightgreen"@);
            assert(crate::color::named_of("lightgreen"@) == Option::Some(Color::LightGreen));
        },
        Color::LightGrey => {
            reveal_strlit("lightgrey");
            reveal_strlit("lavender");
            reveal_strlit("lavenderblush");
            reveal_strlit("lawngreen");
            reveal_strlit("lemonchiffon");
            reveal_strlit("lightblue");
            reveal_strlit("lightcoral");
            reveal_strlit("lightcyan");
            reveal_strlit("lightgoldenrodyellow");
            reveal_strlit("lightgray");
            reveal_strlit("lightgreen");
            assert("lightgrey"@ != "lavender"@) by {
                assert("lightgrey"@.len() == 9);
                assert("lavender"@.len() == 8);
            }
            assert("lightgrey"@ != "lavenderblush"@) by {
                assert("lightgrey"@.len() == 9);
                assert("lavenderblush"@.len() == 13);
            }
            assert("lightgrey"@ != "lawngreen"@) by {
                assert("lightgrey"@[1] == 'i');
                assert("lawngreen"@[1] == 'a');
            }
            assert("lightgrey"@ != "lemonchiffon"@) by {
                assert("lightgrey"@.len() == 9);
                assert("lemonchiffon"@.len() == 12);
            }
            assert("lightgrey"@ != "lightblue"@) by {
                assert("lightgrey"@[5] == 'g');
                assert("lightblue"@[5] == 'b');
            }
            assert("lightgrey"@ != "lightcoral"@) by {
                assert("lightgrey"@.len() == 9);
                assert("lightcoral"@.len() == 10);
            }
            assert("lightgrey"@ != "lightcyan"@) by {
                assert("lightgrey"@[5] == 'g');
                assert("lightcyan"@[5] == 'c');
            }
            assert("lightgrey"@ != "lightgoldenrodyellow"@) by {
                assert("lightgrey"@.len() == 9);
                assert("lightgoldenrodyellow"@.len() == 20);
            }
            assert("lightgrey"@ != "lightgray"@) by {
                assert("lightgrey"@[7] == 'e');
                assert("lightgray"@[7] == 'a');
            }
            assert("lightgrey"@ != "lightgreen"@) by {
                assert("lightgrey"@.len() == 9);
                assert("lightgreen"@.len() == 10);
            }
            assert("lightgrey"@ != "hsl"@) by {
                assert("lightgrey"@.len() == 9);
                assert("hsl"@.len() == 3);
            }
            assert("lightgrey"@ != "hsla"@) by {
                assert("lightgrey"@.len() == 9);
                assert("hsla"@.len() == 4);
            }
            assert(word_shape("lightgrey"@));
            assert("lightgrey"@[0] == 'l');
            lemma_hw_round(s, 0, "lightgrey"@);
            assert(crate::color::named_of("lightgrey"@) == Option::Some(Color::LightGrey));
        },
        _ => {},
    }
}

/// Whether the color is one of this group of named colors.
pub open spec fn named_rt_group3(v: Color) -> bool {
    match v {
        Color::LightPink | Color::LightSalmon | Color::LightSeaGreen | Color::LightSkyBlue | Color::LightSlateGray | Color::LightSlateGrey | Color::LightSteelBlue | Color::LightYellow | Color::Lime | Color::LimeGreen | Color::Linen | Color::Magenta | Color::Maroon | Color::MediumAquamarine | Color::MediumBlue | Color::MediumOrchid | Color::MediumPurple | Color::MediumSeaGreen | Color::MediumSlateBlue | Color::MediumSpringGreen | Color::MediumTurquoise | Color::MediumVioletRed | Color::MidnightBlue | Color::MintCream | Color::MistyRose | Color::Moccasin | Color::NavajoWhite | Color::Navy | Color::OldLace | Color::Olive | Color::OliveDrab | Color::Orange | Color::OrangeRed | Color::Orchid | Color::PaleGoldenrod | Color::PaleGreen | Color::PaleTurquoise => true,
        _ => false,
    }
}

#[verifier::rlimit(100)]
proof fn lemma_named_rt_group3(v: Color)
    requires
        named_rt_group3(v),
    ensures
        Color::spec_parse(v.css(), 0) == Ok::<(Color, int), crate::diag::SpecErr>(
            (v, v.css().len() as int),
        ),
{
    reveal_strlit("hsl");
    reveal_strlit("hsla");
    let s = v.css();
    assert(s.subrange(0, s.len() as int) =~= s);
    lemma_skip_ws(s, s.len() as int);
    match v {
        Color::LightPink => {
            reveal_strlit("lightpink");
            reveal_strlit("lavender");
            reveal_strlit("lavenderblush");
            reveal_strlit("lawngreen");
            reveal_strlit("lemonchiffon");
            reveal_strlit("lightblue");
            reveal_strlit("lightcoral");
            reveal_strlit("lightcyan");
            reveal_strlit("lightgoldenrodyellow");
            reveal_strlit("lightgray");
            reveal_strlit("lightgreen");
            reveal_strlit("lightgrey");
            assert("lightpink"@ != "lavender"@) by {
                assert("lightpink"@.len() == 9);
                assert("lavender"@.len() == 8);
            }
            assert("lightpink"@ != "lavenderblush"@) by {
                assert("lightpink"@.len() == 9);
                assert("lavenderblush"@.len() == 13);
            }
            assert("lightpink"@ != "lawngreen"@) by {
                assert("lightpink"@[1] == 'i');
                assert("lawngreen"@[1] == 'a');
            }
            assert("lightpink"@ != "lemonchiffon"@) by {
                assert("lightpink"@.len() == 9);
                assert("lemonchiffon"@.len() == 12);
            }
            assert("lightpink"@ != "lightblue"@) by {
                assert("lightpink"@[5] == 'p');
                assert("lightblue"@[5] == 'b');
            }
            assert("lightpink"@ != "lightcoral"@) by {
                assert("lightpink"@.len() == 9);
                assert("lightcoral"@.len() == 10);
            }
            assert("lightpink"@ != "lightcyan"@) by {
                assert("lightpink"@[5] == 'p');
                assert("lightcyan"@[5] == 'c');
            }
            assert("lightpink"@ != "lightgoldenrodyellow"@) by {
                assert("lightpink"@.len() == 9);
                assert("lightgoldenrodyellow"@.len() == 20);
            }
            assert("lightpink"@ != "lightgray"@) by {
                assert("lightpink"@[5] == 'p');
                assert("lightgray"@[5] == 'g');
            }
            assert("lightpink"@ != "lightgreen"@) by {
                assert("lightpink"@.len() == 9);
                assert("lightgreen"@.len() == 10);
            }
            assert("lightpink"@ != "lightgrey"@) by {
                assert("lightpink"@[5] == 'p');
                assert("lightgrey"@[5] == 'g');
            }
            assert("lightpink"@ != "hsl"@) by {
                assert("lightpink"@.len() == 9);
                assert("hsl"@.len() == 3);
            }
            assert("lightpink"@ != "hsla"@) by {
                assert("lightpink"@.len() == 9);
                assert("hsla"@.len() == 4);
            }
            assert(word_shape("lightpink"@));
            assert("lightpink"@[0] == 'l');
            lemma_hw_round(s, 0, "lightpink"@);
            assert(crate::color::named_of("lightpink"@) == Option::Some(Color::LightPink));
        },
        Color::LightSalmon => {
            reveal_strlit("lightsalmon");
            reveal_strlit("lavender");
            reveal_strlit("lavenderblush");
            reveal_strlit("lawngreen");
            reveal_strlit("lemonchiffon");
            reveal_strlit("lightblue");
            reveal_strlit("lightcoral");
            reveal_strlit("lightcyan");
            reveal_strlit("lightgoldenrodyellow");
            reveal_strlit("lightgray");
            reveal_strlit("lightgreen");
            reveal_strlit("lightgrey");
            reveal_strlit("lightpink");
            assert("lightsalmon"@ != "lavender"@) by {
                assert("lightsalmon"@.len() == 11);
                assert("lavender"@.len() == 8);
            }
            assert("lightsalmon"@ != "lavenderblush"@) by {
                assert("lightsalmon"@.len() == 11);
                assert("lavenderblush"@.len() == 13);
            }
            assert("lightsalmon"@ != "lawngreen"@) by {
                assert("lightsalmon"@.len() == 11);
                assert("lawngreen"@.len() == 9);
            }
            assert("lightsalmon"@ != "lemonchiffon"@) by {
                assert("lightsalmon"@.len() == 11);
                assert("lemonchiffon"@.len() == 12);
            }
            assert("lightsalmon"@ != "lightblue"@) by {
                assert("lightsalmon"@.len() == 11);
                assert("lightblue"@.len() == 9);
            }
            assert("lightsalmon"@ != "lightcoral"@) by {
                assert("lightsalmon"@.len() == 11);
                assert("lightcoral"@.len() == 10);
            }
            assert("lightsalmon"@ != "lightcyan"@) by {
                assert("lightsalmon"@.len() == 11);
                assert("lightcyan"@.len() == 9);
            }
            assert("lightsalmon"@ != "lightgoldenrodyellow"@) by {
                assert("lightsalmon"@.len() == 11);
                assert("lightgoldenrodyellow"@.len() == 20);
            }
            assert("lightsalmon"@ != "lightgray"@) by {
                assert("lightsalmon"@.len() == 11);
                assert("lightgray"@.len() == 9);
            }
            assert("lightsalmon"@ != "lightgreen"@) by {
                assert("lightsalmon"@.len() == 11);
                assert("lightgreen"@.len() == 10);
            }
            assert("lightsalmon"@ != "lightgrey"@) by {
                assert("lightsalmon"@.len() == 11);
                assert("lightgrey"@.len() == 9);
            }
            assert("lightsalmon"@ != "lightpink"@) by {
                assert("lightsalmon"@.len() == 11);
                assert("lightpink"@.len() == 9);
            }
            assert("lightsalmon"@ != "hsl"@) by {
                assert("lightsalmon"@.len() == 11);
                assert("hsl"@.len() == 3);
            }
            assert("lightsalmon"@ != "hsla"@) by {
                assert("lightsalmon"@.len() == 11);
                assert("hsla"@.len() == 4);
            }
            assert(word_shape("lightsalmon"@));
            assert("lightsalmon"@[0] == 'l');
            lemma_hw_round(s, 0, "lightsalmon"@);
            assert(crate::color::named_of("lightsalmon"@) == Option::Some(Color::LightSalmon));
        },
        Color::LightSeaGreen => {
            reveal_strlit("lightseagreen");
            reveal_strlit("lavender");
            reveal_strlit("lavenderblush");
            reveal_strlit("lawngreen");
            reveal_strlit("lemonchiffon");
            reveal_strlit("lightblue");
            reveal_strlit("lightcoral");
            reveal_strlit("lightcyan");
            reveal_strlit("lightgoldenrodyellow");
            reveal_strlit("lightgray");
            reveal_strlit("lightgreen");
            reveal_strlit("lightgrey");
            reveal_strlit("lightpink");
            reveal_strlit("lightsalmon");
            assert("lightseagreen"@ != "lavender"@) by {
                assert("lightseagreen"@.len() == 13);
                assert("lavender"@.len() == 8);
            }
            assert("lightseagreen"@ != "lavenderblush"@) by {
                assert("lightseagreen"@[1] == 'i');
                assert("lavenderblush"@[1] == 'a');
            }
            assert("lightseagreen"@ != "lawngreen"@) by {
                assert("lightseagreen"@.len() == 13);
                assert("lawngreen"@.len() == 9);
            }
            assert("lightseagreen"@ != "lemonchiffon"@) by {
                assert("lightseagreen"@.len() == 13);
                assert("lemonchiffon"@.len() == 12);
            }
            assert("lightseagreen"@ != "lightblue"@) by {
                assert("lightseagreen"@.len() == 13);
                assert("lightblue"@.len() == 9);
            }
            assert("lightseagreen"@ != "lightcoral"@) by {
                assert("lightseagreen"@.len() == 13);
                assert("lightcoral"@.len() == 10);
            }
            assert("lightseagreen"@ != "lightcyan"@) by {
                assert("lightseagreen"@.len() == 13);
                assert("lightcyan"@.len() == 9);
            }
            assert("lightseagreen"@ != "lightgoldenrodyellow"@) by {
                assert("lightseagreen"@.len() == 13);
                assert("lightgoldenrodyellow"@.len() == 20);
            }
            assert("lightseagreen"@ != "lightgray"@) by {
                assert("lightseagreen"@.len() == 13);
                assert("lightgray"@.len() == 9);
            }
            assert("lightseagreen"@ != "lightgreen"@) by {
                assert("lightseagreen"@.len() == 13);
                assert("lightgreen"@.len() == 10);
            }
            assert("lightseagreen"@ != "lightgrey"@) by {
                assert("lightseagreen"@.len() == 13);
                assert("lightgrey"@.len() == 9);
            }
            assert("lightseagreen"@ != "lightpink"@) by {
                assert("lightseagreen"@.len() == 13);
                assert("lightpink"@.len() == 9);
            }
            assert("lightseagreen"@ != "lightsalmon"@) by {
                assert("lightseagreen"@.len() == 13);
                assert("lightsalmon"@.len() == 11);
            }
            assert("lightseagreen"@ != "hsl"@) by {
                assert("lightseagreen"@.len() == 13);
                assert("hsl"@.len() == 3);
            }
            assert("lightseagreen"@ != "hsla"@) by {
                assert("lightseagreen"@.len() == 13);
                assert("hsla"@.len() == 4);
            }
            assert(word_shape("lightseagreen"@));
            assert("lightseagreen"@[0] == 'l');
            lemma_hw_round(s, 0, "lightseagreen"@);
            assert(crate::color::named_of("lightseagreen"@) == Option::Some(Color::LightSeaGreen));
        },
        Color::LightSkyBlue => {
            reveal_strlit("lightskyblue");
            reveal_strlit("lavender");
            reveal_strlit("lavenderblush");
            reveal_strlit("lawngreen");
            reveal_strlit("lemonchiffon");
            reveal_strlit("lightblue");
            reveal_strlit("lightcoral");
            reveal_strlit("lightcyan");
            reveal_strlit("lightgoldenrodyellow");
            reveal_strlit("lightgray");
            reveal_strlit("lightgreen");
            reveal_strlit("lightgrey");
            reveal_strlit("lightpink");
            reveal_strlit("lightsalmon");
            reveal_strlit("lightseagreen");
            assert("lightskyblue"@ != "lavender"@) by {
                assert("lightskyblue"@.len() == 12);
                assert("lavender"@.len() == 8);
            }
            assert("lightskyblue"@ != "lavenderblush"@) by {
                assert("lightskyblue"@.len() == 12);
                assert("lavenderblush"@.len() == 13);
            }
            assert("lightskyblue"@ != "lawngreen"@) by {
                assert("lightskyblue"@.len() == 12);
                assert("lawngreen"@.len() == 9);
            }
            assert("lightskyblue"@ != "lemonchiffon"@) by {
                assert("lightskyblue"@[1] == 'i');
                assert("lemonchiffon"@[1] == 'e');
            }
            assert("lightskyblue"@ != "lightblue"@) by {
                assert("lightskyblue"@.len() == 12);
                assert("lightblue"@.len() == 9);
            }
            assert("lightskyblue"@ != "lightcoral"@) by {
                assert("lightskyblue"@.len() == 12);
                assert("lightcoral"@.len() == 10);
            }
            assert("lightskyblue"@ != "lightcyan"@) by {
                assert("lightskyblue"@.len() == 12);
                assert("lightcyan"@.len() == 9);
            }
            assert("lightskyblue"@ != "lightgoldenrodyellow"@) by {
                assert("lightskyblue"@.len() == 12);
                assert("lightgoldenrodyellow"@.len() == 20);
            }
            assert("lightskyblue"@ != "lightgray"@) by {
                assert("lightskyblue"@.len() == 12);
                assert("lightgray"@.len() == 9);
            }
            assert("lightskyblue"@ != "lightgreen"@) by {
                assert("lightskyblue"@.len() == 12);
                assert("lightgreen"@.len() == 10);
            }
            assert("lightskyblue"@ != "lightgrey"@) by {
                assert("lightskyblue"@.len() == 12);
                assert("lightgrey"@.len() == 9);
            }
            assert("lightskyblue"@ != "lightpink"@) by {
                assert("lightskyblue"@.len() == 12);
                assert("lightpink"@.len() == 9);
            }
            assert("lightskyblue"@ != "lightsalmon"@) by {
                assert("lightskyblue"@.len() == 12);
                assert("lightsalmon"@.len() == 11);
            }
            assert("lightskyblue"@ != "lightseagreen"@) by {
                assert("lightskyblue"@.len() == 12);
                assert("lightseagreen"@.len() == 13);
            }
            assert("lightskyblue"@ != "hsl"@) by {
                assert("lightskyblue"@.len() == 12);
                assert("hsl"@.len() == 3);
            }
            assert("lightskyblue"@ != "hsla"@) by {
                assert("lightskyblue"@.len() == 12);
                assert("hsla"@.len() == 4);
            }
            assert(word_shape("lightskyblue"@));
            assert("lightskyblue"@[0] == 'l');
            lemma_hw_round(s, 0, "lightskyblue"@);
            assert(crate::color::named_of("lightskyblue"@) == Option::Some(Color::LightSkyBlue));
        },
        Color::LightSlateGray => {
            reveal_strlit("lightslategray");
            reveal_strlit("lavender");
            reveal_strlit("lavenderblush");
            reveal_strlit("lawngreen");
            reveal_strlit("lemonchiffon");
            reveal_strlit("lightblue");
            reveal_strlit("lightcoral");
            reveal_strlit("lightcyan");
            reveal_strlit("lightgoldenrodyellow");
            reveal_strlit("lightgray");
            reveal_strlit("lightgreen");
            reveal_strlit("lightgrey");
            reveal_strlit("lightpink");
            reveal_strlit("lightsalmon");
            reveal_strlit("lightseagreen");
            reveal_strlit("lightskyblue");
            assert("lightslategray"@ != "lavender"@) by {
                assert("lightslategray"@.len() == 14);
                assert("lavender"@.len() == 8);
            }
            assert("lightslategray"@ != "lavenderblush"@) by {
                assert("lightslategray"@.len() == 14);
                assert("lavenderblush"@.len() == 13);
            }
            assert("lightslategray"@ != "lawngreen"@) by {
                assert("lightslategray"@.len() == 14);
                assert("lawngreen"@.len() == 9);
            }
            assert("lightslategray"@ != "lemonchiffon"@) by {
                assert("lightslategray"@.len() == 14);
                assert("lemonchiffon"@.len() == 12);
            }
            assert("lightslategray"@ != "lightblue"@) by {
                assert("lightslategray"@.len() == 14);
                assert("lightblue"@.len() == 9);
            }
            assert("lightslategray"@ != "lightcoral"@) by {
                assert("lightslategray"@.len() == 14);
                assert("lightcoral"@.len() == 10);
            }
            assert("lightslategray"@ != "lightcyan"@) by {
                assert("lightslategray"@.len() == 14);
                assert("lightcyan"@.len() == 9);
            }
            assert("lightslategray"@ != "lightgoldenrodyellow"@) by {
                assert("lightslategray"@.len() == 14);
                assert("lightgoldenrodyellow"@.len() == 20);
            }
            assert("lightslategray"@ != "lightgray"@) by {
                assert("lightslategray"@.len() == 14);
                assert("lightgray"@.len() == 9);
            }
            assert("lightslategray"@ != "lightgreen"@) by {
                assert("lightslategray"@.len() == 14);
                assert("lightgreen"@.len() == 10);
            }
            assert("lightslategray"@ != "lightgrey"@) by {
                assert("lightslategray"@.len() == 14);
                assert("lightgrey"@.len() == 9);
            }
            assert("lightslategray"@ != "lightpink"@) by {
                assert("lightslategray"@.len() == 14);
                assert("lightpink"@.len() == 9);
            }
            assert("lightslategray"@ != "lightsalmon"@) by {
                assert("lightslategray"@.len() == 14);
                assert("lightsalmon"@.len() == 11);
            }
            assert("lightslategray"@ != "lightseagreen"@) by {
                assert("lightslategray"@.len() == 14);
                assert("lightseagreen"@.len() == 13);
            }
            assert("lightslategray"@ != "lightskyblue"@) by {
                assert("lightslategray"@.len() == 14);
                assert("lightskyblue"@.len() == 12);
            }
            assert("lightslategray"@ != "hsl"@) by {
                assert("lightslategray"@.len() == 14);
                assert("hsl"@.len() == 3);
            }
            assert("lightslategray"@ != "hsla"@) by {
                assert("lightslategray"@.len() == 14);
                assert("hsla"@.len() == 4);
            }
            assert(word_shape("lightslategray"@));
            assert("lightslategray"@[0] == 'l');
            lemma_hw_round(s, 0, "lightslategray"@);
            assert(crate::color::named_of("lightslategray"@) == Option::Some(Color::LightSlateGray));
        },
        Color::LightSlateGrey => {
            reveal_strlit("lightslategrey");
            reveal_strlit("lavender");
            reveal_strlit("lavenderblush");
            reveal_strlit("lawngreen");
            reveal_strlit("lemonchiffon");
            reveal_strlit("lightblue");
            reveal_strlit("lightcoral");
            reveal_strlit("lightcyan");
            reveal_strlit("lightgoldenrodyellow");
            reveal_strlit("lightgray");
            reveal_strlit("lightgreen");
            reveal_strlit("lightgrey");
            reveal_strlit("lightpink");
            reveal_strlit("lightsalmon");
            reveal_strlit("lightseagreen");
            reveal_strlit("lightskyblue");
            reveal_strlit("lightslategray");
            assert("lightslategrey"@ != "lavender"@) by {
                assert("lightslategrey"@.len() == 14);
                assert("lavender"@.len() == 8);
            }
            assert("lightslategrey"@ != "lavenderblush"@) by {
                assert("lightslategrey"@.len() == 14);
                assert("lavenderblush"@.len() == 13);
            }
            assert("lightslategrey"@ != "lawngreen"@) by {
                assert("lightslategrey"@.len() == 14);
                assert("lawngreen"@.len() == 9);
            }
            assert("lightslategrey"@ != "lemonchiffon"@) by {
                assert("lightslategrey"@.len() == 14);
                assert("lemonchiffon"@.len() == 12);
            }
            assert("lightslategrey"@ != "lightblue"@) by {
                assert("lightslategrey"@.len() == 14);
                assert("lightblue"@.len() == 9);
            }
            assert("lightslategrey"@ != "lightcoral"@) by {
                assert("lightslategrey"@.len() == 14);
                assert("lightcoral"@.len() == 10);
            }
            assert("lightslategrey"@ != "lightcyan"@) by {
                assert("lightslategrey"@.len() == 14);
                assert("lightcyan"@.len() == 9);
            }
            assert("lightslategrey"@ != "lightgoldenrodyellow"@) by {
                assert("lightslategrey"@.len() == 14);
                assert("lightgoldenrodyellow"@.len() == 20);
            }
            assert("lightslategrey"@ != "lightgray"@) by {
                assert("lightslategrey"@.len() == 14);
                assert("lightgray"@.len() == 9);
            }
            assert("lightslategrey"@ != "lightgreen"@) by {
                assert("lightslategrey"@.len() == 14);
                assert("lightgreen"@.len() == 10);
            }
            assert("lightslategrey"@ != "lightgrey"@) by {
                assert("lightslategrey"@.len() == 14);
                assert("lightgrey"@.len() == 9);
            }
            assert("lightslategrey"@ != "lightpink"@) by {
                assert("lightslategrey"@.len() == 14);
                assert("lightpink"@.len() == 9);
            }
            assert("lightslategrey"@ != "lightsalmon"@) by {
                assert("lightslategrey"@.len() == 14);
                assert("lightsalmon"@.len() == 11);
            }
            assert("lightslategrey"@ != "lightseagreen"@) by {
                assert("lightslategrey"@.len() == 14);
                assert("lightseagreen"@.len() == 13);
            }
            assert("lightslategrey"@ != "lightskyblue"@) by {
                assert("lightslategrey"@.len() == 14);
                assert("lightskyblue"@.len() == 12);
            }
            assert("lightslategrey"@ != "lightslategray"@) by {
                assert("lightslategrey"@[12] == 'e');
                assert("lightslategray"@[12] == 'a');
            }
            assert("lightslategrey"@ != "hsl"@) by {
                assert("lightslategrey"@.len() == 14);
                assert("hsl"@.len() == 3);
            }
            assert("lightslategrey"@ != "hsla"@) by {
                assert("lightslategrey"@.len() == 14);
                assert("hsla"@.len() == 4);
            }
            assert(word_shape("lightslategrey"@));
            assert("lightslategrey"@[0] == 'l');
            lemma_hw_round(s, 0, "lightslategrey"@);
            assert(crate::color::named_of("lightslategrey"@) == Option::Some(Color::LightSlateGrey));
        },
        Color::LightSteelBlue => {
            reveal_strlit("lightsteelblue");
            reveal_strlit("lavender");
            reveal_strlit("lavenderblush");
            reveal_strlit("lawngreen");
            reveal_strlit("lemonchiffon");
            reveal_strlit("lightblue");
            reveal_strlit("lightcoral");
            reveal_strlit("lightcyan");
            reveal_strlit("lightgoldenrodyellow");
            reveal_strlit("lightgray");
            reveal_strlit("lightgreen");
            reveal_strlit("lightgrey");
            reveal_strlit("lightpink");
            reveal_strlit("lightsalmon");
            reveal_strlit("lightseagreen");
            reveal_strlit("lightskyblue");
            reveal_strlit("lightslategray");
            reveal_strlit("lightslategrey");
            assert("lightsteelblue"@ != "lavender"@) by {
                assert("lightsteelblue"@.len() == 14);
                assert("lavender"@.len() == 8);
            }
            assert("lightsteelblue"@ != "lavenderblush"@) by {
                assert("lightsteelblue"@.len() == 14);
                assert("lavenderblush"@.len() == 13);
            }
            assert("lightsteelblue"@ != "lawngreen"@) by {
                assert("lightsteelblue"@.len() == 14);
                assert("lawngreen"@.len() == 9);
            }
            assert("lightsteelblue"@ != "lemonchiffon"@) by {
                assert("lightsteelblue"@.len() == 14);
                assert("lemonchiffon"@.len() == 12);
            }
            assert("lightsteelblue"@ != "lightblue"@) by {
                assert("lightsteelblue"@.len() == 14);
                assert("lightblue"@.len() == 9);
            }
            assert("lightsteelblue"@ != "lightcoral"@) by {
                assert("lightsteelblue"@.len() == 14);
                assert("lightcoral"@.len() == 10);
            }
            assert("lightsteelblue"@ != "lightcyan"@) by {
                assert("lightsteelblue"@.len() == 14);
                assert("lightcyan"@.len() == 9);
            }
            assert("lightsteelblue"@ != "lightgoldenrodyellow"@) by {
                assert("lightsteelblue"@.len() == 14);
                assert("lightgoldenrodyellow"@.len() == 20);
            }
            assert("lightsteelblue"@ != "lightgray"@) by {
                assert("lightsteelblue"@.len() == 14);
                assert("lightgray"@.len() == 9);
            }
            assert("lightsteelblue"@ != "lightgreen"@) by {
                assert("lightsteelblue"@.len() == 14);
                assert("lightgreen"@.len() == 10);
            }
            assert("lightsteelblue"@ != "lightgrey"@) by {
                assert("lightsteelblue"@.len() == 14);
                assert("lightgrey"@.len() == 9);
            }
            assert("lightsteelblue"@ != "lightpink"@) by {
                assert("lightsteelblue"@.len() == 14);
                assert("lightpink"@.len() == 9);
            }
            assert("lightsteelblue"@ != "lightsalmon"@) by {
                assert("lightsteelblue"@.len() == 14);
                assert("lightsalmon"@.len() == 11);
            }
            assert("lightsteelblue"@ != "lightseagreen"@) by {
                assert("lightsteelblue"@.len() == 14);
                assert("lightseagreen"@.len() == 13);
            }
            assert("lightsteelblue"@ != "lightskyblue"@) by {
                assert("lightsteelblue"@.len() == 14);
                assert("lightskyblue"@.len() == 12);
            }
            assert("lightsteelblue"@ != "lightslategray"@) by {
                assert("lightsteelblue"@[6] == 't');
                assert("lightslategray"@[6] == 'l');
            }
            assert("lightsteelblue"@ != "lightslategrey"@) by {
                assert("lightsteelblue"@[6] == 't');
                assert("lightslategrey"@[6] == 'l');
            }
            assert("lightsteelblue"@ != "hsl"@) by {
                assert("lightsteelblue"@.len() == 14);
                assert("hsl"@.len() == 3);
            }
            assert("lightsteelblue"@ != "hsla"@) by {
                assert("lightsteelblue"@.len() == 14);
                assert("hsla"@.len() == 4);
            }
            assert(word_shape("lightsteelblue"@));
            assert("lightsteelblue"@[0] == 'l');
            lemma_hw_round(s, 0, "lightsteelblue"@);
            assert(crate::color::named_of("lightsteelblue"@) == Option::Some(Color::LightSteelBlue));
        },
        Color::LightYellow => {
            reveal_strlit("lightyellow");
            reveal_strlit("lavender");
            reveal_strlit("lavenderblush");
            reveal_strlit("lawngreen");
            reveal_strlit("lemonchiffon");
            reveal_strlit("lightblue");
            reveal_strlit("lightcoral");
            reveal_strlit("lightcyan");
            reveal_strlit("lightgoldenrodyellow");
            reveal_strlit("lightgray");
            reveal_strlit("lightgreen");
            reveal_strlit("lightgrey");
            reveal_strlit("lightpink");
            reveal_strlit("lightsalmon");
            reveal_strlit("lightseagreen");
            reveal_strlit("lightskyblue");
            reveal_strlit("lightslategray");
            reveal_strlit("lightslategrey");
            reveal_strlit("lightsteelblue");
            assert("lightyellow"@ != "lavender"@) by {
                assert("lightyellow"@.len() == 11);
                assert("lavender"@.len() == 8);
            }
            assert("lightyellow"@ != "lavenderblush"@) by {
                assert("lightyellow"@.len() == 11);
                assert("lavenderblush"@.len() == 13);
            }
            assert("lightyellow"@ != "lawngreen"@) by {
                assert("lightyellow"@.len() == 11);
                assert("lawngreen"@.len() == 9);
            }
            assert("lightyellow"@ != "lemonchiffon"@) by {
                assert("lightyellow"@.len() == 11);
                assert("lemonchiffon"@.len() == 12);
            }
            assert("lightyellow"@ != "lightblue"@) by {
                assert("lightyellow"@.len() == 11);
                assert("lightblue"@.len() == 9);
            }
            assert("lightyellow"@ != "lightcoral"@) by {
                assert("lightyellow"@.len() == 11);
                assert("lightcoral"@.len() == 10);
            }
            assert("lightyellow"@ != "lightcyan"@) by {
                assert("lightyellow"@.len() == 11);
                assert("lightcyan"@.len() == 9);
            }
            assert("lightyellow"@ != "lightgoldenrodyellow"@) by {
                assert("lightyellow"@.len() == 11);
                assert("lightgoldenrodyellow"@.len() == 20);
            }
            assert("lightyellow"@ != "lightgray"@) by {
                assert("lightyellow"@.len() == 11);
                assert("lightgray"@.len() == 9);
            }
            assert("lightyellow"@ != "lightgreen"@) by {
                assert("lightyellow"@.len() == 11);
                assert("lightgreen"@.len() == 10);
            }
            assert("lightyellow"@ != "lightgrey"@) by {
                assert("lightyellow"@.len() == 11);
                assert("lightgrey"@.len() == 9);
            }
            assert("lightyellow"@ != "lightpink"@) by {
                assert("lightyellow"@.len() == 11);
                assert("lightpink"@.len() == 9);
            }
            assert("lightyellow"@ != "lightsalmon"@) by {
                assert("lightyellow"@[5] == 'y');
                assert("lightsalmon"@[5] == 's');
            }
            assert("lightyellow"@ != "lightseagreen"@) by {
                assert("lightyellow"@.len() == 11);
                assert("lightseagreen"@.len() == 13);
            }
            assert("lightyellow"@ != "lightskyblue"@) by {
                assert("lightyellow"@.len() == 11);
                assert("lightskyblue"@.len() == 12);
            }
            assert("lightyellow"@ != "lightslategray"@) by {
                assert("lightyellow"@.len() == 11);
                assert("lightslategray"@.len() == 14);
            }
            assert("lightyellow"@ != "lightslategrey"@) by {
                assert("lightyellow"@.len() == 11);
                assert("lightslategrey"@.len() == 14);
            }
            assert("lightyellow"@ != "lightsteelblue"@) by {
                assert("lightyellow"@.len() == 11);
                assert("lightsteelblue"@.len() == 14);
            }
            assert("lightyellow"@ != "hsl"@) by {
                assert("lightyellow"@.len() == 11);
                assert("hsl"@.len() == 3);
            }
            assert("lightyellow"@ != "hsla"@) by {
                assert("lightyellow"@.len() == 11);
                assert("hsla"@.len() == 4);
            }
            assert(word_shape("lightyellow"@));
            assert("lightyellow"@[0] == 'l');
            lemma_hw_round(s, 0, "lightyellow"@);
            assert(crate::color::named_of("lightyellow"@) == Option::Some(Color::LightYellow));
        },
        Color::Lime => {
            reveal_strlit("lime");
            reveal_strlit("lavender");
            reveal_strlit("lavenderblush");
            reveal_strlit("lawngreen");
            reveal_strlit("lemonchiffon");
            reveal_strlit("lightblue");
            reveal_strlit("lightcoral");
            reveal_strlit("lightcyan");
            reveal_strlit("lightgoldenrodyellow");
            reveal_strlit("lightgray");
            reveal_strlit("lightgreen");
            reveal_strlit("lightgrey");
            reveal_strlit("lightpink");
            reveal_strlit("lightsalmon");
            reveal_strlit("lightseagreen");
            reveal_strlit("lightskyblue");
            reveal_strlit("lightslategray");
            reveal_strlit("lightslategrey");
            reveal_strlit("lightsteelblue");
            reveal_strlit("lightyellow");
            assert("lime"@ != "lavender"@) by {
                assert("lime"@.len() == 4);
                assert("lavender"@.len() == 8);
            }
            assert("lime"@ != "lavenderblush"@) by {
                assert("lime"@.len() == 4);
                assert("lavenderblush"@.len() == 13);
            }
            assert("lime"@ != "lawngreen"@) by {
                assert("lime"@.len() == 4);
                assert("lawngreen"@.len() == 9);
            }
            assert("lime"@ != "lemonchiffon"@) by {
                assert("lime"@.len() == 4);
                assert("lemonchiffon"@.len() == 12);
            }
            assert("lime"@ != "lightblue"@) by {
                assert("lime"@.len() == 4);
                assert("lightblue"@.len() == 9);
            }
            assert("lime"@ != "lightcoral"@) by {
                assert("lime"@.len() == 4);
                assert("lightcoral"@.len() == 10);
            }
            assert("lime"@ != "lightcyan"@) by {
                assert("lime"@.len() == 4);
                assert("lightcyan"@.len() == 9);
            }
            assert("lime"@ != "lightgoldenrodyellow"@) by {
                assert("lime"@.len() == 4);
                assert("lightgoldenrodyellow"@.len() == 20);
            }
            assert("lime"@ != "lightgray"@) by {
                assert("lime"@.len() == 4);
                assert("lightgray"@.len() == 9);
            }
            assert("lime"@ != "lightgreen"@) by {
                assert("lime"@.len() == 4);
                assert("lightgreen"@.len() == 10);
            }
            assert("lime"@ != "lightgrey"@) by {
                assert("lime"@.len() == 4);
                assert("lightgrey"@.len() == 9);
            }
            assert("lime"@ != "lightpink"@) by {
                assert("lime"@.len() == 4);
                assert("lightpink"@.len() == 9);
            }
            assert("lime"@ != "lightsalmon"@) by {
                assert("lime"@.len() == 4);
                assert("lightsalmon"@.len() == 11);
            }
            assert("lime"@ != "lightseagreen"@) by {
                assert("lime"@.len() == 4);
                assert("lightseagreen"@.len() == 13);
            }
            assert("lime"@ != "lightskyblue"@) by {
                assert("lime"@.len() == 4);
                assert("lightskyblue"@.len() == 12);
            }
            assert("lime"@ != "lightslategray"@) by {
                assert("lime"@.len() == 4);
                assert("lightslategray"@.len() == 14);
            }
            assert("lime"@ != "lightslategrey"@) by {
                assert("lime"@.len() == 4);
                assert("lightslategrey"@.len() == 14);
            }
            assert("lime"@ != "lightsteelblue"@) by {
                assert("lime"@.len() == 4);
                assert("lightsteelblue"@.len() == 14);
            }
            assert("lime"@ != "lightyellow"@) by {
                assert("lime"@.len() == 4);
                assert("lightyellow"@.len() == 11);
            }
            assert("lime"@ != "hsl"@) by {
                assert("lime"@.len() == 4);
                assert("hsl"@.len() == 3);
            }
            assert("lime"@ != "hsla"@) by {
                assert("lime"@[0] == 'l');
                assert("hsla"@[0] == 'h');
            }
            assert(word_shape("lime"@));
            assert("lime"@[0] == 'l');
            lemma_hw_round(s, 0, "lime"@);
            assert(crate::color::named_of("lime"@) == Option::Some(Color::Lime));
        },
        Color::LimeGreen => {
            reveal_strlit("limegreen");
            reveal_strlit("lavender");
            reveal_strlit("lavenderblush");
            reveal_strlit("lawngreen");
            reveal_strlit("lemonchiffon");
            reveal_strlit("lightblue");
            reveal_strlit("lightcoral");
            reveal_strlit("lightcyan");
            reveal_strlit("lightgoldenrodyellow");
            reveal_strlit("lightgray");
            reveal_strlit("lightgreen");
            reveal_strlit("lightgrey");
            reveal_strlit("lightpink");
            reveal_strlit("lightsalmon");
            reveal_strlit("lightseagreen");
            reveal_strlit("lightskyblue");
            reveal_strlit("lightslategray");
            reveal_strlit("lightslategrey");
            reveal_strlit("lightsteelblue");
            reveal_strlit("lightyellow");
            reveal_strlit("lime");
            assert("limegreen"@ != "lavender"@) by {
                assert("limegreen"@.len() == 9);
                assert("lavender"@.len() == 8);
            }
            assert("limegreen"@ != "lavenderblush"@) by {
                assert("limegreen"@.len() == 9);
                assert("lavenderblush"@.len() == 13);
            }
            assert("limegreen"@ != "lawngreen"@) by {
                assert("limegreen"@[1] == 'i');
                assert("lawngreen"@[1] == 'a');
            }
            assert("limegreen"@ != "lemonchiffon"@) by {
                assert("limegreen"@.len() == 9);
                assert("lemonchiffon"@.len() == 12);
            }
            assert("limegreen"@ != "lightblue"@) by {
                assert("limegreen"@[2] == 'm');
                assert("lightblue"@[2] == 'g');
            }
            assert("limegreen"@ != "lightcoral"@) by {
                assert("limegreen"@.len() == 9);
                assert("lightcoral"@.len() == 10);
            }
            assert("limegreen"@ != "lightcyan"@) by {
                assert("limegreen"@[2] == 'm');
                assert("lightcyan"@[2] == 'g');
            }
            assert("limegreen"@ != "lightgoldenrodyellow"@) by {
                assert("limegreen"@.len() == 9);
                assert("lightgoldenrodyellow"@.len() == 20);
            }
            assert("limegreen"@ != "lightgray"@) by {
                assert("limegreen"@[2] == 'm');
                assert("lightgray"@[2] == 'g');
            }
            assert("limegreen"@ != "lightgreen"@) by {
                assert("limegreen"@.len() == 9);
                assert("lightgreen"@.len() == 10);
            }
            assert("limegreen"@ != "lightgrey"@) by {
                assert("limegreen"@[2] == 'm');
                assert("lightgrey"@[2] == 'g');
            }
            assert("limegreen"@ != "lightpink"@) by {
                assert("limegreen"@[2] == 'm');
                assert("lightpink"@[2] == 'g');
            }
            assert("limegreen"@ != "lightsalmon"@) by {
                assert("limegreen"@.len() == 9);
                assert("lightsalmon"@.len() == 11);
            }
            assert("limegreen"@ != "lightseagreen"@) by {
                assert("limegreen"@.len() == 9);
                assert("lightseagreen"@.len() == 13);
            }
            assert("limegreen"@ != "lightskyblue"@) by {
                assert("limegreen"@.len() == 9);
                assert("lightskyblue"@.len() == 12);
            }
            assert("limegreen"@ != "lightslategray"@) by {
                assert("limegreen"@.len() == 9);
                assert("lightslategray"@.len() == 14);
            }
            assert("limegreen"@ != "lightslategrey"@) by {
                assert("limegreen"@.len() == 9);
                assert("lightslategrey"@.len() == 14);
            }
            assert("limegreen"@ != "lightsteelblue"@) by {
                assert("limegreen"@.len() == 9);
                assert("lightsteelblue"@.len() == 14);
            }
            assert("limegreen"@ != "lightyellow"@) by {
                assert("limegreen"@.len() == 9);
                assert("lightyellow"@.len() == 11);
            }
            assert("limegreen"@ != "lime"@) by {
                assert("limegreen"@.len() == 9);
                assert("lime"@.len() == 4);
            }
            assert("limegreen"@ != "hsl"@) by {
                assert("limegreen"@.len() == 9);
                assert("hsl"@.len() == 3);
            }
            assert("limegreen"@ != "hsla"@) by {
                assert("limegreen"@.len() == 9);
                assert("hsla"@.len() == 4);
            }
            assert(word_shape("limegreen"@));
            assert("limegreen"@[0] == 'l');
            lemma_hw_round(s, 0, "limegreen"@);
            assert(crate::color::named_of("limegreen"@) == Option::Some(Color::LimeGreen));
        },
        Color::Linen => {
            reveal_strlit("linen");
            reveal_strlit("lavender");
            reveal_strlit("lavenderblush");
            reveal_strlit("lawngreen");
            reveal_strlit("lemonchiffon");
            reveal_strlit("lightblue");
            reveal_strlit("lightcoral");
            reveal_strlit("lightcyan");
            reveal_strlit("lightgoldenrodyellow");
            reveal_strlit("lightgray");
            reveal_strlit("lightgreen");
            reveal_strlit("lightgrey");
            reveal_strlit("lightpink");
            reveal_strlit("lightsalmon");
            reveal_strlit("lightseagreen");
            reveal_strlit("lightskyblue");
            reveal_strlit("lightslategray");
            reveal_strlit("lightslategrey");
            reveal_strlit("lightsteelblue");
            reveal_strlit("lightyellow");
            reveal_strlit("lime");
            reveal_strlit("limegreen");
            assert("linen"@ != "lavender"@) by {
                assert("linen"@.len() == 5);
                assert("lavender"@.len() == 8);
            }
            assert("linen"@ != "lavenderblush"@) by {
                assert("linen"@.len() == 5);
                assert("lavenderblush"@.len() == 13);
            }
            assert("linen"@ != "lawngreen"@) by {
                assert("linen"@.len() == 5);
                assert("lawngreen"@.len() == 9);
            }
            assert("linen"@ != "lemonchiffon"@) by {
                assert("linen"@.len() == 5);
                assert("lemonchiffon"@.len() == 12);
            }
            assert("linen"@ != "lightblue"@) by {
                assert("linen"@.len() == 5);
                assert("lightblue"@.len() == 9);
            }
            assert("linen"@ != "lightcoral"@) by {
                assert("linen"@.len() == 5);
                assert("lightcoral"@.len() == 10);
            }
            assert("linen"@ != "lightcyan"@) by {
                assert("linen"@.len() == 5);
                assert("lightcyan"@.len() == 9);
            }
            assert("linen"@ != "lightgoldenrodyellow"@) by {
                assert("linen"@.len() == 5);
                assert("lightgoldenrodyellow"@.len() == 20);
            }
            assert("linen"@ != "lightgray"@) by {
                assert("linen"@.len() == 5);
                assert("lightgray"@.len() == 9);
            }
            assert("linen"@ != "lightgreen"@) by {
                assert("linen"@.len() == 5);
                assert("lightgreen"@.len() == 10);
            }
            assert("linen"@ != "lightgrey"@) by {
                assert("linen"@.len() == 5);
                assert("lightgrey"@.len() == 9);
            }
            assert("linen"@ != "lightpink"@) by {
                assert("linen"@.len() == 5);
                assert("lightpink"@.len() == 9);
            }
            assert("linen"@ != "lightsalmon"@) by {
                assert("linen"@.len() == 5);
                assert("lightsalmon"@.len() == 11);
            }
            assert("linen"@ != "lightseagreen"@) by {
                assert("linen"@.len() == 5);
                assert("lightseagreen"@.len() == 13);
            }
            assert("linen"@ != "lightskyblue"@) by {
                assert("linen"@.len() == 5);
                assert("lightskyblue"@.len() == 12);
            }
            assert("linen"@ != "lightslategray"@) by {
                assert("linen"@.len() == 5);
                assert("lightslategray"@.len() == 14);
            }
            assert("linen"@ != "lightslategrey"@) by {
                assert("linen"@.len() == 5);
                assert("lightslategrey"@.len() == 14);
            }
            assert("linen"@ != "lightsteelblue"@) by {
                assert("linen"@.len() == 5);
                assert("lightsteelblue"@.len() == 14);
            }
            assert("linen"@ != "lightyellow"@) by {
                assert("linen"@.len() == 5);
                assert("lightyellow"@.len() == 11);
            }
            assert("linen"@ != "lime"@) by {
                assert("linen"@.len() == 5);
                assert("lime"@.len() == 4);
            }
            assert("linen"@ != "limegreen"@) by {
                assert("linen"@.len() == 5);
                assert("limegreen"@.len() == 9);
            }
            assert("linen"@ != "hsl"@) by {
                assert("linen"@.len() == 5);
                assert("hsl"@.len() == 3);
            }
            assert("linen"@ != "hsla"@) by {
                assert("linen"@.len() == 5);
                assert("hsla"@.len() == 4);
            }
            assert(word_shape("linen"@));
            assert("linen"@[0] == 'l');
            lemma_hw_round(s, 0, "linen"@);
            assert(crate::color::named_of("linen"@) == Option::Some(Color::Linen));
        },
        Color::Magenta => {
            reveal_strlit("magenta");
            assert("magenta"@ != "hsl"@) by {
                assert("magenta"@.len() == 7);
                assert("hsl"@.len() == 3);
            }
            assert("magenta"@ != "hsla"@) by {
                assert("magenta"@.len() == 7);
                assert("hsla"@.len() == 4);
            }
            assert(word_shape("magenta"@));
            assert("magenta"@[0] == 'm');
            lemma_hw_round(s, 0, "magenta"@);
            assert(crate::color::named_of("magenta"@) == Option::Some(Color::Magenta));
        },
        Color::Maroon => {
            reveal_strlit("maroon");
            reveal_strlit("magenta");
            assert("maroon"@ != "magenta"@) by {
                assert("maroon"@.len() == 6);
                assert("magenta"@.len() == 7);
            }
            assert("maroon"@ != "hsl"@) by {
                assert("maroon"@.len() == 6);
                assert("hsl"@.len() == 3);
            }
            assert("maroon"@ != "hsla"@) by {
                assert("maroon"@.len() == 6);
                assert("hsla"@.len() == 4);
            }
            assert(word_shape("maroon"@));
            assert("maroon"@[0] == 'm');
            lemma_hw_round(s, 0, "maroon"@);
            assert(crate::color::named_of("maroon"@) == Option::Some(Color::Maroon));
        },
        Color::MediumAquamarine => {
            reveal_strlit("mediumaquamarine");
            reveal_strlit("magenta");
            reveal_strlit("maroon");
            assert("mediumaquamarine"@ != "magenta"@) by {
                assert("mediumaquamarine"@.len() == 16);
                assert("magenta"@.len() == 7);
            }
            assert("mediumaquamarine"@ != "maroon"@) by {
                assert("mediumaquamarine"@.len() == 16);
                assert("maroon"@.len() == 6);
            }
            assert("mediumaquamarine"@ != "hsl"@) by {
                assert("mediumaquamarine"@.len() == 16);
                assert("hsl"@.len() == 3);
            }
            assert("mediumaquamarine"@ != "hsla"@) by {
                assert("mediumaquamarine"@.len() == 16);
                assert("hsla"@.len() == 4);
            }
            assert(word_shape("mediumaquamarine"@));
            assert("mediumaquamarine"@[0] == 'm');
            lemma_hw_round(s, 0, "mediumaquamarine"@);
            assert(crate::color::named_of("mediumaquamarine"@) == Option::Some(Color::MediumAquamarine));
        },
        Color::MediumBlue => {
            reveal_strlit("mediumblue");
            reveal_strlit("magenta");
            reveal_strlit("maroon");
            reveal_strlit("mediumaquamarine");
            assert("mediumblue"@ != "magenta"@) by {
                assert("mediumblue"@.len() == 10);
                assert("magenta"@.len() == 7);
            }
            assert("mediumblue"@ != "maroon"@) by {
                assert("mediumblue"@.len() == 10);
                assert("maroon"@.len() == 6);
            }
            assert("mediumblue"@ != "mediumaquamarine"@) by {
                assert("mediumblue"@.len() == 10);
                assert("mediumaquamarine"@.len() == 16);
            }
            assert("mediumblue"@ != "hsl"@) by {
                assert("mediumblue"@.len() == 10);
                assert("hsl"@.len() == 3);
            }
            assert("mediumblue"@ != "hsla"@) by {
                assert("mediumblue"@.len() == 10);
                assert("hsla"@.len() == 4);
            }
            assert(word_shape("mediumblue"@));
            assert("mediumblue"@[0] == 'm');
            lemma_hw_round(s, 0, "mediumblue"@);
            assert(crate::color::named_of("mediumblue"@) == Option::Some(Color::MediumBlue));
        },
        Color::MediumOrchid => {
            reveal_strlit("mediumorchid");
            reveal_strlit("magenta");
            reveal_strlit("maroon");
            reveal_strlit("mediumaquamarine");
            reveal_strlit("mediumblue");
            assert("mediumorchid"@ != "magenta"@) by {
                assert("mediumorchid"@.len() == 12);
                assert("magenta"@.len() == 7);
            }
            assert("mediumorchid"@ != "maroon"@) by {
                assert("mediumorchid"@.len() == 12);
                assert("maroon"@.len() == 6);
            }
            assert("mediumorchid"@ != "mediumaquamarine"@) by {
                assert("mediumorchid"@.len() == 12);
                assert("mediumaquamarine"@.len() == 16);
            }
            assert("mediumorchid"@ != "mediumblue"@) by {
                assert("mediumorchid"@.len() == 12);
                assert("mediumblue"@.len() == 10);
            }
            assert("mediumorchid"@ != "hsl"@) by {
                assert("mediumorchid"@.len() == 12);
                assert("hsl"@.len() == 3);
            }
            assert("mediumorchid"@ != "hsla"@) by {
                assert("mediumorchid"@.len() == 12);
                assert("hsla"@.len() == 4);
            }
            assert(word_shape("mediumorchid"@));
            assert("mediumorchid"@[0] == 'm');
            lemma_hw_round(s, 0, "mediumorchid"@);
            assert(crate::color::named_of("mediumorchid"@) == Option::Some(Color::MediumOrchid));
        },
        Color::MediumPurple => {
            reveal_strlit("mediumpurple");
            reveal_strlit("magenta");
            reveal_strlit("maroon");
            reveal_strlit("mediumaquamarine");
            reveal_strlit("mediumblue");
            reveal_strlit("mediumorchid");
            assert("mediumpurple"@ != "magenta"@) by {
                assert("mediumpurple"@.len() == 12);
                assert("magenta"@.len() == 7);
            }
            assert("mediumpurple"@ != "maroon"@) by {
                assert("mediumpurple"@.len() == 12);
                assert("maroon"@.len() == 6);
            }
            assert("mediumpurple"@ != "mediumaquamarine"@) by {
                assert("mediumpurple"@.len() == 12);
                assert("mediumaquamarine"@.len() == 16);
            }
            assert("mediumpurple"@ != "mediumblue"@) by {
                assert("mediumpurple"@.len() == 12);
                assert("mediumblue"@.len() == 10);
            }
            assert("mediumpurple"@ != "mediumorchid"@) by {
                assert("mediumpurple"@[6] == 'p');
                assert("mediumorchid"@[6] == 'o');
            }
            assert("mediumpurple"@ != "hsl"@) by {
                assert("mediumpurple"@.len() == 12);
                assert("hsl"@.len() == 3);
            }
            assert("mediumpurple"@ != "hsla"@) by {
                assert("mediumpurple"@.len() == 12);
                assert("hsla"@.len() == 4);
            }
            assert(word_shape("mediumpurple"@));
            assert("mediumpurple"@[0] == 'm');
            lemma_hw_round(s, 0, "mediumpurple"@);
            assert(crate::color::named_of("mediumpurple"@) == Option::Some(Color::MediumPurple));
        },
        Color::MediumSeaGreen => {
            reveal_strlit("mediumseagreen");
            reveal_strlit("magenta");
            reveal_strlit("maroon");
            reveal_strlit("mediumaquamarine");
            reveal_strlit("mediumblue");
            reveal_strlit("mediumorchid");
            reveal_strlit("mediumpurple");
            assert("mediumseagreen"@ != "magenta"@) by {
                assert("mediumseagreen"@.len() == 14);
                assert("magenta"@.len() == 7);
            }
            assert("mediumseagreen"@ != "maroon"@) by {
                assert("mediumseagreen"@.len() == 14);
                assert("maroon"@.len() == 6);
            }
            assert("mediumseagreen"@ != "mediumaquamarine"@) by {
                assert("mediumseagreen"@.len() == 14);
                assert("mediumaquamarine"@.len() == 16);
            }
            assert("mediumseagreen"@ != "mediumblue"@) by {
                assert("mediumseagreen"@.len() == 14);
                assert("mediumblue"@.len() == 10);
            }
            assert("mediumseagreen"@ != "mediumorchid"@) by {
                assert("mediumseagreen"@.len() == 14);
                assert("mediumorchid"@.len() == 12);
            }
            assert("mediumseagreen"@ != "mediumpurple"@) by {
                assert("mediumseagreen"@.len() == 14);
                assert("mediumpurple"@.len() == 12);
            }
            assert("mediumseagreen"@ != "hsl"@) by {
                assert("mediumseagreen"@.len() == 14);
                assert("hsl"@.len() == 3);
            }
            assert("mediumseagreen"@ != "hsla"@) by {
                assert("mediumseagreen"@.len() == 14);
                assert("hsla"@.len() == 4);
            }
            assert(word_shape("mediumseagreen"@));
            assert("mediumseagreen"@[0] == 'm');
            lemma_hw_round(s, 0, "mediumseagreen"@);
            assert(crate::color::named_of("mediumseagreen"@) == Option::Some(Color::MediumSeaGreen));
        },
        Color::MediumSlateBlue => {
            reveal_strlit("mediumslateblue");
            reveal_strlit("magenta");
            reveal_strlit("maroon");
            reveal_strlit("mediumaquamarine");
            reveal_strlit("mediumblue");
            reveal_strlit("mediumorchid");
            reveal_strlit("mediumpurple");
            reveal_strlit("mediumseagreen");
            assert("mediumslateblue"@ != "magenta"@) by {
                assert("mediumslateblue"@.len() == 15);
                assert("magenta"@.len() == 7);
            }
            assert("mediumslateblue"@ != "maroon"@) by {
                assert("mediumslateblue"@.len() == 15);
                assert("maroon"@.len() == 6);
            }
            assert("mediumslateblue"@ != "mediumaquamarine"@) by {
                assert("mediumslateblue"@.len() == 15);
                assert("mediumaquamarine"@.len() == 16);
            }
            assert("mediumslateblue"@ != "mediumblue"@) by {
                assert("mediumslateblue"@.len() == 15);
                assert("mediumblue"@.len() == 10);
            }
            assert("mediumslateblue"@ != "mediumorchid"@) by {
                assert("mediumslateblue"@.len() == 15);
                assert("mediumorchid"@.len() == 12);
            }
            assert("mediumslateblue"@ != "mediumpurple"@) by {
                assert("mediumslateblue"@.len() == 15);
                assert("mediumpurple"@.len() == 12);
            }
            assert("mediumslateblue"@ != "mediumseagreen"@) by {
                assert("mediumslateblue"@.len() == 15);
                assert("mediumseagreen"@.len() == 14);
            }
            assert("mediumslateblue"@ != "hsl"@) by {
                assert("mediumslateblue"@.len() == 15);
                assert("hsl"@.len() == 3);
            }
            assert("mediumslateblue"@ != "hsla"@) by {
                assert("mediumslateblue"@.len() == 15);
                assert("hsla"@.len() == 4);
            }
            assert(word_shape("mediumslateblue"@));
            assert("mediumslateblue"@[0] == 'm');
            lemma_hw_round(s, 0, "mediumslateblue"@);
            assert(crate::color::named_of("mediumslateblue"@) == Option::Some(Color::MediumSlateBlue));
        },
        Color::MediumSpringGreen => {
            reveal_strlit("mediumspringgreen");
            reveal_strlit("magenta");
            reveal_strlit("maroon");
            reveal_strlit("mediumaquamarine");
            reveal_strlit("mediumblue");
            reveal_strlit("mediumorchid");
            reveal_strlit("mediumpurple");
            reveal_strlit("mediumseagreen");
            reveal_strlit("mediumslateblue");
            assert("mediumspringgreen"@ != "magenta"@) by {
                assert("mediumspringgreen"@.len() == 17);
                assert("magenta"@.len() == 7);
            }
            assert("mediumspringgreen"@ != "maroon"@) by {
                assert("mediumspringgreen"@.len() == 17);
                assert("maroon"@.len() == 6);
            }
            assert("mediumspringgreen"@ != "mediumaquamarine"@) by {
                assert("mediumspringgreen"@.len() == 17);
                assert("mediumaquamarine"@.len() == 16);
            }
            assert("mediumspringgreen"@ != "mediumblue"@) by {
                assert("mediumspringgreen"@.len() == 17);
                assert("mediumblue"@.len() == 10);
            }
            assert("mediumspringgreen"@ != "mediumorchid"@) by {
                assert("mediumspringgreen"@.len() == 17);
                assert("mediumorchid"@.len() == 12);
            }
            assert("mediumspringgreen"@ != "mediumpurple"@) by {
                assert("mediumspringgreen"@.len() == 17);
                assert("mediumpurple"@.len() == 12);
            }
            assert("mediumspringgreen"@ != "mediumseagreen"@) by {
                assert("mediumspringgreen"@.len() == 17);
                assert("mediumseagreen"@.len() == 14);
            }
            assert("mediumspringgreen"@ != "mediumslateblue"@) by {
                assert("mediumspringgreen"@.len() == 17);
                assert("mediumslateblue"@.len() == 15);
            }
            assert("mediumspringgreen"@ != "hsl"@) by {
                assert("mediumspringgreen"@.len() == 17);
                assert("hsl"@.len() == 3);
            }
            assert("mediumspringgreen"@ != "hsla"@) by {
                assert("mediumspringgreen"@.len() == 17);
                assert("hsla"@.len() == 4);
            }
            assert(word_shape("mediumspringgreen"@));
            assert("mediumspringgreen"@[0] == 'm');
            lemma_hw_round(s, 0, "mediumspringgreen"@);
            assert(crate::color::named_of("mediumspringgreen"@) == Option::Some(Color::MediumSpringGreen));
        },
        Color::MediumTurquoise => {
            reveal_strlit("mediumturquoise");
            reveal_strlit("magenta");
            reveal_strlit("maroon");
            reveal_strlit("mediumaquamarine");
            reveal_strlit("mediumblue");
            reveal_strlit("mediumorchid");
            reveal_strlit("mediumpurple");
            reveal_strlit("mediumseagreen");
            reveal_strlit("mediumslateblue");
            reveal_strlit("mediumspringgreen");
            assert("mediumturquoise"@ != "magenta"@) by {
                assert("mediumturquoise"@.len() == 15);
                assert("magenta"@.len() == 7);
            }
            assert("mediumturquoise"@ != "maroon"@) by {
                assert("mediumturquoise"@.len() == 15);
                assert("maroon"@.len() == 6);
            }
            assert("mediumturquoise"@ != "mediumaquamarine"@) by {
                assert("mediumturquoise"@.len() == 15);
                assert("mediumaquamarine"@.len() == 16);
            }
            assert("mediumturquoise"@ != "mediumblue"@) by {
                assert("mediumturquoise"@.len() == 15);
                assert("mediumblue"@.len() == 10);
            }
            assert("mediumturquoise"@ != "mediumorchid"@) by {
                assert("mediumturquoise"@.len() == 15);
                assert("mediumorchid"@.len() == 12);
            }
            assert("mediumturquoise"@ != "mediumpurple"@) by {
                assert("mediumturquoise"@.len() == 15);
                assert("mediumpurple"@.len() == 12);
            }
            assert("mediumturquoise"@ != "mediumseagreen"@) by {
                assert("mediumturquoise"@.len() == 15);
                assert("mediumseagreen"@.len() == 14);
            }
            assert("mediumturquoise"@ != "mediumslateblue"@) by {
                assert("mediumturquoise"@[6] == 't');
                assert("mediumslateblue"@[6] == 's');
            }
            assert("mediumturquoise"@ != "mediumspringgreen"@) by {
                assert("mediumturquoise"@.len() == 15);
                assert("mediumspringgreen"@.len() == 17);
            }
            assert("mediumturquoise"@ != "hsl"@) by {
                assert("mediumturquoise"@.len() == 15);
                assert("hsl"@.len() == 3);
            }
            assert("mediumturquoise"@ != "hsla"@) by {
                assert("mediumturquoise"@.len() == 15);
                assert("hsla"@.len() == 4);
            }
            assert(word_shape("mediumturquoise"@));
            assert("mediumturquoise"@[0] == 'm');
            lemma_hw_round(s, 0, "mediumturquoise"@);
            assert(crate::color::named_of("mediumturquoise"@) == Option::Some(Color::MediumTurquoise));
        },
        Color::MediumVioletRed => {
            reveal_strlit("mediumvioletred");
            reveal_strlit("magenta");
            reveal_strlit("maroon");
            reveal_strlit("mediumaquamarine");
            reveal_strlit("mediumblue");
            reveal_strlit("mediumorchid");
            reveal_strlit("mediumpurple");
            reveal_strlit("mediumseagreen");
            reveal_strlit("mediumslateblue");
            reveal_strlit("mediumspringgreen");
            reveal_strlit("mediumturquoise");
            assert("mediumvioletred"@ != "magenta"@) by {
                assert("mediumvioletred"@.len() == 15);
                assert("magenta"@.len() == 7);
            }
            assert("mediumvioletred"@ != "maroon"@) by {
                assert("mediumvioletred"@.len() == 15);
                assert("maroon"@.len() == 6);
            }
            assert("mediumvioletred"@ != "mediumaquamarine"@) by {
                assert("mediumvioletred"@.len() == 15);
                assert("mediumaquamarine"@.len() == 16);
            }
            assert("mediumvioletred"@ != "mediumblue"@) by {
                assert("mediumvioletred"@.len() == 15);
                assert("mediumblue"@.len() == 10);
            }
            assert("mediumvioletred"@ != "mediumorchid"@) by {
                assert("mediumvioletred"@.len() == 15);
                assert("mediumorchid"@.len() == 12);
            }
            assert("mediumvioletred"@ != "mediumpurple"@) by {
                assert("mediumvioletred"@.len() == 15);
                assert("mediumpurple"@.len() == 12);
            }
            assert("mediumvioletred"@ != "mediumseagreen"@) by {
                assert("mediumvioletred"@.len() == 15);
                assert("mediumseagreen"@.len() == 14);
            }
            assert("mediumvioletred"@ != "mediumslateblue"@) by {
                assert("mediumvioletred"@[6] == 'v');
                assert("mediumslateblue"@[6] == 's');
            }
            assert("mediumvioletred"@ != "mediumspringgreen"@) by {
                assert("mediumvioletred"@.len() == 15);
                assert("mediumspringgreen"@.len() == 17);
            }
            assert("mediumvioletred"@ != "mediumturquoise"@) by {
                assert("mediumvioletred"@[6] == 'v');
                assert("mediumturquoise"@[6] == 't');
            }
            assert("mediumvioletred"@ != "hsl"@) by {
                assert("mediumvioletred"@.len() == 15);
                assert("hsl"@.len() == 3);
            }
            assert("mediumvioletred"@ != "hsla"@) by {
                assert("mediumvioletred"@.len() == 15);
                assert("hsla"@.len() == 4);
            }
            assert(word_shape("mediumvioletred"@));
            assert("mediumvioletred"@[0] == 'm');
            lemma_hw_round(s, 0, "mediumvioletred"@);
            assert(crate::color::named_of("mediumvioletred"@) == Option::Some(Color::MediumVioletRed));
        },
        Color::MidnightBlue => {
            reveal_strlit("midnightblue");
            reveal_strlit("magenta");
            reveal_strlit("maroon");
            reveal_strlit("mediumaquamarine");
            reveal_strlit("mediumblue");
            reveal_strlit("mediumorchid");
            reveal_strlit("mediumpurple");
            reveal_strlit("mediumseagreen");
            reveal_strlit("mediumslateblue");
            reveal_strlit("mediumspringgreen");
            reveal_strlit("mediumturquoise");
            reveal_strlit("mediumvioletred");
            assert("midnightblue"@ != "magenta"@) by {
                assert("midnightblue"@.len() == 12);
                assert("magenta"@.len() == 7);
            }
            assert("midnightblue"@ != "maroon"@) by {
                assert("midnightblue"@.len() == 12);
                assert("maroon"@.len() == 6);
            }
            assert("midnightblue"@ != "mediumaquamarine"@) by {
                assert("midnightblue"@.len() == 12);
                assert("mediumaquamarine"@.len() == 16);
            }
            assert("midnightblue"@ != "mediumblue"@) by {
                assert("midnightblue"@.len() == 12);
                assert("mediumblue"@.len() == 10);
            }
            assert("midnightblue"@ != "mediumorchid"@) by {
                assert("midnightblue"@[1] == 'i');
                assert("mediumorchid"@[1] == 'e');
            }
            assert("midnightblue"@ != "mediumpurple"@) by {
                assert("midnightblue"@[1] == 'i');
                assert("mediumpurple"@[1] == 'e');
            }
            assert("midnightblue"@ != "mediumseagreen"@) by {
                assert("midnightblue"@.len() == 12);
                assert("mediumseagreen"@.len() == 14);
            }
            assert("midnightblue"@ != "mediumslateblue"@) by {
                assert("midnightblue"@.len() == 12);
                assert("mediumslateblue"@.len() == 15);
            }
            assert("midnightblue"@ != "mediumspringgreen"@) by {
                assert("midnightblue"@.len() == 12);
                assert("mediumspringgreen"@.len() == 17);
            }
            assert("midnightblue"@ != "mediumturquoise"@) by {
                assert("midnightblue"@.len() == 12);
                assert("mediumturquoise"@.len() == 15);
            }
            assert("midnightblue"@ != "mediumvioletred"@) by {
                assert("midnightblue"@.len() == 12);
                assert("mediumvioletred"@.len() == 15);
            }
            assert("midnightblue"@ != "hsl"@) by {
                assert("midnightblue"@.len() == 12);
                assert("hsl"@.len() == 3);
            }
            assert("midnightblue"@ != "hsla"@) by {
                assert("midnightblue"@.len() == 12);
                assert("hsla"@.len() == 4);
            }
            assert(word_shape("midnightblue"@));
            assert("midnightblue"@[0] == 'm');
            lemma_hw_round(s, 0, "midnightblue"@);
            assert(crate::color::named_of("midnightblue"@) == Option::Some(Color::MidnightBlue));
        },
        Color::MintCream => {
            reveal_strlit("mintcream");
            reveal_strlit("magenta");
            reveal_strlit("maroon");
            reveal_strlit("mediumaquamarine");
            reveal_strlit("mediumblue");
            reveal_strlit("mediumorchid");
            reveal_strlit("mediumpurple");
            reveal_strlit("mediumseagreen");
            reveal_strlit("mediumslateblue");
            reveal_strlit("mediumspringgreen");
            reveal_strlit("mediumturquoise");
            reveal_strlit("mediumvioletred");
            reveal_strlit("midnightblue");
            assert("mintcream"@ != "magenta"@) by {
                assert("mintcream"@.len() == 9);
                assert("magenta"@.len() == 7);
            }
            assert("mintcream"@ != "maroon"@) by {
                assert("mintcream"@.len() == 9);
                assert("maroon"@.len() == 6);
            }
            assert("mintcream"@ != "mediumaquamarine"@) by {
                assert("mintcream"@.len() == 9);
                assert("mediumaquamarine"@.len() == 16);
            }
            assert("mintcream"@ != "mediumblue"@) by {
                assert("mintcream"@.len() == 9);
                assert("mediumblue"@.len() == 10);
            }
            assert("mintcream"@ != "mediumorchid"@) by {
                assert("mintcream"@.len() == 9);
                assert("mediumorchid"@.len() == 12);
            }
            assert("mintcream"@ != "mediumpurple"@) by {
                assert("mintcream"@.len() == 9);
                assert("mediumpurple"@.len() == 12);
            }
            assert("mintcream"@ != "mediumseagreen"@) by {
                assert("mintcream"@.len() == 9);
                assert("mediumseagreen"@.len() == 14);
            }
            assert("mintcream"@ != "mediumslateblue"@) by {
                assert("mintcream"@.len() == 9);
                assert("mediumslateblue"@.len() == 15);
            }
            assert("mintcream"@ != "mediumspringgreen"@) by {
                assert("mintcream"@.len() == 9);
                assert("mediumspringgreen"@.len() == 17);
            }
            assert("mintcream"@ != "mediumturquoise"@) by {
                assert("mintcream"@.len() == 9);
                assert("mediumturquoise"@.len() == 15);
            }
            assert("mintcream"@ != "mediumvioletred"@) by {
                assert("mintcream"@.len() == 9);
                assert("mediumvioletred"@.len() == 15);
            }
            assert("mintcream"@ != "midnightblue"@) by {
                assert("mintcream"@.len() == 9);
                assert("midnightblue"@.len() == 12);
            }
            assert("mintcream"@ != "hsl"@) by {
                assert("mintcream"@.len() == 9);
                assert("hsl"@.len() == 3);
            }
            assert("mintcream"@ != "hsla"@) by {
                assert("mintcream"@.len() == 9);
                assert("hsla"@.len() == 4);
            }
            assert(word_shape("mintcream"@));
            assert("mintcream"@[0] == 'm');
            lemma_hw_round(s, 0, "mintcream"@);
            assert(crate::color::named_of("mintcream"@) == Option::Some(Color::MintCream));
        },
        Color::MistyRose => {
            reveal_strlit("mistyrose");
            reveal_strlit("magenta");
            reveal_strlit("maroon");
            reveal_strlit("mediumaquamarine");
            reveal_strlit("mediumblue");
            reveal_strlit("mediumorchid");
            reveal_strlit("mediumpurple");
            reveal_strlit("mediumseagreen");
            reveal_strlit("mediumslateblue");
            reveal_strlit("mediumspringgreen");
            reveal_strlit("mediumturquoise");
            reveal_strlit("mediumvioletred");
            reveal_strlit("midnightblue");
            reveal_strlit("mintcream");
            assert("mistyrose"@ != "magenta"@) by {
                assert("mistyrose"@.len() == 9);
                assert("magenta"@.len() == 7);
            }
            assert("mistyrose"@ != "maroon"@) by {
                assert("mistyrose"@.len() == 9);
                assert("maroon"@.len() == 6);
            }
            assert("mistyrose"@ != "mediumaquamarine"@) by {
                assert("mistyrose"@.len() == 9);
                assert("mediumaquamarine"@.len() == 16);
            }
            assert("mistyrose"@ != "mediumblue"@) by {
                assert("mistyrose"@.len() == 9);
                assert("mediumblue"@.len() == 10);
            }
            assert("mistyrose"@ != "mediumorchid"@) by {
                assert("mistyrose"@.len() == 9);
                assert("mediumorchid"@.len() == 12);
            }
            assert("mistyrose"@ != "mediumpurple"@) by {
                assert("mistyrose"@.len() == 9);
                assert("mediumpurple"@.len() == 12);
            }
            assert("mistyrose"@ != "mediumseagreen"@) by {
                assert("mistyrose"@.len() == 9);
                assert("mediumseagreen"@.len() == 14);
            }
            assert("mistyrose"@ != "mediumslateblue"@) by {
                assert("mistyrose"@.len() == 9);
                assert("mediumslateblue"@.len() == 15);
            }
            assert("mistyrose"@ != "mediumspringgreen"@) by {
                assert("mistyrose"@.len() == 9);
                assert("mediumspringgreen"@.len() == 17);
            }
            assert("mistyrose"@ != "mediumturquoise"@) by {
                assert("mistyrose"@.len() == 9);
                assert("mediumturquoise"@.len() == 15);
            }
            assert("mistyrose"@ != "mediumvioletred"@) by {
                assert("mistyrose"@.len() == 9);
                assert("mediumvioletred"@.len() == 15);
            }
            assert("mistyrose"@ != "midnightblue"@) by {
                assert("mistyrose"@.len() == 9);
                assert("midnightblue"@.len() == 12);
            }
            assert("mistyrose"@ != "mintcream"@) by {
                assert("mistyrose"@[2] == 's');
                assert("mintcream"@[2] == 'n');
            }
            assert("mistyrose"@ != "hsl"@) by {
                assert("mistyrose"@.len() == 9);
                assert("hsl"@.len() == 3);
            }
            assert("mistyrose"@ != "hsla"@) by {
                assert("mistyrose"@.len() == 9);
                assert("hsla"@.len() == 4);
            }
            assert(word_shape("mistyrose"@));
            assert("mistyrose"@[0] == 'm');
            lemma_hw_round(s, 0, "mistyrose"@);
            assert(crate::color::named_of("mistyrose"@) == Option::Some(Color::MistyRose));
        },
        Color::Moccasin => {
            reveal_strlit("moccasin");
            reveal_strlit("magenta");
            reveal_strlit("maroon");
            reveal_strlit("mediumaquamarine");
            reveal_strlit("mediumblue");
            reveal_strlit("mediumorchid");
            reveal_strlit("mediumpurple");
            reveal_strlit("mediumseagreen");
            reveal_strlit("mediumslateblue");
            reveal_strlit("mediumspringgreen");
            reveal_strlit("mediumturquoise");
            reveal_strlit("mediumvioletred");
            reveal_strlit("midnightblue");
            reveal_strlit("mintcream");
            reveal_strlit("mistyrose");
            assert("moccasin"@ != "magenta"@) by {
                assert("moccasin"@.len() == 8);
                assert("magenta"@.len() == 7);
            }
            assert("moccasin"@ != "maroon"@) by {
                assert("moccasin"@.len() == 8);
                assert("maroon"@.len() == 6);
            }
            assert("moccasin"@ != "mediumaquamarine"@) by {
                assert("moccasin"@.len() == 8);
                assert("mediumaquamarine"@.len() == 16);
            }
            assert("moccasin"@ != "mediumblue"@) by {
                assert("moccasin"@.len() == 8);
                assert("mediumblue"@.len() == 10);
            }
            assert("moccasin"@ != "mediumorchid"@) by {
                assert("moccasin"@.len() == 8);
                assert("mediumorchid"@.len() == 12);
            }
            assert("moccasin"@ != "mediumpurple"@) by {
                assert("moccasin"@.len() == 8);
                assert("mediumpurple"@.len() == 12);
            }
            assert("moccasin"@ != "mediumseagreen"@) by {
                assert("moccasin"@.len() == 8);
                assert("mediumseagreen"@.len() == 14);
            }
            assert("moccasin"@ != "mediumslateblue"@) by {
                assert("moccasin"@.len() == 8);
                assert("mediumslateblue"@.len() == 15);
            }
            assert("moccasin"@ != "mediumspringgreen"@) by {
                assert("moccasin"@.len() == 8);
                assert("mediumspringgreen"@.len() == 17);
            }
            assert("moccasin"@ != "mediumturquoise"@) by {
                assert("moccasin"@.len() == 8);
                assert("mediumturquoise"@.len() == 15);
            }
            assert("moccasin"@ != "mediumvioletred"@) by {
                assert("moccasin"@.len() == 8);
                assert("mediumvioletred"@.len() == 15);
            }
            assert("moccasin"@ != "midnightblue"@) by {
                assert("moccasin"@.len() == 8);
                assert("midnightblue"@.len() == 12);
            }
            assert("moccasin"@ != "mintcream"@) by {
                assert("moccasin"@.len() == 8);
                assert("mintcream"@.len() == 9);
            }
            assert("moccasin"@ != "mistyrose"@) by {
                assert("moccasin"@.len() == 8);
                assert("mistyrose"@.len() == 9);
            }
            assert("moccasin"@ != "hsl"@) by {
                assert("moccasin"@.len() == 8);
                assert("hsl"@.len() == 3);
            }
            assert("moccasin"@ != "hsla"@) by {
                assert("moccasin"@.len() == 8);
                assert("hsla"@.len() == 4);
            }
            assert(word_shape("moccasin"@));
            assert("moccasin"@[0] == 'm');
            lemma_hw_round(s, 0, "moccasin"@);
            assert(crate::color::named_of("moccasin"@) == Option::Some(Color::Moccasin));
        },
        Color::NavajoWhite => {
            reveal_strlit("navajowhite");
            assert("navajowhite"@ != "hsl"@) by {
                assert("navajowhite"@.len() == 11);
                assert("hsl"@.len() == 3);
            }
            assert("navajowhite"@ != "hsla"@) by {
                assert("navajowhite"@.len() == 11);
                assert("hsla"@.len() == 4);
            }
            assert(word_shape("navajowhite"@));
            assert("navajowhite"@[0] == 'n');
            lemma_hw_round(s, 0, "navajowhite"@);
            assert(crate::color::named_of("navajowhite"@) == Option::Some(Color::NavajoWhite));
        },
        Color::Navy => {
            reveal_strlit("navy");
            reveal_strlit("navajowhite");
            assert("navy"@ != "navajowhite"@) by {
                assert("navy"@.len() == 4);
                assert("navajowhite"@.len() == 11);
            }
            assert("navy"@ != "hsl"@) by {
                assert("navy"@.len() == 4);
                assert("hsl"@.len() == 3);
            }
            assert("navy"@ != "hsla"@) by {
                assert("navy"@[0] == 'n');
                assert("hsla"@[0] == 'h');
            }
            assert(word_shape("navy"@));
            assert("navy"@[0] == 'n');
            lemma_hw_round(s, 0, "navy"@);
            assert(crate::color::named_of("navy"@) == Option::Some(Color::Navy));
        },
        Color::OldLace => {
            reveal_strlit("oldlace");
            assert("oldlace"@ != "hsl"@) by {
                assert("oldlace"@.len() == 7);
                assert("hsl"@.len() == 3);
            }
            assert("oldlace"@ != "hsla"@) by {
                assert("oldlace"@.len() == 7);
                assert("hsla"@.len() == 4);
            }
            assert(word_shape("oldlace"@));
            assert("oldlace"@[0] == 'o');
            lemma_hw_round(s, 0, "oldlace"@);
            assert(crate::color::named_of("oldlace"@) == Option::Some(Color::OldLace));
        },
        Color::Olive => {
            reveal_strlit("olive");
            reveal_strlit("oldlace");
            assert("olive"@ != "oldlace"@) by {
                assert("olive"@.len() == 5);
                assert("oldlace"@.len() == 7);
            }
            assert("olive"@ != "hsl"@) by {
                assert("olive"@.len() == 5);
                assert("hsl"@.len() == 3);
            }
            assert("olive"@ != "hsla"@) by {
                assert("olive"@.len() == 5);
                assert("hsla"@.len() == 4);
            }
            assert(word_shape("olive"@));
            assert("olive"@[0] == 'o');
            lemma_hw_round(s, 0, "olive"@);
            assert(crate::color::named_of("olive"@) == Option::Some(Color::Olive));
        },
        Color::OliveDrab => {
            reveal_strlit("olivedrab");
            reveal_strlit("oldlace");
            reveal_strlit("olive");
            assert("olivedrab"@ != "oldlace"@) by {
                assert("olivedrab"@.len() == 9);
                assert("oldlace"@.len() == 7);
            }
            assert("olivedrab"@ != "olive"@) by {
                assert("olivedrab"@.len() == 9);
                assert("olive"@.len() == 5);
            }
            assert("olivedrab"@ != "hsl"@) by {
                assert("olivedrab"@.len() == 9);
                assert("hsl"@.len() == 3);
            }
            assert("olivedrab"@ != "hsla"@) by {
                assert("olivedrab"@.len() == 9);
                assert("hsla"@.len() == 4);
            }
            assert(word_shape("olivedrab"@));
            assert("olivedrab"@[0] == 'o');
            lemma_hw_round(s, 0, "olivedrab"@);
            assert(crate::color::named_of("olivedrab"@) == Option::Some(Color::OliveDrab));
        },
        Color::Orange => {
            reveal_strlit("orange");
            reveal_strlit("oldlace");
            reveal_strlit("olive");
            reveal_strlit("olivedrab");
            assert("orange"@ != "oldlace"@) by {
                assert("orange"@.len() == 6);
                assert("oldlace"@.len() == 7);
            }
            assert("orange"@ != "olive"@) by {
                assert("orange"@.len() == 6);
                assert("olive"@.len() == 5);
            }
            assert("orange"@ != "olivedrab"@) by {
                assert("orange"@.len() == 6);
                assert("olivedrab"@.len() == 9);
            }
            assert("orange"@ != "hsl"@) by {
                assert("orange"@.len() == 6);
                assert("hsl"@.len() == 3);
            }
            assert("orange"@ != "hsla"@) by {
                assert("orange"@.len() == 6);
                assert("hsla"@.len() == 4);
            }
            assert(word_shape("orange"@));
            assert("orange"@[0] == 'o');
            lemma_hw_round(s, 0, "orange"@);
            assert(crate::color::named_of("orange"@) == Option::Some(Color::Orange));
        },
        Color::OrangeRed => {
            reveal_strlit("orangered");
            reveal_strlit("oldlace");
            reveal_strlit("olive");
            reveal_strlit("olivedrab");
            reveal_strlit("orange");
            assert("orangered"@ != "oldlace"@) by {
                assert("orangered"@.len() == 9);
                assert("oldlace"@.len() == 7);
            }
            assert("orangered"@ != "olive"@) by {
                assert("orangered"@.len() == 9);
                assert("olive"@.len() == 5);
            }
            assert("orangered"@ != "olivedrab"@) by {
                assert("orangered"@[1] == 'r');
                assert("olivedrab"@[1] == 'l');
            }
            assert("orangered"@ != "orange"@) by {
                assert("orangered"@.len() == 9);
                assert("orange"@.len() == 6);
            }
            assert("orangered"@ != "hsl"@) by {
                assert("orangered"@.len() == 9);
                assert("hsl"@.len() == 3);
            }
            assert("orangered"@ != "hsla"@) by {
                assert("orangered"@.len() == 9);
                assert("hsla"@.len() == 4);
            }
            assert(word_shape("orangered"@));
            assert("orangered"@[0] == 'o');
            lemma_hw_round(s, 0, "orangered"@);
            assert(crate::color::named_of("orangered"@) == Option::Some(Color::OrangeRed));
        },
        Color::Orchid => {
            reveal_strlit("orchid");
            reveal_strlit("oldlace");
            reveal_strlit("olive");
            reveal_strlit("olivedrab");
            reveal_strlit("orange");
            reveal_strlit("orangered");
            assert("orchid"@ != "oldlace"@) by {
                assert("orchid"@.len() == 6);
                assert("oldlace"@.len() == 7);
            }
            assert("orchid"@ != "olive"@) by {
                assert("orchid"@.len() == 6);
                assert("olive"@.len() == 5);
            }
            assert("orchid"@ != "olivedrab"@) by {
                assert("orchid"@.len() == 6);
                assert("olivedrab"@.len() == 9);
            }
            assert("orchid"@ != "orange"@) by {
                assert("orchid"@[2] == 'c');
                assert("orange"@[2] == 'a');
            }
            assert("orchid"@ != "orangered"@) by {
                assert("orchid"@.len() == 6);
                assert("orangered"@.len() == 9);
            }
            assert("orchid"@ != "hsl"@) by {
                assert("orchid"@.len() == 6);
                assert("hsl"@.len() == 3);
            }
            assert("orchid"@ != "hsla"@) by {
                assert("orchid"@.len() == 6);
                assert("hsla"@.len() == 4);
            }
            assert(word_shape("orchid"@));
            assert("orchid"@[0] == 'o');
            lemma_hw_round(s, 0, "orchid"@);
            assert(crate::color::named_of("orchid"@) == Option::Some(Color::Orchid));
        },
        Color::PaleGoldenrod => {
            reveal_strlit("palegoldenrod");
            assert("palegoldenrod"@ != "hsl"@) by {
                assert("palegoldenrod"@.len() == 13);
                assert("hsl"@.len() == 3);
            }
            assert("palegoldenrod"@ != "hsla"@) by {
                assert("palegoldenrod"@.len() == 13);
                assert("hsla"@.len() == 4);
            }
            assert(word_shape("palegoldenrod"@));
            assert("palegoldenrod"@[0] == 'p');
            lemma_hw_round(s, 0, "palegoldenrod"@);
            assert(crate::color::named_of("palegoldenrod"@) == Option::Some(Color::PaleGoldenrod));
        },
        Color::PaleGreen => {
            reveal_strlit("palegreen");
            reveal_strlit("palegoldenrod");
            assert("palegreen"@ != "palegoldenrod"@) by {
                assert("palegreen"@.len() == 9);
                assert("palegoldenrod"@.len() == 13);
            }
            assert("palegreen"@ != "hsl"@) by {
                assert("palegreen"@.len() == 9);
                assert("hsl"@.len() == 3);
            }
            assert("palegreen"@ != "hsla"@) by {
                assert("palegreen"@.len() == 9);
                assert("hsla"@.len() == 4);
            }
            assert(word_shape("palegreen"@));
            assert("palegreen"@[0] == 'p');
            lemma_hw_round(s, 0, "palegreen"@);
            assert(crate::color::named_of("palegreen"@) == Option::Some(Color::PaleGreen));
        },
        Color::PaleTurquoise => {
            reveal_strlit("paleturquoise");
            reveal_strlit("palegoldenrod");
            reveal_strlit("palegreen");
            assert("paleturquoise"@ != "palegoldenrod"@) by {
                assert("paleturquoise"@[4] == 't');
                assert("palegoldenrod"@[4] == 'g');
            }
            assert("paleturquoise"@ != "palegreen"@) by {
                assert("paleturquoise"@.len() == 13);
                assert("palegreen"@.len() == 9);
            }
            assert("paleturquoise"@ != "hsl"@) by {
                assert("paleturquoise"@.len() == 13);
                assert("hsl"@.len() == 3);
            }
            assert("paleturquoise"@ != "hsla"@) by {
                assert("paleturquoise"@.len() == 13);
                assert("hsla"@.len() == 4);
            }
            assert(word_shape("paleturquoise"@));
            assert("paleturquoise"@[0] == 'p');
            lemma_hw_round(s, 0, "paleturquoise"@);
            assert(crate::color::named_of("paleturquoise"@) == Option::Some(Color::PaleTurquoise));
        },
        _ => {},
    }
}

/// Whether the color is one of this group of named colors.
pub open spec fn named_rt_group4(v: Color) -> bool {
    match v {
        Color::PaleVioletRed | Color::PapayaWhip | Color::PeachPuff | Color::Peru | Color::Pink | Color::Plum | Color::PowderBlue | Color::Purple | Color::RebeccaPurple | Color::Red | Color::RosyBrown | Color::RoyalBlue | Color::SaddleBrown | Color::Salmon | Color::SandyBrown | Color::SeaGreen | Color::SeaShell | Color::Sienna | Color::Silver | Color::SkyBlue | Color::SlateBlue | Color::SlateGray | Color::SlateGrey | Color::Snow | Color::SpringGreen | Color::SteelBlue | Color::Tan | Color::Teal | Color::Thistle | Color::Tomato | Color::Turquoise | Color::Violet | Color::Wheat | Color::White | Color::WhiteSmoke | Color::Yellow | Color::YellowGreen => true,
        _ => false,
    }
}

#[verifier::rlimit(100)]
proof fn lemma_named_rt_group4(v: Color)
    requires
        named_rt_group4(v),
    ensures
        Color::spec_parse(v.css(), 0) == Ok::<(Color, int), crate::diag::SpecErr>(
            (v, v.css().len() as int),
        ),
{
    reveal_strlit("hsl");
    reveal_strlit("hsla");
    let s = v.css();
    assert(s.subrange(0, s.len() as int) =~= s);
    lemma_skip_ws(s, s.len() as int);
    match v {
        Color::PaleVioletRed => {
            reveal_strlit("palevioletred");
            reveal_strlit("palegoldenrod");
            reveal_strlit("palegreen");
            reveal_strlit("paleturquoise");
            assert("palevioletred"@ != "palegoldenrod"@) by {
                assert("palevioletred"@[4] == 'v');
                assert("palegoldenrod"@[4] == 'g');
            }
            assert("palevioletred"@ != "palegreen"@) by {
                assert("palevioletred"@.len() == 13);
                assert("palegreen"@.len() == 9);
            }
            assert("palevioletred"@ != "paleturquoise"@) by {
                assert("palevioletred"@[4] == 'v');
                assert("paleturquoise"@[4] == 't');
            }
            assert("palevioletred"@ != "hsl"@) by {
                assert("palevioletred"@.len() == 13);
                assert("hsl"@.len() == 3);
            }
            assert("palevioletred"@ != "hsla"@) by {
                assert("palevioletred"@.len() == 13);
                assert("hsla"@.len() == 4);
            }
            assert(word_shape("palevioletred"@));
            assert("palevioletred"@[0] == 'p');
            lemma_hw_round(s, 0, "palevioletred"@);
            assert(crate::color::named_of("palevioletred"@) == Option::Some(Color::PaleVioletRed));
        },
        Color::PapayaWhip => {
            reveal_strlit("papayawhip");
            reveal_strlit("palegoldenrod");
            reveal_strlit("palegreen");
            reveal_strlit("paleturquoise");
            reveal_strlit("palevioletred");
            assert("papayawhip"@ != "palegoldenrod"@) by {
                assert("papayawhip"@.len() == 10);
                assert("palegoldenrod"@.len() == 13);
            }
            assert("papayawhip"@ != "palegreen"@) by {
                assert("papayawhip"@.len() == 10);
                assert("palegreen"@.len() == 9);
            }
            assert("papayawhip"@ != "paleturquoise"@) by {
                assert("papayawhip"@.len() == 10);
                assert("paleturquoise"@.len() == 13);
            }
            assert("papayawhip"@ != "palevioletred"@) by {
                assert("papayawhip"@.len() == 10);
                assert("palevioletred"@.len() == 13);
            }
            assert("papayawhip"@ != "hsl"@) by {
                assert("papayawhip"@.len() == 10);
                assert("hsl"@.len() == 3);
            }
            assert("papayawhip"@ != "hsla"@) by {
                assert("papayawhip"@.len() == 10);
                assert("hsla"@.len() == 4);
            }
            assert(word_shape("papayawhip"@));
            assert("papayawhip"@[0] == 'p');
            lemma_hw_round(s, 0, "papayawhip"@);
            assert(crate::color::named_of("papayawhip"@) == Option::Some(Color::PapayaWhip));
        },
        Color::PeachPuff => {
            reveal_strlit("peachpuff");
            reveal_strlit("palegoldenrod");
            reveal_strlit("palegreen");
            reveal_strlit("paleturquoise");
            reveal_strlit("palevioletred");
            reveal_strlit("papayawhip");
            assert("peachpuff"@ != "palegoldenrod"@) by {
                assert("peachpuff"@.len() == 9);
                assert("palegoldenrod"@.len() == 13);
            }
            assert("peachpuff"@ != "palegreen"@) by {
                assert("peachpuff"@[1] == 'e');
                assert("palegreen"@[1] == 'a');
            }
            assert("peachpuff"@ != "paleturquoise"@) by {
                assert("peachpuff"@.len() == 9);
                assert("paleturquoise"@.len() == 13);
            }
            assert("peachpuff"@ != "palevioletred"@) by {
                assert("peachpuff"@.len() == 9);
                assert("palevioletred"@.len() == 13);
            }
            assert("peachpuff"@ != "papayawhip"@) by {
                assert("peachpuff"@.len() == 9);
                assert("papayawhip"@.len() == 10);
            }
            assert("peachpuff"@ != "hsl"@) by {
                assert("peachpuff"@.len() == 9);
                assert("hsl"@.len() == 3);
            }
            assert("peachpuff"@ != "hsla"@) by {
                assert("peachpuff"@.len() == 9);
                assert("hsla"@.len() == 4);
            }
            assert(word_shape("peachpuff"@));
            assert("peachpuff"@[0] == 'p');
            lemma_hw_round(s, 0, "peachpuff"@);
            assert(crate::color::named_of("peachpuff"@) == Option::Some(Color::PeachPuff));
        },
        Color::Peru => {
            reveal_strlit("peru");
            reveal_strlit("palegoldenrod");
            reveal_strlit("palegreen");
            reveal_strlit("paleturquoise");
            reveal_strlit("palevioletred");
            reveal_strlit("papayawhip");
            reveal_strlit("peachpuff");
            assert("peru"@ != "palegoldenrod"@) by {
                assert("peru"@.len() == 4);
                assert("palegoldenrod"@.len() == 13);
            }
            assert("peru"@ != "palegreen"@) by {
                assert("peru"@.len() == 4);
                assert("palegreen"@.len() == 9);
            }
            assert("peru"@ != "paleturquoise"@) by {
                assert("peru"@.len() == 4);
                assert("paleturquoise"@.len() == 13);
            }
            assert("peru"@ != "palevioletred"@) by {
                assert("peru"@.len() == 4);
                assert("palevioletred"@.len() == 13);
            }
            assert("peru"@ != "papayawhip"@) by {
                assert("peru"@.len() == 4);
                assert("papayawhip"@.len() == 10);
            }
            assert("peru"@ != "peachpuff"@) by {
                assert("peru"@.len() == 4);
                assert("peachpuff"@.len() == 9);
            }
            assert("peru"@ != "hsl"@) by {
                assert("peru"@.len() == 4);
                assert("hsl"@.len() == 3);
            }
            assert("peru"@ != "hsla"@) by {
                assert("peru"@[0] == 'p');
                assert("hsla"@[0] == 'h');
            }
            assert(word_shape("peru"@));
            assert("peru"@[0] == 'p');
            lemma_hw_round(s, 0, "peru"@);
            assert(crate::color::named_of("peru"@) == Option::Some(Color::Peru));
        },
        Color::Pink => {
            reveal_strlit("pink");
            reveal_strlit("palegoldenrod");
            reveal_strlit("palegreen");
            reveal_strlit("paleturquoise");
            reveal_strlit("palevioletred");
            reveal_strlit("papayawhip");
            reveal_strlit("peachpuff");
            reveal_strlit("peru");
            assert("pink"@ != "palegoldenrod"@) by {
                assert("pink"@.len() == 4);
                assert("palegoldenrod"@.len() == 13);
            }
            assert("pink"@ != "palegreen"@) by {
                assert("pink"@.len() == 4);
                assert("palegreen"@.len() == 9);
            }
            assert("pink"@ != "paleturquoise"@) by {
                assert("pink"@.len() == 4);
                assert("paleturquoise"@.len() == 13);
            }
            assert("pink"@ != "palevioletred"@) by {
                assert("pink"@.len() == 4);
                assert("palevioletred"@.len() == 13);
            }
            assert("pink"@ != "papayawhip"@) by {
                assert("pink"@.len() == 4);
                assert("papayawhip"@.len() == 10);
            }
            assert("pink"@ != "peachpuff"@) by {
                assert("pink"@.len() == 4);
                assert("peachpuff"@.len() == 9);
            }
            assert("pink"@ != "peru"@) by {
                assert("pink"@[1] == 'i');
                assert("peru"@[1] == 'e');
            }
            assert("pink"@ != "hsl"@) by {
                assert("pink"@.len() == 4);
                assert("hsl"@.len() == 3);
            }
            assert("pink"@ != "hsla"@) by {
                assert("pink"@[0] == 'p');
                assert("hsla"@[0] == 'h');
            }
            assert(word_shape("pink"@));
            assert("pink"@[0] == 'p');
            lemma_hw_round(s, 0, "pink"@);
            assert(crate::color::named_of("pink"@) == Option::Some(Color::Pink));
        },
        Color::Plum => {
            reveal_strlit("plum");
            reveal_strlit("palegoldenrod");
            reveal_strlit("palegreen");
            reveal_strlit("paleturquoise");
            reveal_strlit("palevioletred");
            reveal_strlit("papayawhip");
            reveal_strlit("peachpuff");
            reveal_strlit("peru");
            reveal_strlit("pink");
            assert("plum"@ != "palegoldenrod"@) by {
                assert("plum"@.len() == 4);
                assert("palegoldenrod"@.len() == 13);
            }
            assert("plum"@ != "palegreen"@) by {
                assert("plum"@.len() == 4);
                assert("palegreen"@.len() == 9);
            }
            assert("plum"@ != "paleturquoise"@) by {
                assert("plum"@.len() == 4);
                assert("paleturquoise"@.len() == 13);
            }
            assert("plum"@ != "palevioletred"@) by {
                assert("plum"@.len() == 4);
                assert("palevioletred"@.len() == 13);
            }
            assert("plum"@ != "papayawhip"@) by {
                assert("plum"@.len() == 4);
                assert("papayawhip"@.len() == 10);
            }
            assert("plum"@ != "peachpuff"@) by {
                assert("plum"@.len() == 4);
                assert("peachpuff"@.len() == 9);
            }
            assert("plum"@ != "peru"@) by {
                assert("plum"@[1] == 'l');
                assert("peru"@[1] == 'e');
            }
            assert("plum"@ != "pink"@) by {
                assert("plum"@[1] == 'l');
                assert("pink"@[1] == 'i');
            }
            assert("plum"@ != "hsl"@) by {
                assert("plum"@.len() == 4);
                assert("hsl"@.len() == 3);
            }
            assert("plum"@ != "hsla"@) by {
                assert("plum"@[0] == 'p');
                assert("hsla"@[0] == 'h');
            }
            assert(word_shape("plum"@));
            assert("plum"@[0] == 'p');
            lemma_hw_round(s, 0, "plum"@);
            assert(crate::color::named_of("plum"@) == Option::Some(Color::Plum));
        },
        Color::PowderBlue => {
            reveal_strlit("powderblue");
            reveal_strlit("palegoldenrod");
            reveal_strlit("palegreen");
            reveal_strlit("paleturquoise");
            reveal_strlit("palevioletred");
            reveal_strlit("papayawhip");
            reveal_strlit("peachpuff");
            reveal_strlit("peru");
            reveal_strlit("pink");
            reveal_strlit("plum");
            assert("powderblue"@ != "palegoldenrod"@) by {
                assert("powderblue"@.len() == 10);
                assert("palegoldenrod"@.len() == 13);
            }
            assert("powderblue"@ != "palegreen"@) by {
                assert("powderblue"@.len() == 10);
                assert("palegreen"@.len() == 9);
            }
            assert("powderblue"@ != "paleturquoise"@) by {
                assert("powderblue"@.len() == 10);
                assert("paleturquoise"@.len() == 13);
            }
            assert("powderblue"@ != "palevioletred"@) by {
                assert("powderblue"@.len() == 10);
                assert("palevioletred"@.len() == 13);
            }
            assert("powderblue"@ != "papayawhip"@) by {
                assert("powderblue"@[1] == 'o');
                assert("papayawhip"@[1] == 'a');
            }
            assert("powderblue"@ != "peachpuff"@) by {
                assert("powderblue"@.len() == 10);
                assert("peachpuff"@.len() == 9);
            }
            assert("powderblue"@ != "peru"@) by {
                assert("powderblue"@.len() == 10);
                assert("peru"@.len() == 4);
            }
            assert("powderblue"@ != "pink"@) by {
                assert("powderblue"@.len() == 10);
                assert("pink"@.len() == 4);
            }
            assert("powderblue"@ != "plum"@) by {
                assert("powderblue"@.len() == 10);
                assert("plum"@.len() == 4);
            }
            assert("powderblue"@ != "hsl"@) by {
                assert("powderblue"@.len() == 10);
                assert("hsl"@.len() == 3);
            }
            assert("powderblue"@ != "hsla"@) by {
                assert("powderblue"@.len() == 10);
                assert("hsla"@.len() == 4);
            }
            assert(word_shape("powderblue"@));
            assert("powderblue"@[0] == 'p');
            lemma_hw_round(s, 0, "powderblue"@);
            assert(crate::color::named_of("powderblue"@) == Option::Some(Color::PowderBlue));
        },
        Color::Purple => {
            reveal_strlit("purple");
            reveal_strlit("palegoldenrod");
            reveal_strlit("palegreen");
            reveal_strlit("paleturquoise");
            reveal_strlit("palevioletred");
            reveal_strlit("papayawhip");
            reveal_strlit("peachpuff");
            reveal_strlit("peru");
            reveal_strlit("pink");
            reveal_strlit("plum");
            reveal_strlit("powderblue");
            assert("purple"@ != "palegoldenrod"@) by {
                assert("purple"@.len() == 6);
                assert("palegoldenrod"@.len() == 13);
            }
            assert("purple"@ != "palegreen"@) by {
                assert("purple"@.len() == 6);
                assert("palegreen"@.len() == 9);
            }
            assert("purple"@ != "paleturquoise"@) by {
                assert("purple"@.len() == 6);
                assert("paleturquoise"@.len() == 13);
            }
            assert("purple"@ != "palevioletred"@) by {
                assert("purple"@.len() == 6);
                assert("palevioletred"@.len() == 13);
            }
            assert("purple"@ != "papayawhip"@) by {
                assert("purple"@.len() == 6);
                assert("papayawhip"@.len() == 10);
            }
            assert("purple"@ != "peachpuff"@) by {
                assert("purple"@.len() == 6);
                assert("peachpuff"@.len() == 9);
            }
            assert("purple"@ != "peru"@) by {
                assert("purple"@.len() == 6);
                assert("peru"@.len() == 4);
            }
            assert("purple"@ != "pink"@) by {
                assert("purple"@.len() == 6);
                assert("pink"@.len() == 4);
            }
            assert("purple"@ != "plum"@) by {
                assert("purple"@.len() == 6);
                assert("plum"@.len() == 4);
            }
            assert("purple"@ != "powderblue"@) by {
                assert("purple"@.len() == 6);
                assert("powderblue"@.len() == 10);
            }
            assert("purple"@ != "hsl"@) by {
                assert("purple"@.len() == 6);
                assert("hsl"@.len() == 3);
            }
            assert("purple"@ != "hsla"@) by {
                assert("purple"@.len() == 6);
                assert("hsla"@.len() == 4);
            }
            assert(word_shape("purple"@));
            assert("purple"@[0] == 'p');
            lemma_hw_round(s, 0, "purple"@);
            assert(crate::color::named_of("purple"@) == Option::Some(Color::Purple));
        },
        Color::RebeccaPurple => {
            reveal_strlit("rebeccapurple");
            assert("rebeccapurple"@ != "hsl"@) by {
                assert("rebeccapurple"@.len() == 13);
                assert("hsl"@.len() == 3);
            }
            assert("rebeccapurple"@ != "hsla"@) by {
                assert("rebeccapurple"@.len() == 13);
                assert("hsla"@.len() == 4);
            }
            assert(word_shape("rebeccapurple"@));
            assert("rebeccapurple"@[0] == 'r');
            lemma_hw_round(s, 0, "rebeccapurple"@);
            assert(crate::color::named_of("rebeccapurple"@) == Option::Some(Color::RebeccaPurple));
        },
        Color::Red => {
            reveal_strlit("red");
            reveal_strlit("rebeccapurple");
            assert("red"@ != "rebeccapurple"@) by {
                assert("red"@.len() == 3);
                assert("rebeccapurple"@.len() == 13);
            }
            assert("red"@ != "hsl"@) by {
                assert("red"@[0] == 'r');
                assert("hsl"@[0] == 'h');
            }
            assert("red"@ != "hsla"@) by {
                assert("red"@.len() == 3);
                assert("hsla"@.len() == 4);
            }
            assert(word_shape("red"@));
            assert("red"@[0] == 'r');
            lemma_hw_round(s, 0, "red"@);
            assert(crate::color::named_of("red"@) == Option::Some(Color::Red));
        },
        Color::RosyBrown => {
            reveal_strlit("rosybrown");
            reveal_strlit("rebeccapurple");
            reveal_strlit("red");
            assert("rosybrown"@ != "rebeccapurple"@) by {
                assert("rosybrown"@.len() == 9);
                assert("rebeccapurple"@.len() == 13);
            }
            assert("rosybrown"@ != "red"@) by {
                assert("rosybrown"@.len() == 9);
                assert("red"@.len() == 3);
            }
            assert("rosybrown"@ != "hsl"@) by {
                assert("rosybrown"@.len() == 9);
                assert("hsl"@.len() == 3);
            }
            assert("rosybrown"@ != "hsla"@) by {
                assert("rosybrown"@.len() == 9);
                assert("hsla"@.len() == 4);
            }
            assert(word_shape("rosybrown"@));
            assert("rosybrown"@[0] == 'r');
            lemma_hw_round(s, 0, "rosybrown"@);
            assert(crate::color::named_of("rosybrown"@) == Option::Some(Color::RosyBrown));
        },
        Color::RoyalBlue => {
            reveal_strlit("royalblue");
            reveal_strlit("rebeccapurple");
            reveal_strlit("red");
            reveal_strlit("rosybrown");
            assert("royalblue"@ != "rebeccapurple"@) by {
                assert("royalblue"@.len() == 9);
                assert("rebeccapurple"@.len() == 13);
            }
            assert("royalblue"@ != "red"@) by {
                assert("royalblue"@.len() == 9);
                assert("red"@.len() == 3);
            }
            assert("royalblue"@ != "rosybrown"@) by {
                assert("royalblue"@[2] == 'y');
                assert("rosybrown"@[2] == 's');
            }
            assert("royalblue"@ != "hsl"@) by {
                assert("royalblue"@.len() == 9);
                assert("hsl"@.len() == 3);
            }
            assert("royalblue"@ != "hsla"@) by {
                assert("royalblue"@.len() == 9);
                assert("hsla"@.len() == 4);
            }
            assert(word_shape("royalblue"@));
            assert("royalblue"@[0] == 'r');
            lemma_hw_round(s, 0, "royalblue"@);
            assert(crate::color::named_of("royalblue"@) == Option::Some(Color::RoyalBlue));
        },
        Color::SaddleBrown => {
            reveal_strlit("saddlebrown");
            assert("saddlebrown"@ != "hsl"@) by {
                assert("saddlebrown"@.len() == 11);
                assert("hsl"@.len() == 3);
            }
            assert("saddlebrown"@ != "hsla"@) by {
                assert("saddlebrown"@.len() == 11);
                assert("hsla"@.len() == 4);
            }
            assert(word_shape("saddlebrown"@));
            assert("saddlebrown"@[0] == 's');
            lemma_hw_round(s, 0, "saddlebrown"@);
            assert(crate::color::named_of("saddlebrown"@) == Option::Some(Color::SaddleBrown));
        },
        Color::Salmon => {
            reveal_strlit("salmon");
            reveal_strlit("saddlebrown");
            assert("salmon"@ != "saddlebrown"@) by {
                assert("salmon"@.len() == 6);
                assert("saddlebrown"@.len() == 11);
            }
            assert("salmon"@ != "hsl"@) by {
                assert("salmon"@.len() == 6);
                assert("hsl"@.len() == 3);
            }
            assert("salmon"@ != "hsla"@) by {
                assert("salmon"@.len() == 6);
                assert("hsla"@.len() == 4);
            }
            assert(word_shape("salmon"@));
            assert("salmon"@[0] == 's');
            lemma_hw_round(s, 0, "salmon"@);
            assert(crate::color::named_of("salmon"@) == Option::Some(Color::Salmon));
        },
        Color::SandyBrown => {
            reveal_strlit("sandybrown");
            reveal_strlit("saddlebrown");
            reveal_strlit("salmon");
            assert("sandybrown"@ != "saddlebrown"@) by {
                assert("sandybrown"@.len() == 10);
                assert("saddlebrown"@.len() == 11);
            }
            assert("sandybrown"@ != "salmon"@) by {
                assert("sandybrown"@.len() == 10);
                assert("salmon"@.len() == 6);
            }
            assert("sandybrown"@ != "hsl"@) by {
                assert("sandybrown"@.len() == 10);
                assert("hsl"@.len() == 3);
            }
            assert("sandybrown"@ != "hsla"@) by {
                assert("sandybrown"@.len() == 10);
                assert("hsla"@.len() == 4);
            }
            assert(word_shape("sandybrown"@));
            assert("sandybrown"@[0] == 's');
            lemma_hw_round(s, 0, "sandybrown"@);
            assert(crate::color::named_of("sandybrown"@) == Option::Some(Color::SandyBrown));
        },
        Color::SeaGreen => {
            reveal_strlit("seagreen");
            reveal_strlit("saddlebrown");
            reveal_strlit("salmon");
            reveal_strlit("sandybrown");
            assert("seagreen"@ != "saddlebrown"@) by {
                assert("seagreen"@.len() == 8);
                assert("saddlebrown"@.len() == 11);
            }
            assert("seagreen"@ != "salmon"@) by {
                assert("seagreen"@.len() == 8);
                assert("salmon"@.len() == 6);
            }
            assert("seagreen"@ != "sandybrown"@) by {
                assert("seagreen"@.len() == 8);
                assert("sandybrown"@.len() == 10);
            }
            assert("seagreen"@ != "hsl"@) by {
                assert("seagreen"@.len() == 8);
                assert("hsl"@.len() == 3);
            }
            assert("seagreen"@ != "hsla"@) by {
                assert("seagreen"@.len() == 8);
                assert("hsla"@.len() == 4);
            }
            assert(word_shape("seagreen"@));
            assert("seagreen"@[0] == 's');
            lemma_hw_round(s, 0, "seagreen"@);
            assert(crate::color::named_of("seagreen"@) == Option::Some(Color::SeaGreen));
        },
        Color::SeaShell => {
            reveal_strlit("seashell");
            reveal_strlit("saddlebrown");
            reveal_strlit("salmon");
            reveal_strlit("sandybrown");
            reveal_strlit("seagreen");
            assert("seashell"@ != "saddlebrown"@) by {
                assert("seashell"@.len() == 8);
                assert("saddlebrown"@.len() == 11);
            }
            assert("seashell"@ != "salmon"@) by {
                assert("seashell"@.len() == 8);
                assert("salmon"@.len() == 6);
            }
            assert("seashell"@ != "sandybrown"@) by {
                assert("seashell"@.len() == 8);
                assert("sandybrown"@.len() == 10);
            }
            assert("seashell"@ != "seagreen"@) by {
                assert("seashell"@[3] == 's');
                assert("seagreen"@[3] == 'g');
            }
            assert("seashell"@ != "hsl"@) by {
                assert("seashell"@.len() == 8);
                assert("hsl"@.len() == 3);
            }
            assert("seashell"@ != "hsla"@) by {
                assert("seashell"@.len() == 8);
                assert("hsla"@.len() == 4);
            }
            assert(word_shape("seashell"@));
            assert("seashell"@[0] == 's');
            lemma_hw_round(s, 0, "seashell"@);
            assert(crate::color::named_of("seashell"@) == Option::Some(Color::SeaShell));
        },
        Color::Sienna => {
            reveal_strlit("sienna");
            reveal_strlit("saddlebrown");
            reveal_strlit("salmon");
            reveal_strlit("sandybrown");
            reveal_strlit("seagreen");
            reveal_strlit("seashell");
            assert("sienna"@ != "saddlebrown"@) by {
                assert("sienna"@.len() == 6);
                assert("saddlebrown"@.len() == 11);
            }
            assert("sienna"@ != "salmon"@) by {
                assert("sienna"@[1] == 'i');
                assert("salmon"@[1] == 'a');
            }
            assert("sienna"@ != "sandybrown"@) by {
                assert("sienna"@.len() == 6);
                assert("sandybrown"@.len() == 10);
            }
            assert("sienna"@ != "seagreen"@) by {
                assert("sienna"@.len() == 6);
                assert("seagreen"@.len() == 8);
            }
            assert("sienna"@ != "seashell"@) by {
                assert("sienna"@.len() == 6);
                assert("seashell"@.len() == 8);
            }
            assert("sienna"@ != "hsl"@) by {
                assert("sienna"@.len() == 6);
                assert("hsl"@.len() == 3);
            }
            assert("sienna"@ != "hsla"@) by {
                assert("sienna"@.len() == 6);
                assert("hsla"@.len() == 4);
            }
            assert(word_shape("sienna"@));
            assert("sienna"@[0] == 's');
            lemma_hw_round(s, 0, "sienna"@);
            assert(crate::color::named_of("sienna"@) == Option::Some(Color::Sienna));
        },
        Color::Silver => {
            reveal_strlit("silver");
            reveal_strlit("saddlebrown");
            reveal_strlit("salmon");
            reveal_strlit("sandybrown");
            reveal_strlit("seagreen");
            reveal_strlit("seashell");
            reveal_strlit("sienna");
            assert("silver"@ != "saddlebrown"@) by {
                assert("silver"@.len() == 6);
                assert("saddlebrown"@.len() == 11);
            }
            assert("silver"@ != "salmon"@) by {
                assert("silver"@[1] == 'i');
                assert("salmon"@[1] == 'a');
            }
            assert("silver"@ != "sandybrown"@) by {
                assert("silver"@.len() == 6);
                assert("sandybrown"@.len() == 10);
            }
            assert("silver"@ != "seagreen"@) by {
                assert("silver"@.len() == 6);
                assert("seagreen"@.len() == 8);
            }
            assert("silver"@ != "seashell"@) by {
                assert("silver"@.len() == 6);
                assert("seashell"@.len() == 8);
            }
            assert("silver"@ != "sienna"@) by {
                assert("silver"@[2] == 'l');
                assert("sienna"@[2] == 'e');
            }
            assert("silver"@ != "hsl"@) by {
                assert("silver"@.len() == 6);
                assert("hsl"@.len() == 3);
            }
            assert("silver"@ != "hsla"@) by {
                assert("silver"@.len() == 6);
                assert("hsla"@.len() == 4);
            }
            assert(word_shape("silver"@));
            assert("silver"@[0] == 's');
            lemma_hw_round(s, 0, "silver"@);
            assert(crate::color::named_of("silver"@) == Option::Some(Color::Silver));
        },
        Color::SkyBlue => {
            reveal_strlit("skyblue");
            reveal_strlit("saddlebrown");
            reveal_strlit("salmon");
            reveal_strlit("sandybrown");
            reveal_strlit("seagreen");
            reveal_strlit("seashell");
            reveal_strlit("sienna");
            reveal_strlit("silver");
            assert("skyblue"@ != "saddlebrown"@) by {
                assert("skyblue"@.len() == 7);
                assert("saddlebrown"@.len() == 11);
            }
            assert("skyblue"@ != "salmon"@) by {
                assert("skyblue"@.len() == 7);
                assert("salmon"@.len() == 6);
            }
            assert("skyblue"@ != "sandybrown"@) by {
                assert("skyblue"@.len() == 7);
                assert("sandybrown"@.len() == 10);
            }
            assert("skyblue"@ != "seagreen"@) by {
                assert("skyblue"@.len() == 7);
                assert("seagreen"@.len() == 8);
            }
            assert("skyblue"@ != "seashell"@) by {
                assert("skyblue"@.len() == 7);
                assert("seashell"@.len() == 8);
            }
            assert("skyblue"@ != "sienna"@) by {
                assert("skyblue"@.len() == 7);
                assert("sienna"@.len() == 6);
            }
            assert("skyblue"@ != "silver"@) by {
                assert("skyblue"@.len() == 7);
                assert("silver"@.len() == 6);
            }
            assert("skyblue"@ != "hsl"@) by {
                assert("skyblue"@.len() == 7);
                assert("hsl"@.len() == 3);
            }
            assert("skyblue"@ != "hsla"@) by {
                assert("skyblue"@.len() == 7);
                assert("hsla"@.len() == 4);
            }
            assert(word_shape("skyblue"@));
            assert("skyblue"@[0] == 's');
            lemma_hw_round(s, 0, "skyblue"@);
            assert(crate::color::named_of("skyblue"@) == Option::Some(Color::SkyBlue));
        },
        Color::SlateBlue => {
            reveal_strlit("slateblue");
            reveal_strlit("saddlebrown");
            reveal_strlit("salmon");
            reveal_strlit("sandybrown");
            reveal_strlit("seagreen");
            reveal_strlit("seashell");
            reveal_strlit("sienna");
            reveal_strlit("silver");
            reveal_strlit("skyblue");
            assert("slateblue"@ != "saddlebrown"@) by {
                assert("slateblue"@.len() == 9);
                assert("saddlebrown"@.len() == 11);
            }
            assert("slateblue"@ != "salmon"@) by {
                assert("slateblue"@.len() == 9);
                assert("salmon"@.len() == 6);
            }
            assert("slateblue"@ != "sandybrown"@) by {
                assert("slateblue"@.len() == 9);
                assert("sandybrown"@.len() == 10);
            }
            assert("slateblue"@ != "seagreen"@) by {
                assert("slateblue"@.len() == 9);
                assert("seagreen"@.len() == 8);
            }
            assert("slateblue"@ != "seashell"@) by {
                assert("slateblue"@.len() == 9);
                assert("seashell"@.len() == 8);
            }
            assert("slateblue"@ != "sienna"@) by {
                assert("slateblue"@.len() == 9);
                assert("sienna"@.len() == 6);
            }
            assert("slateblue"@ != "silver"@) by {
                assert("slateblue"@.len() == 9);
                assert("silver"@.len() == 6);
            }
            assert("slateblue"@ != "skyblue"@) by {
                assert("slateblue"@.len() == 9);
                assert("skyblue"@.len() == 7);
            }
            assert("slateblue"@ != "hsl"@) by {
                assert("slateblue"@.len() == 9);
                assert("hsl"@.len() == 3);
            }
            assert("slateblue"@ != "hsla"@) by {
                assert("slateblue"@.len() == 9);
                assert("hsla"@.len() == 4);
            }
            assert(word_shape("slateblue"@));
            assert("slateblue"@[0] == 's');
            lemma_hw_round(s, 0, "slateblue"@);
            assert(crate::color::named_of("slateblue"@) == Option::Some(Color::SlateBlue));
        },
        Color::SlateGray => {
            reveal_strlit("slategray");
            reveal_strlit("saddlebrown");
            reveal_strlit("salmon");
            reveal_strlit("sandybrown");
            reveal_strlit("seagreen");
            reveal_strlit("seashell");
            reveal_strlit("sienna");
            reveal_strlit("silver");
            reveal_strlit("skyblue");
            reveal_strlit("slateblue");
            assert("slategray"@ != "saddlebrown"@) by {
                assert("slategray"@.len() == 9);
                assert("saddlebrown"@.len() == 11);
            }
            assert("slategray"@ != "salmon"@) by {
                assert("slategray"@.len() == 9);
                assert("salmon"@.len() == 6);
            }
            assert("slategray"@ != "sandybrown"@) by {
                assert("slategray"@.len() == 9);
                assert("sandybrown"@.len() == 10);
            }
            assert("slategray"@ != "seagreen"@) by {
                assert("slategray"@.len() == 9);
                assert("seagreen"@.len() == 8);
            }
            assert("slategray"@ != "seashell"@) by {
                assert("slategray"@.len() == 9);
                assert("seashell"@.len() == 8);
            }
            assert("slategray"@ != "sienna"@) by {
                assert("slategray"@.len() == 9);
                assert("sienna"@.len() == 6);
            }
            assert("slategray"@ != "silver"@) by {
                assert("slategray"@.len() == 9);
                assert("silver"@.len() == 6);
            }
            assert("slategray"@ != "skyblue"@) by {
                assert("slategray"@.len() == 9);
                assert("skyblue"@.len() == 7);
            }
            assert("slategray"@ != "slateblue"@) by {
                assert("slategray"@[5] == 'g');
                assert("slateblue"@[5] == 'b');
            }
            assert("slategray"@ != "hsl"@) by {
                assert("slategray"@.len() == 9);
                assert("hsl"@.len() == 3);
            }
            assert("slategray"@ != "hsla"@) by {
                assert("slategray"@.len() == 9);
                assert("hsla"@.len() == 4);
            }
            assert(word_shape("slategray"@));
            assert("slategray"@[0] == 's');
            lemma_hw_round(s, 0, "slategray"@);
            assert(crate::color::named_of("slategray"@) == Option::Some(Color::SlateGray));
        },
        Color::SlateGrey => {
            reveal_strlit("slategrey");
            reveal_strlit("saddlebrown");
            reveal_strlit("salmon");
            reveal_strlit("sandybrown");
            reveal_strlit("seagreen");
            reveal_strlit("seashell");
            reveal_strlit("sienna");
            reveal_strlit("silver");
            reveal_strlit("skyblue");
            reveal_strlit("slateblue");
            reveal_strlit("slategray");
            assert("slategrey"@ != "saddlebrown"@) by {
                assert("slategrey"@.len() == 9);
                assert("saddlebrown"@.len() == 11);
            }
            assert("slategrey"@ != "salmon"@) by {
                assert("slategrey"@.len() == 9);
                assert("salmon"@.len() == 6);
            }
            assert("slategrey"@ != "sandybrown"@) by {
                assert("slategrey"@.len() == 9);
                assert("sandybrown"@.len() == 10);
            }
            assert("slategrey"@ != "seagreen"@) by {
                assert("slategrey"@.len() == 9);
                assert("seagreen"@.len() == 8);
            }
            assert("slategrey"@ != "seashell"@) by {
                assert("slategrey"@.len() == 9);
                assert("seashell"@.len() == 8);
            }
            assert("slategrey"@ != "sienna"@) by {
                assert("slategrey"@.len() == 9);
                assert("sienna"@.len() == 6);
            }
            assert("slategrey"@ != "silver"@) by {
                assert("slategrey"@.len() == 9);
                assert("silver"@.len() == 6);
            }
            assert("slategrey"@ != "skyblue"@) by {
                assert("slategrey"@.len() == 9);
                assert("skyblue"@.len() == 7);
            }
            assert("slategrey"@ != "slateblue"@) by {
                assert("slategrey"@[5] == 'g');
                assert("slateblue"@[5] == 'b');
            }
            assert("slategrey"@ != "slategray"@) by {
                assert("slategrey"@[7] == 'e');
                assert("slategray"@[7] == 'a');
            }
            assert("slategrey"@ != "hsl"@) by {
                assert("slategrey"@.len() == 9);
                assert("hsl"@.len() == 3);
            }
            assert("slategrey"@ != "hsla"@) by {
                assert("slategrey"@.len() == 9);
                assert("hsla"@.len() == 4);
            }
            assert(word_shape("slategrey"@));
            assert("slategrey"@[0] == 's');
            lemma_hw_round(s, 0, "slategrey"@);
            assert(crate::color::named_of("slategrey"@) == Option::Some(Color::SlateGrey));
        },
        Color::Snow => {
            reveal_strlit("snow");
            reveal_strlit("saddlebrown");
            reveal_strlit("salmon");
            reveal_strlit("sandybrown");
            reveal_strlit("seagreen");
            reveal_strlit("seashell");
            reveal_strlit("sienna");
            reveal_strlit("silver");
            reveal_strlit("skyblue");
            reveal_strlit("slateblue");
            reveal_strlit("slategray");
            reveal_strlit("slategrey");
            assert("snow"@ != "saddlebrown"@) by {
                assert("snow"@.len() == 4);
                assert("saddlebrown"@.len() == 11);
            }
            assert("snow"@ != "salmon"@) by {
                assert("snow"@.len() == 4);
                assert("salmon"@.len() == 6);
            }
            assert("snow"@ != "sandybrown"@) by {
                assert("snow"@.len() == 4);
                assert("sandybrown"@.len() == 10);
            }
            assert("snow"@ != "seagreen"@) by {
                assert("snow"@.len() == 4);
                assert("seagreen"@.len() == 8);
            }
            assert("snow"@ != "seashell"@) by {
                assert("snow"@.len() == 4);
                assert("seashell"@.len() == 8);
            }
            assert("snow"@ != "sienna"@) by {
                assert("snow"@.len() == 4);
                assert("sienna"@.len() == 6);
            }
            assert("snow"@ != "silver"@) by {
                assert("snow"@.len() == 4);
                assert("silver"@.len() == 6);
            }
            assert("snow"@ != "skyblue"@) by {
                assert("snow"@.len() == 4);
                assert("skyblue"@.len() == 7);
            }
            assert("snow"@ != "slateblue"@) by {
                assert("snow"@.len() == 4);
                assert("slateblue"@.len() == 9);
            }
            assert("snow"@ != "slategray"@) by {
                assert("snow"@.len() == 4);
                assert("slategray"@.len() == 9);
            }
            assert("snow"@ != "slategrey"@) by {
                assert("snow"@.len() == 4);
                assert("slategrey"@.len() == 9);
            }
            assert("snow"@ != "hsl"@) by {
                assert("snow"@.len() == 4);
                assert("hsl"@.len() == 3);
            }
            assert("snow"@ != "hsla"@) by {
                assert("snow"@[0] == 's');
                assert("hsla"@[0] == 'h');
            }
            assert(word_shape("snow"@));
            assert("snow"@[0] == 's');
            lemma_hw_round(s, 0, "snow"@);
            assert(crate::color::named_of("snow"@) == Option::Some(Color::Snow));
        },
        Color::SpringGreen => {
            reveal_strlit("springgreen");
            reveal_strlit("saddlebrown");
            reveal_strlit("salmon");
            reveal_strlit("sandybrown");
            reveal_strlit("seagreen");
            reveal_strlit("seashell");
            reveal_strlit("sienna");
            reveal_strlit("silver");
            reveal_strlit("skyblue");
            reveal_strlit("slateblue");
            reveal_strlit("slategray");
            reveal_strlit("slategrey");
            reveal_strlit("snow");
            assert("springgreen"@ != "saddlebrown"@) by {
                assert("springgreen"@[1] == 'p');
                assert("saddlebrown"@[1] == 'a');
            }
            assert("springgreen"@ != "salmon"@) by {
                assert("springgreen"@.len() == 11);
                assert("salmon"@.len() == 6);
            }
            assert("springgreen"@ != "sandybrown"@) by {
                assert("springgreen"@.len() == 11);
                assert("sandybrown"@.len() == 10);
            }
            assert("springgreen"@ != "seagreen"@) by {
                assert("springgreen"@.len() == 11);
                assert("seagreen"@.len() == 8);
            }
            assert("springgreen"@ != "seashell"@) by {
                assert("springgreen"@.len() == 11);
                assert("seashell"@.len() == 8);
            }
            assert("springgreen"@ != "sienna"@) by {
                assert("springgreen"@.len() == 11);
                assert("sienna"@.len() == 6);
            }
            assert("springgreen"@ != "silver"@) by {
                assert("springgreen"@.len() == 11);
                assert("silver"@.len() == 6);
            }
            assert("springgreen"@ != "skyblue"@) by {
                assert("springgreen"@.len() == 11);
                assert("skyblue"@.len() == 7);
            }
            assert("springgreen"@ != "slateblue"@) by {
                assert("springgreen"@.len() == 11);
                assert("slateblue"@.len() == 9);
            }
            assert("springgreen"@ != "slategray"@) by {
                assert("springgreen"@.len() == 11);
                assert("slategray"@.len() == 9);
            }
            assert("springgreen"@ != "slategrey"@) by {
                assert("springgreen"@.len() == 11);
                assert("slategrey"@.len() == 9);
            }
            assert("springgreen"@ != "snow"@) by {
                assert("springgreen"@.len() == 11);
                assert("snow"@.len() == 4);
            }
            assert("springgreen"@ != "hsl"@) by {
                assert("springgreen"@.len() == 11);
                assert("hsl"@.len() == 3);
            }
            assert("springgreen"@ != "hsla"@) by {
                assert("springgreen"@.len() == 11);
                assert("hsla"@.len() == 4);
            }
            assert(word_shape("springgreen"@));
            assert("springgreen"@[0] == 's');
            lemma_hw_round(s, 0, "springgreen"@);
            assert(crate::color::named_of("springgreen"@) == Option::Some(Color::SpringGreen));
        },
        Color::SteelBlue => {
            reveal_strlit("steelblue");
            reveal_strlit("saddlebrown");
            reveal_strlit("salmon");
            reveal_strlit("sandybrown");
            reveal_strlit("seagreen");
            reveal_strlit("seashell");
            reveal_strlit("sienna");
            reveal_strlit("silver");
            reveal_strlit("skyblue");
            reveal_strlit("slateblue");
            reveal_strlit("slategray");
            reveal_strlit("slategrey");
            reveal_strlit("snow");
            reveal_strlit("springgreen");
            assert("steelblue"@ != "saddlebrown"@) by {
                assert("steelblue"@.len() == 9);
                assert("saddlebrown"@.len() == 11);
            }
            assert("steelblue"@ != "salmon"@) by {
                assert("steelblue"@.len() == 9);
                assert("salmon"@.len() == 6);
            }
            assert("steelblue"@ != "sandybrown"@) by {
                assert("steelblue"@.len() == 9);
                assert("sandybrown"@.len() == 10);
            }
            assert("steelblue"@ != "seagreen"@) by {
                assert("steelblue"@.len() == 9);
                assert("seagreen"@.len() == 8);
            }
            assert("steelblue"@ != "seashell"@) by {
                assert("steelblue"@.len() == 9);
                assert("seashell"@.len() == 8);
            }
            assert("steelblue"@ != "sienna"@) by {
                assert("steelblue"@.len() == 9);
                assert("sienna"@.len() == 6);
            }
            assert("steelblue"@ != "silver"@) by {
                assert("steelblue"@.len() == 9);
                assert("silver"@.len() == 6);
            }
            assert("steelblue"@ != "skyblue"@) by {
                assert("steelblue"@.len() == 9);
                assert("skyblue"@.len() == 7);
            }
            assert("steelblue"@ != "slateblue"@) by {
                assert("steelblue"@[1] == 't');
                assert("slateblue"@[1] == 'l');
            }
            assert("steelblue"@ != "slategray"@) by {
                assert("steelblue"@[1] == 't');
                assert("slategray"@[1] == 'l');
            }
            assert("steelblue"@ != "slategrey"@) by {
                assert("steelblue"@[1] == 't');
                assert("slategrey"@[1] == 'l');
            }
            assert("steelblue"@ != "snow"@) by {
                assert("steelblue"@.len() == 9);
                assert("snow"@.len() == 4);
            }
            assert("steelblue"@ != "springgreen"@) by {
                assert("steelblue"@.len() == 9);
                assert("springgreen"@.len() == 11);
            }
            assert("steelblue"@ != "hsl"@) by {
                assert("steelblue"@.len() == 9);
                assert("hsl"@.len() == 3);
            }
            assert("steelblue"@ != "hsla"@) by {
                assert("steelblue"@.len() == 9);
                assert("hsla"@.len() == 4);
            }
            assert(word_shape("steelblue"@));
            assert("steelblue"@[0] == 's');
            lemma_hw_round(s, 0, "steelblue"@);
            assert(crate::color::named_of("steelblue"@) == Option::Some(Color::SteelBlue));
        },
        Color::Tan => {
            reveal_strlit("tan");
            assert("tan"@ != "hsl"@) by {
                assert("tan"@[0] == 't');
                assert("hsl"@[0] == 'h');
            }
            assert("tan"@ != "hsla"@) by {
                assert("tan"@.len() == 3);
                assert("hsla"@.len() == 4);
            }
            assert(word_shape("tan"@));
            assert("tan"@[0] == 't');
            lemma_hw_round(s, 0, "tan"@);
            assert(crate::color::named_of("tan"@) == Option::Some(Color::Tan));
        },
        Color::Teal => {
            reveal_strlit("teal");
            reveal_strlit("tan");
            assert("teal"@ != "tan"@) by {
                assert("teal"@.len() == 4);
                assert("tan"@.len() == 3);
            }
            assert("teal"@ != "hsl"@) by {
                assert("teal"@.len() == 4);
                assert("hsl"@.len() == 3);
            }
            assert("teal"@ != "hsla"@) by {
                assert("teal"@[0] == 't');
                assert("hsla"@[0] == 'h');
            }
            assert(word_shape("teal"@));
            assert("teal"@[0] == 't');
            lemma_hw_round(s, 0, "teal"@);
            assert(crate::color::named_of("teal"@) == Option::Some(Color::Teal));
        },
        Color::Thistle => {
            reveal_strlit("thistle");
            reveal_strlit("tan");
            reveal_strlit("teal");
            assert("thistle"@ != "tan"@) by {
                assert("thistle"@.len() == 7);
                assert("tan"@.len() == 3);
            }
            assert("thistle"@ != "teal"@) by {
                assert("thistle"@.len() == 7);
                assert("teal"@.len() == 4);
            }
            assert("thistle"@ != "hsl"@) by {
                assert("thistle"@.len() == 7);
                assert("hsl"@.len() == 3);
            }
            assert("thistle"@ != "hsla"@) by {
                assert("thistle"@.len() == 7);
                assert("hsla"@.len() == 4);
            }
            assert(word_shape("thistle"@));
            assert("thistle"@[0] == 't');
            lemma_hw_round(s, 0, "thistle"@);
            assert(crate::color::named_of("thistle"@) == Option::Some(Color::Thistle));
        },
        Color::Tomato => {
            reveal_strlit("tomato");
            reveal_strlit("tan");
            reveal_strlit("teal");
            reveal_strlit("thistle");
            assert("tomato"@ != "tan"@) by {
                assert("tomato"@.len() == 6);
                assert("tan"@.len() == 3);
            }
            assert("tomato"@ != "teal"@) by {
                assert("tomato"@.len() == 6);
                assert("teal"@.len() == 4);
            }
            assert("tomato"@ != "thistle"@) by {
                assert("tomato"@.len() == 6);
                assert("thistle"@.len() == 7);
            }
            assert("tomato"@ != "hsl"@) by {
                assert("tomato"@.len() == 6);
                assert("hsl"@.len() == 3);
            }
            assert("tomato"@ != "hsla"@) by {
                assert("tomato"@.len() == 6);
                assert("hsla"@.len() == 4);
            }
            assert(word_shape("tomato"@));
            assert("tomato"@[0] == 't');
            lemma_hw_round(s, 0, "tomato"@);
            assert(crate::color::named_of("tomato"@) == Option::Some(Color::Tomato));
        },
        Color::Turquoise => {
            reveal_strlit("turquoise");
            reveal_strlit("tan");
            reveal_strlit("teal");
            reveal_strlit("thistle");
            reveal_strlit("tomato");
            assert("turquoise"@ != "tan"@) by {
                assert("turquoise"@.len() == 9);
                assert("tan"@.len() == 3);
            }
            assert("turquoise"@ != "teal"@) by {
                assert("turquoise"@.len() == 9);
                assert("teal"@.len() == 4);
            }
            assert("turquoise"@ != "thistle"@) by {
                assert("turquoise"@.len() == 9);
                assert("thistle"@.len() == 7);
            }
            assert("turquoise"@ != "tomato"@) by {
                assert("turquoise"@.len() == 9);
                assert("tomato"@.len() == 6);
            }
            assert("turquoise"@ != "hsl"@) by {
                assert("turquoise"@.len() == 9);
                assert("hsl"@.len() == 3);
            }
            assert("turquoise"@ != "hsla"@) by {
                assert("turquoise"@.len() == 9);
                assert("hsla"@.len() == 4);
            }
            assert(word_shape("turquoise"@));
            assert("turquoise"@[0] == 't');
            lemma_hw_round(s, 0, "turquoise"@);
            assert(crate::color::named_of("turquoise"@) == Option::Some(Color::Turquoise));
        },
        Color::Violet => {
            reveal_strlit("violet");
            assert("violet"@ != "hsl"@) by {
                assert("violet"@.len() == 6);
                assert("hsl"@.len() == 3);
            }
            assert("violet"@ != "hsla"@) by {
                assert("violet"@.len() == 6);
                assert("hsla"@.len() == 4);
            }
            assert(word_shape("violet"@));
            assert("violet"@[0] == 'v');
            lemma_hw_round(s, 0, "violet"@);
            assert(crate::color::named_of("violet"@) == Option::Some(Color::Violet));
        },
        Color::Wheat => {
            reveal_strlit("wheat");
            assert("wheat"@ != "hsl"@) by {
                assert("wheat"@.len() == 5);
                assert("hsl"@.len() == 3);
            }
            assert("wheat"@ != "hsla"@) by {
                assert("wheat"@.len() == 5);
                assert("hsla"@.len() == 4);
            }
            assert(word_shape("wheat"@));
            assert("wheat"@[0] == 'w');
            lemma_hw_round(s, 0, "wheat"@);
            assert(crate::color::named_of("wheat"@) == Option::Some(Color::Wheat));
        },
        Color::White => {
            reveal_strlit("white");
            reveal_strlit("wheat");
            assert("white"@ != "wheat"@) by {
                assert("white"@[2] == 'i');
                assert("wheat"@[2] == 'e');
            }
            assert("white"@ != "hsl"@) by {
                assert("white"@.len() == 5);
                assert("hsl"@.len() == 3);
            }
            assert("white"@ != "hsla"@) by {
                assert("white"@.len() == 5);
                assert("hsla"@.len() == 4);
            }
            assert(word_shape("white"@));
            assert("white"@[0] == 'w');
            lemma_hw_round(s, 0, "white"@);
            assert(crate::color::named_of("white"@) == Option::Some(Color::White));
        },
        Color::WhiteSmoke => {
            reveal_strlit("whitesmoke");
            reveal_strlit("wheat");
            reveal_strlit("white");
            assert("whitesmoke"@ != "wheat"@) by {
                assert("whitesmoke"@.len() == 10);
                assert("wheat"@.len() == 5);
            }
            assert("whitesmoke"@ != "white"@) by {
                assert("whitesmoke"@.len() == 10);
                assert("white"@.len() == 5);
            }
            assert("whitesmoke"@ != "hsl"@) by {
                assert("whitesmoke"@.len() == 10);
                assert("hsl"@.len() == 3);
            }
            assert("whitesmoke"@ != "hsla"@) by {
                assert("whitesmoke"@.len() == 10);
                assert("hsla"@.len() == 4);
            }
            assert(word_shape("whitesmoke"@));
            assert("whitesmoke"@[0] == 'w');
            lemma_hw_round(s, 0, "whitesmoke"@);
            assert(crate::color::named_of("whitesmoke"@) == Option::Some(Color::WhiteSmoke));
        },
        Color::Yellow => {
            reveal_strlit("yellow");
            assert("yellow"@ != "hsl"@) by {
                assert("yellow"@.len() == 6);
                assert("hsl"@.len() == 3);
            }
            assert("yellow"@ != "hsla"@) by {
                assert("yellow"@.len() == 6);
                assert("hsla"@.len() == 4);
            }
            assert(word_shape("yellow"@));
            assert("yellow"@[0] == 'y');
            lemma_hw_round(s, 0, "yellow"@);
            assert(crate::color::named_of("yellow"@) == Option::Some(Color::Yellow));
        },
        Color::YellowGreen => {
            reveal_strlit("yellowgreen");
            reveal_strlit("yellow");
            assert("yellowgreen"@ != "yellow"@) by {
                assert("yellowgreen"@.len() == 11);
                assert("yellow"@.len() == 6);
            }
            assert("yellowgreen"@ != "hsl"@) by {
                assert("yellowgreen"@.len() == 11);
                assert("hsl"@.len() == 3);
            }
            assert("yellowgreen"@ != "hsla"@) by {
                assert("yellowgreen"@.len() == 11);
                assert("hsla"@.len() == 4);
            }
            assert(word_shape("yellowgreen"@));
            assert("yellowgreen"@[0] == 'y');
            lemma_hw_round(s, 0, "yellowgreen"@);
            assert(crate::color::named_of("yellowgreen"@) == Option::Some(Color::YellowGreen));
        },
        _ => {},
    }
}


/// Round trip for a standalone named color: parsing its keyword gives it
/// back.
pub proof fn lemma_named_color_round_trip(v: Color)
    requires
        !(v is HexRGB || v is HexRGBA || v is HSL || v is HSLA),
    ensures
        Color::spec_parse(v.css(), 0) == Ok::<(Color, int), crate::diag::SpecErr>(
            (v, v.css().len() as int),
        ),
{
    match v {
        Color::AliceBlue => lemma_named_rt_group1(v),
        Color::AntiqueWhite => lemma_named_rt_group1(v),
        Color::Aqua => lemma_named_rt_group1(v),
        Color::Aquamarine => lemma_named_rt_group1(v),
        Color::Azure => lemma_named_rt_group1(v),
        Color::Beige => lemma_named_rt_group1(v),
        Color::Bisque => lemma_named_rt_group1(v),
        Color::Black => lemma_named_rt_group1(v),
        Color::BlanchedAlmond => lemma_named_rt_group1(v),
        Color::Blue => lemma_named_rt_group1(v),
        Color::BlueViolet => lemma_named_rt_group1(v),
        Color::Brown => lemma_named_rt_group1(v),
        Color::BurlyWood => lemma_named_rt_group1(v),
        Color::CadetBlue => lemma_named_rt_group1(v),
        Color::Chartreuse => lemma_named_rt_group1(v),
        Color::Chocolate => lemma_named_rt_group1(v),
        Color::Coral => lemma_named_rt_group1(v),
        Color::CornflowerBlue => lemma_named_rt_group1(v),
        Color::Cornsilk => lemma_named_rt_group1(v),
        Color::Crimson => lemma_named_rt_group1(v),
        Color::Cyan => lemma_named_rt_group1(v),
        Color::DarkBlue => lemma_named_rt_group1(v),
        Color::DarkCyan => lemma_named_rt_group1(v),
        Color::DarkGoldenrod => lemma_named_rt_group1(v),
        Color::DarkGray => lemma_named_rt_group1(v),
        Color::DarkGreen => lemma_named_rt_group1(v),
        Color::DarkGrey => lemma_named_rt_group1(v),
        Color::DarkKhaki => lemma_named_rt_group1(v),
        Color::DarkMagenta => lemma_named_rt_group1(v),
        Color::DarkOliveGreen => lemma_named_rt_group1(v),
        Color::DarkOrange => lemma_named_rt_group1(v),
        Color::DarkOrchid => lemma_named_rt_group1(v),
        Color::DarkRed => lemma_named_rt_group1(v),
        Color::DarkSalmon => lemma_named_rt_group1(v),
        Color::DarkSeaGreen => lemma_named_rt_group1(v),
        Color::DarkSlateBlue => lemma_named_rt_group1(v),
        Color::DarkSlateGray => lemma_named_rt_group1(v),
        Color::DarkSlateGrey => lemma_named_rt_group2(v),
        Color::DarkTurquoise => lemma_named_rt_group2(v),
        Color::DarkViolet => lemma_named_rt_group2(v),
        Color::DeepPink => lemma_named_rt_group2(v),
        Color::DeepSkyBlue => lemma_named_rt_group2(v),
        Color::DimGray => lemma_named_rt_group2(v),
        Color::DimGrey => lemma_named_rt_group2(v),
        Color::DodgerBlue => lemma_named_rt_group2(v),
        Color::FireBrick => lemma_named_rt_group2(v),
        Color::FloralWhite => lemma_named_rt_group2(v),
        Color::ForestGreen => lemma_named_rt_group2(v),
        Color::Fuchsia => lemma_named_rt_group2(v),
        Color::Gainsboro => lemma_named_rt_group2(v),
        Color::GhostWhite => lemma_named_rt_group2(v),
        Color::Gold => lemma_named_rt_group2(v),
        Color::Goldenrod => lemma_named_rt_group2(v),
        Color::Gray => lemma_named_rt_group2(v),
        Color::Green => lemma_named_rt_group2(v),
        Color::GreenYellow => lemma_named_rt_group2(v),
        Color::Grey => lemma_named_rt_group2(v),
        Color::Honeydew => lemma_named_rt_group2(v),
        Color::HotPink => lemma_named_rt_group2(v),
        Color::IndianRed => lemma_named_rt_group2(v),
        Color::Indigo => lemma_named_rt_group2(v),
        Color::Ivory => lemma_named_rt_group2(v),
        Color::Khaki => lemma_named_rt_group2(v),
        Color::Lavender => lemma_named_rt_group2(v),
        Color::LavenderBlush => lemma_named_rt_group2(v),
        Color::LawnGreen => lemma_named_rt_group2(v),
        Color::LemonChiffon => lemma_named_rt_group2(v),
        Color::LightBlue => lemma_named_rt_group2(v),
        Color::LightCoral => lemma_named_rt_group2(v),
        Color::LightCyan => lemma_named_rt_group2(v),
        Color::LightGoldenrodYellow => lemma_named_rt_group2(v),
        Color::LightGray => lemma_named_rt_group2(v),
        Color::LightGreen => lemma_named_rt_group2(v),
        Color::LightGrey => lemma_named_rt_group2(v),
        Color::LightPink => lemma_named_rt_group3(v),
        Color::LightSalmon => lemma_named_rt_group3(v),
        Color::LightSeaGreen => lemma_named_rt_group3(v),
        Color::LightSkyBlue => lemma_named_rt_group3(v),
        Color::LightSlateGray => lemma_named_rt_group3(v),
        Color::LightSlateGrey => lemma_named_rt_group3(v),
        Color::LightSteelBlue => lemma_named_rt_group3(v),
        Color::LightYellow => lemma_named_rt_group3(v),
        Color::Lime => lemma_named_rt_group3(v),
        Color::LimeGreen => lemma_named_rt_group3(v),
        Color::Linen => lemma_named_rt_group3(v),
        Color::Magenta => lemma_named_rt_group3(v),
        Color::Maroon => lemma_named_rt_group3(v),
        Color::MediumAquamarine => lemma_named_rt_group3(v),
        Color::MediumBlue => lemma_named_rt_group3(v),
        Color::MediumOrchid => lemma_named_rt_group3(v),
        Color::MediumPurple => lemma_named_rt_group3(v),
        Color::MediumSeaGreen => lemma_named_rt_group3(v),
        Color::MediumSlateBlue => lemma_named_rt_group3(v),
        Color::MediumSpringGreen => lemma_named_rt_group3(v),
        Color::MediumTurquoise => lemma_named_rt_group3(v),
        Color::MediumVioletRed => lemma_named_rt_group3(v),
        Color::MidnightBlue => lemma_named_rt_group3(v),
        Color::MintCream => lemma_named_rt_group3(v),
        Color::MistyRose => lemma_named_rt_group3(v),
        Color::Moccasin => lemma_named_rt_group3(v),
        Color::NavajoWhite => lemma_named_rt_group3(v),
        Color::Navy => lemma_named_rt_group3(v),
        Color::OldLace => lemma_named_rt_group3(v),
        Color::Olive => lemma_named_rt_group3(v),
        Color::OliveDrab => lemma_named_rt_group3(v),
        Color::Orange => lemma_named_rt_group3(v),
        Color::OrangeRed => lemma_named_rt_group3(v),
        Color::Orchid => lemma_named_rt_group3(v),
        Color::PaleGoldenrod => lemma_named_rt_group3(v),
        Color::PaleGreen => lemma_named_rt_group3(v),
        Color::PaleTurquoise => lemma_named_rt_group3(v),
        Color::PaleVioletRed => lemma_named_rt_group4(v),
        Color::PapayaWhip => lemma_named_rt_group4(v),
        Color::PeachPuff => lemma_named_rt_group4(v),
        Color::Peru => lemma_named_rt_group4(v),
        Color::Pink => lemma_named_rt_group4(v),
        Color::Plum => lemma_named_rt_group4(v),
        Color::PowderBlue => lemma_named_rt_group4(v),
        Color::Purple => lemma_named_rt_group4(v),
        Color::RebeccaPurple => lemma_named_rt_group4(v),
        Color::Red => lemma_named_rt_group4(v),
        Color::RosyBrown => lemma_named_rt_group4(v),
        Color::RoyalBlue => lemma_named_rt_group4(v),
        Color::SaddleBrown => lemma_named_rt_group4(v),
        Color::Salmon => lemma_named_rt_group4(v),
        Color::SandyBrown => lemma_named_rt_group4(v),
        Color::SeaGreen => lemma_named_rt_group4(v),
        Color::SeaShell => lemma_named_rt_group4(v),
        Color::Sienna => lemma_named_rt_group4(v),
        Color::Silver => lemma_named_rt_group4(v),
        Color::SkyBlue => lemma_named_rt_group4(v),
        Color::SlateBlue => lemma_named_rt_group4(v),
        Color::SlateGray => lemma_named_rt_group4(v),
        Color::SlateGrey => lemma_named_rt_group4(v),
        Color::Snow => lemma_named_rt_group4(v),
        Color::SpringGreen => lemma_named_rt_group4(v),
        Color::SteelBlue => lemma_named_rt_group4(v),
        Color::Tan => lemma_named_rt_group4(v),
        Color::Teal => lemma_named_rt_group4(v),
        Color::Thistle => lemma_named_rt_group4(v),
        Color::Tomato => lemma_named_rt_group4(v),
        Color::Turquoise => lemma_named_rt_group4(v),
        Color::Violet => lemma_named_rt_group4(v),
        Color::Wheat => lemma_named_rt_group4(v),
        Color::White => lemma_named_rt_group4(v),
        Color::WhiteSmoke => lemma_named_rt_group4(v),
        Color::Yellow => lemma_named_rt_group4(v),
        Color::YellowGreen => lemma_named_rt_group4(v),
        _ => {},
    }
}

} // verus!

verus! {

impl Color {
    /// The rendering re-parses: components are in range and normalized.
    pub open spec fn parseable(self) -> bool {
        match self {
            Color::HSL(h, sa, li) => self.wf() && h.parseable() && sa.parseable()
                && li.parseable(),
            Color::HSLA(h, sa, li, al) => self.wf() && h.parseable() && sa.parseable()
                && li.parseable() && al.parseable(),
            _ => true,
        }
    }
}

/// Round trip for a standalone `hsl(...)` color.
#[verifier::rlimit(100)]
proof fn lemma_hsl_rt(c: Color)
    requires
        c is HSL,
        c.parseable(),
    ensures
        Color::spec_parse(c.css(), 0) == Ok::<(Color, int), crate::diag::SpecErr>(
            (c, c.css().len() as int),
        ),
{
    reveal_strlit("hsl");
    reveal_strlit("hsla");
    reveal_strlit("hsl(");
    reveal_strlit("hsla(");
    reveal_strlit(", ");
    reveal_strlit("%, ");
    reveal_strlit("%)");
    reveal_strlit(")");
    reveal_strlit("%");
    let s = c.css();
    lemma_skip_ws(s, s.len() as int);
    if let Color::HSL(h, sa, li) = c {
        let lh = h.css().len() as int;
        let ls = sa.css().len() as int;
        let ll = li.css().len() as int;
        lemma_num_css_first(h);
        lemma_num_css_first(sa);
        lemma_num_css_first(li);
        assert(s.len() == 11 + lh + ls + ll);
        assert(s[0] == 'h' && s[1] == 's' && s[2] == 'l' && s[3] == '(');
        assert(s.subrange(0, 3) =~= "hsl"@);
        assert(word_shape("hsl"@));
        assert(s[4] == h.css()[0]);
        lemma_hw_round(s, 0, "hsl"@);
        assert(s.subrange(4, 4 + lh) =~= h.css());
        assert(s[4 + lh] == ',' && s[5 + lh] == ' ');
        lemma_num_bare(s, 4, h);
        assert(s[6 + lh] == sa.css()[0]);
        assert(is_ws(s[5 + lh]));
        assert(!is_ws(s[6 + lh]));
        assert(spec_skip_ws(s, 5 + lh) == spec_skip_ws(s, (5 + lh) + 1));
        assert(spec_skip_ws(s, 6 + lh) == 6 + lh);
        assert(spec_skip_ws(s, 5 + lh) == 6 + lh);
        lemma_number_shift(s, 5 + lh);
        assert(s.subrange(6 + lh, 6 + lh + ls) =~= sa.css());
        assert(s[6 + lh + ls] == '%');
        assert(s.subrange(6 + lh, 7 + lh + ls) =~= sa.css() + seq!['%']);
        lemma_num_percent(s, 6 + lh, sa);
        assert(s[7 + lh + ls] == ',' && s[8 + lh + ls] == ' ');
        assert(s[9 + lh + ls] == li.css()[0]);
        assert(is_ws(s[8 + lh + ls]));
        assert(!is_ws(s[9 + lh + ls]));
        assert(spec_skip_ws(s, 8 + lh + ls) == spec_skip_ws(s, (8 + lh + ls) + 1));
        assert(spec_skip_ws(s, 9 + lh + ls) == 9 + lh + ls);
        assert(spec_skip_ws(s, 8 + lh + ls) == 9 + lh + ls);
        lemma_number_shift(s, 8 + lh + ls);
        assert(s.subrange(9 + lh + ls, 9 + lh + ls + ll) =~= li.css());
        assert(s[9 + lh + ls + ll] == '%');
        assert(s.subrange(9 + lh + ls, 10 + lh + ls + ll) =~= li.css() + seq!['%']);
        lemma_num_percent(s, 9 + lh + ls, li);
        assert(s[10 + lh + ls + ll] == ')');
        assert("%"@ =~= seq!['%']);
    }
}

/// Round trip for a standalone `hsla(...)` color.
#[verifier::rlimit(100)]
proof fn lemma_hsla_rt(c: Color)
    requires
        c is HSLA,
        c.parseable(),
    ensures
        Color::spec_parse(c.css(), 0) == Ok::<(Color, int), crate::diag::SpecErr>(
            (c, c.css().len() as int),
        ),
{
    reveal_strlit("hsl");
    reveal_strlit("hsla");
    reveal_strlit("hsl(");
    reveal_strlit("hsla(");
    reveal_strlit(", ");
    reveal_strlit("%, ");
    reveal_strlit("%)");
    reveal_strlit(")");
    reveal_strlit("%");
    let s = c.css();
    lemma_skip_ws(s, s.len() as int);
    if let Color::HSLA(h, sa, li, al) = c {
        let lh = h.css().len() as int;
        let ls = sa.css().len() as int;
        let ll = li.css().len() as int;
        let la = al.css().len() as int;
        lemma_num_css_first(h);
        lemma_num_css_first(sa);
        lemma_num_css_first(li);
        lemma_num_css_first(al);
        assert(s.len() == 14 + lh + ls + ll + la);
        assert(s[0] == 'h' && s[1] == 's' && s[2] == 'l' && s[3] == 'a' && s[4] == '(');
        assert(s.subrange(0, 4) =~= "hsla"@);
        assert(word_shape("hsla"@));
        assert("hsl"@ != "hsla"@) by {
            assert("hsl"@.len() == 3);
            assert("hsla"@.len() == 4);
        }
        assert(s[5] == h.css()[0]);
        lemma_hw_round(s, 0, "hsla"@);
        assert(s.subrange(5, 5 + lh) =~= h.css());
        assert(s[5 + lh] == ',' && s[6 + lh] == ' ');
        lemma_num_bare(s, 5, h);
        assert(s[7 + lh] == sa.css()[0]);
        assert(is_ws(s[6 + lh]));
        assert(!is_ws(s[7 + lh]));
        assert(spec_skip_ws(s, 6 + lh) == spec_skip_ws(s, (6 + lh) + 1));
        assert(spec_skip_ws(s, 7 + lh) == 7 + lh);
        assert(spec_skip_ws(s, 6 + lh) == 7 + lh);
        lemma_number_shift(s, 6 + lh);
        assert(s.subrange(7 + lh, 7 + lh + ls) =~= sa.css());
        assert(s[7 + lh + ls] == '%');
        assert(s.subrange(7 + lh, 8 + lh + ls) =~= sa.css() + seq!['%']);
        lemma_num_percent(s, 7 + lh, sa);
        assert(s[8 + lh + ls] == ',' && s[9 + lh + ls] == ' ');
        assert(s[10 + lh + ls] == li.css()[0]);
        assert(is_ws(s[9 + lh + ls]));
        assert(!is_ws(s[10 + lh + ls]));
        assert(spec_skip_ws(s, 9 + lh + ls) == spec_skip_ws(s, (9 + lh + ls) + 1));
        assert(spec_skip_ws(s, 10 + lh + ls) == 10 + lh + ls);
        assert(spec_skip_ws(s, 9 + lh + ls) == 10 + lh + ls);
        lemma_number_shift(s, 9 + lh + ls);
        assert(s.subrange(10 + lh + ls, 10 + lh + ls + ll) =~= li.css());
        assert(s[10 + lh + ls + ll] == '%');
        assert(s.subrange(10 + lh + ls, 11 + lh + ls + ll) =~= li.css() + seq!['%']);
        lemma_num_percent(s, 10 + lh + ls, li);
        assert(s[11 + lh + ls + ll] == ',' && s[12 + lh + ls + ll] == ' ');
        let ap = 13 + lh + ls + ll;
        assert(s[ap] == al.css()[0]);
        assert(is_ws(s[ap - 1]));
        assert(!is_ws(s[ap]));
        assert(spec_skip_ws(s, ap - 1) == spec_skip_ws(s, (ap - 1) + 1));
        assert(spec_skip_ws(s, ap) == ap);
        assert(spec_skip_ws(s, ap - 1) == ap);
        lemma_number_shift(s, ap - 1);
        assert(s.subrange(ap, ap + la) =~= al.css());
        assert(s[ap + la] == ')');
        lemma_num_bare(s, ap, al);
        assert("%"@ =~= seq!['%']);
    }
}

/// Round trip for a standalone `hsl(...)` or `hsla(...)` color.
pub proof fn lemma_hsl_color_round_trip(c: Color)
    requires
        c is HSL || c is HSLA,
        c.parseable(),
    ensures
        Color::spec_parse(c.css(), 0) == Ok::<(Color, int), crate::diag::SpecErr>(
            (c, c.css().len() as int),
        ),
{
    if c is HSL {
        lemma_hsl_rt(c);
    } else {
        lemma_hsla_rt(c);
    }
}

/// Round trip for every color: parsing a parseable color's canonical text
/// gives it back, consuming everything.
pub proof fn lemma_color_round_trip(c: Color)
    requires
        c.parseable(),
    ensures
        Color::spec_parse(c.css(), 0) == Ok::<(Color, int), crate::diag::SpecErr>(
            (c, c.css().len() as int),
        ),
{
    match c {
        Color::HexRGB(_, _, _) => lemma_hex_color_round_trip(c),
        Color::HexRGBA(_, _, _, _) => lemma_hex_color_round_trip(c),
        Color::HSL(_, _, _) => lemma_hsl_color_round_trip(c),
        Color::HSLA(_, _, _, _) => lemma_hsl_color_round_trip(c),
        _ => lemma_named_color_round_trip(c),
    }
}

} // verus!
