//! Parsers for the composite property values.

use vstd::prelude::*;
use crate::diag::{quoted, spec_insert, spec_join, ParseError, SpecErr};
use crate::num::Num;
use crate::parse::{
    res_matches, res_str_matches, spec_expect_char, spec_hyphen_word, spec_kw_token, spec_number,
    expect_char, peek_kw, HyphenWord, Number,
};
use crate::text::{is_ident_start, skip_ws, spec_skip_ws};
use crate::values::{
    FlexBasis, FontSize, FontWeight, Length, LengthPercentage, LineWidth, MarginWidth,
    MaxWidthHeight, ObjectFit, Percentage, Width21, WidthHeight,
};
use vstd::string::StrSliceExecFns;

verus! {

impl Length {
    /// The message when a number has no recognized unit and is not zero.
    pub open spec fn unit_msg() -> Seq<char> {
        "expected one of `em`, `ex`, `in`, `cm`, `mm`, `pt`, `pc`, `px` after number, or 0"@
    }

    /// A number becomes a length through its unit suffix; a bare `0` is the
    /// unit-less zero; anything else is refused.
    pub open spec fn spec_from_number(v: Num, suffix: Seq<char>, at: int) -> Result<
        Length,
        SpecErr,
    > {
        if suffix == "em"@ {
            Ok(Length::Em(v))
        } else if suffix == "ex"@ {
            Ok(Length::Ex(v))
        } else if suffix == "in"@ {
            Ok(Length::In(v))
        } else if suffix == "cm"@ {
            Ok(Length::Cm(v))
        } else if suffix == "mm"@ {
            Ok(Length::Mm(v))
        } else if suffix == "pt"@ {
            Ok(Length::Pt(v))
        } else if suffix == "pc"@ {
            Ok(Length::Pc(v))
        } else if suffix == "px"@ {
            Ok(Length::Px(v))
        } else if suffix.len() == 0 && v.mantissa == 0 {
            Ok(Length::Zero)
        } else {
            Err(SpecErr { pos: at, msg: Length::unit_msg() })
        }
    }

    /// A numeric literal with a length unit.
    pub open spec fn spec_parse(s: Seq<char>, p: int) -> Result<(Length, int), SpecErr> {
        match spec_number(s, p) {
            Err(e) => Err(e),
            Ok(sn) => match Length::spec_from_number(sn.value, sn.suffix, sn.at) {
                Ok(l) => Ok((l, sn.end)),
                Err(e) => Err(e),
            },
        }
    }

    /// Turns a consumed number into a length, as [`Length::spec_from_number`].
    pub fn parse_from_number(n: &Number) -> (r: Result<Length, ParseError>)
        ensures
            res_str_matches(r, Length::spec_from_number(n.value, n.suffix@, n.pos as int)),
    {
        let suf = n.suffix.as_str();
        if crate::text::str_eq(suf, "em") {
            Ok(Length::Em(n.value))
        } else if crate::text::str_eq(suf, "ex") {
            Ok(Length::Ex(n.value))
        } else if crate::text::str_eq(suf, "in") {
            Ok(Length::In(n.value))
        } else if crate::text::str_eq(suf, "cm") {
            Ok(Length::Cm(n.value))
        } else if crate::text::str_eq(suf, "mm") {
            Ok(Length::Mm(n.value))
        } else if crate::text::str_eq(suf, "pt") {
            Ok(Length::Pt(n.value))
        } else if crate::text::str_eq(suf, "pc") {
            Ok(Length::Pc(n.value))
        } else if crate::text::str_eq(suf, "px") {
            Ok(Length::Px(n.value))
        } else if suf.is_empty() && n.value.mantissa == 0 {
            Ok(Length::Zero)
        } else {
            Err(crate::diag::error_at(
                n.pos,
                "expected one of `em`, `ex`, `in`, `cm`, `mm`, `pt`, `pc`, `px` after number, or 0",
            ))
        }
    }

    /// Consumes a length, as [`Length::spec_parse`].
    pub fn parse(s: &str, pos: usize) -> (r: Result<(Length, usize), ParseError>)
        requires
            pos <= s@.len(),
        ensures
            res_matches(r, Length::spec_parse(s@, pos as int)),
            r is Ok ==> r->Ok_0.1 <= s@.len(),
    {
        let (n, e) = match Number::parse(s, pos) {
            Ok(v) => v,
            Err(er) => {
                return Err(er);
            },
        };
        match Length::parse_from_number(&n) {
            Ok(l) => Ok((l, e)),
            Err(er) => Err(er),
        }
    }

    /// Parses a whole string as one length.
    pub fn parse_str(s: &str) -> (r: Result<Length, ParseError>)
        ensures
            res_str_matches(r, crate::parse::spec_complete(s@, Length::spec_parse(s@, 0))),
    {
        crate::parse::complete_parse(s, Length::parse(s, 0))
    }
}

impl Percentage {
    /// A number whose suffix is `%`.
    pub open spec fn spec_parse(s: Seq<char>, p: int) -> Result<(Percentage, int), SpecErr> {
        match spec_number(s, p) {
            Err(e) => Err(e),
            Ok(sn) => {
                if sn.suffix == "%"@ {
                    Ok((Percentage(sn.value), sn.end))
                } else {
                    Err(SpecErr { pos: sn.at, msg: "expected percentage"@ })
                }
            },
        }
    }

    /// Consumes a percentage, as [`Percentage::spec_parse`].
    pub fn parse(s: &str, pos: usize) -> (r: Result<(Percentage, usize), ParseError>)
        requires
            pos <= s@.len(),
        ensures
            res_matches(r, Percentage::spec_parse(s@, pos as int)),
            r is Ok ==> r->Ok_0.1 <= s@.len(),
    {
        let (n, e) = match Number::parse(s, pos) {
            Ok(v) => v,
            Err(er) => {
                return Err(er);
            },
        };
        if crate::text::str_eq(n.suffix.as_str(), "%") {
            Ok((Percentage(n.value), e))
        } else {
            Err(crate::diag::error_at(n.pos, "expected percentage"))
        }
    }
}

impl LengthPercentage {
    /// One number: a `%` suffix makes it a percentage, anything else goes
    /// through the length units.
    pub open spec fn spec_parse(s: Seq<char>, p: int) -> Result<(LengthPercentage, int), SpecErr> {
        match spec_number(s, p) {
            Err(e) => Err(e),
            Ok(sn) => {
                if sn.suffix == "%"@ {
                    Ok((LengthPercentage::Percentage(Percentage(sn.value)), sn.end))
                } else {
                    match Length::spec_from_number(sn.value, sn.suffix, sn.at) {
                        Ok(l) => Ok((LengthPercentage::Length(l), sn.end)),
                        Err(e) => Err(e),
                    }
                }
            },
        }
    }

    /// Consumes a length or percentage, as [`LengthPercentage::spec_parse`].
    pub fn parse(s: &str, pos: usize) -> (r: Result<(LengthPercentage, usize), ParseError>)
        requires
            pos <= s@.len(),
        ensures
            res_matches(r, LengthPercentage::spec_parse(s@, pos as int)),
            r is Ok ==> r->Ok_0.1 <= s@.len(),
    {
        let (n, e) = match Number::parse(s, pos) {
            Ok(v) => v,
            Err(er) => {
                return Err(er);
            },
        };
        if crate::text::str_eq(n.suffix.as_str(), "%") {
            Ok((LengthPercentage::Percentage(Percentage(n.value)), e))
        } else {
            match Length::parse_from_number(&n) {
                Ok(l) => Ok((LengthPercentage::Length(l), e)),
                Err(er) => Err(er),
            }
        }
    }

    /// Parses a whole string as one length-or-percentage.
    pub fn parse_str(s: &str) -> (r: Result<LengthPercentage, ParseError>)
        ensures
            res_str_matches(
                r,
                crate::parse::spec_complete(s@, LengthPercentage::spec_parse(s@, 0)),
            ),
    {
        crate::parse::complete_parse(s, LengthPercentage::parse(s, 0))
    }
}

impl LineWidth {
    /// The candidates a line-width dispatch reports on failure.
    pub open spec fn tried() -> Seq<Seq<char>> {
        spec_insert(
            spec_insert(
                spec_insert(
                    spec_insert(Seq::<Seq<char>>::empty(), quoted("thin"@)),
                    quoted("medium"@),
                ),
                quoted("thick"@),
            ),
            "length"@,
        )
    }

    /// A width keyword, else a length after the word that was read.
    pub open spec fn spec_parse(s: Seq<char>, p: int) -> Result<(LineWidth, int), SpecErr> {
        match spec_hyphen_word(s, p) {
            Err(e) => Err(e),
            Ok(hw) => {
                if hw.word == Option::Some("thin"@) {
                    Ok((LineWidth::Thin, hw.end))
                } else if hw.word == Option::Some("medium"@) {
                    Ok((LineWidth::Medium, hw.end))
                } else if hw.word == Option::Some("thick"@) {
                    Ok((LineWidth::Thick, hw.end))
                } else if hw.word is None {
                    match Length::spec_parse(s, hw.end) {
                        Ok((l, e)) => Ok((LineWidth::Length(l), e)),
                        Err(_) => Err(
                            SpecErr {
                                pos: hw.at,
                                msg: "expected one of "@ + spec_join(LineWidth::tried()),
                            },
                        ),
                    }
                } else {
                    Err(
                        SpecErr {
                            pos: hw.at,
                            msg: "expected one of "@ + spec_join(LineWidth::tried()),
                        },
                    )
                }
            },
        }
    }

    /// Consumes a line width, as [`LineWidth::spec_parse`].
    pub fn parse(s: &str, pos: usize) -> (r: Result<(LineWidth, usize), ParseError>)
        requires
            pos <= s@.len(),
        ensures
            res_matches(r, LineWidth::spec_parse(s@, pos as int)),
            r is Ok ==> r->Ok_0.1 <= s@.len(),
    {
        broadcast use crate::diag::lemma_insert_len;

        let (mut word, e) = match HyphenWord::parse(s, pos) {
            Ok(v) => v,
            Err(er) => {
                return Err(er);
            },
        };
        if word.try_match("thin") {
            Ok((LineWidth::Thin, e))
        } else if word.try_match("medium") {
            Ok((LineWidth::Medium, e))
        } else if word.try_match("thick") {
            Ok((LineWidth::Thick, e))
        } else if word.word.is_none() {
            match Length::parse(s, e) {
                Ok((l, e2)) => Ok((LineWidth::Length(l), e2)),
                Err(_) => {
                    word.add_expected("length");
                    Err(word.error())
                },
            }
        } else {
            word.add_expected("length");
            Err(word.error())
        }
    }
}

impl FontWeight {
    /// The candidates a font-weight dispatch reports on failure.
    pub open spec fn tried() -> Seq<Seq<char>> {
        spec_insert(
            spec_insert(
                spec_insert(
                    spec_insert(
                        spec_insert(
                            Seq::<Seq<char>>::empty(),
                            "number where 1 <= number <= 1000"@,
                        ),
                        quoted("normal"@),
                    ),
                    quoted("bold"@),
                ),
                quoted("lighter"@),
            ),
            quoted("bolder"@),
        )
    }

    /// The dispatch failure for a font weight.
    pub open spec fn fail(at: int) -> SpecErr {
        SpecErr { pos: at, msg: "expected one of "@ + spec_join(FontWeight::tried()) }
    }

    /// A weight keyword, else a bare number in `1..=1000`.
    pub open spec fn spec_parse(s: Seq<char>, p: int) -> Result<(FontWeight, int), SpecErr> {
        match spec_hyphen_word(s, p) {
            Err(e) => Err(e),
            Ok(hw) => {
                if hw.word == Option::Some("normal"@) {
                    Ok((FontWeight::Normal, hw.end))
                } else if hw.word == Option::Some("bold"@) {
                    Ok((FontWeight::Bold, hw.end))
                } else if hw.word == Option::Some("lighter"@) {
                    Ok((FontWeight::Lighter, hw.end))
                } else if hw.word == Option::Some("bolder"@) {
                    Ok((FontWeight::Bolder, hw.end))
                } else if hw.word is None {
                    match spec_number(s, hw.end) {
                        Err(_) => Err(FontWeight::fail(hw.at)),
                        Ok(sn) => {
                            if sn.suffix.len() == 0 && sn.value.val_ge_int(1)
                                && sn.value.val_le_int(1000) {
                                Ok((FontWeight::Number(sn.value), sn.end))
                            } else {
                                Err(FontWeight::fail(hw.at))
                            }
                        },
                    }
                } else {
                    Err(FontWeight::fail(hw.at))
                }
            },
        }
    }

    /// Consumes a font weight, as [`FontWeight::spec_parse`].
    pub fn parse(s: &str, pos: usize) -> (r: Result<(FontWeight, usize), ParseError>)
        requires
            pos <= s@.len(),
        ensures
            res_matches(r, FontWeight::spec_parse(s@, pos as int)),
            r is Ok ==> r->Ok_0.1 <= s@.len(),
    {
        broadcast use crate::diag::lemma_insert_len;

        let (mut word, e) = match HyphenWord::parse(s, pos) {
            Ok(v) => v,
            Err(er) => {
                return Err(er);
            },
        };
        word.add_expected("number where 1 <= number <= 1000");
        if word.try_match("normal") {
            Ok((FontWeight::Normal, e))
        } else if word.try_match("bold") {
            Ok((FontWeight::Bold, e))
        } else if word.try_match("lighter") {
            Ok((FontWeight::Lighter, e))
        } else if word.try_match("bolder") {
            Ok((FontWeight::Bolder, e))
        } else if word.word.is_none() {
            match Number::parse(s, e) {
                Err(_) => Err(word.error()),
                Ok((n, e2)) => {
                    if n.suffix.as_str().is_empty() && n.value.ge_int(1) && n.value.le_int(1000) {
                        Ok((FontWeight::Number(n.value), e2))
                    } else {
                        Err(word.error())
                    }
                },
            }
        } else {
            Err(word.error())
        }
    }

    /// Parses a whole string as one font weight.
    pub fn parse_str(s: &str) -> (r: Result<FontWeight, ParseError>)
        ensures
            res_str_matches(r, crate::parse::spec_complete(s@, FontWeight::spec_parse(s@, 0))),
    {
        crate::parse::complete_parse(s, FontWeight::parse(s, 0))
    }
}

impl FontSize {
    /// The candidates a font-size dispatch reports on failure.
    pub open spec fn tried() -> Seq<Seq<char>> {
        spec_insert(
            spec_insert(
                spec_insert(
                    spec_insert(
                        spec_insert(
                            spec_insert(
                                spec_insert(
                                    spec_insert(
                                        spec_insert(
                                            spec_insert(
                                                spec_insert(
                                                    spec_insert(
                                                        Seq::<Seq<char>>::empty(),
                                                        quoted("xx-small"@),
                                                    ),
                                                    quoted("x-small"@),
                                                ),
                                                quoted("small"@),
                                            ),
                                            quoted("medium"@),
                                        ),
                                        quoted("large"@),
                                    ),
                                    quoted("x-large"@),
                                ),
                                quoted("xx-large"@),
                            ),
                            quoted("xxx-large"@),
                        ),
                        quoted("larger"@),
                    ),
                    quoted("smaller"@),
                ),
                "length"@,
            ),
            "percentage"@,
        )
    }

    /// A size keyword, else a length or percentage from the original spot.
    pub open spec fn spec_parse(s: Seq<char>, p: int) -> Result<(FontSize, int), SpecErr> {
        match spec_hyphen_word(s, p) {
            Err(e) => Err(e),
            Ok(hw) => {
                if hw.word == Option::Some("xx-small"@) {
                    Ok((FontSize::XXSmall, hw.end))
                } else if hw.word == Option::Some("x-small"@) {
                    Ok((FontSize::XSmall, hw.end))
                } else if hw.word == Option::Some("small"@) {
                    Ok((FontSize::Small, hw.end))
                } else if hw.word == Option::Some("medium"@) {
                    Ok((FontSize::Medium, hw.end))
                } else if hw.word == Option::Some("large"@) {
                    Ok((FontSize::Large, hw.end))
                } else if hw.word == Option::Some("x-large"@) {
                    Ok((FontSize::XLarge, hw.end))
                } else if hw.word == Option::Some("xx-large"@) {
                    Ok((FontSize::XXLarge, hw.end))
                } else if hw.word == Option::Some("xxx-large"@) {
                    Ok((FontSize::XXXLarge, hw.end))
                } else if hw.word == Option::Some("larger"@) {
                    Ok((FontSize::Larger, hw.end))
                } else if hw.word == Option::Some("smaller"@) {
                    Ok((FontSize::Smaller, hw.end))
                } else {
                    match LengthPercentage::spec_parse(s, p) {
                        Ok((lp, e)) => Ok((FontSize::LengthPercentage(lp), e)),
                        Err(_) => Err(
                            SpecErr {
                                pos: hw.at,
                                msg: "expected one of "@ + spec_join(FontSize::tried()),
                            },
                        ),
                    }
                }
            },
        }
    }

    /// Consumes a font size, as [`FontSize::spec_parse`].
    pub fn parse(s: &str, pos: usize) -> (r: Result<(FontSize, usize), ParseError>)
        requires
            pos <= s@.len(),
        ensures
            res_matches(r, FontSize::spec_parse(s@, pos as int)),
            r is Ok ==> r->Ok_0.1 <= s@.len(),
    {
        broadcast use crate::diag::lemma_insert_len;

        let (mut word, e) = match HyphenWord::parse(s, pos) {
            Ok(v) => v,
            Err(er) => {
                return Err(er);
            },
        };
        if word.try_match("xx-small") {
            Ok((FontSize::XXSmall, e))
        } else if word.try_match("x-small") {
            Ok((FontSize::XSmall, e))
        } else if word.try_match("small") {
            Ok((FontSize::Small, e))
        } else if word.try_match("medium") {
            Ok((FontSize::Medium, e))
        } else if word.try_match("large") {
            Ok((FontSize::Large, e))
        } else if word.try_match("x-large") {
            Ok((FontSize::XLarge, e))
        } else if word.try_match("xx-large") {
            Ok((FontSize::XXLarge, e))
        } else if word.try_match("xxx-large") {
            Ok((FontSize::XXXLarge, e))
        } else if word.try_match("larger") {
            Ok((FontSize::Larger, e))
        } else if word.try_match("smaller") {
            Ok((FontSize::Smaller, e))
        } else {
            match LengthPercentage::parse(s, pos) {
                Ok((lp, e2)) => Ok((FontSize::LengthPercentage(lp), e2)),
                Err(_) => {
                    word.add_expected("length");
                    word.add_expected("percentage");
                    Err(word.error())
                },
            }
        }
    }
}

impl Width21 {
    /// The `auto` keyword, else a length or percentage.
    pub open spec fn spec_parse(s: Seq<char>, p: int) -> Result<(Width21, int), SpecErr> {
        match spec_kw_token(s, p, "auto"@) {
            Option::Some(e) => Ok((Width21::Auto, e)),
            Option::None => match LengthPercentage::spec_parse(s, p) {
                Ok((lp, e)) => Ok((Width21::LengthPercentage(lp), e)),
                Err(er) => Err(er),
            },
        }
    }

    /// Consumes a CSS 2.1 width, as [`Width21::spec_parse`].
    pub fn parse(s: &str, pos: usize) -> (r: Result<(Width21, usize), ParseError>)
        requires
            pos <= s@.len(),
        ensures
            res_matches(r, Width21::spec_parse(s@, pos as int)),
            r is Ok ==> r->Ok_0.1 <= s@.len(),
    {
        match peek_kw(s, pos, "auto") {
            Option::Some(e) => Ok((Width21::Auto, e)),
            Option::None => {
                match LengthPercentage::parse(s, pos) {
                    Ok((lp, e)) => Ok((Width21::LengthPercentage(lp), e)),
                    Err(er) => Err(er),
                }
            },
        }
    }
}

impl FlexBasis {
    /// The `content` keyword, else a width.
    pub open spec fn spec_parse(s: Seq<char>, p: int) -> Result<(FlexBasis, int), SpecErr> {
        match spec_kw_token(s, p, "content"@) {
            Option::Some(e) => Ok((FlexBasis::Content, e)),
            Option::None => match Width21::spec_parse(s, p) {
                Ok((w, e)) => Ok((FlexBasis::Width(w), e)),
                Err(er) => Err(er),
            },
        }
    }

    /// Consumes a flex basis, as [`FlexBasis::spec_parse`].
    pub fn parse(s: &str, pos: usize) -> (r: Result<(FlexBasis, usize), ParseError>)
        requires
            pos <= s@.len(),
        ensures
            res_matches(r, FlexBasis::spec_parse(s@, pos as int)),
            r is Ok ==> r->Ok_0.1 <= s@.len(),
    {
        match peek_kw(s, pos, "content") {
            Option::Some(e) => Ok((FlexBasis::Content, e)),
            Option::None => {
                match Width21::parse(s, pos) {
                    Ok((w, e)) => Ok((FlexBasis::Width(w), e)),
                    Err(er) => Err(er),
                }
            },
        }
    }
}

impl MarginWidth {
    /// The `auto` keyword, else a length or percentage.
    pub open spec fn spec_parse(s: Seq<char>, p: int) -> Result<(MarginWidth, int), SpecErr> {
        match spec_kw_token(s, p, "auto"@) {
            Option::Some(e) => Ok((MarginWidth::Auto, e)),
            Option::None => match LengthPercentage::spec_parse(s, p) {
                Ok((lp, e)) => Ok((MarginWidth::LengthPercentage(lp), e)),
                Err(er) => Err(er),
            },
        }
    }

    /// Consumes a margin width, as [`MarginWidth::spec_parse`].
    pub fn parse(s: &str, pos: usize) -> (r: Result<(MarginWidth, usize), ParseError>)
        requires
            pos <= s@.len(),
        ensures
            res_matches(r, MarginWidth::spec_parse(s@, pos as int)),
            r is Ok ==> r->Ok_0.1 <= s@.len(),
    {
        match peek_kw(s, pos, "auto") {
            Option::Some(e) => Ok((MarginWidth::Auto, e)),
            Option::None => {
                match LengthPercentage::parse(s, pos) {
                    Ok((lp, e)) => Ok((MarginWidth::LengthPercentage(lp), e)),
                    Err(er) => Err(er),
                }
            },
        }
    }
}

/// The parenthesized argument of `fit-content`: `(`, a length or
/// percentage, `)`, with anything else inside refused.
pub open spec fn spec_fit_content_arg(s: Seq<char>, p: int) -> Result<
    (LengthPercentage, int),
    SpecErr,
> {
    match spec_expect_char(s, p, '(', "expected parentheses"@) {
        Err(e) => Err(e),
        Ok(q) => match LengthPercentage::spec_parse(s, q) {
            Err(e) => Err(e),
            Ok((lp, e)) => {
                let q2 = spec_skip_ws(s, e);
                if q2 < s.len() && s[q2] == ')' {
                    Ok((lp, q2 + 1))
                } else {
                    Err(SpecErr { pos: q2, msg: "trailing tokens"@ })
                }
            },
        },
    }
}

/// Consumes a `fit-content` argument, as [`spec_fit_content_arg`].
fn parse_fit_content_arg(s: &str, pos: usize) -> (r: Result<(LengthPercentage, usize), ParseError>)
    requires
        pos <= s@.len(),
    ensures
        res_matches(r, spec_fit_content_arg(s@, pos as int)),
        r is Ok ==> r->Ok_0.1 <= s@.len(),
{
    let q = match expect_char(s, pos, '(', "expected parentheses") {
        Ok(q) => q,
        Err(er) => {
            return Err(er);
        },
    };
    let (lp, e) = match LengthPercentage::parse(s, q) {
        Ok(v) => v,
        Err(er) => {
            return Err(er);
        },
    };
    let q2 = skip_ws(s, e);
    let len = s.unicode_len();
    if q2 < len && s.get_char(q2) == ')' {
        Ok((lp, q2 + 1))
    } else {
        Err(crate::diag::error_at(q2, "trailing tokens"))
    }
}

impl WidthHeight {
    /// The candidates a sizing dispatch reports on failure.
    pub open spec fn tried() -> Seq<Seq<char>> {
        spec_insert(
            spec_insert(
                spec_insert(
                    spec_insert(
                        spec_insert(
                            spec_insert(Seq::<Seq<char>>::empty(), quoted("auto"@)),
                            quoted("min-content"@),
                        ),
                        quoted("max-content"@),
                    ),
                    quoted("fit-content"@),
                ),
                "length"@,
            ),
            "percentage"@,
        )
    }

    /// A sizing keyword, `fit-content(...)`, else a length or percentage
    /// where no keyword was present.
    pub open spec fn spec_parse(s: Seq<char>, p: int) -> Result<(WidthHeight, int), SpecErr> {
        match spec_hyphen_word(s, p) {
            Err(e) => Err(e),
            Ok(hw) => {
                if hw.word == Option::Some("auto"@) {
                    Ok((WidthHeight::Auto, hw.end))
                } else if hw.word == Option::Some("min-content"@) {
                    Ok((WidthHeight::MinContent, hw.end))
                } else if hw.word == Option::Some("max-content"@) {
                    Ok((WidthHeight::MaxContent, hw.end))
                } else if hw.word == Option::Some("fit-content"@) {
                    match spec_fit_content_arg(s, hw.end) {
                        Ok((lp, e)) => Ok((WidthHeight::FitContent(lp), e)),
                        Err(er) => Err(er),
                    }
                } else if hw.word is None {
                    match LengthPercentage::spec_parse(s, hw.end) {
                        Ok((lp, e)) => Ok((WidthHeight::LengthPercentage(lp), e)),
                        Err(er) => Err(er),
                    }
                } else {
                    Err(
                        SpecErr {
                            pos: hw.at,
                            msg: "expected one of "@ + spec_join(WidthHeight::tried()),
                        },
                    )
                }
            },
        }
    }

    /// Consumes a width or height value, as [`WidthHeight::spec_parse`].
    pub fn parse(s: &str, pos: usize) -> (r: Result<(WidthHeight, usize), ParseError>)
        requires
            pos <= s@.len(),
        ensures
            res_matches(r, WidthHeight::spec_parse(s@, pos as int)),
            r is Ok ==> r->Ok_0.1 <= s@.len(),
    {
        broadcast use crate::diag::lemma_insert_len;

        let (mut word, e) = match HyphenWord::parse(s, pos) {
            Ok(v) => v,
            Err(er) => {
                return Err(er);
            },
        };
        if word.try_match("auto") {
            Ok((WidthHeight::Auto, e))
        } else if word.try_match("min-content") {
            Ok((WidthHeight::MinContent, e))
        } else if word.try_match("max-content") {
            Ok((WidthHeight::MaxContent, e))
        } else if word.try_match("fit-content") {
            match parse_fit_content_arg(s, e) {
                Ok((lp, e2)) => Ok((WidthHeight::FitContent(lp), e2)),
                Err(er) => Err(er),
            }
        } else if word.word.is_none() {
            match LengthPercentage::parse(s, e) {
                Ok((lp, e2)) => Ok((WidthHeight::LengthPercentage(lp), e2)),
                Err(er) => Err(er),
            }
        } else {
            word.add_expected("length");
            word.add_expected("percentage");
            Err(word.error())
        }
    }
}

impl MaxWidthHeight {
    /// The candidates a max-sizing dispatch reports on failure.
    pub open spec fn tried() -> Seq<Seq<char>> {
        spec_insert(
            spec_insert(
                spec_insert(
                    spec_insert(
                        spec_insert(
                            spec_insert(Seq::<Seq<char>>::empty(), "length"@),
                            "percentage"@,
                        ),
                        quoted("none"@),
                    ),
                    quoted("min-content"@),
                ),
                quoted("max-content"@),
            ),
            quoted("fit-content"@),
        )
    }

    /// A sizing keyword, `fit-content(...)`, else a length or percentage
    /// after the word that was read.
    pub open spec fn spec_parse(s: Seq<char>, p: int) -> Result<(MaxWidthHeight, int), SpecErr> {
        match spec_hyphen_word(s, p) {
            Err(e) => Err(e),
            Ok(hw) => {
                if hw.word == Option::Some("none"@) {
                    Ok((MaxWidthHeight::NoneValue, hw.end))
                } else if hw.word == Option::Some("min-content"@) {
                    Ok((MaxWidthHeight::MinContent, hw.end))
                } else if hw.word == Option::Some("max-content"@) {
                    Ok((MaxWidthHeight::MaxContent, hw.end))
                } else if hw.word == Option::Some("fit-content"@) {
                    match spec_fit_content_arg(s, hw.end) {
                        Ok((lp, e)) => Ok((MaxWidthHeight::FitContent(lp), e)),
                        Err(er) => Err(er),
                    }
                } else if hw.word is None {
                    match LengthPercentage::spec_parse(s, hw.end) {
                        Ok((lp, e)) => Ok((MaxWidthHeight::LengthPercentage(lp), e)),
                        Err(_) => Err(
                            SpecErr {
                                pos: hw.at,
                                msg: "expected one of "@ + spec_join(MaxWidthHeight::tried()),
                            },
                        ),
                    }
                } else {
                    Err(
                        SpecErr {
                            pos: hw.at,
                            msg: "expected one of "@ + spec_join(MaxWidthHeight::tried()),
                        },
                    )
                }
            },
        }
    }

    /// Consumes a max-width or max-height value, as
    /// [`MaxWidthHeight::spec_parse`].
    pub fn parse(s: &str, pos: usize) -> (r: Result<(MaxWidthHeight, usize), ParseError>)
        requires
            pos <= s@.len(),
        ensures
            res_matches(r, MaxWidthHeight::spec_parse(s@, pos as int)),
            r is Ok ==> r->Ok_0.1 <= s@.len(),
    {
        broadcast use crate::diag::lemma_insert_len;

        let (mut word, e) = match HyphenWord::parse(s, pos) {
            Ok(v) => v,
            Err(er) => {
                return Err(er);
            },
        };
        word.add_expected("length");
        word.add_expected("percentage");
        if word.try_match("none") {
            Ok((MaxWidthHeight::NoneValue, e))
        } else if word.try_match("min-content") {
            Ok((MaxWidthHeight::MinContent, e))
        } else if word.try_match("max-content") {
            Ok((MaxWidthHeight::MaxContent, e))
        } else if word.try_match("fit-content") {
            match parse_fit_content_arg(s, e) {
                Ok((lp, e2)) => Ok((MaxWidthHeight::FitContent(lp), e2)),
                Err(er) => Err(er),
            }
        } else if word.word.is_none() {
            match LengthPercentage::parse(s, e) {
                Ok((lp, e2)) => Ok((MaxWidthHeight::LengthPercentage(lp), e2)),
                Err(_) => Err(word.error()),
            }
        } else {
            Err(word.error())
        }
    }
}

impl ObjectFit {
    /// The candidates an object-fit dispatch reports on failure.
    pub open spec fn tried() -> Seq<Seq<char>> {
        spec_insert(
            spec_insert(
                spec_insert(
                    spec_insert(
                        spec_insert(Seq::<Seq<char>>::empty(), quoted("fill"@)),
                        quoted("none"@),
                    ),
                    quoted("contain"@),
                ),
                quoted("cover"@),
            ),
            quoted("scale-down"@),
        )
    }

    /// Whether another word is ahead, carrying a modifier.
    pub open spec fn more_ahead(s: Seq<char>, p: int) -> bool {
        let q = spec_skip_ws(s, p);
        q < s.len() && is_ident_start(s[q])
    }

    /// A `scale-down` modifier after `contain` or `cover`.
    pub open spec fn spec_modifier(s: Seq<char>, p: int, scaled: ObjectFit, plain: ObjectFit)
        -> Result<(ObjectFit, int), SpecErr> {
        if !ObjectFit::more_ahead(s, p) {
            Ok((plain, p))
        } else {
            match spec_hyphen_word(s, p) {
                Err(e) => Err(e),
                Ok(hw) => {
                    if hw.word == Option::Some("scale-down"@) {
                        Ok((scaled, hw.end))
                    } else {
                        Err(
                            SpecErr {
                                pos: hw.at,
                                msg: "expected one of "@ + spec_join(
                                    spec_insert(
                                        Seq::<Seq<char>>::empty(),
                                        quoted("scale-down"@),
                                    ),
                                ),
                            },
                        )
                    }
                },
            }
        }
    }

    /// The object-fit keywords, with the optional `scale-down` modifier on
    /// `contain` and `cover`, and `scale-down` alone defaulting to
    /// `contain`.
    pub open spec fn spec_parse(s: Seq<char>, p: int) -> Result<(ObjectFit, int), SpecErr> {
        match spec_hyphen_word(s, p) {
            Err(e) => Err(e),
            Ok(hw) => {
                if hw.word == Option::Some("fill"@) {
                    Ok((ObjectFit::Fill, hw.end))
                } else if hw.word == Option::Some("none"@) {
                    Ok((ObjectFit::NoneValue, hw.end))
                } else if hw.word == Option::Some("contain"@) {
                    ObjectFit::spec_modifier(
                        s,
                        hw.end,
                        ObjectFit::Contain { scale_down: true },
                        ObjectFit::Contain { scale_down: false },
                    )
                } else if hw.word == Option::Some("cover"@) {
                    ObjectFit::spec_modifier(
                        s,
                        hw.end,
                        ObjectFit::Cover { scale_down: true },
                        ObjectFit::Cover { scale_down: false },
                    )
                } else if hw.word == Option::Some("scale-down"@) {
                    if !ObjectFit::more_ahead(s, hw.end) {
                        Ok((ObjectFit::Contain { scale_down: true }, hw.end))
                    } else {
                        match spec_hyphen_word(s, hw.end) {
                            Err(e) => Err(e),
                            Ok(hw2) => {
                                if hw2.word == Option::Some("cover"@) {
                                    Ok((ObjectFit::Cover { scale_down: true }, hw2.end))
                                } else if hw2.word == Option::Some("contain"@) {
                                    Ok((ObjectFit::Contain { scale_down: true }, hw2.end))
                                } else {
                                    Err(
                                        SpecErr {
                                            pos: hw2.at,
                                            msg: "expected one of "@ + spec_join(
                                                spec_insert(
                                                    spec_insert(
                                                        Seq::<Seq<char>>::empty(),
                                                        quoted("cover"@),
                                                    ),
                                                    quoted("contain"@),
                                                ),
                                            ),
                                        },
                                    )
                                }
                            },
                        }
                    }
                } else {
                    Err(
                        SpecErr {
                            pos: hw.at,
                            msg: "expected one of "@ + spec_join(ObjectFit::tried()),
                        },
                    )
                }
            },
        }
    }

    /// The `scale-down` modifier, as [`ObjectFit::spec_modifier`].
    fn parse_modifier(s: &str, pos: usize, scaled: ObjectFit, plain: ObjectFit) -> (r: Result<
        (ObjectFit, usize),
        ParseError,
    >)
        requires
            pos <= s@.len(),
        ensures
            res_matches(r, ObjectFit::spec_modifier(s@, pos as int, scaled, plain)),
            r is Ok ==> r->Ok_0.1 <= s@.len(),
    {
        broadcast use crate::diag::lemma_insert_len;

        if !HyphenWord::peek(s, pos) {
            Ok((plain, pos))
        } else {
            let (mut word, e) = match HyphenWord::parse(s, pos) {
                Ok(v) => v,
                Err(er) => {
                    return Err(er);
                },
            };
            if word.try_match("scale-down") {
                Ok((scaled, e))
            } else {
                Err(word.error())
            }
        }
    }

    /// Consumes an object-fit value, as [`ObjectFit::spec_parse`].
    pub fn parse(s: &str, pos: usize) -> (r: Result<(ObjectFit, usize), ParseError>)
        requires
            pos <= s@.len(),
        ensures
            res_matches(r, ObjectFit::spec_parse(s@, pos as int)),
            r is Ok ==> r->Ok_0.1 <= s@.len(),
    {
        broadcast use crate::diag::lemma_insert_len;

        let (mut word, e) = match HyphenWord::parse(s, pos) {
            Ok(v) => v,
            Err(er) => {
                return Err(er);
            },
        };
        if word.try_match("fill") {
            Ok((ObjectFit::Fill, e))
        } else if word.try_match("none") {
            Ok((ObjectFit::NoneValue, e))
        } else if word.try_match("contain") {
            ObjectFit::parse_modifier(
                s,
                e,
                ObjectFit::Contain { scale_down: true },
                ObjectFit::Contain { scale_down: false },
            )
        } else if word.try_match("cover") {
            ObjectFit::parse_modifier(
                s,
                e,
                ObjectFit::Cover { scale_down: true },
                ObjectFit::Cover { scale_down: false },
            )
        } else if word.try_match("scale-down") {
            if !HyphenWord::peek(s, e) {
                Ok((ObjectFit::Contain { scale_down: true }, e))
            } else {
                let (mut word2, e2) = match HyphenWord::parse(s, e) {
                    Ok(v) => v,
                    Err(er) => {
                        return Err(er);
                    },
                };
                if word2.try_match("cover") {
                    Ok((ObjectFit::Cover { scale_down: true }, e2))
                } else if word2.try_match("contain") {
                    Ok((ObjectFit::Contain { scale_down: true }, e2))
                } else {
                    Err(word2.error())
                }
            }
        } else {
            Err(word.error())
        }
    }
}


impl LineWidth {
    /// Parses a whole string as one line width.
    pub fn parse_str(s: &str) -> (r: Result<LineWidth, ParseError>)
        ensures
            res_str_matches(r, crate::parse::spec_complete(s@, LineWidth::spec_parse(s@, 0))),
    {
        crate::parse::complete_parse(s, LineWidth::parse(s, 0))
    }
}

} // verus!
