//! Parsers for colors.

use vstd::prelude::*;
use vstd::string::StrSliceExecFns;
use crate::color::{named_of, from_named, spec_parse_hex, parse_hex, Color, DynamicColor};
use crate::diag::{quoted, spec_insert, spec_join, ParseError, SpecErr};
use crate::parse::{
    res_matches, spec_expect_char, spec_find_char, spec_hyphen_word, spec_number, spec_block_end,
    expect_char, find_char, lemma_find_char, block_end, HyphenWord, Number,
};
use crate::text::{copy_range, is_ident_char, skip_ws, spec_ident_end, spec_skip_ws, EscapeBlock};

verus! {

/// The message when the characters after `#` do not form a hex color.
pub open spec fn hex_msg() -> Seq<char> {
    "expected 3, 6 or 8 hex digits"@
}

/// The color behind a `#`: a bare run of identifier characters, or a string
/// literal (the quoted escape), whose text must be 3, 6 or 8 hex digits.
pub open spec fn spec_hex_color(s: Seq<char>, h: int) -> Result<(Color, int), SpecErr> {
    if h < s.len() && s[h] == '"' {
        let e = spec_find_char(s, h + 1, '"');
        if e >= s.len() {
            Err(SpecErr { pos: h, msg: "unterminated string"@ })
        } else {
            match spec_parse_hex(s.subrange(h + 1, e)) {
                Option::Some(c) => Ok((c, e + 1)),
                Option::None => Err(SpecErr { pos: h, msg: hex_msg() }),
            }
        }
    } else {
        let e = spec_ident_end(s, h);
        match spec_parse_hex(s.subrange(h, e)) {
            Option::Some(c) => Ok((c, e)),
            Option::None => Err(SpecErr { pos: h, msg: hex_msg() }),
        }
    }
}

/// An `hsl(...)` or `hsla(...)` component list after the function word:
/// hue in `[0, 360)`, saturation and lightness as percentages in
/// `[0, 100]`, and for the alpha form an alpha in `[0, 1]`, comma-separated
/// and closed by `)`.
pub open spec fn spec_hsl_color(s: Seq<char>, p: int, with_alpha: bool) -> Result<
    (Color, int),
    SpecErr,
> {
    match spec_expect_char(s, p, '(', "expected parentheses"@) {
        Err(e) => Err(e),
        Ok(q0) => match spec_number(s, q0) {
            Err(e) => Err(e),
            Ok(n1) => {
                if n1.suffix.len() != 0 {
                    Err(SpecErr { pos: n1.at, msg: "unexpected characters after number"@ })
                } else if !n1.value.val_lt_int(360) {
                    Err(
                        SpecErr {
                            pos: n1.at,
                            msg: "hue should be in the range `0 <= hue < 360`"@,
                        },
                    )
                } else {
                    match spec_expect_char(s, n1.end, ',', "expected `,`"@) {
                        Err(e) => Err(e),
                        Ok(q1) => match spec_number(s, q1) {
                            Err(e) => Err(e),
                            Ok(n2) => {
                                if n2.suffix != "%"@ {
                                    Err(
                                        SpecErr {
                                            pos: n2.at,
                                            msg:
                                                "saturation should be a percentage (followed by `%`)"@,
                                        },
                                    )
                                } else if !n2.value.val_le_int(100) {
                                    Err(
                                        SpecErr {
                                            pos: n2.at,
                                            msg: "saturation should be in the range `0 <= sat < 100`"@,
                                        },
                                    )
                                } else {
                                    match spec_expect_char(s, n2.end, ',', "expected `,`"@) {
                                        Err(e) => Err(e),
                                        Ok(q2) => match spec_number(s, q2) {
                                            Err(e) => Err(e),
                                            Ok(n3) => {
                                                if n3.suffix != "%"@ {
                                                    Err(
                                                        SpecErr {
                                                            pos: n3.at,
                                                            msg:
                                                                "saturation should be a percentage (followed by `%`)"@,
                                                        },
                                                    )
                                                } else if !n3.value.val_le_int(100) {
                                                    Err(
                                                        SpecErr {
                                                            pos: n3.at,
                                                            msg:
                                                                "lightness should be in the range `0 <= light < 100`"@,
                                                        },
                                                    )
                                                } else {
                                                    spec_hsl_tail(
                                                        s,
                                                        n3.end,
                                                        n1.value,
                                                        n2.value,
                                                        n3.value,
                                                        with_alpha,
                                                    )
                                                }
                                            },
                                        },
                                    }
                                }
                            },
                        },
                    }
                }
            },
        },
    }
}

/// The close of an `hsl` form, or the alpha component and close of an
/// `hsla` form.
pub open spec fn spec_hsl_tail(
    s: Seq<char>,
    p: int,
    h: crate::num::Num,
    sat: crate::num::Num,
    light: crate::num::Num,
    with_alpha: bool,
) -> Result<(Color, int), SpecErr> {
    if !with_alpha {
        let q = spec_skip_ws(s, p);
        if q < s.len() && s[q] == ')' {
            Ok((Color::HSL(h, sat, light), q + 1))
        } else {
            Err(SpecErr { pos: q, msg: "trailing characters"@ })
        }
    } else {
        match spec_expect_char(s, p, ',', "expected `,`"@) {
            Err(e) => Err(e),
            Ok(q0) => match spec_number(s, q0) {
                Err(e) => Err(e),
                Ok(n4) => {
                    if n4.suffix.len() != 0 {
                        Err(SpecErr { pos: n4.at, msg: "unexpected characters after number"@ })
                    } else if !n4.value.val_le_int(1) {
                        Err(
                            SpecErr {
                                pos: n4.at,
                                msg: "alpha should be in the range `0 <= alpha < 1`"@,
                            },
                        )
                    } else {
                        let q = spec_skip_ws(s, n4.end);
                        if q < s.len() && s[q] == ')' {
                            Ok((Color::HSLA(h, sat, light, n4.value), q + 1))
                        } else {
                            Err(SpecErr { pos: q, msg: "unexpected trailing characters"@ })
                        }
                    }
                },
            },
        }
    }
}

impl Color {
    /// The candidates a color dispatch reports on failure.
    pub open spec fn tried() -> Seq<Seq<char>> {
        spec_insert(
            spec_insert(
                spec_insert(Seq::<Seq<char>>::empty(), quoted("hsl"@)),
                quoted("hsla"@),
            ),
            "named color"@,
        )
    }

    /// A color: a `#` hex form, an `hsl(...)`/`hsla(...)` form, or a named
    /// color looked up in the table.
    pub open spec fn spec_parse(s: Seq<char>, p: int) -> Result<(Color, int), SpecErr> {
        let q = spec_skip_ws(s, p);
        if q < s.len() && s[q] == '#' {
            spec_hex_color(s, q + 1)
        } else {
            match spec_hyphen_word(s, p) {
                Err(e) => Err(e),
                Ok(hw) => {
                    if hw.word == Option::Some("hsl"@) {
                        spec_hsl_color(s, hw.end, false)
                    } else if hw.word == Option::Some("hsla"@) {
                        spec_hsl_color(s, hw.end, true)
                    } else {
                        let named = match hw.word {
                            Option::Some(w) => named_of(w),
                            Option::None => Option::None,
                        };
                        match named {
                            Option::Some(c) => Ok((c, hw.end)),
                            Option::None => Err(
                                SpecErr {
                                    pos: hw.at,
                                    msg: "expected one of "@ + spec_join(Color::tried()),
                                },
                            ),
                        }
                    }
                },
            }
        }
    }

    /// Consumes a color, as [`Color::spec_parse`].
    pub fn parse(s: &str, pos: usize) -> (r: Result<(Color, usize), ParseError>)
        requires
            pos <= s@.len(),
        ensures
            res_matches(r, Color::spec_parse(s@, pos as int)),
            r is Ok ==> r->Ok_0.1 <= s@.len(),
    {
        broadcast use crate::diag::lemma_insert_len;

        let len = s.unicode_len();
        let q = skip_ws(s, pos);
        if q < len && s.get_char(q) == '#' {
            return parse_hex_color(s, q + 1);
        }
        let (mut word, e) = match HyphenWord::parse(s, pos) {
            Ok(v) => v,
            Err(er) => {
                return Err(er);
            },
        };
        if word.try_match("hsl") {
            parse_hsl_color(s, e, false)
        } else if word.try_match("hsla") {
            parse_hsl_color(s, e, true)
        } else {
            let named = match word.word() {
                Option::Some(w) => from_named(w),
                Option::None => Option::None,
            };
            match named {
                Option::Some(c) => Ok((c, e)),
                Option::None => {
                    word.add_expected("named color");
                    Err(word.error())
                },
            }
        }
    }

    /// Parses a whole string as one color.
    pub fn parse_str(s: &str) -> (r: Result<Color, ParseError>)
        ensures
            crate::parse::res_str_matches(
                r,
                crate::parse::spec_complete(s@, Color::spec_parse(s@, 0)),
            ),
    {
        crate::parse::complete_parse(s, Color::parse(s, 0))
    }
}

/// Consumes the hex form after `#`, as [`spec_hex_color`].
fn parse_hex_color(s: &str, h: usize) -> (r: Result<(Color, usize), ParseError>)
    requires
        h <= s@.len(),
    ensures
        res_matches(r, spec_hex_color(s@, h as int)),
        r is Ok ==> r->Ok_0.1 <= s@.len(),
{
    let len = s.unicode_len();
    if h < len && s.get_char(h) == '"' {
        let e = find_char(s, h + 1, '"');
        proof {
            lemma_find_char(s@, h as int + 1, '"');
        }
        if e >= len {
            Err(crate::diag::error_at(h, "unterminated string"))
        } else {
            let content = copy_range(s, h + 1, e);
            match parse_hex(content.as_str()) {
                Option::Some(c) => Ok((c, e + 1)),
                Option::None => Err(crate::diag::error_at(h, "expected 3, 6 or 8 hex digits")),
            }
        }
    } else {
        let e = crate::text::ident_end(s, h);
        let content = copy_range(s, h, e);
        match parse_hex(content.as_str()) {
            Option::Some(c) => Ok((c, e)),
            Option::None => Err(crate::diag::error_at(h, "expected 3, 6 or 8 hex digits")),
        }
    }
}

/// Consumes an `hsl(...)`/`hsla(...)` component list, as
/// [`spec_hsl_color`].
fn parse_hsl_color(s: &str, p: usize, with_alpha: bool) -> (r: Result<(Color, usize), ParseError>)
    requires
        p <= s@.len(),
    ensures
        res_matches(r, spec_hsl_color(s@, p as int, with_alpha)),
        r is Ok ==> r->Ok_0.1 <= s@.len(),
{
    let len = s.unicode_len();
    let q0 = match expect_char(s, p, '(', "expected parentheses") {
        Ok(q) => q,
        Err(er) => {
            return Err(er);
        },
    };
    let (n1, e1) = match Number::parse(s, q0) {
        Ok(v) => v,
        Err(er) => {
            return Err(er);
        },
    };
    if !n1.suffix.as_str().is_empty() {
        return Err(crate::diag::error_at(n1.pos, "unexpected characters after number"));
    }
    if !n1.value.lt_int(360) {
        return Err(crate::diag::error_at(n1.pos, "hue should be in the range `0 <= hue < 360`"));
    }
    let q1 = match expect_char(s, e1, ',', "expected `,`") {
        Ok(q) => q,
        Err(er) => {
            return Err(er);
        },
    };
    let (n2, e2) = match Number::parse(s, q1) {
        Ok(v) => v,
        Err(er) => {
            return Err(er);
        },
    };
    if !crate::text::str_eq(n2.suffix.as_str(), "%") {
        return Err(
            crate::diag::error_at(n2.pos, "saturation should be a percentage (followed by `%`)"),
        );
    }
    if !n2.value.le_int(100) {
        return Err(
            crate::diag::error_at(n2.pos, "saturation should be in the range `0 <= sat < 100`"),
        );
    }
    let q2 = match expect_char(s, e2, ',', "expected `,`") {
        Ok(q) => q,
        Err(er) => {
            return Err(er);
        },
    };
    let (n3, e3) = match Number::parse(s, q2) {
        Ok(v) => v,
        Err(er) => {
            return Err(er);
        },
    };
    if !crate::text::str_eq(n3.suffix.as_str(), "%") {
        return Err(
            crate::diag::error_at(n3.pos, "saturation should be a percentage (followed by `%`)"),
        );
    }
    if !n3.value.le_int(100) {
        return Err(
            crate::diag::error_at(n3.pos, "lightness should be in the range `0 <= light < 100`"),
        );
    }
    if !with_alpha {
        let q = skip_ws(s, e3);
        if q < len && s.get_char(q) == ')' {
            Ok((Color::HSL(n1.value, n2.value, n3.value), q + 1))
        } else {
            Err(crate::diag::error_at(q, "trailing characters"))
        }
    } else {
        let q3 = match expect_char(s, e3, ',', "expected `,`") {
            Ok(q) => q,
            Err(er) => {
                return Err(er);
            },
        };
        let (n4, e4) = match Number::parse(s, q3) {
            Ok(v) => v,
            Err(er) => {
                return Err(er);
            },
        };
        if !n4.suffix.as_str().is_empty() {
            return Err(crate::diag::error_at(n4.pos, "unexpected characters after number"));
        }
        if !n4.value.le_int(1) {
            return Err(
                crate::diag::error_at(n4.pos, "alpha should be in the range `0 <= alpha < 1`"),
            );
        }
        let q = skip_ws(s, e4);
        if q < len && s.get_char(q) == ')' {
            Ok((Color::HSLA(n1.value, n2.value, n3.value, n4.value), q + 1))
        } else {
            Err(crate::diag::error_at(q, "unexpected trailing characters"))
        }
    }
}

/// What a dynamic-color parse yields at the spec level: a literal color, or
/// the text of an escape block.
pub ghost enum SpecDC {
    Lit(Color),
    Dyn(Seq<char>),
}

/// Whether a dynamic color is the one the spec names.
pub open spec fn dc_val_matches(c: DynamicColor, d: SpecDC) -> bool {
    match c {
        DynamicColor::Literal(x) => d is Lit && d->Lit_0 == x,
        DynamicColor::Dynamic(b) => d is Dyn && d->Dyn_0 == b.tokens@,
    }
}

/// Whether an executable dynamic-color result is the one the spec names.
pub open spec fn dc_matches(
    r: Result<(DynamicColor, usize), ParseError>,
    sr: Result<(SpecDC, int), SpecErr>,
) -> bool {
    match r {
        Ok((v, e)) => sr is Ok && dc_val_matches(v, sr->Ok_0.0) && sr->Ok_0.1 == e as int,
        Err(er) => sr is Err && crate::diag::err_matches(er, sr->Err_0),
    }
}

/// A brace-delimited escape block ahead: its raw text and the position after
/// the closing brace.
pub open spec fn spec_escape(s: Seq<char>, p: int) -> Option<Result<(Seq<char>, int), SpecErr>> {
    let q = spec_skip_ws(s, p);
    if q < s.len() && s[q] == '{' {
        Option::Some(
            match spec_block_end(s, q + 1, 1) {
                Option::Some(e) => Ok((s.subrange(q + 1, e - 1), e)),
                Option::None => Err(SpecErr { pos: q, msg: "expected `}`"@ }),
            },
        )
    } else {
        Option::None
    }
}

/// Captures an escape block if one is ahead, as [`spec_escape`].
pub fn parse_escape(s: &str, pos: usize) -> (r: Option<Result<(EscapeBlock, usize), ParseError>>)
    requires
        pos <= s@.len(),
    ensures
        match r {
            Option::Some(inner) => spec_escape(s@, pos as int) is Some && (match inner {
                Ok((b, e)) => spec_escape(s@, pos as int)->0 is Ok && b.tokens@ == spec_escape(
                    s@,
                    pos as int,
                )->0->Ok_0.0 && e as int == spec_escape(s@, pos as int)->0->Ok_0.1 && e <= s@.len(),
                Err(er) => spec_escape(s@, pos as int)->0 is Err && crate::diag::err_matches(
                    er,
                    spec_escape(s@, pos as int)->0->Err_0,
                ),
            }),
            Option::None => spec_escape(s@, pos as int) is None,
        },
{
    let len = s.unicode_len();
    let q = skip_ws(s, pos);
    if q < len && s.get_char(q) == '{' {
        match block_end(s, q + 1) {
            Option::Some(e) => {
                let tokens = copy_range(s, q + 1, e - 1);
                Option::Some(Ok((EscapeBlock { tokens }, e)))
            },
            Option::None => Option::Some(Err(crate::diag::error_at(q, "expected `}`"))),
        }
    } else {
        Option::None
    }
}

impl DynamicColor {
    /// An escape block, else a literal color.
    pub open spec fn spec_parse(s: Seq<char>, p: int) -> Result<(SpecDC, int), SpecErr> {
        match spec_escape(s, p) {
            Option::Some(inner) => match inner {
                Ok((tokens, e)) => Ok((SpecDC::Dyn(tokens), e)),
                Err(er) => Err(er),
            },
            Option::None => match Color::spec_parse(s, p) {
                Ok((c, e)) => Ok((SpecDC::Lit(c), e)),
                Err(er) => Err(er),
            },
        }
    }

    /// Consumes a dynamic color, as [`DynamicColor::spec_parse`].
    pub fn parse(s: &str, pos: usize) -> (r: Result<(DynamicColor, usize), ParseError>)
        requires
            pos <= s@.len(),
        ensures
            dc_matches(r, DynamicColor::spec_parse(s@, pos as int)),
            r is Ok ==> r->Ok_0.1 <= s@.len(),
    {
        match parse_escape(s, pos) {
            Option::Some(inner) => match inner {
                Ok((b, e)) => Ok((DynamicColor::Dynamic(b), e)),
                Err(er) => Err(er),
            },
            Option::None => {
                match Color::parse(s, pos) {
                    Ok((c, e)) => Ok((DynamicColor::Literal(c), e)),
                    Err(er) => Err(er),
                }
            },
        }
    }
}

} // verus!
