//! Parsers for the shorthand quads, the `border` shorthand, and the
//! property dispatcher.

use vstd::prelude::*;
use vstd::string::StrSliceExecFns;
use crate::color::{Color, DynamicColor};
use crate::diag::{quoted, spec_insert, spec_join, ParseError, SpecErr};
use crate::keywords::{
    AlignItems, BoxSizing, Cursor, Display, FlexDirection, FlexWrap, FontStyle, JustifyContent,
    LineStyle, ListStyleType, Resize,
};
use crate::parse::{
    expect_char, find_char, finished_rule, lemma_find_char, res_matches, spec_expect_char,
    spec_find_char, spec_finished, spec_hyphen_word, spec_number, HyphenWord, Number,
};
use crate::parse_color::{dc_val_matches, SpecDC};
use crate::property::Style;
use crate::quads::{BorderColor, BorderStyle, BorderWidth, Margin, Padding};
use crate::text::{copy_range, skip_ws, spec_skip_ws};
use crate::values::{
    Border, FlexBasis, FontSize, FontWeight, LengthPercentage, LineWidth, MarginWidth,
    MaxWidthHeight, ObjectFit, WidthHeight,
};

verus! {

impl BorderColor {
    /// One to four values, arity decided by where the rule finishes; a
    /// fifth value is refused as trailing.
    pub open spec fn spec_parse(s: Seq<char>, p: int) -> Result<(BorderColor, int), SpecErr> {
        match Color::spec_parse(s, p) {
            Err(e) => Err(e),
            Ok((a, p1)) => if spec_finished(s, p1) {
                Ok((BorderColor::All(a), p1))
            } else {
                match Color::spec_parse(s, p1) {
                    Err(e) => Err(e),
                    Ok((b, p2)) => if spec_finished(s, p2) {
                        Ok((BorderColor::VerticalHorizontal(a, b), p2))
                    } else {
                        match Color::spec_parse(s, p2) {
                            Err(e) => Err(e),
                            Ok((c, p3)) => if spec_finished(s, p3) {
                                Ok((BorderColor::TopHorizontalBottom(a, b, c), p3))
                            } else {
                                match Color::spec_parse(s, p3) {
                                    Err(e) => Err(e),
                                    Ok((d, p4)) => if spec_finished(s, p4) {
                                        Ok((BorderColor::TopRightBottomLeft(a, b, c, d), p4))
                                    } else {
                                        Err(
                                            SpecErr {
                                                pos: spec_skip_ws(s, p4),
                                                msg: "trailing characters"@,
                                            },
                                        )
                                    },
                                }
                            },
                        }
                    },
                }
            },
        }
    }

    /// Consumes the shorthand quad, as [`BorderColor::spec_parse`].
    pub fn parse(s: &str, pos: usize) -> (r: Result<(BorderColor, usize), ParseError>)
        requires
            pos <= s@.len(),
        ensures
            res_matches(r, BorderColor::spec_parse(s@, pos as int)),
            r is Ok ==> r->Ok_0.1 <= s@.len(),
    {
        let (a, p1) = match Color::parse(s, pos) {
            Ok(v) => v,
            Err(er) => {
                return Err(er);
            },
        };
        if finished_rule(s, p1) {
            return Ok((BorderColor::All(a), p1));
        }
        let (b, p2) = match Color::parse(s, p1) {
            Ok(v) => v,
            Err(er) => {
                return Err(er);
            },
        };
        if finished_rule(s, p2) {
            return Ok((BorderColor::VerticalHorizontal(a, b), p2));
        }
        let (c, p3) = match Color::parse(s, p2) {
            Ok(v) => v,
            Err(er) => {
                return Err(er);
            },
        };
        if finished_rule(s, p3) {
            return Ok((BorderColor::TopHorizontalBottom(a, b, c), p3));
        }
        let (d, p4) = match Color::parse(s, p3) {
            Ok(v) => v,
            Err(er) => {
                return Err(er);
            },
        };
        if finished_rule(s, p4) {
            Ok((BorderColor::TopRightBottomLeft(a, b, c, d), p4))
        } else {
            Err(crate::diag::error_at(skip_ws(s, p4), "trailing characters"))
        }
    }

    /// Parses a whole string as one quad.
    pub fn parse_str(s: &str) -> (r: Result<BorderColor, ParseError>)
        ensures
            crate::parse::res_str_matches(
                r,
                crate::parse::spec_complete(s@, BorderColor::spec_parse(s@, 0)),
            ),
    {
        crate::parse::complete_parse(s, BorderColor::parse(s, 0))
    }
}

impl BorderStyle {
    /// One to four values, arity decided by where the rule finishes; a
    /// fifth value is refused as trailing.
    pub open spec fn spec_parse(s: Seq<char>, p: int) -> Result<(BorderStyle, int), SpecErr> {
        match LineStyle::spec_parse(s, p) {
            Err(e) => Err(e),
            Ok((a, p1)) => if spec_finished(s, p1) {
                Ok((BorderStyle::All(a), p1))
            } else {
                match LineStyle::spec_parse(s, p1) {
                    Err(e) => Err(e),
                    Ok((b, p2)) => if spec_finished(s, p2) {
                        Ok((BorderStyle::VerticalHorizontal(a, b), p2))
                    } else {
                        match LineStyle::spec_parse(s, p2) {
                            Err(e) => Err(e),
                            Ok((c, p3)) => if spec_finished(s, p3) {
                                Ok((BorderStyle::TopHorizontalBottom(a, b, c), p3))
                            } else {
                                match LineStyle::spec_parse(s, p3) {
                                    Err(e) => Err(e),
                                    Ok((d, p4)) => if spec_finished(s, p4) {
                                        Ok((BorderStyle::TopRightBottomLeft(a, b, c, d), p4))
                                    } else {
                                        Err(
                                            SpecErr {
                                                pos: spec_skip_ws(s, p4),
                                                msg: "trailing characters"@,
                                            },
                                        )
                                    },
                                }
                            },
                        }
                    },
                }
            },
        }
    }

    /// Consumes the shorthand quad, as [`BorderStyle::spec_parse`].
    pub fn parse(s: &str, pos: usize) -> (r: Result<(BorderStyle, usize), ParseError>)
        requires
            pos <= s@.len(),
        ensures
            res_matches(r, BorderStyle::spec_parse(s@, pos as int)),
            r is Ok ==> r->Ok_0.1 <= s@.len(),
    {
        let (a, p1) = match LineStyle::parse(s, pos) {
            Ok(v) => v,
            Err(er) => {
                return Err(er);
            },
        };
        if finished_rule(s, p1) {
            return Ok((BorderStyle::All(a), p1));
        }
        let (b, p2) = match LineStyle::parse(s, p1) {
            Ok(v) => v,
            Err(er) => {
                return Err(er);
            },
        };
        if finished_rule(s, p2) {
            return Ok((BorderStyle::VerticalHorizontal(a, b), p2));
        }
        let (c, p3) = match LineStyle::parse(s, p2) {
            Ok(v) => v,
            Err(er) => {
                return Err(er);
            },
        };
        if finished_rule(s, p3) {
            return Ok((BorderStyle::TopHorizontalBottom(a, b, c), p3));
        }
        let (d, p4) = match LineStyle::parse(s, p3) {
            Ok(v) => v,
            Err(er) => {
                return Err(er);
            },
        };
        if finished_rule(s, p4) {
            Ok((BorderStyle::TopRightBottomLeft(a, b, c, d), p4))
        } else {
            Err(crate::diag::error_at(skip_ws(s, p4), "trailing characters"))
        }
    }

    /// Parses a whole string as one quad.
    pub fn parse_str(s: &str) -> (r: Result<BorderStyle, ParseError>)
        ensures
            crate::parse::res_str_matches(
                r,
                crate::parse::spec_complete(s@, BorderStyle::spec_parse(s@, 0)),
            ),
    {
        crate::parse::complete_parse(s, BorderStyle::parse(s, 0))
    }
}

impl BorderWidth {
    /// One to four values, arity decided by where the rule finishes; a
    /// fifth value is refused as trailing.
    pub open spec fn spec_parse(s: Seq<char>, p: int) -> Result<(BorderWidth, int), SpecErr> {
        match LineWidth::spec_parse(s, p) {
            Err(e) => Err(e),
            Ok((a, p1)) => if spec_finished(s, p1) {
                Ok((BorderWidth::All(a), p1))
            } else {
                match LineWidth::spec_parse(s, p1) {
                    Err(e) => Err(e),
                    Ok((b, p2)) => if spec_finished(s, p2) {
                        Ok((BorderWidth::VerticalHorizontal(a, b), p2))
                    } else {
                        match LineWidth::spec_parse(s, p2) {
                            Err(e) => Err(e),
                            Ok((c, p3)) => if spec_finished(s, p3) {
                                Ok((BorderWidth::TopHorizontalBottom(a, b, c), p3))
                            } else {
                                match LineWidth::spec_parse(s, p3) {
                                    Err(e) => Err(e),
                                    Ok((d, p4)) => if spec_finished(s, p4) {
                                        Ok((BorderWidth::TopRightBottomLeft(a, b, c, d), p4))
                                    } else {
                                        Err(
                                            SpecErr {
                                                pos: spec_skip_ws(s, p4),
                                                msg: "trailing characters"@,
                                            },
                                        )
                                    },
                                }
                            },
                        }
                    },
                }
            },
        }
    }

    /// Consumes the shorthand quad, as [`BorderWidth::spec_parse`].
    pub fn parse(s: &str, pos: usize) -> (r: Result<(BorderWidth, usize), ParseError>)
        requires
            pos <= s@.len(),
        ensures
            res_matches(r, BorderWidth::spec_parse(s@, pos as int)),
            r is Ok ==> r->Ok_0.1 <= s@.len(),
    {
        let (a, p1) = match LineWidth::parse(s, pos) {
            Ok(v) => v,
            Err(er) => {
                return Err(er);
            },
        };
        if finished_rule(s, p1) {
            return Ok((BorderWidth::All(a), p1));
        }
        let (b, p2) = match LineWidth::parse(s, p1) {
            Ok(v) => v,
            Err(er) => {
                return Err(er);
            },
        };
        if finished_rule(s, p2) {
            return Ok((BorderWidth::VerticalHorizontal(a, b), p2));
        }
        let (c, p3) = match LineWidth::parse(s, p2) {
            Ok(v) => v,
            Err(er) => {
                return Err(er);
            },
        };
        if finished_rule(s, p3) {
            return Ok((BorderWidth::TopHorizontalBottom(a, b, c), p3));
        }
        let (d, p4) = match LineWidth::parse(s, p3) {
            Ok(v) => v,
            Err(er) => {
                return Err(er);
            },
        };
        if finished_rule(s, p4) {
            Ok((BorderWidth::TopRightBottomLeft(a, b, c, d), p4))
        } else {
            Err(crate::diag::error_at(skip_ws(s, p4), "trailing characters"))
        }
    }

    /// Parses a whole string as one quad.
    pub fn parse_str(s: &str) -> (r: Result<BorderWidth, ParseError>)
        ensures
            crate::parse::res_str_matches(
                r,
                crate::parse::spec_complete(s@, BorderWidth::spec_parse(s@, 0)),
            ),
    {
        crate::parse::complete_parse(s, BorderWidth::parse(s, 0))
    }
}

impl Margin {
    /// One to four values, arity decided by where the rule finishes; a
    /// fifth value is refused as trailing.
    pub open spec fn spec_parse(s: Seq<char>, p: int) -> Result<(Margin, int), SpecErr> {
        match MarginWidth::spec_parse(s, p) {
            Err(e) => Err(e),
            Ok((a, p1)) => if spec_finished(s, p1) {
                Ok((Margin::All(a), p1))
            } else {
                match MarginWidth::spec_parse(s, p1) {
                    Err(e) => Err(e),
                    Ok((b, p2)) => if spec_finished(s, p2) {
                        Ok((Margin::VerticalHorizontal(a, b), p2))
                    } else {
                        match MarginWidth::spec_parse(s, p2) {
                            Err(e) => Err(e),
                            Ok((c, p3)) => if spec_finished(s, p3) {
                                Ok((Margin::TopHorizontalBottom(a, b, c), p3))
                            } else {
                                match MarginWidth::spec_parse(s, p3) {
                                    Err(e) => Err(e),
                                    Ok((d, p4)) => if spec_finished(s, p4) {
                                        Ok((Margin::TopRightBottomLeft(a, b, c, d), p4))
                                    } else {
                                        Err(
                                            SpecErr {
                                                pos: spec_skip_ws(s, p4),
                                                msg: "trailing characters"@,
                                            },
                                        )
                                    },
                                }
                            },
                        }
                    },
                }
            },
        }
    }

    /// Consumes the shorthand quad, as [`Margin::spec_parse`].
    pub fn parse(s: &str, pos: usize) -> (r: Result<(Margin, usize), ParseError>)
        requires
            pos <= s@.len(),
        ensures
            res_matches(r, Margin::spec_parse(s@, pos as int)),
            r is Ok ==> r->Ok_0.1 <= s@.len(),
    {
        let (a, p1) = match MarginWidth::parse(s, pos) {
            Ok(v) => v,
            Err(er) => {
                return Err(er);
            },
        };
        if finished_rule(s, p1) {
            return Ok((Margin::All(a), p1));
        }
        let (b, p2) = match MarginWidth::parse(s, p1) {
            Ok(v) => v,
            Err(er) => {
                return Err(er);
            },
        };
        if finished_rule(s, p2) {
            return Ok((Margin::VerticalHorizontal(a, b), p2));
        }
        let (c, p3) = match MarginWidth::parse(s, p2) {
            Ok(v) => v,
            Err(er) => {
                return Err(er);
            },
        };
        if finished_rule(s, p3) {
            return Ok((Margin::TopHorizontalBottom(a, b, c), p3));
        }
        let (d, p4) = match MarginWidth::parse(s, p3) {
            Ok(v) => v,
            Err(er) => {
                return Err(er);
            },
        };
        if finished_rule(s, p4) {
            Ok((Margin::TopRightBottomLeft(a, b, c, d), p4))
        } else {
            Err(crate::diag::error_at(skip_ws(s, p4), "trailing characters"))
        }
    }

    /// Parses a whole string as one quad.
    pub fn parse_str(s: &str) -> (r: Result<Margin, ParseError>)
        ensures
            crate::parse::res_str_matches(
                r,
                crate::parse::spec_complete(s@, Margin::spec_parse(s@, 0)),
            ),
    {
        crate::parse::complete_parse(s, Margin::parse(s, 0))
    }
}

impl Padding {
    /// One to four values, arity decided by where the rule finishes; a
    /// fifth value is refused as trailing.
    pub open spec fn spec_parse(s: Seq<char>, p: int) -> Result<(Padding, int), SpecErr> {
        match LengthPercentage::spec_parse(s, p) {
            Err(e) => Err(e),
            Ok((a, p1)) => if spec_finished(s, p1) {
                Ok((Padding::All(a), p1))
            } else {
                match LengthPercentage::spec_parse(s, p1) {
                    Err(e) => Err(e),
                    Ok((b, p2)) => if spec_finished(s, p2) {
                        Ok((Padding::VerticalHorizontal(a, b), p2))
                    } else {
                        match LengthPercentage::spec_parse(s, p2) {
                            Err(e) => Err(e),
                            Ok((c, p3)) => if spec_finished(s, p3) {
                                Ok((Padding::TopHorizontalBottom(a, b, c), p3))
                            } else {
                                match LengthPercentage::spec_parse(s, p3) {
                                    Err(e) => Err(e),
                                    Ok((d, p4)) => if spec_finished(s, p4) {
                                        Ok((Padding::TopRightBottomLeft(a, b, c, d), p4))
                                    } else {
                                        Err(
                                            SpecErr {
                                                pos: spec_skip_ws(s, p4),
                                                msg: "trailing characters"@,
                                            },
                                        )
                                    },
                                }
                            },
                        }
                    },
                }
            },
        }
    }

    /// Consumes the shorthand quad, as [`Padding::spec_parse`].
    pub fn parse(s: &str, pos: usize) -> (r: Result<(Padding, usize), ParseError>)
        requires
            pos <= s@.len(),
        ensures
            res_matches(r, Padding::spec_parse(s@, pos as int)),
            r is Ok ==> r->Ok_0.1 <= s@.len(),
    {
        let (a, p1) = match LengthPercentage::parse(s, pos) {
            Ok(v) => v,
            Err(er) => {
                return Err(er);
            },
        };
        if finished_rule(s, p1) {
            return Ok((Padding::All(a), p1));
        }
        let (b, p2) = match LengthPercentage::parse(s, p1) {
            Ok(v) => v,
            Err(er) => {
                return Err(er);
            },
        };
        if finished_rule(s, p2) {
            return Ok((Padding::VerticalHorizontal(a, b), p2));
        }
        let (c, p3) = match LengthPercentage::parse(s, p2) {
            Ok(v) => v,
            Err(er) => {
                return Err(er);
            },
        };
        if finished_rule(s, p3) {
            return Ok((Padding::TopHorizontalBottom(a, b, c), p3));
        }
        let (d, p4) = match LengthPercentage::parse(s, p3) {
            Ok(v) => v,
            Err(er) => {
                return Err(er);
            },
        };
        if finished_rule(s, p4) {
            Ok((Padding::TopRightBottomLeft(a, b, c, d), p4))
        } else {
            Err(crate::diag::error_at(skip_ws(s, p4), "trailing characters"))
        }
    }

    /// Parses a whole string as one quad.
    pub fn parse_str(s: &str) -> (r: Result<Padding, ParseError>)
        ensures
            crate::parse::res_str_matches(
                r,
                crate::parse::spec_complete(s@, Padding::spec_parse(s@, 0)),
            ),
    {
        crate::parse::complete_parse(s, Padding::parse(s, 0))
    }
}


/// What a property parse yields at the spec level: for values carrying
/// owned text (a font family, an escape block) the text stands in for the
/// string.
pub ghost enum StyleV {
    Plain(Style),
    FontFam(Seq<char>),
    BgColor(SpecDC),
    ColorProp(SpecDC),
}

/// Whether a property value is the one the spec names.
pub open spec fn sv_matches(v: Style, sv: StyleV) -> bool {
    match sv {
        StyleV::Plain(p) => v == p,
        StyleV::FontFam(w) => v is FontFamily && v->FontFamily_0@ == w,
        StyleV::BgColor(d) => v is BackgroundColor && dc_val_matches(v->BackgroundColor_0, d),
        StyleV::ColorProp(d) => v is Color && dc_val_matches(v->Color_0, d),
    }
}

/// Whether an executable property parse result is the one the spec names.
pub open spec fn style_res_matches(
    r: Result<(Style, usize), ParseError>,
    sr: Result<(StyleV, int), SpecErr>,
) -> bool {
    match r {
        Ok((v, e)) => sr is Ok && sv_matches(v, sr->Ok_0.0) && sr->Ok_0.1 == e as int,
        Err(er) => sr is Err && crate::diag::err_matches(er, sr->Err_0),
    }
}

/// The candidates this dispatch group adds to the tried set.
pub open spec fn group1_tried(t: Seq<Seq<char>>) -> Seq<Seq<char>> {
    spec_insert(spec_insert(spec_insert(spec_insert(spec_insert(spec_insert(spec_insert(spec_insert(spec_insert(spec_insert(spec_insert(spec_insert(spec_insert(t, quoted("align-items"@)), quoted("background-color"@)), quoted("border"@)), quoted("border-bottom-color"@)), quoted("border-bottom-style"@)), quoted("border-bottom-width"@)), quoted("border-color"@)), quoted("border-left-color"@)), quoted("border-left-style"@)), quoted("border-left-width"@)), quoted("border-right-color"@)), quoted("border-right-style"@)), quoted("border-right-width"@))
}

/// Dispatch over one group of property names; nothing if none matched.
pub open spec fn spec_dispatch1(s: Seq<char>, q: int, w: Seq<char>) -> Option<
    Result<(StyleV, int), SpecErr>,
> {
    if false {
        Option::None
    } else         if w == "align-items"@ {
            Option::Some(
                match AlignItems::spec_parse(s, q) {
                    Ok((v, e)) => Ok((StyleV::Plain(Style::AlignItems(v)), e)),
                    Err(er) => Err(er),
                },
            )
        } else         if w == "background-color"@ {
            Option::Some(
                match DynamicColor::spec_parse(s, q) {
                    Ok((v, e)) => Ok((StyleV::BgColor(v), e)),
                    Err(er) => Err(er),
                },
            )
        } else         if w == "border"@ {
            Option::Some(
                match Border::spec_parse(s, q) {
                    Ok((v, e)) => Ok((StyleV::Plain(Style::Border(v)), e)),
                    Err(er) => Err(er),
                },
            )
        } else         if w == "border-bottom-color"@ {
            Option::Some(
                match Color::spec_parse(s, q) {
                    Ok((v, e)) => Ok((StyleV::Plain(Style::BorderBottomColor(v)), e)),
                    Err(er) => Err(er),
                },
            )
        } else         if w == "border-bottom-style"@ {
            Option::Some(
                match LineStyle::spec_parse(s, q) {
                    Ok((v, e)) => Ok((StyleV::Plain(Style::BorderBottomStyle(v)), e)),
                    Err(er) => Err(er),
                },
            )
        } else         if w == "border-bottom-width"@ {
            Option::Some(
                match LineWidth::spec_parse(s, q) {
                    Ok((v, e)) => Ok((StyleV::Plain(Style::BorderBottomWidth(v)), e)),
                    Err(er) => Err(er),
                },
            )
        } else         if w == "border-color"@ {
            Option::Some(
                match BorderColor::spec_parse(s, q) {
                    Ok((v, e)) => Ok((StyleV::Plain(Style::BorderColor(v)), e)),
                    Err(er) => Err(er),
                },
            )
        } else         if w == "border-left-color"@ {
            Option::Some(
                match Color::spec_parse(s, q) {
                    Ok((v, e)) => Ok((StyleV::Plain(Style::BorderLeftColor(v)), e)),
                    Err(er) => Err(er),
                },
            )
        } else         if w == "border-left-style"@ {
            Option::Some(
                match LineStyle::spec_parse(s, q) {
                    Ok((v, e)) => Ok((StyleV::Plain(Style::BorderLeftStyle(v)), e)),
                    Err(er) => Err(er),
                },
            )
        } else         if w == "border-left-width"@ {
            Option::Some(
                match LineWidth::spec_parse(s, q) {
                    Ok((v, e)) => Ok((StyleV::Plain(Style::BorderLeftWidth(v)), e)),
                    Err(er) => Err(er),
                },
            )
        } else         if w == "border-right-color"@ {
            Option::Some(
                match Color::spec_parse(s, q) {
                    Ok((v, e)) => Ok((StyleV::Plain(Style::BorderRightColor(v)), e)),
                    Err(er) => Err(er),
                },
            )
        } else         if w == "border-right-style"@ {
            Option::Some(
                match LineStyle::spec_parse(s, q) {
                    Ok((v, e)) => Ok((StyleV::Plain(Style::BorderRightStyle(v)), e)),
                    Err(er) => Err(er),
                },
            )
        } else         if w == "border-right-width"@ {
            Option::Some(
                match LineWidth::spec_parse(s, q) {
                    Ok((v, e)) => Ok((StyleV::Plain(Style::BorderRightWidth(v)), e)),
                    Err(er) => Err(er),
                },
            )
        } else {
        Option::None
    }
}

/// One dispatch group, as [`spec_dispatch1`]; records its candidates on
/// fall-through.
fn dispatch1(word: &mut HyphenWord, s: &str, q: usize) -> (r: Option<
    Result<(Style, usize), ParseError>,
>)
    requires
        q <= s@.len(),
    ensures
        final(word).pos == old(word).pos,
        final(word).word == old(word).word,
        match r {
            Option::Some(res) => old(word).word_view() is Some && spec_dispatch1(
                s@,
                q as int,
                old(word).word_view()->0,
            ) is Some && style_res_matches(
                res,
                spec_dispatch1(s@, q as int, old(word).word_view()->0)->0,
            ) && (res is Ok ==> res->Ok_0.1 <= s@.len()),
            Option::None => (old(word).word_view() is Some ==> spec_dispatch1(
                s@,
                q as int,
                old(word).word_view()->0,
            ) is None) && final(word).tried.view_seq() == group1_tried(
                old(word).tried.view_seq(),
            ),
        },
{
    if false {
        Option::None
    } else         if word.try_match("align-items") {
            Option::Some(
                match AlignItems::parse(s, q) {
                    Ok((v, e2)) => Ok((Style::AlignItems(v), e2)),
                    Err(er) => Err(er),
                },
            )
        } else         if word.try_match("background-color") {
            Option::Some(
                match DynamicColor::parse(s, q) {
                    Ok((v, e2)) => Ok((Style::BackgroundColor(v), e2)),
                    Err(er) => Err(er),
                },
            )
        } else         if word.try_match("border") {
            Option::Some(
                match Border::parse(s, q) {
                    Ok((v, e2)) => Ok((Style::Border(v), e2)),
                    Err(er) => Err(er),
                },
            )
        } else         if word.try_match("border-bottom-color") {
            Option::Some(
                match Color::parse(s, q) {
                    Ok((v, e2)) => Ok((Style::BorderBottomColor(v), e2)),
                    Err(er) => Err(er),
                },
            )
        } else         if word.try_match("border-bottom-style") {
            Option::Some(
                match LineStyle::parse(s, q) {
                    Ok((v, e2)) => Ok((Style::BorderBottomStyle(v), e2)),
                    Err(er) => Err(er),
                },
            )
        } else         if word.try_match("border-bottom-width") {
            Option::Some(
                match LineWidth::parse(s, q) {
                    Ok((v, e2)) => Ok((Style::BorderBottomWidth(v), e2)),
                    Err(er) => Err(er),
                },
            )
        } else         if word.try_match("border-color") {
            Option::Some(
                match BorderColor::parse(s, q) {
                    Ok((v, e2)) => Ok((Style::BorderColor(v), e2)),
                    Err(er) => Err(er),
                },
            )
        } else         if word.try_match("border-left-color") {
            Option::Some(
                match Color::parse(s, q) {
                    Ok((v, e2)) => Ok((Style::BorderLeftColor(v), e2)),
                    Err(er) => Err(er),
                },
            )
        } else         if word.try_match("border-left-style") {
            Option::Some(
                match LineStyle::parse(s, q) {
                    Ok((v, e2)) => Ok((Style::BorderLeftStyle(v), e2)),
                    Err(er) => Err(er),
                },
            )
        } else         if word.try_match("border-left-width") {
            Option::Some(
                match LineWidth::parse(s, q) {
                    Ok((v, e2)) => Ok((Style::BorderLeftWidth(v), e2)),
                    Err(er) => Err(er),
                },
            )
        } else         if word.try_match("border-right-color") {
            Option::Some(
                match Color::parse(s, q) {
                    Ok((v, e2)) => Ok((Style::BorderRightColor(v), e2)),
                    Err(er) => Err(er),
                },
            )
        } else         if word.try_match("border-right-style") {
            Option::Some(
                match LineStyle::parse(s, q) {
                    Ok((v, e2)) => Ok((Style::BorderRightStyle(v), e2)),
                    Err(er) => Err(er),
                },
            )
        } else         if word.try_match("border-right-width") {
            Option::Some(
                match LineWidth::parse(s, q) {
                    Ok((v, e2)) => Ok((Style::BorderRightWidth(v), e2)),
                    Err(er) => Err(er),
                },
            )
        } else {
        Option::None
    }
}

/// The candidates this dispatch group adds to the tried set.
pub open spec fn group2_tried(t: Seq<Seq<char>>) -> Seq<Seq<char>> {
    spec_insert(spec_insert(spec_insert(spec_insert(spec_insert(spec_insert(spec_insert(spec_insert(spec_insert(spec_insert(spec_insert(spec_insert(spec_insert(t, quoted("border-style"@)), quoted("border-top-color"@)), quoted("border-top-style"@)), quoted("border-top-width"@)), quoted("border-width"@)), quoted("box-sizing"@)), quoted("color"@)), quoted("cursor"@)), quoted("display"@)), quoted("flex-basis"@)), quoted("flex-direction"@)), quoted("flex-grow"@)), quoted("flex-shrink"@))
}

/// Dispatch over one group of property names; nothing if none matched.
pub open spec fn spec_dispatch2(s: Seq<char>, q: int, w: Seq<char>) -> Option<
    Result<(StyleV, int), SpecErr>,
> {
    if false {
        Option::None
    } else         if w == "border-style"@ {
            Option::Some(
                match BorderStyle::spec_parse(s, q) {
                    Ok((v, e)) => Ok((StyleV::Plain(Style::BorderStyle(v)), e)),
                    Err(er) => Err(er),
                },
            )
        } else         if w == "border-top-color"@ {
            Option::Some(
                match Color::spec_parse(s, q) {
                    Ok((v, e)) => Ok((StyleV::Plain(Style::BorderTopColor(v)), e)),
                    Err(er) => Err(er),
                },
            )
        } else         if w == "border-top-style"@ {
            Option::Some(
                match LineStyle::spec_parse(s, q) {
                    Ok((v, e)) => Ok((StyleV::Plain(Style::BorderTopStyle(v)), e)),
                    Err(er) => Err(er),
                },
            )
        } else         if w == "border-top-width"@ {
            Option::Some(
                match LineWidth::spec_parse(s, q) {
                    Ok((v, e)) => Ok((StyleV::Plain(Style::BorderTopWidth(v)), e)),
                    Err(er) => Err(er),
                },
            )
        } else         if w == "border-width"@ {
            Option::Some(
                match BorderWidth::spec_parse(s, q) {
                    Ok((v, e)) => Ok((StyleV::Plain(Style::BorderWidth(v)), e)),
                    Err(er) => Err(er),
                },
            )
        } else         if w == "box-sizing"@ {
            Option::Some(
                match BoxSizing::spec_parse(s, q) {
                    Ok((v, e)) => Ok((StyleV::Plain(Style::BoxSizing(v)), e)),
                    Err(er) => Err(er),
                },
            )
        } else         if w == "color"@ {
            Option::Some(
                match DynamicColor::spec_parse(s, q) {
                    Ok((v, e)) => Ok((StyleV::ColorProp(v), e)),
                    Err(er) => Err(er),
                },
            )
        } else         if w == "cursor"@ {
            Option::Some(
                match Cursor::spec_parse(s, q) {
                    Ok((v, e)) => Ok((StyleV::Plain(Style::Cursor(v)), e)),
                    Err(er) => Err(er),
                },
            )
        } else         if w == "display"@ {
            Option::Some(
                match Display::spec_parse(s, q) {
                    Ok((v, e)) => Ok((StyleV::Plain(Style::Display(v)), e)),
                    Err(er) => Err(er),
                },
            )
        } else         if w == "flex-basis"@ {
            Option::Some(
                match FlexBasis::spec_parse(s, q) {
                    Ok((v, e)) => Ok((StyleV::Plain(Style::FlexBasis(v)), e)),
                    Err(er) => Err(er),
                },
            )
        } else         if w == "flex-direction"@ {
            Option::Some(
                match FlexDirection::spec_parse(s, q) {
                    Ok((v, e)) => Ok((StyleV::Plain(Style::FlexDirection(v)), e)),
                    Err(er) => Err(er),
                },
            )
        } else         if w == "flex-grow"@ {
            Option::Some(
                match spec_number(s, q) {
                    Err(er) => Err(er),
                    Ok(sn) => {
                        if sn.suffix.len() != 0 {
                            Err(SpecErr { pos: sn.at, msg: "expected number"@ })
                        } else {
                            Ok((StyleV::Plain(Style::FlexGrow(sn.value)), sn.end))
                        }
                    },
                },
            )
        } else         if w == "flex-shrink"@ {
            Option::Some(
                match spec_number(s, q) {
                    Err(er) => Err(er),
                    Ok(sn) => {
                        if sn.suffix.len() != 0 {
                            Err(SpecErr { pos: sn.at, msg: "expected number"@ })
                        } else {
                            Ok((StyleV::Plain(Style::FlexShrink(sn.value)), sn.end))
                        }
                    },
                },
            )
        } else {
        Option::None
    }
}

/// One dispatch group, as [`spec_dispatch2`]; records its candidates on
/// fall-through.
fn dispatch2(word: &mut HyphenWord, s: &str, q: usize) -> (r: Option<
    Result<(Style, usize), ParseError>,
>)
    requires
        q <= s@.len(),
    ensures
        final(word).pos == old(word).pos,
        final(word).word == old(word).word,
        match r {
            Option::Some(res) => old(word).word_view() is Some && spec_dispatch2(
                s@,
                q as int,
                old(word).word_view()->0,
            ) is Some && style_res_matches(
                res,
                spec_dispatch2(s@, q as int, old(word).word_view()->0)->0,
            ) && (res is Ok ==> res->Ok_0.1 <= s@.len()),
            Option::None => (old(word).word_view() is Some ==> spec_dispatch2(
                s@,
                q as int,
                old(word).word_view()->0,
            ) is None) && final(word).tried.view_seq() == group2_tried(
                old(word).tried.view_seq(),
            ),
        },
{
    if false {
        Option::None
    } else         if word.try_match("border-style") {
            Option::Some(
                match BorderStyle::parse(s, q) {
                    Ok((v, e2)) => Ok((Style::BorderStyle(v), e2)),
                    Err(er) => Err(er),
                },
            )
        } else         if word.try_match("border-top-color") {
            Option::Some(
                match Color::parse(s, q) {
                    Ok((v, e2)) => Ok((Style::BorderTopColor(v), e2)),
                    Err(er) => Err(er),
                },
            )
        } else         if word.try_match("border-top-style") {
            Option::Some(
                match LineStyle::parse(s, q) {
                    Ok((v, e2)) => Ok((Style::BorderTopStyle(v), e2)),
                    Err(er) => Err(er),
                },
            )
        } else         if word.try_match("border-top-width") {
            Option::Some(
                match LineWidth::parse(s, q) {
                    Ok((v, e2)) => Ok((Style::BorderTopWidth(v), e2)),
                    Err(er) => Err(er),
                },
            )
        } else         if word.try_match("border-width") {
            Option::Some(
                match BorderWidth::parse(s, q) {
                    Ok((v, e2)) => Ok((Style::BorderWidth(v), e2)),
                    Err(er) => Err(er),
                },
            )
        } else         if word.try_match("box-sizing") {
            Option::Some(
                match BoxSizing::parse(s, q) {
                    Ok((v, e2)) => Ok((Style::BoxSizing(v), e2)),
                    Err(er) => Err(er),
                },
            )
        } else         if word.try_match("color") {
            Option::Some(
                match DynamicColor::parse(s, q) {
                    Ok((v, e2)) => Ok((Style::Color(v), e2)),
                    Err(er) => Err(er),
                },
            )
        } else         if word.try_match("cursor") {
            Option::Some(
                match Cursor::parse(s, q) {
                    Ok((v, e2)) => Ok((Style::Cursor(v), e2)),
                    Err(er) => Err(er),
                },
            )
        } else         if word.try_match("display") {
            Option::Some(
                match Display::parse(s, q) {
                    Ok((v, e2)) => Ok((Style::Display(v), e2)),
                    Err(er) => Err(er),
                },
            )
        } else         if word.try_match("flex-basis") {
            Option::Some(
                match FlexBasis::parse(s, q) {
                    Ok((v, e2)) => Ok((Style::FlexBasis(v), e2)),
                    Err(er) => Err(er),
                },
            )
        } else         if word.try_match("flex-direction") {
            Option::Some(
                match FlexDirection::parse(s, q) {
                    Ok((v, e2)) => Ok((Style::FlexDirection(v), e2)),
                    Err(er) => Err(er),
                },
            )
        } else         if word.try_match("flex-grow") {
            Option::Some(
                match Number::parse(s, q) {
                    Err(er) => Err(er),
                    Ok((n, e2)) => {
                        if !n.suffix.as_str().is_empty() {
                            Err(crate::diag::error_at(n.pos, "expected number"))
                        } else {
                            Ok((Style::FlexGrow(n.value), e2))
                        }
                    },
                },
            )
        } else         if word.try_match("flex-shrink") {
            Option::Some(
                match Number::parse(s, q) {
                    Err(er) => Err(er),
                    Ok((n, e2)) => {
                        if !n.suffix.as_str().is_empty() {
                            Err(crate::diag::error_at(n.pos, "expected number"))
                        } else {
                            Ok((Style::FlexShrink(n.value), e2))
                        }
                    },
                },
            )
        } else {
        Option::None
    }
}

/// The candidates this dispatch group adds to the tried set.
pub open spec fn group3_tried(t: Seq<Seq<char>>) -> Seq<Seq<char>> {
    spec_insert(spec_insert(spec_insert(spec_insert(spec_insert(spec_insert(spec_insert(spec_insert(spec_insert(spec_insert(spec_insert(spec_insert(spec_insert(t, quoted("flex-wrap"@)), quoted("font-family"@)), quoted("font-size"@)), quoted("font-style"@)), quoted("font-weight"@)), quoted("height"@)), quoted("justify-content"@)), quoted("list-style-type"@)), quoted("margin"@)), quoted("margin-bottom"@)), quoted("margin-left"@)), quoted("margin-right"@)), quoted("margin-top"@))
}

/// Dispatch over one group of property names; nothing if none matched.
pub open spec fn spec_dispatch3(s: Seq<char>, q: int, w: Seq<char>) -> Option<
    Result<(StyleV, int), SpecErr>,
> {
    if false {
        Option::None
    } else         if w == "flex-wrap"@ {
            Option::Some(
                match FlexWrap::spec_parse(s, q) {
                    Ok((v, e)) => Ok((StyleV::Plain(Style::FlexWrap(v)), e)),
                    Err(er) => Err(er),
                },
            )
        } else         if w == "font-family"@ {
            Option::Some(
                {
                    let q2 = spec_skip_ws(s, q);
                    if q2 < s.len() && s[q2] == '"' {
                        let e = spec_find_char(s, q2 + 1, '"');
                        if e >= s.len() {
                            Err(SpecErr { pos: q2, msg: "unterminated string"@ })
                        } else {
                            Ok((StyleV::FontFam(s.subrange(q2 + 1, e)), e + 1))
                        }
                    } else {
                        Err(SpecErr { pos: q2, msg: "expected string literal"@ })
                    }
                },
            )
        } else         if w == "font-size"@ {
            Option::Some(
                match FontSize::spec_parse(s, q) {
                    Ok((v, e)) => Ok((StyleV::Plain(Style::FontSize(v)), e)),
                    Err(er) => Err(er),
                },
            )
        } else         if w == "font-style"@ {
            Option::Some(
                match FontStyle::spec_parse(s, q) {
                    Ok((v, e)) => Ok((StyleV::Plain(Style::FontStyle(v)), e)),
                    Err(er) => Err(er),
                },
            )
        } else         if w == "font-weight"@ {
            Option::Some(
                match FontWeight::spec_parse(s, q) {
                    Ok((v, e)) => Ok((StyleV::Plain(Style::FontWeight(v)), e)),
                    Err(er) => Err(er),
                },
            )
        } else         if w == "height"@ {
            Option::Some(
                match WidthHeight::spec_parse(s, q) {
                    Ok((v, e)) => Ok((StyleV::Plain(Style::Height(v)), e)),
                    Err(er) => Err(er),
                },
            )
        } else         if w == "justify-content"@ {
            Option::Some(
                match JustifyContent::spec_parse(s, q) {
                    Ok((v, e)) => Ok((StyleV::Plain(Style::JustifyContent(v)), e)),
                    Err(er) => Err(er),
                },
            )
        } else         if w == "list-style-type"@ {
            Option::Some(
                match ListStyleType::spec_parse(s, q) {
                    Ok((v, e)) => Ok((StyleV::Plain(Style::ListStyleType(v)), e)),
                    Err(er) => Err(er),
                },
            )
        } else         if w == "margin"@ {
            Option::Some(
                match Margin::spec_parse(s, q) {
                    Ok((v, e)) => Ok((StyleV::Plain(Style::Margin(v)), e)),
                    Err(er) => Err(er),
                },
            )
        } else         if w == "margin-bottom"@ {
            Option::Some(
                match MarginWidth::spec_parse(s, q) {
                    Ok((v, e)) => Ok((StyleV::Plain(Style::MarginBottom(v)), e)),
                    Err(er) => Err(er),
                },
            )
        } else         if w == "margin-left"@ {
            Option::Some(
                match MarginWidth::spec_parse(s, q) {
                    Ok((v, e)) => Ok((StyleV::Plain(Style::MarginLeft(v)), e)),
                    Err(er) => Err(er),
                },
            )
        } else         if w == "margin-right"@ {
            Option::Some(
                match MarginWidth::spec_parse(s, q) {
                    Ok((v, e)) => Ok((StyleV::Plain(Style::MarginRight(v)), e)),
                    Err(er) => Err(er),
                },
            )
        } else         if w == "margin-top"@ {
            Option::Some(
                match MarginWidth::spec_parse(s, q) {
                    Ok((v, e)) => Ok((StyleV::Plain(Style::MarginTop(v)), e)),
                    Err(er) => Err(er),
                },
            )
        } else {
        Option::None
    }
}

/// One dispatch group, as [`spec_dispatch3`]; records its candidates on
/// fall-through.
fn dispatch3(word: &mut HyphenWord, s: &str, q: usize) -> (r: Option<
    Result<(Style, usize), ParseError>,
>)
    requires
        q <= s@.len(),
    ensures
        final(word).pos == old(word).pos,
        final(word).word == old(word).word,
        match r {
            Option::Some(res) => old(word).word_view() is Some && spec_dispatch3(
                s@,
                q as int,
                old(word).word_view()->0,
            ) is Some && style_res_matches(
                res,
                spec_dispatch3(s@, q as int, old(word).word_view()->0)->0,
            ) && (res is Ok ==> res->Ok_0.1 <= s@.len()),
            Option::None => (old(word).word_view() is Some ==> spec_dispatch3(
                s@,
                q as int,
                old(word).word_view()->0,
            ) is None) && final(word).tried.view_seq() == group3_tried(
                old(word).tried.view_seq(),
            ),
        },
{
    if false {
        Option::None
    } else         if word.try_match("flex-wrap") {
            Option::Some(
                match FlexWrap::parse(s, q) {
                    Ok((v, e2)) => Ok((Style::FlexWrap(v), e2)),
                    Err(er) => Err(er),
                },
            )
        } else         if word.try_match("font-family") {
            let len = s.unicode_len();
            let q2 = skip_ws(s, q);
            if q2 < len && s.get_char(q2) == '"' {
                let e = find_char(s, q2 + 1, '"');
                proof {
                    lemma_find_char(s@, q2 as int + 1, '"');
                }
                if e >= len {
                    Option::Some(Err(crate::diag::error_at(q2, "unterminated string")))
                } else {
                    Option::Some(Ok((Style::FontFamily(copy_range(s, q2 + 1, e)), e + 1)))
                }
            } else {
                Option::Some(Err(crate::diag::error_at(q2, "expected string literal")))
            }
        } else         if word.try_match("font-size") {
            Option::Some(
                match FontSize::parse(s, q) {
                    Ok((v, e2)) => Ok((Style::FontSize(v), e2)),
                    Err(er) => Err(er),
                },
            )
        } else         if word.try_match("font-style") {
            Option::Some(
                match FontStyle::parse(s, q) {
                    Ok((v, e2)) => Ok((Style::FontStyle(v), e2)),
                    Err(er) => Err(er),
                },
            )
        } else         if word.try_match("font-weight") {
            Option::Some(
                match FontWeight::parse(s, q) {
                    Ok((v, e2)) => Ok((Style::FontWeight(v), e2)),
                    Err(er) => Err(er),
                },
            )
        } else         if word.try_match("height") {
            Option::Some(
                match WidthHeight::parse(s, q) {
                    Ok((v, e2)) => Ok((Style::Height(v), e2)),
                    Err(er) => Err(er),
                },
            )
        } else         if word.try_match("justify-content") {
            Option::Some(
                match JustifyContent::parse(s, q) {
                    Ok((v, e2)) => Ok((Style::JustifyContent(v), e2)),
                    Err(er) => Err(er),
                },
            )
        } else         if word.try_match("list-style-type") {
            Option::Some(
                match ListStyleType::parse(s, q) {
                    Ok((v, e2)) => Ok((Style::ListStyleType(v), e2)),
                    Err(er) => Err(er),
                },
            )
        } else         if word.try_match("margin") {
            Option::Some(
                match Margin::parse(s, q) {
                    Ok((v, e2)) => Ok((Style::Margin(v), e2)),
                    Err(er) => Err(er),
                },
            )
        } else         if word.try_match("margin-bottom") {
            Option::Some(
                match MarginWidth::parse(s, q) {
                    Ok((v, e2)) => Ok((Style::MarginBottom(v), e2)),
                    Err(er) => Err(er),
                },
            )
        } else         if word.try_match("margin-left") {
            Option::Some(
                match MarginWidth::parse(s, q) {
                    Ok((v, e2)) => Ok((Style::MarginLeft(v), e2)),
                    Err(er) => Err(er),
                },
            )
        } else         if word.try_match("margin-right") {
            Option::Some(
                match MarginWidth::parse(s, q) {
                    Ok((v, e2)) => Ok((Style::MarginRight(v), e2)),
                    Err(er) => Err(er),
                },
            )
        } else         if word.try_match("margin-top") {
            Option::Some(
                match MarginWidth::parse(s, q) {
                    Ok((v, e2)) => Ok((Style::MarginTop(v), e2)),
                    Err(er) => Err(er),
                },
            )
        } else {
        Option::None
    }
}

/// The candidates this dispatch group adds to the tried set.
pub open spec fn group4_tried(t: Seq<Seq<char>>) -> Seq<Seq<char>> {
    spec_insert(spec_insert(spec_insert(spec_insert(spec_insert(spec_insert(spec_insert(spec_insert(spec_insert(spec_insert(spec_insert(spec_insert(t, quoted("max-height"@)), quoted("max-width"@)), quoted("min-height"@)), quoted("min-width"@)), quoted("object-fit"@)), quoted("padding"@)), quoted("padding-bottom"@)), quoted("padding-left"@)), quoted("padding-right"@)), quoted("padding-top"@)), quoted("resize"@)), quoted("width"@))
}

/// Dispatch over one group of property names; nothing if none matched.
pub open spec fn spec_dispatch4(s: Seq<char>, q: int, w: Seq<char>) -> Option<
    Result<(StyleV, int), SpecErr>,
> {
    if false {
        Option::None
    } else         if w == "max-height"@ {
            Option::Some(
                match MaxWidthHeight::spec_parse(s, q) {
                    Ok((v, e)) => Ok((StyleV::Plain(Style::MaxHeight(v)), e)),
                    Err(er) => Err(er),
                },
            )
        } else         if w == "max-width"@ {
            Option::Some(
                match MaxWidthHeight::spec_parse(s, q) {
                    Ok((v, e)) => Ok((StyleV::Plain(Style::MaxWidth(v)), e)),
                    Err(er) => Err(er),
                },
            )
        } else         if w == "min-height"@ {
            Option::Some(
                match LengthPercentage::spec_parse(s, q) {
                    Ok((v, e)) => Ok((StyleV::Plain(Style::MinHeight(v)), e)),
                    Err(er) => Err(er),
                },
            )
        } else         if w == "min-width"@ {
            Option::Some(
                match LengthPercentage::spec_parse(s, q) {
                    Ok((v, e)) => Ok((StyleV::Plain(Style::MinWidth(v)), e)),
                    Err(er) => Err(er),
                },
            )
        } else         if w == "object-fit"@ {
            Option::Some(
                match ObjectFit::spec_parse(s, q) {
                    Ok((v, e)) => Ok((StyleV::Plain(Style::ObjectFit(v)), e)),
                    Err(er) => Err(er),
                },
            )
        } else         if w == "padding"@ {
            Option::Some(
                match Padding::spec_parse(s, q) {
                    Ok((v, e)) => Ok((StyleV::Plain(Style::Padding(v)), e)),
                    Err(er) => Err(er),
                },
            )
        } else         if w == "padding-bottom"@ {
            Option::Some(
                match LengthPercentage::spec_parse(s, q) {
                    Ok((v, e)) => Ok((StyleV::Plain(Style::PaddingBottom(v)), e)),
                    Err(er) => Err(er),
                },
            )
        } else         if w == "padding-left"@ {
            Option::Some(
                match LengthPercentage::spec_parse(s, q) {
                    Ok((v, e)) => Ok((StyleV::Plain(Style::PaddingLeft(v)), e)),
                    Err(er) => Err(er),
                },
            )
        } else         if w == "padding-right"@ {
            Option::Some(
                match LengthPercentage::spec_parse(s, q) {
                    Ok((v, e)) => Ok((StyleV::Plain(Style::PaddingRight(v)), e)),
                    Err(er) => Err(er),
                },
            )
        } else         if w == "padding-top"@ {
            Option::Some(
                match LengthPercentage::spec_parse(s, q) {
                    Ok((v, e)) => Ok((StyleV::Plain(Style::PaddingTop(v)), e)),
                    Err(er) => Err(er),
                },
            )
        } else         if w == "resize"@ {
            Option::Some(
                match Resize::spec_parse(s, q) {
                    Ok((v, e)) => Ok((StyleV::Plain(Style::Resize(v)), e)),
                    Err(er) => Err(er),
                },
            )
        } else         if w == "width"@ {
            Option::Some(
                match WidthHeight::spec_parse(s, q) {
                    Ok((v, e)) => Ok((StyleV::Plain(Style::Width(v)), e)),
                    Err(er) => Err(er),
                },
            )
        } else {
        Option::None
    }
}

/// One dispatch group, as [`spec_dispatch4`]; records its candidates on
/// fall-through.
fn dispatch4(word: &mut HyphenWord, s: &str, q: usize) -> (r: Option<
    Result<(Style, usize), ParseError>,
>)
    requires
        q <= s@.len(),
    ensures
        final(word).pos == old(word).pos,
        final(word).word == old(word).word,
        match r {
            Option::Some(res) => old(word).word_view() is Some && spec_dispatch4(
                s@,
                q as int,
                old(word).word_view()->0,
            ) is Some && style_res_matches(
                res,
                spec_dispatch4(s@, q as int, old(word).word_view()->0)->0,
            ) && (res is Ok ==> res->Ok_0.1 <= s@.len()),
            Option::None => (old(word).word_view() is Some ==> spec_dispatch4(
                s@,
                q as int,
                old(word).word_view()->0,
            ) is None) && final(word).tried.view_seq() == group4_tried(
                old(word).tried.view_seq(),
            ),
        },
{
    if false {
        Option::None
    } else         if word.try_match("max-height") {
            Option::Some(
                match MaxWidthHeight::parse(s, q) {
                    Ok((v, e2)) => Ok((Style::MaxHeight(v), e2)),
                    Err(er) => Err(er),
                },
            )
        } else         if word.try_match("max-width") {
            Option::Some(
                match MaxWidthHeight::parse(s, q) {
                    Ok((v, e2)) => Ok((Style::MaxWidth(v), e2)),
                    Err(er) => Err(er),
                },
            )
        } else         if word.try_match("min-height") {
            Option::Some(
                match LengthPercentage::parse(s, q) {
                    Ok((v, e2)) => Ok((Style::MinHeight(v), e2)),
                    Err(er) => Err(er),
                },
            )
        } else         if word.try_match("min-width") {
            Option::Some(
                match LengthPercentage::parse(s, q) {
                    Ok((v, e2)) => Ok((Style::MinWidth(v), e2)),
                    Err(er) => Err(er),
                },
            )
        } else         if word.try_match("object-fit") {
            Option::Some(
                match ObjectFit::parse(s, q) {
                    Ok((v, e2)) => Ok((Style::ObjectFit(v), e2)),
                    Err(er) => Err(er),
                },
            )
        } else         if word.try_match("padding") {
            Option::Some(
                match Padding::parse(s, q) {
                    Ok((v, e2)) => Ok((Style::Padding(v), e2)),
                    Err(er) => Err(er),
                },
            )
        } else         if word.try_match("padding-bottom") {
            Option::Some(
                match LengthPercentage::parse(s, q) {
                    Ok((v, e2)) => Ok((Style::PaddingBottom(v), e2)),
                    Err(er) => Err(er),
                },
            )
        } else         if word.try_match("padding-left") {
            Option::Some(
                match LengthPercentage::parse(s, q) {
                    Ok((v, e2)) => Ok((Style::PaddingLeft(v), e2)),
                    Err(er) => Err(er),
                },
            )
        } else         if word.try_match("padding-right") {
            Option::Some(
                match LengthPercentage::parse(s, q) {
                    Ok((v, e2)) => Ok((Style::PaddingRight(v), e2)),
                    Err(er) => Err(er),
                },
            )
        } else         if word.try_match("padding-top") {
            Option::Some(
                match LengthPercentage::parse(s, q) {
                    Ok((v, e2)) => Ok((Style::PaddingTop(v), e2)),
                    Err(er) => Err(er),
                },
            )
        } else         if word.try_match("resize") {
            Option::Some(
                match Resize::parse(s, q) {
                    Ok((v, e2)) => Ok((Style::Resize(v), e2)),
                    Err(er) => Err(er),
                },
            )
        } else         if word.try_match("width") {
            Option::Some(
                match WidthHeight::parse(s, q) {
                    Ok((v, e2)) => Ok((Style::Width(v), e2)),
                    Err(er) => Err(er),
                },
            )
        } else {
        Option::None
    }
}


impl Style {
    /// The candidates a property-name dispatch reports on failure: every
    /// supported property name, and the no-op `dummy`.
    pub open spec fn tried() -> Seq<Seq<char>> {
        group4_tried(group3_tried(group2_tried(group1_tried(spec_insert(Seq::<Seq<char>>::empty(), quoted("dummy"@))))))
    }

    /// The failure for an unknown property name.
    pub open spec fn fail(at: int) -> SpecErr {
        SpecErr { pos: at, msg: "expected one of "@ + spec_join(Style::tried()) }
    }

    /// A property entry: the `dummy` no-op alone, else `name`, `:` and the
    /// value parsed by the named property's own grammar; an unknown name is
    /// refused with every attempted name listed.
    pub open spec fn spec_parse(s: Seq<char>, p: int) -> Result<(StyleV, int), SpecErr> {
        match spec_hyphen_word(s, p) {
            Err(e) => Err(e),
            Ok(hw) => {
                if hw.word == Option::Some("dummy"@) {
                    Ok((StyleV::Plain(Style::Dummy), hw.end))
                } else {
                    match spec_expect_char(s, hw.end, ':', "expected `:`"@) {
                        Err(e) => Err(e),
                        Ok(q) => match hw.word {
                            Option::None => Err(Style::fail(hw.at)),
                            Option::Some(w) => match spec_dispatch1(s, q, w) {
                                Option::Some(r) => r,
                                Option::None => match spec_dispatch2(s, q, w) {
                                    Option::Some(r) => r,
                                    Option::None => match spec_dispatch3(s, q, w) {
                                        Option::Some(r) => r,
                                        Option::None => match spec_dispatch4(s, q, w) {
                                            Option::Some(r) => r,
                                            Option::None => Err(Style::fail(hw.at)),
                                        },
                                    },
                                },
                            },
                        },
                    }
                }
            },
        }
    }

    /// Consumes one property entry, as [`Style::spec_parse`].
    pub fn parse(s: &str, pos: usize) -> (r: Result<(Style, usize), ParseError>)
        requires
            pos <= s@.len(),
        ensures
            style_res_matches(r, Style::spec_parse(s@, pos as int)),
            r is Ok ==> r->Ok_0.1 <= s@.len(),
    {
        broadcast use crate::diag::lemma_insert_len;

        let (mut word, e) = match HyphenWord::parse(s, pos) {
            Ok(v) => v,
            Err(er) => {
                return Err(er);
            },
        };
        if word.try_match("dummy") {
            return Ok((Style::Dummy, e));
        }
        let q = match expect_char(s, e, ':', "expected `:`") {
            Ok(q) => q,
            Err(er) => {
                return Err(er);
            },
        };
        match dispatch1(&mut word, s, q) {
            Option::Some(r) => {
                return r;
            },
            Option::None => {},
        }
        match dispatch2(&mut word, s, q) {
            Option::Some(r) => {
                return r;
            },
            Option::None => {},
        }
        match dispatch3(&mut word, s, q) {
            Option::Some(r) => {
                return r;
            },
            Option::None => {},
        }
        match dispatch4(&mut word, s, q) {
            Option::Some(r) => {
                return r;
            },
            Option::None => {},
        }
        Err(word.error())
    }

    /// Parses a whole string as one property entry.
    pub fn parse_str(s: &str) -> (r: Result<Style, ParseError>)
        ensures
            match crate::parse::spec_complete(s@, Style::spec_parse(s@, 0)) {
                Ok(sv) => r is Ok && sv_matches(r->Ok_0, sv),
                Err(se) => r is Err && crate::diag::err_matches(r->Err_0, se),
            },
    {
        let len = s.unicode_len();
        match Style::parse(s, 0) {
            Ok((v, e)) => {
                let q = skip_ws(s, e);
                if q >= len {
                    Ok(v)
                } else {
                    Err(crate::diag::error_at(q, "unexpected token"))
                }
            },
            Err(er) => Err(er),
        }
    }
}

} // verus!

verus! {

/// One round of the `border` shorthand: each of line width, line style and
/// color is attempted in turn; whichever succeed are committed, a component
/// already set is a duplicate error, and a round that matched nothing on an
/// unfinished rule is refused.  `fuel` bounds the rounds; three components
/// mean three rounds always suffice.
pub open spec fn spec_border_step(s: Seq<char>, p: int, b: Border, fuel: nat) -> Result<
    (Border, int),
    SpecErr,
>
    decreases fuel,
{
    if (b.line_width is Some && b.line_style is Some && b.color is Some) || spec_finished(s, p) {
        Ok((b, p))
    } else if fuel == 0 {
        Err(SpecErr { pos: p, msg: Seq::empty() })
    } else {
        let wres = LineWidth::spec_parse(s, p);
        if wres is Ok && b.line_width is Some {
            Err(
                SpecErr {
                    pos: wres->Ok_0.1,
                    msg: "the border width was specified more than once"@,
                },
            )
        } else {
            let b1 = if wres is Ok {
                Border { line_width: Option::Some(wres->Ok_0.0), ..b }
            } else {
                b
            };
            let p1 = if wres is Ok {
                wres->Ok_0.1
            } else {
                p
            };
            let sres = LineStyle::spec_parse(s, p1);
            if sres is Ok && b1.line_style is Some {
                Err(
                    SpecErr {
                        pos: sres->Ok_0.1,
                        msg: "the border style was specified more than once"@,
                    },
                )
            } else {
                let b2 = if sres is Ok {
                    Border { line_style: Option::Some(sres->Ok_0.0), ..b1 }
                } else {
                    b1
                };
                let p2 = if sres is Ok {
                    sres->Ok_0.1
                } else {
                    p1
                };
                let cres = Color::spec_parse(s, p2);
                if cres is Ok && b2.color is Some {
                    Err(
                        SpecErr {
                            pos: cres->Ok_0.1,
                            msg: "the border color was specified more than once"@,
                        },
                    )
                } else {
                    let b3 = if cres is Ok {
                        Border { color: Option::Some(cres->Ok_0.0), ..b2 }
                    } else {
                        b2
                    };
                    let p3 = if cres is Ok {
                        cres->Ok_0.1
                    } else {
                        p2
                    };
                    if wres is Ok || sres is Ok || cres is Ok {
                        spec_border_step(s, p3, b3, (fuel - 1) as nat)
                    } else if spec_finished(s, p3) {
                        Ok((b3, p3))
                    } else {
                        Err(
                            SpecErr {
                                pos: spec_skip_ws(s, p3),
                                msg:
                                    "unexpected input - expected one of border-width, border-style, color"@,
                            },
                        )
                    }
                }
            }
        }
    }
}

/// How many of a border's components are set.
pub open spec fn border_set_count(b: Border) -> int {
    (if b.line_width is Some {
        1int
    } else {
        0
    }) + (if b.line_style is Some {
        1int
    } else {
        0
    }) + (if b.color is Some {
        1int
    } else {
        0
    })
}

impl Border {
    /// The `border` shorthand: components in any order, none twice,
    /// finishing at `;` or the end.
    pub open spec fn spec_parse(s: Seq<char>, p: int) -> Result<(Border, int), SpecErr> {
        spec_border_step(
            s,
            p,
            Border { line_width: Option::None, line_style: Option::None, color: Option::None },
            3,
        )
    }

    /// Consumes a border, as [`Border::spec_parse`].
    pub fn parse(s: &str, pos: usize) -> (r: Result<(Border, usize), ParseError>)
        requires
            pos <= s@.len(),
        ensures
            res_matches(r, Border::spec_parse(s@, pos as int)),
            r is Ok ==> r->Ok_0.1 <= s@.len(),
    {
        let mut b = Border::new();
        let mut p = pos;
        let ghost mut fuel: nat = 3;
        loop
            invariant
                p <= s@.len(),
                Border::spec_parse(s@, pos as int) == spec_border_step(s@, p as int, b, fuel),
                border_set_count(b) + fuel >= 3,
            decreases fuel,
        {
            if b.is_full() || finished_rule(s, p) {
                return Ok((b, p));
            }
            let mut matched = false;
            match LineWidth::parse(s, p) {
                Ok((w, e)) => {
                    if b.has_line_width() {
                        return Err(
                            crate::diag::error_at(e, "the border width was specified more than once"),
                        );
                    }
                    b.line_width = Option::Some(w);
                    p = e;
                    matched = true;
                },
                Err(_) => {},
            }
            match LineStyle::parse(s, p) {
                Ok((st, e)) => {
                    if b.has_line_style() {
                        return Err(
                            crate::diag::error_at(e, "the border style was specified more than once"),
                        );
                    }
                    b.line_style = Option::Some(st);
                    p = e;
                    matched = true;
                },
                Err(_) => {},
            }
            match Color::parse(s, p) {
                Ok((c, e)) => {
                    if b.has_color() {
                        return Err(
                            crate::diag::error_at(e, "the border color was specified more than once"),
                        );
                    }
                    b.color = Option::Some(c);
                    p = e;
                    matched = true;
                },
                Err(_) => {},
            }
            if !matched {
                if finished_rule(s, p) {
                    return Ok((b, p));
                }
                return Err(
                    crate::diag::error_at(
                        skip_ws(s, p),
                        "unexpected input - expected one of border-width, border-style, color",
                    ),
                );
            }
            proof {
                fuel = (fuel - 1) as nat;
            }
        }
    }

    /// Parses a whole string as one border.
    pub fn parse_str(s: &str) -> (r: Result<Border, ParseError>)
        ensures
            crate::parse::res_str_matches(
                r,
                crate::parse::spec_complete(s@, Border::spec_parse(s@, 0)),
            ),
    {
        crate::parse::complete_parse(s, Border::parse(s, 0))
    }
}

} // verus!
