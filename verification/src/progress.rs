//! Every parser moves forward: a successful parse ends at or after where it
//! began, within the input.  These bounds justify the termination of the
//! list and shorthand loops.

use vstd::prelude::*;
use crate::color::Color;
use crate::keywords::{
    AlignItems, BoxSizing, Cursor, Display, FlexDirection, FlexWrap, FontStyle, JustifyContent,
    LineStyle, ListStyleType, Resize,
};
use crate::num::Num;
use crate::parse::{
    lemma_block_end, lemma_find_char, lemma_hw_advances, spec_block_end, spec_expect_char,
    spec_hyphen_word, spec_kw_token, spec_num_suffix, spec_number,
};
use crate::parse_color::{spec_escape, spec_hex_color, spec_hsl_color, spec_hsl_tail};
use crate::color::DynamicColor;
use crate::parse_style::{
    spec_border_step, spec_dispatch1, spec_dispatch2, spec_dispatch3, spec_dispatch4,
};
use crate::property::Style;
use crate::quads::{BorderColor, BorderStyle, BorderWidth, Margin, Padding};
use crate::text::{
    lemma_digits_end, lemma_ident_end, lemma_skip_ws, spec_digits_end, spec_ident_end,
    spec_skip_ws,
};
use crate::values::{
    Border, FlexBasis, FontSize, FontWeight, Length, LengthPercentage, LineWidth, MarginWidth,
    MaxWidthHeight, ObjectFit, Percentage, Width21, WidthHeight,
};

verus! {

/// A suffix continuation stays within the input and never moves back.
pub proof fn lemma_suffix_bounds(s: Seq<char>, at: int, v: Num, p: int)
    requires
        0 <= p <= s.len(),
    ensures
        spec_num_suffix(s, at, v, p) is Ok ==> p <= spec_num_suffix(s, at, v, p)->Ok_0.end
            <= s.len(),
{
    lemma_ident_end(s, p);
    lemma_skip_ws(s, p);
    let q = spec_skip_ws(s, p);
    if q < s.len() && s[q] == '"' {
        lemma_find_char(s, q + 1, '"');
    }
}

/// A successful number parse moves strictly forward.
pub proof fn lemma_number_bounds(s: Seq<char>, p: int)
    requires
        0 <= p <= s.len(),
    ensures
        spec_number(s, p) is Ok ==> p < spec_number(s, p)->Ok_0.end <= s.len(),
{
    lemma_skip_ws(s, p);
    let q = spec_skip_ws(s, p);
    if q < s.len() && crate::text::is_digit(s[q]) {
        lemma_digits_end(s, q);
        lemma_digits_end(s, q + 1);
        let e1 = spec_digits_end(s, q);
        if e1 < s.len() && s[e1] == '.' {
            lemma_digits_end(s, e1 + 1);
            let e2 = spec_digits_end(s, e1 + 1);
            let sn = spec_number(s, p);
            lemma_suffix_bounds(
                s,
                q,
                Num {
                    mantissa: crate::parse::spec_normalize(
                        (crate::text::spec_digits_val(s, q, e1) * crate::num::pow10(
                            (e2 - (e1 + 1)) as nat,
                        ) + crate::text::spec_digits_val(s, e1 + 1, e2)) as nat,
                        (e2 - (e1 + 1)) as nat,
                    ).0 as u64,
                    scale: crate::parse::spec_normalize(
                        (crate::text::spec_digits_val(s, q, e1) * crate::num::pow10(
                            (e2 - (e1 + 1)) as nat,
                        ) + crate::text::spec_digits_val(s, e1 + 1, e2)) as nat,
                        (e2 - (e1 + 1)) as nat,
                    ).1 as u32,
                },
                e2,
            );
        } else {
            lemma_suffix_bounds(
                s,
                q,
                Num { mantissa: crate::text::spec_digits_val(s, q, e1) as u64, scale: 0 },
                e1,
            );
        }
    }
}

/// A successful expected-character step moves strictly forward.
pub proof fn lemma_expect_bounds(s: Seq<char>, p: int, c: char, msg: Seq<char>)
    requires
        0 <= p <= s.len(),
    ensures
        spec_expect_char(s, p, c, msg) is Ok ==> p < spec_expect_char(s, p, c, msg)->Ok_0
            <= s.len(),
{
    lemma_skip_ws(s, p);
}

/// A successful length parse moves strictly forward.
pub proof fn lemma_length_bounds(s: Seq<char>, p: int)
    requires
        0 <= p <= s.len(),
    ensures
        Length::spec_parse(s, p) is Ok ==> p < Length::spec_parse(s, p)->Ok_0.1 <= s.len(),
{
    lemma_number_bounds(s, p);
}

/// A successful percentage parse moves strictly forward.
pub proof fn lemma_percentage_bounds(s: Seq<char>, p: int)
    requires
        0 <= p <= s.len(),
    ensures
        Percentage::spec_parse(s, p) is Ok ==> p < Percentage::spec_parse(s, p)->Ok_0.1 <= s.len(),
{
    lemma_number_bounds(s, p);
}

/// A successful length-or-percentage parse moves strictly forward.
pub proof fn lemma_lp_bounds(s: Seq<char>, p: int)
    requires
        0 <= p <= s.len(),
    ensures
        LengthPercentage::spec_parse(s, p) is Ok ==> p < LengthPercentage::spec_parse(
            s,
            p,
        )->Ok_0.1 <= s.len(),
{
    lemma_number_bounds(s, p);
}

/// A successful `AlignItems` parse moves strictly forward.
pub proof fn lemma_alignitems_bounds(s: Seq<char>, p: int)
    requires
        0 <= p <= s.len(),
    ensures
        AlignItems::spec_parse(s, p) is Ok ==> p < AlignItems::spec_parse(s, p)->Ok_0.1 <= s.len(),
{
    lemma_hw_advances(s, p);
}

/// A successful `BoxSizing` parse moves strictly forward.
pub proof fn lemma_boxsizing_bounds(s: Seq<char>, p: int)
    requires
        0 <= p <= s.len(),
    ensures
        BoxSizing::spec_parse(s, p) is Ok ==> p < BoxSizing::spec_parse(s, p)->Ok_0.1 <= s.len(),
{
    lemma_hw_advances(s, p);
}

/// A successful `Cursor` parse moves strictly forward.
pub proof fn lemma_cursor_bounds(s: Seq<char>, p: int)
    requires
        0 <= p <= s.len(),
    ensures
        Cursor::spec_parse(s, p) is Ok ==> p < Cursor::spec_parse(s, p)->Ok_0.1 <= s.len(),
{
    lemma_hw_advances(s, p);
}

/// A successful `Display` parse moves strictly forward.
pub proof fn lemma_display_bounds(s: Seq<char>, p: int)
    requires
        0 <= p <= s.len(),
    ensures
        Display::spec_parse(s, p) is Ok ==> p < Display::spec_parse(s, p)->Ok_0.1 <= s.len(),
{
    lemma_hw_advances(s, p);
}

/// A successful `FlexDirection` parse moves strictly forward.
pub proof fn lemma_flexdirection_bounds(s: Seq<char>, p: int)
    requires
        0 <= p <= s.len(),
    ensures
        FlexDirection::spec_parse(s, p) is Ok ==> p < FlexDirection::spec_parse(s, p)->Ok_0.1 <= s.len(),
{
    lemma_hw_advances(s, p);
}

/// A successful `FlexWrap` parse moves strictly forward.
pub proof fn lemma_flexwrap_bounds(s: Seq<char>, p: int)
    requires
        0 <= p <= s.len(),
    ensures
        FlexWrap::spec_parse(s, p) is Ok ==> p < FlexWrap::spec_parse(s, p)->Ok_0.1 <= s.len(),
{
    lemma_hw_advances(s, p);
}

/// A successful `FontStyle` parse moves strictly forward.
pub proof fn lemma_fontstyle_bounds(s: Seq<char>, p: int)
    requires
        0 <= p <= s.len(),
    ensures
        FontStyle::spec_parse(s, p) is Ok ==> p < FontStyle::spec_parse(s, p)->Ok_0.1 <= s.len(),
{
    lemma_hw_advances(s, p);
}

/// A successful `JustifyContent` parse moves strictly forward.
pub proof fn lemma_justifycontent_bounds(s: Seq<char>, p: int)
    requires
        0 <= p <= s.len(),
    ensures
        JustifyContent::spec_parse(s, p) is Ok ==> p < JustifyContent::spec_parse(s, p)->Ok_0.1 <= s.len(),
{
    lemma_hw_advances(s, p);
}

/// A successful `LineStyle` parse moves strictly forward.
pub proof fn lemma_linestyle_bounds(s: Seq<char>, p: int)
    requires
        0 <= p <= s.len(),
    ensures
        LineStyle::spec_parse(s, p) is Ok ==> p < LineStyle::spec_parse(s, p)->Ok_0.1 <= s.len(),
{
    lemma_hw_advances(s, p);
}

/// A successful `ListStyleType` parse moves strictly forward.
pub proof fn lemma_liststyletype_bounds(s: Seq<char>, p: int)
    requires
        0 <= p <= s.len(),
    ensures
        ListStyleType::spec_parse(s, p) is Ok ==> p < ListStyleType::spec_parse(s, p)->Ok_0.1 <= s.len(),
{
    lemma_hw_advances(s, p);
}

/// A successful `Resize` parse moves strictly forward.
pub proof fn lemma_resize_bounds(s: Seq<char>, p: int)
    requires
        0 <= p <= s.len(),
    ensures
        Resize::spec_parse(s, p) is Ok ==> p < Resize::spec_parse(s, p)->Ok_0.1 <= s.len(),
{
    lemma_hw_advances(s, p);
}


/// A matched single-identifier keyword moves strictly forward.
pub proof fn lemma_kw_token_bounds(s: Seq<char>, p: int, kw: Seq<char>)
    requires
        0 <= p <= s.len(),
    ensures
        spec_kw_token(s, p, kw) is Some ==> p < spec_kw_token(s, p, kw)->0 <= s.len(),
{
    lemma_skip_ws(s, p);
    let q = spec_skip_ws(s, p);
    if 0 <= q < s.len() {
        lemma_ident_end(s, q);
        lemma_ident_end(s, q + 1);
    }
}

/// A successful line-width parse moves strictly forward.
pub proof fn lemma_line_width_bounds(s: Seq<char>, p: int)
    requires
        0 <= p <= s.len(),
    ensures
        LineWidth::spec_parse(s, p) is Ok ==> p < LineWidth::spec_parse(s, p)->Ok_0.1 <= s.len(),
{
    lemma_hw_advances(s, p);
    if spec_hyphen_word(s, p) is Ok {
        lemma_length_bounds(s, spec_hyphen_word(s, p)->Ok_0.end);
    }
}

/// A successful font-weight parse moves strictly forward.
pub proof fn lemma_font_weight_bounds(s: Seq<char>, p: int)
    requires
        0 <= p <= s.len(),
    ensures
        FontWeight::spec_parse(s, p) is Ok ==> p < FontWeight::spec_parse(s, p)->Ok_0.1 <= s.len(),
{
    lemma_hw_advances(s, p);
    if spec_hyphen_word(s, p) is Ok {
        lemma_number_bounds(s, spec_hyphen_word(s, p)->Ok_0.end);
    }
}

/// A successful font-size parse moves strictly forward.
pub proof fn lemma_font_size_bounds(s: Seq<char>, p: int)
    requires
        0 <= p <= s.len(),
    ensures
        FontSize::spec_parse(s, p) is Ok ==> p < FontSize::spec_parse(s, p)->Ok_0.1 <= s.len(),
{
    lemma_hw_advances(s, p);
    lemma_lp_bounds(s, p);
}

/// A successful CSS 2.1 width parse moves strictly forward.
pub proof fn lemma_width21_bounds(s: Seq<char>, p: int)
    requires
        0 <= p <= s.len(),
    ensures
        Width21::spec_parse(s, p) is Ok ==> p < Width21::spec_parse(s, p)->Ok_0.1 <= s.len(),
{
    lemma_kw_token_bounds(s, p, "auto"@);
    lemma_lp_bounds(s, p);
}

/// A successful flex-basis parse moves strictly forward.
pub proof fn lemma_flex_basis_bounds(s: Seq<char>, p: int)
    requires
        0 <= p <= s.len(),
    ensures
        FlexBasis::spec_parse(s, p) is Ok ==> p < FlexBasis::spec_parse(s, p)->Ok_0.1 <= s.len(),
{
    lemma_kw_token_bounds(s, p, "content"@);
    lemma_width21_bounds(s, p);
}

/// A successful margin-width parse moves strictly forward.
pub proof fn lemma_margin_width_bounds(s: Seq<char>, p: int)
    requires
        0 <= p <= s.len(),
    ensures
        MarginWidth::spec_parse(s, p) is Ok ==> p < MarginWidth::spec_parse(s, p)->Ok_0.1
            <= s.len(),
{
    lemma_kw_token_bounds(s, p, "auto"@);
    lemma_lp_bounds(s, p);
}

/// A successful `fit-content` argument moves strictly forward.
pub proof fn lemma_fit_content_bounds(s: Seq<char>, p: int)
    requires
        0 <= p <= s.len(),
    ensures
        crate::parse_value::spec_fit_content_arg(s, p) is Ok
            ==> p < crate::parse_value::spec_fit_content_arg(s, p)->Ok_0.1 <= s.len(),
{
    lemma_expect_bounds(s, p, '(', "expected parentheses"@);
    let pr = spec_expect_char(s, p, '(', "expected parentheses"@);
    if pr is Ok {
        lemma_lp_bounds(s, pr->Ok_0);
        let lr = LengthPercentage::spec_parse(s, pr->Ok_0);
        if lr is Ok {
            lemma_skip_ws(s, lr->Ok_0.1);
        }
    }
}

/// A successful width/height parse moves strictly forward.
pub proof fn lemma_width_height_bounds(s: Seq<char>, p: int)
    requires
        0 <= p <= s.len(),
    ensures
        WidthHeight::spec_parse(s, p) is Ok ==> p < WidthHeight::spec_parse(s, p)->Ok_0.1
            <= s.len(),
{
    lemma_hw_advances(s, p);
    if spec_hyphen_word(s, p) is Ok {
        let e = spec_hyphen_word(s, p)->Ok_0.end;
        lemma_fit_content_bounds(s, e);
        lemma_lp_bounds(s, e);
    }
}

/// A successful max-width/max-height parse moves strictly forward.
pub proof fn lemma_max_width_height_bounds(s: Seq<char>, p: int)
    requires
        0 <= p <= s.len(),
    ensures
        MaxWidthHeight::spec_parse(s, p) is Ok ==> p < MaxWidthHeight::spec_parse(s, p)->Ok_0.1
            <= s.len(),
{
    lemma_hw_advances(s, p);
    if spec_hyphen_word(s, p) is Ok {
        let e = spec_hyphen_word(s, p)->Ok_0.end;
        lemma_fit_content_bounds(s, e);
        lemma_lp_bounds(s, e);
    }
}

/// A successful object-fit parse moves strictly forward.
pub proof fn lemma_object_fit_bounds(s: Seq<char>, p: int)
    requires
        0 <= p <= s.len(),
    ensures
        ObjectFit::spec_parse(s, p) is Ok ==> p < ObjectFit::spec_parse(s, p)->Ok_0.1 <= s.len(),
{
    lemma_hw_advances(s, p);
    if spec_hyphen_word(s, p) is Ok {
        let e = spec_hyphen_word(s, p)->Ok_0.end;
        lemma_hw_advances(s, e);
    }
}

/// A successful hex color parse stays within the input past the `#`.
pub proof fn lemma_hex_color_bounds(s: Seq<char>, h: int)
    requires
        0 <= h <= s.len(),
    ensures
        spec_hex_color(s, h) is Ok ==> h <= spec_hex_color(s, h)->Ok_0.1 <= s.len(),
{
    lemma_ident_end(s, h);
    if h < s.len() && s[h] == '"' {
        lemma_find_char(s, h + 1, '"');
    }
}

/// A successful `hsl`/`hsla` component list moves strictly forward.
pub proof fn lemma_hsl_bounds(s: Seq<char>, p: int, with_alpha: bool)
    requires
        0 <= p <= s.len(),
    ensures
        spec_hsl_color(s, p, with_alpha) is Ok ==> p < spec_hsl_color(s, p, with_alpha)->Ok_0.1
            <= s.len(),
{
    lemma_expect_bounds(s, p, '(', "expected parentheses"@);
    let r0 = spec_expect_char(s, p, '(', "expected parentheses"@);
    if r0 is Ok {
        let q0 = r0->Ok_0;
        lemma_number_bounds(s, q0);
        let r1 = spec_number(s, q0);
        if r1 is Ok {
            let e1 = r1->Ok_0.end;
            lemma_expect_bounds(s, e1, ',', "expected `,`"@);
            let rc1 = spec_expect_char(s, e1, ',', "expected `,`"@);
            if rc1 is Ok {
                let q1 = rc1->Ok_0;
                lemma_number_bounds(s, q1);
                let r2 = spec_number(s, q1);
                if r2 is Ok {
                    let e2 = r2->Ok_0.end;
                    lemma_expect_bounds(s, e2, ',', "expected `,`"@);
                    let rc2 = spec_expect_char(s, e2, ',', "expected `,`"@);
                    if rc2 is Ok {
                        let q2 = rc2->Ok_0;
                        lemma_number_bounds(s, q2);
                        let r3 = spec_number(s, q2);
                        if r3 is Ok {
                            let e3 = r3->Ok_0.end;
                            lemma_skip_ws(s, e3);
                            lemma_expect_bounds(s, e3, ',', "expected `,`"@);
                            let rc3 = spec_expect_char(s, e3, ',', "expected `,`"@);
                            if rc3 is Ok {
                                let q3 = rc3->Ok_0;
                                lemma_number_bounds(s, q3);
                                let r4 = spec_number(s, q3);
                                if r4 is Ok {
                                    lemma_skip_ws(s, r4->Ok_0.end);
                                }
                            }
                        }
                    }
                }
            }
        }
    }
}

/// A successful color parse moves strictly forward.
pub proof fn lemma_color_bounds(s: Seq<char>, p: int)
    requires
        0 <= p <= s.len(),
    ensures
        Color::spec_parse(s, p) is Ok ==> p < Color::spec_parse(s, p)->Ok_0.1 <= s.len(),
{
    lemma_skip_ws(s, p);
    let q = spec_skip_ws(s, p);
    if q < s.len() && s[q] == '#' {
        lemma_hex_color_bounds(s, q + 1);
    } else {
        lemma_hw_advances(s, p);
        if spec_hyphen_word(s, p) is Ok {
            let e = spec_hyphen_word(s, p)->Ok_0.end;
            lemma_hsl_bounds(s, e, false);
            lemma_hsl_bounds(s, e, true);
        }
    }
}

/// A successful border-shorthand round never moves backwards.
pub proof fn lemma_border_step_bounds(s: Seq<char>, p: int, b: Border, fuel: nat)
    requires
        0 <= p <= s.len(),
    ensures
        spec_border_step(s, p, b, fuel) is Ok ==> p <= spec_border_step(s, p, b, fuel)->Ok_0.1
            <= s.len(),
    decreases fuel,
{
    lemma_line_width_bounds(s, p);
    let wres = LineWidth::spec_parse(s, p);
    let p1 = if wres is Ok {
        wres->Ok_0.1
    } else {
        p
    };
    if 0 <= p1 <= s.len() {
        lemma_linestyle_bounds(s, p1);
        let sres = LineStyle::spec_parse(s, p1);
        let p2 = if sres is Ok {
            sres->Ok_0.1
        } else {
            p1
        };
        if 0 <= p2 <= s.len() {
            lemma_color_bounds(s, p2);
            let cres = Color::spec_parse(s, p2);
            let p3 = if cres is Ok {
                cres->Ok_0.1
            } else {
                p2
            };
            if fuel > 0 && 0 <= p3 <= s.len() {
                let b1 = if wres is Ok {
                    Border { line_width: Option::Some(wres->Ok_0.0), ..b }
                } else {
                    b
                };
                let b2 = if sres is Ok {
                    Border { line_style: Option::Some(sres->Ok_0.0), ..b1 }
                } else {
                    b1
                };
                let b3 = if cres is Ok {
                    Border { color: Option::Some(cres->Ok_0.0), ..b2 }
                } else {
                    b2
                };
                lemma_border_step_bounds(s, p3, b3, (fuel - 1) as nat);
            }
        }
    }
}

/// A successful border parse never moves backwards.
pub proof fn lemma_border_bounds(s: Seq<char>, p: int)
    requires
        0 <= p <= s.len(),
    ensures
        Border::spec_parse(s, p) is Ok ==> p <= Border::spec_parse(s, p)->Ok_0.1 <= s.len(),
{
    lemma_border_step_bounds(
        s,
        p,
        Border { line_width: Option::None, line_style: Option::None, color: Option::None },
        3,
    );
}

} // verus!

verus! {

/// A successful dynamic-color parse moves strictly forward.
pub proof fn lemma_dc_bounds(s: Seq<char>, p: int)
    requires
        0 <= p <= s.len(),
    ensures
        DynamicColor::spec_parse(s, p) is Ok ==> p < DynamicColor::spec_parse(s, p)->Ok_0.1
            <= s.len(),
{
    lemma_skip_ws(s, p);
    let q = spec_skip_ws(s, p);
    if q < s.len() && s[q] == '{' {
        lemma_block_end(s, q + 1, 1);
    }
    lemma_color_bounds(s, p);
}

/// A successful `BorderColor` quad parse moves strictly forward.
pub proof fn lemma_bordercolor_bounds(s: Seq<char>, p: int)
    requires
        0 <= p <= s.len(),
    ensures
        BorderColor::spec_parse(s, p) is Ok ==> p < BorderColor::spec_parse(s, p)->Ok_0.1 <= s.len(),
{
    lemma_color_bounds(s, p);
    let r1 = Color::spec_parse(s, p);
    if r1 is Ok {
        let p1 = r1->Ok_0.1;
        lemma_color_bounds(s, p1);
        let r2 = Color::spec_parse(s, p1);
        if r2 is Ok {
            let p2 = r2->Ok_0.1;
            lemma_color_bounds(s, p2);
            let r3 = Color::spec_parse(s, p2);
            if r3 is Ok {
                let p3 = r3->Ok_0.1;
                lemma_color_bounds(s, p3);
            }
        }
    }
}

/// A successful `BorderStyle` quad parse moves strictly forward.
pub proof fn lemma_borderstyle_bounds(s: Seq<char>, p: int)
    requires
        0 <= p <= s.len(),
    ensures
        BorderStyle::spec_parse(s, p) is Ok ==> p < BorderStyle::spec_parse(s, p)->Ok_0.1 <= s.len(),
{
    lemma_linestyle_bounds(s, p);
    let r1 = LineStyle::spec_parse(s, p);
    if r1 is Ok {
        let p1 = r1->Ok_0.1;
        lemma_linestyle_bounds(s, p1);
        let r2 = LineStyle::spec_parse(s, p1);
        if r2 is Ok {
            let p2 = r2->Ok_0.1;
            lemma_linestyle_bounds(s, p2);
            let r3 = LineStyle::spec_parse(s, p2);
            if r3 is Ok {
                let p3 = r3->Ok_0.1;
                lemma_linestyle_bounds(s, p3);
            }
        }
    }
}

/// A successful `BorderWidth` quad parse moves strictly forward.
pub proof fn lemma_borderwidth_bounds(s: Seq<char>, p: int)
    requires
        0 <= p <= s.len(),
    ensures
        BorderWidth::spec_parse(s, p) is Ok ==> p < BorderWidth::spec_parse(s, p)->Ok_0.1 <= s.len(),
{
    lemma_line_width_bounds(s, p);
    let r1 = LineWidth::spec_parse(s, p);
    if r1 is Ok {
        let p1 = r1->Ok_0.1;
        lemma_line_width_bounds(s, p1);
        let r2 = LineWidth::spec_parse(s, p1);
        if r2 is Ok {
            let p2 = r2->Ok_0.1;
            lemma_line_width_bounds(s, p2);
            let r3 = LineWidth::spec_parse(s, p2);
            if r3 is Ok {
                let p3 = r3->Ok_0.1;
                lemma_line_width_bounds(s, p3);
            }
        }
    }
}

/// A successful `Margin` quad parse moves strictly forward.
pub proof fn lemma_margin_bounds(s: Seq<char>, p: int)
    requires
        0 <= p <= s.len(),
    ensures
        Margin::spec_parse(s, p) is Ok ==> p < Margin::spec_parse(s, p)->Ok_0.1 <= s.len(),
{
    lemma_margin_width_bounds(s, p);
    let r1 = MarginWidth::spec_parse(s, p);
    if r1 is Ok {
        let p1 = r1->Ok_0.1;
        lemma_margin_width_bounds(s, p1);
        let r2 = MarginWidth::spec_parse(s, p1);
        if r2 is Ok {
            let p2 = r2->Ok_0.1;
            lemma_margin_width_bounds(s, p2);
            let r3 = MarginWidth::spec_parse(s, p2);
            if r3 is Ok {
                let p3 = r3->Ok_0.1;
                lemma_margin_width_bounds(s, p3);
            }
        }
    }
}

/// A successful `Padding` quad parse moves strictly forward.
pub proof fn lemma_padding_bounds(s: Seq<char>, p: int)
    requires
        0 <= p <= s.len(),
    ensures
        Padding::spec_parse(s, p) is Ok ==> p < Padding::spec_parse(s, p)->Ok_0.1 <= s.len(),
{
    lemma_lp_bounds(s, p);
    let r1 = LengthPercentage::spec_parse(s, p);
    if r1 is Ok {
        let p1 = r1->Ok_0.1;
        lemma_lp_bounds(s, p1);
        let r2 = LengthPercentage::spec_parse(s, p1);
        if r2 is Ok {
            let p2 = r2->Ok_0.1;
            lemma_lp_bounds(s, p2);
            let r3 = LengthPercentage::spec_parse(s, p2);
            if r3 is Ok {
                let p3 = r3->Ok_0.1;
                lemma_lp_bounds(s, p3);
            }
        }
    }
}


/// A successful dispatch in this group ends within the input, at or after
/// the value's start.
pub proof fn lemma_dispatch1_bounds(s: Seq<char>, q: int, w: Seq<char>)
    requires
        0 <= q <= s.len(),
    ensures
        (spec_dispatch1(s, q, w) is Some && spec_dispatch1(s, q, w)->0 is Ok) ==> q
            <= spec_dispatch1(s, q, w)->0->Ok_0.1 <= s.len(),
{
    lemma_alignitems_bounds(s, q);
    lemma_dc_bounds(s, q);
    lemma_border_bounds(s, q);
    lemma_color_bounds(s, q);
    lemma_linestyle_bounds(s, q);
    lemma_line_width_bounds(s, q);
    lemma_bordercolor_bounds(s, q);
    lemma_color_bounds(s, q);
    lemma_linestyle_bounds(s, q);
    lemma_line_width_bounds(s, q);
    lemma_color_bounds(s, q);
    lemma_linestyle_bounds(s, q);
    lemma_line_width_bounds(s, q);
}

/// A successful dispatch in this group ends within the input, at or after
/// the value's start.
pub proof fn lemma_dispatch2_bounds(s: Seq<char>, q: int, w: Seq<char>)
    requires
        0 <= q <= s.len(),
    ensures
        (spec_dispatch2(s, q, w) is Some && spec_dispatch2(s, q, w)->0 is Ok) ==> q
            <= spec_dispatch2(s, q, w)->0->Ok_0.1 <= s.len(),
{
    lemma_borderstyle_bounds(s, q);
    lemma_color_bounds(s, q);
    lemma_linestyle_bounds(s, q);
    lemma_line_width_bounds(s, q);
    lemma_borderwidth_bounds(s, q);
    lemma_boxsizing_bounds(s, q);
    lemma_dc_bounds(s, q);
    lemma_cursor_bounds(s, q);
    lemma_display_bounds(s, q);
    lemma_flex_basis_bounds(s, q);
    lemma_flexdirection_bounds(s, q);
    lemma_number_bounds(s, q);
    lemma_number_bounds(s, q);
}

/// A successful dispatch in this group ends within the input, at or after
/// the value's start.
pub proof fn lemma_dispatch3_bounds(s: Seq<char>, q: int, w: Seq<char>)
    requires
        0 <= q <= s.len(),
    ensures
        (spec_dispatch3(s, q, w) is Some && spec_dispatch3(s, q, w)->0 is Ok) ==> q
            <= spec_dispatch3(s, q, w)->0->Ok_0.1 <= s.len(),
{
    lemma_flexwrap_bounds(s, q);
    lemma_skip_ws(s, q);
    if spec_skip_ws(s, q) + 1 <= s.len() {
        lemma_find_char(s, spec_skip_ws(s, q) + 1, '"');
    }
    lemma_font_size_bounds(s, q);
    lemma_fontstyle_bounds(s, q);
    lemma_font_weight_bounds(s, q);
    lemma_width_height_bounds(s, q);
    lemma_justifycontent_bounds(s, q);
    lemma_liststyletype_bounds(s, q);
    lemma_margin_bounds(s, q);
    lemma_margin_width_bounds(s, q);
    lemma_margin_width_bounds(s, q);
    lemma_margin_width_bounds(s, q);
    lemma_margin_width_bounds(s, q);
}

/// A successful dispatch in this group ends within the input, at or after
/// the value's start.
pub proof fn lemma_dispatch4_bounds(s: Seq<char>, q: int, w: Seq<char>)
    requires
        0 <= q <= s.len(),
    ensures
        (spec_dispatch4(s, q, w) is Some && spec_dispatch4(s, q, w)->0 is Ok) ==> q
            <= spec_dispatch4(s, q, w)->0->Ok_0.1 <= s.len(),
{
    lemma_max_width_height_bounds(s, q);
    lemma_max_width_height_bounds(s, q);
    lemma_lp_bounds(s, q);
    lemma_lp_bounds(s, q);
    lemma_object_fit_bounds(s, q);
    lemma_padding_bounds(s, q);
    lemma_lp_bounds(s, q);
    lemma_lp_bounds(s, q);
    lemma_lp_bounds(s, q);
    lemma_lp_bounds(s, q);
    lemma_resize_bounds(s, q);
    lemma_width_height_bounds(s, q);
}


/// A successful property parse moves strictly forward.
pub proof fn lemma_style_bounds(s: Seq<char>, p: int)
    requires
        0 <= p <= s.len(),
    ensures
        Style::spec_parse(s, p) is Ok ==> p < Style::spec_parse(s, p)->Ok_0.1 <= s.len(),
{
    lemma_hw_advances(s, p);
    if spec_hyphen_word(s, p) is Ok {
        let hw = spec_hyphen_word(s, p)->Ok_0;
        lemma_expect_bounds(s, hw.end, ':', "expected `:`"@);
        let rc = spec_expect_char(s, hw.end, ':', "expected `:`"@);
        if rc is Ok {
            let q = rc->Ok_0;
            if hw.word is Some {
                let w = hw.word->0;
                lemma_dispatch1_bounds(s, q, w);
                lemma_dispatch2_bounds(s, q, w);
                lemma_dispatch3_bounds(s, q, w);
                lemma_dispatch4_bounds(s, q, w);
            }
        }
    }
}

} // verus!

verus! {

/// A successful dynamic-style parse moves strictly forward.
pub proof fn lemma_dynamic_style_bounds(s: Seq<char>, p: int)
    requires
        0 <= p <= s.len(),
    ensures
        crate::styles::DynamicStyle::spec_parse(s, p) is Ok ==> p
            < crate::styles::DynamicStyle::spec_parse(s, p)->Ok_0.1 <= s.len(),
{
    lemma_skip_ws(s, p);
    let q = spec_skip_ws(s, p);
    if q < s.len() && s[q] == '{' {
        lemma_block_end(s, q + 1, 1);
    }
    lemma_style_bounds(s, p);
}

} // verus!
