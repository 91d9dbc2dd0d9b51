//! Laws of the library, stated and proved at the specification level.

use vstd::prelude::*;
use crate::color::Color;
use crate::num::{pow10, lemma_pow10_pos, Num};
use crate::property::Style;
use crate::rgb::{chan_byte, hsl_channels, hsl_to_rgb_spec, quant, SF};
use crate::styles::css_styles;
use crate::diag::{lemma_insert_contains, lemma_insert_preserves, quoted, spec_insert};

verus! {

/// Zero saturation is achromatic: converting `hsl(h, 0%, l%)` to RGB gives
/// equal red, green and blue channels, whatever the hue.
pub proof fn lemma_achromatic(h: Num, sat: Num, l: Num)
    requires
        sat.mantissa == 0,
    ensures
        ({
            let c = Color::HSL(h, sat, l).to_rgb_spec();
            c is HexRGB && c->HexRGB_0 == c->HexRGB_1 && c->HexRGB_1 == c->HexRGB_2
        }),
{
    lemma_pow10_pos(sat.scale as nat);
    assert((0 as nat) * ((SF / 100) as nat) == 0) by (nonlinear_arith);
    vstd::arithmetic::div_mod::lemma_div_basics_1(pow10(sat.scale as nat) as int);
    let af = quant(sat.mantissa as nat, sat.scale as nat, (SF / 100) as nat) as int;
    assert(af == 0);
    let hf = quant(h.mantissa as nat, h.scale as nat, SF as nat) as int;
    let lf = quant(l.mantissa as nat, l.scale as nat, (SF / 100) as nat) as int;
    let sf = SF as int;
    let ab = if 2 * lf >= sf {
        2 * lf - sf
    } else {
        sf - 2 * lf
    };
    assert((sf - ab) * 0 == 0) by (nonlinear_arith);
    let r = hf % (120 * sf);
    let w = 60 * sf - (if r >= 60 * sf {
        r - 60 * sf
    } else {
        60 * sf - r
    });
    assert((0 as int) * 120 * sf == 0) by (nonlinear_arith);
    assert((0 as int) * w * 2 == 0) by (nonlinear_arith);
    assert((0 as int) * 60 * sf == 0) by (nonlinear_arith);
    assert(hsl_channels(hf, 0, lf).0 == hsl_channels(hf, 0, lf).1);
    assert(hsl_channels(hf, 0, lf).1 == hsl_channels(hf, 0, lf).2);
}

/// A `Dummy` entry never shows: a property list with a `Dummy` inserted
/// anywhere serializes to exactly the text of the list without it.
pub proof fn lemma_dummy_filtered(ss: Seq<Style>, i: int)
    requires
        0 <= i <= ss.len(),
    ensures
        css_styles(ss.insert(i, Style::Dummy)) == css_styles(ss),
    decreases i,
{
    let t = ss.insert(i, Style::Dummy);
    if i == 0 {
        assert(t[0] == Style::Dummy);
        assert(t.drop_first() =~= ss);
        assert(css_styles(t) == Seq::<char>::empty() + css_styles(ss));
        assert(Seq::<char>::empty() + css_styles(ss) =~= css_styles(ss));
    } else {
        assert(t[0] == ss[0]);
        assert(t.drop_first() =~= ss.drop_first().insert(i - 1, Style::Dummy));
        lemma_dummy_filtered(ss.drop_first(), i - 1);
    }
}

} // verus!

verus! {

/// An unknown property name is reported with every name the dispatch
/// attempted: the diagnostic's candidate set holds the no-op `dummy` and
/// every supported property name, and the message is exactly `expected one
/// of` followed by that set, ordered and comma-separated.
#[verifier::rlimit(100)]
pub proof fn lemma_unknown_property_lists_all_names()
    ensures
        Style::fail(0).msg == "expected one of "@ + crate::diag::spec_join(Style::tried()),
        Style::tried().contains(quoted("dummy"@)),
        Style::tried().contains(quoted("align-items"@)),
        Style::tried().contains(quoted("background-color"@)),
        Style::tried().contains(quoted("border"@)),
        Style::tried().contains(quoted("border-bottom-color"@)),
        Style::tried().contains(quoted("border-bottom-style"@)),
        Style::tried().contains(quoted("border-bottom-width"@)),
        Style::tried().contains(quoted("border-color"@)),
        Style::tried().contains(quoted("border-left-color"@)),
        Style::tried().contains(quoted("border-left-style"@)),
        Style::tried().contains(quoted("border-left-width"@)),
        Style::tried().contains(quoted("border-right-color"@)),
        Style::tried().contains(quoted("border-right-style"@)),
        Style::tried().contains(quoted("border-right-width"@)),
        Style::tried().contains(quoted("border-style"@)),
        Style::tried().contains(quoted("border-top-color"@)),
        Style::tried().contains(quoted("border-top-style"@)),
        Style::tried().contains(quoted("border-top-width"@)),
        Style::tried().contains(quoted("border-width"@)),
        Style::tried().contains(quoted("box-sizing"@)),
        Style::tried().contains(quoted("color"@)),
        Style::tried().contains(quoted("cursor"@)),
        Style::tried().contains(quoted("display"@)),
        Style::tried().contains(quoted("flex-basis"@)),
        Style::tried().contains(quoted("flex-direction"@)),
        Style::tried().contains(quoted("flex-grow"@)),
        Style::tried().contains(quoted("flex-shrink"@)),
        Style::tried().contains(quoted("flex-wrap"@)),
        Style::tried().contains(quoted("font-family"@)),
        Style::tried().contains(quoted("font-size"@)),
        Style::tried().contains(quoted("font-style"@)),
        Style::tried().contains(quoted("font-weight"@)),
        Style::tried().contains(quoted("height"@)),
        Style::tried().contains(quoted("justify-content"@)),
        Style::tried().contains(quoted("list-style-type"@)),
        Style::tried().contains(quoted("margin"@)),
        Style::tried().contains(quoted("margin-bottom"@)),
        Style::tried().contains(quoted("margin-left"@)),
        Style::tried().contains(quoted("margin-right"@)),
        Style::tried().contains(quoted("margin-top"@)),
        Style::tried().contains(quoted("max-height"@)),
        Style::tried().contains(quoted("max-width"@)),
        Style::tried().contains(quoted("min-height"@)),
        Style::tried().contains(quoted("min-width"@)),
        Style::tried().contains(quoted("object-fit"@)),
        Style::tried().contains(quoted("padding"@)),
        Style::tried().contains(quoted("padding-bottom"@)),
        Style::tried().contains(quoted("padding-left"@)),
        Style::tried().contains(quoted("padding-right"@)),
        Style::tried().contains(quoted("padding-top"@)),
        Style::tried().contains(quoted("resize"@)),
        Style::tried().contains(quoted("width"@)),
{
    let t0 = spec_insert(Seq::<Seq<char>>::empty(), quoted("dummy"@));
    lemma_insert_contains(Seq::<Seq<char>>::empty(), quoted("dummy"@), quoted("dummy"@));
    lemma_insert_preserves(t0, quoted("align-items"@));
    lemma_insert_contains(t0, quoted("align-items"@), quoted("align-items"@));
    let t1 = spec_insert(t0, quoted("align-items"@));
    lemma_insert_preserves(t1, quoted("background-color"@));
    lemma_insert_contains(t1, quoted("background-color"@), quoted("background-color"@));
    let t2 = spec_insert(t1, quoted("background-color"@));
    lemma_insert_preserves(t2, quoted("border"@));
    lemma_insert_contains(t2, quoted("border"@), quoted("border"@));
    let t3 = spec_insert(t2, quoted("border"@));
    lemma_insert_preserves(t3, quoted("border-bottom-color"@));
    lemma_insert_contains(t3, quoted("border-bottom-color"@), quoted("border-bottom-color"@));
    let t4 = spec_insert(t3, quoted("border-bottom-color"@));
    lemma_insert_preserves(t4, quoted("border-bottom-style"@));
    lemma_insert_contains(t4, quoted("border-bottom-style"@), quoted("border-bottom-style"@));
    let t5 = spec_insert(t4, quoted("border-bottom-style"@));
    lemma_insert_preserves(t5, quoted("border-bottom-width"@));
    lemma_insert_contains(t5, quoted("border-bottom-width"@), quoted("border-bottom-width"@));
    let t6 = spec_insert(t5, quoted("border-bottom-width"@));
    lemma_insert_preserves(t6, quoted("border-color"@));
    lemma_insert_contains(t6, quoted("border-color"@), quoted("border-color"@));
    let t7 = spec_insert(t6, quoted("border-color"@));
    lemma_insert_preserves(t7, quoted("border-left-color"@));
    lemma_insert_contains(t7, quoted("border-left-color"@), quoted("border-left-color"@));
    let t8 = spec_insert(t7, quoted("border-left-color"@));
    lemma_insert_preserves(t8, quoted("border-left-style"@));
    lemma_insert_contains(t8, quoted("border-left-style"@), quoted("border-left-style"@));
    let t9 = spec_insert(t8, quoted("border-left-style"@));
    lemma_insert_preserves(t9, quoted("border-left-width"@));
    lemma_insert_contains(t9, quoted("border-left-width"@), quoted("border-left-width"@));
    let t10 = spec_insert(t9, quoted("border-left-width"@));
    lemma_insert_preserves(t10, quoted("border-right-color"@));
    lemma_insert_contains(t10, quoted("border-right-color"@), quoted("border-right-color"@));
    let t11 = spec_insert(t10, quoted("border-right-color"@));
    lemma_insert_preserves(t11, quoted("border-right-style"@));
    lemma_insert_contains(t11, quoted("border-right-style"@), quoted("border-right-style"@));
    let t12 = spec_insert(t11, quoted("border-right-style"@));
    lemma_insert_preserves(t12, quoted("border-right-width"@));
    lemma_insert_contains(t12, quoted("border-right-width"@), quoted("border-right-width"@));
    let t13 = spec_insert(t12, quoted("border-right-width"@));
    lemma_insert_preserves(t13, quoted("border-style"@));
    lemma_insert_contains(t13, quoted("border-style"@), quoted("border-style"@));
    let t14 = spec_insert(t13, quoted("border-style"@));
    lemma_insert_preserves(t14, quoted("border-top-color"@));
    lemma_insert_contains(t14, quoted("border-top-color"@), quoted("border-top-color"@));
    let t15 = spec_insert(t14, quoted("border-top-color"@));
    lemma_insert_preserves(t15, quoted("border-top-style"@));
    lemma_insert_contains(t15, quoted("border-top-style"@), quoted("border-top-style"@));
    let t16 = spec_insert(t15, quoted("border-top-style"@));
    lemma_insert_preserves(t16, quoted("border-top-width"@));
    lemma_insert_contains(t16, quoted("border-top-width"@), quoted("border-top-width"@));
    let t17 = spec_insert(t16, quoted("border-top-width"@));
    lemma_insert_preserves(t17, quoted("border-width"@));
    lemma_insert_contains(t17, quoted("border-width"@), quoted("border-width"@));
    let t18 = spec_insert(t17, quoted("border-width"@));
    lemma_insert_preserves(t18, quoted("box-sizing"@));
    lemma_insert_contains(t18, quoted("box-sizing"@), quoted("box-sizing"@));
    let t19 = spec_insert(t18, quoted("box-sizing"@));
    lemma_insert_preserves(t19, quoted("color"@));
    lemma_insert_contains(t19, quoted("color"@), quoted("color"@));
    let t20 = spec_insert(t19, quoted("color"@));
    lemma_insert_preserves(t20, quoted("cursor"@));
    lemma_insert_contains(t20, quoted("cursor"@), quoted("cursor"@));
    let t21 = spec_insert(t20, quoted("cursor"@));
    lemma_insert_preserves(t21, quoted("display"@));
    lemma_insert_contains(t21, quoted("display"@), quoted("display"@));
    let t22 = spec_insert(t21, quoted("display"@));
    lemma_insert_preserves(t22, quoted("flex-basis"@));
    lemma_insert_contains(t22, quoted("flex-basis"@), quoted("flex-basis"@));
    let t23 = spec_insert(t22, quoted("flex-basis"@));
    lemma_insert_preserves(t23, quoted("flex-direction"@));
    lemma_insert_contains(t23, quoted("flex-direction"@), quoted("flex-direction"@));
    let t24 = spec_insert(t23, quoted("flex-direction"@));
    lemma_insert_preserves(t24, quoted("flex-grow"@));
    lemma_insert_contains(t24, quoted("flex-grow"@), quoted("flex-grow"@));
    let t25 = spec_insert(t24, quoted("flex-grow"@));
    lemma_insert_preserves(t25, quoted("flex-shrink"@));
    lemma_insert_contains(t25, quoted("flex-shrink"@), quoted("flex-shrink"@));
    let t26 = spec_insert(t25, quoted("flex-shrink"@));
    lemma_insert_preserves(t26, quoted("flex-wrap"@));
    lemma_insert_contains(t26, quoted("flex-wrap"@), quoted("flex-wrap"@));
    let t27 = spec_insert(t26, quoted("flex-wrap"@));
    lemma_insert_preserves(t27, quoted("font-family"@));
    lemma_insert_contains(t27, quoted("font-family"@), quoted("font-family"@));
    let t28 = spec_insert(t27, quoted("font-family"@));
    lemma_insert_preserves(t28, quoted("font-size"@));
    lemma_insert_contains(t28, quoted("font-size"@), quoted("font-size"@));
    let t29 = spec_insert(t28, quoted("font-size"@));
    lemma_insert_preserves(t29, quoted("font-style"@));
    lemma_insert_contains(t29, quoted("font-style"@), quoted("font-style"@));
    let t30 = spec_insert(t29, quoted("font-style"@));
    lemma_insert_preserves(t30, quoted("font-weight"@));
    lemma_insert_contains(t30, quoted("font-weight"@), quoted("font-weight"@));
    let t31 = spec_insert(t30, quoted("font-weight"@));
    lemma_insert_preserves(t31, quoted("height"@));
    lemma_insert_contains(t31, quoted("height"@), quoted("height"@));
    let t32 = spec_insert(t31, quoted("height"@));
    lemma_insert_preserves(t32, quoted("justify-content"@));
    lemma_insert_contains(t32, quoted("justify-content"@), quoted("justify-content"@));
    let t33 = spec_insert(t32, quoted("justify-content"@));
    lemma_insert_preserves(t33, quoted("list-style-type"@));
    lemma_insert_contains(t33, quoted("list-style-type"@), quoted("list-style-type"@));
    let t34 = spec_insert(t33, quoted("list-style-type"@));
    lemma_insert_preserves(t34, quoted("margin"@));
    lemma_insert_contains(t34, quoted("margin"@), quoted("margin"@));
    let t35 = spec_insert(t34, quoted("margin"@));
    lemma_insert_preserves(t35, quoted("margin-bottom"@));
    lemma_insert_contains(t35, quoted("margin-bottom"@), quoted("margin-bottom"@));
    let t36 = spec_insert(t35, quoted("margin-bottom"@));
    lemma_insert_preserves(t36, quoted("margin-left"@));
    lemma_insert_contains(t36, quoted("margin-left"@), quoted("margin-left"@));
    let t37 = spec_insert(t36, quoted("margin-left"@));
    lemma_insert_preserves(t37, quoted("margin-right"@));
    lemma_insert_contains(t37, quoted("margin-right"@), quoted("margin-right"@));
    let t38 = spec_insert(t37, quoted("margin-right"@));
    lemma_insert_preserves(t38, quoted("margin-top"@));
    lemma_insert_contains(t38, quoted("margin-top"@), quoted("margin-top"@));
    let t39 = spec_insert(t38, quoted("margin-top"@));
    lemma_insert_preserves(t39, quoted("max-height"@));
    lemma_insert_contains(t39, quoted("max-height"@), quoted("max-height"@));
    let t40 = spec_insert(t39, quoted("max-height"@));
    lemma_insert_preserves(t40, quoted("max-width"@));
    lemma_insert_contains(t40, quoted("max-width"@), quoted("max-width"@));
    let t41 = spec_insert(t40, quoted("max-width"@));
    lemma_insert_preserves(t41, quoted("min-height"@));
    lemma_insert_contains(t41, quoted("min-height"@), quoted("min-height"@));
    let t42 = spec_insert(t41, quoted("min-height"@));
    lemma_insert_preserves(t42, quoted("min-width"@));
    lemma_insert_contains(t42, quoted("min-width"@), quoted("min-width"@));
    let t43 = spec_insert(t42, quoted("min-width"@));
    lemma_insert_preserves(t43, quoted("object-fit"@));
    lemma_insert_contains(t43, quoted("object-fit"@), quoted("object-fit"@));
    let t44 = spec_insert(t43, quoted("object-fit"@));
    lemma_insert_preserves(t44, quoted("padding"@));
    lemma_insert_contains(t44, quoted("padding"@), quoted("padding"@));
    let t45 = spec_insert(t44, quoted("padding"@));
    lemma_insert_preserves(t45, quoted("padding-bottom"@));
    lemma_insert_contains(t45, quoted("padding-bottom"@), quoted("padding-bottom"@));
    let t46 = spec_insert(t45, quoted("padding-bottom"@));
    lemma_insert_preserves(t46, quoted("padding-left"@));
    lemma_insert_contains(t46, quoted("padding-left"@), quoted("padding-left"@));
    let t47 = spec_insert(t46, quoted("padding-left"@));
    lemma_insert_preserves(t47, quoted("padding-right"@));
    lemma_insert_contains(t47, quoted("padding-right"@), quoted("padding-right"@));
    let t48 = spec_insert(t47, quoted("padding-right"@));
    lemma_insert_preserves(t48, quoted("padding-top"@));
    lemma_insert_contains(t48, quoted("padding-top"@), quoted("padding-top"@));
    let t49 = spec_insert(t48, quoted("padding-top"@));
    lemma_insert_preserves(t49, quoted("resize"@));
    lemma_insert_contains(t49, quoted("resize"@), quoted("resize"@));
    let t50 = spec_insert(t49, quoted("resize"@));
    lemma_insert_preserves(t50, quoted("width"@));
    lemma_insert_contains(t50, quoted("width"@), quoted("width"@));
    let t51 = spec_insert(t50, quoted("width"@));
    assert(Style::tried() == t51);
}

} // verus!
