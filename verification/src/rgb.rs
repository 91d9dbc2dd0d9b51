//! Normalizing a color to `HexRGB`.
//!
//! HSL values convert through the standard hue-sector algorithm: with
//! `s` and `l` as fractions of one, chroma is `c = (1 - |2l - 1|) * s`, the
//! secondary component is `x = c * (1 - |((h / 60) mod 2) - 1|)`, the match
//! is `m = l - c/2`, the sector of `h` picks `(r', g', b')` from `c`, `x`
//! and `0`, and each channel is `(chan + m) * 255`, truncated to an integer.
//!
//! The computation here is exact integer arithmetic: hue, saturation and
//! lightness are first truncated to multiples of `10^-7` (hue in degrees,
//! saturation and lightness as fractions of one), and everything after that
//! is evaluated without rounding over the common denominator `120 * 10^21`.

use vstd::prelude::*;
use crate::color::Color;
use crate::num::{lemma_floor_cmp, lemma_pow10_pos, pow10, Num};

verus! {

/// The fixed-point unit: values are counted in multiples of `1 / SF`.
pub const SF: u64 = 10000000;

/// `(m * mult) / 10^scale`, the fixed-point truncation of `m / 10^scale`
/// scaled by `mult`.
pub open spec fn quant(m: nat, scale: nat, mult: nat) -> nat {
    (m * mult) / pow10(scale)
}

/// The three channel numerators over the denominator `120 * SF^3`, before
/// scaling by 255: sector selection of chroma, secondary and zero, plus the
/// lightness match.
pub open spec fn hsl_channels(h: int, a: int, l: int) -> (int, int, int) {
    let sf = SF as int;
    let ab = if 2 * l >= sf {
        2 * l - sf
    } else {
        sf - 2 * l
    };
    let c2 = (sf - ab) * a;
    let r = h % (120 * sf);
    let w = 60 * sf - (if r >= 60 * sf {
        r - 60 * sf
    } else {
        60 * sf - r
    });
    let cd = c2 * 120 * sf;
    let xd = c2 * w * 2;
    let md = l * 120 * sf * sf - c2 * 60 * sf;
    if h < 60 * sf {
        (cd + md, xd + md, md)
    } else if h < 120 * sf {
        (xd + md, cd + md, md)
    } else if h < 180 * sf {
        (md, cd + md, xd + md)
    } else if h < 240 * sf {
        (md, xd + md, cd + md)
    } else if h < 300 * sf {
        (xd + md, md, cd + md)
    } else {
        (cd + md, md, xd + md)
    }
}

/// One channel numerator scaled to a byte: `(v * 255) / (120 * SF^3)`.
pub open spec fn chan_byte(v: int) -> int {
    (v * 255) / (120 * (SF as int) * (SF as int) * (SF as int))
}

/// The byte channels of an HSL color: hue quantized to `1/SF` degrees,
/// saturation and lightness to `1/SF` of one, then the sector algorithm.
pub open spec fn hsl_to_rgb_spec(h: Num, s: Num, l: Num) -> (int, int, int) {
    let hf = quant(h.mantissa as nat, h.scale as nat, SF as nat) as int;
    let af = quant(s.mantissa as nat, s.scale as nat, (SF / 100) as nat) as int;
    let lf = quant(l.mantissa as nat, l.scale as nat, (SF / 100) as nat) as int;
    let c = hsl_channels(hf, af, lf);
    (chan_byte(c.0), chan_byte(c.1), chan_byte(c.2))
}

impl Color {
    /// Validity: HSL(A) components lie in their documented ranges
    /// (`0 <= h < 360`, `0 <= s, l <= 100`, `0 <= a <= 1`) and are
    /// normalized.  Hex and named colors are always valid.
    pub open spec fn wf(self) -> bool {
        match self {
            Color::HSL(h, s, l) => h.wf() && s.wf() && l.wf() && h.val_lt_int(360)
                && s.val_le_int(100) && l.val_le_int(100),
            Color::HSLA(h, s, l, a) => h.wf() && s.wf() && l.wf() && a.wf() && h.val_lt_int(360)
                && s.val_le_int(100) && l.val_le_int(100) && a.val_le_int(1),
            _ => true,
        }
    }
}

/// Computes [`quant`], dividing by ten once per scale step.
fn quant_exec(m: u64, scale: u32, mult: u64) -> (r: u128)
    ensures
        r as nat == quant(m as nat, scale as nat, mult as nat),
{
    proof {
        assert((m as nat) * (mult as nat) < 340282366920938463463374607431768211455)
            by (nonlinear_arith)
            requires
                m as nat <= 18446744073709551615,
                mult as nat <= 18446744073709551615,
        ;
    }
    let mut y: u128 = (m as u128) * (mult as u128);
    let mut i: u32 = 0;
    proof {
        lemma_pow10_pos(scale as nat);
        vstd::arithmetic::div_mod::lemma_div_basics_2((m as nat * mult as nat) as int);
    }
    while i < scale
        invariant
            i <= scale,
            y as nat == (m as nat * mult as nat) / pow10(i as nat),
        decreases scale - i,
    {
        proof {
            lemma_pow10_pos(i as nat);
            vstd::arithmetic::div_mod::lemma_div_denominator(
                (m as nat * mult as nat) as int,
                pow10(i as nat) as int,
                10,
            );
        }
        y = y / 10;
        i = i + 1;
    }
    y
}

/// A quantized component is bounded by its bound times the multiplier.
proof fn lemma_quant_bound(m: nat, scale: nat, mult: nat, k: nat)
    requires
        m <= k * pow10(scale),
        mult >= 1,
    ensures
        quant(m, scale, mult) <= k * mult,
        m < k * pow10(scale) ==> quant(m, scale, mult) < k * mult,
{
    let p = pow10(scale);
    lemma_pow10_pos(scale);
    assert(m * mult <= (k * p) * mult) by (nonlinear_arith)
        requires
            m <= k * p,
            mult >= 1,
    ;
    assert((k * p) * mult == (k * mult) * p) by (nonlinear_arith);
    lemma_floor_cmp(m * mult, p, k * mult + 1);
    lemma_floor_cmp(m * mult, p, k * mult);
    assert((k * mult + 1) * p == (k * mult) * p + p) by (nonlinear_arith);
    if m < k * p {
        assert(m * mult < (k * p) * mult) by (nonlinear_arith)
            requires
                m < k * p,
                mult >= 1,
                p >= 1,
        ;
    }
}

/// Computes the byte channels of a valid HSL color exactly.
fn rgb_of_hsl(h: &Num, s: &Num, l: &Num) -> (r: (u8, u8, u8))
    requires
        h.val_lt_int(360),
        s.val_le_int(100),
        l.val_le_int(100),
    ensures
        r.0 as int == hsl_to_rgb_spec(*h, *s, *l).0,
        r.1 as int == hsl_to_rgb_spec(*h, *s, *l).1,
        r.2 as int == hsl_to_rgb_spec(*h, *s, *l).2,
{
    let sf: u128 = SF as u128;
    let hf: u128 = quant_exec(h.mantissa, h.scale, SF);
    let af: u128 = quant_exec(s.mantissa, s.scale, SF / 100);
    let lf: u128 = quant_exec(l.mantissa, l.scale, SF / 100);
    proof {
        lemma_quant_bound(h.mantissa as nat, h.scale as nat, SF as nat, 360);
        lemma_quant_bound(s.mantissa as nat, s.scale as nat, (SF / 100) as nat, 100);
        lemma_quant_bound(l.mantissa as nat, l.scale as nat, (SF / 100) as nat, 100);
    }
    assert(hf < 360 * sf);
    assert(af <= sf);
    assert(lf <= sf);
    let ab: u128 = if 2 * lf >= sf {
        2 * lf - sf
    } else {
        sf - 2 * lf
    };
    assert(ab <= sf);
    assert((sf - ab) * af <= 100000000000000) by (nonlinear_arith)
        requires
            ab <= sf,
            af <= sf,
            sf == 10000000,
    ;
    let c2: u128 = (sf - ab) * af;
    let rr: u128 = hf % (120 * sf);
    assert(rr < 120 * sf);
    let w: u128 = 60 * sf - (if rr >= 60 * sf {
        rr - 60 * sf
    } else {
        60 * sf - rr
    });
    assert(w <= 60 * sf);
    assert(c2 * 120 <= 12000000000000000) by (nonlinear_arith)
        requires
            c2 <= 100000000000000,
    ;
    let cd: u128 = c2 * 120 * sf;
    assert(c2 * w <= 60000000000000000000000) by (nonlinear_arith)
        requires
            c2 <= 100000000000000,
            w <= 600000000,
    ;
    let xd: u128 = c2 * w * 2;
    assert(lf * 120 <= 1200000000) by (nonlinear_arith)
        requires
            lf <= 10000000,
    ;
    assert(lf * 120 * sf <= 12000000000000000) by (nonlinear_arith)
        requires
            lf * 120 <= 1200000000,
            sf == 10000000,
            lf >= 0,
    ;
    let lm: u128 = lf * 120 * sf * sf;
    assert(c2 * 60 <= 6000000000000000) by (nonlinear_arith)
        requires
            c2 <= 100000000000000,
    ;
    let cs: u128 = c2 * 60 * sf;
    // The match `m = l - c/2` is nonnegative: chroma never exceeds twice
    // the distance of the lightness from either end.
    assert(c2 <= 2 * lf * sf) by (nonlinear_arith)
        requires
            c2 == (sf - ab) * af,
            ab == (if 2 * lf >= sf {
                2 * lf - sf
            } else {
                sf - 2 * lf
            }),
            af <= sf,
            lf >= 0,
            sf == 10000000,
    ;
    assert(cs <= lm) by (nonlinear_arith)
        requires
            cs == c2 * 60 * sf,
            lm == lf * 120 * sf * sf,
            c2 <= 2 * lf * sf,
            sf == 10000000,
            lf >= 0,
    ;
    let md: u128 = lm - cs;
    // `c/2 + m = c/2 + l - c/2 <= 1` over the common denominator.
    let d: u128 = 120 * sf * sf * sf;
    assert(cd + md <= d) by (nonlinear_arith)
        requires
            cd == c2 * 120 * sf,
            md == lm - cs,
            lm == lf * 120 * sf * sf,
            cs == c2 * 60 * sf,
            c2 == (sf - ab) * af,
            ab == (if 2 * lf >= sf {
                2 * lf - sf
            } else {
                sf - 2 * lf
            }),
            af <= sf,
            lf <= sf,
            d == 120 * sf * sf * sf,
            sf == 10000000,
            af >= 0,
            lf >= 0,
    ;
    assert(xd <= cd) by (nonlinear_arith)
        requires
            xd == c2 * w * 2,
            cd == c2 * 120 * sf,
            w <= 60 * sf,
            c2 >= 0,
            w >= 0,
            sf == 10000000,
    ;
    let (n0, n1, n2): (u128, u128, u128) = if hf < 60 * sf {
        (cd + md, xd + md, md)
    } else if hf < 120 * sf {
        (xd + md, cd + md, md)
    } else if hf < 180 * sf {
        (md, cd + md, xd + md)
    } else if hf < 240 * sf {
        (md, xd + md, cd + md)
    } else if hf < 300 * sf {
        (xd + md, md, cd + md)
    } else {
        (cd + md, md, xd + md)
    };
    assert(n0 <= d && n1 <= d && n2 <= d);
    let b0 = chan_exec(n0, d);
    let b1 = chan_exec(n1, d);
    let b2 = chan_exec(n2, d);
    proof {
        assert(hsl_channels(hf as int, af as int, lf as int).0 == n0 as int);
        assert(hsl_channels(hf as int, af as int, lf as int).1 == n1 as int);
        assert(hsl_channels(hf as int, af as int, lf as int).2 == n2 as int);
    }
    (b0, b1, b2)
}

/// Scales one channel numerator to a byte, as [`chan_byte`].
fn chan_exec(v: u128, d: u128) -> (r: u8)
    requires
        d == 120 * (SF as int) * (SF as int) * (SF as int),
        v <= d,
    ensures
        r as int == chan_byte(v as int),
{
    proof {
        assert(v * 255 <= d * 255) by (nonlinear_arith)
            requires
                v <= d,
        ;
        assert(d * 255 < 340282366920938463463374607431768211455) by (nonlinear_arith)
            requires
                d == 120 * (SF as int) * (SF as int) * (SF as int),
                SF == 10000000,
        ;
        lemma_floor_cmp((v * 255) as nat, d as nat, 256);
        assert(v * 255 < 256 * d) by (nonlinear_arith)
            requires
                v <= d,
                d > 0,
        ;
        vstd::arithmetic::div_mod::lemma_div_pos_is_pos((v * 255) as int, d as int);
    }
    ((v * 255) / d) as u8
}

impl Color {
    /// Normalizes `self` to an RGB form: hex stays, an alpha channel is
    /// dropped, HSL(A) converts by the hue-sector algorithm, and a named
    /// color becomes its table entry.
    pub open spec fn to_rgb_spec(self) -> Color {
        match self {
            Color::HexRGB(r, g, b) => Color::HexRGB(r, g, b),
            Color::HexRGBA(r, g, b, _) => Color::HexRGB(r, g, b),
            Color::HSL(h, s, l) => {
                let c = hsl_to_rgb_spec(h, s, l);
                Color::HexRGB(c.0 as u8, c.1 as u8, c.2 as u8)
            },
            Color::HSLA(h, s, l, _) => {
                let c = hsl_to_rgb_spec(h, s, l);
                Color::HexRGB(c.0 as u8, c.1 as u8, c.2 as u8)
            },
            _ => self.named_rgb(),
        }
    }

    /// Converts to RGB, as [`Color::to_rgb_spec`].
    pub fn to_rgb(self) -> (r: Color)
        requires
            self.wf(),
        ensures
            r == self.to_rgb_spec(),
    {
        match self {
            Color::HexRGB(r, g, b) => Color::HexRGB(r, g, b),
            Color::HexRGBA(r, g, b, _) => Color::HexRGB(r, g, b),
            Color::HSL(h, s, l) => {
                let (cr, cg, cb) = rgb_of_hsl(&h, &s, &l);
                Color::HexRGB(cr, cg, cb)
            },
            Color::HSLA(h, s, l, _) => {
                let (cr, cg, cb) = rgb_of_hsl(&h, &s, &l);
                Color::HexRGB(cr, cg, cb)
            },
            _ => self.named_rgb_exec(),
        }
    }
}

} // verus!

verus! {

impl Color {
    /// The RGB value of a named color (any other form is left unchanged).
    pub open spec fn named_rgb(self) -> Color {
        match self {
            Color::AliceBlue => Color::HexRGB(240, 248, 255),
            Color::AntiqueWhite => Color::HexRGB(250, 235, 215),
            Color::Aqua => Color::HexRGB(0, 255, 255),
            Color::Aquamarine => Color::HexRGB(127, 255, 212),
            Color::Azure => Color::HexRGB(240, 255, 255),
            Color::Beige => Color::HexRGB(245, 245, 220),
            Color::Bisque => Color::HexRGB(255, 228, 196),
            Color::Black => Color::HexRGB(0, 0, 0),
            Color::BlanchedAlmond => Color::HexRGB(255, 235, 205),
            Color::Blue => Color::HexRGB(0, 0, 255),
            Color::BlueViolet => Color::HexRGB(138, 43, 226),
            Color::Brown => Color::HexRGB(165, 42, 42),
            Color::BurlyWood => Color::HexRGB(222, 184, 135),
            Color::CadetBlue => Color::HexRGB(95, 158, 160),
            Color::Chartreuse => Color::HexRGB(127, 255, 0),
            Color::Chocolate => Color::HexRGB(210, 105, 30),
            Color::Coral => Color::HexRGB(255, 127, 80),
            Color::CornflowerBlue => Color::HexRGB(100, 149, 237),
            Color::Cornsilk => Color::HexRGB(255, 248, 220),
            Color::Crimson => Color::HexRGB(220, 20, 60),
            Color::Cyan => Color::HexRGB(0, 255, 255),
            Color::DarkBlue => Color::HexRGB(0, 0, 139),
            Color::DarkCyan => Color::HexRGB(0, 139, 139),
            Color::DarkGoldenrod => Color::HexRGB(184, 134, 11),
            Color::DarkGray => Color::HexRGB(169, 169, 169),
            Color::DarkGreen => Color::HexRGB(0, 100, 0),
            Color::DarkGrey => Color::HexRGB(169, 169, 169),
            Color::DarkKhaki => Color::HexRGB(189, 183, 107),
            Color::DarkMagenta => Color::HexRGB(139, 0, 139),
            Color::DarkOliveGreen => Color::HexRGB(85, 107, 47),
            Color::DarkOrange => Color::HexRGB(255, 140, 0),
            Color::DarkOrchid => Color::HexRGB(153, 50, 204),
            Color::DarkRed => Color::HexRGB(139, 0, 0),
            Color::DarkSalmon => Color::HexRGB(233, 150, 122),
            Color::DarkSeaGreen => Color::HexRGB(143, 188, 143),
            Color::DarkSlateBlue => Color::HexRGB(72, 61, 139),
            Color::DarkSlateGray => Color::HexRGB(47, 79, 79),
            Color::DarkSlateGrey => Color::HexRGB(47, 79, 79),
            Color::DarkTurquoise => Color::HexRGB(0, 206, 209),
            Color::DarkViolet => Color::HexRGB(148, 0, 211),
            Color::DeepPink => Color::HexRGB(255, 20, 147),
            Color::DeepSkyBlue => Color::HexRGB(0, 191, 255),
            Color::DimGray => Color::HexRGB(105, 105, 105),
            Color::DimGrey => Color::HexRGB(105, 105, 105),
            Color::DodgerBlue => Color::HexRGB(30, 144, 255),
            Color::FireBrick => Color::HexRGB(178, 34, 34),
            Color::FloralWhite => Color::HexRGB(255, 250, 240),
            Color::ForestGreen => Color::HexRGB(34, 139, 34),
            Color::Fuchsia => Color::HexRGB(255, 0, 255),
            Color::Gainsboro => Color::HexRGB(220, 220, 220),
            Color::GhostWhite => Color::HexRGB(248, 248, 255),
            Color::Gold => Color::HexRGB(255, 215, 0),
            Color::Goldenrod => Color::HexRGB(218, 165, 32),
            Color::Gray => Color::HexRGB(128, 128, 128),
            Color::Green => Color::HexRGB(0, 128, 0),
            Color::GreenYellow => Color::HexRGB(173, 255, 47),
            Color::Grey => Color::HexRGB(128, 128, 128),
            Color::Honeydew => Color::HexRGB(240, 255, 240),
            Color::HotPink => Color::HexRGB(255, 105, 180),
            Color::IndianRed => Color::HexRGB(205, 92, 92),
            Color::Indigo => Color::HexRGB(75, 0, 130),
            Color::Ivory => Color::HexRGB(255, 255, 240),
            Color::Khaki => Color::HexRGB(240, 230, 140),
            Color::Lavender => Color::HexRGB(230, 230, 250),
            Color::LavenderBlush => Color::HexRGB(255, 240, 245),
            Color::LawnGreen => Color::HexRGB(124, 252, 0),
            Color::LemonChiffon => Color::HexRGB(255, 250, 205),
            Color::LightBlue => Color::HexRGB(173, 216, 230),
            Color::LightCoral => Color::HexRGB(240, 128, 128),
            Color::LightCyan => Color::HexRGB(224, 255, 255),
            Color::LightGoldenrodYellow => Color::HexRGB(250, 250, 210),
            Color::LightGray => Color::HexRGB(211, 211, 211),
            Color::LightGreen => Color::HexRGB(144, 238, 144),
            Color::LightGrey => Color::HexRGB(211, 211, 211),
            Color::LightPink => Color::HexRGB(255, 182, 193),
            Color::LightSalmon => Color::HexRGB(255, 160, 122),
            Color::LightSeaGreen => Color::HexRGB(32, 178, 170),
            Color::LightSkyBlue => Color::HexRGB(135, 206, 250),
            Color::LightSlateGray => Color::HexRGB(119, 136, 153),
            Color::LightSlateGrey => Color::HexRGB(119, 136, 153),
            Color::LightSteelBlue => Color::HexRGB(176, 196, 222),
            Color::LightYellow => Color::HexRGB(255, 255, 224),
            Color::Lime => Color::HexRGB(0, 255, 0),
            Color::LimeGreen => Color::HexRGB(50, 205, 50),
            Color::Linen => Color::HexRGB(250, 240, 230),
            Color::Magenta => Color::HexRGB(255, 0, 255),
            Color::Maroon => Color::HexRGB(128, 0, 0),
            Color::MediumAquamarine => Color::HexRGB(102, 205, 170),
            Color::MediumBlue => Color::HexRGB(0, 0, 205),
            Color::MediumOrchid => Color::HexRGB(186, 85, 211),
            Color::MediumPurple => Color::HexRGB(147, 112, 219),
            Color::MediumSeaGreen => Color::HexRGB(60, 179, 113),
            Color::MediumSlateBlue => Color::HexRGB(123, 104, 238),
            Color::MediumSpringGreen => Color::HexRGB(0, 250, 154),
            Color::MediumTurquoise => Color::HexRGB(72, 209, 204),
            Color::MediumVioletRed => Color::HexRGB(199, 21, 133),
            Color::MidnightBlue => Color::HexRGB(25, 25, 112),
            Color::MintCream => Color::HexRGB(245, 255, 250),
            Color::MistyRose => Color::HexRGB(255, 228, 225),
            Color::Moccasin => Color::HexRGB(255, 228, 181),
            Color::NavajoWhite => Color::HexRGB(255, 222, 173),
            Color::Navy => Color::HexRGB(0, 0, 128),
            Color::OldLace => Color::HexRGB(253, 245, 230),
            Color::Olive => Color::HexRGB(128, 128, 0),
            Color::OliveDrab => Color::HexRGB(107, 142, 35),
            Color::Orange => Color::HexRGB(255, 165, 0),
            Color::OrangeRed => Color::HexRGB(255, 69, 0),
            Color::Orchid => Color::HexRGB(218, 112, 214),
            Color::PaleGoldenrod => Color::HexRGB(238, 232, 170),
            Color::PaleGreen => Color::HexRGB(152, 251, 152),
            Color::PaleTurquoise => Color::HexRGB(175, 238, 238),
            Color::PaleVioletRed => Color::HexRGB(219, 112, 147),
            Color::PapayaWhip => Color::HexRGB(255, 239, 213),
            Color::PeachPuff => Color::HexRGB(255, 218, 185),
            Color::Peru => Color::HexRGB(205, 133, 63),
            Color::Pink => Color::HexRGB(255, 192, 203),
            Color::Plum => Color::HexRGB(221, 160, 221),
            Color::PowderBlue => Color::HexRGB(176, 224, 230),
            Color::Purple => Color::HexRGB(128, 0, 128),
            Color::RebeccaPurple => Color::HexRGB(102, 51, 153),
            Color::Red => Color::HexRGB(255, 0, 0),
            Color::RosyBrown => Color::HexRGB(188, 143, 143),
            Color::RoyalBlue => Color::HexRGB(65, 105, 225),
            Color::SaddleBrown => Color::HexRGB(139, 69, 19),
            Color::Salmon => Color::HexRGB(250, 128, 114),
            Color::SandyBrown => Color::HexRGB(244, 164, 96),
            Color::SeaGreen => Color::HexRGB(46, 139, 87),
            Color::SeaShell => Color::HexRGB(255, 245, 238),
            Color::Sienna => Color::HexRGB(160, 82, 45),
            Color::Silver => Color::HexRGB(192, 192, 192),
            Color::SkyBlue => Color::HexRGB(135, 206, 235),
            Color::SlateBlue => Color::HexRGB(106, 90, 205),
            Color::SlateGray => Color::HexRGB(112, 128, 144),
            Color::SlateGrey => Color::HexRGB(112, 128, 144),
            Color::Snow => Color::HexRGB(255, 250, 250),
            Color::SpringGreen => Color::HexRGB(0, 255, 127),
            Color::SteelBlue => Color::HexRGB(70, 130, 180),
            Color::Tan => Color::HexRGB(210, 180, 140),
            Color::Teal => Color::HexRGB(0, 128, 128),
            Color::Thistle => Color::HexRGB(216, 191, 216),
            Color::Tomato => Color::HexRGB(255, 99, 71),
            Color::Turquoise => Color::HexRGB(64, 224, 208),
            Color::Violet => Color::HexRGB(238, 130, 238),
            Color::Wheat => Color::HexRGB(245, 222, 179),
            Color::White => Color::HexRGB(255, 255, 255),
            Color::WhiteSmoke => Color::HexRGB(245, 245, 245),
            Color::Yellow => Color::HexRGB(255, 255, 0),
            Color::YellowGreen => Color::HexRGB(154, 205, 50),
            _ => self,
        }
    }

    /// The table behind [`Color::named_rgb`].
    fn named_rgb_exec(self) -> (r: Color)
        ensures
            r == self.named_rgb(),
    {
        match self {
            Color::AliceBlue => Color::HexRGB(240, 248, 255),
            Color::AntiqueWhite => Color::HexRGB(250, 235, 215),
            Color::Aqua => Color::HexRGB(0, 255, 255),
            Color::Aquamarine => Color::HexRGB(127, 255, 212),
            Color::Azure => Color::HexRGB(240, 255, 255),
            Color::Beige => Color::HexRGB(245, 245, 220),
            Color::Bisque => Color::HexRGB(255, 228, 196),
            Color::Black => Color::HexRGB(0, 0, 0),
            Color::BlanchedAlmond => Color::HexRGB(255, 235, 205),
            Color::Blue => Color::HexRGB(0, 0, 255),
            Color::BlueViolet => Color::HexRGB(138, 43, 226),
            Color::Brown => Color::HexRGB(165, 42, 42),
            Color::BurlyWood => Color::HexRGB(222, 184, 135),
            Color::CadetBlue => Color::HexRGB(95, 158, 160),
            Color::Chartreuse => Color::HexRGB(127, 255, 0),
            Color::Chocolate => Color::HexRGB(210, 105, 30),
            Color::Coral => Color::HexRGB(255, 127, 80),
            Color::CornflowerBlue => Color::HexRGB(100, 149, 237),
            Color::Cornsilk => Color::HexRGB(255, 248, 220),
            Color::Crimson => Color::HexRGB(220, 20, 60),
            Color::Cyan => Color::HexRGB(0, 255, 255),
            Color::DarkBlue => Color::HexRGB(0, 0, 139),
            Color::DarkCyan => Color::HexRGB(0, 139, 139),
            Color::DarkGoldenrod => Color::HexRGB(184, 134, 11),
            Color::DarkGray => Color::HexRGB(169, 169, 169),
            Color::DarkGreen => Color::HexRGB(0, 100, 0),
            Color::DarkGrey => Color::HexRGB(169, 169, 169),
            Color::DarkKhaki => Color::HexRGB(189, 183, 107),
            Color::DarkMagenta => Color::HexRGB(139, 0, 139),
            Color::DarkOliveGreen => Color::HexRGB(85, 107, 47),
            Color::DarkOrange => Color::HexRGB(255, 140, 0),
            Color::DarkOrchid => Color::HexRGB(153, 50, 204),
            Color::DarkRed => Color::HexRGB(139, 0, 0),
            Color::DarkSalmon => Color::HexRGB(233, 150, 122),
            Color::DarkSeaGreen => Color::HexRGB(143, 188, 143),
            Color::DarkSlateBlue => Color::HexRGB(72, 61, 139),
            Color::DarkSlateGray => Color::HexRGB(47, 79, 79),
            Color::DarkSlateGrey => Color::HexRGB(47, 79, 79),
            Color::DarkTurquoise => Color::HexRGB(0, 206, 209),
            Color::DarkViolet => Color::HexRGB(148, 0, 211),
            Color::DeepPink => Color::HexRGB(255, 20, 147),
            Color::DeepSkyBlue => Color::HexRGB(0, 191, 255),
            Color::DimGray => Color::HexRGB(105, 105, 105),
            Color::DimGrey => Color::HexRGB(105, 105, 105),
            Color::DodgerBlue => Color::HexRGB(30, 144, 255),
            Color::FireBrick => Color::HexRGB(178, 34, 34),
            Color::FloralWhite => Color::HexRGB(255, 250, 240),
            Color::ForestGreen => Color::HexRGB(34, 139, 34),
            Color::Fuchsia => Color::HexRGB(255, 0, 255),
            Color::Gainsboro => Color::HexRGB(220, 220, 220),
            Color::GhostWhite => Color::HexRGB(248, 248, 255),
            Color::Gold => Color::HexRGB(255, 215, 0),
            Color::Goldenrod => Color::HexRGB(218, 165, 32),
            Color::Gray => Color::HexRGB(128, 128, 128),
            Color::Green => Color::HexRGB(0, 128, 0),
            Color::GreenYellow => Color::HexRGB(173, 255, 47),
            Color::Grey => Color::HexRGB(128, 128, 128),
            Color::Honeydew => Color::HexRGB(240, 255, 240),
            Color::HotPink => Color::HexRGB(255, 105, 180),
            Color::IndianRed => Color::HexRGB(205, 92, 92),
            Color::Indigo => Color::HexRGB(75, 0, 130),
            Color::Ivory => Color::HexRGB(255, 255, 240),
            Color::Khaki => Color::HexRGB(240, 230, 140),
            Color::Lavender => Color::HexRGB(230, 230, 250),
            Color::LavenderBlush => Color::HexRGB(255, 240, 245),
            Color::LawnGreen => Color::HexRGB(124, 252, 0),
            Color::LemonChiffon => Color::HexRGB(255, 250, 205),
            Color::LightBlue => Color::HexRGB(173, 216, 230),
            Color::LightCoral => Color::HexRGB(240, 128, 128),
            Color::LightCyan => Color::HexRGB(224, 255, 255),
            Color::LightGoldenrodYellow => Color::HexRGB(250, 250, 210),
            Color::LightGray => Color::HexRGB(211, 211, 211),
            Color::LightGreen => Color::HexRGB(144, 238, 144),
            Color::LightGrey => Color::HexRGB(211, 211, 211),
            Color::LightPink => Color::HexRGB(255, 182, 193),
            Color::LightSalmon => Color::HexRGB(255, 160, 122),
            Color::LightSeaGreen => Color::HexRGB(32, 178, 170),
            Color::LightSkyBlue => Color::HexRGB(135, 206, 250),
            Color::LightSlateGray => Color::HexRGB(119, 136, 153),
            Color::LightSlateGrey => Color::HexRGB(119, 136, 153),
            Color::LightSteelBlue => Color::HexRGB(176, 196, 222),
            Color::LightYellow => Color::HexRGB(255, 255, 224),
            Color::Lime => Color::HexRGB(0, 255, 0),
            Color::LimeGreen => Color::HexRGB(50, 205, 50),
            Color::Linen => Color::HexRGB(250, 240, 230),
            Color::Magenta => Color::HexRGB(255, 0, 255),
            Color::Maroon => Color::HexRGB(128, 0, 0),
            Color::MediumAquamarine => Color::HexRGB(102, 205, 170),
            Color::MediumBlue => Color::HexRGB(0, 0, 205),
            Color::MediumOrchid => Color::HexRGB(186, 85, 211),
            Color::MediumPurple => Color::HexRGB(147, 112, 219),
            Color::MediumSeaGreen => Color::HexRGB(60, 179, 113),
            Color::MediumSlateBlue => Color::HexRGB(123, 104, 238),
            Color::MediumSpringGreen => Color::HexRGB(0, 250, 154),
            Color::MediumTurquoise => Color::HexRGB(72, 209, 204),
            Color::MediumVioletRed => Color::HexRGB(199, 21, 133),
            Color::MidnightBlue => Color::HexRGB(25, 25, 112),
            Color::MintCream => Color::HexRGB(245, 255, 250),
            Color::MistyRose => Color::HexRGB(255, 228, 225),
            Color::Moccasin => Color::HexRGB(255, 228, 181),
            Color::NavajoWhite => Color::HexRGB(255, 222, 173),
            Color::Navy => Color::HexRGB(0, 0, 128),
            Color::OldLace => Color::HexRGB(253, 245, 230),
            Color::Olive => Color::HexRGB(128, 128, 0),
            Color::OliveDrab => Color::HexRGB(107, 142, 35),
            Color::Orange => Color::HexRGB(255, 165, 0),
            Color::OrangeRed => Color::HexRGB(255, 69, 0),
            Color::Orchid => Color::HexRGB(218, 112, 214),
            Color::PaleGoldenrod => Color::HexRGB(238, 232, 170),
            Color::PaleGreen => Color::HexRGB(152, 251, 152),
            Color::PaleTurquoise => Color::HexRGB(175, 238, 238),
            Color::PaleVioletRed => Color::HexRGB(219, 112, 147),
            Color::PapayaWhip => Color::HexRGB(255, 239, 213),
            Color::PeachPuff => Color::HexRGB(255, 218, 185),
            Color::Peru => Color::HexRGB(205, 133, 63),
            Color::Pink => Color::HexRGB(255, 192, 203),
            Color::Plum => Color::HexRGB(221, 160, 221),
            Color::PowderBlue => Color::HexRGB(176, 224, 230),
            Color::Purple => Color::HexRGB(128, 0, 128),
            Color::RebeccaPurple => Color::HexRGB(102, 51, 153),
            Color::Red => Color::HexRGB(255, 0, 0),
            Color::RosyBrown => Color::HexRGB(188, 143, 143),
            Color::RoyalBlue => Color::HexRGB(65, 105, 225),
            Color::SaddleBrown => Color::HexRGB(139, 69, 19),
            Color::Salmon => Color::HexRGB(250, 128, 114),
            Color::SandyBrown => Color::HexRGB(244, 164, 96),
            Color::SeaGreen => Color::HexRGB(46, 139, 87),
            Color::SeaShell => Color::HexRGB(255, 245, 238),
            Color::Sienna => Color::HexRGB(160, 82, 45),
            Color::Silver => Color::HexRGB(192, 192, 192),
            Color::SkyBlue => Color::HexRGB(135, 206, 235),
            Color::SlateBlue => Color::HexRGB(106, 90, 205),
            Color::SlateGray => Color::HexRGB(112, 128, 144),
            Color::SlateGrey => Color::HexRGB(112, 128, 144),
            Color::Snow => Color::HexRGB(255, 250, 250),
            Color::SpringGreen => Color::HexRGB(0, 255, 127),
            Color::SteelBlue => Color::HexRGB(70, 130, 180),
            Color::Tan => Color::HexRGB(210, 180, 140),
            Color::Teal => Color::HexRGB(0, 128, 128),
            Color::Thistle => Color::HexRGB(216, 191, 216),
            Color::Tomato => Color::HexRGB(255, 99, 71),
            Color::Turquoise => Color::HexRGB(64, 224, 208),
            Color::Violet => Color::HexRGB(238, 130, 238),
            Color::Wheat => Color::HexRGB(245, 222, 179),
            Color::White => Color::HexRGB(255, 255, 255),
            Color::WhiteSmoke => Color::HexRGB(245, 245, 245),
            Color::Yellow => Color::HexRGB(255, 255, 0),
            Color::YellowGreen => Color::HexRGB(154, 205, 50),
            _ => self,
        }
    }
}

} // verus!
