//! Colors: hex RGB(A), HSL(A) and the named CSS colors.

use vstd::prelude::*;
use vstd::string::StrSliceExecFns;
use vstd::string::StringExecFns;
use crate::num::Num;
use crate::text::{is_digit, digit_val, str_eq, EscapeBlock};

verus! {

/// A CSS color value.
///
/// The `HSL`/`HSLA` components carry the source numbers: the hue in degrees
/// (`0 <= h < 360`), saturation and lightness in percentage points
/// (`0..=100`), and the alpha in `0..=1`.
#[derive(Debug, Clone, Copy, PartialEq, Eq, Structural)]
pub enum Color {
    HexRGB(u8, u8, u8),
    HexRGBA(u8, u8, u8, u8),
    HSL(Num, Num, Num),
    HSLA(Num, Num, Num, Num),
    AliceBlue,
    AntiqueWhite,
    Aqua,
    Aquamarine,
    Azure,
    Beige,
    Bisque,
    Black,
    BlanchedAlmond,
    Blue,
    BlueViolet,
    Brown,
    BurlyWood,
    CadetBlue,
    Chartreuse,
    Chocolate,
    Coral,
    CornflowerBlue,
    Cornsilk,
    Crimson,
    Cyan,
    DarkBlue,
    DarkCyan,
    DarkGoldenrod,
    DarkGray,
    DarkGreen,
    DarkGrey,
    DarkKhaki,
    DarkMagenta,
    DarkOliveGreen,
    DarkOrange,
    DarkOrchid,
    DarkRed,
    DarkSalmon,
    DarkSeaGreen,
    DarkSlateBlue,
    DarkSlateGray,
    DarkSlateGrey,
    DarkTurquoise,
    DarkViolet,
    DeepPink,
    DeepSkyBlue,
    DimGray,
    DimGrey,
    DodgerBlue,
    FireBrick,
    FloralWhite,
    ForestGreen,
    Fuchsia,
    Gainsboro,
    GhostWhite,
    Gold,
    Goldenrod,
    Gray,
    Green,
    GreenYellow,
    Grey,
    Honeydew,
    HotPink,
    IndianRed,
    Indigo,
    Ivory,
    Khaki,
    Lavender,
    LavenderBlush,
    LawnGreen,
    LemonChiffon,
    LightBlue,
    LightCoral,
    LightCyan,
    LightGoldenrodYellow,
    LightGray,
    LightGreen,
    LightGrey,
    LightPink,
    LightSalmon,
    LightSeaGreen,
    LightSkyBlue,
    LightSlateGray,
    LightSlateGrey,
    LightSteelBlue,
    LightYellow,
    Lime,
    LimeGreen,
    Linen,
    Magenta,
    Maroon,
    MediumAquamarine,
    MediumBlue,
    MediumOrchid,
    MediumPurple,
    MediumSeaGreen,
    MediumSlateBlue,
    MediumSpringGreen,
    MediumTurquoise,
    MediumVioletRed,
    MidnightBlue,
    MintCream,
    MistyRose,
    Moccasin,
    NavajoWhite,
    Navy,
    OldLace,
    Olive,
    OliveDrab,
    Orange,
    OrangeRed,
    Orchid,
    PaleGoldenrod,
    PaleGreen,
    PaleTurquoise,
    PaleVioletRed,
    PapayaWhip,
    PeachPuff,
    Peru,
    Pink,
    Plum,
    PowderBlue,
    Purple,
    RebeccaPurple,
    Red,
    RosyBrown,
    RoyalBlue,
    SaddleBrown,
    Salmon,
    SandyBrown,
    SeaGreen,
    SeaShell,
    Sienna,
    Silver,
    SkyBlue,
    SlateBlue,
    SlateGray,
    SlateGrey,
    Snow,
    SpringGreen,
    SteelBlue,
    Tan,
    Teal,
    Thistle,
    Tomato,
    Turquoise,
    Violet,
    Wheat,
    White,
    WhiteSmoke,
    Yellow,
    YellowGreen,
}

/// A color that is either a literal or an opaque escape block of host code.
#[derive(Debug, Clone, PartialEq)]
pub enum DynamicColor {
    Literal(Color),
    Dynamic(EscapeBlock),
}

impl DynamicColor {
    /// Whether this is an escape block rather than a literal color.
    pub fn is_dynamic(&self) -> (r: bool)
        ensures
            r == (self is Dynamic),
    {
        match self {
            DynamicColor::Dynamic(_) => true,
            DynamicColor::Literal(_) => false,
        }
    }

    /// The canonical text: the color's text, or nothing for an escape block.
    pub open spec fn css(self) -> Seq<char> {
        match self {
            DynamicColor::Dynamic(_) => Seq::empty(),
            DynamicColor::Literal(c) => c.css(),
        }
    }

    /// Appends the canonical text of `self`.
    pub fn write_css(&self, out: &mut String)
        ensures
            final(out)@ == old(out)@ + self.css(),
    {
        match self {
            DynamicColor::Dynamic(_) => {
                proof {
                    assert(final(out)@ =~= old(out)@ + Seq::<char>::empty());
                }
            },
            DynamicColor::Literal(c) => {
                c.write_css(out);
            },
        }
    }

    /// The canonical text of `self` as an owned string.
    pub fn to_css_string(&self) -> (r: String)
        ensures
            r@ == self.css(),
    {
        let mut out = String::new();
        self.write_css(&mut out);
        out
    }
}

/// A hexadecimal digit.
pub open spec fn is_hex_digit(c: char) -> bool {
    is_digit(c) || (97 <= c as u32 && c as u32 <= 102) || (65 <= c as u32 && c as u32 <= 70)
}

/// The value of a hexadecimal digit.
pub open spec fn hex_val(c: char) -> nat {
    if is_digit(c) {
        digit_val(c)
    } else if 97 <= c as u32 && c as u32 <= 102 {
        (c as u32 - 87) as nat
    } else {
        (c as u32 - 55) as nat
    }
}

/// The lower-case character of a hexadecimal digit.
pub open spec fn hex_digit_char(d: nat) -> char {
    if d < 10 {
        crate::num::digit_char(d)
    } else if d == 10 {
        'a'
    } else if d == 11 {
        'b'
    } else if d == 12 {
        'c'
    } else if d == 13 {
        'd'
    } else if d == 14 {
        'e'
    } else {
        'f'
    }
}

/// Two lower-case hex digits for a byte.
pub open spec fn hex2(v: nat) -> Seq<char> {
    seq![hex_digit_char(v / 16), hex_digit_char(v % 16)]
}

/// What [`parse_hex`] returns: three hex digits are doubled nibble-wise
/// (`fff` means `ffffff`), six give an RGB color, eight an RGBA color, and
/// anything else is refused.
pub open spec fn spec_parse_hex(s: Seq<char>) -> Option<Color> {
    if !(forall|i: int| 0 <= i < s.len() ==> is_hex_digit(#[trigger] s[i])) {
        None
    } else if s.len() == 3 {
        Some(
            Color::HexRGB(
                (hex_val(s[0]) * 17) as u8,
                (hex_val(s[1]) * 17) as u8,
                (hex_val(s[2]) * 17) as u8,
            ),
        )
    } else if s.len() == 6 {
        Some(
            Color::HexRGB(
                (hex_val(s[0]) * 16 + hex_val(s[1])) as u8,
                (hex_val(s[2]) * 16 + hex_val(s[3])) as u8,
                (hex_val(s[4]) * 16 + hex_val(s[5])) as u8,
            ),
        )
    } else if s.len() == 8 {
        Some(
            Color::HexRGBA(
                (hex_val(s[0]) * 16 + hex_val(s[1])) as u8,
                (hex_val(s[2]) * 16 + hex_val(s[3])) as u8,
                (hex_val(s[4]) * 16 + hex_val(s[5])) as u8,
                (hex_val(s[6]) * 16 + hex_val(s[7])) as u8,
            ),
        )
    } else {
        None
    }
}

/// Hex-digit test, as [`is_hex_digit`].
fn hex_digit_test(c: char) -> (r: bool)
    ensures
        r == is_hex_digit(c),
{
    let u = c as u32;
    (48 <= u && u <= 57) || (97 <= u && u <= 102) || (65 <= u && u <= 70)
}

/// The value of a hex digit, as [`hex_val`].
fn hex_val_exec(c: char) -> (r: u8)
    requires
        is_hex_digit(c),
    ensures
        r as nat == hex_val(c),
        r < 16,
{
    let u = c as u32;
    if 48 <= u && u <= 57 {
        (u - 48) as u8
    } else if 97 <= u && u <= 102 {
        (u - 87) as u8
    } else {
        (u - 55) as u8
    }
}

/// Reads a byte from the hex digits at `i` and `i + 1`.
fn hex_byte(s: &str, i: usize) -> (r: u8)
    requires
        i + 2 <= s@.len(),
        i + 2 <= usize::MAX,
        is_hex_digit(s@[i as int]),
        is_hex_digit(s@[i as int + 1]),
    ensures
        r as nat == hex_val(s@[i as int]) * 16 + hex_val(s@[i as int + 1]),
{
    let hi = hex_val_exec(s.get_char(i));
    let lo = hex_val_exec(s.get_char(i + 1));
    hi * 16 + lo
}

/// Parses a bare run of hex digits as a color, as [`spec_parse_hex`].
pub fn parse_hex(hex: &str) -> (r: Option<Color>)
    ensures
        r == spec_parse_hex(hex@),
{
    let len = hex.unicode_len();
    if len != 3 && len != 6 && len != 8 {
        return None;
    }
    let mut i: usize = 0;
    while i < len
        invariant
            i <= len,
            len == hex@.len(),
            forall|j: int| 0 <= j < i ==> is_hex_digit(#[trigger] hex@[j]),
        decreases len - i,
    {
        if !hex_digit_test(hex.get_char(i)) {
            return None;
        }
        i = i + 1;
    }
    if len == 3 {
        let r = hex_val_exec(hex.get_char(0));
        let g = hex_val_exec(hex.get_char(1));
        let b = hex_val_exec(hex.get_char(2));
        Some(Color::HexRGB(r * 17, g * 17, b * 17))
    } else if len == 6 {
        Some(Color::HexRGB(hex_byte(hex, 0), hex_byte(hex, 2), hex_byte(hex, 4)))
    } else {
        Some(
            Color::HexRGBA(hex_byte(hex, 0), hex_byte(hex, 2), hex_byte(hex, 4), hex_byte(hex, 6)),
        )
    }
}

/// Appends the lower-case hex digit `d`.
fn push_hex_digit(out: &mut String, d: u8)
    requires
        d < 16,
    ensures
        final(out)@ == old(out)@ + seq![hex_digit_char(d as nat)],
{
    if d < 10 {
        crate::num::push_digit(out, d as u64);
    } else if d == 10 {
        out.append("a");
        proof {
            reveal_strlit("a");
            assert(final(out)@ =~= old(out)@ + seq![hex_digit_char(d as nat)]);
        }
    } else if d == 11 {
        out.append("b");
        proof {
            reveal_strlit("b");
            assert(final(out)@ =~= old(out)@ + seq![hex_digit_char(d as nat)]);
        }
    } else if d == 12 {
        out.append("c");
        proof {
            reveal_strlit("c");
            assert(final(out)@ =~= old(out)@ + seq![hex_digit_char(d as nat)]);
        }
    } else if d == 13 {
        out.append("d");
        proof {
            reveal_strlit("d");
            assert(final(out)@ =~= old(out)@ + seq![hex_digit_char(d as nat)]);
        }
    } else if d == 14 {
        out.append("e");
        proof {
            reveal_strlit("e");
            assert(final(out)@ =~= old(out)@ + seq![hex_digit_char(d as nat)]);
        }
    } else {
        out.append("f");
        proof {
            reveal_strlit("f");
            assert(final(out)@ =~= old(out)@ + seq![hex_digit_char(d as nat)]);
        }
    }
}

/// Appends the two hex digits of `v`.
fn push_hex2(out: &mut String, v: u8)
    ensures
        final(out)@ == old(out)@ + hex2(v as nat),
{
    push_hex_digit(out, v / 16);
    push_hex_digit(out, v % 16);
}

} // verus!

verus! {

impl Color {
    /// The canonical text of a color: `#rrggbb` / `#rrggbbaa` for hex forms,
    /// `hsl(h, s%, l%)` / `hsla(h, s%, l%, a)` with the source numbers, and
    /// the keyword itself for a named color.
    pub open spec fn css(self) -> Seq<char> {
        match self {
            Color::HexRGB(r, g, b) => seq!['#'] + hex2(r as nat) + hex2(g as nat) + hex2(b as nat),
            Color::HexRGBA(r, g, b, a) => seq!['#'] + hex2(r as nat) + hex2(g as nat) + hex2(
                b as nat,
            ) + hex2(a as nat),
            Color::HSL(h, s, l) => "hsl("@ + h.css() + ", "@ + s.css() + "%, "@ + l.css() + "%)"@,
            Color::HSLA(h, s, l, a) => "hsla("@ + h.css() + ", "@ + s.css() + "%, "@ + l.css()
                + "%, "@ + a.css() + ")"@,
            Color::AliceBlue => "aliceblue"@,
            Color::AntiqueWhite => "antiquewhite"@,
            Color::Aqua => "aqua"@,
            Color::Aquamarine => "aquamarine"@,
            Color::Azure => "azure"@,
            Color::Beige => "beige"@,
            Color::Bisque => "bisque"@,
            Color::Black => "black"@,
            Color::BlanchedAlmond => "blanchedalmond"@,
            Color::Blue => "blue"@,
            Color::BlueViolet => "blueviolet"@,
            Color::Brown => "brown"@,
            Color::BurlyWood => "burlywood"@,
            Color::CadetBlue => "cadetblue"@,
            Color::Chartreuse => "chartreuse"@,
            Color::Chocolate => "chocolate"@,
            Color::Coral => "coral"@,
            Color::CornflowerBlue => "cornflowerblue"@,
            Color::Cornsilk => "cornsilk"@,
            Color::Crimson => "crimson"@,
            Color::Cyan => "cyan"@,
            Color::DarkBlue => "darkblue"@,
            Color::DarkCyan => "darkcyan"@,
            Color::DarkGoldenrod => "darkgoldenrod"@,
            Color::DarkGray => "darkgray"@,
            Color::DarkGreen => "darkgreen"@,
            Color::DarkGrey => "darkgrey"@,
            Color::DarkKhaki => "darkkhaki"@,
            Color::DarkMagenta => "darkmagenta"@,
            Color::DarkOliveGreen => "darkolivegreen"@,
            Color::DarkOrange => "darkorange"@,
            Color::DarkOrchid => "darkorchid"@,
            Color::DarkRed => "darkred"@,
            Color::DarkSalmon => "darksalmon"@,
            Color::DarkSeaGreen => "darkseagreen"@,
            Color::DarkSlateBlue => "darkslateblue"@,
            Color::DarkSlateGray => "darkslategray"@,
            Color::DarkSlateGrey => "darkslategrey"@,
            Color::DarkTurquoise => "darkturquoise"@,
            Color::DarkViolet => "darkviolet"@,
            Color::DeepPink => "deeppink"@,
            Color::DeepSkyBlue => "deepskyblue"@,
            Color::DimGray => "dimgray"@,
            Color::DimGrey => "dimgrey"@,
            Color::DodgerBlue => "dodgerblue"@,
            Color::FireBrick => "firebrick"@,
            Color::FloralWhite => "floralwhite"@,
            Color::ForestGreen => "forestgreen"@,
            Color::Fuchsia => "fuchsia"@,
            Color::Gainsboro => "gainsboro"@,
            Color::GhostWhite => "ghostwhite"@,
            Color::Gold => "gold"@,
            Color::Goldenrod => "goldenrod"@,
            Color::Gray => "gray"@,
            Color::Green => "green"@,
            Color::GreenYellow => "greenyellow"@,
            Color::Grey => "grey"@,
            Color::Honeydew => "honeydew"@,
            Color::HotPink => "hotpink"@,
            Color::IndianRed => "indianred"@,
            Color::Indigo => "indigo"@,
            Color::Ivory => "ivory"@,
            Color::Khaki => "khaki"@,
            Color::Lavender => "lavender"@,
            Color::LavenderBlush => "lavenderblush"@,
            Color::LawnGreen => "lawngreen"@,
            Color::LemonChiffon => "lemonchiffon"@,
            Color::LightBlue => "lightblue"@,
            Color::LightCoral => "lightcoral"@,
            Color::LightCyan => "lightcyan"@,
            Color::LightGoldenrodYellow => "lightgoldenrodyellow"@,
            Color::LightGray => "lightgray"@,
            Color::LightGreen => "lightgreen"@,
            Color::LightGrey => "lightgrey"@,
            Color::LightPink => "lightpink"@,
            Color::LightSalmon => "lightsalmon"@,
            Color::LightSeaGreen => "lightseagreen"@,
            Color::LightSkyBlue => "lightskyblue"@,
            Color::LightSlateGray => "lightslategray"@,
            Color::LightSlateGrey => "lightslategrey"@,
            Color::LightSteelBlue => "lightsteelblue"@,
            Color::LightYellow => "lightyellow"@,
            Color::Lime => "lime"@,
            Color::LimeGreen => "limegreen"@,
            Color::Linen => "linen"@,
            Color::Magenta => "magenta"@,
            Color::Maroon => "maroon"@,
            Color::MediumAquamarine => "mediumaquamarine"@,
            Color::MediumBlue => "mediumblue"@,
            Color::MediumOrchid => "mediumorchid"@,
            Color::MediumPurple => "mediumpurple"@,
            Color::MediumSeaGreen => "mediumseagreen"@,
            Color::MediumSlateBlue => "mediumslateblue"@,
            Color::MediumSpringGreen => "mediumspringgreen"@,
            Color::MediumTurquoise => "mediumturquoise"@,
            Color::MediumVioletRed => "mediumvioletred"@,
            Color::MidnightBlue => "midnightblue"@,
            Color::MintCream => "mintcream"@,
            Color::MistyRose => "mistyrose"@,
            Color::Moccasin => "moccasin"@,
            Color::NavajoWhite => "navajowhite"@,
            Color::Navy => "navy"@,
            Color::OldLace => "oldlace"@,
            Color::Olive => "olive"@,
            Color::OliveDrab => "olivedrab"@,
            Color::Orange => "orange"@,
            Color::OrangeRed => "orangered"@,
            Color::Orchid => "orchid"@,
            Color::PaleGoldenrod => "palegoldenrod"@,
            Color::PaleGreen => "palegreen"@,
            Color::PaleTurquoise => "paleturquoise"@,
            Color::PaleVioletRed => "palevioletred"@,
            Color::PapayaWhip => "papayawhip"@,
            Color::PeachPuff => "peachpuff"@,
            Color::Peru => "peru"@,
            Color::Pink => "pink"@,
            Color::Plum => "plum"@,
            Color::PowderBlue => "powderblue"@,
            Color::Purple => "purple"@,
            Color::RebeccaPurple => "rebeccapurple"@,
            Color::Red => "red"@,
            Color::RosyBrown => "rosybrown"@,
            Color::RoyalBlue => "royalblue"@,
            Color::SaddleBrown => "saddlebrown"@,
            Color::Salmon => "salmon"@,
            Color::SandyBrown => "sandybrown"@,
            Color::SeaGreen => "seagreen"@,
            Color::SeaShell => "seashell"@,
            Color::Sienna => "sienna"@,
            Color::Silver => "silver"@,
            Color::SkyBlue => "skyblue"@,
            Color::SlateBlue => "slateblue"@,
            Color::SlateGray => "slategray"@,
            Color::SlateGrey => "slategrey"@,
            Color::Snow => "snow"@,
            Color::SpringGreen => "springgreen"@,
            Color::SteelBlue => "steelblue"@,
            Color::Tan => "tan"@,
            Color::Teal => "teal"@,
            Color::Thistle => "thistle"@,
            Color::Tomato => "tomato"@,
            Color::Turquoise => "turquoise"@,
            Color::Violet => "violet"@,
            Color::Wheat => "wheat"@,
            Color::White => "white"@,
            Color::WhiteSmoke => "whitesmoke"@,
            Color::Yellow => "yellow"@,
            Color::YellowGreen => "yellowgreen"@,
        }
    }

    /// Appends the canonical text of `self`.
    pub fn write_css(&self, out: &mut String)
        ensures
            final(out)@ == old(out)@ + self.css(),
    {
        match self {
            Color::HexRGB(r, g, b) => {
                out.append("#");
                push_hex2(out, *r);
                push_hex2(out, *g);
                push_hex2(out, *b);
                proof {
                    reveal_strlit("#");
                    assert("#"@ =~= seq!['#']);
                    assert(final(out)@ =~= old(out)@ + self.css());
                }
            },
            Color::HexRGBA(r, g, b, a) => {
                out.append("#");
                push_hex2(out, *r);
                push_hex2(out, *g);
                push_hex2(out, *b);
                push_hex2(out, *a);
                proof {
                    reveal_strlit("#");
                    assert("#"@ =~= seq!['#']);
                    assert(final(out)@ =~= old(out)@ + self.css());
                }
            },
            Color::HSL(h, s, l) => {
                out.append("hsl(");
                h.write_css(out);
                out.append(", ");
                s.write_css(out);
                out.append("%, ");
                l.write_css(out);
                out.append("%)");
                proof {
                    assert(final(out)@ =~= old(out)@ + self.css());
                }
            },
            Color::HSLA(h, s, l, a) => {
                out.append("hsla(");
                h.write_css(out);
                out.append(", ");
                s.write_css(out);
                out.append("%, ");
                l.write_css(out);
                out.append("%, ");
                a.write_css(out);
                out.append(")");
                proof {
                    assert(final(out)@ =~= old(out)@ + self.css());
                }
            },
            Color::AliceBlue => { out.append("aliceblue"); },
            Color::AntiqueWhite => { out.append("antiquewhite"); },
            Color::Aqua => { out.append("aqua"); },
            Color::Aquamarine => { out.append("aquamarine"); },
            Color::Azure => { out.append("azure"); },
            Color::Beige => { out.append("beige"); },
            Color::Bisque => { out.append("bisque"); },
            Color::Black => { out.append("black"); },
            Color::BlanchedAlmond => { out.append("blanchedalmond"); },
            Color::Blue => { out.append("blue"); },
            Color::BlueViolet => { out.append("blueviolet"); },
            Color::Brown => { out.append("brown"); },
            Color::BurlyWood => { out.append("burlywood"); },
            Color::CadetBlue => { out.append("cadetblue"); },
            Color::Chartreuse => { out.append("chartreuse"); },
            Color::Chocolate => { out.append("chocolate"); },
            Color::Coral => { out.append("coral"); },
            Color::CornflowerBlue => { out.append("cornflowerblue"); },
            Color::Cornsilk => { out.append("cornsilk"); },
            Color::Crimson => { out.append("crimson"); },
            Color::Cyan => { out.append("cyan"); },
            Color::DarkBlue => { out.append("darkblue"); },
            Color::DarkCyan => { out.append("darkcyan"); },
            Color::DarkGoldenrod => { out.append("darkgoldenrod"); },
            Color::DarkGray => { out.append("darkgray"); },
            Color::DarkGreen => { out.append("darkgreen"); },
            Color::DarkGrey => { out.append("darkgrey"); },
            Color::DarkKhaki => { out.append("darkkhaki"); },
            Color::DarkMagenta => { out.append("darkmagenta"); },
            Color::DarkOliveGreen => { out.append("darkolivegreen"); },
            Color::DarkOrange => { out.append("darkorange"); },
            Color::DarkOrchid => { out.append("darkorchid"); },
            Color::DarkRed => { out.append("darkred"); },
            Color::DarkSalmon => { out.append("darksalmon"); },
            Color::DarkSeaGreen => { out.append("darkseagreen"); },
            Color::DarkSlateBlue => { out.append("darkslateblue"); },
            Color::DarkSlateGray => { out.append("darkslategray"); },
            Color::DarkSlateGrey => { out.append("darkslategrey"); },
            Color::DarkTurquoise => { out.append("darkturquoise"); },
            Color::DarkViolet => { out.append("darkviolet"); },
            Color::DeepPink => { out.append("deeppink"); },
            Color::DeepSkyBlue => { out.append("deepskyblue"); },
            Color::DimGray => { out.append("dimgray"); },
            Color::DimGrey => { out.append("dimgrey"); },
            Color::DodgerBlue => { out.append("dodgerblue"); },
            Color::FireBrick => { out.append("firebrick"); },
            Color::FloralWhite => { out.append("floralwhite"); },
            Color::ForestGreen => { out.append("forestgreen"); },
            Color::Fuchsia => { out.append("fuchsia"); },
            Color::Gainsboro => { out.append("gainsboro"); },
            Color::GhostWhite => { out.append("ghostwhite"); },
            Color::Gold => { out.append("gold"); },
            Color::Goldenrod => { out.append("goldenrod"); },
            Color::Gray => { out.append("gray"); },
            Color::Green => { out.append("green"); },
            Color::GreenYellow => { out.append("greenyellow"); },
            Color::Grey => { out.append("grey"); },
            Color::Honeydew => { out.append("honeydew"); },
            Color::HotPink => { out.append("hotpink"); },
            Color::IndianRed => { out.append("indianred"); },
            Color::Indigo => { out.append("indigo"); },
            Color::Ivory => { out.append("ivory"); },
            Color::Khaki => { out.append("khaki"); },
            Color::Lavender => { out.append("lavender"); },
            Color::LavenderBlush => { out.append("lavenderblush"); },
            Color::LawnGreen => { out.append("lawngreen"); },
            Color::LemonChiffon => { out.append("lemonchiffon"); },
            Color::LightBlue => { out.append("lightblue"); },
            Color::LightCoral => { out.append("lightcoral"); },
            Color::LightCyan => { out.append("lightcyan"); },
            Color::LightGoldenrodYellow => { out.append("lightgoldenrodyellow"); },
            Color::LightGray => { out.append("lightgray"); },
            Color::LightGreen => { out.append("lightgreen"); },
            Color::LightGrey => { out.append("lightgrey"); },
            Color::LightPink => { out.append("lightpink"); },
            Color::LightSalmon => { out.append("lightsalmon"); },
            Color::LightSeaGreen => { out.append("lightseagreen"); },
            Color::LightSkyBlue => { out.append("lightskyblue"); },
            Color::LightSlateGray => { out.append("lightslategray"); },
            Color::LightSlateGrey => { out.append("lightslategrey"); },
            Color::LightSteelBlue => { out.append("lightsteelblue"); },
            Color::LightYellow => { out.append("lightyellow"); },
            Color::Lime => { out.append("lime"); },
            Color::LimeGreen => { out.append("limegreen"); },
            Color::Linen => { out.append("linen"); },
            Color::Magenta => { out.append("magenta"); },
            Color::Maroon => { out.append("maroon"); },
            Color::MediumAquamarine => { out.append("mediumaquamarine"); },
            Color::MediumBlue => { out.append("mediumblue"); },
            Color::MediumOrchid => { out.append("mediumorchid"); },
            Color::MediumPurple => { out.append("mediumpurple"); },
            Color::MediumSeaGreen => { out.append("mediumseagreen"); },
            Color::MediumSlateBlue => { out.append("mediumslateblue"); },
            Color::MediumSpringGreen => { out.append("mediumspringgreen"); },
            Color::MediumTurquoise => { out.append("mediumturquoise"); },
            Color::MediumVioletRed => { out.append("mediumvioletred"); },
            Color::MidnightBlue => { out.append("midnightblue"); },
            Color::MintCream => { out.append("mintcream"); },
            Color::MistyRose => { out.append("mistyrose"); },
            Color::Moccasin => { out.append("moccasin"); },
            Color::NavajoWhite => { out.append("navajowhite"); },
            Color::Navy => { out.append("navy"); },
            Color::OldLace => { out.append("oldlace"); },
            Color::Olive => { out.append("olive"); },
            Color::OliveDrab => { out.append("olivedrab"); },
            Color::Orange => { out.append("orange"); },
            Color::OrangeRed => { out.append("orangered"); },
            Color::Orchid => { out.append("orchid"); },
            Color::PaleGoldenrod => { out.append("palegoldenrod"); },
            Color::PaleGreen => { out.append("palegreen"); },
            Color::PaleTurquoise => { out.append("paleturquoise"); },
            Color::PaleVioletRed => { out.append("palevioletred"); },
            Color::PapayaWhip => { out.append("papayawhip"); },
            Color::PeachPuff => { out.append("peachpuff"); },
            Color::Peru => { out.append("peru"); },
            Color::Pink => { out.append("pink"); },
            Color::Plum => { out.append("plum"); },
            Color::PowderBlue => { out.append("powderblue"); },
            Color::Purple => { out.append("purple"); },
            Color::RebeccaPurple => { out.append("rebeccapurple"); },
            Color::Red => { out.append("red"); },
            Color::RosyBrown => { out.append("rosybrown"); },
            Color::RoyalBlue => { out.append("royalblue"); },
            Color::SaddleBrown => { out.append("saddlebrown"); },
            Color::Salmon => { out.append("salmon"); },
            Color::SandyBrown => { out.append("sandybrown"); },
            Color::SeaGreen => { out.append("seagreen"); },
            Color::SeaShell => { out.append("seashell"); },
            Color::Sienna => { out.append("sienna"); },
            Color::Silver => { out.append("silver"); },
            Color::SkyBlue => { out.append("skyblue"); },
            Color::SlateBlue => { out.append("slateblue"); },
            Color::SlateGray => { out.append("slategray"); },
            Color::SlateGrey => { out.append("slategrey"); },
            Color::Snow => { out.append("snow"); },
            Color::SpringGreen => { out.append("springgreen"); },
            Color::SteelBlue => { out.append("steelblue"); },
            Color::Tan => { out.append("tan"); },
            Color::Teal => { out.append("teal"); },
            Color::Thistle => { out.append("thistle"); },
            Color::Tomato => { out.append("tomato"); },
            Color::Turquoise => { out.append("turquoise"); },
            Color::Violet => { out.append("violet"); },
            Color::Wheat => { out.append("wheat"); },
            Color::White => { out.append("white"); },
            Color::WhiteSmoke => { out.append("whitesmoke"); },
            Color::Yellow => { out.append("yellow"); },
            Color::YellowGreen => { out.append("yellowgreen"); },
        }
    }

    /// The canonical text of `self` as an owned string.
    pub fn to_css_string(&self) -> (r: String)
        ensures
            r@ == self.css(),
    {
        let mut out = String::new();
        self.write_css(&mut out);
        out
    }
}

/// The named color spelled `w`, if there is one.
pub open spec fn named_of(w: Seq<char>) -> Option<Color> {
    if w.len() == 0 {
        None
    } else {
        let c = w[0];
        if false {
            None    } else if c == 'a' {
        named_a(w)
    } else if c == 'b' {
        named_b(w)
    } else if c == 'c' {
        named_c(w)
    } else if c == 'd' {
        named_d(w)
    } else if c == 'f' {
        named_f(w)
    } else if c == 'g' {
        named_g(w)
    } else if c == 'h' {
        named_h(w)
    } else if c == 'i' {
        named_i(w)
    } else if c == 'k' {
        named_k(w)
    } else if c == 'l' {
        named_l(w)
    } else if c == 'm' {
        named_m(w)
    } else if c == 'n' {
        named_n(w)
    } else if c == 'o' {
        named_o(w)
    } else if c == 'p' {
        named_p(w)
    } else if c == 'r' {
        named_r(w)
    } else if c == 's' {
        named_s(w)
    } else if c == 't' {
        named_t(w)
    } else if c == 'v' {
        named_v(w)
    } else if c == 'w' {
        named_w(w)
    } else if c == 'y' {
        named_y(w)
        } else {
            None
        }
    }
}

/// Named colors starting with `a`.
pub open spec fn named_a(w: Seq<char>) -> Option<Color> {
    if false {
        None    } else if w == "aliceblue"@ {
        Some(Color::AliceBlue)
    } else if w == "antiquewhite"@ {
        Some(Color::AntiqueWhite)
    } else if w == "aqua"@ {
        Some(Color::Aqua)
    } else if w == "aquamarine"@ {
        Some(Color::Aquamarine)
    } else if w == "azure"@ {
        Some(Color::Azure)
    } else {
        None
    }
}
/// Named colors starting with `b`.
pub open spec fn named_b(w: Seq<char>) -> Option<Color> {
    if false {
        None    } else if w == "beige"@ {
        Some(Color::Beige)
    } else if w == "bisque"@ {
        Some(Color::Bisque)
    } else if w == "black"@ {
        Some(Color::Black)
    } else if w == "blanchedalmond"@ {
        Some(Color::BlanchedAlmond)
    } else if w == "blue"@ {
        Some(Color::Blue)
    } else if w == "blueviolet"@ {
        Some(Color::BlueViolet)
    } else if w == "brown"@ {
        Some(Color::Brown)
    } else if w == "burlywood"@ {
        Some(Color::BurlyWood)
    } else {
        None
    }
}
/// Named colors starting with `c`.
pub open spec fn named_c(w: Seq<char>) -> Option<Color> {
    if false {
        None    } else if w == "cadetblue"@ {
        Some(Color::CadetBlue)
    } else if w == "chartreuse"@ {
        Some(Color::Chartreuse)
    } else if w == "chocolate"@ {
        Some(Color::Chocolate)
    } else if w == "coral"@ {
        Some(Color::Coral)
    } else if w == "cornflowerblue"@ {
        Some(Color::CornflowerBlue)
    } else if w == "cornsilk"@ {
        Some(Color::Cornsilk)
    } else if w == "crimson"@ {
        Some(Color::Crimson)
    } else if w == "cyan"@ {
        Some(Color::Cyan)
    } else {
        None
    }
}
/// Named colors starting with `d`.
pub open spec fn named_d(w: Seq<char>) -> Option<Color> {
    if false {
        None    } else if w == "darkblue"@ {
        Some(Color::DarkBlue)
    } else if w == "darkcyan"@ {
        Some(Color::DarkCyan)
    } else if w == "darkgoldenrod"@ {
        Some(Color::DarkGoldenrod)
    } else if w == "darkgray"@ {
        Some(Color::DarkGray)
    } else if w == "darkgreen"@ {
        Some(Color::DarkGreen)
    } else if w == "darkgrey"@ {
        Some(Color::DarkGrey)
    } else if w == "darkkhaki"@ {
        Some(Color::DarkKhaki)
    } else if w == "darkmagenta"@ {
        Some(Color::DarkMagenta)
    } else if w == "darkolivegreen"@ {
        Some(Color::DarkOliveGreen)
    } else if w == "darkorange"@ {
        Some(Color::DarkOrange)
    } else if w == "darkorchid"@ {
        Some(Color::DarkOrchid)
    } else if w == "darkred"@ {
        Some(Color::DarkRed)
    } else if w == "darksalmon"@ {
        Some(Color::DarkSalmon)
    } else if w == "darkseagreen"@ {
        Some(Color::DarkSeaGreen)
    } else if w == "darkslateblue"@ {
        Some(Color::DarkSlateBlue)
    } else if w == "darkslategray"@ {
        Some(Color::DarkSlateGray)
    } else if w == "darkslategrey"@ {
        Some(Color::DarkSlateGrey)
    } else if w == "darkturquoise"@ {
        Some(Color::DarkTurquoise)
    } else if w == "darkviolet"@ {
        Some(Color::DarkViolet)
    } else if w == "deeppink"@ {
        Some(Color::DeepPink)
    } else if w == "deepskyblue"@ {
        Some(Color::DeepSkyBlue)
    } else if w == "dimgray"@ {
        Some(Color::DimGray)
    } else if w == "dimgrey"@ {
        Some(Color::DimGrey)
    } else if w == "dodgerblue"@ {
        Some(Color::DodgerBlue)
    } else {
        None
    }
}
/// Named colors starting with `f`.
pub open spec fn named_f(w: Seq<char>) -> Option<Color> {
    if false {
        None    } else if w == "firebrick"@ {
        Some(Color::FireBrick)
    } else if w == "floralwhite"@ {
        Some(Color::FloralWhite)
    } else if w == "forestgreen"@ {
        Some(Color::ForestGreen)
    } else if w == "fuchsia"@ {
        Some(Color::Fuchsia)
    } else {
        None
    }
}
/// Named colors starting with `g`.
pub open spec fn named_g(w: Seq<char>) -> Option<Color> {
    if false {
        None    } else if w == "gainsboro"@ {
        Some(Color::Gainsboro)
    } else if w == "ghostwhite"@ {
        Some(Color::GhostWhite)
    } else if w == "gold"@ {
        Some(Color::Gold)
    } else if w == "goldenrod"@ {
        Some(Color::Goldenrod)
    } else if w == "gray"@ {
        Some(Color::Gray)
    } else if w == "green"@ {
        Some(Color::Green)
    } else if w == "greenyellow"@ {
        Some(Color::GreenYellow)
    } else if w == "grey"@ {
        Some(Color::Grey)
    } else {
        None
    }
}
/// Named colors starting with `h`.
pub open spec fn named_h(w: Seq<char>) -> Option<Color> {
    if false {
        None    } else if w == "honeydew"@ {
        Some(Color::Honeydew)
    } else if w == "hotpink"@ {
        Some(Color::HotPink)
    } else {
        None
    }
}
/// Named colors starting with `i`.
pub open spec fn named_i(w: Seq<char>) -> Option<Color> {
    if false {
        None    } else if w == "indianred"@ {
        Some(Color::IndianRed)
    } else if w == "indigo"@ {
        Some(Color::Indigo)
    } else if w == "ivory"@ {
        Some(Color::Ivory)
    } else {
        None
    }
}
/// Named colors starting with `k`.
pub open spec fn named_k(w: Seq<char>) -> Option<Color> {
    if false {
        None    } else if w == "khaki"@ {
        Some(Color::Khaki)
    } else {
        None
    }
}
/// Named colors starting with `l`.
pub open spec fn named_l(w: Seq<char>) -> Option<Color> {
    if false {
        None    } else if w == "lavender"@ {
        Some(Color::Lavender)
    } else if w == "lavenderblush"@ {
        Some(Color::LavenderBlush)
    } else if w == "lawngreen"@ {
        Some(Color::LawnGreen)
    } else if w == "lemonchiffon"@ {
        Some(Color::LemonChiffon)
    } else if w == "lightblue"@ {
        Some(Color::LightBlue)
    } else if w == "lightcoral"@ {
        Some(Color::LightCoral)
    } else if w == "lightcyan"@ {
        Some(Color::LightCyan)
    } else if w == "lightgoldenrodyellow"@ {
        Some(Color::LightGoldenrodYellow)
    } else if w == "lightgray"@ {
        Some(Color::LightGray)
    } else if w == "lightgreen"@ {
        Some(Color::LightGreen)
    } else if w == "lightgrey"@ {
        Some(Color::LightGrey)
    } else if w == "lightpink"@ {
        Some(Color::LightPink)
    } else if w == "lightsalmon"@ {
        Some(Color::LightSalmon)
    } else if w == "lightseagreen"@ {
        Some(Color::LightSeaGreen)
    } else if w == "lightskyblue"@ {
        Some(Color::LightSkyBlue)
    } else if w == "lightslategray"@ {
        Some(Color::LightSlateGray)
    } else if w == "lightslategrey"@ {
        Some(Color::LightSlateGrey)
    } else if w == "lightsteelblue"@ {
        Some(Color::LightSteelBlue)
    } else if w == "lightyellow"@ {
        Some(Color::LightYellow)
    } else if w == "lime"@ {
        Some(Color::Lime)
    } else if w == "limegreen"@ {
        Some(Color::LimeGreen)
    } else if w == "linen"@ {
        Some(Color::Linen)
    } else {
        None
    }
}
/// Named colors starting with `m`.
pub open spec fn named_m(w: Seq<char>) -> Option<Color> {
    if false {
        None    } else if w == "magenta"@ {
        Some(Color::Magenta)
    } else if w == "maroon"@ {
        Some(Color::Maroon)
    } else if w == "mediumaquamarine"@ {
        Some(Color::MediumAquamarine)
    } else if w == "mediumblue"@ {
        Some(Color::MediumBlue)
    } else if w == "mediumorchid"@ {
        Some(Color::MediumOrchid)
    } else if w == "mediumpurple"@ {
        Some(Color::MediumPurple)
    } else if w == "mediumseagreen"@ {
        Some(Color::MediumSeaGreen)
    } else if w == "mediumslateblue"@ {
        Some(Color::MediumSlateBlue)
    } else if w == "mediumspringgreen"@ {
        Some(Color::MediumSpringGreen)
    } else if w == "mediumturquoise"@ {
        Some(Color::MediumTurquoise)
    } else if w == "mediumvioletred"@ {
        Some(Color::MediumVioletRed)
    } else if w == "midnightblue"@ {
        Some(Color::MidnightBlue)
    } else if w == "mintcream"@ {
        Some(Color::MintCream)
    } else if w == "mistyrose"@ {
        Some(Color::MistyRose)
    } else if w == "moccasin"@ {
        Some(Color::Moccasin)
    } else {
        None
    }
}
/// Named colors starting with `n`.
pub open spec fn named_n(w: Seq<char>) -> Option<Color> {
    if false {
        None    } else if w == "navajowhite"@ {
        Some(Color::NavajoWhite)
    } else if w == "navy"@ {
        Some(Color::Navy)
    } else {
        None
    }
}
/// Named colors starting with `o`.
pub open spec fn named_o(w: Seq<char>) -> Option<Color> {
    if false {
        None    } else if w == "oldlace"@ {
        Some(Color::OldLace)
    } else if w == "olive"@ {
        Some(Color::Olive)
    } else if w == "olivedrab"@ {
        Some(Color::OliveDrab)
    } else if w == "orange"@ {
        Some(Color::Orange)
    } else if w == "orangered"@ {
        Some(Color::OrangeRed)
    } else if w == "orchid"@ {
        Some(Color::Orchid)
    } else {
        None
    }
}
/// Named colors starting with `p`.
pub open spec fn named_p(w: Seq<char>) -> Option<Color> {
    if false {
        None    } else if w == "palegoldenrod"@ {
        Some(Color::PaleGoldenrod)
    } else if w == "palegreen"@ {
        Some(Color::PaleGreen)
    } else if w == "paleturquoise"@ {
        Some(Color::PaleTurquoise)
    } else if w == "palevioletred"@ {
        Some(Color::PaleVioletRed)
    } else if w == "papayawhip"@ {
        Some(Color::PapayaWhip)
    } else if w == "peachpuff"@ {
        Some(Color::PeachPuff)
    } else if w == "peru"@ {
        Some(Color::Peru)
    } else if w == "pink"@ {
        Some(Color::Pink)
    } else if w == "plum"@ {
        Some(Color::Plum)
    } else if w == "powderblue"@ {
        Some(Color::PowderBlue)
    } else if w == "purple"@ {
        Some(Color::Purple)
    } else {
        None
    }
}
/// Named colors starting with `r`.
pub open spec fn named_r(w: Seq<char>) -> Option<Color> {
    if false {
        None    } else if w == "rebeccapurple"@ {
        Some(Color::RebeccaPurple)
    } else if w == "red"@ {
        Some(Color::Red)
    } else if w == "rosybrown"@ {
        Some(Color::RosyBrown)
    } else if w == "royalblue"@ {
        Some(Color::RoyalBlue)
    } else {
        None
    }
}
/// Named colors starting with `s`.
pub open spec fn named_s(w: Seq<char>) -> Option<Color> {
    if false {
        None    } else if w == "saddlebrown"@ {
        Some(Color::SaddleBrown)
    } else if w == "salmon"@ {
        Some(Color::Salmon)
    } else if w == "sandybrown"@ {
        Some(Color::SandyBrown)
    } else if w == "seagreen"@ {
        Some(Color::SeaGreen)
    } else if w == "seashell"@ {
        Some(Color::SeaShell)
    } else if w == "sienna"@ {
        Some(Color::Sienna)
    } else if w == "silver"@ {
        Some(Color::Silver)
    } else if w == "skyblue"@ {
        Some(Color::SkyBlue)
    } else if w == "slateblue"@ {
        Some(Color::SlateBlue)
    } else if w == "slategray"@ {
        Some(Color::SlateGray)
    } else if w == "slategrey"@ {
        Some(Color::SlateGrey)
    } else if w == "snow"@ {
        Some(Color::Snow)
    } else if w == "springgreen"@ {
        Some(Color::SpringGreen)
    } else if w == "steelblue"@ {
        Some(Color::SteelBlue)
    } else {
        None
    }
}
/// Named colors starting with `t`.
pub open spec fn named_t(w: Seq<char>) -> Option<Color> {
    if false {
        None    } else if w == "tan"@ {
        Some(Color::Tan)
    } else if w == "teal"@ {
        Some(Color::Teal)
    } else if w == "thistle"@ {
        Some(Color::Thistle)
    } else if w == "tomato"@ {
        Some(Color::Tomato)
    } else if w == "turquoise"@ {
        Some(Color::Turquoise)
    } else {
        None
    }
}
/// Named colors starting with `v`.
pub open spec fn named_v(w: Seq<char>) -> Option<Color> {
    if false {
        None    } else if w == "violet"@ {
        Some(Color::Violet)
    } else {
        None
    }
}
/// Named colors starting with `w`.
pub open spec fn named_w(w: Seq<char>) -> Option<Color> {
    if false {
        None    } else if w == "wheat"@ {
        Some(Color::Wheat)
    } else if w == "white"@ {
        Some(Color::White)
    } else if w == "whitesmoke"@ {
        Some(Color::WhiteSmoke)
    } else {
        None
    }
}
/// Named colors starting with `y`.
pub open spec fn named_y(w: Seq<char>) -> Option<Color> {
    if false {
        None    } else if w == "yellow"@ {
        Some(Color::Yellow)
    } else if w == "yellowgreen"@ {
        Some(Color::YellowGreen)
    } else {
        None
    }
}

/// Looks a word up in the named-color table, as [`named_of`].
pub fn from_named(w: &str) -> (r: Option<Color>)
    ensures
        r == named_of(w@),
{
    if w.is_empty() {
        return None;
    }
    let c = w.get_char(0);
    if false {
        None    } else if c == 'a' {
        from_named_a(w)
    } else if c == 'b' {
        from_named_b(w)
    } else if c == 'c' {
        from_named_c(w)
    } else if c == 'd' {
        from_named_d(w)
    } else if c == 'f' {
        from_named_f(w)
    } else if c == 'g' {
        from_named_g(w)
    } else if c == 'h' {
        from_named_h(w)
    } else if c == 'i' {
        from_named_i(w)
    } else if c == 'k' {
        from_named_k(w)
    } else if c == 'l' {
        from_named_l(w)
    } else if c == 'm' {
        from_named_m(w)
    } else if c == 'n' {
        from_named_n(w)
    } else if c == 'o' {
        from_named_o(w)
    } else if c == 'p' {
        from_named_p(w)
    } else if c == 'r' {
        from_named_r(w)
    } else if c == 's' {
        from_named_s(w)
    } else if c == 't' {
        from_named_t(w)
    } else if c == 'v' {
        from_named_v(w)
    } else if c == 'w' {
        from_named_w(w)
    } else if c == 'y' {
        from_named_y(w)
    } else {
        None
    }
}

fn from_named_a(w: &str) -> (r: Option<Color>)
    ensures
        r == named_a(w@),
{
    if false {
        None    } else if str_eq(w, "aliceblue") {
        Some(Color::AliceBlue)
    } else if str_eq(w, "antiquewhite") {
        Some(Color::AntiqueWhite)
    } else if str_eq(w, "aqua") {
        Some(Color::Aqua)
    } else if str_eq(w, "aquamarine") {
        Some(Color::Aquamarine)
    } else if str_eq(w, "azure") {
        Some(Color::Azure)
    } else {
        None
    }
}
fn from_named_b(w: &str) -> (r: Option<Color>)
    ensures
        r == named_b(w@),
{
    if false {
        None    } else if str_eq(w, "beige") {
        Some(Color::Beige)
    } else if str_eq(w, "bisque") {
        Some(Color::Bisque)
    } else if str_eq(w, "black") {
        Some(Color::Black)
    } else if str_eq(w, "blanchedalmond") {
        Some(Color::BlanchedAlmond)
    } else if str_eq(w, "blue") {
        Some(Color::Blue)
    } else if str_eq(w, "blueviolet") {
        Some(Color::BlueViolet)
    } else if str_eq(w, "brown") {
        Some(Color::Brown)
    } else if str_eq(w, "burlywood") {
        Some(Color::BurlyWood)
    } else {
        None
    }
}
fn from_named_c(w: &str) -> (r: Option<Color>)
    ensures
        r == named_c(w@),
{
    if false {
        None    } else if str_eq(w, "cadetblue") {
        Some(Color::CadetBlue)
    } else if str_eq(w, "chartreuse") {
        Some(Color::Chartreuse)
    } else if str_eq(w, "chocolate") {
        Some(Color::Chocolate)
    } else if str_eq(w, "coral") {
        Some(Color::Coral)
    } else if str_eq(w, "cornflowerblue") {
        Some(Color::CornflowerBlue)
    } else if str_eq(w, "cornsilk") {
        Some(Color::Cornsilk)
    } else if str_eq(w, "crimson") {
        Some(Color::Crimson)
    } else if str_eq(w, "cyan") {
        Some(Color::Cyan)
    } else {
        None
    }
}
fn from_named_d(w: &str) -> (r: Option<Color>)
    ensures
        r == named_d(w@),
{
    if false {
        None    } else if str_eq(w, "darkblue") {
        Some(Color::DarkBlue)
    } else if str_eq(w, "darkcyan") {
        Some(Color::DarkCyan)
    } else if str_eq(w, "darkgoldenrod") {
        Some(Color::DarkGoldenrod)
    } else if str_eq(w, "darkgray") {
        Some(Color::DarkGray)
    } else if str_eq(w, "darkgreen") {
        Some(Color::DarkGreen)
    } else if str_eq(w, "darkgrey") {
        Some(Color::DarkGrey)
    } else if str_eq(w, "darkkhaki") {
        Some(Color::DarkKhaki)
    } else if str_eq(w, "darkmagenta") {
        Some(Color::DarkMagenta)
    } else if str_eq(w, "darkolivegreen") {
        Some(Color::DarkOliveGreen)
    } else if str_eq(w, "darkorange") {
        Some(Color::DarkOrange)
    } else if str_eq(w, "darkorchid") {
        Some(Color::DarkOrchid)
    } else if str_eq(w, "darkred") {
        Some(Color::DarkRed)
    } else if str_eq(w, "darksalmon") {
        Some(Color::DarkSalmon)
    } else if str_eq(w, "darkseagreen") {
        Some(Color::DarkSeaGreen)
    } else if str_eq(w, "darkslateblue") {
        Some(Color::DarkSlateBlue)
    } else if str_eq(w, "darkslategray") {
        Some(Color::DarkSlateGray)
    } else if str_eq(w, "darkslategrey") {
        Some(Color::DarkSlateGrey)
    } else if str_eq(w, "darkturquoise") {
        Some(Color::DarkTurquoise)
    } else if str_eq(w, "darkviolet") {
        Some(Color::DarkViolet)
    } else if str_eq(w, "deeppink") {
        Some(Color::DeepPink)
    } else if str_eq(w, "deepskyblue") {
        Some(Color::DeepSkyBlue)
    } else if str_eq(w, "dimgray") {
        Some(Color::DimGray)
    } else if str_eq(w, "dimgrey") {
        Some(Color::DimGrey)
    } else if str_eq(w, "dodgerblue") {
        Some(Color::DodgerBlue)
    } else {
        None
    }
}
fn from_named_f(w: &str) -> (r: Option<Color>)
    ensures
        r == named_f(w@),
{
    if false {
        None    } else if str_eq(w, "firebrick") {
        Some(Color::FireBrick)
    } else if str_eq(w, "floralwhite") {
        Some(Color::FloralWhite)
    } else if str_eq(w, "forestgreen") {
        Some(Color::ForestGreen)
    } else if str_eq(w, "fuchsia") {
        Some(Color::Fuchsia)
    } else {
        None
    }
}
fn from_named_g(w: &str) -> (r: Option<Color>)
    ensures
        r == named_g(w@),
{
    if false {
        None    } else if str_eq(w, "gainsboro") {
        Some(Color::Gainsboro)
    } else if str_eq(w, "ghostwhite") {
        Some(Color::GhostWhite)
    } else if str_eq(w, "gold") {
        Some(Color::Gold)
    } else if str_eq(w, "goldenrod") {
        Some(Color::Goldenrod)
    } else if str_eq(w, "gray") {
        Some(Color::Gray)
    } else if str_eq(w, "green") {
        Some(Color::Green)
    } else if str_eq(w, "greenyellow") {
        Some(Color::GreenYellow)
    } else if str_eq(w, "grey") {
        Some(Color::Grey)
    } else {
        None
    }
}
fn from_named_h(w: &str) -> (r: Option<Color>)
    ensures
        r == named_h(w@),
{
    if false {
        None    } else if str_eq(w, "honeydew") {
        Some(Color::Honeydew)
    } else if str_eq(w, "hotpink") {
        Some(Color::HotPink)
    } else {
        None
    }
}
fn from_named_i(w: &str) -> (r: Option<Color>)
    ensures
        r == named_i(w@),
{
    if false {
        None    } else if str_eq(w, "indianred") {
        Some(Color::IndianRed)
    } else if str_eq(w, "indigo") {
        Some(Color::Indigo)
    } else if str_eq(w, "ivory") {
        Some(Color::Ivory)
    } else {
        None
    }
}
fn from_named_k(w: &str) -> (r: Option<Color>)
    ensures
        r == named_k(w@),
{
    if false {
        None    } else if str_eq(w, "khaki") {
        Some(Color::Khaki)
    } else {
        None
    }
}
fn from_named_l(w: &str) -> (r: Option<Color>)
    ensures
        r == named_l(w@),
{
    if false {
        None    } else if str_eq(w, "lavender") {
        Some(Color::Lavender)
    } else if str_eq(w, "lavenderblush") {
        Some(Color::LavenderBlush)
    } else if str_eq(w, "lawngreen") {
        Some(Color::LawnGreen)
    } else if str_eq(w, "lemonchiffon") {
        Some(Color::LemonChiffon)
    } else if str_eq(w, "lightblue") {
        Some(Color::LightBlue)
    } else if str_eq(w, "lightcoral") {
        Some(Color::LightCoral)
    } else if str_eq(w, "lightcyan") {
        Some(Color::LightCyan)
    } else if str_eq(w, "lightgoldenrodyellow") {
        Some(Color::LightGoldenrodYellow)
    } else if str_eq(w, "lightgray") {
        Some(Color::LightGray)
    } else if str_eq(w, "lightgreen") {
        Some(Color::LightGreen)
    } else if str_eq(w, "lightgrey") {
        Some(Color::LightGrey)
    } else if str_eq(w, "lightpink") {
        Some(Color::LightPink)
    } else if str_eq(w, "lightsalmon") {
        Some(Color::LightSalmon)
    } else if str_eq(w, "lightseagreen") {
        Some(Color::LightSeaGreen)
    } else if str_eq(w, "lightskyblue") {
        Some(Color::LightSkyBlue)
    } else if str_eq(w, "lightslategray") {
        Some(Color::LightSlateGray)
    } else if str_eq(w, "lightslategrey") {
        Some(Color::LightSlateGrey)
    } else if str_eq(w, "lightsteelblue") {
        Some(Color::LightSteelBlue)
    } else if str_eq(w, "lightyellow") {
        Some(Color::LightYellow)
    } else if str_eq(w, "lime") {
        Some(Color::Lime)
    } else if str_eq(w, "limegreen") {
        Some(Color::LimeGreen)
    } else if str_eq(w, "linen") {
        Some(Color::Linen)
    } else {
        None
    }
}
fn from_named_m(w: &str) -> (r: Option<Color>)
    ensures
        r == named_m(w@),
{
    if false {
        None    } else if str_eq(w, "magenta") {
        Some(Color::Magenta)
    } else if str_eq(w, "maroon") {
        Some(Color::Maroon)
    } else if str_eq(w, "mediumaquamarine") {
        Some(Color::MediumAquamarine)
    } else if str_eq(w, "mediumblue") {
        Some(Color::MediumBlue)
    } else if str_eq(w, "mediumorchid") {
        Some(Color::MediumOrchid)
    } else if str_eq(w, "mediumpurple") {
        Some(Color::MediumPurple)
    } else if str_eq(w, "mediumseagreen") {
        Some(Color::MediumSeaGreen)
    } else if str_eq(w, "mediumslateblue") {
        Some(Color::MediumSlateBlue)
    } else if str_eq(w, "mediumspringgreen") {
        Some(Color::MediumSpringGreen)
    } else if str_eq(w, "mediumturquoise") {
        Some(Color::MediumTurquoise)
    } else if str_eq(w, "mediumvioletred") {
        Some(Color::MediumVioletRed)
    } else if str_eq(w, "midnightblue") {
        Some(Color::MidnightBlue)
    } else if str_eq(w, "mintcream") {
        Some(Color::MintCream)
    } else if str_eq(w, "mistyrose") {
        Some(Color::MistyRose)
    } else if str_eq(w, "moccasin") {
        Some(Color::Moccasin)
    } else {
        None
    }
}
fn from_named_n(w: &str) -> (r: Option<Color>)
    ensures
        r == named_n(w@),
{
    if false {
        None    } else if str_eq(w, "navajowhite") {
        Some(Color::NavajoWhite)
    } else if str_eq(w, "navy") {
        Some(Color::Navy)
    } else {
        None
    }
}
fn from_named_o(w: &str) -> (r: Option<Color>)
    ensures
        r == named_o(w@),
{
    if false {
        None    } else if str_eq(w, "oldlace") {
        Some(Color::OldLace)
    } else if str_eq(w, "olive") {
        Some(Color::Olive)
    } else if str_eq(w, "olivedrab") {
        Some(Color::OliveDrab)
    } else if str_eq(w, "orange") {
        Some(Color::Orange)
    } else if str_eq(w, "orangered") {
        Some(Color::OrangeRed)
    } else if str_eq(w, "orchid") {
        Some(Color::Orchid)
    } else {
        None
    }
}
fn from_named_p(w: &str) -> (r: Option<Color>)
    ensures
        r == named_p(w@),
{
    if false {
        None    } else if str_eq(w, "palegoldenrod") {
        Some(Color::PaleGoldenrod)
    } else if str_eq(w, "palegreen") {
        Some(Color::PaleGreen)
    } else if str_eq(w, "paleturquoise") {
        Some(Color::PaleTurquoise)
    } else if str_eq(w, "palevioletred") {
        Some(Color::PaleVioletRed)
    } else if str_eq(w, "papayawhip") {
        Some(Color::PapayaWhip)
    } else if str_eq(w, "peachpuff") {
        Some(Color::PeachPuff)
    } else if str_eq(w, "peru") {
        Some(Color::Peru)
    } else if str_eq(w, "pink") {
        Some(Color::Pink)
    } else if str_eq(w, "plum") {
        Some(Color::Plum)
    } else if str_eq(w, "powderblue") {
        Some(Color::PowderBlue)
    } else if str_eq(w, "purple") {
        Some(Color::Purple)
    } else {
        None
    }
}
fn from_named_r(w: &str) -> (r: Option<Color>)
    ensures
        r == named_r(w@),
{
    if false {
        None    } else if str_eq(w, "rebeccapurple") {
        Some(Color::RebeccaPurple)
    } else if str_eq(w, "red") {
        Some(Color::Red)
    } else if str_eq(w, "rosybrown") {
        Some(Color::RosyBrown)
    } else if str_eq(w, "royalblue") {
        Some(Color::RoyalBlue)
    } else {
        None
    }
}
fn from_named_s(w: &str) -> (r: Option<Color>)
    ensures
        r == named_s(w@),
{
    if false {
        None    } else if str_eq(w, "saddlebrown") {
        Some(Color::SaddleBrown)
    } else if str_eq(w, "salmon") {
        Some(Color::Salmon)
    } else if str_eq(w, "sandybrown") {
        Some(Color::SandyBrown)
    } else if str_eq(w, "seagreen") {
        Some(Color::SeaGreen)
    } else if str_eq(w, "seashell") {
        Some(Color::SeaShell)
    } else if str_eq(w, "sienna") {
        Some(Color::Sienna)
    } else if str_eq(w, "silver") {
        Some(Color::Silver)
    } else if str_eq(w, "skyblue") {
        Some(Color::SkyBlue)
    } else if str_eq(w, "slateblue") {
        Some(Color::SlateBlue)
    } else if str_eq(w, "slategray") {
        Some(Color::SlateGray)
    } else if str_eq(w, "slategrey") {
        Some(Color::SlateGrey)
    } else if str_eq(w, "snow") {
        Some(Color::Snow)
    } else if str_eq(w, "springgreen") {
        Some(Color::SpringGreen)
    } else if str_eq(w, "steelblue") {
        Some(Color::SteelBlue)
    } else {
        None
    }
}
fn from_named_t(w: &str) -> (r: Option<Color>)
    ensures
        r == named_t(w@),
{
    if false {
        None    } else if str_eq(w, "tan") {
        Some(Color::Tan)
    } else if str_eq(w, "teal") {
        Some(Color::Teal)
    } else if str_eq(w, "thistle") {
        Some(Color::Thistle)
    } else if str_eq(w, "tomato") {
        Some(Color::Tomato)
    } else if str_eq(w, "turquoise") {
        Some(Color::Turquoise)
    } else {
        None
    }
}
fn from_named_v(w: &str) -> (r: Option<Color>)
    ensures
        r == named_v(w@),
{
    if false {
        None    } else if str_eq(w, "violet") {
        Some(Color::Violet)
    } else {
        None
    }
}
fn from_named_w(w: &str) -> (r: Option<Color>)
    ensures
        r == named_w(w@),
{
    if false {
        None    } else if str_eq(w, "wheat") {
        Some(Color::Wheat)
    } else if str_eq(w, "white") {
        Some(Color::White)
    } else if str_eq(w, "whitesmoke") {
        Some(Color::WhiteSmoke)
    } else {
        None
    }
}
fn from_named_y(w: &str) -> (r: Option<Color>)
    ensures
        r == named_y(w@),
{
    if false {
        None    } else if str_eq(w, "yellow") {
        Some(Color::Yellow)
    } else if str_eq(w, "yellowgreen") {
        Some(Color::YellowGreen)
    } else {
        None
    }
}

} // verus!
