//! Composite property values: lengths, percentages, and the structured
//! values built from them.

use vstd::prelude::*;
use vstd::string::StringExecFns;
use crate::color::Color;
use crate::keywords::LineStyle;
use crate::num::Num;

verus! {

/// A CSS length: a number with a unit, or the bare, unit-less `0`.
#[derive(Debug, Clone, Copy, PartialEq, Eq, Structural)]
pub enum Length {
    Em(Num),
    Ex(Num),
    In(Num),
    Cm(Num),
    Mm(Num),
    Pt(Num),
    Pc(Num),
    Px(Num),
    Zero,
}

impl Length {
    /// The component numbers are normalized.
    pub open spec fn wf(self) -> bool {
        match self {
            Length::Em(v) => v.wf(),
            Length::Ex(v) => v.wf(),
            Length::In(v) => v.wf(),
            Length::Cm(v) => v.wf(),
            Length::Mm(v) => v.wf(),
            Length::Pt(v) => v.wf(),
            Length::Pc(v) => v.wf(),
            Length::Px(v) => v.wf(),
            Length::Zero => true,
        }
    }

    /// The number followed by its unit; `Zero` renders as `0`.
    pub open spec fn css(self) -> Seq<char> {
        match self {
            Length::Em(v) => v.css() + "em"@,
            Length::Ex(v) => v.css() + "ex"@,
            Length::In(v) => v.css() + "in"@,
            Length::Cm(v) => v.css() + "cm"@,
            Length::Mm(v) => v.css() + "mm"@,
            Length::Pt(v) => v.css() + "pt"@,
            Length::Pc(v) => v.css() + "pc"@,
            Length::Px(v) => v.css() + "px"@,
            Length::Zero => "0"@,
        }
    }

    /// Appends the canonical text of `self`.
    pub fn write_css(&self, out: &mut String)
        ensures
            final(out)@ == old(out)@ + self.css(),
    {
        match self {
            Length::Em(v) => {
                v.write_css(out);
                out.append("em");
                proof {
                    assert(final(out)@ =~= old(out)@ + self.css());
                }
            },
            Length::Ex(v) => {
                v.write_css(out);
                out.append("ex");
                proof {
                    assert(final(out)@ =~= old(out)@ + self.css());
                }
            },
            Length::In(v) => {
                v.write_css(out);
                out.append("in");
                proof {
                    assert(final(out)@ =~= old(out)@ + self.css());
                }
            },
            Length::Cm(v) => {
                v.write_css(out);
                out.append("cm");
                proof {
                    assert(final(out)@ =~= old(out)@ + self.css());
                }
            },
            Length::Mm(v) => {
                v.write_css(out);
                out.append("mm");
                proof {
                    assert(final(out)@ =~= old(out)@ + self.css());
                }
            },
            Length::Pt(v) => {
                v.write_css(out);
                out.append("pt");
                proof {
                    assert(final(out)@ =~= old(out)@ + self.css());
                }
            },
            Length::Pc(v) => {
                v.write_css(out);
                out.append("pc");
                proof {
                    assert(final(out)@ =~= old(out)@ + self.css());
                }
            },
            Length::Px(v) => {
                v.write_css(out);
                out.append("px");
                proof {
                    assert(final(out)@ =~= old(out)@ + self.css());
                }
            },
            Length::Zero => {
                out.append("0");
            },
        }
    }

    /// The canonical text of `self` as an owned string.
    pub fn to_css_string(&self) -> (r: String)
        ensures
            r@ == self.css(),
    {
        let mut out = String::new();
        self.write_css(&mut out);
        out
    }
}

/// A percentage; renders with a trailing `%`.  No range is imposed here.
#[derive(Debug, Clone, Copy, PartialEq, Eq, Structural)]
pub struct Percentage(pub Num);

impl Percentage {
    pub open spec fn wf(self) -> bool {
        self.0.wf()
    }

    pub open spec fn css(self) -> Seq<char> {
        self.0.css() + "%"@
    }

    /// Appends the canonical text of `self`.
    pub fn write_css(&self, out: &mut String)
        ensures
            final(out)@ == old(out)@ + self.css(),
    {
        self.0.write_css(out);
        out.append("%");
        proof {
            assert(final(out)@ =~= old(out)@ + self.css());
        }
    }
}

/// Either a length or a percentage, wherever CSS permits both.
#[derive(Debug, Clone, Copy, PartialEq, Eq, Structural)]
pub enum LengthPercentage {
    Length(Length),
    Percentage(Percentage),
}

/// The value of a single padding edge.
pub type PaddingWidth = LengthPercentage;

impl LengthPercentage {
    pub open spec fn wf(self) -> bool {
        match self {
            LengthPercentage::Length(v) => v.wf(),
            LengthPercentage::Percentage(v) => v.wf(),
        }
    }

    pub open spec fn css(self) -> Seq<char> {
        match self {
            LengthPercentage::Length(v) => v.css(),
            LengthPercentage::Percentage(v) => v.css(),
        }
    }

    /// Appends the canonical text of `self`.
    pub fn write_css(&self, out: &mut String)
        ensures
            final(out)@ == old(out)@ + self.css(),
    {
        match self {
            LengthPercentage::Length(v) => v.write_css(out),
            LengthPercentage::Percentage(v) => v.write_css(out),
        }
    }
}

/// A border line width: a keyword or an explicit length.
#[derive(Debug, Clone, Copy, PartialEq, Eq, Structural)]
pub enum LineWidth {
    Length(Length),
    Thin,
    Medium,
    Thick,
}

impl LineWidth {
    pub open spec fn wf(self) -> bool {
        match self {
            LineWidth::Length(v) => v.wf(),
            _ => true,
        }
    }

    pub open spec fn css(self) -> Seq<char> {
        match self {
            LineWidth::Length(v) => v.css(),
            LineWidth::Thin => "thin"@,
            LineWidth::Medium => "medium"@,
            LineWidth::Thick => "thick"@,
        }
    }

    /// Appends the canonical text of `self`.
    pub fn write_css(&self, out: &mut String)
        ensures
            final(out)@ == old(out)@ + self.css(),
    {
        match self {
            LineWidth::Length(v) => v.write_css(out),
            LineWidth::Thin => {
                out.append("thin");
            },
            LineWidth::Medium => {
                out.append("medium");
            },
            LineWidth::Thick => {
                out.append("thick");
            },
        }
    }
}

/// A font weight: a keyword, or a number between 1 and 1000.
#[derive(Debug, Clone, Copy, PartialEq, Eq, Structural)]
pub enum FontWeight {
    Normal,
    Bold,
    Lighter,
    Bolder,
    Number(Num),
}

impl FontWeight {
    /// A numeric weight lies in `1..=1000`.
    pub open spec fn wf(self) -> bool {
        match self {
            FontWeight::Number(n) => n.wf() && n.val_ge_int(1) && n.val_le_int(1000),
            _ => true,
        }
    }

    pub open spec fn css(self) -> Seq<char> {
        match self {
            FontWeight::Normal => "normal"@,
            FontWeight::Bold => "bold"@,
            FontWeight::Lighter => "lighter"@,
            FontWeight::Bolder => "bolder"@,
            FontWeight::Number(n) => n.css(),
        }
    }

    /// Appends the canonical text of `self`.
    pub fn write_css(&self, out: &mut String)
        ensures
            final(out)@ == old(out)@ + self.css(),
    {
        match self {
            FontWeight::Normal => {
                out.append("normal");
            },
            FontWeight::Bold => {
                out.append("bold");
            },
            FontWeight::Lighter => {
                out.append("lighter");
            },
            FontWeight::Bolder => {
                out.append("bolder");
            },
            FontWeight::Number(n) => n.write_css(out),
        }
    }
}

/// A font size: an absolute or relative keyword, or an explicit value.
#[derive(Debug, Clone, Copy, PartialEq, Eq, Structural)]
pub enum FontSize {
    XXSmall,
    XSmall,
    Small,
    Medium,
    Large,
    XLarge,
    XXLarge,
    XXXLarge,
    Larger,
    Smaller,
    LengthPercentage(LengthPercentage),
}

impl FontSize {
    pub open spec fn wf(self) -> bool {
        match self {
            FontSize::LengthPercentage(v) => v.wf(),
            _ => true,
        }
    }

    pub open spec fn css(self) -> Seq<char> {
        match self {
            FontSize::XXSmall => "xx-small"@,
            FontSize::XSmall => "x-small"@,
            FontSize::Small => "small"@,
            FontSize::Medium => "medium"@,
            FontSize::Large => "large"@,
            FontSize::XLarge => "x-large"@,
            FontSize::XXLarge => "xx-large"@,
            FontSize::XXXLarge => "xxx-large"@,
            FontSize::Larger => "larger"@,
            FontSize::Smaller => "smaller"@,
            FontSize::LengthPercentage(v) => v.css(),
        }
    }

    /// Appends the canonical text of `self`.
    pub fn write_css(&self, out: &mut String)
        ensures
            final(out)@ == old(out)@ + self.css(),
    {
        match self {
            FontSize::XXSmall => {
                out.append("xx-small");
            },
            FontSize::XSmall => {
                out.append("x-small");
            },
            FontSize::Small => {
                out.append("small");
            },
            FontSize::Medium => {
                out.append("medium");
            },
            FontSize::Large => {
                out.append("large");
            },
            FontSize::XLarge => {
                out.append("x-large");
            },
            FontSize::XXLarge => {
                out.append("xx-large");
            },
            FontSize::XXXLarge => {
                out.append("xxx-large");
            },
            FontSize::Larger => {
                out.append("larger");
            },
            FontSize::Smaller => {
                out.append("smaller");
            },
            FontSize::LengthPercentage(v) => v.write_css(out),
        }
    }
}

/// CSS 2.1 width, for use with flexbox.
#[derive(Debug, Clone, Copy, PartialEq, Eq, Structural)]
pub enum Width21 {
    Auto,
    LengthPercentage(LengthPercentage),
}

impl Width21 {
    pub open spec fn wf(self) -> bool {
        match self {
            Width21::LengthPercentage(v) => v.wf(),
            Width21::Auto => true,
        }
    }

    pub open spec fn css(self) -> Seq<char> {
        match self {
            Width21::Auto => "auto"@,
            Width21::LengthPercentage(v) => v.css(),
        }
    }

    /// Appends the canonical text of `self`.
    pub fn write_css(&self, out: &mut String)
        ensures
            final(out)@ == old(out)@ + self.css(),
    {
        match self {
            Width21::Auto => {
                out.append("auto");
            },
            Width21::LengthPercentage(v) => v.write_css(out),
        }
    }
}

/// A flex basis: a width or the `content` keyword.
#[derive(Debug, Clone, Copy, PartialEq, Eq, Structural)]
pub enum FlexBasis {
    Width(Width21),
    Content,
}

impl FlexBasis {
    pub open spec fn wf(self) -> bool {
        match self {
            FlexBasis::Width(v) => v.wf(),
            FlexBasis::Content => true,
        }
    }

    pub open spec fn css(self) -> Seq<char> {
        match self {
            FlexBasis::Width(v) => v.css(),
            FlexBasis::Content => "content"@,
        }
    }

    /// Appends the canonical text of `self`.
    pub fn write_css(&self, out: &mut String)
        ensures
            final(out)@ == old(out)@ + self.css(),
    {
        match self {
            FlexBasis::Width(v) => v.write_css(out),
            FlexBasis::Content => {
                out.append("content");
            },
        }
    }
}

/// The value of one margin edge.
#[derive(Debug, Clone, Copy, PartialEq, Eq, Structural)]
pub enum MarginWidth {
    LengthPercentage(LengthPercentage),
    Auto,
}

impl MarginWidth {
    pub open spec fn wf(self) -> bool {
        match self {
            MarginWidth::LengthPercentage(v) => v.wf(),
            MarginWidth::Auto => true,
        }
    }

    pub open spec fn css(self) -> Seq<char> {
        match self {
            MarginWidth::LengthPercentage(v) => v.css(),
            MarginWidth::Auto => "auto"@,
        }
    }

    /// Appends the canonical text of `self`.
    pub fn write_css(&self, out: &mut String)
        ensures
            final(out)@ == old(out)@ + self.css(),
    {
        match self {
            MarginWidth::LengthPercentage(v) => v.write_css(out),
            MarginWidth::Auto => {
                out.append("auto");
            },
        }
    }
}

/// The value of `width`, `height`, `min-width` and `min-height`.
#[derive(Debug, Clone, Copy, PartialEq, Eq, Structural)]
pub enum WidthHeight {
    Auto,
    LengthPercentage(LengthPercentage),
    MinContent,
    MaxContent,
    FitContent(LengthPercentage),
}

impl WidthHeight {
    pub open spec fn wf(self) -> bool {
        match self {
            WidthHeight::LengthPercentage(v) => v.wf(),
            WidthHeight::FitContent(v) => v.wf(),
            _ => true,
        }
    }

    pub open spec fn css(self) -> Seq<char> {
        match self {
            WidthHeight::Auto => "auto"@,
            WidthHeight::LengthPercentage(v) => v.css(),
            WidthHeight::MinContent => "min-content"@,
            WidthHeight::MaxContent => "max-content"@,
            WidthHeight::FitContent(v) => "fit-content("@ + v.css() + ")"@,
        }
    }

    /// Appends the canonical text of `self`.
    pub fn write_css(&self, out: &mut String)
        ensures
            final(out)@ == old(out)@ + self.css(),
    {
        match self {
            WidthHeight::Auto => {
                out.append("auto");
            },
            WidthHeight::LengthPercentage(v) => v.write_css(out),
            WidthHeight::MinContent => {
                out.append("min-content");
            },
            WidthHeight::MaxContent => {
                out.append("max-content");
            },
            WidthHeight::FitContent(v) => {
                out.append("fit-content(");
                v.write_css(out);
                out.append(")");
                proof {
                    assert(final(out)@ =~= old(out)@ + self.css());
                }
            },
        }
    }
}

/// The value of `max-width` and `max-height`.
#[derive(Debug, Clone, Copy, PartialEq, Eq, Structural)]
pub enum MaxWidthHeight {
    NoneValue,
    LengthPercentage(LengthPercentage),
    MinContent,
    MaxContent,
    FitContent(LengthPercentage),
}

impl MaxWidthHeight {
    pub open spec fn wf(self) -> bool {
        match self {
            MaxWidthHeight::LengthPercentage(v) => v.wf(),
            MaxWidthHeight::FitContent(v) => v.wf(),
            _ => true,
        }
    }

    pub open spec fn css(self) -> Seq<char> {
        match self {
            MaxWidthHeight::NoneValue => "none"@,
            MaxWidthHeight::LengthPercentage(v) => v.css(),
            MaxWidthHeight::MinContent => "min-content"@,
            MaxWidthHeight::MaxContent => "max-content"@,
            MaxWidthHeight::FitContent(v) => "fit-content("@ + v.css() + ")"@,
        }
    }

    /// Appends the canonical text of `self`.
    pub fn write_css(&self, out: &mut String)
        ensures
            final(out)@ == old(out)@ + self.css(),
    {
        match self {
            MaxWidthHeight::NoneValue => {
                out.append("none");
            },
            MaxWidthHeight::LengthPercentage(v) => v.write_css(out),
            MaxWidthHeight::MinContent => {
                out.append("min-content");
            },
            MaxWidthHeight::MaxContent => {
                out.append("max-content");
            },
            MaxWidthHeight::FitContent(v) => {
                out.append("fit-content(");
                v.write_css(out);
                out.append(")");
                proof {
                    assert(final(out)@ =~= old(out)@ + self.css());
                }
            },
        }
    }
}

/// The value of `object-fit`, with the optional `scale-down` modifier on
/// `contain` and `cover`.
#[derive(Debug, Clone, Copy, PartialEq, Eq, Structural)]
pub enum ObjectFit {
    Fill,
    NoneValue,
    Contain { scale_down: bool },
    Cover { scale_down: bool },
}

impl ObjectFit {
    pub open spec fn css(self) -> Seq<char> {
        match self {
            ObjectFit::Fill => "fill"@,
            ObjectFit::NoneValue => "none"@,
            ObjectFit::Contain { scale_down } => if scale_down {
                "contain scale-down"@
            } else {
                "contain"@
            },
            ObjectFit::Cover { scale_down } => if scale_down {
                "cover scale-down"@
            } else {
                "cover"@
            },
        }
    }

    /// Appends the canonical text of `self`.
    pub fn write_css(&self, out: &mut String)
        ensures
            final(out)@ == old(out)@ + self.css(),
    {
        match self {
            ObjectFit::Fill => {
                out.append("fill");
            },
            ObjectFit::NoneValue => {
                out.append("none");
            },
            ObjectFit::Contain { scale_down } => {
                if *scale_down {
                    out.append("contain scale-down");
                } else {
                    out.append("contain");
                }
            },
            ObjectFit::Cover { scale_down } => {
                if *scale_down {
                    out.append("cover scale-down");
                } else {
                    out.append("cover");
                }
            },
        }
    }
}

/// A `url("...")` reference.
#[derive(Debug, Clone, PartialEq)]
pub struct Url {
    url: String,
}

impl Url {
    /// Renders as `url("...")` around the stored text.
    pub closed spec fn css(self) -> Seq<char> {
        "url(\""@ + self.url@ + "\")"@
    }

    /// A reference to `url`.
    pub fn new(url: String) -> (r: Url)
        ensures
            r.css() == "url(\""@ + url@ + "\")"@,
    {
        Url { url }
    }

    /// Appends the canonical text of `self`.
    pub fn write_css(&self, out: &mut String)
        ensures
            final(out)@ == old(out)@ + self.css(),
    {
        out.append("url(\"");
        out.append(self.url.as_str());
        out.append("\")");
        proof {
            assert(final(out)@ =~= old(out)@ + self.css());
        }
    }
}

/// A `border` shorthand: up to one line width, one line style and one
/// color, each optional, in any source order.  No component is ever given
/// twice; the parser rejects duplicates.
#[derive(Debug, Clone, Copy, PartialEq, Eq, Structural)]
pub struct Border {
    pub line_width: Option<LineWidth>,
    pub line_style: Option<LineStyle>,
    pub color: Option<Color>,
}

impl Border {
    pub open spec fn wf(self) -> bool {
        &&& match self.line_width {
            Option::Some(w) => w.wf(),
            Option::None => true,
        }
        &&& match self.color {
            Option::Some(c) => c.wf(),
            Option::None => true,
        }
    }

    /// An empty border, with no component set.
    pub fn new() -> (r: Border)
        ensures
            r.line_width is None,
            r.line_style is None,
            r.color is None,
    {
        Border { line_width: Option::None, line_style: Option::None, color: Option::None }
    }

    /// Whether all three components are set.
    pub fn is_full(&self) -> (r: bool)
        ensures
            r == (self.line_width is Some && self.line_style is Some && self.color is Some),
    {
        match (&self.line_width, &self.line_style, &self.color) {
            (Option::Some(_), Option::Some(_), Option::Some(_)) => true,
            _ => false,
        }
    }

    /// Whether the line width is set.
    pub fn has_line_width(&self) -> (r: bool)
        ensures
            r == (self.line_width is Some),
    {
        self.line_width.is_some()
    }

    /// Whether the line style is set.
    pub fn has_line_style(&self) -> (r: bool)
        ensures
            r == (self.line_style is Some),
    {
        self.line_style.is_some()
    }

    /// Whether the color is set.
    pub fn has_color(&self) -> (r: bool)
        ensures
            r == (self.color is Some),
    {
        self.color.is_some()
    }

    /// The components present, width then style then color, joined by
    /// single spaces.
    pub open spec fn css(self) -> Seq<char> {
        (match self.line_width {
            Option::Some(w) => w.css(),
            Option::None => Seq::empty(),
        }) + (match self.line_style {
            Option::Some(st) => (if self.line_width is Some {
                " "@
            } else {
                Seq::empty()
            }) + st.css(),
            Option::None => Seq::empty(),
        }) + (match self.color {
            Option::Some(c) => (if self.line_width is Some || self.line_style is Some {
                " "@
            } else {
                Seq::empty()
            }) + c.css(),
            Option::None => Seq::empty(),
        })
    }

    /// Appends the canonical text of `self`.
    pub fn write_css(&self, out: &mut String)
        ensures
            final(out)@ == old(out)@ + self.css(),
    {
        let mut cont = false;
        if let Option::Some(w) = &self.line_width {
            w.write_css(out);
            cont = true;
        }
        if let Option::Some(st) = &self.line_style {
            if cont {
                out.append(" ");
            }
            st.write_css(out);
            cont = true;
        }
        if let Option::Some(c) = &self.color {
            if cont {
                out.append(" ");
            }
            c.write_css(out);
        }
        proof {
            assert(final(out)@ =~= old(out)@ + self.css());
        }
    }

    /// The canonical text of `self` as an owned string.
    pub fn to_css_string(&self) -> (r: String)
        ensures
            r@ == self.css(),
    {
        let mut out = String::new();
        self.write_css(&mut out);
        out
    }
}

} // verus!
