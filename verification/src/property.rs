//! The property model: one variant per supported CSS property, and the
//! ordered containers of properties.

use vstd::prelude::*;
use vstd::string::StringExecFns;
use crate::color::{Color, DynamicColor};
use crate::keywords::{
    AlignItems, BoxSizing, Cursor, Display, FlexDirection, FlexWrap, FontStyle, JustifyContent,
    LineStyle, ListStyleType, Resize,
};
use crate::num::Num;
use crate::quads::{BorderColor, BorderStyle, BorderWidth, Margin, Padding};
use crate::text::EscapeBlock;
use crate::values::{
    Border, FlexBasis, FontSize, FontWeight, LengthPercentage, LineWidth, MarginWidth,
    MaxWidthHeight, ObjectFit, PaddingWidth, WidthHeight,
};

verus! {

/// One CSS property with its typed value, or the no-op `Dummy` entry.
///
/// `Dummy` renders as nothing and is skipped when a property list is
/// serialized; it keeps a property slot syntactically valid where no real
/// value is wanted.
#[derive(Debug, Clone, PartialEq)]
pub enum Style {
    Dummy,
    AlignItems(AlignItems),
    BackgroundColor(DynamicColor),
    Border(Border),
    BorderBottomColor(Color),
    BorderBottomStyle(LineStyle),
    BorderBottomWidth(LineWidth),
    BorderColor(BorderColor),
    BorderLeftColor(Color),
    BorderLeftStyle(LineStyle),
    BorderLeftWidth(LineWidth),
    BorderRightColor(Color),
    BorderRightStyle(LineStyle),
    BorderRightWidth(LineWidth),
    BorderStyle(BorderStyle),
    BorderTopColor(Color),
    BorderTopStyle(LineStyle),
    BorderTopWidth(LineWidth),
    BorderWidth(BorderWidth),
    BoxSizing(BoxSizing),
    Color(DynamicColor),
    Cursor(Cursor),
    Display(Display),
    FlexBasis(FlexBasis),
    FlexDirection(FlexDirection),
    FlexGrow(Num),
    FlexShrink(Num),
    FlexWrap(FlexWrap),
    FontFamily(String),
    FontSize(FontSize),
    FontStyle(FontStyle),
    FontWeight(FontWeight),
    Height(WidthHeight),
    JustifyContent(JustifyContent),
    ListStyleType(ListStyleType),
    Margin(Margin),
    MarginBottom(MarginWidth),
    MarginLeft(MarginWidth),
    MarginRight(MarginWidth),
    MarginTop(MarginWidth),
    MaxHeight(MaxWidthHeight),
    MaxWidth(MaxWidthHeight),
    MinHeight(LengthPercentage),
    MinWidth(LengthPercentage),
    ObjectFit(ObjectFit),
    Padding(Padding),
    PaddingBottom(PaddingWidth),
    PaddingLeft(PaddingWidth),
    PaddingRight(PaddingWidth),
    PaddingTop(PaddingWidth),
    Resize(Resize),
    Width(WidthHeight),
}

impl Style {
    /// Validity of the carried value.
    pub open spec fn wf(self) -> bool {
        match self {
            Style::BackgroundColor(c) => match c {
                DynamicColor::Literal(cc) => cc.wf(),
                DynamicColor::Dynamic(_) => true,
            },
            Style::Border(x) => x.wf(),
            Style::BorderBottomColor(x) => x.wf(),
            Style::BorderBottomWidth(x) => x.wf(),
            Style::BorderColor(x) => x.wf(),
            Style::BorderLeftColor(x) => x.wf(),
            Style::BorderLeftWidth(x) => x.wf(),
            Style::BorderRightColor(x) => x.wf(),
            Style::BorderRightWidth(x) => x.wf(),
            Style::BorderStyle(x) => x.wf(),
            Style::BorderTopColor(x) => x.wf(),
            Style::BorderTopWidth(x) => x.wf(),
            Style::BorderWidth(x) => x.wf(),
            Style::Color(c) => match c {
                DynamicColor::Literal(cc) => cc.wf(),
                DynamicColor::Dynamic(_) => true,
            },
            Style::FlexBasis(x) => x.wf(),
            Style::FlexGrow(x) => x.wf(),
            Style::FlexShrink(x) => x.wf(),
            Style::FontSize(x) => x.wf(),
            Style::FontWeight(x) => x.wf(),
            Style::Height(x) => x.wf(),
            Style::Margin(x) => x.wf(),
            Style::MarginBottom(x) => x.wf(),
            Style::MarginLeft(x) => x.wf(),
            Style::MarginRight(x) => x.wf(),
            Style::MarginTop(x) => x.wf(),
            Style::MaxHeight(x) => x.wf(),
            Style::MaxWidth(x) => x.wf(),
            Style::MinHeight(x) => x.wf(),
            Style::MinWidth(x) => x.wf(),
            Style::Padding(x) => x.wf(),
            Style::PaddingBottom(x) => x.wf(),
            Style::PaddingLeft(x) => x.wf(),
            Style::PaddingRight(x) => x.wf(),
            Style::PaddingTop(x) => x.wf(),
            Style::Width(x) => x.wf(),
            _ => true,
        }
    }

    /// Whether this is the no-op entry.
    pub open spec fn is_dummy_spec(self) -> bool {
        self is Dummy
    }

    /// Whether the carried value is an escape block.
    pub open spec fn is_dynamic_spec(self) -> bool {
        match self {
            Style::BackgroundColor(c) => c is Dynamic,
            Style::Color(c) => c is Dynamic,
            _ => false,
        }
    }

    /// Whether this is the no-op entry.
    pub fn is_dummy(&self) -> (r: bool)
        ensures
            r == self.is_dummy_spec(),
    {
        match self {
            Style::Dummy => true,
            _ => false,
        }
    }

    /// Whether the carried value is an escape block.
    pub fn is_dynamic(&self) -> (r: bool)
        ensures
            r == self.is_dynamic_spec(),
    {
        match self {
            Style::BackgroundColor(c) => c.is_dynamic(),
            Style::Color(c) => c.is_dynamic(),
            _ => false,
        }
    }

    /// A fully owned copy.  Values here own their data already, so this is
    /// the value itself.
    pub fn into_owned(self) -> (r: Style)
        ensures
            r == self,
    {
        self
    }

    /// The canonical `name:value` text; `Dummy` renders as nothing.
    pub open spec fn css(self) -> Seq<char> {
        match self {
            Style::Dummy => Seq::empty(),
            Style::AlignItems(x) => "align-items:"@ + x.css(),
            Style::BackgroundColor(x) => "background-color:"@ + x.css(),
            Style::Border(x) => "border:"@ + x.css(),
            Style::BorderBottomColor(x) => "border-bottom-color:"@ + x.css(),
            Style::BorderBottomStyle(x) => "border-bottom-style:"@ + x.css(),
            Style::BorderBottomWidth(x) => "border-bottom-width:"@ + x.css(),
            Style::BorderColor(x) => "border-color:"@ + x.css(),
            Style::BorderLeftColor(x) => "border-left-color:"@ + x.css(),
            Style::BorderLeftStyle(x) => "border-left-style:"@ + x.css(),
            Style::BorderLeftWidth(x) => "border-left-width:"@ + x.css(),
            Style::BorderRightColor(x) => "border-right-color:"@ + x.css(),
            Style::BorderRightStyle(x) => "border-right-style:"@ + x.css(),
            Style::BorderRightWidth(x) => "border-right-width:"@ + x.css(),
            Style::BorderStyle(x) => "border-style:"@ + x.css(),
            Style::BorderTopColor(x) => "border-top-color:"@ + x.css(),
            Style::BorderTopStyle(x) => "border-top-style:"@ + x.css(),
            Style::BorderTopWidth(x) => "border-top-width:"@ + x.css(),
            Style::BorderWidth(x) => "border-width:"@ + x.css(),
            Style::BoxSizing(x) => "box-sizing:"@ + x.css(),
            Style::Color(x) => "color:"@ + x.css(),
            Style::Cursor(x) => "cursor:"@ + x.css(),
            Style::Display(x) => "display:"@ + x.css(),
            Style::FlexBasis(x) => "flex-basis:"@ + x.css(),
            Style::FlexDirection(x) => "flex-direction:"@ + x.css(),
            Style::FlexGrow(x) => "flex-grow:"@ + x.css(),
            Style::FlexShrink(x) => "flex-shrink:"@ + x.css(),
            Style::FlexWrap(x) => "flex-wrap:"@ + x.css(),
            Style::FontFamily(x) => "font-family:"@ + x@,
            Style::FontSize(x) => "font-size:"@ + x.css(),
            Style::FontStyle(x) => "font-style:"@ + x.css(),
            Style::FontWeight(x) => "font-weight:"@ + x.css(),
            Style::Height(x) => "height:"@ + x.css(),
            Style::JustifyContent(x) => "justify-content:"@ + x.css(),
            Style::ListStyleType(x) => "list-style-type:"@ + x.css(),
            Style::Margin(x) => "margin:"@ + x.css(),
            Style::MarginBottom(x) => "margin-bottom:"@ + x.css(),
            Style::MarginLeft(x) => "margin-left:"@ + x.css(),
            Style::MarginRight(x) => "margin-right:"@ + x.css(),
            Style::MarginTop(x) => "margin-top:"@ + x.css(),
            Style::MaxHeight(x) => "max-height:"@ + x.css(),
            Style::MaxWidth(x) => "max-width:"@ + x.css(),
            Style::MinHeight(x) => "min-height:"@ + x.css(),
            Style::MinWidth(x) => "min-width:"@ + x.css(),
            Style::ObjectFit(x) => "object-fit:"@ + x.css(),
            Style::Padding(x) => "padding:"@ + x.css(),
            Style::PaddingBottom(x) => "padding-bottom:"@ + x.css(),
            Style::PaddingLeft(x) => "padding-left:"@ + x.css(),
            Style::PaddingRight(x) => "padding-right:"@ + x.css(),
            Style::PaddingTop(x) => "padding-top:"@ + x.css(),
            Style::Resize(x) => "resize:"@ + x.css(),
            Style::Width(x) => "width:"@ + x.css(),
        }
    }

    /// Appends the canonical text of `self`.
    pub fn write_css(&self, out: &mut String)
        ensures
            final(out)@ == old(out)@ + self.css(),
    {
        match self {
            Style::Dummy => {
                proof {
                    assert(final(out)@ =~= old(out)@ + Seq::<char>::empty());
                }
            },
            Style::AlignItems(x) => {
                out.append("align-items:");
                x.write_css(out);
                proof {
                    crate::text::lemma_cat2(old(out)@, "align-items:"@, x.css());
                }
            },
            Style::BackgroundColor(x) => {
                out.append("background-color:");
                x.write_css(out);
                proof {
                    crate::text::lemma_cat2(old(out)@, "background-color:"@, x.css());
                }
            },
            Style::Border(x) => {
                out.append("border:");
                x.write_css(out);
                proof {
                    crate::text::lemma_cat2(old(out)@, "border:"@, x.css());
                }
            },
            Style::BorderBottomColor(x) => {
                out.append("border-bottom-color:");
                x.write_css(out);
                proof {
                    crate::text::lemma_cat2(old(out)@, "border-bottom-color:"@, x.css());
                }
            },
            Style::BorderBottomStyle(x) => {
                out.append("border-bottom-style:");
                x.write_css(out);
                proof {
                    crate::text::lemma_cat2(old(out)@, "border-bottom-style:"@, x.css());
                }
            },
            Style::BorderBottomWidth(x) => {
                out.append("border-bottom-width:");
                x.write_css(out);
                proof {
                    crate::text::lemma_cat2(old(out)@, "border-bottom-width:"@, x.css());
                }
            },
            Style::BorderColor(x) => {
                out.append("border-color:");
                x.write_css(out);
                proof {
                    crate::text::lemma_cat2(old(out)@, "border-color:"@, x.css());
                }
            },
            Style::BorderLeftColor(x) => {
                out.append("border-left-color:");
                x.write_css(out);
                proof {
                    crate::text::lemma_cat2(old(out)@, "border-left-color:"@, x.css());
                }
            },
            Style::BorderLeftStyle(x) => {
                out.append("border-left-style:");
                x.write_css(out);
                proof {
                    crate::text::lemma_cat2(old(out)@, "border-left-style:"@, x.css());
                }
            },
            Style::BorderLeftWidth(x) => {
                out.append("border-left-width:");
                x.write_css(out);
                proof {
                    crate::text::lemma_cat2(old(out)@, "border-left-width:"@, x.css());
                }
            },
            Style::BorderRightColor(x) => {
                out.append("border-right-color:");
                x.write_css(out);
                proof {
                    crate::text::lemma_cat2(old(out)@, "border-right-color:"@, x.css());
                }
            },
            Style::BorderRightStyle(x) => {
                out.append("border-right-style:");
                x.write_css(out);
                proof {
                    crate::text::lemma_cat2(old(out)@, "border-right-style:"@, x.css());
                }
            },
            Style::BorderRightWidth(x) => {
                out.append("border-right-width:");
                x.write_css(out);
                proof {
                    crate::text::lemma_cat2(old(out)@, "border-right-width:"@, x.css());
                }
            },
            Style::BorderStyle(x) => {
                out.append("border-style:");
                x.write_css(out);
                proof {
                    crate::text::lemma_cat2(old(out)@, "border-style:"@, x.css());
                }
            },
            Style::BorderTopColor(x) => {
                out.append("border-top-color:");
                x.write_css(out);
                proof {
                    crate::text::lemma_cat2(old(out)@, "border-top-color:"@, x.css());
                }
            },
            Style::BorderTopStyle(x) => {
                out.append("border-top-style:");
                x.write_css(out);
                proof {
                    crate::text::lemma_cat2(old(out)@, "border-top-style:"@, x.css());
                }
            },
            Style::BorderTopWidth(x) => {
                out.append("border-top-width:");
                x.write_css(out);
                proof {
                    crate::text::lemma_cat2(old(out)@, "border-top-width:"@, x.css());
                }
            },
            Style::BorderWidth(x) => {
                out.append("border-width:");
                x.write_css(out);
                proof {
                    crate::text::lemma_cat2(old(out)@, "border-width:"@, x.css());
                }
            },
            Style::BoxSizing(x) => {
                out.append("box-sizing:");
                x.write_css(out);
                proof {
                    crate::text::lemma_cat2(old(out)@, "box-sizing:"@, x.css());
                }
            },
            Style::Color(x) => {
                out.append("color:");
                x.write_css(out);
                proof {
                    crate::text::lemma_cat2(old(out)@, "color:"@, x.css());
                }
            },
            Style::Cursor(x) => {
                out.append("cursor:");
                x.write_css(out);
                proof {
                    crate::text::lemma_cat2(old(out)@, "cursor:"@, x.css());
                }
            },
            Style::Display(x) => {
                out.append("display:");
                x.write_css(out);
                proof {
                    crate::text::lemma_cat2(old(out)@, "display:"@, x.css());
                }
            },
            Style::FlexBasis(x) => {
                out.append("flex-basis:");
                x.write_css(out);
                proof {
                    crate::text::lemma_cat2(old(out)@, "flex-basis:"@, x.css());
                }
            },
            Style::FlexDirection(x) => {
                out.append("flex-direction:");
                x.write_css(out);
                proof {
                    crate::text::lemma_cat2(old(out)@, "flex-direction:"@, x.css());
                }
            },
            Style::FlexGrow(x) => {
                out.append("flex-grow:");
                x.write_css(out);
                proof {
                    crate::text::lemma_cat2(old(out)@, "flex-grow:"@, x.css());
                }
            },
            Style::FlexShrink(x) => {
                out.append("flex-shrink:");
                x.write_css(out);
                proof {
                    crate::text::lemma_cat2(old(out)@, "flex-shrink:"@, x.css());
                }
            },
            Style::FlexWrap(x) => {
                out.append("flex-wrap:");
                x.write_css(out);
                proof {
                    crate::text::lemma_cat2(old(out)@, "flex-wrap:"@, x.css());
                }
            },
            Style::FontFamily(x) => {
                out.append("font-family:");
                out.append(x.as_str());
                proof {
                    crate::text::lemma_cat2(old(out)@, "font-family:"@, x@);
                }
            },
            Style::FontSize(x) => {
                out.append("font-size:");
                x.write_css(out);
                proof {
                    crate::text::lemma_cat2(old(out)@, "font-size:"@, x.css());
                }
            },
            Style::FontStyle(x) => {
                out.append("font-style:");
                x.write_css(out);
                proof {
                    crate::text::lemma_cat2(old(out)@, "font-style:"@, x.css());
                }
            },
            Style::FontWeight(x) => {
                out.append("font-weight:");
                x.write_css(out);
                proof {
                    crate::text::lemma_cat2(old(out)@, "font-weight:"@, x.css());
                }
            },
            Style::Height(x) => {
                out.append("height:");
                x.write_css(out);
                proof {
                    crate::text::lemma_cat2(old(out)@, "height:"@, x.css());
                }
            },
            Style::JustifyContent(x) => {
                out.append("justify-content:");
                x.write_css(out);
                proof {
                    crate::text::lemma_cat2(old(out)@, "justify-content:"@, x.css());
                }
            },
            Style::ListStyleType(x) => {
                out.append("list-style-type:");
                x.write_css(out);
                proof {
                    crate::text::lemma_cat2(old(out)@, "list-style-type:"@, x.css());
                }
            },
            Style::Margin(x) => {
                out.append("margin:");
                x.write_css(out);
                proof {
                    crate::text::lemma_cat2(old(out)@, "margin:"@, x.css());
                }
            },
            Style::MarginBottom(x) => {
                out.append("margin-bottom:");
                x.write_css(out);
                proof {
                    crate::text::lemma_cat2(old(out)@, "margin-bottom:"@, x.css());
                }
            },
            Style::MarginLeft(x) => {
                out.append("margin-left:");
                x.write_css(out);
                proof {
                    crate::text::lemma_cat2(old(out)@, "margin-left:"@, x.css());
                }
            },
            Style::MarginRight(x) => {
                out.append("margin-right:");
                x.write_css(out);
                proof {
                    crate::text::lemma_cat2(old(out)@, "margin-right:"@, x.css());
                }
            },
            Style::MarginTop(x) => {
                out.append("margin-top:");
                x.write_css(out);
                proof {
                    crate::text::lemma_cat2(old(out)@, "margin-top:"@, x.css());
                }
            },
            Style::MaxHeight(x) => {
                out.append("max-height:");
                x.write_css(out);
                proof {
                    crate::text::lemma_cat2(old(out)@, "max-height:"@, x.css());
                }
            },
            Style::MaxWidth(x) => {
                out.append("max-width:");
                x.write_css(out);
                proof {
                    crate::text::lemma_cat2(old(out)@, "max-width:"@, x.css());
                }
            },
            Style::MinHeight(x) => {
                out.append("min-height:");
                x.write_css(out);
                proof {
                    crate::text::lemma_cat2(old(out)@, "min-height:"@, x.css());
                }
            },
            Style::MinWidth(x) => {
                out.append("min-width:");
                x.write_css(out);
                proof {
                    crate::text::lemma_cat2(old(out)@, "min-width:"@, x.css());
                }
            },
            Style::ObjectFit(x) => {
                out.append("object-fit:");
                x.write_css(out);
                proof {
                    crate::text::lemma_cat2(old(out)@, "object-fit:"@, x.css());
                }
            },
            Style::Padding(x) => {
                out.append("padding:");
                x.write_css(out);
                proof {
                    crate::text::lemma_cat2(old(out)@, "padding:"@, x.css());
                }
            },
            Style::PaddingBottom(x) => {
                out.append("padding-bottom:");
                x.write_css(out);
                proof {
                    crate::text::lemma_cat2(old(out)@, "padding-bottom:"@, x.css());
                }
            },
            Style::PaddingLeft(x) => {
                out.append("padding-left:");
                x.write_css(out);
                proof {
                    crate::text::lemma_cat2(old(out)@, "padding-left:"@, x.css());
                }
            },
            Style::PaddingRight(x) => {
                out.append("padding-right:");
                x.write_css(out);
                proof {
                    crate::text::lemma_cat2(old(out)@, "padding-right:"@, x.css());
                }
            },
            Style::PaddingTop(x) => {
                out.append("padding-top:");
                x.write_css(out);
                proof {
                    crate::text::lemma_cat2(old(out)@, "padding-top:"@, x.css());
                }
            },
            Style::Resize(x) => {
                out.append("resize:");
                x.write_css(out);
                proof {
                    crate::text::lemma_cat2(old(out)@, "resize:"@, x.css());
                }
            },
            Style::Width(x) => {
                out.append("width:");
                x.write_css(out);
                proof {
                    crate::text::lemma_cat2(old(out)@, "width:"@, x.css());
                }
            },
        }
    }

    /// The canonical text of `self` as an owned string.
    pub fn to_css_string(&self) -> (r: String)
        ensures
            r@ == self.css(),
    {
        let mut out = String::new();
        self.write_css(&mut out);
        out
    }
}

} // verus!
