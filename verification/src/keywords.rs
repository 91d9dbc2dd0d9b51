//! The closed keyword enumerations among the property values.

use vstd::prelude::*;
use vstd::string::StringExecFns;

verus! {

#[derive(Debug, Clone, Copy, PartialEq, Eq, Structural)]
pub enum AlignItems {
    Normal,
    Stretch,
    Center,
    Start,
    End,
}

impl AlignItems {
    /// The keyword this value renders as.
    pub open spec fn css(self) -> Seq<char> {
        match self {
            AlignItems::Normal => "normal"@,
            AlignItems::Stretch => "stretch"@,
            AlignItems::Center => "center"@,
            AlignItems::Start => "start"@,
            AlignItems::End => "end"@,
        }
    }

    /// Appends the keyword of `self`.
    pub fn write_css(&self, out: &mut String)
        ensures
            final(out)@ == old(out)@ + self.css(),
    {
        match self {
            AlignItems::Normal => {
                out.append("normal");
            },
            AlignItems::Stretch => {
                out.append("stretch");
            },
            AlignItems::Center => {
                out.append("center");
            },
            AlignItems::Start => {
                out.append("start");
            },
            AlignItems::End => {
                out.append("end");
            },
        }
    }
}

#[derive(Debug, Clone, Copy, PartialEq, Eq, Structural)]
pub enum BoxSizing {
    BorderBox,
    ContentBox,
}

impl BoxSizing {
    /// The keyword this value renders as.
    pub open spec fn css(self) -> Seq<char> {
        match self {
            BoxSizing::BorderBox => "border-box"@,
            BoxSizing::ContentBox => "content-box"@,
        }
    }

    /// Appends the keyword of `self`.
    pub fn write_css(&self, out: &mut String)
        ensures
            final(out)@ == old(out)@ + self.css(),
    {
        match self {
            BoxSizing::BorderBox => {
                out.append("border-box");
            },
            BoxSizing::ContentBox => {
                out.append("content-box");
            },
        }
    }
}

#[derive(Debug, Clone, Copy, PartialEq, Eq, Structural)]
pub enum Cursor {
    Auto,
    Default,
    NoneValue,
    ContextMenu,
    Help,
    Pointer,
    Progress,
    Wait,
    Cell,
    Crosshair,
    Text,
    VerticalText,
    Alias,
    Copy,
    Move,
    NoDrop,
    NotAllowed,
    Grab,
    Grabbing,
    EResize,
    NResize,
    NEResize,
    NWResize,
    SResize,
    SEResize,
    SWResize,
    WResize,
    EWResize,
    NSResize,
    NESWResize,
    NWSEResize,
    ColResize,
    RowResize,
    AllScroll,
    ZoomIn,
    ZoomOut,
}

impl Cursor {
    /// The keyword this value renders as.
    pub open spec fn css(self) -> Seq<char> {
        match self {
            Cursor::Auto => "auto"@,
            Cursor::Default => "default"@,
            Cursor::NoneValue => "none"@,
            Cursor::ContextMenu => "context-menu"@,
            Cursor::Help => "help"@,
            Cursor::Pointer => "pointer"@,
            Cursor::Progress => "progress"@,
            Cursor::Wait => "wait"@,
            Cursor::Cell => "cell"@,
            Cursor::Crosshair => "crosshair"@,
            Cursor::Text => "text"@,
            Cursor::VerticalText => "vertical-text"@,
            Cursor::Alias => "alias"@,
            Cursor::Copy => "copy"@,
            Cursor::Move => "move"@,
            Cursor::NoDrop => "no-drop"@,
            Cursor::NotAllowed => "not-allowed"@,
            Cursor::Grab => "grab"@,
            Cursor::Grabbing => "grabbing"@,
            Cursor::EResize => "e-resize"@,
            Cursor::NResize => "n-resize"@,
            Cursor::NEResize => "ne-resize"@,
            Cursor::NWResize => "nw-resize"@,
            Cursor::SResize => "s-resize"@,
            Cursor::SEResize => "se-resize"@,
            Cursor::SWResize => "sw-resize"@,
            Cursor::WResize => "w-resize"@,
            Cursor::EWResize => "ew-resize"@,
            Cursor::NSResize => "ns-resize"@,
            Cursor::NESWResize => "nesw-resize"@,
            Cursor::NWSEResize => "nwse-resize"@,
            Cursor::ColResize => "col-resize"@,
            Cursor::RowResize => "row-resize"@,
            Cursor::AllScroll => "all-scroll"@,
            Cursor::ZoomIn => "zoom-in"@,
            Cursor::ZoomOut => "zoom-out"@,
        }
    }

    /// Appends the keyword of `self`.
    pub fn write_css(&self, out: &mut String)
        ensures
            final(out)@ == old(out)@ + self.css(),
    {
        match self {
            Cursor::Auto => {
                out.append("auto");
            },
            Cursor::Default => {
                out.append("default");
            },
            Cursor::NoneValue => {
                out.append("none");
            },
            Cursor::ContextMenu => {
                out.append("context-menu");
            },
            Cursor::Help => {
                out.append("help");
            },
            Cursor::Pointer => {
                out.append("pointer");
            },
            Cursor::Progress => {
                out.append("progress");
            },
            Cursor::Wait => {
                out.append("wait");
            },
            Cursor::Cell => {
                out.append("cell");
            },
            Cursor::Crosshair => {
                out.append("crosshair");
            },
            Cursor::Text => {
                out.append("text");
            },
            Cursor::VerticalText => {
                out.append("vertical-text");
            },
            Cursor::Alias => {
                out.append("alias");
            },
            Cursor::Copy => {
                out.append("copy");
            },
            Cursor::Move => {
                out.append("move");
            },
            Cursor::NoDrop => {
                out.append("no-drop");
            },
            Cursor::NotAllowed => {
                out.append("not-allowed");
            },
            Cursor::Grab => {
                out.append("grab");
            },
            Cursor::Grabbing => {
                out.append("grabbing");
            },
            Cursor::EResize => {
                out.append("e-resize");
            },
            Cursor::NResize => {
                out.append("n-resize");
            },
            Cursor::NEResize => {
                out.append("ne-resize");
            },
            Cursor::NWResize => {
                out.append("nw-resize");
            },
            Cursor::SResize => {
                out.append("s-resize");
            },
            Cursor::SEResize => {
                out.append("se-resize");
            },
            Cursor::SWResize => {
                out.append("sw-resize");
            },
            Cursor::WResize => {
                out.append("w-resize");
            },
            Cursor::EWResize => {
                out.append("ew-resize");
            },
            Cursor::NSResize => {
                out.append("ns-resize");
            },
            Cursor::NESWResize => {
                out.append("nesw-resize");
            },
            Cursor::NWSEResize => {
                out.append("nwse-resize");
            },
            Cursor::ColResize => {
                out.append("col-resize");
            },
            Cursor::RowResize => {
                out.append("row-resize");
            },
            Cursor::AllScroll => {
                out.append("all-scroll");
            },
            Cursor::ZoomIn => {
                out.append("zoom-in");
            },
            Cursor::ZoomOut => {
                out.append("zoom-out");
            },
        }
    }
}

#[derive(Debug, Clone, Copy, PartialEq, Eq, Structural)]
pub enum Display {
    Block,
    Flex,
    Inline,
}

impl Display {
    /// The keyword this value renders as.
    pub open spec fn css(self) -> Seq<char> {
        match self {
            Display::Block => "block"@,
            Display::Flex => "flex"@,
            Display::Inline => "inline"@,
        }
    }

    /// Appends the keyword of `self`.
    pub fn write_css(&self, out: &mut String)
        ensures
            final(out)@ == old(out)@ + self.css(),
    {
        match self {
            Display::Block => {
                out.append("block");
            },
            Display::Flex => {
                out.append("flex");
            },
            Display::Inline => {
                out.append("inline");
            },
        }
    }
}

#[derive(Debug, Clone, Copy, PartialEq, Eq, Structural)]
pub enum FlexDirection {
    Row,
    Column,
}

impl FlexDirection {
    /// The keyword this value renders as.
    pub open spec fn css(self) -> Seq<char> {
        match self {
            FlexDirection::Row => "row"@,
            FlexDirection::Column => "column"@,
        }
    }

    /// Appends the keyword of `self`.
    pub fn write_css(&self, out: &mut String)
        ensures
            final(out)@ == old(out)@ + self.css(),
    {
        match self {
            FlexDirection::Row => {
                out.append("row");
            },
            FlexDirection::Column => {
                out.append("column");
            },
        }
    }
}

#[derive(Debug, Clone, Copy, PartialEq, Eq, Structural)]
pub enum FlexWrap {
    Wrap,
    Nowrap,
}

impl FlexWrap {
    /// The keyword this value renders as.
    pub open spec fn css(self) -> Seq<char> {
        match self {
            FlexWrap::Wrap => "wrap"@,
            FlexWrap::Nowrap => "nowrap"@,
        }
    }

    /// Appends the keyword of `self`.
    pub fn write_css(&self, out: &mut String)
        ensures
            final(out)@ == old(out)@ + self.css(),
    {
        match self {
            FlexWrap::Wrap => {
                out.append("wrap");
            },
            FlexWrap::Nowrap => {
                out.append("nowrap");
            },
        }
    }
}

#[derive(Debug, Clone, Copy, PartialEq, Eq, Structural)]
pub enum FontStyle {
    Normal,
    Italic,
    Oblique,
}

impl FontStyle {
    /// The keyword this value renders as.
    pub open spec fn css(self) -> Seq<char> {
        match self {
            FontStyle::Normal => "normal"@,
            FontStyle::Italic => "italic"@,
            FontStyle::Oblique => "oblique"@,
        }
    }

    /// Appends the keyword of `self`.
    pub fn write_css(&self, out: &mut String)
        ensures
            final(out)@ == old(out)@ + self.css(),
    {
        match self {
            FontStyle::Normal => {
                out.append("normal");
            },
            FontStyle::Italic => {
                out.append("italic");
            },
            FontStyle::Oblique => {
                out.append("oblique");
            },
        }
    }
}

#[derive(Debug, Clone, Copy, PartialEq, Eq, Structural)]
pub enum JustifyContent {
    FlexStart,
    Center,
    FlexEnd,
    SpaceBetween,
    SpaceAround,
}

impl JustifyContent {
    /// The keyword this value renders as.
    pub open spec fn css(self) -> Seq<char> {
        match self {
            JustifyContent::FlexStart => "flex-start"@,
            JustifyContent::Center => "center"@,
            JustifyContent::FlexEnd => "flex-end"@,
            JustifyContent::SpaceBetween => "space-between"@,
            JustifyContent::SpaceAround => "space-around"@,
        }
    }

    /// Appends the keyword of `self`.
    pub fn write_css(&self, out: &mut String)
        ensures
            final(out)@ == old(out)@ + self.css(),
    {
        match self {
            JustifyContent::FlexStart => {
                out.append("flex-start");
            },
            JustifyContent::Center => {
                out.append("center");
            },
            JustifyContent::FlexEnd => {
                out.append("flex-end");
            },
            JustifyContent::SpaceBetween => {
                out.append("space-between");
            },
            JustifyContent::SpaceAround => {
                out.append("space-around");
            },
        }
    }
}

#[derive(Debug, Clone, Copy, PartialEq, Eq, Structural)]
pub enum LineStyle {
    NoneValue,
    Hidden,
    Dotted,
    Dashed,
    Solid,
    Double,
    Groove,
    Ridge,
    Inset,
    Outset,
}

impl LineStyle {
    /// The keyword this value renders as.
    pub open spec fn css(self) -> Seq<char> {
        match self {
            LineStyle::NoneValue => "none"@,
            LineStyle::Hidden => "hidden"@,
            LineStyle::Dotted => "dotted"@,
            LineStyle::Dashed => "dashed"@,
            LineStyle::Solid => "solid"@,
            LineStyle::Double => "double"@,
            LineStyle::Groove => "groove"@,
            LineStyle::Ridge => "ridge"@,
            LineStyle::Inset => "inset"@,
            LineStyle::Outset => "outset"@,
        }
    }

    /// Appends the keyword of `self`.
    pub fn write_css(&self, out: &mut String)
        ensures
            final(out)@ == old(out)@ + self.css(),
    {
        match self {
            LineStyle::NoneValue => {
                out.append("none");
            },
            LineStyle::Hidden => {
                out.append("hidden");
            },
            LineStyle::Dotted => {
                out.append("dotted");
            },
            LineStyle::Dashed => {
                out.append("dashed");
            },
            LineStyle::Solid => {
                out.append("solid");
            },
            LineStyle::Double => {
                out.append("double");
            },
            LineStyle::Groove => {
                out.append("groove");
            },
            LineStyle::Ridge => {
                out.append("ridge");
            },
            LineStyle::Inset => {
                out.append("inset");
            },
            LineStyle::Outset => {
                out.append("outset");
            },
        }
    }
}

#[derive(Debug, Clone, Copy, PartialEq, Eq, Structural)]
pub enum ListStyleType {
    Disc,
    Circle,
    Square,
    Decimal,
    DecimalLeadingZero,
    LowerRoman,
    UpperRoman,
    LowerGreek,
    UpperGreek,
    LowerLatin,
    UpperLatin,
    Armenian,
    Georgian,
    LowerAlpha,
    UpperAlpha,
    NoneValue,
}

impl ListStyleType {
    /// The keyword this value renders as.
    pub open spec fn css(self) -> Seq<char> {
        match self {
            ListStyleType::Disc => "disc"@,
            ListStyleType::Circle => "circle"@,
            ListStyleType::Square => "square"@,
            ListStyleType::Decimal => "decimal"@,
            ListStyleType::DecimalLeadingZero => "decimal-leading-zero"@,
            ListStyleType::LowerRoman => "lower-roman"@,
            ListStyleType::UpperRoman => "upper-roman"@,
            ListStyleType::LowerGreek => "lower-greek"@,
            ListStyleType::UpperGreek => "upper-greek"@,
            ListStyleType::LowerLatin => "lower-latin"@,
            ListStyleType::UpperLatin => "upper-latin"@,
            ListStyleType::Armenian => "armenian"@,
            ListStyleType::Georgian => "georgian"@,
            ListStyleType::LowerAlpha => "lower-alpha"@,
            ListStyleType::UpperAlpha => "upper-alpha"@,
            ListStyleType::NoneValue => "none"@,
        }
    }

    /// Appends the keyword of `self`.
    pub fn write_css(&self, out: &mut String)
        ensures
            final(out)@ == old(out)@ + self.css(),
    {
        match self {
            ListStyleType::Disc => {
                out.append("disc");
            },
            ListStyleType::Circle => {
                out.append("circle");
            },
            ListStyleType::Square => {
                out.append("square");
            },
            ListStyleType::Decimal => {
                out.append("decimal");
            },
            ListStyleType::DecimalLeadingZero => {
                out.append("decimal-leading-zero");
            },
            ListStyleType::LowerRoman => {
                out.append("lower-roman");
            },
            ListStyleType::UpperRoman => {
                out.append("upper-roman");
            },
            ListStyleType::LowerGreek => {
                out.append("lower-greek");
            },
            ListStyleType::UpperGreek => {
                out.append("upper-greek");
            },
            ListStyleType::LowerLatin => {
                out.append("lower-latin");
            },
            ListStyleType::UpperLatin => {
                out.append("upper-latin");
            },
            ListStyleType::Armenian => {
                out.append("armenian");
            },
            ListStyleType::Georgian => {
                out.append("georgian");
            },
            ListStyleType::LowerAlpha => {
                out.append("lower-alpha");
            },
            ListStyleType::UpperAlpha => {
                out.append("upper-alpha");
            },
            ListStyleType::NoneValue => {
                out.append("none");
            },
        }
    }
}

#[derive(Debug, Clone, Copy, PartialEq, Eq, Structural)]
pub enum Resize {
    NoneValue,
    Both,
    Horizontal,
    Vertical,
}

impl Resize {
    /// The keyword this value renders as.
    pub open spec fn css(self) -> Seq<char> {
        match self {
            Resize::NoneValue => "none"@,
            Resize::Both => "both"@,
            Resize::Horizontal => "horizontal"@,
            Resize::Vertical => "vertical"@,
        }
    }

    /// Appends the keyword of `self`.
    pub fn write_css(&self, out: &mut String)
        ensures
            final(out)@ == old(out)@ + self.css(),
    {
        match self {
            Resize::NoneValue => {
                out.append("none");
            },
            Resize::Both => {
                out.append("both");
            },
            Resize::Horizontal => {
                out.append("horizontal");
            },
            Resize::Vertical => {
                out.append("vertical");
            },
        }
    }
}

} // verus!
