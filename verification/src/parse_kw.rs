//! Parsers for the closed keyword enumerations.

use vstd::prelude::*;
use crate::diag::{quoted, spec_insert, spec_join, ParseError, SpecErr};
use crate::keywords::{
    AlignItems, BoxSizing, Cursor, Display, FlexDirection, FlexWrap, FontStyle, JustifyContent,
    LineStyle, ListStyleType, Resize,
};
use crate::parse::{res_matches, spec_hyphen_word, HyphenWord};

verus! {

impl AlignItems {
    /// The candidates a `AlignItems` dispatch reports on failure.
    pub open spec fn tried() -> Seq<Seq<char>> {
        spec_insert(spec_insert(spec_insert(spec_insert(spec_insert(Seq::<Seq<char>>::empty(), quoted("normal"@)), quoted("stretch"@)), quoted("center"@)), quoted("start"@)), quoted("end"@))
    }

    /// Keyword dispatch over the closed set.
    pub open spec fn spec_parse(s: Seq<char>, p: int) -> Result<(AlignItems, int), SpecErr> {
        match spec_hyphen_word(s, p) {
            Err(e) => Err(e),
            Ok(hw) => {
            if hw.word == Option::Some("normal"@) {
                Ok((AlignItems::Normal, hw.end))
            } else             if hw.word == Option::Some("stretch"@) {
                Ok((AlignItems::Stretch, hw.end))
            } else             if hw.word == Option::Some("center"@) {
                Ok((AlignItems::Center, hw.end))
            } else             if hw.word == Option::Some("start"@) {
                Ok((AlignItems::Start, hw.end))
            } else             if hw.word == Option::Some("end"@) {
                Ok((AlignItems::End, hw.end))
            } else {
                Err(SpecErr { pos: hw.at, msg: "expected one of "@ + spec_join(AlignItems::tried()) })
            }
            },
        }
    }

    /// Consumes one `AlignItems` keyword, as [`AlignItems::spec_parse`].
    pub fn parse(s: &str, pos: usize) -> (r: Result<(AlignItems, usize), ParseError>)
        requires
            pos <= s@.len(),
        ensures
            res_matches(r, AlignItems::spec_parse(s@, pos as int)),
            r is Ok ==> r->Ok_0.1 <= s@.len(),
    {
        broadcast use crate::diag::lemma_insert_len;

        let (mut word, e) = match HyphenWord::parse(s, pos) {
            Ok(v) => v,
            Err(er) => {
                return Err(er);
            },
        };
        if word.try_match("normal") {
            Ok((AlignItems::Normal, e))
        } else         if word.try_match("stretch") {
            Ok((AlignItems::Stretch, e))
        } else         if word.try_match("center") {
            Ok((AlignItems::Center, e))
        } else         if word.try_match("start") {
            Ok((AlignItems::Start, e))
        } else         if word.try_match("end") {
            Ok((AlignItems::End, e))
        } else {
            Err(word.error())
        }
    }
}

impl BoxSizing {
    /// The candidates a `BoxSizing` dispatch reports on failure.
    pub open spec fn tried() -> Seq<Seq<char>> {
        spec_insert(spec_insert(Seq::<Seq<char>>::empty(), quoted("border-box"@)), quoted("content-box"@))
    }

    /// Keyword dispatch over the closed set.
    pub open spec fn spec_parse(s: Seq<char>, p: int) -> Result<(BoxSizing, int), SpecErr> {
        match spec_hyphen_word(s, p) {
            Err(e) => Err(e),
            Ok(hw) => {
            if hw.word == Option::Some("border-box"@) {
                Ok((BoxSizing::BorderBox, hw.end))
            } else             if hw.word == Option::Some("content-box"@) {
                Ok((BoxSizing::ContentBox, hw.end))
            } else {
                Err(SpecErr { pos: hw.at, msg: "expected one of "@ + spec_join(BoxSizing::tried()) })
            }
            },
        }
    }

    /// Consumes one `BoxSizing` keyword, as [`BoxSizing::spec_parse`].
    pub fn parse(s: &str, pos: usize) -> (r: Result<(BoxSizing, usize), ParseError>)
        requires
            pos <= s@.len(),
        ensures
            res_matches(r, BoxSizing::spec_parse(s@, pos as int)),
            r is Ok ==> r->Ok_0.1 <= s@.len(),
    {
        broadcast use crate::diag::lemma_insert_len;

        let (mut word, e) = match HyphenWord::parse(s, pos) {
            Ok(v) => v,
            Err(er) => {
                return Err(er);
            },
        };
        if word.try_match("border-box") {
            Ok((BoxSizing::BorderBox, e))
        } else         if word.try_match("content-box") {
            Ok((BoxSizing::ContentBox, e))
        } else {
            Err(word.error())
        }
    }
}

impl Cursor {
    /// The candidates a `Cursor` dispatch reports on failure.
    pub open spec fn tried() -> Seq<Seq<char>> {
        spec_insert(spec_insert(spec_insert(spec_insert(spec_insert(spec_insert(spec_insert(spec_insert(spec_insert(spec_insert(spec_insert(spec_insert(spec_insert(spec_insert(spec_insert(spec_insert(spec_insert(spec_insert(spec_insert(spec_insert(spec_insert(spec_insert(spec_insert(spec_insert(spec_insert(spec_insert(spec_insert(spec_insert(spec_insert(spec_insert(spec_insert(spec_insert(spec_insert(spec_insert(spec_insert(spec_insert(Seq::<Seq<char>>::empty(), quoted("auto"@)), quoted("default"@)), quoted("none"@)), quoted("context-menu"@)), quoted("help"@)), quoted("pointer"@)), quoted("progress"@)), quoted("wait"@)), quoted("cell"@)), quoted("crosshair"@)), quoted("text"@)), quoted("vertical-text"@)), quoted("alias"@)), quoted("copy"@)), quoted("move"@)), quoted("no-drop"@)), quoted("not-allowed"@)), quoted("grab"@)), quoted("grabbing"@)), quoted("e-resize"@)), quoted("n-resize"@)), quoted("ne-resize"@)), quoted("nw-resize"@)), quoted("s-resize"@)), quoted("se-resize"@)), quoted("sw-resize"@)), quoted("w-resize"@)), quoted("ew-resize"@)), quoted("ns-resize"@)), quoted("nesw-resize"@)), quoted("nwse-resize"@)), quoted("col-resize"@)), quoted("row-resize"@)), quoted("all-scroll"@)), quoted("zoom-in"@)), quoted("zoom-out"@))
    }

    /// Keyword dispatch over the closed set.
    pub open spec fn spec_parse(s: Seq<char>, p: int) -> Result<(Cursor, int), SpecErr> {
        match spec_hyphen_word(s, p) {
            Err(e) => Err(e),
            Ok(hw) => {
            if hw.word == Option::Some("auto"@) {
                Ok((Cursor::Auto, hw.end))
            } else             if hw.word == Option::Some("default"@) {
                Ok((Cursor::Default, hw.end))
            } else             if hw.word == Option::Some("none"@) {
                Ok((Cursor::NoneValue, hw.end))
            } else             if hw.word == Option::Some("context-menu"@) {
                Ok((Cursor::ContextMenu, hw.end))
            } else             if hw.word == Option::Some("help"@) {
                Ok((Cursor::Help, hw.end))
            } else             if hw.word == Option::Some("pointer"@) {
                Ok((Cursor::Pointer, hw.end))
            } else             if hw.word == Option::Some("progress"@) {
                Ok((Cursor::Progress, hw.end))
            } else             if hw.word == Option::Some("wait"@) {
                Ok((Cursor::Wait, hw.end))
            } else             if hw.word == Option::Some("cell"@) {
                Ok((Cursor::Cell, hw.end))
            } else             if hw.word == Option::Some("crosshair"@) {
                Ok((Cursor::Crosshair, hw.end))
            } else             if hw.word == Option::Some("text"@) {
                Ok((Cursor::Text, hw.end))
            } else             if hw.word == Option::Some("vertical-text"@) {
                Ok((Cursor::VerticalText, hw.end))
            } else             if hw.word == Option::Some("alias"@) {
                Ok((Cursor::Alias, hw.end))
            } else             if hw.word == Option::Some("copy"@) {
                Ok((Cursor::Copy, hw.end))
            } else             if hw.word == Option::Some("move"@) {
                Ok((Cursor::Move, hw.end))
            } else             if hw.word == Option::Some("no-drop"@) {
                Ok((Cursor::NoDrop, hw.end))
            } else             if hw.word == Option::Some("not-allowed"@) {
                Ok((Cursor::NotAllowed, hw.end))
            } else             if hw.word == Option::Some("grab"@) {
                Ok((Cursor::Grab, hw.end))
            } else             if hw.word == Option::Some("grabbing"@) {
                Ok((Cursor::Grabbing, hw.end))
            } else             if hw.word == Option::Some("e-resize"@) {
                Ok((Cursor::EResize, hw.end))
            } else             if hw.word == Option::Some("n-resize"@) {
                Ok((Cursor::NResize, hw.end))
            } else             if hw.word == Option::Some("ne-resize"@) {
                Ok((Cursor::NEResize, hw.end))
            } else             if hw.word == Option::Some("nw-resize"@) {
                Ok((Cursor::NWResize, hw.end))
            } else             if hw.word == Option::Some("s-resize"@) {
                Ok((Cursor::SResize, hw.end))
            } else             if hw.word == Option::Some("se-resize"@) {
                Ok((Cursor::SEResize, hw.end))
            } else             if hw.word == Option::Some("sw-resize"@) {
                Ok((Cursor::SWResize, hw.end))
            } else             if hw.word == Option::Some("w-resize"@) {
                Ok((Cursor::WResize, hw.end))
            } else             if hw.word == Option::Some("ew-resize"@) {
                Ok((Cursor::EWResize, hw.end))
            } else             if hw.word == Option::Some("ns-resize"@) {
                Ok((Cursor::NSResize, hw.end))
            } else             if hw.word == Option::Some("nesw-resize"@) {
                Ok((Cursor::NESWResize, hw.end))
            } else             if hw.word == Option::Some("nwse-resize"@) {
                Ok((Cursor::NWSEResize, hw.end))
            } else             if hw.word == Option::Some("col-resize"@) {
                Ok((Cursor::ColResize, hw.end))
            } else             if hw.word == Option::Some("row-resize"@) {
                Ok((Cursor::RowResize, hw.end))
            } else             if hw.word == Option::Some("all-scroll"@) {
                Ok((Cursor::AllScroll, hw.end))
            } else             if hw.word == Option::Some("zoom-in"@) {
                Ok((Cursor::ZoomIn, hw.end))
            } else             if hw.word == Option::Some("zoom-out"@) {
                Ok((Cursor::ZoomOut, hw.end))
            } else {
                Err(SpecErr { pos: hw.at, msg: "expected one of "@ + spec_join(Cursor::tried()) })
            }
            },
        }
    }

    /// Consumes one `Cursor` keyword, as [`Cursor::spec_parse`].
    pub fn parse(s: &str, pos: usize) -> (r: Result<(Cursor, usize), ParseError>)
        requires
            pos <= s@.len(),
        ensures
            res_matches(r, Cursor::spec_parse(s@, pos as int)),
            r is Ok ==> r->Ok_0.1 <= s@.len(),
    {
        broadcast use crate::diag::lemma_insert_len;

        let (mut word, e) = match HyphenWord::parse(s, pos) {
            Ok(v) => v,
            Err(er) => {
                return Err(er);
            },
        };
        if word.try_match("auto") {
            Ok((Cursor::Auto, e))
        } else         if word.try_match("default") {
            Ok((Cursor::Default, e))
        } else         if word.try_match("none") {
            Ok((Cursor::NoneValue, e))
        } else         if word.try_match("context-menu") {
            Ok((Cursor::ContextMenu, e))
        } else         if word.try_match("help") {
            Ok((Cursor::Help, e))
        } else         if word.try_match("pointer") {
            Ok((Cursor::Pointer, e))
        } else         if word.try_match("progress") {
            Ok((Cursor::Progress, e))
        } else         if word.try_match("wait") {
            Ok((Cursor::Wait, e))
        } else         if word.try_match("cell") {
            Ok((Cursor::Cell, e))
        } else         if word.try_match("crosshair") {
            Ok((Cursor::Crosshair, e))
        } else         if word.try_match("text") {
            Ok((Cursor::Text, e))
        } else         if word.try_match("vertical-text") {
            Ok((Cursor::VerticalText, e))
        } else         if word.try_match("alias") {
            Ok((Cursor::Alias, e))
        } else         if word.try_match("copy") {
            Ok((Cursor::Copy, e))
        } else         if word.try_match("move") {
            Ok((Cursor::Move, e))
        } else         if word.try_match("no-drop") {
            Ok((Cursor::NoDrop, e))
        } else         if word.try_match("not-allowed") {
            Ok((Cursor::NotAllowed, e))
        } else         if word.try_match("grab") {
            Ok((Cursor::Grab, e))
        } else         if word.try_match("grabbing") {
            Ok((Cursor::Grabbing, e))
        } else         if word.try_match("e-resize") {
            Ok((Cursor::EResize, e))
        } else         if word.try_match("n-resize") {
            Ok((Cursor::NResize, e))
        } else         if word.try_match("ne-resize") {
            Ok((Cursor::NEResize, e))
        } else         if word.try_match("nw-resize") {
            Ok((Cursor::NWResize, e))
        } else         if word.try_match("s-resize") {
            Ok((Cursor::SResize, e))
        } else         if word.try_match("se-resize") {
            Ok((Cursor::SEResize, e))
        } else         if word.try_match("sw-resize") {
            Ok((Cursor::SWResize, e))
        } else         if word.try_match("w-resize") {
            Ok((Cursor::WResize, e))
        } else         if word.try_match("ew-resize") {
            Ok((Cursor::EWResize, e))
        } else         if word.try_match("ns-resize") {
            Ok((Cursor::NSResize, e))
        } else         if word.try_match("nesw-resize") {
            Ok((Cursor::NESWResize, e))
        } else         if word.try_match("nwse-resize") {
            Ok((Cursor::NWSEResize, e))
        } else         if word.try_match("col-resize") {
            Ok((Cursor::ColResize, e))
        } else         if word.try_match("row-resize") {
            Ok((Cursor::RowResize, e))
        } else         if word.try_match("all-scroll") {
            Ok((Cursor::AllScroll, e))
        } else         if word.try_match("zoom-in") {
            Ok((Cursor::ZoomIn, e))
        } else         if word.try_match("zoom-out") {
            Ok((Cursor::ZoomOut, e))
        } else {
            Err(word.error())
        }
    }
}

impl Display {
    /// The candidates a `Display` dispatch reports on failure.
    pub open spec fn tried() -> Seq<Seq<char>> {
        spec_insert(spec_insert(spec_insert(Seq::<Seq<char>>::empty(), quoted("block"@)), quoted("flex"@)), quoted("inline"@))
    }

    /// Keyword dispatch over the closed set.
    pub open spec fn spec_parse(s: Seq<char>, p: int) -> Result<(Display, int), SpecErr> {
        match spec_hyphen_word(s, p) {
            Err(e) => Err(e),
            Ok(hw) => {
            if hw.word == Option::Some("block"@) {
                Ok((Display::Block, hw.end))
            } else             if hw.word == Option::Some("flex"@) {
                Ok((Display::Flex, hw.end))
            } else             if hw.word == Option::Some("inline"@) {
                Ok((Display::Inline, hw.end))
            } else {
                Err(SpecErr { pos: hw.at, msg: "expected one of "@ + spec_join(Display::tried()) })
            }
            },
        }
    }

    /// Consumes one `Display` keyword, as [`Display::spec_parse`].
    pub fn parse(s: &str, pos: usize) -> (r: Result<(Display, usize), ParseError>)
        requires
            pos <= s@.len(),
        ensures
            res_matches(r, Display::spec_parse(s@, pos as int)),
            r is Ok ==> r->Ok_0.1 <= s@.len(),
    {
        broadcast use crate::diag::lemma_insert_len;

        let (mut word, e) = match HyphenWord::parse(s, pos) {
            Ok(v) => v,
            Err(er) => {
                return Err(er);
            },
        };
        if word.try_match("block") {
            Ok((Display::Block, e))
        } else         if word.try_match("flex") {
            Ok((Display::Flex, e))
        } else         if word.try_match("inline") {
            Ok((Display::Inline, e))
        } else {
            Err(word.error())
        }
    }
}

impl FlexDirection {
    /// The candidates a `FlexDirection` dispatch reports on failure.
    pub open spec fn tried() -> Seq<Seq<char>> {
        spec_insert(spec_insert(Seq::<Seq<char>>::empty(), quoted("column"@)), quoted("row"@))
    }

    /// Keyword dispatch over the closed set.
    pub open spec fn spec_parse(s: Seq<char>, p: int) -> Result<(FlexDirection, int), SpecErr> {
        match spec_hyphen_word(s, p) {
            Err(e) => Err(e),
            Ok(hw) => {
            if hw.word == Option::Some("column"@) {
                Ok((FlexDirection::Column, hw.end))
            } else             if hw.word == Option::Some("row"@) {
                Ok((FlexDirection::Row, hw.end))
            } else {
                Err(SpecErr { pos: hw.at, msg: "expected one of "@ + spec_join(FlexDirection::tried()) })
            }
            },
        }
    }

    /// Consumes one `FlexDirection` keyword, as [`FlexDirection::spec_parse`].
    pub fn parse(s: &str, pos: usize) -> (r: Result<(FlexDirection, usize), ParseError>)
        requires
            pos <= s@.len(),
        ensures
            res_matches(r, FlexDirection::spec_parse(s@, pos as int)),
            r is Ok ==> r->Ok_0.1 <= s@.len(),
    {
        broadcast use crate::diag::lemma_insert_len;

        let (mut word, e) = match HyphenWord::parse(s, pos) {
            Ok(v) => v,
            Err(er) => {
                return Err(er);
            },
        };
        if word.try_match("column") {
            Ok((FlexDirection::Column, e))
        } else         if word.try_match("row") {
            Ok((FlexDirection::Row, e))
        } else {
            Err(word.error())
        }
    }
}

impl FlexWrap {
    /// The candidates a `FlexWrap` dispatch reports on failure.
    pub open spec fn tried() -> Seq<Seq<char>> {
        spec_insert(spec_insert(Seq::<Seq<char>>::empty(), quoted("wrap"@)), quoted("nowrap"@))
    }

    /// Keyword dispatch over the closed set.
    pub open spec fn spec_parse(s: Seq<char>, p: int) -> Result<(FlexWrap, int), SpecErr> {
        match spec_hyphen_word(s, p) {
            Err(e) => Err(e),
            Ok(hw) => {
            if hw.word == Option::Some("wrap"@) {
                Ok((FlexWrap::Wrap, hw.end))
            } else             if hw.word == Option::Some("nowrap"@) {
                Ok((FlexWrap::Nowrap, hw.end))
            } else {
                Err(SpecErr { pos: hw.at, msg: "expected one of "@ + spec_join(FlexWrap::tried()) })
            }
            },
        }
    }

    /// Consumes one `FlexWrap` keyword, as [`FlexWrap::spec_parse`].
    pub fn parse(s: &str, pos: usize) -> (r: Result<(FlexWrap, usize), ParseError>)
        requires
            pos <= s@.len(),
        ensures
            res_matches(r, FlexWrap::spec_parse(s@, pos as int)),
            r is Ok ==> r->Ok_0.1 <= s@.len(),
    {
        broadcast use crate::diag::lemma_insert_len;

        let (mut word, e) = match HyphenWord::parse(s, pos) {
            Ok(v) => v,
            Err(er) => {
                return Err(er);
            },
        };
        if word.try_match("wrap") {
            Ok((FlexWrap::Wrap, e))
        } else         if word.try_match("nowrap") {
            Ok((FlexWrap::Nowrap, e))
        } else {
            Err(word.error())
        }
    }
}

impl FontStyle {
    /// The candidates a `FontStyle` dispatch reports on failure.
    pub open spec fn tried() -> Seq<Seq<char>> {
        spec_insert(spec_insert(spec_insert(Seq::<Seq<char>>::empty(), quoted("normal"@)), quoted("italic"@)), quoted("oblique"@))
    }

    /// Keyword dispatch over the closed set.
    pub open spec fn spec_parse(s: Seq<char>, p: int) -> Result<(FontStyle, int), SpecErr> {
        match spec_hyphen_word(s, p) {
            Err(e) => Err(e),
            Ok(hw) => {
            if hw.word == Option::Some("normal"@) {
                Ok((FontStyle::Normal, hw.end))
            } else             if hw.word == Option::Some("italic"@) {
                Ok((FontStyle::Italic, hw.end))
            } else             if hw.word == Option::Some("oblique"@) {
                Ok((FontStyle::Oblique, hw.end))
            } else {
                Err(SpecErr { pos: hw.at, msg: "expected one of "@ + spec_join(FontStyle::tried()) })
            }
            },
        }
    }

    /// Consumes one `FontStyle` keyword, as [`FontStyle::spec_parse`].
    pub fn parse(s: &str, pos: usize) -> (r: Result<(FontStyle, usize), ParseError>)
        requires
            pos <= s@.len(),
        ensures
            res_matches(r, FontStyle::spec_parse(s@, pos as int)),
            r is Ok ==> r->Ok_0.1 <= s@.len(),
    {
        broadcast use crate::diag::lemma_insert_len;

        let (mut word, e) = match HyphenWord::parse(s, pos) {
            Ok(v) => v,
            Err(er) => {
                return Err(er);
            },
        };
        if word.try_match("normal") {
            Ok((FontStyle::Normal, e))
        } else         if word.try_match("italic") {
            Ok((FontStyle::Italic, e))
        } else         if word.try_match("oblique") {
            Ok((FontStyle::Oblique, e))
        } else {
            Err(word.error())
        }
    }
}

impl JustifyContent {
    /// The candidates a `JustifyContent` dispatch reports on failure.
    pub open spec fn tried() -> Seq<Seq<char>> {
        spec_insert(spec_insert(spec_insert(spec_insert(spec_insert(spec_insert(spec_insert(Seq::<Seq<char>>::empty(), quoted("flex-start"@)), quoted("flex-end"@)), quoted("center"@)), quoted("space-between"@)), quoted("space-around"@)), quoted("start"@)), quoted("end"@))
    }

    /// Keyword dispatch over the closed set.
    pub open spec fn spec_parse(s: Seq<char>, p: int) -> Result<(JustifyContent, int), SpecErr> {
        match spec_hyphen_word(s, p) {
            Err(e) => Err(e),
            Ok(hw) => {
            if hw.word == Option::Some("flex-start"@) {
                Ok((JustifyContent::FlexStart, hw.end))
            } else             if hw.word == Option::Some("flex-end"@) {
                Ok((JustifyContent::FlexEnd, hw.end))
            } else             if hw.word == Option::Some("center"@) {
                Ok((JustifyContent::Center, hw.end))
            } else             if hw.word == Option::Some("space-between"@) {
                Ok((JustifyContent::SpaceBetween, hw.end))
            } else             if hw.word == Option::Some("space-around"@) {
                Ok((JustifyContent::SpaceAround, hw.end))
            } else             if hw.word == Option::Some("start"@) {
                Ok((JustifyContent::FlexStart, hw.end))
            } else             if hw.word == Option::Some("end"@) {
                Ok((JustifyContent::FlexEnd, hw.end))
            } else {
                Err(SpecErr { pos: hw.at, msg: "expected one of "@ + spec_join(JustifyContent::tried()) })
            }
            },
        }
    }

    /// Consumes one `JustifyContent` keyword, as [`JustifyContent::spec_parse`].
    pub fn parse(s: &str, pos: usize) -> (r: Result<(JustifyContent, usize), ParseError>)
        requires
            pos <= s@.len(),
        ensures
            res_matches(r, JustifyContent::spec_parse(s@, pos as int)),
            r is Ok ==> r->Ok_0.1 <= s@.len(),
    {
        broadcast use crate::diag::lemma_insert_len;

        let (mut word, e) = match HyphenWord::parse(s, pos) {
            Ok(v) => v,
            Err(er) => {
                return Err(er);
            },
        };
        if word.try_match("flex-start") {
            Ok((JustifyContent::FlexStart, e))
        } else         if word.try_match("flex-end") {
            Ok((JustifyContent::FlexEnd, e))
        } else         if word.try_match("center") {
            Ok((JustifyContent::Center, e))
        } else         if word.try_match("space-between") {
            Ok((JustifyContent::SpaceBetween, e))
        } else         if word.try_match("space-around") {
            Ok((JustifyContent::SpaceAround, e))
        } else         if word.try_match("start") {
            Ok((JustifyContent::FlexStart, e))
        } else         if word.try_match("end") {
            Ok((JustifyContent::FlexEnd, e))
        } else {
            Err(word.error())
        }
    }
}

impl LineStyle {
    /// The candidates a `LineStyle` dispatch reports on failure.
    pub open spec fn tried() -> Seq<Seq<char>> {
        spec_insert(spec_insert(spec_insert(spec_insert(spec_insert(spec_insert(spec_insert(spec_insert(spec_insert(spec_insert(Seq::<Seq<char>>::empty(), quoted("none"@)), quoted("hidden"@)), quoted("dotted"@)), quoted("dashed"@)), quoted("solid"@)), quoted("double"@)), quoted("groove"@)), quoted("ridge"@)), quoted("inset"@)), quoted("outset"@))
    }

    /// Keyword dispatch over the closed set.
    pub open spec fn spec_parse(s: Seq<char>, p: int) -> Result<(LineStyle, int), SpecErr> {
        match spec_hyphen_word(s, p) {
            Err(e) => Err(e),
            Ok(hw) => {
            if hw.word == Option::Some("none"@) {
                Ok((LineStyle::NoneValue, hw.end))
            } else             if hw.word == Option::Some("hidden"@) {
                Ok((LineStyle::Hidden, hw.end))
            } else             if hw.word == Option::Some("dotted"@) {
                Ok((LineStyle::Dotted, hw.end))
            } else             if hw.word == Option::Some("dashed"@) {
                Ok((LineStyle::Dashed, hw.end))
            } else             if hw.word == Option::Some("solid"@) {
                Ok((LineStyle::Solid, hw.end))
            } else             if hw.word == Option::Some("double"@) {
                Ok((LineStyle::Double, hw.end))
            } else             if hw.word == Option::Some("groove"@) {
                Ok((LineStyle::Groove, hw.end))
            } else             if hw.word == Option::Some("ridge"@) {
                Ok((LineStyle::Ridge, hw.end))
            } else             if hw.word == Option::Some("inset"@) {
                Ok((LineStyle::Inset, hw.end))
            } else             if hw.word == Option::Some("outset"@) {
                Ok((LineStyle::Outset, hw.end))
            } else {
                Err(SpecErr { pos: hw.at, msg: "expected one of "@ + spec_join(LineStyle::tried()) })
            }
            },
        }
    }

    /// Consumes one `LineStyle` keyword, as [`LineStyle::spec_parse`].
    pub fn parse(s: &str, pos: usize) -> (r: Result<(LineStyle, usize), ParseError>)
        requires
            pos <= s@.len(),
        ensures
            res_matches(r, LineStyle::spec_parse(s@, pos as int)),
            r is Ok ==> r->Ok_0.1 <= s@.len(),
    {
        broadcast use crate::diag::lemma_insert_len;

        let (mut word, e) = match HyphenWord::parse(s, pos) {
            Ok(v) => v,
            Err(er) => {
                return Err(er);
            },
        };
        if word.try_match("none") {
            Ok((LineStyle::NoneValue, e))
        } else         if word.try_match("hidden") {
            Ok((LineStyle::Hidden, e))
        } else         if word.try_match("dotted") {
            Ok((LineStyle::Dotted, e))
        } else         if word.try_match("dashed") {
            Ok((LineStyle::Dashed, e))
        } else         if word.try_match("solid") {
            Ok((LineStyle::Solid, e))
        } else         if word.try_match("double") {
            Ok((LineStyle::Double, e))
        } else         if word.try_match("groove") {
            Ok((LineStyle::Groove, e))
        } else         if word.try_match("ridge") {
            Ok((LineStyle::Ridge, e))
        } else         if word.try_match("inset") {
            Ok((LineStyle::Inset, e))
        } else         if word.try_match("outset") {
            Ok((LineStyle::Outset, e))
        } else {
            Err(word.error())
        }
    }
}

impl ListStyleType {
    /// The candidates a `ListStyleType` dispatch reports on failure.
    pub open spec fn tried() -> Seq<Seq<char>> {
        spec_insert(spec_insert(spec_insert(spec_insert(spec_insert(spec_insert(spec_insert(spec_insert(spec_insert(spec_insert(spec_insert(spec_insert(spec_insert(spec_insert(spec_insert(spec_insert(Seq::<Seq<char>>::empty(), quoted("disc"@)), quoted("circle"@)), quoted("square"@)), quoted("decimal"@)), quoted("decimal-leading-zero"@)), quoted("lower-roman"@)), quoted("upper-roman"@)), quoted("lower-greek"@)), quoted("upper-greek"@)), quoted("lower-latin"@)), quoted("upper-latin"@)), quoted("armenian"@)), quoted("georgian"@)), quoted("lower-alpha"@)), quoted("upper-alpha"@)), quoted("none"@))
    }

    /// Keyword dispatch over the closed set.
    pub open spec fn spec_parse(s: Seq<char>, p: int) -> Result<(ListStyleType, int), SpecErr> {
        match spec_hyphen_word(s, p) {
            Err(e) => Err(e),
            Ok(hw) => {
            if hw.word == Option::Some("disc"@) {
                Ok((ListStyleType::Disc, hw.end))
            } else             if hw.word == Option::Some("circle"@) {
                Ok((ListStyleType::Circle, hw.end))
            } else             if hw.word == Option::Some("square"@) {
                Ok((ListStyleType::Square, hw.end))
            } else             if hw.word == Option::Some("decimal"@) {
                Ok((ListStyleType::Decimal, hw.end))
            } else             if hw.word == Option::Some("decimal-leading-zero"@) {
                Ok((ListStyleType::DecimalLeadingZero, hw.end))
            } else             if hw.word == Option::Some("lower-roman"@) {
                Ok((ListStyleType::LowerRoman, hw.end))
            } else             if hw.word == Option::Some("upper-roman"@) {
                Ok((ListStyleType::UpperRoman, hw.end))
            } else             if hw.word == Option::Some("lower-greek"@) {
                Ok((ListStyleType::LowerGreek, hw.end))
            } else             if hw.word == Option::Some("upper-greek"@) {
                Ok((ListStyleType::UpperGreek, hw.end))
            } else             if hw.word == Option::Some("lower-latin"@) {
                Ok((ListStyleType::LowerLatin, hw.end))
            } else             if hw.word == Option::Some("upper-latin"@) {
                Ok((ListStyleType::UpperLatin, hw.end))
            } else             if hw.word == Option::Some("armenian"@) {
                Ok((ListStyleType::Armenian, hw.end))
            } else             if hw.word == Option::Some("georgian"@) {
                Ok((ListStyleType::Georgian, hw.end))
            } else             if hw.word == Option::Some("lower-alpha"@) {
                Ok((ListStyleType::LowerAlpha, hw.end))
            } else             if hw.word == Option::Some("upper-alpha"@) {
                Ok((ListStyleType::UpperAlpha, hw.end))
            } else             if hw.word == Option::Some("none"@) {
                Ok((ListStyleType::NoneValue, hw.end))
            } else {
                Err(SpecErr { pos: hw.at, msg: "expected one of "@ + spec_join(ListStyleType::tried()) })
            }
            },
        }
    }

    /// Consumes one `ListStyleType` keyword, as [`ListStyleType::spec_parse`].
    pub fn parse(s: &str, pos: usize) -> (r: Result<(ListStyleType, usize), ParseError>)
        requires
            pos <= s@.len(),
        ensures
            res_matches(r, ListStyleType::spec_parse(s@, pos as int)),
            r is Ok ==> r->Ok_0.1 <= s@.len(),
    {
        broadcast use crate::diag::lemma_insert_len;

        let (mut word, e) = match HyphenWord::parse(s, pos) {
            Ok(v) => v,
            Err(er) => {
                return Err(er);
            },
        };
        if word.try_match("disc") {
            Ok((ListStyleType::Disc, e))
        } else         if word.try_match("circle") {
            Ok((ListStyleType::Circle, e))
        } else         if word.try_match("square") {
            Ok((ListStyleType::Square, e))
        } else         if word.try_match("decimal") {
            Ok((ListStyleType::Decimal, e))
        } else         if word.try_match("decimal-leading-zero") {
            Ok((ListStyleType::DecimalLeadingZero, e))
        } else         if word.try_match("lower-roman") {
            Ok((ListStyleType::LowerRoman, e))
        } else         if word.try_match("upper-roman") {
            Ok((ListStyleType::UpperRoman, e))
        } else         if word.try_match("lower-greek") {
            Ok((ListStyleType::LowerGreek, e))
        } else         if word.try_match("upper-greek") {
            Ok((ListStyleType::UpperGreek, e))
        } else         if word.try_match("lower-latin") {
            Ok((ListStyleType::LowerLatin, e))
        } else         if word.try_match("upper-latin") {
            Ok((ListStyleType::UpperLatin, e))
        } else         if word.try_match("armenian") {
            Ok((ListStyleType::Armenian, e))
        } else         if word.try_match("georgian") {
            Ok((ListStyleType::Georgian, e))
        } else         if word.try_match("lower-alpha") {
            Ok((ListStyleType::LowerAlpha, e))
        } else         if word.try_match("upper-alpha") {
            Ok((ListStyleType::UpperAlpha, e))
        } else         if word.try_match("none") {
            Ok((ListStyleType::NoneValue, e))
        } else {
            Err(word.error())
        }
    }
}

impl Resize {
    /// The candidates a `Resize` dispatch reports on failure.
    pub open spec fn tried() -> Seq<Seq<char>> {
        spec_insert(spec_insert(spec_insert(spec_insert(Seq::<Seq<char>>::empty(), quoted("none"@)), quoted("both"@)), quoted("horizontal"@)), quoted("vertical"@))
    }

    /// Keyword dispatch over the closed set.
    pub open spec fn spec_parse(s: Seq<char>, p: int) -> Result<(Resize, int), SpecErr> {
        match spec_hyphen_word(s, p) {
            Err(e) => Err(e),
            Ok(hw) => {
            if hw.word == Option::Some("none"@) {
                Ok((Resize::NoneValue, hw.end))
            } else             if hw.word == Option::Some("both"@) {
                Ok((Resize::Both, hw.end))
            } else             if hw.word == Option::Some("horizontal"@) {
                Ok((Resize::Horizontal, hw.end))
            } else             if hw.word == Option::Some("vertical"@) {
                Ok((Resize::Vertical, hw.end))
            } else {
                Err(SpecErr { pos: hw.at, msg: "expected one of "@ + spec_join(Resize::tried()) })
            }
            },
        }
    }

    /// Consumes one `Resize` keyword, as [`Resize::spec_parse`].
    pub fn parse(s: &str, pos: usize) -> (r: Result<(Resize, usize), ParseError>)
        requires
            pos <= s@.len(),
        ensures
            res_matches(r, Resize::spec_parse(s@, pos as int)),
            r is Ok ==> r->Ok_0.1 <= s@.len(),
    {
        broadcast use crate::diag::lemma_insert_len;

        let (mut word, e) = match HyphenWord::parse(s, pos) {
            Ok(v) => v,
            Err(er) => {
                return Err(er);
            },
        };
        if word.try_match("none") {
            Ok((Resize::NoneValue, e))
        } else         if word.try_match("both") {
            Ok((Resize::Both, e))
        } else         if word.try_match("horizontal") {
            Ok((Resize::Horizontal, e))
        } else         if word.try_match("vertical") {
            Ok((Resize::Vertical, e))
        } else {
            Err(word.error())
        }
    }
}

impl AlignItems {
    /// Parses a whole string as one `AlignItems` keyword.
    pub fn parse_str(s: &str) -> (r: Result<AlignItems, ParseError>)
        ensures
            crate::parse::res_str_matches(
                r,
                crate::parse::spec_complete(s@, AlignItems::spec_parse(s@, 0)),
            ),
    {
        crate::parse::complete_parse(s, AlignItems::parse(s, 0))
    }
}

impl BoxSizing {
    /// Parses a whole string as one `BoxSizing` keyword.
    pub fn parse_str(s: &str) -> (r: Result<BoxSizing, ParseError>)
        ensures
            crate::parse::res_str_matches(
                r,
                crate::parse::spec_complete(s@, BoxSizing::spec_parse(s@, 0)),
            ),
    {
        crate::parse::complete_parse(s, BoxSizing::parse(s, 0))
    }
}

impl Cursor {
    /// Parses a whole string as one `Cursor` keyword.
    pub fn parse_str(s: &str) -> (r: Result<Cursor, ParseError>)
        ensures
            crate::parse::res_str_matches(
                r,
                crate::parse::spec_complete(s@, Cursor::spec_parse(s@, 0)),
            ),
    {
        crate::parse::complete_parse(s, Cursor::parse(s, 0))
    }
}

impl Display {
    /// Parses a whole string as one `Display` keyword.
    pub fn parse_str(s: &str) -> (r: Result<Display, ParseError>)
        ensures
            crate::parse::res_str_matches(
                r,
                crate::parse::spec_complete(s@, Display::spec_parse(s@, 0)),
            ),
    {
        crate::parse::complete_parse(s, Display::parse(s, 0))
    }
}

impl FlexDirection {
    /// Parses a whole string as one `FlexDirection` keyword.
    pub fn parse_str(s: &str) -> (r: Result<FlexDirection, ParseError>)
        ensures
            crate::parse::res_str_matches(
                r,
                crate::parse::spec_complete(s@, FlexDirection::spec_parse(s@, 0)),
            ),
    {
        crate::parse::complete_parse(s, FlexDirection::parse(s, 0))
    }
}

impl FlexWrap {
    /// Parses a whole string as one `FlexWrap` keyword.
    pub fn parse_str(s: &str) -> (r: Result<FlexWrap, ParseError>)
        ensures
            crate::parse::res_str_matches(
                r,
                crate::parse::spec_complete(s@, FlexWrap::spec_parse(s@, 0)),
            ),
    {
        crate::parse::complete_parse(s, FlexWrap::parse(s, 0))
    }
}

impl FontStyle {
    /// Parses a whole string as one `FontStyle` keyword.
    pub fn parse_str(s: &str) -> (r: Result<FontStyle, ParseError>)
        ensures
            crate::parse::res_str_matches(
                r,
                crate::parse::spec_complete(s@, FontStyle::spec_parse(s@, 0)),
            ),
    {
        crate::parse::complete_parse(s, FontStyle::parse(s, 0))
    }
}

impl JustifyContent {
    /// Parses a whole string as one `JustifyContent` keyword.
    pub fn parse_str(s: &str) -> (r: Result<JustifyContent, ParseError>)
        ensures
            crate::parse::res_str_matches(
                r,
                crate::parse::spec_complete(s@, JustifyContent::spec_parse(s@, 0)),
            ),
    {
        crate::parse::complete_parse(s, JustifyContent::parse(s, 0))
    }
}

impl LineStyle {
    /// Parses a whole string as one `LineStyle` keyword.
    pub fn parse_str(s: &str) -> (r: Result<LineStyle, ParseError>)
        ensures
            crate::parse::res_str_matches(
                r,
                crate::parse::spec_complete(s@, LineStyle::spec_parse(s@, 0)),
            ),
    {
        crate::parse::complete_parse(s, LineStyle::parse(s, 0))
    }
}

impl ListStyleType {
    /// Parses a whole string as one `ListStyleType` keyword.
    pub fn parse_str(s: &str) -> (r: Result<ListStyleType, ParseError>)
        ensures
            crate::parse::res_str_matches(
                r,
                crate::parse::spec_complete(s@, ListStyleType::spec_parse(s@, 0)),
            ),
    {
        crate::parse::complete_parse(s, ListStyleType::parse(s, 0))
    }
}

impl Resize {
    /// Parses a whole string as one `Resize` keyword.
    pub fn parse_str(s: &str) -> (r: Result<Resize, ParseError>)
        ensures
            crate::parse::res_str_matches(
                r,
                crate::parse::spec_complete(s@, Resize::spec_parse(s@, 0)),
            ),
    {
        crate::parse::complete_parse(s, Resize::parse(s, 0))
    }
}

} // verus!
