//! A typed model of a subset of CSS: strongly-typed property values, a
//! recursive-descent parser for a CSS-like property syntax, and a canonical
//! serializer back to CSS text.

mod color;
mod diag;
mod keywords;
mod laws;
mod num;
mod parse;
mod parse_color;
mod parse_kw;
mod parse_list;
mod parse_style;
mod parse_value;
mod progress;
mod property;
mod quads;
mod rgb;
mod round;
mod styles;
mod text;
mod values;

pub use property::Style;
pub use styles::DynamicStyle;
pub use styles::DynamicStyles;
pub use styles::Styles;

pub use color::Color;
pub use color::DynamicColor;
pub use color::parse_hex;
pub use diag::ParseError;
pub use diag::TryList;
pub use keywords::AlignItems;
pub use keywords::BoxSizing;
pub use keywords::Cursor;
pub use keywords::Display;
pub use keywords::FlexDirection;
pub use keywords::FlexWrap;
pub use keywords::FontStyle;
pub use keywords::JustifyContent;
pub use keywords::LineStyle;
pub use keywords::ListStyleType;
pub use keywords::Resize;
pub use parse::HyphenWord;
pub use parse::Number;
pub use parse::finished_rule;
pub use num::Num;
pub use quads::BorderColor;
pub use quads::BorderStyle;
pub use quads::BorderWidth;
pub use quads::Margin;
pub use quads::Padding;
pub use text::EscapeBlock;
pub use values::Border;
pub use values::FlexBasis;
pub use values::FontSize;
pub use values::FontWeight;
pub use values::Length;
pub use values::LengthPercentage;
pub use values::LineWidth;
pub use values::MarginWidth;
pub use values::MaxWidthHeight;
pub use values::ObjectFit;
pub use values::PaddingWidth;
pub use values::Percentage;
pub use values::Url;
pub use values::Width21;
pub use values::WidthHeight;
