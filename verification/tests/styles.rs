//! Property entries, borders, shorthand quads and whole property lists.

use style::{
    Border, Color, Display, ObjectFit, DynamicStyles, FlexDirection, Length, LengthPercentage, LineStyle,
    LineWidth, Margin, MarginWidth, MaxWidthHeight, Num, Padding, Style, Styles, WidthHeight,
};

fn n(i: u64) -> Num {
    Num { mantissa: i, scale: 0 }
}

fn px(i: u64) -> LengthPercentage {
    LengthPercentage::Length(Length::Px(n(i)))
}

fn mpx(i: u64) -> MarginWidth {
    MarginWidth::LengthPercentage(px(i))
}

#[test]
fn test_max_width_height() {
    let style = Style::parse_str("max-width: 200px").unwrap();
    assert_eq!(&style.to_css_string(), "max-width:200px");
    assert_eq!(
        style,
        Style::MaxWidth(MaxWidthHeight::LengthPercentage(px(200)))
    );
}

#[test]
fn test_padding() {
    for (input, output) in vec![(
        "padding:1\"em\"",
        Style::Padding(Padding::All(LengthPercentage::Length(Length::Em(n(1))))),
    )] {
        assert_eq!(Style::parse_str(input).unwrap(), output);
    }
}

#[test]
fn downstream_bug1() {
    let s = Styles::parse_str(
        "display: flex;
        flex-direction: column;
        flex-grow: 1;
        flex-shrink: 0;",
    )
    .unwrap();
    assert_eq!(
        s.0,
        vec![
            Style::Display(Display::Flex),
            Style::FlexDirection(FlexDirection::Column),
            Style::FlexGrow(n(1)),
            Style::FlexShrink(n(0))
        ]
    );
}

#[test]
fn margin_arity_dispatch() {
    assert_eq!(Margin::parse_str("1px").unwrap(), Margin::All(mpx(1)));
    assert_eq!(
        Margin::parse_str("1px 2px").unwrap(),
        Margin::VerticalHorizontal(mpx(1), mpx(2))
    );
    assert_eq!(
        Margin::parse_str("1px 2px 3px").unwrap(),
        Margin::TopHorizontalBottom(mpx(1), mpx(2), mpx(3))
    );
    assert_eq!(
        Margin::parse_str("1px 2px 3px 4px").unwrap(),
        Margin::TopRightBottomLeft(mpx(1), mpx(2), mpx(3), mpx(4))
    );
    let e = Margin::parse_str("1px 2px 3px 4px 5px").unwrap_err();
    assert_eq!(e.msg, "trailing characters");
}

#[test]
fn margin_auto() {
    assert_eq!(
        Margin::parse_str("0 auto").unwrap(),
        Margin::VerticalHorizontal(
            MarginWidth::LengthPercentage(LengthPercentage::Length(Length::Zero)),
            MarginWidth::Auto
        )
    );
}

#[test]
fn border_order_independence() {
    let expected = Border {
        line_width: Some(LineWidth::Length(Length::Px(n(1)))),
        line_style: Some(LineStyle::Solid),
        color: Some(Color::Red),
    };
    assert_eq!(Border::parse_str("1px solid red").unwrap(), expected);
    assert_eq!(Border::parse_str("solid 1px red").unwrap(), expected);
    assert_eq!(Border::parse_str("red 1px solid").unwrap(), expected);
}

#[test]
fn border_duplicate_field() {
    let e = Border::parse_str("1px 2px solid red").unwrap_err();
    assert_eq!(e.msg, "the border width was specified more than once");
    let e = Border::parse_str("solid red dotted").unwrap_err();
    assert_eq!(e.msg, "the border style was specified more than once");
}

#[test]
fn border_partial_and_empty() {
    assert_eq!(
        Border::parse_str("thin").unwrap(),
        Border {
            line_width: Some(LineWidth::Thin),
            line_style: None,
            color: None,
        }
    );
    assert_eq!(
        Border::parse_str("").unwrap(),
        Border {
            line_width: None,
            line_style: None,
            color: None,
        }
    );
}

#[test]
fn border_rejects_junk() {
    let e = Border::parse_str("1px solid 5").unwrap_err();
    assert_eq!(
        e.msg,
        "unexpected input - expected one of border-width, border-style, color"
    );
}

#[test]
fn dummy_is_filtered() {
    let s = Styles::parse_str("dummy; display: flex;").unwrap();
    assert_eq!(s.to_css_string(), "display:flex;");
    assert_eq!(
        s.0,
        vec![Style::Dummy, Style::Display(Display::Flex)]
    );
}

#[test]
fn end_to_end_round_trip() {
    let input = "display: flex; flex-direction: column; flex-grow: 1; flex-shrink: 0;";
    let s = Styles::parse_str(input).unwrap();
    assert_eq!(
        s.0,
        vec![
            Style::Display(Display::Flex),
            Style::FlexDirection(FlexDirection::Column),
            Style::FlexGrow(n(1)),
            Style::FlexShrink(n(0))
        ]
    );
    let text = s.to_css_string();
    assert_eq!(
        text,
        "display:flex;flex-direction:column;flex-grow:1;flex-shrink:0;"
    );
    let again = Styles::parse_str(&text).unwrap();
    assert_eq!(again, s);
}

#[test]
fn unknown_property_lists_every_name() {
    let e = Style::parse_str("colour: red").unwrap_err();
    assert!(e.msg.starts_with("expected one of "));
    for name in [
        "`dummy`",
        "`align-items`",
        "`background-color`",
        "`border`",
        "`border-color`",
        "`color`",
        "`cursor`",
        "`display`",
        "`flex-grow`",
        "`font-family`",
        "`margin`",
        "`max-width`",
        "`min-height`",
        "`object-fit`",
        "`padding-left`",
        "`resize`",
        "`width`",
    ] {
        assert!(e.msg.contains(name), "missing {} in {}", name, e.msg);
    }
}

#[test]
fn escape_blocks_pass_through() {
    let dy = DynamicStyles::parse_str("display: flex; { my_rust_expr() };").unwrap();
    assert_eq!(dy.0.len(), 2);
    assert!(dy.0[1].is_dynamic());
    assert_eq!(dy.to_css_string(), "display:flex;");
    assert!(Styles::parse_str("display: flex; { my_rust_expr() };").is_err());
    let lit = Styles::from_dynamic(dy);
    assert_eq!(lit.0, vec![Style::Display(Display::Flex)]);
}

#[test]
fn dynamic_color_is_kept_in_literal_styles() {
    let s = Styles::parse_str("background-color: { theme() }; color: red;").unwrap();
    assert_eq!(s.0.len(), 2);
    assert!(s.0[0].is_dynamic());
    assert_eq!(s.to_css_string(), "background-color:;color:red;");
}

#[test]
fn dummy_keeps_no_colon() {
    assert_eq!(Style::parse_str("dummy").unwrap(), Style::Dummy);
    assert!(Style::parse_str("dummy: 1px").is_err());
}

#[test]
fn sizing_keywords() {
    assert_eq!(
        Style::parse_str("width: fit-content(50%)").unwrap().to_css_string(),
        "width:fit-content(50%)"
    );
    assert_eq!(
        Style::parse_str("height: min-content").unwrap(),
        Style::Height(WidthHeight::MinContent)
    );
    assert_eq!(
        Style::parse_str("max-height: none").unwrap(),
        Style::MaxHeight(MaxWidthHeight::NoneValue)
    );
}

#[test]
fn font_family_takes_string() {
    let s = Style::parse_str("font-family: \"Fira Sans\"").unwrap();
    assert_eq!(s, Style::FontFamily("Fira Sans".to_string()));
    assert_eq!(s.to_css_string(), "font-family:Fira Sans");
}

#[test]
fn object_fit_modifiers() {
    assert_eq!(
        Style::parse_str("object-fit: cover scale-down").unwrap(),
        Style::ObjectFit(ObjectFit::Cover { scale_down: true })
    );
    assert_eq!(
        Style::parse_str("object-fit: scale-down").unwrap(),
        Style::ObjectFit(ObjectFit::Contain { scale_down: true })
    );
    assert_eq!(
        Style::parse_str("object-fit: contain").unwrap(),
        Style::ObjectFit(ObjectFit::Contain { scale_down: false })
    );
}

#[test]
fn empty_styles_parse() {
    assert_eq!(Styles::parse_str("").unwrap().0, vec![]);
    assert_eq!(Styles::parse_str("   ").unwrap().0, vec![]);
}
