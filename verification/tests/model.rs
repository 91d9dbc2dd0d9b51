//! Serialization and color conversion.

use style::{Border, Color, Display, FlexDirection, JustifyContent, Length, LineStyle, LineWidth, Num, Style, Styles};

fn n(i: u64) -> Num {
    Num { mantissa: i, scale: 0 }
}

#[test]
fn color_test_color() {
    let color = Color::HexRGB(255, 255, 255);
    assert_eq!(color.to_css_string(), "#ffffff".to_string());
    let color = Color::HSL(n(100), n(50), n(50));
    assert_eq!(color.to_css_string(), "hsl(100, 50%, 50%)".to_string());
}

#[test]
fn test_color_convert() {
    let color = Color::HSL(n(60), n(0), n(100));
    assert_eq!(color.to_rgb(), Color::HexRGB(255, 255, 255));
    let color = Color::HSL(n(0), n(100), n(50));
    assert_eq!(color.to_rgb(), Color::HexRGB(255, 0, 0));
}

#[test]
fn color_convert_mid_sector() {
    // hue 100 lies in the 60..120 sector; the channels come out exactly as
    // the truncated real-valued algorithm gives them.
    let color = Color::HSL(n(100), n(50), n(50));
    assert_eq!(color.to_rgb(), Color::HexRGB(106, 191, 63));
}

#[test]
fn color_convert_drops_alpha() {
    let color = Color::HexRGBA(1, 2, 3, 4);
    assert_eq!(color.to_rgb(), Color::HexRGB(1, 2, 3));
    let color = Color::HSLA(n(0), n(100), n(50), Num { mantissa: 5, scale: 1 });
    assert_eq!(color.to_rgb(), Color::HexRGB(255, 0, 0));
}

#[test]
fn color_convert_named() {
    assert_eq!(Color::CornflowerBlue.to_rgb(), Color::HexRGB(100, 149, 237));
    assert_eq!(Color::RebeccaPurple.to_rgb(), Color::HexRGB(102, 51, 153));
    assert_eq!(Color::Black.to_rgb(), Color::HexRGB(0, 0, 0));
}

#[test]
fn hex_serializes_zero_padded() {
    assert_eq!(Color::HexRGB(0, 238, 238).to_css_string(), "#00eeee");
    assert_eq!(Color::HexRGBA(255, 255, 255, 255).to_css_string(), "#ffffffff");
}

#[test]
fn hsla_serializes_source_values() {
    let c = Color::HSLA(n(60), n(50), n(30), Num { mantissa: 2, scale: 1 });
    assert_eq!(c.to_css_string(), "hsla(60, 50%, 30%, 0.2)");
}

#[test]
fn named_serializes_keyword() {
    assert_eq!(Color::CornflowerBlue.to_css_string(), "cornflowerblue");
    assert_eq!(Color::Yellow.to_css_string(), "yellow");
}

#[test]
fn style_serializes_key_value() {
    assert_eq!(Style::Display(Display::Flex).to_css_string(), "display:flex");
    assert_eq!(
        Style::FlexDirection(FlexDirection::Column).to_css_string(),
        "flex-direction:column"
    );
    assert_eq!(
        Style::JustifyContent(JustifyContent::SpaceAround).to_css_string(),
        "justify-content:space-around"
    );
    assert_eq!(Style::FlexGrow(n(1)).to_css_string(), "flex-grow:1");
    assert_eq!(Style::Dummy.to_css_string(), "");
}

#[test]
fn styles_filters_dummy() {
    let styles = Styles(vec![
        Style::Dummy,
        Style::Display(Display::Flex),
        Style::Dummy,
    ]);
    let plain = Styles(vec![Style::Display(Display::Flex)]);
    assert_eq!(styles.to_css_string(), plain.to_css_string());
    assert_eq!(styles.to_css_string(), "display:flex;");
}

#[test]
fn styles_add_and_merge_keep_order() {
    let mut a = Styles::new();
    a.add(Style::Display(Display::Flex));
    let mut b = Styles::new();
    b.add(Style::FlexGrow(n(2)));
    a.merge(b);
    assert_eq!(a.to_css_string(), "display:flex;flex-grow:2;");
}

#[test]
fn number_renders_normalized() {
    assert_eq!(Length::Px(n(10)).to_css_string(), "10px");
    assert_eq!(Length::Em(Num { mantissa: 15, scale: 1 }).to_css_string(), "1.5em");
    assert_eq!(Length::Zero.to_css_string(), "0");
    assert_eq!(
        Length::Cm(Num { mantissa: 5, scale: 2 }).to_css_string(),
        "0.05cm"
    );
}

#[test]
fn border_serializes_present_parts() {
    let b = Border {
        line_width: Some(LineWidth::Thin),
        line_style: Some(LineStyle::Solid),
        color: Some(Color::Red),
    };
    assert_eq!(b.to_css_string(), "thin solid red");
    let b = Border {
        line_width: None,
        line_style: Some(LineStyle::Dotted),
        color: None,
    };
    assert_eq!(b.to_css_string(), "dotted");
}
