//! The value parsers, on the grammar's own forms.

use style::{
    BorderColor, BorderWidth, Color, FontStyle, FontWeight, HyphenWord, Length, LengthPercentage,
    LineWidth, Num, Number, Percentage,
};

fn n(i: u64) -> Num {
    Num { mantissa: i, scale: 0 }
}

#[test]
fn test_border_color() {
    for (input, output) in vec![
        ("black", BorderColor::All(Color::Black)),
        (
            "#fff blue",
            BorderColor::VerticalHorizontal(Color::HexRGB(255, 255, 255), Color::Blue),
        ),
        (
            "blue hsl(20, 5%, 100%) white",
            BorderColor::TopHorizontalBottom(
                Color::Blue,
                Color::HSL(n(20), n(5), n(100)),
                Color::White,
            ),
        ),
        (
            "hsla(20, 5%, 100%, 0.2) #fff #ccc white",
            BorderColor::TopRightBottomLeft(
                Color::HSLA(n(20), n(5), n(100), Num { mantissa: 2, scale: 1 }),
                Color::HexRGB(255, 255, 255),
                Color::HexRGB(204, 204, 204),
                Color::White,
            ),
        ),
    ] {
        assert_eq!(BorderColor::parse_str(input).unwrap(), output);
    }
}

#[test]
fn test_border_width() {
    for (input, output) in vec![
        ("1px", BorderWidth::All(LineWidth::Length(Length::Px(n(1))))),
        (
            "1px 2\"em\"",
            BorderWidth::VerticalHorizontal(
                LineWidth::Length(Length::Px(n(1))),
                LineWidth::Length(Length::Em(n(2))),
            ),
        ),
        (
            "2\"em\" medium thick",
            BorderWidth::TopHorizontalBottom(
                LineWidth::Length(Length::Em(n(2))),
                LineWidth::Medium,
                LineWidth::Thick,
            ),
        ),
        (
            "2\"em\" medium 1px thick",
            BorderWidth::TopRightBottomLeft(
                LineWidth::Length(Length::Em(n(2))),
                LineWidth::Medium,
                LineWidth::Length(Length::Px(n(1))),
                LineWidth::Thick,
            ),
        ),
    ] {
        assert_eq!(BorderWidth::parse_str(input).unwrap(), output);
    }

    for input in vec!["thi", "1px 1px 1px 1px 1px"] {
        assert!(BorderWidth::parse_str(input).is_err());
    }
}

#[test]
fn test_font_style() {
    for (input, output) in vec![
        ("normal", FontStyle::Normal),
        ("italic", FontStyle::Italic),
        ("oblique", FontStyle::Oblique),
    ] {
        assert_eq!(FontStyle::parse_str(input).unwrap(), output);
    }

    for input in vec!["norma", "normal trailing"] {
        assert!(FontStyle::parse_str(input).is_err());
    }
}

#[test]
fn test_font_weight() {
    for (input, output) in vec![
        ("normal", FontWeight::Normal),
        ("bold", FontWeight::Bold),
        ("lighter", FontWeight::Lighter),
        ("bolder", FontWeight::Bolder),
        ("1", FontWeight::Number(n(1))),
        ("1.0", FontWeight::Number(n(1))),
        ("1000", FontWeight::Number(n(1000))),
        ("1000.0", FontWeight::Number(n(1000))),
        ("246.15", FontWeight::Number(Num { mantissa: 24615, scale: 2 })),
    ] {
        match FontWeight::parse_str(input) {
            Ok(v) => assert_eq!(v, output),
            Err(e) => panic!("error parsing {}: {}", input, e.msg),
        }
    }
}

#[test]
fn font_weight_range() {
    assert_eq!(
        FontWeight::parse_str("500").unwrap(),
        FontWeight::Number(n(500))
    );
    assert!(FontWeight::parse_str("1001").is_err());
    assert!(FontWeight::parse_str("0").is_err());
    assert!(FontWeight::parse_str("0.5").is_err());
}

#[test]
fn test_parse_line_width() {
    assert_eq!(LineWidth::parse_str("thin").unwrap(), LineWidth::Thin);
}

#[test]
fn test_length_percentage() {
    for (input, output) in vec![
        ("1\"em\"", LengthPercentage::Length(Length::Em(n(1)))),
        ("1.0px", LengthPercentage::Length(Length::Px(n(1)))),
        ("0", LengthPercentage::Length(Length::Zero)),
    ] {
        assert_eq!(LengthPercentage::parse_str(input).unwrap(), output);
    }
}

#[test]
fn percentage_parses_suffix() {
    let (p, end) = Percentage::parse("150%", 0).unwrap();
    assert_eq!(p, Percentage(n(150)));
    assert_eq!(end, 4);
    assert!(Percentage::parse("150", 0).is_err());
}

#[test]
fn length_requires_unit() {
    let e = Length::parse_str("10").unwrap_err();
    assert_eq!(
        e.msg,
        "expected one of `em`, `ex`, `in`, `cm`, `mm`, `pt`, `pc`, `px` after number, or 0"
    );
    assert_eq!(Length::parse_str("10pt").unwrap(), Length::Pt(n(10)));
    assert_eq!(Length::parse_str("0").unwrap(), Length::Zero);
}

#[test]
fn test_number() {
    for (input, value, suffix) in vec![
        ("200", n(200), ""),
        ("200.0", n(200), ""),
        ("0", n(0), ""),
        ("0in", n(0), "in"),
    ] {
        assert!(Number::parse_str(input).unwrap().check_value(value, suffix));
    }
}

#[test]
fn number_suffix_forms() {
    // An adjacent identifier, a following percent and a quoted unit all
    // become the suffix; whitespace before a bare identifier does not.
    assert!(Number::parse_str("10px").unwrap().check_value(n(10), "px"));
    assert!(Number::parse_str("10 %").unwrap().check_value(n(10), "%"));
    assert!(Number::parse_str("10\"em\"").unwrap().check_value(n(10), "em"));
    assert!(Number::parse_str("10 em").is_err());
}

#[test]
fn test_hyphen_word() {
    let word = HyphenWord::parse_str("first-second-third").unwrap();
    assert_eq!(word.word, Some("first-second-third".to_string()));
    assert!(HyphenWord::parse_str("first-second-").is_err());
    assert!(HyphenWord::parse_str("a a").is_err());
}

#[test]
fn parse_test_color() {
    for (input, output) in vec![
        ("#ffffffff", Color::HexRGBA(255, 255, 255, 255)),
        ("#ffffff", Color::HexRGB(255, 255, 255)),
        ("#fff", Color::HexRGB(255, 255, 255)),
        ("#\"fff\"", Color::HexRGB(255, 255, 255)),
        ("hsl(100, 50%, 50%)", Color::HSL(n(100), n(50), n(50))),
        (
            "hsla(60, 0%, 0%, 0.2)",
            Color::HSLA(n(60), n(0), n(0), Num { mantissa: 2, scale: 1 }),
        ),
        ("black", Color::Black),
        ("yellow", Color::Yellow),
    ] {
        match Color::parse_str(input) {
            Ok(c) => assert_eq!(c, output),
            Err(e) => panic!("error parsing color {}: {}", input, e.msg),
        }
    }
}

#[test]
fn hex_nibble_doubling() {
    assert_eq!(style::parse_hex("fff"), style::parse_hex("ffffff"));
    assert_eq!(style::parse_hex("fff"), Some(Color::HexRGB(255, 255, 255)));
    assert_eq!(style::parse_hex("1a9"), Some(Color::HexRGB(0x11, 0xaa, 0x99)));
    assert_eq!(style::parse_hex("12345"), None);
    assert_eq!(style::parse_hex("xyz"), None);
}

#[test]
fn hsl_range_validation() {
    assert!(Color::parse_str("hsl(360, 0%, 0%)").is_err());
    assert!(Color::parse_str("hsl(0, 101%, 0%)").is_err());
    assert!(Color::parse_str("hsl(0, 0%, 101%)").is_err());
    assert!(Color::parse_str("hsla(0, 0%, 0%, 1.01)").is_err());
    assert_eq!(
        Color::parse_str("hsl(359, 100%, 100%)").unwrap(),
        Color::HSL(n(359), n(100), n(100))
    );
    assert_eq!(
        Color::parse_str("hsla(0, 0%, 0%, 1)").unwrap(),
        Color::HSLA(n(0), n(0), n(0), n(1))
    );
}

#[test]
fn hsl_error_messages() {
    let e = Color::parse_str("hsl(360, 0%, 0%)").unwrap_err();
    assert_eq!(e.msg, "hue should be in the range `0 <= hue < 360`");
    let e = Color::parse_str("hsl(0, 1, 0%)").unwrap_err();
    assert_eq!(e.msg, "saturation should be a percentage (followed by `%`)");
    let e = Color::parse_str("hsl(0, 1%, 200%)").unwrap_err();
    assert_eq!(e.msg, "lightness should be in the range `0 <= light < 100`");
    let e = Color::parse_str("hsla(0, 1%, 2%, 3)").unwrap_err();
    assert_eq!(e.msg, "alpha should be in the range `0 <= alpha < 1`");
}

#[test]
fn unknown_color_lists_candidates() {
    let e = Color::parse_str("blurple").unwrap_err();
    assert_eq!(e.msg, "expected one of `hsl`, `hsla`, named color");
}

#[test]
fn reparse_canonical_text() {
    // Round-trip at the executable level, mirroring the proved laws: the
    // canonical text of a value parses back to the value itself.
    let lengths = vec![
        Length::Px(n(10)),
        Length::Em(Num { mantissa: 15, scale: 1 }),
        Length::Cm(Num { mantissa: 5, scale: 2 }),
        Length::Zero,
    ];
    for l in lengths {
        assert_eq!(Length::parse_str(&l.to_css_string()).unwrap(), l);
    }
    let colors = vec![
        Color::HexRGB(0, 238, 238),
        Color::HexRGBA(1, 2, 3, 4),
        Color::HSL(n(100), n(50), n(50)),
        Color::HSLA(n(359), n(0), n(100), Num { mantissa: 25, scale: 2 }),
        Color::CornflowerBlue,
        Color::RebeccaPurple,
        Color::LightGoldenrodYellow,
    ];
    for c in colors {
        assert_eq!(Color::parse_str(&c.to_css_string()).unwrap(), c);
    }
}
