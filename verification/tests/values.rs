use hyprland_settings::value::color::{validate_color_literal, Channels, ColorError, ColorValue, HexLabel};
use hyprland_settings::value::gradient::{GradientError, GradientValue};
use hyprland_settings::value::path_value::{CommandToken, PathValue, PathValueError};
use hyprland_settings::value::sanitized_string::{SanitizedStringValue, StringValueError};
use hyprland_settings::value::numeric_list::{NumericListError, NumericListText};
use hyprland_settings::value::vector::{Vec2Error, Vec2Separator, Vec2Text};

fn alpha_ok(s: &str) -> bool {
    s.parse::<f32>()
        .map(|a| a.is_finite() && (0.0..=1.0).contains(&a))
        .unwrap_or(false)
}

fn angle_ok(s: &str) -> bool {
    s.parse::<f64>().map(|a| a.is_finite()).unwrap_or(false)
}

fn positive(s: &str) -> bool {
    s.parse::<f64>().map(|a| a > 0.0).unwrap_or(false)
}

fn color(raw: &str) -> Result<String, ColorError> {
    ColorValue::parse(raw, &alpha_ok).map(|c| c.serialize().to_string())
}

fn gradient(raw: &str) -> Result<String, GradientError> {
    GradientValue::parse(raw, &alpha_ok, &angle_ok).map(|g| g.serialize().to_string())
}

#[test]
fn color_accepts_each_literal_form_trimmed() {
    assert_eq!(color("  #fff "), Ok("#fff".to_string()));
    assert_eq!(color("#a1b2c3"), Ok("#a1b2c3".to_string()));
    assert_eq!(color("#a1b2c3d4"), Ok("#a1b2c3d4".to_string()));
    assert_eq!(color("rgb(ff0000)"), Ok("rgb(ff0000)".to_string()));
    assert_eq!(color("rgb(255,0,0)"), Ok("rgb(255,0,0)".to_string()));
    assert_eq!(color("rgba(ff0000ff)"), Ok("rgba(ff0000ff)".to_string()));
    assert_eq!(color("rgba(255,0,0,0.5)"), Ok("rgba(255,0,0,0.5)".to_string()));
    assert_eq!(color("0xff00ff00"), Ok("0xff00ff00".to_string()));
    assert_eq!(color("0x1"), Ok("0x1".to_string()));
    assert_eq!(color("4294967295"), Ok("4294967295".to_string()));
}

#[test]
fn color_refuses_empty_and_whitespace() {
    assert_eq!(color(""), Err(ColorError::Empty));
    assert_eq!(color("   "), Err(ColorError::Empty));
    assert_eq!(color("#ff f"), Err(ColorError::ContainsWhitespace));
    assert_eq!(color("rgb(255, 0, 0)"), Err(ColorError::ContainsWhitespace));
}

#[test]
fn color_refuses_bad_hex_forms() {
    assert_eq!(color("#ffff"), Err(ColorError::HashDigitCount));
    assert_eq!(color("#ggg"), Err(ColorError::NonHexDigit(HexLabel::Short)));
    assert_eq!(color("#gggggg"), Err(ColorError::NonHexDigit(HexLabel::Full)));
    assert_eq!(color("#ffffffgg"), Err(ColorError::NonHexDigit(HexLabel::WithAlpha)));
    assert_eq!(color("rgb(ff00)"), Err(ColorError::HexLength(HexLabel::RgbBody, 6)));
    assert_eq!(color("rgb(ff00zz)"), Err(ColorError::NonHexDigit(HexLabel::RgbBody)));
    assert_eq!(color("rgba(ff0000)"), Err(ColorError::HexLength(HexLabel::RgbaBody, 8)));
    assert_eq!(color("0x"), Err(ColorError::ZeroXDigitCount));
    assert_eq!(color("0x123456789"), Err(ColorError::ZeroXDigitCount));
    assert_eq!(color("0xzz"), Err(ColorError::NonHexDigit(HexLabel::ZeroX)));
}

#[test]
fn color_refuses_bad_functional_forms() {
    assert_eq!(color("rgb(256,0,0)"), Err(ColorError::ComponentOutOfRange(Channels::Rgb)));
    assert_eq!(color("rgb(1,2)"), Err(ColorError::CommaCount(Channels::Rgb)));
    assert_eq!(color("rgb(1,,2)"), Err(ColorError::CommaCount(Channels::Rgb)));
    assert_eq!(color("rgba(1,2,3)"), Err(ColorError::CommaCount(Channels::Rgba)));
    assert_eq!(color("rgba(1,2,300,0.5)"), Err(ColorError::ComponentOutOfRange(Channels::Rgba)));
    assert_eq!(color("rgba(255,0,0,1.5)"), Err(ColorError::AlphaOutOfRange));
    assert_eq!(color("rgba(255,0,0,-0.1)"), Err(ColorError::AlphaOutOfRange));
    assert_eq!(color("rgba(255,0,0,x)"), Err(ColorError::AlphaNotNumeric));
}

#[test]
fn color_refuses_other_text() {
    assert_eq!(color("4294967296"), Err(ColorError::DecimalOutOfRange));
    assert_eq!(color("red"), Err(ColorError::NotALiteral));
    assert_eq!(color("rgb(ff0000"), Err(ColorError::NotALiteral));
}

#[test]
fn color_literal_check_trims_functional_parts() {
    assert_eq!(validate_color_literal("rgb(255, 0, 0)", &alpha_ok), Ok(()));
    assert_eq!(validate_color_literal("rgba( 1 , 2 , 3 , 1 )", &alpha_ok), Ok(()));
    assert_eq!(validate_color_literal(" #fff", &alpha_ok), Err(ColorError::NotALiteral));
}

#[test]
fn color_round_trips_through_serialize() {
    let first = ColorValue::parse(" rgba(10,20,30,0.25) ", &alpha_ok).unwrap();
    let second = ColorValue::parse(first.serialize(), &alpha_ok).unwrap();
    assert_eq!(first, second);
}

#[test]
fn color_error_messages() {
    assert_eq!(ColorError::Empty.message(), "color value cannot be empty");
    assert_eq!(ColorError::ContainsWhitespace.message(), "color value cannot contain whitespace");
    assert_eq!(
        ColorError::HashDigitCount.message(),
        "# color value must contain 3, 6, or 8 hex digits"
    );
    assert_eq!(
        ColorError::HexLength(HexLabel::RgbBody, 6).message(),
        "rgb color must contain 6 hex digits"
    );
    assert_eq!(
        ColorError::HexLength(HexLabel::RgbaBody, 8).message(),
        "rgba color must contain 8 hex digits"
    );
    assert_eq!(
        ColorError::HexLength(HexLabel::Full, 12).message(),
        "#RRGGBB color must contain 12 hex digits"
    );
    assert_eq!(
        ColorError::NonHexDigit(HexLabel::ZeroX).message(),
        "0x color contains non-hex characters"
    );
    assert_eq!(
        ColorError::NonHexDigit(HexLabel::Short).message(),
        "#RGB color contains non-hex characters"
    );
    assert_eq!(
        ColorError::NonHexDigit(HexLabel::WithAlpha).message(),
        "#RRGGBBAA color contains non-hex characters"
    );
    assert_eq!(
        ColorError::ZeroXDigitCount.message(),
        "0x color value must contain 1 to 8 hex digits"
    );
    assert_eq!(
        ColorError::DecimalOutOfRange.message(),
        "decimal color integer must fit in uint32"
    );
    assert_eq!(
        ColorError::NotALiteral.message(),
        "color value must be an official Hyprland color literal"
    );
    assert_eq!(
        ColorError::CommaCount(Channels::Rgba).message(),
        "rgba color has the wrong number of comma values"
    );
    assert_eq!(
        ColorError::ComponentOutOfRange(Channels::Rgb).message(),
        "rgb color component must be an integer from 0 to 255"
    );
    assert_eq!(ColorError::AlphaOutOfRange.message(), "rgba alpha must be between 0 and 1");
    assert_eq!(ColorError::AlphaNotNumeric.message(), "rgba alpha must be numeric");
}

#[test]
fn gradient_accepts_colors_with_optional_final_angle() {
    assert_eq!(
        gradient(" rgba(33ccffee) rgba(00ff99ee) 45deg "),
        Ok("rgba(33ccffee) rgba(00ff99ee) 45deg".to_string())
    );
    assert_eq!(gradient("rgb(ffffff)"), Ok("rgb(ffffff)".to_string()));
    assert_eq!(gradient("0xff00ff00 -12.5deg"), Ok("0xff00ff00 -12.5deg".to_string()));
}

#[test]
fn gradient_refusals() {
    assert_eq!(gradient("  "), Err(GradientError::Empty));
    assert_eq!(gradient("rgb(ffffff)\nrgb(000000)"), Err(GradientError::MultipleLines));
    assert_eq!(gradient("#fff"), Err(GradientError::CommentMarker));
    assert_eq!(gradient("rgb(ffffff) `x`"), Err(GradientError::CommandSubstitution));
    assert_eq!(gradient("rgb(ffffff) $(x)"), Err(GradientError::CommandSubstitution));
    assert_eq!(gradient("rgb(ffffff) 45deg 90deg"), Err(GradientError::AngleNotLast));
    assert_eq!(gradient("45deg rgb(ffffff)"), Err(GradientError::AngleNotLast));
    assert_eq!(gradient("rgb(ffffff) deg"), Err(GradientError::AngleEmpty));
    assert_eq!(gradient("rgb(ffffff) xdeg"), Err(GradientError::AngleNotNumeric));
    assert_eq!(gradient("rgb(ffffff) 1e400deg"), Err(GradientError::AngleNotFinite));
    assert_eq!(gradient("rgb(ffffff) infdeg"), Err(GradientError::AngleNotFinite));
    assert_eq!(gradient("45deg"), Err(GradientError::NoColor));
    assert_eq!(gradient("rgb(ffffff) red"), Err(GradientError::Color(ColorError::NotALiteral)));
}

#[test]
fn gradient_error_messages() {
    assert_eq!(GradientError::Empty.message(), "gradient value cannot be empty");
    assert_eq!(GradientError::MultipleLines.message(), "gradient value cannot span multiple lines");
    assert_eq!(
        GradientError::CommentMarker.message(),
        "gradient value cannot contain config comment marker"
    );
    assert_eq!(
        GradientError::CommandSubstitution.message(),
        "gradient value cannot contain command-substitution syntax"
    );
    assert_eq!(
        GradientError::MultipleAngles.message(),
        "gradient value cannot contain multiple angles"
    );
    assert_eq!(GradientError::AngleNotLast.message(), "gradient angle must be the final token");
    assert_eq!(GradientError::AngleEmpty.message(), "gradient angle cannot be empty");
    assert_eq!(GradientError::AngleNotFinite.message(), "gradient angle must be finite");
    assert_eq!(GradientError::AngleNotNumeric.message(), "gradient angle must be numeric");
    assert_eq!(
        GradientError::Color(ColorError::Empty).message(),
        "color value cannot be empty"
    );
    assert_eq!(GradientError::NoColor.message(), "gradient value needs at least one color");
}

#[test]
fn path_values() {
    let p = PathValue::parse("  ~/.config/hypr/shaders/warm.frag ").unwrap();
    assert_eq!(p.serialize(), "~/.config/hypr/shaders/warm.frag");
    assert_eq!(PathValue::parse(" ").unwrap_err(), PathValueError::Empty);
    assert_eq!(PathValue::parse("a\rb").unwrap_err(), PathValueError::MultipleLines);
    assert_eq!(PathValue::parse("a#b").unwrap_err(), PathValueError::CommentMarker);
    assert_eq!(
        PathValue::parse("a`b").unwrap_err(),
        PathValueError::CommandLike(CommandToken::Backtick)
    );
    assert_eq!(
        PathValue::parse("a$(b)").unwrap_err(),
        PathValueError::CommandLike(CommandToken::DollarParen)
    );
    assert_eq!(
        PathValue::parse("a;b").unwrap_err(),
        PathValueError::CommandLike(CommandToken::Semicolon)
    );
    assert_eq!(
        PathValue::parse("a||b").unwrap_err(),
        PathValueError::CommandLike(CommandToken::Pipe)
    );
    assert_eq!(
        PathValue::parse("a&&b").unwrap_err(),
        PathValueError::CommandLike(CommandToken::AndAnd)
    );
    assert!(PathValue::parse("a&b").is_ok());
}

#[test]
fn path_round_trip_and_messages() {
    let p = PathValue::parse(" /tmp/x ").unwrap();
    assert_eq!(PathValue::parse(p.serialize()).unwrap(), p);
    assert_eq!(PathValueError::Empty.message(), "path value cannot be empty");
    assert_eq!(PathValueError::MultipleLines.message(), "path value cannot span multiple lines");
    assert_eq!(
        PathValueError::CommentMarker.message(),
        "path value cannot contain config comment marker"
    );
    assert_eq!(
        PathValueError::CommandLike(CommandToken::Semicolon).message(),
        "path value cannot contain command-like token \";\""
    );
    assert_eq!(
        PathValueError::CommandLike(CommandToken::DollarParen).message(),
        "path value cannot contain command-like token \"$(\""
    );
    assert_eq!(
        PathValueError::CommandLike(CommandToken::OrOr).message(),
        "path value cannot contain command-like token \"||\""
    );
}

#[test]
fn sanitized_string_values() {
    let s = SanitizedStringValue::parse("  us,de ").unwrap();
    assert_eq!(s.serialize(), "us,de");
    assert_eq!(SanitizedStringValue::parse(s.serialize()).unwrap(), s);
    assert_eq!(SanitizedStringValue::parse("").unwrap_err(), StringValueError::Empty);
    assert_eq!(
        SanitizedStringValue::parse("a\nb").unwrap_err(),
        StringValueError::MultipleLines
    );
    assert_eq!(
        SanitizedStringValue::parse("a # b").unwrap_err(),
        StringValueError::CommentMarker
    );
    assert_eq!(
        SanitizedStringValue::parse("$(rm)").unwrap_err(),
        StringValueError::CommandSubstitution
    );
    assert!(SanitizedStringValue::parse("a;b|c").is_ok());
}

#[test]
fn sanitized_string_messages() {
    assert_eq!(StringValueError::Empty.message(), "string value cannot be empty");
    assert_eq!(
        StringValueError::MultipleLines.message(),
        "string value cannot span multiple lines"
    );
    assert_eq!(
        StringValueError::CommentMarker.message(),
        "string value cannot contain config comment marker"
    );
    assert_eq!(
        StringValueError::CommandSubstitution.message(),
        "string value cannot contain command-substitution syntax"
    );
}

fn numeric(raw: &str) -> Result<(String, Vec<String>), NumericListError> {
    NumericListText::parse(raw, &angle_ok, &positive)
        .map(|n| (n.serialize().to_string(), n.tokens().clone()))
}

#[test]
fn numeric_lists() {
    assert_eq!(
        numeric("  0.5 1  2 3 "),
        Ok(("0.5 1  2 3".to_string(), vec!["0.5".to_string(), "1".to_string(), "2".to_string(), "3".to_string()]))
    );
    assert_eq!(numeric(""), Err(NumericListError::Empty));
    assert_eq!(numeric("1\n2"), Err(NumericListError::MultipleLines));
    assert_eq!(numeric("1, 2"), Err(NumericListError::CommaSeparated));
    assert_eq!(numeric("1 #2"), Err(NumericListError::CommentMarker));
    assert_eq!(numeric("1 `2`"), Err(NumericListError::CommandSubstitution));
    assert_eq!(numeric("1 abc 2"), Err(NumericListError::NotNumeric { token: "abc".to_string() }));
    assert_eq!(numeric("abc"), Err(NumericListError::NotNumeric { token: "abc".to_string() }));
    assert_eq!(numeric("1 inf"), Err(NumericListError::NotFinite));
    assert_eq!(numeric("1"), Err(NumericListError::TooFewNumbers));
    assert_eq!(numeric("0 1"), Err(NumericListError::StepNotPositive));
    assert_eq!(numeric("-1 2"), Err(NumericListError::StepNotPositive));
    assert_eq!(
        NumericListError::NotNumeric { token: "abc".to_string() }.message(),
        "numeric list token must be numeric: abc"
    );
    assert_eq!(NumericListError::CommaSeparated.message(), "numeric list must use spaces, not commas");
    assert_eq!(
        NumericListError::TooFewNumbers.message(),
        "scroll points need a step and at least one point"
    );
    assert_eq!(NumericListError::StepNotPositive.message(), "scroll points step must be positive");
}

fn vec2(raw: &str) -> Result<(String, String, Vec2Separator), Vec2Error> {
    Vec2Text::parse(raw, &angle_ok).map(|v| (v.x, v.y, v.separator))
}

#[test]
fn vectors() {
    assert_eq!(vec2("1 2"), Ok(("1".to_string(), "2".to_string(), Vec2Separator::Space)));
    assert_eq!(vec2(" 1.5 , -2 "), Ok(("1.5".to_string(), "-2".to_string(), Vec2Separator::Comma)));
    assert_eq!(vec2(""), Err(Vec2Error::Empty));
    assert_eq!(vec2("1\r2"), Err(Vec2Error::MultipleLines));
    assert_eq!(vec2("1,2,3"), Err(Vec2Error::CommaCount));
    assert_eq!(vec2("1 2 3"), Err(Vec2Error::NotTwoNumbers));
    assert_eq!(vec2("1"), Err(Vec2Error::NotTwoNumbers));
    assert_eq!(vec2("1,"), Err(Vec2Error::ComponentEmpty));
    assert_eq!(vec2(",1"), Err(Vec2Error::ComponentEmpty));
    assert_eq!(vec2("x 2"), Err(Vec2Error::ComponentNotNumeric));
    assert_eq!(vec2("inf 2"), Err(Vec2Error::ComponentNotFinite));
    assert_eq!(vec2("1 NaN"), Err(Vec2Error::ComponentNotFinite));
    assert_eq!(Vec2Error::CommaCount.message(), "vector value must contain exactly one comma");
    assert_eq!(Vec2Error::ComponentNotNumeric.message(), "vector component must be numeric");
}

#[test]
fn every_accepted_path_is_an_accepted_string() {
    for raw in ["  ~/.config/hypr/shaders/warm.frag ", "/tmp/a b", "x"] {
        let p = PathValue::parse(raw).unwrap();
        let t = SanitizedStringValue::parse(raw).unwrap();
        assert_eq!(p.serialize(), t.serialize());
    }
    for raw in ["a;b", "a|b", "a && b"] {
        assert!(PathValue::parse(raw).is_err());
        assert!(SanitizedStringValue::parse(raw).is_ok());
    }
}
