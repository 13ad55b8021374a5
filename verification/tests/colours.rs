use let_me_talk::colours::{text_colour_from_bg, Colour, ParseRgbError, Rgb};

#[test]
fn parse_hex_valid() {
    assert_eq!(Rgb::from_str("#495565"), Ok(Rgb(0x49, 0x55, 0x65)));
    assert_eq!(Rgb::from_str("#000000"), Ok(Rgb(0, 0, 0)));
    assert_eq!(Rgb::from_str("#ffffff"), Ok(Rgb(255, 255, 255)));
    assert_eq!(Rgb::from_str("#FFFFFF"), Ok(Rgb(255, 255, 255)));
    assert_eq!(Rgb::from_str("#49A5f0"), Ok(Rgb(0x49, 0xa5, 0xf0)));
}

#[test]
fn parse_hex_invalid() {
    assert_eq!(Rgb::from_str("49556"), Err(ParseRgbError));
    assert_eq!(Rgb::from_str("zz5565"), Err(ParseRgbError));
    assert_eq!(Rgb::from_str("495565"), Err(ParseRgbError));
    assert_eq!(Rgb::from_str(""), Err(ParseRgbError));
    assert_eq!(Rgb::from_str("#12345"), Err(ParseRgbError));
    assert_eq!(Rgb::from_str("#1234567"), Err(ParseRgbError));
    assert_eq!(Rgb::from_str("#12345g"), Err(ParseRgbError));
    assert_eq!(Rgb::from_str("#4955655"), Err(ParseRgbError));
}

#[test]
fn hex_round_trip() {
    let parsed = Rgb::from_str("#49A5F0").unwrap();
    assert_eq!(parsed.to_hex(), "#49a5f0");

    let parsed = Rgb::from_str("#495565").unwrap();
    assert_eq!(parsed.to_hex(), "#495565");

    let again = Rgb::from_str(&Rgb(1, 2, 254).to_hex()).unwrap();
    assert_eq!(again, Rgb(1, 2, 254));
}

#[test]
fn contrast_foreground() {
    assert_eq!(
        text_colour_from_bg(Rgb(0, 0, 0)),
        Colour::Colour(Rgb(255, 255, 255))
    );
    assert_eq!(
        text_colour_from_bg(Rgb(255, 255, 255)),
        Colour::Colour(Rgb(0, 0, 0))
    );
    // The boundary: a channel sum of exactly 382 resolves to black.
    assert_eq!(
        text_colour_from_bg(Rgb(127, 127, 128)),
        Colour::Colour(Rgb(0, 0, 0))
    );
    assert_eq!(
        text_colour_from_bg(Rgb(127, 127, 127)),
        Colour::Colour(Rgb(255, 255, 255))
    );
}

#[test]
fn css_strings() {
    assert_eq!(
        Colour::Colour(Rgb(73, 85, 101)).to_css_string(),
        "color: rgb(73, 85, 101);"
    );
    assert_eq!(
        Colour::BgColour(Rgb(0, 255, 7)).to_css_string(),
        "background-color: rgb(0, 255, 7);"
    );
}
