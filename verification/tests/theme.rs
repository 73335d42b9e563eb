use desktop_music_widget::theme::{hex_nibble, parse_color, Palette, Rgba8, Theme};

fn unit(v: u8) -> f32 {
    v as f32 / 255.0
}

#[test]
fn parses_six_digit_hex() {
    let c = parse_color("#ff8000").unwrap();
    assert!((unit(c.r) - 1.0).abs() < 0.001);
    assert!((unit(c.g) - 128.0 / 255.0).abs() < 0.001);
    assert!((unit(c.b) - 0.0).abs() < 0.001);
    assert!((unit(c.a) - 1.0).abs() < 0.001, "alpha defaults to opaque");
}

#[test]
fn parses_eight_digit_hex_with_alpha() {
    let c = parse_color("#00000000").unwrap();
    assert_eq!(unit(c.a), 0.0);
    let c = parse_color("ffffff80").unwrap(); // '#' is optional
    assert!((unit(c.a) - 128.0 / 255.0).abs() < 0.001);
}

#[test]
fn parses_short_form_by_doubling() {
    let c = parse_color("#f0a").unwrap();
    assert!((unit(c.r) - 1.0).abs() < 0.001);
    assert!((unit(c.g) - 0.0).abs() < 0.001);
    assert!((unit(c.b) - 170.0 / 255.0).abs() < 0.001);
}

#[test]
fn rejects_nonsense() {
    for bad in ["", "#", "#ff", "#ffff", "#gggggg", "red", "#12345"] {
        assert!(parse_color(bad).is_none(), "{bad} should not parse");
    }
}

#[test]
fn default_theme_round_trips_through_hex() {
    let p = Palette::default();
    assert!((unit(p.background.r) - 18.0 / 255.0).abs() < 0.001);
    assert!((unit(p.background.b) - 23.0 / 255.0).abs() < 0.001);
    assert!((unit(p.subtitle.a) - 153.0 / 255.0).abs() < 0.001);
}

#[test]
fn broken_colour_falls_back_to_default() {
    let theme = Theme {
        background: "not-a-color".into(),
        ..Theme::default()
    };
    let p = Palette::resolve(&theme);
    assert_eq!(p.background, Palette::default().background);
}

#[test]
fn exact_channels_whitespace_and_repeated_hashes() {
    assert_eq!(
        parse_color("  ##12AbEf  "),
        Some(Rgba8 { r: 0x12, g: 0xab, b: 0xef, a: 255 })
    );
    assert_eq!(parse_color("#1234"), None);
    assert_eq!(parse_color("#ééé"), None);
    assert_eq!(hex_nibble(b'F'), Some(15));
    assert_eq!(hex_nibble(b'g'), None);
}

#[test]
fn unparseable_default_falls_back_to_white() {
    let theme = Theme {
        title: "nope".into(),
        ..Theme::default()
    };
    let p = Palette::resolve(&theme);
    assert_eq!(p.title, Rgba8 { r: 255, g: 255, b: 255, a: 0xf5 });
}

#[test]
fn the_default_palette_is_the_shipped_one() {
    let p = Palette::default();
    let c = |r, g, b, a| Rgba8 { r, g, b, a };
    assert_eq!(p.background, c(0x12, 0x12, 0x17, 0xff));
    assert_eq!(p.art_bg, c(0xff, 0xff, 0xff, 0x1a));
    assert_eq!(p.title, c(0xff, 0xff, 0xff, 0xf5));
    assert_eq!(p.subtitle, c(0xff, 0xff, 0xff, 0x99));
    assert_eq!(p.bar_bg, c(0xff, 0xff, 0xff, 0x29));
    assert_eq!(p.bar_fg, c(0xff, 0xff, 0xff, 0xd9));
}
