use toolkit_glue::color::ColorValue;
use toolkit_glue::color::ColorValueBuilder;

#[test]
fn builder_matches_direct_update() {
    let built = ColorValueBuilder::new().red(128).build();
    let direct = ColorValue::default().with_red(128);
    assert_eq!(built, direct);
    let built = ColorValue::builder().green(7).build();
    assert_eq!(built, ColorValue::default().with_green(7));
    let built = ColorValueBuilder::new().blue(0).alpha(33).build();
    assert_eq!(built, ColorValue::default().with_blue(0).with_alpha(33));
}

#[test]
fn builder_starts_from_opaque_white() {
    assert_eq!(ColorValueBuilder::new().build(), ColorValue::new(255, 255, 255, 255));
    assert_eq!(ColorValue::default(), ColorValue::new(255, 255, 255, 255));
}

#[test]
fn accessors_and_setters() {
    let mut c = ColorValue::new(1, 2, 3, 4);
    assert_eq!(c.red(), 1);
    assert_eq!(c.green(), 2);
    assert_eq!(c.blue(), 3);
    assert_eq!(c.alpha(), 4);
    c.set_red(10);
    c.set_green(20);
    c.set_blue(30);
    c.set_alpha(40);
    assert_eq!(c, ColorValue::new(10, 20, 30, 40));
}

#[test]
fn parse_named_colors() {
    assert_eq!(ColorValue::parse("red"), Ok(ColorValue::new(255, 0, 0, 255)));
    assert_eq!(ColorValue::parse("green"), Ok(ColorValue::new(0, 128, 0, 255)));
    assert_eq!(ColorValue::parse("lime"), Ok(ColorValue::new(0, 255, 0, 255)));
    assert_eq!(ColorValue::parse("transparent"), Ok(ColorValue::new(0, 0, 0, 0)));
    assert_eq!(ColorValue::parse("orange"), Ok(ColorValue::new(255, 165, 0, 255)));
    assert_eq!(ColorValue::parse("grey"), Ok(ColorValue::new(128, 128, 128, 255)));
    assert_eq!(ColorValue::parse("gray"), Ok(ColorValue::new(128, 128, 128, 255)));
    assert_eq!(ColorValue::parse("magenta"), Ok(ColorValue::new(255, 0, 255, 255)));
    assert_eq!(ColorValue::parse("firebrick"), Ok(ColorValue::new(0xb2, 0x22, 0x22, 255)));
    assert_eq!(ColorValue::parse("tomato"), Ok(ColorValue::new(0xff, 0x63, 0x47, 255)));
    assert_eq!(ColorValue::parse("pink"), Ok(ColorValue::new(0xff, 0xc0, 0xcb, 255)));
    assert_eq!(ColorValue::parse("thistle"), Ok(ColorValue::new(0xd8, 0xbf, 0xd8, 255)));
    assert_eq!(ColorValue::parse("yellow"), Ok(ColorValue::new(255, 255, 0, 255)));
    assert_eq!(ColorValue::parse("blue"), Ok(ColorValue::new(0, 0, 255, 255)));
    assert_eq!(ColorValue::parse("aqua"), Ok(ColorValue::new(0, 255, 255, 255)));
    assert_eq!(ColorValue::parse("purple"), Ok(ColorValue::new(128, 0, 128, 255)));
    assert_eq!(ColorValue::parse("maroon"), Ok(ColorValue::new(128, 0, 0, 255)));
    assert_eq!(ColorValue::parse("cornflowerblue"), Ok(ColorValue::new(0x64, 0x95, 0xed, 255)));
}

#[test]
fn parse_names_ignore_ascii_case() {
    assert_eq!(ColorValue::parse("Red"), Ok(ColorValue::new(255, 0, 0, 255)));
    assert_eq!(ColorValue::parse("TRANSPARENT"), Ok(ColorValue::new(0, 0, 0, 0)));
    assert_eq!(ColorValue::parse("FireBrick"), Ok(ColorValue::new(0xb2, 0x22, 0x22, 255)));
}

#[test]
fn parse_hex_forms() {
    assert_eq!(ColorValue::parse("#00000000"), Ok(ColorValue::new(0, 0, 0, 0)));
    assert_eq!(ColorValue::parse("#ff0000"), Ok(ColorValue::new(255, 0, 0, 255)));
    assert_eq!(ColorValue::parse("#fff"), Ok(ColorValue::new(255, 255, 255, 255)));
    assert_eq!(ColorValue::parse("#abcd"), Ok(ColorValue::new(0xaa, 0xbb, 0xcc, 0xdd)));
    assert_eq!(ColorValue::parse("#8090a0b0"), Ok(ColorValue::new(0x80, 0x90, 0xa0, 0xb0)));
    assert_eq!(ColorValue::parse("#1A2b3C"), Ok(ColorValue::new(0x1a, 0x2b, 0x3c, 255)));
}

#[test]
fn parse_functional_forms() {
    assert_eq!(ColorValue::parse("rgb(255,0,0)"), Ok(ColorValue::new(255, 0, 0, 255)));
    assert_eq!(ColorValue::parse("rgb(0, 128, 255)"), Ok(ColorValue::new(0, 128, 255, 255)));
    assert_eq!(ColorValue::parse("rgba(0, 0, 0, 0)"), Ok(ColorValue::new(0, 0, 0, 0)));
    assert_eq!(ColorValue::parse("rgba(255,255,255,1)"), Ok(ColorValue::new(255, 255, 255, 255)));
    assert_eq!(ColorValue::parse("rgba(10, 20, 30, 1.0)"), Ok(ColorValue::new(10, 20, 30, 255)));
}

#[test]
fn parse_alpha_rounds_to_nearest_unit() {
    // 0.5 * 255 = 127.5, rounded up to 128
    assert_eq!(ColorValue::parse("rgba(0,0,0,0.5)"), Ok(ColorValue::new(0, 0, 0, 128)));
    // 0.25 * 255 = 63.75, rounded to 64
    assert_eq!(ColorValue::parse("rgba(0,0,0,0.25)"), Ok(ColorValue::new(0, 0, 0, 64)));
    // 0.2 * 255 = 51 exactly
    assert_eq!(ColorValue::parse("rgba(0,0,0,0.2)"), Ok(ColorValue::new(0, 0, 0, 51)));
    assert_eq!(ColorValue::parse("rgba(0,0,0,0.0)"), Ok(ColorValue::new(0, 0, 0, 0)));
}

#[test]
fn parse_rejects_malformed_strings() {
    assert!(ColorValue::parse("not-a-color").is_err());
    assert!(ColorValue::parse("").is_err());
    assert!(ColorValue::parse("#12").is_err());
    assert!(ColorValue::parse("#ggg").is_err());
    assert!(ColorValue::parse("#12345").is_err());
    assert!(ColorValue::parse("rgb(256,0,0)").is_err());
    assert!(ColorValue::parse("rgb(1,2)").is_err());
    assert!(ColorValue::parse("rgb(1,2,3,4)").is_err());
    assert!(ColorValue::parse("rgb(1,2,3) ").is_err());
    assert!(ColorValue::parse("rgba(0,0,0,2)").is_err());
    assert!(ColorValue::parse("rgba(0,0,0,1.5)").is_err());
    assert!(ColorValue::parse("rgba(0,0,0)").is_err());
    assert!(ColorValue::parse("red ").is_err());
    assert!(ColorValue::parse("reddish").is_err());
}

#[test]
fn debug_shows_all_four_channels() {
    let shown = format!("{:?}", ColorValue::new(1, 2, 3, 4));
    assert!(shown.contains("red: 1"));
    assert!(shown.contains("green: 2"));
    assert!(shown.contains("blue: 3"));
    assert!(shown.contains("alpha: 4"));
}
