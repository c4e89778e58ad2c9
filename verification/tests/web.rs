use octarine::constants::primary;
use octarine::web::{WEB_COLORS, WEB_COLOR_COUNT};
use octarine::Color;

#[test]
fn from_web_color() {
    let canonical = primary::red();
    let from_web_color = Color::from_web_color("red");
    assert_eq!(Some(canonical), from_web_color);
}

#[test]
fn from_web_color_takes_any_case() {
    assert_eq!(Color::from_web_color("RED"), Some(primary::red()));
    assert_eq!(Color::from_web_color("Red"), Some(primary::red()));
    assert_eq!(Color::from_web_color("LightGoldenrodYellow"), Some(Color::new(250, 250, 210)));
}

#[test]
fn lookup_web_color_takes_lower_case_only() {
    assert_eq!(Color::lookup_web_color("red"), Some(primary::red()));
    assert_eq!(Color::lookup_web_color("RED"), None);
}

#[test]
fn from_web_color_without_a_match() {
    assert_eq!(Color::from_web_color("octarine"), None);
    assert_eq!(Color::from_web_color(""), None);
    assert_eq!(Color::from_web_color(" red"), None);
    assert_eq!(Color::from_web_color("re"), None);
}

#[test]
fn from_web_color_scale_ends() {
    assert_eq!(Color::from_web_color("yellow"), Some(primary::yellow()));
    assert_eq!(Color::from_web_color("lime"), Some(primary::lime()));
    assert_eq!(Color::from_web_color("black"), Some(primary::black()));
    assert_eq!(Color::from_web_color("white"), Some(primary::white()));
    assert_eq!(Color::from_web_color("aliceblue"), Some(Color::new(240, 248, 255)));
    assert_eq!(Color::from_web_color("yellowgreen"), Some(Color::new(154, 205, 50)));
}

#[test]
fn get_web_color() {
    assert_eq!(primary::red().get_web_color(), Some("red"));
    assert_eq!(primary::lime().get_web_color(), Some("lime"));
    assert_eq!(Color::new(100, 100, 100).get_web_color(), None);
}

#[test]
fn get_web_color_gives_the_first_name() {
    assert_eq!(Color::new(0, 255, 255).get_web_color(), Some("aqua"));
    assert_eq!(Color::new(255, 0, 255).get_web_color(), Some("fuchsia"));
    assert_eq!(Color::new(128, 128, 128).get_web_color(), Some("gray"));
    assert_eq!(Color::new(47, 79, 79).get_web_color(), Some("darkslategray"));
}

#[test]
fn every_name_leads_to_its_color() {
    assert_eq!(WEB_COLORS.len(), WEB_COLOR_COUNT);
    for (name, r, g, b) in WEB_COLORS.iter() {
        let color = Color::new(*r, *g, *b);
        assert_eq!(Color::from_web_color(name), Some(color));
        assert_eq!(Color::from_web_color(&name.to_uppercase()), Some(color));
        let first = color.get_web_color().unwrap();
        assert_eq!(Color::from_web_color(first), Some(color));
    }
}

#[test]
fn names_are_in_order_and_lower_case() {
    for pair in WEB_COLORS.windows(2) {
        assert!(pair[0].0 < pair[1].0);
    }
    for (name, _, _, _) in WEB_COLORS.iter() {
        assert_eq!(name.to_lowercase(), *name);
    }
}
