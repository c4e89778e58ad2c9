use octarine::constants::primary;
use octarine::Color;

#[test]
fn screen() {
    let canonical = Color::from_hex(0xFF9D9D);
    let screen = Color::from_hex(0xFF9999).screen(Color::new(10, 10, 10));
    assert_eq!(canonical, screen);
}

#[test]
fn screen_with_the_ends_of_the_scale() {
    let color = Color::new(12, 120, 240);
    assert_eq!(color.screen(primary::black()), color);
    assert_eq!(color.screen(primary::white()), primary::white());
    assert_eq!(Color::new(100, 0, 255).screen(Color::new(100, 0, 0)), Color::new(161, 0, 255));
}

#[test]
fn difference() {
    let canonical = Color::from_hex(0xF58F8F);
    let difference = Color::from_hex(0xFF9999).difference(Color::new(10, 10, 10));
    assert_eq!(canonical, difference);
}

#[test]
fn difference_takes_no_side() {
    let a = Color::new(10, 200, 30);
    let b = Color::new(40, 20, 30);
    assert_eq!(a.difference(b), Color::new(30, 180, 0));
    assert_eq!(b.difference(a), Color::new(30, 180, 0));
}

#[test]
fn overlay() {
    let canonical = Color::new(255, 156, 156);
    let overlay = Color::from_hex(0xFF9999).overlay(Color::new(10, 10, 10));
    assert_eq!(canonical, overlay);
}

#[test]
fn overlay_is_screen_of_the_product() {
    let a = Color::new(200, 100, 50);
    let b = Color::new(30, 60, 90);
    assert_eq!(a.overlay(b), a.screen(a * b));
    assert_eq!(a.overlay(b), Color::new(205, 114, 64));
}

#[test]
fn invert() {
    let canonical = primary::black();
    let invert = primary::white().invert();
    assert_eq!(canonical, invert);
}

#[test]
fn invert_black_is_white() {
    assert_eq!(primary::black().invert(), primary::white());
}

#[test]
fn invert_twice_gives_the_color_back() {
    let color = Color::new(1, 128, 254);
    assert_eq!(color.invert(), Color::new(254, 127, 1));
    assert_eq!(color.invert().invert(), color);
}

#[test]
fn multiply() {
    let canonical = Color::new(204, 122, 122);
    let multiply = Color::from_hex(0xFF9999) * Color::from_hex(0xCCCCCC);
    assert_eq!(canonical, multiply);
    let canonical = Color::from_hex(0x640000);
    let multiply = Color::new(100, 100, 100) * primary::red();
    assert_eq!(canonical, multiply);
}

#[test]
fn multiply_rounds_down() {
    assert_eq!(Color::new(254, 1, 128) * Color::new(254, 254, 128), Color::new(253, 0, 64));
    assert_eq!(primary::white() * primary::white(), primary::white());
}

#[test]
fn add() {
    let canonical = Color::new(255, 163, 163);
    let add = Color::from_hex(0xFF9999) + Color::new(10, 10, 10);
    assert_eq!(canonical, add);
    let canonical = Color::new(180, 255, 214);
    let add = Color::from_hex(0xAAFFCC) + Color::new(10, 10, 10);
    assert_eq!(canonical, add);
}

#[test]
fn add_stops_at_255() {
    assert_eq!(Color::new(250, 255, 0) + Color::new(5, 1, 0), Color::new(255, 255, 0));
    assert_eq!(Color::new(250, 200, 128) + Color::new(6, 100, 128), primary::white());
}

#[test]
fn subtract() {
    let canonical = Color::new(245, 143, 143);
    let subtract = Color::from_hex(0xFF9999) - Color::new(10, 10, 10);
    assert_eq!(canonical, subtract);
    let canonical = Color::new(160, 245, 194);
    let subtract = Color::from_hex(0xAAFFCC) - Color::new(10, 10, 10);
    assert_eq!(canonical, subtract);
}

#[test]
fn subtract_stops_at_0() {
    assert_eq!(Color::new(5, 0, 100) - Color::new(5, 1, 200), primary::black());
    assert_eq!(Color::new(5, 9, 100) - Color::new(6, 8, 1), Color::new(0, 1, 99));
}

#[test]
fn divide() {
    let canonical = Color::new(25, 15, 15);
    let divide = Color::from_hex(0xFF9999) / Color::new(10, 10, 10);
    assert_eq!(canonical, divide);
    let canonical = Color::new(17, 25, 20);
    let divide = Color::from_hex(0xAAFFCC) / Color::new(10, 10, 10);
    assert_eq!(canonical, divide);
}

#[test]
fn divide_rounds_down() {
    assert_eq!(Color::new(255, 9, 0) / Color::new(2, 10, 255), Color::new(127, 0, 0));
    assert_eq!(Color::new(7, 8, 9) / Color::new(1, 1, 1), Color::new(7, 8, 9));
}

#[test]
fn checked_div_refuses_a_zero_channel() {
    let color = Color::new(100, 150, 200);
    assert_eq!(color.checked_div(Color::new(10, 10, 10)), Some(Color::new(10, 15, 20)));
    assert_eq!(color.checked_div(Color::new(0, 10, 10)), None);
    assert_eq!(color.checked_div(Color::new(10, 0, 10)), None);
    assert_eq!(color.checked_div(Color::new(10, 10, 0)), None);
    assert_eq!(primary::black().checked_div(primary::white()), Some(primary::black()));
}
