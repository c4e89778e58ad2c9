use octarine::constants::primary;
use octarine::{Channel, Color, Equivalence, Fraction};

fn as_pair(fraction: Fraction) -> (u32, u32) {
    (fraction.num, fraction.den)
}

#[test]
fn gray_has_no_hue_and_no_saturation() {
    let gray = Color::new(100, 100, 100);
    assert_eq!(as_pair(gray.hue()), (0, 1));
    assert_eq!(as_pair(gray.hsl_saturation()), (0, 1));
    assert_eq!(as_pair(gray.hsv_saturation()), (0, 1));
    assert_eq!(as_pair(gray.lightness()), (200, 510));
    assert_eq!(as_pair(gray.value()), (100, 255));
}

#[test]
fn hue_of_the_six_corners() {
    assert_eq!(as_pair(primary::red().hue()), (0, 1530));
    assert_eq!(as_pair(primary::yellow().hue()), (255, 1530));
    assert_eq!(as_pair(primary::lime().hue()), (510, 1530));
    assert_eq!(as_pair(Color::new(0, 255, 255).hue()), (765, 1530));
    assert_eq!(as_pair(primary::blue().hue()), (1020, 1530));
    assert_eq!(as_pair(Color::new(255, 0, 255).hue()), (1275, 1530));
}

#[test]
fn hue_below_zero_is_raised_by_a_turn() {
    let color = Color::new(200, 100, 150);
    assert_eq!(as_pair(color.hue()), (550, 600));
}

#[test]
fn saturation_follows_the_lightness() {
    let dark = Color::new(100, 50, 20);
    assert_eq!(as_pair(dark.lightness()), (120, 510));
    assert_eq!(as_pair(dark.hsl_saturation()), (80, 120));
    assert_eq!(as_pair(dark.hsv_saturation()), (80, 100));
    assert_eq!(as_pair(dark.value()), (100, 255));
    let light = Color::new(250, 200, 180);
    assert_eq!(as_pair(light.lightness()), (430, 510));
    assert_eq!(as_pair(light.hsl_saturation()), (70, 80));
    let middle = Color::new(255, 0, 0);
    assert_eq!(as_pair(middle.hsl_saturation()), (255, 255));
}

#[test]
fn fractions_compare_by_value() {
    let half = Fraction { num: 1, den: 2 };
    let other_half = Fraction { num: 255, den: 510 };
    let third = Fraction { num: 1, den: 3 };
    assert!(half.equals(&other_half));
    assert!(!half.equals(&third));
    let large = Fraction { num: 4_000_000_000, den: 4_000_000_001 };
    let larger = Fraction { num: 4_000_000_001, den: 4_000_000_002 };
    assert!(!large.equals(&larger));
    assert!(large.equals(&large));
}

#[test]
fn complex_eq_agrees_under_every_model() {
    let colors = [
        Color::new(0, 0, 0),
        Color::new(1, 1, 1),
        Color::new(255, 255, 255),
        Color::new(255, 0, 0),
        Color::new(254, 0, 0),
        Color::new(255, 0, 1),
        Color::new(255, 1, 0),
        Color::new(0, 255, 0),
        Color::new(0, 0, 255),
        Color::new(128, 64, 32),
        Color::new(64, 32, 16),
        Color::new(32, 64, 128),
        Color::new(100, 100, 101),
    ];
    for a in colors.iter() {
        for b in colors.iter() {
            let same = a == b;
            assert_eq!(a.complex_eq(b, Equivalence::RGB), same);
            assert_eq!(a.complex_eq(b, Equivalence::HSL), same);
            assert_eq!(a.complex_eq(b, Equivalence::HSV), same);
        }
    }
}

fn float_hue(color: &Color, v_max: f32, diff: f32) -> f32 {
    let (r, g, b) = color.to_rgb();
    let (r, g, b) = (r as f32 / 255.0, g as f32 / 255.0, b as f32 / 255.0);
    let dr = (((v_max - r) / 6.0) + (diff / 2.0)) / diff;
    let dg = (((v_max - g) / 6.0) + (diff / 2.0)) / diff;
    let db = (((v_max - b) / 6.0) + (diff / 2.0)) / diff;
    let mut h = if r == v_max {
        db - dg
    } else if g == v_max {
        (1.0 / 3.0) + dr - db
    } else {
        (2.0 / 3.0) + dg - dr
    };
    if h < 0.0 {
        h += 1.0;
    }
    if h > 1.0 {
        h -= 1.0;
    }
    h
}

fn float_hsl(color: &Color) -> (f32, f32, f32) {
    let (r, g, b) = color.to_rgb();
    let v_min = r.min(g).min(b) as f32 / 255.0;
    let v_max = r.max(g).max(b) as f32 / 255.0;
    let diff = v_max - v_min;
    let v_sum = v_min + v_max;
    let l = v_sum / 2.0;
    if diff < f32::EPSILON {
        return (0.0, 0.0, l);
    }
    let s = if l < 0.5 { diff / v_sum } else { diff / (2.0 - v_sum) };
    (float_hue(color, v_max, diff), s, l)
}

fn float_hsv(color: &Color) -> (f32, f32, f32) {
    let (r, g, b) = color.to_rgb();
    let v_min = r.min(g).min(b) as f32 / 255.0;
    let v_max = r.max(g).max(b) as f32 / 255.0;
    let diff = v_max - v_min;
    if diff < f32::EPSILON {
        return (0.0, 0.0, v_max);
    }
    (float_hue(color, v_max, diff), diff / v_max, v_max)
}

fn close(fraction: Fraction, float: f32) -> bool {
    let exact = fraction.num as f64 / fraction.den as f64;
    (exact - float as f64).abs() < 1e-4
}

fn sample() -> Vec<Color> {
    let levels: [u8; 12] = [0, 1, 2, 50, 100, 127, 128, 129, 200, 253, 254, 255];
    let mut colors = Vec::new();
    for r in levels {
        for g in levels {
            for b in levels {
                colors.push(Color::new(r, g, b));
            }
        }
    }
    colors
}

#[test]
fn fractions_follow_the_float_coordinates() {
    for color in sample() {
        let (h, s, l) = float_hsl(&color);
        assert!(close(color.hue(), h), "{color:?}");
        assert!(close(color.hsl_saturation(), s), "{color:?}");
        assert!(close(color.lightness(), l), "{color:?}");
        let (h, s, v) = float_hsv(&color);
        assert!(close(color.hue(), h), "{color:?}");
        assert!(close(color.hsv_saturation(), s), "{color:?}");
        assert!(close(color.value(), v), "{color:?}");
    }
}

#[test]
fn gray_lightness_as_a_float() {
    let gray = Color::new(100, 100, 100);
    assert_eq!(float_hsl(&gray), (0.0, 0.0, 0.39215687));
    assert_eq!(float_hsv(&Color::from_hex(0x646464)), (0.0, 0.0, 0.392156862745));
    assert!(close(gray.lightness(), 0.39215687));
    assert!(close(gray.value(), 0.39215687));
}

#[test]
fn complex_eq_follows_the_float_coordinates() {
    let colors = sample();
    for (i, a) in colors.iter().enumerate() {
        let (ra, ga, ba) = a.to_rgb();
        let near = [
            Color::new(ra.wrapping_add(1), ga, ba),
            Color::new(ra, ga.wrapping_add(1), ba),
            Color::new(ra, ga, ba.wrapping_add(1)),
            Color::new(ga, ba, ra),
            colors[(i * 7 + 3) % colors.len()],
            *a,
        ];
        for b in near.iter() {
            assert_eq!(a.complex_eq(b, Equivalence::HSL), float_hsl(a) == float_hsl(b), "{a:?} {b:?}");
            assert_eq!(a.complex_eq(b, Equivalence::HSV), float_hsv(a) == float_hsv(b), "{a:?} {b:?}");
        }
    }
}

#[test]
fn coordinate_triples_list_the_components() {
    for color in [Color::new(12, 200, 99), Color::new(7, 7, 7), Color::new(255, 0, 128)] {
        let (h, s, l) = color.hsl();
        assert_eq!(as_pair(h), as_pair(color.hue()));
        assert_eq!(as_pair(s), as_pair(color.hsl_saturation()));
        assert_eq!(as_pair(l), as_pair(color.lightness()));
        let (h, s, v) = color.hsv();
        assert_eq!(as_pair(h), as_pair(color.hue()));
        assert_eq!(as_pair(s), as_pair(color.hsv_saturation()));
        assert_eq!(as_pair(v), as_pair(color.value()));
    }
}

#[test]
fn largest_and_smallest_channel() {
    assert_eq!(Color::new(1, 2, 3).max_channel(), 3);
    assert_eq!(Color::new(1, 2, 3).min_channel(), 1);
    assert_eq!(Color::new(3, 1, 2).max_channel(), 3);
    assert_eq!(Color::new(3, 1, 2).min_channel(), 1);
    assert_eq!(Color::new(2, 3, 1).max_channel(), 3);
    assert_eq!(Color::new(2, 3, 1).min_channel(), 1);
    assert_eq!(Color::new(7, 7, 7).max_channel(), 7);
    assert_eq!(Color::new(7, 7, 7).min_channel(), 7);
}

#[test]
fn grays_have_equal_channels() {
    assert!(Color::new(0, 0, 0).is_gray());
    assert!(Color::new(255, 255, 255).is_gray());
    assert!(!Color::new(1, 0, 0).is_gray());
    assert!(!Color::new(0, 1, 0).is_gray());
    assert!(!Color::new(0, 0, 1).is_gray());
    assert!(!Color::new(5, 5, 4).is_gray());
}

#[test]
fn earlier_channel_leads_a_tie() {
    assert_eq!(Color::new(9, 1, 2).leading_channel(), Channel::Red);
    assert_eq!(Color::new(1, 9, 2).leading_channel(), Channel::Green);
    assert_eq!(Color::new(1, 2, 9).leading_channel(), Channel::Blue);
    assert_eq!(Color::new(9, 9, 2).leading_channel(), Channel::Red);
    assert_eq!(Color::new(9, 2, 9).leading_channel(), Channel::Red);
    assert_eq!(Color::new(2, 9, 9).leading_channel(), Channel::Green);
    assert_eq!(Color::new(9, 9, 9).leading_channel(), Channel::Red);
}

#[test]
fn decisions_agree_with_float_comparisons() {
    let unit: Vec<f32> = (0..=255u32).map(|c| c as f32 / 255.0).collect();
    for r in 0..=255u8 {
        for g in 0..=255u8 {
            for b in 0..=255u8 {
                let color = Color::new(r, g, b);
                let v_min = r.min(g).min(b) as f32 / 255.0;
                let v_max = r.max(g).max(b) as f32 / 255.0;
                let gray = v_max - v_min < f32::EPSILON;
                let leader = if unit[r as usize] == v_max {
                    Channel::Red
                } else if unit[g as usize] == v_max {
                    Channel::Green
                } else {
                    Channel::Blue
                };
                assert_eq!(color.is_gray(), gray);
                assert_eq!(color.leading_channel(), leader);
            }
        }
    }
}

fn arrangements(low: u8, mid: u8, high: u8) -> Vec<Color> {
    let mut all = vec![
        (high, mid, low),
        (high, low, mid),
        (mid, high, low),
        (low, high, mid),
        (mid, low, high),
        (low, mid, high),
    ];
    all.sort();
    all.dedup();
    all.into_iter().map(|(r, g, b)| Color::new(r, g, b)).collect()
}

#[test]
fn float_coordinates_tell_all_colors_apart() {
    let mut hsl_pairs = Vec::new();
    let mut hsv_pairs = Vec::new();
    let mut hues = Vec::new();
    for high in 0..=255u8 {
        for low in 0..=high {
            let first = Color::new(high, low, low);
            let (_, s, l) = float_hsl(&first);
            hsl_pairs.push((s.to_bits(), l.to_bits()));
            let (_, s, v) = float_hsv(&first);
            hsv_pairs.push((s.to_bits(), v.to_bits()));
            hues.clear();
            let mut count = 0;
            for mid in low..=high {
                for color in arrangements(low, mid, high) {
                    let (h, s, l) = float_hsl(&color);
                    assert_eq!((s.to_bits(), l.to_bits()), *hsl_pairs.last().unwrap());
                    let (h2, s, v) = float_hsv(&color);
                    assert_eq!((s.to_bits(), v.to_bits()), *hsv_pairs.last().unwrap());
                    assert_eq!(h.to_bits(), h2.to_bits());
                    assert!(!h.is_nan() && h != 0.0 || h.to_bits() == 0);
                    hues.push(h.to_bits());
                    count += 1;
                }
            }
            hues.sort_unstable();
            hues.dedup();
            assert_eq!(hues.len(), count, "{high} {low}");
        }
    }
    let classes = hsl_pairs.len();
    hsl_pairs.sort_unstable();
    hsl_pairs.dedup();
    assert_eq!(hsl_pairs.len(), classes);
    hsv_pairs.sort_unstable();
    hsv_pairs.dedup();
    assert_eq!(hsv_pairs.len(), classes);
}

#[test]
fn no_gray_is_half_light() {
    let half = Fraction { num: 1, den: 2 };
    for level in 0..=255u8 {
        let gray = Color::new(level, level, level);
        assert!(!gray.lightness().equals(&half));
        assert!(!gray.value().equals(&half));
    }
    assert_eq!(as_pair(Color::new(127, 127, 127).lightness()), (254, 510));
    assert_eq!(as_pair(Color::new(128, 128, 128).lightness()), (256, 510));
    assert!(Color::new(255, 0, 0).lightness().equals(&half));
}
