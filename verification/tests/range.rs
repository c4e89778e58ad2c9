use octarine::constants::primary;
use octarine::Color;

#[test]
fn range_to() {
    let c0 = Color::from_web_color("red").unwrap();
    let c4 = Color::from_web_color("lime").unwrap();
    let mut range_to = c0.range_to(c4, 5);
    assert_eq!(range_to.start(), c0);
    assert_eq!(range_to.end(), c4);
    assert_eq!(Some(0), range_to.next_step());
    assert_eq!(Some(1), range_to.next_step());
    assert_eq!(Some(2), range_to.next_step());
    assert_eq!(Some(3), range_to.next_step());
    assert_eq!(Some(4), range_to.next_step());
    assert_eq!(None, range_to.next_step());
    let c0 = Color::from_web_color("black").unwrap();
    let c5 = Color::from_web_color("white").unwrap();
    let mut range_to = c0.range_to(c5, 6);
    assert_eq!(Some(0), range_to.next_step());
    assert_eq!(Some(1), range_to.next_step());
    assert_eq!(Some(2), range_to.next_step());
    assert_eq!(Some(3), range_to.next_step());
    assert_eq!(Some(4), range_to.next_step());
    assert_eq!(Some(5), range_to.next_step());
    assert_eq!(None, range_to.next_step());
}

#[test]
fn range_of_one_step() {
    let color = Color::new(12, 34, 56);
    let mut range = color.range_to(color, 1);
    assert_eq!(range.total_steps(), 1);
    assert_eq!(range.intervals(), 0);
    assert_eq!(range.remaining(), 1);
    assert_eq!(range.next_step(), Some(0));
    assert_eq!(range.remaining(), 0);
    assert_eq!(range.next_step(), None);
}

#[test]
fn exhausted_range_stays_exhausted() {
    let mut range = primary::black().range_to(primary::white(), 2);
    assert_eq!(range.intervals(), 1);
    assert_eq!(range.next_step(), Some(0));
    assert_eq!(range.next_step(), Some(1));
    for _ in 0..10 {
        assert_eq!(range.next_step(), None);
        assert_eq!(range.remaining(), 0);
    }
    assert_eq!(range.start(), primary::black());
    assert_eq!(range.end(), primary::white());
    assert_eq!(range.total_steps(), 2);
}

#[test]
fn cloned_range_goes_its_own_way() {
    let mut range = primary::red().range_to(primary::lime(), 3);
    assert_eq!(range.next_step(), Some(0));
    let mut copy = range.clone();
    assert_eq!(copy.next_step(), Some(1));
    assert_eq!(copy.next_step(), Some(2));
    assert_eq!(copy.next_step(), None);
    assert_eq!(range.remaining(), 2);
    assert_eq!(range.next_step(), Some(1));
}
