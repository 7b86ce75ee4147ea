use simple_rpt::common::random_in_range;

#[test]
fn draws_stay_in_the_half_open_range() {
    for _ in 0..200 {
        let r = random_in_range(3, 7);
        assert!((3..7).contains(&r));
    }
}

#[test]
fn empty_range_returns_the_lower_bound() {
    assert_eq!(random_in_range(5, 5), 5);
    assert_eq!(random_in_range(0, 0), 0);
}

#[test]
fn narrow_range_is_deterministic() {
    for _ in 0..10 {
        assert_eq!(random_in_range(9, 10), 9);
    }
}
