use simple_rpt::sampling::strata_side;

#[test]
fn strata_side_is_the_integer_square_root() {
    assert_eq!(strata_side(0), 0);
    assert_eq!(strata_side(1), 1);
    assert_eq!(strata_side(2), 1);
    assert_eq!(strata_side(3), 1);
    assert_eq!(strata_side(4), 2);
    assert_eq!(strata_side(8), 2);
    assert_eq!(strata_side(9), 3);
    assert_eq!(strata_side(99), 9);
    assert_eq!(strata_side(100), 10);
    assert_eq!(strata_side(101), 10);
    assert_eq!(strata_side(400), 20);
    assert_eq!(strata_side(u32::MAX), 65535);
}
