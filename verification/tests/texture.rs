use simple_rpt::texture::checker_is_even;
use simple_rpt::texture::image_pixel_index;

#[test]
fn checker_parity() {
    assert!(checker_is_even(0, 0));
    assert!(!checker_is_even(0, 1));
    assert!(!checker_is_even(1, 0));
    assert!(checker_is_even(1, 1));
    assert!(checker_is_even(-3, 1));
    assert!(!checker_is_even(-3, 2));
    assert!(checker_is_even(-4, -2));
    assert!(!checker_is_even(i32::MIN, i32::MAX));
}

#[test]
fn image_index_is_row_major() {
    assert_eq!(image_pixel_index(4, 3, 0, 0), 0);
    assert_eq!(image_pixel_index(4, 3, 3, 0), 3);
    assert_eq!(image_pixel_index(4, 3, 0, 1), 4);
    assert_eq!(image_pixel_index(4, 3, 2, 2), 10);
}

#[test]
fn image_index_clamps_to_the_edge() {
    assert_eq!(image_pixel_index(4, 3, 9, 0), 3);
    assert_eq!(image_pixel_index(4, 3, 0, 9), 8);
    assert_eq!(image_pixel_index(4, 3, 9, 9), 11);
    assert_eq!(image_pixel_index(1, 1, 5, 5), 0);
}
