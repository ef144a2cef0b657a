use n64_gfx::fixed::{int_frac_greater, split, split_signed, to_fixpoint_10_2, Fixed};

#[test]
fn split_whole_pixels() {
    assert_eq!(split(Fixed::from_int(7)), (7, 0));
    assert_eq!(split(Fixed::from_raw(0)), (0, 0));
}

#[test]
fn split_integer_and_fraction() {
    // 3.25 pixels = 3 + 16384/65536
    assert_eq!(split(Fixed::from_raw(3 * 65536 + 16384)), (3, 16384));
}

#[test]
fn split_round_trips_exactly() {
    // integer + fraction/65536 recombines to the input coordinate
    for raw in [0i32, 1, 16384, 65535, 65536, 215043, 1024 * 65536 - 1] {
        let (i, f) = split(Fixed::from_raw(raw));
        assert_eq!((i as i32) * 65536 + f as i32, raw);
    }
}

#[test]
fn split_is_monotonic() {
    let mut prev = split(Fixed::from_raw(0));
    for raw in [1i32, 100, 16384, 65535, 65536, 70000, 131072, 1024 * 65536 - 1] {
        let cur = split(Fixed::from_raw(raw));
        assert!(cur.0 > prev.0 || (cur.0 == prev.0 && cur.1 >= prev.1));
        prev = cur;
    }
}

#[test]
fn split_signed_matches_split_for_nonnegative() {
    for raw in [0i32, 5, 16384, 65536, 215043] {
        assert_eq!(split_signed(Fixed::from_raw(raw)), split(Fixed::from_raw(raw)));
    }
}

#[test]
fn split_signed_negative_half() {
    // -0.5 pixels: floor is -1 (two's complement 0xffff), fraction 0x8000
    assert_eq!(split_signed(Fixed::from_raw(-32768)), (0xffff, 0x8000));
}

#[test]
fn split_signed_negative_whole() {
    assert_eq!(split_signed(Fixed::from_raw(-65536)), (0xffff, 0));
    assert_eq!(split_signed(Fixed::from_raw(-2 * 65536)), (0xfffe, 0));
}

#[test]
fn fixpoint_10_2_truncates_to_quarter_pixels() {
    // 2.3 pixels lies between 9 and 10 quarter pixels; truncation keeps 9
    assert_eq!(to_fixpoint_10_2(Fixed::from_raw(150733)), 9);
    assert_eq!(to_fixpoint_10_2(Fixed::from_int(319)), 1276);
    assert_eq!(to_fixpoint_10_2(Fixed::from_raw(0)), 0);
    assert_eq!(to_fixpoint_10_2(Fixed::from_raw(1024 * 65536 - 1)), 4095);
}

#[test]
fn fixpoint_10_2_is_monotonic() {
    let mut prev = 0u64;
    for raw in [0i32, 1, 16383, 16384, 65536, 150733, 1024 * 65536 - 1] {
        let cur = to_fixpoint_10_2(Fixed::from_raw(raw));
        assert!(cur >= prev);
        prev = cur;
    }
}

#[test]
fn int_frac_greater_is_lexicographic() {
    assert!(int_frac_greater(2, 5, 2, 4));
    assert!(!int_frac_greater(2, 4, 2, 4));
    assert!(int_frac_greater(3, 0, 2, 9));
    assert!(!int_frac_greater(1, 9, 2, 0));
}

#[test]
fn floor_of_fixed() {
    assert_eq!(Fixed::from_raw(98304).floor(), 1);
    assert_eq!(Fixed::from_raw(-1).floor(), -1);
    assert_eq!(Fixed::from_int(-3).floor(), -3);
    assert_eq!(Fixed::from_raw(0).floor(), 0);
}
