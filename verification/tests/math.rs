use uniswap_v2_pair::{min, sqrt};

#[test]
fn sqrt_of_small_numbers() {
    assert_eq!(sqrt(0), 0);
    assert_eq!(sqrt(1), 1);
    assert_eq!(sqrt(2), 1);
    assert_eq!(sqrt(3), 1);
    assert_eq!(sqrt(4), 2);
}

#[test]
fn sqrt_of_a_million() {
    assert_eq!(sqrt(1_000_000), 1000);
}

#[test]
fn sqrt_rounds_down() {
    assert_eq!(sqrt(8), 2);
    assert_eq!(sqrt(9), 3);
    assert_eq!(sqrt(15), 3);
    assert_eq!(sqrt(16), 4);
    assert_eq!(sqrt(17), 4);
    assert_eq!(sqrt(999_999), 999);
    assert_eq!(sqrt(1_000_001), 1000);
    assert_eq!(sqrt(4_000_000), 2000);
}

#[test]
fn sqrt_of_the_largest_numbers() {
    assert_eq!(sqrt(u128::MAX), 18_446_744_073_709_551_615);
    assert_eq!(sqrt(u128::MAX - 1), 18_446_744_073_709_551_615);
    assert_eq!(sqrt(1 << 126), 1 << 63);
    assert_eq!(sqrt((1 << 126) - 1), (1 << 63) - 1);
    assert_eq!(sqrt(u64::MAX as u128 * u64::MAX as u128), u64::MAX as u128);
}

#[test]
fn sqrt_brackets_its_argument() {
    let mut y: u128 = 0;
    while y < 20_000 {
        let r = sqrt(y);
        assert!(r * r <= y, "sqrt({}) = {} is too large", y, r);
        assert!(y < (r + 1) * (r + 1), "sqrt({}) = {} is too small", y, r);
        y += 1;
    }
    let mut y: u128 = 1;
    while y < u128::MAX / 7 {
        let r = sqrt(y);
        assert!(r * r <= y);
        assert!(r == u64::MAX as u128 || y < (r + 1) * (r + 1));
        y = y * 7 + 3;
    }
}

#[test]
fn sqrt_of_squares_and_their_neighbours() {
    let mut r: u128 = 2;
    while r < (1 << 60) {
        assert_eq!(sqrt(r * r), r);
        assert_eq!(sqrt(r * r - 1), r - 1);
        assert_eq!(sqrt(r * r + 1), r);
        assert_eq!(sqrt(r * r + 2 * r), r);
        r = r * 3 + 1;
    }
}

#[test]
fn min_picks_the_smaller() {
    assert_eq!(min(3, 7), 3);
    assert_eq!(min(7, 3), 3);
    assert_eq!(min(5, 5), 5);
    assert_eq!(min(0, u128::MAX), 0);
    assert_eq!(min(u128::MAX, u128::MAX - 1), u128::MAX - 1);
}
