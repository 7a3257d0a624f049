use securenet::share::nine_tenths;

fn in_double_precision(secs: u64) -> u64 {
    (secs as f64 * 0.9) as u64
}

#[test]
fn nine_tenths_of_common_times() {
    assert_eq!(nine_tenths(0), 0);
    assert_eq!(nine_tenths(1), 0);
    assert_eq!(nine_tenths(10), 9);
    assert_eq!(nine_tenths(30), 27);
    assert_eq!(nine_tenths(300), 270);
    assert_eq!(nine_tenths(3600), 3240);
}

#[test]
fn nine_tenths_is_rounded_down_up_to_two_to_the_49th() {
    for n in 0..100_000u64 {
        assert_eq!(nine_tenths(n), 9 * n / 10);
    }
    for n in (1u64 << 49) - 1000..=1u64 << 49 {
        assert_eq!(nine_tenths(n), 9 * n / 10);
    }
}

#[test]
fn nine_tenths_agrees_with_double_precision() {
    let mut n: u64 = 1;
    for i in 0..200_000u64 {
        n = n.wrapping_mul(6_364_136_223_846_793_005).wrapping_add(1_442_695_040_888_963_407);
        let secs = n >> (i % 64);
        assert_eq!(nine_tenths(secs), in_double_precision(secs), "{secs}");
    }
    for secs in [u64::MAX, u64::MAX - 1, 1 << 53, (1 << 53) + 1, (1 << 63) + 1025] {
        assert_eq!(nine_tenths(secs), in_double_precision(secs), "{secs}");
    }
}

#[test]
fn nine_tenths_of_something_is_less() {
    for secs in [1, 2, 9, 10, 1 << 53, (1 << 53) + 1, u64::MAX] {
        assert!(nine_tenths(secs) < secs);
    }
}
