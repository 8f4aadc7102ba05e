use uint128::U128;

#[test]
fn zero_displays_as_single_digit() {
    assert_eq!(U128::from(0u8).to_string(), "0");
    assert_eq!(U128::default().to_string(), "0");
}

#[test]
fn thirty_displays_as_30() {
    assert_eq!((U128 { high: 0, low: 30 }).to_string(), "30");
}

#[test]
fn nonzero_high_word_displays_full_expansion() {
    assert_eq!((U128 { high: 1, low: 0 }).to_string(), "18446744073709551616");
    assert_eq!((U128 { high: 1, low: 1 }).to_string(), "18446744073709551617");
    assert_eq!(
        (U128 { high: u64::MAX, low: u64::MAX }).to_string(),
        "340282366920938463463374607431768211455"
    );
    assert_eq!(
        (U128 { high: 0x0123_4567_89ab_cdef, low: 0xfedc_ba98_7654_3210 }).to_string(),
        "1512366075204170947332355369683137040"
    );
}

#[test]
fn display_has_no_leading_zeros() {
    assert_eq!(U128::from(7u8).to_string(), "7");
    assert_eq!(U128::from(10u8).to_string(), "10");
    assert_eq!(U128::from(100u8).to_string(), "100");
    assert_eq!(U128::from(1_000_000u32).to_string(), "1000000");
    assert_eq!(U128::from(u64::MAX).to_string(), "18446744073709551615");
}

#[test]
fn display_matches_native_formatting() {
    let mut v: u128 = 1;
    for _ in 0..39 {
        assert_eq!(U128::from(v).to_string(), format!("{}", v));
        assert_eq!(U128::from(v - 1).to_string(), format!("{}", v - 1));
        v = v.wrapping_mul(10);
    }
}

#[test]
fn debug_dump_shows_words_in_binary() {
    assert_eq!(U128::from(0u8).to_debug_string(), "U128(0 0)");
    assert_eq!(U128::from(10u64).to_debug_string(), "U128(0 1010)");
    assert_eq!(U128::from(20u8).to_debug_string(), "U128(0 10100)");
    assert_eq!((U128 { high: 1, low: 0 }).to_debug_string(), "U128(1 0)");
    assert_eq!((U128 { high: 5, low: 2 }).to_debug_string(), "U128(101 10)");
    let max = U128::from(u128::MAX);
    assert_eq!(
        max.to_debug_string(),
        format!("U128({} {})", "1".repeat(64), "1".repeat(64))
    );
}

#[test]
fn debug_dump_matches_native_binary_formatting() {
    for (high, low) in [
        (0u64, 0u64),
        (0, 1),
        (1, 0),
        (0x0123_4567_89ab_cdef, 0xfedc_ba98_7654_3210),
        (u64::MAX, 1 << 63),
    ] {
        assert_eq!(
            (U128 { high, low }).to_debug_string(),
            format!("U128({:b} {:b})", high, low)
        );
    }
}
