use uint128::U128;

#[test]
fn narrow_sources_zero_extend() {
    for x in [0u8, 1, 20, u8::MAX] {
        let v = U128::from(x);
        assert_eq!((v.high, v.low), (0, x as u64));
    }
    for x in [0u16, 1, 300, u16::MAX] {
        let v = U128::from(x);
        assert_eq!((v.high, v.low), (0, x as u64));
    }
    for x in [0u32, 1, 70_000, u32::MAX] {
        let v = U128::from(x);
        assert_eq!((v.high, v.low), (0, x as u64));
    }
    for x in [0u64, 1, 10, 1 << 32, u64::MAX] {
        let v = U128::from(x);
        assert_eq!((v.high, v.low), (0, x));
    }
    for x in [0usize, 1, 2, usize::MAX] {
        let v = U128::from(x);
        assert_eq!((v.high, v.low), (0, x as u64));
    }
}

#[test]
fn native_128_bit_value_is_split() {
    let v = U128::from(0x0123_4567_89ab_cdef_fedc_ba98_7654_3210u128);
    assert_eq!(v.high, 0x0123_4567_89ab_cdef);
    assert_eq!(v.low, 0xfedc_ba98_7654_3210);
    let max = U128::from(u128::MAX);
    assert_eq!((max.high, max.low), (u64::MAX, u64::MAX));
    let word = U128::from(1u128 << 64);
    assert_eq!((word.high, word.low), (1, 0));
    let small = U128::from(30u128);
    assert_eq!((small.high, small.low), (0, 30));
}

#[test]
fn native_128_bit_round_trip() {
    for v in [
        0u128,
        1,
        30,
        u64::MAX as u128,
        1 << 64,
        (1 << 64) + 1,
        0x0123_4567_89ab_cdef_fedc_ba98_7654_3210,
        u128::MAX - 1,
        u128::MAX,
    ] {
        assert_eq!(U128::from(v).to_u128(), v);
        assert_eq!(U128::from(v).to_string(), v.to_string());
    }
    let words = U128 { high: 0xdead_beef, low: 0x1234 };
    assert!(U128::from(words.to_u128()) == words);
}

#[test]
fn default_is_zero() {
    let zero = U128::default();
    assert_eq!((zero.high, zero.low), (0, 0));
    assert!(zero == U128::from(0u8));
}

#[test]
fn values_are_copied() {
    let a = U128::from(7u8);
    let b = a;
    let c = a.clone();
    assert!(a == b && b == c);
}
