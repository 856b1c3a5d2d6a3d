use graphql_int64::codec::{decode_i64, decode_u64, encode_i64, encode_u64};

#[test]
fn boundary_values_are_exact() {
    assert_eq!(encode_i64(i64::MAX), "9223372036854775807");
    assert_eq!(encode_u64(u64::MAX), "18446744073709551615");
    assert_eq!(decode_i64("9223372036854775807").unwrap(), i64::MAX);
    assert_eq!(decode_u64("18446744073709551615").unwrap(), u64::MAX);
    assert_eq!(encode_i64(i64::MIN), "-9223372036854775808");
    assert_eq!(decode_i64("-9223372036854775808").unwrap(), i64::MIN);
    assert_eq!(encode_i64(0), "0");
    assert_eq!(encode_u64(0), "0");
    assert_eq!(decode_i64("0").unwrap(), 0);
    assert_eq!(decode_u64("0").unwrap(), 0);
}

#[test]
fn round_trips_on_samples() {
    for v in [0i64, 1, -1, 42, -300, i64::MIN, i64::MAX, 1_000_000_007] {
        assert_eq!(decode_i64(&encode_i64(v)).unwrap(), v);
    }
    for v in [0u64, 1, 10, 300, 9_999_999_999, u64::MAX] {
        assert_eq!(decode_u64(&encode_u64(v)).unwrap(), v);
    }
}

#[test]
fn malformed_text_is_rejected() {
    for s in ["", "abc", "12a", "a12", " 1", "1 ", "+", "-", "--1", "+-1", "1.5", "1_000"] {
        let e = decode_i64(s).unwrap_err();
        assert_eq!(e.input, s);
        let e = decode_u64(s).unwrap_err();
        assert_eq!(e.input, s);
    }
}

#[test]
fn negatives_are_rejected_by_the_unsigned_decoder() {
    let e = decode_u64("-1").unwrap_err();
    assert_eq!(e.input, "-1");
    assert!(decode_u64("-0").is_err());
    assert!(decode_u64("-18446744073709551615").is_err());
}

#[test]
fn out_of_range_values_are_rejected() {
    assert!(decode_i64("99999999999999999999999").is_err());
    assert!(decode_u64("99999999999999999999999").is_err());
    assert!(decode_i64("9223372036854775808").is_err());
    assert!(decode_i64("-9223372036854775809").is_err());
    assert!(decode_u64("18446744073709551616").is_err());
}

#[test]
fn plain_sign_and_leading_zero_forms_decode() {
    assert_eq!(decode_i64("+42").unwrap(), 42);
    assert_eq!(decode_u64("+42").unwrap(), 42);
    assert_eq!(decode_i64("-0").unwrap(), 0);
    assert_eq!(decode_i64("0012").unwrap(), 12);
    assert_eq!(decode_u64("0012").unwrap(), 12);
    assert_eq!(decode_i64("-0012").unwrap(), -12);
}
