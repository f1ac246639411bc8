use quanthelm::decimal::Decimal;
use quanthelm::json::{JsonNumber, JsonValue};
use quanthelm::time::{Duration, Timestamp, MAX_CHRONO_MILLIS, MIN_CHRONO_MILLIS};

#[test]
fn decimals_parse_and_render() {
    let d = Decimal::parse("-12.340").expect("decimal text");
    assert_eq!(d.mantissa(), -12_340);
    assert_eq!(d.scale(), 3);
    assert_eq!(d.to_text(), "-12.340");
    assert!(Decimal::parse("1.2.3").is_none());
    assert!(Decimal::parse("").is_none());
    assert_eq!(Decimal::new(5, 2).to_text(), "0.05");
    assert_eq!(Decimal::from_int(-7).to_text(), "-7");
    assert_eq!(Decimal::zero().to_text(), "0");
    assert_eq!(Decimal::new(0, 2).to_text(), "0.00");
    assert_eq!(Decimal::new(-5, 1).to_text(), "-0.5");
    assert_eq!(Decimal::new(1000, 1).to_text(), "100.0");
    assert_eq!(Decimal::new(123, 3).to_text(), "0.123");
    assert_eq!(Decimal::new(1, 28).to_text(), "0.0000000000000000000000000001");
    assert_eq!(
        Decimal::try_from_parts(-79_228_162_514_264_337_593_543_950_335, 0).expect("min").to_text(),
        "-79228162514264337593543950335"
    );
}

#[test]
fn decimal_comparisons_use_values() {
    let a = Decimal::new(10, 1);
    let b = Decimal::one();
    assert!(a == b);
    assert!(a.num_eq(&b));
    assert!(a.le(&b));
    assert!(!a.lt(&b));
    assert!(Decimal::new(-1, 3).is_negative());
    assert!(Decimal::zero().is_zero());
    assert!(Decimal::new(1, 28).is_positive());
    assert_eq!(Decimal::new(3, 1).negate(), Decimal::new(-3, 1));
}

#[test]
fn decimal_arithmetic_is_checked() {
    let a = Decimal::new(15, 1);
    let b = Decimal::new(25, 2);
    assert_eq!(a.checked_add(&b), Some(Decimal::new(175, 2)));
    assert_eq!(a.checked_sub(&b), Some(Decimal::new(125, 2)));
    assert_eq!(a.checked_mul(&b), Some(Decimal::new(375, 3)));
    assert_eq!(a.checked_div(&b), Some(Decimal::from_int(6)));
    assert_eq!(Decimal::from_int(7).checked_rem(&Decimal::from_int(4)), Some(Decimal::from_int(3)));
    assert_eq!(a.checked_div(&Decimal::zero()), None);
    let max = Decimal::try_from_parts(79_228_162_514_264_337_593_543_950_335, 0).expect("max");
    assert_eq!(max.checked_add(&Decimal::one()), None);
    assert!(Decimal::try_from_parts(79_228_162_514_264_337_593_543_950_336, 0).is_none());
    assert!(Decimal::try_from_parts(1, 29).is_none());
}

#[test]
fn timestamps_follow_the_chrono_range() {
    let t = Timestamp::from_millis(1_720_000_000_000).expect("valid timestamp");
    assert_eq!(t.millis(), 1_720_000_000_000);
    assert!(Timestamp::from_millis(0).expect("epoch").before(&t));
    assert!(!t.before(&t));
    assert!(Timestamp::from_millis(i64::MAX).is_none());
    assert!(Timestamp::from_millis(i64::MIN).is_none());
    assert!(Timestamp::from_millis(-8_000_000_000_000_000).is_some());
}

#[test]
fn durations() {
    let d = Duration::from_millis(1_500);
    assert_eq!(d.secs(), 1);
    assert_eq!(d.subsec_nanos(), 500_000_000);
    assert_eq!(d.as_nanos(), 1_500_000_000);
    assert_eq!(Duration::from_secs(3).max(Duration::from_secs(4)), Duration::from_secs(4));
    assert_eq!(Duration::from_secs(3).min(Duration::from_secs(4)), Duration::from_secs(3));
    assert_eq!(Duration::from_secs(3).saturating_mul(2), Duration::from_secs(6));
    let huge = Duration::from_secs(u64::MAX).saturating_mul(2);
    assert_eq!(huge.secs(), u64::MAX);
    assert_eq!(huge.subsec_nanos(), 999_999_999);
}

#[test]
fn json_navigation() {
    let value = JsonValue::Object {
        keys: vec!["a".to_owned(), "b".to_owned(), "c".to_owned(), "d".to_owned()],
        values: vec![
            JsonValue::String("x".to_owned()),
            JsonValue::Number(JsonNumber::PosInt(5)),
            JsonValue::Number(JsonNumber::NegInt(-5)),
            JsonValue::Bool(true),
        ],
    };
    assert_eq!(value.get("a").and_then(|v| v.as_str()), Some("x"));
    assert_eq!(value.get("b").and_then(|v| v.as_u64()), Some(5));
    assert_eq!(value.get("b").and_then(|v| v.as_i64()), Some(5));
    assert_eq!(value.get("c").and_then(|v| v.as_i64()), Some(-5));
    assert_eq!(value.get("c").and_then(|v| v.as_u64()), None);
    assert_eq!(value.get("d").and_then(|v| v.as_bool()), Some(true));
    assert!(value.get("e").is_none());
    assert!(JsonValue::Null.get("a").is_none());
    assert_eq!(JsonValue::Number(JsonNumber::PosInt(u64::MAX)).as_i64(), None);
    assert_eq!(JsonValue::Number(JsonNumber::Float).as_u64(), None);
}

#[test]
fn timestamp_range_is_exactly_chronos() {
    assert!(Timestamp::from_millis(MIN_CHRONO_MILLIS).is_some());
    assert!(Timestamp::from_millis(MIN_CHRONO_MILLIS - 1).is_none());
    assert!(Timestamp::from_millis(MAX_CHRONO_MILLIS).is_some());
    assert!(Timestamp::from_millis(MAX_CHRONO_MILLIS + 1).is_none());
    assert!(chrono::DateTime::from_timestamp_millis(MIN_CHRONO_MILLIS).is_some());
    assert!(chrono::DateTime::from_timestamp_millis(MAX_CHRONO_MILLIS + 1).is_none());
}
