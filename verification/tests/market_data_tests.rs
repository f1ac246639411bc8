use quanthelm::decimal::Decimal;
use quanthelm::domain::{Price, Symbol};
use quanthelm::market_data::{Continuity, GapDetector, Interval, Kline, MarketDataError, RawEvent};
use quanthelm::time::{Duration, Timestamp};

fn now() -> Timestamp {
    Timestamp::from_millis(chrono::Utc::now().timestamp_millis()).expect("current time")
}

fn at(ms: i64) -> Timestamp {
    Timestamp::from_millis(ms).expect("valid timestamp")
}

fn candle_for(symbol: &str, interval: Interval, open_time_ms: i64) -> Kline {
    let price = Price::new(Decimal::from_int(100)).expect("positive price");
    Kline {
        symbol: Symbol::new(symbol).expect("valid symbol"),
        interval,
        open_time: at(open_time_ms),
        close_time: at(open_time_ms + interval.milliseconds() - 1),
        open: price,
        high: price,
        low: price,
        close: price,
        volume: Decimal::zero(),
        quote_volume: Decimal::zero(),
        trade_count: 0,
        taker_buy_volume: Decimal::zero(),
        taker_buy_quote_volume: Decimal::zero(),
        is_closed: true,
    }
}

fn candle(open_time_ms: i64) -> Kline {
    candle_for("BTCUSDT", Interval::M15, open_time_ms)
}

#[test]
fn raw_event_hash_detects_changes() {
    let mut event = RawEvent::new("binance", "exchangeInfo", None, now(), "{}");
    assert!(event.verify_hash());
    event.payload.push(' ');
    assert!(!event.verify_hash());
}

#[test]
fn gap_detector_reports_missing_candle() {
    let mut detector = GapDetector::default();
    assert_eq!(detector.observe(&candle(0)), Continuity::First);
    let result = detector.observe(&candle(Interval::M15.milliseconds() * 2));
    assert!(matches!(result, Continuity::Gap { missing_candles: 1, .. }));
}

#[test]
fn gap_detector_requires_missing_candles_before_advancing() {
    let mut detector = GapDetector::default();
    let interval = Interval::M15.milliseconds();
    assert_eq!(detector.observe(&candle(0)), Continuity::First);
    assert!(matches!(
        detector.observe(&candle(interval * 2)),
        Continuity::Gap { missing_candles: 1, .. }
    ));
    assert_eq!(detector.observe(&candle(interval)), Continuity::Continuous);
    assert_eq!(detector.observe(&candle(interval * 2)), Continuity::Continuous);
}

#[test]
fn gap_detector_does_not_advance_on_old_data() {
    let mut detector = GapDetector::default();
    let interval = Interval::M15.milliseconds();
    detector.observe(&candle(interval));
    assert!(matches!(detector.observe(&candle(0)), Continuity::OutOfOrder { .. }));
    assert_eq!(
        detector.latest_open_time(&Symbol::new("BTCUSDT").expect("valid symbol"), Interval::M15),
        Some(at(interval))
    );
}

#[test]
fn raw_event_records_exact_payload_and_its_sha256() {
    let received = at(1_720_000_000_000);
    let event = RawEvent::new("binance", "exchangeInfo", Some(received), received, "{}");
    assert_eq!(event.schema_version, 1);
    assert_eq!(event.source, "binance");
    assert_eq!(event.channel, "exchangeInfo");
    assert_eq!(event.payload, "{}");
    assert_eq!(
        event.payload_sha256,
        "44136fa355b3678a1146ad16f7e8649e94fb4fc21fe77e8310c060f61caaff8a"
    );
    let empty = RawEvent::new("binance", "x", None, received, "");
    assert_eq!(
        empty.payload_sha256,
        "e3b0c44298fc1c149afbf4c8996fb92427ae41e4649b934ca495991b7852b855"
    );
}

#[test]
fn gap_reports_expected_and_actual_times() {
    let mut detector = GapDetector::new();
    let interval = Interval::H1.milliseconds();
    assert_eq!(detector.observe(&candle_for("ETHUSDT", Interval::H1, 0)), Continuity::First);
    assert_eq!(
        detector.observe(&candle_for("ETHUSDT", Interval::H1, interval * 4)),
        Continuity::Gap {
            expected_open_time: at(interval),
            actual_open_time: at(interval * 4),
            missing_candles: 3,
        }
    );
    assert_eq!(
        detector.latest_open_time(&Symbol::new("ETHUSDT").expect("valid symbol"), Interval::H1),
        Some(at(0))
    );
}

#[test]
fn duplicate_and_misaligned_candles() {
    let mut detector = GapDetector::default();
    let interval = Interval::M15.milliseconds();
    assert_eq!(detector.observe(&candle(interval)), Continuity::First);
    assert_eq!(detector.observe(&candle(interval)), Continuity::Duplicate);
    assert_eq!(
        detector.observe(&candle(interval + 1)),
        Continuity::OutOfOrder { latest_open_time: at(interval), actual_open_time: at(interval + 1) }
    );
    assert_eq!(
        detector.observe(&candle(interval * 2 + 1)),
        Continuity::Gap {
            expected_open_time: at(interval * 2),
            actual_open_time: at(interval * 2 + 1),
            missing_candles: 1,
        }
    );
}

#[test]
fn streams_are_tracked_independently() {
    let mut detector = GapDetector::default();
    assert_eq!(detector.observe(&candle_for("BTCUSDT", Interval::M15, 0)), Continuity::First);
    assert_eq!(detector.observe(&candle_for("BTCUSDT", Interval::H1, 0)), Continuity::First);
    assert_eq!(detector.observe(&candle_for("ETHUSDT", Interval::M15, 0)), Continuity::First);
    assert_eq!(
        detector.latest_open_time(&Symbol::new("SOLUSDT").expect("valid symbol"), Interval::M15),
        None
    );
}

#[test]
fn interval_lengths_and_names() {
    assert_eq!(Interval::M15.milliseconds(), 900_000);
    assert_eq!(Interval::H1.milliseconds(), 3_600_000);
    assert_eq!(Interval::H4.milliseconds(), 14_400_000);
    assert_eq!(Interval::H4.duration(), Duration::from_secs(14_400));
    assert_eq!(Interval::M15.as_binance(), "15m");
    assert_eq!(Interval::H1.as_binance(), "1h");
    assert_eq!(Interval::H4.as_binance(), "4h");
}

#[test]
fn interval_parsing() {
    assert_eq!(Interval::parse("15m"), Ok(Interval::M15));
    assert_eq!(Interval::parse(" 1h "), Ok(Interval::H1));
    assert_eq!(Interval::parse("4h"), Ok(Interval::H4));
    assert_eq!(
        Interval::parse(" 1d "),
        Err(MarketDataError::UnsupportedInterval("1d".to_owned()))
    );
    let parsed: Interval = "4h".parse().expect("supported interval");
    assert_eq!(parsed, Interval::H4);
}

#[test]
fn kline_timestamps_outside_chrono_range_are_rejected() {
    assert_eq!(Kline::timestamp(1_720_000_000_000), Ok(at(1_720_000_000_000)));
    assert_eq!(Kline::timestamp(i64::MAX), Err(MarketDataError::InvalidTimestamp(i64::MAX)));
    assert_eq!(
        MarketDataError::InvalidTimestamp(-5).message(),
        "invalid unix timestamp in milliseconds: -5"
    );
    assert_eq!(
        MarketDataError::UnsupportedInterval("1w".to_owned()).message(),
        "unsupported interval: 1w"
    );
}

#[test]
fn interval_text_is_trimmed_like_std() {
    assert_eq!(Interval::parse("\t4h\n"), Ok(Interval::H4));
    assert_eq!(
        Interval::parse("\u{a0}1d\u{3000}"),
        Err(MarketDataError::UnsupportedInterval("1d".to_owned()))
    );
    assert_eq!(
        Interval::parse("\u{feff}1h"),
        Err(MarketDataError::UnsupportedInterval("\u{feff}1h".to_owned()))
    );
}

#[test]
fn backfilled_gap_is_accepted_in_order() {
    let mut detector = GapDetector::default();
    let interval = Interval::M15.milliseconds();
    assert_eq!(detector.observe(&candle(0)), Continuity::First);
    assert_eq!(
        detector.observe(&candle(interval * 3)),
        Continuity::Gap {
            expected_open_time: at(interval),
            actual_open_time: at(interval * 3),
            missing_candles: 2,
        }
    );
    for k in 1..=3 {
        assert_eq!(detector.observe(&candle(interval * k)), Continuity::Continuous);
    }
    assert_eq!(
        detector.latest_open_time(&Symbol::new("BTCUSDT").expect("valid symbol"), Interval::M15),
        Some(at(interval * 3))
    );
    assert_eq!(detector.observe(&candle(interval * 3)), Continuity::Duplicate);
}
