use quanthelm::binance::context::{
    parse_book_ticker, parse_funding_rates, parse_mark_price, parse_open_interest,
    parse_rolling_ticker_24h, RawBookTicker, RawFundingRate, RawMarkPrice, RawOpenInterest,
    RawRollingTicker24h,
};
use quanthelm::binance::error::BinanceError;
use quanthelm::binance::filters::{LotSizeFilter, PriceFilter};
use quanthelm::binance::models::{ContractStatus, ContractType, KlineRequest};
use quanthelm::binance::parse::{parse_exchange_info, parse_filters, parse_klines, RawContract, RawExchangeInfo};
use quanthelm::binance::rest::{
    backfill_request, bounded_body, check_response, funding_rate_query, kline_query,
    http_settings, trim_trailing_slashes, BinancePublicClient, MAINNET_REST_BASE,
};
use quanthelm::binance::stream::{
    connect_failed, decide_frame, parse_kline_stream_message, session_ended, FrameDecision,
    ConnectionLoop, IncomingFrame, KlineStreamItem, KlineStreamSupervisor, LoopAction, LoopEvent,
    ReconnectBackoff, SessionEnd,
    StreamLifecycle,
};
use quanthelm::binance::websocket::{combined_stream_url, single_stream_url, WebSocketCategory};
use quanthelm::decimal::Decimal;
use quanthelm::domain::Symbol;
use quanthelm::json::{JsonNumber, JsonValue};
use quanthelm::market_data::Interval;
use quanthelm::time::{Duration, Timestamp};
use serde_json::Value;

fn now() -> Timestamp {
    Timestamp::from_millis(chrono::Utc::now().timestamp_millis()).expect("current time")
}

fn json(value: &Value) -> JsonValue {
    match value {
        Value::Null => JsonValue::Null,
        Value::Bool(b) => JsonValue::Bool(*b),
        Value::Number(n) => match (n.as_u64(), n.as_i64()) {
            (Some(u), _) => JsonValue::Number(JsonNumber::PosInt(u)),
            (None, Some(i)) => JsonValue::Number(JsonNumber::NegInt(i)),
            _ => JsonValue::Number(JsonNumber::Float),
        },
        Value::String(s) => JsonValue::String(s.clone()),
        Value::Array(items) => JsonValue::Array(items.iter().map(json).collect()),
        Value::Object(map) => JsonValue::Object {
            keys: map.keys().cloned().collect(),
            values: map.values().map(json).collect(),
        },
    }
}

fn decode(payload: &str) -> Value {
    serde_json::from_str(payload).expect("valid JSON")
}

fn text(value: &Value, key: &str) -> String {
    value[key].as_str().expect("text member").to_owned()
}

fn opt_text(value: &Value, key: &str) -> Option<String> {
    value.get(key).and_then(Value::as_str).map(str::to_owned)
}

fn integer(value: &Value, key: &str) -> i64 {
    value[key].as_i64().expect("integer member")
}

fn at(ms: i64) -> Timestamp {
    Timestamp::from_millis(ms).expect("valid timestamp")
}

const EXCHANGE_INFO_FIXTURE: &str = r#"{
  "serverTime": 1720000000000,
  "symbols": [{
    "symbol": "BTCUSDT",
    "contractType": "PERPETUAL",
    "status": "TRADING",
    "baseAsset": "BTC",
    "quoteAsset": "USDT",
    "marginAsset": "USDT",
    "onboardDate": 1569398400000,
    "filters": [
      {"filterType":"PRICE_FILTER","minPrice":"0.10","maxPrice":"1000000","tickSize":"0.10"},
      {"filterType":"LOT_SIZE","minQty":"0.001","maxQty":"1000","stepSize":"0.001"},
      {"filterType":"MARKET_LOT_SIZE","minQty":"0.001","maxQty":"100","stepSize":"0.001"},
      {"filterType":"PERCENT_PRICE","multiplierUp":"1.1500","multiplierDown":"0.8500","multiplierDecimal":4},
      {"filterType":"MIN_NOTIONAL","notional":"5"},
      {"filterType":"MAX_NUM_ORDERS","limit":200},
      {"filterType":"FUTURE_FILTER","value":"retained"}
    ]
  }]
}"#;

fn raw_exchange_info(payload: &str) -> RawExchangeInfo {
    let root = decode(payload);
    let symbols = root["symbols"]
        .as_array()
        .expect("symbols")
        .iter()
        .map(|c| RawContract {
            symbol: text(c, "symbol"),
            contract_type: text(c, "contractType"),
            status: text(c, "status"),
            base_asset: text(c, "baseAsset"),
            quote_asset: text(c, "quoteAsset"),
            margin_asset: text(c, "marginAsset"),
            onboard_date: integer(c, "onboardDate"),
            filters: c["filters"].as_array().expect("filters").iter().map(json).collect(),
        })
        .collect();
    RawExchangeInfo { server_time: integer(&root, "serverTime"), symbols }
}

const CLOSED_KLINE: &str = r#"{
  "stream":"btcusdt@kline_15m",
  "data":{
    "e":"kline","E":1720000900001,"s":"BTCUSDT",
    "k":{"t":1720000000000,"T":1720000899999,"s":"BTCUSDT","i":"15m",
         "o":"100.0","c":"105.0","h":"110.0","l":"90.0","v":"12.5",
         "n":42,"x":true,"q":"1300.0","V":"7.5","Q":"780.0"}
  }
}"#;

fn stream_message(
    payload: &str,
    received_at: Timestamp,
) -> Result<quanthelm::binance::stream::ParsedKlineStreamMessage, BinanceError> {
    parse_kline_stream_message(payload, received_at)
}

#[test]
fn price_and_quantity_floor_to_steps() {
    let price = PriceFilter {
        min_price: Decimal::new(1, 1),
        max_price: Decimal::from_int(1_000_000),
        tick_size: Decimal::new(1, 1),
    }
    .floor(Decimal::new(12_345, 2))
    .expect("valid price");
    assert_eq!(price, Decimal::new(12_340, 2));

    let quantity = LotSizeFilter {
        min_quantity: Decimal::new(1, 3),
        max_quantity: Decimal::from_int(1_000),
        step_size: Decimal::new(1, 3),
    }
    .floor(Decimal::new(1_234_567, 6))
    .expect("valid quantity");
    assert_eq!(quantity, Decimal::new(1_234_000, 6));
}

#[test]
fn parses_exchange_filters_without_losing_unknown_types() {
    let info = parse_exchange_info(
        EXCHANGE_INFO_FIXTURE,
        &raw_exchange_info(EXCHANGE_INFO_FIXTURE),
        at(1_720_000_000_100),
    )
    .expect("parse exchange info");
    let contract = info
        .contract(&Symbol::new("BTCUSDT").expect("valid symbol"))
        .expect("contract exists");
    assert_eq!(contract.status, ContractStatus::Trading);
    assert_eq!(contract.rules.min_notional, Some(Decimal::from_int(5)));
    assert_eq!(contract.rules.unknown_filters, vec!["FUTURE_FILTER".to_owned()]);
    assert!(info.raw_event.verify_hash());
}

#[test]
fn parses_kline_array() {
    let payload = r#"[[1720000000000,"100.0","110.0","90.0","105.0","12.5",1720000899999,"1300.0",42,"7.5","780.0","0"]]"#;
    let rows = parse_klines(
        payload,
        &Symbol::new("BTCUSDT").expect("valid symbol"),
        Interval::M15,
        at(1_720_001_000_000),
    )
    .expect("parse klines");
    assert_eq!(rows.len(), 1);
    assert_eq!(rows[0].trade_count, 42);
    assert_eq!(rows[0].close.value(), Decimal::from_int(105));
    assert!(rows[0].is_closed);
}

#[test]
fn parses_closed_combined_kline() {
    let parsed = stream_message(CLOSED_KLINE, at(1_720_000_900_100)).expect("parse frame");
    let candle = parsed.closed_kline.expect("closed candle");
    assert_eq!(candle.symbol.as_str(), "BTCUSDT");
    assert_eq!(candle.interval, Interval::M15);
    assert_eq!(candle.trade_count, 42);
    assert!(parsed.raw_event.verify_hash());
}

#[test]
fn ignores_open_candle_as_normalized_output() {
    let open = CLOSED_KLINE.replace("\"x\":true", "\"x\":false");
    let parsed = stream_message(&open, now()).expect("parse frame");
    assert!(parsed.closed_kline.is_none());
}

#[test]
fn reconnect_backoff_is_bounded_and_resettable() {
    let mut backoff = ReconnectBackoff::new(Duration::from_secs(1), Duration::from_secs(4));
    assert_eq!(backoff.next_delay(), Duration::from_secs(1));
    assert_eq!(backoff.next_delay(), Duration::from_secs(2));
    assert_eq!(backoff.next_delay(), Duration::from_secs(4));
    assert_eq!(backoff.next_delay(), Duration::from_secs(4));
    backoff.reset();
    assert_eq!(backoff.next_delay(), Duration::from_secs(1));
}

#[test]
fn classified_websocket_urls_are_built_safely() {
    assert_eq!(
        single_stream_url(WebSocketCategory::Market, "btcusdt@markPrice").expect("valid stream"),
        "wss://fstream.binance.com/market/ws/btcusdt@markPrice"
    );
    assert!(single_stream_url(WebSocketCategory::Public, "../bad").is_err());
}

#[test]
fn parses_market_context_components() {
    let received_at = now();
    let payload = decode(
        r#"{"symbol":"BTCUSDT","markPrice":"100.5","indexPrice":"100.4","estimatedSettlePrice":"0.0","lastFundingRate":"-0.0001","interestRate":"0.0001","nextFundingTime":1720000000000,"time":1719999000000}"#,
    );
    let mark = parse_mark_price(
        &RawMarkPrice {
            symbol: text(&payload, "symbol"),
            mark_price: text(&payload, "markPrice"),
            index_price: text(&payload, "indexPrice"),
            estimated_settle_price: opt_text(&payload, "estimatedSettlePrice"),
            last_funding_rate: text(&payload, "lastFundingRate"),
            interest_rate: text(&payload, "interestRate"),
            next_funding_time: integer(&payload, "nextFundingTime"),
            time: integer(&payload, "time"),
        },
        received_at,
    )
    .expect("mark price");
    assert_eq!(mark.symbol.as_str(), "BTCUSDT");
    assert!(mark.estimated_settle_price.is_none());
    assert!(mark.last_funding_rate.lt(&Decimal::zero()));

    let payload = decode(
        r#"{"symbol":"BTCUSDT","bidPrice":"100.4","bidQty":"2.0","askPrice":"100.5","askQty":"3.0","time":1719999000001,"lastUpdateId":42}"#,
    );
    let book = parse_book_ticker(
        &RawBookTicker {
            symbol: text(&payload, "symbol"),
            bid_price: text(&payload, "bidPrice"),
            bid_qty: text(&payload, "bidQty"),
            ask_price: text(&payload, "askPrice"),
            ask_qty: text(&payload, "askQty"),
            time: payload.get("time").and_then(Value::as_i64),
            last_update_id: payload.get("lastUpdateId").and_then(Value::as_u64),
        },
        received_at,
    )
    .expect("book ticker");
    assert_eq!(book.update_id, Some(42));

    let payload = decode(
        r#"[{"symbol":"BTCUSDT","fundingRate":"0.0002","fundingTime":1719990000000,"markPrice":"100.0"}]"#,
    );
    let raw: Vec<RawFundingRate> = payload
        .as_array()
        .expect("array")
        .iter()
        .map(|f| RawFundingRate {
            symbol: text(f, "symbol"),
            funding_rate: text(f, "fundingRate"),
            funding_time: integer(f, "fundingTime"),
            mark_price: opt_text(f, "markPrice"),
        })
        .collect();
    let funding = parse_funding_rates(&raw).expect("funding rates");
    assert_eq!(funding.len(), 1);

    let payload = decode(r#"{"openInterest":"12345.6","symbol":"BTCUSDT","time":1719999000002}"#);
    let open_interest = parse_open_interest(
        &RawOpenInterest {
            symbol: text(&payload, "symbol"),
            open_interest: text(&payload, "openInterest"),
            time: integer(&payload, "time"),
        },
        received_at,
    )
    .expect("open interest");
    assert_eq!(open_interest.open_interest, Decimal::new(123456, 1));

    let payload = decode(
        r#"{"symbol":"BTCUSDT","priceChange":"5.0","priceChangePercent":"5.0","weightedAvgPrice":"98.0","lastPrice":"100.0","lastQty":"0.5","openPrice":"95.0","highPrice":"101.0","lowPrice":"94.0","volume":"1000.0","quoteVolume":"98000.0","openTime":1719912600000,"closeTime":1719999000000,"count":10000}"#,
    );
    let ticker = parse_rolling_ticker_24h(
        &RawRollingTicker24h {
            symbol: text(&payload, "symbol"),
            price_change: text(&payload, "priceChange"),
            price_change_percent: text(&payload, "priceChangePercent"),
            weighted_avg_price: text(&payload, "weightedAvgPrice"),
            last_price: text(&payload, "lastPrice"),
            last_qty: text(&payload, "lastQty"),
            open_price: text(&payload, "openPrice"),
            high_price: text(&payload, "highPrice"),
            low_price: text(&payload, "lowPrice"),
            volume: text(&payload, "volume"),
            quote_volume: text(&payload, "quoteVolume"),
            open_time: integer(&payload, "openTime"),
            close_time: integer(&payload, "closeTime"),
            count: payload["count"].as_u64().expect("count"),
        },
        received_at,
    )
    .expect("24h ticker");
    assert_eq!(ticker.trade_count, 10_000);
}

#[test]
fn floors_reject_out_of_range_candidates() {
    let filter = PriceFilter {
        min_price: Decimal::new(1, 1),
        max_price: Decimal::from_int(1_000),
        tick_size: Decimal::new(1, 1),
    };
    assert_eq!(
        filter.floor(Decimal::zero()),
        Err(BinanceError::InvalidRequest("candidate price must be positive".to_owned()))
    );
    assert_eq!(
        filter.floor(Decimal::new(5, 2)),
        Err(BinanceError::InvalidRequest("price 0.05 is below minimum 0.1".to_owned()))
    );
    assert!(matches!(
        filter.floor(Decimal::from_int(2_000)),
        Err(BinanceError::InvalidRequest(message)) if message.ends_with(" exceeds maximum 1000")
    ));
    assert_eq!(filter.floor(Decimal::new(1, 1)), Ok(Decimal::new(1, 1)));
    assert_eq!(filter.try_floor(Decimal::new(25, 2)), Some(Ok(Decimal::new(2, 1))));

    let lots = LotSizeFilter {
        min_quantity: Decimal::new(1, 3),
        max_quantity: Decimal::from_int(10),
        step_size: Decimal::new(1, 3),
    };
    assert_eq!(
        lots.floor(Decimal::new(1, 4)),
        Err(BinanceError::InvalidRequest("quantity 0.0001 is below minimum 0.001".to_owned()))
    );
    assert!(lots.floor(Decimal::from_int(11)).is_err());
    assert_eq!(lots.try_floor(Decimal::new(15, 4)), Some(Ok(Decimal::new(1, 3))));
}

#[test]
fn floors_pass_candidates_through_without_a_step() {
    let filter = PriceFilter {
        min_price: Decimal::zero(),
        max_price: Decimal::zero(),
        tick_size: Decimal::zero(),
    };
    assert_eq!(filter.floor(Decimal::new(12_345, 3)), Ok(Decimal::new(12_345, 3)));
}

#[test]
fn filter_parsing_reports_the_first_problem() {
    let filters = vec![json(&decode(r#"{"minPrice":"1"}"#))];
    assert_eq!(
        parse_filters(&filters),
        Err(BinanceError::InvalidResponse("filter missing filterType".to_owned()))
    );
    let filters = vec![json(&decode(
        r#"{"filterType":"PRICE_FILTER","minPrice":"abc","maxPrice":"1","tickSize":"1"}"#,
    ))];
    assert_eq!(
        parse_filters(&filters),
        Err(BinanceError::InvalidDecimal {
            field: "PRICE_FILTER.minPrice",
            value: "abc".to_owned(),
        })
    );
    let filters = vec![json(&decode(r#"{"filterType":"LOT_SIZE","minQty":"1","stepSize":"1"}"#))];
    assert_eq!(
        parse_filters(&filters),
        Err(BinanceError::InvalidResponse("LOT_SIZE is missing".to_owned()))
    );
    let rules = parse_filters(&Vec::new()).expect("no filters");
    assert!(rules.price.is_none());
    assert!(rules.unknown_filters.is_empty());
}

#[test]
fn exchange_info_contracts_and_perpetuals() {
    let info = parse_exchange_info(
        EXCHANGE_INFO_FIXTURE,
        &raw_exchange_info(EXCHANGE_INFO_FIXTURE),
        at(1_720_000_000_100),
    )
    .expect("parse exchange info");
    assert_eq!(info.server_time, at(1_720_000_000_000));
    assert_eq!(info.raw_event.channel, "/fapi/v1/exchangeInfo");
    assert_eq!(info.raw_event.source, "binance-usdm");
    assert_eq!(info.raw_event.exchange_event_time, Some(at(1_720_000_000_000)));
    assert_eq!(info.raw_event.payload, EXCHANGE_INFO_FIXTURE);
    let contract = &info.contracts[0];
    assert_eq!(contract.contract_type, ContractType::Perpetual);
    assert_eq!(contract.base_asset, "BTC");
    assert_eq!(contract.onboarded_at, at(1_569_398_400_000));
    assert_eq!(contract.rules.max_orders, Some(200));
    assert_eq!(
        contract.rules.percent_price.map(|p| p.multiplier_decimal),
        Some(4)
    );
    assert_eq!(
        contract.rules.market_lot_size.map(|l| l.max_quantity),
        Some(Decimal::from_int(100))
    );
    assert_eq!(info.trading_perpetuals().len(), 1);
    assert!(info.contract(&Symbol::new("ETHUSDT").expect("valid symbol")).is_none());

    let delivery = EXCHANGE_INFO_FIXTURE
        .replace("PERPETUAL", "CURRENT_QUARTER")
        .replace("\"TRADING\"", "\"SETTLING\"");
    let info = parse_exchange_info(&delivery, &raw_exchange_info(&delivery), at(0)).expect("parse");
    assert_eq!(
        info.contracts[0].contract_type,
        ContractType::Other("CURRENT_QUARTER".to_owned())
    );
    assert_eq!(info.contracts[0].status, ContractStatus::Other("SETTLING".to_owned()));
    assert!(info.trading_perpetuals().is_empty());
}

#[test]
fn exchange_info_rejects_bad_times_and_symbols() {
    let mut raw = raw_exchange_info(EXCHANGE_INFO_FIXTURE);
    raw.server_time = i64::MAX;
    assert!(matches!(
        parse_exchange_info(EXCHANGE_INFO_FIXTURE, &raw, at(0)),
        Err(BinanceError::MarketData(_))
    ));
    let lower = EXCHANGE_INFO_FIXTURE.replace("\"BTCUSDT\"", "\"btcusdt\"");
    assert!(matches!(
        parse_exchange_info(&lower, &raw_exchange_info(&lower), at(0)),
        Err(BinanceError::Domain(_))
    ));
}

#[test]
fn kline_rows_are_checked() {
    let symbol = Symbol::new("BTCUSDT").expect("valid symbol");
    assert_eq!(
        parse_klines(r#"[[1,"2",3]]"#, &symbol, Interval::M15, at(0)),
        Err(BinanceError::InvalidResponse(
            "kline row 0 has 3 fields; expected at least 11".to_owned()
        ))
    );
    let payload = r#"[[1720000000000,"100.0","110.0","90.0","105.0","12.5",1720000899999,"1300.0",42,"7.5","780.0"],
                      [1720000900000,"x","110.0","90.0","105.0","12.5",1720001799999,"1300.0",42,"7.5","780.0"]]"#;
    assert_eq!(
        parse_klines(payload, &symbol, Interval::M15, at(0)),
        Err(BinanceError::InvalidDecimal { field: "kline.open", value: "x".to_owned() })
    );
    let open = r#"[[1720000000000,"100.0","110.0","90.0","105.0","12.5",1720000899999,"1300.0",42,"7.5","780.0"]]"#;
    let parsed = parse_klines(open, &symbol, Interval::M15, at(1_720_000_899_999))
        .expect("parse klines");
    assert!(!parsed[0].is_closed);
    assert!(parse_klines("[]", &symbol, Interval::M15, at(0)).expect("empty").is_empty());
}

#[test]
fn kline_payload_must_be_json_rows() {
    let symbol = Symbol::new("BTCUSDT").expect("valid symbol");
    let expected = serde_json::from_str::<Value>("[[1,").expect_err("truncated").to_string();
    assert_eq!(
        parse_klines("[[1,", &symbol, Interval::M15, at(0)),
        Err(BinanceError::InvalidResponse(expected))
    );
    let shape = Err(BinanceError::InvalidResponse("kline response must be an array of rows".to_owned()));
    assert_eq!(parse_klines(r#"{"code":-1121}"#, &symbol, Interval::M15, at(0)), shape);
    assert_eq!(parse_klines(r#"[[1,"2",3],5]"#, &symbol, Interval::M15, at(0)), shape);
}

#[test]
fn stream_frame_must_be_json() {
    let expected = serde_json::from_str::<Value>("{\"e\":").expect_err("truncated").to_string();
    assert_eq!(
        stream_message("{\"e\":", at(0)).map(|_| ()),
        Err(BinanceError::InvalidResponse(expected))
    );
}

#[test]
fn stream_frames_are_validated() {
    let received = at(1_720_000_900_100);
    let parsed = stream_message(CLOSED_KLINE, received).expect("parse frame");
    assert_eq!(parsed.raw_event.channel, "btcusdt@kline_15m");
    assert_eq!(parsed.raw_event.source, "binance-usdm");
    assert_eq!(parsed.raw_event.exchange_event_time, Some(at(1_720_000_900_001)));
    assert_eq!(parsed.raw_event.received_at, received);
    assert_eq!(parsed.raw_event.payload, CLOSED_KLINE);
    let candle = parsed.closed_kline.expect("closed candle");
    assert_eq!(candle.open_time, at(1_720_000_000_000));
    assert_eq!(candle.close.value(), Decimal::from_int(105));
    assert!(candle.is_closed);

    let raw = r#"{"e":"kline","E":1,"s":"BTCUSDT","k":{"t":0,"T":1,"s":"BTCUSDT","i":"1h","o":"1","c":"1","h":"1","l":"1","v":"0","n":0,"x":false,"q":"0","V":"0","Q":"0"}}"#;
    let parsed = stream_message(raw, received).expect("raw stream frame");
    assert_eq!(parsed.raw_event.channel, "raw-kline-stream");

    let trade = CLOSED_KLINE.replace("\"e\":\"kline\"", "\"e\":\"trade\"");
    assert_eq!(
        stream_message(&trade, received).map(|p| p.closed_kline.is_some()),
        Err(BinanceError::InvalidResponse("unexpected stream event type: trade".to_owned()))
    );
    let weekly = CLOSED_KLINE.replace("\"i\":\"15m\"", "\"i\":\"1w\"");
    assert!(matches!(stream_message(&weekly, received), Err(BinanceError::MarketData(_))));
    let bad_price = CLOSED_KLINE.replace("\"o\":\"100.0\"", "\"o\":\"1e\"");
    assert_eq!(
        stream_message(&bad_price, received).map(|p| p.closed_kline.is_some()),
        Err(BinanceError::InvalidResponse(
            "stream.k.o contains invalid decimal text".to_owned()
        ))
    );
    let no_closed_flag = CLOSED_KLINE.replace("\"x\":true", "\"x\":1");
    assert_eq!(
        stream_message(&no_closed_flag, received).map(|p| p.closed_kline.is_some()),
        Err(BinanceError::InvalidResponse("stream.k.x must be boolean".to_owned()))
    );
}

#[test]
fn frames_become_items_or_session_ends() {
    let parsed = stream_message(CLOSED_KLINE, at(1_720_000_900_100)).expect("parse frame");
    match decide_frame(IncomingFrame::Text(Ok(parsed))) {
        FrameDecision::Emit(items) => {
            assert_eq!(items.len(), 2);
            assert!(matches!(items[0], KlineStreamItem::Raw(_)));
            assert!(matches!(items[1], KlineStreamItem::ClosedKline(_)));
        }
        _ => panic!("a parsed frame is emitted"),
    }
    match decide_frame(IncomingFrame::Text(Err(BinanceError::InvalidResponse("bad".to_owned())))) {
        FrameDecision::Emit(items) => {
            assert_eq!(items.len(), 1);
            assert!(matches!(
                &items[0],
                KlineStreamItem::ProtocolError { message } if message == "invalid Binance response: bad"
            ));
        }
        _ => panic!("a rejected frame is reported"),
    }
    match decide_frame(IncomingFrame::Binary) {
        FrameDecision::Emit(items) => assert!(matches!(
            &items[0],
            KlineStreamItem::ProtocolError { message }
                if message == "unexpected binary Binance market-data frame"
        )),
        _ => panic!("binary frames are reported"),
    }
    assert!(matches!(decide_frame(IncomingFrame::Ping(vec![1, 2])), FrameDecision::ReplyPong(p) if p == vec![1, 2]));
    assert!(matches!(decide_frame(IncomingFrame::Pong), FrameDecision::Ignore));
    assert!(matches!(decide_frame(IncomingFrame::Other), FrameDecision::Ignore));
    assert!(matches!(
        decide_frame(IncomingFrame::Close("bye".to_owned())),
        FrameDecision::End(SessionEnd::ServerClosed(f)) if f == "bye"
    ));
    assert!(matches!(
        decide_frame(IncomingFrame::Failed("reset".to_owned())),
        FrameDecision::End(SessionEnd::TransportError(m)) if m == "reset"
    ));
    assert!(matches!(decide_frame(IncomingFrame::Ended), FrameDecision::End(SessionEnd::StreamEnded)));
}

fn disconnect_reason(item: KlineStreamItem) -> String {
    match item {
        KlineStreamItem::Lifecycle(StreamLifecycle::Disconnected { reason }) => reason,
        _ => panic!("expected a disconnect"),
    }
}

#[test]
fn disconnect_reasons() {
    assert_eq!(disconnect_reason(session_ended(&SessionEnd::Rotation)), "proactive session rotation");
    assert_eq!(
        disconnect_reason(session_ended(&SessionEnd::PongFailed("x".to_owned()))),
        "failed to send pong: x"
    );
    assert_eq!(
        disconnect_reason(session_ended(&SessionEnd::ServerClosed("y".to_owned()))),
        "server closed stream: y"
    );
    assert_eq!(
        disconnect_reason(session_ended(&SessionEnd::TransportError("z".to_owned()))),
        "WebSocket transport error: z"
    );
    assert_eq!(disconnect_reason(session_ended(&SessionEnd::StreamEnded)), "stream ended");
    assert_eq!(disconnect_reason(connect_failed("refused")), "WebSocket connect error: refused");
}

#[test]
fn supervisor_streams_and_rotation_age() {
    let pairs = vec![
        (Symbol::new("BTCUSDT").expect("valid symbol"), Interval::M15),
        (Symbol::new("ETHUSDT").expect("valid symbol"), Interval::H4),
    ];
    let supervisor = KlineStreamSupervisor::new(&pairs).expect("supervisor");
    assert_eq!(
        supervisor.streams(),
        &vec!["btcusdt@kline_15m".to_owned(), "ethusdt@kline_4h".to_owned()]
    );
    assert_eq!(supervisor.max_session_age(), Duration::from_secs(23 * 3600 + 50 * 60));
    let quick = supervisor.clone().with_max_session_age(Duration::from_millis(10));
    assert_eq!(quick.max_session_age(), Duration::from_secs(1));
    let slow = supervisor.with_max_session_age(Duration::from_secs(60));
    assert_eq!(slow.max_session_age(), Duration::from_secs(60));
    assert!(matches!(
        KlineStreamSupervisor::new(&[]),
        Err(BinanceError::InvalidRequest(m)) if m == "at least one kline stream is required"
    ));
}

#[test]
fn backoff_has_a_floor_and_default() {
    let mut backoff = ReconnectBackoff::new(Duration::from_secs(0), Duration::from_secs(0));
    assert_eq!(backoff.next_delay(), Duration::from_millis(1));
    assert_eq!(backoff.next_delay(), Duration::from_millis(1));
    let mut default = ReconnectBackoff::default();
    let delays: Vec<Duration> = (0..8).map(|_| default.next_delay()).collect();
    assert_eq!(
        delays,
        [1, 2, 4, 8, 16, 32, 60, 60].iter().map(|s| Duration::from_secs(*s)).collect::<Vec<_>>()
    );
}

#[test]
fn websocket_urls() {
    assert_eq!(
        combined_stream_url(
            WebSocketCategory::Market,
            &["btcusdt@kline_15m".to_owned(), "ethusdt@kline_1h".to_owned()]
        )
        .expect("valid streams"),
        "wss://fstream.binance.com/market/stream?streams=btcusdt@kline_15m/ethusdt@kline_1h"
    );
    assert_eq!(
        combined_stream_url(WebSocketCategory::Public, &[]),
        Err(BinanceError::InvalidRequest("combined stream list must not be empty".to_owned()))
    );
    assert_eq!(
        combined_stream_url(WebSocketCategory::Public, &["ok".to_owned(), "no/slash".to_owned()]),
        Err(BinanceError::InvalidRequest("invalid WebSocket stream name: no/slash".to_owned()))
    );
    assert_eq!(
        single_stream_url(WebSocketCategory::Public, "btcusdt@aggTrade").expect("valid"),
        "wss://fstream.binance.com/public/ws/btcusdt@aggTrade"
    );
    assert!(single_stream_url(WebSocketCategory::Public, "").is_err());
    assert!(single_stream_url(WebSocketCategory::Public, &"a".repeat(257)).is_err());
    assert!(single_stream_url(WebSocketCategory::Public, &"a".repeat(256)).is_ok());
    assert_eq!(WebSocketCategory::Market.base_url(), "wss://fstream.binance.com/market");
}

#[test]
fn kline_requests_become_query_parameters() {
    let symbol = Symbol::new("BTCUSDT").expect("valid symbol");
    let request = KlineRequest {
        symbol: symbol.clone(),
        interval: Interval::H1,
        start_time_ms: Some(1_000),
        end_time_ms: Some(-5 + 10_000),
        limit: 500,
    };
    let pairs = |q: Vec<(String, String)>| -> Vec<(String, String)> { q };
    assert_eq!(
        pairs(kline_query(&request).expect("valid request")),
        vec![
            ("symbol".to_owned(), "BTCUSDT".to_owned()),
            ("interval".to_owned(), "1h".to_owned()),
            ("limit".to_owned(), "500".to_owned()),
            ("startTime".to_owned(), "1000".to_owned()),
            ("endTime".to_owned(), "9995".to_owned()),
        ]
    );
    let plain = KlineRequest { symbol: symbol.clone(), interval: Interval::M15, start_time_ms: None, end_time_ms: Some(7), limit: 1 };
    assert_eq!(
        kline_query(&plain).expect("valid request"),
        vec![
            ("symbol".to_owned(), "BTCUSDT".to_owned()),
            ("interval".to_owned(), "15m".to_owned()),
            ("limit".to_owned(), "1".to_owned()),
            ("endTime".to_owned(), "7".to_owned()),
        ]
    );
    let too_many = KlineRequest { limit: 1501, ..plain.clone() };
    assert_eq!(
        kline_query(&too_many),
        Err(BinanceError::InvalidRequest("kline limit must be between 1 and 1500".to_owned()))
    );
    let none = KlineRequest { limit: 0, ..plain.clone() };
    assert!(none.validate().is_err());
    let reversed = KlineRequest { start_time_ms: Some(10), end_time_ms: Some(9), ..plain };
    assert_eq!(
        reversed.validate(),
        Err(BinanceError::InvalidRequest("start_time_ms must not exceed end_time_ms".to_owned()))
    );
}

#[test]
fn responses_are_screened_and_bounded() {
    assert_eq!(check_response(200, "ok".to_owned()), Ok("ok".to_owned()));
    assert_eq!(check_response(299, "".to_owned()), Ok("".to_owned()));
    assert_eq!(
        check_response(429, "slow down".to_owned()),
        Err(BinanceError::HttpStatus { status: 429, body: "slow down".to_owned() })
    );
    assert!(check_response(199, "x".to_owned()).is_err());
    assert!(check_response(300, "x".to_owned()).is_err());

    let exact = "é".repeat(1024);
    assert_eq!(bounded_body(exact.clone()), exact);
    let long = "é".repeat(1025);
    let bounded = bounded_body(long);
    assert_eq!(bounded.chars().count(), 1025);
    assert!(bounded.ends_with("é…"));
    assert_eq!(bounded, format!("{}…", "é".repeat(1024)));
    match check_response(500, "x".repeat(2000)) {
        Err(BinanceError::HttpStatus { status, body }) => {
            assert_eq!(status, 500);
            assert_eq!(body, format!("{}…", "x".repeat(1024)));
        }
        other => panic!("unexpected {other:?}"),
    }
}

#[test]
fn rest_base_drops_trailing_slashes() {
    assert_eq!(trim_trailing_slashes("https://example.test//"), "https://example.test");
    assert_eq!(trim_trailing_slashes("https://example.test"), "https://example.test");
    assert_eq!(trim_trailing_slashes("///"), "");
    assert_eq!(trim_trailing_slashes(""), "");
    let client = BinancePublicClient::with_rest_base("http://127.0.0.1:9/api/").expect("client");
    assert_eq!(client.rest_base(), "http://127.0.0.1:9/api");
    assert_eq!(client.endpoint_url("/fapi/v1/ping"), "http://127.0.0.1:9/api/fapi/v1/ping");
    let mainnet = BinancePublicClient::mainnet().expect("client");
    assert_eq!(mainnet.rest_base(), MAINNET_REST_BASE);
}

#[test]
fn context_records_reject_malformed_fields() {
    let raw = RawOpenInterest { symbol: "BTCUSDT".to_owned(), open_interest: "lots".to_owned(), time: 0 };
    assert_eq!(
        parse_open_interest(&raw, at(0)).map(|s| s.open_interest),
        Err(BinanceError::InvalidDecimal { field: "openInterest.openInterest", value: "lots".to_owned() })
    );
    let raw = RawOpenInterest { symbol: "BTCUSDT".to_owned(), open_interest: "1".to_owned(), time: i64::MIN };
    assert_eq!(
        parse_open_interest(&raw, at(0)).map(|s| s.open_interest),
        Err(BinanceError::InvalidResponse(format!("invalid timestamp: {}", i64::MIN)))
    );
    let rows = vec![
        RawFundingRate { symbol: "BTCUSDT".to_owned(), funding_rate: "0.1".to_owned(), funding_time: 0, mark_price: Some("0".to_owned()) },
        RawFundingRate { symbol: "BTCUSDT".to_owned(), funding_rate: "?".to_owned(), funding_time: 0, mark_price: None },
    ];
    assert_eq!(
        parse_funding_rates(&rows).map(|v| v.len()),
        Err(BinanceError::InvalidDecimal { field: "fundingRate.fundingRate", value: "?".to_owned() })
    );
    let first = parse_funding_rates(&rows[..1].to_vec()).expect("one record");
    assert_eq!(first[0].mark_price, None);
    assert_eq!(first[0].funding_rate, Decimal::new(1, 1));
}

#[test]
fn binance_error_messages() {
    assert_eq!(BinanceError::Http("down".to_owned()).message(), "Binance HTTP error: down");
    assert_eq!(
        BinanceError::HttpStatus { status: 418, body: "tea".to_owned() }.message(),
        "Binance returned HTTP 418 I'm a teapot: tea"
    );
    assert_eq!(
        BinanceError::HttpStatus { status: 599, body: "x".to_owned() }.message(),
        "Binance returned HTTP 599 <unknown status code>: x"
    );
    assert_eq!(
        BinanceError::HttpStatus { status: 42, body: "y".to_owned() }.message(),
        "Binance returned HTTP 42: y"
    );
    assert_eq!(
        BinanceError::InvalidDecimal { field: "f", value: "v".to_owned() }.message(),
        "invalid decimal for f: v"
    );
    assert_eq!(
        BinanceError::InvalidRequest("no".to_owned()).message(),
        "invalid Binance request: no"
    );
}

#[test]
fn funding_and_backfill_requests() {
    let symbol = Symbol::new("BTCUSDT").expect("valid symbol");
    assert_eq!(
        funding_rate_query(&symbol, 16).expect("valid limit"),
        vec![("symbol".to_owned(), "BTCUSDT".to_owned()), ("limit".to_owned(), "16".to_owned())]
    );
    assert!(funding_rate_query(&symbol, 1000).is_ok());
    assert_eq!(
        funding_rate_query(&symbol, 0),
        Err(BinanceError::InvalidRequest("funding limit must be between 1 and 1000".to_owned()))
    );
    assert!(funding_rate_query(&symbol, 1001).is_err());

    let request = backfill_request(&symbol, Interval::M15, at(900_000), at(2_700_000));
    assert_eq!(request.symbol, symbol);
    assert_eq!(request.interval, Interval::M15);
    assert_eq!(request.start_time_ms, Some(900_000));
    assert_eq!(request.end_time_ms, Some(2_699_999));
    assert_eq!(request.limit, 1500);
    assert!(request.validate().is_ok());
}

#[test]
fn contract_texts_are_classified() {
    assert_eq!(ContractType::from("PERPETUAL".to_owned()), ContractType::Perpetual);
    assert_eq!(
        ContractType::from("perpetual".to_owned()),
        ContractType::Other("perpetual".to_owned())
    );
    let status: ContractStatus = "PENDING_TRADING".to_owned().into();
    assert_eq!(status, ContractStatus::PendingTrading);
    assert_eq!(ContractStatus::from("TRADING_HALT".to_owned()), ContractStatus::TradingHalt);
    assert_eq!(
        ContractStatus::from("TRADING_CANCEL_ONLY".to_owned()),
        ContractStatus::TradingCancelOnly
    );
    assert_eq!(ContractStatus::from("TRADING".to_owned()), ContractStatus::Trading);
    assert_eq!(ContractStatus::from("BREAK".to_owned()), ContractStatus::Other("BREAK".to_owned()));
}

fn disconnected(action: LoopAction) -> (String, Duration) {
    match action {
        LoopAction::AnnounceAndWait(
            KlineStreamItem::Lifecycle(StreamLifecycle::Disconnected { reason }),
            delay,
        ) => (reason, delay),
        other => panic!("expected a disconnection and a wait, got {other:?}"),
    }
}

#[test]
fn connection_loop_decides_each_step() {
    let mut machine =
        ConnectionLoop::new(ReconnectBackoff::new(Duration::from_secs(1), Duration::from_secs(4)));
    assert!(matches!(
        machine.step(LoopEvent::AttemptDue { shutdown: false }),
        LoopAction::AnnounceAndConnect(KlineStreamItem::Lifecycle(StreamLifecycle::Connecting))
    ));
    assert_eq!(
        disconnected(machine.step(LoopEvent::ConnectFailed("refused".to_owned()))),
        ("WebSocket connect error: refused".to_owned(), Duration::from_secs(1))
    );
    assert!(matches!(
        machine.step(LoopEvent::AttemptDue { shutdown: false }),
        LoopAction::AnnounceAndConnect(_)
    ));
    assert_eq!(
        disconnected(machine.step(LoopEvent::ConnectFailed("refused".to_owned()))).1,
        Duration::from_secs(2)
    );
    assert!(matches!(
        machine.step(LoopEvent::Connected),
        LoopAction::AnnounceAndRead(KlineStreamItem::Lifecycle(StreamLifecycle::Connected))
    ));
    assert_eq!(
        disconnected(machine.step(LoopEvent::SessionEnded(SessionEnd::Rotation))),
        ("proactive session rotation".to_owned(), Duration::from_secs(1))
    );
    assert!(!machine.stopped());
    assert!(matches!(machine.step(LoopEvent::ConsumerGone), LoopAction::Stop));
    assert!(machine.stopped());
    assert!(matches!(machine.step(LoopEvent::AttemptDue { shutdown: false }), LoopAction::Stop));
    assert!(matches!(machine.step(LoopEvent::Connected), LoopAction::Stop));
}

#[test]
fn connection_loop_stops_on_shutdown() {
    let mut idle = ConnectionLoop::new(ReconnectBackoff::default());
    assert!(matches!(idle.step(LoopEvent::AttemptDue { shutdown: true }), LoopAction::Stop));
    assert!(idle.stopped());
    let mut waiting = ConnectionLoop::new(ReconnectBackoff::default());
    let _ = waiting.step(LoopEvent::AttemptDue { shutdown: false });
    assert!(matches!(waiting.step(LoopEvent::ShutdownRequested), LoopAction::Stop));
    assert!(waiting.stopped());
}

#[test]
fn clients_are_built_with_the_adapter_settings() {
    let settings = http_settings();
    assert_eq!(settings.timeout_secs, 10);
    assert_eq!(settings.user_agent, "quanthelm/0.1.0");
    for client in [
        BinancePublicClient::with_rest_base("http://127.0.0.1:9/").expect("client"),
        BinancePublicClient::mainnet().expect("client"),
    ] {
        assert_eq!(client.settings().timeout_secs, 10);
        assert_eq!(client.settings().user_agent, "quanthelm/0.1.0");
    }
}

#[test]
fn stream_names_use_only_stream_characters() {
    let pairs = vec![(Symbol::new("1000PEPE_USDT").expect("valid symbol"), Interval::H1)];
    let supervisor = KlineStreamSupervisor::new(&pairs).expect("supervisor");
    assert_eq!(supervisor.streams(), &vec!["1000pepe_usdt@kline_1h".to_owned()]);
    assert!(combined_stream_url(WebSocketCategory::Market, supervisor.streams()).is_ok());
}
