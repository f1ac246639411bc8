use quanthelm::decimal::Decimal;
use quanthelm::domain::{
    ApprovedOrder, DomainError, IntentId, OrderIntent, OrderStyle, PositionEffect, Price, Quantity,
    Side, StrategyId, Symbol,
};
use quanthelm::time::Timestamp;

fn now() -> Timestamp {
    Timestamp::from_millis(chrono::Utc::now().timestamp_millis()).expect("current time")
}

fn order(style: OrderStyle, limit_price: Option<Price>) -> OrderIntent {
    OrderIntent {
        id: IntentId::new(),
        strategy_id: StrategyId::new(),
        symbol: Symbol::new("BTCUSDT").expect("valid symbol"),
        side: Side::Buy,
        position_effect: PositionEffect::Open,
        style,
        quantity: Quantity::new(Decimal::one()).expect("positive quantity"),
        limit_price,
        reason: "test".to_owned(),
        created_at: now(),
        expires_at: None,
    }
}

#[test]
fn symbol_rejects_lowercase() {
    assert!(Symbol::new("btcusdt").is_err());
}

#[test]
fn positive_types_reject_zero() {
    assert!(Price::new(Decimal::zero()).is_err());
    assert!(Quantity::new(Decimal::zero()).is_err());
}

#[test]
fn limit_order_requires_price() {
    let intent = order(OrderStyle::Limit, None);
    assert_eq!(intent.validate(), Err(DomainError::MissingLimitPrice));
}

#[test]
fn symbol_accepts_uppercase_and_digits_only() {
    let symbol = Symbol::new("BTCUSDT").expect("valid symbol");
    assert_eq!(symbol.as_str(), "BTCUSDT");
    assert!(Symbol::new("1000PEPEUSDT").is_ok());
    assert!(Symbol::new("").is_err());
    assert!(Symbol::new("BTC-USDT").is_err());
    assert!(Symbol::new("BTC USDT").is_err());
    let long = "A".repeat(33);
    assert!(Symbol::new(&long).is_err());
    assert!(Symbol::new(&"A".repeat(32)).is_ok());
    assert_eq!(
        Symbol::new("btcusdt"),
        Err(DomainError::InvalidIdentifier("btcusdt".to_owned()))
    );
}

#[test]
fn symbol_parses_from_text() {
    let parsed: Symbol = "ETHUSDT".parse().expect("valid symbol");
    assert_eq!(parsed.as_str(), "ETHUSDT");
    assert!("ethusdt".parse::<Symbol>().is_err());
}

#[test]
fn positive_types_keep_their_value() {
    let price = Price::new(Decimal::new(12_345, 2)).expect("positive price");
    assert_eq!(price.value(), Decimal::new(12_345, 2));
    assert!(Price::new(Decimal::new(-1, 0)).is_err());
    let quantity = Quantity::new(Decimal::new(5, 3)).expect("positive quantity");
    assert_eq!(quantity.value(), Decimal::new(5, 3));
}

#[test]
fn non_positive_error_names_field_and_value() {
    let error = Price::new(Decimal::zero()).expect_err("zero price");
    assert_eq!(error.message(), "price must be positive, got 0");
    let error = Quantity::new(Decimal::new(-15, 1)).expect_err("negative quantity");
    assert_eq!(error.message(), "quantity must be positive, got -1.5");
}

#[test]
fn domain_error_messages() {
    assert_eq!(
        DomainError::InvalidIdentifier("x".to_owned()).message(),
        "invalid identifier: x"
    );
    assert_eq!(
        DomainError::MissingLimitPrice.message(),
        "limit order requires a price"
    );
}

#[test]
fn valid_orders_pass_validation() {
    assert_eq!(order(OrderStyle::Market, None).validate(), Ok(()));
    let price = Price::new(Decimal::from_int(100)).expect("positive price");
    assert_eq!(order(OrderStyle::Limit, Some(price)).validate(), Ok(()));
}

#[test]
fn approved_order_keeps_intent_and_time() {
    let intent = order(OrderStyle::Market, None);
    let at = Timestamp::from_millis(1_720_000_000_000).expect("valid timestamp");
    let approved = ApprovedOrder::new(intent.clone(), at);
    assert_eq!(approved.intent, intent);
    assert_eq!(approved.approved_at, at);
}

#[test]
fn identifiers_are_random() {
    assert_ne!(IntentId::new(), IntentId::new());
    assert_ne!(StrategyId::new(), StrategyId::new());
}

#[test]
fn identifiers_are_version_4_uuids() {
    const MASK: u128 = 0xF000_C000_0000_0000_0000;
    const V4: u128 = 0x4000_8000_0000_0000_0000;
    for _ in 0..16 {
        assert_eq!(IntentId::new().0 & MASK, V4);
        assert_eq!(StrategyId::new().0 & MASK, V4);
        let text = uuid::Uuid::from_u128(IntentId::new().0).to_string();
        assert_eq!(&text[14..15], "4");
    }
}
