use quanthelm::config::{ConfigError, RiskConfig};
use quanthelm::decimal::Decimal;
use quanthelm::domain::{
    ApprovedOrder, IntentId, OrderIntent, OrderStyle, PositionEffect, Price, Quantity, Side,
    StrategyId, Symbol,
};
use quanthelm::risk::{
    AccountRiskSnapshot, MarketRiskSnapshot, RiskCode, RiskContext, RiskDecision, RiskGate,
    RiskState,
};
use quanthelm::time::Timestamp;

fn now() -> Timestamp {
    Timestamp::from_millis(chrono::Utc::now().timestamp_millis()).expect("current time")
}

fn intent(effect: PositionEffect, quantity: Decimal) -> OrderIntent {
    OrderIntent {
        id: IntentId::new(),
        strategy_id: StrategyId::new(),
        symbol: Symbol::new("BTCUSDT").expect("valid symbol"),
        side: Side::Buy,
        position_effect: effect,
        style: OrderStyle::Market,
        quantity: Quantity::new(quantity).expect("positive quantity"),
        limit_price: None,
        reason: "risk-test".to_owned(),
        created_at: now(),
        expires_at: None,
    }
}

fn context(state: RiskState) -> RiskContext {
    RiskContext {
        state,
        account: AccountRiskSnapshot {
            equity: Decimal::from_int(1_000),
            gross_notional: Decimal::zero(),
            daily_pnl_fraction: Decimal::zero(),
            drawdown_fraction: Decimal::zero(),
        },
        market: MarketRiskSnapshot {
            mark_price: Price::new(Decimal::from_int(100)).expect("positive price"),
            is_fresh: true,
        },
    }
}

fn gate() -> RiskGate {
    RiskGate::new(RiskConfig::default()).expect("valid defaults")
}

fn rejection(decision: &RiskDecision) -> (RiskCode, String) {
    match decision {
        RiskDecision::Rejected { code, reason, .. } => (*code, reason.clone()),
        RiskDecision::Approved(_) => panic!("expected a rejection"),
    }
}

#[test]
fn normal_state_approves_small_order() {
    let decision = gate().evaluate(
        &context(RiskState::Normal),
        intent(PositionEffect::Open, Decimal::one()),
    );
    assert!(matches!(decision, RiskDecision::Approved(_)));
}

#[test]
fn reduce_only_blocks_opening_but_allows_reduction() {
    let gate = gate();
    let context = context(RiskState::ReduceOnly);
    assert!(matches!(
        gate.evaluate(&context, intent(PositionEffect::Open, Decimal::one())),
        RiskDecision::Rejected { code: RiskCode::StateBlocked, .. }
    ));
    assert!(matches!(
        gate.evaluate(&context, intent(PositionEffect::Reduce, Decimal::one())),
        RiskDecision::Approved(_)
    ));
}

#[test]
fn projected_leverage_is_enforced() {
    let decision = gate().evaluate(
        &context(RiskState::Normal),
        intent(PositionEffect::Open, Decimal::from_int(21)),
    );
    assert!(matches!(
        decision,
        RiskDecision::Rejected { code: RiskCode::GrossLeverageLimit, .. }
    ));
}

#[test]
fn stale_data_blocks_new_exposure() {
    let gate = gate();
    let mut context = context(RiskState::Normal);
    context.market.is_fresh = false;
    assert!(matches!(
        gate.evaluate(&context, intent(PositionEffect::Open, Decimal::one())),
        RiskDecision::Rejected { code: RiskCode::StaleMarketData, .. }
    ));
}

#[test]
fn gate_rejects_invalid_limits() {
    let limits = RiskConfig { max_gross_leverage: Decimal::from_int(6), ..RiskConfig::default() };
    assert!(matches!(
        RiskGate::new(limits),
        Err(ConfigError::InvalidRiskLimit("max_gross_leverage must be in (0, 5]"))
    ));
}

#[test]
fn approval_carries_the_intent_and_time() {
    let order = intent(PositionEffect::Open, Decimal::one());
    let now = Timestamp::from_millis(1_720_000_000_000).expect("valid timestamp");
    let decision = gate().evaluate_at(&context(RiskState::Normal), order.clone(), now);
    assert_eq!(
        decision,
        RiskDecision::Approved(ApprovedOrder { intent: order, approved_at: now })
    );
}

#[test]
fn rejections_name_the_intent_and_explain() {
    let gate = gate();
    let order = intent(PositionEffect::Open, Decimal::one());
    let id = order.id;
    let decision = gate.evaluate(&context(RiskState::Halted), order);
    match decision {
        RiskDecision::Rejected { intent_id, code, reason } => {
            assert_eq!(intent_id, id);
            assert_eq!(code, RiskCode::StateBlocked);
            assert_eq!(reason, "risk state Halted blocks new exposure");
        }
        RiskDecision::Approved(_) => panic!("halted state must reject"),
    }
}

#[test]
fn each_check_gives_its_code() {
    let gate = gate();

    let mut invalid = intent(PositionEffect::Open, Decimal::one());
    invalid.style = OrderStyle::Limit;
    let (code, reason) = rejection(&gate.evaluate(&context(RiskState::Normal), invalid));
    assert_eq!(code, RiskCode::InvalidIntent);
    assert_eq!(reason, "limit order requires a price");

    let mut no_reason = intent(PositionEffect::Reduce, Decimal::one());
    no_reason.reason = "   ".to_owned();
    let (code, reason) = rejection(&gate.evaluate(&context(RiskState::Normal), no_reason));
    assert_eq!(code, RiskCode::InvalidIntent);
    assert_eq!(reason, "invalid identifier: empty reason");

    let mut broke = context(RiskState::Normal);
    broke.account.equity = Decimal::zero();
    let (code, reason) =
        rejection(&gate.evaluate(&broke, intent(PositionEffect::Reduce, Decimal::one())));
    assert_eq!(code, RiskCode::InvalidEquity);
    assert_eq!(reason, "account equity must be positive");

    let mut losing = context(RiskState::Normal);
    losing.account.daily_pnl_fraction = Decimal::new(-2, 2);
    let (code, reason) =
        rejection(&gate.evaluate(&losing, intent(PositionEffect::Open, Decimal::one())));
    assert_eq!(code, RiskCode::DailyLossLimit);
    assert_eq!(reason, "daily loss limit reached");

    let mut drawn = context(RiskState::Normal);
    drawn.account.drawdown_fraction = Decimal::new(8, 2);
    let (code, reason) =
        rejection(&gate.evaluate(&drawn, intent(PositionEffect::Open, Decimal::one())));
    assert_eq!(code, RiskCode::DrawdownLimit);
    assert_eq!(reason, "maximum drawdown limit reached");

    let (code, reason) = rejection(&gate.evaluate(
        &context(RiskState::Normal),
        intent(PositionEffect::Open, Decimal::from_int(21)),
    ));
    assert_eq!(code, RiskCode::GrossLeverageLimit);
    assert!(reason.starts_with("projected gross leverage 2.1"));
    assert!(reason.ends_with(" exceeds 2"));
}

#[test]
fn leverage_exactly_at_the_limit_is_approved() {
    let decision = gate().evaluate(
        &context(RiskState::Normal),
        intent(PositionEffect::Open, Decimal::from_int(20)),
    );
    assert!(matches!(decision, RiskDecision::Approved(_)));
}

#[test]
fn reductions_pass_every_exposure_check() {
    let gate = gate();
    let mut worst = context(RiskState::EmergencyExit);
    worst.market.is_fresh = false;
    worst.account.daily_pnl_fraction = Decimal::new(-5, 1);
    worst.account.drawdown_fraction = Decimal::new(9, 1);
    worst.account.gross_notional = Decimal::from_int(1_000_000);
    assert!(matches!(
        gate.evaluate(&worst, intent(PositionEffect::Reduce, Decimal::from_int(1_000))),
        RiskDecision::Approved(_)
    ));
    assert!(matches!(
        gate.evaluate(&worst, intent(PositionEffect::Reduce, Decimal::one())),
        RiskDecision::Approved(_)
    ));
}

#[test]
fn halted_blocks_every_strategy_order() {
    let gate = gate();
    for effect in [PositionEffect::Open, PositionEffect::Reduce] {
        let order = intent(effect, Decimal::one());
        let id = order.id;
        let decision = gate.evaluate(&context(RiskState::Halted), order);
        match &decision {
            RiskDecision::Rejected { intent_id, .. } => assert_eq!(*intent_id, id),
            RiskDecision::Approved(_) => panic!("halted state approved an order"),
        }
        let (code, reason) = rejection(&decision);
        assert_eq!(code, RiskCode::StateBlocked);
        let expected = match effect {
            PositionEffect::Open => "risk state Halted blocks new exposure",
            PositionEffect::Reduce => "risk state Halted blocks strategy orders",
        };
        assert_eq!(reason, expected);
    }
}

#[test]
fn leverage_overflow_rejects_the_order() {
    let huge = Decimal::try_from_parts(10_000_000_000_000_000_000_000_000_000, 0).expect("in range");
    let order = intent(PositionEffect::Open, huge);
    let id = order.id;
    let decision = gate().evaluate(&context(RiskState::Normal), order);
    match &decision {
        RiskDecision::Rejected { intent_id, .. } => assert_eq!(*intent_id, id),
        RiskDecision::Approved(_) => panic!("an order whose leverage overflows was approved"),
    }
    let (code, reason) = rejection(&decision);
    assert_eq!(code, RiskCode::GrossLeverageLimit);
    assert_eq!(reason, "projected gross leverage cannot be computed");
}

#[test]
fn state_names() {
    assert_eq!(RiskState::Normal.name(), "Normal");
    assert_eq!(RiskState::Degraded.name(), "Degraded");
    assert_eq!(RiskState::ReduceOnly.name(), "ReduceOnly");
    assert_eq!(RiskState::EmergencyExit.name(), "EmergencyExit");
}

#[test]
fn same_inputs_give_the_same_decision() {
    let gate = gate();
    let at = Timestamp::from_millis(1_720_000_000_000).expect("valid timestamp");
    for (state, quantity) in [(RiskState::Normal, 1), (RiskState::Halted, 1), (RiskState::Normal, 50)] {
        let order = intent(PositionEffect::Open, Decimal::from_int(quantity));
        let first = gate.evaluate_at(&context(state), order.clone(), at);
        let second = gate.evaluate_at(&context(state), order, at);
        assert_eq!(first, second);
    }
}
