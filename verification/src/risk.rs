//! Deterministic, fail-closed order risk gate.

use vstd::prelude::*;
use vstd::string::*;

use crate::config::{limit_error, limit_violation, risk_limits_valid, ConfigError, RiskConfig};
use crate::decimal::{
    decimal_product, decimal_quotient, decimal_sum, decimal_text, exp, is_pos, mant, value_le,
    value_lt, Decimal,
};
use crate::domain::{
    domain_error_message, intent_valid, ApprovedOrder, IntentId, OrderIntent, OrderStyle,
    PositionEffect,
};
use crate::text::{concat3, concat4, owned};
use crate::time::{utc_now, Timestamp};

verus! {

/// Global risk operating state.
#[derive(Debug, Clone, Copy, PartialEq, Eq, Structural)]
pub enum RiskState {
    /// Normal operation.
    Normal,
    /// Reduced capability; callers may apply stricter limits.
    Degraded,
    /// Only exposure-reducing actions are allowed.
    ReduceOnly,
    /// Strategy orders are blocked.
    Halted,
    /// A pre-approved emergency reduction procedure is active.
    EmergencyExit,
}

/// The name a state is rendered with.
pub open spec fn risk_state_name(s: RiskState) -> Seq<char> {
    match s {
        RiskState::Normal => "Normal"@,
        RiskState::Degraded => "Degraded"@,
        RiskState::ReduceOnly => "ReduceOnly"@,
        RiskState::Halted => "Halted"@,
        RiskState::EmergencyExit => "EmergencyExit"@,
    }
}

impl RiskState {
    /// The name the state is rendered with.
    pub fn name(self) -> (s: &'static str)
        ensures
            s@ == risk_state_name(self),
    {
        match self {
            RiskState::Normal => "Normal",
            RiskState::Degraded => "Degraded",
            RiskState::ReduceOnly => "ReduceOnly",
            RiskState::Halted => "Halted",
            RiskState::EmergencyExit => "EmergencyExit",
        }
    }
}

/// States in which no new exposure may be opened.
pub open spec fn blocks_new_exposure(s: RiskState) -> bool {
    s == RiskState::ReduceOnly || s == RiskState::Halted || s == RiskState::EmergencyExit
}

/// The state blocks this intent: `Halted` blocks every strategy order, and the other
/// blocking states block intents that open exposure.
pub open spec fn state_blocks(s: RiskState, intent: OrderIntent) -> bool {
    s == RiskState::Halted || (opens(intent) && blocks_new_exposure(s))
}

/// Stable machine-readable rejection reason.
#[derive(Debug, Clone, Copy, PartialEq, Eq, Structural)]
pub enum RiskCode {
    /// Intent itself is invalid.
    InvalidIntent,
    /// Account equity is missing or non-positive.
    InvalidEquity,
    /// System state does not permit the action.
    StateBlocked,
    /// Market data is too old or incomplete.
    StaleMarketData,
    /// Daily loss threshold has been reached.
    DailyLossLimit,
    /// Drawdown threshold has been reached.
    DrawdownLimit,
    /// Projected gross leverage is too high.
    GrossLeverageLimit,
}

/// Account-level inputs required by the baseline gate.
#[derive(Debug, Clone, PartialEq)]
pub struct AccountRiskSnapshot {
    /// Current account equity.
    pub equity: Decimal,
    /// Existing gross position notional.
    pub gross_notional: Decimal,
    /// Signed daily PnL fraction; a loss is negative.
    pub daily_pnl_fraction: Decimal,
    /// Positive peak-to-current drawdown fraction.
    pub drawdown_fraction: Decimal,
}

/// Inputs whose freshness must be established outside the strategy.
#[derive(Debug, Clone, PartialEq)]
pub struct MarketRiskSnapshot {
    /// Mark price used for notional calculations.
    pub mark_price: crate::domain::Price,
    /// True only when all required inputs satisfy configured freshness thresholds.
    pub is_fresh: bool,
}

/// Complete deterministic risk context.
#[derive(Debug, Clone, PartialEq)]
pub struct RiskContext {
    /// Global operating state.
    pub state: RiskState,
    /// Account snapshot.
    pub account: AccountRiskSnapshot,
    /// Market snapshot for the intent symbol.
    pub market: MarketRiskSnapshot,
}

/// Result of evaluating an order intent.
#[derive(Debug, Clone, PartialEq)]
pub enum RiskDecision {
    /// Intent may proceed to execution.
    Approved(ApprovedOrder),
    /// Intent is rejected without side effects.
    Rejected {
        /// Rejected intent identifier.
        intent_id: IntentId,
        /// Machine-readable code.
        code: RiskCode,
        /// Human-readable explanation.
        reason: String,
    },
}

/// Projected gross leverage, `(gross + quantity * mark) / equity`, as computed by
/// `rust_decimal`; `None` when a step overflows.
pub open spec fn projected_leverage(ctx: RiskContext, intent: OrderIntent) -> Option<(int, int)> {
    match decimal_product(intent.quantity@, ctx.market.mark_price@) {
        Some(added) => match decimal_sum(ctx.account.gross_notional@, added) {
            Some(gross) => decimal_quotient(gross, ctx.account.equity@),
            None => None,
        },
        None => None,
    }
}

/// The intent opens or increases exposure.
pub open spec fn opens(intent: OrderIntent) -> bool {
    intent.position_effect == PositionEffect::Open
}

/// The daily loss limit has been reached: `daily_pnl <= -max_daily_loss`.
pub open spec fn daily_loss_reached(limits: RiskConfig, ctx: RiskContext) -> bool {
    value_le(
        ctx.account.daily_pnl_fraction@,
        (-mant(limits.max_daily_loss_fraction@), exp(limits.max_daily_loss_fraction@) as int),
    )
}

/// The drawdown limit has been reached: `drawdown >= max_drawdown`.
pub open spec fn drawdown_reached(limits: RiskConfig, ctx: RiskContext) -> bool {
    value_le(limits.max_drawdown_fraction@, ctx.account.drawdown_fraction@)
}

/// Every check before the leverage check passes for an opening intent.
pub open spec fn reaches_leverage_check(
    limits: RiskConfig,
    ctx: RiskContext,
    intent: OrderIntent,
) -> bool {
    &&& intent_valid(intent)
    &&& is_pos(ctx.account.equity@)
    &&& opens(intent)
    &&& !blocks_new_exposure(ctx.state)
    &&& ctx.market.is_fresh
    &&& !daily_loss_reached(limits, ctx)
    &&& !drawdown_reached(limits, ctx)
}

/// The projected leverage can be computed without an arithmetic overflow in `rust_decimal`
/// wherever the decision needs it; where it cannot, the intent is rejected.
pub open spec fn evaluation_defined(
    limits: RiskConfig,
    ctx: RiskContext,
    intent: OrderIntent,
) -> bool {
    reaches_leverage_check(limits, ctx, intent) ==> projected_leverage(ctx, intent) is Some
}

/// The rejection code the risk gate gives, checked in this order; `None` approves.
pub open spec fn expected_code(limits: RiskConfig, ctx: RiskContext, intent: OrderIntent) -> Option<
    RiskCode,
> {
    if !intent_valid(intent) {
        Some(RiskCode::InvalidIntent)
    } else if !is_pos(ctx.account.equity@) {
        Some(RiskCode::InvalidEquity)
    } else if state_blocks(ctx.state, intent) {
        Some(RiskCode::StateBlocked)
    } else if opens(intent) && !ctx.market.is_fresh {
        Some(RiskCode::StaleMarketData)
    } else if opens(intent) && daily_loss_reached(limits, ctx) {
        Some(RiskCode::DailyLossLimit)
    } else if opens(intent) && drawdown_reached(limits, ctx) {
        Some(RiskCode::DrawdownLimit)
    } else if opens(intent) && projected_leverage(ctx, intent) is None {
        Some(RiskCode::GrossLeverageLimit)
    } else if opens(intent) && value_lt(
        limits.max_gross_leverage@,
        projected_leverage(ctx, intent).unwrap(),
    ) {
        Some(RiskCode::GrossLeverageLimit)
    } else {
        None
    }
}

/// The explanation given with a rejection code.
pub open spec fn expected_reason(
    limits: RiskConfig,
    ctx: RiskContext,
    intent: OrderIntent,
    code: RiskCode,
) -> Seq<char> {
    match code {
        RiskCode::InvalidIntent => if intent.style == OrderStyle::Limit && intent.limit_price is None {
            "limit order requires a price"@
        } else {
            "invalid identifier: "@ + "empty reason"@
        },
        RiskCode::InvalidEquity => "account equity must be positive"@,
        RiskCode::StateBlocked => if opens(intent) {
            "risk state "@ + risk_state_name(ctx.state) + " blocks new exposure"@
        } else {
            "risk state "@ + risk_state_name(ctx.state) + " blocks strategy orders"@
        },
        RiskCode::StaleMarketData => "market data is not fresh"@,
        RiskCode::DailyLossLimit => "daily loss limit reached"@,
        RiskCode::DrawdownLimit => "maximum drawdown limit reached"@,
        RiskCode::GrossLeverageLimit => match projected_leverage(ctx, intent) {
            Some(lev) => "projected gross leverage "@ + decimal_text(lev) + " exceeds "@
                + decimal_text(limits.max_gross_leverage@),
            None => "projected gross leverage cannot be computed"@,
        },
    }
}

/// The decision the risk gate gives for an intent at a given approval time.
pub open spec fn gate_decides(
    limits: RiskConfig,
    ctx: RiskContext,
    intent: OrderIntent,
    now: Timestamp,
    d: RiskDecision,
) -> bool {
    match expected_code(limits, ctx, intent) {
        None => d == RiskDecision::Approved(ApprovedOrder { intent, approved_at: now }),
        Some(code) => d matches RiskDecision::Rejected { intent_id, code: c, reason } && intent_id
            == intent.id && c == code && reason@ == expected_reason(limits, ctx, intent, code),
    }
}

/// Fail-closed risk gate.
#[derive(Debug)]
pub struct RiskGate {
    limits: RiskConfig,
}

impl Clone for RiskGate {
    fn clone(&self) -> (g: RiskGate)
        ensures
            g.limits() == self.limits(),
    {
        proof {
            use_type_invariant(self);
        }
        RiskGate { limits: self.limits }
    }
}

/// What the risk gate found: `None` approves, otherwise a code and explanation.
type Finding = Option<(RiskCode, String)>;

impl RiskGate {
    #[verifier::type_invariant]
    closed spec fn inv(self) -> bool {
        risk_limits_valid(self.limits)
    }

    /// The risk gate's hard limits.
    pub closed spec fn limits(self) -> RiskConfig {
        self.limits
    }

    /// Creates a gate after validating hard limits.
    pub fn new(limits: RiskConfig) -> (r: Result<RiskGate, ConfigError>)
        ensures
            r is Ok <==> risk_limits_valid(limits),
            r matches Ok(g) ==> g.limits() == limits,
            r matches Err(e) ==> limit_error(e, limit_violation(limits)),
    {
        match limits.validate() {
            Ok(()) => Ok(RiskGate { limits }),
            Err(e) => Err(e),
        }
    }

    fn find(&self, ctx: &RiskContext, intent: &OrderIntent) -> (f: Finding)
        ensures
            match expected_code(self.limits(), *ctx, *intent) {
                None => f is None,
                Some(code) => f matches Some((c, reason)) && c == code && reason@
                    == expected_reason(self.limits(), *ctx, *intent, code),
            },
    {
        if let Err(error) = intent.validate() {
            return Some((RiskCode::InvalidIntent, error.message()));
        }
        if !ctx.account.equity.is_positive() {
            return Some((RiskCode::InvalidEquity, owned("account equity must be positive")));
        }
        let opens_exposure = match intent.position_effect {
            PositionEffect::Open => true,
            PositionEffect::Reduce => false,
        };
        let halted = match ctx.state {
            RiskState::Halted => true,
            _ => false,
        };
        let blocked = match ctx.state {
            RiskState::ReduceOnly | RiskState::Halted | RiskState::EmergencyExit => true,
            _ => false,
        };
        if opens_exposure && blocked {
            let reason = concat3("risk state ", ctx.state.name(), " blocks new exposure");
            return Some((RiskCode::StateBlocked, reason));
        }
        if halted {
            let reason = concat3("risk state ", ctx.state.name(), " blocks strategy orders");
            return Some((RiskCode::StateBlocked, reason));
        }
        if opens_exposure && !ctx.market.is_fresh {
            return Some((RiskCode::StaleMarketData, owned("market data is not fresh")));
        }
        let neg_limit = self.limits.max_daily_loss_fraction.negate();
        if opens_exposure && ctx.account.daily_pnl_fraction.le(&neg_limit) {
            return Some((RiskCode::DailyLossLimit, owned("daily loss limit reached")));
        }
        if opens_exposure && self.limits.max_drawdown_fraction.le(&ctx.account.drawdown_fraction) {
            return Some((RiskCode::DrawdownLimit, owned("maximum drawdown limit reached")));
        }
        if opens_exposure {
            let failure = owned("projected gross leverage cannot be computed");
            let added = match intent.quantity.value().checked_mul(&ctx.market.mark_price.value()) {
                Some(v) => v,
                None => return Some((RiskCode::GrossLeverageLimit, failure)),
            };
            let projected_gross = match ctx.account.gross_notional.checked_add(&added) {
                Some(v) => v,
                None => return Some((RiskCode::GrossLeverageLimit, failure)),
            };
            let projected_leverage = match projected_gross.checked_div(&ctx.account.equity) {
                Some(v) => v,
                None => return Some((RiskCode::GrossLeverageLimit, failure)),
            };
            if self.limits.max_gross_leverage.lt(&projected_leverage) {
                let a = projected_leverage.to_text();
                let b = self.limits.max_gross_leverage.to_text();
                let reason = concat4("projected gross leverage ", a.as_str(), " exceeds ", b.as_str());
                return Some((RiskCode::GrossLeverageLimit, reason));
            }
        }
        None
    }

    /// Evaluates an intent without mutating account state, approving at time `now`.
    /// An intent whose projected leverage cannot be computed is rejected.
    pub fn evaluate_at(&self, context: &RiskContext, intent: OrderIntent, now: Timestamp) -> (d:
        RiskDecision)
        ensures
            gate_decides(self.limits(), *context, intent, now, d),
    {
        let finding = self.find(context, &intent);
        match finding {
            Some((code, reason)) => RiskDecision::Rejected { intent_id: intent.id, code, reason },
            None => RiskDecision::Approved(ApprovedOrder::new(intent, now)),
        }
    }

    /// Evaluates an intent without mutating account state, approving at the current time.
    /// An intent whose projected leverage cannot be computed is rejected.
    pub fn evaluate(&self, context: &RiskContext, intent: OrderIntent) -> (d: RiskDecision)
        ensures
            exists|now: Timestamp| gate_decides(self.limits(), *context, intent, now, d),
    {
        let now = utc_now();
        self.evaluate_at(context, intent, now)
    }
}

/// An approved decision is always for a valid intent on an account with positive equity,
/// and it carries the evaluated intent unchanged.
pub proof fn lemma_approval_requires_valid_intent_and_equity(
    limits: RiskConfig,
    ctx: RiskContext,
    intent: OrderIntent,
    now: Timestamp,
    d: RiskDecision,
)
    requires
        gate_decides(limits, ctx, intent, now, d),
        d is Approved,
    ensures
        intent_valid(intent),
        is_pos(ctx.account.equity@),
        d->Approved_0.intent == intent,
{
}

/// In `ReduceOnly`, `Halted` and `EmergencyExit`, every intent that opens exposure is rejected.
pub proof fn lemma_blocking_states_reject_new_exposure(
    limits: RiskConfig,
    ctx: RiskContext,
    intent: OrderIntent,
    now: Timestamp,
    d: RiskDecision,
)
    requires
        gate_decides(limits, ctx, intent, now, d),
        blocks_new_exposure(ctx.state),
        opens(intent),
    ensures
        d is Rejected,
{
}

/// Stale market data rejects every intent that opens exposure.
pub proof fn lemma_stale_data_rejects_new_exposure(
    limits: RiskConfig,
    ctx: RiskContext,
    intent: OrderIntent,
    now: Timestamp,
    d: RiskDecision,
)
    requires
        gate_decides(limits, ctx, intent, now, d),
        !ctx.market.is_fresh,
        opens(intent),
    ensures
        d is Rejected,
{
}

/// A valid exposure-reducing intent on an account with positive equity is approved in
/// every risk state but `Halted`, whatever the market data, losses or leverage.
pub proof fn lemma_reductions_always_allowed(
    limits: RiskConfig,
    ctx: RiskContext,
    intent: OrderIntent,
    now: Timestamp,
    d: RiskDecision,
)
    requires
        gate_decides(limits, ctx, intent, now, d),
        intent.position_effect == PositionEffect::Reduce,
        intent_valid(intent),
        is_pos(ctx.account.equity@),
        ctx.state != RiskState::Halted,
    ensures
        d == RiskDecision::Approved(ApprovedOrder { intent, approved_at: now }),
{
}

/// `Halted` blocks every strategy order: every intent is rejected, and a valid one on an
/// account with positive equity is rejected as state-blocked, whether it opens or reduces.
pub proof fn lemma_halted_blocks_every_order(
    limits: RiskConfig,
    ctx: RiskContext,
    intent: OrderIntent,
    now: Timestamp,
    d: RiskDecision,
)
    requires
        gate_decides(limits, ctx, intent, now, d),
        ctx.state == RiskState::Halted,
    ensures
        d matches RiskDecision::Rejected { intent_id, .. } && intent_id == intent.id,
        intent_valid(intent) && is_pos(ctx.account.equity@) ==> d->Rejected_code
            == RiskCode::StateBlocked,
{
}

/// A risk-engine failure rejects the order: where the projected leverage of an intent
/// that reaches the leverage check cannot be computed, the intent is rejected.
pub proof fn lemma_engine_failure_rejects(
    limits: RiskConfig,
    ctx: RiskContext,
    intent: OrderIntent,
    now: Timestamp,
    d: RiskDecision,
)
    requires
        gate_decides(limits, ctx, intent, now, d),
        !evaluation_defined(limits, ctx, intent),
    ensures
        d matches RiskDecision::Rejected { intent_id, code, .. } && intent_id == intent.id && code
            == RiskCode::GrossLeverageLimit,
{
}

/// An approved opening intent respects every hard limit: the state allows new exposure,
/// market data is fresh, the daily loss and drawdown limits are not reached, and the
/// projected gross leverage does not exceed the maximum.
pub proof fn lemma_approved_opening_respects_limits(
    limits: RiskConfig,
    ctx: RiskContext,
    intent: OrderIntent,
    now: Timestamp,
    d: RiskDecision,
)
    requires
        gate_decides(limits, ctx, intent, now, d),
        d is Approved,
        opens(intent),
    ensures
        !blocks_new_exposure(ctx.state),
        ctx.market.is_fresh,
        !daily_loss_reached(limits, ctx),
        !drawdown_reached(limits, ctx),
        projected_leverage(ctx, intent) matches Some(lev) && value_le(lev, limits.max_gross_leverage@),
{
}

/// The leverage limit counts the exposure already held. An opening intent that reaches
/// the leverage check is approved exactly when the projected leverage, the account's
/// gross notional plus quantity times mark price, divided by equity (each step taken with
/// `rust_decimal`'s checked arithmetic), exists and is at most the limit; otherwise it is
/// rejected with `GrossLeverageLimit`.
pub proof fn lemma_leverage_counts_existing_exposure(
    limits: RiskConfig,
    ctx: RiskContext,
    intent: OrderIntent,
    now: Timestamp,
    d: RiskDecision,
)
    requires
        gate_decides(limits, ctx, intent, now, d),
        intent_valid(intent),
        is_pos(ctx.account.equity@),
        intent.position_effect == PositionEffect::Open,
        ctx.state == RiskState::Normal || ctx.state == RiskState::Degraded,
        ctx.market.is_fresh,
        !daily_loss_reached(limits, ctx),
        !drawdown_reached(limits, ctx),
    ensures
        (d is Approved) == match decimal_product(intent.quantity@, ctx.market.mark_price@) {
            Some(added) => match decimal_sum(ctx.account.gross_notional@, added) {
                Some(gross) => match decimal_quotient(gross, ctx.account.equity@) {
                    Some(leverage) => value_le(leverage, limits.max_gross_leverage@),
                    None => false,
                },
                None => false,
            },
            None => false,
        },
        d is Rejected ==> d->Rejected_code == RiskCode::GrossLeverageLimit && d->Rejected_intent_id
            == intent.id,
{
}

/// The risk gate is deterministic: the same limits, context, intent and approval time always
/// give the same decision.
pub proof fn lemma_gate_is_deterministic(
    limits: RiskConfig,
    ctx: RiskContext,
    intent: OrderIntent,
    now: Timestamp,
    d1: RiskDecision,
    d2: RiskDecision,
)
    requires
        gate_decides(limits, ctx, intent, now, d1),
        gate_decides(limits, ctx, intent, now, d2),
    ensures
        d1 is Approved <==> d2 is Approved,
        d1 is Approved ==> d1 == d2,
        d1 is Rejected ==> d1->Rejected_code == d2->Rejected_code && d1->Rejected_intent_id
            == d2->Rejected_intent_id && d1->Rejected_reason@ == d2->Rejected_reason@,
{
}

} // verus!
