//! Binance exchange metadata and request models.

use vstd::prelude::*;
use vstd::string::*;

use crate::binance::error::{invalid_request, BinanceError};
use crate::binance::filters::SymbolRules;
use crate::domain::Symbol;
use crate::market_data::{Interval, RawEvent};
use crate::text::{owned, same_text};
use crate::time::Timestamp;

verus! {

/// Contract classification.
#[derive(Debug, Clone, PartialEq, Eq)]
pub enum ContractType {
    /// Perpetual futures contract.
    Perpetual,
    /// Any supported-but-not-yet-modeled contract value.
    Other(String),
}

/// The classification a contract-type text names.
pub open spec fn contract_type_of(text: Seq<char>, t: ContractType) -> bool {
    if text == "PERPETUAL"@ {
        t is Perpetual
    } else {
        t matches ContractType::Other(s) && s@ == text
    }
}

impl From<String> for ContractType {
    /// Classifies exchange text: `PERPETUAL`, or any other value kept as is.
    fn from(value: String) -> (t: ContractType) {
        if same_text(value.as_str(), "PERPETUAL") {
            ContractType::Perpetual
        } else {
            ContractType::Other(value)
        }
    }
}

impl vstd::std_specs::convert::FromSpecImpl<String> for ContractType {
    open spec fn obeys_from_spec() -> bool {
        true
    }

    open spec fn from_spec(v: String) -> ContractType {
        if v@ == "PERPETUAL"@ {
            ContractType::Perpetual
        } else {
            ContractType::Other(v)
        }
    }
}

impl ContractType {
    /// The classification is `Perpetual`.
    pub(crate) fn is_perpetual(&self) -> (b: bool)
        ensures
            b == (*self is Perpetual),
    {
        match self {
            ContractType::Perpetual => true,
            _ => false,
        }
    }
}

/// Trading status reported by exchange metadata.
#[derive(Debug, Clone, PartialEq, Eq)]
pub enum ContractStatus {
    /// Trading enabled.
    Trading,
    /// Trading pending.
    PendingTrading,
    /// Trading halt.
    TradingHalt,
    /// Cancellations only.
    TradingCancelOnly,
    /// Any supported-but-not-yet-modeled value.
    Other(String),
}

/// The status a status text names.
pub open spec fn contract_status_of(text: Seq<char>, s: ContractStatus) -> bool {
    if text == "TRADING"@ {
        s is Trading
    } else if text == "PENDING_TRADING"@ {
        s is PendingTrading
    } else if text == "TRADING_HALT"@ {
        s is TradingHalt
    } else if text == "TRADING_CANCEL_ONLY"@ {
        s is TradingCancelOnly
    } else {
        s matches ContractStatus::Other(x) && x@ == text
    }
}

impl From<String> for ContractStatus {
    /// Classifies exchange status text; unknown values are kept as is.
    fn from(value: String) -> (s: ContractStatus) {
        if same_text(value.as_str(), "TRADING") {
            ContractStatus::Trading
        } else if same_text(value.as_str(), "PENDING_TRADING") {
            ContractStatus::PendingTrading
        } else if same_text(value.as_str(), "TRADING_HALT") {
            ContractStatus::TradingHalt
        } else if same_text(value.as_str(), "TRADING_CANCEL_ONLY") {
            ContractStatus::TradingCancelOnly
        } else {
            ContractStatus::Other(value)
        }
    }
}

impl vstd::std_specs::convert::FromSpecImpl<String> for ContractStatus {
    open spec fn obeys_from_spec() -> bool {
        true
    }

    open spec fn from_spec(v: String) -> ContractStatus {
        if v@ == "TRADING"@ {
            ContractStatus::Trading
        } else if v@ == "PENDING_TRADING"@ {
            ContractStatus::PendingTrading
        } else if v@ == "TRADING_HALT"@ {
            ContractStatus::TradingHalt
        } else if v@ == "TRADING_CANCEL_ONLY"@ {
            ContractStatus::TradingCancelOnly
        } else {
            ContractStatus::Other(v)
        }
    }
}

impl ContractStatus {
    /// The status is `Trading`.
    pub(crate) fn is_trading(&self) -> (b: bool)
        ensures
            b == (*self is Trading),
    {
        match self {
            ContractStatus::Trading => true,
            _ => false,
        }
    }
}

/// One USDⓈ-M contract from exchange metadata.
#[derive(Debug, Clone, PartialEq)]
pub struct ContractSpec {
    /// Contract symbol.
    pub symbol: Symbol,
    /// Contract type.
    pub contract_type: ContractType,
    /// Current exchange status.
    pub status: ContractStatus,
    /// Underlying/base asset.
    pub base_asset: String,
    /// Quote asset.
    pub quote_asset: String,
    /// Margin asset.
    pub margin_asset: String,
    /// Exchange onboarding time.
    pub onboarded_at: Timestamp,
    /// Parsed trading rules.
    pub rules: SymbolRules,
}

/// Exchange metadata snapshot.
#[derive(Debug, Clone, PartialEq)]
pub struct ExchangeInfo {
    /// Exchange server time.
    pub server_time: Timestamp,
    /// Contracts.
    pub contracts: Vec<ContractSpec>,
    /// Exact raw payload for auditing.
    pub raw_event: RawEvent,
}

/// A contract is a trading perpetual.
pub open spec fn is_trading_perpetual(c: ContractSpec) -> bool {
    c.contract_type is Perpetual && c.status is Trading
}

impl ExchangeInfo {
    /// Looks up the first contract with the given symbol.
    pub fn contract(&self, symbol: &Symbol) -> (r: Option<&ContractSpec>)
        ensures
            match r {
                Some(c) => exists|i: int|
                    0 <= i < self.contracts@.len() && self.contracts@[i] == *c && c.symbol@
                        == symbol@ && forall|j: int|
                        0 <= j < i ==> (#[trigger] self.contracts@[j]).symbol@ != symbol@,
                None => forall|j: int|
                    0 <= j < self.contracts@.len() ==> (#[trigger] self.contracts@[j]).symbol@
                        != symbol@,
            },
    {
        let mut i: usize = 0;
        while i < self.contracts.len()
            invariant
                i <= self.contracts@.len(),
                forall|j: int| 0 <= j < i ==> (#[trigger] self.contracts@[j]).symbol@ != symbol@,
            decreases self.contracts@.len() - i,
        {
            if self.contracts[i].symbol.same(symbol) {
                return Some(&self.contracts[i]);
            }
            i = i + 1;
        }
        None
    }

    /// Returns the trading perpetual contracts, in metadata order.
    pub fn trading_perpetuals(&self) -> (r: Vec<&ContractSpec>)
        ensures
            r@.map_values(|c: &ContractSpec| *c) == self.contracts@.filter(
                |c: ContractSpec| is_trading_perpetual(c),
            ),
            forall|i: int|
                0 <= i < r@.len() ==> (#[trigger] r@[i]).contract_type is Perpetual
                    && r@[i].status is Trading && self.contracts@.contains(*r@[i]),
            forall|j: int|
                0 <= j < self.contracts@.len() && (#[trigger] self.contracts@[j]).contract_type is Perpetual
                    && self.contracts@[j].status is Trading ==> r@.map_values(
                    |c: &ContractSpec| *c,
                ).contains(self.contracts@[j]),
    {
        let mut out: Vec<&ContractSpec> = Vec::new();
        let mut i: usize = 0;
        while i < self.contracts.len()
            invariant
                i <= self.contracts@.len(),
                out@.map_values(|c: &ContractSpec| *c) == self.contracts@.subrange(0, i as int).filter(
                    |c: ContractSpec| is_trading_perpetual(c),
                ),
            decreases self.contracts@.len() - i,
        {
            let c = &self.contracts[i];
            let ghost before = self.contracts@.subrange(0, i as int);
            proof {
                assert(self.contracts@.subrange(0, i + 1).drop_last() =~= before);
                reveal_with_fuel(Seq::filter, 1);
            }
            if c.contract_type.is_perpetual() && c.status.is_trading() {
                out.push(c);
            }
            proof {
                assert(out@.map_values(|c: &ContractSpec| *c) =~= self.contracts@.subrange(0, i + 1).filter(
                    |c: ContractSpec| is_trading_perpetual(c),
                ));
            }
            i = i + 1;
        }
        proof {
            assert(self.contracts@.subrange(0, self.contracts@.len() as int) =~= self.contracts@);
            let listed = out@.map_values(|c: &ContractSpec| *c);
            lemma_listed_contracts_are_trading_perpetuals(self.contracts@, listed);
            assert forall|i: int| 0 <= i < out@.len() implies (#[trigger] out@[i]).contract_type is Perpetual
                && out@[i].status is Trading && self.contracts@.contains(*out@[i]) by {
                assert(listed[i] == *out@[i]);
            }
        }
        out
    }
}

/// `trading_perpetuals` lists exactly the contracts that are perpetual and trading: every
/// listed contract comes from the metadata, has contract type `PERPETUAL` and status
/// `TRADING`, and every such contract of the metadata is listed.
pub proof fn lemma_listed_contracts_are_trading_perpetuals(
    contracts: Seq<ContractSpec>,
    listed: Seq<ContractSpec>,
)
    requires
        listed == contracts.filter(|c: ContractSpec| is_trading_perpetual(c)),
    ensures
        forall|i: int|
            0 <= i < listed.len() ==> (#[trigger] listed[i]).contract_type is Perpetual
                && listed[i].status is Trading && contracts.contains(listed[i]),
        forall|j: int|
            0 <= j < contracts.len() && (#[trigger] contracts[j]).contract_type is Perpetual
                && contracts[j].status is Trading ==> listed.contains(contracts[j]),
{
    let pred = |c: ContractSpec| is_trading_perpetual(c);
    contracts.filter_lemma(pred);
    assert forall|i: int| 0 <= i < listed.len() implies contracts.contains(#[trigger] listed[i]) by {
        lemma_filtered_member_is_member(contracts, pred, i);
    }
}

proof fn lemma_filtered_member_is_member(s: Seq<ContractSpec>, pred: spec_fn(ContractSpec) -> bool, i: int)
    requires
        0 <= i < s.filter(pred).len(),
    ensures
        s.contains(s.filter(pred)[i]),
    decreases s.len(),
{
    reveal(Seq::filter);
    if s.len() > 0 {
        let rest = s.drop_last().filter(pred);
        if i < rest.len() {
            lemma_filtered_member_is_member(s.drop_last(), pred, i);
            let k = choose|k: int| 0 <= k < s.drop_last().len() && s.drop_last()[k] == rest[i];
            assert(s[k] == s.filter(pred)[i]);
        } else {
            assert(s.filter(pred)[i] == s.last());
            assert(s[s.len() - 1] == s.last());
        }
    }
}

/// Kline REST request.
#[derive(Debug, Clone)]
pub struct KlineRequest {
    /// Contract symbol.
    pub symbol: Symbol,
    /// Supported interval.
    pub interval: Interval,
    /// Optional inclusive start in milliseconds.
    pub start_time_ms: Option<i64>,
    /// Optional inclusive end in milliseconds.
    pub end_time_ms: Option<i64>,
    /// Number of candles, 1 through 1500.
    pub limit: u16,
}

/// The start does not come after the end (when both are given).
pub open spec fn time_range_ordered(r: KlineRequest) -> bool {
    match (r.start_time_ms, r.end_time_ms) {
        (Some(s), Some(e)) => s <= e,
        _ => true,
    }
}

impl KlineRequest {
    /// Validates endpoint constraints.
    pub fn validate(&self) -> (r: Result<(), BinanceError>)
        ensures
            r is Ok <==> (1 <= self.limit <= 1500 && time_range_ordered(*self)),
            !(1 <= self.limit <= 1500) ==> (r matches Err(e) && invalid_request(
                e,
                "kline limit must be between 1 and 1500"@,
            )),
            1 <= self.limit <= 1500 && !time_range_ordered(*self) ==> (r matches Err(e)
                && invalid_request(e, "start_time_ms must not exceed end_time_ms"@)),
    {
        if !(1 <= self.limit && self.limit <= 1500) {
            return Err(BinanceError::InvalidRequest(owned("kline limit must be between 1 and 1500")));
        }
        match (self.start_time_ms, self.end_time_ms) {
            (Some(start), Some(end)) => if start > end {
                return Err(
                    BinanceError::InvalidRequest(owned("start_time_ms must not exceed end_time_ms")),
                );
            },
            _ => {},
        }
        Ok(())
    }
}

} // verus!
