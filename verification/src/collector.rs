//! Decisions and counters of the read-only Kline collector: what to do with each
//! closed candle given its continuity, and the metrics snapshot it keeps.

use vstd::prelude::*;

use crate::binance::stream::StreamLifecycle;
use crate::market_data::Continuity;
use crate::time::{utc_now, Timestamp};

verus! {

/// What ingesting one closed candle came to.
#[derive(Debug, Clone, Copy, PartialEq, Eq)]
pub enum IngestOutcome {
    /// The candle continued its stream and was stored.
    Accepted,
    /// A gap was filled from REST before the candle was stored.
    Recovered {
        /// Number of candles that were missing.
        candles: u64,
    },
    /// The candle had been seen already.
    Duplicate,
    /// The candle was older than the latest accepted one.
    OutOfOrder,
}

/// What to do with a closed candle, given its continuity.
#[derive(Debug, Clone, Copy, PartialEq, Eq)]
pub enum IngestPlan {
    /// Store the candle.
    Store,
    /// Ignore the candle: it was seen already.
    IgnoreDuplicate,
    /// Ignore the candle: it is older than the latest accepted one.
    IgnoreOutOfOrder,
    /// Fetch the missing candles, store them in order, then store the candle.
    Backfill {
        /// First missing open time.
        expected_open_time: Timestamp,
        /// Open time of the candle that revealed the gap.
        actual_open_time: Timestamp,
        /// Number of missing candles.
        missing_candles: u64,
    },
}

/// The plan that belongs to a continuity verdict.
pub open spec fn plan_for(c: Continuity) -> IngestPlan {
    match c {
        Continuity::First => IngestPlan::Store,
        Continuity::Continuous => IngestPlan::Store,
        Continuity::Duplicate => IngestPlan::IgnoreDuplicate,
        Continuity::OutOfOrder { .. } => IngestPlan::IgnoreOutOfOrder,
        Continuity::Gap { expected_open_time, actual_open_time, missing_candles } => {
            IngestPlan::Backfill { expected_open_time, actual_open_time, missing_candles }
        },
    }
}

/// The outcome reported once a plan has been carried out.
pub open spec fn outcome_of(p: IngestPlan) -> IngestOutcome {
    match p {
        IngestPlan::Store => IngestOutcome::Accepted,
        IngestPlan::IgnoreDuplicate => IngestOutcome::Duplicate,
        IngestPlan::IgnoreOutOfOrder => IngestOutcome::OutOfOrder,
        IngestPlan::Backfill { missing_candles, .. } => IngestOutcome::Recovered {
            candles: missing_candles,
        },
    }
}

/// Decides what to do with a closed candle from the gap detector's verdict.
pub fn plan_ingest(continuity: &Continuity) -> (p: IngestPlan)
    ensures
        p == plan_for(*continuity),
{
    match continuity {
        Continuity::First => IngestPlan::Store,
        Continuity::Continuous => IngestPlan::Store,
        Continuity::Duplicate => IngestPlan::IgnoreDuplicate,
        Continuity::OutOfOrder { .. } => IngestPlan::IgnoreOutOfOrder,
        Continuity::Gap { expected_open_time, actual_open_time, missing_candles } => {
            IngestPlan::Backfill {
                expected_open_time: *expected_open_time,
                actual_open_time: *actual_open_time,
                missing_candles: *missing_candles,
            }
        },
    }
}

impl IngestPlan {
    /// The outcome to report once this plan has been carried out.
    pub fn outcome(&self) -> (o: IngestOutcome)
        ensures
            o == outcome_of(*self),
    {
        match self {
            IngestPlan::Store => IngestOutcome::Accepted,
            IngestPlan::IgnoreDuplicate => IngestOutcome::Duplicate,
            IngestPlan::IgnoreOutOfOrder => IngestOutcome::OutOfOrder,
            IngestPlan::Backfill { missing_candles, .. } => IngestOutcome::Recovered {
                candles: *missing_candles,
            },
        }
    }
}

/// A candle fetched to fill a gap must continue its stream exactly; any other verdict
/// means the recovery failed.
pub fn restores_continuity(continuity: &Continuity) -> (b: bool)
    ensures
        b <==> (*continuity is First || *continuity is Continuous),
{
    match continuity {
        Continuity::First => true,
        Continuity::Continuous => true,
        _ => false,
    }
}

/// Counters of one collector run.
#[derive(Debug, Clone)]
pub struct CollectorMetrics {
    /// Identity of this collector run.
    pub collector_instance_id: u128,
    /// When the run started.
    pub started_at: Timestamp,
    /// When the run stopped cleanly.
    pub completed_at: Option<Timestamp>,
    /// Connection attempts.
    pub connecting: u64,
    /// Established connections.
    pub connected: u64,
    /// Proactive session rotations.
    pub rotating: u64,
    /// Lost connections.
    pub disconnected: u64,
    /// Raw frames recorded.
    pub raw_events: u64,
    /// Closed candles stored, recovered ones included.
    pub closed_klines: u64,
    /// Rejected frames.
    pub protocol_errors: u64,
    /// Gaps found.
    pub gaps_detected: u64,
    /// Candles recovered over REST.
    pub recovered_klines: u64,
    /// Duplicate candles ignored.
    pub duplicates_ignored: u64,
    /// Out-of-order candles ignored.
    pub out_of_order_ignored: u64,
    /// When anything was last observed.
    pub last_event_at: Option<Timestamp>,
}

/// One for an event of the counted kind, zero otherwise.
pub open spec fn count_if(b: bool) -> int {
    if b {
        1
    } else {
        0
    }
}

/// The counters that a lifecycle event leaves alone.
pub open spec fn same_ingest_counters(a: CollectorMetrics, b: CollectorMetrics) -> bool {
    &&& a.collector_instance_id == b.collector_instance_id
    &&& a.started_at == b.started_at
    &&& a.completed_at == b.completed_at
    &&& a.raw_events == b.raw_events
    &&& a.closed_klines == b.closed_klines
    &&& a.protocol_errors == b.protocol_errors
    &&& a.gaps_detected == b.gaps_detected
    &&& a.recovered_klines == b.recovered_klines
    &&& a.duplicates_ignored == b.duplicates_ignored
    &&& a.out_of_order_ignored == b.out_of_order_ignored
}

/// The counters that an ingest outcome leaves alone.
pub open spec fn same_lifecycle_counters(a: CollectorMetrics, b: CollectorMetrics) -> bool {
    &&& a.collector_instance_id == b.collector_instance_id
    &&& a.started_at == b.started_at
    &&& a.completed_at == b.completed_at
    &&& a.connecting == b.connecting
    &&& a.connected == b.connected
    &&& a.rotating == b.rotating
    &&& a.disconnected == b.disconnected
    &&& a.raw_events == b.raw_events
    &&& a.protocol_errors == b.protocol_errors
}

/// The lifecycle counter of `state` can take one more event.
pub open spec fn lifecycle_room(m: CollectorMetrics, state: StreamLifecycle) -> bool {
    match state {
        StreamLifecycle::Connecting => m.connecting < u64::MAX,
        StreamLifecycle::Connected => m.connected < u64::MAX,
        StreamLifecycle::Rotating => m.rotating < u64::MAX,
        StreamLifecycle::Disconnected { .. } => m.disconnected < u64::MAX,
    }
}

/// The counters touched by `outcome` can take it.
pub open spec fn ingest_room(m: CollectorMetrics, outcome: IngestOutcome) -> bool {
    match outcome {
        IngestOutcome::Accepted => m.closed_klines < u64::MAX,
        IngestOutcome::Recovered { candles } => {
            &&& m.gaps_detected < u64::MAX
            &&& m.recovered_klines + candles <= u64::MAX
            &&& m.closed_klines + candles + 1 <= u64::MAX
        },
        IngestOutcome::Duplicate => m.duplicates_ignored < u64::MAX,
        IngestOutcome::OutOfOrder => m.out_of_order_ignored < u64::MAX,
    }
}

impl CollectorMetrics {
    /// Fresh counters for a run that starts now.
    pub fn new(collector_instance_id: u128) -> (m: Self)
        ensures
            m.collector_instance_id == collector_instance_id,
            m.completed_at is None,
            m.last_event_at is None,
            m.connecting == 0 && m.connected == 0 && m.rotating == 0 && m.disconnected == 0,
            m.raw_events == 0 && m.closed_klines == 0 && m.protocol_errors == 0,
            m.gaps_detected == 0 && m.recovered_klines == 0,
            m.duplicates_ignored == 0 && m.out_of_order_ignored == 0,
    {
        CollectorMetrics {
            collector_instance_id,
            started_at: utc_now(),
            completed_at: None,
            connecting: 0,
            connected: 0,
            rotating: 0,
            disconnected: 0,
            raw_events: 0,
            closed_klines: 0,
            protocol_errors: 0,
            gaps_detected: 0,
            recovered_klines: 0,
            duplicates_ignored: 0,
            out_of_order_ignored: 0,
            last_event_at: None,
        }
    }

    /// Counts one lifecycle event of the stream and stamps it.
    pub fn observe_lifecycle(&mut self, state: &StreamLifecycle)
        requires
            lifecycle_room(*old(self), *state),
        ensures
            same_ingest_counters(*old(self), *final(self)),
            final(self).last_event_at is Some,
            final(self).connecting == old(self).connecting + count_if(*state is Connecting),
            final(self).connected == old(self).connected + count_if(*state is Connected),
            final(self).rotating == old(self).rotating + count_if(*state is Rotating),
            final(self).disconnected == old(self).disconnected + count_if(*state is Disconnected),
    {
        match state {
            StreamLifecycle::Connecting => self.connecting = self.connecting + 1,
            StreamLifecycle::Connected => self.connected = self.connected + 1,
            StreamLifecycle::Rotating => self.rotating = self.rotating + 1,
            StreamLifecycle::Disconnected { .. } => self.disconnected = self.disconnected + 1,
        }
        self.last_event_at = Some(utc_now());
    }

    /// Counts what ingesting one closed candle came to and stamps it; a recovery counts
    /// the gap, the recovered candles, and every stored candle including the one that
    /// revealed the gap.
    pub fn observe_ingest(&mut self, outcome: IngestOutcome)
        requires
            ingest_room(*old(self), outcome),
        ensures
            same_lifecycle_counters(*old(self), *final(self)),
            final(self).last_event_at is Some,
            final(self).closed_klines == old(self).closed_klines + match outcome {
                IngestOutcome::Accepted => 1int,
                IngestOutcome::Recovered { candles } => candles + 1,
                _ => 0,
            },
            final(self).gaps_detected == old(self).gaps_detected + count_if(outcome is Recovered),
            final(self).recovered_klines == old(self).recovered_klines + match outcome {
                IngestOutcome::Recovered { candles } => candles as int,
                _ => 0,
            },
            final(self).duplicates_ignored == old(self).duplicates_ignored + count_if(outcome is Duplicate),
            final(self).out_of_order_ignored == old(self).out_of_order_ignored + count_if(outcome is OutOfOrder),
    {
        match outcome {
            IngestOutcome::Accepted => self.closed_klines = self.closed_klines + 1,
            IngestOutcome::Recovered { candles } => {
                self.gaps_detected = self.gaps_detected + 1;
                self.recovered_klines = self.recovered_klines + candles;
                self.closed_klines = self.closed_klines + candles + 1;
            },
            IngestOutcome::Duplicate => self.duplicates_ignored = self.duplicates_ignored + 1,
            IngestOutcome::OutOfOrder => self.out_of_order_ignored = self.out_of_order_ignored + 1,
        }
        self.last_event_at = Some(utc_now());
    }

    /// Counts one recorded raw frame and stamps it.
    pub fn observe_raw_event(&mut self)
        requires
            old(self).raw_events < u64::MAX,
        ensures
            final(self).raw_events == old(self).raw_events + 1,
            final(self).last_event_at is Some,
            final(self).closed_klines == old(self).closed_klines,
            final(self).protocol_errors == old(self).protocol_errors,
            same_lifecycle_counters(
                *old(self),
                (CollectorMetrics { raw_events: old(self).raw_events, ..*final(self) }),
            ),
            same_ingest_counters(
                *old(self),
                (CollectorMetrics { raw_events: old(self).raw_events, ..*final(self) }),
            ),
    {
        self.raw_events = self.raw_events + 1;
        self.last_event_at = Some(utc_now());
    }

    /// Counts one rejected frame and stamps it.
    pub fn observe_protocol_error(&mut self)
        requires
            old(self).protocol_errors < u64::MAX,
        ensures
            final(self).protocol_errors == old(self).protocol_errors + 1,
            final(self).last_event_at is Some,
            final(self).raw_events == old(self).raw_events,
            final(self).closed_klines == old(self).closed_klines,
            same_lifecycle_counters(
                *old(self),
                (CollectorMetrics { protocol_errors: old(self).protocol_errors, ..*final(self) }),
            ),
            same_ingest_counters(
                *old(self),
                (CollectorMetrics { protocol_errors: old(self).protocol_errors, ..*final(self) }),
            ),
    {
        self.protocol_errors = self.protocol_errors + 1;
        self.last_event_at = Some(utc_now());
    }

    /// Marks the run as stopped cleanly.
    pub fn complete(&mut self)
        ensures
            final(self).completed_at is Some,
            final(self).last_event_at == old(self).last_event_at,
            same_lifecycle_counters(
                *old(self),
                (CollectorMetrics { completed_at: old(self).completed_at, ..*final(self) }),
            ),
            same_ingest_counters(
                *old(self),
                (CollectorMetrics { completed_at: old(self).completed_at, ..*final(self) }),
            ),
    {
        self.completed_at = Some(utc_now());
    }
}

} // verus!
