//! Kline stream frames, reconnect backoff and supervisor decisions.

use vstd::prelude::*;
use vstd::string::*;

use crate::binance::error::{invalid_response, BinanceError};
use crate::decimal::{decimal_parse, is_pos, value_le, Decimal};
use crate::domain::{symbol_char, valid_symbol, DomainError, Price, Symbol};
use crate::binance::websocket::{stream_char, valid_stream_name};
use crate::json::{
    decode_json, json_decode, json_get, json_get_bool, json_get_i64, json_get_str, json_get_u64,
    json_str, JsonValue,
};
use crate::market_data::{
    interval_named, interval_text, Interval, Kline, MarketDataError, RawEvent,
};
use crate::text::{ascii_lower, ascii_lower_seq, concat2, concat3, owned, to_ascii_lowercase, trimmed};
use crate::time::{chrono_millis_representable, Duration, Timestamp, MAX_DURATION_NANOS};

verus! {

/// Rotate before Binance's documented 24-hour connection limit (23 h 50 min).
pub fn default_max_session_age() -> (d: Duration)
    ensures
        d@ == (23 * 3600 + 50 * 60) * 1_000_000_000,
{
    Duration::from_secs(23 * 60 * 60 + 50 * 60)
}

/// Observable WebSocket connection state.
#[derive(Debug, Clone, PartialEq)]
pub enum StreamLifecycle {
    /// A connection attempt is starting.
    Connecting,
    /// A connection is active.
    Connected,
    /// The session is being proactively replaced.
    Rotating,
    /// A connection ended and will be retried.
    Disconnected {
        /// Sanitized reason.
        reason: String,
    },
}

/// Output produced by the kline stream supervisor.
#[derive(Debug, Clone)]
pub enum KlineStreamItem {
    /// Connection lifecycle transition.
    Lifecycle(StreamLifecycle),
    /// Exact text payload with integrity hash.
    Raw(RawEvent),
    /// A newly closed normalized candle.
    ClosedKline(Kline),
    /// A malformed stream payload that was not accepted.
    ProtocolError {
        /// Sanitized parse error.
        message: String,
    },
}

/// Parsed result from one Binance text frame.
#[derive(Debug, Clone)]
pub struct ParsedKlineStreamMessage {
    /// Auditable exact frame text.
    pub raw_event: RawEvent,
    /// Present only when Binance marks the candle closed.
    pub closed_kline: Option<Kline>,
}

/// Deterministic exponential reconnect delay.
#[derive(Debug, Clone, Copy)]
pub struct ReconnectBackoff {
    initial: Duration,
    maximum: Duration,
    next: Duration,
}

/// One millisecond, in nanoseconds.
pub open spec fn one_milli() -> nat {
    1_000_000
}

/// The larger of two naturals.
pub open spec fn max_nat(a: nat, b: nat) -> nat {
    if a >= b {
        a
    } else {
        b
    }
}

/// The smaller of two naturals.
pub open spec fn min_nat(a: nat, b: nat) -> nat {
    if a <= b {
        a
    } else {
        b
    }
}

impl ReconnectBackoff {
    #[verifier::type_invariant]
    closed spec fn inv(self) -> bool {
        &&& one_milli() <= self.initial@
        &&& self.initial@ <= self.next@
        &&& self.next@ <= self.maximum@
    }

    /// The first delay of the sequence, in nanoseconds.
    pub closed spec fn initial_delay(self) -> nat {
        self.initial@
    }

    /// The bound of the sequence, in nanoseconds.
    pub closed spec fn max_delay(self) -> nat {
        self.maximum@
    }

    /// The delay the next call returns, in nanoseconds.
    pub closed spec fn pending_delay(self) -> nat {
        self.next@
    }

    /// Creates a bounded exponential sequence; the initial delay is at least 1 ms and the
    /// maximum at least the initial delay.
    pub fn new(initial: Duration, maximum: Duration) -> (b: ReconnectBackoff)
        ensures
            b.initial_delay() == max_nat(initial@, one_milli()),
            b.max_delay() == max_nat(maximum@, max_nat(initial@, one_milli())),
            b.pending_delay() == b.initial_delay(),
    {
        let initial = initial.max(Duration::from_millis(1));
        let maximum = maximum.max(initial);
        ReconnectBackoff { initial, maximum, next: initial }
    }

    /// Returns the current delay and advances the sequence: the next delay doubles,
    /// capped at the maximum.
    pub fn next_delay(&mut self) -> (d: Duration)
        ensures
            d@ == old(self).pending_delay(),
            old(self).initial_delay() <= d@ <= old(self).max_delay(),
            final(self).pending_delay() == min_nat(2 * old(self).pending_delay(), old(self).max_delay()),
            final(self).initial_delay() == old(self).initial_delay(),
            final(self).max_delay() == old(self).max_delay(),
    {
        proof {
            use_type_invariant(&*self);
        }
        // The cap lies within the range of a span, so doubling saturates at or above it.
        let cap_nanos = self.maximum.as_nanos();
        assert(cap_nanos <= MAX_DURATION_NANOS);
        let current = self.next;
        let doubled = self.next.saturating_mul(2);
        let next = doubled.min(self.maximum);
        *self = ReconnectBackoff { initial: self.initial, maximum: self.maximum, next };
        current
    }

    /// Resets after a successful connection.
    pub fn reset(&mut self)
        ensures
            final(self).pending_delay() == old(self).initial_delay(),
            final(self).initial_delay() == old(self).initial_delay(),
            final(self).max_delay() == old(self).max_delay(),
    {
        proof {
            use_type_invariant(&*self);
        }
        *self = ReconnectBackoff { initial: self.initial, maximum: self.maximum, next: self.initial };
    }
}

impl Default for ReconnectBackoff {
    fn default() -> (b: ReconnectBackoff)
        ensures
            b.initial_delay() == 1_000_000_000,
            b.max_delay() == 60_000_000_000,
            b.pending_delay() == 1_000_000_000,
    {
        ReconnectBackoff::new(Duration::from_secs(1), Duration::from_secs(60))
    }
}

/// The combined-stream name for one symbol and interval: `<symbol lowercase>@kline_<interval>`.
pub open spec fn kline_stream_name(symbol: Seq<char>, interval: Interval) -> Seq<char> {
    ascii_lower_seq(symbol) + "@kline_"@ + interval_text(interval)
}

proof fn lemma_kline_stream_name_valid(symbol: Seq<char>, interval: Interval)
    requires
        valid_symbol(symbol),
    ensures
        valid_stream_name(kline_stream_name(symbol, interval)),
{
    reveal_strlit("@kline_");
    reveal_strlit("15m");
    reveal_strlit("1h");
    reveal_strlit("4h");
    let lower = ascii_lower_seq(symbol);
    let tail = "@kline_"@ + interval_text(interval);
    let name = kline_stream_name(symbol, interval);
    assert(name == lower + tail);
    assert forall|i: int| 0 <= i < name.len() implies #[trigger] stream_char(name[i]) by {
        if i < lower.len() {
            assert(symbol_char(symbol[i]));
            assert(name[i] == ascii_lower(symbol[i]));
        } else {
            assert(name[i] == tail[i - lower.len()]);
        }
    }
}

/// Supervised read-only Binance combined kline connection.
#[derive(Debug, Clone)]
pub struct KlineStreamSupervisor {
    streams: Vec<String>,
    max_session_age: Duration,
}

impl View for KlineStreamSupervisor {
    type V = (Seq<Seq<char>>, nat);

    /// The stream names and the rotation age in nanoseconds.
    closed spec fn view(&self) -> (Seq<Seq<char>>, nat) {
        (self.streams@.map_values(|s: String| s@), self.max_session_age@)
    }
}

impl KlineStreamSupervisor {
    /// Creates a supervisor for one or more symbol/interval pairs.
    pub fn new(pairs: &[(Symbol, Interval)]) -> (r: Result<KlineStreamSupervisor, BinanceError>)
        ensures
            pairs@.len() == 0 ==> (r matches Err(e) && e == BinanceError::InvalidRequest(
                e->InvalidRequest_0,
            ) && e->InvalidRequest_0@ == "at least one kline stream is required"@),
            pairs@.len() > 0 ==> (r matches Ok(s) && s@.0.len() == pairs@.len() && (forall|i: int|
                0 <= i < pairs@.len() ==> #[trigger] s@.0[i] == kline_stream_name(
                    pairs@[i].0@,
                    pairs@[i].1,
                )) && s@.1 == (23 * 3600 + 50 * 60) * 1_000_000_000),
            r matches Ok(s) ==> forall|i: int|
                0 <= i < s@.0.len() ==> valid_stream_name(#[trigger] s@.0[i]),
    {
        if pairs.len() == 0 {
            return Err(BinanceError::InvalidRequest(owned("at least one kline stream is required")));
        }
        let mut streams: Vec<String> = Vec::new();
        let mut i: usize = 0;
        while i < pairs.len()
            invariant
                i <= pairs@.len(),
                streams@.len() == i,
                forall|j: int|
                    0 <= j < i ==> #[trigger] streams@[j]@ == kline_stream_name(
                        pairs@[j].0@,
                        pairs@[j].1,
                    ),
                forall|j: int| 0 <= j < i ==> valid_stream_name(#[trigger] streams@[j]@),
            decreases pairs@.len() - i,
        {
            let symbol_text = pairs[i].0.as_str();
            proof {
                lemma_kline_stream_name_valid(pairs@[i as int].0@, pairs@[i as int].1);
            }
            let lower = to_ascii_lowercase(symbol_text);
            let name = concat3(lower.as_str(), "@kline_", pairs[i].1.as_binance());
            streams.push(name);
            i = i + 1;
        }
        let s = KlineStreamSupervisor { streams, max_session_age: default_max_session_age() };
        proof {
            assert forall|j: int| 0 <= j < pairs@.len() implies #[trigger] s@.0[j]
                == kline_stream_name(pairs@[j].0@, pairs@[j].1) by {
                assert(s@.0[j] == s.streams@[j]@);
            }
            assert forall|j: int| 0 <= j < s@.0.len() implies valid_stream_name(#[trigger] s@.0[j]) by {
                assert(s@.0[j] == s.streams@[j]@);
            }
        }
        Ok(s)
    }

    /// Overrides rotation age (at least one second) for deterministic tests or controlled
    /// environments.
    pub fn with_max_session_age(self, age: Duration) -> (s: KlineStreamSupervisor)
        ensures
            s@.0 == self@.0,
            s@.1 == max_nat(age@, 1_000_000_000),
    {
        KlineStreamSupervisor {
            streams: self.streams,
            max_session_age: age.max(Duration::from_secs(1)),
        }
    }

    /// The combined stream names.
    pub fn streams(&self) -> (s: &Vec<String>)
        ensures
            s@.map_values(|x: String| x@) == self@.0,
    {
        &self.streams
    }

    /// The proactive rotation age.
    pub fn max_session_age(&self) -> (d: Duration)
        ensures
            d@ == self@.1,
    {
        self.max_session_age
    }
}

/// Why a connected session ended.
#[derive(Debug, Clone, PartialEq)]
pub enum SessionEnd {
    /// The session reached its rotation age.
    Rotation,
    /// Replying to a ping failed, with the transport's message.
    PongFailed(String),
    /// The server sent a close frame, rendered as text.
    ServerClosed(String),
    /// The transport failed, with its message.
    TransportError(String),
    /// The stream ended without a close frame.
    StreamEnded,
}

/// The reconnect reason recorded for a session end.
pub open spec fn session_end_reason(e: SessionEnd) -> Seq<char> {
    match e {
        SessionEnd::Rotation => "proactive session rotation"@,
        SessionEnd::PongFailed(m) => "failed to send pong: "@ + m@,
        SessionEnd::ServerClosed(m) => "server closed stream: "@ + m@,
        SessionEnd::TransportError(m) => "WebSocket transport error: "@ + m@,
        SessionEnd::StreamEnded => "stream ended"@,
    }
}

/// The lifecycle item reported when a session ends.
pub fn session_ended(end: &SessionEnd) -> (item: KlineStreamItem)
    ensures
        item matches KlineStreamItem::Lifecycle(StreamLifecycle::Disconnected { reason }) && reason@
            == session_end_reason(*end),
{
    let reason = match end {
        SessionEnd::Rotation => owned("proactive session rotation"),
        SessionEnd::PongFailed(m) => concat2("failed to send pong: ", m.as_str()),
        SessionEnd::ServerClosed(m) => concat2("server closed stream: ", m.as_str()),
        SessionEnd::TransportError(m) => concat2("WebSocket transport error: ", m.as_str()),
        SessionEnd::StreamEnded => owned("stream ended"),
    };
    KlineStreamItem::Lifecycle(StreamLifecycle::Disconnected { reason })
}

/// The lifecycle item reported when a connection attempt fails.
pub fn connect_failed(error: &str) -> (item: KlineStreamItem)
    ensures
        item matches KlineStreamItem::Lifecycle(StreamLifecycle::Disconnected { reason }) && reason@
            == "WebSocket connect error: "@ + error@,
{
    KlineStreamItem::Lifecycle(
        StreamLifecycle::Disconnected { reason: concat2("WebSocket connect error: ", error) },
    )
}

/// One frame read from a connected session.
pub enum IncomingFrame {
    /// A text frame, already parsed.
    Text(Result<ParsedKlineStreamMessage, BinanceError>),
    /// A ping with its payload.
    Ping(Vec<u8>),
    /// A pong.
    Pong,
    /// A close frame, rendered as text.
    Close(String),
    /// A binary frame.
    Binary,
    /// Any other frame kind.
    Other,
    /// A transport failure, with its message.
    Failed(String),
    /// The stream ended.
    Ended,
}

/// What the supervisor does with one frame.
pub enum FrameDecision {
    /// Send these items to the consumer, in order.
    Emit(Vec<KlineStreamItem>),
    /// Reply with a pong carrying this payload.
    ReplyPong(Vec<u8>),
    /// Nothing to do.
    Ignore,
    /// End the session for this reason.
    End(SessionEnd),
}

/// The item reports a rejected payload with this message.
pub open spec fn protocol_error_item(item: KlineStreamItem, message: Seq<char>) -> bool {
    item matches KlineStreamItem::ProtocolError { message: m } && m@ == message
}

/// The supervisor's decision for a frame.
pub fn decide_frame(frame: IncomingFrame) -> (d: FrameDecision)
    ensures
        match frame {
            IncomingFrame::Text(Ok(p)) => d matches FrameDecision::Emit(items) && match p.closed_kline {
                Some(k) => items@.len() == 2 && items@[0] == KlineStreamItem::Raw(p.raw_event)
                    && items@[1] == KlineStreamItem::ClosedKline(k),
                None => items@.len() == 1 && items@[0] == KlineStreamItem::Raw(p.raw_event),
            },
            IncomingFrame::Text(Err(e)) => d matches FrameDecision::Emit(items) && items@.len() == 1
                && protocol_error_item(items@[0], crate::binance::error::binance_error_message(e)),
            IncomingFrame::Ping(payload) => d == FrameDecision::ReplyPong(payload),
            IncomingFrame::Pong => d == FrameDecision::Ignore,
            IncomingFrame::Close(f) => d == FrameDecision::End(SessionEnd::ServerClosed(f)),
            IncomingFrame::Binary => d matches FrameDecision::Emit(items) && items@.len() == 1
                && protocol_error_item(items@[0], "unexpected binary Binance market-data frame"@),
            IncomingFrame::Other => d == FrameDecision::Ignore,
            IncomingFrame::Failed(m) => d == FrameDecision::End(SessionEnd::TransportError(m)),
            IncomingFrame::Ended => d == FrameDecision::End(SessionEnd::StreamEnded),
        },
{
    match frame {
        IncomingFrame::Text(Ok(parsed)) => {
            let mut items: Vec<KlineStreamItem> = Vec::new();
            items.push(KlineStreamItem::Raw(parsed.raw_event));
            match parsed.closed_kline {
                Some(k) => items.push(KlineStreamItem::ClosedKline(k)),
                None => {},
            }
            FrameDecision::Emit(items)
        },
        IncomingFrame::Text(Err(e)) => {
            let mut items: Vec<KlineStreamItem> = Vec::new();
            items.push(KlineStreamItem::ProtocolError { message: e.message() });
            FrameDecision::Emit(items)
        },
        IncomingFrame::Ping(payload) => FrameDecision::ReplyPong(payload),
        IncomingFrame::Pong => FrameDecision::Ignore,
        IncomingFrame::Close(f) => FrameDecision::End(SessionEnd::ServerClosed(f)),
        IncomingFrame::Binary => {
            let mut items: Vec<KlineStreamItem> = Vec::new();
            items.push(
                KlineStreamItem::ProtocolError {
                    message: owned("unexpected binary Binance market-data frame"),
                },
            );
            FrameDecision::Emit(items)
        },
        IncomingFrame::Other => FrameDecision::Ignore,
        IncomingFrame::Failed(m) => FrameDecision::End(SessionEnd::TransportError(m)),
        IncomingFrame::Ended => FrameDecision::End(SessionEnd::StreamEnded),
    }
}

/// What happened in the supervisor's connection loop.
#[derive(Debug)]
pub enum LoopEvent {
    /// A connection attempt is due; `shutdown` tells whether shutdown has been requested.
    AttemptDue {
        /// Shutdown has been requested.
        shutdown: bool,
    },
    /// The WebSocket handshake succeeded.
    Connected,
    /// The handshake failed, with the transport's message.
    ConnectFailed(String),
    /// A connected session ended.
    SessionEnded(SessionEnd),
    /// An item could not be delivered: the consumer is gone.
    ConsumerGone,
    /// Shutdown was requested while a session was open or a reconnect was pending.
    ShutdownRequested,
}

/// What the connection loop does next.
#[derive(Debug)]
pub enum LoopAction {
    /// Deliver the item, then open a connection.
    AnnounceAndConnect(KlineStreamItem),
    /// Deliver the item, then read the connected session's frames.
    AnnounceAndRead(KlineStreamItem),
    /// Deliver the item, then wait this long before the next attempt.
    AnnounceAndWait(KlineStreamItem, Duration),
    /// Stop: the loop returns.
    Stop,
}

/// The supervisor's connection loop: its reconnect backoff, and whether it has stopped.
pub struct ConnectionLoop {
    backoff: ReconnectBackoff,
    stopped: bool,
}

impl ConnectionLoop {
    /// The reconnect backoff.
    pub closed spec fn backoff(&self) -> ReconnectBackoff {
        self.backoff
    }

    /// The loop has stopped; it never starts again.
    pub closed spec fn is_stopped(&self) -> bool {
        self.stopped
    }

    /// A running loop with this backoff.
    pub fn new(backoff: ReconnectBackoff) -> (l: ConnectionLoop)
        ensures
            !l.is_stopped(),
            l.backoff() == backoff,
    {
        ConnectionLoop { backoff, stopped: false }
    }

    /// Whether the loop has stopped.
    pub fn stopped(&self) -> (b: bool)
        ensures
            b == self.is_stopped(),
    {
        self.stopped
    }

    /// Decides the next action for an event. Every attempt is announced with
    /// `Connecting` first, unless shutdown was requested; a connection resets the backoff
    /// and is announced with `Connected`; a failed connection or an ended session is
    /// announced with its `Disconnected` reason and followed by the next backoff delay;
    /// an undeliverable item or a shutdown request stops the loop for good.
    pub fn step(&mut self, event: LoopEvent) -> (a: LoopAction)
        ensures
            old(self).is_stopped() ==> a is Stop && final(self).is_stopped() && final(self).backoff()
                == old(self).backoff(),
            !old(self).is_stopped() ==> match event {
                LoopEvent::AttemptDue { shutdown } => if shutdown {
                    a is Stop && final(self).is_stopped() && final(self).backoff() == old(self).backoff()
                } else {
                    &&& a == LoopAction::AnnounceAndConnect(
                        KlineStreamItem::Lifecycle(StreamLifecycle::Connecting),
                    )
                    &&& !final(self).is_stopped()
                    &&& final(self).backoff() == old(self).backoff()
                },
                LoopEvent::Connected => {
                    &&& a == LoopAction::AnnounceAndRead(
                        KlineStreamItem::Lifecycle(StreamLifecycle::Connected),
                    )
                    &&& !final(self).is_stopped()
                    &&& final(self).backoff().pending_delay() == old(self).backoff().initial_delay()
                    &&& final(self).backoff().initial_delay() == old(self).backoff().initial_delay()
                    &&& final(self).backoff().max_delay() == old(self).backoff().max_delay()
                },
                LoopEvent::ConnectFailed(m) => {
                    &&& announces_then_waits(
                        a,
                        "WebSocket connect error: "@ + m@,
                        old(self).backoff().pending_delay(),
                    )
                    &&& !final(self).is_stopped()
                    &&& backoff_advanced(old(self).backoff(), final(self).backoff())
                },
                LoopEvent::SessionEnded(end) => {
                    &&& announces_then_waits(
                        a,
                        session_end_reason(end),
                        old(self).backoff().pending_delay(),
                    )
                    &&& !final(self).is_stopped()
                    &&& backoff_advanced(old(self).backoff(), final(self).backoff())
                },
                LoopEvent::ConsumerGone | LoopEvent::ShutdownRequested => a is Stop
                    && final(self).is_stopped() && final(self).backoff() == old(self).backoff(),
            },
    {
        if self.stopped {
            return LoopAction::Stop;
        }
        match event {
            LoopEvent::AttemptDue { shutdown } => if shutdown {
                self.stopped = true;
                LoopAction::Stop
            } else {
                LoopAction::AnnounceAndConnect(KlineStreamItem::Lifecycle(StreamLifecycle::Connecting))
            },
            LoopEvent::Connected => {
                self.backoff.reset();
                LoopAction::AnnounceAndRead(KlineStreamItem::Lifecycle(StreamLifecycle::Connected))
            },
            LoopEvent::ConnectFailed(m) => {
                let item = connect_failed(m.as_str());
                let d = self.backoff.next_delay();
                LoopAction::AnnounceAndWait(item, d)
            },
            LoopEvent::SessionEnded(end) => {
                let item = session_ended(&end);
                let d = self.backoff.next_delay();
                LoopAction::AnnounceAndWait(item, d)
            },
            LoopEvent::ConsumerGone | LoopEvent::ShutdownRequested => {
                self.stopped = true;
                LoopAction::Stop
            },
        }
    }
}

/// The action announces a disconnection with this reason, then waits `delay`
/// nanoseconds.
pub open spec fn announces_then_waits(a: LoopAction, reason: Seq<char>, delay: nat) -> bool {
    match a {
        LoopAction::AnnounceAndWait(item, d) => {
            &&& d@ == delay
            &&& item matches KlineStreamItem::Lifecycle(StreamLifecycle::Disconnected { reason: r })
            &&& r@ == reason
        },
        _ => false,
    }
}

/// One reconnect delay was taken from `before`: the pending delay doubled, capped at the
/// maximum, and the bounds are unchanged.
pub open spec fn backoff_advanced(before: ReconnectBackoff, after: ReconnectBackoff) -> bool {
    &&& after.pending_delay() == min_nat(2 * before.pending_delay(), before.max_delay())
    &&& after.initial_delay() == before.initial_delay()
    &&& after.max_delay() == before.max_delay()
}

/// `value[key]` is text.
pub open spec fn has_text(v: JsonValue, key: Seq<char>) -> bool {
    json_get_str(v, key) is Some
}

/// `value[key]` is decimal text.
pub open spec fn decimal_ok(v: JsonValue, key: Seq<char>) -> bool {
    has_text(v, key) && decimal_parse(json_get_str(v, key).unwrap()) is Some
}

/// The decimal that `value[key]` holds.
pub open spec fn decimal_at(v: JsonValue, key: Seq<char>) -> (int, int) {
    decimal_parse(json_get_str(v, key).unwrap()).unwrap()
}

/// The error for a missing or malformed decimal field of a stream frame.
pub open spec fn decimal_error(
    v: JsonValue,
    key: Seq<char>,
    field: Seq<char>,
    e: BinanceError,
) -> bool {
    if !has_text(v, key) {
        invalid_response(e, field + " must be text"@)
    } else {
        invalid_response(e, field + " contains invalid decimal text"@)
    }
}

/// `value[key]` is a positive decimal.
pub open spec fn price_ok(v: JsonValue, key: Seq<char>) -> bool {
    decimal_ok(v, key) && is_pos(decimal_at(v, key))
}

/// The error for a missing, malformed or non-positive price field of a stream frame.
pub open spec fn price_error(
    v: JsonValue,
    key: Seq<char>,
    field: Seq<char>,
    e: BinanceError,
) -> bool {
    if !decimal_ok(v, key) {
        decimal_error(v, key, field, e)
    } else {
        e matches BinanceError::Domain(DomainError::NonPositive { field: f, value }) && f@
            == "price"@ && value@ == decimal_at(v, key)
    }
}

/// `value[key]` is a millisecond timestamp `chrono` can represent.
pub open spec fn time_ok(v: JsonValue, key: Seq<char>) -> bool {
    json_get_i64(v, key) is Some && chrono_millis_representable(json_get_i64(v, key).unwrap())
}

/// The error for a missing or out-of-range timestamp field.
pub open spec fn time_error(
    v: JsonValue,
    key: Seq<char>,
    field: Seq<char>,
    e: BinanceError,
) -> bool {
    if json_get_i64(v, key) is None {
        invalid_response(e, field + " must be an integer"@)
    } else {
        e == BinanceError::MarketData(
            MarketDataError::InvalidTimestamp(json_get_i64(v, key).unwrap() as i64),
        )
    }
}

/// Every field of a stream candle object is well-formed.
pub open spec fn stream_kline_ok(k: JsonValue) -> bool {
    &&& has_text(k, "s"@) && valid_symbol(json_get_str(k, "s"@).unwrap())
    &&& has_text(k, "i"@) && interval_named(json_get_str(k, "i"@).unwrap()) is Some
    &&& json_get_bool(k, "x"@) is Some
    &&& time_ok(k, "t"@) && time_ok(k, "T"@)
    &&& price_ok(k, "o"@) && price_ok(k, "h"@) && price_ok(k, "l"@) && price_ok(k, "c"@)
    &&& decimal_ok(k, "v"@) && decimal_ok(k, "q"@)
    &&& json_get_u64(k, "n"@) is Some
    &&& decimal_ok(k, "V"@) && decimal_ok(k, "Q"@)
}

/// The error reported for the first malformed field of a stream candle object.
pub open spec fn stream_kline_error(k: JsonValue, e: BinanceError) -> bool {
    if !has_text(k, "s"@) {
        invalid_response(e, "stream.k.s"@ + " must be text"@)
    } else if !valid_symbol(json_get_str(k, "s"@).unwrap()) {
        e matches BinanceError::Domain(DomainError::InvalidIdentifier(x)) && x@ == json_get_str(
            k,
            "s"@,
        ).unwrap()
    } else if !has_text(k, "i"@) {
        invalid_response(e, "stream.k.i"@ + " must be text"@)
    } else if interval_named(json_get_str(k, "i"@).unwrap()) is None {
        e matches BinanceError::MarketData(MarketDataError::UnsupportedInterval(x)) && x@
            == trimmed(json_get_str(k, "i"@).unwrap())
    } else if json_get_bool(k, "x"@) is None {
        invalid_response(e, "stream.k.x"@ + " must be boolean"@)
    } else if !time_ok(k, "t"@) {
        time_error(k, "t"@, "stream.k.t"@, e)
    } else if !time_ok(k, "T"@) {
        time_error(k, "T"@, "stream.k.T"@, e)
    } else if !price_ok(k, "o"@) {
        price_error(k, "o"@, "stream.k.o"@, e)
    } else if !price_ok(k, "h"@) {
        price_error(k, "h"@, "stream.k.h"@, e)
    } else if !price_ok(k, "l"@) {
        price_error(k, "l"@, "stream.k.l"@, e)
    } else if !price_ok(k, "c"@) {
        price_error(k, "c"@, "stream.k.c"@, e)
    } else if !decimal_ok(k, "v"@) {
        decimal_error(k, "v"@, "stream.k.v"@, e)
    } else if !decimal_ok(k, "q"@) {
        decimal_error(k, "q"@, "stream.k.q"@, e)
    } else if json_get_u64(k, "n"@) is None {
        invalid_response(e, "stream.k.n"@ + " must be an integer"@)
    } else if !decimal_ok(k, "V"@) {
        decimal_error(k, "V"@, "stream.k.V"@, e)
    } else {
        decimal_error(k, "Q"@, "stream.k.Q"@, e)
    }
}

/// The normalized candle holds exactly the fields of a stream candle object.
pub open spec fn stream_kline_matches(k: JsonValue, c: Kline) -> bool {
    &&& c.symbol@ == json_get_str(k, "s"@).unwrap()
    &&& Some(c.interval) == interval_named(json_get_str(k, "i"@).unwrap())
    &&& c.open_time@ == json_get_i64(k, "t"@).unwrap()
    &&& c.close_time@ == json_get_i64(k, "T"@).unwrap()
    &&& c.open@ == decimal_at(k, "o"@)
    &&& c.high@ == decimal_at(k, "h"@)
    &&& c.low@ == decimal_at(k, "l"@)
    &&& c.close@ == decimal_at(k, "c"@)
    &&& c.volume@ == decimal_at(k, "v"@)
    &&& c.quote_volume@ == decimal_at(k, "q"@)
    &&& c.trade_count == json_get_u64(k, "n"@).unwrap()
    &&& c.taker_buy_volume@ == decimal_at(k, "V"@)
    &&& c.taker_buy_quote_volume@ == decimal_at(k, "Q"@)
    &&& c.is_closed == json_get_bool(k, "x"@).unwrap()
}

/// A combined frame carries both `stream` and `data`.
pub open spec fn is_combined(root: JsonValue) -> bool {
    json_get(root, "stream"@) is Some && json_get(root, "data"@) is Some
}

/// The event object of a frame: `data` of a combined frame, else the frame itself.
pub open spec fn frame_data(root: JsonValue) -> JsonValue {
    if is_combined(root) {
        json_get(root, "data"@).unwrap()
    } else {
        root
    }
}

/// The channel a frame is recorded under: its stream name, or `raw-kline-stream`.
pub open spec fn frame_channel(root: JsonValue) -> Option<Seq<char>> {
    if is_combined(root) {
        json_str(json_get(root, "stream"@).unwrap())
    } else {
        Some("raw-kline-stream"@)
    }
}

/// The candle object of a frame.
pub open spec fn frame_kline(root: JsonValue) -> JsonValue {
    json_get(frame_data(root), "k"@).unwrap()
}

/// Every part of a kline frame is well-formed.
pub open spec fn kline_frame_ok(root: JsonValue) -> bool {
    &&& frame_channel(root) is Some
    &&& json_get_str(frame_data(root), "e"@) == Some("kline"@)
    &&& time_ok(frame_data(root), "E"@)
    &&& json_get(frame_data(root), "k"@) is Some
    &&& stream_kline_ok(frame_kline(root))
}

/// The error reported for the first malformed part of a kline frame.
pub open spec fn kline_frame_error(root: JsonValue, e: BinanceError) -> bool {
    let data = frame_data(root);
    if frame_channel(root) is None {
        invalid_response(e, "stream must be text"@)
    } else if !has_text(data, "e"@) {
        invalid_response(e, "stream.e"@ + " must be text"@)
    } else if json_get_str(data, "e"@).unwrap() != "kline"@ {
        invalid_response(e, "unexpected stream event type: "@ + json_get_str(data, "e"@).unwrap())
    } else if !time_ok(data, "E"@) {
        time_error(data, "E"@, "stream.E"@, e)
    } else if json_get(data, "k"@) is None {
        invalid_response(e, "stream.k is missing"@)
    } else {
        stream_kline_error(frame_kline(root), e)
    }
}

fn stream_text<'a>(
    value: &'a JsonValue,
    key: &str,
    field: &str,
) -> (r: Result<&'a str, BinanceError>)
    ensures
        match json_get_str(*value, key@) {
            Some(t) => r matches Ok(s) && s@ == t,
            None => r matches Err(e) && invalid_response(e, field@ + " must be text"@),
        },
{
    match value.get(key) {
        Some(v) => match v.as_str() {
            Some(s) => Ok(s),
            None => Err(BinanceError::InvalidResponse(concat2(field, " must be text"))),
        },
        None => Err(BinanceError::InvalidResponse(concat2(field, " must be text"))),
    }
}

fn stream_i64(value: &JsonValue, key: &str, field: &str) -> (r: Result<i64, BinanceError>)
    ensures
        match json_get_i64(*value, key@) {
            Some(n) => r == Ok::<i64, BinanceError>(n as i64),
            None => r matches Err(e) && invalid_response(e, field@ + " must be an integer"@),
        },
{
    match value.get(key) {
        Some(v) => match v.as_i64() {
            Some(n) => Ok(n),
            None => Err(BinanceError::InvalidResponse(concat2(field, " must be an integer"))),
        },
        None => Err(BinanceError::InvalidResponse(concat2(field, " must be an integer"))),
    }
}

fn stream_u64(value: &JsonValue, key: &str, field: &str) -> (r: Result<u64, BinanceError>)
    ensures
        match json_get_u64(*value, key@) {
            Some(n) => r == Ok::<u64, BinanceError>(n as u64),
            None => r matches Err(e) && invalid_response(e, field@ + " must be an integer"@),
        },
{
    match value.get(key) {
        Some(v) => match v.as_u64() {
            Some(n) => Ok(n),
            None => Err(BinanceError::InvalidResponse(concat2(field, " must be an integer"))),
        },
        None => Err(BinanceError::InvalidResponse(concat2(field, " must be an integer"))),
    }
}

fn stream_bool(value: &JsonValue, key: &str, field: &str) -> (r: Result<bool, BinanceError>)
    ensures
        match json_get_bool(*value, key@) {
            Some(b) => r == Ok::<bool, BinanceError>(b),
            None => r matches Err(e) && invalid_response(e, field@ + " must be boolean"@),
        },
{
    match value.get(key) {
        Some(v) => match v.as_bool() {
            Some(b) => Ok(b),
            None => Err(BinanceError::InvalidResponse(concat2(field, " must be boolean"))),
        },
        None => Err(BinanceError::InvalidResponse(concat2(field, " must be boolean"))),
    }
}

fn stream_decimal(value: &JsonValue, key: &str, field: &str) -> (r: Result<Decimal, BinanceError>)
    ensures
        decimal_ok(*value, key@) ==> (r matches Ok(d) && d@ == decimal_at(*value, key@)),
        !decimal_ok(*value, key@) ==> (r matches Err(e) && decimal_error(*value, key@, field@, e)),
{
    let raw = match stream_text(value, key, field) {
        Ok(t) => t,
        Err(e) => return Err(e),
    };
    match Decimal::parse(raw) {
        Some(d) => Ok(d),
        None => Err(BinanceError::InvalidResponse(concat2(field, " contains invalid decimal text"))),
    }
}

fn stream_price(value: &JsonValue, key: &str, field: &str) -> (r: Result<Price, BinanceError>)
    ensures
        price_ok(*value, key@) ==> (r matches Ok(p) && p@ == decimal_at(*value, key@)),
        !price_ok(*value, key@) ==> (r matches Err(e) && price_error(*value, key@, field@, e)),
{
    let d = match stream_decimal(value, key, field) {
        Ok(d) => d,
        Err(e) => return Err(e),
    };
    match Price::new(d) {
        Ok(p) => Ok(p),
        Err(e) => Err(BinanceError::Domain(e)),
    }
}

fn stream_time(value: &JsonValue, key: &str, field: &str) -> (r: Result<Timestamp, BinanceError>)
    ensures
        time_ok(*value, key@) ==> (r matches Ok(t) && t@ == json_get_i64(*value, key@).unwrap()),
        !time_ok(*value, key@) ==> (r matches Err(e) && time_error(*value, key@, field@, e)),
{
    let ms = match stream_i64(value, key, field) {
        Ok(n) => n,
        Err(e) => return Err(e),
    };
    match Kline::timestamp(ms) {
        Ok(t) => Ok(t),
        Err(e) => Err(BinanceError::MarketData(e)),
    }
}

fn stream_kline(k: &JsonValue) -> (r: Result<Kline, BinanceError>)
    ensures
        r is Ok <==> stream_kline_ok(*k),
        r matches Ok(c) ==> stream_kline_matches(*k, c),
        r matches Ok(c) ==> json_get_str(*k, "h"@) matches Some(h) && decimal_parse(h) == Some(
            c.high@,
        ),
        r matches Ok(c) ==> json_get_str(*k, "l"@) matches Some(l) && decimal_parse(l) == Some(
            c.low@,
        ),
        r matches Err(e) ==> stream_kline_error(*k, e),
{
    let s = match stream_text(k, "s", "stream.k.s") {
        Ok(t) => t,
        Err(e) => return Err(e),
    };
    let symbol = match Symbol::new(s) {
        Ok(sym) => sym,
        Err(e) => return Err(BinanceError::Domain(e)),
    };
    let i = match stream_text(k, "i", "stream.k.i") {
        Ok(t) => t,
        Err(e) => return Err(e),
    };
    let interval = match Interval::parse(i) {
        Ok(iv) => iv,
        Err(e) => return Err(BinanceError::MarketData(e)),
    };
    let is_closed = match stream_bool(k, "x", "stream.k.x") {
        Ok(b) => b,
        Err(e) => return Err(e),
    };
    let open_time = match stream_time(k, "t", "stream.k.t") {
        Ok(t) => t,
        Err(e) => return Err(e),
    };
    let close_time = match stream_time(k, "T", "stream.k.T") {
        Ok(t) => t,
        Err(e) => return Err(e),
    };
    let open = match stream_price(k, "o", "stream.k.o") {
        Ok(p) => p,
        Err(e) => return Err(e),
    };
    let high = match stream_price(k, "h", "stream.k.h") {
        Ok(p) => p,
        Err(e) => return Err(e),
    };
    let low = match stream_price(k, "l", "stream.k.l") {
        Ok(p) => p,
        Err(e) => return Err(e),
    };
    let close = match stream_price(k, "c", "stream.k.c") {
        Ok(p) => p,
        Err(e) => return Err(e),
    };
    let volume = match stream_decimal(k, "v", "stream.k.v") {
        Ok(d) => d,
        Err(e) => return Err(e),
    };
    let quote_volume = match stream_decimal(k, "q", "stream.k.q") {
        Ok(d) => d,
        Err(e) => return Err(e),
    };
    let trade_count = match stream_u64(k, "n", "stream.k.n") {
        Ok(n) => n,
        Err(e) => return Err(e),
    };
    let taker_buy_volume = match stream_decimal(k, "V", "stream.k.V") {
        Ok(d) => d,
        Err(e) => return Err(e),
    };
    let taker_buy_quote_volume = match stream_decimal(k, "Q", "stream.k.Q") {
        Ok(d) => d,
        Err(e) => return Err(e),
    };
    Ok(
        Kline {
            symbol,
            interval,
            open_time,
            close_time,
            open,
            high,
            low,
            close,
            volume,
            quote_volume,
            trade_count,
            taker_buy_volume,
            taker_buy_quote_volume,
            is_closed,
        },
    )
}

/// What a kline stream frame decoded to `root` gives, taken as text `payload` at
/// `received_at`: success exactly when the document is a well-formed kline event, the
/// error that the first bad field gives otherwise, and on success the raw event of the
/// frame and the candle when it is closed.
pub open spec fn kline_frame_result(
    payload: Seq<char>,
    root: JsonValue,
    received_at: Timestamp,
    r: Result<ParsedKlineStreamMessage, BinanceError>,
) -> bool {
    &&& r is Ok <==> kline_frame_ok(root)
    &&& r matches Err(e) ==> kline_frame_error(root, e)
    &&& r matches Ok(p) ==> {
        &&& p.raw_event.source@ == "binance-usdm"@
        &&& Some(p.raw_event.channel@) == frame_channel(root)
        &&& p.raw_event.payload@ == payload
        &&& p.raw_event.received_at == received_at
        &&& p.raw_event.exchange_event_time matches Some(t) && t@ == json_get_i64(
            frame_data(root),
            "E"@,
        ).unwrap()
        &&& crate::market_data::raw_event_hash_ok(p.raw_event)
        &&& p.raw_event.schema_version == 1
        &&& (json_get_bool(frame_kline(root), "x"@) == Some(true)) == (p.closed_kline is Some)
        &&& p.closed_kline matches Some(c) ==> stream_kline_matches(frame_kline(root), c)
    }
}

/// Binance's stream candle schema: a closed candle read from a kline frame takes its
/// open, high, low and close from the decimal texts of members `o`, `h`, `l` and `c` of
/// the frame's `k` object; so its low is at most its high whenever the exchange sends a
/// low at most its high.
pub proof fn lemma_stream_candle_follows_kline_schema(
    payload: Seq<char>,
    root: JsonValue,
    received_at: Timestamp,
    r: Result<ParsedKlineStreamMessage, BinanceError>,
)
    requires
        kline_frame_result(payload, root, received_at, r),
    ensures
        r matches Ok(p) ==> (p.closed_kline matches Some(c) ==> {
            let k = frame_kline(root);
            &&& json_get_str(k, "o"@) is Some && decimal_parse(json_get_str(k, "o"@).unwrap())
                == Some(c.open@)
            &&& json_get_str(k, "h"@) is Some && decimal_parse(json_get_str(k, "h"@).unwrap())
                == Some(c.high@)
            &&& json_get_str(k, "l"@) is Some && decimal_parse(json_get_str(k, "l"@).unwrap())
                == Some(c.low@)
            &&& json_get_str(k, "c"@) is Some && decimal_parse(json_get_str(k, "c"@).unwrap())
                == Some(c.close@)
            &&& value_le(
                decimal_parse(json_get_str(k, "l"@).unwrap()).unwrap(),
                decimal_parse(json_get_str(k, "h"@).unwrap()).unwrap(),
            ) ==> value_le(c.low@, c.high@)
        }),
{
}

/// Parses a raw or combined Binance kline stream text frame: the text is decoded as
/// JSON, a decoding failure is an invalid response carrying the decoder's message, and
/// the decoded document is read as `parse_kline_stream_frame` reads it.
pub fn parse_kline_stream_message(payload: &str, received_at: Timestamp) -> (r: Result<
    ParsedKlineStreamMessage,
    BinanceError,
>)
    ensures
        match json_decode(payload@) {
            Ok(root) => kline_frame_result(payload@, root, received_at, r),
            Err(m) => r matches Err(e) && invalid_response(e, m),
        },
{
    match decode_json(payload) {
        Ok(root) => parse_kline_stream_frame(payload, &root, received_at),
        Err(m) => Err(BinanceError::InvalidResponse(m)),
    }
}

/// Reads a kline stream frame already decoded to `root`; `payload` is the frame text
/// that `root` was decoded from, kept in the raw event.
pub fn parse_kline_stream_frame(
    payload: &str,
    root: &JsonValue,
    received_at: Timestamp,
) -> (r: Result<
    ParsedKlineStreamMessage,
    BinanceError,
>)
    ensures
        kline_frame_result(payload@, *root, received_at, r),
{
    let (channel, data): (String, &JsonValue) = match (root.get("stream"), root.get("data")) {
        (Some(stream), Some(data)) => match stream.as_str() {
            Some(s) => (owned(s), data),
            None => return Err(BinanceError::InvalidResponse(owned("stream must be text"))),
        },
        _ => (owned("raw-kline-stream"), root),
    };
    let event_type = match stream_text(data, "e", "stream.e") {
        Ok(t) => t,
        Err(e) => return Err(e),
    };
    if !crate::text::same_text(event_type, "kline") {
        return Err(
            BinanceError::InvalidResponse(concat2("unexpected stream event type: ", event_type)),
        );
    }
    let event_time = match stream_time(data, "E", "stream.E") {
        Ok(t) => t,
        Err(e) => return Err(e),
    };
    let kline = match data.get("k") {
        Some(k) => k,
        None => return Err(BinanceError::InvalidResponse(owned("stream.k is missing"))),
    };
    let normalized = match stream_kline(kline) {
        Ok(c) => c,
        Err(e) => return Err(e),
    };
    let closed = normalized.is_closed;
    let raw_event = RawEvent::new("binance-usdm", channel.as_str(), Some(event_time), received_at, payload);
    Ok(
        ParsedKlineStreamMessage {
            raw_event,
            closed_kline: if closed {
                Some(normalized)
            } else {
                None
            },
        },
    )
}

} // verus!
