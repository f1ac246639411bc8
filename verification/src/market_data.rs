//! Exchange-neutral market-data events, hashes, and continuity checks.

use vstd::prelude::*;
use vstd::string::*;

use crate::decimal::Decimal;
use crate::domain::{domain_error_message, DomainError, Price, Symbol};
use crate::text::{concat2, i64_to_text, int_text, owned, push_char, same_text, trim, trimmed};
use crate::time::{chrono_millis_representable, Duration, Timestamp};

verus! {

/// Market-data validation failure.
#[derive(Debug, Clone, PartialEq)]
pub enum MarketDataError {
    /// Unsupported interval text.
    UnsupportedInterval(String),
    /// Timestamp was outside the supported chrono range.
    InvalidTimestamp(i64),
    /// Domain value was invalid.
    Domain(DomainError),
}

/// The message of a market-data error.
pub open spec fn market_data_error_message(e: MarketDataError) -> Seq<char> {
    match e {
        MarketDataError::UnsupportedInterval(s) => "unsupported interval: "@ + s@,
        MarketDataError::InvalidTimestamp(ms) => "invalid unix timestamp in milliseconds: "@
            + int_text(ms as int),
        MarketDataError::Domain(d) => domain_error_message(d),
    }
}

impl MarketDataError {
    /// The human-readable message.
    pub fn message(&self) -> (s: String)
        ensures
            s@ == market_data_error_message(*self),
    {
        match self {
            MarketDataError::UnsupportedInterval(v) => concat2(
                "unsupported interval: ",
                v.as_str(),
            ),
            MarketDataError::InvalidTimestamp(ms) => {
                let t = i64_to_text(*ms);
                concat2("invalid unix timestamp in milliseconds: ", t.as_str())
            },
            MarketDataError::Domain(d) => d.message(),
        }
    }
}

/// Supported MVP candlestick intervals.
#[derive(Debug, Clone, Copy, PartialEq, Eq, Hash, Structural)]
pub enum Interval {
    /// Fifteen minutes.
    M15,
    /// One hour.
    H1,
    /// Four hours.
    H4,
}

/// The Binance text of an interval.
pub open spec fn interval_text(i: Interval) -> Seq<char> {
    match i {
        Interval::M15 => "15m"@,
        Interval::H1 => "1h"@,
        Interval::H4 => "4h"@,
    }
}

/// The exact length of an interval in milliseconds.
pub open spec fn interval_ms(i: Interval) -> int {
    match i {
        Interval::M15 => 900_000int,
        Interval::H1 => 3_600_000int,
        Interval::H4 => 14_400_000int,
    }
}

/// The interval an interval text names, ignoring surrounding whitespace.
pub open spec fn interval_named(text: Seq<char>) -> Option<Interval> {
    let t = trimmed(text);
    if t == "15m"@ {
        Some(Interval::M15)
    } else if t == "1h"@ {
        Some(Interval::H1)
    } else if t == "4h"@ {
        Some(Interval::H4)
    } else {
        None
    }
}

impl Interval {
    /// Binance API representation.
    pub fn as_binance(self) -> (s: &'static str)
        ensures
            s@ == interval_text(self),
    {
        match self {
            Interval::M15 => "15m",
            Interval::H1 => "1h",
            Interval::H4 => "4h",
        }
    }

    /// Exact interval length in milliseconds.
    pub fn milliseconds(self) -> (ms: i64)
        ensures
            ms == interval_ms(self),
    {
        match self {
            Interval::M15 => 15 * 60 * 1_000,
            Interval::H1 => 60 * 60 * 1_000,
            Interval::H4 => 4 * 60 * 60 * 1_000,
        }
    }

    /// Exact interval length.
    pub fn duration(self) -> (d: Duration)
        ensures
            d@ == interval_ms(self) * 1_000_000,
    {
        let ms = self.milliseconds();
        Duration::from_millis(ms as u64)
    }

    /// Parses `15m`, `1h` or `4h`, ignoring surrounding whitespace.
    pub fn parse(value: &str) -> (r: Result<Interval, MarketDataError>)
        ensures
            interval_named(value@) matches Some(i) ==> r == Ok::<Interval, MarketDataError>(i),
            interval_named(value@) is None ==> (r matches Err(
                MarketDataError::UnsupportedInterval(s),
            ) && s@ == trimmed(value@)),
    {
        let t = trim(value);
        if same_text(t, "15m") {
            Ok(Interval::M15)
        } else if same_text(t, "1h") {
            Ok(Interval::H1)
        } else if same_text(t, "4h") {
            Ok(Interval::H4)
        } else {
            Err(MarketDataError::UnsupportedInterval(owned(t)))
        }
    }
}

impl core::str::FromStr for Interval {
    type Err = MarketDataError;

    fn from_str(value: &str) -> (r: Result<Interval, MarketDataError>)
        ensures
            interval_named(value@) matches Some(i) ==> r == Ok::<Interval, MarketDataError>(i),
            interval_named(value@) is None ==> (r matches Err(
                MarketDataError::UnsupportedInterval(s),
            ) && s@ == trimmed(value@)),
    {
        Interval::parse(value)
    }
}

/// Normalized closed or in-progress candlestick.
#[derive(Debug, Clone, PartialEq)]
pub struct Kline {
    /// Contract symbol.
    pub symbol: Symbol,
    /// Candle interval.
    pub interval: Interval,
    /// Inclusive candle open time.
    pub open_time: Timestamp,
    /// Inclusive exchange close timestamp.
    pub close_time: Timestamp,
    /// Open price.
    pub open: Price,
    /// High price.
    pub high: Price,
    /// Low price.
    pub low: Price,
    /// Close price.
    pub close: Price,
    /// Base-asset volume. Zero is valid.
    pub volume: Decimal,
    /// Quote-asset volume. Zero is valid.
    pub quote_volume: Decimal,
    /// Trade count.
    pub trade_count: u64,
    /// Taker-buy base volume.
    pub taker_buy_volume: Decimal,
    /// Taker-buy quote volume.
    pub taker_buy_quote_volume: Decimal,
    /// True only when the exchange says the candle is closed.
    pub is_closed: bool,
}

impl Kline {
    /// Converts a millisecond timestamp into a UTC instant.
    pub fn timestamp(milliseconds: i64) -> (r: Result<Timestamp, MarketDataError>)
        ensures
            r is Ok <==> chrono_millis_representable(milliseconds as int),
            r matches Ok(t) ==> t@ == milliseconds as int,
            r is Err ==> r == Err::<Timestamp, MarketDataError>(
                MarketDataError::InvalidTimestamp(milliseconds),
            ),
    {
        match Timestamp::from_millis(milliseconds) {
            Some(t) => Ok(t),
            None => Err(MarketDataError::InvalidTimestamp(milliseconds)),
        }
    }
}

/// What SHA-256 computes for a byte string.
pub uninterp spec fn sha256(bytes: Seq<u8>) -> Seq<u8>;

/// Calls `sha2::Sha256::digest`; the digest is named, and is 32 bytes long.
#[verifier::external_body]
fn sha256_digest(bytes: &[u8]) -> (d: Vec<u8>)
    ensures
        d@ == sha256(bytes@),
        d@.len() == 32,
{
    <sha2::Sha256 as sha2::Digest>::digest(bytes).to_vec()
}

/// The lowercase hexadecimal digit of a value below 16.
pub open spec fn hex_digit(n: int) -> char {
    if n < 10 {
        (48 + n) as char
    } else {
        (97 + n - 10) as char
    }
}

/// Lowercase hexadecimal text of a byte string, two digits per byte.
pub open spec fn hex_lower(bytes: Seq<u8>) -> Seq<char> {
    Seq::new(
        2 * bytes.len(),
        |i: int|
            if i % 2 == 0 {
                hex_digit(bytes[i / 2] as int / 16)
            } else {
                hex_digit(bytes[i / 2] as int % 16)
            },
    )
}

/// The SHA-256 text stored with a payload: lowercase hex of the digest of its UTF-8 bytes.
pub open spec fn payload_hash_text(payload: Seq<char>) -> Seq<char> {
    hex_lower(sha256(vstd::utf8::encode_utf8(payload)))
}

fn hex_char(n: u8) -> (c: char)
    requires
        n < 16,
    ensures
        c == hex_digit(n as int),
{
    if n < 10 {
        let b: u8 = 48 + n;
        b as char
    } else {
        let b: u8 = 97 + n - 10;
        b as char
    }
}

fn sha256_hex(bytes: &[u8]) -> (s: String)
    ensures
        s@ == hex_lower(sha256(bytes@)),
        s@.len() == 64,
{
    let digest = sha256_digest(bytes);
    let mut out = String::new();
    let mut i: usize = 0;
    while i < digest.len()
        invariant
            i <= digest@.len(),
            digest@.len() == 32,
            out@ == hex_lower(digest@.subrange(0, i as int)),
        decreases digest@.len() - i,
    {
        let b = digest[i];
        let hi = hex_char(b / 16);
        let lo = hex_char(b % 16);
        push_char(&mut out, hi);
        push_char(&mut out, lo);
        proof {
            let prev = digest@.subrange(0, i as int);
            let next = digest@.subrange(0, i + 1);
            assert(hex_lower(next) =~= hex_lower(prev).push(hi).push(lo)) by {
                assert forall|k: int| 0 <= k < 2 * next.len() implies #[trigger] hex_lower(next)[k]
                    == hex_lower(prev).push(hi).push(lo)[k] by {
                    if k < 2 * prev.len() {
                        assert(next[k / 2] == prev[k / 2]);
                    }
                }
            }
        }
        i = i + 1;
    }
    proof {
        assert(digest@.subrange(0, digest@.len() as int) =~= digest@);
    }
    out
}

/// Auditable raw event metadata.
#[derive(Debug, Clone, PartialEq)]
pub struct RawEvent {
    /// Schema version for forwards-compatible replay.
    pub schema_version: u16,
    /// Adapter source name.
    pub source: String,
    /// Endpoint or stream identifier.
    pub channel: String,
    /// Optional exchange event time.
    pub exchange_event_time: Option<Timestamp>,
    /// Local receive time.
    pub received_at: Timestamp,
    /// SHA-256 of the exact UTF-8 payload bytes.
    pub payload_sha256: String,
    /// The exact JSON payload as received.
    pub payload: String,
}

/// The stored hash matches the stored payload.
pub open spec fn raw_event_hash_ok(e: RawEvent) -> bool {
    e.payload_sha256@ == payload_hash_text(e.payload@)
}

impl RawEvent {
    /// Builds an auditable event from an exact payload.
    pub fn new(
        source: &str,
        channel: &str,
        exchange_event_time: Option<Timestamp>,
        received_at: Timestamp,
        payload: &str,
    ) -> (e: RawEvent)
        ensures
            e.schema_version == 1,
            e.source@ == source@,
            e.channel@ == channel@,
            e.exchange_event_time == exchange_event_time,
            e.received_at == received_at,
            e.payload@ == payload@,
            e.payload_sha256@ == payload_hash_text(payload@),
            e.payload_sha256@.len() == 64,
            raw_event_hash_ok(e),
    {
        let hash = sha256_hex(payload.as_bytes());
        RawEvent {
            schema_version: 1,
            source: owned(source),
            channel: owned(channel),
            exchange_event_time,
            received_at,
            payload_sha256: hash,
            payload: owned(payload),
        }
    }

    /// Verifies that stored content still matches its hash.
    pub fn verify_hash(&self) -> (ok: bool)
        ensures
            ok == raw_event_hash_ok(*self),
    {
        let hash = sha256_hex(self.payload.as_str().as_bytes());
        self.payload_sha256 == hash
    }
}

/// Result of observing one candle in stream order.
#[derive(Debug, Clone, Copy, PartialEq, Eq, Structural)]
pub enum Continuity {
    /// First candle for a symbol and interval.
    First,
    /// Candle follows the previous candle exactly.
    Continuous,
    /// Exact same open time was already observed.
    Duplicate,
    /// One or more candles are missing.
    Gap {
        /// First missing candle open time.
        expected_open_time: Timestamp,
        /// Observed candle open time.
        actual_open_time: Timestamp,
        /// Number of missing candle slots after the expected open time, rounded up (at
        /// least one).
        missing_candles: u64,
    },
    /// Candle is older than the latest accepted candle.
    OutOfOrder {
        /// Latest accepted open time.
        latest_open_time: Timestamp,
        /// Older observed open time.
        actual_open_time: Timestamp,
    },
}

/// A stream key: symbol text and interval.
pub type StreamKey = (Seq<char>, Interval);

struct LatestEntry {
    symbol: Symbol,
    interval: Interval,
    open_time: Timestamp,
}

spec fn entry_key(e: LatestEntry) -> StreamKey {
    (e.symbol@, e.interval)
}

spec fn entries_map(s: Seq<LatestEntry>) -> Map<StreamKey, int>
    decreases s.len(),
{
    if s.len() == 0 {
        Map::empty()
    } else {
        entries_map(s.drop_last()).insert(entry_key(s.last()), s.last().open_time@)
    }
}

spec fn keys_unique(s: Seq<LatestEntry>) -> bool {
    forall|i: int, j: int|
        0 <= i < j < s.len() ==> entry_key(#[trigger] s[i]) != entry_key(#[trigger] s[j])
}

proof fn lemma_entries_map_lookup(s: Seq<LatestEntry>, k: StreamKey)
    requires
        keys_unique(s),
    ensures
        entries_map(s).contains_key(k) <==> exists|i: int|
            0 <= i < s.len() && entry_key(#[trigger] s[i]) == k,
        forall|i: int|
            0 <= i < s.len() && entry_key(#[trigger] s[i]) == k ==> entries_map(s)[k]
                == s[i].open_time@,
    decreases s.len(),
{
    if s.len() > 0 {
        let p = s.drop_last();
        assert(keys_unique(p));
        lemma_entries_map_lookup(p, k);
        if entries_map(s).contains_key(k) && entry_key(s.last()) != k {
            let i = choose|i: int| 0 <= i < p.len() && entry_key(#[trigger] p[i]) == k;
            assert(s[i] == p[i]);
        }
        assert forall|i: int| 0 <= i < s.len() && entry_key(#[trigger] s[i]) == k implies entries_map(
            s,
        )[k] == s[i].open_time@ by {
            if i < s.len() - 1 {
                assert(s[i] == p[i]);
                assert(entry_key(s[i]) != entry_key(s[s.len() - 1]));
            }
        }
        if exists|i: int| 0 <= i < s.len() && entry_key(#[trigger] s[i]) == k {
            let i = choose|i: int| 0 <= i < s.len() && entry_key(#[trigger] s[i]) == k;
            if i < s.len() - 1 {
                assert(s[i] == p[i]);
            }
        }
    }
}

proof fn lemma_entries_map_update(s: Seq<LatestEntry>, idx: int, e: LatestEntry)
    requires
        keys_unique(s),
        0 <= idx < s.len(),
        entry_key(e) == entry_key(s[idx]),
    ensures
        keys_unique(s.update(idx, e)),
        entries_map(s.update(idx, e)) == entries_map(s).insert(entry_key(e), e.open_time@),
    decreases s.len(),
{
    let t = s.update(idx, e);
    assert(keys_unique(t)) by {
        assert forall|i: int, j: int| 0 <= i < j < t.len() implies entry_key(#[trigger] t[i])
            != entry_key(#[trigger] t[j]) by {
            assert(entry_key(t[i]) == entry_key(s[i]));
            assert(entry_key(t[j]) == entry_key(s[j]));
        }
    }
    if idx == s.len() - 1 {
        assert(t.drop_last() =~= s.drop_last());
        assert(entries_map(t) =~= entries_map(s).insert(entry_key(e), e.open_time@)) by {
            lemma_entries_map_lookup(s.drop_last(), entry_key(e));
        }
    } else {
        let p = s.drop_last();
        assert(keys_unique(p));
        lemma_entries_map_update(p, idx, e);
        assert(t.drop_last() =~= p.update(idx, e));
        assert(entry_key(s.last()) != entry_key(e));
        assert(entries_map(t) =~= entries_map(s).insert(entry_key(e), e.open_time@));
    }
}

/// The number of candle slots in a span after the expected open time, rounded up: a
/// candle that opens anywhere past the expected time leaves at least one slot missing.
pub open spec fn missing_slots(span: int, iv: int) -> int {
    (span + iv - 1) / iv
}

/// The continuity result for a candle, given the stream's latest accepted open time.
pub open spec fn classify(latest: Option<int>, kline: Kline, result: Continuity) -> bool {
    let open = kline.open_time@;
    let iv = interval_ms(kline.interval);
    match latest {
        None => result == Continuity::First,
        Some(prev) => if open == prev {
            result == Continuity::Duplicate
        } else if open < prev || open < prev + iv {
            result matches Continuity::OutOfOrder { latest_open_time: l, actual_open_time: a }
                && l@ == prev && a@ == open
        } else if open == prev + iv {
            result == Continuity::Continuous
        } else {
            result matches Continuity::Gap {
                expected_open_time: e,
                actual_open_time: a,
                missing_candles: m,
            } && e@ == prev + iv && a@ == open && m as int == missing_slots(open - (prev + iv), iv)
        },
    }
}

/// The latest open time after observing: new streams and continuous candles advance it.
pub open spec fn advanced(latest: Option<int>, kline: Kline) -> bool {
    match latest {
        None => true,
        Some(prev) => kline.open_time@ == prev + interval_ms(kline.interval),
    }
}

/// Observing cannot fail: the expected next open time is one `chrono` can represent
/// whenever the candle is newer than the latest accepted one.
pub open spec fn observe_defined(latest: Option<int>, kline: Kline) -> bool {
    match latest {
        None => true,
        Some(prev) => kline.open_time@ > prev ==> chrono_millis_representable(
            prev + interval_ms(kline.interval),
        ),
    }
}

/// Stateful continuity detector keyed by symbol and interval.
pub struct GapDetector {
    latest: Vec<LatestEntry>,
}

impl View for GapDetector {
    type V = Map<StreamKey, int>;

    closed spec fn view(&self) -> Map<StreamKey, int> {
        entries_map(self.latest@)
    }
}

/// The stream's latest accepted open time in a detector state.
pub open spec fn latest_of(m: Map<StreamKey, int>, k: StreamKey) -> Option<int> {
    if m.contains_key(k) {
        Some(m[k])
    } else {
        None
    }
}

impl GapDetector {
    #[verifier::type_invariant]
    closed spec fn inv(self) -> bool {
        keys_unique(self.latest@)
    }

    /// A detector that has seen nothing.
    pub fn new() -> (d: GapDetector)
        ensures
            d@ == Map::<StreamKey, int>::empty(),
    {
        let d = GapDetector { latest: Vec::new() };
        assert(d@ =~= Map::<StreamKey, int>::empty());
        d
    }

    fn find(&self, symbol: &Symbol, interval: Interval) -> (r: Option<usize>)
        ensures
            r matches Some(i) ==> i < self.latest@.len() && entry_key(self.latest@[i as int]) == (
                symbol@,
                interval,
            ),
            r is None ==> forall|i: int|
                0 <= i < self.latest@.len() ==> entry_key(#[trigger] self.latest@[i]) != (
                    symbol@,
                    interval,
                ),
    {
        let mut i: usize = 0;
        while i < self.latest.len()
            invariant
                i <= self.latest@.len(),
                forall|j: int|
                    0 <= j < i ==> entry_key(#[trigger] self.latest@[j]) != (symbol@, interval),
            decreases self.latest@.len() - i,
        {
            let e = &self.latest[i];
            if e.interval == interval && e.symbol.same(symbol) {
                return Some(i);
            }
            i = i + 1;
        }
        None
    }

    /// Returns the latest accepted open time for a symbol and interval.
    pub fn latest_open_time(&self, symbol: &Symbol, interval: Interval) -> (r: Option<Timestamp>)
        ensures
            r matches Some(t) ==> latest_of(self@, (symbol@, interval)) == Some(t@),
            r is None ==> latest_of(self@, (symbol@, interval)) is None,
    {
        proof {
            use_type_invariant(self);
            lemma_entries_map_lookup(self.latest@, (symbol@, interval));
        }
        match self.find(symbol, interval) {
            Some(i) => Some(self.latest[i].open_time),
            None => None,
        }
    }

    /// Observes a candle and classifies its ordering, or returns `None` (leaving the
    /// state unchanged) when the expected next open time is outside `chrono`'s range.
    pub fn try_observe(&mut self, kline: &Kline) -> (r: Option<Continuity>)
        ensures
            r is Some <==> observe_defined(latest_of(old(self)@, (kline.symbol@, kline.interval)), *kline),
            r matches Some(c) ==> classify(
                latest_of(old(self)@, (kline.symbol@, kline.interval)),
                *kline,
                c,
            ),
            r is Some && advanced(latest_of(old(self)@, (kline.symbol@, kline.interval)), *kline)
                ==> final(self)@ == old(self)@.insert(
                (kline.symbol@, kline.interval),
                kline.open_time@,
            ),
            !(r is Some && advanced(latest_of(old(self)@, (kline.symbol@, kline.interval)), *kline))
                ==> final(self)@ == old(self)@,
    {
        proof {
            use_type_invariant(&*self);
            lemma_entries_map_lookup(self.latest@, (kline.symbol@, kline.interval));
        }
        let key_interval = kline.interval;
        let open = kline.open_time;
        let open_ms = open.millis();
        match self.find(&kline.symbol, key_interval) {
            None => {
                let entry = LatestEntry {
                    symbol: kline.symbol.duplicate(),
                    interval: key_interval,
                    open_time: open,
                };
                let ghost old_entries = self.latest@;
                proof {
                    assert(keys_unique(old_entries.push(entry))) by {
                        assert forall|i: int, j: int|
                            0 <= i < j < old_entries.push(entry).len() implies entry_key(
                            #[trigger] old_entries.push(entry)[i],
                        ) != entry_key(#[trigger] old_entries.push(entry)[j]) by {
                            assert(old_entries.push(entry)[i] == old_entries[i]);
                            if j < old_entries.len() {
                                assert(old_entries.push(entry)[j] == old_entries[j]);
                            }
                        }
                    }
                    assert(old_entries.push(entry).drop_last() =~= old_entries);
                }
                let mut entries: Vec<LatestEntry> = Vec::new();
                std::mem::swap(&mut entries, &mut self.latest);
                entries.push(entry);
                self.latest = entries;
                Some(Continuity::First)
            },
            Some(i) => {
                let previous = self.latest[i].open_time;
                let prev_ms = previous.millis();
                if open_ms == prev_ms {
                    return Some(Continuity::Duplicate);
                }
                if open_ms < prev_ms {
                    return Some(
                        Continuity::OutOfOrder { latest_open_time: previous, actual_open_time: open },
                    );
                }
                let iv = key_interval.milliseconds();
                let expected = match Timestamp::from_millis(prev_ms + iv) {
                    Some(t) => t,
                    None => return None,
                };
                let expected_ms = prev_ms + iv;
                if open_ms == expected_ms {
                    let entry = LatestEntry {
                        symbol: kline.symbol.duplicate(),
                        interval: key_interval,
                        open_time: open,
                    };
                    proof {
                        lemma_entries_map_update(self.latest@, i as int, entry);
                    }
                    let mut entries: Vec<LatestEntry> = Vec::new();
                    std::mem::swap(&mut entries, &mut self.latest);
                    entries.set(i, entry);
                    self.latest = entries;
                    Some(Continuity::Continuous)
                } else if open_ms > expected_ms {
                    let missing = (open_ms - expected_ms + iv - 1) / iv;
                    Some(
                        Continuity::Gap {
                            expected_open_time: expected,
                            actual_open_time: open,
                            missing_candles: missing as u64,
                        },
                    )
                } else {
                    Some(
                        Continuity::OutOfOrder { latest_open_time: previous, actual_open_time: open },
                    )
                }
            },
        }
    }

    /// Observes a candle and classifies its ordering.
    pub fn observe(&mut self, kline: &Kline) -> (c: Continuity)
        requires
            observe_defined(latest_of(old(self)@, (kline.symbol@, kline.interval)), *kline),
        ensures
            classify(latest_of(old(self)@, (kline.symbol@, kline.interval)), *kline, c),
            advanced(latest_of(old(self)@, (kline.symbol@, kline.interval)), *kline)
                ==> final(self)@ == old(self)@.insert((kline.symbol@, kline.interval), kline.open_time@),
            !advanced(latest_of(old(self)@, (kline.symbol@, kline.interval)), *kline)
                ==> final(self)@ == old(self)@,
    {
        self.try_observe(kline).unwrap()
    }
}

impl Default for GapDetector {
    fn default() -> (d: GapDetector)
        ensures
            d@ == Map::<StreamKey, int>::empty(),
    {
        GapDetector::new()
    }
}

/// The detector state after observing a candle: only a new stream or a continuous
/// candle moves the stream's latest open time.
pub open spec fn detector_step(m: Map<StreamKey, int>, kline: Kline) -> Map<StreamKey, int> {
    let key = (kline.symbol@, kline.interval);
    if advanced(latest_of(m, key), kline) {
        m.insert(key, kline.open_time@)
    } else {
        m
    }
}

/// Only `First` and `Continuous` move the detector; duplicates, gaps and out-of-order
/// candles leave every stream's state unchanged.
pub proof fn lemma_only_accepted_candles_advance(
    m: Map<StreamKey, int>,
    kline: Kline,
    c: Continuity,
)
    requires
        classify(latest_of(m, (kline.symbol@, kline.interval)), kline, c),
    ensures
        (c == Continuity::First || c == Continuity::Continuous) <==> advanced(
            latest_of(m, (kline.symbol@, kline.interval)),
            kline,
        ),
        !(c == Continuity::First || c == Continuity::Continuous) ==> detector_step(m, kline) == m,
{
}

/// A stream's latest accepted open time never moves backwards, and a stream advances by
/// exactly one interval at a time.
pub proof fn lemma_latest_never_decreases(m: Map<StreamKey, int>, kline: Kline, key: StreamKey)
    requires
        m.contains_key(key),
    ensures
        detector_step(m, kline).contains_key(key),
        detector_step(m, kline)[key] >= m[key],
        detector_step(m, kline)[key] != m[key] ==> key == (kline.symbol@, kline.interval)
            && detector_step(m, kline)[key] == m[key] + interval_ms(kline.interval),
{
}

/// Observing the same candle again right after it was accepted reports a duplicate.
pub proof fn lemma_replay_is_duplicate(m: Map<StreamKey, int>, kline: Kline, c: Continuity)
    requires
        advanced(latest_of(m, (kline.symbol@, kline.interval)), kline),
        classify(latest_of(detector_step(m, kline), (kline.symbol@, kline.interval)), kline, c),
    ensures
        c == Continuity::Duplicate,
{
}

/// A reported gap does not advance the stream (the missing candles must be accepted
/// first), the first missing open time lies before the observed one, and at least one
/// candle is reported missing.
pub proof fn lemma_gap_waits_for_missing_candles(
    m: Map<StreamKey, int>,
    kline: Kline,
    c: Continuity,
)
    requires
        classify(latest_of(m, (kline.symbol@, kline.interval)), kline, c),
        c is Gap,
    ensures
        detector_step(m, kline) == m,
        c->Gap_expected_open_time@ < kline.open_time@,
        c->Gap_missing_candles >= 1,
{
    let prev = latest_of(m, (kline.symbol@, kline.interval)).unwrap();
    let iv = interval_ms(kline.interval);
    let span = kline.open_time@ - (prev + iv);
    assert(missing_slots(span, iv) >= 1) by (nonlinear_arith)
        requires
            span > 0,
            iv > 0,
            missing_slots(span, iv) == (span + iv - 1) / iv,
    ;
}


/// The detector state after observing candles in order.
pub open spec fn detector_run(m: Map<StreamKey, int>, ks: Seq<Kline>) -> Map<StreamKey, int>
    decreases ks.len(),
{
    if ks.len() == 0 {
        m
    } else {
        detector_step(detector_run(m, ks.drop_last()), ks.last())
    }
}

/// Candles of one stream, each one interval after the previous, the first one interval
/// after `prev`.
pub open spec fn consecutive_after(ks: Seq<Kline>, key: StreamKey, prev: int) -> bool {
    forall|i: int|
        0 <= i < ks.len() ==> (#[trigger] ks[i]).symbol@ == key.0 && ks[i].interval == key.1
            && ks[i].open_time@ == prev + (i + 1) * interval_ms(key.1)
}

proof fn lemma_mul_succ(i: int, iv: int)
    ensures
        (i + 1) * iv == i * iv + iv,
{
    assert((i + 1) * iv == i * iv + iv) by (nonlinear_arith);
}

proof fn lemma_continuous_step(m: Map<StreamKey, int>, k: Kline, key: StreamKey, p: int)
    requires
        latest_of(m, key) == Some(p),
        k.symbol@ == key.0,
        k.interval == key.1,
        k.open_time@ == p + interval_ms(key.1),
    ensures
        classify(latest_of(m, key), k, Continuity::Continuous),
        latest_of(detector_step(m, k), key) == Some(p + interval_ms(key.1)),
{
    assert((k.symbol@, k.interval) == key);
}

/// The stream's latest accepted open time before each candle of `ks` is observed.
pub open spec fn latest_before(
    m: Map<StreamKey, int>,
    ks: Seq<Kline>,
    key: StreamKey,
    i: int,
) -> Option<int> {
    latest_of(detector_run(m, ks.take(i)), key)
}

proof fn lemma_consecutive_run(m: Map<StreamKey, int>, ks: Seq<Kline>, key: StreamKey, prev: int)
    requires
        latest_of(m, key) == Some(prev),
        consecutive_after(ks, key, prev),
    ensures
        forall|i: int|
            0 <= i <= ks.len() ==> #[trigger] latest_before(m, ks, key, i) == Some(
                prev + i * interval_ms(key.1),
            ),
    decreases ks.len(),
{
    let iv = interval_ms(key.1);
    if ks.len() == 0 {
        assert forall|i: int| 0 <= i <= ks.len() implies #[trigger] latest_before(m, ks, key, i)
            == Some(prev + i * iv) by {
            assert(ks.take(i) =~= Seq::<Kline>::empty());
            assert(i * iv == 0);
        }
    } else {
        let n = ks.len() - 1;
        let front = ks.drop_last();
        assert forall|i: int| 0 <= i < front.len() implies (#[trigger] front[i]).symbol@ == key.0
            && front[i].interval == key.1 && front[i].open_time@ == prev + (i + 1) * iv by {
            assert(front[i] == ks[i]);
        }
        lemma_consecutive_run(m, front, key, prev);
        assert(front.take(n) =~= front);
        assert(latest_before(m, front, key, n) == Some(prev + n * iv));
        let last = ks[n];
        lemma_mul_succ(n, iv);
        lemma_continuous_step(detector_run(m, front), last, key, prev + n * iv);
        assert forall|i: int| 0 <= i <= ks.len() implies #[trigger] latest_before(m, ks, key, i)
            == Some(prev + i * iv) by {
            if i <= n {
                assert(ks.take(i) =~= front.take(i));
                assert(latest_before(m, front, key, i) == Some(prev + i * iv));
            } else {
                assert(ks.take(i) =~= ks);
                assert(ks.drop_last() =~= front);
            }
        }
    }
}

/// Feeding a stream its candles one interval apart, starting one interval after its
/// latest accepted open time, reports every one of them as continuous and leaves the
/// stream at the last one. This is how a reported gap is closed: the missing candles,
/// then the candle that revealed the gap.
pub proof fn lemma_consecutive_candles_are_continuous(
    m: Map<StreamKey, int>,
    ks: Seq<Kline>,
    key: StreamKey,
    prev: int,
)
    requires
        latest_of(m, key) == Some(prev),
        consecutive_after(ks, key, prev),
    ensures
        forall|i: int|
            0 <= i < ks.len() ==> classify(
                latest_before(m, ks, key, i),
                #[trigger] ks[i],
                Continuity::Continuous,
            ),
        latest_of(detector_run(m, ks), key) == Some(prev + ks.len() * interval_ms(key.1)),
{
    let iv = interval_ms(key.1);
    lemma_consecutive_run(m, ks, key, prev);
    assert forall|i: int| 0 <= i < ks.len() implies classify(
        latest_before(m, ks, key, i),
        #[trigger] ks[i],
        Continuity::Continuous,
    ) by {
        assert(latest_before(m, ks, key, i) == Some(prev + i * iv));
        lemma_mul_succ(i, iv);
        lemma_continuous_step(detector_run(m, ks.take(i)), ks[i], key, prev + i * iv);
    }
    assert(latest_before(m, ks, key, ks.len() as int) == Some(prev + ks.len() * iv));
    assert(ks.take(ks.len() as int) =~= ks);
}

} // verus!
