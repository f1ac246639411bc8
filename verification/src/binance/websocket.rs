//! Classified Binance USDⓈ-M WebSocket URLs.

use vstd::prelude::*;
use vstd::string::*;

use crate::binance::error::{invalid_request, BinanceError};
use crate::text::{concat2, concat3, owned};

verus! {

/// New high-frequency public WebSocket routing root.
pub const MAINNET_PUBLIC_WS_BASE: &'static str = "wss://fstream.binance.com/public";

/// New regular market-data WebSocket routing root.
pub const MAINNET_MARKET_WS_BASE: &'static str = "wss://fstream.binance.com/market";

/// WebSocket routing category introduced by Binance's classified URL architecture.
#[derive(Debug, Clone, Copy, PartialEq, Eq, Structural)]
pub enum WebSocketCategory {
    /// High-frequency public data such as trades or depth.
    Public,
    /// Regular market data such as mark-price streams.
    Market,
}

/// The routing root of a category.
pub open spec fn category_base(c: WebSocketCategory) -> Seq<char> {
    match c {
        WebSocketCategory::Public => "wss://fstream.binance.com/public"@,
        WebSocketCategory::Market => "wss://fstream.binance.com/market"@,
    }
}

impl WebSocketCategory {
    /// The routing root of this category.
    pub fn base_url(self) -> (s: &'static str)
        ensures
            s@ == category_base(self),
    {
        match self {
            WebSocketCategory::Public => "wss://fstream.binance.com/public",
            WebSocketCategory::Market => "wss://fstream.binance.com/market",
        }
    }
}

/// A character allowed in a stream name: ASCII letters and digits, `@`, `_`, `-`, `.`.
pub open spec fn stream_char(c: char) -> bool {
    ('a' <= c && c <= 'z') || ('A' <= c && c <= 'Z') || ('0' <= c && c <= '9') || c == '@' || c
        == '_' || c == '-' || c == '.'
}

/// A valid stream name: 1 to 256 allowed characters.
pub open spec fn valid_stream_name(s: Seq<char>) -> bool {
    &&& 0 < s.len() <= 256
    &&& forall|i: int| 0 <= i < s.len() ==> #[trigger] stream_char(s[i])
}

/// The message rejecting a stream name.
pub open spec fn bad_stream_message(s: Seq<char>) -> Seq<char> {
    "invalid WebSocket stream name: "@ + s
}

fn all_stream_chars(value: &str) -> (ok: bool)
    ensures
        ok == (forall|i: int| 0 <= i < value@.len() ==> #[trigger] stream_char(value@[i])),
{
    let n = value.unicode_len();
    let mut i: usize = 0;
    while i < n
        invariant
            n == value@.len(),
            i <= n,
            forall|j: int| 0 <= j < i ==> #[trigger] stream_char(value@[j]),
        decreases n - i,
    {
        let c = value.get_char(i);
        let ok = ('a' <= c && c <= 'z') || ('A' <= c && c <= 'Z') || ('0' <= c && c <= '9') || c
            == '@' || c == '_' || c == '-' || c == '.';
        if !ok {
            assert(!stream_char(value@[i as int]));
            return false;
        }
        i = i + 1;
    }
    true
}

/// Checks a stream name.
pub fn validate_stream_name(stream: &str) -> (r: Result<(), BinanceError>)
    ensures
        r is Ok <==> valid_stream_name(stream@),
        r matches Err(e) ==> invalid_request(e, bad_stream_message(stream@)),
{
    let n = stream.unicode_len();
    if n > 0 && n <= 256 && all_stream_chars(stream) {
        Ok(())
    } else {
        Err(BinanceError::InvalidRequest(concat2("invalid WebSocket stream name: ", stream)))
    }
}

/// Builds a classified single-stream URL without opening a connection.
pub fn single_stream_url(
    category: WebSocketCategory,
    stream: &str,
) -> (r: Result<String, BinanceError>)
    ensures
        r is Ok <==> valid_stream_name(stream@),
        r matches Ok(u) ==> u@ == category_base(category) + "/ws/"@ + stream@,
        r matches Err(e) ==> invalid_request(e, bad_stream_message(stream@)),
{
    match validate_stream_name(stream) {
        Ok(()) => Ok(concat3(category.base_url(), "/ws/", stream)),
        Err(e) => Err(e),
    }
}

/// Stream names joined by `/`.
pub open spec fn join_streams(names: Seq<String>) -> Seq<char>
    decreases names.len(),
{
    if names.len() == 0 {
        Seq::empty()
    } else if names.len() == 1 {
        names[0]@
    } else {
        join_streams(names.drop_last()) + "/"@ + names.last()@
    }
}

/// Index of the first invalid stream name, if any.
pub open spec fn first_invalid(names: Seq<String>) -> Option<int> {
    if exists|i: int| 0 <= i < names.len() && !valid_stream_name(#[trigger] names[i]@) {
        Some(
            choose|i: int|
                0 <= i < names.len() && !valid_stream_name(#[trigger] names[i]@) && forall|j: int|
                    0 <= j < i ==> valid_stream_name(#[trigger] names[j]@),
        )
    } else {
        None
    }
}

/// Builds a classified combined-stream URL without opening a connection.
pub fn combined_stream_url(category: WebSocketCategory, streams: &[String]) -> (r: Result<
    String,
    BinanceError,
>)
    ensures
        streams@.len() == 0 ==> (r matches Err(e) && invalid_request(
            e,
            "combined stream list must not be empty"@,
        )),
        streams@.len() > 0 && first_invalid(streams@) is None ==> (r matches Ok(u) && u@
            == category_base(category) + "/stream?streams="@ + join_streams(streams@)),
        streams@.len() > 0 && first_invalid(streams@) is Some ==> (r matches Err(e)
            && invalid_request(e, bad_stream_message(streams@[first_invalid(streams@).unwrap()]@))),
{
    if streams.len() == 0 {
        return Err(BinanceError::InvalidRequest(owned("combined stream list must not be empty")));
    }
    let mut i: usize = 0;
    while i < streams.len()
        invariant
            i <= streams@.len(),
            forall|j: int| 0 <= j < i ==> valid_stream_name(#[trigger] streams@[j]@),
        decreases streams@.len() - i,
    {
        match validate_stream_name(streams[i].as_str()) {
            Ok(()) => {},
            Err(e) => {
                proof {
                    let k = i as int;
                    assert(0 <= k < streams@.len() && !valid_stream_name(streams@[k]@) && forall|j: int|
                        0 <= j < k ==> valid_stream_name(#[trigger] streams@[j]@));
                    let c = choose|c: int|
                        0 <= c < streams@.len() && !valid_stream_name(#[trigger] streams@[c]@)
                            && forall|j: int| 0 <= j < c ==> valid_stream_name(#[trigger] streams@[j]@);
                    assert(c == k) by {
                        if c < k {
                            assert(valid_stream_name(streams@[c]@));
                        }
                        if c > k {
                            assert(valid_stream_name(streams@[k]@));
                        }
                    }
                }
                return Err(e);
            },
        }
        i = i + 1;
    }
    let mut joined = streams[0].clone();
    let mut k: usize = 1;
    while k < streams.len()
        invariant
            1 <= k <= streams@.len(),
            joined@ == join_streams(streams@.subrange(0, k as int)),
        decreases streams@.len() - k,
    {
        joined.append("/");
        joined.append(streams[k].as_str());
        proof {
            let next = streams@.subrange(0, k + 1);
            assert(next.drop_last() =~= streams@.subrange(0, k as int));
        }
        k = k + 1;
    }
    proof {
        assert(streams@.subrange(0, streams@.len() as int) =~= streams@);
        assert(first_invalid(streams@) is None);
    }
    Ok(concat3(category.base_url(), "/stream?streams=", joined.as_str()))
}

} // verus!
