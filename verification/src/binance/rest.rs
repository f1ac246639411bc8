//! Read-only public REST client: endpoint addressing, query construction and
//! response screening. The requests themselves are sent by the caller.

use vstd::prelude::*;
use vstd::string::*;

use crate::binance::error::BinanceError;
use crate::binance::models::{time_range_ordered, KlineRequest};
use crate::domain::Symbol;
use crate::market_data::Interval;
use crate::time::Timestamp;
use crate::market_data::interval_text;
use crate::text::{concat2, i64_to_text, int_text, owned, push_char, u16_to_text};

verus! {

/// Binance USDⓈ-M production REST endpoint.
pub const MAINNET_REST_BASE: &'static str = "https://fapi.binance.com";

/// Longest response body, in characters, kept in an error.
pub const MAX_BODY_CHARS: usize = 1024;

/// Total request timeout of the HTTP client, in seconds.
pub const REQUEST_TIMEOUT_SECS: u64 = 10;

/// `User-Agent` sent with every request.
pub const USER_AGENT: &'static str = "quanthelm/0.1.0";

#[verifier::external_type_specification]
#[verifier::external_body]
pub struct ExHttpClient(reqwest::Client);

/// `Clone` of `reqwest::Client`: a handle to the same connection pool. Nothing is
/// stated of the copy.
pub assume_specification[ <reqwest::Client as Clone>::clone ](client: &reqwest::Client) -> reqwest::Client;

/// The settings an HTTP client is built with.
#[derive(Debug, Clone)]
pub struct HttpSettings {
    /// Total request timeout, in seconds.
    pub timeout_secs: u64,
    /// `User-Agent` header sent with every request.
    pub user_agent: String,
}

/// The settings of the adapter's HTTP client: a bounded timeout and its own user agent.
pub fn http_settings() -> (s: HttpSettings)
    ensures
        s.timeout_secs == REQUEST_TIMEOUT_SECS,
        s.user_agent@ == USER_AGENT@,
{
    HttpSettings { timeout_secs: REQUEST_TIMEOUT_SECS, user_agent: owned(USER_AGENT) }
}

/// Builds a `reqwest::Client` from `reqwest::Client::builder()` with
/// `ClientBuilder::timeout` set to `settings.timeout_secs` seconds and
/// `ClientBuilder::user_agent` set to `settings.user_agent`, then `ClientBuilder::build`.
/// On success the settings handed in come back beside the client; a failure is returned
/// as the error's text. Nothing is stated of when construction fails.
#[verifier::external_body]
fn build_http_client(settings: HttpSettings) -> (r: Result<(reqwest::Client, HttpSettings), String>)
    ensures
        r matches Ok((_, s)) ==> s.timeout_secs == settings.timeout_secs && s.user_agent@
            == settings.user_agent@,
{
    let built = reqwest::Client::builder()
        .timeout(std::time::Duration::from_secs(settings.timeout_secs))
        .user_agent(settings.user_agent.as_str())
        .build();
    match built {
        Ok(client) => Ok((client, settings)),
        Err(error) => Err(error.to_string()),
    }
}

/// A base address without its trailing `/` characters.
pub open spec fn without_trailing_slashes(s: Seq<char>) -> Seq<char>
    decreases s.len(),
{
    if s.len() > 0 && s.last() == '/' {
        without_trailing_slashes(s.drop_last())
    } else {
        s
    }
}

proof fn lemma_trailing_slash_step(s: Seq<char>, n: int)
    requires
        0 < n <= s.len(),
        s[n - 1] == '/',
    ensures
        without_trailing_slashes(s.subrange(0, n)) == without_trailing_slashes(
            s.subrange(0, n - 1),
        ),
{
    assert(s.subrange(0, n).drop_last() =~= s.subrange(0, n - 1));
}

/// A trimmed base address is a prefix of the given one and does not end in `/`, and
/// trimming it again changes nothing.
pub proof fn lemma_trimmed_base_is_clean(s: Seq<char>)
    ensures
        without_trailing_slashes(s).len() <= s.len(),
        without_trailing_slashes(s) == s.subrange(0, without_trailing_slashes(s).len() as int),
        without_trailing_slashes(s).len() == 0 || without_trailing_slashes(s).last() != '/',
        without_trailing_slashes(without_trailing_slashes(s)) == without_trailing_slashes(s),
    decreases s.len(),
{
    if s.len() > 0 && s.last() == '/' {
        lemma_trimmed_base_is_clean(s.drop_last());
        let t = without_trailing_slashes(s.drop_last());
        assert(s.drop_last().subrange(0, t.len() as int) =~= s.subrange(0, t.len() as int));
    } else {
        assert(s.subrange(0, s.len() as int) =~= s);
    }
}

/// Extra trailing `/` characters on a base address do not change where requests go.
pub proof fn lemma_trailing_slash_does_not_matter(s: Seq<char>)
    ensures
        without_trailing_slashes(s.push('/')) == without_trailing_slashes(s),
{
    assert(s.push('/').drop_last() =~= s);
}

/// Removes every trailing `/` (what `str::trim_end_matches('/')` returns).
pub fn trim_trailing_slashes(text: &str) -> (r: String)
    ensures
        r@ == without_trailing_slashes(text@),
{
    let mut n = text.unicode_len();
    proof {
        assert(text@.subrange(0, n as int) =~= text@);
    }
    while n > 0 && text.get_char(n - 1) == '/'
        invariant
            n <= text@.len(),
            without_trailing_slashes(text@.subrange(0, n as int)) == without_trailing_slashes(
                text@,
            ),
        decreases n,
    {
        proof {
            lemma_trailing_slash_step(text@, n as int);
        }
        n = n - 1;
    }
    let kept = text.substring_char(0, n);
    proof {
        let s = text@.subrange(0, n as int);
        if n > 0 {
            assert(s.last() == text@[n - 1]);
        }
    }
    kept.to_owned()
}

/// A response body as kept in an error: at most `MAX_BODY_CHARS` characters, and an
/// ellipsis after a cut.
pub open spec fn bounded_text(body: Seq<char>) -> Seq<char> {
    if body.len() <= MAX_BODY_CHARS {
        body
    } else {
        body.subrange(0, MAX_BODY_CHARS as int).push('…')
    }
}

/// Bounds a response body before it is kept in an error.
pub fn bounded_body(body: String) -> (r: String)
    ensures
        r@ == bounded_text(body@),
{
    let count = body.as_str().unicode_len();
    if count <= MAX_BODY_CHARS {
        body
    } else {
        let mut bounded = body.as_str().substring_char(0, MAX_BODY_CHARS).to_owned();
        push_char(&mut bounded, '…');
        bounded
    }
}

/// An HTTP status in the success class (200 through 299).
pub open spec fn status_is_success(status: u16) -> bool {
    200 <= status <= 299
}

/// Screens a response: a success status hands the body on, any other status is an
/// `HttpStatus` error with the bounded body.
pub fn check_response(status: u16, body: String) -> (r: Result<String, BinanceError>)
    ensures
        status_is_success(status) ==> (r matches Ok(b) && b@ == body@),
        !status_is_success(status) ==> (r matches Err(BinanceError::HttpStatus { status: s, body: b })
            && s == status && b@ == bounded_text(body@)),
{
    if !(200 <= status && status <= 299) {
        return Err(BinanceError::HttpStatus { status, body: bounded_body(body) });
    }
    Ok(body)
}

/// The query parameters of a kline request, in the order they are sent.
pub open spec fn kline_query_params(r: KlineRequest) -> Seq<(Seq<char>, Seq<char>)> {
    let base = seq![
        ("symbol"@, r.symbol@),
        ("interval"@, interval_text(r.interval)),
        ("limit"@, int_text(r.limit as int)),
    ];
    let with_start = match r.start_time_ms {
        Some(v) => base.push(("startTime"@, int_text(v as int))),
        None => base,
    };
    match r.end_time_ms {
        Some(v) => with_start.push(("endTime"@, int_text(v as int))),
        None => with_start,
    }
}

/// The parameters as plain texts.
pub open spec fn params_view(q: Seq<(String, String)>) -> Seq<(Seq<char>, Seq<char>)> {
    q.map_values(|p: (String, String)| (p.0@, p.1@))
}

/// Validates a kline request and builds its query parameters.
pub fn kline_query(request: &KlineRequest) -> (r: Result<Vec<(String, String)>, BinanceError>)
    ensures
        r is Ok <==> (1 <= request.limit <= 1500 && time_range_ordered(*request)),
        r matches Ok(q) ==> params_view(q@) == kline_query_params(*request),
        r matches Err(e) ==> e is InvalidRequest,
{
    match request.validate() {
        Ok(()) => {},
        Err(e) => return Err(e),
    }
    let mut query: Vec<(String, String)> = Vec::new();
    query.push((owned("symbol"), owned(request.symbol.as_str())));
    query.push((owned("interval"), owned(request.interval.as_binance())));
    query.push((owned("limit"), u16_to_text(request.limit)));
    let ghost base = query@;
    match request.start_time_ms {
        Some(value) => query.push((owned("startTime"), i64_to_text(value))),
        None => {},
    }
    let ghost with_start = query@;
    match request.end_time_ms {
        Some(value) => query.push((owned("endTime"), i64_to_text(value))),
        None => {},
    }
    proof {
        assert(params_view(base) =~= seq![
            ("symbol"@, request.symbol@),
            ("interval"@, interval_text(request.interval)),
            ("limit"@, int_text(request.limit as int)),
        ]);
        assert(params_view(with_start) =~= match request.start_time_ms {
            Some(v) => params_view(base).push(("startTime"@, int_text(v as int))),
            None => params_view(base),
        });
        assert(params_view(query@) =~= match request.end_time_ms {
            Some(v) => params_view(with_start).push(("endTime"@, int_text(v as int))),
            None => params_view(with_start),
        });
    }
    Ok(query)
}

/// The query parameters of a funding-rate history request.
pub open spec fn funding_query_params(
    symbol: Seq<char>,
    limit: u16,
) -> Seq<(Seq<char>, Seq<char>)> {
    seq![("symbol"@, symbol), ("limit"@, int_text(limit as int))]
}

/// Builds the query of a funding-rate history request: 1 through 1000 records.
pub fn funding_rate_query(
    symbol: &Symbol,
    limit: u16,
) -> (r: Result<Vec<(String, String)>, BinanceError>)
    ensures
        r is Ok <==> 1 <= limit <= 1000,
        r matches Ok(q) ==> params_view(q@) == funding_query_params(symbol@, limit),
        r matches Err(e) ==> e == BinanceError::InvalidRequest(e->InvalidRequest_0)
            && e->InvalidRequest_0@ == "funding limit must be between 1 and 1000"@,
{
    if !(1 <= limit && limit <= 1000) {
        return Err(BinanceError::InvalidRequest(owned("funding limit must be between 1 and 1000")));
    }
    let mut query: Vec<(String, String)> = Vec::new();
    query.push((owned("symbol"), owned(symbol.as_str())));
    query.push((owned("limit"), u16_to_text(limit)));
    proof {
        assert(params_view(query@) =~= funding_query_params(symbol@, limit));
    }
    Ok(query)
}

/// The request that fetches the candles missing before `actual_open_time`, starting at
/// `expected_open_time`: every open time in `[expected, actual)`, at most 1500 candles.
pub fn backfill_request(
    symbol: &Symbol,
    interval: Interval,
    expected_open_time: Timestamp,
    actual_open_time: Timestamp,
) -> (r: KlineRequest)
    requires
        expected_open_time@ < actual_open_time@,
    ensures
        r.symbol@ == symbol@,
        r.interval == interval,
        r.start_time_ms == Some(expected_open_time@ as i64),
        r.end_time_ms == Some((actual_open_time@ - 1) as i64),
        r.limit == 1500,
        time_range_ordered(r),
{
    let start = expected_open_time.millis();
    let end = actual_open_time.millis() - 1;
    KlineRequest {
        symbol: symbol.clone(),
        interval,
        start_time_ms: Some(start),
        end_time_ms: Some(end),
        limit: 1500,
    }
}

/// Read-only public REST client.
#[derive(Debug, Clone)]
pub struct BinancePublicClient {
    http: reqwest::Client,
    settings: HttpSettings,
    rest_base: String,
}

impl BinancePublicClient {
    /// The base address requests are sent to.
    pub closed spec fn base(&self) -> Seq<char> {
        self.rest_base@
    }

    /// The request timeout, in seconds, the HTTP client was built with.
    pub closed spec fn timeout_secs(&self) -> u64 {
        self.settings.timeout_secs
    }

    /// The `User-Agent` the HTTP client was built with.
    pub closed spec fn user_agent(&self) -> Seq<char> {
        self.settings.user_agent@
    }

    /// Production client with a bounded timeout.
    pub fn mainnet() -> (r: Result<Self, BinanceError>)
        ensures
            r matches Ok(c) ==> c.base() == without_trailing_slashes(MAINNET_REST_BASE@),
            r matches Ok(c) ==> c.timeout_secs() == REQUEST_TIMEOUT_SECS && c.user_agent()
                == USER_AGENT@,
            r matches Err(e) ==> e is Http,
    {
        Self::with_rest_base(MAINNET_REST_BASE)
    }

    /// Client with an override base address, useful for tests and controlled proxies;
    /// trailing `/` characters are dropped. The HTTP client is built with
    /// `http_settings()`; whether `reqwest` can build it is not decided here, and its
    /// failure is an `Http` error carrying `reqwest`'s message.
    pub fn with_rest_base(rest_base: &str) -> (r: Result<Self, BinanceError>)
        ensures
            r matches Ok(c) ==> c.base() == without_trailing_slashes(rest_base@),
            r matches Ok(c) ==> c.timeout_secs() == REQUEST_TIMEOUT_SECS && c.user_agent()
                == USER_AGENT@,
            r matches Err(e) ==> e is Http,
    {
        let (http, settings) = match build_http_client(http_settings()) {
            Ok(built) => built,
            Err(message) => return Err(BinanceError::Http(message)),
        };
        Ok(BinancePublicClient { http, settings, rest_base: trim_trailing_slashes(rest_base) })
    }

    /// The settings the HTTP client was built with.
    pub fn settings(&self) -> (s: &HttpSettings)
        ensures
            s.timeout_secs == self.timeout_secs(),
            s.user_agent@ == self.user_agent(),
    {
        &self.settings
    }

    /// The base address requests are sent to.
    pub fn rest_base(&self) -> (r: &str)
        ensures
            r@ == self.base(),
    {
        self.rest_base.as_str()
    }

    /// The HTTP client the requests are sent with.
    pub closed spec fn client(&self) -> reqwest::Client {
        self.http
    }

    /// The HTTP client that sends the requests.
    pub fn http(&self) -> (c: &reqwest::Client)
        ensures
            *c == self.client(),
    {
        &self.http
    }

    /// The address of an endpoint path.
    pub fn endpoint_url(&self, path: &str) -> (r: String)
        ensures
            r@ == self.base() + path@,
    {
        concat2(self.rest_base.as_str(), path)
    }
}

} // verus!
