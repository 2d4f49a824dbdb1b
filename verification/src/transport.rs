//! Transport rules: the headers every request carries, how HTTP statuses
//! are judged, and when and how long to wait before retrying.

use vstd::prelude::*;
use vstd::arithmetic::power2::{pow2, lemma2_to64, lemma_pow2_unfold, lemma_pow2_strictly_increases};
use vstd::string::*;
use crate::codec::{header_value_ok, header_value_valid};
use crate::error::SdkError;
use crate::text::{parse_u64, spec_parse_u64};

verus! {

/// Length and entity tag a `HEAD` request reported for a resource.
#[derive(Debug, Clone, PartialEq)]
pub struct ResourceMeta {
    pub len: Option<u64>,
    pub etag: Option<String>,
}

/// The referer sent when the configured one is not a valid header value.
pub open spec fn fallback_referer() -> Seq<char> {
    "https://simpfun.cn/"@
}

/// The headers of an unauthenticated request, as (name, value) pairs.
pub open spec fn spec_common_headers(referer: Option<Seq<char>>) -> Seq<(Seq<char>, Seq<char>)> {
    let base = seq![
        ("accept"@, "application/json"@),
        ("content-type"@, "application/x-www-form-urlencoded"@),
    ];
    match referer {
        Some(r) => base.push(("referer"@, if header_value_ok(r) { r } else { fallback_referer() })),
        None => base,
    }
}

/// The headers of an authenticated request: the common ones and the token
/// (an empty value when the token is not a valid header value).
pub open spec fn spec_auth_headers(referer: Option<Seq<char>>, token: Seq<char>) -> Seq<(Seq<char>, Seq<char>)> {
    spec_common_headers(referer).push(("authorization"@, if header_value_ok(token) { token } else { seq![] }))
}

/// The views of a list of headers.
pub open spec fn headers_view(h: Seq<(String, String)>) -> Seq<(Seq<char>, Seq<char>)> {
    h.map_values(|p: (String, String)| (p.0@, p.1@))
}

/// The view of an optional text.
pub open spec fn opt_view(o: Option<&str>) -> Option<Seq<char>> {
    match o {
        Some(s) => Some(s@),
        None => None,
    }
}

/// The headers every request carries.
pub fn common_headers(referer: Option<&str>) -> (h: Vec<(String, String)>)
    ensures
        headers_view(h@) == spec_common_headers(opt_view(referer)),
{
    let mut h: Vec<(String, String)> = Vec::new();
    h.push((String::from_str("accept"), String::from_str("application/json")));
    h.push((String::from_str("content-type"), String::from_str("application/x-www-form-urlencoded")));
    let ghost base = seq![
        ("accept"@, "application/json"@),
        ("content-type"@, "application/x-www-form-urlencoded"@),
    ];
    assert(headers_view(h@) =~= base);
    match referer {
        Some(r) => {
            let value = if header_value_valid(r) {
                String::from_str(r)
            } else {
                String::from_str("https://simpfun.cn/")
            };
            h.push((String::from_str("referer"), value));
            assert(headers_view(h@) =~= spec_common_headers(opt_view(referer)));
        },
        None => {},
    }
    h
}

/// The headers of a request that carries the token; `MissingToken` when no
/// token is set.
pub fn auth_headers(referer: Option<&str>, token: Option<&str>) -> (r: Result<Vec<(String, String)>, SdkError>)
    ensures
        r is Err <==> token is None,
        r matches Err(e) ==> e == SdkError::MissingToken,
        r matches Ok(h) ==> headers_view(h@) == spec_auth_headers(opt_view(referer), token.unwrap()@),
{
    match token {
        None => Err(SdkError::MissingToken),
        Some(t) => {
            let mut h = common_headers(referer);
            let ghost before = h@;
            let value = if header_value_valid(t) {
                String::from_str(t)
            } else {
                String::new()
            };
            h.push((String::from_str("authorization"), value));
            assert(headers_view(h@) =~= headers_view(before).push(("authorization"@, if header_value_ok(t@) { t@ } else { seq![] })));
            Ok(h)
        },
    }
}

/// How a response's HTTP status is judged.
#[derive(Debug, Clone, Copy, PartialEq, Eq, Structural)]
pub enum StatusClass {
    /// 2xx: the body is the reply.
    Success,
    /// 401: the token is invalid or expired.
    Unauthorized,
    /// Anything else: an unexpected status.
    Unexpected,
}

/// Judges an HTTP status.
pub fn classify_status(status: u16) -> (c: StatusClass)
    ensures
        c == (if 200 <= status < 300 {
            StatusClass::Success
        } else if status == 401 {
            StatusClass::Unauthorized
        } else {
            StatusClass::Unexpected
        }),
{
    if 200 <= status && status < 300 {
        StatusClass::Success
    } else if status == 401 {
        StatusClass::Unauthorized
    } else {
        StatusClass::Unexpected
    }
}

/// How many retries a rate-limited request gets.
pub const MAX_RETRIES: u32 = 3;

/// Whether a request that got `status` on attempt number `attempt`
/// (counted from 0) is sent again: only a 429 is retried, at most
/// `MAX_RETRIES` times.
pub fn should_retry(status: u16, attempt: u32) -> (b: bool)
    ensures
        b == (status == 429 && attempt < MAX_RETRIES),
{
    status == 429 && attempt < MAX_RETRIES
}

/// How long to wait before a retry.
#[derive(Debug, Clone, Copy, PartialEq, Eq, Structural)]
pub enum RetryDelay {
    Seconds(u64),
    Millis(u64),
}

/// The exponential backoff, in milliseconds, before retry number `attempt`:
/// 500 ms doubled per attempt, capped at 8000 ms.
pub open spec fn backoff_ms(attempt: nat) -> int {
    let ms: int = 500 * (pow2(attempt) as int);
    if ms < 8000 {
        ms
    } else {
        8000
    }
}

/// The wait before a retry: the seconds a `Retry-After` header gives when it
/// holds a number, else the exponential backoff.
pub open spec fn spec_retry_delay(retry_after: Option<Seq<char>>, attempt: nat) -> RetryDelay {
    match retry_after {
        Some(v) if spec_parse_u64(v) is Some => RetryDelay::Seconds(spec_parse_u64(v).unwrap()),
        _ => RetryDelay::Millis(backoff_ms(attempt) as u64),
    }
}

/// `1 << attempt`, or `u64::MAX` when the shift leaves the type.
fn shift_multiplier(attempt: u32) -> (m: u64)
    ensures
        attempt < 64 ==> m == pow2(attempt as nat),
        attempt >= 64 ==> m == u64::MAX,
{
    if attempt >= 64 {
        return u64::MAX;
    }
    let mut m: u64 = 1;
    let mut i: u32 = 0;
    proof {
        lemma2_to64();
    }
    while i < attempt
        invariant
            i <= attempt < 64,
            m == pow2(i as nat),
        decreases attempt - i,
    {
        proof {
            lemma_pow2_unfold((i + 1) as nat);
            lemma_pow2_strictly_increases((i + 1) as nat, 64);
            lemma2_to64();
        }
        m = m * 2;
        i = i + 1;
    }
    m
}

/// The wait before retry number `attempt`.
pub fn retry_delay(retry_after: Option<&str>, attempt: u32) -> (d: RetryDelay)
    ensures
        d == spec_retry_delay(opt_view(retry_after), attempt as nat),
{
    if let Some(v) = retry_after {
        if let Some(secs) = parse_u64(v) {
            return RetryDelay::Seconds(secs);
        }
    }
    let mult = shift_multiplier(attempt);
    let product: u64 = match 500u64.checked_mul(mult) {
        Some(p) => p,
        None => u64::MAX,
    };
    let ms = if product < 8000 {
        product
    } else {
        8000
    };
    proof {
        if attempt >= 64 {
            lemma_pow2_strictly_increases(13, attempt as nat);
            lemma2_to64();
        }
    }
    RetryDelay::Millis(ms)
}

/// A numeric `Retry-After` header is obeyed in seconds; without one the
/// waits before successive retries are 500, 1000, 2000 and 4000 ms, then
/// 8000 ms for every later attempt.
pub proof fn retry_delay_law(v: Seq<char>, attempt: nat)
    ensures
        spec_parse_u64(v) is Some ==> spec_retry_delay(Some(v), attempt) == RetryDelay::Seconds(
            spec_parse_u64(v).unwrap(),
        ),
        spec_parse_u64(v) is None ==> spec_retry_delay(Some(v), attempt) == spec_retry_delay(None, attempt),
        spec_retry_delay(None, 0) == RetryDelay::Millis(500),
        spec_retry_delay(None, 1) == RetryDelay::Millis(1000),
        spec_retry_delay(None, 2) == RetryDelay::Millis(2000),
        spec_retry_delay(None, 3) == RetryDelay::Millis(4000),
        attempt >= 4 ==> spec_retry_delay(None, attempt) == RetryDelay::Millis(8000),
{
    lemma2_to64();
    if attempt >= 4 {
        if attempt > 4 {
            lemma_pow2_strictly_increases(4, attempt);
        }
    }
}

/// Every request sends JSON `accept` and a form `content-type`, then the
/// configured referer when there is one (the site's own address when the
/// configured one cannot be a header value); an authorized request adds
/// the token last.
pub proof fn header_law(referer: Seq<char>, token: Seq<char>)
    ensures
        spec_common_headers(None) == seq![
            ("accept"@, "application/json"@),
            ("content-type"@, "application/x-www-form-urlencoded"@),
        ],
        header_value_ok(referer) ==> spec_common_headers(Some(referer)) == seq![
            ("accept"@, "application/json"@),
            ("content-type"@, "application/x-www-form-urlencoded"@),
            ("referer"@, referer),
        ],
        !header_value_ok(referer) ==> spec_common_headers(Some(referer)) == seq![
            ("accept"@, "application/json"@),
            ("content-type"@, "application/x-www-form-urlencoded"@),
            ("referer"@, "https://simpfun.cn/"@),
        ],
        header_value_ok(token) ==> spec_auth_headers(None, token) == seq![
            ("accept"@, "application/json"@),
            ("content-type"@, "application/x-www-form-urlencoded"@),
            ("authorization"@, token),
        ],
        spec_auth_headers(Some(referer), token).len() == 4,
        spec_auth_headers(Some(referer), token)[3].0 == "authorization"@,
{
    assert(spec_common_headers(Some(referer)).len() == 3);
}

/// The backoff never exceeds 8 seconds and never shrinks from one attempt
/// to the next.
pub proof fn backoff_bounded_and_monotone(a: nat, b: nat)
    requires
        a <= b,
    ensures
        500 <= backoff_ms(a) <= backoff_ms(b) <= 8000,
{
    if a < b {
        lemma_pow2_strictly_increases(a, b);
    }
    vstd::arithmetic::power2::lemma_pow2_pos(a);
}

} // verus!
