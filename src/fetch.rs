use vstd::prelude::*;
use vstd::string::*;

use crate::text::occurs_at;

verus! {

/// One wall-clock budget shared by every attempt of a fetch, in milliseconds.
#[derive(Clone, Copy, Debug)]
pub struct RetryPolicy {
    pub total_timeout_ms: u64,
    pub max_retries: u32,
    pub retry_delay_ms: u64,
}

/// Why a fetch failed.
#[derive(Debug)]
pub enum FetchError {
    /// The server answered with a status outside 200..=299.
    Status { code: u16, url: String },
    /// The body was announced as gzip but did not decompress.
    Decode,
    /// The request did not complete.
    Transport(String),
    /// An attempt ran into the remaining budget.
    TimedOut,
    /// The budget was spent before any attempt could report an error.
    BudgetExhausted { total_timeout_ms: u64 },
}

/// The time that attempt `attempt` may take when it starts `elapsed` into
/// the fetch; `None` when no attempt is left or the budget is spent.
pub open spec fn attempt_budget(p: RetryPolicy, attempt: nat, elapsed: nat) -> Option<nat> {
    if attempt <= p.max_retries && elapsed < p.total_timeout_ms {
        Some((p.total_timeout_ms - elapsed) as nat)
    } else {
        None
    }
}

/// The pause after failed attempt `attempt`, ended `elapsed` into the fetch:
/// the retry delay capped to what is left, none after the last attempt or
/// once the budget is spent.
pub open spec fn wait_time(p: RetryPolicy, attempt: nat, elapsed: nat) -> nat {
    if attempt < p.max_retries && elapsed < p.total_timeout_ms {
        let left = (p.total_timeout_ms - elapsed) as nat;
        if p.retry_delay_ms < left {
            p.retry_delay_ms as nat
        } else {
            left
        }
    } else {
        0
    }
}

/// Time into the fetch at which it gives up, when every attempt fails and
/// attempt `i` would on its own take `costs[i]` (zero past the end) but is cut
/// off at its budget.
pub open spec fn give_up_time(p: RetryPolicy, attempt: nat, elapsed: nat, costs: Seq<nat>) -> nat
    decreases p.max_retries + 1 - attempt,
{
    match attempt_budget(p, attempt, elapsed) {
        None => elapsed,
        Some(b) => {
            let cost = if attempt < costs.len() {
                costs[attempt as int]
            } else {
                0
            };
            let ended = elapsed + if cost < b {
                cost
            } else {
                b
            };
            give_up_time(p, attempt + 1, ended + wait_time(p, attempt, ended), costs)
        },
    }
}

/// A fetch whose attempts all fail returns within its budget, whatever the
/// number of retries and however long each attempt would last.
pub proof fn lemma_fetch_within_budget(p: RetryPolicy, costs: Seq<nat>)
    ensures
        give_up_time(p, 0, 0, costs) <= p.total_timeout_ms,
{
    lemma_give_up_bounded(p, 0, 0, costs);
}

proof fn lemma_give_up_bounded(p: RetryPolicy, attempt: nat, elapsed: nat, costs: Seq<nat>)
    requires
        elapsed <= p.total_timeout_ms,
    ensures
        give_up_time(p, attempt, elapsed, costs) <= p.total_timeout_ms,
    decreases p.max_retries + 1 - attempt,
{
    if let Some(b) = attempt_budget(p, attempt, elapsed) {
        let cost = if attempt < costs.len() {
            costs[attempt as int]
        } else {
            0
        };
        let ended = elapsed + if cost < b {
            cost
        } else {
            b
        };
        lemma_give_up_bounded(p, attempt + 1, ended + wait_time(p, attempt, ended), costs);
    }
}

/// The timeout of attempt `attempt`, begun `elapsed_ms` into the fetch, or
/// `None` when the fetch must stop.
pub fn attempt_timeout(policy: &RetryPolicy, attempt: u32, elapsed_ms: u64) -> (r: Option<u64>)
    ensures
        r matches Some(t) ==> attempt_budget(*policy, attempt as nat, elapsed_ms as nat) == Some(
            t as nat,
        ),
        r is None <==> attempt_budget(*policy, attempt as nat, elapsed_ms as nat) is None,
{
    if attempt <= policy.max_retries && elapsed_ms < policy.total_timeout_ms {
        Some(policy.total_timeout_ms - elapsed_ms)
    } else {
        None
    }
}

/// How long to pause after failed attempt `attempt`, ended `elapsed_ms` into
/// the fetch; zero means go on at once.
pub fn retry_wait(policy: &RetryPolicy, attempt: u32, elapsed_ms: u64) -> (r: u64)
    ensures
        r == wait_time(*policy, attempt as nat, elapsed_ms as nat),
{
    if attempt < policy.max_retries && elapsed_ms < policy.total_timeout_ms {
        let left = policy.total_timeout_ms - elapsed_ms;
        if policy.retry_delay_ms < left {
            policy.retry_delay_ms
        } else {
            left
        }
    } else {
        0
    }
}

/// The error that a fetch returns when it stops: the last attempt's, or
/// budget exhaustion when no attempt reported one.
pub fn final_error(last: Option<FetchError>, policy: &RetryPolicy) -> (r: FetchError)
    ensures
        last is None ==> r == (FetchError::BudgetExhausted {
            total_timeout_ms: policy.total_timeout_ms,
        }),
        last matches Some(e) ==> r == e,
{
    match last {
        Some(e) => e,
        None => FetchError::BudgetExhausted { total_timeout_ms: policy.total_timeout_ms },
    }
}

/// True iff `code` is a success status, 200 to 299.
pub fn is_success_status(code: u16) -> (r: bool)
    ensures
        r == (200 <= code && code <= 299),
{
    200 <= code && code <= 299
}

/// The result of `str::to_lowercase` on a text.
pub uninterp spec fn lower_of(s: Seq<char>) -> Seq<char>;

/// Relies on `str::to_lowercase`: the lower-case form depends on the text
/// alone, and an empty text stays empty.
#[verifier::external_body]
fn lowercase(s: &str) -> (r: String)
    ensures
        r@ == lower_of(s@),
        s@.len() == 0 ==> r@.len() == 0,
{
    s.to_lowercase()
}

pub open spec fn gzip_word() -> Seq<char> {
    seq!['g', 'z', 'i', 'p']
}

pub open spec fn mentions_gzip(s: Seq<char>) -> bool {
    exists|i: int| occurs_at(s, gzip_word(), i)
}

/// True iff the already lower-cased header value contains `gzip`.
pub fn mentions_gzip_folded(folded: &str) -> (r: bool)
    ensures
        r == mentions_gzip(folded@),
{
    let word = "gzip";
    proof {
        reveal_strlit("gzip");
    }
    assert(word@ =~= gzip_word());
    let n = folded.unicode_len();
    let mut i: usize = 0;
    while i < n
        invariant
            n == folded@.len(),
            i <= n,
            word@ == gzip_word(),
            forall|j: int| 0 <= j < i ==> !occurs_at(folded@, gzip_word(), j),
        decreases n - i,
    {
        if crate::text::matches_at(folded, word, i) {
            return true;
        }
        i = i + 1;
    }
    false
}

/// True iff a `content-encoding` value announces gzip, in any letter case.
pub fn is_gzip_encoding(value: &str) -> (r: bool)
    ensures
        r == mentions_gzip(lower_of(value@)),
{
    let folded = lowercase(value);
    mentions_gzip_folded(folded.as_str())
}

/// What gzip decompression gives for a byte stream, `None` when it is not
/// valid gzip.
pub uninterp spec fn gunzip_of(data: Seq<u8>) -> Option<Seq<u8>>;

/// Relies on `flate2::read::GzDecoder` read to the end: the decompressed
/// bytes, or an error, depend on the input alone.
#[verifier::external_body]
fn gunzip(data: &[u8]) -> (r: Option<Vec<u8>>)
    ensures
        r matches Some(v) ==> gunzip_of(data@) == Some(v@),
        r is None ==> gunzip_of(data@) is None,
{
    let mut out = Vec::new();
    std::io::Read::read_to_end(&mut flate2::read::GzDecoder::new(data), &mut out).ok().map(|_| out)
}

/// The payload of a response: the body as it came, or decompressed when the
/// response announced gzip.
pub fn decode_body(body: Vec<u8>, gzip: bool) -> (r: Result<Vec<u8>, FetchError>)
    ensures
        !gzip ==> (r matches Ok(v) && v@ == body@),
        gzip ==> match gunzip_of(body@) {
            Some(d) => (r matches Ok(v) && v@ == d),
            None => r matches Err(FetchError::Decode),
        },
{
    if gzip {
        match gunzip(body.as_slice()) {
            Some(v) => Ok(v),
            None => Err(FetchError::Decode),
        }
    } else {
        Ok(body)
    }
}

/// Checks a response: a status outside 200..=299 is an error that names the
/// status and `url`; else the body, decompressed when `content_encoding`
/// mentions gzip.
pub fn check_response(
    url: &str,
    status: u16,
    content_encoding: Option<&str>,
    body: Vec<u8>,
) -> (r: Result<Vec<u8>, FetchError>)
    ensures
        !(200 <= status <= 299) ==> (r matches Err(FetchError::Status { code, url: u }) && code
            == status && u@ == url@),
        (200 <= status <= 299) ==> {
            let gz = content_encoding matches Some(e) && mentions_gzip(lower_of(e@));
            &&& !gz ==> (r matches Ok(v) && v@ == body@)
            &&& gz ==> match gunzip_of(body@) {
                Some(d) => (r matches Ok(v) && v@ == d),
                None => r matches Err(FetchError::Decode),
            }
        },
{
    if !is_success_status(status) {
        return Err(FetchError::Status { code: status, url: url.to_string() });
    }
    let gzip = match content_encoding {
        Some(e) => is_gzip_encoding(e),
        None => false,
    };
    decode_body(body, gzip)
}

} // verus!
