//! The address lookup: where the request goes, and what its answer means.
use vstd::prelude::*;

verus! {

/// What the JSON body of a lookup answer held.
#[derive(Debug, Clone, Copy, PartialEq, Eq, Structural)]
pub enum ResponseBody {
    /// `{"chain_stats": {"tx_count": n}}`; `None` where the count is null or
    /// absent.
    Stats { tx_count: Option<i64> },
    /// The body could not be read, or is not JSON of that shape.
    Malformed,
}

/// What became of one lookup request.
#[derive(Debug, Clone, Copy, PartialEq, Eq, Structural)]
pub enum HttpOutcome {
    /// No answer came: the connection failed or timed out.
    Failed,
    /// An answer came with this status code and body.
    Answered { status: u16, body: ResponseBody },
}

/// What the lookup says of an address.
#[derive(Debug, Clone, Copy, PartialEq, Eq, Structural)]
pub enum AddressLookupResult {
    /// The address has this transaction count.
    Attributed(i64),
    /// The service knows the address but gives it no count.
    NotAttributed,
    /// The service answered with a status other than success.
    NotFound,
    /// No usable answer: no connection, or a body of another shape.
    TransportError,
}

/// The 2xx status codes.
pub open spec fn is_success_status(status: u16) -> bool {
    200 <= status && status <= 299
}

pub open spec fn classify_spec(outcome: HttpOutcome) -> AddressLookupResult {
    match outcome {
        HttpOutcome::Failed => AddressLookupResult::TransportError,
        HttpOutcome::Answered { status, body } => if !is_success_status(status) {
            AddressLookupResult::NotFound
        } else {
            match body {
                ResponseBody::Stats { tx_count: Some(n) } => AddressLookupResult::Attributed(n),
                ResponseBody::Stats { tx_count: None } => AddressLookupResult::NotAttributed,
                ResponseBody::Malformed => AddressLookupResult::TransportError,
            }
        },
    }
}

/// The address of the lookup for `key`: the key, unchanged, as one more path
/// segment of `base`.
pub open spec fn lookup_url_spec(base: Seq<char>, key: Seq<char>) -> Seq<char> {
    base + seq!['/'] + key
}

/// Whether `status` is a 2xx code.
pub fn is_success(status: u16) -> (r: bool)
    ensures
        r == is_success_status(status),
{
    200 <= status && status <= 299
}

/// What an answer to the lookup means. The body counts only where the
/// status is a success.
pub fn classify(outcome: &HttpOutcome) -> (r: AddressLookupResult)
    ensures
        r == classify_spec(*outcome),
{
    match outcome {
        HttpOutcome::Failed => AddressLookupResult::TransportError,
        HttpOutcome::Answered { status, body } => {
            if !is_success(*status) {
                AddressLookupResult::NotFound
            } else {
                match body {
                    ResponseBody::Stats { tx_count: Some(n) } => AddressLookupResult::Attributed(
                        *n,
                    ),
                    ResponseBody::Stats { tx_count: None } => AddressLookupResult::NotAttributed,
                    ResponseBody::Malformed => AddressLookupResult::TransportError,
                }
            }
        },
    }
}

/// The address to fetch for `key`. The key is passed on as it is.
pub fn lookup_url(base: &str, key: &str) -> (r: String)
    ensures
        r@ == lookup_url_spec(base@, key@),
{
    proof {
        reveal_strlit("/");
    }
    let r = String::from_str(base).concat("/").concat(key);
    assert(r@ =~= lookup_url_spec(base@, key@));
    r
}

} // verus!
