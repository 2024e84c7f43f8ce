//! Per-request decision logic. A server drives one request in at most two
//! steps: [`begin_request`] validates the input and consults the cache, and
//! either answers outright or asks for an upstream fetch; after the fetch,
//! [`finish_request`] turns its outcome into the response and the cache
//! update. Both are specified against pure decision functions
//! ([`spec_begin`], [`spec_finish`]) over the cache model, and the laws at
//! the end of this module are proved over those.

use crate::cache::ResolverCache;
use crate::parse::int_value;
use crate::parse::is_valid_id;
use crate::parse::parse_id;
use crate::upstream::FetchOutcome;
use crate::upstream::SpecFetchOutcome;
use crate::upstream::SpecImageRecord;
use vstd::prelude::*;
use vstd::string::StrSliceExecFns;
use vstd::string::StringExecFns;

verus! {

/// An HTTP response of this service: a permanent redirect with its target,
/// or an error with its body text.
#[derive(Debug, PartialEq, Eq)]
pub enum Response {
    /// Status 301, with the `Location` header value.
    MovedPermanently(String),
    /// Status 400, with the body text.
    BadRequest(String),
    /// Status 500, with the body text.
    InternalServerError(String),
}

/// Mathematical model of a [`Response`].
pub enum SpecResponse {
    MovedPermanently(Seq<char>),
    BadRequest(Seq<char>),
    InternalServerError(Seq<char>),
}

impl View for Response {
    type V = SpecResponse;

    open spec fn view(&self) -> SpecResponse {
        match self {
            Response::MovedPermanently(loc) => SpecResponse::MovedPermanently(loc@),
            Response::BadRequest(body) => SpecResponse::BadRequest(body@),
            Response::InternalServerError(body) => SpecResponse::InternalServerError(body@),
        }
    }
}

/// HTTP status code of a response.
pub open spec fn spec_status(r: SpecResponse) -> int {
    match r {
        SpecResponse::MovedPermanently(_) => 301,
        SpecResponse::BadRequest(_) => 400,
        SpecResponse::InternalServerError(_) => 500,
    }
}

impl Response {
    /// The HTTP status code this response is sent with.
    pub fn status_code(&self) -> (c: u16)
        ensures
            c as int == spec_status(self@),
    {
        match self {
            Response::MovedPermanently(_) => 301,
            Response::BadRequest(_) => 400,
            Response::InternalServerError(_) => 500,
        }
    }

    /// The redirect target, for a redirect response.
    pub fn location(&self) -> (r: Option<&String>)
        ensures
            match r {
                Some(loc) => self@ matches SpecResponse::MovedPermanently(l) && l == loc@,
                None => !(self@ is MovedPermanently),
            },
    {
        match self {
            Response::MovedPermanently(loc) => Some(loc),
            _ => None,
        }
    }

    /// The body text, for an error response; a redirect has an empty body.
    pub fn body_text(&self) -> (r: &str)
        ensures
            match self@ {
                SpecResponse::MovedPermanently(_) => r@.len() == 0,
                SpecResponse::BadRequest(body) => r@ == body,
                SpecResponse::InternalServerError(body) => r@ == body,
            },
    {
        proof {
            reveal_strlit("");
        }
        match self {
            Response::MovedPermanently(_) => "",
            Response::BadRequest(body) => body.as_str(),
            Response::InternalServerError(body) => body.as_str(),
        }
    }
}

/// What a request needs next: an immediate response, or one upstream fetch
/// for the given identifier followed by [`finish_request`].
#[derive(Debug, PartialEq, Eq)]
pub enum Step {
    Respond(Response),
    ResolveUpstream(i32),
}

/// Mathematical model of a [`Step`].
pub enum SpecStep {
    Respond(SpecResponse),
    ResolveUpstream(i32),
}

impl View for Step {
    type V = SpecStep;

    open spec fn view(&self) -> SpecStep {
        match self {
            Step::Respond(r) => SpecStep::Respond(r@),
            Step::ResolveUpstream(id) => SpecStep::ResolveUpstream(*id),
        }
    }
}

/// Body sent with a 400 response to a non-numeric identifier.
pub open spec fn spec_invalid_id_message() -> Seq<char> {
    "Invalid id: not a number"@
}

/// Body sent when the upstream request could not be sent.
pub open spec fn spec_transport_failure_message() -> Seq<char> {
    "Failed to send request to external server"@
}

/// Body sent when the upstream response body did not decode.
pub open spec fn spec_decode_failure_message() -> Seq<char> {
    "Failed to parse response from external server"@
}

/// Body sent when the upstream record's embedded status code is not 200.
/// The misspelling is kept deliberately: existing clients of the service may
/// match on the exact text.
pub open spec fn spec_bad_code_message() -> Seq<char> {
    "Invail response code from external server"@
}

/// Redirect target for a request that arrived with no query string: the same
/// path with the canonical placeholder query.
pub open spec fn spec_canonical_location(device: Seq<char>) -> Seq<char> {
    "/"@ + device + "/?0"@
}

/// The identifier characters actually parsed: an empty query value stands
/// for `0`.
pub open spec fn effective_id(v: Seq<char>) -> Seq<char> {
    if v.len() == 0 {
        "0"@
    } else {
        v
    }
}

/// View of an optional query value.
pub open spec fn opt_str_view(o: Option<&str>) -> Option<Seq<char>> {
    match o {
        Option::None => Option::<Seq<char>>::None,
        Option::Some(s) => Option::Some(s@),
    }
}

/// Decision taken on an incoming request, before any upstream call: `device`
/// is the path segment, `first_value` the value of the first query parameter
/// (absent when the query string is empty), and `cache` the current cache
/// contents. No branch changes the cache.
pub open spec fn spec_begin(
    device: Seq<char>,
    first_value: Option<Seq<char>>,
    cache: Map<i32, Seq<char>>,
) -> SpecStep {
    match first_value {
        Option::None => SpecStep::Respond(
            SpecResponse::MovedPermanently(spec_canonical_location(device)),
        ),
        Option::Some(v) => {
            let e = effective_id(v);
            if !is_valid_id(e) {
                SpecStep::Respond(SpecResponse::BadRequest(spec_invalid_id_message()))
            } else {
                let id = int_value(e) as i32;
                if cache.contains_key(id) {
                    SpecStep::Respond(SpecResponse::MovedPermanently(cache[id]))
                } else {
                    SpecStep::ResolveUpstream(id)
                }
            }
        },
    }
}

/// Decision taken on the outcome of the upstream fetch for `id`: the
/// response, and the cache contents afterwards. Only a record whose embedded
/// status code is 200 is cached; every failure leaves the cache unchanged.
pub open spec fn spec_finish(
    cache: Map<i32, Seq<char>>,
    id: i32,
    outcome: SpecFetchOutcome,
) -> (SpecResponse, Map<i32, Seq<char>>) {
    match outcome {
        SpecFetchOutcome::TransportFailure => (
            SpecResponse::InternalServerError(spec_transport_failure_message()),
            cache,
        ),
        SpecFetchOutcome::DecodeFailure => (
            SpecResponse::InternalServerError(spec_decode_failure_message()),
            cache,
        ),
        SpecFetchOutcome::Fetched(rec) => {
            if rec.code == 200 {
                (SpecResponse::MovedPermanently(rec.url), cache.insert(id, rec.url))
            } else {
                (SpecResponse::InternalServerError(spec_bad_code_message()), cache)
            }
        },
    }
}

/// First half of one request: validate the query value, mint the canonical
/// redirect for an empty query string, and consult the cache. Returns either
/// the response to send, or the identifier to resolve upstream, exactly as
/// [`spec_begin`] decides. The cache is only read.
pub fn begin_request(device: &str, first_value: Option<&str>, cache: &ResolverCache) -> (s: Step)
    ensures
        s@ == spec_begin(device@, opt_str_view(first_value), cache@),
{
    match first_value {
        None => {
            let mut loc = String::from_str("/");
            loc.append(device);
            loc.append("/?0");
            Step::Respond(Response::MovedPermanently(loc))
        },
        Some(v) => {
            let value: &str = if v.unicode_len() == 0 {
                "0"
            } else {
                v
            };
            proof {
                assert(value@ == effective_id(v@));
            }
            match parse_id(value) {
                None => Step::Respond(
                    Response::BadRequest(String::from_str("Invalid id: not a number")),
                ),
                Some(id) => {
                    match cache.lookup(id) {
                        Some(url) => Step::Respond(Response::MovedPermanently(url)),
                        None => Step::ResolveUpstream(id),
                    }
                },
            }
        },
    }
}

/// Second half of one request, after the upstream fetch for `id` came back:
/// cache and redirect on success, answer a distinct server error per failure
/// kind otherwise, exactly as [`spec_finish`] decides.
pub fn finish_request(cache: &mut ResolverCache, id: i32, outcome: FetchOutcome) -> (r: Response)
    ensures
        r@ == spec_finish(old(cache)@, id, outcome@).0,
        final(cache)@ == spec_finish(old(cache)@, id, outcome@).1,
{
    match outcome {
        FetchOutcome::TransportFailure => Response::InternalServerError(
            String::from_str("Failed to send request to external server"),
        ),
        FetchOutcome::DecodeFailure => Response::InternalServerError(
            String::from_str("Failed to parse response from external server"),
        ),
        FetchOutcome::Fetched(rec) => {
            if rec.code == 200 {
                cache.insert(id, rec.url.clone());
                Response::MovedPermanently(rec.url)
            } else {
                Response::InternalServerError(
                    String::from_str("Invail response code from external server"),
                )
            }
        },
    }
}

/// Outcome of one whole request against a deterministic upstream: the
/// response sent and the cache afterwards, where any upstream fetch made by
/// the request returns `rec`.
pub open spec fn spec_request_outcome(
    device: Seq<char>,
    first_value: Option<Seq<char>>,
    cache: Map<i32, Seq<char>>,
    rec: SpecImageRecord,
) -> (SpecResponse, Map<i32, Seq<char>>) {
    match spec_begin(device, first_value, cache) {
        SpecStep::Respond(r) => (r, cache),
        SpecStep::ResolveUpstream(id) => spec_finish(cache, id, SpecFetchOutcome::Fetched(rec)),
    }
}

/// A valid identifier not yet cached costs exactly one upstream fetch: the
/// first request is told to resolve upstream, a successful resolution caches
/// the URL and redirects to it, and a repeat of the same request is answered
/// from the cache with that URL, with no further fetch.
pub proof fn lemma_miss_then_hit(
    device: Seq<char>,
    v: Seq<char>,
    cache: Map<i32, Seq<char>>,
    rec: SpecImageRecord,
)
    requires
        is_valid_id(effective_id(v)),
        !cache.contains_key(int_value(effective_id(v)) as i32),
        rec.code == 200,
    ensures
        ({
            let id = int_value(effective_id(v)) as i32;
            let (r1, c1) = spec_finish(cache, id, SpecFetchOutcome::Fetched(rec));
            &&& spec_begin(device, Some(v), cache) == SpecStep::ResolveUpstream(id)
            &&& r1 == SpecResponse::MovedPermanently(rec.url)
            &&& c1 == cache.insert(id, rec.url)
            &&& spec_begin(device, Some(v), c1) == SpecStep::Respond(
                SpecResponse::MovedPermanently(rec.url),
            )
        }),
{
}

/// Resolving the same request twice against a deterministic upstream gives
/// the same response both times, and the second request changes nothing.
pub proof fn lemma_resolution_idempotent(
    device: Seq<char>,
    first_value: Option<Seq<char>>,
    cache: Map<i32, Seq<char>>,
    rec: SpecImageRecord,
)
    requires
        rec.code == 200,
    ensures
        ({
            let (r1, c1) = spec_request_outcome(device, first_value, cache, rec);
            let (r2, c2) = spec_request_outcome(device, first_value, c1, rec);
            r2 == r1 && c2 == c1
        }),
{
}

/// The cache after `n` completed insertions of the same mapping, in any
/// interleaving of requests that all resolved to the same URL.
pub open spec fn insert_repeated(
    cache: Map<i32, Seq<char>>,
    id: i32,
    url: Seq<char>,
    n: nat,
) -> Map<i32, Seq<char>>
    decreases n,
{
    if n == 0 {
        cache
    } else {
        insert_repeated(cache, id, url, (n - 1) as nat).insert(id, url)
    }
}

/// Any number of simultaneous first-time requests for one identifier, where
/// the upstream always answers the same URL, leave the cache exactly as one
/// request would: one entry for that identifier, mapped to that URL, and
/// every other entry untouched; and each of those requests is answered with
/// a redirect to that URL, whatever the cache held when it completed.
pub proof fn lemma_coalesced_first_requests(
    cache: Map<i32, Seq<char>>,
    id: i32,
    rec: SpecImageRecord,
    n: nat,
)
    requires
        rec.code == 200,
        n > 0,
    ensures
        insert_repeated(cache, id, rec.url, n) == cache.insert(id, rec.url),
        insert_repeated(cache, id, rec.url, n)[id] == rec.url,
        insert_repeated(cache, id, rec.url, n).dom() == cache.dom().insert(id),
        forall|c: Map<i32, Seq<char>>|
            (#[trigger] spec_finish(c, id, SpecFetchOutcome::Fetched(rec))).0
                == SpecResponse::MovedPermanently(rec.url),
    decreases n,
{
    if n == 1 {
        assert(insert_repeated(cache, id, rec.url, 0) == cache);
        assert(insert_repeated(cache, id, rec.url, 1) == cache.insert(id, rec.url));
    } else {
        lemma_coalesced_first_requests(cache, id, rec, (n - 1) as nat);
        assert(insert_repeated(cache, id, rec.url, n) == insert_repeated(
            cache,
            id,
            rec.url,
            (n - 1) as nat,
        ).insert(id, rec.url));
        assert(cache.insert(id, rec.url).insert(id, rec.url) =~= cache.insert(id, rec.url));
    }
    assert(insert_repeated(cache, id, rec.url, n).dom() =~= cache.dom().insert(id));
}


} // verus!


