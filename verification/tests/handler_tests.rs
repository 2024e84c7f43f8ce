use img_redirect::cache::ResolverCache;
use img_redirect::handler::begin_request;
use img_redirect::handler::finish_request;
use img_redirect::handler::Response;
use img_redirect::handler::Step;
use img_redirect::upstream::upstream_url;
use img_redirect::upstream::FetchOutcome;
use img_redirect::upstream::ImageRecord;

fn record(code: i32, url: &str) -> ImageRecord {
    ImageRecord { code, url: String::from(url), width: 100, height: 200 }
}

#[test]
fn empty_query_redirects_to_canonical() {
    let cache = ResolverCache::new();
    let step = begin_request("phone", None, &cache);
    match step {
        Step::Respond(Response::MovedPermanently(loc)) => assert_eq!(loc, "/phone/?0"),
        other => panic!("unexpected step: {:?}", other),
    }
}

#[test]
fn empty_query_canonical_status_is_301() {
    let cache = ResolverCache::new();
    match begin_request("pc", None, &cache) {
        Step::Respond(r) => {
            assert_eq!(r.status_code(), 301);
            assert_eq!(r.location().map(String::as_str), Some("/pc/?0"));
            assert_eq!(r.body_text(), "");
        }
        other => panic!("unexpected step: {:?}", other),
    }
}

#[test]
fn non_numeric_id_is_client_error() {
    let cache = ResolverCache::new();
    match begin_request("phone", Some("abc"), &cache) {
        Step::Respond(r) => {
            assert_eq!(r.status_code(), 400);
            assert_eq!(r.body_text(), "Invalid id: not a number");
            assert_eq!(r.location(), None);
        }
        other => panic!("unexpected step: {:?}", other),
    }
    assert_eq!(cache.len(), 0);
}

#[test]
fn empty_value_defaults_to_zero() {
    let cache = ResolverCache::new();
    assert_eq!(begin_request("phone", Some(""), &cache), Step::ResolveUpstream(0));
}

#[test]
fn miss_resolves_then_hit_serves_cached() {
    let mut cache = ResolverCache::new();
    // first request: cache miss, the handler asks for one upstream fetch
    assert_eq!(begin_request("phone", Some("5"), &cache), Step::ResolveUpstream(5));
    // the fetch succeeds with embedded code 200
    let r = finish_request(&mut cache, 5, FetchOutcome::Fetched(record(200, "https://img/a.jpg")));
    assert_eq!(r, Response::MovedPermanently(String::from("https://img/a.jpg")));
    assert_eq!(cache.lookup(5), Some(String::from("https://img/a.jpg")));
    // repeat request: answered from the cache, no further fetch asked for
    match begin_request("phone", Some("5"), &cache) {
        Step::Respond(Response::MovedPermanently(loc)) => assert_eq!(loc, "https://img/a.jpg"),
        other => panic!("unexpected step: {:?}", other),
    }
}

#[test]
fn deterministic_upstream_is_idempotent() {
    let mut cache = ResolverCache::new();
    let mut targets = Vec::new();
    for _ in 0..2 {
        match begin_request("phone", Some("7"), &cache) {
            Step::Respond(Response::MovedPermanently(loc)) => targets.push(loc),
            Step::ResolveUpstream(id) => {
                let r = finish_request(
                    &mut cache,
                    id,
                    FetchOutcome::Fetched(record(200, "https://img/same.jpg")),
                );
                match r {
                    Response::MovedPermanently(loc) => targets.push(loc),
                    other => panic!("unexpected response: {:?}", other),
                }
            }
            other => panic!("unexpected step: {:?}", other),
        }
    }
    assert_eq!(targets[0], targets[1]);
}

#[test]
fn coalesced_first_requests_leave_one_entry() {
    // several first-time requests for the same id all complete with the same
    // upstream answer: each is redirected to it, one cache entry remains
    let mut cache = ResolverCache::new();
    for _ in 0..5 {
        let r = finish_request(
            &mut cache,
            9,
            FetchOutcome::Fetched(record(200, "https://img/n.jpg")),
        );
        assert_eq!(r, Response::MovedPermanently(String::from("https://img/n.jpg")));
    }
    assert_eq!(cache.len(), 1);
    assert_eq!(cache.lookup(9), Some(String::from("https://img/n.jpg")));
}

#[test]
fn bad_embedded_code_is_server_error_and_not_cached() {
    let mut cache = ResolverCache::new();
    let r = finish_request(&mut cache, 5, FetchOutcome::Fetched(record(404, "https://img/x.jpg")));
    match &r {
        Response::InternalServerError(body) => {
            assert_eq!(body, "Invail response code from external server")
        }
        other => panic!("unexpected response: {:?}", other),
    }
    assert_eq!(r.status_code(), 500);
    assert_eq!(cache.len(), 0);
    assert_eq!(cache.lookup(5), None);
    // no negative caching: the next request for the id still goes upstream
    assert_eq!(begin_request("phone", Some("5"), &cache), Step::ResolveUpstream(5));
}

#[test]
fn transport_failure_is_server_error() {
    let mut cache = ResolverCache::new();
    let r = finish_request(&mut cache, 5, FetchOutcome::TransportFailure);
    assert_eq!(r.status_code(), 500);
    assert_eq!(r.body_text(), "Failed to send request to external server");
    assert_eq!(cache.len(), 0);
}

#[test]
fn decode_failure_is_server_error() {
    let mut cache = ResolverCache::new();
    let r = finish_request(&mut cache, 5, FetchOutcome::DecodeFailure);
    assert_eq!(r.status_code(), 500);
    assert_eq!(r.body_text(), "Failed to parse response from external server");
    assert_eq!(cache.len(), 0);
}

#[test]
fn negative_and_zero_ids_accepted() {
    let cache = ResolverCache::new();
    assert_eq!(begin_request("phone", Some("-4"), &cache), Step::ResolveUpstream(-4));
    assert_eq!(begin_request("phone", Some("0"), &cache), Step::ResolveUpstream(0));
}

#[test]
fn upstream_url_template() {
    assert_eq!(upstream_url("phone"), "https://t.alcy.cc/phone/?json");
    assert_eq!(upstream_url("pc"), "https://t.alcy.cc/pc/?json");
}
