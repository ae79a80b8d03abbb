use lnbot::{
    check_status, from_status, is_error_status, query_pairs, Body, ListParams, LnBot, LnBotError,
    Method, Request,
};

fn pair(name: &str, value: &str) -> (String, String) {
    (name.to_string(), value.to_string())
}

fn header<'a>(request: &'a Request<'_>, name: &str) -> Option<&'a str> {
    request.headers.iter().find(|(n, _)| n.eq_ignore_ascii_case(name)).map(|(_, v)| v.as_str())
}

// ---------------------------------------------------------------------------
// Client construction
// ---------------------------------------------------------------------------

#[test]
fn new_sends_authorization_header() {
    let client = LnBot::new("key_test");
    let request = client.wallets().current();
    assert_eq!(header(&request, "authorization"), Some("Bearer key_test"));
    assert_eq!(request.method, Method::Get);
    assert_eq!(request.url, "https://api.ln.bot/v1/wallets/current");
}

#[test]
fn unauthenticated_omits_authorization() {
    let client = LnBot::unauthenticated();
    let body = lnbot::CreateWalletRequest::default();
    let request = client.wallets().create(&body);
    assert_eq!(header(&request, "authorization"), None);
    assert_eq!(request.headers, vec![pair("Accept", "application/json")]);
    assert_eq!(request.method, Method::Post);
    assert_eq!(request.url, "https://api.ln.bot/v1/wallets");
}

#[test]
fn sends_accept_json_header() {
    let client = LnBot::new("key_test");
    let request = client.wallets().current();
    assert_eq!(header(&request, "accept"), Some("application/json"));
    assert_eq!(
        request.headers,
        vec![pair("Accept", "application/json"), pair("Authorization", "Bearer key_test")]
    );
    assert_eq!(client.auth(), request.headers);
}

#[test]
fn with_base_url_trims_trailing_slash() {
    let client = LnBot::new("key_test").with_base_url("http://127.0.0.1:1234/");
    assert_eq!(client.wallets().current().url, "http://127.0.0.1:1234/v1/wallets/current");
    assert_eq!(header(&client.wallets().current(), "authorization"), Some("Bearer key_test"));
}

#[test]
fn with_base_url_trims_every_trailing_slash_and_nothing_else() {
    let url = |base: &str| LnBot::unauthenticated().with_base_url(base).get("/x").url;
    assert_eq!(url("http://h"), "http://h/x");
    assert_eq!(url("http://h///"), "http://h/x");
    assert_eq!(url("http://h/a/b/"), "http://h/a/b/x");
    assert_eq!(url("///"), "/x");
    assert_eq!(url(""), "/x");
    assert_eq!(url("http://h/ "), "http://h/ /x");
}

// ---------------------------------------------------------------------------
// Transport operations
// ---------------------------------------------------------------------------

#[test]
fn transport_operations_build_one_request_each() {
    let client = LnBot::new("k").with_base_url("http://h");
    let wallet = lnbot::UpdateWalletRequest::new("n");

    let get = client.get("/p");
    assert_eq!(get.method, Method::Get);
    assert_eq!(get.url, "http://h/p");
    assert!(get.query.is_empty());
    assert!(matches!(get.body, Body::Empty));

    let post = client.post("/p", Body::UpdateWallet(&wallet));
    assert_eq!(post.method, Method::Post);
    assert_eq!(post.url, "http://h/p");
    assert!(matches!(post.body, Body::UpdateWallet(w) if w.name == "n"));

    let post = client.post_no_response("/q", Body::Empty);
    assert_eq!(post.method, Method::Post);
    assert_eq!(post.url, "http://h/q");
    assert!(matches!(post.body, Body::Empty));

    let patch = client.patch("/p", Body::UpdateWallet(&wallet));
    assert_eq!(patch.method, Method::Patch);
    assert!(matches!(patch.body, Body::UpdateWallet(_)));

    let delete = client.delete("/p");
    assert_eq!(delete.method, Method::Delete);
    assert!(matches!(delete.body, Body::Empty));
    assert_eq!(header(&delete, "accept"), Some("application/json"));

    let paged = client.get_with_params("/p", &ListParams::default().limit(2));
    assert_eq!(paged.method, Method::Get);
    assert_eq!(paged.url, "http://h/p");
    assert_eq!(paged.query, vec![pair("limit", "2")]);
}

#[test]
fn subscribe_accepts_event_stream() {
    let client = LnBot::new("key_test").with_base_url("http://h");
    let sub = client.subscribe("/v1/events", lnbot::Framing::DataOnly);
    assert_eq!(sub.request.method, Method::Get);
    assert_eq!(sub.request.url, "http://h/v1/events");
    assert_eq!(
        sub.request.headers,
        vec![pair("Accept", "text/event-stream"), pair("Authorization", "Bearer key_test")]
    );
    assert!(sub.request.query.is_empty());
    assert!(matches!(sub.request.body, Body::Empty));
    let sub = LnBot::unauthenticated().subscribe("/e", lnbot::Framing::Labelled);
    assert_eq!(sub.request.headers, vec![pair("Accept", "text/event-stream")]);
}

// ---------------------------------------------------------------------------
// Pagination
// ---------------------------------------------------------------------------

#[test]
fn query_pairs_omits_what_is_absent() {
    assert!(query_pairs(&ListParams::default()).is_empty());
    assert_eq!(query_pairs(&ListParams::default().limit(5)), vec![pair("limit", "5")]);
    assert_eq!(query_pairs(&ListParams::default().after(9)), vec![pair("after", "9")]);
    assert_eq!(
        query_pairs(&ListParams::default().after(5).limit(10)),
        vec![pair("limit", "10"), pair("after", "5")]
    );
}

#[test]
fn query_pairs_writes_decimal_values() {
    let params = ListParams { limit: Some(0), after: Some(-1) };
    assert_eq!(query_pairs(&params), vec![pair("limit", "0"), pair("after", "-1")]);
    let params = ListParams { limit: Some(i32::MAX), after: Some(i32::MIN) };
    assert_eq!(
        query_pairs(&params),
        vec![pair("limit", "2147483647"), pair("after", "-2147483648")]
    );
}

// ---------------------------------------------------------------------------
// Error mapping from HTTP status codes
// ---------------------------------------------------------------------------

#[test]
fn maps_400_to_bad_request() {
    let err = check_status(400, r#"{"message":"bad"}"#.to_string()).unwrap_err();
    assert!(matches!(err, LnBotError::BadRequest { body } if body == r#"{"message":"bad"}"#));
}

#[test]
fn maps_401_to_unauthorized() {
    let err = check_status(401, r#"{"message":"unauthorized"}"#.to_string()).unwrap_err();
    assert!(matches!(err, LnBotError::Unauthorized { body } if body == r#"{"message":"unauthorized"}"#));
}

#[test]
fn maps_403_to_forbidden() {
    let err = check_status(403, r#"{"message":"forbidden"}"#.to_string()).unwrap_err();
    assert!(matches!(err, LnBotError::Forbidden { body } if body == r#"{"message":"forbidden"}"#));
}

#[test]
fn maps_404_to_not_found() {
    let err = check_status(404, r#"{"message":"not found"}"#.to_string()).unwrap_err();
    assert!(matches!(err, LnBotError::NotFound { body } if body == r#"{"message":"not found"}"#));
}

#[test]
fn maps_409_to_conflict() {
    let err = check_status(409, r#"{"message":"conflict"}"#.to_string()).unwrap_err();
    assert!(matches!(err, LnBotError::Conflict { body } if body == r#"{"message":"conflict"}"#));
}

#[test]
fn maps_500_to_api_error() {
    let err = check_status(500, "internal error".to_string()).unwrap_err();
    match err {
        LnBotError::Api { status, body } => {
            assert_eq!(status, 500);
            assert_eq!(body, "internal error");
        }
        other => panic!("expected Api, got {:?}", other),
    }
}

#[test]
fn error_preserves_response_body() {
    let err = check_status(401, r#"{"message":"invalid key"}"#.to_string()).unwrap_err();
    let msg = err.to_string();
    assert!(msg.contains("401"));
    assert!(msg.contains("invalid key"));
}

#[test]
fn from_status_maps_every_failure_status() {
    let mut status: u16 = 400;
    loop {
        let body = format!("body of {}", status);
        let err = from_status(status, body.clone());
        match (status, err) {
            (400, LnBotError::BadRequest { body: kept }) => assert_eq!(kept, body),
            (401, LnBotError::Unauthorized { body: kept }) => assert_eq!(kept, body),
            (403, LnBotError::Forbidden { body: kept }) => assert_eq!(kept, body),
            (404, LnBotError::NotFound { body: kept }) => assert_eq!(kept, body),
            (409, LnBotError::Conflict { body: kept }) => assert_eq!(kept, body),
            (400 | 401 | 403 | 404 | 409, other) => panic!("{}: {:?}", status, other),
            (_, LnBotError::Api { status: code, body: kept }) => {
                assert_eq!(code, status);
                assert_eq!(kept, body);
            }
            (_, other) => panic!("{}: {:?}", status, other),
        }
        if status == u16::MAX {
            break;
        }
        status += 1;
    }
}

#[test]
fn statuses_below_400_pass() {
    for status in [0u16, 100, 200, 204, 301, 399] {
        assert!(!is_error_status(status));
        assert!(check_status(status, "anything".to_string()).is_ok());
    }
    for status in [400u16, 402, 599, 65535] {
        assert!(is_error_status(status));
        assert!(check_status(status, String::new()).is_err());
    }
    match check_status(402, "pay".to_string()) {
        Err(LnBotError::Api { status: 402, body }) => assert_eq!(body, "pay"),
        other => panic!("expected Api, got {:?}", other),
    }
}
