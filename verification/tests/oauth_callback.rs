use operit::oauth_callback::{
    judgeLoopbackRequest, loopbackCompletionRedirect, loopbackRequestTarget, loopbackRequestUrl,
    loopbackResponse, parseRequestedCompletionRedirect, sameCallbackDestination,
};

/// Preserves the upstream callback path when reserving a loopback destination.
#[test]
fn oauth_callback_reserves_loopback_completion_path() {
    let requested = parseRequestedCompletionRedirect("https://api.operit.app/oauth/github/complete")
        .expect("requested callback URL should parse");
    let actual = loopbackCompletionRedirect(&requested, 43120).expect("loopback callback URL should build");

    assert_eq!(actual.serialization, "http://127.0.0.1:43120/oauth/github/complete");
}

/// Rejects a loopback request that targets a path outside its prepared callback destination.
#[test]
fn oauth_callback_rejects_unregistered_path() {
    let requested = parseRequestedCompletionRedirect("https://api.operit.app/oauth/github/complete")
        .expect("requested callback URL should parse");
    let registered = loopbackCompletionRedirect(&requested, 43120).expect("registered callback URL should parse");
    assert_eq!(registered.serialization, "http://127.0.0.1:43120/oauth/github/complete");
    let received = loopbackRequestUrl(&registered, "/other?status=complete").expect("received callback URL should parse");

    assert!(!sameCallbackDestination(&received, &registered));
}

#[test]
fn loopback_destination_reports_its_parts() {
    let requested = parseRequestedCompletionRedirect("https://api.operit.app/oauth/github/complete").unwrap();
    let completion = loopbackCompletionRedirect(&requested, 43120).unwrap();
    assert_eq!(completion.scheme, "http");
    assert_eq!(completion.host.as_deref(), Some("127.0.0.1"));
    assert_eq!(completion.path, "/oauth/github/complete");
    assert_eq!(completion.port, Some(43120));
    assert_eq!(completion.origin, "http://127.0.0.1:43120");
}

#[test]
fn requested_destination_must_be_plain_https() {
    for raw in [
        "http://api.operit.app/complete",
        "https://api.operit.app/complete?x=1",
        "https://api.operit.app/complete#frag",
        "https://user:pw@api.operit.app/complete",
    ] {
        assert_eq!(
            parseRequestedCompletionRedirect(raw).unwrap_err(),
            "browser callback completion destination is invalid"
        );
    }
    assert!(parseRequestedCompletionRedirect("not a url")
        .unwrap_err()
        .starts_with("browser callback completion destination is invalid: "));
}

#[test]
fn request_target_is_second_word_of_first_line() {
    assert_eq!(
        loopbackRequestTarget("GET /oauth/github/complete?code=1 HTTP/1.1\r\nHost: x\r\n\r\n").as_deref(),
        Some("/oauth/github/complete?code=1")
    );
    assert_eq!(loopbackRequestTarget("GET\r\n"), None);
    assert_eq!(loopbackRequestTarget(""), None);
    assert_eq!(loopbackRequestTarget("  GET   /a  ").as_deref(), Some("/a"));
}

#[test]
fn loopback_requests_are_judged_against_the_registered_path() {
    let requested = parseRequestedCompletionRedirect("https://api.operit.app/oauth/github/complete").unwrap();
    let registered = loopbackCompletionRedirect(&requested, 43120).unwrap();
    assert_eq!(
        judgeLoopbackRequest("GET /oauth/github/complete?status=ok HTTP/1.1\r\n\r\n", &registered).unwrap(),
        Some("http://127.0.0.1:43120/oauth/github/complete?status=ok".to_string())
    );
    assert_eq!(judgeLoopbackRequest("GET /other HTTP/1.1\r\n\r\n", &registered).unwrap(), None);
    assert_eq!(
        judgeLoopbackRequest("GET\r\n", &registered).unwrap_err(),
        "browser callback loopback request has no target"
    );
    assert_eq!(
        judgeLoopbackRequest("GET other HTTP/1.1\r\n", &registered).unwrap_err(),
        "browser callback loopback request target is invalid"
    );
}

#[test]
fn loopback_responses_are_small_pages() {
    assert_eq!(
        loopbackResponse(false),
        "HTTP/1.1 404 Not Found\r\nContent-Type: text/html; charset=utf-8\r\nConnection: close\r\nCache-Control: no-store\r\n\r\n<!doctype html><html><body>Browser callback destination is not registered.</body></html>"
    );
    assert!(loopbackResponse(true).starts_with("HTTP/1.1 200 OK\r\n"));
    assert!(loopbackResponse(true).ends_with("<body>Browser callback complete. You can return to Operit.</body></html>"));
}
