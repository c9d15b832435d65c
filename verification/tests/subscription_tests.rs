use chatte_vpn::subscription::{check_origin, check_subscription_url, refresh_url, reply_action, ReplyAction, UrlParts};

#[test]
fn https_urls_pass_trimmed() {
    assert_eq!(
        check_subscription_url("  https://sub.example.com/v1/subscription/tok \n"),
        Ok("https://sub.example.com/v1/subscription/tok".to_string())
    );
    assert_eq!(
        check_subscription_url("HTTPS://example.com"),
        Ok("HTTPS://example.com".to_string())
    );
}

#[test]
fn plain_http_only_to_this_machine() {
    assert!(check_subscription_url("http://localhost:8080/v1/subscription/chatte-dev-token-1").is_ok());
    assert!(check_subscription_url("http://127.0.0.1:8080/x").is_ok());
    assert_eq!(
        check_subscription_url("http://example.com/x"),
        Err("subscription URL must be https".to_string())
    );
    assert_eq!(
        check_subscription_url("ftp://localhost/x"),
        Err("subscription URL must be https".to_string())
    );
}

#[test]
fn unparsable_urls() {
    assert_eq!(check_subscription_url("not a url"), Err("invalid URL".to_string()));
    assert_eq!(check_subscription_url("   "), Err("invalid URL".to_string()));
}

#[test]
fn origin_rules() {
    let p = |s: &str, h: Option<&str>| UrlParts { scheme: s.to_string(), host: h.map(|x| x.to_string()) };
    assert!(check_origin(&p("https", None)).is_ok());
    assert!(check_origin(&p("http", Some("localhost"))).is_ok());
    assert!(check_origin(&p("http", Some("127.0.0.1"))).is_ok());
    assert!(check_origin(&p("http", Some("localhost.example"))).is_err());
    assert!(check_origin(&p("http", None)).is_err());
}

fn failure(status: u16) -> Option<String> {
    match reply_action(status) {
        ReplyAction::ReadPayload => None,
        ReplyAction::Fail(m) => Some(m),
    }
}

#[test]
fn reply_statuses() {
    assert_eq!(failure(200), None);
    assert_eq!(failure(403).as_deref(), Some("subscription expired"));
    assert_eq!(failure(404).as_deref(), Some("subscription not found — check the URL"));
    assert_eq!(failure(500).as_deref(), Some("server error (500)"));
    assert_eq!(failure(0).as_deref(), Some("server error (0)"));
    assert_eq!(failure(7).as_deref(), Some("server error (7)"));
    assert_eq!(failure(65535).as_deref(), Some("server error (65535)"));
}

#[test]
fn refresh_needs_a_stored_url() {
    assert_eq!(refresh_url(Some("https://x".to_string())), Ok("https://x".to_string()));
    assert_eq!(refresh_url(None), Err("no subscription configured".to_string()));
}
