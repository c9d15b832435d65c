use chatte_vpn::json::Json;
use chatte_vpn::singbox::{
    choose_singbox_exe, exited_immediately_message, inject_tun_document, inject_tun_inbound,
    is_stale, prepare_config, singbox_exe, spawn_failure_message, startup_outcome, tun_inbounds,
    validate_config, validate_document,
};

fn value(text: &str) -> serde_json::Value {
    serde_json::from_str(text).unwrap()
}

fn check(text: &str) -> Result<(), String> {
    validate_config(text)
}

fn inject(text: &str) -> Result<String, String> {
    inject_tun_inbound(text)
}

#[test]
fn validates_and_injects_tun() {
    let cfg = r#"{"outbounds":[{"type":"vless","tag":"proxy"}]}"#;
    assert!(validate_config(cfg).is_ok());
    assert!(validate_config("garbage").is_err());
    assert!(validate_config(r#"{"outbounds":[]}"#).is_err());

    let out = inject_tun_inbound(cfg).unwrap();
    assert!(out.contains("\"type\":\"tun\""));
    assert!(out.contains("\"tag\":\"proxy\"")); // outbounds preserved
}

#[test]
fn config_errors_are_told_apart() {
    assert_eq!(check("garbage"), Err("did not return a sing-box config".to_string()));
    assert_eq!(check("[1, 2]"), Err("sing-box config has no outbounds".to_string()));
    assert_eq!(check(r#"{"outbounds":{}}"#), Err("sing-box config has no outbounds".to_string()));
    assert_eq!(check(r#"{"route":{}}"#), Err("sing-box config has no outbounds".to_string()));
    assert!(validate_document(&Json::Null).is_err());
}

#[test]
fn injection_replaces_inbounds_and_keeps_the_rest() {
    let cfg = r#"{"inbounds":[{"type":"mixed","listen_port":2080}],"outbounds":[{"type":"vless","tag":"proxy"}],"route":{"final":"proxy"}}"#;
    let out = value(&inject(cfg).unwrap());
    let expected = value(
        r#"{"inbounds":[{"type":"tun","tag":"chatte-tun","address":["172.19.0.1/30"],"auto_route":true,"strict_route":true,"stack":"mixed"}],"outbounds":[{"type":"vless","tag":"proxy"}],"route":{"final":"proxy"}}"#,
    );
    assert_eq!(out, expected);
    assert!(check(&inject(cfg).unwrap()).is_ok());
    assert_eq!(prepare_config(cfg), inject(cfg));
}

#[test]
fn injecting_twice_is_injecting_once() {
    let cfg = r#"{"outbounds":[{"type":"trojan"}],"dns":{"servers":[]}}"#;
    let once = inject(cfg).unwrap();
    let twice = inject(&once).unwrap();
    assert_eq!(once, twice);
}

#[test]
fn null_document_becomes_an_object() {
    let out = value(&inject("null").unwrap());
    let expected = value(
        r#"{"inbounds":[{"type":"tun","tag":"chatte-tun","address":["172.19.0.1/30"],"auto_route":true,"strict_route":true,"stack":"mixed"}]}"#,
    );
    assert_eq!(out, expected);
    match inject_tun_document(Json::Null) {
        Json::Object(f) => {
            assert_eq!(f.len(), 1);
            assert_eq!(f[0].0, "inbounds");
        }
        _ => panic!("not an object"),
    }
}

#[test]
fn parse_errors_pass_through() {
    let e = inject("garbage").unwrap_err();
    assert_eq!(e, serde_json::from_str::<serde_json::Value>("garbage").unwrap_err().to_string());
    assert_eq!(prepare_config("garbage"), Err("did not return a sing-box config".to_string()));
    assert_eq!(prepare_config(r#"{"dns":{}}"#), Err("sing-box config has no outbounds".to_string()));
}

#[test]
fn tun_inbound_shape() {
    match tun_inbounds() {
        Json::Array(a) => {
            assert_eq!(a.len(), 1);
            match &a[0] {
                Json::Object(f) => {
                    let keys: Vec<&str> = f.iter().map(|(k, _)| k.as_str()).collect();
                    assert_eq!(keys, vec!["type", "tag", "address", "auto_route", "strict_route", "stack"]);
                }
                _ => panic!("not an object"),
            }
        }
        _ => panic!("not an array"),
    }
}

#[test]
fn stale_extracted_copies() {
    assert!(is_stale(None, 10));
    assert!(is_stale(Some(9), 10));
    assert!(!is_stale(Some(10), 10));
}

#[test]
fn singbox_executable_chooser() {
    assert_eq!(choose_singbox_exe(Some("a"), true), Some("a"));
    assert_eq!(choose_singbox_exe(Some("a"), false), None);
    assert_eq!(choose_singbox_exe::<&str>(None, true), None);
    assert_eq!(startup_outcome(true), Ok(()));
    assert_eq!(startup_outcome(false), Err(exited_immediately_message()));
}

#[test]
fn singbox_executable_choice() {
    assert_eq!(singbox_exe(None), "sing-box.exe");
    assert_eq!(singbox_exe(Some("/definitely/not/here/sing-box.exe".to_string())), "sing-box.exe");
    assert_eq!(singbox_exe(Some("/".to_string())), "/");
}

#[test]
fn singbox_messages() {
    assert_eq!(
        spawn_failure_message("not found"),
        "failed to start sing-box (not found). Put sing-box.exe next to the app or on PATH — https://sing-box.sagernet.org"
    );
    assert_eq!(
        exited_immediately_message(),
        "sing-box exited immediately — bad config, or the app isn't running as Administrator"
    );
}
