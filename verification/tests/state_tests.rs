use chatte_vpn::state::{status_of, to_info, AppState, ServerConfig, SubscriptionPayload};

fn server(id: &str, protocol: &str) -> ServerConfig {
    ServerConfig {
        id: id.to_string(),
        name: format!("{id} name"),
        country: "DE".to_string(),
        city: "Berlin".to_string(),
        protocol: protocol.to_string(),
        config: format!("[Interface]\n# secret of {id}\n[Peer]\n"),
    }
}

fn subscribed() -> AppState {
    let mut st = AppState::new();
    st.apply_subscription(SubscriptionPayload {
        expires: "2030-01-01".to_string(),
        servers: vec![server("de-01", "wireguard"), server("nl-01", "vless"), server("de-01", "vless")],
    });
    st
}

#[test]
fn info_keeps_metadata_in_order() {
    let servers = vec![server("a", "wireguard"), server("b", "trojan")];
    let info = to_info(&servers);
    assert_eq!(info.len(), 2);
    assert_eq!(info[0].id, "a");
    assert_eq!(info[0].name, "a name");
    assert_eq!(info[0].country, "DE");
    assert_eq!(info[0].city, "Berlin");
    assert_eq!(info[0].protocol, "wireguard");
    assert_eq!(info[1].id, "b");
    assert_eq!(info[1].protocol, "trojan");
    assert!(to_info(&[]).is_empty());
}

#[test]
fn fresh_state_shows_nothing() {
    let st = AppState::new();
    let s = status_of(&st, false, false);
    assert!(!s.has_subscription);
    assert!(s.expires.is_none());
    assert!(s.servers.is_empty());
    assert!(!s.connected);
    assert!(s.connected_server.is_none());
    assert!(status_of(&st, false, true).has_subscription);
}

#[test]
fn subscription_is_shown() {
    let st = subscribed();
    let s = status_of(&st, false, false);
    assert!(s.has_subscription);
    assert_eq!(s.expires.as_deref(), Some("2030-01-01"));
    assert_eq!(s.servers.len(), 3);
    assert_eq!(s.servers[1].id, "nl-01");
}

#[test]
fn selection_rules() {
    let st = subscribed();
    assert_eq!(st.select_for_connect("de-01"), Ok(0));
    assert_eq!(st.select_for_connect("nl-01"), Err("vless is not supported yet".to_string()));
    assert_eq!(st.select_for_connect("xx-99"), Err("unknown server".to_string()));
    assert_eq!(st.find_server("nl-01"), Some(1));
    assert_eq!(st.find_server(""), None);
    assert!(st.server_config(0).contains("secret of de-01"));
}

#[test]
fn connection_lifecycle() {
    let mut st = subscribed();
    assert!(!st.needs_tunnel_probe());
    st.mark_connected("de-01".to_string());
    assert!(st.needs_tunnel_probe());
    let s = status_of(&st, true, false);
    assert!(s.connected);
    assert_eq!(s.connected_server.as_deref(), Some("de-01"));
    // tunnel still up: nothing changes
    st.reconcile(true);
    assert_eq!(st.connected_server.as_deref(), Some("de-01"));
    // tunnel died under us
    st.reconcile(false);
    assert!(st.connected_server.is_none());
    assert!(!status_of(&st, false, false).connected);
    st.mark_connected("de-01".to_string());
    st.mark_disconnected();
    assert!(st.connected_server.is_none());
}

#[test]
fn new_subscription_keeps_connection() {
    let mut st = subscribed();
    st.mark_connected("de-01".to_string());
    st.apply_subscription(SubscriptionPayload { expires: "2031-01-01".to_string(), servers: vec![] });
    assert_eq!(st.connected_server.as_deref(), Some("de-01"));
    assert_eq!(st.expires.as_deref(), Some("2031-01-01"));
    assert!(st.servers.is_empty());
}

#[test]
fn forgetting_clears_everything() {
    let mut st = subscribed();
    st.mark_connected("de-01".to_string());
    st.reset();
    assert!(st.expires.is_none());
    assert!(st.servers.is_empty());
    assert!(st.connected_server.is_none());
}
