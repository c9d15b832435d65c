use chatte_vpn::vpn::{
    command_outcome, conf_file_name, finish_down, first_installed, first_present, install_failure_message, interface_path,
    service_is_running, tunnel_service_name, tunnel_up_failure_message, validate_config,
    wireguard_exe, TUNNEL_NAME,
};

#[test]
fn rejects_garbage_config() {
    assert!(validate_config("hello").is_err());
    assert!(validate_config("[Interface]\nPrivateKey = x\n[Peer]\nPublicKey = y").is_ok());
}

#[test]
fn config_sections_may_carry_white_space_and_crlf() {
    assert!(validate_config("  [Interface]  \r\nPrivateKey = x\r\n\t[Peer]\r\n").is_ok());
    assert!(validate_config("[Interface]\n").is_err());
    assert!(validate_config("[Peer]\n[Interface] extra\n").is_err());
    assert!(validate_config("").is_err());
    assert!(validate_config("[Interface][Peer]").is_err());
    assert_eq!(
        validate_config("hello").unwrap_err(),
        "server returned an invalid WireGuard config"
    );
}

#[test]
fn tool_outcome_is_trimmed_output() {
    assert_eq!(
        command_outcome(true, "out\n".to_string(), "err".to_string()),
        Ok("out\n".to_string())
    );
    assert_eq!(
        command_outcome(false, "  bad ".to_string(), "thing\n".to_string()),
        Err("bad thing".to_string())
    );
    assert_eq!(
        command_outcome(false, "\n".to_string(), " ".to_string()),
        Err(String::new())
    );
}

#[test]
fn empty_tool_errors_get_a_hint() {
    assert_eq!(
        install_failure_message(String::new()),
        "failed to install tunnel service (is the app running as Administrator?)"
    );
    assert_eq!(install_failure_message("denied".to_string()), "denied");
    assert_eq!(
        tunnel_up_failure_message(String::new()),
        "failed to bring the tunnel up (authorization dialog dismissed?)"
    );
    assert_eq!(tunnel_up_failure_message("nope".to_string()), "nope");
}

#[test]
fn tunnel_names() {
    assert_eq!(TUNNEL_NAME, "Chatte");
    assert_eq!(conf_file_name(), "Chatte.conf");
    assert_eq!(tunnel_service_name(), "WireGuardTunnel$Chatte");
    assert_eq!(interface_path(), "/sys/class/net/Chatte");
}

#[test]
fn service_state_from_sc_output() {
    assert!(service_is_running("STATE              : 4  RUNNING"));
    assert!(!service_is_running("STATE              : 1  STOPPED"));
    assert!(!service_is_running(""));
    assert!(!service_is_running("RUNNIN"));
}

#[test]
fn first_installed_candidate() {
    let missing = vec!["/definitely/not/here".to_string()];
    assert_eq!(first_installed(&missing, "gone"), Err("gone".to_string()));
    let some = vec!["/definitely/not/here".to_string(), "/".to_string()];
    assert_eq!(first_installed(&some, "gone"), Ok("/".to_string()));
    assert_eq!(first_installed(&Vec::new(), "none"), Err("none".to_string()));
}

#[test]
fn wireguard_for_windows_is_not_on_this_machine() {
    assert_eq!(
        wireguard_exe(),
        Err("WireGuard is not installed. Install it from https://www.wireguard.com/install/".to_string())
    );
}

#[test]
fn first_present_candidate_wins() {
    let c = vec![
        r"C:\Program Files\WireGuard\wireguard.exe".to_string(),
        r"C:\Program Files (x86)\WireGuard\wireguard.exe".to_string(),
    ];
    let missing = "WireGuard is not installed. Install it from https://www.wireguard.com/install/";
    assert_eq!(first_present(&c, &vec![true, true], missing), Ok(c[0].clone()));
    assert_eq!(first_present(&c, &vec![true, false], missing), Ok(c[0].clone()));
    assert_eq!(first_present(&c, &vec![false, true], missing), Ok(c[1].clone()));
    assert_eq!(first_present(&c, &vec![false, false], missing), Err(missing.to_string()));
    assert_eq!(first_present(&Vec::new(), &Vec::new(), "none"), Err("none".to_string()));
}

#[test]
fn taking_the_tunnel_down() {
    let skipped = finish_down(None);
    assert_eq!(skipped.result, Ok(()));
    assert!(skipped.remove_conf);
    let done = finish_down(Some(Ok("ok".to_string())));
    assert_eq!(done.result, Ok(()));
    assert!(done.remove_conf);
    let failed = finish_down(Some(Err("denied".to_string())));
    assert_eq!(failed.result, Err("denied".to_string()));
    assert!(!failed.remove_conf);
}
