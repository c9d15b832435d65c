use chatte_vpn::store::{delete_outcome, read_outcome, write_outcome, StoreFailure, KEY, SERVICE};

fn failure(no_entry: bool, message: &str) -> StoreFailure {
    StoreFailure { no_entry, message: message.to_string() }
}

#[test]
fn store_names() {
    assert_eq!(SERVICE, "chatte-vpn");
    assert_eq!(KEY, "subscription-url");
}

#[test]
fn missing_credential_counts_as_deleted() {
    assert_eq!(delete_outcome(Ok(())), Ok(()));
    assert_eq!(delete_outcome(Err(failure(true, "No matching entry found in secure storage"))), Ok(()));
    assert_eq!(delete_outcome(Err(failure(false, "locked"))), Err("locked".to_string()));
}

#[test]
fn write_and_read_outcomes() {
    assert_eq!(write_outcome(Ok(())), Ok(()));
    assert_eq!(write_outcome(Err(failure(false, "denied"))), Err("denied".to_string()));
    assert_eq!(read_outcome(Ok("https://x".to_string())), Some("https://x".to_string()));
    assert_eq!(read_outcome(Err(failure(true, "none"))), None);
}
