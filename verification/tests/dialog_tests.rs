//! Behaviour of the dialog URL builder and the onboarding decision helpers.

use porto::crypto::AdminKey;
use porto::dialog::{Account, ConnectResult, DialogBuilder, DialogRequest};
use porto::error::PortoError;
use porto::onboard::{connect_params, first_account_address};

#[test]
fn test_dialog_builder_getters() {
    let mut builder = DialogBuilder::new("stg.id.porto.sh".to_string());
    assert_eq!(builder.host(), "stg.id.porto.sh");
    assert_eq!(builder.relay_url(), "");
    builder.set_relay_url("http://localhost:4711".to_string());
    assert_eq!(builder.relay_url(), "http://localhost:4711");
    assert_eq!(builder.host(), "stg.id.porto.sh");
}

#[test]
fn test_build_url_renders_all_query_pairs() {
    let mut builder = DialogBuilder::new("stg.id.porto.sh".to_string());
    builder.set_relay_url("http://localhost:1234".to_string());
    let request = DialogRequest {
        method: "wallet_connect".to_string(),
        params: "[{}]".to_string(),
        id: 1,
    };
    let url = builder.build_url(&request).unwrap();
    assert_eq!(
        url,
        "https://stg.id.porto.sh/dialog/wallet_connect?id=1&method=wallet_connect&params=%5B%7B%7D%5D&referrer=%7B%22title%22%3A%22Porto+CLI%22%2C%22url%22%3A%22cli%3A%2F%2Fporto%22%7D&relayUrl=http%3A%2F%2Flocalhost%3A1234"
    );
}

#[test]
fn test_build_url_renders_multi_digit_id() {
    let mut builder = DialogBuilder::new("example.test".to_string());
    builder.set_relay_url("http://localhost:1".to_string());
    let request = DialogRequest {
        method: "wallet_addFunds".to_string(),
        params: "[]".to_string(),
        id: 1234567890,
    };
    let url = builder.build_url(&request).unwrap();
    assert!(url.starts_with("https://example.test/dialog/wallet_addFunds?id=1234567890&"));
}

#[test]
fn test_build_url_rejects_unparsable_host() {
    let builder = DialogBuilder::new("not a host/".to_string());
    let request = DialogRequest { method: "m".to_string(), params: "[]".to_string(), id: 2 };
    match builder.build_url(&request) {
        Err(PortoError::DialogError(_)) => {}
        Err(_) => panic!("an unparsable base must give a dialog error"),
        Ok(u) => panic!("an unparsable base must be refused, got {}", u),
    }
}

#[test]
fn test_connect_params_without_admin_key() {
    let params = connect_params(&None);
    assert!(params.create_account);
    assert!(params.grant_admins.is_none());
}

#[test]
fn test_connect_params_grants_generated_admin_key() {
    let key = AdminKey::new().unwrap();
    let expected_pk = key.public_key.clone();
    let params = connect_params(&Some(key));
    assert!(params.create_account);
    let grants = params.grant_admins.unwrap();
    assert_eq!(grants.len(), 1);
    assert_eq!(grants[0].public_key, expected_pk);
    assert_eq!(grants[0].key_type, "secp256k1");
}

#[test]
fn test_first_account_address_picks_first() {
    let result = ConnectResult {
        accounts: vec![
            Account { address: "0xABC".to_string() },
            Account { address: "0xDEF".to_string() },
        ],
    };
    assert_eq!(first_account_address(&result).unwrap(), "0xABC");
}

#[test]
fn test_first_account_address_rejects_empty() {
    let result = ConnectResult { accounts: vec![] };
    match first_account_address(&result) {
        Err(e) => {
            assert!(matches!(e, PortoError::AccountCreationError(_)));
            assert_eq!(e.message(), "No accounts created");
        }
        _ => panic!("an empty account list must be an account creation error"),
    }
}
