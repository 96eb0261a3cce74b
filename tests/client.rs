use kraken_client::{join_assets, Error, KrakenClient, ASSETS_PATH, BALANCE_PATH, KRAKEN_BASE_URL};

fn client(key: Option<&str>, secret: Option<&str>) -> KrakenClient {
    KrakenClient::new_v0(key.map(|k| k.to_string()), secret.map(|s| s.to_string()))
}

#[test]
fn missing_credentials_are_unauthorized() {
    for c in [client(None, None), client(Some("key"), None), client(None, Some("c2VjcmV0"))] {
        assert!(matches!(c.private_request(BALANCE_PATH), Err(Error::Unauthorized)));
        assert!(matches!(c.prepare_private(BALANCE_PATH, 1), Err(Error::Unauthorized)));
    }
}

#[test]
fn private_request_is_signed() {
    let c = client(Some("my-key"), Some("c2VjcmV0"));
    let req = c.prepare_private(BALANCE_PATH, 1700000000000).unwrap();
    assert_eq!(req.url, "https://api.kraken.com//0/private/Balance");
    assert_eq!(req.api_key, "my-key");
    assert_eq!(req.api_sign, "/xbwWEpes5nsvtwSckvMTeFE2hi+XrkND8ZtAy3heGzUb2ol5PfOfzq13ngg5s+0rU75nNKyZyvhKWhlVLQKvw==");
    assert_eq!(req.body, b"nonce=1700000000000".to_vec());
}

#[test]
fn private_request_reads_the_clock() {
    let c = client(Some("my-key"), Some("c2VjcmV0"));
    let req = c.private_request(BALANCE_PATH).unwrap();
    assert!(req.body.starts_with(b"nonce="));
    assert_eq!(req.api_sign.len(), 88);
}

#[test]
fn bad_secret_fails_before_sending() {
    let c = client(Some("my-key"), Some("***"));
    assert!(matches!(c.prepare_private(BALANCE_PATH, 1), Err(Error::Base64DecodeError(_))));
    assert!(matches!(c.private_request(BALANCE_PATH), Err(Error::Base64DecodeError(_))));
}

#[test]
fn client_configuration() {
    let c = KrakenClient::new("http://localhost:8080", 3, None, None);
    assert_eq!(c.base_url, "http://localhost:8080");
    assert_eq!(c.api_version, 3);
    assert_eq!(c.private_path("Balance"), "/3/private/Balance");
    let v0 = client(None, None);
    assert_eq!(v0.base_url, KRAKEN_BASE_URL);
    assert_eq!(v0.api_version, 0);
}

#[test]
fn public_urls() {
    let c = KrakenClient::new("https://api.kraken.com", 0, None, None);
    assert_eq!(c.public_url("Time"), "https://api.kraken.com/0/public/Time");
    assert_eq!(c.all_asset_info_url(), "https://api.kraken.com/0/public/Assets");
    assert_eq!(c.asset_info_url(&["ETH"]), "https://api.kraken.com/0/public/Assets?asset=ETH");
    assert_eq!(
        c.asset_info_url(&["XBT", "ETH"]),
        "https://api.kraken.com/0/public/Assets?asset=XBT,ETH"
    );
    assert_eq!(
        c.asset_class_info_url("currency"),
        "https://api.kraken.com/0/public/Assets?aclass=currency"
    );
    assert_eq!(ASSETS_PATH, "Assets");
}

#[test]
fn joined_asset_names() {
    assert_eq!(join_assets(&[]), "");
    assert_eq!(join_assets(&["ETH"]), "ETH");
    assert_eq!(join_assets(&["XBT", "ETH", "DOT"]), "XBT,ETH,DOT");
}
