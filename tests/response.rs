use std::collections::HashMap;

use kraken_client::KrakenResponse;

#[test]
fn success_requires_no_errors_and_a_result() {
    let ok: KrakenResponse<u32> = KrakenResponse { error: vec![], result: Some(1) };
    let empty: KrakenResponse<u32> = KrakenResponse { error: vec![], result: None };
    let failed: KrakenResponse<u32> =
        KrakenResponse { error: vec!["EAPI:Invalid key".to_string()], result: None };
    let mixed: KrakenResponse<u32> =
        KrakenResponse { error: vec!["EGeneral:Too many requests".to_string()], result: Some(1) };
    assert!(ok.success());
    assert!(!empty.success());
    assert!(!failed.success());
    assert!(!mixed.success());
}

fn balance_envelope(body: &str) -> KrakenResponse<HashMap<String, String>> {
    let value: serde_json::Value = serde_json::from_str(body).unwrap();
    let error = value["error"]
        .as_array()
        .unwrap()
        .iter()
        .map(|e| e.as_str().unwrap().to_string())
        .collect();
    let result = value.get("result").and_then(|r| r.as_object()).map(|m| {
        m.iter()
            .map(|(k, v)| (k.clone(), v.as_str().unwrap().to_string()))
            .collect::<HashMap<String, String>>()
    });
    KrakenResponse { error, result }
}

#[test]
fn decoded_balance_sample_is_a_success() {
    let response = balance_envelope(r#"{"error":[],"result":{"XXBT":"1.0000"}}"#);
    assert!(response.success());
    let result = response.result.as_ref().unwrap();
    assert_eq!(result.get("XXBT").map(|s| s.as_str()), Some("1.0000"));
}

#[test]
fn decoded_error_sample_is_not_a_success() {
    let response = balance_envelope(r#"{"error":["EAPI:Invalid nonce"]}"#);
    assert!(!response.success());
    assert_eq!(response.error, vec!["EAPI:Invalid nonce".to_string()]);
}
