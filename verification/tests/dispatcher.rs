use lnbits_client::api::{
    classify_outcome, classify_status, HttpMethod, LnbitsEndpoints, LnbitsRequestKeyType,
    TransportOutcome,
};
use lnbits_client::api::invoice::invoice_paid;
use lnbits_client::{LNbitsRustClient, LnbitsError};

fn client() -> LNbitsRustClient {
    LNbitsRustClient::new(
        "wallet-1",
        "https://lnbits.example/",
        "read-key-1",
        "admin-key-1",
        None,
    )
    .unwrap()
}

#[test]
fn key_selector_returns_configured_credentials() {
    let c = client();
    let read = c.select_key(&LnbitsRequestKeyType::InvoiceRead);
    let admin = c.select_key(&LnbitsRequestKeyType::Admin);
    assert_eq!(read, "read-key-1");
    assert_eq!(admin, "admin-key-1");
    assert!(!read.is_empty());
    assert!(!admin.is_empty());
}

#[test]
fn endpoint_paths_render_exactly() {
    assert_eq!(LnbitsEndpoints::Wallets.path(), "api/v1/wallet");
    assert_eq!(LnbitsEndpoints::Payments.path(), "api/v1/payments");
    assert_eq!(LnbitsEndpoints::PaymentsDecode.path(), "api/v1/payments/decode");
    assert_eq!(LnbitsEndpoints::Boltz.path(), "api/v1/beltz");
    assert_eq!(
        LnbitsEndpoints::PaymentHash(String::from("abc123")).path(),
        "api/v1/payments/abc123"
    );
    assert_eq!(
        LnbitsEndpoints::PaymentsFindInvoice(String::from("chk-9")).path(),
        "api/v1/payments?checking_id=chk-9"
    );
}

#[test]
fn endpoint_resolution_is_deterministic_and_identifier_sensitive() {
    let a = LnbitsEndpoints::PaymentHash(String::from("h1"));
    assert_eq!(a.path(), a.path());
    let b = LnbitsEndpoints::PaymentHash(String::from("h2"));
    assert_ne!(a.path(), b.path());
    let f1 = LnbitsEndpoints::PaymentsFindInvoice(String::from("id1"));
    let f2 = LnbitsEndpoints::PaymentsFindInvoice(String::from("id2"));
    assert_eq!(f1.path(), f1.path());
    assert_ne!(f1.path(), f2.path());
}

#[test]
fn prepare_request_joins_base_url_and_selects_key() {
    let c = client();
    let p = c
        .prepare_request(
            HttpMethod::Get,
            &LnbitsRequestKeyType::InvoiceRead,
            &LnbitsEndpoints::Wallets,
            None,
        )
        .unwrap();
    assert_eq!(p.url, "https://lnbits.example/api/v1/wallet");
    assert_eq!(p.api_key, "read-key-1");
    assert_eq!(p.method, HttpMethod::Get);
    assert_eq!(p.body, None);

    let q = c
        .prepare_request(
            HttpMethod::Post,
            &LnbitsRequestKeyType::Admin,
            &LnbitsEndpoints::PaymentsFindInvoice(String::from("xyz")),
            Some(String::from("{}")),
        )
        .unwrap();
    assert_eq!(q.url, "https://lnbits.example/api/v1/payments?checking_id=xyz");
    assert_eq!(q.api_key, "admin-key-1");
    assert_eq!(q.body, Some(String::from("{}")));
}

#[test]
fn prepare_request_appends_to_base_path() {
    let c = LNbitsRustClient::new(
        "w",
        "https://host.example/lnbits/",
        "r",
        "a",
        None,
    )
    .unwrap();
    let p = c
        .prepare_request(
            HttpMethod::Get,
            &LnbitsRequestKeyType::InvoiceRead,
            &LnbitsEndpoints::Payments,
            None,
        )
        .unwrap();
    assert_eq!(p.url, "https://host.example/lnbits/api/v1/payments");
}

#[test]
fn new_rejects_invalid_base_url() {
    let r = LNbitsRustClient::new("w", "not a url", "r", "a", None);
    assert!(matches!(r, Err(LnbitsError::Configuration)));
}

#[test]
fn new_rejects_invalid_proxy_target() {
    let r = LNbitsRustClient::new("w", "https://lnbits.example/", "r", "a", Some(""));
    assert!(matches!(r, Err(LnbitsError::Configuration)));
}

#[test]
fn dispatch_404_yields_not_found() {
    let c = client();
    let p = c
        .prepare_request(
            HttpMethod::Get,
            &LnbitsRequestKeyType::Admin,
            &LnbitsEndpoints::PaymentHash(String::from("unknown")),
            None,
        )
        .unwrap();
    assert_eq!(p.url, "https://lnbits.example/api/v1/payments/unknown");
    let outcome = TransportOutcome::Response(404, String::from("{\"detail\":\"missing\"}"));
    let r = classify_outcome(outcome);
    assert!(matches!(r, Err(LnbitsError::NotFound)));
}

#[test]
fn dispatch_401_yields_unauthorized() {
    let outcome = TransportOutcome::Response(401, String::from("denied"));
    let r = classify_outcome(outcome);
    assert!(matches!(r, Err(LnbitsError::Unauthorized)));
}

#[test]
fn dispatch_200_returns_body_unchanged() {
    let c = client();
    let body = String::from("{\"out\":true,\"bolt11\":\"lnbc1...\"}");
    let p = c
        .prepare_request(
            HttpMethod::Post,
            &LnbitsRequestKeyType::Admin,
            &LnbitsEndpoints::Payments,
            Some(body.clone()),
        )
        .unwrap();
    assert_eq!(p.body, Some(body));
    let outcome = TransportOutcome::Response(200, String::from("{\"payment_hash\":\"abc\"}"));
    let r = classify_outcome(outcome);
    assert_eq!(r, Ok(String::from("{\"payment_hash\":\"abc\"}")));
}

#[test]
fn dispatch_other_statuses_return_body() {
    let r = classify_outcome(TransportOutcome::Response(500, String::from("boom")));
    assert_eq!(r, Ok(String::from("boom")));
    let r = classify_outcome(TransportOutcome::Response(422, String::from("nope")));
    assert_eq!(r, Ok(String::from("nope")));
}

#[test]
fn transport_failure_is_never_downgraded() {
    let r = classify_outcome(TransportOutcome::Failed(String::from("connection reset")));
    assert_eq!(r, Err(LnbitsError::Transport(String::from("connection reset"))));
}

#[test]
fn classify_status_covers_both_failure_codes() {
    assert_eq!(classify_status(404), Some(LnbitsError::NotFound));
    assert_eq!(classify_status(401), Some(LnbitsError::Unauthorized));
    assert_eq!(classify_status(200), None);
    assert_eq!(classify_status(500), None);
}

#[test]
fn new_normalizes_the_base_url() {
    let c = LNbitsRustClient::new("w", "HTTPS://LNBITS.EXAMPLE", "r", "a", None).unwrap();
    assert_eq!(c.lnbits_url, "https://lnbits.example/");
    assert_eq!(c.wallet_id, "w");
}

#[test]
fn invoice_paid_reads_the_paid_flag_with_unpaid_default() {
    assert!(invoice_paid("{\"paid\":true,\"preimage\":\"00\"}"));
    assert!(!invoice_paid("{\"paid\":false}"));
    assert!(!invoice_paid("{}"));
    assert!(!invoice_paid("{\"paid\":\"yes\"}"));
    assert!(!invoice_paid("not json"));
}
