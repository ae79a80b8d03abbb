use std::collections::HashMap;

use lnbot::{
    BackupPasskeyCompleteRequest, Body, CreateAddressRequest, CreateInvoiceForAddressRequest,
    CreateInvoiceForWalletRequest, CreateInvoiceRequest, CreateL402ChallengeRequest,
    CreatePaymentRequest, CreateWalletRequest, CreateWebhookRequest, ListParams, LnBot, Method,
    PayL402Request, RecoveryRestoreRequest, Request, RestorePasskeyCompleteRequest,
    TransferAddressRequest, UpdateWalletRequest, VerifyL402Request,
};

const BASE: &str = "http://127.0.0.1:9";

fn client() -> LnBot {
    LnBot::new("key_test").with_base_url(BASE)
}

fn pair(name: &str, value: &str) -> (String, String) {
    (name.to_string(), value.to_string())
}

/// Checks everything of a JSON request but its body.
fn assert_json(request: &Request<'_>, method: Method, path: &str) {
    assert_eq!(request.method, method);
    assert_eq!(request.url, format!("{}{}", BASE, path));
    assert_eq!(
        request.headers,
        vec![pair("Accept", "application/json"), pair("Authorization", "Bearer key_test")]
    );
}

/// Checks everything of a request that opens an event stream.
fn assert_stream(request: &Request<'_>, path: &str) {
    assert_eq!(request.method, Method::Get);
    assert_eq!(request.url, format!("{}{}", BASE, path));
    assert_eq!(
        request.headers,
        vec![pair("Accept", "text/event-stream"), pair("Authorization", "Bearer key_test")]
    );
    assert!(request.query.is_empty());
    assert!(matches!(request.body, Body::Empty));
}

// ---------------------------------------------------------------------------
// Wallets
// ---------------------------------------------------------------------------

#[test]
fn wallets_create() {
    let client = LnBot::unauthenticated().with_base_url(BASE);
    let body = CreateWalletRequest { name: Some("Bot".into()) };
    let request = client.wallets().create(&body);
    assert_eq!(request.method, Method::Post);
    assert_eq!(request.url, format!("{}/v1/wallets", BASE));
    assert_eq!(request.headers, vec![pair("Accept", "application/json")]);
    assert!(request.query.is_empty());
    assert!(matches!(request.body, Body::CreateWallet(w) if w.name.as_deref() == Some("Bot")));
}

#[test]
fn wallets_current() {
    let client = client();
    let request = client.wallets().current();
    assert_json(&request, Method::Get, "/v1/wallets/current");
    assert!(request.query.is_empty());
    assert!(matches!(request.body, Body::Empty));
}

#[test]
fn wallets_update() {
    let client = client();
    let body = UpdateWalletRequest::new("Renamed");
    let request = client.wallets().update(&body);
    assert_json(&request, Method::Patch, "/v1/wallets/current");
    assert!(matches!(request.body, Body::UpdateWallet(w) if w.name == "Renamed"));
}

// ---------------------------------------------------------------------------
// Keys
// ---------------------------------------------------------------------------

#[test]
fn keys_list() {
    let client = client();
    let request = client.keys().list();
    assert_json(&request, Method::Get, "/v1/keys");
    assert!(matches!(request.body, Body::Empty));
}

#[test]
fn keys_rotate() {
    let client = client();
    let request = client.keys().rotate(1);
    assert_json(&request, Method::Post, "/v1/keys/1/rotate");
    assert!(matches!(request.body, Body::Empty));
    assert_eq!(client.keys().rotate(-12).url, format!("{}/v1/keys/-12/rotate", BASE));
}

// ---------------------------------------------------------------------------
// Invoices
// ---------------------------------------------------------------------------

#[test]
fn invoices_create() {
    let client = client();
    let body = CreateInvoiceRequest::new(100).memo("test");
    let request = client.invoices().create(&body);
    assert_json(&request, Method::Post, "/v1/invoices");
    assert!(matches!(
        request.body,
        Body::CreateInvoice(i) if i.amount == 100 && i.memo.as_deref() == Some("test")
    ));
}

#[test]
fn invoices_list() {
    let client = client();
    let request = client.invoices().list(&ListParams::default().limit(5));
    assert_json(&request, Method::Get, "/v1/invoices");
    assert_eq!(request.query, vec![pair("limit", "5")]);
}

#[test]
fn invoices_list_with_pagination() {
    let client = client();
    let request = client.invoices().list(&ListParams::default().limit(10).after(5));
    assert_json(&request, Method::Get, "/v1/invoices");
    assert_eq!(request.query, vec![pair("limit", "10"), pair("after", "5")]);
}

#[test]
fn invoices_get() {
    let client = client();
    let request = client.invoices().get(42);
    assert_json(&request, Method::Get, "/v1/invoices/42");
    assert!(request.query.is_empty());
}

#[test]
fn invoices_get_by_hash() {
    let client = client();
    let request = client.invoices().get_by_hash("abc123");
    assert_json(&request, Method::Get, "/v1/invoices/abc123");
}

#[test]
fn invoices_create_for_wallet() {
    let client = LnBot::unauthenticated().with_base_url(BASE);
    let body = CreateInvoiceForWalletRequest::new("wid", 200);
    let request = client.invoices().create_for_wallet(&body);
    assert_eq!(request.method, Method::Post);
    assert_eq!(request.url, format!("{}/v1/invoices/for-wallet", BASE));
    assert!(matches!(
        request.body,
        Body::CreateInvoiceForWallet(i) if i.wallet_id == "wid" && i.amount == 200
    ));
}

#[test]
fn invoices_create_for_address() {
    let client = LnBot::unauthenticated().with_base_url(BASE);
    let body = CreateInvoiceForAddressRequest::new("user@ln.bot", 300);
    let request = client.invoices().create_for_address(&body);
    assert_eq!(request.method, Method::Post);
    assert_eq!(request.url, format!("{}/v1/invoices/for-address", BASE));
    assert!(matches!(
        request.body,
        Body::CreateInvoiceForAddress(i) if i.address == "user@ln.bot" && i.amount == 300
    ));
}

#[test]
fn invoice_watch_with_timeout() {
    let client = client();
    let sub = client.invoices().watch(42, Some(120));
    assert_stream(&sub.request, "/v1/invoices/42/events?timeout=120");
}

#[test]
fn invoice_watch_sends_sse_accept_header() {
    let client = client();
    let sub = client.invoices().watch(1, None);
    assert_stream(&sub.request, "/v1/invoices/1/events");
}

#[test]
fn invoice_watch_sends_authorization() {
    let client = client();
    let sub = client.invoices().watch(1, None);
    assert!(sub.request.headers.contains(&pair("Authorization", "Bearer key_test")));
    let open = LnBot::unauthenticated().with_base_url(BASE);
    let sub = open.invoices().watch(1, None);
    assert_eq!(sub.request.headers, vec![pair("Accept", "text/event-stream")]);
}

#[test]
fn invoice_watch_by_hash() {
    let client = client();
    let sub = client.invoices().watch_by_hash("abc123", None);
    assert_stream(&sub.request, "/v1/invoices/abc123/events");
    let sub = client.invoices().watch_by_hash("abc123", Some(-1));
    assert_stream(&sub.request, "/v1/invoices/abc123/events?timeout=-1");
}

// ---------------------------------------------------------------------------
// Payments
// ---------------------------------------------------------------------------

#[test]
fn payments_create() {
    let client = client();
    let body = CreatePaymentRequest::new("user@ln.bot").amount(50);
    let request = client.payments().create(&body);
    assert_json(&request, Method::Post, "/v1/payments");
    assert!(matches!(
        request.body,
        Body::CreatePayment(p) if p.target == "user@ln.bot" && p.amount == Some(50)
    ));
}

#[test]
fn payments_list() {
    let client = client();
    let request = client.payments().list(&ListParams::default());
    assert_json(&request, Method::Get, "/v1/payments");
    assert!(request.query.is_empty());
}

#[test]
fn payments_get() {
    let client = client();
    let request = client.payments().get(7);
    assert_json(&request, Method::Get, "/v1/payments/7");
}

#[test]
fn payments_get_by_hash() {
    let client = client();
    let request = client.payments().get_by_hash("hash123");
    assert_json(&request, Method::Get, "/v1/payments/hash123");
}

#[test]
fn payment_watch_with_timeout() {
    let client = client();
    let sub = client.payments().watch(7, Some(60));
    assert_stream(&sub.request, "/v1/payments/7/events?timeout=60");
}

#[test]
fn payment_watch_by_hash() {
    let client = client();
    let sub = client.payments().watch_by_hash("hash123", None);
    assert_stream(&sub.request, "/v1/payments/hash123/events");
}

// ---------------------------------------------------------------------------
// Addresses
// ---------------------------------------------------------------------------

#[test]
fn addresses_create() {
    let client = client();
    let body = CreateAddressRequest { address: Some("bot@ln.bot".into()) };
    let request = client.addresses().create(&body);
    assert_json(&request, Method::Post, "/v1/addresses");
    assert!(matches!(
        request.body,
        Body::CreateAddress(a) if a.address.as_deref() == Some("bot@ln.bot")
    ));
}

#[test]
fn addresses_list() {
    let client = client();
    let request = client.addresses().list();
    assert_json(&request, Method::Get, "/v1/addresses");
}

#[test]
fn addresses_delete_url_encodes() {
    let client = client();
    let request = client.addresses().delete("user@ln.bot");
    assert_json(&request, Method::Delete, "/v1/addresses/user%40ln.bot");
    assert!(matches!(request.body, Body::Empty));
}

#[test]
fn addresses_transfer() {
    let client = client();
    let body = TransferAddressRequest::new("key_other");
    let request = client.addresses().transfer("user@ln.bot", &body);
    assert_json(&request, Method::Post, "/v1/addresses/user%40ln.bot/transfer");
    assert!(matches!(
        request.body,
        Body::TransferAddress(t) if t.target_wallet_key == "key_other"
    ));
}

#[test]
fn path_segments_are_percent_encoded() {
    let client = client();
    let request = client.addresses().delete("a b/c?d%\u{e9}~-._Z09");
    assert_json(&request, Method::Delete, "/v1/addresses/a%20b%2Fc%3Fd%25%C3%A9~-._Z09");
    let request = client.webhooks().delete("");
    assert_json(&request, Method::Delete, "/v1/webhooks/");
    let request = client.webhooks().delete("\u{1F47E}\n");
    assert_json(&request, Method::Delete, "/v1/webhooks/%F0%9F%91%BE%0A");
}

// ---------------------------------------------------------------------------
// Transactions
// ---------------------------------------------------------------------------

#[test]
fn transactions_list() {
    let client = client();
    let request = client.transactions().list(&ListParams::default());
    assert_json(&request, Method::Get, "/v1/transactions");
    assert!(request.query.is_empty());
    let request = client.transactions().list(&ListParams::default().after(3));
    assert_eq!(request.query, vec![pair("after", "3")]);
}

// ---------------------------------------------------------------------------
// Webhooks
// ---------------------------------------------------------------------------

#[test]
fn webhooks_create() {
    let client = client();
    let body = CreateWebhookRequest::new("https://example.com/hook");
    let request = client.webhooks().create(&body);
    assert_json(&request, Method::Post, "/v1/webhooks");
    assert!(matches!(
        request.body,
        Body::CreateWebhook(w) if w.url == "https://example.com/hook"
    ));
}

#[test]
fn webhooks_list() {
    let client = client();
    let request = client.webhooks().list();
    assert_json(&request, Method::Get, "/v1/webhooks");
}

#[test]
fn webhooks_delete() {
    let client = client();
    let request = client.webhooks().delete("wh-123");
    assert_json(&request, Method::Delete, "/v1/webhooks/wh-123");
}

// ---------------------------------------------------------------------------
// Backup
// ---------------------------------------------------------------------------

#[test]
fn backup_recovery() {
    let client = client();
    let request = client.backup().recovery();
    assert_json(&request, Method::Post, "/v1/backup/recovery");
    assert!(matches!(request.body, Body::Empty));
}

#[test]
fn backup_passkey_begin() {
    let client = client();
    let request = client.backup().passkey_begin();
    assert_json(&request, Method::Post, "/v1/backup/passkey/begin");
    assert!(matches!(request.body, Body::Empty));
}

#[test]
fn backup_passkey_complete() {
    let client = client();
    let body = BackupPasskeyCompleteRequest {
        session_id: "sess1".into(),
        attestation: HashMap::new(),
    };
    let request = client.backup().passkey_complete(&body);
    assert_json(&request, Method::Post, "/v1/backup/passkey/complete");
    assert!(matches!(
        request.body,
        Body::BackupPasskeyComplete(b) if b.session_id == "sess1" && b.attestation.is_empty()
    ));
}

// ---------------------------------------------------------------------------
// Restore
// ---------------------------------------------------------------------------

#[test]
fn restore_recovery() {
    let client = client();
    let body = RecoveryRestoreRequest::new("word1 word2 word3");
    let request = client.restore().recovery(&body);
    assert_json(&request, Method::Post, "/v1/restore/recovery");
    assert!(matches!(
        request.body,
        Body::RecoveryRestore(r) if r.passphrase == "word1 word2 word3"
    ));
}

#[test]
fn restore_passkey_begin() {
    let client = client();
    let request = client.restore().passkey_begin();
    assert_json(&request, Method::Post, "/v1/restore/passkey/begin");
    assert!(matches!(request.body, Body::Empty));
}

#[test]
fn restore_passkey_complete() {
    let client = client();
    let body = RestorePasskeyCompleteRequest {
        session_id: "sess2".into(),
        assertion: HashMap::new(),
    };
    let request = client.restore().passkey_complete(&body);
    assert_json(&request, Method::Post, "/v1/restore/passkey/complete");
    assert!(matches!(
        request.body,
        Body::RestorePasskeyComplete(r) if r.session_id == "sess2"
    ));
}

// ---------------------------------------------------------------------------
// L402
// ---------------------------------------------------------------------------

#[test]
fn l402_create_challenge() {
    let client = client();
    let body = CreateL402ChallengeRequest {
        amount: 100,
        description: None,
        expiry_seconds: None,
        caveats: None,
    };
    let request = client.l402().create_challenge(&body);
    assert_json(&request, Method::Post, "/v1/l402/challenges");
    assert!(matches!(request.body, Body::CreateL402Challenge(c) if c.amount == 100));
}

#[test]
fn l402_verify() {
    let client = client();
    let body = VerifyL402Request { authorization: "L402 token".into() };
    let request = client.l402().verify(&body);
    assert_json(&request, Method::Post, "/v1/l402/verify");
    assert!(matches!(request.body, Body::VerifyL402(v) if v.authorization == "L402 token"));
}

#[test]
fn l402_pay() {
    let client = client();
    let body = PayL402Request {
        www_authenticate: "L402 mac:inv".into(),
        max_fee: None,
        reference: None,
        wait: Some(true),
        timeout: None,
    };
    let request = client.l402().pay(&body);
    assert_json(&request, Method::Post, "/v1/l402/pay");
    assert!(matches!(
        request.body,
        Body::PayL402(p) if p.www_authenticate == "L402 mac:inv" && p.wait == Some(true)
    ));
}

// ---------------------------------------------------------------------------
// Events
// ---------------------------------------------------------------------------

#[test]
fn events_stream_sends_sse_headers() {
    let client = client();
    let sub = client.events().stream();
    assert_stream(&sub.request, "/v1/events");
}
