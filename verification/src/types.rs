//! Request and response types for the LnBot API.
//!
//! These are plain records. Turning them into JSON and back is the driver's
//! business; the builders here only fill in fields.

use std::collections::HashMap;
use vstd::prelude::*;
use crate::text::same_text;

verus! {

/// `serde_json::Value`, carried through untouched: nothing is known of its contents.
#[verifier::external_type_specification]
#[verifier::external_body]
pub struct ExJsonValue(serde_json::Value);

// ---------------------------------------------------------------------------
// Wallet
// ---------------------------------------------------------------------------
/// A wallet's current state.
#[derive(Debug, Clone, PartialEq, Eq)]
pub struct WalletResponse {
    pub wallet_id: String,
    pub name: String,
    pub balance: i64,
    pub on_hold: i64,
    pub available: i64,
}

/// Parameters for creating a new wallet.
#[derive(Debug, Clone)]
pub struct CreateWalletRequest {
    pub name: Option<String>,
}

impl Default for CreateWalletRequest {
    fn default() -> (req: CreateWalletRequest)
        ensures
            req.name is None,
    {
        CreateWalletRequest { name: None }
    }
}

/// Parameters for updating a wallet.
#[derive(Debug, Clone)]
pub struct UpdateWalletRequest {
    pub name: String,
}

impl UpdateWalletRequest {
    pub fn new(name: &str) -> (req: UpdateWalletRequest)
        ensures
            req.name@ == name@,
    {
        UpdateWalletRequest { name: name.to_owned() }
    }
}

/// Response from creating a new wallet, including credentials.
#[derive(Debug, Clone, PartialEq, Eq)]
pub struct CreateWalletResponse {
    pub wallet_id: String,
    pub primary_key: String,
    pub secondary_key: String,
    pub name: String,
    pub address: String,
    pub recovery_passphrase: String,
}

// ---------------------------------------------------------------------------
// API Keys
// ---------------------------------------------------------------------------
/// An API key's metadata (the actual key value is never returned after creation).
#[derive(Debug, Clone, PartialEq, Eq)]
pub struct ApiKeyResponse {
    pub id: String,
    pub name: String,
    pub hint: String,
    pub created_at: Option<String>,
    pub last_used_at: Option<String>,
}

/// Response from rotating an API key.
#[derive(Debug, Clone, PartialEq, Eq)]
pub struct RotateApiKeyResponse {
    pub key: String,
    pub name: String,
}

// ---------------------------------------------------------------------------
// Invoices
// ---------------------------------------------------------------------------
/// Status of an invoice.
#[derive(Debug, Clone, PartialEq, Eq)]
#[non_exhaustive]
pub enum InvoiceStatus {
    Pending,
    Settled,
    Expired,
    /// A status that this version does not know.
    Unknown,
}

/// Parameters for creating a new invoice.
#[derive(Debug, Clone)]
pub struct CreateInvoiceRequest {
    pub amount: i64,
    pub reference: Option<String>,
    pub memo: Option<String>,
}

impl CreateInvoiceRequest {
    /// Creates a new invoice request for the given amount in sats.
    pub fn new(amount: i64) -> (req: CreateInvoiceRequest)
        ensures
            req.amount == amount,
            req.reference is None,
            req.memo is None,
    {
        CreateInvoiceRequest { amount, reference: None, memo: None }
    }

    /// Sets the memo (description) for the invoice.
    #[must_use]
    pub fn memo(self, memo: &str) -> (req: CreateInvoiceRequest)
        ensures
            req.memo matches Some(m) && m@ == memo@,
            req.amount == self.amount,
            req.reference == self.reference,
    {
        let mut req = self;
        req.memo = Some(memo.to_owned());
        req
    }

    /// Sets an external reference for the invoice.
    #[must_use]
    pub fn reference(self, reference: &str) -> (req: CreateInvoiceRequest)
        ensures
            req.reference matches Some(r) && r@ == reference@,
            req.amount == self.amount,
            req.memo == self.memo,
    {
        let mut req = self;
        req.reference = Some(reference.to_owned());
        req
    }
}

/// An invoice returned by the API.
#[derive(Debug, Clone, PartialEq, Eq)]
pub struct InvoiceResponse {
    pub number: i32,
    pub status: InvoiceStatus,
    pub amount: i64,
    pub bolt11: String,
    pub reference: Option<String>,
    pub memo: Option<String>,
    pub preimage: Option<String>,
    pub tx_number: Option<i32>,
    pub created_at: Option<String>,
    pub settled_at: Option<String>,
    pub expires_at: Option<String>,
}

/// Parameters for creating an invoice for a wallet named by its ID.
#[derive(Debug, Clone)]
pub struct CreateInvoiceForWalletRequest {
    pub wallet_id: String,
    pub amount: i64,
    pub reference: Option<String>,
    pub comment: Option<String>,
}

impl CreateInvoiceForWalletRequest {
    /// Creates a request for the given wallet and amount in sats.
    pub fn new(wallet_id: &str, amount: i64) -> (req: CreateInvoiceForWalletRequest)
        ensures
            req.wallet_id@ == wallet_id@,
            req.amount == amount,
            req.reference is None,
            req.comment is None,
    {
        CreateInvoiceForWalletRequest {
            wallet_id: wallet_id.to_owned(),
            amount,
            reference: None,
            comment: None,
        }
    }

    /// Sets an external reference for the invoice.
    #[must_use]
    pub fn reference(self, reference: &str) -> (req: CreateInvoiceForWalletRequest)
        ensures
            req.reference matches Some(r) && r@ == reference@,
            req.wallet_id == self.wallet_id,
            req.amount == self.amount,
            req.comment == self.comment,
    {
        let mut req = self;
        req.reference = Some(reference.to_owned());
        req
    }

    /// Sets a comment for the payer to see.
    #[must_use]
    pub fn comment(self, comment: &str) -> (req: CreateInvoiceForWalletRequest)
        ensures
            req.comment matches Some(c) && c@ == comment@,
            req.wallet_id == self.wallet_id,
            req.amount == self.amount,
            req.reference == self.reference,
    {
        let mut req = self;
        req.comment = Some(comment.to_owned());
        req
    }
}

/// Parameters for creating an invoice for the owner of a Lightning address.
#[derive(Debug, Clone)]
pub struct CreateInvoiceForAddressRequest {
    pub address: String,
    pub amount: i64,
    pub tag: Option<String>,
    pub comment: Option<String>,
}

impl CreateInvoiceForAddressRequest {
    /// Creates a request for the given address and amount in sats.
    pub fn new(address: &str, amount: i64) -> (req: CreateInvoiceForAddressRequest)
        ensures
            req.address@ == address@,
            req.amount == amount,
            req.tag is None,
            req.comment is None,
    {
        CreateInvoiceForAddressRequest {
            address: address.to_owned(),
            amount,
            tag: None,
            comment: None,
        }
    }

    /// Sets the tag of the request.
    #[must_use]
    pub fn tag(self, tag: &str) -> (req: CreateInvoiceForAddressRequest)
        ensures
            req.tag matches Some(t) && t@ == tag@,
            req.address == self.address,
            req.amount == self.amount,
            req.comment == self.comment,
    {
        let mut req = self;
        req.tag = Some(tag.to_owned());
        req
    }

    /// Sets a comment for the payer to see.
    #[must_use]
    pub fn comment(self, comment: &str) -> (req: CreateInvoiceForAddressRequest)
        ensures
            req.comment matches Some(c) && c@ == comment@,
            req.address == self.address,
            req.amount == self.amount,
            req.tag == self.tag,
    {
        let mut req = self;
        req.comment = Some(comment.to_owned());
        req
    }
}

/// An invoice created for somebody else's wallet or address.
#[derive(Debug, Clone, PartialEq, Eq)]
pub struct AddressInvoiceResponse {
    pub bolt11: String,
    pub amount: i64,
    pub expires_at: Option<String>,
}

/// Pagination parameters for list endpoints.
#[derive(Debug, Clone)]
pub struct ListParams {
    pub limit: Option<i32>,
    pub after: Option<i32>,
}

impl Default for ListParams {
    fn default() -> (params: ListParams)
        ensures
            params.limit is None,
            params.after is None,
    {
        ListParams { limit: None, after: None }
    }
}

impl ListParams {
    /// Sets the maximum number of results to return.
    #[must_use]
    pub fn limit(self, limit: i32) -> (params: ListParams)
        ensures
            params.limit == Some(limit),
            params.after == self.after,
    {
        let mut params = self;
        params.limit = Some(limit);
        params
    }

    /// Sets the cursor for pagination (return results after this number).
    #[must_use]
    pub fn after(self, after: i32) -> (params: ListParams)
        ensures
            params.after == Some(after),
            params.limit == self.limit,
    {
        let mut params = self;
        params.after = Some(after);
        params
    }
}

/// The label that announces a settled invoice or payment.
pub open spec fn settled_label() -> Seq<char> {
    "settled"@
}

/// The label that announces an expired invoice.
pub open spec fn expired_label() -> Seq<char> {
    "expired"@
}

/// The label that announces a failed payment.
pub open spec fn failed_label() -> Seq<char> {
    "failed"@
}

/// Type of an invoice SSE event.
#[derive(Debug, Clone, PartialEq, Eq)]
#[non_exhaustive]
pub enum InvoiceEventType {
    Settled,
    Expired,
    /// A label that this version does not know, kept as received.
    Unknown(String),
}

impl InvoiceEventType {
    /// The label that this event type stands for.
    pub open spec fn label(self) -> Seq<char> {
        match self {
            InvoiceEventType::Settled => settled_label(),
            InvoiceEventType::Expired => expired_label(),
            InvoiceEventType::Unknown(other) => other@,
        }
    }
}

/// The conversion keeps an unknown label in a string of its own, so what it
/// returns is stated by the `ensures` of `from`, over the text of the
/// label, and not as a spec function.
impl vstd::std_specs::convert::FromSpecImpl<&str> for InvoiceEventType {
    open spec fn obeys_from_spec() -> bool {
        false
    }

    open spec fn from_spec(s: &str) -> InvoiceEventType {
        InvoiceEventType::Settled
    }
}

impl From<&str> for InvoiceEventType {
    /// Maps a label to its event type. Every label has one: a label that is
    /// neither `settled` nor `expired` is kept in `Unknown`.
    fn from(s: &str) -> (event: InvoiceEventType)
        ensures
            event.label() == s@,
            event is Settled <==> s@ == settled_label(),
            event is Expired <==> s@ == expired_label(),
    {
        proof {
            reveal_strlit("settled");
            reveal_strlit("expired");
            assert("settled"@.len() != "expired"@.len() || "settled"@[0] != "expired"@[0]);
        }
        if same_text(s, "settled") {
            InvoiceEventType::Settled
        } else if same_text(s, "expired") {
            InvoiceEventType::Expired
        } else {
            InvoiceEventType::Unknown(s.to_owned())
        }
    }
}

/// A real-time invoice event from the SSE stream.
#[derive(Debug, Clone)]
pub struct InvoiceEvent {
    pub event: InvoiceEventType,
    pub data: InvoiceResponse,
}

impl InvoiceEvent {
    /// Pairs a decoded invoice with the event type that its frame's label
    /// names. No label is refused.
    pub fn new(label: &str, data: InvoiceResponse) -> (event: InvoiceEvent)
        ensures
            event.data == data,
            event.event.label() == label@,
            event.event is Settled <==> label@ == settled_label(),
            event.event is Expired <==> label@ == expired_label(),
    {
        InvoiceEvent { event: InvoiceEventType::from(label), data }
    }
}

// ---------------------------------------------------------------------------
// Payments
// ---------------------------------------------------------------------------
/// Status of a payment.
#[derive(Debug, Clone, PartialEq, Eq)]
#[non_exhaustive]
pub enum PaymentStatus {
    Pending,
    Processing,
    Settled,
    Failed,
    /// A status that this version does not know.
    Unknown,
}

/// Parameters for creating a new payment.
#[derive(Debug, Clone)]
pub struct CreatePaymentRequest {
    pub target: String,
    pub amount: Option<i64>,
    pub idempotency_key: Option<String>,
    pub max_fee: Option<i64>,
    pub reference: Option<String>,
}

impl CreatePaymentRequest {
    /// Creates a new payment request to the given target
    /// (bolt11 invoice, Lightning address, or LN URL).
    pub fn new(target: &str) -> (req: CreatePaymentRequest)
        ensures
            req.target@ == target@,
            req.amount is None,
            req.idempotency_key is None,
            req.max_fee is None,
            req.reference is None,
    {
        CreatePaymentRequest {
            target: target.to_owned(),
            amount: None,
            idempotency_key: None,
            max_fee: None,
            reference: None,
        }
    }

    /// Sets the amount in sats (required for Lightning address / LN URL payments).
    #[must_use]
    pub fn amount(self, amount: i64) -> (req: CreatePaymentRequest)
        ensures
            req.amount == Some(amount),
            req.target == self.target,
            req.idempotency_key == self.idempotency_key,
            req.max_fee == self.max_fee,
            req.reference == self.reference,
    {
        let mut req = self;
        req.amount = Some(amount);
        req
    }

    /// Sets an idempotency key to prevent duplicate payments.
    #[must_use]
    pub fn idempotency_key(self, key: &str) -> (req: CreatePaymentRequest)
        ensures
            req.idempotency_key matches Some(k) && k@ == key@,
            req.target == self.target,
            req.amount == self.amount,
            req.max_fee == self.max_fee,
            req.reference == self.reference,
    {
        let mut req = self;
        req.idempotency_key = Some(key.to_owned());
        req
    }

    /// Sets the maximum routing fee in sats.
    #[must_use]
    pub fn max_fee(self, fee: i64) -> (req: CreatePaymentRequest)
        ensures
            req.max_fee == Some(fee),
            req.target == self.target,
            req.amount == self.amount,
            req.idempotency_key == self.idempotency_key,
            req.reference == self.reference,
    {
        let mut req = self;
        req.max_fee = Some(fee);
        req
    }

    /// Sets an external reference for the payment.
    #[must_use]
    pub fn reference(self, reference: &str) -> (req: CreatePaymentRequest)
        ensures
            req.reference matches Some(r) && r@ == reference@,
            req.target == self.target,
            req.amount == self.amount,
            req.idempotency_key == self.idempotency_key,
            req.max_fee == self.max_fee,
    {
        let mut req = self;
        req.reference = Some(reference.to_owned());
        req
    }
}

/// A payment returned by the API.
#[derive(Debug, Clone, PartialEq, Eq)]
pub struct PaymentResponse {
    pub number: i32,
    pub status: PaymentStatus,
    pub amount: i64,
    pub max_fee: i64,
    pub actual_fee: Option<i64>,
    pub address: String,
    pub reference: Option<String>,
    pub preimage: Option<String>,
    pub tx_number: Option<i32>,
    pub failure_reason: Option<String>,
    pub created_at: Option<String>,
    pub settled_at: Option<String>,
}

/// Type of a payment SSE event.
#[derive(Debug, Clone, PartialEq, Eq)]
#[non_exhaustive]
pub enum PaymentEventType {
    Settled,
    Failed,
    /// A label that this version does not know, kept as received.
    Unknown(String),
}

impl PaymentEventType {
    /// The label that this event type stands for.
    pub open spec fn label(self) -> Seq<char> {
        match self {
            PaymentEventType::Settled => settled_label(),
            PaymentEventType::Failed => failed_label(),
            PaymentEventType::Unknown(other) => other@,
        }
    }
}

/// As for invoices, what the conversion returns is stated by the `ensures`
/// of `from`.
impl vstd::std_specs::convert::FromSpecImpl<&str> for PaymentEventType {
    open spec fn obeys_from_spec() -> bool {
        false
    }

    open spec fn from_spec(s: &str) -> PaymentEventType {
        PaymentEventType::Settled
    }
}

impl From<&str> for PaymentEventType {
    /// Maps a label to its event type. Every label has one: a label that is
    /// neither `settled` nor `failed` is kept in `Unknown`.
    fn from(s: &str) -> (event: PaymentEventType)
        ensures
            event.label() == s@,
            event is Settled <==> s@ == settled_label(),
            event is Failed <==> s@ == failed_label(),
    {
        proof {
            reveal_strlit("settled");
            reveal_strlit("failed");
            assert("settled"@.len() != "failed"@.len());
        }
        if same_text(s, "settled") {
            PaymentEventType::Settled
        } else if same_text(s, "failed") {
            PaymentEventType::Failed
        } else {
            PaymentEventType::Unknown(s.to_owned())
        }
    }
}

/// A real-time payment event from the SSE stream.
#[derive(Debug, Clone)]
pub struct PaymentEvent {
    pub event: PaymentEventType,
    pub data: PaymentResponse,
}

impl PaymentEvent {
    /// Pairs a decoded payment with the event type that its frame's label
    /// names. No label is refused.
    pub fn new(label: &str, data: PaymentResponse) -> (event: PaymentEvent)
        ensures
            event.data == data,
            event.event.label() == label@,
            event.event is Settled <==> label@ == settled_label(),
            event.event is Failed <==> label@ == failed_label(),
    {
        PaymentEvent { event: PaymentEventType::from(label), data }
    }
}

/// An event of the wallet-wide stream, as decoded from one `data:` line.
#[derive(Debug)]
pub struct WalletEvent {
    pub event: String,
    pub created_at: String,
    pub data: serde_json::Value,
}

// ---------------------------------------------------------------------------
// Addresses
// ---------------------------------------------------------------------------
/// Parameters for creating a new Lightning address.
#[derive(Debug, Clone)]
pub struct CreateAddressRequest {
    pub address: Option<String>,
}

impl Default for CreateAddressRequest {
    fn default() -> (req: CreateAddressRequest)
        ensures
            req.address is None,
    {
        CreateAddressRequest { address: None }
    }
}

/// A Lightning address returned by the API.
#[derive(Debug, Clone, PartialEq, Eq)]
pub struct AddressResponse {
    pub address: String,
    pub generated: bool,
    pub cost: i64,
    pub created_at: Option<String>,
}

/// Parameters for transferring a Lightning address to another wallet.
#[derive(Debug, Clone)]
pub struct TransferAddressRequest {
    pub target_wallet_key: String,
}

impl TransferAddressRequest {
    pub fn new(target_wallet_key: &str) -> (req: TransferAddressRequest)
        ensures
            req.target_wallet_key@ == target_wallet_key@,
    {
        TransferAddressRequest { target_wallet_key: target_wallet_key.to_owned() }
    }
}

/// Response from transferring a Lightning address.
#[derive(Debug, Clone, PartialEq, Eq)]
pub struct TransferAddressResponse {
    pub address: String,
    pub transferred_to: String,
}

// ---------------------------------------------------------------------------
// Transactions
// ---------------------------------------------------------------------------
/// Type of a transaction.
#[derive(Debug, Clone, PartialEq, Eq)]
#[non_exhaustive]
pub enum TransactionType {
    Credit,
    Debit,
    /// A type that this version does not know.
    Unknown,
}

/// A transaction returned by the API.
#[derive(Debug, Clone, PartialEq, Eq)]
pub struct TransactionResponse {
    pub number: i32,
    pub tx_type: TransactionType,
    pub amount: i64,
    pub balance_after: i64,
    pub network_fee: i64,
    pub service_fee: i64,
    pub payment_hash: Option<String>,
    pub preimage: Option<String>,
    pub reference: Option<String>,
    pub note: Option<String>,
    pub created_at: Option<String>,
}

// ---------------------------------------------------------------------------
// Webhooks
// ---------------------------------------------------------------------------
/// Parameters for creating a new webhook.
#[derive(Debug, Clone)]
pub struct CreateWebhookRequest {
    pub url: String,
}

impl CreateWebhookRequest {
    pub fn new(url: &str) -> (req: CreateWebhookRequest)
        ensures
            req.url@ == url@,
    {
        CreateWebhookRequest { url: url.to_owned() }
    }
}

/// Response from creating a new webhook, including the signing secret.
#[derive(Debug, Clone, PartialEq, Eq)]
pub struct CreateWebhookResponse {
    pub id: String,
    pub url: String,
    pub secret: String,
    pub created_at: Option<String>,
}

/// A webhook returned by the API.
#[derive(Debug, Clone, PartialEq, Eq)]
pub struct WebhookResponse {
    pub id: String,
    pub url: String,
    pub active: bool,
    pub created_at: Option<String>,
}

// ---------------------------------------------------------------------------
// Backup / Restore
// ---------------------------------------------------------------------------
/// Response containing the wallet's recovery passphrase.
#[derive(Debug, Clone, PartialEq, Eq)]
pub struct RecoveryBackupResponse {
    pub passphrase: String,
}

/// Parameters for restoring a wallet from a recovery passphrase.
#[derive(Debug, Clone)]
pub struct RecoveryRestoreRequest {
    pub passphrase: String,
}

impl RecoveryRestoreRequest {
    pub fn new(passphrase: &str) -> (req: RecoveryRestoreRequest)
        ensures
            req.passphrase@ == passphrase@,
    {
        RecoveryRestoreRequest { passphrase: passphrase.to_owned() }
    }
}

/// Response from a wallet recovery.
#[derive(Debug, Clone, PartialEq, Eq)]
pub struct RecoveryRestoreResponse {
    pub wallet_id: String,
    pub name: String,
    pub primary_key: String,
    pub secondary_key: String,
}

/// Response from beginning a passkey backup flow.
#[derive(Debug)]
pub struct BackupPasskeyBeginResponse {
    pub session_id: String,
    pub options: HashMap<String, serde_json::Value>,
}

/// Parameters for completing a passkey backup flow.
#[derive(Debug)]
pub struct BackupPasskeyCompleteRequest {
    pub session_id: String,
    pub attestation: HashMap<String, serde_json::Value>,
}

/// Response from beginning a passkey restore flow.
#[derive(Debug)]
pub struct RestorePasskeyBeginResponse {
    pub session_id: String,
    pub options: HashMap<String, serde_json::Value>,
}

/// Parameters for completing a passkey restore flow.
#[derive(Debug)]
pub struct RestorePasskeyCompleteRequest {
    pub session_id: String,
    pub assertion: HashMap<String, serde_json::Value>,
}

/// Response from completing a passkey restore flow.
#[derive(Debug, Clone, PartialEq, Eq)]
pub struct RestorePasskeyCompleteResponse {
    pub wallet_id: String,
    pub name: String,
    pub primary_key: String,
    pub secondary_key: String,
}

// ---------------------------------------------------------------------------
// L402
// ---------------------------------------------------------------------------
/// Parameters for creating an L402 challenge.
#[derive(Debug, Clone)]
pub struct CreateL402ChallengeRequest {
    pub amount: i64,
    pub description: Option<String>,
    pub expiry_seconds: Option<i32>,
    pub caveats: Option<Vec<String>>,
}

/// An L402 challenge: an invoice and the macaroon that paying it unlocks.
#[derive(Debug, Clone, PartialEq, Eq)]
pub struct L402ChallengeResponse {
    pub macaroon: String,
    pub invoice: String,
    pub payment_hash: String,
    pub expires_at: Option<String>,
    pub www_authenticate: String,
}

/// Parameters for verifying an L402 authorization token.
#[derive(Debug, Clone)]
pub struct VerifyL402Request {
    pub authorization: String,
}

/// The verdict on an L402 authorization token.
#[derive(Debug, Clone, PartialEq, Eq)]
pub struct VerifyL402Response {
    pub valid: bool,
    pub payment_hash: Option<String>,
    pub caveats: Option<Vec<String>>,
    pub error: Option<String>,
}

/// Parameters for paying an L402 challenge.
#[derive(Debug, Clone)]
pub struct PayL402Request {
    pub www_authenticate: String,
    pub max_fee: Option<i64>,
    pub reference: Option<String>,
    pub wait: Option<bool>,
    pub timeout: Option<i32>,
}

/// The outcome of paying an L402 challenge.
#[derive(Debug, Clone, PartialEq, Eq)]
pub struct L402PayResponse {
    pub authorization: Option<String>,
    pub payment_hash: String,
    pub preimage: Option<String>,
    pub amount: i64,
    pub fee: Option<i64>,
    pub payment_number: i32,
    pub status: String,
}

} // verus!
