//! I/O-free core of a client for the LnBot Lightning-wallet API.
//!
//! The crate builds requests, classifies response statuses and frames
//! Server-Sent-Event streams. It never touches the network: a driver sends
//! what a [`client::Request`] describes and hands back statuses and bytes.

pub mod client;
pub mod errors;
pub mod resources;
pub mod sse;
pub mod text;
pub mod types;

pub use client::{
    check_status, is_error_status, query_pairs, Body, LnBot, Method, Request, Subscription,
};
pub use errors::{from_status, LnBotError};
pub use resources::{
    AddressesResource, BackupResource, EventsResource, InvoicesResource, KeysResource,
    L402Resource, PaymentsResource, RestoreResource, TransactionsResource, WalletsResource,
    WebhooksResource,
};
pub use sse::{Frame, Framing, SseParser};
pub use types::{
    AddressInvoiceResponse, AddressResponse, ApiKeyResponse, BackupPasskeyBeginResponse,
    BackupPasskeyCompleteRequest, CreateAddressRequest, CreateInvoiceForAddressRequest,
    CreateInvoiceForWalletRequest, CreateInvoiceRequest, CreateL402ChallengeRequest,
    CreatePaymentRequest, CreateWalletRequest, CreateWalletResponse, CreateWebhookRequest,
    CreateWebhookResponse, InvoiceEvent, InvoiceEventType, InvoiceResponse, InvoiceStatus,
    L402ChallengeResponse, L402PayResponse, ListParams, PayL402Request, PaymentEvent,
    PaymentEventType, PaymentResponse, PaymentStatus, RecoveryBackupResponse,
    RecoveryRestoreRequest, RecoveryRestoreResponse, RestorePasskeyBeginResponse,
    RestorePasskeyCompleteRequest, RestorePasskeyCompleteResponse, RotateApiKeyResponse,
    TransactionResponse, TransactionType, TransferAddressRequest, TransferAddressResponse,
    UpdateWalletRequest, VerifyL402Request, VerifyL402Response, WalletEvent, WalletResponse,
    WebhookResponse,
};
