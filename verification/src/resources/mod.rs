//! One module per kind of resource. Each method builds the request for one
//! endpoint of the API.

pub mod addresses;
pub mod backup;
pub mod events;
pub mod invoices;
pub mod keys;
pub mod l402;
pub mod payments;
pub mod restore;
pub mod transactions;
pub mod wallets;
pub mod webhooks;

pub use addresses::AddressesResource;
pub use backup::BackupResource;
pub use events::EventsResource;
pub use invoices::InvoicesResource;
pub use keys::KeysResource;
pub use l402::L402Resource;
pub use payments::PaymentsResource;
pub use restore::RestoreResource;
pub use transactions::TransactionsResource;
pub use wallets::WalletsResource;
pub use webhooks::WebhooksResource;
