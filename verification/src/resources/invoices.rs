use vstd::prelude::*;
use vstd::string::StringExecFns;
use crate::client::{
    events_path, events_path_of, query_of, Body, LnBot, Method, Request, Subscription,
};
use crate::sse::Framing;
use crate::text::{decimal, decimal_string};
use crate::types::{
    CreateInvoiceForAddressRequest, CreateInvoiceForWalletRequest, CreateInvoiceRequest,
    ListParams,
};

verus! {

/// Operations on invoices.
pub struct InvoicesResource<'a> {
    pub(crate) client: &'a LnBot,
}

impl<'a> InvoicesResource<'a> {
    /// The client that the requests are built for.
    pub closed spec fn client(&self) -> LnBot {
        *self.client
    }

    /// The operations of this kind for a client.
    pub(crate) fn new(client: &'a LnBot) -> (resource: InvoicesResource<'a>)
        ensures
            resource.client() == *client,
    {
        InvoicesResource { client }
    }

    /// Creates a new invoice.
    pub fn create<'b>(&self, req: &'b CreateInvoiceRequest) -> (request: Request<'b>)
        ensures
            request@ == self.client().request(
                Method::Post,
                "/v1/invoices"@,
                Seq::empty(),
                Body::CreateInvoice(req),
            ),
    {
        self.client.post("/v1/invoices", Body::CreateInvoice(req))
    }

    /// Lists invoices with optional pagination.
    pub fn list(&self, params: &ListParams) -> (request: Request<'static>)
        ensures
            request@ == self.client().request(
                Method::Get,
                "/v1/invoices"@,
                query_of(*params),
                Body::Empty,
            ),
    {
        self.client.get_with_params("/v1/invoices", params)
    }

    /// Gets an invoice by its number.
    pub fn get(&self, number: i32) -> (request: Request<'static>)
        ensures
            request@ == self.client().request(
                Method::Get,
                "/v1/invoices/"@ + decimal(number as int),
                Seq::empty(),
                Body::Empty,
            ),
    {
        let mut path = "/v1/invoices/".to_owned();
        path.append(decimal_string(number as i64).as_str());
        self.client.get(path.as_str())
    }

    /// Returns a specific invoice by its payment hash. The hash goes into
    /// the path as it is.
    pub fn get_by_hash(&self, payment_hash: &str) -> (request: Request<'static>)
        ensures
            request@ == self.client().request(
                Method::Get,
                "/v1/invoices/"@ + payment_hash@,
                Seq::empty(),
                Body::Empty,
            ),
    {
        let mut path = "/v1/invoices/".to_owned();
        path.append(payment_hash);
        self.client.get(path.as_str())
    }

    /// Creates an invoice for a specific wallet by its ID.
    /// No authentication required. Rate limited by IP.
    pub fn create_for_wallet<'b>(&self, req: &'b CreateInvoiceForWalletRequest) -> (request:
        Request<'b>)
        ensures
            request@ == self.client().request(
                Method::Post,
                "/v1/invoices/for-wallet"@,
                Seq::empty(),
                Body::CreateInvoiceForWallet(req),
            ),
    {
        self.client.post("/v1/invoices/for-wallet", Body::CreateInvoiceForWallet(req))
    }

    /// Creates an invoice for the wallet owning the given Lightning address.
    /// No authentication required. Rate limited by IP.
    pub fn create_for_address<'b>(&self, req: &'b CreateInvoiceForAddressRequest) -> (request:
        Request<'b>)
        ensures
            request@ == self.client().request(
                Method::Post,
                "/v1/invoices/for-address"@,
                Seq::empty(),
                Body::CreateInvoiceForAddress(req),
            ),
    {
        self.client.post("/v1/invoices/for-address", Body::CreateInvoiceForAddress(req))
    }

    /// Opens a stream of real-time events for an invoice via Server-Sent
    /// Events. On this stream an `event:` line names each event and the
    /// `data:` line after it carries the invoice. The timeout, in seconds,
    /// is for the server to apply.
    pub fn watch(&self, number: i32, timeout: Option<i32>) -> (sub: Subscription)
        ensures
            sub.request@ == self.client().stream_request(
                events_path("/v1/invoices/"@, decimal(number as int), timeout),
            ),
            sub.parser.is_new(Framing::Labelled),
    {
        let id = decimal_string(number as i64);
        let path = events_path_of("/v1/invoices/", id.as_str(), timeout);
        self.client.subscribe(path.as_str(), Framing::Labelled)
    }

    /// Opens a stream of real-time events for an invoice identified by
    /// payment hash, as [`InvoicesResource::watch`] does for one identified
    /// by number. The hash goes into the path as it is.
    pub fn watch_by_hash(&self, payment_hash: &str, timeout: Option<i32>) -> (sub: Subscription)
        ensures
            sub.request@ == self.client().stream_request(
                events_path("/v1/invoices/"@, payment_hash@, timeout),
            ),
            sub.parser.is_new(Framing::Labelled),
    {
        let path = events_path_of("/v1/invoices/", payment_hash, timeout);
        self.client.subscribe(path.as_str(), Framing::Labelled)
    }
}

} // verus!
