use vstd::prelude::*;
use vstd::string::StringExecFns;
use crate::client::{
    events_path, events_path_of, query_of, Body, LnBot, Method, Request, Subscription,
};
use crate::sse::Framing;
use crate::text::{decimal, decimal_string};
use crate::types::{CreatePaymentRequest, ListParams};

verus! {

/// Operations on payments.
pub struct PaymentsResource<'a> {
    pub(crate) client: &'a LnBot,
}

impl<'a> PaymentsResource<'a> {
    /// The client that the requests are built for.
    pub closed spec fn client(&self) -> LnBot {
        *self.client
    }

    /// The operations of this kind for a client.
    pub(crate) fn new(client: &'a LnBot) -> (resource: PaymentsResource<'a>)
        ensures
            resource.client() == *client,
    {
        PaymentsResource { client }
    }

    /// Creates a new outgoing payment.
    pub fn create<'b>(&self, req: &'b CreatePaymentRequest) -> (request: Request<'b>)
        ensures
            request@ == self.client().request(
                Method::Post,
                "/v1/payments"@,
                Seq::empty(),
                Body::CreatePayment(req),
            ),
    {
        self.client.post("/v1/payments", Body::CreatePayment(req))
    }

    /// Lists payments with optional pagination.
    pub fn list(&self, params: &ListParams) -> (request: Request<'static>)
        ensures
            request@ == self.client().request(
                Method::Get,
                "/v1/payments"@,
                query_of(*params),
                Body::Empty,
            ),
    {
        self.client.get_with_params("/v1/payments", params)
    }

    /// Gets a payment by its number.
    pub fn get(&self, number: i32) -> (request: Request<'static>)
        ensures
            request@ == self.client().request(
                Method::Get,
                "/v1/payments/"@ + decimal(number as int),
                Seq::empty(),
                Body::Empty,
            ),
    {
        let mut path = "/v1/payments/".to_owned();
        path.append(decimal_string(number as i64).as_str());
        self.client.get(path.as_str())
    }

    /// Returns a specific payment by its payment hash. The hash goes into
    /// the path as it is.
    pub fn get_by_hash(&self, payment_hash: &str) -> (request: Request<'static>)
        ensures
            request@ == self.client().request(
                Method::Get,
                "/v1/payments/"@ + payment_hash@,
                Seq::empty(),
                Body::Empty,
            ),
    {
        let mut path = "/v1/payments/".to_owned();
        path.append(payment_hash);
        self.client.get(path.as_str())
    }

    /// Opens a stream of real-time events for a payment via Server-Sent
    /// Events. On this stream an `event:` line names each event and the
    /// `data:` line after it carries the payment. The timeout, in seconds,
    /// is for the server to apply.
    pub fn watch(&self, number: i32, timeout: Option<i32>) -> (sub: Subscription)
        ensures
            sub.request@ == self.client().stream_request(
                events_path("/v1/payments/"@, decimal(number as int), timeout),
            ),
            sub.parser.is_new(Framing::Labelled),
    {
        let id = decimal_string(number as i64);
        let path = events_path_of("/v1/payments/", id.as_str(), timeout);
        self.client.subscribe(path.as_str(), Framing::Labelled)
    }

    /// Opens a stream of real-time events for a payment identified by
    /// payment hash, as [`PaymentsResource::watch`] does for one identified
    /// by number. The hash goes into the path as it is.
    pub fn watch_by_hash(&self, payment_hash: &str, timeout: Option<i32>) -> (sub: Subscription)
        ensures
            sub.request@ == self.client().stream_request(
                events_path("/v1/payments/"@, payment_hash@, timeout),
            ),
            sub.parser.is_new(Framing::Labelled),
    {
        let path = events_path_of("/v1/payments/", payment_hash, timeout);
        self.client.subscribe(path.as_str(), Framing::Labelled)
    }
}

} // verus!
