//! The client's configuration and the transport rules: how a call becomes a
//! request, and what a response's status means.
//!
//! Nothing here sends anything. A [`Request`] says what is to be sent; the
//! driver sends it, asks [`is_error_status`] whether the response failed,
//! and has a failed one classified by [`from_status`]. [`check_status`]
//! does both for a driver that holds the body already.

use vstd::prelude::*;
use vstd::string::StringExecFns;
use crate::errors::{classified, from_status, LnBotError};
use crate::resources::addresses::AddressesResource;
use crate::resources::backup::BackupResource;
use crate::resources::events::EventsResource;
use crate::resources::invoices::InvoicesResource;
use crate::resources::keys::KeysResource;
use crate::resources::l402::L402Resource;
use crate::resources::payments::PaymentsResource;
use crate::resources::restore::RestoreResource;
use crate::resources::transactions::TransactionsResource;
use crate::resources::wallets::WalletsResource;
use crate::resources::webhooks::WebhooksResource;
use crate::sse::{Framing, SseParser};
use crate::text::{chars_of, decimal, decimal_string, string_of};
use crate::types::{
    BackupPasskeyCompleteRequest, CreateAddressRequest, CreateInvoiceForAddressRequest,
    CreateInvoiceForWalletRequest, CreateInvoiceRequest, CreateL402ChallengeRequest,
    CreatePaymentRequest, CreateWalletRequest, CreateWebhookRequest, ListParams, PayL402Request,
    RecoveryRestoreRequest, RestorePasskeyCompleteRequest, TransferAddressRequest,
    UpdateWalletRequest, VerifyL402Request,
};

verus! {

/// The API's address where none is given.
pub const DEFAULT_BASE_URL: &'static str = "https://api.ln.bot";

/// The HTTP methods that the API uses.
#[derive(Debug, Clone, Copy, PartialEq, Eq, Structural)]
pub enum Method {
    Get,
    Post,
    Patch,
    Delete,
}

/// What a request carries as its JSON body. The driver serialises it.
#[derive(Debug, Clone, Copy)]
pub enum Body<'a> {
    /// No body is sent.
    Empty,
    CreateWallet(&'a CreateWalletRequest),
    UpdateWallet(&'a UpdateWalletRequest),
    CreateInvoice(&'a CreateInvoiceRequest),
    CreateInvoiceForWallet(&'a CreateInvoiceForWalletRequest),
    CreateInvoiceForAddress(&'a CreateInvoiceForAddressRequest),
    CreatePayment(&'a CreatePaymentRequest),
    CreateAddress(&'a CreateAddressRequest),
    TransferAddress(&'a TransferAddressRequest),
    CreateWebhook(&'a CreateWebhookRequest),
    BackupPasskeyComplete(&'a BackupPasskeyCompleteRequest),
    RecoveryRestore(&'a RecoveryRestoreRequest),
    RestorePasskeyComplete(&'a RestorePasskeyCompleteRequest),
    CreateL402Challenge(&'a CreateL402ChallengeRequest),
    VerifyL402(&'a VerifyL402Request),
    PayL402(&'a PayL402Request),
}

/// A request, ready for the driver to send: one request per call, with
/// nothing left to decide.
#[derive(Debug)]
pub struct Request<'a> {
    pub method: Method,
    /// The base URL followed by the path.
    pub url: String,
    /// Header names and values, in the order in which they are to be set.
    pub headers: Vec<(String, String)>,
    /// Query parameters, for the driver to escape and append to the URL.
    pub query: Vec<(String, String)>,
    pub body: Body<'a>,
}

/// Names and values as text.
pub open spec fn pairs_text(pairs: Seq<(String, String)>) -> Seq<(Seq<char>, Seq<char>)> {
    pairs.map_values(|p: (String, String)| (p.0@, p.1@))
}

/// What a [`Request`] holds, as text.
pub struct RequestView<'a> {
    pub method: Method,
    pub url: Seq<char>,
    pub headers: Seq<(Seq<char>, Seq<char>)>,
    pub query: Seq<(Seq<char>, Seq<char>)>,
    pub body: Body<'a>,
}

impl<'a> View for Request<'a> {
    type V = RequestView<'a>;

    open spec fn view(&self) -> RequestView<'a> {
        RequestView {
            method: self.method,
            url: self.url@,
            headers: pairs_text(self.headers@),
            query: pairs_text(self.query@),
            body: self.body,
        }
    }
}

/// The text without the slashes at its end.
pub open spec fn without_trailing_slashes(s: Seq<char>) -> Seq<char>
    decreases s.len(),
{
    if s.len() > 0 && s.last() == '/' {
        without_trailing_slashes(s.drop_last())
    } else {
        s
    }
}

/// The query parameters for a page: `limit` first, then `after`, each only
/// if it is set, with its value in decimal.
pub open spec fn query_of(params: ListParams) -> Seq<(Seq<char>, Seq<char>)> {
    let limit = match params.limit {
        Some(n) => seq![("limit"@, decimal(n as int))],
        None => Seq::empty(),
    };
    let after = match params.after {
        Some(n) => seq![("after"@, decimal(n as int))],
        None => Seq::empty(),
    };
    limit + after
}

/// Builds the query parameters for a page. A parameter that is not set is
/// left out; no value is escaped here.
pub fn query_pairs(params: &ListParams) -> (query: Vec<(String, String)>)
    ensures
        pairs_text(query@) == query_of(*params),
{
    let mut query: Vec<(String, String)> = Vec::new();
    if let Some(limit) = params.limit {
        query.push(("limit".to_owned(), decimal_string(limit as i64)));
    }
    if let Some(after) = params.after {
        query.push(("after".to_owned(), decimal_string(after as i64)));
    }
    assert(pairs_text(query@) =~= query_of(*params));
    query
}

/// Whether a response with this status has failed.
pub fn is_error_status(status: u16) -> (failed: bool)
    ensures
        failed == (status >= 400),
{
    status >= 400
}

/// Judges a response by its status: a status of 400 or more fails with the
/// error that the status stands for, carrying the body as received; any
/// other status passes, whatever the body holds.
pub fn check_status(status: u16, body: String) -> (result: Result<(), LnBotError>)
    ensures
        status >= 400 ==> result == Err::<(), LnBotError>(classified(status, body)),
        status < 400 ==> result is Ok,
{
    if status >= 400 {
        Err(from_status(status, body))
    } else {
        Ok(())
    }
}

/// An event stream to open: the request to send and the parser for the
/// body of its response.
pub struct Subscription {
    pub request: Request<'static>,
    pub parser: SseParser,
}

/// LnBot API client configuration: where the API is and who is calling.
///
/// Create one with [`LnBot::new`] (authenticated) or
/// [`LnBot::unauthenticated`] (for wallet creation), then build requests
/// through accessor methods like [`invoices`](LnBot::invoices) and
/// [`payments`](LnBot::payments). A configuration is never changed: the
/// `with_` methods return a new one.
#[derive(Debug)]
pub struct LnBot {
    pub(crate) base_url: String,
    pub(crate) api_key: Option<String>,
}

impl LnBot {
    /// The address that paths are appended to.
    pub closed spec fn base_url(&self) -> Seq<char> {
        self.base_url@
    }

    /// The credential, if there is one.
    pub closed spec fn api_key(&self) -> Option<Seq<char>> {
        match self.api_key {
            Some(key) => Some(key@),
            None => None,
        }
    }

    /// The headers of a request that accepts the given media type: `Accept`,
    /// and `Authorization` only if there is a credential.
    pub open spec fn headers(&self, accept: Seq<char>) -> Seq<(Seq<char>, Seq<char>)> {
        match self.api_key() {
            Some(key) => seq![("Accept"@, accept), ("Authorization"@, "Bearer "@ + key)],
            None => seq![("Accept"@, accept)],
        }
    }

    /// The request that a call for JSON makes.
    pub open spec fn request<'a>(
        &self,
        method: Method,
        path: Seq<char>,
        query: Seq<(Seq<char>, Seq<char>)>,
        body: Body<'a>,
    ) -> RequestView<'a> {
        RequestView {
            method,
            url: self.base_url() + path,
            headers: self.headers("application/json"@),
            query,
            body,
        }
    }

    /// The request that opens an event stream.
    pub open spec fn stream_request(&self, path: Seq<char>) -> RequestView<'static> {
        RequestView {
            method: Method::Get,
            url: self.base_url() + path,
            headers: self.headers("text/event-stream"@),
            query: Seq::empty(),
            body: Body::Empty,
        }
    }

    /// Creates a new authenticated client with the given API key.
    pub fn new(api_key: &str) -> (client: LnBot)
        ensures
            client.base_url() == DEFAULT_BASE_URL@,
            client.api_key() == Some(api_key@),
    {
        LnBot { base_url: DEFAULT_BASE_URL.to_owned(), api_key: Some(api_key.to_owned()) }
    }

    /// Creates a new unauthenticated client for wallet creation.
    pub fn unauthenticated() -> (client: LnBot)
        ensures
            client.base_url() == DEFAULT_BASE_URL@,
            client.api_key() is None,
    {
        LnBot { base_url: DEFAULT_BASE_URL.to_owned(), api_key: None }
    }

    /// Overrides the base URL for the API. Slashes at its end are dropped.
    #[must_use]
    pub fn with_base_url(self, url: &str) -> (client: LnBot)
        ensures
            client.base_url() == without_trailing_slashes(url@),
            client.api_key() == self.api_key(),
    {
        let chars = chars_of(url);
        let mut end: usize = chars.len();
        assert(chars@.take(end as int) =~= chars@);
        while end > 0 && chars[end - 1] == '/'
            invariant
                end <= chars.len(),
                without_trailing_slashes(chars@) == without_trailing_slashes(
                    chars@.take(end as int),
                ),
            decreases end,
        {
            assert(chars@.take(end as int).drop_last() =~= chars@.take(end - 1));
            end -= 1;
        }
        assert(chars@.take(end as int) =~= chars@.subrange(0, end as int));
        let mut client = self;
        client.base_url = string_of(&chars, 0, end);
        client
    }

    /// The headers for the given media type.
    fn headers_for(&self, accept: &str) -> (headers: Vec<(String, String)>)
        ensures
            pairs_text(headers@) == self.headers(accept@),
    {
        let mut headers: Vec<(String, String)> = Vec::new();
        headers.push(("Accept".to_owned(), accept.to_owned()));
        match &self.api_key {
            Some(key) => {
                let value = "Bearer ".to_owned().concat(key.as_str());
                headers.push(("Authorization".to_owned(), value));
            },
            None => {},
        }
        assert(pairs_text(headers@) =~= self.headers(accept@));
        headers
    }

    /// The headers of every request for JSON: it accepts JSON, and carries
    /// the credential as a bearer token if there is one.
    pub fn auth(&self) -> (headers: Vec<(String, String)>)
        ensures
            pairs_text(headers@) == self.headers("application/json"@),
    {
        self.headers_for("application/json")
    }

    /// The base URL followed by a path.
    fn url(&self, path: &str) -> (url: String)
        ensures
            url@ == self.base_url() + path@,
    {
        self.base_url.clone().concat(path)
    }

    /// A `GET` of a path.
    pub fn get(&self, path: &str) -> (req: Request<'static>)
        ensures
            req@ == self.request(Method::Get, path@, Seq::empty(), Body::Empty),
    {
        let query: Vec<(String, String)> = Vec::new();
        assert(pairs_text(query@) =~= Seq::empty());
        Request { method: Method::Get, url: self.url(path), headers: self.auth(), query, body: Body::Empty }
    }

    /// A `GET` of a path, for one page of a list.
    pub fn get_with_params(&self, path: &str, params: &ListParams) -> (req: Request<'static>)
        ensures
            req@ == self.request(Method::Get, path@, query_of(*params), Body::Empty),
    {
        Request {
            method: Method::Get,
            url: self.url(path),
            headers: self.auth(),
            query: query_pairs(params),
            body: Body::Empty,
        }
    }

    /// A `POST` to a path, with or without a body, whose response is read.
    pub fn post<'a>(&self, path: &str, body: Body<'a>) -> (req: Request<'a>)
        ensures
            req@ == self.request(Method::Post, path@, Seq::empty(), body),
    {
        let query: Vec<(String, String)> = Vec::new();
        assert(pairs_text(query@) =~= Seq::empty());
        Request { method: Method::Post, url: self.url(path), headers: self.auth(), query, body }
    }

    /// A `POST` to a path, with or without a body, whose response holds
    /// nothing to read.
    pub fn post_no_response<'a>(&self, path: &str, body: Body<'a>) -> (req: Request<'a>)
        ensures
            req@ == self.request(Method::Post, path@, Seq::empty(), body),
    {
        self.post(path, body)
    }

    /// A `PATCH` of a path.
    pub fn patch<'a>(&self, path: &str, body: Body<'a>) -> (req: Request<'a>)
        ensures
            req@ == self.request(Method::Patch, path@, Seq::empty(), body),
    {
        let query: Vec<(String, String)> = Vec::new();
        assert(pairs_text(query@) =~= Seq::empty());
        Request { method: Method::Patch, url: self.url(path), headers: self.auth(), query, body }
    }

    /// A `DELETE` of a path.
    pub fn delete(&self, path: &str) -> (req: Request<'static>)
        ensures
            req@ == self.request(Method::Delete, path@, Seq::empty(), Body::Empty),
    {
        let query: Vec<(String, String)> = Vec::new();
        assert(pairs_text(query@) =~= Seq::empty());
        Request {
            method: Method::Delete,
            url: self.url(path),
            headers: self.auth(),
            query,
            body: Body::Empty,
        }
    }

    /// A `GET` that opens an event stream, with a new parser for its body.
    /// The request accepts `text/event-stream` in place of JSON.
    pub fn subscribe(&self, path: &str, framing: Framing) -> (sub: Subscription)
        ensures
            sub.request@ == self.stream_request(path@),
            sub.parser.is_new(framing),
    {
        let query: Vec<(String, String)> = Vec::new();
        assert(pairs_text(query@) =~= Seq::empty());
        let request = Request {
            method: Method::Get,
            url: self.url(path),
            headers: self.headers_for("text/event-stream"),
            query,
            body: Body::Empty,
        };
        Subscription { request, parser: SseParser::new(framing) }
    }

    /// Access wallet operations.
    pub fn wallets(&self) -> (resource: WalletsResource<'_>)
        ensures
            resource.client() == *self,
    {
        WalletsResource::new(self)
    }

    /// Access API key operations.
    pub fn keys(&self) -> (resource: KeysResource<'_>)
        ensures
            resource.client() == *self,
    {
        KeysResource::new(self)
    }

    /// Access invoice operations.
    pub fn invoices(&self) -> (resource: InvoicesResource<'_>)
        ensures
            resource.client() == *self,
    {
        InvoicesResource::new(self)
    }

    /// Access payment operations.
    pub fn payments(&self) -> (resource: PaymentsResource<'_>)
        ensures
            resource.client() == *self,
    {
        PaymentsResource::new(self)
    }

    /// Access Lightning address operations.
    pub fn addresses(&self) -> (resource: AddressesResource<'_>)
        ensures
            resource.client() == *self,
    {
        AddressesResource::new(self)
    }

    /// Access transaction operations.
    pub fn transactions(&self) -> (resource: TransactionsResource<'_>)
        ensures
            resource.client() == *self,
    {
        TransactionsResource::new(self)
    }

    /// Access webhook operations.
    pub fn webhooks(&self) -> (resource: WebhooksResource<'_>)
        ensures
            resource.client() == *self,
    {
        WebhooksResource::new(self)
    }

    /// Access backup operations.
    pub fn backup(&self) -> (resource: BackupResource<'_>)
        ensures
            resource.client() == *self,
    {
        BackupResource::new(self)
    }

    /// Access restore operations.
    pub fn restore(&self) -> (resource: RestoreResource<'_>)
        ensures
            resource.client() == *self,
    {
        RestoreResource::new(self)
    }

    /// Access L402 paywall operations.
    pub fn l402(&self) -> (resource: L402Resource<'_>)
        ensures
            resource.client() == *self,
    {
        L402Resource::new(self)
    }

    /// Access the wallet-wide event stream.
    pub fn events(&self) -> (resource: EventsResource<'_>)
        ensures
            resource.client() == *self,
    {
        EventsResource::new(self)
    }
}

/// The path of an entity's event stream: the collection, the entity's
/// number or hash, `/events`, and the timeout in seconds for the server to
/// apply, if one is asked for.
pub open spec fn events_path(collection: Seq<char>, id: Seq<char>, timeout: Option<i32>) -> Seq<
    char,
> {
    let path = collection + id + "/events"@;
    match timeout {
        Some(seconds) => path + "?timeout="@ + decimal(seconds as int),
        None => path,
    }
}

/// Builds the path of an entity's event stream.
pub(crate) fn events_path_of(collection: &str, id: &str, timeout: Option<i32>) -> (path: String)
    ensures
        path@ == events_path(collection@, id@, timeout),
{
    let mut path = collection.to_owned();
    path.append(id);
    path.append("/events");
    if let Some(seconds) = timeout {
        path.append("?timeout=");
        path.append(decimal_string(seconds as i64).as_str());
    }
    path
}

} // verus!
