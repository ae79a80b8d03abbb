use vstd::prelude::*;
use crate::client::{query_of, Body, LnBot, Method, Request};
use crate::types::ListParams;

verus! {

/// Operations on transactions.
pub struct TransactionsResource<'a> {
    pub(crate) client: &'a LnBot,
}

impl<'a> TransactionsResource<'a> {
    /// The client that the requests are built for.
    pub closed spec fn client(&self) -> LnBot {
        *self.client
    }

    /// The operations of this kind for a client.
    pub(crate) fn new(client: &'a LnBot) -> (resource: TransactionsResource<'a>)
        ensures
            resource.client() == *client,
    {
        TransactionsResource { client }
    }

    /// Lists transactions with optional pagination.
    pub fn list(&self, params: &ListParams) -> (request: Request<'static>)
        ensures
            request@ == self.client().request(
                Method::Get,
                "/v1/transactions"@,
                query_of(*params),
                Body::Empty,
            ),
    {
        self.client.get_with_params("/v1/transactions", params)
    }
}

} // verus!
