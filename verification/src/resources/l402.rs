use vstd::prelude::*;
use crate::client::{Body, LnBot, Method, Request};
use crate::types::{CreateL402ChallengeRequest, PayL402Request, VerifyL402Request};

verus! {

/// Operations on L402 paywall authentication.
pub struct L402Resource<'a> {
    pub(crate) client: &'a LnBot,
}

impl<'a> L402Resource<'a> {
    /// The client that the requests are built for.
    pub closed spec fn client(&self) -> LnBot {
        *self.client
    }

    /// The operations of this kind for a client.
    pub(crate) fn new(client: &'a LnBot) -> (resource: L402Resource<'a>)
        ensures
            resource.client() == *client,
    {
        L402Resource { client }
    }

    /// Creates an L402 challenge (invoice + macaroon) for paywall authentication.
    pub fn create_challenge<'b>(&self, req: &'b CreateL402ChallengeRequest) -> (request: Request<
        'b,
    >)
        ensures
            request@ == self.client().request(
                Method::Post,
                "/v1/l402/challenges"@,
                Seq::empty(),
                Body::CreateL402Challenge(req),
            ),
    {
        self.client.post("/v1/l402/challenges", Body::CreateL402Challenge(req))
    }

    /// Verifies an L402 authorization token.
    pub fn verify<'b>(&self, req: &'b VerifyL402Request) -> (request: Request<'b>)
        ensures
            request@ == self.client().request(
                Method::Post,
                "/v1/l402/verify"@,
                Seq::empty(),
                Body::VerifyL402(req),
            ),
    {
        self.client.post("/v1/l402/verify", Body::VerifyL402(req))
    }

    /// Pays an L402 challenge and returns a ready-to-use Authorization header.
    pub fn pay<'b>(&self, req: &'b PayL402Request) -> (request: Request<'b>)
        ensures
            request@ == self.client().request(
                Method::Post,
                "/v1/l402/pay"@,
                Seq::empty(),
                Body::PayL402(req),
            ),
    {
        self.client.post("/v1/l402/pay", Body::PayL402(req))
    }
}

} // verus!
