use vstd::prelude::*;
use crate::client::{Body, LnBot, Method, Request};
use crate::types::{CreateWalletRequest, UpdateWalletRequest};

verus! {

/// Operations on wallets.
pub struct WalletsResource<'a> {
    pub(crate) client: &'a LnBot,
}

impl<'a> WalletsResource<'a> {
    /// The client that the requests are built for.
    pub closed spec fn client(&self) -> LnBot {
        *self.client
    }

    /// The operations of this kind for a client.
    pub(crate) fn new(client: &'a LnBot) -> (resource: WalletsResource<'a>)
        ensures
            resource.client() == *client,
    {
        WalletsResource { client }
    }

    /// Creates a new wallet. Use [`LnBot::unauthenticated`] for this endpoint.
    pub fn create<'b>(&self, req: &'b CreateWalletRequest) -> (request: Request<'b>)
        ensures
            request@ == self.client().request(
                Method::Post,
                "/v1/wallets"@,
                Seq::empty(),
                Body::CreateWallet(req),
            ),
    {
        self.client.post("/v1/wallets", Body::CreateWallet(req))
    }

    /// Returns the current wallet's state.
    pub fn current(&self) -> (request: Request<'static>)
        ensures
            request@ == self.client().request(
                Method::Get,
                "/v1/wallets/current"@,
                Seq::empty(),
                Body::Empty,
            ),
    {
        self.client.get("/v1/wallets/current")
    }

    /// Updates the current wallet.
    pub fn update<'b>(&self, req: &'b UpdateWalletRequest) -> (request: Request<'b>)
        ensures
            request@ == self.client().request(
                Method::Patch,
                "/v1/wallets/current"@,
                Seq::empty(),
                Body::UpdateWallet(req),
            ),
    {
        self.client.patch("/v1/wallets/current", Body::UpdateWallet(req))
    }
}

} // verus!
