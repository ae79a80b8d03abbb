use vstd::prelude::*;
use crate::client::{Body, LnBot, Method, Request};
use crate::types::{RecoveryRestoreRequest, RestorePasskeyCompleteRequest};

verus! {

/// Operations for restoring wallet credentials.
pub struct RestoreResource<'a> {
    pub(crate) client: &'a LnBot,
}

impl<'a> RestoreResource<'a> {
    /// The client that the requests are built for.
    pub closed spec fn client(&self) -> LnBot {
        *self.client
    }

    /// The operations of this kind for a client.
    pub(crate) fn new(client: &'a LnBot) -> (resource: RestoreResource<'a>)
        ensures
            resource.client() == *client,
    {
        RestoreResource { client }
    }

    /// Restores a wallet from a recovery passphrase.
    pub fn recovery<'b>(&self, req: &'b RecoveryRestoreRequest) -> (request: Request<'b>)
        ensures
            request@ == self.client().request(
                Method::Post,
                "/v1/restore/recovery"@,
                Seq::empty(),
                Body::RecoveryRestore(req),
            ),
    {
        self.client.post("/v1/restore/recovery", Body::RecoveryRestore(req))
    }

    /// Begins a passkey restore flow.
    pub fn passkey_begin(&self) -> (request: Request<'static>)
        ensures
            request@ == self.client().request(
                Method::Post,
                "/v1/restore/passkey/begin"@,
                Seq::empty(),
                Body::Empty,
            ),
    {
        self.client.post("/v1/restore/passkey/begin", Body::Empty)
    }

    /// Completes a passkey restore flow.
    pub fn passkey_complete<'b>(&self, req: &'b RestorePasskeyCompleteRequest) -> (request:
        Request<'b>)
        ensures
            request@ == self.client().request(
                Method::Post,
                "/v1/restore/passkey/complete"@,
                Seq::empty(),
                Body::RestorePasskeyComplete(req),
            ),
    {
        self.client.post("/v1/restore/passkey/complete", Body::RestorePasskeyComplete(req))
    }
}

} // verus!
