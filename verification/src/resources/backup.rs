use vstd::prelude::*;
use crate::client::{Body, LnBot, Method, Request};
use crate::types::BackupPasskeyCompleteRequest;

verus! {

/// Operations for backing up wallet credentials.
pub struct BackupResource<'a> {
    pub(crate) client: &'a LnBot,
}

impl<'a> BackupResource<'a> {
    /// The client that the requests are built for.
    pub closed spec fn client(&self) -> LnBot {
        *self.client
    }

    /// The operations of this kind for a client.
    pub(crate) fn new(client: &'a LnBot) -> (resource: BackupResource<'a>)
        ensures
            resource.client() == *client,
    {
        BackupResource { client }
    }

    /// Returns the wallet's recovery passphrase.
    pub fn recovery(&self) -> (request: Request<'static>)
        ensures
            request@ == self.client().request(
                Method::Post,
                "/v1/backup/recovery"@,
                Seq::empty(),
                Body::Empty,
            ),
    {
        self.client.post("/v1/backup/recovery", Body::Empty)
    }

    /// Begins a passkey backup flow.
    pub fn passkey_begin(&self) -> (request: Request<'static>)
        ensures
            request@ == self.client().request(
                Method::Post,
                "/v1/backup/passkey/begin"@,
                Seq::empty(),
                Body::Empty,
            ),
    {
        self.client.post("/v1/backup/passkey/begin", Body::Empty)
    }

    /// Completes a passkey backup flow. The response holds nothing to read.
    pub fn passkey_complete<'b>(&self, req: &'b BackupPasskeyCompleteRequest) -> (request: Request<
        'b,
    >)
        ensures
            request@ == self.client().request(
                Method::Post,
                "/v1/backup/passkey/complete"@,
                Seq::empty(),
                Body::BackupPasskeyComplete(req),
            ),
    {
        self.client.post_no_response(
            "/v1/backup/passkey/complete",
            Body::BackupPasskeyComplete(req),
        )
    }
}

} // verus!
