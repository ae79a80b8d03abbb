use vstd::prelude::*;
use vstd::string::StringExecFns;
use vstd::utf8::encode_utf8;
use crate::client::{Body, LnBot, Method, Request};
use crate::text::{percent_encoded, url_encode};
use crate::types::CreateWebhookRequest;

verus! {

/// Operations on webhooks.
pub struct WebhooksResource<'a> {
    pub(crate) client: &'a LnBot,
}

impl<'a> WebhooksResource<'a> {
    /// The client that the requests are built for.
    pub closed spec fn client(&self) -> LnBot {
        *self.client
    }

    /// The operations of this kind for a client.
    pub(crate) fn new(client: &'a LnBot) -> (resource: WebhooksResource<'a>)
        ensures
            resource.client() == *client,
    {
        WebhooksResource { client }
    }

    /// Creates a new webhook.
    pub fn create<'b>(&self, req: &'b CreateWebhookRequest) -> (request: Request<'b>)
        ensures
            request@ == self.client().request(
                Method::Post,
                "/v1/webhooks"@,
                Seq::empty(),
                Body::CreateWebhook(req),
            ),
    {
        self.client.post("/v1/webhooks", Body::CreateWebhook(req))
    }

    /// Lists all webhooks for the current wallet.
    pub fn list(&self) -> (request: Request<'static>)
        ensures
            request@ == self.client().request(
                Method::Get,
                "/v1/webhooks"@,
                Seq::empty(),
                Body::Empty,
            ),
    {
        self.client.get("/v1/webhooks")
    }

    /// Deletes a webhook by ID. The ID is percent-encoded into the path.
    pub fn delete(&self, id: &str) -> (request: Request<'static>)
        ensures
            request@ == self.client().request(
                Method::Delete,
                "/v1/webhooks/"@ + percent_encoded(encode_utf8(id@)),
                Seq::empty(),
                Body::Empty,
            ),
    {
        let mut path = "/v1/webhooks/".to_owned();
        path.append(url_encode(id).as_str());
        self.client.delete(path.as_str())
    }
}

} // verus!
