use vstd::prelude::*;
use vstd::string::StringExecFns;
use crate::client::{Body, LnBot, Method, Request};
use crate::text::{decimal, decimal_string};

verus! {

/// Operations on API keys.
pub struct KeysResource<'a> {
    pub(crate) client: &'a LnBot,
}

impl<'a> KeysResource<'a> {
    /// The client that the requests are built for.
    pub closed spec fn client(&self) -> LnBot {
        *self.client
    }

    /// The operations of this kind for a client.
    pub(crate) fn new(client: &'a LnBot) -> (resource: KeysResource<'a>)
        ensures
            resource.client() == *client,
    {
        KeysResource { client }
    }

    /// Lists all API keys for the current wallet.
    pub fn list(&self) -> (request: Request<'static>)
        ensures
            request@ == self.client().request(Method::Get, "/v1/keys"@, Seq::empty(), Body::Empty),
    {
        self.client.get("/v1/keys")
    }

    /// Rotates the API key in the given slot (1 = primary, 2 = secondary).
    pub fn rotate(&self, slot: i32) -> (request: Request<'static>)
        ensures
            request@ == self.client().request(
                Method::Post,
                "/v1/keys/"@ + decimal(slot as int) + "/rotate"@,
                Seq::empty(),
                Body::Empty,
            ),
    {
        let mut path = "/v1/keys/".to_owned();
        path.append(decimal_string(slot as i64).as_str());
        path.append("/rotate");
        self.client.post(path.as_str(), Body::Empty)
    }
}

} // verus!
