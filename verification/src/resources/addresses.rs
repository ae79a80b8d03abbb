use vstd::prelude::*;
use vstd::string::StringExecFns;
use vstd::utf8::encode_utf8;
use crate::client::{Body, LnBot, Method, Request};
use crate::text::{percent_encoded, url_encode};
use crate::types::{CreateAddressRequest, TransferAddressRequest};

verus! {

/// Operations on Lightning addresses.
pub struct AddressesResource<'a> {
    pub(crate) client: &'a LnBot,
}

impl<'a> AddressesResource<'a> {
    /// The client that the requests are built for.
    pub closed spec fn client(&self) -> LnBot {
        *self.client
    }

    /// The operations of this kind for a client.
    pub(crate) fn new(client: &'a LnBot) -> (resource: AddressesResource<'a>)
        ensures
            resource.client() == *client,
    {
        AddressesResource { client }
    }

    /// Creates or claims a Lightning address.
    pub fn create<'b>(&self, req: &'b CreateAddressRequest) -> (request: Request<'b>)
        ensures
            request@ == self.client().request(
                Method::Post,
                "/v1/addresses"@,
                Seq::empty(),
                Body::CreateAddress(req),
            ),
    {
        self.client.post("/v1/addresses", Body::CreateAddress(req))
    }

    /// Lists all Lightning addresses for the current wallet.
    pub fn list(&self) -> (request: Request<'static>)
        ensures
            request@ == self.client().request(
                Method::Get,
                "/v1/addresses"@,
                Seq::empty(),
                Body::Empty,
            ),
    {
        self.client.get("/v1/addresses")
    }

    /// Deletes a Lightning address. The address is percent-encoded into the
    /// path.
    pub fn delete(&self, address: &str) -> (request: Request<'static>)
        ensures
            request@ == self.client().request(
                Method::Delete,
                "/v1/addresses/"@ + percent_encoded(encode_utf8(address@)),
                Seq::empty(),
                Body::Empty,
            ),
    {
        let mut path = "/v1/addresses/".to_owned();
        path.append(url_encode(address).as_str());
        self.client.delete(path.as_str())
    }

    /// Transfers a Lightning address to another wallet. The address is
    /// percent-encoded into the path.
    pub fn transfer<'b>(&self, address: &str, req: &'b TransferAddressRequest) -> (request: Request<
        'b,
    >)
        ensures
            request@ == self.client().request(
                Method::Post,
                "/v1/addresses/"@ + percent_encoded(encode_utf8(address@)) + "/transfer"@,
                Seq::empty(),
                Body::TransferAddress(req),
            ),
    {
        let mut path = "/v1/addresses/".to_owned();
        path.append(url_encode(address).as_str());
        path.append("/transfer");
        self.client.post(path.as_str(), Body::TransferAddress(req))
    }
}

} // verus!
