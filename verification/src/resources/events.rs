use vstd::prelude::*;
use crate::client::{LnBot, Subscription};
use crate::sse::Framing;

verus! {

/// Real-time wallet event stream.
pub struct EventsResource<'a> {
    pub(crate) client: &'a LnBot,
}

impl<'a> EventsResource<'a> {
    /// The client that the requests are built for.
    pub closed spec fn client(&self) -> LnBot {
        *self.client
    }

    /// The operations of this kind for a client.
    pub(crate) fn new(client: &'a LnBot) -> (resource: EventsResource<'a>)
        ensures
            resource.client() == *client,
    {
        EventsResource { client }
    }

    /// Opens an SSE stream of all wallet events. On this stream every
    /// `data:` line is one event.
    ///
    /// Events: `invoice.created`, `invoice.settled`, `payment.created`,
    /// `payment.settled`, `payment.failed`.
    pub fn stream(&self) -> (sub: Subscription)
        ensures
            sub.request@ == self.client().stream_request("/v1/events"@),
            sub.parser.is_new(Framing::DataOnly),
    {
        self.client.subscribe("/v1/events", Framing::DataOnly)
    }
}

} // verus!
