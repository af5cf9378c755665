//! Route handlers: what the service answers, and what it asks of the store.

pub mod health_check;
pub mod subscriptions;

pub use health_check::health_check;
pub use subscriptions::subscribe;

use vstd::prelude::*;

verus! {

/// An HTTP response as the handlers produce it: a status code and a body.
#[derive(Debug)]
pub struct Response {
    pub status: u16,
    pub body: Vec<u8>,
}

/// What a [`Response`] holds, with its body as a sequence of bytes.
pub struct ResponseView {
    pub status: u16,
    pub body: Seq<u8>,
}

impl View for Response {
    type V = ResponseView;

    open spec fn view(&self) -> ResponseView {
        ResponseView { status: self.status, body: self.body@ }
    }
}

/// The response that carries `status` and nothing else.
pub open spec fn bare(status: u16) -> ResponseView {
    ResponseView { status, body: Seq::empty() }
}

impl Response {
    /// A response with the given status and an empty body.
    pub fn empty(status: u16) -> (response: Response)
        ensures
            response@ == bare(status),
    {
        let response = Response { status, body: Vec::new() };
        proof {
            assert(response.body@ =~= Seq::<u8>::empty());
        }
        response
    }
}

} // verus!
