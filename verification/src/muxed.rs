use vstd::prelude::*;

verus! {

/// An envelope that holds either a request or a response. The variant is
/// fixed when the value is built and is never reinterpreted.
#[derive(Debug, Clone, PartialEq, Eq)]
pub enum Muxed<Req, Resp> {
    Request(Req),
    Response(Resp),
}

impl<Req, Resp> Muxed<Req, Resp> {
    /// The request inside the envelope, if it holds one.
    pub open spec fn request_of(self) -> Option<Req> {
        match self {
            Muxed::Request(req) => Some(req),
            Muxed::Response(_) => None,
        }
    }

    /// The response inside the envelope, if it holds one.
    pub open spec fn response_of(self) -> Option<Resp> {
        match self {
            Muxed::Request(_) => None,
            Muxed::Response(resp) => Some(resp),
        }
    }

    /// Fetch the request if the envelope contains a request; a response
    /// envelope yields nothing.
    pub fn req(self) -> (r: Option<Req>)
        ensures
            r == self.request_of(),
            self is Response ==> r is None,
            self is Request ==> r == Some(self->Request_0),
    {
        match self {
            Muxed::Request(req) => Some(req),
            _ => None,
        }
    }

    /// Fetch the response if the envelope contains a response; a request
    /// envelope yields nothing.
    pub fn resp(self) -> (r: Option<Resp>)
        ensures
            r == self.response_of(),
            self is Request ==> r is None,
            self is Response ==> r == Some(self->Response_0),
    {
        match self {
            Muxed::Response(resp) => Some(resp),
            _ => None,
        }
    }
}

} // verus!
