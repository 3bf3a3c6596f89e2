use crate::connector::Connector;
use crate::muxed::Muxed;
use std::collections::VecDeque;
use vstd::prelude::*;
use vstd::std_specs::cmp::PartialEqSpec;

verus! {

broadcast use vstd::std_specs::vecdeque::group_vec_dequeue_axioms;

/// Why a call does not meet the next expectation of a mock connector.
#[derive(Debug, Clone, Copy, PartialEq, Eq)]
pub enum MockError {
    /// No expectation is left for the call.
    Exhausted,
    /// The next expectation is for the other kind of call.
    WrongKind,
    /// The call's target is not the expected one.
    Destination,
    /// The call's payload is not the expected one.
    Payload,
    /// The call's context is not the expected one.
    Context,
}

/// An expected request, with the result that the caller is to get for it.
#[derive(Debug, PartialEq)]
pub struct MockRequest<Addr, Req, Resp, Ctx, E> {
    pub to: Addr,
    pub req: Req,
    pub ctx: Option<Ctx>,
    pub resp: Result<(Resp, Ctx), E>,
}

impl<Addr, Req, Resp, Ctx, E> MockRequest<Addr, Req, Resp, Ctx, E> {
    /// An expected request to `to` with the payload `req`, answered with
    /// `resp`; any context is accepted.
    pub fn new(to: Addr, req: Req, resp: Result<(Resp, Ctx), E>) -> (r: Self)
        ensures
            r == (MockRequest { to, req, ctx: None::<Ctx>, resp }),
    {
        MockRequest { to, req, resp, ctx: None }
    }

    /// The same expectation, which accepts only the context `ctx`.
    pub fn with_context(self, ctx: Ctx) -> (r: Self)
        ensures
            r == (MockRequest { ctx: Some(ctx), ..self }),
    {
        MockRequest { ctx: Some(ctx), ..self }
    }
}

/// An expected response, with the error, if any, that the caller is to get.
#[derive(Debug, PartialEq)]
pub struct MockResponse<Addr, Resp, Ctx, E> {
    pub to: Addr,
    pub resp: Resp,
    pub err: Option<E>,
    pub ctx: Option<Ctx>,
}

impl<Addr, Resp, Ctx, E> MockResponse<Addr, Resp, Ctx, E> {
    /// An expected response to `to` with the payload `resp`, which fails
    /// with `err` if there is one; any context is accepted.
    pub fn new(to: Addr, resp: Resp, err: Option<E>) -> (r: Self)
        ensures
            r == (MockResponse { to, resp, err, ctx: None::<Ctx> }),
    {
        MockResponse { to, resp, err, ctx: None }
    }

    /// The same expectation, which fails with `err`.
    pub fn with_error(self, err: E) -> (r: Self)
        ensures
            r == (MockResponse { err: Some(err), ..self }),
    {
        MockResponse { err: Some(err), ..self }
    }

    /// The same expectation, which accepts only the context `ctx`.
    pub fn with_context(self, ctx: Ctx) -> (r: Self)
        ensures
            r == (MockResponse { ctx: Some(ctx), ..self }),
    {
        MockResponse { ctx: Some(ctx), ..self }
    }
}

/// One expected call: a request or a response.
pub type MockTransaction<Addr, Req, Resp, Ctx, E> = Muxed<
    MockRequest<Addr, Req, Resp, Ctx, E>,
    MockResponse<Addr, Resp, Ctx, E>,
>;

impl<Addr, Req, Resp, Ctx, E> Muxed<
    MockRequest<Addr, Req, Resp, Ctx, E>,
    MockResponse<Addr, Resp, Ctx, E>,
> {
    /// Expect a request and answer it with `resp`.
    pub fn request(to: Addr, req: Req, resp: Result<(Resp, Ctx), E>) -> (t: Self)
        ensures
            t == Muxed::<
                MockRequest<Addr, Req, Resp, Ctx, E>,
                MockResponse<Addr, Resp, Ctx, E>,
            >::Request(MockRequest { to, req, ctx: None::<Ctx>, resp }),
    {
        Muxed::Request(MockRequest::new(to, req, resp))
    }

    /// Expect a response and fail it with `err`, if there is one.
    pub fn response(to: Addr, resp: Resp, err: Option<E>) -> (t: Self)
        ensures
            t == Muxed::<
                MockRequest<Addr, Req, Resp, Ctx, E>,
                MockResponse<Addr, Resp, Ctx, E>,
            >::Response(MockResponse { to, resp, err, ctx: None::<Ctx> }),
    {
        Muxed::Response(MockResponse::new(to, resp, err))
    }
}

/// A connector that plays back a list of expected calls, for testing code
/// that consumes the `Connector` contract. Each call must meet the next
/// expectation; `check_request` and `check_response` tell beforehand
/// whether it does, and `finalise` must find every expectation met.
pub struct MockConnector<Addr, Req, Resp, E, Ctx> {
    transactions: VecDeque<MockTransaction<Addr, Req, Resp, Ctx, E>>,
}

impl<Addr, Req, Resp, E, Ctx> View for MockConnector<Addr, Req, Resp, E, Ctx> {
    type V = Seq<MockTransaction<Addr, Req, Resp, Ctx, E>>;

    /// The expectations that are still to be met, next one first.
    closed spec fn view(&self) -> Self::V {
        self.transactions@
    }
}

impl<Addr, Req, Resp, E, Ctx> MockConnector<Addr, Req, Resp, E, Ctx> where
    Addr: PartialEq,
    Req: PartialEq,
    Resp: PartialEq,
    Ctx: PartialEq,
 {
    /// Whether a context is one that an expectation accepts: any context
    /// where the expectation names none, else one equal to the named one.
    pub open spec fn context_accepted(expected: Option<Ctx>, ctx: Ctx) -> bool {
        match expected {
            Some(c) => c.eq_spec(&ctx),
            None => true,
        }
    }

    /// Whether `==` means what `eq_spec` says wherever a request is
    /// compared with `expected`: on addresses, on request payloads, and on
    /// contexts if the expectation names one.
    pub open spec fn request_comparable(expected: MockRequest<Addr, Req, Resp, Ctx, E>) -> bool {
        &&& Addr::obeys_eq_spec()
        &&& Req::obeys_eq_spec()
        &&& expected.ctx is Some ==> Ctx::obeys_eq_spec()
    }

    /// Whether `==` means what `eq_spec` says wherever a response is
    /// compared with `expected`: on addresses, on response payloads, and
    /// on contexts if the expectation names one.
    pub open spec fn response_comparable(expected: MockResponse<Addr, Resp, Ctx, E>) -> bool {
        &&& Addr::obeys_eq_spec()
        &&& Resp::obeys_eq_spec()
        &&& expected.ctx is Some ==> Ctx::obeys_eq_spec()
    }

    /// How a request compares with the expectation `expected`: the first
    /// mismatch among target, payload and context, or none.
    pub open spec fn request_verdict(
        expected: MockRequest<Addr, Req, Resp, Ctx, E>,
        ctx: Ctx,
        addr: Addr,
        req: Req,
    ) -> Result<(), MockError> {
        if !expected.to.eq_spec(&addr) {
            Err(MockError::Destination)
        } else if !expected.req.eq_spec(&req) {
            Err(MockError::Payload)
        } else if !Self::context_accepted(expected.ctx, ctx) {
            Err(MockError::Context)
        } else {
            Ok(())
        }
    }

    /// How a response compares with the expectation `expected`: the first
    /// mismatch among target, payload and context, or none.
    pub open spec fn response_verdict(
        expected: MockResponse<Addr, Resp, Ctx, E>,
        ctx: Ctx,
        addr: Addr,
        resp: Resp,
    ) -> Result<(), MockError> {
        if !expected.to.eq_spec(&addr) {
            Err(MockError::Destination)
        } else if !expected.resp.eq_spec(&resp) {
            Err(MockError::Payload)
        } else if !Self::context_accepted(expected.ctx, ctx) {
            Err(MockError::Context)
        } else {
            Ok(())
        }
    }

    /// Whether a request meets the next expectation: there is one, it
    /// expects a request, and target, payload and context match it.
    pub open spec fn expects_request(&self, ctx: Ctx, addr: Addr, req: Req) -> bool {
        &&& self@.len() > 0
        &&& self@[0] matches Muxed::Request(expected)
        &&& Self::request_comparable(expected)
        &&& Self::request_verdict(expected, ctx, addr, req) is Ok
    }

    /// Whether a response meets the next expectation: there is one, it
    /// expects a response, and target, payload and context match it.
    pub open spec fn expects_response(&self, ctx: Ctx, addr: Addr, resp: Resp) -> bool {
        &&& self@.len() > 0
        &&& self@[0] matches Muxed::Response(expected)
        &&& Self::response_comparable(expected)
        &&& Self::response_verdict(expected, ctx, addr, resp) is Ok
    }

    /// What the caller of a met response expectation gets: the canned
    /// error, or success.
    pub open spec fn response_result(expected: MockResponse<Addr, Resp, Ctx, E>) -> Result<(), E> {
        match expected.err {
            Some(e) => Err(e),
            None => Ok(()),
        }
    }

    /// Create a mock connector that expects no call.
    pub fn new() -> (mock: Self)
        ensures
            mock@ == Seq::<MockTransaction<Addr, Req, Resp, Ctx, E>>::empty(),
    {
        MockConnector { transactions: VecDeque::new() }
    }

    /// Set the expectations, replacing those that were left.
    pub fn expect(&mut self, transactions: VecDeque<MockTransaction<Addr, Req, Resp, Ctx, E>>)
        ensures
            final(self)@ == transactions@,
    {
        self.transactions = transactions;
    }

    /// How many expectations no call has met yet.
    pub fn outstanding(&self) -> (n: usize)
        ensures
            n == self@.len(),
    {
        self.transactions.len()
    }

    /// Finalise the expectations. Every one of them must have been met:
    /// to finalise with expectations left is an error of the caller.
    pub fn finalise(&mut self)
        requires
            old(self)@.len() == 0,
        ensures
            final(self)@ == Seq::<MockTransaction<Addr, Req, Resp, Ctx, E>>::empty(),
    {
        if self.transactions.len() != 0 {
            unreached::<()>();
        }
        self.transactions.clear();
    }

    /// Compare a request with an expectation.
    fn compare_request(
        expected: &MockRequest<Addr, Req, Resp, Ctx, E>,
        ctx: &Ctx,
        addr: &Addr,
        req: &Req,
    ) -> (r: Result<(), MockError>)
        ensures
            Self::request_comparable(*expected) ==> r == Self::request_verdict(
                *expected,
                *ctx,
                *addr,
                *req,
            ),
    {
        if !(expected.to == *addr) {
            return Err(MockError::Destination);
        }
        if !(expected.req == *req) {
            return Err(MockError::Payload);
        }
        match &expected.ctx {
            Some(c) => {
                if !(*c == *ctx) {
                    return Err(MockError::Context);
                }
            },
            None => {},
        }
        Ok(())
    }

    /// Compare a response with an expectation.
    fn compare_response(
        expected: &MockResponse<Addr, Resp, Ctx, E>,
        ctx: &Ctx,
        addr: &Addr,
        resp: &Resp,
    ) -> (r: Result<(), MockError>)
        ensures
            Self::response_comparable(*expected) ==> r == Self::response_verdict(
                *expected,
                *ctx,
                *addr,
                *resp,
            ),
    {
        if !(expected.to == *addr) {
            return Err(MockError::Destination);
        }
        if !(expected.resp == *resp) {
            return Err(MockError::Payload);
        }
        match &expected.ctx {
            Some(c) => {
                if !(*c == *ctx) {
                    return Err(MockError::Context);
                }
            },
            None => {},
        }
        Ok(())
    }

    /// Tell whether a request would meet the next expectation, and if not,
    /// why not. Nothing is used up.
    ///
    /// With no expectation left the answer is `Exhausted`, and against an
    /// expected response it is `WrongKind`. Against an expected request it
    /// is the first mismatch among target, payload and context, or `Ok`,
    /// as far as `==` on the compared types is known to mean what their
    /// `eq_spec` says.
    pub fn check_request(&self, ctx: &Ctx, addr: &Addr, req: &Req) -> (r: Result<(), MockError>)
        ensures
            self@.len() == 0 ==> r == Err::<(), MockError>(MockError::Exhausted),
            self@.len() > 0 ==> match self@[0] {
                Muxed::Request(expected) => Self::request_comparable(expected) ==> r
                    == Self::request_verdict(expected, *ctx, *addr, *req),
                Muxed::Response(_) => r == Err::<(), MockError>(MockError::WrongKind),
            },
            r is Ok ==> self@.len() > 0 && self@[0] is Request,
    {
        if self.transactions.len() == 0 {
            return Err(MockError::Exhausted);
        }
        match &self.transactions[0] {
            Muxed::Request(expected) => Self::compare_request(expected, ctx, addr, req),
            Muxed::Response(_) => Err(MockError::WrongKind),
        }
    }

    /// Tell whether a response would meet the next expectation, and if
    /// not, why not. Nothing is used up.
    ///
    /// With no expectation left the answer is `Exhausted`, and against an
    /// expected request it is `WrongKind`. Against an expected response it
    /// is the first mismatch among target, payload and context, or `Ok`,
    /// as far as `==` on the compared types is known to mean what their
    /// `eq_spec` says.
    pub fn check_response(&self, ctx: &Ctx, addr: &Addr, resp: &Resp) -> (r: Result<
        (),
        MockError,
    >)
        ensures
            self@.len() == 0 ==> r == Err::<(), MockError>(MockError::Exhausted),
            self@.len() > 0 ==> match self@[0] {
                Muxed::Response(expected) => Self::response_comparable(expected) ==> r
                    == Self::response_verdict(expected, *ctx, *addr, *resp),
                Muxed::Request(_) => r == Err::<(), MockError>(MockError::WrongKind),
            },
            r is Ok ==> self@.len() > 0 && self@[0] is Response,
    {
        if self.transactions.len() == 0 {
            return Err(MockError::Exhausted);
        }
        match &self.transactions[0] {
            Muxed::Response(expected) => Self::compare_response(expected, ctx, addr, resp),
            Muxed::Request(_) => Err(MockError::WrongKind),
        }
    }
}

impl<Id, Addr, Req, Resp, E, Ctx> Connector<Id, Addr, Req, Resp, E, Ctx> for MockConnector<
    Addr,
    Req,
    Resp,
    E,
    Ctx,
> where Addr: PartialEq, Req: PartialEq, Resp: PartialEq, Ctx: PartialEq {
    /// A request must meet the next expectation.
    open spec fn accepts_request(&self, ctx: Ctx, req_id: Id, target: Addr, req: Req) -> bool {
        self.expects_request(ctx, target, req)
    }

    /// A response must meet the next expectation.
    open spec fn accepts_response(&self, ctx: Ctx, req_id: Id, target: Addr, resp: Resp) -> bool {
        self.expects_response(ctx, target, resp)
    }

    /// The call uses up the next expectation and gets the result that the
    /// expectation holds for it, be it a response or an error.
    open spec fn requested(
        &self,
        ctx: Ctx,
        req_id: Id,
        target: Addr,
        req: Req,
        after: &Self,
        result: Result<(Resp, Ctx), E>,
    ) -> bool {
        &&& self@.len() > 0
        &&& after@ == self@.drop_first()
        &&& self@[0] matches Muxed::Request(expected)
        &&& result == expected.resp
    }

    /// The call uses up the next expectation and fails with the error that
    /// the expectation holds for it, if it holds one.
    open spec fn responded(
        &self,
        ctx: Ctx,
        req_id: Id,
        target: Addr,
        resp: Resp,
        after: &Self,
        result: Result<(), E>,
    ) -> bool {
        &&& self@.len() > 0
        &&& after@ == self@.drop_first()
        &&& self@[0] matches Muxed::Response(expected)
        &&& result == Self::response_result(expected)
    }

    /// Make a request and return the pre-set response. The request is
    /// compared with the next expectation, which it must meet.
    fn request(&mut self, ctx: Ctx, req_id: Id, target: Addr, req: Req) -> (result: Result<
        (Resp, Ctx),
        E,
    >) {
        match self.transactions.pop_front() {
            Some(Muxed::Request(expected)) => {
                match Self::compare_request(&expected, &ctx, &target, &req) {
                    Ok(()) => expected.resp,
                    Err(_) => unreached(),
                }
            },
            _ => unreached(),
        }
    }

    /// Make a response. The response is compared with the next
    /// expectation, which it must meet.
    fn respond(&mut self, ctx: Ctx, req_id: Id, target: Addr, resp: Resp) -> (result: Result<
        (),
        E,
    >) {
        match self.transactions.pop_front() {
            Some(Muxed::Response(expected)) => {
                match Self::compare_response(&expected, &ctx, &target, &resp) {
                    Ok(()) => match expected.err {
                        Some(e) => Err(e),
                        None => Ok(()),
                    },
                    Err(_) => unreached(),
                }
            },
            _ => unreached(),
        }
    }
}

} // verus!
