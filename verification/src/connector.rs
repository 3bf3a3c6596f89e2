use vstd::prelude::*;

verus! {

/// The capability contract of the layer: send a request and obtain its
/// response, or send a response to a request received earlier.
///
/// `ReqId` associates requests with responses, `Target` is an address,
/// `Req` and `Resp` are the payloads, `E` is the implementation's error and
/// `Ctx` is a context value threaded through every call.
pub trait Connector<ReqId, Target, Req, Resp, E, Ctx> {
    /// Whether `request` may be called with these arguments. An
    /// implementation that takes every call says nothing here.
    open spec fn accepts_request(&self, ctx: Ctx, req_id: ReqId, target: Target, req: Req) -> bool {
        true
    }

    /// Whether `respond` may be called with these arguments. An
    /// implementation that takes every call says nothing here.
    open spec fn accepts_response(
        &self,
        ctx: Ctx,
        req_id: ReqId,
        target: Target,
        resp: Resp,
    ) -> bool {
        true
    }

    /// Whether a call of `request` with these arguments may leave the
    /// connector as `after` and return `result`. An implementation says
    /// here what its `request` does; one that says nothing allows anything.
    open spec fn requested(
        &self,
        ctx: Ctx,
        req_id: ReqId,
        target: Target,
        req: Req,
        after: &Self,
        result: Result<(Resp, Ctx), E>,
    ) -> bool {
        true
    }

    /// Whether a call of `respond` with these arguments may leave the
    /// connector as `after` and return `result`. An implementation says
    /// here what its `respond` does; one that says nothing allows anything.
    open spec fn responded(
        &self,
        ctx: Ctx,
        req_id: ReqId,
        target: Target,
        resp: Resp,
        after: &Self,
        result: Result<(), E>,
    ) -> bool {
        true
    }

    /// Send a request and receive the response with its context, or an error.
    fn request(&mut self, ctx: Ctx, req_id: ReqId, target: Target, req: Req) -> (result: Result<
        (Resp, Ctx),
        E,
    >)
        requires
            old(self).accepts_request(ctx, req_id, target, req),
        ensures
            old(self).requested(ctx, req_id, target, req, final(self), result),
    ;

    /// Send a response message.
    fn respond(&mut self, ctx: Ctx, req_id: ReqId, target: Target, resp: Resp) -> (result: Result<
        (),
        E,
    >)
        requires
            old(self).accepts_response(ctx, req_id, target, resp),
        ensures
            old(self).responded(ctx, req_id, target, resp, final(self), result),
    ;
}

} // verus!
