use crate::connector::Connector;
use crate::error::ConnectorError;
use crate::muxed::Muxed;
use std::marker::PhantomData;
use vstd::prelude::*;

verus! {

/// A pure strategy that converts envelopes between two schemas: the
/// mapped one, which callers of a [`Mapped`] adapter speak, and the base
/// one, which the wrapped connector speaks.
pub trait Mapper {
    type Original;

    type Mapped;

    /// Convert an envelope on its way to the wrapped connector.
    fn outgoing(&self, m: Self::Mapped) -> (o: Self::Original);

    /// Convert an envelope on its way back from the wrapped connector.
    fn incoming(&self, o: Self::Original) -> (m: Self::Mapped);
}

/// Whether `mapper.outgoing(m)` may return `o`.
pub open spec fn maps_out<M: Mapper>(mapper: M, m: M::Mapped, o: M::Original) -> bool {
    call_ensures(M::outgoing, (&mapper, m), o)
}

/// Whether `mapper.incoming(o)` may return `m`.
pub open spec fn maps_in<M: Mapper>(mapper: M, o: M::Original, m: M::Mapped) -> bool {
    call_ensures(M::incoming, (&mapper, o), m)
}

/// The base request that stands for an outgoing envelope, which must be a
/// request.
pub open spec fn request_sent<BaseReq, BaseResp, E>(sent: Muxed<BaseReq, BaseResp>) -> Result<
    BaseReq,
    ConnectorError<E>,
> {
    match sent {
        Muxed::Request(base) => Ok(base),
        Muxed::Response(_) => Err(ConnectorError::Mismatched),
    }
}

/// The base response that stands for an outgoing envelope, which must be a
/// response.
pub open spec fn response_sent<BaseReq, BaseResp, E>(sent: Muxed<BaseReq, BaseResp>) -> Result<
    BaseResp,
    ConnectorError<E>,
> {
    match sent {
        Muxed::Response(base) => Ok(base),
        Muxed::Request(_) => Err(ConnectorError::Mismatched),
    }
}

/// The mapped caller's result for a response that came back as `back`,
/// which must be a response, with the context `ctx`.
pub open spec fn response_received<MappedReq, MappedResp, E, Ctx>(
    back: Muxed<MappedReq, MappedResp>,
    ctx: Ctx,
) -> Result<(MappedResp, Ctx), ConnectorError<E>> {
    match back {
        Muxed::Response(mapped) => Ok((mapped, ctx)),
        Muxed::Request(_) => Err(ConnectorError::Mismatched),
    }
}

/// Whether `result` is what a mapped caller may get for `outcome`, an
/// outcome of the wrapped connector's `request`: the response mapped back
/// with its context untouched, a transport error unchanged, or `Mismatched`
/// where the mapper turned the response into a request.
pub open spec fn concluded<M, BaseReq, BaseResp, MappedReq, MappedResp, E, Ctx>(
    mapper: M,
    outcome: Result<(BaseResp, Ctx), E>,
    result: Result<(MappedResp, Ctx), ConnectorError<E>>,
) -> bool where
    M: Mapper<Original = Muxed<BaseReq, BaseResp>, Mapped = Muxed<MappedReq, MappedResp>>,
 {
    match outcome {
        Ok((resp, ctx)) => exists|back: Muxed<MappedReq, MappedResp>|
            {
                &&& #[trigger] maps_in(mapper, Muxed::Response(resp), back)
                &&& result == response_received::<MappedReq, MappedResp, E, Ctx>(back, ctx)
            },
        Err(e) => result == Err::<(MappedResp, Ctx), ConnectorError<E>>(
            ConnectorError::Transport(e),
        ),
    }
}

/// What a mapped caller gets for an outcome of the wrapped connector's
/// `respond`: success, or the transport error unchanged.
pub open spec fn acknowledged<E>(outcome: Result<(), E>) -> Result<(), ConnectorError<E>> {
    match outcome {
        Ok(()) => Ok(()),
        Err(e) => Err(ConnectorError::Transport(e)),
    }
}

/// Map a request towards the wrapped connector. Fails with `Mismatched`
/// exactly when the mapper answers with a response.
pub fn map_request<M, BaseReq, BaseResp, MappedReq, MappedResp, E>(mapper: &M, req: MappedReq) -> (r:
    Result<BaseReq, ConnectorError<E>>) where
    M: Mapper<Original = Muxed<BaseReq, BaseResp>, Mapped = Muxed<MappedReq, MappedResp>>,

    ensures
        exists|sent: Muxed<BaseReq, BaseResp>|
            {
                &&& #[trigger] maps_out(*mapper, Muxed::Request(req), sent)
                &&& r == request_sent::<BaseReq, BaseResp, E>(sent)
            },
{
    let sent = mapper.outgoing(Muxed::Request(req));
    assert(maps_out(*mapper, Muxed::Request(req), sent));
    match sent {
        Muxed::Request(base) => Ok(base),
        Muxed::Response(_) => Err(ConnectorError::Mismatched),
    }
}

/// Map a response towards the wrapped connector. Fails with `Mismatched`
/// exactly when the mapper answers with a request.
pub fn map_response<M, BaseReq, BaseResp, MappedReq, MappedResp, E>(
    mapper: &M,
    resp: MappedResp,
) -> (r: Result<BaseResp, ConnectorError<E>>) where
    M: Mapper<Original = Muxed<BaseReq, BaseResp>, Mapped = Muxed<MappedReq, MappedResp>>,

    ensures
        exists|sent: Muxed<BaseReq, BaseResp>|
            {
                &&& #[trigger] maps_out(*mapper, Muxed::Response(resp), sent)
                &&& r == response_sent::<BaseReq, BaseResp, E>(sent)
            },
{
    let sent = mapper.outgoing(Muxed::Response(resp));
    assert(maps_out(*mapper, Muxed::Response(resp), sent));
    match sent {
        Muxed::Response(base) => Ok(base),
        Muxed::Request(_) => Err(ConnectorError::Mismatched),
    }
}

/// Turn the outcome of the wrapped connector's `request` into the mapped
/// caller's result.
pub fn conclude<M, BaseReq, BaseResp, MappedReq, MappedResp, E, Ctx>(
    mapper: &M,
    outcome: Result<(BaseResp, Ctx), E>,
) -> (r: Result<(MappedResp, Ctx), ConnectorError<E>>) where
    M: Mapper<Original = Muxed<BaseReq, BaseResp>, Mapped = Muxed<MappedReq, MappedResp>>,

    ensures
        concluded(*mapper, outcome, r),
{
    match outcome {
        Ok((resp, ctx)) => {
            let back = mapper.incoming(Muxed::Response(resp));
            assert(maps_in(*mapper, Muxed::Response(resp), back));
            match back {
                Muxed::Response(mapped) => Ok((mapped, ctx)),
                Muxed::Request(_) => Err(ConnectorError::Mismatched),
            }
        },
        Err(e) => Err(ConnectorError::Transport(e)),
    }
}

/// Turn the outcome of the wrapped connector's `respond` into the mapped
/// caller's result.
pub fn acknowledge<E>(outcome: Result<(), E>) -> (r: Result<(), ConnectorError<E>>)
    ensures
        r == acknowledged(outcome),
{
    match outcome {
        Ok(()) => Ok(()),
        Err(e) => Err(ConnectorError::Transport(e)),
    }
}

/// Wraps a connector and re-exposes it under another pair of payload types.
/// The adapter keeps no correlation state of its own.
pub struct Mapped<BaseReq, BaseResp, MappedReq, MappedResp, ReqId, Target, E, Ctx, Conn, M> {
    conn: Conn,
    mapper: M,
    _req_id: PhantomData<ReqId>,
    _target: PhantomData<Target>,
    _base_req: PhantomData<BaseReq>,
    _base_resp: PhantomData<BaseResp>,
    _mapped_req: PhantomData<MappedReq>,
    _mapped_resp: PhantomData<MappedResp>,
    _err: PhantomData<E>,
    _ctx: PhantomData<Ctx>,
}

impl<BaseReq, BaseResp, MappedReq, MappedResp, ReqId, Target, E, Ctx, Conn, M> Mapped<
    BaseReq,
    BaseResp,
    MappedReq,
    MappedResp,
    ReqId,
    Target,
    E,
    Ctx,
    Conn,
    M,
> where
    Conn: Connector<ReqId, Target, BaseReq, BaseResp, E, Ctx>,
    M: Mapper<Original = Muxed<BaseReq, BaseResp>, Mapped = Muxed<MappedReq, MappedResp>>,
 {
    /// The wrapped connector.
    pub closed spec fn base(&self) -> Conn {
        self.conn
    }

    /// The mapper in use.
    pub closed spec fn mapping(&self) -> M {
        self.mapper
    }

    /// Wrap `conn`, converting with `mapper`.
    pub fn new(conn: Conn, mapper: M) -> (mapped: Self)
        ensures
            mapped.base() == conn,
            mapped.mapping() == mapper,
    {
        Mapped {
            conn,
            mapper,
            _req_id: PhantomData,
            _target: PhantomData,
            _base_req: PhantomData,
            _base_resp: PhantomData,
            _mapped_req: PhantomData,
            _mapped_resp: PhantomData,
            _err: PhantomData,
            _ctx: PhantomData,
        }
    }

    /// Take the adapter apart again.
    pub fn into_inner(self) -> (parts: (Conn, M))
        ensures
            parts.0 == self.base(),
            parts.1 == self.mapping(),
    {
        (self.conn, self.mapper)
    }
}

impl<BaseReq, BaseResp, MappedReq, MappedResp, ReqId, Target, E, Ctx, Conn, M> Connector<
    ReqId,
    Target,
    MappedReq,
    MappedResp,
    ConnectorError<E>,
    Ctx,
> for Mapped<BaseReq, BaseResp, MappedReq, MappedResp, ReqId, Target, E, Ctx, Conn, M> where
    Conn: Connector<ReqId, Target, BaseReq, BaseResp, E, Ctx>,
    M: Mapper<Original = Muxed<BaseReq, BaseResp>, Mapped = Muxed<MappedReq, MappedResp>>,
 {
    /// A request may be made where the wrapped connector accepts whatever
    /// base request the mapper may turn it into.
    open spec fn accepts_request(
        &self,
        ctx: Ctx,
        req_id: ReqId,
        target: Target,
        req: MappedReq,
    ) -> bool {
        forall|sent: Muxed<BaseReq, BaseResp>| #[trigger]
            maps_out(self.mapping(), Muxed::Request(req), sent) ==> match sent {
                Muxed::Request(base) => self.base().accepts_request(ctx, req_id, target, base),
                Muxed::Response(_) => true,
            }
    }

    /// A response may be made where the wrapped connector accepts whatever
    /// base response the mapper may turn it into.
    open spec fn accepts_response(
        &self,
        ctx: Ctx,
        req_id: ReqId,
        target: Target,
        resp: MappedResp,
    ) -> bool {
        forall|sent: Muxed<BaseReq, BaseResp>| #[trigger]
            maps_out(self.mapping(), Muxed::Response(resp), sent) ==> match sent {
                Muxed::Response(base) => self.base().accepts_response(ctx, req_id, target, base),
                Muxed::Request(_) => true,
            }
    }

    /// The mapper never changes. A request that the mapper keeps a request
    /// reaches the wrapped connector as that base request, and the result is
    /// the connector's outcome mapped back. One that the mapper turns into a
    /// response never reaches the connector and fails with `Mismatched`.
    open spec fn requested(
        &self,
        ctx: Ctx,
        req_id: ReqId,
        target: Target,
        req: MappedReq,
        after: &Self,
        result: Result<(MappedResp, Ctx), ConnectorError<E>>,
    ) -> bool {
        &&& after.mapping() == self.mapping()
        &&& exists|sent: Muxed<BaseReq, BaseResp>|
            {
                &&& #[trigger] maps_out(self.mapping(), Muxed::Request(req), sent)
                &&& match sent {
                    Muxed::Request(base) => exists|outcome: Result<(BaseResp, Ctx), E>|
                        {
                            &&& #[trigger] self.base().requested(
                                ctx,
                                req_id,
                                target,
                                base,
                                &after.base(),
                                outcome,
                            )
                            &&& concluded(self.mapping(), outcome, result)
                        },
                    Muxed::Response(_) => {
                        &&& after.base() == self.base()
                        &&& result == Err::<(MappedResp, Ctx), ConnectorError<E>>(
                            ConnectorError::Mismatched,
                        )
                    },
                }
            }
    }

    /// As for `requested`, with only the outgoing direction to map: a
    /// response that the mapper keeps a response reaches the wrapped
    /// connector, whose error, if any, comes back unchanged.
    open spec fn responded(
        &self,
        ctx: Ctx,
        req_id: ReqId,
        target: Target,
        resp: MappedResp,
        after: &Self,
        result: Result<(), ConnectorError<E>>,
    ) -> bool {
        &&& after.mapping() == self.mapping()
        &&& exists|sent: Muxed<BaseReq, BaseResp>|
            {
                &&& #[trigger] maps_out(self.mapping(), Muxed::Response(resp), sent)
                &&& match sent {
                    Muxed::Response(base) => exists|outcome: Result<(), E>|
                        {
                            &&& #[trigger] self.base().responded(
                                ctx,
                                req_id,
                                target,
                                base,
                                &after.base(),
                                outcome,
                            )
                            &&& result == acknowledged(outcome)
                        },
                    Muxed::Request(_) => {
                        &&& after.base() == self.base()
                        &&& result == Err::<(), ConnectorError<E>>(ConnectorError::Mismatched)
                    },
                }
            }
    }

    /// Map the request out, send it through the wrapped connector, and map
    /// the response back.
    fn request(&mut self, ctx: Ctx, req_id: ReqId, target: Target, req: MappedReq) -> (result:
        Result<(MappedResp, Ctx), ConnectorError<E>>) {
        let sent = self.mapper.outgoing(Muxed::Request(req));
        assert(maps_out(self.mapping(), Muxed::Request(req), sent));
        match sent {
            Muxed::Request(base) => {
                let outcome = self.conn.request(ctx, req_id, target, base);
                let result = conclude(&self.mapper, outcome);
                assert(old(self).base().requested(
                    ctx,
                    req_id,
                    target,
                    base,
                    &self.base(),
                    outcome,
                ));
                result
            },
            Muxed::Response(_) => Err(ConnectorError::Mismatched),
        }
    }

    /// Map the response out and send it through the wrapped connector.
    fn respond(&mut self, ctx: Ctx, req_id: ReqId, target: Target, resp: MappedResp) -> (result:
        Result<(), ConnectorError<E>>) {
        let sent = self.mapper.outgoing(Muxed::Response(resp));
        assert(maps_out(self.mapping(), Muxed::Response(resp), sent));
        match sent {
            Muxed::Response(base) => {
                let outcome = self.conn.respond(ctx, req_id, target, base);
                let result = acknowledge(outcome);
                assert(old(self).base().responded(
                    ctx,
                    req_id,
                    target,
                    base,
                    &self.base(),
                    outcome,
                ));
                result
            },
            Muxed::Request(_) => Err(ConnectorError::Mismatched),
        }
    }
}

impl<Base, Payload, ReqId, Target, E, Ctx, Conn, M> Mapped<
    Base,
    Base,
    Payload,
    Payload,
    ReqId,
    Target,
    E,
    Ctx,
    Conn,
    M,
> where
    Conn: Connector<ReqId, Target, Base, Base, E, Ctx>,
    M: Mapper<Original = Muxed<Base, Base>, Mapped = Muxed<Payload, Payload>>,
 {
    /// Whether the mapper sends the request `payload` out as a request and
    /// maps that base payload, coming back as a response, to `payload`
    /// again.
    pub open spec fn inverts(mapper: M, payload: Payload) -> bool {
        &&& forall|sent: Muxed<Base, Base>| #[trigger]
            maps_out(mapper, Muxed::Request(payload), sent) ==> sent is Request
        &&& forall|base: Base, back: Muxed<Payload, Payload>|
            maps_out(mapper, Muxed::Request(payload), Muxed::Request(base)) && #[trigger] maps_in(
                mapper,
                Muxed::Response(base),
                back,
            ) ==> back == Muxed::<Payload, Payload>::Response(payload)
    }

    /// Whether the wrapped connector answers every request with the
    /// request's own payload and the context it was given.
    pub open spec fn echoes(conn: Conn, ctx: Ctx, req_id: ReqId, target: Target) -> bool {
        forall|base: Base, after: Conn, outcome: Result<(Base, Ctx), E>| #[trigger]
            conn.requested(ctx, req_id, target, base, &after, outcome) ==> outcome == Ok::<
                (Base, Ctx),
                E,
            >((base, ctx))
    }

    /// Round trip: over a connector that echoes each request as its
    /// response, and with a mapper that maps a payload out and back to
    /// itself, a request through the adapter resolves to the payload that
    /// was sent, with its context. The adapter adds nothing of its own.
    pub proof fn lemma_round_trip(
        before: Self,
        after: Self,
        ctx: Ctx,
        req_id: ReqId,
        target: Target,
        payload: Payload,
        result: Result<(Payload, Ctx), ConnectorError<E>>,
    )
        requires
            Self::inverts(before.mapping(), payload),
            Self::echoes(before.base(), ctx, req_id, target),
            before.requested(ctx, req_id, target, payload, &after, result),
        ensures
            result == Ok::<(Payload, Ctx), ConnectorError<E>>((payload, ctx)),
    {
        let mapper = before.mapping();
        let sent = choose|sent: Muxed<Base, Base>|
            {
                &&& #[trigger] maps_out(mapper, Muxed::Request(payload), sent)
                &&& match sent {
                    Muxed::Request(base) => exists|outcome: Result<(Base, Ctx), E>|
                        {
                            &&& #[trigger] before.base().requested(
                                ctx,
                                req_id,
                                target,
                                base,
                                &after.base(),
                                outcome,
                            )
                            &&& concluded(mapper, outcome, result)
                        },
                    Muxed::Response(_) => {
                        &&& after.base() == before.base()
                        &&& result == Err::<(Payload, Ctx), ConnectorError<E>>(
                            ConnectorError::Mismatched,
                        )
                    },
                }
            };
        assert(sent is Request);
        let base = sent->Request_0;
        let outcome = choose|outcome: Result<(Base, Ctx), E>|
            {
                &&& #[trigger] before.base().requested(
                    ctx,
                    req_id,
                    target,
                    base,
                    &after.base(),
                    outcome,
                )
                &&& concluded(mapper, outcome, result)
            };
        assert(outcome == Ok::<(Base, Ctx), E>((base, ctx)));
        let back = choose|back: Muxed<Payload, Payload>|
            {
                &&& #[trigger] maps_in(mapper, Muxed::Response(base), back)
                &&& result == response_received::<Payload, Payload, E, Ctx>(back, ctx)
            };
        assert(back == Muxed::<Payload, Payload>::Response(payload));
    }
}

} // verus!
