use crate::completion::{completion_pair, fulfil};
use crate::error::ConnectorError;
use futures::channel::oneshot::{Canceled, Receiver, Sender};
use std::collections::HashMap;
use std::collections::VecDeque;
use std::hash::Hash;
use std::marker::PhantomData;
use vstd::prelude::*;
use vstd::std_specs::hash::obeys_key_model;

verus! {

broadcast use {
    vstd::std_specs::hash::group_hash_axioms,
    vstd::std_specs::vecdeque::group_vec_dequeue_axioms,
};

/// The mathematical state of an interconnect.
#[verifier::reject_recursive_types(ReqId)]
#[verifier::reject_recursive_types(Target)]
#[verifier::reject_recursive_types(Resp)]
pub struct WireState<ReqId, Target, Req, Resp> {
    /// For each registered address, the requests that have reached it and
    /// that its endpoint has not taken yet, oldest first, each with the
    /// address it came from and its identifier.
    pub inboxes: Map<Target, Seq<(Target, ReqId, Req)>>,
    /// The completion handle of each outstanding request, keyed by the
    /// address it was sent to, the address it came from and its identifier.
    pub pending: Map<(Target, Target, ReqId), Sender<Resp>>,
}

impl<ReqId, Target, Req, Resp> WireState<ReqId, Target, Req, Resp> {
    /// An interconnect with no endpoint and no request.
    pub open spec fn empty() -> Self {
        WireState { inboxes: Map::empty(), pending: Map::empty() }
    }

    /// The state once an endpoint is registered under `addr`, with an empty
    /// inbox.
    pub open spec fn connected(self, addr: Target) -> Self {
        WireState { inboxes: self.inboxes.insert(addr, Seq::empty()), ..self }
    }

    /// The state once the request `id` from `from` has been accepted for
    /// `to`, with `tx` as its completion handle.
    pub open spec fn forwarded(
        self,
        to: Target,
        from: Target,
        id: ReqId,
        req: Req,
        tx: Sender<Resp>,
    ) -> Self {
        WireState {
            inboxes: self.inboxes.insert(to, self.inboxes[to].push((from, id, req))),
            pending: self.pending.insert((to, from, id), tx),
        }
    }

    /// The state once the endpoint `addr` has taken its oldest request.
    pub open spec fn taken(self, addr: Target) -> Self {
        WireState { inboxes: self.inboxes.insert(addr, self.inboxes[addr].drop_first()), ..self }
    }

    /// The state once the request `id` that `requester` sent to
    /// `responder` is no longer outstanding.
    pub open spec fn answered(self, responder: Target, requester: Target, id: ReqId) -> Self {
        WireState { pending: self.pending.remove((responder, requester, id)), ..self }
    }
}

/// An in-memory interconnect: a registry of endpoints by address, through
/// which peers in one process exchange requests and responses.
#[verifier::reject_recursive_types(ReqId)]
#[verifier::reject_recursive_types(Target)]
#[verifier::reject_recursive_types(Resp)]
pub struct Wire<ReqId, Target, Req, Resp, E, Ctx> {
    /// The inbox of each registered address.
    connectors: HashMap<Target, VecDeque<(Target, ReqId, Req)>>,
    /// The outstanding requests, by responder, then requester, then
    /// identifier: nested, so that only addresses and identifiers have to
    /// be fit to key a hash table, not triples of them.
    requests: HashMap<Target, HashMap<Target, HashMap<ReqId, Sender<Resp>>>>,
    _e: PhantomData<E>,
    _ctx: PhantomData<Ctx>,
}

/// An endpoint of an interconnect. It holds only its address: the
/// interconnect owns the inbox and the outstanding requests.
pub struct WireMux<ReqId, Target, Req, Resp, E, Ctx> {
    addr: Target,
    _id: PhantomData<ReqId>,
    _req: PhantomData<Req>,
    _resp: PhantomData<Resp>,
    _e: PhantomData<E>,
    _ctx: PhantomData<Ctx>,
}

/// The completion handle stored for a request, if there is one.
pub open spec fn stored<ReqId, Target, Resp>(
    requests: Map<Target, HashMap<Target, HashMap<ReqId, Sender<Resp>>>>,
    key: (Target, Target, ReqId),
) -> Option<Sender<Resp>> {
    if requests.contains_key(key.0) && requests[key.0]@.contains_key(key.1) && requests[key.0]@[key.1]@.contains_key(
        key.2,
    ) {
        Some(requests[key.0]@[key.1]@[key.2])
    } else {
        None
    }
}

impl<ReqId, Target, Req, Resp, E, Ctx> View for Wire<ReqId, Target, Req, Resp, E, Ctx> {
    type V = WireState<ReqId, Target, Req, Resp>;

    closed spec fn view(&self) -> Self::V {
        WireState {
            inboxes: Map::new(
                |addr: Target| self.connectors@.contains_key(addr),
                |addr: Target| self.connectors@[addr]@,
            ),
            pending: Map::new(
                |key: (Target, Target, ReqId)| stored(self.requests@, key) is Some,
                |key: (Target, Target, ReqId)| stored(self.requests@, key)->Some_0,
            ),
        }
    }
}

impl<ReqId, Target, Req, Resp, E, Ctx> Wire<ReqId, Target, Req, Resp, E, Ctx> where
    ReqId: Eq + Hash + Copy,
    Target: Eq + Hash + Copy,
 {
    /// The invariant of an interconnect: addresses and identifiers can key
    /// a hash table.
    pub open spec fn wf(&self) -> bool {
        &&& obeys_key_model::<ReqId>()
        &&& obeys_key_model::<Target>()
    }

    /// Create a new interconnect, with no endpoint.
    pub fn new() -> (wire: Self)
        requires
            obeys_key_model::<ReqId>(),
            obeys_key_model::<Target>(),
        ensures
            wire.wf(),
            wire@ == WireState::<ReqId, Target, Req, Resp>::empty(),
    {
        let wire = Wire {
            connectors: HashMap::new(),
            requests: HashMap::new(),
            _e: PhantomData,
            _ctx: PhantomData,
        };
        assert(wire@.inboxes =~= Map::empty());
        assert(wire@.pending =~= Map::empty());
        wire
    }

    /// Create the endpoint for the address `target`. Its inbox starts
    /// empty; an endpoint registered earlier under the same address is
    /// replaced. Outstanding requests are not touched.
    pub fn connector(&mut self, target: Target) -> (endpoint: WireMux<
        ReqId,
        Target,
        Req,
        Resp,
        E,
        Ctx,
    >)
        requires
            old(self).wf(),
        ensures
            final(self).wf(),
            final(self)@ == old(self)@.connected(target),
            endpoint.addr() == target,
    {
        self.connectors.insert(target, VecDeque::new());
        assert(self@.inboxes =~= old(self)@.inboxes.insert(target, Seq::empty()));
        WireMux {
            addr: target,
            _id: PhantomData,
            _req: PhantomData,
            _resp: PhantomData,
            _e: PhantomData,
            _ctx: PhantomData,
        }
    }

    /// Whether an endpoint is registered under `addr`.
    pub fn is_connected(&self, addr: &Target) -> (r: bool)
        requires
            self.wf(),
        ensures
            r == self@.inboxes.contains_key(*addr),
    {
        self.connectors.contains_key(addr)
    }

    /// Whether the request `id` from `requester` to `responder` is
    /// outstanding.
    pub fn is_pending(&self, responder: &Target, requester: &Target, id: &ReqId) -> (r: bool)
        requires
            self.wf(),
        ensures
            r == self@.pending.contains_key((*responder, *requester, *id)),
    {
        match self.requests.get(responder) {
            Some(by_requester) => match by_requester.get(requester) {
                Some(by_id) => by_id.contains_key(id),
                None => false,
            },
            None => false,
        }
    }

    /// Install `tx` as the completion handle of the request `id` from
    /// `from` to `to`.
    fn register(&mut self, to: Target, from: Target, id: ReqId, tx: Sender<Resp>)
        requires
            old(self).wf(),
        ensures
            final(self).wf(),
            final(self)@.inboxes == old(self)@.inboxes,
            final(self)@.pending == old(self)@.pending.insert((to, from, id), tx),
    {
        let mut by_requester = match self.requests.remove(&to) {
            Some(found) => found,
            None => HashMap::new(),
        };
        let mut by_id = match by_requester.remove(&from) {
            Some(found) => found,
            None => HashMap::new(),
        };
        by_id.insert(id, tx);
        by_requester.insert(from, by_id);
        self.requests.insert(to, by_requester);
        proof {
            assert forall|key: (Target, Target, ReqId)|
                stored(self.requests@, key) == if key == (to, from, id) {
                    Some(tx)
                } else {
                    stored(old(self).requests@, key)
                } by {}
            assert(self@.pending =~= old(self)@.pending.insert((to, from, id), tx));
        }
    }

    /// Remove and return the completion handle of the request `id` from
    /// `requester` to `responder`, if that request is outstanding. No other
    /// request is touched.
    pub fn claim(&mut self, responder: Target, requester: Target, id: ReqId) -> (r: Option<
        Sender<Resp>,
    >)
        requires
            old(self).wf(),
        ensures
            final(self).wf(),
            final(self)@ == old(self)@.answered(responder, requester, id),
            r == if old(self)@.pending.contains_key((responder, requester, id)) {
                Some(old(self)@.pending[(responder, requester, id)])
            } else {
                None
            },
    {
        let mut by_requester = match self.requests.remove(&responder) {
            Some(found) => found,
            None => HashMap::new(),
        };
        let mut by_id = match by_requester.remove(&requester) {
            Some(found) => found,
            None => HashMap::new(),
        };
        let r = by_id.remove(&id);
        by_requester.insert(requester, by_id);
        self.requests.insert(responder, by_requester);
        proof {
            assert forall|key: (Target, Target, ReqId)|
                stored(self.requests@, key) == if key == (responder, requester, id) {
                    None
                } else {
                    stored(old(self).requests@, key)
                } by {}
            assert(self@.pending =~= old(self)@.pending.remove((responder, requester, id)));
            assert(self@.inboxes =~= old(self)@.inboxes);
        }
        r
    }

    /// Append a request to the inbox of the endpoint `to`.
    fn deliver(&mut self, to: Target, from: Target, id: ReqId, req: Req)
        requires
            old(self).wf(),
            old(self)@.inboxes.contains_key(to),
        ensures
            final(self).wf(),
            final(self)@.pending == old(self)@.pending,
            final(self)@.inboxes == old(self)@.inboxes.insert(
                to,
                old(self)@.inboxes[to].push((from, id, req)),
            ),
    {
        let mut inbox = match self.connectors.remove(&to) {
            Some(found) => found,
            None => VecDeque::new(),
        };
        inbox.push_back((from, id, req));
        self.connectors.insert(to, inbox);
        proof {
            assert(self@.inboxes =~= old(self)@.inboxes.insert(
                to,
                old(self)@.inboxes[to].push((from, id, req)),
            ));
            assert(self@.pending =~= old(self)@.pending);
        }
    }

    /// Send the request `id` from `from` to the endpoint `to`.
    ///
    /// Succeeds exactly when an endpoint is registered under `to` and no
    /// request with the same addresses and identifier is outstanding: a
    /// fresh completion handle is installed, `(from, id, req)` joins the end
    /// of the inbox of `to`, and the receiver of the response is returned.
    /// Otherwise nothing changes, and the error is `Unroutable` for an
    /// unknown address and `DuplicateId` for a request that is outstanding.
    fn request(&mut self, _ctx: Ctx, to: Target, from: Target, id: ReqId, req: Req) -> (r: Result<
        Receiver<Resp>,
        ConnectorError<E>,
    >)
        requires
            old(self).wf(),
        ensures
            final(self).wf(),
            r is Ok <==> old(self)@.inboxes.contains_key(to) && !old(self)@.pending.contains_key(
                (to, from, id),
            ),
            r is Ok ==> final(self)@.pending.contains_key((to, from, id)) && final(self)@ == old(self)@.forwarded(to, from, id, req, final(self)@.pending[(to, from, id)]),
            r is Err ==> final(self)@ == old(self)@,
            r matches Err(e) ==> e == if !old(self)@.inboxes.contains_key(to) {
                ConnectorError::<E>::Unroutable
            } else {
                ConnectorError::<E>::DuplicateId
            },
    {
        if !self.is_connected(&to) {
            return Err(ConnectorError::Unroutable);
        }
        if self.is_pending(&to, &from, &id) {
            return Err(ConnectorError::DuplicateId);
        }
        let (tx, rx) = completion_pair();
        self.register(to, from, id, tx);
        self.deliver(to, from, id, req);
        Ok(rx)
    }

    /// What a waiting requester gets for what its receiver yielded: the
    /// response where there is one, and `Cancelled` where the completion
    /// handle was dropped unused. An interconnect is never shut down.
    pub fn resolve(received: Result<Resp, Canceled>) -> (r: Result<Resp, ConnectorError<E>>)
        ensures
            r == match received {
                Ok(resp) => Ok::<Resp, ConnectorError<E>>(resp),
                Err(_) => Err(ConnectorError::Cancelled),
            },
    {
        ConnectorError::resolve(received, false)
    }

    /// Answer, from the endpoint `from`, the request `id` that the endpoint
    /// `to` sent to it.
    ///
    /// Where that request is outstanding, its entry is removed and its
    /// completion handle, the one that `claim` returns, is fulfilled with
    /// `resp`; the only error is then `ReceiverGone`. Where it is not,
    /// nothing changes and the error is `NotPending`.
    fn respond(&mut self, _ctx: Ctx, to: Target, from: Target, id: ReqId, resp: Resp) -> (r:
        Result<(), ConnectorError<E>>)
        requires
            old(self).wf(),
        ensures
            final(self).wf(),
            final(self)@ == old(self)@.answered(from, to, id),
            !old(self)@.pending.contains_key((from, to, id)) ==> r == Err::<(), ConnectorError<E>>(
                ConnectorError::NotPending,
            ),
            old(self)@.pending.contains_key((from, to, id)) ==> r == Ok::<(), ConnectorError<E>>(())
                || r == Err::<(), ConnectorError<E>>(ConnectorError::ReceiverGone),
    {
        match self.claim(from, to, id) {
            Some(tx) => ConnectorError::delivered(fulfil(tx, resp)),
            None => Err(ConnectorError::NotPending),
        }
    }

    /// Take the oldest request from the inbox of `addr`, if there is one.
    fn take(&mut self, addr: Target) -> (r: Option<(Target, ReqId, Req)>)
        requires
            old(self).wf(),
        ensures
            final(self).wf(),
            r == if old(self)@.inboxes.contains_key(addr) && old(self)@.inboxes[addr].len() > 0 {
                Some(old(self)@.inboxes[addr][0])
            } else {
                None
            },
            final(self)@ == if old(self)@.inboxes.contains_key(addr) && old(self)@.inboxes[addr].len() > 0 {
                old(self)@.taken(addr)
            } else {
                old(self)@
            },
    {
        match self.connectors.remove(&addr) {
            Some(mut inbox) => {
                let r = inbox.pop_front();
                self.connectors.insert(addr, inbox);
                proof {
                    assert(self@.pending =~= old(self)@.pending);
                    if old(self)@.inboxes[addr].len() > 0 {
                        assert(self@.inboxes =~= old(self)@.inboxes.insert(
                            addr,
                            old(self)@.inboxes[addr].drop_first(),
                        ));
                    } else {
                        assert(self@.inboxes =~= old(self)@.inboxes);
                    }
                }
                r
            },
            None => {
                proof {
                    assert(self@.pending =~= old(self)@.pending);
                    assert(self@.inboxes =~= old(self)@.inboxes);
                }
                None
            },
        }
    }
}

impl<ReqId, Target, Req, Resp, E, Ctx> WireMux<ReqId, Target, Req, Resp, E, Ctx> where
    ReqId: Eq + Hash + Copy,
    Target: Eq + Hash + Copy,
 {
    /// The address of the endpoint.
    pub closed spec fn addr(&self) -> Target {
        self.addr
    }

    /// The address of the endpoint.
    pub fn address(&self) -> (addr: Target)
        ensures
            addr == self.addr(),
    {
        self.addr
    }

    /// Send a request from this endpoint to the endpoint `target`, and
    /// get the receiver on which the response will arrive.
    ///
    /// Succeeds exactly when `target` is registered and this endpoint has
    /// no request with the same identifier outstanding at `target`; the
    /// request then joins the end of the inbox of `target`. Otherwise
    /// nothing changes, and the error is `Unroutable` or `DuplicateId`.
    pub fn request(
        &self,
        wire: &mut Wire<ReqId, Target, Req, Resp, E, Ctx>,
        ctx: Ctx,
        req_id: ReqId,
        target: Target,
        req: Req,
    ) -> (r: Result<Receiver<Resp>, ConnectorError<E>>)
        requires
            old(wire).wf(),
        ensures
            final(wire).wf(),
            r is Ok <==> old(wire)@.inboxes.contains_key(target) && !old(wire)@.pending.contains_key((target, self.addr(), req_id)),
            r is Ok ==> final(wire)@.pending.contains_key((target, self.addr(), req_id)) && final(wire)@ == old(wire)@.forwarded(
                target,
                self.addr(),
                req_id,
                req,
                final(wire)@.pending[(target, self.addr(), req_id)],
            ),
            r is Err ==> final(wire)@ == old(wire)@,
            r matches Err(e) ==> e == if !old(wire)@.inboxes.contains_key(target) {
                ConnectorError::<E>::Unroutable
            } else {
                ConnectorError::<E>::DuplicateId
            },
    {
        wire.request(ctx, target, self.addr, req_id, req)
    }

    /// Respond, from this endpoint, to the request `req_id` that the
    /// endpoint `target` sent to it.
    ///
    /// Where that request is outstanding, its entry is removed and its
    /// completion handle is fulfilled with `resp`; the only error is then
    /// `ReceiverGone`. Where it is not, nothing changes and the error is
    /// `NotPending`.
    pub fn respond(
        &self,
        wire: &mut Wire<ReqId, Target, Req, Resp, E, Ctx>,
        ctx: Ctx,
        req_id: ReqId,
        target: Target,
        resp: Resp,
    ) -> (r: Result<(), ConnectorError<E>>)
        requires
            old(wire).wf(),
        ensures
            final(wire).wf(),
            final(wire)@ == old(wire)@.answered(self.addr(), target, req_id),
            !old(wire)@.pending.contains_key((self.addr(), target, req_id)) ==> r == Err::<
                (),
                ConnectorError<E>,
            >(ConnectorError::NotPending),
            old(wire)@.pending.contains_key((self.addr(), target, req_id)) ==> r == Ok::<
                (),
                ConnectorError<E>,
            >(()) || r == Err::<(), ConnectorError<E>>(ConnectorError::ReceiverGone),
    {
        wire.respond(ctx, target, self.addr, req_id, resp)
    }

    /// Take the oldest request that has reached this endpoint, with the
    /// address it came from and its identifier, if there is one.
    pub fn poll_next(&self, wire: &mut Wire<ReqId, Target, Req, Resp, E, Ctx>) -> (r: Option<
        (Target, ReqId, Req),
    >)
        requires
            old(wire).wf(),
        ensures
            final(wire).wf(),
            r == if old(wire)@.inboxes.contains_key(self.addr()) && old(wire)@.inboxes[self.addr()].len() > 0 {
                Some(old(wire)@.inboxes[self.addr()][0])
            } else {
                None
            },
            final(wire)@ == if old(wire)@.inboxes.contains_key(self.addr()) && old(wire)@.inboxes[self.addr()].len() > 0 {
                old(wire)@.taken(self.addr())
            } else {
                old(wire)@
            },
    {
        wire.take(self.addr)
    }
}

} // verus!
