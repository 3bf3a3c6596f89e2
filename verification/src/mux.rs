use crate::completion::{completion_pair, fulfil, try_receive};
use crate::correlation::{step, MuxEvent};
use crate::error::ConnectorError;
use crate::muxed::Muxed;
use futures::channel::oneshot::{Receiver, Sender};
use std::collections::HashMap;
use std::collections::VecDeque;
use std::hash::Hash;
use std::marker::PhantomData;
use vstd::prelude::*;
use vstd::std_specs::hash::obeys_key_model;

verus! {

broadcast use {
    vstd::std_specs::hash::group_hash_axioms,
    vstd::std_specs::vecdeque::group_vec_dequeue_axioms,
};

/// The largest number of orphan responses that a multiplexer counts; the
/// counter stays there once it is reached.
pub const ORPHAN_LIMIT: u64 = 0xffff_ffff_ffff_ffff;

/// The mathematical state of a multiplexer.
#[verifier::reject_recursive_types(ReqId)]
#[verifier::reject_recursive_types(Resp)]
#[verifier::reject_recursive_types(Ctx)]
pub struct MuxState<ReqId, Target, Req, Resp, Ctx> {
    /// The completion handle of each request that awaits its response.
    pub pending: Map<ReqId, Sender<(Resp, Ctx)>>,
    /// Accepted traffic that the transport driver has not taken yet, oldest
    /// first.
    pub outbound: Seq<(ReqId, Target, Muxed<Req, Resp>, Ctx)>,
    /// Whether the multiplexer has been shut down.
    pub closed: bool,
    /// How many responses arrived with no request pending for them.
    pub orphans: nat,
}

/// What is to be done with an inbound response.
#[verifier::reject_recursive_types(Resp)]
#[verifier::reject_recursive_types(Ctx)]
pub enum Dispatch<Resp, Ctx> {
    /// A request was pending: `to` is its completion handle, which is owed
    /// exactly `resp` and `ctx`.
    Deliver { to: Sender<(Resp, Ctx)>, resp: Resp, ctx: Ctx },
    /// No request was pending: the response is an orphan.
    Orphan { resp: Resp, ctx: Ctx },
}

impl<ReqId, Target, Req, Resp, Ctx> MuxState<ReqId, Target, Req, Resp, Ctx> {
    /// A fresh multiplexer: nothing pending, nothing queued, open.
    pub open spec fn empty() -> Self {
        MuxState { pending: Map::empty(), outbound: Seq::empty(), closed: false, orphans: 0 }
    }

    /// The state once `tx` is installed as the completion handle of `id`.
    pub open spec fn registered(self, id: ReqId, tx: Sender<(Resp, Ctx)>) -> Self {
        MuxState { pending: self.pending.insert(id, tx), ..self }
    }

    /// The state once `item` is appended to the outbound queue.
    pub open spec fn queued(self, item: (ReqId, Target, Muxed<Req, Resp>, Ctx)) -> Self {
        MuxState { outbound: self.outbound.push(item), ..self }
    }

    /// The state once the oldest outbound item is taken.
    pub open spec fn drained(self) -> Self {
        MuxState { outbound: self.outbound.drop_first(), ..self }
    }

    /// What a response for `id` leads to: delivery to the handle that is
    /// pending under `id`, or nothing where none is.
    pub open spec fn dispatch(self, id: ReqId, resp: Resp, ctx: Ctx) -> Dispatch<Resp, Ctx> {
        if self.pending.contains_key(id) {
            Dispatch::Deliver { to: self.pending[id], resp, ctx }
        } else {
            Dispatch::Orphan { resp, ctx }
        }
    }

    /// The state once a response for `id` has been dispatched: the entry,
    /// if there was one, is gone, and an orphan is counted otherwise.
    pub open spec fn dispatched(self, id: ReqId) -> Self {
        if self.pending.contains_key(id) {
            MuxState { pending: self.pending.remove(id), ..self }
        } else if self.orphans < ORPHAN_LIMIT {
            MuxState { orphans: self.orphans + 1, ..self }
        } else {
            self
        }
    }

    /// The state once the request pending under `id` is cancelled.
    pub open spec fn cancelled(self, id: ReqId) -> Self {
        MuxState { pending: self.pending.remove(id), ..self }
    }

    /// The state once the multiplexer is shut down: no request is pending
    /// any more, and what was queued stays for the driver to take.
    pub open spec fn shut(self) -> Self {
        MuxState { pending: Map::empty(), closed: true, ..self }
    }
}

/// A request/response multiplexer. It owns the table of pending requests
/// and the queue of outbound traffic; a transport driver drains the queue
/// with `poll_next` and feeds what arrives to `handle`.
#[verifier::reject_recursive_types(ReqId)]
#[verifier::reject_recursive_types(Resp)]
#[verifier::reject_recursive_types(Ctx)]
pub struct Mux<ReqId, Target, Req, Resp, E, Ctx> {
    /// The completion handle of each pending request.
    requests: HashMap<ReqId, Sender<(Resp, Ctx)>>,
    /// What was accepted for sending and not taken yet, oldest first. To
    /// push onto it never suspends; a caller that has to wait for the
    /// driver does so around the multiplexer, not in it.
    outbound: VecDeque<(ReqId, Target, Muxed<Req, Resp>, Ctx)>,
    /// Whether the multiplexer has been shut down.
    closed: bool,
    /// How many orphan responses have been seen, up to `ORPHAN_LIMIT`.
    orphans: u64,
    _err: PhantomData<E>,
}

impl<ReqId, Target, Req, Resp, E, Ctx> View for Mux<ReqId, Target, Req, Resp, E, Ctx> {
    type V = MuxState<ReqId, Target, Req, Resp, Ctx>;

    closed spec fn view(&self) -> Self::V {
        MuxState {
            pending: self.requests@,
            outbound: self.outbound@,
            closed: self.closed,
            orphans: self.orphans as nat,
        }
    }
}

impl<ReqId, Target, Req, Resp, E, Ctx> Mux<ReqId, Target, Req, Resp, E, Ctx> where
    ReqId: Eq + Hash + Copy,
 {
    /// The invariant of a multiplexer: identifiers can key a hash table,
    /// the orphan counter is within its limit, and a multiplexer that has
    /// been shut down has no request pending.
    pub open spec fn wf(&self) -> bool {
        &&& obeys_key_model::<ReqId>()
        &&& self@.pending.dom().finite()
        &&& self@.orphans <= ORPHAN_LIMIT
        &&& self@.closed ==> forall|id: ReqId| !self@.pending.contains_key(id)
    }

    /// Create a multiplexer with nothing pending and nothing queued.
    pub fn new() -> (mux: Self)
        requires
            obeys_key_model::<ReqId>(),
        ensures
            mux.wf(),
            mux@ == MuxState::<ReqId, Target, Req, Resp, Ctx>::empty(),
    {
        Mux {
            requests: HashMap::new(),
            outbound: VecDeque::new(),
            closed: false,
            orphans: 0,
            _err: PhantomData,
        }
    }

    /// Whether a request is pending under `id`.
    pub fn is_pending(&self, id: &ReqId) -> (r: bool)
        requires
            self.wf(),
        ensures
            r == self@.pending.contains_key(*id),
    {
        self.requests.contains_key(id)
    }

    /// Whether the multiplexer has been shut down.
    pub fn is_closed(&self) -> (r: bool)
        ensures
            r == self@.closed,
    {
        self.closed
    }

    /// How many orphan responses have been seen, up to `ORPHAN_LIMIT`.
    pub fn orphans(&self) -> (r: u64)
        ensures
            r == self@.orphans,
    {
        self.orphans
    }

    /// Register a request under `id` and queue it for sending.
    ///
    /// Succeeds exactly when the multiplexer is open and no request is
    /// pending under `id`: a fresh completion handle is then installed under
    /// `id`, `(id, addr, Request(req), ctx)` joins the end of the outbound
    /// queue, and the receiver on which the response will arrive is
    /// returned. Otherwise nothing changes, and the error is `Closed` for a
    /// multiplexer that was shut down and `DuplicateId` for an identifier
    /// that is still pending.
    pub fn request(&mut self, ctx: Ctx, id: ReqId, addr: Target, req: Req) -> (r: Result<
        Receiver<(Resp, Ctx)>,
        ConnectorError<E>,
    >)
        requires
            old(self).wf(),
        ensures
            final(self).wf(),
            r is Ok <==> !old(self)@.closed && !old(self)@.pending.contains_key(id),
            r is Ok ==> final(self)@.pending.contains_key(id) && final(self)@ == old(self)@.registered(id, final(self)@.pending[id]).queued(
                (id, addr, Muxed::Request(req), ctx),
            ),
            r is Err ==> final(self)@ == old(self)@,
            r matches Err(e) ==> e == if old(self)@.closed {
                ConnectorError::<E>::Closed
            } else {
                ConnectorError::<E>::DuplicateId
            },
            final(self)@ == step(
                old(self)@,
                MuxEvent::Request { id, addr, req, ctx, tx: final(self)@.pending[id] },
            ),
    {
        if self.closed {
            return Err(ConnectorError::Closed);
        }
        if self.requests.contains_key(&id) {
            return Err(ConnectorError::DuplicateId);
        }
        let (tx, rx) = completion_pair();
        self.requests.insert(id, tx);
        self.outbound.push_back((id, addr, Muxed::Request(req), ctx));
        Ok(rx)
    }

    /// Queue a response to the request `id` for sending to `addr`.
    ///
    /// Succeeds exactly when the multiplexer is open:
    /// `(id, addr, Response(resp), ctx)` then joins the end of the outbound
    /// queue. The table of pending requests is never touched.
    pub fn respond(&mut self, ctx: Ctx, id: ReqId, addr: Target, resp: Resp) -> (r: Result<
        (),
        ConnectorError<E>,
    >)
        requires
            old(self).wf(),
        ensures
            final(self).wf(),
            r == if old(self)@.closed {
                Err::<(), ConnectorError<E>>(ConnectorError::Closed)
            } else {
                Ok(())
            },
            final(self)@ == if old(self)@.closed {
                old(self)@
            } else {
                old(self)@.queued((id, addr, Muxed::Response(resp), ctx))
            },
            final(self)@ == step(old(self)@, MuxEvent::Respond { id, addr, resp, ctx }),
    {
        if self.closed {
            return Err(ConnectorError::Closed);
        }
        self.outbound.push_back((id, addr, Muxed::Response(resp), ctx));
        Ok(())
    }

    /// Take the oldest item of the outbound queue, if there is one. Items
    /// leave in the order in which `request` and `respond` accepted them.
    pub fn poll_next(&mut self) -> (r: Option<(ReqId, Target, Muxed<Req, Resp>, Ctx)>)
        requires
            old(self).wf(),
        ensures
            final(self).wf(),
            r == if old(self)@.outbound.len() > 0 {
                Some(old(self)@.outbound[0])
            } else {
                None
            },
            final(self)@ == if old(self)@.outbound.len() > 0 {
                old(self)@.drained()
            } else {
                old(self)@
            },
            final(self)@ == step(old(self)@, MuxEvent::Drain),
    {
        let r = self.outbound.pop_front();
        proof {
            if old(self)@.outbound.len() > 0 {
                assert(self@.outbound =~= old(self)@.outbound.drop_first());
            } else {
                assert(self@.outbound =~= old(self)@.outbound);
            }
        }
        r
    }

    /// Decide what an inbound response for `id` leads to, and update the
    /// table accordingly.
    ///
    /// Where a request is pending under `id`, its entry is removed and its
    /// completion handle comes back together with exactly `resp` and `ctx`.
    /// Where none is, the response is an orphan: it is counted and handed
    /// back, and nothing else changes.
    pub fn dispatch(&mut self, id: ReqId, resp: Resp, ctx: Ctx) -> (d: Dispatch<Resp, Ctx>)
        requires
            old(self).wf(),
        ensures
            final(self).wf(),
            d == old(self)@.dispatch(id, resp, ctx),
            final(self)@ == old(self)@.dispatched(id),
            final(self)@ == step(old(self)@, MuxEvent::Response { id, resp, ctx }),
    {
        match self.requests.remove(&id) {
            Some(to) => Dispatch::Deliver { to, resp, ctx },
            None => {
                if self.orphans < ORPHAN_LIMIT {
                    self.orphans = self.orphans + 1;
                }
                assert(self@.pending =~= old(self)@.pending);
                Dispatch::Orphan { resp, ctx }
            },
        }
    }

    /// Handle a response that has been decoded already.
    ///
    /// The entry pending under `id`, if any, is removed and its completion
    /// handle is fulfilled with `(resp, ctx)`, which wakes the waiting
    /// caller. A response with no pending request is counted as an orphan
    /// and dropped; that is never an error. The only error is
    /// `ReceiverGone`, and it can come only where a request was pending.
    pub fn handle_resp(&mut self, id: ReqId, _target: Target, resp: Resp, ctx: Ctx) -> (r: Result<
        (),
        ConnectorError<E>,
    >)
        requires
            old(self).wf(),
        ensures
            final(self).wf(),
            final(self)@ == old(self)@.dispatched(id),
            final(self)@ == step(old(self)@, MuxEvent::Response { id, resp, ctx }),
            !old(self)@.pending.contains_key(id) ==> r is Ok,
            r matches Err(e) ==> e == ConnectorError::<E>::ReceiverGone,
    {
        match self.dispatch(id, resp, ctx) {
            Dispatch::Deliver { to, resp, ctx } => ConnectorError::delivered(
                fulfil(to, (resp, ctx)),
            ),
            Dispatch::Orphan { .. } => Ok(()),
        }
    }

    /// Handle a received envelope.
    ///
    /// A request is passed through untouched, with its address and context,
    /// for the caller to process; the multiplexer does not change. A
    /// response goes to `handle_resp`, and nothing is handed back.
    pub fn handle(&mut self, id: ReqId, addr: Target, message: Muxed<Req, Resp>, ctx: Ctx) -> (r:
        Result<Option<(Target, Req, Ctx)>, ConnectorError<E>>)
        requires
            old(self).wf(),
        ensures
            final(self).wf(),
            message matches Muxed::Request(req) ==> r == Ok::<
                Option<(Target, Req, Ctx)>,
                ConnectorError<E>,
            >(Some((addr, req, ctx))) && final(self)@ == old(self)@,
            message is Response ==> final(self)@ == old(self)@.dispatched(id),
            message is Response ==> r == Ok::<Option<(Target, Req, Ctx)>, ConnectorError<E>>(None)
                || r == Err::<Option<(Target, Req, Ctx)>, ConnectorError<E>>(
                ConnectorError::ReceiverGone,
            ),
            message is Response && !old(self)@.pending.contains_key(id) ==> r is Ok,
    {
        match message {
            Muxed::Request(req) => Ok(Some((addr, req, ctx))),
            Muxed::Response(resp) => match self.handle_resp(id, addr, resp, ctx) {
                Ok(()) => Ok(None),
                Err(e) => Err(e),
            },
        }
    }

    /// Cancel the request pending under `id`: its entry is removed and its
    /// completion handle dropped, which wakes the waiting caller with a
    /// cancellation. Returns whether a request was pending.
    pub fn cancel(&mut self, id: ReqId) -> (r: bool)
        requires
            old(self).wf(),
        ensures
            final(self).wf(),
            r == old(self)@.pending.contains_key(id),
            final(self)@ == old(self)@.cancelled(id),
            final(self)@ == step(old(self)@, MuxEvent::Cancel { id }),
    {
        let entry = self.requests.remove(&id);
        entry.is_some()
    }

    /// Shut the multiplexer down. Every pending entry is removed and its
    /// completion handle dropped, so that each waiting caller is woken;
    /// `request` and `respond` fail with `Closed` from now on. What was
    /// queued before stays for the driver to take.
    pub fn close(&mut self)
        requires
            old(self).wf(),
        ensures
            final(self).wf(),
            final(self)@ == old(self)@.shut(),
            final(self)@ == step(old(self)@, MuxEvent::Close),
    {
        self.requests.clear();
        self.closed = true;
    }

    /// Look, without blocking, whether the response of a request has
    /// arrived on `rx`, the receiver that `request` returned.
    ///
    /// `Ok(Some(..))` holds the response and its context, `Ok(None)` means
    /// that the request is still pending. An error means that the request
    /// was dropped: `Closed` if the multiplexer has been shut down,
    /// `Cancelled` otherwise.
    pub fn poll_response(&self, rx: &mut Receiver<(Resp, Ctx)>) -> (r: Result<
        Option<(Resp, Ctx)>,
        ConnectorError<E>,
    >)
        ensures
            r matches Err(e) ==> e == if self@.closed {
                ConnectorError::<E>::Closed
            } else {
                ConnectorError::<E>::Cancelled
            },
    {
        ConnectorError::resolve(try_receive(rx), self.closed)
    }
}

} // verus!
