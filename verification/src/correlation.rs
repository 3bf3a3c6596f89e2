use crate::mux::{Dispatch, MuxState};
use crate::muxed::Muxed;
use futures::channel::oneshot::Sender;
use vstd::prelude::*;

verus! {

/// One call on a multiplexer, as far as its state is concerned.
#[verifier::reject_recursive_types(Resp)]
#[verifier::reject_recursive_types(Ctx)]
pub enum MuxEvent<ReqId, Target, Req, Resp, Ctx> {
    /// `request`, with the completion handle that it would install.
    Request { id: ReqId, addr: Target, req: Req, ctx: Ctx, tx: Sender<(Resp, Ctx)> },
    /// `respond`.
    Respond { id: ReqId, addr: Target, resp: Resp, ctx: Ctx },
    /// `handle_resp`, or `handle` on a response.
    Response { id: ReqId, resp: Resp, ctx: Ctx },
    /// `cancel`.
    Cancel { id: ReqId },
    /// `poll_next`.
    Drain,
    /// `close`.
    Close,
}

impl<ReqId, Target, Req, Resp, Ctx> MuxEvent<ReqId, Target, Req, Resp, Ctx> {
    /// Whether the event can add, remove or use the pending entry of `id`.
    pub open spec fn concerns(self, id: ReqId) -> bool {
        match self {
            MuxEvent::Request { id: other, .. } => other == id,
            MuxEvent::Response { id: other, .. } => other == id,
            MuxEvent::Cancel { id: other } => other == id,
            MuxEvent::Respond { .. } => false,
            MuxEvent::Drain => false,
            MuxEvent::Close => true,
        }
    }
}

/// The state after one event, as the contracts of the multiplexer's
/// methods give it.
pub open spec fn step<ReqId, Target, Req, Resp, Ctx>(
    s: MuxState<ReqId, Target, Req, Resp, Ctx>,
    e: MuxEvent<ReqId, Target, Req, Resp, Ctx>,
) -> MuxState<ReqId, Target, Req, Resp, Ctx> {
    match e {
        MuxEvent::Request { id, addr, req, ctx, tx } => if s.closed || s.pending.contains_key(id) {
            s
        } else {
            s.registered(id, tx).queued((id, addr, Muxed::Request(req), ctx))
        },
        MuxEvent::Respond { id, addr, resp, ctx } => if s.closed {
            s
        } else {
            s.queued((id, addr, Muxed::Response(resp), ctx))
        },
        MuxEvent::Response { id, .. } => s.dispatched(id),
        MuxEvent::Cancel { id } => s.cancelled(id),
        MuxEvent::Drain => if s.outbound.len() > 0 {
            s.drained()
        } else {
            s
        },
        MuxEvent::Close => s.shut(),
    }
}

/// The state after a sequence of events, first to last.
pub open spec fn run<ReqId, Target, Req, Resp, Ctx>(
    s: MuxState<ReqId, Target, Req, Resp, Ctx>,
    events: Seq<MuxEvent<ReqId, Target, Req, Resp, Ctx>>,
) -> MuxState<ReqId, Target, Req, Resp, Ctx>
    decreases events.len(),
{
    if events.len() == 0 {
        s
    } else {
        step(run(s, events.drop_last()), events.last())
    }
}

/// Events about other identifiers leave the pending entry of `id` as it
/// was: present with the same completion handle, or absent.
pub proof fn lemma_unrelated_events_keep_entry<ReqId, Target, Req, Resp, Ctx>(
    s: MuxState<ReqId, Target, Req, Resp, Ctx>,
    id: ReqId,
    events: Seq<MuxEvent<ReqId, Target, Req, Resp, Ctx>>,
)
    requires
        forall|i: int| 0 <= i < events.len() ==> !(#[trigger] events[i]).concerns(id),
    ensures
        run(s, events).pending.contains_key(id) == s.pending.contains_key(id),
        s.pending.contains_key(id) ==> run(s, events).pending[id] == s.pending[id],
    decreases events.len(),
{
    if events.len() > 0 {
        let earlier = events.drop_last();
        assert forall|i: int| 0 <= i < earlier.len() implies !(#[trigger] earlier[i]).concerns(
            id,
        ) by {
            assert(earlier[i] == events[i]);
        }
        lemma_unrelated_events_keep_entry(s, id, earlier);
        assert(!events[events.len() - 1].concerns(id));
    }
}

/// Correlation: once a request is pending under `id` with the completion
/// handle `tx`, then whatever happens about other identifiers, in whatever
/// order, a response for `id` is delivered to `tx`, with exactly the
/// response and the context that came in.
pub proof fn lemma_correlation<ReqId, Target, Req, Resp, Ctx>(
    s: MuxState<ReqId, Target, Req, Resp, Ctx>,
    id: ReqId,
    tx: Sender<(Resp, Ctx)>,
    events: Seq<MuxEvent<ReqId, Target, Req, Resp, Ctx>>,
    resp: Resp,
    ctx: Ctx,
)
    requires
        s.pending.contains_key(id),
        s.pending[id] == tx,
        forall|i: int| 0 <= i < events.len() ==> !(#[trigger] events[i]).concerns(id),
    ensures
        run(s, events).dispatch(id, resp, ctx) == (Dispatch::Deliver { to: tx, resp, ctx }),
{
    lemma_unrelated_events_keep_entry(s, id, events);
}

/// Running a sequence of events is running its first part and then the rest.
pub proof fn lemma_run_in_two_parts<ReqId, Target, Req, Resp, Ctx>(
    s: MuxState<ReqId, Target, Req, Resp, Ctx>,
    first: Seq<MuxEvent<ReqId, Target, Req, Resp, Ctx>>,
    rest: Seq<MuxEvent<ReqId, Target, Req, Resp, Ctx>>,
)
    ensures
        run(s, first + rest) == run(run(s, first), rest),
    decreases rest.len(),
{
    if rest.len() == 0 {
        assert(first + rest =~= first);
    } else {
        assert((first + rest).drop_last() =~= first + rest.drop_last());
        assert((first + rest).last() == rest.last());
        lemma_run_in_two_parts(s, first, rest.drop_last());
    }
}

/// Correlation over a whole history: take any sequence of calls on a
/// multiplexer in which call `i` is a request that is accepted, call `j` is
/// a later response with the same identifier, and no call between them is
/// about that identifier. Then the response is delivered to the completion
/// handle that the request installed, with exactly the response and the
/// context that came in with it, whatever the calls about other
/// identifiers are and in whatever order they come.
pub proof fn lemma_history_correlation<ReqId, Target, Req, Resp, Ctx>(
    s: MuxState<ReqId, Target, Req, Resp, Ctx>,
    events: Seq<MuxEvent<ReqId, Target, Req, Resp, Ctx>>,
    i: int,
    j: int,
)
    requires
        0 <= i < j < events.len(),
        events[i] is Request,
        events[j] is Response,
        events[j]->Response_id == events[i]->Request_id,
        !run(s, events.take(i)).closed,
        !run(s, events.take(i)).pending.contains_key(events[i]->Request_id),
        forall|k: int| i < k < j ==> !(#[trigger] events[k]).concerns(events[i]->Request_id),
    ensures
        run(s, events.take(j)).dispatch(
            events[j]->Response_id,
            events[j]->Response_resp,
            events[j]->Response_ctx,
        ) == (Dispatch::Deliver {
            to: events[i]->Request_tx,
            resp: events[j]->Response_resp,
            ctx: events[j]->Response_ctx,
        }),
{
    let id = events[i]->Request_id;
    let upto = events.take(i + 1);
    let between = events.subrange(i + 1, j);
    assert(upto.drop_last() =~= events.take(i));
    assert(upto.last() == events[i]);
    assert(events.take(j) =~= upto + between);
    lemma_run_in_two_parts(s, upto, between);
    assert forall|k: int| 0 <= k < between.len() implies !(#[trigger] between[k]).concerns(id) by {
        assert(between[k] == events[i + 1 + k]);
    }
    lemma_correlation(
        run(s, upto),
        id,
        events[i]->Request_tx,
        between,
        events[j]->Response_resp,
        events[j]->Response_ctx,
    );
}

/// An accepted request is pending under its identifier with the handle
/// that was installed for it, and is the newest item of the outbound queue.
pub proof fn lemma_request_registers<ReqId, Target, Req, Resp, Ctx>(
    s: MuxState<ReqId, Target, Req, Resp, Ctx>,
    id: ReqId,
    addr: Target,
    req: Req,
    ctx: Ctx,
    tx: Sender<(Resp, Ctx)>,
)
    requires
        !s.closed,
        !s.pending.contains_key(id),
    ensures
        step(s, MuxEvent::Request { id, addr, req, ctx, tx }).pending.contains_key(id),
        step(s, MuxEvent::Request { id, addr, req, ctx, tx }).pending[id] == tx,
        step(s, MuxEvent::Request { id, addr, req, ctx, tx }).outbound.last() == (
            id,
            addr,
            Muxed::<Req, Resp>::Request(req),
            ctx,
        ),
{
}

/// Orphan tolerance: a response for an identifier with nothing pending is
/// an orphan, changes neither the table nor the queue nor whether the
/// multiplexer is open, and a request registered afterwards still gets
/// exactly its own response.
pub proof fn lemma_orphan_tolerance<ReqId, Target, Req, Resp, Ctx>(
    s: MuxState<ReqId, Target, Req, Resp, Ctx>,
    orphan: ReqId,
    resp: Resp,
    ctx: Ctx,
    id: ReqId,
    tx: Sender<(Resp, Ctx)>,
    next_resp: Resp,
    next_ctx: Ctx,
)
    requires
        !s.pending.contains_key(orphan),
    ensures
        s.dispatch(orphan, resp, ctx) == (Dispatch::Orphan { resp, ctx }),
        s.dispatched(orphan).pending == s.pending,
        s.dispatched(orphan).outbound == s.outbound,
        s.dispatched(orphan).closed == s.closed,
        s.dispatched(orphan).registered(id, tx).dispatch(id, next_resp, next_ctx) == (
            Dispatch::Deliver { to: tx, resp: next_resp, ctx: next_ctx }
        ),
{
}

/// At-most-once delivery: after a response for `id` has been dispatched,
/// nothing is pending under `id`, so a second response for it is an orphan
/// and reaches no completion handle.
pub proof fn lemma_at_most_once<ReqId, Target, Req, Resp, Ctx>(
    s: MuxState<ReqId, Target, Req, Resp, Ctx>,
    id: ReqId,
    again: Resp,
    again_ctx: Ctx,
)
    ensures
        !s.dispatched(id).pending.contains_key(id),
        s.dispatched(id).dispatch(id, again, again_ctx) == (Dispatch::Orphan {
            resp: again,
            ctx: again_ctx,
        }),
        s.dispatched(id).dispatched(id).pending == s.dispatched(id).pending,
{
}

/// The state after taking the oldest outbound item `n` times.
pub open spec fn drain<ReqId, Target, Req, Resp, Ctx>(
    s: MuxState<ReqId, Target, Req, Resp, Ctx>,
    n: nat,
) -> MuxState<ReqId, Target, Req, Resp, Ctx>
    decreases n,
{
    if n == 0 {
        s
    } else {
        drain(s.drained(), (n - 1) as nat)
    }
}

/// Taking `n` items off a queue that holds at least `n` leaves the items
/// behind them, in their order, and touches nothing else.
pub proof fn lemma_drain_skips<ReqId, Target, Req, Resp, Ctx>(
    s: MuxState<ReqId, Target, Req, Resp, Ctx>,
    n: nat,
)
    requires
        n <= s.outbound.len(),
    ensures
        drain(s, n).outbound == s.outbound.skip(n as int),
        drain(s, n).pending == s.pending,
        drain(s, n).closed == s.closed,
        drain(s, n).orphans == s.orphans,
    decreases n,
{
    if n == 0 {
        assert(s.outbound.skip(0) =~= s.outbound);
    } else {
        lemma_drain_skips(s.drained(), (n - 1) as nat);
        assert(s.outbound.drop_first().skip(n - 1) =~= s.outbound.skip(n as int));
    }
}

/// The outbound queue is first in, first out: of two items accepted one
/// after the other, the driver gets the first one first, once it has taken
/// everything that was queued before them, and the second one right after.
pub proof fn lemma_outbound_fifo<ReqId, Target, Req, Resp, Ctx>(
    s: MuxState<ReqId, Target, Req, Resp, Ctx>,
    first: (ReqId, Target, Muxed<Req, Resp>, Ctx),
    second: (ReqId, Target, Muxed<Req, Resp>, Ctx),
)
    ensures
        drain(s.queued(first).queued(second), s.outbound.len()).outbound == seq![first, second],
        drain(s.queued(first).queued(second), s.outbound.len()).outbound[0] == first,
        drain(s.queued(first).queued(second), s.outbound.len()).drained().outbound[0] == second,
{
    let queued = s.queued(first).queued(second);
    lemma_drain_skips(queued, s.outbound.len());
    assert(queued.outbound.skip(s.outbound.len() as int) =~= seq![first, second]);
}

} // verus!
