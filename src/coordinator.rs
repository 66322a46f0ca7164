//! The pipeline coordinator: turns what the hub hands its subscription into
//! render commands, and owns the shutdown sequence.
use vstd::prelude::*;

use crate::hub::{HubView, Publication, Received};
use crate::metrics::Metrics;
use crate::worker::{after_command, RenderMsg, WorkerAction, WorkerState, WorkerView};

verus! {

/// The command forwarded for one receive, given whether `Shutdown` was
/// already sent, and whether it is sent after.
pub open spec fn forward(shutdown_sent: bool, r: Received) -> (bool, Option<RenderMsg>) {
    if shutdown_sent {
        (true, None)
    } else {
        match r {
            Received::Item(Publication::Content(_)) => (false, Some(RenderMsg::Trigger)),
            Received::Lagged(_) => (false, Some(RenderMsg::Trigger)),
            Received::Item(Publication::Done) => (true, Some(RenderMsg::Shutdown)),
            Received::Closed => (true, Some(RenderMsg::Shutdown)),
            Received::Empty => (false, None),
        }
    }
}

/// Every command forwarded for a run of receives, in order.
pub open spec fn forwarded(shutdown_sent: bool, rs: Seq<Received>) -> Seq<RenderMsg>
    decreases rs.len(),
{
    if rs.len() == 0 {
        Seq::empty()
    } else {
        let (sent, out) = forward(shutdown_sent, rs[0]);
        let rest = forwarded(sent, rs.drop_first());
        match out {
            Some(c) => seq![c] + rest,
            None => rest,
        }
    }
}

/// Forwards hub notifications to the render worker.
pub struct Coordinator {
    shutdown_sent: bool,
}

impl Coordinator {
    pub fn new() -> (r: Coordinator)
        ensures
            !r.is_finished_spec(),
    {
        Coordinator { shutdown_sent: false }
    }

    /// Whether `Shutdown` was forwarded.
    pub closed spec fn is_finished_spec(&self) -> bool {
        self.shutdown_sent
    }

    /// Whether `Shutdown` was forwarded; nothing is forwarded after it.
    pub fn is_finished(&self) -> (r: bool)
        ensures
            r == self.is_finished_spec(),
    {
        self.shutdown_sent
    }

    /// The command to forward for one receive: `Trigger` for new content and
    /// for a lag signal (which is also counted), `Shutdown` for `Done` or a
    /// closed hub, nothing when no publication is waiting or after
    /// `Shutdown`.
    pub fn on_receive(&mut self, r: &Received, metrics: &mut Metrics) -> (cmd: Option<RenderMsg>)
        ensures
            (final(self).is_finished_spec(), cmd) == forward(old(self).is_finished_spec(), *r),
            (!old(self).is_finished_spec() && r is Lagged) ==> *final(metrics) == (Metrics {
                broadcast_lag_count: old(metrics).broadcast_lag_count.wrapping_add(1),
                broadcast_missed: old(metrics).broadcast_missed.wrapping_add(r->Lagged_0),
                ..*old(metrics)
            }),
            !(!old(self).is_finished_spec() && r is Lagged) ==> *final(metrics) == *old(metrics),
    {
        if self.shutdown_sent {
            return None;
        }
        match r {
            Received::Item(Publication::Content(_)) => Some(RenderMsg::Trigger),
            Received::Lagged(n) => {
                metrics.record_lag(*n);
                Some(RenderMsg::Trigger)
            },
            Received::Item(Publication::Done) | Received::Closed => {
                self.shutdown_sent = true;
                Some(RenderMsg::Shutdown)
            },
            Received::Empty => None,
        }
    }

    /// External cancellation: `Shutdown`, unless it was already forwarded.
    pub fn on_cancel(&mut self) -> (cmd: Option<RenderMsg>)
        ensures
            final(self).is_finished_spec(),
            old(self).is_finished_spec() ==> cmd is None,
            !old(self).is_finished_spec() ==> cmd == Some(RenderMsg::Shutdown),
    {
        if self.shutdown_sent {
            None
        } else {
            self.shutdown_sent = true;
            Some(RenderMsg::Shutdown)
        }
    }
}

/// Over any run of receives the coordinator forwards `Shutdown` at most once,
/// and nothing after it.
pub proof fn lemma_shutdown_is_last(shutdown_sent: bool, rs: Seq<Received>)
    ensures
        ({
            let out = forwarded(shutdown_sent, rs);
            forall|i: int| 0 <= i < out.len() && out[i] == RenderMsg::Shutdown ==> i == out.len() - 1
        }),
        shutdown_sent ==> forwarded(shutdown_sent, rs).len() == 0,
    decreases rs.len(),
{
    if rs.len() > 0 {
        let (sent, out) = forward(shutdown_sent, rs[0]);
        lemma_shutdown_is_last(sent, rs.drop_first());
        let rest = forwarded(sent, rs.drop_first());
        match out {
            Some(c) => {
                let all = seq![c] + rest;
                assert forall|i: int| 0 <= i < all.len() && all[i] == RenderMsg::Shutdown implies i == all.len() - 1 by {
                    if i > 0 {
                        assert(all[i] == rest[i - 1]);
                    } else if c == RenderMsg::Shutdown {
                        assert(sent);
                    }
                }
            },
            None => {},
        }
    }
}

/// Every content publication and every lag signal received before the stop
/// becomes exactly one `Trigger`.
pub proof fn lemma_one_trigger_per_notification(r: Received)
    requires
        r matches Received::Item(Publication::Content(_)) || r is Lagged,
    ensures
        forward(false, r) == (false, Some(RenderMsg::Trigger)),
{
}

/// Closing the hub stops an idle render worker: the coordinator's next
/// receive reports `Closed`, it forwards `Shutdown`, and the worker exits on
/// that command.
pub proof fn lemma_close_stops_worker(v: HubView, cursor: nat, w: WorkerView)
    requires
        w.state == WorkerState::Idle,
    ensures
        ({
            let closed = HubView { closed: true, ..v };
            let (r, _) = closed.receive(cursor);
            let (_, cmd) = forward(false, r);
            &&& cmd == Some(RenderMsg::Shutdown)
            &&& after_command(w, cmd).1 == WorkerAction::Exit
            &&& after_command(w, cmd).0.state == WorkerState::Stopped
        }),
{
}

} // verus!
