//! How the worker that watches the window manager and the event loop share one
//! flag, and why no more than one update is ever on its way.
//!
//! The worker and the event loop run side by side. The model takes their steps
//! in any order: a step of the worker is one outcome that it takes, a step of
//! the event loop is one action of handling an update. A flag that the other
//! side has just changed may still be read with its old value, but never with a
//! value that is older than one which the reader has seen or set.

use crate::app::AppAction;
use crate::shared::{SharedEvent, SharedStage, SharedWorker};
use vstd::prelude::*;

verus! {

/// The worker, the event loop, and what they share.
#[verifier::ext_equal]
pub struct SharedSystem {
    pub worker: SharedWorker,
    /// The flag that asks the worker to stop.
    pub stop: bool,
    /// Whether the worker has read that flag as set.
    pub stop_seen: bool,
    /// The flag that an update is on its way.
    pub pending: bool,
    /// How many updates wait in the queue of the event loop.
    pub queued: nat,
    /// What the event loop has left to do about the update that it took.
    pub handler: Seq<AppAction>,
    /// Whether the news was read since that update was taken.
    pub drained: bool,
    /// Whether the event loop has ended.
    pub closed: bool,
}

impl SharedSystem {
    /// The system before anything happened.
    pub open spec fn initial(self) -> bool {
        &&& self.worker.stage == SharedStage::CheckStop
        &&& !self.stop
        &&& !self.stop_seen
        &&& !self.pending
        &&& self.queued == 0
        &&& self.handler == Seq::<AppAction>::empty()
        &&& !self.closed
    }

    /// Whether `event` can come of what the worker does now, which awaits it.
    ///
    /// The stop flag is read as set only if it is, and stays so once it was. The
    /// other flag, which nobody but the worker raises, is read as lowered only
    /// if it is; raising it goes by its true value. A loop that has ended takes
    /// no update.
    pub open spec fn possible(self, event: SharedEvent) -> bool {
        &&& self.worker.stage.awaits(event)
        &&& match event {
            SharedEvent::StopLoaded(stop) => (stop ==> self.stop) && (self.stop_seen ==> stop),
            SharedEvent::PendingRaised(raised) => raised == !self.pending,
            SharedEvent::PendingLoaded(pending) => self.pending ==> pending,
            SharedEvent::Sent(taken) => self.closed ==> !taken,
            _ => true,
        }
    }

    /// The system after the worker took `event`.
    pub open spec fn after_worker(self, event: SharedEvent) -> SharedSystem {
        SharedSystem {
            worker: SharedWorker {
                codes: self.worker.codes,
                stage: self.worker.stage.after(self.worker.codes, event),
            },
            stop_seen: self.stop_seen || event == SharedEvent::StopLoaded(true),
            pending: match event {
                SharedEvent::PendingRaised(_) => true,
                SharedEvent::PendingLowered => false,
                _ => self.pending,
            },
            queued: match event {
                SharedEvent::Sent(true) => self.queued + 1,
                _ => self.queued,
            },
            ..self
        }
    }

    /// The system after the event loop took an update from its queue.
    pub open spec fn after_take(self) -> SharedSystem {
        SharedSystem {
            queued: (self.queued - 1) as nat,
            handler: crate::app::shared_update_actions(),
            drained: false,
            ..self
        }
    }

    /// The system after the event loop did the next thing about an update.
    pub open spec fn after_action(self) -> SharedSystem {
        SharedSystem {
            handler: self.handler.drop_first(),
            drained: self.drained || self.handler.first() == AppAction::PollTransport,
            pending: self.pending && self.handler.first() != AppAction::LowerPending,
            ..self
        }
    }

    /// Whether `next` can follow.
    pub open spec fn can_become(self, next: SharedSystem) -> bool {
        ||| exists|event: SharedEvent| #[trigger]
            self.possible(event) && next == self.after_worker(event)
        ||| self.queued > 0 && self.handler.len() == 0 && !self.closed && next == self.after_take()
        ||| self.handler.len() > 0 && next == self.after_action()
        ||| next == (SharedSystem { stop: true, ..self })
        ||| self.handler.len() == 0 && next == (SharedSystem { closed: true, queued: 0, ..self })
    }

    /// How many updates are on their way: about to be sent or taken back,
    /// queued, or being handled.
    pub open spec fn in_transit(self) -> nat {
        self.queued + (if self.handler.len() > 0 {
            1nat
        } else {
            0nat
        }) + (if self.worker.stage == SharedStage::Send || self.worker.stage
            == SharedStage::LowerPending {
            1nat
        } else {
            0nat
        })
    }

    /// What holds at all times.
    pub open spec fn in_order(self) -> bool {
        &&& self.handler.len() == 0 || self.handler == crate::app::shared_update_actions() || (
        self.handler == seq![AppAction::LowerPending] && self.drained)
        &&& self.in_transit() <= 1
        &&& self.in_transit() == 1 ==> self.pending
        &&& self.pending ==> self.in_transit() == 1 || self.closed
        &&& match self.worker.stage {
            SharedStage::CheckStop => self.pending ==> self.stop_seen,
            SharedStage::Poll
            | SharedStage::ReadError
            | SharedStage::Drain
            | SharedStage::RaisePending => !self.pending,
            _ => true,
        }
    }
}

/// Whether `trace` is a course that the system can take from its start.
pub open spec fn course(trace: Seq<SharedSystem>) -> bool {
    &&& trace.len() > 0
    &&& trace[0].initial()
    &&& forall|i: int, j: int|
        0 <= i < trace.len() && j == i + 1 && j < trace.len() ==> (#[trigger] trace[i]).can_become(
            #[trigger] trace[j],
        )
}

/// The invariant holds at the start.
pub proof fn law_invariant_begins(system: SharedSystem)
    requires
        system.initial(),
    ensures
        system.in_order(),
{
}

/// Every step keeps the invariant.
pub proof fn law_invariant_lasts(system: SharedSystem, next: SharedSystem)
    requires
        system.in_order(),
        system.can_become(next),
    ensures
        next.in_order(),
{
    let both = crate::app::shared_update_actions();
    assert(both.drop_first() =~= seq![AppAction::LowerPending]);
    assert(both.first() == AppAction::PollTransport);
    if exists|event: SharedEvent| #[trigger]
        system.possible(event) && next == system.after_worker(event) {
        let event = choose|event: SharedEvent| #[trigger]
            system.possible(event) && next == system.after_worker(event);
        assert(system.possible(event));
    }
}

/// The invariant holds at every point of every course.
pub proof fn law_invariant_holds(trace: Seq<SharedSystem>, at: int)
    requires
        course(trace),
        0 <= at < trace.len(),
    ensures
        trace[at].in_order(),
    decreases at,
{
    if at == 0 {
        law_invariant_begins(trace[0]);
    } else {
        law_invariant_holds(trace, at - 1);
        assert(trace[at - 1].can_become(trace[at]));
        law_invariant_lasts(trace[at - 1], trace[at]);
    }
}

/// At most one update is queued at a time, and none while one is being handled.
pub proof fn law_at_most_one_update_is_queued(trace: Seq<SharedSystem>, at: int)
    requires
        course(trace),
        0 <= at < trace.len(),
    ensures
        trace[at].queued <= 1,
        trace[at].handler.len() > 0 ==> trace[at].queued == 0,
{
    law_invariant_holds(trace, at);
}

/// While the event loop runs, the flag is up exactly as long as an update is on
/// its way: it is never left up with nobody to lower it.
pub proof fn law_flag_means_update_in_transit(trace: Seq<SharedSystem>, at: int)
    requires
        course(trace),
        0 <= at < trace.len(),
        !trace[at].closed,
    ensures
        trace[at].pending <==> trace[at].in_transit() == 1,
{
    law_invariant_holds(trace, at);
}

/// The event loop lowers the flag only after it has read the news.
pub proof fn law_news_is_read_before_flag_falls(trace: Seq<SharedSystem>, at: int)
    requires
        course(trace),
        0 <= at < trace.len(),
        trace[at].handler.len() > 0,
        trace[at].handler.first() == AppAction::LowerPending,
    ensures
        trace[at].drained,
{
    law_invariant_holds(trace, at);
    assert(crate::app::shared_update_actions().first() == AppAction::PollTransport);
}

/// The worker never finds the flag up when it wants to raise it.
pub proof fn law_flag_is_down_when_raised(trace: Seq<SharedSystem>, at: int, raised: bool)
    requires
        course(trace),
        0 <= at < trace.len(),
        trace[at].possible(SharedEvent::PendingRaised(raised)),
    ensures
        raised,
{
    law_invariant_holds(trace, at);
}

/// The worker polls for more, reads news and raises the flag only while no update
/// is on its way.
pub proof fn law_no_news_while_update_in_transit(trace: Seq<SharedSystem>, at: int)
    requires
        course(trace),
        0 <= at < trace.len(),
        trace[at].worker.stage == SharedStage::Poll || trace[at].worker.stage == SharedStage::ReadError
            || trace[at].worker.stage == SharedStage::Drain || trace[at].worker.stage
            == SharedStage::RaisePending,
    ensures
        trace[at].in_transit() == 0,
        !trace[at].pending,
{
    law_invariant_holds(trace, at);
}

} // verus!
