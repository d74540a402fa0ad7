//! The worker that tells the event loop about news from the window manager.
//!
//! The worker polls a descriptor that becomes readable when there is news. It
//! raises a flag, sends one update to the event loop and then waits until the
//! flag is lowered, so that no second update is queued behind the first.
//!
//! The worker is a state machine. `action` names the one thing to do next;
//! `step` takes what came of it.

use vstd::prelude::*;

verus! {

/// How long one poll waits at most, in milliseconds.
pub const POLL_TIMEOUT_MS: i32 = 250;

/// How long the worker naps between two looks at the flag, in milliseconds.
pub const NAP_MS: u64 = 10;

/// The numbers by which the platform reports the state of a descriptor.
#[derive(Clone, Copy, Debug, PartialEq, Eq, Structural)]
pub struct PollCodes {
    /// The bits of "there is something to read".
    pub readable: i16,
    /// The bits of "an error is pending".
    pub error: i16,
    /// The bits of "the other end is closed".
    pub hang_up: i16,
    /// The bits of "this is no open descriptor".
    pub invalid: i16,
    /// The error number of "a signal came in between".
    pub interrupted: i32,
}

impl PollCodes {
    /// The bits that make a descriptor useless.
    pub open spec fn unusable(self) -> i16 {
        self.error | self.hang_up | self.invalid
    }
}

/// Reads `libc::POLLIN`, `libc::POLLERR`, `libc::POLLHUP`, `libc::POLLNVAL` and
/// `libc::EINTR`.
///
/// The numbers are the platform's and differ between platforms. Trusted of all
/// of them are that each condition has a bit, that none of the bits of
/// "readable" belongs to a condition that makes the descriptor useless, and that
/// no error has the number zero.
#[verifier::external_body]
fn platform_codes() -> (r: PollCodes)
    ensures
        r.readable != 0,
        r.error != 0,
        r.hang_up != 0,
        r.invalid != 0,
        r.readable & r.unusable() == 0,
        r.interrupted != 0,
{
    PollCodes {
        readable: libc::POLLIN,
        error: libc::POLLERR,
        hang_up: libc::POLLHUP,
        invalid: libc::POLLNVAL,
        interrupted: libc::EINTR,
    }
}

/// Whether these are the numbers of this platform, all of them as they were read
/// from it.
pub closed spec fn of_this_platform(codes: PollCodes) -> bool {
    call_ensures(crate::shared::platform_codes, (), codes)
}

/// Why the worker is done.
#[derive(Clone, Copy, Debug, PartialEq, Eq, Structural)]
pub enum ExitReason {
    /// The stop flag was set.
    Stopped,
    /// Polling failed, and not for a signal.
    PollFailed,
    /// The descriptor reported these bits, among them one that makes it useless.
    Unusable(i16),
    /// The news could not be read.
    DrainFailed,
    /// The event loop takes no more updates.
    LoopClosed,
}

/// What the worker waits for.
#[derive(Clone, Copy, Debug, PartialEq, Eq, Structural)]
pub enum SharedStage {
    /// The stop flag, before a new poll.
    CheckStop,
    /// The outcome of a poll.
    Poll,
    /// The error number of a poll that failed.
    ReadError,
    /// The outcome of reading the news.
    Drain,
    /// Whether the flag was down and is now raised.
    RaisePending,
    /// The outcome of sending the update.
    Send,
    /// The lowering of the flag after an update that could not be sent.
    LowerPending,
    /// The flag, while an update is on its way.
    CheckPending,
    /// The stop flag, while an update is on its way.
    RecheckStop,
    /// The end of a nap.
    Nap,
    /// Nothing: the worker is done.
    Finished(ExitReason),
}

/// What the worker asks for.
#[derive(Clone, Copy, Debug, PartialEq, Eq, Structural)]
pub enum SharedAction {
    /// Read the stop flag.
    LoadStop,
    /// Poll the descriptor for the given bits, so many milliseconds at most.
    Poll { events: i16, timeout_ms: i32 },
    /// Read the error number of the failed poll.
    ReadError,
    /// Read the news.
    Drain,
    /// Raise the flag, provided that it is down.
    RaisePending,
    /// Send an update to the event loop.
    SendUpdate,
    /// Lower the flag.
    LowerPending,
    /// Read the flag.
    LoadPending,
    /// Sleep so many milliseconds.
    Nap(u64),
    /// End the thread.
    Exit(ExitReason),
}

/// What came of an action.
#[derive(Clone, Copy, Debug, PartialEq, Eq, Structural)]
pub enum SharedEvent {
    /// The stop flag as it was read.
    StopLoaded(bool),
    /// The result of a poll, and the bits that the descriptor reported.
    Polled { result: i32, revents: i16 },
    /// The error number of the failed poll, where there is one.
    ErrorRead(Option<i32>),
    /// How many notices were read, or none where reading failed.
    Drained(Option<u64>),
    /// Whether the flag was down and is now raised.
    PendingRaised(bool),
    /// Whether the event loop took the update.
    Sent(bool),
    /// The flag is down.
    PendingLowered,
    /// The flag as it was read.
    PendingLoaded(bool),
    /// The nap is over.
    Napped,
}

/// What a poll leads to.
pub open spec fn polled(codes: PollCodes, result: i32, revents: i16) -> SharedStage {
    if result < 0 {
        SharedStage::ReadError
    } else if result == 0 {
        SharedStage::CheckStop
    } else if revents & codes.unusable() != 0 {
        SharedStage::Finished(ExitReason::Unusable(revents))
    } else if revents & codes.readable != 0 {
        SharedStage::Drain
    } else {
        SharedStage::CheckStop
    }
}

impl SharedStage {
    /// What to do at this stage.
    pub open spec fn action(self, codes: PollCodes) -> SharedAction {
        match self {
            SharedStage::CheckStop => SharedAction::LoadStop,
            SharedStage::Poll => SharedAction::Poll {
                events: codes.readable,
                timeout_ms: POLL_TIMEOUT_MS,
            },
            SharedStage::ReadError => SharedAction::ReadError,
            SharedStage::Drain => SharedAction::Drain,
            SharedStage::RaisePending => SharedAction::RaisePending,
            SharedStage::Send => SharedAction::SendUpdate,
            SharedStage::LowerPending => SharedAction::LowerPending,
            SharedStage::CheckPending => SharedAction::LoadPending,
            SharedStage::RecheckStop => SharedAction::LoadStop,
            SharedStage::Nap => SharedAction::Nap(NAP_MS),
            SharedStage::Finished(reason) => SharedAction::Exit(reason),
        }
    }

    /// Whether `event` is an outcome of what this stage asks for.
    pub open spec fn awaits(self, event: SharedEvent) -> bool {
        match self {
            SharedStage::CheckStop => event is StopLoaded,
            SharedStage::Poll => event is Polled,
            SharedStage::ReadError => event is ErrorRead,
            SharedStage::Drain => event is Drained,
            SharedStage::RaisePending => event is PendingRaised,
            SharedStage::Send => event is Sent,
            SharedStage::LowerPending => event is PendingLowered,
            SharedStage::CheckPending => event is PendingLoaded,
            SharedStage::RecheckStop => event is StopLoaded,
            SharedStage::Nap => event is Napped,
            SharedStage::Finished(_) => false,
        }
    }

    /// The stage after an outcome that this stage awaits; any other event
    /// leaves the stage as it is.
    pub open spec fn after(self, codes: PollCodes, event: SharedEvent) -> SharedStage {
        match (self, event) {
            (SharedStage::CheckStop, SharedEvent::StopLoaded(stop)) => if stop {
                SharedStage::Finished(ExitReason::Stopped)
            } else {
                SharedStage::Poll
            },
            (SharedStage::Poll, SharedEvent::Polled { result, revents }) => polled(
                codes,
                result,
                revents,
            ),
            (SharedStage::ReadError, SharedEvent::ErrorRead(number)) => if number == Some(
                codes.interrupted,
            ) {
                SharedStage::CheckStop
            } else {
                SharedStage::Finished(ExitReason::PollFailed)
            },
            (SharedStage::Drain, SharedEvent::Drained(None)) => SharedStage::Finished(
                ExitReason::DrainFailed,
            ),
            (SharedStage::Drain, SharedEvent::Drained(Some(count))) => if count == 0 {
                SharedStage::CheckStop
            } else {
                SharedStage::RaisePending
            },
            (SharedStage::RaisePending, SharedEvent::PendingRaised(raised)) => if raised {
                SharedStage::Send
            } else {
                SharedStage::CheckPending
            },
            (SharedStage::Send, SharedEvent::Sent(taken)) => if taken {
                SharedStage::CheckPending
            } else {
                SharedStage::LowerPending
            },
            (SharedStage::LowerPending, SharedEvent::PendingLowered) => SharedStage::Finished(
                ExitReason::LoopClosed,
            ),
            (SharedStage::CheckPending, SharedEvent::PendingLoaded(pending)) => if pending {
                SharedStage::RecheckStop
            } else {
                SharedStage::CheckStop
            },
            (SharedStage::RecheckStop, SharedEvent::StopLoaded(stop)) => if stop {
                SharedStage::CheckStop
            } else {
                SharedStage::Nap
            },
            (SharedStage::Nap, SharedEvent::Napped) => SharedStage::CheckPending,
            _ => self,
        }
    }

    /// How many outcomes at most are still taken once the stop flag is set.
    pub open spec fn steps_to_stop(self) -> nat {
        match self {
            SharedStage::Finished(_) => 0,
            SharedStage::CheckStop => 1,
            SharedStage::LowerPending => 1,
            SharedStage::ReadError => 2,
            SharedStage::RecheckStop => 2,
            SharedStage::CheckPending => 3,
            SharedStage::Nap => 4,
            SharedStage::Send => 4,
            SharedStage::RaisePending => 5,
            SharedStage::Drain => 6,
            SharedStage::Poll => 7,
        }
    }
}

/// The worker.
#[derive(Clone, Copy, Debug, PartialEq, Eq, Structural)]
pub struct SharedWorker {
    pub codes: PollCodes,
    pub stage: SharedStage,
}

impl SharedWorker {
    /// A worker that has not begun, with the numbers of this platform.
    pub fn new() -> (r: Self)
        ensures
            r.stage == SharedStage::CheckStop,
            of_this_platform(r.codes),
            r.codes.readable != 0,
            r.codes.error != 0,
            r.codes.hang_up != 0,
            r.codes.invalid != 0,
            r.codes.readable & r.codes.unusable() == 0,
            r.codes.interrupted != 0,
    {
        SharedWorker::with_codes(platform_codes())
    }

    /// A worker that has not begun, with given numbers.
    pub fn with_codes(codes: PollCodes) -> (r: Self)
        ensures
            r == (SharedWorker { codes, stage: SharedStage::CheckStop }),
    {
        SharedWorker { codes, stage: SharedStage::CheckStop }
    }

    /// What to do next.
    pub fn action(&self) -> (r: SharedAction)
        ensures
            r == self.stage.action(self.codes),
    {
        match self.stage {
            SharedStage::CheckStop => SharedAction::LoadStop,
            SharedStage::Poll => SharedAction::Poll {
                events: self.codes.readable,
                timeout_ms: POLL_TIMEOUT_MS,
            },
            SharedStage::ReadError => SharedAction::ReadError,
            SharedStage::Drain => SharedAction::Drain,
            SharedStage::RaisePending => SharedAction::RaisePending,
            SharedStage::Send => SharedAction::SendUpdate,
            SharedStage::LowerPending => SharedAction::LowerPending,
            SharedStage::CheckPending => SharedAction::LoadPending,
            SharedStage::RecheckStop => SharedAction::LoadStop,
            SharedStage::Nap => SharedAction::Nap(NAP_MS),
            SharedStage::Finished(reason) => SharedAction::Exit(reason),
        }
    }

    /// Says what a poll leads to.
    fn after_poll(&self, result: i32, revents: i16) -> (r: SharedStage)
        ensures
            r == polled(self.codes, result, revents),
    {
        if result < 0 {
            return SharedStage::ReadError;
        }
        if result == 0 {
            return SharedStage::CheckStop;
        }
        if revents & (self.codes.error | self.codes.hang_up | self.codes.invalid) != 0 {
            return SharedStage::Finished(ExitReason::Unusable(revents));
        }
        if revents & self.codes.readable != 0 {
            SharedStage::Drain
        } else {
            SharedStage::CheckStop
        }
    }

    /// Takes what came of the last action. An event that was not asked for
    /// changes nothing.
    pub fn step(&mut self, event: SharedEvent)
        ensures
            final(self).codes == old(self).codes,
            final(self).stage == old(self).stage.after(old(self).codes, event),
    {
        let stage: SharedStage = self.stage;
        self.stage = match (stage, event) {
            (SharedStage::CheckStop, SharedEvent::StopLoaded(stop)) => if stop {
                SharedStage::Finished(ExitReason::Stopped)
            } else {
                SharedStage::Poll
            },
            (SharedStage::Poll, SharedEvent::Polled { result, revents }) => self.after_poll(
                result,
                revents,
            ),
            (SharedStage::ReadError, SharedEvent::ErrorRead(Some(number))) => if number
                == self.codes.interrupted {
                SharedStage::CheckStop
            } else {
                SharedStage::Finished(ExitReason::PollFailed)
            },
            (SharedStage::ReadError, SharedEvent::ErrorRead(None)) => SharedStage::Finished(
                ExitReason::PollFailed,
            ),
            (SharedStage::Drain, SharedEvent::Drained(Some(count))) => if count == 0 {
                SharedStage::CheckStop
            } else {
                SharedStage::RaisePending
            },
            (SharedStage::Drain, SharedEvent::Drained(None)) => SharedStage::Finished(
                ExitReason::DrainFailed,
            ),
            (SharedStage::RaisePending, SharedEvent::PendingRaised(raised)) => if raised {
                SharedStage::Send
            } else {
                SharedStage::CheckPending
            },
            (SharedStage::Send, SharedEvent::Sent(taken)) => if taken {
                SharedStage::CheckPending
            } else {
                SharedStage::LowerPending
            },
            (SharedStage::LowerPending, SharedEvent::PendingLowered) => SharedStage::Finished(
                ExitReason::LoopClosed,
            ),
            (SharedStage::CheckPending, SharedEvent::PendingLoaded(pending)) => if pending {
                SharedStage::RecheckStop
            } else {
                SharedStage::CheckStop
            },
            (SharedStage::RecheckStop, SharedEvent::StopLoaded(stop)) => if stop {
                SharedStage::CheckStop
            } else {
                SharedStage::Nap
            },
            (SharedStage::Nap, SharedEvent::Napped) => SharedStage::CheckPending,
            (other, _) => other,
        };
    }
}

/// An event that was not asked for changes nothing.
pub proof fn law_shared_ignores_stray_events(
    codes: PollCodes,
    stage: SharedStage,
    event: SharedEvent,
)
    requires
        !stage.awaits(event),
    ensures
        stage.after(codes, event) == stage,
{
}

/// News is read only after a poll that succeeded and reported the descriptor as
/// readable and as nothing worse.
pub proof fn law_drain_follows_clean_poll(codes: PollCodes, stage: SharedStage, event: SharedEvent)
    requires
        stage != SharedStage::Drain,
        stage.after(codes, event) == SharedStage::Drain,
    ensures
        stage == SharedStage::Poll,
        event matches SharedEvent::Polled { result, revents } && result > 0 && revents
            & codes.unusable() == 0 && revents & codes.readable != 0,
{
}

/// A descriptor that is reported as readable and as nothing else is read.
pub proof fn law_readable_descriptor_is_drained(codes: PollCodes, result: i32)
    requires
        codes.readable != 0,
        codes.readable & codes.unusable() == 0,
        result > 0,
    ensures
        SharedStage::Poll.after(codes, SharedEvent::Polled { result, revents: codes.readable })
            == SharedStage::Drain,
{
    let mask = codes.readable;
    assert(mask & mask == mask) by (bit_vector);
}

/// An update is sent only by the worker that raised the flag.
pub proof fn law_update_follows_raised_flag(
    codes: PollCodes,
    stage: SharedStage,
    event: SharedEvent,
)
    requires
        stage != SharedStage::Send,
        stage.after(codes, event) == SharedStage::Send,
    ensures
        stage == SharedStage::RaisePending,
        event == SharedEvent::PendingRaised(true),
{
}

/// A poll that a signal cut short is tried again, and one that timed out too,
/// unless the worker is to stop.
pub proof fn law_idle_polls_are_repeated(codes: PollCodes, revents: i16)
    ensures
        SharedStage::Poll.after(codes, SharedEvent::Polled { result: 0, revents })
            == SharedStage::CheckStop,
        SharedStage::ReadError.after(codes, SharedEvent::ErrorRead(Some(codes.interrupted)))
            == SharedStage::CheckStop,
        SharedStage::CheckStop.after(codes, SharedEvent::StopLoaded(false)) == SharedStage::Poll,
{
}

/// Whether `events` are, one after the other, outcomes that a worker at `stage`
/// awaits, with the stop flag read as set throughout.
pub open spec fn answers_while_stopped(
    codes: PollCodes,
    stage: SharedStage,
    events: Seq<SharedEvent>,
) -> bool
    decreases events.len(),
{
    events.len() == 0 || {
        &&& stage.awaits(events.first())
        &&& events.first() is StopLoaded ==> events.first() == SharedEvent::StopLoaded(true)
        &&& answers_while_stopped(
            codes,
            stage.after(codes, events.first()),
            events.drop_first(),
        )
    }
}

/// Once the stop flag is set, the worker takes no more than a handful of
/// outcomes: waiting for its end does not take forever.
pub proof fn law_stop_ends_shared_worker(
    codes: PollCodes,
    stage: SharedStage,
    events: Seq<SharedEvent>,
)
    requires
        answers_while_stopped(codes, stage, events),
    ensures
        events.len() <= stage.steps_to_stop() <= 7,
    decreases events.len(),
{
    if events.len() > 0 {
        law_stop_ends_shared_worker(
            codes,
            stage.after(codes, events.first()),
            events.drop_first(),
        );
    }
}

/// Only a worker that is done waits for nothing.
pub proof fn law_unfinished_shared_worker_waits(stage: SharedStage)
    ensures
        (exists|event: SharedEvent| stage.awaits(event)) <==> !(stage is Finished),
{
    match stage {
        SharedStage::CheckStop | SharedStage::RecheckStop => assert(stage.awaits(
            SharedEvent::StopLoaded(true),
        )),
        SharedStage::Poll => assert(stage.awaits(SharedEvent::Polled { result: 0, revents: 0 })),
        SharedStage::ReadError => assert(stage.awaits(SharedEvent::ErrorRead(None))),
        SharedStage::Drain => assert(stage.awaits(SharedEvent::Drained(None))),
        SharedStage::RaisePending => assert(stage.awaits(SharedEvent::PendingRaised(true))),
        SharedStage::Send => assert(stage.awaits(SharedEvent::Sent(true))),
        SharedStage::LowerPending => assert(stage.awaits(SharedEvent::PendingLowered)),
        SharedStage::CheckPending => assert(stage.awaits(SharedEvent::PendingLoaded(true))),
        SharedStage::Nap => assert(stage.awaits(SharedEvent::Napped)),
        SharedStage::Finished(_) => {},
    }
}

/// The stage after `events`, one after the other.
pub open spec fn after_all(
    codes: PollCodes,
    stage: SharedStage,
    events: Seq<SharedEvent>,
) -> SharedStage
    decreases events.len(),
{
    if events.len() == 0 {
        stage
    } else {
        after_all(codes, stage, events.drop_last()).after(codes, events.last())
    }
}

/// Whether the worker waits for an update to be handled.
pub open spec fn is_waiting(stage: SharedStage) -> bool {
    ||| stage == SharedStage::CheckPending
    ||| stage == SharedStage::RecheckStop
    ||| stage == SharedStage::Nap
}

/// Whether none of `events` tells the worker that the update is handled or that
/// it is to stop.
pub open spec fn keeps_waiting(events: Seq<SharedEvent>) -> bool {
    forall|i: int|
        0 <= i < events.len() ==> #[trigger] events[i] != SharedEvent::PendingLoaded(false)
            && events[i] != SharedEvent::StopLoaded(true)
}

/// A worker that waits does nothing but look at the two flags and nap, until it
/// reads the flag of the update as lowered or the stop flag as set: no poll, no
/// reading of news and no second update in between.
pub proof fn law_waiting_worker_only_waits(
    codes: PollCodes,
    stage: SharedStage,
    events: Seq<SharedEvent>,
)
    requires
        is_waiting(stage),
        keeps_waiting(events),
    ensures
        is_waiting(after_all(codes, stage, events)),
        match after_all(codes, stage, events).action(codes) {
            SharedAction::LoadPending | SharedAction::LoadStop | SharedAction::Nap(_) => true,
            _ => false,
        },
    decreases events.len(),
{
    if events.len() > 0 {
        let earlier = events.drop_last();
        assert forall|i: int| 0 <= i < earlier.len() implies #[trigger] earlier[i]
            != SharedEvent::PendingLoaded(false) && earlier[i] != SharedEvent::StopLoaded(true) by {
            assert(earlier[i] == events[i]);
        }
        law_waiting_worker_only_waits(codes, stage, earlier);
        assert(events.last() == events[events.len() - 1]);
    }
}

/// A worker whose update was taken waits for it to be handled.
pub proof fn law_sent_update_is_waited_for(codes: PollCodes, events: Seq<SharedEvent>)
    requires
        keeps_waiting(events),
    ensures
        is_waiting(
            after_all(codes, SharedStage::Send.after(codes, SharedEvent::Sent(true)), events),
        ),
{
    law_waiting_worker_only_waits(
        codes,
        SharedStage::Send.after(codes, SharedEvent::Sent(true)),
        events,
    );
}

/// Whatever came before, a worker that looks at the flag of the update, finds
/// it lowered and is not to stop polls again.
pub proof fn law_lowered_flag_resumes_polling(
    codes: PollCodes,
    stage: SharedStage,
    events: Seq<SharedEvent>,
)
    requires
        after_all(codes, stage, events) == SharedStage::CheckPending,
    ensures
        after_all(
            codes,
            stage,
            events.push(SharedEvent::PendingLoaded(false)).push(SharedEvent::StopLoaded(false)),
        ) == SharedStage::Poll,
{
    let lowered = events.push(SharedEvent::PendingLoaded(false));
    let resumed = lowered.push(SharedEvent::StopLoaded(false));
    assert(lowered.drop_last() =~= events);
    assert(resumed.drop_last() =~= lowered);
    assert(after_all(codes, stage, lowered) == SharedStage::CheckStop);
}

/// Whatever came before, a worker that reads the stop flag as set while the
/// update is still on its way, and then again, is done.
pub proof fn law_stop_ends_waiting(
    codes: PollCodes,
    stage: SharedStage,
    events: Seq<SharedEvent>,
)
    requires
        after_all(codes, stage, events) == SharedStage::RecheckStop,
    ensures
        after_all(
            codes,
            stage,
            events.push(SharedEvent::StopLoaded(true)).push(SharedEvent::StopLoaded(true)),
        ) == SharedStage::Finished(ExitReason::Stopped),
{
    let seen = events.push(SharedEvent::StopLoaded(true));
    let again = seen.push(SharedEvent::StopLoaded(true));
    assert(seen.drop_last() =~= events);
    assert(again.drop_last() =~= seen);
    assert(after_all(codes, stage, seen) == SharedStage::CheckStop);
}

/// No news that was read is lost: however many notices came at once, the worker
/// raises the flag and sends an update.
pub proof fn law_all_news_is_sent_on(codes: PollCodes, count: u64)
    requires
        count > 0,
    ensures
        SharedStage::Drain.after(codes, SharedEvent::Drained(Some(count))).action(codes)
            == SharedAction::RaisePending,
        after_all(
            codes,
            SharedStage::Drain,
            seq![SharedEvent::Drained(Some(count)), SharedEvent::PendingRaised(true)],
        ).action(codes) == SharedAction::SendUpdate,
{
    let one = seq![SharedEvent::Drained(Some(count))];
    let two = seq![SharedEvent::Drained(Some(count)), SharedEvent::PendingRaised(true)];
    assert(one.drop_last() =~= Seq::<SharedEvent>::empty());
    assert(two.drop_last() =~= one);
    reveal_with_fuel(after_all, 3);
}

/// Any two numbers of notices that were read are treated alike, except for none.
pub proof fn law_number_of_notices_does_not_matter(codes: PollCodes, one: u64, other: u64)
    requires
        one > 0,
        other > 0,
    ensures
        SharedStage::Drain.after(codes, SharedEvent::Drained(Some(one)))
            == SharedStage::Drain.after(codes, SharedEvent::Drained(Some(other))),
        SharedStage::Drain.after(codes, SharedEvent::Drained(Some(0))).action(codes)
            == SharedAction::LoadStop,
{
}

/// From readable to sent: a clean poll, news, and a flag that was down lead to an
/// update, whatever the numbers.
pub proof fn law_readable_descriptor_brings_update(
    codes: PollCodes,
    result: i32,
    revents: i16,
    count: u64,
)
    requires
        result > 0,
        revents & codes.readable != 0,
        revents & codes.error == 0,
        revents & codes.hang_up == 0,
        revents & codes.invalid == 0,
        count > 0,
    ensures
        after_all(
            codes,
            SharedStage::Poll,
            seq![
                SharedEvent::Polled { result, revents },
                SharedEvent::Drained(Some(count)),
                SharedEvent::PendingRaised(true),
            ],
        ).action(codes) == SharedAction::SendUpdate,
{
    let (e, h, v) = (codes.error, codes.hang_up, codes.invalid);
    assert(revents & (e | h | v) == 0) by (bit_vector)
        requires
            revents & e == 0,
            revents & h == 0,
            revents & v == 0,
    ;
    let one = seq![SharedEvent::Polled { result, revents }];
    let two = seq![SharedEvent::Polled { result, revents }, SharedEvent::Drained(Some(count))];
    let three = seq![
        SharedEvent::Polled { result, revents },
        SharedEvent::Drained(Some(count)),
        SharedEvent::PendingRaised(true),
    ];
    assert(one.drop_last() =~= Seq::<SharedEvent>::empty());
    assert(two.drop_last() =~= one);
    assert(three.drop_last() =~= two);
    reveal_with_fuel(after_all, 4);
}

/// A poll that reports anything ends the worker exactly where the descriptor has
/// an error, is hung up or is invalid, whatever else is reported, and the bits
/// are told. Otherwise news is read exactly where there is something to read.
pub proof fn law_report_decides_after_poll(codes: PollCodes, result: i32, revents: i16)
    requires
        result > 0,
    ensures
        ({
            let next = SharedStage::Poll.after(
                codes,
                SharedEvent::Polled { result, revents },
            ).action(codes);
            let useless = revents & codes.error != 0 || revents & codes.hang_up != 0 || revents
                & codes.invalid != 0;
            let readable = revents & codes.readable != 0;
            &&& next is Exit <==> useless
            &&& useless ==> next == SharedAction::Exit(ExitReason::Unusable(revents))
            &&& next == SharedAction::Drain <==> !useless && readable
            &&& next == SharedAction::LoadStop <==> !useless && !readable
        }),
{
    let (e, h, v) = (codes.error, codes.hang_up, codes.invalid);
    assert(revents & (e | h | v) == 0 <==> (revents & e == 0 && revents & h == 0 && revents & v
        == 0)) by (bit_vector);
}

/// A poll that failed leads to its error number, and that to another round where
/// a signal came in between, and to the end otherwise. A poll that reports
/// nothing leads to another round, whatever bits are left over.
pub proof fn law_failed_and_idle_polls(
    codes: PollCodes,
    result: i32,
    revents: i16,
    number: Option<i32>,
)
    requires
        result <= 0,
    ensures
        SharedStage::Poll.after(codes, SharedEvent::Polled { result, revents }).action(codes) == (
        if result < 0 {
            SharedAction::ReadError
        } else {
            SharedAction::LoadStop
        }),
        SharedStage::ReadError.after(codes, SharedEvent::ErrorRead(number)).action(codes)
            == SharedAction::LoadStop <==> number == Some(codes.interrupted),
        number != Some(codes.interrupted) ==> SharedStage::ReadError.after(
            codes,
            SharedEvent::ErrorRead(number),
        ).action(codes) == SharedAction::Exit(ExitReason::PollFailed),
{
}

/// News that cannot be read ends the worker.
pub proof fn law_failed_read_ends_worker(codes: PollCodes)
    ensures
        SharedStage::Drain.after(codes, SharedEvent::Drained(None)).action(codes)
            == SharedAction::Exit(ExitReason::DrainFailed),
{
}

/// A flag that was up is not raised again: the worker sends nothing and waits for
/// it to fall, as it does after an update that was taken.
pub proof fn law_flag_and_taken_update_are_waited_for(codes: PollCodes)
    ensures
        SharedStage::RaisePending.after(codes, SharedEvent::PendingRaised(false)).action(codes)
            == SharedAction::LoadPending,
        SharedStage::Send.after(codes, SharedEvent::Sent(true)).action(codes)
            == SharedAction::LoadPending,
        SharedStage::Nap.after(codes, SharedEvent::Napped).action(codes)
            == SharedAction::LoadPending,
{
}

/// An update that the event loop does not take lowers the flag, and then the
/// worker is done.
pub proof fn law_refused_update_lowers_flag_and_ends(codes: PollCodes)
    ensures
        SharedStage::Send.after(codes, SharedEvent::Sent(false)).action(codes)
            == SharedAction::LowerPending,
        SharedStage::Send.after(codes, SharedEvent::Sent(false)).after(
            codes,
            SharedEvent::PendingLowered,
        ).action(codes) == SharedAction::Exit(ExitReason::LoopClosed),
{
}

/// While an update is on its way the worker looks at the stop flag and naps for
/// ten milliseconds between two looks at the flag of the update.
pub proof fn law_waiting_goes_round(codes: PollCodes)
    ensures
        SharedStage::CheckPending.action(codes) == SharedAction::LoadPending,
        SharedStage::CheckPending.after(codes, SharedEvent::PendingLoaded(true)).action(codes)
            == SharedAction::LoadStop,
        after_all(
            codes,
            SharedStage::CheckPending,
            seq![SharedEvent::PendingLoaded(true), SharedEvent::StopLoaded(false)],
        ).action(codes) == SharedAction::Nap(10),
        after_all(
            codes,
            SharedStage::CheckPending,
            seq![
                SharedEvent::PendingLoaded(true),
                SharedEvent::StopLoaded(false),
                SharedEvent::Napped,
            ],
        ) == SharedStage::CheckPending,
{
    let one = seq![SharedEvent::PendingLoaded(true)];
    let two = seq![SharedEvent::PendingLoaded(true), SharedEvent::StopLoaded(false)];
    let three = seq![
        SharedEvent::PendingLoaded(true),
        SharedEvent::StopLoaded(false),
        SharedEvent::Napped,
    ];
    assert(one.drop_last() =~= Seq::<SharedEvent>::empty());
    assert(two.drop_last() =~= one);
    assert(three.drop_last() =~= two);
    reveal_with_fuel(after_all, 4);
}

/// At the start of a round the worker exits where it is to stop. Otherwise it
/// polls for what is readable, for a quarter of a second at most.
pub proof fn law_round_begins_with_stop_flag(codes: PollCodes)
    ensures
        SharedStage::CheckStop.action(codes) == SharedAction::LoadStop,
        SharedStage::CheckStop.after(codes, SharedEvent::StopLoaded(true)).action(codes)
            == SharedAction::Exit(ExitReason::Stopped),
        SharedStage::CheckStop.after(codes, SharedEvent::StopLoaded(false)).action(codes)
            == (SharedAction::Poll { events: codes.readable, timeout_ms: 250 }),
{
}

/// What the worker awaits is what comes of the thing that it asks for, and a
/// worker that is done tells why.
pub proof fn law_shared_worker_awaits_what_it_asks(
    codes: PollCodes,
    stage: SharedStage,
    event: SharedEvent,
    reason: ExitReason,
)
    ensures
        stage.awaits(event) ==> match event {
            SharedEvent::StopLoaded(_) => stage.action(codes) == SharedAction::LoadStop,
            SharedEvent::Polled { .. } => stage.action(codes) == (SharedAction::Poll {
                events: codes.readable,
                timeout_ms: 250,
            }),
            SharedEvent::ErrorRead(_) => stage.action(codes) == SharedAction::ReadError,
            SharedEvent::Drained(_) => stage.action(codes) == SharedAction::Drain,
            SharedEvent::PendingRaised(_) => stage.action(codes) == SharedAction::RaisePending,
            SharedEvent::Sent(_) => stage.action(codes) == SharedAction::SendUpdate,
            SharedEvent::PendingLowered => stage.action(codes) == SharedAction::LowerPending,
            SharedEvent::PendingLoaded(_) => stage.action(codes) == SharedAction::LoadPending,
            SharedEvent::Napped => stage.action(codes) == SharedAction::Nap(10),
        },
        SharedStage::Finished(reason).action(codes) == SharedAction::Exit(reason),
{
}

/// A worker begins with the stop flag, asks for what its stage asks for, goes to
/// the stage that follows from what came of it, and keeps its numbers.
pub proof fn law_shared_worker_follows_its_stages(
    codes: PollCodes,
    fresh: SharedWorker,
    worker: &mut SharedWorker,
    event: SharedEvent,
    asked: SharedAction,
)
    requires
        call_ensures(SharedWorker::with_codes, (codes,), fresh),
        call_ensures(SharedWorker::action, (&*old(worker),), asked),
        call_ensures(SharedWorker::step, (worker, event), ()),
    ensures
        fresh.stage == SharedStage::CheckStop,
        fresh.codes == codes,
        asked == old(worker).stage.action(old(worker).codes),
        final(worker).stage == old(worker).stage.after(old(worker).codes, event),
        final(worker).codes == old(worker).codes,
{
}

/// A worker with the numbers of the platform begins like any other, and can tell
/// a readable descriptor from a useless one.
pub proof fn law_platform_worker_tells_readable_from_useless(fresh: SharedWorker)
    requires
        call_ensures(SharedWorker::new, (), fresh),
    ensures
        fresh.stage == SharedStage::CheckStop,
        of_this_platform(fresh.codes),
        fresh.codes.readable != 0,
        fresh.codes.readable & fresh.codes.error == 0,
        fresh.codes.readable & fresh.codes.hang_up == 0,
        fresh.codes.readable & fresh.codes.invalid == 0,
{
    let (r, e, h, v) = (
        fresh.codes.readable,
        fresh.codes.error,
        fresh.codes.hang_up,
        fresh.codes.invalid,
    );
    assert(r & e == 0 && r & h == 0 && r & v == 0) by (bit_vector)
        requires
            r & (e | h | v) == 0,
    ;
}

} // verus!
