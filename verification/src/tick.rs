//! The worker that wakes the event loop once a second.
//!
//! The worker is a state machine. `action` names the one thing to do next;
//! `step` takes what came of it. It sleeps to the end of the running second, so
//! that the clock on the bar changes when the second does.

use vstd::prelude::*;

verus! {

/// Nanoseconds in a second.
pub const SECOND_NANOS: u64 = 1_000_000_000;

/// What the worker waits for.
#[derive(Clone, Copy, Debug, PartialEq, Eq, Structural)]
pub enum TickStage {
    /// The stop flag, before a new second is begun.
    CheckStop,
    /// The time of day.
    ReadClock,
    /// The end of a sleep of so many nanoseconds.
    Sleep(u64),
    /// The stop flag, after the sleep.
    RecheckStop,
    /// The outcome of sending the tick.
    Send,
    /// Nothing: the worker is done.
    Finished,
}

/// What the worker asks for.
#[derive(Clone, Copy, Debug, PartialEq, Eq, Structural)]
pub enum TickAction {
    /// Read the stop flag.
    LoadStop,
    /// Read the time of day.
    ReadClock,
    /// Sleep so many nanoseconds.
    Sleep(u64),
    /// Send a tick to the event loop.
    SendTick,
    /// End the thread.
    Exit,
}

/// What came of an action.
#[derive(Clone, Copy, Debug, PartialEq, Eq, Structural)]
pub enum TickEvent {
    /// The stop flag as it was read.
    StopLoaded(bool),
    /// The nanoseconds of the running second, or none where the clock stands
    /// before the epoch.
    ClockRead(Option<u32>),
    /// The sleep is over.
    Slept,
    /// Whether the event loop took the tick.
    Sent(bool),
}

/// The nanoseconds of the running second, a clock before the epoch counting as
/// the start of one.
pub open spec fn nanos_into_second(clock: Option<u32>) -> int {
    match clock {
        Some(nanos) => nanos as int,
        None => 0,
    }
}

/// How long to sleep to reach the end of the running second.
pub open spec fn rest_of_second(clock: Option<u32>) -> int {
    if nanos_into_second(clock) < SECOND_NANOS {
        SECOND_NANOS - nanos_into_second(clock)
    } else {
        0
    }
}

/// Computes how many nanoseconds are left of the running second.
pub fn sleep_nanos(clock: Option<u32>) -> (r: u64)
    ensures
        r == rest_of_second(clock),
{
    let nanos: u32 = match clock {
        Some(nanos) => nanos,
        None => 0,
    };
    SECOND_NANOS.saturating_sub(nanos as u64)
}

impl TickStage {
    /// What to do at this stage.
    pub open spec fn action(self) -> TickAction {
        match self {
            TickStage::CheckStop => TickAction::LoadStop,
            TickStage::ReadClock => TickAction::ReadClock,
            TickStage::Sleep(nanos) => TickAction::Sleep(nanos),
            TickStage::RecheckStop => TickAction::LoadStop,
            TickStage::Send => TickAction::SendTick,
            TickStage::Finished => TickAction::Exit,
        }
    }

    /// Whether `event` is an outcome of what this stage asks for.
    pub open spec fn awaits(self, event: TickEvent) -> bool {
        match self.action() {
            TickAction::LoadStop => event is StopLoaded,
            TickAction::ReadClock => event is ClockRead,
            TickAction::Sleep(_) => event is Slept,
            TickAction::SendTick => event is Sent,
            TickAction::Exit => false,
        }
    }

    /// The stage after an outcome that this stage awaits; any other event
    /// leaves the stage as it is.
    pub open spec fn after(self, event: TickEvent) -> TickStage {
        match (self, event) {
            (TickStage::CheckStop, TickEvent::StopLoaded(stop)) => if stop {
                TickStage::Finished
            } else {
                TickStage::ReadClock
            },
            (TickStage::ReadClock, TickEvent::ClockRead(clock)) => TickStage::Sleep(
                rest_of_second(clock) as u64,
            ),
            (TickStage::Sleep(_), TickEvent::Slept) => TickStage::RecheckStop,
            (TickStage::RecheckStop, TickEvent::StopLoaded(stop)) => if stop {
                TickStage::Finished
            } else {
                TickStage::Send
            },
            (TickStage::Send, TickEvent::Sent(taken)) => if taken {
                TickStage::CheckStop
            } else {
                TickStage::Finished
            },
            _ => self,
        }
    }

    /// How many outcomes at most are still taken once the stop flag is set.
    pub open spec fn steps_to_stop(self) -> nat {
        match self {
            TickStage::Finished => 0,
            TickStage::CheckStop => 1,
            TickStage::Send => 2,
            TickStage::RecheckStop => 3,
            TickStage::Sleep(_) => 4,
            TickStage::ReadClock => 5,
        }
    }
}

/// The worker.
#[derive(Clone, Copy, Debug, PartialEq, Eq, Structural)]
pub struct TickWorker {
    pub stage: TickStage,
}

impl TickWorker {
    /// A worker that has not begun.
    pub fn new() -> (r: Self)
        ensures
            r.stage == TickStage::CheckStop,
    {
        TickWorker { stage: TickStage::CheckStop }
    }

    /// What to do next.
    pub fn action(&self) -> (r: TickAction)
        ensures
            r == self.stage.action(),
    {
        match self.stage {
            TickStage::CheckStop => TickAction::LoadStop,
            TickStage::ReadClock => TickAction::ReadClock,
            TickStage::Sleep(nanos) => TickAction::Sleep(nanos),
            TickStage::RecheckStop => TickAction::LoadStop,
            TickStage::Send => TickAction::SendTick,
            TickStage::Finished => TickAction::Exit,
        }
    }

    /// Takes what came of the last action. An event that was not asked for
    /// changes nothing.
    pub fn step(&mut self, event: TickEvent)
        ensures
            final(self).stage == old(self).stage.after(event),
    {
        let stage: TickStage = self.stage;
        self.stage = match (stage, event) {
            (TickStage::CheckStop, TickEvent::StopLoaded(stop)) => if stop {
                TickStage::Finished
            } else {
                TickStage::ReadClock
            },
            (TickStage::ReadClock, TickEvent::ClockRead(clock)) => TickStage::Sleep(
                sleep_nanos(clock),
            ),
            (TickStage::Sleep(_), TickEvent::Slept) => TickStage::RecheckStop,
            (TickStage::RecheckStop, TickEvent::StopLoaded(stop)) => if stop {
                TickStage::Finished
            } else {
                TickStage::Send
            },
            (TickStage::Send, TickEvent::Sent(taken)) => if taken {
                TickStage::CheckStop
            } else {
                TickStage::Finished
            },
            (other, _) => other,
        };
    }
}

/// Sleeping what is left of a second ends on a whole second, and never takes
/// longer than one.
pub proof fn law_sleep_ends_with_second(clock: Option<u32>)
    requires
        nanos_into_second(clock) < SECOND_NANOS,
    ensures
        0 < rest_of_second(clock) <= SECOND_NANOS,
        (nanos_into_second(clock) + rest_of_second(clock)) % (SECOND_NANOS as int) == 0,
{
}

/// A tick is sent only right after the stop flag was read as unset, and that
/// only after a sleep.
pub proof fn law_tick_follows_unset_flag(stage: TickStage, event: TickEvent)
    requires
        stage.action() != TickAction::SendTick,
        stage.after(event).action() == TickAction::SendTick,
    ensures
        stage == TickStage::RecheckStop,
        event == TickEvent::StopLoaded(false),
{
}

/// An event that was not asked for changes nothing.
pub proof fn law_tick_ignores_stray_events(stage: TickStage, event: TickEvent)
    requires
        !stage.awaits(event),
    ensures
        stage.after(event) == stage,
{
}

/// A worker that is done stays done.
pub proof fn law_tick_worker_stays_finished(event: TickEvent)
    ensures
        TickStage::Finished.after(event) == TickStage::Finished,
{
}

/// Whether `events` are, one after the other, outcomes that a worker at `stage`
/// awaits, with the stop flag read as set throughout.
pub open spec fn answers_while_stopped(stage: TickStage, events: Seq<TickEvent>) -> bool
    decreases events.len(),
{
    events.len() == 0 || {
        &&& stage.awaits(events.first())
        &&& events.first() is StopLoaded ==> events.first() == TickEvent::StopLoaded(true)
        &&& answers_while_stopped(stage.after(events.first()), events.drop_first())
    }
}

/// Once the stop flag is set, the worker takes no more than a handful of
/// outcomes: waiting for its end does not take forever.
pub proof fn law_stop_ends_tick_worker(stage: TickStage, events: Seq<TickEvent>)
    requires
        answers_while_stopped(stage, events),
    ensures
        events.len() <= stage.steps_to_stop() <= 5,
    decreases events.len(),
{
    if events.len() > 0 {
        law_stop_ends_tick_worker(stage.after(events.first()), events.drop_first());
    }
}

/// Only a worker that is done waits for nothing.
pub proof fn law_unfinished_tick_worker_waits(stage: TickStage)
    ensures
        (exists|event: TickEvent| stage.awaits(event)) <==> stage != TickStage::Finished,
{
    match stage.action() {
        TickAction::LoadStop => assert(stage.awaits(TickEvent::StopLoaded(true))),
        TickAction::ReadClock => assert(stage.awaits(TickEvent::ClockRead(None))),
        TickAction::Sleep(_) => assert(stage.awaits(TickEvent::Slept)),
        TickAction::SendTick => assert(stage.awaits(TickEvent::Sent(true))),
        TickAction::Exit => {},
    }
}

/// A tick that the event loop does not take ends the worker.
pub proof fn law_closed_loop_ends_tick_worker(stage: TickStage)
    requires
        stage.action() == TickAction::SendTick,
    ensures
        stage.after(TickEvent::Sent(false)) == TickStage::Finished,
{
}

/// The sleep that the worker asks for ends with the running second: it is never
/// empty, never longer than a second, and lands on a whole one.
pub proof fn law_worker_sleeps_to_end_of_second(clock: Option<u32>)
    requires
        clock matches Some(nanos) ==> nanos < 1_000_000_000,
    ensures
        ({
            let nanos = match clock {
                Some(nanos) => nanos as int,
                None => 0,
            };
            TickStage::ReadClock.after(TickEvent::ClockRead(clock)).action()
                matches TickAction::Sleep(sleep) && 0 < sleep <= 1_000_000_000 && (nanos + sleep)
                % 1_000_000_000 == 0
        }),
{
}

/// A clock that reports a second or more is not slept for.
pub proof fn law_worker_never_oversleeps(nanos: u32)
    requires
        nanos >= 1_000_000_000,
    ensures
        TickStage::ReadClock.after(TickEvent::ClockRead(Some(nanos))).action()
            == TickAction::Sleep(0),
{
}

/// The later in the second the clock is read, the shorter the sleep, by exactly
/// the difference.
pub proof fn law_sleep_shrinks_with_clock(early: u32, late: u32, long: u64, short: u64)
    requires
        early <= late < 1_000_000_000,
        TickStage::ReadClock.after(TickEvent::ClockRead(Some(early))).action()
            == TickAction::Sleep(long),
        TickStage::ReadClock.after(TickEvent::ClockRead(Some(late))).action()
            == TickAction::Sleep(short),
    ensures
        long - short == late - early,
{
}

/// The number that is computed for a sleep is the one that the worker asks for.
pub proof fn law_computed_sleep_is_asked_for(clock: Option<u32>, nanos: u64)
    requires
        call_ensures(sleep_nanos, (clock,), nanos),
    ensures
        TickStage::ReadClock.after(TickEvent::ClockRead(clock)).action() == TickAction::Sleep(nanos),
        TickStage::Sleep(nanos).action() == TickAction::Sleep(nanos),
{
}

/// The stage after `events`, one after the other.
pub open spec fn after_all(stage: TickStage, events: Seq<TickEvent>) -> TickStage
    decreases events.len(),
{
    if events.len() == 0 {
        stage
    } else {
        after_all(stage, events.drop_last()).after(events.last())
    }
}

/// A round of a worker that is not to stop: it reads the flag, reads the clock,
/// sleeps, reads the flag again and sends one tick; then the next round begins.
pub proof fn law_every_round_sends_a_tick(clock: Option<u32>)
    ensures
        ({
            let unset = TickEvent::StopLoaded(false);
            let read = TickEvent::ClockRead(clock);
            let begin = TickStage::CheckStop;
            &&& begin.action() == TickAction::LoadStop
            &&& after_all(begin, seq![unset]).action() == TickAction::ReadClock
            &&& after_all(begin, seq![unset, read]).action() is Sleep
            &&& after_all(begin, seq![unset, read, TickEvent::Slept]).action()
                == TickAction::LoadStop
            &&& after_all(begin, seq![unset, read, TickEvent::Slept, unset]).action()
                == TickAction::SendTick
            &&& after_all(begin, seq![unset, read, TickEvent::Slept, unset, TickEvent::Sent(true)])
                == begin
        }),
{
    let unset = TickEvent::StopLoaded(false);
    let read = TickEvent::ClockRead(clock);
    let e1 = seq![unset];
    let e2 = seq![unset, read];
    let e3 = seq![unset, read, TickEvent::Slept];
    let e4 = seq![unset, read, TickEvent::Slept, unset];
    let e5 = seq![unset, read, TickEvent::Slept, unset, TickEvent::Sent(true)];
    assert(e1.drop_last() =~= Seq::<TickEvent>::empty());
    assert(e2.drop_last() =~= e1);
    assert(e3.drop_last() =~= e2);
    assert(e4.drop_last() =~= e3);
    assert(e5.drop_last() =~= e4);
    reveal_with_fuel(after_all, 6);
}

/// Wherever the worker reads the stop flag, reading it as set makes it exit
/// without another tick, and reading it as unset lets it go on.
pub proof fn law_tick_worker_obeys_stop_flag(stage: TickStage)
    requires
        stage.action() == TickAction::LoadStop,
    ensures
        stage.after(TickEvent::StopLoaded(true)).action() == TickAction::Exit,
        stage.after(TickEvent::StopLoaded(false)).action() != TickAction::Exit,
        stage.after(TickEvent::StopLoaded(false)).action() != TickAction::LoadStop,
{
}

/// What the worker awaits is what comes of the thing that it asks for.
pub proof fn law_tick_worker_awaits_what_it_asks(stage: TickStage, event: TickEvent)
    requires
        stage.awaits(event),
    ensures
        match event {
            TickEvent::StopLoaded(_) => stage.action() == TickAction::LoadStop,
            TickEvent::ClockRead(_) => stage.action() == TickAction::ReadClock,
            TickEvent::Slept => stage.action() is Sleep,
            TickEvent::Sent(_) => stage.action() == TickAction::SendTick,
        },
{
}

/// A worker begins with the stop flag, asks for what its stage asks for, and goes
/// to the stage that follows from what came of it.
pub proof fn law_tick_worker_follows_its_stages(
    fresh: TickWorker,
    worker: &mut TickWorker,
    event: TickEvent,
    asked: TickAction,
)
    requires
        call_ensures(TickWorker::new, (), fresh),
        call_ensures(TickWorker::action, (&*old(worker),), asked),
        call_ensures(TickWorker::step, (worker, event), ()),
    ensures
        fresh.stage == TickStage::CheckStop,
        asked == old(worker).stage.action(),
        final(worker).stage == old(worker).stage.after(event),
{
}

} // verus!
