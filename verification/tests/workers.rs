use tao_softbuffer_bar::shared::{
    ExitReason, PollCodes, SharedAction, SharedEvent, SharedStage, SharedWorker,
};
use tao_softbuffer_bar::tick::{sleep_nanos, TickAction, TickEvent, TickStage, TickWorker};

fn codes() -> PollCodes {
    PollCodes {
        readable: 1,
        error: 8,
        hang_up: 16,
        invalid: 32,
        interrupted: 4,
    }
}

fn polling() -> SharedWorker {
    let mut worker = SharedWorker::with_codes(codes());
    worker.step(SharedEvent::StopLoaded(false));
    worker
}

fn sending() -> SharedWorker {
    let mut worker = polling();
    worker.step(SharedEvent::Polled {
        result: 1,
        revents: 1,
    });
    worker.step(SharedEvent::Drained(Some(3)));
    worker.step(SharedEvent::PendingRaised(true));
    worker
}

#[test]
fn sleep_reaches_the_end_of_the_second() {
    assert_eq!(sleep_nanos(Some(0)), 1_000_000_000);
    assert_eq!(sleep_nanos(Some(250_000_000)), 750_000_000);
    assert_eq!(sleep_nanos(Some(999_999_999)), 1);
    assert_eq!(sleep_nanos(None), 1_000_000_000);
    assert_eq!(sleep_nanos(Some(1_000_000_000)), 0);
    assert_eq!(sleep_nanos(Some(u32::MAX)), 0);
}

#[test]
fn tick_worker_goes_round() {
    let mut worker = TickWorker::new();
    assert_eq!(worker.action(), TickAction::LoadStop);
    worker.step(TickEvent::StopLoaded(false));
    assert_eq!(worker.action(), TickAction::ReadClock);
    worker.step(TickEvent::ClockRead(Some(400_000_000)));
    assert_eq!(worker.action(), TickAction::Sleep(600_000_000));
    worker.step(TickEvent::Slept);
    assert_eq!(worker.action(), TickAction::LoadStop);
    worker.step(TickEvent::StopLoaded(false));
    assert_eq!(worker.action(), TickAction::SendTick);
    worker.step(TickEvent::Sent(true));
    assert_eq!(worker, TickWorker::new());
}

#[test]
fn tick_worker_stops_before_and_after_the_sleep() {
    let mut worker = TickWorker::new();
    worker.step(TickEvent::StopLoaded(true));
    assert_eq!(worker.action(), TickAction::Exit);
    let mut worker = TickWorker {
        stage: TickStage::RecheckStop,
    };
    worker.step(TickEvent::StopLoaded(true));
    assert_eq!(worker.action(), TickAction::Exit);
    worker.step(TickEvent::StopLoaded(false));
    assert_eq!(worker.action(), TickAction::Exit);
}

#[test]
fn tick_worker_ends_with_the_loop() {
    let mut worker = TickWorker {
        stage: TickStage::Send,
    };
    worker.step(TickEvent::Sent(false));
    assert_eq!(worker.action(), TickAction::Exit);
}

#[test]
fn tick_worker_ignores_stray_events() {
    let mut worker = TickWorker::new();
    worker.step(TickEvent::Slept);
    worker.step(TickEvent::Sent(false));
    worker.step(TickEvent::ClockRead(None));
    assert_eq!(worker, TickWorker::new());
}

#[test]
fn stopped_tick_worker_ends_within_five_outcomes() {
    let mut worker = TickWorker {
        stage: TickStage::ReadClock,
    };
    worker.step(TickEvent::ClockRead(None));
    worker.step(TickEvent::Slept);
    worker.step(TickEvent::StopLoaded(true));
    assert_eq!(worker.stage, TickStage::Finished);
}

#[test]
fn shared_worker_uses_the_numbers_of_the_platform() {
    let worker = SharedWorker::new();
    assert_eq!(worker.codes.readable, libc::POLLIN);
    assert_eq!(worker.codes.error, libc::POLLERR);
    assert_eq!(worker.codes.hang_up, libc::POLLHUP);
    assert_eq!(worker.codes.invalid, libc::POLLNVAL);
    assert_eq!(worker.codes.interrupted, libc::EINTR);
    assert_ne!(worker.codes.interrupted, 0);
    assert_eq!(worker.action(), SharedAction::LoadStop);
    assert_eq!(
        worker.codes.readable & (worker.codes.error | worker.codes.hang_up | worker.codes.invalid),
        0
    );
}

#[test]
fn shared_worker_goes_round() {
    let mut worker = polling();
    assert_eq!(
        worker.action(),
        SharedAction::Poll {
            events: 1,
            timeout_ms: 250
        }
    );
    worker.step(SharedEvent::Polled {
        result: 1,
        revents: 1,
    });
    assert_eq!(worker.action(), SharedAction::Drain);
    worker.step(SharedEvent::Drained(Some(2)));
    assert_eq!(worker.action(), SharedAction::RaisePending);
    worker.step(SharedEvent::PendingRaised(true));
    assert_eq!(worker.action(), SharedAction::SendUpdate);
    worker.step(SharedEvent::Sent(true));
    assert_eq!(worker.action(), SharedAction::LoadPending);
    worker.step(SharedEvent::PendingLoaded(true));
    assert_eq!(worker.action(), SharedAction::LoadStop);
    worker.step(SharedEvent::StopLoaded(false));
    assert_eq!(worker.action(), SharedAction::Nap(10));
    worker.step(SharedEvent::Napped);
    assert_eq!(worker.action(), SharedAction::LoadPending);
    worker.step(SharedEvent::PendingLoaded(false));
    assert_eq!(worker, SharedWorker::with_codes(codes()));
}

#[test]
fn idle_polls_are_repeated() {
    let mut worker = polling();
    worker.step(SharedEvent::Polled {
        result: 0,
        revents: 63,
    });
    assert_eq!(worker.stage, SharedStage::CheckStop);
    let mut worker = polling();
    worker.step(SharedEvent::Polled {
        result: 1,
        revents: 4,
    });
    assert_eq!(worker.stage, SharedStage::CheckStop);
    let mut worker = polling();
    worker.step(SharedEvent::Polled {
        result: 1,
        revents: 1,
    });
    worker.step(SharedEvent::Drained(Some(0)));
    assert_eq!(worker.stage, SharedStage::CheckStop);
}

#[test]
fn poll_failures_end_the_worker_unless_a_signal_came() {
    let mut worker = polling();
    worker.step(SharedEvent::Polled {
        result: -1,
        revents: 0,
    });
    assert_eq!(worker.action(), SharedAction::ReadError);
    let mut failed = worker;
    let mut unknown = worker;
    worker.step(SharedEvent::ErrorRead(Some(4)));
    assert_eq!(worker.action(), SharedAction::LoadStop);
    failed.step(SharedEvent::ErrorRead(Some(9)));
    assert_eq!(failed.action(), SharedAction::Exit(ExitReason::PollFailed));
    unknown.step(SharedEvent::ErrorRead(None));
    assert_eq!(unknown.action(), SharedAction::Exit(ExitReason::PollFailed));
}

#[test]
fn useless_descriptor_ends_the_worker_though_readable() {
    for revents in [8 | 1, 16 | 1, 32 | 1, 8, 16, 32] {
        let mut worker = polling();
        worker.step(SharedEvent::Polled { result: 1, revents });
        assert_eq!(
            worker.action(),
            SharedAction::Exit(ExitReason::Unusable(revents))
        );
    }
}

#[test]
fn failed_drain_ends_the_worker() {
    let mut worker = polling();
    worker.step(SharedEvent::Polled {
        result: 1,
        revents: 1,
    });
    worker.step(SharedEvent::Drained(None));
    assert_eq!(worker.action(), SharedAction::Exit(ExitReason::DrainFailed));
}

#[test]
fn flag_that_is_up_is_waited_for_without_sending() {
    let mut worker = polling();
    worker.step(SharedEvent::Polled {
        result: 1,
        revents: 1,
    });
    worker.step(SharedEvent::Drained(Some(1)));
    worker.step(SharedEvent::PendingRaised(false));
    assert_eq!(worker.action(), SharedAction::LoadPending);
}

#[test]
fn update_that_is_not_taken_lowers_the_flag_and_ends_the_worker() {
    let mut worker = sending();
    worker.step(SharedEvent::Sent(false));
    assert_eq!(worker.action(), SharedAction::LowerPending);
    worker.step(SharedEvent::PendingLowered);
    assert_eq!(worker.action(), SharedAction::Exit(ExitReason::LoopClosed));
}

#[test]
fn stopped_shared_worker_ends() {
    let mut worker = SharedWorker::with_codes(codes());
    worker.step(SharedEvent::StopLoaded(true));
    assert_eq!(worker.action(), SharedAction::Exit(ExitReason::Stopped));
    let mut worker = sending();
    worker.step(SharedEvent::Sent(true));
    worker.step(SharedEvent::PendingLoaded(true));
    worker.step(SharedEvent::StopLoaded(true));
    worker.step(SharedEvent::StopLoaded(true));
    assert_eq!(worker.action(), SharedAction::Exit(ExitReason::Stopped));
}

#[test]
fn shared_worker_ignores_stray_events() {
    let mut worker = polling();
    worker.step(SharedEvent::Napped);
    worker.step(SharedEvent::Sent(true));
    worker.step(SharedEvent::StopLoaded(true));
    assert_eq!(worker, polling());
}

/// Runs the worker and the event loop by turns and counts what is queued.
#[test]
fn at_most_one_update_is_queued() {
    let mut worker = SharedWorker::with_codes(codes());
    let mut pending = false;
    let mut queued: u32 = 0;
    let mut handled: u32 = 0;
    for turn in 0..400 {
        let event = match worker.action() {
            SharedAction::LoadStop => SharedEvent::StopLoaded(false),
            SharedAction::Poll { .. } => SharedEvent::Polled {
                result: 1,
                revents: 1,
            },
            SharedAction::Drain => SharedEvent::Drained(Some(1)),
            SharedAction::RaisePending => {
                let raised = !pending;
                pending = true;
                assert!(raised);
                SharedEvent::PendingRaised(raised)
            }
            SharedAction::SendUpdate => {
                queued += 1;
                SharedEvent::Sent(true)
            }
            SharedAction::LoadPending => SharedEvent::PendingLoaded(pending),
            SharedAction::Nap(_) => SharedEvent::Napped,
            other => panic!("unexpected {other:?}"),
        };
        worker.step(event);
        assert!(queued <= 1);
        if turn % 7 == 6 && queued == 1 {
            queued -= 1;
            handled += 1;
            pending = false;
        }
    }
    assert!(handled > 10);
}

#[test]
fn waiting_worker_only_waits_and_then_polls_again() {
    let mut worker = sending();
    worker.step(SharedEvent::Sent(true));
    for _ in 0..5 {
        assert_eq!(worker.action(), SharedAction::LoadPending);
        worker.step(SharedEvent::PendingLoaded(true));
        assert_eq!(worker.action(), SharedAction::LoadStop);
        worker.step(SharedEvent::StopLoaded(false));
        assert_eq!(worker.action(), SharedAction::Nap(10));
        worker.step(SharedEvent::Napped);
    }
    worker.step(SharedEvent::PendingLoaded(false));
    worker.step(SharedEvent::StopLoaded(false));
    assert_eq!(worker, polling());
}
