use rustyper::timer::{Timer, TimerRequest, TimerResponse, TimerStep};

#[test]
fn start_get_stop_get_round() {
    let mut timer = Timer::new(0);
    assert_eq!(timer.handle(TimerRequest::Start, 100), TimerStep::Continue);
    assert_eq!(
        timer.handle(TimerRequest::Get, 600),
        TimerStep::Reply(TimerResponse::Time(500, 500))
    );
    assert_eq!(
        timer.handle(TimerRequest::Get, 900),
        TimerStep::Reply(TimerResponse::Time(800, 300))
    );
    assert_eq!(timer.handle(TimerRequest::Stop, 1000), TimerStep::Continue);
    assert_eq!(
        timer.handle(TimerRequest::Get, 1500),
        TimerStep::Reply(TimerResponse::Stopped(800))
    );
}

#[test]
fn get_while_stopped_is_idempotent() {
    // Repeated queries while stopped return the identical frozen duration,
    // whatever instants they are made at.
    let mut timer = Timer::new(0);
    timer.handle(TimerRequest::Start, 100);
    timer.handle(TimerRequest::Get, 700);
    timer.handle(TimerRequest::Stop, 900);
    let first = timer.handle(TimerRequest::Get, 1_000);
    let second = timer.handle(TimerRequest::Get, 50_000);
    let third = timer.handle(TimerRequest::Get, 1_000_000);
    assert_eq!(first, TimerStep::Reply(TimerResponse::Stopped(600)));
    assert_eq!(second, first);
    assert_eq!(third, first);
}

#[test]
fn start_while_running_changes_nothing() {
    let mut timer = Timer::new(0);
    timer.handle(TimerRequest::Start, 100);
    assert_eq!(timer.handle(TimerRequest::Start, 400), TimerStep::Continue);
    // Elapsed time is still measured from the first start.
    assert_eq!(
        timer.handle(TimerRequest::Get, 600),
        TimerStep::Reply(TimerResponse::Time(500, 500))
    );
}

#[test]
fn start_after_stop_runs_the_clock_again() {
    let mut timer = Timer::new(0);
    timer.handle(TimerRequest::Start, 100);
    timer.handle(TimerRequest::Get, 200);
    timer.handle(TimerRequest::Stop, 300);
    assert_eq!(
        timer.handle(TimerRequest::Get, 400),
        TimerStep::Reply(TimerResponse::Stopped(100))
    );
    timer.handle(TimerRequest::Start, 1_000);
    assert_eq!(
        timer.handle(TimerRequest::Get, 1_250),
        TimerStep::Reply(TimerResponse::Time(250, 250))
    );
}

#[test]
fn get_before_any_start_is_frozen_zero() {
    let mut timer = Timer::new(42);
    assert_eq!(
        timer.handle(TimerRequest::Get, 100),
        TimerStep::Reply(TimerResponse::Stopped(0))
    );
}

#[test]
fn exit_terminates_from_any_state() {
    let mut stopped = Timer::new(0);
    assert_eq!(stopped.handle(TimerRequest::Exit, 10), TimerStep::Exit);

    let mut running = Timer::new(0);
    running.handle(TimerRequest::Start, 10);
    assert_eq!(running.handle(TimerRequest::Exit, 20), TimerStep::Exit);
}
