//! The elapsed-time service.
//!
//! The service answers four request kinds — `Start`, `Get`, `Stop`, `Exit` —
//! and keeps a start instant, the instant of the latest query while running,
//! and a running flag. Instants are plain nanosecond readings of a monotonic
//! clock; the worker loop that receives requests and reads the clock lives
//! outside and hands each reading in, so every transition here is a checked
//! function of the state, the request and that reading.

use vstd::prelude::*;

verus! {

/// A request to the timer service.
#[derive(Clone, Copy, PartialEq, Eq, Debug)]
pub enum TimerRequest {
    Start,
    Get,
    Stop,
    Exit,
}

/// A reply from the timer service, in nanoseconds.
#[derive(Clone, Copy, PartialEq, Eq, Debug)]
pub enum TimerResponse {
    /// Elapsed time since `Start` and delta since the previous query.
    Time(u128, u128),
    /// Frozen elapsed time: the timer is not running.
    Stopped(u128),
}

/// What a request leaves the service's loop to do: send a reply and go on,
/// go on silently, or terminate.
#[derive(Clone, Copy, PartialEq, Eq, Debug)]
pub enum TimerStep {
    Reply(TimerResponse),
    Continue,
    Exit,
}

/// The timer service's state: the instant `Start` was received, the instant of
/// the latest `Get` while running, and whether the timer is running.
pub struct Timer {
    pub start: u128,
    pub previous: u128,
    pub running: bool,
}

impl Timer {
    /// The latest query never precedes the start.
    pub open spec fn wf(self) -> bool {
        self.start <= self.previous
    }

    /// The transition relation: the state and step outcome that a request made
    /// at instant `now` leaves behind.
    pub open spec fn spec_handle(self, request: TimerRequest, now: u128) -> (Timer, TimerStep) {
        match request {
            TimerRequest::Start => {
                if self.running {
                    (self, TimerStep::Continue)
                } else {
                    (Timer { start: now, previous: now, running: true }, TimerStep::Continue)
                }
            },
            TimerRequest::Get => {
                if self.running {
                    (
                        Timer { start: self.start, previous: now, running: true },
                        TimerStep::Reply(
                            TimerResponse::Time(
                                (now - self.start) as u128,
                                (now - self.previous) as u128,
                            ),
                        ),
                    )
                } else {
                    (
                        self,
                        TimerStep::Reply(
                            TimerResponse::Stopped((self.previous - self.start) as u128),
                        ),
                    )
                }
            },
            TimerRequest::Stop => (
                Timer { start: self.start, previous: self.previous, running: false },
                TimerStep::Continue,
            ),
            TimerRequest::Exit => (self, TimerStep::Exit),
        }
    }

    /// A fresh service created at instant `now`: stopped, with a frozen
    /// elapsed time of zero.
    pub fn new(now: u128) -> (t: Timer)
        ensures
            t.wf(),
            t.start == now,
            t.previous == now,
            !t.running,
    {
        Timer { start: now, previous: now, running: false }
    }

    /// Handles one request at instant `now`.
    ///
    /// `Start` sets the clock running from `now`; a `Start` while already
    /// running changes nothing. `Get` while running advances the query instant
    /// to `now` and replies with the cumulative elapsed time and the delta
    /// since the previous query; `Get` while stopped changes nothing and
    /// replies with the frozen elapsed time. `Stop` freezes the timer and
    /// `Exit` asks the loop to terminate.
    pub fn handle(&mut self, request: TimerRequest, now: u128) -> (step: TimerStep)
        requires
            old(self).wf(),
            now >= old(self).previous,
        ensures
            final(self).wf(),
            final(self).previous <= now,
            (*final(self), step) == old(self).spec_handle(request, now),
    {
        match request {
            TimerRequest::Start => {
                if !self.running {
                    self.start = now;
                    self.previous = now;
                    self.running = true;
                }
                TimerStep::Continue
            },
            TimerRequest::Get => {
                if self.running {
                    let elapsed: u128 = now - self.start;
                    let delta: u128 = now - self.previous;
                    self.previous = now;
                    TimerStep::Reply(TimerResponse::Time(elapsed, delta))
                } else {
                    TimerStep::Reply(TimerResponse::Stopped(self.previous - self.start))
                }
            },
            TimerRequest::Stop => {
                self.running = false;
                TimerStep::Continue
            },
            TimerRequest::Exit => TimerStep::Exit,
        }
    }
}

/// `Get` while stopped is idempotent: it leaves the timer unchanged, and any
/// two such queries return the same frozen duration, whatever instants they
/// are made at, until a `Start` sets the clock running again.
pub proof fn lemma_get_while_stopped_idempotent(t: Timer, now1: u128, now2: u128)
    requires
        t.wf(),
        !t.running,
    ensures
        t.spec_handle(TimerRequest::Get, now1).0 == t,
        t.spec_handle(TimerRequest::Get, now1).1 == t.spec_handle(TimerRequest::Get, now2).1,
{
}

} // verus!
