//! The evaluator: the typing-test state machine.
//!
//! The evaluator owns the validity log, an ordered record of one boolean per
//! accepted keystroke — `true` where the keystroke matched the reference text
//! at that position. A character event appends the verdict for the character
//! at the current log length; a backspace retracts the latest verdict, or does
//! nothing, explicitly, on an empty log. The test is complete exactly when the
//! log is as long as the reference text, whatever the last verdict was.
//!
//! The loop that receives key events and makes the timer round-trip per
//! character lives outside; it hands each event and each timer reply in, so
//! every decision here is a checked function of the state and those values.

use vstd::prelude::*;

use crate::timer::TimerResponse;
use crate::wpm::{calculate_wpm, correct_count, wpm_hundredths};

verus! {

/// A key event handed to the evaluator by input capture. Input that is neither
/// a printable character nor a backspace is filtered out before it gets here.
#[derive(Clone, Copy, PartialEq, Eq, Debug)]
pub enum KeyEvent {
    Character(char),
    Backspace,
}

/// A render command for the display sink. The sink owns all presentation
/// state; these name only the decision taken. `Nothing` says explicitly that a
/// backspace found nothing to retract, and `Finished` tells the sink the test
/// is over.
#[derive(Clone, Copy, PartialEq, Eq, Debug)]
pub enum FrontMessage {
    Valid { character: char, wpm_hundredths: u128 },
    Invalid { character: char, wpm_hundredths: u128 },
    Backspace,
    Nothing,
    Finished,
}

/// Where the evaluator stands: waiting for the timer to start, consuming key
/// events, done with the whole text, or given up after a failure.
#[derive(Clone, Copy, PartialEq, Eq, Debug)]
pub enum Phase {
    AwaitingStart,
    Running,
    Finished,
    Aborted,
}

/// The validity log after a character event: the verdict for `c` against the
/// reference character at the current position is appended.
pub open spec fn log_after_character(log: Seq<bool>, text: Seq<char>, c: char) -> Seq<bool> {
    log.push(c == text[log.len() as int])
}

/// The validity log after a backspace: the latest verdict is retracted, and an
/// empty log stays empty.
pub open spec fn log_after_backspace(log: Seq<bool>) -> Seq<bool> {
    if log.len() == 0 {
        log
    } else {
        log.drop_last()
    }
}

/// The validity log that a sequence of key events leaves behind, starting from
/// an empty log: each character event appends its verdict while the text is
/// not yet exhausted, each backspace retracts one.
pub open spec fn replay(text: Seq<char>, events: Seq<KeyEvent>) -> Seq<bool>
    decreases events.len(),
{
    if events.len() == 0 {
        Seq::empty()
    } else {
        let prev = replay(text, events.drop_last());
        match events.last() {
            KeyEvent::Character(c) => if prev.len() < text.len() {
                log_after_character(prev, text, c)
            } else {
                prev
            },
            KeyEvent::Backspace => log_after_backspace(prev),
        }
    }
}

/// Whether `events` types `text` exactly: one character event per reference
/// character, in order, each one correct.
pub open spec fn types_text_correctly(text: Seq<char>, events: Seq<KeyEvent>) -> bool {
    &&& events.len() == text.len()
    &&& forall|j: int| 0 <= j < events.len() ==> events[j] == KeyEvent::Character(text[j])
}

/// The elapsed time a timer reply contributes to a speed figure. A `Stopped`
/// reply mid-test means the timer was never started; no time is credited, so
/// the figure falls back to zero rather than a fabricated value.
pub open spec fn response_elapsed(response: TimerResponse) -> nat {
    match response {
        TimerResponse::Time(elapsed, _) => elapsed as nat,
        TimerResponse::Stopped(_) => 0,
    }
}

/// The evaluator: the reference text, the validity log, and the phase.
pub struct Evaluator {
    pub text: Vec<char>,
    pub validity: Vec<bool>,
    pub phase: Phase,
}

impl Evaluator {
    /// The log never outgrows the text; before the test it is empty, while the
    /// test runs some text is left, and the test is finished exactly when the
    /// whole text is logged.
    pub open spec fn wf(self) -> bool {
        &&& self.validity@.len() <= self.text@.len()
        &&& (self.phase is AwaitingStart ==> self.validity@.len() == 0)
        &&& (self.phase is Running ==> self.validity@.len() < self.text@.len())
        &&& (self.phase is Finished ==> self.validity@.len() == self.text@.len())
    }

    /// A fresh evaluator over `text`, with an empty log, waiting for the timer
    /// to be started.
    pub fn new(text: Vec<char>) -> (e: Evaluator)
        ensures
            e.wf(),
            e.text@ == text@,
            e.validity@ == Seq::<bool>::empty(),
            e.phase is AwaitingStart,
    {
        Evaluator { text, validity: Vec::new(), phase: Phase::AwaitingStart }
    }

    /// Records the outcome of the initial `Start` request to the timer
    /// service. A failure to start the timer is fatal: the test aborts. On an
    /// empty text the test is complete as soon as it starts, since the log,
    /// empty, is already as long as the text.
    pub fn on_start(&mut self, started: bool)
        requires
            old(self).wf(),
            old(self).phase is AwaitingStart,
        ensures
            final(self).wf(),
            final(self).text@ == old(self).text@,
            final(self).validity@ == old(self).validity@,
            final(self).phase == (if !started {
                Phase::Aborted
            } else if old(self).text@.len() == 0 {
                Phase::Finished
            } else {
                Phase::Running
            }),
    {
        if !started {
            self.phase = Phase::Aborted;
        } else if self.text.len() == 0 {
            self.phase = Phase::Finished;
        } else {
            self.phase = Phase::Running;
        }
    }

    /// Handles a backspace event: retracts the latest verdict and asks the
    /// sink to free the position, or, on an empty log, changes nothing and
    /// says so with `Nothing` — never an error. A backspace never involves the
    /// timer.
    pub fn handle_backspace(&mut self) -> (msg: FrontMessage)
        requires
            old(self).wf(),
            old(self).phase is Running,
        ensures
            final(self).wf(),
            final(self).text@ == old(self).text@,
            final(self).phase == old(self).phase,
            final(self).validity@ == log_after_backspace(old(self).validity@),
            msg == (if old(self).validity@.len() == 0 {
                FrontMessage::Nothing
            } else {
                FrontMessage::Backspace
            }),
            old(self).validity@.len() == 0 ==> *final(self) == *old(self),
    {
        if self.validity.len() > 0 {
            let _ = self.validity.pop();
            proof {
                assert(self.validity@ =~= log_after_backspace(old(self).validity@));
            }
            FrontMessage::Backspace
        } else {
            FrontMessage::Nothing
        }
    }

    /// Handles a character event, given the timer's reply to the `Get` made
    /// for it: appends the verdict for `c` against the reference character at
    /// the current position, computes the speed over the grown log and the
    /// elapsed time just received, and reports the verdict with that figure.
    /// The test finishes exactly when the log reaches the text's length,
    /// whatever the last verdict was.
    pub fn handle_character(&mut self, c: char, response: TimerResponse) -> (msg: FrontMessage)
        requires
            old(self).wf(),
            old(self).phase is Running,
        ensures
            final(self).wf(),
            final(self).text@ == old(self).text@,
            final(self).validity@ == log_after_character(
                old(self).validity@,
                old(self).text@,
                c,
            ),
            final(self).phase is Finished <==> final(self).validity@.len()
                == final(self).text@.len(),
            final(self).phase is Finished || final(self).phase is Running,
            msg == ({
                let wpm = wpm_hundredths(
                    correct_count(final(self).validity@),
                    response_elapsed(response),
                );
                if c == old(self).text@[old(self).validity@.len() as int] {
                    (FrontMessage::Valid { character: c, wpm_hundredths: wpm as u128 })
                } else {
                    (FrontMessage::Invalid { character: c, wpm_hundredths: wpm as u128 })
                }
            }),
    {
        let elapsed_ns: u128 = match response {
            TimerResponse::Time(elapsed, _) => elapsed,
            TimerResponse::Stopped(_) => 0,
        };
        let correct = c == self.text[self.validity.len()];
        self.validity.push(correct);
        let wpm: u128 = calculate_wpm(&self.validity, elapsed_ns);
        if self.validity.len() == self.text.len() {
            self.phase = Phase::Finished;
        }
        if correct {
            FrontMessage::Valid { character: c, wpm_hundredths: wpm }
        } else {
            FrontMessage::Invalid { character: c, wpm_hundredths: wpm }
        }
    }

    /// Gives the test up after a channel failure; the state is kept only for
    /// the failure report.
    pub fn abort(&mut self)
        requires
            old(self).wf(),
        ensures
            final(self).wf(),
            final(self).text@ == old(self).text@,
            final(self).validity@ == old(self).validity@,
            final(self).phase is Aborted,
    {
        self.phase = Phase::Aborted;
    }

    /// The final report, from the timer's reply to the `Get` sent after
    /// `Stop`: the speed over the complete validity log and the frozen elapsed
    /// time. Any reply but a frozen time means the timer was not stopped as
    /// requested, and the test result is an error — never a fabricated figure.
    pub fn final_result(&self, response: TimerResponse) -> (r: Result<u128, ()>)
        requires
            self.wf(),
            self.phase is Finished,
        ensures
            r == (match response {
                TimerResponse::Stopped(elapsed) => Ok::<u128, ()>(
                    wpm_hundredths(correct_count(self.validity@), elapsed as nat) as u128,
                ),
                TimerResponse::Time(_, _) => Err::<u128, ()>(()),
            }),
    {
        match response {
            TimerResponse::Stopped(elapsed) => Ok(calculate_wpm(&self.validity, elapsed)),
            TimerResponse::Time(_, _) => Err(()),
        }
    }
}

/// A backspace exactly undoes the immediately preceding accepted character
/// event: appending the verdict for `c` and then retracting restores the log.
pub proof fn lemma_backspace_inverts_character(log: Seq<bool>, text: Seq<char>, c: char)
    requires
        log.len() < text.len(),
    ensures
        log_after_backspace(log_after_character(log, text, c)) == log,
{
    assert(log_after_character(log, text, c).drop_last() =~= log);
}

proof fn lemma_correct_prefix(text: Seq<char>, events: Seq<KeyEvent>, k: int)
    requires
        types_text_correctly(text, events),
        0 <= k <= events.len(),
    ensures
        replay(text, events.take(k)) =~= Seq::new(k as nat, |i: int| true),
    decreases k,
{
    if k > 0 {
        lemma_correct_prefix(text, events, k - 1);
        let prefix = events.take(k);
        assert(prefix.len() == k);
        assert(prefix.drop_last() =~= events.take(k - 1));
        assert(prefix.last() == KeyEvent::Character(text[k - 1]));
        let prev = replay(text, events.take(k - 1));
        assert(prev.len() == k - 1 < text.len());
        assert(replay(text, prefix) == log_after_character(prev, text, text[k - 1]));
        assert(log_after_character(prev, text, text[k - 1]) =~= Seq::new(k as nat, |i: int| true));
    }
}

/// Typing every character of the reference text correctly, in order — any
/// sequence of exactly as many correct character events as the text is long —
/// drives the validity log to the text's length with every entry `true`, so
/// the speed figure is that of a full text of correct keystrokes over the
/// elapsed time.
pub proof fn lemma_all_correct_run(text: Seq<char>, events: Seq<KeyEvent>, elapsed_ns: nat)
    requires
        types_text_correctly(text, events),
    ensures
        replay(text, events).len() == text.len(),
        forall|i: int| 0 <= i < text.len() ==> replay(text, events)[i],
        correct_count(replay(text, events)) == text.len(),
        wpm_hundredths(correct_count(replay(text, events)), elapsed_ns) == wpm_hundredths(
            text.len(),
            elapsed_ns,
        ),
{
    lemma_correct_prefix(text, events, events.len() as int);
    assert(events.take(events.len() as int) =~= events);
    crate::wpm::lemma_correct_count_all_true(replay(text, events));
}

} // verus!
