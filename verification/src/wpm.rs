//! The words-per-minute formula.
//!
//! A word is five characters and only correct keystrokes count, so the speed
//! over an elapsed time of `s` seconds is `correct / 5 / (s / 60)` words per
//! minute. Elapsed time is carried in nanoseconds and the result in hundredths
//! of a word per minute, so that the figure with its usual two decimal places
//! is exact without floating point. A zero elapsed time would leave the
//! formula undefined; it is defined as a speed of zero instead.

use vstd::prelude::*;

verus! {

/// Hundredths of a word per minute are `100 * correct / 5` words scaled by
/// `60e9` nanoseconds per minute; this is that numerator factor.
pub const WPM_FACTOR: u128 = 100 * 60_000_000_000 / 5;

/// How many entries of a validity log are `true`, that is, how many accepted
/// keystrokes matched the reference text.
pub open spec fn correct_count(log: Seq<bool>) -> nat
    decreases log.len(),
{
    if log.len() == 0 {
        0
    } else {
        correct_count(log.drop_last()) + if log.last() {
            1nat
        } else {
            0nat
        }
    }
}

/// The typing speed in hundredths of a word per minute, rounded down:
/// `100 * (correct / 5) / (elapsed / 60e9)`, and `0` when no time has elapsed.
pub open spec fn wpm_hundredths(correct: nat, elapsed_ns: nat) -> nat {
    if elapsed_ns == 0 {
        0
    } else {
        correct * (WPM_FACTOR as nat) / elapsed_ns
    }
}

/// A log whose entries are all `true` has as many correct entries as entries.
pub proof fn lemma_correct_count_all_true(log: Seq<bool>)
    requires
        forall|i: int| 0 <= i < log.len() ==> log[i],
    ensures
        correct_count(log) == log.len(),
    decreases log.len(),
{
    if log.len() > 0 {
        assert(forall|i: int| 0 <= i < log.drop_last().len() ==> log.drop_last()[i]);
        lemma_correct_count_all_true(log.drop_last());
    }
}

proof fn lemma_correct_count_take_step(log: Seq<bool>, i: int)
    requires
        0 <= i < log.len(),
    ensures
        correct_count(log.take(i + 1)) == correct_count(log.take(i)) + if log[i] {
            1nat
        } else {
            0nat
        },
{
    assert(log.take(i + 1).drop_last() =~= log.take(i));
    assert(log.take(i + 1).last() == log[i]);
}

/// Computes the typing speed over a validity log and an elapsed time in
/// nanoseconds, in hundredths of a word per minute.
pub fn calculate_wpm(validity: &Vec<bool>, elapsed_ns: u128) -> (r: u128)
    ensures
        r == wpm_hundredths(correct_count(validity@), elapsed_ns as nat),
{
    let mut count: usize = 0;
    let mut i: usize = 0;
    while i < validity.len()
        invariant
            i <= validity@.len(),
            count <= i,
            count == correct_count(validity@.take(i as int)),
        decreases validity@.len() - i,
    {
        proof {
            lemma_correct_count_take_step(validity@, i as int);
        }
        if validity[i] {
            count = count + 1;
        }
        i = i + 1;
    }
    assert(validity@.take(validity@.len() as int) =~= validity@);
    if elapsed_ns == 0 {
        0
    } else {
        let correct: u128 = count as u128;
        proof {
            assert(correct <= 0xffff_ffff_ffff_ffffu128);
            assert(correct * WPM_FACTOR <= 0xffff_ffff_ffff_ffffu128 * WPM_FACTOR)
                by (nonlinear_arith)
                requires
                    correct <= 0xffff_ffff_ffff_ffffu128,
            ;
        }
        correct * WPM_FACTOR / elapsed_ns
    }
}

} // verus!
