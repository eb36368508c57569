use bevy::time::{Timer, TimerMode};
use std::time::Duration;
use vstd::prelude::*;

verus! {

/// What a timer does when its time is up.
#[derive(Clone, Copy, Debug, PartialEq, Eq, Structural)]
pub enum TimerKind {
    /// It stops there.
    Once,
    /// It starts its next round.
    Repeating,
}

/// Where a timer stands after it has been advanced: the time it has run
/// for, in nanoseconds, and whether this advance brought it to its end.
#[derive(Clone, Copy, Debug, PartialEq, Eq, Structural)]
pub struct Advance {
    pub elapsed: u64,
    pub just_finished: bool,
}

/// The time a timer of length `total` has run for once `delta` is added to
/// `elapsed`: the sum, which a timer that runs once holds at `total`, and of
/// which a repeating timer keeps what is left after whole rounds.
pub open spec fn spec_elapsed_after(kind: TimerKind, total: nat, elapsed: nat, delta: nat) -> nat {
    match kind {
        TimerKind::Once => if elapsed + delta >= total {
            total
        } else {
            elapsed + delta
        },
        TimerKind::Repeating => (elapsed + delta) % total,
    }
}

/// Whether a timer of length `total` reports that it has just finished once
/// `delta` is added to `elapsed`: a timer that runs once when the sum
/// reaches `total`; a repeating timer when the number of whole rounds in
/// the sum, counted in 32 bits, is other than zero.
pub open spec fn spec_just_finished(kind: TimerKind, total: nat, elapsed: nat, delta: nat) -> bool {
    match kind {
        TimerKind::Once => elapsed + delta >= total,
        TimerKind::Repeating => ((elapsed + delta) / total) % 0x1_0000_0000 != 0,
    }
}

/// Advances a `bevy::time::Timer` of length `total` that has run for
/// `elapsed` and has not finished by `delta`, all in nanoseconds, with
/// `Timer::tick`.
///
/// Not proved: that the tick adds `delta` to the elapsed time; that a timer
/// in `TimerMode::Once` holds the sum at its length and has just finished
/// exactly when the length was reached; and that a timer in
/// `TimerMode::Repeating` keeps what is left of the sum after whole rounds
/// and has just finished exactly when the number of those rounds, cut to 32
/// bits, is other than zero.
#[verifier::external_body]
pub(crate) fn advance(kind: TimerKind, total: u64, elapsed: u64, delta: u64) -> (after: Advance)
    requires
        elapsed < total,
    ensures
        after.elapsed == spec_elapsed_after(kind, total as nat, elapsed as nat, delta as nat),
        after.just_finished == spec_just_finished(
            kind,
            total as nat,
            elapsed as nat,
            delta as nat,
        ),
{
    let mode = match kind {
        TimerKind::Once => TimerMode::Once,
        TimerKind::Repeating => TimerMode::Repeating,
    };
    let mut timer = Timer::new(Duration::from_nanos(total), mode);
    timer.set_elapsed(Duration::from_nanos(elapsed));
    timer.tick(Duration::from_nanos(delta));
    Advance { elapsed: timer.elapsed().as_nanos() as u64, just_finished: timer.just_finished() }
}

} // verus!
