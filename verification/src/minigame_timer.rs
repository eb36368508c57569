use crate::clock::{advance, TimerKind};
use crate::events::MinigameFinished;
use crate::minigames::MinigameKey;
use vstd::prelude::*;

verus! {

/// Time a minigame may take, in nanoseconds.
pub const MINIGAME_TIMER_DURATION: u64 = 5_000_000_000;

/// Mathematical model of a [`MinigameTimer`].
pub struct MinigameTimerView {
    /// The minigame being timed; the countdown is armed while there is one.
    pub minigame_key: Option<MinigameKey>,
    /// Time left on the clock.
    pub remaining: nat,
}

impl MinigameTimerView {
    /// Well-formedness: the clock never shows more than the full time.
    pub open spec fn inv(self) -> bool {
        self.remaining <= MINIGAME_TIMER_DURATION
    }

    /// Whether the countdown runs.
    pub open spec fn armed(self) -> bool {
        self.minigame_key is Some
    }

    /// The countdown of a new game: not armed, the clock full.
    pub open spec fn new() -> MinigameTimerView {
        MinigameTimerView { minigame_key: None, remaining: MINIGAME_TIMER_DURATION as nat }
    }

    /// The countdown once a minigame has started: armed for `key`, if there
    /// is one, with the clock full.
    pub open spec fn start(self, key: Option<MinigameKey>) -> MinigameTimerView {
        MinigameTimerView { minigame_key: key, remaining: MINIGAME_TIMER_DURATION as nat }
    }

    /// The countdown once a minigame has finished, for whatever reason: not
    /// armed, the clock full.
    pub open spec fn finish(self) -> MinigameTimerView {
        MinigameTimerView::new()
    }

    /// The countdown after `delta` has passed, and the event that this
    /// fires. Only an armed countdown with time left moves; the moment its
    /// clock reaches zero it reports the minigame finished, with the outcome
    /// that the minigame gives to a timeout, and stays armed.
    pub open spec fn tick(self, delta: nat) -> (MinigameTimerView, Option<MinigameFinished>) {
        match self.minigame_key {
            Some(key) if self.remaining > 0 => {
                if delta >= self.remaining {
                    (
                        MinigameTimerView { remaining: 0, ..self },
                        Some(MinigameFinished(key.spec_timeout_outcome())),
                    )
                } else {
                    (MinigameTimerView { remaining: (self.remaining - delta) as nat, ..self }, None)
                }
            },
            _ => (self, None),
        }
    }
}

/// The countdown of the minigame being played.
#[derive(Clone, Copy, Debug)]
pub struct MinigameTimer {
    minigame_key: Option<MinigameKey>,
    elapsed: u64,
}

impl View for MinigameTimer {
    type V = MinigameTimerView;

    closed spec fn view(&self) -> MinigameTimerView {
        MinigameTimerView {
            minigame_key: self.minigame_key,
            remaining: (MINIGAME_TIMER_DURATION - self.elapsed) as nat,
        }
    }
}

impl MinigameTimer {
    #[verifier::type_invariant]
    spec fn well_formed(self) -> bool {
        self.elapsed <= MINIGAME_TIMER_DURATION
    }

    /// The countdown of a new game.
    pub fn new() -> (timer: Self)
        ensures
            timer@ == MinigameTimerView::new(),
            timer@.inv(),
    {
        MinigameTimer { minigame_key: None, elapsed: 0 }
    }

    /// Starts the countdown for `key` with the clock full. Without a key the
    /// countdown stays unarmed.
    pub fn start(&mut self, key: Option<MinigameKey>)
        ensures
            final(self)@ == old(self)@.start(key),
            final(self)@.inv(),
    {
        *self = MinigameTimer { minigame_key: key, elapsed: 0 };
    }

    /// Disarms the countdown and fills the clock again.
    pub fn finish(&mut self)
        ensures
            final(self)@ == old(self)@.finish(),
            final(self)@.inv(),
    {
        *self = MinigameTimer { minigame_key: None, elapsed: 0 };
    }

    /// Lets `delta` pass and returns the event that this fires.
    pub fn tick(&mut self, delta: u64) -> (fired: Option<MinigameFinished>)
        ensures
            (final(self)@, fired) == old(self)@.tick(delta as nat),
            final(self)@.inv(),
    {
        proof {
            use_type_invariant(&*self);
        }
        match self.minigame_key {
            Some(key) => {
                if self.elapsed >= MINIGAME_TIMER_DURATION {
                    return None;
                }
                let after = advance(TimerKind::Once, MINIGAME_TIMER_DURATION, self.elapsed, delta);
                self.elapsed = after.elapsed;
                if after.just_finished {
                    Some(MinigameFinished(key.timeout_outcome()))
                } else {
                    None
                }
            },
            None => None,
        }
    }

    /// Whether the countdown runs.
    pub fn is_armed(&self) -> (armed: bool)
        ensures
            armed == self@.armed(),
    {
        self.minigame_key.is_some()
    }

    /// The minigame being timed.
    pub fn minigame_key(&self) -> (key: Option<MinigameKey>)
        ensures
            key == self@.minigame_key,
    {
        self.minigame_key
    }

    /// Time left on the clock, in nanoseconds.
    pub fn remaining(&self) -> (remaining: u64)
        ensures
            remaining == self@.remaining,
            remaining <= MINIGAME_TIMER_DURATION,
    {
        proof {
            use_type_invariant(self);
        }
        MINIGAME_TIMER_DURATION - self.elapsed
    }
}

} // verus!
