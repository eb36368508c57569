use crate::clock::{advance, TimerKind};
use crate::events::GameEvent;
use crate::game_state::GameState;
use crate::minigames::MinigameKey;
use vstd::prelude::*;

verus! {

/// Time between two frames of the fade, in nanoseconds.
pub const ANIMATION_SPEED: u64 = 100_000_000;

/// Last frame of the strip: the screen is clear again after a fade-in.
pub const FADE_IN_END_FRAME: usize = 14;

/// Frame at which the screen is fully covered and the fade holds.
pub const FADE_IN_PAUSE_FRAME: usize = 7;

/// First frame of the strip.
pub const FADE_IN_START_FRAME: usize = 0;

/// Where a fade stands between its first and its last frame.
#[derive(Clone, Copy, Debug, PartialEq, Eq, Structural)]
pub enum TransitionState {
    /// Rising: from the first frame towards the pause frame.
    FadeA,
    /// Falling: from the pause frame towards the last frame. The flag is
    /// carried to the end of a fade-out and tells whether the game is
    /// finished.
    FadeB(bool),
    /// Holding at the pause frame until the spawned side reports back.
    Paused,
}

/// What a fade leads to.
#[derive(Clone, Copy, Debug, PartialEq, Eq, Structural)]
pub enum TransitionType {
    /// Towards the minigame with this key; runs up the strip.
    FadeIn(MinigameKey),
    /// Towards the results of a minigame with this outcome (`true` for a
    /// win); runs down the strip.
    FadeOut(bool),
}

/// What one step of a fade brought about.
#[derive(Clone, Copy, Debug, PartialEq, Eq, Structural)]
pub enum TransitionOutcome {
    /// Nothing moved: the frame interval has not passed, or the fade holds.
    Waiting,
    /// The fade moved one frame and goes on.
    Stepped,
    /// A fade-in reached the pause frame: the minigame is to be spawned.
    SpawnMinigame(MinigameKey),
    /// A fade-out reached the pause frame: the results are to be recorded.
    SpawnResults(bool),
    /// A fade-in reached its last frame: the minigame starts.
    MinigameStart,
    /// A fade-out reached its last frame: the interlude starts, or the game
    /// is over if the flag is set.
    InterludeStart(bool),
}

impl TransitionOutcome {
    /// The event that this outcome puts on the queue, if any.
    pub open spec fn spec_event(self) -> Option<GameEvent> {
        match self {
            TransitionOutcome::Waiting => None,
            TransitionOutcome::Stepped => None,
            TransitionOutcome::SpawnMinigame(key) => Some(GameEvent::SpawnMinigame(key)),
            TransitionOutcome::SpawnResults(outcome) => Some(GameEvent::SpawnResults(outcome)),
            TransitionOutcome::MinigameStart => Some(GameEvent::MinigameStart),
            TransitionOutcome::InterludeStart(_) => Some(GameEvent::InterludeStart),
        }
    }

    /// The game state that this outcome leads to, if the fade has ended.
    pub open spec fn spec_next_state(self) -> Option<GameState> {
        match self {
            TransitionOutcome::MinigameStart => Some(GameState::Minigame),
            TransitionOutcome::InterludeStart(finished) => Some(
                if finished {
                    GameState::GameOver
                } else {
                    GameState::Interlude
                },
            ),
            _ => None,
        }
    }

    /// The event that this outcome puts on the queue, if any.
    #[verifier::when_used_as_spec(spec_event)]
    pub fn event(self) -> (event: Option<GameEvent>)
        ensures
            event == self.spec_event(),
    {
        match self {
            TransitionOutcome::Waiting => None,
            TransitionOutcome::Stepped => None,
            TransitionOutcome::SpawnMinigame(key) => Some(GameEvent::SpawnMinigame(key)),
            TransitionOutcome::SpawnResults(outcome) => Some(GameEvent::SpawnResults(outcome)),
            TransitionOutcome::MinigameStart => Some(GameEvent::MinigameStart),
            TransitionOutcome::InterludeStart(_) => Some(GameEvent::InterludeStart),
        }
    }

    /// The game state that this outcome leads to, if the fade has ended.
    #[verifier::when_used_as_spec(spec_next_state)]
    pub fn next_state(self) -> (state: Option<GameState>)
        ensures
            state == self.spec_next_state(),
    {
        match self {
            TransitionOutcome::MinigameStart => Some(GameState::Minigame),
            TransitionOutcome::InterludeStart(finished) => Some(
                if finished {
                    GameState::GameOver
                } else {
                    GameState::Interlude
                },
            ),
            _ => None,
        }
    }
}

/// Mathematical model of a [`Transition`].
pub struct TransitionView {
    pub transition_type: TransitionType,
    pub state: TransitionState,
    /// Index of the frame on screen.
    pub frame: nat,
    /// Time since the frame last changed, held at [`ANIMATION_SPEED`].
    pub frame_elapsed: nat,
}

impl TransitionView {
    /// A fade-in towards `key` at its first frame.
    pub open spec fn fade_in(key: MinigameKey) -> TransitionView {
        TransitionView {
            transition_type: TransitionType::FadeIn(key),
            state: TransitionState::FadeA,
            frame: FADE_IN_START_FRAME as nat,
            frame_elapsed: 0,
        }
    }

    /// A fade-out after a minigame with outcome `has_won` at its first
    /// frame, which is the last one of the strip.
    pub open spec fn fade_out(has_won: bool) -> TransitionView {
        TransitionView {
            transition_type: TransitionType::FadeOut(has_won),
            state: TransitionState::FadeA,
            frame: FADE_IN_END_FRAME as nat,
            frame_elapsed: 0,
        }
    }

    /// The frame at which this fade ends.
    pub open spec fn end_frame(self) -> nat {
        match self.transition_type {
            TransitionType::FadeIn(_) => FADE_IN_END_FRAME as nat,
            TransitionType::FadeOut(_) => FADE_IN_START_FRAME as nat,
        }
    }

    /// The frame after the current one: up the strip for a fade-in, down
    /// for a fade-out.
    pub open spec fn next_frame(self) -> nat {
        match self.transition_type {
            TransitionType::FadeIn(_) => self.frame + 1,
            TransitionType::FadeOut(_) => (self.frame - 1) as nat,
        }
    }

    /// The fade is falling and has reached its last frame.
    pub open spec fn is_done(self) -> bool {
        self.state is FadeB && self.frame == self.end_frame()
    }

    /// The fade moves by itself: it neither holds at the pause frame nor has
    /// ended.
    pub open spec fn is_running(self) -> bool {
        !(self.state is Paused) && !self.is_done()
    }

    /// Well-formedness: the frame lies on the side of the pause frame that
    /// the state names, and the frame timer has run out exactly when the
    /// fade does not move by itself.
    pub open spec fn inv(self) -> bool {
        &&& self.frame <= FADE_IN_END_FRAME
        &&& self.frame_elapsed <= ANIMATION_SPEED
        &&& (self.frame_elapsed < ANIMATION_SPEED <==> self.is_running())
        &&& match (self.transition_type, self.state) {
            (TransitionType::FadeIn(_), TransitionState::FadeA) => self.frame
                < FADE_IN_PAUSE_FRAME,
            (TransitionType::FadeIn(_), TransitionState::FadeB(_)) => self.frame
                >= FADE_IN_PAUSE_FRAME,
            (TransitionType::FadeOut(_), TransitionState::FadeA) => self.frame
                > FADE_IN_PAUSE_FRAME,
            (TransitionType::FadeOut(_), TransitionState::FadeB(_)) => self.frame
                <= FADE_IN_PAUSE_FRAME,
            (_, TransitionState::Paused) => self.frame == FADE_IN_PAUSE_FRAME,
        }
    }

    /// This fade after one frame interval has passed, and what that brought
    /// about.
    ///
    /// Rising, the fade moves one frame; on the pause frame it holds and
    /// asks for the minigame or the results. Holding, it does nothing.
    /// Falling, it moves one frame; on its last frame it announces the
    /// minigame or the interlude and is done.
    pub open spec fn advance(self) -> (TransitionView, TransitionOutcome) {
        match self.state {
            TransitionState::Paused => (self, TransitionOutcome::Waiting),
            TransitionState::FadeA => {
                if self.next_frame() == FADE_IN_PAUSE_FRAME {
                    (
                        TransitionView {
                            state: TransitionState::Paused,
                            frame: self.next_frame(),
                            frame_elapsed: ANIMATION_SPEED as nat,
                            ..self
                        },
                        match self.transition_type {
                            TransitionType::FadeIn(key) => TransitionOutcome::SpawnMinigame(key),
                            TransitionType::FadeOut(has_won) => TransitionOutcome::SpawnResults(
                                has_won,
                            ),
                        },
                    )
                } else {
                    (
                        TransitionView { frame: self.next_frame(), frame_elapsed: 0, ..self },
                        TransitionOutcome::Stepped,
                    )
                }
            },
            TransitionState::FadeB(finished) => {
                if self.is_done() {
                    (self, TransitionOutcome::Waiting)
                } else if self.next_frame() == self.end_frame() {
                    (
                        TransitionView {
                            frame: self.next_frame(),
                            frame_elapsed: ANIMATION_SPEED as nat,
                            ..self
                        },
                        match self.transition_type {
                            TransitionType::FadeIn(_) => TransitionOutcome::MinigameStart,
                            TransitionType::FadeOut(_) => TransitionOutcome::InterludeStart(
                                finished,
                            ),
                        },
                    )
                } else {
                    (
                        TransitionView { frame: self.next_frame(), frame_elapsed: 0, ..self },
                        TransitionOutcome::Stepped,
                    )
                }
            },
        }
    }

    /// This fade after `delta` has passed, and what that brought about: a
    /// fade that moves by itself advances once when its frame interval runs
    /// out, whatever the excess.
    pub open spec fn tick(self, delta: nat) -> (TransitionView, TransitionOutcome) {
        if !self.is_running() {
            (self, TransitionOutcome::Waiting)
        } else if self.frame_elapsed + delta < ANIMATION_SPEED {
            (
                TransitionView { frame_elapsed: self.frame_elapsed + delta, ..self },
                TransitionOutcome::Waiting,
            )
        } else {
            self.advance()
        }
    }

    /// This fade after the spawned side has reported back with `finished`:
    /// a holding fade starts to fall, any other is left as it is.
    pub open spec fn resume(self, finished: bool) -> TransitionView {
        if self.state is Paused {
            TransitionView { state: TransitionState::FadeB(finished), frame_elapsed: 0, ..self }
        } else {
            self
        }
    }
}

/// The animated fade that covers the screen while a minigame or its results
/// are put in place.
#[derive(Clone, Copy, Debug)]
pub struct Transition {
    state: TransitionState,
    transition_type: TransitionType,
    frame: usize,
    frame_elapsed: u64,
}

impl View for Transition {
    type V = TransitionView;

    closed spec fn view(&self) -> TransitionView {
        TransitionView {
            transition_type: self.transition_type,
            state: self.state,
            frame: self.frame as nat,
            frame_elapsed: self.frame_elapsed as nat,
        }
    }
}

impl Transition {
    #[verifier::type_invariant]
    spec fn well_formed(self) -> bool {
        self@.inv()
    }

    fn new(transition_type: TransitionType) -> (transition: Self)
        ensures
            transition@ == (match transition_type {
                TransitionType::FadeIn(key) => TransitionView::fade_in(key),
                TransitionType::FadeOut(has_won) => TransitionView::fade_out(has_won),
            }),
            transition@.inv(),
    {
        let frame: usize = match transition_type {
            TransitionType::FadeIn(_) => FADE_IN_START_FRAME,
            TransitionType::FadeOut(_) => FADE_IN_END_FRAME,
        };
        Transition { state: TransitionState::FadeA, transition_type, frame, frame_elapsed: 0 }
    }

    /// A fade towards the minigame `key`, at its first frame.
    pub fn fade_in(key: MinigameKey) -> (transition: Self)
        ensures
            transition@ == TransitionView::fade_in(key),
            transition@.inv(),
    {
        Self::new(TransitionType::FadeIn(key))
    }

    /// A fade towards the results of a minigame that ended with `has_won`,
    /// at its first frame.
    pub fn fade_out(has_won: bool) -> (transition: Self)
        ensures
            transition@ == TransitionView::fade_out(has_won),
            transition@.inv(),
    {
        Self::new(TransitionType::FadeOut(has_won))
    }

    /// Moves the fade by one frame interval and says what that brought
    /// about.
    pub fn advance(&mut self) -> (outcome: TransitionOutcome)
        ensures
            (final(self)@, outcome) == old(self)@.advance(),
            final(self)@.inv(),
    {
        proof {
            use_type_invariant(&*self);
        }
        let at_end = self.is_done();
        let next: usize = match self.transition_type {
            TransitionType::FadeIn(_) => if self.frame < FADE_IN_END_FRAME {
                self.frame + 1
            } else {
                self.frame
            },
            TransitionType::FadeOut(_) => if self.frame > 0 {
                self.frame - 1
            } else {
                self.frame
            },
        };
        match self.state {
            TransitionState::Paused => TransitionOutcome::Waiting,
            TransitionState::FadeA => {
                if next == FADE_IN_PAUSE_FRAME {
                    *self = Transition {
                        state: TransitionState::Paused,
                        transition_type: self.transition_type,
                        frame: next,
                        frame_elapsed: ANIMATION_SPEED,
                    };
                    match self.transition_type {
                        TransitionType::FadeIn(key) => TransitionOutcome::SpawnMinigame(key),
                        TransitionType::FadeOut(has_won) => TransitionOutcome::SpawnResults(
                            has_won,
                        ),
                    }
                } else {
                    *self = Transition {
                        state: self.state,
                        transition_type: self.transition_type,
                        frame: next,
                        frame_elapsed: 0,
                    };
                    TransitionOutcome::Stepped
                }
            },
            TransitionState::FadeB(finished) => {
                let end: usize = match self.transition_type {
                    TransitionType::FadeIn(_) => FADE_IN_END_FRAME,
                    TransitionType::FadeOut(_) => FADE_IN_START_FRAME,
                };
                if at_end {
                    TransitionOutcome::Waiting
                } else if next == end {
                    *self = Transition {
                        state: self.state,
                        transition_type: self.transition_type,
                        frame: next,
                        frame_elapsed: ANIMATION_SPEED,
                    };
                    match self.transition_type {
                        TransitionType::FadeIn(_) => TransitionOutcome::MinigameStart,
                        TransitionType::FadeOut(_) => TransitionOutcome::InterludeStart(finished),
                    }
                } else {
                    *self = Transition {
                        state: self.state,
                        transition_type: self.transition_type,
                        frame: next,
                        frame_elapsed: 0,
                    };
                    TransitionOutcome::Stepped
                }
            },
        }
    }

    /// Lets `delta` pass: a fade that moves by itself advances once when its
    /// frame interval has run out.
    pub fn tick(&mut self, delta: u64) -> (outcome: TransitionOutcome)
        ensures
            (final(self)@, outcome) == old(self)@.tick(delta as nat),
            final(self)@.inv(),
    {
        proof {
            use_type_invariant(&*self);
        }
        if !self.is_running() {
            return TransitionOutcome::Waiting;
        }
        let after = advance(TimerKind::Once, ANIMATION_SPEED, self.frame_elapsed, delta);
        if after.just_finished {
            self.advance()
        } else {
            self.frame_elapsed = after.elapsed;
            TransitionOutcome::Waiting
        }
    }

    /// Takes the report of the spawned side: a holding fade starts to fall
    /// and carries `finished` to its end. Returns whether the fade was
    /// holding.
    pub fn resume(&mut self, finished: bool) -> (resumed: bool)
        ensures
            final(self)@ == old(self)@.resume(finished),
            resumed == (old(self)@.state is Paused),
            final(self)@.inv(),
    {
        proof {
            use_type_invariant(&*self);
        }
        match self.state {
            TransitionState::Paused => {
                *self = Transition {
                    state: TransitionState::FadeB(finished),
                    transition_type: self.transition_type,
                    frame: self.frame,
                    frame_elapsed: 0,
                };
                true
            },
            _ => false,
        }
    }

    /// The words that the fade shows: the name of the minigame it leads to,
    /// or the outcome of the minigame it comes from and what that does to
    /// the fever.
    pub fn text(&self) -> (text: &'static str)
        ensures
            text@ == match self@.transition_type {
                TransitionType::FadeIn(MinigameKey::Control) => "CONTROL"@,
                TransitionType::FadeIn(MinigameKey::Observe) => "OBSERVE"@,
                TransitionType::FadeIn(MinigameKey::Relieve) => "RELIEVE"@,
                TransitionType::FadeOut(true) => "WIN!\nFEVER\nDOWN"@,
                TransitionType::FadeOut(false) => "LOSE!\nFEVER\nUP"@,
            },
    {
        match self.transition_type {
            TransitionType::FadeIn(key) => key.title(),
            TransitionType::FadeOut(true) => "WIN!\nFEVER\nDOWN",
            TransitionType::FadeOut(false) => "LOSE!\nFEVER\nUP",
        }
    }

    /// Where the fade stands between its first and its last frame.
    pub fn state(&self) -> (state: TransitionState)
        ensures
            state == self@.state,
    {
        self.state
    }

    /// What the fade leads to.
    pub fn transition_type(&self) -> (transition_type: TransitionType)
        ensures
            transition_type == self@.transition_type,
    {
        self.transition_type
    }

    /// Index of the frame on screen.
    pub fn frame(&self) -> (frame: usize)
        ensures
            frame == self@.frame,
            frame <= FADE_IN_END_FRAME,
    {
        proof {
            use_type_invariant(self);
        }
        self.frame
    }

    /// Time since the frame last changed, in nanoseconds.
    pub fn frame_elapsed(&self) -> (elapsed: u64)
        ensures
            elapsed == self@.frame_elapsed,
    {
        self.frame_elapsed
    }

    /// Whether the fade is falling and has reached its last frame.
    pub fn is_done(&self) -> (done: bool)
        ensures
            done == self@.is_done(),
    {
        let end: usize = match self.transition_type {
            TransitionType::FadeIn(_) => FADE_IN_END_FRAME,
            TransitionType::FadeOut(_) => FADE_IN_START_FRAME,
        };
        match self.state {
            TransitionState::FadeB(_) => self.frame == end,
            _ => false,
        }
    }

    /// Whether the fade moves by itself.
    pub fn is_running(&self) -> (running: bool)
        ensures
            running == self@.is_running(),
    {
        match self.state {
            TransitionState::Paused => false,
            _ => !self.is_done(),
        }
    }
}

} // verus!
