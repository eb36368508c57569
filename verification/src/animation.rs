use crate::clock::{advance, spec_elapsed_after, spec_just_finished, TimerKind};
use crate::game_state::GameState;
use crate::minigames::MinigameKey;
use vstd::prelude::*;

verus! {

/// Time between two frames of a sprite animation, in nanoseconds.
pub const BASE_ANIMATION_SPEED: u64 = 250_000_000;

/// What an animation does after its last frame.
#[derive(Clone, Copy, Debug, PartialEq, Eq, Structural)]
pub enum AnimationType {
    /// Starts again at its first frame.
    Looping,
    /// Ends, and is to be removed.
    OneOff,
}

/// What a tick of an animation asks of the sprite.
#[derive(Clone, Copy, Debug, PartialEq, Eq, Structural)]
pub enum AnimationStep {
    /// Nothing changes.
    Idle,
    /// The sprite shows this frame of its sheet.
    Show(usize),
    /// The animation has ended and is to be removed.
    Remove,
}

/// Mathematical model of an [`Animation`].
pub struct AnimationView {
    pub animation_type: AnimationType,
    /// Position in `frames` of the frame on screen.
    pub current_frame: nat,
    /// The frames of the sheet that the animation runs through.
    pub frames: Seq<usize>,
    /// The minigame during which alone the animation runs, if it has one.
    pub minigame_key: Option<MinigameKey>,
    /// Time since the frame last changed.
    pub elapsed: nat,
}

impl AnimationView {
    /// Well-formedness: there is a frame to show, and the frame timer is
    /// within its round.
    pub open spec fn inv(self) -> bool {
        self.frames.len() > 0 && self.elapsed < BASE_ANIMATION_SPEED
    }

    /// An animation of `animation_type` over `frames`, bound to no
    /// minigame. It counts on from the first entry of `frames`.
    pub open spec fn new(animation_type: AnimationType, frames: Seq<usize>) -> AnimationView {
        AnimationView {
            animation_type,
            current_frame: frames[0] as nat,
            frames,
            minigame_key: None,
            elapsed: 0,
        }
    }

    /// Whether the animation runs in a game in `state` whose current
    /// minigame is `current`: one bound to a minigame runs only while that
    /// minigame is being played.
    pub open spec fn runs(self, state: GameState, current: Option<MinigameKey>) -> bool {
        match self.minigame_key {
            Some(key) => state == GameState::Minigame && current == Some(key),
            None => true,
        }
    }

    /// Whether the frame changes when `delta` passes: the frame timer, which
    /// repeats, has just finished.
    pub open spec fn fires(self, delta: nat) -> bool {
        spec_just_finished(
            TimerKind::Repeating,
            BASE_ANIMATION_SPEED as nat,
            self.elapsed,
            delta,
        )
    }

    /// The animation after its frame has changed, and what that asks of the
    /// sprite: the next frame, or after the last one the first again, or
    /// the removal of an animation that does not loop.
    pub open spec fn next(self) -> (AnimationView, AnimationStep) {
        if self.current_frame + 1 < self.frames.len() {
            (
                AnimationView { current_frame: self.current_frame + 1, ..self },
                AnimationStep::Show(self.frames[self.current_frame as int + 1]),
            )
        } else if self.animation_type == AnimationType::OneOff {
            (self, AnimationStep::Remove)
        } else {
            (AnimationView { current_frame: 0, ..self }, AnimationStep::Show(self.frames[0]))
        }
    }

    /// The animation after `delta` has passed in a game in `state` whose
    /// current minigame is `current`, and what that asks of the sprite.
    pub open spec fn tick(self, delta: nat, state: GameState, current: Option<MinigameKey>) -> (
        AnimationView,
        AnimationStep,
    ) {
        if !self.runs(state, current) {
            (self, AnimationStep::Idle)
        } else {
            let timed = AnimationView {
                elapsed: spec_elapsed_after(
                    TimerKind::Repeating,
                    BASE_ANIMATION_SPEED as nat,
                    self.elapsed,
                    delta,
                ),
                ..self
            };
            if self.fires(delta) {
                timed.next()
            } else {
                (timed, AnimationStep::Idle)
            }
        }
    }
}

fn copy_frames(frames: &[usize]) -> (copied: Vec<usize>)
    ensures
        copied@ == frames@,
{
    let mut copied: Vec<usize> = Vec::new();
    let mut i: usize = 0;
    while i < frames.len()
        invariant
            i <= frames@.len(),
            copied@ == frames@.subrange(0, i as int),
        decreases frames@.len() - i,
    {
        copied.push(frames[i]);
        i = i + 1;
    }
    assert(copied@ == frames@);
    copied
}

/// A sprite animation: a run through frames of a sprite sheet, one frame
/// every [`BASE_ANIMATION_SPEED`].
#[derive(Debug)]
pub struct Animation {
    animation_type: AnimationType,
    current_frame: usize,
    frames: Vec<usize>,
    minigame_key: Option<MinigameKey>,
    elapsed: u64,
}

impl View for Animation {
    type V = AnimationView;

    closed spec fn view(&self) -> AnimationView {
        AnimationView {
            animation_type: self.animation_type,
            current_frame: self.current_frame as nat,
            frames: self.frames@,
            minigame_key: self.minigame_key,
            elapsed: self.elapsed as nat,
        }
    }
}

impl Animation {
    #[verifier::type_invariant]
    spec fn well_formed(self) -> bool {
        self@.inv()
    }

    fn new(animation_type: AnimationType, frames: &[usize]) -> (animation: Self)
        requires
            frames@.len() > 0,
        ensures
            animation@ == AnimationView::new(animation_type, frames@),
            animation@.inv(),
    {
        Animation {
            animation_type,
            current_frame: frames[0],
            frames: copy_frames(frames),
            minigame_key: None,
            elapsed: 0,
        }
    }

    /// An animation that runs through `frames` again and again.
    pub fn looping(frames: &[usize]) -> (animation: Self)
        requires
            frames@.len() > 0,
        ensures
            animation@ == AnimationView::new(AnimationType::Looping, frames@),
            animation@.inv(),
    {
        Self::new(AnimationType::Looping, frames)
    }

    /// An animation that runs through `frames` once and is then to be
    /// removed.
    pub fn one_off(frames: &[usize]) -> (animation: Self)
        requires
            frames@.len() > 0,
        ensures
            animation@ == AnimationView::new(AnimationType::OneOff, frames@),
            animation@.inv(),
    {
        Self::new(AnimationType::OneOff, frames)
    }

    /// Binds the animation to the minigame `minigame_key`: it runs only
    /// while that minigame is being played.
    pub fn with_minigame(self, minigame_key: MinigameKey) -> (animation: Self)
        ensures
            animation@ == (AnimationView { minigame_key: Some(minigame_key), ..self@ }),
            animation@.inv(),
    {
        proof {
            use_type_invariant(&self);
        }
        Animation {
            animation_type: self.animation_type,
            current_frame: self.current_frame,
            frames: self.frames,
            minigame_key: Some(minigame_key),
            elapsed: self.elapsed,
        }
    }

    /// Lets `delta` pass in a game in `state` whose current minigame is
    /// `current`, and says what the sprite is to do.
    pub fn tick(&mut self, delta: u64, state: GameState, current: Option<MinigameKey>) -> (step:
        AnimationStep)
        ensures
            (final(self)@, step) == old(self)@.tick(delta as nat, state, current),
            final(self)@.inv(),
    {
        proof {
            use_type_invariant(&*self);
        }
        let runs = match self.minigame_key {
            Some(key) => match (state, current) {
                (GameState::Minigame, Some(playing)) => playing == key,
                _ => false,
            },
            None => true,
        };
        if !runs {
            return AnimationStep::Idle;
        }
        let after = advance(TimerKind::Repeating, BASE_ANIMATION_SPEED, self.elapsed, delta);
        self.elapsed = after.elapsed;
        if !after.just_finished {
            return AnimationStep::Idle;
        }
        if self.current_frame < self.frames.len() - 1 {
            self.current_frame = self.current_frame + 1;
            AnimationStep::Show(self.frames[self.current_frame])
        } else {
            match self.animation_type {
                AnimationType::OneOff => AnimationStep::Remove,
                AnimationType::Looping => {
                    self.current_frame = 0;
                    AnimationStep::Show(self.frames[0])
                },
            }
        }
    }

    /// Position in the frames of the frame on screen.
    pub fn current_frame(&self) -> (index: usize)
        ensures
            index == self@.current_frame,
    {
        self.current_frame
    }

    /// The minigame during which alone the animation runs, if it has one.
    pub fn minigame_key(&self) -> (key: Option<MinigameKey>)
        ensures
            key == self@.minigame_key,
    {
        self.minigame_key
    }
}

impl Clone for Animation {
    fn clone(&self) -> (copy: Self)
        ensures
            copy@ == self@,
    {
        proof {
            use_type_invariant(self);
        }
        Animation {
            animation_type: self.animation_type,
            current_frame: self.current_frame,
            frames: copy_frames(self.frames.as_slice()),
            minigame_key: self.minigame_key,
            elapsed: self.elapsed,
        }
    }
}

} // verus!
