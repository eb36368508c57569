use crate::minigames::MinigameKey;
use vstd::prelude::*;

verus! {

/// The minigame is over with the given outcome (`true` for a win); the fade
/// to the results begins.
#[derive(Clone, Copy, Debug, PartialEq, Eq, Structural)]
pub struct MinigameFinished(pub bool);

/// The minigame scene exists, so the fade-in may resume.
#[derive(Clone, Copy, Debug, PartialEq, Eq, Structural)]
pub struct MinigameSpawned;

/// The minigame is ready to be played.
#[derive(Clone, Copy, Debug, PartialEq, Eq, Structural)]
pub struct MinigameStart;

/// A minigame was selected; the fade towards it begins.
#[derive(Clone, Copy, Debug, PartialEq, Eq, Structural)]
pub struct NewMinigame(pub MinigameKey);

/// The interlude (or the end of the game) is on screen again.
#[derive(Clone, Copy, Debug, PartialEq, Eq, Structural)]
pub struct InterludeStart;

/// The results were recorded; the flag tells whether the game is finished.
#[derive(Clone, Copy, Debug, PartialEq, Eq, Structural)]
pub struct ResultsSpawned(pub bool);

/// The screen is covered, so the minigame scene is to be built.
#[derive(Clone, Copy, Debug, PartialEq, Eq, Structural)]
pub struct SpawnMinigame(pub MinigameKey);

/// The screen is covered, so the results of the minigame are to be recorded.
#[derive(Clone, Copy, Debug, PartialEq, Eq, Structural)]
pub struct SpawnResults(pub bool);

/// Any message of the event protocol, as it travels through a queue.
#[derive(Clone, Copy, Debug, PartialEq, Eq, Structural)]
pub enum GameEvent {
    NewMinigame(MinigameKey),
    SpawnMinigame(MinigameKey),
    MinigameSpawned,
    MinigameStart,
    MinigameFinished(bool),
    SpawnResults(bool),
    ResultsSpawned(bool),
    InterludeStart,
}

impl MinigameFinished {
    /// This event as it travels through a queue.
    pub open spec fn spec_event(self) -> GameEvent {
        GameEvent::MinigameFinished(self.0)
    }

    /// This event as it travels through a queue.
    #[verifier::when_used_as_spec(spec_event)]
    pub fn event(self) -> (event: GameEvent)
        ensures
            event == self.spec_event(),
    {
        GameEvent::MinigameFinished(self.0)
    }
}

impl MinigameSpawned {
    /// This event as it travels through a queue.
    pub open spec fn spec_event(self) -> GameEvent {
        GameEvent::MinigameSpawned
    }

    /// This event as it travels through a queue.
    #[verifier::when_used_as_spec(spec_event)]
    pub fn event(self) -> (event: GameEvent)
        ensures
            event == self.spec_event(),
    {
        GameEvent::MinigameSpawned
    }
}

impl MinigameStart {
    /// This event as it travels through a queue.
    pub open spec fn spec_event(self) -> GameEvent {
        GameEvent::MinigameStart
    }

    /// This event as it travels through a queue.
    #[verifier::when_used_as_spec(spec_event)]
    pub fn event(self) -> (event: GameEvent)
        ensures
            event == self.spec_event(),
    {
        GameEvent::MinigameStart
    }
}

impl NewMinigame {
    /// This event as it travels through a queue.
    pub open spec fn spec_event(self) -> GameEvent {
        GameEvent::NewMinigame(self.0)
    }

    /// This event as it travels through a queue.
    #[verifier::when_used_as_spec(spec_event)]
    pub fn event(self) -> (event: GameEvent)
        ensures
            event == self.spec_event(),
    {
        GameEvent::NewMinigame(self.0)
    }
}

impl InterludeStart {
    /// This event as it travels through a queue.
    pub open spec fn spec_event(self) -> GameEvent {
        GameEvent::InterludeStart
    }

    /// This event as it travels through a queue.
    #[verifier::when_used_as_spec(spec_event)]
    pub fn event(self) -> (event: GameEvent)
        ensures
            event == self.spec_event(),
    {
        GameEvent::InterludeStart
    }
}

impl ResultsSpawned {
    /// This event as it travels through a queue.
    pub open spec fn spec_event(self) -> GameEvent {
        GameEvent::ResultsSpawned(self.0)
    }

    /// This event as it travels through a queue.
    #[verifier::when_used_as_spec(spec_event)]
    pub fn event(self) -> (event: GameEvent)
        ensures
            event == self.spec_event(),
    {
        GameEvent::ResultsSpawned(self.0)
    }
}

impl SpawnMinigame {
    /// This event as it travels through a queue.
    pub open spec fn spec_event(self) -> GameEvent {
        GameEvent::SpawnMinigame(self.0)
    }

    /// This event as it travels through a queue.
    #[verifier::when_used_as_spec(spec_event)]
    pub fn event(self) -> (event: GameEvent)
        ensures
            event == self.spec_event(),
    {
        GameEvent::SpawnMinigame(self.0)
    }
}

impl SpawnResults {
    /// This event as it travels through a queue.
    pub open spec fn spec_event(self) -> GameEvent {
        GameEvent::SpawnResults(self.0)
    }

    /// This event as it travels through a queue.
    #[verifier::when_used_as_spec(spec_event)]
    pub fn event(self) -> (event: GameEvent)
        ensures
            event == self.spec_event(),
    {
        GameEvent::SpawnResults(self.0)
    }
}

} // verus!
