use vstd::prelude::*;

pub mod observe;
pub mod relieve;

verus! {

/// Identifies one of the registered minigames.
#[derive(Clone, Copy, Debug, PartialEq, Eq, Hash, Structural)]
pub enum MinigameKey {
    Control,
    Observe,
    Relieve,
}

/// Every registered minigame, in registration order.
pub const MINIGAME_KEYS: [MinigameKey; 3] = [
    MinigameKey::Control,
    MinigameKey::Observe,
    MinigameKey::Relieve,
];

/// The registry as a sequence.
pub open spec fn spec_minigame_keys() -> Seq<MinigameKey> {
    seq![MinigameKey::Control, MinigameKey::Observe, MinigameKey::Relieve]
}

/// Whether running out the clock in `key` counts as a loss.
pub open spec fn spec_should_lose_on_timeout(key: MinigameKey) -> bool {
    match key {
        MinigameKey::Control => false,
        MinigameKey::Observe => true,
        MinigameKey::Relieve => true,
    }
}

/// Whether running out the clock in `key` counts as a loss. This is a
/// per-minigame design choice: in `Control` surviving until the clock runs
/// out is the goal.
#[verifier::when_used_as_spec(spec_should_lose_on_timeout)]
pub fn should_lose_on_timeout(key: MinigameKey) -> (lose: bool)
    ensures
        lose == spec_should_lose_on_timeout(key),
{
    match key {
        MinigameKey::Control => false,
        MinigameKey::Observe => true,
        MinigameKey::Relieve => true,
    }
}

impl MinigameKey {
    /// The outcome reported when the countdown of this minigame expires:
    /// `true` for a win.
    pub open spec fn spec_timeout_outcome(self) -> bool {
        !spec_should_lose_on_timeout(self)
    }

    /// The outcome reported when the countdown of this minigame expires:
    /// `true` for a win.
    #[verifier::when_used_as_spec(spec_timeout_outcome)]
    pub fn timeout_outcome(self) -> (outcome: bool)
        ensures
            outcome == self.spec_timeout_outcome(),
    {
        !should_lose_on_timeout(self)
    }

    /// Position of this key in [`MINIGAME_KEYS`].
    pub open spec fn spec_index(self) -> int {
        match self {
            MinigameKey::Control => 0,
            MinigameKey::Observe => 1,
            MinigameKey::Relieve => 2,
        }
    }

    /// The name of this minigame in capitals, as a fade announces it.
    pub fn title(self) -> (title: &'static str)
        ensures
            title@ == match self {
                MinigameKey::Control => "CONTROL"@,
                MinigameKey::Observe => "OBSERVE"@,
                MinigameKey::Relieve => "RELIEVE"@,
            },
    {
        match self {
            MinigameKey::Control => "CONTROL",
            MinigameKey::Observe => "OBSERVE",
            MinigameKey::Relieve => "RELIEVE",
        }
    }

    /// The lower-case name of this minigame.
    pub fn name(self) -> (name: &'static str)
        ensures
            name@ == match self {
                MinigameKey::Control => "control"@,
                MinigameKey::Observe => "observe"@,
                MinigameKey::Relieve => "relieve"@,
            },
    {
        match self {
            MinigameKey::Control => "control",
            MinigameKey::Observe => "observe",
            MinigameKey::Relieve => "relieve",
        }
    }
}

/// The registry holds every key exactly once, at its own index.
pub proof fn lemma_registry_complete(key: MinigameKey)
    ensures
        spec_minigame_keys().len() == 3,
        0 <= key.spec_index() < 3,
        spec_minigame_keys()[key.spec_index()] == key,
        spec_minigame_keys().contains(key),
{
    assert(spec_minigame_keys()[key.spec_index()] == key);
}

} // verus!
