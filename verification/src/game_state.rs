use vstd::prelude::*;

verus! {

/// The single authoritative phase of a session.
#[derive(Clone, Copy, Debug, PartialEq, Eq, Hash, Structural)]
pub enum GameState {
    /// The session has ended; nothing leaves this state.
    GameOver,
    /// Idle between minigames while the next one is being selected.
    Interlude,
    /// A minigame scene is live and playable.
    Minigame,
    /// A fade is in progress; interlude and minigame systems are suppressed.
    Transitioning,
}

impl Default for GameState {
    fn default() -> (state: Self)
        ensures
            state == GameState::Interlude,
    {
        GameState::Interlude
    }
}

} // verus!
