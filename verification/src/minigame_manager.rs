use crate::clock::{advance, TimerKind};
use crate::events::NewMinigame;
use crate::minigames::{lemma_registry_complete, spec_minigame_keys, MinigameKey, MINIGAME_KEYS};
use rand::seq::IndexedRandom;
use vstd::prelude::*;

verus! {

/// Time the interlude lasts before the next minigame is selected, in
/// nanoseconds.
pub const WAIT_TIME: u64 = 3_000_000_000;

/// Mathematical model of a [`MinigameManager`].
pub struct MinigameManagerView {
    /// The minigame selected last, until its results have been shown.
    pub current_minigame_key: Option<MinigameKey>,
    /// Time waited since the last selection.
    pub wait_elapsed: nat,
}

impl MinigameManagerView {
    /// Well-formedness: the wait starts anew the moment it is over.
    pub open spec fn inv(self) -> bool {
        self.wait_elapsed < WAIT_TIME
    }

    /// The selector of a new game: nothing selected, nothing waited.
    pub open spec fn new() -> MinigameManagerView {
        MinigameManagerView { current_minigame_key: None, wait_elapsed: 0 }
    }

    /// Whether the wait is over once `delta` has passed.
    pub open spec fn is_due(self, delta: nat) -> bool {
        self.wait_elapsed + delta >= WAIT_TIME
    }

    /// The selector after `delta` of a wait that is not over yet.
    pub open spec fn wait(self, delta: nat) -> MinigameManagerView {
        MinigameManagerView { wait_elapsed: self.wait_elapsed + delta, ..self }
    }

    /// The selector after `pick` has been selected: it is the current
    /// minigame, and the wait starts anew.
    pub open spec fn select(self, pick: MinigameKey) -> MinigameManagerView {
        MinigameManagerView { current_minigame_key: Some(pick), wait_elapsed: 0 }
    }

    /// The selector after `delta` has passed in the interlude, where `pick`
    /// is the key drawn if the wait is over, and the event this fires.
    pub open spec fn tick(self, delta: nat, pick: MinigameKey) -> (
        MinigameManagerView,
        Option<NewMinigame>,
    ) {
        if self.is_due(delta) {
            (self.select(pick), Some(NewMinigame(pick)))
        } else {
            (self.wait(delta), None)
        }
    }

    /// The selector with `key` made the current minigame by hand, the wait
    /// left as it is.
    pub open spec fn with_current(self, key: MinigameKey) -> MinigameManagerView {
        MinigameManagerView { current_minigame_key: Some(key), ..self }
    }

    /// The selector once the results of the current minigame have been
    /// shown: nothing is selected.
    pub open spec fn clear(self) -> MinigameManagerView {
        MinigameManagerView { current_minigame_key: None, ..self }
    }
}

/// Draws one of `keys` with `IndexedRandom::choose` of rand, on the
/// generator of the calling thread.
///
/// Not proved: that the draw gives nothing exactly when `keys` is empty, and
/// otherwise one of its items. Which one is left open.
#[verifier::external_body]
fn choose_key(keys: &[MinigameKey]) -> (picked: Option<MinigameKey>)
    ensures
        picked is None <==> keys@.len() == 0,
        picked matches Some(key) ==> keys@.contains(key),
{
    keys.choose(&mut rand::rng()).copied()
}

/// Draws one of the registered minigames at random.
pub fn pick_minigame() -> (key: MinigameKey)
    ensures
        spec_minigame_keys().contains(key),
{
    let key = match choose_key(MINIGAME_KEYS.as_slice()) {
        Some(key) => key,
        None => MinigameKey::Control,
    };
    proof {
        lemma_registry_complete(key);
    }
    key
}

/// Chooses the next minigame after an idle wait and remembers which one is
/// current.
#[derive(Clone, Copy, Debug)]
pub struct MinigameManager {
    current_minigame_key: Option<MinigameKey>,
    wait_elapsed: u64,
}

impl View for MinigameManager {
    type V = MinigameManagerView;

    closed spec fn view(&self) -> MinigameManagerView {
        MinigameManagerView {
            current_minigame_key: self.current_minigame_key,
            wait_elapsed: self.wait_elapsed as nat,
        }
    }
}

impl MinigameManager {
    #[verifier::type_invariant]
    spec fn well_formed(self) -> bool {
        self.wait_elapsed < WAIT_TIME
    }

    /// The selector of a new game.
    pub fn new() -> (manager: Self)
        ensures
            manager@ == MinigameManagerView::new(),
            manager@.inv(),
    {
        MinigameManager { current_minigame_key: None, wait_elapsed: 0 }
    }

    /// Lets `delta` pass in the interlude. When the wait is over, `pick`
    /// becomes the current minigame, the wait starts anew and the selection
    /// is announced.
    pub fn tick_with(&mut self, delta: u64, pick: MinigameKey) -> (fired: Option<NewMinigame>)
        ensures
            (final(self)@, fired) == old(self)@.tick(delta as nat, pick),
            final(self)@.inv(),
    {
        proof {
            use_type_invariant(&*self);
        }
        let after = advance(TimerKind::Once, WAIT_TIME, self.wait_elapsed, delta);
        if after.just_finished {
            *self = MinigameManager { current_minigame_key: Some(pick), wait_elapsed: 0 };
            Some(NewMinigame(pick))
        } else {
            self.wait_elapsed = after.elapsed;
            None
        }
    }

    /// Lets `delta` pass in the interlude. When the wait is over, a minigame
    /// drawn at random becomes the current one, the wait starts anew and the
    /// selection is announced.
    pub fn tick(&mut self, delta: u64) -> (fired: Option<NewMinigame>)
        ensures
            fired is Some <==> old(self)@.is_due(delta as nat),
            match fired {
                Some(NewMinigame(key)) => final(self)@ == old(self)@.select(key),
                None => final(self)@ == old(self)@.wait(delta as nat),
            },
            final(self)@.inv(),
    {
        proof {
            use_type_invariant(&*self);
        }
        let after = advance(TimerKind::Once, WAIT_TIME, self.wait_elapsed, delta);
        if after.just_finished {
            let pick = pick_minigame();
            *self = MinigameManager { current_minigame_key: Some(pick), wait_elapsed: 0 };
            Some(NewMinigame(pick))
        } else {
            self.wait_elapsed = after.elapsed;
            None
        }
    }

    /// Makes `key` the current minigame without waiting for it.
    pub fn set_current(&mut self, key: MinigameKey)
        ensures
            final(self)@ == old(self)@.with_current(key),
            final(self)@.inv(),
    {
        proof {
            use_type_invariant(&*self);
        }
        self.current_minigame_key = Some(key);
    }

    /// Forgets the current minigame.
    pub fn clear(&mut self)
        ensures
            final(self)@ == old(self)@.clear(),
            final(self)@.inv(),
    {
        proof {
            use_type_invariant(&*self);
        }
        self.current_minigame_key = None;
    }

    /// The minigame selected last, until its results have been shown.
    pub fn current_minigame_key(&self) -> (key: Option<MinigameKey>)
        ensures
            key == self@.current_minigame_key,
    {
        self.current_minigame_key
    }
}

impl Default for MinigameManager {
    fn default() -> (manager: Self)
        ensures
            manager@ == MinigameManagerView::new(),
    {
        MinigameManager::new()
    }
}

} // verus!
