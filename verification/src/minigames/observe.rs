use crate::events::MinigameFinished;
use vstd::prelude::*;

verus! {

/// Number of stars to catch in the telescope to win.
pub const COLLECT_AMOUNT: usize = 3;

/// Score of the star-gazing minigame.
#[derive(Clone, Copy, Debug, PartialEq, Eq, Structural)]
pub struct ObserveManager {
    /// Stars caught so far.
    pub collected: usize,
}

impl Default for ObserveManager {
    fn default() -> (manager: Self)
        ensures
            manager.collected == 0,
    {
        ObserveManager { collected: 0 }
    }
}

impl ObserveManager {
    /// Whether enough stars were caught.
    pub open spec fn spec_has_won(self) -> bool {
        self.collected >= COLLECT_AMOUNT
    }

    /// Counts one more star; the count stays where the integer that holds
    /// it is full.
    pub fn collect(&mut self)
        ensures
            final(self).collected == (if old(self).collected < usize::MAX {
                old(self).collected + 1
            } else {
                old(self).collected as int
            }),
    {
        if self.collected < usize::MAX {
            self.collected = self.collected + 1;
        }
    }

    /// Reports the minigame won once enough stars were caught.
    pub fn check_win(&self) -> (finished: Option<MinigameFinished>)
        ensures
            finished == (if self.spec_has_won() {
                Some(MinigameFinished(true))
            } else {
                None
            }),
    {
        if self.collected >= COLLECT_AMOUNT {
            Some(MinigameFinished(true))
        } else {
            None
        }
    }
}

} // verus!
