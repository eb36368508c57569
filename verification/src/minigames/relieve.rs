use crate::events::MinigameFinished;
use vstd::prelude::*;

verus! {

/// Drops a flower takes before it blooms.
pub const FLOWER_HP: usize = 3;

/// Frames of a flower on its sheet, from bud to bloom.
pub const FLOWER_FRAMES: [usize; 3] = [0, 1, 2];

/// A flower of the watering minigame.
#[derive(Clone, Copy, Debug, PartialEq, Eq, Structural)]
pub struct Flower {
    pub has_bloomed: bool,
    /// Drops it still takes before it blooms.
    pub hp: usize,
}

/// Whether every one of `flowers` has bloomed.
pub open spec fn spec_all_bloomed(flowers: Seq<Flower>) -> bool {
    forall|i: int| 0 <= i < flowers.len() ==> (#[trigger] flowers[i]).has_bloomed
}

impl Flower {
    /// A bud.
    pub fn new() -> (flower: Self)
        ensures
            flower == (Flower { has_bloomed: false, hp: FLOWER_HP }),
    {
        Flower { has_bloomed: false, hp: FLOWER_HP }
    }

    /// This flower after a drop has fallen on it: a bud takes the drop and
    /// needs one less, down to none; a flower in bloom lets it pass.
    pub open spec fn spec_water(self) -> Flower {
        if self.has_bloomed || self.hp == 0 {
            self
        } else {
            Flower { hp: (self.hp - 1) as usize, ..self }
        }
    }

    /// Lets a drop fall on the flower. Returns whether the flower took the
    /// drop, which a bud does and a flower in bloom does not.
    pub fn water(&mut self) -> (taken: bool)
        ensures
            *final(self) == old(self).spec_water(),
            taken == !old(self).has_bloomed,
    {
        if self.has_bloomed {
            return false;
        }
        if self.hp > 0 {
            self.hp = self.hp - 1;
        }
        true
    }

    /// Lets the flower bloom once it needs no more drops.
    pub fn check_hp(&mut self)
        ensures
            final(self).hp == old(self).hp,
            final(self).has_bloomed == (old(self).has_bloomed || old(self).hp == 0),
    {
        if self.hp == 0 {
            self.has_bloomed = true;
        }
    }

    /// The frame of the sheet that shows the flower: the last one in bloom,
    /// the first one before.
    pub fn frame(&self) -> (frame: usize)
        ensures
            frame == (if self.has_bloomed {
                2int
            } else {
                0int
            }),
    {
        if self.has_bloomed {
            FLOWER_FRAMES[2]
        } else {
            FLOWER_FRAMES[0]
        }
    }
}

/// Reports the minigame won once every one of `flowers` has bloomed.
pub fn check_win(flowers: &[Flower]) -> (finished: Option<MinigameFinished>)
    ensures
        finished == (if spec_all_bloomed(flowers@) {
            Some(MinigameFinished(true))
        } else {
            None
        }),
{
    let mut i: usize = 0;
    while i < flowers.len()
        invariant
            i <= flowers@.len(),
            forall|j: int| 0 <= j < i ==> (#[trigger] flowers@[j]).has_bloomed,
        decreases flowers@.len() - i,
    {
        if !flowers[i].has_bloomed {
            return None;
        }
        i = i + 1;
    }
    Some(MinigameFinished(true))
}

} // verus!
