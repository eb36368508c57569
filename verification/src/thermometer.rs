use vstd::prelude::*;

verus! {

/// Reading at which the game is lost, in tenths of a degree.
pub const GAME_OVER_FEVER: i32 = 410;

/// Reading from which the fever counts as high.
pub const HIGH_FEVER: i32 = 400;

/// Reading at the start of a game.
pub const STARTING_FEVER: i32 = 390;

/// Reading down to which the fever counts as low.
pub const LOW_FEVER: i32 = 380;

/// Reading at which the game is won.
pub const NO_FEVER: i32 = 370;

/// How far one minigame moves the reading.
pub const FEVER_INCREMENT: i32 = 5;

/// A decimal place of the reading.
#[derive(Clone, Copy, Debug, PartialEq, Eq, Structural)]
pub enum Digit {
    Tens,
    Ones,
    Tenths,
}

/// The reading after a minigame with outcome `has_won`: a win cools it by
/// one increment, a loss heats it by one.
pub open spec fn spec_after_outcome(reading: int, has_won: bool) -> int {
    if has_won {
        reading - FEVER_INCREMENT
    } else {
        reading + FEVER_INCREMENT
    }
}

/// Whether `reading` ends the game: it has cooled to [`NO_FEVER`] or risen
/// to [`GAME_OVER_FEVER`]. Readings strictly between keep the game going.
pub open spec fn spec_is_game_finished(reading: int) -> bool {
    reading <= NO_FEVER || reading >= GAME_OVER_FEVER
}

/// Whether `reading` wins the game.
pub open spec fn spec_has_won(reading: int) -> bool {
    reading <= NO_FEVER
}

/// The digit of `reading` at `digit`; a reading below zero shows zeros.
pub open spec fn spec_digit(reading: int, digit: Digit) -> int {
    let shown = if reading < 0 {
        0
    } else {
        reading
    };
    match digit {
        Digit::Tens => (shown / 100) % 10,
        Digit::Ones => (shown / 10) % 10,
        Digit::Tenths => shown % 10,
    }
}

/// The picture of the thermometer for `reading`: 2 when the fever is high,
/// 0 when it is low, 1 between.
pub open spec fn spec_level(reading: int) -> int {
    if reading >= HIGH_FEVER {
        2
    } else if reading <= LOW_FEVER {
        0
    } else {
        1
    }
}

/// The fever meter: one reading, in tenths of a degree, that the outcomes of
/// the minigames move until the game is won or lost.
#[derive(Clone, Copy, Debug, PartialEq, Eq, Structural)]
pub struct Thermometer {
    pub reading: i32,
}

/// The thermometer of a new game.
pub fn thermometer() -> (meter: Thermometer)
    ensures
        meter.reading == STARTING_FEVER,
{
    Thermometer { reading: STARTING_FEVER }
}

impl Thermometer {
    /// This thermometer after a minigame with outcome `has_won`: the reading
    /// moves by exactly one increment, unless the integer that holds it has
    /// no room for that.
    pub open spec fn spec_record_outcome(self, has_won: bool) -> Thermometer {
        let moved = spec_after_outcome(self.reading as int, has_won);
        if i32::MIN <= moved <= i32::MAX {
            Thermometer { reading: moved as i32 }
        } else {
            self
        }
    }

    /// Records the outcome of one minigame: the reading moves by exactly one
    /// increment, down on a win and up on a loss. Returns `false`, and
    /// leaves the reading alone, only where the new reading does not fit
    /// the integer that holds it.
    pub fn record_outcome(&mut self, has_won: bool) -> (recorded: bool)
        ensures
            recorded == (i32::MIN <= spec_after_outcome(old(self).reading as int, has_won)
                <= i32::MAX),
            recorded ==> final(self).reading == spec_after_outcome(
                old(self).reading as int,
                has_won,
            ),
            !recorded ==> final(self).reading == old(self).reading,
            *final(self) == old(self).spec_record_outcome(has_won),
    {
        let moved = if has_won {
            self.reading.checked_sub(FEVER_INCREMENT)
        } else {
            self.reading.checked_add(FEVER_INCREMENT)
        };
        match moved {
            Some(reading) => {
                self.reading = reading;
                true
            },
            None => false,
        }
    }

    /// Whether the reading ends the game.
    pub fn is_game_finished(&self) -> (finished: bool)
        ensures
            finished == spec_is_game_finished(self.reading as int),
    {
        self.reading <= NO_FEVER || self.reading >= GAME_OVER_FEVER
    }

    /// Whether the reading wins the game.
    pub fn has_won(&self) -> (won: bool)
        ensures
            won == spec_has_won(self.reading as int),
    {
        self.reading <= NO_FEVER
    }

    /// Whether the fever is high.
    pub fn is_fever_high(&self) -> (high: bool)
        ensures
            high == (self.reading >= HIGH_FEVER),
    {
        self.reading >= HIGH_FEVER
    }

    /// Whether the fever is low.
    pub fn is_fever_low(&self) -> (low: bool)
        ensures
            low == (self.reading <= LOW_FEVER),
    {
        self.reading <= LOW_FEVER
    }

    /// The picture of the thermometer that fits the reading.
    pub fn level(&self) -> (index: usize)
        ensures
            index == spec_level(self.reading as int),
    {
        if self.reading >= HIGH_FEVER {
            2
        } else if self.reading <= LOW_FEVER {
            0
        } else {
            1
        }
    }

    /// The picture of the patient that fits the reading: 2 when the fever is
    /// high, 1 when it is low, 0 between.
    pub fn player_frame(&self) -> (index: usize)
        ensures
            index == (if self.reading >= HIGH_FEVER {
                2int
            } else if self.reading <= LOW_FEVER {
                1int
            } else {
                0int
            }),
    {
        if self.is_fever_high() {
            2
        } else if self.is_fever_low() {
            1
        } else {
            0
        }
    }

    /// The digit of the reading at `digit`.
    pub fn digit(&self, digit: Digit) -> (shown: usize)
        ensures
            shown == spec_digit(self.reading as int, digit),
            shown < 10,
    {
        let reading: i32 = if self.reading < 0 {
            0
        } else {
            self.reading
        };
        let place: i32 = match digit {
            Digit::Tens => (reading / 100) % 10,
            Digit::Ones => (reading / 10) % 10,
            Digit::Tenths => reading % 10,
        };
        place as usize
    }
}

} // verus!
