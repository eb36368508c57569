use crate::events::{GameEvent, NewMinigame};
use crate::game_state::GameState;
use crate::minigame_manager::{MinigameManager, MinigameManagerView};
use crate::minigame_timer::{MinigameTimer, MinigameTimerView};
use crate::minigames::MinigameKey;
use crate::thermometer::{spec_is_game_finished, thermometer, Thermometer};
use crate::transition::{Transition, TransitionOutcome, TransitionType, TransitionView};
use vstd::prelude::*;

verus! {

/// `events` with `event` at its end, if there is one.
pub open spec fn spec_with(events: Seq<GameEvent>, event: Option<GameEvent>) -> Seq<GameEvent> {
    match event {
        Some(event) => events.push(event),
        None => events,
    }
}

/// Mathematical model of a [`Game`].
pub struct GameView {
    pub state: GameState,
    pub minigame_manager: MinigameManagerView,
    /// The fade in progress. There is at most one.
    pub transition: Option<TransitionView>,
    pub thermometer: Thermometer,
    pub minigame_timer: MinigameTimerView,
}

impl GameView {
    /// Well-formedness: the parts are well-formed, and the game is in
    /// [`GameState::Transitioning`] exactly while a fade is in progress,
    /// which has not reached its end.
    pub open spec fn inv(self) -> bool {
        &&& self.minigame_manager.inv()
        &&& self.minigame_timer.inv()
        &&& (self.state == GameState::Transitioning <==> self.transition is Some)
        &&& (self.transition matches Some(transition) ==> transition.inv()
            && !transition.is_done())
    }

    /// A new game: the interlude, no fade, nothing selected, the countdown
    /// unarmed and the thermometer at its starting reading.
    pub open spec fn new() -> GameView {
        GameView {
            state: GameState::Interlude,
            minigame_manager: MinigameManagerView::new(),
            transition: None,
            thermometer: Thermometer { reading: crate::thermometer::STARTING_FEVER },
            minigame_timer: MinigameTimerView::new(),
        }
    }

    /// Whether a fade may begin: none is in progress and the game is not
    /// over.
    pub open spec fn can_begin(self) -> bool {
        self.transition is None && self.state != GameState::GameOver
    }

    /// The game after a fade of `transition_type` was asked for: it begins
    /// where one may begin, and nothing happens otherwise.
    pub open spec fn begin(self, transition_type: TransitionType) -> GameView {
        if self.can_begin() {
            GameView {
                state: GameState::Transitioning,
                transition: Some(
                    match transition_type {
                        TransitionType::FadeIn(key) => TransitionView::fade_in(key),
                        TransitionType::FadeOut(has_won) => TransitionView::fade_out(has_won),
                    },
                ),
                ..self
            }
        } else {
            self
        }
    }

    /// The game after the minigame `key` was asked for by hand in the
    /// interlude: it is the current minigame and the fade towards it
    /// begins. Outside the interlude nothing happens.
    pub open spec fn request(self, key: MinigameKey) -> GameView {
        if self.state == GameState::Interlude {
            GameView {
                minigame_manager: self.minigame_manager.with_current(key),
                ..self
            }.begin(TransitionType::FadeIn(key))
        } else {
            self
        }
    }

    /// The game after the spawned side has reported back with `finished`.
    pub open spec fn resume(self, finished: bool) -> GameView {
        match self.transition {
            Some(transition) => GameView {
                transition: Some(transition.resume(finished)),
                ..self
            },
            None => self,
        }
    }

    /// The game after the handler of `event` has run, and the event that
    /// the handler emits.
    ///
    /// - `NewMinigame`: the fade-in begins.
    /// - `MinigameFinished`: the countdown is disarmed and the fade-out
    ///   begins.
    /// - `MinigameSpawned`, `ResultsSpawned`: a holding fade resumes.
    /// - `MinigameStart`: the countdown is armed for the current minigame.
    /// - `SpawnResults`: the thermometer records the outcome, and
    ///   `ResultsSpawned` tells whether the game is finished.
    /// - `SpawnMinigame`, `InterludeStart`: for the outside; nothing changes.
    pub open spec fn handle(self, event: GameEvent) -> (GameView, Option<GameEvent>) {
        match event {
            GameEvent::NewMinigame(key) => (self.begin(TransitionType::FadeIn(key)), None),
            GameEvent::MinigameFinished(has_won) => (
                GameView { minigame_timer: self.minigame_timer.finish(), ..self }.begin(
                    TransitionType::FadeOut(has_won),
                ),
                None,
            ),
            GameEvent::MinigameSpawned => (self.resume(false), None),
            GameEvent::ResultsSpawned(finished) => (self.resume(finished), None),
            GameEvent::MinigameStart => (
                GameView {
                    minigame_timer: self.minigame_timer.start(
                        self.minigame_manager.current_minigame_key,
                    ),
                    ..self
                },
                None,
            ),
            GameEvent::SpawnResults(has_won) => {
                let recorded = self.thermometer.spec_record_outcome(has_won);
                (
                    GameView { thermometer: recorded, ..self },
                    Some(GameEvent::ResultsSpawned(spec_is_game_finished(recorded.reading as int))),
                )
            },
            GameEvent::SpawnMinigame(_) => (self, None),
            GameEvent::InterludeStart => (self, None),
        }
    }

    /// The game after `event` and the event emitted in reply have been
    /// handled, and that reply.
    pub open spec fn dispatch(self, event: GameEvent) -> (GameView, Option<GameEvent>) {
        let (handled, reply) = self.handle(event);
        match reply {
            Some(reply) => (handled.handle(reply).0, Some(reply)),
            None => (handled, None),
        }
    }

    /// The game after `delta` has passed for the selector, which waits only
    /// in the interlude, and the event this fires; `pick` is the key drawn
    /// if the wait is over.
    pub open spec fn tick_selector(self, delta: nat, pick: MinigameKey) -> (
        GameView,
        Option<GameEvent>,
    ) {
        if self.state == GameState::Interlude {
            let (minigame_manager, fired) = self.minigame_manager.tick(delta, pick);
            (
                GameView { minigame_manager, ..self },
                match fired {
                    Some(selected) => Some(selected.spec_event()),
                    None => None,
                },
            )
        } else {
            (self, None)
        }
    }

    /// The game after `delta` has passed for the countdown, and the event
    /// this fires.
    pub open spec fn tick_countdown(self, delta: nat) -> (GameView, Option<GameEvent>) {
        let (minigame_timer, fired) = self.minigame_timer.tick(delta);
        (
            GameView { minigame_timer, ..self },
            match fired {
                Some(expired) => Some(expired.spec_event()),
                None => None,
            },
        )
    }

    /// The game after `delta` has passed for the fade, and the event this
    /// fires. A fade that reaches its end is gone and sets the game state:
    /// the minigame after a fade-in; after a fade-out the interlude, or the
    /// end of the game, with no minigame current any more.
    pub open spec fn tick_transition(self, delta: nat) -> (GameView, Option<GameEvent>) {
        match self.transition {
            None => (self, None),
            Some(transition) => {
                let (moved, outcome) = transition.tick(delta);
                (
                    match outcome {
                        TransitionOutcome::MinigameStart => GameView {
                            state: GameState::Minigame,
                            transition: None,
                            ..self
                        },
                        TransitionOutcome::InterludeStart(finished) => GameView {
                            state: if finished {
                                GameState::GameOver
                            } else {
                                GameState::Interlude
                            },
                            transition: None,
                            minigame_manager: self.minigame_manager.clear(),
                            ..self
                        },
                        _ => GameView { transition: Some(moved), ..self },
                    },
                    outcome.spec_event(),
                )
            },
        }
    }

    /// The game after the second half of a tick, and the events of the whole
    /// tick in the order they were emitted: the events `selected` and
    /// `expired` of the selector and the countdown are handled, then `delta`
    /// passes for the fade and what the fade emits is handled.
    pub open spec fn settle(
        self,
        delta: nat,
        selected: Option<GameEvent>,
        expired: Option<GameEvent>,
    ) -> (GameView, Seq<GameEvent>) {
        let after_selected = match selected {
            Some(event) => self.dispatch(event).0,
            None => self,
        };
        let after_expired = match expired {
            Some(event) => after_selected.dispatch(event).0,
            None => after_selected,
        };
        let (after_fade, faded) = after_expired.tick_transition(delta);
        let (settled, reply) = match faded {
            Some(event) => after_fade.dispatch(event),
            None => (after_fade, None),
        };
        let own = spec_with(spec_with(Seq::empty(), selected), expired);
        (settled, spec_with(spec_with(own, faded), reply))
    }

    /// The game after one tick of `delta`, and the events emitted in it, in
    /// order: the selector and the countdown tick, their events are handled,
    /// the fade advances, and its events are handled. `pick` is the key
    /// drawn if the selector's wait is over.
    pub open spec fn tick(self, delta: nat, pick: MinigameKey) -> (GameView, Seq<GameEvent>) {
        let (after_selector, selected) = self.tick_selector(delta, pick);
        let (after_countdown, expired) = after_selector.tick_countdown(delta);
        after_countdown.settle(delta, selected, expired)
    }
}

/// The whole state of a session: the game state, the selector, the fade in
/// progress if there is one, the thermometer and the countdown.
#[derive(Clone, Copy, Debug)]
pub struct Game {
    state: GameState,
    minigame_manager: MinigameManager,
    transition: Option<Transition>,
    thermometer: Thermometer,
    minigame_timer: MinigameTimer,
}

impl View for Game {
    type V = GameView;

    closed spec fn view(&self) -> GameView {
        GameView {
            state: self.state,
            minigame_manager: self.minigame_manager@,
            transition: match self.transition {
                Some(transition) => Some(transition@),
                None => None,
            },
            thermometer: self.thermometer,
            minigame_timer: self.minigame_timer@,
        }
    }
}

impl Game {
    #[verifier::type_invariant]
    spec fn well_formed(self) -> bool {
        self@.inv()
    }

    /// A new game.
    pub fn new() -> (game: Self)
        ensures
            game@ == GameView::new(),
            game@.inv(),
    {
        Game {
            state: GameState::Interlude,
            minigame_manager: MinigameManager::new(),
            transition: None,
            thermometer: thermometer(),
            minigame_timer: MinigameTimer::new(),
        }
    }

    fn begin(&mut self, transition_type: TransitionType) -> (begun: bool)
        ensures
            final(self)@ == old(self)@.begin(transition_type),
            begun == old(self)@.can_begin(),
            final(self)@.inv(),
    {
        proof {
            use_type_invariant(&*self);
        }
        let free = match (self.transition, self.state) {
            (Some(_), _) => false,
            (None, GameState::GameOver) => false,
            (None, _) => true,
        };
        if free {
            let transition = match transition_type {
                TransitionType::FadeIn(key) => Transition::fade_in(key),
                TransitionType::FadeOut(has_won) => Transition::fade_out(has_won),
            };
            *self = Game {
                state: GameState::Transitioning,
                minigame_manager: self.minigame_manager,
                transition: Some(transition),
                thermometer: self.thermometer,
                minigame_timer: self.minigame_timer,
            };
        }
        free
    }

    /// Begins the fade towards the minigame `key` and puts the game in
    /// [`GameState::Transitioning`]. Does nothing, and returns `false`,
    /// while a fade is in progress or once the game is over.
    pub fn begin_fade_in(&mut self, key: MinigameKey) -> (begun: bool)
        ensures
            final(self)@ == old(self)@.begin(TransitionType::FadeIn(key)),
            begun == old(self)@.can_begin(),
            final(self)@.inv(),
    {
        self.begin(TransitionType::FadeIn(key))
    }

    /// Begins the fade towards the results of a minigame that ended with
    /// `has_won` and puts the game in [`GameState::Transitioning`]. Does
    /// nothing, and returns `false`, while a fade is in progress or once the
    /// game is over.
    pub fn begin_fade_out(&mut self, has_won: bool) -> (begun: bool)
        ensures
            final(self)@ == old(self)@.begin(TransitionType::FadeOut(has_won)),
            begun == old(self)@.can_begin(),
            final(self)@.inv(),
    {
        self.begin(TransitionType::FadeOut(has_won))
    }

    /// Asks for the minigame `key` by hand, without waiting for the
    /// selector: in the interlude it becomes the current minigame and the
    /// fade towards it begins, which `NewMinigame` announces. Outside the
    /// interlude nothing happens.
    pub fn request_minigame(&mut self, key: MinigameKey) -> (announced: Option<GameEvent>)
        ensures
            final(self)@ == old(self)@.request(key),
            announced == (if old(self)@.state == GameState::Interlude {
                Some(GameEvent::NewMinigame(key))
            } else {
                None
            }),
            final(self)@.inv(),
    {
        proof {
            use_type_invariant(&*self);
        }
        match self.state {
            GameState::Interlude => {
                let mut minigame_manager = self.minigame_manager;
                minigame_manager.set_current(key);
                *self = Game {
                    state: self.state,
                    minigame_manager,
                    transition: self.transition,
                    thermometer: self.thermometer,
                    minigame_timer: self.minigame_timer,
                };
                self.begin(TransitionType::FadeIn(key));
                Some(GameEvent::NewMinigame(key))
            },
            _ => None,
        }
    }

    fn resume(&mut self, finished: bool)
        ensures
            final(self)@ == old(self)@.resume(finished),
            final(self)@.inv(),
    {
        proof {
            use_type_invariant(&*self);
        }
        match self.transition {
            Some(transition) => {
                let mut transition = transition;
                transition.resume(finished);
                *self = Game {
                    state: self.state,
                    minigame_manager: self.minigame_manager,
                    transition: Some(transition),
                    thermometer: self.thermometer,
                    minigame_timer: self.minigame_timer,
                };
            },
            None => {},
        }
    }

    /// Runs the handler of `event` and returns the event that it emits.
    pub fn handle(&mut self, event: GameEvent) -> (reply: Option<GameEvent>)
        ensures
            (final(self)@, reply) == old(self)@.handle(event),
            final(self)@.inv(),
    {
        proof {
            use_type_invariant(&*self);
        }
        match event {
            GameEvent::NewMinigame(key) => {
                self.begin(TransitionType::FadeIn(key));
                None
            },
            GameEvent::MinigameFinished(has_won) => {
                let mut minigame_timer = self.minigame_timer;
                minigame_timer.finish();
                *self = Game {
                    state: self.state,
                    minigame_manager: self.minigame_manager,
                    transition: self.transition,
                    thermometer: self.thermometer,
                    minigame_timer,
                };
                self.begin(TransitionType::FadeOut(has_won));
                None
            },
            GameEvent::MinigameSpawned => {
                self.resume(false);
                None
            },
            GameEvent::ResultsSpawned(finished) => {
                self.resume(finished);
                None
            },
            GameEvent::MinigameStart => {
                let mut minigame_timer = self.minigame_timer;
                minigame_timer.start(self.minigame_manager.current_minigame_key());
                *self = Game {
                    state: self.state,
                    minigame_manager: self.minigame_manager,
                    transition: self.transition,
                    thermometer: self.thermometer,
                    minigame_timer,
                };
                None
            },
            GameEvent::SpawnResults(has_won) => {
                let mut thermometer = self.thermometer;
                thermometer.record_outcome(has_won);
                *self = Game {
                    state: self.state,
                    minigame_manager: self.minigame_manager,
                    transition: self.transition,
                    thermometer,
                    minigame_timer: self.minigame_timer,
                };
                Some(GameEvent::ResultsSpawned(thermometer.is_game_finished()))
            },
            GameEvent::SpawnMinigame(_) => None,
            GameEvent::InterludeStart => None,
        }
    }

    /// Handles `event` and then the event emitted in reply, which it
    /// returns.
    pub fn dispatch(&mut self, event: GameEvent) -> (reply: Option<GameEvent>)
        ensures
            (final(self)@, reply) == old(self)@.dispatch(event),
            final(self)@.inv(),
    {
        let reply = self.handle(event);
        match reply {
            Some(event) => {
                self.handle(event);
            },
            None => {},
        }
        reply
    }

    /// Lets `delta` pass for the selector, with `pick` as the key to select
    /// if the wait is over.
    pub fn tick_selector_with(&mut self, delta: u64, pick: MinigameKey) -> (fired: Option<
        GameEvent,
    >)
        ensures
            (final(self)@, fired) == old(self)@.tick_selector(delta as nat, pick),
            final(self)@.inv(),
    {
        proof {
            use_type_invariant(&*self);
        }
        match self.state {
            GameState::Interlude => {
                let mut minigame_manager = self.minigame_manager;
                let fired = minigame_manager.tick_with(delta, pick);
                *self = Game {
                    state: self.state,
                    minigame_manager,
                    transition: self.transition,
                    thermometer: self.thermometer,
                    minigame_timer: self.minigame_timer,
                };
                match fired {
                    Some(selected) => Some(selected.event()),
                    None => None,
                }
            },
            _ => None,
        }
    }

    /// Lets `delta` pass for the selector, which draws the key to select at
    /// random if the wait is over.
    pub fn tick_selector(&mut self, delta: u64) -> (fired: Option<GameEvent>)
        ensures
            exists|pick: MinigameKey|
                (final(self)@, fired) == #[trigger] old(self)@.tick_selector(delta as nat, pick),
            final(self)@.inv(),
    {
        proof {
            use_type_invariant(&*self);
        }
        match self.state {
            GameState::Interlude => {
                let mut minigame_manager = self.minigame_manager;
                let fired = minigame_manager.tick(delta);
                *self = Game {
                    state: self.state,
                    minigame_manager,
                    transition: self.transition,
                    thermometer: self.thermometer,
                    minigame_timer: self.minigame_timer,
                };
                match fired {
                    Some(NewMinigame(key)) => {
                        assert((self@, Some(GameEvent::NewMinigame(key))) == old(
                            self,
                        )@.tick_selector(delta as nat, key));
                        Some(GameEvent::NewMinigame(key))
                    },
                    None => {
                        assert((self@, None::<GameEvent>) == old(self)@.tick_selector(
                            delta as nat,
                            MinigameKey::Control,
                        ));
                        None
                    },
                }
            },
            _ => {
                assert((self@, None::<GameEvent>) == old(self)@.tick_selector(
                    delta as nat,
                    MinigameKey::Control,
                ));
                None
            },
        }
    }

    /// Lets `delta` pass for the countdown.
    pub fn tick_countdown(&mut self, delta: u64) -> (fired: Option<GameEvent>)
        ensures
            (final(self)@, fired) == old(self)@.tick_countdown(delta as nat),
            final(self)@.inv(),
    {
        proof {
            use_type_invariant(&*self);
        }
        let mut minigame_timer = self.minigame_timer;
        let fired = minigame_timer.tick(delta);
        *self = Game {
            state: self.state,
            minigame_manager: self.minigame_manager,
            transition: self.transition,
            thermometer: self.thermometer,
            minigame_timer,
        };
        match fired {
            Some(expired) => Some(expired.event()),
            None => None,
        }
    }

    /// Lets `delta` pass for the fade in progress, if there is one.
    pub fn tick_transition(&mut self, delta: u64) -> (fired: Option<GameEvent>)
        ensures
            (final(self)@, fired) == old(self)@.tick_transition(delta as nat),
            final(self)@.inv(),
    {
        proof {
            use_type_invariant(&*self);
        }
        match self.transition {
            None => None,
            Some(transition) => {
                let mut transition = transition;
                let outcome = transition.tick(delta);
                match outcome {
                    TransitionOutcome::MinigameStart => {
                        *self = Game {
                            state: GameState::Minigame,
                            minigame_manager: self.minigame_manager,
                            transition: None,
                            thermometer: self.thermometer,
                            minigame_timer: self.minigame_timer,
                        };
                    },
                    TransitionOutcome::InterludeStart(finished) => {
                        let mut minigame_manager = self.minigame_manager;
                        minigame_manager.clear();
                        *self = Game {
                            state: if finished {
                                GameState::GameOver
                            } else {
                                GameState::Interlude
                            },
                            minigame_manager,
                            transition: None,
                            thermometer: self.thermometer,
                            minigame_timer: self.minigame_timer,
                        };
                    },
                    _ => {
                        *self = Game {
                            state: self.state,
                            minigame_manager: self.minigame_manager,
                            transition: Some(transition),
                            thermometer: self.thermometer,
                            minigame_timer: self.minigame_timer,
                        };
                    },
                }
                outcome.event()
            },
        }
    }

    fn settle(
        &mut self,
        delta: u64,
        selected: Option<GameEvent>,
        expired: Option<GameEvent>,
    ) -> (events: Vec<GameEvent>)
        ensures
            (final(self)@, events@) == old(self)@.settle(delta as nat, selected, expired),
            final(self)@.inv(),
    {
        let mut events: Vec<GameEvent> = Vec::new();
        match selected {
            Some(event) => {
                self.dispatch(event);
                events.push(event);
            },
            None => {},
        }
        match expired {
            Some(event) => {
                self.dispatch(event);
                events.push(event);
            },
            None => {},
        }
        let faded = self.tick_transition(delta);
        match faded {
            Some(event) => {
                events.push(event);
                let reply = self.dispatch(event);
                match reply {
                    Some(reply) => {
                        events.push(reply);
                    },
                    None => {},
                }
            },
            None => {},
        }
        events
    }

    /// Runs one tick of `delta` with `pick` as the key to select if the
    /// selector's wait is over, and returns the events emitted in it, in
    /// order.
    pub fn tick_with(&mut self, delta: u64, pick: MinigameKey) -> (events: Vec<GameEvent>)
        ensures
            (final(self)@, events@) == old(self)@.tick(delta as nat, pick),
            final(self)@.inv(),
    {
        let selected = self.tick_selector_with(delta, pick);
        let expired = self.tick_countdown(delta);
        self.settle(delta, selected, expired)
    }

    /// Runs one tick of `delta` and returns the events emitted in it, in
    /// order. The key to select if the selector's wait is over is drawn at
    /// random.
    pub fn tick(&mut self, delta: u64) -> (events: Vec<GameEvent>)
        ensures
            exists|pick: MinigameKey|
                (final(self)@, events@) == #[trigger] old(self)@.tick(delta as nat, pick),
            final(self)@.inv(),
    {
        let selected = self.tick_selector(delta);
        let ghost pick = choose|pick: MinigameKey|
            (self@, selected) == #[trigger] old(self)@.tick_selector(delta as nat, pick);
        let expired = self.tick_countdown(delta);
        let events = self.settle(delta, selected, expired);
        assert((self@, events@) == old(self)@.tick(delta as nat, pick));
        events
    }

    /// The state of the game.
    pub fn state(&self) -> (state: GameState)
        ensures
            state == self@.state,
    {
        self.state
    }

    /// The thermometer.
    pub fn thermometer(&self) -> (meter: Thermometer)
        ensures
            meter == self@.thermometer,
    {
        self.thermometer
    }

    /// The selector.
    pub fn minigame_manager(&self) -> (manager: MinigameManager)
        ensures
            manager@ == self@.minigame_manager,
    {
        self.minigame_manager
    }

    /// The countdown.
    pub fn minigame_timer(&self) -> (timer: MinigameTimer)
        ensures
            timer@ == self@.minigame_timer,
    {
        self.minigame_timer
    }

    /// The fade in progress, if there is one.
    pub fn transition(&self) -> (transition: Option<Transition>)
        ensures
            match transition {
                Some(transition) => self@.transition == Some(transition@),
                None => self@.transition is None,
            },
    {
        self.transition
    }

    /// Whether the minigame `key` is being played.
    pub fn in_minigame(&self, key: MinigameKey) -> (playing: bool)
        ensures
            playing == (self@.state == GameState::Minigame
                && self@.minigame_manager.current_minigame_key == Some(key)),
    {
        in_minigame(self.state, &self.minigame_manager, key)
    }
}

/// Whether the minigame `key` is being played: the game is in
/// [`GameState::Minigame`] and `key` is the current minigame.
pub fn in_minigame(
    state: GameState,
    minigame_manager: &MinigameManager,
    key: MinigameKey,
) -> (playing: bool)
    ensures
        playing == (state == GameState::Minigame && minigame_manager@.current_minigame_key
            == Some(key)),
{
    match (state, minigame_manager.current_minigame_key()) {
        (GameState::Minigame, Some(current)) => current == key,
        _ => false,
    }
}

} // verus!
