//! What holds of the game flow whatever it is fed, proved over the models of
//! its parts.

use crate::events::GameEvent;
use crate::game::{spec_with, GameView};
use crate::game_state::GameState;
use crate::minigame_timer::{MinigameTimerView, MINIGAME_TIMER_DURATION};
use crate::minigames::MinigameKey;
use crate::thermometer::{
    spec_has_won, spec_is_game_finished, Thermometer, FEVER_INCREMENT, GAME_OVER_FEVER, NO_FEVER,
};
use crate::transition::{TransitionType, TransitionView};
use vstd::prelude::*;

verus! {

/// One thing that can happen to a game: a tick, an event from outside, or
/// a minigame asked for by hand.
pub enum Input {
    /// Time passes; `pick` is the key drawn if a minigame is selected.
    Tick { delta: nat, pick: MinigameKey },
    /// An event is dispatched.
    Event(GameEvent),
    /// A minigame is asked for by hand.
    Request(MinigameKey),
}

impl GameView {
    /// The game after `input`.
    pub open spec fn step(self, input: Input) -> GameView {
        match input {
            Input::Tick { delta, pick } => self.tick(delta, pick).0,
            Input::Event(event) => self.dispatch(event).0,
            Input::Request(key) => self.request(key),
        }
    }

    /// The game after each of `inputs` in turn.
    pub open spec fn run(self, inputs: Seq<Input>) -> GameView
        decreases inputs.len(),
    {
        if inputs.len() == 0 {
            self
        } else {
            self.run(inputs.drop_last()).step(inputs.last())
        }
    }

    /// Whether a fade is in progress.
    pub open spec fn fading(self) -> bool {
        self.transition is Some
    }
}

/// A well-formed fade stays well-formed when it advances, ticks or resumes.
pub proof fn lemma_transition_preserves_inv(transition: TransitionView, delta: nat, finished: bool)
    requires
        transition.inv(),
    ensures
        transition.advance().0.inv(),
        transition.tick(delta).0.inv(),
        transition.resume(finished).inv(),
{
}

/// A fade ends only with the step that announces the minigame or the
/// interlude, and a fade that has just begun or resumed has not ended.
pub proof fn lemma_transition_ends_announced(transition: TransitionView, delta: nat, finished: bool)
    requires
        transition.inv(),
        !transition.is_done(),
    ensures
        transition.tick(delta).0.is_done() <==> transition.tick(delta).1.spec_next_state()
            is Some,
        !transition.resume(finished).is_done(),
{
}

/// A handler keeps a well-formed game well-formed, and replies at most with
/// `ResultsSpawned`, to which nothing replies in turn: every chain of
/// events ends after one reply.
pub proof fn lemma_handle_preserves_inv(game: GameView, event: GameEvent)
    requires
        game.inv(),
    ensures
        game.handle(event).0.inv(),
        game.dispatch(event).0.inv(),
        game.handle(event).1 matches Some(reply) ==> reply is ResultsSpawned && event
            is SpawnResults && game.handle(event).0.handle(reply).1 is None,
{
}

/// Every part of a tick keeps a well-formed game well-formed.
pub proof fn lemma_tick_parts_preserve_inv(game: GameView, delta: nat, pick: MinigameKey)
    requires
        game.inv(),
    ensures
        game.tick_selector(delta, pick).0.inv(),
        game.tick_countdown(delta).0.inv(),
        game.tick_transition(delta).0.inv(),
{
}

/// A tick keeps a well-formed game well-formed.
pub proof fn lemma_tick_preserves_inv(game: GameView, delta: nat, pick: MinigameKey)
    requires
        game.inv(),
    ensures
        game.tick(delta, pick).0.inv(),
{
}

/// The second half of a tick keeps a well-formed game well-formed.
pub proof fn lemma_settle_preserves_inv(
    game: GameView,
    delta: nat,
    selected: Option<GameEvent>,
    expired: Option<GameEvent>,
)
    requires
        game.inv(),
    ensures
        game.settle(delta, selected, expired).0.inv(),
{
    let after_selected = match selected {
        Some(event) => game.dispatch(event).0,
        None => game,
    };
    if let Some(event) = selected {
        lemma_handle_preserves_inv(game, event);
    }
    let after_expired = match expired {
        Some(event) => after_selected.dispatch(event).0,
        None => after_selected,
    };
    if let Some(event) = expired {
        lemma_handle_preserves_inv(after_selected, event);
    }
    let (after_fade, faded) = after_expired.tick_transition(delta);
    lemma_tick_parts_preserve_inv(after_expired, delta, MinigameKey::Control);
    if let Some(event) = faded {
        lemma_handle_preserves_inv(after_fade, event);
    }
}

/// Whatever happens to a well-formed game, it stays well-formed.
pub proof fn lemma_step_preserves_inv(game: GameView, input: Input)
    requires
        game.inv(),
    ensures
        game.step(input).inv(),
{
    match input {
        Input::Tick { delta, pick } => lemma_tick_preserves_inv(game, delta, pick),
        Input::Event(event) => lemma_handle_preserves_inv(game, event),
        Input::Request(key) => {},
    }
}

/// Over every sequence of ticks and events a game stays well-formed: there
/// is never more than one fade, and the game is in
/// [`GameState::Transitioning`] exactly while there is one.
pub proof fn lemma_run_preserves_inv(game: GameView, inputs: Seq<Input>)
    requires
        game.inv(),
    ensures
        game.run(inputs).inv(),
        game.run(inputs).state == GameState::Transitioning <==> game.run(inputs).fading(),
    decreases inputs.len(),
{
    if inputs.len() > 0 {
        lemma_run_preserves_inv(game, inputs.drop_last());
        lemma_step_preserves_inv(game.run(inputs.drop_last()), inputs.last());
    }
}

/// While a fade is in progress, asking for another one changes nothing: the
/// fade in progress is neither replaced nor joined by a second one.
pub proof fn lemma_one_fade_at_a_time(game: GameView, transition_type: TransitionType)
    requires
        game.fading(),
    ensures
        game.begin(transition_type) == game,
{
}

/// A handler changes the game state only by beginning a fade, and only the
/// handlers of `NewMinigame` and `MinigameFinished` begin one. No handler
/// ends a fade.
pub proof fn lemma_handlers_change_state_by_fading(game: GameView, event: GameEvent)
    requires
        game.inv(),
    ensures
        game.handle(event).0.state != game.state ==> !game.fading() && game.handle(
            event,
        ).0.fading() && (event is NewMinigame || event is MinigameFinished),
        game.fading() ==> game.handle(event).0.fading(),
        game.dispatch(event).0.state != game.state ==> !game.fading() && game.dispatch(
            event,
        ).0.fading() && (event is NewMinigame || event is MinigameFinished),
        game.fading() ==> game.dispatch(event).0.fading(),
{
}

/// Whatever happens, the game state changes only where a fade begins or
/// ends: it stays as it is while a fade goes on, and while there is none.
pub proof fn lemma_state_changes_with_fades(game: GameView, input: Input)
    requires
        game.inv(),
    ensures
        game.step(input).state != game.state ==> game.fading() != game.step(input).fading(),
{
}

/// Nothing leaves [`GameState::GameOver`], and no fade begins in it.
pub proof fn lemma_game_over_is_final(game: GameView, input: Input)
    requires
        game.inv(),
        game.state == GameState::GameOver,
    ensures
        game.step(input).state == GameState::GameOver,
        !game.step(input).fading(),
{
}

/// Recording an outcome moves the reading by exactly one increment, down on
/// a win and up on a loss, wherever the integer that holds it has room; and
/// a reading keeps the game going exactly when it lies strictly between
/// [`NO_FEVER`] and [`GAME_OVER_FEVER`].
pub proof fn lemma_reading_moves_one_increment(meter: Thermometer, has_won: bool)
    ensures
        i32::MIN + FEVER_INCREMENT <= meter.reading <= i32::MAX - FEVER_INCREMENT
            ==> meter.spec_record_outcome(has_won).reading == (if has_won {
            meter.reading - FEVER_INCREMENT
        } else {
            meter.reading + FEVER_INCREMENT
        }),
        !spec_is_game_finished(meter.reading as int) <==> NO_FEVER < meter.reading
            < GAME_OVER_FEVER,
        spec_has_won(meter.reading as int) ==> spec_is_game_finished(meter.reading as int),
{
}

/// While a countdown is armed, ticks never raise the time left and never
/// disarm it; the clock is full after a start and after a finish, and a
/// finish disarms.
pub proof fn lemma_countdown_runs_down(
    timer: MinigameTimerView,
    delta: nat,
    key: Option<MinigameKey>,
)
    requires
        timer.inv(),
    ensures
        timer.tick(delta).0.remaining <= timer.remaining,
        timer.tick(delta).0.minigame_key == timer.minigame_key,
        !timer.armed() ==> timer.tick(delta).0 == timer,
        timer.tick(delta).1 is Some <==> timer.armed() && 0 < timer.remaining <= delta,
        timer.start(key).remaining == MINIGAME_TIMER_DURATION,
        timer.finish().remaining == MINIGAME_TIMER_DURATION,
        !timer.finish().armed(),
{
}

/// In a game the countdown is reset by the handlers of `MinigameStart` and
/// `MinigameFinished` and by no other: every other handler leaves it as it
/// is.
pub proof fn lemma_countdown_resets_on_start_and_finish(game: GameView, event: GameEvent)
    ensures
        game.handle(event).0.minigame_timer == (match event {
            GameEvent::MinigameStart => game.minigame_timer.start(
                game.minigame_manager.current_minigame_key,
            ),
            GameEvent::MinigameFinished(_) => game.minigame_timer.finish(),
            _ => game.minigame_timer,
        }),
{
}

/// A countdown that has fired stays silent until it is started again: the
/// timeout is reported once.
pub proof fn lemma_countdown_fires_once(timer: MinigameTimerView, first: nat, second: nat)
    requires
        timer.inv(),
        timer.tick(first).1 is Some,
    ensures
        timer.tick(first).0.tick(second).1 is None,
        timer.tick(first).0.tick(second).0 == timer.tick(first).0,
{
}

/// The handler of `SpawnResults` records its outcome once, and no other
/// handler touches the thermometer.
pub proof fn lemma_results_recorded_by_their_handler(game: GameView, event: GameEvent)
    ensures
        game.dispatch(event).0.thermometer == (match event {
            GameEvent::SpawnResults(has_won) => game.thermometer.spec_record_outcome(has_won),
            _ => game.thermometer,
        }),
{
}

/// A fade that holds at the pause frame does nothing in a tick, however
/// many ticks pass: it emits nothing, so what it asked for when it reached
/// the frame is not asked for again.
pub proof fn lemma_holding_fade_is_idle(transition: TransitionView, delta: nat)
    requires
        transition.state is Paused,
    ensures
        transition.tick(delta).0 == transition,
        transition.tick(delta).1.spec_event() is None,
        transition.advance().0 == transition,
        transition.advance().1.spec_event() is None,
{
}

/// A tick moves the thermometer only by recording the outcome that the
/// fade-out hands over on reaching the pause frame, and then once. While a
/// fade holds at the pause frame, ticks leave the thermometer and the fade
/// as they are.
pub proof fn lemma_tick_records_once(game: GameView, delta: nat, pick: MinigameKey)
    requires
        game.inv(),
    ensures
        game.tick(delta, pick).0.thermometer == game.thermometer || (exists|has_won: bool|
            game.tick(delta, pick).1.contains(GameEvent::SpawnResults(has_won)) && game.tick(
                delta,
                pick,
            ).0.thermometer == #[trigger] game.thermometer.spec_record_outcome(has_won)),
        game.transition matches Some(transition) && transition.state is Paused ==> game.tick(
            delta,
            pick,
        ).0.thermometer == game.thermometer && game.tick(delta, pick).0.transition
            == game.transition,
{
    let (after_selector, selected) = game.tick_selector(delta, pick);
    let (after_countdown, expired) = after_selector.tick_countdown(delta);
    let after_selected = match selected {
        Some(event) => after_countdown.dispatch(event).0,
        None => after_countdown,
    };
    let after_expired = match expired {
        Some(event) => after_selected.dispatch(event).0,
        None => after_selected,
    };
    assert(after_expired.thermometer == game.thermometer);
    let (after_fade, faded) = after_expired.tick_transition(delta);
    assert(after_fade.thermometer == game.thermometer);
    let (settled, events) = game.tick(delta, pick);
    match faded {
        Some(GameEvent::SpawnResults(has_won)) => {
            let before = spec_with(
                spec_with(Seq::empty(), selected),
                expired,
            );
            assert(spec_with(before, faded)[before.len() as int]
                == GameEvent::SpawnResults(has_won));
            assert(events[before.len() as int] == GameEvent::SpawnResults(has_won));
            assert(settled.thermometer == game.thermometer.spec_record_outcome(has_won));
        },
        _ => {
            assert(settled.thermometer == game.thermometer);
        },
    }
}

} // verus!
