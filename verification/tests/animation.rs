use fever_dream::animation::{Animation, AnimationStep, BASE_ANIMATION_SPEED};
use fever_dream::game_state::GameState;
use fever_dream::minigames::MinigameKey;

const MS: u64 = 1_000_000;

#[test]
fn a_frame_of_an_animation_lasts_a_quarter_of_a_second() {
    assert_eq!(BASE_ANIMATION_SPEED, 250 * MS);
}

#[test]
fn a_looping_animation_goes_round() {
    let mut animation = Animation::looping(&[0, 1]);
    assert_eq!(animation.current_frame(), 0);
    assert_eq!(animation.minigame_key(), None);
    assert_eq!(
        animation.tick(249 * MS, GameState::Interlude, None),
        AnimationStep::Idle
    );
    assert_eq!(
        animation.tick(MS, GameState::Interlude, None),
        AnimationStep::Show(1)
    );
    assert_eq!(animation.current_frame(), 1);
    assert_eq!(
        animation.tick(250 * MS, GameState::Interlude, None),
        AnimationStep::Show(0)
    );
    assert_eq!(animation.current_frame(), 0);
}

#[test]
fn an_animation_shows_the_frames_it_was_given() {
    let mut animation = Animation::looping(&[0, 4, 9]);
    assert_eq!(
        animation.tick(250 * MS, GameState::GameOver, None),
        AnimationStep::Show(4)
    );
    assert_eq!(
        animation.tick(250 * MS, GameState::GameOver, None),
        AnimationStep::Show(9)
    );
    assert_eq!(
        animation.tick(250 * MS, GameState::GameOver, None),
        AnimationStep::Show(0)
    );
}

#[test]
fn an_animation_counts_on_from_its_first_entry() {
    let mut animation = Animation::looping(&[1, 6, 8]);
    assert_eq!(animation.current_frame(), 1);
    assert_eq!(
        animation.tick(250 * MS, GameState::Interlude, None),
        AnimationStep::Show(8)
    );
    assert_eq!(
        animation.tick(250 * MS, GameState::Interlude, None),
        AnimationStep::Show(1)
    );
    assert_eq!(animation.current_frame(), 0);
}

#[test]
fn what_is_left_of_a_tick_counts_for_the_next_frame() {
    let mut animation = Animation::looping(&[0, 1]);
    assert_eq!(
        animation.tick(400 * MS, GameState::Interlude, None),
        AnimationStep::Show(1)
    );
    assert_eq!(
        animation.tick(99 * MS, GameState::Interlude, None),
        AnimationStep::Idle
    );
    assert_eq!(
        animation.tick(MS, GameState::Interlude, None),
        AnimationStep::Show(0)
    );
}

#[test]
fn a_long_tick_changes_the_frame_once() {
    let mut animation = Animation::looping(&[0, 1, 2, 3]);
    assert_eq!(
        animation.tick(1000 * MS, GameState::Interlude, None),
        AnimationStep::Show(1)
    );
    assert_eq!(animation.current_frame(), 1);
}

#[test]
fn an_animation_that_does_not_loop_ends() {
    let mut animation = Animation::one_off(&[0, 1]);
    assert_eq!(
        animation.tick(250 * MS, GameState::Interlude, None),
        AnimationStep::Show(1)
    );
    assert_eq!(
        animation.tick(250 * MS, GameState::Interlude, None),
        AnimationStep::Remove
    );
}

#[test]
fn an_animation_of_a_minigame_runs_only_in_that_minigame() {
    let mut animation = Animation::looping(&[0, 1]).with_minigame(MinigameKey::Observe);
    assert_eq!(animation.minigame_key(), Some(MinigameKey::Observe));
    let observe = Some(MinigameKey::Observe);
    assert_eq!(
        animation.tick(250 * MS, GameState::Interlude, observe),
        AnimationStep::Idle
    );
    assert_eq!(
        animation.tick(250 * MS, GameState::Transitioning, observe),
        AnimationStep::Idle
    );
    assert_eq!(
        animation.tick(250 * MS, GameState::Minigame, Some(MinigameKey::Control)),
        AnimationStep::Idle
    );
    assert_eq!(
        animation.tick(250 * MS, GameState::Minigame, None),
        AnimationStep::Idle
    );
    assert_eq!(animation.current_frame(), 0);
    assert_eq!(
        animation.tick(100 * MS, GameState::Minigame, observe),
        AnimationStep::Idle
    );
    assert_eq!(
        animation.tick(150 * MS, GameState::Minigame, observe),
        AnimationStep::Show(1)
    );
}

#[test]
fn a_copy_of_an_animation_goes_its_own_way() {
    let mut animation = Animation::looping(&[3, 5]);
    let mut copy = animation.clone();
    assert_eq!(
        animation.tick(250 * MS, GameState::Interlude, None),
        AnimationStep::Show(3)
    );
    assert_eq!(copy.current_frame(), 3);
    assert_eq!(
        copy.tick(250 * MS, GameState::Interlude, None),
        AnimationStep::Show(3)
    );
}
