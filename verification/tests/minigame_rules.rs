use fever_dream::events::{GameEvent, MinigameFinished};
use fever_dream::game::Game;
use fever_dream::game_state::GameState;
use fever_dream::minigames::observe::{ObserveManager, COLLECT_AMOUNT};
use fever_dream::minigames::relieve::{check_win, Flower, FLOWER_FRAMES, FLOWER_HP};
use fever_dream::minigames::MinigameKey;
use fever_dream::transition::TransitionType;

#[test]
fn three_stars_win_the_star_gazing() {
    assert_eq!(COLLECT_AMOUNT, 3);
    let mut manager = ObserveManager::default();
    assert_eq!(manager.collected, 0);
    assert_eq!(manager.check_win(), None);
    manager.collect();
    manager.collect();
    assert_eq!(manager.collected, 2);
    assert_eq!(manager.check_win(), None);
    manager.collect();
    assert_eq!(manager.check_win(), Some(MinigameFinished(true)));
    manager.collect();
    assert_eq!(manager.collected, 4);
    assert_eq!(manager.check_win(), Some(MinigameFinished(true)));
}

#[test]
fn the_count_of_stars_stops_where_the_integer_is_full() {
    let mut manager = ObserveManager { collected: usize::MAX - 1 };
    manager.collect();
    assert_eq!(manager.collected, usize::MAX);
    manager.collect();
    assert_eq!(manager.collected, usize::MAX);
}

#[test]
fn a_flower_blooms_after_three_drops() {
    assert_eq!(FLOWER_HP, 3);
    assert_eq!(FLOWER_FRAMES, [0, 1, 2]);
    let mut flower = Flower::new();
    assert_eq!(flower, Flower { has_bloomed: false, hp: 3 });
    assert_eq!(flower.frame(), 0);
    for left in [2, 1, 0] {
        flower.check_hp();
        assert!(!flower.has_bloomed);
        assert!(flower.water());
        assert_eq!(flower.hp, left);
    }
    assert_eq!(flower.frame(), 0);
    flower.check_hp();
    assert!(flower.has_bloomed);
    assert_eq!(flower.frame(), 2);
}

#[test]
fn a_flower_in_bloom_lets_the_drops_pass() {
    let mut flower = Flower { has_bloomed: true, hp: 0 };
    assert!(!flower.water());
    assert_eq!(flower, Flower { has_bloomed: true, hp: 0 });
    let mut early = Flower { has_bloomed: true, hp: 2 };
    assert!(!early.water());
    assert_eq!(early.hp, 2);
}

#[test]
fn a_bud_that_needs_no_more_drops_still_takes_them() {
    let mut flower = Flower { has_bloomed: false, hp: 0 };
    assert!(flower.water());
    assert_eq!(flower, Flower { has_bloomed: false, hp: 0 });
}

#[test]
fn the_watering_is_won_when_every_flower_has_bloomed() {
    let bud = Flower::new();
    let bloom = Flower { has_bloomed: true, hp: 0 };
    assert_eq!(check_win(&[bud]), None);
    assert_eq!(check_win(&[bloom]), Some(MinigameFinished(true)));
    assert_eq!(check_win(&[bloom, bud, bloom]), None);
    assert_eq!(check_win(&[bloom, bloom, bud]), None);
    assert_eq!(check_win(&[bloom, bloom, bloom]), Some(MinigameFinished(true)));
    assert_eq!(check_win(&[]), Some(MinigameFinished(true)));
}

#[test]
fn a_minigame_asked_for_by_hand_begins_at_once() {
    let mut game = Game::new();
    game.tick_with(1_000_000_000, MinigameKey::Observe);
    assert_eq!(
        game.request_minigame(MinigameKey::Control),
        Some(GameEvent::NewMinigame(MinigameKey::Control))
    );
    assert_eq!(game.state(), GameState::Transitioning);
    assert_eq!(
        game.minigame_manager().current_minigame_key(),
        Some(MinigameKey::Control)
    );
    assert_eq!(
        game.transition().unwrap().transition_type(),
        TransitionType::FadeIn(MinigameKey::Control)
    );
    assert_eq!(game.request_minigame(MinigameKey::Relieve), None);
    assert_eq!(
        game.minigame_manager().current_minigame_key(),
        Some(MinigameKey::Control)
    );
    assert_eq!(
        game.transition().unwrap().transition_type(),
        TransitionType::FadeIn(MinigameKey::Control)
    );
}
