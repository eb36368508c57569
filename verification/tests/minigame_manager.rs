use fever_dream::events::NewMinigame;
use fever_dream::minigame_manager::{pick_minigame, MinigameManager, WAIT_TIME};
use fever_dream::minigames::{MinigameKey, MINIGAME_KEYS};

const MS: u64 = 1_000_000;

#[test]
fn the_wait_lasts_three_seconds() {
    assert_eq!(WAIT_TIME, 3000 * MS);
}

#[test]
fn a_new_selector_has_nothing_selected() {
    assert_eq!(MinigameManager::new().current_minigame_key(), None);
    assert_eq!(MinigameManager::default().current_minigame_key(), None);
}

#[test]
fn the_pick_is_selected_when_the_wait_is_over() {
    let mut manager = MinigameManager::new();
    assert_eq!(manager.tick_with(2999 * MS, MinigameKey::Relieve), None);
    assert_eq!(manager.current_minigame_key(), None);
    assert_eq!(
        manager.tick_with(MS, MinigameKey::Relieve),
        Some(NewMinigame(MinigameKey::Relieve))
    );
    assert_eq!(manager.current_minigame_key(), Some(MinigameKey::Relieve));
}

#[test]
fn the_wait_starts_anew_after_a_selection() {
    let mut manager = MinigameManager::new();
    assert_eq!(
        manager.tick_with(7000 * MS, MinigameKey::Control),
        Some(NewMinigame(MinigameKey::Control))
    );
    assert_eq!(manager.tick_with(2999 * MS, MinigameKey::Observe), None);
    assert_eq!(manager.current_minigame_key(), Some(MinigameKey::Control));
    assert_eq!(
        manager.tick_with(MS, MinigameKey::Observe),
        Some(NewMinigame(MinigameKey::Observe))
    );
    assert_eq!(manager.current_minigame_key(), Some(MinigameKey::Observe));
}

#[test]
fn a_drawn_minigame_is_registered() {
    for _ in 0..50 {
        let mut manager = MinigameManager::new();
        assert_eq!(manager.tick(1500 * MS), None);
        let fired = manager.tick(1500 * MS);
        let key = manager.current_minigame_key().unwrap();
        assert_eq!(fired, Some(NewMinigame(key)));
        assert!(MINIGAME_KEYS.contains(&key));
        assert!(MINIGAME_KEYS.contains(&pick_minigame()));
    }
}

#[test]
fn every_minigame_is_drawn_sooner_or_later() {
    let mut seen = [false; 3];
    for _ in 0..2000 {
        match pick_minigame() {
            MinigameKey::Control => seen[0] = true,
            MinigameKey::Observe => seen[1] = true,
            MinigameKey::Relieve => seen[2] = true,
        }
    }
    assert_eq!(seen, [true, true, true]);
}

#[test]
fn clearing_forgets_the_current_minigame_only() {
    let mut manager = MinigameManager::new();
    manager.tick_with(3000 * MS, MinigameKey::Observe);
    manager.tick_with(1000 * MS, MinigameKey::Observe);
    manager.clear();
    assert_eq!(manager.current_minigame_key(), None);
    assert_eq!(manager.tick_with(1999 * MS, MinigameKey::Control), None);
    assert_eq!(
        manager.tick_with(MS, MinigameKey::Control),
        Some(NewMinigame(MinigameKey::Control))
    );
}
