use fever_dream::events::{
    GameEvent, InterludeStart, MinigameFinished, MinigameSpawned, MinigameStart, NewMinigame,
    ResultsSpawned, SpawnMinigame, SpawnResults,
};
use fever_dream::minigames::{should_lose_on_timeout, MinigameKey, MINIGAME_KEYS};

#[test]
fn the_registry_holds_the_three_minigames() {
    assert_eq!(
        MINIGAME_KEYS,
        [MinigameKey::Control, MinigameKey::Observe, MinigameKey::Relieve]
    );
}

#[test]
fn control_is_never_lost_on_timeout() {
    assert!(!should_lose_on_timeout(MinigameKey::Control));
    assert!(MinigameKey::Control.timeout_outcome());
}

#[test]
fn the_other_minigames_are_lost_on_timeout() {
    assert!(should_lose_on_timeout(MinigameKey::Observe));
    assert!(!MinigameKey::Observe.timeout_outcome());
    assert!(should_lose_on_timeout(MinigameKey::Relieve));
    assert!(!MinigameKey::Relieve.timeout_outcome());
}

#[test]
fn the_timeout_outcome_is_the_opposite_of_losing() {
    for key in MINIGAME_KEYS {
        assert_eq!(key.timeout_outcome(), !should_lose_on_timeout(key));
    }
}

#[test]
fn names_and_titles_of_the_minigames() {
    assert_eq!(MinigameKey::Control.name(), "control");
    assert_eq!(MinigameKey::Observe.name(), "observe");
    assert_eq!(MinigameKey::Relieve.name(), "relieve");
    for key in MINIGAME_KEYS {
        assert_eq!(key.title(), key.name().to_uppercase());
    }
}

#[test]
fn every_event_has_its_place_in_the_queue() {
    let key = MinigameKey::Relieve;
    assert_eq!(NewMinigame(key).event(), GameEvent::NewMinigame(key));
    assert_eq!(SpawnMinigame(key).event(), GameEvent::SpawnMinigame(key));
    assert_eq!(MinigameSpawned.event(), GameEvent::MinigameSpawned);
    assert_eq!(MinigameStart.event(), GameEvent::MinigameStart);
    assert_eq!(MinigameFinished(true).event(), GameEvent::MinigameFinished(true));
    assert_eq!(SpawnResults(false).event(), GameEvent::SpawnResults(false));
    assert_eq!(ResultsSpawned(true).event(), GameEvent::ResultsSpawned(true));
    assert_eq!(InterludeStart.event(), GameEvent::InterludeStart);
}
