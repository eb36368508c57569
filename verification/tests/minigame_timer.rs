use fever_dream::events::MinigameFinished;
use fever_dream::minigame_timer::{MinigameTimer, MINIGAME_TIMER_DURATION};
use fever_dream::minigames::MinigameKey;

const MS: u64 = 1_000_000;

#[test]
fn the_countdown_lasts_five_seconds() {
    assert_eq!(MINIGAME_TIMER_DURATION, 5000 * MS);
}

#[test]
fn a_new_countdown_is_unarmed_and_full() {
    let timer = MinigameTimer::new();
    assert!(!timer.is_armed());
    assert_eq!(timer.minigame_key(), None);
    assert_eq!(timer.remaining(), 5000 * MS);
}

#[test]
fn an_unarmed_countdown_does_not_tick() {
    let mut timer = MinigameTimer::new();
    assert_eq!(timer.tick(6000 * MS), None);
    assert_eq!(timer.remaining(), 5000 * MS);
    assert!(!timer.is_armed());
}

#[test]
fn a_timeout_fires_once_after_five_seconds_of_ticks() {
    let mut timer = MinigameTimer::new();
    timer.start(Some(MinigameKey::Observe));
    assert!(timer.is_armed());
    let mut fired = Vec::new();
    let mut before = timer.remaining();
    for tick in 1..=100u64 {
        if let Some(event) = timer.tick(100 * MS) {
            fired.push((tick, event));
        }
        assert!(timer.remaining() <= before);
        before = timer.remaining();
    }
    assert_eq!(fired, vec![(50, MinigameFinished(false))]);
    assert_eq!(timer.remaining(), 0);
    assert!(timer.is_armed());
}

#[test]
fn ticks_take_their_time_off_the_clock() {
    let mut timer = MinigameTimer::new();
    timer.start(Some(MinigameKey::Relieve));
    assert_eq!(timer.tick(1234 * MS), None);
    assert_eq!(timer.remaining(), 3766 * MS);
    assert_eq!(timer.tick(0), None);
    assert_eq!(timer.remaining(), 3766 * MS);
    assert_eq!(timer.tick(3766 * MS - 1), None);
    assert_eq!(timer.remaining(), 1);
    assert_eq!(timer.tick(1), Some(MinigameFinished(false)));
    assert_eq!(timer.remaining(), 0);
}

#[test]
fn a_tick_longer_than_the_clock_stops_at_zero() {
    let mut timer = MinigameTimer::new();
    timer.start(Some(MinigameKey::Observe));
    assert_eq!(timer.tick(u64::MAX), Some(MinigameFinished(false)));
    assert_eq!(timer.remaining(), 0);
    assert_eq!(timer.tick(u64::MAX), None);
    assert_eq!(timer.remaining(), 0);
}

#[test]
fn the_timeout_of_control_is_a_win() {
    let mut timer = MinigameTimer::new();
    timer.start(Some(MinigameKey::Control));
    assert_eq!(timer.tick(4999 * MS), None);
    assert_eq!(timer.tick(MS), Some(MinigameFinished(true)));
}

#[test]
fn a_finish_disarms_and_fills_the_clock() {
    let mut timer = MinigameTimer::new();
    timer.start(Some(MinigameKey::Observe));
    timer.tick(2000 * MS);
    assert_eq!(timer.remaining(), 3000 * MS);
    timer.finish();
    assert!(!timer.is_armed());
    assert_eq!(timer.remaining(), 5000 * MS);
    assert_eq!(timer.tick(5000 * MS), None);
    assert_eq!(timer.remaining(), 5000 * MS);
}

#[test]
fn a_start_fills_the_clock() {
    let mut timer = MinigameTimer::new();
    timer.start(Some(MinigameKey::Observe));
    timer.tick(5000 * MS);
    assert_eq!(timer.remaining(), 0);
    timer.start(Some(MinigameKey::Control));
    assert_eq!(timer.minigame_key(), Some(MinigameKey::Control));
    assert_eq!(timer.remaining(), 5000 * MS);
}

#[test]
fn a_start_without_a_minigame_leaves_the_countdown_unarmed() {
    let mut timer = MinigameTimer::new();
    timer.start(None);
    assert!(!timer.is_armed());
    assert_eq!(timer.tick(5000 * MS), None);
    assert_eq!(timer.remaining(), 5000 * MS);
}
