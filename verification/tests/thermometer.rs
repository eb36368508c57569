use fever_dream::thermometer::{
    thermometer, Digit, Thermometer, FEVER_INCREMENT, GAME_OVER_FEVER, HIGH_FEVER, LOW_FEVER,
    NO_FEVER, STARTING_FEVER,
};

fn degrees(meter: &Thermometer) -> f32 {
    meter.reading as f32 / 10.0
}

#[test]
fn a_lost_minigame_heats_the_starting_reading_by_half_a_degree() {
    let mut meter = thermometer();
    assert_eq!(degrees(&meter), 39.0);
    assert!(meter.record_outcome(false));
    assert_eq!(meter.reading, 395);
    assert_eq!(degrees(&meter), 39.5);
    assert!(!meter.is_game_finished());
    assert!(!meter.has_won());
}

#[test]
fn a_loss_at_forty_and_a_half_ends_the_game_lost() {
    let mut meter = Thermometer { reading: 405 };
    assert!(meter.record_outcome(false));
    assert_eq!(degrees(&meter), 41.0);
    assert!(meter.is_game_finished());
    assert!(!meter.has_won());
}

#[test]
fn a_win_at_thirty_seven_and_a_half_ends_the_game_won() {
    let mut meter = Thermometer { reading: 375 };
    assert!(meter.record_outcome(true));
    assert_eq!(degrees(&meter), 37.0);
    assert!(meter.is_game_finished());
    assert!(meter.has_won());
}

#[test]
fn the_bounds_of_the_fever_are_as_designed() {
    assert_eq!(NO_FEVER, 370);
    assert_eq!(LOW_FEVER, 380);
    assert_eq!(STARTING_FEVER, 390);
    assert_eq!(HIGH_FEVER, 400);
    assert_eq!(GAME_OVER_FEVER, 410);
    assert_eq!(FEVER_INCREMENT, 5);
}

#[test]
fn every_outcome_moves_the_reading_by_one_increment() {
    let mut reading = 300;
    while reading <= 480 {
        let mut won = Thermometer { reading };
        assert!(won.record_outcome(true));
        assert_eq!(won.reading, reading - 5);
        let mut lost = Thermometer { reading };
        assert!(lost.record_outcome(false));
        assert_eq!(lost.reading, reading + 5);
        reading += 5;
    }
}

#[test]
fn only_readings_strictly_between_the_bounds_keep_the_game_going() {
    let mut reading = 300;
    while reading <= 480 {
        let meter = Thermometer { reading };
        assert_eq!(meter.is_game_finished(), !(370 < reading && reading < 410));
        assert_eq!(meter.has_won(), reading <= 370);
        reading += 1;
    }
}

#[test]
fn a_reading_outside_the_bounds_is_terminal() {
    assert!(Thermometer { reading: 365 }.is_game_finished());
    assert!(Thermometer { reading: 365 }.has_won());
    assert!(Thermometer { reading: 415 }.is_game_finished());
    assert!(!Thermometer { reading: 415 }.has_won());
    assert!(!Thermometer { reading: 371 }.is_game_finished());
    assert!(!Thermometer { reading: 409 }.is_game_finished());
}

#[test]
fn a_reading_at_the_edge_of_the_integer_is_left_alone() {
    let mut hot = Thermometer { reading: i32::MAX - 4 };
    assert!(!hot.record_outcome(false));
    assert_eq!(hot.reading, i32::MAX - 4);
    assert!(hot.record_outcome(true));
    assert_eq!(hot.reading, i32::MAX - 9);

    let mut room = Thermometer { reading: i32::MAX - 5 };
    assert!(room.record_outcome(false));
    assert_eq!(room.reading, i32::MAX);

    let mut cold = Thermometer { reading: i32::MIN + 4 };
    assert!(!cold.record_outcome(true));
    assert_eq!(cold.reading, i32::MIN + 4);
    assert!(cold.record_outcome(false));
    assert_eq!(cold.reading, i32::MIN + 9);
}

#[test]
fn digits_of_the_starting_reading() {
    let meter = thermometer();
    assert_eq!(meter.digit(Digit::Tens), 3);
    assert_eq!(meter.digit(Digit::Ones), 9);
    assert_eq!(meter.digit(Digit::Tenths), 0);
}

#[test]
fn digits_follow_the_reading() {
    let meter = Thermometer { reading: 405 };
    assert_eq!(meter.digit(Digit::Tens), 4);
    assert_eq!(meter.digit(Digit::Ones), 0);
    assert_eq!(meter.digit(Digit::Tenths), 5);
    let meter = Thermometer { reading: 1234 };
    assert_eq!(meter.digit(Digit::Tens), 2);
    assert_eq!(meter.digit(Digit::Ones), 3);
    assert_eq!(meter.digit(Digit::Tenths), 4);
    let meter = Thermometer { reading: 7 };
    assert_eq!(meter.digit(Digit::Tens), 0);
    assert_eq!(meter.digit(Digit::Ones), 0);
    assert_eq!(meter.digit(Digit::Tenths), 7);
}

#[test]
fn a_reading_below_zero_shows_zeros() {
    let meter = Thermometer { reading: -15 };
    assert_eq!(meter.digit(Digit::Tens), 0);
    assert_eq!(meter.digit(Digit::Ones), 0);
    assert_eq!(meter.digit(Digit::Tenths), 0);
}

#[test]
fn the_pictures_follow_the_fever() {
    let low = Thermometer { reading: 380 };
    assert!(low.is_fever_low());
    assert!(!low.is_fever_high());
    assert_eq!(low.level(), 0);
    assert_eq!(low.player_frame(), 1);

    let mild = Thermometer { reading: 390 };
    assert!(!mild.is_fever_low());
    assert!(!mild.is_fever_high());
    assert_eq!(mild.level(), 1);
    assert_eq!(mild.player_frame(), 0);
    assert_eq!(Thermometer { reading: 381 }.level(), 1);
    assert_eq!(Thermometer { reading: 399 }.level(), 1);

    let high = Thermometer { reading: 400 };
    assert!(high.is_fever_high());
    assert!(!high.is_fever_low());
    assert_eq!(high.level(), 2);
    assert_eq!(high.player_frame(), 2);
}
