use nybbler::characters::CharacterType;
use nybbler::mood::NybblerMood;
use nybbler::pet::Nybbler;
use nybbler::record::{DecodeError, SaveRecord};
use nybbler::timestamp::Timestamp;

fn at(seconds: i64) -> Timestamp {
    Timestamp::new(seconds, 0).unwrap()
}

fn record(hunger: u8, happiness: u8, energy: u8, health: u8) -> SaveRecord {
    SaveRecord {
        name: String::from("Rex"),
        hunger,
        happiness,
        energy,
        health,
        age: 0,
        last_updated: at(1_700_000_000),
        mood: NybblerMood::of_stats(hunger, happiness, energy, health),
        character_type: Some(CharacterType::Cat),
    }
}

fn pet_with(hunger: u8, happiness: u8, energy: u8, health: u8) -> Nybbler {
    Nybbler::restore(record(hunger, happiness, energy, health)).unwrap()
}

fn stats(pet: &Nybbler) -> (u8, u8, u8, u8) {
    (pet.hunger(), pet.happiness(), pet.energy(), pet.health())
}

#[test]
fn new_pet_starts_with_the_fixed_defaults() {
    let pet = Nybbler::new_at(String::from("Rex"), at(1_700_000_000), CharacterType::Robo);
    assert_eq!(pet.name(), "Rex");
    assert_eq!(stats(&pet), (50, 50, 100, 100));
    assert_eq!(pet.age(), 0);
    assert_eq!(pet.last_updated(), at(1_700_000_000));
    assert_eq!(pet.mood(), NybblerMood::Happy);
    assert_eq!(pet.character_type(), CharacterType::Robo);
    assert!(pet.is_alive());
}

#[test]
fn new_pet_by_the_clock_has_the_same_defaults() {
    let before = Timestamp::now();
    let pet = Nybbler::new(String::from("Rex"));
    let after = Timestamp::now();
    assert_eq!(pet.name(), "Rex");
    assert_eq!(stats(&pet), (50, 50, 100, 100));
    assert_eq!(pet.age(), 0);
    assert_eq!(pet.mood(), NybblerMood::Happy);
    assert!(before.seconds_until(&pet.last_updated()) >= 0);
    assert!(pet.last_updated().seconds_until(&after) >= 0);
}

#[test]
fn feeding_a_new_pet() {
    let mut pet = Nybbler::new_at(String::from("Rex"), at(0), CharacterType::Blob);
    pet.feed();
    assert_eq!(pet.hunger(), 80);
    assert_eq!(pet.energy(), 100);
    assert_eq!(pet.happiness(), 50);
    assert_eq!(pet.health(), 100);
    assert_eq!(pet.mood(), NybblerMood::Neutral);
}

#[test]
fn healing_a_sick_pet() {
    let mut pet = pet_with(50, 50, 50, 25);
    assert_eq!(pet.mood(), NybblerMood::Sick);
    pet.heal();
    assert_eq!(pet.health(), 100);
    assert_ne!(pet.mood(), NybblerMood::Sick);
    assert_eq!(pet.mood(), NybblerMood::Neutral);
    assert_eq!((pet.hunger(), pet.happiness(), pet.energy()), (50, 50, 50));
}

#[test]
fn decay_of_a_neglected_pet_after_one_hour() {
    let mut pet = pet_with(15, 15, 60, 80);
    pet.decay(at(1_700_000_000 + 3_600));
    assert_eq!(pet.health(), 75);
    assert_eq!(pet.hunger(), 10);
    assert_eq!(pet.happiness(), 12);
    assert_eq!(pet.energy(), 58);
    assert_eq!(pet.mood(), NybblerMood::Sad);
    assert_eq!(pet.last_updated(), at(1_700_000_000 + 3_600));
}

#[test]
fn play_and_sleep_follow_their_rules() {
    let mut pet = pet_with(50, 50, 50, 100);
    pet.play();
    assert_eq!(stats(&pet), (40, 70, 35, 100));
    assert_eq!(pet.mood(), NybblerMood::Neutral);
    pet.sleep();
    assert_eq!(stats(&pet), (40, 75, 100, 100));
    pet.sleep();
    pet.sleep();
    assert_eq!(stats(&pet), (40, 85, 100, 100));
    assert_eq!(pet.mood(), NybblerMood::Playful);
}

#[test]
fn stats_are_clamped_at_both_ends() {
    let mut full = pet_with(100, 100, 100, 100);
    full.feed();
    assert_eq!(stats(&full), (100, 100, 100, 100));
    full.sleep();
    assert_eq!(stats(&full), (100, 100, 100, 100));
    full.play();
    assert_eq!(stats(&full), (90, 100, 85, 100));
    let mut empty = pet_with(0, 0, 0, 0);
    empty.play();
    assert_eq!(stats(&empty), (0, 20, 0, 0));
    empty.decay(at(1_700_000_000 + 7_200));
    assert_eq!(stats(&empty), (0, 17, 0, 0));
    let mut nearly = pet_with(71, 96, 96, 1);
    nearly.feed();
    nearly.sleep();
    assert_eq!(stats(&nearly), (100, 100, 100, 1));
}

#[test]
fn every_action_keeps_every_stat_in_range() {
    for start in 0..=100u8 {
        let mut pets = [
            pet_with(start, start, start, start),
            pet_with(start, start, start, start),
            pet_with(start, start, start, start),
            pet_with(start, start, start, start),
            pet_with(start, start, start, start),
        ];
        pets[0].feed();
        pets[1].play();
        pets[2].sleep();
        pets[3].heal();
        pets[4].decay(at(1_700_000_000 + 5_000));
        for pet in pets.iter() {
            let (hunger, happiness, energy, health) = stats(pet);
            assert!(hunger <= 100 && happiness <= 100 && energy <= 100 && health <= 100);
            assert_eq!(pet.mood(), NybblerMood::of_stats(hunger, happiness, energy, health));
        }
    }
}

#[test]
fn decay_without_elapsed_time_changes_nothing() {
    let mut pet = pet_with(60, 60, 60, 60);
    let before = pet.to_record();
    pet.decay(at(1_700_000_000));
    assert_eq!(stats(&pet), (before.hunger, before.happiness, before.energy, before.health));
    assert_eq!(pet.age(), before.age);
    assert_eq!(pet.mood(), before.mood);
    assert_eq!(pet.last_updated(), before.last_updated);
    let later = Timestamp::new(1_700_000_000, 999_999_999).unwrap();
    pet.decay(later);
    assert_eq!(stats(&pet), (60, 60, 60, 60));
    assert_eq!(pet.mood(), before.mood);
    assert_eq!(pet.last_updated(), later);
}

#[test]
fn decay_without_elapsed_time_still_punishes_neglect() {
    let mut pet = pet_with(10, 60, 60, 60);
    pet.decay(at(1_700_000_000));
    assert_eq!(stats(&pet), (10, 60, 60, 55));
}

#[test]
fn decay_without_elapsed_time_derives_the_mood_of_a_new_pet() {
    let mut pet = Nybbler::new_at(String::from("Rex"), at(5), CharacterType::Cat);
    pet.decay(at(5));
    assert_eq!(stats(&pet), (50, 50, 100, 100));
    assert_eq!(pet.mood(), NybblerMood::Neutral);
}

#[test]
fn decay_is_capped_however_long_the_absence() {
    let week: i64 = 7 * 86_400;
    let mut pet = pet_with(90, 90, 90, 90);
    pet.decay(at(1_700_000_000 + week));
    assert_eq!(stats(&pet), (85, 87, 88, 90));
    assert_eq!(pet.age(), 7);
    let mut exact = pet_with(90, 90, 90, 90);
    exact.decay(at(1_700_000_000 + 3_600));
    assert_eq!(stats(&exact), (85, 87, 88, 90));
    assert_eq!(exact.age(), 0);
}

#[test]
fn decay_within_the_hour_takes_the_whole_points_lost_so_far() {
    let cases: [(i64, u8, u8, u8); 8] = [
        (1, 0, 0, 0),
        (719, 0, 0, 0),
        (720, 1, 0, 0),
        (1_200, 1, 1, 0),
        (1_800, 2, 1, 1),
        (2_400, 3, 2, 1),
        (3_599, 4, 2, 1),
        (3_600, 5, 3, 2),
    ];
    for (elapsed, hunger, happiness, energy) in cases {
        let mut pet = pet_with(50, 50, 50, 50);
        pet.decay(at(1_700_000_000 + elapsed));
        assert_eq!(stats(&pet), (50 - hunger, 50 - happiness, 50 - energy, 50));
    }
}

#[test]
fn decay_matches_the_floating_point_formula() {
    for elapsed in -10..=7_300i64 {
        let hours = elapsed as f64 / 3600.0;
        let hunger = (5.0 * hours).min(5.0) as u8;
        let happiness = (3.0 * hours).min(3.0) as u8;
        let energy = (2.0 * hours).min(2.0) as u8;
        let mut pet = pet_with(50, 50, 50, 50);
        pet.decay(at(1_700_000_000 + elapsed));
        assert_eq!(stats(&pet), (50 - hunger, 50 - happiness, 50 - energy, 50));
    }
    for days in 0..=400i64 {
        for shift in [-1i64, 0, 1] {
            let elapsed = days * 86_400 + shift;
            let expected = (elapsed as f64 / 3600.0 / 24.0) as u16;
            let mut pet = pet_with(50, 50, 50, 50);
            pet.decay(at(1_700_000_000 + elapsed));
            assert_eq!(pet.age(), expected);
        }
    }
}

#[test]
fn decay_when_the_clock_went_backwards_takes_nothing() {
    let mut pet = pet_with(50, 50, 50, 50);
    pet.decay(at(1_700_000_000 - 86_400 * 3));
    assert_eq!(stats(&pet), (50, 50, 50, 50));
    assert_eq!(pet.age(), 0);
    assert_eq!(pet.last_updated(), at(1_700_000_000 - 86_400 * 3));
}

#[test]
fn age_grows_by_whole_days_and_stops_at_its_limit() {
    let mut pet = pet_with(50, 50, 50, 50);
    pet.decay(at(1_700_000_000 + 86_399));
    assert_eq!(pet.age(), 0);
    pet.decay(at(1_700_000_000 + 86_399 + 2 * 86_400));
    assert_eq!(pet.age(), 2);
    pet.decay(at(1_700_000_000 + 86_399 + 2 * 86_400 + 65_534 * 86_400));
    assert_eq!(pet.age(), 65_535);
    pet.decay(at(1_700_000_000 + 86_399 + 2 * 86_400 + 65_534 * 86_400 + 86_400 * 100_000));
    assert_eq!(pet.age(), 65_535);
}

#[test]
fn update_by_the_clock_is_a_decay() {
    let before = Timestamp::now();
    let mut saved = record(90, 90, 90, 90);
    saved.last_updated = Timestamp::new(before.seconds() - 2 * 86_400 - 10, 0).unwrap();
    let mut pet = Nybbler::restore(saved).unwrap();
    pet.update();
    assert_eq!(stats(&pet), (85, 87, 88, 90));
    assert_eq!(pet.mood(), NybblerMood::Excited);
    assert_eq!(pet.age(), 2);
    assert!(before.seconds_until(&pet.last_updated()) >= 0);
    assert!(pet.last_updated().seconds_until(&Timestamp::now()) >= 0);
}

#[test]
fn is_alive_is_false_only_without_health() {
    for health in 0..=100u8 {
        let pet = pet_with(50, 50, 50, health);
        assert_eq!(pet.is_alive(), health != 0);
    }
    let mut dying = pet_with(5, 5, 50, 5);
    dying.decay(at(1_700_000_000));
    assert_eq!(dying.health(), 0);
    assert!(!dying.is_alive());
    dying.decay(at(1_700_000_000));
    assert_eq!(dying.health(), 0);
}

#[test]
fn a_record_restores_to_the_same_pet() {
    let name = String::from("Rex");
    let pet = Nybbler::new_at(name, at(1_700_000_123), CharacterType::Phantom);
    let restored = Nybbler::restore(pet.to_record()).unwrap();
    assert_eq!(restored.name(), pet.name());
    assert_eq!(stats(&restored), stats(&pet));
    assert_eq!(restored.age(), pet.age());
    assert_eq!(restored.last_updated(), pet.last_updated());
    assert_eq!(restored.mood(), NybblerMood::Happy);
    assert_eq!(restored.character_type(), CharacterType::Phantom);
}

#[test]
fn a_record_without_a_look_restores_with_one() {
    let mut saved = record(40, 50, 60, 70);
    saved.character_type = None;
    let pet = Nybbler::restore(saved).unwrap();
    assert_eq!(stats(&pet), (40, 50, 60, 70));
    let all = [
        CharacterType::Blob,
        CharacterType::Square,
        CharacterType::Phantom,
        CharacterType::Cat,
        CharacterType::Robo,
    ];
    assert!(all.contains(&pet.character_type()));
    let mut again = record(40, 50, 60, 70);
    again.character_type = None;
    let pet = Nybbler::restore_with(again, CharacterType::Square).unwrap();
    assert_eq!(pet.character_type(), CharacterType::Square);
    let pet = Nybbler::restore_with(record(40, 50, 60, 70), CharacterType::Square).unwrap();
    assert_eq!(pet.character_type(), CharacterType::Cat);
}

#[test]
fn a_record_keeps_its_mood_and_age() {
    let mut saved = record(40, 50, 60, 70);
    saved.mood = NybblerMood::Excited;
    saved.age = 12;
    let pet = Nybbler::restore(saved).unwrap();
    assert_eq!(pet.mood(), NybblerMood::Excited);
    assert_eq!(pet.age(), 12);
}

#[test]
fn a_record_without_a_name_is_refused() {
    let mut saved = record(40, 50, 60, 70);
    saved.name = String::new();
    assert_eq!(Nybbler::restore(saved).err(), Some(DecodeError::EmptyName));
    let mut both = record(140, 50, 60, 70);
    both.name = String::new();
    assert_eq!(Nybbler::restore(both).err(), Some(DecodeError::EmptyName));
}

#[test]
fn a_record_with_a_stat_out_of_range_is_refused() {
    assert_eq!(Nybbler::restore(record(101, 50, 60, 70)).err(), Some(DecodeError::StatOutOfRange));
    assert_eq!(Nybbler::restore(record(40, 255, 60, 70)).err(), Some(DecodeError::StatOutOfRange));
    assert_eq!(Nybbler::restore(record(40, 50, 101, 70)).err(), Some(DecodeError::StatOutOfRange));
    assert_eq!(Nybbler::restore(record(40, 50, 60, 200)).err(), Some(DecodeError::StatOutOfRange));
    assert!(Nybbler::restore(record(100, 100, 100, 100)).is_ok());
    assert!(Nybbler::restore(record(0, 0, 0, 0)).is_ok());
}

#[test]
fn the_display_shows_a_sleeping_pet_asleep() {
    let tired = pet_with(50, 50, 10, 50);
    assert_eq!(tired.mood(), NybblerMood::Sleeping);
    assert_eq!(tired.character_display(), CharacterType::Cat.sleeping());
    let awake = pet_with(50, 50, 50, 50);
    assert_eq!(awake.character_display(), CharacterType::Cat.neutral());
    let sick = pet_with(50, 50, 10, 10);
    assert_eq!(sick.mood(), NybblerMood::Sick);
    assert_eq!(sick.character_display(), CharacterType::Cat.neutral());
}

#[test]
fn the_save_file_is_named_by_the_lower_case_name() {
    let pet = Nybbler::new_at(String::from("Rex"), at(0), CharacterType::Cat);
    assert_eq!(pet.save_file_name(), "rex.json");
}

#[test]
fn decays_that_follow_closely_take_less_than_one_over_the_same_span() {
    let mut often = pet_with(50, 50, 50, 50);
    for step in 1..=10i64 {
        often.decay(at(1_700_000_000 + step * 360));
    }
    assert_eq!(stats(&often), (50, 50, 50, 50));
    assert_eq!(often.last_updated(), at(1_700_000_000 + 3_600));
    let mut once = pet_with(50, 50, 50, 50);
    once.decay(at(1_700_000_000 + 3_600));
    assert_eq!(stats(&once), (45, 47, 48, 50));
}

#[test]
fn care_leaves_name_look_age_and_time_alone() {
    let mut saved = record(50, 50, 50, 50);
    saved.age = 9;
    let mut pet = Nybbler::restore(saved).unwrap();
    pet.feed();
    pet.play();
    pet.sleep();
    pet.heal();
    assert_eq!(pet.name(), "Rex");
    assert_eq!(pet.character_type(), CharacterType::Cat);
    assert_eq!(pet.age(), 9);
    assert_eq!(pet.last_updated(), at(1_700_000_000));
}
