//! The pet: a valid state that only time and the four care actions change.

use crate::characters::{drawing, CharacterType, Pose};
use crate::mood::NybblerMood;
use crate::record::{DecodeError, SaveRecord};
use crate::state::{
    decay_amount, raised, whole_days, PetState, ENERGY_DECAY, FEED_ENERGY, FEED_HUNGER,
    HAPPINESS_DECAY, HUNGER_DECAY, NEGLECT_PENALTY, NEGLECT_THRESHOLD, PLAY_ENERGY, PLAY_HAPPINESS,
    PLAY_HUNGER, SECONDS_PER_DAY, SECONDS_PER_HOUR, SLEEP_HAPPINESS, STAT_MAX,
};
use crate::storage::{file_name_of_key, lowercase_of, save_file_name};
use crate::timestamp::Timestamp;
use vstd::math::min;
use vstd::prelude::*;

verus! {

/// A virtual pet.
#[derive(Debug, PartialEq, Eq)]
pub struct Nybbler {
    name: String,
    hunger: u8,
    happiness: u8,
    energy: u8,
    health: u8,
    age: u16,
    last_updated: Timestamp,
    mood: NybblerMood,
    character_type: CharacterType,
}

impl View for Nybbler {
    type V = PetState;

    closed spec fn view(&self) -> PetState {
        PetState {
            name: self.name@,
            hunger: self.hunger as int,
            happiness: self.happiness as int,
            energy: self.energy as int,
            health: self.health as int,
            age: self.age as int,
            last_updated: self.last_updated@,
            mood: self.mood,
            character_type: self.character_type,
        }
    }
}

/// `value` raised by `amount`, but not above the highest value of a stat.
fn raise(value: u8, amount: u8) -> (stat: u8)
    ensures
        stat == raised(value as int, amount as int),
{
    let sum = value.saturating_add(amount);
    if sum > STAT_MAX {
        STAT_MAX
    } else {
        sum
    }
}

/// What one decay takes from a stat that loses `rate` points per hour.
fn decay_step(rate: u8, elapsed: i64) -> (amount: u8)
    ensures
        amount == decay_amount(rate as int, elapsed as int),
{
    if elapsed <= 0 {
        0
    } else if elapsed >= SECONDS_PER_HOUR {
        assert((rate * elapsed) / 3_600 >= rate) by (nonlinear_arith)
            requires
                elapsed >= 3_600,
                0 <= rate,
        ;
        rate
    } else {
        assert(0 <= rate * elapsed <= rate * 3_600 <= 255 * 3_600) by (nonlinear_arith)
            requires
                0 < elapsed < 3_600,
                0 <= rate <= 255,
        ;
        let scaled: i64 = (rate as i64) * elapsed;
        (scaled / SECONDS_PER_HOUR) as u8
    }
}

/// The whole days in `elapsed` seconds, as far as an age can grow.
fn days_step(elapsed: i64) -> (days: u16)
    ensures
        days == min(whole_days(elapsed as int), u16::MAX as int),
{
    if elapsed <= 0 {
        0
    } else {
        let days: i64 = elapsed / SECONDS_PER_DAY;
        if days > 65_535 {
            65_535
        } else {
            days as u16
        }
    }
}

impl Nybbler {
    /// Every pet is valid.
    #[verifier::type_invariant]
    pub open spec fn well_formed(&self) -> bool {
        self@.valid()
    }

    /// A new pet with the given name and look, whose time starts at `now`.
    pub fn new_at(name: String, now: Timestamp, character_type: CharacterType) -> (pet: Nybbler)
        requires
            name@.len() > 0,
        ensures
            pet@ == PetState::fresh(name@, now@, character_type),
            pet@.valid(),
    {
        proof {
            use_type_invariant(now);
        }
        Nybbler {
            name,
            hunger: 50,
            happiness: 50,
            energy: 100,
            health: 100,
            age: 0,
            last_updated: now,
            mood: NybblerMood::Happy,
            character_type,
        }
    }

    /// A new pet with the given name. Its time starts at the present moment
    /// and its look is drawn at random.
    pub fn new(name: String) -> (pet: Nybbler)
        requires
            name@.len() > 0,
        ensures
            pet@ == PetState::fresh(name@, pet@.last_updated, pet@.character_type),
            pet@.valid(),
    {
        Nybbler::new_at(name, Timestamp::now(), CharacterType::random())
    }

    /// Derives the mood anew from the stats.
    pub fn update_mood(&mut self)
        ensures
            final(self)@ == old(self)@.with_derived_mood(),
            final(self)@.valid(),
    {
        proof {
            use_type_invariant(&*self);
        }
        self.mood = NybblerMood::of_stats(self.hunger, self.happiness, self.energy, self.health);
    }

    /// Lets time move on to `now`: hunger, happiness and energy decay,
    /// neglect costs health, the pet ages by the whole days that have
    /// passed, and the mood follows.
    pub fn decay(&mut self, now: Timestamp)
        ensures
            final(self)@ == old(self)@.decayed(now@),
            final(self)@.valid(),
    {
        proof {
            use_type_invariant(&*self);
            use_type_invariant(now);
        }
        let elapsed = self.last_updated.seconds_until(&now);
        self.hunger = self.hunger.saturating_sub(decay_step(HUNGER_DECAY, elapsed));
        self.happiness = self.happiness.saturating_sub(decay_step(HAPPINESS_DECAY, elapsed));
        self.energy = self.energy.saturating_sub(decay_step(ENERGY_DECAY, elapsed));
        self.age = self.age.saturating_add(days_step(elapsed));
        if self.hunger < NEGLECT_THRESHOLD || self.happiness < NEGLECT_THRESHOLD {
            self.health = self.health.saturating_sub(NEGLECT_PENALTY);
        }
        self.update_mood();
        self.last_updated = now;
    }

    /// Lets time move on to the present moment, as `decay` does.
    pub fn update(&mut self)
        ensures
            final(self)@ == old(self)@.decayed(final(self)@.last_updated),
            final(self)@.valid(),
    {
        self.decay(Timestamp::now());
    }

    /// Feeds the pet.
    pub fn feed(&mut self)
        ensures
            final(self)@ == old(self)@.fed(),
            final(self)@.valid(),
    {
        proof {
            use_type_invariant(&*self);
        }
        self.hunger = raise(self.hunger, FEED_HUNGER);
        self.energy = raise(self.energy, FEED_ENERGY);
        self.update_mood();
    }

    /// Plays with the pet.
    pub fn play(&mut self)
        ensures
            final(self)@ == old(self)@.played(),
            final(self)@.valid(),
    {
        proof {
            use_type_invariant(&*self);
        }
        self.happiness = raise(self.happiness, PLAY_HAPPINESS);
        self.hunger = self.hunger.saturating_sub(PLAY_HUNGER);
        self.energy = self.energy.saturating_sub(PLAY_ENERGY);
        self.update_mood();
    }

    /// Puts the pet to sleep.
    pub fn sleep(&mut self)
        ensures
            final(self)@ == old(self)@.slept(),
            final(self)@.valid(),
    {
        proof {
            use_type_invariant(&*self);
        }
        self.energy = STAT_MAX;
        self.happiness = raise(self.happiness, SLEEP_HAPPINESS);
        self.update_mood();
    }

    /// Heals the pet.
    pub fn heal(&mut self)
        ensures
            final(self)@ == old(self)@.healed(),
            final(self)@.valid(),
    {
        proof {
            use_type_invariant(&*self);
        }
        self.health = STAT_MAX;
        self.update_mood();
    }

    /// The pet's name.
    pub fn name(&self) -> (name: &str)
        ensures
            name@ == self@.name,
            name@.len() > 0,
    {
        proof {
            use_type_invariant(self);
        }
        self.name.as_str()
    }

    /// How well fed the pet is, from 0 to 100.
    pub fn hunger(&self) -> (hunger: u8)
        ensures
            hunger == self@.hunger,
            hunger <= STAT_MAX,
    {
        proof {
            use_type_invariant(self);
        }
        self.hunger
    }

    /// How happy the pet is, from 0 to 100.
    pub fn happiness(&self) -> (happiness: u8)
        ensures
            happiness == self@.happiness,
            happiness <= STAT_MAX,
    {
        proof {
            use_type_invariant(self);
        }
        self.happiness
    }

    /// How much energy the pet has, from 0 to 100.
    pub fn energy(&self) -> (energy: u8)
        ensures
            energy == self@.energy,
            energy <= STAT_MAX,
    {
        proof {
            use_type_invariant(self);
        }
        self.energy
    }

    /// How healthy the pet is, from 0 to 100.
    pub fn health(&self) -> (health: u8)
        ensures
            health == self@.health,
            health <= STAT_MAX,
    {
        proof {
            use_type_invariant(self);
        }
        self.health
    }

    /// The pet's age in days.
    pub fn age(&self) -> (age: u16)
        ensures
            age == self@.age,
    {
        self.age
    }

    /// When time last moved on for the pet.
    pub fn last_updated(&self) -> (last_updated: Timestamp)
        ensures
            last_updated@ == self@.last_updated,
    {
        self.last_updated
    }

    /// The pet's mood, as it was last derived.
    pub fn mood(&self) -> (mood: NybblerMood)
        ensures
            mood == self@.mood,
    {
        self.mood
    }

    /// The pet's look.
    pub fn character_type(&self) -> (character_type: CharacterType)
        ensures
            character_type == self@.character_type,
    {
        self.character_type
    }

    /// The drawing that shows the pet: asleep where its mood is `Sleeping`,
    /// at rest in every other mood.
    pub fn character_display(&self) -> (art: &'static str)
        ensures
            art@ == drawing(
                self@.character_type,
                if self@.mood == NybblerMood::Sleeping {
                    Pose::Sleeping
                } else {
                    Pose::Neutral
                },
            ),
    {
        match self.mood {
            NybblerMood::Sleeping => self.character_type.sleeping(),
            _ => self.character_type.neutral(),
        }
    }

    /// The name of the file in which the pet is saved.
    pub fn save_file_name(&self) -> (file_name: String)
        ensures
            file_name@ == file_name_of_key(lowercase_of(self@.name)),
    {
        save_file_name(self.name.as_str())
    }

    /// The pet as a record for its save file.
    pub fn to_record(&self) -> (record: SaveRecord)
        ensures
            record.defect() is None,
            record.character_type == Some(self@.character_type),
            record.state(self@.character_type) == self@,
    {
        proof {
            use_type_invariant(self);
        }
        SaveRecord {
            name: self.name.clone(),
            hunger: self.hunger,
            happiness: self.happiness,
            energy: self.energy,
            health: self.health,
            age: self.age,
            last_updated: self.last_updated,
            mood: self.mood,
            character_type: Some(self.character_type),
        }
    }

    /// The pet that a record describes, field for field. A record without a
    /// look gets `fallback` for one. A record that breaks the rules of a
    /// pet is refused.
    pub fn restore_with(record: SaveRecord, fallback: CharacterType) -> (restored: Result<Nybbler, DecodeError>)
        ensures
            match record.restored(fallback) {
                Ok(state) => restored is Ok && restored->Ok_0@ == state && state.valid(),
                Err(defect) => restored == Err::<Nybbler, DecodeError>(defect),
            },
    {
        if record.name.as_str().is_empty() {
            return Err(DecodeError::EmptyName);
        }
        if record.hunger > STAT_MAX || record.happiness > STAT_MAX || record.energy > STAT_MAX
            || record.health > STAT_MAX {
            return Err(DecodeError::StatOutOfRange);
        }
        proof {
            use_type_invariant(record.last_updated);
        }
        let character_type = match record.character_type {
            Some(character_type) => character_type,
            None => fallback,
        };
        Ok(
            Nybbler {
                name: record.name,
                hunger: record.hunger,
                happiness: record.happiness,
                energy: record.energy,
                health: record.health,
                age: record.age,
                last_updated: record.last_updated,
                mood: record.mood,
                character_type,
            },
        )
    }

    /// The pet that a record describes, field for field. A record without a
    /// look gets one drawn at random. A record that breaks the rules of a
    /// pet is refused.
    pub fn restore(record: SaveRecord) -> (restored: Result<Nybbler, DecodeError>)
        ensures
            match record.defect() {
                Some(defect) => restored == Err::<Nybbler, DecodeError>(defect),
                None => restored is Ok && restored->Ok_0@.valid() && record.restored(
                    restored->Ok_0@.character_type,
                ) == Ok::<PetState, DecodeError>(restored->Ok_0@),
            },
    {
        match record.character_type {
            Some(character_type) => Nybbler::restore_with(record, character_type),
            None => Nybbler::restore_with(record, CharacterType::random()),
        }
    }

    /// Whether the pet lives: whether any health is left.
    pub fn is_alive(&self) -> (alive: bool)
        ensures
            alive == self@.alive(),
            !alive <==> self@.health == 0,
    {
        self.health > 0
    }
}

} // verus!
