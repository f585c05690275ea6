//! A pet as a mathematical value: its stats, how they decay with time, what
//! the four care actions do to them, and what holds of all of it.

use crate::characters::CharacterType;
use crate::mood::{classify, NybblerMood};
use crate::timestamp::{whole_seconds_between, Instant};
use vstd::math::{max, min};
use vstd::prelude::*;

verus! {

/// The highest value of a stat.
pub const STAT_MAX: u8 = 100;

/// The seconds in an hour.
pub const SECONDS_PER_HOUR: i64 = 3_600;

/// The seconds in a day.
pub const SECONDS_PER_DAY: i64 = 86_400;

/// The most that one decay takes from hunger, and what it takes per hour.
pub const HUNGER_DECAY: u8 = 5;

/// The most that one decay takes from happiness, and what it takes per hour.
pub const HAPPINESS_DECAY: u8 = 3;

/// The most that one decay takes from energy, and what it takes per hour.
pub const ENERGY_DECAY: u8 = 2;

/// What a meal adds to hunger.
pub const FEED_HUNGER: u8 = 30;

/// What a meal adds to energy.
pub const FEED_ENERGY: u8 = 5;

/// What a game adds to happiness.
pub const PLAY_HAPPINESS: u8 = 20;

/// What a game takes from hunger.
pub const PLAY_HUNGER: u8 = 10;

/// What a game takes from energy.
pub const PLAY_ENERGY: u8 = 15;

/// What a sleep adds to happiness.
pub const SLEEP_HAPPINESS: u8 = 5;

/// Hunger or happiness below this costs health at each decay.
pub const NEGLECT_THRESHOLD: u8 = 20;

/// The health that neglect costs at each decay.
pub const NEGLECT_PENALTY: u8 = 5;

/// `value` raised by `amount`, but not above the highest value of a stat.
pub open spec fn raised(value: int, amount: int) -> int {
    min(value + amount, STAT_MAX as int)
}

/// `value` lowered by `amount`, but not below zero.
pub open spec fn lowered(value: int, amount: int) -> int {
    max(value - amount, 0)
}

/// What one decay takes from a stat that loses `rate` points per hour, after
/// `elapsed` seconds: the whole points lost so far, and never more than the
/// points of one hour. Nothing where no time has passed or the clock has
/// gone backwards.
pub open spec fn decay_amount(rate: int, elapsed: int) -> int {
    if elapsed <= 0 {
        0
    } else {
        min(rate, (rate * elapsed) / (SECONDS_PER_HOUR as int))
    }
}

/// The whole days in `elapsed` seconds; none where the clock has gone
/// backwards.
pub open spec fn whole_days(elapsed: int) -> int {
    if elapsed <= 0 {
        0
    } else {
        elapsed / (SECONDS_PER_DAY as int)
    }
}

/// `age` after `days` more days. An age stops at the largest `u16`.
pub open spec fn aged(age: int, days: int) -> int {
    min(age + days, u16::MAX as int)
}

/// A pet as a mathematical value.
pub struct PetState {
    pub name: Seq<char>,
    pub hunger: int,
    pub happiness: int,
    pub energy: int,
    pub health: int,
    pub age: int,
    pub last_updated: Instant,
    pub mood: NybblerMood,
    pub character_type: CharacterType,
}

impl PetState {
    /// What holds of every pet: it has a name, each stat lies between 0 and
    /// 100, and its age and the time of its last update can be stored.
    pub open spec fn valid(self) -> bool {
        &&& self.name.len() > 0
        &&& 0 <= self.hunger <= STAT_MAX
        &&& 0 <= self.happiness <= STAT_MAX
        &&& 0 <= self.energy <= STAT_MAX
        &&& 0 <= self.health <= STAT_MAX
        &&& 0 <= self.age <= u16::MAX
        &&& self.last_updated.representable()
    }

    /// A pet as it starts out.
    pub open spec fn fresh(name: Seq<char>, now: Instant, character_type: CharacterType) -> PetState {
        PetState {
            name,
            hunger: 50,
            happiness: 50,
            energy: 100,
            health: 100,
            age: 0,
            last_updated: now,
            mood: NybblerMood::Happy,
            character_type,
        }
    }

    /// Whether the pet lives.
    pub open spec fn alive(self) -> bool {
        self.health > 0
    }

    /// The mood that the stats call for.
    pub open spec fn derived_mood(self) -> NybblerMood {
        classify(self.hunger, self.happiness, self.energy, self.health)
    }

    /// This pet with its mood derived anew from its stats.
    pub open spec fn with_derived_mood(self) -> PetState {
        PetState { mood: self.derived_mood(), ..self }
    }

    /// This pet after time has moved on to `now`.
    pub open spec fn decayed(self, now: Instant) -> PetState {
        let elapsed = whole_seconds_between(self.last_updated, now);
        let hunger = lowered(self.hunger, decay_amount(HUNGER_DECAY as int, elapsed));
        let happiness = lowered(self.happiness, decay_amount(HAPPINESS_DECAY as int, elapsed));
        let energy = lowered(self.energy, decay_amount(ENERGY_DECAY as int, elapsed));
        let health = if hunger < NEGLECT_THRESHOLD || happiness < NEGLECT_THRESHOLD {
            lowered(self.health, NEGLECT_PENALTY as int)
        } else {
            self.health
        };
        PetState {
            hunger,
            happiness,
            energy,
            health,
            age: aged(self.age, whole_days(elapsed)),
            last_updated: now,
            ..self
        }.with_derived_mood()
    }

    /// This pet after a meal.
    pub open spec fn fed(self) -> PetState {
        PetState {
            hunger: raised(self.hunger, FEED_HUNGER as int),
            energy: raised(self.energy, FEED_ENERGY as int),
            ..self
        }.with_derived_mood()
    }

    /// This pet after a game.
    pub open spec fn played(self) -> PetState {
        PetState {
            happiness: raised(self.happiness, PLAY_HAPPINESS as int),
            hunger: lowered(self.hunger, PLAY_HUNGER as int),
            energy: lowered(self.energy, PLAY_ENERGY as int),
            ..self
        }.with_derived_mood()
    }

    /// This pet after a sleep.
    pub open spec fn slept(self) -> PetState {
        PetState {
            energy: STAT_MAX as int,
            happiness: raised(self.happiness, SLEEP_HAPPINESS as int),
            ..self
        }.with_derived_mood()
    }

    /// This pet after its medicine.
    pub open spec fn healed(self) -> PetState {
        PetState { health: STAT_MAX as int, ..self }.with_derived_mood()
    }
}

/// One decay takes nothing where no time has passed, never more than the
/// points of one hour, and exactly those once an hour has passed.
pub proof fn lemma_decay_amount_bounds(rate: int, elapsed: int)
    requires
        rate >= 0,
    ensures
        0 <= decay_amount(rate, elapsed) <= rate,
        elapsed <= 0 ==> decay_amount(rate, elapsed) == 0,
        elapsed >= SECONDS_PER_HOUR ==> decay_amount(rate, elapsed) == rate,
{
    if elapsed >= SECONDS_PER_HOUR {
        assert((rate * elapsed) / 3_600 >= rate) by (nonlinear_arith)
            requires
                rate >= 0,
                elapsed >= 3_600,
        ;
    }
}

/// A stat that lies between 0 and 100 still does after it is raised or
/// lowered by any amount that is not negative.
pub proof fn lemma_stat_stays_in_range(value: int, amount: int)
    requires
        0 <= value <= STAT_MAX,
        amount >= 0,
    ensures
        value <= raised(value, amount) <= STAT_MAX,
        0 <= lowered(value, amount) <= value,
{
}

/// Whatever is done to a valid pet, it stays valid: no care action and no
/// decay moves a stat out of the range from 0 to 100.
pub proof fn lemma_pet_stays_valid(pet: PetState, now: Instant)
    requires
        pet.valid(),
        now.representable(),
    ensures
        pet.fed().valid(),
        pet.played().valid(),
        pet.slept().valid(),
        pet.healed().valid(),
        pet.with_derived_mood().valid(),
        pet.decayed(now).valid(),
{
}

/// After every care action and every decay the mood is the one that the
/// new stats call for.
pub proof fn lemma_mood_follows_stats(pet: PetState, now: Instant)
    ensures
        pet.fed().mood == pet.fed().derived_mood(),
        pet.played().mood == pet.played().derived_mood(),
        pet.slept().mood == pet.slept().derived_mood(),
        pet.healed().mood == pet.healed().derived_mood(),
        pet.decayed(now).mood == pet.decayed(now).derived_mood(),
{
}

/// A decay over less than a second changes nothing but the time of the last
/// update, on a pet that is not neglected and whose mood is the one that its
/// stats call for. (A neglected pet loses health at every decay, and a mood
/// that the stats do not call for is replaced.)
pub proof fn lemma_decay_without_elapsed_time(pet: PetState, now: Instant)
    requires
        pet.valid(),
        whole_seconds_between(pet.last_updated, now) == 0,
        pet.health == 0 || (pet.hunger >= NEGLECT_THRESHOLD && pet.happiness >= NEGLECT_THRESHOLD),
        pet.mood == pet.derived_mood(),
    ensures
        pet.decayed(now) == (PetState { last_updated: now, ..pet }),
        now == pet.last_updated ==> pet.decayed(now) == pet,
{
}

/// However much time has passed, one decay takes at most 5 from hunger, 3
/// from happiness and 2 from energy, and never raises a stat. Once an hour
/// has passed it takes exactly those amounts, as far as the stat has them.
pub proof fn lemma_decay_is_capped(pet: PetState, now: Instant)
    requires
        pet.valid(),
    ensures
        pet.hunger - HUNGER_DECAY <= pet.decayed(now).hunger <= pet.hunger,
        pet.happiness - HAPPINESS_DECAY <= pet.decayed(now).happiness <= pet.happiness,
        pet.energy - ENERGY_DECAY <= pet.decayed(now).energy <= pet.energy,
        pet.health - NEGLECT_PENALTY <= pet.decayed(now).health <= pet.health,
        pet.decayed(now).age >= pet.age,
        whole_seconds_between(pet.last_updated, now) >= SECONDS_PER_HOUR ==> {
            &&& pet.decayed(now).hunger == lowered(pet.hunger, HUNGER_DECAY as int)
            &&& pet.decayed(now).happiness == lowered(pet.happiness, HAPPINESS_DECAY as int)
            &&& pet.decayed(now).energy == lowered(pet.energy, ENERGY_DECAY as int)
            &&& pet.hunger >= HUNGER_DECAY ==> pet.decayed(now).hunger == pet.hunger - HUNGER_DECAY
            &&& pet.happiness >= HAPPINESS_DECAY ==> pet.decayed(now).happiness == pet.happiness
                - HAPPINESS_DECAY
            &&& pet.energy >= ENERGY_DECAY ==> pet.decayed(now).energy == pet.energy - ENERGY_DECAY
        },
{
}

/// A decay takes whole points only: nothing from hunger before 12 minutes
/// have passed, nothing from happiness before 20, nothing from energy before
/// 30. So decays that follow each other closely take less than one decay
/// over the same span.
pub proof fn lemma_short_decay_takes_nothing(pet: PetState, now: Instant)
    requires
        pet.valid(),
    ensures
        whole_seconds_between(pet.last_updated, now) < 720 ==> pet.decayed(now).hunger == pet.hunger,
        whole_seconds_between(pet.last_updated, now) < 1_200 ==> pet.decayed(now).happiness
            == pet.happiness,
        whole_seconds_between(pet.last_updated, now) < 1_800 ==> pet.decayed(now).energy
            == pet.energy,
        whole_seconds_between(pet.last_updated, now) < SECONDS_PER_DAY ==> pet.decayed(now).age
            == pet.age,
{
}

/// The care actions change stats and mood only: the name, the look, the age
/// and the time of the last update stay as they are.
pub proof fn lemma_care_changes_stats_only(pet: PetState)
    ensures
        pet.fed() == (PetState {
            hunger: pet.fed().hunger,
            energy: pet.fed().energy,
            mood: pet.fed().mood,
            ..pet
        }),
        pet.played() == (PetState {
            hunger: pet.played().hunger,
            happiness: pet.played().happiness,
            energy: pet.played().energy,
            mood: pet.played().mood,
            ..pet
        }),
        pet.slept() == (PetState {
            happiness: pet.slept().happiness,
            energy: pet.slept().energy,
            mood: pet.slept().mood,
            ..pet
        }),
        pet.healed() == (PetState { health: pet.healed().health, mood: pet.healed().mood, ..pet }),
{
}

/// A pet is dead exactly when its health is 0.
pub proof fn lemma_dead_iff_no_health(pet: PetState)
    requires
        pet.valid(),
    ensures
        !pet.alive() <==> pet.health == 0,
{
}

} // verus!
