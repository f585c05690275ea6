//! A pet as its save file holds it, and when such a record is a pet.

use crate::characters::CharacterType;
use crate::mood::NybblerMood;
use crate::state::{PetState, STAT_MAX};
use crate::timestamp::Timestamp;
use vstd::prelude::*;

verus! {

/// Why a saved record is not a pet.
#[derive(Clone, Copy, PartialEq, Eq, Structural, Debug)]
pub enum DecodeError {
    /// The record has no name.
    EmptyName,
    /// One of the four stats is above 100.
    StatOutOfRange,
}

/// A pet as it is written to its save file, field by field. A record read
/// back from a file may break the rules that hold of a pet, and a file
/// written before pets had a look has none.
#[derive(Debug, PartialEq, Eq)]
pub struct SaveRecord {
    pub name: String,
    pub hunger: u8,
    pub happiness: u8,
    pub energy: u8,
    pub health: u8,
    pub age: u16,
    pub last_updated: Timestamp,
    pub mood: NybblerMood,
    pub character_type: Option<CharacterType>,
}

impl SaveRecord {
    /// Whether a stat of the record is above 100.
    pub open spec fn stat_out_of_range(self) -> bool {
        ||| self.hunger > STAT_MAX
        ||| self.happiness > STAT_MAX
        ||| self.energy > STAT_MAX
        ||| self.health > STAT_MAX
    }

    /// What `restore` makes of the record: the error, or nothing where the
    /// record is a pet.
    pub open spec fn defect(self) -> Option<DecodeError> {
        if self.name@.len() == 0 {
            Some(DecodeError::EmptyName)
        } else if self.stat_out_of_range() {
            Some(DecodeError::StatOutOfRange)
        } else {
            None
        }
    }

    /// What restoring the record gives: the pet that it describes, with
    /// `fallback` for its look where the record has none, or the record's
    /// defect.
    pub open spec fn restored(self, fallback: CharacterType) -> Result<PetState, DecodeError> {
        match self.defect() {
            Some(defect) => Err(defect),
            None => Ok(
                self.state(
                    match self.character_type {
                        Some(character_type) => character_type,
                        None => fallback,
                    },
                ),
            ),
        }
    }

    /// The pet that the record describes, with `character_type` for its look.
    pub open spec fn state(self, character_type: CharacterType) -> PetState {
        PetState {
            name: self.name@,
            hunger: self.hunger as int,
            happiness: self.happiness as int,
            energy: self.energy as int,
            health: self.health as int,
            age: self.age as int,
            last_updated: self.last_updated@,
            mood: self.mood,
            character_type,
        }
    }
}

/// The record of a pet restores to that very pet, whatever look stands by
/// for a missing one.
pub proof fn lemma_record_restores_pet(pet: PetState, record: SaveRecord, fallback: CharacterType)
    requires
        pet.valid(),
        record.character_type == Some(pet.character_type),
        record.state(pet.character_type) == pet,
    ensures
        record.restored(fallback) == Ok::<PetState, DecodeError>(pet),
{
}

/// A missing look is no defect: a record without a look can be restored
/// exactly when the same record with a look can, and gives the same pet as
/// the record that has the fallback for its look.
pub proof fn lemma_missing_look_is_no_defect(record: SaveRecord, fallback: CharacterType)
    requires
        record.character_type is None,
    ensures
        record.restored(fallback) is Ok <==> record.defect() is None,
        record.restored(fallback) == (SaveRecord {
            character_type: Some(fallback),
            ..record
        }).restored(fallback),
        record.restored(fallback) matches Ok(pet) ==> pet.character_type == fallback,
{
}

} // verus!
