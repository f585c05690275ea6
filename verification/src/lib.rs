//! The rules of a terminal virtual pet.
//!
//! A pet has four stats between 0 and 100. Time wears them down, four care
//! actions build them up, and a mood follows from them. `state` holds these
//! rules as mathematics, `pet` the pet that lives by them, `mood` and
//! `characters` what a pet feels and looks like, `timestamp` the clock, and
//! `record` and `storage` what a save file holds and how it is named.

pub mod characters;
pub mod mood;
pub mod pet;
pub mod record;
pub mod state;
pub mod storage;
pub mod timestamp;
