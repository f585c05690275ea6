//! The five characters a pet can look like, and the drawing of each in each
//! of its poses.

use rand::seq::SliceRandom;
use vstd::prelude::*;

verus! {

/// The look of a pet. It is chosen once, when the pet is made.
#[derive(Clone, Copy, PartialEq, Eq, Structural, Debug)]
pub enum CharacterType {
    Blob,
    Square,
    Phantom,
    Cat,
    Robo,
}

/// What a character is drawn doing.
#[derive(Clone, Copy, PartialEq, Eq, Structural, Debug)]
pub enum Pose {
    Neutral,
    Eating,
    Sleeping,
    Playing,
    Healing,
}

/// The blob at rest.
pub const BLOB_NEUTRAL: &'static str = r#"
  ████████  
 ██        ██
██  ○    ○  ██
██          ██
██    ◡     ██
 ██        ██
  ████████  
"#;

/// The blob while it eats.
pub const BLOB_EATING: &'static str = r#"
  ████████  
 ██        ██
██  ○    ○  ██
██          ██
██    O     ██
 ██        ██
  ████████  
"#;

/// The blob while it sleeps.
pub const BLOB_SLEEPING: &'static str = r#"
  ████████  
 ██        ██
██  -    -  ██
██          ██
██    ◡     ██
 ██        ██
  ████████  
"#;

/// The blob while it plays.
pub const BLOB_PLAYING: &'static str = r#"
  ████████  
 ██        ██
██  ◕    ◕  ██
██          ██
██    ◠     ██
 ██        ██
  ████████  
"#;

/// The blob while it recovers.
pub const BLOB_HEALING: &'static str = r#"
  ████████  
 ██        ██
██  +    +  ██
██          ██
██    ◡     ██
 ██        ██
  ████████  
"#;

/// The square at rest.
pub const SQUARE_NEUTRAL: &'static str = r#"
 ▄▄▄▄▄▄▄▄▄▄
 █ ▓  ▓    █
 █         █
 █    ‿    █
 ▀▀▀▀▀▀▀▀▀▀
"#;

/// The square while it eats.
pub const SQUARE_EATING: &'static str = r#"
 ▄▄▄▄▄▄▄▄▄▄
 █ ▓  ▓    █
 █         █
 █    O    █
 ▀▀▀▀▀▀▀▀▀▀
"#;

/// The square while it sleeps.
pub const SQUARE_SLEEPING: &'static str = r#"
 ▄▄▄▄▄▄▄▄▄▄
 █ -  -    █
 █         █
 █    ‿    █
 ▀▀▀▀▀▀▀▀▀▀
"#;

/// The square while it plays.
pub const SQUARE_PLAYING: &'static str = r#"
 ▄▄▄▄▄▄▄▄▄▄
 █ ♥  ♥    █
 █         █
 █    ◡    █
 ▀▀▀▀▀▀▀▀▀▀
"#;

/// The square while it recovers.
pub const SQUARE_HEALING: &'static str = r#"
 ▄▄▄▄▄▄▄▄▄▄
 █ +  +    █
 █         █
 █    ‿    █
 ▀▀▀▀▀▀▀▀▀▀
"#;

/// The phantom at rest.
pub const PHANTOM_NEUTRAL: &'static str = r#"
   ▄████▄   
  █ ◕  ◕ █  
  █      █  
  █  ▿   █  
  █▀▀▀▀▀▀█  
 ▀ ▀  ▀▀ ▀ ▀
"#;

/// The phantom while it eats.
pub const PHANTOM_EATING: &'static str = r#"
   ▄████▄   
  █ ◕  ◕ █  
  █      █  
  █  O   █  
  █▀▀▀▀▀▀█  
 ▀ ▀  ▀▀ ▀ ▀
"#;

/// The phantom while it sleeps.
pub const PHANTOM_SLEEPING: &'static str = r#"
   ▄████▄   
  █ -  - █  
  █      █  
  █  ▿   █  
  █▀▀▀▀▀▀█  
 ▀ ▀  ▀▀ ▀ ▀
"#;

/// The phantom while it plays.
pub const PHANTOM_PLAYING: &'static str = r#"
   ▄████▄   
  █ ★  ★ █  
  █      █  
  █  ▽   █  
  █▀▀▀▀▀▀█  
 ▀ ▀  ▀▀ ▀ ▀
"#;

/// The phantom while it recovers.
pub const PHANTOM_HEALING: &'static str = r#"
   ▄████▄   
  █ +  + █  
  █      █  
  █  ▿   █  
  █▀▀▀▀▀▀█  
 ▀ ▀  ▀▀ ▀ ▀
"#;

/// The cat at rest.
pub const CAT_NEUTRAL: &'static str = r#"
 /\_/\  
( o.o ) 
 > ᴥ <  
"#;

/// The cat while it eats.
pub const CAT_EATING: &'static str = r#"
 /\_/\  
( o.o ) 
 > O <  
"#;

/// The cat while it sleeps.
pub const CAT_SLEEPING: &'static str = r#"
 /\_/\  
( -.-)z 
 > ᴥ <  
"#;

/// The cat while it plays.
pub const CAT_PLAYING: &'static str = r#"
 /\_/\  
(^o.o^)~
 > ᴥ <  
"#;

/// The cat while it recovers.
pub const CAT_HEALING: &'static str = r#"
 /\_/\  
( +.+ ) 
 > ᴥ <  
"#;

/// The robot at rest.
pub const ROBO_NEUTRAL: &'static str = r#"
  ▄███▄  
 █[□ □]█ 
 █  ▼  █ 
 ▀▀█ █▀▀ 
   ▀▀▀   
"#;

/// The robot while it eats.
pub const ROBO_EATING: &'static str = r#"
  ▄███▄  
 █[□ □]█ 
 █  O  █ 
 ▀▀█ █▀▀ 
   ▀▀▀   
"#;

/// The robot while it sleeps.
pub const ROBO_SLEEPING: &'static str = r#"
  ▄███▄  
 █[- -]█ 
 █  ▼  █ 
 ▀▀█ █▀▀ 
   ▀▀▀   
"#;

/// The robot while it plays.
pub const ROBO_PLAYING: &'static str = r#"
  ▄███▄  
 █[! !]█ 
 █  ▲  █ 
 ▀▀█ █▀▀ 
   ▀▀▀   
"#;

/// The robot while it recovers.
pub const ROBO_HEALING: &'static str = r#"
  ▄███▄  
 █[+ +]█ 
 █  ▼  █ 
 ▀▀█ █▀▀ 
   ▀▀▀   
"#;

/// The drawing of `character` in `pose`.
pub open spec fn drawing(character: CharacterType, pose: Pose) -> Seq<char> {
    match (character, pose) {
        (CharacterType::Blob, Pose::Neutral) => BLOB_NEUTRAL@,
        (CharacterType::Blob, Pose::Eating) => BLOB_EATING@,
        (CharacterType::Blob, Pose::Sleeping) => BLOB_SLEEPING@,
        (CharacterType::Blob, Pose::Playing) => BLOB_PLAYING@,
        (CharacterType::Blob, Pose::Healing) => BLOB_HEALING@,
        (CharacterType::Square, Pose::Neutral) => SQUARE_NEUTRAL@,
        (CharacterType::Square, Pose::Eating) => SQUARE_EATING@,
        (CharacterType::Square, Pose::Sleeping) => SQUARE_SLEEPING@,
        (CharacterType::Square, Pose::Playing) => SQUARE_PLAYING@,
        (CharacterType::Square, Pose::Healing) => SQUARE_HEALING@,
        (CharacterType::Phantom, Pose::Neutral) => PHANTOM_NEUTRAL@,
        (CharacterType::Phantom, Pose::Eating) => PHANTOM_EATING@,
        (CharacterType::Phantom, Pose::Sleeping) => PHANTOM_SLEEPING@,
        (CharacterType::Phantom, Pose::Playing) => PHANTOM_PLAYING@,
        (CharacterType::Phantom, Pose::Healing) => PHANTOM_HEALING@,
        (CharacterType::Cat, Pose::Neutral) => CAT_NEUTRAL@,
        (CharacterType::Cat, Pose::Eating) => CAT_EATING@,
        (CharacterType::Cat, Pose::Sleeping) => CAT_SLEEPING@,
        (CharacterType::Cat, Pose::Playing) => CAT_PLAYING@,
        (CharacterType::Cat, Pose::Healing) => CAT_HEALING@,
        (CharacterType::Robo, Pose::Neutral) => ROBO_NEUTRAL@,
        (CharacterType::Robo, Pose::Eating) => ROBO_EATING@,
        (CharacterType::Robo, Pose::Sleeping) => ROBO_SLEEPING@,
        (CharacterType::Robo, Pose::Playing) => ROBO_PLAYING@,
        (CharacterType::Robo, Pose::Healing) => ROBO_HEALING@,
    }
}

/// Draws one item of `items` at random: `rand::seq::SliceRandom::choose` on
/// the slice, with the generator of `rand::thread_rng`. Which item comes is
/// left open. What is claimed: nothing is drawn from an empty slice, and
/// anything drawn from another slice is one of its items. `rand` panics where
/// the system gives its generator no seed.
#[verifier::external_body]
fn choose_character(items: &[CharacterType]) -> (chosen: Option<CharacterType>)
    ensures
        items@.len() == 0 ==> chosen is None,
        items@.len() > 0 ==> chosen is Some && items@.contains(chosen->0),
{
    let mut rng = rand::thread_rng();
    items.choose(&mut rng).copied()
}

impl CharacterType {
    /// Every character, in the order of declaration.
    pub open spec fn all() -> Seq<CharacterType> {
        seq![
            CharacterType::Blob,
            CharacterType::Square,
            CharacterType::Phantom,
            CharacterType::Cat,
            CharacterType::Robo,
        ]
    }

    /// A character drawn at random among all five.
    pub fn random() -> (character: CharacterType)
        ensures
            CharacterType::all().contains(character),
    {
        let types = [
            CharacterType::Blob,
            CharacterType::Square,
            CharacterType::Phantom,
            CharacterType::Cat,
            CharacterType::Robo,
        ];
        choose_character(types.as_slice()).unwrap()
    }

    /// The drawing of this character at rest.
    pub fn neutral(&self) -> (art: &'static str)
        ensures
            art@ == drawing(*self, Pose::Neutral),
    {
        match self {
            CharacterType::Blob => BLOB_NEUTRAL,
            CharacterType::Square => SQUARE_NEUTRAL,
            CharacterType::Phantom => PHANTOM_NEUTRAL,
            CharacterType::Cat => CAT_NEUTRAL,
            CharacterType::Robo => ROBO_NEUTRAL,
        }
    }

    /// The drawing of this character while it eats.
    pub fn eating(&self) -> (art: &'static str)
        ensures
            art@ == drawing(*self, Pose::Eating),
    {
        match self {
            CharacterType::Blob => BLOB_EATING,
            CharacterType::Square => SQUARE_EATING,
            CharacterType::Phantom => PHANTOM_EATING,
            CharacterType::Cat => CAT_EATING,
            CharacterType::Robo => ROBO_EATING,
        }
    }

    /// The drawing of this character while it sleeps.
    pub fn sleeping(&self) -> (art: &'static str)
        ensures
            art@ == drawing(*self, Pose::Sleeping),
    {
        match self {
            CharacterType::Blob => BLOB_SLEEPING,
            CharacterType::Square => SQUARE_SLEEPING,
            CharacterType::Phantom => PHANTOM_SLEEPING,
            CharacterType::Cat => CAT_SLEEPING,
            CharacterType::Robo => ROBO_SLEEPING,
        }
    }

    /// The drawing of this character while it plays.
    pub fn playing(&self) -> (art: &'static str)
        ensures
            art@ == drawing(*self, Pose::Playing),
    {
        match self {
            CharacterType::Blob => BLOB_PLAYING,
            CharacterType::Square => SQUARE_PLAYING,
            CharacterType::Phantom => PHANTOM_PLAYING,
            CharacterType::Cat => CAT_PLAYING,
            CharacterType::Robo => ROBO_PLAYING,
        }
    }

    /// The drawing of this character while it recovers.
    pub fn healing(&self) -> (art: &'static str)
        ensures
            art@ == drawing(*self, Pose::Healing),
    {
        match self {
            CharacterType::Blob => BLOB_HEALING,
            CharacterType::Square => SQUARE_HEALING,
            CharacterType::Phantom => PHANTOM_HEALING,
            CharacterType::Cat => CAT_HEALING,
            CharacterType::Robo => ROBO_HEALING,
        }
    }

}

} // verus!
