//! The mood of a pet and the rule that derives it from the four stats.

use vstd::prelude::*;

verus! {

/// How a pet feels. A mood is derived from the stats and never chosen.
#[derive(Clone, Copy, PartialEq, Eq, Structural, Debug)]
pub enum NybblerMood {
    Happy,
    Neutral,
    Sad,
    Sick,
    Sleeping,
    Excited,
    Playful,
}

/// The mood that belongs to the given stats. The rules are tried from the
/// top and the first that applies decides.
pub open spec fn classify(hunger: int, happiness: int, energy: int, health: int) -> NybblerMood {
    if health < 30 {
        NybblerMood::Sick
    } else if energy < 20 {
        NybblerMood::Sleeping
    } else if hunger < 30 || happiness < 30 {
        NybblerMood::Sad
    } else if hunger > 70 && happiness > 70 && energy > 70 {
        NybblerMood::Excited
    } else if hunger > 70 && happiness > 70 {
        NybblerMood::Happy
    } else if happiness > 80 {
        NybblerMood::Playful
    } else {
        NybblerMood::Neutral
    }
}

impl NybblerMood {
    /// The mood of a pet with the given stats.
    pub fn of_stats(hunger: u8, happiness: u8, energy: u8, health: u8) -> (mood: NybblerMood)
        ensures
            mood == classify(hunger as int, happiness as int, energy as int, health as int),
    {
        if health < 30 {
            NybblerMood::Sick
        } else if energy < 20 {
            NybblerMood::Sleeping
        } else if hunger < 30 || happiness < 30 {
            NybblerMood::Sad
        } else if hunger > 70 && happiness > 70 && energy > 70 {
            NybblerMood::Excited
        } else if hunger > 70 && happiness > 70 {
            NybblerMood::Happy
        } else if happiness > 80 {
            NybblerMood::Playful
        } else {
            NybblerMood::Neutral
        }
    }

    /// The emoji of each mood.
    pub open spec fn emoji(self) -> Seq<char> {
        match self {
            NybblerMood::Happy => "😊"@,
            NybblerMood::Neutral => "😐"@,
            NybblerMood::Sad => "😢"@,
            NybblerMood::Sick => "🤒"@,
            NybblerMood::Sleeping => "😴"@,
            NybblerMood::Excited => "🤩"@,
            NybblerMood::Playful => "😋"@,
        }
    }

    /// The emoji that stands for this mood.
    pub fn to_emoji(&self) -> (emoji: &'static str)
        ensures
            emoji@ == self.emoji(),
    {
        match self {
            NybblerMood::Happy => "😊",
            NybblerMood::Neutral => "😐",
            NybblerMood::Sad => "😢",
            NybblerMood::Sick => "🤒",
            NybblerMood::Sleeping => "😴",
            NybblerMood::Excited => "🤩",
            NybblerMood::Playful => "😋",
        }
    }

    /// The frames of each mood's animation, in the order in which they play.
    pub open spec fn animation(self) -> Seq<Seq<char>> {
        match self {
            NybblerMood::Happy => seq!["(⌦ᕔ ᕕ ᕔ⌦)"@, "(⌦ᕔ‿ᕔ⌦)"@, "(⌦ᕔ ᕕ ᕔ⌦)"@, "(⌦ᕔ‿ᕔ⌦)"@],
            NybblerMood::Neutral => seq!["(・ω・)"@, "(・ω・)"@, "(・ω・)"@, "(・ω・)"@],
            NybblerMood::Sad => seq!["(╥_╥)"@, "(╥︣_╥︭)"@, "(╥_╥)"@, "(╥︣_╥︭)"@],
            NybblerMood::Sick => seq!["(˘_˘)"@, "(˘_˘)"@, "(˘_˘)"@, "(*￣m￣)"@],
            NybblerMood::Sleeping => seq!["(-.-)zzz"@, "(-_-)zzz"@, "(-.-)zzz"@, "(-_-)zzz"@],
            NybblerMood::Excited => seq!["(★^O^★)"@, "(☆^ー^☆)"@, "(★^O^★)"@, "(☆^ー^☆)"@],
            NybblerMood::Playful => seq!["(◕ᗜ◕✿)"@, "(◠‿◠✿)"@, "(◕ᗜ◕✿)"@, "(◠‿◠✿)"@],
        }
    }

    /// The four frames of this mood's animation.
    pub fn get_animation(&self) -> (frames: Vec<&'static str>)
        ensures
            frames@.len() == 4,
            frames@.map_values(|frame: &'static str| frame@) == self.animation(),
    {
        let frames = match self {
            NybblerMood::Happy => vec!["(⌦ᕔ ᕕ ᕔ⌦)", "(⌦ᕔ‿ᕔ⌦)", "(⌦ᕔ ᕕ ᕔ⌦)", "(⌦ᕔ‿ᕔ⌦)"],
            NybblerMood::Neutral => vec!["(・ω・)", "(・ω・)", "(・ω・)", "(・ω・)"],
            NybblerMood::Sad => vec!["(╥_╥)", "(╥︣_╥︭)", "(╥_╥)", "(╥︣_╥︭)"],
            NybblerMood::Sick => vec!["(˘_˘)", "(˘_˘)", "(˘_˘)", "(*￣m￣)"],
            NybblerMood::Sleeping => vec!["(-.-)zzz", "(-_-)zzz", "(-.-)zzz", "(-_-)zzz"],
            NybblerMood::Excited => vec!["(★^O^★)", "(☆^ー^☆)", "(★^O^★)", "(☆^ー^☆)"],
            NybblerMood::Playful => vec!["(◕ᗜ◕✿)", "(◠‿◠✿)", "(◕ᗜ◕✿)", "(◠‿◠✿)"],
        };
        frames
    }

    /// What a pet says in each mood.
    pub open spec fn text(self) -> Seq<char> {
        match self {
            NybblerMood::Happy => "💖 I'm happy! 💖"@,
            NybblerMood::Neutral => "🌱 I'm doing okay. 🌱"@,
            NybblerMood::Sad => "💧 I'm feeling sad... 💧"@,
            NybblerMood::Sick => "🌡️ I don't feel well... 💊"@,
            NybblerMood::Sleeping => "💤 Zzz... 💤"@,
            NybblerMood::Excited => "✨ I'm super excited! ✨"@,
            NybblerMood::Playful => "🎮 Let's play! 🎮"@,
        }
    }

    /// What a pet in this mood says of itself.
    pub fn mood_text(&self) -> (text: &'static str)
        ensures
            text@ == self.text(),
    {
        match self {
            NybblerMood::Happy => "💖 I'm happy! 💖",
            NybblerMood::Neutral => "🌱 I'm doing okay. 🌱",
            NybblerMood::Sad => "💧 I'm feeling sad... 💧",
            NybblerMood::Sick => "🌡️ I don't feel well... 💊",
            NybblerMood::Sleeping => "💤 Zzz... 💤",
            NybblerMood::Excited => "✨ I'm super excited! ✨",
            NybblerMood::Playful => "🎮 Let's play! 🎮",
        }
    }
}

/// Each mood comes for exactly the stats that its rule names and that no
/// earlier rule has claimed, so every pet has one mood and only one.
pub proof fn lemma_classify_follows_priority(hunger: int, happiness: int, energy: int, health: int)
    ensures
        classify(hunger, happiness, energy, health) == NybblerMood::Sick <==> health < 30,
        classify(hunger, happiness, energy, health) == NybblerMood::Sleeping <==> health >= 30
            && energy < 20,
        classify(hunger, happiness, energy, health) == NybblerMood::Sad <==> health >= 30 && energy
            >= 20 && (hunger < 30 || happiness < 30),
        classify(hunger, happiness, energy, health) == NybblerMood::Excited <==> health >= 30
            && hunger > 70 && happiness > 70 && energy > 70,
        classify(hunger, happiness, energy, health) == NybblerMood::Happy <==> health >= 30
            && hunger > 70 && happiness > 70 && 20 <= energy <= 70,
        classify(hunger, happiness, energy, health) == NybblerMood::Playful <==> health >= 30
            && energy >= 20 && 30 <= hunger <= 70 && happiness > 80,
        classify(hunger, happiness, energy, health) == NybblerMood::Neutral <==> health >= 30
            && energy >= 20 && hunger >= 30 && 30 <= happiness && !(hunger > 70 && happiness > 70)
            && happiness <= 80,
{
}

} // verus!
