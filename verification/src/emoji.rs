use vstd::prelude::*;

verus! {

/// The pictograms the game uses when describing resources and rewards.
#[derive(Debug, Clone, Copy, PartialEq, Eq, Structural)]
pub enum Emoji {
    Gold,
    Health,
    Mana,
    Strength,
    Intelligence,
    Agility,
    Experience,
}

impl Emoji {
    /// The characters of this emoji's symbol.
    pub open spec fn spec_str(self) -> Seq<char> {
        match self {
            Emoji::Gold => "🪙"@,
            Emoji::Health => "❤️"@,
            Emoji::Mana => "🌀"@,
            Emoji::Intelligence => "🧠"@,
            Emoji::Strength => "💪"@,
            Emoji::Agility => "🪶"@,
            Emoji::Experience => "🔹"@,
        }
    }

    /// The emoji as a borrowed string.
    pub fn to_str(&self) -> (r: &'static str)
        ensures
            r@ == self.spec_str(),
    {
        match self {
            Emoji::Gold => "🪙",
            Emoji::Health => "❤️",
            Emoji::Mana => "🌀",
            Emoji::Intelligence => "🧠",
            Emoji::Strength => "💪",
            Emoji::Agility => "🪶",
            Emoji::Experience => "🔹",
        }
    }

    /// The emoji as an owned string.
    pub fn to_string(&self) -> (r: String)
        ensures
            r@ == self.spec_str(),
    {
        self.to_str().to_owned()
    }
}

} // verus!
