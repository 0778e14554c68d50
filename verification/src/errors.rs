use vstd::prelude::*;

verus! {

/// Everything that can go wrong in the battle and encounter core.
#[derive(Debug, Clone, Copy, PartialEq, Eq, Structural)]
pub enum GameError {
    /// A battle needs at least two participants.
    InsufficientFighters,
    /// The region has no anomaly archetype to draw an encounter from.
    NoValidArchetype,
    /// The requested action is not one the battle knows.
    InvalidAction,
    /// The outside collaborator supplied no action within its window.
    ActionTimeout,
}

impl GameError {
    /// A short description of the error.
    pub fn message(&self) -> (r: &'static str)
        ensures
            r@ == match *self {
                GameError::InsufficientFighters => "a battle needs at least two fighters"@,
                GameError::NoValidArchetype => "the region has no valid anomaly archetype"@,
                GameError::InvalidAction => "the battle does not know this action"@,
                GameError::ActionTimeout => "no action arrived in time"@,
            },
    {
        match self {
            GameError::InsufficientFighters => "a battle needs at least two fighters",
            GameError::NoValidArchetype => "the region has no valid anomaly archetype",
            GameError::InvalidAction => "the battle does not know this action",
            GameError::ActionTimeout => "no action arrived in time",
        }
    }
}

} // verus!
