//! The three difficulty presets and the tuning constants derived from them.

use vstd::prelude::*;

verus! {

/// How hard a session is. Chosen before a run starts and fixed during it.
#[derive(Clone, Copy, Debug, PartialEq, Eq, Structural)]
pub enum Difficulty {
    Easy,
    Normal,
    Hard,
}

impl Difficulty {
    /// Position of the preset in the order Easy < Normal < Hard. Used to break
    /// ties between records with equal scores.
    pub open spec fn spec_rank(self) -> i32 {
        match self {
            Difficulty::Easy => 0,
            Difficulty::Normal => 1,
            Difficulty::Hard => 2,
        }
    }

    /// Terminal fall speed, in tenths of a row per step: gravity stops
    /// accelerating the player once its velocity has reached this value.
    pub open spec fn spec_max_fall_speed(self) -> i32 {
        match self {
            Difficulty::Easy => 30,
            Difficulty::Normal => 20,
            Difficulty::Hard => 15,
        }
    }

    /// Columns that the player advances in one step.
    pub open spec fn spec_horizontal_speed(self) -> i32 {
        match self {
            Difficulty::Easy => 1,
            Difficulty::Normal => 2,
            Difficulty::Hard => 2,
        }
    }

    /// Smallest gap that an obstacle may have.
    pub open spec fn spec_min_gap(self) -> i32 {
        match self {
            Difficulty::Easy => 10,
            Difficulty::Normal => 6,
            Difficulty::Hard => 2,
        }
    }

    /// The label shown for the preset, as a sequence of characters.
    pub open spec fn spec_name(self) -> Seq<char> {
        match self {
            Difficulty::Easy => "Easy"@,
            Difficulty::Normal => "Normal"@,
            Difficulty::Hard => "Hard"@,
        }
    }

    #[verifier::when_used_as_spec(spec_rank)]
    pub fn rank(self) -> (r: i32)
        ensures
            r == self.spec_rank(),
    {
        match self {
            Difficulty::Easy => 0,
            Difficulty::Normal => 1,
            Difficulty::Hard => 2,
        }
    }

    #[verifier::when_used_as_spec(spec_max_fall_speed)]
    pub fn max_fall_speed(self) -> (r: i32)
        ensures
            r == self.spec_max_fall_speed(),
    {
        match self {
            Difficulty::Easy => 30,
            Difficulty::Normal => 20,
            Difficulty::Hard => 15,
        }
    }

    #[verifier::when_used_as_spec(spec_horizontal_speed)]
    pub fn horizontal_speed(self) -> (r: i32)
        ensures
            r == self.spec_horizontal_speed(),
    {
        match self {
            Difficulty::Easy => 1,
            Difficulty::Normal => 2,
            Difficulty::Hard => 2,
        }
    }

    #[verifier::when_used_as_spec(spec_min_gap)]
    pub fn min_gap(self) -> (r: i32)
        ensures
            r == self.spec_min_gap(),
    {
        match self {
            Difficulty::Easy => 10,
            Difficulty::Normal => 6,
            Difficulty::Hard => 2,
        }
    }

    /// The label shown for the preset: "Easy", "Normal" or "Hard".
    pub fn name(self) -> (s: &'static str)
        ensures
            s@ == self.spec_name(),
    {
        match self {
            Difficulty::Easy => "Easy",
            Difficulty::Normal => "Normal",
            Difficulty::Hard => "Hard",
        }
    }
}

} // verus!
