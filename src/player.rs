use vstd::prelude::*;

verus! {

/// One of the two players. `One` always moves first.
#[derive(Debug, Clone, Copy, PartialEq, Eq, Structural)]
pub enum Player {
    One,
    Two,
}

impl Player {
    /// The player that is not `self`.
    pub open spec fn spec_opponent(self) -> Player {
        match self {
            Player::One => Player::Two,
            Player::Two => Player::One,
        }
    }

    /// The slot of this player in a pair of identities.
    pub open spec fn spec_index(self) -> nat {
        match self {
            Player::One => 0,
            Player::Two => 1,
        }
    }

    /// Returns the opponent of this player.
    pub fn opponent(self) -> (r: Self)
        ensures
            r == self.spec_opponent(),
            r != self,
    {
        match self {
            Player::One => Player::Two,
            Player::Two => Player::One,
        }
    }

    /// Returns 0 for player `One` and 1 for player `Two`.
    pub fn index(&self) -> (r: usize)
        ensures
            r == self.spec_index(),
            r < 2,
    {
        match self {
            Player::One => 0,
            Player::Two => 1,
        }
    }
}

impl Default for Player {
    fn default() -> (r: Self)
        ensures
            r == Player::One,
    {
        Player::One
    }
}

} // verus!
