//! The two participants of a game.

use vstd::prelude::*;

use crate::board::Mark;

verus! {

/// A participant: a display name, never empty, and the mark played.
#[derive(Debug)]
pub struct Player {
    mark: Mark,
    name: String,
}

impl Player {
    #[verifier::type_invariant]
    spec fn named(&self) -> bool {
        self.name@.len() > 0
    }

    /// The display name, as a sequence of characters.
    pub closed spec fn name_spec(&self) -> Seq<char> {
        self.name@
    }

    /// The mark that this player puts on the board.
    pub closed spec fn mark_spec(&self) -> Mark {
        self.mark
    }

    /// The place of a mark in the turn cycle: X moves first.
    pub open spec fn index_of(mark: Mark) -> int {
        match mark {
            Mark::X => 0,
            Mark::O => 1,
        }
    }

    /// A player called `name` who plays `mark`.
    pub fn new(name: String, mark: Mark) -> (player: Player)
        requires
            name@.len() > 0,
        ensures
            player.name_spec() == name@,
            player.mark_spec() == mark,
    {
        Player { mark, name }
    }

    pub fn get_name(&self) -> (name: &str)
        ensures
            name@ == self.name_spec(),
            name@.len() > 0,
    {
        proof {
            use_type_invariant(self);
        }
        self.name.as_str()
    }

    pub fn get_mark(&self) -> (mark: Mark)
        ensures
            mark == self.mark_spec(),
    {
        self.mark
    }

    /// This player's place in the turn cycle: 0 for X, 1 for O.
    pub fn index(&self) -> (index: usize)
        ensures
            index == Self::index_of(self.mark_spec()),
    {
        match self.mark {
            Mark::X => 0,
            Mark::O => 1,
        }
    }
}

} // verus!
