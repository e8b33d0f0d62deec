//! A pairing of up to two optional players.

use vstd::prelude::*;

use crate::player::Player;

verus! {

/// One pairing in a round. A `None` slot is a bye: no opponent, or a
/// participant not yet determined.
#[derive(Debug)]
pub struct Fight {
    pub first_player: Option<Player>,
    pub second_player: Option<Player>,
}

/// The players a fight contributes to the roster: its present slots in
/// slot order, absent slots skipped.
pub open spec fn fight_participants(f: Fight) -> Seq<Player> {
    (match f.first_player {
        Some(p) => seq![p],
        None => Seq::empty(),
    }) + (match f.second_player {
        Some(p) => seq![p],
        None => Seq::empty(),
    })
}

impl Fight {
    pub fn new(first_player: Option<Player>, second_player: Option<Player>) -> (r: Fight)
        ensures
            r.first_player == first_player,
            r.second_player == second_player,
    {
        Fight { first_player, second_player }
    }
}

impl Clone for Fight {
    fn clone(&self) -> (r: Self)
        ensures
            r == *self,
    {
        Fight {
            first_player: match &self.first_player {
                Some(p) => Some(p.clone()),
                None => None,
            },
            second_player: match &self.second_player {
                Some(p) => Some(p.clone()),
                None => None,
            },
        }
    }
}

} // verus!
