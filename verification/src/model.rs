//! The whole bracket: scene, rounds, winner, and the roster
//! aggregation over the first round.

use vstd::prelude::*;
use vstd::string::StringExecFns;

use crate::fight::{Fight, fight_participants};
use crate::player::Player;
use crate::round::Round;
use crate::scene::{Scene, TournamentEvent, next_scene};

verus! {

/// The full tournament structure: the current scene, the rounds in
/// stage order, and the declared winner. The winner is supplied at
/// construction time, not computed from match outcomes.
#[derive(Debug)]
pub struct Model {
    pub scene: Scene,
    pub rounds: Vec<Round>,
    pub winner: Option<Player>,
}

/// The roster a sequence of fights yields: each fight's present slots
/// in encounter order (first fight's first slot, first fight's second
/// slot, second fight's first slot, ...), absent slots skipped, no
/// deduplication.
pub open spec fn round_participants(fights: Seq<Fight>) -> Seq<Player>
    decreases fights.len(),
{
    if fights.len() == 0 {
        Seq::empty()
    } else {
        fight_participants(fights[0]) + round_participants(fights.drop_first())
    }
}

/// The displayed roster of a bracket: the participants of the first
/// round only; empty when the bracket has no rounds.
pub open spec fn model_participants(m: Model) -> Seq<Player> {
    if m.rounds@.len() == 0 {
        Seq::empty()
    } else {
        round_participants(m.rounds@[0]@)
    }
}

/// Aggregation distributes over concatenation of fight sequences,
/// preserving encounter order.
pub proof fn lemma_round_participants_concat(a: Seq<Fight>, b: Seq<Fight>)
    ensures
        round_participants(a + b) == round_participants(a) + round_participants(b),
    decreases a.len(),
{
    if a.len() == 0 {
        assert(a + b =~= b);
        assert(round_participants(a) + round_participants(b) =~= round_participants(b));
    } else {
        assert((a + b).drop_first() =~= a.drop_first() + b);
        assert((a + b)[0] == a[0]);
        lemma_round_participants_concat(a.drop_first(), b);
        assert(round_participants(a + b) =~= round_participants(a) + round_participants(b));
    }
}

/// The slot holds a player with exactly these names.
pub open spec fn slot_is(s: Option<Player>, first: Seq<char>, last: Seq<char>) -> bool {
    s matches Some(p) && p.first_name@ == first && p.last_name@ == last
}

/// Both slots of the fight are present and hold these two players.
pub open spec fn fight_is(
    f: Fight,
    first_a: Seq<char>,
    last_a: Seq<char>,
    first_b: Seq<char>,
    last_b: Seq<char>,
) -> bool {
    slot_is(f.first_player, first_a, last_a) && slot_is(f.second_player, first_b, last_b)
}

impl Model {
    /// The seed bracket: three rounds of four, two and one fights over
    /// eight round-one entrants, round N+1 filled by hand with the
    /// expected winners of round N, and the winner declared up front.
    /// The initial scene is the creation screen.
    pub fn create() -> (m: Model)
        ensures
            m.scene == Scene::Create,
            m.rounds@.len() == 3,
            m.rounds@[0]@.len() == 4,
            m.rounds@[1]@.len() == 2,
            m.rounds@[2]@.len() == 1,
            fight_is(m.rounds@[0]@[0], "Xenial"@, "Xerus"@, "Bionic"@, "Beaver"@),
            fight_is(m.rounds@[0]@[1], "Cosmic"@, "Cuttlefish"@, "Disco"@, "Dingo"@),
            fight_is(m.rounds@[0]@[2], "Artful"@, "Aardvark"@, "Zesty"@, "Zapus"@),
            fight_is(m.rounds@[0]@[3], "Artful"@, "Aardvark"@, "Warty"@, "Warthog"@),
            fight_is(m.rounds@[1]@[0], "Xenial"@, "Xerus"@, "Cosmic"@, "Cuttlefish"@),
            fight_is(m.rounds@[1]@[1], "Zesty"@, "Zapus"@, "Warty"@, "Warthog"@),
            fight_is(m.rounds@[2]@[0], "Xenial"@, "Xerus"@, "Zesty"@, "Zapus"@),
            slot_is(m.winner, "Zesty"@, "Zapus"@),
    {
        let player_one = Player::new(String::from_str("Xenial"), String::from_str("Xerus"));
        let player_two = Player::new(String::from_str("Bionic"), String::from_str("Beaver"));
        let player_three = Player::new(String::from_str("Cosmic"), String::from_str("Cuttlefish"));
        let player_four = Player::new(String::from_str("Disco"), String::from_str("Dingo"));
        let player_five = Player::new(String::from_str("Artful"), String::from_str("Aardvark"));
        let player_six = Player::new(String::from_str("Zesty"), String::from_str("Zapus"));
        let player_seven = Player::new(String::from_str("Artful"), String::from_str("Aardvark"));
        let player_eight = Player::new(String::from_str("Warty"), String::from_str("Warthog"));

        let mut round_one = Round::new();
        round_one.push(Fight::new(Some(player_one.clone()), Some(player_two)));
        round_one.push(Fight::new(Some(player_three.clone()), Some(player_four)));
        round_one.push(Fight::new(Some(player_five), Some(player_six.clone())));
        round_one.push(Fight::new(Some(player_seven), Some(player_eight.clone())));

        let mut round_two = Round::new();
        round_two.push(Fight::new(Some(player_one.clone()), Some(player_three)));
        round_two.push(Fight::new(Some(player_six.clone()), Some(player_eight)));

        let mut round_three = Round::new();
        round_three.push(Fight::new(Some(player_one), Some(player_six.clone())));

        let mut rounds: Vec<Round> = Vec::new();
        rounds.push(round_one);
        rounds.push(round_two);
        rounds.push(round_three);

        Model { scene: Scene::Create, rounds, winner: Some(player_six) }
    }

    /// Fires an event: the scene follows the transition relation, the
    /// bracket data is untouched, and the view must re-render.
    pub fn update(&mut self, event: TournamentEvent) -> (render: bool)
        ensures
            final(self).scene == next_scene(old(self).scene, event),
            final(self).scene == Scene::Tournament,
            final(self).rounds == old(self).rounds,
            final(self).winner == old(self).winner,
            render == true,
    {
        match event {
            TournamentEvent::Create => {
                self.scene = Scene::Tournament;
            },
        }
        true
    }

    /// The roster for the tournament scene: a one-shot read-only pass
    /// over the first round, appending each fight's present slots in
    /// encounter order.
    pub fn participants(&self) -> (r: Vec<Player>)
        ensures
            r@ == model_participants(*self),
    {
        let mut players: Vec<Player> = Vec::new();
        if self.rounds.len() == 0 {
            return players;
        }
        let round = &self.rounds[0];
        let n = round.len();
        let mut i: usize = 0;
        while i < n
            invariant
                n == round@.len(),
                i <= n,
                round@ == self.rounds@[0]@,
                self.rounds@.len() > 0,
                players@ == round_participants(round@.take(i as int)),
            decreases n - i,
        {
            let fight = round.get(i);
            match &fight.first_player {
                Some(p) => {
                    players.push(p.clone());
                },
                None => {},
            }
            match &fight.second_player {
                Some(p) => {
                    players.push(p.clone());
                },
                None => {},
            }
            proof {
                let prefix = round@.take(i as int);
                let step = seq![round@[i as int]];
                assert(round@.take(i as int + 1) =~= prefix + step);
                lemma_round_participants_concat(prefix, step);
                assert(step.drop_first() =~= Seq::<Fight>::empty());
                assert(round_participants(step) == fight_participants(step[0])
                    + round_participants(step.drop_first()));
                assert(round_participants(Seq::<Fight>::empty()) == Seq::<Player>::empty());
                assert(round_participants(step) =~= fight_participants(round@[i as int]));
                assert(players@ =~= round_participants(prefix) + fight_participants(
                    round@[i as int],
                ));
            }
            i = i + 1;
        }
        proof {
            assert(round@.take(n as int) =~= round@);
        }
        players
    }
}

} // verus!
