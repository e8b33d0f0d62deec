//! Pure projection from bracket state to a markup tree: the view is a
//! function of the current state alone, never of event history, and it
//! mutates nothing.

use vstd::prelude::*;
use vstd::string::StringExecFns;

use crate::fight::Fight;
use crate::locale::{create_tournament, spec_create_tournament};
use crate::model::{Model, model_participants};
use crate::player::{Player, spec_full_name};
use crate::round::Round;
use crate::scene::Scene;

verus! {

/// One block of the rendered view: a class naming its role, optional
/// text, and child blocks in display order.
#[derive(Debug)]
pub struct Node {
    pub class: String,
    pub text: Option<String>,
    pub children: Vec<Node>,
}

/// A childless block of the given class showing the given text.
pub open spec fn is_leaf(n: Node, class: Seq<char>, text: Seq<char>) -> bool {
    &&& n.class@ == class
    &&& n.text matches Some(t) && t@ == text
    &&& n.children@.len() == 0
}

/// The text an opponent block displays: the slot's player's full name,
/// or the bye placeholder for an absent slot. Absence is a first-class
/// display state, not a failure.
pub open spec fn spec_slot_text(slot: Option<Player>) -> Seq<char> {
    match slot {
        Some(p) => spec_full_name(p.first_name@, p.last_name@),
        None => "BYE"@,
    }
}

/// A player block: `"firstName lastName"` under the `player` class.
pub open spec fn is_player_node(n: Node, p: Player) -> bool {
    is_leaf(n, "player"@, spec_full_name(p.first_name@, p.last_name@))
}

/// An opponent block of a fight, for one slot.
pub open spec fn is_opponent_node(n: Node, class: Seq<char>, slot: Option<Player>) -> bool {
    is_leaf(n, class, spec_slot_text(slot))
}

/// A fight block: the two opponent blocks, in slot order.
pub open spec fn is_fight_node(n: Node, f: Fight) -> bool {
    &&& n.class@ == "fight"@
    &&& n.text is None
    &&& n.children@.len() == 2
    &&& is_opponent_node(n.children@[0], "first opponent"@, f.first_player)
    &&& is_opponent_node(n.children@[1], "second opponent"@, f.second_player)
}

/// A round block: one fight block per fight, in round order.
pub open spec fn is_round_node(n: Node, fights: Seq<Fight>) -> bool {
    &&& n.class@ == "round"@
    &&& n.text is None
    &&& n.children@.len() == fights.len()
    &&& forall|i: int|
        0 <= i < fights.len() ==> is_fight_node(#[trigger] n.children@[i], fights[i])
}

/// The interactive control that fires the create event, labeled with
/// the localized text.
pub open spec fn is_button_node(n: Node) -> bool {
    is_leaf(n, "button"@, spec_create_tournament())
}

/// The roster block: one player block per roster entry, in order.
pub open spec fn is_players_block(n: Node, roster: Seq<Player>) -> bool {
    &&& n.class@ == "players"@
    &&& n.text is None
    &&& n.children@.len() == roster.len()
    &&& forall|i: int|
        0 <= i < roster.len() ==> is_player_node(#[trigger] n.children@[i], roster[i])
}

/// The rounds block: one round block per round, in stage order.
pub open spec fn is_rounds_block(n: Node, rounds: Seq<Round>) -> bool {
    &&& n.class@ == "rounds"@
    &&& n.text is None
    &&& n.children@.len() == rounds.len()
    &&& forall|i: int|
        0 <= i < rounds.len() ==> is_round_node(#[trigger] n.children@[i], rounds[i]@)
}

/// The winner block: a single player block, rendered identically to a
/// roster entry.
pub open spec fn is_winner_block(n: Node, w: Player) -> bool {
    &&& n.class@ == "winner"@
    &&& n.text is None
    &&& n.children@.len() == 1
    &&& is_player_node(n.children@[0], w)
}

/// The creation screen: a `tournaments` container holding only the
/// create control.
pub open spec fn is_create_scene(n: Node) -> bool {
    &&& n.class@ == "tournaments"@
    &&& n.text is None
    &&& n.children@.len() == 1
    &&& is_button_node(n.children@[0])
}

/// The body of the tournament screen: roster, rounds, and — exactly
/// when a winner is declared — one winner block, and nothing else.
pub open spec fn is_tournament_body(n: Node, m: Model) -> bool {
    &&& n.class@ == "tournament"@
    &&& n.text is None
    &&& n.children@.len() >= 2
    &&& is_players_block(n.children@[0], model_participants(m))
    &&& is_rounds_block(n.children@[1], m.rounds@)
    &&& match m.winner {
        Some(w) => n.children@.len() == 3 && is_winner_block(n.children@[2], w),
        None => n.children@.len() == 2,
    }
}

/// The tournament screen: the create control, then the tournament body.
pub open spec fn is_tournament_scene(n: Node, m: Model) -> bool {
    &&& n.class@ == "tournaments"@
    &&& n.text is None
    &&& n.children@.len() == 2
    &&& is_button_node(n.children@[0])
    &&& is_tournament_body(n.children@[1], m)
}

/// A winner block appears in the tournament body exactly when a winner
/// is declared: with `winner` set, the body's last child is the one
/// winner block and no other child carries the `winner` class; with no
/// winner, no child of the body carries it at all.
pub proof fn lemma_winner_block_exactly_when_declared(n: Node, m: Model)
    requires
        is_tournament_body(n, m),
    ensures
        m.winner matches Some(w) ==> {
            &&& n.children@.len() == 3
            &&& is_winner_block(n.children@[2], w)
            &&& n.children@[0].class@ != "winner"@
            &&& n.children@[1].class@ != "winner"@
        },
        m.winner is None ==> forall|i: int|
            0 <= i < n.children@.len() ==> (#[trigger] n.children@[i]).class@ != "winner"@,
{
    reveal_strlit("players");
    reveal_strlit("rounds");
    reveal_strlit("winner");
    assert("players"@[0] == 'p' && "winner"@[0] == 'w');
    assert("rounds"@[0] == 'r');
    assert("players"@ != "winner"@);
    assert("rounds"@ != "winner"@);
}

/// One opponent block. An absent slot renders the placeholder instead
/// of requiring a participant.
fn render_slot(class: &str, slot: &Option<Player>) -> (n: Node)
    ensures
        is_opponent_node(n, class@, *slot),
{
    let text = match slot {
        Some(p) => p.full_name(),
        None => String::from_str("BYE"),
    };
    Node { class: String::from_str(class), text: Some(text), children: Vec::new() }
}

fn render_button() -> (n: Node)
    ensures
        is_button_node(n),
{
    Node { class: String::from_str("button"), text: Some(create_tournament()), children: Vec::new() }
}

impl Player {
    /// The player block: class `player`, text `"firstName lastName"`.
    pub fn render(&self) -> (n: Node)
        ensures
            is_player_node(n, *self),
    {
        Node { class: String::from_str("player"), text: Some(self.full_name()), children: Vec::new() }
    }
}

impl Fight {
    /// The fight block: a first and a second opponent block. A fight
    /// with an absent slot shows the placeholder for that slot and the
    /// real name for the other.
    pub fn render(&self) -> (n: Node)
        ensures
            is_fight_node(n, *self),
    {
        let first = render_slot("first opponent", &self.first_player);
        let second = render_slot("second opponent", &self.second_player);
        let mut children: Vec<Node> = Vec::new();
        children.push(first);
        children.push(second);
        Node { class: String::from_str("fight"), text: None, children }
    }
}

impl Round {
    /// The round block: the round's fights rendered in order, walked
    /// with a fresh traversal cursor.
    pub fn render(&self) -> (n: Node)
        ensures
            is_round_node(n, self@),
    {
        let fights = self.traverse();
        let mut children: Vec<Node> = Vec::new();
        let mut i: usize = 0;
        while i < fights.len()
            invariant
                fights@ == self@,
                i <= fights@.len(),
                children@.len() == i,
                forall|j: int| 0 <= j < i ==> is_fight_node(#[trigger] children@[j], self@[j]),
            decreases fights@.len() - i,
        {
            children.push(fights[i].render());
            i = i + 1;
        }
        Node { class: String::from_str("round"), text: None, children }
    }
}

impl Model {
    /// The whole view, a pure function of the current scene: the
    /// creation screen, or the tournament screen with the round-one
    /// roster, every round's fights, and the winner block exactly when
    /// a winner is declared.
    pub fn render(&self) -> (n: Node)
        ensures
            self.scene == Scene::Create ==> is_create_scene(n),
            self.scene == Scene::Tournament ==> is_tournament_scene(n, *self),
    {
        match self.scene {
            Scene::Create => {
                let mut children: Vec<Node> = Vec::new();
                children.push(render_button());
                Node { class: String::from_str("tournaments"), text: None, children }
            },
            Scene::Tournament => {
                let roster = self.participants();
                let mut player_nodes: Vec<Node> = Vec::new();
                let mut i: usize = 0;
                while i < roster.len()
                    invariant
                        roster@ == model_participants(*self),
                        i <= roster@.len(),
                        player_nodes@.len() == i,
                        forall|j: int|
                            0 <= j < i ==> is_player_node(
                                #[trigger] player_nodes@[j],
                                roster@[j],
                            ),
                    decreases roster@.len() - i,
                {
                    player_nodes.push(roster[i].render());
                    i = i + 1;
                }
                let players_block = Node {
                    class: String::from_str("players"),
                    text: None,
                    children: player_nodes,
                };

                let mut round_nodes: Vec<Node> = Vec::new();
                let mut k: usize = 0;
                while k < self.rounds.len()
                    invariant
                        k <= self.rounds@.len(),
                        round_nodes@.len() == k,
                        forall|j: int|
                            0 <= j < k ==> is_round_node(
                                #[trigger] round_nodes@[j],
                                self.rounds@[j]@,
                            ),
                    decreases self.rounds@.len() - k,
                {
                    round_nodes.push(self.rounds[k].render());
                    k = k + 1;
                }
                let rounds_block = Node {
                    class: String::from_str("rounds"),
                    text: None,
                    children: round_nodes,
                };

                let mut body_children: Vec<Node> = Vec::new();
                body_children.push(players_block);
                body_children.push(rounds_block);
                match &self.winner {
                    Some(w) => {
                        let mut winner_children: Vec<Node> = Vec::new();
                        winner_children.push(w.render());
                        body_children.push(
                            Node {
                                class: String::from_str("winner"),
                                text: None,
                                children: winner_children,
                            },
                        );
                    },
                    None => {},
                }
                let body = Node {
                    class: String::from_str("tournament"),
                    text: None,
                    children: body_children,
                };

                let mut children: Vec<Node> = Vec::new();
                children.push(render_button());
                children.push(body);
                Node { class: String::from_str("tournaments"), text: None, children }
            },
        }
    }
}

} // verus!
