use tournament_bracket::{Fight, Model, Node, Player, Round, RoundCursor, Scene, TournamentEvent};
use tournament_bracket::create_tournament;

fn player(first: &str, last: &str) -> Player {
    Player::new(first.to_string(), last.to_string())
}

fn fight(first: Option<Player>, second: Option<Player>) -> Fight {
    Fight::new(first, second)
}

fn count_class(node: &Node, class: &str) -> usize {
    let mut count = if node.class == class { 1 } else { 0 };
    for child in &node.children {
        count += count_class(child, class);
    }
    count
}

fn find_class<'a>(node: &'a Node, class: &str) -> Option<&'a Node> {
    if node.class == class {
        return Some(node);
    }
    for child in &node.children {
        if let Some(found) = find_class(child, class) {
            return Some(found);
        }
    }
    None
}

#[test]
fn round_traversal_yields_fights_in_push_order_then_exhausts() {
    let mut round = Round::new();
    round.push(fight(Some(player("Xenial", "Xerus")), Some(player("Bionic", "Beaver"))));
    round.push(fight(None, Some(player("Cosmic", "Cuttlefish"))));
    round.push(fight(Some(player("Disco", "Dingo")), None));
    assert_eq!(round.len(), 3);

    let mut cursor = RoundCursor::new();
    let first = cursor.next(&round).expect("first step yields a fight");
    assert_eq!(first.first_player.as_ref().unwrap().first_name, "Xenial");
    assert_eq!(first.second_player.as_ref().unwrap().first_name, "Bionic");
    let second = cursor.next(&round).expect("second step yields a fight");
    assert!(second.first_player.is_none());
    assert_eq!(second.second_player.as_ref().unwrap().first_name, "Cosmic");
    let third = cursor.next(&round).expect("third step yields a fight");
    assert_eq!(third.first_player.as_ref().unwrap().first_name, "Disco");
    assert!(third.second_player.is_none());
    assert!(cursor.next(&round).is_none(), "fourth step signals exhaustion");
    assert!(cursor.next(&round).is_none(), "exhaustion is stable");
}

#[test]
fn traverse_with_fresh_cursor_returns_all_fights() {
    let mut round = Round::new();
    round.push(fight(Some(player("Artful", "Aardvark")), None));
    round.push(fight(None, Some(player("Warty", "Warthog"))));
    let fights = round.traverse();
    assert_eq!(fights.len(), 2);
    assert_eq!(fights[0].first_player.as_ref().unwrap().last_name, "Aardvark");
    assert_eq!(fights[1].second_player.as_ref().unwrap().last_name, "Warthog");
}

#[test]
fn independent_traversals_use_independent_cursors() {
    let mut round = Round::new();
    round.push(fight(Some(player("Zesty", "Zapus")), Some(player("Warty", "Warthog"))));
    let mut first_pass = RoundCursor::new();
    let mut second_pass = RoundCursor::new();
    assert!(first_pass.next(&round).is_some());
    assert!(first_pass.next(&round).is_none());
    assert!(second_pass.next(&round).is_some(), "a fresh cursor starts over");
}

#[test]
fn participant_aggregation_skips_absent_slots_in_order() {
    let mut round = Round::new();
    round.push(fight(Some(player("Alpha", "Ant")), Some(player("Bravo", "Bee"))));
    round.push(fight(None, Some(player("Charlie", "Cat"))));
    round.push(fight(Some(player("Delta", "Dog")), None));
    let model = Model { scene: Scene::Tournament, rounds: vec![round], winner: None };
    let roster = model.participants();
    let names: Vec<&str> = roster.iter().map(|p| p.first_name.as_str()).collect();
    assert_eq!(names, vec!["Alpha", "Bravo", "Charlie", "Delta"]);
}

#[test]
fn participant_aggregation_reads_first_round_only() {
    let mut round_one = Round::new();
    round_one.push(fight(Some(player("Alpha", "Ant")), None));
    let mut round_two = Round::new();
    round_two.push(fight(Some(player("Bravo", "Bee")), Some(player("Charlie", "Cat"))));
    let model = Model { scene: Scene::Tournament, rounds: vec![round_one, round_two], winner: None };
    let roster = model.participants();
    assert_eq!(roster.len(), 1);
    assert_eq!(roster[0].first_name, "Alpha");
}

#[test]
fn participant_aggregation_without_rounds_is_empty() {
    let model = Model { scene: Scene::Tournament, rounds: Vec::new(), winner: None };
    assert!(model.participants().is_empty());
}

#[test]
fn scene_transition_reaches_tournament_and_is_idempotent() {
    let mut model = Model::create();
    assert_eq!(model.scene, Scene::Create);
    let render = model.update(TournamentEvent::Create);
    assert!(render);
    assert_eq!(model.scene, Scene::Tournament);
    let render_again = model.update(TournamentEvent::Create);
    assert!(render_again);
    assert_eq!(model.scene, Scene::Tournament);
}

#[test]
fn fight_render_shows_both_names() {
    let f = fight(Some(player("Xenial", "Xerus")), Some(player("Bionic", "Beaver")));
    let node = f.render();
    assert_eq!(node.class, "fight");
    assert_eq!(node.children.len(), 2);
    assert_eq!(node.children[0].class, "first opponent");
    assert_eq!(node.children[0].text.as_deref(), Some("Xenial Xerus"));
    assert_eq!(node.children[1].class, "second opponent");
    assert_eq!(node.children[1].text.as_deref(), Some("Bionic Beaver"));
}

#[test]
fn fight_render_shows_placeholder_for_absent_slot() {
    let f = fight(None, Some(player("Cosmic", "Cuttlefish")));
    let node = f.render();
    assert_eq!(node.children[0].text.as_deref(), Some("BYE"));
    assert_eq!(node.children[1].text.as_deref(), Some("Cosmic Cuttlefish"));

    let g = fight(Some(player("Disco", "Dingo")), None);
    let other = g.render();
    assert_eq!(other.children[0].text.as_deref(), Some("Disco Dingo"));
    assert_eq!(other.children[1].text.as_deref(), Some("BYE"));
}

#[test]
fn tournament_scene_with_winner_shows_one_winner_block() {
    let mut round = Round::new();
    round.push(fight(Some(player("Zesty", "Zapus")), Some(player("Warty", "Warthog"))));
    let model = Model {
        scene: Scene::Tournament,
        rounds: vec![round],
        winner: Some(player("Zesty", "Zapus")),
    };
    let tree = model.render();
    assert_eq!(count_class(&tree, "winner"), 1);
    let winner = find_class(&tree, "winner").unwrap();
    assert_eq!(winner.children.len(), 1);
    assert_eq!(winner.children[0].class, "player");
    assert_eq!(winner.children[0].text.as_deref(), Some("Zesty Zapus"));
}

#[test]
fn tournament_scene_without_winner_shows_no_winner_block() {
    let mut round = Round::new();
    round.push(fight(Some(player("Zesty", "Zapus")), Some(player("Warty", "Warthog"))));
    let model = Model { scene: Scene::Tournament, rounds: vec![round], winner: None };
    let tree = model.render();
    assert_eq!(count_class(&tree, "winner"), 0);
}

#[test]
fn create_scene_renders_only_the_localized_control() {
    let model = Model::create();
    let tree = model.render();
    assert_eq!(tree.class, "tournaments");
    assert_eq!(tree.children.len(), 1);
    assert_eq!(tree.children[0].class, "button");
    assert_eq!(tree.children[0].text.as_deref(), Some("Cr\u{e9}er un tournoi"));
}

#[test]
fn create_tournament_label_is_localized() {
    assert_eq!(create_tournament(), "Cr\u{e9}er un tournoi");
}

#[test]
fn end_to_end_seed_bracket_rosters_and_blocks() {
    let firsts = ["Alpha", "Bravo", "Charlie", "Delta", "Echo", "Foxtrot", "Golf", "Hotel"];
    let mut round_one = Round::new();
    for pair in firsts.chunks(2) {
        round_one.push(fight(Some(player(pair[0], "Entrant")), Some(player(pair[1], "Entrant"))));
    }
    let mut round_two = Round::new();
    round_two.push(fight(Some(player("Alpha", "Entrant")), Some(player("Charlie", "Entrant"))));
    round_two.push(fight(Some(player("Echo", "Entrant")), Some(player("Golf", "Entrant"))));
    let mut round_three = Round::new();
    round_three.push(fight(Some(player("Alpha", "Entrant")), Some(player("Echo", "Entrant"))));
    let mut model = Model {
        scene: Scene::Create,
        rounds: vec![round_one, round_two, round_three],
        winner: Some(player("Alpha", "Entrant")),
    };
    model.update(TournamentEvent::Create);

    let roster = model.participants();
    assert_eq!(roster.len(), 8);
    let names: Vec<&str> = roster.iter().map(|p| p.first_name.as_str()).collect();
    assert_eq!(names, firsts.to_vec());

    let tree = model.render();
    assert_eq!(count_class(&tree, "fight"), 7, "4 + 2 + 1 fight blocks");
    assert_eq!(count_class(&tree, "round"), 3);
    assert_eq!(count_class(&tree, "players"), 1);
}

#[test]
fn seed_bracket_matches_the_compiled_in_data() {
    let model = Model::create();
    assert_eq!(model.scene, Scene::Create);
    assert_eq!(model.rounds.len(), 3);
    assert_eq!(model.rounds[0].len(), 4);
    assert_eq!(model.rounds[1].len(), 2);
    assert_eq!(model.rounds[2].len(), 1);
    let opener = model.rounds[0].get(0);
    assert_eq!(opener.first_player.as_ref().unwrap().first_name, "Xenial");
    assert_eq!(opener.second_player.as_ref().unwrap().last_name, "Beaver");
    let last_round = model.rounds[2].get(0);
    assert_eq!(last_round.second_player.as_ref().unwrap().first_name, "Zesty");
    let winner = model.winner.as_ref().unwrap();
    assert_eq!(winner.full_name(), "Zesty Zapus");
    let roster = model.participants();
    assert_eq!(roster.len(), 8);
}

#[test]
fn player_full_name_and_value_equality() {
    let a = player("Zesty", "Zapus");
    let b = player("Zesty", "Zapus");
    let c = player("Warty", "Warthog");
    assert_eq!(a.full_name(), "Zesty Zapus");
    assert_eq!(a, b);
    assert_ne!(a, c);
}

#[test]
fn round_push_and_get_keep_order() {
    let mut round = Round::new();
    assert_eq!(round.len(), 0);
    round.push(fight(Some(player("Alpha", "Ant")), None));
    round.push(fight(None, Some(player("Bravo", "Bee"))));
    assert_eq!(round.len(), 2);
    assert_eq!(round.get(0).first_player.as_ref().unwrap().first_name, "Alpha");
    assert_eq!(round.get(1).second_player.as_ref().unwrap().first_name, "Bravo");
}
