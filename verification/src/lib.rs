//! A single-elimination tournament bracket: players paired into fights,
//! fights grouped into rounds, a scene state machine, and a pure
//! projection from bracket state to a markup tree.

mod fight;
mod locale;
mod model;
mod player;
mod round;
mod scene;
mod view;

pub use fight::Fight;
pub use fight::fight_participants;
pub use locale::create_tournament;
pub use locale::label_key;
pub use locale::label_locale;
pub use locale::label_source;
pub use locale::spec_create_tournament;
pub use locale::translation_of;
pub use model::Model;
pub use model::fight_is;
pub use model::lemma_round_participants_concat;
pub use model::model_participants;
pub use model::round_participants;
pub use model::slot_is;
pub use player::Player;
pub use player::spec_full_name;
pub use round::Round;
pub use round::RoundCursor;
pub use scene::Scene;
pub use scene::TournamentEvent;
pub use scene::lemma_scene_transition_idempotent;
pub use scene::next_scene;
pub use view::Node;
pub use view::is_button_node;
pub use view::is_create_scene;
pub use view::is_fight_node;
pub use view::is_leaf;
pub use view::is_opponent_node;
pub use view::is_player_node;
pub use view::is_players_block;
pub use view::is_round_node;
pub use view::is_rounds_block;
pub use view::is_tournament_body;
pub use view::is_tournament_scene;
pub use view::is_winner_block;
pub use view::lemma_winner_block_exactly_when_declared;
pub use view::spec_slot_text;

