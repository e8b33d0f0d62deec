//! The top-level view mode and its single transition.

use vstd::prelude::*;

verus! {

/// The top-level mode of the view: the creation screen, or the running
/// tournament.
#[derive(Debug, Clone, Copy, PartialEq, Eq, Structural)]
pub enum Scene {
    Create,
    Tournament,
}

/// The one event the view emits: a request to create the tournament,
/// fired by the create control.
#[derive(Debug, Clone, Copy, PartialEq, Eq, Structural)]
pub enum TournamentEvent {
    Create,
}

/// The scene transition relation: the create event moves any scene to
/// `Tournament`, so firing it while already there changes nothing.
pub open spec fn next_scene(scene: Scene, event: TournamentEvent) -> Scene {
    match event {
        TournamentEvent::Create => Scene::Tournament,
    }
}

/// From `Create`, one create event reaches `Tournament`; any further
/// event leaves the scene where it stands: the transition is
/// idempotent.
pub proof fn lemma_scene_transition_idempotent(
    scene: Scene,
    first: TournamentEvent,
    second: TournamentEvent,
)
    ensures
        next_scene(Scene::Create, first) == Scene::Tournament,
        next_scene(next_scene(scene, first), second) == next_scene(scene, first),
{
}

} // verus!
