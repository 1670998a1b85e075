use model_viewer::asset::{LoadError, LoadedAsset, SceneNode};
use model_viewer::scene::{SceneAction, SceneObject, SceneSwapCoordinator, TickOutcome};
use model_viewer::tracker::PollResult;

fn asset(ids: &[u64]) -> LoadedAsset {
    LoadedAsset { nodes: ids.iter().map(|id| SceneNode { id: *id }).collect() }
}

fn object(generation: u64, index: usize, id: u64) -> SceneObject {
    SceneObject { generation, index, node: SceneNode { id } }
}

#[test]
fn a_new_coordinator_displays_nothing() {
    let coordinator = SceneSwapCoordinator::new();
    assert!(coordinator.displayed().is_none());
    assert_eq!(coordinator.live_count(), 0);
}

#[test]
fn idle_and_loading_change_nothing() {
    let mut coordinator = SceneSwapCoordinator::new();
    assert_eq!(coordinator.run(PollResult::Idle), TickOutcome::Unchanged);
    assert_eq!(coordinator.run(PollResult::Loading), TickOutcome::Unchanged);
    assert!(coordinator.displayed().is_none());
    coordinator.run(PollResult::Ready(asset(&[4, 5]), 1));
    let before = coordinator.displayed().cloned();
    assert_eq!(coordinator.run(PollResult::Idle), TickOutcome::Unchanged);
    assert_eq!(coordinator.run(PollResult::Loading), TickOutcome::Unchanged);
    assert_eq!(coordinator.displayed().cloned(), before);
}

#[test]
fn the_first_swap_only_spawns() {
    let mut coordinator = SceneSwapCoordinator::new();
    let outcome = coordinator.run(PollResult::Ready(asset(&[4, 5]), 1));
    assert_eq!(
        outcome,
        TickOutcome::Swapped {
            generation: 1,
            actions: vec![SceneAction::Spawn(object(1, 0, 4)), SceneAction::Spawn(object(1, 1, 5))],
        }
    );
    let scene = coordinator.displayed().unwrap();
    assert_eq!(scene.generation(), 1);
    assert_eq!(scene.objects(), &vec![object(1, 0, 4), object(1, 1, 5)]);
    assert_eq!(coordinator.live_count(), 2);
}

#[test]
fn a_swap_despawns_everything_before_it_spawns() {
    let mut coordinator = SceneSwapCoordinator::new();
    coordinator.run(PollResult::Ready(asset(&[4, 5, 6]), 1));
    let outcome = coordinator.run(PollResult::Ready(asset(&[7, 8]), 2));
    assert_eq!(
        outcome,
        TickOutcome::Swapped {
            generation: 2,
            actions: vec![
                SceneAction::Despawn(object(1, 0, 4)),
                SceneAction::Despawn(object(1, 1, 5)),
                SceneAction::Despawn(object(1, 2, 6)),
                SceneAction::Spawn(object(2, 0, 7)),
                SceneAction::Spawn(object(2, 1, 8)),
            ],
        }
    );
    assert_eq!(coordinator.displayed().unwrap().objects(), &vec![object(2, 0, 7), object(2, 1, 8)]);
    assert_eq!(coordinator.displayed().unwrap().generation(), 2);
    assert_eq!(coordinator.live_count(), 2);
}

#[test]
fn an_asset_without_nodes_clears_the_scene() {
    let mut coordinator = SceneSwapCoordinator::new();
    coordinator.run(PollResult::Ready(asset(&[4, 5]), 1));
    let outcome = coordinator.run(PollResult::Ready(asset(&[]), 2));
    assert_eq!(
        outcome,
        TickOutcome::Swapped {
            generation: 2,
            actions: vec![SceneAction::Despawn(object(1, 0, 4)), SceneAction::Despawn(object(1, 1, 5))],
        }
    );
    let scene = coordinator.displayed().unwrap();
    assert_eq!(scene.generation(), 2);
    assert!(scene.objects().is_empty());
    assert_eq!(coordinator.live_count(), 0);
}

#[test]
fn an_empty_first_asset_gives_an_empty_scene() {
    let mut coordinator = SceneSwapCoordinator::new();
    let outcome = coordinator.run(PollResult::Ready(asset(&[]), 1));
    assert_eq!(outcome, TickOutcome::Swapped { generation: 1, actions: vec![] });
    assert!(coordinator.displayed().is_some());
    assert_eq!(coordinator.live_count(), 0);
}

#[test]
fn a_failure_keeps_the_scene() {
    let mut coordinator = SceneSwapCoordinator::new();
    coordinator.run(PollResult::Ready(asset(&[4, 5]), 1));
    let before = coordinator.displayed().cloned();
    let outcome = coordinator.run(PollResult::Failed(LoadError { message: "not found".to_string() }, 2));
    assert_eq!(
        outcome,
        TickOutcome::LoadFailed { generation: 2, error: LoadError { message: "not found".to_string() } }
    );
    assert_eq!(coordinator.displayed().cloned(), before);
    assert_eq!(coordinator.live_count(), 2);
}

#[test]
fn a_failure_before_any_scene_leaves_none() {
    let mut coordinator = SceneSwapCoordinator::new();
    coordinator.run(PollResult::Failed(LoadError { message: "not found".to_string() }, 1));
    assert!(coordinator.displayed().is_none());
}
