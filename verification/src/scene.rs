//! The scene swap coordinator: the registry of the live scene objects, and
//! the swap that replaces all of them at once.

use vstd::prelude::*;
use crate::asset::{LoadError, SceneNode};
use crate::tracker::{PollResult, PollView};

verus! {

/// One live top-level object of the displayed scene. Its identity is the
/// generation of the load that produced it together with its position among
/// that asset's top-level nodes.
#[derive(Debug, Clone, Copy, PartialEq, Eq)]
pub struct SceneObject {
    pub generation: u64,
    pub index: usize,
    pub node: SceneNode,
}

/// One thing for the scene graph to do. The coordinator hands out a list of
/// them; they are carried out in the order of the list.
#[derive(Debug, Clone, Copy, PartialEq, Eq)]
pub enum SceneAction {
    /// Release the object, with everything below it.
    Despawn(SceneObject),
    /// Bring the object's node to life as this object.
    Spawn(SceneObject),
}

/// The objects that a load of the given generation brings to life: one for
/// each top-level node, in the asset's order.
pub open spec fn instantiate(nodes: Seq<SceneNode>, generation: u64) -> Seq<SceneObject> {
    Seq::new(
        nodes.len(),
        |i: int| SceneObject { generation, index: i as usize, node: nodes[i] },
    )
}

/// The actions of one swap: every old object is released, then every new
/// one is brought to life.
pub open spec fn swap_actions(released: Seq<SceneObject>, spawned: Seq<SceneObject>) -> Seq<
    SceneAction,
> {
    released.map_values(|o: SceneObject| SceneAction::Despawn(o)) + spawned.map_values(
        |o: SceneObject| SceneAction::Spawn(o),
    )
}

/// The displayed scene as the contracts see it.
pub struct SceneView {
    /// The generation of the load that the scene came from.
    pub generation: u64,
    /// The live objects, in the asset's order.
    pub objects: Seq<SceneObject>,
}

impl SceneView {
    /// Every object carries the scene's generation and its own position.
    pub open spec fn wf(self) -> bool {
        forall|i: int|
            0 <= i < self.objects.len() ==> {
                &&& (#[trigger] self.objects[i]).generation == self.generation
                &&& self.objects[i].index == i
            }
    }

    /// The scene that a loaded asset becomes.
    pub open spec fn of_asset(nodes: Seq<SceneNode>, generation: u64) -> SceneView {
        SceneView { generation, objects: instantiate(nodes, generation) }
    }
}

/// The objects of the displayed scene; none where nothing is displayed.
pub open spec fn live_objects(displayed: Option<SceneView>) -> Seq<SceneObject> {
    match displayed {
        Some(scene) => scene.objects,
        None => Seq::empty(),
    }
}

/// What one run of the coordinator did.
#[derive(Debug, Clone, PartialEq, Eq)]
pub enum TickOutcome {
    /// Nothing ended this tick: the scene is as it was.
    Unchanged,
    /// The load of `generation` ended well and its scene replaced the old
    /// one. `actions` is what the scene graph has to do for it.
    Swapped { generation: u64, actions: Vec<SceneAction> },
    /// The load of `generation` failed: the scene is as it was.
    LoadFailed { generation: u64, error: LoadError },
}

/// What one run of the coordinator did, as the contracts see it.
pub enum TickView {
    Unchanged,
    Swapped { generation: u64, actions: Seq<SceneAction> },
    LoadFailed { generation: u64, error: Seq<char> },
}

impl View for TickOutcome {
    type V = TickView;

    open spec fn view(&self) -> TickView {
        match self {
            TickOutcome::Unchanged => TickView::Unchanged,
            TickOutcome::Swapped { generation, actions } => TickView::Swapped {
                generation: *generation,
                actions: actions@,
            },
            TickOutcome::LoadFailed { generation, error } => TickView::LoadFailed {
                generation: *generation,
                error: error@,
            },
        }
    }
}

/// The displayed scene after the coordinator has seen `polled`.
pub open spec fn scene_after(displayed: Option<SceneView>, polled: PollView) -> Option<SceneView> {
    match polled {
        PollView::Ready(nodes, generation) => Some(SceneView::of_asset(nodes, generation)),
        _ => displayed,
    }
}

/// What the coordinator reports when it has seen `polled`.
pub open spec fn outcome_of(displayed: Option<SceneView>, polled: PollView) -> TickView {
    match polled {
        PollView::Idle => TickView::Unchanged,
        PollView::Loading => TickView::Unchanged,
        PollView::Ready(nodes, generation) => TickView::Swapped {
            generation,
            actions: swap_actions(live_objects(displayed), instantiate(nodes, generation)),
        },
        PollView::Failed(error, generation) => TickView::LoadFailed { generation, error },
    }
}

/// The registry of one displayed scene.
#[derive(Debug, Clone, PartialEq, Eq)]
pub struct DisplayedScene {
    generation: u64,
    objects: Vec<SceneObject>,
}

impl View for DisplayedScene {
    type V = SceneView;

    closed spec fn view(&self) -> SceneView {
        SceneView { generation: self.generation, objects: self.objects@ }
    }
}

impl DisplayedScene {
    /// The generation of the load that the scene came from.
    pub fn generation(&self) -> (g: u64)
        ensures
            g == self@.generation,
    {
        self.generation
    }

    /// The live objects, in the asset's order.
    pub fn objects(&self) -> (objects: &Vec<SceneObject>)
        ensures
            objects@ == self@.objects,
    {
        &self.objects
    }
}

/// Owns the displayed scene. Nothing else holds its objects.
#[derive(Debug)]
pub struct SceneSwapCoordinator {
    displayed: Option<DisplayedScene>,
}

impl View for SceneSwapCoordinator {
    type V = Option<SceneView>;

    closed spec fn view(&self) -> Option<SceneView> {
        match self.displayed {
            Some(scene) => Some(scene@),
            None => None,
        }
    }
}

impl SceneSwapCoordinator {
    /// A coordinator that displays nothing yet.
    pub fn new() -> (coordinator: Self)
        ensures
            coordinator@ is None,
    {
        SceneSwapCoordinator { displayed: None }
    }

    /// Acts on what the tracker reported this tick. On `Ready` the whole old
    /// scene is released and the whole new one is brought to life, in that
    /// order, even where the asset has no node. On everything else the scene
    /// stays as it is.
    pub fn run(&mut self, polled: PollResult) -> (outcome: TickOutcome)
        ensures
            final(self)@ == scene_after(old(self)@, polled@),
            outcome@ == outcome_of(old(self)@, polled@),
            (old(self)@ matches Some(s) ==> s.wf()) ==> (final(self)@ matches Some(s) ==> s.wf()),
    {
        match polled {
            PollResult::Idle => TickOutcome::Unchanged,
            PollResult::Loading => TickOutcome::Unchanged,
            PollResult::Failed(error, generation) => TickOutcome::LoadFailed { generation, error },
            PollResult::Ready(asset, generation) => {
                let ghost released = live_objects(self@);
                let mut actions: Vec<SceneAction> = Vec::new();
                match &self.displayed {
                    Some(scene) => {
                        let mut i: usize = 0;
                        while i < scene.objects.len()
                            invariant
                                i <= scene.objects.len(),
                                scene.objects@ == released,
                                actions@ == released.take(i as int).map_values(
                                    |o: SceneObject| SceneAction::Despawn(o),
                                ),
                            decreases scene.objects.len() - i,
                        {
                            actions.push(SceneAction::Despawn(scene.objects[i]));
                            i += 1;
                            assert(actions@ =~= released.take(i as int).map_values(
                                |o: SceneObject| SceneAction::Despawn(o),
                            ));
                        }
                        assert(released.take(i as int) =~= released);
                    },
                    None => {
                        assert(actions@ =~= released.map_values(
                            |o: SceneObject| SceneAction::Despawn(o),
                        ));
                    },
                }
                let ghost despawns = actions@;
                let mut objects: Vec<SceneObject> = Vec::new();
                let mut j: usize = 0;
                while j < asset.nodes.len()
                    invariant
                        j <= asset.nodes.len(),
                        objects@ == instantiate(asset@.take(j as int), generation),
                        actions@ == despawns + objects@.map_values(
                            |o: SceneObject| SceneAction::Spawn(o),
                        ),
                    decreases asset.nodes.len() - j,
                {
                    let object = SceneObject { generation, index: j, node: asset.nodes[j] };
                    objects.push(object);
                    actions.push(SceneAction::Spawn(object));
                    j += 1;
                    assert(objects@ =~= instantiate(asset@.take(j as int), generation));
                    assert(actions@ =~= despawns + objects@.map_values(
                        |o: SceneObject| SceneAction::Spawn(o),
                    ));
                }
                assert(asset@.take(j as int) =~= asset@);
                self.displayed = Some(DisplayedScene { generation, objects });
                TickOutcome::Swapped { generation, actions }
            },
        }
    }

    /// The displayed scene, if a load has completed yet.
    pub fn displayed(&self) -> (scene: Option<&DisplayedScene>)
        ensures
            match scene {
                Some(s) => self@ == Some(s@),
                None => self@ is None,
            },
    {
        self.displayed.as_ref()
    }

    /// How many top-level objects are live.
    pub fn live_count(&self) -> (n: usize)
        ensures
            n == live_objects(self@).len(),
    {
        match &self.displayed {
            Some(scene) => scene.objects.len(),
            None => 0,
        }
    }
}

} // verus!
