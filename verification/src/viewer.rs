//! The viewer: one tracker and one coordinator, advanced together once per
//! tick, and what holds of every state they can reach.

use vstd::prelude::*;
use crate::asset::{LoaderStatus, OutcomeView, ResolutionView, SceneNode, StatusView};
use crate::catalog::ModelDescriptor;
use crate::scene::{instantiate, live_objects, outcome_of, scene_after, swap_actions,
    DisplayedScene, SceneAction, SceneObject, SceneSwapCoordinator, SceneView, TickOutcome,
    TickView};
use crate::tracker::{lemma_request_takes_a_fresh_generation, pending_view, LoadRequestTracker, PendingLoad, PendingView, Requested,
    TrackerView, FIRST_GENERATION};

verus! {

/// The viewer as the contracts see it.
pub struct ViewerView<H> {
    pub tracker: TrackerView<H>,
    pub displayed: Option<SceneView>,
}

impl<H> ViewerView<H> {
    /// The displayed scene came from a generation that was handed out, and
    /// from an earlier one than the load that is waited for.
    pub open spec fn wf(self) -> bool {
        &&& self.tracker.wf()
        &&& self.displayed matches Some(s) ==> {
            &&& s.wf()
            &&& FIRST_GENERATION <= s.generation < self.tracker.next_generation
            &&& self.tracker.pending matches Some(p) ==> s.generation < p.generation
        }
    }

    /// The viewer before the first request.
    pub open spec fn initial() -> ViewerView<H> {
        ViewerView {
            tracker: TrackerView { next_generation: FIRST_GENERATION, pending: None },
            displayed: None,
        }
    }

    /// The viewer after a request. The scene is not touched.
    pub open spec fn request(self, descriptor: Seq<char>, handle: H) -> ViewerView<H> {
        ViewerView { tracker: self.tracker.request(descriptor, handle), displayed: self.displayed }
    }

    /// The viewer after one tick on which the loader said `status`.
    pub open spec fn tick(self, status: StatusView) -> ViewerView<H> {
        ViewerView {
            tracker: self.tracker.after_poll(status),
            displayed: scene_after(self.displayed, self.tracker.poll_result(status)),
        }
    }

    /// What that tick reports.
    pub open spec fn tick_outcome(self, status: StatusView) -> TickView {
        outcome_of(self.displayed, self.tracker.poll_result(status))
    }
}

/// The end of the load of `generation`, as the loader reports it.
pub open spec fn resolved(generation: u64, outcome: OutcomeView) -> StatusView {
    StatusView::Resolved(ResolutionView { generation, outcome })
}

/// A tracker and a coordinator that are advanced together.
#[derive(Debug)]
pub struct ModelViewer<H> {
    tracker: LoadRequestTracker<H>,
    coordinator: SceneSwapCoordinator,
}

impl<H> View for ModelViewer<H> {
    type V = ViewerView<H>;

    closed spec fn view(&self) -> ViewerView<H> {
        ViewerView { tracker: self.tracker@, displayed: self.coordinator@ }
    }
}

impl<H> ModelViewer<H> {
    /// A viewer that displays nothing and waits for nothing.
    pub fn new() -> (viewer: Self)
        ensures
            viewer@ == ViewerView::<H>::initial(),
            viewer@.wf(),
    {
        ModelViewer { tracker: LoadRequestTracker::new(), coordinator: SceneSwapCoordinator::new() }
    }

    /// Whether a generation is left for one more request.
    pub fn can_request(&self) -> (b: bool)
        ensures
            b == self@.tracker.can_request(),
    {
        self.tracker.can_request()
    }

    /// Records that the load of `descriptor` has been started under `handle`
    /// and gives it the next generation. The load that was waited for before
    /// is handed back. The displayed scene stays as it is.
    pub fn request(&mut self, descriptor: ModelDescriptor, handle: H) -> (requested: Requested<H>)
        requires
            old(self)@.tracker.can_request(),
        ensures
            requested.generation == old(self)@.tracker.next_generation,
            pending_view(requested.superseded) == old(self)@.tracker.pending,
            final(self)@ == old(self)@.request(descriptor@, handle),
            old(self)@.wf() ==> final(self)@.wf(),
    {
        self.tracker.request(descriptor, handle)
    }

    /// One tick: polls the tracker on what the loader said, then lets the
    /// coordinator act on the answer.
    pub fn tick(&mut self, status: LoaderStatus) -> (outcome: TickOutcome)
        ensures
            final(self)@ == old(self)@.tick(status@),
            outcome@ == old(self)@.tick_outcome(status@),
            old(self)@.wf() ==> final(self)@.wf(),
    {
        proof {
            status.lemma_view_wf();
            if self@.wf() {
                lemma_tick_preserves_wf(self@, status@);
            }
        }
        let polled = self.tracker.poll(status);
        self.coordinator.run(polled)
    }

    /// The load that is waited for, if any.
    pub fn pending(&self) -> (p: Option<&PendingLoad<H>>)
        ensures
            match p {
                Some(load) => self@.tracker.pending == Some(load@),
                None => self@.tracker.pending is None,
            },
    {
        self.tracker.pending()
    }

    /// The displayed scene, if a load has completed yet.
    pub fn displayed(&self) -> (scene: Option<&DisplayedScene>)
        ensures
            match scene {
                Some(s) => self@.displayed == Some(s@),
                None => self@.displayed is None,
            },
    {
        self.coordinator.displayed()
    }

    /// How many top-level objects are live.
    pub fn live_count(&self) -> (n: usize)
        ensures
            n == live_objects(self@.displayed).len(),
    {
        self.coordinator.live_count()
    }
}

/// A request leaves the viewer well formed, and its generation is above
/// every generation handed out before: above the one that was waited for and
/// above the displayed scene's.
pub proof fn lemma_request_preserves_wf<H>(v: ViewerView<H>, descriptor: Seq<char>, handle: H)
    requires
        v.wf(),
        v.tracker.can_request(),
    ensures
        v.request(descriptor, handle).wf(),
        v.request(descriptor, handle).tracker.next_generation > v.tracker.next_generation,
        v.request(descriptor, handle).tracker.pending == Some(
            PendingView { generation: v.tracker.next_generation, descriptor, handle },
        ),
        v.tracker.pending matches Some(p) ==> p.generation < v.tracker.next_generation,
        v.displayed matches Some(s) ==> s.generation < v.tracker.next_generation,
{
    lemma_request_takes_a_fresh_generation(v.tracker, descriptor, handle);
}

/// A tick leaves the viewer well formed and hands out no generation.
pub proof fn lemma_tick_preserves_wf<H>(v: ViewerView<H>, status: StatusView)
    requires
        v.wf(),
        status.wf(),
    ensures
        v.tick(status).wf(),
        v.tick(status).tracker.next_generation == v.tracker.next_generation,
{
}

/// A load that ends under another generation than the one waited for, or
/// while nothing is waited for, has no effect at all: the tick reports
/// nothing and the viewer is as it was.
pub proof fn lemma_stale_resolution_has_no_effect<H>(v: ViewerView<H>, stale: ResolutionView)
    requires
        v.tracker.pending matches Some(p) ==> p.generation != stale.generation,
    ensures
        v.tick(StatusView::Resolved(stale)) == v,
        v.tick_outcome(StatusView::Resolved(stale)) == TickView::Unchanged,
{
}

/// The last request wins. Of two requests made before either load ends, the
/// first load changes nothing, whether it ends before the second or after
/// it and however it ends; the scene comes from the second asset alone.
pub proof fn lemma_last_request_wins<H>(
    v: ViewerView<H>,
    first_descriptor: Seq<char>,
    first_handle: H,
    second_descriptor: Seq<char>,
    second_handle: H,
    first_outcome: OutcomeView,
    second_nodes: Seq<SceneNode>,
)
    requires
        v.wf(),
        v.tracker.can_request(),
        v.request(first_descriptor, first_handle).tracker.can_request(),
    ensures
        ({
            let g1 = v.tracker.next_generation;
            let g2 = v.request(first_descriptor, first_handle).tracker.next_generation;
            let requested = v.request(first_descriptor, first_handle).request(
                second_descriptor,
                second_handle,
            );
            let first_ends = resolved(g1, first_outcome);
            let second_ends = resolved(g2, OutcomeView::Loaded(second_nodes));
            let shown = requested.tick(second_ends);
            &&& g1 < g2
            &&& shown.displayed == Some(SceneView::of_asset(second_nodes, g2))
            &&& shown.tracker.pending is None
            &&& shown.tick(first_ends) == shown
            &&& shown.tick_outcome(first_ends) == TickView::Unchanged
            &&& requested.tick(first_ends) == requested
            &&& requested.tick_outcome(first_ends) == TickView::Unchanged
            &&& requested.tick(first_ends).tick(second_ends) == shown
        }),
{
}

/// After a swap the live objects are those of the new asset, one for each
/// top-level node and no two alike, and no object of the scene before it is
/// among them. In the actions of the swap every object of the old scene is
/// released and every release comes before every spawn.
pub proof fn lemma_swap_leaves_no_prior_object<H>(v: ViewerView<H>, status: StatusView)
    requires
        v.wf(),
        status.wf(),
        v.tick_outcome(status) is Swapped,
    ensures
        ({
            let nodes = status->Resolved_0.outcome->Loaded_0;
            let generation = status->Resolved_0.generation;
            let before = live_objects(v.displayed);
            let after = live_objects(v.tick(status).displayed);
            let actions = v.tick_outcome(status)->Swapped_actions;
            &&& status is Resolved
            &&& status->Resolved_0.outcome is Loaded
            &&& after == instantiate(nodes, generation)
            &&& after.len() == nodes.len()
            &&& after.no_duplicates()
            &&& forall|o: SceneObject| before.contains(o) ==> !after.contains(o)
            &&& actions == swap_actions(before, after)
            &&& actions.len() == before.len() + after.len()
            &&& forall|i: int|
                0 <= i < before.len() ==> #[trigger] actions[i] == SceneAction::Despawn(before[i])
            &&& forall|j: int|
                0 <= j < after.len() ==> #[trigger] actions[before.len() + j] == SceneAction::Spawn(
                    after[j],
                )
        }),
{
    let nodes = status->Resolved_0.outcome->Loaded_0;
    let generation = status->Resolved_0.generation;
    let before = live_objects(v.displayed);
    let after = live_objects(v.tick(status).displayed);
    assert forall|o: SceneObject| before.contains(o) implies !after.contains(o) by {
        if after.contains(o) {
            let i = choose|i: int| 0 <= i < before.len() && before[i] == o;
            let j = choose|j: int| 0 <= j < after.len() && after[j] == o;
            assert(before[i].generation == v.displayed->0.generation);
            assert(after[j].generation == generation);
        }
    }
}

/// A load that fails leaves the displayed scene exactly as it was before
/// the request for it was made, and leaves the viewer ready for the next
/// request.
pub proof fn lemma_failed_load_keeps_scene<H>(
    v: ViewerView<H>,
    descriptor: Seq<char>,
    handle: H,
    error: Seq<char>,
)
    requires
        v.wf(),
        v.tracker.can_request(),
    ensures
        ({
            let generation = v.tracker.next_generation;
            let requested = v.request(descriptor, handle);
            let fails = resolved(generation, OutcomeView::Failed(error));
            &&& requested.displayed == v.displayed
            &&& requested.tick(StatusView::Unresolved) == requested
            &&& requested.tick(fails).displayed == v.displayed
            &&& requested.tick(fails).tracker.pending is None
            &&& requested.tick_outcome(fails) == TickView::LoadFailed { generation, error }
        }),
{
}

/// The displayed scene changes on a swap and on nothing else: it is never
/// released without its replacement.
pub proof fn lemma_scene_changes_only_on_swap<H>(v: ViewerView<H>, status: StatusView)
    ensures
        !(v.tick_outcome(status) is Swapped) ==> v.tick(status).displayed == v.displayed,
        v.tick_outcome(status) is Swapped ==> v.tick(status).displayed is Some,
        v.tick_outcome(status) is Swapped <==> v.tracker.resolves(status)
            && status->Resolved_0.outcome is Loaded,
{
}

} // verus!
