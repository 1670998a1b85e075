//! What holds along every run of the viewer, from its first state through
//! any requests and ticks.

use vstd::prelude::*;
use crate::asset::StatusView;
use crate::scene::TickView;
use crate::viewer::{lemma_request_preserves_wf, lemma_tick_preserves_wf, ViewerView};

verus! {

/// One thing that happens to the viewer.
pub enum Step<H> {
    /// A load is requested.
    Request { descriptor: Seq<char>, handle: H },
    /// A tick passes, on which the loader says `status`.
    Tick { status: StatusView },
}

impl<H> ViewerView<H> {
    /// The step can be taken in this state: a request finds a generation
    /// left, and a tick brings a well-formed status.
    pub open spec fn admits(self, step: Step<H>) -> bool {
        match step {
            Step::Request { .. } => self.tracker.can_request(),
            Step::Tick { status } => status.wf(),
        }
    }

    /// The viewer after the step.
    pub open spec fn after(self, step: Step<H>) -> ViewerView<H> {
        match step {
            Step::Request { descriptor, handle } => self.request(descriptor, handle),
            Step::Tick { status } => self.tick(status),
        }
    }

    /// The viewer after the steps, taken in order.
    pub open spec fn run(self, steps: Seq<Step<H>>) -> ViewerView<H>
        decreases steps.len(),
    {
        if steps.len() == 0 {
            self
        } else {
            self.run(steps.drop_last()).after(steps.last())
        }
    }

    /// Every step can be taken in the state that the steps before it lead to.
    pub open spec fn admits_all(self, steps: Seq<Step<H>>) -> bool {
        forall|i: int| 0 <= i < steps.len() ==> self.run(steps.take(i)).admits(#[trigger] steps[i])
    }
}

/// Every state that a well-formed viewer can reach is well formed, and no
/// run takes a generation back.
pub proof fn lemma_run_keeps_wf<H>(v: ViewerView<H>, steps: Seq<Step<H>>)
    requires
        v.wf(),
        v.admits_all(steps),
    ensures
        v.run(steps).wf(),
        v.run(steps).tracker.next_generation >= v.tracker.next_generation,
    decreases steps.len(),
{
    if steps.len() > 0 {
        let before = steps.drop_last();
        assert forall|i: int| 0 <= i < before.len() implies v.run(before.take(i)).admits(
            #[trigger] before[i],
        ) by {
            assert(before.take(i) =~= steps.take(i));
            assert(before[i] == steps[i]);
        }
        lemma_run_keeps_wf(v, before);
        assert(steps.take(steps.len() - 1) =~= before);
        assert(v.run(before).admits(steps[steps.len() - 1]));
        match steps.last() {
            Step::Request { descriptor, handle } => {
                lemma_request_preserves_wf(v.run(before), descriptor, handle);
            },
            Step::Tick { status } => {
                lemma_tick_preserves_wf(v.run(before), status);
            },
        }
    }
}

/// Every state reachable from the first state of a viewer is well formed.
pub proof fn lemma_every_reachable_state_is_wf<H>(steps: Seq<Step<H>>)
    requires
        ViewerView::<H>::initial().admits_all(steps),
    ensures
        ViewerView::<H>::initial().run(steps).wf(),
{
    lemma_run_keeps_wf(ViewerView::<H>::initial(), steps);
}

/// No generation is handed out twice. A request gets the tracker's
/// `next_generation` of the state in which it is made; of two requests in
/// one run, the later one gets the greater generation, whatever happened in
/// between.
pub proof fn lemma_generations_never_repeat<H>(
    v: ViewerView<H>,
    steps: Seq<Step<H>>,
    earlier: int,
    later: int,
)
    requires
        v.wf(),
        v.admits_all(steps),
        0 <= earlier < later < steps.len(),
        steps[earlier] is Request,
        steps[later] is Request,
    ensures
        v.run(steps.take(earlier)).tracker.next_generation < v.run(
            steps.take(later),
        ).tracker.next_generation,
{
    let first = steps.take(earlier);
    let through = steps.take(earlier + 1);
    let rest = steps.subrange(earlier + 1, later);
    assert forall|i: int| 0 <= i < first.len() implies v.run(first.take(i)).admits(
        #[trigger] first[i],
    ) by {
        assert(first.take(i) =~= steps.take(i));
    }
    lemma_run_keeps_wf(v, first);
    assert(through.drop_last() =~= first);
    assert(through.last() == steps[earlier]);
    assert(v.run(through) == v.run(first).after(steps[earlier]));
    assert(v.run(first).admits(steps[earlier]));
    lemma_request_preserves_wf(
        v.run(first),
        steps[earlier]->descriptor,
        steps[earlier]->handle,
    );
    lemma_run_splits(v, through, rest);
    assert(through + rest =~= steps.take(later));
    assert forall|i: int| 0 <= i < rest.len() implies v.run(through).run(rest.take(i)).admits(
        #[trigger] rest[i],
    ) by {
        lemma_run_splits(v, through, rest.take(i));
        assert(through + rest.take(i) =~= steps.take(earlier + 1 + i));
        assert(rest[i] == steps[earlier + 1 + i]);
    }
    lemma_run_keeps_wf(v.run(through), rest);
}

/// A run can be taken in two parts.
pub proof fn lemma_run_splits<H>(v: ViewerView<H>, first: Seq<Step<H>>, second: Seq<Step<H>>)
    ensures
        v.run(first + second) == v.run(first).run(second),
    decreases second.len(),
{
    if second.len() == 0 {
        assert(first + second =~= first);
    } else {
        assert((first + second).drop_last() =~= first + second.drop_last());
        assert((first + second).last() == second.last());
        lemma_run_splits(v, first, second.drop_last());
    }
}

/// Only the load that was requested last can end with an effect. In every
/// state that a run leads to, a tick that swaps the scene or reports a
/// failure does so for the generation handed out last, however many loads
/// are still at work and in whatever order they end.
pub proof fn lemma_only_the_last_request_takes_effect<H>(
    v: ViewerView<H>,
    steps: Seq<Step<H>>,
    status: StatusView,
)
    requires
        v.wf(),
        v.admits_all(steps),
        v.run(steps).tick_outcome(status) != TickView::Unchanged,
    ensures
        status is Resolved,
        status->Resolved_0.generation + 1 == v.run(steps).tracker.next_generation,
        v.run(steps).tracker.pending is Some,
        v.run(steps).tick(status).tracker.pending is None,
{
    lemma_run_keeps_wf(v, steps);
}

} // verus!
