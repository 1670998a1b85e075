//! The load request tracker: at most one load is waited for, and each
//! request gets a generation that no other request ever gets.

use vstd::prelude::*;
use crate::asset::{LoadError, LoadOutcome, LoadedAsset, LoaderStatus, OutcomeView, SceneNode,
    StatusView};
use crate::catalog::ModelDescriptor;

verus! {

/// The load that is waited for.
#[derive(Debug, Clone, PartialEq, Eq)]
pub struct PendingLoad<H> {
    pub generation: u64,
    pub descriptor: ModelDescriptor,
    /// The loader's own handle for the operation. The tracker keeps it and
    /// gives it back; it never looks inside.
    pub handle: H,
}

/// The load that is waited for, as the contracts see it.
pub struct PendingView<H> {
    pub generation: u64,
    pub descriptor: Seq<char>,
    pub handle: H,
}

impl<H> View for PendingLoad<H> {
    type V = PendingView<H>;

    open spec fn view(&self) -> PendingView<H> {
        PendingView {
            generation: self.generation,
            descriptor: self.descriptor@,
            handle: self.handle,
        }
    }
}

/// What a request hands back.
#[derive(Debug, Clone, PartialEq, Eq)]
pub struct Requested<H> {
    /// The generation of the new load.
    pub generation: u64,
    /// The load that was waited for until now, if there was one. Nothing
    /// waits for it any more; its handle is given back so that the loader
    /// can be told to drop the work.
    pub superseded: Option<PendingLoad<H>>,
}

/// The view of an optional pending load.
pub open spec fn pending_view<H>(pending: Option<PendingLoad<H>>) -> Option<PendingView<H>> {
    match pending {
        Some(p) => Some(p@),
        None => None,
    }
}

/// What one poll of the tracker reports.
#[derive(Debug, Clone, PartialEq, Eq)]
pub enum PollResult {
    /// No load is waited for.
    Idle,
    /// A load is waited for and has not ended.
    Loading,
    /// The load of this generation has ended with this asset.
    Ready(LoadedAsset, u64),
    /// The load of this generation has ended with this error.
    Failed(LoadError, u64),
}

/// What one poll reports, as the contracts see it.
pub enum PollView {
    Idle,
    Loading,
    Ready(Seq<SceneNode>, u64),
    Failed(Seq<char>, u64),
}

impl View for PollResult {
    type V = PollView;

    open spec fn view(&self) -> PollView {
        match self {
            PollResult::Idle => PollView::Idle,
            PollResult::Loading => PollView::Loading,
            PollResult::Ready(asset, generation) => PollView::Ready(asset@, *generation),
            PollResult::Failed(error, generation) => PollView::Failed(error@, *generation),
        }
    }
}

/// The first generation that a tracker hands out.
pub const FIRST_GENERATION: u64 = 1;

/// The tracker as the contracts see it.
pub struct TrackerView<H> {
    /// The generation that the next request will get.
    pub next_generation: u64,
    pub pending: Option<PendingView<H>>,
}

impl<H> TrackerView<H> {
    /// Every generation handed out so far lies below `next_generation`, and
    /// the load that is waited for is the one that was requested last.
    pub open spec fn wf(self) -> bool {
        &&& self.next_generation >= FIRST_GENERATION
        &&& self.pending matches Some(p) ==> FIRST_GENERATION <= p.generation && p.generation + 1
            == self.next_generation
    }

    /// A generation is left for one more request.
    pub open spec fn can_request(self) -> bool {
        self.next_generation < u64::MAX
    }

    /// The tracker after a request: the new load is the pending one,
    /// whatever was pending before.
    pub open spec fn request(self, descriptor: Seq<char>, handle: H) -> TrackerView<H> {
        TrackerView {
            next_generation: (self.next_generation + 1) as u64,
            pending: Some(
                PendingView { generation: self.next_generation, descriptor, handle },
            ),
        }
    }

    /// The status ends the pending load: a load has ended, one is waited
    /// for, and the generations agree.
    pub open spec fn resolves(self, status: StatusView) -> bool {
        &&& self.pending matches Some(p)
        &&& status matches StatusView::Resolved(r)
        &&& r.generation == p.generation
    }

    /// What a poll reports on the given status.
    pub open spec fn poll_result(self, status: StatusView) -> PollView {
        match self.pending {
            None => PollView::Idle,
            Some(p) => match status {
                StatusView::Unresolved => PollView::Loading,
                StatusView::Resolved(r) => if r.generation == p.generation {
                    match r.outcome {
                        OutcomeView::Loaded(nodes) => PollView::Ready(nodes, r.generation),
                        OutcomeView::Failed(error) => PollView::Failed(error, r.generation),
                    }
                } else {
                    PollView::Loading
                },
            },
        }
    }

    /// The tracker after a poll on the given status.
    pub open spec fn after_poll(self, status: StatusView) -> TrackerView<H> {
        if self.resolves(status) {
            TrackerView { next_generation: self.next_generation, pending: None }
        } else {
            self
        }
    }
}

/// A request leaves the tracker well formed; its load is the one waited for,
/// and its generation is above every generation handed out before.
pub proof fn lemma_request_takes_a_fresh_generation<H>(
    t: TrackerView<H>,
    descriptor: Seq<char>,
    handle: H,
)
    requires
        t.wf(),
        t.can_request(),
    ensures
        t.request(descriptor, handle).wf(),
        t.request(descriptor, handle).next_generation == t.next_generation + 1,
        t.request(descriptor, handle).pending == Some(
            PendingView { generation: t.next_generation, descriptor, handle },
        ),
        t.pending matches Some(p) ==> p.generation < t.next_generation,
{
}

/// A poll hands out no generation. It reports an end only of the load that
/// is waited for, which is the one requested last, under that load's
/// generation, and then waits for nothing: whatever the loader says next,
/// the same end is not reported again.
pub proof fn lemma_poll_reports_an_end_once<H>(
    t: TrackerView<H>,
    status: StatusView,
    next: StatusView,
)
    ensures
        t.after_poll(status).next_generation == t.next_generation,
        t.wf() ==> t.after_poll(status).wf(),
        t.poll_result(status) is Ready || t.poll_result(status) is Failed <==> t.resolves(status),
        t.wf() && t.resolves(status) ==> status->Resolved_0.generation + 1 == t.next_generation,
        t.resolves(status) ==> {
            &&& t.after_poll(status).pending is None
            &&& t.after_poll(status).poll_result(next) == PollView::Idle
            &&& t.poll_result(status) matches PollView::Ready(_, g) ==> g == t.pending->0.generation
            &&& t.poll_result(status) matches PollView::Failed(_, g) ==> g
                == t.pending->0.generation
        },
        !t.resolves(status) ==> t.after_poll(status) == t,
{
}

/// Holds the one load that is waited for.
#[derive(Debug)]
pub struct LoadRequestTracker<H> {
    next_generation: u64,
    pending: Option<PendingLoad<H>>,
}

impl<H> View for LoadRequestTracker<H> {
    type V = TrackerView<H>;

    closed spec fn view(&self) -> TrackerView<H> {
        TrackerView {
            next_generation: self.next_generation,
            pending: pending_view(self.pending),
        }
    }
}

impl<H> LoadRequestTracker<H> {
    /// A tracker that waits for nothing and has handed out no generation.
    pub fn new() -> (tracker: Self)
        ensures
            tracker@ == (TrackerView::<H> { next_generation: FIRST_GENERATION, pending: None }),
            tracker@.wf(),
    {
        LoadRequestTracker { next_generation: FIRST_GENERATION, pending: None }
    }

    /// Whether a generation is left for one more request.
    pub fn can_request(&self) -> (b: bool)
        ensures
            b == self@.can_request(),
    {
        self.next_generation < u64::MAX
    }

    /// Records that the load of `descriptor` has been started under
    /// `handle`, and gives it the next generation. The load that was waited
    /// for before, if any, is handed back and no longer waited for: when it
    /// ends, `poll` drops it.
    pub fn request(&mut self, descriptor: ModelDescriptor, handle: H) -> (requested: Requested<H>)
        requires
            old(self)@.can_request(),
        ensures
            requested.generation == old(self)@.next_generation,
            pending_view(requested.superseded) == old(self)@.pending,
            final(self)@ == old(self)@.request(descriptor@, handle),
            old(self)@.wf() ==> final(self)@.wf(),
    {
        let generation = self.next_generation;
        let superseded = self.pending.take();
        self.pending = Some(PendingLoad { generation, descriptor, handle });
        self.next_generation = generation + 1;
        Requested { generation, superseded }
    }

    /// Reports where the pending load stands, given what the loader said
    /// this tick. A load that ended under another generation than the pending
    /// one changes nothing. Once `Ready` or `Failed` is reported the tracker
    /// waits for nothing, so the same end is never reported twice.
    pub fn poll(&mut self, status: LoaderStatus) -> (result: PollResult)
        ensures
            result@ == old(self)@.poll_result(status@),
            final(self)@ == old(self)@.after_poll(status@),
            old(self)@.wf() ==> final(self)@.wf(),
    {
        let waited: Option<u64> = match &self.pending {
            Some(p) => Some(p.generation),
            None => None,
        };
        match waited {
            None => PollResult::Idle,
            Some(generation) => match status {
                LoaderStatus::Unresolved => PollResult::Loading,
                LoaderStatus::Resolved(resolution) => {
                    if resolution.generation == generation {
                        self.pending = None;
                        match resolution.outcome {
                            LoadOutcome::Loaded(asset) => PollResult::Ready(asset, generation),
                            LoadOutcome::Failed(error) => PollResult::Failed(error, generation),
                        }
                    } else {
                        PollResult::Loading
                    }
                },
            },
        }
    }

    /// The load that is waited for, if any.
    pub fn pending(&self) -> (p: Option<&PendingLoad<H>>)
        ensures
            match p {
                Some(load) => self@.pending == Some(load@),
                None => self@.pending is None,
            },
    {
        self.pending.as_ref()
    }

    /// The generation that the next request will get.
    pub fn next_generation(&self) -> (g: u64)
        ensures
            g == self@.next_generation,
    {
        self.next_generation
    }
}

} // verus!
