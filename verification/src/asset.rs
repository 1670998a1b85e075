//! What the asset loader hands to the viewer: a loaded asset or an error,
//! tagged with the generation of the request that it answers.

use vstd::prelude::*;

verus! {

/// One top-level node of a loaded asset's scene graph. The viewer carries
/// the id through and never looks inside it.
#[derive(Debug, Clone, Copy, PartialEq, Eq)]
pub struct SceneNode {
    pub id: u64,
}

/// A decoded asset, as far as the viewer reads it: its top-level nodes, in
/// the asset's order.
#[derive(Debug, Clone, PartialEq, Eq)]
pub struct LoadedAsset {
    pub nodes: Vec<SceneNode>,
}

impl View for LoadedAsset {
    type V = Seq<SceneNode>;

    open spec fn view(&self) -> Seq<SceneNode> {
        self.nodes@
    }
}

/// Why the loader could not produce the asset.
#[derive(Debug, Clone, PartialEq, Eq)]
pub struct LoadError {
    pub message: String,
}

impl View for LoadError {
    type V = Seq<char>;

    open spec fn view(&self) -> Seq<char> {
        self.message@
    }
}

/// How a load ended.
#[derive(Debug, Clone, PartialEq, Eq)]
pub enum LoadOutcome {
    Loaded(LoadedAsset),
    Failed(LoadError),
}

/// How a load ended, as the contracts see it.
pub enum OutcomeView {
    Loaded(Seq<SceneNode>),
    Failed(Seq<char>),
}

impl OutcomeView {
    /// The nodes of a loaded asset can be counted in a `usize`, as those of
    /// every `LoadedAsset` can.
    pub open spec fn wf(self) -> bool {
        self matches OutcomeView::Loaded(nodes) ==> nodes.len() <= usize::MAX
    }
}

impl View for LoadOutcome {
    type V = OutcomeView;

    open spec fn view(&self) -> OutcomeView {
        match self {
            LoadOutcome::Loaded(asset) => OutcomeView::Loaded(asset@),
            LoadOutcome::Failed(error) => OutcomeView::Failed(error@),
        }
    }
}

/// The end of one load, with the generation of the request that started it.
#[derive(Debug, Clone, PartialEq, Eq)]
pub struct Resolution {
    pub generation: u64,
    pub outcome: LoadOutcome,
}

/// The end of one load, as the contracts see it.
pub struct ResolutionView {
    pub generation: u64,
    pub outcome: OutcomeView,
}

impl View for Resolution {
    type V = ResolutionView;

    open spec fn view(&self) -> ResolutionView {
        ResolutionView { generation: self.generation, outcome: self.outcome@ }
    }
}

/// What the loader has to say when it is asked, once per tick.
#[derive(Debug, Clone, PartialEq, Eq)]
pub enum LoaderStatus {
    /// Nothing has ended since the last tick.
    Unresolved,
    /// A load has ended. It need not be the one that is waited for.
    Resolved(Resolution),
}

/// The loader's word for one tick, as the contracts see it.
pub enum StatusView {
    Unresolved,
    Resolved(ResolutionView),
}

impl StatusView {
    /// What ended, if anything did, is well formed.
    pub open spec fn wf(self) -> bool {
        self matches StatusView::Resolved(r) ==> r.outcome.wf()
    }
}

impl LoaderStatus {
    /// The view of every status is well formed.
    pub proof fn lemma_view_wf(&self)
        ensures
            self@.wf(),
    {
        match self {
            LoaderStatus::Resolved(resolution) => match resolution.outcome {
                LoadOutcome::Loaded(asset) => {
                    assert(asset.nodes@.len() == asset.nodes.len());
                },
                LoadOutcome::Failed(_) => {},
            },
            LoaderStatus::Unresolved => {},
        }
    }
}

impl View for LoaderStatus {
    type V = StatusView;

    open spec fn view(&self) -> StatusView {
        match self {
            LoaderStatus::Unresolved => StatusView::Unresolved,
            LoaderStatus::Resolved(resolution) => StatusView::Resolved(resolution@),
        }
    }
}

} // verus!
