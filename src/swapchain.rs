//! The presentable-image chain with the framebuffers and pipelines built on it.
//!
//! The GPU objects themselves are opaque type parameters: `S` the swapchain,
//! `I` an image, `F` a framebuffer, `P` a pipeline. What this module keeps is
//! the rule that ties them together: one framebuffer per image, pipelines built
//! for the current extent, and a rebuild that replaces all of them at once or
//! nothing.

use vstd::prelude::*;
use crate::state::RenderMode;

verus! {

/// The size of the presentable images, in pixels.
#[derive(Clone, Copy, Debug, PartialEq, Eq, Structural)]
pub struct Extent {
    pub width: u32,
    pub height: u32,
}

impl Extent {
    pub open spec fn spec_is_presentable(self) -> bool {
        self.width > 0 && self.height > 0
    }

    /// Whether images of this size can be presented: a minimized window
    /// reports a zero extent, which cannot.
    pub fn is_presentable(&self) -> (r: bool)
        ensures
            r == self.spec_is_presentable(),
    {
        self.width > 0 && self.height > 0
    }
}

/// The two pipelines, identical but for the polygon fill mode.
pub struct PipelineSet<P> {
    pub standard: P,
    pub wireframe: P,
}

impl<P> PipelineSet<P> {
    pub open spec fn spec_select(&self, mode: RenderMode) -> P {
        match mode {
            RenderMode::Standard => self.standard,
            RenderMode::Wireframe => self.wireframe,
        }
    }

    /// The pipeline that draws in the given mode.
    pub fn select(&self, mode: RenderMode) -> (r: &P)
        ensures
            *r == self.spec_select(mode),
    {
        match mode {
            RenderMode::Standard => &self.standard,
            RenderMode::Wireframe => &self.wireframe,
        }
    }
}

/// Why a set of swapchain resources was refused or could not be made.
#[derive(Clone, Copy, Debug, PartialEq, Eq, Structural)]
pub enum SwapchainError {
    /// The chain holds no image.
    NoImages,
    /// The framebuffers are not one per image.
    FramebufferCountMismatch { images: usize, framebuffers: usize },
    /// The extent has a zero side.
    UnusableExtent { extent: Extent },
    /// Creating the swapchain failed for another reason than its size.
    CreationFailed,
}

/// What an attempt to create a new swapchain gave back.
pub enum Recreation<S, I, F, P> {
    /// The new chain, its images, and what was built on them.
    Rebuilt { swapchain: S, images: Vec<I>, framebuffers: Vec<F>, pipelines: PipelineSet<P>, extent: Extent },
    /// The surface does not accept the requested size (a minimized window).
    UnsupportedDimensions,
    /// Any other failure.
    Failed,
}

/// What a recreation did.
#[derive(Clone, Copy, Debug, PartialEq, Eq, Structural)]
pub enum RecreateStatus {
    Rebuilt,
    Skipped,
}

/// The check made on the parts of a swapchain set: `None` when they fit.
pub open spec fn spec_parts_error(n_images: nat, n_framebuffers: nat, extent: Extent) -> Option<SwapchainError> {
    if n_images == 0 {
        Some(SwapchainError::NoImages)
    } else if n_images != n_framebuffers {
        Some(SwapchainError::FramebufferCountMismatch { images: n_images as usize, framebuffers: n_framebuffers as usize })
    } else if !extent.spec_is_presentable() {
        Some(SwapchainError::UnusableExtent { extent })
    } else {
        None
    }
}

fn parts_error(n_images: usize, n_framebuffers: usize, extent: Extent) -> (r: Option<SwapchainError>)
    ensures
        r == spec_parts_error(n_images as nat, n_framebuffers as nat, extent),
{
    if n_images == 0 {
        Some(SwapchainError::NoImages)
    } else if n_images != n_framebuffers {
        Some(SwapchainError::FramebufferCountMismatch { images: n_images, framebuffers: n_framebuffers })
    } else if !extent.is_presentable() {
        Some(SwapchainError::UnusableExtent { extent })
    } else {
        None
    }
}

/// The swapchain resources as plain values.
pub struct PresenterView<S, I, F, P> {
    pub swapchain: S,
    pub images: Seq<I>,
    pub framebuffers: Seq<F>,
    pub pipelines: PipelineSet<P>,
    pub extent: Extent,
}

impl<S, I, F, P> PresenterView<S, I, F, P> {
    /// One framebuffer per image, at least one image, a presentable extent.
    pub open spec fn wf(self) -> bool {
        spec_parts_error(self.images.len(), self.framebuffers.len(), self.extent) is None
    }

    /// The set after a recreation that produced `outcome`.
    pub open spec fn after_recreate(self, outcome: Recreation<S, I, F, P>) -> Self {
        match outcome {
            Recreation::Rebuilt { swapchain, images, framebuffers, pipelines, extent } =>
                if spec_parts_error(images@.len(), framebuffers@.len(), extent) is None {
                    PresenterView { swapchain, images: images@, framebuffers: framebuffers@, pipelines, extent }
                } else {
                    self
                },
            _ => self,
        }
    }

    /// The set after recreations that produced `outcomes`, in order.
    pub open spec fn after_recreations(self, outcomes: Seq<Recreation<S, I, F, P>>) -> Self
        decreases outcomes.len(),
    {
        if outcomes.len() == 0 {
            self
        } else {
            self.after_recreate(outcomes[0]).after_recreations(outcomes.drop_first())
        }
    }

    /// What a recreation that produced `outcome` reports.
    pub open spec fn recreate_result(outcome: Recreation<S, I, F, P>) -> Result<RecreateStatus, SwapchainError> {
        match outcome {
            Recreation::Rebuilt { images, framebuffers, extent, .. } =>
                if !extent.spec_is_presentable() {
                    Ok(RecreateStatus::Skipped)
                } else {
                    match spec_parts_error(images@.len(), framebuffers@.len(), extent) {
                        None => Ok(RecreateStatus::Rebuilt),
                        Some(e) => Err(e),
                    }
                },
            Recreation::UnsupportedDimensions => Ok(RecreateStatus::Skipped),
            Recreation::Failed => Err(SwapchainError::CreationFailed),
        }
    }
}

/// The current swapchain with its images, framebuffers and pipelines.
pub struct Presenter<S, I, F, P> {
    swapchain: S,
    images: Vec<I>,
    framebuffers: Vec<F>,
    pipelines: PipelineSet<P>,
    extent: Extent,
}

impl<S, I, F, P> View for Presenter<S, I, F, P> {
    type V = PresenterView<S, I, F, P>;

    closed spec fn view(&self) -> PresenterView<S, I, F, P> {
        PresenterView {
            swapchain: self.swapchain,
            images: self.images@,
            framebuffers: self.framebuffers@,
            pipelines: self.pipelines,
            extent: self.extent,
        }
    }
}

impl<S, I, F, P> Presenter<S, I, F, P> {
    /// Gathers freshly created resources; they must hold one framebuffer per
    /// image, at least one image, and a presentable extent.
    pub fn new(swapchain: S, images: Vec<I>, framebuffers: Vec<F>, pipelines: PipelineSet<P>, extent: Extent) -> (r: Result<Self, SwapchainError>)
        ensures
            match spec_parts_error(images@.len(), framebuffers@.len(), extent) {
                None => r matches Ok(p) && p@ == (PresenterView { swapchain, images: images@, framebuffers: framebuffers@, pipelines, extent }),
                Some(e) => r == Err::<Self, SwapchainError>(e),
            },
            r matches Ok(p) ==> p@.wf(),
    {
        match parts_error(images.len(), framebuffers.len(), extent) {
            None => Ok(Presenter { swapchain, images, framebuffers, pipelines, extent }),
            Some(e) => Err(e),
        }
    }

    /// Installs the outcome of a swapchain recreation. A complete rebuild
    /// replaces everything at once; a size the surface refuses, including a
    /// zero extent, leaves everything as it was and is no error; a failure or
    /// a mismatched set of framebuffers leaves everything as it was and is
    /// reported.
    pub fn recreate(&mut self, outcome: Recreation<S, I, F, P>) -> (r: Result<RecreateStatus, SwapchainError>)
        requires
            old(self)@.wf(),
        ensures
            final(self)@ == old(self)@.after_recreate(outcome),
            r == PresenterView::<S, I, F, P>::recreate_result(outcome),
            final(self)@.wf(),
    {
        match outcome {
            Recreation::Rebuilt { swapchain, images, framebuffers, pipelines, extent } => {
                if !extent.is_presentable() {
                    return Ok(RecreateStatus::Skipped);
                }
                match parts_error(images.len(), framebuffers.len(), extent) {
                    None => {
                        self.swapchain = swapchain;
                        self.images = images;
                        self.framebuffers = framebuffers;
                        self.pipelines = pipelines;
                        self.extent = extent;
                        Ok(RecreateStatus::Rebuilt)
                    },
                    Some(e) => Err(e),
                }
            },
            Recreation::UnsupportedDimensions => Ok(RecreateStatus::Skipped),
            Recreation::Failed => Err(SwapchainError::CreationFailed),
        }
    }

    pub fn extent(&self) -> (r: Extent)
        ensures
            r == self@.extent,
    {
        self.extent
    }

    pub fn image_count(&self) -> (r: usize)
        ensures
            r == self@.images.len(),
    {
        self.images.len()
    }

    pub fn framebuffer_count(&self) -> (r: usize)
        ensures
            r == self@.framebuffers.len(),
    {
        self.framebuffers.len()
    }

    pub fn swapchain(&self) -> (r: &S)
        ensures
            *r == self@.swapchain,
    {
        &self.swapchain
    }

    /// The framebuffer of the image with the given index, if there is one.
    pub fn framebuffer(&self, image_index: usize) -> (r: Option<&F>)
        ensures
            image_index < self@.framebuffers.len() ==> r == Some(&self@.framebuffers[image_index as int]),
            image_index >= self@.framebuffers.len() ==> r is None,
    {
        if image_index < self.framebuffers.len() {
            Some(&self.framebuffers[image_index])
        } else {
            None
        }
    }

    /// The pipeline bound for draws in the given mode.
    pub fn pipeline(&self, mode: RenderMode) -> (r: &P)
        ensures
            *r == self@.pipelines.spec_select(mode),
    {
        self.pipelines.select(mode)
    }
}

/// Whatever recreations happen, in whatever order, the set keeps one
/// framebuffer per swapchain image.
pub proof fn lemma_one_framebuffer_per_image_after_recreations<S, I, F, P>(
    p: PresenterView<S, I, F, P>,
    outcomes: Seq<Recreation<S, I, F, P>>,
)
    requires
        p.wf(),
    ensures
        p.after_recreations(outcomes).wf(),
        p.after_recreations(outcomes).framebuffers.len() == p.after_recreations(outcomes).images.len(),
    decreases outcomes.len(),
{
    if outcomes.len() > 0 {
        lemma_one_framebuffer_per_image_after_recreations(p.after_recreate(outcomes[0]), outcomes.drop_first());
    }
}

/// A recreation for a size the surface refuses, a zero extent among them,
/// changes nothing and is no error.
pub proof fn lemma_zero_extent_changes_nothing<S, I, F, P>(
    p: PresenterView<S, I, F, P>,
    outcome: Recreation<S, I, F, P>,
)
    requires
        outcome is UnsupportedDimensions || (outcome matches Recreation::Rebuilt { extent, .. } && extent == (Extent { width: 0, height: 0 })),
    ensures
        p.after_recreate(outcome) == p,
        PresenterView::<S, I, F, P>::recreate_result(outcome) == Ok::<RecreateStatus, SwapchainError>(RecreateStatus::Skipped),
{
}

} // verus!
