//! What one frame draws, and the states one attempt at a frame goes through.

use vstd::prelude::*;
use crate::state::{CameraTargetError, Entity, LookTarget, RenderMode, State};
use crate::swapchain::{Extent, Presenter, PresenterView};

verus! {

/// One draw of the sphere mesh: where, and in what colour.
pub struct PlanetDraw<V, C> {
    pub location: V,
    pub color: C,
}

/// The draws of a frame, one per entity, in the order of the list.
pub open spec fn spec_draws<V: Copy, C: Copy>(entities: Seq<Entity<V, C>>) -> Seq<PlanetDraw<V, C>> {
    Seq::new(entities.len(), |i: int| PlanetDraw { location: entities[i].location, color: entities[i].spec_color() })
}

/// Lists what is drawn for each entity, in the order of the list.
pub fn planet_draws<V: Copy, C: Copy>(entities: &[Entity<V, C>]) -> (r: Vec<PlanetDraw<V, C>>)
    ensures
        r@ == spec_draws(entities@),
{
    let mut draws: Vec<PlanetDraw<V, C>> = Vec::with_capacity(entities.len());
    let mut i: usize = 0;
    while i < entities.len()
        invariant
            i <= entities@.len(),
            draws@ == spec_draws(entities@).take(i as int),
        decreases entities@.len() - i,
    {
        let e = &entities[i];
        draws.push(PlanetDraw { location: e.location, color: e.color() });
        i = i + 1;
        assert(draws@ =~= spec_draws(entities@).take(i as int));
    }
    assert(draws@ =~= spec_draws(entities@));
    draws
}

/// Why a frame cannot be recorded.
#[derive(Clone, Copy, Debug, PartialEq, Eq, Structural)]
pub enum FrameError {
    /// The acquired image index names no framebuffer.
    ImageIndexOutOfRange { index: usize, count: usize },
    /// The camera looks at an entity that is not in the list.
    Camera(CameraTargetError),
}

/// Everything needed to record one frame, apart from the GPU objects, which
/// `Presenter::framebuffer` and `Presenter::pipeline` give for `image_index`
/// and `mode`.
pub struct FramePlan<V, C> {
    pub image_index: usize,
    pub mode: RenderMode,
    pub extent: Extent,
    pub target: LookTarget<V>,
    pub draws: Vec<PlanetDraw<V, C>>,
}

/// The error, if any, of planning a frame for the acquired image `image_index`.
pub open spec fn spec_frame_error<S, I, F, P, V: Copy, C: Copy>(
    p: PresenterView<S, I, F, P>,
    state: State<V, C>,
    image_index: usize,
) -> Option<FrameError> {
    if image_index >= p.framebuffers.len() {
        Some(FrameError::ImageIndexOutOfRange { index: image_index, count: p.framebuffers.len() as usize })
    } else {
        match state.camera.spec_look_at(state.entities@) {
            Ok(_) => None,
            Err(e) => Some(FrameError::Camera(e)),
        }
    }
}

/// A planned frame with the GPU objects it binds.
pub struct FrameView<V, C, F, P> {
    pub image_index: usize,
    pub framebuffer: F,
    pub pipeline: P,
    pub extent: Extent,
    pub target: LookTarget<V>,
    pub draws: Seq<PlanetDraw<V, C>>,
}

/// The frame drawn into the acquired image `image_index` for the snapshot `state`.
pub open spec fn spec_frame<S, I, F, P, V: Copy, C: Copy>(
    p: PresenterView<S, I, F, P>,
    state: State<V, C>,
    image_index: usize,
) -> Result<FrameView<V, C, F, P>, FrameError> {
    match spec_frame_error(p, state, image_index) {
        Some(e) => Err(e),
        None => Ok(FrameView {
            image_index,
            framebuffer: p.framebuffers[image_index as int],
            pipeline: p.pipelines.spec_select(state.render_mode),
            extent: p.extent,
            target: state.camera.spec_look_at(state.entities@)->Ok_0,
            draws: spec_draws(state.entities@),
        }),
    }
}

impl<V, C> FramePlan<V, C> {
    /// The plan with the GPU objects of `p` that it names.
    pub open spec fn view_in<S, I, F, P>(&self, p: PresenterView<S, I, F, P>) -> FrameView<V, C, F, P> {
        FrameView {
            image_index: self.image_index,
            framebuffer: p.framebuffers[self.image_index as int],
            pipeline: p.pipelines.spec_select(self.mode),
            extent: self.extent,
            target: self.target,
            draws: self.draws@,
        }
    }
}

/// Toggling the render mode binds the other pipeline of the set on the next
/// frame and changes nothing else: the frame goes to the same framebuffer,
/// with the same extent, target and draws, and whether it can be drawn at all
/// does not change.
pub proof fn lemma_toggled_mode_rebinds_only_the_pipeline<S, I, F, P, V: Copy, C: Copy>(
    p: PresenterView<S, I, F, P>,
    state: State<V, C>,
    image_index: usize,
)
    ensures
        ({
            let toggled = State { render_mode: state.render_mode.spec_toggled(), ..state };
            match (spec_frame(p, state, image_index), spec_frame(p, toggled, image_index)) {
                (Ok(a), Ok(b)) => {
                    &&& b == (FrameView { pipeline: b.pipeline, ..a })
                    &&& a.pipeline == p.pipelines.spec_select(state.render_mode)
                    &&& b.pipeline == p.pipelines.spec_select(state.render_mode.spec_toggled())
                    &&& state.render_mode is Standard ==> a.pipeline == p.pipelines.standard && b.pipeline == p.pipelines.wireframe
                    &&& state.render_mode is Wireframe ==> a.pipeline == p.pipelines.wireframe && b.pipeline == p.pipelines.standard
                },
                (Err(a), Err(b)) => a == b,
                _ => false,
            }
        }),
{
}

impl<S, I, F, P> Presenter<S, I, F, P> {
    /// Plans the frame for the acquired image `image_index`: the framebuffer of
    /// that image, the pipeline of the snapshot's render mode, the camera's
    /// target, and one draw per entity in list order.
    pub fn plan_frame<V: Copy, C: Copy>(&self, state: &State<V, C>, image_index: usize) -> (r: Result<FramePlan<V, C>, FrameError>)
        ensures
            match spec_frame_error(self@, *state, image_index) {
                Some(e) => r == Err::<FramePlan<V, C>, FrameError>(e),
                None => r is Ok,
            },
            r matches Ok(plan) ==> spec_frame(self@, *state, image_index) == Ok::<FrameView<V, C, F, P>, FrameError>(plan.view_in(self@)),
            r matches Ok(plan) ==> {
                &&& plan.image_index == image_index
                &&& image_index < self@.framebuffers.len()
                &&& plan.mode == state.render_mode
                &&& plan.extent == self@.extent
                &&& state.camera.spec_look_at(state.entities@) == Ok::<LookTarget<V>, CameraTargetError>(plan.target)
                &&& plan.draws@ == spec_draws(state.entities@)
            },
    {
        let count = self.framebuffer_count();
        if image_index >= count {
            return Err(FrameError::ImageIndexOutOfRange { index: image_index, count });
        }
        match state.camera.look_at(state.entities.as_slice()) {
            Err(e) => Err(FrameError::Camera(e)),
            Ok(target) => Ok(FramePlan {
                image_index,
                mode: state.render_mode,
                extent: self.extent(),
                target,
                draws: planet_draws(state.entities.as_slice()),
            }),
        }
    }
}

} // verus!
