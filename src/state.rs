//! The per-tick scene snapshot: camera, entities and render mode.

use vstd::prelude::*;

verus! {

/// Which pipeline every draw of a frame is recorded with.
#[derive(Clone, Copy, Debug, PartialEq, Eq, Structural)]
pub enum RenderMode {
    Standard,
    Wireframe,
}

impl RenderMode {
    pub open spec fn spec_toggled(self) -> RenderMode {
        match self {
            RenderMode::Standard => RenderMode::Wireframe,
            RenderMode::Wireframe => RenderMode::Standard,
        }
    }

    /// The other render mode.
    pub fn toggled(self) -> (r: RenderMode)
        ensures
            r == self.spec_toggled(),
            r != self,
    {
        match self {
            RenderMode::Standard => RenderMode::Wireframe,
            RenderMode::Wireframe => RenderMode::Standard,
        }
    }
}

/// What kind of body an entity is, with what it is drawn in.
pub enum EntityType<C> {
    BasicPlanet { color: C },
}

/// One body of the scene, at a location given as a vector of type `V`.
pub struct Entity<V, C> {
    pub location: V,
    pub ty: EntityType<C>,
}

impl<V: Copy, C: Copy> Entity<V, C> {
    pub open spec fn spec_color(&self) -> C {
        match self.ty {
            EntityType::BasicPlanet { color } => color,
        }
    }

    /// The colour the entity is drawn in.
    pub fn color(&self) -> (r: C)
        ensures
            r == self.spec_color(),
    {
        match &self.ty {
            EntityType::BasicPlanet { color } => *color,
        }
    }
}

/// Where the camera looks: along a direction from the eye, or at an entity.
pub enum CameraLookAt<V> {
    Dir(V),
    Entity(usize),
}

pub struct Camera<V> {
    pub look_at: CameraLookAt<V>,
    pub up: V,
    pub eye: V,
}

/// The point a camera looks at, once resolved against the entity list.
pub enum LookTarget<V> {
    /// The point `eye + dir`.
    FromEye { eye: V, dir: V },
    /// The point itself.
    Point(V),
}

/// A camera that names an entity which is not in the list.
#[derive(Clone, Copy, Debug, PartialEq, Eq, Structural)]
pub enum CameraTargetError {
    IndexOutOfBounds { index: usize, len: usize },
}

impl<V: Copy> Camera<V> {
    pub open spec fn spec_look_at<C>(&self, entities: Seq<Entity<V, C>>) -> Result<
        LookTarget<V>,
        CameraTargetError,
    > {
        match self.look_at {
            CameraLookAt::Dir(dir) => Ok(LookTarget::FromEye { eye: self.eye, dir }),
            CameraLookAt::Entity(index) => if index < entities.len() {
                Ok(LookTarget::Point(entities[index as int].location))
            } else {
                Err(CameraTargetError::IndexOutOfBounds { index, len: entities.len() as usize })
            },
        }
    }

    /// Resolves the camera's target: `eye + dir` for a direction, the
    /// location of the entity for an index, which must lie in the list.
    pub fn look_at<C>(&self, entities: &[Entity<V, C>]) -> (r: Result<
        LookTarget<V>,
        CameraTargetError,
    >)
        ensures
            r == self.spec_look_at(entities@),
    {
        match &self.look_at {
            CameraLookAt::Dir(dir) => Ok(LookTarget::FromEye { eye: self.eye, dir: *dir }),
            CameraLookAt::Entity(index) => {
                let index = *index;
                if index < entities.len() {
                    Ok(LookTarget::Point(entities[index].location))
                } else {
                    Err(CameraTargetError::IndexOutOfBounds { index, len: entities.len() })
                }
            },
        }
    }
}

/// The snapshot of the scene that one tick hands to the renderer.
pub struct State<V, C> {
    pub camera: Camera<V>,
    pub render_mode: RenderMode,
    pub run: bool,
    pub window_resized: bool,
    pub entities: Vec<Entity<V, C>>,
}

/// What one tick of input asks of the snapshot, apart from camera motion.
pub struct TickInput<V> {
    /// The window was resized since the last tick.
    pub window_resized: bool,
    /// The key that switches between solid and wireframe drawing was pressed.
    pub toggle_render_mode: bool,
    /// A new target for the camera, when one was picked.
    pub retarget: Option<CameraLookAt<V>>,
}

impl<V, C> State<V, C> {
    /// Applies one tick of input: records whether the window was resized,
    /// switches the render mode when asked, and retargets the camera when a
    /// new target was picked. Everything else stays as it was.
    pub fn update(&mut self, input: TickInput<V>)
        ensures
            final(self).window_resized == input.window_resized,
            final(self).render_mode == (if input.toggle_render_mode {
                old(self).render_mode.spec_toggled()
            } else {
                old(self).render_mode
            }),
            final(self).camera.look_at == (match input.retarget {
                Some(l) => l,
                None => old(self).camera.look_at,
            }),
            final(self).camera.eye == old(self).camera.eye,
            final(self).camera.up == old(self).camera.up,
            final(self).run == old(self).run,
            final(self).entities@ == old(self).entities@,
    {
        self.window_resized = input.window_resized;
        if input.toggle_render_mode {
            self.render_mode = self.render_mode.toggled();
        }
        if let Some(l) = input.retarget {
            self.camera.look_at = l;
        }
    }
}

} // verus!
