use incipisphere::frame::{planet_draws, FrameError};
use incipisphere::state::{
    Camera, CameraLookAt, CameraTargetError, Entity, EntityType, LookTarget, RenderMode, State,
};
use incipisphere::swapchain::{
    Extent, PipelineSet, Presenter, RecreateStatus, Recreation, SwapchainError,
};

type V = [i64; 3];
type Chain = Presenter<u32, u32, String, &'static str>;
type Outcome = Recreation<u32, u32, String, &'static str>;

fn pipelines(generation: u32) -> PipelineSet<&'static str> {
    if generation % 2 == 0 {
        PipelineSet { standard: "solid-even", wireframe: "lines-even" }
    } else {
        PipelineSet { standard: "solid-odd", wireframe: "lines-odd" }
    }
}

fn framebuffers(chain: u32, n: u32) -> Vec<String> {
    (0..n).map(|i| format!("fb{}-{}", chain, i)).collect()
}

fn rebuilt(chain: u32, n: u32, width: u32, height: u32) -> Outcome {
    Recreation::Rebuilt {
        swapchain: chain,
        images: (0..n).collect(),
        framebuffers: framebuffers(chain, n),
        pipelines: pipelines(chain),
        extent: Extent { width, height },
    }
}

fn chain() -> Chain {
    Presenter::new(0, vec![0, 1, 2], framebuffers(0, 3), pipelines(0), Extent { width: 1024, height: 768 })
        .ok()
        .unwrap()
}

fn scene(look_at: CameraLookAt<V>, mode: RenderMode) -> State<V, u32> {
    State {
        camera: Camera { look_at, up: [0, -1, 0], eye: [0, 0, -8] },
        render_mode: mode,
        run: true,
        window_resized: false,
        entities: vec![
            Entity { location: [0, 0, 0], ty: EntityType::BasicPlanet { color: 10 } },
            Entity { location: [-5, 0, 0], ty: EntityType::BasicPlanet { color: 20 } },
            Entity { location: [0, 0, 5], ty: EntityType::BasicPlanet { color: 30 } },
        ],
    }
}

fn snapshot(p: &Chain) -> (u32, usize, usize, Extent, Option<String>, &'static str, &'static str) {
    (
        *p.swapchain(),
        p.image_count(),
        p.framebuffer_count(),
        p.extent(),
        p.framebuffer(0).cloned(),
        *p.pipeline(RenderMode::Standard),
        *p.pipeline(RenderMode::Wireframe),
    )
}

#[test]
fn extent_with_a_zero_side_is_not_presentable() {
    assert!(Extent { width: 1, height: 1 }.is_presentable());
    assert!(!Extent { width: 0, height: 0 }.is_presentable());
    assert!(!Extent { width: 0, height: 600 }.is_presentable());
    assert!(!Extent { width: 800, height: 0 }.is_presentable());
}

#[test]
fn pipeline_set_selects_by_mode() {
    let set = PipelineSet { standard: 1u8, wireframe: 2u8 };
    assert_eq!(*set.select(RenderMode::Standard), 1);
    assert_eq!(*set.select(RenderMode::Wireframe), 2);
}

#[test]
fn new_accepts_one_framebuffer_per_image() {
    let p = chain();
    assert_eq!(p.image_count(), 3);
    assert_eq!(p.framebuffer_count(), 3);
    assert_eq!(p.extent(), Extent { width: 1024, height: 768 });
    assert_eq!(p.framebuffer(2).cloned(), Some("fb0-2".to_string()));
    assert_eq!(p.framebuffer(3), None);
}

#[test]
fn new_refuses_mismatched_or_empty_or_zero_sized_sets() {
    let e = Extent { width: 640, height: 480 };
    let r: Result<Chain, SwapchainError> = Presenter::new(0, vec![0, 1], framebuffers(0, 3), pipelines(0), e);
    assert_eq!(r.err(), Some(SwapchainError::FramebufferCountMismatch { images: 2, framebuffers: 3 }));
    let r: Result<Chain, SwapchainError> = Presenter::new(0, vec![], vec![], pipelines(0), e);
    assert_eq!(r.err(), Some(SwapchainError::NoImages));
    let z = Extent { width: 0, height: 0 };
    let r: Result<Chain, SwapchainError> = Presenter::new(0, vec![0], framebuffers(0, 1), pipelines(0), z);
    assert_eq!(r.err(), Some(SwapchainError::UnusableExtent { extent: z }));
}

#[test]
fn resizes_keep_one_framebuffer_per_image() {
    let mut p = chain();
    let sizes = [(800u32, 600u32, 2u32), (1920, 1080, 4), (1, 1, 1), (333, 777, 3)];
    for (k, (w, h, n)) in sizes.iter().enumerate() {
        let id = k as u32 + 1;
        assert_eq!(p.recreate(rebuilt(id, *n, *w, *h)), Ok(RecreateStatus::Rebuilt));
        assert_eq!(p.framebuffer_count(), p.image_count());
        assert_eq!(p.image_count(), *n as usize);
        assert_eq!(p.extent(), Extent { width: *w, height: *h });
        assert_eq!(*p.swapchain(), id);
        assert_eq!(p.framebuffer(0).cloned(), Some(format!("fb{}-0", id)));
        assert_eq!(*p.pipeline(RenderMode::Standard), pipelines(id).standard);
    }
}

#[test]
fn zero_extent_recreation_is_a_soft_skip() {
    let mut p = chain();
    let before = snapshot(&p);
    assert_eq!(p.recreate(rebuilt(9, 3, 0, 0)), Ok(RecreateStatus::Skipped));
    assert_eq!(snapshot(&p), before);
    assert_eq!(p.recreate(Recreation::UnsupportedDimensions), Ok(RecreateStatus::Skipped));
    assert_eq!(snapshot(&p), before);
}

#[test]
fn failed_or_mismatched_recreation_is_reported_and_changes_nothing() {
    let mut p = chain();
    let before = snapshot(&p);
    assert_eq!(p.recreate(Recreation::Failed), Err(SwapchainError::CreationFailed));
    assert_eq!(snapshot(&p), before);
    let odd = Recreation::Rebuilt {
        swapchain: 5,
        images: vec![0, 1, 2, 3],
        framebuffers: framebuffers(5, 2),
        pipelines: pipelines(5),
        extent: Extent { width: 10, height: 10 },
    };
    assert_eq!(p.recreate(odd), Err(SwapchainError::FramebufferCountMismatch { images: 4, framebuffers: 2 }));
    assert_eq!(snapshot(&p), before);
    let empty = Recreation::Rebuilt {
        swapchain: 6,
        images: vec![],
        framebuffers: vec![],
        pipelines: pipelines(6),
        extent: Extent { width: 10, height: 10 },
    };
    assert_eq!(p.recreate(empty), Err(SwapchainError::NoImages));
    assert_eq!(snapshot(&p), before);
}

#[test]
fn planet_draws_follow_the_entity_list() {
    let s = scene(CameraLookAt::Dir([0, 0, 1]), RenderMode::Standard);
    let d = planet_draws(&s.entities);
    assert_eq!(d.len(), 3);
    assert_eq!((d[0].location, d[0].color), ([0, 0, 0], 10));
    assert_eq!((d[1].location, d[1].color), ([-5, 0, 0], 20));
    assert_eq!((d[2].location, d[2].color), ([0, 0, 5], 30));
    let none: Vec<Entity<V, u32>> = Vec::new();
    assert!(planet_draws(&none).is_empty());
}

#[test]
fn plan_names_image_mode_extent_target_and_draws() {
    let p = chain();
    let s = scene(CameraLookAt::Entity(2), RenderMode::Wireframe);
    let plan = p.plan_frame(&s, 1).ok().unwrap();
    assert_eq!(plan.image_index, 1);
    assert_eq!(plan.mode, RenderMode::Wireframe);
    assert_eq!(plan.extent, Extent { width: 1024, height: 768 });
    assert!(matches!(plan.target, LookTarget::Point([0, 0, 5])));
    assert_eq!(plan.draws.len(), 3);
    assert_eq!(plan.draws[1].color, 20);
    assert_eq!(*p.pipeline(plan.mode), "lines-even");
    assert_eq!(p.framebuffer(plan.image_index).cloned(), Some("fb0-1".to_string()));
}

#[test]
fn plan_refuses_an_unknown_image_or_a_missing_target() {
    let p = chain();
    let s = scene(CameraLookAt::Dir([0, 0, 1]), RenderMode::Standard);
    assert_eq!(p.plan_frame(&s, 3).err(), Some(FrameError::ImageIndexOutOfRange { index: 3, count: 3 }));
    let s = scene(CameraLookAt::Entity(7), RenderMode::Standard);
    assert_eq!(
        p.plan_frame(&s, 0).err(),
        Some(FrameError::Camera(CameraTargetError::IndexOutOfBounds { index: 7, len: 3 }))
    );
}

#[test]
fn toggling_mode_binds_the_other_pipeline_without_rebuilding() {
    let p = chain();
    let before = snapshot(&p);
    let mut s = scene(CameraLookAt::Dir([0, 0, 1]), RenderMode::Standard);
    let a = p.plan_frame(&s, 2).ok().unwrap();
    s.render_mode = s.render_mode.toggled();
    let b = p.plan_frame(&s, 2).ok().unwrap();
    assert_eq!(*p.pipeline(a.mode), "solid-even");
    assert_eq!(*p.pipeline(b.mode), "lines-even");
    assert_eq!(a.image_index, b.image_index);
    assert_eq!(a.extent, b.extent);
    assert_eq!(a.draws.len(), b.draws.len());
    assert_eq!(snapshot(&p), before);
}
