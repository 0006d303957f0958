use depth_peel::camera::{KeyCode, ONE};
use depth_peel::frame::{frame_steps, recovery_for, skybox_passes, ClearColor, Draw, FrameStep, PipelineId, Recovery, SurfaceError};
use depth_peel::instance::{instance_buffer_layout, instance_grid, GridPosition, StepMode, VertexFormat};
use depth_peel::state::{InputEvent, MouseButton, State};
use depth_peel::target::Extent;
use depth_peel::target_set::TargetId;

#[test]
fn recovery_per_error() {
    assert_eq!(recovery_for(SurfaceError::Lost), Recovery::Reconfigure);
    assert_eq!(recovery_for(SurfaceError::Outdated), Recovery::Reconfigure);
    assert_eq!(recovery_for(SurfaceError::Timeout), Recovery::Skip);
    assert_eq!(recovery_for(SurfaceError::OutOfMemory), Recovery::Abort);
}

#[test]
fn frame_counter_counts_renders() {
    let mut s = State::new(800, 600);
    assert_eq!(s.frame_count, 0);
    for _ in 0..7 {
        assert!(s.render(Ok(())).is_ok());
    }
    assert_eq!(s.frame_count, 7);
}

#[test]
fn failed_acquire_changes_nothing() {
    let mut s = State::new(800, 600);
    s.render(Ok(())).unwrap();
    assert_eq!(s.render(Err(SurfaceError::Timeout)).err(), Some(SurfaceError::Timeout));
    assert_eq!(s.render(Err(SurfaceError::Lost)).err(), Some(SurfaceError::Lost));
    assert_eq!(s.frame_count, 1);
}

#[test]
fn first_frame_end_to_end() {
    let grid = instance_grid();
    assert_eq!(grid.len(), 100);
    assert_eq!(grid[0], GridPosition { x: -5, y: 0, z: -5 });
    assert_eq!(grid[1], GridPosition { x: -2, y: 0, z: -5 });
    assert_eq!(grid[10], GridPosition { x: -5, y: 0, z: -2 });
    assert_eq!(grid[99], GridPosition { x: 22, y: 0, z: 22 });
    let mut s = State::new(1024, 768);
    let steps = s.render(Ok(())).unwrap();
    assert_eq!(steps.len(), 6);
    assert_eq!(steps.iter().filter(|st| **st == FrameStep::Present).count(), 1);
    assert_eq!(steps[5], FrameStep::Present);
    assert_eq!(steps[4], FrameStep::CopySurfaceToLastFrame);
    let pipelines: Vec<PipelineId> = steps
        .iter()
        .filter_map(|st| match st {
            FrameStep::Pass(p) => Some(p.pipeline),
            _ => None,
        })
        .collect();
    assert_eq!(pipelines, vec![PipelineId::Geometry, PipelineId::DepthFirst, PipelineId::Peel, PipelineId::Composite]);
    match steps[3] {
        FrameStep::Pass(p) => {
            assert!(p.writes_surface);
            assert_eq!(p.clear, ClearColor::Background);
            assert_eq!(p.draw, Draw::ScreenQuad);
            assert!(p.reads.contains(TargetId::PeelDepth));
            assert!(!p.reads.contains(TargetId::FirstDepth));
        },
        _ => panic!("composite pass expected"),
    }
    match (steps[1], steps[2]) {
        (FrameStep::Pass(first), FrameStep::Pass(peel)) => {
            assert_eq!(first.clear, ClearColor::Far);
            assert_eq!(peel.clear, ClearColor::Far);
            assert!(peel.reads.contains(TargetId::FirstDepth));
            assert!(first.writes.contains(TargetId::FirstDepth));
        },
        _ => panic!("depth passes expected"),
    }
    assert_eq!(s.frame_count, 1);
}

#[test]
fn state_resize_and_zero_resize() {
    let mut s = State::new(800, 600);
    let cam = s.camera;
    assert_eq!(s.resize(1280, 720).len(), 7);
    assert_eq!((s.targets.width, s.targets.height), (1280, 720));
    assert_eq!(s.targets.get(TargetId::Albedo).extent, Extent { width: 1280, height: 720, layers: 1 });
    assert!(s.resize(0, 0).is_empty());
    assert_eq!((s.targets.width, s.targets.height), (1280, 720));
    assert_eq!(s.camera, cam);
}

#[test]
fn mouse_motion_only_in_look_mode() {
    let mut s = State::new(800, 600);
    assert!(s.input(InputEvent::MouseMotion { dx: 1000, dy: 0 }));
    assert_eq!(s.controller.rotate_horizontal, 0);
    assert!(s.input(InputEvent::MouseButton { button: MouseButton::Left, pressed: true }));
    assert!(s.input(InputEvent::MouseMotion { dx: 1000, dy: -3 }));
    assert_eq!((s.controller.rotate_horizontal, s.controller.rotate_vertical), (1000, -3));
    assert!(s.input(InputEvent::MouseButton { button: MouseButton::Left, pressed: false }));
    assert!(!s.input(InputEvent::MouseButton { button: MouseButton::Right, pressed: true }));
    assert!(!s.input(InputEvent::Other));
    assert!(s.input(InputEvent::Key { key: KeyCode::W, pressed: true }));
    assert!(!s.input(InputEvent::Key { key: KeyCode::Other, pressed: true }));
    s.update(1_000_000, ONE as i32, 0);
    assert_eq!(s.camera.x, 2_000_000);
    assert_eq!(s.camera.yaw, 2000);
    assert_eq!((s.controller.rotate_horizontal, s.controller.rotate_vertical), (0, 0));
}

#[test]
fn instance_layout_offsets() {
    let l = instance_buffer_layout();
    assert_eq!(l.array_stride, 100);
    assert_eq!(l.step_mode, StepMode::Instance);
    let offsets: Vec<u64> = l.attributes.iter().map(|a| a.offset).collect();
    assert_eq!(offsets, vec![0, 16, 32, 48, 64, 76, 88]);
    let locations: Vec<u32> = l.attributes.iter().map(|a| a.shader_location).collect();
    assert_eq!(locations, vec![5, 6, 7, 8, 9, 10, 11]);
    assert_eq!(l.attributes[3].format, VertexFormat::Float32x4);
    assert_eq!(l.attributes[4].format, VertexFormat::Float32x3);
}

#[test]
fn skybox_faces_drawn_once_each() {
    let passes = skybox_passes();
    let faces: Vec<u32> = passes.iter().map(|p| p.face).collect();
    assert_eq!(faces, vec![0, 1, 2, 3, 4, 5]);
    for p in &passes {
        assert_eq!(p.pipeline, PipelineId::Skybox);
        assert_eq!(p.clear, ClearColor::OpaqueBlack);
        assert_eq!(p.draw, Draw::ScreenQuad);
    }
    let s = State::new(640, 480);
    assert_eq!(s.targets.skybox_size, 2048);
    for step in frame_steps() {
        if let FrameStep::Pass(p) = step {
            assert_ne!(p.pipeline, PipelineId::Skybox);
        }
    }
}
