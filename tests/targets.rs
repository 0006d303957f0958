use depth_peel::binding::{
    check_bind_group, composite_bind_group_layout, material_bind_group_layout, peel_bind_group_layout, skybox_bind_group_layout, storage_bind_group_layout,
    uniform_bind_group_layout, BindingKind, LayoutMismatch, Resource,
};
use depth_peel::target::{Extent, Filter, PixelFormat, ViewDim};
use depth_peel::target_set::{TargetId, TargetSet, SKYBOX_SIZE};

#[test]
fn new_set_matches_surface() {
    let s = TargetSet::new(640, 480);
    assert_eq!((s.width, s.height), (640, 480));
    assert_eq!(s.targets.len(), 8);
    assert_eq!(s.get(TargetId::Depth).format, PixelFormat::Depth32Float);
    assert_eq!(s.get(TargetId::Skybox).extent, Extent { width: SKYBOX_SIZE, height: SKYBOX_SIZE, layers: 6 });
    let z = TargetSet::new(0, 0);
    assert_eq!((z.width, z.height), (1, 1));
}

#[test]
fn resize_reallocates_tracking_targets() {
    let mut s = TargetSet::new(640, 480);
    let redone = s.resize(1920, 1080);
    assert_eq!(
        redone,
        vec![
            TargetId::Depth,
            TargetId::FirstDepth,
            TargetId::PeelDepth,
            TargetId::Albedo,
            TargetId::Position,
            TargetId::Normal,
            TargetId::LastFrame,
        ]
    );
    for n in &s.targets {
        if n.target.tracks_surface {
            assert_eq!(n.target.extent, Extent { width: 1920, height: 1080, layers: 1 });
        } else {
            assert_eq!(n.target.extent, Extent { width: 2048, height: 2048, layers: 6 });
        }
    }
    let group = s.composite_bind_group();
    assert_eq!(check_bind_group(&composite_bind_group_layout(), &group), Ok(()));
    assert_eq!(check_bind_group(&peel_bind_group_layout(), &s.peel_bind_group()), Ok(()));
}

#[test]
fn zero_resize_is_noop() {
    let mut s = TargetSet::new(640, 480);
    let before = s.targets.clone();
    assert!(s.resize(0, 480).is_empty());
    assert!(s.resize(640, 0).is_empty());
    assert_eq!((s.width, s.height), (640, 480));
    assert_eq!(s.targets, before);
}

#[test]
fn layout_check_reports_mismatch() {
    let layout = composite_bind_group_layout();
    assert_eq!(layout.len(), 12);
    let short = vec![Resource::UniformBuffer];
    assert_eq!(
        check_bind_group(&layout, &short),
        Err(LayoutMismatch::Count { expected: 12, found: 1 })
    );
    let s = TargetSet::new(8, 8);
    let mut group = s.composite_bind_group();
    group[10] = Resource::TextureView { view: ViewDim::Cube, format: PixelFormat::Rgba32Float };
    assert_eq!(check_bind_group(&layout, &group), Err(LayoutMismatch::Incompatible { binding: 10 }));
    let mut g2 = s.composite_bind_group();
    g2[1] = Resource::Sampler { mag: Filter::Linear, min: Filter::Nearest };
    assert_eq!(check_bind_group(&layout, &g2), Err(LayoutMismatch::Incompatible { binding: 1 }));
}

#[test]
fn small_layouts() {
    assert_eq!(uniform_bind_group_layout(), vec![BindingKind::UniformBuffer]);
    assert_eq!(storage_bind_group_layout(), vec![BindingKind::StorageBuffer]);
    assert_eq!(
        material_bind_group_layout(),
        vec![BindingKind::Texture { view: ViewDim::D2, filterable: true }, BindingKind::Sampler { filtering: true }]
    );
    let sky = skybox_bind_group_layout();
    assert_eq!(sky.len(), 3);
    assert_eq!(
        check_bind_group(&sky, &vec![
            Resource::TextureView { view: ViewDim::Cube, format: PixelFormat::Rgba8UnormSrgb },
            Resource::Sampler { mag: Filter::Linear, min: Filter::Nearest },
            Resource::UniformBuffer,
        ]),
        Ok(())
    );
    assert_eq!(
        check_bind_group(&sky, &vec![
            Resource::TextureView { view: ViewDim::D2, format: PixelFormat::Rgba8UnormSrgb },
            Resource::Sampler { mag: Filter::Nearest, min: Filter::Nearest },
            Resource::UniformBuffer,
        ]),
        Err(LayoutMismatch::Incompatible { binding: 0 })
    );
}
