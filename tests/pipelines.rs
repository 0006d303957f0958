use depth_peel::binding::{check_bind_group, sampler_resource, view_resource, BindingKind, LayoutMismatch};
use depth_peel::frame::{frame_steps, Draw, FrameStep, PipelineId};
use depth_peel::pipeline::{group_bind_layout, pass_color_outputs, Blend, Cull, GroupId, Output, PipelineDesc};
use depth_peel::target::PixelFormat;
use depth_peel::target_set::{TargetId, TargetSet};

#[test]
fn geometry_pipeline_writes_gbuffer() {
    let d = PipelineDesc::for_pipeline(PipelineId::Geometry);
    let formats: Vec<PixelFormat> = d.color_targets.iter().map(|t| t.format).collect();
    assert_eq!(formats, vec![PixelFormat::Surface, PixelFormat::Rgba32Float, PixelFormat::Rgba32Float]);
    assert_eq!(d.depth.map(|t| t.format), Some(PixelFormat::Depth32Float));
    assert_eq!(d.cull, Cull::Back);
    assert_eq!(d.groups, vec![GroupId::Material, GroupId::Camera]);
    assert_eq!(d.draw, Draw::Instances);
}

#[test]
fn depth_passes_blend_min_without_depth_test() {
    for id in [PipelineId::DepthFirst, PipelineId::Peel] {
        let d = PipelineDesc::for_pipeline(id);
        assert_eq!(d.color_targets.len(), 1);
        assert_eq!(d.color_targets[0].format, PixelFormat::Rgba16Float);
        assert_eq!(d.color_targets[0].blend, Blend::Min);
        assert!(d.depth.is_none());
        assert_eq!(d.cull, Cull::Off);
    }
    assert_eq!(PipelineDesc::for_pipeline(PipelineId::Peel).groups, vec![GroupId::Camera, GroupId::Peel]);
}

#[test]
fn composite_and_skybox_draw_quad() {
    let c = PipelineDesc::for_pipeline(PipelineId::Composite);
    assert_eq!(c.draw, Draw::ScreenQuad);
    assert_eq!(c.groups, vec![GroupId::Composite, GroupId::Camera, GroupId::Utils, GroupId::Lights]);
    assert_eq!(c.color_targets[0].blend, Blend::Replace);
    let s = PipelineDesc::for_pipeline(PipelineId::Skybox);
    assert_eq!(s.groups, vec![GroupId::Skybox]);
    assert_eq!(s.color_targets[0].format, PixelFormat::Surface);
}

#[test]
fn pass_outputs_match_pipeline_targets() {
    let set = TargetSet::new(320, 200);
    let expected = [
        vec![Output::Target(TargetId::Albedo), Output::Target(TargetId::Position), Output::Target(TargetId::Normal)],
        vec![Output::Target(TargetId::FirstDepth)],
        vec![Output::Target(TargetId::PeelDepth)],
        vec![Output::Surface],
    ];
    let mut k = 0;
    for step in frame_steps() {
        if let FrameStep::Pass(p) = step {
            let outs = pass_color_outputs(&p);
            assert_eq!(outs, expected[k]);
            let desc = PipelineDesc::for_pipeline(p.pipeline);
            for (o, t) in outs.iter().zip(desc.color_targets.iter()) {
                let f = match o {
                    Output::Target(id) => set.get(*id).format,
                    Output::Surface => PixelFormat::Surface,
                };
                assert_eq!(f, t.format);
            }
            k += 1;
        }
    }
    assert_eq!(k, 4);
}

#[test]
fn group_layouts_accept_their_groups() {
    assert_eq!(group_bind_layout(GroupId::Camera), vec![BindingKind::UniformBuffer]);
    assert_eq!(group_bind_layout(GroupId::Lights), vec![BindingKind::StorageBuffer]);
    assert_eq!(group_bind_layout(GroupId::Composite).len(), 12);
    let set = TargetSet::new(64, 32);
    assert_eq!(check_bind_group(&group_bind_layout(GroupId::Peel), &set.peel_bind_group()), Ok(()));
    // A filtering slot takes the nearest-depth target, but not an unfilterable 32-bit float one.
    assert_eq!(check_bind_group(&group_bind_layout(GroupId::Material), &set.peel_bind_group()), Ok(()));
    let position = set.get(TargetId::Position);
    assert_eq!(
        check_bind_group(
            &group_bind_layout(GroupId::Material),
            &vec![view_resource(position), sampler_resource(position)]
        ),
        Err(LayoutMismatch::Incompatible { binding: 0 })
    );
}
