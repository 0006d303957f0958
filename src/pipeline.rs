//! The fixed set of render pipelines, described as data: what each one draws,
//! the formats and blending of its colour outputs, its depth test, culling and
//! the bind groups it reads, in group order.
use vstd::prelude::*;
use crate::binding::{
    BindingKind, composite_layout, filtered_pair, skybox_layout, unfiltered_pair,
    composite_bind_group_layout, material_bind_group_layout, peel_bind_group_layout,
    skybox_bind_group_layout, storage_bind_group_layout, uniform_bind_group_layout,
};
use crate::frame::{ClearColor, Draw, FrameStep, PassDesc, PipelineId, frame_plan};
use crate::peel::{first_layer, nearest_beyond, second_layer, lemma_two_surfaces};
use crate::target::{PixelFormat, ViewDim};
use crate::target_set::{TargetId, standard_target};

verus! {

/// How a colour output combines with what the target already holds.
#[derive(Clone, Copy, PartialEq, Eq, Structural, Debug)]
pub enum Blend {
    /// Overwrite.
    Replace,
    /// Keep the component-wise minimum, so the nearest depth survives.
    Min,
}

#[derive(Clone, Copy, PartialEq, Eq, Structural, Debug)]
pub enum Cull {
    /// Draw both faces.
    Off,
    /// Skip faces turned away from the camera.
    Back,
}

/// Depth testing against a depth attachment: pass when nearer, and write.
#[derive(Clone, Copy, PartialEq, Eq, Structural, Debug)]
pub struct DepthTest {
    pub format: PixelFormat,
}

#[derive(Clone, Copy, PartialEq, Eq, Structural, Debug)]
pub struct ColorTarget {
    pub format: PixelFormat,
    pub blend: Blend,
}

/// Bind groups the pipelines read.
#[derive(Clone, Copy, PartialEq, Eq, Structural, Debug)]
pub enum GroupId {
    /// The mesh's colour map.
    Material,
    Camera,
    /// The frame counter.
    Utils,
    Lights,
    /// The textures the composite pass samples.
    Composite,
    /// The nearest-depth target the peel pass rejects against.
    Peel,
    /// The panorama and the face being drawn.
    Skybox,
}

/// Where a pass's colour output goes.
#[derive(Clone, Copy, PartialEq, Eq, Structural, Debug)]
pub enum Output {
    Target(TargetId),
    Surface,
}

pub struct PipelineDesc {
    pub id: PipelineId,
    pub draw: Draw,
    pub color_targets: Vec<ColorTarget>,
    pub depth: Option<DepthTest>,
    pub cull: Cull,
    pub groups: Vec<GroupId>,
}

pub open spec fn pipeline_draw(id: PipelineId) -> Draw {
    match id {
        PipelineId::Geometry | PipelineId::DepthFirst | PipelineId::Peel => Draw::Instances,
        PipelineId::Composite | PipelineId::Skybox => Draw::ScreenQuad,
    }
}

pub open spec fn pipeline_targets(id: PipelineId) -> Seq<ColorTarget> {
    match id {
        PipelineId::Geometry => seq![
            ColorTarget { format: PixelFormat::Surface, blend: Blend::Replace },
            ColorTarget { format: PixelFormat::Rgba32Float, blend: Blend::Replace },
            ColorTarget { format: PixelFormat::Rgba32Float, blend: Blend::Replace },
        ],
        PipelineId::DepthFirst | PipelineId::Peel => seq![
            ColorTarget { format: PixelFormat::Rgba16Float, blend: Blend::Min },
        ],
        PipelineId::Composite | PipelineId::Skybox => seq![
            ColorTarget { format: PixelFormat::Surface, blend: Blend::Replace },
        ],
    }
}

pub open spec fn pipeline_depth(id: PipelineId) -> Option<DepthTest> {
    match id {
        PipelineId::Geometry => Some(DepthTest { format: PixelFormat::Depth32Float }),
        _ => None,
    }
}

pub open spec fn pipeline_cull(id: PipelineId) -> Cull {
    match id {
        PipelineId::Geometry => Cull::Back,
        _ => Cull::Off,
    }
}

pub open spec fn pipeline_groups(id: PipelineId) -> Seq<GroupId> {
    match id {
        PipelineId::Geometry => seq![GroupId::Material, GroupId::Camera],
        PipelineId::DepthFirst => seq![GroupId::Camera],
        PipelineId::Peel => seq![GroupId::Camera, GroupId::Peel],
        PipelineId::Composite => seq![GroupId::Composite, GroupId::Camera, GroupId::Utils, GroupId::Lights],
        PipelineId::Skybox => seq![GroupId::Skybox],
    }
}

pub open spec fn group_layout(g: GroupId) -> Seq<BindingKind> {
    match g {
        GroupId::Material => filtered_pair(ViewDim::D2),
        GroupId::Camera | GroupId::Utils => seq![BindingKind::UniformBuffer],
        GroupId::Lights => seq![BindingKind::StorageBuffer],
        GroupId::Composite => composite_layout(),
        GroupId::Peel => unfiltered_pair(),
        GroupId::Skybox => skybox_layout(),
    }
}

/// Layout of each bind group.
pub fn group_bind_layout(g: GroupId) -> (r: Vec<BindingKind>)
    ensures
        r@ == group_layout(g),
{
    match g {
        GroupId::Material => material_bind_group_layout(),
        GroupId::Camera | GroupId::Utils => uniform_bind_group_layout(),
        GroupId::Lights => storage_bind_group_layout(),
        GroupId::Composite => composite_bind_group_layout(),
        GroupId::Peel => peel_bind_group_layout(),
        GroupId::Skybox => skybox_bind_group_layout(),
    }
}

impl PipelineDesc {
    /// The description of one of the renderer's pipelines.
    pub fn for_pipeline(id: PipelineId) -> (r: PipelineDesc)
        ensures
            r.id == id,
            r.draw == pipeline_draw(id),
            r.color_targets@ == pipeline_targets(id),
            r.depth == pipeline_depth(id),
            r.cull == pipeline_cull(id),
            r.groups@ == pipeline_groups(id),
    {
        let replace_surface = ColorTarget { format: PixelFormat::Surface, blend: Blend::Replace };
        let (draw, color_targets, depth, cull, groups) = match id {
            PipelineId::Geometry => {
                let float = ColorTarget { format: PixelFormat::Rgba32Float, blend: Blend::Replace };
                (
                    Draw::Instances,
                    vec![replace_surface, float, float],
                    Some(DepthTest { format: PixelFormat::Depth32Float }),
                    Cull::Back,
                    vec![GroupId::Material, GroupId::Camera],
                )
            },
            PipelineId::DepthFirst => (
                Draw::Instances,
                vec![ColorTarget { format: PixelFormat::Rgba16Float, blend: Blend::Min }],
                None,
                Cull::Off,
                vec![GroupId::Camera],
            ),
            PipelineId::Peel => (
                Draw::Instances,
                vec![ColorTarget { format: PixelFormat::Rgba16Float, blend: Blend::Min }],
                None,
                Cull::Off,
                vec![GroupId::Camera, GroupId::Peel],
            ),
            PipelineId::Composite => (
                Draw::ScreenQuad,
                vec![replace_surface],
                None,
                Cull::Off,
                vec![GroupId::Composite, GroupId::Camera, GroupId::Utils, GroupId::Lights],
            ),
            PipelineId::Skybox => (Draw::ScreenQuad, vec![replace_surface], None, Cull::Off, vec![GroupId::Skybox]),
        };
        proof {
            assert(color_targets@ =~= pipeline_targets(id));
            assert(groups@ =~= pipeline_groups(id));
        }
        PipelineDesc { id, draw, color_targets, depth, cull, groups }
    }
}

pub open spec fn opt(b: bool, o: Output) -> Seq<Output> {
    if b {
        seq![o]
    } else {
        Seq::empty()
    }
}

/// Colour outputs of a pass, in the order its pipeline declares them:
/// albedo, position, normal, nearest depth, peel depth, then the surface.
pub open spec fn color_outputs(p: PassDesc) -> Seq<Output> {
    opt(p.writes.albedo, Output::Target(TargetId::Albedo)) + opt(p.writes.position, Output::Target(TargetId::Position))
        + opt(p.writes.normal, Output::Target(TargetId::Normal)) + opt(
        p.writes.first_depth,
        Output::Target(TargetId::FirstDepth),
    ) + opt(p.writes.peel_depth, Output::Target(TargetId::PeelDepth)) + opt(p.writes_surface, Output::Surface)
}

fn push_if(v: &mut Vec<Output>, b: bool, o: Output)
    ensures
        final(v)@ == old(v)@ + opt(b, o),
{
    if b {
        v.push(o);
    }
    assert(final(v)@ =~= old(v)@ + opt(b, o));
}

pub fn pass_color_outputs(p: &PassDesc) -> (r: Vec<Output>)
    ensures
        r@ == color_outputs(*p),
{
    let mut r: Vec<Output> = Vec::new();
    push_if(&mut r, p.writes.albedo, Output::Target(TargetId::Albedo));
    push_if(&mut r, p.writes.position, Output::Target(TargetId::Position));
    push_if(&mut r, p.writes.normal, Output::Target(TargetId::Normal));
    push_if(&mut r, p.writes.first_depth, Output::Target(TargetId::FirstDepth));
    push_if(&mut r, p.writes.peel_depth, Output::Target(TargetId::PeelDepth));
    push_if(&mut r, p.writes_surface, Output::Surface);
    assert(r@ =~= color_outputs(*p));
    r
}

/// Format of what a colour output writes into.
pub open spec fn output_format(o: Output) -> PixelFormat {
    match o {
        Output::Target(id) => standard_target(id, 1, 1, 1).format,
        Output::Surface => PixelFormat::Surface,
    }
}

/// A target's format does not depend on the surface size.
pub proof fn lemma_format_fixed(id: TargetId, w: u32, h: u32, s: u32)
    ensures
        standard_target(id, w, h, s).format == output_format(Output::Target(id)),
{
}

/// A pass runs a pipeline that fits it: the pipeline's colour targets have
/// exactly the formats of the outputs the pass writes, in order; it has a
/// depth test exactly when the pass writes the depth buffer, in that buffer's
/// format; it draws what the pass draws; and a pass that keeps a nearest
/// depth blends with MIN.
pub open spec fn pass_fits(p: PassDesc) -> bool {
    &&& pipeline_targets(p.pipeline).len() == color_outputs(p).len()
    &&& forall|k: int|
        0 <= k < color_outputs(p).len() ==> #[trigger] pipeline_targets(p.pipeline)[k].format == output_format(
            color_outputs(p)[k],
        )
    &&& (pipeline_depth(p.pipeline) is Some <==> p.writes.depth)
    &&& (pipeline_depth(p.pipeline) is Some ==> pipeline_depth(p.pipeline)->Some_0.format == output_format(
        Output::Target(TargetId::Depth),
    ))
    &&& pipeline_draw(p.pipeline) == p.draw
    &&& ((p.writes.first_depth || p.writes.peel_depth) ==> pipeline_targets(p.pipeline)[0].blend == Blend::Min)
}

/// Every pass of a frame runs a pipeline that fits it.
pub proof fn lemma_pipelines_fit_passes()
    ensures
        forall|i: int|
            0 <= i < frame_plan().len() && (#[trigger] frame_plan()[i] is Pass) ==> pass_fits(
                frame_plan()[i]->Pass_0,
            ),
{
    let plan = frame_plan();
    assert forall|i: int| 0 <= i < plan.len() && (#[trigger] plan[i] is Pass) implies pass_fits(
        plan[i]->Pass_0,
    ) by {
        let p = plan[i]->Pass_0;
        let outs = color_outputs(p);
        if i == 0 {
            assert(outs =~= seq![
                Output::Target(TargetId::Albedo),
                Output::Target(TargetId::Position),
                Output::Target(TargetId::Normal),
            ]);
        } else if i == 1 {
            assert(outs =~= seq![Output::Target(TargetId::FirstDepth)]);
        } else if i == 2 {
            assert(outs =~= seq![Output::Target(TargetId::PeelDepth)]);
        } else {
            assert(outs =~= seq![Output::Surface]);
        }
    }
}

/// The skybox pipeline writes in the format of the skybox cube it fills.
pub proof fn lemma_skybox_pipeline_fits(w: u32, h: u32, s: u32)
    ensures
        pipeline_targets(PipelineId::Skybox).len() == 1,
        pipeline_targets(PipelineId::Skybox)[0].format == standard_target(TargetId::Skybox, w, h, s).format,
{
}

/// Depth a pass stores at a pixel covered by fragments at depths `frags`, for
/// a pass that clears its single output to the far sentinel and MIN-blends
/// into it: the nearest fragment, or, where the pass samples the nearest-depth
/// target holding `nearest`, the nearest fragment behind that. `None` for any
/// other pass.
pub open spec fn stored_depth(p: PassDesc, frags: Seq<u32>, nearest: u32) -> Option<u32> {
    if p.clear == ClearColor::Far && pipeline_targets(p.pipeline).len() == 1 && pipeline_targets(p.pipeline)[0].blend
        == Blend::Min {
        Some(nearest_beyond(frags, if p.reads.first_depth { Some(nearest) } else { None }))
    } else {
        None
    }
}

/// In a frame's plan the nearest-depth pass stores the first depth layer in
/// the nearest-depth target, and the peel pass, which samples that target,
/// stores the second layer in the peel-depth target.
pub proof fn lemma_plan_peels(frags: Seq<u32>)
    ensures
        frame_plan()[1] is Pass && frame_plan()[2] is Pass,
        frame_plan()[1]->Pass_0.writes.first_depth,
        forall|n: u32| #[trigger] stored_depth(frame_plan()[1]->Pass_0, frags, n) == Some(first_layer(frags)),
        frame_plan()[2]->Pass_0.reads.first_depth && frame_plan()[2]->Pass_0.writes.peel_depth,
        stored_depth(frame_plan()[2]->Pass_0, frags, first_layer(frags)) == Some(second_layer(frags)),
{
}

/// Two overlapping opaque surfaces at depths `d1 < d2`, drawn in either order:
/// the planned nearest-depth pass stores `d1` and the planned peel pass stores
/// `d2`.
pub proof fn lemma_plan_separates_two_surfaces(d1: u32, d2: u32)
    requires
        d1 < d2,
    ensures
        stored_depth(frame_plan()[1]->Pass_0, seq![d1, d2], 0) == Some(d1),
        stored_depth(frame_plan()[2]->Pass_0, seq![d1, d2], d1) == Some(d2),
        stored_depth(frame_plan()[1]->Pass_0, seq![d2, d1], 0) == Some(d1),
        stored_depth(frame_plan()[2]->Pass_0, seq![d2, d1], d1) == Some(d2),
{
    lemma_two_surfaces(d1, d2);
    lemma_plan_peels(seq![d1, d2]);
    lemma_plan_peels(seq![d2, d1]);
}

} // verus!
