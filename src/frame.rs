//! The per-frame pass sequence, as data the renderer interprets in order.
use vstd::prelude::*;
use crate::target_set::TargetId;

verus! {

/// Why the next surface image could not be acquired.
#[derive(Clone, Copy, PartialEq, Eq, Structural, Debug)]
pub enum SurfaceError {
    Lost,
    Outdated,
    Timeout,
    OutOfMemory,
}

/// What the caller does about a failed acquisition.
#[derive(Clone, Copy, PartialEq, Eq, Structural, Debug)]
pub enum Recovery {
    /// Configure the surface again and skip the frame.
    Reconfigure,
    /// Skip the frame and change nothing.
    Skip,
    /// Stop: the error cannot be recovered from.
    Abort,
}

pub open spec fn recovery_spec(e: SurfaceError) -> Recovery {
    match e {
        SurfaceError::Lost | SurfaceError::Outdated => Recovery::Reconfigure,
        SurfaceError::Timeout => Recovery::Skip,
        SurfaceError::OutOfMemory => Recovery::Abort,
    }
}

pub fn recovery_for(e: SurfaceError) -> (r: Recovery)
    ensures
        r == recovery_spec(e),
{
    match e {
        SurfaceError::Lost | SurfaceError::Outdated => Recovery::Reconfigure,
        SurfaceError::Timeout => Recovery::Skip,
        SurfaceError::OutOfMemory => Recovery::Abort,
    }
}

#[derive(Clone, Copy, PartialEq, Eq, Structural, Debug)]
pub enum PipelineId {
    Geometry,
    DepthFirst,
    Peel,
    Composite,
    Skybox,
}

/// Value a pass clears its colour outputs to.
#[derive(Clone, Copy, PartialEq, Eq, Structural, Debug)]
pub enum ClearColor {
    /// Transparent black, for G-buffer targets.
    Black,
    /// Opaque black, for the skybox faces.
    OpaqueBlack,
    /// The far sentinel (white), so that a MIN blend keeps the nearest value.
    Far,
    /// The fixed background colour of the final image.
    Background,
}

/// What a pass draws.
#[derive(Clone, Copy, PartialEq, Eq, Structural, Debug)]
pub enum Draw {
    /// Every instance of the mesh.
    Instances,
    /// The two-triangle screen quad.
    ScreenQuad,
}

/// A subset of the renderer's textures.
#[derive(Clone, Copy, PartialEq, Eq, Structural, Debug)]
pub struct TargetMask {
    pub depth: bool,
    pub first_depth: bool,
    pub peel_depth: bool,
    pub albedo: bool,
    pub position: bool,
    pub normal: bool,
    pub last_frame: bool,
    pub skybox: bool,
}

impl TargetMask {
    pub open spec fn has(self, id: TargetId) -> bool {
        match id {
            TargetId::Depth => self.depth,
            TargetId::FirstDepth => self.first_depth,
            TargetId::PeelDepth => self.peel_depth,
            TargetId::Albedo => self.albedo,
            TargetId::Position => self.position,
            TargetId::Normal => self.normal,
            TargetId::LastFrame => self.last_frame,
            TargetId::Skybox => self.skybox,
        }
    }

    pub open spec fn none() -> TargetMask {
        TargetMask {
            depth: false,
            first_depth: false,
            peel_depth: false,
            albedo: false,
            position: false,
            normal: false,
            last_frame: false,
            skybox: false,
        }
    }

    pub fn contains(&self, id: TargetId) -> (r: bool)
        ensures
            r == self.has(id),
    {
        match id {
            TargetId::Depth => self.depth,
            TargetId::FirstDepth => self.first_depth,
            TargetId::PeelDepth => self.peel_depth,
            TargetId::Albedo => self.albedo,
            TargetId::Position => self.position,
            TargetId::Normal => self.normal,
            TargetId::LastFrame => self.last_frame,
            TargetId::Skybox => self.skybox,
        }
    }
}

/// One render pass: the pipeline it runs, the textures it clears and writes
/// (and whether it writes the surface image), the textures it samples, and
/// what it draws.
#[derive(Clone, Copy, PartialEq, Eq, Structural, Debug)]
pub struct PassDesc {
    pub pipeline: PipelineId,
    pub writes: TargetMask,
    pub writes_surface: bool,
    pub reads: TargetMask,
    pub clear: ClearColor,
    pub draw: Draw,
}

/// One step of a frame, after the surface image has been acquired.
#[derive(Clone, Copy, PartialEq, Eq, Structural, Debug)]
pub enum FrameStep {
    Pass(PassDesc),
    /// Copy the whole surface image into the last-frame texture.
    CopySurfaceToLastFrame,
    Present,
}

pub open spec fn geometry_pass() -> PassDesc {
    PassDesc {
        pipeline: PipelineId::Geometry,
        writes: TargetMask { depth: true, albedo: true, position: true, normal: true, ..TargetMask::none() },
        writes_surface: false,
        reads: TargetMask::none(),
        clear: ClearColor::Black,
        draw: Draw::Instances,
    }
}

pub open spec fn depth_first_pass() -> PassDesc {
    PassDesc {
        pipeline: PipelineId::DepthFirst,
        writes: TargetMask { first_depth: true, ..TargetMask::none() },
        writes_surface: false,
        reads: TargetMask::none(),
        clear: ClearColor::Far,
        draw: Draw::Instances,
    }
}

pub open spec fn peel_pass() -> PassDesc {
    PassDesc {
        pipeline: PipelineId::Peel,
        writes: TargetMask { peel_depth: true, ..TargetMask::none() },
        writes_surface: false,
        reads: TargetMask { first_depth: true, ..TargetMask::none() },
        clear: ClearColor::Far,
        draw: Draw::Instances,
    }
}

pub open spec fn composite_pass() -> PassDesc {
    PassDesc {
        pipeline: PipelineId::Composite,
        writes: TargetMask::none(),
        writes_surface: true,
        reads: TargetMask {
            peel_depth: true,
            albedo: true,
            position: true,
            normal: true,
            last_frame: true,
            skybox: true,
            ..TargetMask::none()
        },
        clear: ClearColor::Background,
        draw: Draw::ScreenQuad,
    }
}

pub open spec fn frame_plan() -> Seq<FrameStep> {
    seq![
        FrameStep::Pass(geometry_pass()),
        FrameStep::Pass(depth_first_pass()),
        FrameStep::Pass(peel_pass()),
        FrameStep::Pass(composite_pass()),
        FrameStep::CopySurfaceToLastFrame,
        FrameStep::Present,
    ]
}

/// Textures whose contents come from outside the frame: the skybox is drawn
/// once at startup, and the last-frame texture holds the previous frame.
pub open spec fn persistent(id: TargetId) -> bool {
    id == TargetId::Skybox || id == TargetId::LastFrame
}

pub open spec fn step_writes(s: FrameStep, id: TargetId) -> bool {
    match s {
        FrameStep::Pass(p) => p.writes.has(id),
        FrameStep::CopySurfaceToLastFrame => id == TargetId::LastFrame,
        FrameStep::Present => false,
    }
}

pub open spec fn step_reads(s: FrameStep, id: TargetId) -> bool {
    match s {
        FrameStep::Pass(p) => p.reads.has(id),
        _ => false,
    }
}

fn no_targets() -> (r: TargetMask)
    ensures
        r == TargetMask::none(),
{
    TargetMask {
        depth: false,
        first_depth: false,
        peel_depth: false,
        albedo: false,
        position: false,
        normal: false,
        last_frame: false,
        skybox: false,
    }
}

/// The steps of one frame, in the order they are recorded into a single
/// command buffer: geometry, nearest-depth, peel and composite passes, then
/// the copy of the finished image and its presentation.
pub fn frame_steps() -> (r: Vec<FrameStep>)
    ensures
        r@ == frame_plan(),
{
    let none = no_targets();
    let mut r: Vec<FrameStep> = Vec::new();
    r.push(FrameStep::Pass(PassDesc {
        pipeline: PipelineId::Geometry,
        writes: TargetMask { depth: true, albedo: true, position: true, normal: true, ..none },
        writes_surface: false,
        reads: none,
        clear: ClearColor::Black,
        draw: Draw::Instances,
    }));
    r.push(FrameStep::Pass(PassDesc {
        pipeline: PipelineId::DepthFirst,
        writes: TargetMask { first_depth: true, ..none },
        writes_surface: false,
        reads: none,
        clear: ClearColor::Far,
        draw: Draw::Instances,
    }));
    r.push(FrameStep::Pass(PassDesc {
        pipeline: PipelineId::Peel,
        writes: TargetMask { peel_depth: true, ..none },
        writes_surface: false,
        reads: TargetMask { first_depth: true, ..none },
        clear: ClearColor::Far,
        draw: Draw::Instances,
    }));
    r.push(FrameStep::Pass(PassDesc {
        pipeline: PipelineId::Composite,
        writes: none,
        writes_surface: true,
        reads: TargetMask {
            peel_depth: true,
            albedo: true,
            position: true,
            normal: true,
            last_frame: true,
            skybox: true,
            ..none
        },
        clear: ClearColor::Background,
        draw: Draw::ScreenQuad,
    }));
    r.push(FrameStep::CopySurfaceToLastFrame);
    r.push(FrameStep::Present);
    assert(r@ =~= frame_plan());
    r
}

/// Every texture a step samples was written earlier in the same frame, unless
/// its contents persist across frames; the frame presents exactly one image,
/// as its last step, after the one pass that draws to the surface, which
/// clears it to the background colour.
pub proof fn lemma_plan_order()
    ensures
        forall|i: int, id: TargetId|
            0 <= i < frame_plan().len() && #[trigger] step_reads(frame_plan()[i], id) && !persistent(id) ==> exists|
                j: int,
            |
                0 <= j < i && #[trigger] step_writes(frame_plan()[j], id),
        frame_plan().last() == FrameStep::Present,
        forall|i: int| 0 <= i < frame_plan().len() - 1 ==> frame_plan()[i] != FrameStep::Present,
        forall|i: int|
            0 <= i < frame_plan().len() && (#[trigger] frame_plan()[i] matches FrameStep::Pass(p) && p.writes_surface)
                ==> i == 3,
        frame_plan()[3] == FrameStep::Pass(composite_pass()),
        composite_pass().clear == ClearColor::Background,
{
    let p = frame_plan();
    assert forall|i: int, id: TargetId|
        0 <= i < p.len() && #[trigger] step_reads(p[i], id) && !persistent(id) implies exists|j: int|
        0 <= j < i && #[trigger] step_writes(p[j], id) by {
        if i == 2 {
            assert(step_writes(p[1], id));
        } else if i == 3 {
            if id == TargetId::PeelDepth {
                assert(step_writes(p[2], id));
            } else {
                assert(step_writes(p[0], id));
            }
        }
    }
}

/// Number of faces of the skybox cube.
pub const CUBE_FACES: u32 = 6;

/// One startup pass of the skybox pipeline, drawing the panorama into one face
/// (array layer) of the skybox cube.
#[derive(Clone, Copy, PartialEq, Eq, Structural, Debug)]
pub struct FacePass {
    pub pipeline: PipelineId,
    /// The cube layer written, also the face index handed to the shader.
    pub face: u32,
    pub clear: ClearColor,
    pub draw: Draw,
}

pub open spec fn face_pass(face: u32) -> FacePass {
    FacePass { pipeline: PipelineId::Skybox, face, clear: ClearColor::OpaqueBlack, draw: Draw::ScreenQuad }
}

/// The passes that fill the skybox at startup: one per face, in face order,
/// each drawing the screen quad once. No frame repeats them.
pub fn skybox_passes() -> (r: Vec<FacePass>)
    ensures
        r@.len() == CUBE_FACES,
        forall|i: int| 0 <= i < CUBE_FACES ==> #[trigger] r@[i] == face_pass(i as u32),
{
    let mut r: Vec<FacePass> = Vec::new();
    let mut face: u32 = 0;
    while face < CUBE_FACES
        invariant
            face <= CUBE_FACES,
            r@.len() == face,
            forall|i: int| 0 <= i < face ==> #[trigger] r@[i] == face_pass(i as u32),
        decreases CUBE_FACES - face,
    {
        r.push(FacePass { pipeline: PipelineId::Skybox, face, clear: ClearColor::OpaqueBlack, draw: Draw::ScreenQuad });
        face = face + 1;
    }
    r
}

/// The startup pass at position `i` draws face `i`, so each face is drawn
/// exactly once; and no step of a frame runs the skybox pipeline.
pub proof fn lemma_skybox_once()
    ensures
        forall|i: int| 0 <= i < CUBE_FACES ==> (#[trigger] face_pass(i as u32)).face == i,
        forall|i: int|
            0 <= i < frame_plan().len() && (#[trigger] frame_plan()[i] is Pass) ==> frame_plan()[i]->Pass_0.pipeline
                != PipelineId::Skybox,
{
}

} // verus!
