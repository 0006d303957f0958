//! The static scene's instance grid and the vertex layout of its per-instance
//! records (a 4x4 model matrix followed by a 3x3 normal matrix, as 32-bit
//! floats).
use vstd::prelude::*;

verus! {

/// Instances along each side of the square grid.
pub const INSTANCES_PER_ROW: u32 = 10;

/// World units between neighbouring instances.
pub const INSTANCE_SPACING: i32 = 3;

/// Shift that centres the grid: half the number of instances per row.
pub const INSTANCE_DISPLACEMENT: i32 = 5;

/// First shader location the per-instance attributes use.
pub const FIRST_INSTANCE_LOCATION: u32 = 5;

/// Placement of one instance, in whole world units; the instances are not
/// rotated.
#[derive(Clone, Copy, PartialEq, Eq, Structural, Debug)]
pub struct GridPosition {
    pub x: i32,
    pub y: i32,
    pub z: i32,
}

pub open spec fn grid_position(i: int) -> GridPosition {
    GridPosition {
        x: (INSTANCE_SPACING * (i % INSTANCES_PER_ROW as int) - INSTANCE_DISPLACEMENT) as i32,
        y: 0,
        z: (INSTANCE_SPACING * (i / INSTANCES_PER_ROW as int) - INSTANCE_DISPLACEMENT) as i32,
    }
}

/// The instances, row by row along z and within a row along x: instance
/// `(x, z)` stands at `(3x - 5, 0, 3z - 5)`.
pub fn instance_grid() -> (r: Vec<GridPosition>)
    ensures
        r@.len() == INSTANCES_PER_ROW * INSTANCES_PER_ROW,
        forall|i: int| 0 <= i < r@.len() ==> #[trigger] r@[i] == grid_position(i),
{
    let mut r: Vec<GridPosition> = Vec::new();
    let mut z: u32 = 0;
    while z < INSTANCES_PER_ROW
        invariant
            z <= INSTANCES_PER_ROW,
            r@.len() == z * INSTANCES_PER_ROW,
            forall|i: int| 0 <= i < r@.len() ==> #[trigger] r@[i] == grid_position(i),
        decreases INSTANCES_PER_ROW - z,
    {
        let mut x: u32 = 0;
        while x < INSTANCES_PER_ROW
            invariant
                z < INSTANCES_PER_ROW,
                x <= INSTANCES_PER_ROW,
                r@.len() == z * INSTANCES_PER_ROW + x,
                forall|i: int| 0 <= i < r@.len() ==> #[trigger] r@[i] == grid_position(i),
            decreases INSTANCES_PER_ROW - x,
        {
            let p = GridPosition {
                x: INSTANCE_SPACING * x as i32 - INSTANCE_DISPLACEMENT,
                y: 0,
                z: INSTANCE_SPACING * z as i32 - INSTANCE_DISPLACEMENT,
            };
            proof {
                let k = z * INSTANCES_PER_ROW + x;
                assert(k % 10 == x && k / 10 == z) by (nonlinear_arith)
                    requires k == z * 10 + x, 0 <= x < 10, 0 <= z;
            }
            r.push(p);
            x = x + 1;
        }
        z = z + 1;
    }
    r
}

#[derive(Clone, Copy, PartialEq, Eq, Structural, Debug)]
pub enum VertexFormat {
    Float32x3,
    Float32x4,
}

pub open spec fn format_size(f: VertexFormat) -> nat {
    match f {
        VertexFormat::Float32x3 => 12,
        VertexFormat::Float32x4 => 16,
    }
}

#[derive(Clone, Copy, PartialEq, Eq, Structural, Debug)]
pub enum StepMode {
    Vertex,
    Instance,
}

#[derive(Clone, Copy, PartialEq, Eq, Structural, Debug)]
pub struct VertexAttribute {
    pub offset: u64,
    pub format: VertexFormat,
    pub shader_location: u32,
}

pub struct VertexLayout {
    pub array_stride: u64,
    pub step_mode: StepMode,
    pub attributes: Vec<VertexAttribute>,
}

/// Format of attribute `i`: four rows of the model matrix, then three of the
/// normal matrix.
pub open spec fn instance_format(i: int) -> VertexFormat {
    if i < 4 {
        VertexFormat::Float32x4
    } else {
        VertexFormat::Float32x3
    }
}

/// Byte offset of attribute `i`.
pub open spec fn instance_offset(i: int) -> int {
    if i < 4 {
        16 * i
    } else {
        64 + 12 * (i - 4)
    }
}

/// Size in bytes of one per-instance record.
pub const INSTANCE_STRIDE: u64 = 100;

/// Layout of the per-instance buffer: seven attributes at consecutive shader
/// locations from `FIRST_INSTANCE_LOCATION`.
pub fn instance_buffer_layout() -> (r: VertexLayout)
    ensures
        r.array_stride == INSTANCE_STRIDE,
        r.step_mode == StepMode::Instance,
        r.attributes@.len() == 7,
        forall|i: int| 0 <= i < 7 ==> #[trigger] r.attributes@[i] == (VertexAttribute {
            offset: instance_offset(i) as u64,
            format: instance_format(i),
            shader_location: (FIRST_INSTANCE_LOCATION + i) as u32,
        }),
{
    let mut attributes: Vec<VertexAttribute> = Vec::new();
    let mut i: u32 = 0;
    let mut offset: u64 = 0;
    while i < 7
        invariant
            i <= 7,
            attributes@.len() == i,
            offset == instance_offset(i as int),
            forall|j: int| 0 <= j < i ==> #[trigger] attributes@[j] == (VertexAttribute {
                offset: instance_offset(j) as u64,
                format: instance_format(j),
                shader_location: (FIRST_INSTANCE_LOCATION + j) as u32,
            }),
        decreases 7 - i,
    {
        let format = if i < 4 { VertexFormat::Float32x4 } else { VertexFormat::Float32x3 };
        attributes.push(VertexAttribute { offset, format, shader_location: FIRST_INSTANCE_LOCATION + i });
        offset = offset + if i < 4 { 16 } else { 12 };
        i = i + 1;
    }
    VertexLayout { array_stride: INSTANCE_STRIDE, step_mode: StepMode::Instance, attributes }
}

/// The instance attributes tile the record: each starts where the previous
/// one ends, and the last ends at the stride.
pub proof fn lemma_instance_layout_packed()
    ensures
        instance_offset(0) == 0,
        forall|i: int| 0 <= i < 6 ==> #[trigger] instance_offset(i + 1) == instance_offset(i) + format_size(
            instance_format(i),
        ),
        instance_offset(6) + format_size(instance_format(6)) == INSTANCE_STRIDE,
{
}

} // verus!
