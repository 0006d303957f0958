//! Bind-group layouts as typed schemas, and the check that a set of resources
//! fits a layout.
use vstd::prelude::*;
use crate::target::{Filter, PixelFormat, RenderTarget, ViewDim};

verus! {

/// What a layout expects at one binding slot.
#[derive(Clone, Copy, PartialEq, Eq, Structural, Debug)]
pub enum BindingKind {
    Texture { view: ViewDim, filterable: bool },
    Sampler { filtering: bool },
    UniformBuffer,
    StorageBuffer,
}

/// What a bind group supplies at one binding slot.
#[derive(Clone, Copy, PartialEq, Eq, Structural, Debug)]
pub enum Resource {
    TextureView { view: ViewDim, format: PixelFormat },
    Sampler { mag: Filter, min: Filter },
    UniformBuffer,
    StorageBuffer,
}

/// A bind group that does not fit the layout it is built against.
#[derive(Clone, Copy, PartialEq, Eq, Structural, Debug)]
pub enum LayoutMismatch {
    /// The group has `found` entries where the layout has `expected`.
    Count { expected: usize, found: usize },
    /// The entry at `binding` does not fit the layout's slot.
    Incompatible { binding: usize },
}

/// Formats that can be sampled as floating-point textures.
pub open spec fn float_sampled(f: PixelFormat) -> bool {
    f != PixelFormat::Depth32Float
}

/// Formats that support filtered sampling.
pub open spec fn filterable(f: PixelFormat) -> bool {
    f != PixelFormat::Depth32Float && f != PixelFormat::Rgba32Float
}

pub open spec fn compatible(k: BindingKind, r: Resource) -> bool {
    match (k, r) {
        (BindingKind::Texture { view, filterable: needs_filter }, Resource::TextureView { view: v, format }) =>
            v == view && float_sampled(format) && (needs_filter ==> filterable(format)),
        (BindingKind::Sampler { filtering }, Resource::Sampler { mag, min }) =>
            filtering || (mag == Filter::Nearest && min == Filter::Nearest),
        (BindingKind::UniformBuffer, Resource::UniformBuffer) => true,
        (BindingKind::StorageBuffer, Resource::StorageBuffer) => true,
        _ => false,
    }
}

pub open spec fn group_matches(layout: Seq<BindingKind>, group: Seq<Resource>) -> bool {
    &&& layout.len() == group.len()
    &&& forall|i: int| 0 <= i < layout.len() ==> compatible(#[trigger] layout[i], group[i])
}

fn is_filterable(f: PixelFormat) -> (r: bool)
    ensures
        r == filterable(f),
{
    match f {
        PixelFormat::Depth32Float | PixelFormat::Rgba32Float => false,
        _ => true,
    }
}

/// Whether one resource fits one layout slot.
pub fn is_compatible(k: BindingKind, r: Resource) -> (b: bool)
    ensures
        b == compatible(k, r),
{
    match (k, r) {
        (BindingKind::Texture { view, filterable: needs_filter }, Resource::TextureView { view: v, format }) => {
            v == view && format != PixelFormat::Depth32Float && (!needs_filter || is_filterable(format))
        },
        (BindingKind::Sampler { filtering }, Resource::Sampler { mag, min }) => {
            filtering || (mag == Filter::Nearest && min == Filter::Nearest)
        },
        (BindingKind::UniformBuffer, Resource::UniformBuffer) => true,
        (BindingKind::StorageBuffer, Resource::StorageBuffer) => true,
        _ => false,
    }
}

/// Checks a bind group against its layout, slot by slot, and names the first
/// slot that does not fit.
pub fn check_bind_group(layout: &Vec<BindingKind>, group: &Vec<Resource>) -> (r: Result<(), LayoutMismatch>)
    ensures
        r is Ok <==> group_matches(layout@, group@),
        (layout@.len() != group@.len()) <==> r == Err::<(), LayoutMismatch>(
            LayoutMismatch::Count { expected: layout@.len() as usize, found: group@.len() as usize },
        ),
        r matches Err(LayoutMismatch::Incompatible { binding }) ==> {
            &&& layout@.len() == group@.len()
            &&& binding < layout@.len()
            &&& !compatible(layout@[binding as int], group@[binding as int])
            &&& forall|j: int| 0 <= j < binding ==> compatible(#[trigger] layout@[j], group@[j])
        },
{
    if layout.len() != group.len() {
        return Err(LayoutMismatch::Count { expected: layout.len(), found: group.len() });
    }
    let mut i: usize = 0;
    while i < layout.len()
        invariant
            layout@.len() == group@.len(),
            i <= layout@.len(),
            forall|j: int| 0 <= j < i ==> compatible(#[trigger] layout@[j], group@[j]),
        decreases layout@.len() - i,
    {
        if !is_compatible(layout[i], group[i]) {
            return Err(LayoutMismatch::Incompatible { binding: i });
        }
        i = i + 1;
    }
    Ok(())
}

/// The texture slot a render target's sampled view fills.
pub open spec fn view_of(t: RenderTarget) -> Resource {
    Resource::TextureView { view: t.view, format: t.format }
}

/// The sampler slot a render target's sampler fills.
pub open spec fn sampler_of(t: RenderTarget) -> Resource {
    Resource::Sampler { mag: t.mag_filter, min: t.min_filter }
}

pub fn view_resource(t: &RenderTarget) -> (r: Resource)
    ensures
        r == view_of(*t),
{
    Resource::TextureView { view: t.view, format: t.format }
}

pub fn sampler_resource(t: &RenderTarget) -> (r: Resource)
    ensures
        r == sampler_of(*t),
{
    Resource::Sampler { mag: t.mag_filter, min: t.min_filter }
}

/// An unfiltered 2D texture slot followed by its non-filtering sampler.
pub open spec fn unfiltered_pair() -> Seq<BindingKind> {
    seq![
        BindingKind::Texture { view: ViewDim::D2, filterable: false },
        BindingKind::Sampler { filtering: false },
    ]
}

/// Layout of the composite pass's texture group: albedo, peel depth,
/// position, normal and last frame (each a texture and a sampler), then the
/// skybox cube with a filtering sampler.
pub open spec fn composite_layout() -> Seq<BindingKind> {
    unfiltered_pair() + unfiltered_pair() + unfiltered_pair() + unfiltered_pair() + unfiltered_pair() + seq![
        BindingKind::Texture { view: ViewDim::Cube, filterable: true },
        BindingKind::Sampler { filtering: true },
    ]
}

/// A filtered texture slot of the given shape followed by a filtering sampler.
pub open spec fn filtered_pair(view: ViewDim) -> Seq<BindingKind> {
    seq![BindingKind::Texture { view, filterable: true }, BindingKind::Sampler { filtering: true }]
}

/// Layout of the skybox pass: the panorama cube, its sampler and the index of
/// the face being drawn.
pub open spec fn skybox_layout() -> Seq<BindingKind> {
    filtered_pair(ViewDim::Cube) + seq![BindingKind::UniformBuffer]
}

fn push_unfiltered_pair(v: &mut Vec<BindingKind>)
    ensures
        final(v)@ == old(v)@ + unfiltered_pair(),
{
    v.push(BindingKind::Texture { view: ViewDim::D2, filterable: false });
    v.push(BindingKind::Sampler { filtering: false });
    assert(final(v)@ =~= old(v)@ + unfiltered_pair());
}

pub fn composite_bind_group_layout() -> (r: Vec<BindingKind>)
    ensures
        r@ == composite_layout(),
{
    let mut v: Vec<BindingKind> = Vec::new();
    let mut k: usize = 0;
    while k < 5
        invariant
            k <= 5,
            v@.len() == 2 * k,
            forall|j: int| 0 <= j < v@.len() ==> #[trigger] v@[j] == unfiltered_pair()[j % 2],
        decreases 5 - k,
    {
        push_unfiltered_pair(&mut v);
        k = k + 1;
    }
    v.push(BindingKind::Texture { view: ViewDim::Cube, filterable: true });
    v.push(BindingKind::Sampler { filtering: true });
    assert(v@ =~= composite_layout());
    v
}

pub fn skybox_bind_group_layout() -> (r: Vec<BindingKind>)
    ensures
        r@ == skybox_layout(),
{
    let v = vec![
        BindingKind::Texture { view: ViewDim::Cube, filterable: true },
        BindingKind::Sampler { filtering: true },
        BindingKind::UniformBuffer,
    ];
    assert(v@ =~= skybox_layout());
    v
}

/// Layout of the geometry pass's material group: the mesh's colour map and a
/// filtering sampler.
pub fn material_bind_group_layout() -> (r: Vec<BindingKind>)
    ensures
        r@ == filtered_pair(ViewDim::D2),
{
    let v = vec![BindingKind::Texture { view: ViewDim::D2, filterable: true }, BindingKind::Sampler { filtering: true }];
    assert(v@ =~= filtered_pair(ViewDim::D2));
    v
}

/// Layout of the peel pass's threshold group: the nearest-depth target and its
/// non-filtering sampler.
pub fn peel_bind_group_layout() -> (r: Vec<BindingKind>)
    ensures
        r@ == unfiltered_pair(),
{
    let mut v: Vec<BindingKind> = Vec::new();
    push_unfiltered_pair(&mut v);
    assert(v@ =~= unfiltered_pair());
    v
}

/// Layout of a group holding one uniform buffer (camera, frame counter).
pub fn uniform_bind_group_layout() -> (r: Vec<BindingKind>)
    ensures
        r@ == seq![BindingKind::UniformBuffer],
{
    let r = vec![BindingKind::UniformBuffer];
    assert(r@ =~= seq![BindingKind::UniformBuffer]);
    r
}

/// Layout of the lights group: one read-only storage buffer.
pub fn storage_bind_group_layout() -> (r: Vec<BindingKind>)
    ensures
        r@ == seq![BindingKind::StorageBuffer],
{
    let r = vec![BindingKind::StorageBuffer];
    assert(r@ =~= seq![BindingKind::StorageBuffer]);
    r
}

} // verus!
