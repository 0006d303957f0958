//! The renderer's fixed set of textures, kept in step with the surface size.
use vstd::prelude::*;
use crate::target::{
    PixelFormat, RenderTarget, Usage, usage_spec, color_target_spec, depth_target_spec,
    cubemap_target_spec, with_size,
};
use crate::binding::{
    Resource, composite_layout, group_matches, view_of, sampler_of, view_resource,
    sampler_resource, unfiltered_pair, compatible,
};

verus! {

/// Names of the renderer's textures, in the order the set holds them.
#[derive(Clone, Copy, PartialEq, Eq, Structural, Debug)]
pub enum TargetId {
    Depth,
    FirstDepth,
    PeelDepth,
    Albedo,
    Position,
    Normal,
    LastFrame,
    Skybox,
}

pub const TARGET_COUNT: usize = 8;

/// Side of each face of the skybox cube.
pub const SKYBOX_SIZE: u32 = 2048;

pub open spec fn index_of(id: TargetId) -> int {
    match id {
        TargetId::Depth => 0,
        TargetId::FirstDepth => 1,
        TargetId::PeelDepth => 2,
        TargetId::Albedo => 3,
        TargetId::Position => 4,
        TargetId::Normal => 5,
        TargetId::LastFrame => 6,
        TargetId::Skybox => 7,
    }
}

pub open spec fn id_at(i: int) -> TargetId {
    if i == 0 {
        TargetId::Depth
    } else if i == 1 {
        TargetId::FirstDepth
    } else if i == 2 {
        TargetId::PeelDepth
    } else if i == 3 {
        TargetId::Albedo
    } else if i == 4 {
        TargetId::Position
    } else if i == 5 {
        TargetId::Normal
    } else if i == 6 {
        TargetId::LastFrame
    } else {
        TargetId::Skybox
    }
}

/// The descriptor each texture has while the surface is `width` x `height`.
pub open spec fn standard_target(id: TargetId, width: u32, height: u32, skybox: u32) -> RenderTarget {
    let sampled = usage_spec(true, true, false, false);
    match id {
        TargetId::Depth => depth_target_spec(width, height),
        TargetId::FirstDepth => color_target_spec(width, height, PixelFormat::Rgba16Float, sampled),
        TargetId::PeelDepth => color_target_spec(width, height, PixelFormat::Rgba16Float, sampled),
        TargetId::Albedo => color_target_spec(width, height, PixelFormat::Surface, sampled),
        TargetId::Position => color_target_spec(width, height, PixelFormat::Rgba32Float, sampled),
        TargetId::Normal => color_target_spec(width, height, PixelFormat::Rgba32Float, sampled),
        TargetId::LastFrame => color_target_spec(
            width,
            height,
            PixelFormat::Surface,
            usage_spec(false, true, false, true),
        ),
        TargetId::Skybox => cubemap_target_spec(skybox, PixelFormat::Surface, sampled),
    }
}

/// One texture of the set under its name.
#[derive(Clone, Copy, PartialEq, Eq, Structural, Debug)]
pub struct NamedTarget {
    pub id: TargetId,
    pub target: RenderTarget,
}

/// The renderer's textures, with the surface size they were made for.
pub struct TargetSet {
    pub width: u32,
    pub height: u32,
    pub skybox_size: u32,
    pub targets: Vec<NamedTarget>,
}

impl TargetSet {
    pub open spec fn wf(&self) -> bool {
        &&& self.width > 0
        &&& self.height > 0
        &&& self.targets@.len() == TARGET_COUNT
        &&& forall|i: int| 0 <= i < TARGET_COUNT ==> #[trigger] self.targets@[i] == (NamedTarget {
            id: id_at(i),
            target: standard_target(id_at(i), self.width, self.height, self.skybox_size),
        })
    }

    pub open spec fn spec_get(&self, id: TargetId) -> RenderTarget {
        self.targets@[index_of(id)].target
    }

    /// Allocates the set for a surface of `width` x `height`; a zero side is
    /// raised to one, as the surface itself is never configured empty.
    pub fn new(width: u32, height: u32) -> (r: TargetSet)
        ensures
            r.wf(),
            r.width == if width == 0 { 1 } else { width },
            r.height == if height == 0 { 1 } else { height },
            r.skybox_size == SKYBOX_SIZE,
    {
        let w = if width == 0 { 1 } else { width };
        let h = if height == 0 { 1 } else { height };
        let sampled = Usage::attachment_sampled();
        let mut targets: Vec<NamedTarget> = Vec::new();
        targets.push(NamedTarget { id: TargetId::Depth, target: RenderTarget::depth(w, h) });
        targets.push(NamedTarget {
            id: TargetId::FirstDepth,
            target: RenderTarget::color(w, h, PixelFormat::Rgba16Float, sampled),
        });
        targets.push(NamedTarget {
            id: TargetId::PeelDepth,
            target: RenderTarget::color(w, h, PixelFormat::Rgba16Float, sampled),
        });
        targets.push(NamedTarget {
            id: TargetId::Albedo,
            target: RenderTarget::color(w, h, PixelFormat::Surface, sampled),
        });
        targets.push(NamedTarget {
            id: TargetId::Position,
            target: RenderTarget::color(w, h, PixelFormat::Rgba32Float, sampled),
        });
        targets.push(NamedTarget {
            id: TargetId::Normal,
            target: RenderTarget::color(w, h, PixelFormat::Rgba32Float, sampled),
        });
        targets.push(NamedTarget {
            id: TargetId::LastFrame,
            target: RenderTarget::color(w, h, PixelFormat::Surface, Usage::new(false, true, false, true)),
        });
        targets.push(NamedTarget {
            id: TargetId::Skybox,
            target: RenderTarget::cubemap(SKYBOX_SIZE, PixelFormat::Surface, sampled),
        });
        let r = TargetSet { width: w, height: h, skybox_size: SKYBOX_SIZE, targets };
        assert forall|i: int| 0 <= i < TARGET_COUNT implies #[trigger] r.targets@[i] == (NamedTarget {
            id: id_at(i),
            target: standard_target(id_at(i), r.width, r.height, r.skybox_size),
        }) by {
            assert(0 <= i <= 7);
        }
        r
    }

    /// The texture of the given name.
    pub fn get(&self, id: TargetId) -> (r: &RenderTarget)
        requires
            self.wf(),
        ensures
            *r == self.spec_get(id),
            *r == standard_target(id, self.width, self.height, self.skybox_size),
    {
        let i: usize = match id {
            TargetId::Depth => 0,
            TargetId::FirstDepth => 1,
            TargetId::PeelDepth => 2,
            TargetId::Albedo => 3,
            TargetId::Position => 4,
            TargetId::Normal => 5,
            TargetId::LastFrame => 6,
            TargetId::Skybox => 7,
        };
        assert(id_at(i as int) == id);
        &self.targets[i].target
    }

    /// Follows a resize of the surface. For a non-empty size every texture that
    /// tracks the surface is reallocated at the new size and the others are kept;
    /// the names of the reallocated textures are returned in set order. A size
    /// with a zero side changes nothing.
    pub fn resize(&mut self, width: u32, height: u32) -> (r: Vec<TargetId>)
        requires
            old(self).wf(),
        ensures
            final(self).wf(),
            group_matches(composite_layout(), final(self).composite_group()),
            width > 0 && height > 0 ==> {
                &&& forall|i: int| 0 <= i < final(self).targets@.len()
                    && (#[trigger] final(self).targets@[i]).target.tracks_surface
                    ==> final(self).targets@[i].target.extent.width == width
                    && final(self).targets@[i].target.extent.height == height
                &&& final(self).width == width
                &&& final(self).height == height
                &&& final(self).skybox_size == old(self).skybox_size
                &&& final(self).targets@.len() == old(self).targets@.len()
                &&& forall|i: int| 0 <= i < old(self).targets@.len() ==> {
                    let before = #[trigger] old(self).targets@[i];
                    let after = final(self).targets@[i];
                    &&& after.id == before.id
                    &&& before.target.tracks_surface ==> after.target == with_size(before.target, width, height)
                    &&& !before.target.tracks_surface ==> after.target == before.target
                }
                &&& r@ == old(self).targets@.filter(|n: NamedTarget| n.target.tracks_surface).map_values(
                    |n: NamedTarget| n.id,
                )
            },
            !(width > 0 && height > 0) ==> *final(self) == *old(self) && r@.len() == 0,
    {
        let mut recreated: Vec<TargetId> = Vec::new();
        if width == 0 || height == 0 {
            proof {
                lemma_composite_group_fits(self);
            }
            return recreated;
        }
        let ghost before = self.targets@;
        let mut next: Vec<NamedTarget> = Vec::new();
        let mut i: usize = 0;
        while i < self.targets.len()
            invariant
                self.targets@ == before,
                before.len() == TARGET_COUNT,
                i <= before.len(),
                next@.len() == i,
                forall|j: int| 0 <= j < i ==> {
                    let b = #[trigger] before[j];
                    &&& next@[j].id == b.id
                    &&& b.target.tracks_surface ==> next@[j].target == with_size(b.target, width, height)
                    &&& !b.target.tracks_surface ==> next@[j].target == b.target
                },
                recreated@ == before.take(i as int).filter(|n: NamedTarget| n.target.tracks_surface).map_values(
                    |n: NamedTarget| n.id,
                ),
            decreases before.len() - i,
        {
            let n = self.targets[i];
            proof {
                assert(before.take(i + 1).drop_last() == before.take(i as int));
                reveal(Seq::filter);
            }
            if n.target.tracks_surface {
                next.push(NamedTarget { id: n.id, target: n.target.resized(width, height) });
                recreated.push(n.id);
            } else {
                next.push(n);
            }
            proof {
                let f = |n: NamedTarget| n.target.tracks_surface;
                let g = |n: NamedTarget| n.id;
                assert(before.take(i + 1).filter(f).map_values(g) =~= recreated@);
            }
            i = i + 1;
        }
        proof {
            assert(before.take(before.len() as int) =~= before);
        }
        let ghost old_w = self.width;
        let ghost old_h = self.height;
        self.width = width;
        self.height = height;
        self.targets = next;
        assert forall|i: int| 0 <= i < TARGET_COUNT implies #[trigger] self.targets@[i] == (NamedTarget {
            id: id_at(i),
            target: standard_target(id_at(i), self.width, self.height, self.skybox_size),
        }) by {
            assert(0 <= i <= 7);
            assert(before[i] == (NamedTarget {
                id: id_at(i),
                target: standard_target(id_at(i), old_w, old_h, self.skybox_size),
            }));
        }
        proof {
            lemma_composite_group_fits(self);
        }
        recreated
    }

    /// The resources of the composite pass's texture group, in binding order.
    pub open spec fn composite_group(&self) -> Seq<Resource> {
        let a = self.spec_get(TargetId::Albedo);
        let p = self.spec_get(TargetId::PeelDepth);
        let pos = self.spec_get(TargetId::Position);
        let n = self.spec_get(TargetId::Normal);
        let l = self.spec_get(TargetId::LastFrame);
        let s = self.spec_get(TargetId::Skybox);
        seq![
            view_of(a), sampler_of(a), view_of(p), sampler_of(p), view_of(pos), sampler_of(pos),
            view_of(n), sampler_of(n), view_of(l), sampler_of(l), view_of(s), sampler_of(s),
        ]
    }

    /// The resources of the peel pass's threshold group.
    pub open spec fn peel_group(&self) -> Seq<Resource> {
        seq![view_of(self.spec_get(TargetId::FirstDepth)), sampler_of(self.spec_get(TargetId::FirstDepth))]
    }

    pub fn peel_bind_group(&self) -> (r: Vec<Resource>)
        requires
            self.wf(),
        ensures
            r@ == self.peel_group(),
            group_matches(unfiltered_pair(), r@),
    {
        let t = self.get(TargetId::FirstDepth);
        let r = vec![view_resource(t), sampler_resource(t)];
        assert(r@ =~= self.peel_group());
        assert(self.targets@[1] == self.targets@[index_of(TargetId::FirstDepth)]);
        r
    }

    pub fn composite_bind_group(&self) -> (r: Vec<Resource>)
        requires
            self.wf(),
        ensures
            r@ == self.composite_group(),
    {
        let mut r: Vec<Resource> = Vec::new();
        let ids = [
            TargetId::Albedo,
            TargetId::PeelDepth,
            TargetId::Position,
            TargetId::Normal,
            TargetId::LastFrame,
            TargetId::Skybox,
        ];
        let mut k: usize = 0;
        while k < 6
            invariant
                self.wf(),
                k <= 6,
                ids@ == seq![
                    TargetId::Albedo,
                    TargetId::PeelDepth,
                    TargetId::Position,
                    TargetId::Normal,
                    TargetId::LastFrame,
                    TargetId::Skybox,
                ],
                r@.len() == 2 * k,
                forall|j: int| 0 <= j < k ==> {
                    &&& #[trigger] r@[2 * j] == view_of(self.spec_get(ids@[j]))
                    &&& r@[2 * j + 1] == sampler_of(self.spec_get(ids@[j]))
                },
            decreases 6 - k,
        {
            let t = self.get(ids[k]);
            r.push(view_resource(t));
            r.push(sampler_resource(t));
            k = k + 1;
        }
        assert(r@ =~= self.composite_group()) by {
            assert forall|i: int| 0 <= i < 12 implies r@[i] == #[trigger] self.composite_group()[i] by {
                let j = i / 2;
                if i % 2 == 0 {
                    assert(r@[2 * j] == view_of(self.spec_get(ids@[j])));
                } else {
                    assert(r@[2 * j + 1] == sampler_of(self.spec_get(ids@[j])));
                }
            }
        }
        r
    }
}

/// Any well-formed set, at any surface size, supplies exactly what the
/// composite pass's layout asks for: rebuilding that group after a resize
/// never fails the layout check.
pub proof fn lemma_composite_group_fits(set: &TargetSet)
    requires
        set.wf(),
    ensures
        group_matches(composite_layout(), set.composite_group()),
{
    let l = composite_layout();
    let g = set.composite_group();
    assert(l.len() == 12);
    assert forall|i: int| 0 <= i < l.len() implies compatible(#[trigger] l[i], g[i]) by {
        assert(set.targets@[3] == set.targets@[index_of(TargetId::Albedo)]);
        assert(set.targets@[2] == set.targets@[index_of(TargetId::PeelDepth)]);
        assert(set.targets@[4] == set.targets@[index_of(TargetId::Position)]);
        assert(set.targets@[5] == set.targets@[index_of(TargetId::Normal)]);
        assert(set.targets@[6] == set.targets@[index_of(TargetId::LastFrame)]);
        assert(set.targets@[7] == set.targets@[index_of(TargetId::Skybox)]);
        assert(l[i] == composite_layout()[i]);
        assert(unfiltered_pair().len() == 2);
    }
}

} // verus!
