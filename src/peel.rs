//! Reference model of the two depth layers the peel passes produce at one
//! pixel: each pass clears its target to the far sentinel and MIN-blends the
//! depth of every fragment it keeps.
use vstd::prelude::*;

verus! {

/// Depth a cleared peel target holds; no fragment is farther.
pub const FAR_DEPTH: u32 = 0xffff_ffff;

/// MIN blend over the fragments deeper than `threshold` (all fragments where
/// there is none), starting from the far sentinel.
pub open spec fn nearest_beyond(frags: Seq<u32>, threshold: Option<u32>) -> u32
    decreases frags.len(),
{
    if frags.len() == 0 {
        FAR_DEPTH
    } else {
        let rest = nearest_beyond(frags.drop_last(), threshold);
        let d = frags.last();
        let kept = match threshold {
            Some(t) => d > t,
            None => true,
        };
        if kept && d < rest {
            d
        } else {
            rest
        }
    }
}

/// Depth the nearest-depth pass stores at a pixel covered by `frags`.
pub open spec fn first_layer(frags: Seq<u32>) -> u32 {
    nearest_beyond(frags, None)
}

/// Depth the peel pass stores: fragments at or in front of the first layer
/// are discarded.
pub open spec fn second_layer(frags: Seq<u32>) -> u32 {
    nearest_beyond(frags, Some(first_layer(frags)))
}

/// Runs one MIN-blended pass over a pixel's fragments, discarding those at or
/// in front of `threshold` when one is given.
pub fn blend_pass(frags: &Vec<u32>, threshold: Option<u32>) -> (r: u32)
    ensures
        r == nearest_beyond(frags@, threshold),
{
    let mut acc: u32 = FAR_DEPTH;
    let mut i: usize = 0;
    while i < frags.len()
        invariant
            i <= frags@.len(),
            acc == nearest_beyond(frags@.take(i as int), threshold),
        decreases frags@.len() - i,
    {
        let d = frags[i];
        proof {
            assert(frags@.take(i + 1).drop_last() =~= frags@.take(i as int));
            assert(frags@.take(i + 1).last() == d);
        }
        let kept = match threshold {
            Some(t) => d > t,
            None => true,
        };
        if kept && d < acc {
            acc = d;
        }
        i = i + 1;
    }
    assert(frags@.take(frags@.len() as int) =~= frags@);
    acc
}

/// The two depth layers at a pixel: the nearest fragment, then the nearest
/// one strictly behind it (the far sentinel where there is none).
pub fn peel_layers(frags: &Vec<u32>) -> (r: (u32, u32))
    ensures
        r.0 == first_layer(frags@),
        r.1 == second_layer(frags@),
{
    let first = blend_pass(frags, None);
    let second = blend_pass(frags, Some(first));
    (first, second)
}

/// The stored layer is no deeper than any kept fragment, and is either the
/// sentinel or the depth of a kept fragment.
pub proof fn lemma_nearest_beyond(frags: Seq<u32>, threshold: Option<u32>)
    ensures
        forall|i: int|
            0 <= i < frags.len() && (threshold matches Some(t) ==> frags[i] > t) ==> nearest_beyond(frags, threshold)
                <= #[trigger] frags[i],
        nearest_beyond(frags, threshold) == FAR_DEPTH || exists|i: int|
            0 <= i < frags.len() && (threshold matches Some(t) ==> frags[i] > t) && nearest_beyond(frags, threshold)
                == #[trigger] frags[i],
    decreases frags.len(),
{
    if frags.len() > 0 {
        let init = frags.drop_last();
        lemma_nearest_beyond(init, threshold);
        assert forall|i: int| 0 <= i < init.len() implies #[trigger] init[i] == frags[i] by {}
        assert forall|i: int|
            0 <= i < frags.len() && (threshold matches Some(t) ==> frags[i] > t) implies nearest_beyond(
            frags,
            threshold,
        ) <= #[trigger] frags[i] by {
            if i < init.len() {
                assert(init[i] == frags[i]);
            } else {
                assert(frags[i] == frags.last());
            }
        }
        if nearest_beyond(frags, threshold) != FAR_DEPTH && nearest_beyond(frags, threshold) != frags.last() {
            let i = choose|i: int|
                0 <= i < init.len() && (threshold matches Some(t) ==> init[i] > t) && nearest_beyond(init, threshold)
                    == #[trigger] init[i];
            assert(frags[i] == init[i]);
        }
    }
}

/// Two overlapping surfaces at depths `d1 < d2`, whichever is drawn first:
/// the nearest-depth pass keeps `d1` and the peel pass keeps `d2`.
pub proof fn lemma_two_surfaces(d1: u32, d2: u32)
    requires
        d1 < d2,
    ensures
        first_layer(seq![d1, d2]) == d1,
        second_layer(seq![d1, d2]) == d2,
        first_layer(seq![d2, d1]) == d1,
        second_layer(seq![d2, d1]) == d2,
{
    let a = seq![d1, d2];
    let b = seq![d2, d1];
    assert(a.drop_last() =~= seq![d1]);
    assert(b.drop_last() =~= seq![d2]);
    assert(seq![d1].drop_last() =~= Seq::<u32>::empty());
    assert(seq![d2].drop_last() =~= Seq::<u32>::empty());
    reveal_with_fuel(nearest_beyond, 3);
}

} // verus!
