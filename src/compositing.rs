//! Per-pixel compositing: layers blended back to front over a background,
//! each scaled by its opacity and mask coverage, then colour graded.
use crate::blend_modes::{apply_blend, apply_blend_spec, lemma_zero_opacity_keeps_base, unit_rgb, BlendMode};
use crate::color_grading::{as_ints, grade_spec, ColorGrading, Rgb};
use crate::fixed::{clamp_i64, clamp_spec, fmul, mul_spec, ONE};
use vstd::prelude::*;

verus! {

/// One node's contribution to a pixel.
#[derive(Clone, Copy, Debug)]
pub struct Layer {
    pub color: Rgb,
    pub mode: BlendMode,
    pub opacity: i64,
    /// Mask coverage of this pixel, `ONE` where no mask limits the layer.
    pub coverage: i64,
}

/// The weight a layer blends with: opacity times coverage, both clamped to `[0, ONE]`.
pub open spec fn layer_weight(l: Layer) -> int {
    mul_spec(clamp_spec(l.opacity as int, 0, ONE as int), clamp_spec(l.coverage as int, 0, ONE as int))
}

pub open spec fn to_rgb(c: (int, int, int)) -> Rgb {
    (c.0 as i64, c.1 as i64, c.2 as i64)
}

/// `base` with `layers` blended over it in order, the first lowest.
pub open spec fn composite_spec(base: Rgb, layers: Seq<Layer>) -> Rgb
    decreases layers.len(),
{
    if layers.len() == 0 {
        base
    } else {
        let below = composite_spec(base, layers.drop_last());
        let top = layers.last();
        to_rgb(apply_blend_spec(top.mode, below, top.color, layer_weight(top)))
    }
}

fn weight(l: Layer) -> (r: i64)
    ensures
        r == layer_weight(l),
        0 <= r <= ONE,
{
    fmul(clamp_i64(l.opacity, 0, ONE), clamp_i64(l.coverage, 0, ONE))
}

/// Blends `layers` over `base` back to front (see `composite_spec`).
pub fn composite(base: Rgb, layers: &[Layer]) -> (r: Rgb)
    ensures
        r == composite_spec(base, layers@),
{
    let mut acc = base;
    let mut i: usize = 0;
    while i < layers.len()
        invariant
            i <= layers@.len(),
            acc == composite_spec(base, layers@.subrange(0, i as int)),
        decreases layers@.len() - i,
    {
        let l = layers[i];
        let next = apply_blend(l.mode, acc, l.color, weight(l));
        proof {
            assert(layers@.subrange(0, i as int + 1).drop_last() =~= layers@.subrange(0, i as int));
        }
        acc = next;
        i = i + 1;
    }
    assert(layers@.subrange(0, layers@.len() as int) =~= layers@);
    acc
}

/// One output pixel: the layers composited over `background`, then graded.
pub fn render_pixel(background: Rgb, layers: &[Layer], grading: &ColorGrading) -> (r: Rgb)
    ensures
        as_ints(r) == grade_spec(*grading, composite_spec(background, layers@)),
{
    let c = composite(background, layers);
    grading.apply(c)
}

/// A layer that is fully transparent, or masked out at this pixel, leaves
/// the pixel beneath it as it was.
pub proof fn lemma_hidden_layer_keeps_pixel(base: Rgb, layers: Seq<Layer>, top: Layer)
    requires
        unit_rgb(composite_spec(base, layers)),
        top.opacity <= 0 || top.coverage <= 0,
    ensures
        composite_spec(base, layers.push(top)) == composite_spec(base, layers),
{
    let below = composite_spec(base, layers);
    assert(layers.push(top).drop_last() =~= layers);
    let o = clamp_spec(top.opacity as int, 0, ONE as int);
    let c = clamp_spec(top.coverage as int, 0, ONE as int);
    assert(o == 0 || c == 0);
    assert(o * c == 0) by (nonlinear_arith)
        requires
            o == 0 || c == 0,
    ;
    assert(layer_weight(top) == 0);
    lemma_zero_opacity_keeps_base(top.mode, below, top.color);
}

} // verus!
