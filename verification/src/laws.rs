//! Laws of the parallax routine.
//!
//! Each proof function states one guarantee of the routine over the spec
//! functions that [`crate::parallax`] uses in its contracts.

use vstd::prelude::*;

use crate::fixed::{lemma_div_scale_multiple, SCALE};
use crate::image::{TiledImageParallax, Vec3Fixed};
use crate::parallax::{fires, offset, target_x, target_y};

verus! {

/// Without exactly one camera in view — none at all, or several — a pass
/// never fires, so it leaves every layer and the camera snapshot unchanged.
pub proof fn lemma_no_unique_camera_skips(cache: Option<Vec3Fixed>, cameras: Seq<Vec3Fixed>)
    requires
        cameras.len() != 1,
    ensures
        !fires(cache, cameras),
{
}

/// A camera transform equal to the snapshot of the last pass that ran never
/// fires a pass: an unmoved camera means no writes at all.
pub proof fn lemma_unchanged_camera_skips(cameras: Seq<Vec3Fixed>)
    requires
        cameras.len() == 1,
    ensures
        !fires(Some(cameras[0]), cameras),
{
}

/// Fixed background: with both parallax factors zero, the layer lands at
/// its base position plus the full camera position.
pub proof fn lemma_fixed_background(cfg: TiledImageParallax, cam: Vec3Fixed)
    requires
        cfg.parallax_x == 0,
        cfg.parallax_y == 0,
    ensures
        target_x(cfg, cam) == cfg.base_position.x + cam.x,
        target_y(cfg, cam) == cfg.base_position.y + cam.y,
{
    vstd::arithmetic::mul::lemma_mul_is_commutative(cam.x as int, SCALE as int);
    vstd::arithmetic::mul::lemma_mul_is_commutative(cam.y as int, SCALE as int);
    lemma_div_scale_multiple(cam.x as int);
    lemma_div_scale_multiple(cam.y as int);
}

/// Camera-locked: with both parallax factors equal to `SCALE` (a multiplier
/// of one), the layer lands exactly at its base position, wherever the
/// camera is.
pub proof fn lemma_camera_locked(cfg: TiledImageParallax, cam: Vec3Fixed)
    requires
        cfg.parallax_x == SCALE,
        cfg.parallax_y == SCALE,
    ensures
        target_x(cfg, cam) == cfg.base_position.x,
        target_y(cfg, cam) == cfg.base_position.y,
{
    vstd::arithmetic::mul::lemma_mul_basics(cam.x as int);
    vstd::arithmetic::mul::lemma_mul_basics(cam.y as int);
    lemma_div_scale_multiple(0);
}

/// Linearity: doubling the camera coordinate doubles the parallax offset,
/// whenever the offset is exact at this resolution (the fixed-point
/// division leaves no remainder).
pub proof fn lemma_offset_doubles(c: int, p: int)
    requires
        (c * (SCALE - p)) % (SCALE as int) == 0,
    ensures
        offset(2 * c, p) == 2 * offset(c, p),
{
    let m = c * (SCALE - p);
    let k = m / (SCALE as int);
    vstd::arithmetic::div_mod::lemma_fundamental_div_mod(m, SCALE as int);
    assert(m == SCALE * k);
    lemma_div_scale_multiple(k);
    vstd::arithmetic::mul::lemma_mul_is_associative(2, c, SCALE - p);
    assert(2 * m == SCALE * (2 * k)) by (nonlinear_arith)
        requires
            m == SCALE * k,
    ;
    lemma_div_scale_multiple(2 * k);
}

} // verus!
