//! The per-frame parallax update routine.
//!
//! Once per frame the routine reads the position of the unique camera
//! entity and rewrites the translation of every image layer that carries a
//! parallax configuration:
//!
//! * `offset = camera * (SCALE - parallax) / SCALE`, per axis;
//! * `new position = base_position + offset`;
//! * the depth coordinate `z` is left untouched.
//!
//! The pass is skipped — no layer is written — unless exactly one camera is
//! in view and its transform differs from the one seen by the last pass that
//! ran ([`fires`]).

use vstd::prelude::*;

use crate::fixed::{div_scale, lemma_div_scale_bound, lemma_div_scale_multiple, scale_down, MAX_COORD, MAX_FACTOR, SCALE};
use crate::image::{TiledImageParallax, Vec3Fixed};

verus! {

/// The parallax offset along one axis: the camera coordinate times
/// `(SCALE - factor)`, brought back to sub-units by a truncating division
/// by `SCALE`.
pub open spec fn offset(cam: int, p: int) -> int {
    div_scale(cam * (SCALE - p))
}

/// The x coordinate the routine writes into a layer's transform.
pub open spec fn target_x(cfg: TiledImageParallax, cam: Vec3Fixed) -> int {
    cfg.base_position.x + offset(cam.x as int, cfg.parallax_x as int)
}

/// The y coordinate the routine writes into a layer's transform.
pub open spec fn target_y(cfg: TiledImageParallax, cam: Vec3Fixed) -> int {
    cfg.base_position.y + offset(cam.y as int, cfg.parallax_y as int)
}

/// `r` is the translation one pass leaves on a layer that had translation
/// `t`: the planar coordinates are recomputed from the camera and the
/// configuration, the depth coordinate is carried over.
pub open spec fn updated_translation(
    cfg: TiledImageParallax,
    cam: Vec3Fixed,
    t: Vec3Fixed,
    r: Vec3Fixed,
) -> bool {
    &&& r.x as int == target_x(cfg, cam)
    &&& r.y as int == target_y(cfg, cam)
    &&& r.z == t.z
}

/// Compute the translation a layer gets from the current camera position.
///
/// The planar coordinates come from the base position and the parallax
/// offset; the depth coordinate of `current` is preserved.
pub fn parallax_translation(
    cfg: &TiledImageParallax,
    camera: &Vec3Fixed,
    current: &Vec3Fixed,
) -> (r: Vec3Fixed)
    requires
        cfg.valid(),
        camera.xy_in_range(),
    ensures
        updated_translation(*cfg, *camera, *current, r),
{
    let dx: i64 = SCALE - cfg.parallax_x;
    let dy: i64 = SCALE - cfg.parallax_y;
    assert(camera.x * dx <= MAX_COORD * (SCALE + MAX_FACTOR)
        && camera.x * dx >= -(MAX_COORD * (SCALE + MAX_FACTOR))) by (nonlinear_arith)
        requires
            -MAX_COORD <= camera.x <= MAX_COORD,
            -(SCALE + MAX_FACTOR) <= dx <= SCALE + MAX_FACTOR,
    ;
    assert(camera.y * dy <= MAX_COORD * (SCALE + MAX_FACTOR)
        && camera.y * dy >= -(MAX_COORD * (SCALE + MAX_FACTOR))) by (nonlinear_arith)
        requires
            -MAX_COORD <= camera.y <= MAX_COORD,
            -(SCALE + MAX_FACTOR) <= dy <= SCALE + MAX_FACTOR,
    ;
    let ox: i64 = scale_down(camera.x * dx);
    let oy: i64 = scale_down(camera.y * dy);
    proof {
        lemma_div_scale_bound(camera.x * dx);
        lemma_div_scale_bound(camera.y * dy);
    }
    Vec3Fixed { x: cfg.base_position.x + ox, y: cfg.base_position.y + oy, z: current.z }
}

/// An image-layer entity as the routine sees it: its parallax
/// configuration and its transform translation.
#[derive(Clone, Copy, Debug)]
pub struct ParallaxLayer {
    /// The layer's parallax configuration; the routine never changes it.
    pub parallax: TiledImageParallax,
    /// The layer's transform translation; the routine rewrites its planar
    /// coordinates.
    pub transform: Vec3Fixed,
}

/// A pass runs only when `cameras` holds exactly one camera transform and
/// that transform differs from the one recorded by the last pass that ran.
pub open spec fn fires(cache: Option<Vec3Fixed>, cameras: Seq<Vec3Fixed>) -> bool {
    cameras.len() == 1 && cache != Some(cameras[0])
}

/// The per-frame parallax update, with the camera snapshot of the last pass
/// that ran.
///
/// The snapshot stands in for the change detection a host engine would
/// provide: a pass compares the current camera transform against it and
/// does nothing when they are equal.
pub struct ParallaxSystem {
    last_camera: Option<Vec3Fixed>,
}

impl ParallaxSystem {
    /// The camera transform recorded by the last pass that ran, if any.
    pub closed spec fn cached(self) -> Option<Vec3Fixed> {
        self.last_camera
    }

    /// A fresh system: no pass has run yet, so the first camera sighting
    /// counts as a change.
    pub fn new() -> (s: Self)
        ensures
            s.cached() == None::<Vec3Fixed>,
    {
        ParallaxSystem { last_camera: None }
    }

    /// Run one parallax pass.
    ///
    /// `cameras` holds the transforms of every entity tagged as a camera.
    /// When the pass fires (see [`fires`]) every layer's translation is
    /// rewritten as [`updated_translation`] says — the depth coordinate
    /// stays — the configurations are untouched, and the camera transform
    /// is recorded.  Otherwise nothing changes: zero cameras, several
    /// cameras, and an unmoved camera are all silent skips.
    pub fn update_image_parallax(
        &mut self,
        cameras: &Vec<Vec3Fixed>,
        layers: &mut Vec<ParallaxLayer>,
    )
        requires
            fires(old(self).cached(), cameras@) ==> cameras@[0].xy_in_range() && (forall|j: int|
                0 <= j < old(layers)@.len() ==> (#[trigger] old(layers)@[j].parallax).valid()),
        ensures
            final(layers)@.len() == old(layers)@.len(),
            fires(old(self).cached(), cameras@) ==> final(self).cached() == Some(cameras@[0])
                && (forall|j: int| 0 <= j < old(layers)@.len()
                    ==> (#[trigger] final(layers)@[j]).parallax == old(layers)@[j].parallax
                    && updated_translation(
                        old(layers)@[j].parallax,
                        cameras@[0],
                        old(layers)@[j].transform,
                        final(layers)@[j].transform,
                    )),
            !fires(old(self).cached(), cameras@) ==> final(self).cached() == old(self).cached()
                && final(layers)@ == old(layers)@,
    {
        if cameras.len() != 1 {
            return;
        }
        let cam: Vec3Fixed = cameras[0];
        let changed: bool = match &self.last_camera {
            None => true,
            Some(prev) => !(*prev == cam),
        };
        if !changed {
            return;
        }
        self.last_camera = Some(cam);
        let ghost orig = layers@;
        let mut i: usize = 0;
        while i < layers.len()
            invariant
                layers@.len() == orig.len(),
                i <= orig.len(),
                cam == cameras@[0],
                cam.xy_in_range(),
                forall|j: int| 0 <= j < orig.len() ==> (#[trigger] orig[j].parallax).valid(),
                forall|j: int| i <= j < orig.len() ==> #[trigger] layers@[j] == orig[j],
                forall|j: int| 0 <= j < i ==> (#[trigger] layers@[j]).parallax == orig[j].parallax
                    && updated_translation(
                        orig[j].parallax,
                        cam,
                        orig[j].transform,
                        layers@[j].transform,
                    ),
            decreases orig.len() - i,
        {
            let layer: ParallaxLayer = layers[i];
            let translated: Vec3Fixed = parallax_translation(&layer.parallax, &cam, &layer.transform);
            layers.set(i, ParallaxLayer { parallax: layer.parallax, transform: translated });
            i = i + 1;
        }
    }
}

} // verus!
