//! Components for tile-map image layers.
//!
//! An image layer is an entity of the host engine that carries the
//! [`TiledImage`] marker together with a spatial transform (and, on the host
//! side, a visibility flag and a sprite).  A layer that should scroll at a
//! fraction of camera movement also carries a [`TiledImageParallax`]
//! configuration.

use vstd::prelude::*;

use crate::fixed::{coord_valid, factor_valid};

verus! {

/// A two-dimensional position in fixed-point sub-units.
#[derive(Clone, Copy, Debug, PartialEq, Eq, Structural)]
pub struct Vec2Fixed {
    pub x: i64,
    pub y: i64,
}

/// A transform translation in fixed-point sub-units: two planar coordinates
/// and a depth coordinate `z` that the parallax routine never touches.
#[derive(Clone, Copy, Debug, PartialEq, Eq, Structural)]
pub struct Vec3Fixed {
    pub x: i64,
    pub y: i64,
    pub z: i64,
}

/// Marker for the entity of a tile-map image layer.
///
/// It carries no data of its own.  The host engine keeps a visibility flag,
/// a transform and a sprite on every entity that carries this marker,
/// inserting defaults for whichever are missing when the marker is added.
#[derive(Clone, Copy, Debug, Default)]
pub struct TiledImage;

/// Parallax configuration of an image layer.
///
/// `parallax_x` and `parallax_y` are scroll-speed multipliers in `SCALE`
/// units (conventionally between `0` and `SCALE`, but any value is allowed
/// and simply inverts or exaggerates the scroll).  `base_position` is the
/// layer's anchor: its position whenever the camera offset vanishes.  The
/// routine reads this record and never changes it.
#[derive(Clone, Copy, Debug)]
pub struct TiledImageParallax {
    /// The horizontal parallax multiplier, in `SCALE` units.
    pub parallax_x: i64,
    /// The vertical parallax multiplier, in `SCALE` units.
    pub parallax_y: i64,
    /// The base position of the image before parallax is applied.
    pub base_position: Vec2Fixed,
}

impl Vec2Fixed {
    /// Both coordinates are within the range the arithmetic supports.
    pub open spec fn in_range(self) -> bool {
        coord_valid(self.x as int) && coord_valid(self.y as int)
    }
}

impl Vec3Fixed {
    /// Both planar coordinates are within the range the arithmetic
    /// supports; the depth coordinate is only ever copied, so it is free.
    pub open spec fn xy_in_range(self) -> bool {
        coord_valid(self.x as int) && coord_valid(self.y as int)
    }

    /// Runtime check for [`Vec3Fixed::xy_in_range`].
    pub fn check_xy_in_range(&self) -> (r: bool)
        ensures
            r == self.xy_in_range(),
    {
        -crate::fixed::MAX_COORD <= self.x && self.x <= crate::fixed::MAX_COORD
            && -crate::fixed::MAX_COORD <= self.y && self.y <= crate::fixed::MAX_COORD
    }
}

impl TiledImageParallax {
    /// Factors and base position are within the range the arithmetic
    /// supports.
    pub open spec fn valid(self) -> bool {
        &&& factor_valid(self.parallax_x as int)
        &&& factor_valid(self.parallax_y as int)
        &&& self.base_position.in_range()
    }

    /// Runtime check for [`TiledImageParallax::valid`].
    pub fn check_valid(&self) -> (r: bool)
        ensures
            r == self.valid(),
    {
        -crate::fixed::MAX_FACTOR <= self.parallax_x && self.parallax_x <= crate::fixed::MAX_FACTOR
            && -crate::fixed::MAX_FACTOR <= self.parallax_y
            && self.parallax_y <= crate::fixed::MAX_FACTOR
            && -crate::fixed::MAX_COORD <= self.base_position.x
            && self.base_position.x <= crate::fixed::MAX_COORD
            && -crate::fixed::MAX_COORD <= self.base_position.y
            && self.base_position.y <= crate::fixed::MAX_COORD
    }
}

} // verus!
