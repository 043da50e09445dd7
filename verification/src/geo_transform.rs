//! The affine mapping between pixel indices and world coordinates.
//!
//! A `GeoTransform` is the rotation-free form of the classical
//! six-element affine transform of the GDAL raster data model: an upper
//! left corner and a signed pixel size per axis.  The two rotation terms
//! are always zero; they are dropped on import from the six-element form
//! and emitted as zero on export.
//!
//! Coordinates and pixel sizes are double-precision world values.  This
//! crate carries every such value as its IEEE-754 bit pattern in a `u64`,
//! so that the transform can be stored, compared and bridged exactly;
//! the arithmetic of the mapping itself is host-side work outside this
//! crate.

use vstd::prelude::*;

verus! {

/// The bit pattern of the double-precision value `0.0`.
pub const BITS_ZERO: u64 = 0;

/// The bit pattern of the double-precision value `1.0`.
pub const BITS_ONE: u64 = 0x3FF0_0000_0000_0000;

/// The bit pattern of the double-precision value `-1.0`.
pub const BITS_MINUS_ONE: u64 = 0xBFF0_0000_0000_0000;

/// A world coordinate; each axis holds the bit pattern of a
/// double-precision value.
#[derive(Debug, Clone, Copy, PartialEq, Eq, Structural)]
pub struct Coordinate2D {
    pub x: u64,
    pub y: u64,
}

impl Coordinate2D {
    /// Builds a coordinate from the bit patterns of its two axes.
    pub fn new(x: u64, y: u64) -> (r: Self)
        ensures
            r.x == x,
            r.y == y,
    {
        Coordinate2D { x, y }
    }
}

/// The six-element affine form of the GDAL raster data model, as bit
/// patterns: `[upper_left_x, x_pixel_size, x_rotation, upper_left_y,
/// y_rotation, y_pixel_size]`.
pub type GdalGeoTransform = [u64; 6];

/// The rotation-free affine map from pixel `(row, col)` to world `(x, y)`.
#[derive(Debug, Clone, Copy, PartialEq, Eq, Structural)]
pub struct GeoTransform {
    pub upper_left_coordinate: Coordinate2D,
    pub x_pixel_size: u64,
    pub y_pixel_size: u64,
}

impl GeoTransform {
    /// What the six-element export of a transform holds.
    pub open spec fn to_gdal_spec(self) -> Seq<u64> {
        seq![
            self.upper_left_coordinate.x,
            self.x_pixel_size,
            BITS_ZERO as u64,
            self.upper_left_coordinate.y,
            BITS_ZERO as u64,
            self.y_pixel_size,
        ]
    }

    /// What an import of a six-element form yields: the two rotation
    /// entries are discarded.
    pub open spec fn from_gdal_spec(gdal: Seq<u64>) -> GeoTransform {
        GeoTransform {
            upper_left_coordinate: Coordinate2D { x: gdal[0], y: gdal[3] },
            x_pixel_size: gdal[1],
            y_pixel_size: gdal[5],
        }
    }

    /// Builds a transform from an upper left corner and the two pixel
    /// sizes.
    pub fn new(upper_left_coordinate: Coordinate2D, x_pixel_size: u64, y_pixel_size: u64) -> (r:
        Self)
        ensures
            r.upper_left_coordinate == upper_left_coordinate,
            r.x_pixel_size == x_pixel_size,
            r.y_pixel_size == y_pixel_size,
    {
        Self { upper_left_coordinate, x_pixel_size, y_pixel_size }
    }

    /// Builds a transform from the two axes of the upper left corner
    /// given separately.
    pub fn new_with_coordinate_x_y(
        upper_left_x_coordinate: u64,
        x_pixel_size: u64,
        upper_left_y_coordinate: u64,
        y_pixel_size: u64,
    ) -> (r: Self)
        ensures
            r.upper_left_coordinate.x == upper_left_x_coordinate,
            r.upper_left_coordinate.y == upper_left_y_coordinate,
            r.x_pixel_size == x_pixel_size,
            r.y_pixel_size == y_pixel_size,
    {
        Self {
            upper_left_coordinate: Coordinate2D { x: upper_left_x_coordinate, y: upper_left_y_coordinate },
            x_pixel_size,
            y_pixel_size,
        }
    }

    /// Imports the six-element affine form; the rotation entries at
    /// indices 2 and 4 are discarded.
    pub fn from_gdal(gdal: GdalGeoTransform) -> (r: Self)
        ensures
            r == Self::from_gdal_spec(gdal@),
    {
        Self::new_with_coordinate_x_y(gdal[0], gdal[1], gdal[3], gdal[5])
    }

    /// Exports the six-element affine form; the rotation entries are
    /// emitted as zero.
    pub fn to_gdal(self) -> (r: GdalGeoTransform)
        ensures
            r@ == self.to_gdal_spec(),
    {
        let r: GdalGeoTransform = [
            self.upper_left_coordinate.x,
            self.x_pixel_size,
            BITS_ZERO,
            self.upper_left_coordinate.y,
            BITS_ZERO,
            self.y_pixel_size,
        ];
        proof {
            assert(r@ =~= self.to_gdal_spec());
        }
        r
    }
}

impl Default for GeoTransform {
    /// The unit transform: origin `(0, 0)`, pixel size `1` by `-1`.
    fn default() -> (r: Self)
        ensures
            r.upper_left_coordinate.x == BITS_ZERO,
            r.upper_left_coordinate.y == BITS_ZERO,
            r.x_pixel_size == BITS_ONE,
            r.y_pixel_size == BITS_MINUS_ONE,
    {
        GeoTransform::new_with_coordinate_x_y(BITS_ZERO, BITS_ONE, BITS_ZERO, BITS_MINUS_ONE)
    }
}

/// The six-element bridge is lossless for a transform: exporting and
/// importing again restores every field.
pub proof fn lemma_gdal_round_trip(g: GeoTransform)
    ensures
        GeoTransform::from_gdal_spec(g.to_gdal_spec()) == g,
{
}

/// The reverse bridge drops exactly the rotation entries: importing a
/// six-element form and exporting again keeps entries 0, 1, 3 and 5 and
/// zeroes entries 2 and 4.
pub proof fn lemma_gdal_reverse_round_trip(gdal: Seq<u64>)
    requires
        gdal.len() == 6,
    ensures
        GeoTransform::from_gdal_spec(gdal).to_gdal_spec() =~= seq![
            gdal[0],
            gdal[1],
            BITS_ZERO as u64,
            gdal[3],
            BITS_ZERO as u64,
            gdal[5],
        ],
{
}

} // verus!
