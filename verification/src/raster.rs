//! The tagged raster value model.
//!
//! A raster tile is a rectangular, row-major grid over one of ten numeric
//! element types, together with an optional no-data sentinel, a time
//! interval and a `GeoTransform`.  `TypedRaster2D` is the closed tagged
//! union over the ten element types; the host/device boundary dispatches
//! on its tag.
//!
//! The two floating element kinds carry their samples as IEEE-754 bit
//! patterns (`u32` for the single-precision kind, `u64` for the
//! double-precision kind): the dispatch layer never computes with sample
//! values, it only moves them, and bit patterns make that movement exact.

use vstd::prelude::*;

use crate::geo_transform::GeoTransform;

verus! {

/// The closed set of raster element types.
#[derive(Debug, Clone, Copy, PartialEq, Eq, Structural)]
pub enum RasterDataType {
    U8,
    U16,
    U32,
    U64,
    I8,
    I16,
    I32,
    I64,
    F32,
    F64,
}

impl RasterDataType {
    /// Whether the element type has floating semantics (and so carries
    /// NaN-as-no-data semantics on the device).
    pub open spec fn is_float_spec(self) -> bool {
        self == RasterDataType::F32 || self == RasterDataType::F64
    }

    /// Executable form of `is_float_spec`.
    pub fn is_float(self) -> (r: bool)
        ensures
            r == self.is_float_spec(),
    {
        match self {
            RasterDataType::F32 => true,
            RasterDataType::F64 => true,
            _ => false,
        }
    }
}

/// A validity interval, in milliseconds since the epoch.
#[derive(Debug, Clone, Copy, PartialEq, Eq, Structural)]
pub struct TimeInterval {
    pub start: i64,
    pub end: i64,
}

impl TimeInterval {
    /// An interval is ordered: it never ends before it starts.
    pub open spec fn is_valid(self) -> bool {
        self.start <= self.end
    }

    /// Builds an interval from its bounds.
    pub fn new(start: i64, end: i64) -> (r: Self)
        requires
            start <= end,
        ensures
            r.start == start,
            r.end == end,
            r.is_valid(),
    {
        TimeInterval { start, end }
    }
}

impl Default for TimeInterval {
    /// The unbounded interval: always valid.
    fn default() -> (r: Self)
        ensures
            r.start == i64::MIN,
            r.end == i64::MAX,
            r.is_valid(),
    {
        TimeInterval { start: i64::MIN, end: i64::MAX }
    }
}

/// The two-dimensional grid extent of a tile.
#[derive(Debug, Clone, Copy, PartialEq, Eq, Structural)]
pub struct GridDimension2D {
    pub size_x: usize,
    pub size_y: usize,
}

impl GridDimension2D {
    /// How many elements a grid of this extent holds.
    pub open spec fn number_of_elements_spec(self) -> int {
        self.size_x * self.size_y
    }

    /// Builds an extent from width and height.
    pub fn new(size_x: usize, size_y: usize) -> (r: Self)
        ensures
            r.size_x == size_x,
            r.size_y == size_y,
    {
        GridDimension2D { size_x, size_y }
    }

    /// The extent along the x axis (the width).
    pub fn size_of_x_axis(self) -> (r: usize)
        ensures
            r == self.size_x,
    {
        self.size_x
    }

    /// The extent along the y axis (the height).
    pub fn size_of_y_axis(self) -> (r: usize)
        ensures
            r == self.size_y,
    {
        self.size_y
    }
}

/// A rectangular, row-major tile over one element type.
#[derive(Debug, Clone, PartialEq, Eq)]
pub struct Raster2D<T> {
    pub dimension: GridDimension2D,
    pub data_container: Vec<T>,
    pub no_data_value: Option<T>,
    pub temporal_bounds: TimeInterval,
    pub geo_transform: GeoTransform,
}

impl<T> Raster2D<T> {
    /// A tile is well formed when its data fills its extent exactly.
    pub open spec fn is_valid(self) -> bool {
        self.data_container@.len() == self.dimension.number_of_elements_spec()
    }

    /// Builds a tile.  The data must fill the extent exactly.
    pub fn new(
        dimension: GridDimension2D,
        data_container: Vec<T>,
        no_data_value: Option<T>,
        temporal_bounds: TimeInterval,
        geo_transform: GeoTransform,
    ) -> (r: Self)
        requires
            data_container@.len() == dimension.number_of_elements_spec(),
        ensures
            r.dimension == dimension,
            r.data_container == data_container,
            r.no_data_value == no_data_value,
            r.temporal_bounds == temporal_bounds,
            r.geo_transform == geo_transform,
            r.is_valid(),
    {
        Raster2D { dimension, data_container, no_data_value, temporal_bounds, geo_transform }
    }
}

/// The tagged union of tiles over the ten element types.  The `F32`
/// variant holds single-precision bit patterns in `u32`, the `F64`
/// variant double-precision bit patterns in `u64`.
#[derive(Debug, Clone, PartialEq, Eq)]
pub enum TypedRaster2D {
    U8(Raster2D<u8>),
    U16(Raster2D<u16>),
    U32(Raster2D<u32>),
    U64(Raster2D<u64>),
    I8(Raster2D<i8>),
    I16(Raster2D<i16>),
    I32(Raster2D<i32>),
    I64(Raster2D<i64>),
    F32(Raster2D<u32>),
    F64(Raster2D<u64>),
}

impl TypedRaster2D {
    /// The element tag of a tile.
    pub open spec fn raster_data_type_spec(self) -> RasterDataType {
        match self {
            TypedRaster2D::U8(_) => RasterDataType::U8,
            TypedRaster2D::U16(_) => RasterDataType::U16,
            TypedRaster2D::U32(_) => RasterDataType::U32,
            TypedRaster2D::U64(_) => RasterDataType::U64,
            TypedRaster2D::I8(_) => RasterDataType::I8,
            TypedRaster2D::I16(_) => RasterDataType::I16,
            TypedRaster2D::I32(_) => RasterDataType::I32,
            TypedRaster2D::I64(_) => RasterDataType::I64,
            TypedRaster2D::F32(_) => RasterDataType::F32,
            TypedRaster2D::F64(_) => RasterDataType::F64,
        }
    }

    /// Executable form of `raster_data_type_spec`.
    pub fn raster_data_type(&self) -> (r: RasterDataType)
        ensures
            r == self.raster_data_type_spec(),
    {
        match self {
            TypedRaster2D::U8(_) => RasterDataType::U8,
            TypedRaster2D::U16(_) => RasterDataType::U16,
            TypedRaster2D::U32(_) => RasterDataType::U32,
            TypedRaster2D::U64(_) => RasterDataType::U64,
            TypedRaster2D::I8(_) => RasterDataType::I8,
            TypedRaster2D::I16(_) => RasterDataType::I16,
            TypedRaster2D::I32(_) => RasterDataType::I32,
            TypedRaster2D::I64(_) => RasterDataType::I64,
            TypedRaster2D::F32(_) => RasterDataType::F32,
            TypedRaster2D::F64(_) => RasterDataType::F64,
        }
    }

    /// The grid extent of the tile inside the union.
    pub open spec fn dimension_spec(self) -> GridDimension2D {
        match self {
            TypedRaster2D::U8(r) => r.dimension,
            TypedRaster2D::U16(r) => r.dimension,
            TypedRaster2D::U32(r) => r.dimension,
            TypedRaster2D::U64(r) => r.dimension,
            TypedRaster2D::I8(r) => r.dimension,
            TypedRaster2D::I16(r) => r.dimension,
            TypedRaster2D::I32(r) => r.dimension,
            TypedRaster2D::I64(r) => r.dimension,
            TypedRaster2D::F32(r) => r.dimension,
            TypedRaster2D::F64(r) => r.dimension,
        }
    }

    /// Executable form of `dimension_spec`.
    pub fn dimension(&self) -> (r: GridDimension2D)
        ensures
            r == self.dimension_spec(),
    {
        match self {
            TypedRaster2D::U8(r) => r.dimension,
            TypedRaster2D::U16(r) => r.dimension,
            TypedRaster2D::U32(r) => r.dimension,
            TypedRaster2D::U64(r) => r.dimension,
            TypedRaster2D::I8(r) => r.dimension,
            TypedRaster2D::I16(r) => r.dimension,
            TypedRaster2D::I32(r) => r.dimension,
            TypedRaster2D::I64(r) => r.dimension,
            TypedRaster2D::F32(r) => r.dimension,
            TypedRaster2D::F64(r) => r.dimension,
        }
    }

    /// The number of samples the tile stores.
    pub open spec fn data_len_spec(self) -> int {
        match self {
            TypedRaster2D::U8(r) => r.data_container@.len() as int,
            TypedRaster2D::U16(r) => r.data_container@.len() as int,
            TypedRaster2D::U32(r) => r.data_container@.len() as int,
            TypedRaster2D::U64(r) => r.data_container@.len() as int,
            TypedRaster2D::I8(r) => r.data_container@.len() as int,
            TypedRaster2D::I16(r) => r.data_container@.len() as int,
            TypedRaster2D::I32(r) => r.data_container@.len() as int,
            TypedRaster2D::I64(r) => r.data_container@.len() as int,
            TypedRaster2D::F32(r) => r.data_container@.len() as int,
            TypedRaster2D::F64(r) => r.data_container@.len() as int,
        }
    }

    /// Executable form of `data_len_spec`.
    pub fn data_len(&self) -> (r: usize)
        ensures
            r == self.data_len_spec(),
    {
        match self {
            TypedRaster2D::U8(r) => r.data_container.len(),
            TypedRaster2D::U16(r) => r.data_container.len(),
            TypedRaster2D::U32(r) => r.data_container.len(),
            TypedRaster2D::U64(r) => r.data_container.len(),
            TypedRaster2D::I8(r) => r.data_container.len(),
            TypedRaster2D::I16(r) => r.data_container.len(),
            TypedRaster2D::I32(r) => r.data_container.len(),
            TypedRaster2D::I64(r) => r.data_container.len(),
            TypedRaster2D::F32(r) => r.data_container.len(),
            TypedRaster2D::F64(r) => r.data_container.len(),
        }
    }

    /// Whether a no-data sentinel is present.
    pub open spec fn has_no_data_spec(self) -> bool {
        match self {
            TypedRaster2D::U8(r) => r.no_data_value is Some,
            TypedRaster2D::U16(r) => r.no_data_value is Some,
            TypedRaster2D::U32(r) => r.no_data_value is Some,
            TypedRaster2D::U64(r) => r.no_data_value is Some,
            TypedRaster2D::I8(r) => r.no_data_value is Some,
            TypedRaster2D::I16(r) => r.no_data_value is Some,
            TypedRaster2D::I32(r) => r.no_data_value is Some,
            TypedRaster2D::I64(r) => r.no_data_value is Some,
            TypedRaster2D::F32(r) => r.no_data_value is Some,
            TypedRaster2D::F64(r) => r.no_data_value is Some,
        }
    }

    /// The tile is well formed when its data fills its extent.
    pub open spec fn is_valid(self) -> bool {
        match self {
            TypedRaster2D::U8(r) => r.is_valid(),
            TypedRaster2D::U16(r) => r.is_valid(),
            TypedRaster2D::U32(r) => r.is_valid(),
            TypedRaster2D::U64(r) => r.is_valid(),
            TypedRaster2D::I8(r) => r.is_valid(),
            TypedRaster2D::I16(r) => r.is_valid(),
            TypedRaster2D::I32(r) => r.is_valid(),
            TypedRaster2D::I64(r) => r.is_valid(),
            TypedRaster2D::F32(r) => r.is_valid(),
            TypedRaster2D::F64(r) => r.is_valid(),
        }
    }

    /// Borrows the concrete tile when the tag is the signed 32-bit kind.
    pub fn get_i32_ref(&self) -> (r: Option<&Raster2D<i32>>)
        ensures
            match r {
                Option::Some(t) => self matches TypedRaster2D::I32(u) && *t == u,
                Option::None => !(self matches TypedRaster2D::I32(_)),
            },
    {
        match self {
            TypedRaster2D::I32(t) => Option::Some(t),
            _ => Option::None,
        }
    }

    /// Borrows the concrete tile when the tag is the signed 64-bit kind.
    pub fn get_i64_ref(&self) -> (r: Option<&Raster2D<i64>>)
        ensures
            match r {
                Option::Some(t) => self matches TypedRaster2D::I64(u) && *t == u,
                Option::None => !(self matches TypedRaster2D::I64(_)),
            },
    {
        match self {
            TypedRaster2D::I64(t) => Option::Some(t),
            _ => Option::None,
        }
    }
}

} // verus!
