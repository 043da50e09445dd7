//! The error taxonomy of the compute core.
//!
//! Every failure is surfaced to the caller; nothing is recovered
//! internally. `Backend` carries a device diagnostic verbatim.

use vstd::prelude::*;

verus! {

/// Errors of the kernel-program lifecycle and of operator dispatch.
#[derive(Debug, Clone, PartialEq, Eq)]
pub enum Error {
    /// A `compile` call whose argument lists do not satisfy the minimum
    /// for the declared iteration type.
    InvalidInputsForIterationType,
    /// A raster binding with an index outside the declared range.
    InvalidRasterIndex,
    /// A feature binding with an index outside the declared range.
    InvalidFeaturesIndex,
    /// A raster whose element tag differs from the declared descriptor.
    InvalidRasterDataType,
    /// A feature collection whose geometry tag differs from the declared
    /// descriptor.
    InvalidVectorDataType,
    /// A declared attribute column that the bound collection lacks.
    MissingColumn,
    /// A declared attribute column present with another attribute type.
    ColumnTypeMismatch,
    /// A declared raster slot found unbound at run time.
    UnspecifiedRaster,
    /// A declared feature slot found unbound at run time.
    UnspecifiedFeatures,
    /// A geometry kind that is declared but not implemented.
    UnsupportedGeometry,
    /// A derived work size of zero.
    EmptyWorkSize,
    /// A dispatch on an operator of the wrong kind.
    InvalidOperatorType,
    /// A diagnostic from the device compiler, allocator, launcher or
    /// reader, preserved verbatim.
    Backend(String),
}

} // verus!
