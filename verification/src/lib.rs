//! Geospatial compute core: a typed kernel-dispatch layer.
//!
//! The crate models the host side of a device compute engine: affine
//! grid/world transforms, tagged raster tiles and feature collections,
//! kernel program declaration and source-prelude generation, and the
//! per-invocation binding and transfer planning that precedes a launch.
//! Everything that touches a device driver lives outside this crate; the
//! functions here validate, plan and finalize, and their contracts state
//! exactly what they produce.

pub mod cl_program;
pub mod decimal;
pub mod error;
pub mod features;
pub mod geo_transform;
pub mod operator;
pub mod operator_impl;
pub mod raster;
pub mod raster_info;
pub mod runnable;
