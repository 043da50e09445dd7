//! The operator engine interface: how upstream hands typed computations
//! to the core.
//!
//! Operators are declared by their users, initialized once against an
//! execution context, and then queried.  The traits here carry no
//! contracts of their own — what an operator computes is its
//! implementer's business — while the dispatch helpers around them are
//! exact: `TypedOperator` tells vector from raster operators and fails
//! with `InvalidOperatorType` on a mismatched extraction.

use vstd::prelude::*;
use vstd::string::*;

use crate::error::Error;

verus! {

/// What operators are initialized against; the mock form carries an
/// empty data root.
#[derive(Debug, Clone, PartialEq, Eq)]
pub struct ExecutionContext {
    pub raster_data_root: String,
}

impl ExecutionContext {
    /// A context with an empty data root, for tests and dry runs.
    pub fn mock_empty() -> (r: Self)
        ensures
            r.raster_data_root@ == Seq::<char>::empty(),
    {
        ExecutionContext { raster_data_root: String::new() }
    }
}

/// A raster-producing operator as its users declare it: initialization
/// validates it against a context and yields its initialized form.
pub trait RasterOperator: Sized {
    /// The initialized form the operator turns into.
    type Initialized;

    /// Validates the operator against the context; what it yields is the
    /// implementer's business.
    fn initialize(self, context: &ExecutionContext) -> Result<Self::Initialized, Error>;

    /// Wraps a box around the operator.
    fn boxed(self) -> (r: Box<Self>)
        ensures
            r == self,
    {
        Box::new(self)
    }
}

/// A vector-producing operator as its users declare it.
pub trait VectorOperator: Sized {
    /// The initialized form the operator turns into.
    type Initialized;

    /// Validates the operator against the context; what it yields is the
    /// implementer's business.
    fn initialize(self, context: &ExecutionContext) -> Result<Self::Initialized, Error>;

    /// Wraps a box around the operator.
    fn boxed(self) -> (r: Box<Self>)
        ensures
            r == self,
    {
        Box::new(self)
    }
}

/// What every initialized operator exposes: its result descriptor and
/// its initialized sources.
pub trait InitializedOperatorBase {
    /// The descriptor of what the operator produces.
    type Descriptor;

    /// The initialized form of a raster source.
    type RasterSource;

    /// The initialized form of a vector source.
    type VectorSource;

    /// The result descriptor of the operator.
    fn result_descriptor(&self) -> Self::Descriptor;

    /// The raster sources of the operator.
    fn raster_sources(&self) -> &[Self::RasterSource];

    /// The vector sources of the operator.
    fn vector_sources(&self) -> &[Self::VectorSource];

    /// The raster sources of the operator, mutably.
    fn raster_sources_mut(&mut self) -> &mut [Self::RasterSource];

    /// The vector sources of the operator, mutably.
    fn vector_sources_mut(&mut self) -> &mut [Self::VectorSource];
}

/// An initialized operator with descriptor `R` that can mint a query
/// processor of type `Q`.
pub trait InitializedOperator<R, Q>: InitializedOperatorBase<Descriptor = R> {
    /// Instantiates a query processor; what it yields is the
    /// implementer's business.
    fn query_processor(&self) -> Result<Q, Error>;

    /// Wraps a box around the operator.
    fn boxed(self) -> (r: Box<Self>) where Self: Sized
        ensures
            r == self,
    {
        Box::new(self)
    }
}

/// An operator of either kind, as deserialized declarations arrive.
#[derive(Debug, Clone, PartialEq, Eq)]
pub enum TypedOperator<V, R> {
    Vector(V),
    Raster(R),
}

impl<V, R> TypedOperator<V, R> {
    /// Extracts the vector operator; a raster operator fails with
    /// `InvalidOperatorType`.
    pub fn get_vector(self) -> (r: Result<V, Error>)
        ensures
            match r {
                Result::Ok(o) => self == TypedOperator::<V, R>::Vector(o),
                Result::Err(e) => e == Error::InvalidOperatorType && (self matches TypedOperator::Raster(_)),
            },
    {
        if let TypedOperator::Vector(o) = self {
            return Result::Ok(o);
        }
        Result::Err(Error::InvalidOperatorType)
    }

    /// Extracts the raster operator; a vector operator fails with
    /// `InvalidOperatorType`.
    pub fn get_raster(self) -> (r: Result<R, Error>)
        ensures
            match r {
                Result::Ok(o) => self == TypedOperator::<V, R>::Raster(o),
                Result::Err(e) => e == Error::InvalidOperatorType && (self matches TypedOperator::Vector(_)),
            },
    {
        if let TypedOperator::Raster(o) = self {
            return Result::Ok(o);
        }
        Result::Err(Error::InvalidOperatorType)
    }
}

/// An initialized operator of either kind.
pub enum TypedInitializedOperator<V, R> {
    Vector(V),
    Raster(R),
}

} // verus!
