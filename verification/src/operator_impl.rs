//! The stock operator implementation shells.
//!
//! `Operator` and `SourceOperator` are the declaration shapes users fill
//! with parameters and sources; `InitializedOperatorImpl` is the stock
//! initialized form.  `create` drives the common initialization order:
//! initialize every source, derive the state, then derive the result
//! descriptor, failing on the first error of any collaborator.

use vstd::prelude::*;

use crate::error::Error;
use crate::operator::{ExecutionContext, InitializedOperatorBase, RasterOperator, VectorOperator};

verus! {

/// A declared operator: parameters plus uninitialized sources.
#[derive(Debug, Clone, PartialEq, Eq)]
pub struct Operator<P, RO, VO> {
    pub params: P,
    pub raster_sources: Vec<RO>,
    pub vector_sources: Vec<VO>,
}

/// A declared source operator: parameters only.
#[derive(Debug, Clone, PartialEq, Eq)]
pub struct SourceOperator<P> {
    pub params: P,
}

/// The stock initialized operator: parameters, initialized sources, a
/// result descriptor and operator state.
#[derive(Debug)]
pub struct InitializedOperatorImpl<P, R, S, RS, VS> {
    pub params: P,
    pub raster_sources: Vec<RS>,
    pub vector_sources: Vec<VS>,
    pub result_descriptor: R,
    pub state: S,
}

impl<P, R, S, RS, VS> InitializedOperatorImpl<P, R, S, RS, VS> {
    /// Packs an initialized operator from its parts.
    pub fn new(
        params: P,
        result_descriptor: R,
        raster_sources: Vec<RS>,
        vector_sources: Vec<VS>,
        state: S,
    ) -> (r: Self)
        ensures
            r.params == params,
            r.result_descriptor == result_descriptor,
            r.raster_sources@ == raster_sources@,
            r.vector_sources@ == vector_sources@,
            r.state == state,
    {
        Self { params, raster_sources, vector_sources, result_descriptor, state }
    }

    /// Initializes every source in order, derives the state from the
    /// initialized sources, then the result descriptor from both, and
    /// packs the result; the first error of a source or of one of the
    /// two closures is returned as is.  On success the parameters are
    /// kept, one initialized source stands per given source, and the
    /// state and descriptor are what the closures returned for exactly
    /// those sources.
    pub fn create<RO, VO, SF, RF>(
        params: P,
        context: &ExecutionContext,
        state_fn: SF,
        result_descriptor_fn: RF,
        uninitialized_raster_sources: Vec<RO>,
        uninitialized_vector_sources: Vec<VO>,
    ) -> (r: Result<Self, Error>) where
        RO: RasterOperator<Initialized = RS>,
        VO: VectorOperator<Initialized = VS>,
        SF: Fn(&P, &ExecutionContext, &[RS], &[VS]) -> Result<S, Error>,
        RF: Fn(&P, &ExecutionContext, &S, &[RS], &[VS]) -> Result<R, Error>,

        requires
            forall|p: &P, c: &ExecutionContext, rs: &[RS], vs: &[VS]|
                #[trigger] call_requires(state_fn, (p, c, rs, vs)),
            forall|p: &P, c: &ExecutionContext, st: &S, rs: &[RS], vs: &[VS]|
                #[trigger] call_requires(result_descriptor_fn, (p, c, st, rs, vs)),
        ensures
            r matches Ok(op) ==> op.params == params && op.raster_sources@.len()
                == uninitialized_raster_sources@.len() && op.vector_sources@.len()
                == uninitialized_vector_sources@.len() && (exists|
                p: &P,
                c: &ExecutionContext,
                rs: &[RS],
                vs: &[VS],
            |
                *p == op.params && rs@ == op.raster_sources@ && vs@ == op.vector_sources@
                    && #[trigger] call_ensures(
                    state_fn,
                    (p, c, rs, vs),
                    Result::<S, Error>::Ok(op.state),
                )) && (exists|
                p: &P,
                c: &ExecutionContext,
                st: &S,
                rs: &[RS],
                vs: &[VS],
            |
                *p == op.params && *st == op.state && rs@ == op.raster_sources@ && vs@
                    == op.vector_sources@ && #[trigger] call_ensures(
                    result_descriptor_fn,
                    (p, c, st, rs, vs),
                    Result::<R, Error>::Ok(op.result_descriptor),
                )),
    {
        let mut remaining_rasters = uninitialized_raster_sources;
        let mut raster_sources: Vec<RS> = Vec::new();
        let ghost n_rasters = remaining_rasters@.len();
        while remaining_rasters.len() > 0
            invariant
                raster_sources@.len() + remaining_rasters@.len() == n_rasters,
            decreases remaining_rasters@.len(),
        {
            let source = remaining_rasters.remove(0);
            match source.initialize(context) {
                Result::Ok(initialized) => raster_sources.push(initialized),
                Result::Err(e) => {
                    return Result::Err(e);
                },
            }
        }
        let mut remaining_vectors = uninitialized_vector_sources;
        let mut vector_sources: Vec<VS> = Vec::new();
        let ghost n_vectors = remaining_vectors@.len();
        while remaining_vectors.len() > 0
            invariant
                vector_sources@.len() + remaining_vectors@.len() == n_vectors,
            decreases remaining_vectors@.len(),
        {
            let source = remaining_vectors.remove(0);
            match source.initialize(context) {
                Result::Ok(initialized) => vector_sources.push(initialized),
                Result::Err(e) => {
                    return Result::Err(e);
                },
            }
        }
        let state = match state_fn(
            &params,
            context,
            raster_sources.as_slice(),
            vector_sources.as_slice(),
        ) {
            Result::Ok(state) => state,
            Result::Err(e) => {
                return Result::Err(e);
            },
        };
        let result_descriptor = match result_descriptor_fn(
            &params,
            context,
            &state,
            raster_sources.as_slice(),
            vector_sources.as_slice(),
        ) {
            Result::Ok(descriptor) => descriptor,
            Result::Err(e) => {
                return Result::Err(e);
            },
        };
        Result::Ok(Self::new(params, result_descriptor, raster_sources, vector_sources, state))
    }
}

impl<P, R: Clone, S, RS, VS> InitializedOperatorBase for InitializedOperatorImpl<P, R, S, RS, VS> {
    type Descriptor = R;

    type RasterSource = RS;

    type VectorSource = VS;

    fn result_descriptor(&self) -> R {
        self.result_descriptor.clone()
    }

    fn raster_sources(&self) -> &[RS] {
        self.raster_sources.as_slice()
    }

    fn vector_sources(&self) -> &[VS] {
        self.vector_sources.as_slice()
    }

    fn raster_sources_mut(&mut self) -> &mut [RS] {
        self.raster_sources.as_mut_slice()
    }

    fn vector_sources_mut(&mut self) -> &mut [VS] {
        self.vector_sources.as_mut_slice()
    }
}

} // verus!
