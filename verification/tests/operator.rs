use geokernels::error::Error;
use geokernels::operator::{
    ExecutionContext, InitializedOperatorBase, RasterOperator, TypedOperator, VectorOperator,
};
use geokernels::operator_impl::InitializedOperatorImpl;

#[derive(Debug, Clone, PartialEq)]
struct DummyRasterSource {
    id: u32,
    fail: bool,
}

impl RasterOperator for DummyRasterSource {
    type Initialized = u32;

    fn initialize(self, _context: &ExecutionContext) -> Result<u32, Error> {
        if self.fail {
            Err(Error::InvalidOperatorType)
        } else {
            Ok(self.id)
        }
    }
}

#[derive(Debug, Clone, PartialEq)]
struct DummyVectorSource {
    id: u32,
}

impl VectorOperator for DummyVectorSource {
    type Initialized = u32;

    fn initialize(self, _context: &ExecutionContext) -> Result<u32, Error> {
        Ok(self.id + 100)
    }
}

#[test]
fn mock_empty_has_empty_root() {
    let context = ExecutionContext::mock_empty();
    assert_eq!(context.raster_data_root, "");
}

#[test]
fn typed_operator_dispatch() {
    let vector: TypedOperator<u8, u16> = TypedOperator::Vector(3u8);
    assert_eq!(vector.clone().get_vector(), Ok(3u8));
    assert_eq!(vector.get_raster(), Err(Error::InvalidOperatorType));

    let raster: TypedOperator<u8, u16> = TypedOperator::Raster(7u16);
    assert_eq!(raster.clone().get_raster(), Ok(7u16));
    assert_eq!(raster.get_vector(), Err(Error::InvalidOperatorType));
}

#[test]
fn create_initializes_sources_in_order() {
    let context = ExecutionContext::mock_empty();
    let created: Result<InitializedOperatorImpl<&str, usize, u32, u32, u32>, Error> =
        InitializedOperatorImpl::create(
            "params",
            &context,
            |_p: &&str, _c: &ExecutionContext, rs: &[u32], vs: &[u32]| {
                Ok(rs.iter().sum::<u32>() + vs.iter().sum::<u32>())
            },
            |_p: &&str, _c: &ExecutionContext, state: &u32, rs: &[u32], vs: &[u32]| {
                Ok(rs.len() + vs.len() + *state as usize)
            },
            vec![
                DummyRasterSource { id: 1, fail: false },
                DummyRasterSource { id: 2, fail: false },
            ],
            vec![DummyVectorSource { id: 3 }],
        );
    let op = created.unwrap();
    assert_eq!(op.params, "params");
    assert_eq!(op.raster_sources, vec![1, 2]);
    assert_eq!(op.vector_sources, vec![103]);
    assert_eq!(op.state, 106);
    assert_eq!(op.result_descriptor, 109);
    assert_eq!(op.raster_sources(), &[1, 2]);
    assert_eq!(op.vector_sources(), &[103]);
    assert_eq!(op.result_descriptor(), 109);
}

#[test]
fn create_returns_the_first_source_error() {
    let context = ExecutionContext::mock_empty();
    let created: Result<InitializedOperatorImpl<u8, u8, u8, u32, u32>, Error> =
        InitializedOperatorImpl::create(
            0u8,
            &context,
            |_p: &u8, _c: &ExecutionContext, _rs: &[u32], _vs: &[u32]| Ok(0u8),
            |_p: &u8, _c: &ExecutionContext, _s: &u8, _rs: &[u32], _vs: &[u32]| Ok(0u8),
            vec![DummyRasterSource { id: 1, fail: true }],
            Vec::<DummyVectorSource>::new(),
        );
    assert_eq!(created.unwrap_err(), Error::InvalidOperatorType);
}

#[test]
fn create_returns_the_state_closure_error() {
    let context = ExecutionContext::mock_empty();
    let created: Result<InitializedOperatorImpl<u8, u8, u8, u32, u32>, Error> =
        InitializedOperatorImpl::create(
            0u8,
            &context,
            |_p: &u8, _c: &ExecutionContext, _rs: &[u32], _vs: &[u32]| {
                Err::<u8, Error>(Error::EmptyWorkSize)
            },
            |_p: &u8, _c: &ExecutionContext, _s: &u8, _rs: &[u32], _vs: &[u32]| Ok(0u8),
            Vec::<DummyRasterSource>::new(),
            Vec::<DummyVectorSource>::new(),
        );
    assert_eq!(created.unwrap_err(), Error::EmptyWorkSize);
}

#[test]
fn new_packs_the_parts() {
    let op: InitializedOperatorImpl<u8, u8, u8, u8, u8> =
        InitializedOperatorImpl::new(1, 2, vec![3], vec![4], 5);
    assert_eq!(op.params, 1);
    assert_eq!(op.result_descriptor, 2);
    assert_eq!(op.raster_sources, vec![3]);
    assert_eq!(op.vector_sources, vec![4]);
    assert_eq!(op.state, 5);
}
