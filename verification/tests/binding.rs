use geokernels::cl_program::{CLProgram, IterationType, RasterArgument, VectorArgument};
use geokernels::error::Error;
use geokernels::features::{
    ColumnSpec, FeatureCollectionBatchBuilder, FeatureDataType, MultiPointCollection,
    TypedFeatureCollection, VectorDataType,
};
use geokernels::geo_transform::{Coordinate2D, GeoTransform};
use geokernels::raster::{GridDimension2D, Raster2D, RasterDataType, TimeInterval, TypedRaster2D};

fn i32_tile(width: usize, height: usize, data: Vec<i32>, no_data: Option<i32>) -> TypedRaster2D {
    TypedRaster2D::I32(Raster2D::new(
        GridDimension2D::new(width, height),
        data,
        no_data,
        TimeInterval::new(0, 1),
        GeoTransform::default(),
    ))
}

fn point_collection(
    coords: Vec<(f64, f64)>,
    offsets: Vec<i32>,
    columns: Vec<ColumnSpec>,
) -> TypedFeatureCollection {
    let n = offsets.len() - 1;
    TypedFeatureCollection::MultiPoint(MultiPointCollection::from_data(
        coords
            .into_iter()
            .map(|(x, y)| Coordinate2D::new(x.to_bits(), y.to_bits()))
            .collect(),
        offsets,
        vec![TimeInterval::new(0, 1); n],
        columns,
    ))
}

#[test]
fn set_input_raster_validates_index_and_tag() {
    let mut program = CLProgram::new(IterationType::Raster);
    program.add_input_raster(RasterArgument::new(RasterDataType::I32));
    program.add_output_raster(RasterArgument::new(RasterDataType::I32));
    let compiled = program.compile("", "k").unwrap();
    let mut runnable = compiled.runnable();

    let tile = i32_tile(3, 2, vec![1, 2, 3, 4, 5, 6], None);
    assert_eq!(
        runnable.set_input_raster(1, tile.clone()),
        Err(Error::InvalidRasterIndex)
    );
    let wrong = TypedRaster2D::U8(Raster2D::new(
        GridDimension2D::new(1, 1),
        vec![1u8],
        None,
        TimeInterval::new(0, 1),
        GeoTransform::default(),
    ));
    assert_eq!(
        runnable.set_input_raster(0, wrong.clone()),
        Err(Error::InvalidRasterDataType)
    );
    assert_eq!(runnable.set_input_raster(0, tile.clone()), Ok(()));
    assert_eq!(
        runnable.set_output_raster(3, tile.clone()),
        Err(Error::InvalidRasterIndex)
    );
    assert_eq!(
        runnable.set_output_raster(0, wrong),
        Err(Error::InvalidRasterDataType)
    );
    assert_eq!(runnable.set_output_raster(0, tile), Ok(()));
}

#[test]
fn set_input_features_validates_tag() {
    let mut program = CLProgram::new(IterationType::VectorCoordinates);
    program.add_input_features(VectorArgument::new(VectorDataType::MultiPoint, vec![], vec![]));
    program.add_output_features(VectorArgument::new(VectorDataType::MultiPoint, vec![], vec![]));
    let compiled = program.compile("", "k").unwrap();
    let mut runnable = compiled.runnable();

    let data_only = TypedFeatureCollection::Data(geokernels::features::DataCollection {
        time_intervals: vec![],
        columns: vec![],
    });
    assert_eq!(
        runnable.set_input_features(0, data_only),
        Err(Error::InvalidVectorDataType)
    );
    let points = point_collection(vec![(0.0, 0.0)], vec![0, 1], vec![]);
    assert_eq!(
        runnable.set_input_features(2, points.clone()),
        Err(Error::InvalidFeaturesIndex)
    );
    assert_eq!(runnable.set_input_features(0, points), Ok(()));
}

#[test]
fn set_input_features_validates_columns() {
    let mut program = CLProgram::new(IterationType::VectorFeatures);
    program.add_input_features(VectorArgument::new(
        VectorDataType::MultiPoint,
        vec!["population".to_string(), "name".to_string()],
        vec![FeatureDataType::Number, FeatureDataType::Text],
    ));
    program.add_output_features(VectorArgument::new(VectorDataType::MultiPoint, vec![], vec![]));
    let compiled = program.compile("", "k").unwrap();
    let mut runnable = compiled.runnable();

    // The column is absent entirely.
    let missing = point_collection(
        vec![(0.0, 0.0)],
        vec![0, 1],
        vec![ColumnSpec {
            name: "population".to_string(),
            data_type: FeatureDataType::Number,
        }],
    );
    assert_eq!(
        runnable.set_input_features(0, missing),
        Err(Error::MissingColumn)
    );

    // The column is present with another attribute type.
    let mismatched = point_collection(
        vec![(0.0, 0.0)],
        vec![0, 1],
        vec![
            ColumnSpec {
                name: "population".to_string(),
                data_type: FeatureDataType::Number,
            },
            ColumnSpec {
                name: "name".to_string(),
                data_type: FeatureDataType::Decimal,
            },
        ],
    );
    assert_eq!(
        runnable.set_input_features(0, mismatched),
        Err(Error::ColumnTypeMismatch)
    );

    let matching = point_collection(
        vec![(0.0, 0.0)],
        vec![0, 1],
        vec![
            ColumnSpec {
                name: "name".to_string(),
                data_type: FeatureDataType::Text,
            },
            ColumnSpec {
                name: "population".to_string(),
                data_type: FeatureDataType::Number,
            },
        ],
    );
    assert_eq!(runnable.set_input_features(0, matching), Ok(()));
}

#[test]
fn set_output_features_validates_index_only() {
    let mut program = CLProgram::new(IterationType::VectorCoordinates);
    program.add_input_features(VectorArgument::new(VectorDataType::MultiPoint, vec![], vec![]));
    program.add_output_features(VectorArgument::new(VectorDataType::MultiPoint, vec![], vec![]));
    let compiled = program.compile("", "k").unwrap();
    let mut runnable = compiled.runnable();

    let builder = FeatureCollectionBatchBuilder::new(VectorDataType::MultiPoint, 1, 1);
    assert_eq!(
        runnable.set_output_features(1, builder.clone()),
        Err(Error::InvalidFeaturesIndex)
    );
    assert_eq!(runnable.set_output_features(0, builder), Ok(()));
}

#[test]
fn finish_rejects_line_and_polygon_builders() {
    let mut line_builder = FeatureCollectionBatchBuilder::new(VectorDataType::MultiLineString, 0, 0);
    assert_eq!(line_builder.finish(), Err(Error::UnsupportedGeometry));
    let mut polygon_builder = FeatureCollectionBatchBuilder::new(VectorDataType::MultiPolygon, 0, 0);
    assert_eq!(polygon_builder.finish(), Err(Error::UnsupportedGeometry));
}

#[test]
fn backend_error_keeps_its_diagnostic() {
    let e = Error::Backend("CL_DEVICE_NOT_FOUND".to_string());
    match e {
        Error::Backend(msg) => assert_eq!(msg, "CL_DEVICE_NOT_FOUND"),
        _ => unreachable!(),
    }
}

#[test]
fn collection_counts_follow_the_kind() {
    let points = point_collection(vec![(0.0, 0.0), (1.0, 1.0)], vec![0, 1, 2], vec![]);
    assert_eq!(points.num_features(), 2);
    assert_eq!(points.num_coords(), 2);

    let data_only = TypedFeatureCollection::Data(geokernels::features::DataCollection {
        time_intervals: vec![TimeInterval::new(0, 1)],
        columns: vec![],
    });
    assert_eq!(data_only.num_features(), 1);
    assert_eq!(data_only.num_coords(), 0);
    assert_eq!(data_only.vector_data_type(), VectorDataType::Data);
}
