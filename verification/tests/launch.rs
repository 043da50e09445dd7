use geokernels::cl_program::{
    ArgKind, CLProgram, CompiledCLProgram, IterationType, RasterArgument, SpatialDims,
    VectorArgument,
};
use geokernels::error::Error;
use geokernels::features::{FeatureCollectionBatchBuilder, TypedFeatureCollection, VectorDataType};
use geokernels::geo_transform::{Coordinate2D, GeoTransform};
use geokernels::raster::{GridDimension2D, Raster2D, RasterDataType, TimeInterval, TypedRaster2D};
use geokernels::runnable::{
    CLProgramRunnable, DeviceCommand, FeatureReadback, PointBuffers, RasterOutputBuffer,
};

fn i32_raster(width: usize, height: usize, data: Vec<i32>) -> TypedRaster2D {
    TypedRaster2D::I32(Raster2D::new(
        GridDimension2D::new(width, height),
        data,
        None,
        TimeInterval::new(0, 1),
        GeoTransform::default(),
    ))
}

fn add_program() -> CompiledCLProgram {
    let mut program = CLProgram::new(IterationType::Raster);
    program.add_input_raster(RasterArgument::new(RasterDataType::I32));
    program.add_input_raster(RasterArgument::new(RasterDataType::I32));
    program.add_output_raster(RasterArgument::new(RasterDataType::I32));
    program
        .compile(
            "__kernel void add(...) { out_data[idx] = in_data0[idx] + in_data1[idx]; }",
            "add",
        )
        .unwrap()
}

/// Carries one run out the way the host around the library does, with the
/// kernel simulated as element-wise addition of the two inputs.
fn run_simulated_add(compiled: &CompiledCLProgram, mut runnable: CLProgramRunnable) -> Vec<i32> {
    let plan = compiled.prepare_run(&mut runnable).unwrap();

    let mut inputs: Vec<Vec<i32>> = Vec::new();
    let mut out_len = 0usize;
    for command in &plan.commands {
        match command {
            DeviceCommand::UploadRasterData { input_index, .. } => {
                match &runnable.input_rasters[*input_index] {
                    Some(TypedRaster2D::I32(tile)) => inputs.push(tile.data_container.clone()),
                    _ => unreachable!(),
                }
            }
            DeviceCommand::AllocRasterData { len, .. } => out_len = *len,
            _ => {}
        }
    }
    let result: Vec<i32> = (0..out_len).map(|i| inputs[0][i] + inputs[1][i]).collect();

    runnable
        .read_output_buffers(vec![RasterOutputBuffer::I32(result)], vec![])
        .unwrap();
    match runnable.output_rasters.remove(0) {
        Some(TypedRaster2D::I32(tile)) => tile.data_container,
        _ => unreachable!(),
    }
}

#[test]
fn launch_plan_names_follow_the_calling_convention() {
    let compiled = add_program();
    let mut runnable = compiled.runnable();
    runnable
        .set_input_raster(0, i32_raster(3, 2, vec![1, 2, 3, 4, 5, 6]))
        .unwrap();
    runnable
        .set_input_raster(1, i32_raster(3, 2, vec![7, 8, 9, 10, 11, 12]))
        .unwrap();
    runnable
        .set_output_raster(0, i32_raster(3, 2, vec![-1; 6]))
        .unwrap();
    let plan = compiled.prepare_run(&mut runnable).unwrap();

    let names: Vec<&str> = plan.placeholders.iter().map(|p| p.name.as_str()).collect();
    assert_eq!(
        names,
        vec!["IN0", "IN_INFO0", "IN1", "IN_INFO1", "OUT0", "OUT_INFO0"]
    );
    assert_eq!(plan.placeholders[0].kind, ArgKind::RasterData(RasterDataType::I32));
    assert_eq!(plan.placeholders[1].kind, ArgKind::RasterInfoRecord);
    assert_eq!(plan.work_size, SpatialDims::Two(3, 2));

    assert_eq!(plan.commands.len(), 6);
    match &plan.commands[0] {
        DeviceCommand::UploadRasterData { name, input_index } => {
            assert_eq!(name, "IN0");
            assert_eq!(*input_index, 0);
        }
        _ => unreachable!(),
    }
    match &plan.commands[1] {
        DeviceCommand::UploadRasterInfo { name, info } => {
            assert_eq!(name, "IN_INFO0");
            assert_eq!(info.size_x, 3);
            assert_eq!(info.size_y, 2);
            assert_eq!(info.size_z, 1);
            assert_eq!(info.has_no_data, 0);
        }
        _ => unreachable!(),
    }
    match &plan.commands[4] {
        DeviceCommand::AllocRasterData { name, data_type, len } => {
            assert_eq!(name, "OUT0");
            assert_eq!(*data_type, RasterDataType::I32);
            assert_eq!(*len, 6);
        }
        _ => unreachable!(),
    }
}

#[test]
fn element_wise_add_same_type() {
    let compiled = add_program();
    let mut runnable = compiled.runnable();
    runnable
        .set_input_raster(0, i32_raster(3, 2, vec![1, 2, 3, 4, 5, 6]))
        .unwrap();
    runnable
        .set_input_raster(1, i32_raster(3, 2, vec![7, 8, 9, 10, 11, 12]))
        .unwrap();
    runnable
        .set_output_raster(0, i32_raster(3, 2, vec![-1; 6]))
        .unwrap();
    assert_eq!(
        run_simulated_add(&compiled, runnable),
        vec![8, 10, 12, 14, 16, 18]
    );
}

#[test]
fn kernel_reuse_no_state_across_runs() {
    let compiled = add_program();

    let mut first = compiled.runnable();
    first
        .set_input_raster(0, i32_raster(3, 2, vec![1, 2, 3, 4, 5, 6]))
        .unwrap();
    first
        .set_input_raster(1, i32_raster(3, 2, vec![7, 8, 9, 10, 11, 12]))
        .unwrap();
    first
        .set_output_raster(0, i32_raster(3, 2, vec![-1; 6]))
        .unwrap();
    assert_eq!(
        run_simulated_add(&compiled, first),
        vec![8, 10, 12, 14, 16, 18]
    );

    // A second runnable of the same compiled program starts fresh: with
    // the second input replaced by the first, the output depends only on
    // this invocation's inputs.
    let mut second = compiled.runnable();
    second
        .set_input_raster(0, i32_raster(3, 2, vec![1, 2, 3, 4, 5, 6]))
        .unwrap();
    second
        .set_input_raster(1, i32_raster(3, 2, vec![1, 2, 3, 4, 5, 6]))
        .unwrap();
    second
        .set_output_raster(0, i32_raster(3, 2, vec![-1; 6]))
        .unwrap();
    assert_eq!(
        run_simulated_add(&compiled, second),
        vec![2, 4, 6, 8, 10, 12]
    );
}

#[test]
fn unbound_slots_fail_the_run() {
    let compiled = add_program();
    let mut runnable = compiled.runnable();
    runnable
        .set_input_raster(0, i32_raster(3, 2, vec![1, 2, 3, 4, 5, 6]))
        .unwrap();
    // The second input and the output stay unbound.
    assert_eq!(
        compiled.prepare_run(&mut runnable).unwrap_err(),
        Error::UnspecifiedRaster
    );

    let mut vector_program = CLProgram::new(IterationType::VectorCoordinates);
    vector_program.add_input_features(VectorArgument::new(
        VectorDataType::MultiPoint,
        vec![],
        vec![],
    ));
    vector_program.add_output_features(VectorArgument::new(
        VectorDataType::MultiPoint,
        vec![],
        vec![],
    ));
    let vector_compiled = vector_program.compile("", "k").unwrap();
    let mut vector_runnable = vector_compiled.runnable();
    assert_eq!(
        vector_compiled.prepare_run(&mut vector_runnable).unwrap_err(),
        Error::UnspecifiedFeatures
    );
}

#[test]
fn line_declarations_fail_with_unsupported_geometry() {
    let mut program = CLProgram::new(IterationType::VectorFeatures);
    program.add_input_features(VectorArgument::new(
        VectorDataType::MultiLineString,
        vec![],
        vec![],
    ));
    program.add_output_features(VectorArgument::new(VectorDataType::MultiPoint, vec![], vec![]));
    let compiled = program.compile("", "k").unwrap();
    let mut runnable = compiled.runnable();
    assert_eq!(
        compiled.prepare_run(&mut runnable).unwrap_err(),
        Error::UnsupportedGeometry
    );
}

#[test]
fn empty_work_size_fails_before_dispatch() {
    let compiled = {
        let mut program = CLProgram::new(IterationType::Raster);
        program.add_input_raster(RasterArgument::new(RasterDataType::I32));
        program.add_output_raster(RasterArgument::new(RasterDataType::I32));
        program.compile("", "k").unwrap()
    };
    let mut runnable = compiled.runnable();
    runnable.set_input_raster(0, i32_raster(0, 2, vec![])).unwrap();
    runnable.set_output_raster(0, i32_raster(0, 2, vec![])).unwrap();
    assert_eq!(
        compiled.prepare_run(&mut runnable).unwrap_err(),
        Error::EmptyWorkSize
    );
}

#[test]
fn multipoint_coordinates_round_trip() {
    let mut program = CLProgram::new(IterationType::VectorCoordinates);
    program.add_input_features(VectorArgument::new(VectorDataType::MultiPoint, vec![], vec![]));
    program.add_output_features(VectorArgument::new(VectorDataType::MultiPoint, vec![], vec![]));
    let compiled = program
        .compile(
            "__kernel void points(...) { OUT_POINT_COORDS0[idx].y = IN_POINT_COORDS0[idx].y + 1; }",
            "points",
        )
        .unwrap();

    let input_coords: Vec<(f64, f64)> = vec![(0.0, 0.0), (1.0, 1.0), (2.0, 2.0), (3.0, 3.0)];
    let collection = geokernels::features::MultiPointCollection::from_data(
        input_coords
            .iter()
            .map(|(x, y)| Coordinate2D::new(x.to_bits(), y.to_bits()))
            .collect(),
        vec![0, 1, 3, 4],
        vec![TimeInterval::new(0, 1), TimeInterval::new(1, 2), TimeInterval::new(2, 3)],
        vec![],
    );

    let mut runnable = compiled.runnable();
    runnable
        .set_input_features(0, TypedFeatureCollection::MultiPoint(collection))
        .unwrap();
    runnable
        .set_output_features(0, FeatureCollectionBatchBuilder::new(VectorDataType::MultiPoint, 3, 4))
        .unwrap();

    let plan = compiled.prepare_run(&mut runnable).unwrap();
    assert_eq!(plan.work_size, SpatialDims::One(4));
    let names: Vec<&str> = plan.placeholders.iter().map(|p| p.name.as_str()).collect();
    assert_eq!(
        names,
        vec!["IN_POINT_COORDS0", "IN_POINT_OFFSETS0", "OUT_POINT_COORDS0", "OUT_POINT_OFFSETS0"]
    );

    // Simulate the kernel: copy x, add one to y, copy the offsets over.
    let (coords, offsets) = match &runnable.input_features[0] {
        Some(TypedFeatureCollection::MultiPoint(c)) => {
            (c.coordinates.clone(), c.multipoint_offsets.clone())
        }
        _ => unreachable!(),
    };
    let shifted: Vec<Coordinate2D> = coords
        .iter()
        .map(|c| Coordinate2D::new(c.x, (f64::from_bits(c.y) + 1.0).to_bits()))
        .collect();
    runnable
        .read_output_buffers(
            vec![],
            vec![FeatureReadback::Points(PointBuffers { coords: shifted, offsets })],
        )
        .unwrap();

    let builder = runnable.output_features.remove(0).unwrap();
    let output = builder.output.unwrap();
    let points = output.get_points().unwrap();
    let got: Vec<(f64, f64)> = points
        .coordinates
        .iter()
        .map(|c| (f64::from_bits(c.x), f64::from_bits(c.y)))
        .collect();
    assert_eq!(got, vec![(0.0, 1.0), (1.0, 2.0), (2.0, 3.0), (3.0, 4.0)]);
    assert_eq!(points.multipoint_offsets, vec![0, 1, 3, 4]);
    assert_eq!(points.time_intervals.len(), 3);
    assert_eq!(points.time_intervals[0], TimeInterval::new(i64::MIN, i64::MAX));
}

#[test]
fn empty_feature_work_size_fails() {
    let mut program = CLProgram::new(IterationType::VectorFeatures);
    program.add_input_features(VectorArgument::new(VectorDataType::MultiPoint, vec![], vec![]));
    program.add_output_features(VectorArgument::new(VectorDataType::MultiPoint, vec![], vec![]));
    let compiled = program.compile("", "k").unwrap();
    let mut runnable = compiled.runnable();
    let collection = geokernels::features::MultiPointCollection::from_data(
        vec![],
        vec![0],
        vec![],
        vec![],
    );
    runnable
        .set_input_features(0, TypedFeatureCollection::MultiPoint(collection))
        .unwrap();
    runnable
        .set_output_features(0, FeatureCollectionBatchBuilder::new(VectorDataType::MultiPoint, 0, 0))
        .unwrap();
    assert_eq!(
        compiled.prepare_run(&mut runnable).unwrap_err(),
        Error::EmptyWorkSize
    );
}

#[test]
fn mixed_types_travel_through_their_own_buffers() {
    let mut program = CLProgram::new(IterationType::Raster);
    program.add_input_raster(RasterArgument::new(RasterDataType::I32));
    program.add_input_raster(RasterArgument::new(RasterDataType::U16));
    program.add_output_raster(RasterArgument::new(RasterDataType::I64));
    let compiled = program.compile("BODY", "add").unwrap();

    let mut runnable = compiled.runnable();
    runnable
        .set_input_raster(0, i32_raster(3, 2, vec![1, 2, 3, 4, 5, 6]))
        .unwrap();
    runnable
        .set_input_raster(
            1,
            TypedRaster2D::U16(Raster2D::new(
                GridDimension2D::new(3, 2),
                vec![7u16, 8, 9, 10, 11, 12],
                None,
                TimeInterval::new(0, 1),
                GeoTransform::default(),
            )),
        )
        .unwrap();
    runnable
        .set_output_raster(
            0,
            TypedRaster2D::I64(Raster2D::new(
                GridDimension2D::new(3, 2),
                vec![-1i64; 6],
                None,
                TimeInterval::new(0, 1),
                GeoTransform::default(),
            )),
        )
        .unwrap();

    let plan = compiled.prepare_run(&mut runnable).unwrap();
    assert_eq!(plan.placeholders[2].kind, ArgKind::RasterData(RasterDataType::U16));
    assert_eq!(plan.placeholders[4].kind, ArgKind::RasterData(RasterDataType::I64));

    // Simulate the widening addition the kernel would perform.
    let a = match &runnable.input_rasters[0] {
        Some(TypedRaster2D::I32(t)) => t.data_container.clone(),
        _ => unreachable!(),
    };
    let b = match &runnable.input_rasters[1] {
        Some(TypedRaster2D::U16(t)) => t.data_container.clone(),
        _ => unreachable!(),
    };
    let sum: Vec<i64> = a.iter().zip(b.iter()).map(|(x, y)| *x as i64 + *y as i64).collect();
    runnable
        .read_output_buffers(vec![RasterOutputBuffer::I64(sum)], vec![])
        .unwrap();
    let out = runnable.output_rasters.remove(0).unwrap();
    assert_eq!(
        out.get_i64_ref().unwrap().data_container,
        vec![8, 10, 12, 14, 16, 18]
    );
    assert!(out.get_i32_ref().is_none());
}

#[test]
fn attribute_only_output_finishes_without_geometry() {
    let mut program = CLProgram::new(IterationType::VectorFeatures);
    program.add_input_features(VectorArgument::new(VectorDataType::MultiPoint, vec![], vec![]));
    program.add_output_features(VectorArgument::new(VectorDataType::Data, vec![], vec![]));
    let compiled = program.compile("", "k").unwrap();
    let mut runnable = compiled.runnable();
    let collection = geokernels::features::MultiPointCollection::from_data(
        vec![Coordinate2D::new((0.0f64).to_bits(), (0.0f64).to_bits())],
        vec![0, 1],
        vec![TimeInterval::new(0, 1)],
        vec![],
    );
    runnable
        .set_input_features(0, TypedFeatureCollection::MultiPoint(collection))
        .unwrap();
    runnable
        .set_output_features(0, FeatureCollectionBatchBuilder::new(VectorDataType::Data, 2, 0))
        .unwrap();

    let plan = compiled.prepare_run(&mut runnable).unwrap();
    // An attribute-only output contributes no geometry buffers.
    assert_eq!(plan.placeholders.len(), 2);
    assert_eq!(plan.work_size, SpatialDims::One(2));

    runnable
        .read_output_buffers(vec![], vec![FeatureReadback::NoGeo])
        .unwrap();
    let builder = runnable.output_features.remove(0).unwrap();
    match builder.output.unwrap() {
        TypedFeatureCollection::Data(dc) => {
            assert_eq!(dc.time_intervals.len(), 2);
            assert!(dc.columns.is_empty());
        }
        _ => unreachable!(),
    }
}
