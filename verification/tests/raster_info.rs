use geokernels::geo_transform::GeoTransform;
use geokernels::raster::{GridDimension2D, Raster2D, TimeInterval, TypedRaster2D};
use geokernels::raster_info::{widen_single_bits_exec, RasterInfo};

#[test]
fn from_raster_populates_extent_and_no_data() {
    let tile = TypedRaster2D::I32(Raster2D::new(
        GridDimension2D::new(3, 2),
        vec![1, 2, 3, 4, 5, 6],
        Some(1337),
        TimeInterval::new(0, 1),
        GeoTransform::default(),
    ));
    let info = RasterInfo::from_raster(&tile);
    assert_eq!((info.size_x, info.size_y, info.size_z), (3, 2, 1));
    assert_eq!(info.has_no_data, 1);
    assert_eq!(info.no_data, (1337.0f64).to_bits());
    assert_eq!((info.origin_x, info.origin_y, info.origin_z), (0, 0, 0));
    assert_eq!((info.scale_x, info.scale_y, info.scale_z), (0, 0, 0));
    assert_eq!((info.min, info.max, info.crs_code), (0, 0, 0));
}

#[test]
fn from_raster_without_sentinel_is_zero() {
    let tile = TypedRaster2D::U16(Raster2D::new(
        GridDimension2D::new(2, 2),
        vec![1u16, 2, 3, 4],
        None,
        TimeInterval::new(0, 1),
        GeoTransform::default(),
    ));
    let info = RasterInfo::from_raster(&tile);
    assert_eq!(info.has_no_data, 0);
    assert_eq!(info.no_data, 0);
}

#[test]
fn from_raster_converts_signed_and_unsigned_sentinels() {
    let signed = TypedRaster2D::I64(Raster2D::new(
        GridDimension2D::new(1, 1),
        vec![0i64],
        Some(-42),
        TimeInterval::new(0, 1),
        GeoTransform::default(),
    ));
    assert_eq!(
        RasterInfo::from_raster(&signed).no_data,
        (-42.0f64).to_bits()
    );

    let unsigned = TypedRaster2D::U64(Raster2D::new(
        GridDimension2D::new(1, 1),
        vec![0u64],
        Some(u64::MAX),
        TimeInterval::new(0, 1),
        GeoTransform::default(),
    ));
    assert_eq!(
        RasterInfo::from_raster(&unsigned).no_data,
        (u64::MAX as f64).to_bits()
    );
}

#[test]
fn from_raster_widens_single_precision_sentinels() {
    let tile = TypedRaster2D::F32(Raster2D::new(
        GridDimension2D::new(1, 1),
        vec![(0.0f32).to_bits()],
        Some((1337.0f32).to_bits()),
        TimeInterval::new(0, 1),
        GeoTransform::default(),
    ));
    let info = RasterInfo::from_raster(&tile);
    assert_eq!(info.no_data, (1337.0f64).to_bits());
    assert_eq!(info.has_no_data, 1);
}

#[test]
fn from_raster_keeps_double_precision_sentinels() {
    let tile = TypedRaster2D::F64(Raster2D::new(
        GridDimension2D::new(1, 1),
        vec![(0.0f64).to_bits()],
        Some((1337.5f64).to_bits()),
        TimeInterval::new(0, 1),
        GeoTransform::default(),
    ));
    assert_eq!(RasterInfo::from_raster(&tile).no_data, (1337.5f64).to_bits());
}

#[test]
fn widening_matches_the_hardware_conversion() {
    let samples: Vec<f32> = vec![
        0.0,
        -0.0,
        1.0,
        -1.0,
        1337.0,
        0.1,
        -0.1,
        f32::MAX,
        f32::MIN_POSITIVE,
        1.0e-40,        // subnormal
        -7.0e-42,       // negative subnormal
        f32::INFINITY,
        f32::NEG_INFINITY,
        3.4028235e38,
        1.1754944e-38,
    ];
    for v in samples {
        assert_eq!(
            widen_single_bits_exec(v.to_bits()),
            (v as f64).to_bits(),
            "widening disagrees for {v}"
        );
    }
    // The smallest subnormal of all.
    assert_eq!(
        widen_single_bits_exec(1),
        (f32::from_bits(1) as f64).to_bits()
    );
    // A NaN stays a NaN with its payload in the high significand bits.
    let widened = f64::from_bits(widen_single_bits_exec(f32::NAN.to_bits()));
    assert!(widened.is_nan());
}
