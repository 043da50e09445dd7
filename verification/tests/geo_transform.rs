use geokernels::geo_transform::{Coordinate2D, GdalGeoTransform, GeoTransform};

#[test]
fn geo_transform_new() {
    let geo_transform = GeoTransform::new(
        Coordinate2D::new((0.0f64).to_bits(), (1.0f64).to_bits()),
        (2.0f64).to_bits(),
        (-3.0f64).to_bits(),
    );
    assert_eq!(geo_transform.upper_left_coordinate.x, (0.0f64).to_bits());
    assert_eq!(geo_transform.upper_left_coordinate.y, (1.0f64).to_bits());
    assert_eq!(geo_transform.x_pixel_size, (2.0f64).to_bits());
    assert_eq!(geo_transform.y_pixel_size, (-3.0f64).to_bits());
}

#[test]
fn geo_transform_new_with_coordinate_x_y() {
    let geo_transform = GeoTransform::new_with_coordinate_x_y(
        (0.0f64).to_bits(),
        (1.0f64).to_bits(),
        (2.0f64).to_bits(),
        (-3.0f64).to_bits(),
    );
    assert_eq!(geo_transform.upper_left_coordinate.x, (0.0f64).to_bits());
    assert_eq!(geo_transform.x_pixel_size, (1.0f64).to_bits());
    assert_eq!(geo_transform.upper_left_coordinate.y, (2.0f64).to_bits());
    assert_eq!(geo_transform.y_pixel_size, (-3.0f64).to_bits());
}

#[test]
fn geo_transform_default_is_unit_north_up() {
    let geo_transform = GeoTransform::default();
    assert_eq!(geo_transform.upper_left_coordinate.x, (0.0f64).to_bits());
    assert_eq!(geo_transform.upper_left_coordinate.y, (0.0f64).to_bits());
    assert_eq!(geo_transform.x_pixel_size, (1.0f64).to_bits());
    assert_eq!(geo_transform.y_pixel_size, (-1.0f64).to_bits());
}

#[test]
fn gdal_bridge_round_trip() {
    let geo_transform = GeoTransform::new_with_coordinate_x_y(
        (5.0f64).to_bits(),
        (0.5f64).to_bits(),
        (-7.25f64).to_bits(),
        (-0.5f64).to_bits(),
    );
    let gdal: GdalGeoTransform = geo_transform.to_gdal();
    assert_eq!(gdal[0], (5.0f64).to_bits());
    assert_eq!(gdal[1], (0.5f64).to_bits());
    assert_eq!(gdal[2], (0.0f64).to_bits());
    assert_eq!(gdal[3], (-7.25f64).to_bits());
    assert_eq!(gdal[4], (0.0f64).to_bits());
    assert_eq!(gdal[5], (-0.5f64).to_bits());
    let back = GeoTransform::from_gdal(gdal);
    assert_eq!(back, geo_transform);
}

#[test]
fn gdal_bridge_drops_rotation_terms() {
    let gdal: GdalGeoTransform = [
        (1.0f64).to_bits(),
        (2.0f64).to_bits(),
        (99.0f64).to_bits(),
        (3.0f64).to_bits(),
        (98.0f64).to_bits(),
        (4.0f64).to_bits(),
    ];
    let geo_transform = GeoTransform::from_gdal(gdal);
    let exported = geo_transform.to_gdal();
    assert_eq!(exported[0], (1.0f64).to_bits());
    assert_eq!(exported[1], (2.0f64).to_bits());
    assert_eq!(exported[2], (0.0f64).to_bits());
    assert_eq!(exported[3], (3.0f64).to_bits());
    assert_eq!(exported[4], (0.0f64).to_bits());
    assert_eq!(exported[5], (4.0f64).to_bits());
}
