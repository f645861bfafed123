use firefront_gis::canvas::{create_project, CanvasError, GeoTransform, PROJECT_EPSG};
use firefront_gis::geometry::BoundingBox;

fn get_test_bounding_box() -> BoundingBox {
    BoundingBox::new(1210000, 6070000, 1235000, 6095000)
}

#[test]
fn test_create_project() {
    let (xmin, ymin, xmax, ymax) = (1210000, 6070000, 1235000, 6095000);
    let result = create_project(&BoundingBox::new(xmin, ymin, xmax, ymax), 10, 500);
    assert!(result.is_ok(), "Project creation failed: {:?}", result.as_ref().err());
    let canvas = result.unwrap();
    assert_eq!(canvas.band_count(), 4, "Project should have 4 bands");
    let geotransform = canvas.geo_transform();
    assert_eq!(geotransform.origin_x, xmin, "Incorrect xmin in geotransform");
    assert_eq!(geotransform.origin_y, ymax, "Incorrect ymax in geotransform");
}

#[test]
fn test_project_creation() {
    let bbox = get_test_bounding_box();
    let result = create_project(&bbox, 10, 500);
    assert!(result.is_ok(), "Failed to create project");
    let canvas = result.unwrap();
    assert_eq!(canvas.band_count(), 4, "Expected 4 raster bands");
    let geotransform = canvas.geo_transform();
    assert_eq!(geotransform.origin_x, bbox.xmin, "Incorrect xmin");
    assert_eq!(geotransform.origin_y, bbox.ymax, "Incorrect ymax");
}

#[test]
fn canvas_of_five_kilometres_is_one_tile_wide() {
    let canvas = create_project(&BoundingBox::new(0, 0, 5000, 5000), 10, 500).unwrap();
    assert_eq!(canvas.width, 500);
    assert_eq!(canvas.height, 500);
    assert_eq!(canvas.band_count(), 4);
    assert!(canvas.alpha.iter().all(|&v| v == 255));
    assert!(canvas.red.iter().all(|&v| v == 0));
    assert!(canvas.green.iter().all(|&v| v == 0));
    assert!(canvas.blue.iter().all(|&v| v == 0));
    assert_eq!(canvas.red.len(), 250000);
    assert_eq!(canvas.epsg, PROJECT_EPSG);
    assert_eq!(
        canvas.geo_transform(),
        GeoTransform {
            origin_x: 0,
            pixel_width: 10,
            row_rotation: 0,
            origin_y: 5000,
            column_rotation: 0,
            pixel_height: -10,
        }
    );
}

#[test]
fn aligned_box_gives_multiples_of_slice_factor() {
    let canvas = create_project(&BoundingBox::new(-10000, 20000, 0, 35000), 10, 500).unwrap();
    assert_eq!(canvas.width, 1000);
    assert_eq!(canvas.height, 1500);
    assert_eq!(canvas.width % 500, 0);
    assert_eq!(canvas.height % 500, 0);
}

#[test]
fn misaligned_box_is_refused() {
    let r = create_project(&BoundingBox::new(0, 0, 6000, 5000), 10, 500);
    assert_eq!(r.err(), Some(CanvasError::NotSliceAligned { width: 600, height: 500 }));
}

#[test]
fn pixel_size_rounds_up() {
    // 4991 m at 10 m per pixel needs 500 pixels
    let canvas = create_project(&BoundingBox::new(0, 0, 4991, 5000), 10, 500).unwrap();
    assert_eq!(canvas.width, 500);
    let r = create_project(&BoundingBox::new(0, 0, 5001, 5000), 10, 500);
    assert_eq!(r.err(), Some(CanvasError::NotSliceAligned { width: 501, height: 500 }));
}

#[test]
fn zero_parameters_are_refused() {
    let bb = BoundingBox::new(0, 0, 5000, 5000);
    assert_eq!(create_project(&bb, 0, 500).err(), Some(CanvasError::ZeroResolution));
    assert_eq!(create_project(&bb, 10, 0).err(), Some(CanvasError::ZeroSliceFactor));
}

#[test]
fn huge_grid_is_refused() {
    let bb = BoundingBox::new(0, 0, i64::MAX, i64::MAX);
    let r = create_project(&bb, 1, 1);
    assert_eq!(r.err(), Some(CanvasError::TooLarge));
}

#[test]
fn bounding_box_measures_and_wkt() {
    let bb = BoundingBox::new(1210000, 6070000, 1235000, 6095000);
    assert_eq!(bb.width(), 25000);
    assert_eq!(bb.height(), 25000);
    assert_eq!(
        bb.to_wkt(),
        "POLYGON((1210000 6070000, 1235000 6070000, 1235000 6095000, 1210000 6095000, 1210000 6070000))"
    );
    let neg = BoundingBox::new(-5, -7, 3, 0);
    assert_eq!(neg.to_wkt(), "POLYGON((-5 -7, 3 -7, 3 0, -5 0, -5 -7))");
}

#[test]
fn boxes_overlap_when_sharing_a_point() {
    let a = BoundingBox::new(0, 0, 10, 10);
    assert!(a.overlaps(&BoundingBox::new(10, 10, 20, 20)));
    assert!(a.overlaps(&BoundingBox::new(5, -5, 6, 50)));
    assert!(!a.overlaps(&BoundingBox::new(11, 0, 20, 10)));
    assert!(!a.overlaps(&BoundingBox::new(0, -10, 10, -1)));
}
