use firefront_gis::tiles::{cut_tiles, slice_images, to_km, SliceError, Tile};
use image::{DynamicImage, GenericImageView, Rgb, RgbImage};

#[test]
fn test_slice_images() {
    // porto-vecchio: 25 km at 10 m per pixel, lower-left corner (1210000, 6070000)
    let tiles = slice_images(2500, 2500, 1210000, 6070000, 10, 500).unwrap();
    assert_eq!(tiles.len(), 25);
}

#[test]
fn test_slices() {
    match slice_images(2500, 2500, 1210000, 6070000, 10, 500) {
        Ok(tiles) => {
            assert_eq!(tiles[0].coord_x, 1210);
            assert_eq!(tiles[0].coord_y, 6070);
            assert_eq!(tiles[24].coord_x, 1230);
            assert_eq!(tiles[24].coord_y, 6090);
        }
        Err(e) => {
            panic!("Slicing failed: {:?}", e);
        }
    }
}

#[test]
fn two_by_two_canvas_gives_four_named_tiles() {
    let tiles = slice_images(1000, 1000, 1210000, 6070000, 10, 500).unwrap();
    assert_eq!(
        tiles,
        vec![
            Tile { img_x: 0, img_y: 500, size: 500, coord_x: 1210, coord_y: 6070 },
            Tile { img_x: 500, img_y: 500, size: 500, coord_x: 1215, coord_y: 6070 },
            Tile { img_x: 0, img_y: 0, size: 500, coord_x: 1210, coord_y: 6075 },
            Tile { img_x: 500, img_y: 0, size: 500, coord_x: 1215, coord_y: 6075 },
        ]
    );
    for t in &tiles {
        assert!(t.img_x + t.size <= 1000 && t.img_y + t.size <= 1000);
    }
    assert_eq!(tiles[1].thematic_name(), "1215_6070_veget_500.jpg");
    assert_eq!(tiles[1].photo_name(), "1215_6070_500.jpg");
}

#[test]
fn partial_tiles_are_skipped() {
    let tiles = slice_images(1200, 700, 0, 0, 10, 500).unwrap();
    assert_eq!(tiles.len(), 2);
    assert_eq!(tiles[0].img_y, 0);
    assert_eq!(tiles[1].img_x, 500);
    // the 200 pixels below the row are left out
    assert_eq!(tiles[0].coord_y, 2);
    assert!(slice_images(499, 499, 0, 0, 10, 500).unwrap().is_empty());
}

#[test]
fn zero_slice_factor_is_refused() {
    assert_eq!(slice_images(1000, 1000, 0, 0, 10, 0), Err(SliceError::ZeroSliceFactor));
}

#[test]
fn kilometres_round_down() {
    assert_eq!(to_km(1210999), 1210);
    assert_eq!(to_km(0), 0);
    assert_eq!(to_km(-1), -1);
    assert_eq!(to_km(-1000), -1);
    assert_eq!(to_km(-1001), -2);
    let tiles = slice_images(500, 500, -1500, -500, 10, 500).unwrap();
    assert_eq!(tiles[0].thematic_name(), "-2_-1_veget_500.jpg");
}

#[test]
fn both_images_are_cut_into_the_same_squares() {
    let mut a = RgbImage::new(1000, 1000);
    a.put_pixel(600, 100, Rgb([9, 8, 7]));
    let mut b = RgbImage::new(1000, 1000);
    b.put_pixel(600, 100, Rgb([1, 2, 3]));
    let (a, b) = (DynamicImage::ImageRgb8(a), DynamicImage::ImageRgb8(b));
    let cut = cut_tiles(&a, &b, 1210000, 6070000, 10, 500).unwrap();
    assert_eq!((cut.width, cut.height), (1000, 1000));
    assert_eq!(cut.tiles.len(), 4);
    // the upper-right square is the last one, bottom row first
    let last = &cut.tiles[3];
    assert_eq!((last.tile.img_x, last.tile.img_y), (500, 0));
    assert_eq!(last.thematic.dimensions(), (500, 500));
    assert_eq!(last.thematic.to_rgb8().get_pixel(100, 100), &Rgb([9, 8, 7]));
    assert_eq!(last.photo.to_rgb8().get_pixel(100, 100), &Rgb([1, 2, 3]));
    assert_eq!(cut.tiles[0].photo.to_rgb8().get_pixel(100, 100), &Rgb([0, 0, 0]));
}

#[test]
fn images_of_different_sizes_are_refused() {
    let a = DynamicImage::ImageRgb8(RgbImage::new(1000, 1000));
    let b = DynamicImage::ImageRgb8(RgbImage::new(1000, 500));
    assert!(matches!(cut_tiles(&a, &b, 0, 0, 10, 500), Err(SliceError::SizeMismatch)));
    assert!(matches!(cut_tiles(&a, &a, 0, 0, 10, 0), Err(SliceError::ZeroSliceFactor)));
}
