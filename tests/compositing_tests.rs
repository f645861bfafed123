use firefront_gis::canvas::{create_project, RasterCanvas};
use firefront_gis::compositing::{
    apply_blank_overlay, apply_overlay, build_mask, merge_classes, CompositeError, LayerRaster,
    MaskRule,
};
use firefront_gis::geometry::BoundingBox;
use firefront_gis::layers::{
    add_layers, add_regional_layer, add_rpg_layer, add_topo_layer, add_vegetation_layer,
    BurnPolicy, LayerKind, Rgb, ThematicLayer, VegetationClass,
};

fn small_canvas() -> RasterCanvas {
    // 500 x 500 pixels; the tests work on the first few pixels
    create_project(&BoundingBox::new(0, 0, 5000, 5000), 10, 500).unwrap()
}

fn layer_with(n: usize, pixels: &[(usize, [u8; 3])], background: u8) -> LayerRaster {
    let mut l = LayerRaster::filled(500, n / 500, background).unwrap();
    for &(i, [r, g, b]) in pixels {
        l.red[i] = r;
        l.green[i] = g;
        l.blue[i] = b;
    }
    l
}

fn pixel(c: &RasterCanvas, i: usize) -> [u8; 4] {
    [c.red[i], c.green[i], c.blue[i], c.alpha[i]]
}

#[test]
fn mask_rules_per_layer_category() {
    let l = layer_with(250000, &[(0, [0, 0, 1]), (1, [255, 255, 255]), (2, [0, 0, 0])], 0);
    let m = build_mask(&l, MaskRule::NonZero);
    assert_eq!(&m[0..4], &[true, true, false, false]);
    let t = layer_with(250000, &[(0, [0, 0, 0]), (1, [255, 254, 255])], 255);
    let m = build_mask(&t, MaskRule::NotBackground);
    assert_eq!(&m[0..3], &[true, true, false]);
    assert_eq!(LayerKind::Topographic.mask_rule(), MaskRule::NotBackground);
    assert_eq!(LayerKind::Parcels.mask_rule(), MaskRule::NonZero);
    assert!(MaskRule::NonZero.accepts(1));
    assert!(!MaskRule::NotBackground.accepts(255));
}

#[test]
fn overlay_copies_painted_pixels_only() {
    let mut c = small_canvas();
    let l = layer_with(250000, &[(3, [25, 50, 60])], 0);
    apply_overlay(&mut c, &l, MaskRule::NonZero).unwrap();
    assert_eq!(pixel(&c, 3), [25, 50, 60, 255]);
    assert_eq!(pixel(&c, 4), [0, 0, 0, 255]);
}

#[test]
fn overlay_twice_equals_once() {
    let mut once = small_canvas();
    let l = layer_with(250000, &[(0, [80, 200, 120]), (7, [0, 9, 0])], 0);
    apply_overlay(&mut once, &l, MaskRule::NonZero).unwrap();
    let mut twice = small_canvas();
    apply_overlay(&mut twice, &l, MaskRule::NonZero).unwrap();
    apply_overlay(&mut twice, &l, MaskRule::NonZero).unwrap();
    assert_eq!(once.red, twice.red);
    assert_eq!(once.green, twice.green);
    assert_eq!(once.blue, twice.blue);
    assert_eq!(once.alpha, twice.alpha);
}

#[test]
fn later_layer_wins_on_shared_pixel() {
    let mut c = small_canvas();
    let l1 = layer_with(250000, &[(5, [80, 200, 120]), (6, [1, 1, 1])], 0);
    let l2 = layer_with(250000, &[(5, [25, 50, 60])], 0);
    apply_overlay(&mut c, &l1, MaskRule::NonZero).unwrap();
    apply_overlay(&mut c, &l2, MaskRule::NonZero).unwrap();
    assert_eq!(pixel(&c, 5), [25, 50, 60, 255]);
    assert_eq!(pixel(&c, 6), [1, 1, 1, 255]);
}

#[test]
fn topographic_features_blank_the_canvas() {
    let mut c = small_canvas();
    let l = layer_with(250000, &[(2, [50, 200, 80]), (3, [50, 200, 80])], 0);
    apply_overlay(&mut c, &l, MaskRule::NonZero).unwrap();
    let topo = layer_with(250000, &[(2, [0, 0, 0])], 255);
    apply_blank_overlay(&mut c, &topo).unwrap();
    assert_eq!(pixel(&c, 2), [0, 0, 0, 255]);
    assert_eq!(pixel(&c, 3), [50, 200, 80, 255]);
}

#[test]
fn overlay_of_other_size_is_refused() {
    let mut c = small_canvas();
    let l = LayerRaster::filled(10, 10, 7).unwrap();
    assert_eq!(apply_overlay(&mut c, &l, MaskRule::NonZero), Err(CompositeError::SizeMismatch));
    assert_eq!(apply_blank_overlay(&mut c, &l), Err(CompositeError::SizeMismatch));
    assert!(c.red.iter().all(|&v| v == 0));
}

#[test]
fn classes_merge_by_precedence() {
    let a = layer_with(250000, &[(0, [80, 200, 120])], 0);
    let b = layer_with(250000, &[(0, [25, 50, 60]), (1, [25, 50, 60])], 0);
    let c = layer_with(250000, &[(0, [50, 200, 80]), (1, [50, 200, 80]), (2, [50, 200, 80])], 0);
    let m = merge_classes(&a, &b, &c).unwrap();
    assert_eq!([m.red[0], m.green[0], m.blue[0]], [80, 200, 120]);
    assert_eq!([m.red[1], m.green[1], m.blue[1]], [25, 50, 60]);
    assert_eq!([m.red[2], m.green[2], m.blue[2]], [50, 200, 80]);
    assert_eq!([m.red[3], m.green[3], m.blue[3]], [0, 0, 0]);
    let small = LayerRaster::filled(1, 1, 0).unwrap();
    assert_eq!(merge_classes(&a, &small, &c).err(), Some(CompositeError::SizeMismatch));
}

#[test]
fn layers_composite_in_priority_order() {
    let mut c = small_canvas();
    // given out of order: topographic first, parcels, then vegetation
    let layers = vec![
        ThematicLayer { kind: LayerKind::Topographic, raster: layer_with(250000, &[(1, [0, 0, 0])], 255) },
        ThematicLayer { kind: LayerKind::Parcels, raster: layer_with(250000, &[(0, [25, 50, 60]), (1, [25, 50, 60])], 0) },
        ThematicLayer { kind: LayerKind::Vegetation, raster: layer_with(250000, &[(0, [80, 200, 120]), (2, [80, 200, 120])], 0) },
        ThematicLayer { kind: LayerKind::Regional, raster: layer_with(250000, &[], 0) },
    ];
    add_layers(&mut c, &layers).unwrap();
    assert_eq!(pixel(&c, 0), [25, 50, 60, 255]);
    assert_eq!(pixel(&c, 1), [0, 0, 0, 255]);
    assert_eq!(pixel(&c, 2), [80, 200, 120, 255]);
    assert_eq!(pixel(&c, 3), [0, 0, 0, 255]);
    let bad = vec![ThematicLayer { kind: LayerKind::Parcels, raster: LayerRaster::filled(2, 2, 9).unwrap() }];
    assert_eq!(add_layers(&mut c, &bad), Err(CompositeError::SizeMismatch));
    assert_eq!(pixel(&c, 0), [25, 50, 60, 255]);
}

#[test]
fn burn_policies_and_ranks() {
    assert_eq!(LayerKind::Parcels.burn_policy(), BurnPolicy::Flat(Rgb { red: 25, green: 50, blue: 60 }));
    assert_eq!(LayerKind::Vegetation.burn_policy(), BurnPolicy::ByClass);
    assert_eq!(LayerKind::Topographic.background(), 255);
    assert_eq!(LayerKind::Regional.background(), 0);
    assert!(LayerKind::Regional.rank() < LayerKind::Vegetation.rank());
    assert!(LayerKind::Parcels.rank() < LayerKind::Topographic.rank());
    assert_eq!(VegetationClass::Broadleaf.color(), Rgb { red: 80, green: 200, blue: 120 });
    assert_eq!(VegetationClass::Other.color(), Rgb { red: 50, green: 200, blue: 80 });
}

#[test]
fn vegetation_class_filters() {
    assert_eq!(
        VegetationClass::Broadleaf.filter(),
        "ESSENCE IN ('Feuillus', 'Châtaignier', 'Chênes sempervirents', 'Chênes décidus', 'Hêtre')"
    );
    assert_eq!(VegetationClass::Unclassified.filter(), "ESSENCE IN ('NC', 'NR')");
    assert_eq!(
        VegetationClass::Other.filter(),
        "ESSENCE IS NULL OR ESSENCE NOT IN ('Feuillus', 'Châtaignier', 'Chênes sempervirents', 'Chênes décidus', 'Hêtre', 'NC', 'NR')"
    );
}

#[test]
fn category_layers_in_sequence() {
    let mut c = small_canvas();
    add_regional_layer(&mut c, &layer_with(250000, &[], 0)).unwrap();
    let broadleaf = layer_with(250000, &[(0, [80, 200, 120])], 0);
    let unclassified = layer_with(250000, &[(0, [25, 50, 60]), (1, [25, 50, 60])], 0);
    let other = layer_with(250000, &[(2, [50, 200, 80])], 0);
    add_vegetation_layer(&mut c, &broadleaf, &unclassified, &other).unwrap();
    assert_eq!(pixel(&c, 0), [80, 200, 120, 255]);
    assert_eq!(pixel(&c, 1), [25, 50, 60, 255]);
    add_rpg_layer(&mut c, &layer_with(250000, &[(2, [25, 50, 60])], 0)).unwrap();
    assert_eq!(pixel(&c, 2), [25, 50, 60, 255]);
    add_topo_layer(&mut c, &layer_with(250000, &[(0, [0, 0, 0])], 255)).unwrap();
    assert_eq!(pixel(&c, 0), [0, 0, 0, 255]);
    assert_eq!(pixel(&c, 1), [25, 50, 60, 255]);
    let small = LayerRaster::filled(1, 1, 0).unwrap();
    assert_eq!(add_vegetation_layer(&mut c, &small, &unclassified, &other), Err(CompositeError::SizeMismatch));
}
