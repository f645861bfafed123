use firefront_gis::canvas::create_project;
use firefront_gis::catalog::{catalog_requests, FOREST_CATALOG_URL, PARCELS_CATALOG_URL, TOPO_CATALOG_URL};
use firefront_gis::geometry::BoundingBox;
use firefront_gis::layers::Rgb;
use firefront_gis::satellite::{accept_download, next_download_step, satellite_request, DownloadError, DownloadStep};
use firefront_gis::layers::{burns_all_touched, LayerKind};
use firefront_gis::staging::{keep_between_regions, stem_matches};
use firefront_gis::toolkit::{burn_into_args, clip_args, convert_args, fusion_args, rasterize_args, FusionError};

fn strings(v: &[&str]) -> Vec<String> {
    v.iter().map(|s| s.to_string()).collect()
}

#[test]
fn rasterization_uses_the_canvas_frame() {
    let canvas = create_project(&BoundingBox::new(1210000, 6070000, 1235000, 6095000), 10, 500).unwrap();
    assert_eq!(canvas.extent(), (1210000, 6070000, 1235000, 6095000));
    let args = rasterize_args(
        &canvas,
        Rgb { red: 25, green: 50, blue: 60 },
        "PARCELLES_GRAPHIQUES",
        Some("ESSENCE IN ('NC', 'NR')"),
        "rpg.gpkg",
        "tmp/temp_rpg_layer.tif",
    );
    assert_eq!(
        args,
        strings(&[
            "-burn", "25", "-burn", "50", "-burn", "60", "-l", "PARCELLES_GRAPHIQUES", "-ts",
            "2500", "2500", "-te", "1210000", "6070000", "1235000", "6095000", "-where",
            "ESSENCE IN ('NC', 'NR')", "rpg.gpkg", "tmp/temp_rpg_layer.tif",
        ])
    );
}

#[test]
fn line_features_burn_every_touched_pixel() {
    let black = Rgb { red: 0, green: 0, blue: 0 };
    assert_eq!(
        burn_into_args(black, "TRONCON_DE_ROUTE", true, "routes.gpkg", "topo.tif"),
        strings(&["-burn", "0", "-burn", "0", "-burn", "0", "-l", "TRONCON_DE_ROUTE", "-at", "routes.gpkg", "topo.tif"])
    );
    assert_eq!(burn_into_args(black, "BATIMENT", false, "b.gpkg", "t.tif").len(), 10);
}

#[test]
fn vector_requests() {
    let clip = clip_args("in.gpkg", "out.gpkg", &BoundingBox::new(1, -2, 3, 4));
    assert_eq!(&clip[0..9], &strings(&["-f", "GPKG", "out.gpkg", "in.gpkg", "-clipsrc", "1", "-2", "3", "4"])[..]);
    assert_eq!(clip.len(), 21);
    let conv = convert_args("a.shp", "a.gpkg");
    assert_eq!(&conv[0..6], &strings(&["-f", "GPKG", "a.gpkg", "a.shp", "-t_srs", "EPSG:2154"])[..]);
    let runs = fusion_args(&strings(&["a.gpkg", "b.gpkg", "c.gpkg"]), "all.gpkg").unwrap();
    assert_eq!(runs.len(), 3);
    assert_eq!(runs[0], strings(&["-f", "GPKG", "all.gpkg", "a.gpkg"]));
    assert_eq!(runs[2], strings(&["-f", "GPKG", "-append", "-update", "all.gpkg", "c.gpkg"]));
    assert_eq!(fusion_args(&vec![], "x"), Err(FusionError::NoDatasets));
}

#[test]
fn satellite_request_for_a_box() {
    let q = satellite_request(&BoundingBox::new(1210000, 6070000, 1235000, 6095001), 10, "tmp").unwrap();
    assert_eq!((q.width, q.height), (2500, 2501));
    assert_eq!(q.resize, "2500x2501");
    assert_eq!(q.wms_file, "tmp/wms_config.xml");
    assert_eq!(q.raster_file, "tmp/satellite_temp.tif");
    assert_eq!(q.jpeg_file, "tmp/satellite_temp.jpg");
    assert!(q.wms_config.contains("<UpperLeftX>1210000</UpperLeftX>"));
    assert!(q.wms_config.contains("<UpperLeftY>6095001</UpperLeftY>"));
    assert!(q.wms_config.contains("<LowerRightY>6070000</LowerRightY>"));
    assert!(q.wms_config.contains("<SizeY>2501</SizeY>"));
    assert!(q.wms_config.contains("<Path>tmp/wms_cache</Path>"));
    assert!(satellite_request(&BoundingBox::new(0, 0, 1, 1), 0, "tmp").is_err());
}

#[test]
fn download_retries_three_times() {
    assert_eq!(next_download_step(1, true), DownloadStep::Done);
    assert_eq!(next_download_step(1, false), DownloadStep::RetryAfter(5));
    assert_eq!(next_download_step(2, false), DownloadStep::RetryAfter(5));
    assert_eq!(next_download_step(3, false), DownloadStep::GiveUp);
}

#[test]
fn catalog_pages_per_region() {
    let reqs = catalog_requests(&strings(&["2A", "75"])).unwrap();
    assert_eq!(reqs.len(), 6);
    assert_eq!(reqs[0].catalog_url, TOPO_CATALOG_URL);
    assert_eq!(reqs[1].catalog_url, FOREST_CATALOG_URL);
    assert_eq!(reqs[2].catalog_url, PARCELS_CATALOG_URL);
    assert_eq!(reqs[2].lookup_code, "94");
    assert_eq!(reqs[5].lookup_code, "11");
    assert_eq!(reqs[3].lookup_code, "75");
    assert_eq!(catalog_requests(&strings(&["2A", "XX"])).err(), Some("XX".to_string()));
}

#[test]
fn cleanup_keeps_geopackages_only() {
    assert!(keep_between_regions("2A_FORMATION_VEGETALE.gpkg", false));
    assert!(!keep_between_regions("2A.geojson", false));
    assert!(!keep_between_regions("FORMATION_VEGETALE", true));
    assert!(!keep_between_regions(".gpkg", false));
    assert!(!keep_between_regions("noextension", false));
    assert!(keep_between_regions("a.b.gpkg", false));
}

#[test]
fn extracted_files_match_by_stem() {
    assert!(stem_matches("FORMATION_VEGETALE.shp", "FORMATION_VEGETALE"));
    assert!(stem_matches("FORMATION_VEGETALE.dbf", "FORMATION_VEGETALE"));
    assert!(!stem_matches("FORMATION_VEGETALE_2.shp", "FORMATION_VEGETALE"));
    assert!(stem_matches("README", "README"));
    assert!(stem_matches(".hidden", ".hidden"));
    assert!(stem_matches("a.b.c", "a.b"));
}

#[test]
fn empty_download_is_a_failure() {
    assert_eq!(accept_download(0), Err(DownloadError::EmptyFile));
    assert_eq!(accept_download(1), Ok(()));
}

#[test]
fn only_topographic_lines_burn_all_touched() {
    assert!(burns_all_touched(LayerKind::Topographic, 2));
    assert!(burns_all_touched(LayerKind::Topographic, 5));
    assert!(!burns_all_touched(LayerKind::Topographic, 3));
    assert!(!burns_all_touched(LayerKind::Parcels, 2));
}
