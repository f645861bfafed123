use firefront_gis::config::Config;
use firefront_gis::layers::LayerKind;
use firefront_gis::staging::{archive_for, merge_plan, prepare_layers, source_layer_list, StagingError};

#[test]
fn region_staging_names_every_file() {
    let config = Config::default();
    let s = prepare_layers(&config, "2A");
    assert_eq!(s.boundary_geojson, "tmp/2A.geojson");
    assert_eq!(s.boundary_converted, "tmp/2A.gpkg");
    assert_eq!(s.boundary_clipped, "tmp/2A_region.gpkg");
    assert_eq!(s.layers.len(), 15);
    let v = &s.layers[0];
    assert_eq!(v.kind, LayerKind::Vegetation);
    assert_eq!(v.layer_name, "FORMATION_VEGETALE");
    assert_eq!(v.archive_path, "projects/cache/BDFORET_2A.7z");
    assert_eq!(v.shapefile, "tmp/FORMATION_VEGETALE/FORMATION_VEGETALE.shp");
    assert_eq!(v.converted, "tmp/FORMATION_VEGETALE.gpkg");
    assert_eq!(v.clipped, "tmp/2A_FORMATION_VEGETALE.gpkg");
    assert_eq!(s.layers[1].archive_path, "projects/cache/RPG_2A.7z");
    assert_eq!(s.layers[14].layer_name, "VOIE_NOMMEE");
    assert_eq!(s.layers[14].kind, LayerKind::Topographic);
    assert_eq!(s.layers[14].archive_path, "projects/cache/BDTOPO_2A.7z");
    assert_eq!(archive_for(&config, LayerKind::Parcels, "2B"), "projects/cache/RPG_2B.7z");
    assert_eq!(source_layer_list()[9].1, "BATIMENT");
}

#[test]
fn several_regions_are_fused() {
    let config = Config::default();
    let st = vec![prepare_layers(&config, "2A"), prepare_layers(&config, "2B")];
    let plan = merge_plan("projects/corse", "corse", &st).unwrap();
    assert_eq!(plan.len(), 16);
    assert!(plan.iter().all(|s| s.fuse));
    assert_eq!(plan[0].kind, LayerKind::Regional);
    assert_eq!(plan[0].target, "projects/corse/resources/corse.gpkg");
    assert_eq!(plan[0].sources, vec!["tmp/2A_region.gpkg".to_string(), "tmp/2B_region.gpkg".to_string()]);
    assert_eq!(plan[1].target, "projects/corse/resources/FORMATION_VEGETALE.gpkg");
    assert_eq!(
        plan[2].sources,
        vec!["tmp/2A_PARCELLES_GRAPHIQUES.gpkg".to_string(), "tmp/2B_PARCELLES_GRAPHIQUES.gpkg".to_string()]
    );
}

#[test]
fn one_region_is_moved() {
    let config = Config::default();
    let st = vec![prepare_layers(&config, "2A")];
    let plan = merge_plan("projects/pv", "pv", &st).unwrap();
    assert!(plan.iter().all(|s| !s.fuse && s.sources.len() == 1));
    assert_eq!(plan[15].target, "projects/pv/resources/VOIE_NOMMEE.gpkg");
    assert_eq!(plan[15].sources[0], "tmp/2A_VOIE_NOMMEE.gpkg");
}

#[test]
fn merge_needs_regions() {
    assert_eq!(merge_plan("p", "p", &vec![]).err(), Some(StagingError::NoRegions));
    let mut s = prepare_layers(&Config::default(), "2A");
    s.layers.pop();
    assert_eq!(merge_plan("p", "p", &vec![s]).err(), Some(StagingError::Malformed));
}
