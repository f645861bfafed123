use firefront_gis::text::{i128_text, i64_text, u64_text};
use firefront_gis::config::{
    cache_dir, export_project, in_cache_dir, in_project_dir, in_projects_dir, in_resource_dir,
    in_temp_dir, output_location, photo_image_path, previous_project, project_dir, project_raster_path,
    projects_dir, resolution, resource_dir, setup_check, slice_factor, slices_dir, temp_dir,
    thematic_image_path, Config, SetupError,
};
use firefront_gis::types::{dependency_checks, path_lookup_command, DependencyError};

#[test]
fn test_setup_check_success() {
    let result = setup_check(&Config::default());
    assert!(result.is_ok());
}

#[test]
fn test_setup_check() {
    let result = setup_check(&Config::default());
    assert!(result.is_ok(), "Setup check failed: {:?}", result.as_ref().err());
}

#[test]
fn setup_plan_lists_folders_and_graph_files() {
    let plan = setup_check(&Config::default()).unwrap();
    assert_eq!(plan.directories, vec!["projects/cache".to_string(), "tmp".to_string()]);
    assert_eq!(plan.region_source, "resources/regions.geojson");
    assert_eq!(plan.graph_cache, "resources/regions_graph.json");
}

#[test]
fn setup_check_refuses_zero_parameters() {
    let mut config = Config::default();
    config.slice_factor = 0;
    assert_eq!(setup_check(&config).err(), Some(SetupError::ZeroSliceFactor));
    config.resolution = 0;
    assert_eq!(setup_check(&config).err(), Some(SetupError::ZeroResolution));
    assert_eq!(SetupError::ZeroResolution.message(), "resolution must be positive");
}

#[test]
fn default_configuration_values() {
    let config = Config::default();
    assert_eq!(cache_dir(&config), "projects/cache");
    assert_eq!(projects_dir(&config), "projects");
    assert_eq!(temp_dir(&config), "tmp");
    assert_eq!(resource_dir(&config), "resources");
    assert_eq!(output_location(&config), ".");
    assert_eq!(resolution(&config), 10);
    assert_eq!(slice_factor(&config), 500);
}

#[test]
fn locations_join_paths() {
    let config = Config::with_output_location("/home/user/Downloads".to_string());
    assert_eq!(in_cache_dir(&config, "BDFORET_2A.7z"), "projects/cache/BDFORET_2A.7z");
    assert_eq!(in_projects_dir(&config, "corsica"), "projects/corsica");
    assert_eq!(in_temp_dir(&config, "2A.geojson"), "tmp/2A.geojson");
    assert_eq!(in_resource_dir(&config, "x.gpkg"), "resources/x.gpkg");
    assert_eq!(in_temp_dir(&config, "/abs/file"), "/abs/file");
    assert_eq!(project_dir(&config, "porto-vecchio"), "projects/porto-vecchio");
    assert_eq!(
        in_project_dir(&config, "porto-vecchio", "slices"),
        "projects/porto-vecchio/slices"
    );
    assert_eq!(
        project_raster_path(&config, "porto-vecchio"),
        "projects/porto-vecchio/porto-vecchio.tiff"
    );
    assert_eq!(
        thematic_image_path(&config, "pv"),
        "projects/pv/pv_VEGET.jpeg"
    );
    assert_eq!(photo_image_path(&config, "pv"), "projects/pv/pv_ORTHO.jpeg");
    assert_eq!(slices_dir(&config, "pv"), "projects/pv/slices");
    let mut trailing = Config::default();
    trailing.temp_dir = "tmp/".to_string();
    assert_eq!(in_temp_dir(&trailing, "a"), "tmp/a");
    trailing.temp_dir = String::new();
    assert_eq!(in_temp_dir(&trailing, "a"), "a");
}

#[test]
fn update_settings_replaces_given_values() {
    let mut config = Config::default();
    config.update_settings(Some("/out".to_string()), Some("/usr/bin/gdalinfo".to_string()));
    assert_eq!(config.output_location, "/out");
    assert_eq!(config.gdal_path, Some("/usr/bin/gdalinfo".to_string()));
    config.update_settings(None, None);
    assert_eq!(config.output_location, "/out");
    assert_eq!(config.gdal_path, None);
}

#[test]
fn export_plan_names_archive_with_timestamp() {
    let config = Config::with_output_location("/exports".to_string());
    let plan = export_project(&config, "porto-vecchio", 1700000000);
    assert_eq!(plan.project_path, "projects/porto-vecchio");
    assert_eq!(plan.archive_name, "export_porto-vecchio_1700000000");
    assert_eq!(plan.output_dir, "/exports");
    assert_eq!(plan.slice_factor, 500);
}

#[test]
fn dependency_probes_per_system() {
    let unix = dependency_checks(false);
    assert_eq!(unix.len(), 3);
    assert_eq!(unix[0].command, "gdalinfo");
    assert_eq!(unix[1].command, "python3");
    assert_eq!(unix[2].command, "7z");
    assert_eq!(unix[2].arg, "--help");
    assert_eq!(unix[2].missing, DependencyError::SevenZipNotInstalled);
    let windows = dependency_checks(true);
    assert_eq!(windows[0].command, "gdalinfo.exe");
    assert_eq!(windows[2].command, "7z.exe");
    assert_eq!(path_lookup_command(true), "where");
    assert_eq!(path_lookup_command(false), "which");
    assert_eq!(DependencyError::GDALNotInstalled.message(), "GDAL is not installed");
}

#[test]
fn projects_folder_entries() {
    let config = Config::default();
    assert!(previous_project(&config, "cache").is_none());
    let p = previous_project(&config, "porto-vecchio").unwrap();
    assert_eq!(p.name, "porto-vecchio");
    assert_eq!(p.file_path, "projects/porto-vecchio");
    assert_eq!(p.preview_path, "projects/porto-vecchio/porto-vecchio_ORTHO.jpeg");
}

#[test]
fn integers_as_decimal_text() {
    assert_eq!(i64_text(0), "0");
    assert_eq!(i64_text(-7), "-7");
    assert_eq!(i64_text(i64::MIN), "-9223372036854775808");
    assert_eq!(i64_text(i64::MAX), "9223372036854775807");
    assert_eq!(i128_text(i128::MIN), i128::MIN.to_string());
    assert_eq!(u64_text(u64::MAX), "18446744073709551615");
    assert_eq!(u64_text(1070), "1070");
}
