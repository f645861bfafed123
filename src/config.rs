//! The configuration of a deployment, built once and handed to each stage, and the locations
//! that follow from it.
use vstd::prelude::*;

use crate::text::{int_text, join, join_path, str_eq, u64_text};
use crate::types::Project;

verus! {

/// Storage locations and raster parameters of a deployment.
#[derive(Clone, Debug)]
pub struct Config {
    pub cache_dir: String,
    pub projects_dir: String,
    pub temp_dir: String,
    pub resource_dir: String,
    /// Ground metres per pixel.
    pub resolution: u32,
    /// Side of an exported tile, in pixels.
    pub slice_factor: u32,
    /// Where exported archives are written.
    pub output_location: String,
    pub gdal_path: Option<String>,
}

impl Config {
    /// The default locations (`projects/cache`, `projects`, `tmp`, `resources`), 10 metres per
    /// pixel and tiles of 500 pixels, exporting to `output_location`.
    pub fn with_output_location(output_location: String) -> (r: Config)
        ensures
            r.cache_dir@ == "projects/cache"@,
            r.projects_dir@ == "projects"@,
            r.temp_dir@ == "tmp"@,
            r.resource_dir@ == "resources"@,
            r.resolution == 10,
            r.slice_factor == 500,
            r.output_location@ == output_location@,
            r.gdal_path is None,
    {
        Config {
            cache_dir: String::from_str("projects/cache"),
            projects_dir: String::from_str("projects"),
            temp_dir: String::from_str("tmp"),
            resource_dir: String::from_str("resources"),
            resolution: 10,
            slice_factor: 500,
            output_location,
            gdal_path: None,
        }
    }

    /// Replaces the output location when one is given, and the toolkit path in any case.
    pub fn update_settings(&mut self, output_location: Option<String>, gdal_path: Option<String>)
        ensures
            final(self).output_location@ == (match output_location {
                Some(o) => o@,
                None => old(self).output_location@,
            }),
            final(self).gdal_path == gdal_path,
            final(self).cache_dir == old(self).cache_dir,
            final(self).projects_dir == old(self).projects_dir,
            final(self).temp_dir == old(self).temp_dir,
            final(self).resource_dir == old(self).resource_dir,
            final(self).resolution == old(self).resolution,
            final(self).slice_factor == old(self).slice_factor,
    {
        match output_location {
            Some(o) => {
                self.output_location = o;
            },
            None => {},
        }
        self.gdal_path = gdal_path;
    }
}

impl Default for Config {
    fn default() -> (r: Config)
        ensures
            r.cache_dir@ == "projects/cache"@,
            r.projects_dir@ == "projects"@,
            r.temp_dir@ == "tmp"@,
            r.resource_dir@ == "resources"@,
            r.resolution == 10,
            r.slice_factor == 500,
            r.output_location@ == "."@,
            r.gdal_path is None,
    {
        Config::with_output_location(String::from_str("."))
    }
}

pub fn cache_dir(config: &Config) -> (r: String)
    ensures
        r@ == config.cache_dir@,
{
    config.cache_dir.clone()
}

pub fn projects_dir(config: &Config) -> (r: String)
    ensures
        r@ == config.projects_dir@,
{
    config.projects_dir.clone()
}

pub fn temp_dir(config: &Config) -> (r: String)
    ensures
        r@ == config.temp_dir@,
{
    config.temp_dir.clone()
}

pub fn resource_dir(config: &Config) -> (r: String)
    ensures
        r@ == config.resource_dir@,
{
    config.resource_dir.clone()
}

pub fn output_location(config: &Config) -> (r: String)
    ensures
        r@ == config.output_location@,
{
    config.output_location.clone()
}

pub fn resolution(config: &Config) -> (r: u32)
    ensures
        r == config.resolution,
{
    config.resolution
}

pub fn slice_factor(config: &Config) -> (r: u32)
    ensures
        r == config.slice_factor,
{
    config.slice_factor
}

pub fn in_cache_dir(config: &Config, path: &str) -> (r: String)
    ensures
        r@ == join_path(config.cache_dir@, path@),
{
    join(config.cache_dir.as_str(), path)
}

pub fn in_projects_dir(config: &Config, path: &str) -> (r: String)
    ensures
        r@ == join_path(config.projects_dir@, path@),
{
    join(config.projects_dir.as_str(), path)
}

pub fn in_temp_dir(config: &Config, path: &str) -> (r: String)
    ensures
        r@ == join_path(config.temp_dir@, path@),
{
    join(config.temp_dir.as_str(), path)
}

pub fn in_resource_dir(config: &Config, path: &str) -> (r: String)
    ensures
        r@ == join_path(config.resource_dir@, path@),
{
    join(config.resource_dir.as_str(), path)
}

/// The folder of the project `project_name`.
pub fn project_dir(config: &Config, project_name: &str) -> (r: String)
    ensures
        r@ == join_path(config.projects_dir@, project_name@),
{
    in_projects_dir(config, project_name)
}

/// `path` inside the folder of the project `project_name`.
pub fn in_project_dir(config: &Config, project_name: &str, path: &str) -> (r: String)
    ensures
        r@ == join_path(join_path(config.projects_dir@, project_name@), path@),
{
    let dir = project_dir(config, project_name);
    join(dir.as_str(), path)
}

/// `{name}{suffix}` inside the folder of the project `name`.
pub open spec fn project_file(config: &Config, name: Seq<char>, suffix: Seq<char>) -> Seq<char> {
    join_path(join_path(config.projects_dir@, name), name + suffix)
}

fn project_file_exec(config: &Config, name: &str, suffix: &str) -> (r: String)
    ensures
        r@ == project_file(config, name@, suffix@),
{
    let file = String::from_str(name).concat(suffix);
    in_project_dir(config, name, file.as_str())
}

/// The GeoTIFF canvas of a project: `{projects}/{name}/{name}.tiff`.
pub fn project_raster_path(config: &Config, name: &str) -> (r: String)
    ensures
        r@ == project_file(config, name@, ".tiff"@),
{
    project_file_exec(config, name, ".tiff")
}

/// The rendered thematic image of a project: `{projects}/{name}/{name}_VEGET.jpeg`.
pub fn thematic_image_path(config: &Config, name: &str) -> (r: String)
    ensures
        r@ == project_file(config, name@, "_VEGET.jpeg"@),
{
    project_file_exec(config, name, "_VEGET.jpeg")
}

/// The photographic image of a project: `{projects}/{name}/{name}_ORTHO.jpeg`.
pub fn photo_image_path(config: &Config, name: &str) -> (r: String)
    ensures
        r@ == project_file(config, name@, "_ORTHO.jpeg"@),
{
    project_file_exec(config, name, "_ORTHO.jpeg")
}

/// The folder that receives a project's tiles: `{projects}/{name}/slices`.
pub fn slices_dir(config: &Config, name: &str) -> (r: String)
    ensures
        r@ == join_path(join_path(config.projects_dir@, name@), "slices"@),
{
    in_project_dir(config, name, "slices")
}

/// Why a configuration cannot drive a build.
#[derive(Clone, Copy, Debug, PartialEq, Eq, Structural)]
pub enum SetupError {
    ZeroResolution,
    ZeroSliceFactor,
}

impl SetupError {
    pub fn message(&self) -> (r: String)
        ensures
            r@ == (match *self {
                SetupError::ZeroResolution => "resolution must be positive"@,
                SetupError::ZeroSliceFactor => "slice factor must be positive"@,
            }),
    {
        match self {
            SetupError::ZeroResolution => String::from_str("resolution must be positive"),
            SetupError::ZeroSliceFactor => String::from_str("slice factor must be positive"),
        }
    }
}

/// What start-up has to make sure of: the folders to create, where the region dataset is read
/// and where the region graph is cached.
pub struct SetupPlan {
    pub directories: Vec<String>,
    pub region_source: String,
    pub graph_cache: String,
}

/// Checks that the configuration can drive a build and lists what start-up prepares: the cache
/// and temporary folders, the region dataset `regions.geojson` and the graph cache
/// `regions_graph.json`, both among the resources.
pub fn setup_check(config: &Config) -> (r: Result<SetupPlan, SetupError>)
    ensures
        r is Ok <==> config.resolution > 0 && config.slice_factor > 0,
        config.resolution == 0 ==> r == Err::<SetupPlan, SetupError>(SetupError::ZeroResolution),
        config.resolution > 0 && config.slice_factor == 0 ==> r == Err::<SetupPlan, SetupError>(
            SetupError::ZeroSliceFactor,
        ),
        r matches Ok(p) ==> {
            &&& p.directories@.len() == 2
            &&& p.directories@[0]@ == config.cache_dir@
            &&& p.directories@[1]@ == config.temp_dir@
            &&& p.region_source@ == join_path(config.resource_dir@, "regions.geojson"@)
            &&& p.graph_cache@ == join_path(config.resource_dir@, "regions_graph.json"@)
        },
{
    if config.resolution == 0 {
        return Err(SetupError::ZeroResolution);
    }
    if config.slice_factor == 0 {
        return Err(SetupError::ZeroSliceFactor);
    }
    let mut directories: Vec<String> = Vec::new();
    directories.push(cache_dir(config));
    directories.push(temp_dir(config));
    Ok(
        SetupPlan {
            directories,
            region_source: in_resource_dir(config, "regions.geojson"),
            graph_cache: in_resource_dir(config, "regions_graph.json"),
        },
    )
}

/// What exporting a project does: slice it into tiles of `slice_factor` pixels, then compress
/// its folder into `{output_dir}/{archive_name}.zip`.
pub struct ExportPlan {
    pub project_path: String,
    pub slice_factor: u32,
    pub archive_name: String,
    pub output_dir: String,
}

/// The export of `project_name` at time `timestamp` (seconds since the Unix epoch): the archive
/// is named `export_{name}_{timestamp}`.
pub fn export_project(config: &Config, project_name: &str, timestamp: u64) -> (r: ExportPlan)
    ensures
        r.project_path@ == join_path(config.projects_dir@, project_name@),
        r.slice_factor == config.slice_factor,
        r.archive_name@ == "export_"@ + project_name@ + "_"@ + int_text(timestamp as int),
        r.output_dir@ == config.output_location@,
{
    let stamp = u64_text(timestamp);
    let archive_name = String::from_str("export_").concat(project_name).concat("_").concat(
        stamp.as_str(),
    );
    ExportPlan {
        project_path: project_dir(config, project_name),
        slice_factor: slice_factor(config),
        archive_name,
        output_dir: output_location(config),
    }
}

/// The project listed for an entry `entry` of the projects folder: every entry but the cache,
/// with its photographic image as preview.
pub fn previous_project(config: &Config, entry: &str) -> (r: Option<Project>)
    ensures
        r is None <==> entry@ == "cache"@,
        r matches Some(p) ==> {
            &&& p.name@ == entry@
            &&& p.preview_path@ == project_file(config, entry@, "_ORTHO.jpeg"@)
            &&& p.file_path@ == join_path(config.projects_dir@, entry@)
        },
{
    if str_eq(entry, "cache") {
        return None;
    }
    Some(
        Project {
            name: String::from_str(entry),
            preview_path: photo_image_path(config, entry),
            file_path: project_dir(config, entry),
        },
    )
}

} // verus!
