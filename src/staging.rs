//! Staging of the source datasets of a region, and the merge of the staged datasets of several
//! regions into the datasets of one project.
use vstd::prelude::*;

use crate::config::Config;
use crate::layers::LayerKind;
use crate::regions::views;
use crate::text::{join, join_path};

verus! {

/// The source layers of a region, in priority order, with the category of each: the
/// vegetation formations, the agricultural parcels, then the topographic feature layers.
pub open spec fn source_layers() -> Seq<(LayerKind, Seq<char>)> {
    seq![
        (LayerKind::Vegetation, "FORMATION_VEGETALE"@),
        (LayerKind::Parcels, "PARCELLES_GRAPHIQUES"@),
        (LayerKind::Topographic, "AERODROME"@),
        (LayerKind::Topographic, "CONSTRUCTION_SURFACIQUE"@),
        (LayerKind::Topographic, "EQUIPEMENT_DE_TRANSPORT"@),
        (LayerKind::Topographic, "RESERVOIR"@),
        (LayerKind::Topographic, "TERRAIN_DE_SPORT"@),
        (LayerKind::Topographic, "TRONCON_DE_VOIE_FERREE"@),
        (LayerKind::Topographic, "ZONE_D_ESTRAN"@),
        (LayerKind::Topographic, "BATIMENT"@),
        (LayerKind::Topographic, "COURS_D_EAU"@),
        (LayerKind::Topographic, "PLAN_D_EAU"@),
        (LayerKind::Topographic, "SURFACE_HYDROGRAPHIQUE"@),
        (LayerKind::Topographic, "TRONCON_DE_ROUTE"@),
        (LayerKind::Topographic, "VOIE_NOMMEE"@)
    ]
}

/// The source layers of a region with their categories.
pub fn source_layer_list() -> (r: Vec<(LayerKind, String)>)
    ensures
        r@.len() == source_layers().len(),
        forall|t: int| 0 <= t < r@.len() ==> (#[trigger] r@[t]).0 == source_layers()[t].0 && r@[t].1@ == source_layers()[t].1,
{
    let mut v: Vec<(LayerKind, String)> = Vec::new();
    v.push((LayerKind::Vegetation, String::from_str("FORMATION_VEGETALE")));
    v.push((LayerKind::Parcels, String::from_str("PARCELLES_GRAPHIQUES")));
    v.push((LayerKind::Topographic, String::from_str("AERODROME")));
    v.push((LayerKind::Topographic, String::from_str("CONSTRUCTION_SURFACIQUE")));
    v.push((LayerKind::Topographic, String::from_str("EQUIPEMENT_DE_TRANSPORT")));
    v.push((LayerKind::Topographic, String::from_str("RESERVOIR")));
    v.push((LayerKind::Topographic, String::from_str("TERRAIN_DE_SPORT")));
    v.push((LayerKind::Topographic, String::from_str("TRONCON_DE_VOIE_FERREE")));
    v.push((LayerKind::Topographic, String::from_str("ZONE_D_ESTRAN")));
    v.push((LayerKind::Topographic, String::from_str("BATIMENT")));
    v.push((LayerKind::Topographic, String::from_str("COURS_D_EAU")));
    v.push((LayerKind::Topographic, String::from_str("PLAN_D_EAU")));
    v.push((LayerKind::Topographic, String::from_str("SURFACE_HYDROGRAPHIQUE")));
    v.push((LayerKind::Topographic, String::from_str("TRONCON_DE_ROUTE")));
    v.push((LayerKind::Topographic, String::from_str("VOIE_NOMMEE")));
    assert(v@.len() == source_layers().len());
    v
}

/// Stem of the archive that holds a category's source layers.
pub open spec fn archive_stem(k: LayerKind) -> Seq<char> {
    match k {
        LayerKind::Vegetation => "BDFORET"@,
        LayerKind::Parcels => "RPG"@,
        LayerKind::Topographic => "BDTOPO"@,
        LayerKind::Regional => "REGIONS"@,
    }
}

fn archive_stem_exec(k: LayerKind) -> (r: &'static str)
    ensures
        r@ == archive_stem(k),
{
    match k {
        LayerKind::Vegetation => "BDFORET",
        LayerKind::Parcels => "RPG",
        LayerKind::Topographic => "BDTOPO",
        LayerKind::Regional => "REGIONS",
    }
}

/// The cached archive of a category for the region `code`: `{cache}/{stem}_{code}.7z`.
pub open spec fn archive_path(config: &Config, k: LayerKind, code: Seq<char>) -> Seq<char> {
    join_path(config.cache_dir@, archive_stem(k) + "_"@ + code + ".7z"@)
}

/// The cached archive of category `kind` for the region `code`.
pub fn archive_for(config: &Config, kind: LayerKind, code: &str) -> (r: String)
    ensures
        r@ == archive_path(config, kind, code@),
{
    let name = String::from_str(archive_stem_exec(kind)).concat("_").concat(code).concat(".7z");
    join(config.cache_dir.as_str(), name.as_str())
}

/// One source layer of a region on its way to the project: the archive it is extracted from,
/// the shapefile extracted, its conversion to GeoPackage, and that clipped to the project box.
pub struct StagedLayer {
    pub kind: LayerKind,
    pub layer_name: String,
    pub archive_path: String,
    pub shapefile: String,
    pub converted: String,
    pub clipped: String,
}

/// The files of the `t`-th source layer of the region `code`.
pub open spec fn staged_ok(config: &Config, code: Seq<char>, t: int, s: StagedLayer) -> bool {
    let (k, layer) = source_layers()[t];
    &&& s.kind == k
    &&& s.layer_name@ == layer
    &&& s.archive_path@ == archive_path(config, k, code)
    &&& s.shapefile@ == join_path(join_path(config.temp_dir@, layer), layer + ".shp"@)
    &&& s.converted@ == join_path(config.temp_dir@, layer + ".gpkg"@)
    &&& s.clipped@ == join_path(config.temp_dir@, code + "_"@ + layer + ".gpkg"@)
}

/// The staging of one region: its boundary exported as GeoJSON, converted and clipped, and its
/// source layers.
pub struct RegionStaging {
    pub code: String,
    pub boundary_geojson: String,
    pub boundary_converted: String,
    pub boundary_clipped: String,
    pub layers: Vec<StagedLayer>,
}

/// The staging of the region `code`: boundary files `{tmp}/{code}.geojson`,
/// `{tmp}/{code}.gpkg`, `{tmp}/{code}_region.gpkg`; then, for each source layer, the
/// category's archive, `{tmp}/{layer}/{layer}.shp`, `{tmp}/{layer}.gpkg` and
/// `{tmp}/{code}_{layer}.gpkg`.
pub fn prepare_layers(config: &Config, code: &str) -> (r: RegionStaging)
    ensures
        r.code@ == code@,
        r.boundary_geojson@ == join_path(config.temp_dir@, code@ + ".geojson"@),
        r.boundary_converted@ == join_path(config.temp_dir@, code@ + ".gpkg"@),
        r.boundary_clipped@ == join_path(config.temp_dir@, code@ + "_region.gpkg"@),
        r.layers@.len() == source_layers().len(),
        forall|t: int| 0 <= t < r.layers@.len() ==> staged_ok(config, code@, t, #[trigger] r.layers@[t]),
{
    let tmp = config.temp_dir.as_str();
    let sources = source_layer_list();
    let mut layers: Vec<StagedLayer> = Vec::new();
    let mut t: usize = 0;
    while t < sources.len()
        invariant
            tmp@ == config.temp_dir@,
            sources@.len() == source_layers().len(),
            forall|u: int| 0 <= u < sources@.len() ==> (#[trigger] sources@[u]).0 == source_layers()[u].0 && sources@[u].1@ == source_layers()[u].1,
            t <= sources@.len(),
            layers@.len() == t,
            forall|u: int| 0 <= u < t ==> staged_ok(config, code@, u, #[trigger] layers@[u]),
        decreases sources@.len() - t,
    {
        let kind = sources[t].0;
        let layer = sources[t].1.as_str();
        let shp_name = String::from_str(layer).concat(".shp");
        let shp_dir = join(tmp, layer);
        let gpkg_name = String::from_str(layer).concat(".gpkg");
        let clipped_name = String::from_str(code).concat("_").concat(layer).concat(".gpkg");
        let s = StagedLayer {
            kind,
            layer_name: String::from_str(layer),
            archive_path: archive_for(config, kind, code),
            shapefile: join(shp_dir.as_str(), shp_name.as_str()),
            converted: join(tmp, gpkg_name.as_str()),
            clipped: join(tmp, clipped_name.as_str()),
        };
        assert(staged_ok(config, code@, t as int, s));
        layers.push(s);
        t = t + 1;
    }
    let geojson = String::from_str(code).concat(".geojson");
    let converted = String::from_str(code).concat(".gpkg");
    let clipped = String::from_str(code).concat("_region.gpkg");
    RegionStaging {
        code: String::from_str(code),
        boundary_geojson: join(tmp, geojson.as_str()),
        boundary_converted: join(tmp, converted.as_str()),
        boundary_clipped: join(tmp, clipped.as_str()),
        layers,
    }
}

/// Why the staged datasets cannot be merged.
#[derive(Clone, Copy, Debug, PartialEq, Eq, Structural)]
pub enum StagingError {
    /// No region was staged.
    NoRegions,
    /// A staging does not hold one entry per source layer.
    Malformed,
}

/// How one dataset of the project is made from the regions' staged files: fused (a vector-level
/// append, in region order) when several regions are involved, moved as it is for one region.
pub struct MergeStep {
    pub kind: LayerKind,
    pub sources: Vec<String>,
    pub target: String,
    pub fuse: bool,
}

/// The resources folder of a project.
pub open spec fn resources_dir(project_folder: Seq<char>) -> Seq<char> {
    join_path(project_folder, "resources"@)
}

/// The clipped boundary files of the stagings, in region order.
pub open spec fn boundary_sources(st: Seq<RegionStaging>) -> Seq<Seq<char>> {
    Seq::new(st.len(), |i: int| st[i].boundary_clipped@)
}

/// The clipped files of the `t`-th source layer of the stagings, in region order.
pub open spec fn layer_sources(st: Seq<RegionStaging>, t: int) -> Seq<Seq<char>> {
    Seq::new(st.len(), |i: int| st[i].layers@[t].clipped@)
}

fn collect_sources(stagings: &Vec<RegionStaging>, t: usize) -> (r: Vec<String>)
    requires
        forall|i: int| 0 <= i < stagings@.len() ==> t < (#[trigger] stagings@[i]).layers@.len(),
    ensures
        views(r@) == layer_sources(stagings@, t as int),
{
    let mut out: Vec<String> = Vec::new();
    let mut i: usize = 0;
    while i < stagings.len()
        invariant
            i <= stagings@.len(),
            forall|j: int| 0 <= j < stagings@.len() ==> t < (#[trigger] stagings@[j]).layers@.len(),
            out@.len() == i,
            forall|j: int| 0 <= j < i ==> (#[trigger] out@[j])@ == stagings@[j].layers@[t as int].clipped@,
        decreases stagings@.len() - i,
    {
        out.push(stagings[i].layers[t].clipped.clone());
        i = i + 1;
    }
    assert(views(out@) =~= layer_sources(stagings@, t as int));
    out
}

/// The merge of the regions' staged datasets into the project `project_name` at
/// `project_folder`: first the boundary into `resources/{name}.gpkg`, then each source layer into
/// `resources/{layer}.gpkg`, each from the regions' clipped files in region order. With several
/// regions every step fuses its sources; with one region every step moves its single source.
pub fn merge_plan(project_folder: &str, project_name: &str, stagings: &Vec<RegionStaging>) -> (r: Result<
    Vec<MergeStep>,
    StagingError,
>)
    ensures
        stagings@.len() == 0 ==> r == Err::<Vec<MergeStep>, StagingError>(StagingError::NoRegions),
        r is Ok <==> stagings@.len() > 0 && forall|i: int|
            0 <= i < stagings@.len() ==> (#[trigger] stagings@[i]).layers@.len()
                == source_layers().len(),
        r is Err && stagings@.len() > 0 ==> r == Err::<Vec<MergeStep>, StagingError>(
            StagingError::Malformed,
        ),
        r matches Ok(v) ==> {
            &&& v@.len() == source_layers().len() + 1
            &&& forall|s: int| 0 <= s < v@.len() ==> (#[trigger] v@[s]).fuse == (stagings@.len() > 1)
            &&& v@[0].kind == LayerKind::Regional
            &&& v@[0].target@ == join_path(resources_dir(project_folder@), project_name@ + ".gpkg"@)
            &&& views(v@[0].sources@) == boundary_sources(stagings@)
            &&& forall|t: int|
                0 <= t < source_layers().len() ==> {
                    &&& (#[trigger] v@[t + 1]).kind == source_layers()[t].0
                    &&& v@[t + 1].target@ == join_path(
                        resources_dir(project_folder@),
                        source_layers()[t].1 + ".gpkg"@,
                    )
                    &&& views(v@[t + 1].sources@) == layer_sources(stagings@, t)
                }
        },
{
    if stagings.len() == 0 {
        return Err(StagingError::NoRegions);
    }
    let sources = source_layer_list();
    let n = sources.len();
    let mut i: usize = 0;
    while i < stagings.len()
        invariant
            n == source_layers().len(),
            i <= stagings@.len(),
            forall|j: int| 0 <= j < i ==> (#[trigger] stagings@[j]).layers@.len() == n,
        decreases stagings@.len() - i,
    {
        if stagings[i].layers.len() != n {
            return Err(StagingError::Malformed);
        }
        i = i + 1;
    }
    let fuse = stagings.len() > 1;
    let resources = join(project_folder, "resources");
    let mut boundary: Vec<String> = Vec::new();
    let mut i: usize = 0;
    while i < stagings.len()
        invariant
            i <= stagings@.len(),
            boundary@.len() == i,
            forall|j: int| 0 <= j < i ==> (#[trigger] boundary@[j])@ == stagings@[j].boundary_clipped@,
        decreases stagings@.len() - i,
    {
        boundary.push(stagings[i].boundary_clipped.clone());
        i = i + 1;
    }
    assert(views(boundary@) =~= boundary_sources(stagings@));
    let region_file = String::from_str(project_name).concat(".gpkg");
    let mut steps: Vec<MergeStep> = Vec::new();
    steps.push(
        MergeStep {
            kind: LayerKind::Regional,
            sources: boundary,
            target: join(resources.as_str(), region_file.as_str()),
            fuse,
        },
    );
    let mut t: usize = 0;
    while t < n
        invariant
            n == source_layers().len(),
            n == sources@.len(),
            forall|u: int| 0 <= u < sources@.len() ==> (#[trigger] sources@[u]).0 == source_layers()[u].0 && sources@[u].1@ == source_layers()[u].1,
            forall|j: int| 0 <= j < stagings@.len() ==> (#[trigger] stagings@[j]).layers@.len() == n,
            resources@ == resources_dir(project_folder@),
            fuse == (stagings@.len() > 1),
            t <= n,
            steps@.len() == t + 1,
            forall|s: int| 0 <= s < steps@.len() ==> (#[trigger] steps@[s]).fuse == fuse,
            steps@[0].kind == LayerKind::Regional,
            steps@[0].target@ == join_path(resources_dir(project_folder@), project_name@ + ".gpkg"@),
            views(steps@[0].sources@) == boundary_sources(stagings@),
            forall|u: int|
                0 <= u < t ==> {
                    &&& (#[trigger] steps@[u + 1]).kind == source_layers()[u].0
                    &&& steps@[u + 1].target@ == join_path(
                        resources_dir(project_folder@),
                        source_layers()[u].1 + ".gpkg"@,
                    )
                    &&& views(steps@[u + 1].sources@) == layer_sources(stagings@, u)
                },
        decreases n - t,
    {
        let file = String::from_str(sources[t].1.as_str()).concat(".gpkg");
        let step = MergeStep {
            kind: sources[t].0,
            sources: collect_sources(stagings, t),
            target: join(resources.as_str(), file.as_str()),
            fuse,
        };
        steps.push(step);
        t = t + 1;
    }
    Ok(steps)
}

/// Position of the dot that starts the extension of a file name: the last `.` when it is not the
/// first character, else none.
pub open spec fn extension_dot(name: Seq<char>) -> Option<int> {
    if exists|k: int| 0 < k < name.len() && name[k] == '.' {
        let k = choose|k: int|
            0 < k < name.len() && name[k] == '.' && forall|j: int| k < j < name.len() ==> name[j] != '.';
        Some(k)
    } else {
        None
    }
}

fn find_extension_dot(name: &str) -> (r: Option<usize>)
    ensures
        match r {
            Some(k) => 0 < k < name@.len() && name@[k as int] == '.' && forall|j: int|
                k < j < name@.len() ==> name@[j] != '.',
            None => forall|k: int| 0 < k < name@.len() ==> name@[k] != '.',
        },
{
    let n = name.unicode_len();
    let mut i: usize = n;
    while i > 1
        invariant
            n == name@.len(),
            i <= n,
            forall|j: int| i <= j < n ==> name@[j] != '.',
        decreases i,
    {
        if name.get_char(i - 1) == '.' {
            return Some(i - 1);
        }
        i = i - 1;
    }
    None
}

proof fn lemma_extension_dot(name: Seq<char>, r: Option<usize>)
    requires
        match r {
            Some(k) => 0 < k < name.len() && name[k as int] == '.' && forall|j: int|
                k < j < name.len() ==> name[j] != '.',
            None => forall|k: int| 0 < k < name.len() ==> name[k] != '.',
        },
    ensures
        extension_dot(name) == match r {
            Some(k) => Some(k as int),
            None => None::<int>,
        },
{
    if let Some(k) = r {
        assert(0 < k < name.len() && name[k as int] == '.');
        let c = choose|c: int|
            0 < c < name.len() && name[c] == '.' && forall|j: int| c < j < name.len() ==> name[j] != '.';
        assert(c == k as int) by {
            if c < k {
                assert(name[k as int] != '.');
            }
            if c > k {
                assert(name[c] != '.');
            }
        }
    }
}

/// Whether a file of the temporary folder survives the cleanup between two regions: only
/// GeoPackage files do, folders and every other file go.
pub open spec fn kept_between_regions(name: Seq<char>, is_dir: bool) -> bool {
    !is_dir && match extension_dot(name) {
        Some(k) => name.subrange(k + 1, name.len() as int) == "gpkg"@,
        None => false,
    }
}

pub fn keep_between_regions(name: &str, is_dir: bool) -> (r: bool)
    ensures
        r == kept_between_regions(name@, is_dir),
{
    let dot = find_extension_dot(name);
    proof {
        lemma_extension_dot(name@, dot);
    }
    if is_dir {
        return false;
    }
    let n = name.unicode_len();
    match dot {
        Some(k) => {
            let ext = name.substring_char(k + 1, n);
            crate::text::str_eq(ext, "gpkg")
        },
        None => false,
    }
}

/// The stem of a file name: the name without its extension.
pub open spec fn file_stem(name: Seq<char>) -> Seq<char> {
    match extension_dot(name) {
        Some(k) => name.subrange(0, k),
        None => name,
    }
}

/// Whether an extracted file belongs to the layer `target`: its stem is the layer's name.
pub fn stem_matches(name: &str, target: &str) -> (r: bool)
    ensures
        r == (file_stem(name@) == target@),
{
    let dot = find_extension_dot(name);
    proof {
        lemma_extension_dot(name@, dot);
    }
    match dot {
        Some(k) => crate::text::str_eq(name.substring_char(0, k), target),
        None => crate::text::str_eq(name, target),
    }
}

} // verus!
