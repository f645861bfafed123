//! Requests to the geospatial toolkit's command-line programs: rasterization of a layer on the
//! canvas's frame, conversion and clipping of vector datasets, and their fusion.
use vstd::prelude::*;

use crate::canvas::RasterCanvas;
use crate::geometry::BoundingBox;
use crate::layers::Rgb;
use crate::regions::views;
use crate::text::{i128_text, i64_text, int_text};

verus! {

/// The burn arguments of a color: one `-burn` per band.
pub open spec fn burn_args(c: Rgb) -> Seq<Seq<char>> {
    seq![
        "-burn"@,
        int_text(c.red as int),
        "-burn"@,
        int_text(c.green as int),
        "-burn"@,
        int_text(c.blue as int),
    ]
}

/// The output size and extent of a rasterization onto the canvas's frame.
pub open spec fn frame_args(c: &RasterCanvas) -> Seq<Seq<char>> {
    let (xmin, ymin, xmax, ymax) = c.spec_extent();
    seq![
        "-ts"@,
        int_text(c.width as int),
        int_text(c.height as int),
        "-te"@,
        int_text(xmin),
        int_text(ymin),
        int_text(xmax),
        int_text(ymax),
    ]
}

/// The attribute filter arguments, if any.
pub open spec fn where_args(filter: Option<Seq<char>>) -> Seq<Seq<char>> {
    match filter {
        Some(f) => seq!["-where"@, f],
        None => Seq::empty(),
    }
}

/// The all-touched switch: line features burn every pixel they cross.
pub open spec fn touched_args(all_touched: bool) -> Seq<Seq<char>> {
    if all_touched {
        seq!["-at"@]
    } else {
        Seq::empty()
    }
}

fn push_str(v: &mut Vec<String>, s: &str)
    ensures
        views(final(v)@) == views(old(v)@).push(s@),
{
    let ghost before = v@;
    v.push(String::from_str(s));
    assert(views(v@) =~= views(before).push(s@));
}

fn push_string(v: &mut Vec<String>, s: String)
    ensures
        views(final(v)@) == views(old(v)@).push(s@),
{
    let ghost before = v@;
    let ghost sv = s@;
    v.push(s);
    assert(views(v@) =~= views(before).push(sv));
}

fn push_burn(v: &mut Vec<String>, color: Rgb)
    ensures
        views(final(v)@) == views(old(v)@) + burn_args(color),
{
    let ghost before = views(v@);
    push_str(v, "-burn");
    push_string(v, i64_text(color.red as i64));
    push_str(v, "-burn");
    push_string(v, i64_text(color.green as i64));
    push_str(v, "-burn");
    push_string(v, i64_text(color.blue as i64));
    assert(views(v@) =~= before + burn_args(color));
}

/// The `gdal_rasterize` arguments that burn `color` for the features of layer `layer_name` of
/// `input` (optionally filtered) into a new raster `output` on the canvas's frame: its pixel
/// size and its ground extent.
pub fn rasterize_args(
    canvas: &RasterCanvas,
    color: Rgb,
    layer_name: &str,
    filter: Option<&str>,
    input: &str,
    output: &str,
) -> (r: Vec<String>)
    ensures
        views(r@) == burn_args(color) + seq!["-l"@, layer_name@] + frame_args(canvas) + where_args(
            match filter {
                Some(f) => Some(f@),
                None => None,
            },
        ) + seq![input@, output@],
{
    let mut v: Vec<String> = Vec::new();
    push_burn(&mut v, color);
    push_str(&mut v, "-l");
    push_str(&mut v, layer_name);
    let ghost head = views(v@);
    let (xmin, ymin, xmax, ymax) = canvas.extent();
    push_str(&mut v, "-ts");
    push_string(&mut v, i128_text(canvas.width as i128));
    push_string(&mut v, i128_text(canvas.height as i128));
    push_str(&mut v, "-te");
    push_string(&mut v, i128_text(xmin));
    push_string(&mut v, i128_text(ymin));
    push_string(&mut v, i128_text(xmax));
    push_string(&mut v, i128_text(ymax));
    assert(views(v@) =~= head + frame_args(canvas));
    let ghost framed = views(v@);
    match filter {
        Some(f) => {
            push_str(&mut v, "-where");
            push_str(&mut v, f);
            assert(views(v@) =~= framed + seq!["-where"@, f@]);
        },
        None => {
            assert(views(v@) =~= framed + Seq::<Seq<char>>::empty());
        },
    }
    let ghost filtered = views(v@);
    push_str(&mut v, input);
    push_str(&mut v, output);
    assert(views(v@) =~= filtered + seq![input@, output@]);
    v
}

/// The `gdal_rasterize` arguments that burn `color` for the features of layer `layer_name` of
/// `input` into the existing raster `output`, every touched pixel when `all_touched`.
pub fn burn_into_args(color: Rgb, layer_name: &str, all_touched: bool, input: &str, output: &str) -> (r:
    Vec<String>)
    ensures
        views(r@) == burn_args(color) + seq!["-l"@, layer_name@] + touched_args(all_touched) + seq![
            input@,
            output@,
        ],
{
    let mut v: Vec<String> = Vec::new();
    push_burn(&mut v, color);
    push_str(&mut v, "-l");
    push_str(&mut v, layer_name);
    let ghost head = views(v@);
    if all_touched {
        push_str(&mut v, "-at");
        assert(views(v@) =~= head + seq!["-at"@]);
    } else {
        assert(views(v@) =~= head + Seq::<Seq<char>>::empty());
    }
    let ghost touched = views(v@);
    push_str(&mut v, input);
    push_str(&mut v, output);
    assert(views(v@) =~= touched + seq![input@, output@]);
    v
}

/// The `ogr2ogr` arguments that clip the vector dataset `input` to `bb` into the GeoPackage
/// `output`, promoting geometries to multi-geometries and skipping features that fail.
pub open spec fn clip_args_spec(input: Seq<char>, output: Seq<char>, bb: BoundingBox) -> Seq<Seq<char>> {
    seq![
        "-f"@,
        "GPKG"@,
        output,
        input,
        "-clipsrc"@,
        int_text(bb.xmin as int),
        int_text(bb.ymin as int),
        int_text(bb.xmax as int),
        int_text(bb.ymax as int),
        "-nlt"@,
        "PROMOTE_TO_MULTI"@,
        "--config"@,
        "OGR_GEOMETRY_ACCEPT_UNCLOSED_RING"@,
        "NO"@,
        "-skipfailures"@,
        "--config"@,
        "OGR_ENABLE_PARTIAL_REPROJECTION"@,
        "YES"@,
        "--config"@,
        "OGR_GEOMETRY_CORRECT_UNCLOSED_RINGS"@,
        "YES"@,
    ]
}

pub fn clip_args(input: &str, output: &str, bb: &BoundingBox) -> (r: Vec<String>)
    ensures
        views(r@) == clip_args_spec(input@, output@, *bb),
{
    let mut v: Vec<String> = Vec::new();
    push_str(&mut v, "-f");
    push_str(&mut v, "GPKG");
    push_str(&mut v, output);
    push_str(&mut v, input);
    push_str(&mut v, "-clipsrc");
    push_string(&mut v, i64_text(bb.xmin));
    push_string(&mut v, i64_text(bb.ymin));
    push_string(&mut v, i64_text(bb.xmax));
    push_string(&mut v, i64_text(bb.ymax));
    push_str(&mut v, "-nlt");
    push_str(&mut v, "PROMOTE_TO_MULTI");
    push_str(&mut v, "--config");
    push_str(&mut v, "OGR_GEOMETRY_ACCEPT_UNCLOSED_RING");
    push_str(&mut v, "NO");
    push_str(&mut v, "-skipfailures");
    push_str(&mut v, "--config");
    push_str(&mut v, "OGR_ENABLE_PARTIAL_REPROJECTION");
    push_str(&mut v, "YES");
    push_str(&mut v, "--config");
    push_str(&mut v, "OGR_GEOMETRY_CORRECT_UNCLOSED_RINGS");
    push_str(&mut v, "YES");
    assert(views(v@) =~= clip_args_spec(input@, output@, *bb));
    v
}

/// The `ogr2ogr` arguments that convert `input` to the GeoPackage `output`, reprojected to the
/// deployment's coordinate system, as two-dimensional multi-geometries.
pub open spec fn convert_args_spec(input: Seq<char>, output: Seq<char>) -> Seq<Seq<char>> {
    seq![
        "-f"@,
        "GPKG"@,
        output,
        input,
        "-t_srs"@,
        "EPSG:2154"@,
        "-nlt"@,
        "PROMOTE_TO_MULTI"@,
        "--config"@,
        "OGR_GEOMETRY_ACCEPT_UNCLOSED_RING"@,
        "NO"@,
        "-dim"@,
        "XY"@,
        "--config"@,
        "OGR_ARC_STEPSIZE"@,
        "0.1"@,
        "--config"@,
        "OGR_GEOMETRY_CORRECT_UNCLOSED_RINGS"@,
        "YES"@,
    ]
}

pub fn convert_args(input: &str, output: &str) -> (r: Vec<String>)
    ensures
        views(r@) == convert_args_spec(input@, output@),
{
    let mut v: Vec<String> = Vec::new();
    push_str(&mut v, "-f");
    push_str(&mut v, "GPKG");
    push_str(&mut v, output);
    push_str(&mut v, input);
    push_str(&mut v, "-t_srs");
    push_str(&mut v, "EPSG:2154");
    push_str(&mut v, "-nlt");
    push_str(&mut v, "PROMOTE_TO_MULTI");
    push_str(&mut v, "--config");
    push_str(&mut v, "OGR_GEOMETRY_ACCEPT_UNCLOSED_RING");
    push_str(&mut v, "NO");
    push_str(&mut v, "-dim");
    push_str(&mut v, "XY");
    push_str(&mut v, "--config");
    push_str(&mut v, "OGR_ARC_STEPSIZE");
    push_str(&mut v, "0.1");
    push_str(&mut v, "--config");
    push_str(&mut v, "OGR_GEOMETRY_CORRECT_UNCLOSED_RINGS");
    push_str(&mut v, "YES");
    assert(views(v@) =~= convert_args_spec(input@, output@));
    v
}

/// The `ogr2ogr` run that fuses the `k`-th of `datasets` into the GeoPackage `output`: the first
/// dataset creates it, each later one is appended to it.
pub open spec fn fusion_run(datasets: Seq<Seq<char>>, output: Seq<char>, k: int) -> Seq<Seq<char>> {
    if k == 0 {
        seq!["-f"@, "GPKG"@, output, datasets[0]]
    } else {
        seq!["-f"@, "GPKG"@, "-append"@, "-update"@, output, datasets[k]]
    }
}

/// Why datasets cannot be fused.
#[derive(Clone, Copy, Debug, PartialEq, Eq, Structural)]
pub enum FusionError {
    /// There is no dataset to fuse.
    NoDatasets,
}

/// The `ogr2ogr` runs that fuse `datasets`, in order, into `output`. An empty list is refused.
pub fn fusion_args(datasets: &Vec<String>, output: &str) -> (r: Result<Vec<Vec<String>>, FusionError>)
    ensures
        r is Err <==> datasets@.len() == 0,
        r matches Err(e) ==> e == FusionError::NoDatasets,
        r matches Ok(runs) ==> {
            &&& runs@.len() == datasets@.len()
            &&& forall|k: int| 0 <= k < runs@.len() ==> views((#[trigger] runs@[k])@) == fusion_run(views(datasets@), output@, k)
        },
{
    if datasets.len() == 0 {
        return Err(FusionError::NoDatasets);
    }
    let mut runs: Vec<Vec<String>> = Vec::new();
    let mut k: usize = 0;
    while k < datasets.len()
        invariant
            k <= datasets@.len(),
            runs@.len() == k,
            forall|j: int| 0 <= j < k ==> views((#[trigger] runs@[j])@) == fusion_run(views(datasets@), output@, j),
        decreases datasets@.len() - k,
    {
        let mut v: Vec<String> = Vec::new();
        push_str(&mut v, "-f");
        push_str(&mut v, "GPKG");
        if k > 0 {
            push_str(&mut v, "-append");
            push_str(&mut v, "-update");
        }
        push_str(&mut v, output);
        push_str(&mut v, datasets[k].as_str());
        assert(views(v@) =~= fusion_run(views(datasets@), output@, k as int));
        runs.push(v);
        k = k + 1;
    }
    Ok(runs)
}

} // verus!
