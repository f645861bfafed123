//! The thematic layers of a project: their categories, burn policies, mask predicates, and the
//! fixed priority order in which they are composited onto the canvas.
use vstd::prelude::*;

use crate::canvas::{CanvasPixels, RasterCanvas};
use crate::compositing::{
    apply_blank_overlay, apply_overlay, blank_overlay, merge_band, merge_classes, overlay,
    same_frame, same_grid, CompositeError, LayerPixels, LayerRaster, MaskRule, BACKGROUND,
};

verus! {

/// A color burnt into the three bands of a layer raster.
#[derive(Clone, Copy, Debug, PartialEq, Eq, Structural)]
pub struct Rgb {
    pub red: u8,
    pub green: u8,
    pub blue: u8,
}

/// The category of a thematic layer, in priority order: later categories paint over earlier ones.
#[derive(Clone, Copy, Debug, PartialEq, Eq, Structural)]
pub enum LayerKind {
    /// The regional boundary, painted first.
    Regional,
    /// Forest and vegetation formations, burnt by species class.
    Vegetation,
    /// Agricultural parcels.
    Parcels,
    /// Topographic features, laid last; they black out what lies under them.
    Topographic,
}

/// Position of a category in the compositing order.
pub open spec fn kind_rank(k: LayerKind) -> int {
    match k {
        LayerKind::Regional => 0,
        LayerKind::Vegetation => 1,
        LayerKind::Parcels => 2,
        LayerKind::Topographic => 3,
    }
}

/// Species classes of the vegetation layer, in precedence order.
#[derive(Clone, Copy, Debug, PartialEq, Eq, Structural)]
pub enum VegetationClass {
    Broadleaf,
    Unclassified,
    Other,
}

/// The rgb triple of a class.
pub open spec fn class_color(c: VegetationClass) -> Rgb {
    match c {
        VegetationClass::Broadleaf => Rgb { red: 80, green: 200, blue: 120 },
        VegetationClass::Unclassified => Rgb { red: 25, green: 50, blue: 60 },
        VegetationClass::Other => Rgb { red: 50, green: 200, blue: 80 },
    }
}

impl VegetationClass {
    pub fn color(&self) -> (r: Rgb)
        ensures
            r == class_color(*self),
    {
        match self {
            VegetationClass::Broadleaf => Rgb { red: 80, green: 200, blue: 120 },
            VegetationClass::Unclassified => Rgb { red: 25, green: 50, blue: 60 },
            VegetationClass::Other => Rgb { red: 50, green: 200, blue: 80 },
        }
    }
}

/// How the features of a layer are burnt.
#[derive(Clone, Copy, Debug, PartialEq, Eq, Structural)]
pub enum BurnPolicy {
    /// Every feature burns the same color.
    Flat(Rgb),
    /// Features burn the color of their species class, one raster per class.
    ByClass,
}

impl LayerKind {
    pub fn rank(&self) -> (r: u8)
        ensures
            r == kind_rank(*self),
    {
        match self {
            LayerKind::Regional => 0,
            LayerKind::Vegetation => 1,
            LayerKind::Parcels => 2,
            LayerKind::Topographic => 3,
        }
    }

    /// Polygon layers are burnt onto zero and painted where a band is above zero; topographic
    /// features, lines among them, are burnt onto 255 and present where a band is not 255.
    pub fn mask_rule(&self) -> (r: MaskRule)
        ensures
            r == (if *self == LayerKind::Topographic {
                MaskRule::NotBackground
            } else {
                MaskRule::NonZero
            }),
    {
        match self {
            LayerKind::Topographic => MaskRule::NotBackground,
            _ => MaskRule::NonZero,
        }
    }

    /// The value that the layer's raster holds before its features are burnt.
    pub fn background(&self) -> (r: u8)
        ensures
            r == (if *self == LayerKind::Topographic { BACKGROUND } else { 0u8 }),
    {
        match self {
            LayerKind::Topographic => BACKGROUND,
            _ => 0,
        }
    }

    pub fn burn_policy(&self) -> (r: BurnPolicy)
        ensures
            r == (match *self {
                LayerKind::Regional => BurnPolicy::Flat(Rgb { red: 0, green: 0, blue: 0 }),
                LayerKind::Vegetation => BurnPolicy::ByClass,
                LayerKind::Parcels => BurnPolicy::Flat(Rgb { red: 25, green: 50, blue: 60 }),
                LayerKind::Topographic => BurnPolicy::Flat(Rgb { red: 0, green: 0, blue: 0 }),
            }),
    {
        match self {
            LayerKind::Regional => BurnPolicy::Flat(Rgb { red: 0, green: 0, blue: 0 }),
            LayerKind::Vegetation => BurnPolicy::ByClass,
            LayerKind::Parcels => BurnPolicy::Flat(Rgb { red: 25, green: 50, blue: 60 }),
            LayerKind::Topographic => BurnPolicy::Flat(Rgb { red: 0, green: 0, blue: 0 }),
        }
    }
}

/// Lays the regional boundary raster (burnt onto zero) onto the canvas where it is painted.
pub fn add_regional_layer(canvas: &mut RasterCanvas, raster: &LayerRaster) -> (r: Result<(), CompositeError>)
    requires
        old(canvas).wf(),
        raster.wf(),
    ensures
        r is Ok <==> same_grid(old(canvas), raster),
        final(canvas).wf(),
        same_frame(old(canvas), final(canvas)),
        r is Ok ==> final(canvas)@ == overlay(old(canvas)@, raster@, MaskRule::NonZero),
        r is Err ==> final(canvas)@ == old(canvas)@ && r == Err::<(), CompositeError>(CompositeError::SizeMismatch),
{
    apply_overlay(canvas, raster, MaskRule::NonZero)
}

/// Lays the agricultural-parcel raster (burnt onto zero) onto the canvas where it is painted.
pub fn add_rpg_layer(canvas: &mut RasterCanvas, raster: &LayerRaster) -> (r: Result<(), CompositeError>)
    requires
        old(canvas).wf(),
        raster.wf(),
    ensures
        r is Ok <==> same_grid(old(canvas), raster),
        final(canvas).wf(),
        same_frame(old(canvas), final(canvas)),
        r is Ok ==> final(canvas)@ == overlay(old(canvas)@, raster@, MaskRule::NonZero),
        r is Err ==> final(canvas)@ == old(canvas)@ && r == Err::<(), CompositeError>(CompositeError::SizeMismatch),
{
    apply_overlay(canvas, raster, MaskRule::NonZero)
}

/// The merged vegetation raster of three class rasters, by class precedence.
pub open spec fn merged_vegetation(a: LayerPixels, b: LayerPixels, c: LayerPixels) -> LayerPixels {
    LayerPixels {
        red: merge_band(a.red, b.red, c.red),
        green: merge_band(a.green, b.green, c.green),
        blue: merge_band(a.blue, b.blue, c.blue),
    }
}

/// Merges the broadleaf, unclassified and other vegetation rasters by precedence, then lays the
/// result onto the canvas where it is painted.
pub fn add_vegetation_layer(
    canvas: &mut RasterCanvas,
    broadleaf: &LayerRaster,
    unclassified: &LayerRaster,
    other: &LayerRaster,
) -> (r: Result<(), CompositeError>)
    requires
        old(canvas).wf(),
        broadleaf.wf(),
        unclassified.wf(),
        other.wf(),
    ensures
        r is Ok <==> (same_grid(old(canvas), broadleaf) && same_grid(old(canvas), unclassified)
            && same_grid(old(canvas), other)),
        final(canvas).wf(),
        same_frame(old(canvas), final(canvas)),
        r is Ok ==> final(canvas)@ == overlay(
            old(canvas)@,
            merged_vegetation(broadleaf@, unclassified@, other@),
            MaskRule::NonZero,
        ),
        r is Err ==> final(canvas)@ == old(canvas)@ && r == Err::<(), CompositeError>(CompositeError::SizeMismatch),
{
    let merged = match merge_classes(broadleaf, unclassified, other) {
        Ok(m) => m,
        Err(e) => {
            return Err(e);
        },
    };
    assert(merged@ == merged_vegetation(broadleaf@, unclassified@, other@));
    apply_overlay(canvas, &merged, MaskRule::NonZero)
}

/// Blacks out the canvas's color bands where the topographic raster (burnt onto 255) holds a
/// feature.
pub fn add_topo_layer(canvas: &mut RasterCanvas, raster: &LayerRaster) -> (r: Result<(), CompositeError>)
    requires
        old(canvas).wf(),
        raster.wf(),
    ensures
        r is Ok <==> same_grid(old(canvas), raster),
        final(canvas).wf(),
        same_frame(old(canvas), final(canvas)),
        r is Ok ==> final(canvas)@ == blank_overlay(old(canvas)@, raster@),
        r is Err ==> final(canvas)@ == old(canvas)@ && r == Err::<(), CompositeError>(CompositeError::SizeMismatch),
{
    apply_blank_overlay(canvas, raster)
}

/// Geometry type code of a line string in the toolkit's vector model.
pub const LINE_STRING: u32 = 2;

/// Geometry type code of a multi-line string in the toolkit's vector model.
pub const MULTI_LINE_STRING: u32 = 5;

/// Whether the features of a layer burn every pixel they touch: topographic layers of lines do,
/// since a line covers no pixel centre reliably; polygon layers burn the pixels they cover.
pub fn burns_all_touched(kind: LayerKind, geometry_type: u32) -> (r: bool)
    ensures
        r == (kind == LayerKind::Topographic && (geometry_type == LINE_STRING || geometry_type
            == MULTI_LINE_STRING)),
{
    kind == LayerKind::Topographic && (geometry_type == LINE_STRING || geometry_type
        == MULTI_LINE_STRING)
}

/// A rasterized layer with its category.
pub struct ThematicLayer {
    pub kind: LayerKind,
    pub raster: LayerRaster,
}

/// The canvas after one layer: copied on its mask, or, for topographic features, blanked there.
pub open spec fn apply_layer(c: CanvasPixels, t: ThematicLayer) -> CanvasPixels {
    if t.kind == LayerKind::Topographic {
        blank_overlay(c, t.raster@)
    } else {
        overlay(c, t.raster@, MaskRule::NonZero)
    }
}

/// The canvas after the layers of category `k` in `ls`, in their order in `ls`.
pub open spec fn apply_kind(c: CanvasPixels, ls: Seq<ThematicLayer>, k: LayerKind) -> CanvasPixels
    decreases ls.len(),
{
    if ls.len() == 0 {
        c
    } else {
        let before = apply_kind(c, ls.drop_last(), k);
        if ls.last().kind == k {
            apply_layer(before, ls.last())
        } else {
            before
        }
    }
}

/// The canvas after all layers, category by category in priority order: regional boundary,
/// vegetation, parcels, then topographic features.
pub open spec fn composite(c: CanvasPixels, ls: Seq<ThematicLayer>) -> CanvasPixels {
    apply_kind(
        apply_kind(
            apply_kind(apply_kind(c, ls, LayerKind::Regional), ls, LayerKind::Vegetation),
            ls,
            LayerKind::Parcels,
        ),
        ls,
        LayerKind::Topographic,
    )
}

fn apply_kind_exec(canvas: &mut RasterCanvas, layers: &Vec<ThematicLayer>, k: LayerKind)
    requires
        old(canvas).wf(),
        forall|i: int|
            0 <= i < layers@.len() ==> (#[trigger] layers@[i]).raster.wf() && same_grid(
                old(canvas),
                &layers@[i].raster,
            ),
    ensures
        final(canvas).wf(),
        same_frame(old(canvas), final(canvas)),
        final(canvas)@ == apply_kind(old(canvas)@, layers@, k),
{
    let ghost c0 = canvas@;
    let n = layers.len();
    let mut i: usize = 0;
    while i < n
        invariant
            n == layers@.len(),
            i <= n,
            canvas.wf(),
            same_frame(old(canvas), canvas),
            c0 == old(canvas)@,
            forall|j: int|
                0 <= j < layers@.len() ==> (#[trigger] layers@[j]).raster.wf() && same_grid(
                    old(canvas),
                    &layers@[j].raster,
                ),
            canvas@ == apply_kind(c0, layers@.take(i as int), k),
        decreases n - i,
    {
        let t = &layers[i];
        assert(layers@.take(i + 1).drop_last() == layers@.take(i as int));
        assert(layers@.take(i + 1).last() == layers@[i as int]);
        if t.kind == k {
            if t.kind == LayerKind::Topographic {
                let _ = apply_blank_overlay(canvas, &t.raster);
            } else {
                let _ = apply_overlay(canvas, &t.raster, MaskRule::NonZero);
            }
        }
        i = i + 1;
    }
    assert(layers@.take(n as int) == layers@);
}

/// Composites the layers onto the canvas in the fixed priority order (regional boundary,
/// vegetation, parcels, topographic features), whatever their order in `layers`; within one
/// category they go in their order in `layers`. Standard layers are copied where painted;
/// topographic features black out the color bands where present. The alpha band is never
/// touched. If a layer's grid differs from the canvas's, nothing is changed.
pub fn add_layers(canvas: &mut RasterCanvas, layers: &Vec<ThematicLayer>) -> (r: Result<
    (),
    CompositeError,
>)
    requires
        old(canvas).wf(),
        forall|i: int| 0 <= i < layers@.len() ==> (#[trigger] layers@[i]).raster.wf(),
    ensures
        r is Ok <==> forall|i: int|
            0 <= i < layers@.len() ==> same_grid(old(canvas), &(#[trigger] layers@[i]).raster),
        r is Err ==> r == Err::<(), CompositeError>(CompositeError::SizeMismatch),
        final(canvas).wf(),
        same_frame(old(canvas), final(canvas)),
        r is Ok ==> final(canvas)@ == composite(old(canvas)@, layers@),
        r is Err ==> final(canvas)@ == old(canvas)@,
{
    let n = layers.len();
    let mut i: usize = 0;
    while i < n
        invariant
            n == layers@.len(),
            i <= n,
            canvas.wf(),
            same_frame(old(canvas), canvas),
            canvas@ == old(canvas)@,
            forall|j: int| 0 <= j < i ==> same_grid(canvas, &(#[trigger] layers@[j]).raster),
        decreases n - i,
    {
        if layers[i].raster.width != canvas.width || layers[i].raster.height != canvas.height {
            return Err(CompositeError::SizeMismatch);
        }
        i = i + 1;
    }
    apply_kind_exec(canvas, layers, LayerKind::Regional);
    apply_kind_exec(canvas, layers, LayerKind::Vegetation);
    apply_kind_exec(canvas, layers, LayerKind::Parcels);
    apply_kind_exec(canvas, layers, LayerKind::Topographic);
    Ok(())
}

proof fn lemma_apply_kind_len(c: CanvasPixels, ls: Seq<ThematicLayer>, k: LayerKind)
    ensures
        apply_kind(c, ls, k).red.len() == c.red.len(),
        apply_kind(c, ls, k).green.len() == c.green.len(),
        apply_kind(c, ls, k).blue.len() == c.blue.len(),
    decreases ls.len(),
{
    if ls.len() > 0 {
        lemma_apply_kind_len(c, ls.drop_last(), k);
    }
}

proof fn lemma_topographic_pass_blanks(c: CanvasPixels, ls: Seq<ThematicLayer>, j: int, i: int)
    requires
        0 <= j < ls.len(),
        ls[j].kind == LayerKind::Topographic,
        crate::compositing::mask_of(MaskRule::NotBackground, ls[j].raster@)[i],
        0 <= i < c.red.len(),
        c.green.len() == c.red.len(),
        c.blue.len() == c.red.len(),
    ensures
        apply_kind(c, ls, LayerKind::Topographic).red[i] == 0,
        apply_kind(c, ls, LayerKind::Topographic).green[i] == 0,
        apply_kind(c, ls, LayerKind::Topographic).blue[i] == 0,
    decreases ls.len(),
{
    let before = apply_kind(c, ls.drop_last(), LayerKind::Topographic);
    lemma_apply_kind_len(c, ls.drop_last(), LayerKind::Topographic);
    if j < ls.len() - 1 {
        assert(ls.drop_last()[j] == ls[j]);
        lemma_topographic_pass_blanks(c, ls.drop_last(), j, i);
    }
}

/// Topographic features erase what lies under them: wherever any topographic layer holds a
/// feature, the composited pixel is black, whatever the other layers paint there.
pub proof fn lemma_features_are_black(c: CanvasPixels, ls: Seq<ThematicLayer>, j: int, i: int)
    requires
        0 <= j < ls.len(),
        ls[j].kind == LayerKind::Topographic,
        crate::compositing::mask_of(MaskRule::NotBackground, ls[j].raster@)[i],
        0 <= i < c.red.len(),
        c.green.len() == c.red.len(),
        c.blue.len() == c.red.len(),
    ensures
        composite(c, ls).red[i] == 0,
        composite(c, ls).green[i] == 0,
        composite(c, ls).blue[i] == 0,
{
    let c1 = apply_kind(c, ls, LayerKind::Regional);
    lemma_apply_kind_len(c, ls, LayerKind::Regional);
    let c2 = apply_kind(c1, ls, LayerKind::Vegetation);
    lemma_apply_kind_len(c1, ls, LayerKind::Vegetation);
    let c3 = apply_kind(c2, ls, LayerKind::Parcels);
    lemma_apply_kind_len(c2, ls, LayerKind::Parcels);
    lemma_topographic_pass_blanks(c3, ls, j, i);
}

/// The `ESSENCE` values of broadleaf formations.
pub open spec fn broadleaf_species() -> Seq<Seq<char>> {
    seq!["Feuillus"@, "Châtaignier"@, "Chênes sempervirents"@, "Chênes décidus"@, "Hêtre"@]
}

/// The `ESSENCE` values of unclassified formations.
pub open spec fn unclassified_species() -> Seq<Seq<char>> {
    seq!["NC"@, "NR"@]
}

/// `'a', 'b', ...`: the values quoted and separated by commas.
pub open spec fn quoted_list(items: Seq<Seq<char>>) -> Seq<char>
    decreases items.len(),
{
    if items.len() == 0 {
        Seq::empty()
    } else if items.len() == 1 {
        "'"@ + items[0] + "'"@
    } else {
        quoted_list(items.drop_last()) + ", '"@ + items.last() + "'"@
    }
}

/// The attribute filter that selects the features of a class. The three filters are mutually
/// exclusive and together select every feature: the last one is the complement of the first two,
/// features without an `ESSENCE` value included.
pub open spec fn class_filter(c: VegetationClass) -> Seq<char> {
    match c {
        VegetationClass::Broadleaf => "ESSENCE IN ("@ + quoted_list(broadleaf_species()) + ")"@,
        VegetationClass::Unclassified => "ESSENCE IN ("@ + quoted_list(unclassified_species())
            + ")"@,
        VegetationClass::Other => "ESSENCE IS NULL OR ESSENCE NOT IN ("@ + quoted_list(
            broadleaf_species() + unclassified_species(),
        ) + ")"@,
    }
}

fn quote_list(items: &Vec<&str>) -> (r: String)
    ensures
        r@ == quoted_list(items@.map_values(|x: &str| x@)),
{
    let ghost all = items@.map_values(|x: &str| x@);
    let mut out = String::new();
    let mut i: usize = 0;
    while i < items.len()
        invariant
            all == items@.map_values(|x: &str| x@),
            i <= items@.len(),
            out@ == quoted_list(all.take(i as int)),
        decreases items@.len() - i,
    {
        let ghost before = out@;
        if i > 0 {
            out.append(", '");
        } else {
            out.append("'");
        }
        out.append(items[i]);
        out.append("'");
        proof {
            let t = all.take(i + 1);
            assert(t.drop_last() =~= all.take(i as int));
            assert(t.last() == items@[i as int]@);
            if i == 0 {
                assert(all.take(0) =~= Seq::<Seq<char>>::empty());
                assert(t.len() == 1 && t[0] == items@[0]@);
                assert(out@ =~= quoted_list(t));
            } else {
                assert(out@ =~= quoted_list(t));
            }
        }
        i = i + 1;
    }
    assert(all.take(items@.len() as int) =~= all);
    out
}

impl VegetationClass {
    /// The attribute filter that selects this class's features for rasterization.
    pub fn filter(&self) -> (r: String)
        ensures
            r@ == class_filter(*self),
    {
        let mut names: Vec<&str> = Vec::new();
        let ghost mut expected: Seq<Seq<char>> = Seq::empty();
        match self {
            VegetationClass::Unclassified => {},
            _ => {
                names.push("Feuillus");
                names.push("Châtaignier");
                names.push("Chênes sempervirents");
                names.push("Chênes décidus");
                names.push("Hêtre");
                proof {
                    expected = broadleaf_species();
                }
            },
        }
        match self {
            VegetationClass::Broadleaf => {},
            _ => {
                names.push("NC");
                names.push("NR");
                proof {
                    expected = expected + unclassified_species();
                }
            },
        }
        assert(names@.map_values(|x: &str| x@) =~= expected);
        let list = quote_list(&names);
        let head = match self {
            VegetationClass::Other => "ESSENCE IS NULL OR ESSENCE NOT IN (",
            _ => "ESSENCE IN (",
        };
        String::from_str(head).concat(list.as_str()).concat(")")
    }
}

} // verus!
