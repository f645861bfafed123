//! Compositing of rasterized thematic layers onto the project canvas.
//!
//! A layer raster has three color bands of the canvas's size. Its mask marks the pixels that it
//! paints; an overlay copies the layer's color into the canvas on the mask (or, for topographic
//! features, blanks the canvas there) and leaves every other pixel and the alpha band alone.
use vstd::prelude::*;

use crate::canvas::{CanvasPixels, RasterCanvas};

verus! {

/// Background value of a raster that line and point features are burnt into.
pub const BACKGROUND: u8 = 255;

/// Which pixel values of a layer raster count as painted.
#[derive(Clone, Copy, Debug, PartialEq, Eq, Structural)]
pub enum MaskRule {
    /// A value above zero: polygon layers burnt onto a zero background.
    NonZero,
    /// A value other than the 255 background: layers burnt onto a background of 255.
    NotBackground,
}

/// Whether one band value is painted under `rule`.
pub open spec fn painted(rule: MaskRule, v: u8) -> bool {
    match rule {
        MaskRule::NonZero => v > 0,
        MaskRule::NotBackground => v != BACKGROUND,
    }
}

impl MaskRule {
    pub fn accepts(&self, v: u8) -> (r: bool)
        ensures
            r == painted(*self, v),
    {
        match self {
            MaskRule::NonZero => v > 0,
            MaskRule::NotBackground => v != BACKGROUND,
        }
    }
}

/// The color bands of a layer raster.
pub struct LayerPixels {
    pub red: Seq<u8>,
    pub green: Seq<u8>,
    pub blue: Seq<u8>,
}

/// A rasterized layer: three color bands of `width * height` pixels, row-major.
pub struct LayerRaster {
    pub width: usize,
    pub height: usize,
    pub red: Vec<u8>,
    pub green: Vec<u8>,
    pub blue: Vec<u8>,
}

impl View for LayerRaster {
    type V = LayerPixels;

    open spec fn view(&self) -> LayerPixels {
        LayerPixels { red: self.red@, green: self.green@, blue: self.blue@ }
    }
}

impl LayerRaster {
    pub open spec fn wf(&self) -> bool {
        &&& self.width * self.height <= usize::MAX
        &&& self.red@.len() == self.width * self.height
        &&& self.green@.len() == self.width * self.height
        &&& self.blue@.len() == self.width * self.height
    }

    /// A raster of the given size whose three bands all hold `value`.
    pub fn filled(width: usize, height: usize, value: u8) -> (r: Option<LayerRaster>)
        ensures
            r is Some <==> width * height <= usize::MAX,
            r matches Some(l) ==> l.wf() && l.width == width && l.height == height && l@.red
                == crate::canvas::uniform(width * height, value) && l@.green
                == crate::canvas::uniform(width * height, value) && l@.blue
                == crate::canvas::uniform(width * height, value),
    {
        match width.checked_mul(height) {
            Some(n) => Some(
                LayerRaster {
                    width,
                    height,
                    red: vec![value; n],
                    green: vec![value; n],
                    blue: vec![value; n],
                },
            ),
            None => None,
        }
    }
}

/// The mask of a layer: a pixel is set when any of its three bands is painted.
pub open spec fn mask_of(rule: MaskRule, l: LayerPixels) -> Seq<bool> {
    Seq::new(
        l.red.len(),
        |i: int| painted(rule, l.red[i]) || painted(rule, l.green[i]) || painted(rule, l.blue[i]),
    )
}

/// `base` with the pixels under `mask` replaced by those of `src`.
pub open spec fn paint(base: Seq<u8>, src: Seq<u8>, mask: Seq<bool>) -> Seq<u8> {
    Seq::new(base.len(), |i: int| if mask[i] { src[i] } else { base[i] })
}

/// `base` with the pixels under `mask` set to zero.
pub open spec fn blank(base: Seq<u8>, mask: Seq<bool>) -> Seq<u8> {
    Seq::new(base.len(), |i: int| if mask[i] { 0u8 } else { base[i] })
}

/// The canvas after a layer is copied onto it where the layer is painted under `rule`.
pub open spec fn overlay(c: CanvasPixels, l: LayerPixels, rule: MaskRule) -> CanvasPixels {
    let m = mask_of(rule, l);
    CanvasPixels {
        red: paint(c.red, l.red, m),
        green: paint(c.green, l.green, m),
        blue: paint(c.blue, l.blue, m),
        alpha: c.alpha,
    }
}

/// The canvas after the color bands are blacked out wherever a layer burnt onto the 255
/// background holds a feature.
pub open spec fn blank_overlay(c: CanvasPixels, l: LayerPixels) -> CanvasPixels {
    let m = mask_of(MaskRule::NotBackground, l);
    CanvasPixels { red: blank(c.red, m), green: blank(c.green, m), blue: blank(c.blue, m), alpha: c.alpha }
}

/// Why a layer could not be composited.
#[derive(Clone, Copy, Debug, PartialEq, Eq, Structural)]
pub enum CompositeError {
    /// The layer raster and the canvas (or two class rasters) differ in size.
    SizeMismatch,
}

/// The per-pixel mask of a layer under `rule`.
pub fn build_mask(layer: &LayerRaster, rule: MaskRule) -> (r: Vec<bool>)
    requires
        layer.wf(),
    ensures
        r@ == mask_of(rule, layer@),
{
    let n = layer.red.len();
    let mut mask: Vec<bool> = Vec::with_capacity(n);
    let mut i: usize = 0;
    while i < n
        invariant
            layer.wf(),
            n == layer.red@.len(),
            i <= n,
            mask@.len() == i,
            forall|j: int| 0 <= j < i ==> mask@[j] == #[trigger] mask_of(rule, layer@)[j],
        decreases n - i,
    {
        let m = rule.accepts(layer.red[i]) || rule.accepts(layer.green[i]) || rule.accepts(
            layer.blue[i],
        );
        mask.push(m);
        i = i + 1;
    }
    assert(mask@ =~= mask_of(rule, layer@));
    mask
}

fn paint_band(base: &mut Vec<u8>, src: &Vec<u8>, mask: &Vec<bool>)
    requires
        old(base)@.len() == src@.len(),
        old(base)@.len() == mask@.len(),
    ensures
        final(base)@ == paint(old(base)@, src@, mask@),
{
    let n = base.len();
    let mut i: usize = 0;
    while i < n
        invariant
            n == base@.len(),
            n == src@.len(),
            n == mask@.len(),
            n == old(base)@.len(),
            i <= n,
            forall|j: int| 0 <= j < i ==> base@[j] == #[trigger] paint(old(base)@, src@, mask@)[j],
            forall|j: int| i <= j < n ==> base@[j] == old(base)@[j],
        decreases n - i,
    {
        if mask[i] {
            base[i] = src[i];
        }
        i = i + 1;
    }
    assert(base@ =~= paint(old(base)@, src@, mask@));
}

fn blank_band(base: &mut Vec<u8>, mask: &Vec<bool>)
    requires
        old(base)@.len() == mask@.len(),
    ensures
        final(base)@ == blank(old(base)@, mask@),
{
    let n = base.len();
    let mut i: usize = 0;
    while i < n
        invariant
            n == base@.len(),
            n == mask@.len(),
            n == old(base)@.len(),
            i <= n,
            forall|j: int| 0 <= j < i ==> base@[j] == #[trigger] blank(old(base)@, mask@)[j],
            forall|j: int| i <= j < n ==> base@[j] == old(base)@[j],
        decreases n - i,
    {
        if mask[i] {
            base[i] = 0;
        }
        i = i + 1;
    }
    assert(base@ =~= blank(old(base)@, mask@));
}

/// Whether a layer raster has the canvas's pixel grid.
pub open spec fn same_grid(c: &RasterCanvas, l: &LayerRaster) -> bool {
    c.width == l.width && c.height == l.height
}

/// The fields of a canvas other than its pixels are the same in both.
pub open spec fn same_frame(a: &RasterCanvas, b: &RasterCanvas) -> bool {
    &&& a.width == b.width
    &&& a.height == b.height
    &&& a.origin_x == b.origin_x
    &&& a.origin_y == b.origin_y
    &&& a.resolution == b.resolution
    &&& a.epsg == b.epsg
}

/// Copies the layer's color bands into the canvas wherever the layer is painted under `rule`;
/// every other pixel, and the alpha band, keep their value.
pub fn apply_overlay(canvas: &mut RasterCanvas, layer: &LayerRaster, rule: MaskRule) -> (r: Result<
    (),
    CompositeError,
>)
    requires
        old(canvas).wf(),
        layer.wf(),
    ensures
        r is Ok <==> same_grid(old(canvas), layer),
        r is Err ==> r == Err::<(), CompositeError>(CompositeError::SizeMismatch),
        final(canvas).wf(),
        same_frame(old(canvas), final(canvas)),
        r is Ok ==> final(canvas)@ == overlay(old(canvas)@, layer@, rule),
        r is Err ==> final(canvas)@ == old(canvas)@,
{
    if canvas.width != layer.width || canvas.height != layer.height {
        return Err(CompositeError::SizeMismatch);
    }
    let mask = build_mask(layer, rule);
    paint_band(&mut canvas.red, &layer.red, &mask);
    paint_band(&mut canvas.green, &layer.green, &mask);
    paint_band(&mut canvas.blue, &layer.blue, &mask);
    Ok(())
}

/// Blacks out the canvas's color bands wherever a layer burnt onto the 255 background holds a
/// feature; the alpha band keeps its value.
pub fn apply_blank_overlay(canvas: &mut RasterCanvas, layer: &LayerRaster) -> (r: Result<
    (),
    CompositeError,
>)
    requires
        old(canvas).wf(),
        layer.wf(),
    ensures
        r is Ok <==> same_grid(old(canvas), layer),
        r is Err ==> r == Err::<(), CompositeError>(CompositeError::SizeMismatch),
        final(canvas).wf(),
        same_frame(old(canvas), final(canvas)),
        r is Ok ==> final(canvas)@ == blank_overlay(old(canvas)@, layer@),
        r is Err ==> final(canvas)@ == old(canvas)@,
{
    if canvas.width != layer.width || canvas.height != layer.height {
        return Err(CompositeError::SizeMismatch);
    }
    let mask = build_mask(layer, MaskRule::NotBackground);
    blank_band(&mut canvas.red, &mask);
    blank_band(&mut canvas.green, &mask);
    blank_band(&mut canvas.blue, &mask);
    Ok(())
}

/// The color bands of a canvas and a layer cover the same pixels.
pub open spec fn same_pixels(c: CanvasPixels, l: LayerPixels) -> bool {
    &&& c.green.len() == c.red.len()
    &&& c.blue.len() == c.red.len()
    &&& l.red.len() == c.red.len()
    &&& l.green.len() == c.red.len()
    &&& l.blue.len() == c.red.len()
}

/// Applying the same layer overlay twice in succession gives the same canvas as applying it
/// once: the painted pixels take the layer's values whatever the canvas held before.
pub proof fn lemma_overlay_idempotent(c: CanvasPixels, l: LayerPixels, rule: MaskRule)
    requires
        same_pixels(c, l),
    ensures
        overlay(overlay(c, l, rule), l, rule) == overlay(c, l, rule),
{
    let m = mask_of(rule, l);
    assert(paint(paint(c.red, l.red, m), l.red, m) =~= paint(c.red, l.red, m));
    assert(paint(paint(c.green, l.green, m), l.green, m) =~= paint(c.green, l.green, m));
    assert(paint(paint(c.blue, l.blue, m), l.blue, m) =~= paint(c.blue, l.blue, m));
}

/// Blanking the canvas under the same topographic layer twice gives the canvas of doing it once.
pub proof fn lemma_blank_overlay_idempotent(c: CanvasPixels, l: LayerPixels)
    requires
        same_pixels(c, l),
    ensures
        blank_overlay(blank_overlay(c, l), l) == blank_overlay(c, l),
{
    let m = mask_of(MaskRule::NotBackground, l);
    assert(blank(blank(c.red, m), m) =~= blank(c.red, m));
    assert(blank(blank(c.green, m), m) =~= blank(c.green, m));
    assert(blank(blank(c.blue, m), m) =~= blank(c.blue, m));
}

/// Of two layers that both paint pixel `i`, the one overlaid later decides its color: the final
/// pixel holds the later layer's values, never the earlier one's.
pub proof fn lemma_later_layer_wins(
    c: CanvasPixels,
    first: LayerPixels,
    first_rule: MaskRule,
    second: LayerPixels,
    second_rule: MaskRule,
    i: int,
)
    requires
        same_pixels(c, first),
        same_pixels(c, second),
        0 <= i < c.red.len(),
        mask_of(first_rule, first)[i],
        mask_of(second_rule, second)[i],
    ensures
        overlay(overlay(c, first, first_rule), second, second_rule).red[i] == second.red[i],
        overlay(overlay(c, first, first_rule), second, second_rule).green[i] == second.green[i],
        overlay(overlay(c, first, first_rule), second, second_rule).blue[i] == second.blue[i],
{
}

/// A topographic feature laid after a painted layer erases that layer's color at the pixel.
pub proof fn lemma_features_erase_earlier_layers(
    c: CanvasPixels,
    first: LayerPixels,
    first_rule: MaskRule,
    features: LayerPixels,
    i: int,
)
    requires
        same_pixels(c, first),
        same_pixels(c, features),
        0 <= i < c.red.len(),
        mask_of(first_rule, first)[i],
        mask_of(MaskRule::NotBackground, features)[i],
    ensures
        blank_overlay(overlay(c, first, first_rule), features).red[i] == 0,
        blank_overlay(overlay(c, first, first_rule), features).green[i] == 0,
        blank_overlay(overlay(c, first, first_rule), features).blue[i] == 0,
{
}

/// The first value above zero in the precedence order `a`, `b`, `c`, or zero.
pub open spec fn first_painted(a: u8, b: u8, c: u8) -> u8 {
    if a > 0 {
        a
    } else if b > 0 {
        b
    } else if c > 0 {
        c
    } else {
        0
    }
}

/// The per-pixel merge of three class bands by precedence.
pub open spec fn merge_band(a: Seq<u8>, b: Seq<u8>, c: Seq<u8>) -> Seq<u8> {
    Seq::new(a.len(), |i: int| first_painted(a[i], b[i], c[i]))
}

fn merge_band_exec(a: &Vec<u8>, b: &Vec<u8>, c: &Vec<u8>) -> (r: Vec<u8>)
    requires
        a@.len() == b@.len(),
        a@.len() == c@.len(),
    ensures
        r@ == merge_band(a@, b@, c@),
{
    let n = a.len();
    let mut out: Vec<u8> = Vec::with_capacity(n);
    let mut i: usize = 0;
    while i < n
        invariant
            n == a@.len(),
            n == b@.len(),
            n == c@.len(),
            i <= n,
            out@.len() == i,
            forall|j: int| 0 <= j < i ==> out@[j] == #[trigger] merge_band(a@, b@, c@)[j],
        decreases n - i,
    {
        let v = if a[i] > 0 {
            a[i]
        } else if b[i] > 0 {
            b[i]
        } else if c[i] > 0 {
            c[i]
        } else {
            0
        };
        out.push(v);
        i = i + 1;
    }
    assert(out@ =~= merge_band(a@, b@, c@));
    out
}

/// Merges three class rasters of one layer into one: per pixel and band, the first value above
/// zero in precedence order (`first`, then `second`, then `third`), else zero. A class that
/// claims a pixel hides the lower ones there.
pub fn merge_classes(first: &LayerRaster, second: &LayerRaster, third: &LayerRaster) -> (r: Result<
    LayerRaster,
    CompositeError,
>)
    requires
        first.wf(),
        second.wf(),
        third.wf(),
    ensures
        r is Ok <==> (first.width == second.width && first.height == second.height
            && first.width == third.width && first.height == third.height),
        r is Err ==> r == Err::<LayerRaster, CompositeError>(CompositeError::SizeMismatch),
        r matches Ok(m) ==> {
            &&& m.wf()
            &&& m.width == first.width
            &&& m.height == first.height
            &&& m@.red == merge_band(first@.red, second@.red, third@.red)
            &&& m@.green == merge_band(first@.green, second@.green, third@.green)
            &&& m@.blue == merge_band(first@.blue, second@.blue, third@.blue)
        },
{
    if first.width != second.width || first.height != second.height || first.width != third.width
        || first.height != third.height {
        return Err(CompositeError::SizeMismatch);
    }
    Ok(
        LayerRaster {
            width: first.width,
            height: first.height,
            red: merge_band_exec(&first.red, &second.red, &third.red),
            green: merge_band_exec(&first.green, &second.green, &third.green),
            blue: merge_band_exec(&first.blue, &second.blue, &third.blue),
        },
    )
}

} // verus!
