//! The project raster: four bands of bytes over a box at a fixed ground resolution.
use vstd::prelude::*;

use crate::geometry::BoundingBox;
use vstd::arithmetic::div_mod::{
    lemma_div_by_multiple, lemma_fundamental_div_mod, lemma_mod_multiples_basic,
};

verus! {

/// EPSG code of the deployment's projected coordinate reference system.
pub const PROJECT_EPSG: u32 = 2154;

/// Value of the alpha band: fully opaque.
pub const OPAQUE: u8 = 255;

/// `ceil(a / b)` for a non-negative `a` and a positive `b`.
pub open spec fn ceil_div(a: int, b: int) -> int {
    if a % b == 0 {
        a / b
    } else {
        a / b + 1
    }
}

/// Pixel count of one side of a canvas: the extent divided by the resolution, rounded up.
pub open spec fn pixels_for(extent: int, resolution: int) -> int {
    ceil_div(extent, resolution)
}

/// The affine map from pixel to ground coordinates, as the six GDAL coefficients
/// `(originX, pixelW, 0, originY, 0, -pixelH)`.
#[derive(Clone, Copy, Debug, PartialEq, Eq, Structural)]
pub struct GeoTransform {
    pub origin_x: i64,
    pub pixel_width: i64,
    pub row_rotation: i64,
    pub origin_y: i64,
    pub column_rotation: i64,
    pub pixel_height: i64,
}

/// Why a canvas could not be created.
#[derive(Clone, Copy, Debug, PartialEq, Eq, Structural)]
pub enum CanvasError {
    /// The ground resolution is zero.
    ZeroResolution,
    /// The slice factor is zero.
    ZeroSliceFactor,
    /// A pixel dimension is not a multiple of the slice factor.
    NotSliceAligned { width: u64, height: u64 },
    /// The pixel grid does not fit in memory addresses.
    TooLarge,
}

/// The pixels of a canvas, band by band, row-major from the upper-left corner.
pub struct CanvasPixels {
    pub red: Seq<u8>,
    pub green: Seq<u8>,
    pub blue: Seq<u8>,
    pub alpha: Seq<u8>,
}

/// The composite raster of a project: bands 1-3 carry color, band 4 is a constant opaque mask.
pub struct RasterCanvas {
    pub width: usize,
    pub height: usize,
    pub origin_x: i64,
    pub origin_y: i64,
    pub resolution: u32,
    pub epsg: u32,
    pub red: Vec<u8>,
    pub green: Vec<u8>,
    pub blue: Vec<u8>,
    pub alpha: Vec<u8>,
}

impl View for RasterCanvas {
    type V = CanvasPixels;

    open spec fn view(&self) -> CanvasPixels {
        CanvasPixels { red: self.red@, green: self.green@, blue: self.blue@, alpha: self.alpha@ }
    }
}

/// A band of `n` pixels all holding `v`.
pub open spec fn uniform(n: int, v: u8) -> Seq<u8> {
    Seq::new(n as nat, |i: int| v)
}

impl RasterCanvas {
    /// Number of pixels in one band.
    pub open spec fn pixel_count(&self) -> int {
        self.width * self.height
    }

    /// Every band holds exactly one byte per pixel.
    pub open spec fn wf(&self) -> bool {
        &&& self.width * self.height <= usize::MAX
        &&& self.red@.len() == self.pixel_count()
        &&& self.green@.len() == self.pixel_count()
        &&& self.blue@.len() == self.pixel_count()
        &&& self.alpha@.len() == self.pixel_count()
    }

    /// The ground extent of the canvas `(xmin, ymin, xmax, ymax)`, from its geotransform and
    /// pixel size.
    pub open spec fn spec_extent(&self) -> (int, int, int, int) {
        (
            self.origin_x as int,
            self.origin_y - self.resolution * self.height,
            self.origin_x + self.resolution * self.width,
            self.origin_y as int,
        )
    }

    pub fn extent(&self) -> (r: (i128, i128, i128, i128))
        ensures
            (r.0 as int, r.1 as int, r.2 as int, r.3 as int) == self.spec_extent(),
    {
        assert(self.resolution * self.height <= u32::MAX * usize::MAX) by (nonlinear_arith)
            requires
                self.resolution <= u32::MAX,
                self.height <= usize::MAX,
        ;
        assert(self.resolution * self.width <= u32::MAX * usize::MAX) by (nonlinear_arith)
            requires
                self.resolution <= u32::MAX,
                self.width <= usize::MAX,
        ;
        let dy = self.resolution as i128 * self.height as i128;
        let dx = self.resolution as i128 * self.width as i128;
        (
            self.origin_x as i128,
            self.origin_y as i128 - dy,
            self.origin_x as i128 + dx,
            self.origin_y as i128,
        )
    }

    pub fn band_count(&self) -> (r: usize)
        ensures
            r == 4,
    {
        4
    }

    /// The geotransform: the box's upper-left corner and the (positive, negative) pixel sizes.
    pub fn geo_transform(&self) -> (r: GeoTransform)
        ensures
            r == (GeoTransform {
                origin_x: self.origin_x,
                pixel_width: self.resolution as i64,
                row_rotation: 0,
                origin_y: self.origin_y,
                column_rotation: 0,
                pixel_height: (-(self.resolution as int)) as i64,
            }),
    {
        GeoTransform {
            origin_x: self.origin_x,
            pixel_width: self.resolution as i64,
            row_rotation: 0,
            origin_y: self.origin_y,
            column_rotation: 0,
            pixel_height: -(self.resolution as i64),
        }
    }
}

/// Whether `create_project` accepts the box at this resolution and slice factor.
pub open spec fn canvas_accepted(bb: BoundingBox, resolution: int, slice_factor: int) -> bool {
    &&& resolution > 0
    &&& slice_factor > 0
    &&& pixels_for(bb.spec_width(), resolution) % slice_factor == 0
    &&& pixels_for(bb.spec_height(), resolution) % slice_factor == 0
    &&& pixels_for(bb.spec_width(), resolution) * pixels_for(bb.spec_height(), resolution)
        <= usize::MAX
}

pub(crate) fn ceil_div_i64(a: i64, b: i64) -> (r: i64)
    requires
        a > 0,
        b > 0,
    ensures
        r == ceil_div(a as int, b as int),
        0 < r <= a,
{
    let q = a / b;
    if a % b == 0 {
        assert(q > 0) by {
            assert(a == b * q + a % b) by (nonlinear_arith)
                requires
                    q == a / b,
                    b > 0,
            ;
            assert(q > 0) by (nonlinear_arith)
                requires
                    a == b * q,
                    a > 0,
                    b > 0,
            ;
        }
        assert(q <= a) by (nonlinear_arith)
            requires
                q == a / b,
                a > 0,
                b > 0,
        ;
        q
    } else {
        assert(q < a) by (nonlinear_arith)
            requires
                q == a / b,
                a > 0,
                b > 0,
                a % b != 0,
        ;
        assert(q >= 0) by (nonlinear_arith)
            requires
                q == a / b,
                a > 0,
                b > 0,
        ;
        q + 1
    }
}

/// Creates the canvas of a project for `bb` at `resolution` metres per pixel.
///
/// Width and height are `ceil(extent / resolution)` and must be multiples of `slice_factor`, so
/// that tiling later yields only complete tiles. Bands 1-3 start at zero and band 4 fully opaque.
pub fn create_project(bb: &BoundingBox, resolution: u32, slice_factor: u32) -> (r: Result<
    RasterCanvas,
    CanvasError,
>)
    requires
        bb.wf(),
    ensures
        r is Ok <==> canvas_accepted(*bb, resolution as int, slice_factor as int),
        resolution == 0 ==> r == Err::<RasterCanvas, CanvasError>(CanvasError::ZeroResolution),
        resolution > 0 && slice_factor == 0 ==> r == Err::<RasterCanvas, CanvasError>(
            CanvasError::ZeroSliceFactor,
        ),
        resolution > 0 && slice_factor > 0 && !(pixels_for(bb.spec_width(), resolution as int)
            % slice_factor as int == 0 && pixels_for(bb.spec_height(), resolution as int)
            % slice_factor as int == 0) ==> r == Err::<RasterCanvas, CanvasError>(
            CanvasError::NotSliceAligned {
                width: pixels_for(bb.spec_width(), resolution as int) as u64,
                height: pixels_for(bb.spec_height(), resolution as int) as u64,
            },
        ),
        r matches Err(e) && e == CanvasError::TooLarge ==> resolution > 0 && slice_factor > 0
            && pixels_for(bb.spec_width(), resolution as int) * pixels_for(
            bb.spec_height(),
            resolution as int,
        ) > usize::MAX,
        r matches Ok(c) ==> {
            &&& c.wf()
            &&& c.width == pixels_for(bb.spec_width(), resolution as int)
            &&& c.height == pixels_for(bb.spec_height(), resolution as int)
            &&& c.origin_x == bb.xmin
            &&& c.origin_y == bb.ymax
            &&& c.resolution == resolution
            &&& c.epsg == PROJECT_EPSG
            &&& c@.red == uniform(c.pixel_count(), 0)
            &&& c@.green == uniform(c.pixel_count(), 0)
            &&& c@.blue == uniform(c.pixel_count(), 0)
            &&& c@.alpha == uniform(c.pixel_count(), OPAQUE)
        },
{
    if resolution == 0 {
        return Err(CanvasError::ZeroResolution);
    }
    if slice_factor == 0 {
        return Err(CanvasError::ZeroSliceFactor);
    }
    let w = ceil_div_i64(bb.width(), resolution as i64);
    let h = ceil_div_i64(bb.height(), resolution as i64);
    if !(w % (slice_factor as i64) == 0 && h % (slice_factor as i64) == 0) {
        return Err(CanvasError::NotSliceAligned { width: w as u64, height: h as u64 });
    }
    if w as u64 > usize::MAX as u64 || h as u64 > usize::MAX as u64 {
        assert(w * h > usize::MAX) by (nonlinear_arith)
            requires
                w > 0,
                h > 0,
                w > usize::MAX || h > usize::MAX,
        ;
        return Err(CanvasError::TooLarge);
    }
    let width = w as usize;
    let height = h as usize;
    let n = match width.checked_mul(height) {
        Some(n) => n,
        None => {
            return Err(CanvasError::TooLarge);
        },
    };
    Ok(
        RasterCanvas {
            width,
            height,
            origin_x: bb.xmin,
            origin_y: bb.ymax,
            resolution,
            epsg: PROJECT_EPSG,
            red: vec![0u8; n],
            green: vec![0u8; n],
            blue: vec![0u8; n],
            alpha: vec![OPAQUE; n],
        },
    )
}

proof fn lemma_aligned_side(extent: int, resolution: int, slice_factor: int)
    requires
        extent > 0,
        resolution > 0,
        slice_factor > 0,
        extent % (resolution * slice_factor) == 0,
    ensures
        pixels_for(extent, resolution) == extent / resolution,
        pixels_for(extent, resolution) % slice_factor == 0,
{
    let rs = resolution * slice_factor;
    assert(rs > 0) by (nonlinear_arith)
        requires
            resolution > 0,
            slice_factor > 0,
            rs == resolution * slice_factor,
    ;
    lemma_fundamental_div_mod(extent, rs);
    let q = extent / rs;
    assert(q >= 0) by (nonlinear_arith)
        requires
            extent > 0,
            rs > 0,
            q == extent / rs,
    ;
    assert(extent == (q * slice_factor) * resolution) by (nonlinear_arith)
        requires
            extent == rs * q,
            rs == resolution * slice_factor,
    ;
    assert(q * slice_factor >= 0) by (nonlinear_arith)
        requires
            q >= 0,
            slice_factor > 0,
    ;
    lemma_mod_multiples_basic(q * slice_factor, resolution);
    lemma_div_by_multiple(q * slice_factor, resolution);
    lemma_mod_multiples_basic(q, slice_factor);
}

/// A box whose width and height are exact multiples of `resolution * slice_factor` is accepted
/// (as long as its pixel grid fits in memory addresses), and its canvas's width and height are
/// multiples of the slice factor.
pub proof fn lemma_aligned_box_accepted(bb: BoundingBox, resolution: int, slice_factor: int)
    requires
        bb.wf(),
        resolution > 0,
        slice_factor > 0,
        bb.spec_width() % (resolution * slice_factor) == 0,
        bb.spec_height() % (resolution * slice_factor) == 0,
        pixels_for(bb.spec_width(), resolution) * pixels_for(bb.spec_height(), resolution)
            <= usize::MAX,
    ensures
        canvas_accepted(bb, resolution, slice_factor),
        pixels_for(bb.spec_width(), resolution) % slice_factor == 0,
        pixels_for(bb.spec_height(), resolution) % slice_factor == 0,
{
    lemma_aligned_side(bb.spec_width(), resolution, slice_factor);
    lemma_aligned_side(bb.spec_height(), resolution, slice_factor);
}

/// A box whose pixel width or height (the extent divided by the resolution, rounded up) is not
/// a multiple of the slice factor is refused.
pub proof fn lemma_misaligned_box_refused(bb: BoundingBox, resolution: int, slice_factor: int)
    requires
        bb.wf(),
        resolution > 0,
        slice_factor > 0,
        !(pixels_for(bb.spec_width(), resolution) % slice_factor == 0 && pixels_for(
            bb.spec_height(),
            resolution,
        ) % slice_factor == 0),
    ensures
        !canvas_accepted(bb, resolution, slice_factor),
{
}

} // verus!
