//! Cutting of two co-registered rendered images into square tiles named by kilometre coordinates.
use vstd::prelude::*;

use crate::text::{i64_text, int_text};

verus! {

/// Metres in one kilometre.
pub const METRES_PER_KM: i64 = 1000;

/// `floor(x / 1000)`: a coordinate in metres as whole kilometres.
pub open spec fn km_floor(x: int) -> int {
    x / 1000
}

/// Converts a coordinate in metres to whole kilometres, rounding down.
pub fn to_km(x: i64) -> (r: i64)
    ensures
        r == km_floor(x as int),
{
    if x >= 0 {
        x / METRES_PER_KM
    } else {
        let p = -(x + 1);
        let q = p / METRES_PER_KM;
        assert(-q - 1 == km_floor(x as int)) by (nonlinear_arith)
            requires
                p == -(x + 1),
                p >= 0,
                q == p / 1000,
                x < 0,
        {
            assert(p == 1000 * q + p % 1000);
            assert(0 <= p % 1000 < 1000);
            assert(x == 1000 * (-q - 1) + (999 - p % 1000));
        }
        -q - 1
    }
}

/// The geometry of a slicing: image size, tile size, ground resolution and the image's
/// lower-left corner in metres.
#[derive(Clone, Copy, Debug, PartialEq, Eq, Structural)]
pub struct TileGrid {
    pub width: u32,
    pub height: u32,
    pub size: u32,
    pub resolution: u32,
    pub xmin: i64,
    pub ymin: i64,
}

/// One square tile: its upper-left pixel in the image, its side in pixels, and its name
/// coordinates in kilometres.
#[derive(Clone, Copy, Debug, PartialEq, Eq, Structural)]
pub struct Tile {
    pub img_x: u32,
    pub img_y: u32,
    pub size: u32,
    pub coord_x: i64,
    pub coord_y: i64,
}

/// Complete tile columns of the grid.
pub open spec fn grid_cols(g: TileGrid) -> int {
    g.width as int / g.size as int
}

/// Complete tile rows of the grid.
pub open spec fn grid_rows(g: TileGrid) -> int {
    g.height as int / g.size as int
}

/// Number of tiles that a slicing yields: only complete tiles.
pub open spec fn tile_count(g: TileGrid) -> int {
    grid_rows(g) * grid_cols(g)
}

/// Upper-left pixel column of tile `t`.
pub open spec fn tile_img_x(g: TileGrid, t: int) -> int {
    (t % grid_cols(g)) * g.size
}

/// Upper-left pixel row of tile `t`: rows are taken from the bottom of the image upwards.
pub open spec fn tile_img_y(g: TileGrid, t: int) -> int {
    (grid_rows(g) - 1 - t / grid_cols(g)) * g.size
}

/// The `t`-th tile of a slicing, in the order rows from the bottom of the image (ascending
/// ground Y) and, within a row, columns from left to right. Its coordinates are the lower-left
/// corner's kilometres plus the kilometres of its pixel offset from that corner.
pub open spec fn tile_at(g: TileGrid, t: int) -> Tile {
    Tile {
        img_x: tile_img_x(g, t) as u32,
        img_y: tile_img_y(g, t) as u32,
        size: g.size,
        coord_x: (km_floor(g.xmin as int) + km_floor(tile_img_x(g, t) * g.resolution)) as i64,
        coord_y: (km_floor(g.ymin as int) + km_floor(
            (g.height - tile_img_y(g, t) - g.size) * g.resolution,
        )) as i64,
    }
}

/// The name of a tile of the thematic image: `{x}_{y}_veget_{size}.jpg`.
pub open spec fn thematic_tile_name(t: Tile) -> Seq<char> {
    int_text(t.coord_x as int) + "_"@ + int_text(t.coord_y as int) + "_veget_"@ + int_text(
        t.size as int,
    ) + ".jpg"@
}

/// The name of a tile of the photographic image: `{x}_{y}_{size}.jpg`.
pub open spec fn photo_tile_name(t: Tile) -> Seq<char> {
    int_text(t.coord_x as int) + "_"@ + int_text(t.coord_y as int) + "_"@ + int_text(
        t.size as int,
    ) + ".jpg"@
}

impl Tile {
    /// File name of this tile cut from the thematic image.
    pub fn thematic_name(&self) -> (r: String)
        ensures
            r@ == thematic_tile_name(*self),
    {
        let mut s = i64_text(self.coord_x);
        s.append("_");
        let y = i64_text(self.coord_y);
        s.append(y.as_str());
        s.append("_veget_");
        let z = i64_text(self.size as i64);
        s.append(z.as_str());
        s.append(".jpg");
        s
    }

    /// File name of this tile cut from the photographic image.
    pub fn photo_name(&self) -> (r: String)
        ensures
            r@ == photo_tile_name(*self),
    {
        let mut s = i64_text(self.coord_x);
        s.append("_");
        let y = i64_text(self.coord_y);
        s.append(y.as_str());
        s.append("_");
        let z = i64_text(self.size as i64);
        s.append(z.as_str());
        s.append(".jpg");
        s
    }
}

/// Why an image pair could not be sliced.
#[derive(Clone, Copy, Debug, PartialEq, Eq, Structural)]
pub enum SliceError {
    /// The tile size is zero.
    ZeroSliceFactor,
    /// The two images differ in size.
    SizeMismatch,
}

proof fn lemma_tile_position(g: TileGrid, t: int)
    requires
        g.size > 0,
        0 <= t < tile_count(g),
    ensures
        grid_cols(g) > 0,
        grid_rows(g) > 0,
        0 <= t / grid_cols(g) < grid_rows(g),
        0 <= t % grid_cols(g) < grid_cols(g),
        0 <= tile_img_x(g, t),
        tile_img_x(g, t) + g.size <= g.width,
        0 <= tile_img_y(g, t),
        tile_img_y(g, t) + g.size <= g.height,
{
    let cols = grid_cols(g);
    let rows = grid_rows(g);
    let s = g.size as int;
    assert(cols >= 0 && rows >= 0) by (nonlinear_arith)
        requires
            cols == g.width as int / s,
            rows == g.height as int / s,
            s > 0,
    ;
    assert(cols > 0 && rows > 0) by (nonlinear_arith)
        requires
            0 <= t < rows * cols,
            cols >= 0,
            rows >= 0,
    ;
    let k = t / cols;
    let c = t % cols;
    assert(0 <= k < rows && 0 <= c < cols) by (nonlinear_arith)
        requires
            0 <= t < rows * cols,
            cols > 0,
            k == t / cols,
            c == t % cols,
    ;
    assert(c * s + s <= g.width) by (nonlinear_arith)
        requires
            0 <= c < cols,
            cols == g.width as int / s,
            s > 0,
    {
        assert(c + 1 <= cols);
        assert((c + 1) * s <= cols * s);
        assert(cols * s <= g.width);
    }
    assert((rows - 1 - k) * s + s <= g.height && (rows - 1 - k) * s >= 0) by (nonlinear_arith)
        requires
            0 <= k < rows,
            rows == g.height as int / s,
            s > 0,
    {
        assert(rows - k <= rows);
        assert((rows - k) * s <= rows * s);
        assert(rows * s <= g.height);
    }
    assert(c * s >= 0) by (nonlinear_arith)
        requires
            c >= 0,
            s > 0,
    ;
}

/// Every tile of a slicing lies inside the image: no footprint exceeds its bounds.
pub proof fn lemma_tiles_within_image(g: TileGrid)
    requires
        g.size > 0,
    ensures
        forall|t: int|
            0 <= t < tile_count(g) ==> {
                &&& (#[trigger] tile_at(g, t)).img_x + g.size <= g.width
                &&& tile_at(g, t).img_y + g.size <= g.height
            },
{
    assert forall|t: int| 0 <= t < tile_count(g) implies {
        &&& (#[trigger] tile_at(g, t)).img_x + g.size <= g.width
        &&& tile_at(g, t).img_y + g.size <= g.height
    } by {
        lemma_tile_position(g, t);
    }
}

/// The grid of a slicing of a `width` x `height` image with lower-left corner `(xmin, ymin)`.
pub open spec fn grid_of(width: u32, height: u32, xmin: i64, ymin: i64, resolution: u32, size: u32) -> TileGrid {
    TileGrid { width, height, size, resolution, xmin, ymin }
}

/// The tiles of two co-registered images of `width` x `height` pixels at `resolution` metres per
/// pixel whose lower-left corner lies at `(xmin, ymin)`: squares of `slice_factor` pixels, rows
/// from the bottom of the image up, columns left to right, only complete tiles. Each tile is
/// named by the lower-left corner's kilometres plus the kilometres of its offset from it.
pub fn slice_images(
    width: u32,
    height: u32,
    xmin: i64,
    ymin: i64,
    resolution: u32,
    slice_factor: u32,
) -> (r: Result<Vec<Tile>, SliceError>)
    ensures
        r is Err <==> slice_factor == 0,
        r is Err ==> r == Err::<Vec<Tile>, SliceError>(SliceError::ZeroSliceFactor),
        r matches Ok(v) ==> {
            let g = grid_of(width, height, xmin, ymin, resolution, slice_factor);
            &&& v@.len() == tile_count(g)
            &&& forall|t: int| 0 <= t < v@.len() ==> v@[t] == #[trigger] tile_at(g, t)
        },
{
    if slice_factor == 0 {
        return Err(SliceError::ZeroSliceFactor);
    }
    let ghost g = grid_of(width, height, xmin, ymin, resolution, slice_factor);
    let cols: u32 = width / slice_factor;
    let rows: u32 = height / slice_factor;
    assert(rows * cols <= u64::MAX) by (nonlinear_arith)
        requires
            rows <= u32::MAX,
            cols <= u32::MAX,
    ;
    let n: u64 = rows as u64 * cols as u64;
    let base_x = to_km(xmin);
    let base_y = to_km(ymin);
    assert(-9223372036854776 <= base_x <= 9223372036854775 && -9223372036854776 <= base_y
        <= 9223372036854775);
    let mut tiles: Vec<Tile> = Vec::new();
    let mut t: u64 = 0;
    while t < n
        invariant
            slice_factor > 0,
            g == grid_of(width, height, xmin, ymin, resolution, slice_factor),
            cols == grid_cols(g),
            rows == grid_rows(g),
            n == tile_count(g),
            base_x == km_floor(xmin as int),
            base_y == km_floor(ymin as int),
            -9223372036854776 <= base_x <= 9223372036854775,
            -9223372036854776 <= base_y <= 9223372036854775,
            t <= n,
            tiles@.len() == t,
            forall|j: int| 0 <= j < t ==> tiles@[j] == #[trigger] tile_at(g, j),
        decreases n - t,
    {
        proof {
            lemma_tile_position(g, t as int);
        }
        let k: u64 = t / cols as u64;
        let c: u64 = t % cols as u64;
        assert(c * slice_factor <= u32::MAX);
        let img_x: u32 = (c * slice_factor as u64) as u32;
        let img_y: u32 = ((rows as u64 - 1 - k) * slice_factor as u64) as u32;
        assert(img_x == tile_img_x(g, t as int));
        assert(img_y == tile_img_y(g, t as int));
        let rest: u32 = height - img_y - slice_factor;
        assert(img_x * resolution <= u64::MAX) by (nonlinear_arith)
            requires
                img_x <= u32::MAX,
                resolution <= u32::MAX,
        ;
        assert(rest * resolution <= u64::MAX) by (nonlinear_arith)
            requires
                rest <= u32::MAX,
                resolution <= u32::MAX,
        ;
        let off_x: u64 = img_x as u64 * resolution as u64;
        let off_y: u64 = rest as u64 * resolution as u64;
        let km_x: u64 = off_x / 1000;
        let km_y: u64 = off_y / 1000;
        assert(km_x <= 18446744073709551) by (nonlinear_arith)
            requires
                km_x == off_x / 1000,
                off_x <= u64::MAX,
        ;
        assert(km_y <= 18446744073709551) by (nonlinear_arith)
            requires
                km_y == off_y / 1000,
                off_y <= u64::MAX,
        ;
        let tile = Tile {
            img_x,
            img_y,
            size: slice_factor,
            coord_x: base_x + km_x as i64,
            coord_y: base_y + km_y as i64,
        };
        assert(tile == tile_at(g, t as int));
        tiles.push(tile);
        t = t + 1;
    }
    Ok(tiles)
}

/// Slicing a square image of two tiles per side yields exactly four tiles, inside the image, at
/// the four grid offsets of the lower-left kilometre coordinate, the bottom row first.
pub proof fn lemma_two_by_two_slicing(xmin: i64, ymin: i64, resolution: u32, size: u32)
    requires
        size > 0,
        2 * size <= u32::MAX,
    ensures
        ({
            let g = grid_of((2 * size) as u32, (2 * size) as u32, xmin, ymin, resolution, size);
            let bx = km_floor(xmin as int);
            let by = km_floor(ymin as int);
            let step = km_floor(size * resolution);
            &&& tile_count(g) == 4
            &&& forall|t: int|
                0 <= t < 4 ==> (#[trigger] tile_at(g, t)).img_x + size <= 2 * size
                    && tile_at(g, t).img_y + size <= 2 * size
            &&& tile_at(g, 0).coord_x == bx && tile_at(g, 0).coord_y == by
            &&& tile_at(g, 1).coord_x == bx + step && tile_at(g, 1).coord_y == by
            &&& tile_at(g, 2).coord_x == bx && tile_at(g, 2).coord_y == by + step
            &&& tile_at(g, 3).coord_x == bx + step && tile_at(g, 3).coord_y == by + step
        }),
{
    let g = grid_of((2 * size) as u32, (2 * size) as u32, xmin, ymin, resolution, size);
    let s = size as int;
    assert((2 * s) / s == 2) by (nonlinear_arith)
        requires
            s > 0,
    ;
    assert(grid_cols(g) == 2 && grid_rows(g) == 2);
    assert(tile_count(g) == 4);
    lemma_tiles_within_image(g);
    assert(0int / 2 == 0 && 0int % 2 == 0 && 1int / 2 == 0 && 1int % 2 == 1 && 2int / 2 == 1
        && 2int % 2 == 0 && 3int / 2 == 1 && 3int % 2 == 1);
    assert(tile_img_x(g, 0) == 0 && tile_img_y(g, 0) == s);
    assert(tile_img_x(g, 1) == s && tile_img_y(g, 1) == s);
    assert(tile_img_x(g, 2) == 0 && tile_img_y(g, 2) == 0);
    assert(tile_img_x(g, 3) == s && tile_img_y(g, 3) == 0);
    assert(km_floor(0) == 0);
    let step = km_floor(s * resolution);
    assert(-9223372036854776 <= km_floor(xmin as int) <= 9223372036854775);
    assert(-9223372036854776 <= km_floor(ymin as int) <= 9223372036854775);
    assert(0 <= step <= 18446744073709551) by (nonlinear_arith)
        requires
            step == (s * resolution) / 1000,
            0 < s <= u32::MAX,
            resolution <= u32::MAX,
    ;
    assert((2 * s - s - s) == 0 && (2 * s - 0 - s) == s);
}

#[verifier::external_type_specification]
#[verifier::external_body]
pub struct ExDynamicImage(image::DynamicImage);

/// The width and height in pixels of an image.
pub uninterp spec fn image_size_of(img: image::DynamicImage) -> (u32, u32);

/// The image cropped to the square of `size` pixels whose upper-left pixel is `(x, y)`.
pub uninterp spec fn crop_of(img: image::DynamicImage, x: u32, y: u32, size: u32) -> image::DynamicImage;

/// Relies on `GenericImageView::dimensions` of image's `DynamicImage`: the width and height of
/// the image in pixels.
#[verifier::external_body]
fn image_dimensions(img: &image::DynamicImage) -> (r: (u32, u32))
    ensures
        r == image_size_of(*img),
{
    image::GenericImageView::dimensions(img)
}

/// Relies on `DynamicImage::crop_imm`: the square of `size` pixels whose upper-left pixel is
/// `(x, y)`; `imageops::crop_imm` clamps the square to the image, so one that lies inside keeps
/// its full size.
#[verifier::external_body]
fn crop_square(img: &image::DynamicImage, x: u32, y: u32, size: u32) -> (r: image::DynamicImage)
    ensures
        r == crop_of(*img, x, y, size),
        x + size <= image_size_of(*img).0 && y + size <= image_size_of(*img).1 ==> image_size_of(r)
            == (size, size),
{
    img.crop_imm(x, y, size, size)
}

/// One tile cut from both images.
pub struct TileImages {
    pub tile: Tile,
    pub thematic: image::DynamicImage,
    pub photo: image::DynamicImage,
}

/// The tiles of an image pair, with the size of the images they were cut from.
pub struct CutImages {
    pub width: u32,
    pub height: u32,
    pub tiles: Vec<TileImages>,
}

/// Cuts two co-registered images, the thematic render and the photograph, into the tiles of
/// `slice_images`: each tile's square is cropped from both, and every crop is a full square of
/// the tile size. Images of different sizes are refused.
pub fn cut_tiles(
    thematic: &image::DynamicImage,
    photo: &image::DynamicImage,
    xmin: i64,
    ymin: i64,
    resolution: u32,
    slice_factor: u32,
) -> (r: Result<CutImages, SliceError>)
    ensures
        r is Ok <==> slice_factor > 0 && image_size_of(*thematic) == image_size_of(*photo),
        slice_factor == 0 ==> (r matches Err(e) && e == SliceError::ZeroSliceFactor),
        slice_factor > 0 && image_size_of(*thematic) != image_size_of(*photo) ==> (r matches Err(
            e,
        ) && e == SliceError::SizeMismatch),
        r matches Ok(c) ==> {
            let g = grid_of(c.width, c.height, xmin, ymin, resolution, slice_factor);
            &&& (c.width, c.height) == image_size_of(*thematic)
            &&& c.tiles@.len() == tile_count(g)
            &&& forall|t: int|
                0 <= t < c.tiles@.len() ==> {
                    let tile = (#[trigger] c.tiles@[t]).tile;
                    &&& tile == tile_at(g, t)
                    &&& c.tiles@[t].thematic == crop_of(*thematic, tile.img_x, tile.img_y, tile.size)
                    &&& c.tiles@[t].photo == crop_of(*photo, tile.img_x, tile.img_y, tile.size)
                    &&& image_size_of(c.tiles@[t].thematic) == (slice_factor, slice_factor)
                    &&& image_size_of(c.tiles@[t].photo) == (slice_factor, slice_factor)
                }
        },
{
    if slice_factor == 0 {
        return Err(SliceError::ZeroSliceFactor);
    }
    let (width, height) = image_dimensions(thematic);
    let (pw, ph) = image_dimensions(photo);
    if pw != width || ph != height {
        return Err(SliceError::SizeMismatch);
    }
    let plan = match slice_images(width, height, xmin, ymin, resolution, slice_factor) {
        Ok(p) => p,
        Err(e) => {
            return Err(e);
        },
    };
    let ghost g = grid_of(width, height, xmin, ymin, resolution, slice_factor);
    let mut tiles: Vec<TileImages> = Vec::new();
    let mut k: usize = 0;
    while k < plan.len()
        invariant
            k <= plan@.len(),
            plan@.len() == tile_count(g),
            forall|t: int| 0 <= t < plan@.len() ==> plan@[t] == #[trigger] tile_at(g, t),
            slice_factor > 0,
            g == grid_of(width, height, xmin, ymin, resolution, slice_factor),
            (width, height) == image_size_of(*thematic),
            (width, height) == image_size_of(*photo),
            tiles@.len() == k,
            forall|t: int|
                0 <= t < k ==> {
                    let tile = (#[trigger] tiles@[t]).tile;
                    &&& tile == tile_at(g, t)
                    &&& tiles@[t].thematic == crop_of(*thematic, tile.img_x, tile.img_y, tile.size)
                    &&& tiles@[t].photo == crop_of(*photo, tile.img_x, tile.img_y, tile.size)
                    &&& image_size_of(tiles@[t].thematic) == (slice_factor, slice_factor)
                    &&& image_size_of(tiles@[t].photo) == (slice_factor, slice_factor)
                },
        decreases plan@.len() - k,
    {
        let t = plan[k];
        proof {
            lemma_tiles_within_image(g);
            assert(tile_at(g, k as int) == t);
        }
        tiles.push(
            TileImages {
                tile: t,
                thematic: crop_square(thematic, t.img_x, t.img_y, t.size),
                photo: crop_square(photo, t.img_x, t.img_y, t.size),
            },
        );
        k = k + 1;
    }
    Ok(CutImages { width, height, tiles })
}

} // verus!
