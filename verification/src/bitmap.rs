//! Pixels and bitmaps, and the per-frame operations on them.

use image::imageops::{flip_horizontal_in_place, flip_vertical_in_place, resize, FilterType};
use image::{ImageBuffer, Rgba};
use vstd::prelude::*;

verus! {

/// One pixel: red, green, blue and alpha, eight bits each.
#[derive(Clone, Copy, Debug, PartialEq, Eq, Structural)]
pub struct Pixel {
    pub r: u8,
    pub g: u8,
    pub b: u8,
    pub a: u8,
}

impl Pixel {
    /// The pixel with its three colour channels complemented and its alpha kept.
    pub open spec fn inverted(self) -> Pixel {
        Pixel { r: (255 - self.r) as u8, g: (255 - self.g) as u8, b: (255 - self.b) as u8, a: self.a }
    }

    /// Builds a pixel from its channels in the order red, green, blue, alpha.
    pub fn from_channels(channels: [u8; 4]) -> (pixel: Pixel)
        ensures
            pixel == (Pixel { r: channels[0], g: channels[1], b: channels[2], a: channels[3] }),
    {
        Pixel { r: channels[0], g: channels[1], b: channels[2], a: channels[3] }
    }

    /// The channels in the order red, green, blue, alpha.
    pub fn channels(&self) -> (channels: [u8; 4])
        ensures
            channels@ == seq![self.r, self.g, self.b, self.a],
    {
        let channels: [u8; 4] = [self.r, self.g, self.b, self.a];
        assert(channels@ =~= seq![self.r, self.g, self.b, self.a]);
        channels
    }

    /// Complements the colour channels; alpha is untouched.
    pub fn invert(&self) -> (pixel: Pixel)
        ensures
            pixel == self.inverted(),
    {
        Pixel { r: u8::MAX - self.r, g: u8::MAX - self.g, b: u8::MAX - self.b, a: self.a }
    }

    /// Whether the pixel is fully transparent.
    pub fn is_clear(&self) -> (clear: bool)
        ensures
            clear == (self.a == 0),
    {
        self.a == 0
    }
}

/// A rectangular grid of pixels, stored row by row from the top.
#[derive(Clone, Debug, PartialEq, Eq)]
pub struct Bitmap {
    pub width: u32,
    pub height: u32,
    pub rows: Vec<Vec<Pixel>>,
}

/// The rows as sequences of pixels.
pub open spec fn grid_of(rows: Seq<Vec<Pixel>>) -> Seq<Seq<Pixel>> {
    Seq::new(rows.len(), |y: int| rows[y]@)
}

/// What `image::imageops::resize` with the nearest-neighbour filter makes of a
/// grid of the given width, for the given target width and height.
pub uninterp spec fn nearest_resized(grid: Seq<Seq<Pixel>>, from_width: u32, width: u32, height: u32) -> Seq<Seq<Pixel>>;

/// The grid with the colour channels of every pixel complemented.
pub open spec fn inverted_grid(grid: Seq<Seq<Pixel>>) -> Seq<Seq<Pixel>> {
    Seq::new(grid.len(), |y: int| Seq::new(grid[y].len(), |x: int| grid[y][x].inverted()))
}

/// The grid with every row mirrored left to right.
pub open spec fn mirrored_grid(grid: Seq<Seq<Pixel>>) -> Seq<Seq<Pixel>> {
    Seq::new(grid.len(), |y: int| Seq::new(grid[y].len(), |x: int| grid[y][grid[y].len() - 1 - x]))
}

/// The grid with its rows in reverse order.
pub open spec fn reversed_grid(grid: Seq<Seq<Pixel>>) -> Seq<Seq<Pixel>> {
    Seq::new(grid.len(), |y: int| grid[grid.len() - 1 - y])
}

/// Whether a buffer of `width * height` pixels fits a vector, at four
/// channels of four bytes each, the most that resampling takes: its size in
/// bytes stays within half the address space.
pub open spec fn fits_memory(width: u32, height: u32) -> bool {
    32 * (width as int) * (height as int) <= usize::MAX as int
}

/// Whether a buffer of `width * height` pixels fits a vector.
pub fn fits(width: u32, height: u32) -> (fits: bool)
    ensures
        fits == fits_memory(width, height),
{
    assert(32 * (width as int) * (height as int) <= 32 * 0xffff_ffff * 0xffff_ffff) by (nonlinear_arith)
        requires
            0 <= width <= 0xffff_ffff,
            0 <= height <= 0xffff_ffff,
    ;
    let cells: u128 = 32 * (width as u128) * (height as u128);
    cells <= usize::MAX as u128
}

/// What a frame becomes: resampled by nearest neighbour to `width` by
/// `height`, then its colours complemented, its rows mirrored and their
/// order reversed, each where asked, in this order.
pub open spec fn transformed_grid(
    grid: Seq<Seq<Pixel>>,
    from_width: u32,
    width: u32,
    height: u32,
    invert: bool,
    flip_h: bool,
    flip_v: bool,
) -> Seq<Seq<Pixel>> {
    let resized = nearest_resized(grid, from_width, width, height);
    let recoloured = if invert {
        inverted_grid(resized)
    } else {
        resized
    };
    let mirrored = if flip_h {
        mirrored_grid(recoloured)
    } else {
        recoloured
    };
    if flip_v {
        reversed_grid(mirrored)
    } else {
        mirrored
    }
}

impl Bitmap {
    /// The bitmap holds `height` rows of `width` pixels each.
    pub open spec fn wf(&self) -> bool {
        &&& self.rows.len() == self.height as int
        &&& forall|y: int| 0 <= y < self.rows.len() ==> (#[trigger] self.rows[y]).len() == self.width as int
    }

    /// The pixels as a sequence of rows.
    pub open spec fn grid(&self) -> Seq<Seq<Pixel>> {
        grid_of(self.rows@)
    }

    /// The pixel in column `x` of row `y`.
    pub open spec fn pixel(&self, x: int, y: int) -> Pixel {
        self.rows[y][x]
    }

    /// Whether `other` has the same dimensions and the same pixels.
    pub open spec fn same_as(&self, other: &Bitmap) -> bool {
        &&& self.width == other.width
        &&& self.height == other.height
        &&& forall|x: int, y: int|
            0 <= x < self.width && 0 <= y < self.height ==> #[trigger] self.pixel(x, y) == other.pixel(x, y)
    }

    /// A bitmap of the given size, every pixel equal to `fill`.
    pub fn new(width: u32, height: u32, fill: Pixel) -> (bitmap: Bitmap)
        ensures
            bitmap.wf(),
            bitmap.width == width,
            bitmap.height == height,
            forall|x: int, y: int| 0 <= x < width && 0 <= y < height ==> #[trigger] bitmap.pixel(x, y) == fill,
    {
        let mut rows: Vec<Vec<Pixel>> = Vec::new();
        let mut y: u32 = 0;
        while y < height
            invariant
                y <= height,
                rows.len() == y as int,
                forall|j: int| 0 <= j < rows.len() ==> (#[trigger] rows[j]).len() == width as int,
                forall|i: int, j: int| 0 <= i < width && 0 <= j < y ==> #[trigger] rows[j][i] == fill,
            decreases height - y,
        {
            let mut row: Vec<Pixel> = Vec::new();
            let mut x: u32 = 0;
            while x < width
                invariant
                    x <= width,
                    row.len() == x as int,
                    forall|i: int| 0 <= i < x ==> #[trigger] row[i] == fill,
                decreases width - x,
            {
                row.push(fill);
                x = x + 1;
            }
            rows.push(row);
            y = y + 1;
        }
        Bitmap { width, height, rows }
    }

    /// The pixel in column `x` of row `y`.
    pub fn get_pixel(&self, x: u32, y: u32) -> (pixel: Pixel)
        requires
            self.wf(),
            x < self.width,
            y < self.height,
        ensures
            pixel == self.pixel(x as int, y as int),
    {
        self.rows[y as usize][x as usize]
    }

    /// Replaces the pixel in column `x` of row `y`.
    pub fn put_pixel(&mut self, x: u32, y: u32, pixel: Pixel)
        requires
            old(self).wf(),
            x < old(self).width,
            y < old(self).height,
        ensures
            final(self).wf(),
            final(self).width == old(self).width,
            final(self).height == old(self).height,
            final(self).pixel(x as int, y as int) == pixel,
            forall|i: int, j: int|
                0 <= i < old(self).width && 0 <= j < old(self).height && (i != x || j != y)
                    ==> #[trigger] final(self).pixel(i, j) == old(self).pixel(i, j),
    {
        let mut row: Vec<Pixel> = Vec::new();
        std::mem::swap(&mut row, &mut self.rows[y as usize]);
        row.set(x as usize, pixel);
        self.rows.set(y as usize, row);
    }
}

/// Calls `image::imageops::resize` with `FilterType::Nearest` on a copy of the
/// bitmap. The result has the requested dimensions; its pixels are named by
/// `nearest_resized`, of which nothing more is claimed. The size bounds keep
/// the crate's buffers within a vector: the copy, the result, and the
/// intermediate one of the source's width and the target's height.
#[verifier::external_body]
fn resize_nearest(bitmap: &Bitmap, width: u32, height: u32) -> (resized: Bitmap)
    requires
        bitmap.wf(),
        fits_memory(bitmap.width, bitmap.height),
        fits_memory(bitmap.width, height),
        fits_memory(width, height),
    ensures
        resized.wf(),
        resized.width == width,
        resized.height == height,
        resized.grid() == nearest_resized(bitmap.grid(), bitmap.width, width, height),
{
    let source = ImageBuffer::from_fn(bitmap.width, bitmap.height, |x, y| {
        Rgba(bitmap.rows[y as usize][x as usize].channels())
    });
    let target = resize(&source, width, height, FilterType::Nearest);
    let rows = (0..height)
        .map(|y| (0..width).map(|x| Pixel::from_channels(target.get_pixel(x, y).0)).collect())
        .collect();
    Bitmap { width, height, rows }
}

/// Calls `image::imageops::flip_horizontal_in_place` on a copy of the bitmap:
/// every row comes back mirrored, the dimensions are kept.
#[verifier::external_body]
fn mirror_columns(bitmap: &Bitmap) -> (flipped: Bitmap)
    requires
        bitmap.wf(),
        fits_memory(bitmap.width, bitmap.height),
    ensures
        flipped.wf(),
        flipped.width == bitmap.width,
        flipped.height == bitmap.height,
        forall|x: int, y: int|
            0 <= x < bitmap.width && 0 <= y < bitmap.height ==> #[trigger] flipped.pixel(x, y)
                == bitmap.pixel(bitmap.width - 1 - x, y),
{
    let mut buffer = ImageBuffer::from_fn(bitmap.width, bitmap.height, |x, y| {
        Rgba(bitmap.rows[y as usize][x as usize].channels())
    });
    flip_horizontal_in_place(&mut buffer);
    let rows = (0..bitmap.height)
        .map(|y| (0..bitmap.width).map(|x| Pixel::from_channels(buffer.get_pixel(x, y).0)).collect())
        .collect();
    Bitmap { width: bitmap.width, height: bitmap.height, rows }
}

/// Calls `image::imageops::flip_vertical_in_place` on a copy of the bitmap:
/// the rows come back in reverse order, the dimensions are kept.
#[verifier::external_body]
fn mirror_rows(bitmap: &Bitmap) -> (flipped: Bitmap)
    requires
        bitmap.wf(),
        fits_memory(bitmap.width, bitmap.height),
    ensures
        flipped.wf(),
        flipped.width == bitmap.width,
        flipped.height == bitmap.height,
        forall|x: int, y: int|
            0 <= x < bitmap.width && 0 <= y < bitmap.height ==> #[trigger] flipped.pixel(x, y)
                == bitmap.pixel(x, bitmap.height - 1 - y),
{
    let mut buffer = ImageBuffer::from_fn(bitmap.width, bitmap.height, |x, y| {
        Rgba(bitmap.rows[y as usize][x as usize].channels())
    });
    flip_vertical_in_place(&mut buffer);
    let rows = (0..bitmap.height)
        .map(|y| (0..bitmap.width).map(|x| Pixel::from_channels(buffer.get_pixel(x, y).0)).collect())
        .collect();
    Bitmap { width: bitmap.width, height: bitmap.height, rows }
}

impl Bitmap {
    /// Whether `self` is `source` with every pixel's colour channels complemented.
    pub open spec fn is_inverse_of(&self, source: &Bitmap) -> bool {
        &&& self.width == source.width
        &&& self.height == source.height
        &&& forall|x: int, y: int|
            0 <= x < self.width && 0 <= y < self.height ==> #[trigger] self.pixel(x, y) == source.pixel(
                x,
                y,
            ).inverted()
    }

    /// Whether `self` is `source` with every row mirrored left to right.
    pub open spec fn is_horizontal_flip_of(&self, source: &Bitmap) -> bool {
        &&& self.width == source.width
        &&& self.height == source.height
        &&& forall|x: int, y: int|
            0 <= x < self.width && 0 <= y < self.height ==> #[trigger] self.pixel(x, y) == source.pixel(
                self.width - 1 - x,
                y,
            )
    }

    /// Whether `self` is `source` with its rows in reverse order.
    pub open spec fn is_vertical_flip_of(&self, source: &Bitmap) -> bool {
        &&& self.width == source.width
        &&& self.height == source.height
        &&& forall|x: int, y: int|
            0 <= x < self.width && 0 <= y < self.height ==> #[trigger] self.pixel(x, y) == source.pixel(
                x,
                self.height - 1 - y,
            )
    }

    /// Whether `self` is `source` resampled to `width` by `height` by nearest neighbour.
    pub open spec fn is_resize_of(&self, source: &Bitmap, width: u32, height: u32) -> bool {
        &&& self.width == width
        &&& self.height == height
        &&& self.grid() == nearest_resized(source.grid(), source.width, width, height)
    }

    /// Resamples the bitmap to `width` by `height` pixels by nearest neighbour.
    pub fn resized(&self, width: u32, height: u32) -> (resized: Bitmap)
        requires
            self.wf(),
            fits_memory(self.width, self.height),
            fits_memory(self.width, height),
            fits_memory(width, height),
        ensures
            resized.wf(),
            resized.is_resize_of(self, width, height),
    {
        resize_nearest(self, width, height)
    }

    /// Whether the bitmap, and what resampling it to `width` by `height`
    /// allocates, fit a vector.
    pub open spec fn can_resize(&self, width: u32, height: u32) -> bool {
        &&& fits_memory(self.width, self.height)
        &&& fits_memory(self.width, height)
        &&& fits_memory(width, height)
    }

    /// Whether the bitmap, and what resampling it to `width` by `height`
    /// allocates, fit a vector.
    pub fn resizable(&self, width: u32, height: u32) -> (fits: bool)
        ensures
            fits == self.can_resize(width, height),
    {
        fits(self.width, self.height) && fits(self.width, height) && fits(width, height)
    }

    /// Resamples the bitmap to `width` by `height`, then complements its
    /// colours, mirrors its rows and reverses their order, each where asked.
    pub fn transformed(&self, width: u32, height: u32, invert: bool, flip_h: bool, flip_v: bool) -> (made: Bitmap)
        requires
            self.wf(),
            self.can_resize(width, height),
        ensures
            made.wf(),
            made.width == width,
            made.height == height,
            made.grid() == transformed_grid(self.grid(), self.width, width, height, invert, flip_h, flip_v),
    {
        let mut made = self.resized(width, height);
        if invert {
            made.invert();
        }
        if flip_h {
            made.flip_horizontal();
        }
        if flip_v {
            made.flip_vertical();
        }
        made
    }

    /// Complements the colour channels of every pixel; alpha is untouched.
    pub fn invert(&mut self)
        requires
            old(self).wf(),
        ensures
            final(self).wf(),
            final(self).is_inverse_of(old(self)),
            final(self).grid() == inverted_grid(old(self).grid()),
    {
        let ghost before = *self;
        let mut rows: Vec<Vec<Pixel>> = Vec::new();
        let mut y: usize = 0;
        while y < self.rows.len()
            invariant
                *self == before,
                self.wf(),
                y <= self.rows.len(),
                rows.len() == y,
                forall|j: int| 0 <= j < y ==> (#[trigger] rows[j]).len() == self.width as int,
                forall|i: int, j: int|
                    0 <= i < self.width && 0 <= j < y ==> #[trigger] rows[j][i] == self.rows[j][i].inverted(),
            decreases self.rows.len() - y,
        {
            let mut row: Vec<Pixel> = Vec::new();
            let mut x: usize = 0;
            while x < self.rows[y].len()
                invariant
                    *self == before,
                    self.wf(),
                    y < self.rows.len(),
                    x <= self.rows[y as int].len(),
                    row.len() == x,
                    forall|i: int| 0 <= i < x ==> #[trigger] row[i] == self.rows[y as int][i].inverted(),
                decreases self.rows[y as int].len() - x,
            {
                row.push(self.rows[y][x].invert());
                x = x + 1;
            }
            rows.push(row);
            y = y + 1;
        }
        self.rows = rows;
        proof {
            let made = self.grid();
            let wanted = inverted_grid(before.grid());
            assert(made.len() == wanted.len());
            assert forall|j: int| 0 <= j < made.len() implies made[j] =~= wanted[j] by {
                assert(self.rows[j].len() == before.rows[j].len());
            }
            assert(made =~= wanted);
        }
    }

    /// Mirrors every row left to right.
    pub fn flip_horizontal(&mut self)
        requires
            old(self).wf(),
            fits_memory(old(self).width, old(self).height),
        ensures
            final(self).wf(),
            final(self).is_horizontal_flip_of(old(self)),
            final(self).grid() == mirrored_grid(old(self).grid()),
    {
        let flipped = mirror_columns(self);
        proof {
            let made = flipped.grid();
            let wanted = mirrored_grid(self.grid());
            assert(made.len() == wanted.len());
            assert forall|j: int| 0 <= j < made.len() implies made[j] =~= wanted[j] by {
                assert(flipped.rows[j].len() == self.rows[j].len());
                assert forall|i: int| 0 <= i < made[j].len() implies made[j][i] == wanted[j][i] by {
                    assert(flipped.pixel(i, j) == self.pixel(self.width - 1 - i, j));
                }
            }
            assert(made =~= wanted);
        }
        *self = flipped;
    }

    /// Reverses the order of the rows.
    pub fn flip_vertical(&mut self)
        requires
            old(self).wf(),
            fits_memory(old(self).width, old(self).height),
        ensures
            final(self).wf(),
            final(self).is_vertical_flip_of(old(self)),
            final(self).grid() == reversed_grid(old(self).grid()),
    {
        let flipped = mirror_rows(self);
        proof {
            let made = flipped.grid();
            let wanted = reversed_grid(self.grid());
            assert(made.len() == wanted.len());
            assert forall|j: int| 0 <= j < made.len() implies made[j] =~= wanted[j] by {
                assert(flipped.rows[j].len() == self.rows[self.height - 1 - j].len());
                assert forall|i: int| 0 <= i < made[j].len() implies made[j][i] == wanted[j][i] by {
                    assert(flipped.pixel(i, j) == self.pixel(i, self.height - 1 - j));
                }
            }
            assert(made =~= wanted);
        }
        *self = flipped;
    }
}

/// Inverting twice gives back every pixel, alpha included, and a single
/// inversion never changes alpha.
pub proof fn invert_is_self_inverse(first: &Bitmap, once: &Bitmap, twice: &Bitmap)
    requires
        first.wf(),
        once.is_inverse_of(first),
        twice.is_inverse_of(once),
    ensures
        twice.same_as(first),
        forall|x: int, y: int|
            0 <= x < first.width && 0 <= y < first.height ==> (#[trigger] once.pixel(x, y)).a
                == first.pixel(x, y).a,
        forall|p: Pixel| #[trigger] p.inverted().inverted() == p,
        forall|p: Pixel| #[trigger] p.inverted().a == p.a,
{
    assert forall|x: int, y: int| 0 <= x < twice.width && 0 <= y < twice.height implies #[trigger] twice.pixel(x, y)
        == first.pixel(x, y) by {
        assert(twice.pixel(x, y) == once.pixel(x, y).inverted());
        assert(once.pixel(x, y) == first.pixel(x, y).inverted());
    }
}

/// Flipping horizontally twice restores the first arrangement of pixels.
pub proof fn horizontal_flip_twice_restores(first: &Bitmap, once: &Bitmap, twice: &Bitmap)
    requires
        first.wf(),
        once.is_horizontal_flip_of(first),
        twice.is_horizontal_flip_of(once),
    ensures
        twice.same_as(first),
{
    assert forall|x: int, y: int| 0 <= x < twice.width && 0 <= y < twice.height implies #[trigger] twice.pixel(x, y)
        == first.pixel(x, y) by {
        let mirrored = twice.width - 1 - x;
        assert(twice.pixel(x, y) == once.pixel(mirrored, y));
        assert(once.pixel(mirrored, y) == first.pixel(once.width - 1 - mirrored, y));
    }
}

/// Flipping vertically twice restores the first arrangement of pixels.
pub proof fn vertical_flip_twice_restores(first: &Bitmap, once: &Bitmap, twice: &Bitmap)
    requires
        first.wf(),
        once.is_vertical_flip_of(first),
        twice.is_vertical_flip_of(once),
    ensures
        twice.same_as(first),
{
    assert forall|x: int, y: int| 0 <= x < twice.width && 0 <= y < twice.height implies #[trigger] twice.pixel(x, y)
        == first.pixel(x, y) by {
        let mirrored = twice.height - 1 - y;
        assert(twice.pixel(x, y) == once.pixel(x, mirrored));
        assert(once.pixel(x, mirrored) == first.pixel(x, once.height - 1 - mirrored));
    }
}

} // verus!
