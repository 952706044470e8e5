//! Pictures of one-byte pixels: what they show, and images held in memory.

use vstd::prelude::*;

verus! {

/// What a picture shows: `height` rows of `width` one-byte pixels, stored row after row.
pub struct Raster {
    pub width: nat,
    pub height: nat,
    pub pixels: Seq<u8>,
}

impl Raster {
    /// Every row is there in full.
    pub open spec fn wf(self) -> bool {
        self.pixels.len() == self.width * self.height
    }

    /// The picture has a column `x` and a row `y`.
    pub open spec fn has(self, x: int, y: int) -> bool {
        0 <= x < self.width && 0 <= y < self.height
    }

    /// The pixel in column `x` of row `y`.
    pub open spec fn pixel(self, x: int, y: int) -> u8 {
        self.pixels[y * self.width + x]
    }

    pub open spec fn same_size(self, other: Raster) -> bool {
        self.width == other.width && self.height == other.height
    }

    /// The picture that shows `level(x, y)` in column `x` of row `y`.
    pub open spec fn tabulate(width: nat, height: nat, level: spec_fn(int, int) -> u8) -> Raster {
        Raster {
            width,
            height,
            pixels: Seq::new(
                width * height,
                |i: int| level(i % (width as int), i / (width as int)),
            ),
        }
    }
}

/// What a tabulated picture shows.
pub proof fn lemma_tabulate(width: nat, height: nat, level: spec_fn(int, int) -> u8)
    ensures
        Raster::tabulate(width, height, level).wf(),
        forall|x: int, y: int|
            0 <= x < width && 0 <= y < height ==> #[trigger] Raster::tabulate(
                width,
                height,
                level,
            ).pixel(x, y) == level(x, y),
{
    let picture = Raster::tabulate(width, height, level);
    assert forall|x: int, y: int|
        0 <= x < width && 0 <= y < height implies #[trigger] picture.pixel(x, y) == level(x, y) by {
        lemma_index_in_range(width as int, height as int, x, y);
        vstd::arithmetic::div_mod::lemma_fundamental_div_mod_converse(
            y * width + x,
            width as int,
            y,
            x,
        );
    }
}

/// The place of a pixel in the row-after-row order lies inside the picture.
pub proof fn lemma_index_in_range(width: int, height: int, x: int, y: int)
    requires
        0 <= x < width,
        0 <= y < height,
    ensures
        0 <= y * width <= y * width + x < width * height,
{
    assert(0 <= y * width) by (nonlinear_arith)
        requires
            0 <= y,
            0 <= width,
    ;
    assert(y * width + width <= height * width) by (nonlinear_arith)
        requires
            0 <= y < height,
            0 <= width,
    ;
    assert(height * width == width * height) by (nonlinear_arith);
}

/// Two pixels of a picture have the same place only if they are the same pixel.
pub proof fn lemma_index_injective(width: int, x1: int, y1: int, x2: int, y2: int)
    requires
        0 <= x1 < width,
        0 <= x2 < width,
        y1 * width + x1 == y2 * width + x2,
    ensures
        x1 == x2,
        y1 == y2,
{
    if y1 < y2 {
        assert(y1 * width + width <= y2 * width) by (nonlinear_arith)
            requires
                y1 < y2,
                0 < width,
        ;
    } else if y2 < y1 {
        assert(y2 * width + width <= y1 * width) by (nonlinear_arith)
            requires
                y2 < y1,
                0 < width,
        ;
    }
}

/// Every place in the row-after-row order is the place of some pixel.
pub proof fn lemma_index_onto(width: int, height: int, index: int)
    requires
        0 <= width,
        0 <= height,
        0 <= index < width * height,
    ensures
        0 < width,
        0 <= index % width < width,
        0 <= index / width < height,
        index == (index / width) * width + index % width,
{
    assert(width != 0) by {
        if width == 0 {
            assert(width * height == 0) by (nonlinear_arith)
                requires
                    width == 0,
            ;
        }
    }
    vstd::arithmetic::div_mod::lemma_fundamental_div_mod(index, width);
    vstd::arithmetic::mul::lemma_mul_is_commutative(width, index / width);
    vstd::arithmetic::div_mod::lemma_mod_bound(index, width);
    assert(0 <= index / width < height) by (nonlinear_arith)
        requires
            0 < width,
            0 <= index < width * height,
    ;
}

/// Two pictures of one size that agree on every pixel are the same picture.
pub proof fn lemma_same_pixels_same_raster(a: Raster, b: Raster)
    requires
        a.wf(),
        b.wf(),
        a.same_size(b),
        forall|x: int, y: int| a.has(x, y) ==> #[trigger] a.pixel(x, y) == b.pixel(x, y),
    ensures
        a == b,
{
    assert forall|i: int| 0 <= i < a.pixels.len() implies a.pixels[i] == b.pixels[i] by {
        lemma_index_onto(a.width as int, a.height as int, i);
        let x = i % (a.width as int);
        let y = i / (a.width as int);
        assert(a.has(x, y));
        assert(a.pixel(x, y) == b.pixel(x, y));
    }
    assert(a.pixels =~= b.pixels);
}

/// Storing a value at the place of one pixel changes that pixel and no other.
proof fn lemma_update_pixel(before: Raster, x: int, y: int, value: u8)
    requires
        before.wf(),
        before.has(x, y),
    ensures
        ({
            let after = Raster {
                pixels: before.pixels.update(y * before.width + x, value),
                ..before
            };
            &&& after.wf()
            &&& forall|px: int, py: int|
                before.has(px, py) ==> #[trigger] after.pixel(px, py) == if px == x && py == y {
                    value
                } else {
                    before.pixel(px, py)
                }
        }),
{
    let width = before.width as int;
    let height = before.height as int;
    let after = Raster { pixels: before.pixels.update(y * before.width + x, value), ..before };
    lemma_index_in_range(width, height, x, y);
    assert forall|px: int, py: int| before.has(px, py) implies #[trigger] after.pixel(px, py) == (if px
        == x && py == y {
        value
    } else {
        before.pixel(px, py)
    }) by {
        lemma_index_in_range(width, height, px, py);
        if px != x || py != y {
            if py * width + px == y * width + x {
                lemma_index_injective(width, px, py, x, y);
            }
        }
    }
}

/// A greyscale image in memory.
pub struct GrayImage {
    width: u32,
    height: u32,
    pixels: Vec<u8>,
}

impl View for GrayImage {
    type V = Raster;

    closed spec fn view(&self) -> Raster {
        Raster { width: self.width as nat, height: self.height as nat, pixels: self.pixels@ }
    }
}

impl Clone for GrayImage {
    fn clone(&self) -> (copy: Self)
        ensures
            copy@ == self@,
            copy@.wf(),
    {
        proof {
            use_type_invariant(self);
        }
        let pixels = self.pixels.clone();
        assert(pixels@ =~= self.pixels@);
        GrayImage { width: self.width, height: self.height, pixels }
    }
}

impl GrayImage {
    #[verifier::type_invariant]
    spec fn inv(self) -> bool {
        self@.wf()
    }

    /// An image whose pixels all have one value.
    pub fn from_pixel(width: u32, height: u32, value: u8) -> (image: Self)
        requires
            width * height <= isize::MAX,
        ensures
            image@.wf(),
            image@.width == width,
            image@.height == height,
            forall|x: int, y: int| image@.has(x, y) ==> #[trigger] image@.pixel(x, y) == value,
    {
        let count: usize = width as usize * height as usize;
        let pixels: Vec<u8> = vec![value; count];
        let image = GrayImage { width, height, pixels };
        proof {
            assert forall|x: int, y: int| image@.has(x, y) implies #[trigger] image@.pixel(x, y)
                == value by {
                lemma_index_in_range(width as int, height as int, x, y);
            }
        }
        image
    }

    /// An image over pixels stored row after row; `None` unless there are exactly
    /// `width * height` of them.
    pub fn from_raw(width: u32, height: u32, pixels: Vec<u8>) -> (image: Option<Self>)
        ensures
            image is Some <==> pixels@.len() == width * height,
            image matches Some(image) ==> image@ == (Raster {
                width: width as nat,
                height: height as nat,
                pixels: pixels@,
            }),
    {
        assert(width * height <= u64::MAX) by (nonlinear_arith)
            requires
                0 <= width <= u32::MAX,
                0 <= height <= u32::MAX,
        ;
        let count: u64 = width as u64 * height as u64;
        if pixels.len() as u64 == count {
            Some(GrayImage { width, height, pixels })
        } else {
            None
        }
    }

    pub fn width(&self) -> (width: u32)
        ensures
            width == self@.width,
            self@.wf(),
    {
        proof {
            use_type_invariant(self);
        }
        self.width
    }

    pub fn height(&self) -> (height: u32)
        ensures
            height == self@.height,
            self@.wf(),
    {
        proof {
            use_type_invariant(self);
        }
        self.height
    }

    /// The pixels, row after row.
    pub fn as_raw(&self) -> (pixels: &Vec<u8>)
        ensures
            pixels@ == self@.pixels,
            self@.wf(),
    {
        proof {
            use_type_invariant(self);
        }
        &self.pixels
    }

    pub fn get_pixel(&self, x: u32, y: u32) -> (value: u8)
        requires
            self@.has(x as int, y as int),
        ensures
            value == self@.pixel(x as int, y as int),
    {
        proof {
            use_type_invariant(self);
            lemma_index_in_range(self.width as int, self.height as int, x as int, y as int);
        }
        assert(self.pixels.len() <= usize::MAX);
        self.pixels[y as usize * self.width as usize + x as usize]
    }

    pub fn put_pixel(&mut self, x: u32, y: u32, value: u8)
        requires
            old(self)@.has(x as int, y as int),
        ensures
            final(self)@.wf(),
            final(self)@.same_size(old(self)@),
            forall|px: int, py: int|
                old(self)@.has(px, py) ==> #[trigger] final(self)@.pixel(px, py) == if px == x
                    && py == y {
                    value
                } else {
                    old(self)@.pixel(px, py)
                },
    {
        proof {
            use_type_invariant(&*self);
            lemma_index_in_range(self.width as int, self.height as int, x as int, y as int);
            lemma_update_pixel(self@, x as int, y as int, value);
        }
        assert(self.pixels.len() <= usize::MAX);
        let index: usize = y as usize * self.width as usize + x as usize;
        self.pixels[index] = value;
    }
}

/// The pixels of a picture are stored row after row: the first row comes first, and without it
/// the rest is the same picture from its second row on.
pub proof fn law_rows_follow_each_other(picture: Raster, x: int, y: int)
    requires
        picture.wf(),
        0 <= x < picture.width,
        0 <= y < picture.height,
    ensures
        picture.has(x, y),
        y == 0 ==> picture.pixel(x, y) == picture.pixels[x],
        y > 0 ==> ({
            let rest = Raster {
                height: (picture.height - 1) as nat,
                pixels: picture.pixels.skip(picture.width as int),
                ..picture
            };
            rest.wf() && picture.pixel(x, y) == rest.pixel(x, y - 1)
        }),
{
    let width = picture.width as int;
    let height = picture.height as int;
    lemma_index_in_range(width, height, x, y);
    if y > 0 {
        assert((y - 1) * width + width == y * width) by (nonlinear_arith);
        assert((height - 1) * width == width * height - width) by (nonlinear_arith);
        assert(width * (height - 1) == (height - 1) * width) by (nonlinear_arith);
        lemma_index_in_range(width, height - 1, x, y - 1);
    }
}

} // verus!
