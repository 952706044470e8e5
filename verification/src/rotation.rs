//! Where a pixel lands on the panel when the screen is rotated.

use vstd::prelude::*;

use crate::framebuffer::Framebuffer;

verus! {

/// A rectangle of pixels.
#[derive(Clone, Copy)]
pub struct Region {
    pub x: usize,
    pub y: usize,
    pub width: usize,
    pub height: usize,
}

impl Region {
    pub open spec fn contains(self, x: int, y: int) -> bool {
        self.x <= x < self.x + self.width && self.y <= y < self.y + self.height
    }

    /// The rectangle lies inside a picture of the given size.
    pub open spec fn within(self, width: int, height: int) -> bool {
        self.x + self.width <= width && self.y + self.height <= height
    }
}

/// Whether a rotation swaps width and height.
pub open spec fn turns_sideways(rotation: u32) -> bool {
    rotation == 90 || rotation == 270
}

/// Size of the picture that is drawn for a panel of `width` by `height`.
pub open spec fn drawn_size(rotation: u32, width: int, height: int) -> (int, int) {
    if turns_sideways(rotation) {
        (height, width)
    } else {
        (width, height)
    }
}

/// The pixel of the drawn picture that shows at column `x` of row `y` of a panel of `width` by
/// `height`. A rotation other than a quarter, half or three-quarter turn is none at all.
pub open spec fn source(rotation: u32, width: int, height: int, x: int, y: int) -> (int, int) {
    if rotation == 90 {
        (y, width - 1 - x)
    } else if rotation == 180 {
        (width - 1 - x, height - 1 - y)
    } else if rotation == 270 {
        (height - 1 - y, x)
    } else {
        (x, y)
    }
}

/// The place on the panel where the pixel in column `sx` of row `sy` of the drawn picture shows.
pub open spec fn target(rotation: u32, width: int, height: int, sx: int, sy: int) -> (int, int) {
    if rotation == 90 {
        (width - 1 - sy, sx)
    } else if rotation == 180 {
        (width - 1 - sx, height - 1 - sy)
    } else if rotation == 270 {
        (sy, height - 1 - sx)
    } else {
        (sx, sy)
    }
}

/// Rotation loses nothing and leaves no gap: each pixel of the panel shows exactly one pixel of
/// the drawn picture, and each pixel of the drawn picture shows at exactly one place.
pub proof fn law_rotation_is_one_to_one(rotation: u32, width: int, height: int, x: int, y: int)
    ensures
        ({
            let (sx, sy) = source(rotation, width, height, x, y);
            let (dw, dh) = drawn_size(rotation, width, height);
            &&& target(rotation, width, height, sx, sy) == (x, y)
            &&& (0 <= x < width && 0 <= y < height) <==> (0 <= sx < dw && 0 <= sy < dh)
        }),
        ({
            let (tx, ty) = target(rotation, width, height, x, y);
            source(rotation, width, height, tx, ty) == (x, y)
        }),
{
}

/// Half a turn more shows the same picture upside down, so on a panel that is itself mounted
/// upside down it puts the picture right.
pub proof fn law_half_turn_compensates(rotation: u32, width: int, height: int, x: int, y: int)
    requires
        rotation == 0 || rotation == 90 || rotation == 180 || rotation == 270,
    ensures
        source(((rotation + 180) % 360) as u32, width, height, width - 1 - x, height - 1 - y)
            == source(rotation, width, height, x, y),
        drawn_size(((rotation + 180) % 360) as u32, width, height) == drawn_size(
            rotation,
            width,
            height,
        ),
{
}

/// Column of the drawn picture that shows at a place of the panel when `len` pixels from column
/// `x0` on are written. Half a turn starts a run that is too wide for its place at the panel's
/// edge instead of outside of it.
pub open spec fn run_source_x(
    rotation: u32,
    width: int,
    height: int,
    x0: int,
    len: int,
    x: int,
    y: int,
) -> int {
    if rotation == 180 && x0 + len > width {
        x0 + len - 1 - x
    } else {
        source(rotation, width, height, x, y).0
    }
}

/// A run of `len` pixels from column `x0` of row `row` on stays on a panel of `width` by
/// `height`.
pub open spec fn run_fits(
    rotation: u32,
    width: int,
    height: int,
    row: int,
    x0: int,
    len: int,
) -> bool {
    if rotation == 90 {
        row < width && (len == 0 || x0 + len <= height)
    } else if rotation == 180 {
        row < height && len <= width
    } else if rotation == 270 {
        len == 0 || (row < width && x0 + len <= height)
    } else {
        row < height && x0 + len <= width
    }
}

/// Write a partial row (the columns from `x0` on) of the drawn picture to the panel.
/// `pixels` holds only that part, not the full row.
pub fn write_row_rotated_range(
    fb: &mut Framebuffer,
    row: usize,
    x0: usize,
    pixels: &[u8],
    rotation: u32,
)
    requires
        x0 + pixels@.len() <= usize::MAX,
        run_fits(
            rotation,
            old(fb)@.width as int,
            old(fb)@.height as int,
            row as int,
            x0 as int,
            pixels@.len() as int,
        ),
    ensures
        final(fb)@.wf(),
        final(fb)@.same_size(old(fb)@),
        forall|x: int, y: int|
            old(fb)@.has(x, y) ==> #[trigger] final(fb)@.pixel(x, y) == ({
                let width = old(fb)@.width as int;
                let height = old(fb)@.height as int;
                let len = pixels@.len() as int;
                let sx = run_source_x(rotation, width, height, x0 as int, len, x, y);
                let sy = source(rotation, width, height, x, y).1;
                if sy == row && x0 <= sx < x0 + len {
                    pixels@[sx - x0]
                } else {
                    old(fb)@.pixel(x, y)
                }
            }),
{
    let fb_w: usize = fb.width() as usize;
    let fb_h: usize = fb.height() as usize;
    let len: usize = pixels.len();
    if rotation == 180 {
        let fb_row: usize = fb_h - 1 - row;
        let fb_x0: usize = if fb_w >= x0 + len {
            fb_w - (x0 + len)
        } else {
            0
        };
        let mut reversed: Vec<u8> = Vec::new();
        let mut i: usize = 0;
        while i < len
            invariant
                i <= len,
                len == pixels@.len(),
                reversed@.len() == i,
                forall|k: int| 0 <= k < i ==> reversed@[k] == pixels@[len - 1 - k],
            decreases len - i,
        {
            reversed.push(pixels[len - 1 - i]);
            i = i + 1;
        }
        fb.write_line(fb_row, fb_x0, reversed.as_slice());
    } else if rotation == 90 {
        let fb_x: usize = fb_w - 1 - row;
        let mut i: usize = 0;
        while i < len
            invariant
                i <= len,
                len == pixels@.len(),
                x0 + len <= usize::MAX,
                fb_w == old(fb)@.width,
                fb_h == old(fb)@.height,
                row < fb_w,
                fb_x == fb_w - 1 - row,
                len == 0 || x0 + len <= fb_h,
                fb@.wf(),
                fb@.same_size(old(fb)@),
                forall|x: int, y: int|
                    old(fb)@.has(x, y) ==> #[trigger] fb@.pixel(x, y) == if x == fb_x && x0 <= y
                        < x0 + i {
                        pixels@[y - x0]
                    } else {
                        old(fb)@.pixel(x, y)
                    },
            decreases len - i,
        {
            fb.write_pixel(fb_x, x0 + i, pixels[i]);
            i = i + 1;
        }
    } else if rotation == 270 {
        let fb_x: usize = row;
        let mut i: usize = 0;
        while i < len
            invariant
                i <= len,
                len == pixels@.len(),
                x0 + len <= usize::MAX,
                fb_w == old(fb)@.width,
                fb_h == old(fb)@.height,
                fb_x == row,
                len == 0 || (row < fb_w && x0 + len <= fb_h),
                fb@.wf(),
                fb@.same_size(old(fb)@),
                forall|x: int, y: int|
                    old(fb)@.has(x, y) ==> #[trigger] fb@.pixel(x, y) == if x == fb_x && x0
                        <= fb_h - 1 - y < x0 + i {
                        pixels@[fb_h - 1 - y - x0]
                    } else {
                        old(fb)@.pixel(x, y)
                    },
            decreases len - i,
        {
            let fb_y: usize = fb_h - 1 - (x0 + i);
            fb.write_pixel(fb_x, fb_y, pixels[i]);
            i = i + 1;
        }
    } else {
        fb.write_line(row, x0, pixels);
    }
}

/// The picture is turned clockwise. For each rotation: the corner of the panel where the picture's
/// first pixel shows, and the ways on the panel that are the picture's right and down. Anything
/// but a quarter, half or three-quarter turn leaves the picture upright.
pub proof fn law_picture_turns_clockwise(
    rotation: u32,
    width: int,
    height: int,
    sx: int,
    sy: int,
)
    ensures
        ({
            let first = target(rotation, width, height, 0, 0);
            let (x, y) = target(rotation, width, height, sx, sy);
            let right = target(rotation, width, height, sx + 1, sy);
            let down = target(rotation, width, height, sx, sy + 1);
            &&& rotation == 90 ==> first == (width - 1, 0int) && right == (x, y + 1) && down == (
                x - 1,
                y,
            )
            &&& rotation == 180 ==> first == (width - 1, height - 1) && right == (x - 1, y) && down
                == (x, y - 1)
            &&& rotation == 270 ==> first == (0int, height - 1) && right == (x, y - 1) && down == (
                x + 1,
                y,
            )
            &&& rotation != 90 && rotation != 180 && rotation != 270 ==> first == (0int, 0int)
                && right == (x + 1, y) && down == (x, y + 1)
        }),
{
}

/// A quarter or three-quarter turn swaps the sides of the picture, any other rotation keeps them.
pub proof fn law_sideways_pictures_swap_their_sides(rotation: u32, width: int, height: int)
    ensures
        rotation == 90 || rotation == 270 ==> drawn_size(rotation, width, height) == (
            height,
            width,
        ),
        rotation != 90 && rotation != 270 ==> drawn_size(rotation, width, height) == (
            width,
            height,
        ),
{
}

/// A rectangle holds every pixel from its corner on, for its width and height, and none that
/// lies to any side of it; it lies inside a picture exactly if its last pixel does.
pub proof fn law_rectangles_end_at_their_edges(region: Region, x: int, y: int, w: int, h: int)
    ensures
        x < region.x ==> !region.contains(x, y),
        y < region.y ==> !region.contains(x, y),
        x >= region.x + region.width ==> !region.contains(x, y),
        y >= region.y + region.height ==> !region.contains(x, y),
        0 <= x < region.width && 0 <= y < region.height ==> region.contains(
            region.x + x,
            region.y + y,
        ),
        region.width > 0 && region.height > 0 ==> (region.within(w, h) <==> region.x + region.width
            - 1 < w && region.y + region.height - 1 < h),
{
}

/// Every run of pixels inside the drawn picture can be written, and shows where the rotation puts
/// it.
pub proof fn law_runs_of_the_picture_show_in_their_place(
    rotation: u32,
    width: int,
    height: int,
    row: int,
    x0: int,
    len: int,
    i: int,
)
    requires
        0 <= row < drawn_size(rotation, width, height).1,
        0 <= x0,
        0 <= i < len,
        x0 + len <= drawn_size(rotation, width, height).0,
    ensures
        run_fits(rotation, width, height, row, x0, len),
        ({
            let (x, y) = target(rotation, width, height, x0 + i, row);
            run_source_x(rotation, width, height, x0, len, x, y) == x0 + i
        }),
{
}

/// With half a turn, a run that is too wide for its place shows, last pixel first, from the left
/// edge of the panel on.
pub proof fn law_wide_runs_start_at_the_edge(
    width: int,
    height: int,
    x0: int,
    len: int,
    x: int,
    y: int,
)
    requires
        x0 + len > width,
    ensures
        run_source_x(180, width, height, x0, len, 0, y) == x0 + len - 1,
        run_source_x(180, width, height, x0, len, x + 1, y) == run_source_x(
            180,
            width,
            height,
            x0,
            len,
            x,
            y,
        ) - 1,
{
}

} // verus!
