//! Bringing the rendered picture to the panel.

use vstd::prelude::*;

use crate::framebuffer::Framebuffer;
use crate::gray::{to_gray, Rgb8Pixel};
use crate::raster::Raster;
use crate::rotation::{write_row_rotated_range, Region};

verus! {

/// The panel after the pixels of `region` of the rendered picture, whose rows are `stride`
/// pixels long, were brought to it: each pixel of the panel that shows a pixel of the region has
/// that pixel's grey level, and every other pixel is as it was.
pub open spec fn shows_region(
    before: Raster,
    after: Raster,
    rgb: Seq<Rgb8Pixel>,
    stride: int,
    region: Region,
    black_and_white: bool,
    rotation: u32,
) -> bool {
    &&& after.wf()
    &&& after.same_size(before)
    &&& forall|x: int, y: int|
        before.has(x, y) ==> #[trigger] after.pixel(x, y) == ({
            let (sx, sy) = crate::rotation::source(
                rotation,
                before.width as int,
                before.height as int,
                x,
                y,
            );
            if region.contains(sx, sy) {
                crate::gray::gray_level(rgb[sy * stride + sx], black_and_white)
            } else {
                before.pixel(x, y) as int
            }
        })
}

/// Grey levels of `len` pixels of the rendered picture from place `start` on.
fn gray_run(rgb: &[Rgb8Pixel], start: usize, len: usize, black_and_white: bool) -> (gray: Vec<u8>)
    requires
        start + len <= rgb@.len(),
    ensures
        gray@.len() == len,
        forall|i: int|
            0 <= i < len ==> #[trigger] gray@[i] == crate::gray::gray_level(
                rgb@[start + i],
                black_and_white,
            ),
{
    let end: usize = rgb.len();
    let mut gray: Vec<u8> = Vec::with_capacity(len);
    let mut i: usize = 0;
    while i < len
        invariant
            i <= len,
            start + len <= end,
            end == rgb@.len(),
            gray@.len() == i,
            forall|k: int|
                0 <= k < i ==> #[trigger] gray@[k] == crate::gray::gray_level(
                    rgb@[start + k],
                    black_and_white,
                ),
        decreases len - i,
    {
        gray.push(to_gray(rgb[start + i], black_and_white));
        i = i + 1;
    }
    gray
}

/// Bring one rectangle of the rendered picture to the panel, converting RGB to greyscale.
pub fn blit_region(
    fb: &mut Framebuffer,
    rgb: &[Rgb8Pixel],
    stride: usize,
    region: Region,
    black_and_white: bool,
    rotation: u32,
)
    requires
        region.x + region.width <= stride,
        (region.y + region.height) * stride <= rgb@.len(),
        ({
            let (dw, dh) = crate::rotation::drawn_size(
                rotation,
                old(fb)@.width as int,
                old(fb)@.height as int,
            );
            region.within(dw, dh)
        }),
    ensures
        shows_region(
            old(fb)@,
            final(fb)@,
            rgb@,
            stride as int,
            region,
            black_and_white,
            rotation,
        ),
{
    let fb_w: usize = fb.width() as usize;
    let fb_h: usize = fb.height() as usize;
    let available: usize = rgb.len();
    let ghost before = fb@;
    let mut row: usize = 0;
    while row < region.height
        invariant
            row <= region.height,
            before == old(fb)@,
            fb_w == before.width,
            fb_h == before.height,
            region.x + region.width <= stride,
            (region.y + region.height) * stride <= available,
            available == rgb@.len(),
            ({
                let (dw, dh) = crate::rotation::drawn_size(
                    rotation,
                    before.width as int,
                    before.height as int,
                );
                region.within(dw, dh)
            }),
            shows_region(
                before,
                fb@,
                rgb@,
                stride as int,
                Region { height: row, ..region },
                black_and_white,
                rotation,
            ),
        decreases region.height - row,
    {
        let y: usize = region.y + row;
        assert(0 <= y * stride && y * stride + stride <= rgb@.len()) by {
            assert(0 <= y * stride && y * stride + stride <= (region.y + region.height) * stride)
                by (nonlinear_arith)
                requires
                    0 <= y < region.y + region.height,
                    0 <= stride,
            ;
        }
        let gray = gray_run(rgb, y * stride + region.x, region.width, black_and_white);
        write_row_rotated_range(fb, y, region.x, gray.as_slice(), rotation);
        row = row + 1;
    }
}

/// Write the entire render buffer to the panel with the given rotation, converting RGB to
/// greyscale.
///
/// Used after rotation changes (every pixel's place on the panel changes) and after waking from
/// suspend (the panel has the stale sleep image). The panel needs a full refresh afterwards.
pub fn full_reblit(
    fb: &mut Framebuffer,
    rgb_buffer: &[Rgb8Pixel],
    black_and_white: bool,
    rotation: u32,
    render_w: usize,
    render_h: usize,
)
    requires
        render_w * render_h <= rgb_buffer@.len(),
        ({
            let (dw, dh) = crate::rotation::drawn_size(
                rotation,
                old(fb)@.width as int,
                old(fb)@.height as int,
            );
            render_w <= dw && render_h <= dh
        }),
    ensures
        shows_region(
            old(fb)@,
            final(fb)@,
            rgb_buffer@,
            render_w as int,
            (Region { x: 0, y: 0, width: render_w, height: render_h }),
            black_and_white,
            rotation,
        ),
{
    assert(render_w * render_h == render_h * render_w) by (nonlinear_arith);
    let region = Region { x: 0, y: 0, width: render_w, height: render_h };
    blit_region(fb, rgb_buffer, render_w, region, black_and_white, rotation);
}

/// A picture of the full drawn size replaces everything on the panel: whatever was there before
/// leaves no trace.
pub proof fn law_full_picture_leaves_nothing_stale(
    before: Raster,
    other: Raster,
    after: Raster,
    other_after: Raster,
    rgb: Seq<Rgb8Pixel>,
    region: Region,
    black_and_white: bool,
    rotation: u32,
)
    requires
        before.same_size(other),
        region.x == 0,
        region.y == 0,
        (region.width as int, region.height as int) == crate::rotation::drawn_size(
            rotation,
            before.width as int,
            before.height as int,
        ),
        shows_region(
            before,
            after,
            rgb,
            region.width as int,
            region,
            black_and_white,
            rotation,
        ),
        shows_region(
            other,
            other_after,
            rgb,
            region.width as int,
            region,
            black_and_white,
            rotation,
        ),
    ensures
        after == other_after,
{
    assert forall|x: int, y: int| after.has(x, y) implies #[trigger] after.pixel(x, y)
        == other_after.pixel(x, y) by {
        assert(before.has(x, y) && other.has(x, y));
        crate::rotation::law_rotation_is_one_to_one(
            rotation,
            before.width as int,
            before.height as int,
            x,
            y,
        );
    }
    crate::raster::lemma_same_pixels_same_raster(after, other_after);
}

/// The rectangle of the panel on which a rectangle of the drawn picture shows.
pub open spec fn rotated_region(rotation: u32, width: int, height: int, region: Region) -> Region {
    if rotation == 90 {
        Region {
            x: (width - (region.y + region.height)) as usize,
            y: region.x,
            width: region.height,
            height: region.width,
        }
    } else if rotation == 180 {
        Region {
            x: (width - (region.x + region.width)) as usize,
            y: (height - (region.y + region.height)) as usize,
            ..region
        }
    } else if rotation == 270 {
        Region {
            x: region.y,
            y: (height - (region.x + region.width)) as usize,
            width: region.height,
            height: region.width,
        }
    } else {
        region
    }
}

/// Where on a panel of `fb_w` by `fb_h` a rectangle of the drawn picture shows.
pub fn rotate_region(rotation: u32, fb_w: usize, fb_h: usize, region: Region) -> (on_panel: Region)
    requires
        region.width > 0,
        region.height > 0,
        ({
            let (dw, dh) = crate::rotation::drawn_size(rotation, fb_w as int, fb_h as int);
            region.within(dw, dh)
        }),
    ensures
        on_panel == rotated_region(rotation, fb_w as int, fb_h as int, region),
{
    if rotation == 180 {
        Region {
            x: fb_w - (region.x + region.width),
            y: fb_h - 1 - (region.y + region.height - 1),
            width: region.width,
            height: region.height,
        }
    } else if rotation == 90 {
        Region {
            x: fb_w - 1 - (region.y + region.height - 1),
            y: region.x,
            width: region.height,
            height: region.width,
        }
    } else if rotation == 270 {
        Region {
            x: region.y,
            y: fb_h - 1 - (region.x + region.width - 1),
            width: region.height,
            height: region.width,
        }
    } else {
        region
    }
}

/// The rectangle that is refreshed holds exactly the pixels of the panel that show the drawn
/// rectangle: nothing that changed is left out and nothing else is touched.
pub proof fn law_refreshed_region_is_what_was_drawn(
    rotation: u32,
    fb_w: usize,
    fb_h: usize,
    region: Region,
    x: int,
    y: int,
)
    requires
        ({
            let (dw, dh) = crate::rotation::drawn_size(rotation, fb_w as int, fb_h as int);
            region.within(dw, dh)
        }),
    ensures
        ({
            let (sx, sy) = crate::rotation::source(rotation, fb_w as int, fb_h as int, x, y);
            rotated_region(rotation, fb_w as int, fb_h as int, region).contains(x, y)
                <==> region.contains(sx, sy)
        }),
        rotated_region(rotation, fb_w as int, fb_h as int, region).within(
            fb_w as int,
            fb_h as int,
        ),
{
}

/// Each pixel of the drawn picture that was brought to the panel has its grey level at the place
/// where the rotation puts it, and the places of all other pixels are as they were.
pub proof fn law_drawn_pixels_land_where_the_rotation_says(
    before: Raster,
    after: Raster,
    rgb: Seq<Rgb8Pixel>,
    stride: int,
    region: Region,
    black_and_white: bool,
    rotation: u32,
    sx: int,
    sy: int,
)
    requires
        shows_region(before, after, rgb, stride, region, black_and_white, rotation),
        0 <= sx < crate::rotation::drawn_size(
            rotation,
            before.width as int,
            before.height as int,
        ).0,
        0 <= sy < crate::rotation::drawn_size(
            rotation,
            before.width as int,
            before.height as int,
        ).1,
    ensures
        after.width == before.width,
        after.height == before.height,
        after.pixels.len() == after.width * after.height,
        ({
            let (x, y) = crate::rotation::target(
                rotation,
                before.width as int,
                before.height as int,
                sx,
                sy,
            );
            let drawn = region.x <= sx < region.x + region.width && region.y <= sy < region.y
                + region.height;
            &&& drawn ==> after.pixel(x, y) == crate::gray::gray_level(
                rgb[sy * stride + sx],
                black_and_white,
            )
            &&& !drawn ==> after.pixel(x, y) == before.pixel(x, y)
        }),
{
    let (x, y) = crate::rotation::target(
        rotation,
        before.width as int,
        before.height as int,
        sx,
        sy,
    );
    crate::rotation::law_rotation_is_one_to_one(
        rotation,
        before.width as int,
        before.height as int,
        x,
        y,
    );
    crate::rotation::law_rotation_is_one_to_one(
        rotation,
        before.width as int,
        before.height as int,
        sx,
        sy,
    );
    assert(before.has(x, y));
}

} // verus!
