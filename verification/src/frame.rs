//! How a frame reaches the panel.

use vstd::prelude::*;

use crate::blit::{blit_region, full_reblit, rotate_region};
use crate::framebuffer::Framebuffer;
use crate::gray::Rgb8Pixel;
use crate::raster::Raster;
use crate::rotation::Region;

verus! {

/// One frame that is to be drawn.
#[derive(Clone, Copy)]
pub struct Frame {
    /// Rotation with which the picture is brought to the panel.
    pub rotation: u32,
    /// Size of the picture.
    pub render_w: usize,
    pub render_h: usize,
    /// The size differs from that of the frame before: window and render buffer need the new one.
    pub resize: bool,
    /// The whole picture has to be rendered again.
    pub redraw: bool,
    /// The whole panel has to be written and refreshed.
    pub full: bool,
    pub black_and_white: bool,
}

/// What part of the panel has to be refreshed.
#[derive(Clone, Copy)]
pub enum Refresh {
    Full,
    Region(Region),
}

/// Size of the picture for a panel of `fb_w` by `fb_h`. For 0° and 180° it is the panel's own;
/// for 90° and 270° it is swapped, so that the UI is laid out in landscape.
pub fn render_size(rotation: u32, fb_w: usize, fb_h: usize) -> (size: (usize, usize))
    ensures
        (size.0 as int, size.1 as int) == crate::rotation::drawn_size(
            rotation,
            fb_w as int,
            fb_h as int,
        ),
{
    if rotation == 90 || rotation == 270 {
        (fb_h, fb_w)
    } else {
        (fb_w, fb_h)
    }
}

/// Make the panel blank, that is, all white. Returns what has to be refreshed.
pub fn blank_panel(fb: &mut Framebuffer) -> (refresh: Refresh)
    ensures
        final(fb)@.wf(),
        final(fb)@.same_size(old(fb)@),
        forall|x: int, y: int|
            final(fb)@.has(x, y) ==> #[trigger] final(fb)@.pixel(x, y) == 0xff,
        refresh == Refresh::Full,
{
    fb.fill(0xff);
    Refresh::Full
}

impl Frame {
    /// The frame is for this panel and its pixels are there.
    pub open spec fn is_for(self, panel: Raster, rgb: Seq<Rgb8Pixel>) -> bool {
        &&& (self.render_w as int, self.render_h as int) == crate::rotation::drawn_size(
            self.rotation,
            panel.width as int,
            panel.height as int,
        )
        &&& rgb.len() == self.render_w * self.render_h
    }

    /// The panel shows this picture, all of it and nothing else.
    pub open spec fn shown_on(self, panel: Raster, rgb: Seq<Rgb8Pixel>) -> bool {
        forall|x: int, y: int|
            panel.has(x, y) ==> #[trigger] panel.pixel(x, y) == ({
                let (sx, sy) = crate::rotation::source(
                    self.rotation,
                    panel.width as int,
                    panel.height as int,
                    x,
                    y,
                );
                crate::gray::gray_level(rgb[sy * self.render_w + sx], self.black_and_white)
            })
    }

    /// The whole picture.
    pub open spec fn whole(self) -> Region {
        Region { x: 0, y: 0, width: self.render_w, height: self.render_h }
    }
}

/// Bring the part of the picture that was rendered anew to the panel. Returns what has to be
/// refreshed.
pub fn draw_frame(
    fb: &mut Framebuffer,
    rgb: &[Rgb8Pixel],
    frame: Frame,
    dirty: Region,
) -> (refresh: Option<Refresh>)
    requires
        frame.is_for(old(fb)@, rgb@),
        dirty.width > 0 && dirty.height > 0 ==> dirty.within(
            frame.render_w as int,
            frame.render_h as int,
        ),
    ensures
        if dirty.width == 0 || dirty.height == 0 {
            final(fb)@ == old(fb)@ && refresh is None
        } else {
            &&& crate::blit::shows_region(
                old(fb)@,
                final(fb)@,
                rgb@,
                frame.render_w as int,
                dirty,
                frame.black_and_white,
                frame.rotation,
            )
            &&& refresh == Some(
                if frame.full {
                    Refresh::Full
                } else {
                    Refresh::Region(
                        crate::blit::rotated_region(
                            frame.rotation,
                            old(fb)@.width as int,
                            old(fb)@.height as int,
                            dirty,
                        ),
                    )
                },
            )
        },
{
    if dirty.width == 0 || dirty.height == 0 {
        return None;
    }
    proof {
        assert((dirty.y + dirty.height) * frame.render_w <= frame.render_w * frame.render_h)
            by (nonlinear_arith)
            requires
                0 <= dirty.y + dirty.height <= frame.render_h,
                0 <= frame.render_w,
        ;
    }
    blit_region(fb, rgb, frame.render_w, dirty, frame.black_and_white, frame.rotation);
    if frame.full {
        Some(Refresh::Full)
    } else {
        let fb_w: usize = fb.width() as usize;
        let fb_h: usize = fb.height() as usize;
        Some(Refresh::Region(rotate_region(frame.rotation, fb_w, fb_h, dirty)))
    }
}

/// If the whole panel has to be written, bring the entire picture to it: the part that was
/// rendered anew is not enough, the rest would keep stale content. Returns what has to be
/// refreshed.
pub fn finish_frame(
    fb: &mut Framebuffer,
    rgb: &[Rgb8Pixel],
    frame: Frame,
) -> (refresh: Option<Refresh>)
    requires
        frame.is_for(old(fb)@, rgb@),
    ensures
        if frame.full {
            &&& crate::blit::shows_region(
                old(fb)@,
                final(fb)@,
                rgb@,
                frame.render_w as int,
                frame.whole(),
                frame.black_and_white,
                frame.rotation,
            )
            &&& refresh == Some(Refresh::Full)
        } else {
            final(fb)@ == old(fb)@ && refresh is None
        },
{
    if !frame.full {
        return None;
    }
    full_reblit(
        fb,
        rgb,
        frame.black_and_white,
        frame.rotation,
        frame.render_w,
        frame.render_h,
    );
    Some(Refresh::Full)
}

/// After a frame whose whole picture was brought to the panel, the panel shows that picture and
/// nothing of what was there before, be it a sleep image or a picture in another rotation.
pub proof fn law_full_frame_shows_the_picture(
    frame: Frame,
    before: Raster,
    after: Raster,
    rgb: Seq<Rgb8Pixel>,
)
    requires
        frame.is_for(before, rgb),
        crate::blit::shows_region(
            before,
            after,
            rgb,
            frame.render_w as int,
            frame.whole(),
            frame.black_and_white,
            frame.rotation,
        ),
    ensures
        frame.shown_on(after, rgb),
{
    assert forall|x: int, y: int| after.has(x, y) implies #[trigger] after.pixel(x, y) == ({
        let (sx, sy) = crate::rotation::source(
            frame.rotation,
            after.width as int,
            after.height as int,
            x,
            y,
        );
        crate::gray::gray_level(rgb[sy * frame.render_w + sx], frame.black_and_white)
    }) by {
        assert(before.has(x, y));
        crate::rotation::law_rotation_is_one_to_one(
            frame.rotation,
            before.width as int,
            before.height as int,
            x,
            y,
        );
    }
}

/// A panel that shows a picture in black-and-white mode has no grey pixel.
pub proof fn law_black_and_white_panel_has_no_gray(
    frame: Frame,
    panel: Raster,
    rgb: Seq<Rgb8Pixel>,
    x: int,
    y: int,
)
    requires
        frame.black_and_white,
        frame.shown_on(panel, rgb),
        panel.has(x, y),
    ensures
        panel.pixel(x, y) == 0 || panel.pixel(x, y) == 255,
{
}

/// Drawing only what was rendered anew is enough: a panel that showed the picture before shows
/// the new picture after it, as long as the new picture is the old one outside of the part that
/// was rendered anew.
pub proof fn law_drawing_what_changed_is_enough(
    frame: Frame,
    before: Raster,
    after: Raster,
    old_rgb: Seq<Rgb8Pixel>,
    rgb: Seq<Rgb8Pixel>,
    dirty: Region,
)
    requires
        frame.is_for(before, old_rgb),
        frame.is_for(before, rgb),
        frame.shown_on(before, old_rgb),
        forall|sx: int, sy: int|
            0 <= sx < frame.render_w && 0 <= sy < frame.render_h && !#[trigger] dirty.contains(
                sx,
                sy,
            ) ==> rgb[sy * frame.render_w + sx] == old_rgb[sy * frame.render_w + sx],
        crate::blit::shows_region(
            before,
            after,
            rgb,
            frame.render_w as int,
            dirty,
            frame.black_and_white,
            frame.rotation,
        ),
    ensures
        frame.shown_on(after, rgb),
{
    assert forall|x: int, y: int| after.has(x, y) implies #[trigger] after.pixel(x, y) == ({
        let (sx, sy) = crate::rotation::source(
            frame.rotation,
            after.width as int,
            after.height as int,
            x,
            y,
        );
        crate::gray::gray_level(rgb[sy * frame.render_w + sx], frame.black_and_white)
    }) by {
        assert(before.has(x, y));
        crate::rotation::law_rotation_is_one_to_one(
            frame.rotation,
            before.width as int,
            before.height as int,
            x,
            y,
        );
        let (sx, sy) = crate::rotation::source(
            frame.rotation,
            before.width as int,
            before.height as int,
            x,
            y,
        );
        if !dirty.contains(sx, sy) {
            assert(after.pixel(x, y) == before.pixel(x, y));
        }
    }
}

/// On a panel that shows a picture, each pixel of the picture has its grey level at the place
/// where the rotation puts it.
pub proof fn law_shown_picture_is_complete(
    frame: Frame,
    panel: Raster,
    rgb: Seq<Rgb8Pixel>,
    sx: int,
    sy: int,
)
    requires
        frame.is_for(panel, rgb),
        frame.shown_on(panel, rgb),
        0 <= sx < frame.render_w,
        0 <= sy < frame.render_h,
    ensures
        ({
            let (x, y) = crate::rotation::target(
                frame.rotation,
                panel.width as int,
                panel.height as int,
                sx,
                sy,
            );
            panel.pixel(x, y) == crate::gray::gray_level(
                rgb[sy * frame.render_w + sx],
                frame.black_and_white,
            )
        }),
{
    let width = panel.width as int;
    let height = panel.height as int;
    let (x, y) = crate::rotation::target(frame.rotation, width, height, sx, sy);
    crate::rotation::law_rotation_is_one_to_one(frame.rotation, width, height, x, y);
    crate::rotation::law_rotation_is_one_to_one(frame.rotation, width, height, sx, sy);
    assert(panel.has(x, y));
}

/// The whole picture is every pixel of it, and a picture is for a panel whose sides it has,
/// swapped if it lies sideways.
pub proof fn law_whole_picture_is_every_pixel(
    frame: Frame,
    panel: Raster,
    rgb: Seq<Rgb8Pixel>,
    sx: int,
    sy: int,
)
    ensures
        frame.whole().contains(sx, sy) <==> 0 <= sx < frame.render_w && 0 <= sy < frame.render_h,
        frame.is_for(panel, rgb) <==> {
            let sideways = frame.rotation == 90 || frame.rotation == 270;
            &&& rgb.len() == frame.render_w * frame.render_h
            &&& sideways ==> frame.render_w == panel.height && frame.render_h == panel.width
            &&& !sideways ==> frame.render_w == panel.width && frame.render_h == panel.height
        },
{
}

} // verus!
