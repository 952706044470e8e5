//! The image that stays on the panel while the device sleeps.

use vstd::prelude::*;
use vstd::slice::slice_subrange;

use crate::framebuffer::Framebuffer;
use crate::raster::{GrayImage, Raster};
use crate::state::{
    is_wanted_generation, new_pre_render_generation, screen_dimensions, set_screen_dimensions,
    DisplayState, DisplayView,
};

verus! {

/// Pixels of a greyscale image of `width` by `height` after `image` has resized it to
/// `new_width` by `new_height` with its nearest-neighbour filter.
pub uninterp spec fn nearest_resized(
    pixels: Seq<u8>,
    width: u32,
    height: u32,
    new_width: u32,
    new_height: u32,
) -> Seq<u8>;

/// The buffers that resizing needs can be allocated: the result, and, unless the image is empty
/// or keeps its size, an intermediate picture of four 32-bit channels that has the old width and
/// the new height, and of which at least the channels of one row can be counted.
pub open spec fn resize_fits(width: u32, height: u32, new_width: u32, new_height: u32) -> bool {
    &&& new_width * new_height <= isize::MAX
    &&& {
        ||| width == 0 || height == 0
        ||| width == new_width && height == new_height
        ||| 16 * (width * new_height) <= isize::MAX && 4 * width <= usize::MAX
    }
}

/// Calls `image::imageops::resize` with `FilterType::Nearest` on an image over `pixels`.
///
/// The result depends on the arguments alone and is [`nearest_resized`] of them. It has the new
/// size; an image that keeps its size is copied; an empty image gives zeros; and every pixel of
/// the result of an image that is not empty is a pixel of that image.
#[verifier::external_body]
fn resize_nearest(
    pixels: &[u8],
    width: u32,
    height: u32,
    new_width: u32,
    new_height: u32,
) -> (resized: Vec<u8>)
    requires
        pixels@.len() == width * height,
        resize_fits(width, height, new_width, new_height),
    ensures
        resized@ == nearest_resized(pixels@, width, height, new_width, new_height),
        resized@.len() == new_width * new_height,
        width == new_width && height == new_height ==> resized@ == pixels@,
        forall|i: int|
            0 <= i < resized@.len() ==> if pixels@.len() == 0 {
                #[trigger] resized@[i] == 0
            } else {
                pixels@.contains(resized@[i])
            },
{
    let source: image::ImageBuffer<image::Luma<u8>, &[u8]> =
        image::ImageBuffer::from_raw(width, height, pixels).unwrap();
    image::imageops::resize(&source, new_width, new_height, image::imageops::FilterType::Nearest)
        .into_raw()
}

/// An image on a screen of `screen_w` by `screen_h`: an image of the screen's size as it is, any
/// other resized to `new_w` by `new_h` and centred on a background of one level.
pub open spec fn fitted(
    img: Raster,
    screen_w: u32,
    screen_h: u32,
    bg: u8,
    new_w: u32,
    new_h: u32,
) -> Raster {
    if img.width == screen_w && img.height == screen_h {
        img
    } else {
        placed(
            nearest_resized(img.pixels, img.width as u32, img.height as u32, new_w, new_h),
            screen_w,
            screen_h,
            bg,
            new_w,
            new_h,
        )
    }
}

/// Pixels of an image of `new_w` by `new_h`, centred on a screen of `screen_w` by `screen_h` with
/// a background of one level.
pub open spec fn placed(
    resized: Seq<u8>,
    screen_w: u32,
    screen_h: u32,
    bg: u8,
    new_w: u32,
    new_h: u32,
) -> Raster {
    Raster::tabulate(
        screen_w as nat,
        screen_h as nat,
        placed_level(resized, screen_w, screen_h, bg, new_w, new_h),
    )
}

/// The place in column `x` of row `y` of the screen lies in the centred rectangle of `new_w` by
/// `new_h`.
pub open spec fn in_placed(
    screen_w: u32,
    screen_h: u32,
    new_w: u32,
    new_h: u32,
    x: int,
    y: int,
) -> bool {
    let left = (screen_w - new_w) / 2;
    let top = (screen_h - new_h) / 2;
    left <= x < left + new_w && top <= y < top + new_h
}

/// Levels of the screen of [`placed`].
pub open spec fn placed_level(
    resized: Seq<u8>,
    screen_w: u32,
    screen_h: u32,
    bg: u8,
    new_w: u32,
    new_h: u32,
) -> spec_fn(int, int) -> u8 {
    let left = (screen_w - new_w) / 2;
    let top = (screen_h - new_h) / 2;
    |x: int, y: int|
        if in_placed(screen_w, screen_h, new_w, new_h, x, y) {
            resized[(y - top) * new_w + (x - left)]
        } else {
            bg
        }
}

/// The resized image does not stick out of the screen, and everything can be allocated.
pub open spec fn fit_possible(
    img: Raster,
    screen_w: u32,
    screen_h: u32,
    new_w: u32,
    new_h: u32,
) -> bool {
    (img.width == screen_w && img.height == screen_h) || {
        &&& new_w <= screen_w
        &&& new_h <= screen_h
        &&& screen_w * screen_h <= isize::MAX
        &&& resize_fits(img.width as u32, img.height as u32, new_w, new_h)
    }
}

/// Centre pixels of an image of `new_w` by `new_h` on a screen of `screen_w` by `screen_h`.
pub fn place_on_screen(
    resized: &[u8],
    screen_w: u32,
    screen_h: u32,
    bg: u8,
    new_w: u32,
    new_h: u32,
) -> (screen: GrayImage)
    requires
        resized@.len() == new_w * new_h,
        new_w <= screen_w,
        new_h <= screen_h,
        screen_w * screen_h <= isize::MAX,
    ensures
        screen@ == placed(resized@, screen_w, screen_h, bg, new_w, new_h),
        screen@.wf(),
{
    let mut canvas = GrayImage::from_pixel(screen_w, screen_h, bg);
    let left: u32 = (screen_w - new_w) / 2;
    let top: u32 = (screen_h - new_h) / 2;
    let available: usize = resized.len();
    let mut y: u32 = 0;
    while y < new_h
        invariant
            y <= new_h,
            available == resized@.len(),
            resized@.len() == new_w * new_h,
            left + new_w <= screen_w,
            top + new_h <= screen_h,
            canvas@.wf(),
            canvas@.width == screen_w,
            canvas@.height == screen_h,
            forall|px: int, py: int|
                canvas@.has(px, py) ==> #[trigger] canvas@.pixel(px, py) == if left <= px < left
                    + new_w && top <= py < top + y {
                    resized@[(py - top) * new_w + (px - left)]
                } else {
                    bg
                },
        decreases new_h - y,
    {
        let mut x: u32 = 0;
        while x < new_w
            invariant
                x <= new_w,
                y < new_h,
                available == resized@.len(),
                resized@.len() == new_w * new_h,
                left + new_w <= screen_w,
                top + new_h <= screen_h,
                canvas@.wf(),
                canvas@.width == screen_w,
                canvas@.height == screen_h,
                forall|px: int, py: int|
                    canvas@.has(px, py) ==> #[trigger] canvas@.pixel(px, py) == if left <= px
                        < left + new_w && (top <= py < top + y || (py == top + y && px < left
                        + x)) {
                        resized@[(py - top) * new_w + (px - left)]
                    } else {
                        bg
                    },
            decreases new_w - x,
        {
            proof {
                crate::raster::lemma_index_in_range(
                    new_w as int,
                    new_h as int,
                    x as int,
                    y as int,
                );
            }
            let value: u8 = resized[y as usize * new_w as usize + x as usize];
            canvas.put_pixel(left + x, top + y, value);
            x = x + 1;
        }
        y = y + 1;
    }
    proof {
        let level = placed_level(resized@, screen_w, screen_h, bg, new_w, new_h);
        let wanted = placed(resized@, screen_w, screen_h, bg, new_w, new_h);
        crate::raster::lemma_tabulate(screen_w as nat, screen_h as nat, level);
        crate::raster::lemma_same_pixels_same_raster(canvas@, wanted);
    }
    canvas
}

/// Fit an image to the screen. `new_w` and `new_h` are the size that the image has on the screen
/// when it is scaled, in proportion, to the largest size that the screen can show.
///
/// Where the image is placed, the screen shows nothing but pixels of the image (an image without
/// pixels shows as black), and around it the background. An image that need not be scaled shows
/// as it is, and so does a screen that is fitted once more, whatever the background.
pub fn fit_to_screen(
    img: &GrayImage,
    screen_w: u32,
    screen_h: u32,
    bg: u8,
    new_w: u32,
    new_h: u32,
) -> (screen: GrayImage)
    requires
        fit_possible(img@, screen_w, screen_h, new_w, new_h),
    ensures
        screen@ == fitted(img@, screen_w, screen_h, bg, new_w, new_h),
        screen@.wf(),
        screen@.width == screen_w,
        screen@.height == screen_h,
        forall|x: int, y: int|
            screen@.has(x, y) ==> {
                let level = #[trigger] screen@.pixel(x, y);
                if img@.same_size(screen@) || in_placed(screen_w, screen_h, new_w, new_h, x, y) {
                    img@.pixels.contains(level) || (img@.pixels.len() == 0 && level == 0)
                } else {
                    level == bg
                }
            },
        img@.width == new_w && img@.height == new_h && !img@.same_size(screen@) ==> screen@
            == placed(img@.pixels, screen_w, screen_h, bg, new_w, new_h),
        forall|other_bg: u8, other_w: u32, other_h: u32|
            fit_possible(screen@, screen_w, screen_h, other_w, other_h) && #[trigger] fitted(
                screen@,
                screen_w,
                screen_h,
                other_bg,
                other_w,
                other_h,
            ) == screen@,
{
    if img.width() == screen_w && img.height() == screen_h {
        proof {
            assert forall|x: int, y: int| img@.has(x, y) implies img@.pixels.contains(
                #[trigger] img@.pixel(x, y),
            ) by {
                crate::raster::lemma_index_in_range(screen_w as int, screen_h as int, x, y);
            }
        }
        return img.clone();
    }
    let resized = resize_nearest(img.as_raw().as_slice(), img.width(), img.height(), new_w, new_h);
    let screen = place_on_screen(resized.as_slice(), screen_w, screen_h, bg, new_w, new_h);
    proof {
        assert forall|x: int, y: int| screen@.has(x, y) implies ({
            let level = #[trigger] screen@.pixel(x, y);
            if in_placed(screen_w, screen_h, new_w, new_h, x, y) {
                resized@.contains(level)
            } else {
                level == bg
            }
        }) by {
            law_placed_shows_image_or_background(
                resized@,
                screen_w,
                screen_h,
                bg,
                new_w,
                new_h,
                x,
                y,
            );
        }
    }
    screen
}

/// Whether [`fit_to_screen`] can be asked for this size.
pub fn can_fit(img: &GrayImage, screen_w: u32, screen_h: u32, new_w: u32, new_h: u32) -> (can: bool)
    ensures
        can == fit_possible(img@, screen_w, screen_h, new_w, new_h),
{
    let width: u32 = img.width();
    let height: u32 = img.height();
    if width == screen_w && height == screen_h {
        return true;
    }
    if new_w > screen_w || new_h > screen_h {
        return false;
    }
    proof {
        lemma_area_bound(screen_w, screen_h);
        lemma_area_bound(new_w, new_h);
        lemma_area_bound(width, new_h);
    }
    let limit: u128 = isize::MAX as u128;
    let screen_area: u128 = screen_w as u128 * screen_h as u128;
    let new_area: u128 = new_w as u128 * new_h as u128;
    let between: u128 = 16 * (width as u128 * new_h as u128);
    screen_area <= limit && new_area <= limit && (width == 0 || height == 0 || (width == new_w
        && height == new_h) || (between <= limit && 4 * width as u128 <= usize::MAX as u128))
}

proof fn lemma_area_bound(width: u32, height: u32)
    ensures
        0 <= width * height <= 0xffff_ffff * 0xffff_ffff,
{
    assert(0 <= width * height <= 0xffff_ffff * 0xffff_ffff) by (nonlinear_arith)
        requires
            0 <= width <= 0xffff_ffff,
            0 <= height <= 0xffff_ffff,
    ;
}

/// Where a pixel lies in the night sky of the default sleep image.
#[derive(Clone, Copy)]
pub struct SkyPixel {
    pub in_moon: bool,
    /// In the disc that is cut out of the moon to make it a crescent.
    pub in_cutout: bool,
    pub in_star: bool,
}

/// Level of a pixel of the night sky: the crescent and the stars are white, the rest is black.
pub open spec fn sky_level(pixel: SkyPixel) -> u8 {
    if (pixel.in_moon && !pixel.in_cutout) || pixel.in_star {
        255
    } else {
        0
    }
}

/// The default sleep image: `sky` says where each pixel lies, row after row.
pub open spec fn default_sleep_image(width: u32, height: u32, sky: Seq<SkyPixel>) -> Raster {
    Raster {
        width: width as nat,
        height: height as nat,
        pixels: sky.map_values(|pixel: SkyPixel| sky_level(pixel)),
    }
}

/// Draw the default sleep image, a crescent moon among stars.
pub fn generate_default_sleep_image(width: u32, height: u32, sky: &[SkyPixel]) -> (img: GrayImage)
    requires
        sky@.len() == width * height,
    ensures
        img@ == default_sleep_image(width, height, sky@),
        img@.wf(),
{
    let mut pixels: Vec<u8> = Vec::with_capacity(sky.len());
    let mut i: usize = 0;
    while i < sky.len()
        invariant
            i <= sky@.len(),
            pixels@.len() == i,
            forall|k: int| 0 <= k < i ==> #[trigger] pixels@[k] == sky_level(sky@[k]),
        decreases sky@.len() - i,
    {
        let pixel: SkyPixel = sky[i];
        let in_crescent: bool = pixel.in_moon && !pixel.in_cutout;
        if in_crescent || pixel.in_star {
            pixels.push(255);
        } else {
            pixels.push(0);
        }
        i = i + 1;
    }
    assert(pixels@ =~= sky@.map_values(|pixel: SkyPixel| sky_level(pixel)));
    GrayImage::from_raw(width, height, pixels).unwrap()
}

/// Leave to render a sleep screen ahead of time, good until a newer one is issued or a sleep
/// image is chosen.
#[derive(Clone, Copy)]
pub struct PreloadTicket {
    pub generation: u32,
    pub width: u32,
    pub height: u32,
    /// Level of the pixels around an image that does not fill the screen.
    pub background: u8,
}

/// The ticket that is issued next. `opened` is the size of the panel, where it could be opened.
pub open spec fn next_ticket(state: DisplayView, opened: Option<(u32, u32)>) -> PreloadTicket {
    PreloadTicket {
        generation: (state.pre_render_generation + 1) as u32,
        width: state.screen_dimensions(opened).0,
        height: state.screen_dimensions(opened).1,
        background: state.sleep_background(),
    }
}

/// State after a sleep screen was handed in on a ticket: it is kept if the ticket is still good.
pub open spec fn preloaded(
    state: DisplayView,
    ticket: PreloadTicket,
    screen: Raster,
) -> DisplayView {
    if state.wants(ticket.generation) {
        DisplayView { sleep_screen: Some(screen), ..state }
    } else {
        state
    }
}

/// Start rendering a sleep screen ahead of time. Every ticket that was issued before becomes
/// worthless.
pub fn begin_preload(state: &mut DisplayState, opened: Option<(u32, u32)>) -> (ticket:
    PreloadTicket)
    requires
        old(state)@.pre_render_generation < u32::MAX,
    ensures
        ticket == next_ticket(old(state)@, opened),
        final(state)@ == old(state)@.pre_render_started(),
        final(state)@.wants(ticket.generation),
{
    let generation: u32 = new_pre_render_generation(state);
    let (width, height): (u32, u32) = screen_dimensions(state, opened);
    let background: u8 = state.sleep_background();
    PreloadTicket { generation, width, height, background }
}

/// Render a sleep screen from an image and keep it for the next suspend, unless the ticket was
/// superseded or a sleep image was chosen since: then everything stays as it is. `new_w` and
/// `new_h` are the size that the image has on the screen, as for [`fit_to_screen`].
pub fn preload_sleep_screen_from_image(
    state: &mut DisplayState,
    ticket: PreloadTicket,
    img: &GrayImage,
    new_w: u32,
    new_h: u32,
) -> (kept: bool)
    requires
        old(state)@.wants(ticket.generation) ==> fit_possible(
            img@,
            ticket.width,
            ticket.height,
            new_w,
            new_h,
        ),
    ensures
        kept == old(state)@.wants(ticket.generation),
        final(state)@ == preloaded(
            old(state)@,
            ticket,
            fitted(img@, ticket.width, ticket.height, ticket.background, new_w, new_h),
        ),
{
    if !is_wanted_generation(state, ticket.generation) {
        return false;
    }
    let screen = fit_to_screen(img, ticket.width, ticket.height, ticket.background, new_w, new_h);
    state.cache_sleep_screen(screen);
    true
}

/// Render the default sleep screen and keep it for the next suspend, unless the ticket was
/// superseded or a sleep image was chosen since: then everything stays as it is.
pub fn preload_default_sleep_screen(
    state: &mut DisplayState,
    ticket: PreloadTicket,
    sky: &[SkyPixel],
) -> (kept: bool)
    requires
        old(state)@.wants(ticket.generation) ==> sky@.len() == ticket.width * ticket.height,
    ensures
        kept == old(state)@.wants(ticket.generation),
        final(state)@ == preloaded(
            old(state)@,
            ticket,
            default_sleep_image(ticket.width, ticket.height, sky@),
        ),
{
    if !is_wanted_generation(state, ticket.generation) {
        return false;
    }
    let screen = generate_default_sleep_image(ticket.width, ticket.height, sky);
    state.cache_sleep_screen(screen);
    true
}

/// Copy an image of the panel's size to the panel.
fn paint_image(fb: &mut Framebuffer, img: &GrayImage)
    requires
        old(fb)@.same_size(img@),
    ensures
        final(fb)@ == img@,
{
    let width: usize = img.width() as usize;
    let height: usize = fb.height() as usize;
    let raw: &Vec<u8> = img.as_raw();
    let available: usize = raw.len();
    let mut y: usize = 0;
    while y < height
        invariant
            y <= height,
            width == img@.width,
            height == img@.height,
            img@.wf(),
            raw@ == img@.pixels,
            available == raw@.len(),
            fb@.wf(),
            fb@.same_size(img@),
            forall|px: int, py: int|
                fb@.has(px, py) && py < y ==> #[trigger] fb@.pixel(px, py) == img@.pixel(px, py),
        decreases height - y,
    {
        proof {
            assert(0 <= y * width && y * width + width <= width * height) by (nonlinear_arith)
                requires
                    0 <= y < height,
                    0 <= width,
            ;
            assert((y + 1) * width == y * width + width) by (nonlinear_arith);
        }
        let row = slice_subrange(raw.as_slice(), y * width, (y + 1) * width);
        fb.write_line(y, 0, row);
        y = y + 1;
    }
    proof {
        crate::raster::lemma_same_pixels_same_raster(fb@, img@);
    }
}

/// What has happened while a sleep screen is being shown.
pub enum SleepEvent<'a> {
    /// The panel was opened.
    Opened,
    /// The sleep image of this name was looked for. It is found if there is a directory of sleep
    /// images and it holds a file of that name.
    Located { name: String, found: bool },
    /// The sleep image cannot be decoded.
    DecodeFailed,
    /// The image to show is there, and it has the size `new_w` by `new_h` on the screen, as for
    /// [`fit_to_screen`].
    Ready { img: &'a GrayImage, new_w: u32, new_h: u32 },
}

/// What has to be done next to show a sleep screen.
pub enum SleepAction {
    /// Look for the sleep image of this name.
    Locate(String),
    /// Decode the sleep image of this name.
    Decode(String),
    /// Draw the default sleep image.
    Generate,
    /// Everything is drawn: refresh the whole panel and wait until it is done.
    Refresh,
}

/// What a [`SleepAction`] says.
pub enum SleepActionView {
    Locate(Seq<char>),
    Decode(Seq<char>),
    Generate,
    Refresh,
}

impl View for SleepAction {
    type V = SleepActionView;

    open spec fn view(&self) -> SleepActionView {
        match self {
            SleepAction::Locate(name) => SleepActionView::Locate(name@),
            SleepAction::Decode(name) => SleepActionView::Decode(name@),
            SleepAction::Generate => SleepActionView::Generate,
            SleepAction::Refresh => SleepActionView::Refresh,
        }
    }
}

/// A name that stands for a file, not for the default sleep image.
pub open spec fn is_custom_name(name: Seq<char>) -> bool {
    name.len() > 0 && name != "default"@
}

/// State, panel and next action after one event on the way to a sleep screen.
pub open spec fn sleep_step(
    state: DisplayView,
    panel: Raster,
    event: SleepEvent,
) -> (DisplayView, Raster, SleepActionView) {
    match event {
        SleepEvent::Opened => {
            let sized = DisplayView {
                screen_width: panel.width as u32,
                screen_height: panel.height as u32,
                ..state
            };
            match state.sleep_screen {
                Some(screen) if screen.same_size(panel) => (
                    sized,
                    screen,
                    SleepActionView::Refresh,
                ),
                _ => if is_custom_name(state.sleep_image_name) {
                    (sized, panel, SleepActionView::Locate(state.sleep_image_name))
                } else {
                    (sized, panel, SleepActionView::Generate)
                },
            }
        },
        SleepEvent::Located { name, found } => if found {
            (state, panel, SleepActionView::Decode(name@))
        } else {
            (state, panel, SleepActionView::Generate)
        },
        SleepEvent::DecodeFailed => (state, panel, SleepActionView::Generate),
        SleepEvent::Ready { img, new_w, new_h } => (
            state,
            fitted(
                img@,
                panel.width as u32,
                panel.height as u32,
                state.sleep_background(),
                new_w,
                new_h,
            ),
            SleepActionView::Refresh,
        ),
    }
}

/// Draw a sleep screen image to the panel.
///
/// Starts with [`SleepEvent::Opened`]; each action that is returned has to be carried out and
/// answered with the event that tells how it went, until everything is drawn. A sleep screen
/// that was rendered ahead of time for this panel is drawn at once; else the selected image is
/// used if it can be found and decoded, and the default image otherwise.
pub fn show_sleep_screen(
    state: &mut DisplayState,
    fb: &mut Framebuffer,
    event: SleepEvent,
) -> (action: SleepAction)
    requires
        event matches SleepEvent::Ready { img, new_w, new_h } ==> fit_possible(
            img@,
            old(fb)@.width as u32,
            old(fb)@.height as u32,
            new_w,
            new_h,
        ),
    ensures
        (final(state)@, final(fb)@, action@) == sleep_step(old(state)@, old(fb)@, event),
{
    match event {
        SleepEvent::Opened => {
            let fb_w: u32 = fb.width();
            let fb_h: u32 = fb.height();
            set_screen_dimensions(state, fb_w, fb_h);
            if let Some(cached) = state.sleep_screen() {
                if cached.width() == fb_w && cached.height() == fb_h {
                    paint_image(fb, cached);
                    return SleepAction::Refresh;
                }
            }
            let selected: String = state.sleep_image_name();
            if selected.as_str().is_empty() || selected == "default".to_owned() {
                SleepAction::Generate
            } else {
                SleepAction::Locate(selected)
            }
        },
        SleepEvent::Located { name, found } => if found {
            SleepAction::Decode(name)
        } else {
            SleepAction::Generate
        },
        SleepEvent::DecodeFailed => SleepAction::Generate,
        SleepEvent::Ready { img, new_w, new_h } => {
            let bg: u8 = state.sleep_background();
            let screen = fit_to_screen(img, fb.width(), fb.height(), bg, new_w, new_h);
            paint_image(fb, &screen);
            SleepAction::Refresh
        },
    }
}

/// Of two preloads that overlap, the one that was started last decides what is kept, whichever
/// is finished first; the other is discarded.
pub proof fn law_newest_preload_wins(
    state: DisplayView,
    first_opened: Option<(u32, u32)>,
    second_opened: Option<(u32, u32)>,
    first_screen: Raster,
    second_screen: Raster,
)
    requires
        state.wf(),
        state.pre_render_generation < u32::MAX - 1,
    ensures
        ({
            let first = next_ticket(state, first_opened);
            let second = next_ticket(state.pre_render_started(), second_opened);
            let begun = state.pre_render_started().pre_render_started();
            let kept = DisplayView { sleep_screen: Some(second_screen), ..begun };
            &&& preloaded(begun, first, first_screen) == begun
            &&& preloaded(preloaded(begun, first, first_screen), second, second_screen) == kept
            &&& preloaded(preloaded(begun, second, second_screen), first, first_screen) == kept
        }),
{
}

/// A preload that was superseded leaves everything as it finds it: once a newer pre-render was
/// started, whatever else has happened since, its screen replaces nothing.
pub proof fn law_superseded_preload_changes_nothing(
    state: DisplayView,
    opened: Option<(u32, u32)>,
    later: DisplayView,
    screen: Raster,
)
    requires
        state.pre_render_generation < u32::MAX,
        later.pre_render_generation > state.pre_render_started().pre_render_generation,
    ensures
        preloaded(later, next_ticket(state, opened), screen) == later,
{
}

/// A sleep screen that was rendered ahead of time for this panel, and not superseded since, is
/// what the panel shows when the device goes to sleep.
pub proof fn law_preloaded_screen_is_shown(
    state: DisplayView,
    opened: Option<(u32, u32)>,
    screen: Raster,
    panel: Raster,
)
    requires
        state.wf(),
        state.pre_render_generation < u32::MAX,
        screen.same_size(panel),
    ensures
        ({
            let after = preloaded(state.pre_render_started(), next_ticket(state, opened), screen);
            let (_, shown, action) = sleep_step(after, panel, SleepEvent::Opened);
            shown == screen && action is Refresh
        }),
{
}

/// Rendering ahead of time changes when the work is done, not what is shown: an image that was
/// preloaded for the panel and the same image drawn when the device goes to sleep look alike.
pub proof fn law_preloading_does_not_change_the_picture(
    state: DisplayView,
    opened: Option<(u32, u32)>,
    panel: Raster,
    img: &GrayImage,
    new_w: u32,
    new_h: u32,
)
    requires
        state.wf(),
        state.pre_render_generation < u32::MAX,
        img@.wf(),
        panel.width <= u32::MAX,
        panel.height <= u32::MAX,
        state.screen_dimensions(opened) == (panel.width as u32, panel.height as u32),
    ensures
        ({
            let ticket = next_ticket(state, opened);
            let screen = fitted(
                img@,
                ticket.width,
                ticket.height,
                ticket.background,
                new_w,
                new_h,
            );
            let after = preloaded(state.pre_render_started(), ticket, screen);
            sleep_step(after, panel, SleepEvent::Opened).1 == sleep_step(
                state,
                panel,
                SleepEvent::Ready { img, new_w, new_h },
            ).1
        }),
{
}

/// After a sleep image was chosen, or the cache was cleared, a sleep screen that had been rendered
/// before is not shown: the panel stays as it is, and the chosen image is looked for, or the
/// default image drawn. Nor does a choice let a preload through that was started before it, even
/// if that is finished only afterwards.
pub proof fn law_no_stale_sleep_screen(
    state: DisplayView,
    name: Seq<char>,
    panel: Raster,
    ticket: PreloadTicket,
    screen: Raster,
)
    ensures
        ticket.generation <= state.pre_render_generation ==> preloaded(
            state.sleep_image_chosen(name),
            ticket,
            screen,
        ) == state.sleep_image_chosen(name),
        sleep_step(state.sleep_image_chosen(name), panel, SleepEvent::Opened).1 == panel,
        sleep_step(state.sleep_image_chosen(name), panel, SleepEvent::Opened).2
            == if is_custom_name(name) {
            SleepActionView::Locate(name)
        } else {
            SleepActionView::Generate
        },
        sleep_step(state.sleep_screen_forgotten(), panel, SleepEvent::Opened).1 == panel,
        !(sleep_step(state.sleep_screen_forgotten(), panel, SleepEvent::Opened).2 is Refresh),
{
}

/// A screen with an image placed on it has all its rows, and shows pixels of that image where the
/// image is placed and the background around it.
pub proof fn law_placed_shows_image_or_background(
    resized: Seq<u8>,
    screen_w: u32,
    screen_h: u32,
    bg: u8,
    new_w: u32,
    new_h: u32,
    x: int,
    y: int,
)
    requires
        new_w <= screen_w,
        new_h <= screen_h,
        resized.len() == new_w * new_h,
        0 <= x < screen_w,
        0 <= y < screen_h,
    ensures
        ({
            let screen = placed(resized, screen_w, screen_h, bg, new_w, new_h);
            &&& screen.wf()
            &&& if in_placed(screen_w, screen_h, new_w, new_h, x, y) {
                resized.contains(screen.pixel(x, y))
            } else {
                screen.pixel(x, y) == bg
            }
        }),
{
    let level = placed_level(resized, screen_w, screen_h, bg, new_w, new_h);
    crate::raster::lemma_tabulate(screen_w as nat, screen_h as nat, level);
    let left = (screen_w - new_w) / 2;
    let top = (screen_h - new_h) / 2;
    if in_placed(screen_w, screen_h, new_w, new_h, x, y) {
        crate::raster::lemma_index_in_range(new_w as int, new_h as int, x - left, y - top);
        let i = (y - top) * new_w + (x - left);
        assert(resized.contains(resized[i]));
    }
}

/// An image that already is a full screen can always be fitted again, and stays as it is,
/// whatever the background.
pub proof fn law_fitting_twice_changes_nothing(
    img: Raster,
    screen_w: u32,
    screen_h: u32,
    bg: u8,
    new_w: u32,
    new_h: u32,
    other_bg: u8,
    other_w: u32,
    other_h: u32,
)
    ensures
        ({
            let once = fitted(img, screen_w, screen_h, bg, new_w, new_h);
            &&& fit_possible(once, screen_w, screen_h, other_w, other_h)
            &&& fitted(once, screen_w, screen_h, other_bg, other_w, other_h) == once
        }),
{
}

/// An image is centred on the screen: the margins to its left and right differ by at most one
/// pixel, and so do those above and below it, with the odd pixel to the right and below. Inside
/// these margins each pixel of the image shows in its own place, and the margins show the
/// background.
pub proof fn law_placed_image_is_centred(
    resized: Seq<u8>,
    screen_w: u32,
    screen_h: u32,
    bg: u8,
    new_w: u32,
    new_h: u32,
    left: int,
    top: int,
    x: int,
    y: int,
)
    requires
        new_w <= screen_w,
        new_h <= screen_h,
        0 <= (screen_w - new_w - left) - left <= 1,
        0 <= (screen_h - new_h - top) - top <= 1,
        0 <= x < screen_w,
        0 <= y < screen_h,
    ensures
        ({
            let screen = placed(resized, screen_w, screen_h, bg, new_w, new_h);
            let (i, j) = (x - left, y - top);
            let on_image = 0 <= i < new_w && 0 <= j < new_h;
            &&& screen.width == screen_w
            &&& screen.height == screen_h
            &&& on_image ==> screen.pixel(x, y) == resized[j * new_w + i]
            &&& !on_image ==> screen.pixel(x, y) == bg
            &&& in_placed(screen_w, screen_h, new_w, new_h, x, y) <==> on_image
        }),
{
    let level = placed_level(resized, screen_w, screen_h, bg, new_w, new_h);
    crate::raster::lemma_tabulate(screen_w as nat, screen_h as nat, level);
    assert(level(x, y) == placed(resized, screen_w, screen_h, bg, new_w, new_h).pixel(x, y));
}

/// An image that has the screen's size is shown as it is. Any other is resized, as a whole, to the
/// size it has on the screen, and centred there, with the background around it.
pub proof fn law_fitted_image_is_resized_and_centred(
    img: Raster,
    screen_w: u32,
    screen_h: u32,
    bg: u8,
    new_w: u32,
    new_h: u32,
    left: int,
    top: int,
    x: int,
    y: int,
)
    requires
        img.width <= u32::MAX,
        img.height <= u32::MAX,
        new_w <= screen_w,
        new_h <= screen_h,
        0 <= (screen_w - new_w - left) - left <= 1,
        0 <= (screen_h - new_h - top) - top <= 1,
        0 <= x < screen_w,
        0 <= y < screen_h,
    ensures
        ({
            let screen = fitted(img, screen_w, screen_h, bg, new_w, new_h);
            let resized = nearest_resized(
                img.pixels,
                img.width as u32,
                img.height as u32,
                new_w,
                new_h,
            );
            let (i, j) = (x - left, y - top);
            let on_image = 0 <= i < new_w && 0 <= j < new_h;
            let full_screen = img.width == screen_w && img.height == screen_h;
            &&& screen.width == screen_w
            &&& screen.height == screen_h
            &&& full_screen ==> screen == img
            &&& !full_screen && on_image ==> screen.pixel(x, y) == resized[j * new_w + i]
            &&& !full_screen && !on_image ==> screen.pixel(x, y) == bg
        }),
{
    law_placed_image_is_centred(
        nearest_resized(img.pixels, img.width as u32, img.height as u32, new_w, new_h),
        screen_w,
        screen_h,
        bg,
        new_w,
        new_h,
        left,
        top,
        x,
        y,
    );
}

/// An image that does not stick out of the screen can be fitted, whatever its size, unless
/// something is too large for memory; nothing of up to 8192 pixels a side is. One that sticks out
/// cannot, unless it already is the full screen.
pub proof fn law_images_of_usual_size_can_be_fitted(
    img: Raster,
    screen_w: u32,
    screen_h: u32,
    new_w: u32,
    new_h: u32,
)
    ensures
        img.width <= 8192 && img.height <= 8192 && screen_w <= 8192 && screen_h <= 8192 && new_w
            <= screen_w && new_h <= screen_h ==> fit_possible(
            img,
            screen_w,
            screen_h,
            new_w,
            new_h,
        ),
        img.width == screen_w && img.height == screen_h ==> fit_possible(
            img,
            screen_w,
            screen_h,
            new_w,
            new_h,
        ),
        fit_possible(img, screen_w, screen_h, new_w, new_h) ==> (img.width == screen_w && img.height
            == screen_h) || (new_w <= screen_w && new_h <= screen_h),
{
    if img.width <= 8192 && img.height <= 8192 && screen_w <= 8192 && screen_h <= 8192 && new_w
        <= screen_w && new_h <= screen_h {
        let width = img.width as u32;
        assert(screen_w * screen_h <= 8192 * 8192) by (nonlinear_arith)
            requires
                0 <= screen_w <= 8192,
                0 <= screen_h <= 8192,
        ;
        assert(new_w * new_h <= 8192 * 8192) by (nonlinear_arith)
            requires
                0 <= new_w <= 8192,
                0 <= new_h <= 8192,
        ;
        assert(width * new_h <= 8192 * 8192) by (nonlinear_arith)
            requires
                0 <= width <= 8192,
                0 <= new_h <= 8192,
        ;
    }
}

/// The default sleep image is black but for the stars and for what the cutout leaves of the moon,
/// which are white.
pub proof fn law_night_sky_shows_crescent_and_stars(
    width: u32,
    height: u32,
    sky: Seq<SkyPixel>,
    x: int,
    y: int,
)
    requires
        sky.len() == width * height,
        0 <= x < width,
        0 <= y < height,
    ensures
        ({
            let img = default_sleep_image(width, height, sky);
            let place = sky[y * width + x];
            &&& img.wf()
            &&& img.width == width
            &&& img.height == height
            &&& img.pixel(x, y) == 255 || img.pixel(x, y) == 0
            &&& place.in_star ==> img.pixel(x, y) == 255
            &&& place.in_moon && !place.in_cutout ==> img.pixel(x, y) == 255
            &&& !place.in_star && !place.in_moon ==> img.pixel(x, y) == 0
            &&& !place.in_star && place.in_cutout ==> img.pixel(x, y) == 0
        }),
{
    crate::raster::lemma_index_in_range(width as int, height as int, x, y);
}

/// A ticket is newer than every one before it, is for the panel's size, and keeps the background
/// that is chosen when it is issued.
pub proof fn law_tickets_are_for_the_screen(state: DisplayView, opened: Option<(u32, u32)>)
    requires
        state.pre_render_generation < u32::MAX,
    ensures
        ({
            let ticket = next_ticket(state, opened);
            let was_set = state.screen_width != 0 && state.screen_height != 0;
            &&& ticket.generation == state.pre_render_generation + 1
            &&& was_set ==> ticket.width == state.screen_width && ticket.height
                == state.screen_height
            &&& !was_set && opened is Some ==> (ticket.width, ticket.height) == opened->0
            &&& !was_set && opened is None ==> ticket.width == 1072 && ticket.height == 1448
            &&& ticket.background == (if state.sleep_background_white {
                255u8
            } else {
                0u8
            })
        }),
{
}

/// Handing in a sleep screen changes nothing but the sleep screen: if the ticket is the newest and
/// no sleep image was chosen since it was issued, exactly the screen that was handed in is kept,
/// else the one before stays.
pub proof fn law_handed_in_screen_is_kept_or_dropped(
    state: DisplayView,
    ticket: PreloadTicket,
    screen: Raster,
)
    ensures
        ({
            let after = preloaded(state, ticket, screen);
            let good = ticket.generation == state.pre_render_generation && ticket.generation
                > state.stale_generation;
            &&& good ==> after.sleep_screen == Some(screen)
            &&& !good ==> after.sleep_screen == state.sleep_screen
            &&& state == (DisplayView { sleep_screen: state.sleep_screen, ..after })
        }),
{
}

/// Showing a sleep screen remembers the panel's size when the panel is opened, and changes nothing
/// else of what the application has set.
pub proof fn law_showing_remembers_only_the_panel_size(
    state: DisplayView,
    panel: Raster,
    event: SleepEvent,
)
    requires
        panel.width <= u32::MAX,
        panel.height <= u32::MAX,
    ensures
        ({
            let after = sleep_step(state, panel, event).0;
            &&& event is Opened ==> after.screen_width == panel.width && after.screen_height
                == panel.height
            &&& event is Opened ==> state == (DisplayView {
                screen_width: state.screen_width,
                screen_height: state.screen_height,
                ..after
            })
            &&& !(event is Opened) ==> after == state
        }),
{
}

/// A sleep screen that was rendered ahead of time is shown at once if it has the panel's size.
/// Otherwise the panel stays as it is, and the file of the chosen name is looked for, unless there
/// is no name or it is "default": then the default image is drawn.
pub proof fn law_opened_panel_shows_what_is_ready(state: DisplayView, panel: Raster)
    ensures
        ({
            let (_, shown, action) = sleep_step(state, panel, SleepEvent::Opened);
            let ready = state.sleep_screen is Some && (state.sleep_screen->0).width == panel.width
                && (state.sleep_screen->0).height == panel.height;
            let name = state.sleep_image_name;
            &&& ready ==> state.sleep_screen == Some(shown) && action == SleepActionView::Refresh
            &&& !ready ==> shown == panel
            &&& !ready && (name.len() == 0 || name == "default"@) ==> action
                == SleepActionView::Generate
            &&& !ready && name.len() > 0 && name != "default"@ ==> action
                == SleepActionView::Locate(name)
        }),
{
}

/// The file that was looked for is decoded if it was found. If it was not, or cannot be decoded,
/// the default image takes its place. Until an image is ready, the panel stays as it is.
pub proof fn law_default_image_takes_the_place_of_a_missing_one(
    state: DisplayView,
    panel: Raster,
    name: String,
    found: bool,
)
    ensures
        ({
            let (_, shown, action) = sleep_step(state, panel, SleepEvent::Located { name, found });
            &&& shown == panel
            &&& found ==> action == SleepActionView::Decode(name@)
            &&& !found ==> action == SleepActionView::Generate
        }),
        sleep_step(state, panel, SleepEvent::DecodeFailed).1 == panel,
        sleep_step(state, panel, SleepEvent::DecodeFailed).2 == SleepActionView::Generate,
{
}

/// An image that is ready is shown at once: fitted to the panel, on the chosen background.
pub proof fn law_ready_image_is_shown_on_the_panel(
    state: DisplayView,
    panel: Raster,
    img: &GrayImage,
    new_w: u32,
    new_h: u32,
)
    requires
        panel.width <= u32::MAX,
        panel.height <= u32::MAX,
    ensures
        ({
            let (_, shown, action) = sleep_step(
                state,
                panel,
                SleepEvent::Ready { img, new_w, new_h },
            );
            &&& action == SleepActionView::Refresh
            &&& forall|screen_w: u32, screen_h: u32, bg: u8|
                screen_w == panel.width && screen_h == panel.height && (bg == 255
                    <==> state.sleep_background_white) && (bg == 255 || bg == 0) ==> shown
                    == #[trigger] fitted(img@, screen_w, screen_h, bg, new_w, new_h)
        }),
{
}

/// An action says what it is, and of which file.
pub proof fn law_actions_say_what_they_are(action: SleepAction)
    ensures
        action@ is Locate <==> action is Locate,
        action@ is Decode <==> action is Decode,
        action@ is Generate <==> action is Generate,
        action@ is Refresh <==> action is Refresh,
        action matches SleepAction::Locate(name) ==> action@ == SleepActionView::Locate(name@),
        action matches SleepAction::Decode(name) ==> action@ == SleepActionView::Decode(name@),
{
}

} // verus!
