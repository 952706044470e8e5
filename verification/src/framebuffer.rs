//! The panel's pixels, as they are drawn before the panel is told to refresh.

use vstd::prelude::*;

use crate::raster::{GrayImage, Raster};

verus! {

/// The pixels of the panel. Row 0 is at the top and column 0 at the left of the panel as it is
/// mounted, whatever way the device is held.
pub struct Framebuffer {
    canvas: GrayImage,
}

impl View for Framebuffer {
    type V = Raster;

    closed spec fn view(&self) -> Raster {
        self.canvas@
    }
}

impl Framebuffer {
    /// A white panel.
    pub fn new(width: u32, height: u32) -> (fb: Self)
        requires
            width * height <= isize::MAX,
        ensures
            fb@.wf(),
            fb@.width == width,
            fb@.height == height,
            forall|x: int, y: int| fb@.has(x, y) ==> #[trigger] fb@.pixel(x, y) == 0xff,
    {
        Framebuffer { canvas: GrayImage::from_pixel(width, height, 0xff) }
    }

    pub fn width(&self) -> (width: u32)
        ensures
            width == self@.width,
            self@.wf(),
    {
        self.canvas.width()
    }

    pub fn height(&self) -> (height: u32)
        ensures
            height == self@.height,
            self@.wf(),
    {
        self.canvas.height()
    }

    /// All pixels, row after row.
    pub fn pixels(&self) -> (pixels: &Vec<u8>)
        ensures
            pixels@ == self@.pixels,
            self@.wf(),
    {
        self.canvas.as_raw()
    }

    /// Sets one pixel.
    pub fn write_pixel(&mut self, x: usize, y: usize, value: u8)
        requires
            old(self)@.has(x as int, y as int),
        ensures
            final(self)@.wf(),
            final(self)@.same_size(old(self)@),
            forall|px: int, py: int|
                old(self)@.has(px, py) ==> #[trigger] final(self)@.pixel(px, py) == if px == x
                    && py == y {
                    value
                } else {
                    old(self)@.pixel(px, py)
                },
    {
        let width: u32 = self.canvas.width();
        let height: u32 = self.canvas.height();
        assert(x < width && y < height);
        self.canvas.put_pixel(x as u32, y as u32, value);
    }

    /// Sets every pixel.
    pub fn fill(&mut self, value: u8)
        ensures
            final(self)@.wf(),
            final(self)@.same_size(old(self)@),
            forall|x: int, y: int|
                final(self)@.has(x, y) ==> #[trigger] final(self)@.pixel(x, y) == value,
    {
        let width: usize = self.canvas.width() as usize;
        let height: usize = self.canvas.height() as usize;
        let row: Vec<u8> = vec![value; width];
        let mut y: usize = 0;
        while y < height
            invariant
                y <= height,
                width == old(self)@.width,
                height == old(self)@.height,
                row@.len() == width,
                forall|i: int| 0 <= i < width ==> row@[i] == value,
                self@.wf(),
                self@.same_size(old(self)@),
                forall|px: int, py: int|
                    self@.has(px, py) && py < y ==> #[trigger] self@.pixel(px, py) == value,
            decreases height - y,
        {
            self.write_line(y, 0, row.as_slice());
            y = y + 1;
        }
    }

    /// Sets the pixels of row `row` from column `start` on.
    pub fn write_line(&mut self, row: usize, start: usize, pixels: &[u8])
        requires
            row < old(self)@.height,
            start + pixels@.len() <= old(self)@.width,
        ensures
            final(self)@.wf(),
            final(self)@.same_size(old(self)@),
            forall|px: int, py: int|
                old(self)@.has(px, py) ==> #[trigger] final(self)@.pixel(px, py) == if py == row
                    && start <= px < start + pixels@.len() {
                    pixels@[px - start]
                } else {
                    old(self)@.pixel(px, py)
                },
    {
        let width: u32 = self.canvas.width();
        let mut i: usize = 0;
        while i < pixels.len()
            invariant
                i <= pixels@.len(),
                row < old(self)@.height,
                width == old(self)@.width,
                start + pixels@.len() <= width,
                self@.wf(),
                self@.same_size(old(self)@),
                forall|px: int, py: int|
                    old(self)@.has(px, py) ==> #[trigger] self@.pixel(px, py) == if py == row
                        && start <= px < start + i {
                        pixels@[px - start]
                    } else {
                        old(self)@.pixel(px, py)
                    },
            decreases pixels@.len() - i,
        {
            self.write_pixel(start + i, row, pixels[i]);
            i = i + 1;
        }
    }
}

} // verus!
