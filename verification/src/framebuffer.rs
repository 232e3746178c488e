//! The framebuffer as the kernel draws in it: a buffer of pixels in memory,
//! which the caller copies to the display.

use vstd::prelude::*;
use crate::display::ModeInfo;

verus! {

/// A colour with eight bits each of red, green and blue.
#[derive(Clone, Copy, Debug, PartialEq, Eq, Structural)]
pub struct Color {
    pub r: u8,
    pub g: u8,
    pub b: u8,
}

impl Color {
    /// The pixel value of the colour: red in bits 16 to 23, green in bits 8 to
    /// 15, blue in bits 0 to 7.
    pub open spec fn storage(self) -> u32 {
        (self.r * 0x1_0000 + self.g * 0x100 + self.b) as u32
    }

    /// Black.
    pub fn black() -> (color: Color)
        ensures
            color == (Color { r: 0, g: 0, b: 0 }),
    {
        Color { r: 0, g: 0, b: 0 }
    }

    /// White.
    pub fn white() -> (color: Color)
        ensures
            color == (Color { r: 255, g: 255, b: 255 }),
    {
        Color { r: 255, g: 255, b: 255 }
    }
}

/// `IntoStorage::into_storage` of an `Rgb888` packs the three channels into
/// one integer, red highest: `0x00RRGGBB`.
#[verifier::external_body]
fn into_storage(color: Color) -> (pixel: u32)
    ensures
        pixel == color.storage(),
{
    embedded_graphics_core::pixelcolor::IntoStorage::into_storage(
        embedded_graphics_core::pixelcolor::Rgb888::new(color.r, color.g, color.b),
    )
}

/// A buffer of pixels with the geometry of a display mode: line after line,
/// each `stride` pixels long.
pub struct FramebufferDisplay {
    mode: ModeInfo,
    buffer: Vec<u32>,
}

impl View for FramebufferDisplay {
    type V = Seq<u32>;

    closed spec fn view(&self) -> Seq<u32> {
        self.buffer@
    }
}

/// The pixels after the picture is moved up by `high` pixels: what was at
/// `high` is now first. Of the pixels below the part that moved, those before
/// `high - 1` take the background and the others stay as they are.
pub open spec fn scrolled(pixels: Seq<u32>, high: int, bg: u32) -> Seq<u32> {
    Seq::new(
        pixels.len(),
        |i: int|
            if i < pixels.len() - high {
                pixels[i + high]
            } else if i < high - 1 {
                bg
            } else {
                pixels[i]
            },
    )
}

impl FramebufferDisplay {
    /// The geometry of the buffer.
    pub closed spec fn geometry(self) -> ModeInfo {
        self.mode
    }

    /// Whether the buffer has one pixel for every position of its geometry.
    pub open spec fn wf(self) -> bool {
        self@.len() == self.geometry().height * self.geometry().stride
    }

    /// A buffer for `mode`, all pixels 0. There is none if the number of
    /// pixels cannot be counted.
    pub fn new(mode: ModeInfo) -> (result: Option<FramebufferDisplay>)
        ensures
            result is Some <==> mode.height * mode.stride <= usize::MAX,
            result matches Some(display) ==> display.wf() && display.geometry() == mode && forall|
                i: int,
            | 0 <= i < display@.len() ==> display@[i] == 0,
    {
        match mode.height.checked_mul(mode.stride) {
            Some(size) => Some(FramebufferDisplay { mode, buffer: vec![0u32; size] }),
            None => None,
        }
    }

    /// The geometry of the buffer.
    pub fn mode(&self) -> (mode: ModeInfo)
        ensures
            mode == self.geometry(),
    {
        self.mode
    }

    /// The pixels, for the caller to copy to the display.
    pub fn pixels(&self) -> (pixels: &Vec<u32>)
        ensures
            pixels@ == self@,
    {
        &self.buffer
    }

    /// Gives every pixel the colour `color`.
    pub fn fill(&mut self, color: Color)
        ensures
            final(self)@.len() == old(self)@.len(),
            final(self).geometry() == old(self).geometry(),
            forall|i: int| 0 <= i < final(self)@.len() ==> final(self)@[i] == color.storage(),
    {
        let pixel = into_storage(color);
        let len = self.buffer.len();
        let mut index: usize = 0;
        while index < len
            invariant
                len == self.buffer@.len(),
                len == old(self)@.len(),
                self.mode == old(self).mode,
                index <= len,
                forall|i: int| 0 <= i < index ==> self.buffer@[i] == pixel,
            decreases len - index,
        {
            self.buffer.set(index, pixel);
            index += 1;
        }
    }

    /// Gives the pixel at `pos` the colour `color`.
    pub fn write(&mut self, pos: usize, color: Color)
        requires
            pos < old(self)@.len(),
        ensures
            final(self)@ == old(self)@.update(pos as int, color.storage()),
            final(self).geometry() == old(self).geometry(),
    {
        let pixel = into_storage(color);
        self.buffer.set(pos, pixel);
    }

    /// Moves the picture up by `height` lines.
    pub fn scroll_up(&mut self, height: usize, bg: Color)
        requires
            old(self).wf(),
            0 < height <= old(self).geometry().height,
            0 < old(self).geometry().stride,
        ensures
            final(self).wf(),
            final(self).geometry() == old(self).geometry(),
            final(self)@ == scrolled(
                old(self)@,
                old(self).geometry().stride * height,
                bg.storage(),
            ),
    {
        let pixel = into_storage(bg);
        let stride = self.mode.stride;
        let len = self.buffer.len();
        assert(stride * height <= len) by (nonlinear_arith)
            requires
                0 < height <= self.mode.height,
                len == self.mode.height * stride,
                0 <= stride,
        ;
        assert(stride * height >= 1) by (nonlinear_arith)
            requires
                0 < height,
                0 < stride,
        ;
        let high = stride * height;
        let mut index: usize = 0;
        while index < high - 1
            invariant
                0 < high <= len,
                len == self.buffer@.len(),
                len == old(self)@.len(),
                self.mode == old(self).mode,
                index <= high - 1,
                forall|i: int| 0 <= i < index ==> self.buffer@[i] == pixel,
                forall|i: int| index <= i < len ==> self.buffer@[i] == old(self)@[i],
            decreases high - 1 - index,
        {
            self.buffer.set(index, pixel);
            index += 1;
        }
        index = 0;
        while index < len - high
            invariant
                0 < high <= len,
                len == self.buffer@.len(),
                len == old(self)@.len(),
                self.mode == old(self).mode,
                index <= len - high,
                forall|i: int| 0 <= i < index ==> self.buffer@[i] == old(self)@[i + high],
                forall|i: int|
                    index <= i < len ==> self.buffer@[i] == if i < high - 1 {
                        pixel
                    } else {
                        old(self)@[i]
                    },
            decreases len - high - index,
        {
            let moved = self.buffer[index + high];
            self.buffer.set(index, moved);
            index += 1;
        }
        assert(self@ =~= scrolled(old(self)@, high as int, pixel));
    }
}

impl FramebufferDisplay {
    /// Whether the picture can be moved up by `height` lines: the buffer has a
    /// pixel for every position, and the display has that many lines of at
    /// least one pixel.
    pub open spec fn can_scroll(self, height: usize) -> bool {
        &&& self.wf()
        &&& 0 < height <= self.geometry().height
        &&& 0 < self.geometry().stride
    }

    /// Moves the picture up by `height` lines if that can be done, and tells
    /// whether it was.
    pub fn try_scroll_up(&mut self, height: usize, bg: Color) -> (scrolled_up: bool)
        ensures
            scrolled_up == old(self).can_scroll(height),
            final(self).geometry() == old(self).geometry(),
            final(self)@ == if old(self).can_scroll(height) {
                scrolled(old(self)@, old(self).geometry().stride * height, bg.storage())
            } else {
                old(self)@
            },
    {
        let len = self.buffer.len();
        let whole = match self.mode.height.checked_mul(self.mode.stride) {
            Some(size) => size == len,
            None => false,
        };
        if whole && 0 < height && height <= self.mode.height && 0 < self.mode.stride {
            self.scroll_up(height, bg);
            true
        } else {
            false
        }
    }
}

} // verus!
