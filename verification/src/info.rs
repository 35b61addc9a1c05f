//! The description of a pixel buffer: its geometry and its byte layout.

use vstd::prelude::*;

verus! {

/// How the bytes of one pixel encode its colour.
#[derive(Clone, Copy, Debug, PartialEq, Eq, Structural)]
pub enum PixelFormat {
    /// One byte red, one byte green, one byte blue.
    RGB8,
    /// One byte blue, one byte green, one byte red.
    BGR8,
    /// A single byte of brightness.
    Grayscale8,
    /// A layout that this library does not know; nothing is ever stored in it.
    Unsupported,
}

impl PixelFormat {
    /// How many leading bytes of a pixel carry colour.
    pub open spec fn channels(self) -> int {
        match self {
            PixelFormat::RGB8 => 3,
            PixelFormat::BGR8 => 3,
            PixelFormat::Grayscale8 => 1,
            PixelFormat::Unsupported => 0,
        }
    }

    /// Whether a pixel can be stored in this layout.
    pub open spec fn is_supported(self) -> bool {
        self != PixelFormat::Unsupported
    }

    pub fn channel_count(self) -> (n: usize)
        ensures
            n == self.channels(),
    {
        match self {
            PixelFormat::RGB8 => 3,
            PixelFormat::BGR8 => 3,
            PixelFormat::Grayscale8 => 1,
            PixelFormat::Unsupported => 0,
        }
    }
}

/// Geometry and pixel layout of a buffer, fixed once the hardware is known.
#[derive(Clone, Copy, Debug, PartialEq, Eq, Structural)]
pub struct FrameBufferInfo {
    /// Visible pixels per row.
    pub horizontal_resolution: usize,
    /// Visible rows.
    pub vertical_resolution: usize,
    /// Pixel slots per row, padding included.
    pub stride: usize,
    /// Bytes that one pixel slot takes.
    pub bytes_per_pixel: usize,
    pub pixel_format: PixelFormat,
}

impl FrameBufferInfo {
    /// A row is at least as long as its visible part, and a pixel slot is one,
    /// three or four bytes wide and holds every channel of the format.
    pub open spec fn wf(&self) -> bool {
        &&& self.stride >= self.horizontal_resolution
        &&& (self.bytes_per_pixel == 1 || self.bytes_per_pixel == 3 || self.bytes_per_pixel == 4)
        &&& self.bytes_per_pixel >= self.pixel_format.channels()
    }

    /// The number of bytes that all rows take together.
    pub open spec fn byte_len(&self) -> int {
        self.stride * self.vertical_resolution * self.bytes_per_pixel
    }

    /// Whether column `x` of row `y` is visible.
    pub open spec fn contains(&self, x: int, y: int) -> bool {
        0 <= x < self.horizontal_resolution && 0 <= y < self.vertical_resolution
    }

    /// Where the first byte of the pixel in column `x` of row `y` lies.
    pub open spec fn offset_at(&self, x: int, y: int) -> int {
        (y * self.stride + x) * self.bytes_per_pixel
    }

    /// The byte offset of a visible pixel, and nothing for any other position.
    pub open spec fn offset_of(&self, x: int, y: int) -> Option<int> {
        if self.contains(x, y) {
            Some(self.offset_at(x, y))
        } else {
            None
        }
    }

    /// Tests the invariant of a description.
    pub fn is_valid(&self) -> (valid: bool)
        ensures
            valid == self.wf(),
    {
        self.stride >= self.horizontal_resolution && (self.bytes_per_pixel == 1
            || self.bytes_per_pixel == 3 || self.bytes_per_pixel == 4) && self.bytes_per_pixel
            >= self.pixel_format.channel_count()
    }

    /// The least length of a buffer that this description fits, where an index
    /// can hold it.
    pub fn required_len(&self) -> (len: Option<usize>)
        ensures
            match len {
                Some(n) => n == self.byte_len(),
                None => self.byte_len() > usize::MAX,
            },
    {
        match self.stride.checked_mul(self.vertical_resolution) {
            Some(slots) => {
                match slots.checked_mul(self.bytes_per_pixel) {
                    Some(n) => Some(n),
                    None => None,
                }
            },
            None => {
                if self.bytes_per_pixel == 0 {
                    Some(0)
                } else {
                    proof {
                        assert(self.stride * self.vertical_resolution * self.bytes_per_pixel
                            >= self.stride * self.vertical_resolution) by (nonlinear_arith)
                            requires
                                self.bytes_per_pixel >= 1,
                                self.stride * self.vertical_resolution >= 0,
                        ;
                    }
                    None
                }
            },
        }
    }
}

/// Every byte of a visible pixel lies inside a buffer of `byte_len` bytes.
pub proof fn pixel_within_buffer(info: FrameBufferInfo, x: int, y: int)
    requires
        info.wf(),
        info.contains(x, y),
    ensures
        0 <= info.offset_at(x, y),
        info.offset_at(x, y) + info.bytes_per_pixel <= info.byte_len(),
        info.offset_at(x, y) < info.byte_len(),
{
    let s = info.stride as int;
    let h = info.vertical_resolution as int;
    let b = info.bytes_per_pixel as int;
    assert(y * s + x + 1 <= h * s) by (nonlinear_arith)
        requires
            0 <= x < s,
            0 <= y < h,
    ;
    assert(0 <= y * s + x) by (nonlinear_arith)
        requires
            0 <= x,
            0 <= y,
            0 <= s,
    ;
    assert((y * s + x) * b + b <= (s * h) * b) by (nonlinear_arith)
        requires
            y * s + x + 1 <= h * s,
            b >= 1,
    ;
    assert(0 <= (y * s + x) * b) by (nonlinear_arith)
        requires
            0 <= y * s + x,
            b >= 1,
    ;
}

/// Two different visible pixels share no byte: the slot of one ends before
/// the slot of the other begins.
pub proof fn pixels_do_not_overlap(info: FrameBufferInfo, x1: int, y1: int, x2: int, y2: int)
    requires
        info.wf(),
        info.contains(x1, y1),
        info.contains(x2, y2),
        x1 != x2 || y1 != y2,
    ensures
        info.offset_at(x1, y1) + info.bytes_per_pixel <= info.offset_at(x2, y2) || info.offset_at(
            x2,
            y2,
        ) + info.bytes_per_pixel <= info.offset_at(x1, y1),
{
    let s = info.stride as int;
    let b = info.bytes_per_pixel as int;
    let slot1 = y1 * s + x1;
    let slot2 = y2 * s + x2;
    if y1 < y2 {
        assert(slot1 + 1 <= slot2) by (nonlinear_arith)
            requires
                slot1 == y1 * s + x1,
                slot2 == y2 * s + x2,
                0 <= x1 < s,
                0 <= x2,
                y1 + 1 <= y2,
        ;
    } else if y2 < y1 {
        assert(slot2 + 1 <= slot1) by (nonlinear_arith)
            requires
                slot1 == y1 * s + x1,
                slot2 == y2 * s + x2,
                0 <= x2 < s,
                0 <= x1,
                y2 + 1 <= y1,
        ;
    }
    if slot1 < slot2 {
        assert(slot1 * b + b <= slot2 * b) by (nonlinear_arith)
            requires
                slot1 + 1 <= slot2,
                b >= 0,
        ;
    } else {
        assert(slot2 < slot1);
        assert(slot2 * b + b <= slot1 * b) by (nonlinear_arith)
            requires
                slot2 + 1 <= slot1,
                b >= 0,
        ;
    }
}

} // verus!
