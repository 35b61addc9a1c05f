//! The writer: bounds-checked, layout-correct pixel stores into one buffer.

use vstd::prelude::*;
use core::ops::Range;
use crate::info::{pixel_within_buffer, pixels_do_not_overlap, FrameBufferInfo, PixelFormat};
use crate::pixelwriter::{encoded, overwrite, pixel_writer, PixelWrite};
use crate::point::Coordinate;

pub use crate::color::Color;
pub use crate::point::Point;

verus! {

impl FrameBufferInfo {
    /// What a buffer holds after `c` has been written to column `x` of row
    /// `y`: the colour's bytes at the pixel's offset where the pixel is
    /// visible, and the buffer as it was where it is not.
    pub open spec fn painted(&self, bytes: Seq<u8>, x: int, y: int, c: Color) -> Seq<u8> {
        if self.contains(x, y) {
            overwrite(bytes, self.offset_at(x, y), encoded(self.pixel_format, c))
        } else {
            bytes
        }
    }

    /// Whether a write to column `x` of row `y` stores anything.
    pub open spec fn paints(&self, x: int, y: int) -> bool {
        self.contains(x, y) && self.pixel_format.is_supported()
    }

    /// The byte offset of the pixel at `p`, or nothing where `p` is not a
    /// visible pixel.
    pub fn pixel_index<T: Coordinate>(&self, p: Point<T>) -> (offset: Option<usize>)
        requires
            self.wf(),
            self.byte_len() <= usize::MAX,
        ensures
            match offset {
                Some(o) => self.offset_of(p.x.position(), p.y.position()) == Some(o as int),
                None => self.offset_of(p.x.position(), p.y.position()) is None,
            },
            offset is Some ==> offset.unwrap() < self.byte_len() && offset.unwrap()
                + self.bytes_per_pixel <= self.byte_len(),
    {
        let x: usize = match p.x.to_index() {
            Some(x) => x,
            None => {
                return None;
            },
        };
        let y: usize = match p.y.to_index() {
            Some(y) => y,
            None => {
                return None;
            },
        };
        if x >= self.horizontal_resolution || y >= self.vertical_resolution {
            return None;
        }
        proof {
            pixel_within_buffer(*self, x as int, y as int);
            assert(0 <= y * self.stride + x <= (y * self.stride + x) * self.bytes_per_pixel)
                by (nonlinear_arith)
                requires
                    self.bytes_per_pixel >= 1,
                    0 <= y,
                    0 <= x,
                    0 <= self.stride,
            ;
        }
        Some((y * self.stride + x) * self.bytes_per_pixel)
    }

    /// Writes `c` to the pixel at `p` in `buf`. A position that is not a
    /// visible pixel, or a layout that is not supported, leaves `buf` as it
    /// was and gives `false`.
    pub fn write_pixel<T: Coordinate>(&self, buf: &mut [u8], p: Point<T>, c: Color) -> (written:
        bool)
        requires
            self.wf(),
            self.byte_len() <= old(buf)@.len(),
        ensures
            written == self.paints(p.x.position(), p.y.position()),
            final(buf)@ == self.painted(old(buf)@, p.x.position(), p.y.position(), c),
            !written ==> final(buf)@ == old(buf)@,
    {
        proof {
            assert(buf.len() == buf@.len());
        }
        let index: usize = match self.pixel_index(p) {
            Some(i) => i,
            None => {
                return false;
            },
        };
        pixel_writer(self.pixel_format).write_pixel(buf, index, c)
    }
}

/// The one owner of a pixel buffer, together with the buffer's description.
pub struct FrameBufferWriter {
    info: FrameBufferInfo,
    buffer: Vec<u8>,
}

impl FrameBufferWriter {
    /// The description that this writer was made with.
    pub closed spec fn info_spec(&self) -> FrameBufferInfo {
        self.info
    }

    /// The bytes of the buffer.
    pub closed spec fn bytes(&self) -> Seq<u8> {
        self.buffer@
    }

    /// The description is valid and the buffer holds every row of it.
    pub open spec fn wf(&self) -> bool {
        self.info_spec().wf() && self.info_spec().byte_len() <= self.bytes().len()
    }

    /// Takes ownership of `buffer`. Refuses a description that is not valid
    /// and a buffer too short for it.
    pub fn new(buffer: Vec<u8>, info: FrameBufferInfo) -> (writer: Option<Self>)
        ensures
            writer is Some <==> (info.wf() && info.byte_len() <= buffer@.len()),
            writer is Some ==> writer.unwrap().wf() && writer.unwrap().info_spec() == info
                && writer.unwrap().bytes() == buffer@,
    {
        proof {
            assert(buffer.len() == buffer@.len());
        }
        if !info.is_valid() {
            return None;
        }
        match info.required_len() {
            Some(n) => {
                if n <= buffer.len() {
                    Some(Self { info, buffer })
                } else {
                    None
                }
            },
            None => None,
        }
    }

    /// The description of the buffer.
    pub fn info(&self) -> (info: &FrameBufferInfo)
        ensures
            *info == self.info_spec(),
    {
        &self.info
    }

    /// The buffer as it stands.
    pub fn buffer(&self) -> (bytes: &[u8])
        ensures
            bytes@ == self.bytes(),
    {
        self.buffer.as_slice()
    }

    /// The visible columns.
    pub fn width(&self) -> (columns: Range<usize>)
        ensures
            columns.start == 0,
            columns.end == self.info_spec().horizontal_resolution,
    {
        0..self.info.horizontal_resolution
    }

    /// The visible rows.
    pub fn height(&self) -> (rows: Range<usize>)
        ensures
            rows.start == 0,
            rows.end == self.info_spec().vertical_resolution,
    {
        0..self.info.vertical_resolution
    }

    /// The byte offset of the pixel at `p`, or nothing where `p` is not a
    /// visible pixel. An offset leaves room for the whole pixel in the buffer.
    pub fn pixel_index<T: Coordinate>(&self, p: Point<T>) -> (offset: Option<usize>)
        requires
            self.wf(),
        ensures
            match offset {
                Some(o) => self.info_spec().offset_of(p.x.position(), p.y.position()) == Some(
                    o as int,
                ),
                None => self.info_spec().offset_of(p.x.position(), p.y.position()) is None,
            },
            offset is Some ==> offset.unwrap() < self.bytes().len() && offset.unwrap()
                + self.info_spec().bytes_per_pixel <= self.bytes().len(),
    {
        proof {
            assert(self.buffer.len() == self.buffer@.len());
        }
        self.info.pixel_index(p)
    }

    /// Writes `c` to the pixel at `p`. A position that is not a visible
    /// pixel, or a layout that is not supported, changes nothing and gives
    /// `false`.
    pub fn write_pixel<T: Coordinate>(&mut self, p: Point<T>, c: Color) -> (written: bool)
        requires
            old(self).wf(),
        ensures
            final(self).wf(),
            final(self).info_spec() == old(self).info_spec(),
            written == old(self).info_spec().paints(p.x.position(), p.y.position()),
            final(self).bytes() == old(self).info_spec().painted(
                old(self).bytes(),
                p.x.position(),
                p.y.position(),
                c,
            ),
            !written ==> final(self).bytes() == old(self).bytes(),
    {
        let info = self.info;
        info.write_pixel(self.buffer.as_mut_slice(), p, c)
    }
}

/// A visible pixel's bytes can be read back as they were written: the
/// buffer keeps its length, holds the colour's encoding from the pixel's
/// offset on (red, green, blue in that order for `RGB8`; blue, green, red for
/// `BGR8`), and every byte outside the encoding is what it was.
pub proof fn painted_reads_back(info: FrameBufferInfo, bytes: Seq<u8>, x: int, y: int, c: Color)
    requires
        info.wf(),
        info.byte_len() <= bytes.len(),
        info.contains(x, y),
    ensures
        ({
            let at = info.offset_at(x, y);
            let after = info.painted(bytes, x, y, c);
            let code = encoded(info.pixel_format, c);
            &&& after.len() == bytes.len()
            &&& code.len() == info.pixel_format.channels()
            &&& 0 <= at && at + code.len() <= bytes.len()
            &&& after.subrange(at, at + code.len()) == code
            &&& info.pixel_format == PixelFormat::RGB8 ==> after.subrange(at, at + 3) == seq![
                c.r,
                c.g,
                c.b,
            ]
            &&& info.pixel_format == PixelFormat::BGR8 ==> after.subrange(at, at + 3) == seq![
                c.b,
                c.g,
                c.r,
            ]
            &&& forall|i: int|
                0 <= i < bytes.len() && !(at <= i < at + code.len()) ==> #[trigger] after[i]
                    == bytes[i]
        }),
{
    pixel_within_buffer(info, x, y);
    let at = info.offset_at(x, y);
    let after = info.painted(bytes, x, y, c);
    let code = encoded(info.pixel_format, c);
    assert(after.subrange(at, at + code.len()) =~= code);
}

/// A position outside the visible surface, beyond its last column or row or
/// before its first, has no offset, and a write to it stores nothing: the
/// buffer afterwards is the buffer before.
pub proof fn invisible_pixel_is_clipped(
    info: FrameBufferInfo,
    bytes: Seq<u8>,
    x: int,
    y: int,
    c: Color,
)
    requires
        x >= info.horizontal_resolution || y >= info.vertical_resolution || x < 0 || y < 0,
    ensures
        info.offset_of(x, y) is None,
        !info.paints(x, y),
        info.painted(bytes, x, y, c) == bytes,
{
}

/// A write to one visible pixel leaves every byte of every other visible
/// pixel as it was.
pub proof fn painting_keeps_other_pixels(
    info: FrameBufferInfo,
    bytes: Seq<u8>,
    x: int,
    y: int,
    c: Color,
    x2: int,
    y2: int,
)
    requires
        info.wf(),
        info.byte_len() <= bytes.len(),
        info.contains(x, y),
        info.contains(x2, y2),
        x != x2 || y != y2,
    ensures
        ({
            let at = info.offset_at(x2, y2);
            info.painted(bytes, x, y, c).subrange(at, at + info.bytes_per_pixel) == bytes.subrange(
                at,
                at + info.bytes_per_pixel,
            )
        }),
{
    pixel_within_buffer(info, x, y);
    pixel_within_buffer(info, x2, y2);
    pixels_do_not_overlap(info, x, y, x2, y2);
    let at = info.offset_at(x2, y2);
    assert(info.painted(bytes, x, y, c).subrange(at, at + info.bytes_per_pixel) =~= bytes.subrange(
        at,
        at + info.bytes_per_pixel,
    ));
}

/// Writing a colour to a position a second time changes nothing.
pub proof fn painting_twice_is_painting_once(
    info: FrameBufferInfo,
    bytes: Seq<u8>,
    x: int,
    y: int,
    c: Color,
)
    ensures
        info.painted(info.painted(bytes, x, y, c), x, y, c) == info.painted(bytes, x, y, c),
{
    let once = info.painted(bytes, x, y, c);
    assert(info.painted(once, x, y, c) =~= once);
}

} // verus!
