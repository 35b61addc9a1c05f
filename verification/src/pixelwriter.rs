//! One encoder for each pixel layout: the bytes a colour becomes, and the
//! store that puts them into a buffer.

use vstd::prelude::*;
use crate::color::Color;
use crate::info::PixelFormat;

verus! {

/// The bytes that stand for a colour in a layout, in buffer order. A layout
/// that is not supported has none.
pub open spec fn encoded(format: PixelFormat, c: Color) -> Seq<u8> {
    match format {
        PixelFormat::RGB8 => seq![c.r, c.g, c.b],
        PixelFormat::BGR8 => seq![c.b, c.g, c.r],
        PixelFormat::Grayscale8 => seq![c.luma() as u8],
        PixelFormat::Unsupported => Seq::empty(),
    }
}

/// `buf` with `bytes` laid over it from position `at` on; every other byte is
/// kept.
pub open spec fn overwrite(buf: Seq<u8>, at: int, bytes: Seq<u8>) -> Seq<u8> {
    Seq::new(
        buf.len(),
        |i: int|
            if at <= i < at + bytes.len() {
                bytes[i - at]
            } else {
                buf[i]
            },
    )
}

/// Stores one colour at a byte offset, in the byte order of one layout.
pub trait PixelWrite {
    /// The layout that this encoder writes.
    spec fn format(&self) -> PixelFormat;

    /// Lays the colour's bytes over `buf` from `index` on and says whether the
    /// layout is one that can be written. Nothing else in `buf` changes.
    fn write_pixel(&self, buf: &mut [u8], index: usize, c: Color) -> (written: bool)
        requires
            index + self.format().channels() <= old(buf)@.len(),
        ensures
            written == self.format().is_supported(),
            final(buf)@ == overwrite(old(buf)@, index as int, encoded(self.format(), c)),
    ;
}

pub struct RGBPixelWriter;

pub struct BGRPixelWriter;

pub struct U8PixelWriter;

pub struct UnsupportedPixelWriter;

impl PixelWrite for RGBPixelWriter {
    open spec fn format(&self) -> PixelFormat {
        PixelFormat::RGB8
    }

    fn write_pixel(&self, buf: &mut [u8], index: usize, c: Color) -> (written: bool) {
        buf[index] = c.r;
        buf[index + 1] = c.g;
        buf[index + 2] = c.b;
        assert(buf@ =~= overwrite(old(buf)@, index as int, encoded(self.format(), c)));
        true
    }
}

impl PixelWrite for BGRPixelWriter {
    open spec fn format(&self) -> PixelFormat {
        PixelFormat::BGR8
    }

    fn write_pixel(&self, buf: &mut [u8], index: usize, c: Color) -> (written: bool) {
        buf[index] = c.b;
        buf[index + 1] = c.g;
        buf[index + 2] = c.r;
        assert(buf@ =~= overwrite(old(buf)@, index as int, encoded(self.format(), c)));
        true
    }
}

impl PixelWrite for U8PixelWriter {
    open spec fn format(&self) -> PixelFormat {
        PixelFormat::Grayscale8
    }

    fn write_pixel(&self, buf: &mut [u8], index: usize, c: Color) -> (written: bool) {
        buf[index] = c.grayscale();
        assert(buf@ =~= overwrite(old(buf)@, index as int, encoded(self.format(), c)));
        true
    }
}

impl PixelWrite for UnsupportedPixelWriter {
    open spec fn format(&self) -> PixelFormat {
        PixelFormat::Unsupported
    }

    fn write_pixel(&self, buf: &mut [u8], index: usize, c: Color) -> (written: bool) {
        assert(buf@ =~= overwrite(old(buf)@, index as int, encoded(self.format(), c)));
        false
    }
}

/// The encoder of one of the four layouts.
pub enum PixelWriter {
    RGB(RGBPixelWriter),
    BGR(BGRPixelWriter),
    U8(U8PixelWriter),
    Unsupported(UnsupportedPixelWriter),
}

impl PixelWrite for PixelWriter {
    open spec fn format(&self) -> PixelFormat {
        match self {
            PixelWriter::RGB(w) => w.format(),
            PixelWriter::BGR(w) => w.format(),
            PixelWriter::U8(w) => w.format(),
            PixelWriter::Unsupported(w) => w.format(),
        }
    }

    fn write_pixel(&self, buf: &mut [u8], index: usize, c: Color) -> (written: bool) {
        match self {
            PixelWriter::RGB(w) => w.write_pixel(buf, index, c),
            PixelWriter::BGR(w) => w.write_pixel(buf, index, c),
            PixelWriter::U8(w) => w.write_pixel(buf, index, c),
            PixelWriter::Unsupported(w) => w.write_pixel(buf, index, c),
        }
    }
}

/// Selects the encoder of a layout; every layout has one.
pub fn pixel_writer(format: PixelFormat) -> (w: PixelWriter)
    ensures
        w.format() == format,
{
    match format {
        PixelFormat::RGB8 => PixelWriter::RGB(RGBPixelWriter),
        PixelFormat::BGR8 => PixelWriter::BGR(BGRPixelWriter),
        PixelFormat::Grayscale8 => PixelWriter::U8(U8PixelWriter),
        PixelFormat::Unsupported => PixelWriter::Unsupported(UnsupportedPixelWriter),
    }
}

} // verus!
