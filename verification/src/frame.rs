//! Frames as the device hands them over: their kind, their pixel format and
//! the size of their data.

use vstd::prelude::*;
use crate::grid::{COLOR_HEIGHT, COLOR_WIDTH, DEPTH_HEIGHT, DEPTH_WIDTH};

verus! {

/// The code of `Format::Invalid`.
pub const FORMAT_INVALID: u32 = 0;

/// The code of `Format::Raw`.
pub const FORMAT_RAW: u32 = 1;

/// The code of `Format::Float`.
pub const FORMAT_FLOAT: u32 = 2;

/// The code of `Format::Bgrx`.
pub const FORMAT_BGRX: u32 = 4;

/// The code of `Format::Rgbx`.
pub const FORMAT_RGBX: u32 = 5;

/// The code of `Format::Gray`.
pub const FORMAT_GRAY: u32 = 6;

/// The code of `Type::Color`.
pub const TYPE_COLOR: u32 = 1;

/// The code of `Type::Ir`.
pub const TYPE_IR: u32 = 2;

/// The code of `Type::Depth`.
pub const TYPE_DEPTH: u32 = 4;

/// The possible image formats of a frame's data.
#[derive(Debug, Clone, Copy, PartialEq, Eq, Structural)]
pub enum Format {
    /// 4 bytes of B, G, R, and unused per pixel.
    Bgrx,
    /// One single-precision number per pixel.
    Float,
    /// One gray byte per pixel.
    Gray,
    /// An invalid format.
    Invalid,
    /// A raw data stream.
    Raw,
    /// 4 bytes of R, G, B, and unused per pixel.
    Rgbx,
}

/// The error for a format code that names no format.
#[derive(Debug, Clone, Copy, PartialEq, Eq, Structural)]
pub struct UnknownFormat;

/// The source of a frame.
#[derive(Debug, Clone, Copy, PartialEq, Eq, Structural)]
pub enum Type {
    /// From the color camera: 1920 by 1080, in the Bgrx or Rgbx format.
    Color,
    /// From the depth camera: 512 by 424, in the Float format.
    Depth,
    /// From the IR camera: 512 by 424, in the Float format.
    Ir,
}

/// The error for a type code that names no frame type.
#[derive(Debug, Clone, Copy, PartialEq, Eq, Structural)]
pub struct UnknownType;

/// The format that a code names.
pub open spec fn spec_format(raw: u32) -> Result<Format, UnknownFormat> {
    if raw == FORMAT_BGRX {
        Ok(Format::Bgrx)
    } else if raw == FORMAT_FLOAT {
        Ok(Format::Float)
    } else if raw == FORMAT_GRAY {
        Ok(Format::Gray)
    } else if raw == FORMAT_INVALID {
        Ok(Format::Invalid)
    } else if raw == FORMAT_RAW {
        Ok(Format::Raw)
    } else if raw == FORMAT_RGBX {
        Ok(Format::Rgbx)
    } else {
        Err(UnknownFormat)
    }
}

/// The frame type that a code names.
pub open spec fn spec_type(raw: u32) -> Result<Type, UnknownType> {
    if raw == TYPE_COLOR {
        Ok(Type::Color)
    } else if raw == TYPE_DEPTH {
        Ok(Type::Depth)
    } else if raw == TYPE_IR {
        Ok(Type::Ir)
    } else {
        Err(UnknownType)
    }
}

/// The number of data bytes of a frame: for a raw stream the "bytes per
/// pixel" count the whole stream, otherwise every pixel has that many.
pub open spec fn spec_data_len(format: Format, width: int, height: int, bytes_per_pixel: int) -> int {
    match format {
        Format::Raw => bytes_per_pixel,
        _ => width * height * bytes_per_pixel,
    }
}

/// The bytes after the first and the third byte of every whole group of
/// four changed places.
pub open spec fn spec_swap_red_blue(data: Seq<u8>) -> Seq<u8> {
    Seq::new(
        data.len(),
        |i: int|
            if i / 4 * 4 + 4 <= data.len() && i % 4 == 0 {
                data[i + 2]
            } else if i / 4 * 4 + 4 <= data.len() && i % 4 == 2 {
                data[i - 2]
            } else {
                data[i]
            },
    )
}

impl Format {
    /// The format that a code names.
    pub fn try_from(raw: u32) -> (out: Result<Format, UnknownFormat>)
        ensures
            out == spec_format(raw),
    {
        if raw == FORMAT_BGRX {
            Ok(Format::Bgrx)
        } else if raw == FORMAT_FLOAT {
            Ok(Format::Float)
        } else if raw == FORMAT_GRAY {
            Ok(Format::Gray)
        } else if raw == FORMAT_INVALID {
            Ok(Format::Invalid)
        } else if raw == FORMAT_RAW {
            Ok(Format::Raw)
        } else if raw == FORMAT_RGBX {
            Ok(Format::Rgbx)
        } else {
            Err(UnknownFormat)
        }
    }
}

impl UnknownFormat {
    /// The text that describes this error.
    pub fn message(&self) -> (text: &'static str)
        ensures
            text@ == "unknown frame format"@,
    {
        "unknown frame format"
    }
}

impl Type {
    /// The frame type that a code names.
    pub fn try_from(raw: u32) -> (out: Result<Type, UnknownType>)
        ensures
            out == spec_type(raw),
    {
        if raw == TYPE_COLOR {
            Ok(Type::Color)
        } else if raw == TYPE_DEPTH {
            Ok(Type::Depth)
        } else if raw == TYPE_IR {
            Ok(Type::Ir)
        } else {
            Err(UnknownType)
        }
    }
}

impl UnknownType {
    /// The text that describes this error.
    pub fn message(&self) -> (text: &'static str)
        ensures
            text@ == "unknown frame type"@,
    {
        "unknown frame type"
    }
}

/// The number of data bytes of a frame, or `None` where the number is too
/// large to be a length.
pub fn data_len(format: Format, width: usize, height: usize, bytes_per_pixel: usize) -> (out:
    Option<usize>)
    ensures
        out == if spec_data_len(format, width as int, height as int, bytes_per_pixel as int)
            <= usize::MAX {
            Some(
                spec_data_len(format, width as int, height as int, bytes_per_pixel as int) as usize,
            )
        } else {
            None
        },
{
    match format {
        Format::Raw => Some(bytes_per_pixel),
        _ => {
            if width == 0 || height == 0 || bytes_per_pixel == 0 {
                assert(width * height * bytes_per_pixel == 0) by (nonlinear_arith)
                    requires
                        width == 0 || height == 0 || bytes_per_pixel == 0,
                ;
                return Some(0);
            }
            match width.checked_mul(height) {
                Some(pixels) => pixels.checked_mul(bytes_per_pixel),
                None => {
                    assert(width * height * bytes_per_pixel >= width * height) by (nonlinear_arith)
                        requires
                            width * height >= 0,
                            bytes_per_pixel >= 1,
                    ;
                    None
                },
            }
        },
    }
}

/// Changes the places of the first and the third byte in every whole group
/// of four: B, G, R, unused becomes R, G, B, unused, and the other way round.
pub fn swap_red_blue(data: &mut Vec<u8>)
    ensures
        final(data)@ == spec_swap_red_blue(old(data)@),
{
    let ghost before = data@;
    let groups: usize = data.len() / 4;
    let mut group: usize = 0;
    while group < groups
        invariant
            group <= groups,
            groups == before.len() / 4,
            before.len() <= usize::MAX,
            data@.len() == before.len(),
            forall|i: int|
                0 <= i < before.len() ==> #[trigger] data@[i] == if i / 4 < group {
                    spec_swap_red_blue(before)[i]
                } else {
                    before[i]
                },
        decreases groups - group,
    {
        let first: usize = group * 4;
        let blue: u8 = data[first];
        let red: u8 = data[first + 2];
        data[first] = red;
        data[first + 2] = blue;
        group += 1;
    }
    assert(data@ =~= spec_swap_red_blue(before));
}

/// A frame from one of the device's cameras.
#[derive(Debug)]
pub struct Frame {
    width: usize,
    height: usize,
    bytes_per_pixel: usize,
    data: Vec<u8>,
    timestamp: u32,
    sequence: u32,
    exposure: u32,
    gain: u32,
    errors_occurred: bool,
    format: Format,
}

/// The fields of a frame.
pub struct FrameView {
    pub width: usize,
    pub height: usize,
    pub bytes_per_pixel: usize,
    pub data: Seq<u8>,
    pub timestamp: u32,
    pub sequence: u32,
    pub exposure: u32,
    pub gain: u32,
    pub errors_occurred: bool,
    pub format: Format,
}

impl View for Frame {
    type V = FrameView;

    closed spec fn view(&self) -> FrameView {
        FrameView {
            width: self.width,
            height: self.height,
            bytes_per_pixel: self.bytes_per_pixel,
            data: self.data@,
            timestamp: self.timestamp,
            sequence: self.sequence,
            exposure: self.exposure,
            gain: self.gain,
            errors_occurred: self.errors_occurred,
            format: self.format,
        }
    }
}

impl Frame {
    /// Every frame holds as many data bytes as its format and size ask for.
    #[verifier::type_invariant]
    pub open spec fn inv(&self) -> bool {
        self@.data.len() == spec_data_len(
            self@.format,
            self@.width as int,
            self@.height as int,
            self@.bytes_per_pixel as int,
        )
    }

    /// A frame of the given size and format around its data. `exposure` and
    /// `gain` are the bits of single-precision numbers; a `status` above
    /// zero means that errors occurred.
    pub fn new(
        width: usize,
        height: usize,
        bytes_per_pixel: usize,
        data: Vec<u8>,
        timestamp: u32,
        sequence: u32,
        exposure: u32,
        gain: u32,
        status: u32,
        format: Format,
    ) -> (frame: Frame)
        requires
            data@.len() == spec_data_len(
                format,
                width as int,
                height as int,
                bytes_per_pixel as int,
            ),
        ensures
            frame@ == (FrameView {
                width,
                height,
                bytes_per_pixel,
                data: data@,
                timestamp,
                sequence,
                exposure,
                gain,
                errors_occurred: status > 0,
                format,
            }),
    {
        Frame {
            width,
            height,
            bytes_per_pixel,
            data,
            timestamp,
            sequence,
            exposure,
            gain,
            errors_occurred: status > 0,
            format,
        }
    }

    /// The width of the frame, in pixels.
    pub fn width(&self) -> (out: usize)
        ensures
            out == self@.width,
    {
        self.width
    }

    /// The height of the frame, in pixels.
    pub fn height(&self) -> (out: usize)
        ensures
            out == self@.height,
    {
        self.height
    }

    /// The number of data bytes per pixel; for a raw stream, the length of
    /// the data.
    pub fn bytes_per_pixel(&self) -> (out: usize)
        ensures
            out == self@.bytes_per_pixel,
    {
        self.bytes_per_pixel
    }

    /// The data itself.
    pub fn data(&self) -> (out: &[u8])
        ensures
            out@ == self@.data,
            out@.len() == spec_data_len(
                self@.format,
                self@.width as int,
                self@.height as int,
                self@.bytes_per_pixel as int,
            ),
    {
        proof {
            use_type_invariant(self);
        }
        self.data.as_slice()
    }

    /// Whether this is a frame as the color camera gives it: 1920 by 1080
    /// pixels of four bytes, red first or blue first.
    pub fn is_color_image(&self) -> (out: bool)
        ensures
            out == (self@.width == COLOR_WIDTH && self@.height == COLOR_HEIGHT
                && self@.bytes_per_pixel == 4 && (self@.format == Format::Rgbx || self@.format
                == Format::Bgrx)),
    {
        self.width == COLOR_WIDTH as usize && self.height == COLOR_HEIGHT as usize
            && self.bytes_per_pixel == 4 && (self.format == Format::Rgbx || self.format
            == Format::Bgrx)
    }

    /// Whether this is a frame as the depth camera gives it: 512 by 424
    /// single-precision samples.
    pub fn is_depth_image(&self) -> (out: bool)
        ensures
            out == (self@.width == DEPTH_WIDTH && self@.height == DEPTH_HEIGHT
                && self@.bytes_per_pixel == 4 && self@.format == Format::Float),
    {
        self.width == DEPTH_WIDTH as usize && self.height == DEPTH_HEIGHT as usize
            && self.bytes_per_pixel == 4 && self.format == Format::Float
    }

    /// Consumes a color frame and returns its data with red first: as it
    /// is for `Rgbx`, with red and blue changed over for `Bgrx`.
    pub fn into_rgbx(self) -> (out: Vec<u8>)
        requires
            self@.format == Format::Rgbx || self@.format == Format::Bgrx,
        ensures
            out@ == if self@.format == Format::Bgrx {
                spec_swap_red_blue(self@.data)
            } else {
                self@.data
            },
    {
        let swap: bool = self.format == Format::Bgrx;
        let mut data: Vec<u8> = self.data;
        if swap {
            swap_red_blue(&mut data);
        }
        data
    }

    /// Consumes the frame and returns the owned data.
    pub fn into_data(self) -> (out: Vec<u8>)
        ensures
            out@ == self@.data,
    {
        self.data
    }

    /// In units of 100 microseconds.
    pub fn timestamp(&self) -> (out: u32)
        ensures
            out == self@.timestamp,
    {
        self.timestamp
    }

    /// The monotonically increasing sequence number.
    pub fn sequence(&self) -> (out: u32)
        ensures
            out == self@.sequence,
    {
        self.sequence
    }

    /// The bits of the exposure.
    pub fn exposure(&self) -> (out: u32)
        ensures
            out == self@.exposure,
    {
        self.exposure
    }

    /// The bits of the gain.
    pub fn gain(&self) -> (out: u32)
        ensures
            out == self@.gain,
    {
        self.gain
    }

    /// Indicates if any errors occurred.
    pub fn errors_occurred(&self) -> (out: bool)
        ensures
            out == self@.errors_occurred,
    {
        self.errors_occurred
    }

    /// The format of the image data.
    pub fn format(&self) -> (out: Format)
        ensures
            out == self@.format,
    {
        self.format
    }
}

} // verus!
