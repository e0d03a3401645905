//! Pixel-format descriptors: the element kind (8-bit, 16-bit or 32-bit
//! float) together with the channel count, and the mapping between such a
//! pair and the packed color-space tags of the packed-pixel representation.

use vstd::prelude::*;

verus! {

/// A 32-bit float sample, held as its raw bit pattern.
///
/// The library moves float samples around without doing arithmetic on
/// them, so it stores each one as the 32 bits of its IEEE 754 encoding;
/// conversions at the crate's edge turn `f32` values into `F32Bits` and
/// back without loss.
#[derive(Clone, Copy, Debug, PartialEq, Eq, Structural)]
pub struct F32Bits(pub u32);

/// Valid element types for the serial image data structures: [`u8`],
/// [`u16`] and [`F32Bits`].
pub trait SerialImageStorageTypes {

}

impl SerialImageStorageTypes for u8 {

}

impl SerialImageStorageTypes for u16 {

}

impl SerialImageStorageTypes for F32Bits {

}

/// Packed color-space tag: 8-bit grayscale.
pub const COLOR_L8: u8 = 0;

/// Packed color-space tag: 8-bit grayscale with alpha.
pub const COLOR_LA8: u8 = 1;

/// Packed color-space tag: 8-bit RGB.
pub const COLOR_RGB8: u8 = 2;

/// Packed color-space tag: 8-bit RGB with alpha.
pub const COLOR_RGBA8: u8 = 3;

/// Packed color-space tag: 16-bit grayscale.
pub const COLOR_L16: u8 = 4;

/// Packed color-space tag: 16-bit grayscale with alpha.
pub const COLOR_LA16: u8 = 5;

/// Packed color-space tag: 16-bit RGB.
pub const COLOR_RGB16: u8 = 6;

/// Packed color-space tag: 16-bit RGB with alpha.
pub const COLOR_RGBA16: u8 = 7;

/// Packed color-space tag: 32-bit float RGB.
pub const COLOR_RGB32F: u8 = 8;

/// Packed color-space tag: 32-bit float RGB with alpha.
pub const COLOR_RGBA32F: u8 = 9;

/// The channel count of a packed color-space tag.
pub open spec fn code_channels(code: int) -> int {
    if code == COLOR_L8 as int || code == COLOR_L16 as int {
        1
    } else if code == COLOR_LA8 as int || code == COLOR_LA16 as int {
        2
    } else if code == COLOR_RGB8 as int || code == COLOR_RGB16 as int || code == COLOR_RGB32F as int {
        3
    } else {
        4
    }
}

/// A valid format and its packed color space agree on the channel
/// count: the tag a format maps to carries exactly the format's
/// elements per pixel.
pub proof fn lemma_format_channels_agree(p: SerialImagePixel)
    requires
        p.valid(),
    ensures
        code_channels(p.spec_color_code()) == p.spec_channels(),
{
}

/// Pixel format descriptor. The variant gives the element kind, its field
/// the number of elements (channels) per pixel.
#[derive(Clone, Copy, Debug, PartialEq, Eq, Structural)]
pub enum SerialImagePixel {
    /// Pixel elements are [`u8`].
    U8(usize),
    /// Pixel elements are [`u16`].
    U16(usize),
    /// Pixel elements are [`f32`] samples, held as [`F32Bits`].
    F32(usize),
}

impl SerialImagePixel {
    /// A format is valid when its channel count maps to a packed color
    /// space: one to four channels for the integer kinds, three or four
    /// for floats (no single- or dual-channel float format exists).
    pub open spec fn valid(self) -> bool {
        match self {
            SerialImagePixel::U8(c) => 1 <= c <= 4,
            SerialImagePixel::U16(c) => 1 <= c <= 4,
            SerialImagePixel::F32(c) => 3 <= c <= 4,
        }
    }

    /// The packed color-space tag of a valid format.
    pub open spec fn spec_color_code(self) -> int
        recommends
            self.valid(),
    {
        match self {
            SerialImagePixel::U8(c) => c - 1,
            SerialImagePixel::U16(c) => 3 + c,
            SerialImagePixel::F32(c) => 5 + c,
        }
    }

    /// The number of elements per pixel.
    pub open spec fn spec_channels(self) -> int {
        match self {
            SerialImagePixel::U8(c) => c as int,
            SerialImagePixel::U16(c) => c as int,
            SerialImagePixel::F32(c) => c as int,
        }
    }

    /// Whether the channel count maps to a packed color space.
    pub fn is_valid(&self) -> (r: bool)
        ensures
            r == self.valid(),
    {
        match *self {
            SerialImagePixel::U8(c) => 1 <= c && c <= 4,
            SerialImagePixel::U16(c) => 1 <= c && c <= 4,
            SerialImagePixel::F32(c) => 3 <= c && c <= 4,
        }
    }

    /// Look up the packed color-space tag of this format, failing when no
    /// packed color space carries such a pair.
    pub fn color_code(&self) -> (r: Result<u8, crate::SerialImageError>)
        ensures
            self.valid() ==> r == Ok::<u8, crate::SerialImageError>(
                self.spec_color_code() as u8,
            ),
            !self.valid() ==> r == Err::<u8, crate::SerialImageError>(
                crate::SerialImageError::UnsupportedPixelFormat,
            ),
    {
        match *self {
            SerialImagePixel::U8(c) => {
                if 1 <= c && c <= 4 {
                    Ok((c - 1) as u8)
                } else {
                    Err(crate::SerialImageError::UnsupportedPixelFormat)
                }
            },
            SerialImagePixel::U16(c) => {
                if 1 <= c && c <= 4 {
                    Ok((3 + c) as u8)
                } else {
                    Err(crate::SerialImageError::UnsupportedPixelFormat)
                }
            },
            SerialImagePixel::F32(c) => {
                if 3 <= c && c <= 4 {
                    Ok((5 + c) as u8)
                } else {
                    Err(crate::SerialImageError::UnsupportedPixelFormat)
                }
            },
        }
    }

    /// The format a packed color-space tag stands for, failing on a tag
    /// this library does not know.
    pub fn from_color_code(code: u8) -> (r: Result<SerialImagePixel, crate::SerialImageError>)
        ensures
            code <= 9 ==> r is Ok && r->Ok_0.valid() && r->Ok_0.spec_color_code() == code as int,
            code > 9 ==> r == Err::<SerialImagePixel, crate::SerialImageError>(
                crate::SerialImageError::UnsupportedPixelFormat,
            ),
    {
        if code <= 3 {
            Ok(SerialImagePixel::U8((code + 1) as usize))
        } else if code <= 7 {
            Ok(SerialImagePixel::U16((code - 3) as usize))
        } else if code <= 9 {
            Ok(SerialImagePixel::F32((code - 5) as usize))
        } else {
            Err(crate::SerialImageError::UnsupportedPixelFormat)
        }
    }
}

} // verus!
