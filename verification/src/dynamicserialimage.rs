//! The element-kind-erased image: exactly one of the three buffer
//! instantiations, with format-erased accessors, safe narrowing, and
//! conversion to and from the packed-pixel representation.

use vstd::prelude::*;

use crate::imagemetadata::ImageMetaData;
use crate::luma::{luma16_alpha_post, luma16_post, luma8_alpha_post, luma8_post, LumaTables};
use crate::packed::{bits_of, packed_color_code, packed_data_f32_bits, packed_data_u16,
    packed_data_u8, packed_height, packed_width};
use crate::pixelformat::{code_channels, F32Bits};
use crate::serialimage::{from_vec_post, same_pixels, SerialImageBuffer};
use crate::SerialImageError;

verus! {

/// Dynamic serial image enumeration: the one-of-three wrapper over the
/// 8-bit, 16-bit and float buffer types.
#[derive(Debug)]
pub enum DynamicSerialImage {
    /// 8-bit unsigned integer image data.
    U8(SerialImageBuffer<u8>),
    /// 16-bit unsigned integer image data.
    U16(SerialImageBuffer<u16>),
    /// 32-bit floating point image data, each sample as its bit pattern.
    F32(SerialImageBuffer<F32Bits>),
}

impl DynamicSerialImage {
    /// The active buffer is well-formed.
    pub open spec fn wf(&self) -> bool {
        match self {
            DynamicSerialImage::U8(b) => b.wf(),
            DynamicSerialImage::U16(b) => b.wf(),
            DynamicSerialImage::F32(b) => b.wf(),
        }
    }

    /// The active buffer's width.
    pub open spec fn spec_width(&self) -> int {
        match self {
            DynamicSerialImage::U8(b) => b.spec_width(),
            DynamicSerialImage::U16(b) => b.spec_width(),
            DynamicSerialImage::F32(b) => b.spec_width(),
        }
    }

    /// The active buffer's height.
    pub open spec fn spec_height(&self) -> int {
        match self {
            DynamicSerialImage::U8(b) => b.spec_height(),
            DynamicSerialImage::U16(b) => b.spec_height(),
            DynamicSerialImage::F32(b) => b.spec_height(),
        }
    }

    /// The active buffer's element count per pixel.
    pub open spec fn spec_elems(&self) -> int {
        match self {
            DynamicSerialImage::U8(b) => b.spec_elems(),
            DynamicSerialImage::U16(b) => b.spec_elems(),
            DynamicSerialImage::F32(b) => b.spec_elems(),
        }
    }

    /// The active buffer's metadata.
    pub open spec fn spec_meta(&self) -> Option<ImageMetaData> {
        match self {
            DynamicSerialImage::U8(b) => b.spec_meta(),
            DynamicSerialImage::U16(b) => b.spec_meta(),
            DynamicSerialImage::F32(b) => b.spec_meta(),
        }
    }

    /// Get the image metadata.
    pub fn get_metadata(&self) -> (r: Option<ImageMetaData>)
        ensures
            (r is Some) == (self.spec_meta() is Some),
            r is Some ==> r->0@ == self.spec_meta()->0@,
    {
        match self {
            DynamicSerialImage::U8(b) => b.get_metadata(),
            DynamicSerialImage::U16(b) => b.get_metadata(),
            DynamicSerialImage::F32(b) => b.get_metadata(),
        }
    }

    /// Update the image metadata; the pixels and the element kind stay
    /// as they were.
    pub fn set_metadata(&mut self, meta: ImageMetaData)
        ensures
            final(self).spec_meta() == Some(meta),
            final(self).wf() == old(self).wf(),
            (*old(self)) is U8 ==> (*final(self)) is U8 && same_pixels(
                (*old(self))->U8_0,
                (*final(self))->U8_0,
            ),
            (*old(self)) is U16 ==> (*final(self)) is U16 && same_pixels(
                (*old(self))->U16_0,
                (*final(self))->U16_0,
            ),
            (*old(self)) is F32 ==> (*final(self)) is F32 && same_pixels(
                (*old(self))->F32_0,
                (*final(self))->F32_0,
            ),
    {
        match self {
            DynamicSerialImage::U8(b) => b.set_metadata(Some(meta)),
            DynamicSerialImage::U16(b) => b.set_metadata(Some(meta)),
            DynamicSerialImage::F32(b) => b.set_metadata(Some(meta)),
        }
    }

    /// Get image width.
    pub fn width(&self) -> (r: usize)
        ensures
            r == self.spec_width(),
    {
        match self {
            DynamicSerialImage::U8(b) => b.width(),
            DynamicSerialImage::U16(b) => b.width(),
            DynamicSerialImage::F32(b) => b.width(),
        }
    }

    /// Get image height.
    pub fn height(&self) -> (r: usize)
        ensures
            r == self.spec_height(),
    {
        match self {
            DynamicSerialImage::U8(b) => b.height(),
            DynamicSerialImage::U16(b) => b.height(),
            DynamicSerialImage::F32(b) => b.height(),
        }
    }

    /// The underlying 8-bit buffer, when that is the active variant.
    pub fn as_u8(&self) -> (r: Option<&SerialImageBuffer<u8>>)
        ensures
            (r is Some) == (self is U8),
            r is Some ==> *r->0 == self->U8_0,
    {
        match self {
            DynamicSerialImage::U8(b) => Some(b),
            _ => None,
        }
    }

    /// The underlying 16-bit buffer, when that is the active variant.
    pub fn as_u16(&self) -> (r: Option<&SerialImageBuffer<u16>>)
        ensures
            (r is Some) == (self is U16),
            r is Some ==> *r->0 == self->U16_0,
    {
        match self {
            DynamicSerialImage::U16(b) => Some(b),
            _ => None,
        }
    }

    /// The underlying float buffer, when that is the active variant.
    pub fn as_f32(&self) -> (r: Option<&SerialImageBuffer<F32Bits>>)
        ensures
            (r is Some) == (self is F32),
            r is Some ==> *r->0 == self->F32_0,
    {
        match self {
            DynamicSerialImage::F32(b) => Some(b),
            _ => None,
        }
    }

    /// Take the 8-bit buffer out, failing when another element kind is
    /// active.
    pub fn into_u8(self) -> (r: Result<SerialImageBuffer<u8>, SerialImageError>)
        ensures
            (r is Ok) == (self is U8),
            r is Ok ==> r->Ok_0 == self->U8_0,
            r is Err ==> r->Err_0 == SerialImageError::VariantMismatch,
    {
        match self {
            DynamicSerialImage::U8(b) => Ok(b),
            _ => Err(SerialImageError::VariantMismatch),
        }
    }

    /// Take the 16-bit buffer out, failing when another element kind is
    /// active.
    pub fn into_u16(self) -> (r: Result<SerialImageBuffer<u16>, SerialImageError>)
        ensures
            (r is Ok) == (self is U16),
            r is Ok ==> r->Ok_0 == self->U16_0,
            r is Err ==> r->Err_0 == SerialImageError::VariantMismatch,
    {
        match self {
            DynamicSerialImage::U16(b) => Ok(b),
            _ => Err(SerialImageError::VariantMismatch),
        }
    }

    /// Take the float buffer out, failing when another element kind is
    /// active.
    pub fn into_f32(self) -> (r: Result<SerialImageBuffer<F32Bits>, SerialImageError>)
        ensures
            (r is Ok) == (self is F32),
            r is Ok ==> r->Ok_0 == self->F32_0,
            r is Err ==> r->Err_0 == SerialImageError::VariantMismatch,
    {
        match self {
            DynamicSerialImage::F32(b) => Ok(b),
            _ => Err(SerialImageError::VariantMismatch),
        }
    }

    /// Create an 8-bit image from an interleaved vector, as
    /// [`SerialImageBuffer::from_vec`] does.
    pub fn from_vec_u8(width: usize, height: usize, data: Vec<u8>) -> (r: Result<
        DynamicSerialImage,
        SerialImageError,
    >)
        ensures
            r is Ok ==> r->Ok_0 is U8,
            from_vec_post(
                width,
                height,
                data@,
                match r {
                    Ok(d) => Ok(d->U8_0),
                    Err(e) => Err(e),
                },
            ),
    {
        match SerialImageBuffer::<u8>::from_vec(width, height, data) {
            Ok(b) => Ok(DynamicSerialImage::U8(b)),
            Err(e) => Err(e),
        }
    }

    /// Create a 16-bit image from an interleaved vector, as
    /// [`SerialImageBuffer::from_vec`] does.
    pub fn from_vec_u16(width: usize, height: usize, data: Vec<u16>) -> (r: Result<
        DynamicSerialImage,
        SerialImageError,
    >)
        ensures
            r is Ok ==> r->Ok_0 is U16,
            from_vec_post(
                width,
                height,
                data@,
                match r {
                    Ok(d) => Ok(d->U16_0),
                    Err(e) => Err(e),
                },
            ),
    {
        match SerialImageBuffer::<u16>::from_vec(width, height, data) {
            Ok(b) => Ok(DynamicSerialImage::U16(b)),
            Err(e) => Err(e),
        }
    }

    /// Create a float image from an interleaved vector of sample bit
    /// patterns, as [`SerialImageBuffer::from_vec`] does. One- and
    /// two-channel float images exist in this planar form but have no
    /// packed color space; the packed-boundary conversions reject them.
    pub fn from_vec_f32(width: usize, height: usize, data: Vec<F32Bits>) -> (r: Result<
        DynamicSerialImage,
        SerialImageError,
    >)
        ensures
            r is Ok ==> r->Ok_0 is F32,
            from_vec_post(
                width,
                height,
                data@,
                match r {
                    Ok(d) => Ok(d->F32_0),
                    Err(e) => Err(e),
                },
            ),
    {
        match SerialImageBuffer::<F32Bits>::from_vec(width, height, data) {
            Ok(b) => Ok(DynamicSerialImage::F32(b)),
            Err(e) => Err(e),
        }
    }

    /// Convert the image to 16-bit grayscale, discarding any alpha
    /// channel. Fails on a float image: reducing float samples takes
    /// floating-point arithmetic, which lives outside this library's
    /// verified core. The weight tables are built for this one call;
    /// [`DynamicSerialImage::into_luma_with`] reuses shared ones.
    pub fn into_luma(&self) -> (r: Result<SerialImageBuffer<u16>, SerialImageError>)
        requires
            self.wf(),
        ensures
            (r is Ok) == !(self is F32),
            r is Err ==> r->Err_0 == SerialImageError::UnsupportedPixelFormat,
            self is U8 ==> r is Ok && luma8_post(self->U8_0, r->Ok_0),
            self is U16 ==> r is Ok && luma16_post(self->U16_0, r->Ok_0),
    {
        let tables = LumaTables::new();
        self.into_luma_with(&tables)
    }

    /// Convert the image to 16-bit grayscale through already built
    /// weight tables, so the tables can be computed once per process
    /// and shared across conversions.
    pub fn into_luma_with(&self, tables: &LumaTables) -> (r: Result<
        SerialImageBuffer<u16>,
        SerialImageError,
    >)
        requires
            self.wf(),
            tables.wf(),
        ensures
            (r is Ok) == !(self is F32),
            r is Err ==> r->Err_0 == SerialImageError::UnsupportedPixelFormat,
            self is U8 ==> r is Ok && luma8_post(self->U8_0, r->Ok_0),
            self is U16 ==> r is Ok && luma16_post(self->U16_0, r->Ok_0),
    {
        match self {
            DynamicSerialImage::U8(b) => Ok(b.into_luma_with(tables)),
            DynamicSerialImage::U16(b) => Ok(b.into_luma_with(tables)),
            DynamicSerialImage::F32(_) => Err(SerialImageError::UnsupportedPixelFormat),
        }
    }

    /// Convert the image to 16-bit grayscale while preserving the alpha
    /// channel. Fails on a float image: reducing float samples takes
    /// floating-point arithmetic, which lives outside this library's
    /// verified core. The weight tables are built for this one call;
    /// [`DynamicSerialImage::into_luma_alpha_with`] reuses shared ones.
    pub fn into_luma_alpha(&self) -> (r: Result<SerialImageBuffer<u16>, SerialImageError>)
        requires
            self.wf(),
        ensures
            (r is Ok) == !(self is F32),
            r is Err ==> r->Err_0 == SerialImageError::UnsupportedPixelFormat,
            self is U8 ==> r is Ok && luma8_alpha_post(self->U8_0, r->Ok_0),
            self is U16 ==> r is Ok && luma16_alpha_post(self->U16_0, r->Ok_0),
    {
        let tables = LumaTables::new();
        self.into_luma_alpha_with(&tables)
    }

    /// Convert the image to 16-bit grayscale with alpha through already
    /// built weight tables, so the tables can be computed once per
    /// process and shared across conversions.
    pub fn into_luma_alpha_with(&self, tables: &LumaTables) -> (r: Result<
        SerialImageBuffer<u16>,
        SerialImageError,
    >)
        requires
            self.wf(),
            tables.wf(),
        ensures
            (r is Ok) == !(self is F32),
            r is Err ==> r->Err_0 == SerialImageError::UnsupportedPixelFormat,
            self is U8 ==> r is Ok && luma8_alpha_post(self->U8_0, r->Ok_0),
            self is U16 ==> r is Ok && luma16_alpha_post(self->U16_0, r->Ok_0),
    {
        match self {
            DynamicSerialImage::U8(b) => Ok(b.into_luma_alpha_with(tables)),
            DynamicSerialImage::U16(b) => Ok(b.into_luma_alpha_with(tables)),
            DynamicSerialImage::F32(_) => Err(SerialImageError::UnsupportedPixelFormat),
        }
    }

    /// Build a planar image from a packed image, selecting the variant
    /// that matches the packed element kind. The packed raw samples are
    /// de-interleaved without loss; no metadata is attached.
    pub fn from_packed(img: image::DynamicImage) -> (r: Result<
        DynamicSerialImage,
        SerialImageError,
    >)
        ensures
            ({
                let code = packed_color_code(img);
                let w = packed_width(img);
                let h = packed_height(img);
                let k = code_channels(code);
                &&& (0 <= code <= 9 && (w == 0 || h == 0) ==> r == Err::<
                    DynamicSerialImage,
                    SerialImageError,
                >(SerialImageError::InvalidDimensions))
                &&& (0 <= code <= 3 && w >= 1 && h >= 1 ==> {
                    let exact = packed_data_u8(img).len() == k * (w * h);
                    &&& (!exact ==> r == Err::<DynamicSerialImage, SerialImageError>(
                        SerialImageError::LengthMismatch,
                    ))
                    &&& (exact ==> r is Ok && r->Ok_0 is U8 && r->Ok_0->U8_0.spec_packed()
                        == packed_data_u8(img))
                })
                &&& (4 <= code <= 7 && w >= 1 && h >= 1 ==> {
                    let exact = packed_data_u16(img).len() == k * (w * h);
                    &&& (!exact ==> r == Err::<DynamicSerialImage, SerialImageError>(
                        SerialImageError::LengthMismatch,
                    ))
                    &&& (exact ==> r is Ok && r->Ok_0 is U16 && r->Ok_0->U16_0.spec_packed()
                        == packed_data_u16(img))
                })
                &&& (8 <= code <= 9 && w >= 1 && h >= 1 ==> {
                    let exact = packed_data_f32_bits(img).len() == k * (w * h);
                    &&& (!exact ==> r == Err::<DynamicSerialImage, SerialImageError>(
                        SerialImageError::LengthMismatch,
                    ))
                    &&& (exact ==> r is Ok && r->Ok_0 is F32 && bits_of(
                        r->Ok_0->F32_0.spec_packed(),
                    ) == packed_data_f32_bits(img))
                })
                &&& (r is Ok ==> r->Ok_0.wf() && r->Ok_0.spec_width() == w
                    && r->Ok_0.spec_height() == h && r->Ok_0.spec_elems() == k
                    && r->Ok_0.spec_meta() is None)
            }),
    {
        let code = crate::packed::packed_code_of(&img);
        if code <= 3 {
            match SerialImageBuffer::<u8>::from_dynamic_image(img) {
                Ok(b) => Ok(DynamicSerialImage::U8(b)),
                Err(e) => Err(e),
            }
        } else if code <= 7 {
            match SerialImageBuffer::<u16>::from_dynamic_image(img) {
                Ok(b) => Ok(DynamicSerialImage::U16(b)),
                Err(e) => Err(e),
            }
        } else {
            match SerialImageBuffer::<F32Bits>::from_dynamic_image(img) {
                Ok(b) => Ok(DynamicSerialImage::F32(b)),
                Err(e) => Err(e),
            }
        }
    }

    /// Convert the image into its packed form: the color space matches
    /// the element kind and channel count, the raw samples are the
    /// interleaved wire form. Fails when a dimension exceeds what the
    /// packed representation can record, and on the float channel
    /// counts that have no packed color space. The metadata does not
    /// survive the packed representation.
    pub fn to_packed(self) -> (r: Result<image::DynamicImage, SerialImageError>)
        requires
            self.wf(),
        ensures
            self is U8 ==> {
                let b = self->U8_0;
                &&& ((r is Ok) == (b.spec_width() <= u32::MAX && b.spec_height() <= u32::MAX))
                &&& (r is Ok ==> packed_color_code(r->Ok_0) == b.spec_elems() - 1 && packed_width(
                    r->Ok_0,
                ) == b.spec_width() && packed_height(r->Ok_0) == b.spec_height()
                    && packed_data_u8(r->Ok_0) == b.spec_packed())
            },
            self is U16 ==> {
                let b = self->U16_0;
                &&& ((r is Ok) == (b.spec_width() <= u32::MAX && b.spec_height() <= u32::MAX))
                &&& (r is Ok ==> packed_color_code(r->Ok_0) == b.spec_elems() + 3 && packed_width(
                    r->Ok_0,
                ) == b.spec_width() && packed_height(r->Ok_0) == b.spec_height()
                    && packed_data_u16(r->Ok_0) == b.spec_packed())
            },
            self is F32 ==> {
                let b = self->F32_0;
                &&& ((r is Ok) == (b.spec_elems() >= 3 && b.spec_width() <= u32::MAX
                    && b.spec_height() <= u32::MAX))
                &&& (r is Ok ==> packed_color_code(r->Ok_0) == b.spec_elems() + 5 && packed_width(
                    r->Ok_0,
                ) == b.spec_width() && packed_height(r->Ok_0) == b.spec_height()
                    && packed_data_f32_bits(r->Ok_0) == bits_of(b.spec_packed()))
            },
    {
        match self {
            DynamicSerialImage::U8(b) => b.into_dynamic_image(),
            DynamicSerialImage::U16(b) => b.into_dynamic_image(),
            DynamicSerialImage::F32(b) => b.into_dynamic_image(),
        }
    }
}

impl Clone for DynamicSerialImage {
    /// A deep copy: the active buffer is cloned channel by channel.
    fn clone(&self) -> (res: Self)
        ensures
            res.wf() == self.wf(),
            (res.spec_meta() is Some) == (self.spec_meta() is Some),
            res.spec_meta() is Some ==> res.spec_meta()->0@ == self.spec_meta()->0@,
            self is U8 ==> res is U8 && same_pixels(self->U8_0, res->U8_0),
            self is U16 ==> res is U16 && same_pixels(self->U16_0, res->U16_0),
            self is F32 ==> res is F32 && same_pixels(self->F32_0, res->F32_0),
    {
        match self {
            DynamicSerialImage::U8(b) => DynamicSerialImage::U8(b.clone()),
            DynamicSerialImage::U16(b) => DynamicSerialImage::U16(b.clone()),
            DynamicSerialImage::F32(b) => DynamicSerialImage::F32(b.clone()),
        }
    }
}

impl From<SerialImageBuffer<u8>> for DynamicSerialImage {
    /// Wrap an 8-bit buffer.
    fn from(value: SerialImageBuffer<u8>) -> (r: DynamicSerialImage) {
        DynamicSerialImage::U8(value)
    }
}

impl vstd::std_specs::convert::FromSpecImpl<SerialImageBuffer<u8>> for DynamicSerialImage {
    open spec fn obeys_from_spec() -> bool {
        true
    }

    open spec fn from_spec(value: SerialImageBuffer<u8>) -> DynamicSerialImage {
        DynamicSerialImage::U8(value)
    }
}

impl From<SerialImageBuffer<u16>> for DynamicSerialImage {
    /// Wrap a 16-bit buffer.
    fn from(value: SerialImageBuffer<u16>) -> (r: DynamicSerialImage) {
        DynamicSerialImage::U16(value)
    }
}

impl vstd::std_specs::convert::FromSpecImpl<SerialImageBuffer<u16>> for DynamicSerialImage {
    open spec fn obeys_from_spec() -> bool {
        true
    }

    open spec fn from_spec(value: SerialImageBuffer<u16>) -> DynamicSerialImage {
        DynamicSerialImage::U16(value)
    }
}

impl From<SerialImageBuffer<F32Bits>> for DynamicSerialImage {
    /// Wrap a float buffer.
    fn from(value: SerialImageBuffer<F32Bits>) -> (r: DynamicSerialImage) {
        DynamicSerialImage::F32(value)
    }
}

impl vstd::std_specs::convert::FromSpecImpl<SerialImageBuffer<F32Bits>> for DynamicSerialImage {
    open spec fn obeys_from_spec() -> bool {
        true
    }

    open spec fn from_spec(value: SerialImageBuffer<F32Bits>) -> DynamicSerialImage {
        DynamicSerialImage::F32(value)
    }
}

} // verus!
