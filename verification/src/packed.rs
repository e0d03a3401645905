//! The boundary to the packed-pixel representation: the `image` crate's
//! `DynamicImage`. The planar buffers convert losslessly to and from it;
//! every call into the outside crate sits behind a small trusted wrapper
//! whose contract states what the crate's source shows, over the named
//! views of a packed image (its color tag, dimensions and raw samples).

use vstd::prelude::*;

use crate::pixelformat::{code_channels, F32Bits, COLOR_L16, COLOR_L8, COLOR_LA16, COLOR_LA8,
    COLOR_RGB16, COLOR_RGB32F, COLOR_RGB8, COLOR_RGBA16, COLOR_RGBA32F, COLOR_RGBA8};
use crate::serialimage::SerialImageBuffer;
use crate::SerialImageError;

verus! {

#[verifier::external_type_specification]
#[verifier::external_body]
/// The packed-pixel image type of the `image` crate, declared opaquely.
pub struct ExDynamicImage(image::DynamicImage);

#[verifier::external_type_specification]
#[verifier::external_body]
/// The resampling filter selector of the `image` crate, declared
/// opaquely and passed through untouched.
pub struct ExFilterType(image::imageops::FilterType);

/// The color tag of a packed image: which of the ten `DynamicImage`
/// variants holds it, numbered as the packed color-space tags of
/// [`crate::pixelformat`].
pub uninterp spec fn packed_color_code(img: image::DynamicImage) -> int;

/// The width a packed image reports.
pub uninterp spec fn packed_width(img: image::DynamicImage) -> int;

/// The height a packed image reports.
pub uninterp spec fn packed_height(img: image::DynamicImage) -> int;

/// The raw sample container of a packed 8-bit image.
pub uninterp spec fn packed_data_u8(img: image::DynamicImage) -> Seq<u8>;

/// The raw sample container of a packed 16-bit image.
pub uninterp spec fn packed_data_u16(img: image::DynamicImage) -> Seq<u16>;

/// The raw sample container of a packed float image, each sample as its
/// bit pattern.
pub uninterp spec fn packed_data_f32_bits(img: image::DynamicImage) -> Seq<u32>;

/// Relies on `image::DynamicImage::width`: every variant reports the
/// width its buffer was built with.
#[verifier::external_body]
fn packed_width_of(img: &image::DynamicImage) -> (w: u32)
    ensures
        w as int == packed_width(*img),
{
    img.width()
}

/// Relies on `image::DynamicImage::height`: every variant reports the
/// height its buffer was built with.
#[verifier::external_body]
fn packed_height_of(img: &image::DynamicImage) -> (h: u32)
    ensures
        h as int == packed_height(*img),
{
    img.height()
}

/// Relies on the ten `image::DynamicImage` variants (the same tags that
/// `DynamicImage::color` reports): one arm per variant, in declaration
/// order.
#[verifier::external_body]
pub(crate) fn packed_code_of(img: &image::DynamicImage) -> (c: u8)
    ensures
        c as int == packed_color_code(*img),
        c <= 9,
{
    match img {
        image::DynamicImage::ImageLuma8(_) => 0,
        image::DynamicImage::ImageLumaA8(_) => 1,
        image::DynamicImage::ImageRgb8(_) => 2,
        image::DynamicImage::ImageRgba8(_) => 3,
        image::DynamicImage::ImageLuma16(_) => 4,
        image::DynamicImage::ImageLumaA16(_) => 5,
        image::DynamicImage::ImageRgb16(_) => 6,
        image::DynamicImage::ImageRgba16(_) => 7,
        image::DynamicImage::ImageRgb32F(_) => 8,
        image::DynamicImage::ImageRgba32F(_) => 9,
        // The enum is non-exhaustive for future growth; this version of
        // the crate has exactly the ten variants above.
        _ => 0,
    }
}

/// Relies on `image::ImageBuffer::into_raw`: it hands back the sample
/// container unchanged. One arm per 8-bit variant.
#[verifier::external_body]
fn packed_take_u8(img: image::DynamicImage) -> (d: Vec<u8>)
    requires
        0 <= packed_color_code(img) <= 3,
    ensures
        d@ == packed_data_u8(img),
{
    match img {
        image::DynamicImage::ImageLuma8(b) => b.into_raw(),
        image::DynamicImage::ImageLumaA8(b) => b.into_raw(),
        image::DynamicImage::ImageRgb8(b) => b.into_raw(),
        image::DynamicImage::ImageRgba8(b) => b.into_raw(),
        // Unreachable: the color tag is one of the four arms above.
        _ => Vec::new(),
    }
}

/// Relies on `image::ImageBuffer::into_raw`: it hands back the sample
/// container unchanged. One arm per 16-bit variant.
#[verifier::external_body]
fn packed_take_u16(img: image::DynamicImage) -> (d: Vec<u16>)
    requires
        4 <= packed_color_code(img) <= 7,
    ensures
        d@ == packed_data_u16(img),
{
    match img {
        image::DynamicImage::ImageLuma16(b) => b.into_raw(),
        image::DynamicImage::ImageLumaA16(b) => b.into_raw(),
        image::DynamicImage::ImageRgb16(b) => b.into_raw(),
        image::DynamicImage::ImageRgba16(b) => b.into_raw(),
        // Unreachable: the color tag is one of the four arms above.
        _ => Vec::new(),
    }
}

/// Relies on `image::ImageBuffer::into_raw`, which hands back the
/// sample container unchanged, and on `bytemuck::cast_vec`, which
/// reinterprets each float sample as its bit pattern in place. One arm
/// per float variant.
#[verifier::external_body]
fn packed_take_f32_bits(img: image::DynamicImage) -> (d: Vec<u32>)
    requires
        8 <= packed_color_code(img) <= 9,
    ensures
        d@ == packed_data_f32_bits(img),
{
    match img {
        image::DynamicImage::ImageRgb32F(b) => bytemuck::cast_vec(b.into_raw()),
        image::DynamicImage::ImageRgba32F(b) => bytemuck::cast_vec(b.into_raw()),
        // Unreachable: the color tag is one of the two arms above.
        _ => Vec::new(),
    }
}

/// Relies on `image::ImageBuffer::from_raw`: with a container of exactly
/// `width * height` samples it returns the buffer holding that container.
#[verifier::external_body]
fn packed_from_luma8(width: u32, height: u32, data: Vec<u8>) -> (img: image::DynamicImage)
    requires
        data@.len() == width as int * height as int,
    ensures
        packed_color_code(img) == COLOR_L8 as int,
        packed_width(img) == width as int,
        packed_height(img) == height as int,
        packed_data_u8(img) == data@,
{
    image::DynamicImage::ImageLuma8(image::GrayImage::from_raw(width, height, data).unwrap())
}

/// Relies on `image::ImageBuffer::from_raw`: with a container of exactly
/// `2 * width * height` samples it returns the buffer holding that
/// container.
#[verifier::external_body]
fn packed_from_luma_alpha8(width: u32, height: u32, data: Vec<u8>) -> (img: image::DynamicImage)
    requires
        data@.len() == 2 * width as int * height as int,
    ensures
        packed_color_code(img) == COLOR_LA8 as int,
        packed_width(img) == width as int,
        packed_height(img) == height as int,
        packed_data_u8(img) == data@,
{
    image::DynamicImage::ImageLumaA8(
        image::GrayAlphaImage::from_raw(width, height, data).unwrap(),
    )
}

/// Relies on `image::ImageBuffer::from_raw`: with a container of exactly
/// `3 * width * height` samples it returns the buffer holding that
/// container.
#[verifier::external_body]
fn packed_from_rgb8(width: u32, height: u32, data: Vec<u8>) -> (img: image::DynamicImage)
    requires
        data@.len() == 3 * width as int * height as int,
    ensures
        packed_color_code(img) == COLOR_RGB8 as int,
        packed_width(img) == width as int,
        packed_height(img) == height as int,
        packed_data_u8(img) == data@,
{
    image::DynamicImage::ImageRgb8(image::RgbImage::from_raw(width, height, data).unwrap())
}

/// Relies on `image::ImageBuffer::from_raw`: with a container of exactly
/// `4 * width * height` samples it returns the buffer holding that
/// container.
#[verifier::external_body]
fn packed_from_rgba8(width: u32, height: u32, data: Vec<u8>) -> (img: image::DynamicImage)
    requires
        data@.len() == 4 * width as int * height as int,
    ensures
        packed_color_code(img) == COLOR_RGBA8 as int,
        packed_width(img) == width as int,
        packed_height(img) == height as int,
        packed_data_u8(img) == data@,
{
    image::DynamicImage::ImageRgba8(image::RgbaImage::from_raw(width, height, data).unwrap())
}

/// Relies on `image::ImageBuffer::from_raw`: with a container of exactly
/// `width * height` samples it returns the buffer holding that container.
#[verifier::external_body]
fn packed_from_luma16(width: u32, height: u32, data: Vec<u16>) -> (img: image::DynamicImage)
    requires
        data@.len() == width as int * height as int,
    ensures
        packed_color_code(img) == COLOR_L16 as int,
        packed_width(img) == width as int,
        packed_height(img) == height as int,
        packed_data_u16(img) == data@,
{
    image::DynamicImage::ImageLuma16(
        image::ImageBuffer::<image::Luma<u16>, Vec<u16>>::from_raw(width, height, data).unwrap(),
    )
}

/// Relies on `image::ImageBuffer::from_raw`: with a container of exactly
/// `2 * width * height` samples it returns the buffer holding that
/// container.
#[verifier::external_body]
fn packed_from_luma_alpha16(width: u32, height: u32, data: Vec<u16>) -> (img: image::DynamicImage)
    requires
        data@.len() == 2 * width as int * height as int,
    ensures
        packed_color_code(img) == COLOR_LA16 as int,
        packed_width(img) == width as int,
        packed_height(img) == height as int,
        packed_data_u16(img) == data@,
{
    image::DynamicImage::ImageLumaA16(
        image::ImageBuffer::<image::LumaA<u16>, Vec<u16>>::from_raw(width, height, data).unwrap(),
    )
}

/// Relies on `image::ImageBuffer::from_raw`: with a container of exactly
/// `3 * width * height` samples it returns the buffer holding that
/// container.
#[verifier::external_body]
fn packed_from_rgb16(width: u32, height: u32, data: Vec<u16>) -> (img: image::DynamicImage)
    requires
        data@.len() == 3 * width as int * height as int,
    ensures
        packed_color_code(img) == COLOR_RGB16 as int,
        packed_width(img) == width as int,
        packed_height(img) == height as int,
        packed_data_u16(img) == data@,
{
    image::DynamicImage::ImageRgb16(image::ImageBuffer::<image::Rgb<u16>, Vec<u16>>::from_raw(width, height, data).unwrap())
}

/// Relies on `image::ImageBuffer::from_raw`: with a container of exactly
/// `4 * width * height` samples it returns the buffer holding that
/// container.
#[verifier::external_body]
fn packed_from_rgba16(width: u32, height: u32, data: Vec<u16>) -> (img: image::DynamicImage)
    requires
        data@.len() == 4 * width as int * height as int,
    ensures
        packed_color_code(img) == COLOR_RGBA16 as int,
        packed_width(img) == width as int,
        packed_height(img) == height as int,
        packed_data_u16(img) == data@,
{
    image::DynamicImage::ImageRgba16(
        image::ImageBuffer::<image::Rgba<u16>, Vec<u16>>::from_raw(width, height, data).unwrap(),
    )
}

/// Relies on `image::ImageBuffer::from_raw`, which with a container of
/// exactly `3 * width * height` samples returns the buffer holding that
/// container, and on `bytemuck::cast_vec`, which reinterprets the given
/// bit patterns as float samples in place.
#[verifier::external_body]
fn packed_from_rgb32f(width: u32, height: u32, data: Vec<u32>) -> (img: image::DynamicImage)
    requires
        data@.len() == 3 * width as int * height as int,
    ensures
        packed_color_code(img) == COLOR_RGB32F as int,
        packed_width(img) == width as int,
        packed_height(img) == height as int,
        packed_data_f32_bits(img) == data@,
{
    image::DynamicImage::ImageRgb32F(
        image::Rgb32FImage::from_raw(width, height, bytemuck::cast_vec(data)).unwrap(),
    )
}

/// Relies on `image::ImageBuffer::from_raw`, which with a container of
/// exactly `4 * width * height` samples returns the buffer holding that
/// container, and on `bytemuck::cast_vec`, which reinterprets the given
/// bit patterns as float samples in place.
#[verifier::external_body]
fn packed_from_rgba32f(width: u32, height: u32, data: Vec<u32>) -> (img: image::DynamicImage)
    requires
        data@.len() == 4 * width as int * height as int,
    ensures
        packed_color_code(img) == COLOR_RGBA32F as int,
        packed_width(img) == width as int,
        packed_height(img) == height as int,
        packed_data_f32_bits(img) == data@,
{
    image::DynamicImage::ImageRgba32F(
        image::Rgba32FImage::from_raw(width, height, bytemuck::cast_vec(data)).unwrap(),
    )
}

/// Relies on `image::DynamicImage::resize`: it keeps the variant (and so
/// the color tag); it returns the image itself when the bounds equal the
/// current dimensions and otherwise resamples into a freshly allocated,
/// exactly sized buffer. Its dimension computation clamps each output
/// dimension to its bound but keeps it at least one, so each output
/// dimension is at most the larger of its bound and one.
#[verifier::external_body]
fn packed_resize(
    img: &image::DynamicImage,
    nwidth: u32,
    nheight: u32,
    filter: image::imageops::FilterType,
) -> (r: image::DynamicImage)
    ensures
        packed_color_code(r) == packed_color_code(*img),
        packed_width(*img) >= 1 && packed_height(*img) >= 1 ==> packed_width(r) >= 1
            && packed_height(r) >= 1,
        packed_width(r) <= u32::MAX && packed_height(r) <= u32::MAX,
        packed_width(r) <= (if nwidth >= 1 {
            nwidth as int
        } else {
            1
        }),
        packed_height(r) <= (if nheight >= 1 {
            nheight as int
        } else {
            1
        }),
        packed_data_u8(*img).len() == code_channels(packed_color_code(*img)) * (packed_width(*img)
            * packed_height(*img)) ==> packed_data_u8(r).len() == code_channels(
            packed_color_code(r),
        ) * (packed_width(r) * packed_height(r)),
        packed_data_u16(*img).len() == code_channels(packed_color_code(*img)) * (packed_width(*img)
            * packed_height(*img)) ==> packed_data_u16(r).len() == code_channels(
            packed_color_code(r),
        ) * (packed_width(r) * packed_height(r)),
        packed_data_f32_bits(*img).len() == code_channels(packed_color_code(*img)) * (packed_width(
            *img,
        ) * packed_height(*img)) ==> packed_data_f32_bits(r).len() == code_channels(
            packed_color_code(r),
        ) * (packed_width(r) * packed_height(r)),
{
    img.resize(nwidth, nheight, filter)
}

/// Turn raw bit patterns into float samples, one for one.
fn wrap_bits(v: Vec<u32>) -> (r: Vec<F32Bits>)
    ensures
        r@.len() == v@.len(),
        forall|i: int| 0 <= i < v@.len() ==> #[trigger] r@[i] == F32Bits(v@[i]),
{
    let n = v.len();
    let mut out: Vec<F32Bits> = Vec::new();
    let mut i: usize = 0;
    while i < n
        invariant
            i <= n,
            n == v@.len(),
            out@.len() == i,
            forall|q: int| 0 <= q < i ==> #[trigger] out@[q] == F32Bits(v@[q]),
        decreases n - i,
    {
        out.push(F32Bits(v[i]));
        i = i + 1;
    }
    out
}

/// Turn float samples back into raw bit patterns, one for one.
fn unwrap_bits(v: Vec<F32Bits>) -> (r: Vec<u32>)
    ensures
        r@.len() == v@.len(),
        forall|i: int| 0 <= i < v@.len() ==> #[trigger] r@[i] == v@[i].0,
{
    let n = v.len();
    let mut out: Vec<u32> = Vec::new();
    let mut i: usize = 0;
    while i < n
        invariant
            i <= n,
            n == v@.len(),
            out@.len() == i,
            forall|q: int| 0 <= q < i ==> #[trigger] out@[q] == v@[q].0,
        decreases n - i,
    {
        out.push(v[i].0);
        i = i + 1;
    }
    out
}

/// The bit patterns of a float sample sequence.
pub open spec fn bits_of(s: Seq<F32Bits>) -> Seq<u32> {
    s.map_values(|b: F32Bits| b.0)
}

impl SerialImageBuffer<u8> {
    /// Convert this buffer into a packed 8-bit image whose color space
    /// matches the channel count and whose raw samples are the buffer's
    /// interleaved wire form. Fails exactly when a dimension exceeds
    /// what the packed representation can record.
    pub fn into_dynamic_image(self) -> (r: Result<image::DynamicImage, SerialImageError>)
        requires
            self.wf(),
        ensures
            (r is Ok) == (self.spec_width() <= u32::MAX && self.spec_height() <= u32::MAX),
            r is Err ==> r->Err_0 == SerialImageError::InvalidDimensions,
            r is Ok ==> {
                let img = r->Ok_0;
                &&& packed_color_code(img) == self.spec_elems() - 1
                &&& packed_width(img) == self.spec_width()
                &&& packed_height(img) == self.spec_height()
                &&& packed_data_u8(img) == self.spec_packed()
            },
    {
        if self.width() > u32::MAX as usize || self.height() > u32::MAX as usize {
            return Err(SerialImageError::InvalidDimensions);
        }
        let w = self.width() as u32;
        let h = self.height() as u32;
        let k = self.pixel_elems();
        let data = self.into_vec();
        if k == 1 {
            Ok(packed_from_luma8(w, h, data))
        } else if k == 2 {
            proof {
                assert(data@.len() == 2 * w as int * h as int) by (nonlinear_arith)
                    requires
                        data@.len() == 2 * (w as int * h as int),
                ;
            }
            Ok(packed_from_luma_alpha8(w, h, data))
        } else if k == 3 {
            proof {
                assert(data@.len() == 3 * w as int * h as int) by (nonlinear_arith)
                    requires
                        data@.len() == 3 * (w as int * h as int),
                ;
            }
            Ok(packed_from_rgb8(w, h, data))
        } else {
            proof {
                assert(data@.len() == 4 * w as int * h as int) by (nonlinear_arith)
                    requires
                        data@.len() == 4 * (w as int * h as int),
                ;
            }
            Ok(packed_from_rgba8(w, h, data))
        }
    }

    /// Build a planar buffer from a packed 8-bit image: the de-interleave
    /// of its raw samples, with no metadata attached. Fails on packed
    /// images of another element kind, on zero dimensions, and on a
    /// sample container whose length does not match the dimensions.
    pub fn from_dynamic_image(img: image::DynamicImage) -> (r: Result<
        SerialImageBuffer<u8>,
        SerialImageError,
    >)
        ensures
            ({
                let code = packed_color_code(img);
                let w = packed_width(img);
                let h = packed_height(img);
                let k = code_channels(code);
                let exact = packed_data_u8(img).len() == k * (w * h);
                &&& (!(0 <= code <= 3) ==> r == Err::<SerialImageBuffer<u8>, SerialImageError>(
                    SerialImageError::UnsupportedPixelFormat,
                ))
                &&& (0 <= code <= 3 && (w == 0 || h == 0) ==> r == Err::<
                    SerialImageBuffer<u8>,
                    SerialImageError,
                >(SerialImageError::InvalidDimensions))
                &&& (0 <= code <= 3 && w >= 1 && h >= 1 && !exact ==> r == Err::<
                    SerialImageBuffer<u8>,
                    SerialImageError,
                >(SerialImageError::LengthMismatch))
                &&& (0 <= code <= 3 && w >= 1 && h >= 1 && exact ==> r is Ok)
                &&& (r is Ok ==> {
                    let b = r->Ok_0;
                    &&& b.wf()
                    &&& b.spec_width() == w
                    &&& b.spec_height() == h
                    &&& b.spec_elems() == k
                    &&& b.spec_meta() is None
                    &&& b.spec_packed() == packed_data_u8(img)
                })
            }),
    {
        let code = packed_code_of(&img);
        if code > 3 {
            return Err(SerialImageError::UnsupportedPixelFormat);
        }
        let w = packed_width_of(&img);
        let h = packed_height_of(&img);
        if w == 0 || h == 0 {
            return Err(SerialImageError::InvalidDimensions);
        }
        let k = (code + 1) as usize;
        let data = packed_take_u8(img);
        packed_buffer_from_parts(w, h, k, data)
    }

    /// Resample this image to the largest size that preserves its aspect
    /// ratio and fits within `nwidth` by `nheight`, with the given
    /// filter. The resampling itself is the packed representation's;
    /// the result is re-validated and carries the original metadata.
    pub fn resize(
        self,
        nwidth: usize,
        nheight: usize,
        filter: image::imageops::FilterType,
    ) -> (r: Result<SerialImageBuffer<u8>, SerialImageError>)
        requires
            self.wf(),
        ensures
            r is Err ==> r->Err_0 == SerialImageError::InvalidDimensions,
            self.spec_width() <= u32::MAX && self.spec_height() <= u32::MAX && nwidth <= u32::MAX
                && nheight <= u32::MAX ==> r is Ok,
            r is Ok ==> {
                let b = r->Ok_0;
                &&& b.wf()
                &&& b.spec_elems() == self.spec_elems()
                &&& b.spec_width() <= (if nwidth >= 1 {
                    nwidth as int
                } else {
                    1
                })
                &&& b.spec_height() <= (if nheight >= 1 {
                    nheight as int
                } else {
                    1
                })
                &&& ((b.spec_meta() is Some) == (self.spec_meta() is Some))
                &&& (b.spec_meta() is Some ==> b.spec_meta()->0@ == self.spec_meta()->0@)
            },
    {
        if nwidth > u32::MAX as usize || nheight > u32::MAX as usize {
            return Err(SerialImageError::InvalidDimensions);
        }
        let meta = self.get_metadata();
        let packed = match self.into_dynamic_image() {
            Ok(p) => p,
            Err(e) => {
                return Err(e);
            },
        };
        let resized = packed_resize(&packed, nwidth as u32, nheight as u32, filter);
        let out = SerialImageBuffer::<u8>::from_dynamic_image(resized);
        match out {
            Ok(mut b) => {
                b.set_metadata(meta);
                Ok(b)
            },
            Err(_) => {
                proof {
                    assert(false);
                }
                unreached()
            },
        }
    }
}

/// Validate and de-interleave raw packed samples: the dimensions are
/// already known positive and the channel count known to lie between
/// one and four; only the container length remains to be checked.
fn packed_buffer_from_parts<T: crate::pixelformat::SerialImageStorageTypes + Copy>(
    w: u32,
    h: u32,
    k: usize,
    data: Vec<T>,
) -> (r: Result<SerialImageBuffer<T>, SerialImageError>)
    requires
        w >= 1,
        h >= 1,
        1 <= k <= 4,
    ensures
        (r is Ok) == (data@.len() == k * (packed_area(w, h))),
        r is Err ==> r->Err_0 == SerialImageError::LengthMismatch,
        r is Ok ==> {
            let b = r->Ok_0;
            &&& b.wf()
            &&& b.spec_width() == w as int
            &&& b.spec_height() == h as int
            &&& b.spec_elems() == k
            &&& b.spec_meta() is None
            &&& b.spec_packed() == data@
        },
{
    proof {
        assert(w as int * h as int >= 1) by (nonlinear_arith)
            requires
                w >= 1,
                h >= 1,
        ;
    }
    let dl = data.len();
    let wu = w as usize;
    let hu = h as usize;
    let area: usize;
    match wu.checked_mul(hu) {
        None => {
            // The pixel count alone exceeds every container length.
            proof {
                assert((dl as int) < (k as int) * ((w as int) * (h as int))) by (nonlinear_arith)
                    requires
                        (dl as int) < (w as int) * (h as int),
                        k >= 1,
                ;
            }
            return Err(SerialImageError::LengthMismatch);
        },
        Some(a) => {
            area = a;
        },
    }
    let expect: usize;
    match area.checked_mul(k) {
        None => {
            proof {
                assert((dl as int) < (k as int) * ((w as int) * (h as int))) by (nonlinear_arith)
                    requires
                        (dl as int) <= usize::MAX as int,
                        (usize::MAX as int) < ((w as int) * (h as int)) * (k as int),
                        k >= 1,
                ;
            }
            return Err(SerialImageError::LengthMismatch);
        },
        Some(e) => {
            expect = e;
        },
    }
    if dl != expect {
        return Err(SerialImageError::LengthMismatch);
    }
    proof {
        vstd::arithmetic::div_mod::lemma_mod_multiples_basic(k as int, area as int);
        vstd::arithmetic::div_mod::lemma_div_multiples_vanish(k as int, area as int);
        assert(dl as int == k * area);
        assert(dl as int % area as int == 0) by {
            assert(k * area == (k as int) * (area as int));
        }
    }
    let out = SerialImageBuffer::<T>::from_vec(w as usize, h as usize, data);
    match out {
        Ok(b) => Ok(b),
        Err(_) => {
            proof {
                assert(false);
            }
            unreached()
        },
    }
}

/// The pixel count of a packed image with the given dimensions.
pub open spec fn packed_area(w: u32, h: u32) -> int {
    w as int * h as int
}

impl SerialImageBuffer<u16> {
    /// Convert this buffer into a packed 16-bit image whose color space
    /// matches the channel count and whose raw samples are the buffer's
    /// interleaved wire form. Fails exactly when a dimension exceeds
    /// what the packed representation can record.
    pub fn into_dynamic_image(self) -> (r: Result<image::DynamicImage, SerialImageError>)
        requires
            self.wf(),
        ensures
            (r is Ok) == (self.spec_width() <= u32::MAX && self.spec_height() <= u32::MAX),
            r is Err ==> r->Err_0 == SerialImageError::InvalidDimensions,
            r is Ok ==> {
                let img = r->Ok_0;
                &&& packed_color_code(img) == self.spec_elems() + 3
                &&& packed_width(img) == self.spec_width()
                &&& packed_height(img) == self.spec_height()
                &&& packed_data_u16(img) == self.spec_packed()
            },
    {
        if self.width() > u32::MAX as usize || self.height() > u32::MAX as usize {
            return Err(SerialImageError::InvalidDimensions);
        }
        let w = self.width() as u32;
        let h = self.height() as u32;
        let k = self.pixel_elems();
        let data = self.into_vec();
        if k == 1 {
            Ok(packed_from_luma16(w, h, data))
        } else if k == 2 {
            proof {
                assert(data@.len() == 2 * w as int * h as int) by (nonlinear_arith)
                    requires
                        data@.len() == 2 * (w as int * h as int),
                ;
            }
            Ok(packed_from_luma_alpha16(w, h, data))
        } else if k == 3 {
            proof {
                assert(data@.len() == 3 * w as int * h as int) by (nonlinear_arith)
                    requires
                        data@.len() == 3 * (w as int * h as int),
                ;
            }
            Ok(packed_from_rgb16(w, h, data))
        } else {
            proof {
                assert(data@.len() == 4 * w as int * h as int) by (nonlinear_arith)
                    requires
                        data@.len() == 4 * (w as int * h as int),
                ;
            }
            Ok(packed_from_rgba16(w, h, data))
        }
    }

    /// Build a planar buffer from a packed 16-bit image: the
    /// de-interleave of its raw samples, with no metadata attached.
    /// Fails on packed images of another element kind, on zero
    /// dimensions, and on a sample container whose length does not
    /// match the dimensions.
    pub fn from_dynamic_image(img: image::DynamicImage) -> (r: Result<
        SerialImageBuffer<u16>,
        SerialImageError,
    >)
        ensures
            ({
                let code = packed_color_code(img);
                let w = packed_width(img);
                let h = packed_height(img);
                let k = code_channels(code);
                let exact = packed_data_u16(img).len() == k * (w * h);
                &&& (!(4 <= code <= 7) ==> r == Err::<SerialImageBuffer<u16>, SerialImageError>(
                    SerialImageError::UnsupportedPixelFormat,
                ))
                &&& (4 <= code <= 7 && (w == 0 || h == 0) ==> r == Err::<
                    SerialImageBuffer<u16>,
                    SerialImageError,
                >(SerialImageError::InvalidDimensions))
                &&& (4 <= code <= 7 && w >= 1 && h >= 1 && !exact ==> r == Err::<
                    SerialImageBuffer<u16>,
                    SerialImageError,
                >(SerialImageError::LengthMismatch))
                &&& (4 <= code <= 7 && w >= 1 && h >= 1 && exact ==> r is Ok)
                &&& (r is Ok ==> {
                    let b = r->Ok_0;
                    &&& b.wf()
                    &&& b.spec_width() == w
                    &&& b.spec_height() == h
                    &&& b.spec_elems() == k
                    &&& b.spec_meta() is None
                    &&& b.spec_packed() == packed_data_u16(img)
                })
            }),
    {
        let code = packed_code_of(&img);
        if code < 4 || code > 7 {
            return Err(SerialImageError::UnsupportedPixelFormat);
        }
        let w = packed_width_of(&img);
        let h = packed_height_of(&img);
        if w == 0 || h == 0 {
            return Err(SerialImageError::InvalidDimensions);
        }
        let k = (code - 3) as usize;
        let data = packed_take_u16(img);
        packed_buffer_from_parts(w, h, k, data)
    }

    /// Resample this image to the largest size that preserves its aspect
    /// ratio and fits within `nwidth` by `nheight`, with the given
    /// filter. The resampling itself is the packed representation's;
    /// the result is re-validated and carries the original metadata.
    pub fn resize(
        self,
        nwidth: usize,
        nheight: usize,
        filter: image::imageops::FilterType,
    ) -> (r: Result<SerialImageBuffer<u16>, SerialImageError>)
        requires
            self.wf(),
        ensures
            r is Err ==> r->Err_0 == SerialImageError::InvalidDimensions,
            self.spec_width() <= u32::MAX && self.spec_height() <= u32::MAX && nwidth <= u32::MAX
                && nheight <= u32::MAX ==> r is Ok,
            r is Ok ==> {
                let b = r->Ok_0;
                &&& b.wf()
                &&& b.spec_elems() == self.spec_elems()
                &&& b.spec_width() <= (if nwidth >= 1 {
                    nwidth as int
                } else {
                    1
                })
                &&& b.spec_height() <= (if nheight >= 1 {
                    nheight as int
                } else {
                    1
                })
                &&& ((b.spec_meta() is Some) == (self.spec_meta() is Some))
                &&& (b.spec_meta() is Some ==> b.spec_meta()->0@ == self.spec_meta()->0@)
            },
    {
        if nwidth > u32::MAX as usize || nheight > u32::MAX as usize {
            return Err(SerialImageError::InvalidDimensions);
        }
        let meta = self.get_metadata();
        let packed = match self.into_dynamic_image() {
            Ok(p) => p,
            Err(e) => {
                return Err(e);
            },
        };
        let resized = packed_resize(&packed, nwidth as u32, nheight as u32, filter);
        let out = SerialImageBuffer::<u16>::from_dynamic_image(resized);
        match out {
            Ok(mut b) => {
                b.set_metadata(meta);
                Ok(b)
            },
            Err(_) => {
                proof {
                    assert(false);
                }
                unreached()
            },
        }
    }
}

impl SerialImageBuffer<F32Bits> {
    /// Convert this buffer into a packed float image whose color space
    /// matches the channel count and whose raw samples are the buffer's
    /// interleaved wire form, bit pattern for bit pattern. Fails on the
    /// channel counts that have no packed float color space (one and
    /// two), and when a dimension exceeds what the packed
    /// representation can record.
    pub fn into_dynamic_image(self) -> (r: Result<image::DynamicImage, SerialImageError>)
        requires
            self.wf(),
        ensures
            (r is Ok) == (self.spec_elems() >= 3 && self.spec_width() <= u32::MAX
                && self.spec_height() <= u32::MAX),
            r is Err ==> r->Err_0 == (if self.spec_elems() >= 3 {
                SerialImageError::InvalidDimensions
            } else {
                SerialImageError::UnsupportedPixelFormat
            }),
            r is Ok ==> {
                let img = r->Ok_0;
                &&& packed_color_code(img) == self.spec_elems() + 5
                &&& packed_width(img) == self.spec_width()
                &&& packed_height(img) == self.spec_height()
                &&& packed_data_f32_bits(img) == bits_of(self.spec_packed())
            },
    {
        if self.pixel_elems() < 3 {
            return Err(SerialImageError::UnsupportedPixelFormat);
        }
        if self.width() > u32::MAX as usize || self.height() > u32::MAX as usize {
            return Err(SerialImageError::InvalidDimensions);
        }
        let w = self.width() as u32;
        let h = self.height() as u32;
        let k = self.pixel_elems();
        let ghost packed_view = self.spec_packed();
        let data = self.into_vec();
        let raw = unwrap_bits(data);
        proof {
            assert(raw@ =~= bits_of(packed_view));
        }
        if k == 3 {
            proof {
                assert(raw@.len() == 3 * w as int * h as int) by (nonlinear_arith)
                    requires
                        raw@.len() == 3 * (w as int * h as int),
                ;
            }
            Ok(packed_from_rgb32f(w, h, raw))
        } else {
            proof {
                assert(raw@.len() == 4 * w as int * h as int) by (nonlinear_arith)
                    requires
                        raw@.len() == 4 * (w as int * h as int),
                ;
            }
            Ok(packed_from_rgba32f(w, h, raw))
        }
    }

    /// Build a planar buffer from a packed float image: the
    /// de-interleave of its raw samples, each held as its bit pattern,
    /// with no metadata attached. Fails on packed images of another
    /// element kind, on zero dimensions, and on a sample container
    /// whose length does not match the dimensions.
    pub fn from_dynamic_image(img: image::DynamicImage) -> (r: Result<
        SerialImageBuffer<F32Bits>,
        SerialImageError,
    >)
        ensures
            ({
                let code = packed_color_code(img);
                let w = packed_width(img);
                let h = packed_height(img);
                let k = code_channels(code);
                let exact = packed_data_f32_bits(img).len() == k * (w * h);
                &&& (!(8 <= code <= 9) ==> r == Err::<
                    SerialImageBuffer<F32Bits>,
                    SerialImageError,
                >(SerialImageError::UnsupportedPixelFormat))
                &&& (8 <= code <= 9 && (w == 0 || h == 0) ==> r == Err::<
                    SerialImageBuffer<F32Bits>,
                    SerialImageError,
                >(SerialImageError::InvalidDimensions))
                &&& (8 <= code <= 9 && w >= 1 && h >= 1 && !exact ==> r == Err::<
                    SerialImageBuffer<F32Bits>,
                    SerialImageError,
                >(SerialImageError::LengthMismatch))
                &&& (8 <= code <= 9 && w >= 1 && h >= 1 && exact ==> r is Ok)
                &&& (r is Ok ==> {
                    let b = r->Ok_0;
                    &&& b.wf()
                    &&& b.spec_width() == w
                    &&& b.spec_height() == h
                    &&& b.spec_elems() == k
                    &&& b.spec_meta() is None
                    &&& bits_of(b.spec_packed()) == packed_data_f32_bits(img)
                })
            }),
    {
        let code = packed_code_of(&img);
        if code < 8 {
            return Err(SerialImageError::UnsupportedPixelFormat);
        }
        let w = packed_width_of(&img);
        let h = packed_height_of(&img);
        if w == 0 || h == 0 {
            return Err(SerialImageError::InvalidDimensions);
        }
        let k = (code - 5) as usize;
        let raw = packed_take_f32_bits(img);
        let ghost raw_view = raw@;
        let data = wrap_bits(raw);
        proof {
            assert(bits_of(data@) =~= raw_view);
        }
        let out = packed_buffer_from_parts(w, h, k, data);
        proof {
            if out is Ok {
                assert(bits_of(out->Ok_0.spec_packed()) == raw_view);
            }
        }
        out
    }

    /// Resample this image to the largest size that preserves its aspect
    /// ratio and fits within `nwidth` by `nheight`, with the given
    /// filter. The resampling itself is the packed representation's;
    /// the result is re-validated and carries the original metadata.
    pub fn resize(
        self,
        nwidth: usize,
        nheight: usize,
        filter: image::imageops::FilterType,
    ) -> (r: Result<SerialImageBuffer<F32Bits>, SerialImageError>)
        requires
            self.wf(),
        ensures
            self.spec_elems() >= 3 && self.spec_width() <= u32::MAX && self.spec_height()
                <= u32::MAX && nwidth <= u32::MAX && nheight <= u32::MAX ==> r is Ok,
            r is Ok ==> {
                let b = r->Ok_0;
                &&& b.wf()
                &&& b.spec_elems() == self.spec_elems()
                &&& b.spec_width() <= (if nwidth >= 1 {
                    nwidth as int
                } else {
                    1
                })
                &&& b.spec_height() <= (if nheight >= 1 {
                    nheight as int
                } else {
                    1
                })
                &&& ((b.spec_meta() is Some) == (self.spec_meta() is Some))
                &&& (b.spec_meta() is Some ==> b.spec_meta()->0@ == self.spec_meta()->0@)
            },
    {
        if nwidth > u32::MAX as usize || nheight > u32::MAX as usize {
            return Err(SerialImageError::InvalidDimensions);
        }
        let meta = self.get_metadata();
        let packed = match self.into_dynamic_image() {
            Ok(p) => p,
            Err(e) => {
                return Err(e);
            },
        };
        let resized = packed_resize(&packed, nwidth as u32, nheight as u32, filter);
        let out = SerialImageBuffer::<F32Bits>::from_dynamic_image(resized);
        match out {
            Ok(mut b) => {
                b.set_metadata(meta);
                Ok(b)
            },
            Err(_) => {
                proof {
                    assert(false);
                }
                unreached()
            },
        }
    }
}

} // verus!
