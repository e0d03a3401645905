//! The channel-planar image container: pixel samples held in separate
//! per-channel vectors, validated against the five legal channel
//! combinations, with lossless conversion to and from the interleaved
//! wire layout.

use vstd::prelude::*;

use crate::channelpack::{channel_slice, interleaved, lemma_interleaved_of_channels,
    lemma_interleaved_step};
use crate::imagemetadata::ImageMetaData;
use crate::pixelformat::SerialImageStorageTypes;
use crate::SerialImageError;

verus! {

/// The mathematical value of an optional channel vector.
pub open spec fn optvec_view<T>(v: Option<Vec<T>>) -> Option<Seq<T>> {
    match v {
        Some(x) => Some(x@),
        None => None,
    }
}

/// A serializable image data container.
///
/// Image data is organized in channels: a grayscale image stores data in
/// the luma channel, a color image in the red, green and blue channels,
/// transparency in the alpha channel. Exactly one of four combinations is
/// populated in a well-formed buffer: luma; luma and alpha; red, green
/// and blue; or red, green, blue and alpha. Every populated channel holds
/// exactly `width * height` samples.
#[derive(Debug)]
pub struct SerialImageBuffer<T: SerialImageStorageTypes> {
    meta: Option<ImageMetaData>,
    luma: Option<Vec<T>>,
    red: Option<Vec<T>>,
    green: Option<Vec<T>>,
    blue: Option<Vec<T>>,
    alpha: Option<Vec<T>>,
    width: usize,
    height: usize,
    pixel_elems: u8,
}

impl<T: SerialImageStorageTypes> SerialImageBuffer<T> {
    /// The image width.
    pub closed spec fn spec_width(&self) -> int {
        self.width as int
    }

    /// The image height.
    pub closed spec fn spec_height(&self) -> int {
        self.height as int
    }

    /// The pixel count, `width * height`.
    pub open spec fn spec_area(&self) -> int {
        self.spec_width() * self.spec_height()
    }

    /// The number of elements per pixel.
    pub closed spec fn spec_elems(&self) -> int {
        self.pixel_elems as int
    }

    /// The attached metadata record.
    pub closed spec fn spec_meta(&self) -> Option<ImageMetaData> {
        self.meta
    }

    /// The luma channel's samples, when populated.
    pub closed spec fn spec_luma(&self) -> Option<Seq<T>> {
        optvec_view(self.luma)
    }

    /// The red channel's samples, when populated.
    pub closed spec fn spec_red(&self) -> Option<Seq<T>> {
        optvec_view(self.red)
    }

    /// The green channel's samples, when populated.
    pub closed spec fn spec_green(&self) -> Option<Seq<T>> {
        optvec_view(self.green)
    }

    /// The blue channel's samples, when populated.
    pub closed spec fn spec_blue(&self) -> Option<Seq<T>> {
        optvec_view(self.blue)
    }

    /// The alpha channel's samples, when populated.
    pub closed spec fn spec_alpha(&self) -> Option<Seq<T>> {
        optvec_view(self.alpha)
    }

    /// The populated channels in wire order: luma[, alpha] for grayscale,
    /// red, green, blue[, alpha] for color.
    pub open spec fn spec_channels(&self) -> Seq<Seq<T>>
        recommends
            self.wf(),
    {
        if self.spec_elems() == 1 {
            seq![self.spec_luma()->0]
        } else if self.spec_elems() == 2 {
            seq![self.spec_luma()->0, self.spec_alpha()->0]
        } else if self.spec_elems() == 3 {
            seq![self.spec_red()->0, self.spec_green()->0, self.spec_blue()->0]
        } else {
            seq![self.spec_red()->0, self.spec_green()->0, self.spec_blue()->0,
                self.spec_alpha()->0]
        }
    }

    /// The buffer's interleaved wire form: the packed sequence whose
    /// element `i * channels + j` is sample `i` of channel `j`.
    pub open spec fn spec_packed(&self) -> Seq<T>
        recommends
            self.wf(),
    {
        interleaved(self.spec_channels(), self.spec_area())
    }

    /// Well-formedness: positive dimensions, one of the four legal
    /// channel combinations, consistent with the element count, and every
    /// populated channel holding exactly `width * height` samples.
    pub open spec fn wf(&self) -> bool {
        &&& self.spec_width() >= 1
        &&& self.spec_height() >= 1
        &&& 1 <= self.spec_elems() <= 4
        &&& (self.spec_luma() is Some) == (self.spec_elems() == 1 || self.spec_elems() == 2)
        &&& (self.spec_red() is Some) == (self.spec_elems() == 3 || self.spec_elems() == 4)
        &&& (self.spec_green() is Some) == (self.spec_elems() == 3 || self.spec_elems() == 4)
        &&& (self.spec_blue() is Some) == (self.spec_elems() == 3 || self.spec_elems() == 4)
        &&& (self.spec_alpha() is Some) == (self.spec_elems() == 2 || self.spec_elems() == 4)
        &&& (self.spec_luma() is Some ==> self.spec_luma()->0.len() == self.spec_area())
        &&& (self.spec_red() is Some ==> self.spec_red()->0.len() == self.spec_area())
        &&& (self.spec_green() is Some ==> self.spec_green()->0.len() == self.spec_area())
        &&& (self.spec_blue() is Some ==> self.spec_blue()->0.len() == self.spec_area())
        &&& (self.spec_alpha() is Some ==> self.spec_alpha()->0.len() == self.spec_area())
    }
}

/// Two buffers holding the same pixels: equal dimensions, element count
/// and channel contents (the metadata may differ).
pub open spec fn same_pixels<T: SerialImageStorageTypes>(
    a: SerialImageBuffer<T>,
    b: SerialImageBuffer<T>,
) -> bool {
    &&& a.spec_width() == b.spec_width()
    &&& a.spec_height() == b.spec_height()
    &&& a.spec_elems() == b.spec_elems()
    &&& a.spec_luma() == b.spec_luma()
    &&& a.spec_red() == b.spec_red()
    &&& a.spec_green() == b.spec_green()
    &&& a.spec_blue() == b.spec_blue()
    &&& a.spec_alpha() == b.spec_alpha()
}

/// What building a buffer from an interleaved vector returns: with a
/// positive pixel count, a length that is an exact multiple of it, and
/// an inferred channel count between one and four, the de-interleaved
/// buffer; otherwise the error naming what failed.
pub open spec fn from_vec_post<T: SerialImageStorageTypes>(
    width: usize,
    height: usize,
    data: Seq<T>,
    r: Result<SerialImageBuffer<T>, SerialImageError>,
) -> bool {
    let area = width as int * height as int;
    let len = data.len() as int;
    let k = if area > 0 {
        len / area
    } else {
        0
    };
    &&& (area == 0 ==> r == Err::<SerialImageBuffer<T>, SerialImageError>(
        SerialImageError::InvalidDimensions,
    ))
    &&& (area > 0 && len % area != 0 ==> r == Err::<SerialImageBuffer<T>, SerialImageError>(
        SerialImageError::LengthMismatch,
    ))
    &&& (area > 0 && len % area == 0 && !(1 <= k <= 4) ==> r == Err::<
        SerialImageBuffer<T>,
        SerialImageError,
    >(SerialImageError::UnsupportedChannelCount))
    &&& (area > 0 && len % area == 0 && 1 <= k <= 4 ==> r is Ok)
    &&& (r is Ok ==> {
        let b = r->Ok_0;
        &&& b.wf()
        &&& b.spec_width() == width
        &&& b.spec_height() == height
        &&& b.spec_elems() == k
        &&& b.spec_meta() is None
        &&& b.spec_channels() == Seq::new(k as nat, |j: int| channel_slice(data, k, j, area))
        &&& b.spec_packed() == data
    })
}

impl<T: SerialImageStorageTypes + Copy> SerialImageBuffer<T> {
    /// Create a serializable image buffer from an interleaved vector,
    /// inferring the channel count from the vector's length.
    ///
    /// The channel count is `data.len() / (width * height)`; the length
    /// must match that product exactly, and the count must lie between
    /// one and four. One channel is grayscale, two grayscale with alpha,
    /// three RGB, four RGB with alpha, interleaved sample by sample. No
    /// metadata is attached.
    pub fn from_vec(width: usize, height: usize, data: Vec<T>) -> (r: Result<
        SerialImageBuffer<T>,
        SerialImageError,
    >)
        ensures
            from_vec_post(width, height, data@, r),
    {
        if width == 0 || height == 0 {
            return Err(SerialImageError::InvalidDimensions);
        }
        let len = data.len();
        match width.checked_mul(height) {
            None => {
                // The true area exceeds what any vector can hold, so the
                // length can only match it by being zero, which in turn
                // gives a zero channel count.
                proof {
                    let area = width as int * height as int;
                    assert(len < area);
                    vstd::arithmetic::div_mod::lemma_small_mod(len as nat, area as nat);
                    vstd::arithmetic::div_mod::lemma_basic_div(len as int, area);
                }
                if len == 0 {
                    Err(SerialImageError::UnsupportedChannelCount)
                } else {
                    Err(SerialImageError::LengthMismatch)
                }
            },
            Some(area) => {
                proof {
                    assert(area >= 1) by (nonlinear_arith)
                        requires
                            area == width as int * height as int,
                            width >= 1,
                            height >= 1,
                    ;
                }
                let k = len / area;
                proof {
                    vstd::arithmetic::div_mod::lemma_fundamental_div_mod(len as int, area as int);
                }
                if len % area != 0 {
                    return Err(SerialImageError::LengthMismatch);
                }
                if k == 0 || k > 4 {
                    return Err(SerialImageError::UnsupportedChannelCount);
                }
                proof {
                    assert(len as int == area as int * (k as int));
                    assert((area as int) * (k as int) == (k as int) * (area as int))
                        by (nonlinear_arith);
                }
                let b = Self::from_parts(area, data, k, width, height);
                Ok(b)
            },
        }
    }

    /// De-interleave an exactly sized vector into a buffer. Internal:
    /// the caller has already validated the dimensions and length.
    fn from_parts(area: usize, data: Vec<T>, k: usize, width: usize, height: usize) -> (b:
        SerialImageBuffer<T>)
        requires
            area == width as int * height as int,
            area >= 1,
            1 <= k <= 4,
            data@.len() == k * area,
        ensures
            b.wf(),
            b.spec_width() == width,
            b.spec_height() == height,
            b.spec_elems() == k,
            b.spec_meta() is None,
            b.spec_channels() == Seq::new(k as nat, |j: int| channel_slice(
                data@,
                k as int,
                j,
                area as int,
            )),
            b.spec_packed() == data@,
    {
        let ghost gdata = data@;
        let b: SerialImageBuffer<T>;
        if k == 1 {
            b = SerialImageBuffer {
                meta: None,
                luma: Some(data),
                red: None,
                green: None,
                blue: None,
                alpha: None,
                width,
                height,
                pixel_elems: 1,
            };
            proof {
                assert(b.spec_luma()->0 =~= channel_slice(gdata, 1, 0, area as int));
            }
        } else if k == 2 {
            let luma = extract_channel(&data, 2, 0, area);
            let alpha = extract_channel(&data, 2, 1, area);
            b = SerialImageBuffer {
                meta: None,
                luma: Some(luma),
                red: None,
                green: None,
                blue: None,
                alpha: Some(alpha),
                width,
                height,
                pixel_elems: 2,
            };
        } else if k == 3 {
            let red = extract_channel(&data, 3, 0, area);
            let green = extract_channel(&data, 3, 1, area);
            let blue = extract_channel(&data, 3, 2, area);
            b = SerialImageBuffer {
                meta: None,
                luma: None,
                red: Some(red),
                green: Some(green),
                blue: Some(blue),
                alpha: None,
                width,
                height,
                pixel_elems: 3,
            };
        } else {
            let red = extract_channel(&data, 4, 0, area);
            let green = extract_channel(&data, 4, 1, area);
            let blue = extract_channel(&data, 4, 2, area);
            let alpha = extract_channel(&data, 4, 3, area);
            b = SerialImageBuffer {
                meta: None,
                luma: None,
                red: Some(red),
                green: Some(green),
                blue: Some(blue),
                alpha: Some(alpha),
                width,
                height,
                pixel_elems: 4,
            };
        }
        proof {
            let chans = Seq::new(k as nat, |j: int| channel_slice(gdata, k as int, j, area as int));
            assert(b.spec_channels() =~= chans);
            lemma_interleaved_of_channels(gdata, k as int, area as int);
        }
        b
    }

    /// Create a serializable image buffer from explicit channels.
    ///
    /// The color channels must be given all together or not at all; luma
    /// and color channels exclude each other; alpha may only accompany a
    /// populated luma or color set; every given channel must hold exactly
    /// `width * height` samples.
    ///
    /// Every element kind may populate every legal combination here,
    /// deliberately including grayscale float buffers: they exist in
    /// planar form (as [`SerialImageBuffer::from_vec`] can also build
    /// them), but no packed color space carries one- or two-channel
    /// float images, so every packed-boundary conversion rejects them
    /// with [`SerialImageError::UnsupportedPixelFormat`].
    #[allow(clippy::too_many_arguments)]
    pub fn new(
        meta: Option<ImageMetaData>,
        luma: Option<Vec<T>>,
        red: Option<Vec<T>>,
        green: Option<Vec<T>>,
        blue: Option<Vec<T>>,
        alpha: Option<Vec<T>>,
        width: usize,
        height: usize,
    ) -> (r: Result<SerialImageBuffer<T>, SerialImageError>)
        ensures
            ({
                let area = width as int * height as int;
                let colors = if red is Some { 1 as int } else { 0 } + if green is Some {
                    1 as int
                } else {
                    0
                } + if blue is Some { 1 as int } else { 0 };
                let dims_ok = width > 0 && height > 0;
                let combo_ok = (colors == 0 || colors == 3) && !(luma is Some && colors > 0)
                    && (luma is Some || colors == 3);
                let lens_ok = (luma is Some ==> luma->0@.len() == area) && (red is Some
                    ==> red->0@.len() == area) && (green is Some ==> green->0@.len() == area) && (
                blue is Some ==> blue->0@.len() == area) && (alpha is Some ==> alpha->0@.len()
                    == area);
                &&& (!dims_ok ==> r == Err::<SerialImageBuffer<T>, SerialImageError>(
                    SerialImageError::InvalidDimensions,
                ))
                &&& (dims_ok && !combo_ok ==> r == Err::<SerialImageBuffer<T>, SerialImageError>(
                    SerialImageError::ChannelConflict,
                ))
                &&& (dims_ok && combo_ok && !lens_ok ==> r == Err::<
                    SerialImageBuffer<T>,
                    SerialImageError,
                >(SerialImageError::LengthMismatch))
                &&& (dims_ok && combo_ok && lens_ok ==> r is Ok)
                &&& (r is Ok ==> {
                    let b = r->Ok_0;
                    &&& b.wf()
                    &&& b.spec_width() == width
                    &&& b.spec_height() == height
                    &&& b.spec_elems() == colors + (if luma is Some { 1 as int } else { 0 }) + (
                    if alpha is Some {
                        1 as int
                    } else {
                        0
                    })
                    &&& b.spec_meta() == meta
                    &&& b.spec_luma() == optvec_view(luma)
                    &&& b.spec_red() == optvec_view(red)
                    &&& b.spec_green() == optvec_view(green)
                    &&& b.spec_blue() == optvec_view(blue)
                    &&& b.spec_alpha() == optvec_view(alpha)
                })
            }),
    {
        if width == 0 || height == 0 {
            return Err(SerialImageError::InvalidDimensions);
        }
        let colors: u8 = if red.is_some() { 1 } else { 0 } + if green.is_some() { 1 } else { 0 }
            + if blue.is_some() { 1 } else { 0 };
        if colors > 0 && colors != 3 {
            return Err(SerialImageError::ChannelConflict);
        }
        if luma.is_some() && colors > 0 {
            return Err(SerialImageError::ChannelConflict);
        }
        if !luma.is_some() && colors == 0 {
            return Err(SerialImageError::ChannelConflict);
        }
        let area: usize;
        match width.checked_mul(height) {
            None => {
                // The true area exceeds every vector length, and some
                // channel is populated, so its length cannot match.
                match (&luma, &red) {
                    (Some(v), _) => {
                        let vlen: usize = v.len();
                        proof {
                            assert(vlen < width as int * height as int);
                        }
                        return Err(SerialImageError::LengthMismatch);
                    },
                    (_, Some(v)) => {
                        let vlen: usize = v.len();
                        proof {
                            assert(vlen < width as int * height as int);
                        }
                        return Err(SerialImageError::LengthMismatch);
                    },
                    _ => {
                        proof {
                            assert(false);
                        }
                        return Err(SerialImageError::LengthMismatch);
                    },
                }
            },
            Some(a) => {
                area = a;
            },
        }
        if luma.is_some() {
            match &luma {
                Some(v) => {
                    if v.len() != area {
                        return Err(SerialImageError::LengthMismatch);
                    }
                },
                None => {},
            }
        }
        match &red {
            Some(v) => {
                if v.len() != area {
                    return Err(SerialImageError::LengthMismatch);
                }
            },
            None => {},
        }
        match &green {
            Some(v) => {
                if v.len() != area {
                    return Err(SerialImageError::LengthMismatch);
                }
            },
            None => {},
        }
        match &blue {
            Some(v) => {
                if v.len() != area {
                    return Err(SerialImageError::LengthMismatch);
                }
            },
            None => {},
        }
        match &alpha {
            Some(v) => {
                if v.len() != area {
                    return Err(SerialImageError::LengthMismatch);
                }
            },
            None => {},
        }
        let pixel_elems: u8 = colors + if luma.is_some() { 1 } else { 0 } + if alpha.is_some() {
            1
        } else {
            0
        };
        Ok(
            SerialImageBuffer {
                meta,
                luma,
                red,
                green,
                blue,
                alpha,
                width,
                height,
                pixel_elems,
            },
        )
    }

    /// Consume the buffer and return its interleaved wire form: sample
    /// `i` of channel `j` lands at index `i * channels + j`.
    pub fn into_vec(self) -> (r: Vec<T>)
        requires
            self.wf(),
        ensures
            r@ == self.spec_packed(),
            r@.len() == self.spec_elems() * self.spec_area(),
    {
        let ghost chans = self.spec_channels();
        let ghost area_g = self.spec_area();
        if self.pixel_elems == 1 {
            let luma = self.luma.unwrap();
            proof {
                assert(luma@ =~= interleaved(chans, area_g)) by {
                    assert forall|i: int| 0 <= i < area_g implies interleaved(chans, area_g)[i]
                        == luma@[i] by {
                        assert(i % 1 == 0 && i / 1 == i);
                    }
                }
            }
            luma
        } else if self.pixel_elems == 2 {
            let luma = self.luma.unwrap();
            let alpha = self.alpha.unwrap();
            let area = luma.len();
            let mut out: Vec<T> = Vec::new();
            let mut i: usize = 0;
            while i < area
                invariant
                    i <= area,
                    area == area_g,
                    chans =~= seq![luma@, alpha@],
                    luma@.len() == area,
                    alpha@.len() == area,
                    out@ == interleaved(chans, i as int),
                decreases area - i,
            {
                out.push(luma[i]);
                out.push(alpha[i]);
                proof {
                    lemma_interleaved_step(chans, i as int);
                    assert(Seq::new(2, |j: int| chans[j][i as int]) =~= seq![
                        luma@[i as int],
                        alpha@[i as int],
                    ]);
                    assert(out@ =~= interleaved(chans, i + 1));
                }
                i = i + 1;
            }
            out
        } else if self.pixel_elems == 3 {
            let red = self.red.unwrap();
            let green = self.green.unwrap();
            let blue = self.blue.unwrap();
            let area = red.len();
            let mut out: Vec<T> = Vec::new();
            let mut i: usize = 0;
            while i < area
                invariant
                    i <= area,
                    area == area_g,
                    chans =~= seq![red@, green@, blue@],
                    red@.len() == area,
                    green@.len() == area,
                    blue@.len() == area,
                    out@ == interleaved(chans, i as int),
                decreases area - i,
            {
                out.push(red[i]);
                out.push(green[i]);
                out.push(blue[i]);
                proof {
                    lemma_interleaved_step(chans, i as int);
                    assert(Seq::new(3, |j: int| chans[j][i as int]) =~= seq![
                        red@[i as int],
                        green@[i as int],
                        blue@[i as int],
                    ]);
                    assert(out@ =~= interleaved(chans, i + 1));
                }
                i = i + 1;
            }
            out
        } else {
            let red = self.red.unwrap();
            let green = self.green.unwrap();
            let blue = self.blue.unwrap();
            let alpha = self.alpha.unwrap();
            let area = red.len();
            let mut out: Vec<T> = Vec::new();
            let mut i: usize = 0;
            while i < area
                invariant
                    i <= area,
                    area == area_g,
                    chans =~= seq![red@, green@, blue@, alpha@],
                    red@.len() == area,
                    green@.len() == area,
                    blue@.len() == area,
                    alpha@.len() == area,
                    out@ == interleaved(chans, i as int),
                decreases area - i,
            {
                out.push(red[i]);
                out.push(green[i]);
                out.push(blue[i]);
                out.push(alpha[i]);
                proof {
                    lemma_interleaved_step(chans, i as int);
                    assert(Seq::new(4, |j: int| chans[j][i as int]) =~= seq![
                        red@[i as int],
                        green@[i as int],
                        blue@[i as int],
                        alpha@[i as int],
                    ]);
                    assert(out@ =~= interleaved(chans, i + 1));
                }
                i = i + 1;
            }
            out
        }
    }

    /// Get the image metadata.
    pub fn get_metadata(&self) -> (r: Option<ImageMetaData>)
        ensures
            (r is Some) == (self.spec_meta() is Some),
            r is Some ==> r->0@ == self.spec_meta()->0@,
    {
        match &self.meta {
            Some(m) => Some(m.clone()),
            None => None,
        }
    }

    /// Update the image metadata.
    pub fn set_metadata(&mut self, meta: Option<ImageMetaData>)
        ensures
            final(self).spec_meta() == meta,
            same_pixels(*old(self), *final(self)),
            final(self).wf() == old(self).wf(),
    {
        self.meta = meta;
    }

    /// Get the luminosity channel data.
    pub fn get_luma(&self) -> (r: Option<&Vec<T>>)
        ensures
            (r is Some) == (self.spec_luma() is Some),
            r is Some ==> r->0@ == self.spec_luma()->0,
    {
        self.luma.as_ref()
    }

    /// Get the red channel data.
    pub fn get_red(&self) -> (r: Option<&Vec<T>>)
        ensures
            (r is Some) == (self.spec_red() is Some),
            r is Some ==> r->0@ == self.spec_red()->0,
    {
        self.red.as_ref()
    }

    /// Get the green channel data.
    pub fn get_green(&self) -> (r: Option<&Vec<T>>)
        ensures
            (r is Some) == (self.spec_green() is Some),
            r is Some ==> r->0@ == self.spec_green()->0,
    {
        self.green.as_ref()
    }

    /// Get the blue channel data.
    pub fn get_blue(&self) -> (r: Option<&Vec<T>>)
        ensures
            (r is Some) == (self.spec_blue() is Some),
            r is Some ==> r->0@ == self.spec_blue()->0,
    {
        self.blue.as_ref()
    }

    /// Get the alpha channel data.
    pub fn get_alpha(&self) -> (r: Option<&Vec<T>>)
        ensures
            (r is Some) == (self.spec_alpha() is Some),
            r is Some ==> r->0@ == self.spec_alpha()->0,
    {
        self.alpha.as_ref()
    }

    /// Get image width.
    pub fn width(&self) -> (r: usize)
        ensures
            r == self.spec_width(),
    {
        self.width
    }

    /// Get image height.
    pub fn height(&self) -> (r: usize)
        ensures
            r == self.spec_height(),
    {
        self.height
    }

    /// Get the number of elements per pixel.
    pub fn pixel_elems(&self) -> (r: u8)
        ensures
            r == self.spec_elems(),
    {
        self.pixel_elems
    }

    /// Check if the image is grayscale.
    pub fn is_luma(&self) -> (r: bool)
        ensures
            r == (self.spec_elems() == 1),
    {
        self.pixel_elems == 1
    }

    /// Check if the image is RGB.
    pub fn is_rgb(&self) -> (r: bool)
        ensures
            r == (self.spec_elems() == 3),
    {
        self.pixel_elems == 3
    }
}

/// The planar round trip: for every valid triple of width, height and
/// interleaved data (positive pixel count, a channel count between one
/// and four dividing the length exactly), building a buffer succeeds
/// and its wire form — what `into_vec` returns — is the original data,
/// bit for bit.
pub proof fn lemma_from_vec_into_vec_round_trip<T: SerialImageStorageTypes>(
    width: usize,
    height: usize,
    data: Seq<T>,
    r: Result<SerialImageBuffer<T>, SerialImageError>,
)
    requires
        from_vec_post(width, height, data, r),
        width as int * height as int > 0,
        data.len() as int % (width as int * height as int) == 0,
        1 <= data.len() as int / (width as int * height as int) <= 4,
    ensures
        r is Ok,
        r->Ok_0.spec_packed() == data,
{
}

/// The packed wire form pins the channels down: two well-formed buffers
/// of the same shape with the same interleaved form hold the same
/// channels. Together with the conversion contracts, this is the
/// planar-to-packed round trip: a buffer sent through the packed
/// representation and read back holds exactly the original pixels.
pub proof fn lemma_packed_determines_channels<T: SerialImageStorageTypes>(
    a: SerialImageBuffer<T>,
    b: SerialImageBuffer<T>,
)
    requires
        a.wf(),
        b.wf(),
        a.spec_elems() == b.spec_elems(),
        a.spec_area() == b.spec_area(),
        a.spec_packed() == b.spec_packed(),
    ensures
        a.spec_channels() == b.spec_channels(),
{
    let k = a.spec_elems();
    let n = a.spec_area();
    assert forall|j: int| 0 <= j < k implies a.spec_channels()[j] == b.spec_channels()[j] by {
        crate::channelpack::lemma_channels_of_interleaved(a.spec_channels(), n, j);
        crate::channelpack::lemma_channels_of_interleaved(b.spec_channels(), n, j);
        assert(a.spec_channels()[j].subrange(0, n) =~= a.spec_channels()[j]);
        assert(b.spec_channels()[j].subrange(0, n) =~= b.spec_channels()[j]);
    }
    assert(a.spec_channels() =~= b.spec_channels());
}

impl<T: SerialImageStorageTypes + Copy> Clone for SerialImageBuffer<T> {
    /// A deep copy: the channel vectors are copied element by element
    /// and the metadata record keeps its value.
    fn clone(&self) -> (res: Self)
        ensures
            same_pixels(*self, res),
            res.wf() == self.wf(),
            (res.spec_meta() is Some) == (self.spec_meta() is Some),
            res.spec_meta() is Some ==> res.spec_meta()->0@ == self.spec_meta()->0@,
    {
        let res = SerialImageBuffer {
            meta: self.get_metadata(),
            luma: copy_channel(&self.luma),
            red: copy_channel(&self.red),
            green: copy_channel(&self.green),
            blue: copy_channel(&self.blue),
            alpha: copy_channel(&self.alpha),
            width: self.width,
            height: self.height,
            pixel_elems: self.pixel_elems,
        };
        res
    }
}

/// Copy an optional channel, element by element.
fn copy_channel<T: Copy>(v: &Option<Vec<T>>) -> (r: Option<Vec<T>>)
    ensures
        optvec_view(*v) == optvec_view(r),
{
    match v {
        None => None,
        Some(data) => Some(copy_samples(data)),
    }
}

/// A plain element-for-element copy of a sample vector.
pub(crate) fn copy_samples<T: Copy>(v: &Vec<T>) -> (r: Vec<T>)
    ensures
        r@ == v@,
{
    let n = v.len();
    let mut out: Vec<T> = Vec::new();
    let mut i: usize = 0;
    while i < n
        invariant
            i <= n,
            n == v@.len(),
            out@ == v@.subrange(0, i as int),
        decreases n - i,
    {
        out.push(v[i]);
        proof {
            assert(out@ =~= v@.subrange(0, i + 1));
        }
        i = i + 1;
    }
    proof {
        assert(out@ =~= v@);
    }
    out
}

/// Collect channel `j` of an interleaved vector with `k` elements per
/// pixel and `n` pixels.
fn extract_channel<T: Copy>(data: &Vec<T>, k: usize, j: usize, n: usize) -> (r: Vec<T>)
    requires
        1 <= k,
        j < k,
        data@.len() == k * n,
    ensures
        r@ == channel_slice(data@, k as int, j as int, n as int),
{
    let dl: usize = data.len();
    let mut out: Vec<T> = Vec::new();
    let mut i: usize = 0;
    while i < n
        invariant
            i <= n,
            1 <= k,
            j < k,
            data@.len() == k * n,
            data@.len() <= usize::MAX,
            out@ == channel_slice(data@, k as int, j as int, i as int),
        decreases n - i,
    {
        proof {
            assert(i * k + j < k * n) by (nonlinear_arith)
                requires
                    0 <= i < n,
                    0 <= j < k,
            ;
        }
        let idx = i * k + j;
        out.push(data[idx]);
        proof {
            assert(out@ =~= channel_slice(data@, k as int, j as int, i + 1));
        }
        i = i + 1;
    }
    proof {
        assert(out@ =~= channel_slice(data@, k as int, j as int, n as int));
    }
    out
}

} // verus!
