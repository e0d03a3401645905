//! RGB to luminance reduction.
//!
//! The perceptual weights are the Rec. 709 coefficients 0.2126, 0.7152
//! and 0.0722, held here in fixed point as parts per ten thousand (2126,
//! 7152 and 722) and applied with round-half-up. Because each of the
//! three contributions is rounded up on its own, their sum can overshoot
//! full scale by one; the pixel value is therefore clamped to 65535.
//! Luma is always resolved at 16-bit precision: 8-bit samples are first
//! widened by a factor of 256, and grayscale input passes through with
//! only that bit-depth rescale.

use vstd::arithmetic::div_mod::lemma_div_is_ordered;
use vstd::prelude::*;

use crate::serialimage::{copy_samples, SerialImageBuffer};

verus! {

/// The red contribution to luma of a 16-bit sample: `v * 0.2126`,
/// rounded half-up in parts per ten thousand.
pub open spec fn spec_red_lut(v: int) -> int {
    (v * 2126 + 5000) / 10000
}

/// The green contribution to luma of a 16-bit sample: `v * 0.7152`,
/// rounded half-up in parts per ten thousand.
pub open spec fn spec_green_lut(v: int) -> int {
    (v * 7152 + 5000) / 10000
}

/// The blue contribution to luma of a 16-bit sample: `v * 0.0722`,
/// rounded half-up in parts per ten thousand.
pub open spec fn spec_blue_lut(v: int) -> int {
    (v * 722 + 5000) / 10000
}

/// The luma of one RGB pixel at 16-bit scale: the sum of the three
/// weighted contributions, clamped to full scale (the three roundings
/// can overshoot 65535 by one).
pub open spec fn spec_luma16(r: int, g: int, b: int) -> int {
    let s = spec_red_lut(r) + spec_green_lut(g) + spec_blue_lut(b);
    if s > 65535 {
        65535
    } else {
        s
    }
}

/// Build the red-weight lookup table: entry `v` is the red contribution
/// to luma of the 16-bit sample `v`.
pub fn get_red_lut_16() -> (r: Vec<u16>)
    ensures
        r@.len() == 65536,
        forall|v: int| 0 <= v < 65536 ==> #[trigger] r@[v] == spec_red_lut(v),
{
    lut_with_weight(2126)
}

/// Build the green-weight lookup table: entry `v` is the green
/// contribution to luma of the 16-bit sample `v`.
pub fn get_green_lut_16() -> (r: Vec<u16>)
    ensures
        r@.len() == 65536,
        forall|v: int| 0 <= v < 65536 ==> #[trigger] r@[v] == spec_green_lut(v),
{
    lut_with_weight(7152)
}

/// Build the blue-weight lookup table: entry `v` is the blue
/// contribution to luma of the 16-bit sample `v`.
pub fn get_blue_lut_16() -> (r: Vec<u16>)
    ensures
        r@.len() == 65536,
        forall|v: int| 0 <= v < 65536 ==> #[trigger] r@[v] == spec_blue_lut(v),
{
    lut_with_weight(722)
}

/// Build one weight table: entry `v` is `(v * weight + 5000) / 10000`.
fn lut_with_weight(weight: u32) -> (r: Vec<u16>)
    requires
        weight <= 10000,
    ensures
        r@.len() == 65536,
        forall|v: int| 0 <= v < 65536 ==> #[trigger] r@[v] as int == (v * weight + 5000) / 10000,
{
    let mut lut: Vec<u16> = Vec::new();
    let mut v: usize = 0;
    while v < 65536
        invariant
            v <= 65536,
            weight <= 10000,
            lut@.len() == v,
            forall|q: int| 0 <= q < v ==> #[trigger] lut@[q] as int == (q * weight + 5000) / 10000,
        decreases 65536 - v,
    {
        proof {
            assert(v * weight + 5000 <= 655355000) by (nonlinear_arith)
                requires
                    0 <= v < 65536,
                    weight <= 10000,
            ;
        }
        let num: u32 = (v as u32) * weight + 5000;
        let entry: u32 = num / 10000;
        proof {
            lemma_div_is_ordered(num as int, 655355000, 10000);
        }
        lut.push(entry as u16);
        v = v + 1;
    }
    lut
}

/// The three luma weight tables, built once and shared by the grayscale
/// conversions.
pub struct LumaTables {
    /// Red contributions, indexed by 16-bit sample value.
    pub red: Vec<u16>,
    /// Green contributions, indexed by 16-bit sample value.
    pub green: Vec<u16>,
    /// Blue contributions, indexed by 16-bit sample value.
    pub blue: Vec<u16>,
}

impl LumaTables {
    /// The tables hold all 65536 entries of each weight function.
    pub open spec fn wf(&self) -> bool {
        &&& self.red@.len() == 65536
        &&& self.green@.len() == 65536
        &&& self.blue@.len() == 65536
        &&& forall|v: int| 0 <= v < 65536 ==> #[trigger] self.red@[v] == spec_red_lut(v)
        &&& forall|v: int| 0 <= v < 65536 ==> #[trigger] self.green@[v] == spec_green_lut(v)
        &&& forall|v: int| 0 <= v < 65536 ==> #[trigger] self.blue@[v] == spec_blue_lut(v)
    }

    /// Precompute the three weight tables.
    pub fn new() -> (r: LumaTables)
        ensures
            r.wf(),
    {
        LumaTables { red: get_red_lut_16(), green: get_green_lut_16(), blue: get_blue_lut_16() }
    }
}

/// The luma of one RGB pixel of 16-bit samples, looked up in the tables.
pub fn luma_from_rgb16(r: u16, g: u16, b: u16, tables: &LumaTables) -> (l: u16)
    requires
        tables.wf(),
    ensures
        l == spec_luma16(r as int, g as int, b as int),
{
    let s: u32 = tables.red[r as usize] as u32 + tables.green[g as usize] as u32
        + tables.blue[b as usize] as u32;
    if s > 65535 {
        65535
    } else {
        s as u16
    }
}

/// The luma channel of a 16-bit buffer: grayscale input is copied,
/// color input is reduced pixel by pixel through the tables.
fn luma_vec_u16(buf: &SerialImageBuffer<u16>, tables: &LumaTables) -> (r: Vec<u16>)
    requires
        buf.wf(),
        tables.wf(),
    ensures
        r@.len() == buf.spec_area(),
        buf.spec_elems() <= 2 ==> r@ == buf.spec_luma()->0,
        buf.spec_elems() >= 3 ==> forall|i: int| 0 <= i < buf.spec_area() ==> #[trigger] r@[i]
            == spec_luma16(
            buf.spec_red()->0[i] as int,
            buf.spec_green()->0[i] as int,
            buf.spec_blue()->0[i] as int,
        ),
{
    if buf.pixel_elems() <= 2 {
        let luma = buf.get_luma().unwrap();
        copy_samples(luma)
    } else {
        let red = buf.get_red().unwrap();
        let green = buf.get_green().unwrap();
        let blue = buf.get_blue().unwrap();
        let n = red.len();
        let mut out: Vec<u16> = Vec::new();
        let mut i: usize = 0;
        while i < n
            invariant
                i <= n,
                tables.wf(),
                n == red@.len(),
                green@.len() == n,
                blue@.len() == n,
                red@ == buf.spec_red()->0,
                green@ == buf.spec_green()->0,
                blue@ == buf.spec_blue()->0,
                out@.len() == i,
                forall|q: int| 0 <= q < i ==> #[trigger] out@[q] == spec_luma16(
                    red@[q] as int,
                    green@[q] as int,
                    blue@[q] as int,
                ),
            decreases n - i,
        {
            let l = luma_from_rgb16(red[i], green[i], blue[i], tables);
            out.push(l);
            i = i + 1;
        }
        out
    }
}

/// The luma channel of an 8-bit buffer: every sample is first widened to
/// 16-bit scale (multiplied by 256), then grayscale input passes through
/// and color input is reduced through the tables.
fn luma_vec_u8(buf: &SerialImageBuffer<u8>, tables: &LumaTables) -> (r: Vec<u16>)
    requires
        buf.wf(),
        tables.wf(),
    ensures
        r@.len() == buf.spec_area(),
        buf.spec_elems() <= 2 ==> forall|i: int| 0 <= i < buf.spec_area() ==> #[trigger] r@[i]
            == buf.spec_luma()->0[i] * 256,
        buf.spec_elems() >= 3 ==> forall|i: int| 0 <= i < buf.spec_area() ==> #[trigger] r@[i]
            == spec_luma16(
            buf.spec_red()->0[i] * 256,
            buf.spec_green()->0[i] * 256,
            buf.spec_blue()->0[i] * 256,
        ),
{
    if buf.pixel_elems() <= 2 {
        let luma = buf.get_luma().unwrap();
        widen_samples(luma)
    } else {
        let red = buf.get_red().unwrap();
        let green = buf.get_green().unwrap();
        let blue = buf.get_blue().unwrap();
        let n = red.len();
        let mut out: Vec<u16> = Vec::new();
        let mut i: usize = 0;
        while i < n
            invariant
                i <= n,
                tables.wf(),
                n == red@.len(),
                green@.len() == n,
                blue@.len() == n,
                red@ == buf.spec_red()->0,
                green@ == buf.spec_green()->0,
                blue@ == buf.spec_blue()->0,
                out@.len() == i,
                forall|q: int| 0 <= q < i ==> #[trigger] out@[q] == spec_luma16(
                    red@[q] * 256,
                    green@[q] * 256,
                    blue@[q] * 256,
                ),
            decreases n - i,
        {
            let l = luma_from_rgb16(
                red[i] as u16 * 256,
                green[i] as u16 * 256,
                blue[i] as u16 * 256,
                tables,
            );
            out.push(l);
            i = i + 1;
        }
        out
    }
}

/// Widen 8-bit samples to 16-bit scale: each sample multiplied by 256.
fn widen_samples(v: &Vec<u8>) -> (r: Vec<u16>)
    ensures
        r@.len() == v@.len(),
        forall|i: int| 0 <= i < v@.len() ==> #[trigger] r@[i] == v@[i] * 256,
{
    let n = v.len();
    let mut out: Vec<u16> = Vec::new();
    let mut i: usize = 0;
    while i < n
        invariant
            i <= n,
            n == v@.len(),
            out@.len() == i,
            forall|q: int| 0 <= q < i ==> #[trigger] out@[q] == v@[q] * 256,
        decreases n - i,
    {
        out.push(v[i] as u16 * 256);
        i = i + 1;
    }
    out
}

/// Both conversions carry the image frame over: the result is a
/// well-formed 16-bit buffer of the same dimensions whose metadata has
/// the same value as the source's.
pub open spec fn luma_frame_post<T: crate::SerialImageStorageTypes>(
    src: SerialImageBuffer<T>,
    out: SerialImageBuffer<u16>,
) -> bool {
    &&& out.wf()
    &&& out.spec_width() == src.spec_width()
    &&& out.spec_height() == src.spec_height()
    &&& ((out.spec_meta() is Some) == (src.spec_meta() is Some))
    &&& (out.spec_meta() is Some ==> out.spec_meta()->0@ == src.spec_meta()->0@)
}

/// What converting a 16-bit buffer to grayscale returns: a pure luma
/// buffer over the same frame, the luma channel copied from grayscale
/// input or reduced pixel by pixel from color input.
pub open spec fn luma16_post(src: SerialImageBuffer<u16>, out: SerialImageBuffer<u16>) -> bool {
    &&& luma_frame_post(src, out)
    &&& out.spec_elems() == 1
    &&& (src.spec_elems() <= 2 ==> out.spec_luma()->0 == src.spec_luma()->0)
    &&& (src.spec_elems() >= 3 ==> forall|i: int| 0 <= i < src.spec_area()
        ==> #[trigger] out.spec_luma()->0[i] == spec_luma16(
        src.spec_red()->0[i] as int,
        src.spec_green()->0[i] as int,
        src.spec_blue()->0[i] as int,
    ))
}

/// What converting a 16-bit buffer to grayscale-with-alpha returns:
/// the same luma reduction, with the alpha channel carried over
/// unchanged when one is populated.
pub open spec fn luma16_alpha_post(
    src: SerialImageBuffer<u16>,
    out: SerialImageBuffer<u16>,
) -> bool {
    &&& luma_frame_post(src, out)
    &&& out.spec_elems() == (if src.spec_alpha() is Some {
        2int
    } else {
        1int
    })
    &&& out.spec_alpha() == src.spec_alpha()
    &&& (src.spec_elems() <= 2 ==> out.spec_luma()->0 == src.spec_luma()->0)
    &&& (src.spec_elems() >= 3 ==> forall|i: int| 0 <= i < src.spec_area()
        ==> #[trigger] out.spec_luma()->0[i] == spec_luma16(
        src.spec_red()->0[i] as int,
        src.spec_green()->0[i] as int,
        src.spec_blue()->0[i] as int,
    ))
}

/// What converting an 8-bit buffer to grayscale returns: a pure luma
/// buffer over the same frame, every sample first widened to 16-bit
/// scale.
pub open spec fn luma8_post(src: SerialImageBuffer<u8>, out: SerialImageBuffer<u16>) -> bool {
    &&& luma_frame_post(src, out)
    &&& out.spec_elems() == 1
    &&& (src.spec_elems() <= 2 ==> forall|i: int| 0 <= i < src.spec_area()
        ==> #[trigger] out.spec_luma()->0[i] == src.spec_luma()->0[i] * 256)
    &&& (src.spec_elems() >= 3 ==> forall|i: int| 0 <= i < src.spec_area()
        ==> #[trigger] out.spec_luma()->0[i] == spec_luma16(
        src.spec_red()->0[i] * 256,
        src.spec_green()->0[i] * 256,
        src.spec_blue()->0[i] * 256,
    ))
}

/// What converting an 8-bit buffer to grayscale-with-alpha returns:
/// the same widened luma reduction, with the alpha samples widened to
/// 16-bit scale when an alpha channel is populated.
pub open spec fn luma8_alpha_post(src: SerialImageBuffer<u8>, out: SerialImageBuffer<u16>) -> bool {
    &&& luma_frame_post(src, out)
    &&& out.spec_elems() == (if src.spec_alpha() is Some {
        2int
    } else {
        1int
    })
    &&& ((out.spec_alpha() is Some) == (src.spec_alpha() is Some))
    &&& (src.spec_alpha() is Some ==> forall|i: int| 0 <= i < src.spec_area()
        ==> #[trigger] out.spec_alpha()->0[i] == src.spec_alpha()->0[i] * 256)
    &&& (src.spec_elems() <= 2 ==> forall|i: int| 0 <= i < src.spec_area()
        ==> #[trigger] out.spec_luma()->0[i] == src.spec_luma()->0[i] * 256)
    &&& (src.spec_elems() >= 3 ==> forall|i: int| 0 <= i < src.spec_area()
        ==> #[trigger] out.spec_luma()->0[i] == spec_luma16(
        src.spec_red()->0[i] * 256,
        src.spec_green()->0[i] * 256,
        src.spec_blue()->0[i] * 256,
    ))
}

impl SerialImageBuffer<u16> {
    /// Convert the image to 16-bit grayscale, discarding any alpha
    /// channel. Grayscale input is copied unchanged; color input is
    /// reduced with the Rec. 709 weights (see [`spec_luma16`]). The
    /// metadata rides along. The tables are built for this one call;
    /// [`SerialImageBuffer::<u16>::into_luma_with`] reuses shared ones.
    pub fn into_luma(&self) -> (r: SerialImageBuffer<u16>)
        requires
            self.wf(),
        ensures
            luma16_post(*self, r),
    {
        let tables = LumaTables::new();
        self.into_luma_with(&tables)
    }

    /// Convert the image to 16-bit grayscale through already built
    /// weight tables, so the tables can be computed once per process
    /// and shared across conversions.
    pub fn into_luma_with(&self, tables: &LumaTables) -> (r: SerialImageBuffer<u16>)
        requires
            self.wf(),
            tables.wf(),
        ensures
            luma16_post(*self, r),
    {
        let luma = luma_vec_u16(self, tables);
        let out = SerialImageBuffer::<u16>::new(
            self.get_metadata(),
            Some(luma),
            None,
            None,
            None,
            None,
            self.width(),
            self.height(),
        );
        match out {
            Ok(b) => b,
            Err(_) => {
                proof {
                    assert(false);
                }
                unreached()
            },
        }
    }

    /// Convert the image to 16-bit grayscale while preserving the alpha
    /// channel, when one is populated. The luma reduction is the same as
    /// [`SerialImageBuffer::<u16>::into_luma`]; the alpha samples are
    /// copied unchanged.
    pub fn into_luma_alpha(&self) -> (r: SerialImageBuffer<u16>)
        requires
            self.wf(),
        ensures
            luma16_alpha_post(*self, r),
    {
        let tables = LumaTables::new();
        self.into_luma_alpha_with(&tables)
    }

    /// Convert the image to 16-bit grayscale with alpha through already
    /// built weight tables, so the tables can be computed once per
    /// process and shared across conversions.
    pub fn into_luma_alpha_with(&self, tables: &LumaTables) -> (r: SerialImageBuffer<u16>)
        requires
            self.wf(),
            tables.wf(),
        ensures
            luma16_alpha_post(*self, r),
    {
        let luma = luma_vec_u16(self, tables);
        let alpha = match self.get_alpha() {
            Some(a) => Some(copy_samples(a)),
            None => None,
        };
        let out = SerialImageBuffer::<u16>::new(
            self.get_metadata(),
            Some(luma),
            None,
            None,
            None,
            alpha,
            self.width(),
            self.height(),
        );
        match out {
            Ok(b) => b,
            Err(_) => {
                proof {
                    assert(false);
                }
                unreached()
            },
        }
    }
}

impl SerialImageBuffer<u8> {
    /// Convert the image to 16-bit grayscale, discarding any alpha
    /// channel. Samples are widened to 16-bit scale (multiplied by 256);
    /// grayscale input then passes through, color input is reduced with
    /// the Rec. 709 weights (see [`spec_luma16`]). The metadata rides
    /// along.
    pub fn into_luma(&self) -> (r: SerialImageBuffer<u16>)
        requires
            self.wf(),
        ensures
            luma8_post(*self, r),
    {
        let tables = LumaTables::new();
        self.into_luma_with(&tables)
    }

    /// Convert the image to 16-bit grayscale through already built
    /// weight tables, so the tables can be computed once per process
    /// and shared across conversions.
    pub fn into_luma_with(&self, tables: &LumaTables) -> (r: SerialImageBuffer<u16>)
        requires
            self.wf(),
            tables.wf(),
        ensures
            luma8_post(*self, r),
    {
        let luma = luma_vec_u8(self, tables);
        let out = SerialImageBuffer::<u16>::new(
            self.get_metadata(),
            Some(luma),
            None,
            None,
            None,
            None,
            self.width(),
            self.height(),
        );
        match out {
            Ok(b) => b,
            Err(_) => {
                proof {
                    assert(false);
                }
                unreached()
            },
        }
    }

    /// Convert the image to 16-bit grayscale while preserving the alpha
    /// channel, when one is populated. The luma reduction is the same as
    /// [`SerialImageBuffer::<u8>::into_luma`]; the alpha samples are
    /// widened to 16-bit scale (multiplied by 256).
    pub fn into_luma_alpha(&self) -> (r: SerialImageBuffer<u16>)
        requires
            self.wf(),
        ensures
            luma8_alpha_post(*self, r),
    {
        let tables = LumaTables::new();
        self.into_luma_alpha_with(&tables)
    }

    /// Convert the image to 16-bit grayscale with alpha through already
    /// built weight tables, so the tables can be computed once per
    /// process and shared across conversions.
    pub fn into_luma_alpha_with(&self, tables: &LumaTables) -> (r: SerialImageBuffer<u16>)
        requires
            self.wf(),
            tables.wf(),
        ensures
            luma8_alpha_post(*self, r),
    {
        let luma = luma_vec_u8(self, tables);
        let alpha = match self.get_alpha() {
            Some(a) => Some(widen_samples(a)),
            None => None,
        };
        let out = SerialImageBuffer::<u16>::new(
            self.get_metadata(),
            Some(luma),
            None,
            None,
            None,
            alpha,
            self.width(),
            self.height(),
        );
        match out {
            Ok(b) => b,
            Err(_) => {
                proof {
                    assert(false);
                }
                unreached()
            },
        }
    }
}

} // verus!
