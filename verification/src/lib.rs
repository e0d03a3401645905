//! A serializable, channel-planar image library for camera acquisition
//! pipelines.
//!
//! Pixel samples live in per-channel vectors (`SerialImageBuffer`), tagged
//! with acquisition metadata (`ImageMetaData`), wrapped by element kind in
//! `DynamicSerialImage`, and convertible losslessly to and from the packed
//! `image::DynamicImage` representation. `OptimumExposureConfig` computes
//! the next exposure duration and binning from a luminance sample
//! population.

use vstd::prelude::*;

mod channelpack;
mod dynamicserialimage;
mod imagemetadata;
mod luma;
mod optimalexposure;
mod packed;
mod pixelformat;
mod serialimage;

pub use channelpack::{channel_slice, interleaved, lemma_channels_of_interleaved,
    lemma_interleaved_of_channels};
pub use dynamicserialimage::DynamicSerialImage;
pub use imagemetadata::{ImageMetaData, ImageMetaDataView};
pub use luma::{get_blue_lut_16, get_green_lut_16, get_red_lut_16, luma16_alpha_post, luma16_post,
    luma8_alpha_post, luma8_post, luma_frame_post, luma_from_rgb16, spec_blue_lut, spec_green_lut,
    spec_luma16, spec_red_lut, LumaTables};
pub use optimalexposure::{clamp_int, double_bins, estimated_exposure, halve_bins,
    lemma_dead_band, lemma_exposure_clamped, lemma_full_percentile_selects_last,
    lemma_halve_bins_scaling, lemma_one_halving_at_bin_four, lemma_sorted_arrangement_unique,
    percentile_coord, sample_at, sorted_samples, OptimumExposureConfig};
pub use packed::{bits_of, packed_color_code, packed_data_f32_bits, packed_data_u16,
    packed_data_u8, packed_height, packed_width};
pub use pixelformat::{code_channels, lemma_format_channels_agree, F32Bits, SerialImagePixel, SerialImageStorageTypes,
    COLOR_L16, COLOR_L8, COLOR_LA16, COLOR_LA8, COLOR_RGB16, COLOR_RGB32F, COLOR_RGB8,
    COLOR_RGBA16, COLOR_RGBA32F, COLOR_RGBA8};
pub use serialimage::{from_vec_post, lemma_from_vec_into_vec_round_trip,
    lemma_packed_determines_channels, optvec_view, same_pixels, SerialImageBuffer};

verus! {

/// The recoverable failures of this library.
///
/// Every public constructor and conversion reports malformed input through
/// one of these kinds; none of the verified functions panic.
#[derive(Clone, Copy, Debug, PartialEq, Eq, Structural)]
pub enum SerialImageError {
    /// Width or height is zero.
    InvalidDimensions,
    /// A channel vector's length does not match `width * height`, or an
    /// interleaved vector's length is not `width * height * channels`.
    LengthMismatch,
    /// The inferred channel count is not between one and four.
    UnsupportedChannelCount,
    /// The element-kind / channel-count pair has no packed color space.
    UnsupportedPixelFormat,
    /// Luma and color channels were both given, or the color channels were
    /// only partially given, or an alpha channel was given alone.
    ChannelConflict,
    /// A `DynamicSerialImage` was narrowed to the wrong element kind.
    VariantMismatch,
    /// An exposure-controller parameter lies outside its documented range.
    ConfigValidation,
}

} // verus!
