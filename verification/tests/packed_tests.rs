use image::DynamicImage;
use serialimage::{DynamicSerialImage, F32Bits, ImageMetaData, SerialImageBuffer, SerialImageError};

fn bits(v: &[f32]) -> Vec<F32Bits> {
    v.iter().map(|x| F32Bits(x.to_bits())).collect()
}

#[test]
fn u8_planar_to_packed_and_back() {
    for channels in 1usize..=4 {
        let data: Vec<u8> = (0..(6 * channels) as u16).map(|x| (x * 11 % 256) as u8).collect();
        let img = SerialImageBuffer::<u8>::from_vec(3, 2, data.clone()).unwrap();
        let packed = img.into_dynamic_image().unwrap();
        assert_eq!(packed.width(), 3);
        assert_eq!(packed.height(), 2);
        assert_eq!(packed.color().channel_count() as usize, channels);
        let back = SerialImageBuffer::<u8>::from_dynamic_image(packed).unwrap();
        assert_eq!(back.width(), 3);
        assert_eq!(back.height(), 2);
        assert_eq!(back.pixel_elems() as usize, channels);
        assert_eq!(back.into_vec(), data);
    }
}

#[test]
fn u16_planar_to_packed_and_back() {
    for channels in 1usize..=4 {
        let data: Vec<u16> = (0..(6 * channels) as u16).map(|x| x * 4001).collect();
        let img = SerialImageBuffer::<u16>::from_vec(2, 3, data.clone()).unwrap();
        let packed = img.into_dynamic_image().unwrap();
        let back = SerialImageBuffer::<u16>::from_dynamic_image(packed).unwrap();
        assert_eq!(back.into_vec(), data);
    }
}

#[test]
fn f32_planar_to_packed_and_back() {
    for channels in 3usize..=4 {
        let samples: Vec<f32> = (0..6 * channels).map(|x| x as f32 * 0.125 - 1.0).collect();
        let data = bits(&samples);
        let img = SerialImageBuffer::<F32Bits>::from_vec(3, 2, data.clone()).unwrap();
        let packed = img.into_dynamic_image().unwrap();
        assert_eq!(packed.color().channel_count() as usize, channels);
        let back = SerialImageBuffer::<F32Bits>::from_dynamic_image(packed).unwrap();
        assert_eq!(back.into_vec(), data);
    }
}

#[test]
fn f32_grayscale_has_no_packed_form() {
    let img = SerialImageBuffer::<F32Bits>::from_vec(2, 2, bits(&[0.0; 4])).unwrap();
    assert_eq!(
        img.into_dynamic_image().unwrap_err(),
        SerialImageError::UnsupportedPixelFormat
    );
    let img = SerialImageBuffer::<F32Bits>::from_vec(2, 2, bits(&[0.0; 8])).unwrap();
    assert_eq!(
        img.into_dynamic_image().unwrap_err(),
        SerialImageError::UnsupportedPixelFormat
    );
}

#[test]
fn dynamic_image_round_trip_through_wrapper() {
    let data: Vec<u16> = (0..12).map(|x| x * 5000).collect();
    let img = DynamicSerialImage::from_vec_u16(2, 2, data.clone()).unwrap();
    let packed = img.to_packed().unwrap();
    let back = DynamicSerialImage::from_packed(packed).unwrap();
    assert_eq!(back.width(), 2);
    assert_eq!(back.height(), 2);
    let buf = back.into_u16().unwrap();
    assert_eq!(buf.into_vec(), data);
}

#[test]
fn from_packed_selects_the_variant() {
    let gray = DynamicImage::ImageLuma8(image::GrayImage::from_raw(2, 2, vec![1, 2, 3, 4]).unwrap());
    let img = DynamicSerialImage::from_packed(gray).unwrap();
    assert!(img.as_u8().is_some());
    assert!(img.as_u16().is_none());
    assert!(img.as_f32().is_none());
    let rgb16 = DynamicImage::ImageRgb16(
        image::ImageBuffer::<image::Rgb<u16>, Vec<u16>>::from_raw(1, 1, vec![1, 2, 3]).unwrap(),
    );
    let img = DynamicSerialImage::from_packed(rgb16).unwrap();
    assert!(img.as_u16().is_some());
    let rgbf = DynamicImage::ImageRgb32F(
        image::Rgb32FImage::from_raw(1, 1, vec![0.5, 0.25, 0.125]).unwrap(),
    );
    let img = DynamicSerialImage::from_packed(rgbf).unwrap();
    let buf = img.into_f32().unwrap();
    assert_eq!(buf.into_vec(), bits(&[0.5, 0.25, 0.125]));
}

#[test]
fn narrowing_to_the_wrong_variant_fails() {
    let img = DynamicSerialImage::from_vec_u8(1, 1, vec![1, 2, 3]).unwrap();
    assert!(img.as_u16().is_none());
    assert_eq!(
        img.into_u16().unwrap_err(),
        SerialImageError::VariantMismatch
    );
}

#[test]
fn resize_keeps_kind_and_metadata() {
    let data: Vec<u16> = (0..48).map(|x| x * 1000).collect();
    let mut img = SerialImageBuffer::<u16>::from_vec(4, 4, data).unwrap();
    img.set_metadata(Some(ImageMetaData::new(77, 88, 99, 1, 1, "resize-cam", 0, 0)));
    let out = img.resize(2, 2, image::imageops::FilterType::Nearest).unwrap();
    assert_eq!(out.pixel_elems(), 3);
    assert_eq!(out.width(), 2);
    assert_eq!(out.height(), 2);
    assert_eq!(out.get_metadata().unwrap().camera_name, "resize-cam");
}

#[test]
fn resize_u8_resamples_within_bounds() {
    let img = SerialImageBuffer::<u8>::from_vec(8, 4, vec![7u8; 32]).unwrap();
    let out = img.resize(4, 4, image::imageops::FilterType::Triangle).unwrap();
    // Aspect ratio preserved within the 4 by 4 bound.
    assert_eq!(out.width(), 4);
    assert_eq!(out.height(), 2);
    assert_eq!(out.get_luma(), Some(&vec![7u8; 8]));
}

#[test]
fn resize_f32_keeps_kind_and_fits_the_bounds() {
    let data = bits(&[0.25f32; 27]);
    let img = SerialImageBuffer::<F32Bits>::from_vec(3, 3, data).unwrap();
    let out = img.resize(6, 2, image::imageops::FilterType::Nearest).unwrap();
    assert_eq!(out.pixel_elems(), 3);
    assert!(out.width() <= 6);
    assert!(out.height() <= 2);
    assert!(out.width() >= 1 && out.height() >= 1);
}
