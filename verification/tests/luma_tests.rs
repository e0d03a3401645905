use serialimage::{get_blue_lut_16, get_green_lut_16, get_red_lut_16, luma_from_rgb16,
    ImageMetaData, LumaTables, SerialImageBuffer};

#[test]
fn lut_entries_match_the_fixed_point_weights() {
    let red = get_red_lut_16();
    let green = get_green_lut_16();
    let blue = get_blue_lut_16();
    assert_eq!(red.len(), 65536);
    assert_eq!(green.len(), 65536);
    assert_eq!(blue.len(), 65536);
    // Round-half-up of v * 0.2126, v * 0.7152 and v * 0.0722.
    assert_eq!(red[0], 0);
    assert_eq!(red[1000], 213);
    assert_eq!(red[65535], 13933);
    assert_eq!(green[2000], 1430);
    assert_eq!(green[65535], 46871);
    assert_eq!(blue[3000], 217);
    assert_eq!(blue[65535], 4732);
}

#[test]
fn single_pixel_luma_sums_the_contributions() {
    let tables = LumaTables::new();
    assert_eq!(luma_from_rgb16(1000, 2000, 3000, &tables), 213 + 1430 + 217);
    assert_eq!(luma_from_rgb16(0, 0, 0, &tables), 0);
    // The three roundings overshoot full scale by one; the sum clamps.
    assert_eq!(luma_from_rgb16(65535, 65535, 65535, &tables), 65535);
}

#[test]
fn rgb16_reduces_through_the_tables() {
    let data: Vec<u16> = vec![1000, 2000, 3000, 65535, 65535, 65535];
    let img = SerialImageBuffer::<u16>::from_vec(2, 1, data).unwrap();
    let luma = img.into_luma();
    assert_eq!(luma.pixel_elems(), 1);
    assert_eq!(luma.width(), 2);
    assert_eq!(luma.height(), 1);
    assert_eq!(luma.get_luma(), Some(&vec![1860u16, 65535]));
}

#[test]
fn luma16_input_passes_through() {
    let data: Vec<u16> = vec![5, 600, 4464, 65535];
    let img = SerialImageBuffer::<u16>::from_vec(2, 2, data.clone()).unwrap();
    let luma = img.into_luma();
    assert_eq!(luma.get_luma(), Some(&data));
}

#[test]
fn luma8_input_widens_by_256() {
    let img = SerialImageBuffer::<u8>::from_vec(2, 1, vec![0u8, 255]).unwrap();
    let luma = img.into_luma();
    assert_eq!(luma.get_luma(), Some(&vec![0u16, 65280]));
}

#[test]
fn rgb8_widens_then_reduces() {
    // White at 8 bits widens to 65280 per channel; the weighted sum of
    // the widened samples is 13879 + 46688 + 4713 = 65280.
    let img = SerialImageBuffer::<u8>::from_vec(1, 1, vec![255u8, 255, 255]).unwrap();
    let luma = img.into_luma();
    assert_eq!(luma.get_luma(), Some(&vec![65280u16]));
}

#[test]
fn luma_alpha_preserves_and_rescales_alpha() {
    // 16-bit: the alpha samples come through unchanged.
    let img = SerialImageBuffer::<u16>::from_vec(2, 1, vec![10u16, 11, 20, 21]).unwrap();
    let out = img.into_luma_alpha();
    assert_eq!(out.pixel_elems(), 2);
    assert_eq!(out.get_luma(), Some(&vec![10u16, 20]));
    assert_eq!(out.get_alpha(), Some(&vec![11u16, 21]));
    // 8-bit: the alpha samples widen to 16-bit scale.
    let img = SerialImageBuffer::<u8>::from_vec(1, 1, vec![3u8, 200]).unwrap();
    let out = img.into_luma_alpha();
    assert_eq!(out.get_luma(), Some(&vec![768u16]));
    assert_eq!(out.get_alpha(), Some(&vec![51200u16]));
}

#[test]
fn into_luma_discards_alpha() {
    let img = SerialImageBuffer::<u8>::from_vec(1, 1, vec![3u8, 200]).unwrap();
    let out = img.into_luma();
    assert_eq!(out.pixel_elems(), 1);
    assert_eq!(out.get_alpha(), None);
}

#[test]
fn into_luma_keeps_metadata() {
    let mut img = SerialImageBuffer::<u16>::from_vec(1, 1, vec![7u16]).unwrap();
    img.set_metadata(Some(ImageMetaData::new(5, 6, 7, 1, 1, "cam", 0, 0)));
    let out = img.into_luma();
    assert_eq!(out.get_metadata().unwrap().camera_name, "cam");
}

#[test]
fn shared_tables_convert_like_fresh_ones() {
    let tables = LumaTables::new();
    let rgb = SerialImageBuffer::<u16>::from_vec(1, 1, vec![1000u16, 2000, 3000]).unwrap();
    let with_shared = rgb.into_luma_with(&tables);
    assert_eq!(with_shared.get_luma(), Some(&vec![1860u16]));
    let gray_alpha = SerialImageBuffer::<u8>::from_vec(1, 1, vec![3u8, 200]).unwrap();
    let out = gray_alpha.into_luma_alpha_with(&tables);
    assert_eq!(out.get_luma(), Some(&vec![768u16]));
    assert_eq!(out.get_alpha(), Some(&vec![51200u16]));
}
