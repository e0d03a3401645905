use serialimage::{ImageMetaData, SerialImageBuffer, SerialImageError};

#[test]
fn from_vec_luma_round_trip() {
    let data: Vec<u8> = (0..100u16).map(|x| (x % 251) as u8).collect();
    let img = SerialImageBuffer::<u8>::from_vec(10, 10, data.clone()).unwrap();
    assert_eq!(img.width(), 10);
    assert_eq!(img.height(), 10);
    assert_eq!(img.pixel_elems(), 1);
    assert!(img.is_luma());
    assert!(!img.is_rgb());
    assert_eq!(img.get_luma(), Some(&data));
    assert_eq!(img.get_red(), None);
    assert_eq!(img.get_alpha(), None);
    assert_eq!(img.into_vec(), data);
}

#[test]
fn from_vec_luma_alpha_round_trip() {
    let data: Vec<u16> = (0..2 * 12u16).map(|x| x * 1000).collect();
    let img = SerialImageBuffer::<u16>::from_vec(4, 3, data.clone()).unwrap();
    assert_eq!(img.pixel_elems(), 2);
    let luma: Vec<u16> = data.iter().step_by(2).copied().collect();
    let alpha: Vec<u16> = data.iter().skip(1).step_by(2).copied().collect();
    assert_eq!(img.get_luma(), Some(&luma));
    assert_eq!(img.get_alpha(), Some(&alpha));
    assert_eq!(img.into_vec(), data);
}

#[test]
fn from_vec_rgb_round_trip() {
    // 300 samples over a 10 by 10 frame infer three channels.
    let data: Vec<u8> = (0..300u16).map(|x| (x % 256) as u8).collect();
    let img = SerialImageBuffer::<u8>::from_vec(10, 10, data.clone()).unwrap();
    assert_eq!(img.pixel_elems(), 3);
    assert!(img.is_rgb());
    let red: Vec<u8> = data.iter().step_by(3).copied().collect();
    let green: Vec<u8> = data.iter().skip(1).step_by(3).copied().collect();
    let blue: Vec<u8> = data.iter().skip(2).step_by(3).copied().collect();
    assert_eq!(img.get_red(), Some(&red));
    assert_eq!(img.get_green(), Some(&green));
    assert_eq!(img.get_blue(), Some(&blue));
    assert_eq!(img.into_vec(), data);
}

#[test]
fn from_vec_rgba_round_trip() {
    let data: Vec<u16> = (0..4 * 6u16).map(|x| x * 7).collect();
    let img = SerialImageBuffer::<u16>::from_vec(3, 2, data.clone()).unwrap();
    assert_eq!(img.pixel_elems(), 4);
    assert_eq!(img.into_vec(), data);
}

#[test]
fn from_vec_rejects_zero_dimensions() {
    let r = SerialImageBuffer::<u8>::from_vec(0, 10, vec![0u8; 10]);
    assert_eq!(r.unwrap_err(), SerialImageError::InvalidDimensions);
    let r = SerialImageBuffer::<u8>::from_vec(10, 0, Vec::new());
    assert_eq!(r.unwrap_err(), SerialImageError::InvalidDimensions);
}

#[test]
fn from_vec_rejects_ragged_length() {
    // 250 samples cannot spread evenly over a 10 by 10 frame.
    let r = SerialImageBuffer::<u8>::from_vec(10, 10, vec![0u8; 250]);
    assert_eq!(r.unwrap_err(), SerialImageError::LengthMismatch);
}

#[test]
fn from_vec_rejects_unsupported_channel_counts() {
    let r = SerialImageBuffer::<u8>::from_vec(10, 10, vec![0u8; 500]);
    assert_eq!(r.unwrap_err(), SerialImageError::UnsupportedChannelCount);
    let r = SerialImageBuffer::<u8>::from_vec(10, 10, Vec::new());
    assert_eq!(r.unwrap_err(), SerialImageError::UnsupportedChannelCount);
}

#[test]
fn new_accepts_the_legal_channel_combinations() {
    let lu = vec![1u8, 2, 3, 4, 5, 6];
    let img = SerialImageBuffer::<u8>::new(None, Some(lu.clone()), None, None, None, None, 3, 2)
        .unwrap();
    assert_eq!(img.pixel_elems(), 1);
    let img = SerialImageBuffer::<u8>::new(
        None,
        Some(lu.clone()),
        None,
        None,
        None,
        Some(lu.clone()),
        3,
        2,
    )
    .unwrap();
    assert_eq!(img.pixel_elems(), 2);
    let img = SerialImageBuffer::<u8>::new(
        None,
        None,
        Some(lu.clone()),
        Some(lu.clone()),
        Some(lu.clone()),
        None,
        3,
        2,
    )
    .unwrap();
    assert_eq!(img.pixel_elems(), 3);
    let img = SerialImageBuffer::<u8>::new(
        None,
        None,
        Some(lu.clone()),
        Some(lu.clone()),
        Some(lu.clone()),
        Some(lu.clone()),
        3,
        2,
    )
    .unwrap();
    assert_eq!(img.pixel_elems(), 4);
}

#[test]
fn new_rejects_conflicting_channels() {
    let lu = vec![0u8; 6];
    // Partial color set.
    let r = SerialImageBuffer::<u8>::new(None, None, Some(lu.clone()), None, None, None, 3, 2);
    assert_eq!(r.unwrap_err(), SerialImageError::ChannelConflict);
    // Luma next to color.
    let r = SerialImageBuffer::<u8>::new(
        None,
        Some(lu.clone()),
        Some(lu.clone()),
        Some(lu.clone()),
        Some(lu.clone()),
        None,
        3,
        2,
    );
    assert_eq!(r.unwrap_err(), SerialImageError::ChannelConflict);
    // Alpha alone.
    let r = SerialImageBuffer::<u8>::new(None, None, None, None, None, Some(lu.clone()), 3, 2);
    assert_eq!(r.unwrap_err(), SerialImageError::ChannelConflict);
    // Nothing at all.
    let r = SerialImageBuffer::<u8>::new(None, None, None, None, None, None, 3, 2);
    assert_eq!(r.unwrap_err(), SerialImageError::ChannelConflict);
}

#[test]
fn new_rejects_wrong_lengths() {
    let r = SerialImageBuffer::<u8>::new(None, Some(vec![0u8; 5]), None, None, None, None, 3, 2);
    assert_eq!(r.unwrap_err(), SerialImageError::LengthMismatch);
    let r = SerialImageBuffer::<u8>::new(
        None,
        Some(vec![0u8; 6]),
        None,
        None,
        None,
        Some(vec![0u8; 7]),
        3,
        2,
    );
    assert_eq!(r.unwrap_err(), SerialImageError::LengthMismatch);
    let r = SerialImageBuffer::<u8>::new(None, Some(Vec::new()), None, None, None, None, 0, 2);
    assert_eq!(r.unwrap_err(), SerialImageError::InvalidDimensions);
}

#[test]
fn metadata_rides_with_the_buffer() {
    let mut img = SerialImageBuffer::<u8>::from_vec(2, 2, vec![9u8; 4]).unwrap();
    assert!(img.get_metadata().is_none());
    let mut meta = ImageMetaData::new(1700000000000, 100000, -10000, 2, 2, "cam", 51, 8);
    meta.add_extended_attrib("OBSERVER", "tester");
    img.set_metadata(Some(meta));
    let back = img.get_metadata().unwrap();
    assert_eq!(back.timestamp, 1700000000000);
    assert_eq!(back.exposure, 100000);
    assert_eq!(back.temperature, -10000);
    assert_eq!(back.camera_name, "cam");
    assert_eq!(back.gain, 51);
    assert_eq!(back.offset, 8);
    assert_eq!(
        back.get_extended_data(),
        &vec![("OBSERVER".to_string(), "tester".to_string())]
    );
    img.set_metadata(None);
    assert!(img.get_metadata().is_none());
}
