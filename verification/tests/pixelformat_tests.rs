use serialimage::{F32Bits, SerialImageError, SerialImagePixel};

#[test]
fn color_codes_cover_the_ten_packed_color_spaces() {
    let table = vec![
        (SerialImagePixel::U8(1), 0u8),
        (SerialImagePixel::U8(2), 1),
        (SerialImagePixel::U8(3), 2),
        (SerialImagePixel::U8(4), 3),
        (SerialImagePixel::U16(1), 4),
        (SerialImagePixel::U16(2), 5),
        (SerialImagePixel::U16(3), 6),
        (SerialImagePixel::U16(4), 7),
        (SerialImagePixel::F32(3), 8),
        (SerialImagePixel::F32(4), 9),
    ];
    for (px, code) in table {
        assert!(px.is_valid());
        assert_eq!(px.color_code().unwrap(), code);
        assert_eq!(SerialImagePixel::from_color_code(code).unwrap(), px);
    }
}

#[test]
fn no_packed_color_space_for_out_of_range_formats() {
    assert!(!SerialImagePixel::U8(0).is_valid());
    assert!(!SerialImagePixel::U8(5).is_valid());
    assert!(!SerialImagePixel::F32(1).is_valid());
    assert!(!SerialImagePixel::F32(2).is_valid());
    assert_eq!(
        SerialImagePixel::F32(2).color_code().unwrap_err(),
        SerialImageError::UnsupportedPixelFormat
    );
    assert_eq!(
        SerialImagePixel::from_color_code(10).unwrap_err(),
        SerialImageError::UnsupportedPixelFormat
    );
}

#[test]
fn float_samples_keep_their_bit_patterns() {
    let x = 1.5f32;
    let b = F32Bits(x.to_bits());
    assert_eq!(f32::from_bits(b.0), 1.5);
    assert_eq!(F32Bits(0.0f32.to_bits()), F32Bits(0));
}
