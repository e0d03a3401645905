use serialimage::ImageMetaData;

#[test]
fn new_fills_defaults_for_the_rest() {
    let m = ImageMetaData::new(1700000000000, 250000, -5500, 2, 4, "alpha-cam", 120, 30);
    assert_eq!(m.timestamp, 1700000000000);
    assert_eq!(m.exposure, 250000);
    assert_eq!(m.temperature, -5500);
    assert_eq!(m.bin_x, 2);
    assert_eq!(m.bin_y, 4);
    assert_eq!(m.camera_name, "alpha-cam");
    assert_eq!(m.gain, 120);
    assert_eq!(m.offset, 30);
    assert_eq!(m.img_top, 0);
    assert_eq!(m.img_left, 0);
    assert_eq!(m.min_gain, 0);
    assert_eq!(m.max_gain, 0);
    assert!(m.get_extended_data().is_empty());
}

#[test]
fn full_builder_sets_every_field() {
    let m = ImageMetaData::full_builder(2, 2, 8, 16, 1500, 5000, 42, "b", -7, 9, 1, 300);
    assert_eq!(m.bin_x, 2);
    assert_eq!(m.bin_y, 2);
    assert_eq!(m.img_top, 8);
    assert_eq!(m.img_left, 16);
    assert_eq!(m.temperature, 1500);
    assert_eq!(m.exposure, 5000);
    assert_eq!(m.timestamp, 42);
    assert_eq!(m.camera_name, "b");
    assert_eq!(m.gain, -7);
    assert_eq!(m.offset, 9);
    assert_eq!(m.min_gain, 1);
    assert_eq!(m.max_gain, 300);
}

#[test]
fn default_is_the_epoch_record_with_unit_binning() {
    let m = ImageMetaData::default();
    assert_eq!(m.bin_x, 1);
    assert_eq!(m.bin_y, 1);
    assert_eq!(m.timestamp, 0);
    assert_eq!(m.exposure, 0);
    assert_eq!(m.camera_name, "");
    assert!(m.get_extended_data().is_empty());
}

#[test]
fn extended_attributes_keep_insertion_order_and_duplicates() {
    let mut m = ImageMetaData::default();
    m.add_extended_attrib("KEY", "one");
    m.add_extended_attrib("OTHER", "two");
    m.add_extended_attrib("KEY", "three");
    let expect = vec![
        ("KEY".to_string(), "one".to_string()),
        ("OTHER".to_string(), "two".to_string()),
        ("KEY".to_string(), "three".to_string()),
    ];
    assert_eq!(m.get_extended_data(), &expect);
}

#[test]
fn clone_is_deep_and_value_equal() {
    let mut m = ImageMetaData::new(9, 8, 7, 6, 5, "cam", 4, 3);
    m.add_extended_attrib("A", "B");
    let c = m.clone();
    assert_eq!(c.timestamp, m.timestamp);
    assert_eq!(c.camera_name, m.camera_name);
    assert_eq!(c.get_extended_data(), m.get_extended_data());
    // Growing the original leaves the copy alone.
    m.add_extended_attrib("C", "D");
    assert_eq!(c.get_extended_data().len(), 1);
    assert_eq!(m.get_extended_data().len(), 2);
}
