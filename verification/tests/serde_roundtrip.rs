//! Serialization round trips: a `DynamicSerialImage` encoded as a
//! field-tagged JSON record, written to a string and parsed back,
//! decodes to an equal value, for every variant, with and without
//! metadata and extended attributes.

use serde_json::{Number, Value};
use serialimage::{DynamicSerialImage, F32Bits, ImageMetaData, SerialImageBuffer};

fn num(n: u64) -> Value {
    Value::Number(Number::from(n))
}

fn channel_to_value<T: Copy, F: Fn(T) -> u64>(ch: Option<&Vec<T>>, as_u64: F) -> Value {
    match ch {
        None => Value::Null,
        Some(v) => Value::Array(v.iter().map(|x| num(as_u64(*x))).collect()),
    }
}

fn meta_to_value(meta: &ImageMetaData) -> Value {
    let mut m = serde_json::Map::new();
    m.insert("bin_x".to_string(), num(meta.bin_x as u64));
    m.insert("bin_y".to_string(), num(meta.bin_y as u64));
    m.insert("img_top".to_string(), num(meta.img_top as u64));
    m.insert("img_left".to_string(), num(meta.img_left as u64));
    m.insert(
        "temperature".to_string(),
        Value::Number(Number::from(meta.temperature as i64)),
    );
    m.insert("exposure".to_string(), num(meta.exposure));
    m.insert("timestamp".to_string(), num(meta.timestamp));
    m.insert(
        "camera_name".to_string(),
        Value::String(meta.camera_name.clone()),
    );
    m.insert("gain".to_string(), Value::Number(Number::from(meta.gain)));
    m.insert("offset".to_string(), Value::Number(Number::from(meta.offset)));
    m.insert(
        "min_gain".to_string(),
        Value::Number(Number::from(meta.min_gain as i64)),
    );
    m.insert(
        "max_gain".to_string(),
        Value::Number(Number::from(meta.max_gain as i64)),
    );
    let ext: Vec<Value> = meta
        .get_extended_data()
        .iter()
        .map(|(k, v)| Value::Array(vec![Value::String(k.clone()), Value::String(v.clone())]))
        .collect();
    m.insert("extended_metadata".to_string(), Value::Array(ext));
    Value::Object(m)
}

fn buffer_to_value<T, F>(kind: &str, b: &SerialImageBuffer<T>, as_u64: F) -> Value
where
    T: Copy + serialimage::SerialImageStorageTypes,
    F: Fn(T) -> u64 + Copy,
{
    let mut m = serde_json::Map::new();
    m.insert("kind".to_string(), Value::String(kind.to_string()));
    m.insert("width".to_string(), num(b.width() as u64));
    m.insert("height".to_string(), num(b.height() as u64));
    m.insert("luma".to_string(), channel_to_value(b.get_luma(), as_u64));
    m.insert("red".to_string(), channel_to_value(b.get_red(), as_u64));
    m.insert("green".to_string(), channel_to_value(b.get_green(), as_u64));
    m.insert("blue".to_string(), channel_to_value(b.get_blue(), as_u64));
    m.insert("alpha".to_string(), channel_to_value(b.get_alpha(), as_u64));
    m.insert(
        "meta".to_string(),
        match b.get_metadata() {
            None => Value::Null,
            Some(meta) => meta_to_value(&meta),
        },
    );
    Value::Object(m)
}

fn encode(img: &DynamicSerialImage) -> Value {
    if let Some(b) = img.as_u8() {
        buffer_to_value("U8", b, |x: u8| x as u64)
    } else if let Some(b) = img.as_u16() {
        buffer_to_value("U16", b, |x: u16| x as u64)
    } else {
        let b = img.as_f32().unwrap();
        buffer_to_value("F32", b, |x: F32Bits| x.0 as u64)
    }
}

fn channel_from_value<T, F: Fn(u64) -> T>(v: &Value, from_u64: F) -> Option<Vec<T>> {
    match v {
        Value::Null => None,
        Value::Array(items) => Some(
            items
                .iter()
                .map(|x| from_u64(x.as_u64().expect("sample")))
                .collect(),
        ),
        _ => panic!("channel field"),
    }
}

fn meta_from_value(v: &Value) -> ImageMetaData {
    let o = v.as_object().expect("meta object");
    let mut meta = ImageMetaData::full_builder(
        o["bin_x"].as_u64().unwrap() as u32,
        o["bin_y"].as_u64().unwrap() as u32,
        o["img_top"].as_u64().unwrap() as u32,
        o["img_left"].as_u64().unwrap() as u32,
        o["temperature"].as_i64().unwrap() as i32,
        o["exposure"].as_u64().unwrap(),
        o["timestamp"].as_u64().unwrap(),
        o["camera_name"].as_str().unwrap(),
        o["gain"].as_i64().unwrap(),
        o["offset"].as_i64().unwrap(),
        o["min_gain"].as_i64().unwrap() as i32,
        o["max_gain"].as_i64().unwrap() as i32,
    );
    for pair in o["extended_metadata"].as_array().unwrap() {
        let kv = pair.as_array().unwrap();
        meta.add_extended_attrib(kv[0].as_str().unwrap(), kv[1].as_str().unwrap());
    }
    meta
}

fn buffer_from_value<T, F: Fn(u64) -> T + Copy>(o: &serde_json::Map<String, Value>, from_u64: F) -> (
    Option<ImageMetaData>,
    Option<Vec<T>>,
    Option<Vec<T>>,
    Option<Vec<T>>,
    Option<Vec<T>>,
    Option<Vec<T>>,
    usize,
    usize,
) {
    let meta = match &o["meta"] {
        Value::Null => None,
        m => Some(meta_from_value(m)),
    };
    (
        meta,
        channel_from_value(&o["luma"], from_u64),
        channel_from_value(&o["red"], from_u64),
        channel_from_value(&o["green"], from_u64),
        channel_from_value(&o["blue"], from_u64),
        channel_from_value(&o["alpha"], from_u64),
        o["width"].as_u64().unwrap() as usize,
        o["height"].as_u64().unwrap() as usize,
    )
}

fn decode(v: &Value) -> DynamicSerialImage {
    let o = v.as_object().expect("image object");
    match o["kind"].as_str().unwrap() {
        "U8" => {
            let (meta, l, r, g, b, a, w, h) = buffer_from_value(o, |x| x as u8);
            let buf = SerialImageBuffer::<u8>::new(meta, l, r, g, b, a, w, h).unwrap();
            DynamicSerialImage::from(buf)
        }
        "U16" => {
            let (meta, l, r, g, b, a, w, h) = buffer_from_value(o, |x| x as u16);
            let buf = SerialImageBuffer::<u16>::new(meta, l, r, g, b, a, w, h).unwrap();
            DynamicSerialImage::from(buf)
        }
        _ => {
            let (meta, l, r, g, b, a, w, h) = buffer_from_value(o, |x| F32Bits(x as u32));
            let buf = SerialImageBuffer::<F32Bits>::new(meta, l, r, g, b, a, w, h).unwrap();
            DynamicSerialImage::from(buf)
        }
    }
}

fn round_trip(img: &DynamicSerialImage) {
    let v1 = encode(img);
    let text = serde_json::to_string(&v1).unwrap();
    let v2: Value = serde_json::from_str(&text).unwrap();
    assert_eq!(v1, v2);
    let back = decode(&v2);
    assert_eq!(encode(&back), v1);
    assert_eq!(back.width(), img.width());
    assert_eq!(back.height(), img.height());
}

fn sample_meta() -> ImageMetaData {
    let mut meta = ImageMetaData::new(1700000000000, 125000, -12345, 2, 2, "serde-cam", 60, 10);
    meta.add_extended_attrib("OBSERVER", "tester");
    meta.add_extended_attrib("OBSERVER", "tester again");
    meta
}

#[test]
fn u8_image_round_trips() {
    let data: Vec<u8> = (0..24).map(|x| (x * 10 % 256) as u8).collect();
    let mut img = DynamicSerialImage::from_vec_u8(3, 2, data).unwrap();
    round_trip(&img);
    img.set_metadata(sample_meta());
    round_trip(&img);
}

#[test]
fn u16_image_round_trips() {
    let data: Vec<u16> = (0..4).map(|x| x * 16001).collect();
    let mut img = DynamicSerialImage::from_vec_u16(2, 2, data).unwrap();
    round_trip(&img);
    img.set_metadata(sample_meta());
    round_trip(&img);
}

#[test]
fn u16_luma_alpha_round_trips() {
    let data: Vec<u16> = (0..8).map(|x| x * 8001).collect();
    let img = DynamicSerialImage::from_vec_u16(2, 2, data).unwrap();
    round_trip(&img);
}

#[test]
fn f32_image_round_trips() {
    let samples: Vec<f32> = vec![0.5, -1.25, 3.75, 0.0, 1.0, 2.0];
    let data: Vec<F32Bits> = samples.iter().map(|x| F32Bits(x.to_bits())).collect();
    let mut img = DynamicSerialImage::from_vec_f32(2, 1, data).unwrap();
    round_trip(&img);
    // With metadata but no extended attributes.
    img.set_metadata(ImageMetaData::default());
    round_trip(&img);
}
