//! Acquisition metadata: the plain record of capture parameters that
//! rides along with an image, plus an append-only list of extended
//! key/value attributes.

use vstd::prelude::*;

verus! {

/// Image metadata structure: the acquisition parameters of one capture.
///
/// Durations are held in microseconds and timestamps in milliseconds
/// since the Unix epoch; the temperature is held in millidegrees Celsius.
#[derive(Debug)]
pub struct ImageMetaData {
    /// Binning in X direction
    pub bin_x: u32,
    /// Binning in Y direction
    pub bin_y: u32,
    /// Top of image (pixels, binned coordinates)
    pub img_top: u32,
    /// Left of image (pixels, binned coordinates)
    pub img_left: u32,
    /// Camera temperature (millidegrees Celsius)
    pub temperature: i32,
    /// Exposure time (microseconds)
    pub exposure: u64,
    /// Timestamp of the image (milliseconds since the Unix epoch)
    pub timestamp: u64,
    /// Name of the camera
    pub camera_name: String,
    /// Gain (raw)
    pub gain: i64,
    /// Offset (raw)
    pub offset: i64,
    /// Minimum gain (raw)
    pub min_gain: i32,
    /// Maximum gain (raw)
    pub max_gain: i32,
    extended_metadata: Vec<(String, String)>,
}

/// The mathematical value of an [`ImageMetaData`] record: every scalar
/// field as itself, strings as character sequences, and the extended
/// attributes as an ordered sequence of key/value pairs.
pub struct ImageMetaDataView {
    /// Binning in X direction
    pub bin_x: u32,
    /// Binning in Y direction
    pub bin_y: u32,
    /// Top of image
    pub img_top: u32,
    /// Left of image
    pub img_left: u32,
    /// Camera temperature (millidegrees Celsius)
    pub temperature: i32,
    /// Exposure time (microseconds)
    pub exposure: u64,
    /// Timestamp (milliseconds since the Unix epoch)
    pub timestamp: u64,
    /// Name of the camera
    pub camera_name: Seq<char>,
    /// Gain (raw)
    pub gain: i64,
    /// Offset (raw)
    pub offset: i64,
    /// Minimum gain (raw)
    pub min_gain: i32,
    /// Maximum gain (raw)
    pub max_gain: i32,
    /// Extended attributes, in insertion order, duplicates preserved
    pub extended_metadata: Seq<(Seq<char>, Seq<char>)>,
}

impl View for ImageMetaData {
    type V = ImageMetaDataView;

    closed spec fn view(&self) -> ImageMetaDataView {
        ImageMetaDataView {
            bin_x: self.bin_x,
            bin_y: self.bin_y,
            img_top: self.img_top,
            img_left: self.img_left,
            temperature: self.temperature,
            exposure: self.exposure,
            timestamp: self.timestamp,
            camera_name: self.camera_name@,
            gain: self.gain,
            offset: self.offset,
            min_gain: self.min_gain,
            max_gain: self.max_gain,
            extended_metadata: self.extended_metadata@.map_values(
                |p: (String, String)| (p.0@, p.1@),
            ),
        }
    }
}

impl ImageMetaData {
    /// Create a new image metadata structure. The image origin, the gain
    /// bounds and the extended attributes start at their defaults.
    pub fn new(
        timestamp: u64,
        exposure: u64,
        temperature: i32,
        bin_x: u32,
        bin_y: u32,
        camera_name: &str,
        gain: i64,
        offset: i64,
    ) -> (r: Self)
        ensures
            r@.bin_x == bin_x,
            r@.bin_y == bin_y,
            r@.img_top == 0,
            r@.img_left == 0,
            r@.temperature == temperature,
            r@.exposure == exposure,
            r@.timestamp == timestamp,
            r@.camera_name == camera_name@,
            r@.gain == gain,
            r@.offset == offset,
            r@.min_gain == 0,
            r@.max_gain == 0,
            r@.extended_metadata == Seq::<(Seq<char>, Seq<char>)>::empty(),
    {
        let r = ImageMetaData {
            bin_x,
            bin_y,
            img_top: 0,
            img_left: 0,
            temperature,
            exposure,
            timestamp,
            camera_name: camera_name.to_owned(),
            gain,
            offset,
            min_gain: 0,
            max_gain: 0,
            extended_metadata: Vec::new(),
        };
        proof {
            assert(r@.extended_metadata =~= Seq::<(Seq<char>, Seq<char>)>::empty());
        }
        r
    }

    /// Create a new image metadata structure with every parameter given.
    /// The extended attributes start empty.
    pub fn full_builder(
        bin_x: u32,
        bin_y: u32,
        img_top: u32,
        img_left: u32,
        temperature: i32,
        exposure: u64,
        timestamp: u64,
        camera_name: &str,
        gain: i64,
        offset: i64,
        min_gain: i32,
        max_gain: i32,
    ) -> (r: Self)
        ensures
            r@.bin_x == bin_x,
            r@.bin_y == bin_y,
            r@.img_top == img_top,
            r@.img_left == img_left,
            r@.temperature == temperature,
            r@.exposure == exposure,
            r@.timestamp == timestamp,
            r@.camera_name == camera_name@,
            r@.gain == gain,
            r@.offset == offset,
            r@.min_gain == min_gain,
            r@.max_gain == max_gain,
            r@.extended_metadata == Seq::<(Seq<char>, Seq<char>)>::empty(),
    {
        let r = ImageMetaData {
            bin_x,
            bin_y,
            img_top,
            img_left,
            temperature,
            exposure,
            timestamp,
            camera_name: camera_name.to_owned(),
            gain,
            offset,
            min_gain,
            max_gain,
            extended_metadata: Vec::new(),
        };
        proof {
            assert(r@.extended_metadata =~= Seq::<(Seq<char>, Seq<char>)>::empty());
        }
        r
    }

    /// Append one extended attribute. Attributes are never deduplicated:
    /// a duplicate key is kept, and insertion order is preserved.
    pub fn add_extended_attrib(&mut self, key: &str, val: &str)
        ensures
            final(self)@ == (ImageMetaDataView {
                extended_metadata: old(self)@.extended_metadata.push((key@, val@)),
                ..old(self)@
            }),
    {
        self.extended_metadata.push((key.to_owned(), val.to_owned()));
        proof {
            assert(final(self)@.extended_metadata =~= old(self)@.extended_metadata.push(
                (key@, val@),
            ));
        }
    }

    /// The extended attributes of the image metadata, in insertion order.
    pub fn get_extended_data(&self) -> (r: &Vec<(String, String)>)
        ensures
            r@.map_values(|p: (String, String)| (p.0@, p.1@)) == self@.extended_metadata,
    {
        &self.extended_metadata
    }
}

impl Default for ImageMetaData {
    /// The defaulted record: binning one, everything else zero or empty,
    /// the timestamp at the epoch.
    fn default() -> (r: Self)
        ensures
            r@.bin_x == 1,
            r@.bin_y == 1,
            r@.img_top == 0,
            r@.img_left == 0,
            r@.temperature == 0,
            r@.exposure == 0,
            r@.timestamp == 0,
            r@.camera_name == Seq::<char>::empty(),
            r@.gain == 0,
            r@.offset == 0,
            r@.min_gain == 0,
            r@.max_gain == 0,
            r@.extended_metadata == Seq::<(Seq<char>, Seq<char>)>::empty(),
    {
        let r = ImageMetaData {
            bin_x: 1,
            bin_y: 1,
            img_top: 0,
            img_left: 0,
            temperature: 0,
            exposure: 0,
            timestamp: 0,
            camera_name: String::new(),
            gain: 0,
            offset: 0,
            min_gain: 0,
            max_gain: 0,
            extended_metadata: Vec::new(),
        };
        proof {
            assert(r@.extended_metadata =~= Seq::<(Seq<char>, Seq<char>)>::empty());
        }
        r
    }
}

impl Clone for ImageMetaData {
    /// A deep copy carrying the same mathematical value.
    fn clone(&self) -> (r: Self)
        ensures
            r@ == self@,
    {
        let mut ext: Vec<(String, String)> = Vec::new();
        let n = self.extended_metadata.len();
        let mut i: usize = 0;
        while i < n
            invariant
                i <= n,
                n == self.extended_metadata.len(),
                ext@.len() == i,
                forall|q: int| 0 <= q < i ==> #[trigger] ext@[q].0@
                    == self.extended_metadata@[q].0@ && ext@[q].1@
                    == self.extended_metadata@[q].1@,
            decreases n - i,
        {
            let pair = (
                self.extended_metadata[i].0.clone(),
                self.extended_metadata[i].1.clone(),
            );
            ext.push(pair);
            proof {
                assert(ext@[i as int] == pair);
                assert(pair.0@ == self.extended_metadata@[i as int].0@);
                assert(pair.1@ == self.extended_metadata@[i as int].1@);
            }
            i = i + 1;
        }
        let r = ImageMetaData {
            bin_x: self.bin_x,
            bin_y: self.bin_y,
            img_top: self.img_top,
            img_left: self.img_left,
            temperature: self.temperature,
            exposure: self.exposure,
            timestamp: self.timestamp,
            camera_name: self.camera_name.clone(),
            gain: self.gain,
            offset: self.offset,
            min_gain: self.min_gain,
            max_gain: self.max_gain,
            extended_metadata: ext,
        };
        proof {
            assert(r@.extended_metadata =~= self@.extended_metadata);
        }
        r
    }
}

} // verus!
