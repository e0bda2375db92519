use vstd::prelude::*;
use crate::clock::now_micros;
use crate::error::{opt_text, provide_value_hint, NodeSpaceError, NodeSpaceResult, ValidationError};
use crate::id::{is_uuid_text, NodeId};
use crate::json::distinct_keys;
use crate::node::{refreshed, NodeType};
use crate::text::{
    begins_with, debug_quoted, debug_text, decimal, decimal_text, has_prefix, hex_digits, hex_text,
};

verus! {

/// Camera details read from EXIF data.
///
/// `focal_length` (millimetres) and `aperture` (f-stop) are IEEE-754
/// binary32 bit patterns.
#[derive(Debug, Clone)]
pub struct CameraInfo {
    pub make: Option<String>,
    pub model: Option<String>,
    pub software: Option<String>,
    pub lens_model: Option<String>,
    pub focal_length: Option<u32>,
    pub aperture: Option<u32>,
    pub shutter_speed: Option<String>,
    pub iso: Option<u32>,
    pub flash: Option<bool>,
    pub white_balance: Option<String>,
    /// EXIF orientation value, 1 to 8.
    pub orientation: Option<u32>,
}

impl Default for CameraInfo {
    fn default() -> (r: Self)
        ensures
            r.make is None && r.model is None && r.software is None && r.lens_model is None,
            r.focal_length is None && r.aperture is None && r.shutter_speed is None,
            r.iso is None && r.flash is None && r.white_balance is None && r.orientation is None,
    {
        CameraInfo {
            make: None,
            model: None,
            software: None,
            lens_model: None,
            focal_length: None,
            aperture: None,
            shutter_speed: None,
            iso: None,
            flash: None,
            white_balance: None,
            orientation: None,
        }
    }
}

/// What analysis of the image found.
///
/// `confidence_scores` pairs a detection with an IEEE-754 binary32 bit
/// pattern.
#[derive(Debug)]
pub struct ImageMetadata {
    pub ai_description: Option<String>,
    pub detected_objects: Vec<String>,
    pub scene_classification: Option<String>,
    pub keywords: Vec<String>,
    /// Dominant colours, as hexadecimal codes.
    pub color_palette: Vec<String>,
    /// Text read from the image.
    pub text_content: Option<String>,
    pub faces_detected: Option<u32>,
    pub emotions: Vec<String>,
    pub confidence_scores: Vec<(String, u32)>,
}

impl Default for ImageMetadata {
    fn default() -> (r: Self)
        ensures
            r.ai_description is None && r.scene_classification is None,
            r.text_content is None && r.faces_detected is None,
            r.detected_objects@.len() == 0 && r.keywords@.len() == 0,
            r.color_palette@.len() == 0 && r.emotions@.len() == 0,
            r.confidence_scores@.len() == 0,
            r.wf(),
    {
        ImageMetadata {
            ai_description: None,
            detected_objects: Vec::new(),
            scene_classification: None,
            keywords: Vec::new(),
            color_palette: Vec::new(),
            text_content: None,
            faces_detected: None,
            emotions: Vec::new(),
            confidence_scores: Vec::new(),
        }
    }
}

/// An image with its payload, embedding, camera and analysis metadata, and
/// the same links as a `Node`.
///
/// Timestamps are microseconds since the Unix epoch (UTC). `embedding` holds
/// IEEE-754 binary32 bit patterns; `gps_coordinates` holds (latitude,
/// longitude) as IEEE-754 binary64 bit patterns.
#[derive(Debug)]
pub struct ImageNode {
    pub id: NodeId,
    pub node_type: NodeType,
    pub created_at: i64,
    pub updated_at: i64,
    pub raw_data: Vec<u8>,
    pub embedding: Vec<u32>,
    pub filename: String,
    /// MIME type, such as image/jpeg.
    pub content_type: String,
    /// Size of the payload in bytes; zero when unset.
    pub file_size: usize,
    /// (width, height).
    pub dimensions: (u32, u32),
    pub timestamp: Option<i64>,
    pub gps_coordinates: Option<(u64, u64)>,
    pub camera_info: Option<CameraInfo>,
    pub ai_metadata: ImageMetadata,
    pub relationships: Vec<NodeId>,
    pub parent_id: Option<NodeId>,
    pub user_description: Option<String>,
    pub user_tags: Vec<String>,
    pub before_sibling: Option<NodeId>,
    pub next_sibling: Option<NodeId>,
    pub root_id: Option<NodeId>,
}

fn clone_scores(scores: &Vec<(String, u32)>) -> (r: Vec<(String, u32)>)
    ensures
        r@.len() == scores@.len(),
        forall|i: int| 0 <= i < r@.len() ==> (#[trigger] r@[i]).0@ == scores@[i].0@ && r@[i].1 == scores@[i].1,
{
    let mut out: Vec<(String, u32)> = Vec::new();
    let mut i: usize = 0;
    while i < scores.len()
        invariant
            i <= scores@.len(),
            out@.len() == i,
            forall|j: int| 0 <= j < i ==> (#[trigger] out@[j]).0@ == scores@[j].0@ && out@[j].1 == scores@[j].1,
        decreases scores@.len() - i,
    {
        let entry = &scores[i];
        out.push((entry.0.clone(), entry.1));
        i = i + 1;
    }
    out
}

impl ImageMetadata {
    /// The confidence scores are a map: no detection is scored twice.
    pub open spec fn wf(&self) -> bool {
        distinct_keys(self.confidence_scores@)
    }
}

impl Clone for ImageMetadata {
    fn clone(&self) -> (r: Self) {
        ImageMetadata {
            ai_description: self.ai_description.clone(),
            detected_objects: self.detected_objects.clone(),
            scene_classification: self.scene_classification.clone(),
            keywords: self.keywords.clone(),
            color_palette: self.color_palette.clone(),
            text_content: self.text_content.clone(),
            faces_detected: self.faces_detected,
            emotions: self.emotions.clone(),
            confidence_scores: clone_scores(&self.confidence_scores),
        }
    }
}

impl Clone for ImageNode {
    fn clone(&self) -> (r: Self) {
        ImageNode {
            id: self.id.clone(),
            node_type: self.node_type.clone(),
            created_at: self.created_at,
            updated_at: self.updated_at,
            raw_data: self.raw_data.clone(),
            embedding: self.embedding.clone(),
            filename: self.filename.clone(),
            content_type: self.content_type.clone(),
            file_size: self.file_size,
            dimensions: self.dimensions,
            timestamp: self.timestamp,
            gps_coordinates: self.gps_coordinates,
            camera_info: self.camera_info.clone(),
            ai_metadata: self.ai_metadata.clone(),
            relationships: self.relationships.clone(),
            parent_id: self.parent_id.clone(),
            user_description: self.user_description.clone(),
            user_tags: self.user_tags.clone(),
            before_sibling: self.before_sibling.clone(),
            next_sibling: self.next_sibling.clone(),
            root_id: self.root_id.clone(),
        }
    }
}

/// The embedding dimensionality an image's embedding must have.
pub const EMBEDDING_DIMENSIONS: usize = 384;

/// The binary64 bits of 90.0, the largest latitude in magnitude.
pub const LATITUDE_LIMIT_BITS: u64 = 0x4056_8000_0000_0000;

/// The binary64 bits of 180.0, the largest longitude in magnitude.
pub const LONGITUDE_LIMIT_BITS: u64 = 0x4066_8000_0000_0000;

/// Clears the sign bit of a binary64 pattern.
pub const MAGNITUDE_MASK: u64 = 0x7FFF_FFFF_FFFF_FFFF;

/// Whether the binary64 number with bits `bits` lies in `[-limit, limit]`,
/// for a finite non-negative `limit` with bits `limit_bits`. Finite
/// non-negative numbers order as their bit patterns do; a NaN has a
/// magnitude pattern above every finite one, so it is never within.
pub open spec fn within_magnitude(bits: u64, limit_bits: u64) -> bool {
    (bits & MAGNITUDE_MASK) <= limit_bits
}

/// The invariants that `validate` checks, in the order it checks them.
#[derive(Debug, Clone, Copy, PartialEq, Eq, Structural)]
pub enum ImageCheck {
    Filename,
    ContentType,
    ContentTypeFormat,
    Dimensions,
    RawData,
    FileSize,
    Embedding,
    Latitude,
    Longitude,
    NodeType,
}

/// What the `Debug` of a node type writes.
pub open spec fn node_type_debug(t: NodeType) -> Seq<char> {
    match t {
        NodeType::Text => "Text"@,
        NodeType::Image => "Image"@,
        NodeType::Task => "Task"@,
        NodeType::Document => "Document"@,
        NodeType::Link => "Link"@,
        NodeType::Entity => "Entity"@,
        NodeType::Date => "Date"@,
        NodeType::Audio => "Audio"@,
        NodeType::Video => "Video"@,
        NodeType::Custom(name) => "Custom("@ + debug_quoted(name@) + ")"@,
    }
}

fn node_type_debug_text(t: &NodeType) -> (r: String)
    ensures
        r@ == node_type_debug(*t),
{
    match t {
        NodeType::Text => String::from_str("Text"),
        NodeType::Image => String::from_str("Image"),
        NodeType::Task => String::from_str("Task"),
        NodeType::Document => String::from_str("Document"),
        NodeType::Link => String::from_str("Link"),
        NodeType::Entity => String::from_str("Entity"),
        NodeType::Date => String::from_str("Date"),
        NodeType::Audio => String::from_str("Audio"),
        NodeType::Video => String::from_str("Video"),
        NodeType::Custom(name) => String::from_str("Custom(").concat(debug_text(name).as_str()).concat(")"),
    }
}

/// `e` reports a missing field `f` of an image node.
pub open spec fn reports_missing(e: NodeSpaceError, f: Seq<char>) -> bool {
    &&& e matches NodeSpaceError::Validation(ValidationError::RequiredFieldMissing { field, context, suggestion })
    &&& field@ == f
    &&& context@ == "ImageNode"@
    &&& opt_text(suggestion) == Some(provide_value_hint(f))
}

/// `e` reports a field `f` in the wrong format.
pub open spec fn reports_format(e: NodeSpaceError, f: Seq<char>, want: Seq<char>, got: Seq<char>) -> bool {
    &&& e matches NodeSpaceError::Validation(ValidationError::InvalidFormat { field, expected, actual, examples })
    &&& field@ == f
    &&& expected@ == want
    &&& actual@ == got
    &&& examples@.len() == 0
}

/// `e` reports a value of field `f` out of `[lo, hi]`.
pub open spec fn reports_range(e: NodeSpaceError, f: Seq<char>, v: Seq<char>, lo: Seq<char>, hi: Seq<char>) -> bool {
    e matches NodeSpaceError::Validation(ValidationError::OutOfRange { field, value, min, max })
        && field@ == f && value@ == v && min@ == lo && max@ == hi
}

/// The hint a file-size mismatch carries.
pub open spec fn file_size_hint() -> Seq<char> {
    "Use raw_data.len() to set correct file_size"@
}

impl ImageNode {
    /// The first invariant the image breaks, in the order of the checks.
    pub open spec fn first_failure(&self) -> Option<ImageCheck> {
        if self.filename@.len() == 0 {
            Some(ImageCheck::Filename)
        } else if self.content_type@.len() == 0 {
            Some(ImageCheck::ContentType)
        } else if !begins_with(self.content_type@, "image/"@) {
            Some(ImageCheck::ContentTypeFormat)
        } else if self.dimensions.0 == 0 || self.dimensions.1 == 0 {
            Some(ImageCheck::Dimensions)
        } else if self.raw_data@.len() == 0 {
            Some(ImageCheck::RawData)
        } else if self.file_size > 0 && self.file_size != self.raw_data@.len() {
            Some(ImageCheck::FileSize)
        } else if self.embedding@.len() != 0 && self.embedding@.len() != EMBEDDING_DIMENSIONS {
            Some(ImageCheck::Embedding)
        } else if self.gps_coordinates is Some && !within_magnitude(
            (self.gps_coordinates->0).0,
            LATITUDE_LIMIT_BITS,
        ) {
            Some(ImageCheck::Latitude)
        } else if self.gps_coordinates is Some && !within_magnitude(
            (self.gps_coordinates->0).1,
            LONGITUDE_LIMIT_BITS,
        ) {
            Some(ImageCheck::Longitude)
        } else if !(self.node_type is Image) {
            Some(ImageCheck::NodeType)
        } else {
            None
        }
    }

    /// `e` is the error that `validate` gives for a failed check `c`.
    pub open spec fn reports(&self, e: NodeSpaceError, c: ImageCheck) -> bool {
        match c {
            ImageCheck::Filename => reports_missing(e, "filename"@),
            ImageCheck::ContentType => reports_missing(e, "content_type"@),
            ImageCheck::ContentTypeFormat => reports_format(
                e,
                "content_type"@,
                "image/*"@,
                self.content_type@,
            ),
            ImageCheck::Dimensions => reports_range(
                e,
                "dimensions"@,
                decimal(self.dimensions.0 as nat) + "x"@ + decimal(self.dimensions.1 as nat),
                "1"@,
                "unlimited"@,
            ),
            ImageCheck::RawData => reports_missing(e, "raw_data"@),
            ImageCheck::FileSize => {
                &&& e matches NodeSpaceError::Validation(ValidationError::InvalidFormat { field, expected, actual, examples })
                &&& field@ == "file_size"@
                &&& expected@ == decimal(self.raw_data@.len())
                &&& actual@ == decimal(self.file_size as nat)
                &&& examples@.len() == 1
                &&& examples@[0]@ == file_size_hint()
            },
            ImageCheck::Embedding => reports_range(
                e,
                "embedding.len()"@,
                decimal(self.embedding@.len()),
                "384"@,
                "384"@,
            ),
            ImageCheck::Latitude => reports_range(
                e,
                "latitude"@,
                "0x"@ + hex_digits((self.gps_coordinates->0).0 as nat, 16),
                "-90.0"@,
                "90.0"@,
            ),
            ImageCheck::Longitude => reports_range(
                e,
                "longitude"@,
                "0x"@ + hex_digits((self.gps_coordinates->0).1 as nat, 16),
                "-180.0"@,
                "180.0"@,
            ),
            ImageCheck::NodeType => reports_format(
                e,
                "node_type"@,
                "NodeType::Image"@,
                node_type_debug(self.node_type),
            ),
        }
    }

    /// Checks the image's invariants and reports the first one broken; the
    /// image is not changed.
    pub fn validate(&self) -> (r: NodeSpaceResult<()>)
        ensures
            match self.first_failure() {
                None => r is Ok,
                Some(c) => r matches Err(e) && self.reports(e, c),
            },
    {
        if self.filename.unicode_len() == 0 {
            return Err(NodeSpaceError::Validation(ValidationError::required_field("filename", "ImageNode")));
        }
        if self.content_type.unicode_len() == 0 {
            return Err(
                NodeSpaceError::Validation(ValidationError::required_field("content_type", "ImageNode")),
            );
        }
        if !has_prefix(self.content_type.as_str(), "image/") {
            return Err(
                NodeSpaceError::Validation(
                    ValidationError::invalid_format("content_type", "image/*", self.content_type.as_str()),
                ),
            );
        }
        if self.dimensions.0 == 0 || self.dimensions.1 == 0 {
            let shown = decimal_text(self.dimensions.0 as u64).concat("x").concat(
                decimal_text(self.dimensions.1 as u64).as_str(),
            );
            proof {
                reveal_strlit("x");
            }
            return Err(
                NodeSpaceError::Validation(
                    ValidationError::out_of_range("dimensions", shown.as_str(), "1", "unlimited"),
                ),
            );
        }
        if self.raw_data.len() == 0 {
            return Err(NodeSpaceError::Validation(ValidationError::required_field("raw_data", "ImageNode")));
        }
        if self.file_size > 0 && self.file_size != self.raw_data.len() {
            let mut examples: Vec<String> = Vec::new();
            examples.push(String::from_str("Use raw_data.len() to set correct file_size"));
            return Err(
                NodeSpaceError::Validation(
                    ValidationError::InvalidFormat {
                        field: String::from_str("file_size"),
                        expected: decimal_text(self.raw_data.len() as u64),
                        actual: decimal_text(self.file_size as u64),
                        examples,
                    },
                ),
            );
        }
        if self.embedding.len() != 0 && self.embedding.len() != EMBEDDING_DIMENSIONS {
            let shown = decimal_text(self.embedding.len() as u64);
            return Err(
                NodeSpaceError::Validation(
                    ValidationError::out_of_range("embedding.len()", shown.as_str(), "384", "384"),
                ),
            );
        }
        if let Some((lat, lon)) = self.gps_coordinates {
            if (lat & MAGNITUDE_MASK) > LATITUDE_LIMIT_BITS {
                let shown = hex_text(lat);
                return Err(
                    NodeSpaceError::Validation(
                        ValidationError::out_of_range("latitude", shown.as_str(), "-90.0", "90.0"),
                    ),
                );
            }
            if (lon & MAGNITUDE_MASK) > LONGITUDE_LIMIT_BITS {
                let shown = hex_text(lon);
                return Err(
                    NodeSpaceError::Validation(
                        ValidationError::out_of_range("longitude", shown.as_str(), "-180.0", "180.0"),
                    ),
                );
            }
        }
        match self.node_type {
            NodeType::Image => Ok(()),
            _ => {
                let shown = node_type_debug_text(&self.node_type);
                Err(
                    NodeSpaceError::Validation(
                        ValidationError::invalid_format("node_type", "NodeType::Image", shown.as_str()),
                    ),
                )
            },
        }
    }
}


/// The texts of a sequence of strings.
pub open spec fn texts(v: Seq<String>) -> Seq<Seq<char>> {
    v.map_values(|s: String| s@)
}

/// The parts joined, with `sep` between each two.
pub open spec fn join(parts: Seq<Seq<char>>, sep: Seq<char>) -> Seq<char>
    decreases parts.len(),
{
    if parts.len() == 0 {
        Seq::empty()
    } else if parts.len() == 1 {
        parts[0]
    } else {
        join(parts.drop_last(), sep) + sep + parts.last()
    }
}

/// Joins the strings with `sep` between each two.
fn join_texts(parts: &Vec<String>, sep: &str) -> (r: String)
    ensures
        r@ == join(texts(parts@), sep@),
{
    let mut out = String::new();
    let mut i: usize = 0;
    while i < parts.len()
        invariant
            i <= parts@.len(),
            out@ == join(texts(parts@).subrange(0, i as int), sep@),
        decreases parts@.len() - i,
    {
        proof {
            assert(texts(parts@).subrange(0, i as int + 1).drop_last() =~= texts(parts@).subrange(0, i as int));
        }
        if i == 0 {
            out = parts[i].clone();
        } else {
            out = out.concat(sep).concat(parts[i].as_str());
        }
        i = i + 1;
    }
    assert(texts(parts@).subrange(0, parts@.len() as int) =~= texts(parts@));
    out
}

/// Whether some identifier of `ids` has the text of `id`.
pub open spec fn holds_id(ids: Seq<NodeId>, id: NodeId) -> bool {
    exists|i: int| 0 <= i < ids.len() && ids[i].0@ == id.0@
}

/// The position of the first identifier with the text of `id`.
fn position_of(ids: &Vec<NodeId>, id: &NodeId) -> (r: Option<usize>)
    ensures
        match r {
            Some(i) => i < ids@.len() && ids@[i as int].0@ == id.0@
                && !holds_id(ids@.subrange(0, i as int), *id),
            None => !holds_id(ids@, *id),
        },
{
    let mut i: usize = 0;
    while i < ids.len()
        invariant
            i <= ids@.len(),
            forall|j: int| 0 <= j < i ==> ids@[j].0@ != id.0@,
        decreases ids@.len() - i,
    {
        if ids[i].0 == id.0 {
            assert(forall|j: int| 0 <= j < i ==> ids@.subrange(0, i as int)[j] == ids@[j]);
            return Some(i);
        }
        i = i + 1;
    }
    None
}

/// The description a summary shows: the user's, else the analysis's.
pub open spec fn shown_description(img: ImageNode) -> Option<Seq<char>> {
    match img.user_description {
        Some(d) => Some(d@),
        None => opt_text(img.ai_metadata.ai_description),
    }
}

/// The parts of the summary of `img`, before they are joined.
pub open spec fn summary_parts(img: ImageNode) -> Seq<Seq<char>> {
    let head = seq![
        decimal(img.dimensions.0 as nat) + "x"@ + decimal(img.dimensions.1 as nat),
        img.content_type@,
    ];
    let with_description = match shown_description(img) {
        Some(d) => head.push(d),
        None => head,
    };
    if img.ai_metadata.detected_objects@.len() == 0 {
        with_description
    } else {
        with_description.push(
            "Objects: "@ + join(texts(img.ai_metadata.detected_objects@), ", "@),
        )
    }
}

impl ImageNode {
    /// `self` equals `old` but for `updated_at`, which moved forward.
    pub open spec fn touched_from(&self, old: ImageNode) -> bool {
        &&& *self == (ImageNode { updated_at: self.updated_at, ..old })
        &&& old.updated_at <= self.updated_at
        &&& old.created_at <= self.updated_at
    }

    /// An image as construction leaves it.
    pub open spec fn is_fresh(&self) -> bool {
        &&& self.node_type is Image
        &&& self.created_at == self.updated_at
        &&& self.embedding@.len() == 0
        &&& self.file_size == 0
        &&& self.timestamp is None
        &&& self.gps_coordinates is None
        &&& self.camera_info is None
        &&& self.ai_metadata.ai_description is None
        &&& self.ai_metadata.scene_classification is None
        &&& self.ai_metadata.text_content is None
        &&& self.ai_metadata.faces_detected is None
        &&& self.ai_metadata.detected_objects@.len() == 0
        &&& self.ai_metadata.keywords@.len() == 0
        &&& self.ai_metadata.color_palette@.len() == 0
        &&& self.ai_metadata.emotions@.len() == 0
        &&& self.ai_metadata.confidence_scores@.len() == 0
        &&& self.relationships@.len() == 0
        &&& self.parent_id is None
        &&& self.user_description is None
        &&& self.user_tags@.len() == 0
        &&& self.before_sibling is None
        &&& self.next_sibling is None
        &&& self.root_id is None
    }

    /// A new image with a fresh identifier and nothing but its payload,
    /// name, type and size.
    pub fn new(raw_data: Vec<u8>, filename: String, content_type: String, dimensions: (u32, u32)) -> (r: Self)
        ensures
            is_uuid_text(r.id.0@),
            r.raw_data == raw_data,
            r.filename == filename,
            r.content_type == content_type,
            r.dimensions == dimensions,
            r.is_fresh(),
    {
        Self::with_id(NodeId::new(), raw_data, filename, content_type, dimensions)
    }

    /// A new image with the given identifier.
    pub fn with_id(
        id: NodeId,
        raw_data: Vec<u8>,
        filename: String,
        content_type: String,
        dimensions: (u32, u32),
    ) -> (r: Self)
        ensures
            r.id == id,
            r.raw_data == raw_data,
            r.filename == filename,
            r.content_type == content_type,
            r.dimensions == dimensions,
            r.is_fresh(),
    {
        let now = now_micros();
        ImageNode {
            id,
            node_type: NodeType::Image,
            created_at: now,
            updated_at: now,
            raw_data,
            embedding: Vec::new(),
            filename,
            content_type,
            file_size: 0,
            dimensions,
            timestamp: None,
            gps_coordinates: None,
            camera_info: None,
            ai_metadata: ImageMetadata::default(),
            relationships: Vec::new(),
            parent_id: None,
            user_description: None,
            user_tags: Vec::new(),
            before_sibling: None,
            next_sibling: None,
            root_id: None,
        }
    }

    /// Refreshes `updated_at` to the instant `now`, without moving it back.
    pub fn touch_at(&mut self, now: i64)
        ensures
            *final(self) == (ImageNode {
                updated_at: refreshed(old(self).created_at, old(self).updated_at, now),
                ..*old(self)
            }),
    {
        let mut floor = self.updated_at;
        if floor < self.created_at {
            floor = self.created_at;
        }
        self.updated_at = if floor <= now { now } else { floor };
    }

    /// Refreshes `updated_at` to the current time, without moving it back.
    pub fn touch(&mut self)
        ensures
            final(self).touched_from(*old(self)),
    {
        let now = now_micros();
        self.touch_at(now);
    }

    /// The image with the given file size.
    pub fn with_file_size(self, file_size: usize) -> (r: Self)
        ensures
            r == (ImageNode { file_size, ..self }),
    {
        let mut img = self;
        img.file_size = file_size;
        img
    }

    /// The image with the given embedding, refreshed.
    pub fn with_embedding(self, embedding: Vec<u32>) -> (r: Self)
        ensures
            r.touched_from((ImageNode { embedding, ..self })),
    {
        let mut img = self;
        img.embedding = embedding;
        img.touch();
        img
    }

    /// The image with the given camera details, refreshed.
    pub fn with_camera_info(self, camera_info: CameraInfo) -> (r: Self)
        ensures
            r.touched_from((ImageNode { camera_info: Some(camera_info), ..self })),
    {
        let mut img = self;
        img.camera_info = Some(camera_info);
        img.touch();
        img
    }

    /// The image with the given position, as binary64 bit patterns, refreshed.
    pub fn with_gps_coordinates(self, latitude: u64, longitude: u64) -> (r: Self)
        ensures
            r.touched_from((ImageNode { gps_coordinates: Some((latitude, longitude)), ..self })),
    {
        let mut img = self;
        img.gps_coordinates = Some((latitude, longitude));
        img.touch();
        img
    }

    /// The image with the given capture time, refreshed.
    pub fn with_timestamp(self, timestamp: i64) -> (r: Self)
        ensures
            r.touched_from((ImageNode { timestamp: Some(timestamp), ..self })),
    {
        let mut img = self;
        img.timestamp = Some(timestamp);
        img.touch();
        img
    }

    /// The image with the given analysis metadata, refreshed.
    pub fn with_ai_metadata(self, ai_metadata: ImageMetadata) -> (r: Self)
        ensures
            r.touched_from((ImageNode { ai_metadata, ..self })),
    {
        let mut img = self;
        img.ai_metadata = ai_metadata;
        img.touch();
        img
    }

    /// The image with the given user description, refreshed.
    pub fn with_user_description(self, description: String) -> (r: Self)
        ensures
            r.touched_from((ImageNode { user_description: Some(description), ..self })),
    {
        let mut img = self;
        img.user_description = Some(description);
        img.touch();
        img
    }

    /// The image with the given user tags, refreshed.
    pub fn with_user_tags(self, tags: Vec<String>) -> (r: Self)
        ensures
            r.touched_from((ImageNode { user_tags: tags, ..self })),
    {
        let mut img = self;
        img.user_tags = tags;
        img.touch();
        img
    }

    /// The image with the given parent, refreshed.
    pub fn with_parent(self, parent_id: NodeId) -> (r: Self)
        ensures
            r.touched_from((ImageNode { parent_id: Some(parent_id), ..self })),
    {
        let mut img = self;
        img.parent_id = Some(parent_id);
        img.touch();
        img
    }

    /// Records a related node, unless one with the same identifier is
    /// already recorded; a change refreshes the image.
    pub fn add_relationship(&mut self, node_id: NodeId)
        ensures
            if holds_id(old(self).relationships@, node_id) {
                *final(self) == *old(self)
            } else {
                &&& final(self).touched_from((ImageNode {
                    relationships: final(self).relationships,
                    ..*old(self)
                }))
                &&& final(self).relationships@ == old(self).relationships@.push(node_id)
            },
    {
        match position_of(&self.relationships, &node_id) {
            Some(_) => {},
            None => {
                self.relationships.push(node_id);
                self.touch();
            },
        }
    }

    /// Removes the first recorded relation with the identifier of `node_id`,
    /// if any; a change refreshes the image.
    pub fn remove_relationship(&mut self, node_id: &NodeId)
        ensures
            !holds_id(old(self).relationships@, *node_id) ==> *final(self) == *old(self),
            holds_id(old(self).relationships@, *node_id) ==> exists|i: int|
                0 <= i < old(self).relationships@.len()
                && old(self).relationships@[i].0@ == node_id.0@
                && !holds_id(old(self).relationships@.subrange(0, i), *node_id)
                && final(self).relationships@ == old(self).relationships@.remove(i)
                && final(self).touched_from((ImageNode {
                    relationships: final(self).relationships,
                    ..*old(self)
                })),
    {
        match position_of(&self.relationships, node_id) {
            Some(pos) => {
                self.relationships.remove(pos);
                self.touch();
            },
            None => {},
        }
    }

    /// The image with the given next sibling, refreshed.
    pub fn with_next_sibling(self, next: Option<NodeId>) -> (r: Self)
        ensures
            r.touched_from((ImageNode { next_sibling: next, ..self })),
    {
        let mut img = self;
        img.next_sibling = next;
        img.touch();
        img
    }

    /// The image with the given previous sibling, refreshed.
    pub fn with_before_sibling(self, before: Option<NodeId>) -> (r: Self)
        ensures
            r.touched_from((ImageNode { before_sibling: before, ..self })),
    {
        let mut img = self;
        img.before_sibling = before;
        img.touch();
        img
    }

    /// Sets the next sibling and refreshes the image.
    pub fn set_next_sibling(&mut self, next_sibling: Option<NodeId>)
        ensures
            final(self).touched_from((ImageNode { next_sibling, ..*old(self) })),
    {
        self.next_sibling = next_sibling;
        self.touch();
    }

    /// Sets the previous sibling and refreshes the image.
    pub fn set_before_sibling(&mut self, before_sibling: Option<NodeId>)
        ensures
            final(self).touched_from((ImageNode { before_sibling, ..*old(self) })),
    {
        self.before_sibling = before_sibling;
        self.touch();
    }

    /// Whether the image has a next sibling.
    pub fn has_next_sibling(&self) -> (r: bool)
        ensures
            r == self.next_sibling is Some,
    {
        self.next_sibling.is_some()
    }

    /// Whether the image has a previous sibling.
    pub fn has_before_sibling(&self) -> (r: bool)
        ensures
            r == self.before_sibling is Some,
    {
        self.before_sibling.is_some()
    }

    /// Whether the image is the last of its siblings.
    pub fn is_last(&self) -> (r: bool)
        ensures
            r == self.next_sibling is None,
    {
        self.next_sibling.is_none()
    }

    /// Whether the image is the first of its siblings.
    pub fn is_first_sibling(&self) -> (r: bool)
        ensures
            r == self.before_sibling is None,
    {
        self.before_sibling.is_none()
    }

    /// A one-line description: size, type, description, detected objects,
    /// separated by " | ".
    pub fn summary(&self) -> (r: String)
        ensures
            r@ == join(summary_parts(*self), " | "@),
    {
        let mut parts: Vec<String> = Vec::new();
        let size = decimal_text(self.dimensions.0 as u64).concat("x").concat(
            decimal_text(self.dimensions.1 as u64).as_str(),
        );
        parts.push(size);
        parts.push(self.content_type.clone());
        match &self.user_description {
            Some(desc) => parts.push(desc.clone()),
            None => match &self.ai_metadata.ai_description {
                Some(ai_desc) => parts.push(ai_desc.clone()),
                None => {},
            },
        }
        if self.ai_metadata.detected_objects.len() != 0 {
            let objects = join_texts(&self.ai_metadata.detected_objects, ", ");
            parts.push(String::from_str("Objects: ").concat(objects.as_str()));
        }
        proof {
            assert(texts(parts@) =~= summary_parts(*self));
        }
        join_texts(&parts, " | ")
    }
}

/// An unset file size passes whatever the payload: two images that differ
/// only in their non-empty payloads, with no file size, fare the same under
/// `validate`.
pub proof fn lemma_unset_file_size_accepted(a: ImageNode, b: ImageNode)
    requires
        a.file_size == 0,
        b == (ImageNode { raw_data: b.raw_data, ..a }),
        a.raw_data@.len() > 0,
        b.raw_data@.len() > 0,
    ensures
        a.first_failure() != Some(ImageCheck::FileSize),
        a.first_failure() == b.first_failure(),
{
}

} // verus!
