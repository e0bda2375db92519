//! How an `ImageNode` is carried in the content of a generic `Node`: an
//! object with one entry per field, keyed by the field's name. Fields are
//! read by name, in any order; an optional field whose key is absent reads
//! as none, as content written before the field existed lacks it.

use vstd::prelude::*;
use crate::binary32::widen_bits;
use crate::codec::{
    bytes_ok, bytes_rep, dec_bytes, dec_ids, dec_opt_bool, dec_opt_i64, dec_opt_id, dec_opt_str, dec_opt_u32,
    dec_str, dec_strs, dec_f32s, dec_opt_f32, f32_ok, f32_rep, f32s_ok, f32s_rep, opt_f32_ok, opt_f32_rep, enc_opt_f32, dec_f32, enc_bytes, enc_ids, enc_opt_bool, enc_opt_i64, enc_opt_id, enc_opt_str,
    enc_opt_u32, enc_str, enc_strs, enc_f32s, has_key_at, id_rep, ids_rep, int_rep, items, key_at,
    lemma_bytes_rep_unique, lemma_ids_rep_unique, lemma_strs_rep_unique, lemma_f32s_rep_unique, lemma_f32_rep, lemma_f32s_rep_ok,
    opt_bool_ok, opt_bool_rep, opt_i64_ok, opt_i64_rep, opt_id_rep, opt_str_ok, opt_str_rep, opt_u32_ok,
    opt_u32_rep, same_ids, same_opt_id, same_opt_text, same_texts, str_rep, strs_ok, strs_rep,  uint_rep,
};
use crate::error::{NodeSpaceError, NodeSpaceResult, ProcessingError};
use crate::id::{clone_opt_id, NodeId};
use crate::image::{CameraInfo, ImageMetadata, ImageNode};
use crate::json::{field, lemma_lookup_keys, lookup, JsonValue};
use crate::node::{same_node_type, Node, NodeType};

verus! {

/// The entries of an object value.
pub open spec fn entries(v: JsonValue) -> Seq<(String, JsonValue)> {
    match v {
        JsonValue::Object(e) => e@,
        _ => Seq::empty(),
    }
}

/// The value of entry `k` of an object.
pub open spec fn at(v: JsonValue, k: int) -> JsonValue {
    entries(v)[k].1
}

/// `v` is an object of `n` entries.
pub open spec fn object_of(v: JsonValue, n: int) -> bool {
    v is Object && entries(v).len() == n
}

pub open spec fn node_type_rep(v: JsonValue, t: NodeType) -> bool {
    match t {
        NodeType::Custom(name) => {
            &&& object_of(v, 1)
            &&& key_at(entries(v), 0, "Custom"@)
            &&& str_rep(at(v, 0), name)
        },
        NodeType::Text => text_of_value(v) == Some("Text"@),
        NodeType::Image => text_of_value(v) == Some("Image"@),
        NodeType::Task => text_of_value(v) == Some("Task"@),
        NodeType::Document => text_of_value(v) == Some("Document"@),
        NodeType::Link => text_of_value(v) == Some("Link"@),
        NodeType::Entity => text_of_value(v) == Some("Entity"@),
        NodeType::Date => text_of_value(v) == Some("Date"@),
        NodeType::Audio => text_of_value(v) == Some("Audio"@),
        NodeType::Video => text_of_value(v) == Some("Video"@),
    }
}

/// The text of a string value.
pub open spec fn text_of_value(v: JsonValue) -> Option<Seq<char>> {
    match v {
        JsonValue::Str(t) => Some(t@),
        _ => None,
    }
}

/// The names of the variants without data.
pub open spec fn unit_type_names() -> Set<Seq<char>> {
    set!["Text"@, "Image"@, "Task"@, "Document"@, "Link"@, "Entity"@, "Date"@, "Audio"@, "Video"@]
}

pub open spec fn node_type_ok(v: JsonValue) -> bool {
    ||| (text_of_value(v) matches Some(t) && unit_type_names().contains(t))
    ||| (object_of(v, 1) && key_at(entries(v), 0, "Custom"@) && at(v, 0) is Str)
}

pub open spec fn dims_rep(v: JsonValue, d: (u32, u32)) -> bool {
    &&& v is Array
    &&& items(v).len() == 2
    &&& uint_rep(items(v)[0], d.0 as int)
    &&& uint_rep(items(v)[1], d.1 as int)
}

pub open spec fn dims_ok(v: JsonValue) -> bool {
    &&& v is Array
    &&& items(v).len() == 2
    &&& items(v)[0] matches JsonValue::UInt(w) && w <= u32::MAX
    &&& items(v)[1] matches JsonValue::UInt(h) && h <= u32::MAX
}

pub open spec fn gps_rep(v: JsonValue, g: Option<(u64, u64)>) -> bool {
    match g {
        None => v is Null,
        Some(p) => {
            &&& v is Array
            &&& items(v).len() == 2
            &&& items(v)[0] == JsonValue::Float(p.0)
            &&& items(v)[1] == JsonValue::Float(p.1)
        },
    }
}

pub open spec fn gps_ok(v: JsonValue) -> bool {
    ||| v is Null
    ||| (v is Array && items(v).len() == 2 && items(v)[0] is Float && items(v)[1] is Float)
}

pub open spec fn scores_rep(v: JsonValue, s: Seq<(String, u32)>) -> bool {
    &&& v is Object
    &&& entries(v).len() == s.len()
    &&& forall|i: int| 0 <= i < s.len() ==>
        (#[trigger] entries(v)[i]).0@ == s[i].0@ && f32_rep(entries(v)[i].1, s[i].1)
}

pub open spec fn scores_ok(v: JsonValue) -> bool {
    &&& v is Object
    &&& forall|i: int| 0 <= i < entries(v).len() ==>
        f32_ok((#[trigger] entries(v)[i]).1)
}

/// The keys of a camera record, in the order they are written.
pub open spec fn camera_keys() -> Seq<Seq<char>> {
    seq!["make"@, "model"@, "software"@, "lens_model"@, "focal_length"@, "aperture"@, "shutter_speed"@, "iso"@, "flash"@, "white_balance"@, "orientation"@]
}

/// The keys of a camera record are pairwise distinct.
pub proof fn lemma_camera_keys_distinct()
    ensures
        forall|i: int, j: int| 0 <= i < j < camera_keys().len() ==> camera_keys()[i] != camera_keys()[j],
{
    reveal_strlit("make");
    reveal_strlit("model");
    reveal_strlit("software");
    reveal_strlit("lens_model");
    reveal_strlit("focal_length");
    reveal_strlit("aperture");
    reveal_strlit("shutter_speed");
    reveal_strlit("iso");
    reveal_strlit("flash");
    reveal_strlit("white_balance");
    reveal_strlit("orientation");
    let keys = camera_keys();
    assert forall|i: int, j: int| 0 <= i < j < keys.len() implies keys[i] != keys[j] by {
        if keys[i] == keys[j] {
            assert(keys[i].len() == keys[j].len());
            assert(keys[i][0] == keys[j][0]);
        }
    }
}

/// `v` holds a camera record `c`, each field under its name.
pub open spec fn camera_rep(v: JsonValue, c: CameraInfo) -> bool {
    &&& v is Object
    &&& opt_str_rep(at_key(v, "make"@), c.make)
    &&& opt_str_rep(at_key(v, "model"@), c.model)
    &&& opt_str_rep(at_key(v, "software"@), c.software)
    &&& opt_str_rep(at_key(v, "lens_model"@), c.lens_model)
    &&& opt_f32_rep(at_key(v, "focal_length"@), c.focal_length)
    &&& opt_f32_rep(at_key(v, "aperture"@), c.aperture)
    &&& opt_str_rep(at_key(v, "shutter_speed"@), c.shutter_speed)
    &&& opt_u32_rep(at_key(v, "iso"@), c.iso)
    &&& opt_bool_rep(at_key(v, "flash"@), c.flash)
    &&& opt_str_rep(at_key(v, "white_balance"@), c.white_balance)
    &&& opt_u32_rep(at_key(v, "orientation"@), c.orientation)
}

/// `v` holds some camerrecord.
pub open spec fn camera_ok(v: JsonValue) -> bool {
    &&& v is Object
    &&& opt_str_ok(at_key(v, "make"@))
    &&& opt_str_ok(at_key(v, "model"@))
    &&& opt_str_ok(at_key(v, "software"@))
    &&& opt_str_ok(at_key(v, "lens_model"@))
    &&& opt_f32_ok(at_key(v, "focal_length"@))
    &&& opt_f32_ok(at_key(v, "aperture"@))
    &&& opt_str_ok(at_key(v, "shutter_speed"@))
    &&& opt_u32_ok(at_key(v, "iso"@))
    &&& opt_bool_ok(at_key(v, "flash"@))
    &&& opt_str_ok(at_key(v, "white_balance"@))
    &&& opt_u32_ok(at_key(v, "orientation"@))
}

pub open spec fn opt_camera_rep(v: JsonValue, c: Option<CameraInfo>) -> bool {
    match c {
        None => v is Null,
        Some(x) => camera_rep(v, x),
    }
}

pub open spec fn opt_camera_ok(v: JsonValue) -> bool {
    v is Null || camera_ok(v)
}

/// The keys of an analysis record, in the order they are written.
pub open spec fn metadata_keys() -> Seq<Seq<char>> {
    seq!["ai_description"@, "detected_objects"@, "scene_classification"@, "keywords"@, "color_palette"@, "text_content"@, "faces_detected"@, "emotions"@, "confidence_scores"@]
}

/// The keys of an analysis record are pairwise distinct.
pub proof fn lemma_metadata_keys_distinct()
    ensures
        forall|i: int, j: int| 0 <= i < j < metadata_keys().len() ==> metadata_keys()[i] != metadata_keys()[j],
{
    reveal_strlit("ai_description");
    reveal_strlit("detected_objects");
    reveal_strlit("scene_classification");
    reveal_strlit("keywords");
    reveal_strlit("color_palette");
    reveal_strlit("text_content");
    reveal_strlit("faces_detected");
    reveal_strlit("emotions");
    reveal_strlit("confidence_scores");
    let keys = metadata_keys();
    assert forall|i: int, j: int| 0 <= i < j < keys.len() implies keys[i] != keys[j] by {
        if keys[i] == keys[j] {
            assert(keys[i].len() == keys[j].len());
            assert(keys[i][0] == keys[j][0]);
        }
    }
}

/// `v` holds an analysis record `m`, each field under its name.
pub open spec fn metadata_rep(v: JsonValue, m: ImageMetadata) -> bool {
    &&& v is Object
    &&& opt_str_rep(at_key(v, "ai_description"@), m.ai_description)
    &&& strs_rep(at_key(v, "detected_objects"@), m.detected_objects@)
    &&& opt_str_rep(at_key(v, "scene_classification"@), m.scene_classification)
    &&& strs_rep(at_key(v, "keywords"@), m.keywords@)
    &&& strs_rep(at_key(v, "color_palette"@), m.color_palette@)
    &&& opt_str_rep(at_key(v, "text_content"@), m.text_content)
    &&& opt_u32_rep(at_key(v, "faces_detected"@), m.faces_detected)
    &&& strs_rep(at_key(v, "emotions"@), m.emotions@)
    &&& scores_rep(at_key(v, "confidence_scores"@), m.confidence_scores@)
}

/// `v` holds some analysis record.
pub open spec fn metadata_ok(v: JsonValue) -> bool {
    &&& v is Object
    &&& opt_str_ok(at_key(v, "ai_description"@))
    &&& strs_ok(at_key(v, "detected_objects"@))
    &&& opt_str_ok(at_key(v, "scene_classification"@))
    &&& strs_ok(at_key(v, "keywords"@))
    &&& strs_ok(at_key(v, "color_palette"@))
    &&& opt_str_ok(at_key(v, "text_content"@))
    &&& opt_u32_ok(at_key(v, "faces_detected"@))
    &&& strs_ok(at_key(v, "emotions"@))
    &&& scores_ok(at_key(v, "confidence_scores"@))
}

/// The keys of an image, in the order they are written.
pub open spec fn image_keys() -> Seq<Seq<char>> {
    seq!["id"@, "node_type"@, "created_at"@, "updated_at"@, "raw_data"@, "embedding"@, "filename"@, "content_type"@, "file_size"@, "dimensions"@, "timestamp"@, "gps_coordinates"@, "camera_info"@, "ai_metadata"@, "relationships"@, "parent_id"@, "user_description"@, "user_tags"@, "before_sibling"@, "next_sibling"@, "root_id"@]
}

/// The keys of an image are pairwise distinct.
pub proof fn lemma_image_keys_distinct()
    ensures
        forall|i: int, j: int| 0 <= i < j < image_keys().len() ==> image_keys()[i] != image_keys()[j],
{
    reveal_strlit("id");
    reveal_strlit("node_type");
    reveal_strlit("created_at");
    reveal_strlit("updated_at");
    reveal_strlit("raw_data");
    reveal_strlit("embedding");
    reveal_strlit("filename");
    reveal_strlit("content_type");
    reveal_strlit("file_size");
    reveal_strlit("dimensions");
    reveal_strlit("timestamp");
    reveal_strlit("gps_coordinates");
    reveal_strlit("camera_info");
    reveal_strlit("ai_metadata");
    reveal_strlit("relationships");
    reveal_strlit("parent_id");
    reveal_strlit("user_description");
    reveal_strlit("user_tags");
    reveal_strlit("before_sibling");
    reveal_strlit("next_sibling");
    reveal_strlit("root_id");
    let keys = image_keys();
    assert forall|i: int, j: int| 0 <= i < j < keys.len() implies keys[i] != keys[j] by {
        if keys[i] == keys[j] {
            assert(keys[i].len() == keys[j].len());
            assert(keys[i][0] == keys[j][0]);
        }
    }
}

/// `v` holds an image `img`, each field under its name.
pub open spec fn image_rep(v: JsonValue, img: ImageNode) -> bool {
    &&& v is Object
    &&& id_rep(at_key(v, "id"@), img.id)
    &&& node_type_rep(at_key(v, "node_type"@), img.node_type)
    &&& int_rep(at_key(v, "created_at"@), img.created_at as int)
    &&& int_rep(at_key(v, "updated_at"@), img.updated_at as int)
    &&& bytes_rep(at_key(v, "raw_data"@), img.raw_data@)
    &&& f32s_rep(at_key(v, "embedding"@), img.embedding@)
    &&& str_rep(at_key(v, "filename"@), img.filename)
    &&& str_rep(at_key(v, "content_type"@), img.content_type)
    &&& uint_rep(at_key(v, "file_size"@), img.file_size as int)
    &&& dims_rep(at_key(v, "dimensions"@), img.dimensions)
    &&& opt_i64_rep(at_key(v, "timestamp"@), img.timestamp)
    &&& gps_rep(at_key(v, "gps_coordinates"@), img.gps_coordinates)
    &&& opt_camera_rep(at_key(v, "camera_info"@), img.camera_info)
    &&& metadata_rep(at_key(v, "ai_metadata"@), img.ai_metadata)
    &&& ids_rep(at_key(v, "relationships"@), img.relationships@)
    &&& opt_id_rep(at_key(v, "parent_id"@), img.parent_id)
    &&& opt_str_rep(at_key(v, "user_description"@), img.user_description)
    &&& strs_rep(at_key(v, "user_tags"@), img.user_tags@)
    &&& opt_id_rep(at_key(v, "before_sibling"@), img.before_sibling)
    &&& opt_id_rep(at_key(v, "next_sibling"@), img.next_sibling)
    &&& opt_id_rep(at_key(v, "root_id"@), img.root_id)
}

/// `v` holds some image.
pub open spec fn image_ok(v: JsonValue) -> bool {
    &&& v is Object
    &&& at_key(v, "id"@) is Str
    &&& node_type_ok(at_key(v, "node_type"@))
    &&& at_key(v, "created_at"@) is Int
    &&& at_key(v, "updated_at"@) is Int
    &&& bytes_ok(at_key(v, "raw_data"@))
    &&& f32s_ok(at_key(v, "embedding"@))
    &&& at_key(v, "filename"@) is Str
    &&& at_key(v, "content_type"@) is Str
    &&& (at_key(v, "file_size"@) matches JsonValue::UInt(n) && n <= usize::MAX)
    &&& dims_ok(at_key(v, "dimensions"@))
    &&& opt_i64_ok(at_key(v, "timestamp"@))
    &&& gps_ok(at_key(v, "gps_coordinates"@))
    &&& opt_camera_ok(at_key(v, "camera_info"@))
    &&& metadata_ok(at_key(v, "ai_metadata"@))
    &&& strs_ok(at_key(v, "relationships"@))
    &&& opt_str_ok(at_key(v, "parent_id"@))
    &&& opt_str_ok(at_key(v, "user_description"@))
    &&& strs_ok(at_key(v, "user_tags"@))
    &&& opt_str_ok(at_key(v, "before_sibling"@))
    &&& opt_str_ok(at_key(v, "next_sibling"@))
    &&& opt_str_ok(at_key(v, "root_id"@))
}

/// The value stored under `key` of an object; null when the key is absent.
pub open spec fn at_key(v: JsonValue, key: Seq<char>) -> JsonValue {
    match field(v, key) {
        Some(x) => x,
        None => JsonValue::Null,
    }
}

/// The value stored under `key` of `v`, or `null` when the key is absent.
fn entry<'a>(v: &'a JsonValue, key: &str, null: &'a JsonValue) -> (r: &'a JsonValue)
    requires
        *null is Null,
    ensures
        *r == at_key(*v, key@),
{
    match v.get(key) {
        Some(x) => x,
        None => null,
    }
}

fn dec_i64(v: &JsonValue) -> (r: Option<i64>)
    ensures
        r is Some <==> v is Int,
        r matches Some(n) ==> int_rep(*v, n as int),
{
    match v {
        JsonValue::Int(n) => Some(*n),
        _ => None,
    }
}

fn dec_usize(v: &JsonValue) -> (r: Option<usize>)
    ensures
        r is Some <==> (*v matches JsonValue::UInt(n) && n <= usize::MAX),
        r matches Some(n) ==> uint_rep(*v, n as int),
{
    match v {
        JsonValue::UInt(n) => {
            if *n <= usize::MAX as u64 {
                Some(*n as usize)
            } else {
                None
            }
        },
        _ => None,
    }
}

fn enc_node_type(t: &NodeType) -> (r: JsonValue)
    ensures
        node_type_rep(r, *t),
{
    match t {
        NodeType::Custom(name) => {
            let mut e: Vec<(String, JsonValue)> = Vec::new();
            e.push((String::from_str("Custom"), JsonValue::Str(name.clone())));
            JsonValue::Object(e)
        },
        NodeType::Text => JsonValue::Str(String::from_str("Text")),
        NodeType::Image => JsonValue::Str(String::from_str("Image")),
        NodeType::Task => JsonValue::Str(String::from_str("Task")),
        NodeType::Document => JsonValue::Str(String::from_str("Document")),
        NodeType::Link => JsonValue::Str(String::from_str("Link")),
        NodeType::Entity => JsonValue::Str(String::from_str("Entity")),
        NodeType::Date => JsonValue::Str(String::from_str("Date")),
        NodeType::Audio => JsonValue::Str(String::from_str("Audio")),
        NodeType::Video => JsonValue::Str(String::from_str("Video")),
    }
}

fn dec_node_type(v: &JsonValue) -> (r: Option<NodeType>)
    ensures
        r is Some <==> node_type_ok(*v),
        r matches Some(t) ==> node_type_rep(*v, t),
{
    match v {
        JsonValue::Str(t) => {
            if *t == String::from_str("Text") {
                Some(NodeType::Text)
            } else if *t == String::from_str("Image") {
                Some(NodeType::Image)
            } else if *t == String::from_str("Task") {
                Some(NodeType::Task)
            } else if *t == String::from_str("Document") {
                Some(NodeType::Document)
            } else if *t == String::from_str("Link") {
                Some(NodeType::Link)
            } else if *t == String::from_str("Entity") {
                Some(NodeType::Entity)
            } else if *t == String::from_str("Date") {
                Some(NodeType::Date)
            } else if *t == String::from_str("Audio") {
                Some(NodeType::Audio)
            } else if *t == String::from_str("Video") {
                Some(NodeType::Video)
            } else {
                None
            }
        },
        JsonValue::Object(e) => {
            if e.len() == 1 && has_key_at(e, 0, "Custom") {
                match &e[0].1 {
                    JsonValue::Str(name) => Some(NodeType::Custom(name.clone())),
                    _ => None,
                }
            } else {
                None
            }
        },
        _ => None,
    }
}

fn enc_dims(d: (u32, u32)) -> (r: JsonValue)
    ensures
        dims_rep(r, d),
{
    let mut xs: Vec<JsonValue> = Vec::new();
    xs.push(JsonValue::UInt(d.0 as u64));
    xs.push(JsonValue::UInt(d.1 as u64));
    JsonValue::Array(xs)
}

fn dec_dims(v: &JsonValue) -> (r: Option<(u32, u32)>)
    ensures
        r is Some <==> dims_ok(*v),
        r matches Some(d) ==> dims_rep(*v, d),
{
    match v {
        JsonValue::Array(xs) => {
            if xs.len() != 2 {
                return None;
            }
            match (&xs[0], &xs[1]) {
                (JsonValue::UInt(w), JsonValue::UInt(h)) => {
                    if *w <= 0xFFFF_FFFF && *h <= 0xFFFF_FFFF {
                        Some((*w as u32, *h as u32))
                    } else {
                        None
                    }
                },
                _ => None,
            }
        },
        _ => None,
    }
}

fn enc_gps(g: Option<(u64, u64)>) -> (r: JsonValue)
    ensures
        gps_rep(r, g),
{
    match g {
        Some((lat, lon)) => {
            let mut xs: Vec<JsonValue> = Vec::new();
            xs.push(JsonValue::Float(lat));
            xs.push(JsonValue::Float(lon));
            JsonValue::Array(xs)
        },
        None => JsonValue::Null,
    }
}

fn dec_gps(v: &JsonValue) -> (r: Option<Option<(u64, u64)>>)
    ensures
        r is Some <==> gps_ok(*v),
        r matches Some(g) ==> gps_rep(*v, g),
{
    match v {
        JsonValue::Null => Some(None),
        JsonValue::Array(xs) => {
            if xs.len() != 2 {
                return None;
            }
            match (&xs[0], &xs[1]) {
                (JsonValue::Float(lat), JsonValue::Float(lon)) => Some(Some((*lat, *lon))),
                _ => None,
            }
        },
        _ => None,
    }
}

fn enc_scores(s: &Vec<(String, u32)>) -> (r: JsonValue)
    ensures
        scores_rep(r, s@),
{
    let mut out: Vec<(String, JsonValue)> = Vec::new();
    let mut i: usize = 0;
    while i < s.len()
        invariant
            i <= s@.len(),
            out@.len() == i,
            forall|j: int| 0 <= j < i ==>
                (#[trigger] out@[j]).0@ == s@[j].0@ && f32_rep(out@[j].1, s@[j].1),
        decreases s@.len() - i,
    {
        let entry = &s[i];
        out.push((entry.0.clone(), JsonValue::Float(widen_bits(entry.1))));
        i = i + 1;
    }
    JsonValue::Object(out)
}

fn dec_scores(v: &JsonValue) -> (r: Option<Vec<(String, u32)>>)
    ensures
        r is Some <==> scores_ok(*v),
        r matches Some(s) ==> scores_rep(*v, s@),
{
    match v {
        JsonValue::Object(e) => {
            let mut out: Vec<(String, u32)> = Vec::new();
            let mut i: usize = 0;
            while i < e.len()
                invariant
                    *v is Object,
                    entries(*v) == e@,
                    i <= e@.len(),
                    out@.len() == i,
                    forall|j: int| 0 <= j < i ==>
                        (#[trigger] e@[j]).0@ == out@[j].0@ && f32_rep(e@[j].1, out@[j].1),
                    forall|j: int| 0 <= j < i ==> f32_ok((#[trigger] e@[j]).1),
                decreases e@.len() - i,
            {
                let entry = &e[i];
                match dec_f32(&entry.1) {
                    Some(b) => out.push((entry.0.clone(), b)),
                    None => {
                        assert(entries(*v)[i as int] == e@[i as int]);
                        return None;
                    },
                }
                i = i + 1;
            }
            Some(out)
        },
        _ => None,
    }
}

fn enc_camera(c: &CameraInfo) -> (r: JsonValue)
    ensures
        camera_rep(r, *c),
{
    let mut e: Vec<(String, JsonValue)> = Vec::new();
    e.push((String::from_str("make"), enc_opt_str(&c.make)));
    e.push((String::from_str("model"), enc_opt_str(&c.model)));
    e.push((String::from_str("software"), enc_opt_str(&c.software)));
    e.push((String::from_str("lens_model"), enc_opt_str(&c.lens_model)));
    e.push((String::from_str("focal_length"), enc_opt_f32(c.focal_length)));
    e.push((String::from_str("aperture"), enc_opt_f32(c.aperture)));
    e.push((String::from_str("shutter_speed"), enc_opt_str(&c.shutter_speed)));
    e.push((String::from_str("iso"), enc_opt_u32(c.iso)));
    e.push((String::from_str("flash"), enc_opt_bool(c.flash)));
    e.push((String::from_str("white_balance"), enc_opt_str(&c.white_balance)));
    e.push((String::from_str("orientation"), enc_opt_u32(c.orientation)));
    proof {
        lemma_camera_keys_distinct();
        lemma_lookup_keys(e@, camera_keys());
        assert(lookup(e@, "make"@) == Some(e@[0].1));
        assert(lookup(e@, "model"@) == Some(e@[1].1));
        assert(lookup(e@, "software"@) == Some(e@[2].1));
        assert(lookup(e@, "lens_model"@) == Some(e@[3].1));
        assert(lookup(e@, "focal_length"@) == Some(e@[4].1));
        assert(lookup(e@, "aperture"@) == Some(e@[5].1));
        assert(lookup(e@, "shutter_speed"@) == Some(e@[6].1));
        assert(lookup(e@, "iso"@) == Some(e@[7].1));
        assert(lookup(e@, "flash"@) == Some(e@[8].1));
        assert(lookup(e@, "white_balance"@) == Some(e@[9].1));
        assert(lookup(e@, "orientation"@) == Some(e@[10].1));
    }
    JsonValue::Object(e)
}

fn dec_camera(v: &JsonValue) -> (r: Option<CameraInfo>)
    ensures
        r is Some <==> camera_ok(*v),
        r matches Some(x) ==> camera_rep(*v, x),
{
    match v {
        JsonValue::Object(_) => {},
        _ => {
            return None;
        },
    }
    let null = JsonValue::Null;
    let make = dec_opt_str(entry(v, "make", &null))?;
    let model = dec_opt_str(entry(v, "model", &null))?;
    let software = dec_opt_str(entry(v, "software", &null))?;
    let lens_model = dec_opt_str(entry(v, "lens_model", &null))?;
    let focal_length = dec_opt_f32(entry(v, "focal_length", &null))?;
    let aperture = dec_opt_f32(entry(v, "aperture", &null))?;
    let shutter_speed = dec_opt_str(entry(v, "shutter_speed", &null))?;
    let iso = dec_opt_u32(entry(v, "iso", &null))?;
    let flash = dec_opt_bool(entry(v, "flash", &null))?;
    let white_balance = dec_opt_str(entry(v, "white_balance", &null))?;
    let orientation = dec_opt_u32(entry(v, "orientation", &null))?;
    Some(CameraInfo { make, model, software, lens_model, focal_length, aperture, shutter_speed, iso, flash, white_balance, orientation })
}

fn enc_opt_camera(c: &Option<CameraInfo>) -> (r: JsonValue)
    ensures
        opt_camera_rep(r, *c),
{
    match c {
        Some(x) => enc_camera(x),
        None => JsonValue::Null,
    }
}

fn dec_opt_camera(v: &JsonValue) -> (r: Option<Option<CameraInfo>>)
    ensures
        r is Some <==> opt_camera_ok(*v),
        r matches Some(c) ==> opt_camera_rep(*v, c),
{
    match v {
        JsonValue::Null => Some(None),
        _ => {
            let c = dec_camera(v)?;
            Some(Some(c))
        },
    }
}

fn enc_metadata(m: &ImageMetadata) -> (r: JsonValue)
    ensures
        metadata_rep(r, *m),
{
    let mut e: Vec<(String, JsonValue)> = Vec::new();
    e.push((String::from_str("ai_description"), enc_opt_str(&m.ai_description)));
    e.push((String::from_str("detected_objects"), enc_strs(&m.detected_objects)));
    e.push((String::from_str("scene_classification"), enc_opt_str(&m.scene_classification)));
    e.push((String::from_str("keywords"), enc_strs(&m.keywords)));
    e.push((String::from_str("color_palette"), enc_strs(&m.color_palette)));
    e.push((String::from_str("text_content"), enc_opt_str(&m.text_content)));
    e.push((String::from_str("faces_detected"), enc_opt_u32(m.faces_detected)));
    e.push((String::from_str("emotions"), enc_strs(&m.emotions)));
    e.push((String::from_str("confidence_scores"), enc_scores(&m.confidence_scores)));
    proof {
        lemma_metadata_keys_distinct();
        lemma_lookup_keys(e@, metadata_keys());
        assert(lookup(e@, "ai_description"@) == Some(e@[0].1));
        assert(lookup(e@, "detected_objects"@) == Some(e@[1].1));
        assert(lookup(e@, "scene_classification"@) == Some(e@[2].1));
        assert(lookup(e@, "keywords"@) == Some(e@[3].1));
        assert(lookup(e@, "color_palette"@) == Some(e@[4].1));
        assert(lookup(e@, "text_content"@) == Some(e@[5].1));
        assert(lookup(e@, "faces_detected"@) == Some(e@[6].1));
        assert(lookup(e@, "emotions"@) == Some(e@[7].1));
        assert(lookup(e@, "confidence_scores"@) == Some(e@[8].1));
    }
    JsonValue::Object(e)
}

fn dec_metadata(v: &JsonValue) -> (r: Option<ImageMetadata>)
    ensures
        r is Some <==> metadata_ok(*v),
        r matches Some(x) ==> metadata_rep(*v, x),
{
    match v {
        JsonValue::Object(_) => {},
        _ => {
            return None;
        },
    }
    let null = JsonValue::Null;
    let ai_description = dec_opt_str(entry(v, "ai_description", &null))?;
    let detected_objects = dec_strs(entry(v, "detected_objects", &null))?;
    let scene_classification = dec_opt_str(entry(v, "scene_classification", &null))?;
    let keywords = dec_strs(entry(v, "keywords", &null))?;
    let color_palette = dec_strs(entry(v, "color_palette", &null))?;
    let text_content = dec_opt_str(entry(v, "text_content", &null))?;
    let faces_detected = dec_opt_u32(entry(v, "faces_detected", &null))?;
    let emotions = dec_strs(entry(v, "emotions", &null))?;
    let confidence_scores = dec_scores(entry(v, "confidence_scores", &null))?;
    Some(ImageMetadata { ai_description, detected_objects, scene_classification, keywords, color_palette, text_content, faces_detected, emotions, confidence_scores })
}

fn enc_image(img: &ImageNode) -> (r: JsonValue)
    ensures
        image_rep(r, *img),
{
    let mut e: Vec<(String, JsonValue)> = Vec::new();
    e.push((String::from_str("id"), enc_str(&img.id.0)));
    e.push((String::from_str("node_type"), enc_node_type(&img.node_type)));
    e.push((String::from_str("created_at"), JsonValue::Int(img.created_at)));
    e.push((String::from_str("updated_at"), JsonValue::Int(img.updated_at)));
    e.push((String::from_str("raw_data"), enc_bytes(&img.raw_data)));
    e.push((String::from_str("embedding"), enc_f32s(&img.embedding)));
    e.push((String::from_str("filename"), enc_str(&img.filename)));
    e.push((String::from_str("content_type"), enc_str(&img.content_type)));
    e.push((String::from_str("file_size"), JsonValue::UInt(img.file_size as u64)));
    e.push((String::from_str("dimensions"), enc_dims(img.dimensions)));
    e.push((String::from_str("timestamp"), enc_opt_i64(img.timestamp)));
    e.push((String::from_str("gps_coordinates"), enc_gps(img.gps_coordinates)));
    e.push((String::from_str("camera_info"), enc_opt_camera(&img.camera_info)));
    e.push((String::from_str("ai_metadata"), enc_metadata(&img.ai_metadata)));
    e.push((String::from_str("relationships"), enc_ids(&img.relationships)));
    e.push((String::from_str("parent_id"), enc_opt_id(&img.parent_id)));
    e.push((String::from_str("user_description"), enc_opt_str(&img.user_description)));
    e.push((String::from_str("user_tags"), enc_strs(&img.user_tags)));
    e.push((String::from_str("before_sibling"), enc_opt_id(&img.before_sibling)));
    e.push((String::from_str("next_sibling"), enc_opt_id(&img.next_sibling)));
    e.push((String::from_str("root_id"), enc_opt_id(&img.root_id)));
    proof {
        lemma_image_keys_distinct();
        lemma_lookup_keys(e@, image_keys());
        assert(lookup(e@, "id"@) == Some(e@[0].1));
        assert(lookup(e@, "node_type"@) == Some(e@[1].1));
        assert(lookup(e@, "created_at"@) == Some(e@[2].1));
        assert(lookup(e@, "updated_at"@) == Some(e@[3].1));
        assert(lookup(e@, "raw_data"@) == Some(e@[4].1));
        assert(lookup(e@, "embedding"@) == Some(e@[5].1));
        assert(lookup(e@, "filename"@) == Some(e@[6].1));
        assert(lookup(e@, "content_type"@) == Some(e@[7].1));
        assert(lookup(e@, "file_size"@) == Some(e@[8].1));
        assert(lookup(e@, "dimensions"@) == Some(e@[9].1));
        assert(lookup(e@, "timestamp"@) == Some(e@[10].1));
        assert(lookup(e@, "gps_coordinates"@) == Some(e@[11].1));
        assert(lookup(e@, "camera_info"@) == Some(e@[12].1));
        assert(lookup(e@, "ai_metadata"@) == Some(e@[13].1));
        assert(lookup(e@, "relationships"@) == Some(e@[14].1));
        assert(lookup(e@, "parent_id"@) == Some(e@[15].1));
        assert(lookup(e@, "user_description"@) == Some(e@[16].1));
        assert(lookup(e@, "user_tags"@) == Some(e@[17].1));
        assert(lookup(e@, "before_sibling"@) == Some(e@[18].1));
        assert(lookup(e@, "next_sibling"@) == Some(e@[19].1));
        assert(lookup(e@, "root_id"@) == Some(e@[20].1));
    }
    JsonValue::Object(e)
}

fn dec_image(v: &JsonValue) -> (r: Option<ImageNode>)
    ensures
        r is Some <==> image_ok(*v),
        r matches Some(x) ==> image_rep(*v, x),
{
    match v {
        JsonValue::Object(_) => {},
        _ => {
            return None;
        },
    }
    let null = JsonValue::Null;
    let id = NodeId(dec_str(entry(v, "id", &null))?);
    let node_type = dec_node_type(entry(v, "node_type", &null))?;
    let created_at = dec_i64(entry(v, "created_at", &null))?;
    let updated_at = dec_i64(entry(v, "updated_at", &null))?;
    let raw_data = dec_bytes(entry(v, "raw_data", &null))?;
    let embedding = dec_f32s(entry(v, "embedding", &null))?;
    let filename = dec_str(entry(v, "filename", &null))?;
    let content_type = dec_str(entry(v, "content_type", &null))?;
    let file_size = dec_usize(entry(v, "file_size", &null))?;
    let dimensions = dec_dims(entry(v, "dimensions", &null))?;
    let timestamp = dec_opt_i64(entry(v, "timestamp", &null))?;
    let gps_coordinates = dec_gps(entry(v, "gps_coordinates", &null))?;
    let camera_info = dec_opt_camera(entry(v, "camera_info", &null))?;
    let ai_metadata = dec_metadata(entry(v, "ai_metadata", &null))?;
    let relationships = dec_ids(entry(v, "relationships", &null))?;
    let parent_id = dec_opt_id(entry(v, "parent_id", &null))?;
    let user_description = dec_opt_str(entry(v, "user_description", &null))?;
    let user_tags = dec_strs(entry(v, "user_tags", &null))?;
    let before_sibling = dec_opt_id(entry(v, "before_sibling", &null))?;
    let next_sibling = dec_opt_id(entry(v, "next_sibling", &null))?;
    let root_id = dec_opt_id(entry(v, "root_id", &null))?;
    Some(ImageNode { id, node_type, created_at, updated_at, raw_data, embedding, filename, content_type, file_size, dimensions, timestamp, gps_coordinates, camera_info, ai_metadata, relationships, parent_id, user_description, user_tags, before_sibling, next_sibling, root_id })
}

/// Two camera records with the same details.
pub open spec fn same_camera(a: CameraInfo, b: CameraInfo) -> bool {
    &&& same_opt_text(a.make, b.make)
    &&& same_opt_text(a.model, b.model)
    &&& same_opt_text(a.software, b.software)
    &&& same_opt_text(a.lens_model, b.lens_model)
    &&& a.focal_length == b.focal_length
    &&& a.aperture == b.aperture
    &&& same_opt_text(a.shutter_speed, b.shutter_speed)
    &&& a.iso == b.iso
    &&& a.flash == b.flash
    &&& same_opt_text(a.white_balance, b.white_balance)
    &&& a.orientation == b.orientation
}

pub open spec fn same_opt_camera(a: Option<CameraInfo>, b: Option<CameraInfo>) -> bool {
    match (a, b) {
        (None, None) => true,
        (Some(x), Some(y)) => same_camera(x, y),
        _ => false,
    }
}

/// Two analysis records with the same content.
pub open spec fn same_metadata(a: ImageMetadata, b: ImageMetadata) -> bool {
    &&& same_opt_text(a.ai_description, b.ai_description)
    &&& same_texts(a.detected_objects@, b.detected_objects@)
    &&& same_opt_text(a.scene_classification, b.scene_classification)
    &&& same_texts(a.keywords@, b.keywords@)
    &&& same_texts(a.color_palette@, b.color_palette@)
    &&& same_opt_text(a.text_content, b.text_content)
    &&& a.faces_detected == b.faces_detected
    &&& same_texts(a.emotions@, b.emotions@)
    &&& a.confidence_scores@.len() == b.confidence_scores@.len()
    &&& forall|i: int| 0 <= i < a.confidence_scores@.len() ==>
        (#[trigger] a.confidence_scores@[i]).0@ == b.confidence_scores@[i].0@
        && a.confidence_scores@[i].1 == b.confidence_scores@[i].1
}

/// Two images that agree on every field.
pub open spec fn same_image(a: ImageNode, b: ImageNode) -> bool {
    &&& a.id.0@ == b.id.0@
    &&& same_node_type(a.node_type, b.node_type)
    &&& a.created_at == b.created_at
    &&& a.updated_at == b.updated_at
    &&& a.raw_data@ == b.raw_data@
    &&& a.embedding@ == b.embedding@
    &&& a.filename@ == b.filename@
    &&& a.content_type@ == b.content_type@
    &&& a.file_size == b.file_size
    &&& a.dimensions == b.dimensions
    &&& a.timestamp == b.timestamp
    &&& a.gps_coordinates == b.gps_coordinates
    &&& same_opt_camera(a.camera_info, b.camera_info)
    &&& same_metadata(a.ai_metadata, b.ai_metadata)
    &&& same_ids(a.relationships@, b.relationships@)
    &&& same_opt_id(a.parent_id, b.parent_id)
    &&& same_opt_text(a.user_description, b.user_description)
    &&& same_texts(a.user_tags@, b.user_tags@)
    &&& same_opt_id(a.before_sibling, b.before_sibling)
    &&& same_opt_id(a.next_sibling, b.next_sibling)
    &&& same_opt_id(a.root_id, b.root_id)
}

/// The reason a node's content could not be read as an image.
pub open spec fn unreadable_image_reason() -> Seq<char> {
    "Failed to deserialize ImageNode from Node: content does not hold an encoded ImageNode"@
}

impl ImageNode {
    /// The image as a generic node of type "image", whose content holds
    /// every field of the image.
    pub fn to_node(&self) -> (r: NodeSpaceResult<Node>)
        ensures
            r matches Ok(n) && {
                &&& image_rep(n.content, *self)
                &&& n.id == self.id
                &&& n.type_@ == "image"@
                &&& n.metadata is None
                &&& n.created_at == self.created_at
                &&& n.updated_at == self.updated_at
                &&& n.parent_id == self.parent_id
                &&& n.before_sibling == self.before_sibling
                &&& n.next_sibling == self.next_sibling
                &&& n.root_id == self.root_id
            },
    {
        let content = enc_image(self);
        Ok(Node {
            id: self.id.clone(),
            type_: String::from_str("image"),
            content,
            metadata: None,
            created_at: self.created_at,
            updated_at: self.updated_at,
            parent_id: clone_opt_id(&self.parent_id),
            before_sibling: clone_opt_id(&self.before_sibling),
            next_sibling: clone_opt_id(&self.next_sibling),
            root_id: clone_opt_id(&self.root_id),
        })
    }

    /// The image that a node's content holds, its fields looked up by name
    /// (an absent optional field reads as none); a serialization error when
    /// the content holds none.
    pub fn from_node(node: &Node) -> (r: NodeSpaceResult<Self>)
        ensures
            match r {
                Ok(img) => image_ok(node.content) && image_rep(node.content, img),
                Err(e) => {
                    &&& !image_ok(node.content)
                    &&& e matches NodeSpaceError::Processing(ProcessingError::SerializationFailed { format, reason, data_type, fallback_formats })
                    &&& format@ == "JSON"@
                    &&& reason@ == unreadable_image_reason()
                    &&& data_type@ == "ImageNode"@
                    &&& fallback_formats@.len() == 1
                    &&& fallback_formats@[0]@ == "Direct field access"@
                },
            },
    {
        match dec_image(&node.content) {
            Some(img) => Ok(img),
            None => {
                let mut fallback_formats: Vec<String> = Vec::new();
                fallback_formats.push(String::from_str("Direct field access"));
                Err(
                    NodeSpaceError::Processing(
                        ProcessingError::SerializationFailed {
                            format: String::from_str("JSON"),
                            reason: String::from_str(
                                "Failed to deserialize ImageNode from Node: content does not hold an encoded ImageNode",
                            ),
                            data_type: String::from_str("ImageNode"),
                            fallback_formats,
                        },
                    ),
                )
            },
        }
    }
}

/// A tree holds one analysis record only.
pub proof fn lemma_metadata_rep_unique(v: JsonValue, a: ImageMetadata, b: ImageMetadata)
    requires
        metadata_rep(v, a),
        metadata_rep(v, b),
    ensures
        same_metadata(a, b),
{
    lemma_strs_rep_unique(at_key(v, "detected_objects"@), a.detected_objects@, b.detected_objects@);
    lemma_strs_rep_unique(at_key(v, "keywords"@), a.keywords@, b.keywords@);
    lemma_strs_rep_unique(at_key(v, "color_palette"@), a.color_palette@, b.color_palette@);
    lemma_strs_rep_unique(at_key(v, "emotions"@), a.emotions@, b.emotions@);
    let sv = at_key(v, "confidence_scores"@);
    assert forall|i: int| 0 <= i < a.confidence_scores@.len() implies
        (#[trigger] a.confidence_scores@[i]).0@ == b.confidence_scores@[i].0@
        && a.confidence_scores@[i].1 == b.confidence_scores@[i].1 by {
        assert(entries(sv)[i].0@ == a.confidence_scores@[i].0@);
        assert(entries(sv)[i].0@ == b.confidence_scores@[i].0@);
        assert(f32_rep(entries(sv)[i].1, a.confidence_scores@[i].1));
        assert(f32_rep(entries(sv)[i].1, b.confidence_scores@[i].1));
        lemma_f32_rep(entries(sv)[i].1, a.confidence_scores@[i].1);
    }
}

/// A tree holds one optional camera record only.
pub proof fn lemma_camera_rep_unique(v: JsonValue, a: Option<CameraInfo>, b: Option<CameraInfo>)
    requires
        opt_camera_rep(v, a),
        opt_camera_rep(v, b),
    ensures
        same_opt_camera(a, b),
{
    if let (Some(x), Some(y)) = (a, b) {
        if let Some(f) = x.focal_length {
            lemma_f32_rep(at_key(v, "focal_length"@), f);
        }
        if let Some(f) = x.aperture {
            lemma_f32_rep(at_key(v, "aperture"@), f);
        }
    }
}

/// A written camera record can be read back.
pub proof fn lemma_camera_rep_ok(v: JsonValue, c: Option<CameraInfo>)
    requires
        opt_camera_rep(v, c),
    ensures
        opt_camera_ok(v),
{
    if let Some(x) = c {
        if let Some(f) = x.focal_length {
            lemma_f32_rep(at_key(v, "focal_length"@), f);
        }
        if let Some(f) = x.aperture {
            lemma_f32_rep(at_key(v, "aperture"@), f);
        }
    }
}

/// A written analysis record can be read back.
pub proof fn lemma_metadata_rep_ok(v: JsonValue, m: ImageMetadata)
    requires
        metadata_rep(v, m),
    ensures
        metadata_ok(v),
{
    let sv = at_key(v, "confidence_scores"@);
    assert forall|i: int| 0 <= i < entries(sv).len() implies f32_ok((#[trigger] entries(sv)[i]).1) by {
        lemma_f32_rep(entries(sv)[i].1, m.confidence_scores@[i].1);
    }
}

/// A tree holds one node type only.
pub proof fn lemma_node_type_rep_unique(v: JsonValue, a: NodeType, b: NodeType)
    requires
        node_type_rep(v, a),
        node_type_rep(v, b),
    ensures
        same_node_type(a, b),
{
    reveal_strlit("Text");
    reveal_strlit("Image");
    reveal_strlit("Task");
    reveal_strlit("Document");
    reveal_strlit("Link");
    reveal_strlit("Entity");
    reveal_strlit("Date");
    reveal_strlit("Audio");
    reveal_strlit("Video");
    let names = seq!["Text"@, "Image"@, "Task"@, "Document"@, "Link"@, "Entity"@, "Date"@, "Audio"@, "Video"@];
    assert forall|i: int, j: int| 0 <= i < j < 9 implies names[i] != names[j] by {
        if names[i] == names[j] {
            assert(names[i][0] == names[j][0]);
            assert(names[i][1] == names[j][1]);
        }
    }
    assert(names[0] != names[2]);
}

/// What a content tree holds, it holds in one way only: two images held by
/// the same tree agree on every field.
pub proof fn lemma_image_rep_unique(v: JsonValue, a: ImageNode, b: ImageNode)
    requires
        image_rep(v, a),
        image_rep(v, b),
    ensures
        same_image(a, b),
{
    lemma_node_type_rep_unique(at_key(v, "node_type"@), a.node_type, b.node_type);
    lemma_bytes_rep_unique(at_key(v, "raw_data"@), a.raw_data@, b.raw_data@);
    lemma_f32s_rep_unique(at_key(v, "embedding"@), a.embedding@, b.embedding@);
    lemma_camera_rep_unique(at_key(v, "camera_info"@), a.camera_info, b.camera_info);
    lemma_metadata_rep_unique(at_key(v, "ai_metadata"@), a.ai_metadata, b.ai_metadata);
    lemma_ids_rep_unique(at_key(v, "relationships"@), a.relationships@, b.relationships@);
    lemma_strs_rep_unique(at_key(v, "user_tags"@), a.user_tags@, b.user_tags@);
}

/// Converting an image to a node and reading it back reproduces the image:
/// a tree that holds `img` can be read, and whatever is read from it agrees
/// with `img` on every field (identifier, filename, content type,
/// dimensions, camera details and user description among them).
pub proof fn lemma_image_round_trip(img: ImageNode, content: JsonValue, back: ImageNode)
    requires
        image_rep(content, img),
        image_rep(content, back),
    ensures
        image_ok(content),
        same_image(img, back),
        back.id.0@ == img.id.0@,
        back.filename@ == img.filename@,
        back.content_type@ == img.content_type@,
        back.dimensions == img.dimensions,
        same_opt_camera(back.camera_info, img.camera_info),
        same_opt_text(back.user_description, img.user_description),
{
    lemma_image_rep_unique(content, img, back);
    lemma_image_rep_readable(content, img);
}

/// A tree that holds an image can be read.
pub proof fn lemma_image_rep_readable(v: JsonValue, img: ImageNode)
    requires
        image_rep(v, img),
    ensures
        image_ok(v),
{
    lemma_f32s_rep_ok(at_key(v, "embedding"@), img.embedding@);
    lemma_camera_rep_ok(at_key(v, "camera_info"@), img.camera_info);
    lemma_metadata_rep_ok(at_key(v, "ai_metadata"@), img.ai_metadata);
    reveal_strlit("Text");
    reveal_strlit("Image");
    reveal_strlit("Task");
    reveal_strlit("Document");
    reveal_strlit("Link");
    reveal_strlit("Entity");
    reveal_strlit("Date");
    reveal_strlit("Audio");
    reveal_strlit("Video");
}

/// Content written before the sibling and root links existed, which lacks
/// their keys, reads with no links.
pub proof fn lemma_missing_links_read_as_none(v: JsonValue, img: ImageNode)
    requires
        image_rep(v, img),
        field(v, "before_sibling"@) is None,
        field(v, "next_sibling"@) is None,
        field(v, "root_id"@) is None,
    ensures
        img.before_sibling is None,
        img.next_sibling is None,
        img.root_id is None,
{
}

} // verus!
