use nodespace_core_types::json::JsonValue;
use nodespace_core_types::node::NodeType;
use nodespace_core_types::{
    CameraInfo, ImageMetadata, ImageNode, NodeId, NodeSpaceError, ProcessingError, ValidationError,
};

fn valid_image() -> ImageNode {
    ImageNode::new(vec![1, 2, 3, 4], "cat.jpg".to_string(), "image/jpeg".to_string(), (640, 480))
}

fn expect_missing(img: &ImageNode, expected_field: &str) {
    match img.validate() {
        Err(NodeSpaceError::Validation(ValidationError::RequiredFieldMissing { field, context, .. })) => {
            assert_eq!(field, expected_field);
            assert_eq!(context, "ImageNode");
        }
        other => panic!("unexpected {:?}", other),
    }
}

fn expect_range(img: &ImageNode, expected_field: &str, expected_value: &str) {
    match img.validate() {
        Err(NodeSpaceError::Validation(ValidationError::OutOfRange { field, value, .. })) => {
            assert_eq!(field, expected_field);
            assert_eq!(value, expected_value);
        }
        other => panic!("unexpected {:?}", other),
    }
}

#[test]
fn valid_image_passes() {
    assert!(valid_image().validate().is_ok());
}

#[test]
fn empty_filename_rejected() {
    let mut img = valid_image();
    img.filename = String::new();
    expect_missing(&img, "filename");
}

#[test]
fn empty_content_type_rejected() {
    let mut img = valid_image();
    img.content_type = String::new();
    expect_missing(&img, "content_type");
}

#[test]
fn non_image_content_type_rejected() {
    let mut img = valid_image();
    img.content_type = "text/plain".to_string();
    match img.validate() {
        Err(NodeSpaceError::Validation(ValidationError::InvalidFormat { field, expected, actual, .. })) => {
            assert_eq!((field.as_str(), expected.as_str(), actual.as_str()), ("content_type", "image/*", "text/plain"));
        }
        other => panic!("unexpected {:?}", other),
    }
}

#[test]
fn zero_width_or_height_rejected() {
    let mut img = valid_image();
    img.dimensions = (0, 480);
    expect_range(&img, "dimensions", "0x480");
    img.dimensions = (640, 0);
    expect_range(&img, "dimensions", "640x0");
}

#[test]
fn empty_payload_rejected() {
    let mut img = valid_image();
    img.raw_data = Vec::new();
    expect_missing(&img, "raw_data");
}

#[test]
fn mismatched_file_size_rejected() {
    let img = valid_image().with_file_size(10);
    match img.validate() {
        Err(NodeSpaceError::Validation(ValidationError::InvalidFormat { field, expected, actual, examples })) => {
            assert_eq!((field.as_str(), expected.as_str(), actual.as_str()), ("file_size", "4", "10"));
            assert_eq!(examples, vec!["Use raw_data.len() to set correct file_size".to_string()]);
        }
        other => panic!("unexpected {:?}", other),
    }
    assert!(valid_image().with_file_size(4).validate().is_ok());
}

#[test]
fn unset_file_size_accepted_whatever_the_payload() {
    let mut img = valid_image().with_file_size(0);
    assert!(img.validate().is_ok());
    img.raw_data = vec![7; 1000];
    assert!(img.validate().is_ok());
}

#[test]
fn wrong_embedding_length_rejected() {
    let img = valid_image().with_embedding(vec![0.5f32.to_bits(); 10]);
    expect_range(&img, "embedding.len()", "10");
    assert!(valid_image().with_embedding(vec![0; 384]).validate().is_ok());
    assert!(valid_image().with_embedding(Vec::new()).validate().is_ok());
}

#[test]
fn latitude_out_of_range_rejected() {
    let img = valid_image().with_gps_coordinates(90.5f64.to_bits(), 0.0f64.to_bits());
    expect_range(&img, "latitude", &format!("{:#018x}", 90.5f64.to_bits()));
    let img = valid_image().with_gps_coordinates((-91.0f64).to_bits(), 0.0f64.to_bits());
    expect_range(&img, "latitude", "0xc056c00000000000");
    let img = valid_image().with_gps_coordinates(f64::NAN.to_bits(), 0.0f64.to_bits());
    assert!(img.validate().is_err());
}

#[test]
fn longitude_out_of_range_rejected() {
    let img = valid_image().with_gps_coordinates(45.0f64.to_bits(), 180.25f64.to_bits());
    expect_range(&img, "longitude", &format!("{:#018x}", 180.25f64.to_bits()));
    let img = valid_image().with_gps_coordinates(45.0f64.to_bits(), (-200.0f64).to_bits());
    expect_range(&img, "longitude", &format!("{:#018x}", (-200.0f64).to_bits()));
}

#[test]
fn boundary_coordinates_accepted() {
    for (lat, lon) in [(90.0f64, 180.0f64), (-90.0, -180.0), (0.0, -0.0), (-0.0, 179.999)] {
        let img = valid_image().with_gps_coordinates(lat.to_bits(), lon.to_bits());
        assert!(img.validate().is_ok(), "{} {}", lat, lon);
    }
}

#[test]
fn wrong_node_type_rejected() {
    let mut img = valid_image();
    img.node_type = NodeType::Custom("photo".to_string());
    match img.validate() {
        Err(NodeSpaceError::Validation(ValidationError::InvalidFormat { field, expected, actual, .. })) => {
            assert_eq!((field.as_str(), expected.as_str(), actual.as_str()), ("node_type", "NodeType::Image", "Custom(\"photo\")"));
        }
        other => panic!("unexpected {:?}", other),
    }
    img.node_type = NodeType::Text;
    assert!(img.validate().is_err());
}

#[test]
fn checks_come_in_order() {
    let mut img = valid_image();
    img.filename = String::new();
    img.content_type = String::new();
    img.raw_data = Vec::new();
    expect_missing(&img, "filename");
    img.filename = "x.png".to_string();
    expect_missing(&img, "content_type");
}

#[test]
fn summary_lists_size_type_description_and_objects() {
    let img = valid_image();
    assert_eq!(img.summary(), "640x480 | image/jpeg");
    let mut meta = ImageMetadata::default();
    meta.ai_description = Some("a cat".to_string());
    meta.detected_objects = vec!["cat".to_string(), "sofa".to_string()];
    let img = img.with_ai_metadata(meta);
    assert_eq!(img.summary(), "640x480 | image/jpeg | a cat | Objects: cat, sofa");
    let img = img.with_user_description("my cat".to_string());
    assert_eq!(img.summary(), "640x480 | image/jpeg | my cat | Objects: cat, sofa");
}

#[test]
fn relationships_are_kept_unique() {
    let mut img = valid_image();
    let other = NodeId::from_string("other".to_string());
    img.add_relationship(other.clone());
    img.add_relationship(other.clone());
    assert_eq!(img.relationships.len(), 1);
    img.add_relationship(NodeId::from_string("second".to_string()));
    img.remove_relationship(&other);
    assert_eq!(img.relationships, vec![NodeId::from_string("second".to_string())]);
    img.remove_relationship(&other);
    assert_eq!(img.relationships.len(), 1);
}

#[test]
fn sibling_links_on_images() {
    let mut img = valid_image();
    assert!(img.is_first_sibling() && img.is_last());
    img.set_next_sibling(Some(NodeId::from_string("n".to_string())));
    img.set_before_sibling(Some(NodeId::from_string("b".to_string())));
    assert!(img.has_next_sibling() && img.has_before_sibling());
    let img = img.with_next_sibling(None).with_before_sibling(None);
    assert!(img.is_first_sibling() && img.is_last());
    assert!(img.created_at <= img.updated_at);
}

fn camera() -> CameraInfo {
    let mut c = CameraInfo::default();
    c.make = Some("Canon".to_string());
    c.model = Some("EOS R5".to_string());
    c.focal_length = Some(35.0f32.to_bits());
    c.aperture = Some(1.8f32.to_bits());
    c.iso = Some(400);
    c.flash = Some(false);
    c.orientation = Some(1);
    c
}

#[test]
fn image_round_trips_through_node() {
    let mut meta = ImageMetadata::default();
    meta.keywords = vec!["pet".to_string()];
    meta.confidence_scores = vec![("cat".to_string(), 0.98f32.to_bits())];
    meta.faces_detected = Some(0);
    let img = ImageNode::with_id(
        NodeId::from_string("img-1".to_string()),
        vec![0, 255, 17],
        "cat.jpg".to_string(),
        "image/jpeg".to_string(),
        (1920, 1080),
    )
    .with_file_size(3)
    .with_camera_info(camera())
    .with_user_description("sleeping".to_string())
    .with_user_tags(vec!["home".to_string()])
    .with_gps_coordinates(48.85f64.to_bits(), 2.35f64.to_bits())
    .with_timestamp(1_700_000_000_000_000)
    .with_ai_metadata(meta)
    .with_parent(NodeId::from_string("doc".to_string()));
    let node = img.to_node().unwrap();
    assert_eq!(node.type_, "image");
    assert_eq!(node.id, img.id);
    assert_eq!(node.parent_id, img.parent_id);
    let back = ImageNode::from_node(&node).unwrap();
    assert_eq!(back.id, img.id);
    assert_eq!(back.filename, "cat.jpg");
    assert_eq!(back.content_type, "image/jpeg");
    assert_eq!(back.dimensions, (1920, 1080));
    let cam = back.camera_info.clone().unwrap();
    assert_eq!(cam.make.as_deref(), Some("Canon"));
    assert_eq!(cam.model.as_deref(), Some("EOS R5"));
    assert_eq!(cam.focal_length, Some(35.0f32.to_bits()));
    assert_eq!(cam.iso, Some(400));
    assert_eq!(cam.flash, Some(false));
    assert_eq!(back.user_description.as_deref(), Some("sleeping"));
    assert_eq!(back.raw_data, vec![0, 255, 17]);
    assert_eq!(back.file_size, 3);
    assert_eq!(back.gps_coordinates, img.gps_coordinates);
    assert_eq!(back.timestamp, Some(1_700_000_000_000_000));
    assert_eq!(back.ai_metadata.keywords, vec!["pet".to_string()]);
    assert_eq!(back.ai_metadata.confidence_scores, vec![("cat".to_string(), 0.98f32.to_bits())]);
    assert_eq!(back.user_tags, vec!["home".to_string()]);
    assert_eq!(back.created_at, img.created_at);
    assert_eq!(back.updated_at, img.updated_at);
    assert_eq!(back.node_type, NodeType::Image);
}

#[test]
fn custom_type_round_trips() {
    let mut img = valid_image();
    img.node_type = NodeType::Custom("scan".to_string());
    let back = ImageNode::from_node(&img.to_node().unwrap()).unwrap();
    assert_eq!(back.node_type, NodeType::Custom("scan".to_string()));
    assert!(back.camera_info.is_none());
}

#[test]
fn unreadable_content_is_a_serialization_error() {
    let node = nodespace_core_types::Node::new("image".to_string(), JsonValue::Str("not an image".to_string()));
    match ImageNode::from_node(&node) {
        Err(NodeSpaceError::Processing(ProcessingError::SerializationFailed { format, data_type, fallback_formats, .. })) => {
            assert_eq!(format, "JSON");
            assert_eq!(data_type, "ImageNode");
            assert_eq!(fallback_formats, vec!["Direct field access".to_string()]);
        }
        other => panic!("unexpected {:?}", other.map(|i| i.filename)),
    }
}

fn without_keys(content: JsonValue, dropped: &[&str]) -> JsonValue {
    match content {
        JsonValue::Object(entries) => {
            JsonValue::Object(entries.into_iter().filter(|(k, _)| !dropped.contains(&k.as_str())).collect())
        }
        other => other,
    }
}

#[test]
fn content_without_link_keys_reads_with_no_links() {
    let img = valid_image()
        .with_next_sibling(Some(NodeId::from_string("n".to_string())))
        .with_user_description("old".to_string());
    let mut node = img.to_node().unwrap();
    node.content = without_keys(node.content, &["before_sibling", "next_sibling", "root_id"]);
    let back = ImageNode::from_node(&node).unwrap();
    assert!(back.before_sibling.is_none() && back.next_sibling.is_none() && back.root_id.is_none());
    assert_eq!(back.id, img.id);
    assert_eq!(back.filename, img.filename);
    assert_eq!(back.user_description.as_deref(), Some("old"));
    assert_eq!(back.raw_data, img.raw_data);
}

#[test]
fn content_keys_in_any_order_read_the_same() {
    let img = valid_image().with_camera_info(camera()).with_user_tags(vec!["a".to_string()]);
    let mut node = img.to_node().unwrap();
    if let JsonValue::Object(entries) = &mut node.content {
        entries.reverse();
        for (_, v) in entries.iter_mut() {
            if let JsonValue::Object(inner) = v {
                inner.reverse();
            }
        }
    }
    let back = ImageNode::from_node(&node).unwrap();
    assert_eq!(back.id, img.id);
    assert_eq!(back.dimensions, img.dimensions);
    assert_eq!(back.camera_info.unwrap().make.as_deref(), Some("Canon"));
    assert_eq!(back.user_tags, vec!["a".to_string()]);
}

#[test]
fn content_missing_a_required_key_is_rejected() {
    let mut node = valid_image().to_node().unwrap();
    node.content = without_keys(node.content, &["filename"]);
    assert!(ImageNode::from_node(&node).is_err());
}

#[test]
fn image_touch_at_never_moves_back() {
    let mut img = valid_image();
    img.created_at = 100;
    img.updated_at = 200;
    img.touch_at(150);
    assert_eq!(img.updated_at, 200);
    img.touch_at(250);
    assert_eq!(img.updated_at, 250);
}

fn embedding_entry(node: &nodespace_core_types::Node) -> Vec<JsonValue> {
    match node.content.get("embedding") {
        Some(JsonValue::Array(items)) => items.clone(),
        other => panic!("unexpected {:?}", other),
    }
}

#[test]
fn binary32_values_are_written_as_numbers() {
    let values = [0.5f32, -0.0, 1.0e-45, 1.17e-38, f32::MAX, f32::INFINITY, f32::NEG_INFINITY, 3.3e-42];
    let bits: Vec<u32> = values.iter().map(|v| v.to_bits()).collect();
    let mut img = valid_image();
    img.embedding = bits.clone();
    let node = img.to_node().unwrap();
    let written = embedding_entry(&node);
    for (v, item) in values.iter().zip(written.iter()) {
        match item {
            JsonValue::Float(d) => assert_eq!(*d, (*v as f64).to_bits(), "{}", v),
            other => panic!("unexpected {:?}", other),
        }
    }
    let back = ImageNode::from_node(&node).unwrap();
    assert_eq!(back.embedding, bits);
}

#[test]
fn nan_payloads_survive_the_round_trip() {
    let mut img = valid_image();
    img.embedding = vec![0x7FC0_0000, 0xFF80_0001];
    let back = ImageNode::from_node(&img.to_node().unwrap()).unwrap();
    assert_eq!(back.embedding, vec![0x7FC0_0000, 0xFF80_0001]);
}

#[test]
fn camera_floats_are_numbers() {
    let node = valid_image().with_camera_info(camera()).to_node().unwrap();
    match node.content.get("camera_info").and_then(|c| c.get("focal_length")) {
        Some(JsonValue::Float(d)) => assert_eq!(f64::from_bits(*d), 35.0),
        other => panic!("unexpected {:?}", other),
    }
}

#[test]
fn numbers_binary32_cannot_hold_are_rejected() {
    let mut node = valid_image().to_node().unwrap();
    if let JsonValue::Object(entries) = &mut node.content {
        for (k, v) in entries.iter_mut() {
            if k == "embedding" {
                *v = JsonValue::Array(vec![JsonValue::Float(0.1f64.to_bits())]);
            }
        }
    }
    assert!(ImageNode::from_node(&node).is_err());
    if let JsonValue::Object(entries) = &mut node.content {
        for (k, v) in entries.iter_mut() {
            if k == "embedding" {
                *v = JsonValue::Array(vec![JsonValue::Float((0.1f32 as f64).to_bits())]);
            }
        }
    }
    assert_eq!(ImageNode::from_node(&node).unwrap().embedding, vec![0.1f32.to_bits()]);
}
