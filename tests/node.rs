use nodespace_core_types::json::JsonValue;
use nodespace_core_types::{CalendarDate, Node, NodeId, NodeMetadata, NodeType, RelationshipRef};

fn text(s: &str) -> JsonValue {
    JsonValue::Object(vec![("content".to_string(), JsonValue::Str(s.to_string()))])
}

#[test]
fn fresh_ids_are_hyphenated_uuids_without_prefix() {
    let a = NodeId::new();
    let b = NodeId::new();
    assert_eq!(a.as_str().len(), 36);
    assert_eq!(a.as_str().matches('-').count(), 4);
    assert!(a.as_str().chars().all(|c| c.is_ascii_hexdigit() || c == '-'));
    assert_ne!(a, b);
    let chars: Vec<char> = a.as_str().chars().collect();
    assert_eq!((chars[8], chars[13], chars[18], chars[23]), ('-', '-', '-', '-'));
    assert_eq!(chars[14], '4');
    assert!("89ab".contains(chars[19]));
    assert_eq!(a.prefix(), None);
    assert_eq!(NodeId::new_fast().as_str().len(), 36);
    assert_eq!(NodeId::default().as_str().len(), 36);
}

#[test]
fn prefixed_ids_report_their_prefix() {
    let id = NodeId::with_prefix("date");
    assert!(id.as_str().starts_with("date:"));
    assert_eq!(id.as_str().len(), 5 + 36);
    assert_eq!(id.prefix(), Some("date"));
    assert_eq!(NodeId::from_string("a:b:c".to_string()).prefix(), Some("a"));
    assert_eq!(NodeId::from_string(":x".to_string()).prefix(), Some(""));
    assert_eq!(NodeId::from_string("plain".to_string()).prefix(), None);
}

#[test]
fn ids_round_trip_through_text() {
    let id = NodeId::from_string("node-1".to_string());
    assert_eq!(id.as_str(), "node-1");
    assert_eq!(id.to_string(), "node-1");
    assert_eq!(id.to_string_legacy(), "node-1");
    assert_eq!(NodeId::from("node-1".to_string()), id);
    assert_eq!(id.clone(), id);
}

#[test]
fn fresh_node_is_unlinked_root() {
    let node = Node::new("text".to_string(), text("hello"));
    assert!(node.is_first_sibling() && node.is_last() && !node.has_parent());
    assert!(node.is_root());
    assert!(!node.has_root() && !node.has_next_sibling() && !node.has_before_sibling());
    assert!(!node.is_hierarchy_root());
    assert_eq!(node.created_at, node.updated_at);
    assert!(node.metadata.is_none());
    assert_eq!(node.type_, "text");
}

#[test]
fn with_id_keeps_the_id() {
    let node = Node::with_id(NodeId::from_string("n1".to_string()), "task".to_string(), JsonValue::Null);
    assert_eq!(node.id.as_str(), "n1");
    assert!(node.created_at <= node.updated_at);
}

#[test]
fn timestamps_stay_coherent_under_setters() {
    let mut node = Node::new("text".to_string(), JsonValue::Null);
    let mut before = node.updated_at;
    node.set_parent_id(Some(NodeId::from_string("p".to_string())));
    assert!(node.created_at <= node.updated_at && before <= node.updated_at);
    before = node.updated_at;
    node.set_next_sibling(Some(NodeId::from_string("n".to_string())));
    assert!(before <= node.updated_at);
    before = node.updated_at;
    node.set_before_sibling(Some(NodeId::from_string("b".to_string())));
    assert!(before <= node.updated_at);
    before = node.updated_at;
    node.set_root(Some(NodeId::from_string("r".to_string())));
    assert!(before <= node.updated_at);
    node.touch();
    assert!(node.created_at <= node.updated_at);
    assert!(node.has_parent() && node.has_next_sibling() && node.has_before_sibling() && node.has_root());
}

#[test]
fn touch_at_moves_forward_only() {
    let mut node = Node::new("text".to_string(), JsonValue::Null);
    node.created_at = 100;
    node.updated_at = 200;
    node.touch_at(300);
    assert_eq!(node.updated_at, 300);
    node.touch_at(250);
    assert_eq!(node.updated_at, 300);
    node.updated_at = 50;
    node.touch_at(80);
    assert_eq!(node.updated_at, 100);
    node.touch_at(301);
    assert_eq!(node.updated_at, 301);
}

#[test]
fn chain_of_three_has_one_first_and_one_last() {
    let a = Node::with_id(NodeId::from_string("a".to_string()), "text".to_string(), JsonValue::Null);
    let b = Node::with_id(NodeId::from_string("b".to_string()), "text".to_string(), JsonValue::Null);
    let c = Node::with_id(NodeId::from_string("c".to_string()), "text".to_string(), JsonValue::Null);
    let a = a.with_next_sibling(Some(b.id.clone()));
    let b = b.with_before_sibling(Some(a.id.clone())).with_next_sibling(Some(c.id.clone()));
    let c = c.with_before_sibling(Some(b.id.clone()));
    let nodes = [&a, &b, &c];
    assert_eq!(nodes.iter().filter(|n| n.is_first_sibling()).count(), 1);
    assert_eq!(nodes.iter().filter(|n| n.is_last()).count(), 1);
    assert!(!b.is_first_sibling() && !b.is_last());
    assert!(a.is_first_sibling() && c.is_last());
}

#[test]
fn hierarchy_root_points_to_itself() {
    let mut root = Node::with_id(NodeId::from_string("date:2025-06-30".to_string()), "date".to_string(), JsonValue::Null);
    root.set_root(Some(root.id.clone()));
    assert!(root.is_hierarchy_root());
    let child = Node::new("text".to_string(), JsonValue::Null).with_parent(Some(root.id.clone()));
    let mut child = child;
    child.set_root(Some(root.id.clone()));
    assert!(child.has_root() && !child.is_hierarchy_root());
    let mut elsewhere = Node::new("text".to_string(), JsonValue::Null);
    elsewhere.set_root(Some(NodeId::from_string("other".to_string())));
    assert!(!elsewhere.is_hierarchy_root());
}

#[test]
fn builders_set_one_field() {
    let node = Node::new("text".to_string(), JsonValue::Null)
        .with_metadata(JsonValue::Bool(true))
        .with_parent(Some(NodeId::from_string("p".to_string())));
    assert!(matches!(node.metadata, Some(JsonValue::Bool(true))));
    assert_eq!(node.parent_id.as_ref().map(|p| p.as_str()), Some("p"));
    assert!(node.next_sibling.is_none());
}

#[test]
fn typed_nodes_record_their_type() {
    let node = Node::new_typed(text("x"), "task");
    assert_eq!(node.node_type(), Some("task".to_string()));
    match &node.metadata {
        Some(JsonValue::Object(entries)) => {
            assert_eq!(entries.len(), 1);
            assert_eq!(entries[0].0, "node_type");
            assert!(matches!(&entries[0].1, JsonValue::Str(s) if s == "task"));
        }
        other => panic!("unexpected {:?}", other),
    }
    assert_eq!(node.type_, "task");
    let plain = Node::new("text".to_string(), JsonValue::Null);
    assert_eq!(plain.node_type(), None);
    let mut legacy = plain.clone();
    legacy.set_metadata_legacy(JsonValue::Object(vec![("node_type".to_string(), JsonValue::UInt(3))]));
    assert_eq!(legacy.node_type(), None);
}

#[test]
fn date_nodes_carry_their_date() {
    let date = CalendarDate::from_ymd(2025, 6, 30).unwrap();
    let node = Node::new_date_node(date);
    assert!(node.is_date_node());
    assert_eq!(node.type_, "date");
    let meta = node.get_date_metadata().unwrap();
    assert_eq!(meta.date, "2025-06-30");
    assert_eq!(meta.display_format, "June 30, 2025");
    assert_eq!(meta.timezone, "UTC");
    assert!(meta.created_by_navigation);
    assert_eq!(meta.locale.as_deref(), Some("en-US"));
    assert_eq!(node.get_date(), Some(date));
    assert!(matches!(node.content.get("content"), Some(JsonValue::Str(s)) if s == "June 30, 2025"));
}

#[test]
fn date_nodes_with_timezone() {
    let date = CalendarDate::from_ymd(2024, 2, 9).unwrap();
    let node = Node::new_date_node_with_timezone(date, "Europe/Paris");
    let meta = node.get_date_metadata().unwrap();
    assert_eq!(meta.timezone, "Europe/Paris");
    assert_eq!(meta.date, "2024-02-09");
    assert_eq!(meta.display_format, "February 9, 2024");
}

#[test]
fn non_date_nodes_fail_soft() {
    let node = Node::new("text".to_string(), text("hi"));
    assert!(!node.is_date_node());
    assert_eq!(node.get_date_metadata(), None);
    assert_eq!(node.get_date(), None);
    let marked_only = Node::new(
        "date".to_string(),
        JsonValue::Object(vec![("type".to_string(), JsonValue::Str("date".to_string()))]),
    );
    assert!(marked_only.is_date_node());
    assert_eq!(marked_only.get_date_metadata(), None);
    let bad_date = Node::new(
        "date".to_string(),
        JsonValue::Object(vec![
            ("type".to_string(), JsonValue::Str("date".to_string())),
            (
                "date_metadata".to_string(),
                JsonValue::Object(vec![
                    ("date".to_string(), JsonValue::Str("not a date".to_string())),
                    ("timezone".to_string(), JsonValue::Str("UTC".to_string())),
                    ("display_format".to_string(), JsonValue::Str("".to_string())),
                    ("created_by_navigation".to_string(), JsonValue::Bool(false)),
                ]),
            ),
        ]),
    );
    let meta = bad_date.get_date_metadata().unwrap();
    assert_eq!(meta.locale, None);
    assert!(meta.parse_date().is_err());
    assert_eq!(bad_date.get_date(), None);
}

#[test]
fn calendar_dates_must_exist() {
    assert!(CalendarDate::from_ymd(2023, 2, 29).is_none());
    assert!(CalendarDate::from_ymd(2024, 2, 29).is_some());
    assert!(CalendarDate::from_ymd(1900, 2, 29).is_none());
    assert!(CalendarDate::from_ymd(2000, 2, 29).is_some());
    assert!(CalendarDate::from_ymd(2024, 13, 1).is_none());
    assert!(CalendarDate::from_ymd(2024, 4, 31).is_none());
    assert!(CalendarDate::from_ymd(400000, 1, 1).is_none());
    assert_eq!(CalendarDate::from_ymd(-5, 3, 1).unwrap().to_iso_string(), "-0005-03-01");
    assert_eq!(CalendarDate::from_ymd(12345, 12, 31).unwrap().to_long_string(), "December 31, +12345");
    assert_eq!(CalendarDate::from_ymd(7, 1, 9).unwrap().to_iso_string(), "0007-01-09");
    let d = CalendarDate::from_ymd(2025, 1, 5).unwrap();
    assert_eq!((d.year(), d.month(), d.day()), (2025, 1, 5));
    assert_eq!(d.to_iso_string(), "2025-01-05");
    assert_eq!(d.to_long_string(), "January 5, 2025");
}

#[test]
fn node_type_names() {
    assert_eq!(NodeType::Image.to_string(), "image");
    assert_eq!(NodeType::Custom("recipe".to_string()).to_string(), "recipe");
    assert_eq!(NodeType::default(), NodeType::Text);
    assert_ne!(NodeType::Custom("a".to_string()), NodeType::Custom("b".to_string()));
}

#[test]
fn relationship_refs_and_metadata() {
    let link = RelationshipRef::new(NodeId::from_string("t".to_string()), "mentions".to_string());
    assert!(matches!(link.properties, JsonValue::Null));
    let link = link.with_properties(JsonValue::Bool(false));
    assert!(matches!(link.properties, JsonValue::Bool(false)));
    let mut meta = NodeMetadata::new();
    assert_eq!(meta.version, 1);
    assert!(meta.tags.is_empty());
    meta.update();
    assert_eq!(meta.version, 2);
    meta.created_at = 10;
    meta.updated_at = 20;
    meta.update_at(15);
    assert_eq!((meta.updated_at, meta.version), (20, 3));
    meta.update_at(30);
    assert_eq!((meta.updated_at, meta.version), (30, 4));
    assert!(meta.created_at <= meta.updated_at);
}

#[test]
fn json_lookup_finds_first_entry() {
    let v = JsonValue::Object(vec![
        ("k".to_string(), JsonValue::UInt(1)),
        ("k".to_string(), JsonValue::UInt(2)),
    ]);
    assert!(matches!(v.get("k"), Some(JsonValue::UInt(1))));
    assert!(v.get("missing").is_none());
    assert!(JsonValue::Null.get("k").is_none());
    assert_eq!(JsonValue::Str("x".to_string()).as_str(), Some("x"));
    assert!(JsonValue::Str("date".to_string()).is_text("date"));
}

#[test]
fn default_date_metadata_records_today() {
    let meta = nodespace_core_types::DateNodeMetadata::default();
    assert_eq!(meta.date.len(), 10);
    assert_eq!(meta.timezone, "UTC");
    assert_eq!(meta.display_format, "");
    assert!(!meta.created_by_navigation);
    assert_eq!(meta.locale, None);
    let today = meta.parse_date().unwrap();
    assert!(today.year() >= 2024);
    assert_eq!(today.to_iso_string(), meta.date);
}

#[test]
fn timestamps_come_from_the_clock() {
    let node = Node::new("text".to_string(), JsonValue::Null);
    // 2020-01-01T00:00:00Z in microseconds.
    assert!(node.created_at > 1_577_836_800_000_000);
}
