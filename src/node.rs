use vstd::prelude::*;
use crate::clock::now_micros;
use crate::error::opt_text;
use crate::id::{is_uuid_text, NodeId};
use crate::date::{
    date_metadata_ok, date_metadata_rep, iso_date_text, long_date_text, parsed_iso_date, read_date_metadata,
    write_date_metadata, CalendarDate, DateNodeMetadata,
};
use crate::json::{field, lemma_lookup_first, text_of, JsonValue};

verus! {

/// One content unit of the graph, with its parent, sibling and root links.
///
/// Timestamps are microseconds since the Unix epoch (UTC).
#[derive(Debug, Clone)]
pub struct Node {
    pub id: NodeId,
    /// The kind of content: "text", "date", "task", and so on.
    pub type_: String,
    pub content: JsonValue,
    pub metadata: Option<JsonValue>,
    pub created_at: i64,
    pub updated_at: i64,
    /// The parent node; `None` for a hierarchy root.
    pub parent_id: Option<NodeId>,
    /// The previous node among the siblings; `None` for the first.
    pub before_sibling: Option<NodeId>,
    /// The next node among the siblings; `None` for the last.
    pub next_sibling: Option<NodeId>,
    /// The root of the hierarchy; a hierarchy root points to itself.
    pub root_id: Option<NodeId>,
}

/// The `updated_at` that a refresh at instant `now` leaves: never earlier
/// than the creation time nor than the previous value.
pub open spec fn refreshed(created_at: i64, updated_at: i64, now: i64) -> i64 {
    let floor = if created_at <= updated_at { updated_at } else { created_at };
    if floor <= now { now } else { floor }
}

/// Whether `id` is present and has the same text as `target`.
pub open spec fn points_to(link: Option<NodeId>, target: NodeId) -> bool {
    link matches Some(i) && i.0@ == target.0@
}

impl Node {
    /// Timestamps are coherent: the node was not updated before it was made.
    pub open spec fn wf(&self) -> bool {
        self.created_at <= self.updated_at
    }

    /// A node as construction leaves it: no metadata, no links, and both
    /// timestamps equal.
    pub open spec fn is_fresh(&self) -> bool {
        &&& self.metadata is None
        &&& self.created_at == self.updated_at
        &&& self.parent_id is None
        &&& self.before_sibling is None
        &&& self.next_sibling is None
        &&& self.root_id is None
    }

    /// `self` equals `old` but for `updated_at`, which moved forward.
    pub open spec fn touched_from(&self, old: Node) -> bool {
        &&& *self == (Node { updated_at: self.updated_at, ..old })
        &&& old.updated_at <= self.updated_at
        &&& old.created_at <= self.updated_at
    }

    /// A new root node without siblings, with a fresh identifier.
    pub fn new(type_: String, content: JsonValue) -> (r: Self)
        ensures
            is_uuid_text(r.id.0@),
            r.type_ == type_,
            r.content == content,
            r.is_fresh(),
            r.wf(),
    {
        let id = NodeId::new_fast();
        Self::with_id(id, type_, content)
    }

    /// A new root node without siblings, with the given identifier.
    pub fn with_id(id: NodeId, type_: String, content: JsonValue) -> (r: Self)
        ensures
            r.id == id,
            r.type_ == type_,
            r.content == content,
            r.is_fresh(),
            r.wf(),
    {
        let now = now_micros();
        Node {
            id,
            type_,
            content,
            metadata: None,
            created_at: now,
            updated_at: now,
            parent_id: None,
            before_sibling: None,
            next_sibling: None,
            root_id: None,
        }
    }

    /// The node with the given metadata.
    pub fn with_metadata(self, metadata: JsonValue) -> (r: Self)
        ensures
            r == (Node { metadata: Some(metadata), ..self }),
    {
        let mut node = self;
        node.metadata = Some(metadata);
        node
    }

    /// Refreshes `updated_at` to the instant `now`, without moving it back.
    pub fn touch_at(&mut self, now: i64)
        ensures
            *final(self) == (Node {
                updated_at: refreshed(old(self).created_at, old(self).updated_at, now),
                ..*old(self)
            }),
    {
        let mut floor = self.updated_at;
        if floor < self.created_at {
            floor = self.created_at;
        }
        self.updated_at = if floor <= now { now } else { floor };
    }

    /// Refreshes `updated_at` to the current time, without moving it back.
    pub fn touch(&mut self)
        ensures
            final(self).touched_from(*old(self)),
            final(self).wf(),
    {
        let now = now_micros();
        self.touch_at(now);
    }

    /// The node with the given next sibling.
    pub fn with_next_sibling(self, next_sibling: Option<NodeId>) -> (r: Self)
        ensures
            r == (Node { next_sibling, ..self }),
    {
        let mut node = self;
        node.next_sibling = next_sibling;
        node
    }

    /// The node with the given previous sibling.
    pub fn with_before_sibling(self, before_sibling: Option<NodeId>) -> (r: Self)
        ensures
            r == (Node { before_sibling, ..self }),
    {
        let mut node = self;
        node.before_sibling = before_sibling;
        node
    }

    /// The node with the given parent.
    pub fn with_parent(self, parent_id: Option<NodeId>) -> (r: Self)
        ensures
            r == (Node { parent_id, ..self }),
    {
        let mut node = self;
        node.parent_id = parent_id;
        node
    }

    /// Sets the next sibling and refreshes `updated_at`.
    pub fn set_next_sibling(&mut self, next_sibling: Option<NodeId>)
        ensures
            final(self).touched_from((Node { next_sibling, ..*old(self) })),
            final(self).wf(),
    {
        self.next_sibling = next_sibling;
        self.touch();
    }

    /// Sets the previous sibling and refreshes `updated_at`.
    pub fn set_before_sibling(&mut self, before_sibling: Option<NodeId>)
        ensures
            final(self).touched_from((Node { before_sibling, ..*old(self) })),
            final(self).wf(),
    {
        self.before_sibling = before_sibling;
        self.touch();
    }

    /// Sets the parent and refreshes `updated_at`.
    pub fn set_parent_id(&mut self, parent_id: Option<NodeId>)
        ensures
            final(self).touched_from((Node { parent_id, ..*old(self) })),
            final(self).wf(),
    {
        self.parent_id = parent_id;
        self.touch();
    }

    /// Sets the root of the hierarchy and refreshes `updated_at`.
    pub fn set_root(&mut self, root_id: Option<NodeId>)
        ensures
            final(self).touched_from((Node { root_id, ..*old(self) })),
            final(self).wf(),
    {
        self.root_id = root_id;
        self.touch();
    }

    /// Sets the metadata and refreshes `updated_at`.
    pub fn set_metadata_legacy(&mut self, metadata: JsonValue)
        ensures
            final(self).touched_from((Node { metadata: Some(metadata), ..*old(self) })),
            final(self).wf(),
    {
        self.metadata = Some(metadata);
        self.touch();
    }

    /// Whether the node has a parent.
    pub fn has_parent(&self) -> (r: bool)
        ensures
            r == self.parent_id is Some,
    {
        self.parent_id.is_some()
    }

    /// Whether the node is a root: it has no parent.
    pub fn is_root(&self) -> (r: bool)
        ensures
            r == self.parent_id is None,
    {
        self.parent_id.is_none()
    }

    /// Whether the node has a next sibling.
    pub fn has_next_sibling(&self) -> (r: bool)
        ensures
            r == self.next_sibling is Some,
    {
        self.next_sibling.is_some()
    }

    /// Whether the node has a previous sibling.
    pub fn has_before_sibling(&self) -> (r: bool)
        ensures
            r == self.before_sibling is Some,
    {
        self.before_sibling.is_some()
    }

    /// Whether the node is the last of its siblings.
    pub fn is_last(&self) -> (r: bool)
        ensures
            r == self.next_sibling is None,
    {
        self.next_sibling.is_none()
    }

    /// Whether the node is the first of its siblings.
    pub fn is_first_sibling(&self) -> (r: bool)
        ensures
            r == self.before_sibling is None,
    {
        self.before_sibling.is_none()
    }

    /// Whether the node knows the root of its hierarchy.
    pub fn has_root(&self) -> (r: bool)
        ensures
            r == self.root_id is Some,
    {
        self.root_id.is_some()
    }

    /// Whether the node is itself a hierarchy root: its root is itself and
    /// it has no parent.
    pub fn is_hierarchy_root(&self) -> (r: bool)
        ensures
            r == (points_to(self.root_id, self.id) && self.parent_id is None),
    {
        match (&self.root_id, &self.parent_id) {
            (Some(root_id), None) => root_id.0 == self.id.0,
            _ => false,
        }
    }

    /// A new node whose metadata records `node_type`.
    pub fn new_typed(content: JsonValue, node_type: &str) -> (r: Self)
        ensures
            r.type_@ == node_type@,
            r.content == content,
            r.metadata matches Some(m) && node_type_record(m, node_type@),
            r.created_at == r.updated_at,
            r.parent_id is None && r.before_sibling is None,
            r.next_sibling is None && r.root_id is None,
    {
        let mut entries: Vec<(String, JsonValue)> = Vec::new();
        entries.push((String::from_str("node_type"), JsonValue::Str(String::from_str(node_type))));
        let metadata = JsonValue::Object(entries);
        proof {
            reveal_strlit("node_type");
            assert(entries@.drop_first().len() == 0);
        }
        let node = Self::new(String::from_str(node_type), content);
        node.with_metadata(metadata)
    }

    /// The node type that the metadata records, if it records one as text.
    pub fn node_type(&self) -> (r: Option<String>)
        ensures
            match self.metadata {
                Some(m) => opt_text(r) == text_of_field(m, "node_type"@),
                None => r is None,
            },
    {
        match &self.metadata {
            Some(m) => match m.get("node_type") {
                Some(v) => match v.as_str() {
                    Some(s) => Some(String::from_str(s)),
                    None => None,
                },
                None => None,
            },
            None => None,
        }
    }
}

/// `m` is exactly the one-entry object `{"node_type": name}`.
pub open spec fn node_type_record(m: JsonValue, name: Seq<char>) -> bool {
    m matches JsonValue::Object(e) && e@.len() == 1 && e@[0].0@ == "node_type"@ && text_of(e@[0].1) == Some(
        name,
    )
}

/// The text stored under `key`, when `v` is an object holding text there.
pub open spec fn text_of_field(v: JsonValue, key: Seq<char>) -> Option<Seq<char>> {
    match field(v, key) {
        Some(f) => text_of(f),
        None => None,
    }
}

/// A constructed node is a root with no siblings.
pub proof fn lemma_fresh_node_is_unlinked(n: Node)
    requires
        n.is_fresh(),
    ensures
        n.before_sibling is None,
        n.next_sibling is None,
        n.parent_id is None,
{
}

/// Timestamps stay coherent after construction and after every refresh:
/// a refresh of a coherent node leaves `created_at <= updated_at`, never
/// moves `updated_at` back, and leaves it equal to `now` when `now` is later.
pub proof fn lemma_refresh_coherent(created_at: i64, updated_at: i64, now: i64)
    ensures
        created_at <= refreshed(created_at, updated_at, now),
        updated_at <= refreshed(created_at, updated_at, now),
        created_at <= updated_at <= now ==> refreshed(created_at, updated_at, now) == now,
{
}

/// A refresh at an instant later than the previous `updated_at` strictly
/// increases it.
pub proof fn lemma_refresh_strictly_increases(created_at: i64, updated_at: i64, now: i64)
    requires
        created_at <= updated_at,
        updated_at < now,
    ensures
        updated_at < refreshed(created_at, updated_at, now),
{
}

/// In a sibling chain a → b → c, exactly one node is first, exactly one is
/// last, and the middle one is neither.
pub proof fn lemma_chain_of_three(a: Node, b: Node, c: Node)
    requires
        a.before_sibling is None,
        points_to(a.next_sibling, b.id),
        points_to(b.before_sibling, a.id),
        points_to(b.next_sibling, c.id),
        points_to(c.before_sibling, b.id),
        c.next_sibling is None,
    ensures
        a.before_sibling is None && b.before_sibling is Some && c.before_sibling is Some,
        a.next_sibling is Some && b.next_sibling is Some && c.next_sibling is None,
{
}


/// The classification of a node's content.
#[derive(Debug, Clone, Eq)]
pub enum NodeType {
    Text,
    Image,
    Task,
    Document,
    Link,
    Entity,
    Date,
    Audio,
    Video,
    Custom(String),
}

/// Whether two node types are the same: the same variant, and for custom
/// types the same name.
pub open spec fn same_node_type(a: NodeType, b: NodeType) -> bool {
    match (a, b) {
        (NodeType::Custom(x), NodeType::Custom(y)) => x@ == y@,
        (NodeType::Custom(_), _) => false,
        (_, NodeType::Custom(_)) => false,
        _ => a == b,
    }
}

impl PartialEq for NodeType {
    fn eq(&self, other: &NodeType) -> (r: bool) {
        match (self, other) {
            (NodeType::Text, NodeType::Text) => true,
            (NodeType::Image, NodeType::Image) => true,
            (NodeType::Task, NodeType::Task) => true,
            (NodeType::Document, NodeType::Document) => true,
            (NodeType::Link, NodeType::Link) => true,
            (NodeType::Entity, NodeType::Entity) => true,
            (NodeType::Date, NodeType::Date) => true,
            (NodeType::Audio, NodeType::Audio) => true,
            (NodeType::Video, NodeType::Video) => true,
            (NodeType::Custom(x), NodeType::Custom(y)) => *x == *y,
            _ => false,
        }
    }
}

impl vstd::std_specs::cmp::PartialEqSpecImpl for NodeType {
    open spec fn obeys_eq_spec() -> bool {
        true
    }

    open spec fn eq_spec(&self, other: &NodeType) -> bool {
        same_node_type(*self, *other)
    }
}

impl Default for NodeType {
    fn default() -> (r: Self)
        ensures
            r is Text,
    {
        NodeType::Text
    }
}

/// The display name of a node type.
pub open spec fn node_type_label(t: NodeType) -> Seq<char> {
    match t {
        NodeType::Text => "text"@,
        NodeType::Image => "image"@,
        NodeType::Task => "task"@,
        NodeType::Document => "document"@,
        NodeType::Link => "link"@,
        NodeType::Entity => "entity"@,
        NodeType::Date => "date"@,
        NodeType::Audio => "audio"@,
        NodeType::Video => "video"@,
        NodeType::Custom(name) => name@,
    }
}

impl NodeType {
    /// The display name: the lowercase variant name, or the custom name.
    pub fn to_string(&self) -> (r: String)
        ensures
            r@ == node_type_label(*self),
    {
        match self {
            NodeType::Text => String::from_str("text"),
            NodeType::Image => String::from_str("image"),
            NodeType::Task => String::from_str("task"),
            NodeType::Document => String::from_str("document"),
            NodeType::Link => String::from_str("link"),
            NodeType::Entity => String::from_str("entity"),
            NodeType::Date => String::from_str("date"),
            NodeType::Audio => String::from_str("audio"),
            NodeType::Video => String::from_str("video"),
            NodeType::Custom(name) => name.clone(),
        }
    }
}


/// Whether the content carries the date-node marker `"type": "date"`.
pub open spec fn has_date_marker(content: JsonValue) -> bool {
    text_of_field(content, "type"@) == Some("date"@)
}

/// The date record of a date node's content, when it is marked as one and
/// its record is readable.
pub open spec fn readable_date_record(content: JsonValue) -> Option<JsonValue> {
    if has_date_marker(content) {
        match field(content, "date_metadata"@) {
            Some(dm) => if date_metadata_ok(dm) { Some(dm) } else { None },
            None => None,
        }
    } else {
        None
    }
}

/// The text of field `key` of `v`, when it is text.
pub open spec fn field_text(v: JsonValue, key: Seq<char>) -> Option<Seq<char>> {
    match field(v, key) {
        Some(JsonValue::Str(t)) => Some(t@),
        _ => None,
    }
}

/// `v` records `date` in time zone `timezone`, created by navigation, in en-US.
pub open spec fn records_date(v: JsonValue, date: CalendarDate, timezone: Seq<char>) -> bool {
    &&& field_text(v, "date"@) == Some(iso_date_text(date.spec_year(), date.spec_month(), date.spec_day()))
    &&& field_text(v, "timezone"@) == Some(timezone)
    &&& field_text(v, "display_format"@) == Some(
        long_date_text(date.spec_year(), date.spec_month(), date.spec_day()),
    )
    &&& field(v, "created_by_navigation"@) == Some(JsonValue::Bool(true))
    &&& field_text(v, "locale"@) == Some("en-US"@)
}

fn date_content(meta: &DateNodeMetadata) -> (r: JsonValue)
    ensures
        has_date_marker(r),
        field_text(r, "content"@) == Some(meta.display_format@),
        field(r, "date_metadata"@) matches Some(dm) && date_metadata_rep(dm, *meta),
{
    let mut e: Vec<(String, JsonValue)> = Vec::new();
    e.push((String::from_str("type"), JsonValue::Str(String::from_str("date"))));
    e.push((String::from_str("content"), JsonValue::Str(meta.display_format.clone())));
    e.push((String::from_str("date_metadata"), write_date_metadata(meta)));
    proof {
        reveal_strlit("type");
        reveal_strlit("content");
        reveal_strlit("date_metadata");
        let s = e@;
        assert(s[0].0@.len() == 4 && s[1].0@.len() == 7 && s[2].0@.len() == 13);
        lemma_lookup_first(s, 0, "type"@);
        lemma_lookup_first(s, 1, "content"@);
        lemma_lookup_first(s, 2, "date_metadata"@);
    }
    JsonValue::Object(e)
}

impl Node {
    /// A new date node for `date`, in UTC.
    pub fn new_date_node(date: CalendarDate) -> (r: Self)
        ensures
            r.type_@ == "date"@,
            has_date_marker(r.content),
            field(r.content, "date_metadata"@) matches Some(dm) && records_date(dm, date, "UTC"@),
            r.is_fresh(),
            r.wf(),
    {
        proof {
            reveal_strlit("UTC");
        }
        Self::new_date_node_with_timezone(date, "UTC")
    }

    /// A new date node for `date`, in the given time zone.
    pub fn new_date_node_with_timezone(date: CalendarDate, timezone: &str) -> (r: Self)
        ensures
            r.type_@ == "date"@,
            has_date_marker(r.content),
            field(r.content, "date_metadata"@) matches Some(dm) && records_date(dm, date, timezone@),
            r.is_fresh(),
            r.wf(),
    {
        let meta = DateNodeMetadata::with_timezone(date, timezone);
        let content = date_content(&meta);
        Self::new(String::from_str("date"), content)
    }

    /// Whether the content carries the date-node marker.
    pub fn is_date_node(&self) -> (r: bool)
        ensures
            r == has_date_marker(self.content),
    {
        match self.content.get("type") {
            Some(t) => t.is_text("date"),
            None => false,
        }
    }

    /// The date record of a date node; `None` when the node is not one or
    /// its record is missing or malformed.
    pub fn get_date_metadata(&self) -> (r: Option<DateNodeMetadata>)
        ensures
            r is Some <==> readable_date_record(self.content) is Some,
            r matches Some(m) ==> date_metadata_rep(readable_date_record(self.content)->0, m),
    {
        if self.is_date_node() {
            match self.content.get("date_metadata") {
                Some(dm) => read_date_metadata(dm),
                None => None,
            }
        } else {
            None
        }
    }

    /// The date of a date node; `None` when there is no readable record or
    /// its date text is not a `YYYY-MM-DD` date.
    pub fn get_date(&self) -> (r: Option<CalendarDate>)
        ensures
            match readable_date_record(self.content) {
                None => r is None,
                Some(dm) => match parsed_iso_date(field_text(dm, "date"@)->0) {
                    None => r is None,
                    Some(ymd) => r matches Some(d)
                        && ymd == (d.spec_year(), d.spec_month(), d.spec_day()),
                },
            },
    {
        match self.get_date_metadata() {
            Some(meta) => match meta.parse_date() {
                Ok(d) => Some(d),
                Err(_) => None,
            },
            None => None,
        }
    }
}


/// A typed link from one node to another.
#[derive(Debug, Clone)]
pub struct RelationshipRef {
    pub target_id: NodeId,
    pub relationship_type: String,
    pub properties: JsonValue,
}

impl RelationshipRef {
    /// A link of the given type, with no properties.
    pub fn new(target_id: NodeId, relationship_type: String) -> (r: Self)
        ensures
            r.target_id == target_id,
            r.relationship_type == relationship_type,
            r.properties is Null,
    {
        RelationshipRef { target_id, relationship_type, properties: JsonValue::Null }
    }

    /// The link with the given properties.
    pub fn with_properties(self, properties: JsonValue) -> (r: Self)
        ensures
            r == (RelationshipRef { properties, ..self }),
    {
        let mut link = self;
        link.properties = properties;
        link
    }
}

/// Version and tags that a collaborator attaches to a value.
///
/// Timestamps are microseconds since the Unix epoch (UTC).
#[derive(Debug, Clone)]
pub struct NodeMetadata {
    pub created_at: i64,
    pub updated_at: i64,
    pub version: u64,
    pub tags: Vec<String>,
}

impl Default for NodeMetadata {
    fn default() -> (r: Self)
        ensures
            r.created_at == r.updated_at,
            r.version == 1,
            r.tags@.len() == 0,
    {
        let now = now_micros();
        NodeMetadata { created_at: now, updated_at: now, version: 1, tags: Vec::new() }
    }
}

impl NodeMetadata {
    /// Fresh metadata: version 1, no tags, both timestamps now.
    pub fn new() -> (r: Self)
        ensures
            r.created_at == r.updated_at,
            r.version == 1,
            r.tags@.len() == 0,
    {
        Self::default()
    }

    /// Records an update at the instant `now`: refreshes `updated_at`
    /// without moving it back and counts one version more.
    pub fn update_at(&mut self, now: i64)
        requires
            old(self).version < u64::MAX,
        ensures
            final(self).version == old(self).version + 1,
            final(self).updated_at == refreshed(old(self).created_at, old(self).updated_at, now),
            final(self).created_at == old(self).created_at,
            final(self).tags == old(self).tags,
    {
        let mut floor = self.updated_at;
        if floor < self.created_at {
            floor = self.created_at;
        }
        self.updated_at = if floor <= now { now } else { floor };
        self.version = self.version + 1;
    }

    /// Records an update: refreshes `updated_at` to the current time without
    /// moving it back, and counts one version more.
    pub fn update(&mut self)
        requires
            old(self).version < u64::MAX,
        ensures
            final(self).version == old(self).version + 1,
            final(self).updated_at >= old(self).updated_at,
            final(self).updated_at >= old(self).created_at,
            final(self).created_at == old(self).created_at,
            final(self).tags == old(self).tags,
    {
        let now = now_micros();
        self.update_at(now);
    }
}

} // verus!
