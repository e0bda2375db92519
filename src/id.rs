use vstd::prelude::*;

verus! {

/// A lowercase hexadecimal digit or a hyphen.
pub open spec fn is_uuid_char(c: char) -> bool {
    ('0' <= c && c <= '9') || ('a' <= c && c <= 'f') || c == '-'
}

/// The shape of a hyphenated random (version 4) UUID: 32 lowercase
/// hexadecimal digits in groups of 8, 4, 4, 4 and 12 separated by hyphens,
/// with version digit 4 and a variant digit of 8, 9, a or b.
pub open spec fn is_uuid_text(s: Seq<char>) -> bool {
    &&& s.len() == 36
    &&& forall|i: int| 0 <= i < s.len() ==> is_uuid_char(#[trigger] s[i])
    &&& s[8] == '-' && s[13] == '-' && s[18] == '-' && s[23] == '-'
    &&& s[14] == '4'
    &&& (s[19] == '8' || s[19] == '9' || s[19] == 'a' || s[19] == 'b')
}

/// Relies on uuid::Uuid::new_v4, which sets the version nibble to 4 and the
/// variant bits to 10, and on its `Display`, which writes the hyphenated
/// lowercase form.
#[verifier::external_body]
fn fresh_uuid_text() -> (r: String)
    ensures
        is_uuid_text(r@),
{
    uuid::Uuid::new_v4().to_string()
}

/// Opaque, immutable identifier of a node; equal when the texts are equal.
#[derive(Debug, Eq, Hash)]
pub struct NodeId(pub String);

impl Clone for NodeId {
    fn clone(&self) -> (r: NodeId)
        ensures
            r == *self,
    {
        NodeId(self.0.clone())
    }
}

/// A copy of an optional identifier.
pub fn clone_opt_id(id: &Option<NodeId>) -> (r: Option<NodeId>)
    ensures
        r == *id,
{
    match id {
        Some(x) => Some(x.clone()),
        None => None,
    }
}

impl PartialEq for NodeId {
    fn eq(&self, other: &NodeId) -> (r: bool) {
        self.0 == other.0
    }
}

impl vstd::std_specs::cmp::PartialEqSpecImpl for NodeId {
    open spec fn obeys_eq_spec() -> bool {
        true
    }

    open spec fn eq_spec(&self, other: &NodeId) -> bool {
        self.0@ == other.0@
    }
}

/// Whether `s` holds the character `c`.
pub open spec fn holds_char(s: Seq<char>, c: char) -> bool {
    exists|i: int| 0 <= i < s.len() && s[i] == c
}

/// `p` is the text of `s` before its first colon.
pub open spec fn is_prefix_before_colon(s: Seq<char>, p: Seq<char>) -> bool {
    &&& p.len() < s.len()
    &&& s[p.len() as int] == ':'
    &&& s.subrange(0, p.len() as int) == p
    &&& !holds_char(p, ':')
}

/// The index of the first `c` in `s`, if any.
fn find_char(s: &str, c: char) -> (r: Option<usize>)
    ensures
        match r {
            Some(i) => i < s@.len() && s@[i as int] == c && !holds_char(s@.subrange(0, i as int), c),
            None => !holds_char(s@, c),
        },
{
    let n = s.unicode_len();
    let mut i: usize = 0;
    while i < n
        invariant
            n == s@.len(),
            i <= n,
            forall|j: int| 0 <= j < i ==> s@[j] != c,
        decreases n - i,
    {
        if s.get_char(i) == c {
            return Some(i);
        }
        i = i + 1;
    }
    None
}

impl NodeId {
    /// A fresh random identifier: a hyphenated version-4 UUID.
    pub fn new() -> (r: Self)
        ensures
            is_uuid_text(r.0@),
    {
        NodeId(fresh_uuid_text())
    }

    /// The identifier with the given text, as read back from storage.
    pub fn from_string(id: String) -> (r: Self)
        ensures
            r.0 == id,
    {
        NodeId(id)
    }

    /// The text of the identifier.
    pub fn as_str(&self) -> (r: &str)
        ensures
            r@ == self.0@,
    {
        self.0.as_str()
    }

    /// The text of the identifier, as an owned string.
    pub fn to_string_legacy(&self) -> (r: String)
        ensures
            r@ == self.0@,
    {
        self.0.clone()
    }

    /// The text of the identifier, as an owned string.
    pub fn to_string(&self) -> (r: String)
        ensures
            r@ == self.0@,
    {
        self.0.clone()
    }

    /// A fresh identifier of the form `prefix:uuid`.
    pub fn with_prefix(prefix: &str) -> (r: Self)
        ensures
            r.0@.len() == prefix@.len() + 37,
            r.0@.subrange(0, prefix@.len() as int) == prefix@,
            r.0@[prefix@.len() as int] == ':',
            is_uuid_text(r.0@.subrange(prefix@.len() as int + 1, r.0@.len() as int)),
    {
        let uuid = fresh_uuid_text();
        let text = String::from_str(prefix).concat(":").concat(uuid.as_str());
        proof {
            reveal_strlit(":");
            assert(text@.subrange(0, prefix@.len() as int) =~= prefix@);
            assert(text@.subrange(prefix@.len() as int + 1, text@.len() as int) =~= uuid@);
        }
        NodeId(text)
    }

    /// The text before the first colon, when the identifier holds one.
    pub fn prefix(&self) -> (r: Option<&str>)
        ensures
            match r {
                Some(p) => is_prefix_before_colon(self.0@, p@),
                None => !holds_char(self.0@, ':'),
            },
    {
        let text = self.0.as_str();
        match find_char(text, ':') {
            Some(i) => Some(text.substring_char(0, i)),
            None => None,
        }
    }

    /// A fresh random identifier, as `new` makes it.
    pub fn new_fast() -> (r: Self)
        ensures
            is_uuid_text(r.0@),
    {
        Self::new()
    }
}

impl Default for NodeId {
    fn default() -> (r: Self)
        ensures
            is_uuid_text(r.0@),
    {
        Self::new()
    }
}

impl From<String> for NodeId {
    fn from(id: String) -> (r: NodeId) {
        NodeId(id)
    }
}

impl vstd::std_specs::convert::FromSpecImpl<String> for NodeId {
    open spec fn obeys_from_spec() -> bool {
        true
    }

    open spec fn from_spec(id: String) -> NodeId {
        NodeId(id)
    }
}

/// An identifier made by `new` holds no colon, so it has no prefix.
pub proof fn lemma_uuid_has_no_colon(s: Seq<char>)
    requires
        is_uuid_text(s),
    ensures
        !holds_char(s, ':'),
{
}

} // verus!
