use vstd::prelude::*;

verus! {

/// A self-describing tree value: the opaque payload carried in node content
/// and metadata.
///
/// Floating-point numbers are held as their IEEE-754 binary64 bit pattern.
#[derive(Debug)]
pub enum JsonValue {
    Null,
    Bool(bool),
    /// A non-negative integer.
    UInt(u64),
    /// A signed integer.
    Int(i64),
    /// A binary64 number, as its bit pattern.
    Float(u64),
    Str(String),
    Array(Vec<JsonValue>),
    /// Key/value entries in insertion order.
    Object(Vec<(String, JsonValue)>),
}

/// The value of the first entry whose key is `key`.
pub open spec fn lookup(entries: Seq<(String, JsonValue)>, key: Seq<char>) -> Option<JsonValue>
    decreases entries.len(),
{
    if entries.len() == 0 {
        None
    } else if entries[0].0@ == key {
        Some(entries[0].1)
    } else {
        lookup(entries.drop_first(), key)
    }
}

/// No two pairs share a key: what a map keyed by text holds.
pub open spec fn distinct_keys<V>(pairs: Seq<(String, V)>) -> bool {
    forall|i: int, j: int| 0 <= i < j < pairs.len() ==> pairs[i].0@ != pairs[j].0@
}

/// The value stored under `key` when `v` is an object.
pub open spec fn field(v: JsonValue, key: Seq<char>) -> Option<JsonValue> {
    match v {
        JsonValue::Object(entries) => lookup(entries@, key),
        _ => None,
    }
}

/// The text of `v` when it is a string.
pub open spec fn text_of(v: JsonValue) -> Option<Seq<char>> {
    match v {
        JsonValue::Str(s) => Some(s@),
        _ => None,
    }
}

/// The index of the first entry keyed `key`, if any.
fn find_key(entries: &Vec<(String, JsonValue)>, key: &str) -> (r: Option<usize>)
    ensures
        match r {
            Some(i) => i < entries@.len() && lookup(entries@, key@) == Some(entries@[i as int].1),
            None => lookup(entries@, key@) is None,
        },
{
    let target = String::from_str(key);
    let mut i: usize = 0;
    assert(entries@.skip(0) =~= entries@);
    while i < entries.len()
        invariant
            i <= entries@.len(),
            target@ == key@,
            lookup(entries@, key@) == lookup(entries@.skip(i as int), key@),
        decreases entries@.len() - i,
    {
        assert(entries@.skip(i as int).drop_first() =~= entries@.skip(i as int + 1));
        if entries[i].0 == target {
            return Some(i);
        }
        i = i + 1;
    }
    None
}

impl Clone for JsonValue {
    #[verifier::loop_isolation(false)]
    fn clone(&self) -> (r: JsonValue)
        decreases self,
    {
        match self {
            JsonValue::Null => JsonValue::Null,
            JsonValue::Bool(b) => JsonValue::Bool(*b),
            JsonValue::UInt(n) => JsonValue::UInt(*n),
            JsonValue::Int(n) => JsonValue::Int(*n),
            JsonValue::Float(bits) => JsonValue::Float(*bits),
            JsonValue::Str(s) => JsonValue::Str(s.clone()),
            JsonValue::Array(items) => {
                let mut out: Vec<JsonValue> = Vec::new();
                let mut i: usize = 0;
                while i < items.len()
                    invariant
                        i <= items@.len(),
                    decreases items@.len() - i,
                {
                    proof {
                        assert(decreases_to!(items => items[i as int]));
                        assert(decreases_to!(self => items[i as int]));
                    }
                    out.push(items[i].clone());
                    i = i + 1;
                }
                JsonValue::Array(out)
            },
            JsonValue::Object(entries) => {
                let mut out: Vec<(String, JsonValue)> = Vec::new();
                let mut i: usize = 0;
                while i < entries.len()
                    invariant
                        i <= entries@.len(),
                    decreases entries@.len() - i,
                {
                    proof {
                        assert(decreases_to!(entries => entries[i as int]));
                        assert(decreases_to!(self => entries[i as int].1));
                    }
                    let entry = &entries[i];
                    out.push((entry.0.clone(), entry.1.clone()));
                    i = i + 1;
                }
                JsonValue::Object(out)
            },
        }
    }
}

impl JsonValue {
    /// The value stored under `key`, when `self` is an object that has it.
    pub fn get(&self, key: &str) -> (r: Option<&JsonValue>)
        ensures
            match r {
                Some(v) => field(*self, key@) == Some(*v),
                None => field(*self, key@) is None,
            },
    {
        match self {
            JsonValue::Object(entries) => {
                match find_key(entries, key) {
                    Some(i) => Some(&entries[i].1),
                    None => None,
                }
            },
            _ => None,
        }
    }

    /// The text of a string value.
    pub fn as_str(&self) -> (r: Option<&str>)
        ensures
            match r {
                Some(s) => text_of(*self) == Some(s@),
                None => text_of(*self) is None,
            },
    {
        match self {
            JsonValue::Str(s) => Some(s.as_str()),
            _ => None,
        }
    }

    /// Whether the value is a string whose text is `expected`.
    pub fn is_text(&self, expected: &str) -> (r: bool)
        ensures
            r == (text_of(*self) == Some(expected@)),
    {
        match self {
            JsonValue::Str(s) => {
                let e = String::from_str(expected);
                *s == e
            },
            _ => false,
        }
    }
}

/// The first entry keyed `key` is the one `lookup` finds.
pub proof fn lemma_lookup_first(entries: Seq<(String, JsonValue)>, k: int, key: Seq<char>)
    requires
        0 <= k < entries.len(),
        entries[k].0@ == key,
        forall|j: int| 0 <= j < k ==> (#[trigger] entries[j]).0@ != key,
    ensures
        lookup(entries, key) == Some(entries[k].1),
    decreases k,
{
    if k > 0 {
        let rest = entries.drop_first();
        assert forall|j: int| 0 <= j < k - 1 implies (#[trigger] rest[j]).0@ != key by {
            assert(rest[j] == entries[j + 1]);
        }
        lemma_lookup_first(rest, k - 1, key);
    }
}

/// In an object whose keys are pairwise distinct, each key finds its own
/// entry.
pub proof fn lemma_lookup_keys(entries: Seq<(String, JsonValue)>, keys: Seq<Seq<char>>)
    requires
        entries.len() == keys.len(),
        forall|i: int| 0 <= i < keys.len() ==> (#[trigger] entries[i]).0@ == keys[i],
        forall|i: int, j: int| 0 <= i < j < keys.len() ==> keys[i] != keys[j],
    ensures
        forall|k: int| 0 <= k < keys.len() ==> lookup(entries, keys[k]) == Some((#[trigger] entries[k]).1),
{
    assert forall|k: int| 0 <= k < keys.len() implies lookup(entries, keys[k]) == Some(
        (#[trigger] entries[k]).1,
    ) by {
        assert forall|j: int| 0 <= j < k implies (#[trigger] entries[j]).0@ != keys[k] by {
            assert(entries[j].0@ == keys[j]);
        }
        lemma_lookup_first(entries, k, keys[k]);
    }
}

} // verus!
