//! Property-list nodes: the dynamically typed values that the dynamic store and
//! the preferences hold. A node must be narrowed to its runtime type before it
//! is read; every narrowing returns `None` on a type mismatch.
use crate::handle::ObjectKind;
use crate::text::chars_equal;
use vstd::prelude::*;

verus! {

/// One node of a property list.
#[derive(Debug, PartialEq)]
pub enum PropertyList {
    String(String),
    Number(i64),
    Boolean(bool),
    Data(Vec<u8>),
    Array(Vec<PropertyList>),
    /// Key/value pairs; the framework keeps keys unique.
    Dictionary(Vec<(String, PropertyList)>),
}

/// The runtime type of a node.
pub open spec fn node_kind(p: PropertyList) -> ObjectKind {
    match p {
        PropertyList::String(_) => ObjectKind::String,
        PropertyList::Number(_) => ObjectKind::Number,
        PropertyList::Boolean(_) => ObjectKind::Boolean,
        PropertyList::Data(_) => ObjectKind::Data,
        PropertyList::Array(_) => ObjectKind::Array,
        PropertyList::Dictionary(_) => ObjectKind::Dictionary,
    }
}

/// The value of the first entry whose key is `key`.
pub open spec fn lookup(entries: Seq<(String, PropertyList)>, key: Seq<char>) -> Option<
    PropertyList,
>
    decreases entries.len(),
{
    if entries.len() == 0 {
        None
    } else if entries[0].0@ == key {
        Some(entries[0].1)
    } else {
        lookup(entries.drop_first(), key)
    }
}

/// The value under `key` when `p` is a dictionary; `None` for any other node.
pub open spec fn dictionary_lookup(p: PropertyList, key: Seq<char>) -> Option<PropertyList> {
    match p {
        PropertyList::Dictionary(entries) => lookup(entries@, key),
        _ => None,
    }
}

/// Whether every item is a string node.
pub open spec fn all_strings(items: Seq<PropertyList>) -> bool {
    forall|i: int| 0 <= i < items.len() ==> #[trigger] items[i] is String
}

/// The text of a string node; empty for any other node.
pub open spec fn string_text(p: PropertyList) -> Seq<char> {
    match p {
        PropertyList::String(s) => s@,
        _ => Seq::empty(),
    }
}

impl PropertyList {
    /// The runtime type of this node.
    pub fn kind(&self) -> (r: ObjectKind)
        ensures
            r == node_kind(*self),
    {
        match self {
            PropertyList::String(_) => ObjectKind::String,
            PropertyList::Number(_) => ObjectKind::Number,
            PropertyList::Boolean(_) => ObjectKind::Boolean,
            PropertyList::Data(_) => ObjectKind::Data,
            PropertyList::Array(_) => ObjectKind::Array,
            PropertyList::Dictionary(_) => ObjectKind::Dictionary,
        }
    }

    /// The string this node holds, if it is a string.
    pub fn as_string(&self) -> (r: Option<&String>)
        ensures
            r is Some <==> *self is String,
            r matches Some(s) ==> *self == PropertyList::String(*s),
    {
        match self {
            PropertyList::String(s) => Some(s),
            _ => None,
        }
    }

    /// The number this node holds, if it is a number.
    pub fn as_number(&self) -> (r: Option<i64>)
        ensures
            r is Some <==> *self is Number,
            r matches Some(n) ==> *self == PropertyList::Number(n),
    {
        match self {
            PropertyList::Number(n) => Some(*n),
            _ => None,
        }
    }

    /// The boolean this node holds, if it is a boolean.
    pub fn as_boolean(&self) -> (r: Option<bool>)
        ensures
            r is Some <==> *self is Boolean,
            r matches Some(b) ==> *self == PropertyList::Boolean(b),
    {
        match self {
            PropertyList::Boolean(b) => Some(*b),
            _ => None,
        }
    }

    /// The bytes this node holds, if it is data.
    pub fn as_data(&self) -> (r: Option<&Vec<u8>>)
        ensures
            r is Some <==> *self is Data,
            r matches Some(bytes) ==> *self == PropertyList::Data(*bytes),
    {
        match self {
            PropertyList::Data(bytes) => Some(bytes),
            _ => None,
        }
    }

    /// The items of this node, if it is an array.
    pub fn as_array(&self) -> (r: Option<&Vec<PropertyList>>)
        ensures
            r is Some <==> *self is Array,
            r matches Some(items) ==> *self == PropertyList::Array(*items),
    {
        match self {
            PropertyList::Array(items) => Some(items),
            _ => None,
        }
    }

    /// The entries of this node, if it is a dictionary.
    pub fn as_dictionary(&self) -> (r: Option<&Vec<(String, PropertyList)>>)
        ensures
            r is Some <==> *self is Dictionary,
            r matches Some(entries) ==> *self == PropertyList::Dictionary(*entries),
    {
        match self {
            PropertyList::Dictionary(entries) => Some(entries),
            _ => None,
        }
    }

    /// The value under `key`, if this node is a dictionary that has the key.
    pub fn get(&self, key: &str) -> (r: Option<&PropertyList>)
        ensures
            r is Some <==> dictionary_lookup(*self, key@) is Some,
            r matches Some(v) ==> dictionary_lookup(*self, key@) == Some(*v),
    {
        match self {
            PropertyList::Dictionary(entries) => {
                let n = entries.len();
                let mut i: usize = 0;
                assert(entries@.subrange(0, n as int) =~= entries@);
                while i < n
                    invariant
                        *self == PropertyList::Dictionary(*entries),
                        n == entries@.len(),
                        i <= n,
                        lookup(entries@, key@) == lookup(entries@.subrange(i as int, n as int), key@),
                    decreases n - i,
                {
                    let ghost rest = entries@.subrange(i as int, n as int);
                    assert(rest.len() > 0 && rest[0] == entries@[i as int]);
                    if chars_equal(entries[i].0.as_str(), key) {
                        assert(lookup(rest, key@) == Some(entries@[i as int].1));
                        return Some(&entries[i].1);
                    }
                    assert(rest.drop_first() =~= entries@.subrange(i + 1, n as int));
                    i = i + 1;
                }
                None
            },
            _ => None,
        }
    }

    /// The string under `key`, if this node is a dictionary whose value under
    /// `key` is a string.
    pub fn get_string(&self, key: &str) -> (r: Option<&String>)
        ensures
            r is Some <==> (dictionary_lookup(*self, key@) matches Some(v) && v is String),
            r matches Some(s) ==> dictionary_lookup(*self, key@) == Some(
                PropertyList::String(*s),
            ),
    {
        match self.get(key) {
            Some(v) => v.as_string(),
            None => None,
        }
    }

    /// The texts of this node's items, if it is an array of strings only.
    pub fn string_list(&self) -> (r: Option<Vec<String>>)
        ensures
            r is Some <==> (*self matches PropertyList::Array(items) && all_strings(items@)),
            r matches Some(v) ==> (*self matches PropertyList::Array(items) && v@.len()
                == items@.len() && forall|i: int|
                0 <= i < v@.len() ==> #[trigger] v@[i]@ == string_text(items@[i])),
    {
        match self {
            PropertyList::Array(items) => {
                let n = items.len();
                let mut out: Vec<String> = Vec::new();
                let mut i: usize = 0;
                while i < n
                    invariant
                        *self == PropertyList::Array(*items),
                        n == items@.len(),
                        i <= n,
                        out@.len() == i,
                        forall|j: int| 0 <= j < i ==> #[trigger] items@[j] is String,
                        forall|j: int|
                            0 <= j < i ==> #[trigger] out@[j]@ == string_text(items@[j]),
                    decreases n - i,
                {
                    match &items[i] {
                        PropertyList::String(s) => {
                            out.push(s.clone());
                        },
                        _ => {
                            assert(!(items@[i as int] is String));
                            return None;
                        },
                    }
                    i = i + 1;
                }
                Some(out)
            },
            _ => None,
        }
    }

    /// An array node of string nodes, one for each of `texts`, in order.
    pub fn from_strings(texts: &Vec<String>) -> (r: PropertyList)
        ensures
            r matches PropertyList::Array(items) && items@.len() == texts@.len() && forall|
                i: int,
            |
                0 <= i < texts@.len() ==> #[trigger] items@[i] == PropertyList::String(
                    texts@[i],
                ),
    {
        let n = texts.len();
        let mut items: Vec<PropertyList> = Vec::new();
        let mut i: usize = 0;
        while i < n
            invariant
                n == texts@.len(),
                i <= n,
                items@.len() == i,
                forall|j: int|
                    0 <= j < i ==> #[trigger] items@[j] == PropertyList::String(texts@[j]),
            decreases n - i,
        {
            items.push(PropertyList::String(texts[i].clone()));
            i = i + 1;
        }
        PropertyList::Array(items)
    }
}

} // verus!
