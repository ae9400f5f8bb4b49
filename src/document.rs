//! The document model: a tree of mappings, sequences and scalars.
use vstd::prelude::*;

verus! {

/// A parsed document value.
pub enum Node {
    Null,
    Bool(bool),
    /// A number, kept as its text.
    Number(String),
    Text(String),
    Sequence(Vec<Node>),
    /// A mapping, with its entries in document order.
    Mapping(Vec<Entry>),
    /// A value carrying an explicit tag, such as `!poem`.
    Tagged { tag: String, value: Box<Node> },
}

/// One key-value pair of a mapping.
pub struct Entry {
    pub key: Node,
    pub value: Node,
}

/// Whether `key` is the text `name`.
pub open spec fn key_is(key: Node, name: Seq<char>) -> bool {
    key matches Node::Text(s) && s@ == name
}

/// The value of the first entry at or after `i` whose key is the text `name`.
pub open spec fn field_from(entries: Seq<Entry>, name: Seq<char>, i: int) -> Option<Node>
    decreases entries.len() - i,
{
    if i < 0 || i >= entries.len() {
        None
    } else if key_is(entries[i].key, name) {
        Some(entries[i].value)
    } else {
        field_from(entries, name, i + 1)
    }
}

/// The node under any tags that `node` carries.
pub open spec fn untag(node: Node) -> Node
    decreases node,
{
    match node {
        Node::Tagged { value, .. } => untag(*value),
        _ => node,
    }
}

/// The field `name` of a mapping, looked up under its tags; a node that is no
/// mapping has no fields.
pub open spec fn get_field(node: Node, name: Seq<char>) -> Option<Node> {
    match untag(node) {
        Node::Mapping(entries) => field_from(entries@, name, 0),
        _ => None,
    }
}

/// How a key is named in messages: scalars by their text, collections by
/// their kind.
pub open spec fn key_label(key: Node) -> Seq<char> {
    match key {
        Node::Null => "null"@,
        Node::Bool(b) => if b { "true"@ } else { "false"@ },
        Node::Number(s) => s@,
        Node::Text(s) => s@,
        Node::Sequence(_) => "sequence"@,
        Node::Mapping(_) => "mapping"@,
        Node::Tagged { .. } => "tagged value"@,
    }
}

impl Node {
    /// The label under which this node, used as a key, is named in messages.
    pub fn label(&self) -> (r: String)
        ensures
            r@ == key_label(*self),
    {
        match self {
            Node::Null => String::from_str("null"),
            Node::Bool(b) => if *b { String::from_str("true") } else { String::from_str("false") },
            Node::Number(s) => s.clone(),
            Node::Text(s) => s.clone(),
            Node::Sequence(_) => String::from_str("sequence"),
            Node::Mapping(_) => String::from_str("mapping"),
            Node::Tagged { .. } => String::from_str("tagged value"),
        }
    }

    /// This node under any tags it carries.
    pub fn untagged(&self) -> (r: &Node)
        ensures
            *r == untag(*self),
        decreases self,
    {
        match self {
            Node::Tagged { value, .. } => value.untagged(),
            _ => self,
        }
    }

    /// The index, among the entries of this mapping (looked up under its
    /// tags), of the field `name`.
    pub fn find_field(&self, name: &String) -> (r: Option<usize>)
        ensures
            match r {
                Some(i) => untag(*self) matches Node::Mapping(es) && i < es@.len() && get_field(
                    *self,
                    name@,
                ) == Some(es@[i as int].value),
                None => get_field(*self, name@) is None,
            },
    {
        match self.untagged() {
            Node::Mapping(entries) => {
                let mut i: usize = 0;
                while i < entries.len()
                    invariant
                        i <= entries@.len(),
                        untag(*self) == Node::Mapping(*entries),
                        field_from(entries@, name@, 0) == field_from(entries@, name@, i as int),
                    decreases entries@.len() - i,
                {
                    let matched = match &entries[i].key {
                        Node::Text(s) => *s == *name,
                        _ => false,
                    };
                    if matched {
                        return Some(i);
                    }
                    i = i + 1;
                }
                None
            },
            _ => None,
        }
    }
}

} // verus!
