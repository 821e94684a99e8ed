//! YAML values as plain data: the lookups that configuration code needs, and
//! the reading of a text into such values by yaml-rust.

use vstd::prelude::*;
use yaml_rust::{ScanError, Yaml, YamlLoader};

verus! {

/// A YAML value.
///
/// A hash is a list of entries in a fixed order. A lookup takes the first
/// entry under a key.
#[derive(Debug, PartialEq, Eq)]
pub enum Node {
    /// A floating-point scalar, kept as it is written.
    Real(String),
    /// An integer scalar.
    Integer(i64),
    /// A string scalar.
    String(String),
    /// `true` or `false`.
    Boolean(bool),
    /// A sequence.
    Array(Vec<Node>),
    /// A mapping, as its entries: key first, value second.
    Hash(Vec<(Node, Node)>),
    /// A reference to an anchor.
    Alias(usize),
    /// `null` or `~`.
    Null,
    /// What stands where a value is missing or could not be read.
    BadValue,
}

/// Whether `node` is the string scalar `key`.
pub open spec fn is_key(node: Node, key: Seq<char>) -> bool {
    node matches Node::String(s) && s@ == key
}

/// Whether `i` is the position of the first entry of `entries` under the
/// string key `key`.
pub open spec fn first_under(entries: Seq<(Node, Node)>, key: Seq<char>, i: int) -> bool {
    &&& 0 <= i < entries.len()
    &&& is_key(entries[i].0, key)
    &&& forall|j: int| 0 <= j < i ==> !is_key(#[trigger] entries[j].0, key)
}

/// The lookup of a key gives the value of the first entry under it.
pub proof fn lemma_entry_at(node: Node, key: Seq<char>, i: int)
    requires
        first_under(node.entries(), key, i),
    ensures
        node.entry(key) == Some(node.entries()[i].1),
{
    let entries = node.entries();
    let chosen = choose|k: int| first_under(entries, key, k);
    assert(first_under(entries, key, chosen));
    if chosen < i {
        assert(!is_key(entries[chosen].0, key));
    } else if i < chosen {
        assert(!is_key(entries[i].0, key));
    }
}

impl Node {
    /// The entries of a hash; no entries for any other node.
    pub open spec fn entries(self) -> Seq<(Node, Node)> {
        match self {
            Node::Hash(entries) => entries@,
            _ => Seq::empty(),
        }
    }

    /// The value of the first entry under the string key `key`, where there
    /// is one.
    pub open spec fn entry(self, key: Seq<char>) -> Option<Node> {
        let entries = self.entries();
        if exists|i: int| first_under(entries, key, i) {
            Some(entries[choose|i: int| first_under(entries, key, i)].1)
        } else {
            None
        }
    }

    /// The value under the string key `key`; `BadValue` where the node is no
    /// hash or has no such key.
    pub open spec fn child(self, key: Seq<char>) -> Node {
        match self.entry(key) {
            Some(value) => value,
            None => Node::BadValue,
        }
    }

    /// The text of a string scalar.
    pub open spec fn text(self) -> Option<Seq<char>> {
        match self {
            Node::String(s) => Some(s@),
            _ => None,
        }
    }

    /// The number of an integer scalar.
    pub open spec fn integer(self) -> Option<i64> {
        match self {
            Node::Integer(v) => Some(v),
            _ => None,
        }
    }

    /// Looks up the value under the string key `key`.
    pub fn get<'a>(&'a self, key: &str) -> (found: Option<&'a Node>)
        ensures
            found matches Some(value) ==> self.entry(key@) == Some(*value),
            found is None ==> self.entry(key@) is None,
    {
        match self {
            Node::Hash(entries) => {
                let wanted = key.to_owned();
                let mut i: usize = 0;
                while i < entries.len()
                    invariant
                        i <= entries.len(),
                        wanted@ == key@,
                        self.entries() == entries@,
                        forall|j: int| 0 <= j < i ==> !is_key(#[trigger] entries@[j].0, key@),
                    decreases entries.len() - i,
                {
                    match &entries[i].0 {
                        Node::String(s) => {
                            if *s == wanted {
                                proof {
                                    lemma_entry_at(*self, key@, i as int);
                                }
                                return Some(&entries[i].1);
                            }
                        },
                        _ => {},
                    }
                    i += 1;
                }
                None
            },
            _ => None,
        }
    }

    /// The text of a string scalar, `None` for any other node.
    pub fn as_str(&self) -> (text: Option<&str>)
        ensures
            text matches Some(s) ==> self.text() == Some(s@),
            text is None ==> self.text() is None,
    {
        match self {
            Node::String(s) => Some(s.as_str()),
            _ => None,
        }
    }

    /// The number of an integer scalar, `None` for any other node.
    pub fn as_i64(&self) -> (number: Option<i64>)
        ensures
            number == self.integer(),
    {
        match self {
            Node::Integer(v) => Some(*v),
            _ => None,
        }
    }

    /// Whether the node is `BadValue`.
    pub fn is_badvalue(&self) -> (bad: bool)
        ensures
            bad == (self is BadValue),
    {
        match self {
            Node::BadValue => true,
            _ => false,
        }
    }
}

/// The diagnostic of yaml-rust's scanner and parser: the place of a fault in
/// the text and what is wrong there. It is carried as it comes; nothing is
/// known of what it holds.
#[verifier::external_type_specification]
#[verifier::external_body]
pub struct ExScanError(yaml_rust::ScanError);

/// A value as yaml-rust builds it. Nothing is known of it but what
/// `yaml_node` names.
#[verifier::external_type_specification]
#[verifier::external_body]
pub struct ExYaml(yaml_rust::Yaml);

/// What a value of yaml-rust holds: the same variant with the same fields, a
/// hash as its entries in the order in which its map walks them.
pub uninterp spec fn yaml_node(value: Yaml) -> Node;

/// What `yaml_rust::YamlLoader::load_from_str` reads from `text`: the
/// documents of the stream in their order, each as what it holds, or the
/// diagnostic of the first fault in the text.
pub uninterp spec fn yaml_documents(text: Seq<char>) -> Result<Seq<Node>, ScanError>;

/// What each of `values` holds.
pub open spec fn nodes_of(values: Seq<Yaml>) -> Seq<Node> {
    values.map_values(|value: Yaml| yaml_node(value))
}

/// What a result of the loader holds: each document as what it holds, or the
/// diagnostic as it is.
pub open spec fn held(loaded: Result<Vec<Yaml>, ScanError>) -> Result<Seq<Node>, ScanError> {
    match loaded {
        Ok(values) => Ok(nodes_of(values@)),
        Err(fault) => Err(fault),
    }
}

/// `yaml_rust::YamlLoader::load_from_str` is taken to be a function of the
/// text alone: whenever it returns, what it returns holds `yaml_documents` of
/// the text.
///
/// Nothing more is claimed. The loader descends once for each level of
/// nesting, so how deep a text may nest before the call runs out of stack is
/// a matter of the machine and not of this contract.
pub assume_specification[ yaml_rust::YamlLoader::load_from_str ](source: &str) -> (loaded: Result<
    Vec<Yaml>,
    ScanError,
>)
    ensures
        held(loaded) == yaml_documents(source@),
;

/// Copies a value of yaml-rust into a `Node`, variant by variant and field by
/// field. The copy is taken to be `yaml_node` of the value.
#[verifier::external_body]
fn node_of(value: &Yaml) -> (node: Node)
    ensures
        node == yaml_node(*value),
{
    match value {
        Yaml::Real(text) => Node::Real(text.clone()),
        Yaml::Integer(number) => Node::Integer(*number),
        Yaml::String(text) => Node::String(text.clone()),
        Yaml::Boolean(flag) => Node::Boolean(*flag),
        Yaml::Array(items) => Node::Array(items.iter().map(node_of).collect()),
        Yaml::Hash(map) => Node::Hash(map.iter().map(|(k, v)| (node_of(k), node_of(v))).collect()),
        Yaml::Alias(anchor) => Node::Alias(*anchor),
        Yaml::Null => Node::Null,
        Yaml::BadValue => Node::BadValue,
    }
}

/// A stream that was read, or that could not be read, as values.
pub open spec fn stream_of(loaded: Result<Vec<Node>, ScanError>) -> Result<Seq<Node>, ScanError> {
    match loaded {
        Ok(nodes) => Ok(nodes@),
        Err(fault) => Err(fault),
    }
}

/// Reads the YAML stream `text`: all its documents in their order, or the
/// diagnostic of the first fault in the text.
pub fn load(text: &str) -> (loaded: Result<Vec<Node>, ScanError>)
    ensures
        stream_of(loaded) == yaml_documents(text@),
{
    match YamlLoader::load_from_str(text) {
        Ok(values) => {
            let mut nodes: Vec<Node> = Vec::new();
            let mut i: usize = 0;
            while i < values.len()
                invariant
                    i <= values.len(),
                    nodes@ == nodes_of(values@.take(i as int)),
                decreases values.len() - i,
            {
                nodes.push(node_of(&values[i]));
                i += 1;
                assert(nodes@ =~= nodes_of(values@.take(i as int)));
            }
            assert(values@.take(i as int) =~= values@);
            Ok(nodes)
        },
        Err(fault) => Err(fault),
    }
}

} // verus!
