//! A plain-value model of parsed YAML documents and the accessors the agent
//! uses to read its configuration files.

use vstd::prelude::*;

verus! {

/// A YAML node, as produced by the YAML loader.
#[derive(Debug, PartialEq)]
pub enum YamlNode {
    /// A floating point scalar, kept as written.
    Real(String),
    /// An integer scalar.
    Integer(i64),
    /// A string scalar.
    Str(String),
    /// A boolean scalar.
    Boolean(bool),
    /// A sequence.
    Array(Vec<YamlNode>),
    /// A mapping, its entries in insertion order.
    Hash(Vec<(YamlNode, YamlNode)>),
    /// An alias to an anchor.
    Alias(usize),
    /// The null scalar.
    Null,
    /// The value of a missing key or an invalid conversion.
    BadValue,
}

#[verifier::external_type_specification]
#[verifier::external_body]
pub struct ExScanError(yaml_rust2::ScanError);

#[verifier::external_type_specification]
#[verifier::external_body]
pub struct ExYaml(yaml_rust2::Yaml);

/// The documents that the YAML loader reads from a text, or `None` where
/// the text does not scan.
pub uninterp spec fn yaml_load(text: Seq<char>) -> Option<Seq<YamlNode>>;

/// Converts a loaded YAML value into its plain model, variant for variant.
#[verifier::external_body]
fn node_from_yaml(y: yaml_rust2::Yaml) -> YamlNode {
    match y {
        yaml_rust2::Yaml::Real(s) => YamlNode::Real(s),
        yaml_rust2::Yaml::Integer(i) => YamlNode::Integer(i),
        yaml_rust2::Yaml::String(s) => YamlNode::Str(s),
        yaml_rust2::Yaml::Boolean(b) => YamlNode::Boolean(b),
        yaml_rust2::Yaml::Array(a) => YamlNode::Array(a.into_iter().map(node_from_yaml).collect()),
        yaml_rust2::Yaml::Hash(h) => YamlNode::Hash(
            h.into_iter().map(|(k, v)| (node_from_yaml(k), node_from_yaml(v))).collect(),
        ),
        yaml_rust2::Yaml::Alias(n) => YamlNode::Alias(n),
        yaml_rust2::Yaml::Null => YamlNode::Null,
        yaml_rust2::Yaml::BadValue => YamlNode::BadValue,
    }
}

/// Calls `yaml_rust2::YamlLoader::load_from_str`. Claimed: the documents
/// returned, or the failure, are those that `yaml_load` names for the text.
#[verifier::external_body]
pub(crate) fn load_yaml(text: &str) -> (res: Result<Vec<YamlNode>, yaml_rust2::ScanError>)
    ensures
        match res {
            Ok(docs) => yaml_load(text@) == Some(docs@),
            Err(_) => yaml_load(text@) is None,
        },
{
    yaml_rust2::YamlLoader::load_from_str(text).map(
        |docs| docs.into_iter().map(node_from_yaml).collect(),
    )
}

/// Calls `<yaml_rust2::ScanError as Display>::to_string`. Nothing is claimed
/// of the message.
#[verifier::external_body]
pub(crate) fn scan_error_message(e: &yaml_rust2::ScanError) -> String {
    e.to_string()
}

/// Whether a mapping key is the string `key`.
pub open spec fn is_str_key(k: YamlNode, key: Seq<char>) -> bool {
    k matches YamlNode::Str(s) && s@ == key
}

/// The value of the first mapping entry whose key is the string `key`, or
/// `BadValue` where there is none.
pub open spec fn hash_get(entries: Seq<(YamlNode, YamlNode)>, key: Seq<char>) -> YamlNode
    decreases entries.len(),
{
    if entries.len() == 0 {
        YamlNode::BadValue
    } else if is_str_key(entries[0].0, key) {
        entries[0].1
    } else {
        hash_get(entries.drop_first(), key)
    }
}

impl YamlNode {
    /// `self[key]`: the value under the string key `key` in a mapping, and
    /// `BadValue` for a missing key or a node that is not a mapping.
    pub open spec fn at(self, key: Seq<char>) -> YamlNode {
        match self {
            YamlNode::Hash(h) => hash_get(h@, key),
            _ => YamlNode::BadValue,
        }
    }

    /// Looks up the string key `key` in a mapping. `None` stands for `BadValue`.
    pub fn index(&self, key: &str) -> (r: Option<&YamlNode>)
        ensures
            match r {
                Some(n) => *n == self.at(key@),
                None => self.at(key@) == YamlNode::BadValue,
            },
    {
        match self {
            YamlNode::Hash(h) => {
                let mut i: usize = 0;
                assert(h@.skip(0) =~= h@);
                while i < h.len()
                    invariant
                        i <= h@.len(),
                        self.at(key@) == hash_get(h@, key@),
                        hash_get(h@, key@) == hash_get(h@.skip(i as int), key@),
                    decreases h.len() - i,
                {
                    proof {
                        assert(h@.skip(i as int).drop_first() =~= h@.skip(i + 1));
                    }
                    let entry = &h[i];
                    assert(h@.skip(i as int)[0] == h@[i as int]);
                    if let YamlNode::Str(s) = &entry.0 {
                        if crate::text::str_eq(s.as_str(), key) {
                            assert(is_str_key(h@.skip(i as int)[0].0, key@));
                            assert(h@.skip(i as int).len() > 0);
                            return Some(&entry.1);
                        }
                    }
                    i += 1;
                }
                None
            },
            _ => None,
        }
    }

    /// The string of a string scalar.
    pub fn as_str(&self) -> (r: Option<&String>)
        ensures
            match *self {
                YamlNode::Str(s) => r == Some(&s),
                _ => r is None,
            },
    {
        match self {
            YamlNode::Str(s) => Some(s),
            _ => None,
        }
    }

    /// The value of an integer scalar.
    pub fn as_i64(&self) -> (r: Option<i64>)
        ensures
            match *self {
                YamlNode::Integer(i) => r == Some(i),
                _ => r is None,
            },
    {
        match self {
            YamlNode::Integer(i) => Some(*i),
            _ => None,
        }
    }

    /// The value of a boolean scalar.
    pub fn as_bool(&self) -> (r: Option<bool>)
        ensures
            match *self {
                YamlNode::Boolean(b) => r == Some(b),
                _ => r is None,
            },
    {
        match self {
            YamlNode::Boolean(b) => Some(*b),
            _ => None,
        }
    }

    /// The items of a sequence.
    pub fn as_vec(&self) -> (r: Option<&Vec<YamlNode>>)
        ensures
            match *self {
                YamlNode::Array(a) => r == Some(&a),
                _ => r is None,
            },
    {
        match self {
            YamlNode::Array(a) => Some(a),
            _ => None,
        }
    }
}

} // verus!
