//! The store's view of a YAML document.
//!
//! A profile file and the pointer file only ever hold a top-level mapping
//! whose values are strings or one-level mappings of strings.  A parsed
//! document is therefore kept as a tagged variant over exactly those shapes,
//! with every other YAML value collapsed into `Other`: the resolver decides
//! for itself, without aborting, what to do with a shape it does not expect.
//! A mapping key or credential value that is not a string is kept as `None`.

use vstd::prelude::*;
use yaml_rust::yaml::Yaml;
use yaml_rust::YamlLoader;

verus! {

/// A value found under a key of the top-level mapping.
pub enum Node {
    /// A string scalar.
    Str(String),
    /// A mapping; each entry's key and value are `Some` string or `None`
    /// for any other YAML value.
    Table(Vec<(Option<String>, Option<String>)>),
    /// Anything else: a number, a boolean, a sequence, null.
    Other,
}

/// A parsed document.
pub enum Doc {
    /// The text is not well-formed YAML.
    Invalid,
    /// The text holds no document at all.
    Empty,
    /// The last document's top level is not a mapping.
    NotMap,
    /// The last document's top level is a mapping, entries in document order.
    Table(Vec<(Option<String>, Node)>),
}

/// The mathematical form of a `Node`.
#[verifier::ext_equal]
pub enum NodeV {
    Str(Seq<char>),
    Table(Seq<(Option<Seq<char>>, Option<Seq<char>>)>),
    Other,
}

/// The mathematical form of a `Doc`.
#[verifier::ext_equal]
pub enum DocV {
    Invalid,
    Empty,
    NotMap,
    Table(Seq<(Option<Seq<char>>, NodeV)>),
}

pub open spec fn opt_str_view(o: Option<String>) -> Option<Seq<char>> {
    match o {
        Some(s) => Some(s@),
        None => None,
    }
}

/// The mathematical form of a credential table's entries.
pub open spec fn cred_entries_view(es: Vec<(Option<String>, Option<String>)>) -> Seq<
    (Option<Seq<char>>, Option<Seq<char>>),
> {
    es@.map_values(
        |e: (Option<String>, Option<String>)| (opt_str_view(e.0), opt_str_view(e.1)),
    )
}

/// The mathematical form of a document's top-level entries.
pub open spec fn doc_entries_view(es: Vec<(Option<String>, Node)>) -> Seq<
    (Option<Seq<char>>, NodeV),
> {
    es@.map_values(|e: (Option<String>, Node)| (opt_str_view(e.0), e.1@))
}

impl View for Node {
    type V = NodeV;

    open spec fn view(&self) -> NodeV {
        match self {
            Node::Str(s) => NodeV::Str(s@),
            Node::Table(es) => NodeV::Table(cred_entries_view(*es)),
            Node::Other => NodeV::Other,
        }
    }
}

impl View for Doc {
    type V = DocV;

    open spec fn view(&self) -> DocV {
        match self {
            Doc::Invalid => DocV::Invalid,
            Doc::Empty => DocV::Empty,
            Doc::NotMap => DocV::NotMap,
            Doc::Table(es) => DocV::Table(doc_entries_view(*es)),
        }
    }
}

/// The document that YAML parsing gives for a text.  The result depends on
/// the characters of the text alone.
pub uninterp spec fn doc_of(s: Seq<char>) -> DocV;

/// Relies on `yaml_rust::YamlLoader::load_from_str` and `Yaml::into_string`:
/// parsing is a function of the text alone; the last document of the stream
/// is taken, as the resolver wants it; a hash iterates in document order;
/// `into_string` is `Some` exactly on a string scalar.
#[verifier::external_body]
pub(crate) fn parse_doc(text: &str) -> (r: Doc)
    ensures
        r@ == doc_of(text@),
{
    let mut docs = match YamlLoader::load_from_str(text) {
        Ok(d) => d,
        Err(_) => return Doc::Invalid,
    };
    let top = match docs.pop() {
        Some(Yaml::Hash(h)) => h,
        Some(_) => return Doc::NotMap,
        None => return Doc::Empty,
    };
    Doc::Table(top.into_iter().map(|(k, v)| (k.into_string(), match v {
        Yaml::String(s) => Node::Str(s),
        Yaml::Hash(m) => Node::Table(m.into_iter().map(|(q, w)| (q.into_string(), w.into_string())).collect()),
        _ => Node::Other,
    })).collect())
}

} // verus!
