//! The resolver: keyed lookup inside a parsed document.
//!
//! The pointer file is read for its `profile` key; a profile document is
//! read for a service's credential mapping.  Both go through the same
//! first-match search over the document's top-level entries.

use vstd::prelude::*;
use crate::doc::{cred_entries_view, doc_entries_view, opt_str_view, Doc, DocV, Node, NodeV};

verus! {

/// The value under the first entry of `es` whose key is the string `key`,
/// if any.
pub open spec fn table_find<V>(es: Seq<(Option<Seq<char>>, V)>, key: Seq<char>) -> Option<V>
    decreases es.len(),
{
    if es.len() == 0 {
        None
    } else if es[0].0 == Some(key) {
        Some(es[0].1)
    } else {
        table_find(es.skip(1), key)
    }
}

/// Finds the value under `key` among a document's top-level entries.
pub fn doc_find<'a>(es: &'a Vec<(Option<String>, Node)>, key: &str) -> (r: Option<&'a Node>)
    ensures
        match r {
            Some(n) => table_find(doc_entries_view(*es), key@) == Some(n@),
            None => table_find(doc_entries_view(*es), key@) is None,
        },
{
    let keystr: String = key.to_owned();
    let mut r: Option<&'a Node> = None;
    let mut i: usize = es.len();
    while i > 0
        invariant
            i <= es.len(),
            keystr@ == key@,
            match r {
                Some(n) => table_find(doc_entries_view(*es).skip(i as int), key@) == Some(n@),
                None => table_find(doc_entries_view(*es).skip(i as int), key@) is None,
            },
        decreases i,
    {
        i = i - 1;
        proof {
            assert(doc_entries_view(*es).skip(i as int).skip(1) =~= doc_entries_view(*es).skip(
                i as int + 1,
            ));
        }
        let hit = match &es[i].0 {
            Some(k) => *k == keystr,
            None => false,
        };
        if hit {
            r = Some(&es[i].1);
        }
    }
    proof {
        assert(doc_entries_view(*es).skip(0) =~= doc_entries_view(*es));
    }
    r
}

/// The active profile's name as the pointer document gives it: the string
/// under the `profile` key of the top-level mapping, if the document has
/// that shape.
pub open spec fn pointer_name_of(d: DocV) -> Option<Seq<char>> {
    match d {
        DocV::Table(es) => match table_find(es, "profile"@) {
            Some(NodeV::Str(s)) => Some(s),
            _ => None,
        },
        _ => None,
    }
}

/// Extracts the active profile's name from a parsed pointer document.
pub fn pointer_profile(doc: &Doc) -> (r: Option<String>)
    ensures
        opt_str_view(r) == pointer_name_of(doc@),
{
    match doc {
        Doc::Table(es) => match doc_find(es, "profile") {
            Some(Node::Str(s)) => Some(s.clone()),
            _ => None,
        },
        _ => None,
    }
}

/// The outcome of looking a service up in a profile document.
pub enum Lookup {
    /// The service's credential pairs, in document order.
    Found(Vec<(String, String)>),
    /// The service is not listed, its value is not a mapping, or the top
    /// level is not a mapping.
    NotFound,
    /// The service's mapping holds a key or a value that is not a string.
    BadData,
}

/// The mathematical form of a `Lookup`.
#[verifier::ext_equal]
pub enum LookupV {
    Found(Seq<(Seq<char>, Seq<char>)>),
    NotFound,
    BadData,
}

/// The mathematical form of a list of credential pairs.
pub open spec fn pairs_view(v: Vec<(String, String)>) -> Seq<(Seq<char>, Seq<char>)> {
    v@.map_values(|p: (String, String)| (p.0@, p.1@))
}

impl View for Lookup {
    type V = LookupV;

    open spec fn view(&self) -> LookupV {
        match self {
            Lookup::Found(v) => LookupV::Found(pairs_view(*v)),
            Lookup::NotFound => LookupV::NotFound,
            Lookup::BadData => LookupV::BadData,
        }
    }
}

/// Whether every key and every value of a credential table is a string.
pub open spec fn creds_clean(cs: Seq<(Option<Seq<char>>, Option<Seq<char>>)>) -> bool {
    forall|i: int| 0 <= i < cs.len() ==> cs[i].0 is Some && cs[i].1 is Some
}

/// The credential pairs of a clean credential table.
pub open spec fn creds_values(cs: Seq<(Option<Seq<char>>, Option<Seq<char>>)>) -> Seq<
    (Seq<char>, Seq<char>),
> {
    cs.map_values(
        |e: (Option<Seq<char>>, Option<Seq<char>>)| (e.0->Some_0, e.1->Some_0),
    )
}

/// What a service lookup returns for each document and service name: the
/// service's pairs where it is listed with a mapping of strings, "not
/// found" where it is absent or oddly shaped, and a data error where its
/// mapping holds anything but strings.
pub open spec fn lookup_of(d: DocV, name: Seq<char>) -> LookupV {
    match d {
        DocV::Table(es) => match table_find(es, name) {
            Some(NodeV::Table(cs)) => if creds_clean(cs) {
                LookupV::Found(creds_values(cs))
            } else {
                LookupV::BadData
            },
            _ => LookupV::NotFound,
        },
        _ => LookupV::NotFound,
    }
}

/// Looks a service up in a parsed profile document.
pub fn lookup_service(doc: &Doc, name: &str) -> (r: Lookup)
    ensures
        r@ == lookup_of(doc@, name@),
{
    match doc {
        Doc::Table(es) => match doc_find(es, name) {
            Some(n) => match n {
                Node::Table(cs) => collect_creds(cs, Ghost(doc@), Ghost(name@)),
                _ => Lookup::NotFound,
            },
            _ => Lookup::NotFound,
        },
        _ => Lookup::NotFound,
    }
}

/// Copies a credential table out as string pairs, in document order, or
/// reports the entry that is not a pair of strings.
fn collect_creds(cs: &Vec<(Option<String>, Option<String>)>, d: Ghost<DocV>, name: Ghost<
    Seq<char>,
>) -> (r: Lookup)
    requires
        d@ is Table,
        table_find(d@->Table_0, name@) == Some(NodeV::Table(cred_entries_view(*cs))),
    ensures
        r@ == lookup_of(d@, name@),
{
    let mut out: Vec<(String, String)> = Vec::new();
    let mut i: usize = 0;
    while i < cs.len()
        invariant
            d@ is Table,
            table_find(d@->Table_0, name@) == Some(NodeV::Table(cred_entries_view(*cs))),
            i <= cs.len(),
            forall|j: int|
                0 <= j < i ==> cred_entries_view(*cs)[j].0 is Some && cred_entries_view(
                    *cs,
                )[j].1 is Some,
            pairs_view(out) == creds_values(cred_entries_view(*cs).take(i as int)),
        decreases cs.len() - i,
    {
        match (&cs[i].0, &cs[i].1) {
            (Some(k), Some(v)) => {
                proof {
                    assert(cred_entries_view(*cs)[i as int] == (Some(k@), Some(v@)));
                    assert(pairs_view(out).len() == out@.len());
                    assert(creds_values(cred_entries_view(*cs).take(i as int)).len() == i as int);
                    assert(out@.len() == i as int);
                }
                out.push((k.clone(), v.clone()));
                proof {
                    let csv = cred_entries_view(*cs);
                    let lhs = pairs_view(out);
                    let rhs = creds_values(csv.take(i as int + 1));
                    assert(csv.len() == cs@.len());
                    assert(csv.take(i as int).len() == i as int);
                    assert(out@.len() == i as int + 1);
                    assert(lhs.len() == out@.len());
                    assert(rhs.len() == csv.take(i as int + 1).len());
                    assert(lhs.len() == rhs.len());
                    assert forall|j: int| 0 <= j < lhs.len() implies lhs[j] == rhs[j] by {
                        if j < i {
                            assert(lhs[j] == creds_values(csv.take(i as int))[j]);
                            assert(csv.take(i as int)[j] == csv.take(i as int + 1)[j]);
                        }
                    }
                    assert(lhs =~= rhs);
                }
            },
            _ => {
                proof {
                    assert(cred_entries_view(*cs)[i as int].0 is None || cred_entries_view(
                        *cs,
                    )[i as int].1 is None);
                    assert(!creds_clean(cred_entries_view(*cs)));
                }
                return Lookup::BadData;
            },
        }
        i = i + 1;
    }
    proof {
        assert(cred_entries_view(*cs).take(i as int) =~= cred_entries_view(*cs));
    }
    Lookup::Found(out)
}

/// Whether the document lists the service at all.
pub open spec fn doc_has_service(d: DocV, name: Seq<char>) -> bool {
    match d {
        DocV::Table(es) => table_find(es, name) is Some,
        _ => false,
    }
}

/// Law: a service name that the active profile's document does not list
/// resolves to "not found".
pub proof fn lemma_absent_service_not_found(d: DocV, name: Seq<char>)
    requires
        !doc_has_service(d, name),
    ensures
        lookup_of(d, name) is NotFound,
{
}

} // verus!
