//! Updating a profile document: insert or replace one credential under a
//! service, and write the document back out as YAML text.

use vstd::prelude::*;
use vstd::string::StringExecFns;
use crate::doc::{cred_entries_view, doc_entries_view, opt_str_view, Doc, DocV, Node, NodeV};
use crate::resolve::{creds_clean, creds_values, doc_find, table_find};
use crate::store::{writes_file, FsAction, Pit};

verus! {

fn clone_opt(o: &Option<String>) -> (r: Option<String>)
    ensures
        opt_str_view(r) == opt_str_view(*o),
{
    match o {
        Some(s) => Some(s.clone()),
        None => None,
    }
}

fn clone_creds(cs: &Vec<(Option<String>, Option<String>)>) -> (r: Vec<
    (Option<String>, Option<String>),
>)
    ensures
        cred_entries_view(r) == cred_entries_view(*cs),
{
    let mut out: Vec<(Option<String>, Option<String>)> = Vec::new();
    let mut i: usize = 0;
    while i < cs.len()
        invariant
            i <= cs.len(),
            cred_entries_view(out) == cred_entries_view(*cs).take(i as int),
        decreases cs.len() - i,
    {
        proof {
            assert(cred_entries_view(out).len() == out@.len());
            assert(cred_entries_view(*cs).take(i as int).len() == i as int);
            assert(out@.len() == i as int);
        }
        out.push((clone_opt(&cs[i].0), clone_opt(&cs[i].1)));
        proof {
            assert(out@.len() == i as int + 1);
            assert(cred_entries_view(out) =~= cred_entries_view(*cs).take(i as int + 1));
        }
        i = i + 1;
    }
    proof {
        assert(cred_entries_view(*cs).take(i as int) =~= cred_entries_view(*cs));
    }
    out
}

fn clone_node(n: &Node) -> (r: Node)
    ensures
        r@ == n@,
{
    match n {
        Node::Str(s) => Node::Str(s.clone()),
        Node::Table(cs) => Node::Table(clone_creds(cs)),
        Node::Other => Node::Other,
    }
}

/// A credential table with `key: value` set: every entry whose key is
/// `key` now holds `value`; where no entry has that key, one is appended.
pub open spec fn creds_set(
    cs: Seq<(Option<Seq<char>>, Option<Seq<char>>)>,
    key: Seq<char>,
    value: Seq<char>,
) -> Seq<(Option<Seq<char>>, Option<Seq<char>>)> {
    if table_find(cs, key) is Some {
        cs.map_values(
            |e: (Option<Seq<char>>, Option<Seq<char>>)|
                if e.0 == Some(key) {
                    (e.0, Some(value))
                } else {
                    e
                },
        )
    } else {
        cs.push((Some(key), Some(value)))
    }
}

/// Whether some entry of a credential table has the string `key` as key.
fn creds_has_key(cs: &Vec<(Option<String>, Option<String>)>, key: &str) -> (r: bool)
    ensures
        r == (table_find(cred_entries_view(*cs), key@) is Some),
{
    let keystr: String = key.to_owned();
    let mut r: bool = false;
    let mut i: usize = cs.len();
    while i > 0
        invariant
            i <= cs.len(),
            keystr@ == key@,
            r == (table_find(cred_entries_view(*cs).skip(i as int), key@) is Some),
        decreases i,
    {
        i = i - 1;
        proof {
            assert(cred_entries_view(*cs).skip(i as int).skip(1) =~= cred_entries_view(*cs).skip(
                i as int + 1,
            ));
        }
        let hit = match &cs[i].0 {
            Some(k) => *k == keystr,
            None => false,
        };
        if hit {
            r = true;
        } else {
            proof {
                assert(cred_entries_view(*cs)[i as int].0 != Some(key@));
            }
        }
    }
    proof {
        assert(cred_entries_view(*cs).skip(0) =~= cred_entries_view(*cs));
    }
    r
}

/// Builds the credential table with `key: value` set.
fn creds_set_exec(cs: &Vec<(Option<String>, Option<String>)>, key: &str, value: &str) -> (r: Vec<
    (Option<String>, Option<String>),
>)
    ensures
        cred_entries_view(r) == creds_set(cred_entries_view(*cs), key@, value@),
{
    let keystr: String = key.to_owned();
    if creds_has_key(cs, key) {
        let mut out: Vec<(Option<String>, Option<String>)> = Vec::new();
        let mut i: usize = 0;
        while i < cs.len()
            invariant
                i <= cs.len(),
                keystr@ == key@,
                table_find(cred_entries_view(*cs), key@) is Some,
                cred_entries_view(out) == creds_set(cred_entries_view(*cs), key@, value@).take(
                    i as int,
                ),
            decreases cs.len() - i,
        {
            let hit = match &cs[i].0 {
                Some(k) => *k == keystr,
                None => false,
            };
            proof {
                assert(cred_entries_view(out).len() == out@.len());
                assert(creds_set(cred_entries_view(*cs), key@, value@).take(i as int).len()
                    == i as int);
                assert(out@.len() == i as int);
                assert(cred_entries_view(*cs)[i as int] == (
                    opt_str_view(cs@[i as int].0),
                    opt_str_view(cs@[i as int].1),
                ));
            }
            if hit {
                out.push((clone_opt(&cs[i].0), Some(value.to_owned())));
            } else {
                out.push((clone_opt(&cs[i].0), clone_opt(&cs[i].1)));
            }
            proof {
                assert(out@.len() == i as int + 1);
                assert(cred_entries_view(out) =~= creds_set(
                    cred_entries_view(*cs),
                    key@,
                    value@,
                ).take(i as int + 1));
            }
            i = i + 1;
        }
        proof {
            assert(creds_set(cred_entries_view(*cs), key@, value@).take(i as int) =~= creds_set(
                cred_entries_view(*cs),
                key@,
                value@,
            ));
        }
        out
    } else {
        let mut out = clone_creds(cs);
        out.push((Some(key.to_owned()), Some(value.to_owned())));
        proof {
            assert(cred_entries_view(out) =~= creds_set(cred_entries_view(*cs), key@, value@));
        }
        out
    }
}

/// A document's entries with `key: value` set under `service`: where the
/// service is listed with a mapping, every entry naming the service has
/// its mapping updated; where it is not listed at all, it is appended with
/// a one-pair mapping; where it is listed with anything but a mapping,
/// the update is refused.
pub open spec fn doc_set(
    es: Seq<(Option<Seq<char>>, NodeV)>,
    service: Seq<char>,
    key: Seq<char>,
    value: Seq<char>,
) -> Option<Seq<(Option<Seq<char>>, NodeV)>> {
    match table_find(es, service) {
        Some(NodeV::Table(_)) => Some(
            es.map_values(
                |e: (Option<Seq<char>>, NodeV)|
                    if e.0 == Some(service) && e.1 is Table {
                        (e.0, NodeV::Table(creds_set(e.1->Table_0, key, value)))
                    } else {
                        e
                    },
            ),
        ),
        Some(_) => None,
        None => Some(
            es.push((Some(service), NodeV::Table(seq![(Some(key), Some(value))]))),
        ),
    }
}

fn clone_doc_entries(es: &Vec<(Option<String>, Node)>) -> (r: Vec<(Option<String>, Node)>)
    ensures
        doc_entries_view(r) == doc_entries_view(*es),
{
    let mut out: Vec<(Option<String>, Node)> = Vec::new();
    let mut i: usize = 0;
    while i < es.len()
        invariant
            i <= es.len(),
            doc_entries_view(out) == doc_entries_view(*es).take(i as int),
        decreases es.len() - i,
    {
        proof {
            assert(doc_entries_view(out).len() == out@.len());
            assert(doc_entries_view(*es).take(i as int).len() == i as int);
            assert(out@.len() == i as int);
        }
        out.push((clone_opt(&es[i].0), clone_node(&es[i].1)));
        proof {
            assert(out@.len() == i as int + 1);
            assert(doc_entries_view(out) =~= doc_entries_view(*es).take(i as int + 1));
        }
        i = i + 1;
    }
    proof {
        assert(doc_entries_view(*es).take(i as int) =~= doc_entries_view(*es));
    }
    out
}

/// Builds the document entries with `key: value` set under `service`.
fn doc_set_exec(es: &Vec<(Option<String>, Node)>, service: &str, key: &str, value: &str) -> (r:
    Option<Vec<(Option<String>, Node)>>)
    ensures
        match r {
            Some(out) => doc_set(doc_entries_view(*es), service@, key@, value@) == Some(
                doc_entries_view(out),
            ),
            None => doc_set(doc_entries_view(*es), service@, key@, value@) is None,
        },
{
    let svc: String = service.to_owned();
    match doc_find(es, service) {
        None => {
            let mut out = clone_doc_entries(es);
            let fresh: Vec<(Option<String>, Option<String>)> = vec![
                (Some(key.to_owned()), Some(value.to_owned())),
            ];
            proof {
                assert(cred_entries_view(fresh) =~= seq![
                    (Some(key@), Some(value@)),
                ]);
            }
            out.push((Some(service.to_owned()), Node::Table(fresh)));
            proof {
                assert(doc_entries_view(out) =~= doc_entries_view(*es).push(
                    (Some(service@), NodeV::Table(seq![(Some(key@), Some(value@))])),
                ));
            }
            Some(out)
        },
        Some(n) => match n {
            Node::Table(_) => {
                let mut out: Vec<(Option<String>, Node)> = Vec::new();
                let mut i: usize = 0;
                while i < es.len()
                    invariant
                        i <= es.len(),
                        svc@ == service@,
                        table_find(doc_entries_view(*es), service@) matches Some(
                            NodeV::Table(_),
                        ),
                        doc_entries_view(out) == doc_set(
                            doc_entries_view(*es),
                            service@,
                            key@,
                            value@,
                        )->Some_0.take(i as int),
                    decreases es.len() - i,
                {
                    proof {
                        assert(doc_entries_view(out).len() == out@.len());
                        assert(doc_set(
                            doc_entries_view(*es),
                            service@,
                            key@,
                            value@,
                        )->Some_0.take(i as int).len() == i as int);
                        assert(out@.len() == i as int);
                        assert(doc_entries_view(*es)[i as int] == (
                            opt_str_view(es@[i as int].0),
                            es@[i as int].1@,
                        ));
                    }
                    match (&es[i].0, &es[i].1) {
                        (Some(k), Node::Table(cs)) => if *k == svc {
                            out.push((Some(k.clone()), Node::Table(creds_set_exec(cs, key, value))));
                        } else {
                            out.push((Some(k.clone()), Node::Table(clone_creds(cs))));
                        },
                        _ => {
                            out.push((clone_opt(&es[i].0), clone_node(&es[i].1)));
                        },
                    }
                    proof {
                        assert(out@.len() == i as int + 1);
                        let dv = doc_entries_view(*es);
                        let m = doc_set(dv, service@, key@, value@)->Some_0;
                        assert(m[i as int] == (
                            if dv[i as int].0 == Some(service@) && dv[i as int].1 is Table {
                                (
                                    dv[i as int].0,
                                    NodeV::Table(
                                        creds_set(dv[i as int].1->Table_0, key@, value@),
                                    ),
                                )
                            } else {
                                dv[i as int]
                            }
                        ));
                        assert(doc_entries_view(out) =~= m.take(i as int + 1));
                    }
                    i = i + 1;
                }
                proof {
                    assert(doc_set(doc_entries_view(*es), service@, key@, value@)->Some_0.take(
                        i as int,
                    ) =~= doc_set(doc_entries_view(*es), service@, key@, value@)->Some_0);
                }
                Some(out)
            },
            _ => None,
        },
    }
}

/// The YAML line for one credential pair, indented under its service.
pub open spec fn cred_line(k: Seq<char>, v: Seq<char>) -> Seq<char> {
    "  "@ + k + ": "@ + v + "\n"@
}

/// The YAML text of a credential table's pairs, one line each, in order.
pub open spec fn emit_creds(ps: Seq<(Seq<char>, Seq<char>)>) -> Seq<char>
    decreases ps.len(),
{
    if ps.len() == 0 {
        Seq::empty()
    } else {
        emit_creds(ps.drop_last()) + cred_line(ps.last().0, ps.last().1)
    }
}

/// The YAML text of one top-level entry.
pub open spec fn emit_entry(e: (Option<Seq<char>>, NodeV)) -> Seq<char> {
    match e.1 {
        NodeV::Str(s) => e.0->Some_0 + ": "@ + s + "\n"@,
        NodeV::Table(cs) => e.0->Some_0 + ":\n"@ + emit_creds(creds_values(cs)),
        NodeV::Other => Seq::empty(),
    }
}

/// The YAML text of a document's entries, in order.
pub open spec fn emit_entries(es: Seq<(Option<Seq<char>>, NodeV)>) -> Seq<char>
    decreases es.len(),
{
    if es.len() == 0 {
        Seq::empty()
    } else {
        emit_entries(es.drop_last()) + emit_entry(es.last())
    }
}

/// Whether a document's entries can be written back as YAML text: every
/// key is a string and every value is a string or a mapping of strings.
pub open spec fn emittable(es: Seq<(Option<Seq<char>>, NodeV)>) -> bool {
    forall|i: int|
        0 <= i < es.len() ==> es[i].0 is Some && (es[i].1 is Str || (es[i].1 matches
        NodeV::Table(cs) && creds_clean(cs)))
}

/// The YAML text of a document: its entries in order, or `{}` for none.
pub open spec fn emit_doc(es: Seq<(Option<Seq<char>>, NodeV)>) -> Seq<char> {
    if es.len() == 0 {
        "{}"@
    } else {
        emit_entries(es)
    }
}

/// Whether every key and value of a credential table is a string.
fn creds_all_strings(cs: &Vec<(Option<String>, Option<String>)>) -> (r: bool)
    ensures
        r == creds_clean(cred_entries_view(*cs)),
{
    let mut i: usize = 0;
    while i < cs.len()
        invariant
            i <= cs.len(),
            forall|j: int|
                0 <= j < i ==> cred_entries_view(*cs)[j].0 is Some && cred_entries_view(
                    *cs,
                )[j].1 is Some,
        decreases cs.len() - i,
    {
        let good = match (&cs[i].0, &cs[i].1) {
            (Some(_), Some(_)) => true,
            _ => false,
        };
        if !good {
            proof {
                assert(cred_entries_view(*cs)[i as int].0 is None || cred_entries_view(
                    *cs,
                )[i as int].1 is None);
            }
            return false;
        }
        i = i + 1;
    }
    true
}

/// Writes a clean credential table out, one indented line per pair.
fn emit_creds_text(cs: &Vec<(Option<String>, Option<String>)>) -> (r: String)
    requires
        creds_clean(cred_entries_view(*cs)),
    ensures
        r@ == emit_creds(creds_values(cred_entries_view(*cs))),
{
    let mut s = String::new();
    let mut i: usize = 0;
    while i < cs.len()
        invariant
            i <= cs.len(),
            creds_clean(cred_entries_view(*cs)),
            s@ == emit_creds(creds_values(cred_entries_view(*cs)).take(i as int)),
        decreases cs.len() - i,
    {
        match (&cs[i].0, &cs[i].1) {
            (Some(k), Some(v)) => {
                s.append("  ");
                s.append(k.as_str());
                s.append(": ");
                s.append(v.as_str());
                s.append("\n");
                proof {
                    let ps = creds_values(cred_entries_view(*cs));
                    assert(cred_entries_view(*cs)[i as int] == (Some(k@), Some(v@)));
                    assert(ps.take(i as int + 1).drop_last() =~= ps.take(i as int));
                    assert(ps.take(i as int + 1).last() == ps[i as int]);
                    assert(s@ =~= emit_creds(ps.take(i as int + 1)));
                }
            },
            _ => {
                proof {
                    assert(false);
                }
            },
        }
        i = i + 1;
    }
    proof {
        assert(creds_values(cred_entries_view(*cs)).take(i as int) =~= creds_values(
            cred_entries_view(*cs),
        ));
    }
    s
}

/// Writes a document back out as YAML text, or refuses (`None`) where it
/// holds a shape that the store never writes: a non-string key, or a
/// value that is neither a string nor a mapping of strings.
pub fn emit_document(doc: &Doc) -> (r: Option<String>)
    ensures
        match r {
            Some(t) => doc@ matches DocV::Table(es) && emittable(es) && t@ == emit_doc(es),
            None => !(doc@ matches DocV::Table(es) && emittable(es)),
        },
{
    let es = match doc {
        Doc::Table(es) => es,
        _ => {
            return None;
        },
    };
    if es.len() == 0 {
        return Some("{}".to_owned());
    }
    let mut s = String::new();
    let mut i: usize = 0;
    while i < es.len()
        invariant
            doc@ == DocV::Table(doc_entries_view(*es)),
            i <= es.len(),
            forall|j: int|
                0 <= j < i ==> doc_entries_view(*es)[j].0 is Some && (doc_entries_view(
                    *es,
                )[j].1 is Str || (doc_entries_view(*es)[j].1 matches NodeV::Table(cs)
                    && creds_clean(cs))),
            s@ == emit_entries(doc_entries_view(*es).take(i as int)),
        decreases es.len() - i,
    {
        proof {
            assert(doc_entries_view(*es)[i as int] == (
                opt_str_view(es@[i as int].0),
                es@[i as int].1@,
            ));
        }
        match (&es[i].0, &es[i].1) {
            (Some(k), Node::Str(v)) => {
                s.append(k.as_str());
                s.append(": ");
                s.append(v.as_str());
                s.append("\n");
                proof {
                    let dv = doc_entries_view(*es);
                    assert(dv.take(i as int + 1).drop_last() =~= dv.take(i as int));
                    assert(dv.take(i as int + 1).last() == dv[i as int]);
                    assert(s@ =~= emit_entries(dv.take(i as int + 1)));
                }
            },
            (Some(k), Node::Table(cs)) => {
                if !creds_all_strings(cs) {
                    proof {
                        assert(!emittable(doc_entries_view(*es)));
                    }
                    return None;
                }
                s.append(k.as_str());
                s.append(":\n");
                let t = emit_creds_text(cs);
                s.append(t.as_str());
                proof {
                    let dv = doc_entries_view(*es);
                    assert(dv.take(i as int + 1).drop_last() =~= dv.take(i as int));
                    assert(dv.take(i as int + 1).last() == dv[i as int]);
                    assert(s@ =~= emit_entries(dv.take(i as int + 1)));
                }
            },
            _ => {
                proof {
                    assert(doc_entries_view(*es)[i as int].0 is None || doc_entries_view(
                        *es,
                    )[i as int].1 is Other);
                    assert(!emittable(doc_entries_view(*es)));
                }
                return None;
            },
        }
        i = i + 1;
    }
    proof {
        assert(doc_entries_view(*es).take(i as int) =~= doc_entries_view(*es));
        assert(emittable(doc_entries_view(*es)));
    }
    Some(s)
}

impl Pit {
    /// Sets `key: value` under `service` in the given profile document and
    /// hands back the updated document together with the write that
    /// persists it to the active profile's file, preserving every other
    /// entry.  Refused (`None`) where the document's top level is not a
    /// mapping, where the service is listed as anything but a mapping, or
    /// where the document holds shapes the store cannot write back.
    pub fn set(&self, doc: &Doc, service: &str, key: &str, value: &str) -> (r: Option<
        (Doc, FsAction),
    >)
        ensures
            match r {
                Some(p) => doc@ matches DocV::Table(es) && (doc_set(es, service@, key@, value@)
                    matches Some(es2) && p.0@ == DocV::Table(es2) && emittable(es2) && writes_file(
                    p.1,
                    self.profile_path@,
                    emit_doc(es2),
                )),
                None => !(doc@ matches DocV::Table(es) && doc_set(es, service@, key@, value@)
                    matches Some(es2) && emittable(es2)),
            },
    {
        let es = match doc {
            Doc::Table(es) => es,
            _ => {
                return None;
            },
        };
        match doc_set_exec(es, service, key, value) {
            Some(out) => {
                let d2 = Doc::Table(out);
                match emit_document(&d2) {
                    Some(t) => Some(
                        (d2, FsAction::WritePrivateFile(self.profile_path.clone(), t)),
                    ),
                    None => None,
                }
            },
            None => None,
        }
    }
}

} // verus!
