//! Names of persons and institutions in the array-of-records format.

use vstd::prelude::*;
use crate::node::{
    DecodeError, Emitted, Node, emits, push_text, text_at, text_field, text_ok,
    unknown_entries, want_text,
};

verus! {

/// Information about one person or institution. Entries under keys that no
/// field knows are kept, in the order they came; their values are strings.
#[derive(Debug, Clone, PartialEq, Eq, Hash)]
pub struct Name {
    /// The family name a person inherits.
    pub family: Option<String>,
    /// The name a person has been given or has chosen.
    pub given: Option<String>,
    /// Elements before the given name, e.g. "Rev.".
    pub dropping_particle: Option<String>,
    /// Elements before the family name, e.g. "de las".
    pub non_dropping_particle: Option<String>,
    /// Elements after the family name, e.g. "Jr.".
    pub suffix: Option<String>,
    /// Name of an institution, or whole name of a person.
    pub literal: Option<String>,
    /// Name fields not defined above.
    /// A known field always wins: an entry here under a key the record knows is
    /// never written.
    pub extra: Vec<(String, String)>,
}

/// The keys a name map knows.
pub open spec fn name_keys() -> Seq<&'static str> {
    seq!["family", "given", "dropping-particle", "non-dropping-particle", "suffix", "literal"]
}

/// Whether a name map reads without error: every field, and every
/// unrecognised entry, holds a string.
pub open spec fn name_ok(e: Seq<(String, Node)>) -> bool {
    let u = unknown_entries(e, name_keys());
    &&& text_ok(e, "family"@)
    &&& text_ok(e, "given"@)
    &&& text_ok(e, "dropping-particle"@)
    &&& text_ok(e, "non-dropping-particle"@)
    &&& text_ok(e, "suffix"@)
    &&& text_ok(e, "literal"@)
    &&& forall|i: int| 0 <= i < u.len() ==> (#[trigger] u[i]).1 is Str
}

/// Whether `n` holds what the name map `e` says.
pub open spec fn name_from(e: Seq<(String, Node)>, n: Name) -> bool {
    let u = unknown_entries(e, name_keys());
    &&& n.family == text_at(e, "family"@)
    &&& n.given == text_at(e, "given"@)
    &&& n.dropping_particle == text_at(e, "dropping-particle"@)
    &&& n.non_dropping_particle == text_at(e, "non-dropping-particle"@)
    &&& n.suffix == text_at(e, "suffix"@)
    &&& n.literal == text_at(e, "literal"@)
    &&& n.extra@.len() == u.len()
    &&& forall|i: int|
        0 <= i < u.len() ==> (#[trigger] n.extra@[i]).0 == u[i].0 && u[i].1 == Node::Str(
            n.extra@[i].1,
        )
}

/// The entries a name is written as: its fields in declared order, then the
/// unrecognised entries in the order they came, but for those under a key
/// that a field knows.
pub open spec fn name_want(n: Name) -> Seq<(Seq<char>, Emitted)> {
    want_text("family"@, n.family) + want_text("given"@, n.given) + want_text(
        "dropping-particle"@,
        n.dropping_particle,
    ) + want_text("non-dropping-particle"@, n.non_dropping_particle) + want_text(
        "suffix"@,
        n.suffix,
    ) + want_text("literal"@, n.literal) + Seq::new(
        unknown_entries(n.extra@, name_keys()).len(),
        |i: int|
            (
                unknown_entries(n.extra@, name_keys())[i].0@,
                Emitted::Text(unknown_entries(n.extra@, name_keys())[i].1@),
            ),
    )
}

fn name_key_list() -> (r: Vec<&'static str>)
    ensures
        r@ == name_keys(),
{
    let mut v: Vec<&'static str> = Vec::new();
    v.push("family");
    v.push("given");
    v.push("dropping-particle");
    v.push("non-dropping-particle");
    v.push("suffix");
    v.push("literal");
    assert(v@ =~= name_keys());
    v
}

/// Copies the entries under keys a name map does not know, as texts; a type
/// mismatch naming the key of the first that is not a string.
fn unknown_texts(e: &Vec<(String, Node)>, keys: &[&str]) -> (r: Result<Vec<(String, String)>, DecodeError>)
    requires
        keys@ == name_keys(),
    ensures
        ({
            let u = unknown_entries(e@, name_keys());
            &&& (r is Ok <==> forall|i: int| 0 <= i < u.len() ==> (#[trigger] u[i]).1 is Str)
            &&& (r matches Ok(x) ==> x@.len() == u.len() && forall|i: int|
                0 <= i < u.len() ==> (#[trigger] x@[i]).0 == u[i].0 && u[i].1 == Node::Str(x@[i].1))
        }),
{
    let mut out: Vec<(String, String)> = Vec::new();
    let mut i: usize = 0;
    while i < e.len()
        invariant
            keys@ == name_keys(),
            0 <= i <= e@.len(),
            ({
                let u = unknown_entries(e@.subrange(0, i as int), name_keys());
                &&& out@.len() == u.len()
                &&& forall|j: int| 0 <= j < u.len() ==> (#[trigger] u[j]).1 is Str
                &&& forall|j: int|
                    0 <= j < u.len() ==> (#[trigger] out@[j]).0 == u[j].0 && u[j].1 == Node::Str(out@[j].1)
            }),
        decreases e@.len() - i,
    {
        let ghost prev = e@.subrange(0, i as int);
        assert(e@.subrange(0, i as int + 1).drop_last() =~= prev);
        assert(e@.subrange(0, i as int + 1).last() == e@[i as int]);
        if !crate::node::is_known_key(keys, e[i].0.as_str()) {
            let v = match &e[i].1 {
                Node::Str(t) => t.clone(),
                _ => {
                    proof {
                        let u = unknown_entries(e@.subrange(0, i as int + 1), name_keys());
                        assert(u.last() == e@[i as int]);
                        crate::node::lemma_unknown_prefix(e@, i as int + 1, name_keys());
                        let full = unknown_entries(e@, name_keys());
                        assert(full[u.len() - 1] == u[u.len() - 1]);
                    }
                    return Err(DecodeError::TypeMismatch { field: e[i].0.clone() });
                },
            };
            out.push((e[i].0.clone(), v));
        }
        i = i + 1;
    }
    assert(e@.subrange(0, i as int) =~= e@);
    Ok(out)
}

impl Name {
    /// Reads a name map.
    pub fn from_node(n: &Node) -> (r: Result<Name, DecodeError>)
        ensures
            *n is Mapping ==> (name_ok(n->Mapping_0@) <==> r is Ok),
            r matches Ok(x) ==> *n is Mapping && name_from(n->Mapping_0@, x),
    {
        match n {
            Node::Mapping(e) => Name::from_entries(e),
            _ => Err(DecodeError::TypeMismatch { field: "name".to_owned() }),
        }
    }

    /// Reads a name from the entries of its map.
    pub fn from_entries(e: &Vec<(String, Node)>) -> (r: Result<Name, DecodeError>)
        ensures
            name_ok(e@) <==> r is Ok,
            r matches Ok(x) ==> name_from(e@, x),
    {
        let family = match text_field(e, "family") { Ok(v) => v, Err(err) => return Err(err) };
        let given = match text_field(e, "given") { Ok(v) => v, Err(err) => return Err(err) };
        let dropping_particle = match text_field(e, "dropping-particle") { Ok(v) => v, Err(err) => return Err(err) };
        let non_dropping_particle = match text_field(e, "non-dropping-particle") { Ok(v) => v, Err(err) => return Err(err) };
        let suffix = match text_field(e, "suffix") { Ok(v) => v, Err(err) => return Err(err) };
        let literal = match text_field(e, "literal") { Ok(v) => v, Err(err) => return Err(err) };
        let keys = name_key_list();
        let extra = match unknown_texts(e, keys.as_slice()) { Ok(x) => x, Err(err) => return Err(err) };
        Ok(Name { family, given, dropping_particle, non_dropping_particle, suffix, literal, extra })
    }

    /// Writes the name as a map: its fields in declared order, then the
    /// unrecognised entries in the order they came.
    pub fn into_node(self) -> (r: Node)
        ensures
            r matches Node::Mapping(out) && emits(out@, name_want(self)),
    {
        let ghost g = self;
        let mut out: Vec<(String, Node)> = Vec::new();
        proof {
            reveal(emits);
        }
        let ghost w: Seq<(Seq<char>, Emitted)> = Seq::empty();
        push_text(&mut out, "family", self.family, Ghost(w));
        let ghost w = w + want_text("family"@, g.family);
        push_text(&mut out, "given", self.given, Ghost(w));
        let ghost w = w + want_text("given"@, g.given);
        push_text(&mut out, "dropping-particle", self.dropping_particle, Ghost(w));
        let ghost w = w + want_text("dropping-particle"@, g.dropping_particle);
        push_text(&mut out, "non-dropping-particle", self.non_dropping_particle, Ghost(w));
        let ghost w = w + want_text("non-dropping-particle"@, g.non_dropping_particle);
        push_text(&mut out, "suffix", self.suffix, Ghost(w));
        let ghost w = w + want_text("suffix"@, g.suffix);
        push_text(&mut out, "literal", self.literal, Ghost(w));
        let ghost w = w + want_text("literal"@, g.literal);
        let keys = name_key_list();
        let mut rest = crate::node::take_unknown(self.extra, keys.as_slice());
        let ghost x = rest@;
        let ghost mut i: int = 0;
        while rest.len() > 0
            invariant
                0 <= i <= x.len(),
                rest@ == x.subrange(i, x.len() as int),
                emits(
                    out@,
                    w + Seq::new(i as nat, |j: int| (x[j].0@, Emitted::Text(x[j].1@))),
                ),
            decreases rest@.len(),
        {
            let (k, v) = rest.remove(0);
            assert(x[i] == (k, v));
            let ghost w2 = w + Seq::new(i as nat, |j: int| (x[j].0@, Emitted::Text(x[j].1@)));
            push_text(&mut out, k.as_str(), Some(v), Ghost(w2));
            proof {
                i = i + 1;
                assert(w2 + want_text(k@, Some(v)) =~= w + Seq::new(
                    i as nat,
                    |j: int| (x[j].0@, Emitted::Text(x[j].1@)),
                ));
            }
            assert(rest@ =~= x.subrange(i, x.len() as int));
        }
        assert(w + Seq::new(i as nat, |j: int| (x[j].0@, Emitted::Text(x[j].1@))) =~= name_want(g));
        Node::Mapping(out)
    }
}

} // verus!
