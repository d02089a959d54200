//! Identifiers of a work, tagged by their `type` key.

use vstd::prelude::*;
use crate::node::{
    DecodeError, Emitted, Node, emits, push_node, push_text, text_at, text_field, text_ok,
    want_text,
};
use crate::weburl::{WebUrl, url_serialization};

verus! {

/// An identifier for a work.
#[derive(Debug, Clone, PartialEq, Eq)]
pub enum Identifier {
    /// DOI, carried as given.
    Doi { value: String, description: Option<String> },
    /// URL.
    Url { value: WebUrl, description: Option<String> },
    /// Software Heritage identifier, carried as given.
    Swh { value: String, description: Option<String> },
    /// Some other identifier, carried as given.
    Other { value: String, description: Option<String> },
}

/// The text of the string under `key`, or nothing.
pub open spec fn text_view_at(e: Seq<(String, Node)>, key: Seq<char>) -> Seq<char> {
    match text_at(e, key) {
        Some(s) => s@,
        None => Seq::empty(),
    }
}

/// Whether an identifier map reads without error: a `type` of `doi`, `url`,
/// `swh` or `other`, a string `value` (a URL that parses, for `url`), and an
/// optional string `description`.
pub open spec fn identifier_ok(e: Seq<(String, Node)>) -> bool {
    let t = text_view_at(e, "type"@);
    &&& text_at(e, "type"@) is Some
    &&& (t == "doi"@ || t == "url"@ || t == "swh"@ || t == "other"@)
    &&& text_at(e, "value"@) is Some
    &&& (t == "url"@ ==> url_serialization(text_view_at(e, "value"@)) is Some)
    &&& text_ok(e, "description"@)
}

/// Whether `id` is what the identifier map `e` reads as.
pub open spec fn identifier_from(e: Seq<(String, Node)>, id: Identifier) -> bool {
    let t = text_view_at(e, "type"@);
    match id {
        Identifier::Doi { value, description } => t == "doi"@ && text_at(e, "value"@) == Some(value)
            && description == text_at(e, "description"@),
        Identifier::Url { value, description } => t == "url"@ && url_serialization(
            text_view_at(e, "value"@),
        ) == Some(value@) && description == text_at(e, "description"@),
        Identifier::Swh { value, description } => t == "swh"@ && text_at(e, "value"@) == Some(value)
            && description == text_at(e, "description"@),
        Identifier::Other { value, description } => t == "other"@ && text_at(e, "value"@) == Some(
            value,
        ) && description == text_at(e, "description"@),
    }
}

/// The `type` an identifier is written with.
pub open spec fn identifier_type(id: Identifier) -> Seq<char> {
    match id {
        Identifier::Doi { .. } => "doi"@,
        Identifier::Url { .. } => "url"@,
        Identifier::Swh { .. } => "swh"@,
        Identifier::Other { .. } => "other"@,
    }
}

/// The text of an identifier's value.
pub open spec fn identifier_value(id: Identifier) -> Seq<char> {
    match id {
        Identifier::Doi { value, .. } => value@,
        Identifier::Url { value, .. } => value@,
        Identifier::Swh { value, .. } => value@,
        Identifier::Other { value, .. } => value@,
    }
}

/// An identifier's description.
pub open spec fn identifier_description(id: Identifier) -> Option<String> {
    match id {
        Identifier::Doi { description, .. } => description,
        Identifier::Url { description, .. } => description,
        Identifier::Swh { description, .. } => description,
        Identifier::Other { description, .. } => description,
    }
}

/// The entries an identifier is written as: `type`, `value`, and
/// `description` when present.
pub open spec fn identifier_want(id: Identifier) -> Seq<(Seq<char>, Emitted)> {
    seq![("type"@, Emitted::Text(identifier_type(id))), ("value"@, Emitted::Text(identifier_value(id)))]
        + want_text("description"@, identifier_description(id))
}

impl Identifier {
    /// Reads an identifier map, tagged by its `type`.
    pub fn from_node(n: &Node) -> (r: Result<Identifier, DecodeError>)
        ensures
            n is Mapping ==> (identifier_ok(n->Mapping_0@) <==> r is Ok),
            r matches Ok(id) ==> n is Mapping && identifier_from(n->Mapping_0@, id),
    {
        match n {
            Node::Mapping(e) => Identifier::from_entries(e),
            _ => Err(DecodeError::TypeMismatch { field: "identifier".to_owned() }),
        }
    }

    /// Reads an identifier from the entries of its map.
    pub fn from_entries(e: &Vec<(String, Node)>) -> (r: Result<Identifier, DecodeError>)
        ensures
            identifier_ok(e@) <==> r is Ok,
            r matches Ok(id) ==> identifier_from(e@, id),
    {
        let kind = match text_field(e, "type") {
            Ok(Some(t)) => t,
            Ok(None) => return Err(DecodeError::ShapeMismatch { field: "type".to_owned() }),
            Err(err) => return Err(err),
        };
        let value = match text_field(e, "value") {
            Ok(Some(v)) => v,
            Ok(None) => return Err(DecodeError::ShapeMismatch { field: "value".to_owned() }),
            Err(err) => return Err(err),
        };
        let description = match text_field(e, "description") {
            Ok(d) => d,
            Err(err) => return Err(err),
        };
        proof {
            reveal_strlit("doi");
            reveal_strlit("url");
            reveal_strlit("swh");
            reveal_strlit("other");
            assert("doi"@[0] != "url"@[0]);
            assert("swh"@[0] != "url"@[0]);
            assert("other"@.len() != "url"@.len());
        }
        assert(text_view_at(e@, "type"@) == kind@);
        assert(text_view_at(e@, "value"@) == value@);
        if crate::text::same_text(kind.as_str(), "doi") {
            Ok(Identifier::Doi { value, description })
        } else if crate::text::same_text(kind.as_str(), "url") {
            match WebUrl::parse(value.as_str()) {
                Some(u) => Ok(Identifier::Url { value: u, description }),
                None => Err(DecodeError::ShapeMismatch { field: "value".to_owned() }),
            }
        } else if crate::text::same_text(kind.as_str(), "swh") {
            Ok(Identifier::Swh { value, description })
        } else if crate::text::same_text(kind.as_str(), "other") {
            Ok(Identifier::Other { value, description })
        } else {
            Err(DecodeError::ShapeMismatch { field: "type".to_owned() })
        }
    }

    /// Writes the identifier as a map of `type`, `value` and, when present,
    /// `description`.
    pub fn to_node(&self) -> (r: Node)
        ensures
            r matches Node::Mapping(out) && emits(out@, identifier_want(*self)),
    {
        let (kind, value, description) = match self {
            Identifier::Doi { value, description } => ("doi", value.clone(), description.clone()),
            Identifier::Url { value, description } => ("url", value.to_text(), description.clone()),
            Identifier::Swh { value, description } => ("swh", value.clone(), description.clone()),
            Identifier::Other { value, description } => ("other", value.clone(), description.clone()),
        };
        let mut out: Vec<(String, Node)> = Vec::new();
        proof {
            reveal(emits);
        }
        let ghost w0: Seq<(Seq<char>, Emitted)> = Seq::empty();
        let ghost t = Emitted::Text(identifier_type(*self));
        let ghost v = Emitted::Text(identifier_value(*self));
        push_node(&mut out, "type", Node::Str(kind.to_owned()), Ghost(w0), Ghost(t));
        let ghost w1 = w0 + seq![("type"@, t)];
        push_node(&mut out, "value", Node::Str(value), Ghost(w1), Ghost(v));
        let ghost w2 = w1 + seq![("value"@, v)];
        push_text(&mut out, "description", description, Ghost(w2));
        assert(w2 + want_text("description"@, identifier_description(*self)) =~= identifier_want(*self));
        Node::Mapping(out)
    }
}

} // verus!
