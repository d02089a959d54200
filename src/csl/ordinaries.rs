//! Ordinary values: strings and numbers, as the document typed them.

use vstd::prelude::*;
use crate::node::{DecodeError, Node};
use crate::text::{decimal, signed_padded, write_signed_padded};

verus! {

/// An ordinary value: a string, or a number.
///
/// Which of these a value is follows the document's own typing of the scalar;
/// text is never read as a number. A non-integral number is kept as the
/// decimal text the document gave, and two of them are equal when their texts
/// are.
#[derive(Debug, Clone, PartialEq, Eq, Hash)]
pub enum OrdinaryValue {
    /// Numeric values (non-integral), as decimal text
    Float(String),
    /// Numeric values (integers)
    Integer(i64),
    /// String values
    String(String),
}

/// What reading `n` as an ordinary value gives.
pub open spec fn ordinary_read(n: Node, field: Seq<char>, r: Result<OrdinaryValue, DecodeError>) -> bool {
    match n {
        Node::Str(s) => r == Ok::<OrdinaryValue, DecodeError>(OrdinaryValue::String(s)),
        Node::Int(i) => r == Ok::<OrdinaryValue, DecodeError>(OrdinaryValue::Integer(i)),
        Node::Float(t) => r == Ok::<OrdinaryValue, DecodeError>(OrdinaryValue::Float(t)),
        _ => r matches Err(DecodeError::TypeMismatch { field: f }) && f@ == field,
    }
}

/// The node an ordinary value is written as: its own scalar kind.
pub open spec fn ordinary_node(v: OrdinaryValue) -> Node {
    match v {
        OrdinaryValue::Float(t) => Node::Float(t),
        OrdinaryValue::Integer(i) => Node::Int(i),
        OrdinaryValue::String(s) => Node::Str(s),
    }
}

/// The text of an ordinary value: a string as it is, an integer in decimal,
/// a non-integral number as its decimal text.
pub open spec fn ordinary_text(v: OrdinaryValue) -> Seq<char> {
    match v {
        OrdinaryValue::Float(t) => t@,
        OrdinaryValue::Integer(i) => signed_padded(i as int, 0),
        OrdinaryValue::String(s) => s@,
    }
}

impl OrdinaryValue {
    /// Reads an ordinary value from a scalar node; any other node is a type
    /// mismatch naming `field`.
    pub fn from_node(n: Node, field: &str) -> (r: Result<OrdinaryValue, DecodeError>)
        ensures
            ordinary_read(n, field@, r),
    {
        match n {
            Node::Str(s) => Ok(OrdinaryValue::String(s)),
            Node::Int(i) => Ok(OrdinaryValue::Integer(i)),
            Node::Float(t) => Ok(OrdinaryValue::Float(t)),
            _ => Err(DecodeError::TypeMismatch { field: field.to_owned() }),
        }
    }

    /// Writes the value as the scalar of its own kind.
    pub fn into_node(self) -> (r: Node)
        ensures
            r == ordinary_node(self),
    {
        match self {
            OrdinaryValue::Float(t) => Node::Float(t),
            OrdinaryValue::Integer(i) => Node::Int(i),
            OrdinaryValue::String(s) => Node::Str(s),
        }
    }

    /// If the value is a string, returns it.
    pub fn as_str(&self) -> (r: Option<&str>)
        ensures
            match self {
                OrdinaryValue::String(s) => r matches Some(t) && t@ == s@,
                _ => r is None,
            },
    {
        match self {
            OrdinaryValue::String(s) => Some(s.as_str()),
            _ => None,
        }
    }

    /// If the value is an integer, returns it.
    pub fn as_i64(&self) -> (r: Option<i64>)
        ensures
            match self {
                OrdinaryValue::Integer(i) => r == Some(*i),
                _ => r is None,
            },
    {
        match self {
            OrdinaryValue::Integer(i) => Some(*i),
            _ => None,
        }
    }

    /// If the value is a non-integral number, returns its decimal text.
    pub fn as_float_text(&self) -> (r: Option<&str>)
        ensures
            match self {
                OrdinaryValue::Float(t) => r matches Some(x) && x@ == t@,
                _ => r is None,
            },
    {
        match self {
            OrdinaryValue::Float(t) => Some(t.as_str()),
            _ => None,
        }
    }

    /// The value as text: a string as it is, an integer in decimal, a
    /// non-integral number as its decimal text.
    pub fn to_text(&self) -> (r: String)
        ensures
            r@ == ordinary_text(*self),
    {
        match self {
            OrdinaryValue::Float(t) => t.clone(),
            OrdinaryValue::Integer(i) => {
                let mut out = String::new();
                write_signed_padded(&mut out, *i, 0);
                out
            },
            OrdinaryValue::String(s) => s.clone(),
        }
    }
}

} // verus!
