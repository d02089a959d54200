//! License fields: one SPDX license expression, or a list of them read as
//! joined by `OR`.

use vstd::prelude::*;
use crate::node::{DecodeError, Node};

verus! {

#[verifier::external_type_specification]
#[verifier::external_body]
pub struct ExExpression(spdx::Expression);

/// Whether `spdx::Expression::parse` accepts a text.
pub uninterp spec fn spdx_accepts(s: Seq<char>) -> bool;

/// Whether two texts that `spdx::Expression::parse` accepts parse to equal
/// expressions, by `spdx::Expression`'s `==`.
pub uninterp spec fn spdx_same(a: Seq<char>, b: Seq<char>) -> bool;

/// Relies on `spdx::Expression::parse` (strict mode): whether it accepts a
/// text depends on the text alone.
#[verifier::external_body]
fn parse_expression(s: &str) -> (r: Option<spdx::Expression>)
    ensures
        r is Some <==> spdx_accepts(s@),
{
    spdx::Expression::parse(s).ok()
}

/// Relies on `PartialEq for spdx::Expression`, which compares the parsed
/// requirements and operators in order; each expression here is the parse of
/// its text.
#[verifier::external_body]
fn same_expression(a: &LicenseExpression, b: &LicenseExpression) -> (r: bool)
    ensures
        r == spdx_same(a@, b@),
{
    a.parsed == b.parsed
}

/// An SPDX license expression together with the text it was parsed from.
#[derive(Debug)]
pub struct LicenseExpression {
    text: String,
    parsed: spdx::Expression,
}

impl View for LicenseExpression {
    type V = Seq<char>;

    closed spec fn view(&self) -> Seq<char> {
        self.text@
    }
}

impl Clone for LicenseExpression {
    fn clone(&self) -> Self {
        proof {
            use_type_invariant(self);
        }
        match parse_expression(self.text.as_str()) {
            Some(parsed) => LicenseExpression { text: self.text.clone(), parsed },
            None => unreached(),
        }
    }
}

impl LicenseExpression {
    #[verifier::type_invariant]
    closed spec fn accepted(self) -> bool {
        spdx_accepts(self.text@)
    }

    /// Parses an SPDX license expression; `None` when the text does not
    /// parse.
    pub fn parse(s: &str) -> (r: Option<LicenseExpression>)
        ensures
            r is Some <==> spdx_accepts(s@),
            r matches Some(x) ==> x@ == s@,
    {
        match parse_expression(s) {
            Some(parsed) => Some(LicenseExpression { text: s.to_owned(), parsed }),
            None => None,
        }
    }

    /// The text the expression was parsed from.
    pub fn as_str(&self) -> (r: &str)
        ensures
            r@ == self@,
    {
        self.text.as_str()
    }
}

/// License field value: a single SPDX license expression, or a list of them
/// read as one expression with the members joined by `OR`. The list keeps the
/// members and their order as the document gave them.
#[derive(Debug, Clone)]
pub enum License {
    /// A single SPDX license expression.
    Single(LicenseExpression),
    /// A set of SPDX license expressions (read as joined by `OR`).
    AnyOf(Vec<LicenseExpression>),
}

/// A text in parentheses.
pub open spec fn parenthesized(t: Seq<char>) -> Seq<char> {
    "("@ + t + ")"@
}

/// The texts, each in parentheses, joined by ` OR `.
pub open spec fn any_of_text(ts: Seq<Seq<char>>) -> Seq<char>
    decreases ts.len(),
{
    if ts.len() == 0 {
        Seq::empty()
    } else if ts.len() == 1 {
        parenthesized(ts[0])
    } else {
        any_of_text(ts.drop_last()) + " OR "@ + parenthesized(ts.last())
    }
}

/// The texts of a run of expressions.
pub open spec fn texts_of(xs: Seq<LicenseExpression>) -> Seq<Seq<char>> {
    Seq::new(xs.len(), |i: int| xs[i]@)
}

/// The text of the one expression a license stands for.
pub open spec fn license_text(l: License) -> Seq<char> {
    match l {
        License::Single(x) => x@,
        License::AnyOf(xs) => any_of_text(texts_of(xs@)),
    }
}

/// Whether two licenses stand for equal expressions: both combined texts
/// parse, to equal expressions; or both are lists and each member of either
/// equals some member of the other, so that the order of the members does not
/// matter.
pub open spec fn license_equiv(a: License, b: License) -> bool {
    ||| spdx_accepts(license_text(a)) && spdx_accepts(license_text(b)) && spdx_same(
        license_text(a),
        license_text(b),
    )
    ||| a matches License::AnyOf(xs) && b matches License::AnyOf(ys) && covers(xs@, ys@) && covers(
        ys@,
        xs@,
    )
}

/// Whether every expression of `xs` equals, by `spdx::Expression`'s `==`,
/// some expression of `ys`.
pub open spec fn covers(xs: Seq<LicenseExpression>, ys: Seq<LicenseExpression>) -> bool {
    forall|i: int| 0 <= i < xs.len() ==> matched(#[trigger] xs[i], ys)
}

/// Whether `x` equals, by `spdx::Expression`'s `==`, some expression of `ys`.
pub open spec fn matched(x: LicenseExpression, ys: Seq<LicenseExpression>) -> bool {
    exists|j: int| 0 <= j < ys.len() && spdx_same(x@, (#[trigger] ys[j])@)
}

/// Whether the expression `x` equals some expression of `ys`.
fn member_of(x: &LicenseExpression, ys: &Vec<LicenseExpression>) -> (r: bool)
    ensures
        r == matched(*x, ys@),
{
    let mut j: usize = 0;
    while j < ys.len()
        invariant
            0 <= j <= ys@.len(),
            forall|k: int| 0 <= k < j ==> !spdx_same(x@, (#[trigger] ys@[k])@),
        decreases ys@.len() - j,
    {
        if same_expression(x, &ys[j]) {
            return true;
        }
        j = j + 1;
    }
    false
}

/// Whether every expression of `xs` equals some expression of `ys`.
fn covers_all(xs: &Vec<LicenseExpression>, ys: &Vec<LicenseExpression>) -> (r: bool)
    ensures
        r == covers(xs@, ys@),
{
    let mut i: usize = 0;
    while i < xs.len()
        invariant
            0 <= i <= xs@.len(),
            forall|k: int| 0 <= k < i ==> matched(#[trigger] xs@[k], ys@),
        decreases xs@.len() - i,
    {
        if !member_of(&xs[i], ys) {
            return false;
        }
        i = i + 1;
    }
    true
}

/// What reading `n` as a license gives: a string is a single expression, a
/// list of strings is a list of them; a text that does not parse is a grammar
/// error carrying it.
pub open spec fn license_read(n: Node, r: Result<License, DecodeError>) -> bool {
    match n {
        Node::Str(s) => if spdx_accepts(s@) {
            r matches Ok(License::Single(x)) && x@ == s@
        } else {
            r matches Err(DecodeError::GrammarError { text }) && text@ == s@
        },
        Node::List(v) => if exists|i: int| 0 <= i < v@.len() && !((#[trigger] v@[i]) is Str) {
            r matches Err(DecodeError::TypeMismatch { field }) && field@ == "license"@
        } else if forall|i: int| 0 <= i < v@.len() ==> spdx_accepts((#[trigger] v@[i])->Str_0@) {
            r matches Ok(License::AnyOf(xs)) && xs@.len() == v@.len() && forall|i: int|
                0 <= i < v@.len() ==> (#[trigger] xs@[i])@ == v@[i]->Str_0@
        } else {
            r matches Err(DecodeError::GrammarError { .. })
        },
        _ => r matches Err(DecodeError::TypeMismatch { field }) && field@ == "license"@,
    }
}

/// Whether `n` is what `l` is written as: a single expression as its text,
/// a list as the list of its members' texts in order.
pub open spec fn license_encodes_to(l: License, n: Node) -> bool {
    match l {
        License::Single(x) => n matches Node::Str(s) && s@ == x@,
        License::AnyOf(xs) => n matches Node::List(v) && v@.len() == xs@.len() && forall|i: int|
            0 <= i < xs@.len() ==> ((#[trigger] v@[i]) matches Node::Str(s) && s@ == xs@[i]@),
    }
}

impl License {
    /// Reads a license: a string is one expression, a list of strings is a
    /// list of expressions (possibly empty). A text that does not parse is a
    /// grammar error; a node of another kind is a type mismatch.
    pub fn from_node(n: &Node) -> (r: Result<License, DecodeError>)
        ensures
            license_read(*n, r),
    {
        match n {
            Node::Str(s) => match LicenseExpression::parse(s.as_str()) {
                Some(x) => Ok(License::Single(x)),
                None => Err(DecodeError::GrammarError { text: s.clone() }),
            },
            Node::List(v) => {
                let mut i: usize = 0;
                while i < v.len()
                    invariant
                        *n == Node::List(*v),
                        0 <= i <= v@.len(),
                        forall|j: int| 0 <= j < i ==> (#[trigger] v@[j]) is Str,
                    decreases v@.len() - i,
                {
                    match &v[i] {
                        Node::Str(_) => {},
                        _ => {
                            assert(!(v@[i as int] is Str));
                            assert(exists|j: int| 0 <= j < v@.len() && !((#[trigger] v@[j]) is Str));
                            return Err(DecodeError::TypeMismatch { field: "license".to_owned() });
                        },
                    }
                    i = i + 1;
                }
                let mut xs: Vec<LicenseExpression> = Vec::new();
                let mut i: usize = 0;
                while i < v.len()
                    invariant
                        *n == Node::List(*v),
                        0 <= i <= v@.len(),
                        forall|j: int| 0 <= j < v@.len() ==> (#[trigger] v@[j]) is Str,
                        forall|j: int| 0 <= j < i ==> spdx_accepts((#[trigger] v@[j])->Str_0@),
                        xs@.len() == i,
                        forall|j: int| 0 <= j < i ==> (#[trigger] xs@[j])@ == v@[j]->Str_0@,
                    decreases v@.len() - i,
                {
                    match &v[i] {
                        Node::Str(s) => match LicenseExpression::parse(s.as_str()) {
                            Some(x) => xs.push(x),
                            None => {
                                assert(!spdx_accepts(v@[i as int]->Str_0@));
                                assert(!(forall|j: int|
                                    0 <= j < v@.len() ==> spdx_accepts((#[trigger] v@[j])->Str_0@)));
                                assert(!(exists|j: int| 0 <= j < v@.len() && !((#[trigger] v@[j]) is Str)));
                                return Err(DecodeError::GrammarError { text: s.clone() });
                            },
                        },
                        _ => {},
                    }
                    i = i + 1;
                }
                Ok(License::AnyOf(xs))
            },
            _ => Err(DecodeError::TypeMismatch { field: "license".to_owned() }),
        }
    }

    /// Writes a single expression as its text and a list as the list of its
    /// members' texts, in their order.
    pub fn to_node(&self) -> (r: Node)
        ensures
            license_encodes_to(*self, r),
    {
        match self {
            License::Single(x) => Node::Str(x.as_str().to_owned()),
            License::AnyOf(xs) => {
                let mut v: Vec<Node> = Vec::new();
                let mut i: usize = 0;
                while i < xs.len()
                    invariant
                        0 <= i <= xs@.len(),
                        v@.len() == i,
                        forall|j: int|
                            0 <= j < i ==> ((#[trigger] v@[j]) matches Node::Str(s) && s@ == xs@[j]@),
                    decreases xs@.len() - i,
                {
                    v.push(Node::Str(xs[i].as_str().to_owned()));
                    i = i + 1;
                }
                Node::List(v)
            },
        }
    }

    /// The one expression the license stands for: a single expression as it
    /// is; a list's members each in parentheses, joined by `OR`, and parsed
    /// again. Where that parse fails (an empty list, for one) the result is an
    /// internal inconsistency.
    pub fn to_expression(&self) -> (r: Result<LicenseExpression, DecodeError>)
        ensures
            spdx_accepts(license_text(*self)) ==> (r matches Ok(x) && x@ == license_text(*self)),
            !spdx_accepts(license_text(*self)) ==> r matches Err(DecodeError::InternalInconsistency),
    {
        match self {
            License::Single(x) => {
                proof {
                    use_type_invariant(x);
                }
                match LicenseExpression::parse(x.as_str()) {
                    Some(y) => Ok(y),
                    None => Err(DecodeError::InternalInconsistency),
                }
            },
            License::AnyOf(xs) => {
                let mut text = String::new();
                let mut i: usize = 0;
                while i < xs.len()
                    invariant
                        0 <= i <= xs@.len(),
                        text@ == any_of_text(texts_of(xs@).subrange(0, i as int)),
                    decreases xs@.len() - i,
                {
                    proof {
                        reveal_strlit(" OR ");
                        reveal_strlit("(");
                        reveal_strlit(")");
                        assert(texts_of(xs@).subrange(0, i as int + 1).drop_last() =~= texts_of(
                            xs@,
                        ).subrange(0, i as int));
                    }
                    if i > 0 {
                        text.append(" OR ");
                    }
                    text.append("(");
                    text.append(xs[i].as_str());
                    text.append(")");
                    i = i + 1;
                    assert(text@ =~= any_of_text(texts_of(xs@).subrange(0, i as int)));
                }
                assert(texts_of(xs@).subrange(0, i as int) =~= texts_of(xs@));
                match LicenseExpression::parse(text.as_str()) {
                    Some(y) => Ok(y),
                    None => Err(DecodeError::InternalInconsistency),
                }
            },
        }
    }

    /// Whether two licenses stand for equal expressions: their combined
    /// expressions (see `to_expression`) both parse and are equal by
    /// `spdx::Expression`'s `==`, or both are lists whose members match one
    /// another in any order. The shape of the two may differ.
    pub fn equivalent(&self, other: &License) -> (r: bool)
        ensures
            r == license_equiv(*self, *other),
    {
        let combined = match (self.to_expression(), other.to_expression()) {
            (Ok(a), Ok(b)) => same_expression(&a, &b),
            _ => false,
        };
        if combined {
            return true;
        }
        match (self, other) {
            (License::AnyOf(xs), License::AnyOf(ys)) => covers_all(xs, ys) && covers_all(ys, xs),
            _ => false,
        }
    }
}

/// Licenses compare by the one expression each stands for, not by shape.
impl PartialEq for License {
    fn eq(&self, other: &License) -> (r: bool) {
        self.equivalent(other)
    }
}

impl vstd::std_specs::cmp::PartialEqSpecImpl for License {
    open spec fn obeys_eq_spec() -> bool {
        true
    }

    open spec fn eq_spec(&self, other: &License) -> bool {
        license_equiv(*self, *other)
    }
}

} // verus!
