//! Dates of the array-of-records format: date parts, ranges, raw and EDTF
//! texts, with their shared metadata.

use vstd::prelude::*;
use crate::csl::ordinaries::{OrdinaryValue, ordinary_node};
use crate::node::{
    text_key_error,    is_key_of, DecodeError, Emitted, Node, emits, find_key, lookup, number_kind, opt_want, push_entries,
    push_opt, text_at, text_field, text_ok, unknown_entries,
};

verus! {

/// The core `[year, month, day]` of a date; month and day may be absent, and
/// a day is only present together with a month.
#[derive(Debug, Clone, Copy, PartialEq, Eq, Hash, Structural)]
pub struct DateParts {
    /// Year, in the Gregorian calendar
    pub year: i64,
    /// Month, from 1 to 12
    pub month: Option<u8>,
    /// Day of the month, from 1 to 31
    pub day: Option<u8>,
}

impl DateParts {
    /// Whether the parts are in range, with a day only beside a month.
    pub open spec fn wf(self) -> bool {
        &&& (self.day is Some ==> self.month is Some)
        &&& (self.month matches Some(m) ==> 1 <= m <= 12)
        &&& (self.day matches Some(d) ==> 1 <= d <= 31)
    }
}

/// The integer a date component holds: an integer, or a string that is an
/// integer literal; `None` for anything else.
pub open spec fn component(n: Node) -> Option<int> {
    match n {
        Node::Int(i) => Some(i as int),
        Node::Str(s) => match number_kind(s@) {
            Some(v) => Some(v as int),
            None => None,
        },
        _ => None,
    }
}

/// The integer of a component known to hold one.
pub open spec fn component_value(n: Node) -> int {
    match component(n) {
        Some(v) => v,
        None => 0,
    }
}

/// What reading `n` as date parts gives: a list of one to three integer
/// components, month within 1 to 12 and day within 1 to 31.
pub open spec fn parts_read(n: Node, r: Result<DateParts, DecodeError>) -> bool {
    match n {
        Node::List(v) => {
            let s = v@;
            if !(1 <= s.len() <= 3) {
                r matches Err(DecodeError::ShapeMismatch { .. })
            } else if exists|i: int| 0 <= i < s.len() && (#[trigger] component(s[i])) is None {
                r matches Err(DecodeError::TypeMismatch { .. })
            } else if s.len() >= 2 && !(1 <= component_value(s[1]) <= 12) {
                r matches Err(DecodeError::RangeViolation { field, value }) && field@ == "month"@
                    && value == component_value(s[1])
            } else if s.len() == 3 && !(1 <= component_value(s[2]) <= 31) {
                r matches Err(DecodeError::RangeViolation { field, value }) && field@ == "day"@
                    && value == component_value(s[2])
            } else {
                r == Ok::<DateParts, DecodeError>(parts_of(s))
            }
        },
        _ => r matches Err(DecodeError::TypeMismatch { .. }),
    }
}

/// The date parts of a list of components that read without error.
pub open spec fn parts_of(s: Seq<Node>) -> DateParts {
    DateParts {
        year: component_value(s[0]) as i64,
        month: if s.len() >= 2 {
            Some(component_value(s[1]) as u8)
        } else {
            None
        },
        day: if s.len() == 3 {
            Some(component_value(s[2]) as u8)
        } else {
            None
        },
    }
}

/// Whether `n` reads as date parts without error.
pub open spec fn parts_ok(n: Node) -> bool {
    match n {
        Node::List(v) => {
            let s = v@;
            &&& 1 <= s.len() <= 3
            &&& forall|i: int| 0 <= i < s.len() ==> (#[trigger] component(s[i])) is Some
            &&& (s.len() >= 2 ==> 1 <= component_value(s[1]) <= 12)
            &&& (s.len() == 3 ==> 1 <= component_value(s[2]) <= 31)
        },
        _ => false,
    }
}

/// The components date parts are written as: integers, month and day only
/// when present.
pub open spec fn parts_nodes(p: DateParts) -> Seq<Node> {
    seq![Node::Int(p.year)] + match p.month {
        Some(m) => seq![Node::Int(m as i64)],
        None => Seq::empty(),
    } + match p.day {
        Some(d) => seq![Node::Int(d as i64)],
        None => Seq::empty(),
    }
}

/// Whether `n` is the list that `ps` are written as, one inner list each.
pub open spec fn parts_list_node(n: Node, ps: Seq<DateParts>) -> bool {
    n matches Node::List(v) && v@.len() == ps.len() && forall|i: int|
        0 <= i < ps.len() ==> ((#[trigger] v@[i]) matches Node::List(w) && w@ == parts_nodes(ps[i]))
}

/// Reads one component of date parts.
fn read_component(n: &Node) -> (r: Option<i64>)
    ensures
        match component(*n) {
            Some(v) => r == Some(v as i64),
            None => r is None,
        },
{
    match n {
        Node::Int(i) => Some(*i),
        Node::Str(s) => match Node::number(s.as_str()) {
            Node::Int(v) => Some(v),
            _ => None,
        },
        _ => None,
    }
}

impl DateParts {
    /// Reads date parts from a list of one to three components, each an
    /// integer or a string holding an integer literal.
    pub fn from_node(n: &Node) -> (r: Result<DateParts, DecodeError>)
        ensures
            parts_read(*n, r),
            r is Ok <==> parts_ok(*n),
            r matches Ok(p) ==> p.wf(),
    {
        match n {
            Node::List(v) => {
                if v.len() < 1 || v.len() > 3 {
                    return Err(DecodeError::ShapeMismatch { field: "date-parts".to_owned() });
                }
                let year = read_component(&v[0]);
                let month = if v.len() >= 2 {
                    read_component(&v[1])
                } else {
                    Some(0)
                };
                let day = if v.len() == 3 {
                    read_component(&v[2])
                } else {
                    Some(0)
                };
                match (year, month, day) {
                    (Some(y), Some(m), Some(d)) => {
                        proof {
                            assert forall|i: int| 0 <= i < v@.len() implies (#[trigger] component(
                                v@[i],
                            )) is Some by {
                                if i == 0 {
                                } else if i == 1 {
                                } else {
                                }
                            }
                        }
                        if v.len() >= 2 && (m < 1 || m > 12) {
                            return Err(DecodeError::RangeViolation { field: "month".to_owned(), value: m });
                        }
                        if v.len() == 3 && (d < 1 || d > 31) {
                            return Err(DecodeError::RangeViolation { field: "day".to_owned(), value: d });
                        }
                        Ok(
                            DateParts {
                                year: y,
                                month: if v.len() >= 2 {
                                    Some(m as u8)
                                } else {
                                    None
                                },
                                day: if v.len() == 3 {
                                    Some(d as u8)
                                } else {
                                    None
                                },
                            },
                        )
                    },
                    _ => {
                        proof {
                            if year is None {
                                assert(component(v@[0]) is None);
                            } else if month is None {
                                assert(component(v@[1]) is None);
                            } else {
                                assert(component(v@[2]) is None);
                            }
                        }
                        Err(DecodeError::TypeMismatch { field: "date-parts".to_owned() })
                    },
                }
            },
            _ => Err(DecodeError::TypeMismatch { field: "date-parts".to_owned() }),
        }
    }

    /// Writes the parts as a list of integers; month and day only when
    /// present.
    pub fn to_node(&self) -> (r: Node)
        ensures
            r matches Node::List(v) && v@ == parts_nodes(*self),
    {
        let mut v: Vec<Node> = Vec::new();
        v.push(Node::Int(self.year));
        match self.month {
            Some(m) => v.push(Node::Int(m as i64)),
            None => {},
        }
        match self.day {
            Some(d) => v.push(Node::Int(d as i64)),
            None => {},
        }
        assert(v@ =~= parts_nodes(*self));
        Node::List(v)
    }
}

/// Date parts that are in range are read back from what they are written as.
pub proof fn law_parts_round_trip(p: DateParts, n: Node)
    requires
        p.wf(),
        n matches Node::List(v) && v@ == parts_nodes(p),
    ensures
        parts_read(n, Ok(p)),
{
    let s = n->List_0@;
    assert(component(s[0]) == Some(p.year as int));
    if p.month is Some {
        assert(component(s[1]) == Some(p.month->Some_0 as int));
    }
    if p.day is Some {
        assert(component(s[2]) == Some(p.day->Some_0 as int));
    }
    assert(parts_of(s) == p);
}

/// What `str::to_lowercase` makes of a text.
pub uninterp spec fn lower_of(s: Seq<char>) -> Seq<char>;

/// The ASCII lower-casing of a text: `A` to `Z` become `a` to `z`, every other
/// character stays.
pub open spec fn ascii_lower(s: Seq<char>) -> Seq<char> {
    Seq::new(s.len(), |i: int| if 'A' <= s[i] && s[i] <= 'Z' {
        ((s[i] as u32) + 32) as char
    } else {
        s[i]
    })
}

/// Relies on `str::to_lowercase`: the result depends on the characters alone,
/// and on a text of ASCII characters it is the ASCII lower-casing.
#[verifier::external_body]
fn lowercase(s: &str) -> (r: String)
    ensures
        r@ == lower_of(s@),
        (forall|i: int| 0 <= i < s@.len() ==> (#[trigger] s@[i]) < '\u{80}') ==> r@ == ascii_lower(s@),
{
    s.to_lowercase()
}

/// Season value for approximate dates.
#[derive(Debug, Clone, Copy, PartialEq, Eq, Hash, Structural)]
pub enum Season {
    /// Spring season, or `season-01`.
    Spring,
    /// Summer season, or `season-02`.
    Summer,
    /// Autumn season, or `season-03`.
    Autumn,
    /// Winter season, or `season-04`.
    Winter,
}

/// The season a lower-case text names: its name, or `season-01` to
/// `season-04`.
pub open spec fn season_named(t: Seq<char>) -> Option<Season> {
    if t == "spring"@ || t == "season-01"@ {
        Some(Season::Spring)
    } else if t == "summer"@ || t == "season-02"@ {
        Some(Season::Summer)
    } else if t == "autumn"@ || t == "season-03"@ {
        Some(Season::Autumn)
    } else if t == "winter"@ || t == "season-04"@ {
        Some(Season::Winter)
    } else {
        None
    }
}

/// The text a season is written as.
pub open spec fn season_text(s: Season) -> Seq<char> {
    match s {
        Season::Spring => "spring"@,
        Season::Summer => "summer"@,
        Season::Autumn => "autumn"@,
        Season::Winter => "winter"@,
    }
}

impl Season {
    /// The season that a text already in lower case names.
    pub fn from_lowercase(t: &str) -> (r: Option<Season>)
        ensures
            r == season_named(t@),
    {
        if crate::text::same_text(t, "spring") || crate::text::same_text(t, "season-01") {
            Some(Season::Spring)
        } else if crate::text::same_text(t, "summer") || crate::text::same_text(t, "season-02") {
            Some(Season::Summer)
        } else if crate::text::same_text(t, "autumn") || crate::text::same_text(t, "season-03") {
            Some(Season::Autumn)
        } else if crate::text::same_text(t, "winter") || crate::text::same_text(t, "season-04") {
            Some(Season::Winter)
        } else {
            None
        }
    }

    /// Reads a season, in any case; a text that names none is a shape
    /// mismatch.
    pub fn from_str(s: &str) -> (r: Result<Season, DecodeError>)
        ensures
            match season_named(lower_of(s@)) {
                Some(x) => r == Ok::<Season, DecodeError>(x),
                None => r matches Err(DecodeError::ShapeMismatch { field }) && field@ == "season"@,
            },
            (forall|i: int| 0 <= i < s@.len() ==> (#[trigger] s@[i]) < '\u{80}') ==> match season_named(
                ascii_lower(s@),
            ) {
                Some(x) => r == Ok::<Season, DecodeError>(x),
                None => r is Err,
            },
    {
        let lower = lowercase(s);
        match Season::from_lowercase(lower.as_str()) {
            Some(x) => Ok(x),
            None => Err(DecodeError::ShapeMismatch { field: "season".to_owned() }),
        }
    }

    /// The name of the season, in lower case.
    pub fn as_str(&self) -> (r: &'static str)
        ensures
            r@ == season_text(*self),
    {
        match self {
            Season::Spring => "spring",
            Season::Summer => "summer",
            Season::Autumn => "autumn",
            Season::Winter => "winter",
        }
    }
}

/// Circa field of date metadata: a year or arbitrary text read as "about",
/// or a flag that the enclosing date is itself approximate.
#[derive(Debug, Clone, PartialEq, Eq, Hash)]
pub enum Circa {
    /// Arbitrary string for the circa value.
    Arbitrary(String),
    /// Approximate year.
    Year(i64),
    /// Whether the date itself is approximate.
    Bool(bool),
}

/// The circa value a node holds: a string, an integer or a flag.
pub open spec fn circa_value(n: Node) -> Option<Circa> {
    match n {
        Node::Str(s) => Some(Circa::Arbitrary(s)),
        Node::Int(i) => Some(Circa::Year(i)),
        Node::Bool(b) => Some(Circa::Bool(b)),
        _ => None,
    }
}

/// The node a circa value is written as.
pub open spec fn circa_node(c: Circa) -> Node {
    match c {
        Circa::Arbitrary(s) => Node::Str(s),
        Circa::Year(i) => Node::Int(i),
        Circa::Bool(b) => Node::Bool(b),
    }
}

impl Circa {
    /// If the circa value is an arbitrary string, returns it.
    pub fn as_arbitrary(&self) -> (r: Option<&str>)
        ensures
            match self {
                Circa::Arbitrary(s) => r matches Some(t) && t@ == s@,
                _ => r is None,
            },
    {
        match self {
            Circa::Arbitrary(s) => Some(s.as_str()),
            _ => None,
        }
    }

    /// If the circa value is a numerical year, returns it.
    pub fn as_year(&self) -> (r: Option<i64>)
        ensures
            match self {
                Circa::Year(y) => r == Some(*y),
                _ => r is None,
            },
    {
        match self {
            Circa::Year(y) => Some(*y),
            _ => None,
        }
    }

    /// If the circa value is a flag, returns it.
    pub fn as_bool(&self) -> (r: Option<bool>)
        ensures
            match self {
                Circa::Bool(b) => r == Some(*b),
                _ => r is None,
            },
    {
        match self {
            Circa::Bool(b) => Some(*b),
            _ => None,
        }
    }

    /// Writes the circa value as the scalar of its own kind.
    pub fn into_node(self) -> (r: Node)
        ensures
            r == circa_node(self),
    {
        match self {
            Circa::Arbitrary(s) => Node::Str(s),
            Circa::Year(i) => Node::Int(i),
            Circa::Bool(b) => Node::Bool(b),
        }
    }
}

/// Date metadata or less-precise fields, and the date's unrecognised entries
/// in the order they came.
#[derive(Debug, Clone, PartialEq, Eq, Hash)]
pub struct DateMeta {
    /// A season.
    pub season: Option<Season>,
    /// Imprecise date: a year, a text, or a flag that the date is approximate.
    pub circa: Option<Circa>,
    /// Full date in whatever format.
    pub literal: Option<String>,
    /// Date fields not defined above.
    /// A known field always wins: an entry here under a key the record knows is
    /// never written.
    pub extra: Vec<(String, OrdinaryValue)>,
}

/// The keys a date map knows.
pub open spec fn date_keys() -> Seq<&'static str> {
    seq!["date-parts", "season", "circa", "literal", "raw", "edtf"]
}

/// Whether the season under `season` is absent or names a season.
pub open spec fn season_ok(e: Seq<(String, Node)>) -> bool {
    match lookup(e, "season"@) {
        None => true,
        Some(Node::Str(s)) => season_named(lower_of(s@)) is Some,
        _ => false,
    }
}

/// The season under `season`.
pub open spec fn season_at(e: Seq<(String, Node)>) -> Option<Season> {
    match lookup(e, "season"@) {
        Some(Node::Str(s)) => season_named(lower_of(s@)),
        _ => None,
    }
}

/// Whether the value under `circa` is absent or a circa value.
pub open spec fn circa_ok(e: Seq<(String, Node)>) -> bool {
    match lookup(e, "circa"@) {
        None => true,
        Some(n) => circa_value(n) is Some,
    }
}

/// The circa value under `circa`.
pub open spec fn circa_at(e: Seq<(String, Node)>) -> Option<Circa> {
    match lookup(e, "circa"@) {
        Some(n) => circa_value(n),
        None => None,
    }
}

/// The ordinary value of a scalar node.
pub open spec fn scalar_value(n: Node) -> Option<OrdinaryValue> {
    match n {
        Node::Str(s) => Some(OrdinaryValue::String(s)),
        Node::Int(i) => Some(OrdinaryValue::Integer(i)),
        Node::Float(t) => Some(OrdinaryValue::Float(t)),
        _ => None,
    }
}

/// Whether each unrecognised entry of a date map holds a scalar.
pub open spec fn extras_ok(e: Seq<(String, Node)>) -> bool {
    let u = unknown_entries(e, date_keys());
    forall|i: int| 0 <= i < u.len() ==> (#[trigger] scalar_value(u[i].1)) is Some
}

/// Whether `x` holds the unrecognised entries of a date map, in their order,
/// as ordinary values.
pub open spec fn extras_from(e: Seq<(String, Node)>, x: Seq<(String, OrdinaryValue)>) -> bool {
    let u = unknown_entries(e, date_keys());
    &&& x.len() == u.len()
    &&& forall|i: int|
        0 <= i < u.len() ==> (#[trigger] x[i]).0 == u[i].0 && Some(x[i].1) == scalar_value(u[i].1)
}

/// Whether the metadata of a date map reads without error.
pub open spec fn date_meta_ok(e: Seq<(String, Node)>) -> bool {
    season_ok(e) && circa_ok(e) && text_ok(e, "literal"@) && extras_ok(e)
}

/// Whether `m` holds the metadata of the date map `e`.
pub open spec fn date_meta_from(e: Seq<(String, Node)>, m: DateMeta) -> bool {
    &&& m.season == season_at(e)
    &&& m.circa == circa_at(e)
    &&& m.literal == text_at(e, "literal"@)
    &&& extras_from(e, m.extra@)
}

/// The ordinary value of a scalar node, copied.
fn scalar_copy(n: &Node, field: &str) -> (r: Result<OrdinaryValue, DecodeError>)
    ensures
        match scalar_value(*n) {
            Some(v) => r == Ok::<OrdinaryValue, DecodeError>(v),
            None => r matches Err(DecodeError::TypeMismatch { field: f }) && f@ == field@,
        },
{
    match n {
        Node::Str(s) => Ok(OrdinaryValue::String(s.clone())),
        Node::Int(i) => Ok(OrdinaryValue::Integer(*i)),
        Node::Float(t) => Ok(OrdinaryValue::Float(t.clone())),
        _ => Err(DecodeError::TypeMismatch { field: field.to_owned() }),
    }
}

/// Copies the entries under keys a date map does not know, as ordinary
/// values; a type mismatch naming the key of the first that is not a scalar.
fn unknown_ordinaries(e: &Vec<(String, Node)>, keys: &[&str]) -> (r: Result<Vec<(String, OrdinaryValue)>, DecodeError>)
    requires
        keys@ == date_keys(),
    ensures
        r is Ok <==> extras_ok(e@),
        r matches Ok(x) ==> extras_from(e@, x@),
        r matches Err(err) ==> unknown_error(e@, err),
{
    let mut out: Vec<(String, OrdinaryValue)> = Vec::new();
    let mut i: usize = 0;
    while i < e.len()
        invariant
            keys@ == date_keys(),
            0 <= i <= e@.len(),
            ({
                let u = unknown_entries(e@.subrange(0, i as int), date_keys());
                &&& out@.len() == u.len()
                &&& forall|j: int| 0 <= j < u.len() ==> (#[trigger] scalar_value(u[j].1)) is Some
                &&& forall|j: int|
                    0 <= j < u.len() ==> (#[trigger] out@[j]).0 == u[j].0 && Some(out@[j].1)
                        == scalar_value(u[j].1)
            }),
        decreases e@.len() - i,
    {
        let ghost prev = e@.subrange(0, i as int);
        assert(e@.subrange(0, i as int + 1).drop_last() =~= prev);
        assert(e@.subrange(0, i as int + 1).last() == e@[i as int]);
        if !crate::node::is_known_key(keys, e[i].0.as_str()) {
            let v = match scalar_copy(&e[i].1, e[i].0.as_str()) {
                Ok(v) => v,
                Err(err) => {
                    proof {
                        let u = unknown_entries(e@.subrange(0, i as int + 1), date_keys());
                        assert(u.last() == e@[i as int]);
                        crate::node::lemma_unknown_prefix(e@, i as int + 1, date_keys());
                        assert(!extras_ok(e@)) by {
                            let full = unknown_entries(e@, date_keys());
                            assert(full[u.len() - 1] == u[u.len() - 1]);
                        }
                    }
                    return Err(err);
                },
            };
            out.push((e[i].0.clone(), v));
        }
        i = i + 1;
    }
    assert(e@.subrange(0, i as int) =~= e@);
    Ok(out)
}

impl DateMeta {
    /// Reads the metadata of a date map; the entries under keys a date map
    /// does not know are kept, in their order, and must be scalars.
    pub fn from_entries(e: &Vec<(String, Node)>) -> (r: Result<DateMeta, DecodeError>)
        ensures
            r matches Err(err) ==> meta_error(e@, err),
            date_meta_ok(e@) <==> r is Ok,
            r matches Ok(m) ==> date_meta_from(e@, m),
    {
        let season = match find_key(e, "season") {
            None => None,
            Some(i) => match &e[i].1 {
                Node::Str(s) => match Season::from_str(s.as_str()) {
                    Ok(x) => Some(x),
                    Err(err) => return Err(err),
                },
                _ => return Err(DecodeError::TypeMismatch { field: "season".to_owned() }),
            },
        };
        let circa = match find_key(e, "circa") {
            None => None,
            Some(i) => match &e[i].1 {
                Node::Str(s) => Some(Circa::Arbitrary(s.clone())),
                Node::Int(y) => Some(Circa::Year(*y)),
                Node::Bool(b) => Some(Circa::Bool(*b)),
                _ => return Err(DecodeError::TypeMismatch { field: "circa".to_owned() }),
            },
        };
        let literal = match text_field(e, "literal") {
            Ok(v) => v,
            Err(err) => return Err(err),
        };
        let keys = date_key_list();
        let extra = match unknown_ordinaries(e, keys.as_slice()) {
            Ok(x) => x,
            Err(err) => return Err(err),
        };
        Ok(DateMeta { season, circa, literal, extra })
    }
}

/// The key list of date maps.
fn date_key_list() -> (r: Vec<&'static str>)
    ensures
        r@ == date_keys(),
{
    let mut v: Vec<&'static str> = Vec::new();
    v.push("date-parts");
    v.push("season");
    v.push("circa");
    v.push("literal");
    v.push("raw");
    v.push("edtf");
    assert(v@ =~= date_keys());
    v
}

/// Date formats: structured single dates and ranges, raw text, and EDTF
/// text, each with the shared metadata.
#[derive(Debug, Clone, PartialEq, Eq, Hash)]
pub enum Date {
    /// Structured single date
    Single {
        /// Date as `[year, month, day]`
        date: DateParts,
        /// Additional date (meta)data
        meta: DateMeta,
    },
    /// Structured date range
    Range {
        /// Start date as `[year, month, day]`
        start: DateParts,
        /// End date as `[year, month, day]`
        end: DateParts,
        /// Additional date (meta)data
        meta: DateMeta,
    },
    /// Raw
    Raw {
        /// Date as a string in arbitrary format
        date: String,
        /// Additional date (meta)data
        meta: DateMeta,
    },
    /// EDTF
    Edtf {
        /// Date in EDTF string format
        date: String,
        /// Additional date (meta)data
        meta: DateMeta,
    },
}

/// The metadata of any date.
pub open spec fn meta_of(d: Date) -> DateMeta {
    match d {
        Date::Single { meta, .. } => meta,
        Date::Range { meta, .. } => meta,
        Date::Raw { meta, .. } => meta,
        Date::Edtf { meta, .. } => meta,
    }
}

/// The date parts of a list of components.
pub open spec fn parts_value(n: Node) -> DateParts {
    match n {
        Node::List(w) => parts_of(w@),
        _ => DateParts { year: 0, month: None, day: None },
    }
}

/// Whether `date-parts` is absent or a list of date parts that read without
/// error.
pub open spec fn parts_list_ok(e: Seq<(String, Node)>) -> bool {
    match lookup(e, "date-parts"@) {
        None => true,
        Some(Node::List(v)) => forall|i: int| 0 <= i < v@.len() ==> parts_ok(#[trigger] v@[i]),
        Some(_) => false,
    }
}

/// How many date parts `date-parts` lists.
pub open spec fn parts_count(e: Seq<(String, Node)>) -> int {
    match lookup(e, "date-parts"@) {
        Some(Node::List(v)) => v@.len() as int,
        _ => 0,
    }
}

/// The date parts at position `i` of `date-parts`.
pub open spec fn parts_at(e: Seq<(String, Node)>, i: int) -> DateParts {
    match lookup(e, "date-parts"@) {
        Some(Node::List(v)) => parts_value(v@[i]),
        _ => DateParts { year: 0, month: None, day: None },
    }
}

/// Whether every field of a date map reads without error.
pub open spec fn date_fields_ok(e: Seq<(String, Node)>) -> bool {
    parts_list_ok(e) && text_ok(e, "edtf"@) && text_ok(e, "raw"@) && date_meta_ok(e)
}

/// Whether a date map has one of the shapes of a date: one or two date
/// parts, an EDTF text, or a raw text.
pub open spec fn date_shape_ok(e: Seq<(String, Node)>) -> bool {
    parts_count(e) == 1 || parts_count(e) == 2 || text_at(e, "edtf"@) is Some || text_at(
        e,
        "raw"@,
    ) is Some
}

/// Whether `d` is what the date map `e` reads as, by the first of these that
/// matches: one date part is a single date, two are a range, then an EDTF
/// text, then a raw text.
pub open spec fn date_from(e: Seq<(String, Node)>, d: Date) -> bool {
    &&& date_meta_from(e, meta_of(d))
    &&& match d {
        Date::Single { date, .. } => parts_count(e) == 1 && date == parts_at(e, 0),
        Date::Range { start, end, .. } => parts_count(e) == 2 && start == parts_at(e, 0) && end
            == parts_at(e, 1),
        Date::Edtf { date, .. } => parts_count(e) != 1 && parts_count(e) != 2 && text_at(
            e,
            "edtf"@,
        ) == Some(date),
        Date::Raw { date, .. } => parts_count(e) != 1 && parts_count(e) != 2 && text_at(
            e,
            "edtf"@,
        ) is None && text_at(e, "raw"@) == Some(date),
    }
}

/// Whether `err` is the error of an element of `date-parts`, or of a
/// `date-parts` that is not a list.
pub open spec fn parts_error(e: Seq<(String, Node)>, err: DecodeError) -> bool {
    match lookup(e, "date-parts"@) {
        Some(Node::List(v)) => exists|i: int| 0 <= i < v@.len() && parts_read(#[trigger] v@[i], Err(err)),
        Some(_) => err matches DecodeError::TypeMismatch { field } && field@ == "date-parts"@,
        None => false,
    }
}

/// Whether `err` is the error of the season, the circa value, or an
/// unrecognised entry that is not a scalar.
pub open spec fn meta_error(e: Seq<(String, Node)>, err: DecodeError) -> bool {
    ||| text_key_error(e, "season"@, err)
    ||| lookup(e, "season"@) matches Some(Node::Str(s)) && season_named(lower_of(s@)) is None
        && named_shape_error(err, "season"@)
    ||| lookup(e, "circa"@) matches Some(n) && circa_value(n) is None && named_type_error(
        err,
        "circa"@,
    )
    ||| text_key_error(e, "literal"@, err)
    ||| unknown_error(e, err)
}

/// Whether `err` is the type mismatch of an unrecognised entry of a date map
/// that is not a scalar.
pub open spec fn unknown_error(e: Seq<(String, Node)>, err: DecodeError) -> bool {
    let u = unknown_entries(e, date_keys());
    exists|i: int|
        0 <= i < u.len() && scalar_value((#[trigger] u[i]).1) is None && named_type_error(err, u[i].0@)
}

/// Whether `err` is a shape mismatch naming `name`.
pub open spec fn named_shape_error(err: DecodeError, name: Seq<char>) -> bool {
    err matches DecodeError::ShapeMismatch { field } && field@ == name
}

/// Whether `err` is a type mismatch naming `name`.
pub open spec fn named_type_error(err: DecodeError, name: Seq<char>) -> bool {
    err matches DecodeError::TypeMismatch { field } && field@ == name
}

/// Whether `err` names a field of the date map `e` that fails to read.
pub open spec fn date_field_error(e: Seq<(String, Node)>, err: DecodeError) -> bool {
    parts_error(e, err) || text_key_error(e, "edtf"@, err) || text_key_error(e, "raw"@, err)
        || meta_error(e, err)
}

/// What decoding `n` as a date gives: an error when a field fails to read,
/// an unknown-format error carrying the map when no shape matches, else the
/// date.
pub open spec fn date_read(n: Node, r: Result<Date, DecodeError>) -> bool {
    match n {
        Node::Mapping(e) => if !date_fields_ok(e@) {
            r matches Err(err) && date_field_error(e@, err)
        } else if !date_shape_ok(e@) {
            r == Err::<Date, DecodeError>(DecodeError::UnknownFormat { node: n })
        } else {
            r matches Ok(d) && date_from(e@, d)
        },
        _ => r matches Err(DecodeError::TypeMismatch { field }) && field@ == "date"@,
    }
}

/// What reading the fields of `n` as a date gives: `None` where every field
/// reads but no shape matches.
pub open spec fn date_scan(n: Node, r: Result<Option<Date>, DecodeError>) -> bool {
    match n {
        Node::Mapping(e) => if !date_fields_ok(e@) {
            r matches Err(err) && date_field_error(e@, err)
        } else if !date_shape_ok(e@) {
            r == Ok::<Option<Date>, DecodeError>(None)
        } else {
            r matches Ok(Some(d)) && date_from(e@, d)
        },
        _ => r matches Err(DecodeError::TypeMismatch { field }) && field@ == "date"@,
    }
}

/// Reads the list under `date-parts`, every element of it.
fn parts_list(e: &Vec<(String, Node)>) -> (r: Result<Vec<DateParts>, DecodeError>)
    ensures
        r matches Err(err) ==> parts_error(e@, err),
        parts_list_ok(e@) <==> r is Ok,
        r matches Ok(ps) ==> ps@.len() == parts_count(e@) && forall|i: int|
            0 <= i < ps@.len() ==> (#[trigger] ps@[i]) == parts_at(e@, i),
{
    let mut ps: Vec<DateParts> = Vec::new();
    match find_key(e, "date-parts") {
        None => Ok(ps),
        Some(k) => match &e[k].1 {
            Node::List(v) => {
                let mut i: usize = 0;
                while i < v.len()
                    invariant
                        lookup(e@, "date-parts"@) == Some(Node::List(*v)),
                        0 <= i <= v@.len(),
                        ps@.len() == i,
                        forall|j: int| 0 <= j < i ==> parts_ok(#[trigger] v@[j]),
                        forall|j: int| 0 <= j < i ==> (#[trigger] ps@[j]) == parts_value(v@[j]),
                    decreases v@.len() - i,
                {
                    match DateParts::from_node(&v[i]) {
                        Ok(p) => ps.push(p),
                        Err(err) => return Err(err),
                    }
                    i = i + 1;
                }
                Ok(ps)
            },
            _ => Err(DecodeError::TypeMismatch { field: "date-parts".to_owned() }),
        },
    }
}

impl Date {
    /// The metadata of any variant.
    pub fn meta(&self) -> (r: &DateMeta)
        ensures
            *r == meta_of(*self),
    {
        match self {
            Date::Single { meta, .. } => meta,
            Date::Range { meta, .. } => meta,
            Date::Raw { meta, .. } => meta,
            Date::Edtf { meta, .. } => meta,
        }
    }

    /// Decodes a date map. Every field is read first, and any that fails
    /// fails the whole; then the first matching shape decides: one date part
    /// is a single date, two are a range, then an `edtf` text, then a `raw`
    /// text; with none of these the error carries the map.
    pub fn from_node(n: Node) -> (r: Result<Date, DecodeError>)
        ensures
            date_read(n, r),
    {
        match Date::scan(&n) {
            Ok(Some(d)) => Ok(d),
            Ok(None) => Err(DecodeError::UnknownFormat { node: n }),
            Err(err) => Err(err),
        }
    }

    /// Reads every field of a date map and picks the shape; `None` where no
    /// shape matches.
    fn scan(n: &Node) -> (r: Result<Option<Date>, DecodeError>)
        ensures
            date_scan(*n, r),
    {
        match n {
            Node::Mapping(e) => {
                let parts = match parts_list(e) {
                    Ok(ps) => ps,
                    Err(err) => return Err(err),
                };
                let edtf = match text_field(e, "edtf") {
                    Ok(v) => v,
                    Err(err) => return Err(err),
                };
                let raw = match text_field(e, "raw") {
                    Ok(v) => v,
                    Err(err) => return Err(err),
                };
                let meta = match DateMeta::from_entries(e) {
                    Ok(m) => m,
                    Err(err) => return Err(err),
                };
                if parts.len() == 1 {
                    Ok(Some(Date::Single { date: parts[0], meta }))
                } else if parts.len() == 2 {
                    Ok(Some(Date::Range { start: parts[0], end: parts[1], meta }))
                } else {
                    match edtf {
                        Some(date) => Ok(Some(Date::Edtf { date, meta })),
                        None => match raw {
                            Some(date) => Ok(Some(Date::Raw { date, meta })),
                            None => Ok(None),
                        },
                    }
                }
            },
            _ => Err(DecodeError::TypeMismatch { field: "date".to_owned() }),
        }
    }
}

/// The date parts a date lists under `date-parts`: one for a single date, two
/// for a range, none otherwise.
pub open spec fn listed_parts(d: Date) -> Seq<DateParts> {
    match d {
        Date::Single { date, .. } => seq![date],
        Date::Range { start, end, .. } => seq![start, end],
        _ => Seq::empty(),
    }
}

/// The text a raw or EDTF date carries.
pub open spec fn date_text_of(d: Date) -> String {
    match d {
        Date::Raw { date, .. } => date,
        Date::Edtf { date, .. } => date,
        _ => arbitrary(),
    }
}

/// The entries a date is written as: `date-parts`, `season`, `circa`,
/// `literal`, `raw` and `edtf` when present, in that order, then the
/// unrecognised entries in the order they came, but for those under a key a
/// date knows. Exactly one of `date-parts`, `raw` and `edtf` is written.
pub open spec fn date_want(d: Date) -> Seq<(Seq<char>, Emitted)> {
    let m = meta_of(d);
    opt_want(
        "date-parts"@,
        d is Single || d is Range,
        Emitted::Satisfies(|n: Node| parts_list_node(n, listed_parts(d))),
    ) + opt_want(
        "season"@,
        m.season is Some,
        Emitted::Text(
            match m.season {
                Some(x) => season_text(x),
                None => Seq::empty(),
            },
        ),
    ) + opt_want(
        "circa"@,
        m.circa is Some,
        Emitted::Value(
            match m.circa {
                Some(c) => circa_node(c),
                None => Node::Null,
            },
        ),
    ) + opt_want(
        "literal"@,
        m.literal is Some,
        Emitted::Value(
            match m.literal {
                Some(t) => Node::Str(t),
                None => Node::Null,
            },
        ),
    ) + opt_want("raw"@, d is Raw, Emitted::Value(Node::Str(date_text_of(d)))) + opt_want(
        "edtf"@,
        d is Edtf,
        Emitted::Value(Node::Str(date_text_of(d))),
    ) + extra_want(unknown_entries(m.extra@, date_keys()))
}

/// Unrecognised entries of a date, written as their values' own scalars.
pub open spec fn extra_want(x: Seq<(String, OrdinaryValue)>) -> Seq<(Seq<char>, Emitted)> {
    Seq::new(x.len(), |i: int| (x[i].0@, Emitted::Value(ordinary_node(x[i].1))))
}

/// Whether `n` is the map that `d` is written as.
pub open spec fn date_encodes_to(d: Date, n: Node) -> bool {
    n matches Node::Mapping(out) && emits(out@, date_want(d))
}

/// Writes the unrecognised entries of a date.
fn ordinary_nodes(x: Vec<(String, OrdinaryValue)>) -> (r: Vec<(String, Node)>)
    ensures
        r@.len() == x@.len(),
        forall|i: int|
            0 <= i < x@.len() ==> (#[trigger] r@[i]).0 == x@[i].0 && r@[i].1 == ordinary_node(
                x@[i].1,
            ),
{
    let ghost initial = x@;
    let mut rest = x;
    let mut out: Vec<(String, Node)> = Vec::new();
    let ghost mut i: int = 0;
    while rest.len() > 0
        invariant
            initial == x@,
            0 <= i <= initial.len(),
            rest@ == initial.subrange(i, initial.len() as int),
            out@.len() == i,
            forall|j: int|
                0 <= j < i ==> (#[trigger] out@[j]).0 == initial[j].0 && out@[j].1
                    == ordinary_node(initial[j].1),
        decreases rest@.len(),
    {
        let (k, v) = rest.remove(0);
        assert(initial[i] == (k, v));
        out.push((k, v.into_node()));
        proof {
            i = i + 1;
        }
        assert(rest@ =~= initial.subrange(i, initial.len() as int));
    }
    out
}

impl Date {
    /// Writes the date as a map: `date-parts` for a single date or a range,
    /// `raw` or `edtf` for a text, the metadata fields that are present, and
    /// then the unrecognised entries in the order they came, but for those
    /// under a key a date knows. Date parts are always written as integers.
    pub fn into_node(self) -> (r: Node)
        ensures
            date_encodes_to(self, r),
    {
        let ghost g = self;
        let (parts, raw, edtf, meta) = match self {
            Date::Single { date, meta } => {
                let mut v: Vec<Node> = Vec::new();
                v.push(date.to_node());
                (Some(Node::List(v)), None, None, meta)
            },
            Date::Range { start, end, meta } => {
                let mut v: Vec<Node> = Vec::new();
                v.push(start.to_node());
                v.push(end.to_node());
                (Some(Node::List(v)), None, None, meta)
            },
            Date::Raw { date, meta } => (None, Some(Node::Str(date)), None, meta),
            Date::Edtf { date, meta } => (None, None, Some(Node::Str(date)), meta),
        };
        let ghost m = meta;
        let mut out: Vec<(String, Node)> = Vec::new();
        proof {
            reveal(emits);
        }
        let ghost w: Seq<(Seq<char>, Emitted)> = Seq::empty();
        let ghost e0 = Emitted::Satisfies(|n: Node| parts_list_node(n, listed_parts(g)));
        push_opt(&mut out, "date-parts", parts, Ghost(w), Ghost(e0));
        let ghost w = w + opt_want("date-parts"@, g is Single || g is Range, e0);
        let season = match meta.season {
            Some(x) => Some(Node::Str(x.as_str().to_owned())),
            None => None,
        };
        let ghost e1 = Emitted::Text(
            match m.season {
                Some(x) => season_text(x),
                None => Seq::empty(),
            },
        );
        push_opt(&mut out, "season", season, Ghost(w), Ghost(e1));
        let ghost w = w + opt_want("season"@, m.season is Some, e1);
        let circa = match meta.circa {
            Some(c) => Some(c.into_node()),
            None => None,
        };
        let ghost e2 = Emitted::Value(
            match m.circa {
                Some(c) => circa_node(c),
                None => Node::Null,
            },
        );
        push_opt(&mut out, "circa", circa, Ghost(w), Ghost(e2));
        let ghost w = w + opt_want("circa"@, m.circa is Some, e2);
        let literal = match meta.literal {
            Some(t) => Some(Node::Str(t)),
            None => None,
        };
        let ghost e3 = Emitted::Value(
            match m.literal {
                Some(t) => Node::Str(t),
                None => Node::Null,
            },
        );
        push_opt(&mut out, "literal", literal, Ghost(w), Ghost(e3));
        let ghost w = w + opt_want("literal"@, m.literal is Some, e3);
        let ghost e4 = Emitted::Value(Node::Str(date_text_of(g)));
        push_opt(&mut out, "raw", raw, Ghost(w), Ghost(e4));
        let ghost w = w + opt_want("raw"@, g is Raw, e4);
        push_opt(&mut out, "edtf", edtf, Ghost(w), Ghost(e4));
        let ghost w = w + opt_want("edtf"@, g is Edtf, e4);
        let keys = date_key_list();
        let kept = crate::node::take_unknown(meta.extra, keys.as_slice());
        let ghost u = kept@;
        let extra = ordinary_nodes(kept);
        push_entries(&mut out, extra, Ghost(w));
        proof {
            assert(crate::node::want_entries(extra@) =~= extra_want(u));
            assert(w + extra_want(u) =~= date_want(g));
        }
        Node::Mapping(out)
    }
}

/// The date parts decide before any text: a date map whose fields all read
/// decodes to a single date when `date-parts` lists one date and to a range
/// when it lists two, whatever `raw` or `edtf` it also holds; only then does
/// an `edtf` text come before a `raw` one.
pub proof fn law_date_precedence(n: Node, r: Result<Date, DecodeError>)
    requires
        date_read(n, r),
        n matches Node::Mapping(e) && date_fields_ok(e@),
    ensures
        ({
            let e = n->Mapping_0@;
            &&& parts_count(e) == 1 ==> (r matches Ok(Date::Single { .. }))
            &&& parts_count(e) == 2 ==> (r matches Ok(Date::Range { .. }))
            &&& (parts_count(e) != 1 && parts_count(e) != 2 && text_at(e, "edtf"@) is Some) ==> (r matches Ok(
                Date::Edtf { .. },
            ))
            &&& (parts_count(e) != 1 && parts_count(e) != 2 && text_at(e, "edtf"@) is None && text_at(
                e,
                "raw"@,
            ) is Some) ==> (r matches Ok(Date::Raw { .. }))
        }),
{
}

/// A date is written with exactly one of `date-parts`, `raw` and `edtf`:
/// `date-parts` for a single date or a range, `raw` for a raw date, `edtf`
/// for an EDTF date, whatever its unrecognised entries hold.
pub proof fn law_date_written_shape(d: Date, out: Node)
    requires
        date_encodes_to(d, out),
    ensures
        out matches Node::Mapping(b) && (lookup(b@, "date-parts"@) is Some <==> (d is Single
            || d is Range)) && (lookup(b@, "raw"@) is Some <==> d is Raw) && (lookup(
            b@,
            "edtf"@,
        ) is Some <==> d is Edtf),
{
    broadcast use crate::node::lemma_want_find_concat, crate::node::lemma_want_find_opt;
    reveal_strlit("date-parts");
    reveal_strlit("season");
    reveal_strlit("circa");
    reveal_strlit("literal");
    reveal_strlit("raw");
    reveal_strlit("edtf");
    assert("date-parts"@.len() == 10 && "season"@.len() == 6 && "circa"@.len() == 5);
    assert("literal"@.len() == 7 && "raw"@.len() == 3 && "edtf"@.len() == 4);
    let b = out->Mapping_0@;
    let u = unknown_entries(meta_of(d).extra@, date_keys());
    crate::node::lemma_unknown_entries_keys(meta_of(d).extra@, date_keys());
    assert(date_keys()[0] == "date-parts" && date_keys()[4] == "raw" && date_keys()[5] == "edtf");
    assert(is_key_of(date_keys(), "date-parts"@));
    assert(is_key_of(date_keys(), "raw"@));
    assert(is_key_of(date_keys(), "edtf"@));
    assert forall|i: int| 0 <= i < extra_want(u).len() implies (#[trigger] extra_want(u)[i]).0 != "date-parts"@
        && extra_want(u)[i].0 != "raw"@ && extra_want(u)[i].0 != "edtf"@ by {
        assert(!is_key_of(date_keys(), u[i].0@));
    }
    crate::node::lemma_want_find_absent(extra_want(u), "date-parts"@);
    crate::node::lemma_want_find_absent(extra_want(u), "raw"@);
    crate::node::lemma_want_find_absent(extra_want(u), "edtf"@);
    crate::node::lemma_emits_lookup(b, date_want(d), "date-parts"@);
    crate::node::lemma_emits_lookup(b, date_want(d), "raw"@);
    crate::node::lemma_emits_lookup(b, date_want(d), "edtf"@);
}

} // verus!
