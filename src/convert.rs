//! Conversion of items of the array-of-records format into references of the
//! hierarchical key-value format.

use vstd::prelude::*;
use crate::cff::date::Date as CffDate;
use crate::cff::identifiers::Identifier;
use crate::cff::kinds::RefType;
use crate::cff::names::{EntityName, Name as CffName, NameMeta, PersonName};
use crate::csl::dates::{Date as CslDate, DateParts};
use crate::csl::items::{Item, ItemType};
use crate::cff::date::date_text;
use crate::cff::identifiers::identifier_want;
use crate::cff::names::encodes_to;
use crate::node::{Emitted, Node, emits, opt_want, push_opt};
use crate::weburl::{WebUrl, url_serialization};
use crate::csl::names::Name as CslName;
use crate::csl::ordinaries::{OrdinaryValue, ordinary_text};
use crate::text::{all_digits, digits_value, parse_digits};

verus! {

/// The reference type an item type converts to.
pub open spec fn ref_type_for(t: ItemType) -> RefType {
    match t {
        ItemType::Article => RefType::Article,
        ItemType::ArticleJournal => RefType::Article,
        ItemType::ArticleMagazine => RefType::MagazineArticle,
        ItemType::ArticleNewspaper => RefType::NewspaperArticle,
        ItemType::Bill => RefType::Bill,
        ItemType::Book => RefType::Book,
        ItemType::Broadcast => RefType::Generic,
        ItemType::Chapter => RefType::Book,
        ItemType::Classic => RefType::Generic,
        ItemType::Collection => RefType::Generic,
        ItemType::Dataset => RefType::Data,
        ItemType::Document => RefType::Generic,
        ItemType::Entry => RefType::Generic,
        ItemType::EntryDictionary => RefType::Dictionary,
        ItemType::EntryEncyclopedia => RefType::Encyclopedia,
        ItemType::Figure => RefType::Generic,
        ItemType::Graphic => RefType::Generic,
        ItemType::Hearing => RefType::Hearing,
        ItemType::Interview => RefType::Generic,
        ItemType::LegalCase => RefType::LegalCase,
        ItemType::Legislation => RefType::GovernmentDocument,
        ItemType::Manuscript => RefType::Generic,
        ItemType::GeographicMap => RefType::GeographicMap,
        ItemType::MotionPicture => RefType::Video,
        ItemType::MusicalScore => RefType::Music,
        ItemType::Pamphlet => RefType::Pamphlet,
        ItemType::PaperConference => RefType::ConferencePaper,
        ItemType::Patent => RefType::Patent,
        ItemType::Performance => RefType::Generic,
        ItemType::Periodical => RefType::Generic,
        ItemType::PersonalCommunication => RefType::PersonalCommunication,
        ItemType::Post => RefType::Blog,
        ItemType::PostWeblog => RefType::Blog,
        ItemType::Regulation => RefType::Statute,
        ItemType::Report => RefType::Report,
        ItemType::Review => RefType::Generic,
        ItemType::ReviewBook => RefType::Generic,
        ItemType::Software => RefType::Software,
        ItemType::Song => RefType::Music,
        ItemType::Speech => RefType::SoundRecording,
        ItemType::Standard => RefType::Standard,
        ItemType::Thesis => RefType::Thesis,
        ItemType::Treaty => RefType::GovernmentDocument,
        ItemType::Webpage => RefType::Website,
        ItemType::Gazette => RefType::Generic,
        ItemType::Video => RefType::Video,
        ItemType::LegalCommentary => RefType::Generic,
    }
}

/// The reference type closest to an item type.
pub fn convert_type(item_type: ItemType) -> (r: RefType)
    ensures
        r == ref_type_for(item_type),
{
    match item_type {
        ItemType::Article => RefType::Article,
        ItemType::ArticleJournal => RefType::Article,
        ItemType::ArticleMagazine => RefType::MagazineArticle,
        ItemType::ArticleNewspaper => RefType::NewspaperArticle,
        ItemType::Bill => RefType::Bill,
        ItemType::Book => RefType::Book,
        ItemType::Broadcast => RefType::Generic,
        ItemType::Chapter => RefType::Book,
        ItemType::Classic => RefType::Generic,
        ItemType::Collection => RefType::Generic,
        ItemType::Dataset => RefType::Data,
        ItemType::Document => RefType::Generic,
        ItemType::Entry => RefType::Generic,
        ItemType::EntryDictionary => RefType::Dictionary,
        ItemType::EntryEncyclopedia => RefType::Encyclopedia,
        ItemType::Figure => RefType::Generic,
        ItemType::Graphic => RefType::Generic,
        ItemType::Hearing => RefType::Hearing,
        ItemType::Interview => RefType::Generic,
        ItemType::LegalCase => RefType::LegalCase,
        ItemType::Legislation => RefType::GovernmentDocument,
        ItemType::Manuscript => RefType::Generic,
        ItemType::GeographicMap => RefType::GeographicMap,
        ItemType::MotionPicture => RefType::Video,
        ItemType::MusicalScore => RefType::Music,
        ItemType::Pamphlet => RefType::Pamphlet,
        ItemType::PaperConference => RefType::ConferencePaper,
        ItemType::Patent => RefType::Patent,
        ItemType::Performance => RefType::Generic,
        ItemType::Periodical => RefType::Generic,
        ItemType::PersonalCommunication => RefType::PersonalCommunication,
        ItemType::Post => RefType::Blog,
        ItemType::PostWeblog => RefType::Blog,
        ItemType::Regulation => RefType::Statute,
        ItemType::Report => RefType::Report,
        ItemType::Review => RefType::Generic,
        ItemType::ReviewBook => RefType::Generic,
        ItemType::Software => RefType::Software,
        ItemType::Song => RefType::Music,
        ItemType::Speech => RefType::SoundRecording,
        ItemType::Standard => RefType::Standard,
        ItemType::Thesis => RefType::Thesis,
        ItemType::Treaty => RefType::GovernmentDocument,
        ItemType::Webpage => RefType::Website,
        ItemType::Gazette => RefType::Generic,
        ItemType::Video => RefType::Video,
        ItemType::LegalCommentary => RefType::Generic,
    }
}

/// Relies on the `Debug` formatting of a name, for a text that shows all of
/// its fields.
#[verifier::external_body]
fn debug_text(n: &CslName) -> (r: String) {
    format!("{:?}", n)
}

/// Whether `r` is what `c` converts to: a person when it has a family or a
/// given name, else an entity named by its literal, else an entity named by
/// a text of all its fields.
pub open spec fn converted_name(c: CslName, r: CffName) -> bool {
    if c.family is Some || c.given is Some {
        r matches CffName::Person(p) && p.family_names == c.family && p.given_names == c.given
            && p.name_particle == c.non_dropping_particle && p.name_suffix == c.suffix
            && p.affiliation is None && crate::cff::names::meta_empty(p.meta)
    } else {
        r matches CffName::Entity(x) && (if c.literal is Some {
            x.name == c.literal
        } else {
            x.name is Some
        }) && x.date_start is None && x.date_end is None && crate::cff::names::meta_empty(x.meta)
    }
}

/// Converts a name: a person when it has a family or a given name, else an
/// entity named by its literal, else an entity named by a text of all its
/// fields.
pub fn convert_name(csl_name: CslName) -> (r: CffName)
    ensures
        converted_name(csl_name, r),
{
    if csl_name.family.is_some() || csl_name.given.is_some() {
        CffName::Person(
            PersonName {
                family_names: csl_name.family,
                given_names: csl_name.given,
                name_particle: csl_name.non_dropping_particle,
                name_suffix: csl_name.suffix,
                affiliation: None,
                meta: NameMeta::empty(),
            },
        )
    } else if csl_name.literal.is_some() {
        CffName::Entity(
            EntityName {
                name: csl_name.literal,
                date_start: None,
                date_end: None,
                meta: NameMeta::empty(),
            },
        )
    } else {
        let text = debug_text(&csl_name);
        CffName::Entity(
            EntityName { name: Some(text), date_start: None, date_end: None, meta: NameMeta::empty() },
        )
    }
}

/// Converts names one for one; with no names at all, the result is the
/// anonymous author alone.
pub fn convert_authors(names: Vec<CslName>) -> (r: Vec<CffName>)
    ensures
        names@.len() == 0 ==> r@.len() == 1 && r@[0] is Anonymous,
        names@.len() > 0 ==> r@.len() == names@.len() && forall|i: int|
            0 <= i < names@.len() ==> converted_name(names@[i], #[trigger] r@[i]),
{
    let ghost initial = names@;
    let mut rest = names;
    let mut out: Vec<CffName> = Vec::new();
    let ghost mut i: int = 0;
    while rest.len() > 0
        invariant
            0 <= i <= initial.len(),
            rest@ == initial.subrange(i, initial.len() as int),
            out@.len() == i,
            forall|j: int| 0 <= j < i ==> converted_name(initial[j], #[trigger] out@[j]),
        decreases rest@.len(),
    {
        let n = rest.remove(0);
        assert(initial[i] == n);
        out.push(convert_name(n));
        proof {
            i = i + 1;
        }
        assert(rest@ =~= initial.subrange(i, initial.len() as int));
    }
    if out.len() == 0 {
        out.push(CffName::Anonymous);
    }
    out
}

/// The calendar date of date parts that have a month and a day.
pub open spec fn calendar_of(p: DateParts) -> Option<CffDate> {
    match (p.month, p.day) {
        (Some(m), Some(d)) => Some(CffDate { year: p.year, month: m, day: d }),
        _ => None,
    }
}

/// Converts a single date, or the start of a range, whose parts have a month
/// and a day; anything else converts to nothing.
pub fn convert_date(date: Option<CslDate>) -> (r: Option<CffDate>)
    ensures
        r == match date {
            Some(CslDate::Single { date, .. }) => calendar_of(date),
            Some(CslDate::Range { start, .. }) => calendar_of(start),
            _ => None,
        },
{
    let parts = match date {
        Some(CslDate::Single { date, .. }) => date,
        Some(CslDate::Range { start, .. }) => start,
        _ => return None,
    };
    match (parts.month, parts.day) {
        (Some(m), Some(d)) => Some(CffDate { year: parts.year, month: m, day: d }),
        _ => None,
    }
}

/// The text of an ordinary value, when there is one.
pub fn ov_string(ov: Option<OrdinaryValue>) -> (r: Option<String>)
    ensures
        match ov {
            Some(v) => r matches Some(t) && t@ == ordinary_text(v),
            None => r is None,
        },
{
    match ov {
        Some(v) => Some(v.to_text()),
        None => None,
    }
}

/// The value of an unsigned decimal literal with an optional leading `+`,
/// when it fits `u64`.
pub open spec fn unsigned_value(s: Seq<char>) -> Option<int> {
    let d = if s.len() > 0 && s[0] == '+' {
        s.drop_first()
    } else {
        s
    };
    if all_digits(d) && 0 <= digits_value(d) <= u64::MAX {
        Some(digits_value(d))
    } else {
        None
    }
}

/// Reads an unsigned decimal literal with an optional leading `+`.
pub fn parse_u64(s: &str) -> (r: Option<u64>)
    ensures
        match unsigned_value(s@) {
            Some(v) => r == Some(v as u64),
            None => r is None,
        },
{
    let n = s.unicode_len();
    if n > 0 && s.get_char(0) == '+' {
        let rest = s.substring_char(1, n);
        assert(rest@ =~= s@.drop_first());
        parse_digits(rest)
    } else {
        parse_digits(s)
    }
}

/// Whether `k` is the position of the first `-` in `s`.
pub open spec fn first_dash(s: Seq<char>, k: int) -> bool {
    0 <= k < s.len() && s[k] == '-' && forall|j: int| 0 <= j < k ==> s[j] != '-'
}

/// The text before the first `-`, or the whole text when it has none.
pub open spec fn head_segment(s: Seq<char>) -> Seq<char> {
    if exists|k: int| first_dash(s, k) {
        s.take(choose|k: int| first_dash(s, k))
    } else {
        s
    }
}

/// The text after the first `-`, when there is one.
pub open spec fn tail_segment(s: Seq<char>) -> Option<Seq<char>> {
    if exists|k: int| first_dash(s, k) {
        Some(s.skip((choose|k: int| first_dash(s, k)) + 1))
    } else {
        None
    }
}

/// The position of the first `-`, when there is one.
fn find_dash(s: &str) -> (r: Option<usize>)
    ensures
        match r {
            Some(k) => first_dash(s@, k as int),
            None => forall|k: int| !first_dash(s@, k),
        },
{
    let n = s.unicode_len();
    let mut i: usize = 0;
    while i < n
        invariant
            n == s@.len(),
            0 <= i <= n,
            forall|j: int| 0 <= j < i ==> s@[j] != '-',
        decreases n - i,
    {
        if s.get_char(i) == '-' {
            return Some(i);
        }
        i = i + 1;
    }
    None
}

proof fn lemma_first_dash_unique(s: Seq<char>, k: int)
    requires
        first_dash(s, k),
    ensures
        (choose|j: int| first_dash(s, j)) == k,
{
    let c = choose|j: int| first_dash(s, j);
    assert(first_dash(s, c));
    if c < k {
        assert(s[c] != '-');
    } else if c > k {
        assert(s[k] != '-');
    }
}

/// The first page of a page field: the whole text when it is a number, else
/// the number before the first `-`.
pub fn page_start(page: Option<String>) -> (r: Option<u64>)
    ensures
        match page {
            None => r is None,
            Some(p) => match unsigned_value(p@) {
                Some(v) => r == Some(v as u64),
                None => match unsigned_value(head_segment(p@)) {
                    Some(v) => r == Some(v as u64),
                    None => r is None,
                },
            },
        },
{
    let page = match page {
        Some(p) => p,
        None => return None,
    };
    match parse_u64(page.as_str()) {
        Some(v) => Some(v),
        None => match find_dash(page.as_str()) {
            Some(k) => {
                proof {
                    lemma_first_dash_unique(page@, k as int);
                }
                let head = page.as_str().substring_char(0, k);
                assert(head@ =~= page@.take(k as int));
                parse_u64(head)
            },
            None => parse_u64(page.as_str()),
        },
    }
}

/// The last page of a page field: the whole text when it is a number, else
/// the number after the first `-`.
pub fn page_end(page: Option<String>) -> (r: Option<u64>)
    ensures
        match page {
            None => r is None,
            Some(p) => match unsigned_value(p@) {
                Some(v) => r == Some(v as u64),
                None => match tail_segment(p@) {
                    Some(t) => match unsigned_value(t) {
                        Some(v) => r == Some(v as u64),
                        None => r is None,
                    },
                    None => r is None,
                },
            },
        },
{
    let page = match page {
        Some(p) => p,
        None => return None,
    };
    match parse_u64(page.as_str()) {
        Some(v) => Some(v),
        None => match find_dash(page.as_str()) {
            Some(k) => {
                proof {
                    lemma_first_dash_unique(page@, k as int);
                }
                let n = page.as_str().unicode_len();
                let tail = page.as_str().substring_char(k + 1, n);
                assert(tail@ =~= page@.skip(k as int + 1));
                parse_u64(tail)
            },
            None => None,
        },
    }
}

/// Whether `id` is an "other" identifier with the given value and a
/// description of the given text.
pub open spec fn labelled_other(id: Identifier, value: String, label: Seq<char>) -> bool {
    id matches Identifier::Other { value: v, description: Some(d) } && v == value && d@ == label
}

/// Identifiers for an electronic ISSN and a linking ISSN, those present, in
/// that order, labelled `EISSN` and `ISSNL`.
pub fn extra_idents(eissn: Option<String>, issnl: Option<String>) -> (r: Vec<Identifier>)
    ensures
        r@.len() == (if eissn is Some { 1int } else { 0 }) + (if issnl is Some { 1int } else { 0 }),
        eissn matches Some(e) ==> labelled_other(r@[0], e, "EISSN"@),
        issnl matches Some(l) ==> labelled_other(r@[r@.len() - 1], l, "ISSNL"@),
{
    let mut idents: Vec<Identifier> = Vec::new();
    match eissn {
        Some(value) => idents.push(
            Identifier::Other { value, description: Some("EISSN".to_owned()) },
        ),
        None => {},
    }
    match issnl {
        Some(value) => idents.push(
            Identifier::Other { value, description: Some("ISSNL".to_owned()) },
        ),
        None => {},
    }
    idents
}

/// The text of an ordinary value, when there is one.
pub open spec fn text_of(v: Option<OrdinaryValue>) -> Option<Seq<char>> {
    match v {
        Some(x) => Some(ordinary_text(x)),
        None => None,
    }
}

/// A text to write under `key`, when there is one.
pub open spec fn want_view(key: Seq<char>, t: Option<Seq<char>>) -> Seq<(Seq<char>, Emitted)> {
    opt_want(
        key,
        t is Some,
        Emitted::Text(
            match t {
                Some(x) => x,
                None => Seq::empty(),
            },
        ),
    )
}

/// A count to write under `key`, when there is one that fits `i64`.
pub open spec fn want_count(key: Seq<char>, v: Option<int>) -> Seq<(Seq<char>, Emitted)> {
    opt_want(
        key,
        v matches Some(x) && x <= i64::MAX,
        Emitted::Value(
            Node::Int(
                match v {
                    Some(x) => x as i64,
                    None => 0,
                },
            ),
        ),
    )
}

/// A one-element list of a text to write under `key`, when there is a text.
pub open spec fn want_single(key: Seq<char>, t: Option<Seq<char>>) -> Seq<(Seq<char>, Emitted)> {
    opt_want(
        key,
        t is Some,
        Emitted::Satisfies(
            |n: Node|
                n matches Node::List(v) && v@.len() == 1 && (v@[0] matches Node::Str(s) && Some(s@)
                    == t),
        ),
    )
}

/// The calendar date a date converts to.
pub open spec fn calendar_from(d: Option<CslDate>) -> Option<CffDate> {
    match d {
        Some(CslDate::Single { date, .. }) => calendar_of(date),
        Some(CslDate::Range { start, .. }) => calendar_of(start),
        _ => None,
    }
}

/// The text of a converted date, when there is one.
pub open spec fn date_view(d: Option<CslDate>) -> Option<Seq<char>> {
    match calendar_from(d) {
        Some(c) => Some(date_text(c)),
        None => None,
    }
}

/// The first page of a page text.
pub open spec fn page_first(t: Option<Seq<char>>) -> Option<int> {
    match t {
        None => None,
        Some(p) => match unsigned_value(p) {
            Some(v) => Some(v),
            None => unsigned_value(head_segment(p)),
        },
    }
}

/// The last page of a page text.
pub open spec fn page_last(t: Option<Seq<char>>) -> Option<int> {
    match t {
        None => None,
        Some(p) => match unsigned_value(p) {
            Some(v) => Some(v),
            None => match tail_segment(p) {
                Some(x) => unsigned_value(x),
                None => None,
            },
        },
    }
}

/// The serialized URL of a text the URL parser accepts.
pub open spec fn url_view(t: Option<Seq<char>>) -> Option<Seq<char>> {
    match t {
        Some(u) => url_serialization(u),
        None => None,
    }
}

/// The volume number of a text that is a number.
pub open spec fn volume_value(t: Option<Seq<char>>) -> Option<int> {
    match t {
        Some(v) => unsigned_value(v),
        None => None,
    }
}

/// Whether `n` is the list of authors that names convert to: each converted
/// name written as a map, or the anonymous author alone when there are none.
pub open spec fn authors_node(n: Node, cs: Seq<CslName>) -> bool {
    n matches Node::List(v) && if cs.len() == 0 {
        v@.len() == 1 && encodes_to(CffName::Anonymous, v@[0])
    } else {
        exists|ns: Seq<CffName>| #[trigger] converted_all(cs, ns) && encoded_all(ns, v@)
    }
}

/// Whether `ns` are what `cs` convert to, one for one.
pub open spec fn converted_all(cs: Seq<CslName>, ns: Seq<CffName>) -> bool {
    ns.len() == cs.len() && forall|i: int| 0 <= i < cs.len() ==> converted_name(cs[i], #[trigger] ns[i])
}

/// Whether `v` are what `ns` are written as, one for one.
pub open spec fn encoded_all(ns: Seq<CffName>, v: Seq<Node>) -> bool {
    v.len() == ns.len() && forall|i: int| 0 <= i < ns.len() ==> encodes_to(ns[i], #[trigger] v[i])
}

/// Whether `n` is an "other" identifier written with the given value and
/// description texts.
pub open spec fn other_ident_node(n: Node, value: Seq<char>, label: Seq<char>) -> bool {
    n matches Node::Mapping(m) && emits(
        m@,
        seq![
            ("type"@, Emitted::Text("other"@)),
            ("value"@, Emitted::Text(value)),
            ("description"@, Emitted::Text(label)),
        ],
    )
}

/// Whether `n` is the list of identifiers for an electronic ISSN and a
/// linking ISSN, those present, in that order.
pub open spec fn idents_node(n: Node, e: Option<Seq<char>>, l: Option<Seq<char>>) -> bool {
    n matches Node::List(v) && v@.len() == (if e is Some { 1int } else { 0 }) + (if l is Some {
        1int
    } else {
        0
    }) && (e matches Some(x) ==> other_ident_node(v@[0], x, "EISSN"@)) && (l matches Some(y)
        ==> other_ident_node(v@[v@.len() - 1], y, "ISSNL"@))
}

/// The entries a reference is written as, first part: type, authors and the
/// descriptive texts.
pub open spec fn reference_want_a(it: Item) -> Seq<(Seq<char>, Emitted)> {
    seq![("type"@, Emitted::Text(crate::cff::kinds::ref_type_text(ref_type_for(it.item_type))))]
        + seq![("authors"@, Emitted::Satisfies(|n: Node| authors_node(n, it.author@ + it.contributor@)))]
        + want_view("abbreviation"@, text_of(it.title_short)) + want_view(
        "abstract"@,
        text_of(it.abstract_text),
    ) + want_view("collection-title"@, text_of(it.container_title)) + want_view(
        "copyright"@,
        if it.rights is Some {
            text_of(it.rights)
        } else {
            text_of(it.license)
        },
    ) + want_view("database"@, text_of(it.source))
}

/// The entries a reference is written as, second part: dates, DOI, pages
/// and identifiers.
pub open spec fn reference_want_b(it: Item) -> Seq<(Seq<char>, Emitted)> {
    want_view("date-accessed"@, date_view(it.accessed)) + want_view(
        "date-published"@,
        date_view(it.published),
    ) + want_view("doi"@, text_of(it.doi)) + want_count("start"@, page_first(text_of(it.page)))
        + want_count("end"@, page_last(text_of(it.page))) + opt_want(
        "identifiers"@,
        it.eissn is Some || it.issnl is Some,
        Emitted::Satisfies(|n: Node| idents_node(n, text_of(it.eissn), text_of(it.issnl))),
    )
}

/// The entries a reference is written as, last part: publication details,
/// keywords, languages, notes, title, URL and volume.
pub open spec fn reference_want_c(it: Item) -> Seq<(Seq<char>, Emitted)> {
    want_view("issn"@, text_of(it.issn)) + want_view("issue"@, text_of(it.issue)) + want_view(
        "issue-date"@,
        date_view(it.issued),
    ) + want_view("journal"@, text_of(it.journal_abbrevation)) + want_single(
        "keywords"@,
        text_of(it.category),
    ) + want_single("languages"@, text_of(it.language)) + want_view("notes"@, text_of(it.note))
        + want_view("title"@, text_of(it.title)) + want_view("url"@, url_view(text_of(it.url)))
        + want_count("volume"@, volume_value(text_of(it.volume)))
}

/// The entries a reference converted from an item is written as.
pub open spec fn reference_want(it: Item) -> Seq<(Seq<char>, Emitted)> {
    reference_want_a(it) + reference_want_b(it) + reference_want_c(it)
}

/// Writes a text as a string node.
fn view_node(t: Option<String>) -> (r: Option<Node>)
    ensures
        r is Some == t is Some,
        t matches Some(x) ==> r == Some(Node::Str(x)),
{
    match t {
        Some(x) => Some(Node::Str(x)),
        None => None,
    }
}

/// Writes a count that fits `i64` as an integer node.
fn count_node(v: Option<u64>) -> (r: Option<Node>)
    ensures
        r is Some == (v matches Some(x) && x <= i64::MAX),
        v matches Some(x) ==> (x <= i64::MAX ==> r == Some(Node::Int(x as i64))),
{
    match v {
        Some(x) => if x <= 0x7fff_ffff_ffff_ffffu64 {
            Some(Node::Int(x as i64))
        } else {
            None
        },
        None => None,
    }
}

/// Writes a count that fits `i64` as an integer node.
fn count_of(v: Option<u64>, Ghost(want): Ghost<Option<int>>) -> (r: Option<Node>)
    requires
        match want {
            Some(x) => 0 <= x <= u64::MAX && v == Some(x as u64),
            None => v is None,
        },
    ensures
        r is Some == (want matches Some(x) && x <= i64::MAX),
        r matches Some(n) ==> n == Node::Int(want->Some_0 as i64),
{
    count_node(v)
}

/// Writes a text as a one-element list.
fn single_node(t: Option<String>) -> (r: Option<Node>)
    ensures
        r is Some == t is Some,
        t matches Some(x) ==> (r matches Some(n) && n matches Node::List(v) && v@.len() == 1
            && v@[0] == Node::Str(x)),
{
    match t {
        Some(x) => {
            let mut v: Vec<Node> = Vec::new();
            v.push(Node::Str(x));
            Some(Node::List(v))
        },
        None => None,
    }
}

/// The text of a converted date.
fn date_node(d: Option<CslDate>) -> (r: Option<Node>)
    ensures
        r is Some == date_view(d) is Some,
        date_view(d) matches Some(t) ==> (r matches Some(n) && n matches Node::Str(s) && s@ == t),
{
    match convert_date(d) {
        Some(c) => Some(Node::Str(c.to_text())),
        None => None,
    }
}

/// The list of authors: the converted names, written as maps.
fn authors_list(people: Vec<CslName>) -> (r: Node)
    ensures
        authors_node(r, people@),
{
    let ghost cs = people@;
    let names = convert_authors(people);
    let ghost ns = names@;
    let mut rest = names;
    let mut out: Vec<Node> = Vec::new();
    let ghost mut i: int = 0;
    while rest.len() > 0
        invariant
            0 <= i <= ns.len(),
            rest@ == ns.subrange(i, ns.len() as int),
            out@.len() == i,
            forall|j: int| 0 <= j < i ==> encodes_to(ns[j], #[trigger] out@[j]),
        decreases rest@.len(),
    {
        let n = rest.remove(0);
        assert(ns[i] == n);
        out.push(n.into_node());
        proof {
            i = i + 1;
        }
        assert(rest@ =~= ns.subrange(i, ns.len() as int));
    }
    proof {
        if cs.len() == 0 {
            assert(ns[0] == CffName::Anonymous);
        }
        if cs.len() > 0 {
            assert(converted_all(cs, ns) && encoded_all(ns, out@));
        }
    }
    Node::List(out)
}

/// Writes an identifier known to be an "other" one with a description.
fn other_node(id: &Identifier, Ghost(value): Ghost<Seq<char>>, Ghost(label): Ghost<Seq<char>>) -> (r: Node)
    requires
        id matches Identifier::Other { value: v, description: Some(d) } && v@ == value && d@ == label,
    ensures
        other_ident_node(r, value, label),
{
    let r = id.to_node();
    assert(identifier_want(*id) =~= seq![
        ("type"@, Emitted::Text("other"@)),
        ("value"@, Emitted::Text(value)),
        ("description"@, Emitted::Text(label)),
    ]);
    r
}

/// The list of identifiers for the ISSNs that are present.
fn idents_list(eissn: Option<String>, issnl: Option<String>) -> (r: Node)
    ensures
        idents_node(
            r,
            match eissn {
                Some(x) => Some(x@),
                None => None,
            },
            match issnl {
                Some(x) => Some(x@),
                None => None,
            },
        ),
{
    let ghost e = eissn;
    let ghost l = issnl;
    let has_e = eissn.is_some();
    let has_l = issnl.is_some();
    let ids = extra_idents(eissn, issnl);
    let mut out: Vec<Node> = Vec::new();
    let mut i: usize = 0;
    proof {
        reveal_strlit("EISSN");
        reveal_strlit("ISSNL");
    }
    if has_e {
        out.push(other_node(&ids[0], Ghost(e->Some_0@), Ghost("EISSN"@)));
        i = 1;
    }
    if has_l {
        out.push(other_node(&ids[i], Ghost(l->Some_0@), Ghost("ISSNL"@)));
    }
    Node::List(out)
}

fn push_reference_a(
    out: &mut Vec<(String, Node)>,
    item_type: ItemType,
    author: Vec<CslName>,
    contributor: Vec<CslName>,
    title_short: Option<OrdinaryValue>,
    abstract_text: Option<OrdinaryValue>,
    container_title: Option<OrdinaryValue>,
    rights: Option<OrdinaryValue>,
    license: Option<OrdinaryValue>,
    source: Option<OrdinaryValue>,
    Ghost(g): Ghost<Item>,
    Ghost(w0): Ghost<Seq<(Seq<char>, Emitted)>>,
)
    requires
        emits(old(out)@, w0),
        item_type == g.item_type,
        author == g.author,
        contributor == g.contributor,
        title_short == g.title_short,
        abstract_text == g.abstract_text,
        container_title == g.container_title,
        rights == g.rights,
        license == g.license,
        source == g.source,
    ensures
        emits(final(out)@, w0 + reference_want_a(g)),
{
    let ghost t0 = Emitted::Text(crate::cff::kinds::ref_type_text(ref_type_for(g.item_type)));
    crate::node::push_node(out, "type", Node::Str(convert_type(item_type).as_str().to_owned()), Ghost(w0), Ghost(t0));
    let ghost p = seq![("type"@, t0)];
    let mut people = author;
    let mut more = contributor;
    people.append(&mut more);
    let ghost t1 = Emitted::Satisfies(|n: Node| authors_node(n, g.author@ + g.contributor@));
    crate::node::push_node(out, "authors", authors_list(people), Ghost(w0 + p), Ghost(t1));
    proof {
        crate::node::lemma_seq_assoc(w0, p, seq![("authors"@, t1)]);
    }
    let ghost p = p + seq![("authors"@, t1)];
    push_opt(out, "abbreviation", view_node(ov_string(title_short)), Ghost(w0 + p), Ghost(Emitted::Text(match text_of(g.title_short) { Some(x) => x, None => Seq::empty() })));
    proof {
        crate::node::lemma_seq_assoc(w0, p, want_view("abbreviation"@, text_of(g.title_short)));
    }
    let ghost p = p + want_view("abbreviation"@, text_of(g.title_short));
    push_opt(out, "abstract", view_node(ov_string(abstract_text)), Ghost(w0 + p), Ghost(Emitted::Text(match text_of(g.abstract_text) { Some(x) => x, None => Seq::empty() })));
    proof {
        crate::node::lemma_seq_assoc(w0, p, want_view("abstract"@, text_of(g.abstract_text)));
    }
    let ghost p = p + want_view("abstract"@, text_of(g.abstract_text));
    push_opt(out, "collection-title", view_node(ov_string(container_title)), Ghost(w0 + p), Ghost(Emitted::Text(match text_of(g.container_title) { Some(x) => x, None => Seq::empty() })));
    proof {
        crate::node::lemma_seq_assoc(w0, p, want_view("collection-title"@, text_of(g.container_title)));
    }
    let ghost p = p + want_view("collection-title"@, text_of(g.container_title));
    let rights = ov_string(rights);
    let license = ov_string(license);
    let copyright = match rights {
        Some(r) => Some(r),
        None => license,
    };
    let ghost cp = if g.rights is Some {
        text_of(g.rights)
    } else {
        text_of(g.license)
    };
    push_opt(out, "copyright", view_node(copyright), Ghost(w0 + p), Ghost(Emitted::Text(match cp { Some(x) => x, None => Seq::empty() })));
    proof {
        crate::node::lemma_seq_assoc(w0, p, want_view("copyright"@, cp));
    }
    let ghost p = p + want_view("copyright"@, cp);
    push_opt(out, "database", view_node(ov_string(source)), Ghost(w0 + p), Ghost(Emitted::Text(match text_of(g.source) { Some(x) => x, None => Seq::empty() })));
    proof {
        crate::node::lemma_seq_assoc(w0, p, want_view("database"@, text_of(g.source)));
    }
    let ghost p = p + want_view("database"@, text_of(g.source));
    assert(p =~= reference_want_a(g));
}

fn push_reference_b(
    out: &mut Vec<(String, Node)>,
    accessed: Option<CslDate>,
    published: Option<CslDate>,
    doi: Option<OrdinaryValue>,
    page: Option<OrdinaryValue>,
    eissn: Option<OrdinaryValue>,
    issnl: Option<OrdinaryValue>,
    Ghost(g): Ghost<Item>,
    Ghost(w0): Ghost<Seq<(Seq<char>, Emitted)>>,
)
    requires
        emits(old(out)@, w0),
        accessed == g.accessed,
        published == g.published,
        doi == g.doi,
        page == g.page,
        eissn == g.eissn,
        issnl == g.issnl,
    ensures
        emits(final(out)@, w0 + reference_want_b(g)),
{
    let ghost text_empty = Seq::<char>::empty();
    push_opt(out, "date-accessed", date_node(accessed), Ghost(w0), Ghost(Emitted::Text(match date_view(g.accessed) { Some(x) => x, None => text_empty })));
    let ghost p = want_view("date-accessed"@, date_view(g.accessed));
    push_opt(out, "date-published", date_node(published), Ghost(w0 + p), Ghost(Emitted::Text(match date_view(g.published) { Some(x) => x, None => text_empty })));
    proof {
        crate::node::lemma_seq_assoc(w0, p, want_view("date-published"@, date_view(g.published)));
    }
    let ghost p = p + want_view("date-published"@, date_view(g.published));
    push_opt(out, "doi", view_node(ov_string(doi)), Ghost(w0 + p), Ghost(Emitted::Text(match text_of(g.doi) { Some(x) => x, None => text_empty })));
    proof {
        crate::node::lemma_seq_assoc(w0, p, want_view("doi"@, text_of(g.doi)));
    }
    let ghost p = p + want_view("doi"@, text_of(g.doi));
    let page = ov_string(page);
    let page2 = match &page {
        Some(x) => Some(x.clone()),
        None => None,
    };
    let ghost pf = page_first(text_of(g.page));
    push_opt(out, "start", count_of(page_start(page), Ghost(pf)), Ghost(w0 + p), Ghost(Emitted::Value(Node::Int(match pf { Some(x) => x as i64, None => 0 }))));
    proof {
        crate::node::lemma_seq_assoc(w0, p, want_count("start"@, pf));
    }
    let ghost p = p + want_count("start"@, pf);
    let ghost pl = page_last(text_of(g.page));
    push_opt(out, "end", count_of(page_end(page2), Ghost(pl)), Ghost(w0 + p), Ghost(Emitted::Value(Node::Int(match pl { Some(x) => x as i64, None => 0 }))));
    proof {
        crate::node::lemma_seq_assoc(w0, p, want_count("end"@, pl));
    }
    let ghost p = p + want_count("end"@, pl);
    let eissn = ov_string(eissn);
    let issnl = ov_string(issnl);
    let ids = if eissn.is_some() || issnl.is_some() {
        Some(idents_list(eissn, issnl))
    } else {
        None
    };
    let ghost ti = Emitted::Satisfies(|n: Node| idents_node(n, text_of(g.eissn), text_of(g.issnl)));
    push_opt(out, "identifiers", ids, Ghost(w0 + p), Ghost(ti));
    proof {
        crate::node::lemma_seq_assoc(w0, p, opt_want("identifiers"@, g.eissn is Some || g.issnl is Some, ti));
    }
    let ghost p = p + opt_want("identifiers"@, g.eissn is Some || g.issnl is Some, ti);
    assert(p =~= reference_want_b(g));
}

fn push_reference_c(
    out: &mut Vec<(String, Node)>,
    issn: Option<OrdinaryValue>,
    issue: Option<OrdinaryValue>,
    issued: Option<CslDate>,
    journal_abbrevation: Option<OrdinaryValue>,
    category: Option<OrdinaryValue>,
    language: Option<OrdinaryValue>,
    note: Option<OrdinaryValue>,
    title: Option<OrdinaryValue>,
    url: Option<OrdinaryValue>,
    volume: Option<OrdinaryValue>,
    Ghost(g): Ghost<Item>,
    Ghost(w0): Ghost<Seq<(Seq<char>, Emitted)>>,
)
    requires
        emits(old(out)@, w0),
        issn == g.issn,
        issue == g.issue,
        issued == g.issued,
        journal_abbrevation == g.journal_abbrevation,
        category == g.category,
        language == g.language,
        note == g.note,
        title == g.title,
        url == g.url,
        volume == g.volume,
    ensures
        emits(final(out)@, w0 + reference_want_c(g)),
{
    let ghost text_empty = Seq::<char>::empty();
    let ghost p = Seq::<(Seq<char>, Emitted)>::empty();
    assert(w0 + p =~= w0);
    push_opt(out, "issn", view_node(ov_string(issn)), Ghost(w0 + p), Ghost(Emitted::Text(match text_of(g.issn) { Some(x) => x, None => text_empty })));
    proof {
        crate::node::lemma_seq_assoc(w0, p, want_view("issn"@, text_of(g.issn)));
    }
    let ghost p = p + want_view("issn"@, text_of(g.issn));
    push_opt(out, "issue", view_node(ov_string(issue)), Ghost(w0 + p), Ghost(Emitted::Text(match text_of(g.issue) { Some(x) => x, None => text_empty })));
    proof {
        crate::node::lemma_seq_assoc(w0, p, want_view("issue"@, text_of(g.issue)));
    }
    let ghost p = p + want_view("issue"@, text_of(g.issue));
    push_opt(out, "issue-date", date_node(issued), Ghost(w0 + p), Ghost(Emitted::Text(match date_view(g.issued) { Some(x) => x, None => text_empty })));
    proof {
        crate::node::lemma_seq_assoc(w0, p, want_view("issue-date"@, date_view(g.issued)));
    }
    let ghost p = p + want_view("issue-date"@, date_view(g.issued));
    push_opt(out, "journal", view_node(ov_string(journal_abbrevation)), Ghost(w0 + p), Ghost(Emitted::Text(match text_of(g.journal_abbrevation) { Some(x) => x, None => text_empty })));
    proof {
        crate::node::lemma_seq_assoc(w0, p, want_view("journal"@, text_of(g.journal_abbrevation)));
    }
    let ghost p = p + want_view("journal"@, text_of(g.journal_abbrevation));
    push_opt(out, "keywords", single_node(ov_string(category)), Ghost(w0 + p), Ghost(Emitted::Satisfies(|n: Node| n matches Node::List(v) && v@.len() == 1 && (v@[0] matches Node::Str(s) && Some(s@) == text_of(g.category)))));
    proof {
        crate::node::lemma_seq_assoc(w0, p, want_single("keywords"@, text_of(g.category)));
    }
    let ghost p = p + want_single("keywords"@, text_of(g.category));
    push_opt(out, "languages", single_node(ov_string(language)), Ghost(w0 + p), Ghost(Emitted::Satisfies(|n: Node| n matches Node::List(v) && v@.len() == 1 && (v@[0] matches Node::Str(s) && Some(s@) == text_of(g.language)))));
    proof {
        crate::node::lemma_seq_assoc(w0, p, want_single("languages"@, text_of(g.language)));
    }
    let ghost p = p + want_single("languages"@, text_of(g.language));
    push_opt(out, "notes", view_node(ov_string(note)), Ghost(w0 + p), Ghost(Emitted::Text(match text_of(g.note) { Some(x) => x, None => text_empty })));
    proof {
        crate::node::lemma_seq_assoc(w0, p, want_view("notes"@, text_of(g.note)));
    }
    let ghost p = p + want_view("notes"@, text_of(g.note));
    push_opt(out, "title", view_node(ov_string(title)), Ghost(w0 + p), Ghost(Emitted::Text(match text_of(g.title) { Some(x) => x, None => text_empty })));
    proof {
        crate::node::lemma_seq_assoc(w0, p, want_view("title"@, text_of(g.title)));
    }
    let ghost p = p + want_view("title"@, text_of(g.title));
    push_opt(out, "url", url_node(ov_string(url)), Ghost(w0 + p), Ghost(Emitted::Text(match url_view(text_of(g.url)) { Some(x) => x, None => text_empty })));
    proof {
        crate::node::lemma_seq_assoc(w0, p, want_view("url"@, url_view(text_of(g.url))));
    }
    let ghost p = p + want_view("url"@, url_view(text_of(g.url)));
    push_opt(out, "volume", count_of(volume_of(ov_string(volume)), Ghost(volume_value(text_of(g.volume)))), Ghost(w0 + p), Ghost(Emitted::Value(Node::Int(match volume_value(text_of(g.volume)) { Some(x) => x as i64, None => 0 }))));
    proof {
        crate::node::lemma_seq_assoc(w0, p, want_count("volume"@, volume_value(text_of(g.volume))));
    }
    let ghost p = p + want_count("volume"@, volume_value(text_of(g.volume)));
    assert(p =~= reference_want_c(g));
}

/// The serialized URL of a text the URL parser accepts.
fn url_node(t: Option<String>) -> (r: Option<Node>)
    ensures
        r is Some == url_view(match t { Some(x) => Some(x@), None => None }) is Some,
        url_view(match t { Some(x) => Some(x@), None => None }) matches Some(u) ==> (r matches Some(n) && n matches Node::Str(s) && s@ == u),
{
    match t {
        Some(x) => match WebUrl::parse(x.as_str()) {
            Some(u) => Some(Node::Str(u.to_text())),
            None => None,
        },
        None => None,
    }
}

/// The volume number of a text that is a number.
fn volume_of(t: Option<String>) -> (r: Option<u64>)
    ensures
        match volume_value(match t { Some(x) => Some(x@), None => None }) {
            Some(v) => r == Some(v as u64),
            None => r is None,
        },
{
    match t {
        Some(x) => parse_u64(x.as_str()),
        None => None,
    }
}

/// Converts an item into a reference of the key-value format, written as a
/// map: its type converted, its authors and contributors converted (the
/// anonymous author when there are none), and each of the item's fields that
/// has a counterpart, under that counterpart's key, in the reference's
/// declared order. Pages, a URL and a volume are kept only where they read as
/// such.
pub fn convert_ref(item: Item) -> (r: Node)
    ensures
        r matches Node::Mapping(out) && emits(out@, reference_want(item)),
{
    let ghost g = item;
    let Item {
        id: _,
        item_type,
        author,
        contributor,
        issued,
        updated: _,
        published,
        accessed,
        category,
        issn,
        eissn,
        issnl,
        doi,
        url,
        title,
        title_short,
        summary: _,
        abstract_text,
        container_title,
        journal_abbrevation,
        volume,
        issue,
        page,
        language,
        source,
        rights,
        license,
        note,
        fields: _,
    } = item;
    let mut out: Vec<(String, Node)> = Vec::new();
    proof {
        reveal(emits);
    }
    let ghost w0 = Seq::<(Seq<char>, Emitted)>::empty();
    push_reference_a(
        &mut out,
        item_type,
        author,
        contributor,
        title_short,
        abstract_text,
        container_title,
        rights,
        license,
        source,
        Ghost(g),
        Ghost(w0),
    );
    let ghost w1 = w0 + reference_want_a(g);
    push_reference_b(&mut out, accessed, published, doi, page, eissn, issnl, Ghost(g), Ghost(w1));
    let ghost w2 = w1 + reference_want_b(g);
    push_reference_c(
        &mut out,
        issn,
        issue,
        issued,
        journal_abbrevation,
        category,
        language,
        note,
        title,
        url,
        volume,
        Ghost(g),
        Ghost(w2),
    );
    assert(w2 + reference_want_c(g) =~= reference_want(g));
    Node::Mapping(out)
}

} // verus!
