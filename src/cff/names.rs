//! Names of persons and entities, told apart by the keys a record holds.

use vstd::prelude::*;
use crate::cff::date::{Date, date_error, date_read, date_text, lemma_date_text_round_trip, valid_date_text};
use crate::node::{
    text_key_error,    DecodeError, Emitted, Node, emits, faithful_at, find_key, is_key_of, keyed, lemma_emits_lookup,
    lemma_find_absent, lemma_unknown_entries, lemma_want_find_concat, lemma_want_find_entries,
    lemma_want_find_text, lookup, push_entries, push_text, take_unknown, text_at, text_field,
    text_ok, unknown_entries, want_entries, want_find, want_text,
};
use crate::weburl::{WebUrl, url_serialization};

verus! {

/// Information about a person or entity.
#[derive(Debug, PartialEq)]
pub enum Name {
    /// A human person.
    Person(PersonName),
    /// An entity, e.g. research institution, company, co-op.
    Entity(EntityName),
    /// A truly anonymous author: the record `name: anonymous`.
    Anonymous,
}

/// The name of a person.
#[derive(Debug, PartialEq)]
pub struct PersonName {
    /// Family names.
    pub family_names: Option<String>,
    /// Given or chosen names.
    pub given_names: Option<String>,
    /// The name particle, e.g. "von".
    pub name_particle: Option<String>,
    /// The name suffix, e.g. "Jr.".
    pub name_suffix: Option<String>,
    /// Affiliation (e.g. organisation membership).
    pub affiliation: Option<String>,
    /// Common name metadata fields.
    pub meta: NameMeta,
}

/// An entity, e.g. research institution, company, co-op.
#[derive(Debug, PartialEq)]
pub struct EntityName {
    /// The name of the entity.
    pub name: Option<String>,
    /// The entity's starting date, e.g. of a conference.
    pub date_start: Option<Date>,
    /// The entity's ending date, e.g. of a conference.
    pub date_end: Option<Date>,
    /// Common name metadata fields.
    pub meta: NameMeta,
}

/// Fields common to persons and entities, and the record's unrecognised
/// entries, kept in the order they came.
#[derive(Debug, PartialEq)]
pub struct NameMeta {
    /// ORCID identifier.
    pub orcid: Option<WebUrl>,
    /// Physical or postal address.
    pub address: Option<String>,
    /// Alias or pseudonym.
    pub alias: Option<String>,
    /// City.
    pub city: Option<String>,
    /// Country.
    pub country: Option<String>,
    /// Email address.
    pub email: Option<String>,
    /// Post code.
    pub post_code: Option<String>,
    /// Region.
    pub region: Option<String>,
    /// Location.
    pub location: Option<String>,
    /// Telephone number.
    pub tel: Option<String>,
    /// Fax number.
    pub fax: Option<String>,
    /// Website.
    pub website: Option<WebUrl>,
    /// Entries of the record under keys that no field above knows.
    /// A known field always wins: an entry here under a key the record knows is
    /// never written.
    pub extra: Vec<(String, Node)>,
}

/// The keys of a person record.
pub open spec fn person_keys() -> Seq<&'static str> {
    seq!["family-names", "given-names", "name-particle", "name-suffix", "affiliation"]
        + meta_keys()
}

/// The keys a person is never written with an unrecognised entry under: its
/// own keys, and `name`, which would make it an entity.
pub open spec fn person_written_keys() -> Seq<&'static str> {
    person_keys() + seq!["name"]
}

/// The keys of an entity record.
pub open spec fn entity_keys() -> Seq<&'static str> {
    seq!["name", "date-start", "date-end"] + meta_keys()
}

/// The keys shared by person and entity records.
pub open spec fn meta_keys() -> Seq<&'static str> {
    seq![
        "orcid",
        "address",
        "alias",
        "city",
        "country",
        "email",
        "post-code",
        "region",
        "location",
        "tel",
        "fax",
        "website",
    ]
}

/// Whether `key` is absent or holds a URL that parses.
pub open spec fn url_ok(e: Seq<(String, Node)>, key: Seq<char>) -> bool {
    match lookup(e, key) {
        None => true,
        Some(Node::Str(s)) => url_serialization(s@) is Some,
        _ => false,
    }
}

/// Whether `u` is what the URL under `key` reads as.
pub open spec fn url_from(e: Seq<(String, Node)>, key: Seq<char>, u: Option<WebUrl>) -> bool {
    match lookup(e, key) {
        Some(Node::Str(s)) => u matches Some(w) && url_serialization(s@) == Some(w@),
        _ => u is None,
    }
}

/// Whether `key` is absent or holds a valid date text.
pub open spec fn date_ok(e: Seq<(String, Node)>, key: Seq<char>) -> bool {
    match lookup(e, key) {
        None => true,
        Some(Node::Str(s)) => valid_date_text(s@),
        _ => false,
    }
}

/// Whether `d` is what the date under `key` reads as.
pub open spec fn date_from(e: Seq<(String, Node)>, key: Seq<char>, d: Option<Date>) -> bool {
    match lookup(e, key) {
        Some(Node::Str(s)) => d matches Some(x) && date_read(s@, Ok(x)),
        _ => d is None,
    }
}

/// Whether the shared fields of a record read without error.
pub open spec fn meta_ok(e: Seq<(String, Node)>) -> bool {
    &&& url_ok(e, "orcid"@)
    &&& text_ok(e, "address"@)
    &&& text_ok(e, "alias"@)
    &&& text_ok(e, "city"@)
    &&& text_ok(e, "country"@)
    &&& text_ok(e, "email"@)
    &&& text_ok(e, "post-code"@)
    &&& text_ok(e, "region"@)
    &&& text_ok(e, "location"@)
    &&& text_ok(e, "tel"@)
    &&& text_ok(e, "fax"@)
    &&& url_ok(e, "website"@)
}

/// Whether `m` holds what the record `e`, of the given keys, says.
pub open spec fn meta_from(e: Seq<(String, Node)>, m: NameMeta, keys: Seq<&str>) -> bool {
    &&& url_from(e, "orcid"@, m.orcid)
    &&& m.address == text_at(e, "address"@)
    &&& m.alias == text_at(e, "alias"@)
    &&& m.city == text_at(e, "city"@)
    &&& m.country == text_at(e, "country"@)
    &&& m.email == text_at(e, "email"@)
    &&& m.post_code == text_at(e, "post-code"@)
    &&& m.region == text_at(e, "region"@)
    &&& m.location == text_at(e, "location"@)
    &&& m.tel == text_at(e, "tel"@)
    &&& m.fax == text_at(e, "fax"@)
    &&& url_from(e, "website"@, m.website)
    &&& m.extra@ == unknown_entries(e, keys)
}

/// Whether a person record reads without error.
pub open spec fn person_ok(e: Seq<(String, Node)>) -> bool {
    &&& text_ok(e, "family-names"@)
    &&& text_ok(e, "given-names"@)
    &&& text_ok(e, "name-particle"@)
    &&& text_ok(e, "name-suffix"@)
    &&& text_ok(e, "affiliation"@)
    &&& meta_ok(e)
}

/// Whether `p` holds what the person record `e` says.
pub open spec fn person_from(e: Seq<(String, Node)>, p: PersonName) -> bool {
    &&& p.family_names == text_at(e, "family-names"@)
    &&& p.given_names == text_at(e, "given-names"@)
    &&& p.name_particle == text_at(e, "name-particle"@)
    &&& p.name_suffix == text_at(e, "name-suffix"@)
    &&& p.affiliation == text_at(e, "affiliation"@)
    &&& meta_from(e, p.meta, person_keys())
}

/// Whether an entity record reads without error.
pub open spec fn entity_ok(e: Seq<(String, Node)>) -> bool {
    &&& text_ok(e, "name"@)
    &&& date_ok(e, "date-start"@)
    &&& date_ok(e, "date-end"@)
    &&& meta_ok(e)
}

/// Whether `x` holds what the entity record `e` says.
pub open spec fn entity_from(e: Seq<(String, Node)>, x: EntityName) -> bool {
    &&& x.name == text_at(e, "name"@)
    &&& date_from(e, "date-start"@, x.date_start)
    &&& date_from(e, "date-end"@, x.date_end)
    &&& meta_from(e, x.meta, entity_keys())
}

/// Whether `err` is the shape mismatch of a key holding a text that the URL
/// parser refuses.
pub open spec fn url_text_error(e: Seq<(String, Node)>, key: Seq<char>, err: DecodeError) -> bool {
    &&& err matches DecodeError::ShapeMismatch { field } && field@ == key
    &&& lookup(e, key) matches Some(Node::Str(s)) && url_serialization(s@) is None
}

/// Whether `err` is the error of reading the text under `key` as a date.
pub open spec fn date_text_error(e: Seq<(String, Node)>, key: Seq<char>, err: DecodeError) -> bool {
    lookup(e, key) matches Some(Node::Str(s)) && date_error(s@, err)
}

/// Whether `key` is a URL key holding a text that the URL parser refuses.
pub open spec fn url_key_error(e: Seq<(String, Node)>, key: Seq<char>) -> bool {
    &&& (key == "orcid"@ || key == "website"@)
    &&& lookup(e, key) matches Some(Node::Str(s)) && url_serialization(s@) is None
}

/// Whether `err` comes from the date under one of an entity's date keys.
pub open spec fn date_key_error(e: Seq<(String, Node)>, err: DecodeError) -> bool {
    ||| lookup(e, "date-start"@) matches Some(Node::Str(s)) && date_error(s@, err)
    ||| lookup(e, "date-end"@) matches Some(Node::Str(s)) && date_error(s@, err)
}

/// Whether `err` names a field of the record `e` that fails to read: a type
/// mismatch names a key whose value is not a string; a shape mismatch names a
/// URL key whose text the URL parser refuses, or comes from a date; a range
/// violation comes from a date.
pub open spec fn name_field_error(e: Seq<(String, Node)>, err: DecodeError) -> bool {
    match err {
        DecodeError::TypeMismatch { field } => lookup(e, field@) matches Some(n) && !(n is Str),
        DecodeError::ShapeMismatch { field } => url_key_error(e, field@) || date_key_error(e, err),
        DecodeError::RangeViolation { .. } => date_key_error(e, err),
        _ => false,
    }
}

/// What resolving `node` as a name gives: a map without `name` is a person,
/// one whose `name` is the text `anonymous` is the anonymous author, one with
/// any other text under `name` is an entity.
pub open spec fn resolves_to(node: Node, r: Result<Name, DecodeError>) -> bool {
    match node {
        Node::Mapping(e) => match lookup(e@, "name"@) {
            None => if person_ok(e@) {
                r matches Ok(Name::Person(p)) && person_from(e@, p)
            } else {
                r matches Err(err) && name_field_error(e@, err)
            },
            Some(Node::Str(s)) => if s@ == "anonymous"@ {
                r matches Ok(Name::Anonymous)
            } else if entity_ok(e@) {
                r matches Ok(Name::Entity(x)) && entity_from(e@, x)
            } else {
                r matches Err(err) && name_field_error(e@, err)
            },
            Some(_) => r matches Err(DecodeError::TypeMismatch { field }) && field@ == "name"@,
        },
        _ => r matches Err(DecodeError::TypeMismatch { field }) && field@ == "name"@,
    }
}

/// The URL under `key`; a shape mismatch naming `key` when the URL parser
/// refuses the text.
pub(crate) fn url_field(e: &Vec<(String, Node)>, key: &str) -> (r: Result<Option<WebUrl>, DecodeError>)
    ensures
        r matches Err(err) ==> text_key_error(e@, key@, err) || url_text_error(e@, key@, err),
        url_ok(e@, key@) <==> r is Ok,
        r matches Ok(u) ==> url_from(e@, key@, u),
{
    match text_field(e, key) {
        Ok(None) => Ok(None),
        Ok(Some(s)) => match WebUrl::parse(s.as_str()) {
            Some(u) => Ok(Some(u)),
            None => Err(DecodeError::ShapeMismatch { field: key.to_owned() }),
        },
        Err(err) => Err(err),
    }
}

/// The calendar date under `key`.
pub(crate) fn date_field(e: &Vec<(String, Node)>, key: &str) -> (r: Result<Option<Date>, DecodeError>)
    ensures
        r matches Err(err) ==> text_key_error(e@, key@, err) || date_text_error(e@, key@, err),
        date_ok(e@, key@) <==> r is Ok,
        r matches Ok(d) ==> date_from(e@, key@, d),
{
    proof {
        reveal(crate::cff::date::date_read);
    }
    match text_field(e, key) {
        Ok(None) => Ok(None),
        Ok(Some(s)) => match Date::from_str(s.as_str()) {
            Ok(d) => Ok(Some(d)),
            Err(err) => Err(err),
        },
        Err(err) => Err(err),
    }
}

/// The key list of person records.
fn person_key_list() -> (r: Vec<&'static str>)
    ensures
        r@ == person_keys(),
{
    let mut v: Vec<&'static str> = Vec::new();
    v.push("family-names");
    v.push("given-names");
    v.push("name-particle");
    v.push("name-suffix");
    v.push("affiliation");
    push_meta_keys(&mut v);
    assert(v@ =~= person_keys());
    v
}

/// The keys a person is never written with an unrecognised entry under.
fn person_written_key_list() -> (r: Vec<&'static str>)
    ensures
        r@ == person_written_keys(),
{
    let mut v = person_key_list();
    v.push("name");
    assert(v@ =~= person_written_keys());
    v
}

/// The key list of entity records.
fn entity_key_list() -> (r: Vec<&'static str>)
    ensures
        r@ == entity_keys(),
{
    let mut v: Vec<&'static str> = Vec::new();
    v.push("name");
    v.push("date-start");
    v.push("date-end");
    push_meta_keys(&mut v);
    assert(v@ =~= entity_keys());
    v
}

fn push_meta_keys(v: &mut Vec<&'static str>)
    ensures
        final(v)@ == old(v)@ + meta_keys(),
{
    v.push("orcid");
    v.push("address");
    v.push("alias");
    v.push("city");
    v.push("country");
    v.push("email");
    v.push("post-code");
    v.push("region");
    v.push("location");
    v.push("tel");
    v.push("fax");
    v.push("website");
    assert(v@ =~= old(v)@ + meta_keys());
}

/// Reads the shared fields of a record; `keys` are all the keys the record
/// knows, and the entries under any other key are kept as they came.
fn decode_meta(e: Vec<(String, Node)>, keys: &[&str]) -> (r: Result<NameMeta, DecodeError>)
    ensures
        r matches Err(err) ==> name_field_error(e@, err),
        meta_ok(e@) <==> r is Ok,
        r matches Ok(m) ==> meta_from(e@, m, keys@),
{
    let orcid = match url_field(&e, "orcid") { Ok(v) => v, Err(err) => return Err(err) };
    let address = match text_field(&e, "address") { Ok(v) => v, Err(err) => return Err(err) };
    let alias = match text_field(&e, "alias") { Ok(v) => v, Err(err) => return Err(err) };
    let city = match text_field(&e, "city") { Ok(v) => v, Err(err) => return Err(err) };
    let country = match text_field(&e, "country") { Ok(v) => v, Err(err) => return Err(err) };
    let email = match text_field(&e, "email") { Ok(v) => v, Err(err) => return Err(err) };
    let post_code = match text_field(&e, "post-code") { Ok(v) => v, Err(err) => return Err(err) };
    let region = match text_field(&e, "region") { Ok(v) => v, Err(err) => return Err(err) };
    let location = match text_field(&e, "location") { Ok(v) => v, Err(err) => return Err(err) };
    let tel = match text_field(&e, "tel") { Ok(v) => v, Err(err) => return Err(err) };
    let fax = match text_field(&e, "fax") { Ok(v) => v, Err(err) => return Err(err) };
    let website = match url_field(&e, "website") { Ok(v) => v, Err(err) => return Err(err) };
    let extra = take_unknown(e, keys);
    Ok(
        NameMeta {
            orcid,
            address,
            alias,
            city,
            country,
            email,
            post_code,
            region,
            location,
            tel,
            fax,
            website,
            extra,
        },
    )
}

/// Whether every shared field is absent and there are no unrecognised
/// entries.
pub open spec fn meta_empty(m: NameMeta) -> bool {
    &&& m.orcid is None
    &&& m.address is None
    &&& m.alias is None
    &&& m.city is None
    &&& m.country is None
    &&& m.email is None
    &&& m.post_code is None
    &&& m.region is None
    &&& m.location is None
    &&& m.tel is None
    &&& m.fax is None
    &&& m.website is None
    &&& m.extra@.len() == 0
}

impl NameMeta {
    /// Metadata with every field absent.
    pub fn empty() -> (r: NameMeta)
        ensures
            meta_empty(r),
    {
        NameMeta {
            orcid: None,
            address: None,
            alias: None,
            city: None,
            country: None,
            email: None,
            post_code: None,
            region: None,
            location: None,
            tel: None,
            fax: None,
            website: None,
            extra: Vec::new(),
        }
    }
}

impl PersonName {
    /// Reads a person record from its entries.
    pub fn from_entries(e: Vec<(String, Node)>) -> (r: Result<PersonName, DecodeError>)
        ensures
            r matches Err(err) ==> name_field_error(e@, err),
            person_ok(e@) <==> r is Ok,
            r matches Ok(p) ==> person_from(e@, p),
    {
        let family_names = match text_field(&e, "family-names") { Ok(v) => v, Err(err) => return Err(err) };
        let given_names = match text_field(&e, "given-names") { Ok(v) => v, Err(err) => return Err(err) };
        let name_particle = match text_field(&e, "name-particle") { Ok(v) => v, Err(err) => return Err(err) };
        let name_suffix = match text_field(&e, "name-suffix") { Ok(v) => v, Err(err) => return Err(err) };
        let affiliation = match text_field(&e, "affiliation") { Ok(v) => v, Err(err) => return Err(err) };
        let keys = person_key_list();
        let meta = match decode_meta(e, keys.as_slice()) { Ok(m) => m, Err(err) => return Err(err) };
        Ok(PersonName { family_names, given_names, name_particle, name_suffix, affiliation, meta })
    }
}

impl EntityName {
    /// Reads an entity record from its entries.
    pub fn from_entries(e: Vec<(String, Node)>) -> (r: Result<EntityName, DecodeError>)
        ensures
            r matches Err(err) ==> name_field_error(e@, err),
            entity_ok(e@) <==> r is Ok,
            r matches Ok(x) ==> entity_from(e@, x),
    {
        let name = match text_field(&e, "name") { Ok(v) => v, Err(err) => return Err(err) };
        let date_start = match date_field(&e, "date-start") { Ok(v) => v, Err(err) => return Err(err) };
        let date_end = match date_field(&e, "date-end") { Ok(v) => v, Err(err) => return Err(err) };
        let keys = entity_key_list();
        let meta = match decode_meta(e, keys.as_slice()) { Ok(m) => m, Err(err) => return Err(err) };
        Ok(EntityName { name, date_start, date_end, meta })
    }
}

impl Name {
    /// Resolves a record to a person, an entity or the anonymous author by
    /// its keys alone: without `name` it is a person; with `name` holding the
    /// text `anonymous` it is the anonymous author, whatever else it holds;
    /// with any other text under `name` it is an entity.
    pub fn resolve(node: Node) -> (r: Result<Name, DecodeError>)
        ensures
            resolves_to(node, r),
    {
        proof {
            reveal_strlit("anonymous");
        }
        match node {
            Node::Mapping(e) => {
                match find_key(&e, "name") {
                    None => match PersonName::from_entries(e) {
                        Ok(p) => Ok(Name::Person(p)),
                        Err(err) => Err(err),
                    },
                    Some(i) => {
                        let anonymous = match &e[i].1 {
                            Node::Str(s) => crate::text::same_text(s.as_str(), "anonymous"),
                            _ => return Err(DecodeError::TypeMismatch { field: "name".to_owned() }),
                        };
                        if anonymous {
                            Ok(Name::Anonymous)
                        } else {
                            match EntityName::from_entries(e) {
                                Ok(x) => Ok(Name::Entity(x)),
                                Err(err) => Err(err),
                            }
                        }
                    },
                }
            },
            _ => Err(DecodeError::TypeMismatch { field: "name".to_owned() }),
        }
    }
}

/// A URL to write under `key`, when there is one.
pub open spec fn want_url(key: Seq<char>, u: Option<WebUrl>) -> Seq<(Seq<char>, Emitted)> {
    match u {
        Some(w) => seq![(key, Emitted::Text(w@))],
        None => Seq::empty(),
    }
}

/// A date to write under `key`, when there is one.
pub open spec fn want_date(key: Seq<char>, d: Option<Date>) -> Seq<(Seq<char>, Emitted)> {
    match d {
        Some(x) => seq![(key, Emitted::Text(date_text(x)))],
        None => Seq::empty(),
    }
}

/// The entries that the shared fields are written as, in their declared
/// order, followed by the unrecognised entries in the order they came; an
/// entry under one of the keys `skip` is left out, so that it never shadows
/// or repeats a known field.
pub open spec fn meta_want(m: NameMeta, skip: Seq<&str>) -> Seq<(Seq<char>, Emitted)> {
    want_url("orcid"@, m.orcid) + want_text("address"@, m.address) + want_text("alias"@, m.alias)
        + want_text("city"@, m.city) + want_text("country"@, m.country) + want_text(
        "email"@,
        m.email,
    ) + want_text("post-code"@, m.post_code) + want_text("region"@, m.region) + want_text(
        "location"@,
        m.location,
    ) + want_text("tel"@, m.tel) + want_text("fax"@, m.fax) + want_url("website"@, m.website)
        + want_entries(unknown_entries(m.extra@, skip))
}

/// The entries that a person is written as.
pub open spec fn person_want(p: PersonName) -> Seq<(Seq<char>, Emitted)> {
    want_text("family-names"@, p.family_names) + want_text("given-names"@, p.given_names)
        + want_text("name-particle"@, p.name_particle) + want_text("name-suffix"@, p.name_suffix)
        + want_text("affiliation"@, p.affiliation) + meta_want(p.meta, person_written_keys())
}

/// The entries that an entity is written as.
pub open spec fn entity_want(x: EntityName) -> Seq<(Seq<char>, Emitted)> {
    want_text("name"@, x.name) + want_date("date-start"@, x.date_start) + want_date(
        "date-end"@,
        x.date_end,
    ) + meta_want(x.meta, entity_keys())
}

/// The entries that a name is written as: a person without `name`, an entity
/// with it, the anonymous author as exactly `name: anonymous`.
pub open spec fn name_want(n: Name) -> Seq<(Seq<char>, Emitted)> {
    match n {
        Name::Person(p) => person_want(p),
        Name::Entity(x) => entity_want(x),
        Name::Anonymous => seq![("name"@, Emitted::Text("anonymous"@))],
    }
}

/// Whether `node` is the map that `n` is written as.
pub open spec fn encodes_to(n: Name, node: Node) -> bool {
    node matches Node::Mapping(out) && emits(out@, name_want(n))
}

pub(crate) fn push_url(
    out: &mut Vec<(String, Node)>,
    key: &str,
    u: Option<WebUrl>,
    Ghost(want): Ghost<Seq<(Seq<char>, Emitted)>>,
)
    requires
        emits(old(out)@, want),
    ensures
        emits(final(out)@, want + want_url(key@, u)),
{
    let text = match &u {
        Some(w) => Some(w.to_text()),
        None => None,
    };
    push_text(out, key, text, Ghost(want));
    assert(want_text(key@, text) =~= want_url(key@, u));
}

pub(crate) fn push_date(
    out: &mut Vec<(String, Node)>,
    key: &str,
    d: Option<Date>,
    Ghost(want): Ghost<Seq<(Seq<char>, Emitted)>>,
)
    requires
        emits(old(out)@, want),
    ensures
        emits(final(out)@, want + want_date(key@, d)),
{
    let text = match d {
        Some(x) => Some(x.to_text()),
        None => None,
    };
    push_text(out, key, text, Ghost(want));
    assert(want_text(key@, text) =~= want_date(key@, d));
}

fn push_meta(
    out: &mut Vec<(String, Node)>,
    m: NameMeta,
    skip: &[&str],
    Ghost(want): Ghost<Seq<(Seq<char>, Emitted)>>,
)
    requires
        emits(old(out)@, want),
    ensures
        emits(final(out)@, want + meta_want(m, skip@)),
{
    let ghost g = m;
    push_url(out, "orcid", m.orcid, Ghost(want));
    let ghost p = want_url("orcid"@, g.orcid);
    push_text(out, "address", m.address, Ghost(want + p));
    proof {
        crate::node::lemma_seq_assoc(want, p, want_text("address"@, g.address));
    }
    let ghost p = p + want_text("address"@, g.address);
    push_text(out, "alias", m.alias, Ghost(want + p));
    proof {
        crate::node::lemma_seq_assoc(want, p, want_text("alias"@, g.alias));
    }
    let ghost p = p + want_text("alias"@, g.alias);
    push_text(out, "city", m.city, Ghost(want + p));
    proof {
        crate::node::lemma_seq_assoc(want, p, want_text("city"@, g.city));
    }
    let ghost p = p + want_text("city"@, g.city);
    push_text(out, "country", m.country, Ghost(want + p));
    proof {
        crate::node::lemma_seq_assoc(want, p, want_text("country"@, g.country));
    }
    let ghost p = p + want_text("country"@, g.country);
    push_text(out, "email", m.email, Ghost(want + p));
    proof {
        crate::node::lemma_seq_assoc(want, p, want_text("email"@, g.email));
    }
    let ghost p = p + want_text("email"@, g.email);
    push_text(out, "post-code", m.post_code, Ghost(want + p));
    proof {
        crate::node::lemma_seq_assoc(want, p, want_text("post-code"@, g.post_code));
    }
    let ghost p = p + want_text("post-code"@, g.post_code);
    push_text(out, "region", m.region, Ghost(want + p));
    proof {
        crate::node::lemma_seq_assoc(want, p, want_text("region"@, g.region));
    }
    let ghost p = p + want_text("region"@, g.region);
    push_text(out, "location", m.location, Ghost(want + p));
    proof {
        crate::node::lemma_seq_assoc(want, p, want_text("location"@, g.location));
    }
    let ghost p = p + want_text("location"@, g.location);
    push_text(out, "tel", m.tel, Ghost(want + p));
    proof {
        crate::node::lemma_seq_assoc(want, p, want_text("tel"@, g.tel));
    }
    let ghost p = p + want_text("tel"@, g.tel);
    push_text(out, "fax", m.fax, Ghost(want + p));
    proof {
        crate::node::lemma_seq_assoc(want, p, want_text("fax"@, g.fax));
    }
    let ghost p = p + want_text("fax"@, g.fax);
    push_url(out, "website", m.website, Ghost(want + p));
    proof {
        crate::node::lemma_seq_assoc(want, p, want_url("website"@, g.website));
    }
    let ghost p = p + want_url("website"@, g.website);
    let extra = take_unknown(m.extra, skip);
    push_entries(out, extra, Ghost(want + p));
    proof {
        crate::node::lemma_seq_assoc(want, p, want_entries(unknown_entries(g.extra@, skip@)));
    }
}

impl Name {
    /// Writes the name as a map: a person's fields without `name`, an
    /// entity's with it, the anonymous author as exactly `name: anonymous`.
    /// Known fields come first in their declared order, then the record's
    /// unrecognised entries in the order they came;
    /// an entry under a key that a field knows is left out.
    pub fn into_node(self) -> (r: Node)
        ensures
            encodes_to(self, r),
    {
        let ghost g = self;
        let mut out: Vec<(String, Node)> = Vec::new();
        let ghost w: Seq<(Seq<char>, Emitted)> = Seq::empty();
        proof {
            reveal(emits);
        }
        match self {
            Name::Person(p) => {
                push_text(&mut out, "family-names", p.family_names, Ghost(w));
                let ghost w = w + want_text("family-names"@, p.family_names);
                push_text(&mut out, "given-names", p.given_names, Ghost(w));
                let ghost w = w + want_text("given-names"@, p.given_names);
                push_text(&mut out, "name-particle", p.name_particle, Ghost(w));
                let ghost w = w + want_text("name-particle"@, p.name_particle);
                push_text(&mut out, "name-suffix", p.name_suffix, Ghost(w));
                let ghost w = w + want_text("name-suffix"@, p.name_suffix);
                push_text(&mut out, "affiliation", p.affiliation, Ghost(w));
                let ghost w = w + want_text("affiliation"@, p.affiliation);
                let keys = person_written_key_list();
                push_meta(&mut out, p.meta, keys.as_slice(), Ghost(w));
                assert(w + meta_want(p.meta, person_written_keys()) =~= name_want(g));
            },
            Name::Entity(x) => {
                push_text(&mut out, "name", x.name, Ghost(w));
                let ghost w = w + want_text("name"@, x.name);
                push_date(&mut out, "date-start", x.date_start, Ghost(w));
                let ghost w = w + want_date("date-start"@, x.date_start);
                push_date(&mut out, "date-end", x.date_end, Ghost(w));
                let ghost w = w + want_date("date-end"@, x.date_end);
                let keys = entity_key_list();
                push_meta(&mut out, x.meta, keys.as_slice(), Ghost(w));
                assert(w + meta_want(x.meta, entity_keys()) =~= name_want(g));
            },
            Name::Anonymous => {
                let anonymous = "anonymous".to_owned();
                let ghost a = anonymous;
                push_text(&mut out, "name", Some(anonymous), Ghost(w));
                assert(w + want_text("name"@, Some(a)) =~= name_want(g));
            },
        }
        Node::Mapping(out)
    }
}

/// A record is resolved by its keys alone, to exactly one of three kinds: a
/// record whose `name` is the text `anonymous` resolves to the anonymous
/// author and never to a person or an entity; one without `name` resolves to
/// a person, when it resolves; one with any other text under `name`, to an
/// entity.
pub proof fn law_resolve_shapes(node: Node, r: Result<Name, DecodeError>)
    requires
        resolves_to(node, r),
        node is Mapping,
    ensures
        ({
            let e = node->Mapping_0@;
            &&& (lookup(e, "name"@) matches Some(Node::Str(s)) && s@ == "anonymous"@) ==> (r matches Ok(
                Name::Anonymous,
            ))
            &&& (lookup(e, "name"@) is None && r is Ok) ==> (r matches Ok(Name::Person(_)))
            &&& (lookup(e, "name"@) matches Some(Node::Str(s)) && s@ != "anonymous"@ && r is Ok)
                ==> (r matches Ok(Name::Entity(_)))
            &&& (lookup(e, "name"@) matches Some(n) && !(n is Str)) ==> r is Err
        }),
{
}

/// The lengths and first characters of the keys of name records, which set
/// them apart.
proof fn lemma_key_facts()
    ensures
        "family-names"@.len() == 12 && "family-names"@[0] == 'f',
        "given-names"@.len() == 11 && "given-names"@[0] == 'g',
        "name-particle"@.len() == 13 && "name-particle"@[0] == 'n',
        "name-suffix"@.len() == 11 && "name-suffix"@[0] == 'n',
        "affiliation"@.len() == 11 && "affiliation"@[0] == 'a',
        "orcid"@.len() == 5 && "orcid"@[0] == 'o',
        "address"@.len() == 7 && "address"@[0] == 'a',
        "alias"@.len() == 5 && "alias"@[0] == 'a',
        "city"@.len() == 4 && "city"@[0] == 'c',
        "country"@.len() == 7 && "country"@[0] == 'c',
        "email"@.len() == 5 && "email"@[0] == 'e',
        "post-code"@.len() == 9 && "post-code"@[0] == 'p',
        "region"@.len() == 6 && "region"@[0] == 'r',
        "location"@.len() == 8 && "location"@[0] == 'l',
        "tel"@.len() == 3 && "tel"@[0] == 't',
        "fax"@.len() == 3 && "fax"@[0] == 'f',
        "website"@.len() == 7 && "website"@[0] == 'w',
        "name"@.len() == 4 && "name"@[0] == 'n',
        "date-start"@.len() == 10 && "date-start"@[0] == 'd',
        "date-end"@.len() == 8 && "date-end"@[0] == 'd',
        "anonymous"@.len() == 9 && "anonymous"@[0] == 'a',
{
    reveal_strlit("family-names");
    reveal_strlit("given-names");
    reveal_strlit("name-particle");
    reveal_strlit("name-suffix");
    reveal_strlit("affiliation");
    reveal_strlit("orcid");
    reveal_strlit("address");
    reveal_strlit("alias");
    reveal_strlit("city");
    reveal_strlit("country");
    reveal_strlit("email");
    reveal_strlit("post-code");
    reveal_strlit("region");
    reveal_strlit("location");
    reveal_strlit("tel");
    reveal_strlit("fax");
    reveal_strlit("website");
    reveal_strlit("name");
    reveal_strlit("date-start");
    reveal_strlit("date-end");
    reveal_strlit("anonymous");
}

/// The keys a person record knows.
proof fn lemma_person_key(k: Seq<char>)
    ensures
        is_key_of(person_keys(), k) == (k == "family-names"@ || k == "given-names"@ || k == "name-particle"@ || k == "name-suffix"@ || k == "affiliation"@ || k == "orcid"@ || k == "address"@ || k == "alias"@ || k == "city"@ || k == "country"@ || k == "email"@ || k == "post-code"@ || k == "region"@ || k == "location"@ || k == "tel"@ || k == "fax"@ || k == "website"@),
{
    assert(person_keys() =~= seq!["family-names", "given-names", "name-particle", "name-suffix", "affiliation", "orcid", "address", "alias", "city", "country", "email", "post-code", "region", "location", "tel", "fax", "website"]);
    if k == "family-names"@ || k == "given-names"@ || k == "name-particle"@ || k == "name-suffix"@ || k == "affiliation"@ || k == "orcid"@ || k == "address"@ || k == "alias"@ || k == "city"@ || k == "country"@ || k == "email"@ || k == "post-code"@ || k == "region"@ || k == "location"@ || k == "tel"@ || k == "fax"@ || k == "website"@ {
        assert(is_key_of(person_keys(), k));
    }
}

/// The keys a person is never written with an unrecognised entry under.
proof fn lemma_person_written_key(k: Seq<char>)
    ensures
        is_key_of(person_written_keys(), k) == (is_key_of(person_keys(), k) || k == "name"@),
{
    let w = person_written_keys();
    if is_key_of(person_keys(), k) {
        let i = choose|i: int| 0 <= i < person_keys().len() && (#[trigger] person_keys()[i])@ == k;
        assert(w[i] == person_keys()[i]);
    }
    if k == "name"@ {
        assert(w[w.len() - 1] == "name");
    }
    if is_key_of(w, k) {
        let i = choose|i: int| 0 <= i < w.len() && (#[trigger] w[i])@ == k;
        if i < person_keys().len() {
            assert(w[i] == person_keys()[i]);
        }
    }
}

/// The keys an entity record knows.
proof fn lemma_entity_key(k: Seq<char>)
    ensures
        is_key_of(entity_keys(), k) == (k == "name"@ || k == "date-start"@ || k == "date-end"@ || k == "orcid"@ || k == "address"@ || k == "alias"@ || k == "city"@ || k == "country"@ || k == "email"@ || k == "post-code"@ || k == "region"@ || k == "location"@ || k == "tel"@ || k == "fax"@ || k == "website"@),
{
    assert(entity_keys() =~= seq!["name", "date-start", "date-end", "orcid", "address", "alias", "city", "country", "email", "post-code", "region", "location", "tel", "fax", "website"]);
}

/// A wanted URL is found under its own key only.
pub broadcast proof fn lemma_want_find_url(key: Seq<char>, u: Option<WebUrl>, k: Seq<char>)
    ensures
        #[trigger] want_find(want_url(key, u), k) == (if u is Some && key == k {
            Some(Emitted::Text(u->Some_0@))
        } else {
            None
        }),
{
    reveal_with_fuel(want_find, 2);
    if u is Some {
        assert(want_url(key, u).drop_last() =~= Seq::<(Seq<char>, Emitted)>::empty());
    }
}

/// A wanted date is found under its own key only.
pub broadcast proof fn lemma_want_find_date(key: Seq<char>, d: Option<Date>, k: Seq<char>)
    ensures
        #[trigger] want_find(want_date(key, d), k) == (if d is Some && key == k {
            Some(Emitted::Text(date_text(d->Some_0)))
        } else {
            None
        }),
{
    reveal_with_fuel(want_find, 2);
    if d is Some {
        assert(want_date(key, d).drop_last() =~= Seq::<(Seq<char>, Emitted)>::empty());
    }
}

/// Whether a key of a name record holds a URL, which the URL parser may
/// rewrite into its normal form.
pub open spec fn url_key(k: Seq<char>) -> bool {
    k == "orcid"@ || k == "website"@
}

/// Whether the record `b` holds what `a` holds, key by key: the same keys,
/// with equal values, strings compared by their text, and a URL only by
/// being a string.
pub open spec fn records_agree(a: Seq<(String, Node)>, b: Seq<(String, Node)>) -> bool {
    forall|k: Seq<char>| #[trigger] faithful_at(lookup(a, k), lookup(b, k), url_key(k))
}

/// A person record written back agrees with the record it was read from.
#[verifier::rlimit(100)]
#[verifier::spinoff_prover]
proof fn lemma_person_round_trip(a: Seq<(String, Node)>, p: PersonName, b: Seq<(String, Node)>, k: Seq<char>)
    requires
        lookup(a, "name"@) is None,
        person_ok(a),
        person_from(a, p),
        emits(b, person_want(p)),
    ensures
        faithful_at(lookup(a, k), lookup(b, k), url_key(k)),
{
    broadcast use lemma_want_find_concat, lemma_want_find_text, lemma_want_find_url;
    lemma_key_facts();
    lemma_emits_lookup(b, person_want(p), k);
    lemma_unknown_entries(a, person_keys(), k);
    lemma_unknown_entries(p.meta.extra@, person_written_keys(), k);
    lemma_want_find_entries(unknown_entries(p.meta.extra@, person_written_keys()), k);
    lemma_person_key(k);
    lemma_person_written_key(k);
        if k == "family-names"@ {
        } else if k == "given-names"@ {
        } else if k == "name-particle"@ {
        } else if k == "name-suffix"@ {
        } else if k == "affiliation"@ {
        } else if k == "orcid"@ {
        } else if k == "address"@ {
        } else if k == "alias"@ {
        } else if k == "city"@ {
        } else if k == "country"@ {
        } else if k == "email"@ {
        } else if k == "post-code"@ {
        } else if k == "region"@ {
        } else if k == "location"@ {
        } else if k == "tel"@ {
        } else if k == "fax"@ {
        } else if k == "website"@ {
        } else {
        }
}

/// An entity record written back agrees with the record it was read from.
#[verifier::rlimit(100)]
#[verifier::spinoff_prover]
proof fn lemma_entity_round_trip(a: Seq<(String, Node)>, x: EntityName, b: Seq<(String, Node)>, k: Seq<char>)
    requires
        entity_ok(a),
        entity_from(a, x),
        emits(b, entity_want(x)),
    ensures
        faithful_at(lookup(a, k), lookup(b, k), url_key(k)),
{
    broadcast use lemma_want_find_concat, lemma_want_find_text, lemma_want_find_url, lemma_want_find_date;
    lemma_key_facts();
    lemma_emits_lookup(b, entity_want(x), k);
    lemma_unknown_entries(a, entity_keys(), k);
    lemma_unknown_entries(x.meta.extra@, entity_keys(), k);
    lemma_want_find_entries(unknown_entries(x.meta.extra@, entity_keys()), k);
    lemma_entity_key(k);
    if k == "date-start"@ && x.date_start is Some {
        lemma_date_text_round_trip(text_at(a, k)->Some_0@, x.date_start->Some_0);
    }
    if k == "date-end"@ && x.date_end is Some {
        lemma_date_text_round_trip(text_at(a, k)->Some_0@, x.date_end->Some_0);
    }
        if k == "name"@ {
        } else if k == "date-start"@ {
        } else if k == "date-end"@ {
        } else if k == "orcid"@ {
        } else if k == "address"@ {
        } else if k == "alias"@ {
        } else if k == "city"@ {
        } else if k == "country"@ {
        } else if k == "email"@ {
        } else if k == "post-code"@ {
        } else if k == "region"@ {
        } else if k == "location"@ {
        } else if k == "tel"@ {
        } else if k == "fax"@ {
        } else if k == "website"@ {
        } else {
        }
}

/// Resolving a record and writing the name back gives a record with the same
/// keys, holding the same values (key order aside, unrecognised entries
/// included), but for URLs, which come back in the URL parser's normal form.
/// The anonymous author is written back as `name: anonymous` alone, so this
/// holds of an anonymous record that has no other key.
pub proof fn law_name_round_trip(node: Node, name: Name, out: Node)
    requires
        resolves_to(node, Ok(name)),
        encodes_to(name, out),
        name is Anonymous ==> (node matches Node::Mapping(e) && forall|i: int|
            0 <= i < e@.len() ==> (#[trigger] e@[i]).0@ == "name"@),
    ensures
        node matches Node::Mapping(a) && out matches Node::Mapping(b) && records_agree(a@, b@),
{
    let a = node->Mapping_0@;
    let b = out->Mapping_0@;
    match name {
        Name::Person(p) => {
            assert forall|k: Seq<char>| #[trigger] faithful_at(lookup(a, k), lookup(b, k), url_key(k)) by {
                lemma_person_round_trip(a, p, b, k);
            }
        },
        Name::Entity(x) => {
            assert forall|k: Seq<char>| #[trigger] faithful_at(lookup(a, k), lookup(b, k), url_key(k)) by {
                lemma_entity_round_trip(a, x, b, k);
            }
        },
        Name::Anonymous => {
            lemma_key_facts();
            assert forall|k: Seq<char>| #[trigger] faithful_at(lookup(a, k), lookup(b, k), url_key(k)) by {
                lemma_emits_lookup(b, name_want(name), k);
                reveal_with_fuel(want_find, 2);
                if k != "name"@ {
                    lemma_find_absent(keyed(a), k);
                }
            }
        },
    }
}

/// A person is written without a `name` key, whatever its unrecognised
/// entries hold, so that it reads back as a person.
#[verifier::rlimit(100)]
pub proof fn law_person_written_without_name(p: PersonName, out: Node)
    requires
        encodes_to(Name::Person(p), out),
    ensures
        out matches Node::Mapping(b) && lookup(b@, "name"@) is None,
{
    broadcast use lemma_want_find_concat, lemma_want_find_text, lemma_want_find_url;
    lemma_key_facts();
    let b = out->Mapping_0@;
    lemma_emits_lookup(b, person_want(p), "name"@);
    lemma_unknown_entries(p.meta.extra@, person_written_keys(), "name"@);
    lemma_want_find_entries(unknown_entries(p.meta.extra@, person_written_keys()), "name"@);
    lemma_person_written_key("name"@);
}

/// An entity is written with its own name under `name`, and with nothing
/// there when it has none, whatever its unrecognised entries hold.
#[verifier::rlimit(100)]
pub proof fn law_entity_written_name(x: EntityName, out: Node)
    requires
        encodes_to(Name::Entity(x), out),
    ensures
        out matches Node::Mapping(b) && match x.name {
            Some(s) => lookup(b@, "name"@) matches Some(Node::Str(t)) && t@ == s@,
            None => lookup(b@, "name"@) is None,
        },
{
    broadcast use lemma_want_find_concat, lemma_want_find_text, lemma_want_find_url, lemma_want_find_date;
    lemma_key_facts();
    let b = out->Mapping_0@;
    lemma_emits_lookup(b, entity_want(x), "name"@);
    lemma_unknown_entries(x.meta.extra@, entity_keys(), "name"@);
    lemma_want_find_entries(unknown_entries(x.meta.extra@, entity_keys()), "name"@);
    lemma_entity_key("name"@);
}

} // verus!
