//! The top-level document of the key-value format: its required core, the
//! fields whose values need a codec of their own, and its unrecognised
//! entries.

use vstd::prelude::*;
use crate::cff::date::{Date, date_text};
use crate::cff::identifiers::{Identifier, identifier_from, identifier_ok, identifier_want};
use crate::cff::kinds::{WorkType, work_type_text};
use crate::cff::license::{License, license_encodes_to, license_read, spdx_accepts};
use crate::cff::names::{
    Name, date_from, date_ok, encodes_to, entity_ok, person_ok, resolves_to, url_from, url_ok,
    want_date, want_url,
};
use crate::node::{
    DecodeError, Emitted, Node, emits, find_key, is_key_of, lemma_without_key,
    lemma_without_known_key, lookup, opt_want, push_entries, push_node, push_opt, push_text,
    take_field, take_unknown, text_at, text_field, text_ok, unknown_entries, want_entries,
    want_text, without_key,
};
use crate::text::{decimal, write_decimal};
use crate::weburl::WebUrl;

verus! {

/// What `semver::Version::parse` makes of a text: the major, minor and patch
/// numbers and the texts of the pre-release and build parts, or `None` where
/// it refuses the text.
pub uninterp spec fn semver_of(s: Seq<char>) -> Option<(u64, u64, u64, Seq<char>, Seq<char>)>;

/// Relies on `semver::Version::parse`, and on the parsed version's fields:
/// `major`, `minor`, `patch`, and `pre` and `build` as text.
#[verifier::external_body]
fn parse_semver(s: &str) -> (r: Option<(u64, u64, u64, String, String)>)
    ensures
        match r {
            Some(v) => semver_of(s@) == Some((v.0, v.1, v.2, v.3@, v.4@)),
            None => semver_of(s@) is None,
        },
{
    match semver::Version::parse(s) {
        Ok(v) => Some((v.major, v.minor, v.patch, v.pre.as_str().to_owned(), v.build.as_str().to_owned())),
        Err(_) => None,
    }
}

/// A semantic version, the version of the format a document conforms to.
#[derive(Debug, Clone, PartialEq, Eq)]
pub struct CffVersion {
    pub major: u64,
    pub minor: u64,
    pub patch: u64,
    /// Pre-release part, empty when there is none.
    pub pre: String,
    /// Build metadata, empty when there is none.
    pub build: String,
}

/// The text of a version: `major.minor.patch`, then `-pre` and `+build` when
/// those are not empty.
pub open spec fn version_text(v: CffVersion) -> Seq<char> {
    decimal(v.major as nat) + "."@ + decimal(v.minor as nat) + "."@ + decimal(v.patch as nat) + (if v.pre@.len()
        > 0 {
        "-"@ + v.pre@
    } else {
        Seq::empty()
    }) + (if v.build@.len() > 0 {
        "+"@ + v.build@
    } else {
        Seq::empty()
    })
}

/// Whether `v` is what `semver::Version::parse` makes of a text.
pub open spec fn version_of(s: Seq<char>, v: CffVersion) -> bool {
    semver_of(s) == Some((v.major, v.minor, v.patch, v.pre@, v.build@))
}

impl CffVersion {
    /// Parses a semantic version; `None` where the text is not one.
    pub fn parse(s: &str) -> (r: Option<CffVersion>)
        ensures
            r is Some <==> semver_of(s@) is Some,
            r matches Some(v) ==> version_of(s@, v),
    {
        match parse_semver(s) {
            Some((major, minor, patch, pre, build)) => Some(CffVersion { major, minor, patch, pre, build }),
            None => None,
        }
    }

    /// Writes the version as text.
    pub fn to_text(&self) -> (r: String)
        ensures
            r@ == version_text(*self),
    {
        proof {
            reveal_strlit(".");
            reveal_strlit("-");
            reveal_strlit("+");
        }
        let mut out = String::new();
        write_decimal(&mut out, self.major);
        out.append(".");
        write_decimal(&mut out, self.minor);
        out.append(".");
        write_decimal(&mut out, self.patch);
        let ghost base = out@;
        if self.pre.as_str().unicode_len() > 0 {
            out.append("-");
            out.append(self.pre.as_str());
        }
        let ghost mid = out@;
        if self.build.as_str().unicode_len() > 0 {
            out.append("+");
            out.append(self.build.as_str());
        }
        assert(out@ =~= version_text(*self));
        out
    }
}

/// The top-level document: citation metadata for a work, and its references.
#[derive(Debug, PartialEq)]
pub struct Cff {
    /// Version of the format the document conforms to.
    pub cff_version: CffVersion,
    /// What to do with the citation metadata; never empty.
    pub message: String,
    /// The name of the work; never empty.
    pub title: String,
    /// The type of the work.
    pub work_type: Option<WorkType>,
    /// Version of the work.
    pub version: Option<String>,
    /// The commit hash or revision number of the work.
    pub commit: Option<String>,
    /// The date the work was released.
    pub date_released: Option<Date>,
    /// A description of the work.
    pub abstract_text: Option<String>,
    /// Keywords that describe the work.
    pub keywords: Vec<String>,
    /// The URL of the work in a repository or archive.
    pub repository: Option<WebUrl>,
    /// The URL of the work in a build artifact repository.
    pub repository_artifact: Option<WebUrl>,
    /// The URL of the work in a source code repository.
    pub repository_code: Option<WebUrl>,
    /// License expression(s).
    pub license: Option<License>,
    /// The URL of the license text.
    pub license_url: Option<WebUrl>,
    /// The authors of the work; at least one.
    pub authors: Vec<Name>,
    /// The contacts for the work.
    pub contact: Vec<Name>,
    /// The DOI of the work.
    pub doi: Option<String>,
    /// The identifiers of the work.
    pub identifiers: Vec<Identifier>,
    /// A reference to cite instead of the work, as written.
    pub preferred_citation: Option<Node>,
    /// References to other works, as written.
    pub references: Vec<Node>,
    /// Entries under keys that no field above knows, in the order they came.
    /// A known field always wins: an entry here under a key the record knows is
    /// never written.
    pub extra: Vec<(String, Node)>,
}

impl Default for Cff {
    /// A document of format version 1.2.0 with the default message, an empty
    /// title, and no other field.
    fn default() -> (r: Self)
        ensures
            r.cff_version.major == 1 && r.cff_version.minor == 2 && r.cff_version.patch == 0,
            r.cff_version.pre@.len() == 0 && r.cff_version.build@.len() == 0,
            r.message@ == "Please cite this software using these metadata."@,
            r.title@.len() == 0,
            r.work_type is None && r.version is None && r.commit is None,
            r.date_released is None && r.abstract_text is None && r.keywords@.len() == 0,
            r.repository is None && r.repository_artifact is None && r.repository_code is None,
            r.license is None && r.license_url is None,
            r.authors@.len() == 0 && r.contact@.len() == 0,
            r.doi is None && r.identifiers@.len() == 0,
            r.preferred_citation is None && r.references@.len() == 0 && r.extra@.len() == 0,
    {
        Cff {
            cff_version: CffVersion { major: 1, minor: 2, patch: 0, pre: String::new(), build: String::new() },
            message: "Please cite this software using these metadata.".to_owned(),
            title: String::new(),
            work_type: None,
            version: None,
            commit: None,
            date_released: None,
            abstract_text: None,
            keywords: Vec::new(),
            repository: None,
            repository_artifact: None,
            repository_code: None,
            license: None,
            license_url: None,
            authors: Vec::new(),
            contact: Vec::new(),
            doi: None,
            identifiers: Vec::new(),
            preferred_citation: None,
            references: Vec::new(),
            extra: Vec::new(),
        }
    }
}

/// The keys a document knows.
pub open spec fn cff_keys() -> Seq<&'static str> {
    seq![
        "cff-version",
        "message",
        "title",
        "type",
        "version",
        "commit",
        "date-released",
        "abstract",
        "keywords",
        "repository",
        "repository-artifact",
        "repository-code",
        "license",
        "license-url",
        "authors",
        "contact",
        "doi",
        "identifiers",
        "preferred-citation",
        "references",
    ]
}

fn cff_key_list() -> (r: Vec<&'static str>)
    ensures
        r@ == cff_keys(),
{
    let mut v: Vec<&'static str> = Vec::new();
    v.push("cff-version");
    v.push("message");
    v.push("title");
    v.push("type");
    v.push("version");
    v.push("commit");
    v.push("date-released");
    v.push("abstract");
    v.push("keywords");
    v.push("repository");
    v.push("repository-artifact");
    v.push("repository-code");
    v.push("license");
    v.push("license-url");
    v.push("authors");
    v.push("contact");
    v.push("doi");
    v.push("identifiers");
    v.push("preferred-citation");
    v.push("references");
    assert(v@ =~= cff_keys());
    v
}

/// Whether `key` holds a text that is not empty.
pub open spec fn required_text(e: Seq<(String, Node)>, key: Seq<char>) -> bool {
    text_at(e, key) matches Some(s) && s@.len() > 0
}

/// Whether the required core of a document reads: a semantic version under
/// `cff-version`, a message and a title that are not empty, and a `type`, if
/// any, naming a work type.
pub open spec fn core_ok(e: Seq<(String, Node)>) -> bool {
    &&& lookup(e, "cff-version"@) matches Some(Node::Str(s)) && semver_of(s@) is Some
    &&& required_text(e, "message"@)
    &&& required_text(e, "title"@)
    &&& match lookup(e, "type"@) {
        None => true,
        Some(Node::Str(s)) => exists|w: WorkType| work_type_text(w) == s@,
        _ => false,
    }
}

/// Whether `c` holds the core of the document `e`.
pub open spec fn core_from(e: Seq<(String, Node)>, c: Cff) -> bool {
    &&& lookup(e, "cff-version"@) matches Some(Node::Str(s)) && version_of(s@, c.cff_version)
    &&& text_at(e, "message"@) == Some(c.message)
    &&& text_at(e, "title"@) == Some(c.title)
    &&& match lookup(e, "type"@) {
        Some(Node::Str(s)) => c.work_type matches Some(w) && work_type_text(w) == s@,
        _ => c.work_type is None,
    }
}

/// Whether the descriptive fields of a document read: texts, a calendar
/// date, and a list of texts under `keywords`.
pub open spec fn details_ok(e: Seq<(String, Node)>) -> bool {
    &&& text_ok(e, "version"@)
    &&& text_ok(e, "commit"@)
    &&& date_ok(e, "date-released"@)
    &&& text_ok(e, "abstract"@)
    &&& match lookup(e, "keywords"@) {
        None => true,
        Some(Node::List(v)) => forall|i: int| 0 <= i < v@.len() ==> (#[trigger] v@[i]) is Str,
        _ => false,
    }
}

/// Whether `c` holds the descriptive fields of the document `e`.
pub open spec fn details_from(e: Seq<(String, Node)>, c: Cff) -> bool {
    &&& c.version == text_at(e, "version"@)
    &&& c.commit == text_at(e, "commit"@)
    &&& date_from(e, "date-released"@, c.date_released)
    &&& c.abstract_text == text_at(e, "abstract"@)
    &&& match lookup(e, "keywords"@) {
        Some(Node::List(v)) => c.keywords@.len() == v@.len() && forall|i: int|
            0 <= i < v@.len() ==> (#[trigger] v@[i]) == Node::Str(c.keywords@[i]),
        _ => c.keywords@.len() == 0,
    }
}

/// Whether a node reads as a license.
pub open spec fn license_accepts(n: Node) -> bool {
    match n {
        Node::Str(s) => spdx_accepts(s@),
        Node::List(v) => forall|i: int|
            0 <= i < v@.len() ==> (#[trigger] v@[i]) is Str && spdx_accepts(v@[i]->Str_0@),
        _ => false,
    }
}

/// Whether the link fields of a document read: URLs, a license, a DOI text
/// and a list of identifiers.
pub open spec fn links_ok(e: Seq<(String, Node)>) -> bool {
    &&& url_ok(e, "repository"@)
    &&& url_ok(e, "repository-artifact"@)
    &&& url_ok(e, "repository-code"@)
    &&& match lookup(e, "license"@) {
        None => true,
        Some(n) => license_accepts(n),
    }
    &&& url_ok(e, "license-url"@)
    &&& text_ok(e, "doi"@)
    &&& match lookup(e, "identifiers"@) {
        None => true,
        Some(Node::List(v)) => forall|i: int|
            0 <= i < v@.len() ==> (#[trigger] v@[i]) is Mapping && identifier_ok(v@[i]->Mapping_0@),
        _ => false,
    }
}

/// Whether `c` holds the link fields of the document `e`.
pub open spec fn links_from(e: Seq<(String, Node)>, c: Cff) -> bool {
    &&& url_from(e, "repository"@, c.repository)
    &&& url_from(e, "repository-artifact"@, c.repository_artifact)
    &&& url_from(e, "repository-code"@, c.repository_code)
    &&& match lookup(e, "license"@) {
        Some(n) => c.license matches Some(l) && license_read(n, Ok(l)),
        None => c.license is None,
    }
    &&& url_from(e, "license-url"@, c.license_url)
    &&& c.doi == text_at(e, "doi"@)
    &&& match lookup(e, "identifiers"@) {
        Some(Node::List(v)) => c.identifiers@.len() == v@.len() && forall|i: int|
            0 <= i < v@.len() ==> identifier_from((#[trigger] v@[i])->Mapping_0@, c.identifiers@[i]),
        _ => c.identifiers@.len() == 0,
    }
}

/// Whether a node resolves to a name.
pub open spec fn name_resolves(n: Node) -> bool {
    n matches Node::Mapping(m) && match lookup(m@, "name"@) {
        None => person_ok(m@),
        Some(Node::Str(s)) => s@ == "anonymous"@ || entity_ok(m@),
        _ => false,
    }
}

/// Whether a list of nodes all resolve to names.
pub open spec fn names_resolve(v: Seq<Node>) -> bool {
    forall|i: int| 0 <= i < v.len() ==> name_resolves(#[trigger] v[i])
}

/// Whether `ns` are the names the nodes `v` resolve to.
pub open spec fn resolved_all(v: Seq<Node>, ns: Seq<Name>) -> bool {
    ns.len() == v.len() && forall|i: int| 0 <= i < v.len() ==> resolves_to(v[i], Ok(#[trigger] ns[i]))
}

/// Whether the people and references of a document read: a list of at least
/// one name under `authors`, a list of names under `contact`, and a list
/// under `references`.
pub open spec fn people_ok(e: Seq<(String, Node)>) -> bool {
    &&& lookup(e, "authors"@) matches Some(Node::List(v)) && v@.len() > 0 && names_resolve(v@)
    &&& match lookup(e, "contact"@) {
        None => true,
        Some(Node::List(v)) => names_resolve(v@),
        _ => false,
    }
    &&& match lookup(e, "references"@) {
        None => true,
        Some(Node::List(_)) => true,
        _ => false,
    }
}

/// Whether `c` holds the people and references of the document `e`, and its
/// unrecognised entries.
pub open spec fn people_from(e: Seq<(String, Node)>, c: Cff) -> bool {
    &&& lookup(e, "authors"@) matches Some(Node::List(v)) && resolved_all(v@, c.authors@)
    &&& match lookup(e, "contact"@) {
        Some(Node::List(v)) => resolved_all(v@, c.contact@),
        _ => c.contact@.len() == 0,
    }
    &&& c.preferred_citation == lookup(e, "preferred-citation"@)
    &&& match lookup(e, "references"@) {
        Some(Node::List(v)) => c.references@ == v@,
        _ => c.references@.len() == 0,
    }
    &&& c.extra@ == unknown_entries(e, cff_keys())
}

/// Whether a document reads without error.
pub open spec fn cff_ok(e: Seq<(String, Node)>) -> bool {
    core_ok(e) && details_ok(e) && links_ok(e) && people_ok(e)
}

/// Whether `c` holds what the document `e` says.
pub open spec fn cff_from(e: Seq<(String, Node)>, c: Cff) -> bool {
    core_from(e, c) && details_from(e, c) && links_from(e, c) && people_from(e, c)
}

fn required_field(e: &Vec<(String, Node)>, key: &str) -> (r: Result<String, DecodeError>)
    ensures
        required_text(e@, key@) <==> r is Ok,
        r matches Ok(s) ==> text_at(e@, key@) == Some(s),
{
    match text_field(e, key) {
        Ok(Some(s)) => if s.as_str().unicode_len() > 0 {
            Ok(s)
        } else {
            Err(DecodeError::ShapeMismatch { field: key.to_owned() })
        },
        Ok(None) => Err(DecodeError::ShapeMismatch { field: key.to_owned() }),
        Err(err) => Err(err),
    }
}

fn decode_core(e: &Vec<(String, Node)>) -> (r: Result<(CffVersion, String, String, Option<WorkType>), DecodeError>)
    ensures
        core_ok(e@) <==> r is Ok,
        r matches Ok(x) ==> ({
            let c = Cff { cff_version: x.0, message: x.1, title: x.2, work_type: x.3, ..arbitrary() };
            core_from(e@, c)
        }),
{
    let version = match find_key(e, "cff-version") {
        None => return Err(DecodeError::ShapeMismatch { field: "cff-version".to_owned() }),
        Some(i) => match &e[i].1 {
            Node::Str(s) => match CffVersion::parse(s.as_str()) {
                Some(v) => v,
                None => return Err(DecodeError::ShapeMismatch { field: "cff-version".to_owned() }),
            },
            _ => return Err(DecodeError::TypeMismatch { field: "cff-version".to_owned() }),
        },
    };
    let message = match required_field(e, "message") { Ok(s) => s, Err(err) => return Err(err) };
    let title = match required_field(e, "title") { Ok(s) => s, Err(err) => return Err(err) };
    let work_type = match find_key(e, "type") {
        None => None,
        Some(i) => match &e[i].1 {
            Node::Str(s) => match WorkType::from_text(s.as_str()) {
                Some(w) => Some(w),
                None => return Err(DecodeError::ShapeMismatch { field: "type".to_owned() }),
            },
            _ => return Err(DecodeError::TypeMismatch { field: "type".to_owned() }),
        },
    };
    Ok((version, message, title, work_type))
}

fn decode_details(e: &Vec<(String, Node)>) -> (r: Result<(Option<String>, Option<String>, Option<Date>, Option<String>, Vec<String>), DecodeError>)
    ensures
        details_ok(e@) <==> r is Ok,
        r matches Ok(x) ==> ({
            let c = Cff { version: x.0, commit: x.1, date_released: x.2, abstract_text: x.3, keywords: x.4, ..arbitrary() };
            details_from(e@, c)
        }),
{
    let version = match text_field(e, "version") { Ok(v) => v, Err(err) => return Err(err) };
    let commit = match text_field(e, "commit") { Ok(v) => v, Err(err) => return Err(err) };
    let date_released = match crate::cff::names::date_field(e, "date-released") { Ok(v) => v, Err(err) => return Err(err) };
    let abstract_text = match text_field(e, "abstract") { Ok(v) => v, Err(err) => return Err(err) };
    let mut keywords: Vec<String> = Vec::new();
    match find_key(e, "keywords") {
        None => {},
        Some(k) => match &e[k].1 {
            Node::List(v) => {
                let mut i: usize = 0;
                while i < v.len()
                    invariant
                        lookup(e@, "keywords"@) == Some(Node::List(*v)),
                        0 <= i <= v@.len(),
                        keywords@.len() == i,
                        forall|j: int| 0 <= j < i ==> (#[trigger] v@[j]) == Node::Str(keywords@[j]),
                    decreases v@.len() - i,
                {
                    match &v[i] {
                        Node::Str(t) => keywords.push(t.clone()),
                        _ => return Err(DecodeError::TypeMismatch { field: "keywords".to_owned() }),
                    }
                    i = i + 1;
                }
            },
            _ => return Err(DecodeError::TypeMismatch { field: "keywords".to_owned() }),
        },
    }
    Ok((version, commit, date_released, abstract_text, keywords))
}

fn decode_links(e: &Vec<(String, Node)>) -> (r: Result<(Option<WebUrl>, Option<WebUrl>, Option<WebUrl>, Option<License>, Option<WebUrl>, Option<String>, Vec<Identifier>), DecodeError>)
    ensures
        links_ok(e@) <==> r is Ok,
        r matches Ok(x) ==> ({
            let c = Cff {
                repository: x.0,
                repository_artifact: x.1,
                repository_code: x.2,
                license: x.3,
                license_url: x.4,
                doi: x.5,
                identifiers: x.6,
                ..arbitrary()
            };
            links_from(e@, c)
        }),
{
    let repository = match crate::cff::names::url_field(e, "repository") { Ok(v) => v, Err(err) => return Err(err) };
    let repository_artifact = match crate::cff::names::url_field(e, "repository-artifact") { Ok(v) => v, Err(err) => return Err(err) };
    let repository_code = match crate::cff::names::url_field(e, "repository-code") { Ok(v) => v, Err(err) => return Err(err) };
    let license = match find_key(e, "license") {
        None => None,
        Some(k) => match License::from_node(&e[k].1) {
            Ok(l) => Some(l),
            Err(err) => return Err(err),
        },
    };
    let license_url = match crate::cff::names::url_field(e, "license-url") { Ok(v) => v, Err(err) => return Err(err) };
    let doi = match text_field(e, "doi") { Ok(v) => v, Err(err) => return Err(err) };
    let mut identifiers: Vec<Identifier> = Vec::new();
    match find_key(e, "identifiers") {
        None => {},
        Some(k) => match &e[k].1 {
            Node::List(v) => {
                let mut i: usize = 0;
                while i < v.len()
                    invariant
                        lookup(e@, "identifiers"@) == Some(Node::List(*v)),
                        0 <= i <= v@.len(),
                        identifiers@.len() == i,
                        forall|j: int|
                            0 <= j < i ==> (#[trigger] v@[j]) is Mapping && identifier_ok(v@[j]->Mapping_0@),
                        forall|j: int|
                            0 <= j < i ==> identifier_from((#[trigger] v@[j])->Mapping_0@, identifiers@[j]),
                    decreases v@.len() - i,
                {
                    match Identifier::from_node(&v[i]) {
                        Ok(id) => identifiers.push(id),
                        Err(err) => return Err(err),
                    }
                    i = i + 1;
                }
            },
            _ => return Err(DecodeError::TypeMismatch { field: "identifiers".to_owned() }),
        },
    }
    Ok((repository, repository_artifact, repository_code, license, license_url, doi, identifiers))
}

/// Resolves each node of a list to a name.
fn resolve_all(v: Vec<Node>) -> (r: Result<Vec<Name>, DecodeError>)
    ensures
        names_resolve(v@) <==> r is Ok,
        r matches Ok(ns) ==> resolved_all(v@, ns@),
{
    let ghost initial = v@;
    let mut rest = v;
    let mut out: Vec<Name> = Vec::new();
    let ghost mut i: int = 0;
    while rest.len() > 0
        invariant
            initial == v@,
            0 <= i <= initial.len(),
            rest@ == initial.subrange(i, initial.len() as int),
            out@.len() == i,
            forall|j: int| 0 <= j < i ==> name_resolves(#[trigger] initial[j]),
            forall|j: int| 0 <= j < i ==> resolves_to(initial[j], Ok(#[trigger] out@[j])),
        decreases rest@.len(),
    {
        let n = rest.remove(0);
        assert(initial[i] == n);
        match Name::resolve(n) {
            Ok(x) => out.push(x),
            Err(err) => {
                assert(!name_resolves(initial[i]));
                return Err(err);
            },
        }
        proof {
            i = i + 1;
        }
        assert(rest@ =~= initial.subrange(i, initial.len() as int));
    }
    Ok(out)
}

/// The key facts that set the keys taken out of a document apart.
proof fn lemma_taken_keys()
    ensures
        "authors"@ != "contact"@,
        "authors"@ != "preferred-citation"@,
        "authors"@ != "references"@,
        "contact"@ != "preferred-citation"@,
        "contact"@ != "references"@,
        "preferred-citation"@ != "references"@,
        is_key_of(cff_keys(), "authors"@),
        is_key_of(cff_keys(), "contact"@),
        is_key_of(cff_keys(), "preferred-citation"@),
        is_key_of(cff_keys(), "references"@),
{
    reveal_strlit("authors");
    reveal_strlit("contact");
    reveal_strlit("preferred-citation");
    reveal_strlit("references");
    assert("authors"@[0] != "contact"@[0]);
    assert("authors"@.len() != "preferred-citation"@.len());
    assert("authors"@.len() != "references"@.len());
    assert("contact"@.len() != "preferred-citation"@.len());
    assert("contact"@.len() != "references"@.len());
    assert("preferred-citation"@.len() != "references"@.len());
    assert(cff_keys()[14] == "authors");
    assert(cff_keys()[15] == "contact");
    assert(cff_keys()[18] == "preferred-citation");
    assert(cff_keys()[19] == "references");
}

fn decode_people(e: Vec<(String, Node)>) -> (r: Result<(Vec<Name>, Vec<Name>, Option<Node>, Vec<Node>, Vec<(String, Node)>), DecodeError>)
    ensures
        people_ok(e@) <==> r is Ok,
        r matches Ok(x) ==> ({
            let c = Cff {
                authors: x.0,
                contact: x.1,
                preferred_citation: x.2,
                references: x.3,
                extra: x.4,
                ..arbitrary()
            };
            people_from(e@, c)
        }),
{
    let ghost e0 = e@;
    proof {
        lemma_taken_keys();
    }
    let mut e = e;
    let authors_node = take_field(&mut e, "authors");
    let ghost e1 = e@;
    let contact_node = take_field(&mut e, "contact");
    let ghost e2 = e@;
    proof {
        lemma_without_key(e0, "authors"@, "contact"@);
    }
    let preferred_citation = take_field(&mut e, "preferred-citation");
    let ghost e3 = e@;
    proof {
        lemma_without_key(e0, "authors"@, "preferred-citation"@);
        lemma_without_key(e1, "contact"@, "preferred-citation"@);
    }
    let references_node = take_field(&mut e, "references");
    proof {
        lemma_without_key(e0, "authors"@, "references"@);
        lemma_without_key(e1, "contact"@, "references"@);
        lemma_without_key(e2, "preferred-citation"@, "references"@);
        lemma_without_known_key(e0, "authors"@, cff_keys());
        lemma_without_known_key(e1, "contact"@, cff_keys());
        lemma_without_known_key(e2, "preferred-citation"@, cff_keys());
        lemma_without_known_key(e3, "references"@, cff_keys());
    }
    let authors = match authors_node {
        Some(Node::List(v)) => {
            if v.len() == 0 {
                return Err(DecodeError::ShapeMismatch { field: "authors".to_owned() });
            }
            match resolve_all(v) {
                Ok(ns) => ns,
                Err(err) => return Err(err),
            }
        },
        Some(_) => return Err(DecodeError::TypeMismatch { field: "authors".to_owned() }),
        None => return Err(DecodeError::ShapeMismatch { field: "authors".to_owned() }),
    };
    let contact = match contact_node {
        Some(Node::List(v)) => match resolve_all(v) {
            Ok(ns) => ns,
            Err(err) => return Err(err),
        },
        Some(_) => return Err(DecodeError::TypeMismatch { field: "contact".to_owned() }),
        None => Vec::new(),
    };
    let references = match references_node {
        Some(Node::List(v)) => v,
        Some(_) => return Err(DecodeError::TypeMismatch { field: "references".to_owned() }),
        None => Vec::new(),
    };
    let keys = cff_key_list();
    let extra = take_unknown(e, keys.as_slice());
    Ok((authors, contact, preferred_citation, references, extra))
}

impl Cff {
    /// Decodes a document: a semantic version under `cff-version`, a message
    /// and a title that are not empty, and at least one author are required;
    /// each other known field must be of its kind; entries under any other key
    /// are kept as they came.
    pub fn from_node(n: Node) -> (r: Result<Cff, DecodeError>)
        ensures
            n is Mapping ==> (cff_ok(n->Mapping_0@) <==> r is Ok),
            r matches Ok(c) ==> n is Mapping && cff_from(n->Mapping_0@, c),
    {
        let e = match n {
            Node::Mapping(e) => e,
            _ => return Err(DecodeError::TypeMismatch { field: "document".to_owned() }),
        };
        let core = match decode_core(&e) { Ok(x) => x, Err(err) => return Err(err) };
        let details = match decode_details(&e) { Ok(x) => x, Err(err) => return Err(err) };
        let links = match decode_links(&e) { Ok(x) => x, Err(err) => return Err(err) };
        let people = match decode_people(e) { Ok(x) => x, Err(err) => return Err(err) };
        let (cff_version, message, title, work_type) = core;
        let (version, commit, date_released, abstract_text, keywords) = details;
        let (repository, repository_artifact, repository_code, license, license_url, doi, identifiers) = links;
        let (authors, contact, preferred_citation, references, extra) = people;
        Ok(
            Cff {
                cff_version,
                message,
                title,
                work_type,
                version,
                commit,
                date_released,
                abstract_text,
                keywords,
                repository,
                repository_artifact,
                repository_code,
                license,
                license_url,
                authors,
                contact,
                doi,
                identifiers,
                preferred_citation,
                references,
                extra,
            },
        )
    }
}

/// Whether `n` is the list of texts `ks`.
pub open spec fn texts_node(n: Node, ks: Seq<String>) -> bool {
    n matches Node::List(v) && v@.len() == ks.len() && forall|i: int|
        0 <= i < ks.len() ==> (#[trigger] v@[i]) == Node::Str(ks[i])
}

/// Whether `n` is the list that the names `ns` are written as, one map each.
pub open spec fn names_node(n: Node, ns: Seq<Name>) -> bool {
    n matches Node::List(v) && v@.len() == ns.len() && forall|i: int|
        0 <= i < ns.len() ==> encodes_to(ns[i], #[trigger] v@[i])
}

/// Whether `n` is the list that the identifiers `ids` are written as.
pub open spec fn identifiers_node(n: Node, ids: Seq<Identifier>) -> bool {
    n matches Node::List(v) && v@.len() == ids.len() && forall|i: int|
        0 <= i < ids.len() ==> ((#[trigger] v@[i]) matches Node::Mapping(m) && emits(
            m@,
            identifier_want(ids[i]),
        ))
}

/// The entries a document is written as, first part: the core and the
/// descriptive fields.
pub open spec fn cff_want_a(c: Cff) -> Seq<(Seq<char>, Emitted)> {
    seq![
        ("cff-version"@, Emitted::Text(version_text(c.cff_version))),
        ("message"@, Emitted::Text(c.message@)),
        ("title"@, Emitted::Text(c.title@)),
    ] + opt_want(
        "type"@,
        c.work_type is Some,
        Emitted::Text(
            match c.work_type {
                Some(w) => work_type_text(w),
                None => Seq::empty(),
            },
        ),
    ) + want_text("version"@, c.version) + want_text("commit"@, c.commit) + want_date(
        "date-released"@,
        c.date_released,
    ) + want_text("abstract"@, c.abstract_text) + opt_want(
        "keywords"@,
        c.keywords@.len() > 0,
        Emitted::Satisfies(|n: Node| texts_node(n, c.keywords@)),
    )
}

/// The entries a document is written as, second part: the links.
pub open spec fn cff_want_b(c: Cff) -> Seq<(Seq<char>, Emitted)> {
    want_url("repository"@, c.repository) + want_url("repository-artifact"@, c.repository_artifact)
        + want_url("repository-code"@, c.repository_code) + opt_want(
        "license"@,
        c.license is Some,
        Emitted::Satisfies(|n: Node| c.license matches Some(l) && license_encodes_to(l, n)),
    ) + want_url("license-url"@, c.license_url)
}

/// The entries a document is written as, last part: people, identifiers,
/// references, then the unrecognised entries in the order they came;
/// an entry under a key that a field knows is left out.
pub open spec fn cff_want_c(c: Cff) -> Seq<(Seq<char>, Emitted)> {
    seq![("authors"@, Emitted::Satisfies(|n: Node| names_node(n, c.authors@)))] + opt_want(
        "contact"@,
        c.contact@.len() > 0,
        Emitted::Satisfies(|n: Node| names_node(n, c.contact@)),
    ) + want_text("doi"@, c.doi) + opt_want(
        "identifiers"@,
        c.identifiers@.len() > 0,
        Emitted::Satisfies(|n: Node| identifiers_node(n, c.identifiers@)),
    ) + opt_want(
        "preferred-citation"@,
        c.preferred_citation is Some,
        Emitted::Value(
            match c.preferred_citation {
                Some(p) => p,
                None => Node::Null,
            },
        ),
    ) + opt_want(
        "references"@,
        c.references@.len() > 0,
        Emitted::Satisfies(|n: Node| n matches Node::List(v) && v@ == c.references@),
    ) + want_entries(unknown_entries(c.extra@, cff_keys()))
}

/// The entries a document is written as: its fields in declared order, those
/// that are absent or empty left out (but `authors`), then the unrecognised
/// entries in the order they came;
/// an entry under a key that a field knows is left out.
pub open spec fn cff_want(c: Cff) -> Seq<(Seq<char>, Emitted)> {
    cff_want_a(c) + cff_want_b(c) + cff_want_c(c)
}

/// Writes names as a list of maps.
fn names_list(ns: Vec<Name>) -> (r: Node)
    ensures
        names_node(r, ns@),
{
    let ghost initial = ns@;
    let mut rest = ns;
    let mut out: Vec<Node> = Vec::new();
    let ghost mut i: int = 0;
    while rest.len() > 0
        invariant
            0 <= i <= initial.len(),
            rest@ == initial.subrange(i, initial.len() as int),
            out@.len() == i,
            forall|j: int| 0 <= j < i ==> encodes_to(initial[j], #[trigger] out@[j]),
        decreases rest@.len(),
    {
        let n = rest.remove(0);
        assert(initial[i] == n);
        out.push(n.into_node());
        proof {
            i = i + 1;
        }
        assert(rest@ =~= initial.subrange(i, initial.len() as int));
    }
    Node::List(out)
}

/// Writes texts as a list of strings.
fn texts_list(ks: Vec<String>) -> (r: Node)
    ensures
        texts_node(r, ks@),
{
    let ghost initial = ks@;
    let mut rest = ks;
    let mut out: Vec<Node> = Vec::new();
    let ghost mut i: int = 0;
    while rest.len() > 0
        invariant
            0 <= i <= initial.len(),
            rest@ == initial.subrange(i, initial.len() as int),
            out@.len() == i,
            forall|j: int| 0 <= j < i ==> (#[trigger] out@[j]) == Node::Str(initial[j]),
        decreases rest@.len(),
    {
        let k = rest.remove(0);
        assert(initial[i] == k);
        out.push(Node::Str(k));
        proof {
            i = i + 1;
        }
        assert(rest@ =~= initial.subrange(i, initial.len() as int));
    }
    Node::List(out)
}

/// Writes identifiers as a list of maps.
fn identifiers_list(ids: &Vec<Identifier>) -> (r: Node)
    ensures
        identifiers_node(r, ids@),
{
    let mut out: Vec<Node> = Vec::new();
    let mut i: usize = 0;
    while i < ids.len()
        invariant
            0 <= i <= ids@.len(),
            out@.len() == i,
            forall|j: int|
                0 <= j < i ==> ((#[trigger] out@[j]) matches Node::Mapping(m) && emits(
                    m@,
                    identifier_want(ids@[j]),
                )),
        decreases ids@.len() - i,
    {
        out.push(ids[i].to_node());
        i = i + 1;
    }
    Node::List(out)
}

fn push_cff_a(
    out: &mut Vec<(String, Node)>,
    cff_version: CffVersion,
    message: String,
    title: String,
    work_type: Option<WorkType>,
    version: Option<String>,
    commit: Option<String>,
    date_released: Option<Date>,
    abstract_text: Option<String>,
    keywords: Vec<String>,
    Ghost(c): Ghost<Cff>,
    Ghost(w0): Ghost<Seq<(Seq<char>, Emitted)>>,
)
    requires
        emits(old(out)@, w0),
        cff_version == c.cff_version,
        message == c.message,
        title == c.title,
        work_type == c.work_type,
        version == c.version,
        commit == c.commit,
        date_released == c.date_released,
        abstract_text == c.abstract_text,
        keywords == c.keywords,
    ensures
        emits(final(out)@, w0 + cff_want_a(c)),
{
    let ghost e0 = Emitted::Text(version_text(c.cff_version));
    push_node(out, "cff-version", Node::Str(cff_version.to_text()), Ghost(w0), Ghost(e0));
    let ghost p = seq![("cff-version"@, e0)];
    let ghost e1 = Emitted::Text(c.message@);
    push_node(out, "message", Node::Str(message), Ghost(w0 + p), Ghost(e1));
    proof {
        crate::node::lemma_seq_assoc(w0, p, seq![("message"@, e1)]);
    }
    let ghost p = p + seq![("message"@, e1)];
    let ghost e2 = Emitted::Text(c.title@);
    push_node(out, "title", Node::Str(title), Ghost(w0 + p), Ghost(e2));
    proof {
        crate::node::lemma_seq_assoc(w0, p, seq![("title"@, e2)]);
    }
    let ghost p = p + seq![("title"@, e2)];
    let ghost e3 = Emitted::Text(
        match c.work_type {
            Some(w) => work_type_text(w),
            None => Seq::empty(),
        },
    );
    let t = match work_type {
        Some(w) => Some(Node::Str(w.as_str().to_owned())),
        None => None,
    };
    push_opt(out, "type", t, Ghost(w0 + p), Ghost(e3));
    proof {
        crate::node::lemma_seq_assoc(w0, p, opt_want("type"@, c.work_type is Some, e3));
    }
    let ghost p = p + opt_want("type"@, c.work_type is Some, e3);
    push_text(out, "version", version, Ghost(w0 + p));
    proof {
        crate::node::lemma_seq_assoc(w0, p, want_text("version"@, c.version));
    }
    let ghost p = p + want_text("version"@, c.version);
    push_text(out, "commit", commit, Ghost(w0 + p));
    proof {
        crate::node::lemma_seq_assoc(w0, p, want_text("commit"@, c.commit));
    }
    let ghost p = p + want_text("commit"@, c.commit);
    crate::cff::names::push_date(out, "date-released", date_released, Ghost(w0 + p));
    proof {
        crate::node::lemma_seq_assoc(w0, p, want_date("date-released"@, c.date_released));
    }
    let ghost p = p + want_date("date-released"@, c.date_released);
    push_text(out, "abstract", abstract_text, Ghost(w0 + p));
    proof {
        crate::node::lemma_seq_assoc(w0, p, want_text("abstract"@, c.abstract_text));
    }
    let ghost p = p + want_text("abstract"@, c.abstract_text);
    let ghost e4 = Emitted::Satisfies(|n: Node| texts_node(n, c.keywords@));
    let k = if keywords.len() > 0 {
        Some(texts_list(keywords))
    } else {
        None
    };
    push_opt(out, "keywords", k, Ghost(w0 + p), Ghost(e4));
    proof {
        crate::node::lemma_seq_assoc(w0, p, opt_want("keywords"@, c.keywords@.len() > 0, e4));
    }
    let ghost p = p + opt_want("keywords"@, c.keywords@.len() > 0, e4);
    assert(p =~= cff_want_a(c));
}

fn push_cff_b(
    out: &mut Vec<(String, Node)>,
    repository: Option<WebUrl>,
    repository_artifact: Option<WebUrl>,
    repository_code: Option<WebUrl>,
    license: Option<License>,
    license_url: Option<WebUrl>,
    Ghost(c): Ghost<Cff>,
    Ghost(w0): Ghost<Seq<(Seq<char>, Emitted)>>,
)
    requires
        emits(old(out)@, w0),
        repository == c.repository,
        repository_artifact == c.repository_artifact,
        repository_code == c.repository_code,
        license == c.license,
        license_url == c.license_url,
    ensures
        emits(final(out)@, w0 + cff_want_b(c)),
{
    crate::cff::names::push_url(out, "repository", repository, Ghost(w0));
    let ghost p = want_url("repository"@, c.repository);
    crate::cff::names::push_url(out, "repository-artifact", repository_artifact, Ghost(w0 + p));
    proof {
        crate::node::lemma_seq_assoc(w0, p, want_url("repository-artifact"@, c.repository_artifact));
    }
    let ghost p = p + want_url("repository-artifact"@, c.repository_artifact);
    crate::cff::names::push_url(out, "repository-code", repository_code, Ghost(w0 + p));
    proof {
        crate::node::lemma_seq_assoc(w0, p, want_url("repository-code"@, c.repository_code));
    }
    let ghost p = p + want_url("repository-code"@, c.repository_code);
    let ghost e = Emitted::Satisfies(|n: Node| c.license matches Some(l) && license_encodes_to(l, n));
    let l = match &license {
        Some(x) => Some(x.to_node()),
        None => None,
    };
    push_opt(out, "license", l, Ghost(w0 + p), Ghost(e));
    proof {
        crate::node::lemma_seq_assoc(w0, p, opt_want("license"@, c.license is Some, e));
    }
    let ghost p = p + opt_want("license"@, c.license is Some, e);
    crate::cff::names::push_url(out, "license-url", license_url, Ghost(w0 + p));
    proof {
        crate::node::lemma_seq_assoc(w0, p, want_url("license-url"@, c.license_url));
    }
    let ghost p = p + want_url("license-url"@, c.license_url);
    assert(p =~= cff_want_b(c));
}

fn push_cff_c(
    out: &mut Vec<(String, Node)>,
    authors: Vec<Name>,
    contact: Vec<Name>,
    doi: Option<String>,
    identifiers: Vec<Identifier>,
    preferred_citation: Option<Node>,
    references: Vec<Node>,
    extra: Vec<(String, Node)>,
    Ghost(c): Ghost<Cff>,
    Ghost(w0): Ghost<Seq<(Seq<char>, Emitted)>>,
)
    requires
        emits(old(out)@, w0),
        authors == c.authors,
        contact == c.contact,
        doi == c.doi,
        identifiers == c.identifiers,
        preferred_citation == c.preferred_citation,
        references == c.references,
        extra == c.extra,
    ensures
        emits(final(out)@, w0 + cff_want_c(c)),
{
    let ghost e0 = Emitted::Satisfies(|n: Node| names_node(n, c.authors@));
    push_node(out, "authors", names_list(authors), Ghost(w0), Ghost(e0));
    let ghost p = seq![("authors"@, e0)];
    let ghost e1 = Emitted::Satisfies(|n: Node| names_node(n, c.contact@));
    let cn = if contact.len() > 0 {
        Some(names_list(contact))
    } else {
        None
    };
    push_opt(out, "contact", cn, Ghost(w0 + p), Ghost(e1));
    proof {
        crate::node::lemma_seq_assoc(w0, p, opt_want("contact"@, c.contact@.len() > 0, e1));
    }
    let ghost p = p + opt_want("contact"@, c.contact@.len() > 0, e1);
    push_text(out, "doi", doi, Ghost(w0 + p));
    proof {
        crate::node::lemma_seq_assoc(w0, p, want_text("doi"@, c.doi));
    }
    let ghost p = p + want_text("doi"@, c.doi);
    let ghost e2 = Emitted::Satisfies(|n: Node| identifiers_node(n, c.identifiers@));
    let idn = if identifiers.len() > 0 {
        Some(identifiers_list(&identifiers))
    } else {
        None
    };
    push_opt(out, "identifiers", idn, Ghost(w0 + p), Ghost(e2));
    proof {
        crate::node::lemma_seq_assoc(w0, p, opt_want("identifiers"@, c.identifiers@.len() > 0, e2));
    }
    let ghost p = p + opt_want("identifiers"@, c.identifiers@.len() > 0, e2);
    let ghost e3 = Emitted::Value(
        match c.preferred_citation {
            Some(x) => x,
            None => Node::Null,
        },
    );
    push_opt(out, "preferred-citation", preferred_citation, Ghost(w0 + p), Ghost(e3));
    proof {
        crate::node::lemma_seq_assoc(w0, p, opt_want("preferred-citation"@, c.preferred_citation is Some, e3));
    }
    let ghost p = p + opt_want("preferred-citation"@, c.preferred_citation is Some, e3);
    let ghost e4 = Emitted::Satisfies(|n: Node| n matches Node::List(v) && v@ == c.references@);
    let rn = if references.len() > 0 {
        Some(Node::List(references))
    } else {
        None
    };
    push_opt(out, "references", rn, Ghost(w0 + p), Ghost(e4));
    proof {
        crate::node::lemma_seq_assoc(w0, p, opt_want("references"@, c.references@.len() > 0, e4));
    }
    let ghost p = p + opt_want("references"@, c.references@.len() > 0, e4);
    let keys = cff_key_list();
    let extra = take_unknown(extra, keys.as_slice());
    push_entries(out, extra, Ghost(w0 + p));
    proof {
        crate::node::lemma_seq_assoc(w0, p, want_entries(unknown_entries(c.extra@, cff_keys())));
    }
    let ghost p = p + want_entries(unknown_entries(c.extra@, cff_keys()));
    assert(p =~= cff_want_c(c));
}

impl Cff {
    /// Writes the document as a map: its fields in declared order, those that
    /// are absent or empty left out (but `authors`), then the unrecognised
    /// entries in the order they came;
    /// an entry under a key that a field knows is left out.
    pub fn into_node(self) -> (r: Node)
        ensures
            r matches Node::Mapping(out) && emits(out@, cff_want(self)),
    {
        let ghost c = self;
        let Cff {
            cff_version,
            message,
            title,
            work_type,
            version,
            commit,
            date_released,
            abstract_text,
            keywords,
            repository,
            repository_artifact,
            repository_code,
            license,
            license_url,
            authors,
            contact,
            doi,
            identifiers,
            preferred_citation,
            references,
            extra,
        } = self;
        let mut out: Vec<(String, Node)> = Vec::new();
        proof {
            reveal(emits);
        }
        let ghost w0 = Seq::<(Seq<char>, Emitted)>::empty();
        push_cff_a(
            &mut out,
            cff_version,
            message,
            title,
            work_type,
            version,
            commit,
            date_released,
            abstract_text,
            keywords,
            Ghost(c),
            Ghost(w0),
        );
        let ghost w1 = w0 + cff_want_a(c);
        push_cff_b(&mut out, repository, repository_artifact, repository_code, license, license_url, Ghost(c), Ghost(w1));
        let ghost w2 = w1 + cff_want_b(c);
        push_cff_c(&mut out, authors, contact, doi, identifiers, preferred_citation, references, extra, Ghost(c), Ghost(w2));
        assert(w2 + cff_want_c(c) =~= cff_want(c));
        Node::Mapping(out)
    }
}

} // verus!
