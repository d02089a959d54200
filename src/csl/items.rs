//! Items of the array-of-records format, and the types of resources.

use vstd::prelude::*;
use crate::csl::dates::{Date, date_encodes_to, date_fields_ok, date_read, date_shape_ok, scalar_value};
use crate::csl::names::{Name, name_from, name_ok};
use crate::csl::ordinaries::{OrdinaryValue, ordinary_node};
use crate::node::{
    is_key_of, lemma_without_key, lemma_without_known_key, take_field, without_key, DecodeError, Emitted, Node, emits, find_key, lookup, opt_want, push_entries, push_node, push_opt,
    take_unknown, text_at, text_field, unknown_entries, want_entries,
};

verus! {

/// The type of a bibliographic resource.
#[derive(Debug, Clone, Copy, PartialEq, Eq, Hash, Structural)]
pub enum ItemType {
    /// `article`
    Article,
    /// `article-journal`
    ArticleJournal,
    /// `article-magazine`
    ArticleMagazine,
    /// `article-newspaper`
    ArticleNewspaper,
    /// `bill`
    Bill,
    /// `book`
    Book,
    /// `broadcast`
    Broadcast,
    /// `chapter`
    Chapter,
    /// `classic`
    Classic,
    /// `collection`
    Collection,
    /// `dataset`
    Dataset,
    /// `document`
    Document,
    /// `entry`
    Entry,
    /// `entry-dictionary`
    EntryDictionary,
    /// `entry-encyclopedia`
    EntryEncyclopedia,
    /// `figure`
    Figure,
    /// `graphic`
    Graphic,
    /// `hearing`
    Hearing,
    /// `interview`
    Interview,
    /// `legal-case`
    LegalCase,
    /// `legislation`
    Legislation,
    /// `manuscript`
    Manuscript,
    /// `map`
    GeographicMap,
    /// `motion-picture`
    MotionPicture,
    /// `musical-score`
    MusicalScore,
    /// `pamphlet`
    Pamphlet,
    /// `paper-conference`
    PaperConference,
    /// `patent`
    Patent,
    /// `performance`
    Performance,
    /// `periodical`
    Periodical,
    /// `personal-communication`
    PersonalCommunication,
    /// `post`
    Post,
    /// `post-weblog`
    PostWeblog,
    /// `regulation`
    Regulation,
    /// `report`
    Report,
    /// `review`
    Review,
    /// `review-book`
    ReviewBook,
    /// `software`
    Software,
    /// `song`
    Song,
    /// `speech`
    Speech,
    /// `standard`
    Standard,
    /// `thesis`
    Thesis,
    /// `treaty`
    Treaty,
    /// `webpage`
    Webpage,
    /// `gazette`
    Gazette,
    /// `video`
    Video,
    /// `legal-commentary`
    LegalCommentary,
}

/// The text an item type is written as.
pub open spec fn item_type_text(x: ItemType) -> Seq<char> {
    match x {
        ItemType::Article => "article"@,
        ItemType::ArticleJournal => "article-journal"@,
        ItemType::ArticleMagazine => "article-magazine"@,
        ItemType::ArticleNewspaper => "article-newspaper"@,
        ItemType::Bill => "bill"@,
        ItemType::Book => "book"@,
        ItemType::Broadcast => "broadcast"@,
        ItemType::Chapter => "chapter"@,
        ItemType::Classic => "classic"@,
        ItemType::Collection => "collection"@,
        ItemType::Dataset => "dataset"@,
        ItemType::Document => "document"@,
        ItemType::Entry => "entry"@,
        ItemType::EntryDictionary => "entry-dictionary"@,
        ItemType::EntryEncyclopedia => "entry-encyclopedia"@,
        ItemType::Figure => "figure"@,
        ItemType::Graphic => "graphic"@,
        ItemType::Hearing => "hearing"@,
        ItemType::Interview => "interview"@,
        ItemType::LegalCase => "legal-case"@,
        ItemType::Legislation => "legislation"@,
        ItemType::Manuscript => "manuscript"@,
        ItemType::GeographicMap => "map"@,
        ItemType::MotionPicture => "motion-picture"@,
        ItemType::MusicalScore => "musical-score"@,
        ItemType::Pamphlet => "pamphlet"@,
        ItemType::PaperConference => "paper-conference"@,
        ItemType::Patent => "patent"@,
        ItemType::Performance => "performance"@,
        ItemType::Periodical => "periodical"@,
        ItemType::PersonalCommunication => "personal-communication"@,
        ItemType::Post => "post"@,
        ItemType::PostWeblog => "post-weblog"@,
        ItemType::Regulation => "regulation"@,
        ItemType::Report => "report"@,
        ItemType::Review => "review"@,
        ItemType::ReviewBook => "review-book"@,
        ItemType::Software => "software"@,
        ItemType::Song => "song"@,
        ItemType::Speech => "speech"@,
        ItemType::Standard => "standard"@,
        ItemType::Thesis => "thesis"@,
        ItemType::Treaty => "treaty"@,
        ItemType::Webpage => "webpage"@,
        ItemType::Gazette => "gazette"@,
        ItemType::Video => "video"@,
        ItemType::LegalCommentary => "legal-commentary"@,
    }
}

impl ItemType {
    /// The text the kind is written as.
    pub fn as_str(&self) -> (r: &'static str)
        ensures
            r@ == item_type_text(*self),
    {
        match self {
            ItemType::Article => "article",
            ItemType::ArticleJournal => "article-journal",
            ItemType::ArticleMagazine => "article-magazine",
            ItemType::ArticleNewspaper => "article-newspaper",
            ItemType::Bill => "bill",
            ItemType::Book => "book",
            ItemType::Broadcast => "broadcast",
            ItemType::Chapter => "chapter",
            ItemType::Classic => "classic",
            ItemType::Collection => "collection",
            ItemType::Dataset => "dataset",
            ItemType::Document => "document",
            ItemType::Entry => "entry",
            ItemType::EntryDictionary => "entry-dictionary",
            ItemType::EntryEncyclopedia => "entry-encyclopedia",
            ItemType::Figure => "figure",
            ItemType::Graphic => "graphic",
            ItemType::Hearing => "hearing",
            ItemType::Interview => "interview",
            ItemType::LegalCase => "legal-case",
            ItemType::Legislation => "legislation",
            ItemType::Manuscript => "manuscript",
            ItemType::GeographicMap => "map",
            ItemType::MotionPicture => "motion-picture",
            ItemType::MusicalScore => "musical-score",
            ItemType::Pamphlet => "pamphlet",
            ItemType::PaperConference => "paper-conference",
            ItemType::Patent => "patent",
            ItemType::Performance => "performance",
            ItemType::Periodical => "periodical",
            ItemType::PersonalCommunication => "personal-communication",
            ItemType::Post => "post",
            ItemType::PostWeblog => "post-weblog",
            ItemType::Regulation => "regulation",
            ItemType::Report => "report",
            ItemType::Review => "review",
            ItemType::ReviewBook => "review-book",
            ItemType::Software => "software",
            ItemType::Song => "song",
            ItemType::Speech => "speech",
            ItemType::Standard => "standard",
            ItemType::Thesis => "thesis",
            ItemType::Treaty => "treaty",
            ItemType::Webpage => "webpage",
            ItemType::Gazette => "gazette",
            ItemType::Video => "video",
            ItemType::LegalCommentary => "legal-commentary",
        }
    }

    /// The kind a text names; `None` when it names none.
    pub fn from_text(s: &str) -> (r: Option<ItemType>)
        ensures
            r matches Some(x) ==> item_type_text(x) == s@,
            r is None ==> forall|x: ItemType| item_type_text(x) != s@,
    {
        if crate::text::same_text(s, "article") {
            Some(ItemType::Article)
        } else if crate::text::same_text(s, "article-journal") {
            Some(ItemType::ArticleJournal)
        } else if crate::text::same_text(s, "article-magazine") {
            Some(ItemType::ArticleMagazine)
        } else if crate::text::same_text(s, "article-newspaper") {
            Some(ItemType::ArticleNewspaper)
        } else if crate::text::same_text(s, "bill") {
            Some(ItemType::Bill)
        } else if crate::text::same_text(s, "book") {
            Some(ItemType::Book)
        } else if crate::text::same_text(s, "broadcast") {
            Some(ItemType::Broadcast)
        } else if crate::text::same_text(s, "chapter") {
            Some(ItemType::Chapter)
        } else if crate::text::same_text(s, "classic") {
            Some(ItemType::Classic)
        } else if crate::text::same_text(s, "collection") {
            Some(ItemType::Collection)
        } else if crate::text::same_text(s, "dataset") {
            Some(ItemType::Dataset)
        } else if crate::text::same_text(s, "document") {
            Some(ItemType::Document)
        } else if crate::text::same_text(s, "entry") {
            Some(ItemType::Entry)
        } else if crate::text::same_text(s, "entry-dictionary") {
            Some(ItemType::EntryDictionary)
        } else if crate::text::same_text(s, "entry-encyclopedia") {
            Some(ItemType::EntryEncyclopedia)
        } else if crate::text::same_text(s, "figure") {
            Some(ItemType::Figure)
        } else if crate::text::same_text(s, "graphic") {
            Some(ItemType::Graphic)
        } else if crate::text::same_text(s, "hearing") {
            Some(ItemType::Hearing)
        } else if crate::text::same_text(s, "interview") {
            Some(ItemType::Interview)
        } else if crate::text::same_text(s, "legal-case") {
            Some(ItemType::LegalCase)
        } else if crate::text::same_text(s, "legislation") {
            Some(ItemType::Legislation)
        } else if crate::text::same_text(s, "manuscript") {
            Some(ItemType::Manuscript)
        } else if crate::text::same_text(s, "map") {
            Some(ItemType::GeographicMap)
        } else if crate::text::same_text(s, "motion-picture") {
            Some(ItemType::MotionPicture)
        } else if crate::text::same_text(s, "musical-score") {
            Some(ItemType::MusicalScore)
        } else if crate::text::same_text(s, "pamphlet") {
            Some(ItemType::Pamphlet)
        } else if crate::text::same_text(s, "paper-conference") {
            Some(ItemType::PaperConference)
        } else if crate::text::same_text(s, "patent") {
            Some(ItemType::Patent)
        } else if crate::text::same_text(s, "performance") {
            Some(ItemType::Performance)
        } else if crate::text::same_text(s, "periodical") {
            Some(ItemType::Periodical)
        } else if crate::text::same_text(s, "personal-communication") {
            Some(ItemType::PersonalCommunication)
        } else if crate::text::same_text(s, "post") {
            Some(ItemType::Post)
        } else if crate::text::same_text(s, "post-weblog") {
            Some(ItemType::PostWeblog)
        } else if crate::text::same_text(s, "regulation") {
            Some(ItemType::Regulation)
        } else if crate::text::same_text(s, "report") {
            Some(ItemType::Report)
        } else if crate::text::same_text(s, "review") {
            Some(ItemType::Review)
        } else if crate::text::same_text(s, "review-book") {
            Some(ItemType::ReviewBook)
        } else if crate::text::same_text(s, "software") {
            Some(ItemType::Software)
        } else if crate::text::same_text(s, "song") {
            Some(ItemType::Song)
        } else if crate::text::same_text(s, "speech") {
            Some(ItemType::Speech)
        } else if crate::text::same_text(s, "standard") {
            Some(ItemType::Standard)
        } else if crate::text::same_text(s, "thesis") {
            Some(ItemType::Thesis)
        } else if crate::text::same_text(s, "treaty") {
            Some(ItemType::Treaty)
        } else if crate::text::same_text(s, "webpage") {
            Some(ItemType::Webpage)
        } else if crate::text::same_text(s, "gazette") {
            Some(ItemType::Gazette)
        } else if crate::text::same_text(s, "video") {
            Some(ItemType::Video)
        } else if crate::text::same_text(s, "legal-commentary") {
            Some(ItemType::LegalCommentary)
        } else {
            None
        }
    }
}

impl Default for ItemType {
    fn default() -> (r: Self)
        ensures
            r == ItemType::Article,
    {
        ItemType::Article
    }
}


/// An item: the details of one bibliographic resource. Known fields are
/// matched by name; the entries under any other key are kept, as they came
/// and in their order, in `fields`.
#[derive(Debug, PartialEq)]
pub struct Item {
    /// Unique ID of this item within the document.
    pub id: String,
    /// Type of the resource.
    pub item_type: ItemType,
    /// Author(s).
    pub author: Vec<Name>,
    /// Contributor(s) to the item.
    pub contributor: Vec<Name>,
    /// Date the item was issued on.
    pub issued: Option<Date>,
    /// Date the item was last updated.
    pub updated: Option<Date>,
    /// Date the item was published on.
    pub published: Option<Date>,
    /// Date the item was accessed (for citations).
    pub accessed: Option<Date>,
    /// Category (scientific field or type of study).
    pub category: Option<OrdinaryValue>,
    /// ISSN.
    pub issn: Option<OrdinaryValue>,
    /// EISSN.
    pub eissn: Option<OrdinaryValue>,
    /// ISSNL.
    pub issnl: Option<OrdinaryValue>,
    /// DOI.
    pub doi: Option<OrdinaryValue>,
    /// URL.
    pub url: Option<OrdinaryValue>,
    /// Title.
    pub title: Option<OrdinaryValue>,
    /// Short title.
    pub title_short: Option<OrdinaryValue>,
    /// Summary.
    pub summary: Option<OrdinaryValue>,
    /// Abstract.
    pub abstract_text: Option<OrdinaryValue>,
    /// Name of the issuing publication.
    pub container_title: Option<OrdinaryValue>,
    /// Abbreviated name of the issuing publication (`journalAbbreviation`).
    pub journal_abbrevation: Option<OrdinaryValue>,
    /// Volume number of the issuing publication.
    pub volume: Option<OrdinaryValue>,
    /// Issue number of the issuing publication.
    pub issue: Option<OrdinaryValue>,
    /// Page number or page range in the issuing publication.
    pub page: Option<OrdinaryValue>,
    /// Language code.
    pub language: Option<OrdinaryValue>,
    /// Plain source name.
    pub source: Option<OrdinaryValue>,
    /// Copyright statement.
    pub rights: Option<OrdinaryValue>,
    /// License statement.
    pub license: Option<OrdinaryValue>,
    /// Note for extra details.
    pub note: Option<OrdinaryValue>,
    /// Any field that is not directly supported by name.
    /// A known field always wins: an entry here under a key the record knows is
    /// never written.
    pub fields: Vec<(String, Node)>,
}

/// The keys an item map knows.
pub open spec fn item_keys() -> Seq<&'static str> {
    seq![
        "id",
        "type",
        "author",
        "contributor",
        "issued",
        "updated",
        "published",
        "accessed",
        "category",
        "ISSN",
        "EISSN",
        "ISSNL",
        "DOI",
        "URL",
        "title",
        "title-short",
        "summary",
        "abstract",
        "container-title",
        "journalAbbreviation",
        "volume",
        "issue",
        "page",
        "language",
        "source",
        "rights",
        "license",
        "note",
    ]
}

fn item_key_list() -> (r: Vec<&'static str>)
    ensures
        r@ == item_keys(),
{
    let mut v: Vec<&'static str> = Vec::new();
    v.push("id");
    v.push("type");
    v.push("author");
    v.push("contributor");
    v.push("issued");
    v.push("updated");
    v.push("published");
    v.push("accessed");
    v.push("category");
    v.push("ISSN");
    v.push("EISSN");
    v.push("ISSNL");
    v.push("DOI");
    v.push("URL");
    v.push("title");
    v.push("title-short");
    v.push("summary");
    v.push("abstract");
    v.push("container-title");
    v.push("journalAbbreviation");
    v.push("volume");
    v.push("issue");
    v.push("page");
    v.push("language");
    v.push("source");
    v.push("rights");
    v.push("license");
    v.push("note");
    assert(v@ =~= item_keys());
    v
}

/// Whether `key` is absent or holds a scalar.
pub open spec fn ordinary_ok(e: Seq<(String, Node)>, key: Seq<char>) -> bool {
    match lookup(e, key) {
        None => true,
        Some(n) => scalar_value(n) is Some,
    }
}

/// The ordinary value under `key`.
pub open spec fn ordinary_at(e: Seq<(String, Node)>, key: Seq<char>) -> Option<OrdinaryValue> {
    match lookup(e, key) {
        None => None,
        Some(n) => scalar_value(n),
    }
}

/// Whether `n` decodes as a date.
pub open spec fn date_decodes(n: Node) -> bool {
    n matches Node::Mapping(m) && date_fields_ok(m@) && date_shape_ok(m@)
}

/// Whether `key` is absent or holds a date.
pub open spec fn date_ok_at(e: Seq<(String, Node)>, key: Seq<char>) -> bool {
    match lookup(e, key) {
        None => true,
        Some(n) => date_decodes(n),
    }
}

/// Whether `d` is what the date under `key` decodes to.
pub open spec fn date_at(e: Seq<(String, Node)>, key: Seq<char>, d: Option<Date>) -> bool {
    match lookup(e, key) {
        None => d is None,
        Some(n) => d matches Some(x) && date_read(n, Ok(x)),
    }
}

/// Whether `key` is absent or holds a list of name maps that read.
pub open spec fn names_ok_at(e: Seq<(String, Node)>, key: Seq<char>) -> bool {
    match lookup(e, key) {
        None => true,
        Some(Node::List(v)) => forall|i: int|
            0 <= i < v@.len() ==> (#[trigger] v@[i]) is Mapping && name_ok(v@[i]->Mapping_0@),
        Some(_) => false,
    }
}

/// Whether `ns` are the names listed under `key`, in order.
pub open spec fn names_at(e: Seq<(String, Node)>, key: Seq<char>, ns: Seq<Name>) -> bool {
    match lookup(e, key) {
        Some(Node::List(v)) => ns.len() == v@.len() && forall|i: int|
            0 <= i < v@.len() ==> name_from((#[trigger] v@[i])->Mapping_0@, ns[i]),
        _ => ns.len() == 0,
    }
}

/// Whether an item map reads without error: a string `id`, a `type` that
/// names an item type, and every known field of its kind.
pub open spec fn item_ok(e: Seq<(String, Node)>) -> bool {
    &&& text_at(e, "id"@) is Some
    &&& text_at(e, "type"@) matches Some(t) && exists|x: ItemType| item_type_text(x) == t@
    &&& names_ok_at(e, "author"@)
    &&& names_ok_at(e, "contributor"@)
    &&& date_ok_at(e, "issued"@)
    &&& date_ok_at(e, "updated"@)
    &&& date_ok_at(e, "published"@)
    &&& date_ok_at(e, "accessed"@)
    &&& ordinary_ok(e, "category"@)
    &&& ordinary_ok(e, "ISSN"@)
    &&& ordinary_ok(e, "EISSN"@)
    &&& ordinary_ok(e, "ISSNL"@)
    &&& ordinary_ok(e, "DOI"@)
    &&& ordinary_ok(e, "URL"@)
    &&& ordinary_ok(e, "title"@)
    &&& ordinary_ok(e, "title-short"@)
    &&& ordinary_ok(e, "summary"@)
    &&& ordinary_ok(e, "abstract"@)
    &&& ordinary_ok(e, "container-title"@)
    &&& ordinary_ok(e, "journalAbbreviation"@)
    &&& ordinary_ok(e, "volume"@)
    &&& ordinary_ok(e, "issue"@)
    &&& ordinary_ok(e, "page"@)
    &&& ordinary_ok(e, "language"@)
    &&& ordinary_ok(e, "source"@)
    &&& ordinary_ok(e, "rights"@)
    &&& ordinary_ok(e, "license"@)
    &&& ordinary_ok(e, "note"@)
}

/// Whether `it` holds what the item map `e` says.
pub open spec fn item_from(e: Seq<(String, Node)>, it: Item) -> bool {
    &&& text_at(e, "id"@) == Some(it.id)
    &&& text_at(e, "type"@) matches Some(t) && item_type_text(it.item_type) == t@
    &&& names_at(e, "author"@, it.author@)
    &&& names_at(e, "contributor"@, it.contributor@)
    &&& date_at(e, "issued"@, it.issued)
    &&& date_at(e, "updated"@, it.updated)
    &&& date_at(e, "published"@, it.published)
    &&& date_at(e, "accessed"@, it.accessed)
    &&& it.category == ordinary_at(e, "category"@)
    &&& it.issn == ordinary_at(e, "ISSN"@)
    &&& it.eissn == ordinary_at(e, "EISSN"@)
    &&& it.issnl == ordinary_at(e, "ISSNL"@)
    &&& it.doi == ordinary_at(e, "DOI"@)
    &&& it.url == ordinary_at(e, "URL"@)
    &&& it.title == ordinary_at(e, "title"@)
    &&& it.title_short == ordinary_at(e, "title-short"@)
    &&& it.summary == ordinary_at(e, "summary"@)
    &&& it.abstract_text == ordinary_at(e, "abstract"@)
    &&& it.container_title == ordinary_at(e, "container-title"@)
    &&& it.journal_abbrevation == ordinary_at(e, "journalAbbreviation"@)
    &&& it.volume == ordinary_at(e, "volume"@)
    &&& it.issue == ordinary_at(e, "issue"@)
    &&& it.page == ordinary_at(e, "page"@)
    &&& it.language == ordinary_at(e, "language"@)
    &&& it.source == ordinary_at(e, "source"@)
    &&& it.rights == ordinary_at(e, "rights"@)
    &&& it.license == ordinary_at(e, "license"@)
    &&& it.note == ordinary_at(e, "note"@)
    &&& it.fields@ == unknown_entries(e, item_keys())
}

/// The ordinary value under `key`, copied.
fn ordinary_field(e: &Vec<(String, Node)>, key: &str) -> (r: Result<Option<OrdinaryValue>, DecodeError>)
    ensures
        ordinary_ok(e@, key@) <==> r is Ok,
        r matches Ok(v) ==> v == ordinary_at(e@, key@),
{
    match find_key(e, key) {
        None => Ok(None),
        Some(i) => match &e[i].1 {
            Node::Str(s) => Ok(Some(OrdinaryValue::String(s.clone()))),
            Node::Int(v) => Ok(Some(OrdinaryValue::Integer(*v))),
            Node::Float(t) => Ok(Some(OrdinaryValue::Float(t.clone()))),
            _ => Err(DecodeError::TypeMismatch { field: key.to_owned() }),
        },
    }
}

/// The date under `key`.
/// The date under `key`, taken out of the entries with any later entry
/// under the same key.
fn date_field(e: &mut Vec<(String, Node)>, key: &str) -> (r: Result<Option<Date>, DecodeError>)
    ensures
        date_ok_at(old(e)@, key@) <==> r is Ok,
        r matches Ok(d) ==> date_at(old(e)@, key@, d),
        final(e)@ == without_key(old(e)@, key@),
{
    match take_field(e, key) {
        None => Ok(None),
        Some(n) => match Date::from_node(n) {
            Ok(d) => Ok(Some(d)),
            Err(err) => Err(err),
        },
    }
}

/// The facts that set the date keys of an item apart.
proof fn lemma_date_keys()
    ensures
        "issued"@ != "updated"@,
        "issued"@ != "published"@,
        "issued"@ != "accessed"@,
        "updated"@ != "published"@,
        "updated"@ != "accessed"@,
        "published"@ != "accessed"@,
        is_key_of(item_keys(), "issued"@),
        is_key_of(item_keys(), "updated"@),
        is_key_of(item_keys(), "published"@),
        is_key_of(item_keys(), "accessed"@),
{
    reveal_strlit("issued");
    reveal_strlit("updated");
    reveal_strlit("published");
    reveal_strlit("accessed");
    assert("issued"@.len() == 6 && "updated"@.len() == 7);
    assert("published"@.len() == 9 && "accessed"@.len() == 8);
    assert(item_keys()[4] == "issued" && item_keys()[5] == "updated");
    assert(item_keys()[6] == "published" && item_keys()[7] == "accessed");
}

/// The names listed under `key`.
fn names_field(e: &Vec<(String, Node)>, key: &str) -> (r: Result<Vec<Name>, DecodeError>)
    ensures
        names_ok_at(e@, key@) <==> r is Ok,
        r matches Ok(ns) ==> names_at(e@, key@, ns@),
{
    let mut ns: Vec<Name> = Vec::new();
    match find_key(e, key) {
        None => Ok(ns),
        Some(k) => match &e[k].1 {
            Node::List(v) => {
                let mut i: usize = 0;
                while i < v.len()
                    invariant
                        lookup(e@, key@) == Some(Node::List(*v)),
                        0 <= i <= v@.len(),
                        ns@.len() == i,
                        forall|j: int|
                            0 <= j < i ==> (#[trigger] v@[j]) is Mapping && name_ok(v@[j]->Mapping_0@),
                        forall|j: int| 0 <= j < i ==> name_from((#[trigger] v@[j])->Mapping_0@, ns@[j]),
                    decreases v@.len() - i,
                {
                    match Name::from_node(&v[i]) {
                        Ok(n) => ns.push(n),
                        Err(err) => return Err(err),
                    }
                    i = i + 1;
                }
                Ok(ns)
            },
            _ => Err(DecodeError::TypeMismatch { field: key.to_owned() }),
        },
    }
}

impl Item {
    /// Decodes an item map: a string `id` and a `type` naming an item type
    /// are required, each known field must be of its kind, and the entries
    /// under any other key are kept in `fields` as they came.
    pub fn from_node(n: Node) -> (r: Result<Item, DecodeError>)
        ensures
            n is Mapping ==> (item_ok(n->Mapping_0@) <==> r is Ok),
            r matches Ok(it) ==> n is Mapping && item_from(n->Mapping_0@, it),
    {
        let e = match n {
            Node::Mapping(e) => e,
            _ => return Err(DecodeError::TypeMismatch { field: "item".to_owned() }),
        };
        let id = match text_field(&e, "id") {
            Ok(Some(v)) => v,
            Ok(None) => return Err(DecodeError::ShapeMismatch { field: "id".to_owned() }),
            Err(err) => return Err(err),
        };
        let item_type = match text_field(&e, "type") {
            Ok(Some(t)) => match ItemType::from_text(t.as_str()) {
                Some(x) => x,
                None => return Err(DecodeError::ShapeMismatch { field: "type".to_owned() }),
            },
            Ok(None) => return Err(DecodeError::ShapeMismatch { field: "type".to_owned() }),
            Err(err) => return Err(err),
        };
        let author = match names_field(&e, "author") { Ok(v) => v, Err(err) => return Err(err) };
        let contributor = match names_field(&e, "contributor") { Ok(v) => v, Err(err) => return Err(err) };
        let category = match ordinary_field(&e, "category") { Ok(v) => v, Err(err) => return Err(err) };
        let issn = match ordinary_field(&e, "ISSN") { Ok(v) => v, Err(err) => return Err(err) };
        let eissn = match ordinary_field(&e, "EISSN") { Ok(v) => v, Err(err) => return Err(err) };
        let issnl = match ordinary_field(&e, "ISSNL") { Ok(v) => v, Err(err) => return Err(err) };
        let doi = match ordinary_field(&e, "DOI") { Ok(v) => v, Err(err) => return Err(err) };
        let url = match ordinary_field(&e, "URL") { Ok(v) => v, Err(err) => return Err(err) };
        let title = match ordinary_field(&e, "title") { Ok(v) => v, Err(err) => return Err(err) };
        let title_short = match ordinary_field(&e, "title-short") { Ok(v) => v, Err(err) => return Err(err) };
        let summary = match ordinary_field(&e, "summary") { Ok(v) => v, Err(err) => return Err(err) };
        let abstract_text = match ordinary_field(&e, "abstract") { Ok(v) => v, Err(err) => return Err(err) };
        let container_title = match ordinary_field(&e, "container-title") { Ok(v) => v, Err(err) => return Err(err) };
        let journal_abbrevation = match ordinary_field(&e, "journalAbbreviation") { Ok(v) => v, Err(err) => return Err(err) };
        let volume = match ordinary_field(&e, "volume") { Ok(v) => v, Err(err) => return Err(err) };
        let issue = match ordinary_field(&e, "issue") { Ok(v) => v, Err(err) => return Err(err) };
        let page = match ordinary_field(&e, "page") { Ok(v) => v, Err(err) => return Err(err) };
        let language = match ordinary_field(&e, "language") { Ok(v) => v, Err(err) => return Err(err) };
        let source = match ordinary_field(&e, "source") { Ok(v) => v, Err(err) => return Err(err) };
        let rights = match ordinary_field(&e, "rights") { Ok(v) => v, Err(err) => return Err(err) };
        let license = match ordinary_field(&e, "license") { Ok(v) => v, Err(err) => return Err(err) };
        let note = match ordinary_field(&e, "note") { Ok(v) => v, Err(err) => return Err(err) };
        let ghost e0 = e@;
        let mut e = e;
        proof {
            lemma_date_keys();
        }
        let issued = match date_field(&mut e, "issued") { Ok(v) => v, Err(err) => return Err(err) };
        let ghost e1 = e@;
        proof {
            lemma_without_key(e0, "issued"@, "updated"@);
            lemma_without_key(e0, "issued"@, "published"@);
            lemma_without_key(e0, "issued"@, "accessed"@);
        }
        let updated = match date_field(&mut e, "updated") { Ok(v) => v, Err(err) => return Err(err) };
        let ghost e2 = e@;
        proof {
            lemma_without_key(e1, "updated"@, "published"@);
            lemma_without_key(e1, "updated"@, "accessed"@);
        }
        let published = match date_field(&mut e, "published") { Ok(v) => v, Err(err) => return Err(err) };
        let ghost e3 = e@;
        proof {
            lemma_without_key(e2, "published"@, "accessed"@);
        }
        let accessed = match date_field(&mut e, "accessed") { Ok(v) => v, Err(err) => return Err(err) };
        proof {
            lemma_without_known_key(e0, "issued"@, item_keys());
            lemma_without_known_key(e1, "updated"@, item_keys());
            lemma_without_known_key(e2, "published"@, item_keys());
            lemma_without_known_key(e3, "accessed"@, item_keys());
        }
        let keys = item_key_list();
        let fields = take_unknown(e, keys.as_slice());
        Ok(Item { id, item_type, author, contributor, issued, updated, published, accessed, category, issn, eissn, issnl, doi, url, title, title_short, summary, abstract_text, container_title, journal_abbrevation, volume, issue, page, language, source, rights, license, note, fields })
    }
}

/// The list of names to write under `key`, when there are any.
pub open spec fn names_want(key: Seq<char>, ns: Seq<Name>) -> Seq<(Seq<char>, Emitted)> {
    opt_want(key, ns.len() > 0, Emitted::Satisfies(|n: Node| names_list_node(n, ns)))
}

/// Whether `n` is the list that `ns` are written as, one map each.
pub open spec fn names_list_node(n: Node, ns: Seq<Name>) -> bool {
    n matches Node::List(v) && v@.len() == ns.len() && forall|i: int|
        0 <= i < ns.len() ==> ((#[trigger] v@[i]) matches Node::Mapping(out) && emits(
            out@,
            crate::csl::names::name_want(ns[i]),
        ))
}

/// What a date is to be written as.
pub open spec fn date_emitted(d: Option<Date>) -> Emitted {
    Emitted::Satisfies(|n: Node| d matches Some(x) && date_encodes_to(x, n))
}

/// The date to write under `key`, when there is one.
pub open spec fn date_want_at(key: Seq<char>, d: Option<Date>) -> Seq<(Seq<char>, Emitted)> {
    opt_want(key, d is Some, date_emitted(d))
}

/// What an ordinary value is to be written as.
pub open spec fn ordinary_emitted(v: Option<OrdinaryValue>) -> Emitted {
    Emitted::Value(
        match v {
            Some(x) => ordinary_node(x),
            None => Node::Null,
        },
    )
}

/// The ordinary value to write under `key`, when there is one.
pub open spec fn ordinary_want(key: Seq<char>, v: Option<OrdinaryValue>) -> Seq<(Seq<char>, Emitted)> {
    opt_want(key, v is Some, ordinary_emitted(v))
}

/// Part of what an item is written as.
pub open spec fn dates_want(issued: Option<Date>, updated: Option<Date>, published: Option<Date>, accessed: Option<Date>) -> Seq<(Seq<char>, Emitted)> {
    date_want_at("issued"@, issued) + date_want_at("updated"@, updated) + date_want_at("published"@, published) + date_want_at("accessed"@, accessed)
}

/// Part of what an item is written as.
pub open spec fn ordinaries_want_a(category: Option<OrdinaryValue>, issn: Option<OrdinaryValue>, eissn: Option<OrdinaryValue>, issnl: Option<OrdinaryValue>, doi: Option<OrdinaryValue>, url: Option<OrdinaryValue>, title: Option<OrdinaryValue>, title_short: Option<OrdinaryValue>, summary: Option<OrdinaryValue>, abstract_text: Option<OrdinaryValue>) -> Seq<(Seq<char>, Emitted)> {
    ordinary_want("category"@, category) + ordinary_want("ISSN"@, issn) + ordinary_want("EISSN"@, eissn) + ordinary_want("ISSNL"@, issnl) + ordinary_want("DOI"@, doi) + ordinary_want("URL"@, url) + ordinary_want("title"@, title) + ordinary_want("title-short"@, title_short) + ordinary_want("summary"@, summary) + ordinary_want("abstract"@, abstract_text)
}

/// Part of what an item is written as.
pub open spec fn ordinaries_want_b(container_title: Option<OrdinaryValue>, journal_abbrevation: Option<OrdinaryValue>, volume: Option<OrdinaryValue>, issue: Option<OrdinaryValue>, page: Option<OrdinaryValue>, language: Option<OrdinaryValue>, source: Option<OrdinaryValue>, rights: Option<OrdinaryValue>, license: Option<OrdinaryValue>, note: Option<OrdinaryValue>) -> Seq<(Seq<char>, Emitted)> {
    ordinary_want("container-title"@, container_title) + ordinary_want("journalAbbreviation"@, journal_abbrevation) + ordinary_want("volume"@, volume) + ordinary_want("issue"@, issue) + ordinary_want("page"@, page) + ordinary_want("language"@, language) + ordinary_want("source"@, source) + ordinary_want("rights"@, rights) + ordinary_want("license"@, license) + ordinary_want("note"@, note)
}

/// The entries an item is written as: `id` and `type`, the lists of names
/// that are not empty, the dates and ordinary values that are present, all in
/// their declared order, then the unrecognised entries in the order they
/// came.
pub open spec fn item_want(it: Item) -> Seq<(Seq<char>, Emitted)> {
    seq![("id"@, Emitted::Text(it.id@)), ("type"@, Emitted::Text(item_type_text(it.item_type)))]
        + names_want("author"@, it.author@) + names_want("contributor"@, it.contributor@)
        + dates_want(it.issued, it.updated, it.published, it.accessed) + ordinaries_want_a(it.category, it.issn, it.eissn, it.issnl, it.doi, it.url, it.title, it.title_short, it.summary, it.abstract_text) + ordinaries_want_b(it.container_title, it.journal_abbrevation, it.volume, it.issue, it.page, it.language, it.source, it.rights, it.license, it.note) + want_entries(unknown_entries(it.fields@, item_keys()))
}

/// Writes a list of names, one map each.
fn names_node(ns: Vec<Name>) -> (r: Node)
    ensures
        names_list_node(r, ns@),
{
    let ghost initial = ns@;
    let mut rest = ns;
    let mut out: Vec<Node> = Vec::new();
    let ghost mut i: int = 0;
    while rest.len() > 0
        invariant
            0 <= i <= initial.len(),
            rest@ == initial.subrange(i, initial.len() as int),
            out@.len() == i,
            forall|j: int|
                0 <= j < i ==> ((#[trigger] out@[j]) matches Node::Mapping(m) && emits(
                    m@,
                    crate::csl::names::name_want(initial[j]),
                )),
        decreases rest@.len(),
    {
        let n = rest.remove(0);
        assert(initial[i] == n);
        out.push(n.into_node());
        proof {
            i = i + 1;
        }
        assert(rest@ =~= initial.subrange(i, initial.len() as int));
    }
    Node::List(out)
}

fn push_dates_want(out: &mut Vec<(String, Node)>, issued: Option<Date>, updated: Option<Date>, published: Option<Date>, accessed: Option<Date>, Ghost(w0): Ghost<Seq<(Seq<char>, Emitted)>>)
    requires
        emits(old(out)@, w0),
    ensures
        emits(final(out)@, w0 + dates_want(issued, updated, published, accessed)),
{
    let ghost g_issued = issued;
    let ghost g_updated = updated;
    let ghost g_published = published;
    let ghost g_accessed = accessed;
    let ghost w = w0;
    let n = match issued {
        Some(d) => Some(d.into_node()),
        None => None,
    };
    push_opt(out, "issued", n, Ghost(w), Ghost(date_emitted(g_issued)));
    let ghost p = date_want_at("issued"@, g_issued);
    assert(w0 + p == w + date_want_at("issued"@, g_issued));
    let ghost w = w0 + p;
    let n = match updated {
        Some(d) => Some(d.into_node()),
        None => None,
    };
    push_opt(out, "updated", n, Ghost(w), Ghost(date_emitted(g_updated)));
    proof {
        crate::node::lemma_seq_assoc(w0, p, date_want_at("updated"@, g_updated));
    }
    let ghost p = p + date_want_at("updated"@, g_updated);
    let ghost w = w0 + p;
    let n = match published {
        Some(d) => Some(d.into_node()),
        None => None,
    };
    push_opt(out, "published", n, Ghost(w), Ghost(date_emitted(g_published)));
    proof {
        crate::node::lemma_seq_assoc(w0, p, date_want_at("published"@, g_published));
    }
    let ghost p = p + date_want_at("published"@, g_published);
    let ghost w = w0 + p;
    let n = match accessed {
        Some(d) => Some(d.into_node()),
        None => None,
    };
    push_opt(out, "accessed", n, Ghost(w), Ghost(date_emitted(g_accessed)));
    proof {
        crate::node::lemma_seq_assoc(w0, p, date_want_at("accessed"@, g_accessed));
    }
    let ghost p = p + date_want_at("accessed"@, g_accessed);
    let ghost w = w0 + p;
    assert(p =~= dates_want(issued, updated, published, accessed));
}

fn push_ordinaries_want_a(out: &mut Vec<(String, Node)>, category: Option<OrdinaryValue>, issn: Option<OrdinaryValue>, eissn: Option<OrdinaryValue>, issnl: Option<OrdinaryValue>, doi: Option<OrdinaryValue>, url: Option<OrdinaryValue>, title: Option<OrdinaryValue>, title_short: Option<OrdinaryValue>, summary: Option<OrdinaryValue>, abstract_text: Option<OrdinaryValue>, Ghost(w0): Ghost<Seq<(Seq<char>, Emitted)>>)
    requires
        emits(old(out)@, w0),
    ensures
        emits(final(out)@, w0 + ordinaries_want_a(category, issn, eissn, issnl, doi, url, title, title_short, summary, abstract_text)),
{
    let ghost g_category = category;
    let ghost g_issn = issn;
    let ghost g_eissn = eissn;
    let ghost g_issnl = issnl;
    let ghost g_doi = doi;
    let ghost g_url = url;
    let ghost g_title = title;
    let ghost g_title_short = title_short;
    let ghost g_summary = summary;
    let ghost g_abstract_text = abstract_text;
    let ghost w = w0;
    let n = match category {
        Some(d) => Some(d.into_node()),
        None => None,
    };
    push_opt(out, "category", n, Ghost(w), Ghost(ordinary_emitted(g_category)));
    let ghost p = ordinary_want("category"@, g_category);
    assert(w0 + p == w + ordinary_want("category"@, g_category));
    let ghost w = w0 + p;
    let n = match issn {
        Some(d) => Some(d.into_node()),
        None => None,
    };
    push_opt(out, "ISSN", n, Ghost(w), Ghost(ordinary_emitted(g_issn)));
    proof {
        crate::node::lemma_seq_assoc(w0, p, ordinary_want("ISSN"@, g_issn));
    }
    let ghost p = p + ordinary_want("ISSN"@, g_issn);
    let ghost w = w0 + p;
    let n = match eissn {
        Some(d) => Some(d.into_node()),
        None => None,
    };
    push_opt(out, "EISSN", n, Ghost(w), Ghost(ordinary_emitted(g_eissn)));
    proof {
        crate::node::lemma_seq_assoc(w0, p, ordinary_want("EISSN"@, g_eissn));
    }
    let ghost p = p + ordinary_want("EISSN"@, g_eissn);
    let ghost w = w0 + p;
    let n = match issnl {
        Some(d) => Some(d.into_node()),
        None => None,
    };
    push_opt(out, "ISSNL", n, Ghost(w), Ghost(ordinary_emitted(g_issnl)));
    proof {
        crate::node::lemma_seq_assoc(w0, p, ordinary_want("ISSNL"@, g_issnl));
    }
    let ghost p = p + ordinary_want("ISSNL"@, g_issnl);
    let ghost w = w0 + p;
    let n = match doi {
        Some(d) => Some(d.into_node()),
        None => None,
    };
    push_opt(out, "DOI", n, Ghost(w), Ghost(ordinary_emitted(g_doi)));
    proof {
        crate::node::lemma_seq_assoc(w0, p, ordinary_want("DOI"@, g_doi));
    }
    let ghost p = p + ordinary_want("DOI"@, g_doi);
    let ghost w = w0 + p;
    let n = match url {
        Some(d) => Some(d.into_node()),
        None => None,
    };
    push_opt(out, "URL", n, Ghost(w), Ghost(ordinary_emitted(g_url)));
    proof {
        crate::node::lemma_seq_assoc(w0, p, ordinary_want("URL"@, g_url));
    }
    let ghost p = p + ordinary_want("URL"@, g_url);
    let ghost w = w0 + p;
    let n = match title {
        Some(d) => Some(d.into_node()),
        None => None,
    };
    push_opt(out, "title", n, Ghost(w), Ghost(ordinary_emitted(g_title)));
    proof {
        crate::node::lemma_seq_assoc(w0, p, ordinary_want("title"@, g_title));
    }
    let ghost p = p + ordinary_want("title"@, g_title);
    let ghost w = w0 + p;
    let n = match title_short {
        Some(d) => Some(d.into_node()),
        None => None,
    };
    push_opt(out, "title-short", n, Ghost(w), Ghost(ordinary_emitted(g_title_short)));
    proof {
        crate::node::lemma_seq_assoc(w0, p, ordinary_want("title-short"@, g_title_short));
    }
    let ghost p = p + ordinary_want("title-short"@, g_title_short);
    let ghost w = w0 + p;
    let n = match summary {
        Some(d) => Some(d.into_node()),
        None => None,
    };
    push_opt(out, "summary", n, Ghost(w), Ghost(ordinary_emitted(g_summary)));
    proof {
        crate::node::lemma_seq_assoc(w0, p, ordinary_want("summary"@, g_summary));
    }
    let ghost p = p + ordinary_want("summary"@, g_summary);
    let ghost w = w0 + p;
    let n = match abstract_text {
        Some(d) => Some(d.into_node()),
        None => None,
    };
    push_opt(out, "abstract", n, Ghost(w), Ghost(ordinary_emitted(g_abstract_text)));
    proof {
        crate::node::lemma_seq_assoc(w0, p, ordinary_want("abstract"@, g_abstract_text));
    }
    let ghost p = p + ordinary_want("abstract"@, g_abstract_text);
    let ghost w = w0 + p;
    assert(p =~= ordinaries_want_a(category, issn, eissn, issnl, doi, url, title, title_short, summary, abstract_text));
}

fn push_ordinaries_want_b(out: &mut Vec<(String, Node)>, container_title: Option<OrdinaryValue>, journal_abbrevation: Option<OrdinaryValue>, volume: Option<OrdinaryValue>, issue: Option<OrdinaryValue>, page: Option<OrdinaryValue>, language: Option<OrdinaryValue>, source: Option<OrdinaryValue>, rights: Option<OrdinaryValue>, license: Option<OrdinaryValue>, note: Option<OrdinaryValue>, Ghost(w0): Ghost<Seq<(Seq<char>, Emitted)>>)
    requires
        emits(old(out)@, w0),
    ensures
        emits(final(out)@, w0 + ordinaries_want_b(container_title, journal_abbrevation, volume, issue, page, language, source, rights, license, note)),
{
    let ghost g_container_title = container_title;
    let ghost g_journal_abbrevation = journal_abbrevation;
    let ghost g_volume = volume;
    let ghost g_issue = issue;
    let ghost g_page = page;
    let ghost g_language = language;
    let ghost g_source = source;
    let ghost g_rights = rights;
    let ghost g_license = license;
    let ghost g_note = note;
    let ghost w = w0;
    let n = match container_title {
        Some(d) => Some(d.into_node()),
        None => None,
    };
    push_opt(out, "container-title", n, Ghost(w), Ghost(ordinary_emitted(g_container_title)));
    let ghost p = ordinary_want("container-title"@, g_container_title);
    assert(w0 + p == w + ordinary_want("container-title"@, g_container_title));
    let ghost w = w0 + p;
    let n = match journal_abbrevation {
        Some(d) => Some(d.into_node()),
        None => None,
    };
    push_opt(out, "journalAbbreviation", n, Ghost(w), Ghost(ordinary_emitted(g_journal_abbrevation)));
    proof {
        crate::node::lemma_seq_assoc(w0, p, ordinary_want("journalAbbreviation"@, g_journal_abbrevation));
    }
    let ghost p = p + ordinary_want("journalAbbreviation"@, g_journal_abbrevation);
    let ghost w = w0 + p;
    let n = match volume {
        Some(d) => Some(d.into_node()),
        None => None,
    };
    push_opt(out, "volume", n, Ghost(w), Ghost(ordinary_emitted(g_volume)));
    proof {
        crate::node::lemma_seq_assoc(w0, p, ordinary_want("volume"@, g_volume));
    }
    let ghost p = p + ordinary_want("volume"@, g_volume);
    let ghost w = w0 + p;
    let n = match issue {
        Some(d) => Some(d.into_node()),
        None => None,
    };
    push_opt(out, "issue", n, Ghost(w), Ghost(ordinary_emitted(g_issue)));
    proof {
        crate::node::lemma_seq_assoc(w0, p, ordinary_want("issue"@, g_issue));
    }
    let ghost p = p + ordinary_want("issue"@, g_issue);
    let ghost w = w0 + p;
    let n = match page {
        Some(d) => Some(d.into_node()),
        None => None,
    };
    push_opt(out, "page", n, Ghost(w), Ghost(ordinary_emitted(g_page)));
    proof {
        crate::node::lemma_seq_assoc(w0, p, ordinary_want("page"@, g_page));
    }
    let ghost p = p + ordinary_want("page"@, g_page);
    let ghost w = w0 + p;
    let n = match language {
        Some(d) => Some(d.into_node()),
        None => None,
    };
    push_opt(out, "language", n, Ghost(w), Ghost(ordinary_emitted(g_language)));
    proof {
        crate::node::lemma_seq_assoc(w0, p, ordinary_want("language"@, g_language));
    }
    let ghost p = p + ordinary_want("language"@, g_language);
    let ghost w = w0 + p;
    let n = match source {
        Some(d) => Some(d.into_node()),
        None => None,
    };
    push_opt(out, "source", n, Ghost(w), Ghost(ordinary_emitted(g_source)));
    proof {
        crate::node::lemma_seq_assoc(w0, p, ordinary_want("source"@, g_source));
    }
    let ghost p = p + ordinary_want("source"@, g_source);
    let ghost w = w0 + p;
    let n = match rights {
        Some(d) => Some(d.into_node()),
        None => None,
    };
    push_opt(out, "rights", n, Ghost(w), Ghost(ordinary_emitted(g_rights)));
    proof {
        crate::node::lemma_seq_assoc(w0, p, ordinary_want("rights"@, g_rights));
    }
    let ghost p = p + ordinary_want("rights"@, g_rights);
    let ghost w = w0 + p;
    let n = match license {
        Some(d) => Some(d.into_node()),
        None => None,
    };
    push_opt(out, "license", n, Ghost(w), Ghost(ordinary_emitted(g_license)));
    proof {
        crate::node::lemma_seq_assoc(w0, p, ordinary_want("license"@, g_license));
    }
    let ghost p = p + ordinary_want("license"@, g_license);
    let ghost w = w0 + p;
    let n = match note {
        Some(d) => Some(d.into_node()),
        None => None,
    };
    push_opt(out, "note", n, Ghost(w), Ghost(ordinary_emitted(g_note)));
    proof {
        crate::node::lemma_seq_assoc(w0, p, ordinary_want("note"@, g_note));
    }
    let ghost p = p + ordinary_want("note"@, g_note);
    let ghost w = w0 + p;
    assert(p =~= ordinaries_want_b(container_title, journal_abbrevation, volume, issue, page, language, source, rights, license, note));
}

impl Item {
    /// An item with the given id and type and no other field.
    pub fn new(id: String, item_type: ItemType) -> (r: Item)
        ensures
            r.id == id,
            r.item_type == item_type,
            r.author@.len() == 0,
            r.contributor@.len() == 0,
            r.issued is None,
            r.updated is None,
            r.published is None,
            r.accessed is None,
            r.category is None,
            r.issn is None,
            r.eissn is None,
            r.issnl is None,
            r.doi is None,
            r.url is None,
            r.title is None,
            r.title_short is None,
            r.summary is None,
            r.abstract_text is None,
            r.container_title is None,
            r.journal_abbrevation is None,
            r.volume is None,
            r.issue is None,
            r.page is None,
            r.language is None,
            r.source is None,
            r.rights is None,
            r.license is None,
            r.note is None,
            r.fields@.len() == 0,
    {
        Item { id, item_type, author: Vec::new(), contributor: Vec::new(), issued: None, updated: None, published: None, accessed: None, category: None, issn: None, eissn: None, issnl: None, doi: None, url: None, title: None, title_short: None, summary: None, abstract_text: None, container_title: None, journal_abbrevation: None, volume: None, issue: None, page: None, language: None, source: None, rights: None, license: None, note: None, fields: Vec::new() }
    }

    /// Writes the item as a map: `id` and `type`, the lists of names that are
    /// not empty, the dates and ordinary values that are present, each in its
    /// declared order, then the unrecognised entries in the order they came;
    /// an entry under a key that a field knows is left out.
    pub fn into_node(self) -> (r: Node)
        ensures
            r matches Node::Mapping(out) && emits(out@, item_want(self)),
    {
        let ghost g = self;
        let mut out: Vec<(String, Node)> = Vec::new();
        proof {
            reveal(emits);
        }
        let ghost w0: Seq<(Seq<char>, Emitted)> = Seq::empty();
        let ghost t1 = Emitted::Text(g.id@);
        push_node(&mut out, "id", Node::Str(self.id), Ghost(w0), Ghost(t1));
        let ghost t2 = Emitted::Text(item_type_text(g.item_type));
        push_node(&mut out, "type", Node::Str(self.item_type.as_str().to_owned()), Ghost(w0 + seq![("id"@, t1)]), Ghost(t2));
        let ghost p = seq![("id"@, t1), ("type"@, t2)];
        proof {
            assert(w0 + seq![("id"@, t1)] + seq![("type"@, t2)] =~= w0 + p);
        }
        let ghost w = w0 + p;
        let a = if self.author.len() > 0 {
            Some(names_node(self.author))
        } else {
            None
        };
        push_opt(&mut out, "author", a, Ghost(w), Ghost(Emitted::Satisfies(|n: Node| names_list_node(n, g.author@))));
        proof {
            crate::node::lemma_seq_assoc(w0, p, names_want("author"@, g.author@));
        }
        let ghost p = p + names_want("author"@, g.author@);
        let ghost w = w0 + p;
        let c = if self.contributor.len() > 0 {
            Some(names_node(self.contributor))
        } else {
            None
        };
        push_opt(&mut out, "contributor", c, Ghost(w), Ghost(Emitted::Satisfies(|n: Node| names_list_node(n, g.contributor@))));
        proof {
            crate::node::lemma_seq_assoc(w0, p, names_want("contributor"@, g.contributor@));
        }
        let ghost p = p + names_want("contributor"@, g.contributor@);
        let ghost w = w0 + p;
        push_dates_want(&mut out, self.issued, self.updated, self.published, self.accessed, Ghost(w));
        proof {
            crate::node::lemma_seq_assoc(w0, p, dates_want(g.issued, g.updated, g.published, g.accessed));
        }
        let ghost p = p + dates_want(g.issued, g.updated, g.published, g.accessed);
        let ghost w = w0 + p;
        push_ordinaries_want_a(&mut out, self.category, self.issn, self.eissn, self.issnl, self.doi, self.url, self.title, self.title_short, self.summary, self.abstract_text, Ghost(w));
        proof {
            crate::node::lemma_seq_assoc(w0, p, ordinaries_want_a(g.category, g.issn, g.eissn, g.issnl, g.doi, g.url, g.title, g.title_short, g.summary, g.abstract_text));
        }
        let ghost p = p + ordinaries_want_a(g.category, g.issn, g.eissn, g.issnl, g.doi, g.url, g.title, g.title_short, g.summary, g.abstract_text);
        let ghost w = w0 + p;
        push_ordinaries_want_b(&mut out, self.container_title, self.journal_abbrevation, self.volume, self.issue, self.page, self.language, self.source, self.rights, self.license, self.note, Ghost(w));
        proof {
            crate::node::lemma_seq_assoc(w0, p, ordinaries_want_b(g.container_title, g.journal_abbrevation, g.volume, g.issue, g.page, g.language, g.source, g.rights, g.license, g.note));
        }
        let ghost p = p + ordinaries_want_b(g.container_title, g.journal_abbrevation, g.volume, g.issue, g.page, g.language, g.source, g.rights, g.license, g.note);
        let ghost w = w0 + p;
        let keys = item_key_list();
        let fields = take_unknown(self.fields, keys.as_slice());
        push_entries(&mut out, fields, Ghost(w));
        proof {
            crate::node::lemma_seq_assoc(w0, p, want_entries(unknown_entries(g.fields@, item_keys())));
            assert(w0 + (p + want_entries(unknown_entries(g.fields@, item_keys()))) =~= item_want(g));
        }
        Node::Mapping(out)
    }
}

} // verus!
