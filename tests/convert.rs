use citeworks::cff::date::Date as CalendarDate;
use citeworks::cff::identifiers::Identifier;
use citeworks::cff::kinds::{PublicationStatus, RefType, WorkType};
use citeworks::cff::names::Name as CffName;
use citeworks::convert::{
    convert_ref, convert_authors, convert_date, convert_name, convert_type, extra_idents, ov_string,
    page_end, page_start, parse_u64,
};
use citeworks::csl::dates::{Date, DateMeta, DateParts};
use citeworks::csl::items::{Item, ItemType};
use citeworks::csl::names::Name as CslName;
use citeworks::csl::ordinaries::OrdinaryValue;
use citeworks::node::{DecodeError, Node};

fn csl_name() -> CslName {
    CslName {
        family: None,
        given: None,
        dropping_particle: None,
        non_dropping_particle: None,
        suffix: None,
        literal: None,
        extra: Vec::new(),
    }
}

fn no_meta() -> DateMeta {
    DateMeta { season: None, circa: None, literal: None, extra: Vec::new() }
}

#[test]
fn item_types_convert() {
    assert_eq!(convert_type(ItemType::ArticleJournal), RefType::Article);
    assert_eq!(convert_type(ItemType::Webpage), RefType::Website);
    assert_eq!(convert_type(ItemType::GeographicMap), RefType::GeographicMap);
    assert_eq!(convert_type(ItemType::Speech), RefType::SoundRecording);
    assert_eq!(convert_type(ItemType::Report), RefType::Report);
}

#[test]
fn kinds_by_text() {
    assert_eq!(RefType::from_text("conference-paper"), Some(RefType::ConferencePaper));
    assert_eq!(RefType::from_text("map"), Some(RefType::GeographicMap));
    assert_eq!(RefType::from_text("Map"), None);
    assert_eq!(RefType::SoftwareVirtualMachine.as_str(), "software-virtual-machine");
    assert_eq!(RefType::default(), RefType::Generic);
    assert_eq!(ItemType::from_text("article-journal"), Some(ItemType::ArticleJournal));
    assert_eq!(ItemType::default(), ItemType::Article);
    assert_eq!(ItemType::PostWeblog.as_str(), "post-weblog");
    assert_eq!(WorkType::from_text("dataset"), Some(WorkType::Dataset));
    assert_eq!(PublicationStatus::AdvanceOnline.as_str(), "advance-online");
}

#[test]
fn pages() {
    assert_eq!(page_start(Some("4455-4464".to_string())), Some(4455));
    assert_eq!(page_end(Some("4455-4464".to_string())), Some(4464));
    assert_eq!(page_start(Some("42".to_string())), Some(42));
    assert_eq!(page_end(Some("42".to_string())), Some(42));
    assert_eq!(page_start(Some("xii-4".to_string())), None);
    assert_eq!(page_end(Some("12-".to_string())), None);
    assert_eq!(page_end(Some("abc".to_string())), None);
    assert_eq!(page_start(None), None);
    assert_eq!(parse_u64("+17"), Some(17));
    assert_eq!(parse_u64("18446744073709551615"), Some(u64::MAX));
    assert_eq!(parse_u64("18446744073709551616"), None);
}

#[test]
fn names_convert() {
    let mut person = csl_name();
    person.given = Some("Jane".to_string());
    person.family = Some("Roe".to_string());
    person.non_dropping_particle = Some("de".to_string());
    match convert_name(person) {
        CffName::Person(p) => {
            assert_eq!(p.family_names.as_deref(), Some("Roe"));
            assert_eq!(p.given_names.as_deref(), Some("Jane"));
            assert_eq!(p.name_particle.as_deref(), Some("de"));
        }
        other => panic!("expected a person, got {:?}", other),
    }
    let mut literal = csl_name();
    literal.literal = Some("John Doe".to_string());
    match convert_name(literal) {
        CffName::Entity(e) => assert_eq!(e.name.as_deref(), Some("John Doe")),
        other => panic!("expected an entity, got {:?}", other),
    }
    match convert_name(csl_name()) {
        CffName::Entity(e) => assert!(e.name.unwrap().contains("family: None")),
        other => panic!("expected an entity, got {:?}", other),
    }
    assert_eq!(convert_authors(Vec::new()), vec![CffName::Anonymous]);
    assert_eq!(convert_authors(vec![csl_name(), csl_name()]).len(), 2);
}

#[test]
fn dates_convert() {
    let single = Date::Single {
        date: DateParts { year: 2000, month: Some(1), day: Some(2) },
        meta: no_meta(),
    };
    assert_eq!(convert_date(Some(single)), Some(CalendarDate { year: 2000, month: 1, day: 2 }));
    let range = Date::Range {
        start: DateParts { year: 2000, month: Some(3), day: Some(4) },
        end: DateParts { year: 2010, month: Some(10), day: Some(10) },
        meta: no_meta(),
    };
    assert_eq!(convert_date(Some(range)), Some(CalendarDate { year: 2000, month: 3, day: 4 }));
    let year_only = Date::Single {
        date: DateParts { year: 2000, month: None, day: None },
        meta: no_meta(),
    };
    assert_eq!(convert_date(Some(year_only)), None);
    let raw = Date::Raw { date: "2000".to_string(), meta: no_meta() };
    assert_eq!(convert_date(Some(raw)), None);
    assert_eq!(convert_date(None), None);
}

#[test]
fn identifiers_and_texts_convert() {
    let ids = extra_idents(Some("1234-5678".to_string()), Some("8765-4321".to_string()));
    assert_eq!(
        ids,
        vec![
            Identifier::Other {
                value: "1234-5678".to_string(),
                description: Some("EISSN".to_string())
            },
            Identifier::Other {
                value: "8765-4321".to_string(),
                description: Some("ISSNL".to_string())
            },
        ]
    );
    assert!(extra_idents(None, None).is_empty());
    assert_eq!(ov_string(Some(OrdinaryValue::Integer(10))), Some("10".to_string()));
    assert_eq!(ov_string(None), None);
}

#[test]
fn csl_names_keep_unknown_text_fields() {
    let doc = Node::Mapping(vec![
        ("given".to_string(), Node::Str("Jane".to_string())),
        ("family".to_string(), Node::Str("Roe".to_string())),
        ("not-a-csl-name".to_string(), Node::Str("surplus".to_string())),
    ]);
    let n = CslName::from_node(&doc).unwrap();
    assert_eq!(n.given.as_deref(), Some("Jane"));
    assert_eq!(n.extra, vec![("not-a-csl-name".to_string(), "surplus".to_string())]);
    assert_eq!(
        n.into_node(),
        Node::Mapping(vec![
            ("family".to_string(), Node::Str("Roe".to_string())),
            ("given".to_string(), Node::Str("Jane".to_string())),
            ("not-a-csl-name".to_string(), Node::Str("surplus".to_string())),
        ])
    );
    let bad = Node::Mapping(vec![("x".to_string(), Node::Int(1))]);
    assert_eq!(CslName::from_node(&bad), Err(DecodeError::TypeMismatch { field: "x".to_string() }));
}

#[test]
fn reference_from_item() {
    let mut item = Item::new("e1".to_string(), ItemType::ArticleJournal);
    let mut jane = csl_name();
    jane.given = Some("Jane".to_string());
    jane.family = Some("Roe".to_string());
    item.author = vec![jane];
    item.page = Some(OrdinaryValue::String("4455-4464".to_string()));
    item.volume = Some(OrdinaryValue::Integer(10));
    item.license = Some(OrdinaryValue::String("CC-BY".to_string()));
    item.url = Some(OrdinaryValue::String("http://www.ls1-mardyn.de".to_string()));
    item.category = Some(OrdinaryValue::String("physics".to_string()));
    item.eissn = Some(OrdinaryValue::String("1549-9626".to_string()));
    item.issued = Some(Date::Single {
        date: DateParts { year: 2014, month: Some(10), day: Some(1) },
        meta: no_meta(),
    });
    let out = convert_ref(item);
    let text = |t: &str| Node::Str(t.to_string());
    let expected = Node::Mapping(vec![
        ("type".to_string(), text("article")),
        (
            "authors".to_string(),
            Node::List(vec![Node::Mapping(vec![
                ("family-names".to_string(), text("Roe")),
                ("given-names".to_string(), text("Jane")),
            ])]),
        ),
        ("copyright".to_string(), text("CC-BY")),
        ("start".to_string(), Node::Int(4455)),
        ("end".to_string(), Node::Int(4464)),
        (
            "identifiers".to_string(),
            Node::List(vec![Node::Mapping(vec![
                ("type".to_string(), text("other")),
                ("value".to_string(), text("1549-9626")),
                ("description".to_string(), text("EISSN")),
            ])]),
        ),
        ("issue-date".to_string(), text("2014-10-01")),
        ("keywords".to_string(), Node::List(vec![text("physics")])),
        ("url".to_string(), text("http://www.ls1-mardyn.de/")),
        ("volume".to_string(), Node::Int(10)),
    ]);
    assert_eq!(out, expected);
}

#[test]
fn reference_without_authors_is_anonymous() {
    let out = convert_ref(Item::new("x".to_string(), ItemType::Book));
    assert_eq!(
        out,
        Node::Mapping(vec![
            ("type".to_string(), Node::Str("book".to_string())),
            (
                "authors".to_string(),
                Node::List(vec![Node::Mapping(vec![(
                    "name".to_string(),
                    Node::Str("anonymous".to_string())
                )])])
            ),
        ])
    );
}
