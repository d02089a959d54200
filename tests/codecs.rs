use citeworks::cff::date::Date as CalendarDate;
use citeworks::cff::identifiers::Identifier;
use citeworks::cff::license::{License, LicenseExpression};
use citeworks::cff::names::{Name, NameMeta};
use citeworks::csl::dates::{Circa, Date, DateParts, Season};
use citeworks::csl::items::{Item, ItemType};
use citeworks::csl::ordinaries::OrdinaryValue;
use citeworks::node::{DecodeError, Node};

fn text(t: &str) -> Node {
    Node::Str(t.to_string())
}

fn map(entries: Vec<(&str, Node)>) -> Node {
    Node::Mapping(entries.into_iter().map(|(k, v)| (k.to_string(), v)).collect())
}

fn ints(values: &[i64]) -> Node {
    Node::List(values.iter().map(|v| Node::Int(*v)).collect())
}

fn entries(n: &Node) -> &Vec<(String, Node)> {
    match n {
        Node::Mapping(e) => e,
        other => panic!("expected a map, got {:?}", other),
    }
}

fn get<'a>(n: &'a Node, key: &str) -> Option<&'a Node> {
    entries(n).iter().find(|(k, _)| k == key).map(|(_, v)| v)
}

fn parts(year: i64, month: u8, day: u8) -> DateParts {
    DateParts { year, month: Some(month), day: Some(day) }
}

#[test]
fn calendar_date_month_out_of_range() {
    assert_eq!(
        CalendarDate::from_str("2021-13-01"),
        Err(DecodeError::RangeViolation { field: "month".to_string(), value: 13 })
    );
    assert_eq!(
        CalendarDate::from_str("2021-00-15"),
        Err(DecodeError::RangeViolation { field: "month".to_string(), value: 0 })
    );
}

#[test]
fn calendar_date_day_not_checked_against_month() {
    assert_eq!(
        CalendarDate::from_str("2021-02-30"),
        Ok(CalendarDate { year: 2021, month: 2, day: 30 })
    );
    assert_eq!(
        CalendarDate::from_str("2021-02-32"),
        Err(DecodeError::RangeViolation { field: "day".to_string(), value: 32 })
    );
    assert_eq!(
        CalendarDate::from_str("2021-02-00"),
        Err(DecodeError::RangeViolation { field: "day".to_string(), value: 0 })
    );
}

#[test]
fn calendar_date_round_trip() {
    let d = CalendarDate::from_str("2018-07-22").unwrap();
    assert_eq!(d, CalendarDate { year: 2018, month: 7, day: 22 });
    assert_eq!(d.to_text(), "2018-07-22");
    assert_eq!(CalendarDate { year: 5, month: 1, day: 2 }.to_text(), "0005-01-02");
    assert_eq!(CalendarDate { year: -5, month: 12, day: 31 }.to_text(), "-005-12-31");
    assert_eq!(CalendarDate { year: 12345, month: 3, day: 4 }.to_text(), "12345-03-04");
}

#[test]
fn calendar_date_shape_errors() {
    let shape = Err(DecodeError::ShapeMismatch { field: "date".to_string() });
    assert_eq!(CalendarDate::from_str("2018-7-22"), shape);
    assert_eq!(CalendarDate::from_str("18-07-22"), shape);
    assert_eq!(CalendarDate::from_str("2018-07-2x"), shape);
    assert_eq!(CalendarDate::from_str("2018/07/22"), shape);
    assert_eq!(CalendarDate::from_str("+018-07-22"), shape);
    assert_eq!(CalendarDate::from_str(""), shape);
}

#[test]
fn resolve_anonymous_discards_other_keys() {
    let doc = map(vec![("name", text("anonymous")), ("alias", text("someone"))]);
    assert_eq!(Name::resolve(doc), Ok(Name::Anonymous));
    let out = Name::Anonymous.into_node();
    assert_eq!(out, map(vec![("name", text("anonymous"))]));
}

#[test]
fn resolve_person_without_name_key() {
    let doc = map(vec![
        ("family-names", text("Haines")),
        ("given-names", text("Robert")),
        ("affiliation", text("The University of Manchester, UK")),
        ("x-note", Node::Bool(true)),
    ]);
    let name = Name::resolve(doc).unwrap();
    match &name {
        Name::Person(p) => {
            assert_eq!(p.family_names.as_deref(), Some("Haines"));
            assert_eq!(p.given_names.as_deref(), Some("Robert"));
            assert_eq!(p.affiliation.as_deref(), Some("The University of Manchester, UK"));
            assert_eq!(p.meta.extra, vec![("x-note".to_string(), Node::Bool(true))]);
        }
        other => panic!("expected a person, got {:?}", other),
    }
    let out = name.into_node();
    assert_eq!(
        out,
        map(vec![
            ("family-names", text("Haines")),
            ("given-names", text("Robert")),
            ("affiliation", text("The University of Manchester, UK")),
            ("x-note", Node::Bool(true)),
        ])
    );
}

#[test]
fn resolve_entity_keeps_unknown_keys() {
    let doc = map(vec![("x-custom", Node::Int(42)), ("name", text("Acme"))]);
    let name = Name::resolve(doc).unwrap();
    match &name {
        Name::Entity(e) => {
            assert_eq!(e.name.as_deref(), Some("Acme"));
            assert_eq!(e.meta.extra, vec![("x-custom".to_string(), Node::Int(42))]);
        }
        other => panic!("expected an entity, got {:?}", other),
    }
    let out = name.into_node();
    assert_eq!(get(&out, "name"), Some(&text("Acme")));
    assert_eq!(get(&out, "x-custom"), Some(&Node::Int(42)));
    assert_eq!(entries(&out).len(), 2);
}

#[test]
fn resolve_name_must_be_text() {
    let doc = map(vec![("name", Node::Int(5))]);
    assert_eq!(
        Name::resolve(doc),
        Err(DecodeError::TypeMismatch { field: "name".to_string() })
    );
    assert_eq!(
        Name::resolve(text("Acme")),
        Err(DecodeError::TypeMismatch { field: "name".to_string() })
    );
    let doc = map(vec![("family-names", Node::Int(5))]);
    assert_eq!(
        Name::resolve(doc),
        Err(DecodeError::TypeMismatch { field: "family-names".to_string() })
    );
}

#[test]
fn resolve_entity_dates_and_urls() {
    let doc = map(vec![
        ("name", text("1st Conference on Wishful Thinking")),
        ("date-start", text("2017-12-18")),
        ("date-end", text("2017-12-19")),
        ("website", text("http://www.opaquity.com")),
    ]);
    let name = Name::resolve(doc).unwrap();
    match &name {
        Name::Entity(e) => {
            assert_eq!(e.date_start, Some(CalendarDate { year: 2017, month: 12, day: 18 }));
            assert_eq!(e.date_end, Some(CalendarDate { year: 2017, month: 12, day: 19 }));
            assert_eq!(e.meta.website.as_ref().map(|u| u.as_str()), Some("http://www.opaquity.com/"));
        }
        other => panic!("expected an entity, got {:?}", other),
    }
    let out = name.into_node();
    assert_eq!(get(&out, "date-start"), Some(&text("2017-12-18")));
    assert_eq!(get(&out, "website"), Some(&text("http://www.opaquity.com/")));
    let bad = map(vec![("name", text("Conf")), ("date-start", text("2017-13-18"))]);
    assert_eq!(
        Name::resolve(bad),
        Err(DecodeError::RangeViolation { field: "month".to_string(), value: 13 })
    );
    let bad = map(vec![("family-names", text("Doe")), ("orcid", text("not a url"))]);
    assert_eq!(
        Name::resolve(bad),
        Err(DecodeError::ShapeMismatch { field: "orcid".to_string() })
    );
}

#[test]
fn name_meta_empty() {
    let m = NameMeta::empty();
    assert!(m.orcid.is_none() && m.website.is_none() && m.extra.is_empty());
}

#[test]
fn date_single_from_date_parts() {
    let doc = map(vec![("date-parts", Node::List(vec![ints(&[2000, 1, 1])]))]);
    let d = Date::from_node(doc).unwrap();
    match &d {
        Date::Single { date, .. } => assert_eq!(*date, parts(2000, 1, 1)),
        other => panic!("expected a single date, got {:?}", other),
    }
    assert_eq!(d.into_node(), map(vec![("date-parts", Node::List(vec![ints(&[2000, 1, 1])]))]));
}

#[test]
fn date_range_round_trip() {
    let issued = map(vec![(
        "date-parts",
        Node::List(vec![ints(&[2000, 1, 1]), ints(&[2010, 10, 10])]),
    )]);
    let d = Date::from_node(issued).unwrap();
    match &d {
        Date::Range { start, end, .. } => {
            assert_eq!(*start, parts(2000, 1, 1));
            assert_eq!(*end, parts(2010, 10, 10));
        }
        other => panic!("expected a range, got {:?}", other),
    }
    assert_eq!(
        d.into_node(),
        map(vec![("date-parts", Node::List(vec![ints(&[2000, 1, 1]), ints(&[2010, 10, 10])]))])
    );
}

#[test]
fn date_parts_win_over_raw() {
    let doc = map(vec![
        ("raw", text("1st January 2000")),
        ("date-parts", Node::List(vec![ints(&[2000, 1, 1])])),
        ("edtf", text("2000-01-01")),
    ]);
    assert!(matches!(Date::from_node(doc), Ok(Date::Single { .. })));
}

#[test]
fn date_edtf_before_raw() {
    let doc = map(vec![("raw", text("1st January 2000")), ("edtf", text("2000-01-01/2010-10-10"))]);
    match Date::from_node(doc).unwrap() {
        Date::Edtf { date, .. } => assert_eq!(date, "2000-01-01/2010-10-10"),
        other => panic!("expected an EDTF date, got {:?}", other),
    }
    let doc = map(vec![("raw", text("1st January 2000"))]);
    let d = Date::from_node(doc).unwrap();
    match &d {
        Date::Raw { date, .. } => assert_eq!(date, "1st January 2000"),
        other => panic!("expected a raw date, got {:?}", other),
    }
    assert_eq!(d.into_node(), map(vec![("raw", text("1st January 2000"))]));
    let three = map(vec![
        ("date-parts", Node::List(vec![ints(&[2000]), ints(&[2001]), ints(&[2002])])),
        ("raw", text("2000s")),
    ]);
    assert!(matches!(Date::from_node(three), Ok(Date::Raw { .. })));
}

#[test]
fn date_unknown_format() {
    let doc = map(vec![("season", text("spring"))]);
    assert_eq!(
        Date::from_node(doc),
        Err(DecodeError::UnknownFormat { node: map(vec![("season", text("spring"))]) })
    );
    assert_eq!(
        Date::from_node(text("2000")),
        Err(DecodeError::TypeMismatch { field: "date".to_string() })
    );
}

#[test]
fn date_parts_accept_numeric_strings() {
    let doc = map(vec![(
        "date-parts",
        Node::List(vec![Node::List(vec![text("2000"), text("1"), Node::Int(1)])]),
    )]);
    let d = Date::from_node(doc).unwrap();
    assert_eq!(d.into_node(), map(vec![("date-parts", Node::List(vec![ints(&[2000, 1, 1])]))]));
    let year_only = Node::List(vec![Node::Int(2000)]);
    assert_eq!(
        DateParts::from_node(&year_only),
        Ok(DateParts { year: 2000, month: None, day: None })
    );
    assert_eq!(DateParts { year: 2000, month: Some(4), day: None }.to_node(), ints(&[2000, 4]));
}

#[test]
fn date_parts_errors() {
    assert_eq!(
        DateParts::from_node(&ints(&[2000, 13, 1])),
        Err(DecodeError::RangeViolation { field: "month".to_string(), value: 13 })
    );
    assert_eq!(
        DateParts::from_node(&ints(&[2000, 12, 32])),
        Err(DecodeError::RangeViolation { field: "day".to_string(), value: 32 })
    );
    assert!(matches!(
        DateParts::from_node(&ints(&[])),
        Err(DecodeError::ShapeMismatch { .. })
    ));
    assert!(matches!(
        DateParts::from_node(&ints(&[1, 2, 3, 4])),
        Err(DecodeError::ShapeMismatch { .. })
    ));
    assert!(matches!(
        DateParts::from_node(&Node::List(vec![text("two thousand")])),
        Err(DecodeError::TypeMismatch { .. })
    ));
}

#[test]
fn date_metadata_and_extras() {
    let doc = map(vec![
        ("date-parts", Node::List(vec![ints(&[2000])])),
        ("season", text("Season-03")),
        ("circa", Node::Bool(true)),
        ("literal", text("autumn 2000")),
        ("not-a-csl-date", text("1/2/3456")),
        ("x-count", Node::Int(3)),
    ]);
    let d = Date::from_node(doc).unwrap();
    let meta = d.meta();
    assert_eq!(meta.season, Some(Season::Autumn));
    assert_eq!(meta.circa, Some(Circa::Bool(true)));
    assert_eq!(meta.literal.as_deref(), Some("autumn 2000"));
    assert_eq!(
        meta.extra,
        vec![
            ("not-a-csl-date".to_string(), OrdinaryValue::String("1/2/3456".to_string())),
            ("x-count".to_string(), OrdinaryValue::Integer(3)),
        ]
    );
    assert_eq!(
        d.into_node(),
        map(vec![
            ("date-parts", Node::List(vec![ints(&[2000])])),
            ("season", text("autumn")),
            ("circa", Node::Bool(true)),
            ("literal", text("autumn 2000")),
            ("not-a-csl-date", text("1/2/3456")),
            ("x-count", Node::Int(3)),
        ])
    );
    let nested = map(vec![("raw", text("x")), ("bad", Node::List(vec![]))]);
    assert_eq!(
        Date::from_node(nested),
        Err(DecodeError::TypeMismatch { field: "bad".to_string() })
    );
}

#[test]
fn seasons_in_any_case() {
    assert_eq!(Season::from_str("WINTER"), Ok(Season::Winter));
    assert_eq!(Season::from_str("Spring"), Ok(Season::Spring));
    assert_eq!(Season::from_str("season-02"), Ok(Season::Summer));
    assert_eq!(
        Season::from_str("monsoon"),
        Err(DecodeError::ShapeMismatch { field: "season".to_string() })
    );
    assert_eq!(Season::from_lowercase("WINTER"), None);
    assert_eq!(Season::Autumn.as_str(), "autumn");
}

#[test]
fn circa_accessors() {
    let a = Circa::Arbitrary("ca. 2008".to_string());
    assert_eq!(a.as_arbitrary(), Some("ca. 2008"));
    assert_eq!(a.as_year(), None);
    assert_eq!(Circa::Year(2008).as_year(), Some(2008));
    assert_eq!(Circa::Bool(true).as_bool(), Some(true));
    assert_eq!(Circa::Bool(false).as_arbitrary(), None);
    assert_eq!(Circa::Year(1999).into_node(), Node::Int(1999));
}

#[test]
fn numbers_classified_by_their_text() {
    assert_eq!(Node::number("42"), Node::Int(42));
    assert_eq!(Node::number("-7"), Node::Int(-7));
    assert_eq!(Node::number("1.5"), Node::Float("1.5".to_string()));
    assert_eq!(Node::number("1e3"), Node::Float("1e3".to_string()));
    assert_eq!(
        Node::number("99999999999999999999"),
        Node::Float("99999999999999999999".to_string())
    );
    assert_eq!(Node::number("-9223372036854775808"), Node::Int(i64::MIN));
}

#[test]
fn ordinary_values_keep_their_kind() {
    assert_eq!(OrdinaryValue::from_node(Node::Int(42), "volume"), Ok(OrdinaryValue::Integer(42)));
    assert_eq!(
        OrdinaryValue::from_node(text("42"), "volume"),
        Ok(OrdinaryValue::String("42".to_string()))
    );
    assert_eq!(
        OrdinaryValue::from_node(Node::Float("2.5".to_string()), "volume"),
        Ok(OrdinaryValue::Float("2.5".to_string()))
    );
    assert_eq!(
        OrdinaryValue::from_node(Node::Bool(true), "volume"),
        Err(DecodeError::TypeMismatch { field: "volume".to_string() })
    );
    assert_eq!(OrdinaryValue::Integer(-42).to_text(), "-42");
    assert_eq!(OrdinaryValue::Integer(7).into_node(), Node::Int(7));
    assert_eq!(OrdinaryValue::String("x".to_string()).as_str(), Some("x"));
    assert_eq!(OrdinaryValue::Integer(3).as_i64(), Some(3));
    assert_eq!(OrdinaryValue::Float("0.5".to_string()).as_float_text(), Some("0.5"));
}

#[test]
fn license_single_equals_one_member_list() {
    let single = License::from_node(&text("Apache-2.0")).unwrap();
    let list = License::from_node(&Node::List(vec![text("Apache-2.0")])).unwrap();
    assert!(single.equivalent(&list));
    assert_eq!(single, list);
    assert_eq!(list.to_expression().unwrap().as_str(), "(Apache-2.0)");
}

#[test]
fn license_member_order() {
    let a = License::from_node(&Node::List(vec![text("Apache-2.0"), text("MIT")])).unwrap();
    let b = License::from_node(&Node::List(vec![text("MIT"), text("Apache-2.0")])).unwrap();
    assert_eq!(a.to_expression().unwrap().as_str(), "(Apache-2.0) OR (MIT)");
    assert_eq!(a.to_node(), Node::List(vec![text("Apache-2.0"), text("MIT")]));
    assert_ne!(a.to_node(), b.to_node());
    assert!(a.equivalent(&b));
    assert_eq!(a, b);
    let c = License::from_node(&Node::List(vec![text("MIT"), text("BSD-3-Clause")])).unwrap();
    assert_ne!(a, c);
    let joined = License::from_node(&text("Apache-2.0 OR MIT")).unwrap();
    assert!(a.equivalent(&joined));
}

#[test]
fn license_errors() {
    assert_eq!(
        License::from_node(&text("MIT OR NOPE")).err(),
        Some(DecodeError::GrammarError { text: "MIT OR NOPE".to_string() })
    );
    assert_eq!(
        License::from_node(&Node::List(vec![text("MIT"), Node::Int(1)])).err(),
        Some(DecodeError::TypeMismatch { field: "license".to_string() })
    );
    let empty = License::from_node(&Node::List(vec![])).unwrap();
    assert!(matches!(empty, License::AnyOf(ref v) if v.is_empty()));
    assert_eq!(empty.to_expression().err(), Some(DecodeError::InternalInconsistency));
    assert!(LicenseExpression::parse("MIT AND (").is_none());
    assert_eq!(LicenseExpression::parse("MIT").unwrap().as_str(), "MIT");
}

#[test]
fn identifiers_by_type() {
    let doi = map(vec![("type", text("doi")), ("value", text("10.5281/zenodo.1234"))]);
    let id = Identifier::from_node(&doi).unwrap();
    assert_eq!(
        id,
        Identifier::Doi { value: "10.5281/zenodo.1234".to_string(), description: None }
    );
    assert_eq!(id.to_node(), doi);
    let url = map(vec![
        ("type", text("url")),
        ("value", text("https://hu.berlin/nexus")),
        ("description", text("binary")),
    ]);
    let id = Identifier::from_node(&url).unwrap();
    assert!(matches!(id, Identifier::Url { .. }));
    assert_eq!(id.to_node(), url);
    let bad = map(vec![("type", text("isbn")), ("value", text("x"))]);
    assert_eq!(
        Identifier::from_node(&bad),
        Err(DecodeError::ShapeMismatch { field: "type".to_string() })
    );
    let missing = map(vec![("type", text("doi"))]);
    assert_eq!(
        Identifier::from_node(&missing),
        Err(DecodeError::ShapeMismatch { field: "value".to_string() })
    );
}

#[test]
fn item_with_date_range_end_to_end() {
    let doc = map(vec![
        ("id", text("e1")),
        ("type", text("report")),
        (
            "issued",
            map(vec![("date-parts", Node::List(vec![ints(&[2000, 1, 1]), ints(&[2010, 10, 10])]))]),
        ),
    ]);
    let item = Item::from_node(doc).unwrap();
    assert_eq!(item.id, "e1");
    assert_eq!(item.item_type, ItemType::Report);
    let issued = item.issued.unwrap();
    match &issued {
        Date::Range { start, end, .. } => {
            assert_eq!(*start, parts(2000, 1, 1));
            assert_eq!(*end, parts(2010, 10, 10));
        }
        other => panic!("expected a range, got {:?}", other),
    }
    assert_eq!(
        issued.into_node(),
        map(vec![("date-parts", Node::List(vec![ints(&[2000, 1, 1]), ints(&[2010, 10, 10])]))])
    );
}

#[test]
fn item_fields_and_passthrough() {
    let doc = map(vec![
        ("id", text("example-id")),
        ("type", text("article-journal")),
        (
            "author",
            Node::List(vec![
                map(vec![("given", text("Jane")), ("family", text("Roe"))]),
                map(vec![("literal", text("John Doe"))]),
            ]),
        ),
        ("volume", Node::Int(10)),
        ("page", text("4455-4464")),
        ("not-a-csl-key", text("extra")),
        ("not-a-csl-names", Node::List(vec![map(vec![("family", text("X"))])])),
    ]);
    let item = Item::from_node(doc).unwrap();
    assert_eq!(item.author.len(), 2);
    assert_eq!(item.author[0].given.as_deref(), Some("Jane"));
    assert_eq!(item.author[1].literal.as_deref(), Some("John Doe"));
    assert_eq!(item.volume, Some(OrdinaryValue::Integer(10)));
    assert_eq!(item.page, Some(OrdinaryValue::String("4455-4464".to_string())));
    assert_eq!(item.fields.len(), 2);
    assert_eq!(item.fields[0], ("not-a-csl-key".to_string(), text("extra")));
    assert_eq!(item.fields[1].0, "not-a-csl-names");
}

#[test]
fn item_errors() {
    assert_eq!(
        Item::from_node(map(vec![("type", text("report"))])),
        Err(DecodeError::ShapeMismatch { field: "id".to_string() })
    );
    assert_eq!(
        Item::from_node(map(vec![("id", text("x")), ("type", text("novel"))])),
        Err(DecodeError::ShapeMismatch { field: "type".to_string() })
    );
    assert_eq!(
        Item::from_node(map(vec![
            ("id", text("x")),
            ("type", text("book")),
            ("title", Node::List(vec![])),
        ])),
        Err(DecodeError::TypeMismatch { field: "title".to_string() })
    );
}

#[test]
fn encoders_skip_unknown_entries_under_known_keys() {
    let mut meta = NameMeta::empty();
    meta.extra = vec![("name".to_string(), text("x")), ("x-note".to_string(), text("kept"))];
    let person = Name::Person(citeworks::cff::names::PersonName {
        family_names: Some("Doe".to_string()),
        given_names: None,
        name_particle: None,
        name_suffix: None,
        affiliation: None,
        meta,
    });
    assert_eq!(
        person.into_node(),
        map(vec![("family-names", text("Doe")), ("x-note", text("kept"))])
    );
    let date = Date::Single {
        date: parts(2000, 1, 1),
        meta: citeworks::csl::dates::DateMeta {
            season: None,
            circa: None,
            literal: None,
            extra: vec![
                ("raw".to_string(), OrdinaryValue::String("x".to_string())),
                ("x-n".to_string(), OrdinaryValue::Integer(1)),
            ],
        },
    };
    assert_eq!(
        date.into_node(),
        map(vec![("date-parts", Node::List(vec![ints(&[2000, 1, 1])])), ("x-n", Node::Int(1))])
    );
}
