use citeworks::csl::dates::{Circa, Date, DateMeta, DateParts, Season};
use citeworks::csl::items::{Item, ItemType};
use citeworks::csl::names::Name;
use citeworks::node::Node;

fn text(t: &str) -> Node {
    Node::Str(t.to_string())
}

fn map(entries: Vec<(&str, Node)>) -> Node {
    Node::Mapping(entries.into_iter().map(|(k, v)| (k.to_string(), v)).collect())
}

fn ints(values: &[i64]) -> Node {
    Node::List(values.iter().map(|v| Node::Int(*v)).collect())
}

/// Sorts map entries by key, all the way down, so that documents compare
/// regardless of key order.
fn sorted(n: Node) -> Node {
    match n {
        Node::Mapping(entries) => {
            let mut entries: Vec<(String, Node)> =
                entries.into_iter().map(|(k, v)| (k, sorted(v))).collect();
            entries.sort_by(|a, b| a.0.cmp(&b.0));
            Node::Mapping(entries)
        }
        Node::List(items) => Node::List(items.into_iter().map(sorted).collect()),
        other => other,
    }
}

fn name() -> Name {
    Name {
        family: None,
        given: None,
        dropping_particle: None,
        non_dropping_particle: None,
        suffix: None,
        literal: None,
        extra: Vec::new(),
    }
}

fn no_meta() -> DateMeta {
    DateMeta { season: None, circa: None, literal: None, extra: Vec::new() }
}

fn report() -> Item {
    Item::new("example-id".to_string(), ItemType::Report)
}

fn author2_doc() -> Node {
    map(vec![
        ("id", text("example-id")),
        ("type", text("report")),
        (
            "author",
            Node::List(vec![
                map(vec![("given", text("Jane")), ("family", text("Roe"))]),
                map(vec![("literal", text("John Doe"))]),
            ]),
        ),
    ])
}

fn author2_item() -> Item {
    let mut item = report();
    let mut jane = name();
    jane.given = Some("Jane".to_string());
    jane.family = Some("Roe".to_string());
    let mut john = name();
    john.literal = Some("John Doe".to_string());
    item.author = vec![jane, john];
    item
}

fn issued_doc(issued: Node) -> Node {
    map(vec![("id", text("example-id")), ("type", text("report")), ("issued", issued)])
}

fn issued_item(issued: Date) -> Item {
    let mut item = report();
    item.issued = Some(issued);
    item
}

fn single_date() -> Date {
    Date::Single { date: DateParts { year: 2000, month: Some(1), day: Some(1) }, meta: no_meta() }
}

fn date_range() -> Date {
    Date::Range {
        start: DateParts { year: 2000, month: Some(1), day: Some(1) },
        end: DateParts { year: 2010, month: Some(10), day: Some(10) },
        meta: no_meta(),
    }
}

fn complex_date() -> Date {
    Date::Single {
        date: DateParts { year: 2000, month: Some(1), day: Some(1) },
        meta: DateMeta {
            season: Some(Season::Winter),
            circa: Some(Circa::Year(2001)),
            literal: None,
            extra: Vec::new(),
        },
    }
}

fn complex_doc() -> Node {
    map(vec![
        ("date-parts", Node::List(vec![ints(&[2000, 1, 1])])),
        ("season", text("winter")),
        ("circa", Node::Int(2001)),
    ])
}

fn extra_doc() -> Node {
    map(vec![
        ("id", text("example-id")),
        ("type", text("report")),
        ("not-a-csl-key", text("extra")),
        ("not-a-csl-date", map(vec![("raw", text("1/2/3456"))])),
        ("not-a-csl-name", Node::List(vec![map(vec![("literal", text("surplus"))])])),
    ])
}

fn extra_item() -> Item {
    let mut item = report();
    item.fields = vec![
        ("not-a-csl-key".to_string(), text("extra")),
        ("not-a-csl-date".to_string(), map(vec![("raw", text("1/2/3456"))])),
        (
            "not-a-csl-name".to_string(),
            Node::List(vec![map(vec![("literal", text("surplus"))])]),
        ),
    ];
    item
}

#[test]
fn parse_author2() {
    assert_eq!(Item::from_node(author2_doc()).unwrap(), author2_item());
}

#[test]
fn parse_single_date() {
    let doc = issued_doc(map(vec![("date-parts", Node::List(vec![ints(&[2000, 1, 1])]))]));
    assert_eq!(Item::from_node(doc).unwrap(), issued_item(single_date()));
}

#[test]
fn parse_date_range() {
    let doc = issued_doc(map(vec![(
        "date-parts",
        Node::List(vec![ints(&[2000, 1, 1]), ints(&[2010, 10, 10])]),
    )]));
    assert_eq!(Item::from_node(doc).unwrap(), issued_item(date_range()));
}

#[test]
fn parse_raw_date() {
    let doc = issued_doc(map(vec![("raw", text("1st January 2000"))]));
    let expected = Date::Raw { date: "1st January 2000".to_string(), meta: no_meta() };
    assert_eq!(Item::from_node(doc).unwrap(), issued_item(expected));
}

#[test]
fn parse_edtf() {
    let doc = issued_doc(map(vec![("edtf", text("2000-01-01/2010-10-10"))]));
    let expected = Date::Edtf { date: "2000-01-01/2010-10-10".to_string(), meta: no_meta() };
    assert_eq!(Item::from_node(doc).unwrap(), issued_item(expected));
}

#[test]
fn parse_complex_date() {
    let doc = issued_doc(complex_doc());
    assert_eq!(Item::from_node(doc).unwrap(), issued_item(complex_date()));
}

#[test]
fn parse_extra() {
    assert_eq!(Item::from_node(extra_doc()).unwrap(), extra_item());
}

#[test]
fn write_author2() {
    assert_eq!(sorted(author2_item().into_node()), sorted(author2_doc()));
}

#[test]
fn write_single_date() {
    let doc = issued_doc(map(vec![("date-parts", Node::List(vec![ints(&[2000, 1, 1])]))]));
    assert_eq!(sorted(issued_item(single_date()).into_node()), sorted(doc));
}

#[test]
fn write_date_range() {
    let doc = issued_doc(map(vec![(
        "date-parts",
        Node::List(vec![ints(&[2000, 1, 1]), ints(&[2010, 10, 10])]),
    )]));
    assert_eq!(sorted(issued_item(date_range()).into_node()), sorted(doc));
}

#[test]
fn write_raw_date() {
    let doc = issued_doc(map(vec![("raw", text("1st January 2000"))]));
    let date = Date::Raw { date: "1st January 2000".to_string(), meta: no_meta() };
    assert_eq!(sorted(issued_item(date).into_node()), sorted(doc));
}

#[test]
fn write_edtf() {
    let doc = issued_doc(map(vec![("edtf", text("2000-01-01/2010-10-10"))]));
    let date = Date::Edtf { date: "2000-01-01/2010-10-10".to_string(), meta: no_meta() };
    assert_eq!(sorted(issued_item(date).into_node()), sorted(doc));
}

#[test]
fn write_complex_date() {
    let doc = issued_doc(complex_doc());
    assert_eq!(sorted(issued_item(complex_date()).into_node()), sorted(doc));
}

#[test]
fn write_extra() {
    assert_eq!(sorted(extra_item().into_node()), sorted(extra_doc()));
}

#[test]
fn item_encoding_keeps_declared_order() {
    let mut item = report();
    item.title = Some(citeworks::csl::ordinaries::OrdinaryValue::String("T".to_string()));
    item.fields = vec![("zz".to_string(), Node::Bool(false)), ("aa".to_string(), Node::Null)];
    let out = item.into_node();
    let keys: Vec<String> = match out {
        Node::Mapping(e) => e.into_iter().map(|(k, _)| k).collect(),
        _ => panic!("expected a map"),
    };
    assert_eq!(keys, vec!["id", "type", "title", "zz", "aa"]);
}
