use citeworks::cff::date::Date;
use citeworks::cff::document::{Cff, CffVersion};
use citeworks::cff::license::License;
use citeworks::cff::names::{Name, NameMeta, PersonName};
use citeworks::node::{DecodeError, Node};
use citeworks::weburl::WebUrl;

fn text(t: &str) -> Node {
    Node::Str(t.to_string())
}

fn map(entries: Vec<(&str, Node)>) -> Node {
    Node::Mapping(entries.into_iter().map(|(k, v)| (k.to_string(), v)).collect())
}

fn sorted(n: Node) -> Node {
    match n {
        Node::Mapping(entries) => {
            let mut entries: Vec<(String, Node)> =
                entries.into_iter().map(|(k, v)| (k, sorted(v))).collect();
            entries.sort_by(|a, b| a.0.cmp(&b.0));
            Node::Mapping(entries)
        }
        Node::List(items) => Node::List(items.into_iter().map(sorted).collect()),
        other => other,
    }
}

fn person(family: &str, given: &str) -> PersonName {
    PersonName {
        family_names: Some(family.to_string()),
        given_names: Some(given.to_string()),
        name_particle: None,
        name_suffix: None,
        affiliation: None,
        meta: NameMeta::empty(),
    }
}

fn druskat() -> Name {
    let mut p = person("Druskat", "Stephan");
    p.meta.orcid = WebUrl::parse("https://orcid.org/0000-0003-4925-7248");
    Name::Person(p)
}

fn druskat_doc() -> Node {
    map(vec![
        ("family-names", text("Druskat")),
        ("given-names", text("Stephan")),
        ("orcid", text("https://orcid.org/0000-0003-4925-7248")),
    ])
}

const RUBY_MESSAGE: &str =
    "If you use this software in your work, please cite it using the following metadata";

fn minimal_doc() -> Node {
    map(vec![
        ("cff-version", text("1.2.0")),
        ("message", text(RUBY_MESSAGE)),
        ("title", text("Ruby CFF Library")),
        (
            "authors",
            Node::List(vec![map(vec![
                ("family-names", text("Haines")),
                ("given-names", text("Robert")),
            ])]),
        ),
    ])
}

fn minimal_cff() -> Cff {
    let mut c = Cff::default();
    c.message = RUBY_MESSAGE.to_string();
    c.title = "Ruby CFF Library".to_string();
    c.authors = vec![Name::Person(person("Haines", "Robert"))];
    c
}

fn short_doc() -> Node {
    map(vec![
        ("cff-version", text("1.2.0")),
        ("message", text(RUBY_MESSAGE)),
        ("title", text("Ruby CFF Library")),
        (
            "authors",
            Node::List(vec![map(vec![
                ("family-names", text("Haines")),
                ("given-names", text("Robert")),
                ("affiliation", text("The University of Manchester, UK")),
            ])]),
        ),
        ("keywords", Node::List(vec![text("ruby"), text("credit"), text("citation")])),
        ("version", text("0.4.0")),
        ("date-released", text("2018-07-22")),
        ("license", text("Apache-2.0")),
        ("repository-artifact", text("https://rubygems.org/gems/cff")),
    ])
}

fn short_cff() -> Cff {
    let mut c = minimal_cff();
    let mut p = person("Haines", "Robert");
    p.affiliation = Some("The University of Manchester, UK".to_string());
    c.authors = vec![Name::Person(p)];
    c.keywords = vec!["ruby".to_string(), "credit".to_string(), "citation".to_string()];
    c.version = Some("0.4.0".to_string());
    c.date_released = Some(Date { year: 2018, month: 7, day: 22 });
    c.license = Some(License::from_node(&text("Apache-2.0")).unwrap());
    c.repository_artifact = WebUrl::parse("https://rubygems.org/gems/cff");
    c
}

fn simple_doc() -> Node {
    map(vec![
        ("cff-version", text("1.2.0")),
        ("message", text("If you use this software, please cite it as below.")),
        ("title", text("My Research Software")),
        ("authors", Node::List(vec![druskat_doc()])),
        ("version", text("2.0.4")),
        ("date-released", text("2017-12-18")),
        ("doi", text("10.5281/zenodo.1234")),
    ])
}

fn simple_cff() -> Cff {
    let mut c = Cff::default();
    c.message = "If you use this software, please cite it as below.".to_string();
    c.title = "My Research Software".to_string();
    c.authors = vec![druskat()];
    c.version = Some("2.0.4".to_string());
    c.date_released = Some(Date { year: 2017, month: 12, day: 18 });
    c.doi = Some("10.5281/zenodo.1234".to_string());
    c
}

const KICKSTARTER: &str = "https://hu.berlin/nexus/mrt-kickstarter/2.0.4/mrt2-kickstarter.exe";

fn binary_doc() -> Node {
    map(vec![
        ("cff-version", text("1.2.0")),
        ("message", text("If you use MRT, please cite the following.")),
        ("title", text("My Research Tool Kickstarter")),
        ("authors", Node::List(vec![druskat_doc()])),
        ("version", text("2.0.4")),
        ("date-released", text("2017-12-18")),
        ("repository-artifact", text(KICKSTARTER)),
    ])
}

fn binary_cff() -> Cff {
    let mut c = Cff::default();
    c.message = "If you use MRT, please cite the following.".to_string();
    c.title = "My Research Tool Kickstarter".to_string();
    c.authors = vec![druskat()];
    c.version = Some("2.0.4".to_string());
    c.date_released = Some(Date { year: 2017, month: 12, day: 18 });
    c.repository_artifact = WebUrl::parse(KICKSTARTER);
    c
}

#[test]
fn pass_minimal() {
    assert_eq!(Cff::from_node(minimal_doc()).unwrap(), minimal_cff());
}

#[test]
fn pass_short() {
    assert_eq!(Cff::from_node(short_doc()).unwrap(), short_cff());
}

#[test]
fn pass_simple() {
    assert_eq!(Cff::from_node(simple_doc()).unwrap(), simple_cff());
}

#[test]
fn pass_binary() {
    assert_eq!(Cff::from_node(binary_doc()).unwrap(), binary_cff());
}

#[test]
fn write_minimal() {
    assert_eq!(sorted(minimal_cff().into_node()), sorted(minimal_doc()));
}

#[test]
fn write_short() {
    assert_eq!(sorted(short_cff().into_node()), sorted(short_doc()));
}

#[test]
fn write_simple() {
    assert_eq!(sorted(simple_cff().into_node()), sorted(simple_doc()));
}

#[test]
fn write_binary() {
    assert_eq!(sorted(binary_cff().into_node()), sorted(binary_doc()));
}

#[test]
fn document_defaults() {
    let c = Cff::default();
    assert_eq!(
        c.cff_version,
        CffVersion { major: 1, minor: 2, patch: 0, pre: String::new(), build: String::new() }
    );
    assert_eq!(c.message, "Please cite this software using these metadata.");
    assert_eq!(c.cff_version.to_text(), "1.2.0");
}

#[test]
fn document_versions() {
    let v = CffVersion::parse("1.2.0-rc.1+build.5").unwrap();
    assert_eq!((v.major, v.minor, v.patch), (1, 2, 0));
    assert_eq!(v.pre, "rc.1");
    assert_eq!(v.build, "build.5");
    assert_eq!(v.to_text(), "1.2.0-rc.1+build.5");
    assert!(CffVersion::parse("1.2").is_none());
}

#[test]
fn document_required_fields() {
    let no_authors = map(vec![
        ("cff-version", text("1.2.0")),
        ("message", text("m")),
        ("title", text("t")),
        ("authors", Node::List(vec![])),
    ]);
    assert_eq!(
        Cff::from_node(no_authors),
        Err(DecodeError::ShapeMismatch { field: "authors".to_string() })
    );
    let empty_title = map(vec![
        ("cff-version", text("1.2.0")),
        ("message", text("m")),
        ("title", text("")),
    ]);
    assert_eq!(
        Cff::from_node(empty_title),
        Err(DecodeError::ShapeMismatch { field: "title".to_string() })
    );
    let bad_version = map(vec![("cff-version", text("one"))]);
    assert_eq!(
        Cff::from_node(bad_version),
        Err(DecodeError::ShapeMismatch { field: "cff-version".to_string() })
    );
}

#[test]
fn document_keeps_references_and_unknown_keys() {
    let reference = map(vec![("type", text("article")), ("title", text("T"))]);
    let mut doc = minimal_doc();
    if let Node::Mapping(e) = &mut doc {
        e.push(("references".to_string(), Node::List(vec![reference])));
        e.push(("x-extra".to_string(), Node::Int(1)));
    }
    let c = Cff::from_node(doc).unwrap();
    assert_eq!(c.references.len(), 1);
    assert_eq!(c.extra, vec![("x-extra".to_string(), Node::Int(1))]);
    let out = c.into_node();
    match out {
        Node::Mapping(e) => {
            let keys: Vec<&str> = e.iter().map(|(k, _)| k.as_str()).collect();
            assert_eq!(keys, vec!["cff-version", "message", "title", "authors", "references", "x-extra"]);
        }
        _ => panic!("expected a map"),
    }
}
