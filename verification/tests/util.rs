use osm_feed::changeset;
use osm_feed::element;
use osm_feed::util::{close_with_line_feed, content_type, is_json, pretty_json, Format};

#[test]
fn media_types_of_the_formats() {
    assert_eq!(Format::Xml.mimetype(), "application/xml");
    assert_eq!(Format::Json.mimetype(), "application/json");
}

#[test]
fn names_of_the_formats() {
    assert_eq!(Format::Xml.name(), "xml");
    assert_eq!(Format::Json.name(), "json");
}

#[test]
fn media_type_is_what_stands_before_the_first_semicolon() {
    assert_eq!(content_type(Some("application/json; charset=utf-8")), Some("application/json"));
    assert_eq!(content_type(Some("text/xml;charset=utf-8;q=1")), Some("text/xml"));
    assert_eq!(content_type(Some("application/xml")), Some("application/xml"));
    assert_eq!(content_type(Some("application/json ; charset=utf-8")), Some("application/json "));
    assert_eq!(content_type(Some(";")), Some(""));
    assert_eq!(content_type(Some("")), Some(""));
    assert_eq!(content_type(Some("t\u{e9}xt/pl\u{e4}in;x")), Some("t\u{e9}xt/pl\u{e4}in"));
    assert_eq!(content_type(None), None);
}

#[test]
fn only_the_json_media_type_is_json() {
    assert!(is_json(Some("application/json")));
    assert!(!is_json(Some("application/json ")));
    assert!(!is_json(Some("Application/JSON")));
    assert!(!is_json(Some("application/xml")));
    assert!(!is_json(Some("")));
    assert!(!is_json(None));
    assert!(is_json(content_type(Some("application/json; charset=utf-8"))));
}

#[test]
fn json_is_laid_out_and_ends_with_a_line_feed() {
    assert_eq!(pretty_json("{\"a\":1,\"b\":[1,2]}").as_deref(), Ok("{\n  \"a\": 1,\n  \"b\": [\n    1,\n    2\n  ]\n}\n"));
    assert_eq!(pretty_json("{}").as_deref(), Ok("{}\n"));
    assert_eq!(pretty_json("").as_deref(), Ok("\n"));
}

#[test]
fn line_feed_closes_a_document_and_leaves_an_error() {
    assert_eq!(close_with_line_feed(Ok("{}".to_string())), Ok("{}\n".to_string()));
    assert_eq!(close_with_line_feed(Ok(String::new())), Ok("\n".to_string()));
    assert_eq!(close_with_line_feed(Err("bad".to_string())), Err("bad".to_string()));
}

#[test]
fn address_of_an_element() {
    let node = element::CliArgs { format: Format::Xml, history: false, id: 1 };
    assert_eq!(
        node.endpoint("https://www.openstreetmap.org", "node"),
        "https://www.openstreetmap.org/api/0.6/node/1"
    );
    assert_eq!(node.accept(), "application/xml");
    let way = element::CliArgs { format: Format::Json, history: true, id: 18_446_744_073_709_551_615 };
    assert_eq!(
        way.endpoint("https://www.openstreetmap.org", "way"),
        "https://www.openstreetmap.org/api/0.6/way/18446744073709551615/history"
    );
    assert_eq!(way.accept(), "application/json");
    let relation = element::CliArgs { format: Format::Xml, history: false, id: 0 };
    assert_eq!(relation.endpoint("", "relation"), "/api/0.6/relation/0");
}

#[test]
fn address_of_a_changeset() {
    let described = changeset::CliArgs { format: Format::Json, diff: false, id: 155_530_622 };
    assert_eq!(
        described.endpoint("https://www.openstreetmap.org"),
        "https://www.openstreetmap.org/api/0.6/changeset/155530622"
    );
    assert_eq!(described.accept(), "application/json");
    let changes = changeset::CliArgs { format: Format::Xml, diff: true, id: 7 };
    assert_eq!(changes.endpoint("http://localhost"), "http://localhost/api/0.6/changeset/7/download");
    assert_eq!(changes.accept(), "application/xml");
}
