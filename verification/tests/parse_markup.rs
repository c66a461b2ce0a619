use xml2gpui::builder::{MarkupEvent, ParseError};
use xml2gpui::reader::{interpret, pair_attributes, parse_component, EventKind};

fn pair(key: &str, value: &str) -> (String, String) {
    (key.to_string(), value.to_string())
}

#[test]
fn markup_becomes_a_tree() {
    let tree = parse_component(
        "<div class=\"flex h-4\" id='root'>\n  <img src=\"a.png\"/>\n  <span>hi</span>\n</div>"
            .to_string(),
    )
    .unwrap();
    assert_eq!(tree.elem, "div");
    assert_eq!(tree.attributes, vec![pair("class", "flex h-4"), pair("id", "root")]);
    assert_eq!(tree.text, None);
    assert_eq!(tree.children.len(), 2);
    assert_eq!(tree.children[0].elem, "img");
    assert_eq!(tree.children[0].attributes, vec![pair("src", "a.png")]);
    assert!(tree.children[0].children.is_empty());
    assert_eq!(tree.children[1].elem, "span");
    assert_eq!(tree.children[1].text, Some("hi".to_string()));
}

#[test]
fn self_closing_root_is_a_tree() {
    let tree = parse_component("<div/>".to_string()).unwrap();
    assert_eq!(tree.elem, "div");
    assert!(tree.children.is_empty());
}

#[test]
fn mismatched_end_tag_is_malformed_markup() {
    assert_eq!(
        parse_component("<a><b></a>".to_string()).unwrap_err(),
        ParseError::MalformedMarkup
    );
    assert_eq!(parse_component("</a>".to_string()).unwrap_err(), ParseError::MalformedMarkup);
}

#[test]
fn unclosed_element_is_malformed_markup() {
    assert_eq!(parse_component("<a><b></b>".to_string()).unwrap_err(), ParseError::MalformedMarkup);
    assert_eq!(parse_component("<a>".to_string()).unwrap_err(), ParseError::MalformedMarkup);
}

#[test]
fn text_without_elements_gives_the_placeholder() {
    let tree = parse_component(String::new()).unwrap();
    assert_eq!(tree.elem, "error");
    assert_eq!(tree.text, Some("error".to_string()));
    let tree = parse_component("   \n ".to_string()).unwrap();
    assert_eq!(tree.elem, "error");
    let tree = parse_component("just words".to_string()).unwrap();
    assert_eq!(tree.elem, "error");
}

#[test]
fn escapes_are_resolved_in_values_and_text() {
    let tree = parse_component("<a t=\"x &amp; y\">1 &lt; 2</a>".to_string()).unwrap();
    assert_eq!(tree.attributes, vec![pair("t", "x & y")]);
    assert_eq!(tree.text, Some("1 < 2".to_string()));
}

#[test]
fn unknown_escape_is_a_failure_of_the_stream() {
    assert_eq!(parse_component("<a>&bogus;</a>".to_string()).unwrap_err(), ParseError::StreamRead);
    assert_eq!(
        parse_component("<a t=\"&bogus;\"></a>".to_string()).unwrap_err(),
        ParseError::StreamRead
    );
}

#[test]
fn broken_markup_is_a_failure_of_the_stream() {
    assert_eq!(parse_component("<a><!-- x </a>".to_string()).unwrap_err(), ParseError::StreamRead);
}

#[test]
fn names_lose_their_prefix() {
    let tree = parse_component("<x:div y:k=\"v\"></x:div>".to_string()).unwrap();
    assert_eq!(tree.elem, "div");
    assert_eq!(tree.attributes, vec![pair("k", "v")]);
}

#[test]
fn comments_and_declarations_are_passed_over() {
    let tree = parse_component(
        "<?xml version=\"1.0\"?><!-- top --><a><!-- in --><b/><?pi x?></a>".to_string(),
    )
    .unwrap();
    assert_eq!(tree.elem, "a");
    assert_eq!(tree.children.len(), 1);
    assert_eq!(tree.text, None);
}

#[test]
fn text_is_trimmed_and_the_last_run_stays() {
    let tree = parse_component("<a>  one  <b/>  two  </a>".to_string()).unwrap();
    assert_eq!(tree.text, Some("two".to_string()));
    assert_eq!(tree.children.len(), 1);
}

#[test]
fn attributes_in_the_loose_form() {
    let tree = parse_component("<a k=v flag></a>".to_string()).unwrap();
    assert_eq!(tree.attributes, vec![pair("k", "v"), pair("flag", "")]);
}

#[test]
fn attribute_that_is_none_becomes_the_error_pair() {
    let tree = parse_component("<a k=\"1\" k=\"2\" m=\"3\"></a>".to_string()).unwrap();
    assert_eq!(tree.attributes, vec![pair("k", "1"), pair("error", "error"), pair("m", "3")]);
}

#[test]
fn raw_attributes_pair_up() {
    let raw = vec![
        Some(("a".to_string(), Some("1".to_string()))),
        None,
        Some(("b".to_string(), Some(String::new()))),
    ];
    assert_eq!(
        pair_attributes(raw),
        Some(vec![pair("a", "1"), pair("error", "error"), pair("b", "")])
    );
    let unreadable = vec![Some(("a".to_string(), Some("1".to_string()))), Some(("b".to_string(), None)), None];
    assert_eq!(pair_attributes(unreadable), None);
    assert_eq!(pair_attributes(Vec::new()), Some(Vec::new()));
}

#[test]
fn raw_events_become_markup_events() {
    let raw = vec![Some(("a".to_string(), Some("1".to_string())))];
    assert_eq!(
        interpret(EventKind::Start, "div".to_string(), raw.clone(), None),
        Ok(Some(MarkupEvent::Start { name: "div".to_string(), attributes: vec![pair("a", "1")] }))
    );
    assert_eq!(
        interpret(EventKind::Empty, "img".to_string(), raw.clone(), None),
        Ok(Some(MarkupEvent::Empty { name: "img".to_string(), attributes: vec![pair("a", "1")] }))
    );
    assert_eq!(
        interpret(EventKind::End, "div".to_string(), Vec::new(), None),
        Ok(Some(MarkupEvent::End { name: "div".to_string() }))
    );
    assert_eq!(
        interpret(EventKind::Text, String::new(), Vec::new(), Some("t".to_string())),
        Ok(Some(MarkupEvent::Text { text: "t".to_string() }))
    );
    assert_eq!(
        interpret(EventKind::Text, String::new(), Vec::new(), None),
        Err(ParseError::StreamRead)
    );
    assert_eq!(
        interpret(EventKind::Start, "div".to_string(), vec![Some(("a".to_string(), None))], None),
        Err(ParseError::StreamRead)
    );
    assert_eq!(interpret(EventKind::Other, String::new(), Vec::new(), None), Ok(None));
}
