use xml2gpui::builder::{build, MarkupEvent, ParseError, TreeBuilder};
use xml2gpui::component::{find_attribute, Component};

fn start(name: &str, attributes: &[(&str, &str)]) -> MarkupEvent {
    MarkupEvent::Start {
        name: name.to_string(),
        attributes: attributes.iter().map(|(k, v)| (k.to_string(), v.to_string())).collect(),
    }
}

fn empty(name: &str, attributes: &[(&str, &str)]) -> MarkupEvent {
    MarkupEvent::Empty {
        name: name.to_string(),
        attributes: attributes.iter().map(|(k, v)| (k.to_string(), v.to_string())).collect(),
    }
}

fn end(name: &str) -> MarkupEvent {
    MarkupEvent::End { name: name.to_string() }
}

fn text(text: &str) -> MarkupEvent {
    MarkupEvent::Text { text: text.to_string() }
}

fn count(node: &Component) -> usize {
    1 + node.children.iter().map(count).sum::<usize>()
}

fn names(node: &Component, into: &mut Vec<String>) {
    into.push(node.elem.clone());
    for child in &node.children {
        names(child, into);
    }
}

#[test]
fn one_node_for_each_opening_tag_in_document_order() {
    let tree = build(vec![
        start("a", &[("x", "1")]),
        empty("b", &[]),
        start("c", &[("y", "2"), ("z", "3")]),
        text("t"),
        empty("d", &[]),
        end("c"),
        start("e", &[]),
        end("e"),
        end("a"),
    ])
    .unwrap();
    assert_eq!(count(&tree), 5);
    let mut order = Vec::new();
    names(&tree, &mut order);
    assert_eq!(order, vec!["a", "b", "c", "d", "e"]);
    assert_eq!(tree.attributes, vec![("x".to_string(), "1".to_string())]);
    assert_eq!(tree.text, None);
    assert_eq!(tree.children.len(), 3);
    assert_eq!(tree.children[1].text, Some("t".to_string()));
    assert_eq!(
        tree.children[1].attributes,
        vec![("y".to_string(), "2".to_string()), ("z".to_string(), "3".to_string())]
    );
    assert_eq!(tree.children[1].children.len(), 1);
    assert!(tree.children[0].children.is_empty());
}

#[test]
fn empty_stream_gives_the_placeholder() {
    let tree = build(Vec::new()).unwrap();
    assert_eq!(tree.elem, "error");
    assert_eq!(tree.text, Some("error".to_string()));
    assert!(tree.attributes.is_empty());
    assert!(tree.children.is_empty());
}

#[test]
fn unmatched_end_tag_is_malformed() {
    let outcome = build(vec![start("a", &[]), start("b", &[]), end("a")]);
    assert_eq!(outcome.unwrap_err(), ParseError::MalformedMarkup);
    assert_eq!(build(vec![end("a")]).unwrap_err(), ParseError::MalformedMarkup);
    assert_eq!(
        build(vec![start("a", &[]), end("a"), end("a")]).unwrap_err(),
        ParseError::MalformedMarkup
    );
    assert_eq!(
        build(vec![start("a", &[]), end("b"), end("a")]).unwrap_err(),
        ParseError::MalformedMarkup
    );
}

#[test]
fn unclosed_element_is_malformed() {
    assert_eq!(build(vec![start("a", &[])]).unwrap_err(), ParseError::MalformedMarkup);
    assert_eq!(
        build(vec![start("a", &[]), start("b", &[]), end("b")]).unwrap_err(),
        ParseError::MalformedMarkup
    );
}

#[test]
fn later_text_replaces_earlier_text() {
    let tree = build(vec![start("a", &[]), text("one"), empty("b", &[]), text("two"), end("a")])
        .unwrap();
    assert_eq!(tree.text, Some("two".to_string()));
    assert_eq!(tree.children.len(), 1);
}

#[test]
fn events_outside_any_element_are_dropped() {
    let tree = build(vec![text("stray"), empty("lone", &[])]).unwrap();
    assert_eq!(tree.elem, "error");
    let tree = build(vec![text("stray"), empty("lone", &[]), start("a", &[]), end("a")]).unwrap();
    assert_eq!(tree.elem, "a");
    assert!(tree.children.is_empty());
    assert_eq!(tree.text, None);
}

#[test]
fn elements_after_the_root_hang_under_it() {
    let tree = build(vec![start("a", &[]), end("a"), start("b", &[]), end("b"), text("late")])
        .unwrap();
    assert_eq!(tree.elem, "a");
    assert_eq!(tree.children.len(), 1);
    assert_eq!(tree.children[0].elem, "b");
    assert_eq!(tree.text, Some("late".to_string()));
}

#[test]
fn builder_keeps_its_state_on_an_error() {
    let mut builder = TreeBuilder::new();
    assert_eq!(builder.push_event(start("a", &[])), Ok(()));
    assert_eq!(builder.push_event(end("b")), Err(ParseError::MalformedMarkup));
    assert_eq!(builder.push_event(empty("c", &[])), Ok(()));
    assert_eq!(builder.push_event(end("a")), Ok(()));
    let tree = builder.finish().unwrap();
    assert_eq!(tree.elem, "a");
    assert_eq!(tree.children.len(), 1);
}

#[test]
fn last_attribute_of_a_key_wins() {
    let attributes = vec![
        ("k".to_string(), "first".to_string()),
        ("other".to_string(), "x".to_string()),
        ("k".to_string(), "last".to_string()),
    ];
    assert_eq!(find_attribute(&attributes, "k"), Some(&"last".to_string()));
    assert_eq!(find_attribute(&attributes, "other"), Some(&"x".to_string()));
    assert_eq!(find_attribute(&attributes, "none"), None);
    let node = Component { elem: "a".to_string(), text: None, attributes, children: Vec::new() };
    assert_eq!(node.attribute("k"), Some(&"last".to_string()));
}
