use xml2gpui::literal::ResolveError;
use xml2gpui::reader::parse_component;
use xml2gpui::render::{render_component, ComponentType};
use xml2gpui::resolve::Diagnostic;
use xml2gpui::style::{Amount, ColorTarget, Flag, Property, StyleOperation};

fn placeholder() -> ComponentType {
    ComponentType::Div {
        children: Vec::new(),
        text: Some("Error: img element must have src attribute".to_string()),
        operations: Vec::new(),
        diagnostics: vec![Diagnostic { token: None, error: ResolveError::MissingRequiredAttribute }],
    }
}

fn bare() -> ComponentType {
    ComponentType::Div {
        children: Vec::new(),
        text: None,
        operations: Vec::new(),
        diagnostics: Vec::new(),
    }
}

#[test]
fn container_carries_children_text_and_operations() {
    let tree = parse_component(
        "<div class=\"flex h-4 h-8\"><img src=\"a.png\" class=\"w-2\"/><svg path=\"i.svg\" color=\"#010203\"/>hello</div>"
            .to_string(),
    )
    .unwrap();
    let request = render_component(&tree);
    assert_eq!(
        request,
        ComponentType::Div {
            children: vec![
                ComponentType::Img {
                    src: "a.png".to_string(),
                    operations: vec![StyleOperation::Scalar {
                        property: Property::Width,
                        amount: Amount::Step { halves: 4 }
                    }],
                    diagnostics: Vec::new(),
                },
                ComponentType::Svg {
                    path: "i.svg".to_string(),
                    operations: vec![StyleOperation::Color {
                        target: ColorTarget::Attribute,
                        red: 1,
                        green: 2,
                        blue: 3
                    }],
                    diagnostics: Vec::new(),
                },
            ],
            text: Some("hello".to_string()),
            operations: vec![
                StyleOperation::Flag(Flag::Flex),
                StyleOperation::Scalar {
                    property: Property::Height,
                    amount: Amount::Step { halves: 16 }
                },
            ],
            diagnostics: Vec::new(),
        }
    );
}

#[test]
fn image_without_source_degrades_to_the_placeholder() {
    let tree = parse_component("<img class=\"flex\"/>".to_string()).unwrap();
    assert_eq!(render_component(&tree), placeholder());
    let tree = parse_component("<svg src=\"a.png\"/>".to_string()).unwrap();
    assert_eq!(render_component(&tree), placeholder());
}

#[test]
fn placeholder_stays_within_its_element() {
    let tree = parse_component("<div><img/><div class=\"block\"/></div>".to_string()).unwrap();
    match render_component(&tree) {
        ComponentType::Div { children, text, operations, diagnostics } => {
            assert_eq!(children.len(), 2);
            assert_eq!(children[0], placeholder());
            assert_eq!(
                children[1],
                ComponentType::Div {
                    children: Vec::new(),
                    text: None,
                    operations: vec![StyleOperation::Flag(Flag::Block)],
                    diagnostics: Vec::new(),
                }
            );
            assert_eq!(text, None);
            assert!(operations.is_empty());
            assert!(diagnostics.is_empty());
        },
        other => panic!("a div was rendered as {other:?}"),
    }
}

#[test]
fn unknown_element_is_an_empty_container() {
    let tree =
        parse_component("<span class=\"flex\"><div/>words</span>".to_string()).unwrap();
    assert_eq!(render_component(&tree), bare());
    let tree = parse_component(String::new()).unwrap();
    assert_eq!(render_component(&tree), bare());
}

#[test]
fn last_source_wins_and_errors_are_carried() {
    let direct = xml2gpui::component::Component {
        elem: "img".to_string(),
        text: None,
        attributes: vec![
            ("src".to_string(), "old.png".to_string()),
            ("class".to_string(), "bg-[nope] w-1".to_string()),
            ("src".to_string(), "new.png".to_string()),
        ],
        children: Vec::new(),
    };
    assert_eq!(
        render_component(&direct),
        ComponentType::Img {
            src: "new.png".to_string(),
            operations: vec![StyleOperation::Scalar {
                property: Property::Width,
                amount: Amount::Step { halves: 2 }
            }],
            diagnostics: vec![Diagnostic {
                token: Some(0),
                error: ResolveError::InvalidColorLiteral
            }],
        }
    );
}
