//! Rendering requests: what the rendering layer is asked to construct for each
//! element, with the style operations that the element's attributes resolve
//! to.

use vstd::prelude::*;
use crate::component::{attribute_of, find_attribute, view_by_fields, Component, ComponentView};
use crate::literal::ResolveError;
use crate::precedence::keep_last;
use crate::resolve::{diagnostics_of, requested, set_attributes, Diagnostic};
use crate::style::StyleOperation;

verus! {

/// A request to construct one renderable element.
#[derive(Debug, PartialEq, Eq)]
pub enum ComponentType {
    /// A generic container with its children, then its text, if any.
    Div {
        children: Vec<ComponentType>,
        text: Option<String>,
        operations: Vec<StyleOperation>,
        diagnostics: Vec<Diagnostic>,
    },
    /// An image with its source.
    Img { src: String, operations: Vec<StyleOperation>, diagnostics: Vec<Diagnostic> },
    /// A vector graphic with its path.
    Svg { path: String, operations: Vec<StyleOperation>, diagnostics: Vec<Diagnostic> },
}

/// A rendering request as a mathematical value.
pub enum ComponentTypeView {
    Div {
        children: Seq<ComponentTypeView>,
        text: Option<Seq<char>>,
        operations: Seq<StyleOperation>,
        diagnostics: Seq<Diagnostic>,
    },
    Img { src: Seq<char>, operations: Seq<StyleOperation>, diagnostics: Seq<Diagnostic> },
    Svg { path: Seq<char>, operations: Seq<StyleOperation>, diagnostics: Seq<Diagnostic> },
}

/// A rendering request as a mathematical value, its children in their order.
pub open spec fn request_view(request: ComponentType) -> ComponentTypeView
    decreases request,
{
    match request {
        ComponentType::Div { children, text, operations, diagnostics } => ComponentTypeView::Div {
            children: Seq::new(
                children.len() as nat,
                |i: int|
                    if 0 <= i < children.len() {
                        request_view(children[i])
                    } else {
                        arbitrary()
                    },
            ),
            text: match text {
                Some(text) => Some(text@),
                None => None,
            },
            operations: operations@,
            diagnostics: diagnostics@,
        },
        ComponentType::Img { src, operations, diagnostics } => ComponentTypeView::Img {
            src: src@,
            operations: operations@,
            diagnostics: diagnostics@,
        },
        ComponentType::Svg { path, operations, diagnostics } => ComponentTypeView::Svg {
            path: path@,
            operations: operations@,
            diagnostics: diagnostics@,
        },
    }
}

impl View for ComponentType {
    type V = ComponentTypeView;

    open spec fn view(&self) -> ComponentTypeView {
        request_view(*self)
    }
}

/// The container that stands in for an element without an attribute that its
/// kind cannot do without: it shows the error as its text.
pub open spec fn missing_attribute_placeholder() -> ComponentTypeView {
    ComponentTypeView::Div {
        children: Seq::empty(),
        text: Some("Error: img element must have src attribute"@),
        operations: Seq::empty(),
        diagnostics: seq![
            Diagnostic { token: None, error: ResolveError::MissingRequiredAttribute },
        ],
    }
}

/// The request that an element gives rise to. A `div` becomes a container
/// with the requests of its children and its text; an `img` with a `src` an
/// image and an `svg` with a `path` a vector graphic, each a placeholder where
/// the attribute is missing; any other element an empty container. What is
/// rendered carries the operations that its attributes resolve to.
pub open spec fn rendered(node: ComponentView) -> ComponentTypeView
    decreases node,
{
    if node.elem == "div"@ {
        ComponentTypeView::Div {
            children: Seq::new(
                node.children.len(),
                |i: int|
                    if 0 <= i < node.children.len() {
                        rendered(node.children[i])
                    } else {
                        arbitrary()
                    },
            ),
            text: node.text,
            operations: keep_last(requested(node.attributes)),
            diagnostics: diagnostics_of(node.attributes),
        }
    } else if node.elem == "img"@ {
        match attribute_of(node.attributes, "src"@) {
            Some(src) => ComponentTypeView::Img {
                src,
                operations: keep_last(requested(node.attributes)),
                diagnostics: diagnostics_of(node.attributes),
            },
            None => missing_attribute_placeholder(),
        }
    } else if node.elem == "svg"@ {
        match attribute_of(node.attributes, "path"@) {
            Some(path) => ComponentTypeView::Svg {
                path,
                operations: keep_last(requested(node.attributes)),
                diagnostics: diagnostics_of(node.attributes),
            },
            None => missing_attribute_placeholder(),
        }
    } else {
        ComponentTypeView::Div {
            children: Seq::empty(),
            text: None,
            operations: Seq::empty(),
            diagnostics: Seq::empty(),
        }
    }
}

fn placeholder_request() -> (request: ComponentType)
    ensures
        request@ == missing_attribute_placeholder(),
{
    let mut diagnostics: Vec<Diagnostic> = Vec::new();
    diagnostics.push(Diagnostic { token: None, error: ResolveError::MissingRequiredAttribute });
    let request = ComponentType::Div {
        children: Vec::new(),
        text: Some("Error: img element must have src attribute".to_owned()),
        operations: Vec::new(),
        diagnostics,
    };
    proof {
        assert(request@->Div_children =~= Seq::empty());
        assert(request@->Div_operations =~= Seq::empty());
        assert(request@->Div_diagnostics =~= seq![
            Diagnostic { token: None, error: ResolveError::MissingRequiredAttribute },
        ]);
    }
    request
}

/// Turns an element and all below it into rendering requests.
pub fn render_component(component: &Component) -> (request: ComponentType)
    ensures
        request@ == rendered(component@),
    decreases component,
{
    proof {
        view_by_fields(*component);
    }
    let div = "div".to_owned();
    let img = "img".to_owned();
    let svg = "svg".to_owned();
    if component.elem == div {
        let mut children: Vec<ComponentType> = Vec::new();
        let total = component.children.len();
        let mut at: usize = 0;
        while at < total
            invariant
                at <= total == component.children.len(),
                children.len() == at,
                forall|i: int| 0 <= i < at ==> children[i]@ == rendered(component.children[i]@),
            decreases total - at,
        {
            let child = render_component(&component.children[at]);
            children.push(child);
            at = at + 1;
        }
        let text = match &component.text {
            Some(text) => Some(text.clone()),
            None => None,
        };
        let resolution = set_attributes(&component.attributes);
        let request = ComponentType::Div {
            children,
            text,
            operations: resolution.operations,
            diagnostics: resolution.diagnostics,
        };
        proof {
            assert(request@->Div_children =~= rendered(component@)->Div_children);
        }
        request
    } else if component.elem == img {
        match find_attribute(&component.attributes, "src") {
            Some(src) => {
                let resolution = set_attributes(&component.attributes);
                ComponentType::Img {
                    src: src.clone(),
                    operations: resolution.operations,
                    diagnostics: resolution.diagnostics,
                }
            },
            None => placeholder_request(),
        }
    } else if component.elem == svg {
        match find_attribute(&component.attributes, "path") {
            Some(path) => {
                let resolution = set_attributes(&component.attributes);
                ComponentType::Svg {
                    path: path.clone(),
                    operations: resolution.operations,
                    diagnostics: resolution.diagnostics,
                }
            },
            None => placeholder_request(),
        }
    } else {
        let request = ComponentType::Div {
            children: Vec::new(),
            text: None,
            operations: Vec::new(),
            diagnostics: Vec::new(),
        };
        proof {
            assert(request@->Div_children =~= Seq::empty());
            assert(request@->Div_operations =~= Seq::empty());
            assert(request@->Div_diagnostics =~= Seq::empty());
        }
        request
    }
}

} // verus!
