//! The element node: one element of the markup with its attributes, its text
//! and its children in document order.

use vstd::prelude::*;

verus! {

/// One element of the markup.
#[derive(Debug)]
pub struct Component {
    /// The element's name, such as `div`.
    pub elem: String,
    /// The text directly inside the element, if any.
    pub text: Option<String>,
    /// The attributes in the order they were written.
    pub attributes: Vec<(String, String)>,
    /// The child elements in document order.
    pub children: Vec<Component>,
}

/// An element node as a mathematical value.
pub struct ComponentView {
    pub elem: Seq<char>,
    pub text: Option<Seq<char>>,
    pub attributes: Seq<(Seq<char>, Seq<char>)>,
    pub children: Seq<ComponentView>,
}

/// An element as a mathematical value, its children in their order.
pub open spec fn view_of(node: Component) -> ComponentView
    decreases node,
{
    ComponentView {
        elem: node.elem@,
        text: match node.text {
            Some(text) => Some(text@),
            None => None,
        },
        attributes: node.attributes.deep_view(),
        children: Seq::new(
            node.children.len() as nat,
            |i: int|
                if 0 <= i < node.children.len() {
                    view_of(node.children[i])
                } else {
                    arbitrary()
                },
        ),
    }
}

impl View for Component {
    type V = ComponentView;

    open spec fn view(&self) -> ComponentView {
        view_of(*self)
    }
}

/// The view of an element, field by field.
pub proof fn view_by_fields(node: Component)
    ensures
        node@.elem == node.elem@,
        node@.text == match node.text {
            Some(text) => Some(text@),
            None => None,
        },
        node@.attributes == node.attributes.deep_view(),
        node@.children.len() == node.children.len(),
        forall|i: int| 0 <= i < node.children.len() ==> node@.children[i] == node.children[i]@,
{
}

/// The value that a list of attributes holds for `key`: that of the last
/// attribute with this key.
pub open spec fn attribute_of(attributes: Seq<(Seq<char>, Seq<char>)>, key: Seq<char>) -> Option<
    Seq<char>,
>
    decreases attributes.len(),
{
    if attributes.len() == 0 {
        None
    } else if attributes.last().0 == key {
        Some(attributes.last().1)
    } else {
        attribute_of(attributes.drop_last(), key)
    }
}

/// Looks `key` up in a list of attributes; the last attribute with this key
/// wins.
pub fn find_attribute<'a>(attributes: &'a Vec<(String, String)>, key: &str) -> (value: Option<
    &'a String,
>)
    ensures
        match value {
            Some(found) => attribute_of(attributes.deep_view(), key@) == Some(found@),
            None => attribute_of(attributes.deep_view(), key@) is None,
        },
{
    let wanted = key.to_owned();
    let mut at = attributes.len();
    let ghost pairs = attributes.deep_view();
    proof {
        assert(pairs.take(at as int) =~= pairs);
    }
    while at > 0
        invariant
            at <= attributes.len(),
            wanted@ == key@,
            pairs == attributes.deep_view(),
            attribute_of(pairs, key@) == attribute_of(pairs.take(at as int), key@),
        decreases at,
    {
        at = at - 1;
        proof {
            assert(pairs.take(at + 1).drop_last() =~= pairs.take(at as int));
            assert(pairs.take(at + 1).last() == pairs[at as int]);
            assert(pairs[at as int] == (attributes[at as int].0@, attributes[at as int].1@));
        }
        if attributes[at].0 == wanted {
            return Some(&attributes[at].1);
        }
    }
    None
}

impl Component {
    /// The value of the attribute `key` of this element, if it has one.
    pub fn attribute(&self, key: &str) -> (value: Option<&String>)
        ensures
            match value {
                Some(found) => attribute_of(self@.attributes, key@) == Some(found@),
                None => attribute_of(self@.attributes, key@) is None,
            },
    {
        find_attribute(&self.attributes, key)
    }
}

} // verus!
