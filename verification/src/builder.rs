//! The tree builder: from a stream of markup events to the element tree.
//!
//! The builder keeps the elements that are open in a stack. A start tag opens
//! an element; an end tag closes the innermost one and hangs it under its
//! parent; a self-closing tag hangs a fresh element under the innermost open
//! one; text replaces the text of the innermost open one. The root stays on the
//! stack when it is closed, and is the result.

use vstd::prelude::*;
use crate::component::{view_by_fields, Component, ComponentView};

verus! {

/// One event of the markup stream.
#[derive(Debug, PartialEq, Eq)]
pub enum MarkupEvent {
    /// A start tag with its attributes.
    Start { name: String, attributes: Vec<(String, String)> },
    /// A self-closing tag with its attributes.
    Empty { name: String, attributes: Vec<(String, String)> },
    /// An end tag.
    End { name: String },
    /// A run of text.
    Text { text: String },
}

/// A markup event as a mathematical value.
pub enum MarkupEventView {
    Start { name: Seq<char>, attributes: Seq<(Seq<char>, Seq<char>)> },
    Empty { name: Seq<char>, attributes: Seq<(Seq<char>, Seq<char>)> },
    End { name: Seq<char> },
    Text { text: Seq<char> },
}

impl View for MarkupEvent {
    type V = MarkupEventView;

    open spec fn view(&self) -> MarkupEventView {
        match self {
            MarkupEvent::Start { name, attributes } => MarkupEventView::Start {
                name: name@,
                attributes: attributes.deep_view(),
            },
            MarkupEvent::Empty { name, attributes } => MarkupEventView::Empty {
                name: name@,
                attributes: attributes.deep_view(),
            },
            MarkupEvent::End { name } => MarkupEventView::End { name: name@ },
            MarkupEvent::Text { text } => MarkupEventView::Text { text: text@ },
        }
    }
}

/// Why markup could not be turned into a tree.
#[derive(Clone, Copy, Debug, PartialEq, Eq, Hash, Structural)]
pub enum ParseError {
    /// The text is no markup: the reader could not make events of it.
    StreamRead,
    /// The tags do not nest: an end tag that closes nothing or the wrong
    /// element, or an element that is never closed.
    MalformedMarkup,
}

/// The views of a list of events.
pub open spec fn event_views(events: Seq<MarkupEvent>) -> Seq<MarkupEventView> {
    Seq::new(events.len(), |i: int| events[i]@)
}

/// The views of a list of elements.
pub open spec fn component_views(components: Seq<Component>) -> Seq<ComponentView> {
    Seq::new(components.len(), |i: int| components[i]@)
}

/// A fresh element: no text and no children.
pub open spec fn fresh(name: Seq<char>, attributes: Seq<(Seq<char>, Seq<char>)>) -> ComponentView {
    ComponentView { elem: name, text: None, attributes, children: Seq::empty() }
}

/// The element that stands for an empty stream.
pub open spec fn placeholder() -> ComponentView {
    ComponentView {
        elem: "error"@,
        text: Some("error"@),
        attributes: Seq::empty(),
        children: Seq::empty(),
    }
}

/// `parent` with `child` as its new last child.
pub open spec fn with_child(parent: ComponentView, child: ComponentView) -> ComponentView {
    ComponentView { children: parent.children.push(child), ..parent }
}

/// `node` with `text` in place of its text.
pub open spec fn with_text(node: ComponentView, text: Seq<char>) -> ComponentView {
    ComponentView { text: Some(text), ..node }
}

/// The state of the builder: the open elements from the root to the innermost
/// one, and whether the root has been closed.
pub struct Assembly {
    pub open: Seq<ComponentView>,
    pub closed: bool,
}

impl Assembly {
    /// The state before any event.
    pub open spec fn initial() -> Assembly {
        Assembly { open: Seq::empty(), closed: false }
    }

    /// The state with `node` in place of the innermost open element.
    pub open spec fn with_top(self, node: ComponentView) -> Assembly {
        Assembly { open: self.open.drop_last().push(node), ..self }
    }

    /// The state after one more event, or the error that the event is.
    pub open spec fn step(self, event: MarkupEventView) -> Result<Assembly, ParseError> {
        match event {
            MarkupEventView::Start { name, attributes } => Ok(
                Assembly { open: self.open.push(fresh(name, attributes)), ..self },
            ),
            MarkupEventView::Empty { name, attributes } => if self.open.len() == 0 {
                Ok(self)
            } else {
                Ok(self.with_top(with_child(self.open.last(), fresh(name, attributes))))
            },
            MarkupEventView::End { name } => if self.open.len() == 0 || self.open.last().elem
                != name {
                Err(ParseError::MalformedMarkup)
            } else if self.open.len() == 1 {
                if self.closed {
                    Err(ParseError::MalformedMarkup)
                } else {
                    Ok(Assembly { closed: true, ..self })
                }
            } else {
                let child = self.open.last();
                let rest = self.open.drop_last();
                Ok(
                    Assembly {
                        open: rest.drop_last().push(with_child(rest.last(), child)),
                        ..self
                    },
                )
            },
            MarkupEventView::Text { text } => if self.open.len() == 0 {
                Ok(self)
            } else {
                Ok(self.with_top(with_text(self.open.last(), text)))
            },
        }
    }

    /// The tree that the state amounts to at the end of the stream: the
    /// placeholder where nothing was opened, the root where it is the only
    /// element left and closed, and an error where an element is still open.
    pub open spec fn finish(self) -> Result<ComponentView, ParseError> {
        if self.open.len() == 0 {
            Ok(placeholder())
        } else if self.open.len() == 1 && self.closed {
            Ok(self.open[0])
        } else {
            Err(ParseError::MalformedMarkup)
        }
    }
}

/// The state after all of `events`, or the first error among them.
pub open spec fn assembled(events: Seq<MarkupEventView>) -> Result<Assembly, ParseError>
    decreases events.len(),
{
    if events.len() == 0 {
        Ok(Assembly::initial())
    } else {
        match assembled(events.drop_last()) {
            Ok(state) => state.step(events.last()),
            Err(error) => Err(error),
        }
    }
}

/// The tree that a stream of events describes.
pub open spec fn built(events: Seq<MarkupEventView>) -> Result<ComponentView, ParseError> {
    match assembled(events) {
        Ok(state) => state.finish(),
        Err(error) => Err(error),
    }
}

/// Builds the tree event by event.
pub struct TreeBuilder {
    stack: Vec<Component>,
    closed: bool,
}

impl View for TreeBuilder {
    type V = Assembly;

    closed spec fn view(&self) -> Assembly {
        Assembly { open: component_views(self.stack@), closed: self.closed }
    }
}

/// The element `parent` with `child` hung under it.
fn adopt(parent: Component, child: Component) -> (joined: Component)
    ensures
        joined@ == with_child(parent@, child@),
{
    let ghost old_parent = parent;
    let mut parent = parent;
    let ghost before = parent@;
    let ghost siblings = parent.children@;
    parent.children.push(child);
    proof {
        view_by_fields(parent);
        view_by_fields(old_parent);
        assert(parent.children@ == siblings.push(child));
        assert(parent@.children.len() == before.children.len() + 1);
        assert forall|i: int| 0 <= i < parent@.children.len() implies parent@.children[i]
            == before.children.push(child@)[i] by {
            if i < siblings.len() {
                assert(parent.children@[i] == siblings[i]);
                assert(old_parent.children@[i] == siblings[i]);
            }
        }
        assert(parent@.children =~= before.children.push(child@));
    }
    parent
}

fn new_element(name: String, attributes: Vec<(String, String)>) -> (node: Component)
    ensures
        node@ == fresh(name@, attributes.deep_view()),
{
    let node = Component { elem: name, text: None, attributes, children: Vec::new() };
    proof {
        assert(node@.children =~= Seq::empty());
    }
    node
}

impl TreeBuilder {
    /// A builder that has seen no event.
    pub fn new() -> (builder: TreeBuilder)
        ensures
            builder@ == Assembly::initial(),
    {
        let builder = TreeBuilder { stack: Vec::new(), closed: false };
        proof {
            assert(builder@.open =~= Seq::empty());
        }
        builder
    }

    /// Puts `node` on the stack.
    fn open(&mut self, node: Component)
        ensures
            final(self)@ == (Assembly { open: old(self)@.open.push(node@), ..old(self)@ }),
    {
        self.stack.push(node);
        proof {
            assert(component_views(self.stack@) =~= component_views(old(self).stack@).push(node@));
        }
    }

    /// Takes the innermost open element off the stack.
    fn take_top(&mut self) -> (node: Component)
        requires
            old(self)@.open.len() > 0,
        ensures
            node@ == old(self)@.open.last(),
            final(self)@ == (Assembly { open: old(self)@.open.drop_last(), ..old(self)@ }),
    {
        let node = self.stack.pop().unwrap();
        proof {
            assert(component_views(self.stack@) =~= component_views(old(self).stack@).drop_last());
        }
        node
    }

    /// Takes in one event: the state moves on as `Assembly::step` says, or
    /// stays as it is where the event is an error.
    pub fn push_event(&mut self, event: MarkupEvent) -> (taken: Result<(), ParseError>)
        ensures
            match old(self)@.step(event@) {
                Ok(next) => taken is Ok && final(self)@ == next,
                Err(error) => taken == Err::<(), ParseError>(error) && final(self)@ == old(self)@,
            },
    {
        let ghost before = self@;
        match event {
            MarkupEvent::Start { name, attributes } => {
                self.open(new_element(name, attributes));
                Ok(())
            },
            MarkupEvent::Empty { name, attributes } => {
                if self.stack.len() > 0 {
                    let parent = self.take_top();
                    self.open(adopt(parent, new_element(name, attributes)));
                }
                Ok(())
            },
            MarkupEvent::End { name } => {
                let depth = self.stack.len();
                if depth == 0 {
                    return Err(ParseError::MalformedMarkup);
                }
                proof {
                    assert(before.open.last() == self.stack@[depth - 1]@);
                }
                if self.stack[depth - 1].elem != name {
                    return Err(ParseError::MalformedMarkup);
                }
                if depth == 1 {
                    if self.closed {
                        return Err(ParseError::MalformedMarkup);
                    }
                    self.closed = true;
                    return Ok(());
                }
                let child = self.take_top();
                let parent = self.take_top();
                self.open(adopt(parent, child));
                Ok(())
            },
            MarkupEvent::Text { text } => {
                if self.stack.len() > 0 {
                    let mut node = self.take_top();
                    let ghost plain = node@;
                    node.text = Some(text);
                    proof {
                        assert(node@.children =~= plain.children);
                        assert(node@ == with_text(plain, text@));
                    }
                    self.open(node);
                }
                Ok(())
            },
        }
    }

    /// Ends the stream: the tree that the state amounts to.
    pub fn finish(self) -> (tree: Result<Component, ParseError>)
        ensures
            match self@.finish() {
                Ok(root) => tree is Ok && tree.unwrap()@ == root,
                Err(error) => tree is Err && tree.unwrap_err() == error,
            },
    {
        let mut builder = self;
        let depth = builder.stack.len();
        if depth == 0 {
            let node = Component {
                elem: "error".to_owned(),
                text: Some("error".to_owned()),
                attributes: Vec::new(),
                children: Vec::new(),
            };
            proof {
                assert(node@.children =~= Seq::empty());
                assert(node@.attributes =~= Seq::empty());
            }
            Ok(node)
        } else if depth == 1 && builder.closed {
            Ok(builder.take_top())
        } else {
            Err(ParseError::MalformedMarkup)
        }
    }
}

/// Builds the tree that a stream of markup events describes.
///
/// An end tag that closes nothing, names another element than the innermost
/// open one, or comes after the root was closed is an error, and so is an
/// element that is still open at the end. A stream that opens nothing gives
/// the placeholder element.
pub fn build(events: Vec<MarkupEvent>) -> (tree: Result<Component, ParseError>)
    ensures
        match built(event_views(events@)) {
            Ok(root) => tree is Ok && tree.unwrap()@ == root,
            Err(error) => tree is Err && tree.unwrap_err() == error,
        },
{
    let mut builder = TreeBuilder::new();
    let ghost all = event_views(events@);
    for event in it: events
        invariant
            all == event_views(events@),
            all.len() == it.seq().len(),
            forall|i: int| 0 <= i < all.len() ==> all[i] == it.seq()[i]@,
            assembled(all.take(it.index() as int)) == Ok::<Assembly, ParseError>(builder@),
    {
        proof {
            let at = it.index() as int;
            assert(all.take(at + 1).drop_last() =~= all.take(at));
            assert(all.take(at + 1).last() == event@);
        }
        match builder.push_event(event) {
            Ok(()) => {},
            Err(error) => {
                proof {
                    let at = it.index() as int;
                    assert(assembled(all.take(at + 1)) == Err::<Assembly, ParseError>(error));
                    failure_is_final(all, at + 1);
                }
                return Err(error);
            },
        }
    }
    proof {
        assert(all.take(all.len() as int) =~= all);
    }
    builder.finish()
}

/// After an error no later event matters.
pub proof fn failure_is_final(events: Seq<MarkupEventView>, upto: int)
    requires
        0 <= upto <= events.len(),
        assembled(events.take(upto)) is Err,
    ensures
        assembled(events) == assembled(events.take(upto)),
    decreases events.len() - upto,
{
    if upto < events.len() {
        assert(events.take(upto + 1).drop_last() =~= events.take(upto));
        failure_is_final(events, upto + 1);
    } else {
        assert(events.take(upto) =~= events);
    }
}

} // verus!
