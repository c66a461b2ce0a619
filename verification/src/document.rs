//! Well-formed documents, and what the tree builder makes of them: one node
//! for each start or self-closing tag, in document order.

use vstd::prelude::*;
use crate::builder::{
    assembled, built, fresh, with_child, with_text, Assembly, MarkupEventView, ParseError,
};
use crate::component::ComponentView;

verus! {

/// A tag as it opens an element: its name and its attributes.
pub type Opening = (Seq<char>, Seq<(Seq<char>, Seq<char>)>);

/// The names of the elements that are open after `events`, from the outermost
/// to the innermost, or nothing if an end tag closes anything but the innermost
/// open element.
pub open spec fn unclosed(events: Seq<MarkupEventView>) -> Option<Seq<Seq<char>>>
    decreases events.len(),
{
    if events.len() == 0 {
        Some(Seq::empty())
    } else {
        match unclosed(events.drop_last()) {
            None => None,
            Some(names) => match events.last() {
                MarkupEventView::Start { name, .. } => Some(names.push(name)),
                MarkupEventView::End { name } => if names.len() > 0 && names.last() == name {
                    Some(names.drop_last())
                } else {
                    None
                },
                _ => Some(names),
            },
        }
    }
}

/// A well-formed document with a single root: it begins with the root's start
/// tag, every end tag closes the innermost open element, and the root is
/// closed by the last event and not before.
pub open spec fn is_document(events: Seq<MarkupEventView>) -> bool {
    &&& events.len() > 0
    &&& events[0] is Start
    &&& unclosed(events) == Some(Seq::<Seq<char>>::empty())
    &&& forall|k: int|
        0 < k < events.len() ==> ((#[trigger] unclosed(events.take(k))) matches Some(names)
            && names.len() > 0)
}

/// The start and self-closing tags of a stream, in its order.
pub open spec fn openings(events: Seq<MarkupEventView>) -> Seq<Opening>
    decreases events.len(),
{
    if events.len() == 0 {
        Seq::empty()
    } else {
        let before = openings(events.drop_last());
        match events.last() {
            MarkupEventView::Start { name, attributes } => before.push((name, attributes)),
            MarkupEventView::Empty { name, attributes } => before.push((name, attributes)),
            _ => before,
        }
    }
}

/// The nodes of a tree in document order: a node before its children, the
/// children in their order.
pub open spec fn preorder(node: ComponentView) -> Seq<Opening>
    decreases node,
{
    seq![(node.elem, node.attributes)] + forest_preorder(node.children)
}

/// The nodes of a list of trees in document order.
pub open spec fn forest_preorder(nodes: Seq<ComponentView>) -> Seq<Opening>
    decreases nodes,
{
    if nodes.len() == 0 {
        Seq::empty()
    } else {
        forest_preorder(nodes.drop_last()) + preorder(nodes.last())
    }
}

/// The number of nodes of a tree.
pub open spec fn node_count(node: ComponentView) -> nat
    decreases node,
{
    1 + forest_count(node.children)
}

/// The number of nodes of a list of trees.
pub open spec fn forest_count(nodes: Seq<ComponentView>) -> nat
    decreases nodes,
{
    if nodes.len() == 0 {
        0
    } else {
        forest_count(nodes.drop_last()) + node_count(nodes.last())
    }
}

/// The names of a list of elements.
pub open spec fn names_of(nodes: Seq<ComponentView>) -> Seq<Seq<char>> {
    Seq::new(nodes.len(), |i: int| nodes[i].elem)
}

/// A tree has as many nodes as its document order lists.
pub proof fn preorder_counts_nodes(node: ComponentView)
    ensures
        preorder(node).len() == node_count(node),
    decreases node,
{
    forest_preorder_counts_nodes(node.children);
}

/// A list of trees has as many nodes as its document order lists.
pub proof fn forest_preorder_counts_nodes(nodes: Seq<ComponentView>)
    ensures
        forest_preorder(nodes).len() == forest_count(nodes),
    decreases nodes,
{
    if nodes.len() > 0 {
        forest_preorder_counts_nodes(nodes.drop_last());
        preorder_counts_nodes(nodes.last());
    }
}

/// One more tree at the end of a list comes last in document order.
proof fn forest_preorder_push(nodes: Seq<ComponentView>, node: ComponentView)
    ensures
        forest_preorder(nodes.push(node)) == forest_preorder(nodes) + preorder(node),
{
    assert(nodes.push(node).drop_last() =~= nodes);
    assert(nodes.push(node).last() == node);
}

/// A child hung under a parent follows the parent's nodes in document order.
proof fn preorder_with_child(parent: ComponentView, child: ComponentView)
    ensures
        preorder(with_child(parent, child)) == preorder(parent) + preorder(child),
{
    forest_preorder_push(parent.children, child);
    assert(seq![(parent.elem, parent.attributes)] + (forest_preorder(parent.children) + preorder(
        child,
    )) =~= preorder(parent) + preorder(child));
}

/// One step of the builder, seen by the names of the open elements and by
/// the document order of what has been built. The step begins with an element
/// open.
proof fn step_keeps_order(state: Assembly, event: MarkupEventView)
    requires
        state.open.len() > 0,
        state.step(event) is Ok,
    ensures
        state.step(event).unwrap().open.len() > 0,
        forest_preorder(state.step(event).unwrap().open) == forest_preorder(state.open) + openings(
            seq![event],
        ),
{
    let next = state.step(event).unwrap();
    let top = state.open.last();
    let below = state.open.drop_last();
    assert(seq![event].drop_last() =~= Seq::<MarkupEventView>::empty());
    assert(seq![event].last() == event);
    assert(openings(seq![event].drop_last()) =~= Seq::<Opening>::empty());
    assert(below.push(top) =~= state.open);
    forest_preorder_push(below, top);
    match event {
        MarkupEventView::Start { name, attributes } => {
            let node = fresh(name, attributes);
            forest_preorder_push(state.open, node);
            assert(forest_preorder(node.children) =~= Seq::<Opening>::empty());
            assert(preorder(node) =~= seq![(name, attributes)]);
            assert(openings(seq![event]) =~= seq![(name, attributes)]);
        },
        MarkupEventView::Empty { name, attributes } => {
            let node = fresh(name, attributes);
            assert(forest_preorder(node.children) =~= Seq::<Opening>::empty());
            assert(preorder(node) =~= seq![(name, attributes)]);
            assert(openings(seq![event]) =~= seq![(name, attributes)]);
            preorder_with_child(top, node);
            forest_preorder_push(below, with_child(top, node));
            assert(forest_preorder(below) + (preorder(top) + preorder(node)) =~= (forest_preorder(
                below,
            ) + preorder(top)) + preorder(node));
        },
        MarkupEventView::End { name } => {
            assert(openings(seq![event]) =~= Seq::<Opening>::empty());
            assert(forest_preorder(state.open) + Seq::<Opening>::empty() =~= forest_preorder(
                state.open,
            ));
            if state.open.len() > 1 {
                let parent = below.last();
                let rest = below.drop_last();
                assert(rest.push(parent) =~= below);
                forest_preorder_push(rest, parent);
                preorder_with_child(parent, top);
                forest_preorder_push(rest, with_child(parent, top));
                assert(forest_preorder(rest) + (preorder(parent) + preorder(top)) =~= (
                forest_preorder(rest) + preorder(parent)) + preorder(top));
            }
        },
        MarkupEventView::Text { text } => {
            assert(openings(seq![event]) =~= Seq::<Opening>::empty());
            assert(forest_preorder(state.open) + Seq::<Opening>::empty() =~= forest_preorder(
                state.open,
            ));
            assert(preorder(with_text(top, text)) == preorder(top));
            forest_preorder_push(below, with_text(top, text));
        },
    }
}

/// The tags of a stream are those of its front followed by that of its last
/// event.
proof fn openings_of_last(events: Seq<MarkupEventView>)
    requires
        events.len() > 0,
    ensures
        openings(events) == openings(events.drop_last()) + openings(seq![events.last()]),
{
    let event = events.last();
    assert(seq![event].drop_last() =~= Seq::<MarkupEventView>::empty());
    assert(seq![event].last() == event);
    assert(openings(seq![event].drop_last()) =~= Seq::<Opening>::empty());
    match event {
        MarkupEventView::Start { name, attributes } => {
            assert(openings(seq![event]) =~= seq![(name, attributes)]);
            assert(openings(events) =~= openings(events.drop_last()) + seq![(name, attributes)]);
        },
        MarkupEventView::Empty { name, attributes } => {
            assert(openings(seq![event]) =~= seq![(name, attributes)]);
            assert(openings(events) =~= openings(events.drop_last()) + seq![(name, attributes)]);
        },
        _ => {
            assert(openings(seq![event]) =~= Seq::<Opening>::empty());
            assert(openings(events) =~= openings(events.drop_last()) + Seq::<Opening>::empty());
        },
    }
}

/// While a stream that begins with a start tag is taken in, an element is
/// open, and what has been built lists the tags so far in document order.
pub proof fn assembly_keeps_order(events: Seq<MarkupEventView>)
    requires
        events.len() > 0,
        events[0] is Start,
        assembled(events) is Ok,
    ensures
        assembled(events).unwrap().open.len() > 0,
        forest_preorder(assembled(events).unwrap().open) == openings(events),
    decreases events.len(),
{
    let front = events.drop_last();
    let state = assembled(front).unwrap();
    openings_of_last(events);
    if events.len() == 1 {
        assert(front =~= Seq::<MarkupEventView>::empty());
        assert(openings(front) =~= Seq::<Opening>::empty());
        let name = events[0]->Start_name;
        let attributes = events[0]->Start_attributes;
        let node = fresh(name, attributes);
        assert(assembled(events).unwrap().open =~= seq![node]);
        forest_preorder_push(Seq::empty(), node);
        assert(Seq::<ComponentView>::empty().push(node) =~= seq![node]);
        assert(forest_preorder(node.children) =~= Seq::<Opening>::empty());
        assert(forest_preorder(Seq::<ComponentView>::empty()) =~= Seq::<Opening>::empty());
        assert(preorder(node) =~= seq![(name, attributes)]);
        assert(openings(seq![events.last()]) =~= seq![(name, attributes)]);
        assert(forest_preorder(seq![node]) =~= openings(events));
    } else {
        assert(front[0] == events[0]);
        assembly_keeps_order(front);
        step_keeps_order(state, events.last());
    }
}

/// The tree built from a stream that begins with a start tag has one node
/// for each start or self-closing tag of the stream, and in document order its
/// nodes are those tags in the order of the stream.
pub proof fn tree_mirrors_tags(events: Seq<MarkupEventView>)
    requires
        events.len() > 0,
        events[0] is Start,
        built(events) is Ok,
    ensures
        preorder(built(events).unwrap()) == openings(events),
        node_count(built(events).unwrap()) == openings(events).len(),
{
    assembly_keeps_order(events);
    let state = assembled(events).unwrap();
    let root = state.open[0];
    assert(state.open =~= Seq::<ComponentView>::empty().push(root));
    forest_preorder_push(Seq::empty(), root);
    assert(forest_preorder(Seq::<ComponentView>::empty()) =~= Seq::<Opening>::empty());
    assert(Seq::<Opening>::empty() + preorder(root) =~= preorder(root));
    preorder_counts_nodes(root);
}

/// How the builder's stack and the open names go together: the stack holds
/// the open elements, below them the root once it has been closed.
pub open spec fn stack_matches(state: Assembly, names: Seq<Seq<char>>) -> bool {
    if state.closed {
        state.open.len() > 0 && names_of(state.open) == seq![state.open[0].elem] + names
    } else {
        names_of(state.open) == names
    }
}

/// The builder fails exactly where an end tag closes anything but the
/// innermost open element; until then its stack holds the open elements.
pub proof fn assembly_tracks_names(events: Seq<MarkupEventView>)
    ensures
        match unclosed(events) {
            Some(names) => assembled(events) is Ok && stack_matches(
                assembled(events).unwrap(),
                names,
            ),
            None => assembled(events) == Err::<Assembly, ParseError>(ParseError::MalformedMarkup),
        },
    decreases events.len(),
{
    if events.len() == 0 {
        assert(names_of(Assembly::initial().open) =~= Seq::<Seq<char>>::empty());
    } else {
        let front = events.drop_last();
        assembly_tracks_names(front);
        if let Some(names) = unclosed(front) {
            let state = assembled(front).unwrap();
            let open = state.open;
            assert(names_of(open).len() == open.len());
            if open.len() > 0 {
                assert(names_of(open).last() == open.last().elem);
            }
            match events.last() {
                MarkupEventView::Start { name, attributes } => {
                    let next = open.push(fresh(name, attributes));
                    assert(names_of(next) =~= names_of(open).push(name));
                    if state.closed {
                        assert(names_of(next) =~= seq![next[0].elem] + names.push(name));
                    }
                },
                MarkupEventView::Empty { name, attributes } => {
                    if open.len() > 0 {
                        let node = with_child(open.last(), fresh(name, attributes));
                        assert(names_of(open.drop_last().push(node)) =~= names_of(open));
                        assert(open.drop_last().push(node)[0].elem == open[0].elem);
                    }
                },
                MarkupEventView::Text { text } => {
                    if open.len() > 0 {
                        let node = with_text(open.last(), text);
                        assert(names_of(open.drop_last().push(node)) =~= names_of(open));
                        assert(open.drop_last().push(node)[0].elem == open[0].elem);
                    }
                },
                MarkupEventView::End { name } => {
                    if state.closed {
                        assert(names_of(open)[0] == open[0].elem);
                        if names.len() > 0 {
                            assert(names_of(open).last() == names.last());
                            let rest = open.drop_last();
                            let joined = rest.drop_last().push(with_child(rest.last(), open.last()));
                            assert(names_of(joined) =~= names_of(open).drop_last());
                            assert(joined[0].elem == open[0].elem);
                            assert((seq![open[0].elem] + names).drop_last() =~= seq![
                                open[0].elem,
                            ] + names.drop_last());
                        }
                    } else {
                        if names.len() > 1 {
                            let rest = open.drop_last();
                            let joined = rest.drop_last().push(with_child(rest.last(), open.last()));
                            assert(names_of(joined) =~= names.drop_last());
                        } else if names.len() == 1 {
                            assert(names_of(open) =~= seq![open[0].elem] + names.drop_last());
                        }
                    }
                },
            }
        }
    }
}

/// The builder gives a tree exactly for the streams in which every end tag
/// closes the innermost open element and no element is left open; for every
/// other stream it reports malformed markup.
pub proof fn build_succeeds_on_balanced(events: Seq<MarkupEventView>)
    ensures
        built(events) is Ok <==> unclosed(events) == Some(Seq::<Seq<char>>::empty()),
        built(events) is Err ==> built(events) == Err::<ComponentView, ParseError>(
            ParseError::MalformedMarkup,
        ),
{
    assembly_tracks_names(events);
    if let Some(names) = unclosed(events) {
        let state = assembled(events).unwrap();
        assert(names_of(state.open).len() == state.open.len());
        if state.closed {
            assert((seq![state.open[0].elem] + names).len() == 1 + names.len());
        }
        if names.len() == 0 {
            assert(names =~= Seq::<Seq<char>>::empty());
        }
    }
}

/// A well-formed document with a single root gives a tree with one node for
/// each of its start and self-closing tags, and in document order the nodes
/// of the tree are those tags in the order of the document.
pub proof fn document_tree_mirrors_tags(events: Seq<MarkupEventView>)
    requires
        is_document(events),
    ensures
        built(events) is Ok,
        preorder(built(events).unwrap()) == openings(events),
        node_count(built(events).unwrap()) == openings(events).len(),
{
    build_succeeds_on_balanced(events);
    tree_mirrors_tags(events);
}

/// A stream without events gives the placeholder element.
pub proof fn empty_stream_gives_placeholder()
    ensures
        built(Seq::<MarkupEventView>::empty()) == Ok::<ComponentView, ParseError>(
            crate::builder::placeholder(),
        ),
{
}

} // verus!
