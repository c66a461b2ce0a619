//! Reading markup: the text goes through the `quick_xml` reader event by
//! event, each event is turned into plain values, and the tree builder takes
//! it in.

use vstd::prelude::*;
use crate::builder::{
    assembled, built, Assembly, MarkupEvent, MarkupEventView, ParseError, TreeBuilder,
};
use crate::component::{Component, ComponentView};

verus! {

/// The reader of `quick_xml`, opaque to the verifier.
#[verifier::external_type_specification]
#[verifier::external_body]
#[verifier::reject_recursive_types(R)]
pub struct ExReader<R>(quick_xml::reader::Reader<R>);

/// An event of `quick_xml`, opaque to the verifier.
#[verifier::external_type_specification]
#[verifier::external_body]
pub struct ExEvent<'a>(quick_xml::events::Event<'a>);

/// What kind of event the reader delivered.
#[derive(Clone, Copy, Debug, PartialEq, Eq, Hash, Structural)]
pub enum EventKind {
    Start,
    Empty,
    End,
    Text,
    /// A comment, a declaration, a processing instruction and the like.
    Other,
}

/// An attribute as the reader delivers it: nothing for one that is not
/// written as an attribute, else its name with its value, or with no value
/// where its escapes cannot be resolved.
pub type RawAttribute = Option<(Seq<char>, Option<Seq<char>>)>;

/// What an event of the reader holds, as plain values: its kind, the name of
/// the element for a tag, the attributes for a start or self-closing tag, and
/// the text for a run of text, or no text where its escapes cannot be
/// resolved.
pub struct RawEvent {
    pub kind: EventKind,
    pub name: Seq<char>,
    pub attributes: Seq<RawAttribute>,
    pub text: Option<Seq<char>>,
}

/// One read from the reader: an event, an end tag that does not match the
/// open start tag, or any other failure.
pub enum Reading {
    Event(RawEvent),
    Mismatch,
    Failure,
}

/// What one call of the reader gave.
enum ReadStep<'a> {
    Event(quick_xml::events::Event<'a>),
    /// The end of the text.
    Finished,
    /// An end tag that does not match the open start tag.
    Mismatch,
    /// Any other failure of the reader.
    Failure,
}

/// The readings that `quick_xml` makes of a text, up to the end of the text or
/// to its first failure, with self-closing tags expanded, end names checked
/// and text trimmed.
pub uninterp spec fn markup_readings(text: Seq<char>) -> Seq<Reading>;

/// The readings that a reader has yet to deliver.
pub uninterp spec fn unread(reader: quick_xml::reader::Reader<&[u8]>) -> Seq<Reading>;

/// What an event holds.
pub uninterp spec fn content_of(event: quick_xml::events::Event) -> RawEvent;

/// Opens a reader on `xml` with `Reader::from_str` and sets it to expand
/// self-closing tags, to check end names and to trim text. The readings it has
/// to deliver are those of the text.
#[verifier::external_body]
fn open_reader<'a>(xml: &'a str) -> (reader: quick_xml::reader::Reader<&'a [u8]>)
    ensures
        unread(reader) == markup_readings(xml@),
{
    let mut reader = quick_xml::reader::Reader::from_str(xml);
    reader.expand_empty_elements(true).check_end_names(true).trim_text(true);
    reader
}

/// Calls `Reader::read_event`. The reader delivers its next reading and has
/// the rest left; where it has none left, it reports the end of the text.
#[verifier::external_body]
fn read_step<'a>(reader: &mut quick_xml::reader::Reader<&'a [u8]>) -> (step: ReadStep<'a>)
    ensures
        unread(*old(reader)).len() == 0 ==> step is Finished && unread(*final(reader)).len() == 0,
        unread(*old(reader)).len() > 0 ==> unread(*final(reader)) == unread(
            *old(reader),
        ).drop_first() && match unread(*old(reader))[0] {
            Reading::Event(raw) => step is Event && content_of(step->Event_0) == raw,
            Reading::Mismatch => step is Mismatch,
            Reading::Failure => step is Failure,
        },
{
    match reader.read_event() {
        Ok(quick_xml::events::Event::Eof) => ReadStep::Finished,
        Ok(event) => ReadStep::Event(event),
        Err(quick_xml::Error::EndEventMismatch { .. }) => ReadStep::Mismatch,
        Err(_) => ReadStep::Failure,
    }
}

/// Tells the variants of `Event` apart.
#[verifier::external_body]
fn event_kind(event: &quick_xml::events::Event) -> (kind: EventKind)
    ensures
        kind == content_of(*event).kind,
{
    match event {
        quick_xml::events::Event::Start(_) => EventKind::Start,
        quick_xml::events::Event::Empty(_) => EventKind::Empty,
        quick_xml::events::Event::End(_) => EventKind::End,
        quick_xml::events::Event::Text(_) => EventKind::Text,
        _ => EventKind::Other,
    }
}

/// The local name of a tag, by `BytesStart::local_name` and
/// `BytesEnd::local_name`; the empty text for an event that is no tag.
#[verifier::external_body]
fn event_name(event: &quick_xml::events::Event) -> (name: String)
    ensures
        name@ == content_of(*event).name,
{
    match event {
        quick_xml::events::Event::Start(tag) | quick_xml::events::Event::Empty(tag) => {
            String::from_utf8_lossy(tag.local_name().as_ref()).into_owned()
        },
        quick_xml::events::Event::End(tag) => {
            String::from_utf8_lossy(tag.local_name().as_ref()).into_owned()
        },
        _ => String::new(),
    }
}

/// The attributes of a start or self-closing tag, by
/// `BytesStart::html_attributes`, each with its local name and with its value
/// by `Attribute::unescape_value`; none for any other event.
#[verifier::external_body]
fn event_attributes(event: &quick_xml::events::Event) -> (attributes: Vec<
    Option<(String, Option<String>)>,
>)
    ensures
        attributes.deep_view() == content_of(*event).attributes,
{
    match event {
        quick_xml::events::Event::Start(tag) | quick_xml::events::Event::Empty(tag) => {
            tag.html_attributes().map(|read| read.ok().map(|attribute| (
                String::from_utf8_lossy(attribute.key.local_name().as_ref()).into_owned(),
                attribute.unescape_value().ok().map(|value| value.into_owned()),
            ))).collect()
        },
        _ => Vec::new(),
    }
}

/// The text of a run of text, by `BytesText::unescape`; none where its escapes
/// cannot be resolved, and none for any other event.
#[verifier::external_body]
fn event_text(event: &quick_xml::events::Event) -> (text: Option<String>)
    ensures
        text.deep_view() == content_of(*event).text,
{
    match event {
        quick_xml::events::Event::Text(run) => run.unescape().ok().map(|text| text.into_owned()),
        _ => None,
    }
}

/// The attributes of a tag as the tree holds them: each attribute with its
/// value, the pair `error`, `error` in place of one that is not written as an
/// attribute; nothing where a value cannot be read.
pub open spec fn attribute_pairs(raw: Seq<RawAttribute>) -> Option<Seq<(Seq<char>, Seq<char>)>>
    decreases raw.len(),
{
    if raw.len() == 0 {
        Some(Seq::empty())
    } else {
        match (attribute_pairs(raw.drop_last()), raw.last()) {
            (Some(pairs), None) => Some(pairs.push(("error"@, "error"@))),
            (Some(pairs), Some((name, Some(value)))) => Some(pairs.push((name, value))),
            _ => None,
        }
    }
}

/// The markup event that an event of the reader stands for: none for an event
/// that is neither tag nor text, and a failure of the stream for a value or a
/// text that cannot be read.
pub open spec fn event_of(raw: RawEvent) -> Result<Option<MarkupEventView>, ParseError> {
    match raw.kind {
        EventKind::Start => match attribute_pairs(raw.attributes) {
            Some(attributes) => Ok(Some(MarkupEventView::Start { name: raw.name, attributes })),
            None => Err(ParseError::StreamRead),
        },
        EventKind::Empty => match attribute_pairs(raw.attributes) {
            Some(attributes) => Ok(Some(MarkupEventView::Empty { name: raw.name, attributes })),
            None => Err(ParseError::StreamRead),
        },
        EventKind::End => Ok(Some(MarkupEventView::End { name: raw.name })),
        EventKind::Text => match raw.text {
            Some(text) => Ok(Some(MarkupEventView::Text { text })),
            None => Err(ParseError::StreamRead),
        },
        EventKind::Other => Ok(None),
    }
}

/// The state of the builder after a list of readings, or the first error: a
/// mismatched end tag is malformed markup, any other failure of the reader a
/// failure of the stream.
pub open spec fn taken(readings: Seq<Reading>) -> Result<Assembly, ParseError>
    decreases readings.len(),
{
    if readings.len() == 0 {
        Ok(Assembly::initial())
    } else {
        match taken(readings.drop_last()) {
            Err(error) => Err(error),
            Ok(state) => match readings.last() {
                Reading::Mismatch => Err(ParseError::MalformedMarkup),
                Reading::Failure => Err(ParseError::StreamRead),
                Reading::Event(raw) => match event_of(raw) {
                    Err(error) => Err(error),
                    Ok(None) => Ok(state),
                    Ok(Some(event)) => state.step(event),
                },
            },
        }
    }
}

/// The tree that a list of readings describes.
pub open spec fn tree_of(readings: Seq<Reading>) -> Result<ComponentView, ParseError> {
    match taken(readings) {
        Ok(state) => state.finish(),
        Err(error) => Err(error),
    }
}

/// After an error no later reading matters.
pub proof fn error_is_final(readings: Seq<Reading>, upto: int)
    requires
        0 <= upto <= readings.len(),
        taken(readings.take(upto)) is Err,
    ensures
        taken(readings) == taken(readings.take(upto)),
    decreases readings.len() - upto,
{
    if upto < readings.len() {
        assert(readings.take(upto + 1).drop_last() =~= readings.take(upto));
        error_is_final(readings, upto + 1);
    } else {
        assert(readings.take(upto) =~= readings);
    }
}

/// Turns the attributes that the reader delivered into those of an element.
pub fn pair_attributes(raw: Vec<Option<(String, Option<String>)>>) -> (pairs: Option<
    Vec<(String, String)>,
>)
    ensures
        pairs.deep_view() == attribute_pairs(raw.deep_view()),
{
    let mut pairs: Vec<(String, String)> = Vec::new();
    let ghost all = raw.deep_view();
    proof {
        assert(pairs.deep_view() =~= Seq::empty());
    }
    for attribute in it: raw
        invariant
            all == raw.deep_view(),
            all.len() == it.seq().len(),
            forall|i: int| 0 <= i < all.len() ==> all[i] == it.seq()[i].deep_view(),
            attribute_pairs(all.take(it.index() as int)) == Some(pairs.deep_view()),
    {
        let ghost at = it.index() as int;
        let ghost before = pairs.deep_view();
        proof {
            assert(all.take(at + 1).drop_last() =~= all.take(at));
            assert(all.take(at + 1).last() == attribute.deep_view());
        }
        match attribute {
            None => {
                pairs.push(("error".to_owned(), "error".to_owned()));
                proof {
                    assert(pairs.deep_view() =~= before.push(("error"@, "error"@)));
                }
            },
            Some((name, Some(value))) => {
                pairs.push((name, value));
                proof {
                    assert(pairs.deep_view() =~= before.push((name@, value@)));
                }
            },
            Some((_, None)) => {
                proof {
                    unreadable_is_final(all, at + 1);
                }
                return None;
            },
        }
    }
    proof {
        assert(all.take(all.len() as int) =~= all);
    }
    Some(pairs)
}

/// After a value that cannot be read no later attribute matters.
proof fn unreadable_is_final(raw: Seq<RawAttribute>, upto: int)
    requires
        0 <= upto <= raw.len(),
        attribute_pairs(raw.take(upto)) is None,
    ensures
        attribute_pairs(raw) is None,
    decreases raw.len() - upto,
{
    if upto < raw.len() {
        assert(raw.take(upto + 1).drop_last() =~= raw.take(upto));
        unreadable_is_final(raw, upto + 1);
    } else {
        assert(raw.take(upto) =~= raw);
    }
}

/// Turns what an event of the reader holds into a markup event.
pub fn interpret(
    kind: EventKind,
    name: String,
    attributes: Vec<Option<(String, Option<String>)>>,
    text: Option<String>,
) -> (event: Result<Option<MarkupEvent>, ParseError>)
    ensures
        match event_of(
            RawEvent {
                kind,
                name: name@,
                attributes: attributes.deep_view(),
                text: text.deep_view(),
            },
        ) {
            Ok(Some(view)) => event is Ok && event.unwrap() is Some && event.unwrap().unwrap()@
                == view,
            Ok(None) => event is Ok && event.unwrap() is None,
            Err(error) => event is Err && event.unwrap_err() == error,
        },
{
    match kind {
        EventKind::Start => match pair_attributes(attributes) {
            Some(attributes) => Ok(Some(MarkupEvent::Start { name, attributes })),
            None => Err(ParseError::StreamRead),
        },
        EventKind::Empty => match pair_attributes(attributes) {
            Some(attributes) => Ok(Some(MarkupEvent::Empty { name, attributes })),
            None => Err(ParseError::StreamRead),
        },
        EventKind::End => Ok(Some(MarkupEvent::End { name })),
        EventKind::Text => match text {
            Some(text) => Ok(Some(MarkupEvent::Text { text })),
            None => Err(ParseError::StreamRead),
        },
        EventKind::Other => Ok(None),
    }
}

/// Parses markup into its element tree.
///
/// The text is read event by event. A text that the reader cannot make events
/// of is a failure of the stream; tags that do not nest are malformed markup;
/// a text without elements gives the placeholder element.
pub fn parse_component(xml: String) -> (tree: Result<Component, ParseError>)
    ensures
        match tree_of(markup_readings(xml@)) {
            Ok(root) => tree is Ok && tree.unwrap()@ == root,
            Err(error) => tree is Err && tree.unwrap_err() == error,
        },
{
    let ghost all = markup_readings(xml@);
    let ghost mut done: Seq<Reading> = Seq::empty();
    let mut reader = open_reader(xml.as_str());
    let mut builder = TreeBuilder::new();
    proof {
        assert(done + unread(reader) =~= all);
    }
    loop
        invariant
            all == markup_readings(xml@),
            all == done + unread(reader),
            taken(done) == Ok::<Assembly, ParseError>(builder@),
        ensures
            taken(all) == Ok::<Assembly, ParseError>(builder@),
        decreases unread(reader).len(),
    {
        let ghost rest = unread(reader);
        let step = read_step(&mut reader);
        proof {
            if rest.len() > 0 {
                assert(done.push(rest[0]).drop_last() =~= done);
                assert(done.push(rest[0]).last() == rest[0]);
                assert(done.push(rest[0]) + rest.drop_first() =~= done + rest);
                assert(all.take(done.len() as int + 1) =~= done.push(rest[0]));
            } else {
                assert(done + rest =~= done);
            }
        }
        let event = match step {
            ReadStep::Finished => {
                break ;
            },
            ReadStep::Mismatch => {
                proof {
                    error_is_final(all, done.len() as int + 1);
                }
                return Err(ParseError::MalformedMarkup);
            },
            ReadStep::Failure => {
                proof {
                    error_is_final(all, done.len() as int + 1);
                }
                return Err(ParseError::StreamRead);
            },
            ReadStep::Event(event) => event,
        };
        let kind = event_kind(&event);
        let name = event_name(&event);
        let attributes = event_attributes(&event);
        let text = event_text(&event);
        match interpret(kind, name, attributes, text) {
            Err(error) => {
                proof {
                    error_is_final(all, done.len() as int + 1);
                }
                return Err(error);
            },
            Ok(None) => {},
            Ok(Some(event)) => {
                match builder.push_event(event) {
                    Ok(()) => {},
                    Err(error) => {
                        proof {
                            error_is_final(all, done.len() as int + 1);
                        }
                        return Err(error);
                    },
                }
            },
        }
        proof {
            done = done.push(rest[0]);
        }
    }
    builder.finish()
}

/// The markup events that a list of readings stands for, where none of them
/// is a failure.
pub open spec fn events_of(readings: Seq<Reading>) -> Option<Seq<MarkupEventView>>
    decreases readings.len(),
{
    if readings.len() == 0 {
        Some(Seq::empty())
    } else {
        match (events_of(readings.drop_last()), readings.last()) {
            (Some(events), Reading::Event(raw)) => match event_of(raw) {
                Ok(Some(event)) => Some(events.push(event)),
                Ok(None) => Some(events),
                Err(_) => None,
            },
            _ => None,
        }
    }
}

/// Readings without a failure describe the tree that the builder makes of
/// their markup events.
pub proof fn readings_build_like_events(readings: Seq<Reading>)
    requires
        events_of(readings) is Some,
    ensures
        taken(readings) == assembled(events_of(readings).unwrap()),
        tree_of(readings) == built(events_of(readings).unwrap()),
    decreases readings.len(),
{
    if readings.len() > 0 {
        let front = readings.drop_last();
        readings_build_like_events(front);
        let events = events_of(front).unwrap();
        match event_of(readings.last()->Event_0) {
            Ok(Some(event)) => {
                assert(events.push(event).drop_last() =~= events);
                assert(events.push(event).last() == event);
            },
            _ => {},
        }
    }
}

/// A failure of the reader ends the parse with its error whatever follows: a
/// mismatched end tag as malformed markup, any other as a failure of the
/// stream, unless an earlier reading has failed already.
pub proof fn reader_failure_fails_the_parse(before: Seq<Reading>, after: Seq<Reading>)
    requires
        taken(before) is Ok,
    ensures
        tree_of(before + seq![Reading::Mismatch] + after) == Err::<ComponentView, ParseError>(
            ParseError::MalformedMarkup,
        ),
        tree_of(before + seq![Reading::Failure] + after) == Err::<ComponentView, ParseError>(
            ParseError::StreamRead,
        ),
{
    let mismatched = before + seq![Reading::Mismatch] + after;
    let failed = before + seq![Reading::Failure] + after;
    let upto = before.len() as int + 1;
    assert(mismatched.take(upto) =~= before.push(Reading::Mismatch));
    assert(failed.take(upto) =~= before.push(Reading::Failure));
    assert(before.push(Reading::Mismatch).drop_last() =~= before);
    assert(before.push(Reading::Failure).drop_last() =~= before);
    error_is_final(mismatched, upto);
    error_is_final(failed, upto);
}

} // verus!
