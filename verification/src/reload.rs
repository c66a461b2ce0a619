//! The reload coordinator: it owns the published tree and decides, event by
//! event, when the source is read again and when observers are told.
//!
//! The coordinator does no I/O. Whoever runs it hands it the file events and
//! the text of the source, and carries out the action that each call returns.

use vstd::prelude::*;
use vstd::string::StrSliceExecFns;
use crate::builder::ParseError;
use crate::component::{Component, ComponentView};
use crate::reader::{markup_readings, parse_component, tree_of};
use crate::render::{render_component, rendered, ComponentType, ComponentTypeView};
use crate::text::{last_position, to_chars};

verus! {

/// The notification that observers get when a new tree has been published. It
/// carries nothing: observers ask for the tree.
#[derive(Clone, Copy, Debug, PartialEq, Eq, Hash, Structural)]
pub enum FileChangeEvent {
    DataChange,
}

/// Where the coordinator stands.
#[derive(Clone, Copy, Debug, PartialEq, Eq, Hash, Structural)]
pub enum CoordinatorState {
    /// The first tree is there, the watch is not yet registered.
    Idle,
    /// Waiting for a change of the source.
    Watching,
    /// The source has changed and its text has been asked for.
    Reparsing,
    /// The last text could not be parsed; the tree before it is still
    /// published.
    Failed,
}

/// What happened to a watched file, as the file watcher tells it.
#[derive(Clone, Copy, Debug, PartialEq, Eq, Hash, Structural)]
pub enum FileEventKind {
    Access,
    Create,
    /// The content of the file was written.
    ModifyData,
    /// Only metadata of the file changed.
    ModifyMetadata,
    /// The file was renamed.
    ModifyName,
    /// A modification of an unknown or another kind.
    ModifyOther,
    Remove,
    /// Anything else.
    Other,
}

/// What the coordinator asks of whoever runs it.
#[derive(Clone, Copy, Debug, PartialEq, Eq, Hash, Structural)]
pub enum ReloadAction {
    /// Nothing to do.
    Nothing,
    /// Read the source and hand its text over.
    ReadSource,
    /// Tell the observers that a new tree is published.
    Notify(FileChangeEvent),
    /// Report that the source could not be parsed.
    Report(ParseError),
}

/// The coordinator as a mathematical value.
pub struct CoordinatorView {
    pub text: Seq<char>,
    pub tree: ComponentView,
    pub source_path: Seq<char>,
    pub parsed_at: u64,
    pub state: CoordinatorState,
    pub stale: bool,
}

/// The coordinator with the published tree and where it comes from.
#[derive(Debug)]
pub struct HelloWorld {
    text: String,
    root_component: Component,
    source_path: String,
    parsed_at: u64,
    state: CoordinatorState,
    stale: bool,
}

impl View for HelloWorld {
    type V = CoordinatorView;

    closed spec fn view(&self) -> CoordinatorView {
        CoordinatorView {
            text: self.text@,
            tree: self.root_component@,
            source_path: self.source_path@,
            parsed_at: self.parsed_at,
            state: self.state,
            stale: self.stale,
        }
    }
}

/// Only a write to the content of a file calls for a reparse.
pub open spec fn is_data_change(kind: FileEventKind) -> bool {
    kind == FileEventKind::ModifyData
}

impl CoordinatorView {
    /// The coordinator after a file event, and what it asks for. A change of
    /// content while watching, or after a failure, asks for the source; one
    /// that comes while the source is being read again only marks what is being
    /// read as stale. Any other event changes nothing.
    pub open spec fn after_event(self, kind: FileEventKind) -> (CoordinatorView, ReloadAction) {
        if !is_data_change(kind) {
            (self, ReloadAction::Nothing)
        } else {
            match self.state {
                CoordinatorState::Idle => (self, ReloadAction::Nothing),
                CoordinatorState::Watching | CoordinatorState::Failed => (
                    CoordinatorView { state: CoordinatorState::Reparsing, stale: false, ..self },
                    ReloadAction::ReadSource,
                ),
                CoordinatorState::Reparsing => (
                    CoordinatorView { stale: true, ..self },
                    ReloadAction::Nothing,
                ),
            }
        }
    }

    /// The coordinator after the source has been read and parsed, and what it
    /// asks for. Outside a reparse nothing changes. A result that is stale is
    /// dropped and the source asked for again. A tree is published and the
    /// observers are told; a failure is reported and the tree stays.
    pub open spec fn after_parse(self, parsed: Result<ComponentView, ParseError>, now: u64) -> (
        CoordinatorView,
        ReloadAction,
    ) {
        if self.state != CoordinatorState::Reparsing {
            (self, ReloadAction::Nothing)
        } else if self.stale {
            (CoordinatorView { stale: false, ..self }, ReloadAction::ReadSource)
        } else {
            match parsed {
                Ok(tree) => (
                    CoordinatorView {
                        tree,
                        parsed_at: now,
                        state: CoordinatorState::Watching,
                        ..self
                    },
                    ReloadAction::Notify(FileChangeEvent::DataChange),
                ),
                Err(error) => (
                    CoordinatorView { state: CoordinatorState::Failed, ..self },
                    ReloadAction::Report(error),
                ),
            }
        }
    }
}

/// The request for the root of the tree: the request itself where it is a
/// container, else a container that shows the error.
pub open spec fn root_request(request: ComponentTypeView) -> ComponentTypeView {
    if request is Div {
        request
    } else {
        ComponentTypeView::Div {
            children: Seq::empty(),
            text: Some("Error: root element must be a div!"@),
            operations: Seq::empty(),
            diagnostics: Seq::empty(),
        }
    }
}

/// The directory of a path: what stands before its last `/`, the root `/`
/// where nothing stands before it, and `.` for a path without a `/`.
pub open spec fn directory_of(path: Seq<char>) -> Seq<char> {
    if !path.contains('/') {
        "."@
    } else if is_last_slash(path, 0) {
        "/"@
    } else {
        path.take(choose|at: int| is_last_slash(path, at))
    }
}

/// Whether the last `/` of `path` stands at `at`.
pub open spec fn is_last_slash(path: Seq<char>, at: int) -> bool {
    &&& 0 <= at < path.len()
    &&& path[at] == '/'
    &&& forall|i: int| at < i < path.len() ==> path[i] != '/'
}

/// The directory to watch for the source at `path`.
pub fn watched_directory(path: &str) -> (directory: String)
    ensures
        directory@ == directory_of(path@),
{
    let chars = to_chars(path);
    match last_position(chars.as_slice(), '/') {
        Some(at) => {
            proof {
                assert(is_last_slash(path@, at as int));
                let found = choose|found: int| is_last_slash(path@, found);
                if found < at {
                    assert(path@[at as int] != '/');
                } else if at < found {
                    assert(path@[found] != '/');
                }
            }
            if at == 0 {
                "/".to_owned()
            } else {
                path.substring_char(0, at).to_owned()
            }
        },
        None => ".".to_owned(),
    }
}

impl HelloWorld {
    /// The coordinator for the source at `source_path` with the text `xml`,
    /// parsed at the time `now`. It fails where the text cannot be parsed.
    pub fn new(source_path: String, xml: String, now: u64) -> (made: Result<HelloWorld, ParseError>)
        ensures
            match tree_of(markup_readings(xml@)) {
                Ok(tree) => made is Ok && made.unwrap()@ == (CoordinatorView {
                    text: "Hello, World!"@,
                    tree,
                    source_path: source_path@,
                    parsed_at: now,
                    state: CoordinatorState::Idle,
                    stale: false,
                }),
                Err(error) => made is Err && made.unwrap_err() == error,
            },
    {
        match parse_component(xml) {
            Ok(root_component) => Ok(
                HelloWorld {
                    text: "Hello, World!".to_owned(),
                    root_component,
                    source_path,
                    parsed_at: now,
                    state: CoordinatorState::Idle,
                    stale: false,
                },
            ),
            Err(error) => Err(error),
        }
    }

    /// The published tree.
    pub fn root_component(&self) -> (tree: &Component)
        ensures
            tree@ == self@.tree,
    {
        &self.root_component
    }

    /// The greeting.
    pub fn text(&self) -> (text: &String)
        ensures
            text@ == self@.text,
    {
        &self.text
    }

    /// The path of the source.
    pub fn source_path(&self) -> (path: &String)
        ensures
            path@ == self@.source_path,
    {
        &self.source_path
    }

    /// The time of the last parse that gave the published tree.
    pub fn parsed_at(&self) -> (time: u64)
        ensures
            time == self@.parsed_at,
    {
        self.parsed_at
    }

    /// Where the coordinator stands.
    pub fn state(&self) -> (state: CoordinatorState)
        ensures
            state == self@.state,
    {
        self.state
    }

    /// The rendering requests for the published tree. The root has to be a
    /// container: where it is rendered as anything else, a container that
    /// shows the error takes its place.
    pub fn render(&self) -> (request: ComponentType)
        ensures
            request@ == root_request(rendered(self@.tree)),
    {
        match render_component(&self.root_component) {
            ComponentType::Div { children, text, operations, diagnostics } => ComponentType::Div {
                children,
                text,
                operations,
                diagnostics,
            },
            _ => {
                let request = ComponentType::Div {
                    children: Vec::new(),
                    text: Some("Error: root element must be a div!".to_owned()),
                    operations: Vec::new(),
                    diagnostics: Vec::new(),
                };
                proof {
                    assert(request@->Div_children =~= Seq::empty());
                    assert(request@->Div_operations =~= Seq::empty());
                    assert(request@->Div_diagnostics =~= Seq::empty());
                }
                request
            },
        }
    }

    /// The watch on the source is registered: from idle the coordinator goes on
    /// to watch. In any other state nothing changes.
    pub fn watch_registered(&mut self)
        ensures
            final(self)@ == (CoordinatorView {
                state: if old(self)@.state == CoordinatorState::Idle {
                    CoordinatorState::Watching
                } else {
                    old(self)@.state
                },
                ..old(self)@
            }),
    {
        if self.state == CoordinatorState::Idle {
            self.state = CoordinatorState::Watching;
        }
    }

    /// The failure has been reported: the coordinator goes back to watch. In
    /// any other state nothing changes.
    pub fn resume(&mut self)
        ensures
            final(self)@ == (CoordinatorView {
                state: if old(self)@.state == CoordinatorState::Failed {
                    CoordinatorState::Watching
                } else {
                    old(self)@.state
                },
                ..old(self)@
            }),
    {
        if self.state == CoordinatorState::Failed {
            self.state = CoordinatorState::Watching;
        }
    }

    /// Takes in a file event and says what to do.
    pub fn on_file_event(&mut self, kind: FileEventKind) -> (action: ReloadAction)
        ensures
            (final(self)@, action) == old(self)@.after_event(kind),
    {
        if kind != FileEventKind::ModifyData {
            return ReloadAction::Nothing;
        }
        match self.state {
            CoordinatorState::Idle => ReloadAction::Nothing,
            CoordinatorState::Watching | CoordinatorState::Failed => {
                self.state = CoordinatorState::Reparsing;
                self.stale = false;
                ReloadAction::ReadSource
            },
            CoordinatorState::Reparsing => {
                self.stale = true;
                ReloadAction::Nothing
            },
        }
    }

    /// Takes in the outcome of a parse of the source, made at the time `now`,
    /// and says what to do. The published tree is replaced as a whole or not
    /// at all.
    pub fn publish(&mut self, parsed: Result<Component, ParseError>, now: u64) -> (action:
        ReloadAction)
        ensures
            (final(self)@, action) == old(self)@.after_parse(
                match parsed {
                    Ok(tree) => Ok(tree@),
                    Err(error) => Err(error),
                },
                now,
            ),
    {
        if self.state != CoordinatorState::Reparsing {
            return ReloadAction::Nothing;
        }
        if self.stale {
            self.stale = false;
            return ReloadAction::ReadSource;
        }
        match parsed {
            Ok(tree) => {
                self.root_component = tree;
                self.parsed_at = now;
                self.state = CoordinatorState::Watching;
                ReloadAction::Notify(FileChangeEvent::DataChange)
            },
            Err(error) => {
                self.state = CoordinatorState::Failed;
                ReloadAction::Report(error)
            },
        }
    }

    /// Takes in the text of the source, read at the time `now`, and says what
    /// to do: the text is parsed and the outcome published, unless no reparse is
    /// under way or the text is stale.
    pub fn on_source(&mut self, xml: String, now: u64) -> (action: ReloadAction)
        ensures
            (final(self)@, action) == old(self)@.after_parse(tree_of(markup_readings(xml@)), now),
    {
        if self.state != CoordinatorState::Reparsing {
            return ReloadAction::Nothing;
        }
        if self.stale {
            self.stale = false;
            return ReloadAction::ReadSource;
        }
        let parsed = parse_component(xml);
        self.publish(parsed, now)
    }

    /// The source could not be read: this counts as a failure of the stream.
    pub fn on_source_unreadable(&mut self, now: u64) -> (action: ReloadAction)
        ensures
            (final(self)@, action) == old(self)@.after_parse(Err(ParseError::StreamRead), now),
    {
        self.publish(Err(ParseError::StreamRead), now)
    }
}

/// A file event never touches the published tree, and only a write to the
/// content of the source asks for anything.
pub proof fn events_keep_the_tree(before: CoordinatorView, kind: FileEventKind)
    ensures
        before.after_event(kind).0.tree == before.tree,
        before.after_event(kind).0.parsed_at == before.parsed_at,
        !is_data_change(kind) ==> before.after_event(kind) == (before, ReloadAction::Nothing),
{
}

/// One reload: while watching, a write to the source asks for its text. A
/// text that parses is published, the observers are told once, and the
/// coordinator watches again; a text that does not parse is reported, the tree
/// stays as it was and nobody is told.
pub proof fn reload_publishes_or_keeps(
    before: CoordinatorView,
    parsed: Result<ComponentView, ParseError>,
    now: u64,
)
    requires
        before.state == CoordinatorState::Watching,
    ensures
        before.after_event(FileEventKind::ModifyData).1 == ReloadAction::ReadSource,
        ({
            let reparsing = before.after_event(FileEventKind::ModifyData).0;
            let (after, action) = reparsing.after_parse(parsed, now);
            match parsed {
                Ok(tree) => {
                    &&& after.tree == tree
                    &&& after.state == CoordinatorState::Watching
                    &&& action == ReloadAction::Notify(FileChangeEvent::DataChange)
                },
                Err(error) => {
                    &&& after.tree == before.tree
                    &&& after.state == CoordinatorState::Failed
                    &&& action == ReloadAction::Report(error)
                },
            }
        }),
{
}

/// Two writes in one reload: the second write asks for nothing by itself. The
/// text that was being read when it came is dropped without being published,
/// and the source is read once more; what that read gives is published.
pub proof fn rapid_writes_coalesce(
    before: CoordinatorView,
    early: Result<ComponentView, ParseError>,
    latest: ComponentView,
    then: u64,
    now: u64,
)
    requires
        before.state == CoordinatorState::Watching,
    ensures
        ({
            let (first, asked) = before.after_event(FileEventKind::ModifyData);
            let (second, again) = first.after_event(FileEventKind::ModifyData);
            let (dropped, reread) = second.after_parse(early, then);
            let (after, told) = dropped.after_parse(Ok(latest), now);
            &&& asked == ReloadAction::ReadSource
            &&& again == ReloadAction::Nothing
            &&& reread == ReloadAction::ReadSource
            &&& dropped.tree == before.tree
            &&& told == ReloadAction::Notify(FileChangeEvent::DataChange)
            &&& after.tree == latest
            &&& after.state == CoordinatorState::Watching
        }),
{
}

} // verus!
