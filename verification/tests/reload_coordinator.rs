use xml2gpui::builder::ParseError;
use xml2gpui::reload::{
    watched_directory, CoordinatorState, FileChangeEvent, FileEventKind, HelloWorld, ReloadAction,
};

fn watching(xml: &str) -> HelloWorld {
    let mut coordinator =
        HelloWorld::new("ui/main.gpuiml".to_string(), xml.to_string(), 1).unwrap();
    assert_eq!(coordinator.state(), CoordinatorState::Idle);
    coordinator.watch_registered();
    assert_eq!(coordinator.state(), CoordinatorState::Watching);
    coordinator
}

#[test]
fn coordinator_starts_from_the_first_parse() {
    let coordinator = HelloWorld::new("ui/main.gpuiml".to_string(), "<div/>".to_string(), 7).unwrap();
    assert_eq!(coordinator.root_component().elem, "div");
    assert_eq!(coordinator.text(), "Hello, World!");
    assert_eq!(coordinator.source_path(), "ui/main.gpuiml");
    assert_eq!(coordinator.parsed_at(), 7);
    assert_eq!(coordinator.state(), CoordinatorState::Idle);
    let failed = HelloWorld::new("ui/main.gpuiml".to_string(), "<a><b></a>".to_string(), 7);
    assert_eq!(failed.unwrap_err(), ParseError::MalformedMarkup);
}

#[test]
fn valid_change_publishes_and_notifies_once() {
    let mut coordinator = watching("<div/>");
    assert_eq!(coordinator.on_file_event(FileEventKind::ModifyData), ReloadAction::ReadSource);
    assert_eq!(coordinator.state(), CoordinatorState::Reparsing);
    assert_eq!(coordinator.root_component().elem, "div");
    assert_eq!(
        coordinator.on_source("<img src=\"a\"/>".to_string(), 2),
        ReloadAction::Notify(FileChangeEvent::DataChange)
    );
    assert_eq!(coordinator.state(), CoordinatorState::Watching);
    assert_eq!(coordinator.root_component().elem, "img");
    assert_eq!(coordinator.parsed_at(), 2);
    assert_eq!(coordinator.on_source("<svg/>".to_string(), 3), ReloadAction::Nothing);
    assert_eq!(coordinator.root_component().elem, "img");
}

#[test]
fn invalid_change_keeps_the_tree_and_notifies_nobody() {
    let mut coordinator = watching("<div/>");
    assert_eq!(coordinator.on_file_event(FileEventKind::ModifyData), ReloadAction::ReadSource);
    assert_eq!(
        coordinator.on_source("<a><b></a>".to_string(), 2),
        ReloadAction::Report(ParseError::MalformedMarkup)
    );
    assert_eq!(coordinator.state(), CoordinatorState::Failed);
    assert_eq!(coordinator.root_component().elem, "div");
    assert_eq!(coordinator.parsed_at(), 1);
    coordinator.resume();
    assert_eq!(coordinator.state(), CoordinatorState::Watching);
    assert_eq!(coordinator.on_file_event(FileEventKind::ModifyData), ReloadAction::ReadSource);
    assert_eq!(
        coordinator.on_source("<a>&x;</a>".to_string(), 3),
        ReloadAction::Report(ParseError::StreamRead)
    );
    assert_eq!(coordinator.on_file_event(FileEventKind::ModifyData), ReloadAction::ReadSource);
    assert_eq!(
        coordinator.on_source("<p/>".to_string(), 4),
        ReloadAction::Notify(FileChangeEvent::DataChange)
    );
    assert_eq!(coordinator.root_component().elem, "p");
}

#[test]
fn rapid_changes_give_one_reparse_of_the_latest_text() {
    let mut coordinator = watching("<div/>");
    assert_eq!(coordinator.on_file_event(FileEventKind::ModifyData), ReloadAction::ReadSource);
    assert_eq!(coordinator.on_file_event(FileEventKind::ModifyData), ReloadAction::Nothing);
    assert_eq!(coordinator.on_source("<early/>".to_string(), 2), ReloadAction::ReadSource);
    assert_eq!(coordinator.root_component().elem, "div");
    assert_eq!(coordinator.state(), CoordinatorState::Reparsing);
    assert_eq!(
        coordinator.on_source("<latest/>".to_string(), 3),
        ReloadAction::Notify(FileChangeEvent::DataChange)
    );
    assert_eq!(coordinator.root_component().elem, "latest");
    assert_eq!(coordinator.parsed_at(), 3);
    assert_eq!(coordinator.state(), CoordinatorState::Watching);
}

#[test]
fn only_writes_to_the_content_ask_for_the_source() {
    let mut coordinator = watching("<div/>");
    for kind in [
        FileEventKind::Access,
        FileEventKind::Create,
        FileEventKind::ModifyMetadata,
        FileEventKind::ModifyName,
        FileEventKind::ModifyOther,
        FileEventKind::Remove,
        FileEventKind::Other,
    ] {
        assert_eq!(coordinator.on_file_event(kind), ReloadAction::Nothing);
        assert_eq!(coordinator.state(), CoordinatorState::Watching);
    }
    let mut idle = HelloWorld::new("a".to_string(), "<div/>".to_string(), 1).unwrap();
    assert_eq!(idle.on_file_event(FileEventKind::ModifyData), ReloadAction::Nothing);
    assert_eq!(idle.state(), CoordinatorState::Idle);
}

#[test]
fn unreadable_source_counts_as_a_failure() {
    let mut coordinator = watching("<div/>");
    assert_eq!(coordinator.on_source_unreadable(2), ReloadAction::Nothing);
    assert_eq!(coordinator.on_file_event(FileEventKind::ModifyData), ReloadAction::ReadSource);
    assert_eq!(
        coordinator.on_source_unreadable(2),
        ReloadAction::Report(ParseError::StreamRead)
    );
    assert_eq!(coordinator.state(), CoordinatorState::Failed);
    assert_eq!(coordinator.root_component().elem, "div");
}

#[test]
fn published_outcome_replaces_the_tree_as_a_whole() {
    let mut coordinator = watching("<div><a/><b/></div>");
    coordinator.on_file_event(FileEventKind::ModifyData);
    let tree = xml2gpui::reader::parse_component("<x>t</x>".to_string());
    assert_eq!(
        coordinator.publish(tree, 9),
        ReloadAction::Notify(FileChangeEvent::DataChange)
    );
    assert_eq!(coordinator.root_component().elem, "x");
    assert!(coordinator.root_component().children.is_empty());
    assert_eq!(coordinator.root_component().text, Some("t".to_string()));
    assert_eq!(
        coordinator.render(),
        xml2gpui::render::ComponentType::Div {
            children: Vec::new(),
            text: None,
            operations: Vec::new(),
            diagnostics: Vec::new(),
        }
    );
}

#[test]
fn watched_directory_is_that_of_the_source() {
    assert_eq!(watched_directory("ui/FMT100.gpuiml"), "ui");
    assert_eq!(watched_directory("crates/configurator/ui/FMT100.gpuiml"), "crates/configurator/ui");
    assert_eq!(watched_directory("FMT100.gpuiml"), ".");
    assert_eq!(watched_directory("/FMT100.gpuiml"), "/");
    assert_eq!(watched_directory("/"), "/");
    assert_eq!(watched_directory("/ui/FMT100.gpuiml"), "/ui");
    assert_eq!(watched_directory("ui/"), "ui");
    assert_eq!(watched_directory(""), ".");
    assert_eq!(watched_directory("ü/ö.gpuiml"), "ü");
}

#[test]
fn fonts_are_told_by_their_ending() {
    assert!(xml2gpui::text::is_font_file("fonts/Inter.ttf"));
    assert!(xml2gpui::text::is_font_file(".ttf"));
    assert!(!xml2gpui::text::is_font_file("fonts/Inter.otf"));
    assert!(!xml2gpui::text::is_font_file("fonts/Inter.ttf.bak"));
    assert!(!xml2gpui::text::is_font_file("ttf"));
    assert!(!xml2gpui::text::is_font_file("fonts/Inter.TTF"));
    assert!(!xml2gpui::text::is_font_file(""));
}

#[test]
fn root_that_is_no_container_shows_an_error() {
    let image = HelloWorld::new("a".to_string(), "<img src=\"a.png\"/>".to_string(), 1).unwrap();
    assert_eq!(
        image.render(),
        xml2gpui::render::ComponentType::Div {
            children: Vec::new(),
            text: Some("Error: root element must be a div!".to_string()),
            operations: Vec::new(),
            diagnostics: Vec::new(),
        }
    );
    let container =
        HelloWorld::new("a".to_string(), "<div class=\"flex\">x</div>".to_string(), 1).unwrap();
    assert_eq!(
        container.render(),
        xml2gpui::render::render_component(container.root_component())
    );
}
