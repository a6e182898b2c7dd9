use gix_tui::details::{CompareDetailsComponent, DetailsComponent};
use gix_tui::error::Error;
use gix_tui::ids::{CommitFilesParams, CommitId};
use gix_tui::keys::{key_match, Event, Key, KeyConfig};
use gix_tui::queue::{InternalEvent, Queue};
use gix_tui::tree::StatusTreeComponent;
use gix_tui::EventState;

fn id(s: &str) -> CommitId {
    CommitId::new(String::from(s))
}

fn paths(list: &[&str]) -> Vec<String> {
    list.iter().map(|s| String::from(*s)).collect()
}

fn tree_with(items: &[&str]) -> StatusTreeComponent {
    let mut t = StatusTreeComponent::new(Queue::new(), KeyConfig::standard());
    t.update(paths(items));
    t.show();
    t.focus(true);
    t
}

#[test]
fn key_matching_is_code_equality() {
    assert!(key_match(Key::Up, Key::Up));
    assert!(!key_match(Key::Up, Key::Down));
    assert!(key_match(Key::Char('q'), Key::Char('q')));
    assert!(!key_match(Key::Char('q'), Key::Char('x')));
    let kc = KeyConfig::standard();
    assert_eq!(kc.exit_popup, Key::Esc);
}

#[test]
fn commit_identity_equality() {
    assert!(id("abc123") == id("abc123"));
    assert!(id("abc123") != id("def456"));
    let a = CommitFilesParams::single(id("abc123"));
    let b = CommitFilesParams::compare(id("abc123"), id("def456"));
    assert!(a != b);
    assert!(a == a.clone());
    assert!(b == b.clone());
    assert!(!a.is_compare());
    assert!(b.is_compare());
}

#[test]
fn event_state_consumption() {
    assert!(EventState::Consumed.is_consumed());
    assert!(!EventState::NotConsumed.is_consumed());
}

#[test]
fn error_description() {
    assert_eq!(Error::FetchFailed.describe(), "fetch failed");
}

#[test]
fn queue_drains_in_order() {
    let mut q = Queue::new();
    q.push(InternalEvent::OpenPath(String::from("a")));
    q.push(InternalEvent::PopupStackPop);
    let drained = q.drain();
    assert_eq!(drained.len(), 2);
    assert!(matches!(&drained[0], InternalEvent::OpenPath(p) if p == "a"));
    assert!(matches!(&drained[1], InternalEvent::PopupStackPop));
    assert!(q.pending.is_empty());
}

#[test]
fn tree_selection_moves_within_bounds() {
    let mut t = tree_with(&["a", "b"]);
    assert_eq!(t.selection, Some(0));
    assert_eq!(t.event(Event::Key(Key::Up)), EventState::NotConsumed);
    assert_eq!(t.event(Event::Key(Key::Down)), EventState::Consumed);
    assert_eq!(t.selection, Some(1));
    assert_eq!(t.event(Event::Key(Key::Down)), EventState::NotConsumed);
    assert_eq!(t.selection, Some(1));
    assert_eq!(t.event(Event::Key(Key::Up)), EventState::Consumed);
    assert_eq!(t.selection, Some(0));
}

#[test]
fn tree_ignores_events_when_unfocused_or_hidden() {
    let mut t = tree_with(&["a", "b"]);
    t.focus(false);
    assert_eq!(t.event(Event::Key(Key::Down)), EventState::NotConsumed);
    t.focus(true);
    t.hide_self();
    assert_eq!(t.event(Event::Key(Key::Down)), EventState::NotConsumed);
    assert_eq!(t.event(Event::Other), EventState::NotConsumed);
}

#[test]
fn tree_clear_empties_rows() {
    let mut t = tree_with(&["a", "b"]);
    t.set_title(t.file_count());
    assert_eq!(t.title_count, 2);
    t.clear();
    assert!(t.items.is_empty());
    assert_eq!(t.selection, None);
    assert_eq!(t.file_count(), 0);
}

#[test]
fn tree_update_restarts_selection() {
    let mut t = tree_with(&["a", "b"]);
    t.event(Event::Key(Key::Down));
    assert_eq!(t.selection, Some(1));
    t.update(paths(&["x", "y", "z"]));
    assert_eq!(t.selection, Some(0));
    t.update(paths(&[]));
    assert_eq!(t.selection, None);
}

#[test]
fn details_scrolls_only_inside_content() {
    let mut d = DetailsComponent::new(KeyConfig::standard());
    d.set_commit(Some(id("abc123")), Some(paths(&["v1.0"])));
    d.set_content_lines(3);
    d.focus(true);
    assert_eq!(d.event(Event::Key(Key::Up)), EventState::NotConsumed);
    assert_eq!(d.event(Event::Key(Key::Down)), EventState::Consumed);
    assert_eq!(d.event(Event::Key(Key::Down)), EventState::Consumed);
    assert_eq!(d.scroll_top, 2);
    assert_eq!(d.event(Event::Key(Key::Down)), EventState::NotConsumed);
    assert_eq!(d.event(Event::Key(Key::Up)), EventState::Consumed);
    assert_eq!(d.scroll_top, 1);
    d.focus(false);
    assert_eq!(d.event(Event::Key(Key::Down)), EventState::NotConsumed);
}

#[test]
fn compare_pane_consumes_nothing() {
    let mut c = CompareDetailsComponent::new();
    c.set_commits(Some((id("abc123"), id("def456"))));
    c.focus(true);
    assert_eq!(c.event(Event::Key(Key::Down)), EventState::NotConsumed);
    assert_eq!(c.event(Event::Other), EventState::NotConsumed);
    assert!(c.focused());
}
