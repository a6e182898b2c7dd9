use gix_tui::bridge::{FetchNotification, FetchOutcome};
use gix_tui::error::Error;
use gix_tui::ids::{CommitFilesParams, CommitId};
use gix_tui::keys::{Event, Key, KeyConfig};
use gix_tui::layout::Rect;
use gix_tui::queue::{InternalEvent, Queue, StackablePopupOpen};
use gix_tui::revision_files_popup::{FileTreeOpen, RevisionFilesPopup};
use gix_tui::{CommandBlocking, CommandKind, EventState};

fn id(s: &str) -> CommitId {
    CommitId::new(String::from(s))
}

fn single(s: &str) -> CommitFilesParams {
    CommitFilesParams::single(id(s))
}

fn paths(list: &[&str]) -> Vec<String> {
    list.iter().map(|s| String::from(*s)).collect()
}

fn popup() -> RevisionFilesPopup {
    RevisionFilesPopup::new(Queue::new(), Queue::new(), KeyConfig::standard())
}

fn opened_with_files(files: &[&str]) -> RevisionFilesPopup {
    let mut p = popup();
    p.open(FileTreeOpen::new(id("abc123"))).unwrap();
    p.update(FetchNotification {
        params: single("abc123"),
        outcome: FetchOutcome::Files(paths(files)),
    });
    p.files.tree.focused = true;
    p
}

#[test]
fn open_shows_popup_and_content() {
    let mut p = popup();
    let r = p.open(FileTreeOpen::new(id("abc123")));
    assert!(r.is_ok());
    assert!(p.is_visible());
    assert!(p.files.visible);
    assert!(p.files.tree.visible);
    assert_eq!(p.files.revision().map(|c| c.id), Some(String::from("abc123")));
    assert!(p.any_work_pending());
}

#[test]
fn popup_stacking_on_implicit_inner_hide() {
    let mut p = opened_with_files(&["a.txt", "b.txt"]);
    // move the selection, then activate the row: the inner browser hides
    // itself, which must stack exactly one reopen token
    p.event(Event::Key(Key::Down));
    let r = p.event(Event::Key(Key::Enter));
    assert_eq!(r, EventState::Consumed);
    assert!(!p.is_visible());
    assert!(!p.files.visible);
    let drained = p.queue.drain();
    assert_eq!(drained.len(), 1);
    match &drained[0] {
        InternalEvent::PopupStackPush(StackablePopupOpen::FileTree(open)) => {
            assert_eq!(open.commit_id.id, String::from("abc123"));
            assert_eq!(open.selection, Some(1));
        },
        _ => panic!("expected a reopen token"),
    }
}

#[test]
fn explicit_exit_pops_without_stacking() {
    let mut p = opened_with_files(&["a.txt"]);
    let r = p.event(Event::Key(Key::Esc));
    assert_eq!(r, EventState::NotConsumed);
    assert!(!p.is_visible());
    let drained = p.queue.drain();
    assert_eq!(drained.len(), 1);
    assert!(matches!(&drained[0], InternalEvent::PopupStackPop));
}

#[test]
fn hidden_popup_ignores_events() {
    let mut p = popup();
    let r = p.event(Event::Key(Key::Esc));
    assert_eq!(r, EventState::NotConsumed);
    assert!(p.queue.pending.is_empty());
}

#[test]
fn stale_notification_never_shown() {
    let mut p = popup();
    p.open(FileTreeOpen::new(id("abc123"))).unwrap();
    p.update(FetchNotification {
        params: single("def456"),
        outcome: FetchOutcome::Files(paths(&["zzz.txt"])),
    });
    assert!(p.files.tree.items.is_empty());
    // the wanted identity still lands
    p.update(FetchNotification {
        params: single("abc123"),
        outcome: FetchOutcome::Files(paths(&["a.txt"])),
    });
    assert_eq!(p.files.tree.items, paths(&["a.txt"]));
    assert!(!p.any_work_pending());
}

#[test]
fn open_fails_on_cached_failed_fetch() {
    let mut p = popup();
    p.files.bridge.resolve(single("abc123"), FetchOutcome::Failed);
    let r = p.open(FileTreeOpen::new(id("abc123")));
    assert_eq!(r, Err(Error::FetchFailed));
    assert!(!p.is_visible());
    assert!(p.open_request.is_none());
}

#[test]
fn file_finder_selects_first_match() {
    let mut p = opened_with_files(&["a.txt", "b.txt", "c.txt"]);
    p.file_finder_update(&String::from("c.txt"));
    assert_eq!(p.files.selection(), Some(2));
    // an unknown path leaves the selection alone
    p.file_finder_update(&String::from("missing.txt"));
    assert_eq!(p.files.selection(), Some(2));
}

#[test]
fn popup_draw_clears_then_delegates() {
    let mut p = popup();
    let area = Rect { x: 2, y: 3, width: 20, height: 10 };
    assert!(p.draw(area).is_none());
    p.open(FileTreeOpen::new(id("abc123"))).unwrap();
    assert_eq!(p.draw(area), Some(area));
}

#[test]
fn popup_commands_close_first_and_blocking() {
    let mut p = popup();
    let mut out = Vec::new();
    assert_eq!(p.commands(&mut out, false), CommandBlocking::PassingOn);
    assert!(out.is_empty());
    p.open(FileTreeOpen::new(id("abc123"))).unwrap();
    assert_eq!(p.commands(&mut out, false), CommandBlocking::Blocking);
    assert_eq!(out.len(), 2);
    assert_eq!(out[0].kind, CommandKind::ClosePopup);
    assert_eq!(out[0].order, 1);
    assert_eq!(out[1].kind, CommandKind::NavigateTree);
}

#[test]
fn selection_moves_inside_popup() {
    let mut p = opened_with_files(&["a.txt", "b.txt"]);
    assert_eq!(p.files.selection(), Some(0));
    assert_eq!(p.event(Event::Key(Key::Down)), EventState::Consumed);
    assert_eq!(p.files.selection(), Some(1));
    // at the bottom edge nothing consumes it
    assert_eq!(p.event(Event::Key(Key::Down)), EventState::NotConsumed);
    assert_eq!(p.files.selection(), Some(1));
    assert_eq!(p.event(Event::Key(Key::Up)), EventState::Consumed);
    assert_eq!(p.files.selection(), Some(0));
    // the inner tree reported its activation to its own queue
    assert!(p.files.tree.queue.pending.is_empty());
}

#[test]
fn overlapping_exit_and_activation_key_pops_then_stacks() {
    // with the exit key bound to the activation key, the exit check runs
    // first and the event is still handed on: the pop leaves first, then
    // the reopen token
    let kc = KeyConfig {
        move_up: Key::Up,
        move_down: Key::Down,
        enter: Key::Esc,
        exit_popup: Key::Esc,
    };
    let mut p = RevisionFilesPopup::new(Queue::new(), Queue::new(), kc);
    p.open(FileTreeOpen::new(id("abc123"))).unwrap();
    p.update(FetchNotification {
        params: single("abc123"),
        outcome: FetchOutcome::Files(paths(&["a.txt"])),
    });
    p.files.tree.focused = true;
    p.event(Event::Key(Key::Esc));
    assert!(!p.is_visible());
    let drained = p.queue.drain();
    assert_eq!(drained.len(), 2);
    assert!(matches!(&drained[0], InternalEvent::PopupStackPop));
    assert!(matches!(&drained[1], InternalEvent::PopupStackPush(_)));
}

#[test]
fn failed_fetch_clears_inner_rows() {
    let mut p = popup();
    p.open(FileTreeOpen::new(id("abc123"))).unwrap();
    p.update(FetchNotification {
        params: single("abc123"),
        outcome: FetchOutcome::Files(paths(&["a.txt"])),
    });
    assert_eq!(p.files.tree.items.len(), 1);
    p.update(FetchNotification { params: single("abc123"), outcome: FetchOutcome::Failed });
    assert!(p.files.tree.items.is_empty());
    assert_eq!(p.files.tree.title_count, 0);
    assert_eq!(p.files.selection(), None);
}
