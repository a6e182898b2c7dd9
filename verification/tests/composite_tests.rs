use gix_tui::bridge::{FetchOutcome, FetchBridge};
use gix_tui::commit_details::{CommitDetailsComponent, TopPane};
use gix_tui::error::Error;
use gix_tui::ids::{CommitFilesParams, CommitId};
use gix_tui::keys::{Event, Key, KeyConfig};
use gix_tui::layout::{Rect, SplitConstraint};
use gix_tui::queue::{InternalEvent, Queue};
use gix_tui::EventState;

fn id(s: &str) -> CommitId {
    CommitId::new(String::from(s))
}

fn single(s: &str) -> CommitFilesParams {
    CommitFilesParams::single(id(s))
}

fn comp() -> CommitDetailsComponent {
    CommitDetailsComponent::new(Queue::new(), KeyConfig::standard())
}

fn paths(list: &[&str]) -> Vec<String> {
    list.iter().map(|s| String::from(*s)).collect()
}

fn at_most_one_focused(c: &CommitDetailsComponent) -> bool {
    let n = [c.single_details.focused, c.compare_details.focused, c.file_tree.focused]
        .iter()
        .filter(|f| **f)
        .count();
    n <= 1
}

#[test]
fn focus_exclusivity_over_calls() {
    let mut c = comp();
    assert!(at_most_one_focused(&c));
    c.set_commits(Some(single("abc123")), None).unwrap();
    c.git_commit_files.resolve(single("abc123"), FetchOutcome::Files(paths(&["a", "b"])));
    c.set_commits(Some(single("abc123")), None).unwrap();
    c.show();
    for ev in [
        Event::Key(Key::Down),
        Event::Key(Key::Up),
        Event::Key(Key::Down),
        Event::Key(Key::Enter),
        Event::Other,
    ] {
        c.focus(true);
        assert!(at_most_one_focused(&c));
        c.event(ev);
        assert!(at_most_one_focused(&c));
        c.event(ev);
        assert!(at_most_one_focused(&c));
    }
    c.focus(false);
    assert!(at_most_one_focused(&c));
}

#[test]
fn event_short_circuit() {
    // both the details pane and the tree would consume a down key; only the
    // earlier child in declared order may observe it
    let mut c = comp();
    c.set_commits(Some(single("abc123")), None).unwrap();
    c.git_commit_files.resolve(single("abc123"), FetchOutcome::Files(paths(&["a", "b", "c"])));
    c.set_commits(Some(single("abc123")), None).unwrap();
    c.show();
    c.single_details.focused = true;
    c.single_details.content_lines = 5;
    c.file_tree.focused = true;
    assert_eq!(c.file_tree.selection, Some(0));

    let r = c.event(Event::Key(Key::Down));
    assert_eq!(r, EventState::Consumed);
    // the details pane scrolled; the tree never saw the event
    assert_eq!(c.single_details.scroll_top, 1);
    assert_eq!(c.file_tree.selection, Some(0));
}

#[test]
fn cache_reuse_issues_no_fetch() {
    let mut c = comp();
    c.set_commits(Some(single("abc123")), None).unwrap();
    assert_eq!(c.git_commit_files.requests.len(), 1);
    c.git_commit_files.resolve(single("abc123"), FetchOutcome::Files(paths(&["a.txt"])));
    c.set_commits(Some(single("abc123")), None).unwrap();
    // served from cache: zero new dispatches
    assert_eq!(c.git_commit_files.requests.len(), 1);
    assert_eq!(c.file_tree.items, paths(&["a.txt"]));
}

#[test]
fn stale_clear_on_new_identity() {
    let mut c = comp();
    c.set_commits(Some(single("abc123")), None).unwrap();
    c.git_commit_files.resolve(single("abc123"), FetchOutcome::Files(paths(&["a.txt"])));
    c.set_commits(Some(single("abc123")), None).unwrap();
    assert_eq!(c.file_tree.items.len(), 1);

    c.set_commits(Some(single("def456")), None).unwrap();
    // immediately cleared, fetch for the new identity dispatched
    assert!(c.file_tree.items.is_empty());
    assert_eq!(c.file_tree.title_count, 0);
    assert_eq!(c.git_commit_files.requests.len(), 2);
    assert_eq!(c.git_commit_files.requests[1], single("def456"));
    assert!(c.any_work_pending());
}

#[test]
fn stale_result_rejected() {
    let mut c = comp();
    c.set_commits(Some(single("abc123")), None).unwrap();
    c.set_commits(Some(single("def456")), None).unwrap();
    assert_eq!(c.git_commit_files.requests.len(), 2);
    // the old result arrives late; it must never reach the tree
    c.git_commit_files.resolve(single("abc123"), FetchOutcome::Files(paths(&["a.txt"])));
    assert!(c.file_tree.items.is_empty());
    c.set_commits(Some(single("def456")), None).unwrap();
    assert!(c.file_tree.items.is_empty());
    // and no duplicate dispatch for the identity already in flight
    assert_eq!(c.git_commit_files.requests.len(), 2);
}

#[test]
fn scenario_single_target_fetch_round_trip() {
    let mut c = comp();
    let r = c.set_commits(Some(single("abc123")), None);
    assert!(r.is_ok());
    assert!(c.file_tree.items.is_empty());
    assert_eq!(c.git_commit_files.requests.len(), 1);
    assert_eq!(c.git_commit_files.requests[0], single("abc123"));

    c.git_commit_files.resolve(
        single("abc123"),
        FetchOutcome::Files(paths(&["a.txt", "b.txt"])),
    );
    c.set_commits(Some(single("abc123")), None).unwrap();
    assert_eq!(c.file_tree.items, paths(&["a.txt", "b.txt"]));
    assert_eq!(c.file_tree.title_count, 2);
    assert_eq!(c.files().file_count(), 2);
}

#[test]
fn scenario_compare_mode_layout_fixed_top() {
    let mut c = comp();
    let params = CommitFilesParams::compare(id("abc123"), id("def456"));
    c.set_commits(Some(params), None).unwrap();
    c.show();
    let l = c.draw(Rect { x: 0, y: 0, width: 80, height: 30 }).unwrap();
    assert_eq!(l.top_pane, TopPane::Compare);
    assert_eq!(l.constraints, (SplitConstraint::Length(10), SplitConstraint::Min(0)));
    // the top region's height is fixed, not a share of the area
    assert_eq!(l.top.height, 10);
    assert_eq!(l.top.y, 0);
    assert_eq!(l.bottom.y, 10);
    assert_eq!(l.bottom.height, 20);
    assert_eq!(l.top.width, 80);
    // the compare child is active; the single-detail child is not drawn
    assert_eq!(c.compare_details.commits.as_ref().map(|p| p.0.id.clone()),
        Some(String::from("abc123")));
    assert!(c.single_details.commit.is_none());
}

#[test]
fn layout_percentages_follow_focus() {
    let mut c = comp();
    c.set_commits(Some(single("abc123")), None).unwrap();
    c.show();
    let area = Rect { x: 0, y: 0, width: 80, height: 30 };

    c.focus(true); // tree focused
    let l = c.draw(area).unwrap();
    assert_eq!(l.top_pane, TopPane::Single);
    assert_eq!(l.constraints, (SplitConstraint::Percentage(40), SplitConstraint::Percentage(60)));
    assert_eq!(l.top.height, 12);
    assert_eq!(l.bottom.height, 18);

    c.focus(false);
    c.single_details.focused = true; // detail side focused
    let l2 = c.draw(area).unwrap();
    assert_eq!(l2.constraints, (SplitConstraint::Percentage(60), SplitConstraint::Percentage(40)));
    assert_eq!(l2.top.height, 18);

    c.single_details.focused = false; // neither: the default split
    let l3 = c.draw(area).unwrap();
    assert_eq!(l3.constraints, (SplitConstraint::Percentage(40), SplitConstraint::Percentage(60)));
}

#[test]
fn draw_hidden_is_noop() {
    let c = comp();
    assert!(c.draw(Rect { x: 0, y: 0, width: 10, height: 10 }).is_none());
}

#[test]
fn fetch_failure_reported_and_tree_stays_cleared() {
    let mut c = comp();
    c.set_commits(Some(single("abc123")), None).unwrap();
    c.git_commit_files.resolve(single("abc123"), FetchOutcome::Failed);
    let r = c.set_commits(Some(single("abc123")), None);
    assert_eq!(r, Err(Error::FetchFailed));
    assert!(c.file_tree.items.is_empty());
    assert_eq!(c.file_tree.title_count, 0);
}

#[test]
fn clearing_target_clears_children() {
    let mut c = comp();
    c.set_commits(Some(single("abc123")), Some(paths(&["v1.0"]))).unwrap();
    c.git_commit_files.resolve(single("abc123"), FetchOutcome::Files(paths(&["a.txt"])));
    c.set_commits(Some(single("abc123")), None).unwrap();
    assert_eq!(c.file_tree.items.len(), 1);

    c.set_commits(None, None).unwrap();
    assert!(c.commit.is_none());
    assert!(c.single_details.commit.is_none());
    assert!(c.compare_details.commits.is_none());
    assert!(c.file_tree.items.is_empty());
}

#[test]
fn focus_shift_down_and_up() {
    let mut c = comp();
    c.set_commits(Some(single("abc123")), None).unwrap();
    c.show();
    c.focus(true);
    assert!(c.file_tree.focused);

    // up at the top of the tree: focus returns to the detail side
    let r = c.event(Event::Key(Key::Up));
    assert_eq!(r, EventState::Consumed);
    assert!(!c.file_tree.focused);
    assert!(c.single_details.focused);

    // down with nothing to scroll: focus moves to the tree
    let r2 = c.event(Event::Key(Key::Down));
    assert_eq!(r2, EventState::Consumed);
    assert!(c.file_tree.focused);
    assert!(!c.single_details.focused);
}

#[test]
fn no_focus_shift_up_in_compare_mode() {
    let mut c = comp();
    c.set_commits(Some(CommitFilesParams::compare(id("abc123"), id("def456"))), None).unwrap();
    c.show();
    c.focus(true);
    let r = c.event(Event::Key(Key::Up));
    assert_eq!(r, EventState::NotConsumed);
    assert!(c.file_tree.focused);
}

#[test]
fn tree_activation_hides_composite_and_reports_path() {
    let mut c = comp();
    c.set_commits(Some(single("abc123")), None).unwrap();
    c.git_commit_files.resolve(single("abc123"), FetchOutcome::Files(paths(&["a.txt", "b.txt"])));
    c.set_commits(Some(single("abc123")), None).unwrap();
    c.show();
    c.focus(true);

    let r = c.event(Event::Key(Key::Enter));
    assert_eq!(r, EventState::Consumed);
    assert!(!c.file_tree.visible);
    assert!(!c.is_visible());
    let drained = c.file_tree.queue.drain();
    assert_eq!(drained.len(), 1);
    assert!(matches!(&drained[0], InternalEvent::OpenPath(p) if p == "a.txt"));
}

#[test]
fn commands_reported_in_child_order() {
    let mut c = comp();
    let mut out = Vec::new();
    c.commands(&mut out, false);
    assert!(out.is_empty());
    c.show();
    c.commands(&mut out, false);
    assert_eq!(out.len(), 2);
    assert_eq!(out[0].kind, gix_tui::CommandKind::ScrollDetails);
    assert_eq!(out[1].kind, gix_tui::CommandKind::NavigateTree);
}

#[test]
fn pending_dedup_per_identity() {
    let mut b = FetchBridge::new();
    b.fetch(single("abc123"));
    b.fetch(single("abc123"));
    assert_eq!(b.requests.len(), 1);
    b.fetch(single("def456"));
    assert_eq!(b.requests.len(), 2);
    assert!(b.is_pending());
    // the late answer for the superseded identity leaves the newer one pending
    b.resolve(single("abc123"), FetchOutcome::Failed);
    assert!(b.is_pending());
    b.resolve(single("def456"), FetchOutcome::Files(paths(&[])));
    assert!(!b.is_pending());
    // a single result slot: the newest completion superseded the older one
    assert!(matches!(&b.current, Some((p, FetchOutcome::Files(_))) if *p == single("def456")));
}

#[test]
fn consumed_event_with_hidden_tree_hides_composite() {
    let mut c = comp();
    c.set_commits(Some(single("abc123")), None).unwrap();
    c.show();
    c.file_tree.hide_self();
    // a child consumes while the tree is off the screen: the composite
    // follows it off
    c.single_details.focused = true;
    c.single_details.content_lines = 4;
    let r = c.event(Event::Key(Key::Down));
    assert_eq!(r, EventState::Consumed);
    assert!(!c.is_visible());
}

#[test]
fn custom_bindings_are_honored() {
    let kc = KeyConfig {
        move_up: Key::Char('k'),
        move_down: Key::Char('j'),
        enter: Key::Enter,
        exit_popup: Key::Char('q'),
    };
    let mut c = CommitDetailsComponent::new(Queue::new(), kc);
    c.set_commits(Some(single("abc123")), None).unwrap();
    c.git_commit_files.resolve(single("abc123"), FetchOutcome::Files(paths(&["a", "b"])));
    c.set_commits(Some(single("abc123")), None).unwrap();
    c.show();
    c.focus(true);
    assert_eq!(c.event(Event::Key(Key::Down)), EventState::NotConsumed);
    assert_eq!(c.event(Event::Key(Key::Char('j'))), EventState::Consumed);
    assert_eq!(c.file_tree.selection, Some(1));
}
