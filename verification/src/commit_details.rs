use vstd::prelude::*;

use crate::bridge::{FetchBridge, FetchOutcome};
use crate::details::{CompareDetailsComponent, DetailsComponent};
use crate::error::Error;
use crate::ids::CommitFilesParams;
use crate::keys::{key_match, Event, KeyConfig};
use crate::layout::{split_vertical, Rect, SplitConstraint};
use crate::queue::Queue;
use crate::tree::StatusTreeComponent;
use crate::{CommandBlocking, CommandInfo, EventState};

verus! {

/// Which detail pane occupies the top region of the composite's layout.
#[derive(Clone, Copy, PartialEq, Eq, Structural, Debug)]
pub enum TopPane {
    Single,
    Compare,
}

/// What a draw of the composite amounts to: which pane is active on top,
/// how the vertical split was asked for, and the two regions it produced.
/// The shell renders the named pane into `top` and the file tree into
/// `bottom`.
#[derive(Clone, Copy, PartialEq, Eq, Debug)]
pub struct DetailsLayout {
    pub top_pane: TopPane,
    pub constraints: (SplitConstraint, SplitConstraint),
    pub top: Rect,
    pub bottom: Rect,
}

/// The commit-details composite: a details pane (single or comparison), a
/// file tree, and the async bridge that feeds the tree. It owns the focus
/// path between its children, routes events to them in declared order, and
/// decides between reusing a cached fetch result and issuing a new fetch.
pub struct CommitDetailsComponent {
    /// The identity currently shown, if any.
    pub commit: Option<CommitFilesParams>,
    pub single_details: DetailsComponent,
    pub compare_details: CompareDetailsComponent,
    pub file_tree: StatusTreeComponent,
    pub git_commit_files: FetchBridge,
    pub visible: bool,
    pub key_config: KeyConfig,
}

impl CommitDetailsComponent {
    /// At most one owned child holds focus.
    pub open spec fn focus_exclusive(self) -> bool {
        &&& !(self.single_details.focused && self.compare_details.focused)
        &&& !(self.single_details.focused && self.file_tree.focused)
        &&& !(self.compare_details.focused && self.file_tree.focused)
    }

    pub open spec fn spec_is_compare(self) -> bool {
        match self.commit {
            Some(p) => p.other is Some,
            None => false,
        }
    }

    pub open spec fn spec_details_focused(self) -> bool {
        self.single_details.focused || self.compare_details.focused
    }

    pub open spec fn spec_focused(self) -> bool {
        self.spec_details_focused() || self.file_tree.focused
    }

    /// Whether some owned child takes the event, in declared order.
    pub open spec fn pump_consumes(self, ev: Event) -> bool {
        ||| self.single_details.consumes(ev)
        ||| self.compare_details.consumes(ev)
        ||| self.file_tree.consumes(ev)
    }

    /// A down key, left over by every child, moves focus from the detail
    /// side to the file tree.
    pub open spec fn shifts_focus_down(self, ev: Event) -> bool {
        &&& !self.pump_consumes(ev)
        &&& self.spec_focused()
        &&& ev matches Event::Key(k) && k == self.key_config.move_down
        &&& self.spec_details_focused()
    }

    /// An up key, left over by every child, moves focus from the file tree
    /// back to the detail side; never in comparison mode, where the detail
    /// side already occupies the whole focus path.
    pub open spec fn shifts_focus_up(self, ev: Event) -> bool {
        &&& !self.pump_consumes(ev)
        &&& self.spec_focused()
        &&& ev matches Event::Key(k) && k == self.key_config.move_up
            && !(k == self.key_config.move_down && self.spec_details_focused())
        &&& self.file_tree.focused
        &&& !self.spec_is_compare()
    }

    /// Whether the event pump reaches the file tree: no earlier child in
    /// the declared order consumed the event.
    pub open spec fn tree_offered(self, ev: Event) -> bool {
        !self.single_details.consumes(ev) && !self.compare_details.consumes(ev)
    }

    /// Everything the composite takes: what a child consumed, plus the two
    /// focus shifts it handles itself.
    pub open spec fn consumes(self, ev: Event) -> bool {
        ||| self.pump_consumes(ev)
        ||| self.shifts_focus_down(ev)
        ||| self.shifts_focus_up(ev)
    }

    pub fn new(queue: Queue, key_config: KeyConfig) -> (r: CommitDetailsComponent)
        ensures
            r.commit is None,
            !r.visible,
            r.key_config == key_config,
            r.single_details.commit is None,
            r.single_details.tags is None,
            r.single_details.content_lines == 0,
            r.single_details.scroll_top == 0,
            !r.single_details.focused,
            r.compare_details.commits is None,
            !r.compare_details.focused,
            r.file_tree.items@ == Seq::<String>::empty(),
            r.file_tree.commit is None,
            !r.file_tree.visible,
            !r.file_tree.focused,
            r.file_tree.queue == queue,
            r.git_commit_files.current is None,
            r.git_commit_files.pending is None,
            r.git_commit_files.requests@ == Seq::<CommitFilesParams>::empty(),
            r.focus_exclusive(),
            r.file_tree.wf(),
    {
        CommitDetailsComponent {
            commit: None,
            single_details: DetailsComponent::new(key_config),
            compare_details: CompareDetailsComponent::new(),
            file_tree: StatusTreeComponent::new(queue, key_config),
            git_commit_files: FetchBridge::new(),
            visible: false,
            key_config,
        }
    }

    /// The item count the tree's title shows.
    fn get_files_title(&self) -> (r: usize)
        ensures
            r == self.file_tree.items@.len(),
    {
        self.file_tree.file_count()
    }

    /// Selects which child subset is active and reconciles the tree with
    /// the bridge's cache: an exact cache hit is applied without any fetch;
    /// anything else clears the tree at once — stale rows are never shown —
    /// and dispatches a fetch unless one for the same identity is already
    /// in flight. A cached failed fetch is reported as an error, with the
    /// tree left cleared.
    pub fn set_commits(&mut self, params: Option<CommitFilesParams>, tags: Option<Vec<String>>)
        -> (r: Result<(), Error>)
        ensures
            // what is now shown
            final(self).commit == params,
            // an empty identity clears every child's displayed state
            params is None ==> {
                &&& final(self).single_details.commit is None
                &&& final(self).single_details.tags is None
                &&& final(self).compare_details.commits is None
                &&& final(self).file_tree.commit is None
                &&& final(self).file_tree.items@ == Seq::<String>::empty()
                &&& final(self).git_commit_files == old(self).git_commit_files
                &&& r is Ok
            },
            params matches Some(p) ==> {
                &&& final(self).file_tree.commit == Some(p.id)
                &&& final(self).commit == params
                // comparison shape activates the compare pane, single shape
                // the single pane; the inactive pane keeps its old state
                &&& (p.other matches Some(o) ==> final(self).compare_details.commits == Some(
                    (p.id, o),
                ) && final(self).single_details == old(self).single_details)
                &&& (p.other is None ==> final(self).single_details.commit == Some(p.id)
                    && final(self).single_details.tags == tags
                    && final(self).compare_details == old(self).compare_details)
                // cache reuse: a cached payload for exactly this identity
                // is applied, and no fetch is dispatched
                &&& (old(self).git_commit_files.cached_files_for(p) matches Some(files)
                    ==> {
                    &&& final(self).file_tree.items@ == files
                    &&& final(self).git_commit_files == old(self).git_commit_files
                    &&& r is Ok
                })
                // a cached failure for this identity: cleared tree, error up
                &&& (old(self).git_commit_files.cached_failed_for(p) ==> {
                    &&& final(self).file_tree.items@ == Seq::<String>::empty()
                    &&& final(self).git_commit_files == old(self).git_commit_files
                    &&& r == Err::<(), Error>(Error::FetchFailed)
                })
                // no usable cache: the tree is cleared before any result
                // arrives, and a fetch goes out unless the same identity is
                // already in flight
                &&& ((old(self).git_commit_files.cached_files_for(p) is None
                    && !old(self).git_commit_files.cached_failed_for(p)) ==> {
                    &&& final(self).file_tree.items@ == Seq::<String>::empty()
                    &&& final(self).git_commit_files.current == old(self).git_commit_files.current
                    &&& (old(self).git_commit_files.pending_matches(p)
                        ==> final(self).git_commit_files == old(self).git_commit_files)
                    &&& (!old(self).git_commit_files.pending_matches(p) ==> {
                        &&& final(self).git_commit_files.pending == Some(p)
                        &&& final(self).git_commit_files.requests@ == old(self).git_commit_files.requests@.push(p)
                    })
                    &&& r is Ok
                })
            },
            // the title always reflects the rows actually shown
            final(self).file_tree.title_count == final(self).file_tree.items@.len(),
            final(self).file_tree.selection == (if final(self).file_tree.items@.len() > 0 {
                Some(0usize)
            } else {
                None::<usize>
            }),
            // nothing here touches visibility, focus, or the queue
            final(self).visible == old(self).visible,
            final(self).key_config == old(self).key_config,
            final(self).file_tree.visible == old(self).file_tree.visible,
            final(self).file_tree.focused == old(self).file_tree.focused,
            final(self).file_tree.queue == old(self).file_tree.queue,
            final(self).single_details.focused == old(self).single_details.focused,
            final(self).compare_details.focused == old(self).compare_details.focused,
            old(self).focus_exclusive() ==> final(self).focus_exclusive(),
            final(self).file_tree.wf(),
    {
        if params.is_none() {
            self.single_details.set_commit(None, None);
            self.compare_details.set_commits(None);
            self.file_tree.set_commit(None);
            self.file_tree.clear();
        }

        self.commit = match &params {
            Some(p) => Some(p.clone()),
            None => None,
        };

        if let Some(id) = params {
            self.file_tree.set_commit(Some(id.id.clone()));

            match &id.other {
                Some(other) => {
                    self.compare_details.set_commits(Some((id.id.clone(), other.clone())));
                },
                None => {
                    self.single_details.set_commit(Some(id.id.clone()), tags);
                },
            }

            let mut hit_files: Option<Vec<String>> = None;
            let mut hit_failed = false;
            match &self.git_commit_files.current {
                Some((fetched_id, outcome)) => {
                    if *fetched_id == id {
                        match outcome {
                            FetchOutcome::Files(files) => {
                                let copy = files.clone();
                                proof {
                                    assert(copy@ =~= files@);
                                }
                                hit_files = Some(copy);
                            },
                            FetchOutcome::Failed => {
                                hit_failed = true;
                            },
                        }
                    }
                },
                None => {},
            }

            if let Some(files) = hit_files {
                self.file_tree.update(files);
                let count = self.get_files_title();
                self.file_tree.set_title(count);
                return Ok(());
            }
            if hit_failed {
                self.file_tree.clear();
                let count = self.get_files_title();
                self.file_tree.set_title(count);
                return Err(Error::FetchFailed);
            }

            self.file_tree.clear();
            self.git_commit_files.fetch(id);
        }

        let count = self.get_files_title();
        self.file_tree.set_title(count);

        Ok(())
    }

    /// True while the owned bridge has a fetch in flight.
    pub fn any_work_pending(&self) -> (r: bool)
        ensures
            r == (self.git_commit_files.pending is Some),
    {
        self.git_commit_files.is_pending()
    }

    pub fn files(&self) -> (r: &StatusTreeComponent)
        ensures
            r == self.file_tree,
    {
        &self.file_tree
    }

    fn details_focused(&self) -> (r: bool)
        ensures
            r == self.spec_details_focused(),
    {
        self.single_details.focused() || self.compare_details.focused()
    }

    /// Focuses (or defocuses) the detail pane of the current shape.
    fn set_details_focus(&mut self, focus: bool)
        ensures
            old(self).spec_is_compare() ==> *final(self) == (CommitDetailsComponent {
                compare_details: final(self).compare_details,
                ..*old(self)
            }) && final(self).compare_details == (CompareDetailsComponent {
                focused: focus,
                ..old(self).compare_details
            }),
            !old(self).spec_is_compare() ==> *final(self) == (CommitDetailsComponent {
                single_details: final(self).single_details,
                ..*old(self)
            }) && final(self).single_details == (DetailsComponent {
                focused: focus,
                ..old(self).single_details
            }),
    {
        if self.is_compare() {
            self.compare_details.focus(focus);
        } else {
            self.single_details.focus(focus);
        }
    }

    fn is_compare(&self) -> (r: bool)
        ensures
            r == self.spec_is_compare(),
    {
        match &self.commit {
            Some(p) => p.is_compare(),
            None => false,
        }
    }

    /// The vertical split the composite asks for: a fixed-height top region
    /// in comparison mode; otherwise percentages picked by which child has
    /// focus.
    pub open spec fn spec_constraints(self) -> (SplitConstraint, SplitConstraint) {
        if self.spec_is_compare() {
            (SplitConstraint::Length(10), SplitConstraint::Min(0))
        } else if self.file_tree.focused {
            (SplitConstraint::Percentage(40), SplitConstraint::Percentage(60))
        } else if self.spec_details_focused() {
            (SplitConstraint::Percentage(60), SplitConstraint::Percentage(40))
        } else {
            (SplitConstraint::Percentage(40), SplitConstraint::Percentage(60))
        }
    }

    /// Decides the frame's layout: nothing when invisible; otherwise the
    /// active top pane and the two stacked regions to render into. The
    /// shell draws the named pane into `top` and the file tree into
    /// `bottom`, in that order.
    pub fn draw(&self, area: Rect) -> (r: Option<DetailsLayout>)
        requires
            area.y + area.height <= u16::MAX,
        ensures
            (r is Some) == self.visible,
            r matches Some(l) ==> {
                &&& l.top_pane == (if self.spec_is_compare() {
                    TopPane::Compare
                } else {
                    TopPane::Single
                })
                &&& l.constraints == self.spec_constraints()
                &&& l.top.x == area.x && l.top.width == area.width
                &&& l.bottom.x == area.x && l.bottom.width == area.width
                &&& area.y <= l.top.y
                &&& l.top.y + l.top.height <= l.bottom.y
                &&& l.bottom.y + l.bottom.height <= area.y + area.height
            },
    {
        if !self.visible {
            return None;
        }

        let compare = self.is_compare();
        let constraints = if compare {
            (SplitConstraint::Length(10), SplitConstraint::Min(0))
        } else if self.file_tree.focused() {
            (SplitConstraint::Percentage(40), SplitConstraint::Percentage(60))
        } else if self.details_focused() {
            (SplitConstraint::Percentage(60), SplitConstraint::Percentage(40))
        } else {
            (SplitConstraint::Percentage(40), SplitConstraint::Percentage(60))
        };

        let chunks = split_vertical(area, constraints.0, constraints.1);

        Some(
            DetailsLayout {
                top_pane: if compare {
                    TopPane::Compare
                } else {
                    TopPane::Single
                },
                constraints,
                top: chunks.0,
                bottom: chunks.1,
            },
        )
    }

    /// Asks each owned child, in declared order, to append its commands;
    /// this component never owns the whole command surface.
    pub fn commands(&self, out: &mut Vec<CommandInfo>, force_all: bool) -> (r: CommandBlocking)
        ensures
            r == CommandBlocking::PassingOn,
            self.visible || force_all ==> final(out)@ == old(out)@.push(
                CommandInfo {
                    kind: crate::CommandKind::ScrollDetails,
                    enabled: self.single_details.focused,
                    order: 0,
                },
            ).push(
                CommandInfo {
                    kind: crate::CommandKind::NavigateTree,
                    enabled: self.file_tree.items@.len() > 0,
                    order: 0,
                },
            ),
            !(self.visible || force_all) ==> final(out)@ == old(out)@,
    {
        if self.visible || force_all {
            self.single_details.commands(out, force_all);
            self.compare_details.commands(out, force_all);
            self.file_tree.commands(out, force_all);
        }
        CommandBlocking::PassingOn
    }

    /// Routes the event: children first, in declared order, stopping at the
    /// first consumer — a later child never observes a consumed event. If a
    /// consumed event made the file tree leave the screen, the composite
    /// hides too. An event no child wanted may still shift focus between
    /// the detail side and the tree.
    pub fn event(&mut self, ev: Event) -> (r: EventState)
        requires
            old(self).file_tree.wf(),
        ensures
            final(self).file_tree.wf(),
            old(self).focus_exclusive() ==> final(self).focus_exclusive(),
            r == (if old(self).consumes(ev) {
                EventState::Consumed
            } else {
                EventState::NotConsumed
            }),
            // the pump's short-circuit: the first consumer stops the event
            final(self).single_details.events_seen@ == old(self).single_details.events_seen@ + 1,
            old(self).single_details.consumes(ev) ==> final(self).compare_details == old(self).compare_details && final(self).file_tree == old(self).file_tree,
            !old(self).single_details.consumes(ev) ==> final(self).compare_details.events_seen@
                == old(self).compare_details.events_seen@ + 1,
            !old(self).single_details.consumes(ev) && old(self).compare_details.consumes(ev)
                ==> final(self).file_tree == old(self).file_tree,
            !old(self).single_details.consumes(ev) && !old(self).compare_details.consumes(ev)
                ==> final(self).file_tree.events_seen@ == old(self).file_tree.events_seen@ + 1,
            // what the single-details pane did with it
            old(self).single_details.consumes(ev) && ev == Event::Key(
                old(self).single_details.key_config.move_down,
            ) ==> final(self).single_details.scroll_top == old(self).single_details.scroll_top
                + 1,
            old(self).single_details.consumes(ev) && ev != Event::Key(
                old(self).single_details.key_config.move_down,
            ) ==> final(self).single_details.scroll_top == old(self).single_details.scroll_top
                - 1,
            !old(self).single_details.consumes(ev) ==> final(self).single_details.scroll_top
                == old(self).single_details.scroll_top,
            // what the tree did with it
            old(self).tree_offered(ev) && old(self).file_tree.consumes(ev) && !old(self).file_tree.hides_on(ev) && ev == Event::Key(
                old(self).file_tree.key_config.move_down,
            ) ==> final(self).file_tree.selection == Some(
                (old(self).file_tree.selection->Some_0 + 1) as usize,
            ),
            old(self).tree_offered(ev) && old(self).file_tree.consumes(ev) && !old(self).file_tree.hides_on(ev) && ev != Event::Key(
                old(self).file_tree.key_config.move_down,
            ) ==> final(self).file_tree.selection == Some(
                (old(self).file_tree.selection->Some_0 - 1) as usize,
            ),
            !old(self).tree_offered(ev) || !old(self).file_tree.consumes(ev) || old(self).file_tree.hides_on(ev) ==> final(self).file_tree.selection == old(self).file_tree.selection,
            // the hide cascade: a consumed event that left the tree hidden
            // hides the composite as well
            old(self).tree_offered(ev) && old(self).file_tree.hides_on(ev) ==> !final(self).file_tree.visible && final(self).file_tree.queue.pending@ == old(self).file_tree.queue.pending@.push(
                crate::queue::InternalEvent::OpenPath(
                    old(self).file_tree.items@[old(self).file_tree.selection->Some_0 as int],
                ),
            ),
            !(old(self).tree_offered(ev) && old(self).file_tree.hides_on(ev)) ==> final(self).file_tree.visible == old(self).file_tree.visible && final(self).file_tree.queue
                == old(self).file_tree.queue,
            old(self).pump_consumes(ev) ==> final(self).visible == (if final(self).file_tree.visible {
                old(self).visible
            } else {
                false
            }),
            !old(self).pump_consumes(ev) ==> final(self).visible == old(self).visible,
            // focus shifts handled at this level
            old(self).shifts_focus_down(ev) ==> !final(self).single_details.focused && !final(self).compare_details.focused && final(self).file_tree.focused,
            old(self).shifts_focus_up(ev) ==> !final(self).file_tree.focused && final(self).single_details.focused && final(self).compare_details.focused == old(self).compare_details.focused,
            !old(self).shifts_focus_down(ev) && !old(self).shifts_focus_up(ev) ==> {
                &&& final(self).single_details.focused == old(self).single_details.focused
                &&& final(self).compare_details.focused == old(self).compare_details.focused
                &&& final(self).file_tree.focused == old(self).file_tree.focused
            },
            // everything else stands still
            final(self).commit == old(self).commit,
            final(self).git_commit_files == old(self).git_commit_files,
            final(self).key_config == old(self).key_config,
            final(self).file_tree.items == old(self).file_tree.items,
            final(self).file_tree.title_count == old(self).file_tree.title_count,
            final(self).single_details.commit == old(self).single_details.commit,
            final(self).compare_details.commits == old(self).compare_details.commits,
    {
        let r1 = self.single_details.event(ev);
        let consumed = if r1.is_consumed() {
            true
        } else {
            let r2 = self.compare_details.event(ev);
            if r2.is_consumed() {
                true
            } else {
                let r3 = self.file_tree.event(ev);
                r3.is_consumed()
            }
        };

        if consumed {
            if !self.file_tree.is_visible() {
                self.hide_self();
            }
            return EventState::Consumed;
        }

        if self.focused() {
            if let Event::Key(k) = ev {
                if key_match(k, self.key_config.move_down) && self.details_focused() {
                    // both detail panes are defocused, so the focus target
                    // stays unique whatever shape switches happened before
                    self.single_details.focus(false);
                    self.compare_details.focus(false);
                    self.file_tree.focus(true);
                    return EventState::Consumed;
                } else if key_match(k, self.key_config.move_up) && self.file_tree.focused()
                    && !self.is_compare() {
                    self.file_tree.focus(false);
                    self.set_details_focus(true);
                    return EventState::Consumed;
                }
                return EventState::NotConsumed;
            }
        }

        EventState::NotConsumed
    }

    pub fn is_visible(&self) -> (r: bool)
        ensures
            r == self.visible,
    {
        self.visible
    }

    pub fn hide_self(&mut self)
        ensures
            *final(self) == (CommitDetailsComponent { visible: false, ..*old(self) }),
    {
        self.visible = false;
    }

    pub fn show(&mut self)
        ensures
            final(self).visible,
            final(self).file_tree.visible,
            *final(self) == (CommitDetailsComponent {
                visible: true,
                file_tree: final(self).file_tree,
                ..*old(self)
            }),
            final(self).file_tree == (StatusTreeComponent {
                visible: true,
                ..old(self).file_tree
            }),
    {
        self.visible = true;
        self.file_tree.show();
    }

    pub fn focused(&self) -> (r: bool)
        ensures
            r == self.spec_focused(),
    {
        self.details_focused() || self.file_tree.focused()
    }

    /// Losing or taking focus always lands on the file tree: both detail
    /// panes are defocused, the tree takes the requested state, and its
    /// selection highlight is forced on.
    pub fn focus(&mut self, focus: bool)
        ensures
            final(self).focus_exclusive(),
            !final(self).single_details.focused,
            !final(self).compare_details.focused,
            final(self).file_tree.focused == focus,
            final(self).file_tree.selection_highlight,
            final(self).commit == old(self).commit,
            final(self).visible == old(self).visible,
            final(self).git_commit_files == old(self).git_commit_files,
            final(self).key_config == old(self).key_config,
            final(self).file_tree.items == old(self).file_tree.items,
            final(self).file_tree.selection == old(self).file_tree.selection,
            final(self).file_tree.visible == old(self).file_tree.visible,
            final(self).file_tree.queue == old(self).file_tree.queue,
            final(self).file_tree.wf() == old(self).file_tree.wf(),
    {
        self.single_details.focus(false);
        self.compare_details.focus(false);
        self.file_tree.focus(focus);
        self.file_tree.show_selection(true);
    }
}

} // verus!
