use vstd::prelude::*;

use crate::keys::{key_match, Event, KeyConfig};
use crate::ids::CommitId;
use crate::queue::{InternalEvent, Queue};
use crate::{CommandBlocking, CommandInfo, CommandKind, EventState};

verus! {

/// The file-tree list: renders the changed paths of a revision and owns the
/// selection. It can be cleared (no rows) while a fetch is under way, so
/// stale rows are never shown.
pub struct StatusTreeComponent {
    /// The item count shown in the list's title; the shell renders the
    /// title text around it.
    pub title_count: usize,
    /// The displayed paths, in the order the fetch produced them.
    pub items: Vec<String>,
    /// Index of the highlighted row, when there are rows.
    pub selection: Option<usize>,
    /// The revision whose files are (or will be) shown.
    pub commit: Option<CommitId>,
    pub visible: bool,
    pub focused: bool,
    /// Whether the highlighted row is drawn highlighted.
    pub selection_highlight: bool,
    /// Where an activated row is reported; the shell drains it.
    pub queue: Queue,
    pub key_config: KeyConfig,
    /// How many events this component has been offered, counted in ghost
    /// state so the short-circuit of the event pump is provable.
    pub events_seen: Ghost<nat>,
}

impl StatusTreeComponent {
    /// The selection always points at a row that exists.
    pub open spec fn wf(self) -> bool {
        match self.selection {
            Some(i) => i < self.items@.len(),
            None => true,
        }
    }

    pub open spec fn can_move_down(self) -> bool {
        match self.selection {
            Some(i) => i + 1 < self.items@.len(),
            None => false,
        }
    }

    pub open spec fn can_move_up(self) -> bool {
        match self.selection {
            Some(i) => i > 0,
            None => false,
        }
    }

    /// Which events the list takes, while visible and focused: moving the
    /// selection when it can move, and activating the selected row. A move
    /// key that cannot move (already at the edge) is left for the parent,
    /// which uses it to shift focus.
    pub open spec fn consumes(self, ev: Event) -> bool {
        match ev {
            Event::Key(k) => self.visible && self.focused && (
                (k == self.key_config.move_down && self.can_move_down())
                || (k != self.key_config.move_down && k == self.key_config.move_up
                    && self.can_move_up())
                || (k != self.key_config.move_down && k != self.key_config.move_up
                    && k == self.key_config.enter && self.selection is Some)
            ),
            Event::Other => false,
        }
    }

    /// Whether the event makes the list leave the screen as a side effect:
    /// activating a row reports it to the queue and hides the list, since
    /// the shell will navigate away.
    pub open spec fn hides_on(self, ev: Event) -> bool {
        match ev {
            Event::Key(k) => self.visible && self.focused
                && k != self.key_config.move_down && k != self.key_config.move_up
                && k == self.key_config.enter && self.selection is Some,
            Event::Other => false,
        }
    }

    pub fn new(queue: Queue, key_config: KeyConfig) -> (r: StatusTreeComponent)
        ensures
            r.title_count == 0,
            r.items@ == Seq::<String>::empty(),
            r.selection is None,
            r.commit is None,
            !r.visible,
            !r.focused,
            !r.selection_highlight,
            r.queue == queue,
            r.key_config == key_config,
            r.events_seen@ == 0,
            r.wf(),
    {
        StatusTreeComponent {
            title_count: 0,
            items: Vec::new(),
            selection: None,
            commit: None,
            visible: false,
            focused: false,
            selection_highlight: false,
            queue,
            key_config,
            events_seen: Ghost(0),
        }
    }

    pub fn file_count(&self) -> (r: usize)
        ensures
            r == self.items@.len(),
    {
        self.items.len()
    }

    pub fn set_title(&mut self, count: usize)
        ensures
            *final(self) == (StatusTreeComponent { title_count: count, ..*old(self) }),
    {
        self.title_count = count;
    }

    pub fn set_commit(&mut self, commit: Option<CommitId>)
        ensures
            *final(self) == (StatusTreeComponent { commit, ..*old(self) }),
    {
        self.commit = commit;
    }

    /// Replaces the rows with a freshly fetched list; the selection restarts
    /// at the top when there is anything to select.
    pub fn update(&mut self, files: Vec<String>)
        ensures
            final(self).items == files,
            final(self).selection == if files@.len() > 0 {
                Some(0usize)
            } else {
                None::<usize>
            },
            *final(self) == (StatusTreeComponent {
                items: final(self).items,
                selection: final(self).selection,
                ..*old(self)
            }),
            final(self).wf(),
    {
        self.selection = if files.len() > 0 {
            Some(0)
        } else {
            None
        };
        self.items = files;
    }

    /// Empties the list, so nothing stale is shown while a fetch runs.
    pub fn clear(&mut self)
        ensures
            final(self).items@ == Seq::<String>::empty(),
            final(self).selection is None,
            *final(self) == (StatusTreeComponent {
                items: final(self).items,
                selection: None,
                ..*old(self)
            }),
            final(self).wf(),
    {
        self.items = Vec::new();
        self.selection = None;
    }

    pub fn is_visible(&self) -> (r: bool)
        ensures
            r == self.visible,
    {
        self.visible
    }

    pub fn show(&mut self)
        ensures
            *final(self) == (StatusTreeComponent { visible: true, ..*old(self) }),
    {
        self.visible = true;
    }

    pub fn hide_self(&mut self)
        ensures
            *final(self) == (StatusTreeComponent { visible: false, ..*old(self) }),
    {
        self.visible = false;
    }

    pub fn focused(&self) -> (r: bool)
        ensures
            r == self.focused,
    {
        self.focused
    }

    pub fn focus(&mut self, focus: bool)
        ensures
            *final(self) == (StatusTreeComponent { focused: focus, ..*old(self) }),
    {
        self.focused = focus;
    }

    pub fn show_selection(&mut self, show: bool)
        ensures
            *final(self) == (StatusTreeComponent { selection_highlight: show, ..*old(self) }),
    {
        self.selection_highlight = show;
    }

    /// Advertises selection movement; the list never owns the whole command
    /// surface.
    pub fn commands(&self, out: &mut Vec<CommandInfo>, _force_all: bool) -> (r: CommandBlocking)
        ensures
            final(out)@ == old(out)@.push(
                CommandInfo {
                    kind: CommandKind::NavigateTree,
                    enabled: self.items@.len() > 0,
                    order: 0,
                },
            ),
            r == CommandBlocking::PassingOn,
    {
        out.push(CommandInfo {
            kind: CommandKind::NavigateTree,
            enabled: self.items.len() > 0,
            order: 0,
        });
        CommandBlocking::PassingOn
    }

    /// Moves the selection, or activates the selected row: the row's path
    /// goes to the queue and the list hides itself, since the shell will
    /// navigate away. Consumes exactly the events `consumes` names.
    pub fn event(&mut self, ev: Event) -> (r: EventState)
        requires
            old(self).wf(),
        ensures
            final(self).wf(),
            final(self).events_seen@ == old(self).events_seen@ + 1,
            r == (if old(self).consumes(ev) {
                EventState::Consumed
            } else {
                EventState::NotConsumed
            }),
            // selection movement
            old(self).consumes(ev) && !old(self).hides_on(ev)
                && ev == Event::Key(old(self).key_config.move_down)
                ==> final(self).selection == Some((old(self).selection->Some_0 + 1) as usize),
            old(self).consumes(ev) && !old(self).hides_on(ev)
                && ev != Event::Key(old(self).key_config.move_down)
                ==> final(self).selection == Some((old(self).selection->Some_0 - 1) as usize),
            !old(self).consumes(ev) || old(self).hides_on(ev)
                ==> final(self).selection == old(self).selection,
            // activation hides the list and reports the row
            old(self).hides_on(ev) ==> {
                &&& !final(self).visible
                &&& final(self).queue.pending@ == old(self).queue.pending@.push(
                    InternalEvent::OpenPath(old(self).items@[old(self).selection->Some_0 as int]),
                )
            },
            !old(self).hides_on(ev) ==> {
                &&& final(self).visible == old(self).visible
                &&& final(self).queue == old(self).queue
            },
            // everything else stands still
            final(self).items == old(self).items,
            final(self).title_count == old(self).title_count,
            final(self).commit == old(self).commit,
            final(self).focused == old(self).focused,
            final(self).selection_highlight == old(self).selection_highlight,
            final(self).key_config == old(self).key_config,
    {
        self.events_seen = Ghost(self.events_seen@ + 1);
        if let Event::Key(k) = ev {
            if self.visible && self.focused {
                if key_match(k, self.key_config.move_down) {
                    if let Some(i) = self.selection {
                        if i < self.items.len() - 1 {
                            self.selection = Some(i + 1);
                            return EventState::Consumed;
                        }
                    }
                } else if key_match(k, self.key_config.move_up) {
                    if let Some(i) = self.selection {
                        if i > 0 {
                            self.selection = Some(i - 1);
                            return EventState::Consumed;
                        }
                    }
                } else if key_match(k, self.key_config.enter) {
                    if let Some(i) = self.selection {
                        let path = self.items[i].clone();
                        self.queue.push(InternalEvent::OpenPath(path));
                        self.visible = false;
                        return EventState::Consumed;
                    }
                }
            }
        }
        EventState::NotConsumed
    }
}

} // verus!
