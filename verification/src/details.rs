use vstd::prelude::*;

use crate::keys::{key_match, Event, KeyConfig};
use crate::ids::CommitId;
use crate::{CommandBlocking, CommandInfo, CommandKind, EventState};

verus! {

/// The single-revision details panel: a leaf that renders a fixed-identity
/// payload. Its text comes from the repository, so the shell hands the
/// rendered line count in through `set_content_lines`; the leaf only keeps
/// the scroll position inside that extent.
pub struct DetailsComponent {
    pub commit: Option<CommitId>,
    /// Tag names attached to the shown revision, if the shell knows them.
    pub tags: Option<Vec<String>>,
    /// How many lines the rendered payload has.
    pub content_lines: usize,
    /// First visible line.
    pub scroll_top: usize,
    pub focused: bool,
    pub key_config: KeyConfig,
    /// How many events this leaf has been offered, counted in ghost state
    /// so the short-circuit of the event pump is provable.
    pub events_seen: Ghost<nat>,
}

impl DetailsComponent {
    pub open spec fn can_scroll_down(self) -> bool {
        self.scroll_top + 1 < self.content_lines
    }

    pub open spec fn can_scroll_up(self) -> bool {
        self.scroll_top > 0
    }

    /// Which events this leaf takes: scrolling, only while focused and only
    /// when there is room to scroll. A key that cannot scroll any further is
    /// left for the parent, which uses it to move focus.
    pub open spec fn consumes(self, ev: Event) -> bool {
        match ev {
            Event::Key(k) => self.focused && (
                (k == self.key_config.move_down && self.can_scroll_down())
                || (k != self.key_config.move_down && k == self.key_config.move_up
                    && self.can_scroll_up())
            ),
            Event::Other => false,
        }
    }

    pub fn new(key_config: KeyConfig) -> (r: DetailsComponent)
        ensures
            r.commit is None,
            r.tags is None,
            r.content_lines == 0,
            r.scroll_top == 0,
            !r.focused,
            r.key_config == key_config,
            r.events_seen@ == 0,
    {
        DetailsComponent {
            commit: None,
            tags: None,
            content_lines: 0,
            scroll_top: 0,
            focused: false,
            key_config,
            events_seen: Ghost(0),
        }
    }

    /// Points the panel at a revision (or nothing) and rewinds the scroll.
    pub fn set_commit(&mut self, commit: Option<CommitId>, tags: Option<Vec<String>>)
        ensures
            final(self).commit == commit,
            final(self).tags == tags,
            final(self).scroll_top == 0,
            final(self).content_lines == old(self).content_lines,
            final(self).focused == old(self).focused,
            final(self).key_config == old(self).key_config,
            final(self).events_seen == old(self).events_seen,
    {
        self.commit = commit;
        self.tags = tags;
        self.scroll_top = 0;
    }

    /// The shell reports how many lines the rendered payload occupies.
    pub fn set_content_lines(&mut self, lines: usize)
        ensures
            final(self).content_lines == lines,
            final(self).scroll_top == 0,
            final(self).commit == old(self).commit,
            final(self).tags == old(self).tags,
            final(self).focused == old(self).focused,
            final(self).key_config == old(self).key_config,
            final(self).events_seen == old(self).events_seen,
    {
        self.content_lines = lines;
        self.scroll_top = 0;
    }

    pub fn focused(&self) -> (r: bool)
        ensures
            r == self.focused,
    {
        self.focused
    }

    pub fn focus(&mut self, focus: bool)
        ensures
            final(self).focused == focus,
            final(self).commit == old(self).commit,
            final(self).tags == old(self).tags,
            final(self).content_lines == old(self).content_lines,
            final(self).scroll_top == old(self).scroll_top,
            final(self).key_config == old(self).key_config,
            final(self).events_seen == old(self).events_seen,
    {
        self.focused = focus;
    }

    /// Advertises the scroll command; the panel never owns the whole
    /// command surface.
    pub fn commands(&self, out: &mut Vec<CommandInfo>, _force_all: bool) -> (r: CommandBlocking)
        ensures
            final(out)@ == old(out)@.push(
                CommandInfo { kind: CommandKind::ScrollDetails, enabled: self.focused, order: 0 },
            ),
            r == CommandBlocking::PassingOn,
    {
        out.push(CommandInfo { kind: CommandKind::ScrollDetails, enabled: self.focused, order: 0 });
        CommandBlocking::PassingOn
    }

    /// Scrolls while focused; consumes exactly the events `consumes` names.
    pub fn event(&mut self, ev: Event) -> (r: EventState)
        ensures
            final(self).events_seen@ == old(self).events_seen@ + 1,
            r == (if old(self).consumes(ev) {
                EventState::Consumed
            } else {
                EventState::NotConsumed
            }),
            old(self).consumes(ev) && ev == Event::Key(old(self).key_config.move_down)
                ==> final(self).scroll_top == old(self).scroll_top + 1,
            old(self).consumes(ev) && ev != Event::Key(old(self).key_config.move_down)
                ==> final(self).scroll_top == old(self).scroll_top - 1,
            !old(self).consumes(ev) ==> final(self).scroll_top == old(self).scroll_top,
            final(self).commit == old(self).commit,
            final(self).tags == old(self).tags,
            final(self).content_lines == old(self).content_lines,
            final(self).focused == old(self).focused,
            final(self).key_config == old(self).key_config,
    {
        self.events_seen = Ghost(self.events_seen@ + 1);
        if let Event::Key(k) = ev {
            if self.focused {
                if key_match(k, self.key_config.move_down) {
                    if self.content_lines > 0 && self.scroll_top < self.content_lines - 1 {
                        self.scroll_top = self.scroll_top + 1;
                        return EventState::Consumed;
                    }
                } else if key_match(k, self.key_config.move_up) {
                    if self.scroll_top > 0 {
                        self.scroll_top = self.scroll_top - 1;
                        return EventState::Consumed;
                    }
                }
            }
        }
        EventState::NotConsumed
    }
}

/// The comparison details panel: a leaf that renders the two revisions
/// being compared. It keeps no scroll state and takes no events.
pub struct CompareDetailsComponent {
    pub commits: Option<(CommitId, CommitId)>,
    pub focused: bool,
    /// See `DetailsComponent::events_seen`.
    pub events_seen: Ghost<nat>,
}

impl CompareDetailsComponent {
    /// This leaf consumes nothing: every event passes on.
    pub open spec fn consumes(self, ev: Event) -> bool {
        false
    }

    pub fn new() -> (r: CompareDetailsComponent)
        ensures
            r.commits is None,
            !r.focused,
            r.events_seen@ == 0,
    {
        CompareDetailsComponent { commits: None, focused: false, events_seen: Ghost(0) }
    }

    pub fn set_commits(&mut self, commits: Option<(CommitId, CommitId)>)
        ensures
            final(self).commits == commits,
            final(self).focused == old(self).focused,
            final(self).events_seen == old(self).events_seen,
    {
        self.commits = commits;
    }

    pub fn focused(&self) -> (r: bool)
        ensures
            r == self.focused,
    {
        self.focused
    }

    pub fn focus(&mut self, focus: bool)
        ensures
            final(self).focused == focus,
            final(self).commits == old(self).commits,
            final(self).events_seen == old(self).events_seen,
    {
        self.focused = focus;
    }

    /// This panel advertises no commands of its own.
    pub fn commands(&self, out: &mut Vec<CommandInfo>, _force_all: bool) -> (r: CommandBlocking)
        ensures
            final(out)@ == old(out)@,
            r == CommandBlocking::PassingOn,
    {
        CommandBlocking::PassingOn
    }

    pub fn event(&mut self, ev: Event) -> (r: EventState)
        ensures
            final(self).events_seen@ == old(self).events_seen@ + 1,
            r == EventState::NotConsumed,
            final(self).commits == old(self).commits,
            final(self).focused == old(self).focused,
    {
        self.events_seen = Ghost(self.events_seen@ + 1);
        EventState::NotConsumed
    }
}

} // verus!
