use vstd::prelude::*;

use crate::bridge::{FetchBridge, FetchNotification, FetchOutcome};
use crate::error::Error;
use crate::ids::{CommitFilesParams, CommitId};
use crate::keys::{Event, KeyConfig};
use crate::queue::Queue;
use crate::tree::StatusTreeComponent;
use crate::{CommandBlocking, CommandInfo, EventState};

verus! {

/// The revision-files browser the popup wraps: a file tree tied to one
/// revision, fed by its own async bridge. It matches every delivered
/// notification against the revision it currently wants, so a result that
/// was superseded by a later `set_commit` is silently discarded.
pub struct RevisionFilesComponent {
    /// The revision whose files are wanted.
    pub revision: Option<CommitId>,
    pub tree: StatusTreeComponent,
    pub bridge: FetchBridge,
    pub visible: bool,
    pub key_config: KeyConfig,
}

impl RevisionFilesComponent {
    /// The single-revision identity this component fetches under.
    pub open spec fn wants(self, p: CommitFilesParams) -> bool {
        match self.revision {
            Some(rev) => p.other is None && p.id@ == rev@,
            None => false,
        }
    }

    /// Which events the browser takes: whatever its tree takes.
    pub open spec fn consumes(self, ev: Event) -> bool {
        self.tree.consumes(ev)
    }

    /// Whether handling the event leaves the browser invisible: its tree
    /// hid itself (a row was activated), or it was invisible already.
    pub open spec fn visible_after(self, ev: Event) -> bool {
        self.visible && !self.tree.hides_on(ev)
    }

    pub fn new(queue: Queue, key_config: KeyConfig) -> (r: RevisionFilesComponent)
        ensures
            r.revision is None,
            !r.visible,
            r.key_config == key_config,
            r.tree.items@ == Seq::<String>::empty(),
            r.tree.selection is None,
            !r.tree.focused,
            r.tree.queue == queue,
            r.bridge.current is None,
            r.bridge.pending is None,
            r.bridge.requests@ == Seq::<CommitFilesParams>::empty(),
            r.tree.wf(),
    {
        RevisionFilesComponent {
            revision: None,
            tree: StatusTreeComponent::new(queue, key_config),
            bridge: FetchBridge::new(),
            visible: false,
            key_config,
        }
    }

    /// Points the browser at a revision and reconciles the tree with the
    /// bridge's cache, exactly as the commit-details composite does: a
    /// cached payload for this revision is shown without a fetch; anything
    /// else clears the tree and dispatches a fetch, unless the same
    /// identity is already in flight. A cached failure is reported, with
    /// the tree left cleared.
    pub fn set_commit(&mut self, commit: CommitId) -> (r: Result<(), Error>)
        ensures
            final(self).revision == Some(commit),
            final(self).tree.commit == Some(commit),
            final(self).visible == old(self).visible,
            final(self).key_config == old(self).key_config,
            final(self).tree.visible == old(self).tree.visible,
            final(self).tree.focused == old(self).tree.focused,
            final(self).tree.queue == old(self).tree.queue,
            final(self).tree.title_count == final(self).tree.items@.len(),
            final(self).tree.wf(),
            ({
                let p = CommitFilesParams { id: commit, other: None };
                &&& (old(self).bridge.cached_files_for(p) matches Some(files) ==> {
                    &&& final(self).tree.items@ == files
                    &&& final(self).bridge == old(self).bridge
                    &&& r is Ok
                })
                &&& (old(self).bridge.cached_failed_for(p) ==> {
                    &&& final(self).tree.items@ == Seq::<String>::empty()
                    &&& final(self).bridge == old(self).bridge
                    &&& r == Err::<(), Error>(Error::FetchFailed)
                })
                &&& ((old(self).bridge.cached_files_for(p) is None && !old(self).bridge.cached_failed_for(p)) ==> {
                    &&& final(self).tree.items@ == Seq::<String>::empty()
                    &&& final(self).bridge.current == old(self).bridge.current
                    &&& (old(self).bridge.pending_matches(p) ==> final(self).bridge == old(self).bridge)
                    &&& (!old(self).bridge.pending_matches(p) ==> final(self).bridge.pending
                        == Some(p) && final(self).bridge.requests@ == old(self).bridge.requests@.push(p))
                    &&& r is Ok
                })
            }),
    {
        self.revision = Some(commit.clone());
        self.tree.set_commit(Some(commit.clone()));
        let p = CommitFilesParams { id: commit, other: None };

        let mut hit_files: Option<Vec<String>> = None;
        let mut hit_failed = false;
        match &self.bridge.current {
            Some((fetched_id, outcome)) => {
                if *fetched_id == p {
                    match outcome {
                        FetchOutcome::Files(files) => {
                            let copy = files.clone();
                            proof {
                                assert(copy@ =~= files@);
                            }
                            hit_files = Some(copy);
                        },
                        FetchOutcome::Failed => {
                            hit_failed = true;
                        },
                    }
                }
            },
            None => {},
        }

        if let Some(files) = hit_files {
            self.tree.update(files);
            let count = self.tree.file_count();
            self.tree.set_title(count);
            return Ok(());
        }
        if hit_failed {
            self.tree.clear();
            let count = self.tree.file_count();
            self.tree.set_title(count);
            return Err(Error::FetchFailed);
        }

        self.tree.clear();
        self.bridge.fetch(p);
        let count = self.tree.file_count();
        self.tree.set_title(count);
        Ok(())
    }

    /// Takes a completed fetch from the notification channel. The payload
    /// reaches the tree only when its identity is exactly the revision
    /// wanted now: a result superseded by a later `set_commit` is recorded
    /// in the bridge but never shown.
    pub fn update(&mut self, n: FetchNotification)
        ensures
            final(self).bridge.current == Some((n.params, n.outcome)),
            final(self).bridge.requests == old(self).bridge.requests,
            final(self).revision == old(self).revision,
            final(self).visible == old(self).visible,
            final(self).key_config == old(self).key_config,
            old(self).wants(n.params) ==> (n.outcome matches FetchOutcome::Files(files) ==> {
                &&& final(self).tree.items@ == files@
                &&& final(self).tree.title_count == files@.len()
            }),
            old(self).wants(n.params) && n.outcome is Failed ==> final(self).tree.items@
                == Seq::<String>::empty(),
            old(self).wants(n.params) ==> final(self).tree.title_count == final(self).tree.items@.len(),
            old(self).wants(n.params) ==> (n.outcome matches FetchOutcome::Files(files)
                ==> final(self).tree.selection == (if files@.len() > 0 {
                Some(0usize)
            } else {
                None::<usize>
            })),
            old(self).wants(n.params) && n.outcome is Failed ==> final(self).tree.selection
                is None,
            !old(self).wants(n.params) ==> final(self).tree == old(self).tree,
            final(self).tree.visible == old(self).tree.visible,
            final(self).tree.focused == old(self).tree.focused,
            final(self).tree.queue == old(self).tree.queue,
            old(self).tree.wf() ==> final(self).tree.wf(),
    {
        let wanted = match &self.revision {
            Some(rev) => n.params.other.is_none() && *rev == n.params.id,
            None => false,
        };

        if wanted {
            match &n.outcome {
                FetchOutcome::Files(files) => {
                    let copy = files.clone();
                    proof {
                        assert(copy@ =~= files@);
                    }
                    self.tree.update(copy);
                },
                FetchOutcome::Failed => {
                    self.tree.clear();
                },
            }
            let count = self.tree.file_count();
            self.tree.set_title(count);
        }

        self.bridge.resolve(n.params, n.outcome);
    }

    pub fn any_work_pending(&self) -> (r: bool)
        ensures
            r == (self.bridge.pending is Some),
    {
        self.bridge.is_pending()
    }

    /// Moves the selection to the first row showing the path, when one
    /// does; otherwise the selection stands still.
    pub fn find_file(&mut self, path: &String)
        requires
            old(self).tree.wf(),
        ensures
            final(self).tree.wf(),
            (exists|i: int|
                0 <= i < old(self).tree.items@.len() && old(self).tree.items@[i]@ == path@)
                ==> {
                &&& final(self).tree.selection matches Some(s)
                &&& old(self).tree.items@[s as int]@ == path@
                &&& forall|j: int| 0 <= j < s ==> old(self).tree.items@[j]@ != path@
            },
            !(exists|i: int|
                0 <= i < old(self).tree.items@.len() && old(self).tree.items@[i]@ == path@)
                ==> final(self).tree.selection == old(self).tree.selection,
            *final(self) == (RevisionFilesComponent { tree: final(self).tree, ..*old(self) }),
            final(self).tree == (StatusTreeComponent {
                selection: final(self).tree.selection,
                ..old(self).tree
            }),
    {
        let mut i: usize = 0;
        let n = self.tree.items.len();
        while i < n
            invariant
                n == self.tree.items@.len(),
                0 <= i <= n,
                forall|j: int| 0 <= j < i ==> self.tree.items@[j]@ != path@,
                self.tree.wf(),
                *self == (RevisionFilesComponent { tree: self.tree, ..*old(self) }),
                self.tree == (StatusTreeComponent { selection: self.tree.selection, ..old(self).tree }),
                self.tree.selection == old(self).tree.selection,
            decreases n - i,
        {
            if self.tree.items[i] == *path {
                self.tree.selection = Some(i);
                return ;
            }
            i = i + 1;
        }
    }

    /// The revision currently wanted, for saving resumable state.
    pub fn revision(&self) -> (r: Option<CommitId>)
        ensures
            r == self.revision,
    {
        match &self.revision {
            Some(rev) => Some(rev.clone()),
            None => None,
        }
    }

    /// The selected row's index, for saving resumable state.
    pub fn selection(&self) -> (r: Option<usize>)
        ensures
            r == self.tree.selection,
    {
        self.tree.selection
    }

    pub fn is_visible(&self) -> (r: bool)
        ensures
            r == self.visible,
    {
        self.visible
    }

    /// Shows the browser; its tree comes onto the screen with it.
    pub fn show(&mut self)
        ensures
            final(self).visible,
            final(self).tree.visible,
            *final(self) == (RevisionFilesComponent {
                visible: true,
                tree: final(self).tree,
                ..*old(self)
            }),
            final(self).tree == (StatusTreeComponent { visible: true, ..old(self).tree }),
    {
        self.visible = true;
        self.tree.show();
    }

    pub fn hide_self(&mut self)
        ensures
            *final(self) == (RevisionFilesComponent { visible: false, ..*old(self) }),
    {
        self.visible = false;
    }

    /// Forwards the tree's commands.
    pub fn commands(&self, out: &mut Vec<CommandInfo>, force_all: bool) -> (r: CommandBlocking)
        ensures
            final(out)@ == old(out)@.push(
                CommandInfo {
                    kind: crate::CommandKind::NavigateTree,
                    enabled: self.tree.items@.len() > 0,
                    order: 0,
                },
            ),
            r == CommandBlocking::PassingOn,
    {
        self.tree.commands(out, force_all)
    }

    /// Offers the event to the tree; if the tree consumed it and left the
    /// screen as a side effect, the browser leaves the screen with it.
    pub fn event(&mut self, ev: Event) -> (r: EventState)
        requires
            old(self).tree.wf(),
        ensures
            final(self).tree.wf(),
            final(self).tree.events_seen@ == old(self).tree.events_seen@ + 1,
            r == (if old(self).consumes(ev) {
                EventState::Consumed
            } else {
                EventState::NotConsumed
            }),
            final(self).visible == old(self).visible_after(ev),
            // what the tree did with it
            old(self).tree.consumes(ev) && !old(self).tree.hides_on(ev) && ev == Event::Key(
                old(self).tree.key_config.move_down,
            ) ==> final(self).tree.selection == Some(
                (old(self).tree.selection->Some_0 + 1) as usize,
            ),
            old(self).tree.consumes(ev) && !old(self).tree.hides_on(ev) && ev != Event::Key(
                old(self).tree.key_config.move_down,
            ) ==> final(self).tree.selection == Some(
                (old(self).tree.selection->Some_0 - 1) as usize,
            ),
            !old(self).tree.consumes(ev) || old(self).tree.hides_on(ev) ==> final(self).tree.selection == old(self).tree.selection,
            old(self).tree.hides_on(ev) ==> !final(self).tree.visible && final(self).tree.queue.pending@ == old(self).tree.queue.pending@.push(
                crate::queue::InternalEvent::OpenPath(
                    old(self).tree.items@[old(self).tree.selection->Some_0 as int],
                ),
            ),
            !old(self).tree.hides_on(ev) ==> final(self).tree.visible == old(self).tree.visible
                && final(self).tree.queue == old(self).tree.queue,
            // everything else stands still
            final(self).revision == old(self).revision,
            final(self).bridge == old(self).bridge,
            final(self).key_config == old(self).key_config,
            final(self).tree.items == old(self).tree.items,
            final(self).tree.title_count == old(self).tree.title_count,
            final(self).tree.focused == old(self).tree.focused,
    {
        let res = self.tree.event(ev);
        if res.is_consumed() && !self.tree.is_visible() {
            self.visible = false;
        }
        res
    }
}

} // verus!
