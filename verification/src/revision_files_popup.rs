use vstd::prelude::*;

use crate::bridge::FetchNotification;
use crate::error::Error;
use crate::ids::{CommitFilesParams, CommitId};
use crate::keys::{key_match, Event, KeyConfig};
use crate::layout::Rect;
use crate::queue::{InternalEvent, Queue, StackablePopupOpen};
use crate::revision_files::RevisionFilesComponent;
use crate::{CommandBlocking, CommandInfo, CommandKind, EventState};

verus! {

/// How the revision-files popup was asked to open: the revision to show and,
/// when replayed from the popup stack, the selection to restore.
#[derive(Debug)]
pub struct FileTreeOpen {
    pub commit_id: CommitId,
    pub selection: Option<usize>,
}

impl FileTreeOpen {
    pub fn new(commit_id: CommitId) -> (r: FileTreeOpen)
        ensures
            r.commit_id == commit_id,
            r.selection is None,
    {
        FileTreeOpen { commit_id, selection: None }
    }
}

impl Clone for FileTreeOpen {
    fn clone(&self) -> (r: Self)
        ensures
            r == *self,
    {
        FileTreeOpen { commit_id: self.commit_id.clone(), selection: self.selection }
    }
}

/// The revision-files browser wrapped as a stackable popup: visibility
/// gating, an open/close lifecycle, and — when it is dismissed by its own
/// content rather than by the exit key — a reopen token pushed to the
/// outer navigation queue so the shell can resume it later.
pub struct RevisionFilesPopup {
    /// The request the popup was last opened with; kept for the record,
    /// consumed state lives in the inner browser.
    pub open_request: Option<FileTreeOpen>,
    pub visible: bool,
    pub key_config: KeyConfig,
    pub files: RevisionFilesComponent,
    /// Where dismissals are reported; the shell drains it.
    pub queue: Queue,
}

impl RevisionFilesPopup {
    /// Whether the event is the explicit exit key: the one dismissal that
    /// must not save resumable state.
    pub open spec fn exit_hit(self, ev: Event) -> bool {
        ev matches Event::Key(k) && k == self.key_config.exit_popup
    }

    /// Whether handling the event makes the inner browser end up hidden
    /// after consuming it: the dismissal that stacks.
    pub open spec fn stacks_on(self, ev: Event) -> bool {
        self.files.tree.consumes(ev) && !self.files.visible_after(ev)
    }

    pub fn new(queue: Queue, inner_queue: Queue, key_config: KeyConfig) -> (r: RevisionFilesPopup)
        ensures
            r.open_request is None,
            !r.visible,
            r.key_config == key_config,
            r.queue == queue,
            r.files.revision is None,
            !r.files.visible,
            r.files.tree.items@ == Seq::<String>::empty(),
            r.files.tree.queue == inner_queue,
            r.files.bridge.current is None,
            r.files.bridge.pending is None,
            r.files.bridge.requests@ == Seq::<crate::ids::CommitFilesParams>::empty(),
            r.files.tree.wf(),
    {
        RevisionFilesPopup {
            open_request: None,
            visible: false,
            key_config,
            files: RevisionFilesComponent::new(inner_queue, key_config),
            queue,
        }
    }

    /// Opens the popup on the requested revision: the identity goes to the
    /// inner browser, the request is recorded, and the popup becomes
    /// visible. Fails only when the inner identity-setting fails (a cached
    /// failed fetch), and then records nothing and shows nothing.
    pub fn open(&mut self, request: FileTreeOpen) -> (r: Result<(), Error>)
        ensures
            final(self).key_config == old(self).key_config,
            final(self).queue == old(self).queue,
            (r is Err) == old(self).files.bridge.cached_failed_for(
                CommitFilesParams { id: request.commit_id, other: None },
            ),
            r is Ok ==> {
                &&& final(self).visible
                &&& final(self).files.visible
                &&& final(self).files.tree.visible
                &&& final(self).open_request == Some(request)
                &&& final(self).files.revision == Some(request.commit_id)
            },
            r is Err ==> {
                &&& r == Err::<(), Error>(Error::FetchFailed)
                &&& final(self).visible == old(self).visible
                &&& final(self).open_request == old(self).open_request
                &&& final(self).files.revision == Some(request.commit_id)
                &&& final(self).files.tree.items@ == Seq::<String>::empty()
            },
            final(self).files.tree.wf(),
    {
        let id = request.commit_id.clone();
        match self.files.set_commit(id) {
            Ok(()) => {},
            Err(e) => {
                return Err(e);
            },
        }
        self.open_request = Some(request);
        // visibility moves together on open: the popup and its content
        self.files.show();
        self.show();
        Ok(())
    }

    /// Forwards a completed fetch to the inner browser, which alone matches
    /// its identity against the revision it wants.
    pub fn update(&mut self, ev: FetchNotification)
        ensures
            final(self).files.bridge.current == Some((ev.params, ev.outcome)),
            old(self).files.wants(ev.params) ==> (ev.outcome matches
                crate::bridge::FetchOutcome::Files(files) ==> final(self).files.tree.items@
                == files@),
            old(self).files.wants(ev.params) && ev.outcome is Failed ==> final(self).files.tree.items@ == Seq::<String>::empty(),
            old(self).files.wants(ev.params) ==> final(self).files.tree.title_count == final(self).files.tree.items@.len(),
            !old(self).files.wants(ev.params) ==> final(self).files.tree == old(self).files.tree,
            final(self).files.bridge.requests == old(self).files.bridge.requests,
            final(self).files.tree.visible == old(self).files.tree.visible,
            final(self).files.tree.focused == old(self).files.tree.focused,
            old(self).files.wants(ev.params) ==> (ev.outcome matches
                crate::bridge::FetchOutcome::Files(files) ==> final(self).files.tree.selection
                == (if files@.len() > 0 {
                Some(0usize)
            } else {
                None::<usize>
            })),
            !old(self).files.wants(ev.params) ==> final(self).files.tree.selection == old(self).files.tree.selection,
            final(self).files.tree.queue == old(self).files.tree.queue,
            final(self).files.revision == old(self).files.revision,
            final(self).visible == old(self).visible,
            final(self).open_request == old(self).open_request,
            final(self).queue == old(self).queue,
            final(self).key_config == old(self).key_config,
            old(self).files.tree.wf() ==> final(self).files.tree.wf(),
    {
        self.files.update(ev);
    }

    /// True while the inner browser's bridge has a fetch in flight.
    pub fn any_work_pending(&self) -> (r: bool)
        ensures
            r == (self.files.bridge.pending is Some),
    {
        self.files.any_work_pending()
    }

    /// The file finder picked a path: select it in the inner tree.
    pub fn file_finder_update(&mut self, file: &String)
        requires
            old(self).files.tree.wf(),
        ensures
            final(self).files.tree.wf(),
            (exists|i: int|
                0 <= i < old(self).files.tree.items@.len() && old(self).files.tree.items@[i]@
                    == file@) ==> {
                &&& final(self).files.tree.selection matches Some(s)
                &&& old(self).files.tree.items@[s as int]@ == file@
                &&& forall|j: int| 0 <= j < s ==> old(self).files.tree.items@[j]@ != file@
            },
            !(exists|i: int|
                0 <= i < old(self).files.tree.items@.len() && old(self).files.tree.items@[i]@
                    == file@) ==> final(self).files.tree.selection == old(self).files.tree.selection,
            final(self).visible == old(self).visible,
            final(self).open_request == old(self).open_request,
            final(self).queue == old(self).queue,
            final(self).key_config == old(self).key_config,
            final(self).files.revision == old(self).files.revision,
            final(self).files.bridge == old(self).files.bridge,
            final(self).files.visible == old(self).files.visible,
            final(self).files.tree.items == old(self).files.tree.items,
    {
        self.files.find_file(file);
    }

    /// Dismisses the popup. In stacking mode the inner browser's revision
    /// and selection leave as one reopen token; otherwise the shell is
    /// asked to pop the layer, saving nothing.
    fn hide_stacked(&mut self, stack: bool)
        ensures
            !final(self).visible,
            final(self).files == old(self).files,
            final(self).open_request == old(self).open_request,
            final(self).key_config == old(self).key_config,
            stack ==> (old(self).files.revision matches Some(rev)
                ==> final(self).queue.pending@ == old(self).queue.pending@.push(
                InternalEvent::PopupStackPush(
                    StackablePopupOpen::FileTree(
                        FileTreeOpen {
                            commit_id: rev,
                            selection: old(self).files.tree.selection,
                        },
                    ),
                ),
            )),
            stack && old(self).files.revision is None ==> final(self).queue == old(self).queue,
            !stack ==> final(self).queue.pending@ == old(self).queue.pending@.push(
                InternalEvent::PopupStackPop,
            ),
    {
        self.hide_self();

        if stack {
            let rev = self.files.revision();
            if let Some(revision) = rev {
                let selection = self.files.selection();
                self.queue.push(
                    InternalEvent::PopupStackPush(
                        StackablePopupOpen::FileTree(
                            FileTreeOpen { commit_id: revision, selection },
                        ),
                    ),
                );
            }
        } else {
            self.queue.push(InternalEvent::PopupStackPop);
        }
    }

    /// While visible: the explicit exit key always dismisses without
    /// saving state, checked before the event is handed on; then the event
    /// goes to the inner browser, and if consuming it made the browser
    /// leave the screen, the popup dismisses itself in stacking mode —
    /// that dismissal, and only that one, is resumable.
    pub fn event(&mut self, ev: Event) -> (r: EventState)
        requires
            old(self).files.tree.wf(),
        ensures
            final(self).files.tree.wf(),
            !old(self).visible ==> *final(self) == *old(self) && r == EventState::NotConsumed,
            old(self).visible ==> {
                &&& r == (if old(self).files.tree.consumes(ev) {
                    EventState::Consumed
                } else {
                    EventState::NotConsumed
                })
                &&& final(self).visible == !(old(self).exit_hit(ev) || old(self).stacks_on(ev))
                    && old(self).visible
                &&& final(self).files.visible == old(self).files.visible_after(ev)
                &&& final(self).files.revision == old(self).files.revision
                &&& final(self).files.bridge == old(self).files.bridge
                &&& final(self).open_request == old(self).open_request
                // the event reaches the inner browser's tree exactly once,
                // and does to it what the tree's own contract says
                &&& final(self).files.tree.events_seen@ == old(self).files.tree.events_seen@
                    + 1
                &&& final(self).files.tree.items == old(self).files.tree.items
                &&& final(self).files.tree.title_count == old(self).files.tree.title_count
                &&& final(self).files.tree.focused == old(self).files.tree.focused
                &&& final(self).files.tree.visible == (if old(self).files.tree.hides_on(ev) {
                    false
                } else {
                    old(self).files.tree.visible
                })
                &&& (old(self).files.tree.consumes(ev) && !old(self).files.tree.hides_on(ev)
                    && ev == Event::Key(old(self).files.tree.key_config.move_down) ==> final(self).files.tree.selection == Some(
                    (old(self).files.tree.selection->Some_0 + 1) as usize,
                ))
                &&& (old(self).files.tree.consumes(ev) && !old(self).files.tree.hides_on(ev)
                    && ev != Event::Key(old(self).files.tree.key_config.move_down) ==> final(self).files.tree.selection == Some(
                    (old(self).files.tree.selection->Some_0 - 1) as usize,
                ))
                &&& (!old(self).files.tree.consumes(ev) || old(self).files.tree.hides_on(ev)
                    ==> final(self).files.tree.selection == old(self).files.tree.selection)
                // a stacking dismissal of the visible browser happens only
                // through the tree's own hide, which moves no selection: the
                // reopen token carries the selection as it stood before
                &&& (old(self).files.visible && old(self).stacks_on(ev) ==> final(self).files.tree.selection == old(self).files.tree.selection)
                &&& (old(self).files.tree.hides_on(ev) ==> final(self).files.tree.queue.pending@ == old(self).files.tree.queue.pending@.push(
                    InternalEvent::OpenPath(
                        old(self).files.tree.items@[old(self).files.tree.selection->Some_0 as int],
                    ),
                ))
                &&& (!old(self).files.tree.hides_on(ev) ==> final(self).files.tree.queue == old(self).files.tree.queue)
                // what leaves through the queue, in order: the pop for an
                // explicit exit, then the reopen token for a stacking hide
                &&& (!old(self).exit_hit(ev) && !old(self).stacks_on(ev) ==> final(self).queue == old(self).queue)
                &&& (old(self).exit_hit(ev) && !old(self).stacks_on(ev) ==> final(self).queue.pending@ == old(self).queue.pending@.push(InternalEvent::PopupStackPop))
                &&& (!old(self).exit_hit(ev) && old(self).stacks_on(ev) ==> (old(self).files.revision matches Some(rev) ==> final(self).queue.pending@ == old(self).queue.pending@.push(
                    InternalEvent::PopupStackPush(
                        StackablePopupOpen::FileTree(
                            FileTreeOpen {
                                commit_id: rev,
                                selection: final(self).files.tree.selection,
                            },
                        ),
                    ),
                )))
                &&& (old(self).exit_hit(ev) && old(self).stacks_on(ev) ==> (old(self).files.revision matches Some(rev) ==> final(self).queue.pending@ == old(self).queue.pending@.push(InternalEvent::PopupStackPop).push(
                    InternalEvent::PopupStackPush(
                        StackablePopupOpen::FileTree(
                            FileTreeOpen {
                                commit_id: rev,
                                selection: final(self).files.tree.selection,
                            },
                        ),
                    ),
                )))
                &&& (old(self).stacks_on(ev) && old(self).files.revision is None ==> final(self).queue.pending@ == (if old(self).exit_hit(ev) {
                    old(self).queue.pending@.push(InternalEvent::PopupStackPop)
                } else {
                    old(self).queue.pending@
                }))
            },
    {
        if self.is_visible() {
            if let Event::Key(k) = ev {
                if key_match(k, self.key_config.exit_popup) {
                    self.hide_stacked(false);
                }
            }

            let res = self.files.event(ev);
            // if consuming the event hid the inner browser, the popup must
            // stack: the state is resumable
            if res.is_consumed() && !self.files.is_visible() {
                self.hide_stacked(true);
            }

            return res;
        }

        EventState::NotConsumed
    }

    /// While visible, the shell first clears the whole area — so nothing
    /// drawn underneath in a prior frame bleeds through — and then renders
    /// the inner browser into it. Hidden popups draw nothing.
    pub fn draw(&self, area: Rect) -> (r: Option<Rect>)
        ensures
            r == (if self.visible {
                Some(area)
            } else {
                None::<Rect>
            }),
    {
        if self.is_visible() {
            Some(area)
        } else {
            None
        }
    }

    /// The close command first, then whatever the inner browser offers; a
    /// visible popup owns the command surface.
    pub fn commands(&self, out: &mut Vec<CommandInfo>, force_all: bool) -> (r: CommandBlocking)
        ensures
            self.visible || force_all ==> final(out)@ == old(out)@.push(
                CommandInfo { kind: CommandKind::ClosePopup, enabled: true, order: 1 },
            ).push(
                CommandInfo {
                    kind: CommandKind::NavigateTree,
                    enabled: self.files.tree.items@.len() > 0,
                    order: 0,
                },
            ),
            !(self.visible || force_all) ==> final(out)@ == old(out)@,
            r == (if self.visible {
                CommandBlocking::Blocking
            } else {
                CommandBlocking::PassingOn
            }),
    {
        if self.visible || force_all {
            out.push(CommandInfo { kind: CommandKind::ClosePopup, enabled: true, order: 1 });
            self.files.commands(out, force_all);
        }
        if self.visible {
            CommandBlocking::Blocking
        } else {
            CommandBlocking::PassingOn
        }
    }

    pub fn is_visible(&self) -> (r: bool)
        ensures
            r == self.visible,
    {
        self.visible
    }

    pub fn hide_self(&mut self)
        ensures
            *final(self) == (RevisionFilesPopup { visible: false, ..*old(self) }),
    {
        self.visible = false;
    }

    pub fn show(&mut self)
        ensures
            *final(self) == (RevisionFilesPopup { visible: true, ..*old(self) }),
    {
        self.visible = true;
    }
}

} // verus!
