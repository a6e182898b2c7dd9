use vstd::prelude::*;

use crate::revision_files_popup::FileTreeOpen;

verus! {

/// A popup's state saved at dismissal, carrying enough to reconstruct an
/// equivalent open request when the shell pops it again.
#[derive(Debug)]
pub enum StackablePopupOpen {
    /// Reopen the revision-files popup at the saved identity and selection.
    FileTree(FileTreeOpen),
}

/// What components hand to the outer navigation queue.
#[derive(Debug)]
pub enum InternalEvent {
    /// Push a resumable popup state onto the shell's popup stack.
    PopupStackPush(StackablePopupOpen),
    /// Pop the current popup layer, saving nothing.
    PopupStackPop,
    /// Ask the shell to open the given path.
    OpenPath(String),
}

/// The navigation queue: components append, the outer shell drains between
/// frames and performs the requested actions.
#[derive(Debug)]
pub struct Queue {
    pub pending: Vec<InternalEvent>,
}

impl Queue {
    pub fn new() -> (r: Queue)
        ensures
            r.pending@ == Seq::<InternalEvent>::empty(),
    {
        Queue { pending: Vec::new() }
    }

    pub fn push(&mut self, ev: InternalEvent)
        ensures
            final(self).pending@ == old(self).pending@.push(ev),
    {
        self.pending.push(ev);
    }

    /// Hands every queued event to the caller, oldest first, leaving the
    /// queue empty. The shell calls this between frames.
    pub fn drain(&mut self) -> (r: Vec<InternalEvent>)
        ensures
            r@ == old(self).pending@,
            final(self).pending@ == Seq::<InternalEvent>::empty(),
    {
        let mut out: Vec<InternalEvent> = Vec::new();
        core::mem::swap(&mut out, &mut self.pending);
        out
    }
}

} // verus!
