//! A terminal-UI composition core: a small tree of components that route
//! input events in a fixed order, keep at most one focus target, and
//! reconcile asynchronously fetched results against the identity the user
//! currently wants, without ever presenting stale data as current.
//!
//! Rendering itself (cell buffers, styling) is the outer shell's business;
//! the library decides what to draw where, which child takes an event, and
//! when a cached result may be reused.
use vstd::prelude::*;

pub mod bridge;
pub mod commit_details;
pub mod details;
pub mod error;
pub mod ids;
pub mod keys;
pub mod layout;
pub mod queue;
pub mod revision_files;
pub mod revision_files_popup;
pub mod tree;

verus! {

/// Whether a routed input event was taken by some component. A consuming
/// component stops the event pump: components later in the declared order
/// never observe the event.
#[derive(Clone, Copy, PartialEq, Eq, Structural, Debug)]
pub enum EventState {
    Consumed,
    NotConsumed,
}

impl EventState {
    pub fn is_consumed(&self) -> (r: bool)
        ensures
            r == (*self == EventState::Consumed),
    {
        matches!(self, EventState::Consumed)
    }
}

/// Whether a component that reported its commands owns the whole command
/// surface (`Blocking`) or lets components above it append more entries.
#[derive(Clone, Copy, PartialEq, Eq, Structural, Debug)]
pub enum CommandBlocking {
    Blocking,
    PassingOn,
}

/// What a reported command is about; the shell maps each kind to its
/// display text.
#[derive(Clone, Copy, PartialEq, Eq, Structural, Debug)]
pub enum CommandKind {
    /// Scroll the details panel.
    ScrollDetails,
    /// Move the file-tree selection.
    NavigateTree,
    /// Dismiss the topmost popup.
    ClosePopup,
}

/// One entry of the command surface that a component advertises.
#[derive(Clone, Copy, PartialEq, Eq, Structural, Debug)]
pub struct CommandInfo {
    pub kind: CommandKind,
    pub enabled: bool,
    /// Ordering hint for the shell's command bar; higher sorts earlier.
    pub order: u8,
}

} // verus!
