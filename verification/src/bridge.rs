use vstd::prelude::*;

use crate::ids::CommitFilesParams;

verus! {

/// What a completed background fetch produced for one identity.
#[derive(Debug)]
pub enum FetchOutcome {
    /// The changed paths for the identity, in the order the service listed
    /// them.
    Files(Vec<String>),
    /// The service could not produce a payload for the identity.
    Failed,
}

/// A completed fetch delivered through the shell's notification channel:
/// the identity the background service answered, and what it produced.
#[derive(Debug)]
pub struct FetchNotification {
    pub params: CommitFilesParams,
    pub outcome: FetchOutcome,
}

/// The async result bridge: one cached result keyed by request identity,
/// plus in-flight tracking. Composites consult it before issuing a fetch;
/// the outer shell performs the dispatches recorded in `requests` on its
/// background execution context and answers through `resolve`.
///
/// The bridge never holds two results: a newly delivered result supersedes
/// the previous one, and a composite re-checks the stored identity before
/// consuming the payload, so a superseded result is never presented as
/// current.
#[derive(Debug)]
pub struct FetchBridge {
    /// The most recently completed fetch, with the identity it answered.
    pub current: Option<(CommitFilesParams, FetchOutcome)>,
    /// The identity of the latest dispatched fetch not yet completed.
    pub pending: Option<CommitFilesParams>,
    /// Every dispatch handed to the background service, oldest first. The
    /// shell performs them; the library only appends.
    pub requests: Vec<CommitFilesParams>,
}

impl FetchBridge {
    /// The cached payload for the identity, when the cached result answers
    /// exactly it.
    pub open spec fn cached_files_for(self, p: CommitFilesParams) -> Option<Seq<String>> {
        match self.current {
            Some((q, outcome)) => if q@ == p@ {
                match outcome {
                    FetchOutcome::Files(files) => Some(files@),
                    FetchOutcome::Failed => None,
                }
            } else {
                None
            },
            None => None,
        }
    }

    /// Whether the cached result for the identity is a failed fetch.
    pub open spec fn cached_failed_for(self, p: CommitFilesParams) -> bool {
        match self.current {
            Some((q, outcome)) => q@ == p@ && outcome is Failed,
            None => false,
        }
    }

    /// Whether a fetch for the given identity is already in flight.
    pub open spec fn pending_matches(self, p: CommitFilesParams) -> bool {
        match self.pending {
            Some(q) => q@ == p@,
            None => false,
        }
    }

    pub fn new() -> (r: FetchBridge)
        ensures
            r.current is None,
            r.pending is None,
            r.requests@ == Seq::<CommitFilesParams>::empty(),
    {
        FetchBridge { current: None, pending: None, requests: Vec::new() }
    }

    /// True while a fetch has been dispatched but not yet completed.
    pub fn is_pending(&self) -> (r: bool)
        ensures
            r == (self.pending is Some),
    {
        self.pending.is_some()
    }

    /// Dispatches a fetch for the identity, unless one for the same
    /// identity is already in flight: then nothing is dispatched and the
    /// bridge is unchanged. A dispatch supersedes the previous in-flight
    /// identity without cancelling it; the stale answer is rejected on
    /// arrival by the identity re-check.
    pub fn fetch(&mut self, p: CommitFilesParams)
        ensures
            old(self).pending_matches(p) ==> *final(self) == *old(self),
            !old(self).pending_matches(p) ==> {
                &&& final(self).pending == Some(p)
                &&& final(self).requests@ == old(self).requests@.push(p)
                &&& final(self).current == old(self).current
            },
    {
        let already = match &self.pending {
            Some(q) => *q == p,
            None => false,
        };
        if !already {
            self.pending = Some(p.clone());
            self.requests.push(p);
        }
    }

    /// Records a completed fetch delivered by the background service. The
    /// new result supersedes the cached one whatever its identity; only the
    /// in-flight marker for exactly this identity is cleared.
    pub fn resolve(&mut self, p: CommitFilesParams, outcome: FetchOutcome)
        ensures
            final(self).current == Some((p, outcome)),
            final(self).pending == if old(self).pending_matches(p) {
                None
            } else {
                old(self).pending
            },
            final(self).requests == old(self).requests,
    {
        let done = match &self.pending {
            Some(q) => *q == p,
            None => false,
        };
        if done {
            self.pending = None;
        }
        self.current = Some((p, outcome));
    }
}

} // verus!
