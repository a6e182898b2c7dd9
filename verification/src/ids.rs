use vstd::prelude::*;

verus! {

/// The identity of a single revision: an opaque, comparable key. Two
/// identities are the same exactly when their text is the same.
#[derive(Debug)]
pub struct CommitId {
    pub id: String,
}

impl View for CommitId {
    type V = Seq<char>;

    open spec fn view(&self) -> Seq<char> {
        self.id@
    }
}

impl CommitId {
    pub fn new(id: String) -> (r: CommitId)
        ensures
            r@ == id@,
    {
        CommitId { id }
    }
}

impl Clone for CommitId {
    fn clone(&self) -> (r: Self)
        ensures
            r == *self,
    {
        CommitId { id: self.id.clone() }
    }
}

impl PartialEq for CommitId {
    fn eq(&self, other: &Self) -> bool {
        self.id == other.id
    }
}

impl vstd::std_specs::cmp::PartialEqSpecImpl for CommitId {
    open spec fn obeys_eq_spec() -> bool {
        true
    }

    open spec fn eq_spec(&self, other: &Self) -> bool {
        self@ == other@
    }
}

/// What a composite is asked to show: one revision, or a comparison of
/// `id` against `other`. This is the request identity that decides whether a
/// previously fetched result is still valid.
#[derive(Debug)]
pub struct CommitFilesParams {
    pub id: CommitId,
    pub other: Option<CommitId>,
}

impl View for CommitFilesParams {
    type V = (Seq<char>, Option<Seq<char>>);

    open spec fn view(&self) -> (Seq<char>, Option<Seq<char>>) {
        (
            self.id@,
            match self.other {
                Some(o) => Some(o@),
                None => None,
            },
        )
    }
}

impl CommitFilesParams {
    /// A single-revision identity.
    pub fn single(id: CommitId) -> (r: CommitFilesParams)
        ensures
            r.id == id,
            r.other is None,
    {
        CommitFilesParams { id, other: None }
    }

    /// A comparison identity: `id` compared against `other`.
    pub fn compare(id: CommitId, other: CommitId) -> (r: CommitFilesParams)
        ensures
            r.id == id,
            r.other == Some(other),
    {
        CommitFilesParams { id, other: Some(other) }
    }

    /// Whether this identity has the comparison shape.
    pub open spec fn spec_is_compare(&self) -> bool {
        self.other is Some
    }

    #[verifier::when_used_as_spec(spec_is_compare)]
    pub fn is_compare(&self) -> (r: bool)
        ensures
            r == self.spec_is_compare(),
    {
        self.other.is_some()
    }
}

impl Clone for CommitFilesParams {
    fn clone(&self) -> (r: Self)
        ensures
            r == *self,
    {
        CommitFilesParams {
            id: self.id.clone(),
            other: match &self.other {
                Some(o) => Some(o.clone()),
                None => None,
            },
        }
    }
}

impl PartialEq for CommitFilesParams {
    fn eq(&self, other: &Self) -> bool {
        self.id == other.id && match (&self.other, &other.other) {
            (Some(a), Some(b)) => a == b,
            (None, None) => true,
            _ => false,
        }
    }
}

impl vstd::std_specs::cmp::PartialEqSpecImpl for CommitFilesParams {
    open spec fn obeys_eq_spec() -> bool {
        true
    }

    open spec fn eq_spec(&self, other: &Self) -> bool {
        self@ == other@
    }
}

} // verus!
