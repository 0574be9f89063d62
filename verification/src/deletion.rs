//! Deleting a set: its directory is removed with everything in it.

use crate::effects::{outcome_view, Effect, EffectView, Fault, FaultView};
use crate::paths::{set_dir, set_dir_text};
use vstd::prelude::*;

verus! {

/// A deletion under way.
#[derive(Debug, PartialEq, Eq)]
pub struct Deletion {
    target: String,
}

/// What a [`Deletion`] holds, with its text as a sequence of characters.
pub struct DeletionView {
    pub target: Seq<char>,
}

impl DeletionView {
    /// The deletion of the set named `id` from the store at `base`.
    pub open spec fn of(base: Seq<char>, id: Seq<char>) -> DeletionView {
        DeletionView { target: set_dir_text(base, id) }
    }

    /// The file operation that the host is to perform: the removal of the
    /// set's directory.
    pub open spec fn pending(self) -> EffectView {
        EffectView::RemoveDirAll { path: self.target }
    }

    /// The result of the deletion once the host has reported `outcome` of the
    /// removal. A fault is never passed over: it is the deletion's error.
    pub open spec fn finish(self, outcome: Result<(), FaultView>) -> Result<(), Seq<char>> {
        match outcome {
            Ok(_) => Ok(()),
            Err(fault) => Err("Failed to delete set: "@ + fault.cause()),
        }
    }
}

impl View for Deletion {
    type V = DeletionView;

    closed spec fn view(&self) -> DeletionView {
        DeletionView { target: self.target@ }
    }
}

impl Deletion {
    /// The file operation that the host is to perform.
    pub fn pending(&self) -> (effect: Effect)
        ensures
            effect@ == self@.pending(),
    {
        Effect::RemoveDirAll { path: self.target.clone() }
    }

    /// Takes the host's report on the removal and gives the deletion's result.
    pub fn finish(self, outcome: Result<(), Fault>) -> (result: Result<(), String>)
        ensures
            match self@.finish(outcome_view(outcome)) {
                Ok(_) => result is Ok,
                Err(message) => result is Err && result->Err_0@ == message,
            },
    {
        match outcome {
            Ok(_) => Ok(()),
            Err(fault) => Err(String::from_str("Failed to delete set: ").concat(fault.cause())),
        }
    }
}

/// Begins the deletion of the set named `id` from the store at `base_dir`.
pub fn delete_pdf_set(base_dir: &str, id: &str) -> (deletion: Deletion)
    ensures
        deletion@ == DeletionView::of(base_dir@, id@),
{
    Deletion { target: set_dir(base_dir, id) }
}

} // verus!
