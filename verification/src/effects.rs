//! The file operations that the library asks of its host, and how the host
//! reports that one of them went wrong.

use crate::model::{PDFSet, SetView};
use vstd::prelude::*;

verus! {

/// One file operation for the host to perform.
#[derive(Debug, PartialEq, Eq)]
pub enum Effect {
    /// Create the directory `path` and every missing directory above it.
    CreateDirAll { path: String },
    /// Copy the whole file `from` to `to`.
    CopyFile { from: String, to: String },
    /// Encode `set` as a JSON object and write it to the file `path`.
    WriteRecord { path: String, set: PDFSet },
    /// Remove the directory `path` with everything in it.
    RemoveDirAll { path: String },
}

/// What an [`Effect`] holds, with its texts as sequences of characters.
pub enum EffectView {
    CreateDirAll { path: Seq<char> },
    CopyFile { from: Seq<char>, to: Seq<char> },
    WriteRecord { path: Seq<char>, set: SetView },
    RemoveDirAll { path: Seq<char> },
}

impl View for Effect {
    type V = EffectView;

    open spec fn view(&self) -> EffectView {
        match *self {
            Effect::CreateDirAll { path } => EffectView::CreateDirAll { path: path@ },
            Effect::CopyFile { from, to } => EffectView::CopyFile { from: from@, to: to@ },
            Effect::WriteRecord { path, set } => EffectView::WriteRecord { path: path@, set: set@ },
            Effect::RemoveDirAll { path } => EffectView::RemoveDirAll { path: path@ },
        }
    }
}

/// Why the host could not perform an [`Effect`].
#[derive(Debug, PartialEq, Eq)]
pub enum Fault {
    /// The file system refused; `cause` says why.
    Io { cause: String },
    /// The record could not be encoded; `cause` says why.
    Encoding { cause: String },
}

/// What a [`Fault`] holds, with its text as a sequence of characters.
pub enum FaultView {
    Io { cause: Seq<char> },
    Encoding { cause: Seq<char> },
}

impl FaultView {
    /// What the host said of the fault.
    pub open spec fn cause(self) -> Seq<char> {
        match self {
            FaultView::Io { cause } => cause,
            FaultView::Encoding { cause } => cause,
        }
    }
}

impl View for Fault {
    type V = FaultView;

    open spec fn view(&self) -> FaultView {
        match *self {
            Fault::Io { cause } => FaultView::Io { cause: cause@ },
            Fault::Encoding { cause } => FaultView::Encoding { cause: cause@ },
        }
    }
}

impl Fault {
    /// What the host said of the fault.
    pub fn cause(&self) -> (cause: &str)
        ensures
            cause@ == self@.cause(),
    {
        match self {
            Fault::Io { cause } => cause.as_str(),
            Fault::Encoding { cause } => cause.as_str(),
        }
    }
}

/// What the host reports of an effect, seen as a value of the model.
pub open spec fn outcome_view(outcome: Result<(), Fault>) -> Result<(), FaultView> {
    match outcome {
        Ok(_) => Ok(()),
        Err(fault) => Err(fault@),
    }
}

} // verus!
