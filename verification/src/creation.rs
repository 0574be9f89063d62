//! Creating a set: a directory, two copied documents and a metadata record,
//! made in that order, given up at the first step that fails.

use crate::effects::{outcome_view, Effect, EffectView, Fault, FaultView};
use crate::identity::is_set_id_text;
use crate::model::{PDFSet, SetView};
use crate::paths::{child_path, child_path_text, set_dir, set_dir_text, METADATA_FILE};
use vstd::prelude::*;

verus! {

/// The step of a creation that is to be performed next.
#[derive(Debug, Clone, Copy, PartialEq, Eq, Structural)]
pub enum CreateStage {
    MakeDir,
    CopyOriginal,
    CopyTranslated,
    WriteMetadata,
}

/// A creation under way: the record that it will return and what is still to
/// be done for it.
#[derive(Debug, PartialEq, Eq)]
pub struct Creation {
    stage: CreateStage,
    set_dir: String,
    set: PDFSet,
    original_source: String,
    translated_source: String,
}

/// What a [`Creation`] holds, with its texts as sequences of characters.
pub struct CreationView {
    pub stage: CreateStage,
    pub set_dir: Seq<char>,
    pub set: SetView,
    pub original_source: Seq<char>,
    pub translated_source: Seq<char>,
}

/// Where a creation stands after its host has reported on a step.
#[derive(Debug, PartialEq, Eq)]
pub enum Progress {
    /// The step is done and another one is pending.
    Continue(Creation),
    /// The creation is over: with the record of the new set, or with the
    /// message of the step that failed.
    Finished(Result<PDFSet, String>),
}

/// What a [`Progress`] holds, with its texts as sequences of characters.
pub enum ProgressView {
    Continue(CreationView),
    Finished(Result<SetView, Seq<char>>),
}

/// The message of a creation that failed at `stage` with `fault`.
pub open spec fn failure_text(stage: CreateStage, fault: FaultView) -> Seq<char> {
    match fault {
        FaultView::Encoding { cause } => "Failed to serialize metadata: "@ + cause,
        FaultView::Io { cause } => match stage {
            CreateStage::MakeDir => "Failed to create directory: "@ + cause,
            CreateStage::CopyOriginal => "Failed to copy original PDF: "@ + cause,
            CreateStage::CopyTranslated => "Failed to copy translated PDF: "@ + cause,
            CreateStage::WriteMetadata => "Failed to write metadata: "@ + cause,
        },
    }
}

impl CreationView {
    /// The creation of `set` under `base` from two source documents, before
    /// its first step. The record's document paths become those of its own
    /// directory under `base`.
    pub open spec fn begun(
        base: Seq<char>,
        set: SetView,
        original_source: Seq<char>,
        translated_source: Seq<char>,
    ) -> CreationView {
        CreationView {
            stage: CreateStage::MakeDir,
            set_dir: set_dir_text(base, set.id),
            set: set.relocated(base, set.id),
            original_source,
            translated_source,
        }
    }

    /// The file operation that the host is to perform next. The documents are
    /// copied to the very paths that the record names.
    pub open spec fn pending(self) -> EffectView {
        match self.stage {
            CreateStage::MakeDir => EffectView::CreateDirAll { path: self.set_dir },
            CreateStage::CopyOriginal => EffectView::CopyFile {
                from: self.original_source,
                to: self.set.original_pdf_path,
            },
            CreateStage::CopyTranslated => EffectView::CopyFile {
                from: self.translated_source,
                to: self.set.translated_pdf_path,
            },
            CreateStage::WriteMetadata => EffectView::WriteRecord {
                path: child_path_text(self.set_dir, METADATA_FILE@),
                set: self.set,
            },
        }
    }

    /// Where the creation stands once the host has reported `outcome` of the
    /// pending operation. Success leads to the next step, and after the last
    /// one to the record. A fault ends the creation at once: nothing further
    /// is asked of the host, and what earlier steps made is left in place.
    pub open spec fn advance(self, outcome: Result<(), FaultView>) -> ProgressView {
        match outcome {
            Err(fault) => ProgressView::Finished(Err(failure_text(self.stage, fault))),
            Ok(_) => match self.stage {
                CreateStage::MakeDir => ProgressView::Continue(
                    CreationView { stage: CreateStage::CopyOriginal, ..self },
                ),
                CreateStage::CopyOriginal => ProgressView::Continue(
                    CreationView { stage: CreateStage::CopyTranslated, ..self },
                ),
                CreateStage::CopyTranslated => ProgressView::Continue(
                    CreationView { stage: CreateStage::WriteMetadata, ..self },
                ),
                CreateStage::WriteMetadata => ProgressView::Finished(Ok(self.set)),
            },
        }
    }
}

impl View for Creation {
    type V = CreationView;

    closed spec fn view(&self) -> CreationView {
        CreationView {
            stage: self.stage,
            set_dir: self.set_dir@,
            set: self.set@,
            original_source: self.original_source@,
            translated_source: self.translated_source@,
        }
    }
}

impl View for Progress {
    type V = ProgressView;

    open spec fn view(&self) -> ProgressView {
        match *self {
            Progress::Continue(creation) => ProgressView::Continue(creation@),
            Progress::Finished(Ok(set)) => ProgressView::Finished(Ok(set@)),
            Progress::Finished(Err(message)) => ProgressView::Finished(Err(message@)),
        }
    }
}

/// Puts together the message of a creation that failed at `stage` with `fault`.
fn failure_message(stage: CreateStage, fault: &Fault) -> (message: String)
    ensures
        message@ == failure_text(stage, fault@),
{
    match fault {
        Fault::Encoding { cause } => String::from_str("Failed to serialize metadata: ").concat(
            cause.as_str(),
        ),
        Fault::Io { cause } => {
            let prefix = match stage {
                CreateStage::MakeDir => "Failed to create directory: ",
                CreateStage::CopyOriginal => "Failed to copy original PDF: ",
                CreateStage::CopyTranslated => "Failed to copy translated PDF: ",
                CreateStage::WriteMetadata => "Failed to write metadata: ",
            };
            String::from_str(prefix).concat(cause.as_str())
        },
    }
}

impl Creation {
    /// Begins the creation of `set` under `base_dir` from the documents at
    /// `original_source` and `translated_source`.
    pub fn begin(
        base_dir: &str,
        set: PDFSet,
        original_source: String,
        translated_source: String,
    ) -> (creation: Creation)
        ensures
            creation@ == CreationView::begun(
                base_dir@,
                set@,
                original_source@,
                translated_source@,
            ),
    {
        let set_dir = set_dir(base_dir, set.id.as_str());
        let set = set.relocated(base_dir, set.id.as_str());
        Creation { stage: CreateStage::MakeDir, set_dir, set, original_source, translated_source }
    }

    /// The step that is to be performed next.
    pub fn stage(&self) -> (stage: CreateStage)
        ensures
            stage == self@.stage,
    {
        self.stage
    }

    /// The record that the creation returns when its last step succeeds.
    pub fn set(&self) -> (set: &PDFSet)
        ensures
            set@ == self@.set,
    {
        &self.set
    }

    /// The file operation that the host is to perform next.
    pub fn pending(&self) -> (effect: Effect)
        ensures
            effect@ == self@.pending(),
    {
        match self.stage {
            CreateStage::MakeDir => Effect::CreateDirAll { path: self.set_dir.clone() },
            CreateStage::CopyOriginal => Effect::CopyFile {
                from: self.original_source.clone(),
                to: self.set.original_pdf_path.clone(),
            },
            CreateStage::CopyTranslated => Effect::CopyFile {
                from: self.translated_source.clone(),
                to: self.set.translated_pdf_path.clone(),
            },
            CreateStage::WriteMetadata => Effect::WriteRecord {
                path: child_path(self.set_dir.as_str(), METADATA_FILE),
                set: self.set.clone(),
            },
        }
    }

    /// Takes the host's report on the pending operation and says where the
    /// creation stands after it.
    pub fn advance(self, outcome: Result<(), Fault>) -> (progress: Progress)
        ensures
            progress@ == self@.advance(outcome_view(outcome)),
    {
        match outcome {
            Err(fault) => Progress::Finished(Err(failure_message(self.stage, &fault))),
            Ok(_) => match self.stage {
                CreateStage::MakeDir => Progress::Continue(
                    Creation { stage: CreateStage::CopyOriginal, ..self },
                ),
                CreateStage::CopyOriginal => Progress::Continue(
                    Creation { stage: CreateStage::CopyTranslated, ..self },
                ),
                CreateStage::CopyTranslated => Progress::Continue(
                    Creation { stage: CreateStage::WriteMetadata, ..self },
                ),
                CreateStage::WriteMetadata => Progress::Finished(Ok(self.set)),
            },
        }
    }
}

/// Begins the creation of a set called `name` in the store at `base_dir`, from
/// the documents at `original_path` and `translated_path`.
///
/// The new set gets a fresh random identifier and the current time as its
/// time of creation; its directory and its document paths follow from
/// `base_dir` and that identifier.
pub fn create_pdf_set(
    base_dir: &str,
    name: String,
    original_path: String,
    translated_path: String,
) -> (creation: Creation)
    ensures
        creation@ == CreationView::begun(
            base_dir@,
            SetView::fresh(creation@.set.id, creation@.set.created_at, name@),
            original_path@,
            translated_path@,
        ),
        is_set_id_text(creation@.set.id),
        creation@.set.id.len() > 0,
        creation@.set.created_at.nanos < 1_000_000_000,
{
    let set = PDFSet::new(name);
    Creation::begin(base_dir, set, original_path, translated_path)
}

} // verus!
