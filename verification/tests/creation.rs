use pdf_set_store::creation::{create_pdf_set, CreateStage, Creation, Progress};
use pdf_set_store::effects::{Effect, Fault};
use pdf_set_store::model::{PDFSet, Timestamp};

fn begun() -> Creation {
    let set = PDFSet::with_identity(
        String::from("id-7"),
        Timestamp { seconds: 1_700_000_000, nanos: 42 },
        String::from("Contract"),
    );
    Creation::begin("/store", set, String::from("/tmp/a.pdf"), String::from("/tmp/b.pdf"))
}

fn located() -> PDFSet {
    PDFSet {
        id: String::from("id-7"),
        name: String::from("Contract"),
        created_at: Timestamp { seconds: 1_700_000_000, nanos: 42 },
        last_opened_at: None,
        original_pdf_path: String::from("/store/id-7/original.pdf"),
        translated_pdf_path: String::from("/store/id-7/translated.pdf"),
        bookmark: None,
    }
}

fn advanced(creation: Creation, steps: usize) -> Creation {
    let mut creation = creation;
    for _ in 0..steps {
        creation = match creation.advance(Ok(())) {
            Progress::Continue(next) => next,
            Progress::Finished(_) => panic!("the creation ended early"),
        };
    }
    creation
}

fn io(cause: &str) -> Result<(), Fault> {
    Err(Fault::Io { cause: String::from(cause) })
}

#[test]
fn begin_places_the_record_under_the_base() {
    let creation = begun();
    assert_eq!(creation.stage(), CreateStage::MakeDir);
    assert_eq!(creation.set(), &located());
}

#[test]
fn creation_asks_for_its_four_steps_in_order() {
    let creation = begun();
    assert_eq!(creation.pending(), Effect::CreateDirAll { path: String::from("/store/id-7") });

    let creation = advanced(creation, 1);
    assert_eq!(creation.stage(), CreateStage::CopyOriginal);
    assert_eq!(
        creation.pending(),
        Effect::CopyFile {
            from: String::from("/tmp/a.pdf"),
            to: String::from("/store/id-7/original.pdf"),
        }
    );

    let creation = advanced(creation, 1);
    assert_eq!(creation.stage(), CreateStage::CopyTranslated);
    assert_eq!(
        creation.pending(),
        Effect::CopyFile {
            from: String::from("/tmp/b.pdf"),
            to: String::from("/store/id-7/translated.pdf"),
        }
    );

    let creation = advanced(creation, 1);
    assert_eq!(creation.stage(), CreateStage::WriteMetadata);
    assert_eq!(
        creation.pending(),
        Effect::WriteRecord { path: String::from("/store/id-7/metadata.json"), set: located() }
    );

    assert_eq!(creation.advance(Ok(())), Progress::Finished(Ok(located())));
}

#[test]
fn pending_does_not_move_the_creation_on() {
    let creation = begun();
    assert_eq!(creation.pending(), creation.pending());
    assert_eq!(creation.stage(), CreateStage::MakeDir);
}

#[test]
fn failure_to_make_the_directory_ends_the_creation() {
    assert_eq!(
        begun().advance(io("permission denied")),
        Progress::Finished(Err(String::from("Failed to create directory: permission denied")))
    );
}

#[test]
fn failure_to_copy_the_original_ends_the_creation() {
    assert_eq!(
        advanced(begun(), 1).advance(io("No such file or directory (os error 2)")),
        Progress::Finished(Err(String::from(
            "Failed to copy original PDF: No such file or directory (os error 2)"
        )))
    );
}

#[test]
fn failure_to_copy_the_translation_ends_the_creation() {
    assert_eq!(
        advanced(begun(), 2).advance(io("disk full")),
        Progress::Finished(Err(String::from("Failed to copy translated PDF: disk full")))
    );
}

#[test]
fn failure_to_write_the_record_ends_the_creation() {
    assert_eq!(
        advanced(begun(), 3).advance(io("read-only file system")),
        Progress::Finished(Err(String::from("Failed to write metadata: read-only file system")))
    );
}

#[test]
fn failure_to_encode_the_record_ends_the_creation() {
    let fault = Fault::Encoding { cause: String::from("timestamp out of range") };
    assert_eq!(
        advanced(begun(), 3).advance(Err(fault)),
        Progress::Finished(Err(String::from(
            "Failed to serialize metadata: timestamp out of range"
        )))
    );
}

#[test]
fn empty_cause_leaves_the_bare_prefix() {
    assert_eq!(
        begun().advance(io("")),
        Progress::Finished(Err(String::from("Failed to create directory: ")))
    );
}

#[test]
fn fault_cause_is_read_from_either_kind() {
    assert_eq!(Fault::Io { cause: String::from("a") }.cause(), "a");
    assert_eq!(Fault::Encoding { cause: String::from("b") }.cause(), "b");
}

#[test]
fn create_example_contract() {
    let mut creation = create_pdf_set(
        "/home/u/pdfs",
        String::from("Contract"),
        String::from("/tmp/a.pdf"),
        String::from("/tmp/b.pdf"),
    );
    let id = creation.set().id.clone();
    assert_eq!(id.chars().count(), 36);
    assert_eq!(
        creation.pending(),
        Effect::CreateDirAll { path: format!("/home/u/pdfs/{}", id) }
    );
    let set = loop {
        match creation.advance(Ok(())) {
            Progress::Continue(next) => creation = next,
            Progress::Finished(result) => break result.unwrap(),
        }
    };
    assert_eq!(set.id, id);
    assert_eq!(set.name, "Contract");
    assert_eq!(set.original_pdf_path, format!("/home/u/pdfs/{}/original.pdf", id));
    assert_eq!(set.translated_pdf_path, format!("/home/u/pdfs/{}/translated.pdf", id));
    assert_eq!(set.last_opened_at, None);
    assert_eq!(set.bookmark, None);
}

#[test]
fn repeated_creations_get_different_identifiers() {
    let first = create_pdf_set("/b", String::from("n"), String::from("o"), String::from("t"));
    let second = create_pdf_set("/b", String::from("n"), String::from("o"), String::from("t"));
    assert!(!first.set().id.is_empty());
    assert_ne!(first.set().id, second.set().id);
    assert_ne!(first.pending(), second.pending());
}
