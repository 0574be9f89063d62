use pdf_set_store::creation::{create_pdf_set, Progress};
use pdf_set_store::deletion::delete_pdf_set;
use pdf_set_store::effects::Effect;
use pdf_set_store::listing::{judge, list_pdf_sets, BaseScan, EntryProbe, Judgement};
use pdf_set_store::model::{Bookmark, PDFSet, Timestamp};

fn stored(id: &str, name: &str) -> PDFSet {
    PDFSet {
        id: String::from(id),
        name: String::from(name),
        created_at: Timestamp { seconds: 1_700_000_000, nanos: 0 },
        last_opened_at: None,
        original_pdf_path: format!("/b/{}/original.pdf", id),
        translated_pdf_path: format!("/b/{}/translated.pdf", id),
        bookmark: None,
    }
}

fn record(set: &PDFSet) -> EntryProbe {
    EntryProbe::Record { dir_name: Some(set.id.clone()), set: set.clone() }
}

fn created(base: &str, name: &str) -> PDFSet {
    let mut creation =
        create_pdf_set(base, String::from(name), String::from("/a.pdf"), String::from("/b.pdf"));
    loop {
        match creation.advance(Ok(())) {
            Progress::Continue(next) => creation = next,
            Progress::Finished(result) => return result.unwrap(),
        }
    }
}

/// The entries that a scan finds once the directory that `removal` names is gone.
fn without(base: &str, sets: &[PDFSet], removal: &Effect) -> Vec<EntryProbe> {
    let gone = match removal {
        Effect::RemoveDirAll { path } => path.clone(),
        _ => panic!("a deletion removes a directory"),
    };
    sets.iter().filter(|set| format!("{}/{}", base, set.id) != gone).map(record).collect()
}

#[test]
fn missing_base_directory_lists_as_empty() {
    assert_eq!(list_pdf_sets("/nowhere", BaseScan::Missing), Ok(vec![]));
}

#[test]
fn empty_base_directory_lists_as_empty() {
    assert_eq!(list_pdf_sets("/b", BaseScan::Entries(vec![])), Ok(vec![]));
}

#[test]
fn unreadable_base_directory_fails_the_listing() {
    let scan = BaseScan::Unreadable { cause: String::from("Permission denied (os error 13)") };
    assert_eq!(
        list_pdf_sets("/b", scan),
        Err(String::from("Failed to read pdfs directory: Permission denied (os error 13)"))
    );
}

#[test]
fn created_sets_are_listed_and_a_deleted_one_is_not() {
    let a = created("/b", "A");
    let b = created("/b", "B");
    let both = vec![record(&a), record(&b)];
    assert_eq!(list_pdf_sets("/b", BaseScan::Entries(both)), Ok(vec![a.clone(), b.clone()]));

    let removal = delete_pdf_set("/b", &a.id).pending();
    let left = without("/b", &[a.clone(), b.clone()], &removal);
    assert_eq!(list_pdf_sets("/b", BaseScan::Entries(left)), Ok(vec![b]));
}

#[test]
fn listing_follows_the_order_of_the_scan() {
    let a = stored("a", "A");
    let b = stored("b", "B");
    let scan = BaseScan::Entries(vec![record(&b), record(&a)]);
    assert_eq!(list_pdf_sets("/b", scan), Ok(vec![b, a]));
}

#[test]
fn directory_without_metadata_is_passed_over() {
    let a = stored("a", "A");
    let scan = BaseScan::Entries(vec![EntryProbe::NoMetadata, record(&a), EntryProbe::NoMetadata]);
    assert_eq!(list_pdf_sets("/b", scan), Ok(vec![a]));
    assert_eq!(list_pdf_sets("/b", BaseScan::Entries(vec![EntryProbe::NoMetadata])), Ok(vec![]));
}

#[test]
fn entry_that_is_no_directory_is_passed_over() {
    let a = stored("a", "A");
    let scan = BaseScan::Entries(vec![record(&a), EntryProbe::NotDirectory]);
    assert_eq!(list_pdf_sets("/b", scan), Ok(vec![a]));
}

#[test]
fn malformed_metadata_fails_the_whole_listing() {
    let a = stored("a", "A");
    let b = stored("b", "B");
    let broken = EntryProbe::MalformedMetadata {
        cause: String::from("expected value at line 1 column 1"),
    };
    let scan = BaseScan::Entries(vec![record(&a), broken, record(&b)]);
    assert_eq!(
        list_pdf_sets("/b", scan),
        Err(String::from("Failed to parse metadata: expected value at line 1 column 1"))
    );
}

#[test]
fn unreadable_metadata_fails_the_whole_listing() {
    let a = stored("a", "A");
    let lost = EntryProbe::UnreadableMetadata { cause: String::from("gone") };
    let scan = BaseScan::Entries(vec![record(&a), lost]);
    assert_eq!(list_pdf_sets("/b", scan), Err(String::from("Failed to read metadata: gone")));
}

#[test]
fn unreadable_entry_fails_the_whole_listing() {
    let a = stored("a", "A");
    let scan = BaseScan::Entries(vec![
        EntryProbe::Unreadable { cause: String::from("stale handle") },
        record(&a),
    ]);
    assert_eq!(list_pdf_sets("/b", scan), Err(String::from("Failed to read entry: stale handle")));
}

#[test]
fn directory_name_that_is_no_text_fails_the_whole_listing() {
    let a = stored("a", "A");
    let scan = BaseScan::Entries(vec![EntryProbe::Record { dir_name: None, set: a }]);
    assert_eq!(list_pdf_sets("/b", scan), Err(String::from("Invalid directory name")));
}

#[test]
fn listing_fails_with_its_first_failure() {
    let scan = BaseScan::Entries(vec![
        EntryProbe::NoMetadata,
        EntryProbe::UnreadableMetadata { cause: String::from("first") },
        EntryProbe::MalformedMetadata { cause: String::from("second") },
    ]);
    assert_eq!(list_pdf_sets("/b", scan), Err(String::from("Failed to read metadata: first")));
}

#[test]
fn listed_paths_come_from_the_base_and_the_directory_name() {
    let mut set = stored("a", "A");
    set.original_pdf_path = String::from("pdfs/a/original.pdf");
    set.translated_pdf_path = String::from("/somewhere/else.pdf");
    set.last_opened_at = Some(Timestamp { seconds: 1_700_000_900, nanos: 7 });
    set.bookmark = Some(Bookmark { page: 3, zoom_bits: 0x3f80_0000 });
    let scan = BaseScan::Entries(vec![EntryProbe::Record {
        dir_name: Some(String::from("moved")),
        set: set.clone(),
    }]);
    let listed = list_pdf_sets("/new/home", scan).unwrap();
    assert_eq!(listed.len(), 1);
    assert_eq!(listed[0].original_pdf_path, "/new/home/moved/original.pdf");
    assert_eq!(listed[0].translated_pdf_path, "/new/home/moved/translated.pdf");
    assert_eq!(listed[0].id, "a");
    assert_eq!(listed[0].name, "A");
    assert_eq!(listed[0].created_at, set.created_at);
    assert_eq!(listed[0].last_opened_at, set.last_opened_at);
    assert_eq!(listed[0].bookmark, set.bookmark);
}

#[test]
fn list_example_contract() {
    let set = created("/home/u/pdfs", "Contract");
    let mut on_disk = set.clone();
    on_disk.original_pdf_path = String::from("stale");
    on_disk.translated_pdf_path = String::from("stale");
    let scan = BaseScan::Entries(vec![EntryProbe::Record {
        dir_name: Some(set.id.clone()),
        set: on_disk,
    }]);
    assert_eq!(list_pdf_sets("/home/u/pdfs", scan), Ok(vec![set]));
}

#[test]
fn judge_decides_each_kind_of_entry() {
    let a = stored("a", "A");
    assert_eq!(judge("/b", &EntryProbe::NotDirectory), Judgement::Skip);
    assert_eq!(judge("/b", &EntryProbe::NoMetadata), Judgement::Skip);
    assert_eq!(
        judge("/b", &EntryProbe::Unreadable { cause: String::from("x") }),
        Judgement::Fail(String::from("Failed to read entry: x"))
    );
    assert_eq!(
        judge("/b", &EntryProbe::UnreadableMetadata { cause: String::from("x") }),
        Judgement::Fail(String::from("Failed to read metadata: x"))
    );
    assert_eq!(
        judge("/b", &EntryProbe::MalformedMetadata { cause: String::from("x") }),
        Judgement::Fail(String::from("Failed to parse metadata: x"))
    );
    assert_eq!(
        judge("/b", &EntryProbe::Record { dir_name: None, set: a.clone() }),
        Judgement::Fail(String::from("Invalid directory name"))
    );
    assert_eq!(judge("/b", &record(&a)), Judgement::Keep(a));
}
