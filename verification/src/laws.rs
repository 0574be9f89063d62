//! What holds of the operations taken together.

use crate::creation::{failure_text, CreateStage, CreationView, ProgressView};
use crate::deletion::DeletionView;
use crate::effects::{EffectView, FaultView};
use crate::listing::{listing, listing_of_entries, verdict, ProbeView, ScanView, Verdict};
use crate::model::SetView;
use crate::paths::{child_path_text, set_dir_text, METADATA_FILE};
use vstd::prelude::*;

verus! {

/// What a scan finds of the directory of a set whose creation was completed:
/// a directory named by the set's identifier that holds the set's record.
pub open spec fn recorded(set: SetView) -> ProbeView {
    ProbeView::Record { dir_name: Some(set.id), set }
}

/// What a scan finds of the directories of completed creations, one by one.
pub open spec fn recorded_entries(sets: Seq<SetView>) -> Seq<ProbeView> {
    sets.map_values(|set: SetView| recorded(set))
}

/// A store without a base directory, and one whose base directory is empty,
/// list as no sets at all, under every base.
pub proof fn lemma_empty_store_lists_nothing(base: Seq<char>)
    ensures
        listing(base, ScanView::Missing) == Ok::<Seq<SetView>, Seq<char>>(Seq::empty()),
        listing(base, ScanView::Entries(Seq::empty())) == Ok::<Seq<SetView>, Seq<char>>(
            Seq::empty(),
        ),
{
}

/// Whether the entry `probe` makes a listing under `base` fail.
pub open spec fn fails(base: Seq<char>, probe: ProbeView) -> bool {
    verdict(base, probe) is Fail
}

/// Whether the entry at `at` is the first of `probes` that fails.
pub open spec fn is_first_failure(base: Seq<char>, probes: Seq<ProbeView>, at: int) -> bool {
    &&& 0 <= at < probes.len()
    &&& fails(base, probes[at])
    &&& forall|j: int| 0 <= j < at ==> !fails(base, #[trigger] probes[j])
}

/// A listing fails exactly when one of its entries fails.
pub proof fn lemma_listing_fails_iff_an_entry_fails(base: Seq<char>, probes: Seq<ProbeView>)
    ensures
        listing_of_entries(base, probes) is Err <==> exists|i: int|
            0 <= i < probes.len() && fails(base, #[trigger] probes[i]),
    decreases probes.len(),
{
    if probes.len() > 0 {
        let shorter = probes.drop_last();
        let last = probes.len() - 1;
        lemma_listing_fails_iff_an_entry_fails(base, shorter);
        if listing_of_entries(base, shorter) is Err {
            let k = choose|k: int| 0 <= k < shorter.len() && fails(base, #[trigger] shorter[k]);
            assert(fails(base, probes[k]));
        } else if fails(base, probes[last]) {
        } else {
            assert forall|i: int| 0 <= i < probes.len() implies !fails(
                base,
                #[trigger] probes[i],
            ) by {
                if i < last {
                    assert(!fails(base, shorter[i]));
                }
            }
        }
    }
}

/// A listing that fails does so with the message of its first failing entry.
pub proof fn lemma_listing_fails_with_first_failure(
    base: Seq<char>,
    probes: Seq<ProbeView>,
    at: int,
)
    requires
        is_first_failure(base, probes, at),
    ensures
        listing_of_entries(base, probes) == Err::<Seq<SetView>, Seq<char>>(
            verdict(base, probes[at])->Fail_0,
        ),
    decreases probes.len(),
{
    let shorter = probes.drop_last();
    if at == probes.len() - 1 {
        lemma_listing_fails_iff_an_entry_fails(base, shorter);
        assert forall|i: int| 0 <= i < shorter.len() implies !fails(base, #[trigger] shorter[i]) by {
            assert(!fails(base, probes[i]));
        }
    } else {
        assert(shorter[at] == probes[at]);
        assert forall|j: int| 0 <= j < at implies !fails(base, #[trigger] shorter[j]) by {
            assert(!fails(base, probes[j]));
        }
        lemma_listing_fails_with_first_failure(base, shorter, at);
    }
}

/// A directory whose metadata record is malformed fails the whole listing,
/// wherever among the entries it stands and whatever the others hold.
pub proof fn lemma_malformed_record_fails_listing(
    base: Seq<char>,
    probes: Seq<ProbeView>,
    at: int,
)
    requires
        0 <= at < probes.len(),
        probes[at] is MalformedMetadata,
    ensures
        listing(base, ScanView::Entries(probes)) is Err,
{
    lemma_listing_fails_iff_an_entry_fails(base, probes);
    assert(fails(base, probes[at]));
}

/// An entry that is passed over, such as a directory without a metadata
/// record, leaves no trace in the listing: with or without it the result is
/// the same.
pub proof fn lemma_skipped_entry_changes_nothing(base: Seq<char>, probes: Seq<ProbeView>, at: int)
    requires
        0 <= at < probes.len(),
        verdict(base, probes[at]) is Skip,
    ensures
        listing_of_entries(base, probes.remove(at)) == listing_of_entries(base, probes),
    decreases probes.len(),
{
    let last = probes.len() - 1;
    if at == last {
        assert(probes.remove(at) =~= probes.drop_last());
    } else {
        let shorter = probes.drop_last();
        lemma_skipped_entry_changes_nothing(base, shorter, at);
        assert(probes.remove(at).drop_last() =~= shorter.remove(at));
        assert(probes.remove(at).last() == probes.last());
    }
}

/// A directory without a metadata record does not make a listing fail and is
/// not among its sets.
pub proof fn lemma_directory_without_record_is_not_listed(
    base: Seq<char>,
    probes: Seq<ProbeView>,
    at: int,
)
    requires
        0 <= at < probes.len(),
        probes[at] is NoMetadata,
    ensures
        listing(base, ScanView::Entries(probes)) == listing(
            base,
            ScanView::Entries(probes.remove(at)),
        ),
{
    lemma_skipped_entry_changes_nothing(base, probes, at);
}

/// Whether a listing under `base` lists `set` for the entry `probe`.
pub open spec fn keeps(base: Seq<char>, probe: ProbeView, set: SetView) -> bool {
    verdict(base, probe) == Verdict::Keep(set)
}

/// Where no entry fails, the listing holds a record exactly if some entry
/// keeps it.
pub proof fn lemma_listing_holds_what_is_kept(base: Seq<char>, probes: Seq<ProbeView>)
    requires
        forall|i: int| 0 <= i < probes.len() ==> !fails(base, #[trigger] probes[i]),
    ensures
        listing_of_entries(base, probes) is Ok,
        forall|set: SetView|
            listing_of_entries(base, probes)->Ok_0.contains(set) <==> exists|i: int|
                0 <= i < probes.len() && keeps(base, #[trigger] probes[i], set),
    decreases probes.len(),
{
    if probes.len() == 0 {
        assert(listing_of_entries(base, probes)->Ok_0 =~= Seq::<SetView>::empty());
    } else {
        let shorter = probes.drop_last();
        let last = probes.len() - 1;
        assert forall|i: int| 0 <= i < shorter.len() implies !fails(base, #[trigger] shorter[i]) by {
            assert(!fails(base, probes[i]));
        }
        lemma_listing_holds_what_is_kept(base, shorter);
        assert(!fails(base, probes[last]));
        let before = listing_of_entries(base, shorter)->Ok_0;
        let after = listing_of_entries(base, probes)->Ok_0;
        assert forall|set: SetView| after.contains(set) implies exists|i: int|
            0 <= i < probes.len() && keeps(base, #[trigger] probes[i], set) by {
            let k = choose|k: int| 0 <= k < after.len() && after[k] == set;
            if k < before.len() {
                assert(before[k] == set);
                assert(before.contains(set));
                let i = choose|i: int| 0 <= i < shorter.len() && keeps(base, #[trigger] shorter[i], set);
                assert(keeps(base, probes[i], set));
            } else {
                assert(keeps(base, probes[last], set));
            }
        }
        assert forall|set: SetView|
            (exists|i: int|
                0 <= i < probes.len() && keeps(base, #[trigger] probes[i], set)) implies after.contains(
            set,
        ) by {
            let i = choose|i: int| 0 <= i < probes.len() && keeps(base, #[trigger] probes[i], set);
            if i < last {
                assert(keeps(base, shorter[i], set));
                assert(before.contains(set));
                let k = choose|k: int| 0 <= k < before.len() && before[k] == set;
                assert(after[k] == set);
            } else {
                assert(after[after.len() - 1] == set);
            }
        }
    }
}

/// Listing gives back what creation recorded. Where every entry of the base
/// directory is the directory of a set created under `base`, the listing is
/// those sets' records, unchanged and in the order of their entries. This
/// holds of any number of sets, so of the sets that are left once the
/// directory of one of them has been removed.
pub proof fn lemma_listing_returns_created_sets(base: Seq<char>, sets: Seq<SetView>)
    requires
        forall|i: int| 0 <= i < sets.len() ==> (#[trigger] sets[i]).located_under(base, sets[i].id),
    ensures
        listing(base, ScanView::Entries(recorded_entries(sets))) == Ok::<Seq<SetView>, Seq<char>>(
            sets,
        ),
    decreases sets.len(),
{
    let probes = recorded_entries(sets);
    if sets.len() == 0 {
        assert(sets =~= Seq::empty());
    } else {
        let shorter = sets.drop_last();
        lemma_listing_returns_created_sets(base, shorter);
        assert(probes.drop_last() =~= recorded_entries(shorter));
        let last = sets.last();
        assert(last == sets[sets.len() - 1]);
        assert(last.located_under(base, last.id));
        assert(last.relocated(base, last.id) == last);
        assert(probes.last() == recorded(last));
        assert(shorter.push(last) =~= sets);
    }
}

/// Deleting one of several created sets leaves the others. Where the sets
/// have different identifiers and the directory of one of them has been
/// removed, the listing is the records of the others, and none of them bears
/// the removed identifier.
pub proof fn lemma_deleted_set_is_not_listed(base: Seq<char>, sets: Seq<SetView>, at: int)
    requires
        0 <= at < sets.len(),
        forall|i: int| 0 <= i < sets.len() ==> (#[trigger] sets[i]).located_under(base, sets[i].id),
        forall|i: int, j: int|
            0 <= i < j < sets.len() ==> (#[trigger] sets[i]).id != (#[trigger] sets[j]).id,
    ensures
        listing(base, ScanView::Entries(recorded_entries(sets.remove(at)))) == Ok::<
            Seq<SetView>,
            Seq<char>,
        >(sets.remove(at)),
        forall|i: int|
            0 <= i < sets.remove(at).len() ==> (#[trigger] sets.remove(at)[i]).id != sets[at].id,
{
    let left = sets.remove(at);
    assert forall|i: int| 0 <= i < left.len() implies (#[trigger] left[i]).located_under(
        base,
        left[i].id,
    ) && left[i].id != sets[at].id by {
        if i < at {
            assert(left[i] == sets[i]);
        } else {
            assert(left[i] == sets[i + 1]);
        }
    }
    lemma_listing_returns_created_sets(base, left);
}

/// The record of a creation is located in its own directory under the base:
/// the paths that it names are those that a later listing computes.
pub proof fn lemma_created_set_is_located(
    base: Seq<char>,
    set: SetView,
    original_source: Seq<char>,
    translated_source: Seq<char>,
)
    ensures
        ({
            let creation = CreationView::begun(base, set, original_source, translated_source);
            &&& creation.set.id == set.id
            &&& creation.set.located_under(base, set.id)
            &&& creation.set == set.relocated(base, set.id)
        }),
{
}

/// A creation asks for four file operations in a fixed order: the set's
/// directory, the copy of the original, the copy of the translation, the
/// metadata record. When all four succeed it ends with the record.
pub proof fn lemma_creation_takes_four_steps(creation: CreationView)
    requires
        creation.stage == CreateStage::MakeDir,
    ensures
        ({
            let second = CreationView { stage: CreateStage::CopyOriginal, ..creation };
            let third = CreationView { stage: CreateStage::CopyTranslated, ..creation };
            let fourth = CreationView { stage: CreateStage::WriteMetadata, ..creation };
            &&& creation.pending() == EffectView::CreateDirAll { path: creation.set_dir }
            &&& creation.advance(Ok(())) == ProgressView::Continue(second)
            &&& second.pending() == EffectView::CopyFile {
                from: creation.original_source,
                to: creation.set.original_pdf_path,
            }
            &&& second.advance(Ok(())) == ProgressView::Continue(third)
            &&& third.pending() == EffectView::CopyFile {
                from: creation.translated_source,
                to: creation.set.translated_pdf_path,
            }
            &&& third.advance(Ok(())) == ProgressView::Continue(fourth)
            &&& fourth.pending() == EffectView::WriteRecord {
                path: child_path_text(creation.set_dir, METADATA_FILE@),
                set: creation.set,
            }
            &&& fourth.advance(Ok(())) == ProgressView::Finished(Ok(creation.set))
        }),
{
}

/// A fault ends a creation at whatever step it occurs: the result is an
/// error, and no further operation, none that would undo an earlier step
/// either, is asked of the host.
pub proof fn lemma_fault_ends_creation(creation: CreationView, fault: FaultView)
    ensures
        creation.advance(Err(fault)) == ProgressView::Finished(
            Err(failure_text(creation.stage, fault)),
        ),
{
}

/// A removal that the host could not perform, as that of a directory that
/// does not exist, makes the deletion fail; one that it performed makes the
/// deletion succeed.
pub proof fn lemma_deletion_reports_removal(deletion: DeletionView, fault: FaultView)
    ensures
        deletion.finish(Err(fault)) is Err,
        deletion.finish(Ok(())) is Ok,
        deletion.pending() == (EffectView::RemoveDirAll { path: deletion.target }),
{
}

/// Sets with different identifiers have different directories under one
/// base, and a deletion removes the very directory that the creation of the
/// same identifier made.
pub proof fn lemma_one_directory_per_identifier(base: Seq<char>, a: Seq<char>, b: Seq<char>)
    ensures
        set_dir_text(base, a) == set_dir_text(base, b) ==> a == b,
        DeletionView::of(base, a).target == set_dir_text(base, a),
{
    if set_dir_text(base, a) == set_dir_text(base, b) {
        let prefix = if base.len() == 0 {
            Seq::<char>::empty()
        } else if base.last() == '/' {
            base
        } else {
            base + seq!['/']
        };
        assert(set_dir_text(base, a) =~= prefix + a);
        assert(set_dir_text(base, b) =~= prefix + b);
        assert((prefix + a).len() == (prefix + b).len());
        assert forall|i: int| 0 <= i < a.len() implies a[i] == b[i] by {
            assert((prefix + a)[prefix.len() + i] == a[i]);
            assert((prefix + b)[prefix.len() + i] == b[i]);
        }
        assert(a =~= b);
    }
}

} // verus!
