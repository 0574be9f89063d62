//! Listing the sets of a store from what its host found in the base directory.

use crate::model::{PDFSet, SetView};
use vstd::prelude::*;

verus! {

/// What the host found out about one entry of the base directory, as far as
/// it had to look.
#[derive(Debug, PartialEq, Eq)]
pub enum EntryProbe {
    /// The entry could not be read from the directory.
    Unreadable { cause: String },
    /// The entry is no directory.
    NotDirectory,
    /// A directory that holds no metadata record.
    NoMetadata,
    /// A directory whose metadata record could not be read.
    UnreadableMetadata { cause: String },
    /// A directory whose metadata record does not hold a valid record.
    MalformedMetadata { cause: String },
    /// A directory with the record that its metadata holds. `dir_name` is the
    /// directory's name, absent where that name is no valid text.
    Record { dir_name: Option<String>, set: PDFSet },
}

/// What the host found where the base directory should be.
#[derive(Debug, PartialEq, Eq)]
pub enum BaseScan {
    /// There is no base directory.
    Missing,
    /// The base directory exists and could not be read.
    Unreadable { cause: String },
    /// The entries of the base directory, in the order in which they were read.
    Entries(Vec<EntryProbe>),
}

/// What an [`EntryProbe`] holds, with its texts as sequences of characters.
pub enum ProbeView {
    Unreadable { cause: Seq<char> },
    NotDirectory,
    NoMetadata,
    UnreadableMetadata { cause: Seq<char> },
    MalformedMetadata { cause: Seq<char> },
    Record { dir_name: Option<Seq<char>>, set: SetView },
}

/// What a [`BaseScan`] holds, with its texts as sequences of characters.
pub enum ScanView {
    Missing,
    Unreadable { cause: Seq<char> },
    Entries(Seq<ProbeView>),
}

impl View for EntryProbe {
    type V = ProbeView;

    open spec fn view(&self) -> ProbeView {
        match *self {
            EntryProbe::Unreadable { cause } => ProbeView::Unreadable { cause: cause@ },
            EntryProbe::NotDirectory => ProbeView::NotDirectory,
            EntryProbe::NoMetadata => ProbeView::NoMetadata,
            EntryProbe::UnreadableMetadata { cause } => ProbeView::UnreadableMetadata {
                cause: cause@,
            },
            EntryProbe::MalformedMetadata { cause } => ProbeView::MalformedMetadata {
                cause: cause@,
            },
            EntryProbe::Record { dir_name, set } => ProbeView::Record {
                dir_name: match dir_name {
                    Some(name) => Some(name@),
                    None => None,
                },
                set: set@,
            },
        }
    }
}

/// The views of a sequence of probes, one by one.
pub open spec fn probe_views(probes: Seq<EntryProbe>) -> Seq<ProbeView> {
    probes.map_values(|probe: EntryProbe| probe@)
}

/// The views of a sequence of records, one by one.
pub open spec fn set_views(sets: Seq<PDFSet>) -> Seq<SetView> {
    sets.map_values(|set: PDFSet| set@)
}

impl View for BaseScan {
    type V = ScanView;

    open spec fn view(&self) -> ScanView {
        match *self {
            BaseScan::Missing => ScanView::Missing,
            BaseScan::Unreadable { cause } => ScanView::Unreadable { cause: cause@ },
            BaseScan::Entries(probes) => ScanView::Entries(probe_views(probes@)),
        }
    }
}

/// What a listing does with one entry.
pub enum Verdict {
    /// The entry is no set: it is passed over.
    Skip,
    /// The entry makes the whole listing fail with this message.
    Fail(Seq<char>),
    /// The entry is a set: this record is listed.
    Keep(SetView),
}

/// What a listing under `base` does with an entry.
///
/// Only a directory that holds a metadata record is a set. Such a record is
/// listed with its document paths computed anew from `base` and the
/// directory's name; what the record itself says of them is not used.
pub open spec fn verdict(base: Seq<char>, probe: ProbeView) -> Verdict {
    match probe {
        ProbeView::Unreadable { cause } => Verdict::Fail("Failed to read entry: "@ + cause),
        ProbeView::NotDirectory => Verdict::Skip,
        ProbeView::NoMetadata => Verdict::Skip,
        ProbeView::UnreadableMetadata { cause } => Verdict::Fail(
            "Failed to read metadata: "@ + cause,
        ),
        ProbeView::MalformedMetadata { cause } => Verdict::Fail(
            "Failed to parse metadata: "@ + cause,
        ),
        ProbeView::Record { dir_name: None, set } => Verdict::Fail("Invalid directory name"@),
        ProbeView::Record { dir_name: Some(name), set } => Verdict::Keep(
            set.relocated(base, name),
        ),
    }
}

/// The listing of a sequence of entries: the records of its sets in the order
/// of their entries, or the message of the first entry that fails.
pub open spec fn listing_of_entries(base: Seq<char>, probes: Seq<ProbeView>) -> Result<
    Seq<SetView>,
    Seq<char>,
>
    decreases probes.len(),
{
    if probes.len() == 0 {
        Ok(Seq::empty())
    } else {
        match listing_of_entries(base, probes.drop_last()) {
            Err(message) => Err(message),
            Ok(sets) => match verdict(base, probes.last()) {
                Verdict::Skip => Ok(sets),
                Verdict::Fail(message) => Err(message),
                Verdict::Keep(set) => Ok(sets.push(set)),
            },
        }
    }
}

/// The listing of a store from a scan of its base directory. A store whose
/// base directory does not exist holds no sets.
pub open spec fn listing(base: Seq<char>, scan: ScanView) -> Result<Seq<SetView>, Seq<char>> {
    match scan {
        ScanView::Missing => Ok(Seq::empty()),
        ScanView::Unreadable { cause } => Err("Failed to read pdfs directory: "@ + cause),
        ScanView::Entries(probes) => listing_of_entries(base, probes),
    }
}

/// What [`judge`] hands back: a [`Verdict`] with the values that it names.
#[derive(Debug, PartialEq, Eq)]
pub enum Judgement {
    Skip,
    Fail(String),
    Keep(PDFSet),
}

impl View for Judgement {
    type V = Verdict;

    open spec fn view(&self) -> Verdict {
        match *self {
            Judgement::Skip => Verdict::Skip,
            Judgement::Fail(message) => Verdict::Fail(message@),
            Judgement::Keep(set) => Verdict::Keep(set@),
        }
    }
}

/// Decides what a listing under `base_dir` does with one entry.
pub fn judge(base_dir: &str, probe: &EntryProbe) -> (judgement: Judgement)
    ensures
        judgement@ == verdict(base_dir@, probe@),
{
    match probe {
        EntryProbe::Unreadable { cause } => Judgement::Fail(
            String::from_str("Failed to read entry: ").concat(cause.as_str()),
        ),
        EntryProbe::NotDirectory => Judgement::Skip,
        EntryProbe::NoMetadata => Judgement::Skip,
        EntryProbe::UnreadableMetadata { cause } => Judgement::Fail(
            String::from_str("Failed to read metadata: ").concat(cause.as_str()),
        ),
        EntryProbe::MalformedMetadata { cause } => Judgement::Fail(
            String::from_str("Failed to parse metadata: ").concat(cause.as_str()),
        ),
        EntryProbe::Record { dir_name: None, set } => Judgement::Fail(
            String::from_str("Invalid directory name"),
        ),
        EntryProbe::Record { dir_name: Some(name), set } => Judgement::Keep(
            set.relocated(base_dir, name.as_str()),
        ),
    }
}

/// Lists the sets among the entries of the base directory `base_dir`.
fn list_entries(base_dir: &str, probes: Vec<EntryProbe>) -> (result: Result<Vec<PDFSet>, String>)
    ensures
        match listing_of_entries(base_dir@, probe_views(probes@)) {
            Ok(sets) => result is Ok && set_views(result->Ok_0@) == sets,
            Err(message) => result is Err && result->Err_0@ == message,
        },
{
    let ghost views = probe_views(probes@);
    let mut sets: Vec<PDFSet> = Vec::new();
    let mut i: usize = 0;
    assert(set_views(sets@) =~= Seq::empty());
    while i < probes.len()
        invariant
            i <= probes.len(),
            views == probe_views(probes@),
            listing_of_entries(base_dir@, views.take(i as int)) == Ok::<Seq<SetView>, Seq<char>>(
                set_views(sets@),
            ),
        decreases probes.len() - i,
    {
        let judgement = judge(base_dir, &probes[i]);
        proof {
            let longer = views.take(i + 1);
            assert(longer.drop_last() =~= views.take(i as int));
            assert(longer.last() == probes[i as int]@);
        }
        match judgement {
            Judgement::Skip => {},
            Judgement::Fail(message) => {
                proof {
                    lemma_failure_is_final(base_dir@, views, i + 1);
                }
                return Err(message);
            },
            Judgement::Keep(set) => {
                assert(set_views(sets@.push(set)) =~= set_views(sets@).push(set@));
                sets.push(set);
            },
        }
        i = i + 1;
    }
    assert(views.take(i as int) =~= views);
    Ok(sets)
}

/// Lists the sets of the store at `base_dir` from a scan of that directory.
///
/// The result is the record of every directory that holds a metadata record,
/// in the order of the scan, each with its document paths computed anew from
/// `base_dir`. Entries that are no directory or hold no metadata record are
/// passed over. The first entry that cannot be read, or whose metadata record
/// cannot be read or is malformed, fails the whole listing. A base directory
/// that does not exist is an empty store.
pub fn list_pdf_sets(base_dir: &str, scan: BaseScan) -> (result: Result<Vec<PDFSet>, String>)
    ensures
        match listing(base_dir@, scan@) {
            Ok(sets) => result is Ok && set_views(result->Ok_0@) == sets,
            Err(message) => result is Err && result->Err_0@ == message,
        },
{
    match scan {
        BaseScan::Missing => {
            let sets: Vec<PDFSet> = Vec::new();
            assert(set_views(sets@) =~= Seq::empty());
            Ok(sets)
        },
        BaseScan::Unreadable { cause } => Err(
            String::from_str("Failed to read pdfs directory: ").concat(cause.as_str()),
        ),
        BaseScan::Entries(probes) => list_entries(base_dir, probes),
    }
}

/// Once the entries up to some point have failed a listing, the entries after
/// them do not change its result.
pub proof fn lemma_failure_is_final(base: Seq<char>, probes: Seq<ProbeView>, n: int)
    requires
        0 <= n <= probes.len(),
        listing_of_entries(base, probes.take(n)) is Err,
    ensures
        listing_of_entries(base, probes) == listing_of_entries(base, probes.take(n)),
    decreases probes.len() - n,
{
    if n == probes.len() {
        assert(probes.take(n) =~= probes);
    } else {
        let longer = probes.take(n + 1);
        assert(longer.drop_last() =~= probes.take(n));
        lemma_failure_is_final(base, probes, n + 1);
    }
}

} // verus!
