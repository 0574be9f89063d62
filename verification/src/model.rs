//! The set record and the values it is made of.

use crate::identity::{current_time, is_set_id_text, random_set_id};
use crate::paths::{
    original_path, original_path_text, translated_path, translated_path_text, DEFAULT_STORE_DIR,
};
use vstd::prelude::*;

verus! {

/// A point in time on the UTC scale: whole seconds since the Unix epoch and
/// the nanoseconds that have passed within that second.
#[derive(Debug, Clone, Copy, PartialEq, Eq, Structural)]
pub struct Timestamp {
    pub seconds: i64,
    pub nanos: u32,
}

/// A saved viewing position within a set.
#[derive(Debug, Clone, Copy, PartialEq, Eq, Structural)]
pub struct Bookmark {
    pub page: u32,
    /// The zoom factor, held as the bit pattern of an IEEE 754 single.
    pub zoom_bits: u32,
}

/// One managed set: an original and a translated document with their metadata.
#[derive(Debug, PartialEq, Eq)]
pub struct PDFSet {
    pub id: String,
    pub name: String,
    pub created_at: Timestamp,
    pub last_opened_at: Option<Timestamp>,
    pub original_pdf_path: String,
    pub translated_pdf_path: String,
    pub bookmark: Option<Bookmark>,
}

/// What a [`PDFSet`] holds, with its texts as sequences of characters.
pub struct SetView {
    pub id: Seq<char>,
    pub name: Seq<char>,
    pub created_at: Timestamp,
    pub last_opened_at: Option<Timestamp>,
    pub original_pdf_path: Seq<char>,
    pub translated_pdf_path: Seq<char>,
    pub bookmark: Option<Bookmark>,
}

impl View for PDFSet {
    type V = SetView;

    open spec fn view(&self) -> SetView {
        SetView {
            id: self.id@,
            name: self.name@,
            created_at: self.created_at,
            last_opened_at: self.last_opened_at,
            original_pdf_path: self.original_pdf_path@,
            translated_pdf_path: self.translated_pdf_path@,
            bookmark: self.bookmark,
        }
    }
}

impl SetView {
    /// The record of a set that has just been made: never opened, without a
    /// bookmark, its documents under the default store directory.
    pub open spec fn fresh(id: Seq<char>, created_at: Timestamp, name: Seq<char>) -> SetView {
        SetView {
            id,
            name,
            created_at,
            last_opened_at: None,
            original_pdf_path: original_path_text(DEFAULT_STORE_DIR@, id),
            translated_pdf_path: translated_path_text(DEFAULT_STORE_DIR@, id),
            bookmark: None,
        }
    }

    /// Whether the two document paths are those of the directory `dir_name`
    /// under `base`.
    pub open spec fn located_under(self, base: Seq<char>, dir_name: Seq<char>) -> bool {
        &&& self.original_pdf_path == original_path_text(base, dir_name)
        &&& self.translated_pdf_path == translated_path_text(base, dir_name)
    }

    /// This record with its two document paths replaced by those of the
    /// directory `dir_name` under `base`, and nothing else changed.
    pub open spec fn relocated(self, base: Seq<char>, dir_name: Seq<char>) -> SetView {
        SetView {
            original_pdf_path: original_path_text(base, dir_name),
            translated_pdf_path: translated_path_text(base, dir_name),
            ..self
        }
    }
}

impl PDFSet {
    /// Makes the record of a new set called `name`, with a fresh random
    /// identifier and the current time as its time of creation.
    pub fn new(name: String) -> (set: Self)
        ensures
            set@ == SetView::fresh(set@.id, set@.created_at, name@),
            is_set_id_text(set@.id),
            set@.id.len() > 0,
            set@.created_at.nanos < 1_000_000_000,
    {
        let id = random_set_id();
        let created_at = current_time();
        PDFSet::with_identity(id, created_at, name)
    }

    /// Makes the record of a new set called `name` from an identifier and a
    /// time of creation that the caller supplies.
    pub fn with_identity(id: String, created_at: Timestamp, name: String) -> (set: Self)
        ensures
            set@ == SetView::fresh(id@, created_at, name@),
    {
        let original_pdf_path = original_path(DEFAULT_STORE_DIR, id.as_str());
        let translated_pdf_path = translated_path(DEFAULT_STORE_DIR, id.as_str());
        PDFSet {
            id,
            name,
            created_at,
            last_opened_at: None,
            original_pdf_path,
            translated_pdf_path,
            bookmark: None,
        }
    }

    /// A copy of this record whose two document paths are those of the
    /// directory `dir_name` under `base`.
    pub fn relocated(&self, base: &str, dir_name: &str) -> (set: Self)
        ensures
            set@ == self@.relocated(base@, dir_name@),
    {
        PDFSet {
            id: self.id.clone(),
            name: self.name.clone(),
            created_at: self.created_at,
            last_opened_at: self.last_opened_at,
            original_pdf_path: original_path(base, dir_name),
            translated_pdf_path: translated_path(base, dir_name),
            bookmark: self.bookmark,
        }
    }
}

impl Clone for PDFSet {
    fn clone(&self) -> (copy: Self)
        ensures
            copy@ == self@,
    {
        PDFSet {
            id: self.id.clone(),
            name: self.name.clone(),
            created_at: self.created_at,
            last_opened_at: self.last_opened_at,
            original_pdf_path: self.original_pdf_path.clone(),
            translated_pdf_path: self.translated_pdf_path.clone(),
            bookmark: self.bookmark,
        }
    }
}

} // verus!
