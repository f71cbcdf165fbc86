use vstd::prelude::*;

use crate::note::{Note, NoteView};
use crate::text::{contains_fragment, contains_text};
use crate::timestamp::{parse_instant, rfc3339_instant, Timestamp};

verus! {

/// A row of the notes table as the store reads it back: the id the store
/// assigned, the two texts, and the two instants as the text the storage
/// engine wrote for them.
pub struct StoredRow {
    pub id: i64,
    pub title: String,
    pub content: String,
    pub created_at: String,
    pub updated_at: String,
}

/// The store could not be opened, read or written; `message` says what the
/// engine reported.
#[derive(Debug)]
pub struct StorageError {
    pub message: String,
}

/// The instant that a stored text names, or `now` where it names none. A
/// text that cannot be read does not fail the lookup: the current time
/// stands in for it.
pub open spec fn stored_instant(text: Seq<char>, now: Timestamp) -> Timestamp {
    match rfc3339_instant(text) {
        Some(t) => t,
        None => now,
    }
}

/// The note that a stored row describes, read at `now`.
pub open spec fn hydrated(row: StoredRow, now: Timestamp) -> NoteView {
    NoteView {
        id: Some(row.id),
        title: row.title@,
        content: row.content@,
        created_at: stored_instant(row.created_at@, now),
        updated_at: stored_instant(row.updated_at@, now),
    }
}

/// The rows whose title holds `fragment` (case counts), in the store's order.
pub open spec fn rows_matching(rows: Seq<StoredRow>, fragment: Seq<char>) -> Seq<StoredRow> {
    rows.filter(|row: StoredRow| contains_fragment(row.title@, fragment))
}

/// The notes that `rows` describe, in order, read at `now`.
pub open spec fn notes_of(rows: Seq<StoredRow>, now: Timestamp) -> Seq<NoteView> {
    rows.map_values(|row: StoredRow| hydrated(row, now))
}

/// The views of `notes`, in order.
pub open spec fn views_of(notes: Seq<Note>) -> Seq<NoteView> {
    notes.map_values(|n: Note| n@)
}

/// Reads a stored text as an instant, falling back to `now`.
fn instant_from_text(text: &String, now: Timestamp) -> (r: Timestamp)
    ensures
        r == stored_instant(text@, now),
{
    Timestamp::stored_or(parse_instant(text.as_str()), now)
}

/// The note that `row` describes. Stored instants that cannot be read are
/// taken to be `now`.
pub fn note_from_row(row: &StoredRow, now: Timestamp) -> (r: Note)
    ensures
        r@ == hydrated(*row, now),
{
    let created_at = instant_from_text(&row.created_at, now);
    let updated_at = instant_from_text(&row.updated_at, now);
    Note::from_primitives(row.id, row.title.clone(), row.content.clone(), created_at, updated_at)
}

/// The notes that `rows` describe, in the same order.
pub fn notes_from_rows(rows: &Vec<StoredRow>, now: Timestamp) -> (r: Vec<Note>)
    ensures
        views_of(r@) == notes_of(rows@, now),
{
    let mut notes: Vec<Note> = Vec::new();
    let mut i: usize = 0;
    while i < rows.len()
        invariant
            i <= rows@.len(),
            views_of(notes@) == notes_of(rows@.subrange(0, i as int), now),
        decreases rows@.len() - i,
    {
        let note = note_from_row(&rows[i], now);
        let ghost before = notes@;
        notes.push(note);
        proof {
            let prefix = rows@.subrange(0, i as int);
            assert(rows@.subrange(0, i + 1) =~= prefix.push(rows@[i as int]));
            assert(views_of(notes@) =~= views_of(before).push(note@));
            assert(notes_of(prefix.push(rows@[i as int]), now) =~= notes_of(prefix, now).push(
                hydrated(rows@[i as int], now),
            ));
        }
        i = i + 1;
    }
    proof {
        assert(rows@.subrange(0, rows@.len() as int) =~= rows@);
    }
    notes
}

/// The notes described by those of `rows` whose title holds `fragment`, in
/// the same order. Case counts: "shop" is not found in "Shopping List".
pub fn notes_matching(rows: &Vec<StoredRow>, fragment: &str, now: Timestamp) -> (r: Vec<Note>)
    ensures
        views_of(r@) == notes_of(rows_matching(rows@, fragment@), now),
{
    let ghost keep = |row: StoredRow| contains_fragment(row.title@, fragment@);
    let mut notes: Vec<Note> = Vec::new();
    let mut i: usize = 0;
    while i < rows.len()
        invariant
            i <= rows@.len(),
            keep == (|row: StoredRow| contains_fragment(row.title@, fragment@)),
            views_of(notes@) == notes_of(rows@.subrange(0, i as int).filter(keep), now),
        decreases rows@.len() - i,
    {
        let ghost before = rows@.subrange(0, i as int);
        proof {
            assert(rows@.subrange(0, i + 1) =~= before.push(rows@[i as int]));
            before.lemma_filter_push(rows@[i as int], keep);
        }
        if contains_text(rows[i].title.as_str(), fragment) {
            let note = note_from_row(&rows[i], now);
            let ghost earlier = notes@;
            notes.push(note);
            proof {
                let kept = before.filter(keep);
                assert(views_of(notes@) =~= views_of(earlier).push(note@));
                assert(notes_of(kept.push(rows@[i as int]), now) =~= notes_of(kept, now).push(
                    hydrated(rows@[i as int], now),
                ));
            }
        }
        i = i + 1;
    }
    proof {
        assert(rows@.subrange(0, rows@.len() as int) =~= rows@);
    }
    notes
}

} // verus!
