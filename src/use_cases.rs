use vstd::prelude::*;

use crate::note::{
    content_error, creation_error, title_error, touched_at, valid_content, valid_title, Note,
    NoteField, NoteView, ValidationError, CONTENT_MAX_CHARS, TITLE_MAX_CHARS,
};
use crate::store::{
    hydrated, note_from_row, notes_from_rows, notes_matching, notes_of, rows_matching, views_of,
    StorageError, StoredRow,
};
use crate::timestamp::Timestamp;

verus! {

// Each use case decides everything but the store's work. Where it needs the
// store, it stops: the caller performs the request (save, look up, list,
// write, remove) and hands the store's answer to the next step.

/// Which operation-level input was refused.
#[derive(Clone, Copy, Debug, PartialEq, Eq, Structural)]
pub enum InputError {
    /// A note id must be positive.
    NonPositiveId,
    /// A search fragment, a new title or a new content was empty.
    EmptyText,
}

/// Why a use case failed.
#[derive(Debug)]
pub enum NoteError {
    /// A field broke the note's rules.
    Validation(ValidationError),
    /// An input of the operation itself was refused, before the store was asked.
    InvalidInput(InputError),
    /// No note answers the request.
    NotFound,
    /// The store failed.
    Storage(StorageError),
}

/// The outcome of a lookup, seen through the notes' views.
pub open spec fn view_of_result(r: Result<Note, NoteError>) -> Result<NoteView, NoteError> {
    match r {
        Ok(n) => Ok(n@),
        Err(e) => Err(e),
    }
}

/// The outcome of a search or a listing, seen through the notes' views.
pub open spec fn views_of_result(r: Result<Vec<Note>, NoteError>) -> Result<Seq<NoteView>, NoteError> {
    match r {
        Ok(v) => Ok(views_of(v@)),
        Err(e) => Err(e),
    }
}

/// The check made on a note id before the store is asked.
pub open spec fn id_check(id: i64) -> Result<(), NoteError> {
    if id <= 0 {
        Err(NoteError::InvalidInput(InputError::NonPositiveId))
    } else {
        Ok(())
    }
}

/// The check made on an update's inputs before the store is asked.
pub open spec fn update_check(id: i64, title: Seq<char>, content: Seq<char>) -> Result<(), NoteError> {
    if id <= 0 {
        Err(NoteError::InvalidInput(InputError::NonPositiveId))
    } else if title.len() == 0 || content.len() == 0 {
        Err(NoteError::InvalidInput(InputError::EmptyText))
    } else if title.len() > TITLE_MAX_CHARS {
        Err(NoteError::Validation(ValidationError::TooLong(NoteField::Title)))
    } else if content.len() > CONTENT_MAX_CHARS {
        Err(NoteError::Validation(ValidationError::TooLong(NoteField::Content)))
    } else {
        Ok(())
    }
}

/// A failure of the store, passed on.
pub open spec fn store_failure<T>(e: StorageError) -> Result<T, NoteError> {
    Err(NoteError::Storage(e))
}

/// What a lookup by id answers, given what the store found, read at `now`.
pub open spec fn lookup_outcome(found: Result<Option<StoredRow>, StorageError>, now: Timestamp) -> Result<NoteView, NoteError> {
    match found {
        Err(e) => store_failure(e),
        Ok(None) => Err(NoteError::NotFound),
        Ok(Some(row)) => Ok(hydrated(row, now)),
    }
}

/// What a listing answers: the notes, or `NotFound` where there are none.
pub open spec fn listing_outcome(listed: Result<Vec<StoredRow>, StorageError>, now: Timestamp) -> Result<Seq<NoteView>, NoteError> {
    match listed {
        Err(e) => store_failure(e),
        Ok(rows) => if rows@.len() == 0 {
            Err(NoteError::NotFound)
        } else {
            Ok(notes_of(rows@, now))
        },
    }
}

/// What a search by title fragment answers: the notes whose title holds the
/// fragment, or `NotFound` where none does.
pub open spec fn search_outcome(
    fragment: Seq<char>,
    listed: Result<Vec<StoredRow>, StorageError>,
    now: Timestamp,
) -> Result<Seq<NoteView>, NoteError> {
    match listed {
        Err(e) => store_failure(e),
        Ok(rows) => if rows_matching(rows@, fragment).len() == 0 {
            Err(NoteError::NotFound)
        } else {
            Ok(notes_of(rows_matching(rows@, fragment), now))
        },
    }
}

/// The note an update is to write, given what the store found for its id:
/// the stored note with the new texts, stamped at `now`.
pub open spec fn revision_outcome(
    title: Seq<char>,
    content: Seq<char>,
    found: Result<Option<StoredRow>, StorageError>,
    now: Timestamp,
) -> Result<NoteView, NoteError> {
    match found {
        Err(e) => store_failure(e),
        Ok(None) => Err(NoteError::NotFound),
        Ok(Some(row)) => match title_error(title) {
            Some(e) => Err(NoteError::Validation(e)),
            None => match content_error(content) {
                Some(e) => Err(NoteError::Validation(e)),
                None => Ok(
                    NoteView {
                        title,
                        content,
                        updated_at: touched_at(hydrated(row, now).created_at, now),
                        ..hydrated(row, now)
                    },
                ),
            },
        },
    }
}

/// What a write or a removal answers, given the store's acknowledgement.
pub open spec fn write_outcome(done: Result<(), StorageError>) -> Result<(), NoteError> {
    match done {
        Ok(()) => Ok(()),
        Err(e) => store_failure(e),
    }
}

fn refuse_id(id: i64) -> (r: Result<(), NoteError>)
    ensures
        r == id_check(id),
{
    if id <= 0 {
        Err(NoteError::InvalidInput(InputError::NonPositiveId))
    } else {
        Ok(())
    }
}

/// Creates a note and has the store save it.
pub struct CreateNewNote;

impl CreateNewNote {
    pub fn new() -> (r: Self) {
        CreateNewNote
    }

    /// Builds the new note, stamped with the current time; it is then to be
    /// saved. Nothing is stored yet.
    pub fn execute(&self, title: String, content: String) -> (r: Result<Note, NoteError>)
        ensures
            r is Ok <==> valid_title(title@) && valid_content(content@),
            r matches Err(e) ==> e == NoteError::Validation(creation_error(title@, content@)->0),
            r matches Ok(n) ==> {
                &&& n@.id is None
                &&& n@.title == title@
                &&& n@.content == content@
                &&& n@.created_at == n@.updated_at
                &&& n.wf()
            },
    {
        match Note::create(title, content) {
            Ok(n) => Ok(n),
            Err(e) => Err(NoteError::Validation(e)),
        }
    }

    /// Attaches the id that the store assigned on saving `note`, or passes on
    /// the store's failure.
    pub fn complete(&self, note: Note, saved: Result<i64, StorageError>) -> (r: Result<Note, NoteError>)
        requires
            note@.id is None,
        ensures
            view_of_result(r) == (match saved {
                Ok(id) => Ok(NoteView { id: Some(id), ..note@ }),
                Err(e) => store_failure(e),
            }),
    {
        match saved {
            Ok(id) => {
                let mut note = note;
                note.set_id(id);
                Ok(note)
            },
            Err(e) => Err(NoteError::Storage(e)),
        }
    }
}

/// Looks a note up by its id.
pub struct FindById;

impl FindById {
    pub fn new() -> (r: Self) {
        FindById
    }

    /// Checks the id; on `Ok` the store is to be asked for the note with it.
    pub fn execute(&self, id: i64) -> (r: Result<(), NoteError>)
        ensures
            r == id_check(id),
    {
        refuse_id(id)
    }

    /// The note the store found, read at `now`, or `NotFound`.
    pub fn complete_at(&self, found: Result<Option<StoredRow>, StorageError>, now: Timestamp) -> (r: Result<Note, NoteError>)
        ensures
            view_of_result(r) == lookup_outcome(found, now),
    {
        match found {
            Err(e) => Err(NoteError::Storage(e)),
            Ok(None) => Err(NoteError::NotFound),
            Ok(Some(row)) => Ok(note_from_row(&row, now)),
        }
    }

    /// The note the store found, or `NotFound`; stored instants that cannot
    /// be read are taken to be the current time.
    pub fn complete(&self, found: Result<Option<StoredRow>, StorageError>) -> (r: Result<Note, NoteError>)
        ensures
            exists|now: Timestamp| view_of_result(r) == #[trigger] lookup_outcome(found, now),
    {
        let now = Timestamp::now();
        self.complete_at(found, now)
    }
}

/// Lists every note.
pub struct FindAll;

impl FindAll {
    pub fn new() -> (r: Self) {
        FindAll
    }

    /// The notes the store listed, read at `now`, or `NotFound` where it
    /// holds none.
    pub fn execute_at(&self, listed: Result<Vec<StoredRow>, StorageError>, now: Timestamp) -> (r: Result<Vec<Note>, NoteError>)
        ensures
            views_of_result(r) == listing_outcome(listed, now),
    {
        match listed {
            Err(e) => Err(NoteError::Storage(e)),
            Ok(rows) => {
                if rows.len() == 0 {
                    Err(NoteError::NotFound)
                } else {
                    Ok(notes_from_rows(&rows, now))
                }
            },
        }
    }

    /// The notes the store listed, or `NotFound` where it holds none; stored
    /// instants that cannot be read are taken to be the current time.
    pub fn execute(&self, listed: Result<Vec<StoredRow>, StorageError>) -> (r: Result<Vec<Note>, NoteError>)
        ensures
            exists|now: Timestamp| views_of_result(r) == #[trigger] listing_outcome(listed, now),
    {
        let now = Timestamp::now();
        self.execute_at(listed, now)
    }
}

/// Finds the notes whose title holds a fragment.
pub struct FindByTitle;

impl FindByTitle {
    pub fn new() -> (r: Self) {
        FindByTitle
    }

    /// Checks the fragment; on `Ok` the store is to be asked for the notes
    /// whose title may hold it.
    pub fn execute(&self, fragment: &String) -> (r: Result<(), NoteError>)
        ensures
            r == (if fragment@.len() == 0 {
                Err(NoteError::InvalidInput(InputError::EmptyText))
            } else {
                Ok(())
            }),
    {
        if fragment.as_str().is_empty() {
            Err(NoteError::InvalidInput(InputError::EmptyText))
        } else {
            Ok(())
        }
    }

    /// Keeps, of the rows the store listed, those whose title holds
    /// `fragment` exactly (case counts), read at `now`; `NotFound` where none
    /// does. The store may list more rows than match.
    pub fn complete_at(
        &self,
        fragment: &String,
        listed: Result<Vec<StoredRow>, StorageError>,
        now: Timestamp,
    ) -> (r: Result<Vec<Note>, NoteError>)
        ensures
            views_of_result(r) == search_outcome(fragment@, listed, now),
    {
        match listed {
            Err(e) => Err(NoteError::Storage(e)),
            Ok(rows) => {
                let notes = notes_matching(&rows, fragment.as_str(), now);
                proof {
                    assert(views_of(notes@).len() == notes@.len());
                    assert(notes_of(rows_matching(rows@, fragment@), now).len() == rows_matching(
                        rows@,
                        fragment@,
                    ).len());
                }
                if notes.len() == 0 {
                    Err(NoteError::NotFound)
                } else {
                    Ok(notes)
                }
            },
        }
    }

    /// As `complete_at`, with stored instants that cannot be read taken to
    /// be the current time.
    pub fn complete(&self, fragment: &String, listed: Result<Vec<StoredRow>, StorageError>) -> (r: Result<Vec<Note>, NoteError>)
        ensures
            exists|now: Timestamp| views_of_result(r) == #[trigger] search_outcome(fragment@, listed, now),
    {
        let now = Timestamp::now();
        self.complete_at(fragment, listed, now)
    }
}

/// Replaces the title and content of a stored note.
pub struct UpdateNote;

impl UpdateNote {
    pub fn new() -> (r: Self) {
        UpdateNote
    }

    /// Checks the id and the new texts; on `Ok` the store is to be asked for
    /// the note with that id.
    pub fn execute(&self, id: i64, title: &String, content: &String) -> (r: Result<(), NoteError>)
        ensures
            r == update_check(id, title@, content@),
    {
        if id <= 0 {
            return Err(NoteError::InvalidInput(InputError::NonPositiveId));
        }
        if title.as_str().is_empty() || content.as_str().is_empty() {
            return Err(NoteError::InvalidInput(InputError::EmptyText));
        }
        if title.as_str().unicode_len() > TITLE_MAX_CHARS {
            return Err(NoteError::Validation(ValidationError::TooLong(NoteField::Title)));
        }
        if content.as_str().unicode_len() > CONTENT_MAX_CHARS {
            return Err(NoteError::Validation(ValidationError::TooLong(NoteField::Content)));
        }
        Ok(())
    }

    /// The note the store found, with the new texts and stamped at `now`;
    /// it is then to be written back. `NotFound` where the store found none.
    pub fn apply_at(
        &self,
        title: String,
        content: String,
        found: Result<Option<StoredRow>, StorageError>,
        now: Timestamp,
    ) -> (r: Result<Note, NoteError>)
        ensures
            view_of_result(r) == revision_outcome(title@, content@, found, now),
    {
        match found {
            Err(e) => Err(NoteError::Storage(e)),
            Ok(None) => Err(NoteError::NotFound),
            Ok(Some(row)) => {
                let mut note = note_from_row(&row, now);
                match note.set_title_at(title, now) {
                    Err(e) => Err(NoteError::Validation(e)),
                    Ok(()) => match note.set_content_at(content, now) {
                        Err(e) => Err(NoteError::Validation(e)),
                        Ok(()) => Ok(note),
                    },
                }
            },
        }
    }

    /// As `apply_at`, stamped with the current time.
    pub fn apply(
        &self,
        title: String,
        content: String,
        found: Result<Option<StoredRow>, StorageError>,
    ) -> (r: Result<Note, NoteError>)
        ensures
            exists|now: Timestamp|
                view_of_result(r) == #[trigger] revision_outcome(title@, content@, found, now),
    {
        let now = Timestamp::now();
        self.apply_at(title, content, found, now)
    }

    /// The updated note once the store has written it, or the store's failure.
    pub fn complete(&self, note: Note, written: Result<(), StorageError>) -> (r: Result<Note, NoteError>)
        ensures
            view_of_result(r) == (match written {
                Ok(()) => Ok(note@),
                Err(e) => store_failure(e),
            }),
    {
        match written {
            Ok(()) => Ok(note),
            Err(e) => Err(NoteError::Storage(e)),
        }
    }
}

/// Removes a note by its id. Removing an id that the store does not hold is
/// no error.
pub struct DeletedNote;

impl DeletedNote {
    pub fn new() -> (r: Self) {
        DeletedNote
    }

    /// Checks the id; on `Ok` the store is to remove the note with it.
    pub fn execute(&self, id: i64) -> (r: Result<(), NoteError>)
        ensures
            r == id_check(id),
    {
        refuse_id(id)
    }

    /// Success once the store has removed the note, or the store's failure.
    pub fn complete(&self, removed: Result<(), StorageError>) -> (r: Result<(), NoteError>)
        ensures
            r == write_outcome(removed),
    {
        match removed {
            Ok(()) => Ok(()),
            Err(e) => Err(NoteError::Storage(e)),
        }
    }
}

/// Another name for [`CreateNewNote`].
pub type CreateNewNoteUseCase = CreateNewNote;

/// Another name for [`FindById`].
pub type FindByIdNoteUseCase = FindById;

/// Another name for [`UpdateNote`].
pub type UpdateNoteUseCase = UpdateNote;

/// Another name for [`DeletedNote`].
pub type DeletedNoteUseCase = DeletedNote;

} // verus!
