use vstd::prelude::*;

use crate::timestamp::Timestamp;

verus! {

/// The longest title a note may have, in characters.
pub const TITLE_MAX_CHARS: usize = 100;

/// The longest content a note may have, in characters.
pub const CONTENT_MAX_CHARS: usize = 1000;

/// The two text fields of a note.
#[derive(Clone, Copy, Debug, PartialEq, Eq, Structural)]
pub enum NoteField {
    Title,
    Content,
}

/// Why a title or a content was refused.
#[derive(Clone, Copy, Debug, PartialEq, Eq, Structural)]
pub enum ValidationError {
    EmptyField(NoteField),
    TooLong(NoteField),
}

/// What a note stands for: its id, if the store gave it one, its two texts
/// as characters, and its two instants.
pub struct NoteView {
    pub id: Option<i64>,
    pub title: Seq<char>,
    pub content: Seq<char>,
    pub created_at: Timestamp,
    pub updated_at: Timestamp,
}

/// What is wrong with `text` as the value of `field`, which allows at most
/// `max` characters; `None` when it may be used.
pub open spec fn field_error(text: Seq<char>, field: NoteField, max: nat) -> Option<ValidationError> {
    if text.len() == 0 {
        Some(ValidationError::EmptyField(field))
    } else if text.len() > max {
        Some(ValidationError::TooLong(field))
    } else {
        None
    }
}

pub open spec fn title_error(title: Seq<char>) -> Option<ValidationError> {
    field_error(title, NoteField::Title, TITLE_MAX_CHARS as nat)
}

pub open spec fn content_error(content: Seq<char>) -> Option<ValidationError> {
    field_error(content, NoteField::Content, CONTENT_MAX_CHARS as nat)
}

pub open spec fn valid_title(title: Seq<char>) -> bool {
    1 <= title.len() <= TITLE_MAX_CHARS
}

pub open spec fn valid_content(content: Seq<char>) -> bool {
    1 <= content.len() <= CONTENT_MAX_CHARS
}

/// Why a new note with these texts cannot be made: an empty field is
/// reported before a long one, the title before the content.
pub open spec fn creation_error(title: Seq<char>, content: Seq<char>) -> Option<ValidationError> {
    if title.len() == 0 {
        Some(ValidationError::EmptyField(NoteField::Title))
    } else if content.len() == 0 {
        Some(ValidationError::EmptyField(NoteField::Content))
    } else if title.len() > TITLE_MAX_CHARS {
        Some(ValidationError::TooLong(NoteField::Title))
    } else if content.len() > CONTENT_MAX_CHARS {
        Some(ValidationError::TooLong(NoteField::Content))
    } else {
        None
    }
}

/// The instant a mutation made at `now` leaves in `updated_at`: `now`, or the
/// creation instant where the clock reads earlier than that, so that a note
/// is never updated before it was created.
pub open spec fn touched_at(created_at: Timestamp, now: Timestamp) -> Timestamp {
    if created_at.no_later_than(now) {
        now
    } else {
        created_at
    }
}

/// A titled piece of text with its creation and last-update instants.
#[derive(Clone, Debug)]
pub struct Note {
    id: Option<i64>,
    title: String,
    content: String,
    created_at: Timestamp,
    updated_at: Timestamp,
}

impl View for Note {
    type V = NoteView;

    closed spec fn view(&self) -> NoteView {
        NoteView {
            id: self.id,
            title: self.title@,
            content: self.content@,
            created_at: self.created_at,
            updated_at: self.updated_at,
        }
    }
}

/// Checks `text` against the rules of `field`.
pub fn validate_field(text: &str, field: NoteField, max: usize) -> (r: Result<(), ValidationError>)
    ensures
        r == (match field_error(text@, field, max as nat) {
            Some(e) => Err(e),
            None => Ok(()),
        }),
{
    if text.is_empty() {
        Err(ValidationError::EmptyField(field))
    } else if text.unicode_len() > max {
        Err(ValidationError::TooLong(field))
    } else {
        Ok(())
    }
}

impl Note {
    /// A well-formed note: both texts within their bounds, and not updated
    /// before it was created.
    pub open spec fn wf(self) -> bool {
        &&& valid_title(self@.title)
        &&& valid_content(self@.content)
        &&& self@.created_at.no_later_than(self@.updated_at)
    }

    /// A new, unsaved note stamped with the current time.
    pub fn create(title: String, content: String) -> (r: Result<Note, ValidationError>)
        ensures
            r is Ok <==> valid_title(title@) && valid_content(content@),
            r matches Err(e) ==> creation_error(title@, content@) == Some(e),
            r matches Ok(n) ==> {
                &&& n@.id is None
                &&& n@.title == title@
                &&& n@.content == content@
                &&& n@.created_at == n@.updated_at
                &&& n@.created_at.wf()
                &&& n.wf()
            },
    {
        let now = Timestamp::now();
        Self::create_at(title, content, now)
    }

    /// A new, unsaved note created at `now`.
    pub fn create_at(title: String, content: String, now: Timestamp) -> (r: Result<Note, ValidationError>)
        ensures
            r is Ok <==> valid_title(title@) && valid_content(content@),
            r matches Err(e) ==> creation_error(title@, content@) == Some(e),
            r matches Ok(n) ==> n@ == (NoteView {
                id: None,
                title: title@,
                content: content@,
                created_at: now,
                updated_at: now,
            }),
            r matches Ok(n) ==> n.wf(),
    {
        if title.as_str().is_empty() {
            return Err(ValidationError::EmptyField(NoteField::Title));
        }
        if content.as_str().is_empty() {
            return Err(ValidationError::EmptyField(NoteField::Content));
        }
        if title.as_str().unicode_len() > TITLE_MAX_CHARS {
            return Err(ValidationError::TooLong(NoteField::Title));
        }
        if content.as_str().unicode_len() > CONTENT_MAX_CHARS {
            return Err(ValidationError::TooLong(NoteField::Content));
        }
        Ok(Note { id: None, title, content, created_at: now, updated_at: now })
    }

    /// A note rebuilt from what the store holds. The store keeps only notes
    /// that passed the creation rules, so nothing is checked again here.
    pub fn from_primitives(
        id: i64,
        title: String,
        content: String,
        created_at: Timestamp,
        updated_at: Timestamp,
    ) -> (r: Note)
        ensures
            r@ == (NoteView { id: Some(id), title: title@, content: content@, created_at, updated_at }),
    {
        Note { id: Some(id), title, content, created_at, updated_at }
    }

    pub fn get_id(&self) -> (r: Option<i64>)
        ensures
            r == self@.id,
    {
        self.id
    }

    pub fn get_title(&self) -> (r: &String)
        ensures
            r@ == self@.title,
    {
        &self.title
    }

    pub fn get_content(&self) -> (r: &String)
        ensures
            r@ == self@.content,
    {
        &self.content
    }

    pub fn get_created_at(&self) -> (r: Timestamp)
        ensures
            r == self@.created_at,
    {
        self.created_at
    }

    pub fn get_updated_at(&self) -> (r: Timestamp)
        ensures
            r == self@.updated_at,
    {
        self.updated_at
    }

    /// Attaches the id that the store assigned when it saved this note. A note
    /// gets its id once.
    pub fn set_id(&mut self, value: i64)
        requires
            old(self)@.id is None,
        ensures
            final(self)@ == (NoteView { id: Some(value), ..old(self)@ }),
    {
        self.id = Some(value);
    }

    /// Replaces the title, stamping the note with the current time. A title
    /// that breaks the rules leaves the note as it was.
    pub fn set_title(&mut self, title: String) -> (r: Result<(), ValidationError>)
        ensures
            r matches Err(e) ==> title_error(title@) == Some(e) && *final(self) == *old(self),
            r is Ok <==> title_error(title@) is None,
            r is Ok ==> {
                &&& final(self)@.title == title@
                &&& final(self)@.id == old(self)@.id
                &&& final(self)@.content == old(self)@.content
                &&& final(self)@.created_at == old(self)@.created_at
                &&& old(self)@.created_at.no_later_than(final(self)@.updated_at)
            },
    {
        let now = Timestamp::now();
        self.set_title_at(title, now)
    }

    /// Replaces the title as of `now`. A title that breaks the rules leaves
    /// the note as it was.
    pub fn set_title_at(&mut self, title: String, now: Timestamp) -> (r: Result<(), ValidationError>)
        ensures
            r is Ok <==> title_error(title@) is None,
            r matches Err(e) ==> title_error(title@) == Some(e) && *final(self) == *old(self),
            r is Ok ==> final(self)@ == (NoteView {
                title: title@,
                updated_at: touched_at(old(self)@.created_at, now),
                ..old(self)@
            }),
    {
        match validate_field(title.as_str(), NoteField::Title, TITLE_MAX_CHARS) {
            Err(e) => Err(e),
            Ok(()) => {
                self.title = title;
                self.updated_at = self.created_at.latest(now);
                Ok(())
            },
        }
    }

    /// Replaces the content, stamping the note with the current time. A
    /// content that breaks the rules leaves the note as it was.
    pub fn set_content(&mut self, content: String) -> (r: Result<(), ValidationError>)
        ensures
            r matches Err(e) ==> content_error(content@) == Some(e) && *final(self) == *old(self),
            r is Ok <==> content_error(content@) is None,
            r is Ok ==> {
                &&& final(self)@.content == content@
                &&& final(self)@.id == old(self)@.id
                &&& final(self)@.title == old(self)@.title
                &&& final(self)@.created_at == old(self)@.created_at
                &&& old(self)@.created_at.no_later_than(final(self)@.updated_at)
            },
    {
        let now = Timestamp::now();
        self.set_content_at(content, now)
    }

    /// Replaces the content as of `now`. A content that breaks the rules
    /// leaves the note as it was.
    pub fn set_content_at(&mut self, content: String, now: Timestamp) -> (r: Result<(), ValidationError>)
        ensures
            r is Ok <==> content_error(content@) is None,
            r matches Err(e) ==> content_error(content@) == Some(e) && *final(self) == *old(self),
            r is Ok ==> final(self)@ == (NoteView {
                content: content@,
                updated_at: touched_at(old(self)@.created_at, now),
                ..old(self)@
            }),
    {
        match validate_field(content.as_str(), NoteField::Content, CONTENT_MAX_CHARS) {
            Err(e) => Err(e),
            Ok(()) => {
                self.content = content;
                self.updated_at = self.created_at.latest(now);
                Ok(())
            },
        }
    }

    /// Sets the last-update instant, which may not precede the creation.
    pub fn set_updated_at(&mut self, value: Timestamp)
        requires
            old(self)@.created_at.no_later_than(value),
        ensures
            final(self)@ == (NoteView { updated_at: value, ..old(self)@ }),
    {
        self.updated_at = value;
    }
}

} // verus!
