//! A personal note keeper: the `Note` entity with its field rules, the
//! decisions of the create / find / update / delete use cases, and the
//! conversion of stored rows back into notes. Storage itself (the SQLite
//! table) and the terminal prompts live with the program that drives these
//! use cases; it performs each store request and hands the answer back.

pub mod lemmas;
pub mod menu;
pub mod note;
pub mod store;
pub mod text;
pub mod timestamp;
pub mod use_cases;

pub use menu::{ActionOptions, CreateNoteAction, DeletedNoteAction, FindNoteAction, Presenter};
pub use note::{Note, NoteField, NoteView, ValidationError};
pub use store::{StorageError, StoredRow};
pub use timestamp::Timestamp;
pub use use_cases::{
    CreateNewNote, CreateNewNoteUseCase, DeletedNote, DeletedNoteUseCase, FindAll, FindById,
    FindByIdNoteUseCase, FindByTitle, InputError, NoteError, UpdateNote, UpdateNoteUseCase,
};
