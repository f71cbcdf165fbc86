use notes::{Note, NoteField, Timestamp, ValidationError};

fn text(c: char, n: usize) -> String {
    std::iter::repeat(c).take(n).collect()
}

#[test]
fn create_valid_note_has_equal_timestamps() {
    let note = Note::create(String::from("My First Note"), String::from("Some content")).unwrap();
    assert_eq!(note.get_id(), None);
    assert_eq!(note.get_title(), "My First Note");
    assert_eq!(note.get_content(), "Some content");
    assert_eq!(note.get_created_at(), note.get_updated_at());
}

#[test]
fn create_accepts_bounds() {
    let note = Note::create(text('t', 100), text('c', 1000)).unwrap();
    assert_eq!(note.get_title().chars().count(), 100);
    assert_eq!(note.get_updated_at(), note.get_created_at());
    assert!(Note::create(text('t', 1), text('c', 1)).is_ok());
}

#[test]
fn create_counts_characters_not_bytes() {
    let title = text('é', 100);
    assert_eq!(title.len(), 200);
    assert!(Note::create(title, text('ü', 1000)).is_ok());
    assert_eq!(
        Note::create(text('é', 101), String::from("x")).unwrap_err(),
        ValidationError::TooLong(NoteField::Title)
    );
}

#[test]
fn create_rejects_empty_title() {
    let r = Note::create(String::new(), String::from("content"));
    assert_eq!(r.unwrap_err(), ValidationError::EmptyField(NoteField::Title));
}

#[test]
fn create_rejects_long_title() {
    let r = Note::create(text('t', 101), String::from("content"));
    assert_eq!(r.unwrap_err(), ValidationError::TooLong(NoteField::Title));
}

#[test]
fn create_rejects_empty_content() {
    let r = Note::create(String::from("title"), String::new());
    assert_eq!(r.unwrap_err(), ValidationError::EmptyField(NoteField::Content));
}

#[test]
fn create_rejects_long_content() {
    let r = Note::create(String::from("title"), text('c', 1001));
    assert_eq!(r.unwrap_err(), ValidationError::TooLong(NoteField::Content));
}

#[test]
fn create_reports_empty_before_long() {
    let r = Note::create(text('t', 101), String::new());
    assert_eq!(r.unwrap_err(), ValidationError::EmptyField(NoteField::Content));
}

#[test]
fn create_at_stamps_given_instant() {
    let at = Timestamp::from_parts(1_700_000_000, 5);
    let note = Note::create_at(String::from("a"), String::from("b"), at).unwrap();
    assert_eq!(note.get_created_at(), at);
    assert_eq!(note.get_updated_at(), at);
}

#[test]
fn from_primitives_keeps_values() {
    let created = Timestamp::from_parts(10, 0);
    let updated = Timestamp::from_parts(20, 0);
    let note = Note::from_primitives(7, String::from("t"), String::from("c"), created, updated);
    assert_eq!(note.get_id(), Some(7));
    assert_eq!(note.get_title(), "t");
    assert_eq!(note.get_content(), "c");
    assert_eq!(note.get_created_at(), created);
    assert_eq!(note.get_updated_at(), updated);
}

#[test]
fn set_id_attaches_id() {
    let mut note = Note::create(String::from("t"), String::from("c")).unwrap();
    note.set_id(42);
    assert_eq!(note.get_id(), Some(42));
}

#[test]
fn set_title_at_replaces_and_stamps() {
    let created = Timestamp::from_parts(100, 0);
    let mut note = Note::create_at(String::from("old"), String::from("c"), created).unwrap();
    let later = Timestamp::from_parts(200, 7);
    assert!(note.set_title_at(String::from("new"), later).is_ok());
    assert_eq!(note.get_title(), "new");
    assert_eq!(note.get_content(), "c");
    assert_eq!(note.get_updated_at(), later);
    assert_eq!(note.get_created_at(), created);
}

#[test]
fn set_title_rejects_and_keeps_note() {
    let created = Timestamp::from_parts(100, 0);
    let mut note = Note::create_at(String::from("old"), String::from("c"), created).unwrap();
    let r = note.set_title_at(String::new(), Timestamp::from_parts(300, 0));
    assert_eq!(r.unwrap_err(), ValidationError::EmptyField(NoteField::Title));
    assert_eq!(note.get_title(), "old");
    assert_eq!(note.get_updated_at(), created);
    let r = note.set_title(text('x', 101));
    assert_eq!(r.unwrap_err(), ValidationError::TooLong(NoteField::Title));
    assert_eq!(note.get_title(), "old");
}

#[test]
fn set_content_at_replaces_and_stamps() {
    let created = Timestamp::from_parts(100, 0);
    let mut note = Note::create_at(String::from("t"), String::from("old"), created).unwrap();
    let later = Timestamp::from_parts(150, 0);
    assert!(note.set_content_at(String::from("new"), later).is_ok());
    assert_eq!(note.get_content(), "new");
    assert_eq!(note.get_updated_at(), later);
}

#[test]
fn set_content_rejects_and_keeps_note() {
    let mut note = Note::create(String::from("t"), String::from("old")).unwrap();
    let before = note.get_updated_at();
    assert_eq!(
        note.set_content(String::new()).unwrap_err(),
        ValidationError::EmptyField(NoteField::Content)
    );
    assert_eq!(
        note.set_content(text('c', 1001)).unwrap_err(),
        ValidationError::TooLong(NoteField::Content)
    );
    assert_eq!(note.get_content(), "old");
    assert_eq!(note.get_updated_at(), before);
}

#[test]
fn mutation_never_stamps_before_creation() {
    let created = Timestamp::from_parts(500, 0);
    let mut note = Note::create_at(String::from("t"), String::from("c"), created).unwrap();
    assert!(note.set_title_at(String::from("u"), Timestamp::from_parts(400, 0)).is_ok());
    assert_eq!(note.get_updated_at(), created);
}

#[test]
fn set_title_with_clock_keeps_order() {
    let mut note = Note::create(String::from("t"), String::from("c")).unwrap();
    assert!(note.set_title(String::from("u")).is_ok());
    assert_eq!(note.get_title(), "u");
    assert!(note.get_created_at().is_no_later_than(&note.get_updated_at()));
}

#[test]
fn set_updated_at_sets_instant() {
    let mut note =
        Note::create_at(String::from("t"), String::from("c"), Timestamp::from_parts(1, 0)).unwrap();
    note.set_updated_at(Timestamp::from_parts(9, 9));
    assert_eq!(note.get_updated_at(), Timestamp::from_parts(9, 9));
}
