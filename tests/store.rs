use notes::store::{note_from_row, notes_from_rows, notes_matching};
use notes::text::contains_text;
use notes::{StoredRow, Timestamp};

fn row(id: i64, title: &str, content: &str, created: &str, updated: &str) -> StoredRow {
    StoredRow {
        id,
        title: String::from(title),
        content: String::from(content),
        created_at: String::from(created),
        updated_at: String::from(updated),
    }
}

#[test]
fn contains_is_case_sensitive() {
    assert!(contains_text("Shopping List", "Shop"));
    assert!(contains_text("Shopping List", "List"));
    assert!(contains_text("Shopping List", "ping L"));
    assert!(!contains_text("Shopping List", "shop"));
    assert!(!contains_text("Shop", "Shopping"));
    assert!(contains_text("Shopping List", ""));
    assert!(contains_text("", ""));
    assert!(!contains_text("", "a"));
}

#[test]
fn row_with_rfc3339_instants_is_read() {
    let now = Timestamp::from_parts(1, 0);
    let note = note_from_row(
        &row(3, "t", "c", "2024-01-02T03:04:05Z", "2024-01-02T03:04:06.5+00:00"),
        now,
    );
    assert_eq!(note.get_id(), Some(3));
    assert_eq!(note.get_title(), "t");
    assert_eq!(note.get_content(), "c");
    assert_eq!(note.get_created_at(), Timestamp::from_parts(1_704_164_645, 0));
    assert_eq!(note.get_updated_at(), Timestamp::from_parts(1_704_164_646, 500_000_000));
}

#[test]
fn row_with_offset_is_converted_to_utc() {
    let now = Timestamp::from_parts(1, 0);
    let note = note_from_row(&row(1, "t", "c", "2024-01-02 05:04:05+02:00", "x"), now);
    assert_eq!(note.get_created_at(), Timestamp::from_parts(1_704_164_645, 0));
}

#[test]
fn unreadable_instants_fall_back_to_now() {
    let now = Timestamp::from_parts(77, 1);
    let note = note_from_row(&row(1, "t", "c", "2024-01-02 03:04:05", "garbage"), now);
    assert_eq!(note.get_created_at(), now);
    assert_eq!(note.get_updated_at(), now);
}

#[test]
fn rows_become_notes_in_order() {
    let now = Timestamp::from_parts(5, 0);
    let rows = vec![row(1, "a", "x", "", ""), row(2, "b", "y", "", "")];
    let notes = notes_from_rows(&rows, now);
    assert_eq!(notes.len(), 2);
    assert_eq!(notes[0].get_id(), Some(1));
    assert_eq!(notes[1].get_title(), "b");
    assert!(notes_from_rows(&Vec::new(), now).is_empty());
}

#[test]
fn matching_keeps_rows_with_fragment() {
    let now = Timestamp::from_parts(5, 0);
    let rows = vec![
        row(1, "Shopping List", "x", "", ""),
        row(2, "Work", "y", "", ""),
        row(3, "Shop hours", "z", "", ""),
    ];
    let found = notes_matching(&rows, "Shop", now);
    assert_eq!(found.len(), 2);
    assert_eq!(found[0].get_id(), Some(1));
    assert_eq!(found[1].get_id(), Some(3));
    assert!(notes_matching(&rows, "shop", now).is_empty());
}
