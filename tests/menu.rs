use notes::menu::{note_option, option_note_id};
use notes::text::{find_text, same_text};
use notes::{ActionOptions, CreateNoteAction, Note, Presenter, Timestamp};

const OPTIONS: [&str; 4] = ["Create a new note", "Search by title", "Update a note", "Delete a note"];

#[test]
fn each_menu_entry_maps_to_its_action() {
    let p = Presenter::new();
    assert_eq!(p.map_choice_to_action("Create a new note", &OPTIONS), Some(ActionOptions::Create));
    assert_eq!(p.map_choice_to_action("Search by title", &OPTIONS), Some(ActionOptions::Find));
    assert_eq!(p.map_choice_to_action("Update a note", &OPTIONS), Some(ActionOptions::Update));
    assert_eq!(p.map_choice_to_action("Delete a note", &OPTIONS), Some(ActionOptions::Delete));
}

#[test]
fn unknown_choice_maps_to_nothing() {
    let p = Presenter::new();
    assert_eq!(p.map_choice_to_action("Quit", &OPTIONS), None);
    assert_eq!(p.map_choice_to_action("delete a note", &OPTIONS), None);
    assert_eq!(p.map_choice_to_action("x", &[]), None);
}

#[test]
fn first_equal_entry_decides() {
    let p = Presenter::new();
    assert_eq!(p.map_choice_to_action("b", &["a", "b", "b"]), Some(ActionOptions::Find));
    assert_eq!(p.map_choice_to_action("e", &["a", "b", "c", "d", "e"]), None);
}

#[test]
fn preview_of_content() {
    assert_eq!(CreateNoteAction::content_preview(""), "<skipped>");
    assert_eq!(CreateNoteAction::content_preview("short"), "short");
    assert_eq!(CreateNoteAction::content_preview("12345678901234567890"), "12345678901234567890");
    assert_eq!(CreateNoteAction::content_preview("123456789012345678901"), "12345678901234567...");
    assert_eq!(CreateNoteAction::content_preview(&"é".repeat(25)), format!("{}...", "é".repeat(17)));
}

#[test]
fn note_option_lists_id_and_title() {
    let note = Note::from_primitives(
        12,
        String::from("Shopping List"),
        String::from("Milk"),
        Timestamp::from_parts(0, 0),
        Timestamp::from_parts(0, 0),
    );
    assert_eq!(note_option(&note), "12 - Shopping List");
    let unsaved = Note::create(String::from("Draft"), String::from("x")).unwrap();
    assert_eq!(note_option(&unsaved), "0 - Draft");
}

#[test]
fn option_id_is_read_back() {
    assert_eq!(option_note_id("12 - Shopping List"), Some(12));
    assert_eq!(option_note_id("7 - a - b"), Some(7));
    assert_eq!(option_note_id("-3 - negative"), Some(-3));
    assert_eq!(option_note_id("42"), Some(42));
    assert_eq!(option_note_id("x - title"), None);
    assert_eq!(option_note_id(""), None);
    assert_eq!(option_note_id("99999999999999999999 - big"), None);
}

#[test]
fn option_round_trip() {
    let note = Note::from_primitives(
        i64::MAX,
        String::from("1 - 2"),
        String::from("c"),
        Timestamp::from_parts(0, 0),
        Timestamp::from_parts(0, 0),
    );
    assert_eq!(option_note_id(&note_option(&note)), Some(i64::MAX));
}

#[test]
fn find_text_gives_first_position() {
    assert_eq!(find_text("a - b - c", " - "), Some(1));
    assert_eq!(find_text("abc", " - "), None);
    assert_eq!(find_text("é - x", " - "), Some(1));
}

#[test]
fn same_text_compares_characters() {
    assert!(same_text("abc", "abc"));
    assert!(!same_text("abc", "abd"));
    assert!(!same_text("abc", "ab"));
    assert!(same_text("", ""));
}
