use vstd::prelude::*;

use crate::note::Note;
use crate::text::{find_text, first_occurrence, same_text};

verus! {

/// The actions the main menu offers, in the order it lists them.
#[derive(Clone, Copy, Debug, PartialEq, Eq, Structural)]
pub enum ActionOptions {
    Create,
    Find,
    Update,
    Delete,
}

/// The action listed at position `i` of the menu.
pub open spec fn action_at(i: int) -> Option<ActionOptions> {
    if i == 0 {
        Some(ActionOptions::Create)
    } else if i == 1 {
        Some(ActionOptions::Find)
    } else if i == 2 {
        Some(ActionOptions::Update)
    } else if i == 3 {
        Some(ActionOptions::Delete)
    } else {
        None
    }
}

/// The first position, from `from` on, at which `options` holds `choice`.
pub open spec fn first_match(options: Seq<Seq<char>>, choice: Seq<char>, from: int) -> Option<int>
    decreases options.len() - from,
{
    if from < 0 || from >= options.len() {
        None
    } else if options[from] == choice {
        Some(from)
    } else {
        first_match(options, choice, from + 1)
    }
}

/// The texts of the menu entries.
pub open spec fn texts_of(options: Seq<&str>) -> Seq<Seq<char>> {
    options.map_values(|o: &str| o@)
}

/// The action that picking `choice` from `options` selects.
pub open spec fn chosen_action(options: Seq<&str>, choice: Seq<char>) -> Option<ActionOptions> {
    match first_match(texts_of(options), choice, 0) {
        Some(i) => action_at(i),
        None => None,
    }
}

/// What the entry prompt shows of a note's content once it is submitted.
pub open spec fn preview_of(content: Seq<char>) -> Seq<char> {
    if content.len() == 0 {
        "<skipped>"@
    } else if content.len() <= 20 {
        content
    } else {
        content.subrange(0, 17) + "..."@
    }
}

/// The main menu of the terminal front-end.
pub struct Presenter;

impl Presenter {
    pub fn new() -> (r: Self) {
        Presenter
    }

    /// The action that the menu entry `choice` stands for: the position of
    /// the first entry of `options` equal to it picks create, find, update
    /// or delete, in that order; any other position, or none, picks nothing.
    pub fn map_choice_to_action(&self, choice: &str, options: &[&str]) -> (r: Option<ActionOptions>)
        ensures
            r == chosen_action(options@, choice@),
    {
        let ghost texts = texts_of(options@);
        let mut i: usize = 0;
        while i < options.len()
            invariant
                i <= options@.len(),
                texts == texts_of(options@),
                first_match(texts, choice@, 0) == first_match(texts, choice@, i as int),
            decreases options@.len() - i,
        {
            if same_text(options[i], choice) {
                return if i == 0 {
                    Some(ActionOptions::Create)
                } else if i == 1 {
                    Some(ActionOptions::Find)
                } else if i == 2 {
                    Some(ActionOptions::Update)
                } else if i == 3 {
                    Some(ActionOptions::Delete)
                } else {
                    None
                };
            }
            i = i + 1;
        }
        None
    }
}

/// The prompt that collects a new note.
pub struct CreateNoteAction;

impl CreateNoteAction {
    /// What the prompt shows of a submitted content: `<skipped>` for none,
    /// the content itself up to twenty characters, and beyond that its first
    /// seventeen characters followed by `...`.
    pub fn content_preview(submission: &str) -> (r: String)
        ensures
            r@ == preview_of(submission@),
    {
        let n = submission.unicode_len();
        if n == 0 {
            String::from_str("<skipped>")
        } else if n <= 20 {
            String::from_str(submission)
        } else {
            String::from_str(submission.substring_char(0, 17)).concat("...")
        }
    }
}

/// The character for a digit value below ten.
pub open spec fn digit_char(d: nat) -> char {
    if d == 0 {
        '0'
    } else if d == 1 {
        '1'
    } else if d == 2 {
        '2'
    } else if d == 3 {
        '3'
    } else if d == 4 {
        '4'
    } else if d == 5 {
        '5'
    } else if d == 6 {
        '6'
    } else if d == 7 {
        '7'
    } else if d == 8 {
        '8'
    } else {
        '9'
    }
}

pub open spec fn is_digit(c: char) -> bool {
    '0' <= c <= '9'
}

/// The decimal digits of `n`, most significant first, without leading zeros.
pub open spec fn digits_of(n: nat) -> Seq<char>
    decreases n,
{
    if n < 10 {
        seq![digit_char(n)]
    } else {
        digits_of(n / 10).push(digit_char(n % 10))
    }
}

/// `n` written in decimal, with a leading `-` when negative.
pub open spec fn decimal_text(n: int) -> Seq<char> {
    if n < 0 {
        seq!['-'] + digits_of((-n) as nat)
    } else {
        digits_of(n as nat)
    }
}

/// The number that a run of decimal digits stands for.
pub open spec fn digits_value(s: Seq<char>) -> int
    decreases s.len(),
{
    if s.len() == 0 {
        0
    } else {
        digits_value(s.drop_last()) * 10 + (s.last() as int - '0' as int)
    }
}

/// How std reads a text as an `i64`: an optional `+` or `-`, then one or
/// more decimal digits and nothing else, naming a value in range.
pub open spec fn i64_of_text(s: Seq<char>) -> Option<i64> {
    let negative = s.len() > 0 && s[0] == '-';
    let body = if s.len() > 0 && (s[0] == '-' || s[0] == '+') {
        s.drop_first()
    } else {
        s
    };
    let value = if negative {
        -digits_value(body)
    } else {
        digits_value(body)
    };
    if body.len() == 0 || !(forall|i: int| 0 <= i < body.len() ==> is_digit(#[trigger] body[i])) {
        None
    } else if i64::MIN <= value <= i64::MAX {
        Some(value as i64)
    } else {
        None
    }
}

/// What separates a note's id from its title in a selection entry.
pub open spec fn separator() -> Seq<char> {
    " - "@
}

/// The selection entry that lists a note: its id (0 for an unsaved note),
/// the separator, and its title.
pub open spec fn option_text(id: Option<i64>, title: Seq<char>) -> Seq<char> {
    let shown: i64 = match id {
        Some(i) => i,
        None => 0,
    };
    decimal_text(shown as int) + separator() + title
}

/// The id that a selection entry names: the text before the first
/// separator (all of it where there is none), read as an `i64`.
pub open spec fn id_of_option(option: Seq<char>) -> Option<i64> {
    match first_occurrence(option, separator(), 0) {
        Some(i) => i64_of_text(option.subrange(0, i)),
        None => i64_of_text(option),
    }
}

/// Relies on `<i64 as ToString>::to_string`, which writes an integer in
/// decimal with a leading `-` for a negative value.
#[verifier::external_body]
fn decimal(n: i64) -> (r: String)
    ensures
        r@ == decimal_text(n as int),
{
    n.to_string()
}

/// Relies on `<i64 as FromStr>::from_str`, which takes an optional sign and
/// decimal digits only, and refuses a value out of range.
#[verifier::external_body]
fn parse_i64(text: &str) -> (r: Option<i64>)
    ensures
        r == i64_of_text(text@),
{
    match text.parse::<i64>() {
        Ok(n) => Some(n),
        Err(_) => None,
    }
}

/// The entry that lists `note` in a selection prompt: `"<id> - <title>"`.
pub fn note_option(note: &Note) -> (r: String)
    ensures
        r@ == option_text(note@.id, note@.title),
{
    let id: i64 = match note.get_id() {
        Some(i) => i,
        None => 0,
    };
    let shown = decimal(id);
    proof {
        reveal_strlit(" - ");
    }
    shown.concat(" - ").concat(note.get_title().as_str())
}

/// The id named by an entry picked from a selection prompt, where it names
/// one.
pub fn option_note_id(option: &str) -> (r: Option<i64>)
    ensures
        r == id_of_option(option@),
{
    proof {
        reveal_strlit(" - ");
    }
    match find_text(option, " - ") {
        Some(i) => parse_i64(option.substring_char(0, i)),
        None => parse_i64(option),
    }
}

/// The prompt that removes a note picked from the list of all notes.
pub struct DeletedNoteAction;

/// The prompt that shows a note picked from a search by title.
pub struct FindNoteAction;

} // verus!
