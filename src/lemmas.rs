use vstd::prelude::*;

use crate::menu::{
    decimal_text, digit_char, digits_of, digits_value, i64_of_text, id_of_option, is_digit,
    option_text, separator,
};
use crate::note::NoteView;
use crate::store::{stored_instant, StorageError, StoredRow};
use crate::text::first_occurrence;
use crate::timestamp::Timestamp;
use crate::use_cases::{
    id_check, lookup_outcome, revision_outcome, update_check, write_outcome, InputError,
    NoteError,
};

verus! {

/// A note that was saved and is then looked up by the id the store gave it
/// comes back with the title and content it was saved with: where the store
/// hands back the row it wrote, the lookup reads its id and texts unchanged.
pub proof fn lemma_saved_note_found_intact(saved: NoteView, id: i64, row: StoredRow, now: Timestamp)
    requires
        row.id == id,
        row.title@ == saved.title,
        row.content@ == saved.content,
    ensures
        lookup_outcome(Ok(Some(row)), now) matches Ok(found) && found.id == Some(id)
            && found.title == saved.title && found.content == saved.content,
{
}

/// Removing a note twice in a row succeeds both times: a removal's outcome
/// depends on the id and on the store's acknowledgement alone, not on whether
/// the store still held the note.
pub proof fn lemma_delete_twice_succeeds(
    id: i64,
    first: Result<(), StorageError>,
    second: Result<(), StorageError>,
)
    requires
        id > 0,
        first is Ok,
        second is Ok,
    ensures
        id_check(id) is Ok,
        write_outcome(first) is Ok,
        write_outcome(second) is Ok,
{
}

/// Updating a stored note with accepted texts gives it exactly the new title
/// and content and keeps its id and creation instant; its last-update instant
/// is no earlier than its creation, and strictly later when the clock reads
/// past the creation. Read back from the row the store then writes, the note
/// has the new texts.
pub proof fn lemma_update_replaces_texts(
    id: i64,
    title: Seq<char>,
    content: Seq<char>,
    row: StoredRow,
    now: Timestamp,
    rewritten: StoredRow,
    later: Timestamp,
)
    requires
        update_check(id, title, content) is Ok,
        row.id == id,
        rewritten.id == id,
        rewritten.title@ == title,
        rewritten.content@ == content,
    ensures
        revision_outcome(title, content, Ok(Some(row)), now) matches Ok(n) && {
            &&& n.id == Some(id)
            &&& n.title == title
            &&& n.content == content
            &&& n.created_at == stored_instant(row.created_at@, now)
            &&& n.created_at.no_later_than(n.updated_at)
            &&& !now.no_later_than(n.created_at) ==> !n.updated_at.no_later_than(n.created_at)
        },
        lookup_outcome(Ok(Some(rewritten)), later) matches Ok(found) && found.title == title
            && found.content == content,
{
}

/// A non-positive id is refused before the store is asked, by the lookup, the
/// removal and the update alike.
pub proof fn lemma_non_positive_id_refused(id: i64, title: Seq<char>, content: Seq<char>)
    requires
        id <= 0,
    ensures
        id_check(id) == Err::<(), NoteError>(NoteError::InvalidInput(InputError::NonPositiveId)),
        update_check(id, title, content) == Err::<(), NoteError>(
            NoteError::InvalidInput(InputError::NonPositiveId),
        ),
{
}

/// A note listed in a selection prompt is named again by the entry picked:
/// the id read back from `"<id> - <title>"` is the note's id (0 for an unsaved
/// note), whatever its title holds.
pub proof fn lemma_option_names_note(id: Option<i64>, title: Seq<char>)
    ensures
        id_of_option(option_text(id, title)) == Some(
            match id {
                Some(i) => i,
                None => 0i64,
            },
        ),
{
    let n: i64 = match id {
        Some(i) => i,
        None => 0,
    };
    let dec = decimal_text(n as int);
    let text = option_text(id, title);
    lemma_decimal_text(n as int);
    lemma_separator_first(dec, title, 0);
    assert(text.subrange(0, dec.len() as int) =~= dec);
    lemma_decimal_read_back(n);
}

proof fn lemma_digit_char(d: nat)
    requires
        d < 10,
    ensures
        is_digit(digit_char(d)),
        digit_char(d) as int - '0' as int == d,
{
}

proof fn lemma_digits(n: nat)
    ensures
        digits_of(n).len() >= 1,
        forall|i: int| 0 <= i < digits_of(n).len() ==> is_digit(#[trigger] digits_of(n)[i]),
        digits_value(digits_of(n)) == n,
    decreases n,
{
    if n < 10 {
        lemma_digit_char(n);
        let s = digits_of(n);
        assert(s.drop_last() =~= Seq::<char>::empty());
        assert(digits_value(s.drop_last()) == 0);
        assert(digits_value(s) == digits_value(s.drop_last()) * 10 + (s.last() as int - '0' as int));
    } else {
        lemma_digits(n / 10);
        lemma_digit_char(n % 10);
        let s = digits_of(n);
        assert(s.drop_last() =~= digits_of(n / 10));
        assert(n == (n / 10) * 10 + n % 10);
        assert(s.last() == digit_char(n % 10));
        assert(digits_value(s) == digits_value(s.drop_last()) * 10 + (s.last() as int - '0' as int));
        assert forall|i: int| 0 <= i < s.len() implies is_digit(#[trigger] s[i]) by {
            if i < s.len() - 1 {
                assert(s[i] == digits_of(n / 10)[i]);
            }
        }
    }
}

proof fn lemma_decimal_text(n: int)
    ensures
        decimal_text(n).len() >= 1,
        forall|i: int| 0 <= i < decimal_text(n).len() ==> #[trigger] decimal_text(n)[i] != ' ',
{
    if n < 0 {
        lemma_digits((-n) as nat);
        let d = digits_of((-n) as nat);
        assert forall|i: int| 0 <= i < decimal_text(n).len() implies #[trigger] decimal_text(n)[i]
            != ' ' by {
            if i > 0 {
                assert(decimal_text(n)[i] == d[i - 1]);
                assert(is_digit(d[i - 1]));
            }
        }
    } else {
        lemma_digits(n as nat);
        let d = digits_of(n as nat);
        assert forall|i: int| 0 <= i < decimal_text(n).len() implies #[trigger] decimal_text(n)[i]
            != ' ' by {
            assert(is_digit(d[i]));
        }
    }
}

proof fn lemma_separator_first(head: Seq<char>, tail: Seq<char>, from: int)
    requires
        0 <= from <= head.len(),
        forall|i: int| 0 <= i < head.len() ==> #[trigger] head[i] != ' ',
    ensures
        first_occurrence(head + separator() + tail, separator(), from) == Some(head.len() as int),
    decreases head.len() - from,
{
    reveal_strlit(" - ");
    let text = head + separator() + tail;
    if from < head.len() {
        assert(text.subrange(from, from + 3)[0] == head[from]);
        assert(text.subrange(from, from + 3) != separator());
        lemma_separator_first(head, tail, from + 1);
    } else {
        assert(text.subrange(from, from + 3) =~= separator());
    }
}

proof fn lemma_decimal_read_back(n: i64)
    ensures
        i64_of_text(decimal_text(n as int)) == Some(n),
{
    let s = decimal_text(n as int);
    if n < 0 {
        let m = (-(n as int)) as nat;
        lemma_digits(m);
        assert(s.drop_first() =~= digits_of(m));
    } else {
        lemma_digits(n as nat);
        assert(is_digit(s[0]));
    }
}

} // verus!
