use vstd::prelude::*;

verus! {

/// `fragment` occurs in `text`, character for character.
pub open spec fn contains_fragment(text: Seq<char>, fragment: Seq<char>) -> bool {
    exists|i: int|
        0 <= i <= text.len() - fragment.len() && #[trigger] text.subrange(i, i + fragment.len())
            == fragment
}

/// The first position, from `from` on, at which `pattern` occurs in `text`.
pub open spec fn first_occurrence(text: Seq<char>, pattern: Seq<char>, from: int) -> Option<int>
    decreases text.len() + 1 - from,
{
    if from < 0 || from + pattern.len() > text.len() {
        None
    } else if text.subrange(from, from + pattern.len()) == pattern {
        Some(from)
    } else {
        first_occurrence(text, pattern, from + 1)
    }
}

/// Where a fragment occurs, the search from `from` finds a first position,
/// and where it occurs nowhere past `from`, none.
proof fn lemma_first_occurrence_found(text: Seq<char>, pattern: Seq<char>, from: int)
    requires
        0 <= from,
    ensures
        first_occurrence(text, pattern, from) is Some <==> exists|i: int|
            from <= i <= text.len() - pattern.len() && #[trigger] text.subrange(i, i + pattern.len())
                == pattern,
    decreases text.len() + 1 - from,
{
    if from + pattern.len() > text.len() {
    } else if text.subrange(from, from + pattern.len()) == pattern {
    } else {
        lemma_first_occurrence_found(text, pattern, from + 1);
        if exists|i: int|
            from <= i <= text.len() - pattern.len() && #[trigger] text.subrange(i, i + pattern.len())
                == pattern {
            let i = choose|i: int|
                from <= i <= text.len() - pattern.len() && #[trigger] text.subrange(
                    i,
                    i + pattern.len(),
                ) == pattern;
            assert(i != from);
            assert(from + 1 <= i);
        }
    }
}

/// Whether two texts are equal, character for character.
pub fn same_text(a: &str, b: &str) -> (r: bool)
    ensures
        r == (a@ == b@),
{
    let n = a.unicode_len();
    if n != b.unicode_len() {
        return false;
    }
    let mut i: usize = 0;
    while i < n
        invariant
            n == a@.len(),
            n == b@.len(),
            i <= n,
            forall|j: int| 0 <= j < i ==> a@[j] == b@[j],
        decreases n - i,
    {
        if a.get_char(i) != b.get_char(i) {
            return false;
        }
        i = i + 1;
    }
    proof {
        assert(a@ =~= b@);
    }
    true
}

/// The first position at which `pattern` occurs in `text`.
pub fn find_text(text: &str, pattern: &str) -> (r: Option<usize>)
    ensures
        r matches Some(i) ==> first_occurrence(text@, pattern@, 0) == Some(i as int) && i
            + pattern@.len() <= text@.len(),
        r is None ==> first_occurrence(text@, pattern@, 0) is None,
{
    let n = text.unicode_len();
    let m = pattern.unicode_len();
    let mut start: usize = 0;
    while start <= n && m <= n - start
        invariant
            n == text@.len(),
            m == pattern@.len(),
            start <= n + 1,
            first_occurrence(text@, pattern@, 0) == first_occurrence(text@, pattern@, start as int),
        decreases n + 1 - start,
    {
        let mut k: usize = 0;
        let mut same = true;
        while k < m && same
            invariant
                n == text@.len(),
                m == pattern@.len(),
                start + m <= n,
                k <= m,
                same ==> forall|j: int| 0 <= j < k ==> text@[start + j] == pattern@[j],
                !same ==> exists|j: int| 0 <= j < m && text@[start + j] != pattern@[j],
            decreases m - k + (if same { 1int } else { 0int }),
        {
            if text.get_char(start + k) != pattern.get_char(k) {
                same = false;
            } else {
                k = k + 1;
            }
        }
        if same {
            proof {
                assert(text@.subrange(start as int, start + m) =~= pattern@);
            }
            return Some(start);
        }
        proof {
            let j = choose|j: int| 0 <= j < m && text@[start + j] != pattern@[j];
            assert(text@.subrange(start as int, start + m)[j] != pattern@[j]);
        }
        start = start + 1;
    }
    None
}

/// Whether `fragment` occurs in `text`; upper and lower case differ.
pub fn contains_text(text: &str, fragment: &str) -> (r: bool)
    ensures
        r == contains_fragment(text@, fragment@),
{
    proof {
        lemma_first_occurrence_found(text@, fragment@, 0);
    }
    find_text(text, fragment).is_some()
}

} // verus!
