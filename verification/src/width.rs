//! How many terminal columns text takes.
use crate::classes;
use unicode_width::{UnicodeWidthChar, UnicodeWidthStr};
use vstd::prelude::*;

verus! {

/// The printable characters of ASCII.
pub open spec fn printable(c: char) -> bool {
    0x20 <= c as u32 <= 0x7e
}

/// What `unicode_width` gives as the width of a text.
pub uninterp spec fn str_columns(t: Seq<char>) -> usize;

/// What `unicode_width` gives as the width of a character.
pub uninterp spec fn char_columns(c: char) -> Option<usize>;

/// Calls `UnicodeWidthStr::width`, which looks the width up in Unicode's tables.
/// It depends on the text's characters alone. A text of printable ASCII characters
/// takes one column for each; what other texts take is left to the tables.
#[verifier::external_body]
pub(crate) fn str_width(s: &str) -> (n: usize)
    ensures
        n == str_columns(s@),
        (forall|k: int| 0 <= k < s@.len() ==> #[trigger] printable(s@[k])) ==> n == s@.len(),
{
    UnicodeWidthStr::width(s)
}

/// Calls `UnicodeWidthChar::width`, which looks the width up in Unicode's tables. It
/// depends on the character alone. Control characters, and only they, have none,
/// and a printable ASCII character has width one; what other characters have is
/// left to the tables.
#[verifier::external_body]
pub(crate) fn char_width(c: char) -> (n: Option<usize>)
    ensures
        n == char_columns(c),
        n is None <==> classes::control(c),
        printable(c) ==> n == Some(1usize),
{
    UnicodeWidthChar::width(c)
}

/// The columns that a character counts for in a line: its width, and none where it
/// has none.
pub open spec fn columns(c: char) -> usize {
    match char_columns(c) {
        Some(n) => n,
        None => 0,
    }
}

/// The columns that each character of a line counts for.
pub open spec fn all_columns(t: Seq<char>) -> Seq<usize> {
    Seq::new(t.len(), |k: int| columns(t[k]))
}

/// The columns that each character from index `start` to index `end` counts for.
pub fn columns_between(t: &Vec<char>, start: usize, end: usize) -> (widths: Vec<usize>)
    requires
        start <= end <= t.len(),
    ensures
        widths@ == all_columns(t@.subrange(start as int, end as int)),
        forall|k: int| 0 <= k < widths.len() && printable(t[start + k]) ==> #[trigger] widths[k] == 1,
{
    let mut widths: Vec<usize> = Vec::new();
    let mut k: usize = start;
    while k < end
        invariant
            start <= k <= end <= t.len(),
            widths.len() == k - start,
            forall|m: int| 0 <= m < k - start ==> #[trigger] widths[m] == columns(t[start + m]),
            forall|m: int|
                0 <= m < k - start && printable(t[start + m]) ==> #[trigger] widths[m] == 1,
        decreases end - k,
    {
        let n: usize = match char_width(t[k]) {
            Some(n) => n,
            None => 0,
        };
        widths.push(n);
        k = k + 1;
    }
    widths
}

} // verus!
