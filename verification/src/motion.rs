//! Places in a text, by character index: lines, words and columns.
use crate::classes::{self, is_whitespace};
use vstd::prelude::*;

verus! {

/// The index of the first character of the line that holds index `i`.
pub open spec fn line_start(t: Seq<char>, i: int) -> int
    decreases i,
{
    if i <= 0 {
        0
    } else if t[i - 1] == '\n' {
        i
    } else {
        line_start(t, i - 1)
    }
}

/// The index of the line feed that ends the line that holds index `i`, or the
/// length of the text where no line feed follows.
pub open spec fn line_end(t: Seq<char>, i: int) -> int
    decreases t.len() - i,
{
    if i >= t.len() {
        t.len() as int
    } else if t[i] == '\n' {
        i
    } else {
        line_end(t, i + 1)
    }
}

/// The first index from `i` on, whose character is not of the class: whitespace
/// where `space` holds, anything else where it does not.
pub open spec fn run_end(t: Seq<char>, i: int, space: bool) -> int
    decreases t.len() - i,
{
    if i < t.len() && classes::whitespace(t[i]) == space {
        run_end(t, i + 1, space)
    } else {
        i
    }
}

/// The last index up to `i` that has no character of the class before it.
pub open spec fn run_start(t: Seq<char>, i: int, space: bool) -> int
    decreases i,
{
    if i > 0 && classes::whitespace(t[i - 1]) == space {
        run_start(t, i - 1, space)
    } else {
        i
    }
}

/// Where a step forward by a word leads: behind the rest of the word that `i`
/// stands on, and behind the whitespace after it.
pub open spec fn word_forward(t: Seq<char>, i: int) -> int {
    run_end(t, run_end(t, i, false), true)
}

/// Where a step back by a word leads: to the start of the word before `i`, where
/// a word of which only one character lies before `i` is passed over.
pub open spec fn word_backward(t: Seq<char>, i: int) -> int {
    if i <= 0 {
        0
    } else if classes::whitespace(t[i - 1]) {
        run_start(t, run_start(t, i, true), false)
    } else if i == 1 || classes::whitespace(t[i - 2]) {
        run_start(t, run_start(t, i - 1, true), false)
    } else {
        run_start(t, i, false)
    }
}

/// The place of a cursor that may stand on a character only: the last character
/// for every place behind it.
pub open spec fn clamped(t: Seq<char>, i: int) -> int {
    if t.len() == 0 {
        0
    } else if i >= t.len() {
        t.len() - 1
    } else {
        i
    }
}

/// How many characters from the front fit into `column` columns, where `widths`
/// holds the columns of each.
pub open spec fn fitting(widths: Seq<usize>, column: int) -> int
    decreases widths.len(),
{
    if widths.len() == 0 || widths[0] > column {
        0
    } else {
        1 + fitting(widths.drop_first(), column - widths[0])
    }
}

/// The index in a line that lies under `column`: behind the characters that fit,
/// but on the last character at most.
pub open spec fn under_column(widths: Seq<usize>, column: int) -> int {
    let k = fitting(widths, column);
    if k == widths.len() && k > 0 {
        k - 1
    } else {
        k
    }
}

/// What `line_start` gives: a place up to `i`, at the start of the text or behind a
/// line feed, with no line feed from there to `i`.
pub proof fn lemma_line_start(t: Seq<char>, i: int)
    requires
        0 <= i <= t.len(),
    ensures
        0 <= line_start(t, i) <= i,
        line_start(t, i) == 0 || t[line_start(t, i) - 1] == '\n',
        forall|k: int| line_start(t, i) <= k < i ==> t[k] != '\n',
    decreases i,
{
    if i > 0 && t[i - 1] != '\n' {
        lemma_line_start(t, i - 1);
    }
}

/// What `line_end` gives: a place from `i` on, at a line feed or the end of the text,
/// with no line feed before it.
pub proof fn lemma_line_end(t: Seq<char>, i: int)
    requires
        0 <= i <= t.len(),
    ensures
        i <= line_end(t, i) <= t.len(),
        line_end(t, i) == t.len() || t[line_end(t, i)] == '\n',
        forall|k: int| i <= k < line_end(t, i) ==> t[k] != '\n',
    decreases t.len() - i,
{
    if i < t.len() && t[i] != '\n' {
        lemma_line_end(t, i + 1);
    }
}

/// What `run_end` gives.
pub proof fn lemma_run_end(t: Seq<char>, i: int, space: bool)
    requires
        0 <= i <= t.len(),
    ensures
        i <= run_end(t, i, space) <= t.len(),
        run_end(t, i, space) < t.len() ==> classes::whitespace(t[run_end(t, i, space)])
            != space,
        forall|k: int|
            i <= k < run_end(t, i, space) ==> #[trigger] classes::whitespace(t[k]) == space,
    decreases t.len() - i,
{
    if i < t.len() && classes::whitespace(t[i]) == space {
        lemma_run_end(t, i + 1, space);
    }
}

/// What `run_start` gives.
pub proof fn lemma_run_start(t: Seq<char>, i: int, space: bool)
    requires
        0 <= i <= t.len(),
    ensures
        0 <= run_start(t, i, space) <= i,
        run_start(t, i, space) > 0 ==> classes::whitespace(t[run_start(t, i, space) - 1])
            != space,
        forall|k: int|
            run_start(t, i, space) <= k < i ==> #[trigger] classes::whitespace(t[k])
                == space,
    decreases i,
{
    if i > 0 && classes::whitespace(t[i - 1]) == space {
        lemma_run_start(t, i - 1, space);
    }
}

/// Word steps stay in the text.
pub proof fn lemma_word_bounds(t: Seq<char>, i: int)
    requires
        0 <= i <= t.len(),
    ensures
        i <= word_forward(t, i) <= t.len(),
        0 <= word_backward(t, i) <= i,
{
    lemma_run_end(t, i, false);
    lemma_run_end(t, run_end(t, i, false), true);
    lemma_run_start(t, i, true);
    lemma_run_start(t, run_start(t, i, true), false);
    lemma_run_start(t, i, false);
    if i > 0 {
        lemma_run_start(t, i - 1, true);
        lemma_run_start(t, run_start(t, i - 1, true), false);
    }
}

/// Where every character takes one column, as many fit as there are columns.
pub proof fn lemma_fitting_ones(widths: Seq<usize>, column: int)
    requires
        forall|k: int| 0 <= k < widths.len() ==> #[trigger] widths[k] == 1,
        column >= 0,
    ensures
        fitting(widths, column) == if column < widths.len() {
            column
        } else {
            widths.len() as int
        },
    decreases widths.len(),
{
    if widths.len() > 0 && column > 0 {
        lemma_fitting_ones(widths.drop_first(), column - 1);
    }
}

/// The start of the line that holds index `i`.
pub fn find_line_start(t: &Vec<char>, i: usize) -> (j: usize)
    requires
        i <= t.len(),
    ensures
        j == line_start(t@, i as int),
        j <= i,
{
    let mut j: usize = i;
    while j > 0 && t[j - 1] != '\n'
        invariant
            j <= i <= t.len(),
            line_start(t@, i as int) == line_start(t@, j as int),
        decreases j,
    {
        j = j - 1;
    }
    j
}

/// The end of the line that holds index `i`.
pub fn find_line_end(t: &Vec<char>, i: usize) -> (j: usize)
    requires
        i <= t.len(),
    ensures
        j == line_end(t@, i as int),
        i <= j <= t.len(),
{
    let mut j: usize = i;
    while j < t.len() && t[j] != '\n'
        invariant
            i <= j <= t.len(),
            line_end(t@, i as int) == line_end(t@, j as int),
        decreases t.len() - j,
    {
        j = j + 1;
    }
    j
}

/// The end of the run of a class that starts at index `i`.
pub fn find_run_end(t: &Vec<char>, i: usize, space: bool) -> (j: usize)
    requires
        i <= t.len(),
    ensures
        j == run_end(t@, i as int, space),
        i <= j <= t.len(),
{
    let mut j: usize = i;
    while j < t.len() && is_whitespace(t[j]) == space
        invariant
            i <= j <= t.len(),
            run_end(t@, i as int, space) == run_end(t@, j as int, space),
        decreases t.len() - j,
    {
        j = j + 1;
    }
    j
}

/// The start of the run of a class that ends before index `i`.
pub fn find_run_start(t: &Vec<char>, i: usize, space: bool) -> (j: usize)
    requires
        i <= t.len(),
    ensures
        j == run_start(t@, i as int, space),
        j <= i,
{
    let mut j: usize = i;
    while j > 0 && is_whitespace(t[j - 1]) == space
        invariant
            j <= i <= t.len(),
            run_start(t@, i as int, space) == run_start(t@, j as int, space),
        decreases j,
    {
        j = j - 1;
    }
    j
}

/// A step forward by a word.
pub fn find_word_forward(t: &Vec<char>, i: usize) -> (j: usize)
    requires
        i <= t.len(),
    ensures
        j == word_forward(t@, i as int),
        i <= j <= t.len(),
{
    let behind_word = find_run_end(t, i, false);
    find_run_end(t, behind_word, true)
}

/// A step back by a word.
pub fn find_word_backward(t: &Vec<char>, i: usize) -> (j: usize)
    requires
        i <= t.len(),
    ensures
        j == word_backward(t@, i as int),
        j <= i,
{
    if i == 0 {
        return 0;
    }
    if is_whitespace(t[i - 1]) {
        let behind_word = find_run_start(t, i, true);
        find_run_start(t, behind_word, false)
    } else if i == 1 || is_whitespace(t[i - 2]) {
        let behind_word = find_run_start(t, i - 1, true);
        find_run_start(t, behind_word, false)
    } else {
        find_run_start(t, i, false)
    }
}

/// The place of a cursor that may stand on a character only.
pub fn clamp_index(t: &Vec<char>, i: usize) -> (j: usize)
    ensures
        j == clamped(t@, i as int),
        j <= t.len(),
{
    if t.len() == 0 {
        0
    } else if i >= t.len() {
        t.len() - 1
    } else {
        i
    }
}

/// The index in a line that lies under a column, given the columns that each
/// character of the line takes.
pub fn find_under_column(widths: &Vec<usize>, column: usize) -> (k: usize)
    ensures
        k == under_column(widths@, column as int),
        k <= widths.len(),
        widths.len() > 0 ==> k < widths.len(),
{
    let mut left: usize = column;
    let mut k: usize = 0;
    proof {
        assert(widths@.skip(0) =~= widths@);
    }
    while k < widths.len() && widths[k] <= left
        invariant
            k <= widths.len(),
            fitting(widths@, column as int) == k + fitting(widths@.skip(k as int), left as int),
        decreases widths.len() - k,
    {
        proof {
            assert(widths@.skip(k as int).drop_first() =~= widths@.skip(k + 1));
            assert(widths@.skip(k as int)[0] == widths@[k as int]);
        }
        left = left - widths[k];
        k = k + 1;
    }
    proof {
        if k < widths.len() {
            assert(widths@.skip(k as int)[0] == widths@[k as int]);
        }
    }
    if k == widths.len() && k > 0 {
        k - 1
    } else {
        k
    }
}

} // verus!
