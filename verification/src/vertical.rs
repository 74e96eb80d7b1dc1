//! Moving between lines within a column.
use crate::editor;
use crate::motion::{self, clamp_index, find_line_end, find_line_start, find_under_column};
use crate::text::{self, byte_offset, slice};
use crate::width::{self, columns_between, str_width};
use vstd::prelude::*;

verus! {

/// The place under a column in the line that starts at index `start`, given the
/// columns that each character of that line takes.
pub fn place_under(chars: &Vec<char>, start: usize, widths: &Vec<usize>, column: usize) -> (i: usize)
    requires
        start + widths.len() <= chars.len(),
    ensures
        i == motion::clamped(
            chars@,
            start + motion::under_column(widths@, column as int),
        ),
        i <= chars@.len(),
{
    clamp_index(chars, start + find_under_column(widths, column))
}

/// The column of index `i`: the width of what lies before it in its line.
fn find_column(s: &str, chars: &Vec<char>, i: usize) -> (column: usize)
    requires
        chars@ == s@,
        text::size(chars@) <= usize::MAX,
        i <= chars@.len(),
    ensures
        column == editor::column(chars@, i as int),
        editor::plain(chars@, motion::line_start(chars@, i as int), i as int) ==> column == i
            - motion::line_start(chars@, i as int),
{
    let start = find_line_start(chars, i);
    let from = byte_offset(chars, start);
    let to = byte_offset(chars, i);
    proof {
        text::lemma_index_of_offset(chars@, start as int);
        text::lemma_index_of_offset(chars@, i as int);
        text::lemma_offset_order(chars@, start as int, i as int);
        motion::lemma_line_start(chars@, i as int);
    }
    let before = slice(s, from, to);
    str_width(before.as_str())
}

/// The place in a column of the line that starts at index `start`.
fn find_place(chars: &Vec<char>, start: usize, column: usize) -> (i: usize)
    requires
        start < chars@.len(),
    ensures
        i == editor::place_in_line(chars@, start as int, column),
        i <= chars@.len(),
        editor::plain(chars@, start as int, motion::line_end(chars@, start as int)) ==> i
            == editor::plain_place(chars@, start as int, column as int),
{
    let end = find_line_end(chars, start);
    let widths = columns_between(chars, start, end);
    proof {
        if editor::plain(chars@, start as int, end as int) {
            assert forall|k: int| 0 <= k < widths@.len() implies #[trigger] widths@[k] == 1 by {
                assert(width::printable(chars@[start + k]));
            }
            motion::lemma_fitting_ones(widths@, column as int);
        }
    }
    place_under(chars, start, &widths, column)
}

/// Where `j` leads in the text.
pub fn find_down(s: &str, chars: &Vec<char>, i: usize) -> (j: usize)
    requires
        chars@ == s@,
        text::size(chars@) <= usize::MAX,
        i <= chars@.len(),
    ensures
        j == editor::down(chars@, i as int),
        j <= chars@.len(),
        editor::plain_below(chars@, i as int) ==> j == editor::plain_down(chars@, i as int),
{
    let end = find_line_end(chars, i);
    if end < chars.len() && end + 1 < chars.len() {
        let column = find_column(s, chars, i);
        find_place(chars, end + 1, column)
    } else {
        i
    }
}

/// Where `k` leads in the text, or `None` where there is no line above.
pub fn find_up(s: &str, chars: &Vec<char>, i: usize) -> (j: Option<usize>)
    requires
        chars@ == s@,
        text::size(chars@) <= usize::MAX,
        i <= chars@.len(),
    ensures
        j is Some <==> editor::has_line_above(chars@, i as int),
        j matches Some(j) ==> j == editor::up(chars@, i as int) && j <= chars@.len(),
        editor::plain_above(chars@, i as int) ==> (j matches Some(j) && j == editor::plain_up(
            chars@,
            i as int,
        )),
{
    let start = find_line_start(chars, i);
    if start == 0 {
        return None;
    }
    let above = find_line_start(chars, start - 1);
    proof {
        motion::lemma_line_start(chars@, i as int);
        motion::lemma_line_start(chars@, start - 1);
        lemma_line_end_of_line_above(chars@, i as int);
    }
    let column = find_column(s, chars, i);
    Some(find_place(chars, above, column))
}

/// The line above ends right before the line of index `i`.
proof fn lemma_line_end_of_line_above(t: Seq<char>, i: int)
    requires
        0 <= i <= t.len(),
        motion::line_start(t, i) > 0,
    ensures
        motion::line_end(t, motion::line_start(t, motion::line_start(t, i) - 1))
            == motion::line_start(t, i) - 1,
{
    let end = motion::line_start(t, i) - 1;
    let start = motion::line_start(t, end);
    motion::lemma_line_start(t, i);
    motion::lemma_line_start(t, end);
    motion::lemma_line_end(t, start);
    let found = motion::line_end(t, start);
    assert(t[end] == '\n');
    if found < end {
        assert(t[found] != '\n');
    }
    if end < found {
        assert(t[end] != '\n');
    }
}

} // verus!
