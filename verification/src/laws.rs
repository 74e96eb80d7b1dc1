//! What holds of the keys as a whole.
use crate::api::{DM, PartialGuild, User};
use crate::app::{App, AppAction, InputMode};
use crate::editor::{self, Editor};
use crate::listing::{self, Entry, Leaf, Row};
use crate::session::{self, LoadReply, StartupStep};
use crate::vim::{self, VimOperator, VimRequest};
use crate::{classes, motion, search, text};
use vstd::prelude::*;
use vstd::utf8::*;

verus! {

/// An editor whose cursor is in its text.
pub open spec fn sound(e: Editor) -> bool {
    0 <= e.cursor <= e.text.len()
}

/// In an ASCII text every character takes one byte, so that positions and indices
/// agree.
pub proof fn law_ascii_positions(t: Seq<char>, i: int)
    requires
        is_ascii_chars(t),
        0 <= i <= t.len(),
    ensures
        text::offset(t, i) == i,
        text::boundary(t, i),
        text::index_at(t, i) == i,
    decreases i,
{
    if i > 0 {
        law_ascii_positions(t, i - 1);
        text::lemma_offset_step(t, i - 1);
    }
    text::lemma_index_of_offset(t, i);
}

/// Putting the cursor on a character a second time does nothing, and where there is a
/// character the cursor is on one.
pub proof fn law_clamping(t: Seq<char>, i: int)
    requires
        i >= 0,
    ensures
        motion::clamped(t, motion::clamped(t, i)) == motion::clamped(t, i),
        t.len() > 0 ==> 0 <= motion::clamped(t, i) < t.len(),
{
}

/// What is cut is neither lost nor changed: put back where it was, it gives the text
/// from before.
pub proof fn law_cut_conserves(e: Editor, low: int, high: int)
    requires
        0 <= low <= high <= e.text.len(),
    ensures
        e.cut(low, high).with(low, e.cut(low, high).yank).text == e.text,
{
    let f = e.cut(low, high);
    assert(f.text.take(low) =~= e.text.take(low));
    assert(f.text.skip(low) =~= e.text.skip(high));
    assert(f.with(low, f.yank).text =~= e.text);
}

/// `dw` and then `P` give the text back. A cut that starts with a line feed counts as
/// lines and is left out.
pub proof fn law_dw_then_put(e: Editor)
    requires
        sound(e),
        e.operator == Some(VimOperator::Delete),
        e.cursor < e.text.len(),
        e.text[e.cursor] != '\n',
    ensures
        editor::put_before(editor::next_word(e)).text == e.text,
{
    let to = motion::word_forward(e.text, e.cursor);
    law_word_forward(e.text, e.cursor);
    law_cut_conserves(e, e.cursor, to);
    assert(e.cut(e.cursor, to).yank[0] == e.text[e.cursor]);
}

/// `db` and then `P` give the text back. A cut that starts with a line feed counts as
/// lines and is left out.
pub proof fn law_db_then_put(e: Editor)
    requires
        sound(e),
        e.operator == Some(VimOperator::Delete),
        e.cursor > 0,
        e.text[motion::word_backward(e.text, e.cursor)] != '\n',
    ensures
        editor::put_before(editor::previous_word(e)).text == e.text,
{
    let to = motion::word_backward(e.text, e.cursor);
    law_word_backward(e.text, e.cursor);
    law_cut_conserves(e, to, e.cursor);
    assert(e.cut(to, e.cursor).yank[0] == e.text[to]);
}

/// `x` and then `P` give the text and the cursor back, where a character follows the
/// one that is cut.
pub proof fn law_x_then_put_before(e: Editor)
    requires
        sound(e),
        e.cursor + 1 < e.text.len(),
        e.text[e.cursor] != '\n',
    ensures
        editor::put_before(editor::cut_character(e)).text == e.text,
        editor::put_before(editor::cut_character(e)).cursor == e.cursor,
{
    law_cut_conserves(e, e.cursor, e.cursor + 1);
    assert(e.cut(e.cursor, e.cursor + 1).yank[0] == e.text[e.cursor]);
}

/// `x` and then `p` give the text and the cursor back, where the last character is cut.
pub proof fn law_x_then_put_after(e: Editor)
    requires
        sound(e),
        e.cursor + 1 == e.text.len(),
        e.text[e.cursor] != '\n',
    ensures
        editor::put_after(editor::cut_character(e)).text == e.text,
        editor::put_after(editor::cut_character(e)).cursor == e.cursor,
{
    law_cut_conserves(e, e.cursor, e.cursor + 1);
    assert(e.cut(e.cursor, e.cursor + 1).yank[0] == e.text[e.cursor]);
}

/// `x` and then `p` swap the character under the cursor with the next one.
pub proof fn law_xp_swaps(e: Editor)
    requires
        sound(e),
        e.cursor + 1 < e.text.len(),
        e.text[e.cursor] != '\n',
    ensures
        editor::put_after(editor::cut_character(e)).text == e.text.update(
            e.cursor,
            e.text[e.cursor + 1],
        ).update(e.cursor + 1, e.text[e.cursor]),
{
    let f = editor::cut_character(e);
    assert(f.yank[0] == e.text[e.cursor]);
    assert(editor::put_after(f).text =~= e.text.update(e.cursor, e.text[e.cursor + 1]).update(
        e.cursor + 1,
        e.text[e.cursor],
    ));
}

/// A text without line feeds is yanked as a line unchanged, with line feeds around it
/// or not.
pub proof fn lemma_as_lines(line: Seq<char>)
    requires
        forall|k: int| 0 <= k < line.len() ==> line[k] != '\n',
    ensures
        editor::as_lines(line) == seq!['\n'] + line,
        editor::as_lines(line.push('\n')) == seq!['\n'] + line,
        editor::as_lines(seq!['\n'] + line) == seq!['\n'] + line,
{
    let behind = line.push('\n');
    let before = seq!['\n'] + line;
    assert(behind.drop_last() =~= line);
    assert(before.drop_first() =~= line);
    if line.len() == 0 {
        assert(line =~= Seq::empty());
        assert(behind =~= seq!['\n']);
        assert(before =~= seq!['\n']);
        assert(seq!['\n'].drop_first() =~= line);
        reveal_with_fuel(editor::trim_front, 2);
        reveal_with_fuel(editor::trim_back, 2);
    } else {
        assert(behind[0] == line[0]);
        assert(line.last() != '\n');
        reveal_with_fuel(editor::trim_front, 2);
        reveal_with_fuel(editor::trim_back, 2);
    }
}

/// `dd` and then `P` give the text back, with the cursor at the start of the line, where
/// another line follows, or the text is one line that ends in a line feed.
pub proof fn law_dd_then_put_above(e: Editor)
    requires
        sound(e),
        e.line_end() < e.text.len(),
        e.line_end() + 1 < e.text.len() || e.line_start() == 0,
    ensures
        editor::put_before(editor::cut_line(e)).text == e.text,
        editor::put_before(editor::cut_line(e)).cursor == e.line_start(),
{
    let start = e.line_start();
    let end = e.line_end();
    motion::lemma_line_start(e.text, e.cursor);
    motion::lemma_line_end(e.text, e.cursor);
    let line = e.text.subrange(start, end);
    assert(e.text.subrange(start, end + 1) =~= line.push('\n'));
    lemma_as_lines(line);
    let f = editor::cut_line(e);
    assert(f.yank == seq!['\n'] + line);
    assert(f.yank.skip(1) =~= line);
    assert(f.cursor == start);
    assert(motion::line_start(f.text, start) == start) by {
        if start > 0 {
            assert(f.text[start - 1] == e.text[start - 1]);
        }
    }
    assert(f.text.take(start) =~= e.text.take(start));
    assert(f.text.skip(start) =~= e.text.skip(end + 1));
    assert(editor::put_before(f).text =~= e.text);
}

/// `dd` on the last line and then `p` give the text back, where the line above is not
/// empty or is the first one.
pub proof fn law_dd_then_put_below(e: Editor)
    requires
        sound(e),
        e.line_end() == e.text.len(),
        e.line_start() > 0,
        e.line_start() == 1 || e.text[e.line_start() - 2] != '\n',
    ensures
        editor::put_after(editor::cut_line(e)).text == e.text,
{
    let n = e.text.len() as int;
    let start = e.line_start();
    motion::lemma_line_start(e.text, e.cursor);
    motion::lemma_line_end(e.text, e.cursor);
    let line = e.text.subrange(start, n);
    assert(e.text.subrange(start - 1, n) =~= seq!['\n'] + line);
    lemma_as_lines(line);
    let f = editor::cut_line(e);
    let kept = e.text.take(start - 1);
    assert(f.text =~= kept);
    motion::lemma_line_start(kept, start - 1);
    motion::lemma_line_end(kept, f.cursor);
    let above = motion::line_start(kept, start - 1);
    assert(f.cursor == motion::clamped(kept, above));
    if start > 1 {
        assert(kept[start - 2] != '\n');
        assert(above <= start - 2);
    }
    let end = motion::line_end(kept, f.cursor);
    if end < kept.len() {
        assert(kept[end] == '\n');
    }
    assert(end == kept.len());
    assert(f.yank[0] == '\n');
    assert(kept.take(end) =~= kept);
    assert(editor::put_after(f).text =~= e.text);
}

/// `yy` and then `p` put a copy of the line below it.
pub proof fn law_yy_then_put(e: Editor)
    requires
        sound(e),
    ensures
        ({
            let line = e.text.subrange(e.line_start(), e.line_end());
            editor::put_after(editor::copy_line(e)).text == e.text.take(e.line_end()) + seq!['\n']
                + line + e.text.skip(e.line_end())
        }),
{
    motion::lemma_line_start(e.text, e.cursor);
    motion::lemma_line_end(e.text, e.cursor);
    let line = e.text.subrange(e.line_start(), e.line_end());
    assert forall|k: int| 0 <= k < line.len() implies line[k] != '\n' by {
        assert(e.text[e.line_start() + k] != '\n');
    }
    lemma_as_lines(line);
    let f = editor::copy_line(e);
    assert(f.yank[0] == '\n');
    assert(editor::put_after(f).text =~= e.text.take(e.line_end()) + seq!['\n'] + line
        + e.text.skip(e.line_end()));
}

/// Copying changes neither the text nor, outside the visual modes, the cursor.
pub proof fn law_copying_keeps_text(e: Editor)
    ensures
        editor::copy_line(e).text == e.text,
        editor::copy_line(e).cursor == e.cursor,
        editor::copy_selection(e).text == e.text,
{
}

/// What `p` and `P` put in stands in the text, and the cursor is on its last
/// character, unless it counts as lines.
pub proof fn law_put_places_yank(e: Editor)
    requires
        sound(e),
        e.yank.len() > 0,
        e.yank[0] != '\n',
    ensures
        ({
            let f = editor::put_after(e);
            let at = f.cursor + 1 - e.yank.len();
            &&& f.text.subrange(at, f.cursor + 1) == e.yank
            &&& f.text.take(at) + f.text.skip(f.cursor + 1) == e.text
        }),
        ({
            let f = editor::put_before(e);
            let at = f.cursor + 1 - e.yank.len();
            &&& at == e.cursor
            &&& f.text.subrange(at, f.cursor + 1) == e.yank
            &&& f.text.take(at) + f.text.skip(f.cursor + 1) == e.text
        }),
{
    let f = editor::put_after(e);
    let at = f.cursor + 1 - e.yank.len();
    assert(f.text.subrange(at, f.cursor + 1) =~= e.yank);
    assert(f.text.take(at) + f.text.skip(f.cursor + 1) =~= e.text);
    let g = editor::put_before(e);
    assert(g.text.subrange(e.cursor, g.cursor + 1) =~= e.yank);
    assert(g.text.take(e.cursor) + g.text.skip(g.cursor + 1) =~= e.text);
}

/// `O` and `o` put one line feed in and leave the cursor on an empty line.
pub proof fn law_open_gives_empty_line(e: Editor)
    requires
        sound(e),
    ensures
        ({
            let f = editor::open_above(e);
            &&& f.text.len() == e.text.len() + 1
            &&& f.line_start() == f.cursor == f.line_end()
            &&& f.text.remove(f.cursor) == e.text
        }),
        ({
            let f = editor::open_below(e);
            &&& f.text.len() == e.text.len() + 1
            &&& f.line_start() == f.cursor == f.line_end()
            &&& f.text.remove(if f.cursor < f.text.len() { f.cursor } else { f.cursor - 1 })
                == e.text
        }),
{
    motion::lemma_line_start(e.text, e.cursor);
    motion::lemma_line_end(e.text, e.cursor);
    let f = editor::open_above(e);
    assert(f.text[f.cursor] == '\n');
    if f.cursor > 0 {
        assert(f.text[f.cursor - 1] == '\n');
    }
    assert(f.text.remove(f.cursor) =~= e.text);
    let g = editor::open_below(e);
    assert(g.cursor > 0);
    assert(g.text[g.cursor - 1] == '\n');
    if g.cursor < g.text.len() {
        assert(g.text[g.cursor] == '\n');
        assert(g.text.remove(g.cursor) =~= e.text);
    } else {
        assert(g.text.remove(g.cursor - 1) =~= e.text);
    }
}

/// `h` and `l` go one character at most and never leave the line.
pub proof fn law_sideways_stays_in_line(t: Seq<char>, i: int)
    requires
        0 <= i <= t.len(),
    ensures
        i - 1 <= editor::left(t, i) <= i,
        i <= editor::right(t, i) <= i + 1,
        0 <= editor::left(t, i),
        editor::right(t, i) <= t.len(),
        motion::line_start(t, editor::left(t, i)) == motion::line_start(t, i),
        motion::line_start(t, editor::right(t, i)) == motion::line_start(t, i),
{
}

/// `w` goes on, unless the cursor is at the end, and leads to the start of a word or to
/// the end.
pub proof fn law_word_forward(t: Seq<char>, i: int)
    requires
        0 <= i <= t.len(),
    ensures
        i <= motion::word_forward(t, i) <= t.len(),
        i < t.len() ==> i < motion::word_forward(t, i),
        motion::word_forward(t, i) < t.len() ==> !classes::whitespace(
            t[motion::word_forward(t, i)],
        ) && classes::whitespace(t[motion::word_forward(t, i) - 1]),
{
    let behind = motion::run_end(t, i, false);
    motion::lemma_run_end(t, i, false);
    motion::lemma_run_end(t, behind, true);
    let to = motion::word_forward(t, i);
    if i < t.len() {
        if classes::whitespace(t[i]) {
            assert(behind == i);
            motion::lemma_run_end(t, i + 1, true);
        } else {
            motion::lemma_run_end(t, i + 1, false);
        }
    }
    if to < t.len() {
        if to == behind {
            assert(classes::whitespace(t[behind]));
        }
        assert(classes::whitespace(t[to - 1]));
    }
}

/// `b` goes back, unless the cursor is at the start, and leads to the start of a word,
/// or to the start of the text.
pub proof fn law_word_backward(t: Seq<char>, i: int)
    requires
        0 <= i <= t.len(),
    ensures
        0 <= motion::word_backward(t, i) <= i,
        i > 0 ==> motion::word_backward(t, i) < i,
        motion::word_backward(t, i) > 0 ==> !classes::whitespace(t[motion::word_backward(t, i)])
            && classes::whitespace(t[motion::word_backward(t, i) - 1]),
{
    if i > 0 {
        motion::lemma_run_start(t, i, true);
        motion::lemma_run_start(t, i, false);
        motion::lemma_run_start(t, i - 1, true);
        motion::lemma_run_start(t, i - 1, false);
        let to = motion::word_backward(t, i);
        if classes::whitespace(t[i - 1]) {
            let mid = motion::run_start(t, i, true);
            motion::lemma_run_start(t, mid, false);
            if mid > 0 {
                motion::lemma_run_start(t, mid - 1, false);
            }
            assert(to > 0 ==> !classes::whitespace(t[to]));
        } else if i == 1 || classes::whitespace(t[i - 2]) {
            let mid = motion::run_start(t, i - 1, true);
            motion::lemma_run_start(t, mid, false);
            if mid > 0 {
                motion::lemma_run_start(t, mid - 1, false);
            }
            assert(to > 0 ==> !classes::whitespace(t[to]));
        } else {
            assert(to > 0 ==> !classes::whitespace(t[to]));
        }
    }
}

/// Whether a word starts at index `i`.
pub open spec fn word_starts(t: Seq<char>, i: int) -> bool {
    &&& 0 <= i < t.len()
    &&& !classes::whitespace(t[i])
    &&& i == 0 || classes::whitespace(t[i - 1])
}

/// From the start of a word, a word forward and a word backward lead back, unless the
/// word is the text's last character with something before it.
pub proof fn law_word_forward_and_backward(t: Seq<char>, i: int)
    requires
        word_starts(t, i),
        i == 0 || i + 1 < t.len(),
    ensures
        motion::word_backward(t, motion::word_forward(t, i)) == i,
{
    let behind = motion::run_end(t, i, false);
    let to = motion::word_forward(t, i);
    motion::lemma_run_end(t, i, false);
    motion::lemma_run_end(t, behind, true);
    lemma_back_to_word(t, i, behind);
    if behind < to {
        assert(classes::whitespace(t[to - 1]));
        lemma_spaces_back(t, behind, to);
    } else if behind > i + 1 {
        assert(!classes::whitespace(t[to - 2]));
    }
}

/// `w` and then `b`, with no operator waiting, lead from the start of a word back to it
/// and change nothing, where another word follows, or two more characters do, or
/// the word is the first thing in the text.
pub proof fn law_w_then_b(e: Editor)
    requires
        word_starts(e.text, e.cursor),
        e.operator is None,
        e.cursor == 0 || motion::word_forward(e.text, e.cursor) < e.text.len() || e.cursor + 3
            <= e.text.len(),
    ensures
        editor::previous_word(editor::next_word(e)) == e,
{
    let t = e.text;
    let i = e.cursor;
    let behind = motion::run_end(t, i, false);
    let to = motion::word_forward(t, i);
    motion::lemma_run_end(t, i, false);
    motion::lemma_run_end(t, behind, true);
    let at = motion::clamped(t, to);
    if behind < at {
        assert(classes::whitespace(t[at - 1]));
        lemma_back_to_word(t, i, behind);
        lemma_spaces_back(t, behind, at);
    } else {
        lemma_back_to_word(t, i, at);
        if at > i + 1 {
            assert(!classes::whitespace(t[at - 2]));
        }
    }
    assert(motion::word_backward(t, at) == i);
}

/// From inside a word, back to its start.
proof fn lemma_back_to_word(t: Seq<char>, i: int, j: int)
    requires
        word_starts(t, i),
        i <= j <= t.len(),
        forall|k: int| i <= k < j ==> !#[trigger] classes::whitespace(t[k]),
    ensures
        motion::run_start(t, j, false) == i,
    decreases j,
{
    if j > i {
        assert(!classes::whitespace(t[j - 1]));
        lemma_back_to_word(t, i, j - 1);
    }
}

/// From behind whitespace, back to the word before it.
proof fn lemma_spaces_back(t: Seq<char>, i: int, j: int)
    requires
        0 < i <= j <= t.len(),
        !classes::whitespace(t[i - 1]),
        forall|k: int| i <= k < j ==> #[trigger] classes::whitespace(t[k]),
    ensures
        motion::run_start(t, j, true) == i,
    decreases j,
{
    if j > i {
        assert(classes::whitespace(t[j - 1]));
        lemma_spaces_back(t, i, j - 1);
    }
}

/// `v` pressed in normal mode and again ends in normal mode, with the text and the
/// cursor as they were and no selection. So does `V`.
pub proof fn law_visual_toggles(e: Editor, mode: InputMode, position: usize)
    requires
        e.mode is Normal,
        editor::visual(mode),
    ensures
        ({
            let f = editor::toggle_visual(e, mode, position);
            &&& f.mode == mode
            &&& f.visual_start == Some(position)
            &&& editor::toggle_visual(f, mode, position) == (Editor { visual_start: None, ..e })
        }),
{
}

/// `v` and then `d` cut the character under the cursor, as `x` does.
pub proof fn law_vd_is_x(e: Editor, position: usize)
    requires
        e.mode is Normal,
        text::boundary(e.text, position as int),
        e.cursor == text::index_at(e.text, position as int),
        e.cursor < e.text.len(),
    ensures
        ({
            let f = editor::cut_selection(
                editor::toggle_visual(e, InputMode::Visual, position),
            );
            &&& f.text == editor::cut_character(e).text
            &&& f.yank == editor::cut_character(e).yank
            &&& f.cursor == editor::cut_character(e).cursor
            &&& f.mode is Normal
        }),
{
    text::lemma_offset_of_index(e.text, position as int);
}

/// `V` and then `d` cut the line as `dd` does, where another line follows and the
/// cursor is not on the line feed between them.
pub proof fn law_vd_by_lines_is_dd(e: Editor, position: usize)
    requires
        e.mode is Normal,
        text::boundary(e.text, position as int),
        e.cursor == text::index_at(e.text, position as int),
        e.line_end() < e.text.len(),
        e.text[e.cursor] != '\n',
    ensures
        ({
            let f = editor::cut_selection(
                editor::toggle_visual(e, InputMode::VisualLine, position),
            );
            &&& f.text == editor::cut_line(e).text
            &&& f.yank == editor::cut_line(e).yank
            &&& f.cursor == editor::cut_line(e).cursor
        }),
{
    text::lemma_offset_of_index(e.text, position as int);
    motion::lemma_line_end(e.text, e.cursor);
    motion::lemma_line_start(e.text, e.cursor);
    assert(motion::line_end(e.text, e.cursor + 1) == e.line_end());
    let v = editor::toggle_visual(e, InputMode::VisualLine, position);
    assert(editor::selection_low(v, position) == e.line_start());
    assert(editor::selection_high(v, position) == e.line_end() + 1);
}

/// What is cut from a selection by characters gives the text from before, put back
/// where it was.
pub proof fn law_cut_selection_conserves(e: Editor, start: usize)
    requires
        sound(e),
        e.mode is Visual,
        e.visual_start == Some(start),
        text::boundary(e.text, start as int),
    ensures
        ({
            let low = editor::selection_low(e, start);
            let high = editor::selection_high(e, start);
            let f = editor::cut_selection(e);
            &&& 0 <= low <= high <= e.text.len()
            &&& low < high ==> f.with(low, f.yank).text == e.text
            &&& low == high ==> f.text == e.text
        }),
{
    text::lemma_offset_of_index(e.text, start as int);
    let low = editor::selection_low(e, start);
    let high = editor::selection_high(e, start);
    law_cut_conserves(e, low, high);
}

/// `:` and `/` lose nothing: the line is put aside as it was.
pub proof fn law_line_is_put_aside(e: Editor, mode: InputMode)
    ensures
        editor::put_aside(e, mode).saved == Some(e.text),
        editor::put_aside(e, mode).text.len() == 0,
        editor::put_aside(e, mode).cursor == 0,
{
}

/// Only the user's own message is ever edited or deleted.
pub proof fn law_only_own_messages(app: App, c: char, now: u64, requests: Seq<VimRequest>, k: int)
    requires
        vim::asks(app, c, now, requests),
        0 <= k < requests.len(),
        requests[k] matches VimRequest::Send(action) && (action is ApiDeleteMessage
            || action is TransitionToEditing),
    ensures
        vim::own_message_selected(app),
{
}

/// While a message is selected, keys leave the input line alone, other than `:` and
/// `/`, which put it aside, and those that cut a visual selection. Only `h`, `l` and
/// `G` move the cursor then.
pub proof fn law_selected_message_protects_line(app: App, c: char, now: u64)
    requires
        vim::message_selected(app),
        !editor::visual(app.data.input.mode),
        c != ':',
        c != '/',
    ensures
        vim::press(app, c, now).text == app.editor().text,
        c != 'h' && c != 'l' && c != 'G' ==> vim::press(app, c, now).cursor
            == app.editor().cursor,
{
}

/// In a chat or the logs the selection stays within what is loaded.
pub proof fn law_selection_stays_loaded(app: App, c: char, now: u64)
    requires
        vim::in_history(app),
        app.data.selection_index <= vim::history_len(app),
    ensures
        0 <= vim::press(app, c, now).selection <= vim::history_len(app),
{
}

/// `j` and `k` undo each other on the selection, between the first line and the last
/// one that is loaded.
pub proof fn law_selection_back_and_forth(app: App, e: Editor)
    requires
        vim::in_history(app),
        0 < e.selection < vim::history_len(app),
    ensures
        vim::press_j(app, vim::press_k(app, e)) == e,
        e.selection > 1 ==> vim::press_k(app, vim::press_j(app, e)) == e,
{
}

/// An operator that has waited for a second is forgotten: the second `d` of a `dd` that
/// took too long cuts nothing, and waits in its turn.
pub proof fn law_slow_dd_cuts_nothing(app: App, now: u64)
    requires
        app.data.vim.state is Some,
        !editor::visual(app.data.input.mode),
        editor::timed_out(app.editor().pressed_at, now),
    ensures
        vim::press(app, 'd', now).text == app.editor().text,
        vim::press(app, 'd', now).operator == Some(VimOperator::Delete),
        vim::press(app, 'd', now).pressed_at == now,
{
}

/// A `d` that is pressed again within a second, on the input line, cuts a line.
pub proof fn law_quick_dd_cuts_a_line(app: App, now: u64)
    requires
        app.data.vim.state is Some,
        !editor::visual(app.data.input.mode),
        !vim::message_selected(app),
        app.editor().operator == Some(VimOperator::Delete),
        !editor::timed_out(app.editor().pressed_at, now),
    ensures
        vim::press(app, 'd', now) == editor::cut_line(app.editor()),
{
}

/// Keys that mean nothing drop an operator that waits, and change nothing else.
pub proof fn law_unknown_key_forgets(app: App, c: char, now: u64)
    requires
        app.data.vim.state is Some,
        !seq![
            'i', 'I', 'a', 'A', 'O', 'o', 'j', 'k', 'h', 'l', 'w', 'b', 'd', 'v', 'V', 'x', 'y',
            'p', 'P', 'g', 'G', ':', '/',
        ].contains(c),
    ensures
        vim::press(app, c, now) == (Editor {
            operator: None,
            pending: Seq::empty(),
            ..app.editor()
        }),
{
    let known = seq![
        'i', 'I', 'a', 'A', 'O', 'o', 'j', 'k', 'h', 'l', 'w', 'b', 'd', 'v', 'V', 'x', 'y', 'p',
        'P', 'g', 'G', ':', '/',
    ];
    assert forall|k: int| 0 <= k < known.len() implies c != #[trigger] known[k] by {
        assert(known.contains(known[k]));
    }
    assert(c != known[0] && c != known[1] && c != known[2] && c != known[3] && c != known[4] && c
        != known[5] && c != known[6] && c != known[7] && c != known[8] && c != known[9] && c
        != known[10] && c != known[11] && c != known[12] && c != known[13] && c != known[14] && c
        != known[15] && c != known[16] && c != known[17] && c != known[18] && c != known[19] && c
        != known[20] && c != known[21] && c != known[22]);
}

/// The rows of a category's channels stand for channels that show.
proof fn lemma_child_rows(top: int, kids: Seq<Leaf>, filter: Seq<char>, k: int)
    requires
        0 <= k < listing::child_rows(top, kids, filter).len(),
        0 <= top <= usize::MAX,
        kids.len() <= usize::MAX,
    ensures
        listing::child_rows(top, kids, filter)[k] matches Row::Child(i, j) && i == top && j
            < kids.len() && listing::shows(kids[j as int], filter),
    decreases kids.len(),
{
    let front = listing::child_rows(top, kids.drop_last(), filter);
    if k < front.len() {
        lemma_child_rows(top, kids.drop_last(), filter, k);
    }
}

/// A channel that the user may not read is never listed, unless it is a category.
pub proof fn law_only_readable_rows(all: Seq<Entry>, filter: Seq<char>, k: int)
    requires
        0 <= k < listing::rows(all, filter).len(),
        all.len() <= usize::MAX,
        forall|i: int|
            0 <= i < all.len() ==> (#[trigger] all[i].children matches Some(kids) ==> kids.len()
                <= usize::MAX),
    ensures
        match listing::rows(all, filter)[k] {
            Row::Top(i) => i < all.len() && (all[i as int].category
                || all[i as int].leaf.readable),
            Row::Child(i, j) => {
                &&& i < all.len()
                &&& all[i as int].category
                &&& all[i as int].children matches Some(kids) && j < kids.len()
                    && kids[j as int].readable
            },
        },
    decreases all.len(),
{
    let front = listing::rows(all.drop_last(), filter);
    let top = all.len() - 1;
    if k < front.len() {
        assert forall|i: int| 0 <= i < all.drop_last().len() implies (
        #[trigger] all.drop_last()[i].children matches Some(kids) ==> kids.len()
            <= usize::MAX) by {
            assert(all.drop_last()[i] == all[i]);
        }
        law_only_readable_rows(all.drop_last(), filter, k);
    } else {
        let own = listing::entry_rows(top, all.last(), filter);
        assert(listing::rows(all, filter)[k] == own[k - front.len()]);
        assert(all[top].children == all.last().children);
        if k - front.len() > 0 {
            lemma_child_rows(top, all.last().children->0, filter, k - front.len() - 1);
        }
    }
}

/// An empty search text leaves nothing out: every name matches, and every channel that
/// can be read shows.
pub proof fn law_empty_search_shows_all(names: Seq<Seq<char>>, leaf: Leaf)
    ensures
        listing::matching(names, Seq::empty()) == names,
        listing::shows(leaf, Seq::empty()) == leaf.readable,
    decreases names.len(),
{
    let none = Seq::<char>::empty();
    search::lemma_empty_occurs(leaf.name, none);
    reveal(Seq::filter);
    if names.len() > 0 {
        law_empty_search_shows_all(names.drop_last(), leaf);
        search::lemma_empty_occurs(names.last(), none);
        assert(names.drop_last().push(names.last()) =~= names);
    }
    assert(listing::matching(names, none) =~= names);
}

/// From whichever step, loading at the start ends within three.
pub proof fn law_startup_ends(step: StartupStep)
    ensures
        session::step_after(session::step_after(session::step_after(step)))
            == StartupStep::Finished,
{
}

/// Loading at the start makes known what came, in turn, and then that it has ended, once
/// and as the last thing. A failure only leaves out its own action.
pub proof fn law_startup_sends(
    user: Result<User, String>,
    guilds: Result<Vec<PartialGuild>, String>,
    dms: Result<Vec<DM>, String>,
)
    ensures
        session::sent_from(
            StartupStep::CurrentUser,
            seq![
                LoadReply::CurrentUser(user),
                LoadReply::Guilds(guilds),
                LoadReply::DMs(dms),
            ],
        ) == (match user {
            Ok(user) => seq![AppAction::ApiUpdateCurrentUser(user)],
            Err(_) => seq![],
        }) + (match guilds {
            Ok(guilds) => seq![AppAction::ApiUpdateGuilds(guilds)],
            Err(_) => seq![],
        }) + (match dms {
            Ok(dms) => seq![AppAction::ApiUpdateDMs(dms)],
            Err(_) => seq![],
        }) + seq![AppAction::EndLoading],
{
    let replies = seq![
        LoadReply::CurrentUser(user),
        LoadReply::Guilds(guilds),
        LoadReply::DMs(dms),
    ];
    reveal_with_fuel(session::sent_from, 4);
    assert(replies.skip(1)[0] == replies[1]);
    assert(replies.skip(1).skip(1)[0] == replies[2]);
    assert(session::sent_from(StartupStep::CurrentUser, replies) =~= session::made_known(
        replies[0],
    ) + session::made_known(replies[1]) + session::made_known(replies[2]) + seq![
        AppAction::EndLoading,
    ]);
}

/// Whether a visual selection, where there is one, can be cut and copied.
pub open spec fn selection_usable(e: Editor) -> bool {
    editor::visual(e.mode) ==> (e.visual_start matches Some(start) ==> text::boundary(
        e.text,
        start as int,
    ))
}

/// A visual selection stays usable, unless text is put in or cut next to it: by `p`,
/// by `P`, or by an operator over a word.
pub proof fn law_selection_stays_usable(app: App, c: char, now: u64)
    requires
        app.wf(),
        selection_usable(app.editor()),
        editor::visual(app.data.input.mode) ==> c != 'p' && c != 'P' && !((c == 'w' || c == 'b')
            && editor::ready(app, now).operator is Some),
    ensures
        selection_usable(vim::press(app, c, now)),
{
}

/// Among lines of printable ASCII characters `j` and then `k` lead back to the
/// character where they started, if the line below reaches as far.
pub proof fn law_down_then_up(t: Seq<char>, i: int)
    requires
        0 <= i < motion::line_end(t, i),
        editor::plain_below(t, i),
        editor::plain(t, motion::line_start(t, i), motion::line_end(t, i)),
        ({
            let next = motion::line_end(t, i) + 1;
            next + (i - motion::line_start(t, i)) < motion::line_end(t, next)
        }),
    ensures
        editor::plain_above(t, editor::plain_down(t, i)),
        editor::plain_up(t, editor::plain_down(t, i)) == i,
{
    let start = motion::line_start(t, i);
    let end = motion::line_end(t, i);
    let next = end + 1;
    let below = editor::plain_down(t, i);
    motion::lemma_line_start(t, i);
    motion::lemma_line_end(t, i);
    motion::lemma_line_end(t, next);
    motion::lemma_line_start(t, below);
    motion::lemma_line_start(t, end);
    let found = motion::line_start(t, below);
    assert(found == next) by {
        if found < next {
            assert(t[end] == '\n');
        }
        if found > next {
            assert(t[found - 1] != '\n');
        }
    }
    let above = motion::line_start(t, end);
    assert(above == start) by {
        if above > start {
            assert(t[above - 1] != '\n');
        }
        if above < start {
            assert(t[start - 1] == '\n');
        }
    }
    motion::lemma_line_end(t, start);
    assert(motion::line_end(t, start) == end) by {
        let e = motion::line_end(t, start);
        if e < end {
            assert(t[e] == '\n');
        }
        if e > end {
            assert(t[end] == '\n');
        }
    }
}

} // verus!
