//! The editor as the keys see it: what each key does, in terms of characters.
use crate::app::{App, InputMode};
use crate::vim::VimOperator;
use crate::{classes, motion, text, width};
use vstd::prelude::*;

verus! {

/// The part of the client's state that the keys change.
#[verifier::ext_equal]
pub struct Editor {
    /// The input line, which may hold line feeds.
    pub text: Seq<char>,
    /// How many characters lie before the cursor, without one that it is inside of.
    pub cursor: int,
    pub mode: InputMode,
    pub saved: Option<Seq<char>>,
    pub selection: int,
    pub operator: Option<VimOperator>,
    pub pending: Seq<char>,
    pub pressed_at: u64,
    /// A byte position, which an edit may have left behind.
    pub visual_start: Option<usize>,
    pub yank: Seq<char>,
}

impl App {
    /// The cursor stands between two characters of the input line, before the first
    /// or behind the last.
    pub open spec fn wf(self) -> bool {
        text::boundary(self.data.input.buffer@, self.data.cursor_position as int)
    }

    /// The editor, where vim mode has a state.
    pub open spec fn editor(self) -> Editor {
        let vim = self.data.vim.state->0;
        Editor {
            text: self.data.input.buffer@,
            cursor: text::index_at(self.data.input.buffer@, self.data.cursor_position as int),
            mode: self.data.input.mode,
            saved: match self.data.input.saved {
                Some(saved) => Some(saved@),
                None => None,
            },
            selection: self.data.selection_index as int,
            operator: vim.operator,
            pending: vim.pending_keys@,
            pressed_at: vim.last_action_time,
            visual_start: vim.visual_start,
            yank: vim.yank_buffer@,
        }
    }

    /// `after` differs from this state in nothing but what `editor` tells.
    pub open spec fn same_but_editor(self, after: App) -> bool {
        after == (App {
            data: crate::app::Data {
                input: crate::app::InputData {
                    buffer: after.data.input.buffer,
                    saved: after.data.input.saved,
                    mode: after.data.input.mode,
                    ..self.data.input
                },
                cursor_position: after.data.cursor_position,
                selection_index: after.data.selection_index,
                vim: crate::app::VimData { state: after.data.vim.state, ..self.data.vim },
                ..self.data
            },
            ..self
        })
    }
}

/// The byte position of a cursor that was at byte position `pos` and may stand on a
/// character only.
pub open spec fn clamped_position(t: Seq<char>, pos: int) -> int {
    if t.len() == 0 {
        0
    } else if pos >= text::size(t) {
        text::offset(t, t.len() - 1) as int
    } else {
        pos
    }
}

/// How long an operator waits for its motion: a second, in nanoseconds.
pub const OPERATOR_TIMEOUT: u64 = 1_000_000_000;

/// Whether an operator pressed at `pressed_at` waits no longer at `now`.
pub open spec fn timed_out(pressed_at: u64, now: u64) -> bool {
    now - pressed_at >= OPERATOR_TIMEOUT
}

/// The editor as a key at time `now` finds it: an operator that has waited too long
/// is dropped, and a state that was never set up is fresh.
pub open spec fn ready(app: App, now: u64) -> Editor {
    let e = app.editor();
    if app.data.vim.state is None {
        Editor {
            operator: None,
            pending: Seq::empty(),
            pressed_at: now,
            visual_start: None,
            yank: Seq::empty(),
            ..e
        }
    } else if e.operator is Some && timed_out(e.pressed_at, now) {
        Editor { operator: None, pending: Seq::empty(), ..e }
    } else {
        e
    }
}

impl Editor {
    /// With the cursor at index `i`.
    pub open spec fn at(self, i: int) -> Editor {
        Editor { cursor: i, ..self }
    }

    /// With the cursor on a character, where there is one.
    pub open spec fn on_character(self) -> Editor {
        self.at(motion::clamped(self.text, self.cursor))
    }

    /// In another mode.
    pub open spec fn in_mode(self, mode: InputMode) -> Editor {
        Editor { mode, ..self }
    }

    /// With the operator done.
    pub open spec fn operator_done(self) -> Editor {
        Editor { operator: None, ..self }
    }

    /// With an operator that waits from time `now` on.
    pub open spec fn waiting(self, operator: VimOperator, now: u64) -> Editor {
        Editor { operator: Some(operator), pressed_at: now, ..self }
    }

    /// With `part` put in before index `i`.
    pub open spec fn with(self, i: int, part: Seq<char>) -> Editor {
        Editor { text: self.text.take(i) + part + self.text.skip(i), ..self }
    }

    /// Without the characters from index `low` to index `high`.
    pub open spec fn without(self, low: int, high: int) -> Editor {
        Editor { text: self.text.take(low) + self.text.skip(high), ..self }
    }

    /// With another text to put in.
    pub open spec fn yanked(self, part: Seq<char>) -> Editor {
        Editor { yank: part, ..self }
    }

    /// The characters from index `low` to index `high` moved from the text to the yank
    /// buffer, and the cursor where they were.
    pub open spec fn cut(self, low: int, high: int) -> Editor {
        self.without(low, high).yanked(self.text.subrange(low, high)).at(low)
    }

    /// The start of the cursor's line.
    pub open spec fn line_start(self) -> int {
        motion::line_start(self.text, self.cursor)
    }

    /// The end of the cursor's line.
    pub open spec fn line_end(self) -> int {
        motion::line_end(self.text, self.cursor)
    }
}

/// A text without the line feeds at its front.
pub open spec fn trim_front(t: Seq<char>) -> Seq<char>
    decreases t.len(),
{
    if t.len() > 0 && t[0] == '\n' {
        trim_front(t.drop_first())
    } else {
        t
    }
}

/// A text without the line feeds at its back.
pub open spec fn trim_back(t: Seq<char>) -> Seq<char>
    decreases t.len(),
{
    if t.len() > 0 && t.last() == '\n' {
        trim_back(t.drop_last())
    } else {
        t
    }
}

/// How whole lines are yanked: one line feed in front, and none around the rest.
pub open spec fn as_lines(t: Seq<char>) -> Seq<char> {
    seq!['\n'] + trim_back(trim_front(t))
}

/// `I`: inserting goes on at the start of the line.
pub open spec fn insert_at_line_start(e: Editor) -> Editor {
    e.at(e.line_start()).in_mode(InputMode::Insert)
}

/// `a`: inserting goes on behind the character under the cursor.
pub open spec fn append(e: Editor) -> Editor {
    e.at(if e.cursor < e.text.len() { e.cursor + 1 } else { e.cursor }).in_mode(InputMode::Insert)
}

/// `A`: inserting goes on at the end of the line.
pub open spec fn append_at_line_end(e: Editor) -> Editor {
    e.at(e.line_end()).in_mode(InputMode::Insert)
}

/// `O`: a new line above the cursor's.
pub open spec fn open_above(e: Editor) -> Editor {
    e.with(e.line_start(), seq!['\n']).at(e.line_start()).in_mode(InputMode::Insert)
}

/// `o`: a new line below the cursor's.
pub open spec fn open_below(e: Editor) -> Editor {
    let n = e.text.len() as int;
    let next = if e.line_end() < n {
        e.line_end() + 1
    } else {
        n
    };
    e.with(next, seq!['\n']).at(if next < n { next } else { n + 1 }).in_mode(InputMode::Insert)
}

/// The column of index `i` in its line.
pub open spec fn column(t: Seq<char>, i: int) -> usize {
    width::str_columns(t.subrange(motion::line_start(t, i), i))
}

/// The place under a column in the line that starts at index `start`.
pub open spec fn place_in_line(t: Seq<char>, start: int, column: usize) -> int {
    let line = t.subrange(start, motion::line_end(t, start));
    motion::clamped(t, start + motion::under_column(width::all_columns(line), column as int))
}

/// `j` in the text: the same column one line below, where there is such a line and it
/// is not the empty one at the end.
pub open spec fn down(t: Seq<char>, i: int) -> int {
    let next = motion::line_end(t, i) + 1;
    if next < t.len() {
        place_in_line(t, next, column(t, i))
    } else {
        i
    }
}

/// Whether there is a line above index `i`.
pub open spec fn has_line_above(t: Seq<char>, i: int) -> bool {
    motion::line_start(t, i) > 0
}

/// `k` in the text: the same column one line above.
pub open spec fn up(t: Seq<char>, i: int) -> int {
    if has_line_above(t, i) {
        place_in_line(t, motion::line_start(t, motion::line_start(t, i) - 1), column(t, i))
    } else {
        i
    }
}

/// Whether the characters from index `low` to index `high` are printable ASCII.
pub open spec fn plain(t: Seq<char>, low: int, high: int) -> bool {
    forall|k: int| low <= k < high ==> #[trigger] width::printable(t[k])
}

/// The place in column `column`, counted in characters, of the line that starts at
/// index `start`: on its last character where it is shorter.
pub open spec fn plain_place(t: Seq<char>, start: int, column: int) -> int {
    let end = motion::line_end(t, start);
    if start + column < end {
        start + column
    } else if start < end {
        end - 1
    } else {
        start
    }
}

/// Whether `j` leads from index `i` to a line below, with printable ASCII characters
/// alone before the cursor and in that line.
pub open spec fn plain_below(t: Seq<char>, i: int) -> bool {
    let next = motion::line_end(t, i) + 1;
    &&& next < t.len()
    &&& plain(t, motion::line_start(t, i), i)
    &&& plain(t, next, motion::line_end(t, next))
}

/// Where `j` leads then: the same number of characters into the line below.
pub open spec fn plain_down(t: Seq<char>, i: int) -> int {
    plain_place(t, motion::line_end(t, i) + 1, i - motion::line_start(t, i))
}

/// Whether `k` leads from index `i` to a line above, with printable ASCII characters
/// alone before the cursor and in that line.
pub open spec fn plain_above(t: Seq<char>, i: int) -> bool {
    let start = motion::line_start(t, i);
    &&& has_line_above(t, i)
    &&& plain(t, start, i)
    &&& plain(t, motion::line_start(t, start - 1), start - 1)
}

/// Where `k` leads then: the same number of characters into the line above.
pub open spec fn plain_up(t: Seq<char>, i: int) -> int {
    let start = motion::line_start(t, i);
    plain_place(t, motion::line_start(t, start - 1), i - start)
}

/// `h`: one character back, but not over a control character other than a tab.
pub open spec fn left(t: Seq<char>, i: int) -> int {
    if i > 0 && (!classes::control(t[i - 1]) || t[i - 1] == '\t') {
        i - 1
    } else {
        i
    }
}

/// `l`: one character on, but neither from a line feed nor onto one nor behind the
/// last character.
pub open spec fn right(t: Seq<char>, i: int) -> int {
    if i + 1 < t.len() && t[i] != '\n' && t[i + 1] != '\n' {
        i + 1
    } else {
        i
    }
}

/// An operator applied from the cursor to index `to`. Only deleting does anything.
pub open spec fn operate(e: Editor, operator: VimOperator, to: int) -> Editor {
    let low = if e.cursor < to {
        e.cursor
    } else {
        to
    };
    let high = if e.cursor < to {
        to
    } else {
        e.cursor
    };
    if operator is Delete && low < high {
        e.cut(low, high)
    } else {
        e
    }
}

/// `w`: the operator that waits, up to the next word; without one, the cursor there.
pub open spec fn next_word(e: Editor) -> Editor {
    let to = motion::word_forward(e.text, e.cursor);
    match e.operator {
        Some(operator) => operate(e, operator, to).operator_done(),
        None => e.at(to).on_character(),
    }
}

/// `b`: the operator that waits, back to the word before; without one, the cursor
/// there.
pub open spec fn previous_word(e: Editor) -> Editor {
    let to = motion::word_backward(e.text, e.cursor);
    match e.operator {
        Some(operator) => operate(e, operator, to).operator_done(),
        None => e.at(to),
    }
}

/// Whether the mode is one of the two visual ones.
pub open spec fn visual(mode: InputMode) -> bool {
    mode is Visual || mode is VisualLine
}

/// The first index of the visual selection that starts at byte position `start`.
pub open spec fn selection_low(e: Editor, start: usize) -> int {
    let from = text::index_at(e.text, start as int);
    let low = if from < e.cursor {
        from
    } else {
        e.cursor
    };
    if e.mode is VisualLine {
        motion::line_start(e.text, low)
    } else {
        low
    }
}

/// The index behind the visual selection that starts at byte position `start`. It
/// takes in the character under its far end, and by lines the rest of the line
/// behind that.
pub open spec fn selection_high(e: Editor, start: usize) -> int {
    let n = e.text.len() as int;
    let from = text::index_at(e.text, start as int);
    let far = if from < e.cursor {
        e.cursor
    } else {
        from
    };
    let high = if far < n {
        far + 1
    } else {
        n
    };
    if e.mode is VisualLine {
        if motion::line_end(e.text, high) < n {
            motion::line_end(e.text, high) + 1
        } else {
            n
        }
    } else {
        high
    }
}

/// How the visual selection is yanked: by lines or as it is.
pub open spec fn selection_text(e: Editor, start: usize) -> Seq<char> {
    let part = e.text.subrange(selection_low(e, start), selection_high(e, start));
    if e.mode is VisualLine {
        as_lines(part)
    } else {
        part
    }
}

/// Back from a visual mode.
pub open spec fn visual_done(e: Editor) -> Editor {
    Editor { visual_start: None, ..e }.in_mode(InputMode::Normal).on_character()
}

/// `d` and `x` in a visual mode: the selection is cut.
pub open spec fn cut_selection(e: Editor) -> Editor {
    match e.visual_start {
        Some(start) => {
            let low = selection_low(e, start);
            let high = selection_high(e, start);
            if low < high {
                visual_done(e.without(low, high).yanked(selection_text(e, start)).at(low))
            } else {
                visual_done(e)
            }
        },
        None => visual_done(e),
    }
}

/// `y` in a visual mode: the selection is copied.
pub open spec fn copy_selection(e: Editor) -> Editor {
    match e.visual_start {
        Some(start) => if selection_low(e, start) < selection_high(e, start) {
            visual_done(e.yanked(selection_text(e, start)))
        } else {
            visual_done(e)
        },
        None => visual_done(e),
    }
}

/// `dd`: the cursor's line is cut, with the line feed behind it, or before it where it
/// is the last line.
pub open spec fn cut_line(e: Editor) -> Editor {
    let n = e.text.len() as int;
    let start = e.line_start();
    let end = e.line_end();
    if end < n {
        e.without(start, end + 1).yanked(as_lines(e.text.subrange(start, end + 1))).at(
            start,
        ).on_character().operator_done()
    } else if start > 0 {
        e.without(start - 1, n).yanked(as_lines(e.text.subrange(start - 1, n))).at(
            motion::line_start(e.text.take(start - 1), start - 1),
        ).on_character().operator_done()
    } else {
        e.without(0, n).yanked(as_lines(e.text)).at(0).operator_done()
    }
}

/// `x`: the character under the cursor is cut.
pub open spec fn cut_character(e: Editor) -> Editor {
    if e.cursor < e.text.len() {
        e.cut(e.cursor, e.cursor + 1).on_character()
    } else {
        e
    }
}

/// `yy`: the cursor's line is copied.
pub open spec fn copy_line(e: Editor) -> Editor {
    e.yanked(as_lines(e.text.subrange(e.line_start(), e.line_end()))).operator_done()
}

/// `p`: lines are put in below the cursor's line, and anything else behind the
/// character under the cursor.
pub open spec fn put_after(e: Editor) -> Editor {
    if e.yank.len() == 0 {
        e
    } else if e.yank[0] == '\n' {
        e.with(e.line_end(), e.yank).at(e.line_end() + 1).on_character()
    } else {
        let at = if e.cursor < e.text.len() {
            e.cursor + 1
        } else {
            e.cursor
        };
        e.with(at, e.yank).at(at + e.yank.len() - 1).on_character()
    }
}

/// `P`: lines are put in above the cursor's line, and anything else before the
/// cursor.
pub open spec fn put_before(e: Editor) -> Editor {
    if e.yank.len() == 0 {
        e
    } else if e.yank[0] == '\n' {
        e.with(e.line_start(), e.yank.skip(1).push('\n')).at(e.line_start()).on_character()
    } else {
        e.with(e.cursor, e.yank).at(e.cursor + e.yank.len() - 1).on_character()
    }
}

/// `v` and `V`: from normal mode into a visual mode, and from that mode back.
pub open spec fn toggle_visual(e: Editor, mode: InputMode, position: usize) -> Editor {
    if e.mode is Normal {
        Editor { visual_start: Some(position), ..e }.in_mode(mode)
    } else if e.mode == mode {
        Editor { visual_start: None, ..e }.in_mode(InputMode::Normal)
    } else {
        e
    }
}

/// `:` and `/`: the line is put aside for another one.
pub open spec fn put_aside(e: Editor, mode: InputMode) -> Editor {
    Editor { saved: Some(e.text), text: Seq::empty(), ..e }.at(0).in_mode(mode)
}

/// Any other key: no operator waits any longer.
pub open spec fn forget(e: Editor) -> Editor {
    Editor { operator: None, pending: Seq::empty(), ..e }
}

} // verus!
