//! What each key does to the input line, told by the line's characters.
//!
//! `press` and the functions behind it say how a key's effect is computed. Here it is
//! said what the effect is: where the cursor stands among the line feeds and the words,
//! which characters are left, and what has been yanked.
use crate::app::{App, InputMode};
use crate::editor::{self, Editor};
use crate::vim::{self, VimMotion, VimOperator};
use crate::{classes, laws, motion, text, width};
use vstd::prelude::*;
use vstd::utf8::*;

verus! {

/// No line feed stands from index `low` to index `high`.
pub open spec fn no_feed(t: Seq<char>, low: int, high: int) -> bool {
    forall|k: int| low <= k < high ==> #[trigger] t[k] != '\n'
}

/// The line that holds index `i` starts at index `start`.
pub open spec fn line_from(t: Seq<char>, i: int, start: int) -> bool {
    &&& 0 <= start <= i
    &&& start == 0 || t[start - 1] == '\n'
    &&& no_feed(t, start, i)
}

/// The line that holds index `i` ends at index `end`.
pub open spec fn line_to(t: Seq<char>, i: int, end: int) -> bool {
    &&& i <= end <= t.len()
    &&& end == t.len() || t[end] == '\n'
    &&& no_feed(t, i, end)
}

/// A cursor that was to go to index `i` of a text has gone to index `j`: there, or to
/// the last character where that is behind it.
pub open spec fn lands(t: Seq<char>, i: int, j: int) -> bool {
    if i < t.len() {
        j == i
    } else if t.len() > 0 {
        j == t.len() - 1
    } else {
        j == 0
    }
}

/// A word starts at index `j`, with something before it.
pub open spec fn begins(t: Seq<char>, j: int) -> bool {
    0 < j < t.len() && !classes::whitespace(t[j]) && classes::whitespace(t[j - 1])
}

/// There is only one start of a line.
proof fn lemma_line_from(t: Seq<char>, i: int, start: int)
    requires
        0 <= i <= t.len(),
        line_from(t, i, start),
    ensures
        motion::line_start(t, i) == start,
{
    let found = motion::line_start(t, i);
    motion::lemma_line_start(t, i);
    if found < start {
        assert(t[start - 1] != '\n');
    }
    if start < found {
        assert(t[found - 1] != '\n');
    }
}

/// There is only one end of a line.
proof fn lemma_line_to(t: Seq<char>, i: int, end: int)
    requires
        0 <= i <= t.len(),
        line_to(t, i, end),
    ensures
        motion::line_end(t, i) == end,
{
    let found = motion::line_end(t, i);
    motion::lemma_line_end(t, i);
    if found < end {
        assert(t[found] != '\n');
    }
    if end < found {
        assert(t[end] != '\n');
    }
}

/// A cursor in place lies in the text.
proof fn lemma_cursor(app: App)
    requires
        app.wf(),
    ensures
        0 <= app.editor().cursor <= app.data.input.buffer@.len(),
{
    text::lemma_offset_of_index(app.data.input.buffer@, app.data.cursor_position as int);
}

/// The editor holds the fields of the state, and two states whose difference is the
/// editor agree on everything else.
pub proof fn law_editor_holds_the_fields(app: App, after: App)
    requires
        app.data.vim.state is Some,
    ensures
        ({
            let e = app.editor();
            let vim = app.data.vim.state->0;
            &&& e.text == app.data.input.buffer@
            &&& e.mode == app.data.input.mode
            &&& e.saved is Some <==> app.data.input.saved is Some
            &&& e.saved matches Some(saved) ==> saved == app.data.input.saved->0@
            &&& e.selection == app.data.selection_index
            &&& e.operator == vim.operator
            &&& e.pending == vim.pending_keys@
            &&& e.pressed_at == vim.last_action_time
            &&& e.visual_start == vim.visual_start
            &&& e.yank == vim.yank_buffer@
        }),
        app.same_but_editor(after) ==> {
            &&& after.client == app.client
            &&& after.state == app.state
            &&& after.tick_count == app.tick_count
            &&& after.is_loading == app.is_loading
            &&& after.data.current_user == app.data.current_user
            &&& after.data.guilds == app.data.guilds
            &&& after.data.dms == app.data.dms
            &&& after.data.emojis == app.data.emojis
            &&& after.data.input.search == app.data.input.search
            &&& after.data.status_message == app.data.status_message
            &&& after.data.terminal_dimensions == app.data.terminal_dimensions
            &&& after.data.scroll_offset == app.data.scroll_offset
            &&& after.data.context == app.data.context
            &&& after.data.vim.active == app.data.vim.active
            &&& after.data.notifs == app.data.notifs
            &&& after.data.typing == app.data.typing
            &&& after.data.display_username == app.data.display_username
            &&& after.data.logs == app.data.logs
            &&& after.data.log_reader == app.data.log_reader
            &&& after.data.deleted_message_ids == app.data.deleted_message_ids
        },
{
}

/// The position of a character is the number of bytes that UTF-8 takes for those before
/// it, and the index of that position is the character's.
pub proof fn law_positions_are_bytes(t: Seq<char>, i: int)
    requires
        0 <= i <= t.len(),
    ensures
        text::offset(t, i) == encode_utf8(t.take(i)).len(),
        text::size(t) == encode_utf8(t).len(),
        text::index_at(t, encode_utf8(t.take(i)).len() as int) == i,
        text::boundary(t, encode_utf8(t.take(i)).len() as int),
{
    text::lemma_size_is_encoded_len(t.take(i));
    text::lemma_size_is_encoded_len(t);
    text::lemma_index_of_offset(t, i);
}

/// The cursor is in place where some number of characters takes as many bytes as its
/// position says, and then the editor's cursor is that number.
pub proof fn law_cursor_counts_characters(app: App, i: int)
    ensures
        0 <= i <= app.data.input.buffer@.len() && encode_utf8(
            app.data.input.buffer@.take(i),
        ).len() == app.data.cursor_position ==> app.wf() && app.editor().cursor == i,
        app.wf() ==> 0 <= app.editor().cursor <= app.data.input.buffer@.len() && encode_utf8(
            app.data.input.buffer@.take(app.editor().cursor),
        ).len() == app.data.cursor_position,
{
    let t = app.data.input.buffer@;
    if 0 <= i <= t.len() {
        law_positions_are_bytes(t, i);
    }
    if app.wf() {
        lemma_cursor(app);
        text::lemma_offset_of_index(t, app.data.cursor_position as int);
        law_positions_are_bytes(t, app.editor().cursor);
    }
}

/// A key finds the editor as it is. Only an operator that was pressed a second ago or
/// earlier is gone, with the keys that wait, and a state that was never set up is fresh.
pub proof fn law_what_a_key_finds(app: App, now: u64)
    ensures
        ({
            let e = app.editor();
            let found = editor::ready(app, now);
            &&& found.text == app.data.input.buffer@
            &&& found.cursor == e.cursor
            &&& found.mode == app.data.input.mode
            &&& found.saved == e.saved
            &&& found.selection == app.data.selection_index
            &&& match app.data.vim.state {
                Some(vim) => {
                    let over = vim.operator is Some && vim.last_action_time + 1_000_000_000 <= now;
                    &&& over ==> found.operator is None && found.pending.len() == 0
                    &&& !over ==> found.operator == vim.operator && found.pending
                        == vim.pending_keys@
                    &&& found.pressed_at == vim.last_action_time
                    &&& found.visual_start == vim.visual_start
                    &&& found.yank == vim.yank_buffer@
                },
                None => {
                    &&& found.operator is None
                    &&& found.pending.len() == 0
                    &&& found.pressed_at == now
                    &&& found.visual_start is None
                    &&& found.yank.len() == 0
                },
            }
        }),
{
}

/// While a message is selected, the keys that would edit the input line find nothing to
/// do there.
pub proof fn law_line_keys_rest_on_a_message(app: App, c: char, now: u64)
    requires
        app.state is Chatting,
        app.data.selection_index > 0,
        c == 'i' || c == 'I' || c == 'a' || c == 'A' || c == 'o' || c == 'O' || c == 'w' || c == 'b'
            || c == 'p' || c == 'P' || (c == 'x' && !(app.data.input.mode is Visual)
            && !(app.data.input.mode is VisualLine)),
    ensures
        vim::press(app, c, now) == editor::ready(app, now),
{
}

/// The input line has the keys, rather than a message of the open chat.
pub open spec fn on_line(app: App) -> bool {
    !(app.state is Chatting) || app.data.selection_index == 0
}

/// `i` starts inserting where the cursor is, `I` at the start of its line, `a` behind
/// the character under it, and `A` at the end of its line. Nothing else changes.
pub proof fn law_inserting(app: App, now: u64)
    requires
        app.wf(),
        on_line(app),
    ensures
        ({
            let e = editor::ready(app, now);
            let t = e.text;
            let i = e.cursor;
            let at_cursor = vim::press(app, 'i', now);
            let at_start = vim::press(app, 'I', now);
            let behind = vim::press(app, 'a', now);
            let at_end = vim::press(app, 'A', now);
            &&& at_cursor == (Editor { mode: InputMode::Insert, ..e })
            &&& line_from(t, i, at_start.cursor)
            &&& at_start == (Editor { cursor: at_start.cursor, mode: InputMode::Insert, ..e })
            &&& i < t.len() ==> behind.cursor == i + 1
            &&& i == t.len() ==> behind.cursor == i
            &&& behind == (Editor { cursor: behind.cursor, mode: InputMode::Insert, ..e })
            &&& line_to(t, i, at_end.cursor)
            &&& at_end == (Editor { cursor: at_end.cursor, mode: InputMode::Insert, ..e })
        }),
{
    lemma_cursor(app);
    let e = editor::ready(app, now);
    motion::lemma_line_start(e.text, e.cursor);
    motion::lemma_line_end(e.text, e.cursor);
}

/// `i` does not ask where the cursor is.
pub proof fn law_inserting_anywhere(app: App, now: u64)
    requires
        on_line(app),
    ensures
        vim::press(app, 'i', now) == (Editor {
            mode: InputMode::Insert,
            ..editor::ready(app, now)
        }),
{
}

/// `O` puts one line feed before the cursor's line and goes there.
pub proof fn law_opening_above(app: App, now: u64, start: int)
    requires
        app.wf(),
        on_line(app),
        line_from(app.data.input.buffer@, app.editor().cursor, start),
    ensures
        ({
            let e = editor::ready(app, now);
            let f = vim::press(app, 'O', now);
            &&& f.text == e.text.insert(start, '\n')
            &&& f == (Editor { text: f.text, cursor: start, mode: InputMode::Insert, ..e })
        }),
{
    lemma_cursor(app);
    let e = editor::ready(app, now);
    lemma_line_from(e.text, e.cursor, start);
    assert(vim::press(app, 'O', now).text =~= e.text.insert(start, '\n'));
}

/// `o` puts one line feed behind the cursor's line and the line feed that ends it, and
/// goes to the empty line that this gives.
pub proof fn law_opening_below(app: App, now: u64, end: int)
    requires
        app.wf(),
        on_line(app),
        line_to(app.data.input.buffer@, app.editor().cursor, end),
    ensures
        ({
            let e = editor::ready(app, now);
            let n = e.text.len() as int;
            let f = vim::press(app, 'o', now);
            &&& end + 1 < n ==> f.text == e.text.insert(end + 1, '\n') && f.cursor == end + 1
            &&& end + 1 >= n ==> f.text == e.text.push('\n') && f.cursor == n + 1
            &&& f == (Editor { text: f.text, cursor: f.cursor, mode: InputMode::Insert, ..e })
        }),
{
    lemma_cursor(app);
    let e = editor::ready(app, now);
    lemma_line_to(e.text, e.cursor, end);
    let f = vim::press(app, 'o', now);
    if end + 1 < e.text.len() {
        assert(f.text =~= e.text.insert(end + 1, '\n'));
    } else {
        assert(f.text =~= e.text.push('\n'));
    }
}

/// `h` goes one character back, unless that is a control character other than a tab,
/// and `l` one on, between characters of which none is a line feed. Neither changes
/// anything else.
pub proof fn law_sideways(app: App, now: u64)
    requires
        app.wf(),
    ensures
        ({
            let e = editor::ready(app, now);
            let t = e.text;
            let i = e.cursor;
            let left = vim::press(app, 'h', now);
            let right = vim::press(app, 'l', now);
            let passable = i > 0 && (t[i - 1] == '\t' || (0x20 <= t[i - 1] as u32 && !(0x7f
                <= t[i - 1] as u32 <= 0x9f)));
            &&& left.cursor == if passable { i - 1 } else { i }
            &&& left == (Editor { cursor: left.cursor, ..e })
            &&& right.cursor == i + 1 <==> i + 1 < t.len() && no_feed(t, i, i + 2)
            &&& right.cursor == i + 1 || right.cursor == i
            &&& right == (Editor { cursor: right.cursor, ..e })
        }),
{
    lemma_cursor(app);
    let e = editor::ready(app, now);
    let t = e.text;
    let i = e.cursor;
    if i + 1 < t.len() && no_feed(t, i, i + 2) {
        assert(t[i] != '\n' && t[i + 1] != '\n');
    }
}

/// The characters that separate words.
pub proof fn law_whitespace(c: char)
    ensures
        classes::whitespace(c) <==> (c == '\t' || c == '\n' || c == '\u{b}' || c == '\u{c}' || c
            == '\r' || c == ' ' || c == '\u{85}' || c == '\u{a0}' || c == '\u{1680}' || c
            == '\u{2000}' || c == '\u{2001}' || c == '\u{2002}' || c == '\u{2003}' || c
            == '\u{2004}' || c == '\u{2005}' || c == '\u{2006}' || c == '\u{2007}' || c
            == '\u{2008}' || c == '\u{2009}' || c == '\u{200a}' || c == '\u{2028}' || c
            == '\u{2029}' || c == '\u{202f}' || c == '\u{205f}' || c == '\u{3000}'),
{
}

/// A step forward by a word leads to the next place where a word starts, or to the end.
pub proof fn law_forward_to_next_start(t: Seq<char>, i: int)
    requires
        0 <= i <= t.len(),
    ensures
        ({
            let to = motion::word_forward(t, i);
            &&& i <= to <= t.len()
            &&& to == t.len() || (i < to && begins(t, to))
            &&& forall|j: int| i < j < to ==> !#[trigger] begins(t, j)
        }),
{
    let behind = motion::run_end(t, i, false);
    let to = motion::word_forward(t, i);
    motion::lemma_run_end(t, i, false);
    motion::lemma_run_end(t, behind, true);
    if to < t.len() {
        assert(!classes::whitespace(t[to]));
        if to == behind {
            assert(classes::whitespace(t[behind]));
        }
        assert(classes::whitespace(t[to - 1]));
    }
    assert forall|j: int| i < j < to implies !#[trigger] begins(t, j) by {
        if j <= behind {
            assert(!classes::whitespace(t[j - 1]));
        } else {
            assert(classes::whitespace(t[j]));
        }
    }
}

/// A step back by a word leads to the last place where a word starts two characters
/// back or more, or to the start of the text. From behind two characters of a word it
/// stays in that word.
pub proof fn law_back_to_last_start(t: Seq<char>, i: int)
    requires
        0 <= i <= t.len(),
    ensures
        ({
            let to = motion::word_backward(t, i);
            &&& 0 <= to <= i
            &&& to == 0 || (to < i - 1 && begins(t, to))
            &&& forall|j: int| to < j < i - 1 ==> !#[trigger] begins(t, j)
            &&& i >= 2 && !classes::whitespace(t[i - 1]) && !classes::whitespace(t[i - 2])
                ==> forall|k: int| to <= k < i ==> !#[trigger] classes::whitespace(t[k])
        }),
{
    if i > 0 {
        let to = motion::word_backward(t, i);
        let behind = if classes::whitespace(t[i - 1]) {
            motion::lemma_run_start(t, i, true);
            motion::run_start(t, i, true)
        } else if i == 1 || classes::whitespace(t[i - 2]) {
            motion::lemma_run_start(t, i - 1, true);
            motion::run_start(t, i - 1, true)
        } else {
            i
        };
        motion::lemma_run_start(t, behind, false);
        assert(to == motion::run_start(t, behind, false));
        if to > 0 {
            assert(classes::whitespace(t[to - 1]));
            if to == behind {
                assert(!classes::whitespace(t[behind - 1]));
            }
            assert(!classes::whitespace(t[to]));
        }
        assert forall|j: int| to < j < i - 1 implies !#[trigger] begins(t, j) by {
            if j < behind {
                assert(!classes::whitespace(t[j - 1]));
            } else if j < i - 1 {
                assert(behind < i);
                assert(classes::whitespace(t[j]));
            }
        }
    }
}

/// `w` without an operator goes to the next place where a word starts, or to the last
/// character where there is none, and changes nothing else.
pub proof fn law_w_moves(app: App, now: u64)
    requires
        app.wf(),
        on_line(app),
        editor::ready(app, now).operator is None,
    ensures
        ({
            let e = editor::ready(app, now);
            let t = e.text;
            let f = vim::press(app, 'w', now);
            &&& f == (Editor { cursor: f.cursor, ..e })
            &&& ({
                ||| e.cursor < f.cursor && begins(t, f.cursor) && forall|j: int|
                    e.cursor < j < f.cursor ==> !#[trigger] begins(t, j)
                ||| lands(t, t.len() as int, f.cursor) && forall|j: int|
                    e.cursor < j < t.len() ==> !#[trigger] begins(t, j)
            })
        }),
{
    lemma_cursor(app);
    let e = editor::ready(app, now);
    law_forward_to_next_start(e.text, e.cursor);
}

/// `b` without an operator goes to the last place where a word starts two characters
/// back or more, or to the start of the text, and changes nothing else. From behind two
/// characters of a word that is the start of the word.
pub proof fn law_b_moves(app: App, now: u64)
    requires
        app.wf(),
        on_line(app),
        editor::ready(app, now).operator is None,
    ensures
        ({
            let e = editor::ready(app, now);
            let t = e.text;
            let i = e.cursor;
            let f = vim::press(app, 'b', now);
            &&& f == (Editor { cursor: f.cursor, ..e })
            &&& f.cursor == 0 || (0 < f.cursor < i - 1 && begins(t, f.cursor))
            &&& forall|j: int| f.cursor < j < i - 1 ==> !#[trigger] begins(t, j)
            &&& i >= 2 && !classes::whitespace(t[i - 1]) && !classes::whitespace(t[i - 2])
                ==> forall|k: int| f.cursor <= k < i ==> !#[trigger] classes::whitespace(t[k])
        }),
{
    lemma_cursor(app);
    let e = editor::ready(app, now);
    law_back_to_last_start(e.text, e.cursor);
}

/// `dw` takes the characters from the cursor to the next place where a word starts, or
/// to the end, out of the line and yanks them. The cursor stays, and no operator waits
/// any longer.
pub proof fn law_dw_cuts(app: App, now: u64, to: int)
    requires
        app.wf(),
        on_line(app),
        editor::ready(app, now).operator == Some(VimOperator::Delete),
        app.editor().cursor <= to <= app.data.input.buffer@.len(),
        to == app.data.input.buffer@.len() || (app.editor().cursor < to && begins(
            app.data.input.buffer@,
            to,
        )),
        forall|j: int|
            app.editor().cursor < j < to ==> !#[trigger] begins(app.data.input.buffer@, j),
    ensures
        ({
            let e = editor::ready(app, now);
            let i = e.cursor;
            let f = vim::press(app, 'w', now);
            &&& f == (Editor { text: f.text, yank: f.yank, operator: None, ..e })
            &&& f.text == e.text.take(i) + e.text.skip(to)
            &&& i < to ==> f.yank == e.text.subrange(i, to)
            &&& i == to ==> f.yank == e.yank
        }),
{
    lemma_cursor(app);
    let e = editor::ready(app, now);
    let t = e.text;
    let found = motion::word_forward(t, e.cursor);
    law_forward_to_next_start(t, e.cursor);
    if found < to {
        assert(!begins(t, found));
    }
    if to < found {
        assert(!begins(t, to));
    }
    if e.cursor == to {
        assert(t.take(to) + t.skip(to) =~= t);
    }
}

/// `db` takes the characters from the last place where a word starts two characters
/// back or more, or from the start of the text, up to the cursor out of the line and
/// yanks them. The cursor goes where they were, and no operator waits any longer.
pub proof fn law_db_cuts(app: App, now: u64, to: int)
    requires
        app.wf(),
        on_line(app),
        editor::ready(app, now).operator == Some(VimOperator::Delete),
        0 <= to <= app.editor().cursor,
        to == 0 || (to < app.editor().cursor - 1 && begins(app.data.input.buffer@, to)),
        forall|j: int|
            to < j < app.editor().cursor - 1 ==> !#[trigger] begins(app.data.input.buffer@, j),
    ensures
        ({
            let e = editor::ready(app, now);
            let i = e.cursor;
            let f = vim::press(app, 'b', now);
            &&& f == (Editor { text: f.text, cursor: to, yank: f.yank, operator: None, ..e })
            &&& f.text == e.text.take(to) + e.text.skip(i)
            &&& to < i ==> f.yank == e.text.subrange(to, i)
            &&& to == i ==> f.yank == e.yank
        }),
{
    lemma_cursor(app);
    let e = editor::ready(app, now);
    let t = e.text;
    let found = motion::word_backward(t, e.cursor);
    law_back_to_last_start(t, e.cursor);
    if found < to {
        assert(!begins(t, to));
    }
    if to < found {
        assert(!begins(t, found));
    }
    if e.cursor == to {
        assert(t.take(to) + t.skip(to) =~= t);
    }
}

/// An operator other than `d` only ends with `w` and `b`.
pub proof fn law_other_operators_only_end(app: App, now: u64)
    requires
        on_line(app),
        editor::ready(app, now).operator == Some(VimOperator::_Change) || editor::ready(
            app,
            now,
        ).operator == Some(VimOperator::_Yank),
    ensures
        vim::press(app, 'w', now) == (Editor { operator: None, ..editor::ready(app, now) }),
        vim::press(app, 'b', now) == (Editor { operator: None, ..editor::ready(app, now) }),
{
}

/// A text has line feeds alone before index `a` and from index `b` on, and none right
/// inside.
pub open spec fn between_feeds(part: Seq<char>, a: int, b: int) -> bool {
    &&& 0 <= a <= b <= part.len()
    &&& forall|k: int| 0 <= k < a ==> #[trigger] part[k] == '\n'
    &&& forall|k: int| b <= k < part.len() ==> #[trigger] part[k] == '\n'
    &&& a == b || (part[a] != '\n' && part[b - 1] != '\n')
}

/// Whole lines are yanked with one line feed in front of what is left of them without
/// the line feeds around.
pub open spec fn yanked_as_lines(part: Seq<char>, yank: Seq<char>) -> bool {
    exists|a: int, b: int| #[trigger]
        between_feeds(part, a, b) && yank == seq!['\n'] + part.subrange(a, b)
}

/// How many line feeds are trimmed from the front.
proof fn lemma_trim_front(t: Seq<char>) -> (a: int)
    ensures
        0 <= a <= t.len(),
        editor::trim_front(t) == t.skip(a),
        forall|k: int| 0 <= k < a ==> #[trigger] t[k] == '\n',
        a < t.len() ==> t[a] != '\n',
    decreases t.len(),
{
    if t.len() > 0 && t[0] == '\n' {
        let rest = t.drop_first();
        let a = lemma_trim_front(rest);
        assert(rest.skip(a) =~= t.skip(a + 1));
        assert forall|k: int| 0 <= k < a + 1 implies #[trigger] t[k] == '\n' by {
            if k > 0 {
                assert(rest[k - 1] == t[k]);
            }
        }
        a + 1
    } else {
        assert(t.skip(0) =~= t);
        0
    }
}

/// How many characters are left before the line feeds that are trimmed from the back.
proof fn lemma_trim_back(t: Seq<char>) -> (b: int)
    ensures
        0 <= b <= t.len(),
        editor::trim_back(t) == t.take(b),
        forall|k: int| b <= k < t.len() ==> #[trigger] t[k] == '\n',
        b > 0 ==> t[b - 1] != '\n',
    decreases t.len(),
{
    if t.len() > 0 && t.last() == '\n' {
        let rest = t.drop_last();
        let b = lemma_trim_back(rest);
        assert(rest.take(b) =~= t.take(b));
        assert forall|k: int| b <= k < t.len() implies #[trigger] t[k] == '\n' by {
            if k < t.len() - 1 {
                assert(rest[k] == t[k]);
            }
        }
        if b > 0 {
            assert(rest[b - 1] == t[b - 1]);
        }
        b
    } else {
        assert(t.take(t.len() as int) =~= t);
        t.len() as int
    }
}

/// Whole lines lose the line feeds around them, and nothing else, when they are yanked.
pub proof fn law_lines_lose_outer_feeds(part: Seq<char>)
    ensures
        yanked_as_lines(part, editor::as_lines(part)),
{
    let a = lemma_trim_front(part);
    let rest = part.skip(a);
    let b = lemma_trim_back(rest);
    assert(rest.take(b) =~= part.subrange(a, a + b));
    assert forall|k: int| a + b <= k < part.len() implies #[trigger] part[k] == '\n' by {
        assert(rest[k - a] == part[k]);
    }
    if b > 0 {
        assert(rest[b - 1] == part[a + b - 1]);
    }
    assert(between_feeds(part, a, a + b));
}

/// The second `d` takes the cursor's line out of the text, with one line feed of those
/// around it where there is one, and yanks it behind a line feed. The cursor goes to the
/// line that is now in its place, or to the one above where there is none.
pub proof fn law_dd_cuts(app: App, now: u64, start: int, end: int)
    requires
        app.wf(),
        on_line(app),
        !(app.data.input.mode is Visual),
        !(app.data.input.mode is VisualLine),
        editor::ready(app, now).operator == Some(VimOperator::Delete),
        line_from(app.data.input.buffer@, app.editor().cursor, start),
        line_to(app.data.input.buffer@, app.editor().cursor, end),
    ensures
        ({
            let e = editor::ready(app, now);
            let t = e.text;
            let f = vim::press(app, 'd', now);
            &&& f == (Editor {
                text: f.text,
                cursor: f.cursor,
                yank: seq!['\n'] + t.subrange(start, end),
                operator: None,
                ..e
            })
            &&& end < t.len() ==> f.text == t.take(start) + t.skip(end + 1) && lands(
                f.text,
                start,
                f.cursor,
            )
            &&& end == t.len() && start > 0 ==> f.text == t.take(start - 1) && exists|above: int|
                #[trigger] line_from(t, start - 1, above) && lands(f.text, above, f.cursor)
            &&& end == t.len() && start == 0 ==> f.text.len() == 0 && f.cursor == 0
        }),
{
    lemma_cursor(app);
    let e = editor::ready(app, now);
    let t = e.text;
    let n = t.len() as int;
    lemma_line_from(t, e.cursor, start);
    lemma_line_to(t, e.cursor, end);
    let line = t.subrange(start, end);
    laws::lemma_as_lines(line);
    let f = vim::press(app, 'd', now);
    if end < n {
        assert(t.subrange(start, end + 1) =~= line.push('\n'));
    } else if start > 0 {
        assert(t.subrange(start - 1, n) =~= seq!['\n'] + line);
        assert(f.text =~= t.take(start - 1));
        let kept = t.take(start - 1);
        let above = motion::line_start(kept, start - 1);
        motion::lemma_line_start(kept, start - 1);
        assert forall|k: int| above <= k < start - 1 implies #[trigger] t[k] != '\n' by {
            assert(kept[k] == t[k]);
        }
        if above > 0 {
            assert(kept[above - 1] == t[above - 1]);
        }
        assert(line_from(t, start - 1, above));
    } else {
        assert(line =~= t);
        assert(f.text =~= Seq::empty());
    }
}

/// The first `d`, `y` or `g` only starts to wait for what follows. So does one behind
/// another operator.
pub proof fn law_first_key_waits(app: App, now: u64)
    ensures
        ({
            let e = editor::ready(app, now);
            let visual = app.data.input.mode is Visual || app.data.input.mode is VisualLine;
            &&& !visual && e.operator != Some(VimOperator::Delete) ==> vim::press(app, 'd', now)
                == (Editor { operator: Some(VimOperator::Delete), pressed_at: now, ..e })
            &&& !visual && e.operator != Some(VimOperator::_Yank) ==> vim::press(app, 'y', now)
                == (Editor { operator: Some(VimOperator::_Yank), pressed_at: now, ..e })
            &&& e.operator != Some(VimOperator::Goto) ==> vim::press(app, 'g', now) == (Editor {
                operator: Some(VimOperator::Goto),
                pressed_at: now,
                ..e
            })
        }),
{
}

/// The second `y` yanks the cursor's line behind a line feed, and changes nothing else.
pub proof fn law_yy_copies(app: App, now: u64, start: int, end: int)
    requires
        app.wf(),
        !(app.data.input.mode is Visual),
        !(app.data.input.mode is VisualLine),
        editor::ready(app, now).operator == Some(VimOperator::_Yank),
        line_from(app.data.input.buffer@, app.editor().cursor, start),
        line_to(app.data.input.buffer@, app.editor().cursor, end),
    ensures
        vim::press(app, 'y', now) == (Editor {
            yank: seq!['\n'] + app.data.input.buffer@.subrange(start, end),
            operator: None,
            ..editor::ready(app, now)
        }),
{
    lemma_cursor(app);
    let e = editor::ready(app, now);
    lemma_line_from(e.text, e.cursor, start);
    lemma_line_to(e.text, e.cursor, end);
    laws::lemma_as_lines(e.text.subrange(start, end));
}

/// `x` takes the character under the cursor out of the line and yanks it. Where there is
/// none, or the cursor is not in place, it does nothing.
pub proof fn law_x_cuts(app: App, now: u64)
    requires
        on_line(app),
        !(app.data.input.mode is Visual),
        !(app.data.input.mode is VisualLine),
    ensures
        ({
            let e = editor::ready(app, now);
            let t = e.text;
            let i = e.cursor;
            let f = vim::press(app, 'x', now);
            &&& app.wf() && i < t.len() ==> {
                &&& f.text == t.remove(i)
                &&& f.yank == seq![t[i]]
                &&& lands(f.text, i, f.cursor)
                &&& f == (Editor { text: f.text, cursor: f.cursor, yank: f.yank, ..e })
            }
            &&& !app.wf() || i == t.len() ==> f == e
        }),
{
    if app.wf() {
        lemma_cursor(app);
        let e = editor::ready(app, now);
        if e.cursor < e.text.len() {
            let f = vim::press(app, 'x', now);
            assert(f.text =~= e.text.remove(e.cursor));
            assert(f.yank =~= seq![e.text[e.cursor]]);
        }
    }
}

/// A visual selection from character `from` to the cursor, where the state says that it
/// starts at that character.
pub open spec fn selected_from(app: App, from: int) -> bool {
    &&& app.wf()
    &&& 0 <= from <= app.data.input.buffer@.len()
    &&& app.data.vim.state matches Some(vim) && vim.visual_start == Some(
        encode_utf8(app.data.input.buffer@.take(from)).len() as usize,
    )
    &&& encode_utf8(app.data.input.buffer@.take(from)).len() <= usize::MAX
}

/// The selection's start, as the code finds it.
proof fn lemma_selected_from(app: App, from: int)
    requires
        selected_from(app, from),
    ensures
        text::index_at(app.data.input.buffer@, app.data.vim.state->0.visual_start->0 as int)
            == from,
        0 <= app.editor().cursor <= app.data.input.buffer@.len(),
{
    lemma_cursor(app);
    law_positions_are_bytes(app.data.input.buffer@, from);
}

/// A selection by characters takes in both its ends. `d` and `x` take it out of the line
/// and yank it, and `y` only yanks it. All three end in normal mode.
pub proof fn law_selected_characters(app: App, now: u64, from: int)
    requires
        selected_from(app, from),
        app.data.input.mode is Visual,
    ensures
        ({
            let e = editor::ready(app, now);
            let t = e.text;
            let i = e.cursor;
            let low = if from < i { from } else { i };
            let far = if from < i { i } else { from };
            let high = if far < t.len() { far + 1 } else { far };
            let cut = vim::press(app, 'd', now);
            let copied = vim::press(app, 'y', now);
            &&& vim::press(app, 'x', now) == cut
            &&& cut.text == t.take(low) + t.skip(high)
            &&& low < high ==> cut.yank == t.subrange(low, high) && lands(
                cut.text,
                low,
                cut.cursor,
            )
            &&& low == high ==> cut.yank == e.yank && lands(t, i, cut.cursor)
            &&& cut == (Editor {
                text: cut.text,
                cursor: cut.cursor,
                yank: cut.yank,
                mode: InputMode::Normal,
                visual_start: None,
                ..e
            })
            &&& lands(t, i, copied.cursor)
            &&& copied == (Editor {
                cursor: copied.cursor,
                yank: cut.yank,
                mode: InputMode::Normal,
                visual_start: None,
                ..e
            })
        }),
{
    lemma_selected_from(app, from);
    let e = editor::ready(app, now);
    let t = e.text;
    let low = if from < e.cursor { from } else { e.cursor };
    if low == t.len() {
        assert(t.take(low) + t.skip(low) =~= t);
    }
}

/// A selection by lines takes in both its ends, all of the line that its near end is in,
/// and the rest of the line behind its far end with the line feed. `d` and `x` take it
/// out of the text and yank it as lines, and `y` only yanks it. All three end in normal
/// mode.
pub proof fn law_selected_lines(app: App, now: u64, from: int, low: int, end: int)
    requires
        selected_from(app, from),
        app.data.input.mode is VisualLine,
        ({
            let t = app.data.input.buffer@;
            let i = app.editor().cursor;
            let far = if from < i { i } else { from };
            &&& line_from(t, if from < i { from } else { i }, low)
            &&& line_to(t, if far < t.len() { far + 1 } else { far }, end)
        }),
    ensures
        ({
            let e = editor::ready(app, now);
            let t = e.text;
            let i = e.cursor;
            let high = if end < t.len() { end + 1 } else { end };
            let cut = vim::press(app, 'd', now);
            let copied = vim::press(app, 'y', now);
            &&& vim::press(app, 'x', now) == cut
            &&& cut.text == t.take(low) + t.skip(high)
            &&& low < high ==> yanked_as_lines(t.subrange(low, high), cut.yank) && lands(
                cut.text,
                low,
                cut.cursor,
            )
            &&& low == high ==> cut.yank == e.yank && lands(t, i, cut.cursor)
            &&& cut == (Editor {
                text: cut.text,
                cursor: cut.cursor,
                yank: cut.yank,
                mode: InputMode::Normal,
                visual_start: None,
                ..e
            })
            &&& lands(t, i, copied.cursor)
            &&& copied == (Editor {
                cursor: copied.cursor,
                yank: cut.yank,
                mode: InputMode::Normal,
                visual_start: None,
                ..e
            })
        }),
{
    lemma_selected_from(app, from);
    let e = editor::ready(app, now);
    let t = e.text;
    let i = e.cursor;
    let far = if from < i { i } else { from };
    let high = if end < t.len() { end + 1 } else { end };
    lemma_line_from(t, if from < i { from } else { i }, low);
    lemma_line_to(t, if far < t.len() { far + 1 } else { far }, end);
    law_lines_lose_outer_feeds(t.subrange(low, high));
    if low == high {
        assert(t.take(low) + t.skip(low) =~= t);
    }
}

/// The range of a selection by lines: it holds the character where it starts and the one
/// at the cursor, starts where a line does and ends with the text or a line feed, with
/// none between its far end and its last character.
pub proof fn law_line_range_spans_both_ends(e: Editor, start: usize, from: int)
    requires
        0 <= e.cursor <= e.text.len(),
        0 <= from <= e.text.len(),
        e.mode is VisualLine,
        encode_utf8(e.text.take(from)).len() == start,
    ensures
        ({
            let low = editor::selection_low(e, start);
            let high = editor::selection_high(e, start);
            let near = if from < e.cursor { from } else { e.cursor };
            let far = if from < e.cursor { e.cursor } else { from };
            &&& line_from(e.text, near, low)
            &&& far < e.text.len() ==> far < high
            &&& low <= high <= e.text.len()
            &&& high == e.text.len() || e.text[high - 1] == '\n'
            &&& no_feed(e.text, far + 1, high - 1)
        }),
{
    law_positions_are_bytes(e.text, from);
    let near = if from < e.cursor { from } else { e.cursor };
    let far = if from < e.cursor { e.cursor } else { from };
    motion::lemma_line_start(e.text, near);
    motion::lemma_line_end(e.text, if far < e.text.len() { far + 1 } else { far });
}

/// A visual mode without a start of its selection only ends.
pub proof fn law_selection_without_start_ends(app: App, c: char, now: u64)
    requires
        c == 'd' || c == 'x' || c == 'y',
        app.data.input.mode is Visual || app.data.input.mode is VisualLine,
        editor::ready(app, now).visual_start is None,
    ensures
        ({
            let e = editor::ready(app, now);
            let f = vim::press(app, c, now);
            &&& lands(e.text, e.cursor, f.cursor)
            &&& f == (Editor { cursor: f.cursor, mode: InputMode::Normal, ..e })
        }),
{
    text::lemma_index_at(app.data.input.buffer@, app.data.cursor_position as int);
}

/// `p` puts lines in at the end of the cursor's line and goes to the first of them. It
/// puts anything else in behind the character under the cursor and goes to the last
/// character of it.
pub proof fn law_p_puts(app: App, now: u64, end: int)
    requires
        app.wf(),
        on_line(app),
        line_to(app.data.input.buffer@, app.editor().cursor, end),
    ensures
        ({
            let e = editor::ready(app, now);
            let t = e.text;
            let at = if e.cursor < t.len() { e.cursor + 1 } else { e.cursor };
            let f = vim::press(app, 'p', now);
            &&& e.yank.len() == 0 ==> f == e
            &&& e.yank.len() > 0 && e.yank[0] == '\n' ==> f.text == t.take(end) + e.yank + t.skip(
                end,
            ) && lands(f.text, end + 1, f.cursor)
            &&& e.yank.len() > 0 && e.yank[0] != '\n' ==> f.text == t.take(at) + e.yank + t.skip(
                at,
            ) && f.cursor == at + e.yank.len() - 1
            &&& f == (Editor { text: f.text, cursor: f.cursor, ..e })
        }),
{
    lemma_cursor(app);
    let e = editor::ready(app, now);
    lemma_line_to(e.text, e.cursor, end);
}

/// `P` puts lines in before the cursor's line and goes to the first of them. It puts
/// anything else in before the character under the cursor and goes to the last
/// character of it.
pub proof fn law_shift_p_puts(app: App, now: u64, start: int)
    requires
        app.wf(),
        on_line(app),
        line_from(app.data.input.buffer@, app.editor().cursor, start),
    ensures
        ({
            let e = editor::ready(app, now);
            let t = e.text;
            let i = e.cursor;
            let f = vim::press(app, 'P', now);
            &&& e.yank.len() == 0 ==> f == e
            &&& e.yank.len() > 0 && e.yank[0] == '\n' ==> f.text == t.take(start) + e.yank.skip(1)
                + seq!['\n'] + t.skip(start) && lands(f.text, start, f.cursor)
            &&& e.yank.len() > 0 && e.yank[0] != '\n' ==> f.text == t.take(i) + e.yank + t.skip(i)
                && f.cursor == i + e.yank.len() - 1
            &&& f == (Editor { text: f.text, cursor: f.cursor, ..e })
        }),
{
    lemma_cursor(app);
    let e = editor::ready(app, now);
    lemma_line_from(e.text, e.cursor, start);
    let f = vim::press(app, 'P', now);
    if e.yank.len() > 0 && e.yank[0] == '\n' {
        assert(f.text =~= e.text.take(start) + e.yank.skip(1) + seq!['\n'] + e.text.skip(start));
    }
}

/// `v` and `V` start a selection at the cursor's position in normal mode, end the one in
/// their own mode, and do nothing in any other mode.
pub proof fn law_visual_keys(app: App, now: u64)
    ensures
        ({
            let e = editor::ready(app, now);
            let by_characters = vim::press(app, 'v', now);
            let by_lines = vim::press(app, 'V', now);
            match app.data.input.mode {
                InputMode::Normal => {
                    &&& by_characters == (Editor {
                        mode: InputMode::Visual,
                        visual_start: Some(app.data.cursor_position),
                        ..e
                    })
                    &&& by_lines == (Editor {
                        mode: InputMode::VisualLine,
                        visual_start: Some(app.data.cursor_position),
                        ..e
                    })
                },
                InputMode::Visual => {
                    &&& by_characters == (Editor {
                        mode: InputMode::Normal,
                        visual_start: None,
                        ..e
                    })
                    &&& by_lines == e
                },
                InputMode::VisualLine => {
                    &&& by_lines == (Editor { mode: InputMode::Normal, visual_start: None, ..e })
                    &&& by_characters == e
                },
                _ => by_characters == e && by_lines == e,
            }
        }),
{
}

/// `:` and `/` put the whole line aside and start an empty one, for a command and for a
/// search.
pub proof fn law_aside(app: App, now: u64)
    ensures
        ({
            let e = editor::ready(app, now);
            let command = vim::press(app, ':', now);
            let search = vim::press(app, '/', now);
            &&& command.text.len() == 0
            &&& command == (Editor {
                text: command.text,
                saved: Some(app.data.input.buffer@),
                cursor: 0,
                mode: InputMode::Command,
                ..e
            })
            &&& search == (Editor { mode: InputMode::Search, ..command })
        }),
{
}

/// A key that means nothing ends the wait of an operator and of the keys before it, and
/// changes nothing else.
pub proof fn law_other_keys_end_waiting(app: App, c: char, now: u64)
    requires
        c != 'i' && c != 'I' && c != 'a' && c != 'A' && c != 'O' && c != 'o' && c != 'j' && c != 'k'
            && c != 'h' && c != 'l' && c != 'w' && c != 'b' && c != 'd' && c != 'v' && c != 'V' && c
            != 'x' && c != 'y' && c != 'p' && c != 'P' && c != 'g' && c != 'G' && c != ':' && c
            != '/',
    ensures
        ({
            let f = vim::press(app, c, now);
            &&& f.operator is None
            &&& f.pending.len() == 0
            &&& f == (Editor {
                operator: f.operator,
                pending: f.pending,
                ..editor::ready(app, now)
            })
        }),
{
}

/// The columns that the characters from index `low` to index `high` take one by one. A
/// character without a width takes none.
pub open spec fn taken(t: Seq<char>, low: int, high: int) -> int
    decreases high - low,
{
    if low >= high {
        0
    } else {
        taken(t, low, high - 1) + match width::char_columns(t[high - 1]) {
            Some(n) => n as int,
            None => 0,
        }
    }
}

/// Index `j` is the place under a column in the line from index `low` to index `high`: on
/// the first character that reaches beyond the column, on the last one where none does,
/// or in an empty line.
pub open spec fn under(t: Seq<char>, low: int, high: int, column: int, j: int) -> bool {
    if low == high {
        j == low
    } else {
        &&& low <= j < high
        &&& taken(t, low, j) <= column
        &&& j == high - 1 || taken(t, low, j + 1) > column
    }
}

/// The columns of several characters are those of the first and those of the rest.
proof fn lemma_taken_first(t: Seq<char>, low: int, high: int)
    requires
        0 <= low < high <= t.len(),
    ensures
        taken(t, low, high) == taken(t, low, low + 1) + taken(t, low + 1, high),
        taken(t, low, low + 1) == width::columns(t[low]),
    decreases high - low,
{
    reveal_with_fuel(taken, 2);
    if low + 1 < high {
        lemma_taken_first(t, low, high - 1);
    }
}

/// How many characters fit into a column.
proof fn lemma_fitting(t: Seq<char>, low: int, high: int, column: int)
    requires
        0 <= low <= high <= t.len(),
        column >= 0,
    ensures
        ({
            let k = motion::fitting(width::all_columns(t.subrange(low, high)), column);
            &&& 0 <= k <= high - low
            &&& taken(t, low, low + k) <= column
            &&& low + k < high ==> taken(t, low, low + k + 1) > column
        }),
    decreases high - low,
{
    let widths = width::all_columns(t.subrange(low, high));
    if low < high {
        assert(widths[0] == width::columns(t[low]));
        lemma_taken_first(t, low, low + 1);
        if widths[0] <= column {
            let rest = column - widths[0];
            assert(widths.drop_first() =~= width::all_columns(t.subrange(low + 1, high)));
            lemma_fitting(t, low + 1, high, rest);
            let k = motion::fitting(widths.drop_first(), rest);
            lemma_taken_first(t, low, low + 1 + k);
            if low + 1 + k < high {
                lemma_taken_first(t, low, low + 2 + k);
            }
        }
    }
}

/// The columns grow with the characters.
proof fn lemma_taken_grows(t: Seq<char>, low: int, mid: int, high: int)
    requires
        low <= mid <= high,
    ensures
        taken(t, low, mid) <= taken(t, low, high),
    decreases high - mid,
{
    if mid < high {
        lemma_taken_grows(t, low, mid, high - 1);
    }
}

/// The place under a column, as the code finds it.
proof fn lemma_under(t: Seq<char>, low: int, high: int, column: usize)
    requires
        0 <= low <= high <= t.len(),
        low < t.len(),
        line_to(t, low, high),
    ensures
        under(t, low, high, column as int, editor::place_in_line(t, low, column)),
{
    lemma_line_to(t, low, high);
    lemma_fitting(t, low, high, column as int);
    let widths = width::all_columns(t.subrange(low, high));
    let k = motion::fitting(widths, column as int);
    if k == high - low && k > 0 {
        lemma_taken_grows(t, low, low + k - 1, low + k);
    }
}

/// `j` in a chat or the logs: one row down, or from the input line the place under the
/// cursor's column in the next line, where there is one with anything in it or behind
/// it. Elsewhere it changes nothing.
pub proof fn law_j_moves(app: App, now: u64, start: int, end: int, last: int)
    requires
        ({
            let t = app.data.input.buffer@;
            (app.state is Chatting || app.state is Logs) && app.data.selection_index == 0 ==> {
                &&& app.wf()
                &&& line_from(t, app.editor().cursor, start)
                &&& line_to(t, app.editor().cursor, end)
                &&& end + 1 < t.len() ==> line_to(t, end + 1, last)
            }
        }),
    ensures
        ({
            let e = editor::ready(app, now);
            let t = e.text;
            let f = vim::press(app, 'j', now);
            if !(app.state is Chatting || app.state is Logs) {
                f == e
            } else if app.data.selection_index > 0 {
                f == (Editor { selection: app.data.selection_index - 1, ..e })
            } else {
                &&& f == (Editor { cursor: f.cursor, ..e })
                &&& end + 1 < t.len() ==> under(
                    t,
                    end + 1,
                    last,
                    width::str_columns(t.subrange(start, e.cursor)) as int,
                    f.cursor,
                )
                &&& end + 1 >= t.len() ==> f.cursor == e.cursor
            }
        }),
{
    if (app.state is Chatting || app.state is Logs) && app.data.selection_index == 0 {
        lemma_cursor(app);
        let e = editor::ready(app, now);
        let t = e.text;
        lemma_line_from(t, e.cursor, start);
        lemma_line_to(t, e.cursor, end);
        if end + 1 < t.len() {
            lemma_under(t, end + 1, last, editor::column(t, e.cursor));
        }
    }
}

/// `k` in a chat or the logs: one row up as far as rows are loaded, or from the input
/// line the place under the cursor's column in the line above. From the first line it
/// selects the first row, where there is one. Elsewhere it changes nothing.
pub proof fn law_k_moves(app: App, now: u64, start: int, above: int)
    requires
        ({
            let t = app.data.input.buffer@;
            (app.state is Chatting || app.state is Logs) && app.data.selection_index == 0 ==> {
                &&& app.wf()
                &&& line_from(t, app.editor().cursor, start)
                &&& start > 0 ==> line_from(t, start - 1, above)
            }
        }),
    ensures
        ({
            let e = editor::ready(app, now);
            let t = e.text;
            let rows = if app.state is Chatting {
                app.data.guilds.messages@.len()
            } else {
                app.data.logs@.len()
            };
            let f = vim::press(app, 'k', now);
            if !(app.state is Chatting || app.state is Logs) {
                f == e
            } else if app.data.selection_index > 0 {
                if app.data.selection_index < rows {
                    f == (Editor { selection: app.data.selection_index + 1, ..e })
                } else {
                    f == e
                }
            } else if start > 0 {
                &&& f == (Editor { cursor: f.cursor, ..e })
                &&& under(
                    t,
                    above,
                    start - 1,
                    width::str_columns(t.subrange(start, e.cursor)) as int,
                    f.cursor,
                )
            } else if rows > 0 {
                f == (Editor { selection: 1, ..e })
            } else {
                f == e
            }
        }),
{
    if (app.state is Chatting || app.state is Logs) && app.data.selection_index == 0 {
        lemma_cursor(app);
        let e = editor::ready(app, now);
        let t = e.text;
        lemma_line_from(t, e.cursor, start);
        if start > 0 {
            lemma_line_from(t, start - 1, above);
            lemma_under(t, above, start - 1, editor::column(t, e.cursor));
        }
    }
}

/// The characters from index `low` to index `high` are printable and of ASCII.
pub open spec fn ascii_between(t: Seq<char>, low: int, high: int) -> bool {
    forall|k: int| low <= k < high ==> ' ' <= #[trigger] t[k] <= '~'
}

/// Among lines of printable ASCII characters, `j` keeps the number of characters before
/// the cursor in its line, as far as the line below reaches. `k` does so upwards.
pub proof fn law_columns_are_characters(
    before: Editor,
    after: Editor,
    start: int,
    end: int,
    far: int,
)
    requires
        0 <= before.cursor <= before.text.len(),
        before.selection == 0,
        line_from(before.text, before.cursor, start),
        ascii_between(before.text, start, before.cursor),
    ensures
        vim::keeps_column(before, after, 'j') && line_to(before.text, before.cursor, end) && end + 1
            < before.text.len() && line_to(before.text, end + 1, far) && ascii_between(
            before.text,
            end + 1,
            far,
        ) ==> after.cursor == if before.cursor - start < far - end - 1 {
            end + 1 + (before.cursor - start)
        } else if far == end + 1 {
            end + 1
        } else {
            far - 1
        },
        vim::keeps_column(before, after, 'k') && start > 0 && line_from(before.text, start - 1, far)
            && ascii_between(before.text, far, start - 1) ==> after.cursor == if before.cursor
            - start < start - 1 - far {
            far + (before.cursor - start)
        } else if far == start - 1 {
            far
        } else {
            start - 2
        },
{
    let t = before.text;
    let i = before.cursor;
    lemma_line_from(t, i, start);
    assert(editor::plain(t, start, i));
    if line_to(t, i, end) && end + 1 < t.len() && line_to(t, end + 1, far) && ascii_between(
        t,
        end + 1,
        far,
    ) {
        lemma_line_to(t, i, end);
        lemma_line_to(t, end + 1, far);
        assert(editor::plain(t, end + 1, far));
    }
    if start > 0 && line_from(t, start - 1, far) && ascii_between(t, far, start - 1) {
        lemma_line_from(t, start - 1, far);
        assert(t[start - 1] == '\n');
        lemma_line_to(t, far, start - 1);
        assert(editor::plain(t, far, start - 1));
    }
}

/// Where the motions lead: to the ends of the text or one character on or back, and only
/// the latter and the words ask where the cursor is.
pub proof fn law_motions(t: Seq<char>, i: int)
    requires
        0 <= i <= t.len(),
    ensures
        vim::motion_end(t, i, VimMotion::_Line) == t.len(),
        vim::motion_end(t, i, VimMotion::_EndOfLine) == t.len(),
        vim::motion_end(t, i, VimMotion::_StartOfLine) == 0,
        i < t.len() ==> vim::motion_end(t, i, VimMotion::_CharRight) == i + 1,
        i == t.len() ==> vim::motion_end(t, i, VimMotion::_CharRight) == i,
        i > 0 ==> vim::motion_end(t, i, VimMotion::_CharLeft) == i - 1,
        i == 0 ==> vim::motion_end(t, i, VimMotion::_CharLeft) == 0,
        ({
            let to = vim::motion_end(t, i, VimMotion::WordForward);
            &&& i <= to <= t.len()
            &&& to == t.len() || (i < to && begins(t, to))
            &&& forall|j: int| i < j < to ==> !#[trigger] begins(t, j)
        }),
        ({
            let to = vim::motion_end(t, i, VimMotion::WordBackward);
            &&& 0 <= to <= i
            &&& to == 0 || (to < i - 1 && begins(t, to))
            &&& forall|j: int| to < j < i - 1 ==> !#[trigger] begins(t, j)
        }),
        !vim::reads_cursor(VimMotion::_Line),
        !vim::reads_cursor(VimMotion::_StartOfLine),
        !vim::reads_cursor(VimMotion::_EndOfLine),
{
    law_forward_to_next_start(t, i);
    law_back_to_last_start(t, i);
}

/// A cut between the positions of characters `i` and `j` takes those from `i` up to `j`
/// out of the input line and into the yank buffer, leaves the cursor where they were,
/// and touches nothing else.
pub proof fn law_cut_between(before: App, after: App, i: int, j: int)
    requires
        0 <= i <= j <= before.data.input.buffer@.len(),
        vim::cut_between(
            before,
            after,
            encode_utf8(before.data.input.buffer@.take(i)).len() as int,
            encode_utf8(before.data.input.buffer@.take(j)).len() as int,
        ),
    ensures
        ({
            let t = before.data.input.buffer@;
            &&& after.data.input.buffer@ == t.take(i) + t.skip(j)
            &&& after.data.cursor_position == encode_utf8(t.take(i)).len()
            &&& after.data.vim.state is Some <==> before.data.vim.state is Some
            &&& before.data.vim.state matches Some(vim) ==> {
                &&& after.data.vim.state->0.yank_buffer@ == t.subrange(i, j)
                &&& after.data.vim.state->0.operator == vim.operator
                &&& after.data.vim.state->0.pending_keys == vim.pending_keys
                &&& after.data.vim.state->0.last_action_time == vim.last_action_time
                &&& after.data.vim.state->0.visual_start == vim.visual_start
            }
            &&& after.data.input.mode == before.data.input.mode
            &&& after.data.input.saved == before.data.input.saved
            &&& after.data.selection_index == before.data.selection_index
            &&& before.same_but_editor(after)
        }),
{
    law_positions_are_bytes(before.data.input.buffer@, i);
    law_positions_are_bytes(before.data.input.buffer@, j);
}

/// A position is clamped to the start of the last character where it is not before the
/// end of the text, and left alone otherwise.
pub proof fn law_clamped_positions(t: Seq<char>, position: int)
    ensures
        t.len() == 0 ==> editor::clamped_position(t, position) == 0,
        t.len() > 0 && position >= encode_utf8(t).len() ==> editor::clamped_position(t, position)
            == encode_utf8(t.drop_last()).len(),
        t.len() > 0 && position < encode_utf8(t).len() ==> editor::clamped_position(t, position)
            == position,
{
    text::lemma_size_is_encoded_len(t);
    if t.len() > 0 {
        text::lemma_size_is_encoded_len(t.drop_last());
        assert(t.take(t.len() - 1) =~= t.drop_last());
    }
}

/// Which keys can be handled. Those that go from the cursor need it in place, those that
/// cut or copy a selection need its start in place, and `g` has no words to go to. Every
/// other key can be handled always.
pub proof fn law_what_can_be_pressed(app: App, c: char, now: u64)
    ensures
        ({
            let e = editor::ready(app, now);
            let can = vim::can_press(app, c, now);
            let visual = app.data.input.mode is Visual || app.data.input.mode is VisualLine;
            let history = app.state is Chatting || app.state is Logs;
            let selection = e.visual_start is None || (app.wf() && text::boundary(
                e.text,
                e.visual_start->0 as int,
            ));
            if c == 'h' || c == 'l' {
                can == app.wf()
            } else if c == 'I' || c == 'a' || c == 'A' || c == 'o' || c == 'O' {
                can == (app.wf() || !on_line(app))
            } else if c == 'w' || c == 'b' {
                can == (!on_line(app) || (app.wf() && e.operator != Some(VimOperator::Goto)))
            } else if c == 'j' || c == 'k' {
                can == (app.wf() || !history || app.data.selection_index > 0)
            } else if c == 'd' {
                can == if visual {
                    selection
                } else {
                    app.wf() || !on_line(app) || e.operator != Some(VimOperator::Delete)
                }
            } else if c == 'x' {
                can == (!visual || selection)
            } else if c == 'y' {
                can == if visual {
                    selection
                } else {
                    app.wf() || e.operator != Some(VimOperator::_Yank)
                }
            } else if c == 'p' || c == 'P' {
                can == (app.wf() || !on_line(app) || e.yank.len() == 0)
            } else {
                can
            }
        }),
{
}

/// A cursor that is not in place is not used, and stays where it is. Only `:` and `/`
/// take it to the start, and `G` in a chat or the logs and the end of a visual mode put
/// it on the last character where it is behind that.
pub proof fn law_cursor_out_of_place(app: App, c: char, now: u64)
    requires
        !app.wf(),
        vim::can_press(app, c, now),
    ensures
        !vim::uses_cursor(app, c, now),
        ({
            let t = app.data.input.buffer@;
            let position = app.data.cursor_position as int;
            let visual = app.data.input.mode is Visual || app.data.input.mode is VisualLine;
            vim::unused_position(app, c) == if c == ':' || c == '/' {
                0
            } else if c == 'G' && (app.state is Chatting || app.state is Logs) {
                editor::clamped_position(t, encode_utf8(t).len() as int)
            } else if (c == 'd' || c == 'x' || c == 'y') && visual {
                editor::clamped_position(t, position)
            } else {
                position
            }
        }),
{
    text::lemma_size_is_encoded_len(app.data.input.buffer@);
}

} // verus!
