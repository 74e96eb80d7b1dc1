//! The keys that edit the input line.
use crate::app::{App, InputMode};
use crate::classes::is_control;
use crate::editor::{self, Editor};
use crate::motion::{clamp_index, find_line_end, find_line_start};
use crate::text::{self, byte_offset, char_index, chars_of, slice, splice};
use crate::vertical::{find_down, find_up};
use crate::vim::{clamp_cursor, VimOperator};
use vstd::prelude::*;
use vstd::string::*;

verus! {

/// Vim mode has a state.
pub open spec fn present(app: App) -> bool {
    app.data.vim.state is Some
}

/// Vim mode has a state, and the cursor is where it may be.
pub open spec fn live(app: App) -> bool {
    app.wf() && present(app)
}

/// A key has turned the state `before` into `after`, whose editor is `e`. A cursor that
/// was where it may be still is.
pub open spec fn became(before: App, after: App, e: Editor) -> bool {
    &&& present(after)
    &&& before.wf() ==> after.wf()
    &&& before.same_but_editor(after)
    &&& after.editor() == e
}

/// The cursor's byte position is the same.
pub open spec fn stays(before: App, after: App) -> bool {
    after.data.cursor_position == before.data.cursor_position
}

/// The cursor's byte position is the one that it is clamped to in the same line.
pub open spec fn settles(before: App, after: App) -> bool {
    after.data.cursor_position == editor::clamped_position(
        before.data.input.buffer@,
        before.data.cursor_position as int,
    )
}

/// As `became`, with the cursor's byte position as it was.
pub open spec fn became_in_place(before: App, after: App, e: Editor) -> bool {
    &&& became(before, after, e)
    &&& stays(before, after)
}

/// The input line's characters, and the cursor among them.
pub(crate) fn look(app: &App) -> (r: (Vec<char>, usize))
    requires
        app.wf(),
    ensures
        r.0@ == app.editor().text,
        r.1 == app.editor().cursor,
        r.1 <= r.0@.len(),
        text::size(r.0@) <= usize::MAX,
{
    let chars = chars_of(app.data.input.buffer.as_str());
    match char_index(&chars, app.data.cursor_position) {
        Some(i) => (chars, i),
        None => (chars, 0),
    }
}

/// Puts the cursor at index `i` of the line's characters.
pub(crate) fn move_to(app: &mut App, chars: &Vec<char>, i: usize)
    requires
        live(*old(app)),
        chars@ == old(app).editor().text,
        text::size(chars@) <= usize::MAX,
        i <= chars@.len(),
    ensures
        became(*old(app), *final(app), old(app).editor().at(i as int)),
{
    app.data.cursor_position = byte_offset(chars, i);
    proof {
        text::lemma_index_of_offset(chars@, i as int);
    }
}

/// Replaces the characters from index `low` to index `high` by another text, and
/// puts the cursor at index `i` of the result.
fn replace(app: &mut App, chars: &Vec<char>, low: usize, high: usize, mid: &str, i: usize)
    requires
        live(*old(app)),
        chars@ == old(app).editor().text,
        text::size(chars@) <= usize::MAX,
        low <= high <= chars@.len(),
        i <= chars@.len() - (high - low) + mid@.len(),
    ensures
        became(
            *old(app),
            *final(app),
            (Editor {
                text: chars@.take(low as int) + mid@ + chars@.skip(high as int),
                ..old(app).editor()
            }).at(i as int),
        ),
{
    let from = byte_offset(chars, low);
    let to = byte_offset(chars, high);
    proof {
        text::lemma_index_of_offset(chars@, low as int);
        text::lemma_index_of_offset(chars@, high as int);
    }
    let edited = splice(app.data.input.buffer.as_str(), from, to, mid);
    let edited_chars = chars_of(edited.as_str());
    app.data.cursor_position = byte_offset(&edited_chars, i);
    proof {
        text::lemma_index_of_offset(edited_chars@, i as int);
    }
    app.data.input.buffer = edited;
}

/// Changes the mode.
pub(crate) fn set_mode(app: &mut App, mode: InputMode)
    requires
        present(*old(app)),
    ensures
        became_in_place(*old(app), *final(app), old(app).editor().in_mode(mode)),
{
    app.data.input.mode = mode;
}

/// Replaces what is yanked.
fn set_yank(app: &mut App, part: String)
    requires
        live(*old(app)),
    ensures
        became(*old(app), *final(app), old(app).editor().yanked(part@)),
{
    if let Some(vim) = &mut app.data.vim.state {
        vim.yank_buffer = part;
    }
}

/// Lets an operator wait from time `now` on.
pub(crate) fn wait_for_motion(app: &mut App, operator: VimOperator, now: u64)
    requires
        present(*old(app)),
    ensures
        became_in_place(*old(app), *final(app), old(app).editor().waiting(operator, now)),
{
    if let Some(vim) = &mut app.data.vim.state {
        vim.operator = Some(operator);
        vim.last_action_time = now;
    }
}

/// Drops the operator.
pub(crate) fn end_operator(app: &mut App)
    requires
        present(*old(app)),
    ensures
        became_in_place(*old(app), *final(app), old(app).editor().operator_done()),
{
    if let Some(vim) = &mut app.data.vim.state {
        vim.operator = None;
    }
}

/// `I`.
pub(crate) fn insert_at_line_start(app: &mut App)
    requires
        live(*old(app)),
    ensures
        became(*old(app), *final(app), editor::insert_at_line_start(old(app).editor())),
{
    let (chars, i) = look(app);
    let start = find_line_start(&chars, i);
    move_to(app, &chars, start);
    set_mode(app, InputMode::Insert);
}

/// `a`.
pub(crate) fn append(app: &mut App)
    requires
        live(*old(app)),
    ensures
        became(*old(app), *final(app), editor::append(old(app).editor())),
{
    let (chars, i) = look(app);
    if i < chars.len() {
        move_to(app, &chars, i + 1);
    }
    set_mode(app, InputMode::Insert);
}

/// `A`.
pub(crate) fn append_at_line_end(app: &mut App)
    requires
        live(*old(app)),
    ensures
        became(*old(app), *final(app), editor::append_at_line_end(old(app).editor())),
{
    let (chars, i) = look(app);
    let end = find_line_end(&chars, i);
    move_to(app, &chars, end);
    set_mode(app, InputMode::Insert);
}

/// A text of one line feed.
fn line_feed() -> (s: &'static str)
    ensures
        s@ == seq!['\n'],
{
    proof {
        reveal_strlit("\n");
        assert("\n"@ =~= seq!['\n']);
    }
    "\n"
}

/// `O`.
pub(crate) fn open_above(app: &mut App)
    requires
        live(*old(app)),
    ensures
        became(*old(app), *final(app), editor::open_above(old(app).editor())),
{
    let (chars, i) = look(app);
    let start = find_line_start(&chars, i);
    replace(app, &chars, start, start, line_feed(), start);
    set_mode(app, InputMode::Insert);
}

/// `o`.
pub(crate) fn open_below(app: &mut App)
    requires
        live(*old(app)),
    ensures
        became(*old(app), *final(app), editor::open_below(old(app).editor())),
{
    let (chars, i) = look(app);
    let end = find_line_end(&chars, i);
    if end < chars.len() && end + 1 < chars.len() {
        replace(app, &chars, end + 1, end + 1, line_feed(), end + 1);
    } else {
        append_line_feed(app, &chars);
    }
    set_mode(app, InputMode::Insert);
}

/// Puts a line feed at the end of the line, and the cursor behind it.
fn append_line_feed(app: &mut App, chars: &Vec<char>)
    requires
        live(*old(app)),
        chars@ == old(app).editor().text,
        text::size(chars@) <= usize::MAX,
    ensures
        became(
            *old(app),
            *final(app),
            old(app).editor().with(chars@.len() as int, seq!['\n']).at(chars@.len() as int + 1),
        ),
{
    let n: usize = chars.len();
    replace(app, chars, n, n, line_feed(), n);
    let (longer, _) = look(app);
    proof {
        assert(longer@.len() == n + 1);
    }
    move_to(app, &longer, n + 1);
}

/// `j` in the text.
pub(crate) fn go_down(app: &mut App)
    requires
        live(*old(app)),
    ensures
        became(
            *old(app),
            *final(app),
            old(app).editor().at(editor::down(old(app).editor().text, old(app).editor().cursor)),
        ),
        ({
            let e = old(app).editor();
            editor::plain_below(e.text, e.cursor) ==> final(app).editor().cursor
                == editor::plain_down(e.text, e.cursor)
        }),
{
    let (chars, i) = look(app);
    let j = find_down(app.data.input.buffer.as_str(), &chars, i);
    move_to(app, &chars, j);
}

/// `k` in the text. Tells whether there is a line above.
pub(crate) fn go_up(app: &mut App) -> (moved: bool)
    requires
        live(*old(app)),
    ensures
        moved == editor::has_line_above(old(app).editor().text, old(app).editor().cursor),
        became(
            *old(app),
            *final(app),
            old(app).editor().at(editor::up(old(app).editor().text, old(app).editor().cursor)),
        ),
        ({
            let e = old(app).editor();
            editor::plain_above(e.text, e.cursor) ==> final(app).editor().cursor
                == editor::plain_up(e.text, e.cursor)
        }),
{
    let (chars, i) = look(app);
    match find_up(app.data.input.buffer.as_str(), &chars, i) {
        Some(j) => {
            move_to(app, &chars, j);
            true
        },
        None => false,
    }
}

/// `h`.
pub(crate) fn go_left(app: &mut App)
    requires
        live(*old(app)),
    ensures
        became(
            *old(app),
            *final(app),
            old(app).editor().at(editor::left(old(app).editor().text, old(app).editor().cursor)),
        ),
{
    let (chars, i) = look(app);
    if i > 0 {
        let c = chars[i - 1];
        if !is_control(c) || c == '\t' {
            move_to(app, &chars, i - 1);
        }
    }
}

/// `l`.
pub(crate) fn go_right(app: &mut App)
    requires
        live(*old(app)),
    ensures
        became(
            *old(app),
            *final(app),
            old(app).editor().at(editor::right(old(app).editor().text, old(app).editor().cursor)),
        ),
{
    let (chars, i) = look(app);
    if i < chars.len() && i + 1 < chars.len() && chars[i] != '\n' && chars[i + 1] != '\n' {
        move_to(app, &chars, i + 1);
    }
}

/// Puts the cursor on a character.
pub(crate) fn keep_on_character(app: &mut App)
    requires
        present(*old(app)),
    ensures
        became(*old(app), *final(app), old(app).editor().on_character()),
        settles(*old(app), *final(app)),
{
    clamp_cursor(app);
    proof {
        let e = old(app).editor();
        let n = e.text.len() as int;
        text::lemma_index_at(e.text, old(app).data.cursor_position as int);
        text::lemma_offset_ends(e.text);
        text::lemma_index_of_offset(e.text, 0);
        if n > 0 {
            text::lemma_index_of_offset(e.text, n - 1);
        }
    }
}

/// Moves the characters from index `low` to index `high` to the yank buffer.
fn cut(app: &mut App, chars: &Vec<char>, low: usize, high: usize)
    requires
        live(*old(app)),
        chars@ == old(app).editor().text,
        text::size(chars@) <= usize::MAX,
        low <= high <= chars@.len(),
    ensures
        became(*old(app), *final(app), old(app).editor().cut(low as int, high as int)),
{
    let part = part_of(app, chars, low, high);
    remove(app, chars, low, high, low);
    set_yank(app, part);
}

/// The characters from index `low` to index `high`.
fn part_of(app: &App, chars: &Vec<char>, low: usize, high: usize) -> (part: String)
    requires
        chars@ == app.editor().text,
        text::size(chars@) <= usize::MAX,
        low <= high <= chars@.len(),
    ensures
        part@ == chars@.subrange(low as int, high as int),
{
    let from = byte_offset(chars, low);
    let to = byte_offset(chars, high);
    proof {
        text::lemma_index_of_offset(chars@, low as int);
        text::lemma_index_of_offset(chars@, high as int);
        text::lemma_offset_order(chars@, low as int, high as int);
    }
    slice(app.data.input.buffer.as_str(), from, to)
}

/// How whole lines are yanked.
fn as_lines(part: &str) -> (lines: String)
    ensures
        lines@ == editor::as_lines(part@),
{
    let chars = chars_of(part);
    let mut low: usize = 0;
    proof {
        assert(chars@.skip(0) =~= chars@);
    }
    while low < chars.len() && chars[low] == '\n'
        invariant
            low <= chars.len(),
            editor::trim_front(chars@) == editor::trim_front(chars@.skip(low as int)),
        decreases chars.len() - low,
    {
        proof {
            assert(chars@.skip(low as int).drop_first() =~= chars@.skip(low + 1));
            assert(chars@.skip(low as int)[0] == chars@[low as int]);
        }
        low = low + 1;
    }
    let ghost front = chars@.skip(low as int);
    proof {
        if low < chars.len() {
            assert(front[0] == chars@[low as int]);
        }
        assert(editor::trim_front(chars@) == front);
        assert(chars@.subrange(low as int, chars@.len() as int) =~= front);
    }
    let mut high: usize = chars.len();
    while low < high && chars[high - 1] == '\n'
        invariant
            low <= high <= chars.len(),
            editor::trim_back(front) == editor::trim_back(chars@.subrange(low as int, high as int)),
        decreases high,
    {
        proof {
            let now = chars@.subrange(low as int, high as int);
            assert(now.last() == chars@[high - 1]);
            assert(now.drop_last() =~= chars@.subrange(low as int, high - 1));
        }
        high = high - 1;
    }
    let ghost rest = chars@.subrange(low as int, high as int);
    proof {
        if low < high {
            assert(rest.last() == chars@[high - 1]);
        }
        assert(editor::trim_back(front) == rest);
    }
    let from = byte_offset(&chars, low);
    let to = byte_offset(&chars, high);
    proof {
        text::lemma_index_of_offset(chars@, low as int);
        text::lemma_index_of_offset(chars@, high as int);
        text::lemma_offset_order(chars@, low as int, high as int);
    }
    let mut lines = line_feed().to_owned();
    lines.append(slice(part, from, to).as_str());
    lines
}

/// The indices from which and to which the visual selection goes.
fn selection(app: &App, chars: &Vec<char>, i: usize, start: usize) -> (range: (usize, usize))
    requires
        app.wf(),
        chars@ == app.editor().text,
        text::size(chars@) <= usize::MAX,
        i == app.editor().cursor <= chars.len(),
        text::boundary(chars@, start as int),
    ensures
        range.0 == editor::selection_low(app.editor(), start),
        range.1 == editor::selection_high(app.editor(), start),
        range.0 <= range.1 <= chars.len(),
{
    let from: usize = match char_index(chars, start) {
        Some(from) => from,
        None => 0,
    };
    let (low, far): (usize, usize) = if from < i {
        (from, i)
    } else {
        (i, from)
    };
    let high: usize = if far < chars.len() {
        far + 1
    } else {
        chars.len()
    };
    if app.data.input.mode == InputMode::VisualLine {
        let end = find_line_end(chars, high);
        let behind: usize = if end < chars.len() {
            end + 1
        } else {
            chars.len()
        };
        (find_line_start(chars, low), behind)
    } else {
        (low, high)
    }
}

/// The byte position where the visual selection starts.
fn visual_start(app: &App) -> (start: Option<usize>)
    requires
        present(*app),
    ensures
        start == app.editor().visual_start,
{
    match &app.data.vim.state {
        Some(vim) => vim.visual_start,
        None => None,
    }
}

/// Back from a visual mode.
fn end_visual(app: &mut App)
    requires
        present(*old(app)),
    ensures
        became(*old(app), *final(app), editor::visual_done(old(app).editor())),
        settles(*old(app), *final(app)),
{
    if let Some(vim) = &mut app.data.vim.state {
        vim.visual_start = None;
    }
    app.data.input.mode = InputMode::Normal;
    keep_on_character(app);
}

/// What the visual selection puts into the yank buffer.
fn selection_text(app: &App, chars: &Vec<char>, low: usize, high: usize) -> (part: String)
    requires
        chars@ == app.editor().text,
        text::size(chars@) <= usize::MAX,
        low <= high <= chars@.len(),
    ensures
        part@ == if app.editor().mode is VisualLine {
            editor::as_lines(chars@.subrange(low as int, high as int))
        } else {
            chars@.subrange(low as int, high as int)
        },
{
    let part = part_of(app, chars, low, high);
    if app.data.input.mode == InputMode::VisualLine {
        as_lines(part.as_str())
    } else {
        part
    }
}

/// Takes the characters from index `low` to index `high` out, and leaves the cursor
/// at index `i` of what stays.
fn remove(app: &mut App, chars: &Vec<char>, low: usize, high: usize, i: usize)
    requires
        live(*old(app)),
        chars@ == old(app).editor().text,
        text::size(chars@) <= usize::MAX,
        low <= high <= chars@.len(),
        i <= chars@.len() - (high - low),
    ensures
        became(
            *old(app),
            *final(app),
            old(app).editor().without(low as int, high as int).at(i as int),
        ),
{
    proof {
        reveal_strlit("");
        let t = chars@;
        assert(t.take(low as int) + ""@ + t.skip(high as int) =~= t.take(low as int) + t.skip(
            high as int,
        ));
    }
    replace(app, chars, low, high, "", i);
}

/// `d` and `x` in a visual mode.
pub(crate) fn cut_selection(app: &mut App)
    requires
        present(*old(app)),
        old(app).editor().visual_start matches Some(start) ==> old(app).wf() && text::boundary(
            old(app).editor().text,
            start as int,
        ),
    ensures
        became(*old(app), *final(app), editor::cut_selection(old(app).editor())),
        old(app).editor().visual_start is None ==> settles(*old(app), *final(app)),
{
    if let Some(start) = visual_start(app) {
        let (chars, i) = look(app);
        let (low, high) = selection(app, &chars, i, start);
        if low < high {
            let part = selection_text(app, &chars, low, high);
            remove(app, &chars, low, high, low);
            set_yank(app, part);
        }
    }
    end_visual(app);
}

/// `y` in a visual mode.
pub(crate) fn copy_selection(app: &mut App)
    requires
        present(*old(app)),
        old(app).editor().visual_start matches Some(start) ==> old(app).wf() && text::boundary(
            old(app).editor().text,
            start as int,
        ),
    ensures
        became(*old(app), *final(app), editor::copy_selection(old(app).editor())),
        old(app).editor().visual_start is None ==> settles(*old(app), *final(app)),
{
    if let Some(start) = visual_start(app) {
        let (chars, i) = look(app);
        let (low, high) = selection(app, &chars, i, start);
        if low < high {
            let part = selection_text(app, &chars, low, high);
            set_yank(app, part);
        }
    }
    end_visual(app);
}

/// `dd`.
pub(crate) fn cut_line(app: &mut App)
    requires
        live(*old(app)),
    ensures
        became(*old(app), *final(app), editor::cut_line(old(app).editor())),
{
    let (chars, i) = look(app);
    let start = find_line_start(&chars, i);
    let end = find_line_end(&chars, i);
    if end < chars.len() {
        let part = part_of(app, &chars, start, end + 1);
        remove(app, &chars, start, end + 1, start);
        set_yank(app, as_lines(part.as_str()));
        keep_on_character(app);
    } else if start > 0 {
        let part = part_of(app, &chars, start - 1, end);
        remove(app, &chars, start - 1, end, start - 1);
        set_yank(app, as_lines(part.as_str()));
        let (shorter, last) = look(app);
        proof {
            assert(shorter@ =~= chars@.take(start - 1));
        }
        let above = find_line_start(&shorter, last);
        move_to(app, &shorter, above);
        keep_on_character(app);
    } else {
        let part = part_of(app, &chars, 0, end);
        proof {
            assert(chars@.subrange(0, end as int) =~= chars@);
        }
        remove(app, &chars, 0, end, 0);
        set_yank(app, as_lines(part.as_str()));
    }
    end_operator(app);
}

/// `x`.
pub(crate) fn cut_character(app: &mut App)
    requires
        live(*old(app)),
    ensures
        became(*old(app), *final(app), editor::cut_character(old(app).editor())),
{
    let (chars, i) = look(app);
    if i < chars.len() {
        cut(app, &chars, i, i + 1);
        keep_on_character(app);
    }
}

/// `yy`.
pub(crate) fn copy_line(app: &mut App)
    requires
        live(*old(app)),
    ensures
        became(*old(app), *final(app), editor::copy_line(old(app).editor())),
{
    let (chars, i) = look(app);
    let start = find_line_start(&chars, i);
    let end = find_line_end(&chars, i);
    let part = part_of(app, &chars, start, end);
    set_yank(app, as_lines(part.as_str()));
    end_operator(app);
}

/// What is yanked.
fn yank_of(app: &App) -> (yank: String)
    requires
        present(*app),
    ensures
        yank@ == app.editor().yank,
{
    match &app.data.vim.state {
        Some(vim) => vim.yank_buffer.clone(),
        None => String::new(),
    }
}

/// Puts a text in before index `at`.
fn insert(app: &mut App, chars: &Vec<char>, at: usize, part: &str)
    requires
        live(*old(app)),
        chars@ == old(app).editor().text,
        text::size(chars@) <= usize::MAX,
        at <= chars@.len(),
    ensures
        became(*old(app), *final(app), old(app).editor().with(at as int, part@).at(at as int)),
{
    replace(app, chars, at, at, part, at);
}

/// Moves the cursor on by `n` characters, then onto a character.
fn advance(app: &mut App, n: usize)
    requires
        live(*old(app)),
        old(app).editor().cursor + n <= old(app).editor().text.len(),
    ensures
        became(
            *old(app),
            *final(app),
            old(app).editor().at(old(app).editor().cursor + n).on_character(),
        ),
{
    let (chars, i) = look(app);
    let j = clamp_index(&chars, i + n);
    move_to(app, &chars, j);
}

/// `p`.
pub(crate) fn put_after(app: &mut App)
    requires
        present(*old(app)),
        old(app).editor().yank.len() > 0 ==> old(app).wf(),
    ensures
        became(*old(app), *final(app), editor::put_after(old(app).editor())),
        old(app).editor().yank.len() == 0 ==> stays(*old(app), *final(app)),
{
    let yank = yank_of(app);
    let yanked = chars_of(yank.as_str());
    if yanked.len() == 0 {
        return;
    }
    let (chars, i) = look(app);
    if yanked[0] == '\n' {
        let end = find_line_end(&chars, i);
        insert(app, &chars, end, yank.as_str());
        advance(app, 1);
    } else {
        let at: usize = if i < chars.len() {
            i + 1
        } else {
            i
        };
        insert(app, &chars, at, yank.as_str());
        advance(app, yanked.len() - 1);
    }
}

/// `P`.
pub(crate) fn put_before(app: &mut App)
    requires
        present(*old(app)),
        old(app).editor().yank.len() > 0 ==> old(app).wf(),
    ensures
        became(*old(app), *final(app), editor::put_before(old(app).editor())),
        old(app).editor().yank.len() == 0 ==> stays(*old(app), *final(app)),
{
    let yank = yank_of(app);
    let yanked = chars_of(yank.as_str());
    if yanked.len() == 0 {
        return;
    }
    let (chars, i) = look(app);
    if yanked[0] == '\n' {
        let behind_feed = byte_offset(&yanked, 1);
        let behind = byte_offset(&yanked, yanked.len());
        proof {
            text::lemma_index_of_offset(yanked@, 1);
            text::lemma_index_of_offset(yanked@, yanked@.len() as int);
            text::lemma_offset_order(yanked@, 1, yanked@.len() as int);
        }
        let mut lines = slice(yank.as_str(), behind_feed, behind);
        lines.append(line_feed());
        proof {
            assert(lines@ =~= yanked@.skip(1).push('\n'));
        }
        let start = find_line_start(&chars, i);
        insert(app, &chars, start, lines.as_str());
        keep_on_character(app);
    } else {
        insert(app, &chars, i, yank.as_str());
        advance(app, yanked.len() - 1);
    }
}

/// `v` and `V`.
pub(crate) fn toggle_visual(app: &mut App, mode: InputMode)
    requires
        present(*old(app)),
    ensures
        became_in_place(
            *old(app),
            *final(app),
            editor::toggle_visual(old(app).editor(), mode, old(app).data.cursor_position),
        ),
{
    let position = app.data.cursor_position;
    if app.data.input.mode == InputMode::Normal {
        app.data.input.mode = mode;
        if let Some(vim) = &mut app.data.vim.state {
            vim.visual_start = Some(position);
        }
    } else if app.data.input.mode == mode {
        app.data.input.mode = InputMode::Normal;
        if let Some(vim) = &mut app.data.vim.state {
            vim.visual_start = None;
        }
    }
}

/// `:` and `/`.
pub(crate) fn put_aside(app: &mut App, mode: InputMode)
    requires
        present(*old(app)),
    ensures
        became(*old(app), *final(app), editor::put_aside(old(app).editor(), mode)),
        final(app).wf(),
        final(app).data.cursor_position == 0,
{
    app.data.input.saved = Some(app.data.input.buffer.clone());
    app.data.input.buffer = String::new();
    app.data.cursor_position = 0;
    app.data.input.mode = mode;
    proof {
        text::lemma_offset_ends(app.data.input.buffer@);
        text::lemma_index_of_offset(app.data.input.buffer@, 0);
    }
}

/// Any other key.
pub(crate) fn forget(app: &mut App)
    requires
        present(*old(app)),
    ensures
        became_in_place(*old(app), *final(app), editor::forget(old(app).editor())),
{
    if let Some(vim) = &mut app.data.vim.state {
        vim.operator = None;
        vim.pending_keys = String::new();
    }
}

} // verus!
