//! Vim's keys.
use crate::api::Message;
use crate::app::{App, AppAction, AppState, InputMode};
use crate::editor::{self, Editor, OPERATOR_TIMEOUT};
use crate::keys::{self, look};
use crate::listing::{self, last_channel, last_dm, last_guild};
use crate::motion::{self, find_word_backward, find_word_forward};
use crate::search;
use crate::text::{self, byte_len, byte_offset, char_index, chars_of, slice, splice};
use vstd::prelude::*;
use vstd::string::*;

verus! {

/// An operator that waits for a motion.
#[derive(Debug, Clone, Copy, PartialEq, Eq, Structural)]
pub enum VimOperator {
    Delete,
    _Change,
    _Yank,
    Goto,
}

/// A motion of the cursor.
#[derive(Debug, Clone, Copy, PartialEq, Eq, Structural)]
pub enum VimMotion {
    WordForward,
    WordBackward,
    _Line,
    _CharRight,
    _CharLeft,
    _StartOfLine,
    _EndOfLine,
}

/// What vim mode remembers between keys.
#[derive(Debug)]
pub struct VimState {
    pub operator: Option<VimOperator>,
    pub pending_keys: String,
    /// When the operator was pressed, in nanoseconds on a clock that never goes back.
    pub last_action_time: u64,
    /// Where the visual selection starts, as a byte position.
    pub visual_start: Option<usize>,
    pub yank_buffer: String,
}

impl Clone for VimState {
    fn clone(&self) -> (r: Self)
        ensures
            r == *self,
    {
        VimState {
            operator: self.operator,
            pending_keys: self.pending_keys.clone(),
            last_action_time: self.last_action_time,
            visual_start: self.visual_start,
            yank_buffer: self.yank_buffer.clone(),
        }
    }
}

impl VimState {
    /// No operator, no selection and nothing yanked, as of time `now`.
    pub open spec fn is_fresh(self, now: u64) -> bool {
        &&& self.operator is None
        &&& self.pending_keys@.len() == 0
        &&& self.last_action_time == now
        &&& self.visual_start is None
        &&& self.yank_buffer@.len() == 0
    }

    /// The state that vim mode starts with at time `now`.
    pub fn fresh(now: u64) -> (r: Self)
        ensures
            r.is_fresh(now),
    {
        VimState {
            operator: None,
            pending_keys: String::new(),
            last_action_time: now,
            visual_start: None,
            yank_buffer: String::new(),
        }
    }
}

/// Puts the cursor on a character: at the start of an empty line, on the last
/// character where it is behind it.
pub fn clamp_cursor(state: &mut App)
    ensures
        *final(state) == (App {
            data: crate::app::Data {
                cursor_position: final(state).data.cursor_position,
                ..old(state).data
            },
            ..*old(state)
        }),
        final(state).data.cursor_position == editor::clamped_position(
            old(state).data.input.buffer@,
            old(state).data.cursor_position as int,
        ),
{
    let chars = chars_of(state.data.input.buffer.as_str());
    if chars.len() == 0 {
        state.data.cursor_position = 0;
    } else if state.data.cursor_position >= byte_len(state.data.input.buffer.as_str()) {
        state.data.cursor_position = byte_offset(&chars, chars.len() - 1);
    }
}

/// Whether a motion depends on where the cursor is.
pub open spec fn reads_cursor(motion: VimMotion) -> bool {
    motion is WordForward || motion is WordBackward || motion is _CharRight || motion is _CharLeft
}

/// Where a motion leads from index `i`.
pub open spec fn motion_end(t: Seq<char>, i: int, motion: VimMotion) -> int {
    match motion {
        VimMotion::WordForward => motion::word_forward(t, i),
        VimMotion::WordBackward => motion::word_backward(t, i),
        VimMotion::_Line => t.len() as int,
        VimMotion::_CharRight => if i < t.len() {
            i + 1
        } else {
            i
        },
        VimMotion::_CharLeft => if i > 0 {
            i - 1
        } else {
            i
        },
        VimMotion::_StartOfLine => 0,
        VimMotion::_EndOfLine => t.len() as int,
    }
}

/// The byte positions from which and to which a motion goes.
pub fn get_motion_range(state: &App, motion: VimMotion) -> (range: (usize, usize))
    requires
        reads_cursor(motion) ==> state.wf(),
    ensures
        range.0 == state.data.cursor_position,
        range.1 == text::offset(
            state.data.input.buffer@,
            motion_end(state.data.input.buffer@, state.editor().cursor, motion),
        ),
{
    let start = state.data.cursor_position;
    let ghost t = state.data.input.buffer@;
    let end: usize = match motion {
        VimMotion::WordForward => {
            let (chars, i) = look(state);
            byte_offset(&chars, find_word_forward(&chars, i))
        },
        VimMotion::WordBackward => {
            let (chars, i) = look(state);
            byte_offset(&chars, find_word_backward(&chars, i))
        },
        VimMotion::_Line | VimMotion::_EndOfLine => {
            proof {
                text::lemma_offset_ends(t);
            }
            byte_len(state.data.input.buffer.as_str())
        },
        VimMotion::_CharRight => {
            let (chars, i) = look(state);
            byte_offset(&chars, if i < chars.len() { i + 1 } else { i })
        },
        VimMotion::_CharLeft => {
            let (chars, i) = look(state);
            byte_offset(&chars, if i > 0 { i - 1 } else { i })
        },
        VimMotion::_StartOfLine => {
            proof {
                text::lemma_offset_ends(t);
            }
            0
        },
    };
    (start, end)
}

/// The characters between byte positions `low` and `high` have moved from the input
/// line to the yank buffer, where there is one, and the cursor is where they
/// were.
pub open spec fn cut_between(before: App, after: App, low: int, high: int) -> bool {
    let t = before.data.input.buffer@;
    let i = text::index_at(t, low);
    let j = text::index_at(t, high);
    &&& after == (App {
        data: crate::app::Data {
            input: crate::app::InputData {
                buffer: after.data.input.buffer,
                ..before.data.input
            },
            cursor_position: after.data.cursor_position,
            vim: crate::app::VimData { state: after.data.vim.state, ..before.data.vim },
            ..before.data
        },
        ..before
    })
    &&& after.data.input.buffer@ == t.take(i) + t.skip(j)
    &&& after.data.cursor_position == low
    &&& match before.data.vim.state {
        Some(vim) => {
            &&& after.data.vim.state is Some
            &&& after.data.vim.state->0 == (VimState {
                yank_buffer: after.data.vim.state->0.yank_buffer,
                ..vim
            })
            &&& after.data.vim.state->0.yank_buffer@ == t.subrange(i, j)
        },
        None => after.data.vim.state is None,
    }
}

/// Applies an operator between two byte positions, given in any order. Deleting cuts
/// what lies between them, unless one lies inside a character or behind the
/// line; changing and yanking do nothing.
pub fn execute_operator(state: &mut App, operator: VimOperator, range: (usize, usize))
    requires
        operator != VimOperator::Goto,
    ensures
        ({
            let low = if range.0 < range.1 {
                range.0
            } else {
                range.1
            };
            let high = if range.0 < range.1 {
                range.1
            } else {
                range.0
            };
            let t = old(state).data.input.buffer@;
            if operator is Delete && low < high && text::boundary(t, low as int) && text::boundary(
                t,
                high as int,
            ) {
                cut_between(*old(state), *final(state), low as int, high as int)
            } else {
                *final(state) == *old(state)
            }
        }),
{
    let (start, end) = range;
    let (low, high): (usize, usize) = if start < end {
        (start, end)
    } else {
        (end, start)
    };
    match operator {
        VimOperator::Delete => {
            let chars = chars_of(state.data.input.buffer.as_str());
            if high > low && char_index(&chars, low).is_some() && char_index(
                &chars,
                high,
            ).is_some() {
                let deleted = slice(state.data.input.buffer.as_str(), low, high);
                let kept = splice(state.data.input.buffer.as_str(), low, high, "");
                proof {
                    reveal_strlit("");
                    let i = text::index_at(chars@, low as int);
                    let j = text::index_at(chars@, high as int);
                    assert(chars@.take(i) + ""@ + chars@.skip(j) =~= chars@.take(i) + chars@.skip(
                        j,
                    ));
                }
                if let Some(vim) = &mut state.data.vim.state {
                    vim.yank_buffer = deleted;
                }
                state.data.input.buffer = kept;
                state.data.cursor_position = low;
            }
        },
        _ => {},
    }
}

/// The operator that waits.
fn waiting_operator(state: &App) -> (operator: Option<VimOperator>)
    requires
        keys::present(*state),
    ensures
        operator == state.editor().operator,
{
    match &state.data.vim.state {
        Some(vim) => vim.operator,
        None => None,
    }
}

/// A cut between the cursor and index `to`, as the editor sees it.
proof fn lemma_cut_between(before: App, after: App, low: int, high: int)
    requires
        keys::live(before),
        text::boundary(before.data.input.buffer@, low),
        text::boundary(before.data.input.buffer@, high),
        low < high,
        cut_between(before, after, low, high),
    ensures
        ({
            let i = text::index_at(before.data.input.buffer@, low);
            let j = text::index_at(before.data.input.buffer@, high);
            i < j && keys::became(before, after, before.editor().cut(i, j))
        }),
{
    let t = before.data.input.buffer@;
    let i = text::index_at(t, low);
    let j = text::index_at(t, high);
    text::lemma_offset_of_index(t, low);
    text::lemma_offset_of_index(t, high);
    if j <= i {
        text::lemma_offset_order(t, j, i);
    }
    let kept = after.data.input.buffer@;
    assert(kept.take(i) =~= t.take(i));
    text::lemma_index_of_offset(kept, i);
}

/// Applies the operator that waits, from the cursor over a word motion.
fn operate_over_word(state: &mut App, operator: VimOperator, motion: VimMotion)
    requires
        keys::live(*old(state)),
        operator != VimOperator::Goto,
        motion is WordForward || motion is WordBackward,
    ensures
        keys::became(
            *old(state),
            *final(state),
            editor::operate(
                old(state).editor(),
                operator,
                motion_end(old(state).editor().text, old(state).editor().cursor, motion),
            ).operator_done(),
        ),
{
    let range = get_motion_range(state, motion);
    proof {
        let e = state.editor();
        let to = motion_end(e.text, e.cursor, motion);
        text::lemma_offset_of_index(e.text, state.data.cursor_position as int);
        motion::lemma_word_bounds(e.text, e.cursor);
        text::lemma_index_of_offset(e.text, to);
        if e.cursor < to {
            text::lemma_offset_order(e.text, e.cursor, to);
        } else {
            text::lemma_offset_order(e.text, to, e.cursor);
        }
    }
    execute_operator(state, operator, range);
    proof {
        let e = old(state).editor();
        let to = motion_end(e.text, e.cursor, motion);
        if operator is Delete && e.cursor != to {
            if e.cursor < to {
                lemma_cut_between(*old(state), *state, range.0 as int, range.1 as int);
            } else {
                lemma_cut_between(*old(state), *state, range.1 as int, range.0 as int);
            }
        }
    }
    keys::end_operator(state);
}

/// `w`.
fn next_word(state: &mut App)
    requires
        keys::live(*old(state)),
        old(state).editor().operator != Some(VimOperator::Goto),
    ensures
        keys::became(*old(state), *final(state), editor::next_word(old(state).editor())),
{
    match waiting_operator(state) {
        Some(operator) => operate_over_word(state, operator, VimMotion::WordForward),
        None => {
            let (_, end) = get_motion_range(state, VimMotion::WordForward);
            state.data.cursor_position = end;
            proof {
                let e = old(state).editor();
                text::lemma_offset_of_index(e.text, old(state).data.cursor_position as int);
                motion::lemma_word_bounds(e.text, e.cursor);
                text::lemma_index_of_offset(e.text, motion::word_forward(e.text, e.cursor));
            }
            keys::keep_on_character(state);
        },
    }
}

/// `b`.
fn previous_word(state: &mut App)
    requires
        keys::live(*old(state)),
        old(state).editor().operator != Some(VimOperator::Goto),
    ensures
        keys::became(*old(state), *final(state), editor::previous_word(old(state).editor())),
{
    match waiting_operator(state) {
        Some(operator) => operate_over_word(state, operator, VimMotion::WordBackward),
        None => {
            let (_, end) = get_motion_range(state, VimMotion::WordBackward);
            state.data.cursor_position = end;
            proof {
                let e = old(state).editor();
                text::lemma_offset_of_index(e.text, old(state).data.cursor_position as int);
                motion::lemma_word_bounds(e.text, e.cursor);
                text::lemma_index_of_offset(e.text, motion::word_backward(e.text, e.cursor));
            }
        },
    }
}

/// What the client is to do for a key, besides changing its own state.
#[derive(Debug)]
pub enum VimRequest {
    /// Put an action on the client's queue.
    Send(AppAction),
    /// Fetch up to `limit` messages of a channel that are older than message `before`,
    /// and hand them to `receive_older_messages`.
    FetchOlderMessages { channel_id: String, before: String, limit: usize },
    /// Read up to `lines` older log lines, and hand them to `receive_older_logs`.
    ReadOlderLogs { lines: usize },
}

/// How many older messages are fetched at once.
pub const MESSAGE_BATCH: usize = 100;

/// How many older log lines are read at once.
pub const LOG_BATCH: usize = 10;

/// The row of the last entry of the home menu.
pub const LAST_HOME_ROW: usize = 2;

/// Whether a message of the open chat is selected, rather than the input line.
pub open spec fn message_selected(app: App) -> bool {
    app.state is Chatting && app.data.selection_index > 0
}

/// Whether the selected message is there and the user's own.
pub open spec fn own_message_selected(app: App) -> bool {
    &&& message_selected(app)
    &&& app.data.selection_index <= app.data.guilds.messages@.len()
    &&& app.data.current_user is Some
    &&& app.data.current_user->0.id@ == selected_message(app).author.id@
}

/// The selected message, where it is there.
pub open spec fn selected_message(app: App) -> Message {
    app.data.guilds.messages@[app.data.selection_index - 1]
}

/// Whether lines that the selection can go up to are shown: messages or logs.
pub open spec fn in_history(app: App) -> bool {
    app.state is Chatting || app.state is Logs
}

/// How many lines there are for the selection to go up to.
pub open spec fn history_len(app: App) -> int {
    if app.state is Chatting {
        app.data.guilds.messages@.len() as int
    } else {
        app.data.logs@.len() as int
    }
}

/// The keys that start inserting.
pub open spec fn insert_key(c: char) -> bool {
    c == 'i' || c == 'I' || c == 'a' || c == 'A'
}

impl Editor {
    /// With the selection in row `row`.
    pub open spec fn select(self, row: int) -> Editor {
        Editor { selection: row, ..self }
    }
}

/// `j`: the selection goes down, or the cursor, where the selection is the input line.
pub open spec fn press_j(app: App, e: Editor) -> Editor {
    if !in_history(app) {
        e
    } else if e.selection > 0 {
        e.select(e.selection - 1)
    } else {
        e.at(editor::down(e.text, e.cursor))
    }
}

/// `k`: the selection goes up, as far as lines are loaded. Where it is the input line,
/// the cursor goes up, and from the first line the selection does.
pub open spec fn press_k(app: App, e: Editor) -> Editor {
    if !in_history(app) {
        e
    } else if e.selection != 0 {
        if e.selection < history_len(app) {
            e.select(e.selection + 1)
        } else {
            e
        }
    } else if editor::has_line_above(e.text, e.cursor) {
        e.at(editor::up(e.text, e.cursor))
    } else if history_len(app) > 0 {
        e.select(1)
    } else {
        e
    }
}

/// `d`: cuts the visual selection; deletes the selected message, if it is the user's
/// own, or the cursor's line, where it is pressed twice.
pub open spec fn press_d(app: App, e: Editor, now: u64) -> Editor {
    if editor::visual(e.mode) {
        editor::cut_selection(e)
    } else if e.operator == Some(VimOperator::Delete) {
        if !message_selected(app) {
            editor::cut_line(e)
        } else if own_message_selected(app) {
            e.operator_done()
        } else {
            e
        }
    } else {
        e.waiting(VimOperator::Delete, now)
    }
}

/// `y`: copies the visual selection, or the cursor's line, where it is pressed twice.
pub open spec fn press_y(e: Editor, now: u64) -> Editor {
    if editor::visual(e.mode) {
        editor::copy_selection(e)
    } else if e.operator == Some(VimOperator::_Yank) {
        editor::copy_line(e)
    } else {
        e.waiting(VimOperator::_Yank, now)
    }
}

/// `g`: pressed twice, the selection goes up as far as it can.
pub open spec fn press_g(app: App, e: Editor, now: u64) -> Editor {
    if e.operator == Some(VimOperator::Goto) {
        e.select(
            if in_history(app) {
                history_len(app)
            } else {
                0
            },
        )
    } else {
        e.waiting(VimOperator::Goto, now)
    }
}

/// `G`: the selection goes to the last entry of a list, or to the end of the input
/// line.
pub open spec fn press_shift_g(app: App, e: Editor) -> Editor {
    let filter = search::lowercase(app.data.input.search@);
    match app.state {
        AppState::Home => e.select(LAST_HOME_ROW as int),
        AppState::SelectingGuild => e.select(
            listing::last_row(
                listing::matching(
                    listing::guild_names(app.data.guilds.joined@),
                    filter,
                ).len() as int,
            ),
        ),
        AppState::SelectingDM => e.select(
            listing::last_row(
                listing::matching(listing::dm_names(app.data.dms.channels@), filter).len() as int,
            ),
        ),
        AppState::SelectingChannel(_) => e.select(
            listing::last_row(
                listing::rows(
                    listing::entries_of(app.data.guilds.channels@, app.data.context),
                    filter,
                ).len() as int,
            ),
        ),
        AppState::Chatting(_) | AppState::Logs(_) => e.select(0).at(
            e.text.len() as int,
        ).on_character(),
        _ => e,
    }
}

/// What a key at time `now` makes of the editor.
pub open spec fn press(app: App, c: char, now: u64) -> Editor {
    let e = editor::ready(app, now);
    let busy = message_selected(app);
    if busy && insert_key(c) {
        e
    } else {
        match c {
            'i' => e.in_mode(InputMode::Insert),
            'I' => editor::insert_at_line_start(e),
            'a' => editor::append(e),
            'A' => editor::append_at_line_end(e),
            'O' => if busy { e } else { editor::open_above(e) },
            'o' => if busy { e } else { editor::open_below(e) },
            'j' => press_j(app, e),
            'k' => press_k(app, e),
            'h' => e.at(editor::left(e.text, e.cursor)),
            'l' => e.at(editor::right(e.text, e.cursor)),
            'w' => if busy { e } else { editor::next_word(e) },
            'b' => if busy { e } else { editor::previous_word(e) },
            'd' => press_d(app, e, now),
            'v' => editor::toggle_visual(e, InputMode::Visual, app.data.cursor_position),
            'V' => editor::toggle_visual(e, InputMode::VisualLine, app.data.cursor_position),
            'x' => if editor::visual(e.mode) {
                editor::cut_selection(e)
            } else if busy || !app.wf() {
                e
            } else {
                editor::cut_character(e)
            },
            'y' => press_y(e, now),
            'p' => if busy { e } else { editor::put_after(e) },
            'P' => if busy { e } else { editor::put_before(e) },
            'g' => press_g(app, e, now),
            'G' => press_shift_g(app, e),
            ':' => editor::put_aside(e, InputMode::Command),
            '/' => editor::put_aside(e, InputMode::Search),
            _ => editor::forget(e),
        }
    }
}

/// The request to fetch messages older than those that are loaded, between the two
/// actions that tell when it starts and ends.
pub open spec fn older_messages(app: App) -> Seq<VimRequest> {
    let messages = app.data.guilds.messages@;
    let start = VimRequest::Send(AppAction::TransitionToLoadingMessages);
    let end = VimRequest::Send(AppAction::EndLoadingMessages);
    if messages.len() == 0 {
        seq![start, end]
    } else {
        seq![
            start,
            VimRequest::FetchOlderMessages {
                channel_id: app.state->Chatting_0.id,
                before: messages.last().id,
                limit: MESSAGE_BATCH,
            },
            end,
        ]
    }
}

/// A request to edit the selected message.
pub open spec fn editing_request(app: App, c: char, request: VimRequest) -> bool {
    &&& request matches VimRequest::Send(AppAction::TransitionToEditing(
        channel,
        message,
        content,
        key,
    ))
    &&& *channel == *app.state->Chatting_0
    &&& message == selected_message(app)
    &&& content@ == match selected_message(app).content {
        Some(content) => content@,
        None => Seq::empty(),
    }
    &&& key == c
}

/// What a key at time `now` asks the client to do, in order.
pub open spec fn asks(app: App, c: char, now: u64, requests: Seq<VimRequest>) -> bool {
    let e = editor::ready(app, now);
    if message_selected(app) && insert_key(c) {
        if own_message_selected(app) {
            requests.len() == 1 && editing_request(app, c, requests[0])
        } else {
            requests.len() == 0
        }
    } else if c == 'j' && !in_history(app) {
        requests == seq![VimRequest::Send(AppAction::SelectNext)]
    } else if c == 'k' && !in_history(app) {
        requests == seq![VimRequest::Send(AppAction::SelectPrevious)]
    } else if c == 'k' && e.selection != 0 && e.selection >= history_len(app) {
        if app.state is Logs {
            requests == seq![VimRequest::ReadOlderLogs { lines: LOG_BATCH }]
        } else if !app.is_loading {
            requests == older_messages(app)
        } else {
            requests.len() == 0
        }
    } else if c == 'd' && !editor::visual(e.mode) && e.operator == Some(VimOperator::Delete)
        && own_message_selected(app) {
        requests == seq![
            VimRequest::Send(
                AppAction::ApiDeleteMessage(app.state->Chatting_0.id, selected_message(app).id),
            ),
        ]
    } else {
        requests.len() == 0
    }
}

/// Whether a key at time `now` needs the cursor to be between two characters of the
/// input line. `x` does without: it leaves the line alone where the cursor is not.
pub open spec fn uses_cursor(app: App, c: char, now: u64) -> bool {
    let e = editor::ready(app, now);
    let busy = message_selected(app);
    match c {
        'I' | 'a' | 'A' | 'O' | 'o' | 'w' | 'b' => !busy,
        'h' | 'l' => true,
        'j' | 'k' => in_history(app) && app.data.selection_index == 0,
        'd' => if editor::visual(e.mode) {
            e.visual_start is Some
        } else {
            !busy && e.operator == Some(VimOperator::Delete)
        },
        'x' => if editor::visual(e.mode) {
            e.visual_start is Some
        } else {
            !busy && app.wf()
        },
        'y' => if editor::visual(e.mode) {
            e.visual_start is Some
        } else {
            e.operator == Some(VimOperator::_Yank)
        },
        'p' | 'P' => !busy && e.yank.len() > 0,
        _ => false,
    }
}

/// The cursor's byte position after a key that does not use it.
pub open spec fn unused_position(app: App, c: char) -> int {
    let t = app.data.input.buffer@;
    let position = app.data.cursor_position as int;
    match c {
        ':' | '/' => 0,
        'G' => if in_history(app) {
            editor::clamped_position(t, text::size(t) as int)
        } else {
            position
        },
        'd' | 'x' | 'y' => if editor::visual(app.data.input.mode) {
            editor::clamped_position(t, position)
        } else {
            position
        },
        _ => position,
    }
}

/// Whether a key at time `now` can be handled. A cursor inside a character or behind the
/// line cannot be used, a visual selection whose start an edit has left behind
/// cannot be cut or copied, and no word can be gone to with `g`.
pub open spec fn can_press(app: App, c: char, now: u64) -> bool {
    let e = editor::ready(app, now);
    &&& uses_cursor(app, c, now) ==> app.wf()
    &&& (c == 'd' || c == 'x' || c == 'y') && editor::visual(e.mode) ==> (
    e.visual_start matches Some(start) ==> text::boundary(e.text, start as int))
    &&& (c == 'w' || c == 'b') && !message_selected(app) ==> e.operator != Some(VimOperator::Goto)
}

/// Among lines of printable ASCII characters, `j` and `k` in the input line lead to the
/// same number of characters into the next line, or to its last character.
pub open spec fn keeps_column(before: Editor, after: Editor, c: char) -> bool {
    &&& c == 'j' && before.selection == 0 && editor::plain_below(before.text, before.cursor)
        ==> after.cursor == editor::plain_down(before.text, before.cursor)
    &&& c == 'k' && before.selection == 0 && editor::plain_above(before.text, before.cursor)
        ==> after.cursor == editor::plain_up(before.text, before.cursor)
}

/// Whether a message of the open chat is selected.
fn is_message_selected(state: &App) -> (b: bool)
    ensures
        b == message_selected(*state),
{
    match &state.state {
        AppState::Chatting(_) => state.data.selection_index > 0,
        _ => false,
    }
}

/// Whether the selected message is there and the user's own.
fn is_own_message_selected(state: &App) -> (b: bool)
    ensures
        b == own_message_selected(*state),
{
    if !is_message_selected(state) {
        return false;
    }
    let row = state.data.selection_index;
    if row > state.data.guilds.messages.len() {
        return false;
    }
    match &state.data.current_user {
        Some(user) => user.id == state.data.guilds.messages[row - 1].author.id,
        None => false,
    }
}

/// The time since the operator was pressed is up.
fn is_timed_out(pressed_at: u64, now: u64) -> (b: bool)
    ensures
        b == editor::timed_out(pressed_at, now),
{
    now >= pressed_at && now - pressed_at >= OPERATOR_TIMEOUT
}

/// Sets vim mode up for a key at time `now`.
fn make_ready(state: &mut App, now: u64)
    ensures
        keys::became_in_place(*old(state), *final(state), editor::ready(*old(state), now)),
{
    if let Some(vim) = &mut state.data.vim.state {
        if vim.operator.is_some() && is_timed_out(vim.last_action_time, now) {
            vim.operator = None;
            vim.pending_keys = String::new();
        }
    }
    if state.data.vim.state.is_none() {
        let fresh = VimState::fresh(now);
        proof {
            assert(fresh.pending_keys@ =~= Seq::empty());
            assert(fresh.yank_buffer@ =~= Seq::empty());
        }
        state.data.vim.state = Some(fresh);
    }
}

/// The request to edit the selected message, where it is the user's own.
fn request_editing(state: &App, c: char) -> (requests: Vec<VimRequest>)
    requires
        message_selected(*state),
    ensures
        own_message_selected(*state) ==> requests@.len() == 1 && editing_request(
            *state,
            c,
            requests@[0],
        ),
        !own_message_selected(*state) ==> requests@.len() == 0,
{
    let mut requests: Vec<VimRequest> = Vec::new();
    if is_own_message_selected(state) {
        let message = &state.data.guilds.messages[state.data.selection_index - 1];
        let content = match &message.content {
            Some(content) => content.clone(),
            None => String::new(),
        };
        if let AppState::Chatting(channel) = &state.state {
            requests.push(
                VimRequest::Send(
                    AppAction::TransitionToEditing(
                        Box::new((**channel).clone()),
                        message.clone(),
                        content,
                        c,
                    ),
                ),
            );
        }
    }
    requests
}

/// The request to fetch older messages.
fn request_older_messages(state: &App) -> (requests: Vec<VimRequest>)
    requires
        state.state is Chatting,
    ensures
        requests@ == older_messages(*state),
{
    let mut requests: Vec<VimRequest> = Vec::new();
    requests.push(VimRequest::Send(AppAction::TransitionToLoadingMessages));
    let n: usize = state.data.guilds.messages.len();
    if n > 0 {
        if let AppState::Chatting(channel) = &state.state {
            requests.push(
                VimRequest::FetchOlderMessages {
                    channel_id: channel.get_id().clone(),
                    before: state.data.guilds.messages[n - 1].id.clone(),
                    limit: MESSAGE_BATCH,
                },
            );
        }
    }
    requests.push(VimRequest::Send(AppAction::EndLoadingMessages));
    requests
}

/// The request to delete the selected message.
fn request_deletion(state: &App) -> (requests: Vec<VimRequest>)
    requires
        own_message_selected(*state),
    ensures
        requests@ == seq![
            VimRequest::Send(
                AppAction::ApiDeleteMessage(
                    state.state->Chatting_0.id,
                    selected_message(*state).id,
                ),
            ),
        ],
{
    let mut requests: Vec<VimRequest> = Vec::new();
    if let AppState::Chatting(channel) = &state.state {
        let message = &state.data.guilds.messages[state.data.selection_index - 1];
        requests.push(
            VimRequest::Send(
                AppAction::ApiDeleteMessage(channel.get_id().clone(), message.id.clone()),
            ),
        );
    }
    requests
}

/// How many lines there are for the selection to go up to, where such lines are shown.
fn history(state: &App) -> (n: Option<usize>)
    ensures
        n is Some <==> in_history(*state),
        n matches Some(n) ==> n == history_len(*state),
{
    match &state.state {
        AppState::Chatting(_) => Some(state.data.guilds.messages.len()),
        AppState::Logs(_) => Some(state.data.logs.len()),
        _ => None,
    }
}

/// `j`.
fn handle_j(state: &mut App) -> (requests: Vec<VimRequest>)
    requires
        keys::present(*old(state)),
        in_history(*old(state)) && old(state).data.selection_index == 0 ==> old(state).wf(),
    ensures
        keys::became(*old(state), *final(state), press_j(*old(state), old(state).editor())),
        !(in_history(*old(state)) && old(state).data.selection_index == 0) ==> keys::stays(
            *old(state),
            *final(state),
        ),
        in_history(*old(state)) ==> keeps_column(old(state).editor(), final(state).editor(), 'j'),
        if in_history(*old(state)) {
            requests@.len() == 0
        } else {
            requests@ == seq![VimRequest::Send(AppAction::SelectNext)]
        },
{
    let mut requests: Vec<VimRequest> = Vec::new();
    match history(state) {
        Some(_) => {
            if state.data.selection_index > 0 {
                state.data.selection_index = state.data.selection_index - 1;
            } else {
                keys::go_down(state);
            }
        },
        None => {
            requests.push(VimRequest::Send(AppAction::SelectNext));
        },
    }
    requests
}

/// `k`.
fn handle_k(state: &mut App) -> (requests: Vec<VimRequest>)
    requires
        keys::present(*old(state)),
        in_history(*old(state)) && old(state).data.selection_index == 0 ==> old(state).wf(),
    ensures
        keys::became(*old(state), *final(state), press_k(*old(state), old(state).editor())),
        !(in_history(*old(state)) && old(state).data.selection_index == 0) ==> keys::stays(
            *old(state),
            *final(state),
        ),
        in_history(*old(state)) ==> keeps_column(old(state).editor(), final(state).editor(), 'k'),
        ({
            let row = old(state).data.selection_index;
            if !in_history(*old(state)) {
                requests@ == seq![VimRequest::Send(AppAction::SelectPrevious)]
            } else if row == 0 || row < history_len(*old(state)) {
                requests@.len() == 0
            } else if old(state).state is Logs {
                requests@ == seq![VimRequest::ReadOlderLogs { lines: LOG_BATCH }]
            } else if !old(state).is_loading {
                requests@ == older_messages(*old(state))
            } else {
                requests@.len() == 0
            }
        }),
{
    let mut requests: Vec<VimRequest> = Vec::new();
    match history(state) {
        Some(n) => {
            if state.data.selection_index != 0 {
                if state.data.selection_index < n {
                    state.data.selection_index = state.data.selection_index + 1;
                } else {
                    match &state.state {
                        AppState::Logs(_) => {
                            requests.push(VimRequest::ReadOlderLogs { lines: LOG_BATCH });
                        },
                        _ => {
                            if !state.is_loading {
                                requests = request_older_messages(state);
                            }
                        },
                    }
                }
            } else if !keys::go_up(state) && n > 0 {
                state.data.selection_index = 1;
            }
        },
        None => {
            requests.push(VimRequest::Send(AppAction::SelectPrevious));
        },
    }
    requests
}

/// Whether the mode is one of the two visual ones.
fn is_visual(state: &App) -> (b: bool)
    ensures
        b == editor::visual(state.data.input.mode),
{
    state.data.input.mode == InputMode::Visual || state.data.input.mode == InputMode::VisualLine
}

/// Whether the cursor and the start of the selection, where there is one, are in place.
spec fn selection_in_place(state: App) -> bool {
    state.editor().visual_start matches Some(start) ==> state.wf() && text::boundary(
        state.editor().text,
        start as int,
    )
}

/// `d`.
fn handle_d(state: &mut App, now: u64) -> (requests: Vec<VimRequest>)
    requires
        keys::present(*old(state)),
        editor::visual(old(state).editor().mode) ==> selection_in_place(*old(state)),
        !editor::visual(old(state).editor().mode) && !message_selected(*old(state))
            && old(state).editor().operator == Some(VimOperator::Delete) ==> old(state).wf(),
    ensures
        keys::became(*old(state), *final(state), press_d(*old(state), old(state).editor(), now)),
        editor::visual(old(state).editor().mode) && old(state).editor().visual_start is None
            ==> keys::settles(*old(state), *final(state)),
        !editor::visual(old(state).editor().mode) && (message_selected(*old(state))
            || old(state).editor().operator != Some(VimOperator::Delete)) ==> keys::stays(
            *old(state),
            *final(state),
        ),
        if !editor::visual(old(state).editor().mode) && old(state).editor().operator == Some(
            VimOperator::Delete,
        ) && own_message_selected(*old(state)) {
            requests@ == seq![
                VimRequest::Send(
                    AppAction::ApiDeleteMessage(
                        old(state).state->Chatting_0.id,
                        selected_message(*old(state)).id,
                    ),
                ),
            ]
        } else {
            requests@.len() == 0
        },
{
    let mut requests: Vec<VimRequest> = Vec::new();
    if is_visual(state) {
        keys::cut_selection(state);
    } else if waiting_operator(state) == Some(VimOperator::Delete) {
        if !is_message_selected(state) {
            keys::cut_line(state);
        } else if is_own_message_selected(state) {
            requests = request_deletion(state);
            keys::end_operator(state);
        }
    } else {
        keys::wait_for_motion(state, VimOperator::Delete, now);
    }
    requests
}

/// `x`.
fn handle_x(state: &mut App)
    requires
        keys::present(*old(state)),
        editor::visual(old(state).editor().mode) ==> selection_in_place(*old(state)),
    ensures
        keys::became(
            *old(state),
            *final(state),
            if editor::visual(old(state).editor().mode) {
                editor::cut_selection(old(state).editor())
            } else if message_selected(*old(state)) || !old(state).wf() {
                old(state).editor()
            } else {
                editor::cut_character(old(state).editor())
            },
        ),
        editor::visual(old(state).editor().mode) && old(state).editor().visual_start is None
            ==> keys::settles(*old(state), *final(state)),
        !editor::visual(old(state).editor().mode) && (message_selected(*old(state))
            || !old(state).wf()) ==> keys::stays(*old(state), *final(state)),
{
    if is_visual(state) {
        keys::cut_selection(state);
    } else if !is_message_selected(state) && is_cursor_in_place(state) {
        keys::cut_character(state);
    }
}

/// `y`.
fn handle_y(state: &mut App, now: u64)
    requires
        keys::present(*old(state)),
        editor::visual(old(state).editor().mode) ==> selection_in_place(*old(state)),
        !editor::visual(old(state).editor().mode) && old(state).editor().operator == Some(
            VimOperator::_Yank,
        ) ==> old(state).wf(),
    ensures
        keys::became(*old(state), *final(state), press_y(old(state).editor(), now)),
        editor::visual(old(state).editor().mode) && old(state).editor().visual_start is None
            ==> keys::settles(*old(state), *final(state)),
        !editor::visual(old(state).editor().mode) && old(state).editor().operator != Some(
            VimOperator::_Yank,
        ) ==> keys::stays(*old(state), *final(state)),
{
    if is_visual(state) {
        keys::copy_selection(state);
    } else if waiting_operator(state) == Some(VimOperator::_Yank) {
        keys::copy_line(state);
    } else {
        keys::wait_for_motion(state, VimOperator::_Yank, now);
    }
}

/// `g`.
fn handle_g(state: &mut App, now: u64)
    requires
        keys::present(*old(state)),
    ensures
        keys::became_in_place(
            *old(state),
            *final(state),
            press_g(*old(state), old(state).editor(), now),
        ),
{
    if waiting_operator(state) == Some(VimOperator::Goto) {
        state.data.selection_index =
        match history(state) {
            Some(n) => n,
            None => 0,
        };
    } else {
        keys::wait_for_motion(state, VimOperator::Goto, now);
    }
}

/// `G`.
fn handle_shift_g(state: &mut App)
    requires
        keys::present(*old(state)),
    ensures
        keys::became(*old(state), *final(state), press_shift_g(*old(state), old(state).editor())),
        final(state).data.cursor_position == if in_history(*old(state)) {
            editor::clamped_position(
                old(state).data.input.buffer@,
                text::size(old(state).data.input.buffer@) as int,
            )
        } else {
            old(state).data.cursor_position as int
        },
{
    match &state.state {
        AppState::Home => {
            state.data.selection_index = LAST_HOME_ROW;
        },
        AppState::SelectingGuild => {
            state.data.selection_index = last_guild(
                &state.data.guilds.joined,
                state.data.input.search.as_str(),
            );
        },
        AppState::SelectingDM => {
            state.data.selection_index = last_dm(
                &state.data.dms.channels,
                state.data.input.search.as_str(),
            );
        },
        AppState::SelectingChannel(_) => {
            state.data.selection_index = last_channel(
                &state.data.guilds.channels,
                &state.data.context,
                state.data.input.search.as_str(),
            );
        },
        AppState::Chatting(_) | AppState::Logs(_) => {
            state.data.selection_index = 0;
            state.data.cursor_position = byte_len(state.data.input.buffer.as_str());
            proof {
                let t = state.data.input.buffer@;
                text::lemma_offset_ends(t);
                text::lemma_index_of_offset(t, t.len() as int);
            }
            keys::keep_on_character(state);
        },
        _ => {},
    }
}

/// Whether the cursor is between two characters of the input line.
fn is_cursor_in_place(state: &App) -> (b: bool)
    ensures
        b == state.wf(),
{
    let chars = chars_of(state.data.input.buffer.as_str());
    char_index(&chars, state.data.cursor_position).is_some()
}

/// Whether a key at time `now` needs the cursor to be in place.
fn needs_cursor(state: &App, c: char, now: u64) -> (b: bool)
    ensures
        b ==> uses_cursor(*state, c, now),
        uses_cursor(*state, c, now) ==> b || state.wf(),
{
    let busy = is_message_selected(state);
    let visual = is_visual(state);
    let (operator, start, yanked): (Option<VimOperator>, Option<usize>, bool) = match
        &state.data.vim.state {
        Some(vim) => {
            let late = is_timed_out(vim.last_action_time, now);
            let operator = if late {
                None
            } else {
                vim.operator
            };
            (operator, vim.visual_start, !vim.yank_buffer.as_str().is_empty())
        },
        None => (None, None, false),
    };
    match c {
        'I' | 'a' | 'A' | 'O' | 'o' | 'w' | 'b' => !busy,
        'h' | 'l' => true,
        'j' | 'k' => history(state).is_some() && state.data.selection_index == 0,
        'd' => if visual {
            start.is_some()
        } else {
            !busy && operator == Some(VimOperator::Delete)
        },
        'x' => visual && start.is_some(),
        'y' => if visual {
            start.is_some()
        } else {
            operator == Some(VimOperator::_Yank)
        },
        'p' | 'P' => !busy && yanked,
        _ => false,
    }
}

/// Whether a key at time `now` can be handled.
pub fn is_pressable(state: &App, c: char, now: u64) -> (b: bool)
    ensures
        b == can_press(*state, c, now),
{
    if needs_cursor(state, c, now) && !is_cursor_in_place(state) {
        return false;
    }
    let chars = chars_of(state.data.input.buffer.as_str());
    match &state.data.vim.state {
        Some(vim) => {
            if (c == 'd' || c == 'x' || c == 'y') && is_visual(state) {
                match vim.visual_start {
                    Some(start) => char_index(&chars, start).is_some(),
                    None => true,
                }
            } else if (c == 'w' || c == 'b') && !is_message_selected(state) {
                vim.operator != Some(VimOperator::Goto) || is_timed_out(vim.last_action_time, now)
            } else {
                true
            }
        },
        None => true,
    }
}

/// Handles a key in normal or visual mode at time `now`. Changes the state, and tells
/// what else is to be done.
pub fn handle_vim_keys(state: &mut App, c: char, now: u64) -> (requests: Vec<VimRequest>)
    requires
        can_press(*old(state), c, now),
    ensures
        old(state).wf() ==> final(state).wf(),
        !uses_cursor(*old(state), c, now) ==> final(state).data.cursor_position == unused_position(
            *old(state),
            c,
        ),
        final(state).data.vim.state is Some,
        old(state).same_but_editor(*final(state)),
        final(state).editor() == press(*old(state), c, now),
        asks(*old(state), c, now, requests@),
        in_history(*old(state)) ==> keeps_column(old(state).editor(), final(state).editor(), c),
{
    make_ready(state, now);
    let busy = is_message_selected(state);
    let mut requests: Vec<VimRequest> = Vec::new();
    if busy && (c == 'i' || c == 'I' || c == 'a' || c == 'A') {
        return request_editing(state, c);
    }
    match c {
        'i' => keys::set_mode(state, InputMode::Insert),
        'I' => keys::insert_at_line_start(state),
        'a' => keys::append(state),
        'A' => keys::append_at_line_end(state),
        'O' => {
            if !busy {
                keys::open_above(state);
            }
        },
        'o' => {
            if !busy {
                keys::open_below(state);
            }
        },
        'j' => {
            requests = handle_j(state);
        },
        'k' => {
            requests = handle_k(state);
        },
        'h' => keys::go_left(state),
        'l' => keys::go_right(state),
        'w' => {
            if !busy {
                next_word(state);
            }
        },
        'b' => {
            if !busy {
                previous_word(state);
            }
        },
        'd' => {
            requests = handle_d(state, now);
        },
        'v' => keys::toggle_visual(state, InputMode::Visual),
        'V' => keys::toggle_visual(state, InputMode::VisualLine),
        'x' => handle_x(state),
        'y' => handle_y(state, now),
        'p' => {
            if !busy {
                keys::put_after(state);
            }
        },
        'P' => {
            if !busy {
                keys::put_before(state);
            }
        },
        'g' => handle_g(state, now),
        'G' => handle_shift_g(state),
        ':' => keys::put_aside(state, InputMode::Command),
        '/' => keys::put_aside(state, InputMode::Search),
        _ => keys::forget(state),
    }
    requests
}

} // verus!
