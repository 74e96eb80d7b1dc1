use vimcord::app::{App, InputMode, LogReader};
use vimcord::session::{new_session, Config};
use vimcord::vim::{
    clamp_cursor, execute_operator, get_motion_range, handle_vim_keys, is_pressable, VimMotion,
    VimOperator, VimRequest,
};

const SECOND: u64 = 1_000_000_000;

fn session() -> App {
    let config = Config {
        emoji_map: Vec::new(),
        vim_mode: true,
        discreet_notifs: false,
        silent_typing: false,
        display_username: false,
    };
    let logs = LogReader { directory: "logs".to_string() };
    new_session("token".to_string(), config, logs, &Vec::new(), 0)
}

fn editing(text: &str, cursor: usize) -> App {
    let mut app = session();
    app.data.input.buffer = text.to_string();
    app.data.cursor_position = cursor;
    app
}

fn type_keys(app: &mut App, keys: &str) -> Vec<VimRequest> {
    let mut all = Vec::new();
    for c in keys.chars() {
        assert!(is_pressable(app, c, 5));
        all.append(&mut handle_vim_keys(app, c, 5));
    }
    all
}

fn yank(app: &App) -> &str {
    app.data.vim.state.as_ref().unwrap().yank_buffer.as_str()
}

fn operator(app: &App) -> Option<VimOperator> {
    app.data.vim.state.as_ref().unwrap().operator
}

fn shows(app: &App, text: &str, cursor: usize) {
    assert_eq!(app.data.input.buffer, text);
    assert_eq!(app.data.cursor_position, cursor);
}

#[test]
fn inserting_starts_where_the_key_says() {
    for (key, cursor) in [("i", 4), ("I", 3), ("a", 5), ("A", 6)] {
        let mut app = editing("ab\ncde\nf", 4);
        assert!(type_keys(&mut app, key).is_empty());
        shows(&app, "ab\ncde\nf", cursor);
        assert_eq!(app.data.input.mode, InputMode::Insert);
    }
}

#[test]
fn appending_at_the_end_stays_there() {
    let mut app = editing("ab", 2);
    type_keys(&mut app, "a");
    shows(&app, "ab", 2);
}

#[test]
fn appending_passes_a_whole_character() {
    let mut app = editing("\u{e9}\u{65e5}x", 2);
    type_keys(&mut app, "a");
    shows(&app, "\u{e9}\u{65e5}x", 5);
}

#[test]
fn opening_a_line_above() {
    let mut app = editing("ab\ncd", 4);
    type_keys(&mut app, "O");
    shows(&app, "ab\n\ncd", 3);
    assert_eq!(app.data.input.mode, InputMode::Insert);
}

#[test]
fn opening_a_line_below() {
    let mut app = editing("ab\ncd", 1);
    type_keys(&mut app, "o");
    shows(&app, "ab\n\ncd", 3);
    let mut app = editing("ab\ncd", 4);
    type_keys(&mut app, "o");
    shows(&app, "ab\ncd\n", 6);
    let mut app = editing("ab\n", 2);
    type_keys(&mut app, "o");
    shows(&app, "ab\n\n", 4);
}

#[test]
fn sideways_stops_at_line_feeds() {
    let mut app = editing("ab\ncd", 0);
    type_keys(&mut app, "l");
    shows(&app, "ab\ncd", 1);
    type_keys(&mut app, "l");
    shows(&app, "ab\ncd", 1);
    app.data.cursor_position = 4;
    type_keys(&mut app, "l");
    shows(&app, "ab\ncd", 4);
    type_keys(&mut app, "h");
    shows(&app, "ab\ncd", 3);
    type_keys(&mut app, "h");
    shows(&app, "ab\ncd", 3);
}

#[test]
fn back_passes_tabs_but_no_other_control_characters() {
    let mut app = editing("a\tb", 2);
    type_keys(&mut app, "h");
    shows(&app, "a\tb", 1);
    let mut app = editing("a\u{1}b", 2);
    type_keys(&mut app, "h");
    shows(&app, "a\u{1}b", 2);
}

#[test]
fn words_forward() {
    let mut app = editing("foo  bar baz", 1);
    type_keys(&mut app, "w");
    shows(&app, "foo  bar baz", 5);
    type_keys(&mut app, "w");
    shows(&app, "foo  bar baz", 9);
    type_keys(&mut app, "w");
    shows(&app, "foo  bar baz", 11);
    let mut app = editing("foo  bar", 3);
    type_keys(&mut app, "w");
    shows(&app, "foo  bar", 5);
}

#[test]
fn words_backward() {
    let mut app = editing("foo bar", 6);
    type_keys(&mut app, "b");
    shows(&app, "foo bar", 4);
    type_keys(&mut app, "b");
    shows(&app, "foo bar", 0);
    type_keys(&mut app, "b");
    shows(&app, "foo bar", 0);
}

#[test]
fn one_character_of_a_word_is_passed_over() {
    let mut app = editing("foo bar", 5);
    type_keys(&mut app, "b");
    shows(&app, "foo bar", 0);
}

#[test]
fn deleting_words() {
    let mut app = editing("foo bar baz", 4);
    type_keys(&mut app, "dw");
    shows(&app, "foo baz", 4);
    assert_eq!(yank(&app), "bar ");
    assert_eq!(operator(&app), None);
    let mut app = editing("foo bar", 7);
    type_keys(&mut app, "db");
    shows(&app, "foo ", 4);
    assert_eq!(yank(&app), "bar");
}

#[test]
fn deleting_the_last_word_leaves_the_cursor_at_the_end() {
    let mut app = editing("foo bar", 4);
    type_keys(&mut app, "dw");
    shows(&app, "foo ", 4);
}

#[test]
fn deleting_lines() {
    let mut app = editing("one\ntwo\nthree", 5);
    type_keys(&mut app, "dd");
    shows(&app, "one\nthree", 4);
    assert_eq!(yank(&app), "\ntwo");
    let mut app = editing("one\ntwo", 5);
    type_keys(&mut app, "dd");
    shows(&app, "one", 0);
    assert_eq!(yank(&app), "\ntwo");
    let mut app = editing("one", 2);
    type_keys(&mut app, "dd");
    shows(&app, "", 0);
    assert_eq!(yank(&app), "\none");
    let mut app = editing("one\ntwo\n", 5);
    type_keys(&mut app, "dd");
    shows(&app, "one\n", 3);
}

#[test]
fn deleting_a_character() {
    let mut app = editing("a\u{65e5}b", 1);
    type_keys(&mut app, "x");
    shows(&app, "ab", 1);
    assert_eq!(yank(&app), "\u{65e5}");
    type_keys(&mut app, "x");
    shows(&app, "a", 0);
    let mut app = editing("ab", 2);
    type_keys(&mut app, "x");
    shows(&app, "ab", 2);
}

#[test]
fn copying_a_line() {
    let mut app = editing("one\ntwo", 5);
    type_keys(&mut app, "y");
    assert_eq!(operator(&app), Some(VimOperator::_Yank));
    type_keys(&mut app, "y");
    shows(&app, "one\ntwo", 5);
    assert_eq!(yank(&app), "\ntwo");
    assert_eq!(operator(&app), None);
}

#[test]
fn putting_lines() {
    let mut app = editing("one\ntwo", 1);
    type_keys(&mut app, "yyp");
    shows(&app, "one\none\ntwo", 4);
    let mut app = editing("one\ntwo", 5);
    type_keys(&mut app, "yyP");
    shows(&app, "one\ntwo\ntwo", 4);
}

#[test]
fn putting_characters() {
    let mut app = editing("abc", 0);
    app.data.vim.state.as_mut().unwrap().yank_buffer = "X\u{e9}".to_string();
    type_keys(&mut app, "p");
    shows(&app, "aX\u{e9}bc", 2);
    let mut app = editing("abc", 1);
    app.data.vim.state.as_mut().unwrap().yank_buffer = "XY".to_string();
    type_keys(&mut app, "P");
    shows(&app, "aXYbc", 2);
    let mut app = editing("", 0);
    app.data.vim.state.as_mut().unwrap().yank_buffer = "XY".to_string();
    type_keys(&mut app, "p");
    shows(&app, "XY", 1);
}

#[test]
fn putting_nothing() {
    let mut app = editing("abc", 1);
    type_keys(&mut app, "pP");
    shows(&app, "abc", 1);
}

#[test]
fn putting_an_empty_line_at_the_end() {
    let mut app = editing("a", 0);
    app.data.vim.state.as_mut().unwrap().yank_buffer = "\n".to_string();
    type_keys(&mut app, "p");
    shows(&app, "a\n", 1);
}

#[test]
fn visual_selection_by_characters() {
    for key in ["d", "x"] {
        let mut app = editing("abcdef", 1);
        type_keys(&mut app, "vll");
        assert_eq!(app.data.input.mode, InputMode::Visual);
        type_keys(&mut app, key);
        shows(&app, "aef", 1);
        assert_eq!(yank(&app), "bcd");
        assert_eq!(app.data.input.mode, InputMode::Normal);
        assert_eq!(app.data.vim.state.as_ref().unwrap().visual_start, None);
    }
    let mut app = editing("abcdef", 3);
    type_keys(&mut app, "vhhy");
    shows(&app, "abcdef", 1);
    assert_eq!(yank(&app), "bcd");
}

#[test]
fn visual_selection_by_lines() {
    let mut app = editing("one\ntwo\nthree", 5);
    type_keys(&mut app, "Vd");
    shows(&app, "one\nthree", 4);
    assert_eq!(yank(&app), "\ntwo");
    let mut app = editing("one\ntwo", 5);
    type_keys(&mut app, "Vy");
    shows(&app, "one\ntwo", 5);
    assert_eq!(yank(&app), "\ntwo");
}

#[test]
fn lines_from_a_line_feed_take_the_next_line_too() {
    let mut app = editing("one\ntwo\nthree", 3);
    type_keys(&mut app, "Vd");
    shows(&app, "three", 0);
    assert_eq!(yank(&app), "\none\ntwo");
}

#[test]
fn visual_modes_do_not_mix() {
    let mut app = editing("abc", 1);
    type_keys(&mut app, "vV");
    assert_eq!(app.data.input.mode, InputMode::Visual);
    type_keys(&mut app, "v");
    assert_eq!(app.data.input.mode, InputMode::Normal);
    type_keys(&mut app, "Vv");
    assert_eq!(app.data.input.mode, InputMode::VisualLine);
    type_keys(&mut app, "V");
    assert_eq!(app.data.input.mode, InputMode::Normal);
}

#[test]
fn a_selection_that_was_left_behind_cannot_be_cut() {
    let mut app = editing("abc", 2);
    type_keys(&mut app, "v");
    app.data.input.buffer = "a".to_string();
    app.data.cursor_position = 0;
    for key in ['d', 'x', 'y'] {
        assert!(!is_pressable(&app, key, 5));
    }
    assert!(is_pressable(&app, 'h', 5));
}

#[test]
fn command_and_search_put_the_line_aside() {
    for (key, mode) in [(":", InputMode::Command), ("/", InputMode::Search)] {
        let mut app = editing("draft", 3);
        type_keys(&mut app, key);
        shows(&app, "", 0);
        assert_eq!(app.data.input.saved, Some("draft".to_string()));
        assert_eq!(app.data.input.mode, mode);
    }
}

#[test]
fn a_slow_second_key_does_not_count() {
    let mut app = editing("one\ntwo", 0);
    handle_vim_keys(&mut app, 'd', 10);
    handle_vim_keys(&mut app, 'd', 10 + SECOND);
    shows(&app, "one\ntwo", 0);
    assert_eq!(operator(&app), Some(VimOperator::Delete));
    handle_vim_keys(&mut app, 'd', 10 + 2 * SECOND - 1);
    shows(&app, "two", 0);
}

#[test]
fn a_clock_behind_the_operator_does_not_time_it_out() {
    let mut app = editing("one", 0);
    handle_vim_keys(&mut app, 'd', 3 * SECOND);
    handle_vim_keys(&mut app, 'd', 0);
    shows(&app, "", 0);
}

#[test]
fn unknown_keys_drop_the_operator() {
    let mut app = editing("one", 0);
    app.data.vim.state.as_mut().unwrap().pending_keys = "3".to_string();
    type_keys(&mut app, "dz");
    assert_eq!(operator(&app), None);
    assert_eq!(app.data.vim.state.as_ref().unwrap().pending_keys, "");
    shows(&app, "one", 0);
}

#[test]
fn no_word_can_be_gone_to() {
    let mut app = editing("one two", 0);
    handle_vim_keys(&mut app, 'g', 0);
    assert!(!is_pressable(&app, 'w', 1));
    assert!(!is_pressable(&app, 'b', 1));
    assert!(is_pressable(&app, 'w', SECOND));
}

#[test]
fn a_cursor_inside_a_character_cannot_be_used() {
    for mut app in [editing("\u{e9}", 1), editing("a", 2)] {
        app.data.vim.state.as_mut().unwrap().yank_buffer = "y".to_string();
        for key in ['I', 'a', 'A', 'O', 'o', 'w', 'b', 'h', 'l', 'p', 'P'] {
            assert!(!is_pressable(&app, key, 0));
        }
        for (first, second) in [('d', 'd'), ('y', 'y')] {
            handle_vim_keys(&mut app, first, 0);
            assert!(!is_pressable(&app, second, 1));
        }
        handle_vim_keys(&mut app, 'v', 0);
        for key in ['d', 'x', 'y'] {
            assert!(!is_pressable(&app, key, 0));
        }
    }
}

#[test]
fn keys_that_do_not_use_the_cursor_take_it_anywhere() {
    for (text, cursor) in [("\u{e9}b", 1), ("ab", 9)] {
        let mut app = editing(text, cursor);
        type_keys(&mut app, "xzgjkpP");
        shows(&app, text, cursor);
        let mut app = editing(text, cursor);
        type_keys(&mut app, "d");
        assert_eq!(operator(&app), Some(VimOperator::Delete));
        type_keys(&mut app, "y");
        assert_eq!(operator(&app), Some(VimOperator::_Yank));
        shows(&app, text, cursor);
        type_keys(&mut app, "v");
        assert_eq!(app.data.vim.state.as_ref().unwrap().visual_start, Some(cursor));
        type_keys(&mut app, "vi");
        assert_eq!(app.data.input.mode, InputMode::Insert);
        shows(&app, text, cursor);
        for key in [":", "/"] {
            let mut app = editing(text, cursor);
            type_keys(&mut app, key);
            shows(&app, "", 0);
            assert_eq!(app.data.input.saved, Some(text.to_string()));
        }
    }
}

#[test]
fn a_selection_without_a_start_only_ends() {
    for (cursor, after) in [(1, 1), (9, 2)] {
        for key in ["d", "x", "y"] {
            let mut app = editing("\u{e9}b", cursor);
            app.data.input.mode = InputMode::Visual;
            type_keys(&mut app, key);
            shows(&app, "\u{e9}b", after);
            assert_eq!(app.data.input.mode, InputMode::Normal);
            assert_eq!(yank(&app), "");
        }
    }
}

#[test]
fn a_word_back_undoes_a_word_forward() {
    for (text, cursor) in
        [("one two", 0), ("a b c", 2), ("x abc", 2), ("x ab ", 2), ("a", 0), ("ab", 0)]
    {
        let mut app = editing(text, cursor);
        type_keys(&mut app, "wb");
        shows(&app, text, cursor);
    }
    for text in ["x a", "x ab", "x a "] {
        let mut app = editing(text, 2);
        type_keys(&mut app, "wb");
        shows(&app, text, 0);
    }
}

#[test]
fn a_missing_state_is_set_up() {
    let mut app = editing("one", 0);
    app.data.vim.state = None;
    handle_vim_keys(&mut app, 'l', 7);
    shows(&app, "one", 1);
    let vim = app.data.vim.state.as_ref().unwrap();
    assert_eq!(vim.last_action_time, 7);
    assert_eq!(vim.operator, None);
}

#[test]
fn clamping() {
    let mut app = editing("a\u{65e5}", 4);
    clamp_cursor(&mut app);
    assert_eq!(app.data.cursor_position, 1);
    clamp_cursor(&mut app);
    assert_eq!(app.data.cursor_position, 1);
    let mut app = editing("", 9);
    clamp_cursor(&mut app);
    assert_eq!(app.data.cursor_position, 0);
    let mut app = editing("ab", 77);
    clamp_cursor(&mut app);
    assert_eq!(app.data.cursor_position, 1);
}

#[test]
fn ranges_of_all_motions() {
    let app = editing("ab \u{e9}d", 3);
    assert_eq!(get_motion_range(&app, VimMotion::WordForward), (3, 6));
    assert_eq!(get_motion_range(&app, VimMotion::WordBackward), (3, 0));
    assert_eq!(get_motion_range(&app, VimMotion::_Line), (3, 6));
    assert_eq!(get_motion_range(&app, VimMotion::_CharRight), (3, 5));
    assert_eq!(get_motion_range(&app, VimMotion::_CharLeft), (3, 2));
    assert_eq!(get_motion_range(&app, VimMotion::_StartOfLine), (3, 0));
    assert_eq!(get_motion_range(&app, VimMotion::_EndOfLine), (3, 6));
    let end = editing("ab", 2);
    assert_eq!(get_motion_range(&end, VimMotion::_CharRight), (2, 2));
    let start = editing("ab", 0);
    assert_eq!(get_motion_range(&start, VimMotion::_CharLeft), (0, 0));
}

#[test]
fn operators_on_ranges() {
    let mut app = editing("abcdef", 0);
    execute_operator(&mut app, VimOperator::Delete, (4, 1));
    shows(&app, "aef", 1);
    assert_eq!(yank(&app), "bcd");
    execute_operator(&mut app, VimOperator::_Change, (0, 2));
    execute_operator(&mut app, VimOperator::_Yank, (0, 2));
    execute_operator(&mut app, VimOperator::Delete, (2, 2));
    execute_operator(&mut app, VimOperator::Delete, (1, 9));
    shows(&app, "aef", 1);
    let mut app = editing("\u{e9}b", 0);
    execute_operator(&mut app, VimOperator::Delete, (1, 3));
    shows(&app, "\u{e9}b", 0);
    app.data.vim.state = None;
    execute_operator(&mut app, VimOperator::Delete, (0, 2));
    shows(&app, "b", 0);
    assert!(app.data.vim.state.is_none());
}

#[test]
fn cutting_and_putting_back() {
    let mut app = editing("foo bar baz", 4);
    type_keys(&mut app, "dwP");
    shows(&app, "foo bar baz", 7);
    let mut app = editing("foo bar", 6);
    type_keys(&mut app, "dbP");
    assert_eq!(app.data.input.buffer, "foo bar");
    let mut app = editing("abc", 1);
    type_keys(&mut app, "xP");
    shows(&app, "abc", 1);
    let mut app = editing("abc", 2);
    type_keys(&mut app, "xp");
    shows(&app, "abc", 2);
    let mut app = editing("abc", 0);
    type_keys(&mut app, "xp");
    assert_eq!(app.data.input.buffer, "bac");
    let mut app = editing("one\ntwo\nthree", 5);
    type_keys(&mut app, "ddP");
    shows(&app, "one\ntwo\nthree", 4);
    let mut app = editing("one\ntwo", 5);
    type_keys(&mut app, "ddp");
    assert_eq!(app.data.input.buffer, "one\ntwo");
}

#[test]
fn visual_deletion_agrees_with_the_short_keys() {
    let mut a = editing("abc\nd", 1);
    let mut b = editing("abc\nd", 1);
    type_keys(&mut a, "vd");
    type_keys(&mut b, "x");
    shows(&a, "ac\nd", 1);
    shows(&b, "ac\nd", 1);
    let mut a = editing("abc\nd", 1);
    let mut b = editing("abc\nd", 1);
    type_keys(&mut a, "Vd");
    type_keys(&mut b, "dd");
    shows(&a, "d", 0);
    shows(&b, "d", 0);
}

#[test]
fn moving_keeps_a_selection_usable_and_putting_may_not() {
    let mut app = editing("\u{e9}a b", 2);
    type_keys(&mut app, "vlwbh");
    assert!(is_pressable(&app, 'd', 5));
    app.data.cursor_position = 0;
    app.data.vim.state.as_mut().unwrap().yank_buffer = "x".to_string();
    type_keys(&mut app, "P");
    shows(&app, "x\u{e9}a b", 0);
    assert!(!is_pressable(&app, 'd', 5));
    assert!(is_pressable(&app, 'v', 5));
}
