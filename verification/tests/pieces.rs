use vimcord::api::{
    AnyChannel, ApiClient, Channel, GatewayClient, Guild, Message, PermissionContext, User, DM,
};
use vimcord::app::{
    AppAction, AppState, Client, EmojiData, InputMode, KeywordAction, NotifsData, TypingData,
    VimData, Window,
};
use vimcord::classes::{is_control, is_whitespace};
use vimcord::motion::{
    clamp_index, find_line_end, find_line_start, find_run_end, find_run_start, find_under_column,
    find_word_backward, find_word_forward,
};
use vimcord::search::contains;
use vimcord::session::{
    cursor_style, ends_session, new_client, new_session, next_step, receive_loaded, step_action,
    token_outcome, token_refusal, unsent_log, Config, CursorStyle, LoadReply, StartupStep,
};
use vimcord::text::{byte_len, byte_offset, char_index, chars_of, len_utf8, slice, splice, split};
use vimcord::vertical::{find_down, find_up, place_under};
use vimcord::vim::{VimOperator, VimState};
use vimcord::width::columns_between;

fn config(vim_mode: bool) -> Config {
    Config {
        emoji_map: vec![("smile".to_string(), ":)".to_string())],
        vim_mode,
        discreet_notifs: true,
        silent_typing: true,
        display_username: true,
    }
}

fn reader() -> vimcord::app::LogReader {
    vimcord::app::LogReader { directory: "logs".to_string() }
}

#[test]
fn classes_agree_with_the_standard_library() {
    for code in 0..=0x10ffffu32 {
        if let Some(c) = char::from_u32(code) {
            assert_eq!(is_whitespace(c), c.is_whitespace());
            assert_eq!(is_control(c), c.is_control());
            assert_eq!(len_utf8(c), c.len_utf8());
        }
    }
}

#[test]
fn positions_and_indices() {
    let s = "a\u{e9}\u{65e5}\u{1f600}b";
    let chars = chars_of(s);
    assert_eq!(chars, s.chars().collect::<Vec<char>>());
    assert_eq!(byte_len(s), 11);
    for (i, (at, _)) in s.char_indices().enumerate() {
        assert_eq!(byte_offset(&chars, i), at);
        assert_eq!(char_index(&chars, at), Some(i));
    }
    assert_eq!(char_index(&chars, 11), Some(5));
    for inside in [2, 4, 5, 7, 8, 9, 12, 100] {
        assert_eq!(char_index(&chars, inside), None);
    }
}

#[test]
fn parts_of_texts() {
    let s = "a\u{e9}b";
    assert_eq!(split(s, 3), ("a\u{e9}", "b"));
    assert_eq!(slice(s, 1, 3), "\u{e9}");
    assert_eq!(splice(s, 1, 3, "xyz"), "axyzb");
    assert_eq!(splice(s, 3, 3, ""), s);
}

#[test]
fn lines_and_runs() {
    let t = chars_of("ab\n\ncd e");
    assert_eq!(find_line_start(&t, 2), 0);
    assert_eq!(find_line_start(&t, 3), 3);
    assert_eq!(find_line_start(&t, 8), 4);
    assert_eq!(find_line_end(&t, 0), 2);
    assert_eq!(find_line_end(&t, 3), 3);
    assert_eq!(find_line_end(&t, 5), 8);
    assert_eq!(find_run_end(&t, 0, false), 2);
    assert_eq!(find_run_end(&t, 2, true), 4);
    assert_eq!(find_run_start(&t, 4, true), 2);
    assert_eq!(find_run_start(&t, 6, false), 4);
    assert_eq!(find_word_forward(&t, 0), 4);
    assert_eq!(find_word_backward(&t, 7), 4);
    assert_eq!(find_word_backward(&t, 0), 0);
    assert_eq!(clamp_index(&t, 8), 7);
    assert_eq!(clamp_index(&Vec::new(), 3), 0);
}

#[test]
fn places_under_columns() {
    assert_eq!(find_under_column(&vec![1, 1, 1], 2), 2);
    assert_eq!(find_under_column(&vec![1, 1, 1], 3), 2);
    assert_eq!(find_under_column(&vec![2, 2], 1), 0);
    assert_eq!(find_under_column(&vec![2, 2, 2], 3), 1);
    assert_eq!(find_under_column(&vec![1, 0, 1, 1], 1), 2);
    assert_eq!(find_under_column(&Vec::new(), 5), 0);
    let t = chars_of("ab\ncde");
    assert_eq!(place_under(&t, 3, &vec![1, 1, 1], 1), 4);
    assert_eq!(place_under(&t, 3, &vec![1, 1, 1], 9), 5);
}

#[test]
fn widths_come_from_the_tables() {
    let t = chars_of("a\u{65e5}\u{301}\n\u{7f}");
    assert_eq!(columns_between(&t, 0, 5), vec![1, 2, 0, 0, 0]);
    let s = "\u{65e5}x\nabcd";
    let chars = chars_of(s);
    assert_eq!(find_down(s, &chars, 1), 5);
    assert_eq!(find_up(s, &chars, 5), Some(1));
    assert_eq!(find_up(s, &chars, 1), None);
}

#[test]
fn searching() {
    assert!(contains("hello", "ell"));
    assert!(contains("hello", "hello"));
    assert!(contains("hello", ""));
    assert!(contains("", ""));
    assert!(!contains("hello", "elo"));
    assert!(!contains("", "a"));
    assert!(contains("aab", "ab"));
}

#[test]
fn a_session_starts_empty() {
    let app = new_session("t".to_string(), config(false), reader(), &Vec::new(), 3);
    assert_eq!(app.client.api.token, "t");
    assert_eq!(app.client.api.base_url, "https://discord.com/api/v10");
    assert_eq!(app.client.gateway.token, "t");
    assert!(matches!(app.state, AppState::Home));
    assert_eq!(app.tick_count, 0);
    assert!(!app.is_loading);
    assert_eq!(app.data.emojis.map.len(), 1);
    assert!(!app.data.vim.active);
    assert!(app.data.vim.state.is_none());
    assert!(app.data.notifs.discreet);
    assert!(app.data.typing.silent_typing);
    assert!(app.data.display_username);
    assert_eq!(app.data.cursor_position, 0);
    assert_eq!(app.data.input.mode, InputMode::Normal);
    assert!(app.data.deleted_message_ids.is_empty());
}

#[test]
fn vim_mode_by_configuration_or_argument() {
    let args = vec!["vimcord".to_string(), "--vim".to_string()];
    let by_argument = VimData::new(false, &args, 9);
    assert!(by_argument.active);
    assert_eq!(by_argument.state.unwrap().last_action_time, 9);
    assert!(VimData::new(true, &Vec::new(), 9).active);
    let off = VimData::new(false, &vec!["--vi".to_string()], 9);
    assert!(!off.active);
    assert!(off.state.is_none());
}

#[test]
fn parts_of_the_state() {
    let client = Client::new(
        ApiClient::new("t".to_string(), "u".to_string()),
        GatewayClient::new("g".to_string()),
    );
    assert_eq!(client.api.base_url, "u");
    assert_eq!(client.gateway.token, "g");
    let emojis = EmojiData::new(Vec::new());
    assert_eq!(emojis.index, 0);
    assert_eq!(emojis.filter_start, None);
    assert!(NotifsData::new(true).discreet);
    assert!(NotifsData::new(false).active.is_empty());
    assert!(!TypingData::new(false).silent_typing);
    assert!(TypingData::new(true).typing_users.is_empty());
    assert!(matches!(Window::default(), Window::Home));
    assert_eq!(new_client("x".to_string()).api.clone().token, "x");
}

#[test]
fn objects_of_the_service() {
    let chat = AnyChannel { id: "7".to_string(), name: "n".to_string() };
    assert_eq!(chat.clone().get_id(), "7");
    let dm = DM { id: "1".to_string(), name: "Ada".to_string() };
    assert_eq!(dm.get_name(), "Ada");
    let channel = Channel {
        id: "c".to_string(),
        name: "c".to_string(),
        channel_type: 0,
        children: None,
    };
    let readable = PermissionContext { readable: vec!["b".to_string(), "c".to_string()] };
    assert!(channel.is_readable(&readable));
    assert!(!channel.is_readable(&PermissionContext { readable: Vec::new() }));
}

#[test]
fn loading_goes_step_by_step() {
    let mut step = StartupStep::CurrentUser;
    let mut seen = Vec::new();
    while step != StartupStep::Finished {
        seen.push(step);
        step = next_step(step);
    }
    assert_eq!(seen, vec![StartupStep::CurrentUser, StartupStep::Guilds, StartupStep::DMs]);
    assert_eq!(next_step(StartupStep::Finished), StartupStep::Finished);
}

#[test]
fn what_was_loaded_is_made_known() {
    let mut app = new_session("t".to_string(), config(false), reader(), &Vec::new(), 0);
    let user = User { id: "u".to_string() };
    let outcome = receive_loaded(&mut app, LoadReply::CurrentUser(Ok(user)));
    assert!(matches!(
        outcome.action,
        Some(AppAction::ApiUpdateCurrentUser(u)) if u.id == "u"
    ));
    assert_eq!(outcome.log, None);
    let outcome = receive_loaded(&mut app, LoadReply::Guilds(Ok(Vec::new())));
    assert!(matches!(outcome.action, Some(AppAction::ApiUpdateGuilds(g)) if g.is_empty()));
    let outcome = receive_loaded(&mut app, LoadReply::DMs(Ok(Vec::new())));
    assert!(matches!(outcome.action, Some(AppAction::ApiUpdateDMs(d)) if d.is_empty()));
    assert_eq!(app.data.status_message, "");
}

fn load_all(replies: Vec<LoadReply>) -> (Vec<AppAction>, String) {
    let mut app = new_session("t".to_string(), config(false), reader(), &Vec::new(), 0);
    let mut step = StartupStep::CurrentUser;
    let mut sent = Vec::new();
    for reply in replies {
        assert!(step_action(step).is_none());
        sent.extend(receive_loaded(&mut app, reply).action);
        step = next_step(step);
    }
    sent.extend(step_action(step));
    (sent, app.data.status_message)
}

#[test]
fn loading_ends_once_and_last() {
    let (sent, status) = load_all(vec![
        LoadReply::CurrentUser(Ok(User { id: "u".to_string() })),
        LoadReply::Guilds(Ok(Vec::new())),
        LoadReply::DMs(Ok(Vec::new())),
    ]);
    assert!(matches!(
        sent.as_slice(),
        [
            AppAction::ApiUpdateCurrentUser(_),
            AppAction::ApiUpdateGuilds(_),
            AppAction::ApiUpdateDMs(_),
            AppAction::EndLoading,
        ]
    ));
    assert_eq!(status, "");
    let (sent, status) = load_all(vec![
        LoadReply::CurrentUser(Err("E".to_string())),
        LoadReply::Guilds(Err("F".to_string())),
        LoadReply::DMs(Ok(Vec::new())),
    ]);
    assert!(matches!(sent.as_slice(), [AppAction::ApiUpdateDMs(_), AppAction::EndLoading]));
    assert_eq!(status, "Failed to load servers. F");
    let (sent, _) = load_all(vec![
        LoadReply::CurrentUser(Err("E".to_string())),
        LoadReply::Guilds(Err("E".to_string())),
        LoadReply::DMs(Err("E".to_string())),
    ]);
    assert!(matches!(sent.as_slice(), [AppAction::EndLoading]));
}

#[test]
fn failures_to_load_are_told() {
    let mut app = new_session("t".to_string(), config(false), reader(), &Vec::new(), 0);
    let outcome = receive_loaded(&mut app, LoadReply::CurrentUser(Err("E".to_string())));
    assert!(outcome.action.is_none());
    assert_eq!(outcome.log, None);
    assert_eq!(app.data.status_message, "Failed to load current user. E");
    let outcome = receive_loaded(&mut app, LoadReply::Guilds(Err("E".to_string())));
    assert!(outcome.action.is_none());
    assert_eq!(outcome.log, Some("Failed to get user guilds action: E".to_string()));
    assert_eq!(app.data.status_message, "Failed to load servers. E");
    let outcome = receive_loaded(&mut app, LoadReply::DMs(Err("E".to_string())));
    assert!(outcome.action.is_none());
    assert_eq!(outcome.log, None);
    assert_eq!(app.data.status_message, "Failed to load DMs. E");
    assert_eq!(
        unsent_log(StartupStep::CurrentUser, "E"),
        Some("Failed to send current user update action: E".to_string())
    );
    assert_eq!(
        unsent_log(StartupStep::Guilds, "E"),
        Some("Failed to send guild update action: E".to_string())
    );
    assert_eq!(
        unsent_log(StartupStep::DMs, "E"),
        Some("Failed to send DM update action: E".to_string())
    );
    assert_eq!(unsent_log(StartupStep::Finished, "E"), None);
}

#[test]
fn the_cursor_shows_the_mode() {
    for (mode, style) in [
        (InputMode::Normal, CursorStyle::BlinkingBlock),
        (InputMode::Visual, CursorStyle::BlinkingBlock),
        (InputMode::VisualLine, CursorStyle::BlinkingBlock),
        (InputMode::Insert, CursorStyle::BlinkingBar),
        (InputMode::Command, CursorStyle::BlinkingBar),
        (InputMode::Search, CursorStyle::BlinkingBar),
    ] {
        assert_eq!(cursor_style(true, mode), style);
        assert_eq!(cursor_style(false, mode), CursorStyle::BlinkingBar);
    }
}

#[test]
fn only_a_break_ends_the_session() {
    assert!(ends_session(Some(KeywordAction::Break)));
    assert!(!ends_session(Some(KeywordAction::Continue)));
    assert!(!ends_session(None));
}

#[test]
fn refused_tokens() {
    assert_eq!(
        token_refusal("API GET request failed: 401 Unauthorized"),
        "Please check your session token and try again."
    );
    assert_eq!(token_refusal("API GET request failed: 500"), "API GET request failed: 500");
    assert_eq!(
        token_refusal("dns error"),
        "Could not connect to the server. Please check your internet connection."
    );
}

#[test]
fn a_known_token_gives_its_client() {
    let user = User { id: "u".to_string() };
    let client = token_outcome(new_client("t".to_string()), Ok(user)).unwrap();
    assert_eq!(client.api.token, "t");
    assert_eq!(client.gateway.token, "t");
    for (error, message) in [
        ("401", "Please check your session token and try again."),
        ("API GET request failed: 500", "API GET request failed: 500"),
        ("", "Could not connect to the server. Please check your internet connection."),
    ] {
        let outcome = token_outcome(new_client("t".to_string()), Err(error.to_string()));
        assert_eq!(outcome.unwrap_err(), message);
    }
}

#[test]
fn copies_equal_what_they_are_of() {
    let chat = || Box::new(AnyChannel { id: "c".to_string(), name: "chat".to_string() });
    let guild = || Box::new(Guild { id: "g".to_string(), name: "guild".to_string() });
    let message = || {
        Box::new(Message {
            id: "m".to_string(),
            author: User { id: "u".to_string() },
            content: Some("hi".to_string()),
        })
    };
    let windows = vec![
        Window::Home,
        Window::Guild,
        Window::DM,
        Window::Channel(guild()),
        Window::Chat(chat()),
    ];
    for window in &windows {
        assert_eq!(format!("{:?}", window.clone()), format!("{window:?}"));
    }
    for state in [
        AppState::Home,
        AppState::SelectingGuild,
        AppState::SelectingDM,
        AppState::SelectingChannel(guild()),
        AppState::Chatting(chat()),
        AppState::EmojiSelection(chat()),
        AppState::Editing(chat(), message(), "text".to_string()),
        AppState::Loading(Window::Guild),
        AppState::Logs(Window::DM),
    ] {
        assert_eq!(format!("{:?}", state.clone()), format!("{state:?}"));
    }
    let mut vim = VimState::fresh(4);
    vim.operator = Some(VimOperator::Delete);
    vim.pending_keys = "d".to_string();
    vim.visual_start = Some(2);
    vim.yank_buffer = "y".to_string();
    assert_eq!(format!("{:?}", vim.clone()), format!("{vim:?}"));
}
