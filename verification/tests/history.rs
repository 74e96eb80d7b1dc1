use vimcord::api::{AnyChannel, Channel, Guild, Message, PartialGuild, PermissionContext, User, DM};
use vimcord::app::{App, AppAction, AppState, LogReader, Window};
use vimcord::listing::{
    last_channel, last_dm, last_guild, last_match, leaf_shows, shown_rows, ChannelEntry,
    ChannelLeaf, Row,
};
use vimcord::session::{
    new_session, receive_older_logs, receive_older_messages, Config,
};
use vimcord::vim::{handle_vim_keys, is_pressable, VimOperator, VimRequest};

const SECOND: u64 = 1_000_000_000;

fn session() -> App {
    let config = Config {
        emoji_map: Vec::new(),
        vim_mode: true,
        discreet_notifs: false,
        silent_typing: false,
        display_username: false,
    };
    let logs = LogReader { directory: "logs".to_string() };
    new_session("token".to_string(), config, logs, &Vec::new(), 0)
}

fn editing(text: &str, cursor: usize) -> App {
    let mut app = session();
    app.data.input.buffer = text.to_string();
    app.data.cursor_position = cursor;
    app
}

fn type_keys(app: &mut App, keys: &str) -> Vec<VimRequest> {
    let mut all = Vec::new();
    for c in keys.chars() {
        assert!(is_pressable(app, c, 5));
        all.append(&mut handle_vim_keys(app, c, 5));
    }
    all
}

fn yank(app: &App) -> &str {
    app.data.vim.state.as_ref().unwrap().yank_buffer.as_str()
}

fn operator(app: &App) -> Option<VimOperator> {
    app.data.vim.state.as_ref().unwrap().operator
}

fn shows(app: &App, text: &str, cursor: usize) {
    assert_eq!(app.data.input.buffer, text);
    assert_eq!(app.data.cursor_position, cursor);
}

fn message(id: &str, author: &str, content: Option<&str>) -> Message {
    Message {
        id: id.to_string(),
        author: User { id: author.to_string() },
        content: content.map(|text| text.to_string()),
    }
}

fn chatting() -> App {
    let mut app = session();
    app.state = AppState::Chatting(Box::new(AnyChannel {
        id: "chan".to_string(),
        name: "general".to_string(),
    }));
    app.data.current_user = Some(User { id: "me".to_string() });
    app.data.guilds.messages = vec![
        message("m1", "me", Some("hello")),
        message("m2", "you", Some("hi")),
        message("m3", "me", None),
    ];
    app
}

fn in_logs() -> App {
    let mut app = session();
    app.state = AppState::Logs(Window::Home);
    app.data.logs = vec!["new".to_string(), "old".to_string()];
    app
}

#[test]
fn selection_goes_up_and_down_the_messages() {
    let mut app = chatting();
    assert!(type_keys(&mut app, "kk").is_empty());
    assert_eq!(app.data.selection_index, 2);
    assert!(type_keys(&mut app, "j").is_empty());
    assert_eq!(app.data.selection_index, 1);
    type_keys(&mut app, "j");
    assert_eq!(app.data.selection_index, 0);
}

#[test]
fn no_messages_no_selection() {
    let mut app = chatting();
    app.data.guilds.messages = Vec::new();
    type_keys(&mut app, "k");
    assert_eq!(app.data.selection_index, 0);
}

#[test]
fn the_cursor_goes_up_before_the_selection() {
    let mut app = chatting();
    app.data.input.buffer = "ab\ncd".to_string();
    app.data.cursor_position = 4;
    type_keys(&mut app, "k");
    shows(&app, "ab\ncd", 1);
    assert_eq!(app.data.selection_index, 0);
    type_keys(&mut app, "k");
    assert_eq!(app.data.selection_index, 1);
}

#[test]
fn columns_are_kept() {
    let mut app = chatting();
    app.data.input.buffer = "abcd\nx\n\nefgh".to_string();
    app.data.cursor_position = 2;
    type_keys(&mut app, "j");
    assert_eq!(app.data.cursor_position, 5);
    app.data.input.buffer = "abcd\nefgh\nij".to_string();
    app.data.cursor_position = 2;
    type_keys(&mut app, "j");
    assert_eq!(app.data.cursor_position, 7);
    type_keys(&mut app, "j");
    assert_eq!(app.data.cursor_position, 11);
    type_keys(&mut app, "k");
    assert_eq!(app.data.cursor_position, 6);
    type_keys(&mut app, "k");
    assert_eq!(app.data.cursor_position, 1);
}

#[test]
fn wide_characters_count_twice() {
    let mut app = chatting();
    app.data.input.buffer = "\u{65e5}\u{672c}\nabcdef".to_string();
    app.data.cursor_position = 3;
    type_keys(&mut app, "j");
    assert_eq!(app.data.cursor_position, 9);
    app.data.input.buffer = "abcd\n\u{65e5}\u{672c}x".to_string();
    app.data.cursor_position = 3;
    type_keys(&mut app, "j");
    assert_eq!(app.data.cursor_position, 8);
    type_keys(&mut app, "k");
    assert_eq!(app.data.cursor_position, 2);
}

#[test]
fn combining_and_control_characters_take_no_column() {
    let mut app = chatting();
    app.data.input.buffer = "ab\ne\u{301}fg".to_string();
    app.data.cursor_position = 1;
    type_keys(&mut app, "j");
    assert_eq!(app.data.cursor_position, 6);
    app.data.input.buffer = "abc\n\tx\ty".to_string();
    app.data.cursor_position = 1;
    type_keys(&mut app, "j");
    assert_eq!(app.data.cursor_position, 7);
}

#[test]
fn there_is_nothing_below_the_last_line() {
    let mut app = chatting();
    app.data.input.buffer = "ab\n".to_string();
    app.data.cursor_position = 1;
    type_keys(&mut app, "j");
    shows(&app, "ab\n", 1);
}

#[test]
fn older_messages_are_asked_for_at_the_top() {
    let mut app = chatting();
    app.data.selection_index = 3;
    let requests = type_keys(&mut app, "k");
    assert_eq!(requests.len(), 3);
    assert!(matches!(
        requests[0],
        VimRequest::Send(AppAction::TransitionToLoadingMessages)
    ));
    match &requests[1] {
        VimRequest::FetchOlderMessages { channel_id, before, limit } => {
            assert_eq!(channel_id, "chan");
            assert_eq!(before, "m3");
            assert_eq!(*limit, 100);
        }
        _ => panic!("no fetch"),
    }
    assert!(matches!(requests[2], VimRequest::Send(AppAction::EndLoadingMessages)));
    assert_eq!(app.data.selection_index, 3);
    receive_older_messages(&mut app, Ok(vec![message("m4", "you", None)]));
    assert_eq!(app.data.guilds.messages.len(), 4);
    assert_eq!(app.data.guilds.messages[3].id, "m4");
    assert_eq!(app.data.guilds.messages[0].id, "m1");
    receive_older_messages(&mut app, Err("offline".to_string()));
    assert_eq!(app.data.guilds.messages.len(), 4);
}

#[test]
fn loading_is_not_asked_for_twice() {
    let mut app = chatting();
    app.data.selection_index = 3;
    app.is_loading = true;
    assert!(type_keys(&mut app, "k").is_empty());
}

#[test]
fn without_messages_nothing_is_fetched() {
    let mut app = chatting();
    app.data.guilds.messages = Vec::new();
    app.data.selection_index = 1;
    let requests = type_keys(&mut app, "k");
    assert_eq!(requests.len(), 2);
    assert!(matches!(
        requests[0],
        VimRequest::Send(AppAction::TransitionToLoadingMessages)
    ));
    assert!(matches!(requests[1], VimRequest::Send(AppAction::EndLoadingMessages)));
}

#[test]
fn older_logs_are_asked_for_at_the_top() {
    let mut app = in_logs();
    type_keys(&mut app, "kk");
    assert_eq!(app.data.selection_index, 2);
    let requests = type_keys(&mut app, "k");
    assert_eq!(requests.len(), 1);
    assert!(matches!(requests[0], VimRequest::ReadOlderLogs { lines: 10 }));
    assert_eq!(receive_older_logs(&mut app, Ok(vec!["oldest".to_string()])), None);
    assert_eq!(app.data.logs, vec!["new", "old", "oldest"]);
    assert_eq!(
        receive_older_logs(&mut app, Err("gone".to_string())),
        Some("Failed to read previous logs: gone".to_string())
    );
    assert_eq!(app.data.logs.len(), 3);
}

#[test]
fn menus_get_the_selection_keys() {
    let mut app = session();
    let requests = type_keys(&mut app, "jk");
    assert_eq!(requests.len(), 2);
    assert!(matches!(requests[0], VimRequest::Send(AppAction::SelectNext)));
    assert!(matches!(requests[1], VimRequest::Send(AppAction::SelectPrevious)));
}

#[test]
fn own_messages_are_edited() {
    let mut app = chatting();
    app.data.selection_index = 1;
    let requests = type_keys(&mut app, "A");
    assert_eq!(requests.len(), 1);
    match &requests[0] {
        VimRequest::Send(AppAction::TransitionToEditing(channel, message, content, key)) => {
            assert_eq!(channel.id, "chan");
            assert_eq!(message.id, "m1");
            assert_eq!(content, "hello");
            assert_eq!(*key, 'A');
        }
        _ => panic!("no editing"),
    }
    app.data.selection_index = 3;
    let requests = type_keys(&mut app, "i");
    match &requests[0] {
        VimRequest::Send(AppAction::TransitionToEditing(_, message, content, _)) => {
            assert_eq!(message.id, "m3");
            assert_eq!(content, "");
        }
        _ => panic!("no editing"),
    }
}

#[test]
fn messages_of_others_are_left_alone() {
    let mut app = chatting();
    app.data.selection_index = 2;
    assert!(type_keys(&mut app, "iIaAdd").is_empty());
    assert_eq!(operator(&app), Some(VimOperator::Delete));
    app.data.current_user = None;
    app.data.selection_index = 1;
    assert!(type_keys(&mut app, "add").is_empty());
    app.data.selection_index = 9;
    assert!(type_keys(&mut app, "add").is_empty());
}

#[test]
fn own_messages_are_deleted() {
    let mut app = chatting();
    app.data.selection_index = 3;
    app.data.input.buffer = "draft".to_string();
    assert!(type_keys(&mut app, "d").is_empty());
    let requests = type_keys(&mut app, "d");
    assert_eq!(requests.len(), 1);
    match &requests[0] {
        VimRequest::Send(AppAction::ApiDeleteMessage(channel, message)) => {
            assert_eq!(channel, "chan");
            assert_eq!(message, "m3");
        }
        _ => panic!("no deletion"),
    }
    assert_eq!(operator(&app), None);
    shows(&app, "draft", 0);
    assert_eq!(yank(&app), "");
}

#[test]
fn a_selected_message_protects_the_line() {
    let mut app = chatting();
    app.data.selection_index = 2;
    app.data.input.buffer = "one two".to_string();
    app.data.cursor_position = 2;
    app.data.vim.state.as_mut().unwrap().yank_buffer = "X".to_string();
    type_keys(&mut app, "OowbxpP");
    shows(&app, "one two", 2);
    type_keys(&mut app, "dw");
    shows(&app, "one two", 2);
    assert_eq!(operator(&app), Some(VimOperator::Delete));
}

#[test]
fn gg_goes_to_the_oldest_line() {
    let mut app = chatting();
    type_keys(&mut app, "g");
    assert_eq!(app.data.selection_index, 0);
    assert_eq!(operator(&app), Some(VimOperator::Goto));
    type_keys(&mut app, "g");
    assert_eq!(app.data.selection_index, 3);
    assert_eq!(operator(&app), Some(VimOperator::Goto));
    let mut app = in_logs();
    type_keys(&mut app, "gg");
    assert_eq!(app.data.selection_index, 2);
    let mut app = session();
    app.data.selection_index = 1;
    type_keys(&mut app, "gg");
    assert_eq!(app.data.selection_index, 0);
}

#[test]
fn shift_g_goes_to_the_end() {
    let mut app = chatting();
    app.data.selection_index = 2;
    app.data.input.buffer = "ab\u{e9}".to_string();
    type_keys(&mut app, "G");
    assert_eq!(app.data.selection_index, 0);
    assert_eq!(app.data.cursor_position, 2);
    let mut app = session();
    type_keys(&mut app, "G");
    assert_eq!(app.data.selection_index, 2);
    app.state = AppState::Loading(Window::Home);
    app.data.selection_index = 1;
    type_keys(&mut app, "G");
    assert_eq!(app.data.selection_index, 1);
}

fn guild(name: &str) -> PartialGuild {
    PartialGuild { id: name.to_string(), name: name.to_string() }
}

#[test]
fn shift_g_counts_the_guilds_that_match() {
    let mut app = session();
    app.state = AppState::SelectingGuild;
    app.data.guilds.joined = vec![guild("Rust"), guild("RUSTACEANS"), guild("Vim"), guild("Crust")];
    type_keys(&mut app, "G");
    assert_eq!(app.data.selection_index, 3);
    app.data.input.search = "RuSt".to_string();
    type_keys(&mut app, "G");
    assert_eq!(app.data.selection_index, 2);
    app.data.input.search = "emacs".to_string();
    type_keys(&mut app, "G");
    assert_eq!(app.data.selection_index, 0);
}

#[test]
fn shift_g_counts_the_direct_messages_that_match() {
    let mut app = session();
    app.state = AppState::SelectingDM;
    app.data.dms.channels = vec![
        DM { id: "1".to_string(), name: "Ada".to_string() },
        DM { id: "2".to_string(), name: "Adele".to_string() },
        DM { id: "3".to_string(), name: "Grace".to_string() },
    ];
    app.data.input.search = "AD".to_string();
    type_keys(&mut app, "G");
    assert_eq!(app.data.selection_index, 1);
}

fn channel(id: &str, name: &str, kind: u8, children: Option<Vec<Channel>>) -> Channel {
    Channel { id: id.to_string(), name: name.to_string(), channel_type: kind, children }
}

fn channels() -> Vec<Channel> {
    vec![
        channel("1", "Rules", 0, None),
        channel(
            "2",
            "Talk",
            4,
            Some(vec![
                channel("3", "General", 0, None),
                channel("4", "Secret", 0, None),
                channel("5", "Help", 0, None),
            ]),
        ),
        channel("6", "Empty", 4, None),
        channel("7", "Odd", 0, Some(Vec::new())),
    ]
}

fn context(ids: &[&str]) -> Option<PermissionContext> {
    Some(PermissionContext { readable: ids.iter().map(|id| id.to_string()).collect() })
}

#[test]
fn shift_g_counts_the_channels_that_show() {
    let mut app = session();
    app.state = AppState::SelectingChannel(Box::new(Guild {
        id: "g".to_string(),
        name: "g".to_string(),
    }));
    app.data.guilds.channels = channels();
    app.data.context = context(&["1", "3", "5", "7"]);
    type_keys(&mut app, "G");
    // Rules, Talk, General, Help, Empty.
    assert_eq!(app.data.selection_index, 4);
    app.data.input.search = "HELP".to_string();
    type_keys(&mut app, "G");
    // Talk, Help.
    assert_eq!(app.data.selection_index, 1);
    app.data.input.search = "talk".to_string();
    type_keys(&mut app, "G");
    // Talk.
    assert_eq!(app.data.selection_index, 0);
    app.data.input.search = String::new();
    app.data.context = None;
    type_keys(&mut app, "G");
    // Talk, Empty.
    assert_eq!(app.data.selection_index, 1);
}

#[test]
fn lists_by_themselves() {
    let guilds = vec![guild("ABC"), guild("abd")];
    assert_eq!(last_guild(&guilds, "B"), 1);
    let dms = vec![DM { id: "1".to_string(), name: "X".to_string() }];
    assert_eq!(last_dm(&dms, "x"), 0);
    assert_eq!(last_channel(&channels(), &context(&["1"]), "rul"), 0);
    let names = vec!["ab".to_string(), "bc".to_string(), "ca".to_string()];
    assert_eq!(last_match(&names, "b"), 1);
    assert_eq!(last_match(&names, ""), 2);
    assert_eq!(last_match(&names, "z"), 0);
}

fn leaf(name: &str, readable: bool) -> ChannelLeaf {
    ChannelLeaf { name: name.to_string(), readable }
}

#[test]
fn rows_in_order() {
    let all = vec![
        ChannelEntry { leaf: leaf("rules", true), category: false, children: None },
        ChannelEntry {
            leaf: leaf("talk", false),
            category: true,
            children: Some(vec![leaf("general", true), leaf("secret", false), leaf("help", true)]),
        },
        ChannelEntry { leaf: leaf("hidden", false), category: false, children: None },
        ChannelEntry { leaf: leaf("odd", true), category: false, children: Some(Vec::new()) },
    ];
    assert_eq!(
        shown_rows(&all, ""),
        vec![Row::Top(0), Row::Top(1), Row::Child(1, 0), Row::Child(1, 2)]
    );
    assert_eq!(shown_rows(&all, "hel"), vec![Row::Top(1), Row::Child(1, 2)]);
    assert_eq!(shown_rows(&all, "secret"), Vec::new());
    assert!(leaf_shows(&leaf("help", true), "el"));
    assert!(!leaf_shows(&leaf("help", false), "el"));
}

#[test]
fn down_and_up_lead_back() {
    let mut app = chatting();
    app.data.input.buffer = "abcd\nefghi".to_string();
    app.data.cursor_position = 3;
    type_keys(&mut app, "j");
    assert_eq!(app.data.cursor_position, 8);
    type_keys(&mut app, "k");
    assert_eq!(app.data.cursor_position, 3);
}

#[test]
fn the_selection_stays_within_the_messages() {
    let mut app = chatting();
    app.is_loading = true;
    for c in "kkkkkkjgGggkjjjjjjjk".chars() {
        handle_vim_keys(&mut app, c, SECOND);
        assert!(app.data.selection_index <= 3);
    }
}

#[test]
fn the_history_is_walked_wherever_the_cursor_is() {
    let mut app = chatting();
    app.data.input.buffer = "\u{e9}b".to_string();
    app.data.cursor_position = 1;
    assert!(!is_pressable(&app, 'j', 0));
    assert!(!is_pressable(&app, 'k', 0));
    app.data.selection_index = 1;
    assert!(!is_pressable(&app, 'h', 0));
    type_keys(&mut app, "kjOowbpPdI");
    assert_eq!(app.data.selection_index, 1);
    shows(&app, "\u{e9}b", 1);
    type_keys(&mut app, "G");
    assert_eq!(app.data.selection_index, 0);
    shows(&app, "\u{e9}b", 2);
}
