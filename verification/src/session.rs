//! A session from start to end: how the client is set up, what loading brings, and
//! what the main loop decides.
use crate::api::{ApiClient, DM, GatewayClient, Message, PartialGuild, User};
use crate::app::{
    App, AppAction, Client, Data, EmojiData, InputMode, KeywordAction, LogReader, NotifsData,
    TypingData, VimData, DISCORD_BASE_URL,
};
use crate::search::contains;
use crate::{app, search, text};
use vstd::prelude::*;
use vstd::string::*;

verus! {

/// The program's name, under which its files are kept.
pub const APP_NAME: &'static str = "vimcord";

/// The folder of the log files.
pub const LOGS_FOLDER: &'static str = "logs";

/// What the user has configured.
#[derive(Debug)]
pub struct Config {
    /// Names and emoji.
    pub emoji_map: Vec<(String, String)>,
    pub vim_mode: bool,
    pub discreet_notifs: bool,
    pub silent_typing: bool,
    pub display_username: bool,
}

/// The client of a user with this token.
pub fn new_client(token: String) -> (client: Client)
    ensures
        client.api.token == token,
        client.api.base_url@ == DISCORD_BASE_URL@,
        client.gateway.token == token,
{
    let gateway = GatewayClient::new(token.clone());
    Client::new(ApiClient::new(token, DISCORD_BASE_URL.to_owned()), gateway)
}

/// The state in which a session starts at time `now`, given the program's arguments.
pub fn new_session(
    token: String,
    config: Config,
    log_reader: LogReader,
    args: &Vec<String>,
    now: u64,
) -> (r: App)
    ensures
        r.client.api.token == token,
        r.client.api.base_url@ == DISCORD_BASE_URL@,
        r.client.gateway.token == token,
        r.state is Home,
        r.tick_count == 0,
        !r.is_loading,
        r.data.is_empty(),
        r.data.emojis.map == config.emoji_map,
        r.data.emojis.filter@.len() == 0,
        r.data.emojis.index == 0,
        r.data.emojis.filter_start is None,
        r.data.vim.active == (config.vim_mode || app::asks_for_vim(args@)),
        r.data.vim.state is Some <==> r.data.vim.active,
        r.data.vim.state matches Some(vim) ==> vim.is_fresh(now),
        r.data.notifs.discreet == config.discreet_notifs,
        r.data.notifs.last_message_ids@ == Map::<String, String>::empty(),
        r.data.notifs.active@ == Map::<String, Vec<u32>>::empty(),
        !r.data.notifs.is_invisible_dnd,
        r.data.typing.silent_typing == config.silent_typing,
        r.data.typing.last_typing_sent is None,
        r.data.typing.typing_users@ == Map::<
            String,
            std::collections::HashMap<String, u64>,
        >::empty(),
        r.data.log_reader == log_reader,
        r.data.display_username == config.display_username,
        r.wf(),
{
    let data = Data::new(
        EmojiData::new(config.emoji_map),
        VimData::new(config.vim_mode, args, now),
        NotifsData::new(config.discreet_notifs),
        TypingData::new(config.silent_typing),
        log_reader,
        config.display_username,
    );
    proof {
        text::lemma_offset_ends(data.input.buffer@);
    }
    App::new(new_client(token), data)
}

/// What is loaded when a session starts, one after the other.
#[derive(Debug, Clone, Copy, PartialEq, Eq, Structural)]
pub enum StartupStep {
    CurrentUser,
    Guilds,
    DMs,
    Finished,
}

/// What comes after a step.
pub open spec fn step_after(step: StartupStep) -> StartupStep {
    match step {
        StartupStep::CurrentUser => StartupStep::Guilds,
        StartupStep::Guilds => StartupStep::DMs,
        _ => StartupStep::Finished,
    }
}

/// What comes after a step, whether or not it succeeded.
pub fn next_step(step: StartupStep) -> (next: StartupStep)
    ensures
        next == step_after(step),
{
    match step {
        StartupStep::CurrentUser => StartupStep::Guilds,
        StartupStep::Guilds => StartupStep::DMs,
        _ => StartupStep::Finished,
    }
}

/// What a step itself sends: nothing while there is something to load, and in the end
/// that loading has ended.
pub open spec fn announced(step: StartupStep) -> Option<AppAction> {
    if step is Finished {
        Some(AppAction::EndLoading)
    } else {
        None
    }
}

/// What a step itself sends.
pub fn step_action(step: StartupStep) -> (action: Option<AppAction>)
    ensures
        action == announced(step),
{
    match step {
        StartupStep::Finished => Some(AppAction::EndLoading),
        _ => None,
    }
}

/// What the service has answered to a step, or why it has not.
#[derive(Debug)]
pub enum LoadReply {
    CurrentUser(Result<User, String>),
    Guilds(Result<Vec<PartialGuild>, String>),
    DMs(Result<Vec<DM>, String>),
}

/// The action that makes a reply known. A failure has none.
pub open spec fn reply_action(reply: LoadReply) -> Option<AppAction> {
    match reply {
        LoadReply::CurrentUser(Ok(user)) => Some(AppAction::ApiUpdateCurrentUser(user)),
        LoadReply::Guilds(Ok(guilds)) => Some(AppAction::ApiUpdateGuilds(guilds)),
        LoadReply::DMs(Ok(dms)) => Some(AppAction::ApiUpdateDMs(dms)),
        _ => None,
    }
}

/// The actions that make a reply known.
pub open spec fn made_known(reply: LoadReply) -> Seq<AppAction> {
    match reply_action(reply) {
        Some(action) => seq![action],
        None => seq![],
    }
}

/// How many replies are still to come.
pub open spec fn replies_left(step: StartupStep) -> nat {
    match step {
        StartupStep::CurrentUser => 3,
        StartupStep::Guilds => 2,
        StartupStep::DMs => 1,
        StartupStep::Finished => 0,
    }
}

/// Everything that is sent from a step on, given the replies to it and to the steps
/// after it.
pub open spec fn sent_from(step: StartupStep, replies: Seq<LoadReply>) -> Seq<AppAction>
    decreases replies_left(step),
{
    match announced(step) {
        Some(action) => seq![action],
        None => made_known(replies[0]) + sent_from(step_after(step), replies.skip(1)),
    }
}

/// What a reply leads to: an action that makes it known, and a line for the log.
#[derive(Debug)]
pub struct LoadOutcome {
    pub action: Option<AppAction>,
    pub log: Option<String>,
}

/// The state `after` is `before` with another status line.
pub open spec fn told(before: App, after: App, status: Seq<char>) -> bool {
    &&& after == (App {
        data: Data { status_message: after.data.status_message, ..before.data },
        ..before
    })
    &&& after.data.status_message@ == status
}

/// A text of two parts.
fn joined(front: &str, back: &str) -> (s: String)
    ensures
        s@ == front@ + back@,
{
    let mut s = front.to_owned();
    s.append(back);
    s
}

/// Takes the reply to a step in. What was loaded is made known by an action, with the
/// state as it was. A failure is told in the status line, and goes to the log where it
/// was the guilds that could not be loaded.
pub fn receive_loaded(state: &mut App, reply: LoadReply) -> (outcome: LoadOutcome)
    ensures
        outcome.action == reply_action(reply),
        match reply {
            LoadReply::CurrentUser(Err(error)) => {
                &&& told(*old(state), *final(state), "Failed to load current user. "@ + error@)
                &&& outcome.log is None
            },
            LoadReply::Guilds(Err(error)) => {
                &&& told(*old(state), *final(state), "Failed to load servers. "@ + error@)
                &&& outcome.log matches Some(line) && line@
                    == "Failed to get user guilds action: "@ + error@
            },
            LoadReply::DMs(Err(error)) => {
                &&& told(*old(state), *final(state), "Failed to load DMs. "@ + error@)
                &&& outcome.log is None
            },
            _ => {
                &&& *final(state) == *old(state)
                &&& outcome.log is None
            },
        },
{
    match reply {
        LoadReply::CurrentUser(Ok(user)) => LoadOutcome {
            action: Some(AppAction::ApiUpdateCurrentUser(user)),
            log: None,
        },
        LoadReply::CurrentUser(Err(error)) => {
            state.data.status_message = joined("Failed to load current user. ", error.as_str());
            LoadOutcome { action: None, log: None }
        },
        LoadReply::Guilds(Ok(guilds)) => LoadOutcome {
            action: Some(AppAction::ApiUpdateGuilds(guilds)),
            log: None,
        },
        LoadReply::Guilds(Err(error)) => {
            state.data.status_message = joined("Failed to load servers. ", error.as_str());
            LoadOutcome {
                action: None,
                log: Some(joined("Failed to get user guilds action: ", error.as_str())),
            }
        },
        LoadReply::DMs(Ok(dms)) => LoadOutcome {
            action: Some(AppAction::ApiUpdateDMs(dms)),
            log: None,
        },
        LoadReply::DMs(Err(error)) => {
            state.data.status_message = joined("Failed to load DMs. ", error.as_str());
            LoadOutcome { action: None, log: None }
        },
    }
}

/// How the log line starts after the action of a step could not be sent.
pub open spec fn unsent_front(step: StartupStep) -> Seq<char> {
    match step {
        StartupStep::CurrentUser => "Failed to send current user update action: "@,
        StartupStep::Guilds => "Failed to send guild update action: "@,
        _ => "Failed to send DM update action: "@,
    }
}

/// What goes to the log where the action of a step could not be sent. That loading has
/// ended is not missed.
pub fn unsent_log(step: StartupStep, error: &str) -> (log: Option<String>)
    ensures
        log is None <==> step == StartupStep::Finished,
        log matches Some(line) ==> line@ == unsent_front(step) + error@,
{
    match step {
        StartupStep::CurrentUser => Some(
            joined("Failed to send current user update action: ", error),
        ),
        StartupStep::Guilds => Some(joined("Failed to send guild update action: ", error)),
        StartupStep::DMs => Some(joined("Failed to send DM update action: ", error)),
        StartupStep::Finished => None,
    }
}

/// Takes the reply to a request for older messages in: they follow those that are
/// loaded, and a failure changes nothing.
pub fn receive_older_messages(state: &mut App, reply: Result<Vec<Message>, String>)
    ensures
        *final(state) == (App {
            data: Data {
                guilds: app::GuildData {
                    messages: final(state).data.guilds.messages,
                    ..old(state).data.guilds
                },
                ..old(state).data
            },
            ..*old(state)
        }),
        final(state).data.guilds.messages@ == match reply {
            Ok(older) => old(state).data.guilds.messages@ + older@,
            Err(_) => old(state).data.guilds.messages@,
        },
{
    match reply {
        Ok(older) => {
            let mut older = older;
            state.data.guilds.messages.append(&mut older);
        },
        Err(_) => {},
    }
}

/// Takes the reply to a request for older log lines in: they follow those that are
/// loaded. Returns what goes to the log where reading failed.
pub fn receive_older_logs(state: &mut App, reply: Result<Vec<String>, String>) -> (log: Option<
    String,
>)
    ensures
        *final(state) == (App {
            data: Data { logs: final(state).data.logs, ..old(state).data },
            ..*old(state)
        }),
        final(state).data.logs@ == match reply {
            Ok(older) => old(state).data.logs@ + older@,
            Err(_) => old(state).data.logs@,
        },
        log is Some <==> reply is Err,
        log matches Some(line) ==> line@ == "Failed to read previous logs: "@ + reply->Err_0@,
{
    match reply {
        Ok(older) => {
            let mut older = older;
            state.data.logs.append(&mut older);
            None
        },
        Err(error) => Some(joined("Failed to read previous logs: ", error.as_str())),
    }
}

/// The shape of the terminal's cursor.
#[derive(Debug, Clone, Copy, PartialEq, Eq, Structural)]
pub enum CursorStyle {
    BlinkingBar,
    BlinkingBlock,
}

/// The cursor is a block where characters are not typed in, and a bar otherwise.
pub fn cursor_style(vim_active: bool, mode: InputMode) -> (style: CursorStyle)
    ensures
        style == CursorStyle::BlinkingBlock <==> vim_active && (mode is Normal || mode is Visual
            || mode is VisualLine),
{
    if !vim_active {
        return CursorStyle::BlinkingBar;
    }
    match mode {
        InputMode::Normal | InputMode::Visual | InputMode::VisualLine => CursorStyle::BlinkingBlock,
        InputMode::Insert | InputMode::Command | InputMode::Search => CursorStyle::BlinkingBar,
    }
}

/// Whether the main loop ends after an action.
pub fn ends_session(outcome: Option<KeywordAction>) -> (b: bool)
    ensures
        b == (outcome == Some(KeywordAction::Break)),
{
    match outcome {
        Some(KeywordAction::Break) => true,
        _ => false,
    }
}

/// What the user is told when a token was refused with this error.
pub open spec fn refusal(error: Seq<char>) -> Seq<char> {
    if search::occurs(error, "401"@) {
        "Please check your session token and try again."@
    } else if search::occurs(error, "API GET request"@) {
        error
    } else {
        "Could not connect to the server. Please check your internet connection."@
    }
}

/// What the user is told when a token was refused with this error: to check the token
/// where the service said so, the error itself where the service gave another
/// answer, and to check the connection where it gave none.
pub fn token_refusal(error: &str) -> (message: String)
    ensures
        message@ == refusal(error@),
{
    if contains(error, "401") {
        "Please check your session token and try again.".to_owned()
    } else if contains(error, "API GET request") {
        error.to_owned()
    } else {
        "Could not connect to the server. Please check your internet connection.".to_owned()
    }
}

/// What becomes of a client once the service has been asked for its user: the client
/// itself where the service knows the user, and what the user is told otherwise.
pub fn token_outcome(client: Client, reply: Result<User, String>) -> (outcome: Result<
    Client,
    String,
>)
    ensures
        outcome is Ok <==> reply is Ok,
        outcome matches Ok(known) ==> known == client,
        outcome matches Err(message) ==> message@ == refusal(reply->Err_0@),
{
    match reply {
        Ok(_) => Ok(client),
        Err(error) => Err(token_refusal(error.as_str())),
    }
}

} // verus!
