//! The client's state, its actions, and how both are set up.
use crate::api::{
    AnyChannel, ApiClient, Channel, DM, Emoji, GatewayClient, Guild, GuildMember, Message,
    PartialGuild, PartialMessage, PermissionContext, Presence, User,
};
use crate::vim::VimState;
use std::collections::{HashMap, HashSet};
use vstd::prelude::*;

verus! {

/// The argument that turns vim mode on.
pub const VIM_FLAG: &'static str = "--vim";

/// Where the service is reached.
pub const DISCORD_BASE_URL: &'static str = "https://discord.com/api/v10";

/// What the main loop does after an action.
#[derive(Debug, Clone, Copy, PartialEq, Eq, Structural)]
pub enum KeywordAction {
    Continue,
    Break,
}

/// A window, without what is shown in it.
#[derive(Debug)]
pub enum Window {
    Home,
    Guild,
    DM,
    Channel(Box<Guild>),
    Chat(Box<AnyChannel>),
}

impl Default for Window {
    fn default() -> (r: Self)
        ensures
            r is Home,
    {
        Window::Home
    }
}

impl Clone for Window {
    fn clone(&self) -> (r: Self)
        ensures
            r == *self,
    {
        match self {
            Window::Home => Window::Home,
            Window::Guild => Window::Guild,
            Window::DM => Window::DM,
            Window::Channel(guild) => Window::Channel(Box::new((**guild).clone())),
            Window::Chat(channel) => Window::Chat(Box::new((**channel).clone())),
        }
    }
}

/// What the client is showing.
#[derive(Debug)]
pub enum AppState {
    Home,
    SelectingGuild,
    SelectingDM,
    SelectingChannel(Box<Guild>),
    Chatting(Box<AnyChannel>),
    EmojiSelection(Box<AnyChannel>),
    Editing(Box<AnyChannel>, Box<Message>, String),
    Loading(Window),
    Logs(Window),
}

impl Default for AppState {
    fn default() -> (r: Self)
        ensures
            r is Home,
    {
        AppState::Home
    }
}

impl Clone for AppState {
    fn clone(&self) -> (r: Self)
        ensures
            r == *self,
    {
        match self {
            AppState::Home => AppState::Home,
            AppState::SelectingGuild => AppState::SelectingGuild,
            AppState::SelectingDM => AppState::SelectingDM,
            AppState::SelectingChannel(guild) => AppState::SelectingChannel(
                Box::new((**guild).clone()),
            ),
            AppState::Chatting(channel) => AppState::Chatting(Box::new((**channel).clone())),
            AppState::EmojiSelection(channel) => AppState::EmojiSelection(
                Box::new((**channel).clone()),
            ),
            AppState::Editing(channel, message, content) => AppState::Editing(
                Box::new((**channel).clone()),
                Box::new((**message).clone()),
                content.clone(),
            ),
            AppState::Loading(window) => AppState::Loading(window.clone()),
            AppState::Logs(window) => AppState::Logs(window.clone()),
        }
    }
}

/// What can happen to the client.
#[derive(Debug)]
pub enum AppAction {
    SigInt,
    InputChar(char),
    InputBackspace,
    InputDelete,
    InputEscape,
    InputSubmit,
    SelectNext,
    SelectPrevious,
    SelectLeft,
    SelectRight,
    /// The channel's and the message's identifier.
    ApiDeleteMessage(String, String),
    /// The channel's and the message's identifier, and the new content.
    ApiEditMessage(String, String, String),
    ApiUpdateMessages(String, Vec<Message>),
    ApiUpdateChannel(Vec<Channel>),
    ApiUpdateEmojis(Vec<Emoji>),
    ApiUpdateGuilds(Vec<PartialGuild>),
    ApiUpdateDMs(Vec<DM>),
    ApiUpdateContext(Option<PermissionContext>),
    ApiUpdateCurrentUser(User),
    GatewayMessageCreate(Message),
    GatewayMessageUpdate(PartialMessage),
    /// The message's and the channel's identifier.
    GatewayMessageDelete(String, String),
    /// The channel's and the user's identifier, and the user's display name.
    GatewayTypingStart(String, String, Option<String>),
    GatewayGuildMembersChunk(String, Vec<GuildMember>, String, String),
    /// Statuses and status texts by user identifier.
    GatewayReadySupplemental(HashMap<String, String>, HashMap<String, String>),
    GatewayPresenceUpdate(Presence),
    TransitionToChat(Box<AnyChannel>),
    /// The chat, the message, its content, and the key that was pressed.
    TransitionToEditing(Box<AnyChannel>, Message, String, char),
    TransitionToChannels(Box<Guild>),
    TransitionToGuilds,
    TransitionToDM,
    TransitionToHome,
    TransitionToLoading(Window),
    TransitionToLogs,
    TransitionToLoadingMessages,
    EndLoading,
    EndLogs,
    EndLoadingMessages,
    SelectEmoji,
    Paste(String),
    DesktopNotification(String, String, String),
    Tick,
    NewLogReceived(String),
    ClearLogs,
}

/// What typed characters mean.
#[derive(Debug, Clone, Copy, PartialEq, Eq, Structural)]
pub enum InputMode {
    Normal,
    Insert,
    Command,
    Search,
    Visual,
    VisualLine,
}

impl Default for InputMode {
    fn default() -> (r: Self)
        ensures
            r is Normal,
    {
        InputMode::Normal
    }
}

/// The two connections to the service.
#[derive(Debug)]
pub struct Client {
    pub api: ApiClient,
    pub gateway: GatewayClient,
}

impl Client {
    pub fn new(api: ApiClient, gateway: GatewayClient) -> (r: Self)
        ensures
            r.api == api,
            r.gateway == gateway,
    {
        Client { api, gateway }
    }
}

/// Guilds and what is loaded of the open one.
#[derive(Debug)]
pub struct GuildData {
    pub selected: Option<Guild>,
    pub members: Vec<GuildMember>,
    pub channels: Vec<Channel>,
    /// The open chat's messages, newest first.
    pub messages: Vec<Message>,
    pub custom_emojis: Vec<Emoji>,
    pub joined: Vec<PartialGuild>,
}

impl Default for GuildData {
    fn default() -> (r: Self)
        ensures
            r.selected is None,
            r.members@.len() == 0,
            r.channels@.len() == 0,
            r.messages@.len() == 0,
            r.custom_emojis@.len() == 0,
            r.joined@.len() == 0,
    {
        GuildData {
            selected: None,
            members: Vec::new(),
            channels: Vec::new(),
            messages: Vec::new(),
            custom_emojis: Vec::new(),
            joined: Vec::new(),
        }
    }
}

/// Direct messages, and names and statuses by user identifier.
#[derive(Debug)]
pub struct DMData {
    pub channels: Vec<DM>,
    pub user_names: HashMap<String, String>,
    pub user_statuses: HashMap<String, String>,
    pub user_status_texts: HashMap<String, String>,
}

impl Default for DMData {
    fn default() -> (r: Self)
        ensures
            r.channels@.len() == 0,
            r.user_names@ == Map::<String, String>::empty(),
            r.user_statuses@ == Map::<String, String>::empty(),
            r.user_status_texts@ == Map::<String, String>::empty(),
    {
        DMData {
            channels: Vec::new(),
            user_names: HashMap::new(),
            user_statuses: HashMap::new(),
            user_status_texts: HashMap::new(),
        }
    }
}

/// The emoji that can be picked, and the state of the picker.
#[derive(Debug)]
pub struct EmojiData {
    /// Names and emoji.
    pub map: Vec<(String, String)>,
    pub filter: String,
    pub index: usize,
    /// Where the filter starts in the input: the byte position of the colon.
    pub filter_start: Option<usize>,
}

impl EmojiData {
    pub fn new(map: Vec<(String, String)>) -> (r: Self)
        ensures
            r.map == map,
            r.filter@.len() == 0,
            r.index == 0,
            r.filter_start is None,
    {
        EmojiData { map, filter: String::new(), index: 0, filter_start: None }
    }
}

/// The input line.
#[derive(Debug)]
pub struct InputData {
    pub buffer: String,
    /// The line that a command or a search has put aside.
    pub saved: Option<String>,
    pub search: String,
    pub mode: InputMode,
}

impl Default for InputData {
    fn default() -> (r: Self)
        ensures
            r.buffer@.len() == 0,
            r.saved is None,
            r.search@.len() == 0,
            r.mode is Normal,
    {
        InputData {
            buffer: String::new(),
            saved: None,
            search: String::new(),
            mode: InputMode::Normal,
        }
    }
}

/// Whether vim mode is on, and its state.
#[derive(Debug)]
pub struct VimData {
    pub active: bool,
    pub state: Option<VimState>,
}

/// Whether one of the arguments turns vim mode on.
pub open spec fn asks_for_vim(args: Seq<String>) -> bool {
    exists|k: int| 0 <= k < args.len() && #[trigger] args[k]@ == VIM_FLAG@
}

/// Whether one of the arguments turns vim mode on.
fn has_vim_flag(args: &Vec<String>) -> (b: bool)
    ensures
        b == asks_for_vim(args@),
{
    let flag = VIM_FLAG.to_owned();
    let mut k: usize = 0;
    while k < args.len()
        invariant
            k <= args.len(),
            flag@ == VIM_FLAG@,
            forall|m: int| 0 <= m < k ==> #[trigger] args@[m]@ != VIM_FLAG@,
        decreases args.len() - k,
    {
        if args[k] == flag {
            return true;
        }
        k = k + 1;
    }
    false
}

impl VimData {
    /// Vim mode is on where the configuration or the program's arguments say so. It
    /// then starts with a fresh state at time `now`.
    pub fn new(vim_mode: bool, args: &Vec<String>, now: u64) -> (r: Self)
        ensures
            r.active == (vim_mode || asks_for_vim(args@)),
            r.state is Some <==> r.active,
            r.state matches Some(s) ==> s.is_fresh(now),
    {
        let active = vim_mode || has_vim_flag(args);
        let state = if active {
            Some(VimState::fresh(now))
        } else {
            None
        };
        VimData { active, state }
    }
}

/// Desktop notifications.
#[derive(Debug)]
pub struct NotifsData {
    /// The last message of each channel.
    pub last_message_ids: HashMap<String, String>,
    pub discreet: bool,
    /// The notifications that are shown for each channel, by their numbers.
    pub active: HashMap<String, Vec<u32>>,
    pub is_invisible_dnd: bool,
}

impl NotifsData {
    pub fn new(discreet: bool) -> (r: Self)
        ensures
            r.last_message_ids@ == Map::<String, String>::empty(),
            r.discreet == discreet,
            r.active@ == Map::<String, Vec<u32>>::empty(),
            !r.is_invisible_dnd,
    {
        NotifsData {
            last_message_ids: HashMap::new(),
            discreet,
            active: HashMap::new(),
            is_invisible_dnd: false,
        }
    }
}

/// Who is typing, and whether others see that the user is.
#[derive(Debug)]
pub struct TypingData {
    pub last_typing_sent: Option<u64>,
    /// Times by channel and user identifier.
    pub typing_users: HashMap<String, HashMap<String, u64>>,
    pub silent_typing: bool,
}

impl TypingData {
    pub fn new(silent_typing: bool) -> (r: Self)
        ensures
            r.last_typing_sent is None,
            r.typing_users@ == Map::<String, HashMap<String, u64>>::empty(),
            r.silent_typing == silent_typing,
    {
        TypingData { last_typing_sent: None, typing_users: HashMap::new(), silent_typing }
    }
}

/// Where log lines are read from.
#[derive(Debug)]
pub struct LogReader {
    pub directory: String,
}

/// Everything that the client shows or remembers.
#[derive(Debug)]
pub struct Data {
    pub current_user: Option<User>,
    pub guilds: GuildData,
    pub dms: DMData,
    pub emojis: EmojiData,
    pub input: InputData,
    pub status_message: String,
    pub terminal_dimensions: (usize, usize),
    /// In a chat or the logs, how many lines up the selection is; 0 is the input.
    pub selection_index: usize,
    pub scroll_offset: usize,
    /// The cursor's byte position in the input line.
    pub cursor_position: usize,
    pub context: Option<PermissionContext>,
    pub vim: VimData,
    pub notifs: NotifsData,
    pub typing: TypingData,
    pub display_username: bool,
    /// Log lines, newest first.
    pub logs: Vec<String>,
    pub log_reader: LogReader,
    pub deleted_message_ids: HashSet<String>,
}

impl Data {
    /// Everything that is not given starts out empty.
    pub fn new(
        emojis: EmojiData,
        vim: VimData,
        notifs: NotifsData,
        typing: TypingData,
        log_reader: LogReader,
        display_username: bool,
    ) -> (r: Self)
        ensures
            r.emojis == emojis,
            r.vim == vim,
            r.notifs == notifs,
            r.typing == typing,
            r.log_reader == log_reader,
            r.display_username == display_username,
            r.is_empty(),
    {
        Data {
            current_user: None,
            guilds: GuildData::default(),
            dms: DMData::default(),
            emojis,
            input: InputData::default(),
            status_message: String::new(),
            terminal_dimensions: (0, 0),
            selection_index: 0,
            scroll_offset: 0,
            cursor_position: 0,
            context: None,
            vim,
            notifs,
            typing,
            display_username,
            logs: Vec::new(),
            log_reader,
            deleted_message_ids: HashSet::new(),
        }
    }

    /// Nothing is loaded, shown, typed or selected.
    pub open spec fn is_empty(self) -> bool {
        &&& self.current_user is None
        &&& self.guilds.selected is None
        &&& self.guilds.members@.len() == 0
        &&& self.guilds.channels@.len() == 0
        &&& self.guilds.messages@.len() == 0
        &&& self.guilds.custom_emojis@.len() == 0
        &&& self.guilds.joined@.len() == 0
        &&& self.dms.channels@.len() == 0
        &&& self.dms.user_names@ == Map::<String, String>::empty()
        &&& self.dms.user_statuses@ == Map::<String, String>::empty()
        &&& self.dms.user_status_texts@ == Map::<String, String>::empty()
        &&& self.input.buffer@.len() == 0
        &&& self.input.saved is None
        &&& self.input.search@.len() == 0
        &&& self.input.mode is Normal
        &&& self.status_message@.len() == 0
        &&& self.terminal_dimensions == (0usize, 0usize)
        &&& self.selection_index == 0
        &&& self.scroll_offset == 0
        &&& self.cursor_position == 0
        &&& self.context is None
        &&& self.logs@.len() == 0
        &&& self.deleted_message_ids@ == Set::<String>::empty()
    }
}

/// The client.
#[derive(Debug)]
pub struct App {
    pub client: Client,
    pub state: AppState,
    pub data: Data,
    pub tick_count: usize,
    pub is_loading: bool,
}

impl App {
    pub fn new(client: Client, data: Data) -> (r: Self)
        ensures
            r.client == client,
            r.state is Home,
            r.data == data,
            r.tick_count == 0,
            !r.is_loading,
    {
        App { client, state: AppState::Home, data, tick_count: 0, is_loading: false }
    }
}

} // verus!
