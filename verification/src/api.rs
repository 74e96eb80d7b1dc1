//! The chat service's objects, as far as the client reads them.
use vstd::prelude::*;

verus! {

/// An account.
#[derive(Debug)]
pub struct User {
    pub id: String,
}

impl Clone for User {
    fn clone(&self) -> (r: Self)
        ensures
            r == *self,
    {
        User { id: self.id.clone() }
    }
}

/// A message of a chat.
#[derive(Debug)]
pub struct Message {
    pub id: String,
    pub author: User,
    pub content: Option<String>,
}

impl Clone for Message {
    fn clone(&self) -> (r: Self)
        ensures
            r == *self,
    {
        let content = match &self.content {
            Some(text) => Some(text.clone()),
            None => None,
        };
        Message { id: self.id.clone(), author: self.author.clone(), content }
    }
}

/// What a message update carries.
#[derive(Debug)]
pub struct PartialMessage {
    pub id: String,
    pub channel_id: String,
    pub content: Option<String>,
}

/// The channel that is open as a chat: one of a guild, or a direct message.
#[derive(Debug)]
pub struct AnyChannel {
    pub id: String,
    pub name: String,
}

impl Clone for AnyChannel {
    fn clone(&self) -> (r: Self)
        ensures
            r == *self,
    {
        AnyChannel { id: self.id.clone(), name: self.name.clone() }
    }
}

impl AnyChannel {
    /// The channel's identifier.
    pub fn get_id(&self) -> (id: &String)
        ensures
            *id == self.id,
    {
        &self.id
    }
}

/// The channel type of a category.
pub const CATEGORY: u8 = 4;

/// A channel of a guild. A category holds the channels under it.
#[derive(Debug)]
pub struct Channel {
    pub id: String,
    pub name: String,
    pub channel_type: u8,
    pub children: Option<Vec<Channel>>,
}

/// What the user may do in the open guild: the identifiers of the channels that
/// the user may read.
#[derive(Debug)]
pub struct PermissionContext {
    pub readable: Vec<String>,
}

impl PermissionContext {
    /// Whether the user may read the channel with this identifier.
    pub open spec fn allows(self, id: Seq<char>) -> bool {
        exists|k: int| 0 <= k < self.readable@.len() && #[trigger] self.readable@[k]@ == id
    }
}

impl Channel {
    /// Whether the user may read the channel.
    pub fn is_readable(&self, context: &PermissionContext) -> (b: bool)
        ensures
            b == context.allows(self.id@),
    {
        let mut k: usize = 0;
        while k < context.readable.len()
            invariant
                k <= context.readable.len(),
                forall|m: int| 0 <= m < k ==> #[trigger] context.readable@[m]@ != self.id@,
            decreases context.readable.len() - k,
        {
            if context.readable[k] == self.id {
                return true;
            }
            k = k + 1;
        }
        false
    }
}

/// An open guild.
#[derive(Debug)]
pub struct Guild {
    pub id: String,
    pub name: String,
}

impl Clone for Guild {
    fn clone(&self) -> (r: Self)
        ensures
            r == *self,
    {
        Guild { id: self.id.clone(), name: self.name.clone() }
    }
}

/// A guild in the list of guilds.
#[derive(Debug)]
pub struct PartialGuild {
    pub id: String,
    pub name: String,
}

/// A direct message channel.
#[derive(Debug)]
pub struct DM {
    pub id: String,
    pub name: String,
}

impl DM {
    /// The name under which the channel is listed.
    pub fn get_name(&self) -> (name: &String)
        ensures
            *name == self.name,
    {
        &self.name
    }
}

/// A custom emoji.
#[derive(Debug)]
pub struct Emoji {
    pub id: String,
    pub name: String,
}

/// A member of a guild.
#[derive(Debug)]
pub struct GuildMember {
    pub user: User,
    pub nick: Option<String>,
}

/// Whether an account is online, with its status text.
#[derive(Debug)]
pub struct Presence {
    pub user_id: String,
    pub status: String,
    pub status_text: Option<String>,
}

/// What requests to the service are made with.
#[derive(Debug)]
pub struct ApiClient {
    pub token: String,
    pub base_url: String,
}

impl Clone for ApiClient {
    fn clone(&self) -> (r: Self)
        ensures
            r == *self,
    {
        ApiClient { token: self.token.clone(), base_url: self.base_url.clone() }
    }
}

impl ApiClient {
    pub fn new(token: String, base_url: String) -> (r: Self)
        ensures
            r.token == token,
            r.base_url == base_url,
    {
        ApiClient { token, base_url }
    }
}

/// What the event stream is opened with.
#[derive(Debug)]
pub struct GatewayClient {
    pub token: String,
}

impl Clone for GatewayClient {
    fn clone(&self) -> (r: Self)
        ensures
            r == *self,
    {
        GatewayClient { token: self.token.clone() }
    }
}

impl GatewayClient {
    pub fn new(token: String) -> (r: Self)
        ensures
            r.token == token,
    {
        GatewayClient { token }
    }
}

} // verus!
