//! Which entries the selection lists show, given a search text.
use crate::api::{Channel, DM, PartialGuild, PermissionContext, CATEGORY};
use crate::search::{self, contains, to_lowercase};
use vstd::prelude::*;

verus! {

/// The characters of each text.
pub open spec fn texts(v: Seq<String>) -> Seq<Seq<char>> {
    Seq::new(v.len(), |k: int| v[k]@)
}

/// The names in which the search text occurs.
pub open spec fn matching(names: Seq<Seq<char>>, filter: Seq<char>) -> Seq<Seq<char>> {
    names.filter(|name: Seq<char>| search::occurs(name, filter))
}

/// The index of the last of `n` rows, and 0 where there is none.
pub open spec fn last_row(n: int) -> int {
    if n == 0 {
        0
    } else {
        n - 1
    }
}

/// The lower-case names of guilds.
pub open spec fn guild_names(guilds: Seq<PartialGuild>) -> Seq<Seq<char>> {
    Seq::new(guilds.len(), |k: int| search::lowercase(guilds[k].name@))
}

/// The lower-case names of direct message channels.
pub open spec fn dm_names(dms: Seq<DM>) -> Seq<Seq<char>> {
    Seq::new(dms.len(), |k: int| search::lowercase(dms[k].name@))
}

/// The last row of a list of names under a search text, both in lower case.
pub fn last_match(names: &Vec<String>, filter: &str) -> (row: usize)
    ensures
        row == last_row(matching(texts(names@), filter@).len() as int),
{
    let ghost pred = |name: Seq<char>| search::occurs(name, filter@);
    let ghost all = texts(names@);
    let mut n: usize = 0;
    let mut k: usize = 0;
    while k < names.len()
        invariant
            k <= names.len(),
            n <= k,
            all == texts(names@),
            pred == (|name: Seq<char>| search::occurs(name, filter@)),
            n == all.take(k as int).filter(pred).len(),
        decreases names.len() - k,
    {
        let hit = contains(names[k].as_str(), filter);
        proof {
            assert(all.take(k + 1).drop_last() =~= all.take(k as int));
            assert(all.take(k + 1).last() == names[k as int]@);
            reveal(Seq::filter);
        }
        if hit {
            n = n + 1;
        }
        k = k + 1;
    }
    proof {
        assert(all.take(all.len() as int) =~= all);
    }
    if n == 0 {
        0
    } else {
        n - 1
    }
}

/// The last row of the list of guilds.
pub fn last_guild(guilds: &Vec<PartialGuild>, filter: &str) -> (row: usize)
    ensures
        row == last_row(
            matching(guild_names(guilds@), search::lowercase(filter@)).len() as int,
        ),
{
    let mut names: Vec<String> = Vec::new();
    let mut k: usize = 0;
    while k < guilds.len()
        invariant
            k <= guilds.len(),
            names.len() == k,
            forall|m: int| 0 <= m < k ==> #[trigger] names[m]@ == search::lowercase(guilds[m].name@),
        decreases guilds.len() - k,
    {
        names.push(to_lowercase(guilds[k].name.as_str()));
        k = k + 1;
    }
    proof {
        assert(texts(names@) =~= guild_names(guilds@));
    }
    last_match(&names, to_lowercase(filter).as_str())
}

/// The last row of the list of direct message channels.
pub fn last_dm(dms: &Vec<DM>, filter: &str) -> (row: usize)
    ensures
        row == last_row(matching(dm_names(dms@), search::lowercase(filter@)).len() as int),
{
    let mut names: Vec<String> = Vec::new();
    let mut k: usize = 0;
    while k < dms.len()
        invariant
            k <= dms.len(),
            names.len() == k,
            forall|m: int| 0 <= m < k ==> #[trigger] names[m]@ == search::lowercase(dms[m].name@),
        decreases dms.len() - k,
    {
        names.push(to_lowercase(dms[k].get_name().as_str()));
        k = k + 1;
    }
    proof {
        assert(texts(names@) =~= dm_names(dms@));
    }
    last_match(&names, to_lowercase(filter).as_str())
}

/// What a list of channels shows of a channel: its name in lower case, and whether
/// the user may read it.
#[verifier::ext_equal]
pub struct Leaf {
    pub name: Seq<char>,
    pub readable: bool,
}

/// A channel on the top level of the list.
#[verifier::ext_equal]
pub struct Entry {
    pub leaf: Leaf,
    pub category: bool,
    pub children: Option<Seq<Leaf>>,
}

/// A channel as `Leaf` describes it.
#[derive(Debug)]
pub struct ChannelLeaf {
    pub name: String,
    pub readable: bool,
}

impl View for ChannelLeaf {
    type V = Leaf;

    open spec fn view(&self) -> Leaf {
        Leaf { name: self.name@, readable: self.readable }
    }
}

/// The views of several channels.
pub open spec fn leaves(v: Seq<ChannelLeaf>) -> Seq<Leaf> {
    Seq::new(v.len(), |k: int| v[k]@)
}

/// A channel as `Entry` describes it.
#[derive(Debug)]
pub struct ChannelEntry {
    pub leaf: ChannelLeaf,
    pub category: bool,
    pub children: Option<Vec<ChannelLeaf>>,
}

impl View for ChannelEntry {
    type V = Entry;

    open spec fn view(&self) -> Entry {
        Entry {
            leaf: self.leaf@,
            category: self.category,
            children: match self.children {
                Some(children) => Some(leaves(children@)),
                None => None,
            },
        }
    }
}

/// The views of several top-level channels.
pub open spec fn entries(v: Seq<ChannelEntry>) -> Seq<Entry> {
    Seq::new(v.len(), |k: int| v[k]@)
}

/// A row of the list of channels.
#[derive(Debug, Clone, Copy, PartialEq, Eq, Structural)]
pub enum Row {
    /// The channel with this index on the top level.
    Top(usize),
    /// A channel of the category with the first index.
    Child(usize, usize),
}

/// Whether a channel that is no category shows.
pub open spec fn shows(leaf: Leaf, filter: Seq<char>) -> bool {
    leaf.readable && search::occurs(leaf.name, filter)
}

/// Whether a channel of the top level shows: a category by its own name or by one of
/// the channels in it, any other channel by itself. A channel that is no
/// category but has channels under it never shows.
pub open spec fn entry_shows(entry: Entry, filter: Seq<char>) -> bool {
    if entry.category {
        ||| search::occurs(entry.leaf.name, filter)
        ||| (entry.children matches Some(kids) && exists|j: int|
            0 <= j < kids.len() && shows(#[trigger] kids[j], filter))
    } else {
        entry.children is None && shows(entry.leaf, filter)
    }
}

/// The rows of the channels in the category with index `top`.
pub open spec fn child_rows(top: int, kids: Seq<Leaf>, filter: Seq<char>) -> Seq<Row>
    decreases kids.len(),
{
    if kids.len() == 0 {
        Seq::empty()
    } else {
        let front = child_rows(top, kids.drop_last(), filter);
        if shows(kids.last(), filter) {
            front.push(Row::Child(top as usize, (kids.len() - 1) as usize))
        } else {
            front
        }
    }
}

/// The rows of the top-level channel with index `top`.
pub open spec fn entry_rows(top: int, entry: Entry, filter: Seq<char>) -> Seq<Row> {
    if !entry_shows(entry, filter) {
        Seq::empty()
    } else if entry.category && entry.children is Some {
        seq![Row::Top(top as usize)] + child_rows(top, entry.children->0, filter)
    } else {
        seq![Row::Top(top as usize)]
    }
}

/// The rows of the list of channels.
pub open spec fn rows(all: Seq<Entry>, filter: Seq<char>) -> Seq<Row>
    decreases all.len(),
{
    if all.len() == 0 {
        Seq::empty()
    } else {
        rows(all.drop_last(), filter) + entry_rows(all.len() - 1, all.last(), filter)
    }
}

/// Whether a name passes the search text.
fn passes(name: &str, filter: &str) -> (b: bool)
    ensures
        b == search::occurs(name@, filter@),
{
    proof {
        if filter@.len() == 0 {
            search::lemma_empty_occurs(name@, filter@);
        }
    }
    filter.is_empty() || contains(name, filter)
}

/// Whether a channel that is no category shows.
pub fn leaf_shows(leaf: &ChannelLeaf, filter: &str) -> (b: bool)
    ensures
        b == shows(leaf@, filter@),
{
    leaf.readable && passes(leaf.name.as_str(), filter)
}

/// Whether a channel of the top level shows.
fn top_shows(entry: &ChannelEntry, filter: &str) -> (b: bool)
    ensures
        b == entry_shows(entry@, filter@),
{
    if !entry.category {
        return entry.children.is_none() && leaf_shows(&entry.leaf, filter);
    }
    if passes(entry.leaf.name.as_str(), filter) {
        return true;
    }
    if let Some(kids) = &entry.children {
        let mut j: usize = 0;
        while j < kids.len()
            invariant
                j <= kids.len(),
                entry.category,
                entry.children == Some(*kids),
                !search::occurs(entry.leaf.name@, filter@),
                forall|m: int| 0 <= m < j ==> !shows(#[trigger] leaves(kids@)[m], filter@),
            decreases kids.len() - j,
        {
            if leaf_shows(&kids[j], filter) {
                proof {
                    assert(entry@.children == Some(leaves(kids@)));
                    assert(shows(entry@.children->0[j as int], filter@));
                }
                return true;
            }
            j = j + 1;
        }
    }
    false
}

/// The rows that the list of channels shows under a search text in lower case.
pub fn shown_rows(all: &Vec<ChannelEntry>, filter: &str) -> (shown: Vec<Row>)
    ensures
        shown@ == rows(entries(all@), filter@),
{
    let ghost views = entries(all@);
    let mut shown: Vec<Row> = Vec::new();
    let mut i: usize = 0;
    while i < all.len()
        invariant
            i <= all.len(),
            views == entries(all@),
            shown@ == rows(views.take(i as int), filter@),
        decreases all.len() - i,
    {
        let entry = &all[i];
        proof {
            assert(views.take(i + 1).drop_last() =~= views.take(i as int));
            assert(views.take(i + 1).last() == entry@);
        }
        let ghost before = shown@;
        if top_shows(entry, filter) {
            shown.push(Row::Top(i));
            if entry.category {
                if let Some(kids) = &entry.children {
                    let ghost top = seq![Row::Top(i)];
                    let ghost under = leaves(kids@);
                    proof {
                        assert(shown@ =~= before + top + child_rows(i as int, under.take(0), filter@));
                    }
                    let mut j: usize = 0;
                    while j < kids.len()
                        invariant
                            j <= kids.len(),
                            i < all.len(),
                            under == leaves(kids@),
                            shown@ == before + top + child_rows(
                                i as int,
                                under.take(j as int),
                                filter@,
                            ),
                        decreases kids.len() - j,
                    {
                        proof {
                            assert(under.take(j + 1).drop_last() =~= under.take(j as int));
                            assert(under.take(j + 1).last() == kids[j as int]@);
                        }
                        if leaf_shows(&kids[j], filter) {
                            let ghost front = child_rows(i as int, under.take(j as int), filter@);
                            shown.push(Row::Child(i, j));
                            proof {
                                assert(shown@ =~= before + top + front.push(Row::Child(i, j)));
                            }
                        }
                        j = j + 1;
                    }
                    proof {
                        assert(under.take(under.len() as int) =~= under);
                        assert(before + top + child_rows(i as int, under, filter@) =~= before + (top
                            + child_rows(i as int, under, filter@)));
                    }
                }
            }
        }
        proof {
            assert(shown@ =~= before + entry_rows(i as int, entry@, filter@));
        }
        i = i + 1;
    }
    proof {
        assert(views.take(views.len() as int) =~= views);
    }
    shown
}

/// Whether the user may read a channel. Without permissions nothing is readable.
pub open spec fn may_read(channel: Channel, context: Option<PermissionContext>) -> bool {
    context matches Some(granted) && granted.allows(channel.id@)
}

/// A channel as the list shows it.
pub open spec fn leaf_of(channel: Channel, context: Option<PermissionContext>) -> Leaf {
    Leaf { name: search::lowercase(channel.name@), readable: may_read(channel, context) }
}

/// A top-level channel as the list shows it.
pub open spec fn entry_of(channel: Channel, context: Option<PermissionContext>) -> Entry {
    Entry {
        leaf: leaf_of(channel, context),
        category: channel.channel_type == CATEGORY,
        children: match channel.children {
            Some(children) => Some(
                Seq::new(children@.len(), |j: int| leaf_of(children@[j], context)),
            ),
            None => None,
        },
    }
}

/// The top-level channels as the list shows them.
pub open spec fn entries_of(
    channels: Seq<Channel>,
    context: Option<PermissionContext>,
) -> Seq<Entry> {
    Seq::new(channels.len(), |k: int| entry_of(channels[k], context))
}

/// A channel as the list shows it.
fn make_leaf(channel: &Channel, context: &Option<PermissionContext>) -> (leaf: ChannelLeaf)
    ensures
        leaf@ == leaf_of(*channel, *context),
{
    let readable = match context {
        Some(granted) => channel.is_readable(granted),
        None => false,
    };
    ChannelLeaf { name: to_lowercase(channel.name.as_str()), readable }
}

/// A top-level channel as the list shows it.
fn make_entry(channel: &Channel, context: &Option<PermissionContext>) -> (entry: ChannelEntry)
    ensures
        entry@ == entry_of(*channel, *context),
{
    let leaf = make_leaf(channel, context);
    let children = match &channel.children {
        Some(kids) => {
            let mut made: Vec<ChannelLeaf> = Vec::new();
            let mut j: usize = 0;
            while j < kids.len()
                invariant
                    j <= kids.len(),
                    made.len() == j,
                    forall|m: int| 0 <= m < j ==> #[trigger] made[m]@ == leaf_of(kids[m], *context),
                decreases kids.len() - j,
            {
                made.push(make_leaf(&kids[j], context));
                j = j + 1;
            }
            proof {
                assert(leaves(made@) =~= Seq::new(
                    kids@.len(),
                    |m: int| leaf_of(kids@[m], *context),
                ));
            }
            Some(made)
        },
        None => None,
    };
    ChannelEntry { leaf, category: channel.channel_type == CATEGORY, children }
}

/// The last row of the list of channels.
pub fn last_channel(
    channels: &Vec<Channel>,
    context: &Option<PermissionContext>,
    filter: &str,
) -> (row: usize)
    ensures
        row == last_row(
            rows(entries_of(channels@, *context), search::lowercase(filter@)).len() as int,
        ),
{
    let mut all: Vec<ChannelEntry> = Vec::new();
    let mut k: usize = 0;
    while k < channels.len()
        invariant
            k <= channels.len(),
            all.len() == k,
            forall|m: int| 0 <= m < k ==> #[trigger] all[m]@ == entry_of(channels[m], *context),
        decreases channels.len() - k,
    {
        all.push(make_entry(&channels[k], context));
        k = k + 1;
    }
    proof {
        assert(entries(all@) =~= entries_of(channels@, *context));
    }
    let shown = shown_rows(&all, to_lowercase(filter).as_str());
    if shown.len() == 0 {
        0
    } else {
        shown.len() - 1
    }
}

} // verus!
