//! What keys ask for, which rows lists have, and what a session tells, in terms of the
//! state's own fields.
use crate::api::{Channel, PermissionContext};
use crate::app::{App, AppAction, Data};
use crate::editor::{self, Editor};
use crate::effects::lands;
use crate::listing::{self, ChannelEntry, Entry, Leaf, Row};
use crate::session::{self, LoadReply, StartupStep};
use crate::vim::{self, VimOperator, VimRequest, VimState};
use crate::{app, search};
use vstd::prelude::*;
use vstd::string::*;

verus! {

/// A message of the open chat is selected, is loaded, and has the current user as its
/// author.
pub open spec fn mine(app: App) -> bool {
    &&& app.state is Chatting
    &&& 0 < app.data.selection_index <= app.data.guilds.messages@.len()
    &&& app.data.current_user matches Some(user) && user.id@
        == app.data.guilds.messages@[app.data.selection_index - 1].author.id@
}

/// While a message is selected, `i`, `I`, `a` and `A` ask to edit it where its author is
/// the current user, with its content and the key, and ask for nothing otherwise.
pub proof fn law_editing_own_messages(app: App, c: char, now: u64, requests: Seq<VimRequest>)
    requires
        vim::asks(app, c, now, requests),
        c == 'i' || c == 'I' || c == 'a' || c == 'A',
        app.state is Chatting,
        app.data.selection_index > 0,
    ensures
        mine(app) ==> {
            let message = app.data.guilds.messages@[app.data.selection_index - 1];
            &&& requests.len() == 1
            &&& requests[0] matches VimRequest::Send(AppAction::TransitionToEditing(
                chat,
                edited,
                content,
                key,
            ))
            &&& *chat == *app.state->Chatting_0
            &&& edited == message
            &&& message.content is Some ==> content@ == message.content->0@
            &&& message.content is None ==> content@.len() == 0
            &&& key == c
        },
        !mine(app) ==> requests.len() == 0,
{
}

/// The second `d` on a selected message asks to delete it where its author is the current
/// user, and ends the wait. Otherwise it does nothing.
pub proof fn law_deleting_own_messages(app: App, now: u64, requests: Seq<VimRequest>)
    requires
        vim::asks(app, 'd', now, requests),
        app.state is Chatting,
        app.data.selection_index > 0,
        !(app.data.input.mode is Visual),
        !(app.data.input.mode is VisualLine),
        editor::ready(app, now).operator == Some(VimOperator::Delete),
    ensures
        mine(app) ==> {
            &&& requests.len() == 1
            &&& requests[0] matches VimRequest::Send(AppAction::ApiDeleteMessage(chat, message))
            &&& chat == app.state->Chatting_0.id
            &&& message == app.data.guilds.messages@[app.data.selection_index - 1].id
            &&& vim::press(app, 'd', now) == (Editor {
                operator: None,
                ..editor::ready(app, now)
            })
        },
        !mine(app) ==> requests.len() == 0 && vim::press(app, 'd', now) == editor::ready(app, now),
{
}

/// Whatever key it is, a request to edit or delete is about a message whose author is the
/// current user.
pub proof fn law_others_messages_are_safe(
    app: App,
    c: char,
    now: u64,
    requests: Seq<VimRequest>,
    k: int,
)
    requires
        vim::asks(app, c, now, requests),
        0 <= k < requests.len(),
    ensures
        requests[k] matches VimRequest::Send(AppAction::ApiDeleteMessage(chat, message)) ==> {
            &&& app.state is Chatting
            &&& chat == app.state->Chatting_0.id
            &&& 0 < app.data.selection_index <= app.data.guilds.messages@.len()
            &&& message == app.data.guilds.messages@[app.data.selection_index - 1].id
            &&& app.data.current_user matches Some(user) && user.id@
                == app.data.guilds.messages@[app.data.selection_index - 1].author.id@
        },
        requests[k] matches VimRequest::Send(
            AppAction::TransitionToEditing(chat, message, content, key),
        ) ==> {
            &&& app.state is Chatting
            &&& 0 < app.data.selection_index <= app.data.guilds.messages@.len()
            &&& message == app.data.guilds.messages@[app.data.selection_index - 1]
            &&& app.data.current_user matches Some(user) && user.id@ == message.author.id@
        },
{
}

/// Outside a chat and the logs `j` and `k` ask for the next and the previous entry.
pub proof fn law_menus_get_selection(app: App, now: u64, requests: Seq<VimRequest>)
    requires
        !(app.state is Chatting),
        !(app.state is Logs),
    ensures
        vim::asks(app, 'j', now, requests) ==> requests.len() == 1 && requests[0]
            == VimRequest::Send(AppAction::SelectNext),
        vim::asks(app, 'k', now, requests) ==> requests.len() == 1 && requests[0]
            == VimRequest::Send(AppAction::SelectPrevious),
{
}

/// From the last row that is loaded, `k` asks for more: ten older lines in the logs, and
/// in a chat up to a hundred messages before the oldest one, between the two actions
/// that tell so, unless messages are being loaded.
pub proof fn law_more_at_the_top(app: App, now: u64, requests: Seq<VimRequest>)
    requires
        vim::asks(app, 'k', now, requests),
        app.data.selection_index > 0,
    ensures
        app.state is Logs && app.data.selection_index >= app.data.logs@.len() ==> {
            &&& requests.len() == 1
            &&& requests[0] matches VimRequest::ReadOlderLogs { lines } && lines == 10
        },
        app.state is Chatting && app.data.selection_index >= app.data.guilds.messages@.len()
            && !app.is_loading ==> {
            let messages = app.data.guilds.messages@;
            &&& requests.first() == VimRequest::Send(AppAction::TransitionToLoadingMessages)
            &&& requests.last() == VimRequest::Send(AppAction::EndLoadingMessages)
            &&& messages.len() == 0 ==> requests.len() == 2
            &&& messages.len() > 0 ==> {
                &&& requests.len() == 3
                &&& requests[1] matches VimRequest::FetchOlderMessages {
                    channel_id,
                    before,
                    limit,
                }
                &&& channel_id == app.state->Chatting_0.id
                &&& before == messages[messages.len() - 1].id
                &&& limit == 100
            }
        },
        app.state is Logs && app.data.selection_index < app.data.logs@.len() ==> requests.len()
            == 0,
        app.state is Chatting && (app.data.selection_index < app.data.guilds.messages@.len()
            || app.is_loading) ==> requests.len() == 0,
{
}

/// Nothing else is ever asked for.
pub proof fn law_nothing_else_is_asked(app: App, c: char, now: u64, requests: Seq<VimRequest>)
    requires
        vim::asks(app, c, now, requests),
        ({
            let history = app.state is Chatting || app.state is Logs;
            let on_message = app.state is Chatting && app.data.selection_index > 0;
            &&& (c == 'i' || c == 'I' || c == 'a' || c == 'A') ==> !on_message
            &&& c == 'd' ==> !on_message || app.data.input.mode is Visual
                || app.data.input.mode is VisualLine || editor::ready(app, now).operator != Some(
                VimOperator::Delete,
            )
            &&& c == 'j' ==> history
            &&& c == 'k' ==> history && app.data.selection_index == 0
        }),
    ensures
        requests.len() == 0,
{
}

/// The second `g` selects the oldest row of a chat or the logs, and the first entry
/// elsewhere. It changes nothing else.
pub proof fn law_gg_selects(app: App, now: u64)
    requires
        editor::ready(app, now).operator == Some(VimOperator::Goto),
    ensures
        vim::press(app, 'g', now) == (Editor {
            selection: if app.state is Chatting {
                app.data.guilds.messages@.len() as int
            } else if app.state is Logs {
                app.data.logs@.len() as int
            } else {
                0
            },
            ..editor::ready(app, now)
        }),
{
}

/// `G` selects the input line of a chat or the logs and goes to its last character, and
/// the third entry of the home menu. Where there is nothing to select it does nothing.
pub proof fn law_shift_g_selects(app: App, now: u64)
    ensures
        ({
            let e = editor::ready(app, now);
            let f = vim::press(app, 'G', now);
            &&& app.state is Home ==> f == (Editor { selection: 2, ..e })
            &&& app.state is Chatting || app.state is Logs ==> {
                &&& lands(e.text, e.text.len() as int, f.cursor)
                &&& f == (Editor { cursor: f.cursor, selection: 0, ..e })
            }
            &&& app.state is EmojiSelection || app.state is Editing || app.state is Loading ==> f
                == e
        }),
{
}

/// The characters of `part` stand one after the other in `whole`, from index `at` on.
pub open spec fn stands_at(whole: Seq<char>, part: Seq<char>, at: int) -> bool {
    &&& 0 <= at <= whole.len() - part.len()
    &&& forall|k: int| 0 <= k < part.len() ==> whole[at + k] == #[trigger] part[k]
}

/// The characters of `part` stand one after the other somewhere in `whole`.
pub open spec fn stands_in(whole: Seq<char>, part: Seq<char>) -> bool {
    exists|at: int| stands_at(whole, part, at)
}

/// A text occurs in another one where its characters stand there one after the other.
pub proof fn law_occurring(whole: Seq<char>, part: Seq<char>)
    ensures
        search::occurs(whole, part) <==> stands_in(whole, part),
{
    if search::occurs(whole, part) {
        let at = choose|at: int| search::occurs_at(whole, part, at);
        assert forall|k: int| 0 <= k < part.len() implies whole[at + k] == #[trigger] part[k] by {
            assert(whole.subrange(at, at + part.len())[k] == whole[at + k]);
        }
        assert(stands_at(whole, part, at));
    }
    if stands_in(whole, part) {
        let at = choose|at: int| stands_at(whole, part, at);
        assert(whole.subrange(at, at + part.len()) =~= part);
        assert(search::occurs_at(whole, part, at));
    }
}

/// How many of the first `n` names hold the search text.
pub open spec fn hits(names: Seq<Seq<char>>, filter: Seq<char>, n: int) -> int
    decreases n,
{
    if n <= 0 {
        0
    } else {
        hits(names, filter, n - 1) + if stands_in(names[n - 1], filter) {
            1int
        } else {
            0
        }
    }
}

/// Names are counted as they are listed.
proof fn lemma_hits(names: Seq<Seq<char>>, filter: Seq<char>, n: int)
    requires
        0 <= n <= names.len(),
    ensures
        hits(names, filter, n) == listing::matching(names.take(n), filter).len(),
    decreases n,
{
    reveal(Seq::filter);
    if n > 0 {
        lemma_hits(names, filter, n - 1);
        assert(names.take(n).drop_last() =~= names.take(n - 1));
        assert(names.take(n).last() == names[n - 1]);
        law_occurring(names[n - 1], filter);
    }
}

/// A list of names has a row for each name that holds the search text, and its last row
/// is one less than there are.
pub proof fn law_matching_names(names: Seq<Seq<char>>, filter: Seq<char>)
    ensures
        listing::matching(names, filter).len() == hits(names, filter, names.len() as int),
        forall|k: int|
            0 <= k < listing::matching(names, filter).len() ==> stands_in(
                #[trigger] listing::matching(names, filter)[k],
                filter,
            ),
{
    assert(names.take(names.len() as int) =~= names);
    lemma_hits(names, filter, names.len() as int);
    let pred = |name: Seq<char>| search::occurs(name, filter);
    let listed = listing::matching(names, filter);
    assert forall|k: int| 0 <= k < listed.len() implies stands_in(#[trigger] listed[k], filter) by {
        broadcast use vstd::seq_lib::group_filter_ensures;

        assert(pred(listed[k]));
        law_occurring(listed[k], filter);
    }
}

/// In the list of guilds `G` selects the last of those whose name holds the search text,
/// whatever the case, or the first row where there is none. In the list of direct
/// messages it does so too.
pub proof fn law_shift_g_in_lists(app: App, now: u64)
    ensures
        ({
            let e = editor::ready(app, now);
            let f = vim::press(app, 'G', now);
            let filter = search::lowercase(app.data.input.search@);
            let guilds = app.data.guilds.joined@;
            let dms = app.data.dms.channels@;
            let guild_hits = hits(
                Seq::new(guilds.len(), |k: int| search::lowercase(guilds[k].name@)),
                filter,
                guilds.len() as int,
            );
            let dm_hits = hits(
                Seq::new(dms.len(), |k: int| search::lowercase(dms[k].name@)),
                filter,
                dms.len() as int,
            );
            &&& app.state is SelectingGuild || app.state is SelectingDM
                || app.state is SelectingChannel ==> f == (Editor { selection: f.selection, ..e })
            &&& app.state is SelectingGuild ==> f.selection == if guild_hits > 0 {
                guild_hits - 1
            } else {
                0
            }
            &&& app.state is SelectingDM ==> f.selection == if dm_hits > 0 {
                dm_hits - 1
            } else {
                0
            }
        }),
{
    let filter = search::lowercase(app.data.input.search@);
    let guilds = listing::guild_names(app.data.guilds.joined@);
    let dms = listing::dm_names(app.data.dms.channels@);
    law_matching_names(guilds, filter);
    law_matching_names(dms, filter);
    let joined = app.data.guilds.joined@;
    let channels = app.data.dms.channels@;
    assert(guilds =~= Seq::new(joined.len(), |k: int| search::lowercase(joined[k].name@)));
    assert(dms =~= Seq::new(channels.len(), |k: int| search::lowercase(channels[k].name@)));
}

/// One row stands before another: by the top-level channel, that channel itself before
/// those in it, and those in their order.
pub open spec fn row_before(a: Row, b: Row) -> bool {
    match (a, b) {
        (Row::Top(i), Row::Top(k)) => i < k,
        (Row::Top(i), Row::Child(k, _)) => i <= k,
        (Row::Child(i, _), Row::Top(k)) => i < k,
        (Row::Child(i, j), Row::Child(k, l)) => i < k || (i == k && j < l),
    }
}

/// A channel has a row of its own: one that can be read and whose name holds the search
/// text, or a category whose name does or that has such a channel in it. A channel
/// with others in it that is no category has none.
pub open spec fn has_row(entry: Entry, filter: Seq<char>) -> bool {
    if entry.category {
        ||| stands_in(entry.leaf.name, filter)
        ||| exists|j: int| #[trigger] child_has_row(entry, j, filter)
    } else {
        entry.children is None && entry.leaf.readable && stands_in(entry.leaf.name, filter)
    }
}

/// Channel `j` of a category has a row: it can be read, and its name holds the search
/// text.
pub open spec fn child_has_row(entry: Entry, j: int, filter: Seq<char>) -> bool {
    &&& entry.category
    &&& entry.children matches Some(kids) && 0 <= j < kids.len() && kids[j].readable && stands_in(
        kids[j].name,
        filter,
    )
}

/// Each top-level channel has an index that fits, and so has each channel in it.
pub open spec fn indexable(all: Seq<Entry>) -> bool {
    &&& all.len() <= usize::MAX
    &&& forall|i: int|
        0 <= i < all.len() ==> (#[trigger] all[i].children matches Some(kids) ==> kids.len()
            <= usize::MAX)
}

/// The rows of the channels in a category.
proof fn lemma_child_rows(top: int, kids: Seq<Leaf>, filter: Seq<char>)
    requires
        0 <= top <= usize::MAX,
        kids.len() <= usize::MAX,
    ensures
        ({
            let rows = listing::child_rows(top, kids, filter);
            &&& forall|k: int|
                0 <= k < rows.len() ==> (#[trigger] rows[k] matches Row::Child(i, j) && i == top
                    && j < kids.len() && kids[j as int].readable && stands_in(
                    kids[j as int].name,
                    filter,
                ))
            &&& forall|j: int|
                0 <= j < kids.len() && kids[j].readable && stands_in(kids[j].name, filter)
                    ==> #[trigger] rows.contains(Row::Child(top as usize, j as usize))
            &&& forall|a: int, b: int|
                0 <= a < b < rows.len() ==> row_before(#[trigger] rows[a], #[trigger] rows[b])
        }),
    decreases kids.len(),
{
    let rows = listing::child_rows(top, kids, filter);
    if kids.len() > 0 {
        let rest = kids.drop_last();
        let front = listing::child_rows(top, rest, filter);
        let n = kids.len() - 1;
        lemma_child_rows(top, rest, filter);
        law_occurring(kids.last().name, filter);
        assert forall|j: int|
            0 <= j < kids.len() && kids[j].readable && stands_in(
                kids[j].name,
                filter,
            ) implies #[trigger] rows.contains(Row::Child(top as usize, j as usize)) by {
            let row = Row::Child(top as usize, j as usize);
            if j < n {
                assert(rest[j] == kids[j]);
                assert(front.contains(row));
                let k = choose|k: int| 0 <= k < front.len() && front[k] == row;
                assert(rows[k] == row);
            } else {
                assert(rows[rows.len() - 1] == row);
            }
        }
        assert forall|k: int| 0 <= k < rows.len() implies (#[trigger] rows[k] matches Row::Child(
            i,
            j,
        ) && i == top && j < kids.len() && kids[j as int].readable && stands_in(
            kids[j as int].name,
            filter,
        )) by {
            if k < front.len() {
                assert(rows[k] == front[k]);
                assert(front[k] is Child);
                assert(rest[front[k]->Child_1 as int] == kids[front[k]->Child_1 as int]);
            }
        }
        assert forall|a: int, b: int| 0 <= a < b < rows.len() implies row_before(
            #[trigger] rows[a],
            #[trigger] rows[b],
        ) by {
            assert(rows[a] == front[a]);
            assert(front[a] is Child);
            if b < front.len() {
                assert(rows[b] == front[b]);
            }
        }
    }
}

/// The rows of one top-level channel.
proof fn lemma_entry_rows(top: int, entry: Entry, filter: Seq<char>)
    requires
        0 <= top <= usize::MAX,
        entry.children matches Some(kids) ==> kids.len() <= usize::MAX,
    ensures
        ({
            let rows = listing::entry_rows(top, entry, filter);
            &&& forall|k: int|
                0 <= k < rows.len() ==> match #[trigger] rows[k] {
                    Row::Top(i) => i == top && has_row(entry, filter),
                    Row::Child(i, j) => i == top && child_has_row(entry, j as int, filter),
                }
            &&& has_row(entry, filter) ==> rows.contains(Row::Top(top as usize))
            &&& forall|j: int| #[trigger]
                child_has_row(entry, j, filter) ==> rows.contains(
                    Row::Child(top as usize, j as usize),
                )
            &&& forall|a: int, b: int|
                0 <= a < b < rows.len() ==> row_before(#[trigger] rows[a], #[trigger] rows[b])
        }),
{
    let rows = listing::entry_rows(top, entry, filter);
    law_occurring(entry.leaf.name, filter);
    if entry.children is Some {
        let kids = entry.children->0;
        assert forall|j: int| 0 <= j < kids.len() implies listing::shows(#[trigger] kids[j], filter)
            == (kids[j].readable && stands_in(kids[j].name, filter)) by {
            law_occurring(kids[j].name, filter);
        }
        lemma_child_rows(top, kids, filter);
        if entry.category {
            assert forall|j: int| #[trigger] child_has_row(entry, j, filter) implies has_row(
                entry,
                filter,
            ) && listing::entry_shows(entry, filter) by {
                assert(listing::shows(kids[j], filter));
            }
            if listing::entry_shows(entry, filter) {
                if !search::occurs(entry.leaf.name, filter) {
                    let j = choose|j: int|
                        0 <= j < kids.len() && listing::shows(#[trigger] kids[j], filter);
                    assert(child_has_row(entry, j, filter));
                }
            }
        }
    }
    assert(has_row(entry, filter) == listing::entry_shows(entry, filter));
    if has_row(entry, filter) {
        assert(rows[0] == Row::Top(top as usize));
        if entry.category && entry.children is Some {
            let kids = entry.children->0;
            let under = listing::child_rows(top, kids, filter);
            assert forall|j: int| #[trigger]
                child_has_row(entry, j, filter) implies rows.contains(
                Row::Child(top as usize, j as usize),
            ) by {
                let row = Row::Child(top as usize, j as usize);
                assert(under.contains(row));
                let k = choose|k: int| 0 <= k < under.len() && under[k] == row;
                assert(rows[k + 1] == row);
            }
            assert forall|k: int| 0 <= k < rows.len() implies match #[trigger] rows[k] {
                Row::Top(i) => i == top && has_row(entry, filter),
                Row::Child(i, j) => i == top && child_has_row(entry, j as int, filter),
            } by {
                if k > 0 {
                    assert(rows[k] == under[k - 1]);
                }
            }
            assert forall|a: int, b: int| 0 <= a < b < rows.len() implies row_before(
                #[trigger] rows[a],
                #[trigger] rows[b],
            ) by {
                assert(rows[b] == under[b - 1]);
                if a > 0 {
                    assert(rows[a] == under[a - 1]);
                }
            }
        }
    }
}

/// The list of channels has a row for each channel that is to have one, no other row, and
/// all of them in order, so that none stands there twice.
pub proof fn law_rows(all: Seq<Entry>, filter: Seq<char>)
    requires
        indexable(all),
    ensures
        ({
            let rows = listing::rows(all, filter);
            &&& forall|k: int|
                0 <= k < rows.len() ==> match #[trigger] rows[k] {
                    Row::Top(i) => i < all.len() && has_row(all[i as int], filter),
                    Row::Child(i, j) => i < all.len() && child_has_row(
                        all[i as int],
                        j as int,
                        filter,
                    ),
                }
            &&& forall|i: int|
                0 <= i < all.len() && #[trigger] has_row(all[i], filter) ==> rows.contains(
                    Row::Top(i as usize),
                )
            &&& forall|i: int, j: int|
                0 <= i < all.len() && #[trigger] child_has_row(all[i], j, filter) ==> rows.contains(
                    Row::Child(i as usize, j as usize),
                )
            &&& forall|a: int, b: int|
                0 <= a < b < rows.len() ==> row_before(#[trigger] rows[a], #[trigger] rows[b])
        }),
    decreases all.len(),
{
    let rows = listing::rows(all, filter);
    if all.len() > 0 {
        let rest = all.drop_last();
        let top = all.len() - 1;
        let front = listing::rows(rest, filter);
        let own = listing::entry_rows(top, all.last(), filter);
        assert forall|i: int| 0 <= i < rest.len() implies (
        #[trigger] rest[i].children matches Some(kids) ==> kids.len() <= usize::MAX) by {
            assert(rest[i] == all[i]);
        }
        assert(all[top].children == all.last().children);
        law_rows(rest, filter);
        lemma_entry_rows(top, all.last(), filter);
        assert forall|row: Row|
            front.contains(row) || own.contains(row) implies #[trigger] rows.contains(row) by {
            if front.contains(row) {
                let k = choose|k: int| 0 <= k < front.len() && front[k] == row;
                assert(rows[k] == row);
            } else {
                let k = choose|k: int| 0 <= k < own.len() && own[k] == row;
                assert(rows[front.len() + k] == row);
            }
        }
        assert forall|i: int|
            0 <= i < all.len() && #[trigger] has_row(all[i], filter) implies rows.contains(
            Row::Top(i as usize),
        ) by {
            if i < top {
                assert(rest[i] == all[i]);
                assert(has_row(rest[i], filter));
                assert(front.contains(Row::Top(i as usize)));
            } else {
                assert(own.contains(Row::Top(i as usize)));
            }
        }
        assert forall|i: int, j: int|
            0 <= i < all.len() && #[trigger] child_has_row(
                all[i],
                j,
                filter,
            ) implies rows.contains(Row::Child(i as usize, j as usize)) by {
            if i < top {
                assert(rest[i] == all[i]);
                assert(child_has_row(rest[i], j, filter));
                assert(front.contains(Row::Child(i as usize, j as usize)));
            } else {
                assert(child_has_row(all.last(), j, filter));
                assert(own.contains(Row::Child(i as usize, j as usize)));
            }
        }
        assert forall|k: int| 0 <= k < rows.len() implies match #[trigger] rows[k] {
            Row::Top(i) => i < all.len() && has_row(all[i as int], filter),
            Row::Child(i, j) => i < all.len() && child_has_row(all[i as int], j as int, filter),
        } by {
            if k < front.len() {
                assert(rows[k] == front[k]);
                match front[k] {
                    Row::Top(i) => {
                        assert(rest[i as int] == all[i as int]);
                    },
                    Row::Child(i, j) => {
                        assert(rest[i as int] == all[i as int]);
                    },
                }
            } else {
                assert(rows[k] == own[k - front.len()]);
            }
        }
        assert forall|a: int, b: int| 0 <= a < b < rows.len() implies row_before(
            #[trigger] rows[a],
            #[trigger] rows[b],
        ) by {
            if b < front.len() {
                assert(rows[a] == front[a] && rows[b] == front[b]);
            } else if a < front.len() {
                assert(rows[a] == front[a] && rows[b] == own[b - front.len()]);
            } else {
                assert(rows[a] == own[a - front.len()] && rows[b] == own[b - front.len()]);
            }
        }
    }
}

/// The user may read a channel where there are permissions and they name it.
pub open spec fn readable(channel: Channel, context: Option<PermissionContext>) -> bool {
    context matches Some(granted) && exists|k: int|
        0 <= k < granted.readable@.len() && #[trigger] granted.readable@[k]@ == channel.id@
}

/// The list of channels knows each channel by its name in lower case, by whether the user
/// may read it, by whether it is of type 4, a category, and by the channels in it.
pub proof fn law_entries(
    channels: Seq<Channel>,
    context: Option<PermissionContext>,
    i: int,
    j: int,
)
    requires
        0 <= i < channels.len(),
    ensures
        ({
            let all = listing::entries_of(channels, context);
            let entry = all[i];
            let channel = channels[i];
            &&& all.len() == channels.len()
            &&& entry.leaf.name == search::lowercase(channel.name@)
            &&& entry.leaf.readable == readable(channel, context)
            &&& entry.category == (channel.channel_type == 4)
            &&& entry.children is Some <==> channel.children is Some
            &&& channel.children matches Some(kids) ==> {
                &&& entry.children->0.len() == kids@.len()
                &&& 0 <= j < kids@.len() ==> {
                    &&& entry.children->0[j].name == search::lowercase(kids@[j].name@)
                    &&& entry.children->0[j].readable == readable(kids@[j], context)
                }
            }
        }),
{
}

/// In the list of channels `G` selects the last row, or the first where there is none.
pub proof fn law_shift_g_in_channels(app: App, now: u64)
    requires
        app.state is SelectingChannel,
    ensures
        ({
            let rows = listing::rows(
                listing::entries_of(app.data.guilds.channels@, app.data.context),
                search::lowercase(app.data.input.search@),
            );
            let f = vim::press(app, 'G', now);
            &&& f == (Editor { selection: f.selection, ..editor::ready(app, now) })
            &&& rows.len() == 0 ==> f.selection == 0
            &&& rows.len() > 0 ==> f.selection + 1 == rows.len()
        }),
{
}

/// The last of several rows is one less than there are, and the first where there is none.
pub proof fn law_last_row(n: int)
    requires
        n >= 0,
    ensures
        n == 0 ==> listing::last_row(n) == 0,
        n > 0 ==> listing::last_row(n) + 1 == n,
{
}

/// A failure to load is told in the status line and nowhere else in the state.
pub proof fn law_only_status_is_told(before: App, after: App, status: Seq<char>)
    requires
        session::told(before, after, status),
    ensures
        after.data.status_message@ == status,
        after.client == before.client,
        after.state == before.state,
        after.tick_count == before.tick_count,
        after.is_loading == before.is_loading,
        after.data.current_user == before.data.current_user,
        after.data.guilds == before.data.guilds,
        after.data.dms == before.data.dms,
        after.data.input == before.data.input,
        after.data.selection_index == before.data.selection_index,
        after.data.cursor_position == before.data.cursor_position,
        after.data.vim == before.data.vim,
        after.data.logs == before.data.logs,
        after.data == (Data {
            status_message: after.data.status_message,
            ..before.data
        }),
{
}

/// A refused token is told by what the error holds: `401` sends the user to the token,
/// another answer to a request is told as it is, and anything else is a matter of the
/// connection.
pub proof fn law_refusals(error: Seq<char>)
    ensures
        stands_in(error, seq!['4', '0', '1']) ==> session::refusal(error)
            == "Please check your session token and try again."@,
        !stands_in(error, seq!['4', '0', '1']) && stands_in(error, "API GET request"@)
            ==> session::refusal(error) == error,
        !stands_in(error, seq!['4', '0', '1']) && !stands_in(error, "API GET request"@)
            ==> session::refusal(error)
            == "Could not connect to the server. Please check your internet connection."@,
{
    reveal_strlit("401");
    assert("401"@ =~= seq!['4', '0', '1']);
    law_occurring(error, "401"@);
    law_occurring(error, "API GET request"@);
}

/// Loading asks for the user, the guilds and the direct messages in turn, whatever came,
/// and says that it has ended behind the last of them only.
pub proof fn law_startup_order()
    ensures
        session::step_after(StartupStep::CurrentUser) == StartupStep::Guilds,
        session::step_after(StartupStep::Guilds) == StartupStep::DMs,
        session::step_after(StartupStep::DMs) == StartupStep::Finished,
        session::step_after(StartupStep::Finished) == StartupStep::Finished,
        session::announced(StartupStep::CurrentUser) is None,
        session::announced(StartupStep::Guilds) is None,
        session::announced(StartupStep::DMs) is None,
        session::announced(StartupStep::Finished) == Some(AppAction::EndLoading),
{
}

/// What came is made known by the action for it, with all of it.
pub proof fn law_replies_are_made_known(reply: LoadReply)
    ensures
        match reply {
            LoadReply::CurrentUser(Ok(user)) => session::reply_action(reply) == Some(
                AppAction::ApiUpdateCurrentUser(user),
            ),
            LoadReply::Guilds(Ok(guilds)) => session::reply_action(reply) == Some(
                AppAction::ApiUpdateGuilds(guilds),
            ),
            LoadReply::DMs(Ok(dms)) => session::reply_action(reply) == Some(
                AppAction::ApiUpdateDMs(dms),
            ),
            LoadReply::CurrentUser(Err(_)) | LoadReply::Guilds(Err(_)) | LoadReply::DMs(
                Err(_),
            ) => session::reply_action(reply) is None,
        },
{
}

/// An action that could not be sent is named in the log.
pub proof fn law_unsent_actions()
    ensures
        session::unsent_front(StartupStep::CurrentUser)
            == "Failed to send current user update action: "@,
        session::unsent_front(StartupStep::Guilds) == "Failed to send guild update action: "@,
        session::unsent_front(StartupStep::DMs) == "Failed to send DM update action: "@,
{
}

/// Vim mode is asked for by an argument that is `--vim`, and by no other.
pub proof fn law_vim_flag(args: Seq<String>)
    ensures
        app::asks_for_vim(args) <==> exists|k: int|
            0 <= k < args.len() && #[trigger] args[k]@ == seq!['-', '-', 'v', 'i', 'm'],
{
    reveal_strlit("--vim");
    assert("--vim"@ =~= seq!['-', '-', 'v', 'i', 'm']);
}

/// A fresh vim state has nothing waiting, selected or yanked, and the time that it was
/// set up at.
pub proof fn law_fresh_vim_state(vim: VimState, now: u64)
    requires
        vim.is_fresh(now),
    ensures
        vim.operator is None,
        vim.pending_keys@.len() == 0,
        vim.last_action_time == now,
        vim.visual_start is None,
        vim.yank_buffer@.len() == 0,
{
}

/// What a session starts with is empty, but for what it is given.
pub proof fn law_empty_data(data: Data)
    requires
        data.is_empty(),
    ensures
        data.current_user is None,
        data.guilds.selected is None,
        data.guilds.members@.len() == 0,
        data.guilds.channels@.len() == 0,
        data.guilds.messages@.len() == 0,
        data.guilds.custom_emojis@.len() == 0,
        data.guilds.joined@.len() == 0,
        data.dms.channels@.len() == 0,
        data.dms.user_names@.dom() =~= Set::empty(),
        data.dms.user_statuses@.dom() =~= Set::empty(),
        data.dms.user_status_texts@.dom() =~= Set::empty(),
        data.input.buffer@.len() == 0,
        data.input.saved is None,
        data.input.search@.len() == 0,
        data.input.mode is Normal,
        data.status_message@.len() == 0,
        data.terminal_dimensions.0 == 0,
        data.terminal_dimensions.1 == 0,
        data.selection_index == 0,
        data.scroll_offset == 0,
        data.cursor_position == 0,
        data.context is None,
        data.logs@.len() == 0,
        forall|id: String| !data.deleted_message_ids@.contains(id),
{
}

/// The list of channels reads its entries field by field.
pub proof fn law_entry_views(all: Seq<ChannelEntry>, i: int, j: int)
    requires
        0 <= i < all.len(),
    ensures
        listing::entries(all).len() == all.len(),
        listing::entries(all)[i].leaf.name == all[i].leaf.name@,
        listing::entries(all)[i].leaf.readable == all[i].leaf.readable,
        listing::entries(all)[i].category == all[i].category,
        listing::entries(all)[i].children is Some <==> all[i].children is Some,
        all[i].children matches Some(kids) ==> {
            &&& listing::entries(all)[i].children->0.len() == kids@.len()
            &&& 0 <= j < kids@.len() ==> {
                &&& listing::entries(all)[i].children->0[j].name == kids@[j].name@
                &&& listing::entries(all)[i].children->0[j].readable == kids@[j].readable
            }
        },
{
}

/// A channel that is no category shows by itself where the user may read it and its name
/// holds the search text.
pub proof fn law_leaf_shows(leaf: Leaf, filter: Seq<char>)
    ensures
        listing::shows(leaf, filter) == (leaf.readable && stands_in(leaf.name, filter)),
{
    law_occurring(leaf.name, filter);
}

/// Names are listed by their characters.
pub proof fn law_texts(names: Seq<String>, k: int)
    requires
        0 <= k < names.len(),
    ensures
        listing::texts(names).len() == names.len(),
        listing::texts(names)[k] == names[k]@,
{
}

} // verus!
