//! Friends and permissions: finding them, listing them, asking for them.
use vstd::prelude::*;

#[allow(unused_imports)]
use crate::config::opt_view;
#[allow(unused_imports)]
use crate::friends::{
    bare_request, find_step, friend_frame_of, friend_line, friend_lines, friend_reply_of,
    friend_request_of, friend_step, hello_step, is_hit, is_uuid, label_of, list_heard, named, obstacle,
    perm_frame_of, perm_line, perm_lines, perm_reply_of, perm_request_of, perm_step, presence_label, reached, resolve_answer,
    resolve_heard, resolve_request_of, resolved, search_lines, send_outcome, send_request_of, send_step, sent_line,
    server_complaint, short_line, short_lines, short_perm_lines, state_request_of, user_request,
    with_id, FlowView, FriendCmd, Heard, PermCmd,
};
#[allow(unused_imports)]
use crate::json::{empty_obj, opt_text, JsonView};
#[allow(unused_imports)]
use crate::protocol::{
    action_frame, friend_tree, friends_tree, kind_word, perm_frame, perm_tree, perms_tree,
    presence_frame, signal_frame, tag_frame, user_frame, ActionKind, ClientMsg, Friend, Perm,
    ServerMsg,
};
#[allow(unused_imports)]
use crate::text::{found_at, lowercase, occurs};
#[allow(unused_imports)]
use crate::words::{commands_differ, keys_differ, kinds_differ, states_differ, tags_differ};

verus! {

// ---- frames to the server ----

/// Every kind of action has the word of the wire that it has.
pub proof fn kinds_have_their_words(k: ActionKind)
    ensures
        k == ActionKind::Message <==> kind_word(k) == "message"@,
        k == ActionKind::GameInvite <==> kind_word(k) == "game_invite"@,
        k == ActionKind::Ptt <==> kind_word(k) == "ptt"@,
        k == ActionKind::Custom <==> kind_word(k) == "custom"@,
        k == ActionKind::Plugin <==> kind_word(k) == "plugin"@,
{
    kinds_differ();
}

/// A message to the server says what it is and carries what it was given, member
/// by member.
pub proof fn messages_say_what_they_are(msg: ClientMsg)
    ensures
        msg matches ClientMsg::FriendAdd { username } ==> msg@.text_member("t"@) == Some(
            "friend_add"@,
        ) && msg@.text_member("username"@) == Some(username@),
        msg matches ClientMsg::FriendAccept { username } ==> msg@.text_member("t"@) == Some(
            "friend_accept"@,
        ) && msg@.text_member("username"@) == Some(username@),
        msg matches ClientMsg::FriendRemove { username } ==> msg@.text_member("t"@) == Some(
            "friend_remove"@,
        ) && msg@.text_member("username"@) == Some(username@),
        msg is FriendList ==> msg@.text_member("t"@) == Some("friend_list"@),
        msg is PermList ==> msg@.text_member("t"@) == Some("perm_list"@),
        msg matches ClientMsg::PermUpdate { friend_id, action, allowed } ==> msg@.text_member("t"@)
            == Some("perm_update"@) && msg@.text_member("friend_id"@) == Some(friend_id@)
            && msg@.text_member("action"@) == Some(kind_word(action)) && msg@.get("allowed"@)
            == Some(JsonView::Bool(allowed)),
        msg matches ClientMsg::Signal { to, payload } ==> msg@.text_member("t"@) == Some("signal"@)
            && msg@.text_member("to"@) == Some(to@) && msg@.get("payload"@) == Some(payload@),
        msg matches ClientMsg::SendAction { to, action, title, body, data } ==> msg@.text_member(
            "t"@,
        ) == Some("send_action"@) && msg@.text_member("to"@) == Some(to@) && msg@.text_member(
            "action"@,
        ) == Some(kind_word(action)) && msg@.text_member("title"@) == Some(title@)
            && msg@.text_member("body"@) == Some(body@) && msg@.get("data"@) == Some(data@),
        msg matches ClientMsg::SetPresence { state } ==> msg@.text_member("t"@) == Some(
            "set_presence"@,
        ) && msg@.text_member("state"@) == Some(state@),
{
    keys_differ();
}

/// What is asked of the daemon about friends, permissions and actions says what it
/// is and carries what was typed.
pub proof fn requests_say_what_they_are(
    username: String,
    friend_id: String,
    action: ActionKind,
    allowed: bool,
    to: Seq<char>,
    title: Seq<char>,
    body: Seq<char>,
    data: JsonView,
)
    ensures
        friend_request_of(FriendCmd::Add { username }).text_member("cmd"@) == Some("friend-add"@),
        friend_request_of(FriendCmd::Add { username }).text_member("username"@) == Some(username@),
        friend_request_of(FriendCmd::Accept { username }).text_member("cmd"@) == Some(
            "friend-accept"@,
        ),
        friend_request_of(FriendCmd::Accept { username }).text_member("username"@) == Some(
            username@,
        ),
        friend_request_of(FriendCmd::Remove { username }).text_member("cmd"@) == Some(
            "friend-remove"@,
        ),
        friend_request_of(FriendCmd::Remove { username }).text_member("username"@) == Some(
            username@,
        ),
        friend_request_of(FriendCmd::List).text_member("cmd"@) == Some("friend-list"@),
        friend_request_of(FriendCmd::Find { query: username }).text_member("cmd"@) == Some(
            "friend-list"@,
        ),
        friend_frame_of(FriendCmd::Add { username }).text_member("t"@) == Some("friend_add"@),
        friend_frame_of(FriendCmd::Accept { username }).text_member("t"@) == Some(
            "friend_accept"@,
        ),
        friend_frame_of(FriendCmd::Remove { username }).text_member("t"@) == Some(
            "friend_remove"@,
        ),
        friend_frame_of(FriendCmd::Add { username }).text_member("username"@) == Some(username@),
        friend_frame_of(FriendCmd::Accept { username }).text_member("username"@) == Some(username@),
        friend_frame_of(FriendCmd::Remove { username }).text_member("username"@) == Some(username@),
        friend_frame_of(FriendCmd::List).text_member("t"@) == Some("friend_list"@),
        perm_request_of(PermCmd::List).text_member("cmd"@) == Some("perm-list"@),
        perm_request_of(PermCmd::Update { friend_id, action, allowed }).text_member("cmd"@)
            == Some("perm-set"@),
        perm_request_of(PermCmd::Update { friend_id, action, allowed }).text_member("friend_id"@)
            == Some(friend_id@),
        perm_request_of(PermCmd::Update { friend_id, action, allowed }).text_member("action"@)
            == Some(kind_word(action)),
        perm_request_of(PermCmd::Update { friend_id, action, allowed }).get("allowed"@) == Some(
            JsonView::Bool(allowed),
        ),
        send_request_of(to, kind_word(action), title, body, data).text_member("cmd"@) == Some(
            "send-action"@,
        ),
        send_request_of(to, kind_word(action), title, body, data).text_member("to"@) == Some(to),
        send_request_of(to, kind_word(action), title, body, data).text_member("action"@) == Some(
            kind_word(action),
        ),
        send_request_of(to, kind_word(action), title, body, data).text_member("title"@) == Some(
            title,
        ),
        send_request_of(to, kind_word(action), title, body, data).text_member("body"@) == Some(
            body,
        ),
        send_request_of(to, kind_word(action), title, body, data).get("data"@) == Some(data),
        state_request_of(to).text_member("cmd"@) == Some("friend-state"@),
        state_request_of(to).text_member("friend_id"@) == Some(to),
        resolve_request_of(to).text_member("cmd"@) == Some("resolve-friend"@),
        resolve_request_of(to).text_member("ident"@) == Some(to),
{
    keys_differ();
}

// ---- finding a friend ----

/// The friend who alone has a username is the one that it stands for, by their id;
/// an id stands for itself, and a word that is neither for nobody.
pub proof fn usernames_stand_for_their_friends(friends: Seq<Friend>, i: int, word: Seq<char>)
    requires
        0 <= i < friends.len(),
        forall|k: int|
            0 <= k < friends.len() && k != i ==> (#[trigger] friends[k]).username@
                != friends[i].username@,
    ensures
        !is_uuid(friends[i].username@) ==> resolved(friends, friends[i].username@) == Some(
            friends[i].id@,
        ),
        is_uuid(word) ==> resolved(friends, word) == Some(word),
        !is_uuid(word) && (forall|k: int|
            0 <= k < friends.len() ==> (#[trigger] friends[k]).username@ != word) ==> resolved(
            friends,
            word,
        ) is None,
{
    crate::friends::found_friends_are_listed(friends, friends[i].username@);
    crate::friends::found_friends_are_listed(friends, word);
    if let Some(f) = named(friends, friends[i].username@) {
        let k = choose|k: int| 0 <= k < friends.len() && friends[k] == f;
        assert(friends[k].username@ == friends[i].username@);
    }
    if let Some(f) = named(friends, word) {
        let k = choose|k: int| 0 <= k < friends.len() && friends[k] == f;
        assert(friends[k].username@ == word);
    }
}

/// A friend who alone has an id goes by their username; a stranger goes by the id.
pub proof fn friends_go_by_their_username(friends: Seq<Friend>, i: int, id: Seq<char>)
    requires
        0 <= i < friends.len(),
        forall|k: int|
            0 <= k < friends.len() && k != i ==> (#[trigger] friends[k]).id@ != friends[i].id@,
    ensures
        label_of(friends, friends[i].id@) == friends[i].username@,
        (forall|k: int| 0 <= k < friends.len() ==> (#[trigger] friends[k]).id@ != id) ==> label_of(
            friends,
            id,
        ) == id,
{
    crate::friends::found_friends_are_listed(friends, friends[i].id@);
    crate::friends::found_friends_are_listed(friends, id);
    if let Some(f) = with_id(friends, friends[i].id@) {
        let k = choose|k: int| 0 <= k < friends.len() && friends[k] == f;
        assert(friends[k].id@ == friends[i].id@);
    }
    if let Some(f) = with_id(friends, id) {
        let k = choose|k: int| 0 <= k < friends.len() && friends[k] == f;
        assert(friends[k].id@ == id);
    }
}

/// Why an action would not arrive is said by the state that stands in its way,
/// under the friend's username.
pub proof fn obstacles_are_named(friend_id: Seq<char>, kind: Seq<char>, state: JsonView, u: Seq<char>)
    requires
        state.text_member("username"@) == Some(u),
    ensures
        state.text_member("status"@) == Some("pending_out"@) ==> obstacle(friend_id, kind, state)
            == Some(u + " hasn't accepted your friend request yet"@),
        state.text_member("status"@) == Some("pending_in"@) ==> obstacle(friend_id, kind, state)
            == Some(u + " sent you a request — accept it first with `friend accept "@ + u + "`"@),
        state.text_member("status"@) is None ==> obstacle(friend_id, kind, state) == Some(
            "you're not friends with "@ + u,
        ),
        state.text_member("status"@) == Some("accepted"@) && state.get("online"@) != Some(
            JsonView::Bool(true),
        ) ==> obstacle(friend_id, kind, state) == Some(u + " is offline"@),
        state.text_member("status"@) == Some("accepted"@) && state.get("online"@) == Some(
            JsonView::Bool(true),
        ) && state.text_member("presence"@) == Some("dnd"@) ==> obstacle(friend_id, kind, state)
            == Some(u + " is in Do Not Disturb — your "@ + kind + " would be dropped"@),
        state.text_member("status"@) == Some("accepted"@) && state.get("online"@) == Some(
            JsonView::Bool(true),
        ) && state.text_member("presence"@) != Some("dnd"@) ==> obstacle(friend_id, kind, state)
            is None,
{
    states_differ();
}

// ---- permissions ----

/// The line of a permission starts with `allow ` exactly where it is allowed and
/// with `block ` exactly where it is not, and then says what and whom. So the lines
/// of two permissions that differ only in that differ.
pub proof fn permissions_are_listed_as_they_are(
    allowed: bool,
    action: Seq<char>,
    friend_id: Seq<char>,
)
    ensures
        perm_line(allowed, action, friend_id).take(6) == "allow "@ <==> allowed,
        perm_line(allowed, action, friend_id).take(6) == "block "@ <==> !allowed,
        perm_line(allowed, action, friend_id).skip(6) == action + " "@ + friend_id,
        perm_line(true, action, friend_id) != perm_line(false, action, friend_id),
{
    reveal_strlit("allow");
    reveal_strlit("block");
    reveal_strlit(" ");
    reveal_strlit("allow ");
    reveal_strlit("block ");
    let line = perm_line(allowed, action, friend_id);
    assert("allow "@[0] == 'a' && "block "@[0] == 'b');
    if allowed {
        assert(line.take(6) =~= "allow "@);
    } else {
        assert(line.take(6) =~= "block "@);
    }
    assert(line.skip(6) =~= action + " "@ + friend_id);
    assert(perm_line(true, action, friend_id)[0] == 'a');
    assert(perm_line(false, action, friend_id)[0] == 'b');
}

/// A permission list has one line for each entry, in its order, whether the daemon
/// or the server gives it; an empty one says what that means.
pub proof fn permission_lists_are_whole(reply: JsonView, perms: Vec<Perm>, i: int)
    requires
        reply.text_member("error"@) is None,
        reply.get("perms"@) == Some(perms_tree(perms@)),
        0 <= i < perms@.len(),
    ensures
        perm_reply_of(true, reply) is Ok,
        perm_reply_of(true, reply)->Ok_0.len() == perms@.len(),
        perm_reply_of(true, reply)->Ok_0[i].take(6) == (if perms@[i].allowed {
            "allow "@
        } else {
            "block "@
        }),
        perm_reply_of(true, reply)->Ok_0[i].skip(6) == perms@[i].action@ + " "@
            + perms@[i].friend_id@,
        perm_step(Heard::Said(ServerMsg::Perms { perms })) == FlowView::Done(
            perm_reply_of(true, reply)->Ok_0,
        ),
{
    keys_differ();
    let items = reply.items_of("perms"@);
    assert(items.len() == perms@.len());
    assert(items[i] == perm_tree(perms@[i]));
    permissions_are_listed_as_they_are(perms@[i].allowed, perms@[i].action@, perms@[i].friend_id@);
    assert forall|k: int| 0 <= k < perms@.len() implies perm_lines(items)[k]
        == short_perm_lines(perms@)[k] by {
        assert(items[k] == perm_tree(perms@[k]));
    }
    assert(perm_lines(items) =~= short_perm_lines(perms@));
}

// ---- the friend list ----

/// The line of a friend shows who they are and how: the label of one who is not
/// online says offline, whatever they report; of one who is, it says Do Not
/// Disturb exactly where they report that.
pub proof fn friends_are_listed_as_they_are(f: Friend)
    ensures
        friend_line(friend_tree(f)) == "["@ + (if !f.online {
            "offline       "@
        } else if opt_view(f.presence) == Some("dnd"@) {
            "do not disturb"@
        } else {
            "online        "@
        }) + "] ["@ + f.status@ + "] "@ + f.username@ + " — "@ + f.id@,
        short_line(f) == (if f.online {
            "* ["@
        } else {
            "  ["@
        }) + f.status@ + "] "@ + f.username@ + " — "@ + f.id@,
{
    keys_differ();
    states_differ();
    reveal_strlit("*");
    reveal_strlit(" ");
    reveal_strlit(" [");
    reveal_strlit("* [");
    reveal_strlit("  [");
    assert("*"@ + " ["@ =~= "* ["@);
    assert(" "@ + " ["@ =~= "  ["@);
}

/// A friend list has one line for each friend, in its order.
pub proof fn friend_lists_are_whole(reply: JsonView, friends: Vec<Friend>, i: int)
    requires
        reply.text_member("error"@) is None,
        reply.get("friends"@) == Some(friends_tree(friends@)),
        0 <= i < friends@.len(),
    ensures
        friend_reply_of(true, reply) is Ok,
        friend_reply_of(true, reply)->Ok_0.len() == friends@.len(),
        friend_reply_of(true, reply)->Ok_0[i] == friend_line(friend_tree(friends@[i])),
        friend_step(Heard::Said(ServerMsg::Friends { friends })) is Done,
        friend_step(Heard::Said(ServerMsg::Friends { friends }))->Done_0.len() == friends@.len(),
        friend_step(Heard::Said(ServerMsg::Friends { friends }))->Done_0[i] == short_line(
            friends@[i],
        ),
{
    let fs = reply.items_of("friends"@);
    assert(fs =~= friends_tree(friends@)->Arr_0);
    lemma_keep_all(fs);
    assert(fs[i] == friend_tree(friends@[i]));
}

/// Keeping every friend keeps the list.
proof fn lemma_keep_all(fs: Seq<JsonView>)
    ensures
        fs.filter(|f: JsonView| true) == fs,
    decreases fs.len(),
{
    reveal(Seq::filter);
    if fs.len() > 0 {
        lemma_keep_all(fs.drop_last());
        assert(fs.drop_last().push(fs.last()) =~= fs);
    }
}

/// What is not a list is said in a word: done, or the server's complaint.
pub proof fn changes_are_confirmed_or_refused(reply: JsonView, want_list: bool, e: Seq<char>)
    ensures
        reply.text_member("error"@) == Some(e) ==> friend_reply_of(want_list, reply) == Err::<
            Seq<Seq<char>>,
            Seq<char>,
        >("server: "@ + e) && perm_reply_of(want_list, reply) == Err::<Seq<Seq<char>>, Seq<char>>(
            "server: "@ + e,
        ),
        reply.text_member("error"@) is None ==> friend_reply_of(false, reply) == Ok::<
            Seq<Seq<char>>,
            Seq<char>,
        >(seq!["ok"@]) && perm_reply_of(false, reply) == Ok::<Seq<Seq<char>>, Seq<char>>(
            seq!["ok"@],
        ),
        reply.text_member("error"@) is None && reply.items_of("friends"@).len() == 0
            ==> friend_reply_of(true, reply) == Ok::<Seq<Seq<char>>, Seq<char>>(
            seq!["(no friends)"@],
        ),
        reply.text_member("error"@) is None && reply.items_of("perms"@).len() == 0
            ==> perm_reply_of(true, reply) == Ok::<Seq<Seq<char>>, Seq<char>>(
            seq!["(defaults: all friends allowed for all actions)"@],
        ),
{
}

/// A command that talks to the server itself: silence is success, a complaint is a
/// failure in the server's words, and what is not meant for it is passed over.
pub proof fn silence_is_success(
    message: String,
    friend: Seq<char>,
    title: Seq<char>,
    body: Seq<char>,
    query: Seq<char>,
    ident: Seq<char>,
)
    ensures
        friend_step(Heard::Timeout) == FlowView::Done(seq!["ok"@]),
        perm_step(Heard::Timeout) == FlowView::Done(seq!["ok"@]),
        send_step(friend, title, body, Heard::Timeout) == FlowView::Done(
            seq!["→ "@ + friend + ": "@ + title + " — "@ + body],
        ),
        friend_step(Heard::Said(ServerMsg::Error { message })) == FlowView::Fail(
            "server: "@ + message@,
        ),
        perm_step(Heard::Said(ServerMsg::Error { message })) == FlowView::Fail(
            "server: "@ + message@,
        ),
        send_step(friend, title, body, Heard::Said(ServerMsg::Error { message }))
            == FlowView::Fail("server: "@ + message@),
        resolve_heard(ident, Heard::Said(ServerMsg::Error { message })) == Some(
            Err::<Seq<char>, Seq<char>>("server: "@ + message@),
        ),
        resolve_heard(ident, Heard::Closed) is Some,
        resolve_heard(ident, Heard::Closed)->0 is Err,
        hello_step(Heard::Timeout) is Fail,
        hello_step(Heard::Closed) is Fail,
        find_step(query, Heard::Timeout) == FlowView::Done(
            seq!["(no matches for `"@ + query + "`)"@],
        ),
{
    reveal(Seq::filter);
    let none = Seq::<JsonView>::empty();
    let keep = |f: JsonView| is_hit(f, query);
    assert(none.filter(keep) =~= none);
    assert(friend_lines(none, keep).len() == 0);
}

/// Only the greeting ends the wait for it, and what else the server says leaves
/// the others waiting too.
pub proof fn only_what_is_meant_ends_a_wait(msg: ServerMsg, query: Seq<char>, ident: Seq<char>)
    ensures
        hello_step(Heard::Said(msg)) is Done <==> msg is HelloOk,
        hello_step(Heard::Said(msg)) is Wait <==> !(msg is HelloOk),
        friend_step(Heard::Said(msg)) is Wait <==> !(msg is Friends) && !(msg is Error),
        perm_step(Heard::Said(msg)) is Wait <==> !(msg is Perms) && !(msg is Error),
        find_step(query, Heard::Said(msg)) is Wait <==> !(msg is Friends),
        resolve_heard(ident, Heard::Said(msg)) is None <==> !(msg is Friends) && !(msg is Error),
{
}

/// A name that the server's list has stands for that friend's id; one that it has
/// not is refused with it. What the daemon answers is taken as it is.
pub proof fn names_are_looked_up(friends: Vec<Friend>, ident: Seq<char>, reply: JsonView)
    ensures
        resolve_heard(ident, Heard::Said(ServerMsg::Friends { friends })) == Some(
            match named(friends@, ident) {
                Some(f) => Ok::<Seq<char>, Seq<char>>(f.id@),
                None => Err::<Seq<char>, Seq<char>>("no friend named "@ + ident),
            },
        ),
        reply.text_member("id"@) is Some ==> resolve_answer(reply) == Some(
            Ok::<Seq<char>, Seq<char>>(reply.text_member("id"@)->0),
        ),
        reply.text_member("id"@) is None && reply.text_member("error"@) is Some ==> resolve_answer(
            reply,
        ) == Some(Err::<Seq<char>, Seq<char>>(reply.text_member("error"@)->0)),
        reply.text_member("id"@) is None && reply.text_member("error"@) is None ==> resolve_answer(
            reply,
        ) is None,
{
}

/// Without a hit nobody is kept.
proof fn lemma_keep_none(fs: Seq<JsonView>, query: Seq<char>)
    requires
        forall|k: int| 0 <= k < fs.len() ==> !is_hit(#[trigger] fs[k], query),
    ensures
        fs.filter(|f: JsonView| is_hit(f, query)).len() == 0,
    decreases fs.len(),
{
    reveal(Seq::filter);
    if fs.len() > 0 {
        let front = fs.drop_last();
        assert forall|k: int| 0 <= k < front.len() implies !is_hit(#[trigger] front[k], query) by {
            assert(front[k] == fs[k]);
        }
        lemma_keep_none(front, query);
        assert(!is_hit(fs[fs.len() - 1], query));
    }
}

/// A search shows a friend exactly where the query is their whole id or stands in
/// their username, whatever the case; whoever is shown has their line of the list.
pub proof fn searches_show_the_hits(fs: Seq<JsonView>, query: Seq<char>, i: int)
    requires
        0 <= i < fs.len(),
    ensures
        is_hit(fs[i], query) <==> occurs(
            lowercase(fs[i].text_or("username"@, ""@)),
            lowercase(query),
        ) || fs[i].text_or("id"@, ""@) == query,
        is_hit(fs[i], query) ==> search_lines(fs, query).contains(friend_line(fs[i])),
        (forall|k: int| 0 <= k < fs.len() ==> !is_hit(#[trigger] fs[k], query)) ==> search_lines(
            fs,
            query,
        ) == seq!["(no matches for `"@ + query + "`)"@],
{
    let keep = |f: JsonView| is_hit(f, query);
    fs.filter_lemma(keep);
    let kept = fs.filter(keep);
    let lines = friend_lines(fs, keep);
    if is_hit(fs[i], query) {
        assert(keep(fs[i]));
        assert(kept.contains(fs[i]));
        let k = choose|k: int| 0 <= k < kept.len() && kept[k] == fs[i];
        assert(lines[k] == friend_line(fs[i]));
    }
    if forall|k: int| 0 <= k < fs.len() ==> !is_hit(#[trigger] fs[k], query) {
        lemma_keep_none(fs, query);
    }
}

/// An action that went out is said with whom it went to and what it was.
pub proof fn sent_actions_are_said(friend: Seq<char>, title: Seq<char>, body: Seq<char>)
    ensures
        sent_line(friend, title, body) == "→ "@ + friend + ": "@ + title + " — "@ + body,
{
}

/// An action that the daemon sent is said to whom and what; one that was objected
/// to is refused with the objection.
pub proof fn sent_actions_are_said_or_refused(
    friend: Seq<char>,
    title: Seq<char>,
    body: Seq<char>,
    reply: JsonView,
    e: Seq<char>,
)
    ensures
        reply.get("error"@) is None ==> send_outcome(friend, title, body, reply) == Ok::<
            Seq<char>,
            Seq<char>,
        >("→ "@ + friend + ": "@ + title + " — "@ + body),
        reply.get("error"@) == Some(JsonView::Str(e)) ==> send_outcome(friend, title, body, reply)
            == Err::<Seq<char>, Seq<char>>("server: "@ + e),
{
}

/// Without a daemon nothing is known to stand in the way; with one, what stands in
/// the way is named, and of whom.
pub proof fn what_is_in_the_way_is_told(
    friend_id: Seq<char>,
    kind: Seq<char>,
    state: JsonView,
    u: Seq<char>,
    r: Option<(String, String)>,
)
    ensures
        reached(friend_id, kind, None, r) ==> r is None,
        reached(friend_id, kind, Some(state), r) && state.text_member("username"@) == Some(u) ==> {
            &&& r is Some ==> (r->0).1@ == u && obstacle(friend_id, kind, state) == Some((r->0).0@)
            &&& state.text_member("status"@) == Some("accepted"@) && state.get("online"@) == Some(
                JsonView::Bool(true),
            ) && state.text_member("presence"@) != Some("dnd"@) ==> r is None
            &&& state.text_member("status"@) == Some("accepted"@) && state.get("online"@) != Some(
                JsonView::Bool(true),
            ) ==> r is Some && (r->0).0@ == u + " is offline"@
        },
{
    if state.text_member("username"@) == Some(u) {
        obstacles_are_named(friend_id, kind, state, u);
    }
}

/// The friend list that is waited for is the one that comes, whole; an objection
/// and the end of the connection end the wait in failure, and nothing else does.
pub proof fn friend_lists_are_waited_for(
    friends: Vec<Friend>,
    message: String,
    r: Option<Result<Vec<Friend>, String>>,
)
    ensures
        list_heard(Heard::Said(ServerMsg::Friends { friends }), r) ==> r is Some && r->0 is Ok
            && r->0->Ok_0 == friends,
        list_heard(Heard::Said(ServerMsg::Error { message }), r) ==> r is Some && r->0 is Err
            && r->0->Err_0@ == "server: "@ + message@,
        list_heard(Heard::Closed, r) ==> r is Some && r->0 is Err,
{
}

/// What a `perm` command sends without a daemon is what it says: whom, what and
/// whether.
pub proof fn permissions_are_sent_as_said(friend_id: String, action: ActionKind, allowed: bool)
    ensures
        ({
            let f = perm_frame_of(PermCmd::Update { friend_id, action, allowed });
            &&& f.text_member("t"@) == Some("perm_update"@)
            &&& f.text_member("friend_id"@) == Some(friend_id@)
            &&& f.text_member("action"@) == Some(kind_word(action))
            &&& f.get("allowed"@) == Some(JsonView::Bool(allowed))
        }),
        perm_frame_of(PermCmd::List).text_member("t"@) == Some("perm_list"@),
{
    keys_differ();
}

} // verus!
