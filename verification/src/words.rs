//! What tells the words of frames, events and commands apart: their lengths, or a
//! letter.
use vstd::prelude::*;

verus! {

/// The names of members differ.
pub proof fn keys_differ()
    ensures
        "t"@.len() == 1,
        "to"@.len() == 2 && "to"@[0] == 't',
        "from"@.len() == 4 && "from"@[0] == 'f',
        "from_username"@.len() == 13,
        "action"@.len() == 6 && "action"@[0] == 'a' && "action"@[1] == 'c',
        "title"@.len() == 5 && "title"@[0] == 't',
        "body"@.len() == 4 && "body"@[0] == 'b',
        "data"@.len() == 4 && "data"@[0] == 'd',
        "id"@.len() == 2 && "id"@[0] == 'i',
        "username"@.len() == 8 && "username"@[0] == 'u',
        "status"@.len() == 6 && "status"@[0] == 's',
        "online"@.len() == 6 && "online"@[0] == 'o',
        "presence"@.len() == 8 && "presence"@[0] == 'p' && "presence"@[1] == 'r',
        "friends"@.len() == 7 && "friends"@[0] == 'f',
        "perms"@.len() == 5 && "perms"@[0] == 'p',
        "friend_id"@.len() == 9 && "friend_id"@[0] == 'f',
        "allowed"@.len() == 7 && "allowed"@[0] == 'a',
        "by"@.len() == 2 && "by"@[0] == 'b',
        "state"@.len() == 5 && "state"@[0] == 's',
        "reply"@.len() == 5 && "reply"@[0] == 'r',
        "ok"@.len() == 2 && "ok"@[0] == 'o',
        "error"@.len() == 5 && "error"@[0] == 'e',
        "already_running"@.len() == 15,
        "cmd"@.len() == 3 && "cmd"@[0] == 'c',
        "ident"@.len() == 5 && "ident"@[0] == 'i',
        "friend"@.len() == 6 && "friend"@[0] == 'f',
        "label"@.len() == 5 && "label"@[0] == 'l',
        "buttons"@.len() == 7 && "buttons"@[0] == 'b',
        "url"@.len() == 3 && "url"@[0] == 'u',
        "plugin"@.len() == 6 && "plugin"@[0] == 'p',
        "args"@.len() == 4 && "args"@[0] == 'a',
        "name"@.len() == 4 && "name"@[0] == 'n',
        "version"@.len() == 7 && "version"@[0] == 'v',
        "author"@.len() == 6 && "author"@[0] == 'a' && "author"@[1] == 'u',
        "description"@.len() == 11,
        "payload"@.len() == 7 && "payload"@[0] == 'p',
        "kind"@.len() == 4 && "kind"@[0] == 'k',
        "type"@.len() == 4 && "type"@[0] == 't',
        "sdp"@.len() == 3 && "sdp"@[0] == 's',
        "candidate"@.len() == 9 && "candidate"@[0] == 'c',
        "mandatory"@.len() == 9 && "mandatory"@[0] == 'm',
        "current"@.len() == 7 && "current"@[0] == 'c',
        "latest"@.len() == 6 && "latest"@[0] == 'l',
        "notify_sound"@.len() == 12 && "notify_sound"@[0] == 'n',
        "user_id"@.len() == 7 && "user_id"@[0] == 'u',
        "notify_auto_dismiss"@.len() == 19,
        "notify_auto_dismiss_ms"@.len() == 22,
        "notify_show_list"@.len() == 16,
        "me"@.len() == 2 && "me"@[0] == 'm',
        "config"@.len() == 6 && "config"@[0] == 'c',
        "server_url"@.len() == 10,
        "dir"@.len() == 3 && "dir"@[0] == 'd',
        "capabilities"@.len() == 12 && "capabilities"@[0] == 'c',
        "headers"@.len() == 7 && "headers"@[0] == 'h',
        "password"@.len() == 8 && "password"@[0] == 'p' && "password"@[1] == 'a',
{
    reveal_strlit("t");
    reveal_strlit("to");
    reveal_strlit("from");
    reveal_strlit("from_username");
    reveal_strlit("action");
    reveal_strlit("title");
    reveal_strlit("body");
    reveal_strlit("data");
    reveal_strlit("id");
    reveal_strlit("username");
    reveal_strlit("status");
    reveal_strlit("online");
    reveal_strlit("presence");
    reveal_strlit("friends");
    reveal_strlit("perms");
    reveal_strlit("friend_id");
    reveal_strlit("allowed");
    reveal_strlit("by");
    reveal_strlit("state");
    reveal_strlit("reply");
    reveal_strlit("ok");
    reveal_strlit("error");
    reveal_strlit("already_running");
    reveal_strlit("cmd");
    reveal_strlit("ident");
    reveal_strlit("friend");
    reveal_strlit("label");
    reveal_strlit("buttons");
    reveal_strlit("url");
    reveal_strlit("plugin");
    reveal_strlit("args");
    reveal_strlit("name");
    reveal_strlit("version");
    reveal_strlit("author");
    reveal_strlit("description");
    reveal_strlit("payload");
    reveal_strlit("kind");
    reveal_strlit("type");
    reveal_strlit("sdp");
    reveal_strlit("candidate");
    reveal_strlit("mandatory");
    reveal_strlit("current");
    reveal_strlit("latest");
    reveal_strlit("notify_sound");
    reveal_strlit("user_id");
    reveal_strlit("notify_auto_dismiss");
    reveal_strlit("notify_auto_dismiss_ms");
    reveal_strlit("notify_show_list");
    reveal_strlit("me");
    reveal_strlit("config");
    reveal_strlit("server_url");
    reveal_strlit("dir");
    reveal_strlit("capabilities");
    reveal_strlit("headers");
    reveal_strlit("password");
}

/// The words for kinds of actions and of events differ.
pub proof fn kinds_differ()
    ensures
        "message"@.len() == 7 && "message"@[0] == 'm',
        "game_invite"@.len() == 11,
        "ptt"@.len() == 3,
        "plugin"@.len() == 6 && "plugin"@[0] == 'p',
        "custom"@.len() == 6 && "custom"@[0] == 'c' && "custom"@[1] == 'u',
        "hello"@.len() == 5 && "hello"@[0] == 'h',
        "config"@.len() == 6 && "config"@[0] == 'c' && "config"@[1] == 'o',
        "friends"@.len() == 7 && "friends"@[0] == 'f',
        "presence"@.len() == 8,
        "action"@.len() == 6 && "action"@[0] == 'a',
        "perm_changed"@.len() == 12,
        "friend_request"@.len() == 14,
        "update"@.len() == 6 && "update"@[0] == 'u',
        "focus"@.len() == 5 && "focus"@[0] == 'f',
        "server"@.len() == 6 && "server"@[0] == 's',
{
    reveal_strlit("message");
    reveal_strlit("game_invite");
    reveal_strlit("ptt");
    reveal_strlit("plugin");
    reveal_strlit("custom");
    reveal_strlit("hello");
    reveal_strlit("config");
    reveal_strlit("friends");
    reveal_strlit("presence");
    reveal_strlit("action");
    reveal_strlit("perm_changed");
    reveal_strlit("friend_request");
    reveal_strlit("update");
    reveal_strlit("focus");
    reveal_strlit("server");
}

/// The tags of frames differ.
pub proof fn tags_differ()
    ensures
        "friend_add"@.len() == 10,
        "friend_accept"@.len() == 13 && "friend_accept"@[7] == 'a',
        "friend_remove"@.len() == 13 && "friend_remove"@[7] == 'r',
        "friend_list"@.len() == 11 && "friend_list"@[0] == 'f',
        "perm_update"@.len() == 11 && "perm_update"@[0] == 'p',
        "perm_list"@.len() == 9,
        "signal"@.len() == 6,
        "send_action"@.len() == 11 && "send_action"@[0] == 's',
        "set_presence"@.len() == 12,
{
    reveal_strlit("friend_add");
    reveal_strlit("friend_accept");
    reveal_strlit("friend_remove");
    reveal_strlit("friend_list");
    reveal_strlit("perm_update");
    reveal_strlit("perm_list");
    reveal_strlit("signal");
    reveal_strlit("send_action");
    reveal_strlit("set_presence");
}

/// The words of the commands of the local socket differ.
pub proof fn commands_differ()
    ensures
        "send-action"@.len() == 11 && "send-action"@[0] == 's' && "send-action"@[2] == 'n',
        "friend-list"@.len() == 11 && "friend-list"@[0] == 'f',
        "friend-add"@.len() == 10,
        "friend-accept"@.len() == 13 && "friend-accept"@[7] == 'a',
        "friend-remove"@.len() == 13 && "friend-remove"@[7] == 'r',
        "perm-list"@.len() == 9 && "perm-list"@[1] == 'e',
        "perm-set"@.len() == 8 && "perm-set"@[1] == 'e',
        "resolve-friend"@.len() == 14 && "resolve-friend"@[0] == 'r',
        "ptt-start"@.len() == 9 && "ptt-start"@[1] == 't',
        "friend-state"@.len() == 12 && "friend-state"@[0] == 'f',
        "set-presence"@.len() == 12 && "set-presence"@[0] == 's',
        "set-ptt-friend"@.len() == 14 && "set-ptt-friend"@[0] == 's',
        "ptt-stop"@.len() == 8 && "ptt-stop"@[1] == 't',
        "self-update"@.len() == 11 && "self-update"@[0] == 's' && "self-update"@[2] == 'l',
{
    reveal_strlit("send-action");
    reveal_strlit("friend-list");
    reveal_strlit("friend-add");
    reveal_strlit("friend-accept");
    reveal_strlit("friend-remove");
    reveal_strlit("perm-list");
    reveal_strlit("perm-set");
    reveal_strlit("resolve-friend");
    reveal_strlit("ptt-start");
    reveal_strlit("friend-state");
    reveal_strlit("set-presence");
    reveal_strlit("set-ptt-friend");
    reveal_strlit("ptt-stop");
    reveal_strlit("self-update");
}

/// The words for presences and for states of friends differ.
pub proof fn states_differ()
    ensures
        "online"@.len() == 6,
        "dnd"@.len() == 3,
        "offline"@.len() == 7,
        "invisible"@.len() == 9,
        "do-not-disturb"@.len() == 14 && "do-not-disturb"@[0] == 'd' && "do-not-disturb"@[2] == '-',
        "donotdisturb"@.len() == 12,
        "do_not_disturb"@.len() == 14 && "do_not_disturb"@[0] == 'd' && "do_not_disturb"@[2] == '_',
        "appear-offline"@.len() == 14 && "appear-offline"@[0] == 'a',
        "accepted"@.len() == 8,
        "pending_in"@.len() == 10,
        "pending_out"@.len() == 11,
        ""@.len() == 0,
{
    reveal_strlit("online");
    reveal_strlit("dnd");
    reveal_strlit("offline");
    reveal_strlit("invisible");
    reveal_strlit("do-not-disturb");
    reveal_strlit("donotdisturb");
    reveal_strlit("do_not_disturb");
    reveal_strlit("appear-offline");
    reveal_strlit("accepted");
    reveal_strlit("pending_in");
    reveal_strlit("pending_out");
    reveal_strlit("");
}

} // verus!
