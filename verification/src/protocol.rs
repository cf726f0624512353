//! The frames that go between a client and the signaling server.
use vstd::prelude::*;

#[allow(unused_imports)]
use crate::config::opt_view;
use crate::json::{Fields, Json};
#[allow(unused_imports)]
use crate::json::{opt_text, JsonView};

verus! {

/// The kinds of action that one friend can send another.
#[derive(Debug, Clone, Copy, PartialEq, Eq, Structural)]
pub enum ActionKind {
    Message,
    GameInvite,
    Ptt,
    Custom,
    Plugin,
}

/// The word for an action kind on the wire.
pub open spec fn kind_word(k: ActionKind) -> Seq<char> {
    match k {
        ActionKind::Message => "message"@,
        ActionKind::GameInvite => "game_invite"@,
        ActionKind::Ptt => "ptt"@,
        ActionKind::Custom => "custom"@,
        ActionKind::Plugin => "plugin"@,
    }
}

impl ActionKind {
    /// The word for the kind on the wire.
    pub fn as_str(&self) -> (r: &'static str)
        ensures
            r@ == kind_word(*self),
    {
        match self {
            ActionKind::Message => "message",
            ActionKind::GameInvite => "game_invite",
            ActionKind::Ptt => "ptt",
            ActionKind::Custom => "custom",
            ActionKind::Plugin => "plugin",
        }
    }
}

/// No two kinds have one word.
pub proof fn kind_words_differ(a: ActionKind, b: ActionKind)
    ensures
        kind_word(a) == kind_word(b) ==> a == b,
{
    reveal_strlit("message");
    reveal_strlit("game_invite");
    reveal_strlit("ptt");
    reveal_strlit("custom");
    reveal_strlit("plugin");
    assert("message"@[0] == 'm');
    assert("game_invite"@[0] == 'g');
    assert("ptt"@[1] == 't');
    assert("custom"@[0] == 'c');
    assert("plugin"@[0] == 'p');
    assert("plugin"@[1] == 'l');
    assert("ptt"@[0] == 'p');
}

/// What a client says to the server.
pub enum ClientMsg<'a> {
    FriendAdd { username: &'a str },
    FriendAccept { username: &'a str },
    FriendRemove { username: &'a str },
    FriendList,
    PermUpdate { friend_id: &'a str, action: ActionKind, allowed: bool },
    PermList,
    Signal { to: &'a str, payload: Json },
    SendAction { to: &'a str, action: ActionKind, title: &'a str, body: &'a str, data: Json },
    /// `"online"`, `"dnd"` or `"offline"`; the last one is invisible mode.
    SetPresence { state: &'a str },
}

// ---- frames to the server ----

/// A frame that is nothing but its tag.
pub open spec fn tag_frame(t: Seq<char>) -> JsonView {
    JsonView::Obj(map!["t"@ => JsonView::Str(t)])
}

/// A frame about a user.
pub open spec fn user_frame(t: Seq<char>, username: Seq<char>) -> JsonView {
    JsonView::Obj(map!["t"@ => JsonView::Str(t), "username"@ => JsonView::Str(username)])
}

/// The frame that allows or blocks an action of a friend.
pub open spec fn perm_frame(friend_id: Seq<char>, action: Seq<char>, allowed: bool) -> JsonView {
    JsonView::Obj(
        map![
            "t"@ => JsonView::Str("perm_update"@),
            "friend_id"@ => JsonView::Str(friend_id),
            "action"@ => JsonView::Str(action),
            "allowed"@ => JsonView::Bool(allowed),
        ],
    )
}

/// The frame that carries WebRTC negotiation to a friend.
pub open spec fn signal_frame(to: Seq<char>, payload: JsonView) -> JsonView {
    JsonView::Obj(
        map![
            "t"@ => JsonView::Str("signal"@),
            "to"@ => JsonView::Str(to),
            "payload"@ => payload,
        ],
    )
}

/// The frame that sends a friend an action.
pub open spec fn action_frame(
    to: Seq<char>,
    action: Seq<char>,
    title: Seq<char>,
    body: Seq<char>,
    data: JsonView,
) -> JsonView {
    JsonView::Obj(
        map![
            "t"@ => JsonView::Str("send_action"@),
            "to"@ => JsonView::Str(to),
            "action"@ => JsonView::Str(action),
            "title"@ => JsonView::Str(title),
            "body"@ => JsonView::Str(body),
            "data"@ => data,
        ],
    )
}

/// The frame that publishes a presence.
pub open spec fn presence_frame(state: Seq<char>) -> JsonView {
    JsonView::Obj(map!["t"@ => JsonView::Str("set_presence"@), "state"@ => JsonView::Str(state)])
}

/// Makes a frame that is nothing but its tag.
pub fn tagged(t: &str) -> (r: Json)
    ensures
        r@ == tag_frame(t@),
{
    Fields::new().with_text("t", t).done()
}

/// Makes a frame about a user.
pub fn about_user(t: &str, username: &str) -> (r: Json)
    ensures
        r@ == user_frame(t@, username@),
{
    Fields::new().with_text("t", t).with_text("username", username).done()
}

/// Makes the frame that allows or blocks an action of a friend.
pub fn perm_update(friend_id: &str, action: &str, allowed: bool) -> (r: Json)
    ensures
        r@ == perm_frame(friend_id@, action@, allowed),
{
    Fields::new().with_text("t", "perm_update").with_text("friend_id", friend_id).with_text(
        "action",
        action,
    ).with_bool("allowed", allowed).done()
}

/// Makes the frame that carries WebRTC negotiation.
pub fn signal(to: &str, payload: Json) -> (r: Json)
    ensures
        r@ == signal_frame(to@, payload@),
{
    Fields::new().with_text("t", "signal").with_text("to", to).with("payload", payload).done()
}

/// Makes the frame that sends a friend an action.
pub fn send_action(to: &str, action: &str, title: &str, body: &str, data: Json) -> (r: Json)
    ensures
        r@ == action_frame(to@, action@, title@, body@, data@),
{
    Fields::new().with_text("t", "send_action").with_text("to", to).with_text(
        "action",
        action,
    ).with_text("title", title).with_text("body", body).with("data", data).done()
}

/// Makes the frame that publishes a presence.
pub fn set_presence(state: &str) -> (r: Json)
    ensures
        r@ == presence_frame(state@),
{
    Fields::new().with_text("t", "set_presence").with_text("state", state).done()
}

impl<'a> ClientMsg<'a> {
    /// The frame of a message.
    pub open spec fn view(self) -> JsonView {
        match self {
            ClientMsg::FriendAdd { username } => user_frame("friend_add"@, username@),
            ClientMsg::FriendAccept { username } => user_frame("friend_accept"@, username@),
            ClientMsg::FriendRemove { username } => user_frame("friend_remove"@, username@),
            ClientMsg::FriendList => tag_frame("friend_list"@),
            ClientMsg::PermUpdate { friend_id, action, allowed } => perm_frame(
                friend_id@,
                kind_word(action),
                allowed,
            ),
            ClientMsg::PermList => tag_frame("perm_list"@),
            ClientMsg::Signal { to, payload } => signal_frame(to@, payload@),
            ClientMsg::SendAction { to, action, title, body, data } => action_frame(
                to@,
                kind_word(action),
                title@,
                body@,
                data@,
            ),
            ClientMsg::SetPresence { state } => presence_frame(state@),
        }
    }

    /// Makes the frame of a message.
    pub fn frame(&self) -> (r: Json)
        ensures
            r@ == self@,
    {
        match self {
            ClientMsg::FriendAdd { username } => about_user("friend_add", username),
            ClientMsg::FriendAccept { username } => about_user("friend_accept", username),
            ClientMsg::FriendRemove { username } => about_user("friend_remove", username),
            ClientMsg::FriendList => tagged("friend_list"),
            ClientMsg::PermUpdate { friend_id, action, allowed } => perm_update(
                friend_id,
                action.as_str(),
                *allowed,
            ),
            ClientMsg::PermList => tagged("perm_list"),
            ClientMsg::Signal { to, payload } => signal(to, payload.clone()),
            ClientMsg::SendAction { to, action, title, body, data } => send_action(
                to,
                action.as_str(),
                title,
                body,
                data.clone(),
            ),
            ClientMsg::SetPresence { state } => set_presence(state),
        }
    }
}

// ---- what the server says ----

/// An entry of the friend list.
pub struct Friend {
    pub id: String,
    pub username: String,
    /// `"accepted"`, `"pending_in"` or `"pending_out"`.
    pub status: String,
    pub online: bool,
    /// What the friend reports: `"online"`, `"dnd"`, `"offline"`, or nothing.
    pub presence: Option<String>,
}

/// An entry of the permission list.
pub struct Perm {
    pub friend_id: String,
    pub action: String,
    pub allowed: bool,
}

/// Who the server takes this client for.
pub struct Me {
    pub id: String,
    pub username: String,
}

/// What the server says to a client.
pub enum ServerMsg {
    HelloOk { me: Me },
    Error { message: String },
    Friends { friends: Vec<Friend> },
    Perms { perms: Vec<Perm> },
    PermChanged { by: String, action: String, allowed: bool },
    Presence { friend_id: String, online: bool, state: Option<String> },
    Signal { from: String, payload: Json },
    Action { from: String, action: String, title: String, body: String, data: Json },
    /// Pushed to every client on connect while the operator has one set.
    Announcement { title: String, body: String },
}

/// A copy of an optional text.
pub fn clone_opt(s: &Option<String>) -> (r: Option<String>)
    ensures
        r == *s,
{
    match s {
        Some(s) => Some(s.clone()),
        None => None,
    }
}

impl Clone for Friend {
    fn clone(&self) -> (r: Friend)
        ensures
            r == *self,
    {
        Friend {
            id: self.id.clone(),
            username: self.username.clone(),
            status: self.status.clone(),
            online: self.online,
            presence: clone_opt(&self.presence),
        }
    }
}

impl Clone for Perm {
    fn clone(&self) -> (r: Perm)
        ensures
            r == *self,
    {
        Perm {
            friend_id: self.friend_id.clone(),
            action: self.action.clone(),
            allowed: self.allowed,
        }
    }
}

/// A friend as a JSON object.
pub open spec fn friend_tree(f: Friend) -> JsonView {
    JsonView::Obj(
        map![
            "id"@ => JsonView::Str(f.id@),
            "username"@ => JsonView::Str(f.username@),
            "status"@ => JsonView::Str(f.status@),
            "online"@ => JsonView::Bool(f.online),
            "presence"@ => opt_text(f.presence),
        ],
    )
}

/// A friend list as a JSON array.
pub open spec fn friends_tree(v: Seq<Friend>) -> JsonView {
    JsonView::Arr(Seq::new(v.len(), |i: int| friend_tree(v[i])))
}

/// A permission as a JSON object.
pub open spec fn perm_tree(p: Perm) -> JsonView {
    JsonView::Obj(
        map![
            "friend_id"@ => JsonView::Str(p.friend_id@),
            "action"@ => JsonView::Str(p.action@),
            "allowed"@ => JsonView::Bool(p.allowed),
        ],
    )
}

/// A permission list as a JSON array.
pub open spec fn perms_tree(v: Seq<Perm>) -> JsonView {
    JsonView::Arr(Seq::new(v.len(), |i: int| perm_tree(v[i])))
}

impl Friend {
    /// The friend as a JSON object.
    pub fn json(&self) -> (r: Json)
        ensures
            r@ == friend_tree(*self),
    {
        Fields::new().with_text("id", self.id.as_str()).with_text(
            "username",
            self.username.as_str(),
        ).with_text("status", self.status.as_str()).with_bool("online", self.online).with(
            "presence",
            Json::text_or_null(&self.presence),
        ).done()
    }
}

impl Perm {
    /// The permission as a JSON object.
    pub fn json(&self) -> (r: Json)
        ensures
            r@ == perm_tree(*self),
    {
        Fields::new().with_text("friend_id", self.friend_id.as_str()).with_text(
            "action",
            self.action.as_str(),
        ).with_bool("allowed", self.allowed).done()
    }
}

/// Whether a friend is what a JSON object says. What it does not say is empty.
pub open spec fn is_friend_of(t: JsonView, f: Friend) -> bool {
    &&& f.id@ == t.text_or("id"@, ""@)
    &&& f.username@ == t.text_or("username"@, ""@)
    &&& f.status@ == t.text_or("status"@, ""@)
    &&& f.online == t.flag("online"@)
    &&& opt_view(f.presence) == t.text_member("presence"@)
}

/// Reads the friends in a list of JSON objects.
pub fn read_friends(list: &Vec<Json>) -> (r: Vec<Friend>)
    ensures
        r@.len() == list@.len(),
        forall|i: int| 0 <= i < r@.len() ==> is_friend_of(list@[i]@, #[trigger] r@[i]),
{
    let mut out: Vec<Friend> = Vec::new();
    let mut i: usize = 0;
    while i < list.len()
        invariant
            i <= list.len(),
            out@.len() == i,
            forall|k: int| 0 <= k < i ==> is_friend_of(list@[k]@, #[trigger] out@[k]),
        decreases list.len() - i,
    {
        let j = &list[i];
        let presence = match j.text_member("presence") {
            Some(p) => Some(p.to_owned()),
            None => None,
        };
        out.push(
            Friend {
                id: j.text_or("id", ""),
                username: j.text_or("username", ""),
                status: j.text_or("status", ""),
                online: j.flag("online"),
                presence,
            },
        );
        i += 1;
    }
    out
}

/// A friend who is written as JSON is read back.
pub proof fn friends_are_read_back(f: Friend, g: Friend)
    requires
        is_friend_of(friend_tree(f), g),
    ensures
        g.id@ == f.id@,
        g.username@ == f.username@,
        g.status@ == f.status@,
        g.online == f.online,
        opt_view(g.presence) == opt_view(f.presence),
{
    reveal_strlit("id");
    reveal_strlit("username");
    reveal_strlit("status");
    reveal_strlit("online");
    reveal_strlit("presence");
    assert("username"@[0] == 'u' && "presence"@[0] == 'p');
    assert("status"@[0] == 's' && "online"@[0] == 'o');
    assert("id"@.len() == 2);
}

/// Makes a JSON array of a friend list.
pub fn friends_json(v: &Vec<Friend>) -> (r: Json)
    ensures
        r@ == friends_tree(v@),
{
    let mut out: Vec<Json> = Vec::new();
    let mut i: usize = 0;
    while i < v.len()
        invariant
            i <= v.len(),
            out@.len() == i,
            forall|k: int| 0 <= k < i ==> (#[trigger] out@[k])@ == friend_tree(v@[k]),
        decreases v.len() - i,
    {
        out.push(v[i].json());
        i += 1;
    }
    proof {
        crate::json::array_tree(out);
        assert(crate::json::trees(out@) =~= friends_tree(v@)->Arr_0);
    }
    Json::Arr(out)
}

/// Makes a JSON array of a permission list.
pub fn perms_json(v: &Vec<Perm>) -> (r: Json)
    ensures
        r@ == perms_tree(v@),
{
    let mut out: Vec<Json> = Vec::new();
    let mut i: usize = 0;
    while i < v.len()
        invariant
            i <= v.len(),
            out@.len() == i,
            forall|k: int| 0 <= k < i ==> (#[trigger] out@[k])@ == perm_tree(v@[k]),
        decreases v.len() - i,
    {
        out.push(v[i].json());
        i += 1;
    }
    proof {
        crate::json::array_tree(out);
        assert(crate::json::trees(out@) =~= perms_tree(v@)->Arr_0);
    }
    Json::Arr(out)
}

} // verus!
