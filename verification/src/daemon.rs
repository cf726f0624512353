//! The daemon: what it knows, and what it does with what the server, peers and
//! hotkeys tell it.
//!
//! Every function here takes the state and an event and says what is to be done.
//! The doing (sockets, sound, windows) is not here.
use vstd::prelude::*;

use crate::config::Config;
#[allow(unused_imports)]
use crate::config::opt_view;
use crate::friends::{find_with_id, label, resolve};
#[allow(unused_imports)]
use crate::friends::{label_of, resolved, with_id};
use crate::json::{Fields, Json};
#[allow(unused_imports)]
use crate::json::{empty_obj, json_text, opt_text, JsonView};
use crate::overlay_ipc::OverlayEvent;
#[allow(unused_imports)]
use crate::overlay_ipc::EventView;
use crate::protocol::{
    clone_opt, friends_json, perms_json, set_presence, tagged, Friend, Me, Perm, ServerMsg,
};
#[allow(unused_imports)]
use crate::protocol::{friends_tree, perms_tree, presence_frame, tag_frame};
use crate::text::same;

verus! {

/// What the daemon knows.
pub struct DaemonState {
    pub friends: Vec<Friend>,
    pub perms: Vec<Perm>,
    /// Whom push-to-talk called last, or would call: an id, or a username that
    /// was not looked up yet.
    pub last_ptt_friend: Option<String>,
    /// The session that is talking, if one is.
    pub ptt_stop: Option<u64>,
    /// Whether there is a connection to dial over.
    pub connected: bool,
    pub ptt_input_device: Option<String>,
    pub presence: String,
    pub dnd_block_message: bool,
    pub dnd_block_game_invite: bool,
    pub dnd_block_ptt: bool,
    pub dnd_block_plugin: bool,
    pub dnd_block_custom: bool,
    pub notify_friend_presence: bool,
    pub notify_friend_requests: bool,
    /// Whether a friend list has come yet.
    pub friends_seen: bool,
    /// The calls that wait for the server to object, oldest first.
    pub pending_acks: Vec<u64>,
    /// The calls that wait for a friend list.
    pub pending_friends: Vec<u64>,
    /// The calls that wait for a permission list.
    pub pending_perms: Vec<u64>,
}

/// Something for the daemon to do.
pub enum Effect {
    /// Print a line.
    Print(String),
    /// Send an event to the overlay.
    Show(OverlayEvent),
    /// Send a frame to the server.
    Send(Json),
    /// Hand a piece of WebRTC negotiation to the peer connection of a friend.
    Negotiate { from: String, payload: Json },
    /// Look into a plugin invocation.
    Invoke { from: String, data: Json },
    /// Give a waiting call its list.
    Answer { waiter: u64, list: Json },
    /// Give a waiting call the server's objection.
    Refuse { waiter: u64, message: String },
    /// Warm up the connection to the push-to-talk friend.
    Prewarm,
}

/// The model of something to do.
pub enum EffectView {
    Print(Seq<char>),
    Show(EventView),
    Send(JsonView),
    Negotiate { from: Seq<char>, payload: JsonView },
    Invoke { from: Seq<char>, data: JsonView },
    Answer { waiter: u64, list: JsonView },
    Refuse { waiter: u64, message: Seq<char> },
    Prewarm,
}

impl Effect {
    /// The effect over the views of its parts.
    pub open spec fn view(self) -> EffectView {
        match self {
            Effect::Print(s) => EffectView::Print(s@),
            Effect::Show(e) => EffectView::Show(e@),
            Effect::Send(j) => EffectView::Send(j@),
            Effect::Negotiate { from, payload } => EffectView::Negotiate {
                from: from@,
                payload: payload@,
            },
            Effect::Invoke { from, data } => EffectView::Invoke { from: from@, data: data@ },
            Effect::Answer { waiter, list } => EffectView::Answer { waiter, list: list@ },
            Effect::Refuse { waiter, message } => EffectView::Refuse { waiter, message: message@ },
            Effect::Prewarm => EffectView::Prewarm,
        }
    }
}

/// The things to do over the views of their parts.
pub open spec fn effects(v: Seq<Effect>) -> Seq<EffectView> {
    Seq::new(v.len(), |i: int| v[i]@)
}

/// An event of a kind.
pub open spec fn shown(kind: Seq<char>, payload: JsonView) -> EffectView {
    EffectView::Show(EventView { kind, payload })
}

// ---- starting ----

/// Whether a state is the one that settings start the daemon with.
pub open spec fn starts_as(cfg: Config, s: DaemonState) -> bool {
    &&& s.friends@.len() == 0
    &&& s.perms@.len() == 0
    &&& s.last_ptt_friend == cfg.default_ptt_friend
    &&& s.ptt_stop is None
    &&& s.connected
    &&& s.ptt_input_device == cfg.ptt_input_device
    &&& s.presence@ == (if cfg.presence@.len() == 0 {
        "online"@
    } else {
        cfg.presence@
    })
    &&& s.dnd_block_message == cfg.dnd_block_message
    &&& s.dnd_block_game_invite == cfg.dnd_block_game_invite
    &&& s.dnd_block_ptt == cfg.dnd_block_ptt
    &&& s.dnd_block_plugin == cfg.dnd_block_plugin
    &&& s.dnd_block_custom == cfg.dnd_block_custom
    &&& s.notify_friend_presence == cfg.notify_friend_presence
    &&& s.notify_friend_requests == cfg.notify_friend_requests
    &&& !s.friends_seen
    &&& s.pending_acks@.len() == 0
    &&& s.pending_friends@.len() == 0
    &&& s.pending_perms@.len() == 0
}

impl DaemonState {
    /// What the daemon knows when it has connected for the first time.
    pub fn new(cfg: &Config) -> (r: DaemonState)
        ensures
            starts_as(*cfg, r),
    {
        let presence = if same(cfg.presence.as_str(), "") {
            proof {
                reveal_strlit("");
            }
            "online".to_owned()
        } else {
            proof {
                reveal_strlit("");
                if cfg.presence@.len() == 0 {
                    assert(cfg.presence@ =~= ""@);
                }
            }
            cfg.presence.clone()
        };
        DaemonState {
            friends: Vec::new(),
            perms: Vec::new(),
            last_ptt_friend: clone_opt(&cfg.default_ptt_friend),
            ptt_stop: None,
            connected: true,
            ptt_input_device: clone_opt(&cfg.ptt_input_device),
            presence,
            dnd_block_message: cfg.dnd_block_message,
            dnd_block_game_invite: cfg.dnd_block_game_invite,
            dnd_block_ptt: cfg.dnd_block_ptt,
            dnd_block_plugin: cfg.dnd_block_plugin,
            dnd_block_custom: cfg.dnd_block_custom,
            notify_friend_presence: cfg.notify_friend_presence,
            notify_friend_requests: cfg.notify_friend_requests,
            friends_seen: false,
            pending_acks: Vec::new(),
            pending_friends: Vec::new(),
            pending_perms: Vec::new(),
        }
    }
}

/// What an overlay has to know of the settings.
pub open spec fn config_payload(cfg: Config) -> JsonView {
    JsonView::Obj(
        map![
            "notify_sound"@ => opt_text(cfg.notify_sound),
            "username"@ => opt_text(cfg.username),
            "user_id"@ => opt_text(cfg.user_id),
            "notify_auto_dismiss"@ => JsonView::Bool(cfg.notify_auto_dismiss),
            "notify_auto_dismiss_ms"@ => JsonView::Int(cfg.notify_auto_dismiss_ms as int),
            "notify_show_list"@ => JsonView::Bool(cfg.notify_show_list),
        ],
    )
}

/// Tells the overlay the settings.
pub fn config_event(cfg: &Config) -> (r: OverlayEvent)
    ensures
        r@ == (EventView { kind: "config"@, payload: config_payload(*cfg) }),
{
    OverlayEvent::new(
        "config",
        Fields::new().with("notify_sound", Json::text_or_null(&cfg.notify_sound)).with(
            "username",
            Json::text_or_null(&cfg.username),
        ).with("user_id", Json::text_or_null(&cfg.user_id)).with_bool(
            "notify_auto_dismiss",
            cfg.notify_auto_dismiss,
        ).with("notify_auto_dismiss_ms", Json::whole(cfg.notify_auto_dismiss_ms as i64)).with_bool(
            "notify_show_list",
            cfg.notify_show_list,
        ).done(),
    )
}

// ---- greeting ----

/// What follows the greeting of the server: the overlay learns who one is, the
/// lists are asked for, and the presence is published.
pub open spec fn hello_effects(s: DaemonState, me: Me) -> Seq<EffectView> {
    seq![
        shown(
            "hello"@,
            JsonView::Obj(
                map!["id"@ => JsonView::Str(me.id@), "username"@ => JsonView::Str(me.username@)],
            ),
        ),
        EffectView::Send(tag_frame("friend_list"@)),
        EffectView::Send(tag_frame("perm_list"@)),
        EffectView::Send(
            presence_frame(
                if s.presence@ == ""@ {
                    "online"@
                } else {
                    s.presence@
                },
            ),
        ),
    ]
}

/// Answers the greeting of the server.
pub fn on_hello(s: &DaemonState, me: &Me) -> (r: Vec<Effect>)
    ensures
        effects(r@) == hello_effects(*s, *me),
{
    let wire = if same(s.presence.as_str(), "") {
        "online"
    } else {
        s.presence.as_str()
    };
    let mut out: Vec<Effect> = Vec::new();
    out.push(
        Effect::Show(
            OverlayEvent::new(
                "hello",
                Fields::new().with_text("id", me.id.as_str()).with_text(
                    "username",
                    me.username.as_str(),
                ).done(),
            ),
        ),
    );
    out.push(Effect::Send(tagged("friend_list")));
    out.push(Effect::Send(tagged("perm_list")));
    out.push(Effect::Send(set_presence(wire)));
    assert(effects(out@) =~= hello_effects(*s, *me));
    out
}

// ---- actions and Do Not Disturb ----

/// Whether the filter of Do Not Disturb is set to drop actions of a kind. Kinds
/// without a switch of their own go by the one for custom actions.
pub open spec fn filtered(s: DaemonState, action: Seq<char>) -> bool {
    if action == "message"@ {
        s.dnd_block_message
    } else if action == "game_invite"@ {
        s.dnd_block_game_invite
    } else if action == "ptt"@ {
        s.dnd_block_ptt
    } else if action == "plugin"@ {
        s.dnd_block_plugin
    } else {
        s.dnd_block_custom
    }
}

/// Whether an action is dropped.
pub open spec fn dropped(s: DaemonState, action: Seq<char>) -> bool {
    s.presence@ == "dnd"@ && filtered(s, action)
}

/// Says whether an action is dropped.
pub fn drops(s: &DaemonState, action: &str) -> (r: bool)
    ensures
        r == dropped(*s, action@),
{
    same(s.presence.as_str(), "dnd") && if same(action, "message") {
        s.dnd_block_message
    } else if same(action, "game_invite") {
        s.dnd_block_game_invite
    } else if same(action, "ptt") {
        s.dnd_block_ptt
    } else if same(action, "plugin") {
        s.dnd_block_plugin
    } else {
        s.dnd_block_custom
    }
}

/// What the overlay is told of an action.
pub open spec fn card(
    from: Seq<char>,
    from_username: Seq<char>,
    action: Seq<char>,
    title: Seq<char>,
    body: Seq<char>,
    data: JsonView,
) -> JsonView {
    JsonView::Obj(
        map![
            "from"@ => JsonView::Str(from),
            "from_username"@ => JsonView::Str(from_username),
            "action"@ => JsonView::Str(action),
            "title"@ => JsonView::Str(title),
            "body"@ => JsonView::Str(body),
            "data"@ => data,
        ],
    )
}

/// Makes a card.
pub fn make_card(
    from: &str,
    from_username: &str,
    action: &str,
    title: &str,
    body: &str,
    data: Json,
) -> (r: OverlayEvent)
    ensures
        r@ == (EventView {
            kind: "action"@,
            payload: card(from@, from_username@, action@, title@, body@, data@),
        }),
{
    OverlayEvent::new(
        "action",
        Fields::new().with_text("from", from).with_text("from_username", from_username).with_text(
            "action",
            action,
        ).with_text("title", title).with_text("body", body).with("data", data).done(),
    )
}

/// What comes of an action: nothing where Do Not Disturb drops it; otherwise a
/// line, a card under the sender's username, and for a plugin its invocation.
pub open spec fn action_effects(
    s: DaemonState,
    from: Seq<char>,
    action: Seq<char>,
    title: Seq<char>,
    body: Seq<char>,
    data: JsonView,
) -> Seq<EffectView> {
    if dropped(s, action) {
        Seq::empty()
    } else {
        let username = label_of(s.friends@, from);
        let surfaced = seq![
            EffectView::Print("["@ + action + "] "@ + username + ": "@ + title + " — "@ + body),
            shown("action"@, card(from, username, action, title, body, data)),
        ];
        if action == "plugin"@ {
            surfaced.push(EffectView::Invoke { from, data })
        } else {
            surfaced
        }
    }
}

/// Receives an action.
pub fn on_action(
    s: &DaemonState,
    from: &str,
    action: &str,
    title: &str,
    body: &str,
    data: &Json,
) -> (r: Vec<Effect>)
    ensures
        effects(r@) == action_effects(*s, from@, action@, title@, body@, data@),
{
    let mut out: Vec<Effect> = Vec::new();
    if drops(s, action) {
        assert(effects(out@) =~= Seq::<EffectView>::empty());
        return out;
    }
    let username = label(&s.friends, from);
    out.push(
        Effect::Print(
            "[".to_owned().concat(action).concat("] ").concat(username.as_str()).concat(
                ": ",
            ).concat(title).concat(" — ").concat(body),
        ),
    );
    out.push(
        Effect::Show(make_card(from, username.as_str(), action, title, body, data.clone())),
    );
    if same(action, "plugin") {
        out.push(Effect::Invoke { from: from.to_owned(), data: data.clone() });
    }
    assert(effects(out@) =~= action_effects(*s, from@, action@, title@, body@, data@));
    out
}

/// What comes of a piece of WebRTC negotiation: nothing while Do Not Disturb
/// blocks push-to-talk.
pub open spec fn signal_effects(
    s: DaemonState,
    from: Seq<char>,
    payload: JsonView,
) -> Seq<EffectView> {
    if s.presence@ == "dnd"@ && s.dnd_block_ptt {
        Seq::empty()
    } else {
        seq![EffectView::Negotiate { from, payload }]
    }
}

/// Receives a piece of WebRTC negotiation.
pub fn on_signal(s: &DaemonState, from: &str, payload: &Json) -> (r: Vec<Effect>)
    ensures
        effects(r@) == signal_effects(*s, from@, payload@),
{
    let mut out: Vec<Effect> = Vec::new();
    if !(same(s.presence.as_str(), "dnd") && s.dnd_block_ptt) {
        out.push(Effect::Negotiate { from: from.to_owned(), payload: payload.clone() });
    }
    assert(effects(out@) =~= signal_effects(*s, from@, payload@));
    out
}

// ---- presence ----

/// The presence that the server reports; an older server only says whether the
/// friend is there.
pub open spec fn reported(online: bool, state: Option<Seq<char>>) -> Seq<char> {
    match state {
        Some(s) => s,
        None => if online {
            "online"@
        } else {
            "offline"@
        },
    }
}

/// Whether a friend is as before but for a new presence.
pub open spec fn is_patched(
    old_friend: Friend,
    new_friend: Friend,
    id: Seq<char>,
    online: bool,
    state: Seq<char>,
) -> bool {
    if old_friend.id@ == id {
        &&& new_friend.id == old_friend.id
        &&& new_friend.username == old_friend.username
        &&& new_friend.status == old_friend.status
        &&& new_friend.online == online
        &&& opt_view(new_friend.presence) == Some(state)
    } else {
        new_friend == old_friend
    }
}

/// Whether a list is as before but for the new presence of one friend.
pub open spec fn all_patched(
    old_list: Seq<Friend>,
    new_list: Seq<Friend>,
    id: Seq<char>,
    online: bool,
    state: Seq<char>,
) -> bool {
    &&& new_list.len() == old_list.len()
    &&& forall|i: int|
        0 <= i < old_list.len() ==> is_patched(
            old_list[i],
            #[trigger] new_list[i],
            id,
            online,
            state,
        )
}

/// The last friend with an id.
pub open spec fn last_with_id(friends: Seq<Friend>, id: Seq<char>) -> Option<Friend>
    decreases friends.len(),
{
    if friends.len() == 0 {
        None
    } else if friends.last().id@ == id {
        Some(friends.last())
    } else {
        last_with_id(friends.drop_last(), id)
    }
}

/// What comes of a new presence: the overlay gets the friend list and the
/// presence, and a card where coming and going is worth one. `new_list` is the
/// friend list with the new presence.
pub open spec fn presence_effects(
    s: DaemonState,
    new_list: Seq<Friend>,
    friend_id: Seq<char>,
    online: bool,
    state: Seq<char>,
) -> Seq<EffectView> {
    let known = last_with_id(s.friends@, friend_id);
    let was_online = known matches Some(f) && f.online;
    let username = match known {
        Some(f) => f.username@,
        None => friend_id,
    };
    let updates = seq![
        shown("friends"@, JsonView::Obj(map!["friends"@ => friends_tree(new_list)])),
        shown(
            "presence"@,
            JsonView::Obj(
                map![
                    "friend_id"@ => JsonView::Str(friend_id),
                    "online"@ => JsonView::Bool(online),
                    "state"@ => JsonView::Str(state),
                ],
            ),
        ),
    ];
    if s.notify_friend_presence && was_online != online {
        updates.push(
            shown(
                "action"@,
                if online {
                    card(
                        friend_id,
                        username,
                        "custom"@,
                        "Friend online"@,
                        username + " is now online"@,
                        empty_obj(),
                    )
                } else {
                    card(
                        friend_id,
                        username,
                        "custom"@,
                        "Friend offline"@,
                        username + " went offline"@,
                        empty_obj(),
                    )
                },
            ),
        )
    } else {
        updates
    }
}

/// A friend list for the overlay.
fn friends_event(friends: &Vec<Friend>) -> (r: OverlayEvent)
    ensures
        r@ == (EventView {
            kind: "friends"@,
            payload: JsonView::Obj(map!["friends"@ => friends_tree(friends@)]),
        }),
{
    OverlayEvent::new("friends", Fields::new().with("friends", friends_json(friends)).done())
}

/// Finds the last friend with an id.
fn find_last<'a>(friends: &'a Vec<Friend>, id: &str) -> (r: Option<&'a Friend>)
    ensures
        match r {
            Some(f) => last_with_id(friends@, id@) == Some(*f),
            None => last_with_id(friends@, id@) is None,
        },
{
    let mut i: usize = friends.len();
    assert(friends@.take(i as int) == friends@);
    while i > 0
        invariant
            i <= friends.len(),
            last_with_id(friends@, id@) == last_with_id(friends@.take(i as int), id@),
        decreases i,
    {
        if same(friends[i - 1].id.as_str(), id) {
            return Some(&friends[i - 1]);
        }
        assert(friends@.take(i as int).drop_last() == friends@.take(i - 1));
        i -= 1;
    }
    None
}

/// Gives a friend a new presence.
fn patch(friends: &mut Vec<Friend>, id: &str, online: bool, state: &str)
    ensures
        all_patched(old(friends)@, final(friends)@, id@, online, state@),
{
    let ghost before = friends@;
    let mut i: usize = 0;
    while i < friends.len()
        invariant
            i <= friends.len(),
            friends@.len() == before.len(),
            forall|k: int|
                0 <= k < i ==> is_patched(before[k], #[trigger] friends@[k], id@, online, state@),
            forall|k: int| i <= k < before.len() ==> #[trigger] friends@[k] == before[k],
        decreases friends.len() - i,
    {
        if same(friends[i].id.as_str(), id) {
            let f = Friend {
                id: friends[i].id.clone(),
                username: friends[i].username.clone(),
                status: friends[i].status.clone(),
                online,
                presence: Some(state.to_owned()),
            };
            friends.set(i, f);
        }
        i += 1;
    }
}

/// Receives a new presence of a friend.
pub fn on_presence(
    s: &mut DaemonState,
    friend_id: &str,
    online: bool,
    state: &Option<String>,
) -> (r: Vec<Effect>)
    ensures
        all_patched(
            old(s).friends@,
            final(s).friends@,
            friend_id@,
            online,
            reported(online, opt_view(*state)),
        ),
        *final(s) == (DaemonState { friends: final(s).friends, ..*old(s) }),
        effects(r@) == presence_effects(
            *old(s),
            final(s).friends@,
            friend_id@,
            online,
            reported(online, opt_view(*state)),
        ),
{
    let word = match state {
        Some(w) => w.clone(),
        None => if online {
            "online".to_owned()
        } else {
            "offline".to_owned()
        },
    };
    let known = find_last(&s.friends, friend_id);
    let was_online = match known {
        Some(f) => f.online,
        None => false,
    };
    let username = match known {
        Some(f) => f.username.clone(),
        None => friend_id.to_owned(),
    };
    patch(&mut s.friends, friend_id, online, word.as_str());
    let mut out: Vec<Effect> = Vec::new();
    out.push(Effect::Show(friends_event(&s.friends)));
    out.push(
        Effect::Show(
            OverlayEvent::new(
                "presence",
                Fields::new().with_text("friend_id", friend_id).with_bool(
                    "online",
                    online,
                ).with_text("state", word.as_str()).done(),
            ),
        ),
    );
    if s.notify_friend_presence && was_online != online {
        let popup = if online {
            make_card(
                friend_id,
                username.as_str(),
                "custom",
                "Friend online",
                username.clone().concat(" is now online").as_str(),
                Json::object(),
            )
        } else {
            make_card(
                friend_id,
                username.as_str(),
                "custom",
                "Friend offline",
                username.clone().concat(" went offline").as_str(),
                Json::object(),
            )
        };
        out.push(Effect::Show(popup));
    }
    assert(effects(out@) =~= presence_effects(
        *old(s),
        s.friends@,
        friend_id@,
        online,
        reported(online, opt_view(*state)),
    ));
    out
}

// ---- announcements ----

/// What comes of a changed permission: the overlay is told.
pub open spec fn perm_changed_effects(
    by: Seq<char>,
    action: Seq<char>,
    allowed: bool,
) -> Seq<EffectView> {
    seq![
        shown(
            "perm_changed"@,
            JsonView::Obj(
                map![
                    "by"@ => JsonView::Str(by),
                    "action"@ => JsonView::Str(action),
                    "allowed"@ => JsonView::Bool(allowed),
                ],
            ),
        ),
    ]
}

/// Receives a changed permission.
pub fn on_perm_changed(by: &str, action: &str, allowed: bool) -> (r: Vec<Effect>)
    ensures
        effects(r@) == perm_changed_effects(by@, action@, allowed),
{
    let mut out: Vec<Effect> = Vec::new();
    out.push(
        Effect::Show(
            OverlayEvent::new(
                "perm_changed",
                Fields::new().with_text("by", by).with_text("action", action).with_bool(
                    "allowed",
                    allowed,
                ).done(),
            ),
        ),
    );
    assert(effects(out@) =~= perm_changed_effects(by@, action@, allowed));
    out
}

/// What comes of an announcement of the operator: a line and a card.
pub open spec fn announcement_effects(title: Seq<char>, body: Seq<char>) -> Seq<EffectView> {
    seq![
        EffectView::Print("[server] "@ + title + " — "@ + body),
        shown(
            "action"@,
            card("server"@, "server"@, "custom"@, "Server: "@ + title, body, empty_obj()),
        ),
    ]
}

/// Receives an announcement.
pub fn on_announcement(title: &str, body: &str) -> (r: Vec<Effect>)
    ensures
        effects(r@) == announcement_effects(title@, body@),
{
    let mut out: Vec<Effect> = Vec::new();
    out.push(
        Effect::Print("[server] ".to_owned().concat(title).concat(" — ").concat(body)),
    );
    out.push(
        Effect::Show(
            make_card(
                "server",
                "server",
                "custom",
                "Server: ".to_owned().concat(title).as_str(),
                body,
                Json::object(),
            ),
        ),
    );
    assert(effects(out@) =~= announcement_effects(title@, body@));
    out
}

// ---- lists and objections ----

/// Whether someone in a list waits for an answer to their friend request.
pub open spec fn awaits(friends: Seq<Friend>, id: Seq<char>) -> bool {
    exists|i: int|
        0 <= i < friends.len() && (#[trigger] friends[i]).id@ == id && friends[i].status@
            == "pending_in"@
}

/// Whether a friend request is one that was not there before.
pub open spec fn is_new_request(known: Seq<Friend>, f: Friend) -> bool {
    f.status@ == "pending_in"@ && !awaits(known, f.id@)
}

/// What comes of a friend request: a line and a card to accept or decline it.
pub open spec fn request_effects(f: Friend) -> Seq<EffectView> {
    seq![
        EffectView::Print(
            "[friend request] "@ + f.username@ + " wants to add you — `friend accept "@
                + f.username@ + "`"@,
        ),
        shown(
            "friend_request"@,
            JsonView::Obj(
                map!["username"@ => JsonView::Str(f.username@), "id"@ => JsonView::Str(f.id@)],
            ),
        ),
    ]
}

/// What comes of the new friend requests in a list, one after the other.
pub open spec fn requests_effects(known: Seq<Friend>, list: Seq<Friend>) -> Seq<EffectView>
    decreases list.len(),
{
    if list.len() == 0 {
        Seq::empty()
    } else {
        requests_effects(known, list.drop_last()) + (if is_new_request(known, list.last()) {
            request_effects(list.last())
        } else {
            Seq::empty()
        })
    }
}

/// The answers to the calls that wait for a list.
pub open spec fn answers(waiters: Seq<u64>, list: JsonView) -> Seq<EffectView> {
    Seq::new(waiters.len(), |i: int| EffectView::Answer { waiter: waiters[i], list })
}

/// What comes of a friend list: whoever waits for it gets it, a request that is
/// new is announced, the overlay gets the list, and the connection to the
/// push-to-talk friend is warmed up. The first list announces nobody.
pub open spec fn friends_effects(s: DaemonState, list: Seq<Friend>) -> Seq<EffectView> {
    answers(s.pending_friends@, friends_tree(list)) + (if s.friends_seen
        && s.notify_friend_requests {
        requests_effects(s.friends@, list)
    } else {
        Seq::empty()
    }) + seq![
        shown("friends"@, JsonView::Obj(map!["friends"@ => friends_tree(list)])),
        EffectView::Prewarm,
    ]
}

/// Says whether someone in a list waits for an answer.
fn is_awaiting(friends: &Vec<Friend>, id: &str) -> (r: bool)
    ensures
        r == awaits(friends@, id@),
{
    let mut i: usize = 0;
    while i < friends.len()
        invariant
            i <= friends.len(),
            forall|k: int|
                0 <= k < i ==> !((#[trigger] friends@[k]).id@ == id@ && friends@[k].status@
                    == "pending_in"@),
        decreases friends.len() - i,
    {
        if same(friends[i].id.as_str(), id) && same(friends[i].status.as_str(), "pending_in") {
            return true;
        }
        i += 1;
    }
    false
}

/// Gives every waiting call a list.
fn answer_all(waiters: &Vec<u64>, list: &Json) -> (r: Vec<Effect>)
    ensures
        effects(r@) == answers(waiters@, list@),
{
    let mut out: Vec<Effect> = Vec::new();
    let mut i: usize = 0;
    while i < waiters.len()
        invariant
            i <= waiters.len(),
            out@.len() == i,
            forall|k: int|
                0 <= k < i ==> (#[trigger] out@[k])@ == (EffectView::Answer {
                    waiter: waiters@[k],
                    list: list@,
                }),
        decreases waiters.len() - i,
    {
        out.push(Effect::Answer { waiter: waiters[i], list: list.clone() });
        i += 1;
    }
    assert(effects(out@) =~= answers(waiters@, list@));
    out
}

/// Announces the new friend requests in a list.
fn announce(known: &Vec<Friend>, list: &Vec<Friend>, out: Vec<Effect>) -> (r: Vec<Effect>)
    ensures
        effects(r@) == effects(out@) + requests_effects(known@, list@),
{
    let ghost start = effects(out@);
    let mut out = out;
    let mut i: usize = 0;
    assert(effects(out@) =~= start + requests_effects(known@, list@.take(0)));
    while i < list.len()
        invariant
            i <= list.len(),
            effects(out@) == start + requests_effects(known@, list@.take(i as int)),
        decreases list.len() - i,
    {
        let ghost done = out@;
        let f = &list[i];
        proof {
            assert(list@.take(i + 1).drop_last() == list@.take(i as int));
            assert(list@.take(i + 1).last() == list@[i as int]);
        }
        if same(f.status.as_str(), "pending_in") && !is_awaiting(known, f.id.as_str()) {
            out.push(
                Effect::Print(
                    "[friend request] ".to_owned().concat(f.username.as_str()).concat(
                        " wants to add you — `friend accept ",
                    ).concat(f.username.as_str()).concat("`"),
                ),
            );
            out.push(
                Effect::Show(
                    OverlayEvent::new(
                        "friend_request",
                        Fields::new().with_text("username", f.username.as_str()).with_text(
                            "id",
                            f.id.as_str(),
                        ).done(),
                    ),
                ),
            );
            assert(effects(out@) =~= effects(done) + request_effects(*f));
        }
        i += 1;
        assert(effects(out@) =~= start + requests_effects(known@, list@.take(i as int)));
    }
    assert(list@.take(i as int) == list@);
    out
}

/// Receives a friend list.
pub fn on_friends(s: &mut DaemonState, friends: Vec<Friend>) -> (r: Vec<Effect>)
    ensures
        *final(s) == (DaemonState {
            friends,
            friends_seen: true,
            pending_friends: final(s).pending_friends,
            ..*old(s)
        }),
        final(s).pending_friends@.len() == 0,
        effects(r@) == friends_effects(*old(s), friends@),
{
    let list = friends_json(&friends);
    let answered = answer_all(&s.pending_friends, &list);
    let mut out = if s.friends_seen && s.notify_friend_requests {
        announce(&s.friends, &friends, answered)
    } else {
        assert(effects(answered@) + Seq::<EffectView>::empty() =~= effects(answered@));
        answered
    };
    let ghost told = effects(out@);
    out.push(Effect::Show(friends_event(&friends)));
    out.push(Effect::Prewarm);
    assert(effects(out@) =~= told + seq![
        shown("friends"@, JsonView::Obj(map!["friends"@ => friends_tree(friends@)])),
        EffectView::Prewarm,
    ]);
    s.friends = friends;
    s.friends_seen = true;
    s.pending_friends = Vec::new();
    out
}

/// Receives a permission list: whoever waits for it gets it.
pub fn on_perms(s: &mut DaemonState, perms: Vec<Perm>) -> (r: Vec<Effect>)
    ensures
        *final(s) == (DaemonState {
            perms,
            pending_perms: final(s).pending_perms,
            ..*old(s)
        }),
        final(s).pending_perms@.len() == 0,
        effects(r@) == answers(old(s).pending_perms@, perms_tree(perms@)),
{
    let list = perms_json(&perms);
    let out = answer_all(&s.pending_perms, &list);
    s.perms = perms;
    s.pending_perms = Vec::new();
    out
}

/// What comes of an objection of the server: the call that waits longest gets
/// it.
pub open spec fn error_effects(waiters: Seq<u64>, message: Seq<char>) -> Seq<EffectView> {
    if waiters.len() == 0 {
        Seq::empty()
    } else {
        seq![EffectView::Refuse { waiter: waiters[0], message }]
    }
}

/// The calls that still wait after the first got its answer.
pub open spec fn others(waiters: Seq<u64>) -> Seq<u64> {
    if waiters.len() == 0 {
        waiters
    } else {
        waiters.drop_first()
    }
}

/// Receives an objection of the server.
pub fn on_error(s: &mut DaemonState, message: &str) -> (r: Vec<Effect>)
    ensures
        *final(s) == (DaemonState { pending_acks: final(s).pending_acks, ..*old(s) }),
        final(s).pending_acks@ == others(old(s).pending_acks@),
        effects(r@) == error_effects(old(s).pending_acks@, message@),
{
    let ghost waiting = s.pending_acks@;
    let mut out: Vec<Effect> = Vec::new();
    if s.pending_acks.len() > 0 {
        let waiter = s.pending_acks.remove(0);
        assert(s.pending_acks@ =~= waiting.drop_first());
        out.push(Effect::Refuse { waiter, message: message.to_owned() });
    }
    assert(effects(out@) =~= error_effects(waiting, message@));
    out
}

// ---- everything the server says ----

/// Whether what the server says is taken in right: what is known after it, and
/// what there is to do.
pub open spec fn server_done(
    before: DaemonState,
    after: DaemonState,
    msg: ServerMsg,
    told: Seq<EffectView>,
) -> bool {
    match msg {
        ServerMsg::HelloOk { me } => after == before && told == hello_effects(
            before,
            me,
        ),
        ServerMsg::Action { from, action, title, body, data } => after == before
            && told == action_effects(
            before,
            from@,
            action@,
            title@,
            body@,
            data@,
        ),
        ServerMsg::Signal { from, payload } => after == before && told
            == signal_effects(before, from@, payload@),
        ServerMsg::Presence { friend_id, online, state } => {
            let word = reported(online, opt_view(state));
            &&& all_patched(before.friends@, after.friends@, friend_id@, online, word)
            &&& after == (DaemonState { friends: after.friends, ..before })
            &&& told == presence_effects(
                before,
                after.friends@,
                friend_id@,
                online,
                word,
            )
        },
        ServerMsg::PermChanged { by, action, allowed } => after == before && told
            == perm_changed_effects(by@, action@, allowed),
        ServerMsg::Announcement { title, body } => after == before && told
            == announcement_effects(title@, body@),
        ServerMsg::Friends { friends } => {
            &&& after == (DaemonState {
                friends,
                friends_seen: true,
                pending_friends: after.pending_friends,
                ..before
            })
            &&& after.pending_friends@.len() == 0
            &&& told == friends_effects(before, friends@)
        },
        ServerMsg::Perms { perms } => {
            &&& after == (DaemonState {
                perms,
                pending_perms: after.pending_perms,
                ..before
            })
            &&& after.pending_perms@.len() == 0
            &&& told == answers(before.pending_perms@, perms_tree(perms@))
        },
        ServerMsg::Error { message } => {
            &&& after == (DaemonState { pending_acks: after.pending_acks, ..before })
            &&& after.pending_acks@ == others(before.pending_acks@)
            &&& told == error_effects(before.pending_acks@, message@)
        },
    }
}

/// Receives whatever the server says.
pub fn on_server(s: &mut DaemonState, msg: ServerMsg) -> (r: Vec<Effect>)
    ensures
        server_done(*old(s), *final(s), msg, effects(r@)),
{
    match msg {
        ServerMsg::HelloOk { me } => on_hello(s, &me),
        ServerMsg::Action { from, action, title, body, data } => on_action(
            s,
            from.as_str(),
            action.as_str(),
            title.as_str(),
            body.as_str(),
            &data,
        ),
        ServerMsg::Signal { from, payload } => on_signal(s, from.as_str(), &payload),
        ServerMsg::Presence { friend_id, online, state } => on_presence(
            s,
            friend_id.as_str(),
            online,
            &state,
        ),
        ServerMsg::PermChanged { by, action, allowed } => on_perm_changed(
            by.as_str(),
            action.as_str(),
            allowed,
        ),
        ServerMsg::Announcement { title, body } => on_announcement(title.as_str(), body.as_str()),
        ServerMsg::Friends { friends } => on_friends(s, friends),
        ServerMsg::Perms { perms } => on_perms(s, perms),
        ServerMsg::Error { message } => on_error(s, message.as_str()),
    }
}

// ---- peers and hotkeys ----

/// What the overlay is told of a frame that came from a peer directly. A sender
/// whom the friend list knows goes by their username.
pub open spec fn peer_payload(
    friends: Seq<Friend>,
    from: Seq<char>,
    frame: JsonView,
) -> JsonView {
    let payload = map![
        "from"@ => JsonView::Str(from),
        "action"@ => frame.member_or("action"@, JsonView::Str("custom"@)),
        "title"@ => frame.member_or("title"@, JsonView::Str(""@)),
        "body"@ => frame.member_or("body"@, JsonView::Str(""@)),
        "data"@ => frame.member_or("data"@, empty_obj()),
    ];
    JsonView::Obj(
        match with_id(friends, from) {
            Some(f) => payload.insert("from_username"@, JsonView::Str(f.username@)),
            None => payload,
        },
    )
}

/// What comes of a frame that came from a peer directly: nothing where Do Not
/// Disturb drops its kind; otherwise a line and a card. A frame without a kind is
/// a custom action.
pub open spec fn peer_effects(s: DaemonState, from: Seq<char>, frame: JsonView) -> Seq<EffectView> {
    if dropped(s, frame.text_or("action"@, "custom"@)) {
        Seq::empty()
    } else {
        seq![
            EffectView::Print(
                "[p2p] "@ + label_of(s.friends@, from) + ": "@ + json_text(frame),
            ),
            shown("action"@, peer_payload(s.friends@, from, frame)),
        ]
    }
}

/// Receives a frame that came from a peer directly.
pub fn on_peer_action(s: &DaemonState, from: &str, frame: &Json) -> (r: Vec<Effect>)
    ensures
        effects(r@) == peer_effects(*s, from@, frame@),
{
    let mut out: Vec<Effect> = Vec::new();
    if drops(s, frame.text_or("action", "custom").as_str()) {
        assert(effects(out@) =~= Seq::<EffectView>::empty());
        return out;
    }
    out.push(
        Effect::Print(
            "[p2p] ".to_owned().concat(label(&s.friends, from).as_str()).concat(": ").concat(
                frame.to_text().as_str(),
            ),
        ),
    );
    let payload = Fields::new().with_text("from", from).with(
        "action",
        frame.member_or("action", Json::text("custom")),
    ).with("title", frame.member_or("title", Json::text(""))).with(
        "body",
        frame.member_or("body", Json::text("")),
    ).with("data", frame.member_or("data", Json::object()));
    let payload = match find_with_id(&s.friends, from) {
        Some(f) => payload.with_text("from_username", f.username.as_str()),
        None => payload,
    };
    out.push(Effect::Show(OverlayEvent::new("action", payload.done())));
    assert(effects(out@) =~= peer_effects(*s, from@, frame@));
    out
}

/// What a hotkey does.
pub enum HotkeyStep {
    /// Bring the window to the front.
    Open(OverlayEvent),
    /// Start or stop talking, as a command of the local socket would.
    Command(Json),
    Ignore,
}

/// The command that a hotkey stands for.
pub open spec fn hotkey_command(cmd: Seq<char>) -> JsonView {
    JsonView::Obj(map!["cmd"@ => JsonView::Str(cmd), "id"@ => JsonView::Str(""@)])
}

/// Whether a key that went down or up does what it is for.
pub open spec fn hotkey_done(action: Seq<char>, pressed: bool, r: HotkeyStep) -> bool {
    match r {
        HotkeyStep::Open(e) => action == "open"@ && pressed && e@ == (EventView {
            kind: "focus"@,
            payload: empty_obj(),
        }),
        HotkeyStep::Command(c) => action == "ptt"@ && c@ == hotkey_command(
            if pressed {
                "ptt-start"@
            } else {
                "ptt-stop"@
            },
        ),
        HotkeyStep::Ignore => action != "ptt"@ && !(action == "open"@ && pressed),
    }
}

/// Receives a key that went down or up. The `open` key acts when it goes down;
/// the push-to-talk key talks for as long as it is held.
pub fn on_hotkey(action: &str, pressed: bool) -> (r: HotkeyStep)
    ensures
        hotkey_done(action@, pressed, r),
{
    if same(action, "open") && pressed {
        HotkeyStep::Open(OverlayEvent::new("focus", Json::object()))
    } else if same(action, "ptt") {
        let cmd = if pressed {
            "ptt-start"
        } else {
            "ptt-stop"
        };
        HotkeyStep::Command(Fields::new().with_text("cmd", cmd).with_text("id", "").done())
    } else {
        HotkeyStep::Ignore
    }
}

// ---- warming up ----

/// Whether a call to a friend could be answered: they are a mutual friend and
/// online.
pub open spec fn is_ready(friends: Seq<Friend>, id: Seq<char>) -> bool {
    match with_id(friends, id) {
        Some(f) => f.status@ == "accepted"@ && f.online,
        None => false,
    }
}

/// Says whether a call to a friend could be answered.
pub fn ready(friends: &Vec<Friend>, id: &str) -> (r: bool)
    ensures
        r == is_ready(friends@, id@),
{
    match find_with_id(friends, id) {
        Some(f) => same(f.status.as_str(), "accepted") && f.online,
        None => false,
    }
}

/// Whose connection is worth warming up: that of the push-to-talk friend, if
/// they are ready and there is a connection to dial over.
pub open spec fn prewarm_target_of(s: DaemonState) -> Option<Seq<char>> {
    match opt_view(s.last_ptt_friend) {
        Some(raw) if s.connected => match resolved(s.friends@, raw) {
            Some(id) if is_ready(s.friends@, id) => Some(id),
            _ => None,
        },
        _ => None,
    }
}

/// Says whose connection is worth warming up.
pub fn prewarm_target(s: &DaemonState) -> (r: Option<String>)
    ensures
        opt_view(r) == prewarm_target_of(*s),
{
    if !s.connected {
        return None;
    }
    match &s.last_ptt_friend {
        Some(raw) => match resolve(&s.friends, raw.as_str()) {
            Some(id) => if ready(&s.friends, id.as_str()) {
                Some(id)
            } else {
                None
            },
            None => None,
        },
        None => None,
    }
}

// ---- laws ----

/// In Do Not Disturb an action of a kind that is blocked comes to nothing,
/// whether the server or a peer brings it: nothing is printed, shown or run.
pub proof fn do_not_disturb_drops_what_is_blocked(
    s: DaemonState,
    from: Seq<char>,
    action: Seq<char>,
    title: Seq<char>,
    body: Seq<char>,
    data: JsonView,
    frame: JsonView,
)
    requires
        s.presence@ == "dnd"@,
        filtered(s, action),
        frame.text_or("action"@, "custom"@) == action,
    ensures
        action_effects(s, from, action, title, body, data) == Seq::<EffectView>::empty(),
        peer_effects(s, from, frame) == Seq::<EffectView>::empty(),
{
}

/// In Do Not Disturb a client that blocks every kind, as it does unless told
/// otherwise, drops every action and every call, however it arrives.
pub proof fn do_not_disturb_drops_everything(
    s: DaemonState,
    from: Seq<char>,
    action: Seq<char>,
    title: Seq<char>,
    body: Seq<char>,
    data: JsonView,
    frame: JsonView,
)
    requires
        s.dnd_block_message && s.dnd_block_game_invite && s.dnd_block_ptt && s.dnd_block_plugin
            && s.dnd_block_custom,
        s.presence@ == "dnd"@,
    ensures
        action_effects(s, from, action, title, body, data) == Seq::<EffectView>::empty(),
        peer_effects(s, from, frame) == Seq::<EffectView>::empty(),
        signal_effects(s, from, data) == Seq::<EffectView>::empty(),
{
}

/// Outside Do Not Disturb nothing is dropped.
pub proof fn only_do_not_disturb_drops(
    s: DaemonState,
    from: Seq<char>,
    action: Seq<char>,
    title: Seq<char>,
    body: Seq<char>,
    data: JsonView,
    frame: JsonView,
)
    requires
        s.presence@ != "dnd"@,
    ensures
        action_effects(s, from, action, title, body, data).len() >= 2,
        peer_effects(s, from, frame).len() == 2,
        signal_effects(s, from, data) == seq![EffectView::Negotiate { from, payload: data }],
{
}

/// The first friend list announces nobody, however many requests are in it.
pub proof fn first_list_announces_nobody(s: DaemonState, list: Seq<Friend>, i: int)
    requires
        !s.friends_seen,
        0 <= i < friends_effects(s, list).len(),
    ensures
        !(friends_effects(s, list)[i] is Print),
        friends_effects(s, list)[i] matches EffectView::Show(e) ==> e.kind == "friends"@,
{
}

/// Requests that were there before are not announced again: a list in which every
/// request was in the list before it announces nobody.
pub proof fn requests_are_announced_once(known: Seq<Friend>, list: Seq<Friend>)
    requires
        forall|i: int|
            0 <= i < list.len() && (#[trigger] list[i]).status@ == "pending_in"@ ==> awaits(
                known,
                list[i].id@,
            ),
    ensures
        requests_effects(known, list) == Seq::<EffectView>::empty(),
    decreases list.len(),
{
    if list.len() > 0 {
        let front = list.drop_last();
        assert forall|i: int|
            0 <= i < front.len() && (#[trigger] front[i]).status@ == "pending_in"@ implies awaits(
            known,
            front[i].id@,
        ) by {
            assert(front[i] == list[i]);
        }
        requests_are_announced_once(known, front);
        assert(list.last() == list[list.len() - 1]);
        assert(requests_effects(known, list) =~= Seq::<EffectView>::empty());
    }
}

/// A request that was not there before is announced: its line is printed and its
/// card is shown.
pub proof fn new_requests_are_announced(known: Seq<Friend>, list: Seq<Friend>, i: int)
    requires
        0 <= i < list.len(),
        is_new_request(known, list[i]),
    ensures
        requests_effects(known, list).contains(request_effects(list[i])[0]),
        requests_effects(known, list).contains(request_effects(list[i])[1]),
    decreases list.len(),
{
    let front = list.drop_last();
    let head = requests_effects(known, front);
    let all = requests_effects(known, list);
    if i == list.len() - 1 {
        assert(list.last() == list[i]);
        assert(all[head.len() as int] == request_effects(list[i])[0]);
        assert(all[head.len() as int + 1] == request_effects(list[i])[1]);
    } else {
        assert(front[i] == list[i]);
        new_requests_are_announced(known, front, i);
        let a = choose|a: int| 0 <= a < head.len() && head[a] == request_effects(list[i])[0];
        let b = choose|b: int| 0 <= b < head.len() && head[b] == request_effects(list[i])[1];
        assert(all[a] == head[a] && all[b] == head[b]);
    }
}

/// Objections reach the calls in the order in which they were made: the second
/// objection goes to the second call.
pub proof fn objections_go_oldest_first(waiters: Seq<u64>, message: Seq<char>)
    requires
        waiters.len() >= 2,
    ensures
        error_effects(waiters, message) == seq![
            EffectView::Refuse { waiter: waiters[0], message },
        ],
        error_effects(others(waiters), message) == seq![
            EffectView::Refuse { waiter: waiters[1], message },
        ],
{
}

/// A new presence of one friend leaves every other friend as they were, and
/// nobody joins or leaves the list.
pub proof fn presence_touches_one_friend(
    old_list: Seq<Friend>,
    new_list: Seq<Friend>,
    id: Seq<char>,
    online: bool,
    state: Seq<char>,
    other: Seq<char>,
)
    requires
        all_patched(old_list, new_list, id, online, state),
        other != id,
    ensures
        with_id(new_list, other) == with_id(old_list, other),
        with_id(new_list, id) is Some == with_id(old_list, id) is Some,
        with_id(new_list, id) matches Some(f) ==> f.online == online && f.status == with_id(
            old_list,
            id,
        )->0.status && f.username == with_id(old_list, id)->0.username,
    decreases old_list.len(),
{
    if old_list.len() > 0 {
        assert(is_patched(old_list[0], new_list[0], id, online, state));
        let o = old_list.drop_first();
        let n = new_list.drop_first();
        assert forall|i: int| 0 <= i < o.len() implies is_patched(
            o[i],
            #[trigger] n[i],
            id,
            online,
            state,
        ) by {
            assert(is_patched(old_list[i + 1], new_list[i + 1], id, online, state));
        }
        presence_touches_one_friend(o, n, id, online, state, other);
    }
}

} // verus!
