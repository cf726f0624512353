//! The commands that clients give the daemon over its local socket, and
//! push-to-talk sessions.
use vstd::prelude::*;

#[allow(unused_imports)]
use crate::commands::presence_request;
#[allow(unused_imports)]
use crate::config::opt_view;
use crate::daemon::{make_card, ready, DaemonState};
#[allow(unused_imports)]
use crate::daemon::{card, hotkey_command, is_ready};
use crate::friends::{find_with_id, label, resolve};
#[allow(unused_imports)]
use crate::friends::{
    friend_frame_of, friend_request_of, label_of, named, obstacle, perm_request_of,
    resolve_answer, resolve_request_of, resolved, send_request_of, state_request_of, with_id,
    FriendCmd, PermCmd,
};
use crate::json::{Fields, Json};
#[allow(unused_imports)]
use crate::json::{empty_obj, opt_text, JsonView};
use crate::overlay_ipc::OverlayEvent;
#[allow(unused_imports)]
use crate::overlay_ipc::{answers, EventView};
use crate::protocol::{
    about_user, clone_opt, friends_json, perm_update, perms_json, send_action, set_presence, tagged,
    Friend,
};
#[allow(unused_imports)]
use crate::protocol::{
    action_frame, friends_tree, kind_word, perm_frame, perms_tree, presence_frame, tag_frame,
    user_frame, ActionKind,
};
use crate::text::same;

verus! {

/// How long a call waits for the server to object. Silence means success.
pub const ACK_WAIT_MS: u64 = 800;

/// How long a call waits for a list before it makes do with the last one.
pub const LIST_WAIT_MS: u64 = 1500;

/// The lists that a call can wait for.
#[derive(Debug, Clone, Copy, PartialEq, Eq, Structural)]
pub enum Listing {
    Friends,
    Perms,
}

/// What the daemon does with a command.
pub enum Step {
    /// Reply at once.
    Reply(Json),
    /// Send a frame to the server and wait for it to object.
    Call { frame: Json },
    /// Ask the server for a list and wait for it.
    List { frame: Json, of: Listing },
    /// Send a frame to the server and reply at once.
    Publish { frame: Json, reply: Json },
    /// Warm up the connection to a friend and reply at once.
    Prewarm { friend_id: String, reply: Json },
    /// Start to talk to a friend and reply at once.
    Talk { friend_id: String, label: String, device: Option<String>, reply: Json },
    /// Stop talking, if a session is on, and reply at once.
    Hush { session: Option<u64>, reply: Json },
}

/// The model of what the daemon does.
pub enum StepView {
    Reply(JsonView),
    Call { frame: JsonView },
    List { frame: JsonView, of: Listing },
    Publish { frame: JsonView, reply: JsonView },
    Prewarm { friend_id: Seq<char>, reply: JsonView },
    Talk {
        friend_id: Seq<char>,
        label: Seq<char>,
        device: Option<Seq<char>>,
        reply: JsonView,
    },
    Hush { session: Option<u64>, reply: JsonView },
}

impl Step {
    /// The step over the views of its parts.
    pub open spec fn view(self) -> StepView {
        match self {
            Step::Reply(j) => StepView::Reply(j@),
            Step::Call { frame } => StepView::Call { frame: frame@ },
            Step::List { frame, of } => StepView::List { frame: frame@, of },
            Step::Publish { frame, reply } => StepView::Publish { frame: frame@, reply: reply@ },
            Step::Prewarm { friend_id, reply } => StepView::Prewarm {
                friend_id: friend_id@,
                reply: reply@,
            },
            Step::Talk { friend_id, label, device, reply } => StepView::Talk {
                friend_id: friend_id@,
                label: label@,
                device: opt_view(device),
                reply: reply@,
            },
            Step::Hush { session, reply } => StepView::Hush { session, reply: reply@ },
        }
    }
}

// ---- replies ----

/// The id of a command, which its reply carries.
pub open spec fn request_id(req: JsonView) -> JsonView {
    req.member_or("id"@, JsonView::Null)
}

/// The reply that a command was done.
pub open spec fn ok_reply(req: JsonView) -> JsonView {
    JsonView::Obj(map!["reply"@ => request_id(req), "ok"@ => JsonView::Bool(true)])
}

/// The reply that a command was not done.
pub open spec fn error_reply(req: JsonView, message: Seq<char>) -> JsonView {
    JsonView::Obj(map!["reply"@ => request_id(req), "error"@ => JsonView::Str(message)])
}

/// The reply that is an id.
pub open spec fn id_reply(req: JsonView, id: Seq<char>) -> JsonView {
    JsonView::Obj(map!["reply"@ => request_id(req), "id"@ => JsonView::Str(id)])
}

/// The reply that a session is on already.
pub open spec fn running_reply(req: JsonView) -> JsonView {
    JsonView::Obj(
        map![
            "reply"@ => request_id(req),
            "ok"@ => JsonView::Bool(true),
            "already_running"@ => JsonView::Bool(true),
        ],
    )
}

/// The reply that a session with a friend starts.
pub open spec fn talking_reply(req: JsonView, friend_id: Seq<char>) -> JsonView {
    JsonView::Obj(
        map![
            "reply"@ => request_id(req),
            "ok"@ => JsonView::Bool(true),
            "friend_id"@ => JsonView::Str(friend_id),
        ],
    )
}

/// The reply that is what is known of a friend.
pub open spec fn state_reply(req: JsonView, f: Friend) -> JsonView {
    JsonView::Obj(
        map![
            "reply"@ => request_id(req),
            "username"@ => JsonView::Str(f.username@),
            "online"@ => JsonView::Bool(f.online),
            "presence"@ => opt_text(f.presence),
            "status"@ => JsonView::Str(f.status@),
        ],
    )
}

/// The reply that is a list, under its name.
pub open spec fn list_reply_of(req: JsonView, of: Listing, list: JsonView) -> JsonView {
    match of {
        Listing::Friends => JsonView::Obj(map!["reply"@ => request_id(req), "friends"@ => list]),
        Listing::Perms => JsonView::Obj(map!["reply"@ => request_id(req), "perms"@ => list]),
    }
}

/// A reply with nothing in it yet.
fn reply_to(req: &Json) -> (r: Fields)
    ensures
        r@ == map!["reply"@ => request_id(req@)],
{
    Fields::new().with("reply", req.member_or("id", Json::Null))
}

/// Replies that a command was done.
fn done(req: &Json) -> (r: Json)
    ensures
        r@ == ok_reply(req@),
{
    reply_to(req).with_bool("ok", true).done()
}

/// Replies that a command was not done.
fn failed(req: &Json, message: &str) -> (r: Json)
    ensures
        r@ == error_reply(req@, message@),
{
    reply_to(req).with_text("error", message).done()
}

/// Replies with an id.
fn found(req: &Json, id: &str) -> (r: Json)
    ensures
        r@ == id_reply(req@, id@),
{
    reply_to(req).with_text("id", id).done()
}

// ---- push-to-talk ----

/// Why a friend cannot be talked to; nothing where they can.
pub open spec fn talk_obstacle(friends: Seq<Friend>, id: Seq<char>) -> Option<Seq<char>> {
    let username = label_of(friends, id);
    match with_id(friends, id) {
        Some(f) if f.status@ == "accepted"@ => if !f.online {
            Some(username + " is offline — can't start PTT"@)
        } else if opt_view(f.presence) == Some("dnd"@) {
            Some(username + " is in Do Not Disturb"@)
        } else {
            None
        },
        _ => Some(username + " is not a mutual friend — you must both accept first"@),
    }
}

/// Whom a command to talk is about: the friend it names, or else whom one talked
/// to last.
pub open spec fn talk_target(s: DaemonState, req: JsonView) -> Option<Seq<char>> {
    match req.text_member("friend"@) {
        Some(f) => Some(f),
        None => opt_view(s.last_ptt_friend),
    }
}

/// What the daemon does with a command to talk.
pub open spec fn talk_step_of(s: DaemonState, req: JsonView) -> StepView {
    match talk_target(s, req) {
        None => StepView::Reply(
            error_reply(req, "no PTT friend (set with `ptt-friend <name>` or pass one)"@),
        ),
        Some(raw) => match resolved(s.friends@, raw) {
            None => StepView::Reply(
                error_reply(req, "no friend named `"@ + raw + "` in your list"@),
            ),
            Some(id) => match talk_obstacle(s.friends@, id) {
                Some(reason) => StepView::Reply(error_reply(req, reason)),
                None => if s.ptt_stop is Some {
                    StepView::Reply(running_reply(req))
                } else if !s.connected {
                    StepView::Reply(error_reply(req, "daemon not connected to server yet"@))
                } else {
                    StepView::Talk {
                        friend_id: id,
                        label: label_of(s.friends@, id),
                        device: opt_view(s.ptt_input_device),
                        reply: talking_reply(req, id),
                    }
                },
            },
        },
    }
}

/// Whether the state after a command to talk is the right one: a session that
/// starts is noted under its number, and the friend is remembered.
pub open spec fn talk_noted(
    before: DaemonState,
    after: DaemonState,
    session: u64,
    req: JsonView,
) -> bool {
    match talk_step_of(before, req) {
        StepView::Talk { friend_id, .. } => {
            &&& after == (DaemonState {
                ptt_stop: Some(session),
                last_ptt_friend: after.last_ptt_friend,
                ..before
            })
            &&& opt_view(after.last_ptt_friend) == Some(friend_id)
        },
        _ => after == before,
    }
}

/// Says why a friend cannot be talked to.
fn cannot_talk(friends: &Vec<Friend>, id: &str) -> (r: Option<String>)
    ensures
        opt_view(r) == talk_obstacle(friends@, id@),
{
    let username = label(friends, id);
    if let Some(f) = find_with_id(friends, id) {
        if same(f.status.as_str(), "accepted") {
            if !f.online {
                return Some(username.concat(" is offline — can't start PTT"));
            }
            let disturbed = match &f.presence {
                Some(p) => same(p.as_str(), "dnd"),
                None => false,
            };
            if disturbed {
                return Some(username.concat(" is in Do Not Disturb"));
            }
            return None;
        }
    }
    Some(username.concat(" is not a mutual friend — you must both accept first"))
}

/// Does a command to talk.
pub fn ptt_start(s: &mut DaemonState, session: u64, req: &Json) -> (r: Step)
    ensures
        r@ == talk_step_of(*old(s), req@),
        talk_noted(*old(s), *final(s), session, req@),
{
    let target = match req.text_member("friend") {
        Some(f) => Some(f.to_owned()),
        None => clone_opt(&s.last_ptt_friend),
    };
    let raw = match target {
        Some(raw) => raw,
        None => {
            return Step::Reply(
                failed(req, "no PTT friend (set with `ptt-friend <name>` or pass one)"),
            );
        },
    };
    let id = match resolve(&s.friends, raw.as_str()) {
        Some(id) => id,
        None => {
            let message = "no friend named `".to_owned().concat(raw.as_str()).concat(
                "` in your list",
            );
            return Step::Reply(failed(req, message.as_str()));
        },
    };
    if let Some(reason) = cannot_talk(&s.friends, id.as_str()) {
        return Step::Reply(failed(req, reason.as_str()));
    }
    if s.ptt_stop.is_some() {
        return Step::Reply(
            reply_to(req).with_bool("ok", true).with_bool("already_running", true).done(),
        );
    }
    if !s.connected {
        return Step::Reply(failed(req, "daemon not connected to server yet"));
    }
    let username = label(&s.friends, id.as_str());
    let reply = reply_to(req).with_bool("ok", true).with_text("friend_id", id.as_str()).done();
    let device = clone_opt(&s.ptt_input_device);
    s.ptt_stop = Some(session);
    s.last_ptt_friend = Some(id.clone());
    Step::Talk { friend_id: id, label: username, device, reply }
}

/// Does a command to stop talking: the session that is on, if any, is no longer.
pub fn ptt_stop(s: &mut DaemonState, req: &Json) -> (r: Step)
    ensures
        r@ == (StepView::Hush { session: old(s).ptt_stop, reply: ok_reply(req@) }),
        *final(s) == (DaemonState { ptt_stop: None, ..*old(s) }),
{
    let session = s.ptt_stop;
    s.ptt_stop = None;
    Step::Hush { session, reply: done(req) }
}

/// What is known of the connection to a friend.
#[derive(Debug, Clone, Copy, PartialEq, Eq, Structural)]
pub enum Link {
    Connecting,
    Connected,
    /// Failed, closed or disconnected.
    Broken,
}

/// How long a session waits for its connection, and how often it looks.
pub const CONNECT_WAIT_MS: u64 = 10_000;

/// The pause between two looks.
pub const CONNECT_POLL_MS: u64 = 200;

/// What a session that waits for its connection does next.
pub enum TalkStep {
    Wait,
    /// The key was released: give up quietly.
    Abort,
    Talk,
    /// Give up and say why.
    Fail(String),
}

/// Whether a session that waits for its connection goes on right.
pub open spec fn link_awaited(stopped: bool, link: Link, late: bool, r: TalkStep) -> bool {
    match r {
        TalkStep::Abort => stopped,
        TalkStep::Talk => !stopped && link == Link::Connected,
        TalkStep::Fail(m) => !stopped && if link == Link::Broken {
            m@
                == "couldn't connect — the network blocked the peer-to-peer link (NAT/firewall). A TURN relay may be required."@
        } else {
            link == Link::Connecting && late && m@
                == "timed out connecting — STUN couldn't punch through. A TURN relay may be required for this friend's network."@
        },
        TalkStep::Wait => !stopped && link == Link::Connecting && !late,
    }
}

/// Goes on with a session that waits for its connection.
pub fn await_link(stopped: bool, link: Link, late: bool) -> (r: TalkStep)
    ensures
        link_awaited(stopped, link, late, r),
{
    if stopped {
        return TalkStep::Abort;
    }
    match link {
        Link::Connected => TalkStep::Talk,
        Link::Broken => TalkStep::Fail(
            "couldn't connect — the network blocked the peer-to-peer link (NAT/firewall). A TURN relay may be required.".to_owned(),
        ),
        Link::Connecting => if late {
            TalkStep::Fail(
                "timed out connecting — STUN couldn't punch through. A TURN relay may be required for this friend's network.".to_owned(),
            )
        } else {
            TalkStep::Wait
        },
    }
}

/// Why a session could not even call.
pub fn dial_failed() -> (r: String)
    ensures
        r@ == "couldn't start the call (dial failed)"@,
{
    "couldn't start the call (dial failed)".to_owned()
}

/// What the overlay shows of a session that failed.
pub open spec fn talk_failure(friend: Seq<char>, message: Seq<char>) -> EventView {
    EventView {
        kind: "action"@,
        payload: card(
            ""@,
            "PTT"@,
            "custom"@,
            "PTT failed — "@ + friend,
            message,
            empty_obj(),
        ),
    }
}

/// The card that says why a session failed. A key that is held has nobody to
/// reply to.
pub fn ptt_error(friend: &str, message: &str) -> (r: OverlayEvent)
    ensures
        r@ == talk_failure(friend@, message@),
{
    make_card(
        "",
        "PTT",
        "custom",
        "PTT failed — ".to_owned().concat(friend).as_str(),
        message,
        Json::object(),
    )
}

/// Notes that a session is over, however it ended. One that began since is not
/// touched.
pub fn talk_over(s: &mut DaemonState, session: u64)
    ensures
        *final(s) == over(*old(s), session),
{
    if let Some(n) = s.ptt_stop {
        if n == session {
            s.ptt_stop = None;
        }
    }
}

/// The state after a session is over.
pub open spec fn over(s: DaemonState, session: u64) -> DaemonState {
    if s.ptt_stop == Some(session) {
        DaemonState { ptt_stop: None, ..s }
    } else {
        s
    }
}

// ---- all commands ----

/// The friend that a command sets for push-to-talk, as an id.
pub open spec fn new_ptt_friend(s: DaemonState, req: JsonView) -> Option<Seq<char>> {
    match req.text_member("friend"@) {
        Some(f) => resolved(s.friends@, f),
        None => None,
    }
}

/// What the daemon does with a command.
pub open spec fn command_step(s: DaemonState, req: JsonView) -> StepView {
    let kind = req.text_or("cmd"@, ""@);
    if kind == "send-action"@ {
        StepView::Call {
            frame: action_frame(
                req.text_or("to"@, ""@),
                req.text_or("action"@, ""@),
                req.text_or("title"@, ""@),
                req.text_or("body"@, ""@),
                req.member_or("data"@, empty_obj()),
            ),
        }
    } else if kind == "friend-list"@ {
        StepView::List { frame: tag_frame("friend_list"@), of: Listing::Friends }
    } else if kind == "friend-add"@ {
        StepView::Call { frame: user_frame("friend_add"@, req.text_or("username"@, ""@)) }
    } else if kind == "friend-accept"@ {
        StepView::Call { frame: user_frame("friend_accept"@, req.text_or("username"@, ""@)) }
    } else if kind == "friend-remove"@ {
        StepView::Call { frame: user_frame("friend_remove"@, req.text_or("username"@, ""@)) }
    } else if kind == "perm-list"@ {
        StepView::List { frame: tag_frame("perm_list"@), of: Listing::Perms }
    } else if kind == "perm-set"@ {
        StepView::Call {
            frame: perm_frame(
                req.text_or("friend_id"@, ""@),
                req.text_or("action"@, ""@),
                req.flag("allowed"@),
            ),
        }
    } else if kind == "resolve-friend"@ {
        let ident = req.text_or("ident"@, ""@);
        StepView::Reply(
            match resolved(s.friends@, ident) {
                Some(id) => id_reply(req, id),
                None => error_reply(req, "no friend named "@ + ident),
            },
        )
    } else if kind == "ptt-start"@ {
        talk_step_of(s, req)
    } else if kind == "friend-state"@ {
        StepView::Reply(
            match with_id(s.friends@, req.text_or("friend_id"@, ""@)) {
                Some(f) => state_reply(req, f),
                None => error_reply(req, "friend not in cache"@),
            },
        )
    } else if kind == "set-presence"@ {
        StepView::Publish {
            frame: presence_frame(req.text_or("state"@, "online"@)),
            reply: ok_reply(req),
        }
    } else if kind == "set-ptt-friend"@ {
        match new_ptt_friend(s, req) {
            Some(id) if s.connected && is_ready(s.friends@, id) => StepView::Prewarm {
                friend_id: id,
                reply: ok_reply(req),
            },
            _ => StepView::Reply(ok_reply(req)),
        }
    } else if kind == "ptt-stop"@ {
        StepView::Hush { session: s.ptt_stop, reply: ok_reply(req) }
    } else {
        StepView::Reply(error_reply(req, "unknown cmd: "@ + kind))
    }
}

/// Whether the state after a command is the right one. A call that waits is
/// queued under its number, which is also the number of a session.
pub open spec fn command_noted(
    before: DaemonState,
    after: DaemonState,
    number: u64,
    req: JsonView,
) -> bool {
    let kind = req.text_or("cmd"@, ""@);
    match command_step(before, req) {
        StepView::Call { .. } => {
            &&& after == (DaemonState { pending_acks: after.pending_acks, ..before })
            &&& after.pending_acks@ == before.pending_acks@.push(number)
        },
        StepView::List { of: Listing::Friends, .. } => {
            &&& after == (DaemonState { pending_friends: after.pending_friends, ..before })
            &&& after.pending_friends@ == before.pending_friends@.push(number)
        },
        StepView::List { of: Listing::Perms, .. } => {
            &&& after == (DaemonState { pending_perms: after.pending_perms, ..before })
            &&& after.pending_perms@ == before.pending_perms@.push(number)
        },
        StepView::Publish { .. } => {
            &&& after == (DaemonState { presence: after.presence, ..before })
            &&& after.presence@ == req.text_or("state"@, "online"@)
        },
        StepView::Hush { .. } => after == (DaemonState { ptt_stop: None, ..before }),
        _ => if kind == "resolve-friend"@ {
            after == before
        } else if kind == "ptt-start"@ {
            talk_noted(before, after, number, req)
        } else if kind == "friend-state"@ {
            after == before
        } else if kind == "set-ptt-friend"@ {
            &&& after == (DaemonState { last_ptt_friend: after.last_ptt_friend, ..before })
            &&& opt_view(after.last_ptt_friend) == new_ptt_friend(before, req)
        } else {
            after == before
        },
    }
}

/// Does a call about a user.
fn user_call(s: &mut DaemonState, number: u64, t: &str, req: &Json) -> (r: Step)
    ensures
        r@ == (StepView::Call { frame: user_frame(t@, req@.text_or("username"@, ""@)) }),
        *final(s) == (DaemonState { pending_acks: final(s).pending_acks, ..*old(s) }),
        final(s).pending_acks@ == old(s).pending_acks@.push(number),
{
    s.pending_acks.push(number);
    Step::Call { frame: about_user(t, req.text_or("username", "").as_str()) }
}

/// Does a command that changes nothing and is answered from what is known.
fn lookup(s: &DaemonState, kind: &str, req: &Json) -> (r: Json)
    requires
        kind@ == "resolve-friend"@ || kind@ == "friend-state"@,
    ensures
        r@ == (if kind@ == "resolve-friend"@ {
            match resolved(s.friends@, req@.text_or("ident"@, ""@)) {
                Some(id) => id_reply(req@, id),
                None => error_reply(req@, "no friend named "@ + req@.text_or("ident"@, ""@)),
            }
        } else {
            match with_id(s.friends@, req@.text_or("friend_id"@, ""@)) {
                Some(f) => state_reply(req@, f),
                None => error_reply(req@, "friend not in cache"@),
            }
        }),
{
    if same(kind, "resolve-friend") {
        let ident = req.text_or("ident", "");
        match resolve(&s.friends, ident.as_str()) {
            Some(id) => found(req, id.as_str()),
            None => failed(req, "no friend named ".to_owned().concat(ident.as_str()).as_str()),
        }
    } else {
        match find_with_id(&s.friends, req.text_or("friend_id", "").as_str()) {
            Some(f) => reply_to(req).with_text("username", f.username.as_str()).with_bool(
                "online",
                f.online,
            ).with("presence", Json::text_or_null(&f.presence)).with_text(
                "status",
                f.status.as_str(),
            ).done(),
            None => failed(req, "friend not in cache"),
        }
    }
}

/// Does a command to set the push-to-talk friend.
fn set_ptt_friend(s: &mut DaemonState, req: &Json) -> (r: Step)
    ensures
        r@ == (match new_ptt_friend(*old(s), req@) {
            Some(id) if old(s).connected && is_ready(old(s).friends@, id) => StepView::Prewarm {
                friend_id: id,
                reply: ok_reply(req@),
            },
            _ => StepView::Reply(ok_reply(req@)),
        }),
        *final(s) == (DaemonState { last_ptt_friend: final(s).last_ptt_friend, ..*old(s) }),
        opt_view(final(s).last_ptt_friend) == new_ptt_friend(*old(s), req@),
{
    let id = match req.text_member("friend") {
        Some(f) => resolve(&s.friends, f),
        None => None,
    };
    s.last_ptt_friend = clone_opt(&id);
    if let Some(id) = id {
        if s.connected && ready(&s.friends, id.as_str()) {
            return Step::Prewarm { friend_id: id, reply: done(req) };
        }
    }
    Step::Reply(done(req))
}

/// Does a command of the local socket. `number` tells this command from all
/// others.
pub fn handle_ipc_cmd(s: &mut DaemonState, number: u64, req: &Json) -> (r: Step)
    ensures
        r@ == command_step(*old(s), req@),
        command_noted(*old(s), *final(s), number, req@),
{
    let word = req.text_or("cmd", "");
    let kind = word.as_str();
    if same(kind, "send-action") {
        s.pending_acks.push(number);
        Step::Call {
            frame: send_action(
                req.text_or("to", "").as_str(),
                req.text_or("action", "").as_str(),
                req.text_or("title", "").as_str(),
                req.text_or("body", "").as_str(),
                req.member_or("data", Json::object()),
            ),
        }
    } else if same(kind, "friend-list") {
        s.pending_friends.push(number);
        Step::List { frame: tagged("friend_list"), of: Listing::Friends }
    } else if same(kind, "friend-add") {
        user_call(s, number, "friend_add", req)
    } else if same(kind, "friend-accept") {
        user_call(s, number, "friend_accept", req)
    } else if same(kind, "friend-remove") {
        user_call(s, number, "friend_remove", req)
    } else if same(kind, "perm-list") {
        s.pending_perms.push(number);
        Step::List { frame: tagged("perm_list"), of: Listing::Perms }
    } else if same(kind, "perm-set") {
        s.pending_acks.push(number);
        Step::Call {
            frame: perm_update(
                req.text_or("friend_id", "").as_str(),
                req.text_or("action", "").as_str(),
                req.flag("allowed"),
            ),
        }
    } else if same(kind, "resolve-friend") {
        Step::Reply(lookup(s, kind, req))
    } else if same(kind, "ptt-start") {
        ptt_start(s, number, req)
    } else if same(kind, "friend-state") {
        Step::Reply(lookup(s, kind, req))
    } else if same(kind, "set-presence") {
        let state = req.text_or("state", "online");
        s.presence = state.clone();
        Step::Publish { frame: set_presence(state.as_str()), reply: done(req) }
    } else if same(kind, "set-ptt-friend") {
        set_ptt_friend(s, req)
    } else if same(kind, "ptt-stop") {
        ptt_stop(s, req)
    } else {
        Step::Reply(failed(req, "unknown cmd: ".to_owned().concat(kind).as_str()))
    }
}

// ---- how calls end ----

/// How a call that waits for the server to object can end.
pub enum CallEnd {
    /// The server objected.
    Refused(String),
    /// The wait was called off.
    Cancelled,
    /// The server stayed silent.
    Timeout,
    /// The frame could not be sent.
    Unsent,
}

/// The calls that still wait after one was taken out, in their order.
pub open spec fn without(waiters: Seq<u64>, number: u64) -> Seq<u64>
    decreases waiters.len(),
{
    if waiters.len() == 0 {
        waiters
    } else if waiters.last() == number {
        without(waiters.drop_last(), number)
    } else {
        without(waiters.drop_last(), number).push(waiters.last())
    }
}

/// Takes a call out of a queue.
fn take_out(waiters: &Vec<u64>, number: u64) -> (r: Vec<u64>)
    ensures
        r@ == without(waiters@, number),
{
    let mut out: Vec<u64> = Vec::new();
    let mut i: usize = 0;
    assert(waiters@.take(0) =~= Seq::empty());
    while i < waiters.len()
        invariant
            i <= waiters.len(),
            out@ == without(waiters@.take(i as int), number),
        decreases waiters.len() - i,
    {
        assert(waiters@.take(i + 1).drop_last() == waiters@.take(i as int));
        if waiters[i] != number {
            out.push(waiters[i]);
        }
        i += 1;
    }
    assert(waiters@.take(i as int) == waiters@);
    out
}

/// The reply to a call, going by how it ended.
pub open spec fn call_reply(req: JsonView, end: CallEnd) -> JsonView {
    match end {
        CallEnd::Refused(m) => error_reply(req, m@),
        CallEnd::Unsent => error_reply(req, "daemon not connected to server (WS closed)"@),
        _ => ok_reply(req),
    }
}

/// Whether the state after the end of a call is the right one.
pub open spec fn end_noted(
    before: DaemonState,
    after: DaemonState,
    number: u64,
    end: CallEnd,
) -> bool {
    &&& after == (DaemonState { pending_acks: after.pending_acks, ..before })
    &&& match end {
        CallEnd::Timeout | CallEnd::Unsent => after.pending_acks@ == without(
            before.pending_acks@,
            number,
        ),
        _ => after == before,
    }
}

/// Ends the call with a number: its reply, and what the queue is without it. Only
/// an objection or a frame that could not be sent is a failure. A call that was
/// never objected to leaves the queue itself, so that no later objection goes to
/// it.
pub fn call_ended(s: &mut DaemonState, number: u64, req: &Json, end: &CallEnd) -> (r: Json)
    ensures
        r@ == call_reply(req@, *end),
        end_noted(*old(s), *final(s), number, *end),
{
    match end {
        CallEnd::Refused(m) => failed(req, m.as_str()),
        CallEnd::Cancelled => done(req),
        CallEnd::Timeout => {
            s.pending_acks = take_out(&s.pending_acks, number);
            done(req)
        },
        CallEnd::Unsent => {
            s.pending_acks = take_out(&s.pending_acks, number);
            failed(req, "daemon not connected to server (WS closed)")
        },
    }
}

/// The list to reply with: the one that came, or the last one known.
pub open spec fn list_given(s: DaemonState, of: Listing, list: Option<JsonView>) -> JsonView {
    match list {
        Some(l) => l,
        None => match of {
            Listing::Friends => friends_tree(s.friends@),
            Listing::Perms => perms_tree(s.perms@),
        },
    }
}

/// Replies with a list: the one that came, or the last one known.
pub fn list_reply(s: &DaemonState, req: &Json, of: Listing, list: Option<Json>) -> (r: Json)
    ensures
        r@ == list_reply_of(
            req@,
            of,
            list_given(
                *s,
                of,
                match list {
                    Some(l) => Some(l@),
                    None => None,
                },
            ),
        ),
{
    match of {
        Listing::Friends => {
            let l = match list {
                Some(l) => l,
                None => friends_json(&s.friends),
            };
            reply_to(req).with("friends", l).done()
        },
        Listing::Perms => {
            let l = match list {
                Some(l) => l,
                None => perms_json(&s.perms),
            };
            reply_to(req).with("perms", l).done()
        },
    }
}

/// Whether a command asks for an update of the program.
pub open spec fn asks_for_update(req: JsonView) -> bool {
    req.text_or("cmd"@, ""@) == "self-update"@
}

/// Whether a command asks for an update of the program. It is the one command
/// that needs no server.
pub fn is_self_update(req: &Json) -> (r: bool)
    ensures
        r == asks_for_update(req@),
{
    same(req.text_or("cmd", "").as_str(), "self-update")
}

// ---- laws ----

/// What tells the words of the commands apart: their lengths, or a letter.
proof fn lemma_words()
    ensures
        "send-action"@.len() == 11 && "send-action"@[0] == 's',
        "friend-list"@.len() == 11 && "friend-list"@[0] == 'f',
        "friend-add"@.len() == 10,
        "friend-accept"@.len() == 13 && "friend-accept"@[7] == 'a',
        "friend-remove"@.len() == 13 && "friend-remove"@[7] == 'r',
        "perm-list"@.len() == 9 && "perm-list"@[1] == 'e',
        "perm-set"@.len() == 8 && "perm-set"@[1] == 'e',
        "resolve-friend"@.len() == 14 && "resolve-friend"@[0] == 'r',
        "ptt-start"@.len() == 9 && "ptt-start"@[1] == 't',
        "friend-state"@.len() == 12 && "friend-state"@[0] == 'f',
        "set-presence"@.len() == 12 && "set-presence"@[0] == 's',
        "set-ptt-friend"@.len() == 14 && "set-ptt-friend"@[0] == 's',
        "ptt-stop"@.len() == 8 && "ptt-stop"@[1] == 't',
{
    reveal_strlit("send-action");
    reveal_strlit("friend-list");
    reveal_strlit("friend-add");
    reveal_strlit("friend-accept");
    reveal_strlit("friend-remove");
    reveal_strlit("perm-list");
    reveal_strlit("perm-set");
    reveal_strlit("resolve-friend");
    reveal_strlit("ptt-start");
    reveal_strlit("friend-state");
    reveal_strlit("set-presence");
    reveal_strlit("set-ptt-friend");
    reveal_strlit("ptt-stop");
}

/// What tells the members of commands and replies apart.
proof fn lemma_members()
    ensures
        "cmd"@.len() == 3 && "cmd"@[0] == 'c',
        "id"@.len() == 2 && "id"@[0] == 'i',
        "username"@.len() == 8 && "username"@[0] == 'u',
        "friend_id"@.len() == 9,
        "action"@.len() == 6 && "action"@[0] == 'a',
        "allowed"@.len() == 7 && "allowed"@[0] == 'a',
        "to"@.len() == 2 && "to"@[0] == 't',
        "title"@.len() == 5 && "title"@[0] == 't',
        "body"@.len() == 4 && "body"@[0] == 'b',
        "data"@.len() == 4 && "data"@[0] == 'd',
        "ident"@.len() == 5 && "ident"@[0] == 'i',
        "state"@.len() == 5 && "state"@[0] == 's',
        "reply"@.len() == 5 && "reply"@[0] == 'r',
        "ok"@.len() == 2 && "ok"@[0] == 'o',
        "error"@.len() == 5 && "error"@[0] == 'e',
        "friends"@.len() == 7 && "friends"@[0] == 'f',
        "perms"@.len() == 5 && "perms"@[0] == 'p',
        "already_running"@.len() == 15,
        "online"@.len() == 6 && "online"@[0] == 'o',
        "presence"@.len() == 8 && "presence"@[0] == 'p',
        "status"@.len() == 6 && "status"@[0] == 's',
{
    reveal_strlit("cmd");
    reveal_strlit("id");
    reveal_strlit("username");
    reveal_strlit("friend_id");
    reveal_strlit("action");
    reveal_strlit("allowed");
    reveal_strlit("to");
    reveal_strlit("title");
    reveal_strlit("body");
    reveal_strlit("data");
    reveal_strlit("ident");
    reveal_strlit("state");
    reveal_strlit("reply");
    reveal_strlit("ok");
    reveal_strlit("error");
    reveal_strlit("friends");
    reveal_strlit("perms");
    reveal_strlit("already_running");
    reveal_strlit("online");
    reveal_strlit("presence");
    reveal_strlit("status");
}

/// Whether a step that replies at once replies to a command with an id.
pub open spec fn replies_to(step: StepView, id: Seq<char>) -> bool {
    match step {
        StepView::Reply(r) => answers(r, id),
        StepView::Publish { reply, .. } => answers(reply, id),
        StepView::Prewarm { reply, .. } => answers(reply, id),
        StepView::Talk { reply, .. } => answers(reply, id),
        StepView::Hush { reply, .. } => answers(reply, id),
        StepView::Call { .. } => true,
        StepView::List { .. } => true,
    }
}

/// Every reply carries the id of the command it answers, so that its client
/// knows it among all others.
pub proof fn replies_carry_the_id(
    s: DaemonState,
    req: JsonView,
    id: Seq<char>,
    message: Seq<char>,
    of: Listing,
    list: JsonView,
)
    requires
        req.get("id"@) == Some(JsonView::Str(id)),
    ensures
        replies_to(command_step(s, req), id),
        answers(ok_reply(req), id),
        answers(error_reply(req, message), id),
        answers(list_reply_of(req, of, list), id),
{
    lemma_members();
}

/// A friend command reaches the server in the same words, whether the daemon
/// carries it or the command talks to the server itself.
pub proof fn friend_commands_say_the_same(op: FriendCmd, s: DaemonState, id: Seq<char>)
    ensures
        match command_step(s, friend_request_of(op).put("id"@, JsonView::Str(id))) {
            StepView::Call { frame } => frame == friend_frame_of(op),
            StepView::List { frame, of } => frame == friend_frame_of(op) && of
                == Listing::Friends,
            _ => false,
        },
{
    lemma_words();
    lemma_members();
}

/// A permission command reaches the server in the same words either way.
pub proof fn perm_commands_say_the_same(op: PermCmd, s: DaemonState, id: Seq<char>)
    ensures
        command_step(s, perm_request_of(op).put("id"@, JsonView::Str(id))) == (match op {
            PermCmd::List => StepView::List {
                frame: tag_frame("perm_list"@),
                of: Listing::Perms,
            },
            PermCmd::Update { friend_id, action, allowed } => StepView::Call {
                frame: perm_frame(friend_id@, kind_word(action), allowed),
            },
        }),
{
    lemma_words();
    lemma_members();
}

/// An action reaches the server in the same words either way.
pub proof fn actions_say_the_same(
    to: Seq<char>,
    action: ActionKind,
    title: Seq<char>,
    body: Seq<char>,
    data: JsonView,
    s: DaemonState,
    id: Seq<char>,
)
    ensures
        command_step(
            s,
            send_request_of(to, kind_word(action), title, body, data).put("id"@, JsonView::Str(id)),
        ) == (StepView::Call { frame: action_frame(to, kind_word(action), title, body, data) }),
{
    lemma_words();
    lemma_members();
}

/// A command that asks the daemon whether an action would reach someone is
/// stopped exactly when the friend list does not show them as a mutual friend
/// who is online and not in Do Not Disturb.
pub proof fn senders_go_by_the_friend_list(
    s: DaemonState,
    friend_id: Seq<char>,
    kind: Seq<char>,
    id: Seq<char>,
)
    ensures
        command_step(s, state_request_of(friend_id).put("id"@, JsonView::Str(id))) is Reply,
        obstacle(
            friend_id,
            kind,
            command_step(
                s,
                state_request_of(friend_id).put("id"@, JsonView::Str(id)),
            )->Reply_0,
        ) is None <==> (with_id(s.friends@, friend_id) matches Some(f) && f.status@
            == "accepted"@ && f.online && opt_view(f.presence) != Some("dnd"@)),
{
    lemma_words();
    lemma_members();
    reveal_strlit("");
    reveal_strlit("dnd");
    reveal_strlit("accepted");
    assert("dnd"@.len() == 3 && "accepted"@.len() == 8);
}

/// A name that a command has the daemon resolve is the id of the friend of that
/// name; a name that nobody has is refused.
pub proof fn names_resolve_by_the_friend_list(s: DaemonState, ident: Seq<char>, id: Seq<char>)
    ensures
        command_step(s, resolve_request_of(ident).put("id"@, JsonView::Str(id))) is Reply,
        resolve_answer(
            command_step(s, resolve_request_of(ident).put("id"@, JsonView::Str(id)))->Reply_0,
        ) == Some(
            match resolved(s.friends@, ident) {
                Some(f) => Ok::<Seq<char>, Seq<char>>(f),
                None => Err::<Seq<char>, Seq<char>>("no friend named "@ + ident),
            },
        ),
{
    lemma_words();
    lemma_members();
}

/// A presence that is set by command is what friends are told.
pub proof fn presences_are_published(s: DaemonState, state: Seq<char>, id: Seq<char>)
    ensures
        command_step(s, presence_request(state).put("id"@, JsonView::Str(id))) == (
        StepView::Publish {
            frame: presence_frame(state),
            reply: ok_reply(presence_request(state).put("id"@, JsonView::Str(id))),
        }),
{
    lemma_words();
    lemma_members();
}

/// A call that ends leaves the calls of others in the queue, in their order, and
/// is not in it any more: the next objection goes to the oldest of the others.
pub proof fn calls_leave_the_others_waiting(before: Seq<u64>, number: u64, behind: Seq<u64>)
    requires
        !before.contains(number),
        !behind.contains(number),
    ensures
        without(before.push(number) + behind, number) == before + behind,
        !without(before.push(number) + behind, number).contains(number),
    decreases behind.len(),
{
    let all = before.push(number) + behind;
    if behind.len() > 0 {
        let front = behind.drop_last();
        assert(behind.last() != number) by {
            assert(behind.contains(behind.last()));
        }
        assert(!front.contains(number)) by {
            if front.contains(number) {
                let i = choose|i: int| 0 <= i < front.len() && front[i] == number;
                assert(behind[i] == number);
            }
        }
        calls_leave_the_others_waiting(before, number, front);
        assert(all.drop_last() =~= before.push(number) + front);
        assert((before + front).push(behind.last()) =~= before + behind);
    } else {
        assert(all =~= before.push(number));
        assert(all.drop_last() =~= before);
        lemma_nothing_to_take_out(before, number);
        assert(before + behind =~= before);
    }
    assert(!(before + behind).contains(number)) by {
        if (before + behind).contains(number) {
            let i = choose|i: int|
                0 <= i < (before + behind).len() && (before + behind)[i] == number;
            if i < before.len() {
                assert(before[i] == number);
            } else {
                assert(behind[i - before.len()] == number);
            }
        }
    }
}

/// A queue without a call is as it was.
proof fn lemma_nothing_to_take_out(waiters: Seq<u64>, number: u64)
    requires
        !waiters.contains(number),
    ensures
        without(waiters, number) == waiters,
    decreases waiters.len(),
{
    if waiters.len() > 0 {
        let front = waiters.drop_last();
        assert(waiters.last() != number) by {
            assert(waiters.contains(waiters.last()));
        }
        assert(!front.contains(number)) by {
            if front.contains(number) {
                let i = choose|i: int| 0 <= i < front.len() && front[i] == number;
                assert(waiters[i] == number);
            }
        }
        lemma_nothing_to_take_out(front, number);
        assert(front.push(waiters.last()) =~= waiters);
    }
}

/// A session that is over takes only itself away: the end of an older one leaves
/// a newer one on, so that releasing the key still stops it.
pub proof fn older_sessions_leave_newer_ones_on(s: DaemonState, older: u64, newer: u64)
    requires
        s.ptt_stop == Some(newer),
        older != newer,
    ensures
        over(s, older).ptt_stop == Some(newer),
        over(s, newer).ptt_stop is None,
{
}

/// A session starts only with a mutual friend who is online and not in Do Not
/// Disturb, and only when none is on.
pub proof fn sessions_start_with_reachable_friends(s: DaemonState, req: JsonView)
    requires
        talk_step_of(s, req) is Talk,
    ensures
        s.ptt_stop is None,
        s.connected,
        is_ready(s.friends@, talk_step_of(s, req)->Talk_friend_id),
        opt_view(with_id(s.friends@, talk_step_of(s, req)->Talk_friend_id)->0.presence) != Some(
            "dnd"@,
        ),
{
}

/// Two sessions are never on at once: while one is on, no command starts
/// another or forgets it.
pub proof fn one_session_at_a_time(
    before: DaemonState,
    after: DaemonState,
    number: u64,
    req: JsonView,
)
    requires
        before.ptt_stop is Some,
        talk_noted(before, after, number, req),
    ensures
        !(talk_step_of(before, req) is Talk),
        after.ptt_stop == before.ptt_stop,
{
}

/// What the key started when it went down is stopped when it goes up.
pub proof fn release_stops_what_press_started(
    before: DaemonState,
    held: DaemonState,
    number: u64,
    req: JsonView,
)
    requires
        talk_step_of(before, req) is Talk,
        talk_noted(before, held, number, req),
    ensures
        held.ptt_stop == Some(number),
        command_step(held, hotkey_command("ptt-stop"@)) == (StepView::Hush {
            session: Some(number),
            reply: ok_reply(hotkey_command("ptt-stop"@)),
        }),
{
    lemma_words();
    lemma_members();
}

} // verus!
