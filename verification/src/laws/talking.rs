//! Push-to-talk, and the other commands of the local socket.
use vstd::prelude::*;

#[allow(unused_imports)]
use crate::commands::{presence_request, session_result, talk_request_of};
#[allow(unused_imports)]
use crate::config::{opt_view, Config};
#[allow(unused_imports)]
use crate::daemon::{hotkey_done, is_ready, DaemonState, HotkeyStep};
#[allow(unused_imports)]
use crate::friends::{
    bare_request, friend_frame_of, friend_request_of, label_of, perm_request_of, resolved,
    send_request_of, user_request, with_id, FriendCmd, PermCmd,
};
#[allow(unused_imports)]
use crate::ipc::{
    asks_for_update, call_reply, command_noted, command_step, end_noted, error_reply, id_reply, link_awaited,
    list_given, list_reply_of, new_ptt_friend, ok_reply, running_reply, state_reply, talk_failure,
    talk_noted, talk_obstacle, talk_step_of, talk_target, talking_reply, without, CallEnd, Link,
    Listing, StepView, TalkStep,
};
#[allow(unused_imports)]
use crate::json::{empty_obj, opt_text, JsonView};
#[allow(unused_imports)]
use crate::protocol::{friends_tree, kind_word, perms_tree, ActionKind, Friend};
#[allow(unused_imports)]
use crate::words::kinds_differ;
#[allow(unused_imports)]
use crate::words::{commands_differ, keys_differ, states_differ, tags_differ};

verus! {

// ---- whom a session is with ----

/// A command to talk that names a friend is about that friend, whoever was called
/// last: what is done does not depend on that, and a session that starts is with
/// the friend that was named.
pub proof fn named_friends_are_called(s: DaemonState, last: Option<String>, req: JsonView, f: Seq<char>)
    requires
        req.text_member("friend"@) == Some(f),
    ensures
        talk_step_of(s, req) == talk_step_of(DaemonState { last_ptt_friend: last, ..s }, req),
        talk_step_of(s, req) matches StepView::Talk { friend_id, .. } ==> resolved(s.friends@, f)
            == Some(friend_id),
        resolved(s.friends@, f) is None ==> talk_step_of(s, req) is Reply,
{
}

/// A command to talk that names nobody is about whom one talked to last; without
/// one there is nobody to call.
pub proof fn otherwise_the_last_friend_is_called(s: DaemonState, req: JsonView)
    requires
        req.text_member("friend"@) is None,
    ensures
        talk_step_of(s, req) matches StepView::Talk { friend_id, .. } ==> s.last_ptt_friend is Some
            && resolved(s.friends@, s.last_ptt_friend->0@) == Some(friend_id),
        s.last_ptt_friend is None ==> talk_step_of(s, req) is Reply && talk_step_of(
            s,
            req,
        )->Reply_0.text_member("error"@) is Some,
{
    keys_differ();
}

/// The friend that a command to talk is about: the one it names, or else the last
/// one.
pub open spec fn meant(s: DaemonState, req: JsonView) -> Option<Seq<char>> {
    if req.text_member("friend"@) is Some {
        req.text_member("friend"@)
    } else if s.last_ptt_friend is Some {
        Some(s.last_ptt_friend->0@)
    } else {
        None
    }
}

/// A session starts exactly where nothing stands in its way: the friend is known,
/// mutual, online and not in Do Not Disturb, nobody is talking, and there is a
/// connection. It is with that friend, under their username, with the microphone
/// of the settings, and the reply says so.
pub proof fn sessions_start_where_they_can(s: DaemonState, req: JsonView, raw: Seq<char>, f: Friend)
    requires
        meant(s, req) == Some(raw),
        resolved(s.friends@, raw) == Some(f.id@),
        with_id(s.friends@, f.id@) == Some(f),
    ensures
        ({
            let step = talk_step_of(s, req);
            &&& step is Talk <==> f.status@ == "accepted"@ && f.online && opt_view(f.presence)
                != Some("dnd"@) && s.ptt_stop is None && s.connected
            &&& step is Talk || step is Reply
            &&& step is Talk ==> {
                &&& step->Talk_friend_id == f.id@
                &&& step->Talk_label == f.username@
                &&& step->device == opt_view(s.ptt_input_device)
                &&& step->Talk_reply.get("ok"@) == Some(JsonView::Bool(true))
                &&& step->Talk_reply.get("friend_id"@) == Some(JsonView::Str(f.id@))
                &&& step->Talk_reply.get("error"@) is None
            }
            &&& step is Reply && !(f.status@ == "accepted"@) ==> step->Reply_0.text_member(
                "error"@,
            ) == Some(f.username@ + " is not a mutual friend — you must both accept first"@)
            &&& step is Reply && f.status@ == "accepted"@ && !f.online
                ==> step->Reply_0.text_member("error"@) == Some(
                f.username@ + " is offline — can't start PTT"@,
            )
            &&& step is Reply && f.status@ == "accepted"@ && f.online && opt_view(f.presence)
                == Some("dnd"@) ==> step->Reply_0.text_member("error"@) == Some(
                f.username@ + " is in Do Not Disturb"@,
            )
            &&& f.status@ == "accepted"@ && f.online && opt_view(f.presence) != Some("dnd"@)
                && s.ptt_stop is Some ==> step->Reply_0.get("ok"@) == Some(JsonView::Bool(true))
                && step->Reply_0.get("already_running"@) == Some(JsonView::Bool(true))
            &&& f.status@ == "accepted"@ && f.online && opt_view(f.presence) != Some("dnd"@)
                && s.ptt_stop is None && !s.connected ==> step->Reply_0.text_member("error"@)
                == Some("daemon not connected to server yet"@)
        }),
{
    keys_differ();
    states_differ();
}

/// A name that nobody has is refused with that name.
pub proof fn unknown_names_are_refused(s: DaemonState, req: JsonView, raw: Seq<char>)
    requires
        meant(s, req) == Some(raw),
        resolved(s.friends@, raw) is None,
    ensures
        talk_step_of(s, req) is Reply,
        talk_step_of(s, req)->Reply_0.text_member("error"@) == Some(
            "no friend named `"@ + raw + "` in your list"@,
        ),
{
    keys_differ();
}

/// A session that starts is on, under its number, and its friend is the one that
/// is called next; nothing else changes. A command that starts none changes
/// nothing.
pub proof fn sessions_are_noted(before: DaemonState, after: DaemonState, number: u64, req: JsonView)
    requires
        talk_noted(before, after, number, req),
    ensures
        talk_step_of(before, req) matches StepView::Talk { friend_id, .. } ==> after.ptt_stop
            == Some(number) && after.last_ptt_friend is Some && after.last_ptt_friend->0@
            == friend_id && after == (DaemonState {
            ptt_stop: after.ptt_stop,
            last_ptt_friend: after.last_ptt_friend,
            ..before
        }),
        !(talk_step_of(before, req) is Talk) ==> after == before,
{
}

/// `ptt <friend> --continuous`: the command that it gives the daemon starts a
/// session with that friend, and the daemon's reply is read as success; a refusal
/// is read as one.
pub proof fn continuous_talk_calls_the_friend(
    s: DaemonState,
    friend: Seq<char>,
    id: Seq<char>,
    f: Friend,
)
    requires
        resolved(s.friends@, friend) == Some(f.id@),
        with_id(s.friends@, f.id@) == Some(f),
        f.status@ == "accepted"@ && f.online && opt_view(f.presence) != Some("dnd"@),
        s.ptt_stop is None && s.connected,
    ensures
        ({
            let req = talk_request_of("ptt-start"@, friend).put("id"@, JsonView::Str(id));
            let step = command_step(s, req);
            &&& step is Talk
            &&& step->Talk_friend_id == f.id@
            &&& session_result(friend, Some(step->Talk_reply)) is Ok
            &&& step->Talk_reply.get("reply"@) == Some(JsonView::Str(id))
        }),
{
    keys_differ();
    commands_differ();
    let req = talk_request_of("ptt-start"@, friend).put("id"@, JsonView::Str(id));
    assert(req.text_member("friend"@) == Some(friend));
    sessions_start_where_they_can(s, req, friend, f);
}

/// What a session comes to, going by the reply: live with that friend where it
/// says so, and otherwise the complaint, or that there was no answer.
pub proof fn session_replies_are_read(friend: Seq<char>, reply: JsonView)
    ensures
        reply.get("ok"@) == Some(JsonView::Bool(true)) ==> session_result(friend, Some(reply))
            == Ok::<Seq<char>, Seq<char>>(
            "PTT live with "@ + friend + " (continuous) — `ptt-stop` to end."@,
        ),
        reply.get("ok"@) != Some(JsonView::Bool(true)) ==> session_result(friend, Some(reply)) is Err,
        reply.get("ok"@) is None && (reply.text_member("error"@) is Some) ==> session_result(
            friend,
            Some(reply),
        ) == Err::<Seq<char>, Seq<char>>(reply.text_member("error"@)->0),
        session_result(friend, None) is Err,
{
}

/// `ptt <friend>`: the command that arms the key makes that friend the one who is
/// called next, and so does any command to set the friend.
pub proof fn armed_friends_are_called_next(
    before: DaemonState,
    after: DaemonState,
    number: u64,
    friend: Seq<char>,
    id: Seq<char>,
)
    requires
        command_noted(
            before,
            after,
            number,
            talk_request_of("set-ptt-friend"@, friend).put("id"@, JsonView::Str(id)),
        ),
    ensures
        opt_view(after.last_ptt_friend) == resolved(before.friends@, friend),
        after == (DaemonState { last_ptt_friend: after.last_ptt_friend, ..before }),
{
    keys_differ();
    commands_differ();
}

/// A command to stop ends the session that is on, whichever it is, and is always
/// done.
pub proof fn stops_end_the_session(before: DaemonState, after: DaemonState, number: u64, req: JsonView)
    requires
        req.text_member("cmd"@) == Some("ptt-stop"@),
        command_noted(before, after, number, req),
    ensures
        command_step(before, req) is Hush,
        command_step(before, req)->session == before.ptt_stop,
        command_step(before, req)->Hush_reply.get("ok"@) == Some(JsonView::Bool(true)),
        after.ptt_stop is None,
        after == (DaemonState { ptt_stop: after.ptt_stop, ..before }),
{
    keys_differ();
    commands_differ();
}

// ---- replies ----

/// What replies say: done, not done and why, an id, a list under its name, a
/// friend's state. A reply that something was not done never says that it was.
pub proof fn replies_say_what_they_mean(
    req: JsonView,
    message: Seq<char>,
    id: Seq<char>,
    list: JsonView,
    f: Friend,
)
    ensures
        ok_reply(req).get("ok"@) == Some(JsonView::Bool(true)),
        ok_reply(req).get("error"@) is None,
        error_reply(req, message).text_member("error"@) == Some(message),
        error_reply(req, message).get("ok"@) is None,
        error_reply(req, message).get("id"@) is None,
        id_reply(req, id).text_member("id"@) == Some(id),
        id_reply(req, id).get("error"@) is None,
        list_reply_of(req, Listing::Friends, list).get("friends"@) == Some(list),
        list_reply_of(req, Listing::Friends, list).get("error"@) is None,
        list_reply_of(req, Listing::Perms, list).get("perms"@) == Some(list),
        list_reply_of(req, Listing::Perms, list).get("error"@) is None,
        state_reply(req, f).text_member("username"@) == Some(f.username@),
        state_reply(req, f).get("online"@) == Some(JsonView::Bool(f.online)),
        state_reply(req, f).text_member("presence"@) == opt_view(f.presence),
        state_reply(req, f).text_member("status"@) == Some(f.status@),
        state_reply(req, f).get("error"@) is None,
{
    keys_differ();
}

// ---- what goes to the server ----

/// A command to send an action sends what it says to whom it says, and nothing is
/// made up but empty data.
pub proof fn actions_go_out_as_given(s: DaemonState, req: JsonView)
    requires
        req.text_member("cmd"@) == Some("send-action"@),
    ensures
        ({
            let step = command_step(s, req);
            let frame = step->Call_frame;
            &&& step is Call
            &&& frame.text_member("t"@) == Some("send_action"@)
            &&& req.text_member("to"@) is Some ==> frame.get("to"@) == req.get("to"@)
            &&& req.text_member("action"@) is Some ==> frame.get("action"@) == req.get("action"@)
            &&& req.text_member("title"@) is Some ==> frame.get("title"@) == req.get("title"@)
            &&& req.text_member("body"@) is Some ==> frame.get("body"@) == req.get("body"@)
            &&& req.get("data"@) is Some ==> frame.get("data"@) == req.get("data"@)
            &&& req.get("data"@) is None ==> frame.get("data"@) == Some(empty_obj())
        }),
{
    keys_differ();
}

/// Commands about friends reach the server under their own tags, with the
/// username that was given, and a list is asked for as one.
pub proof fn friend_commands_reach_the_server(s: DaemonState, req: JsonView, username: Seq<char>)
    requires
        req.text_member("username"@) == Some(username),
    ensures
        req.text_member("cmd"@) == Some("friend-add"@) ==> command_step(s, req) is Call
            && command_step(s, req)->Call_frame.text_member("t"@) == Some("friend_add"@)
            && command_step(s, req)->Call_frame.text_member("username"@) == Some(username),
        req.text_member("cmd"@) == Some("friend-accept"@) ==> command_step(s, req) is Call
            && command_step(s, req)->Call_frame.text_member("t"@) == Some("friend_accept"@)
            && command_step(s, req)->Call_frame.text_member("username"@) == Some(username),
        req.text_member("cmd"@) == Some("friend-remove"@) ==> command_step(s, req) is Call
            && command_step(s, req)->Call_frame.text_member("t"@) == Some("friend_remove"@)
            && command_step(s, req)->Call_frame.text_member("username"@) == Some(username),
        req.text_member("cmd"@) == Some("friend-list"@) ==> command_step(s, req) is List
            && command_step(s, req)->List_frame.text_member("t"@) == Some("friend_list"@)
            && command_step(s, req)->of == Listing::Friends,
        req.text_member("cmd"@) == Some("perm-list"@) ==> command_step(s, req) is List
            && command_step(s, req)->List_frame.text_member("t"@) == Some("perm_list"@)
            && command_step(s, req)->of == Listing::Perms,
{
    keys_differ();
    commands_differ();
}

/// A command to set a permission sends whom, what and whether, as given.
pub proof fn permissions_go_out_as_given(s: DaemonState, req: JsonView, allowed: bool)
    requires
        req.text_member("cmd"@) == Some("perm-set"@),
        req.text_member("friend_id"@) is Some,
        req.text_member("action"@) is Some,
        req.get("allowed"@) == Some(JsonView::Bool(allowed)),
    ensures
        ({
            let step = command_step(s, req);
            let frame = step->Call_frame;
            &&& step is Call
            &&& frame.text_member("t"@) == Some("perm_update"@)
            &&& frame.get("friend_id"@) == req.get("friend_id"@)
            &&& frame.get("action"@) == req.get("action"@)
            &&& frame.get("allowed"@) == Some(JsonView::Bool(allowed))
        }),
{
    keys_differ();
    commands_differ();
}

/// A call that is made waits for the server's objection, behind all others; a list
/// that is asked for is waited for. Nothing else changes.
pub proof fn calls_wait_in_line(before: DaemonState, after: DaemonState, number: u64, req: JsonView)
    requires
        command_noted(before, after, number, req),
    ensures
        command_step(before, req) is Call ==> after.pending_acks@ == before.pending_acks@.push(
            number,
        ) && after.pending_friends == before.pending_friends && after.pending_perms
            == before.pending_perms,
        command_step(before, req) is List && command_step(before, req)->of == Listing::Friends
            ==> after.pending_friends@ == before.pending_friends@.push(number)
            && after.pending_acks == before.pending_acks && after.pending_perms
            == before.pending_perms,
        command_step(before, req) is List && command_step(before, req)->of == Listing::Perms
            ==> after.pending_perms@ == before.pending_perms@.push(number) && after.pending_acks
            == before.pending_acks && after.pending_friends == before.pending_friends,
        command_step(before, req) is Call || command_step(before, req) is List ==> after == (
        DaemonState {
            pending_acks: after.pending_acks,
            pending_friends: after.pending_friends,
            pending_perms: after.pending_perms,
            ..before
        }),
        after.friends == before.friends,
        after.perms == before.perms,
{
    keys_differ();
    commands_differ();
}

/// A presence that is set by command is the daemon's own from then on, and what
/// friends are told.
pub proof fn presences_take_effect(
    before: DaemonState,
    after: DaemonState,
    number: u64,
    req: JsonView,
    state: Seq<char>,
)
    requires
        req.text_member("cmd"@) == Some("set-presence"@),
        req.text_member("state"@) == Some(state),
        command_noted(before, after, number, req),
    ensures
        command_step(before, req) is Publish,
        command_step(before, req)->Publish_frame.text_member("t"@) == Some("set_presence"@),
        command_step(before, req)->Publish_frame.text_member("state"@) == Some(state),
        after.presence@ == state,
        after == (DaemonState { presence: after.presence, ..before }),
{
    keys_differ();
    commands_differ();
}

/// A name that is to be resolved comes back as the id of the friend who has it, or
/// is refused; what is known of a friend is what the list says.
pub proof fn questions_are_answered_from_the_list(s: DaemonState, req: JsonView, word: Seq<char>)
    ensures
        req.text_member("cmd"@) == Some("resolve-friend"@) && req.text_member("ident"@) == Some(word)
            ==> command_step(s, req) is Reply && command_step(s, req)->Reply_0.text_member("id"@)
            == resolved(s.friends@, word) && (resolved(s.friends@, word) is None ==> command_step(
            s,
            req,
        )->Reply_0.text_member("error"@) == Some("no friend named "@ + word)),
        req.text_member("cmd"@) == Some("friend-state"@) && req.text_member("friend_id"@) == Some(
            word,
        ) ==> command_step(s, req) is Reply && (match with_id(s.friends@, word) {
            Some(f) => command_step(s, req)->Reply_0.text_member("username"@) == Some(f.username@)
                && command_step(s, req)->Reply_0.text_member("status"@) == Some(f.status@)
                && command_step(s, req)->Reply_0.get("online"@) == Some(JsonView::Bool(f.online))
                && command_step(s, req)->Reply_0.text_member("presence"@) == opt_view(f.presence),
            None => command_step(s, req)->Reply_0.text_member("error"@) == Some(
                "friend not in cache"@,
            ),
        }),
{
    keys_differ();
    commands_differ();
}

/// A word that is no command is refused with that word and changes nothing.
pub proof fn unknown_commands_are_refused(
    before: DaemonState,
    after: DaemonState,
    number: u64,
    req: JsonView,
    word: Seq<char>,
)
    requires
        req.text_member("cmd"@) == Some(word),
        word != "send-action"@ && word != "friend-list"@ && word != "friend-add"@,
        word != "friend-accept"@ && word != "friend-remove"@ && word != "perm-list"@,
        word != "perm-set"@ && word != "resolve-friend"@ && word != "ptt-start"@,
        word != "friend-state"@ && word != "set-presence"@ && word != "set-ptt-friend"@,
        word != "ptt-stop"@,
        command_noted(before, after, number, req),
    ensures
        command_step(before, req) is Reply,
        command_step(before, req)->Reply_0.text_member("error"@) == Some("unknown cmd: "@ + word),
        after == before,
{
    keys_differ();
}

// ---- keys and sessions ----

/// The push-to-talk key talks for as long as it is held: pressed, it gives the
/// command that calls the last friend; released, the one that ends the session.
/// The key that opens the overlay acts when it is pressed. No other key does
/// anything.
pub proof fn held_keys_talk(s: DaemonState, action: Seq<char>, pressed: bool, r: HotkeyStep)
    requires
        hotkey_done(action, pressed, r),
    ensures
        action == "ptt"@ ==> r is Command,
        action == "ptt"@ && pressed ==> r->Command_0@.get("friend"@) is None && command_step(
            s,
            r->Command_0@,
        ) == talk_step_of(s, r->Command_0@),
        action == "ptt"@ && !pressed ==> command_step(s, r->Command_0@) is Hush && command_step(
            s,
            r->Command_0@,
        )->session == s.ptt_stop,
        action == "open"@ && pressed ==> r is Open && r->Open_0@.kind == "focus"@,
        action == "open"@ && !pressed ==> r is Ignore,
        action != "ptt"@ && action != "open"@ ==> r is Ignore,
{
    keys_differ();
    kinds_differ();
    commands_differ();
    reveal_strlit("open");
}

/// A session that waits for its connection gives up quietly when the key is
/// released, whatever else; otherwise it talks once connected, fails once the
/// connection is broken or the time is up, and waits until then.
pub proof fn connections_are_waited_for(stopped: bool, link: Link, late: bool, r: TalkStep)
    requires
        link_awaited(stopped, link, late, r),
    ensures
        r is Abort <==> stopped,
        r is Talk <==> !stopped && link == Link::Connected,
        r is Fail <==> !stopped && (link == Link::Broken || (link == Link::Connecting && late)),
        r is Wait <==> !stopped && link == Link::Connecting && !late,
        !stopped && link == Link::Broken ==> r->Fail_0@
            == "couldn't connect — the network blocked the peer-to-peer link (NAT/firewall). A TURN relay may be required."@,
        !stopped && link == Link::Connecting && late ==> r->Fail_0@
            == "timed out connecting — STUN couldn't punch through. A TURN relay may be required for this friend's network."@,
{
}

/// A session that failed is told in the overlay: with whom, and why.
pub proof fn failed_sessions_are_told(friend: Seq<char>, message: Seq<char>)
    ensures
        talk_failure(friend, message).kind == "action"@,
        talk_failure(friend, message).payload.text_member("title"@) == Some(
            "PTT failed — "@ + friend,
        ),
        talk_failure(friend, message).payload.text_member("body"@) == Some(message),
        talk_failure(friend, message).payload.text_member("from_username"@) == Some("PTT"@),
{
    keys_differ();
}

// ---- how calls end ----

/// The server's objection reaches the caller word for word, and a frame that could
/// not be sent is a failure; silence, and a wait that was called off, are success.
pub proof fn objections_are_passed_on(req: JsonView, m: String)
    ensures
        call_reply(req, CallEnd::Refused(m)).text_member("error"@) == Some(m@),
        call_reply(req, CallEnd::Refused(m)).get("ok"@) is None,
        call_reply(req, CallEnd::Unsent).text_member("error"@) == Some(
            "daemon not connected to server (WS closed)"@,
        ),
        call_reply(req, CallEnd::Unsent).get("ok"@) is None,
        call_reply(req, CallEnd::Timeout).get("ok"@) == Some(JsonView::Bool(true)),
        call_reply(req, CallEnd::Timeout).get("error"@) is None,
        call_reply(req, CallEnd::Cancelled).get("ok"@) == Some(JsonView::Bool(true)),
        call_reply(req, CallEnd::Cancelled).get("error"@) is None,
        req.get("id"@) is Some ==> call_reply(req, CallEnd::Refused(m)).get("reply"@) == req.get(
            "id"@,
        ) && call_reply(req, CallEnd::Unsent).get("reply"@) == req.get("id"@) && call_reply(
            req,
            CallEnd::Timeout,
        ).get("reply"@) == req.get("id"@) && call_reply(req, CallEnd::Cancelled).get("reply"@)
            == req.get("id"@),
{
    keys_differ();
}

/// A call that nobody objected to waits no longer, so that no later objection goes
/// to it; every other call waits on. One that was objected to was taken out then.
pub proof fn ended_calls_wait_no_longer(
    before: DaemonState,
    after: DaemonState,
    number: u64,
    end: CallEnd,
    other: u64,
)
    requires
        end_noted(before, after, number, end),
    ensures
        end is Timeout || end is Unsent ==> !after.pending_acks@.contains(number),
        other != number ==> after.pending_acks@.contains(other) == before.pending_acks@.contains(
            other,
        ),
        end is Refused || end is Cancelled ==> after.pending_acks == before.pending_acks,
        after == (DaemonState { pending_acks: after.pending_acks, ..before }),
{
    without_takes_one_out(before.pending_acks@, number, other);
}

/// Taking a number out takes that one out and no other.
pub proof fn without_takes_one_out(waiters: Seq<u64>, number: u64, other: u64)
    ensures
        !without(waiters, number).contains(number),
        other != number ==> without(waiters, number).contains(other) == waiters.contains(other),
    decreases waiters.len(),
{
    if waiters.len() > 0 {
        let rest = waiters.drop_last();
        without_takes_one_out(rest, number, other);
        let out = without(rest, number);
        assert(waiters =~= rest.push(waiters.last()));
        if other != number {
            if rest.contains(other) {
                let i = choose|i: int| 0 <= i < rest.len() && rest[i] == other;
                assert(waiters[i] == other);
                let k = choose|k: int| 0 <= k < out.len() && out[k] == other;
                assert(out.push(waiters.last())[k] == other);
            }
            if waiters.contains(other) && !rest.contains(other) {
                let i = choose|i: int| 0 <= i < waiters.len() && waiters[i] == other;
                if i < rest.len() {
                    assert(rest[i] == other);
                }
                assert(out.push(waiters.last())[out.len() as int] == other);
            }
            if out.push(waiters.last()).contains(other) && !out.contains(other) {
                let k = choose|k: int|
                    0 <= k < out.push(waiters.last()).len() && out.push(waiters.last())[k] == other;
                if k < out.len() {
                    assert(out[k] == other);
                }
                assert(waiters[waiters.len() - 1] == other);
            }
        }
        if waiters.last() != number && out.push(waiters.last()).contains(number) {
            let k = choose|k: int|
                0 <= k < out.push(waiters.last()).len() && out.push(waiters.last())[k] == number;
            if k < out.len() {
                assert(out[k] == number);
            }
        }
    }
}

/// Who asked for a list gets the one that came; where none came in time, the last
/// one that is known.
pub proof fn lists_come_or_are_known(s: DaemonState, of: Listing, list: JsonView)
    ensures
        list_given(s, of, Some(list)) == list,
        list_given(s, Listing::Friends, None) == friends_tree(s.friends@),
        list_given(s, Listing::Perms, None) == perms_tree(s.perms@),
{
}

/// A command asks for an update exactly where it says so.
pub proof fn updates_are_asked_for_by_name(req: JsonView)
    ensures
        asks_for_update(req) <==> req.text_member("cmd"@) == Some("self-update"@),
{
    commands_differ();
    reveal_strlit("");
    reveal_strlit("self-update");
    assert("self-update"@.len() == 11);
}

} // verus!
