//! What comes in: actions, presences, lists and announcements.
use vstd::prelude::*;

#[allow(unused_imports)]
use crate::config::{opt_view, Config};
#[allow(unused_imports)]
use crate::daemon::{
    action_effects, all_patched, announcement_effects, answers, awaits, card, config_payload,
    dropped, error_effects, filtered, friends_effects, hello_effects, is_ready, last_with_id, others,
    peer_effects, perm_changed_effects, prewarm_target_of, presence_effects, reported,
    request_effects, requests_effects, server_done, signal_effects, starts_as, DaemonState,
    EffectView,
};
#[allow(unused_imports)]
use crate::friends::{label_of, resolved, with_id};
#[allow(unused_imports)]
use crate::json::{empty_obj, json_text, JsonView};
#[allow(unused_imports)]
use crate::overlay_ipc::EventView;
#[allow(unused_imports)]
use crate::protocol::{friends_tree, perms_tree, Friend, Me, Perm, ServerMsg};
#[allow(unused_imports)]
use crate::words::{keys_differ, kinds_differ, states_differ, tags_differ};

verus! {

/// Whether a card carries the parts of an action.
pub open spec fn carries(
    payload: JsonView,
    from: Seq<char>,
    action: Seq<char>,
    title: Seq<char>,
    body: Seq<char>,
    data: JsonView,
) -> bool {
    &&& payload.get("from"@) == Some(JsonView::Str(from))
    &&& payload.get("action"@) == Some(JsonView::Str(action))
    &&& payload.get("title"@) == Some(JsonView::Str(title))
    &&& payload.get("body"@) == Some(JsonView::Str(body))
    &&& payload.get("data"@) == Some(data)
}

/// An action that Do Not Disturb does not drop is shown with everything that came
/// with it, whatever its data is: an invite keeps its link and a message its
/// buttons. It goes by the sender's username, and its line tells who sent what.
pub proof fn actions_are_shown_with_all_they_carry(
    s: DaemonState,
    after: DaemonState,
    from: String,
    action: String,
    title: String,
    body: String,
    data: crate::json::Json,
    told: Seq<EffectView>,
)
    requires
        server_done(s, after, ServerMsg::Action { from, action, title, body, data }, told),
        s.presence@ != "dnd"@ || told.len() > 0,
    ensures
        after == s,
        told.len() >= 2,
        told[0] == EffectView::Print(
            "["@ + action@ + "] "@ + label_of(s.friends@, from@) + ": "@ + title@ + " — "@ + body@,
        ),
        told[1] is Show,
        told[1]->Show_0.kind == "action"@,
        carries(told[1]->Show_0.payload, from@, action@, title@, body@, data@),
        told[1]->Show_0.payload.get("from_username"@) == Some(
            JsonView::Str(
                match with_id(s.friends@, from@) {
                    Some(f) => f.username@,
                    None => from@,
                },
            ),
        ),
{
    keys_differ();
}

/// A plugin is invoked by its action and by no other, with the sender and the data
/// that came, and once.
pub proof fn only_plugin_actions_invoke(
    s: DaemonState,
    from: Seq<char>,
    action: Seq<char>,
    title: Seq<char>,
    body: Seq<char>,
    data: JsonView,
)
    ensures
        forall|i: int|
            0 <= i < action_effects(s, from, action, title, body, data).len() && #[trigger]
                action_effects(s, from, action, title, body, data)[i] is Invoke ==> action
                == "plugin"@ && i == 2 && action_effects(s, from, action, title, body, data)[i] == (
            EffectView::Invoke { from, data }),
        action == "plugin"@ && (s.presence@ != "dnd"@ || !s.dnd_block_plugin) ==> action_effects(
            s,
            from,
            action,
            title,
            body,
            data,
        ).len() == 3 && action_effects(s, from, action, title, body, data)[2] == (
        EffectView::Invoke { from, data }),
        action != "plugin"@ ==> action_effects(s, from, action, title, body, data).len() <= 2,
{
    kinds_differ();
}

/// In Do Not Disturb each switch drops its own kind of action and lets it through
/// when it is off; kinds without a switch of their own go by the one for custom
/// actions. What is not dropped is shown as ever.
pub proof fn each_switch_drops_its_own_kind(
    s: DaemonState,
    from: Seq<char>,
    action: Seq<char>,
    title: Seq<char>,
    body: Seq<char>,
    data: JsonView,
)
    requires
        s.presence@ == "dnd"@,
    ensures
        ({
            let through = action_effects(s, from, action, title, body, data).len() > 0;
            &&& action == "message"@ ==> through == !s.dnd_block_message
            &&& action == "game_invite"@ ==> through == !s.dnd_block_game_invite
            &&& action == "ptt"@ ==> through == !s.dnd_block_ptt
            &&& action == "plugin"@ ==> through == !s.dnd_block_plugin
            &&& action == "custom"@ ==> through == !s.dnd_block_custom
            &&& action != "message"@ && action != "game_invite"@ && action != "ptt"@ && action
                != "plugin"@ ==> through == !s.dnd_block_custom
            &&& through ==> action_effects(s, from, action, title, body, data) == action_effects(
                DaemonState { dnd_block_message: false, dnd_block_game_invite: false, dnd_block_ptt: false, dnd_block_plugin: false, dnd_block_custom: false, ..s },
                from,
                action,
                title,
                body,
                data,
            )
        }),
{
    kinds_differ();
}

/// Negotiation is handed on untouched, and held back exactly while Do Not Disturb
/// blocks push-to-talk.
pub proof fn negotiation_is_handed_on(
    s: DaemonState,
    after: DaemonState,
    from: String,
    payload: crate::json::Json,
    told: Seq<EffectView>,
)
    requires
        server_done(s, after, ServerMsg::Signal { from, payload }, told),
    ensures
        after == s,
        told.len() == (if s.presence@ == "dnd"@ && s.dnd_block_ptt {
            0int
        } else {
            1int
        }),
        told.len() == 1 ==> told[0] == (EffectView::Negotiate { from: from@, payload: payload@ }),
{
}

/// When the server greets, the overlay learns who one is, both lists are asked
/// for, and friends are told the presence that one has.
pub proof fn greetings_are_answered(
    s: DaemonState,
    after: DaemonState,
    me: Me,
    told: Seq<EffectView>,
)
    requires
        server_done(s, after, ServerMsg::HelloOk { me }, told),
    ensures
        after == s,
        told.len() == 4,
        told[0] is Show,
        told[0]->Show_0.kind == "hello"@,
        told[0]->Show_0.payload.get("id"@) == Some(JsonView::Str(me.id@)),
        told[0]->Show_0.payload.get("username"@) == Some(JsonView::Str(me.username@)),
        told[1] is Send && told[2] is Send && told[3] is Send,
        told[1]->Send_0.text_member("t"@) == Some("friend_list"@),
        told[2]->Send_0.text_member("t"@) == Some("perm_list"@),
        told[3]->Send_0.text_member("t"@) == Some("set_presence"@),
        s.presence@.len() > 0 ==> told[3]->Send_0.text_member("state"@) == Some(s.presence@),
        s.presence@.len() == 0 ==> told[3]->Send_0.text_member("state"@) == Some("online"@),
{
    keys_differ();
    states_differ();
    if s.presence@.len() == 0 {
        assert(s.presence@ =~= ""@);
    }
}

/// A new presence: the friend is as the server says, the overlay gets the list
/// with it and the presence itself, and a card only where that is wanted and the
/// friend came or went. The card says which.
pub proof fn presences_are_passed_on(
    s: DaemonState,
    after: DaemonState,
    friend_id: String,
    online: bool,
    state: Option<String>,
    told: Seq<EffectView>,
)
    requires
        server_done(s, after, ServerMsg::Presence { friend_id, online, state }, told),
    ensures
        forall|i: int|
            0 <= i < after.friends@.len() && (#[trigger] after.friends@[i]).id@ == friend_id@
                ==> after.friends@[i].online == online && opt_view(after.friends@[i].presence)
                == Some(
                match state {
                    Some(w) => w@,
                    None => if online {
                        "online"@
                    } else {
                        "offline"@
                    },
                },
            ),
        after.friends@.len() == s.friends@.len(),
        after == (DaemonState { friends: after.friends, ..s }),
        forall|i: int|
            0 <= i < s.friends@.len() && (#[trigger] s.friends@[i]).id@ != friend_id@
                ==> after.friends@[i] == s.friends@[i],
        forall|i: int|
            0 <= i < s.friends@.len() ==> (#[trigger] after.friends@[i]).id@ == s.friends@[i].id@
                && after.friends@[i].username@ == s.friends@[i].username@
                && after.friends@[i].status@ == s.friends@[i].status@,
        told.len() == 2 || told.len() == 3,
        told[0] is Show && told[0]->Show_0.kind == "friends"@ && told[0]->Show_0.payload.get(
            "friends"@,
        ) == Some(friends_tree(after.friends@)),
        told[1] is Show && told[1]->Show_0.kind == "presence"@,
        told[1]->Show_0.payload.get("friend_id"@) == Some(JsonView::Str(friend_id@)),
        told[1]->Show_0.payload.get("online"@) == Some(JsonView::Bool(online)),
        told[1]->Show_0.payload.get("state"@) == Some(
            JsonView::Str(
                match state {
                    Some(w) => w@,
                    None => if online {
                        "online"@
                    } else {
                        "offline"@
                    },
                },
            ),
        ),
        !s.notify_friend_presence ==> told.len() == 2,
{
    keys_differ();
    assert forall|i: int|
        0 <= i < after.friends@.len() && (#[trigger] after.friends@[i]).id@
            == friend_id@ implies after.friends@[i].online == online && opt_view(
        after.friends@[i].presence,
    ) == Some(reported(online, opt_view(state))) by {
        let f = s.friends@[i];
    }
    assert forall|i: int|
        0 <= i < s.friends@.len() && (#[trigger] s.friends@[i]).id@
            != friend_id@ implies after.friends@[i] == s.friends@[i] by {
        let f = after.friends@[i];
    }
    assert forall|i: int| 0 <= i < s.friends@.len() implies (#[trigger] after.friends@[i]).id@
        == s.friends@[i].id@ && after.friends@[i].username@ == s.friends@[i].username@
        && after.friends@[i].status@ == s.friends@[i].status@ by {
        let f = s.friends@[i];
    }
}

/// A friend whose id nobody else has is the last one with it.
proof fn lemma_last_with_id(friends: Seq<Friend>, i: int)
    requires
        0 <= i < friends.len(),
        forall|k: int| 0 <= k < friends.len() && k != i ==> (#[trigger] friends[k]).id@
            != friends[i].id@,
    ensures
        last_with_id(friends, friends[i].id@) == Some(friends[i]),
    decreases friends.len(),
{
    let n = friends.len() - 1;
    if i < n {
        assert(friends[n].id@ != friends[i].id@);
        let front = friends.drop_last();
        assert forall|k: int| 0 <= k < front.len() && k != i implies (#[trigger] front[k]).id@
            != front[i].id@ by {
            assert(front[k] == friends[k]);
        }
        lemma_last_with_id(front, i);
    }
}

/// Where a card for coming and going is wanted, a friend who was offline and is
/// online now gets one that says so, one who went gets one that says that, and one
/// who is as before gets none.
pub proof fn coming_and_going_is_told(
    s: DaemonState,
    list: Seq<Friend>,
    i: int,
    online: bool,
    state: Seq<char>,
)
    requires
        0 <= i < s.friends@.len(),
        forall|k: int| 0 <= k < s.friends@.len() && k != i ==> (#[trigger] s.friends@[k]).id@
            != s.friends@[i].id@,
        s.notify_friend_presence,
    ensures
        ({
            let f = s.friends@[i];
            let told = presence_effects(s, list, f.id@, online, state);
            &&& f.online == online ==> told.len() == 2
            &&& f.online != online ==> told.len() == 3 && told[2] is Show && told[2]->Show_0.kind
                == "action"@ && told[2]->Show_0.payload.get("from_username"@) == Some(
                JsonView::Str(f.username@),
            ) && told[2]->Show_0.payload.get("title"@) == Some(
                JsonView::Str(
                    if online {
                        "Friend online"@
                    } else {
                        "Friend offline"@
                    },
                ),
            ) && told[2]->Show_0.payload.get("body"@) == Some(
                JsonView::Str(
                    if online {
                        f.username@ + " is now online"@
                    } else {
                        f.username@ + " went offline"@
                    },
                ),
            )
        }),
{
    keys_differ();
    lemma_last_with_id(s.friends@, i);
}

/// A changed permission is told to the overlay as it is.
pub proof fn changed_permissions_are_told(
    s: DaemonState,
    after: DaemonState,
    by: String,
    action: String,
    allowed: bool,
    told: Seq<EffectView>,
)
    requires
        server_done(s, after, ServerMsg::PermChanged { by, action, allowed }, told),
    ensures
        after == s,
        told.len() == 1,
        told[0] is Show && told[0]->Show_0.kind == "perm_changed"@,
        told[0]->Show_0.payload.get("by"@) == Some(JsonView::Str(by@)),
        told[0]->Show_0.payload.get("action"@) == Some(JsonView::Str(action@)),
        told[0]->Show_0.payload.get("allowed"@) == Some(JsonView::Bool(allowed)),
{
    keys_differ();
}

/// An announcement is printed and shown, title and body.
pub proof fn announcements_are_told(
    s: DaemonState,
    after: DaemonState,
    title: String,
    body: String,
    told: Seq<EffectView>,
)
    requires
        server_done(s, after, ServerMsg::Announcement { title, body }, told),
    ensures
        after == s,
        told.len() == 2,
        told[0] == EffectView::Print("[server] "@ + title@ + " — "@ + body@),
        told[1] is Show && told[1]->Show_0.kind == "action"@,
        carries(
            told[1]->Show_0.payload,
            "server"@,
            "custom"@,
            "Server: "@ + title@,
            body@,
            empty_obj(),
        ),
        told[1]->Show_0.payload.get("from_username"@) == Some(JsonView::Str("server"@)),
{
    keys_differ();
}

/// A friend list that comes is the one that is known from then on. Every call that
/// waits for it gets it and waits no more, and the overlay gets it.
pub proof fn friend_lists_are_taken_in(
    s: DaemonState,
    after: DaemonState,
    friends: Vec<Friend>,
    told: Seq<EffectView>,
    i: int,
)
    requires
        server_done(s, after, ServerMsg::Friends { friends }, told),
    ensures
        after.friends == friends,
        after.friends_seen,
        after.pending_friends@.len() == 0,
        after == (DaemonState {
            friends: after.friends,
            friends_seen: after.friends_seen,
            pending_friends: after.pending_friends,
            ..s
        }),
        0 <= i < s.pending_friends@.len() ==> told[i] == (EffectView::Answer {
            waiter: s.pending_friends@[i],
            list: friends_tree(friends@),
        }),
{
}

/// The overlay gets every friend list, and the connection to the push-to-talk
/// friend is warmed up after it.
pub proof fn friend_lists_are_shown(
    s: DaemonState,
    after: DaemonState,
    friends: Vec<Friend>,
    told: Seq<EffectView>,
)
    requires
        server_done(s, after, ServerMsg::Friends { friends }, told),
    ensures
        told.len() >= 2,
        told[told.len() - 1] is Prewarm,
        told[told.len() - 2] is Show,
        told[told.len() - 2]->Show_0.kind == "friends"@,
        told[told.len() - 2]->Show_0.payload.get("friends"@) == Some(friends_tree(friends@)),
        !s.notify_friend_requests ==> told.len() == s.pending_friends@.len() + 2,
{
    keys_differ();
}

/// A friend request that was not known is announced, where that is wanted and a
/// list had come before: a line that says how to accept it, and a card with who it
/// is.
pub proof fn new_requests_are_told(
    s: DaemonState,
    after: DaemonState,
    friends: Vec<Friend>,
    told: Seq<EffectView>,
    f: Friend,
)
    requires
        server_done(s, after, ServerMsg::Friends { friends }, told),
        friends@ == seq![f],
        f.status@ == "pending_in"@,
        s.friends_seen,
        s.notify_friend_requests,
        forall|k: int| 0 <= k < s.friends@.len() ==> (#[trigger] s.friends@[k]).id@ != f.id@,
    ensures
        ({
            let n = s.pending_friends@.len() as int;
            &&& told.len() == n + 4
            &&& told[n] == EffectView::Print(
                "[friend request] "@ + f.username@ + " wants to add you — `friend accept "@
                    + f.username@ + "`"@,
            )
            &&& told[n + 1] is Show
            &&& told[n + 1]->Show_0.kind == "friend_request"@
            &&& told[n + 1]->Show_0.payload.get("username"@) == Some(JsonView::Str(f.username@))
            &&& told[n + 1]->Show_0.payload.get("id"@) == Some(JsonView::Str(f.id@))
        }),
{
    keys_differ();
    reveal_with_fuel(requests_effects, 2);
    assert(friends@.last() == f);
    assert(friends@.drop_last() =~= Seq::<Friend>::empty());
    assert(requests_effects(s.friends@, friends@) =~= request_effects(f));
}

/// A permission list that comes is the one that is known, and every call that
/// waits for it gets it.
pub proof fn permission_lists_are_taken_in(
    s: DaemonState,
    after: DaemonState,
    perms: Vec<Perm>,
    told: Seq<EffectView>,
)
    requires
        server_done(s, after, ServerMsg::Perms { perms }, told),
    ensures
        after.perms == perms,
        after.pending_perms@.len() == 0,
        after == (DaemonState { perms: after.perms, pending_perms: after.pending_perms, ..s }),
        told.len() == s.pending_perms@.len(),
        forall|i: int|
            0 <= i < told.len() ==> #[trigger] told[i] == (EffectView::Answer {
                waiter: s.pending_perms@[i],
                list: perms_tree(perms@),
            }),
{
}

/// An objection goes to the call that waits longest, in the server's words, and
/// that call waits no more; without a call it goes to nobody.
pub proof fn objections_reach_the_oldest_call(
    s: DaemonState,
    after: DaemonState,
    message: String,
    told: Seq<EffectView>,
)
    requires
        server_done(s, after, ServerMsg::Error { message }, told),
    ensures
        s.pending_acks@.len() == 0 ==> told.len() == 0 && after.pending_acks@.len() == 0,
        s.pending_acks@.len() > 0 ==> told == seq![
            EffectView::Refuse { waiter: s.pending_acks@[0], message: message@ },
        ] && after.pending_acks@ == s.pending_acks@.skip(1),
        after == (DaemonState { pending_acks: after.pending_acks, ..s }),
{
    if s.pending_acks@.len() > 0 {
        assert(s.pending_acks@.drop_first() =~= s.pending_acks@.skip(1));
    }
}

/// A frame that a peer sends directly is shown with everything in it, under the
/// sender, and printed.
pub proof fn peer_frames_are_shown(s: DaemonState, from: Seq<char>, frame: JsonView)
    requires
        s.presence@ != "dnd"@ || peer_effects(s, from, frame).len() > 0,
    ensures
        ({
            let told = peer_effects(s, from, frame);
            &&& told.len() == 2
            &&& told[0] == EffectView::Print(
                "[p2p] "@ + label_of(s.friends@, from) + ": "@ + json_text(frame),
            )
            &&& told[1] is Show && told[1]->Show_0.kind == "action"@
            &&& told[1]->Show_0.payload.get("from"@) == Some(JsonView::Str(from))
            &&& frame.get("action"@) is Some ==> told[1]->Show_0.payload.get("action"@)
                == frame.get("action"@)
            &&& frame.get("title"@) is Some ==> told[1]->Show_0.payload.get("title"@)
                == frame.get("title"@)
            &&& frame.get("body"@) is Some ==> told[1]->Show_0.payload.get("body"@)
                == frame.get("body"@)
            &&& frame.get("data"@) is Some ==> told[1]->Show_0.payload.get("data"@)
                == frame.get("data"@)
            &&& frame.get("action"@) is None ==> told[1]->Show_0.payload.text_member("action"@)
                == Some("custom"@)
            &&& frame.get("title"@) is None ==> told[1]->Show_0.payload.text_member("title"@)
                == Some(""@)
            &&& frame.get("body"@) is None ==> told[1]->Show_0.payload.text_member("body"@)
                == Some(""@)
            &&& frame.get("data"@) is None ==> told[1]->Show_0.payload.get("data"@) == Some(
                empty_obj(),
            )
            &&& match with_id(s.friends@, from) {
                Some(f) => told[1]->Show_0.payload.text_member("from_username"@) == Some(
                    f.username@,
                ),
                None => told[1]->Show_0.payload.get("from_username"@) is None,
            }
        }),
{
    keys_differ();
}

/// Do Not Disturb drops frames of peers as it drops actions: each kind by its own
/// switch, and a frame without a kind as a custom action. Otherwise none is.
pub proof fn peer_frames_go_by_the_switches(s: DaemonState, from: Seq<char>, frame: JsonView)
    ensures
        ({
            let through = peer_effects(s, from, frame).len() > 0;
            let kind = frame.text_member("action"@);
            &&& s.presence@ != "dnd"@ ==> through
            &&& s.presence@ == "dnd"@ ==> {
                &&& kind == Some("message"@) ==> through == !s.dnd_block_message
                &&& kind == Some("game_invite"@) ==> through == !s.dnd_block_game_invite
                &&& kind == Some("ptt"@) ==> through == !s.dnd_block_ptt
                &&& kind == Some("plugin"@) ==> through == !s.dnd_block_plugin
                &&& kind == Some("custom"@) ==> through == !s.dnd_block_custom
                &&& kind is None ==> through == !s.dnd_block_custom
            }
        }),
{
    kinds_differ();
}

/// What the overlay is told of the settings is what they are.
pub proof fn overlays_learn_the_settings(cfg: Config)
    ensures
        config_payload(cfg).text_member("notify_sound"@) == opt_view(cfg.notify_sound),
        config_payload(cfg).text_member("username"@) == opt_view(cfg.username),
        config_payload(cfg).text_member("user_id"@) == opt_view(cfg.user_id),
        config_payload(cfg).get("notify_auto_dismiss"@) == Some(
            JsonView::Bool(cfg.notify_auto_dismiss),
        ),
        config_payload(cfg).get("notify_auto_dismiss_ms"@) == Some(
            JsonView::Int(cfg.notify_auto_dismiss_ms as int),
        ),
        config_payload(cfg).get("notify_show_list"@) == Some(JsonView::Bool(cfg.notify_show_list)),
{
    keys_differ();
}

/// A daemon starts as the settings say, with nobody known, nobody waiting and
/// nobody talking.
pub proof fn daemons_start_by_the_settings(cfg: Config, s: DaemonState)
    requires
        starts_as(cfg, s),
    ensures
        s.dnd_block_message == cfg.dnd_block_message,
        s.dnd_block_game_invite == cfg.dnd_block_game_invite,
        s.dnd_block_ptt == cfg.dnd_block_ptt,
        s.dnd_block_plugin == cfg.dnd_block_plugin,
        s.dnd_block_custom == cfg.dnd_block_custom,
        s.notify_friend_presence == cfg.notify_friend_presence,
        s.notify_friend_requests == cfg.notify_friend_requests,
        s.last_ptt_friend == cfg.default_ptt_friend,
        s.ptt_input_device == cfg.ptt_input_device,
        cfg.presence@.len() > 0 ==> s.presence@ == cfg.presence@,
        cfg.presence@.len() == 0 ==> s.presence@ == "online"@,
        s.ptt_stop is None && s.connected && !s.friends_seen,
        s.friends@.len() == 0 && s.perms@.len() == 0,
        s.pending_acks@.len() == 0 && s.pending_friends@.len() == 0 && s.pending_perms@.len() == 0,
{
}

/// The connection that is warmed up is that of the push-to-talk friend, who is a
/// mutual friend and online; it is, whenever they are and one is connected.
pub proof fn the_talk_friend_is_warmed_up(s: DaemonState)
    ensures
        prewarm_target_of(s) matches Some(id) ==> s.connected && s.last_ptt_friend is Some
            && resolved(s.friends@, s.last_ptt_friend->0@) == Some(id) && (with_id(s.friends@, id)
            matches Some(f) && f.status@ == "accepted"@ && f.online),
        s.connected && (s.last_ptt_friend matches Some(raw) && resolved(s.friends@, raw@) matches Some(
            id,
        ) && with_id(s.friends@, id) matches Some(f) && f.status@ == "accepted"@ && f.online)
            ==> prewarm_target_of(s) is Some,
{
}

} // verus!
