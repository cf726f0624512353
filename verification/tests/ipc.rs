use sociacli::config::Config;
use sociacli::daemon::{on_server, DaemonState};
use sociacli::friends::{
    friend_message, friend_request, recipient_unreachable, resolve_reply, resolve_request,
    state_request, FriendCmd,
};
use sociacli::ipc::{
    await_link, call_ended, dial_failed, handle_ipc_cmd, is_self_update, list_reply, ptt_error,
    talk_over, CallEnd, Link, Listing, Step, TalkStep,
};
use sociacli::json::Json;
use sociacli::overlay_ipc::{is_answer, stamp};
use sociacli::protocol::{Friend, ServerMsg};

fn friend(id: &str, username: &str, status: &str, online: bool, presence: Option<&str>) -> Friend {
    Friend {
        id: id.to_string(),
        username: username.to_string(),
        status: status.to_string(),
        online,
        presence: presence.map(str::to_string),
    }
}

fn state() -> DaemonState {
    let mut s = DaemonState::new(&Config::fresh());
    let friends = vec![
        friend("7", "bob", "accepted", true, Some("online")),
        friend("8", "zoe", "accepted", true, Some("dnd")),
        friend("9", "eve", "accepted", false, None),
        friend("10", "sam", "pending_out", true, None),
    ];
    let _ = on_server(&mut s, ServerMsg::Friends { friends });
    s
}

fn request(text: &str) -> Json {
    stamp(Json::parse(text).ok().unwrap(), "r1")
}

fn reply(s: &mut DaemonState, text: &str) -> String {
    match handle_ipc_cmd(s, 1, &request(text)) {
        Step::Reply(j) => {
            assert!(is_answer(&j, "r1"));
            j.to_text()
        }
        _ => panic!("no reply"),
    }
}

fn call(s: &mut DaemonState, number: u64, text: &str) -> String {
    match handle_ipc_cmd(s, number, &request(text)) {
        Step::Call { frame } => frame.to_text(),
        _ => panic!("no call"),
    }
}

#[test]
fn calls_are_queued_and_framed() {
    let mut s = state();
    assert_eq!(
        call(&mut s, 1, r#"{"cmd":"friend-add","username":"kim"}"#),
        r#"{"t":"friend_add","username":"kim"}"#
    );
    assert_eq!(
        call(&mut s, 2, r#"{"cmd":"perm-set","friend_id":"7","action":"ptt","allowed":true}"#),
        r#"{"action":"ptt","allowed":true,"friend_id":"7","t":"perm_update"}"#
    );
    assert_eq!(
        call(&mut s, 3, r#"{"cmd":"send-action","to":"7","action":"message","title":"T"}"#),
        r#"{"action":"message","body":"","data":{},"t":"send_action","title":"T","to":"7"}"#
    );
    assert_eq!(call(&mut s, 4, r#"{"cmd":"friend-accept"}"#), r#"{"t":"friend_accept","username":""}"#);
    assert_eq!(s.pending_acks, vec![1, 2, 3, 4]);
}

#[test]
fn the_daemon_says_what_a_command_would() {
    let op = FriendCmd::Remove { username: "bob".to_string() };
    let mut s = state();
    match handle_ipc_cmd(&mut s, 1, &stamp(friend_request(&op), "x")) {
        Step::Call { frame } => assert_eq!(frame.to_text(), friend_message(&op).frame().to_text()),
        _ => panic!("no call"),
    }
}

#[test]
fn calls_end_in_success_unless_there_is_an_objection() {
    let mut s = state();
    let req = request(r#"{"cmd":"friend-add"}"#);
    s.pending_acks = vec![1, 2, 3];
    let r = call_ended(&mut s, 1, &req, &CallEnd::Timeout);
    assert_eq!(r.to_text(), r#"{"ok":true,"reply":"r1"}"#);
    assert_eq!(s.pending_acks, vec![2, 3]);
    let r = call_ended(&mut s, 3, &req, &CallEnd::Unsent);
    assert_eq!(
        r.to_text(),
        r#"{"error":"daemon not connected to server (WS closed)","reply":"r1"}"#
    );
    assert_eq!(s.pending_acks, vec![2]);
    let r = call_ended(&mut s, 4, &req, &CallEnd::Refused("blocked".to_string()));
    assert_eq!(r.to_text(), r#"{"error":"blocked","reply":"r1"}"#);
    let r = call_ended(&mut s, 5, &req, &CallEnd::Cancelled);
    assert_eq!(r.to_text(), r#"{"ok":true,"reply":"r1"}"#);
    let _ = call_ended(&mut s, 6, &req, &CallEnd::Timeout);
    assert_eq!(s.pending_acks, vec![2]);
}

#[test]
fn lists_fall_back_on_what_is_known() {
    let mut s = state();
    let req = request(r#"{"cmd":"friend-list"}"#);
    match handle_ipc_cmd(&mut s, 5, &req) {
        Step::List { frame, of } => {
            assert_eq!(frame.to_text(), r#"{"t":"friend_list"}"#);
            assert_eq!(of, Listing::Friends);
        }
        _ => panic!("no list"),
    }
    assert_eq!(s.pending_friends, vec![5]);
    let r = list_reply(&s, &req, Listing::Friends, None);
    assert_eq!(r.array_member("friends").unwrap().len(), 4);
    let r = list_reply(&s, &req, Listing::Friends, Some(Json::Arr(vec![])));
    assert_eq!(r.to_text(), r#"{"friends":[],"reply":"r1"}"#);
    let req = request(r#"{"cmd":"perm-list"}"#);
    assert!(matches!(
        handle_ipc_cmd(&mut s, 6, &req),
        Step::List { of: Listing::Perms, .. }
    ));
    assert_eq!(list_reply(&s, &req, Listing::Perms, None).to_text(), r#"{"perms":[],"reply":"r1"}"#);
}

#[test]
fn lookups_answer_from_the_list() {
    let mut s = state();
    assert_eq!(reply(&mut s, r#"{"cmd":"resolve-friend","ident":"bob"}"#), r#"{"id":"7","reply":"r1"}"#);
    assert_eq!(
        reply(&mut s, r#"{"cmd":"resolve-friend","ident":"kim"}"#),
        r#"{"error":"no friend named kim","reply":"r1"}"#
    );
    assert_eq!(
        reply(&mut s, r#"{"cmd":"friend-state","friend_id":"9"}"#),
        r#"{"online":false,"presence":null,"reply":"r1","status":"accepted","username":"eve"}"#
    );
    assert_eq!(
        reply(&mut s, r#"{"cmd":"friend-state"}"#),
        r#"{"error":"friend not in cache","reply":"r1"}"#
    );
    assert_eq!(reply(&mut s, r#"{"cmd":"dance"}"#), r#"{"error":"unknown cmd: dance","reply":"r1"}"#);
    assert_eq!(reply(&mut s, "{}"), r#"{"error":"unknown cmd: ","reply":"r1"}"#);
}

fn asked(s: &mut DaemonState, cmd: Json) -> Json {
    match handle_ipc_cmd(s, 1, &stamp(cmd, "r1")) {
        Step::Reply(j) => j,
        _ => panic!("no reply"),
    }
}

#[test]
fn senders_ask_the_daemon_first() {
    let mut s = state();
    let mut blocked = |id: &str| {
        let known = asked(&mut s, state_request(id));
        recipient_unreachable(id, "message", Some(&known)).map(|(reason, _)| reason)
    };
    assert_eq!(blocked("7"), None);
    assert_eq!(
        blocked("8"),
        Some("zoe is in Do Not Disturb — your message would be dropped".to_string())
    );
    assert_eq!(blocked("9"), Some("eve is offline".to_string()));
    assert_eq!(blocked("10"), Some("sam hasn't accepted your friend request yet".to_string()));
    assert_eq!(blocked("11"), Some("you're not friends with 11".to_string()));
}

#[test]
fn names_are_resolved_by_the_daemon() {
    let mut s = state();
    let mut found = |name: &str| resolve_reply(&asked(&mut s, resolve_request(name)));
    assert_eq!(found("zoe"), Some(Ok("8".to_string())));
    assert_eq!(found("kim"), Some(Err("no friend named kim".to_string())));
    let id = "936da01f-9abd-4d9d-80c7-02af85c822a8";
    assert_eq!(found(id), Some(Ok(id.to_string())));
}

#[test]
fn sessions_need_a_friend_who_can_hear() {
    let mut s = state();
    let why = |s: &mut DaemonState, f: &str| {
        reply(s, &format!(r#"{{"cmd":"ptt-start","friend":"{}"}}"#, f))
    };
    assert!(reply(&mut s, r#"{"cmd":"ptt-start"}"#).contains("no PTT friend (set with"));
    assert!(why(&mut s, "kim").contains("no friend named `kim` in your list"));
    assert!(why(&mut s, "sam").contains("sam is not a mutual friend — you must both accept first"));
    assert!(why(&mut s, "eve").contains("eve is offline — can't start PTT"));
    assert!(why(&mut s, "zoe").contains("zoe is in Do Not Disturb"));
    s.connected = false;
    assert!(why(&mut s, "bob").contains("daemon not connected to server yet"));
    assert!(s.ptt_stop.is_none());
}

#[test]
fn release_stops_what_press_started() {
    let mut s = state();
    s.last_ptt_friend = Some("bob".to_string());
    let press = Json::parse(r#"{"cmd":"ptt-start","id":""}"#).ok().unwrap();
    match handle_ipc_cmd(&mut s, 42, &press) {
        Step::Talk { friend_id, label, device, reply } => {
            assert_eq!(friend_id, "7");
            assert_eq!(label, "bob");
            assert_eq!(device, None);
            assert_eq!(reply.to_text(), r#"{"friend_id":"7","ok":true,"reply":""}"#);
        }
        _ => panic!("no session"),
    }
    assert_eq!(s.ptt_stop, Some(42));
    assert_eq!(s.last_ptt_friend, Some("7".to_string()));
    s.last_ptt_friend = Some("bob".to_string());
    match handle_ipc_cmd(&mut s, 43, &press) {
        Step::Reply(j) => {
            assert_eq!(j.to_text(), r#"{"already_running":true,"ok":true,"reply":""}"#)
        }
        _ => panic!("a second session"),
    }
    let release = Json::parse(r#"{"cmd":"ptt-stop","id":""}"#).ok().unwrap();
    assert!(matches!(
        handle_ipc_cmd(&mut s, 44, &release),
        Step::Hush { session: Some(42), .. }
    ));
    assert!(matches!(handle_ipc_cmd(&mut s, 45, &release), Step::Hush { session: None, .. }));
    s.ptt_stop = Some(9);
    talk_over(&mut s, 42);
    assert_eq!(s.ptt_stop, Some(9));
    talk_over(&mut s, 9);
    assert!(s.ptt_stop.is_none());
}

#[test]
fn presence_and_talk_friend_are_set() {
    let mut s = state();
    match handle_ipc_cmd(&mut s, 1, &request(r#"{"cmd":"set-presence","state":"dnd"}"#)) {
        Step::Publish { frame, reply } => {
            assert_eq!(frame.to_text(), r#"{"state":"dnd","t":"set_presence"}"#);
            assert_eq!(reply.to_text(), r#"{"ok":true,"reply":"r1"}"#);
        }
        _ => panic!("not published"),
    }
    assert_eq!(s.presence, "dnd");
    let _ = handle_ipc_cmd(&mut s, 2, &request(r#"{"cmd":"set-presence"}"#));
    assert_eq!(s.presence, "online");
    match handle_ipc_cmd(&mut s, 3, &request(r#"{"cmd":"set-ptt-friend","friend":"bob"}"#)) {
        Step::Prewarm { friend_id, .. } => assert_eq!(friend_id, "7"),
        _ => panic!("not warmed up"),
    }
    assert_eq!(s.last_ptt_friend, Some("7".to_string()));
    let _ = reply(&mut s, r#"{"cmd":"set-ptt-friend","friend":"eve"}"#);
    assert_eq!(s.last_ptt_friend, Some("9".to_string()));
    let _ = reply(&mut s, r#"{"cmd":"set-ptt-friend"}"#);
    assert_eq!(s.last_ptt_friend, None);
}

#[test]
fn a_session_waits_for_its_link() {
    assert!(matches!(await_link(true, Link::Connected, false), TalkStep::Abort));
    assert!(matches!(await_link(false, Link::Connected, true), TalkStep::Talk));
    assert!(matches!(await_link(false, Link::Connecting, false), TalkStep::Wait));
    assert!(
        matches!(await_link(false, Link::Broken, false), TalkStep::Fail(m) if m.contains("NAT/firewall"))
    );
    assert!(
        matches!(await_link(false, Link::Connecting, true), TalkStep::Fail(m) if m.starts_with("timed out connecting"))
    );
    let card = ptt_error("bob", &dial_failed()).text();
    assert!(card.contains("PTT failed — bob") && card.contains("dial failed"));
}

#[test]
fn updates_are_told_apart() {
    assert!(is_self_update(&request(r#"{"cmd":"self-update"}"#)));
    assert!(!is_self_update(&request(r#"{"cmd":"friend-list"}"#)));
}
