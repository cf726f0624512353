use sociacli::config::Config;
use sociacli::daemon::{
    config_event, on_hotkey, on_peer_action, on_server, prewarm_target, DaemonState, Effect,
    HotkeyStep,
};
use sociacli::json::Json;
use sociacli::protocol::{Friend, Me, Perm, ServerMsg};

fn friend(id: &str, username: &str, status: &str, online: bool) -> Friend {
    Friend {
        id: id.to_string(),
        username: username.to_string(),
        status: status.to_string(),
        online,
        presence: None,
    }
}

fn started() -> DaemonState {
    DaemonState::new(&Config::fresh())
}

fn with_friends(fs: Vec<Friend>) -> DaemonState {
    let mut s = started();
    let _ = on_server(&mut s, ServerMsg::Friends { friends: fs });
    s
}

fn show(e: &Effect) -> String {
    match e {
        Effect::Print(s) => format!("print {}", s),
        Effect::Show(ev) => format!("show {}", ev.text()),
        Effect::Send(j) => format!("send {}", j.to_text()),
        Effect::Negotiate { from, payload } => format!("negotiate {} {}", from, payload.to_text()),
        Effect::Invoke { from, data } => format!("invoke {} {}", from, data.to_text()),
        Effect::Answer { waiter, list } => format!("answer {} {}", waiter, list.to_text()),
        Effect::Refuse { waiter, message } => format!("refuse {} {}", waiter, message),
        Effect::Prewarm => "prewarm".to_string(),
    }
}

fn shown(es: Vec<Effect>) -> Vec<String> {
    es.iter().map(show).collect()
}

fn action(kind: &str) -> ServerMsg {
    ServerMsg::Action {
        from: "7".to_string(),
        action: kind.to_string(),
        title: "T".to_string(),
        body: "B".to_string(),
        data: Json::object(),
    }
}

#[test]
fn the_greeting_asks_for_lists_and_publishes_presence() {
    let mut s = started();
    let me = Me { id: "1".to_string(), username: "alice".to_string() };
    assert_eq!(
        shown(on_server(&mut s, ServerMsg::HelloOk { me })),
        vec![
            r#"show {"kind":"hello","payload":{"id":"1","username":"alice"}}"#,
            r#"send {"t":"friend_list"}"#,
            r#"send {"t":"perm_list"}"#,
            r#"send {"state":"online","t":"set_presence"}"#,
        ]
    );
}

#[test]
fn an_empty_presence_is_online() {
    let mut c = Config::fresh();
    c.presence = String::new();
    assert_eq!(DaemonState::new(&c).presence, "online");
    c.presence = "offline".to_string();
    assert_eq!(DaemonState::new(&c).presence, "offline");
}

#[test]
fn actions_show_under_the_username() {
    let mut s = with_friends(vec![friend("7", "bob", "accepted", true)]);
    assert_eq!(
        shown(on_server(&mut s, action("message"))),
        vec![
            "print [message] bob: T — B",
            r#"show {"kind":"action","payload":{"action":"message","body":"B","data":{},"from":"7","from_username":"bob","title":"T"}}"#,
        ]
    );
    let plugin = shown(on_server(&mut s, action("plugin")));
    assert_eq!(plugin.len(), 3);
    assert_eq!(plugin[2], "invoke 7 {}");
}

#[test]
fn do_not_disturb_drops_what_it_blocks() {
    let mut s = started();
    s.presence = "dnd".to_string();
    for kind in ["message", "game_invite", "ptt", "plugin", "custom", "anything"] {
        assert!(on_server(&mut s, action(kind)).is_empty());
    }
    let signal = || ServerMsg::Signal { from: "7".to_string(), payload: Json::Null };
    assert!(on_server(&mut s, signal()).is_empty());
    s.dnd_block_message = false;
    s.dnd_block_ptt = false;
    assert_eq!(on_server(&mut s, action("message")).len(), 2);
    assert!(on_server(&mut s, action("game_invite")).is_empty());
    assert_eq!(shown(on_server(&mut s, signal())), vec!["negotiate 7 null"]);
    s.presence = "online".to_string();
    assert_eq!(on_server(&mut s, action("game_invite")).len(), 2);
}

fn presence(id: &str, online: bool, state: Option<&str>) -> ServerMsg {
    ServerMsg::Presence {
        friend_id: id.to_string(),
        online,
        state: state.map(str::to_string),
    }
}

#[test]
fn presence_patches_the_list() {
    let mut s =
        with_friends(vec![friend("7", "bob", "accepted", false), friend("8", "zoe", "accepted", true)]);
    let out = shown(on_server(&mut s, presence("7", true, None)));
    assert_eq!(out.len(), 2);
    assert_eq!(
        out[1],
        r#"show {"kind":"presence","payload":{"friend_id":"7","online":true,"state":"online"}}"#
    );
    assert!(s.friends[0].online);
    assert_eq!(s.friends[0].presence, Some("online".to_string()));
    assert_eq!(s.friends[1].presence, None);
    let _ = on_server(&mut s, presence("8", false, Some("dnd")));
    assert_eq!(s.friends[1].presence, Some("dnd".to_string()));
}

#[test]
fn presence_cards_are_opt_in_and_for_changes() {
    let mut s = with_friends(vec![friend("7", "bob", "accepted", false)]);
    assert_eq!(on_server(&mut s, presence("7", true, None)).len(), 2);
    s.notify_friend_presence = true;
    assert_eq!(on_server(&mut s, presence("7", true, None)).len(), 2);
    let gone = shown(on_server(&mut s, presence("7", false, None)));
    assert!(gone[2].contains("bob went offline") && gone[2].contains("Friend offline"));
    let back = shown(on_server(&mut s, presence("7", true, None)));
    assert!(back[2].contains("bob is now online"));
    let stranger = shown(on_server(&mut s, presence("9", true, None)));
    assert!(stranger[2].contains("9 is now online"));
}

#[test]
fn only_new_requests_are_announced() {
    let request = || friend("7", "bob", "pending_in", false);
    let mut s = started();
    let first = shown(on_server(&mut s, ServerMsg::Friends { friends: vec![request()] }));
    assert_eq!(first.len(), 2);
    assert_eq!(first[1], "prewarm");
    let again = shown(on_server(&mut s, ServerMsg::Friends { friends: vec![request()] }));
    assert_eq!(again.len(), 2);
    let more = shown(on_server(
        &mut s,
        ServerMsg::Friends { friends: vec![request(), friend("8", "zoe", "pending_in", true)] },
    ));
    assert_eq!(
        more[0],
        "print [friend request] zoe wants to add you — `friend accept zoe`"
    );
    assert_eq!(more[1], r#"show {"kind":"friend_request","payload":{"id":"8","username":"zoe"}}"#);
    assert_eq!(more.len(), 4);
    s.notify_friend_requests = false;
    let quiet = on_server(
        &mut s,
        ServerMsg::Friends { friends: vec![friend("9", "eve", "pending_in", true)] },
    );
    assert_eq!(quiet.len(), 2);
}

#[test]
fn lists_go_to_who_waits() {
    let mut s = started();
    s.pending_friends = vec![4, 5];
    s.pending_perms = vec![6];
    let out = shown(on_server(&mut s, ServerMsg::Friends { friends: vec![] }));
    assert_eq!(out[0], "answer 4 []");
    assert_eq!(out[1], "answer 5 []");
    assert!(s.pending_friends.is_empty());
    let p = Perm { friend_id: "7".to_string(), action: "ptt".to_string(), allowed: true };
    let out = shown(on_server(&mut s, ServerMsg::Perms { perms: vec![p] }));
    assert_eq!(out, vec![r#"answer 6 [{"action":"ptt","allowed":true,"friend_id":"7"}]"#]);
    assert!(s.pending_perms.is_empty());
    assert_eq!(s.perms.len(), 1);
}

#[test]
fn objections_go_to_the_oldest_call() {
    let mut s = started();
    let error = || ServerMsg::Error { message: "no".to_string() };
    assert!(on_server(&mut s, error()).is_empty());
    s.pending_acks = vec![1, 2, 3];
    assert_eq!(shown(on_server(&mut s, error())), vec!["refuse 1 no"]);
    assert_eq!(shown(on_server(&mut s, error())), vec!["refuse 2 no"]);
    assert_eq!(s.pending_acks, vec![3]);
}

#[test]
fn announcements_and_permissions_are_shown() {
    let mut s = started();
    let a = ServerMsg::Announcement { title: "Hi".to_string(), body: "all".to_string() };
    let out = shown(on_server(&mut s, a));
    assert_eq!(out[0], "print [server] Hi — all");
    assert!(out[1].contains(r#""title":"Server: Hi""#));
    let p = ServerMsg::PermChanged {
        by: "7".to_string(),
        action: "ptt".to_string(),
        allowed: false,
    };
    assert_eq!(
        shown(on_server(&mut s, p)),
        vec![r#"show {"kind":"perm_changed","payload":{"action":"ptt","allowed":false,"by":"7"}}"#]
    );
}

#[test]
fn peers_can_send_actions_directly() {
    let frame = Json::parse(r#"{"title":"Hi","n":1}"#).ok().unwrap();
    let mut s = started();
    let out = shown(on_peer_action(&s, "7", &frame));
    assert_eq!(out[0], r#"print [p2p] 7: {"n":1,"title":"Hi"}"#);
    assert_eq!(
        out[1],
        r#"show {"kind":"action","payload":{"action":"custom","body":"","data":{},"from":"7","title":"Hi"}}"#
    );
    s.friends = vec![friend("7", "bob", "accepted", true)];
    let out = shown(on_peer_action(&s, "7", &frame));
    assert_eq!(out[0], r#"print [p2p] bob: {"n":1,"title":"Hi"}"#);
    assert_eq!(
        out[1],
        r#"show {"kind":"action","payload":{"action":"custom","body":"","data":{},"from":"7","from_username":"bob","title":"Hi"}}"#
    );
    s.presence = "dnd".to_string();
    let message = Json::parse(r#"{"action":"message","title":"t","body":"b"}"#).ok().unwrap();
    assert!(on_peer_action(&s, "7", &frame).is_empty());
    assert!(on_peer_action(&s, "7", &message).is_empty());
    s.dnd_block_message = false;
    assert_eq!(on_peer_action(&s, "7", &message).len(), 2);
    assert!(on_peer_action(&s, "7", &frame).is_empty());
}

#[test]
fn hotkeys_open_and_talk() {
    assert!(matches!(on_hotkey("open", true), HotkeyStep::Open(e) if e.kind == "focus"));
    assert!(matches!(on_hotkey("open", false), HotkeyStep::Ignore));
    let word = |pressed| match on_hotkey("ptt", pressed) {
        HotkeyStep::Command(c) => c.to_text(),
        _ => panic!("no command"),
    };
    assert_eq!(word(true), r#"{"cmd":"ptt-start","id":""}"#);
    assert_eq!(word(false), r#"{"cmd":"ptt-stop","id":""}"#);
    assert!(matches!(on_hotkey("other", true), HotkeyStep::Ignore));
}

#[test]
fn the_talk_friend_is_warmed_up_when_ready() {
    let mut s =
        with_friends(vec![friend("7", "bob", "accepted", true), friend("8", "zoe", "pending_in", true)]);
    assert_eq!(prewarm_target(&s), None);
    s.last_ptt_friend = Some("bob".to_string());
    assert_eq!(prewarm_target(&s), Some("7".to_string()));
    s.connected = false;
    assert_eq!(prewarm_target(&s), None);
    s.connected = true;
    s.last_ptt_friend = Some("zoe".to_string());
    assert_eq!(prewarm_target(&s), None);
}

#[test]
fn overlays_learn_the_settings() {
    let mut c = Config::fresh();
    c.username = Some("alice".to_string());
    assert_eq!(
        config_event(&c).text(),
        r#"{"kind":"config","payload":{"notify_auto_dismiss":false,"notify_auto_dismiss_ms":6000,"notify_show_list":true,"notify_sound":null,"user_id":null,"username":"alice"}}"#
    );
}
