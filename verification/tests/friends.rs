use sociacli::friends::{
    await_hello, bare, cannot_reach, find_heard, find_named, find_reply, find_with_id, friend_find,
    friend_heard, friend_message, friend_reply, friend_request, is_id, label, list_from_server, perm_heard,
    perm_message, perm_reply, perm_request, recipient_unreachable, resolve, resolve_from_server,
    resolve_reply, resolve_request, send_heard, send_reply, send_request, Flow, FriendCmd, Heard,
    PermCmd,
};
use sociacli::json::{Fields, Json};
use sociacli::protocol::{friends_json, ActionKind, Friend, Me, Perm, ServerMsg};

fn friend(id: &str, username: &str, status: &str, online: bool, presence: Option<&str>) -> Friend {
    Friend {
        id: id.to_string(),
        username: username.to_string(),
        status: status.to_string(),
        online,
        presence: presence.map(str::to_string),
    }
}

fn three() -> Vec<Friend> {
    vec![
        friend("6abeaa8c", "mauro", "accepted", true, Some("online")),
        friend("4e1a772d", "Zoe", "accepted", true, Some("dnd")),
        friend("1f3eb22e", "bob", "pending_out", false, None),
    ]
}

fn lines(f: Flow) -> Vec<String> {
    match f {
        Flow::Done(l) => l,
        Flow::Wait => panic!("waits"),
        Flow::Fail(e) => panic!("{}", e),
    }
}

fn failure(f: Flow) -> String {
    match f {
        Flow::Fail(e) => e,
        _ => panic!("no failure"),
    }
}

fn items(fs: &Vec<Friend>) -> Vec<Json> {
    match friends_json(fs) {
        Json::Arr(v) => v,
        _ => panic!("no list"),
    }
}

fn list_reply(fs: &Vec<Friend>) -> Json {
    Fields::new().with("friends", friends_json(fs)).done()
}

#[test]
fn ids_are_known_by_their_form() {
    assert!(is_id("67e55044-10b1-426f-9247-bb680e5fe0c8"));
    assert!(is_id("67E5504410B1426F9247BB680E5FE0C8"));
    assert!(is_id("{67e55044-10b1-426f-9247-bb680e5fe0c8}"));
    assert!(is_id("URN:uuid:67e55044-10b1-426f-9247-bb680e5fe0c8"));
    assert!(!is_id("bob"));
    assert!(!is_id("67e55044-10b1-426f-9247-bb680e5fe0cg"));
    assert!(!is_id("67e5504410b1-426f-9247-bb680e5fe0c8xxxx"));
    assert!(!is_id(""));
}

#[test]
fn friends_are_found_by_name_and_id() {
    let fs = three();
    assert_eq!(find_named(&fs, "bob").unwrap().id, "1f3eb22e");
    assert!(find_named(&fs, "BOB").is_none());
    assert_eq!(find_with_id(&fs, "4e1a772d").unwrap().username, "Zoe");
    assert!(find_with_id(&fs, "x").is_none());
    assert_eq!(resolve(&fs, "mauro"), Some("6abeaa8c".to_string()));
    assert_eq!(resolve(&fs, "nobody"), None);
    let id = "67e55044-10b1-426f-9247-bb680e5fe0c8";
    assert_eq!(resolve(&fs, id), Some(id.to_string()));
    assert_eq!(label(&fs, "1f3eb22e"), "bob");
    assert_eq!(label(&fs, "stranger"), "stranger");
}

fn state(status: &str, online: bool, presence: &str) -> Json {
    Fields::new()
        .with_text("username", "mauro")
        .with_text("status", status)
        .with_bool("online", online)
        .with_text("presence", presence)
        .done()
}

#[test]
fn unreachable_friends_are_not_sent_to() {
    let why = |s: &Json| recipient_unreachable("id", "message", Some(s)).map(|p| p.0);
    assert_eq!(why(&state("accepted", true, "online")), None);
    assert_eq!(why(&state("accepted", false, "offline")), Some("mauro is offline".to_string()));
    assert_eq!(
        why(&state("accepted", true, "dnd")),
        Some("mauro is in Do Not Disturb — your message would be dropped".to_string())
    );
    assert_eq!(
        why(&state("pending_out", true, "online")),
        Some("mauro hasn't accepted your friend request yet".to_string())
    );
    assert_eq!(
        why(&state("pending_in", true, "online")),
        Some(
            "mauro sent you a request — accept it first with `friend accept mauro`".to_string()
        )
    );
    assert_eq!(why(&Json::object()), Some("you're not friends with id".to_string()));
    assert!(recipient_unreachable("id", "ptt", None).is_none());
    assert_eq!(cannot_reach("mauro", "mauro is offline"), "can't reach mauro: mauro is offline");
}

#[test]
fn the_greeting_is_waited_for() {
    assert!(failure(await_hello(&Heard::Timeout)).starts_with("timed out waiting for server hello"));
    assert_eq!(failure(await_hello(&Heard::Closed)), "connection closed before server hello");
    let me = Me { id: "1".to_string(), username: "a".to_string() };
    assert!(lines(await_hello(&Heard::Said(ServerMsg::HelloOk { me }))).is_empty());
    let other = ServerMsg::Error { message: "x".to_string() };
    assert!(matches!(await_hello(&Heard::Said(other)), Flow::Wait));
}

#[test]
fn names_are_resolved_through_the_daemon_or_the_server() {
    assert_eq!(resolve_request("bob").to_text(), r#"{"cmd":"resolve-friend","ident":"bob"}"#);
    let found = Fields::new().with_text("id", "7").done();
    assert!(matches!(resolve_reply(&found), Some(Ok(id)) if id == "7"));
    let refused = Fields::new().with_text("error", "no").done();
    assert!(matches!(resolve_reply(&refused), Some(Err(e)) if e == "no"));
    assert!(resolve_reply(&Json::object()).is_none());
    let list = Heard::Said(ServerMsg::Friends { friends: three() });
    assert!(matches!(resolve_from_server("bob", &list), Some(Ok(id)) if id == "1f3eb22e"));
    assert!(
        matches!(resolve_from_server("eve", &list), Some(Err(e)) if e == "no friend named eve")
    );
    let error = Heard::Said(ServerMsg::Error { message: "down".to_string() });
    assert!(matches!(resolve_from_server("bob", &error), Some(Err(e)) if e == "server: down"));
    assert!(
        matches!(resolve_from_server("bob", &Heard::Closed), Some(Err(e)) if e == "ws closed before friend list arrived")
    );
    assert!(resolve_from_server("bob", &Heard::Timeout).is_none());
    assert!(matches!(list_from_server(list), Some(Ok(fs)) if fs.len() == 3));
    assert!(matches!(list_from_server(error), Some(Err(e)) if e == "server: down"));
    assert!(matches!(
        list_from_server(Heard::Closed),
        Some(Err(e)) if e == "ws closed before friend list arrived"
    ));
    assert!(list_from_server(Heard::Timeout).is_none());
}

#[test]
fn the_list_marks_each_state() {
    let r = friend_reply(true, &list_reply(&three())).ok().unwrap();
    assert_eq!(
        r,
        vec![
            "[online        ] [accepted] mauro — 6abeaa8c",
            "[do not disturb] [accepted] Zoe — 4e1a772d",
            "[offline       ] [pending_out] bob — 1f3eb22e",
        ]
    );
    assert_eq!(friend_reply(true, &Json::object()).ok().unwrap(), vec!["(no friends)"]);
    assert_eq!(friend_reply(false, &Json::object()).ok().unwrap(), vec!["ok"]);
    let e = Fields::new().with_text("error", "user not found").done();
    assert_eq!(friend_reply(false, &e).err().unwrap(), "server: user not found");
}

#[test]
fn the_server_list_is_short() {
    let heard = Heard::Said(ServerMsg::Friends { friends: three() });
    assert_eq!(
        lines(friend_heard(&heard)),
        vec![
            "* [accepted] mauro — 6abeaa8c",
            "* [accepted] Zoe — 4e1a772d",
            "  [pending_out] bob — 1f3eb22e",
        ]
    );
    let none = Heard::Said(ServerMsg::Friends { friends: vec![] });
    assert_eq!(lines(friend_heard(&none)), vec!["(no friends)"]);
    assert_eq!(lines(friend_heard(&Heard::Timeout)), vec!["ok"]);
    assert!(lines(friend_heard(&Heard::Closed)).is_empty());
    let error = Heard::Said(ServerMsg::Error { message: "m".to_string() });
    assert_eq!(failure(friend_heard(&error)), "server: m");
}

#[test]
fn searching_ignores_case_and_takes_whole_ids() {
    let fs = items(&three());
    assert_eq!(friend_find(&fs, "ZO"), vec!["[do not disturb] [accepted] Zoe — 4e1a772d"]);
    assert_eq!(friend_find(&fs, "1f3eb22e").len(), 1);
    assert_eq!(friend_find(&fs, "1f3e"), vec!["(no matches for `1f3e`)"]);
    assert_eq!(friend_find(&fs, "O").len(), 3);
    assert_eq!(find_reply(None, "x"), vec!["(no matches for `x`)"]);
    assert_eq!(find_reply(Some(&list_reply(&three())), "MAU").len(), 1);
    let heard = Heard::Said(ServerMsg::Friends { friends: three() });
    assert_eq!(lines(find_heard("bo", &heard)), vec!["[offline       ] [pending_out] bob — 1f3eb22e"]);
    assert_eq!(lines(find_heard("bo", &Heard::Timeout)), vec!["(no matches for `bo`)"]);
    let error = Heard::Said(ServerMsg::Error { message: "m".to_string() });
    assert!(matches!(find_heard("bo", &error), Flow::Wait));
}

#[test]
fn friend_commands_have_their_words() {
    let add = FriendCmd::Add { username: "bob".to_string() };
    assert_eq!(friend_request(&add).to_text(), r#"{"cmd":"friend-add","username":"bob"}"#);
    assert_eq!(friend_message(&add).frame().to_text(), r#"{"t":"friend_add","username":"bob"}"#);
    let accept = FriendCmd::Accept { username: "bob".to_string() };
    assert_eq!(friend_request(&accept).text_member("cmd"), Some("friend-accept"));
    let remove = FriendCmd::Remove { username: "bob".to_string() };
    assert_eq!(friend_message(&remove).frame().text_member("t"), Some("friend_remove"));
    assert_eq!(friend_request(&FriendCmd::List).to_text(), bare("friend-list").to_text());
    let find = FriendCmd::Find { query: "q".to_string() };
    assert_eq!(friend_message(&find).frame().to_text(), r#"{"t":"friend_list"}"#);
}

#[test]
fn permissions_are_listed_and_set() {
    let set = PermCmd::Update {
        friend_id: "7".to_string(),
        action: ActionKind::GameInvite,
        allowed: false,
    };
    assert_eq!(
        perm_request(&set).to_text(),
        r#"{"action":"game_invite","allowed":false,"cmd":"perm-set","friend_id":"7"}"#
    );
    assert_eq!(
        perm_message(&set).frame().to_text(),
        r#"{"action":"game_invite","allowed":false,"friend_id":"7","t":"perm_update"}"#
    );
    assert_eq!(perm_request(&PermCmd::List).text_member("cmd"), Some("perm-list"));
    let p = || Perm { friend_id: "7".to_string(), action: "ptt".to_string(), allowed: false };
    let reply =
        Fields::new().with("perms", Json::Arr(vec![p().json(), Json::object()])).done();
    assert_eq!(perm_reply(true, &reply).ok().unwrap(), vec!["block ptt 7", "block ? ?"]);
    assert_eq!(
        perm_reply(true, &Json::object()).ok().unwrap(),
        vec!["(defaults: all friends allowed for all actions)"]
    );
    assert_eq!(perm_reply(false, &Json::object()).ok().unwrap(), vec!["ok"]);
    let e = Fields::new().with_text("error", "no").done();
    assert_eq!(perm_reply(true, &e).err().unwrap(), "server: no");
    let heard = Heard::Said(ServerMsg::Perms { perms: vec![p()] });
    assert_eq!(lines(perm_heard(&heard)), vec!["block ptt 7"]);
    assert_eq!(lines(perm_heard(&Heard::Timeout)), vec!["ok"]);
}

#[test]
fn actions_are_sent_and_confirmed() {
    assert_eq!(
        send_request("7", ActionKind::Message, "Message", "hey", Json::object()).to_text(),
        r#"{"action":"message","body":"hey","cmd":"send-action","data":{},"title":"Message","to":"7"}"#
    );
    let ok = Fields::new().with_bool("ok", true).done();
    assert_eq!(
        send_reply("bob", "Message", "hey, you around?", &ok).ok().unwrap(),
        "→ bob: Message — hey, you around?"
    );
    let e = Fields::new().with_text("error", "recipient offline").done();
    assert_eq!(send_reply("bob", "t", "b", &e).err().unwrap(), "server: recipient offline");
    assert_eq!(lines(send_heard("bob", "t", "b", &Heard::Timeout)), vec!["→ bob: t — b"]);
    assert!(matches!(send_heard("bob", "t", "b", &Heard::Closed), Flow::Wait));
    let error = Heard::Said(ServerMsg::Error { message: "m".to_string() });
    assert_eq!(failure(send_heard("bob", "t", "b", &error)), "server: m");
}
