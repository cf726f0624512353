use sociacli::json::Json;
use sociacli::protocol::{
    friends_json, perms_json, read_friends, ActionKind, ClientMsg, Friend, Perm,
};

#[test]
fn kinds_have_their_words() {
    assert_eq!(ActionKind::Message.as_str(), "message");
    assert_eq!(ActionKind::GameInvite.as_str(), "game_invite");
    assert_eq!(ActionKind::Ptt.as_str(), "ptt");
    assert_eq!(ActionKind::Custom.as_str(), "custom");
    assert_eq!(ActionKind::Plugin.as_str(), "plugin");
}

#[test]
fn messages_have_their_frames() {
    let t = |m: ClientMsg| m.frame().to_text();
    assert_eq!(t(ClientMsg::FriendList), r#"{"t":"friend_list"}"#);
    assert_eq!(t(ClientMsg::PermList), r#"{"t":"perm_list"}"#);
    assert_eq!(t(ClientMsg::FriendAccept { username: "a" }), r#"{"t":"friend_accept","username":"a"}"#);
    assert_eq!(t(ClientMsg::SetPresence { state: "dnd" }), r#"{"state":"dnd","t":"set_presence"}"#);
    assert_eq!(
        t(ClientMsg::Signal { to: "7", payload: Json::whole(1) }),
        r#"{"payload":1,"t":"signal","to":"7"}"#
    );
    assert_eq!(
        t(ClientMsg::SendAction {
            to: "7",
            action: ActionKind::Plugin,
            title: "T",
            body: "B",
            data: Json::object(),
        }),
        r#"{"action":"plugin","body":"B","data":{},"t":"send_action","title":"T","to":"7"}"#
    );
}

#[test]
fn permissions_are_objects() {
    let p = Perm { friend_id: "7".to_string(), action: "ptt".to_string(), allowed: true };
    assert_eq!(
        perms_json(&vec![p.clone()]).to_text(),
        r#"[{"action":"ptt","allowed":true,"friend_id":"7"}]"#
    );
}

#[test]
fn friends_are_read_back_from_json() {
    let bob = Friend {
        id: "7".to_string(),
        username: "bob".to_string(),
        status: "accepted".to_string(),
        online: true,
        presence: Some("dnd".to_string()),
    };
    let list = match friends_json(&vec![bob]) {
        Json::Arr(v) => read_friends(&v),
        _ => panic!("no list"),
    };
    assert_eq!(list.len(), 1);
    assert_eq!((list[0].id.as_str(), list[0].username.as_str()), ("7", "bob"));
    assert_eq!((list[0].status.as_str(), list[0].online), ("accepted", true));
    assert_eq!(list[0].presence, Some("dnd".to_string()));
    let bare = read_friends(&vec![Json::object()]);
    assert_eq!((bare[0].id.as_str(), bare[0].online), ("", false));
    assert_eq!(bare[0].presence, None);
}
