use sociacli::json::{Fields, Json};
use sociacli::overlay_ipc::{
    bind_failed, event_line, is_answer, on_client_frame, reply_in, sent_off, stamp, tap_line, url, ClientStep,
    OverlayEvent, Sticky, DEFAULT_PORT,
};
use sociacli::signaling::WsFrame;

#[test]
fn commands_of_clients_are_json_texts() {
    let step = |f: WsFrame| on_client_frame(&f);
    assert!(matches!(
        step(WsFrame::Text("{\"cmd\":\"x\"}".to_string())),
        ClientStep::Command(j) if j.text_member("cmd") == Some("x")
    ));
    assert!(matches!(step(WsFrame::Text("hello".to_string())), ClientStep::Ignore));
    assert!(matches!(step(WsFrame::Binary(b"{}".to_vec())), ClientStep::Ignore));
    assert!(matches!(step(WsFrame::Control), ClientStep::Ignore));
    assert!(matches!(step(WsFrame::Close), ClientStep::End));
}

#[test]
fn events_have_a_kind_and_a_payload() {
    let e = OverlayEvent::new("focus", Json::object());
    assert_eq!(e.text(), r#"{"kind":"focus","payload":{}}"#);
    assert_eq!(DEFAULT_PORT, 8923);
    assert_eq!(url(), "ws://127.0.0.1:8923");
}

#[test]
fn late_overlays_get_the_latest_of_what_is_kept() {
    let mut s = Sticky::new();
    assert!(s.replay().is_empty());
    s.remember(&OverlayEvent::new("hello", Json::whole(1)));
    s.remember(&OverlayEvent::new("action", Json::whole(2)));
    s.remember(&OverlayEvent::new("friends", Json::whole(3)));
    s.remember(&OverlayEvent::new("config", Json::whole(4)));
    s.remember(&OverlayEvent::new("hello", Json::whole(5)));
    assert_eq!(
        s.replay(),
        vec![
            r#"{"kind":"config","payload":4}"#,
            r#"{"kind":"friends","payload":3}"#,
            r#"{"kind":"hello","payload":5}"#,
        ]
    );
}

#[test]
fn replies_are_known_by_their_id() {
    let cmd = stamp(Fields::new().with_text("cmd", "friend-list").done(), "abc");
    assert_eq!(cmd.to_text(), r#"{"cmd":"friend-list","id":"abc"}"#);
    assert!(reply_in(r#"{"reply":"abc","ok":true}"#, "abc").is_some());
    assert!(reply_in(r#"{"reply":"abd","ok":true}"#, "abc").is_none());
    assert!(reply_in(r#"{"kind":"hello","payload":{}}"#, "abc").is_none());
    assert!(reply_in("no json", "abc").is_none());
    assert!(!is_answer(&Json::Null, "abc"));
    assert_eq!(sent_off().to_text(), r#"{"ok":true}"#);
}

#[test]
fn actions_show_up_in_the_prompt() {
    let text = r#"{"kind":"action","payload":{"from":"7","from_username":"alice","action":"message","title":"Reply","body":"in 5"}}"#;
    assert_eq!(tap_line(text), Some("\n[Message] alice: Reply — in 5".to_string()));
    let bare = r#"{"kind":"action","payload":{"from":"7","action":"custom"}}"#;
    assert_eq!(tap_line(bare), Some("\n[custom] 7:  — ".to_string()));
    assert_eq!(tap_line(r#"{"kind":"action"}"#), Some("\n[?] ?:  — ".to_string()));
    assert_eq!(tap_line(r#"{"kind":"hello","payload":{}}"#), None);
    assert_eq!(tap_line("["), None);
    assert_eq!(event_line(&Json::Null), None);
}

#[test]
fn a_port_that_is_taken_is_tried_for_two_seconds() {
    let mut attempt = 0;
    let mut paused = 0;
    loop {
        let step = bind_failed(attempt);
        paused += step.pause;
        if !step.again {
            break;
        }
        attempt += 1;
    }
    assert_eq!(attempt, 19);
    assert_eq!(paused, 2000);
    assert!(!bind_failed(u32::MAX).again);
}

#[test]
fn events_go_out_once_and_are_kept() {
    let mut s = Sticky::new();
    let hello = |n| OverlayEvent::new("hello", Json::whole(n));
    assert_eq!(s.send(&hello(1)), r#"{"kind":"hello","payload":1}"#);
    assert_eq!(
        s.send(&OverlayEvent::new("action", Json::Null)),
        r#"{"kind":"action","payload":null}"#
    );
    assert_eq!(s.send(&hello(2)), r#"{"kind":"hello","payload":2}"#);
    assert_eq!(s.replay(), vec![r#"{"kind":"hello","payload":2}"#]);
}
