use sociacli::config::{default_ice_servers, IceServer};
use sociacli::json::Json;
use sociacli::peers::{
    answer, beep_end, beep_start, candidate, channel_frame, handle_signal, ice_from_config, ice_or_fallback,
    initiates, is_control, offer, pump_remote_audio, stream_name, AudioCmd, AudioEvent, AudioFx,
    Negotiation,
};

fn show(cmds: Vec<AudioCmd>) -> Vec<String> {
    cmds.iter()
        .map(|c| match c {
            AudioCmd::Samples(s) => format!("{:?}", s),
            AudioCmd::Beep { freq, ms, gain } => format!("{} {} {}", freq, ms, gain),
        })
        .collect()
}

#[test]
fn beeps_follow_the_switch() {
    let on = AudioFx::default();
    assert!(on.radio_effect && on.radio_beeps);
    let off = AudioFx { radio_effect: true, radio_beeps: false };
    assert_eq!(show(beep_start(on).into_iter().collect()), vec!["1200 80 18"]);
    assert_eq!(show(beep_end(on).into_iter().collect()), vec!["440 100 18"]);
    assert!(beep_start(off).is_none() && beep_end(off).is_none());
}

#[test]
fn speech_starts_and_ends_with_a_beep() {
    let mut talking = false;
    let mut hear = |e| show(pump_remote_audio(&mut talking, true, e));
    assert!(hear(AudioEvent::Silence).is_empty());
    assert!(hear(AudioEvent::Blank).is_empty());
    assert!(hear(AudioEvent::Speech(vec![])).is_empty());
    assert_eq!(hear(AudioEvent::Speech(vec![1, 2])), vec!["1200 80 18", "[1, 2]"]);
    assert_eq!(hear(AudioEvent::Speech(vec![3])), vec!["[3]"]);
    assert!(hear(AudioEvent::Blank).is_empty());
    assert_eq!(hear(AudioEvent::Silence), vec!["440 100 18"]);
    assert!(hear(AudioEvent::Silence).is_empty());
    assert_eq!(hear(AudioEvent::Speech(vec![4])).len(), 2);
    assert_eq!(hear(AudioEvent::Ended), vec!["440 100 18"]);
}

#[test]
fn speech_without_beeps_is_speech_alone() {
    let mut talking = false;
    let mut hear = |e| show(pump_remote_audio(&mut talking, false, e));
    assert_eq!(hear(AudioEvent::Speech(vec![1])), vec!["[1]"]);
    assert!(hear(AudioEvent::Silence).is_empty());
    assert!(hear(AudioEvent::Ended).is_empty());
}

#[test]
fn negotiation_goes_over() {
    let n = |j: Json| handle_signal(&j).ok().unwrap();
    assert!(matches!(n(offer("v=0")), Negotiation::Offer(s) if s == "v=0"));
    assert!(matches!(n(answer("v=1")), Negotiation::Answer(s) if s == "v=1"));
    assert!(
        matches!(n(candidate(Json::whole(5))), Negotiation::Candidate(c) if c.to_text() == "5")
    );
    assert_eq!(offer("x").to_text(), r#"{"sdp":"x","type":"offer"}"#);
    assert!(initiates(&n(answer("a"))));
    assert!(!initiates(&n(offer("a"))));
}

#[test]
fn negotiation_that_lacks_something_is_refused() {
    let e = |t: &str| handle_signal(&Json::parse(t).ok().unwrap()).err().unwrap();
    assert_eq!(e(r#"{"type":"offer"}"#), "offer missing sdp");
    assert_eq!(e(r#"{"type":"answer","sdp":1}"#), "answer missing sdp");
    assert_eq!(e(r#"{"type":"candidate"}"#), "candidate missing payload");
    let odd = handle_signal(&Json::parse(r#"{"type":"bye"}"#).ok().unwrap()).ok().unwrap();
    assert!(matches!(odd, Negotiation::Unknown(k) if k == "bye"));
}

#[test]
fn there_is_always_a_server_to_help() {
    let turn = IceServer {
        urls: vec!["turn:host:3478".to_string()],
        username: Some("u".to_string()),
        credential: None,
    };
    let v = ice_from_config(&vec![turn]);
    assert_eq!(v[0].urls, vec!["turn:host:3478"]);
    assert_eq!(v[0].username, "u");
    assert_eq!(v[0].credential, "");
    assert_eq!(ice_or_fallback(v)[0].username, "u");
    let none = ice_or_fallback(vec![]);
    assert_eq!(none.len(), 1);
    assert_eq!(none[0].urls, vec!["stun:stun.l.google.com:19302"]);
    assert_eq!(ice_from_config(&default_ice_servers()).len(), 1);
}

#[test]
fn channels_and_streams_have_names() {
    assert!(is_control("ctrl"));
    assert!(!is_control("data"));
    assert_eq!(stream_name("7"), "ptt-7");
}

#[test]
fn messages_of_a_channel_are_json() {
    let frame = channel_frame(&br#"{ "title": "caf\u00e9", "n": 1 }"#.to_vec()).unwrap();
    assert_eq!(frame.to_text(), r#"{"n":1,"title":"café"}"#);
    assert!(channel_frame(&frame.to_text().into_bytes()).is_some());
    assert!(channel_frame(&b"hello".to_vec()).is_none());
    assert!(channel_frame(&vec![b'"', 0xff, b'"']).is_none());
    assert!(channel_frame(&vec![]).is_none());
}
