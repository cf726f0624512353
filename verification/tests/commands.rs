use sociacli::api::AuthResp;
use sociacli::commands::{
    background_off, background_on, cannot_arm, combo_is_valid, combo_or_word, daemon_cmd, dnd_cmd,
    dnd_kind_field, message_body, message_data, mic_cmd, notify_sound_cmd, parse_bool,
    presence_cmd, presence_keyword, pretty_presence, ptt_arm, ptt_friend_cmd, ptt_friend_request,
    ptt_start_request, ptt_stop_line, read_pid, record_combo, service_installed, service_status,
    service_uninstalled, session_reply, settings_cmd, shortcut_clear, shortcut_list, shortcut_set,
    sign_in, version_cmd, wait_for_daemon, whoami_cmd, DaemonCmd, DaemonStep, DndCmd, DndKind, Key, MicCmd,
    Modifiers, Recorded, SettingsCmd, SignIn,
};
use sociacli::config::Config;
use sociacli::json::Json;

fn strings(v: &[&str]) -> Vec<String> {
    v.iter().map(|s| s.to_string()).collect()
}

#[test]
fn switches_have_many_words() {
    for w in ["on", "TRUE", "Yes", "1", "allow"] {
        assert_eq!(parse_bool(w), Ok(true));
    }
    for w in ["off", "false", "NO", "0", "Deny", "block"] {
        assert_eq!(parse_bool(w), Ok(false));
    }
    assert_eq!(parse_bool("Maybe"), Err("expected on/off, got Maybe".to_string()));
}

#[test]
fn accounts_come_and_go() {
    let mut c = Config::fresh();
    assert_eq!(
        whoami_cmd(&c, "/c.toml"),
        strings(&[
            "config: /c.toml",
            &format!("server: {}", c.server_url),
            "user:   (not logged in)"
        ])
    );
    let account = AuthResp {
        id: "7".to_string(),
        username: "bob".to_string(),
        token: "t".to_string(),
    };
    let o = sign_in(&mut c, account, SignIn::LoggedIn);
    assert!(o.save);
    assert_eq!(o.lines, strings(&["logged in as bob (7)"]));
    assert_eq!(c.token, Some("t".to_string()));
    let account = AuthResp {
        id: "8".to_string(),
        username: "zoe".to_string(),
        token: "u".to_string(),
    };
    let o = sign_in(&mut c, account, SignIn::Registered);
    assert_eq!(o.lines, strings(&["registered + logged in as zoe (8)"]));
    c.notify_sound = Some("/s.wav".to_string());
    assert_eq!(whoami_cmd(&c, "/c.toml")[2..], strings(&["user:   zoe", "sound:  /s.wav"]));
}

#[test]
fn sounds_have_to_be_there() {
    let mut c = Config::fresh();
    let e = notify_sound_cmd(&mut c, "/x.wav".to_string(), false).err().unwrap();
    assert_eq!(e, "no such file: /x.wav");
    assert_eq!(c.notify_sound, None);
    let o = notify_sound_cmd(&mut c, "/x.wav".to_string(), true).ok().unwrap();
    assert_eq!(o.lines, strings(&["notification sound set"]));
    assert_eq!(c.notify_sound, Some("/x.wav".to_string()));
}

#[test]
fn versions_name_their_build() {
    assert_eq!(version_cmd(None), "sociacli v0.1.7 (build local)");
    assert_eq!(version_cmd(Some("abc")), "sociacli v0.1.7 (build abc)");
}

#[test]
fn messages_have_four_buttons_at_most() {
    assert_eq!(message_data(&vec![]).to_text(), "{}");
    assert_eq!(
        message_data(&strings(&[" Yes = I come = soon ", " No "])).to_text(),
        r#"{"buttons":[{"label":"Yes","reply":"I come = soon"},{"label":"No","reply":"No"}]}"#
    );
    let many = message_data(&strings(&["1", "2", "3", "4", "5"]));
    assert_eq!(many.array_member("buttons").unwrap().len(), 4);
    assert_eq!(message_body(&strings(&["hi", "there"])), "hi there");
}

#[test]
fn presences_have_many_words() {
    let mut c = Config::fresh();
    let (o, r) = presence_cmd(&mut c, Some("Do-Not-Disturb")).ok().unwrap();
    assert_eq!(o.lines, strings(&["presence → do not disturb"]));
    assert_eq!(r.unwrap().to_text(), r#"{"cmd":"set-presence","state":"dnd"}"#);
    assert_eq!(c.presence, "dnd");
    let (o, r) = presence_cmd(&mut c, None).ok().unwrap();
    assert!(!o.save && r.is_none());
    assert_eq!(o.lines, strings(&["presence: do not disturb"]));
    let e = presence_cmd(&mut c, Some("AWAY")).err().unwrap();
    assert_eq!(e, "presence must be `online`, `dnd`, or `invisible` (got `away`).");
    assert_eq!(c.presence, "dnd");
    assert_eq!(presence_keyword("appear-offline"), Some("offline"));
    assert_eq!(presence_keyword("Online"), None);
    assert_eq!(pretty_presence("offline"), "invisible (friends see you as offline)");
}

#[test]
fn dnd_switches_are_set_one_by_one() {
    let mut c = Config::fresh();
    let o = dnd_cmd(&mut c, &DndCmd::Allow { kind: "all".to_string() }).ok().unwrap();
    assert_eq!(
        o.lines,
        strings(&[
            "DND block `all` → off (still receivable while in DND)",
            "(run `daemon restart` to apply)"
        ])
    );
    let o = dnd_cmd(&mut c, &DndCmd::Block { kind: "invite".to_string() }).ok().unwrap();
    assert_eq!(o.lines[0], "DND block `invite` → on");
    let o = dnd_cmd(&mut c, &DndCmd::Show).ok().unwrap();
    assert!(!o.save);
    assert_eq!(
        o.lines,
        strings(&[
            "DND filter (active when `presence == dnd`):",
            "  message:     allowed",
            "  game_invite: BLOCKED",
            "  ptt:         allowed",
            "  plugin:      allowed",
            "  custom:      allowed",
        ])
    );
    let e = dnd_cmd(&mut c, &DndCmd::Block { kind: "calls".to_string() }).err().unwrap();
    assert_eq!(
        e,
        "unknown kind `calls` — use one of: message, game-invite, ptt, plugin, custom, all"
    );
    assert_eq!(dnd_kind_field("msg"), Ok(DndKind::Message));
    for kind in ["MSG", "PTT", "", "all"] {
        assert!(dnd_kind_field(kind).err().unwrap().starts_with("unknown kind `"));
    }
    let _ = dnd_cmd(&mut c, &DndCmd::Block { kind: "all".to_string() });
    assert!(c.dnd_block_message && c.dnd_block_game_invite && c.dnd_block_ptt);
    assert!(c.dnd_block_plugin && c.dnd_block_custom);
    let _ = dnd_cmd(&mut c, &DndCmd::Allow { kind: "all".to_string() });
    assert!(!c.dnd_block_message && !c.dnd_block_game_invite && !c.dnd_block_ptt);
    assert!(!c.dnd_block_plugin && !c.dnd_block_custom);
}

#[test]
fn microphones_are_listed_and_picked() {
    let mut c = Config::fresh();
    let two = || Ok(strings(&["Mic A", "Mic B"]));
    let o = mic_cmd(&mut c, &MicCmd::Pick { id: 1 }, two()).ok().unwrap();
    assert_eq!(o.lines[0], "PTT mic [1] → Mic B");
    let o = mic_cmd(&mut c, &MicCmd::List, two()).ok().unwrap();
    assert_eq!(
        o.lines,
        strings(&[
            "active: Mic B",
            "available:",
            "    [0] Mic A",
            "  * [1] Mic B",
            "\nselect with: `sociacli mic set <id>`",
        ])
    );
    let e = mic_cmd(&mut c, &MicCmd::Pick { id: 2 }, two()).err().unwrap();
    assert_eq!(e, "no input device with id 2 — `sociacli mic list` shows 2 device(s)");
    let e = mic_cmd(&mut c, &MicCmd::Pick { id: 0 }, Err("no host".to_string())).err().unwrap();
    assert_eq!(e, "no host");
    let _ = mic_cmd(&mut c, &MicCmd::Default, Ok(vec![]));
    assert_eq!(c.ptt_input_device, None);
    let o = mic_cmd(&mut c, &MicCmd::List, Ok(vec![])).ok().unwrap();
    assert_eq!(o.lines, strings(&["active: (default)", "available:", "  (no input devices)"]));
    let o = mic_cmd(&mut c, &MicCmd::List, Err("x".to_string())).ok().unwrap();
    assert_eq!(o.lines[2], "  error: x");
}

fn mods(bits: u8) -> Modifiers {
    Modifiers {
        ctrl: bits & 1 != 0,
        alt: bits & 2 != 0,
        shift: bits & 4 != 0,
        super_key: bits & 8 != 0,
    }
}

fn recorded(key: Key, bits: u8) -> Option<String> {
    match record_combo(&key, &mods(bits), false) {
        Recorded::Combo(c) => Some(c),
        _ => None,
    }
}

#[test]
fn keys_have_their_names() {
    assert_eq!(recorded(Key::Char('t'), 3), Some("Ctrl+Alt+KeyT".to_string()));
    assert_eq!(recorded(Key::Char('T'), 4), Some("Shift+KeyT".to_string()));
    assert_eq!(recorded(Key::Char('7'), 8), Some("Super+Digit7".to_string()));
    assert_eq!(recorded(Key::Char(' '), 0), Some("Space".to_string()));
    assert_eq!(recorded(Key::F(24), 0), Some("F24".to_string()));
    assert_eq!(recorded(Key::F(25), 0), None);
    assert_eq!(recorded(Key::Char('é'), 1), None);
    assert_eq!(recorded(Key::Left, 15), Some("Ctrl+Alt+Shift+Super+ArrowLeft".to_string()));
    assert!(matches!(record_combo(&Key::Esc, &mods(0), false), Recorded::Cancelled));
    assert!(matches!(record_combo(&Key::Esc, &mods(0), true), Recorded::Nothing));
    assert!(matches!(record_combo(&Key::Other, &mods(1), false), Recorded::Nothing));
}

#[test]
fn recorded_combos_can_be_bound() {
    for bits in 0..16 {
        let mut keys = vec![
            Key::Tab,
            Key::Backspace,
            Key::Enter,
            Key::Up,
            Key::Down,
            Key::Left,
            Key::Right,
            Key::Char(' '),
        ];
        keys.extend((1..=24).map(Key::F));
        keys.extend(('a'..='z').map(Key::Char));
        keys.extend(('A'..='Z').map(Key::Char));
        keys.extend(('0'..='9').map(Key::Char));
        for k in keys {
            let combo = recorded(k, bits).unwrap();
            assert!(combo_is_valid(&combo), "{}", combo);
            let mut c = Config::fresh();
            assert!(shortcut_set(&mut c, "ptt", &combo).is_ok());
        }
    }
    assert!(!combo_is_valid("Ctrl+Nonsense"));
}

#[test]
fn shortcuts_are_bound_and_cleared() {
    let mut c = Config::fresh();
    let o = shortcut_set(&mut c, "ptt", "Ctrl+KeyT").ok().unwrap();
    assert_eq!(o.lines, strings(&["bound ptt → Ctrl+KeyT (run `daemon restart` to apply)"]));
    assert_eq!(combo_or_word(&c, "ptt", "-"), "Ctrl+KeyT");
    assert_eq!(shortcut_list(&c)[1], "ptt        Ctrl+KeyT");
    let o = shortcut_clear(&mut c, "ptt");
    assert_eq!(o.lines, strings(&["cleared ptt"]));
    assert_eq!(combo_or_word(&c, "ptt", "-"), "-");
    let _ = shortcut_clear(&mut c, "open");
    assert_eq!(
        shortcut_list(&c)[0],
        "(no shortcuts — set with `sociacli shortcut set <action> <combo>`)"
    );
    let e = shortcut_set(&mut c, "jump", "Ctrl+KeyT").err().unwrap();
    assert_eq!(e, "unknown action `jump` — use one of: open, ptt");
    let e = shortcut_set(&mut c, "ptt", "Ctrl+Nonsense").err().unwrap();
    assert!(e.starts_with("bad key combo `Ctrl+Nonsense`: "));
    assert_eq!(combo_or_word(&c, "ptt", "-"), "-");
}

#[test]
fn settings_are_shown_and_changed() {
    let mut c = Config::fresh();
    let o = settings_cmd(&mut c, &SettingsCmd::NotifyAutoDismissMs { ms: 2500 });
    assert_eq!(
        o.lines,
        strings(&["notify_auto_dismiss_ms = 2500", "(run `daemon restart` to apply)"])
    );
    let o = settings_cmd(&mut c, &SettingsCmd::RadioEffect { enabled: false });
    assert_eq!(o.lines, strings(&["radio_effect off"]));
    let o = settings_cmd(&mut c, &SettingsCmd::NotifyFriendPresence { enabled: true });
    assert_eq!(o.lines[0], "notify_friend_presence on");
    let o = settings_cmd(&mut c, &SettingsCmd::Background { enabled: false });
    assert!(o.save && o.lines.is_empty() && !c.background_enabled);
    let o = settings_cmd(&mut c, &SettingsCmd::Show);
    assert!(!o.save);
    assert_eq!(o.lines[0], "radio_effect:           false");
    assert_eq!(o.lines[3], "background_enabled:     false");
    assert_eq!(o.lines[6], "notify_auto_dismiss_ms: 2500");
    assert_eq!(o.lines[8], "notify_friend_presence: true");
    assert_eq!(o.lines.len(), 10);
}

#[test]
fn the_background_daemon_follows_its_entry() {
    let mut c = Config::fresh();
    let o = background_on(&mut c, Err("no".to_string()));
    assert!(!o.save && !c.autostart_installed);
    assert_eq!(o.lines, strings(&["background on (autostart setup failed: no)"]));
    let o = background_on(&mut c, Ok("done".to_string()));
    assert!(o.save && c.autostart_installed);
    assert_eq!(o.lines, strings(&["background on — done"]));
    let _ = background_off(&mut c);
    assert!(!c.autostart_installed);
    let _ = service_installed(&mut c, "in".to_string());
    assert!(c.autostart_installed);
    assert_eq!(service_uninstalled(&mut c, "out".to_string()).lines, strings(&["out"]));
    assert!(!c.autostart_installed);
    assert_eq!(
        service_status("enabled".to_string(), true),
        strings(&["enabled", "daemon running: true"])
    );
}

#[test]
fn talk_is_asked_for_and_armed() {
    assert_eq!(ptt_start_request("bob").to_text(), r#"{"cmd":"ptt-start","friend":"bob"}"#);
    assert_eq!(ptt_friend_request("bob").to_text(), r#"{"cmd":"set-ptt-friend","friend":"bob"}"#);
    let parsed = |t: &str| Json::parse(t).ok().unwrap();
    assert_eq!(
        session_reply("bob", Some(&parsed(r#"{"ok":true}"#))),
        Ok("PTT live with bob (continuous) — `ptt-stop` to end.".to_string())
    );
    assert_eq!(
        session_reply("bob", Some(&parsed(r#"{"error":"off"}"#))),
        Err("off".to_string())
    );
    assert_eq!(
        session_reply("bob", Some(&parsed(r#"{"error":5}"#))),
        Err("ptt error".to_string())
    );
    let silence = Err("daemon didn't acknowledge ptt-start".to_string());
    assert_eq!(session_reply("bob", None), silence);
    assert_eq!(session_reply("bob", Some(&parsed("{}"))), silence);
    assert_eq!(cannot_arm("bob", "offline"), "can't start PTT with bob: offline");
    let mut c = Config::fresh();
    let _ = shortcut_clear(&mut c, "ptt");
    let o = ptt_arm(&mut c, "bob");
    assert_eq!(
        o.lines[0],
        "PTT target: bob. HOLD `(no PTT hotkey bound — `shortcut set ptt <combo>`)` to talk."
    );
    assert_eq!(c.default_ptt_friend, Some("bob".to_string()));
    assert_eq!(ptt_friend_cmd(&mut c, "none").lines, strings(&["default PTT friend: (none)"]));
    assert_eq!(c.default_ptt_friend, None);
    assert_eq!(ptt_friend_cmd(&mut c, "zoe").lines, strings(&["default PTT friend: zoe"]));
    assert_eq!(ptt_stop_line(true), "PTT stopped");
    assert_eq!(ptt_stop_line(false), "no daemon — nothing to stop");
}

#[test]
fn daemons_are_started_once_and_stopped_when_running() {
    let start = [DaemonStep::Start, DaemonStep::Wait, DaemonStep::Say];
    assert_eq!(daemon_cmd(DaemonCmd::Start, true), (vec![DaemonStep::Say], "daemon already running"));
    assert_eq!(daemon_cmd(DaemonCmd::Start, false), (start.to_vec(), "daemon started"));
    assert_eq!(
        daemon_cmd(DaemonCmd::Stop, true),
        (vec![DaemonStep::Stop, DaemonStep::Say], "daemon stopped")
    );
    assert_eq!(daemon_cmd(DaemonCmd::Stop, false), (vec![DaemonStep::Say], "no daemon running"));
    let (steps, words) = daemon_cmd(DaemonCmd::Restart, true);
    assert_eq!(steps[..2], [DaemonStep::Stop, DaemonStep::Pause]);
    assert_eq!(steps[2..], start);
    assert_eq!(words, "daemon restarted");
    assert_eq!(daemon_cmd(DaemonCmd::Restart, false).0, start.to_vec());
    assert_eq!(daemon_cmd(DaemonCmd::Status, true).1, "daemon: running");
    assert_eq!(daemon_cmd(DaemonCmd::Status, false).1, "daemon: not running");
}

#[test]
fn pidfiles_hold_a_number() {
    assert_eq!(read_pid(" 4711\n"), Some(4711));
    assert_eq!(read_pid("+7"), Some(7));
    assert_eq!(read_pid("4294967295"), Some(u32::MAX));
    assert_eq!(read_pid("4294967296"), None);
    assert_eq!(read_pid("-7"), None);
    assert_eq!(read_pid(""), None);
    assert_eq!(read_pid("+"), None);
}

#[test]
fn a_started_daemon_is_waited_for() {
    assert_eq!(wait_for_daemon(0, true), None);
    assert_eq!(wait_for_daemon(0, false), Some(100));
    assert_eq!(wait_for_daemon(2999, false), Some(100));
    assert_eq!(wait_for_daemon(3000, false), None);
}
