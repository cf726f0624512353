use sociacli::api::AuthKind;
use sociacli::commands::{DaemonCmd, MicCmd, SettingsCmd};
use sociacli::config::Config;
use sociacli::dispatch::{dispatch, needs_friends, Cmd, Next, PluginCmd, ServiceCmd, ShortcutCmd};
use sociacli::friends::{FriendCmd, PermCmd};
use sociacli::protocol::{ActionKind, Friend};

fn lines(n: Next) -> Vec<String> {
    match n {
        Next::Done(o) => o.lines,
        _ => panic!("not done"),
    }
}

fn failure(n: Next) -> String {
    match n {
        Next::Fail(e) => e,
        _ => panic!("no failure"),
    }
}

#[test]
fn plain_commands_are_done_at_once() {
    let mut c = Config::fresh();
    let url = Some("https://s.example".to_string());
    assert_eq!(lines(dispatch(Cmd::Server { url }, &mut c, &vec![])), vec!["server: https://s.example"]);
    assert_eq!(
        lines(dispatch(Cmd::AutoUpdate { enabled: false }, &mut c, &vec![])),
        vec!["auto-update check disabled"]
    );
    assert!(!c.auto_update_check);
    c.token = Some("t".to_string());
    assert_eq!(lines(dispatch(Cmd::Logout, &mut c, &vec![])), vec!["logged out"]);
    assert_eq!(c.token, None);
    let state = Some("dnd".to_string());
    assert!(matches!(dispatch(Cmd::Presence { state }, &mut c, &vec![]), Next::Announce { .. }));
    assert_eq!(c.presence, "dnd");
    let op = SettingsCmd::Background { enabled: false };
    assert!(matches!(dispatch(Cmd::Settings { op }, &mut c, &vec![]), Next::Background { enabled: false }));
    let op = SettingsCmd::RadioBeeps { enabled: false };
    assert_eq!(lines(dispatch(Cmd::Settings { op }, &mut c, &vec![])), vec!["radio_beeps off"]);
}

#[test]
fn the_rest_is_handed_on() {
    let mut c = Config::fresh();
    let username = "bob".to_string();
    assert!(matches!(
        dispatch(Cmd::Register { username: username.clone() }, &mut c, &vec![]),
        Next::Authenticate { kind: AuthKind::Register, username } if username == "bob"
    ));
    assert!(matches!(
        dispatch(Cmd::Login { username }, &mut c, &vec![]),
        Next::Authenticate { kind: AuthKind::Login, .. }
    ));
    assert!(matches!(dispatch(Cmd::Whoami, &mut c, &vec![]), Next::Whoami));
    assert!(matches!(dispatch(Cmd::Listen, &mut c, &vec![]), Next::Listen));
    assert!(matches!(dispatch(Cmd::Version, &mut c, &vec![]), Next::Version));
    assert!(matches!(dispatch(Cmd::PttStop, &mut c, &vec![]), Next::Hush));
    assert!(matches!(dispatch(Cmd::Update { check: true }, &mut c, &vec![]), Next::Update { check: true }));
    assert!(matches!(
        dispatch(Cmd::Friend { op: FriendCmd::List }, &mut c, &vec![]),
        Next::Friend(FriendCmd::List)
    ));
    assert!(matches!(dispatch(Cmd::Perm { op: PermCmd::List }, &mut c, &vec![]), Next::Perm(PermCmd::List)));
    assert!(matches!(
        dispatch(Cmd::Mic { op: MicCmd::List }, &mut c, &vec![]),
        Next::Mic(MicCmd::List)
    ));
    assert!(matches!(
        dispatch(Cmd::Service { op: ServiceCmd::Status }, &mut c, &vec![]),
        Next::Service(ServiceCmd::Status)
    ));
    assert!(matches!(
        dispatch(Cmd::Daemon { op: DaemonCmd::Restart }, &mut c, &vec![]),
        Next::Daemon(DaemonCmd::Restart)
    ));
    let friend = || "zoe".to_string();
    assert!(matches!(
        dispatch(Cmd::Ptt { friend: friend(), continuous: true }, &mut c, &vec![]),
        Next::Talk { .. }
    ));
    assert!(matches!(
        dispatch(Cmd::Ptt { friend: friend(), continuous: false }, &mut c, &vec![]),
        Next::Arm { .. }
    ));
    let path = "/a.wav".to_string();
    assert!(matches!(dispatch(Cmd::NotifySound { path }, &mut c, &vec![]), Next::Sound { .. }));
}

#[test]
fn messages_and_invites_are_sent() {
    let mut c = Config::fresh();
    let cmd = Cmd::Msg {
        friend: "bob".to_string(),
        title: "T".to_string(),
        buttons: vec!["ok".to_string()],
        body: vec!["a".to_string(), "b".to_string()],
    };
    match dispatch(cmd, &mut c, &vec![]) {
        Next::Send { friend, action, title, body, data } => {
            assert_eq!(friend, "bob");
            assert_eq!(action, ActionKind::Message);
            assert_eq!(title, "T");
            assert_eq!(body, "a b");
            assert_eq!(data.to_text(), r#"{"buttons":[{"label":"ok","reply":"ok"}]}"#);
        }
        _ => panic!("not sent"),
    }
    let cmd = Cmd::Invite {
        friend: "bob".to_string(),
        url: "steam://1".to_string(),
        title: "Play".to_string(),
    };
    match dispatch(cmd, &mut c, &vec![]) {
        Next::Send { action, body, data, .. } => {
            assert_eq!(action, ActionKind::GameInvite);
            assert_eq!(body, "steam://1");
            assert_eq!(data.to_text(), r#"{"url":"steam://1"}"#);
        }
        _ => panic!("not sent"),
    }
}

#[test]
fn shortcuts_without_a_combo_are_recorded() {
    let mut c = Config::fresh();
    let bind = |action: &str, combo: Option<&str>| Cmd::Shortcut {
        op: ShortcutCmd::Bind { action: action.to_string(), combo: combo.map(str::to_string) },
    };
    assert!(matches!(
        dispatch(bind("open", None), &mut c, &vec![]),
        Next::Record { action } if action == "open"
    ));
    assert_eq!(
        failure(dispatch(bind("jump", None), &mut c, &vec![])),
        "unknown action `jump` — use one of: open, ptt"
    );
    assert!(failure(dispatch(bind("open", Some("+")), &mut c, &vec![])).starts_with("bad key combo `+`: "));
    assert_eq!(
        lines(dispatch(bind("open", Some("Alt+KeyO")), &mut c, &vec![])),
        vec!["bound open → Alt+KeyO (run `daemon restart` to apply)"]
    );
    let op = ShortcutCmd::Clear { action: "open".to_string() };
    assert_eq!(lines(dispatch(Cmd::Shortcut { op }, &mut c, &vec![])), vec!["cleared open"]);
}

#[test]
fn trust_is_given_listed_and_taken() {
    let mut c = Config::fresh();
    let plugin = |op| Cmd::Plugin { op };
    assert_eq!(lines(dispatch(plugin(PluginCmd::Trusted), &mut c, &vec![])), vec!["(no trust entries)"]);
    let op = PluginCmd::Trust { friend_id: "7".to_string(), plugin_id: "dice".to_string() };
    assert_eq!(
        lines(dispatch(plugin(op), &mut c, &vec![])),
        vec!["trusted: friend 7 may run plugin `dice` on this client"]
    );
    assert!(c.is_plugin_trusted("dice", "7"));
    assert_eq!(lines(dispatch(plugin(PluginCmd::Trusted), &mut c, &vec![])), vec!["dice\t7"]);
    let op = PluginCmd::Untrust { friend_id: "7".to_string(), plugin_id: "dice".to_string() };
    assert_eq!(
        lines(dispatch(plugin(op), &mut c, &vec![])),
        vec!["revoked: friend 7 for plugin `dice`"]
    );
    assert!(!c.is_plugin_trusted("dice", "7"));
    assert!(matches!(dispatch(plugin(PluginCmd::List), &mut c, &vec![]), Next::ListPlugins));
    let op = PluginCmd::Run { id: "dice".to_string(), args: "{}".to_string() };
    assert!(matches!(dispatch(plugin(op), &mut c, &vec![]), Next::RunPlugin { .. }));
}

#[test]
fn trust_by_name_is_trust_in_the_friend() {
    let mut c = Config::fresh();
    let alice = Friend {
        id: "1f3e".to_string(),
        username: "alice".to_string(),
        status: "accepted".to_string(),
        online: true,
        presence: None,
    };
    let friends = vec![alice];
    let plugin = |op| Cmd::Plugin { op };
    let trust = |who: &str| {
        plugin(PluginCmd::Trust { friend_id: who.to_string(), plugin_id: "dice".to_string() })
    };
    let untrust = |who: &str| {
        plugin(PluginCmd::Untrust { friend_id: who.to_string(), plugin_id: "dice".to_string() })
    };
    assert!(needs_friends(&trust("alice")) && needs_friends(&untrust("alice")));
    assert!(!needs_friends(&trust("67e55044-10b1-426f-9247-bb680e5fe0c8")));
    assert!(!needs_friends(&Cmd::Version));
    assert_eq!(
        lines(dispatch(trust("alice"), &mut c, &friends)),
        vec!["trusted: friend alice may run plugin `dice` on this client"]
    );
    assert!(c.is_plugin_trusted("dice", "1f3e"));
    assert!(!c.is_plugin_trusted("dice", "alice"));
    let _ = dispatch(untrust("1f3e"), &mut c, &friends);
    assert!(!c.is_plugin_trusted("dice", "1f3e"));
    let _ = dispatch(trust("1f3e"), &mut c, &friends);
    assert!(c.is_plugin_trusted("dice", "1f3e"));
    let _ = dispatch(untrust("alice"), &mut c, &friends);
    assert!(!c.is_plugin_trusted("dice", "1f3e"));
    assert_eq!(c.plugin_trust.len(), 0);
}
