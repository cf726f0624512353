//! The command line: every command of the program, and what it leaves to be
//! done.
use vstd::prelude::*;

use crate::api::AuthKind;
use crate::commands::{
    auto_update_cmd, check_action, dnd_cmd, invite_data, logout_cmd, message_body, message_data,
    presence_cmd, ptt_friend_cmd, server_cmd, settings_cmd, shortcut_clear, shortcut_list,
    shortcut_set, DaemonCmd, DndCmd, MicCmd, Outcome, SettingsCmd,
};
#[allow(unused_imports)]
use crate::commands::{
    combo_objection, dnd_lines, dnd_set, is_bindable, message_data_of, presence_request,
    presence_words, saved, settings_after, settings_outcome, shortcut_listing, wire_presence,
    OutcomeView,
};
use crate::config::Config;
#[allow(unused_imports)]
use crate::config::{opt_view, text_map, trust_given, trust_map};
use crate::friends::{is_id, FriendCmd, PermCmd};
#[allow(unused_imports)]
use crate::friends::is_uuid;
use crate::json::Json;
#[allow(unused_imports)]
use crate::json::JsonView;
use crate::plugin::{trust_cmd, trusted_cmd, untrust_cmd};
#[allow(unused_imports)]
use crate::plugin::{trust_key, trust_lines, trust_revoked};
use crate::protocol::{ActionKind, Friend};
#[allow(unused_imports)]
use crate::text::{joined, lowercase, views};

verus! {

/// A command about shortcuts.
pub enum ShortcutCmd {
    List,
    /// Bind a combination; without one it is recorded.
    Bind { action: String, combo: Option<String> },
    Clear { action: String },
}

/// A command about plugins.
pub enum PluginCmd {
    List,
    Install { path: String },
    Run { id: String, args: String },
    Send { friend: String, id: String, args: String },
    Trust { friend_id: String, plugin_id: String },
    Untrust { friend_id: String, plugin_id: String },
    Trusted,
}

/// A command about the autostart entry.
#[derive(Debug, Clone, Copy, PartialEq, Eq, Structural)]
pub enum ServiceCmd {
    Install,
    Uninstall,
    Status,
}

/// A command of the program.
pub enum Cmd {
    Server { url: Option<String> },
    Register { username: String },
    Login { username: String },
    Logout,
    Whoami,
    Friend { op: FriendCmd },
    Perm { op: PermCmd },
    Msg { friend: String, title: String, buttons: Vec<String>, body: Vec<String> },
    Invite { friend: String, url: String, title: String },
    Ptt { friend: String, continuous: bool },
    PttStop,
    PttFriend { friend: String },
    Mic { op: MicCmd },
    Presence { state: Option<String> },
    Dnd { op: DndCmd },
    NotifySound { path: String },
    Listen,
    Update { check: bool },
    AutoUpdate { enabled: bool },
    Plugin { op: PluginCmd },
    Shortcut { op: ShortcutCmd },
    Settings { op: SettingsCmd },
    Service { op: ServiceCmd },
    Daemon { op: DaemonCmd },
    Version,
}

/// What a command leaves to be done.
pub enum Next {
    /// Save the settings, if they have to be, and print.
    Done(Outcome),
    /// Fail with a message.
    Fail(String),
    /// Ask for a password and log in.
    Authenticate { kind: AuthKind, username: String },
    /// Say who one is.
    Whoami,
    /// See whether a sound file is there and set it.
    Sound { path: String },
    Friend(FriendCmd),
    Perm(PermCmd),
    /// Send a friend an action.
    Send { friend: String, action: ActionKind, title: String, body: String, data: Json },
    /// Talk to a friend now.
    Talk { friend: String },
    /// Arm the push-to-talk key for a friend.
    Arm { friend: String },
    /// Stop talking.
    Hush,
    /// See which microphones there are.
    Mic(MicCmd),
    /// Save the settings, tell a running daemon, and print.
    Announce { outcome: Outcome, request: Json },
    /// Be the daemon.
    Listen,
    /// Look for a newer release, and replace the program unless `check` is set.
    Update { check: bool },
    /// Record a key combination for an action.
    Record { action: String },
    ListPlugins,
    InstallPlugin { path: String },
    RunPlugin { id: String, args: String },
    SendPlugin { friend: String, id: String, args: String },
    /// Save the settings and switch the background daemon.
    Background { enabled: bool },
    Service(ServiceCmd),
    Daemon(DaemonCmd),
    Version,
}

/// Whether a command about shortcuts is done right.
pub open spec fn shortcut_done(before: Config, after: Config, op: ShortcutCmd, r: Next) -> bool {
    match op {
        ShortcutCmd::List => after == before && (r matches Next::Done(o) && o@ == (
        OutcomeView { save: false, lines: shortcut_listing(before.shortcuts.pairs()) })),
        ShortcutCmd::Bind { action, combo } => if !is_bindable(action@) {
            after == before && (r matches Next::Fail(e) && e@ == "unknown action `"@
                + action@ + "` — use one of: open, ptt"@)
        } else {
            match combo {
                None => after == before && (r matches Next::Record { action: a } && a@
                    == action@),
                Some(c) => match combo_objection(c@) {
                    Some(e) => after == before && (r matches Next::Fail(m) && m@
                        == "bad key combo `"@ + c@ + "`: "@ + e),
                    None => {
                        &&& after == (Config {
                            shortcuts: after.shortcuts,
                            ..before
                        })
                        &&& text_map(after.shortcuts) == text_map(
                            before.shortcuts,
                        ).insert(action@, c@)
                        &&& (r matches Next::Done(o) && o@ == saved(
                            "bound "@ + action@ + " → "@ + c@
                                + " (run `daemon restart` to apply)"@,
                        ))
                    },
                },
            }
        },
        ShortcutCmd::Clear { action } => {
            &&& after == (Config { shortcuts: after.shortcuts, ..before })
            &&& text_map(after.shortcuts) == text_map(before.shortcuts).remove(action@)
            &&& (r matches Next::Done(o) && o@ == saved("cleared "@ + action@))
        },
    }
}

/// What a command about shortcuts leaves to be done.
pub fn shortcut_cmd(cfg: &mut Config, op: ShortcutCmd) -> (r: Next)
    ensures
        shortcut_done(*old(cfg), *final(cfg), op, r),
{
    match op {
        ShortcutCmd::List => Next::Done(Outcome { save: false, lines: shortcut_list(cfg) }),
        ShortcutCmd::Bind { action, combo } => match combo {
            None => match check_action(action.as_str()) {
                Ok(_) => Next::Record { action },
                Err(e) => Next::Fail(e),
            },
            Some(c) => match shortcut_set(cfg, action.as_str(), c.as_str()) {
                Ok(o) => Next::Done(o),
                Err(e) => Next::Fail(e),
            },
        },
        ShortcutCmd::Clear { action } => Next::Done(shortcut_clear(cfg, action.as_str())),
    }
}

/// Whether a command about plugins is done right, as far as it can be with the
/// settings and the friend list.
pub open spec fn plugin_done(
    before: Config,
    after: Config,
    friends: Seq<Friend>,
    op: PluginCmd,
    r: Next,
) -> bool {
    match op {
        PluginCmd::List => after == before && r is ListPlugins,
        PluginCmd::Install { path } => after == before && r == (Next::InstallPlugin {
            path,
        }),
        PluginCmd::Run { id, args } => after == before && r == (Next::RunPlugin {
            id,
            args,
        }),
        PluginCmd::Send { friend, id, args } => after == before && r == (
        Next::SendPlugin { friend, id, args }),
        PluginCmd::Trust { friend_id, plugin_id } => {
            &&& after == (Config { plugin_trust: after.plugin_trust, ..before })
            &&& trust_map(after.plugin_trust) == trust_given(
                trust_map(before.plugin_trust),
                plugin_id@,
                trust_key(friends, friend_id@),
            )
            &&& (r matches Next::Done(o) && o@ == saved(
                "trusted: friend "@ + friend_id@ + " may run plugin `"@ + plugin_id@
                    + "` on this client"@,
            ))
        },
        PluginCmd::Untrust { friend_id, plugin_id } => {
            &&& after == (Config { plugin_trust: after.plugin_trust, ..before })
            &&& trust_map(after.plugin_trust) == trust_revoked(
                trust_map(before.plugin_trust),
                friends,
                friend_id@,
                plugin_id@,
            )
            &&& (r matches Next::Done(o) && o@ == saved(
                "revoked: friend "@ + friend_id@ + " for plugin `"@ + plugin_id@ + "`"@,
            ))
        },
        PluginCmd::Trusted => after == before && (r matches Next::Done(o) && o@ == (
        OutcomeView {
            save: false,
            lines: if before.plugin_trust.pairs().len() == 0 {
                seq!["(no trust entries)"@]
            } else {
                trust_lines(before.plugin_trust.pairs())
            },
        })),
    }
}

/// What a command about plugins leaves to be done. A friend who is trusted, or no
/// longer, may be named by username: `friends` says who that is.
pub fn plugin_cmd(cfg: &mut Config, friends: &Vec<Friend>, op: PluginCmd) -> (r: Next)
    ensures
        plugin_done(*old(cfg), *final(cfg), friends@, op, r),
{
    match op {
        PluginCmd::List => Next::ListPlugins,
        PluginCmd::Install { path } => Next::InstallPlugin { path },
        PluginCmd::Run { id, args } => Next::RunPlugin { id, args },
        PluginCmd::Send { friend, id, args } => Next::SendPlugin { friend, id, args },
        PluginCmd::Trust { friend_id, plugin_id } => Next::Done(
            trust_cmd(cfg, friends, friend_id.as_str(), plugin_id.as_str()),
        ),
        PluginCmd::Untrust { friend_id, plugin_id } => Next::Done(
            untrust_cmd(cfg, friends, friend_id.as_str(), plugin_id.as_str()),
        ),
        PluginCmd::Trusted => Next::Done(Outcome { save: false, lines: trusted_cmd(cfg) }),
    }
}

/// Whether a command that only changes settings, or prints them, is done.
pub open spec fn finished(r: Next, o: OutcomeView) -> bool {
    r matches Next::Done(x) && x@ == o
}

/// Whether a command that cannot be done says why.
pub open spec fn refused(r: Next, message: Seq<char>) -> bool {
    r matches Next::Fail(e) && e@ == message
}

/// Whether a `presence` command is done right.
pub open spec fn presence_done(
    before: Config,
    after: Config,
    state: Option<Seq<char>>,
    r: Next,
) -> bool {
    match state {
        None => after == before && finished(
            r,
            OutcomeView {
                save: false,
                lines: seq!["presence: "@ + presence_words(before.presence@)],
            },
        ),
        Some(w) => match wire_presence(w) {
            Some(p) => {
                &&& after == (Config { presence: after.presence, ..before })
                &&& after.presence@ == p
                &&& (r matches Next::Announce { outcome, request } && outcome@ == saved(
                    "presence → "@ + presence_words(p),
                ) && request@ == presence_request(p))
            },
            None => after == before && refused(
                r,
                "presence must be `online`, `dnd`, or `invisible` (got `"@ + lowercase(w)
                    + "`)."@,
            ),
        },
    }
}

/// Whether a `dnd` command is done right.
pub open spec fn dnd_done(before: Config, after: Config, op: DndCmd, r: Next) -> bool {
    match op {
        DndCmd::Show => after == before && finished(
            r,
            OutcomeView { save: false, lines: dnd_lines(before) },
        ),
        DndCmd::Block { kind } => switch_done(before, after, kind@, true, r),
        DndCmd::Allow { kind } => switch_done(before, after, kind@, false, r),
    }
}

/// Whether a switch of the filter is set right.
pub open spec fn switch_done(
    before: Config,
    after: Config,
    kind: Seq<char>,
    block: bool,
    r: Next,
) -> bool {
    match r {
        Next::Done(o) => dnd_set(before, after, kind, block, Ok(o)),
        Next::Fail(e) => dnd_set(before, after, kind, block, Err(e)),
        _ => false,
    }
}

/// Does a `presence` command.
fn do_presence(cfg: &mut Config, state: Option<String>) -> (r: Next)
    ensures
        presence_done(*old(cfg), *final(cfg), opt_view(state), r),
{
    let result = match &state {
        Some(s) => presence_cmd(cfg, Some(s.as_str())),
        None => presence_cmd(cfg, None),
    };
    match result {
        Ok((outcome, request)) => match request {
            Some(request) => Next::Announce { outcome, request },
            None => Next::Done(outcome),
        },
        Err(e) => Next::Fail(e),
    }
}

/// Does a `dnd` command.
fn do_dnd(cfg: &mut Config, op: DndCmd) -> (r: Next)
    ensures
        dnd_done(*old(cfg), *final(cfg), op, r),
{
    match dnd_cmd(cfg, &op) {
        Ok(o) => Next::Done(o),
        Err(e) => Next::Fail(e),
    }
}

/// Does a command about settings.
fn do_settings(cfg: &mut Config, op: SettingsCmd) -> (r: Next)
    ensures
        *final(cfg) == settings_after(*old(cfg), op),
        match op {
            SettingsCmd::Background { enabled } => r == (Next::Background { enabled }),
            _ => finished(r, settings_outcome(*old(cfg), op)),
        },
{
    let o = settings_cmd(cfg, &op);
    match op {
        SettingsCmd::Background { enabled } => Next::Background { enabled },
        _ => Next::Done(o),
    }
}

/// Whether a command names a friend whose id has to be known: trust goes by ids.
pub open spec fn names_a_friend(cmd: Cmd) -> bool {
    match cmd {
        Cmd::Plugin { op: PluginCmd::Trust { friend_id, .. } } => !is_uuid(friend_id@),
        Cmd::Plugin { op: PluginCmd::Untrust { friend_id, .. } } => !is_uuid(friend_id@),
        _ => false,
    }
}

/// Says whether a command needs the friend list.
pub fn needs_friends(cmd: &Cmd) -> (r: bool)
    ensures
        r == names_a_friend(*cmd),
{
    match cmd {
        Cmd::Plugin { op } => match op {
            PluginCmd::Trust { friend_id, .. } => !is_id(friend_id.as_str()),
            PluginCmd::Untrust { friend_id, .. } => !is_id(friend_id.as_str()),
            _ => false,
        },
        _ => false,
    }
}

/// Whether a command is done right to the settings.
pub open spec fn settings_done(
    cmd: Cmd,
    before: Config,
    after: Config,
    friends: Seq<Friend>,
    r: Next,
) -> bool {
    match cmd {
        Cmd::Server { url } => {
            &&& after == (match url {
                Some(u) => Config { server_url: u, ..before },
                None => before,
            })
            &&& finished(
                r,
                OutcomeView {
                    save: url is Some,
                    lines: seq!["server: "@ + after.server_url@],
                },
            )
        },
        Cmd::Logout => {
            &&& after == (Config {
                user_id: None,
                username: None,
                token: None,
                ..before
            })
            &&& finished(r, saved("logged out"@))
        },
        Cmd::PttFriend { friend } => {
            &&& after == (Config {
                default_ptt_friend: after.default_ptt_friend,
                ..before
            })
            &&& opt_view(after.default_ptt_friend) == (if friend@ == "none"@ {
                None
            } else {
                Some(friend@)
            })
            &&& finished(
                r,
                saved(
                    "default PTT friend: "@ + (if friend@ == "none"@ {
                        "(none)"@
                    } else {
                        friend@
                    }),
                ),
            )
        },
        Cmd::AutoUpdate { enabled } => {
            &&& after == (Config { auto_update_check: enabled, ..before })
            &&& finished(
                r,
                saved(
                    "auto-update check "@ + (if enabled {
                        "enabled"@
                    } else {
                        "disabled"@
                    }),
                ),
            )
        },
        Cmd::Presence { state } => presence_done(before, after, opt_view(state), r),
        Cmd::Dnd { op } => dnd_done(before, after, op, r),
        Cmd::Settings { op } => {
            &&& after == settings_after(before, op)
            &&& match op {
                SettingsCmd::Background { enabled } => r == (Next::Background { enabled }),
                _ => finished(r, settings_outcome(before, op)),
            }
        },
        Cmd::Shortcut { op } => shortcut_done(before, after, op, r),
        Cmd::Plugin { op } => plugin_done(before, after, friends, op, r),
        _ => after == before,
    }
}

/// Whether what a command leaves to be done is the right thing.
pub open spec fn handed_on(cmd: Cmd, r: Next) -> bool {
    match cmd {
        Cmd::Register { username } => r == (Next::Authenticate {
            kind: AuthKind::Register,
            username,
        }),
        Cmd::Login { username } => r == (Next::Authenticate {
            kind: AuthKind::Login,
            username,
        }),
        Cmd::Whoami => r is Whoami,
        Cmd::NotifySound { path } => r == (Next::Sound { path }),
        Cmd::Friend { op } => r == Next::Friend(op),
        Cmd::Perm { op } => r == Next::Perm(op),
        Cmd::Msg { friend, title, buttons, body } => r matches Next::Send {
            friend: f,
            action,
            title: t,
            body: b,
            data,
        } && f == friend && action == ActionKind::Message && t == title && b@ == joined(
            views(body@),
            " "@,
        ) && data@ == message_data_of(views(buttons@)),
        Cmd::Invite { friend, url, title } => r matches Next::Send {
            friend: f,
            action,
            title: t,
            body: b,
            data,
        } && f == friend && action == ActionKind::GameInvite && t == title && b@ == url@
            && data@ == JsonView::Obj(map!["url"@ => JsonView::Str(url@)]),
        Cmd::Ptt { friend, continuous } => if continuous {
            r == (Next::Talk { friend })
        } else {
            r == (Next::Arm { friend })
        },
        Cmd::PttStop => r is Hush,
        Cmd::Mic { op } => r == Next::Mic(op),
        Cmd::Listen => r is Listen,
        Cmd::Update { check } => r == (Next::Update { check }),
        Cmd::Service { op } => r == Next::Service(op),
        Cmd::Daemon { op } => r == Next::Daemon(op),
        Cmd::Version => r is Version,
        _ => true,
    }
}

/// Does a command, as far as it can be done with the settings and, where it needs
/// it, the friend list.
pub fn dispatch(cmd: Cmd, cfg: &mut Config, friends: &Vec<Friend>) -> (r: Next)
    ensures
        settings_done(cmd, *old(cfg), *final(cfg), friends@, r),
        handed_on(cmd, r),
{
    match cmd {
        Cmd::Server { url } => {
            return Next::Done(server_cmd(cfg, url));
        },
        Cmd::Logout => {
            return Next::Done(logout_cmd(cfg));
        },
        Cmd::PttFriend { friend } => {
            return Next::Done(ptt_friend_cmd(cfg, friend.as_str()));
        },
        Cmd::AutoUpdate { enabled } => {
            return Next::Done(auto_update_cmd(cfg, enabled));
        },
        Cmd::Presence { state } => {
            return do_presence(cfg, state);
        },
        Cmd::Dnd { op } => {
            return do_dnd(cfg, op);
        },
        Cmd::Settings { op } => {
            return do_settings(cfg, op);
        },
        Cmd::Shortcut { op } => {
            return shortcut_cmd(cfg, op);
        },
        Cmd::Plugin { op } => {
            return plugin_cmd(cfg, friends, op);
        },
        Cmd::Register { username } => Next::Authenticate { kind: AuthKind::Register, username },
        Cmd::Login { username } => Next::Authenticate { kind: AuthKind::Login, username },
        Cmd::Whoami => Next::Whoami,
        Cmd::NotifySound { path } => Next::Sound { path },
        Cmd::Friend { op } => Next::Friend(op),
        Cmd::Perm { op } => Next::Perm(op),
        Cmd::Msg { friend, title, buttons, body } => Next::Send {
            friend,
            action: ActionKind::Message,
            title,
            body: message_body(&body),
            data: message_data(&buttons),
        },
        Cmd::Invite { friend, url, title } => {
            let data = invite_data(url.as_str());
            Next::Send { friend, action: ActionKind::GameInvite, title, body: url, data }
        },
        Cmd::Ptt { friend, continuous } => if continuous {
            Next::Talk { friend }
        } else {
            Next::Arm { friend }
        },
        Cmd::PttStop => Next::Hush,
        Cmd::Mic { op } => Next::Mic(op),
        Cmd::Listen => Next::Listen,
        Cmd::Update { check } => Next::Update { check },
        Cmd::Service { op } => Next::Service(op),
        Cmd::Daemon { op } => Next::Daemon(op),
        Cmd::Version => Next::Version,
    }
}

} // verus!
