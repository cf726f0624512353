//! The commands that change the settings or show them.
use vstd::prelude::*;

#[allow(unused_imports)]
use crate::address::{countable, is_socket_of};
#[allow(unused_imports)]
use crate::api::{auth_address, auth_path, auth_tree, AuthKind, AuthResp};
#[allow(unused_imports)]
use crate::commands::{
    action_checked, armed_lines, autostart_noted, background_noted, block_word, bool_word, button, buttons_of,
    combo_of, combo_or, combo_recorded, daemon_steps, daemon_words, dnd_after, dnd_kind_of, dnd_lines, held, is_bindable, key_name, keyword_read, message_data_of,
    mic_done, mic_line, mic_lines, on_off, presence_of, presence_request, presence_set, presence_words, saved,
    saved_for_restart, settings_after, settings_lines, settings_outcome, sign_in_words, sound_set,
    status_lines, stop_words, switch_read,
    talk_friend_set, true_false, wait_of, whoami_lines, wire_presence, with_account, with_all_dnd, with_dnd,
    DaemonCmd, DaemonStep, DndCmd, DndKind, Key, MicCmd, Modifiers, Outcome, OutcomeView, Recorded,
    SettingsCmd, SignIn,
};
#[allow(unused_imports)]
use crate::config::{opt_view, plugins_place, text_map, trust_map, trusts, Config};
#[allow(unused_imports)]
use crate::daemon::{action_effects, dropped, signal_effects, starts_as, DaemonState};
#[allow(unused_imports)]
use crate::dispatch::{
    dnd_done, handed_on, names_a_friend, plugin_done, presence_done, settings_done, shortcut_done, Cmd, Next,
    PluginCmd, ShortcutCmd,
};
#[allow(unused_imports)]
use crate::friends::{is_uuid, resolved};
#[allow(unused_imports)]
use crate::ipc::{command_step, StepView};
#[allow(unused_imports)]
use crate::json::{empty_obj, Json, JsonView};
#[allow(unused_imports)]
use crate::protocol::{ActionKind, Friend};
#[allow(unused_imports)]
use crate::text::{
    ascii_lower, ascii_lowercase, cut_once, decimal, first_index, joined, lowercase, trimmed, views,
};
#[allow(unused_imports)]
use crate::words::{commands_differ, keys_differ, kinds_differ, states_differ};

verus! {

// ---- settings ----

/// A command for a switch sets that switch to the value given, on or off, and
/// leaves every other setting as it was.
pub proof fn switches_are_set_as_told(cfg: Config, enabled: bool, ms: u32)
    ensures
        settings_after(cfg, SettingsCmd::RadioEffect { enabled }) == (Config {
            radio_effect: enabled,
            ..cfg
        }),
        settings_after(cfg, SettingsCmd::RadioBeeps { enabled }) == (Config {
            radio_beeps: enabled,
            ..cfg
        }),
        settings_after(cfg, SettingsCmd::Background { enabled }) == (Config {
            background_enabled: enabled,
            ..cfg
        }),
        settings_after(cfg, SettingsCmd::NotifyAutoDismiss { enabled }) == (Config {
            notify_auto_dismiss: enabled,
            ..cfg
        }),
        settings_after(cfg, SettingsCmd::NotifyAutoDismissMs { ms }) == (Config {
            notify_auto_dismiss_ms: ms,
            ..cfg
        }),
        settings_after(cfg, SettingsCmd::NotifyShowList { enabled }) == (Config {
            notify_show_list: enabled,
            ..cfg
        }),
        settings_after(cfg, SettingsCmd::NotifyFriendPresence { enabled }) == (Config {
            notify_friend_presence: enabled,
            ..cfg
        }),
        settings_after(cfg, SettingsCmd::NotifyFriendRequests { enabled }) == (Config {
            notify_friend_requests: enabled,
            ..cfg
        }),
        settings_after(cfg, SettingsCmd::Show) == cfg,
{
}

/// A truth value as it is shown.
pub open spec fn truth(b: bool) -> Seq<char> {
    if b {
        "true"@
    } else {
        "false"@
    }
}

/// Every setting is shown as it is, each behind its own name.
pub proof fn what_is_set_is_shown(cfg: Config)
    ensures
        settings_lines(cfg).len() == 10,
        settings_lines(cfg)[0] == "radio_effect:           "@ + truth(cfg.radio_effect),
        settings_lines(cfg)[1] == "radio_beeps:            "@ + truth(cfg.radio_beeps),
        settings_lines(cfg)[2] == "auto_update:            "@ + truth(cfg.auto_update_check),
        settings_lines(cfg)[3] == "background_enabled:     "@ + truth(cfg.background_enabled),
        settings_lines(cfg)[4] == "autostart_installed:    "@ + truth(cfg.autostart_installed),
        settings_lines(cfg)[5] == "notify_auto_dismiss:    "@ + truth(cfg.notify_auto_dismiss),
        settings_lines(cfg)[6] == "notify_auto_dismiss_ms: "@ + decimal(
            cfg.notify_auto_dismiss_ms as nat,
        ),
        settings_lines(cfg)[7] == "notify_show_list:       "@ + truth(cfg.notify_show_list),
        settings_lines(cfg)[8] == "notify_friend_presence: "@ + truth(cfg.notify_friend_presence),
        settings_lines(cfg)[9] == "notify_friend_requests: "@ + truth(cfg.notify_friend_requests),
{
}

/// A switch as a command says it.
pub open spec fn switch(b: bool) -> Seq<char> {
    if b {
        "on"@
    } else {
        "off"@
    }
}

/// Every change of a setting is saved and said, with the value given; showing the
/// settings saves nothing.
pub proof fn changes_are_saved_and_said(cfg: Config, enabled: bool, ms: u32)
    ensures
        !settings_outcome(cfg, SettingsCmd::Show).save,
        settings_outcome(cfg, SettingsCmd::Show).lines == settings_lines(cfg),
        settings_outcome(cfg, SettingsCmd::RadioEffect { enabled }).save,
        settings_outcome(cfg, SettingsCmd::RadioEffect { enabled }).lines[0] == "radio_effect "@
            + switch(enabled),
        settings_outcome(cfg, SettingsCmd::RadioBeeps { enabled }).save,
        settings_outcome(cfg, SettingsCmd::RadioBeeps { enabled }).lines[0] == "radio_beeps "@
            + switch(enabled),
        settings_outcome(cfg, SettingsCmd::Background { enabled }).save,
        settings_outcome(cfg, SettingsCmd::NotifyAutoDismiss { enabled }).save,
        settings_outcome(cfg, SettingsCmd::NotifyAutoDismiss { enabled }).lines[0]
            == "notify_auto_dismiss "@ + switch(enabled),
        settings_outcome(cfg, SettingsCmd::NotifyAutoDismissMs { ms }).save,
        settings_outcome(cfg, SettingsCmd::NotifyAutoDismissMs { ms }).lines[0]
            == "notify_auto_dismiss_ms = "@ + decimal(ms as nat),
        settings_outcome(cfg, SettingsCmd::NotifyShowList { enabled }).save,
        settings_outcome(cfg, SettingsCmd::NotifyShowList { enabled }).lines[0]
            == "notify_show_list "@ + switch(enabled),
        settings_outcome(cfg, SettingsCmd::NotifyFriendPresence { enabled }).save,
        settings_outcome(cfg, SettingsCmd::NotifyFriendPresence { enabled }).lines[0]
            == "notify_friend_presence "@ + switch(enabled),
        settings_outcome(cfg, SettingsCmd::NotifyFriendRequests { enabled }).save,
        settings_outcome(cfg, SettingsCmd::NotifyFriendRequests { enabled }).lines[0]
            == "notify_friend_requests "@ + switch(enabled),
        settings_outcome(cfg, SettingsCmd::NotifyAutoDismiss { enabled }).lines.len() == 2,
        settings_outcome(cfg, SettingsCmd::NotifyAutoDismiss { enabled }).lines[1]
            == "(run `daemon restart` to apply)"@,
{
}

/// A word that a switch is said with is read as that switch, whatever the case of
/// its letters; so are the words that permissions are listed with. No word stands
/// for both.
pub proof fn switches_are_read_as_said(b: bool, s: Seq<char>)
    ensures
        ascii_lowercase(s) == switch(b) ==> bool_word(s) == Some(b),
        ascii_lowercase(s) == truth(b) ==> bool_word(s) == Some(b),
        ascii_lowercase(s) == (if b {
            "yes"@
        } else {
            "no"@
        }) ==> bool_word(s) == Some(b),
        ascii_lowercase(s) == (if b {
            "1"@
        } else {
            "0"@
        }) ==> bool_word(s) == Some(b),
        ascii_lowercase(s) == (if b {
            "allow"@
        } else {
            "block"@
        }) ==> bool_word(s) == Some(b),
        ascii_lowercase(s) == "deny"@ ==> bool_word(s) == Some(false),
        forall|other: Seq<char>| #[trigger]
            ascii_lowercase(other) == ascii_lowercase(s) ==> bool_word(other) == bool_word(s),
        s.len() == 0 || s.len() > 5 ==> bool_word(s) is None,
{
    reveal_strlit("on");
    reveal_strlit("off");
    reveal_strlit("true");
    reveal_strlit("false");
    reveal_strlit("yes");
    reveal_strlit("no");
    reveal_strlit("1");
    reveal_strlit("0");
    reveal_strlit("allow");
    reveal_strlit("block");
    reveal_strlit("deny");
    assert("on"@.len() == 2 && "on"@[0] == 'o');
    assert("no"@.len() == 2 && "no"@[0] == 'n');
    assert("off"@.len() == 3 && "off"@[0] == 'o');
    assert("yes"@.len() == 3 && "yes"@[0] == 'y');
    assert("true"@.len() == 4 && "true"@[0] == 't');
    assert("deny"@.len() == 4 && "deny"@[0] == 'd');
    assert("false"@.len() == 5 && "false"@[0] == 'f');
    assert("allow"@.len() == 5 && "allow"@[0] == 'a');
    assert("block"@.len() == 5 && "block"@[0] == 'b');
    assert("1"@.len() == 1 && "1"@[0] == '1');
    assert("0"@.len() == 1 && "0"@[0] == '0');
    assert(ascii_lowercase(s).len() == s.len());
}

// ---- presence ----

/// The presences that go over the wire.
pub open spec fn is_wire(p: Seq<char>) -> bool {
    p == "online"@ || p == "dnd"@ || p == "offline"@
}

/// Setting the presence to a word of the wire, whatever its case, sets that very
/// word; every word for Do Not Disturb sets that, and every word for being
/// invisible shows one as offline. What is set is always a word of the wire.
pub proof fn presences_are_set_as_told(w: Seq<char>)
    ensures
        is_wire(lowercase(w)) ==> wire_presence(w) == Some(lowercase(w)),
        lowercase(w) == "do-not-disturb"@ || lowercase(w) == "donotdisturb"@ || lowercase(w)
            == "do_not_disturb"@ ==> wire_presence(w) == Some("dnd"@),
        lowercase(w) == "invisible"@ || lowercase(w) == "appear-offline"@ ==> wire_presence(w)
            == Some("offline"@),
        wire_presence(w) matches Some(p) ==> is_wire(p),
        wire_presence(w) == Some("online"@) ==> lowercase(w) == "online"@,
        is_wire(w) ==> presence_of(w) == Some(w),
        w == "do-not-disturb"@ || w == "donotdisturb"@ || w == "do_not_disturb"@ ==> presence_of(w)
            == Some("dnd"@),
        w == "invisible"@ || w == "appear-offline"@ ==> presence_of(w) == Some("offline"@),
        presence_of(w) matches Some(p) ==> is_wire(p),
{
    states_differ();
}

/// A `presence` command sets what was told, saves it, and tells a running daemon
/// that very presence, which the daemon takes for a command to publish it. Nothing
/// else changes.
pub proof fn presence_commands_reach_the_daemon(
    before: Config,
    after: Config,
    w: Seq<char>,
    r: Next,
    s: DaemonState,
)
    requires
        presence_done(before, after, Some(w), r),
        is_wire(lowercase(w)),
    ensures
        after.presence@ == lowercase(w),
        after == (Config { presence: after.presence, ..before }),
        r is Announce,
        r->outcome@.save,
        r->request@.text_member("cmd"@) == Some("set-presence"@),
        r->request@.text_member("state"@) == Some(lowercase(w)),
        command_step(s, r->request@) is Publish,
        command_step(s, r->request@)->Publish_frame.text_member("state"@) == Some(lowercase(w)),
{
    presences_are_set_as_told(w);
    keys_differ();
    commands_differ();
}

/// The same of the command alone: what it sets is what was told, what it saves and
/// what it asks of a daemon is that very presence, and a word that is none is
/// refused and changes nothing.
pub proof fn presence_words_are_taken_or_refused(
    before: Config,
    after: Config,
    w: Seq<char>,
    r: Result<(Outcome, Option<Json>), String>,
)
    requires
        presence_set(before, after, Some(w), r),
    ensures
        is_wire(lowercase(w)) ==> after.presence@ == lowercase(w),
        lowercase(w) == "do-not-disturb"@ || lowercase(w) == "donotdisturb"@ || lowercase(w)
            == "do_not_disturb"@ ==> after.presence@ == "dnd"@ && r is Ok,
        lowercase(w) == "invisible"@ || lowercase(w) == "appear-offline"@ ==> after.presence@
            == "offline"@ && r is Ok,
        r is Ok ==> r->Ok_0.0@.save && r->Ok_0.1 is Some && r->Ok_0.1->0@.text_member("state"@)
            == Some(after.presence@) && r->Ok_0.1->0@.text_member("cmd"@) == Some("set-presence"@),
        is_wire(lowercase(w)) ==> r is Ok,
        r is Err ==> after == before,
        after == (Config { presence: after.presence, ..before }),
        !is_wire(lowercase(w)) && lowercase(w) != "do-not-disturb"@ && lowercase(w)
            != "donotdisturb"@ && lowercase(w) != "do_not_disturb"@ && lowercase(w)
            != "invisible"@ && lowercase(w) != "appear-offline"@ ==> r is Err,
{
    presences_are_set_as_told(w);
    keys_differ();
    states_differ();
}

/// Whatever word was told, the program sets it and announces it as the command
/// does; one that is none is refused and changes nothing.
pub proof fn presences_are_announced_as_set(
    before: Config,
    after: Config,
    w: Seq<char>,
    r: Next,
)
    requires
        presence_done(before, after, Some(w), r),
    ensures
        lowercase(w) == "do-not-disturb"@ || lowercase(w) == "donotdisturb"@ || lowercase(w)
            == "do_not_disturb"@ ==> r is Announce && after.presence@ == "dnd"@,
        lowercase(w) == "invisible"@ || lowercase(w) == "appear-offline"@ ==> r is Announce
            && after.presence@ == "offline"@,
        r is Announce ==> r->request@.text_member("state"@) == Some(after.presence@),
        r is Announce || (r is Fail && after == before),
        after == (Config { presence: after.presence, ..before }),
{
    presences_are_set_as_told(w);
    keys_differ();
    states_differ();
}

/// The words for a presence tell the three apart, and only being invisible is
/// called that.
pub proof fn presences_have_their_words(before: Config, after: Config, r: Next)
    requires
        presence_done(before, after, None, r),
    ensures
        after == before,
        r is Done,
        !r->Done_0@.save,
        before.presence@ == "dnd"@ ==> r->Done_0@.lines == seq!["presence: "@ + "do not disturb"@],
        before.presence@ == "offline"@ ==> r->Done_0@.lines == seq![
            "presence: "@ + "invisible (friends see you as offline)"@,
        ],
        before.presence@ == "online"@ ==> r->Done_0@.lines == seq!["presence: "@ + "online"@],
{
    states_differ();
}

// ---- Do Not Disturb ----

/// Each word for a kind sets the switch of that kind, and nothing else; the word
/// for all sets every one.
pub proof fn dnd_words_set_their_switch(cfg: Config, block: bool)
    ensures
        dnd_after(cfg, "message"@, block) == Some(Config { dnd_block_message: block, ..cfg }),
        dnd_after(cfg, "msg"@, block) == Some(Config { dnd_block_message: block, ..cfg }),
        dnd_after(cfg, "game-invite"@, block) == Some(
            Config { dnd_block_game_invite: block, ..cfg },
        ),
        dnd_after(cfg, "game_invite"@, block) == Some(
            Config { dnd_block_game_invite: block, ..cfg },
        ),
        dnd_after(cfg, "invite"@, block) == Some(Config { dnd_block_game_invite: block, ..cfg }),
        dnd_after(cfg, "ptt"@, block) == Some(Config { dnd_block_ptt: block, ..cfg }),
        dnd_after(cfg, "plugin"@, block) == Some(Config { dnd_block_plugin: block, ..cfg }),
        dnd_after(cfg, "custom"@, block) == Some(Config { dnd_block_custom: block, ..cfg }),
        dnd_after(cfg, "all"@, block) == Some(
            Config {
                dnd_block_message: block,
                dnd_block_game_invite: block,
                dnd_block_ptt: block,
                dnd_block_plugin: block,
                dnd_block_custom: block,
                ..cfg
            },
        ),
{
    reveal_strlit("message");
    reveal_strlit("msg");
    reveal_strlit("game-invite");
    reveal_strlit("game_invite");
    reveal_strlit("invite");
    reveal_strlit("ptt");
    reveal_strlit("plugin");
    reveal_strlit("custom");
    reveal_strlit("all");
    assert("message"@.len() == 7);
    assert("msg"@.len() == 3 && "msg"@[0] == 'm');
    assert("game-invite"@.len() == 11 && "game-invite"@[4] == '-');
    assert("game_invite"@.len() == 11 && "game_invite"@[4] == '_');
    assert("invite"@.len() == 6 && "invite"@[0] == 'i');
    assert("ptt"@.len() == 3 && "ptt"@[0] == 'p');
    assert("plugin"@.len() == 6 && "plugin"@[0] == 'p');
    assert("custom"@.len() == 6 && "custom"@[0] == 'c');
    assert("all"@.len() == 3 && "all"@[0] == 'a');
}

/// From the command to the card: after a kind was blocked or allowed, a daemon
/// that starts in Do Not Disturb drops actions of that kind or lets them through.
pub proof fn dnd_commands_decide_what_gets_through(
    cfg: Config,
    after: Config,
    block: bool,
    kind: Seq<char>,
    s: DaemonState,
    from: Seq<char>,
    title: Seq<char>,
    body: Seq<char>,
    data: JsonView,
)
    requires
        kind == "message"@ || kind == "game_invite"@ || kind == "ptt"@ || kind == "plugin"@ || kind
            == "custom"@,
        dnd_after(cfg, kind, block) == Some(after) || dnd_after(cfg, "all"@, block) == Some(after),
        starts_as(after, s),
        after.presence@ == "dnd"@,
    ensures
        action_effects(s, from, kind, title, body, data).len() == 0 <==> block,
        kind == "ptt"@ ==> (signal_effects(s, from, data).len() == 0 <==> block),
{
    dnd_words_set_their_switch(cfg, block);
    kinds_differ();
    states_differ();
    reveal_strlit("all");
}

/// What `dnd` commands say: blocked is on, allowed is off, with the word given,
/// and both are saved. An unknown word is refused with it and changes nothing.
pub proof fn dnd_commands_say_what_they_did(
    before: Config,
    after: Config,
    kind: String,
    r: Next,
)
    ensures
        dnd_done(before, after, DndCmd::Block { kind }, r) && r is Done ==> r->Done_0@.save
            && r->Done_0@.lines[0] == "DND block `"@ + kind@ + "` → on"@ && dnd_after(
            before,
            kind@,
            true,
        ) == Some(after),
        dnd_done(before, after, DndCmd::Allow { kind }, r) && r is Done ==> r->Done_0@.save
            && r->Done_0@.lines[0] == "DND block `"@ + kind@
            + "` → off (still receivable while in DND)"@ && dnd_after(before, kind@, false)
            == Some(after),
        (dnd_done(before, after, DndCmd::Block { kind }, r) || dnd_done(
            before,
            after,
            DndCmd::Allow { kind },
            r,
        )) && r is Fail ==> after == before && r->Fail_0@ == "unknown kind `"@ + kind@
            + "` — use one of: message, game-invite, ptt, plugin, custom, all"@,
        dnd_done(before, after, DndCmd::Show, r) ==> after == before && r is Done
            && !r->Done_0@.save && r->Done_0@.lines == dnd_lines(before),
{
}

/// How a switch of the filter is shown.
pub open spec fn blocked(b: bool) -> Seq<char> {
    if b {
        "BLOCKED"@
    } else {
        "allowed"@
    }
}

/// Each switch of the filter is shown behind its kind.
pub proof fn filters_are_shown(cfg: Config)
    ensures
        dnd_lines(cfg).len() == 6,
        dnd_lines(cfg)[1] == "  message:     "@ + blocked(cfg.dnd_block_message),
        dnd_lines(cfg)[2] == "  game_invite: "@ + blocked(cfg.dnd_block_game_invite),
        dnd_lines(cfg)[3] == "  ptt:         "@ + blocked(cfg.dnd_block_ptt),
        dnd_lines(cfg)[4] == "  plugin:      "@ + blocked(cfg.dnd_block_plugin),
        dnd_lines(cfg)[5] == "  custom:      "@ + blocked(cfg.dnd_block_custom),
{
}

// ---- microphones ----

/// The microphone that is picked is the one with that number in the list, and a
/// number that no microphone has is refused and changes nothing. The default is to
/// have none picked.
pub proof fn microphones_are_picked_by_number(
    before: Config,
    after: Config,
    id: usize,
    devices: Vec<String>,
    r: Result<Outcome, String>,
)
    ensures
        mic_done(before, after, MicCmd::Pick { id }, Ok(devices), r) && id < devices@.len() ==> r is Ok
            && r->Ok_0@.save && after == (Config {
            ptt_input_device: Some(devices@[id as int]),
            ..before
        }) && r->Ok_0@.lines[0] == "PTT mic ["@ + decimal(id as nat) + "] → "@
            + devices@[id as int]@,
        mic_done(before, after, MicCmd::Pick { id }, Ok(devices), r) && id >= devices@.len()
            ==> r is Err && after == before,
        mic_done(before, after, MicCmd::Default, Ok(devices), r) ==> r is Ok && r->Ok_0@.save
            && after == (Config { ptt_input_device: None, ..before }),
        mic_done(before, after, MicCmd::List, Ok(devices), r) ==> r is Ok && !r->Ok_0@.save
            && after == before,
{
}

/// The list numbers the microphones from zero, by name, and marks the active one
/// and no other.
pub proof fn microphones_are_listed(active: Option<Seq<char>>, names: Seq<Seq<char>>, i: int)
    requires
        0 <= i < names.len(),
    ensures
        mic_lines(active, Ok(names)).len() == names.len() + 3,
        mic_lines(active, Ok(names))[i + 2] == (if active == Some(names[i]) {
            "  * ["@
        } else {
            "    ["@
        }) + decimal(i as nat) + "] "@ + names[i],
        active matches Some(a) ==> mic_lines(active, Ok(names))[0] == "active: "@ + a,
        active is None ==> mic_lines(active, Ok(names))[0] == "active: "@ + "(default)"@,
{
    reveal_strlit("  ");
    reveal_strlit("*");
    reveal_strlit(" ");
    reveal_strlit(" [");
    reveal_strlit("  * [");
    reveal_strlit("    [");
    assert("  "@ + "*"@ + " ["@ =~= "  * ["@);
    assert("  "@ + " "@ + " ["@ =~= "    ["@);
    let line = mic_line(i, names[i], active);
    assert(mic_lines(active, Ok(names))[i + 2] == line);
}

// ---- keys ----

/// A letter is bound under its capital, whichever case it was typed in, a digit
/// and a function key under their numbers.
pub proof fn keys_have_their_names(c: char, n: u8)
    ensures
        'A' <= c <= 'Z' ==> key_name(Key::Char(c)) == Some("Key"@.push(c)),
        'A' <= c <= 'Z' ==> key_name(Key::Char(ascii_lower(c))) == Some("Key"@.push(c)),
        '0' <= c <= '9' ==> key_name(Key::Char(c)) == Some("Digit"@.push(c)),
        1 <= n <= 24 ==> key_name(Key::F(n)) == Some("F"@ + decimal(n as nat)),
        n == 0 || n > 24 ==> key_name(Key::F(n)) is None,
        key_name(Key::Char(' ')) == Some("Space"@),
        key_name(Key::Up) == Some("ArrowUp"@),
        key_name(Key::Down) == Some("ArrowDown"@),
        key_name(Key::Left) == Some("ArrowLeft"@),
        key_name(Key::Right) == Some("ArrowRight"@),
        key_name(Key::Tab) == Some("Tab"@),
        key_name(Key::Enter) == Some("Enter"@),
        key_name(Key::Backspace) == Some("Backspace"@),
        key_name(Key::Esc) is None,
{
}

/// A modifier stands in a combination exactly where it is held, before the key and
/// in one order.
pub proof fn modifiers_stand_where_they_are_held(m: Modifiers, name: Seq<char>)
    ensures
        m.super_key ==> combo_of(m, name) == combo_of(
            Modifiers { super_key: false, ..m },
            "Super+"@ + name,
        ),
        m.shift ==> combo_of(m, name) == combo_of(
            Modifiers { shift: false, super_key: false, ..m },
            "Shift+"@ + combo_of(
                Modifiers { ctrl: false, alt: false, shift: false, super_key: m.super_key },
                name,
            ),
        ),
        m.ctrl && !m.alt && !m.shift && !m.super_key ==> combo_of(m, name) == "Ctrl+"@ + name,
        !m.ctrl && m.alt && !m.shift && !m.super_key ==> combo_of(m, name) == "Alt+"@ + name,
        !m.ctrl && !m.alt && !m.shift && !m.super_key ==> combo_of(m, name) == name,
        m.ctrl && m.alt && m.shift && !m.super_key ==> combo_of(m, name) == "Ctrl+Alt+Shift+"@
            + name,
{
    reveal_strlit("+");
    reveal_strlit("Ctrl");
    reveal_strlit("Alt");
    reveal_strlit("Shift");
    reveal_strlit("Super");
    reveal_strlit("Ctrl+");
    reveal_strlit("Alt+");
    reveal_strlit("Shift+");
    reveal_strlit("Super+");
    reveal_strlit("Ctrl+Alt+Shift+");
    assert("Super"@ + "+"@ =~= "Super+"@);
    assert("Shift"@ + "+"@ =~= "Shift+"@);
    assert("Ctrl"@ + "+"@ =~= "Ctrl+"@);
    assert("Alt"@ + "+"@ =~= "Alt+"@);
    if m.super_key {
        assert(combo_of(m, name) =~= combo_of(
            Modifiers { super_key: false, ..m },
            "Super+"@ + name,
        ));
    }
    if m.shift {
        assert(combo_of(m, name) =~= combo_of(
            Modifiers { shift: false, super_key: false, ..m },
            "Shift+"@ + combo_of(
                Modifiers { ctrl: false, alt: false, shift: false, super_key: m.super_key },
                name,
            ),
        ));
    }
    if m.ctrl && m.alt && m.shift && !m.super_key {
        assert(combo_of(m, name) =~= "Ctrl+Alt+Shift+"@ + name);
    }
    if m.ctrl && !m.alt && !m.shift && !m.super_key {
        assert(combo_of(m, name) =~= "Ctrl+"@ + name);
    }
    if !m.ctrl && m.alt && !m.shift && !m.super_key {
        assert(combo_of(m, name) =~= "Alt+"@ + name);
    }
    if !m.ctrl && !m.alt && !m.shift && !m.super_key {
        assert(combo_of(m, name) =~= name);
    }
}

/// A binding that is set is the one that is found, and no other binding changes;
/// one that is cleared is gone. Only `open` and `ptt` can be bound.
pub proof fn bindings_are_set_and_cleared(
    before: Config,
    after: Config,
    action: String,
    combo: String,
    other: Seq<char>,
    none: Seq<char>,
    r: Next,
)
    requires
        other != action@,
    ensures
        shortcut_done(before, after, ShortcutCmd::Bind { action, combo: Some(combo) }, r)
            && r is Done ==> (action@ == "open"@ || action@ == "ptt"@) && combo_or(
            text_map(after.shortcuts),
            action@,
            none,
        ) == combo@ && combo_or(text_map(after.shortcuts), other, none) == combo_or(
            text_map(before.shortcuts),
            other,
            none,
        ) && r->Done_0@.save,
        shortcut_done(before, after, ShortcutCmd::Bind { action, combo: Some(combo) }, r)
            && !(r is Done) ==> after == before && r is Fail,
        shortcut_done(before, after, ShortcutCmd::Bind { action, combo: None }, r) ==> after
            == before && (r is Record <==> action@ == "open"@ || action@ == "ptt"@),
        shortcut_done(before, after, ShortcutCmd::Clear { action }, r) ==> combo_or(
            text_map(after.shortcuts),
            action@,
            none,
        ) == none && combo_or(text_map(after.shortcuts), other, none) == combo_or(
            text_map(before.shortcuts),
            other,
            none,
        ) && r is Done && r->Done_0@.save,
{
}

// ---- messages ----

/// A button is a label and a reply: what stands before the first `=` and what
/// stands behind it, without white space around them. Without an `=` the reply is
/// the label.
pub proof fn buttons_have_a_label_and_a_reply(label: Seq<char>, reply: Seq<char>)
    requires
        !label.contains('='),
    ensures
        button(label.push('=') + reply).text_member("label"@) == Some(trimmed(label)),
        button(label.push('=') + reply).text_member("reply"@) == Some(trimmed(reply)),
        button(label).text_member("label"@) == Some(trimmed(label)),
        button(label).text_member("reply"@) == Some(trimmed(label)),
{
    keys_differ();
    let b = label.push('=') + reply;
    crate::laws::texts::cut_finds_the_first(label, '=', reply);
    crate::laws::texts::nothing_to_cut(label, '=');
}

/// A message carries the buttons that were asked for, in their order, and at most
/// four; without buttons it carries nothing.
pub proof fn messages_carry_their_buttons(asked: Seq<Seq<char>>)
    ensures
        asked.len() == 0 ==> message_data_of(asked) == empty_obj(),
        asked.len() > 0 ==> {
            let items = message_data_of(asked).items_of("buttons"@);
            &&& items.len() == (if asked.len() < 4 {
                asked.len() as int
            } else {
                4int
            })
            &&& forall|i: int| 0 <= i < items.len() ==> #[trigger] items[i] == button(asked[i])
        },
{
}

/// `msg` and `invite` send what was typed to whom it was typed for: the words of a
/// message with spaces between them and its buttons, the link of an invite as its
/// text and for its button.
pub proof fn messages_and_invites_are_sent(
    friend: String,
    title: String,
    buttons: Vec<String>,
    body: Vec<String>,
    url: String,
    r: Next,
)
    ensures
        handed_on(Cmd::Msg { friend, title, buttons, body }, r) ==> r is Send && r->Send_friend
            == friend && r->Send_action == ActionKind::Message && r->Send_title == title
            && r->Send_body@ == joined(views(body@), " "@) && r->Send_data@ == message_data_of(
            views(buttons@),
        ),
        handed_on(Cmd::Invite { friend, url, title }, r) ==> r is Send && r->Send_friend == friend
            && r->Send_action == ActionKind::GameInvite && r->Send_title == title && r->Send_body@
            == url@ && r->Send_data@.text_member("url"@) == Some(url@),
{
}

// ---- accounts and the rest ----

/// Who logs in is who the server confirmed, and who logs out is nobody; nothing
/// else changes.
pub proof fn accounts_are_taken_over_and_forgotten(cfg: Config, account: AuthResp)
    ensures
        with_account(cfg, Some(account)) == (Config {
            user_id: Some(account.id),
            username: Some(account.username),
            token: Some(account.token),
            ..cfg
        }),
        with_account(cfg, None) == (Config { user_id: None, username: None, token: None, ..cfg }),
        with_account(with_account(cfg, Some(account)), None) == with_account(cfg, None),
{
}

/// The words for how one came to be logged in.
pub proof fn logins_have_their_words(how: SignIn)
    ensures
        how == SignIn::Registered ==> sign_in_words(how) == "registered + logged in"@,
        how == SignIn::LoggedIn ==> sign_in_words(how) == "logged in"@,
        how == SignIn::SignedIn ==> sign_in_words(how) == "signed in"@,
{
}

/// An account is registered where accounts are registered and logged in to where
/// they are logged in to.
pub proof fn accounts_are_asked_for_where_they_are(kind: AuthKind)
    ensures
        kind == AuthKind::Register <==> auth_path(kind) == "/register"@,
        kind == AuthKind::Login <==> auth_path(kind) == "/login"@,
{
    reveal_strlit("/register");
    reveal_strlit("/login");
    assert("/register"@.len() == 9 && "/login"@.len() == 6);
}

/// Whether the autostart entry is there is noted as it is, and whom the key calls
/// as it was told; nothing else changes.
pub proof fn notes_are_what_was_told(before: Config, after: Config, b: bool, friend: Option<Seq<char>>)
    ensures
        autostart_noted(before, b) == (Config { autostart_installed: b, ..before }),
        talk_friend_set(before, after, friend) ==> opt_view(after.default_ptt_friend) == friend
            && after == (Config { default_ptt_friend: after.default_ptt_friend, ..before }),
{
}

/// A sound is set exactly where its file is there, to that file.
pub proof fn sounds_are_files_that_are_there(
    before: Config,
    after: Config,
    path: String,
    exists: bool,
    r: Result<Outcome, String>,
)
    requires
        sound_set(before, after, path, exists, r),
    ensures
        r is Ok <==> exists,
        exists ==> after == (Config { notify_sound: Some(path), ..before }) && r->Ok_0@.save,
        !exists ==> after == before,
{
}

/// Commands that only change a setting set it as told, save it, and change nothing
/// else.
pub proof fn plain_commands_do_what_they_say(
    before: Config,
    after: Config,
    friends: Seq<Friend>,
    r: Next,
    url: String,
    enabled: bool,
    friend: String,
)
    ensures
        settings_done(Cmd::Server { url: Some(url) }, before, after, friends, r) ==> after == (
        Config { server_url: url, ..before }) && r is Done && r->Done_0@.save
            && r->Done_0@.lines == seq!["server: "@ + url@],
        settings_done(Cmd::Server { url: None }, before, after, friends, r) ==> after == before
            && r is Done && !r->Done_0@.save && r->Done_0@.lines == seq![
            "server: "@ + before.server_url@,
        ],
        settings_done(Cmd::AutoUpdate { enabled }, before, after, friends, r) ==> after == (
        Config { auto_update_check: enabled, ..before }) && r is Done && r->Done_0@.save
            && r->Done_0@.lines == seq![
            "auto-update check "@ + (if enabled {
                "enabled"@
            } else {
                "disabled"@
            }),
        ],
        settings_done(Cmd::Logout, before, after, friends, r) ==> after == with_account(before, None)
            && r is Done && r->Done_0@.save,
        settings_done(Cmd::PttFriend { friend }, before, after, friends, r) ==> r is Done
            && r->Done_0@.save && (friend@ == "none"@ ==> after.default_ptt_friend is None) && (
        friend@ != "none"@ ==> after.default_ptt_friend is Some && after.default_ptt_friend->0@
            == friend@) && after == (Config {
            default_ptt_friend: after.default_ptt_friend,
            ..before
        }),
        settings_done(
            Cmd::Settings { op: SettingsCmd::RadioBeeps { enabled } },
            before,
            after,
            friends,
            r,
        ) ==> after == (Config { radio_beeps: enabled, ..before }),
        settings_done(
            Cmd::Settings { op: SettingsCmd::RadioEffect { enabled } },
            before,
            after,
            friends,
            r,
        ) ==> after == (Config { radio_effect: enabled, ..before }),
{
}

/// A command for a switch of the settings leaves them as that switch does and says
/// so; the one for background is handed on with its value.
pub proof fn settings_are_changed_by_their_commands(
    before: Config,
    after: Config,
    friends: Seq<Friend>,
    r: Next,
    op: SettingsCmd,
)
    requires
        settings_done(Cmd::Settings { op }, before, after, friends, r),
    ensures
        after == settings_after(before, op),
        op matches SettingsCmd::Background { enabled } ==> r == (Next::Background { enabled }),
        !(op is Background) ==> r is Done && r->Done_0@ == settings_outcome(before, op),
{
}

/// Only the commands that are about settings change any.
pub proof fn other_commands_change_nothing(
    cmd: Cmd,
    before: Config,
    after: Config,
    friends: Seq<Friend>,
    r: Next,
)
    requires
        settings_done(cmd, before, after, friends, r),
        !(cmd is Server) && !(cmd is Logout) && !(cmd is PttFriend) && !(cmd is AutoUpdate),
        !(cmd is Presence) && !(cmd is Dnd) && !(cmd is Settings) && !(cmd is Shortcut),
        !(cmd is Plugin),
    ensures
        after == before,
{
}

/// Every other command is handed on as what it is, with what was typed.
pub proof fn commands_are_handed_on(
    r: Next,
    username: String,
    friend: String,
    path: String,
    check: bool,
)
    ensures
        handed_on(Cmd::Register { username }, r) ==> r == (Next::Authenticate {
            kind: AuthKind::Register,
            username,
        }),
        handed_on(Cmd::Login { username }, r) ==> r == (Next::Authenticate {
            kind: AuthKind::Login,
            username,
        }),
        handed_on(Cmd::Ptt { friend, continuous: true }, r) ==> r == (Next::Talk { friend }),
        handed_on(Cmd::Ptt { friend, continuous: false }, r) ==> r == (Next::Arm { friend }),
        handed_on(Cmd::PttStop, r) ==> r is Hush,
        handed_on(Cmd::NotifySound { path }, r) ==> r == (Next::Sound { path }),
        handed_on(Cmd::Update { check }, r) ==> r == (Next::Update { check }),
        handed_on(Cmd::Whoami, r) ==> r is Whoami,
        handed_on(Cmd::Listen, r) ==> r is Listen,
        handed_on(Cmd::Version, r) ==> r is Version,
        forall|op| #[trigger] handed_on(Cmd::Friend { op }, r) ==> r == Next::Friend(op),
        forall|op| #[trigger] handed_on(Cmd::Perm { op }, r) ==> r == Next::Perm(op),
        forall|op| #[trigger] handed_on(Cmd::Mic { op }, r) ==> r == Next::Mic(op),
        forall|op| #[trigger] handed_on(Cmd::Service { op }, r) ==> r == Next::Service(op),
        forall|op| #[trigger] handed_on(Cmd::Daemon { op }, r) ==> r == Next::Daemon(op),
{
}

/// A daemon that runs is not started a second time unless it was stopped first, a
/// restart always ends with one started, and a stop stops one that runs. Every
/// command says how it went, last.
pub proof fn daemons_are_started_and_stopped(op: DaemonCmd, running: bool)
    ensures
        ({
            let steps = daemon_steps(op, running);
            &&& steps.len() > 0 && steps[steps.len() - 1] == DaemonStep::Say
            &&& steps.contains(DaemonStep::Stop) <==> running && (op == DaemonCmd::Stop || op
                == DaemonCmd::Restart)
            &&& steps.contains(DaemonStep::Start) <==> op == DaemonCmd::Restart || (op
                == DaemonCmd::Start && !running)
            &&& steps.contains(DaemonStep::Stop) ==> steps[0] == DaemonStep::Stop
            &&& steps.contains(DaemonStep::Wait) <==> steps.contains(DaemonStep::Start)
            &&& op == DaemonCmd::Status ==> daemon_words(op, running) == (if running {
                "daemon: running"@
            } else {
                "daemon: not running"@
            })
            &&& op == DaemonCmd::Start ==> daemon_words(op, running) == (if running {
                "daemon already running"@
            } else {
                "daemon started"@
            })
            &&& op == DaemonCmd::Stop ==> daemon_words(op, running) == (if running {
                "daemon stopped"@
            } else {
                "no daemon running"@
            })
            &&& op == DaemonCmd::Restart ==> daemon_words(op, running) == "daemon restarted"@
        }),
{
    let steps = daemon_steps(op, running);
    if op == DaemonCmd::Restart {
        if running {
            assert(steps[0] == DaemonStep::Stop);
            assert(steps[2] == DaemonStep::Start);
            assert(steps[3] == DaemonStep::Wait);
        } else {
            assert(steps[0] == DaemonStep::Start);
            assert(steps[1] == DaemonStep::Wait);
        }
    } else if op == DaemonCmd::Start && !running {
        assert(steps[0] == DaemonStep::Start);
        assert(steps[1] == DaemonStep::Wait);
    } else if op == DaemonCmd::Stop && running {
        assert(steps[0] == DaemonStep::Stop);
    }
}

/// Who one is, and where the settings are.
pub proof fn whoami_tells_who_one_is(cfg: Config, path: Seq<char>)
    ensures
        whoami_lines(cfg, path)[0] == "config: "@ + path,
        whoami_lines(cfg, path)[1] == "server: "@ + cfg.server_url@,
        cfg.username matches Some(u) ==> whoami_lines(cfg, path)[2] == "user:   "@ + u@,
        cfg.username is None ==> whoami_lines(cfg, path)[2] == "user:   "@ + "(not logged in)"@,
        cfg.notify_sound matches Some(x) ==> whoami_lines(cfg, path) == whoami_lines(
            Config { notify_sound: None, ..cfg },
            path,
        ).push("sound:  "@ + x@),
        cfg.notify_sound is None ==> whoami_lines(cfg, path).len() == 3,
{
}

/// A client that starts is online, blocks everything in Do Not Disturb, tells of
/// friend requests and not of comings and goings, keeps its cards, and has the keys
/// that the manual names.
pub proof fn new_clients_start_as_documented(cfg: Config)
    requires
        cfg.is_fresh(),
    ensures
        cfg.presence@ == "online"@,
        cfg.dnd_block_message && cfg.dnd_block_game_invite && cfg.dnd_block_ptt,
        cfg.dnd_block_plugin && cfg.dnd_block_custom,
        cfg.notify_friend_requests && !cfg.notify_friend_presence,
        !cfg.notify_auto_dismiss && cfg.notify_show_list && cfg.notify_auto_dismiss_ms == 6000,
        cfg.radio_effect && cfg.radio_beeps && cfg.background_enabled && cfg.auto_update_check,
        !cfg.first_run_done && !cfg.autostart_installed,
        cfg.username is None && cfg.token is None && cfg.user_id is None,
        cfg.last_update_check is None && cfg.default_ptt_friend is None,
        cfg.ptt_input_device is None && cfg.notify_sound is None && cfg.plugins_dir is None,
        combo_or(text_map(cfg.shortcuts), "open"@, ""@) == "Ctrl+Alt+Shift+KeyF"@,
        combo_or(text_map(cfg.shortcuts), "ptt"@, ""@) == "Ctrl+Alt+Shift+KeyK"@,
        forall|p: Seq<char>, f: Seq<char>| !#[trigger] trusts(trust_map(cfg.plugin_trust), p, f),
        cfg.server_url@ == "https://sociacli-server.mrtigerst.dev"@,
        cfg.ice_servers@.len() == 1,
        cfg.ice_servers@[0]@.urls == seq![
            "stun:stun.l.google.com:19302"@,
            "stun:stun1.l.google.com:19302"@,
        ],
        cfg.ice_servers@[0]@.username is None && cfg.ice_servers@[0]@.credential is None,
{
    assert(crate::config::ice_views(cfg.ice_servers@).len() == 1);
    assert(crate::config::ice_views(cfg.ice_servers@)[0] == cfg.ice_servers@[0]@);
    reveal_strlit("open");
    reveal_strlit("ptt");
    assert("open"@.len() == 4 && "ptt"@.len() == 3);
}

// ---- keys, background and accounts ----

/// A key that goes down is recorded with what is held: Escape calls it off, a key
/// without a name is nothing, and every other is its combination. A key that comes
/// up is nothing.
pub proof fn keys_are_recorded_when_pressed(key: Key, mods: Modifiers, released: bool, r: Recorded)
    requires
        combo_recorded(key, mods, released, r),
    ensures
        released ==> r is Nothing,
        !released && key is Esc ==> r is Cancelled,
        r is Cancelled ==> key is Esc,
        !released && !(key is Esc) && key_name(key) is None ==> r is Nothing,
        !released && key_name(key) is Some ==> r is Combo && r->Combo_0@ == combo_of(
            mods,
            key_name(key)->0,
        ),
{
}

/// Switching background on notes that autostart is set up exactly where that went
/// well, and saves it then; why it did not is said.
pub proof fn background_is_noted_where_it_works(
    before: Config,
    after: Config,
    installed: Result<String, String>,
    r: Outcome,
)
    requires
        background_noted(before, after, installed, r),
    ensures
        installed is Ok ==> after == (Config { autostart_installed: true, ..before }),
        installed is Err ==> after == before,
        r@.save <==> installed is Ok,
        installed matches Ok(m) ==> r@.lines == seq!["background on — "@ + m@],
        installed matches Err(e) ==> r@.lines == seq![
            "background on (autostart setup failed: "@ + e@ + ")"@,
        ],
{
}

/// Arming the key tells for whom, and the combination to hold; without one it
/// tells how to bind it.
pub proof fn armed_keys_are_told(cfg: Config, friend: Seq<char>)
    ensures
        armed_lines(cfg, friend).len() == 2,
        text_map(cfg.shortcuts).contains_key("ptt"@) ==> armed_lines(cfg, friend)[0]
            == "PTT target: "@ + friend + ". HOLD `"@ + text_map(cfg.shortcuts)["ptt"@]
            + "` to talk."@,
        !text_map(cfg.shortcuts).contains_key("ptt"@) ==> armed_lines(cfg, friend)[0]
            == "PTT target: "@ + friend + ". HOLD `"@
            + "(no PTT hotkey bound — `shortcut set ptt <combo>`)"@ + "` to talk."@,
{
}

/// A daemon that was started is waited for until it runs, looking every tenth of a
/// second, and for three seconds at most.
pub proof fn daemons_are_waited_for(waited_ms: u64, running: bool)
    ensures
        running ==> wait_of(waited_ms, running) is None,
        !running && waited_ms < 3000 ==> wait_of(waited_ms, running) == Some(100u64),
        waited_ms >= 3000 ==> wait_of(waited_ms, running) is None,
{
}

/// Accounts are posted to the server's address and the path for what is asked,
/// with one slash between them, and carry the name and the password as given.
pub proof fn accounts_are_posted_as_given(server: Seq<char>, username: Seq<char>, password: Seq<char>)
    ensures
        auth_tree(username, password).text_member("username"@) == Some(username),
        auth_tree(username, password).text_member("password"@) == Some(password),
        server.len() > 0 && server.last() != '/' ==> auth_address(server, AuthKind::Register)
            == server + "/register"@ && auth_address(server, AuthKind::Login) == server
            + "/login"@ && auth_address(server.push('/'), AuthKind::Register) == server
            + "/register"@ && auth_address(server.push('/'), AuthKind::Login) == server
            + "/login"@,
{
    keys_differ();
    assert(server.push('/').drop_last() =~= server);
    reveal_with_fuel(crate::text::stripped_end, 3);
}

// ---- words that are typed ----

/// A switch that is typed is on or off as it says, whatever its case, and a word
/// that is neither is refused with it.
pub proof fn typed_switches_are_taken_or_refused(s: Seq<char>, r: Result<bool, String>)
    requires
        switch_read(s, r),
    ensures
        ascii_lowercase(s) == "on"@ || ascii_lowercase(s) == "true"@ || ascii_lowercase(s)
            == "yes"@ || ascii_lowercase(s) == "1"@ || ascii_lowercase(s) == "allow"@ ==> r == Ok::<
            bool,
            String,
        >(true),
        ascii_lowercase(s) == "off"@ || ascii_lowercase(s) == "false"@ || ascii_lowercase(s)
            == "no"@ || ascii_lowercase(s) == "0"@ || ascii_lowercase(s) == "deny"@
            || ascii_lowercase(s) == "block"@ ==> r == Ok::<bool, String>(false),
        r is Err ==> r->Err_0@ == "expected on/off, got "@ + s,
{
    switches_are_read_as_said(true, s);
    switches_are_read_as_said(false, s);
}

/// A presence that is typed in small letters is the presence it says.
pub proof fn typed_presences_are_taken(w: Seq<char>, r: Option<&str>)
    requires
        keyword_read(w, r),
    ensures
        is_wire(w) ==> r is Some && r->0@ == w,
        w == "do-not-disturb"@ || w == "donotdisturb"@ || w == "do_not_disturb"@ ==> r is Some
            && r->0@ == "dnd"@,
        w == "invisible"@ || w == "appear-offline"@ ==> r is Some && r->0@ == "offline"@,
        r is Some ==> is_wire(r->0@),
{
    presences_are_set_as_told(w);
}

/// Keys can be bound to opening and to talking, and to nothing else.
pub proof fn only_actions_are_bound(action: Seq<char>, r: Result<(), String>)
    requires
        action_checked(action, r),
    ensures
        r is Ok <==> action == "open"@ || action == "ptt"@,
        r is Err ==> r->Err_0@ == "unknown action `"@ + action + "` — use one of: open, ptt"@,
{
}

/// The friend list is needed for trust in a friend who goes by a name, and for
/// nothing else.
pub proof fn names_need_the_list(cmd: Cmd, friend_id: String, plugin_id: String)
    ensures
        names_a_friend(Cmd::Plugin { op: PluginCmd::Trust { friend_id, plugin_id } }) == !is_uuid(
            friend_id@,
        ),
        names_a_friend(Cmd::Plugin { op: PluginCmd::Untrust { friend_id, plugin_id } }) == !is_uuid(
            friend_id@,
        ),
        !(cmd is Plugin) ==> !names_a_friend(cmd),
{
}

/// Stopping and the state of the service are told as they are.
pub proof fn states_are_told(status: Seq<char>)
    ensures
        stop_words(true) == "PTT stopped"@,
        stop_words(false) == "no daemon — nothing to stop"@,
        status_lines(status, true) == seq![status, "daemon running: "@ + "true"@],
        status_lines(status, false) == seq![status, "daemon running: "@ + "false"@],
{
}

/// Plugins are where the settings say, and otherwise beside them.
pub proof fn plugins_are_where_they_are_set(set: Seq<char>, beside: Option<Seq<char>>, d: Seq<char>)
    ensures
        plugins_place(Some(set), beside) == set,
        plugins_place(None, Some(d)) == d,
        plugins_place(None, None) == "plugins"@,
{
}

} // verus!
