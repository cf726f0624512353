//! The commands of the program: what each does to the settings, what it prints,
//! and what it leaves to be done.
use vstd::prelude::*;

use crate::config::Config;
#[allow(unused_imports)]
use crate::config::{opt_view, text_map};
use crate::friends::one_line;
use crate::json::{Fields, Json};
#[allow(unused_imports)]
use crate::json::{empty_obj, trees, JsonView};
#[allow(unused_imports)]
use crate::strmap::{pairs_are_the_map, place, rising, StrMap};
use crate::text::{
    join, pad, same, split_once, to_ascii_lowercase, to_decimal, to_lowercase, trim,
};
#[allow(unused_imports)]
use crate::text::{
    ascii_lowercase, ascii_upper, cut_once, decimal, joined, lowercase, padded, trimmed, views,
};

verus! {

/// What a command comes to: the settings are saved first, if they have to be,
/// and the lines are printed after that.
pub struct Outcome {
    pub save: bool,
    pub lines: Vec<String>,
}

/// The model of what a command comes to.
pub struct OutcomeView {
    pub save: bool,
    pub lines: Seq<Seq<char>>,
}

impl Outcome {
    /// The outcome over the views of its lines.
    pub open spec fn view(self) -> OutcomeView {
        OutcomeView { save: self.save, lines: views(self.lines@) }
    }
}

/// The settings changed and one line says so.
pub open spec fn saved(line: Seq<char>) -> OutcomeView {
    OutcomeView { save: true, lines: seq![line] }
}

/// The settings changed, a line says so, and another that the daemon has to
/// start anew to notice.
pub open spec fn saved_for_restart(line: Seq<char>) -> OutcomeView {
    OutcomeView { save: true, lines: seq![line, "(run `daemon restart` to apply)"@] }
}

/// Two lines.
fn two_lines(a: String, b: String) -> (r: Vec<String>)
    ensures
        views(r@) == seq![a@, b@],
{
    let mut out: Vec<String> = Vec::new();
    out.push(a);
    out.push(b);
    assert(views(out@) =~= seq![a@, b@]);
    out
}

/// The settings changed and one line says so.
fn save_and_say(line: String) -> (r: Outcome)
    ensures
        r@ == saved(line@),
{
    Outcome { save: true, lines: one_line(line) }
}

/// The settings changed in a way that the daemon has to start anew to notice.
fn save_for_restart(line: String) -> (r: Outcome)
    ensures
        r@ == saved_for_restart(line@),
{
    Outcome {
        save: true,
        lines: two_lines(line, "(run `daemon restart` to apply)".to_owned()),
    }
}

// ---- words ----

/// The truth value that a word stands for, whatever the case of its letters.
pub open spec fn bool_word(s: Seq<char>) -> Option<bool> {
    let w = ascii_lowercase(s);
    if w == "on"@ || w == "true"@ || w == "yes"@ || w == "1"@ || w == "allow"@ {
        Some(true)
    } else if w == "off"@ || w == "false"@ || w == "no"@ || w == "0"@ || w == "deny"@ || w
        == "block"@ {
        Some(false)
    } else {
        None
    }
}

/// Whether a switch is read as what it says.
pub open spec fn switch_read(s: Seq<char>, r: Result<bool, String>) -> bool {
    match r {
        Ok(b) => bool_word(s) == Some(b),
        Err(e) => bool_word(s) is None && e@ == "expected on/off, got "@ + s,
    }
}

/// Reads a switch.
pub fn parse_bool(s: &str) -> (r: Result<bool, String>)
    ensures
        switch_read(s@, r),
{
    let word = to_ascii_lowercase(s);
    let w = word.as_str();
    if same(w, "on") || same(w, "true") || same(w, "yes") || same(w, "1") || same(w, "allow") {
        Ok(true)
    } else if same(w, "off") || same(w, "false") || same(w, "no") || same(w, "0") || same(w, "deny")
        || same(w, "block") {
        Ok(false)
    } else {
        Err("expected on/off, got ".to_owned().concat(s))
    }
}

/// A switch in words.
pub open spec fn on_off(b: bool) -> Seq<char> {
    if b {
        "on"@
    } else {
        "off"@
    }
}

/// A truth value in words.
pub open spec fn true_false(b: bool) -> Seq<char> {
    if b {
        "true"@
    } else {
        "false"@
    }
}

/// Writes a switch.
fn switch_word(b: bool) -> (r: &'static str)
    ensures
        r@ == on_off(b),
{
    if b {
        "on"
    } else {
        "off"
    }
}

/// Writes a truth value.
fn truth_word(b: bool) -> (r: &'static str)
    ensures
        r@ == true_false(b),
{
    if b {
        "true"
    } else {
        "false"
    }
}

/// A text with a word for none.
pub open spec fn or_word(s: Option<String>, none: Seq<char>) -> Seq<char> {
    match s {
        Some(s) => s@,
        None => none,
    }
}

/// Writes a text, or a word for none.
fn text_or_word(s: &Option<String>, none: &str) -> (r: String)
    ensures
        r@ == or_word(*s, none@),
{
    match s {
        Some(s) => s.clone(),
        None => none.to_owned(),
    }
}

// ---- identity ----

/// Sets the signaling server, if there is one to set, and prints it.
pub fn server_cmd(cfg: &mut Config, url: Option<String>) -> (r: Outcome)
    ensures
        *final(cfg) == (match url {
            Some(u) => Config { server_url: u, ..*old(cfg) },
            None => *old(cfg),
        }),
        r@ == (OutcomeView {
            save: url is Some,
            lines: seq!["server: "@ + final(cfg).server_url@],
        }),
{
    let save = url.is_some();
    if let Some(u) = url {
        cfg.server_url = u;
    }
    Outcome { save, lines: one_line("server: ".to_owned().concat(cfg.server_url.as_str())) }
}

/// How one came to be logged in.
#[derive(Debug, Clone, Copy, PartialEq, Eq, Structural)]
pub enum SignIn {
    /// By the `register` command, or by that choice of the first run.
    Registered,
    /// By the `login` command.
    LoggedIn,
    /// By that choice of the first run.
    SignedIn,
}

/// The words for how one came to be logged in.
pub open spec fn sign_in_words(how: SignIn) -> Seq<char> {
    match how {
        SignIn::Registered => "registered + logged in"@,
        SignIn::LoggedIn => "logged in"@,
        SignIn::SignedIn => "signed in"@,
    }
}

/// The settings with an account, or without any.
pub open spec fn with_account(cfg: Config, account: Option<crate::api::AuthResp>) -> Config {
    match account {
        Some(a) => Config {
            user_id: Some(a.id),
            username: Some(a.username),
            token: Some(a.token),
            ..cfg
        },
        None => Config { user_id: None, username: None, token: None, ..cfg },
    }
}

/// Takes over an account that the server confirmed.
pub fn sign_in(cfg: &mut Config, account: crate::api::AuthResp, how: SignIn) -> (r: Outcome)
    ensures
        *final(cfg) == with_account(*old(cfg), Some(account)),
        r@ == saved(
            sign_in_words(how) + " as "@ + account.username@ + " ("@ + account.id@ + ")"@,
        ),
{
    let words = match how {
        SignIn::Registered => "registered + logged in",
        SignIn::LoggedIn => "logged in",
        SignIn::SignedIn => "signed in",
    };
    let line = words.to_owned().concat(" as ").concat(account.username.as_str()).concat(
        " (",
    ).concat(account.id.as_str()).concat(")");
    cfg.user_id = Some(account.id);
    cfg.username = Some(account.username);
    cfg.token = Some(account.token);
    save_and_say(line)
}

/// Forgets the account.
pub fn logout_cmd(cfg: &mut Config) -> (r: Outcome)
    ensures
        *final(cfg) == with_account(*old(cfg), None),
        r@ == saved("logged out"@),
{
    cfg.token = None;
    cfg.user_id = None;
    cfg.username = None;
    save_and_say("logged out".to_owned())
}

/// What `whoami` prints.
pub open spec fn whoami_lines(cfg: Config, path: Seq<char>) -> Seq<Seq<char>> {
    let known = seq![
        "config: "@ + path,
        "server: "@ + cfg.server_url@,
        "user:   "@ + or_word(cfg.username, "(not logged in)"@),
    ];
    match cfg.notify_sound {
        Some(s) => known.push("sound:  "@ + s@),
        None => known,
    }
}

/// Says where the settings are and who one is.
pub fn whoami_cmd(cfg: &Config, path: &str) -> (r: Vec<String>)
    ensures
        views(r@) == whoami_lines(*cfg, path@),
{
    let mut out: Vec<String> = Vec::new();
    out.push("config: ".to_owned().concat(path));
    out.push("server: ".to_owned().concat(cfg.server_url.as_str()));
    out.push("user:   ".to_owned().concat(text_or_word(&cfg.username, "(not logged in)").as_str()));
    if let Some(s) = &cfg.notify_sound {
        out.push("sound:  ".to_owned().concat(s.as_str()));
    }
    assert(views(out@) =~= whoami_lines(*cfg, path@));
    out
}

/// Whether the sound of notifications is set right.
pub open spec fn sound_set(
    before: Config,
    after: Config,
    path: String,
    exists: bool,
    r: Result<Outcome, String>,
) -> bool {
    match r {
        Ok(o) => exists && after == (Config { notify_sound: Some(path), ..before }) && o@ == saved(
            "notification sound set"@,
        ),
        Err(e) => !exists && after == before && e@ == "no such file: "@ + path@,
    }
}

/// Sets the sound of notifications, to a file that is there.
pub fn notify_sound_cmd(cfg: &mut Config, path: String, exists: bool) -> (r: Result<
    Outcome,
    String,
>)
    ensures
        sound_set(*old(cfg), *final(cfg), path, exists, r),
{
    if !exists {
        return Err("no such file: ".to_owned().concat(path.as_str()));
    }
    cfg.notify_sound = Some(path);
    Ok(save_and_say("notification sound set".to_owned()))
}

/// The line that tells one build from another.
pub fn version_cmd(build: Option<&str>) -> (r: String)
    ensures
        r@ == "sociacli v"@ + crate::updater::version_text() + " (build "@ + (match build {
            Some(b) => b@,
            None => "local"@,
        }) + ")"@,
{
    let build = match build {
        Some(b) => b,
        None => "local",
    };
    "sociacli v".to_owned().concat(crate::updater::current_version()).concat(" (build ").concat(
        build,
    ).concat(")")
}

// ---- messages and invites ----

/// A button of a message: the label before the first `=` and the reply behind
/// it. Without one the label is the reply.
pub open spec fn button(b: Seq<char>) -> JsonView {
    let (label, reply) = match cut_once(b, '=') {
        Some((l, r)) => (trimmed(l), trimmed(r)),
        None => (trimmed(b), trimmed(b)),
    };
    JsonView::Obj(map!["label"@ => JsonView::Str(label), "reply"@ => JsonView::Str(reply)])
}

/// How many buttons a message can have.
pub const MAX_BUTTONS: usize = 4;

/// The buttons of a message: the first four that were asked for.
pub open spec fn buttons_of(asked: Seq<Seq<char>>) -> Seq<JsonView> {
    let n = if asked.len() < MAX_BUTTONS {
        asked.len() as int
    } else {
        MAX_BUTTONS as int
    };
    Seq::new(n as nat, |i: int| button(asked[i]))
}

/// What goes along with a message.
pub open spec fn message_data_of(asked: Seq<Seq<char>>) -> JsonView {
    if asked.len() == 0 {
        empty_obj()
    } else {
        JsonView::Obj(map!["buttons"@ => JsonView::Arr(buttons_of(asked))])
    }
}

/// Makes a button.
fn make_button(b: &str) -> (r: Json)
    ensures
        r@ == button(b@),
{
    let (label, reply) = match split_once(b, '=') {
        Some((l, r)) => (trim(l.as_str()), trim(r.as_str())),
        None => (trim(b), trim(b)),
    };
    Fields::new().with_text("label", label.as_str()).with_text("reply", reply.as_str()).done()
}

/// Makes what goes along with a message.
pub fn message_data(asked: &Vec<String>) -> (r: Json)
    ensures
        r@ == message_data_of(views(asked@)),
{
    if asked.len() == 0 {
        return Json::object();
    }
    let mut out: Vec<Json> = Vec::new();
    let mut i: usize = 0;
    while i < asked.len() && i < MAX_BUTTONS
        invariant
            i <= asked.len(),
            i <= MAX_BUTTONS,
            out@.len() == i,
            forall|k: int| 0 <= k < i ==> (#[trigger] out@[k])@ == button(asked@[k]@),
        decreases asked.len() - i,
    {
        out.push(make_button(asked[i].as_str()));
        i += 1;
    }
    proof {
        crate::json::array_tree(out);
        assert(trees(out@) =~= buttons_of(views(asked@)));
    }
    Fields::new().with("buttons", Json::Arr(out)).done()
}

/// The text of a message: its words with a space between any two.
pub fn message_body(words: &Vec<String>) -> (r: String)
    ensures
        r@ == joined(views(words@), " "@),
{
    join(words, " ")
}

/// What goes along with an invite.
pub fn invite_data(url: &str) -> (r: Json)
    ensures
        r@ == JsonView::Obj(map!["url"@ => JsonView::Str(url@)]),
{
    Fields::new().with_text("url", url).done()
}

// ---- presence ----

/// The presence that a lower-case word stands for on the wire.
pub open spec fn presence_of(w: Seq<char>) -> Option<Seq<char>> {
    if w == "online"@ {
        Some("online"@)
    } else if w == "dnd"@ || w == "do-not-disturb"@ || w == "donotdisturb"@ || w
        == "do_not_disturb"@ {
        Some("dnd"@)
    } else if w == "invisible"@ || w == "offline"@ || w == "appear-offline"@ {
        Some("offline"@)
    } else {
        None
    }
}

/// The presence that a word stands for on the wire, whatever its case.
pub open spec fn wire_presence(state: Seq<char>) -> Option<Seq<char>> {
    presence_of(lowercase(state))
}

/// A presence in words.
pub open spec fn presence_words(s: Seq<char>) -> Seq<char> {
    if s == "dnd"@ {
        "do not disturb"@
    } else if s == "offline"@ {
        "invisible (friends see you as offline)"@
    } else {
        "online"@
    }
}

/// Puts a presence in words.
pub fn pretty_presence(s: &str) -> (r: &'static str)
    ensures
        r@ == presence_words(s@),
{
    if same(s, "dnd") {
        "do not disturb"
    } else if same(s, "offline") {
        "invisible (friends see you as offline)"
    } else {
        "online"
    }
}

/// Whether a lower-case word is read as the presence it stands for.
pub open spec fn keyword_read(w: Seq<char>, r: Option<&str>) -> bool {
    match r {
        Some(p) => presence_of(w) == Some(p@),
        None => presence_of(w) is None,
    }
}

/// The presence that a lower-case word stands for.
pub fn presence_keyword(w: &str) -> (r: Option<&'static str>)
    ensures
        keyword_read(w@, r),
{
    if same(w, "online") {
        Some("online")
    } else if same(w, "dnd") || same(w, "do-not-disturb") || same(w, "donotdisturb") || same(
        w,
        "do_not_disturb",
    ) {
        Some("dnd")
    } else if same(w, "invisible") || same(w, "offline") || same(w, "appear-offline") {
        Some("offline")
    } else {
        None
    }
}

/// The request that tells a running daemon of a presence.
pub open spec fn presence_request(state: Seq<char>) -> JsonView {
    JsonView::Obj(map!["cmd"@ => JsonView::Str("set-presence"@), "state"@ => JsonView::Str(state)])
}

/// Whether the presence is printed or set right.
pub open spec fn presence_set(
    before: Config,
    after: Config,
    state: Option<Seq<char>>,
    r: Result<(Outcome, Option<Json>), String>,
) -> bool {
    match state {
        None => after == before && r is Ok && r->Ok_0.1 is None && r->Ok_0.0@ == (OutcomeView {
            save: false,
            lines: seq!["presence: "@ + presence_words(before.presence@)],
        }),
        Some(w) => match wire_presence(w) {
            Some(p) => {
                &&& after == (Config { presence: after.presence, ..before })
                &&& after.presence@ == p
                &&& r is Ok
                &&& r->Ok_0.0@ == saved("presence → "@ + presence_words(p))
                &&& r->Ok_0.1 is Some
                &&& r->Ok_0.1->0@ == presence_request(p)
            },
            None => {
                &&& after == before
                &&& r is Err
                &&& r->Err_0@ == "presence must be `online`, `dnd`, or `invisible` (got `"@
                    + lowercase(w) + "`)."@
            },
        },
    }
}

/// Prints the presence, or sets it. A running daemon is told of a new one
/// between the saving and the line.
pub fn presence_cmd(cfg: &mut Config, state: Option<&str>) -> (r: Result<
    (Outcome, Option<Json>),
    String,
>)
    ensures
        presence_set(
            *old(cfg),
            *final(cfg),
            match state {
                Some(w) => Some(w@),
                None => None,
            },
            r,
        ),
{
    let state = match state {
        Some(s) => s,
        None => {
            return Ok(
                (
                    Outcome {
                        save: false,
                        lines: one_line(
                            "presence: ".to_owned().concat(pretty_presence(cfg.presence.as_str())),
                        ),
                    },
                    None,
                ),
            );
        },
    };
    let word = to_lowercase(state);
    match presence_keyword(word.as_str()) {
        Some(wire) => {
            cfg.presence = wire.to_owned();
            let request = Fields::new().with_text("cmd", "set-presence").with_text(
                "state",
                wire,
            ).done();
            Ok(
                (
                    save_and_say("presence → ".to_owned().concat(pretty_presence(wire))),
                    Some(request),
                ),
            )
        },
        None => Err(
            "presence must be `online`, `dnd`, or `invisible` (got `".to_owned().concat(
                word.as_str(),
            ).concat("`)."),
        ),
    }
}

// ---- Do Not Disturb ----

/// A command about the filter of Do Not Disturb.
pub enum DndCmd {
    Show,
    Block { kind: String },
    Allow { kind: String },
}

/// The switches of the filter.
#[derive(Debug, Clone, Copy, PartialEq, Eq, Structural)]
pub enum DndKind {
    Message,
    GameInvite,
    Ptt,
    Plugin,
    Custom,
}

/// The switch that a word stands for.
pub open spec fn dnd_kind_of(kind: Seq<char>) -> Option<DndKind> {
    if kind == "message"@ || kind == "msg"@ {
        Some(DndKind::Message)
    } else if kind == "game-invite"@ || kind == "game_invite"@ || kind == "invite"@ {
        Some(DndKind::GameInvite)
    } else if kind == "ptt"@ {
        Some(DndKind::Ptt)
    } else if kind == "plugin"@ {
        Some(DndKind::Plugin)
    } else if kind == "custom"@ {
        Some(DndKind::Custom)
    } else {
        None
    }
}

/// The settings with a switch of the filter set.
pub open spec fn with_dnd(cfg: Config, kind: DndKind, block: bool) -> Config {
    match kind {
        DndKind::Message => Config { dnd_block_message: block, ..cfg },
        DndKind::GameInvite => Config { dnd_block_game_invite: block, ..cfg },
        DndKind::Ptt => Config { dnd_block_ptt: block, ..cfg },
        DndKind::Plugin => Config { dnd_block_plugin: block, ..cfg },
        DndKind::Custom => Config { dnd_block_custom: block, ..cfg },
    }
}

/// The settings with every switch of the filter set.
pub open spec fn with_all_dnd(cfg: Config, block: bool) -> Config {
    Config {
        dnd_block_message: block,
        dnd_block_game_invite: block,
        dnd_block_ptt: block,
        dnd_block_plugin: block,
        dnd_block_custom: block,
        ..cfg
    }
}

/// The settings after a command for the switch of a word, or for all of them;
/// nothing for a word that stands for neither.
pub open spec fn dnd_after(cfg: Config, kind: Seq<char>, block: bool) -> Option<Config> {
    if kind == "all"@ {
        Some(with_all_dnd(cfg, block))
    } else {
        match dnd_kind_of(kind) {
            Some(k) => Some(with_dnd(cfg, k, block)),
            None => None,
        }
    }
}

/// The switch that a word stands for.
pub fn dnd_kind_field(kind: &str) -> (r: Result<DndKind, String>)
    ensures
        match r {
            Ok(k) => dnd_kind_of(kind@) == Some(k),
            Err(e) => dnd_kind_of(kind@) is None && e@ == "unknown kind `"@ + kind@
                + "` — use one of: message, game-invite, ptt, plugin, custom, all"@,
        },
{
    if same(kind, "message") || same(kind, "msg") {
        Ok(DndKind::Message)
    } else if same(kind, "game-invite") || same(kind, "game_invite") || same(kind, "invite") {
        Ok(DndKind::GameInvite)
    } else if same(kind, "ptt") {
        Ok(DndKind::Ptt)
    } else if same(kind, "plugin") {
        Ok(DndKind::Plugin)
    } else if same(kind, "custom") {
        Ok(DndKind::Custom)
    } else {
        Err(
            "unknown kind `".to_owned().concat(kind).concat(
                "` — use one of: message, game-invite, ptt, plugin, custom, all",
            ),
        )
    }
}

/// Sets the switch that a word stands for, or all of them.
fn set_dnd(cfg: &mut Config, kind: &str, block: bool) -> (r: Result<(), String>)
    ensures
        match dnd_after(*old(cfg), kind@, block) {
            Some(c) => r is Ok && *final(cfg) == c,
            None => *final(cfg) == *old(cfg) && r is Err && r->Err_0@ == "unknown kind `"@ + kind@
                + "` — use one of: message, game-invite, ptt, plugin, custom, all"@,
        },
{
    if same(kind, "all") {
        cfg.dnd_block_message = block;
        cfg.dnd_block_game_invite = block;
        cfg.dnd_block_ptt = block;
        cfg.dnd_block_plugin = block;
        cfg.dnd_block_custom = block;
        return Ok(());
    }
    match dnd_kind_field(kind) {
        Ok(k) => {
            match k {
                DndKind::Message => {
                    cfg.dnd_block_message = block;
                },
                DndKind::GameInvite => {
                    cfg.dnd_block_game_invite = block;
                },
                DndKind::Ptt => {
                    cfg.dnd_block_ptt = block;
                },
                DndKind::Plugin => {
                    cfg.dnd_block_plugin = block;
                },
                DndKind::Custom => {
                    cfg.dnd_block_custom = block;
                },
            }
            Ok(())
        },
        Err(e) => Err(e),
    }
}

/// A switch of the filter in words.
pub open spec fn block_word(b: bool) -> Seq<char> {
    if b {
        "BLOCKED"@
    } else {
        "allowed"@
    }
}

/// Writes a switch of the filter behind its name.
fn block_line(name: &str, b: bool) -> (r: String)
    ensures
        r@ == name@ + block_word(b),
{
    name.to_owned().concat(
        if b {
            "BLOCKED"
        } else {
            "allowed"
        },
    )
}

/// The filter as it is printed.
pub open spec fn dnd_lines(cfg: Config) -> Seq<Seq<char>> {
    seq![
        "DND filter (active when `presence == dnd`):"@,
        "  message:     "@ + block_word(cfg.dnd_block_message),
        "  game_invite: "@ + block_word(cfg.dnd_block_game_invite),
        "  ptt:         "@ + block_word(cfg.dnd_block_ptt),
        "  plugin:      "@ + block_word(cfg.dnd_block_plugin),
        "  custom:      "@ + block_word(cfg.dnd_block_custom),
    ]
}

/// Prints the filter.
fn dnd_show(cfg: &Config) -> (r: Vec<String>)
    ensures
        views(r@) == dnd_lines(*cfg),
{
    let mut out: Vec<String> = Vec::new();
    out.push("DND filter (active when `presence == dnd`):".to_owned());
    out.push(block_line("  message:     ", cfg.dnd_block_message));
    out.push(block_line("  game_invite: ", cfg.dnd_block_game_invite));
    out.push(block_line("  ptt:         ", cfg.dnd_block_ptt));
    out.push(block_line("  plugin:      ", cfg.dnd_block_plugin));
    out.push(block_line("  custom:      ", cfg.dnd_block_custom));
    assert(views(out@) =~= dnd_lines(*cfg));
    out
}

/// Whether the result of setting a switch is the right one.
pub open spec fn dnd_set(
    before: Config,
    after: Config,
    kind: Seq<char>,
    block: bool,
    r: Result<Outcome, String>,
) -> bool {
    match dnd_after(before, kind, block) {
        Some(c) => {
            &&& after == c
            &&& r is Ok
            &&& r->Ok_0@ == saved_for_restart(
                "DND block `"@ + kind + (if block {
                    "` → on"@
                } else {
                    "` → off (still receivable while in DND)"@
                }),
            )
        },
        None => {
            &&& after == before
            &&& r is Err
            &&& r->Err_0@ == "unknown kind `"@ + kind
                + "` — use one of: message, game-invite, ptt, plugin, custom, all"@
        },
    }
}

/// Does a command about the filter of Do Not Disturb.
pub fn dnd_cmd(cfg: &mut Config, op: &DndCmd) -> (r: Result<Outcome, String>)
    ensures
        match op {
            DndCmd::Show => *final(cfg) == *old(cfg) && r is Ok && r->Ok_0@ == (OutcomeView {
                save: false,
                lines: dnd_lines(*old(cfg)),
            }),
            DndCmd::Block { kind } => dnd_set(*old(cfg), *final(cfg), kind@, true, r),
            DndCmd::Allow { kind } => dnd_set(*old(cfg), *final(cfg), kind@, false, r),
        },
{
    match op {
        DndCmd::Show => Ok(Outcome { save: false, lines: dnd_show(cfg) }),
        DndCmd::Block { kind } => match set_dnd(cfg, kind.as_str(), true) {
            Ok(_) => {
                Ok(
                    save_for_restart(
                        "DND block `".to_owned().concat(kind.as_str()).concat("` → on"),
                    ),
                )
            },
            Err(e) => Err(e),
        },
        DndCmd::Allow { kind } => match set_dnd(cfg, kind.as_str(), false) {
            Ok(_) => {
                Ok(
                    save_for_restart(
                        "DND block `".to_owned().concat(kind.as_str()).concat(
                            "` → off (still receivable while in DND)",
                        ),
                    ),
                )
            },
            Err(e) => Err(e),
        },
    }
}

/// Whether a switch of the filter is set.
pub open spec fn blocks(cfg: Config, kind: DndKind) -> bool {
    match kind {
        DndKind::Message => cfg.dnd_block_message,
        DndKind::GameInvite => cfg.dnd_block_game_invite,
        DndKind::Ptt => cfg.dnd_block_ptt,
        DndKind::Plugin => cfg.dnd_block_plugin,
        DndKind::Custom => cfg.dnd_block_custom,
    }
}

/// A switch is as it was last set, and setting one leaves the others alone.
pub proof fn dnd_switches_are_independent(
    cfg: Config,
    kind: DndKind,
    block: bool,
    other: DndKind,
)
    ensures
        blocks(with_dnd(cfg, kind, block), other) == (if other == kind {
            block
        } else {
            blocks(cfg, other)
        }),
        blocks(with_all_dnd(cfg, block), other) == block,
{
}

// ---- microphones ----

/// A command about microphones.
pub enum MicCmd {
    List,
    Pick { id: usize },
    Default,
}

/// A microphone as it is listed.
pub open spec fn mic_line(i: int, name: Seq<char>, active: Option<Seq<char>>) -> Seq<char> {
    "  "@ + (if active == Some(name) {
        "*"@
    } else {
        " "@
    }) + " ["@ + decimal(i as nat) + "] "@ + name
}

/// The microphones as they are listed.
pub open spec fn mic_lines(
    active: Option<Seq<char>>,
    devices: Result<Seq<Seq<char>>, Seq<char>>,
) -> Seq<Seq<char>> {
    let head = seq![
        "active: "@ + (match active {
            Some(a) => a,
            None => "(default)"@,
        }),
        "available:"@,
    ];
    match devices {
        Err(e) => head.push("  error: "@ + e),
        Ok(ds) => if ds.len() == 0 {
            head.push("  (no input devices)"@)
        } else {
            (head + Seq::new(ds.len(), |i: int| mic_line(i, ds[i], active))).push(
                "\nselect with: `sociacli mic set <id>`"@,
            )
        },
    }
}

/// The view of a list of microphones.
pub open spec fn devices_view(d: Result<Vec<String>, String>) -> Result<
    Seq<Seq<char>>,
    Seq<char>,
> {
    match d {
        Ok(v) => Ok(views(v@)),
        Err(e) => Err(e@),
    }
}

/// Lists the microphones.
fn mic_list(active: &Option<String>, devices: &Result<Vec<String>, String>) -> (r: Vec<String>)
    ensures
        views(r@) == mic_lines(opt_view(*active), devices_view(*devices)),
{
    let mut out: Vec<String> = Vec::new();
    out.push("active: ".to_owned().concat(text_or_word(active, "(default)").as_str()));
    out.push("available:".to_owned());
    let ghost head = views(out@);
    assert(head =~= seq![
        "active: "@ + (match opt_view(*active) {
            Some(a) => a,
            None => "(default)"@,
        }),
        "available:"@,
    ]);
    match devices {
        Err(e) => {
            out.push("  error: ".to_owned().concat(e.as_str()));
        },
        Ok(ds) => {
            if ds.len() == 0 {
                out.push("  (no input devices)".to_owned());
            } else {
                let mut i: usize = 0;
                while i < ds.len()
                    invariant
                        i <= ds.len(),
                        head.len() == 2,
                        out@.len() == 2 + i,
                        views(out@).take(2) == head,
                        forall|k: int|
                            0 <= k < i ==> (#[trigger] out@[2 + k])@ == mic_line(
                                k,
                                ds@[k]@,
                                opt_view(*active),
                            ),
                    decreases ds.len() - i,
                {
                    let is_active = match active {
                        Some(a) => same(a.as_str(), ds[i].as_str()),
                        None => false,
                    };
                    let marker = if is_active {
                        "*"
                    } else {
                        " "
                    };
                    let ghost done = out@;
                    out.push(
                        "  ".to_owned().concat(marker).concat(" [").concat(
                            to_decimal(i as u64).as_str(),
                        ).concat("] ").concat(ds[i].as_str()),
                    );
                    assert(views(out@).take(2) =~= views(done).take(2));
                    i += 1;
                }
                assert(views(out@) =~= head + Seq::new(
                    ds@.len(),
                    |k: int| mic_line(k, views(ds@)[k], opt_view(*active)),
                )) by {
                    assert forall|k: int| 0 <= k < views(out@).len() implies views(out@)[k] == (head
                        + Seq::new(
                        ds@.len(),
                        |k: int| mic_line(k, views(ds@)[k], opt_view(*active)),
                    ))[k] by {
                        if k < 2 {
                            assert(views(out@).take(2)[k] == head[k]);
                        } else {
                            assert(out@[2 + (k - 2)]@ == mic_line(
                                k - 2,
                                ds@[k - 2]@,
                                opt_view(*active),
                            ));
                        }
                    }
                }
                let ghost listed = views(out@);
                out.push("\nselect with: `sociacli mic set <id>`".to_owned());
                assert(views(out@) =~= listed.push("\nselect with: `sociacli mic set <id>`"@));
            }
        },
    }
    assert(views(out@) =~= mic_lines(opt_view(*active), devices_view(*devices)));
    out
}

/// Whether a command about microphones is done right.
pub open spec fn mic_done(
    before: Config,
    after: Config,
    op: MicCmd,
    devices: Result<Vec<String>, String>,
    r: Result<Outcome, String>,
) -> bool {
    match op {
        MicCmd::List => after == before && r is Ok && r->Ok_0@ == (OutcomeView {
            save: false,
            lines: mic_lines(opt_view(before.ptt_input_device), devices_view(devices)),
        }),
        MicCmd::Pick { id } => match devices {
            Err(e) => after == before && r is Err && r->Err_0@ == e@,
            Ok(ds) => if id < ds@.len() {
                &&& after == (Config {
                    ptt_input_device: Some(ds@[id as int]),
                    ..before
                })
                &&& r is Ok
                &&& r->Ok_0@ == saved_for_restart(
                    "PTT mic ["@ + decimal(id as nat) + "] → "@ + ds@[id as int]@,
                )
            } else {
                &&& after == before
                &&& r is Err
                &&& r->Err_0@ == "no input device with id "@ + decimal(id as nat)
                    + " — `sociacli mic list` shows "@ + decimal(ds@.len()) + " device(s)"@
            },
        },
        MicCmd::Default => after == (Config { ptt_input_device: None, ..before })
            && r is Ok && r->Ok_0@ == saved_for_restart("PTT mic reset to OS default"@),
    }
}

/// Does a command about microphones, given those that there are.
pub fn mic_cmd(cfg: &mut Config, op: &MicCmd, devices: Result<Vec<String>, String>) -> (r: Result<
    Outcome,
    String,
>)
    ensures
        mic_done(*old(cfg), *final(cfg), *op, devices, r),
{
    match op {
        MicCmd::List => Ok(
            Outcome { save: false, lines: mic_list(&cfg.ptt_input_device, &devices) },
        ),
        MicCmd::Pick { id } => {
            let ds = match devices {
                Ok(ds) => ds,
                Err(e) => {
                    return Err(e);
                },
            };
            let number = to_decimal(*id as u64);
            if *id < ds.len() {
                let name = ds[*id].clone();
                let line = "PTT mic [".to_owned().concat(number.as_str()).concat("] → ").concat(
                    name.as_str(),
                );
                cfg.ptt_input_device = Some(name);
                Ok(save_for_restart(line))
            } else {
                Err(
                    "no input device with id ".to_owned().concat(number.as_str()).concat(
                        " — `sociacli mic list` shows ",
                    ).concat(to_decimal(ds.len() as u64).as_str()).concat(" device(s)"),
                )
            }
        },
        MicCmd::Default => {
            cfg.ptt_input_device = None;
            Ok(save_for_restart("PTT mic reset to OS default".to_owned()))
        },
    }
}

// ---- recording a key combination ----

/// A key, as far as it matters for a shortcut.
pub enum Key {
    Char(char),
    F(u8),
    Tab,
    Backspace,
    Enter,
    Up,
    Down,
    Left,
    Right,
    Esc,
    Other,
}

/// The modifiers that are held with a key.
pub struct Modifiers {
    pub ctrl: bool,
    pub alt: bool,
    pub shift: bool,
    pub super_key: bool,
}

/// Whether a character is an ASCII letter.
pub open spec fn is_letter(c: char) -> bool {
    ('a' <= c <= 'z') || ('A' <= c <= 'Z')
}

/// The name of a key in a combination; nothing for a key that cannot be bound.
pub open spec fn key_name(k: Key) -> Option<Seq<char>> {
    match k {
        Key::Char(c) => if c == ' ' {
            Some("Space"@)
        } else if is_letter(c) {
            Some("Key"@.push(ascii_upper(c)))
        } else if '0' <= c <= '9' {
            Some("Digit"@.push(c))
        } else {
            None
        },
        Key::F(n) => if 1 <= n <= 24 {
            Some("F"@ + decimal(n as nat))
        } else {
            None
        },
        Key::Tab => Some("Tab"@),
        Key::Backspace => Some("Backspace"@),
        Key::Enter => Some("Enter"@),
        Key::Up => Some("ArrowUp"@),
        Key::Down => Some("ArrowDown"@),
        Key::Left => Some("ArrowLeft"@),
        Key::Right => Some("ArrowRight"@),
        Key::Esc => None,
        Key::Other => None,
    }
}

/// A modifier in front of a combination, where it is held.
pub open spec fn held(down: bool, name: Seq<char>) -> Seq<char> {
    if down {
        name + "+"@
    } else {
        Seq::empty()
    }
}

/// The combination of modifiers and a key with a name.
pub open spec fn combo_of(m: Modifiers, name: Seq<char>) -> Seq<char> {
    held(m.ctrl, "Ctrl"@) + held(m.alt, "Alt"@) + held(m.shift, "Shift"@) + held(
        m.super_key,
        "Super"@,
    ) + name
}

/// What comes of a key while a combination is recorded.
pub enum Recorded {
    /// Nothing: go on listening.
    Nothing,
    Cancelled,
    Combo(String),
}

/// Writes the name of a key.
fn name_of(k: &Key) -> (r: Option<String>)
    ensures
        opt_view(r) == key_name(*k),
{
    match k {
        Key::Char(c) => {
            let c = *c;
            if c == ' ' {
                Some("Space".to_owned())
            } else if 'a' <= c && c <= 'z' {
                let mut s = "Key".to_owned();
                s.push(crate::text::upper(c));
                Some(s)
            } else if 'A' <= c && c <= 'Z' {
                let mut s = "Key".to_owned();
                s.push(c);
                Some(s)
            } else if '0' <= c && c <= '9' {
                let mut s = "Digit".to_owned();
                s.push(c);
                Some(s)
            } else {
                None
            }
        },
        Key::F(n) => if 1 <= *n && *n <= 24 {
            Some("F".to_owned().concat(to_decimal(*n as u64).as_str()))
        } else {
            None
        },
        Key::Tab => Some("Tab".to_owned()),
        Key::Backspace => Some("Backspace".to_owned()),
        Key::Enter => Some("Enter".to_owned()),
        Key::Up => Some("ArrowUp".to_owned()),
        Key::Down => Some("ArrowDown".to_owned()),
        Key::Left => Some("ArrowLeft".to_owned()),
        Key::Right => Some("ArrowRight".to_owned()),
        Key::Esc => None,
        Key::Other => None,
    }
}

/// Writes a modifier behind what is written already.
fn hold(s: String, down: bool, name: &str) -> (r: String)
    ensures
        r@ == s@ + held(down, name@),
{
    if down {
        let r = s.concat(name).concat("+");
        assert(r@ =~= s@ + (name@ + "+"@));
        r
    } else {
        assert(s@ + Seq::<char>::empty() =~= s@);
        s
    }
}

/// Whether a key that was pressed is recorded right.
pub open spec fn combo_recorded(key: Key, mods: Modifiers, released: bool, r: Recorded) -> bool {
    match r {
        Recorded::Nothing => released || (!(key is Esc) && key_name(key) is None),
        Recorded::Cancelled => !released && key is Esc,
        Recorded::Combo(c) => !released && key_name(key) is Some && c@ == combo_of(
            mods,
            key_name(key)->0,
        ),
    }
}

/// Receives a key while a combination is recorded: Escape ends it, a key that
/// can be bound completes it, anything else (a release, a modifier alone) is
/// passed over.
pub fn record_combo(key: &Key, mods: &Modifiers, released: bool) -> (r: Recorded)
    ensures
        combo_recorded(*key, *mods, released, r),
{
    if released {
        return Recorded::Nothing;
    }
    if let Key::Esc = key {
        return Recorded::Cancelled;
    }
    match name_of(key) {
        Some(name) => {
            let s = hold(String::new(), mods.ctrl, "Ctrl");
            assert(s@ =~= held(mods.ctrl, "Ctrl"@));
            let s = hold(s, mods.alt, "Alt");
            let s = hold(s, mods.shift, "Shift");
            let s = hold(s, mods.super_key, "Super");
            Recorded::Combo(s.concat(name.as_str()))
        },
        None => Recorded::Nothing,
    }
}

// ---- shortcuts ----

/// What `global_hotkey` objects to in a key combination; nothing where it takes
/// it.
pub uninterp spec fn combo_objection(combo: Seq<char>) -> Option<Seq<char>>;

/// `global_hotkey::hotkey::HotKey::from_str`, for its objection. It takes every
/// combination of modifiers and a key that can be recorded here.
#[verifier::external_body]
fn check_combo(combo: &str) -> (r: Option<String>)
    ensures
        opt_view(r) == combo_objection(combo@),
        forall|m: Modifiers, k: Key|
            key_name(k) is Some && combo@ == #[trigger] combo_of(m, key_name(k)->0) ==> r is None,
{
    combo.parse::<global_hotkey::hotkey::HotKey>().err().map(|e| e.to_string())
}

/// Whether a key combination can be bound. One that was recorded always can.
pub fn combo_is_valid(combo: &str) -> (r: bool)
    ensures
        r == (combo_objection(combo@) is None),
        forall|m: Modifiers, k: Key|
            key_name(k) is Some && combo@ == #[trigger] combo_of(m, key_name(k)->0) ==> r,
{
    check_combo(combo).is_none()
}

/// The shortcuts as they are listed.
pub open spec fn shortcut_lines(pairs: Seq<(String, String)>) -> Seq<Seq<char>> {
    Seq::new(pairs.len(), |i: int| padded(pairs[i].0@, 10) + " "@ + pairs[i].1@)
}

/// What `shortcut list` prints.
pub open spec fn shortcut_listing(pairs: Seq<(String, String)>) -> Seq<Seq<char>> {
    (if pairs.len() == 0 {
        seq!["(no shortcuts — set with `sociacli shortcut set <action> <combo>`)"@]
    } else {
        shortcut_lines(pairs)
    }).push(
        "\nActions: open, ptt. Examples:\n  sociacli shortcut set open Ctrl+Alt+Shift+KeyF\n  sociacli shortcut set ptt  Ctrl+Alt+KeyT"@,
    )
}

/// Lists the shortcuts, in the order of the actions.
pub fn shortcut_list(cfg: &Config) -> (r: Vec<String>)
    ensures
        views(r@) == shortcut_listing(cfg.shortcuts.pairs()),
        rising(cfg.shortcuts.pairs()),
{
    let mut out: Vec<String> = Vec::new();
    let n = cfg.shortcuts.len();
    if n == 0 {
        out.push("(no shortcuts — set with `sociacli shortcut set <action> <combo>`)".to_owned());
    }
    let mut i: usize = 0;
    while i < n
        invariant
            i <= n,
            n == cfg.shortcuts.pairs().len(),
            n > 0 ==> out@.len() == i,
            n > 0 ==> forall|k: int|
                0 <= k < i ==> (#[trigger] out@[k])@ == shortcut_lines(cfg.shortcuts.pairs())[k],
            n == 0 ==> views(out@) == seq![
                "(no shortcuts — set with `sociacli shortcut set <action> <combo>`)"@,
            ],
        decreases n - i,
    {
        let (action, combo) = cfg.shortcuts.at(i);
        out.push(pad(action.as_str(), 10).concat(" ").concat(combo.as_str()));
        i += 1;
    }
    let ghost listed = views(out@);
    assert(n > 0 ==> listed =~= shortcut_lines(cfg.shortcuts.pairs()));
    out.push(
        "\nActions: open, ptt. Examples:\n  sociacli shortcut set open Ctrl+Alt+Shift+KeyF\n  sociacli shortcut set ptt  Ctrl+Alt+KeyT".to_owned(),
    );
    assert(views(out@) =~= shortcut_listing(cfg.shortcuts.pairs()));
    out
}

/// The listing is that of the bindings: each has its line, and each line but the
/// last is that of one.
pub proof fn bindings_are_listed(m: StrMap<String>, action: Seq<char>)
    requires
        rising(m.pairs()),
        m.pairs().len() > 0,
    ensures
        text_map(m).contains_key(action) ==> shortcut_listing(m.pairs()).contains(
            padded(action, 10) + " "@ + text_map(m)[action],
        ),
        forall|i: int|
            0 <= i < m.pairs().len() ==> text_map(m).contains_key((#[trigger] m.pairs()[i]).0@)
                && shortcut_listing(m.pairs())[i] == padded(m.pairs()[i].0@, 10) + " "@ + text_map(
                m,
            )[m.pairs()[i].0@],
{
    pairs_are_the_map(m);
    if text_map(m).contains_key(action) {
        assert(m@.contains_key(action));
        let k = place(m.pairs(), action);
        assert(m.pairs()[k].0@ == action);
        assert(shortcut_listing(m.pairs())[k] == padded(action, 10) + " "@ + text_map(m)[action]);
    }
}

/// Whether there is an action to bind under a name.
pub open spec fn is_bindable(action: Seq<char>) -> bool {
    action == "open"@ || action == "ptt"@
}

/// Whether what can be bound is let through, and all else refused.
pub open spec fn action_checked(action: Seq<char>, r: Result<(), String>) -> bool {
    match r {
        Ok(_) => is_bindable(action),
        Err(e) => !is_bindable(action) && e@ == "unknown action `"@ + action
            + "` — use one of: open, ptt"@,
    }
}

/// Refuses to bind what is no action. This comes before a combination is asked
/// for.
pub fn check_action(action: &str) -> (r: Result<(), String>)
    ensures
        action_checked(action@, r),
{
    if same(action, "open") || same(action, "ptt") {
        Ok(())
    } else {
        Err("unknown action `".to_owned().concat(action).concat("` — use one of: open, ptt"))
    }
}

/// Binds a key combination to an action, given what is objected to it.
pub fn bind_checked(
    cfg: &mut Config,
    action: &str,
    combo: &str,
    objection: Option<&str>,
) -> (r: Result<Outcome, String>)
    ensures
        match objection {
            Some(e) => *final(cfg) == *old(cfg) && r is Err && r->Err_0@ == "bad key combo `"@
                + combo@ + "`: "@ + e@,
            None => {
                &&& *final(cfg) == (Config { shortcuts: final(cfg).shortcuts, ..*old(cfg) })
                &&& text_map(final(cfg).shortcuts) == text_map(old(cfg).shortcuts).insert(
                    action@,
                    combo@,
                )
                &&& r is Ok
                &&& r->Ok_0@ == saved(
                    "bound "@ + action@ + " → "@ + combo@ + " (run `daemon restart` to apply)"@,
                )
            },
        },
{
    if let Some(e) = objection {
        return Err("bad key combo `".to_owned().concat(combo).concat("`: ").concat(e));
    }
    let ghost before = text_map(cfg.shortcuts);
    cfg.shortcuts.insert(action.to_owned(), combo.to_owned());
    assert(text_map(cfg.shortcuts) =~= before.insert(action@, combo@));
    Ok(
        save_and_say(
            "bound ".to_owned().concat(action).concat(" → ").concat(combo).concat(
                " (run `daemon restart` to apply)",
            ),
        ),
    )
}

/// Binds a key combination to an action: an action that there is, and a
/// combination that `global_hotkey` takes.
pub fn shortcut_set(cfg: &mut Config, action: &str, combo: &str) -> (r: Result<Outcome, String>)
    ensures
        if !is_bindable(action@) {
            *final(cfg) == *old(cfg) && r is Err && r->Err_0@ == "unknown action `"@ + action@
                + "` — use one of: open, ptt"@
        } else {
            match combo_objection(combo@) {
                Some(e) => *final(cfg) == *old(cfg) && r is Err && r->Err_0@ == "bad key combo `"@
                    + combo@ + "`: "@ + e,
                None => {
                    &&& *final(cfg) == (Config { shortcuts: final(cfg).shortcuts, ..*old(cfg) })
                    &&& text_map(final(cfg).shortcuts) == text_map(old(cfg).shortcuts).insert(
                        action@,
                        combo@,
                    )
                    &&& r is Ok
                    &&& r->Ok_0@ == saved(
                        "bound "@ + action@ + " → "@ + combo@
                            + " (run `daemon restart` to apply)"@,
                    )
                },
            }
        },
        forall|m: Modifiers, k: Key|
            is_bindable(action@) && key_name(k) is Some && combo@ == #[trigger] combo_of(
                m,
                key_name(k)->0,
            ) ==> r is Ok,
{
    match check_action(action) {
        Ok(_) => {},
        Err(e) => {
            return Err(e);
        },
    }
    match check_combo(combo) {
        Some(e) => bind_checked(cfg, action, combo, Some(e.as_str())),
        None => bind_checked(cfg, action, combo, None),
    }
}

/// Takes the binding of an action away, if it has one.
pub fn shortcut_clear(cfg: &mut Config, action: &str) -> (r: Outcome)
    ensures
        *final(cfg) == (Config { shortcuts: final(cfg).shortcuts, ..*old(cfg) }),
        text_map(final(cfg).shortcuts) == text_map(old(cfg).shortcuts).remove(action@),
        r@ == saved("cleared "@ + action@),
{
    let ghost before = text_map(cfg.shortcuts);
    let _ = cfg.shortcuts.remove(action);
    assert(text_map(cfg.shortcuts) =~= before.remove(action@));
    save_and_say("cleared ".to_owned().concat(action))
}

// ---- settings ----

/// A command about settings.
pub enum SettingsCmd {
    Show,
    RadioEffect { enabled: bool },
    RadioBeeps { enabled: bool },
    /// The master switch of the background daemon.
    Background { enabled: bool },
    NotifyAutoDismiss { enabled: bool },
    NotifyAutoDismissMs { ms: u32 },
    NotifyShowList { enabled: bool },
    NotifyFriendPresence { enabled: bool },
    NotifyFriendRequests { enabled: bool },
}

/// The settings as they are printed.
pub open spec fn settings_lines(cfg: Config) -> Seq<Seq<char>> {
    seq![
        "radio_effect:           "@ + true_false(cfg.radio_effect),
        "radio_beeps:            "@ + true_false(cfg.radio_beeps),
        "auto_update:            "@ + true_false(cfg.auto_update_check),
        "background_enabled:     "@ + true_false(cfg.background_enabled),
        "autostart_installed:    "@ + true_false(cfg.autostart_installed),
        "notify_auto_dismiss:    "@ + true_false(cfg.notify_auto_dismiss),
        "notify_auto_dismiss_ms: "@ + decimal(cfg.notify_auto_dismiss_ms as nat),
        "notify_show_list:       "@ + true_false(cfg.notify_show_list),
        "notify_friend_presence: "@ + true_false(cfg.notify_friend_presence),
        "notify_friend_requests: "@ + true_false(cfg.notify_friend_requests),
    ]
}

/// A truth value behind its name.
fn truth_line(name: &str, b: bool) -> (r: String)
    ensures
        r@ == name@ + true_false(b),
{
    name.to_owned().concat(truth_word(b))
}

/// Prints the settings.
fn settings_show(cfg: &Config) -> (r: Vec<String>)
    ensures
        views(r@) == settings_lines(*cfg),
{
    let mut out: Vec<String> = Vec::new();
    out.push(truth_line("radio_effect:           ", cfg.radio_effect));
    out.push(truth_line("radio_beeps:            ", cfg.radio_beeps));
    out.push(truth_line("auto_update:            ", cfg.auto_update_check));
    out.push(truth_line("background_enabled:     ", cfg.background_enabled));
    out.push(truth_line("autostart_installed:    ", cfg.autostart_installed));
    out.push(truth_line("notify_auto_dismiss:    ", cfg.notify_auto_dismiss));
    out.push(
        "notify_auto_dismiss_ms: ".to_owned().concat(
            to_decimal(cfg.notify_auto_dismiss_ms as u64).as_str(),
        ),
    );
    out.push(truth_line("notify_show_list:       ", cfg.notify_show_list));
    out.push(truth_line("notify_friend_presence: ", cfg.notify_friend_presence));
    out.push(truth_line("notify_friend_requests: ", cfg.notify_friend_requests));
    assert(views(out@) =~= settings_lines(*cfg));
    out
}

/// The settings after a command about them.
pub open spec fn settings_after(cfg: Config, op: SettingsCmd) -> Config {
    match op {
        SettingsCmd::Show => cfg,
        SettingsCmd::RadioEffect { enabled } => Config { radio_effect: enabled, ..cfg },
        SettingsCmd::RadioBeeps { enabled } => Config { radio_beeps: enabled, ..cfg },
        SettingsCmd::Background { enabled } => Config { background_enabled: enabled, ..cfg },
        SettingsCmd::NotifyAutoDismiss { enabled } => Config {
            notify_auto_dismiss: enabled,
            ..cfg
        },
        SettingsCmd::NotifyAutoDismissMs { ms } => Config { notify_auto_dismiss_ms: ms, ..cfg },
        SettingsCmd::NotifyShowList { enabled } => Config { notify_show_list: enabled, ..cfg },
        SettingsCmd::NotifyFriendPresence { enabled } => Config {
            notify_friend_presence: enabled,
            ..cfg
        },
        SettingsCmd::NotifyFriendRequests { enabled } => Config {
            notify_friend_requests: enabled,
            ..cfg
        },
    }
}

/// What a command about settings comes to. The switch of the background daemon
/// says nothing yet: what there is to say depends on what becomes of the
/// autostart entry.
pub open spec fn settings_outcome(cfg: Config, op: SettingsCmd) -> OutcomeView {
    match op {
        SettingsCmd::Show => OutcomeView { save: false, lines: settings_lines(cfg) },
        SettingsCmd::RadioEffect { enabled } => saved("radio_effect "@ + on_off(enabled)),
        SettingsCmd::RadioBeeps { enabled } => saved("radio_beeps "@ + on_off(enabled)),
        SettingsCmd::Background { .. } => OutcomeView { save: true, lines: Seq::empty() },
        SettingsCmd::NotifyAutoDismiss { enabled } => saved_for_restart(
            "notify_auto_dismiss "@ + on_off(enabled),
        ),
        SettingsCmd::NotifyAutoDismissMs { ms } => saved_for_restart(
            "notify_auto_dismiss_ms = "@ + decimal(ms as nat),
        ),
        SettingsCmd::NotifyShowList { enabled } => saved_for_restart(
            "notify_show_list "@ + on_off(enabled),
        ),
        SettingsCmd::NotifyFriendPresence { enabled } => saved_for_restart(
            "notify_friend_presence "@ + on_off(enabled),
        ),
        SettingsCmd::NotifyFriendRequests { enabled } => saved_for_restart(
            "notify_friend_requests "@ + on_off(enabled),
        ),
    }
}

/// A switch behind its name.
fn switch_line(name: &str, b: bool) -> (r: String)
    ensures
        r@ == name@ + on_off(b),
{
    name.to_owned().concat(switch_word(b))
}

/// Sets `radio_effect`.
fn set_radio_effect(cfg: &mut Config, value: bool)
    ensures
        *final(cfg) == (Config { radio_effect: value, ..*old(cfg) }),
{
    cfg.radio_effect = value;
}

/// Sets `radio_beeps`.
fn set_radio_beeps(cfg: &mut Config, value: bool)
    ensures
        *final(cfg) == (Config { radio_beeps: value, ..*old(cfg) }),
{
    cfg.radio_beeps = value;
}

/// Sets `background_enabled`.
fn set_background_enabled(cfg: &mut Config, value: bool)
    ensures
        *final(cfg) == (Config { background_enabled: value, ..*old(cfg) }),
{
    cfg.background_enabled = value;
}

/// Sets `notify_auto_dismiss`.
fn set_notify_auto_dismiss(cfg: &mut Config, value: bool)
    ensures
        *final(cfg) == (Config { notify_auto_dismiss: value, ..*old(cfg) }),
{
    cfg.notify_auto_dismiss = value;
}

/// Sets `notify_auto_dismiss_ms`.
fn set_notify_auto_dismiss_ms(cfg: &mut Config, value: u32)
    ensures
        *final(cfg) == (Config { notify_auto_dismiss_ms: value, ..*old(cfg) }),
{
    cfg.notify_auto_dismiss_ms = value;
}

/// Sets `notify_show_list`.
fn set_notify_show_list(cfg: &mut Config, value: bool)
    ensures
        *final(cfg) == (Config { notify_show_list: value, ..*old(cfg) }),
{
    cfg.notify_show_list = value;
}

/// Sets `notify_friend_presence`.
fn set_notify_friend_presence(cfg: &mut Config, value: bool)
    ensures
        *final(cfg) == (Config { notify_friend_presence: value, ..*old(cfg) }),
{
    cfg.notify_friend_presence = value;
}

/// Sets `notify_friend_requests`.
fn set_notify_friend_requests(cfg: &mut Config, value: bool)
    ensures
        *final(cfg) == (Config { notify_friend_requests: value, ..*old(cfg) }),
{
    cfg.notify_friend_requests = value;
}

/// Changes the settings as a command about them says.
fn settings_set(cfg: &mut Config, op: &SettingsCmd)
    ensures
        *final(cfg) == settings_after(*old(cfg), *op),
{
    match op {
        SettingsCmd::Show => {
            return;
        },
        SettingsCmd::RadioEffect { enabled } => {
            set_radio_effect(cfg, *enabled);
            return;
        },
        SettingsCmd::RadioBeeps { enabled } => {
            set_radio_beeps(cfg, *enabled);
            return;
        },
        SettingsCmd::Background { enabled } => {
            set_background_enabled(cfg, *enabled);
            return;
        },
        SettingsCmd::NotifyAutoDismiss { enabled } => {
            set_notify_auto_dismiss(cfg, *enabled);
            return;
        },
        SettingsCmd::NotifyAutoDismissMs { ms } => {
            set_notify_auto_dismiss_ms(cfg, *ms);
            return;
        },
        SettingsCmd::NotifyShowList { enabled } => {
            set_notify_show_list(cfg, *enabled);
            return;
        },
        SettingsCmd::NotifyFriendPresence { enabled } => {
            set_notify_friend_presence(cfg, *enabled);
            return;
        },
        SettingsCmd::NotifyFriendRequests { enabled } => {
            set_notify_friend_requests(cfg, *enabled);
            return;
        },
    }
}

/// Says what a command about settings comes to.
fn settings_say(cfg: &Config, op: &SettingsCmd) -> (r: Outcome)
    ensures
        r@ == settings_outcome(*cfg, *op),
{
    match op {
        SettingsCmd::Show => Outcome { save: false, lines: settings_show(cfg) },
        SettingsCmd::RadioEffect { enabled } => save_and_say(
            switch_line("radio_effect ", *enabled),
        ),
        SettingsCmd::RadioBeeps { enabled } => save_and_say(switch_line("radio_beeps ", *enabled)),
        SettingsCmd::Background { .. } => {
            let none: Vec<String> = Vec::new();
            assert(views(none@) =~= Seq::<Seq<char>>::empty());
            Outcome { save: true, lines: none }
        },
        SettingsCmd::NotifyAutoDismiss { enabled } => save_for_restart(
            switch_line("notify_auto_dismiss ", *enabled),
        ),
        SettingsCmd::NotifyAutoDismissMs { ms } => save_for_restart(
            "notify_auto_dismiss_ms = ".to_owned().concat(to_decimal(*ms as u64).as_str()),
        ),
        SettingsCmd::NotifyShowList { enabled } => save_for_restart(
            switch_line("notify_show_list ", *enabled),
        ),
        SettingsCmd::NotifyFriendPresence { enabled } => save_for_restart(
            switch_line("notify_friend_presence ", *enabled),
        ),
        SettingsCmd::NotifyFriendRequests { enabled } => save_for_restart(
            switch_line("notify_friend_requests ", *enabled),
        ),
    }
}

/// Does a command about settings.
pub fn settings_cmd(cfg: &mut Config, op: &SettingsCmd) -> (r: Outcome)
    ensures
        *final(cfg) == settings_after(*old(cfg), *op),
        r@ == settings_outcome(*old(cfg), *op),
{
    let r = settings_say(cfg, op);
    settings_set(cfg, op);
    r
}

/// The settings with whether the autostart entry is there.
pub open spec fn autostart_noted(cfg: Config, installed: bool) -> Config {
    Config { autostart_installed: installed, ..cfg }
}

/// Whether the settings after background was switched on are the right ones: they
/// say that it starts by itself where that was set up.
pub open spec fn background_noted(
    before: Config,
    after: Config,
    installed: Result<String, String>,
    r: Outcome,
) -> bool {
    match installed {
        Ok(message) => {
            &&& after == autostart_noted(before, true)
            &&& r@ == saved("background on — "@ + message@)
        },
        Err(e) => {
            &&& after == before
            &&& r@ == (OutcomeView {
                save: false,
                lines: seq!["background on (autostart setup failed: "@ + e@ + ")"@],
            })
        },
    }
}

/// Notes what became of the autostart entry when the background daemon was
/// switched on.
pub fn background_on(cfg: &mut Config, installed: Result<String, String>) -> (r: Outcome)
    ensures
        background_noted(*old(cfg), *final(cfg), installed, r),
{
    match installed {
        Ok(message) => {
            cfg.autostart_installed = true;
            save_and_say("background on — ".to_owned().concat(message.as_str()))
        },
        Err(e) => Outcome {
            save: false,
            lines: one_line(
                "background on (autostart setup failed: ".to_owned().concat(e.as_str()).concat(")"),
            ),
        },
    }
}

/// Notes that the background daemon was switched off.
pub fn background_off(cfg: &mut Config) -> (r: Outcome)
    ensures
        *final(cfg) == autostart_noted(*old(cfg), false),
        r@ == saved("background off — autostart removed + running daemon stopped"@),
{
    cfg.autostart_installed = false;
    save_and_say("background off — autostart removed + running daemon stopped".to_owned())
}

/// Switches the daily look for updates.
pub fn auto_update_cmd(cfg: &mut Config, enabled: bool) -> (r: Outcome)
    ensures
        *final(cfg) == (Config { auto_update_check: enabled, ..*old(cfg) }),
        r@ == saved(
            "auto-update check "@ + (if enabled {
                "enabled"@
            } else {
                "disabled"@
            }),
        ),
{
    cfg.auto_update_check = enabled;
    save_and_say(
        "auto-update check ".to_owned().concat(
            if enabled {
                "enabled"
            } else {
                "disabled"
            },
        ),
    )
}

// ---- push-to-talk ----

/// A request to the daemon about a friend to talk to.
pub open spec fn talk_request_of(cmd: Seq<char>, friend: Seq<char>) -> JsonView {
    JsonView::Obj(map!["cmd"@ => JsonView::Str(cmd), "friend"@ => JsonView::Str(friend)])
}

/// Asks the daemon to talk to a friend.
pub fn ptt_start_request(friend: &str) -> (r: Json)
    ensures
        r@ == talk_request_of("ptt-start"@, friend@),
{
    Fields::new().with_text("cmd", "ptt-start").with_text("friend", friend).done()
}

/// Tells the daemon whom to talk to.
pub fn ptt_friend_request(friend: &str) -> (r: Json)
    ensures
        r@ == talk_request_of("set-ptt-friend"@, friend@),
{
    Fields::new().with_text("cmd", "set-ptt-friend").with_text("friend", friend).done()
}

/// What a session that was asked for comes to, going by the daemon's reply.
pub open spec fn session_result(friend: Seq<char>, reply: Option<JsonView>) -> Result<
    Seq<char>,
    Seq<char>,
> {
    match reply {
        Some(v) if v.flag("ok"@) => Ok(
            "PTT live with "@ + friend + " (continuous) — `ptt-stop` to end."@,
        ),
        Some(v) if v.get("error"@) is Some => Err(v.text_or("error"@, "ptt error"@)),
        _ => Err("daemon didn't acknowledge ptt-start"@),
    }
}

/// Reads the daemon's reply to a session that was asked for.
pub fn session_reply(friend: &str, reply: Option<&Json>) -> (r: Result<String, String>)
    ensures
        session_result(
            friend@,
            match reply {
                Some(v) => Some(v@),
                None => None,
            },
        ) == (match r {
            Ok(line) => Ok::<Seq<char>, Seq<char>>(line@),
            Err(e) => Err::<Seq<char>, Seq<char>>(e@),
        }),
{
    if let Some(v) = reply {
        if v.flag("ok") {
            return Ok(
                "PTT live with ".to_owned().concat(friend).concat(
                    " (continuous) — `ptt-stop` to end.",
                ),
            );
        }
        if v.get("error").is_some() {
            return Err(v.text_or("error", "ptt error"));
        }
    }
    Err("daemon didn't acknowledge ptt-start".to_owned())
}

/// Refuses to arm the push-to-talk key for a friend who cannot be reached.
pub fn cannot_arm(friend: &str, reason: &str) -> (r: String)
    ensures
        r@ == "can't start PTT with "@ + friend@ + ": "@ + reason@,
{
    "can't start PTT with ".to_owned().concat(friend).concat(": ").concat(reason)
}

/// The key combination of an action, or a word for none.
pub open spec fn combo_or(
    shortcuts: Map<Seq<char>, Seq<char>>,
    action: Seq<char>,
    none: Seq<char>,
) -> Seq<char> {
    if shortcuts.contains_key(action) {
        shortcuts[action]
    } else {
        none
    }
}

/// Writes the key combination of an action, or a word for none.
pub fn combo_or_word(cfg: &Config, action: &str, none: &str) -> (r: String)
    ensures
        r@ == combo_or(text_map(cfg.shortcuts), action@, none@),
{
    match cfg.shortcuts.get(action) {
        Some(c) => c.clone(),
        None => none.to_owned(),
    }
}

/// Whether the settings are as before but for whom the push-to-talk key calls.
pub open spec fn talk_friend_set(
    before: Config,
    after: Config,
    friend: Option<Seq<char>>,
) -> bool {
    &&& after == (Config { default_ptt_friend: after.default_ptt_friend, ..before })
    &&& opt_view(after.default_ptt_friend) == friend
}

/// What is printed when the key is armed for a friend.
pub open spec fn armed_lines(cfg: Config, friend: Seq<char>) -> Seq<Seq<char>> {
    seq![
        "PTT target: "@ + friend + ". HOLD `"@ + combo_or(
            text_map(cfg.shortcuts),
            "ptt"@,
            "(no PTT hotkey bound — `shortcut set ptt <combo>`)"@,
        ) + "` to talk."@,
        "(Pass `--continuous` to start an always-on session instead.)"@,
    ]
}

/// Arms the push-to-talk key for a friend.
pub fn ptt_arm(cfg: &mut Config, friend: &str) -> (r: Outcome)
    ensures
        talk_friend_set(*old(cfg), *final(cfg), Some(friend@)),
        r@ == (OutcomeView { save: true, lines: armed_lines(*old(cfg), friend@) }),
{
    let combo = combo_or_word(cfg, "ptt", "(no PTT hotkey bound — `shortcut set ptt <combo>`)");
    cfg.default_ptt_friend = Some(friend.to_owned());
    Outcome {
        save: true,
        lines: two_lines(
            "PTT target: ".to_owned().concat(friend).concat(". HOLD `").concat(
                combo.as_str(),
            ).concat("` to talk."),
            "(Pass `--continuous` to start an always-on session instead.)".to_owned(),
        ),
    }
}

/// What `ptt-stop` prints.
pub open spec fn stop_words(daemon_running: bool) -> Seq<char> {
    if daemon_running {
        "PTT stopped"@
    } else {
        "no daemon — nothing to stop"@
    }
}

/// Says whether there was a session to stop.
pub fn ptt_stop_line(daemon_running: bool) -> (r: &'static str)
    ensures
        r@ == stop_words(daemon_running),
{
    if daemon_running {
        "PTT stopped"
    } else {
        "no daemon — nothing to stop"
    }
}

/// Sets whom the push-to-talk key calls; `none` is nobody.
pub fn ptt_friend_cmd(cfg: &mut Config, friend: &str) -> (r: Outcome)
    ensures
        talk_friend_set(
            *old(cfg),
            *final(cfg),
            if friend@ == "none"@ {
                None
            } else {
                Some(friend@)
            },
        ),
        r@ == saved(
            "default PTT friend: "@ + (if friend@ == "none"@ {
                "(none)"@
            } else {
                friend@
            }),
        ),
{
    if same(friend, "none") {
        cfg.default_ptt_friend = None;
        save_and_say("default PTT friend: ".to_owned().concat("(none)"))
    } else {
        cfg.default_ptt_friend = Some(friend.to_owned());
        save_and_say("default PTT friend: ".to_owned().concat(friend))
    }
}

// ---- the background daemon ----

/// Notes that the autostart entry is there.
pub fn service_installed(cfg: &mut Config, message: String) -> (r: Outcome)
    ensures
        *final(cfg) == autostart_noted(*old(cfg), true),
        r@ == saved(message@),
{
    cfg.autostart_installed = true;
    save_and_say(message)
}

/// Notes that the autostart entry is gone.
pub fn service_uninstalled(cfg: &mut Config, message: String) -> (r: Outcome)
    ensures
        *final(cfg) == autostart_noted(*old(cfg), false),
        r@ == saved(message@),
{
    cfg.autostart_installed = false;
    save_and_say(message)
}

/// What `service status` prints.
pub open spec fn status_lines(status: Seq<char>, running: bool) -> Seq<Seq<char>> {
    seq![status, "daemon running: "@ + true_false(running)]
}

/// Says how the autostart entry and the daemon are.
pub fn service_status(status: String, running: bool) -> (r: Vec<String>)
    ensures
        views(r@) == status_lines(status@, running),
{
    two_lines(status, truth_line("daemon running: ", running))
}

/// A command about the running daemon.
#[derive(Debug, Clone, Copy, PartialEq, Eq, Structural)]
pub enum DaemonCmd {
    Start,
    Stop,
    Restart,
    Status,
}

/// A step of such a command.
#[derive(Debug, Clone, Copy, PartialEq, Eq, Structural)]
pub enum DaemonStep {
    /// Stop the daemon that is running.
    Stop,
    /// Let the port go free.
    Pause,
    /// Start a daemon.
    Start,
    /// Wait until it answers.
    Wait,
    /// Say how it went.
    Say,
}

/// How long a restart pauses between the old daemon and the new one.
pub const RESTART_PAUSE_MS: u64 = 300;

/// How long to wait for a daemon that was started, and how often to look.
pub const START_WAIT_MS: u64 = 3000;

/// The pause between two looks.
pub const START_POLL_MS: u64 = 100;

/// How long to wait before the next look, while there is something to wait for.
pub open spec fn wait_of(waited_ms: u64, running: bool) -> Option<u64> {
    if !running && waited_ms < START_WAIT_MS {
        Some(START_POLL_MS)
    } else {
        None
    }
}

/// Goes on with the wait for a daemon that was started: the pause before the next
/// look, or nothing when it answers or has had its time.
pub fn wait_for_daemon(waited_ms: u64, running: bool) -> (r: Option<u64>)
    ensures
        r == wait_of(waited_ms, running),
{
    if !running && waited_ms < START_WAIT_MS {
        Some(START_POLL_MS)
    } else {
        None
    }
}

/// The steps of a command about the daemon. A daemon that is running is not
/// started again, and one that is not is not stopped.
pub open spec fn daemon_steps(op: DaemonCmd, running: bool) -> Seq<DaemonStep> {
    match op {
        DaemonCmd::Start => if running {
            seq![DaemonStep::Say]
        } else {
            seq![DaemonStep::Start, DaemonStep::Wait, DaemonStep::Say]
        },
        DaemonCmd::Stop => if running {
            seq![DaemonStep::Stop, DaemonStep::Say]
        } else {
            seq![DaemonStep::Say]
        },
        DaemonCmd::Restart => if running {
            seq![
                DaemonStep::Stop,
                DaemonStep::Pause,
                DaemonStep::Start,
                DaemonStep::Wait,
                DaemonStep::Say,
            ]
        } else {
            seq![DaemonStep::Start, DaemonStep::Wait, DaemonStep::Say]
        },
        DaemonCmd::Status => seq![DaemonStep::Say],
    }
}

/// What a command about the daemon says at its end.
pub open spec fn daemon_words(op: DaemonCmd, running: bool) -> Seq<char> {
    match op {
        DaemonCmd::Start => if running {
            "daemon already running"@
        } else {
            "daemon started"@
        },
        DaemonCmd::Stop => if running {
            "daemon stopped"@
        } else {
            "no daemon running"@
        },
        DaemonCmd::Restart => "daemon restarted"@,
        DaemonCmd::Status => if running {
            "daemon: running"@
        } else {
            "daemon: not running"@
        },
    }
}

/// Plans a command about the daemon, given whether one is running.
pub fn daemon_cmd(op: DaemonCmd, running: bool) -> (r: (Vec<DaemonStep>, &'static str))
    ensures
        r.0@ == daemon_steps(op, running),
        r.1@ == daemon_words(op, running),
{
    let mut out: Vec<DaemonStep> = Vec::new();
    let starts = match op {
        DaemonCmd::Start => !running,
        DaemonCmd::Restart => true,
        _ => false,
    };
    if running {
        match op {
            DaemonCmd::Stop => out.push(DaemonStep::Stop),
            DaemonCmd::Restart => {
                out.push(DaemonStep::Stop);
                out.push(DaemonStep::Pause);
            },
            _ => {},
        }
    }
    if starts {
        out.push(DaemonStep::Start);
        out.push(DaemonStep::Wait);
    }
    out.push(DaemonStep::Say);
    let words = match op {
        DaemonCmd::Start => if running {
            "daemon already running"
        } else {
            "daemon started"
        },
        DaemonCmd::Stop => if running {
            "daemon stopped"
        } else {
            "no daemon running"
        },
        DaemonCmd::Restart => "daemon restarted",
        DaemonCmd::Status => if running {
            "daemon: running"
        } else {
            "daemon: not running"
        },
    };
    assert(out@ =~= daemon_steps(op, running));
    (out, words)
}

/// The process that a pidfile names, where it names one: the digits of a number,
/// with white space around them allowed and a plus sign in front.
pub fn read_pid(raw: &str) -> (r: Option<u32>)
    ensures
        r == crate::text::number_in(trimmed(raw@)),
{
    crate::text::parse_u32(trim(raw).as_str())
}

} // verus!
