//! What a plugin's script can call.
//!
//! Each function here is the logic of one entry of the global table `sociacli`.
//! Values of the script come in and go out as [`LuaValue`]s.
use vstd::prelude::*;
#[allow(unused_imports)]
use vstd::utf8::{decode_utf8, valid_utf8};

use base64::Engine;
use sha2::Digest;

use crate::json::{Fields, Json};
#[allow(unused_imports)]
use crate::json::{empty_obj, json_pretty_text, json_text, parsed_json, trees, JsonView};
use crate::lua::{json_to_lua, lua_to_json, LuaValue};
#[allow(unused_imports)]
use crate::lua::{is_lua_of, is_made_from, json_view, lua_tree, tree_survives};
use crate::overlay_ipc::OverlayEvent;
#[allow(unused_imports)]
use crate::overlay_ipc::EventView;
use crate::plugin::{payload_envelope, save_store, store_or_empty, Manifest, Plugin};
#[allow(unused_imports)]
use crate::plugin::{envelope_of, store_tree};
use crate::protocol::send_action;
#[allow(unused_imports)]
use crate::protocol::action_frame;
use crate::text::{from_utf8_lossy, same};
#[allow(unused_imports)]
use crate::text::lossy_text;

verus! {

/// The circumstances in which a plugin runs.
pub struct RunCtx {
    pub me: String,
    pub username: Option<String>,
    pub server_url: String,
    /// Who invoked it, where it was not oneself.
    pub from: Option<String>,
    pub args: Json,
    pub plugin: Plugin,
    /// Whether it runs in the daemon, which can send frames to the server.
    pub in_daemon: bool,
    /// Whether there is an overlay to show events.
    pub has_overlay: bool,
}

// ---- what a script can read ----

/// An object with one more text member, where there is a text.
pub open spec fn with_opt(
    m: Map<Seq<char>, JsonView>,
    key: Seq<char>,
    s: Option<String>,
) -> Map<Seq<char>, JsonView> {
    match s {
        Some(s) => m.insert(key, JsonView::Str(s@)),
        None => m,
    }
}

/// What a script can read of the plugin.
pub open spec fn plugin_table(p: Plugin) -> JsonView {
    JsonView::Obj(
        map![
            "id"@ => JsonView::Str(p.manifest.id@),
            "name"@ => JsonView::Str(p.manifest.name@),
            "version"@ => JsonView::Str(p.manifest.version@),
            "author"@ => JsonView::Str(p.manifest.author@),
            "description"@ => JsonView::Str(p.manifest.description@),
            "capabilities"@ => JsonView::Arr(
                Seq::new(
                    p.manifest.capabilities@.len(),
                    |i: int| JsonView::Str(p.manifest.capabilities@[i]@),
                ),
            ),
            "dir"@ => JsonView::Str(p.dir@),
        ],
    )
}

/// The plain values of the table `sociacli`: who one is, who called, what the
/// plugin is, and the settings that a script may know.
pub open spec fn sdk_table(ctx: RunCtx) -> JsonView {
    let config = with_opt(
        map!["server_url"@ => JsonView::Str(ctx.server_url@)],
        "username"@,
        ctx.username,
    );
    let identity = with_opt(
        with_opt(map!["me"@ => JsonView::Str(ctx.me@)], "username"@, ctx.username),
        "from"@,
        ctx.from,
    );
    JsonView::Obj(
        identity.insert("plugin"@, plugin_table(ctx.plugin)).insert(
            "config"@,
            JsonView::Obj(config),
        ),
    )
}

/// Adds a text member, where there is a text.
fn add_opt(f: Fields, key: &str, s: &Option<String>) -> (r: Fields)
    ensures
        r@ == with_opt(f@, key@, *s),
{
    match s {
        Some(s) => f.with_text(key, s.as_str()),
        None => f,
    }
}

/// A list of texts.
fn text_list(v: &Vec<String>) -> (r: Json)
    ensures
        r@ == JsonView::Arr(Seq::new(v@.len(), |i: int| JsonView::Str(v@[i]@))),
{
    let mut out: Vec<Json> = Vec::new();
    let mut i: usize = 0;
    while i < v.len()
        invariant
            i <= v.len(),
            out@.len() == i,
            forall|k: int| 0 <= k < i ==> (#[trigger] out@[k])@ == JsonView::Str(v@[k]@),
        decreases v.len() - i,
    {
        out.push(Json::text(v[i].as_str()));
        i += 1;
    }
    proof {
        crate::json::array_tree(out);
        assert(trees(out@) =~= Seq::new(v@.len(), |i: int| JsonView::Str(v@[i]@)));
    }
    Json::Arr(out)
}

/// Makes the plain values of the table `sociacli`.
pub fn build_sdk(ctx: &RunCtx) -> (r: Json)
    ensures
        r@ == sdk_table(*ctx),
{
    let m = &ctx.plugin.manifest;
    let plugin = Fields::new().with_text("id", m.id.as_str()).with_text(
        "name",
        m.name.as_str(),
    ).with_text("version", m.version.as_str()).with_text("author", m.author.as_str()).with_text(
        "description",
        m.description.as_str(),
    ).with("capabilities", text_list(&m.capabilities)).with_text(
        "dir",
        ctx.plugin.dir.as_str(),
    ).done();
    let config = add_opt(
        Fields::new().with_text("server_url", ctx.server_url.as_str()),
        "username",
        &ctx.username,
    ).done();
    let identity = add_opt(Fields::new().with_text("me", ctx.me.as_str()), "username", &ctx.username);
    let identity = add_opt(identity, "from", &ctx.from);
    identity.with("plugin", plugin).with("config", config).done()
}

/// The circumstances of a message, as a script sees them.
pub open spec fn context_tree(ctx: RunCtx) -> JsonView {
    JsonView::Obj(
        map![
            "from"@ => JsonView::Str(
                match ctx.from {
                    Some(f) => f@,
                    None => ""@,
                },
            ),
            "me"@ => JsonView::Str(ctx.me@),
        ],
    )
}

/// What `on_message` is told of an invocation.
pub fn message_context(ctx: &RunCtx) -> (r: Json)
    ensures
        r@ == context_tree(*ctx),
{
    let from = match &ctx.from {
        Some(f) => f.as_str(),
        None => "",
    };
    Fields::new().with_text("from", from).with_text("me", ctx.me.as_str()).done()
}

/// The name under which errors of a plugin's script are reported.
pub fn chunk_name(m: &Manifest) -> (r: String)
    ensures
        r@ == "plugin:"@ + m.id@,
{
    "plugin:".to_owned().concat(m.id.as_str())
}

// ---- telling the user ----

/// How loud a message of the log is.
#[derive(Debug, Clone, Copy, PartialEq, Eq, Structural)]
pub enum Level {
    Error,
    Warn,
    Debug,
    Info,
}

/// How loud a word is.
pub open spec fn level_of(level: Seq<char>) -> Level {
    if level == "error"@ {
        Level::Error
    } else if level == "warn"@ {
        Level::Warn
    } else if level == "debug"@ {
        Level::Debug
    } else {
        Level::Info
    }
}

/// How loud a message of the log is; any other word is as loud as `info`.
pub fn log_level(level: &str) -> (r: Level)
    ensures
        r == level_of(level@),
{
    if same(level, "error") {
        Level::Error
    } else if same(level, "warn") {
        Level::Warn
    } else if same(level, "debug") {
        Level::Debug
    } else {
        Level::Info
    }
}

/// How the user is told.
pub enum Notice {
    Event(OverlayEvent),
    Line(String),
}

/// Whether the user is told something right.
pub open spec fn notified(ctx: RunCtx, title: Seq<char>, body: Seq<char>, r: Notice) -> bool {
    match r {
        Notice::Event(e) => ctx.has_overlay && e@ == (EventView {
            kind: "action"@,
            payload: JsonView::Obj(
                map![
                    "from"@ => JsonView::Str(ctx.me@),
                    "action"@ => JsonView::Str("plugin"@),
                    "title"@ => JsonView::Str(title),
                    "body"@ => JsonView::Str(body),
                    "data"@ => JsonView::Obj(
                        map![
                            "plugin"@ => JsonView::Obj(
                                map!["id"@ => JsonView::Str(ctx.plugin.manifest.id@)],
                            ),
                        ],
                    ),
                ],
            ),
        }),
        Notice::Line(s) => !ctx.has_overlay && s@ == "[plugin notify] "@ + title + ": "@ + body,
    }
}

/// Tells the user something: with a card where there is an overlay, with a line
/// otherwise.
pub fn notify(ctx: &RunCtx, title: &str, body: &str) -> (r: Notice)
    ensures
        notified(*ctx, title@, body@, r),
{
    if ctx.has_overlay {
        let plugin = Fields::new().with_text("id", ctx.plugin.manifest.id.as_str()).done();
        Notice::Event(
            OverlayEvent::new(
                "action",
                Fields::new().with_text("from", ctx.me.as_str()).with_text(
                    "action",
                    "plugin",
                ).with_text("title", title).with_text("body", body).with(
                    "data",
                    Fields::new().with("plugin", plugin).done(),
                ).done(),
            ),
        )
    } else {
        Notice::Line("[plugin notify] ".to_owned().concat(title).concat(": ").concat(body))
    }
}

// ---- sending ----

/// The frame that a script sends, or why it cannot.
pub open spec fn sent_frame(
    in_daemon: bool,
    refusal: Seq<char>,
    to: Seq<char>,
    kind: Seq<char>,
    title: Seq<char>,
    body: Seq<char>,
    data: Result<JsonView, Seq<char>>,
) -> Result<JsonView, Seq<char>> {
    if !in_daemon {
        Err(refusal)
    } else {
        match data {
            Ok(d) => Ok(action_frame(to, kind, title, body, d)),
            Err(e) => Err(e),
        }
    }
}

/// What a script sends to invoke this plugin at a friend.
pub open spec fn invocation_sent(
    ctx: RunCtx,
    to: Seq<char>,
    args: Result<JsonView, Seq<char>>,
) -> Result<JsonView, Seq<char>> {
    sent_frame(
        ctx.in_daemon,
        "sociacli.send needs the daemon — run via on_message or inside `sociacli listen`"@,
        to,
        "plugin"@,
        ctx.plugin.manifest.name@,
        ctx.plugin.manifest.description@,
        match args {
            Ok(t) => Ok(envelope_of(ctx.plugin.manifest, t)),
            Err(e) => Err(e),
        },
    )
}

/// What a script sends as a message.
pub open spec fn message_sent(
    ctx: RunCtx,
    to: Seq<char>,
    title: Seq<char>,
    body: Seq<char>,
) -> Result<JsonView, Seq<char>> {
    sent_frame(
        ctx.in_daemon,
        "sociacli.message needs the daemon"@,
        to,
        "message"@,
        title,
        body,
        Ok(empty_obj()),
    )
}

/// What a script sends as an invite.
pub open spec fn invite_sent(
    ctx: RunCtx,
    to: Seq<char>,
    url: Seq<char>,
    title: Option<Seq<char>>,
) -> Result<JsonView, Seq<char>> {
    sent_frame(
        ctx.in_daemon,
        "sociacli.invite needs the daemon"@,
        to,
        "game_invite"@,
        match title {
            Some(t) => t,
            None => "Game invite"@,
        },
        url,
        Ok(JsonView::Obj(map!["url"@ => JsonView::Str(url)])),
    )
}

/// What a script sends as an action of any kind.
pub open spec fn action_sent(
    ctx: RunCtx,
    to: Seq<char>,
    kind: Seq<char>,
    title: Seq<char>,
    body: Seq<char>,
    data: Result<JsonView, Seq<char>>,
) -> Result<JsonView, Seq<char>> {
    sent_frame(
        ctx.in_daemon,
        "sociacli.action needs the daemon"@,
        to,
        kind,
        title,
        body,
        data,
    )
}

/// Invokes this plugin at a friend.
pub fn send(ctx: &RunCtx, to: &str, args: &LuaValue) -> (r: Result<Json, String>)
    ensures
        json_view(r) == invocation_sent(*ctx, to@, lua_tree(*args)),
{
    if !ctx.in_daemon {
        return Err(
            "sociacli.send needs the daemon — run via on_message or inside `sociacli listen`".to_owned(),
        );
    }
    match lua_to_json(args) {
        Ok(j) => {
            let m = &ctx.plugin.manifest;
            Ok(
                send_action(
                    to,
                    "plugin",
                    m.name.as_str(),
                    m.description.as_str(),
                    payload_envelope(&ctx.plugin, j),
                ),
            )
        },
        Err(e) => Err(e),
    }
}

/// Sends a friend a message.
pub fn message(ctx: &RunCtx, to: &str, title: &str, body: &str) -> (r: Result<Json, String>)
    ensures
        json_view(r) == message_sent(*ctx, to@, title@, body@),
{
    if !ctx.in_daemon {
        return Err("sociacli.message needs the daemon".to_owned());
    }
    Ok(send_action(to, "message", title, body, Json::object()))
}

/// Sends a friend an invite.
pub fn invite(ctx: &RunCtx, to: &str, url: &str, title: Option<&str>) -> (r: Result<Json, String>)
    ensures
        json_view(r) == invite_sent(
            *ctx,
            to@,
            url@,
            match title {
                Some(t) => Some(t@),
                None => None,
            },
        ),
{
    if !ctx.in_daemon {
        return Err("sociacli.invite needs the daemon".to_owned());
    }
    let title = match title {
        Some(t) => t,
        None => "Game invite",
    };
    Ok(send_action(to, "game_invite", title, url, Fields::new().with_text("url", url).done()))
}

/// Sends a friend an action of any kind.
pub fn action(
    ctx: &RunCtx,
    to: &str,
    kind: &str,
    title: &str,
    body: &str,
    data: Option<&LuaValue>,
) -> (r: Result<Json, String>)
    ensures
        json_view(r) == action_sent(
            *ctx,
            to@,
            kind@,
            title@,
            body@,
            match data {
                Some(v) => lua_tree(*v),
                None => Ok(empty_obj()),
            },
        ),
{
    if !ctx.in_daemon {
        return Err("sociacli.action needs the daemon".to_owned());
    }
    let data = match data {
        Some(v) => match lua_to_json(v) {
            Ok(j) => j,
            Err(e) => {
                return Err(e);
            },
        },
        None => Json::object(),
    };
    Ok(send_action(to, kind, title, body, data))
}

// ---- the store ----

/// The view of a store file.
pub open spec fn raw_view(raw: Option<&str>) -> Option<Seq<char>> {
    match raw {
        Some(t) => Some(t@),
        None => None,
    }
}

/// What is got out of a store.
pub open spec fn store_value(raw: Option<Seq<char>>, key: Seq<char>) -> Option<JsonView> {
    store_tree(raw).get(key)
}

/// A store with a value set.
pub open spec fn store_with(raw: Option<Seq<char>>, key: Seq<char>, value: JsonView) -> JsonView {
    store_tree(raw).put(key, value)
}

/// A store with a value deleted.
pub open spec fn store_sans(raw: Option<Seq<char>>, key: Seq<char>) -> JsonView {
    store_tree(raw).without(key)
}

/// Gets a value out of the store. `raw` is the store file, where there is one.
pub fn store_get(raw: Option<&str>, key: &str) -> (r: LuaValue)
    ensures
        match store_value(raw_view(raw), key@) {
            Some(t) => is_made_from(t, r) && (tree_survives(t) ==> (lua_tree(r) == Ok::<
                JsonView,
                Seq<char>,
            >(t))),
            None => r is Nil,
        },
{
    let store = store_or_empty(raw);
    match store.get(key) {
        Some(j) => {
            let value = json_to_lua(j);
            assert(is_made_from(j@, value)) by {
                assert(is_lua_of(*j, value));
            }
            value
        },
        None => LuaValue::Nil,
    }
}

/// Sets a value in the store: the new store file, or why the value cannot be
/// stored.
pub fn store_set(raw: Option<&str>, key: &str, value: &LuaValue) -> (r: Result<String, String>)
    ensures
        match lua_tree(*value) {
            Ok(t) => r is Ok && r->Ok_0@ == json_pretty_text(store_with(raw_view(raw), key@, t)),
            Err(e) => r is Err && r->Err_0@ == e,
        },
{
    let store = store_or_empty(raw);
    match lua_to_json(value) {
        Ok(j) => Ok(save_store(&store.put(key, j))),
        Err(e) => Err(e),
    }
}

/// Deletes a value from the store: the new store file.
pub fn store_delete(raw: Option<&str>, key: &str) -> (r: String)
    ensures
        r@ == json_pretty_text(store_sans(raw_view(raw), key@)),
{
    save_store(&store_or_empty(raw).without(key))
}

// ---- files and HTTP ----

/// Whether a script is let make a request, or told why not.
pub open spec fn request_allowed(ctx: RunCtx, name: Seq<char>, r: Result<(), String>) -> bool {
    match r {
        Ok(_) => ctx.in_daemon,
        Err(e) => !ctx.in_daemon && e@ == "sociacli."@ + name + " needs the daemon"@,
    }
}

/// Lets a script make a request only in the daemon. `name` is the function that
/// the script called.
pub fn http_allowed(ctx: &RunCtx, name: &str) -> (r: Result<(), String>)
    ensures
        request_allowed(*ctx, name@, r),
{
    if ctx.in_daemon {
        Ok(())
    } else {
        Err("sociacli.".to_owned().concat(name).concat(" needs the daemon"))
    }
}

/// Says what went wrong with a file or an address.
pub fn trouble(verb: &str, what: &str, error: &str) -> (r: String)
    ensures
        r@ == verb@ + " "@ + what@ + ": "@ + error@,
{
    verb.to_owned().concat(" ").concat(what).concat(": ").concat(error)
}

/// How a plugin introduces itself over HTTP.
pub fn user_agent(m: &Manifest) -> (r: String)
    ensures
        r@ == "sociacli-plugin/"@ + m.id@,
{
    "sociacli-plugin/".to_owned().concat(m.id.as_str())
}

/// What is posted.
pub enum PostBody {
    Nothing,
    /// A text, as it is.
    Text(String),
    /// Anything else, as JSON.
    Json(Json),
}

/// Whether what is posted is what a script gave.
pub open spec fn body_posted(body: Option<LuaValue>, r: Result<PostBody, String>) -> bool {
    match body {
        None => r is Ok && r->Ok_0 is Nothing,
        Some(LuaValue::Str(s)) => r is Ok && (r->Ok_0 matches PostBody::Text(t) && t@ == s@),
        Some(v) => match lua_tree(v) {
            Ok(t) => r is Ok && (r->Ok_0 matches PostBody::Json(j) && j@ == t),
            Err(e) => r is Err && r->Err_0@ == e,
        },
    }
}

/// Makes what is posted of the value that a script gave.
pub fn post_body(body: Option<&LuaValue>) -> (r: Result<PostBody, String>)
    ensures
        body_posted(
            match body {
                Some(v) => Some(*v),
                None => None,
            },
            r,
        ),
{
    match body {
        None => Ok(PostBody::Nothing),
        Some(v) => {
            if let LuaValue::Str(s) = v {
                return Ok(PostBody::Text(s.clone()));
            }
            match lua_to_json(v) {
                Ok(j) => Ok(PostBody::Json(j)),
                Err(e) => Err(e),
            }
        },
    }
}

/// The headers of a response, one after the other.
pub open spec fn header_members(h: Seq<(String, String)>) -> Map<Seq<char>, JsonView>
    decreases h.len(),
{
    if h.len() == 0 {
        Map::empty()
    } else {
        header_members(h.drop_last()).insert(h.last().0@, JsonView::Str(h.last().1@))
    }
}

/// A response as a script sees it.
pub open spec fn response_tree(
    status: u16,
    headers: Seq<(String, String)>,
    body: Seq<char>,
) -> JsonView {
    JsonView::Obj(
        map![
            "status"@ => JsonView::Int(status as int),
            "headers"@ => JsonView::Obj(header_members(headers)),
            "body"@ => JsonView::Str(body),
        ],
    )
}

/// What a script gets of a response: the status, the headers that are text, and
/// the body.
pub fn http_response(status: u16, headers: &Vec<(String, String)>, body: &str) -> (r: Json)
    ensures
        r@ == response_tree(status, headers@, body@),
{
    let mut fields = Fields::new();
    let mut i: usize = 0;
    assert(headers@.take(0) =~= Seq::empty());
    while i < headers.len()
        invariant
            i <= headers.len(),
            fields@ == header_members(headers@.take(i as int)),
        decreases headers.len() - i,
    {
        fields = fields.with_text(headers[i].0.as_str(), headers[i].1.as_str());
        proof {
            assert(headers@.take(i + 1).drop_last() == headers@.take(i as int));
            assert(headers@.take(i + 1).last() == headers@[i as int]);
        }
        i += 1;
    }
    assert(headers@.take(i as int) == headers@);
    Fields::new().with("status", Json::whole(status as i64)).with("headers", fields.done()).with_text(
        "body",
        body,
    ).done()
}

// ---- digests and encodings ----

/// The SHA-256 digest of bytes.
pub uninterp spec fn sha256_of(data: Seq<u8>) -> Seq<u8>;

/// The base64 text of bytes, in the standard alphabet and with padding.
pub uninterp spec fn base64_text(data: Seq<u8>) -> Seq<char>;

/// The bytes that a base64 text stands for, or the words of the complaint.
pub uninterp spec fn base64_bytes(text: Seq<char>) -> Result<Seq<u8>, Seq<char>>;

/// The hexadecimal digit of a number below sixteen.
pub open spec fn hex_digit(n: int) -> char {
    if n < 10 {
        (48 + n) as char
    } else {
        (87 + n) as char
    }
}

/// Bytes in hexadecimal, two lower-case digits each.
pub open spec fn hex_text(data: Seq<u8>) -> Seq<char> {
    Seq::new(
        2 * data.len(),
        |i: int|
            if i % 2 == 0 {
                hex_digit(data[i / 2] as int / 16)
            } else {
                hex_digit(data[i / 2] as int % 16)
            },
    )
}

/// `sha2::Sha256::digest`: 32 bytes.
#[verifier::external_body]
fn digest(data: &Vec<u8>) -> (r: Vec<u8>)
    ensures
        r@ == sha256_of(data@),
        r@.len() == 32,
{
    sha2::Sha256::digest(data).to_vec()
}

/// `hex::encode`. The text has to fit into memory.
#[verifier::external_body]
fn to_hex(data: &Vec<u8>) -> (r: String)
    requires
        2 * data@.len() <= isize::MAX,
    ensures
        r@ == hex_text(data@),
{
    hex::encode(data)
}

/// How long the base64 text of bytes is: four characters for every three bytes
/// that are begun.
pub open spec fn base64_len(bytes: int) -> int {
    (bytes + 2) / 3 * 4
}

/// `base64::Engine::encode` of the standard engine. The text has to fit into
/// memory.
#[verifier::external_body]
fn to_base64(data: &Vec<u8>) -> (r: String)
    requires
        base64_len(data@.len() as int) <= isize::MAX,
    ensures
        r@ == base64_text(data@),
        r@.len() == base64_len(data@.len() as int),
{
    base64::engine::general_purpose::STANDARD.encode(data)
}

/// `base64::Engine::decode` of the standard engine; the error by its words. It
/// undoes the encoding.
#[verifier::external_body]
fn from_base64(text: &str) -> (r: Result<Vec<u8>, String>)
    ensures
        base64_bytes(text@) == (match r {
            Ok(b) => Ok::<Seq<u8>, Seq<char>>(b@),
            Err(e) => Err::<Seq<u8>, Seq<char>>(e@),
        }),
        forall|b: Seq<u8>| text@ == #[trigger] base64_text(b) ==> r is Ok && r->Ok_0@ == b,
{
    base64::engine::general_purpose::STANDARD.decode(text).map_err(|e| e.to_string())
}

/// The SHA-256 digest of bytes, in hexadecimal.
pub fn sha256(data: &Vec<u8>) -> (r: String)
    ensures
        r@ == hex_text(sha256_of(data@)),
        r@.len() == 64,
{
    to_hex(&digest(data))
}

/// Encodes bytes in base64.
pub fn base64_encode(data: &Vec<u8>) -> (r: String)
    requires
        base64_len(data@.len() as int) <= isize::MAX,
    ensures
        r@ == base64_text(data@),
        r@.len() == base64_len(data@.len() as int),
{
    to_base64(data)
}

/// Decodes base64 to a text. A text that was encoded comes back.
pub fn base64_decode(text: &str) -> (r: Result<String, String>)
    ensures
        match base64_bytes(text@) {
            Ok(b) => r is Ok && r->Ok_0@ == lossy_text(b),
            Err(e) => r is Err && r->Err_0@ == e,
        },
        forall|b: Seq<u8>|
            text@ == #[trigger] base64_text(b) && valid_utf8(b) ==> r is Ok && r->Ok_0@
                == decode_utf8(b),
{
    match from_base64(text) {
        Ok(b) => Ok(from_utf8_lossy(&b)),
        Err(e) => Err(e),
    }
}

/// Writes a value as JSON.
pub fn json_encode(v: &LuaValue) -> (r: Result<String, String>)
    ensures
        match lua_tree(*v) {
            Ok(t) => r is Ok && r->Ok_0@ == json_text(t),
            Err(e) => r is Err && r->Err_0@ == e,
        },
{
    match lua_to_json(v) {
        Ok(j) => Ok(j.to_text()),
        Err(e) => Err(e),
    }
}

/// Reads a value from JSON.
pub fn json_decode(text: &str) -> (r: Result<LuaValue, String>)
    ensures
        match parsed_json(text@) {
            Ok(t) => r is Ok && is_made_from(t, r->Ok_0) && (tree_survives(t) ==> (lua_tree(r->Ok_0)
                == Ok::<JsonView, Seq<char>>(t))),
            Err(e) => r is Err && r->Err_0@ == e,
        },
{
    match Json::parse(text) {
        Ok(j) => {
            let value = json_to_lua(&j);
            assert(is_made_from(j@, value)) by {
                assert(is_lua_of(j, value));
            }
            Ok(value)
        },
        Err(e) => Err(e),
    }
}

} // verus!
