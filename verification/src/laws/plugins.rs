//! Plugins: invocations, the sandbox, scripts and their values.
use vstd::prelude::*;

#[allow(unused_imports)]
use crate::config::{opt_view, trust_given, trust_map, trust_taken, trusts, Config};
#[allow(unused_imports)]
use crate::dispatch::{plugin_done, Next, PluginCmd};
#[allow(unused_imports)]
use crate::friends::{is_uuid, label_of, named};
#[allow(unused_imports)]
use crate::json::{empty_obj, members, number_int, number_tree, Json, JsonView};
#[allow(unused_imports)]
use crate::lua::{
    index_key, is_lua_of, is_text_key, key_text, lua_tree, LuaKey, LuaTable, LuaValue,
};
#[allow(unused_imports)]
use crate::plugin::{
    ask_card, ask_words, envelope_of, incoming_done, is_within, kept_in, manifest_found, plugin_found, plugin_line, plugin_lines, plugin_with, store_in,
    store_tree, trust_key, trust_revoked, Incoming, Manifest, Plugin,
};
#[allow(unused_imports)]
use crate::protocol::Friend;
#[allow(unused_imports)]
use crate::sdk::{
    action_sent, body_posted, context_tree, header_members, hex_digit, hex_text, invite_sent, invocation_sent,
    level_of, message_sent, notified, plugin_table, request_allowed, response_tree, sdk_table,
    sent_frame, store_sans, store_value, store_with, with_opt, Level, Notice, PostBody, RunCtx,
};
#[allow(unused_imports)]
use crate::text::signed_decimal;
#[allow(unused_imports)]
use crate::words::{keys_differ, kinds_differ};

verus! {

// ---- invocations and trust ----

/// What a friend is sent to invoke a plugin tells everything that the friend
/// decides on, and carries the arguments.
pub proof fn invocations_tell_what_they_are(m: Manifest, args: JsonView)
    ensures
        ({
            let e = envelope_of(m, args);
            let p = e.member_or("plugin"@, JsonView::Null);
            &&& e.get("args"@) == Some(args)
            &&& p.text_member("id"@) == Some(m.id@)
            &&& p.text_member("name"@) == Some(m.name@)
            &&& p.text_member("version"@) == Some(m.version@)
            &&& p.text_member("author"@) == Some(m.author@)
            &&& p.text_member("description"@) == Some(m.description@)
        }),
{
    keys_differ();
}

/// Who is asked for trust is told who sent which plugin, with all it says of
/// itself, and the command that gives it.
pub proof fn trust_is_asked_for(
    from: Seq<char>,
    username: Seq<char>,
    m: Manifest,
    args: JsonView,
)
    ensures
        ask_words(from, m.id@, envelope_of(m, args).member_or("plugin"@, JsonView::Null))
            == "[plugin] AUTHORIZATION REQUIRED — "@ + from + " sent plugin `"@ + m.id@ + "` ("@
            + m.name@ + " v"@ + m.version@ + " by "@ + m.author@ + ").\n          "@
            + m.description@ + "\n          Authorize with:  sociacli plugin trust "@ + from + " "@
            + m.id@,
        ask_card(from, username, m.id@).kind == "action"@,
        ask_card(from, username, m.id@).payload.text_member("from"@) == Some(from),
        ask_card(from, username, m.id@).payload.text_member("from_username"@) == Some(username),
        ask_card(from, username, m.id@).payload.text_member("title"@) == Some(
            "AUTHORIZATION REQUIRED"@,
        ),
        ask_card(from, username, m.id@).payload.text_member("body"@) == Some(
            username + " sent plugin `"@ + m.id@ + "` — sociacli plugin trust "@ + username + " "@
                + m.id@,
        ),
{
    keys_differ();
    invocations_tell_what_they_are(m, args);
}

/// `plugin trust` lets the friend that is meant run that plugin, `plugin untrust`
/// keeps them from it, and neither touches what was said of any other plugin.
/// Both are saved.
pub proof fn trust_commands_decide_who_may_run_what(
    before: Config,
    after: Config,
    friends: Seq<Friend>,
    friend_id: String,
    plugin_id: String,
    r: Next,
    other: Seq<char>,
    who: Seq<char>,
)
    requires
        other != plugin_id@,
    ensures
        plugin_done(before, after, friends, PluginCmd::Trust { friend_id, plugin_id }, r) ==> {
            &&& (match named(friends, friend_id@) {
                Some(f) => !is_uuid(friend_id@) ==> trusts(
                    trust_map(after.plugin_trust),
                    plugin_id@,
                    f.id@,
                ),
                None => trusts(trust_map(after.plugin_trust), plugin_id@, friend_id@),
            })
            &&& is_uuid(friend_id@) ==> trusts(
                trust_map(after.plugin_trust),
                plugin_id@,
                friend_id@,
            )
            &&& trusts(trust_map(after.plugin_trust), other, who) == trusts(
                trust_map(before.plugin_trust),
                other,
                who,
            )
            &&& r is Done && r->Done_0@.save
            &&& r->Done_0@.lines == seq![
                "trusted: friend "@ + friend_id@ + " may run plugin `"@ + plugin_id@
                    + "` on this client"@,
            ]
        },
        plugin_done(before, after, friends, PluginCmd::Untrust { friend_id, plugin_id }, r) ==> {
            &&& !trusts(trust_map(after.plugin_trust), plugin_id@, friend_id@)
            &&& named(friends, friend_id@) matches Some(f) ==> !is_uuid(friend_id@) ==> !trusts(
                trust_map(after.plugin_trust),
                plugin_id@,
                f.id@,
            )
            &&& trusts(trust_map(after.plugin_trust), other, who) == trusts(
                trust_map(before.plugin_trust),
                other,
                who,
            )
            &&& r is Done && r->Done_0@.save
            &&& r->Done_0@.lines == seq![
                "revoked: friend "@ + friend_id@ + " for plugin `"@ + plugin_id@ + "`"@,
            ]
        },
{
    let m = trust_map(before.plugin_trust);
    crate::plugin::trust_reaches_the_friend(m, friends, friend_id@, plugin_id@);
    crate::plugin::revoked_friends_are_not_trusted(m, friends, friend_id@, plugin_id@);
    let key = trust_key(friends, friend_id@);
    crate::config::untrust_revokes(m, plugin_id@, key);
    crate::config::untrust_revokes(trust_taken(m, plugin_id@, key), plugin_id@, friend_id@);
}

/// The other commands about plugins are handed on with what was typed and change
/// no setting.
pub proof fn plugin_commands_are_handed_on(
    before: Config,
    after: Config,
    friends: Seq<Friend>,
    a: String,
    b: String,
    c: String,
    r: Next,
)
    ensures
        plugin_done(before, after, friends, PluginCmd::Install { path: a }, r) ==> after == before
            && r == (Next::InstallPlugin { path: a }),
        plugin_done(before, after, friends, PluginCmd::Run { id: a, args: b }, r) ==> after
            == before && r == (Next::RunPlugin { id: a, args: b }),
        plugin_done(before, after, friends, PluginCmd::Send { friend: a, id: b, args: c }, r)
            ==> after == before && r == (Next::SendPlugin { friend: a, id: b, args: c }),
        plugin_done(before, after, friends, PluginCmd::List, r) ==> after == before
            && r is ListPlugins,
{
}

/// The plugin that is found has the id that was asked for and is installed; where
/// none is found, none has it.
pub proof fn found_plugins_have_the_id(v: Seq<Plugin>, id: Seq<char>)
    ensures
        plugin_with(v, id) matches Some(p) ==> p.manifest.id@ == id && v.contains(p),
        plugin_with(v, id) is None ==> forall|i: int|
            0 <= i < v.len() ==> (#[trigger] v[i]).manifest.id@ != id,
    decreases v.len(),
{
    if v.len() > 0 {
        let rest = v.drop_first();
        found_plugins_have_the_id(rest, id);
        assert(v[0] == v.first());
        if v[0].manifest.id@ != id {
            if let Some(p) = plugin_with(rest, id) {
                let i = choose|i: int| 0 <= i < rest.len() && rest[i] == p;
                assert(v[i + 1] == p);
            } else {
                assert forall|i: int| 0 <= i < v.len() implies (#[trigger] v[i]).manifest.id@
                    != id by {
                    if i > 0 {
                        assert(v[i] == rest[i - 1]);
                    }
                }
            }
        }
    }
}

/// Every installed plugin has its line: id, version, name and description.
pub proof fn plugins_are_listed(v: Seq<Plugin>, dir: Seq<char>, i: int)
    requires
        0 <= i < v.len(),
    ensures
        plugin_lines(v, dir).len() == v.len(),
        plugin_lines(v, dir)[i] == v[i].manifest.id@ + " v"@ + v[i].manifest.version@ + "\t"@
            + v[i].manifest.name@ + "\t"@ + v[i].manifest.description@,
        plugin_lines(Seq::<Plugin>::empty(), dir) == seq![
            "(no plugins installed in "@ + dir + ")"@,
        ],
{
}

// ---- the sandbox and the store ----

/// A script may have what is under its directory and nothing else: the directory
/// itself and everything below it, nothing above it and nothing beside it.
pub proof fn scripts_are_kept_in(root: Seq<Vec<u8>>, below: Seq<Vec<u8>>, path: Seq<Vec<u8>>, i: int)
    ensures
        is_within(root + below, root),
        is_within(root, root),
        path.len() < root.len() ==> !is_within(path, root),
        0 <= i < root.len() && i < path.len() && path[i]@ != root[i]@ ==> !is_within(path, root),
{
    assert forall|k: int| 0 <= k < root.len() implies (#[trigger] root[k])@ == (root
        + below)[k]@ by {
        assert((root + below)[k] == root[k]);
    }
    if 0 <= i < root.len() && i < path.len() && path[i]@ != root[i]@ {
        assert(root[i]@ != path[i]@);
    }
}

/// A store file that holds an object is that object, one that holds anything else
/// is an empty store, and so is one that is not there or cannot be read.
pub proof fn stores_are_objects(text: Seq<char>, t: JsonView)
    ensures
        crate::json::parsed_json(text) == Ok::<JsonView, Seq<char>>(t) && t is Obj ==> store_tree(
            Some(text),
        ) == t,
        crate::json::parsed_json(text) == Ok::<JsonView, Seq<char>>(t) && !(t is Obj)
            ==> store_tree(Some(text)) == empty_obj(),
        crate::json::parsed_json(text) is Err ==> store_tree(Some(text)) == empty_obj() && store_in(
            Some(text),
        ) is Err,
        store_tree(None) == empty_obj(),
        store_in(None) is Ok,
{
}

// ---- scripts ----

/// A script knows who runs it, who called it where somebody did, what plugin it is
/// and which server the client uses.
pub proof fn scripts_know_their_circumstances(ctx: RunCtx)
    ensures
        ({
            let t = sdk_table(ctx);
            let p = t.member_or("plugin"@, JsonView::Null);
            let c = t.member_or("config"@, JsonView::Null);
            &&& t.text_member("me"@) == Some(ctx.me@)
            &&& t.text_member("username"@) == opt_view(ctx.username)
            &&& t.text_member("from"@) == opt_view(ctx.from)
            &&& c.text_member("server_url"@) == Some(ctx.server_url@)
            &&& c.text_member("username"@) == opt_view(ctx.username)
            &&& p.text_member("id"@) == Some(ctx.plugin.manifest.id@)
            &&& p.text_member("name"@) == Some(ctx.plugin.manifest.name@)
            &&& p.text_member("version"@) == Some(ctx.plugin.manifest.version@)
            &&& p.text_member("author"@) == Some(ctx.plugin.manifest.author@)
            &&& p.text_member("description"@) == Some(ctx.plugin.manifest.description@)
            &&& p.text_member("dir"@) == Some(ctx.plugin.dir@)
            &&& p.items_of("capabilities"@).len() == ctx.plugin.manifest.capabilities@.len()
            &&& forall|i: int|
                0 <= i < ctx.plugin.manifest.capabilities@.len() ==> #[trigger] p.items_of(
                    "capabilities"@,
                )[i] == JsonView::Str(ctx.plugin.manifest.capabilities@[i]@)
        }),
{
    keys_differ();
}

/// What a script sends goes to whom it says, as what it says and with what it says,
/// and only in the daemon.
pub proof fn scripts_send_in_the_daemon_only(
    in_daemon: bool,
    refusal: Seq<char>,
    to: Seq<char>,
    kind: Seq<char>,
    title: Seq<char>,
    body: Seq<char>,
    data: JsonView,
)
    ensures
        !in_daemon ==> sent_frame(in_daemon, refusal, to, kind, title, body, Ok(data)) == Err::<
            JsonView,
            Seq<char>,
        >(refusal),
        in_daemon ==> {
            let r = sent_frame(in_daemon, refusal, to, kind, title, body, Ok(data));
            &&& r is Ok
            &&& r->Ok_0.text_member("t"@) == Some("send_action"@)
            &&& r->Ok_0.text_member("to"@) == Some(to)
            &&& r->Ok_0.text_member("action"@) == Some(kind)
            &&& r->Ok_0.text_member("title"@) == Some(title)
            &&& r->Ok_0.text_member("body"@) == Some(body)
            &&& r->Ok_0.get("data"@) == Some(data)
        },
{
    keys_differ();
}

/// The headers of a response are found under their names; of two with one name
/// the later one.
pub proof fn headers_are_found(h: Seq<(String, String)>, last: (String, String), name: Seq<char>)
    ensures
        header_members(h.push(last)).contains_key(last.0@),
        header_members(h.push(last))[last.0@] == JsonView::Str(last.1@),
        name != last.0@ ==> header_members(h.push(last)).contains_key(name) == header_members(
            h,
        ).contains_key(name),
        name != last.0@ && header_members(h).contains_key(name) ==> header_members(
            h.push(last),
        )[name] == header_members(h)[name],
        header_members(Seq::<(String, String)>::empty()) == Map::<Seq<char>, JsonView>::empty(),
{
    assert(h.push(last).drop_last() =~= h);
}

/// Hexadecimal has two digits for each byte, the upper half first, each of which
/// is one of the sixteen in order; so two texts of bytes are equal only where the
/// bytes are.
pub proof fn hexadecimal_tells_bytes_apart(a: Seq<u8>, b: Seq<u8>, i: int)
    ensures
        hex_text(a).len() == 2 * a.len(),
        0 <= i < a.len() ==> hex_text(a)[2 * i] == hex_digit(a[i] as int / 16) && hex_text(
            a,
        )[2 * i + 1] == hex_digit(a[i] as int % 16),
        0 <= i < 10 ==> hex_digit(i) as int == '0' as int + i,
        10 <= i < 16 ==> hex_digit(i) as int == 'a' as int + i - 10,
        hex_text(a) == hex_text(b) ==> a == b,
{
    if hex_text(a) == hex_text(b) {
        assert(hex_text(a).len() == hex_text(b).len());
        assert forall|k: int| 0 <= k < a.len() implies a[k] == b[k] by {
            assert(hex_text(a)[2 * k] == hex_text(b)[2 * k]);
            assert(hex_text(a)[2 * k + 1] == hex_text(b)[2 * k + 1]);
            assert((2 * k) / 2 == k && (2 * k) % 2 == 0);
            assert((2 * k + 1) / 2 == k && (2 * k + 1) % 2 == 1);
            assert(a[k] as int / 16 == b[k] as int / 16);
            assert(a[k] as int % 16 == b[k] as int % 16);
        }
        assert(a =~= b);
    }
    if 0 <= i < a.len() {
        assert((2 * i) / 2 == i && (2 * i) % 2 == 0);
        assert((2 * i + 1) / 2 == i && (2 * i + 1) % 2 == 1);
    }
}

// ---- values of scripts ----

/// Plain values are the same in Lua and in JSON, both ways: nothing, truth,
/// integers and texts.
pub proof fn plain_values_stay_what_they_are(b: bool, i: i64, s: String, v: LuaValue)
    ensures
        lua_tree(LuaValue::Nil) == Ok::<JsonView, Seq<char>>(JsonView::Null),
        lua_tree(LuaValue::Boolean(b)) == Ok::<JsonView, Seq<char>>(JsonView::Bool(b)),
        lua_tree(LuaValue::Integer(i)) == Ok::<JsonView, Seq<char>>(JsonView::Int(i as int)),
        lua_tree(LuaValue::Str(s)) == Ok::<JsonView, Seq<char>>(JsonView::Str(s@)),
        lua_tree(LuaValue::NotText(s)) == Err::<JsonView, Seq<char>>(s@),
        lua_tree(LuaValue::Other) == Ok::<JsonView, Seq<char>>(JsonView::Null),
        lua_tree(LuaValue::NotFinite) == Ok::<JsonView, Seq<char>>(JsonView::Null),
        is_lua_of(Json::Null, v) ==> v is Nil,
        is_lua_of(Json::Bool(b), v) ==> v == LuaValue::Boolean(b),
        is_lua_of(Json::Str(s), v) ==> v is Str && v->Str_0@ == s@,
{
}

/// Lists count from one in Lua: the first item of a JSON list is at one, and what
/// is at a place of a Lua list is the item of that place.
pub proof fn lists_count_from_one(a: Vec<Json>, v: LuaValue, i: int)
    requires
        is_lua_of(Json::Arr(a), v),
        0 <= i < a@.len(),
        i < i64::MAX,
    ensures
        v is Table,
        v->Table_0.len == a@.len(),
        v->Table_0.pairs@[i].0 == LuaKey::Integer((i + 1) as i64),
        is_lua_of(a@[i], v->Table_0.pairs@[i].1),
{
}

/// The members of a JSON object are found under their names in Lua.
pub proof fn members_keep_their_names(m: Vec<(String, Json)>, v: LuaValue, i: int)
    requires
        is_lua_of(Json::Obj(m), v),
        0 <= i < m@.len(),
    ensures
        v is Table,
        v->Table_0.pairs@[i].0 is Str,
        v->Table_0.pairs@[i].0->Str_0@ == m@[i].0@,
        is_lua_of(m@[i].1, v->Table_0.pairs@[i].1),
{
}

/// A key of a table becomes a name: a text is its own, an integer its decimal; a
/// key that is neither is left out.
pub proof fn keys_become_names(i: i64, s: String)
    ensures
        key_text(LuaKey::Str(s)) == Ok::<Option<Seq<char>>, Seq<char>>(Some(s@)),
        key_text(LuaKey::Integer(i)) == Ok::<Option<Seq<char>>, Seq<char>>(
            Some(signed_decimal(i as int)),
        ),
        key_text(LuaKey::Number(s)) == Ok::<Option<Seq<char>>, Seq<char>>(Some(s@)),
        key_text(LuaKey::NotText(s)) == Err::<Option<Seq<char>>, Seq<char>>(s@),
        key_text(LuaKey::Other) == Ok::<Option<Seq<char>>, Seq<char>>(None),
{
}

// ---- what scripts and invocations do ----

/// An invocation runs only where its sender is trusted with the plugin it names,
/// and then that plugin with the arguments that came. Where the sender is not, the
/// user is asked; one that names no plugin is ignored.
pub proof fn only_trusted_friends_run_plugins(
    cfg: Config,
    friends: Seq<Friend>,
    from: Seq<char>,
    m: Manifest,
    args: JsonView,
    r: Incoming,
)
    requires
        incoming_done(cfg, friends, from, envelope_of(m, args), r),
    ensures
        r is Run <==> trusts(trust_map(cfg.plugin_trust), m.id@, from),
        r is Run ==> r->plugin_id@ == m.id@ && r->args@ == args,
        !(r is Run) ==> r is Ask && r->card@.payload.text_member("from"@) == Some(from),
{
    keys_differ();
}

/// An invocation that names no plugin never runs one and asks for nothing.
pub proof fn nameless_invocations_are_ignored(
    cfg: Config,
    friends: Seq<Friend>,
    from: Seq<char>,
    data: JsonView,
    r: Incoming,
)
    requires
        incoming_done(cfg, friends, from, data, r),
        data.get("plugin"@) is None,
    ensures
        r is Nameless,
{
}

/// A notice is shown in the overlay where there is one, from oneself and in the
/// name of the plugin, and printed otherwise; either has its title and its body.
pub proof fn notices_are_shown_or_printed(
    ctx: RunCtx,
    title: Seq<char>,
    body: Seq<char>,
    r: Notice,
)
    requires
        notified(ctx, title, body, r),
    ensures
        r is Event <==> ctx.has_overlay,
        r is Line ==> r->Line_0@ == "[plugin notify] "@ + title + ": "@ + body,
        r is Event ==> {
            let p = r->Event_0@.payload;
            &&& r->Event_0@.kind == "action"@
            &&& p.text_member("from"@) == Some(ctx.me@)
            &&& p.text_member("action"@) == Some("plugin"@)
            &&& p.text_member("title"@) == Some(title)
            &&& p.text_member("body"@) == Some(body)
            &&& p.member_or("data"@, JsonView::Null).member_or(
                "plugin"@,
                JsonView::Null,
            ).text_member("id"@) == Some(ctx.plugin.manifest.id@)
        },
{
    keys_differ();
}

/// What a script of the daemon sends: an invocation of its own plugin with the
/// arguments, a message with its title and body, an invite whose link is its body
/// and its data, and an action of any kind as given.
pub proof fn scripts_send_what_they_say(
    ctx: RunCtx,
    to: Seq<char>,
    kind: Seq<char>,
    title: Seq<char>,
    body: Seq<char>,
    data: JsonView,
)
    requires
        ctx.in_daemon,
    ensures
        ({
            let r = invocation_sent(ctx, to, Ok(data));
            &&& r is Ok
            &&& r->Ok_0.text_member("to"@) == Some(to)
            &&& r->Ok_0.text_member("action"@) == Some("plugin"@)
            &&& r->Ok_0.text_member("title"@) == Some(ctx.plugin.manifest.name@)
            &&& r->Ok_0.text_member("body"@) == Some(ctx.plugin.manifest.description@)
            &&& r->Ok_0.member_or("data"@, JsonView::Null).get("args"@) == Some(data)
            &&& r->Ok_0.member_or("data"@, JsonView::Null).member_or(
                "plugin"@,
                JsonView::Null,
            ).text_member("id"@) == Some(ctx.plugin.manifest.id@)
        }),
        ({
            let r = message_sent(ctx, to, title, body);
            &&& r is Ok
            &&& r->Ok_0.text_member("to"@) == Some(to)
            &&& r->Ok_0.text_member("action"@) == Some("message"@)
            &&& r->Ok_0.text_member("title"@) == Some(title)
            &&& r->Ok_0.text_member("body"@) == Some(body)
            &&& r->Ok_0.get("data"@) == Some(empty_obj())
        }),
        ({
            let r = invite_sent(ctx, to, body, Some(title));
            &&& r is Ok
            &&& r->Ok_0.text_member("to"@) == Some(to)
            &&& r->Ok_0.text_member("action"@) == Some("game_invite"@)
            &&& r->Ok_0.text_member("title"@) == Some(title)
            &&& r->Ok_0.text_member("body"@) == Some(body)
            &&& r->Ok_0.member_or("data"@, JsonView::Null).text_member("url"@) == Some(body)
        }),
        invite_sent(ctx, to, body, None) == invite_sent(ctx, to, body, Some("Game invite"@)),
        ({
            let r = action_sent(ctx, to, kind, title, body, Ok(data));
            &&& r is Ok
            &&& r->Ok_0.text_member("to"@) == Some(to)
            &&& r->Ok_0.text_member("action"@) == Some(kind)
            &&& r->Ok_0.text_member("title"@) == Some(title)
            &&& r->Ok_0.text_member("body"@) == Some(body)
            &&& r->Ok_0.get("data"@) == Some(data)
        }),
{
    keys_differ();
}

/// Outside the daemon a script sends nothing and makes no request, and is told
/// which function needs it; values that are no data are refused with the complaint.
pub proof fn scripts_are_refused_outside_the_daemon(
    ctx: RunCtx,
    to: Seq<char>,
    kind: Seq<char>,
    title: Seq<char>,
    body: Seq<char>,
    data: JsonView,
    e: Seq<char>,
    r: Result<(), String>,
)
    requires
        request_allowed(ctx, kind, r),
    ensures
        r is Ok <==> ctx.in_daemon,
        r is Err ==> r->Err_0@ == "sociacli."@ + kind + " needs the daemon"@,
        !ctx.in_daemon ==> {
            &&& invocation_sent(ctx, to, Ok(data)) is Err
            &&& message_sent(ctx, to, title, body) == Err::<JsonView, Seq<char>>(
                "sociacli.message needs the daemon"@,
            )
            &&& invite_sent(ctx, to, body, Some(title)) == Err::<JsonView, Seq<char>>(
                "sociacli.invite needs the daemon"@,
            )
            &&& action_sent(ctx, to, kind, title, body, Ok(data)) == Err::<JsonView, Seq<char>>(
                "sociacli.action needs the daemon"@,
            )
        },
        ctx.in_daemon ==> {
            &&& invocation_sent(ctx, to, Err(e)) == Err::<JsonView, Seq<char>>(e)
            &&& action_sent(ctx, to, kind, title, body, Err(e)) == Err::<JsonView, Seq<char>>(e)
        },
{
}

/// A store gives back what was set, forgets what was deleted, and keeps the rest.
pub proof fn stores_give_back_what_was_set(
    raw: Option<Seq<char>>,
    saved: Seq<char>,
    key: Seq<char>,
    value: JsonView,
    other: Seq<char>,
)
    ensures
        store_tree(Some(saved)) == store_with(raw, key, value) ==> store_value(Some(saved), key)
            == Some(value),
        store_tree(Some(saved)) == store_with(raw, key, value) && other != key ==> store_value(
            Some(saved),
            other,
        ) == store_value(raw, other),
        store_tree(Some(saved)) == store_sans(raw, key) ==> store_value(Some(saved), key) is None,
        store_tree(Some(saved)) == store_sans(raw, key) && other != key ==> store_value(
            Some(saved),
            other,
        ) == store_value(raw, other),
        store_value(None, key) is None,
{
}

/// What a script posts is what it gave: nothing, a text as it is, and anything else
/// as JSON.
pub proof fn scripts_post_what_they_give(
    s: String,
    v: LuaValue,
    tree: JsonView,
    r: Result<PostBody, String>,
)
    ensures
        body_posted(None, r) ==> r is Ok && r->Ok_0 is Nothing,
        body_posted(Some(LuaValue::Str(s)), r) ==> r is Ok && r->Ok_0 is Text && r->Ok_0->Text_0@
            == s@,
        body_posted(Some(v), r) && !(v is Str) && lua_tree(v) == Ok::<JsonView, Seq<char>>(tree)
            ==> r is Ok && r->Ok_0 is Json && r->Ok_0->Json_0@ == tree,
        body_posted(Some(v), r) && lua_tree(v) is Err ==> r is Err && r->Err_0@ == lua_tree(
            v,
        )->Err_0,
{
}

/// A response has its status, its body and its headers.
pub proof fn responses_are_whole(status: u16, headers: Seq<(String, String)>, body: Seq<char>)
    ensures
        ({
            let r = response_tree(status, headers, body);
            &&& r.get("status"@) == Some(JsonView::Int(status as int))
            &&& r.text_member("body"@) == Some(body)
            &&& r.get("headers"@) is Some
            &&& headers.len() > 0 ==> r.get("headers"@)->0.text_member(headers.last().0@) == Some(
                headers.last().1@,
            )
        }),
{
    keys_differ();
}

/// The words for how loud a message of the log is; any other is as loud as `info`.
pub proof fn logs_are_as_loud_as_said(level: Seq<char>)
    ensures
        level_of("error"@) == Level::Error,
        level_of("warn"@) == Level::Warn,
        level_of("debug"@) == Level::Debug,
        level_of(level) != Level::Error <==> level != "error"@,
        level_of(level) != Level::Warn <==> level != "warn"@,
        level_of(level) != Level::Debug <==> level != "debug"@,
{
    reveal_strlit("error");
    reveal_strlit("warn");
    reveal_strlit("debug");
    assert("error"@[0] == 'e' && "debug"@[0] == 'd');
}

/// The circumstances of a message are who sent it, or nobody, and who one is.
pub proof fn scripts_know_who_sent_it(ctx: RunCtx)
    ensures
        context_tree(ctx).text_member("me"@) == Some(ctx.me@),
        ctx.from matches Some(f) ==> context_tree(ctx).text_member("from"@) == Some(f@),
        ctx.from is None ==> context_tree(ctx).text_member("from"@) == Some(""@),
{
    keys_differ();
}

/// Of two manifests the one named for plugins is taken; without either there is
/// no plugin.
pub proof fn manifests_are_found_by_name(a: bool, b: bool, r: Option<&str>)
    requires
        manifest_found(a, b, r),
    ensures
        a ==> r is Some && r->0@ == "plugin.toml"@,
        !a && b ==> r is Some && r->0@ == "manifest.toml"@,
        !a && !b ==> r is None,
{
}

/// A script gets what is below its directory, and is refused what is above it or
/// beside it, with both paths.
pub proof fn escapes_are_refused(
    root: Seq<Vec<u8>>,
    path: Seq<Vec<u8>>,
    path_shown: Seq<char>,
    root_shown: Seq<char>,
    r: Result<(), String>,
    i: int,
)
    requires
        kept_in(path, root, path_shown, root_shown, r),
    ensures
        path.len() < root.len() ==> r is Err,
        0 <= i < root.len() && i < path.len() && path[i]@ != root[i]@ ==> r is Err,
        path.len() >= root.len() && path.take(root.len() as int) == root ==> r is Ok,
        r is Err ==> r->Err_0@ == "path `"@ + path_shown + "` escapes plugin sandbox `"@
            + root_shown + "`"@,
{
    scripts_are_kept_in(root, Seq::empty(), path, i);
    if path.len() >= root.len() && path.take(root.len() as int) == root {
        let below = path.skip(root.len() as int);
        assert(path =~= root + below);
        scripts_are_kept_in(root, below, path, i);
    }
}

/// The plugin that is run is installed under the id that was asked for; where none
/// is, that is said.
pub proof fn plugins_are_found_by_id(v: Seq<Plugin>, id: Seq<char>, r: Result<&Plugin, String>)
    requires
        plugin_found(v, id, r),
    ensures
        r matches Ok(p) ==> p.manifest.id@ == id && v.contains(*p),
        r is Err ==> r->Err_0@ == "no plugin with id `"@ + id + "` installed"@,
        r is Err ==> forall|i: int| 0 <= i < v.len() ==> (#[trigger] v[i]).manifest.id@ != id,
{
    found_plugins_have_the_id(v, id);
}

/// Trust that is given to one friend or taken from one leaves every other friend's
/// as it was, for that plugin too.
pub proof fn trust_is_between_two(
    before: Config,
    after: Config,
    friends: Seq<Friend>,
    friend_id: String,
    plugin_id: String,
    r: Next,
    who: Seq<char>,
)
    requires
        plugin_done(before, after, friends, PluginCmd::Trust { friend_id, plugin_id }, r)
            || plugin_done(before, after, friends, PluginCmd::Untrust { friend_id, plugin_id }, r),
        who != friend_id@,
        named(friends, friend_id@) matches Some(f) ==> who != f.id@,
    ensures
        trusts(trust_map(after.plugin_trust), plugin_id@, who) == trusts(
            trust_map(before.plugin_trust),
            plugin_id@,
            who,
        ),
{
    let m = trust_map(before.plugin_trust);
    let key = trust_key(friends, friend_id@);
    crate::config::trust_allows(m, plugin_id@, key);
    crate::config::untrust_revokes(m, plugin_id@, key);
    crate::config::untrust_revokes(trust_taken(m, plugin_id@, key), plugin_id@, friend_id@);
}

} // verus!
