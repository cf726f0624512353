use sociacli::json::Json;
use sociacli::lua::{json_to_lua, lua_to_json, LuaKey, LuaTable, LuaValue};
use sociacli::plugin::{Manifest, Plugin};
use sociacli::sdk::{
    action, base64_decode, base64_encode, build_sdk, chunk_name, http_allowed, http_response, invite,
    json_decode, json_encode, log_level, message, message_context, notify, post_body, send,
    sha256, store_delete, store_get, store_set, trouble, user_agent, Level, Notice, PostBody,
    RunCtx,
};

fn json(t: &str) -> Json {
    Json::parse(t).ok().unwrap()
}

fn ctx(in_daemon: bool, has_overlay: bool) -> RunCtx {
    RunCtx {
        me: "1".to_string(),
        username: None,
        server_url: "https://s".to_string(),
        from: Some("7".to_string()),
        args: Json::object(),
        plugin: Plugin {
            manifest: Manifest {
                id: "dice".to_string(),
                name: "Dice".to_string(),
                version: "1.0".to_string(),
                author: "zoe".to_string(),
                description: "rolls".to_string(),
                entry: "main.lua".to_string(),
                capabilities: vec!["net".to_string()],
            },
            dir: "/p/dice".to_string(),
        },
        in_daemon,
        has_overlay,
    }
}

fn table(len: usize, pairs: Vec<(LuaKey, LuaValue)>) -> LuaValue {
    LuaValue::Table(LuaTable { len, pairs })
}

fn key(s: &str) -> LuaKey {
    LuaKey::Str(s.to_string())
}

fn text(s: &str) -> LuaValue {
    LuaValue::Str(s.to_string())
}

#[test]
fn scripts_know_their_circumstances() {
    let mut c = ctx(true, true);
    assert_eq!(
        build_sdk(&c).to_text(),
        r#"{"config":{"server_url":"https://s"},"from":"7","me":"1","plugin":{"author":"zoe","capabilities":["net"],"description":"rolls","dir":"/p/dice","id":"dice","name":"Dice","version":"1.0"}}"#
    );
    c.username = Some("bob".to_string());
    assert_eq!(build_sdk(&c).text_member("username"), Some("bob"));
    assert_eq!(message_context(&c).to_text(), r#"{"from":"7","me":"1"}"#);
    c.from = None;
    assert_eq!(message_context(&c).to_text(), r#"{"from":"","me":"1"}"#);
    assert!(build_sdk(&c).get("from").is_none());
    assert_eq!(chunk_name(&c.plugin.manifest), "plugin:dice");
    assert_eq!(user_agent(&c.plugin.manifest), "sociacli-plugin/dice");
}

#[test]
fn logs_have_levels() {
    assert_eq!(log_level("error"), Level::Error);
    assert_eq!(log_level("warn"), Level::Warn);
    assert_eq!(log_level("debug"), Level::Debug);
    assert_eq!(log_level("info"), Level::Info);
    assert_eq!(log_level("Error"), Level::Info);
}

#[test]
fn users_are_told_where_they_look() {
    match notify(&ctx(true, true), "T", "B") {
        Notice::Event(e) => assert_eq!(
            e.text(),
            r#"{"kind":"action","payload":{"action":"plugin","body":"B","data":{"plugin":{"id":"dice"}},"from":"1","title":"T"}}"#
        ),
        _ => panic!("no event"),
    }
    assert!(matches!(
        notify(&ctx(true, false), "T", "B"),
        Notice::Line(s) if s == "[plugin notify] T: B"
    ));
}

#[test]
fn only_the_daemon_sends() {
    let out = ctx(false, false);
    assert_eq!(
        send(&out, "7", &LuaValue::Nil).err().unwrap(),
        "sociacli.send needs the daemon — run via on_message or inside `sociacli listen`"
    );
    assert_eq!(message(&out, "7", "", "").err().unwrap(), "sociacli.message needs the daemon");
    assert_eq!(invite(&out, "7", "", None).err().unwrap(), "sociacli.invite needs the daemon");
    assert_eq!(
        action(&out, "7", "", "", "", None).err().unwrap(),
        "sociacli.action needs the daemon"
    );
    let c = ctx(true, false);
    assert_eq!(
        message(&c, "7", "T", "B").ok().unwrap().to_text(),
        r#"{"action":"message","body":"B","data":{},"t":"send_action","title":"T","to":"7"}"#
    );
    assert_eq!(
        invite(&c, "7", "u", None).ok().unwrap().to_text(),
        r#"{"action":"game_invite","body":"u","data":{"url":"u"},"t":"send_action","title":"Game invite","to":"7"}"#
    );
    let args = table(0, vec![(key("n"), LuaValue::Integer(6))]);
    let sent = send(&c, "7", &args).ok().unwrap();
    assert_eq!(sent.text_member("title"), Some("Dice"));
    assert_eq!(sent.get("data").unwrap().get("args").unwrap().to_text(), r#"{"n":6}"#);
    let a = action(&c, "7", "custom", "T", "B", Some(&args)).ok().unwrap();
    assert_eq!(a.get("data").unwrap().to_text(), r#"{"n":6}"#);
    let bad = LuaValue::NotText("bad utf8".to_string());
    assert_eq!(action(&c, "7", "", "", "", Some(&bad)).err().unwrap(), "bad utf8");
    assert_eq!(send(&c, "7", &bad).err().unwrap(), "bad utf8");
}

#[test]
fn stores_remember_values() {
    assert!(matches!(store_get(None, "a"), LuaValue::Nil));
    let raw = store_set(None, "a", &text("x")).ok().unwrap();
    assert_eq!(raw, "{\n  \"a\": \"x\"\n}");
    assert!(matches!(store_get(Some(&raw), "a"), LuaValue::Str(s) if s == "x"));
    let raw = store_set(Some(&raw), "b", &LuaValue::Integer(2)).ok().unwrap();
    assert!(matches!(store_get(Some(&raw), "a"), LuaValue::Str(s) if s == "x"));
    assert_eq!(store_delete(Some(&raw), "a"), "{\n  \"b\": 2\n}");
    let bad = LuaValue::NotText("no".to_string());
    assert_eq!(store_set(Some(&raw), "b", &bad).err().unwrap(), "no");
}

#[test]
fn responses_are_tables() {
    let headers = vec![("a".to_string(), "1".to_string()), ("a".to_string(), "2".to_string())];
    assert_eq!(
        http_response(404, &headers, "gone").to_text(),
        r#"{"body":"gone","headers":{"a":"2"},"status":404}"#
    );
    assert!(matches!(post_body(None), Ok(PostBody::Nothing)));
    assert!(matches!(post_body(Some(&text("x"))), Ok(PostBody::Text(s)) if s == "x"));
    let t = table(1, vec![(LuaKey::Integer(1), LuaValue::Boolean(true))]);
    assert!(matches!(post_body(Some(&t)), Ok(PostBody::Json(j)) if j.to_text() == "[true]"));
    assert!(post_body(Some(&LuaValue::NotText("no".to_string()))).is_err());
    assert_eq!(trouble("read", "/a", "gone"), "read /a: gone");
}

#[test]
fn digests_and_encodings() {
    assert_eq!(
        sha256(&b"abc".to_vec()),
        "ba7816bf8f01cfea414140de5dae2223b00361a396177a9cb410ff61f20015ad"
    );
    assert_eq!(base64_encode(&b"hello".to_vec()), "aGVsbG8=");
    assert_eq!(base64_decode("aGVsbG8="), Ok("hello".to_string()));
    assert_eq!(base64_decode("/w=="), Ok("\u{fffd}".to_string()));
    assert!(base64_decode("?").is_err());
    assert_eq!(json_encode(&text("x\"")).ok().unwrap(), r#""x\"""#);
    assert!(json_decode("[").is_err());
    assert!(matches!(json_decode("3"), Ok(LuaValue::Integer(3))));
}

#[test]
fn lists_and_objects_are_told_apart() {
    let one = |i| (LuaKey::Integer(i), LuaValue::Integer(10 * i));
    let to = |v: LuaValue| lua_to_json(&v).ok().unwrap().to_text();
    assert_eq!(to(table(2, vec![one(1), one(2)])), "[10,20]");
    assert_eq!(to(table(2, vec![one(2), one(1)])), "[10,20]");
    assert_eq!(to(table(3, vec![one(1), one(3)])), "[10,null,30]");
    assert_eq!(to(table(1, vec![one(1), (key("a"), LuaValue::Nil)])), r#"{"1":10,"a":null}"#);
    assert_eq!(to(table(0, vec![])), "{}");
    assert_eq!(to(table(0, vec![one(5)])), r#"{"5":50}"#);
    assert_eq!(
        to(table(0, vec![(LuaKey::Number("1.5".to_string()), LuaValue::Other)])),
        r#"{"1.5":null}"#
    );
    assert_eq!(to(table(0, vec![(LuaKey::Other, text("x"))])), "{}");
    assert_eq!(to(LuaValue::NotFinite), "null");
    let bad = table(0, vec![(LuaKey::NotText("bad key".to_string()), LuaValue::Nil)]);
    assert_eq!(lua_to_json(&bad).err().unwrap(), "bad key");
}

#[test]
fn json_survives_scripts() {
    for t in [
        "null",
        "true",
        "-5",
        "1.5",
        r#""é""#,
        r#"[1,[2,"x"]]"#,
        r#"{"a":[true],"b":{"c":"d"}}"#,
    ] {
        assert_eq!(lua_to_json(&json_to_lua(&json(t))).ok().unwrap().to_text(), t);
    }
    assert_eq!(lua_to_json(&json_to_lua(&json("[]"))).ok().unwrap().to_text(), "{}");
}

#[test]
fn requests_need_the_daemon() {
    assert!(http_allowed(&ctx(true, false), "http_get").is_ok());
    assert_eq!(
        http_allowed(&ctx(false, true), "http_get").err().unwrap(),
        "sociacli.http_get needs the daemon"
    );
    assert_eq!(
        http_allowed(&ctx(false, false), "http_post").err().unwrap(),
        "sociacli.http_post needs the daemon"
    );
}

#[test]
fn tables_are_read_in_any_order() {
    let v = json(r#"{"a":[1,{"b":"x"},true],"c":-5}"#);
    assert_eq!(lua_to_json(&json_to_lua(&v)).ok().unwrap().to_text(), v.to_text());
    let walked = table(
        0,
        vec![
            (key("c"), LuaValue::Integer(-5)),
            (
                key("a"),
                table(
                    3,
                    vec![
                        (LuaKey::Integer(3), LuaValue::Boolean(true)),
                        (LuaKey::Integer(1), LuaValue::Integer(1)),
                        (LuaKey::Integer(2), table(0, vec![(key("b"), text("x"))])),
                    ],
                ),
            ),
        ],
    );
    assert_eq!(lua_to_json(&walked).ok().unwrap().to_text(), v.to_text());
    let empty = json(r#"[]"#);
    assert_eq!(lua_to_json(&json_to_lua(&empty)).ok().unwrap().to_text(), "{}");
    assert_eq!(lua_to_json(&json_to_lua(&Json::Null)).ok().unwrap().to_text(), "null");
}
