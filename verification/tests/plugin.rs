use sociacli::config::Config;
use sociacli::json::Json;
use sociacli::protocol::Friend;
use sociacli::plugin::{
    default_entry, find, handle_incoming_plugin, installed_line, list, load_store, manifest_file,
    not_installed_line, parse_args, payload_envelope, sandbox, save_store, show_plugins,
    store_from, store_or_empty, trusted_cmd, Incoming, Manifest, Plugin,
};

fn plugin(id: &str, dir: &str) -> Plugin {
    Plugin {
        manifest: Manifest {
            id: id.to_string(),
            name: "Dice".to_string(),
            version: "1.0".to_string(),
            author: "zoe".to_string(),
            description: "rolls".to_string(),
            entry: default_entry(),
            capabilities: vec!["net".to_string()],
        },
        dir: dir.to_string(),
    }
}

fn json(t: &str) -> Json {
    Json::parse(t).ok().unwrap()
}

#[test]
fn manifests_are_found() {
    assert_eq!(manifest_file(true, true), Some("plugin.toml"));
    assert_eq!(manifest_file(false, true), Some("manifest.toml"));
    assert_eq!(manifest_file(false, false), None);
    assert_eq!(default_entry(), "main.lua");
}

#[test]
fn plugins_are_listed_in_order() {
    let v = list(vec![plugin("b", "1"), plugin("a", "2"), plugin("é", "3"), plugin("b", "4")]);
    let dirs: Vec<&str> = v.iter().map(|p| p.dir.as_str()).collect();
    assert_eq!(dirs, vec!["2", "1", "4", "3"]);
    assert_eq!(find(&v, "b").ok().unwrap().dir, "1");
    assert_eq!(find(&v, "c").err().unwrap(), "no plugin with id `c` installed");
    assert_eq!(show_plugins(&v, "/p")[0], "a v1.0\tDice\trolls");
    assert_eq!(show_plugins(&vec![], "/p"), vec!["(no plugins installed in /p)"]);
    assert_eq!(installed_line(&v[0]), "installed a v1.0 -> 2");
}

#[test]
fn arguments_are_json() {
    assert_eq!(parse_args(r#"{"n": 6}"#).ok().unwrap().to_text(), r#"{"n":6}"#);
    assert!(parse_args("{").err().unwrap().starts_with("--args must be valid JSON: "));
}

#[test]
fn only_trusted_friends_have_plugins_run() {
    let mut c = Config::fresh();
    let bob = Friend {
        id: "7".to_string(),
        username: "bob".to_string(),
        status: "accepted".to_string(),
        online: true,
        presence: None,
    };
    let friends = vec![bob];
    let sent = payload_envelope(&plugin("dice", "/d"), json(r#"{"n":6}"#));
    match handle_incoming_plugin(&c, &friends, "7", &sent) {
        Incoming::Ask { line, card } => {
            assert_eq!(
                line,
                "[plugin] AUTHORIZATION REQUIRED — 7 sent plugin `dice` (Dice v1.0 by zoe).\n          rolls\n          Authorize with:  sociacli plugin trust 7 dice"
            );
            assert_eq!(
                card.text(),
                r#"{"kind":"action","payload":{"action":"plugin","body":"bob sent plugin `dice` — sociacli plugin trust bob dice","data":{},"from":"7","from_username":"bob","title":"AUTHORIZATION REQUIRED"}}"#
            );
        }
        _ => panic!("not asked"),
    }
    c.trust_plugin("dice", "7");
    match handle_incoming_plugin(&c, &friends, "7", &sent) {
        Incoming::Run { plugin_id, args } => {
            assert_eq!(plugin_id, "dice");
            assert_eq!(args.to_text(), r#"{"n":6}"#);
        }
        _ => panic!("not run"),
    }
    match handle_incoming_plugin(&c, &friends, "8", &sent) {
        Incoming::Ask { card, .. } => {
            assert_eq!(card.payload.text_member("from_username"), Some("8"));
        }
        _ => panic!("not asked"),
    }
    c.untrust_plugin("dice", "7");
    assert!(matches!(handle_incoming_plugin(&c, &friends, "7", &sent), Incoming::Ask { .. }));
    assert!(matches!(handle_incoming_plugin(&c, &friends, "7", &Json::Null), Incoming::Nameless));
    c.trust_plugin("dice", "7");
    let bare = json(r#"{"plugin":{"id":"dice"}}"#);
    assert!(matches!(
        handle_incoming_plugin(&c, &friends, "7", &bare),
        Incoming::Run { args, .. } if args.to_text() == "{}"
    ));
    assert_eq!(
        not_installed_line("dice", "gone"),
        "[plugin] trusted but not installed locally: dice — gone. Install with `sociacli plugin install <path>`."
    );
}

#[test]
fn trust_is_listed_per_plugin() {
    let mut c = Config::fresh();
    c.trust_plugin("b", "2");
    c.trust_plugin("a", "9");
    c.trust_plugin("a", "1");
    c.trust_plugin("a", "5");
    c.untrust_plugin("a", "5");
    assert_eq!(trusted_cmd(&c), vec!["a\t1", "a\t9", "b\t2"]);
}

fn parts(v: &[&str]) -> Vec<Vec<u8>> {
    v.iter().map(|s| s.as_bytes().to_vec()).collect()
}

#[test]
fn scripts_stay_in_their_directory() {
    let root = parts(&["/", "p", "dice"]);
    assert!(sandbox(&parts(&["/", "p", "dice", "a.txt"]), &root, "", "").is_ok());
    assert!(sandbox(&root, &root, "", "").is_ok());
    assert_eq!(
        sandbox(&parts(&["/", "p", "dicer"]), &root, "/p/dicer", "/p/dice").err().unwrap(),
        "path `/p/dicer` escapes plugin sandbox `/p/dice`"
    );
    assert!(sandbox(&parts(&["/", "p"]), &root, "", "").is_err());
}

#[test]
fn stores_are_objects_and_come_back() {
    let load = |raw| load_store(raw).ok().unwrap();
    assert_eq!(load(None).to_text(), "{}");
    assert!(load_store(Some("not json")).is_err());
    assert_eq!(store_or_empty(Some("not json")).to_text(), "{}");
    assert_eq!(load(Some("[1]")).to_text(), "{}");
    assert_eq!(store_from(Json::Null).to_text(), "{}");
    let store = json(r#"{"a":[1,{"b":null}],"c":"é\n"}"#);
    let raw = save_store(&store);
    assert!(raw.starts_with("{\n  \"a\": [\n    1,"));
    assert_eq!(load(Some(&raw)).to_text(), store.to_text());
    let store = store_or_empty(Some(&raw)).put("c", Json::whole(2)).without("a");
    assert_eq!(store.to_text(), r#"{"c":2}"#);
}
