use sociacli::config::{
    default_auto_update, default_dismiss_ms, default_ice_servers, default_presence, default_server,
    default_shortcuts, default_true, Config,
};

#[test]
fn a_new_client_has_the_documented_settings() {
    let c = Config::fresh();
    assert_eq!(c.server_url, "https://sociacli-server.mrtigerst.dev");
    assert_eq!(c.presence, "online");
    assert!(c.dnd_block_message && c.dnd_block_game_invite && c.dnd_block_ptt);
    assert!(c.dnd_block_plugin && c.dnd_block_custom);
    assert!(c.notify_friend_requests && !c.notify_friend_presence);
    assert!(c.radio_effect && c.radio_beeps && c.background_enabled && c.auto_update_check);
    assert!(c.notify_show_list && !c.notify_auto_dismiss);
    assert_eq!(c.notify_auto_dismiss_ms, 6000);
    assert_eq!(c.shortcuts.get("open"), Some(&"Ctrl+Alt+Shift+KeyF".to_string()));
    assert_eq!(c.shortcuts.get("ptt"), Some(&"Ctrl+Alt+Shift+KeyK".to_string()));
    assert!(c.username.is_none() && c.token.is_none());
}

#[test]
fn each_default_is_what_it_says() {
    assert_eq!(default_server(), Config::fresh().server_url);
    assert_eq!(default_presence(), "online");
    assert_eq!(default_dismiss_ms(), 6000);
    assert!(default_true() && default_auto_update());
    assert_eq!(default_shortcuts().len(), 2);
    let ice = default_ice_servers();
    assert_eq!(ice.len(), 1);
    assert_eq!(
        ice[0].urls,
        vec!["stun:stun.l.google.com:19302", "stun:stun1.l.google.com:19302"]
    );
    assert!(ice[0].username.is_none() && ice[0].credential.is_none());
}

#[test]
fn plugins_are_where_the_settings_say() {
    let mut c = Config::fresh();
    assert_eq!(c.plugins_dir(None), "plugins");
    assert_eq!(c.plugins_dir(Some("/c/plugins".to_string())), "/c/plugins");
    c.plugins_dir = Some("/elsewhere".to_string());
    assert_eq!(c.plugins_dir(Some("/c/plugins".to_string())), "/elsewhere");
}

#[test]
fn trust_is_given_and_taken() {
    let mut c = Config::fresh();
    assert!(!c.is_plugin_trusted("dice", "alice"));
    c.trust_plugin("dice", "alice");
    c.trust_plugin("dice", "zoe");
    assert!(c.is_plugin_trusted("dice", "alice"));
    assert!(!c.is_plugin_trusted("cards", "alice"));
    c.untrust_plugin("dice", "alice");
    assert!(!c.is_plugin_trusted("dice", "alice"));
    assert!(c.is_plugin_trusted("dice", "zoe"));
    c.untrust_plugin("dice", "zoe");
    assert_eq!(c.plugin_trust.len(), 0);
    c.untrust_plugin("dice", "nobody");
}

fn with_server(url: &str, token: Option<&str>) -> Config {
    let mut c = Config::fresh();
    c.server_url = url.to_string();
    c.token = token.map(str::to_string);
    c
}

#[test]
fn the_socket_goes_with_the_server() {
    assert_eq!(
        with_server("https://example.com/api?x=1", Some("a b&c")).ws_url().ok(),
        Some("wss://example.com/ws?token=a+b%26c&version=0.1.7".to_string())
    );
    assert_eq!(
        with_server("http://localhost:8080", Some("t")).ws_url().ok(),
        Some("ws://localhost:8080/ws?token=t&version=0.1.7".to_string())
    );
}

#[test]
fn the_socket_keeps_host_port_and_fragment() {
    let url = |server: &str| with_server(server, Some("t")).checked_ws_url().unwrap();
    assert_eq!(
        url("HTTP://u:p@Example.com:81/a/b?c=d&e#frag?x#y").ok(),
        Some("ws://u:p@example.com:81/ws?token=t&version=0.1.7#frag?x#y".to_string())
    );
    assert_eq!(
        url("https://[::1]:8443").ok(),
        Some("wss://[::1]:8443/ws?token=t&version=0.1.7".to_string())
    );
    assert_eq!(url("http://h:443/?").ok(), Some("ws://h:443/ws?token=t&version=0.1.7".to_string()));
    assert_eq!(url("ftp://h:80/x").ok(), Some("ws://h/ws?token=t&version=0.1.7".to_string()));
    assert_eq!(url("file:///x").err(), Some("bad scheme".to_string()));
    assert_eq!(
        with_server("http://h", Some("é+=#?&")).ws_url().ok(),
        Some("ws://h/ws?token=%C3%A9%2B%3D%23%3F%26&version=0.1.7".to_string())
    );
}

#[test]
fn a_socket_needs_an_address_and_a_login() {
    assert_eq!(
        with_server("https://example.com", None).ws_url().err(),
        Some("not logged in — run `sociacli login`".to_string())
    );
    assert_eq!(with_server("mailto:a@b", None).ws_url().err(), Some("bad scheme".to_string()));
    assert_eq!(
        with_server("example", Some("t")).ws_url().err(),
        Some("relative URL without a base".to_string())
    );
}
