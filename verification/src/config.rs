//! The settings of a client.
use vstd::prelude::*;

use crate::address::{is_countable, socket_url};
#[allow(unused_imports)]
use crate::address::{countable, is_socket_of};
use crate::strmap::StrMap;
#[allow(unused_imports)]
use crate::text::views;
use crate::updater::current_version;
#[allow(unused_imports)]
use crate::updater::version_text;

verus! {

/// One WebRTC ICE server. A TURN server also needs a username and a credential.
pub struct IceServer {
    pub urls: Vec<String>,
    pub username: Option<String>,
    pub credential: Option<String>,
}

/// The settings of a client.
pub struct Config {
    pub server_url: String,
    pub user_id: Option<String>,
    pub username: Option<String>,
    pub token: Option<String>,
    /// The sound file of notifications.
    pub notify_sound: Option<String>,
    /// Whether to look for new releases in the background.
    pub auto_update_check: bool,
    /// When the last look that succeeded was, in seconds since the epoch.
    pub last_update_check: Option<u64>,
    /// Where the plugins are, if not next to the settings.
    pub plugins_dir: Option<String>,
    /// Who may run which plugin: a truth value for a friend under a plugin id.
    pub plugin_trust: StrMap<StrMap<bool>>,
    /// Whether incoming speech is filtered to sound like a radio.
    pub radio_effect: bool,
    /// Whether speech starts and ends with a beep.
    pub radio_beeps: bool,
    pub ice_servers: Vec<IceServer>,
    /// The key combination of each action, `open` and `ptt`.
    pub shortcuts: StrMap<String>,
    /// The master switch of the background daemon.
    pub background_enabled: bool,
    /// Whether the daemon is set up to start at login.
    pub autostart_installed: bool,
    /// Whom the push-to-talk key calls when nobody was called before.
    pub default_ptt_friend: Option<String>,
    /// Whether the setup of the first run is over.
    pub first_run_done: bool,
    /// Whether cards go away by themselves, and after how many milliseconds.
    pub notify_auto_dismiss: bool,
    pub notify_auto_dismiss_ms: u32,
    /// Whether cards stack up; otherwise only the latest is shown.
    pub notify_show_list: bool,
    /// The microphone, by its name; none is the one of the system.
    pub ptt_input_device: Option<String>,
    /// `"online"`, `"dnd"` or `"offline"`, which is invisible mode.
    pub presence: String,
    /// What Do Not Disturb drops.
    pub dnd_block_message: bool,
    pub dnd_block_game_invite: bool,
    pub dnd_block_ptt: bool,
    pub dnd_block_plugin: bool,
    pub dnd_block_custom: bool,
    /// Whether a friend who comes or goes is worth a card.
    pub notify_friend_presence: bool,
    /// Whether a friend request is worth a card.
    pub notify_friend_requests: bool,
}

// ---- what a setting is when nothing says otherwise ----

/// One is online.
pub fn default_presence() -> (r: String)
    ensures
        r@ == "online"@,
{
    "online".to_owned()
}

/// Cards that go away stay for six seconds.
pub fn default_dismiss_ms() -> (r: u32)
    ensures
        r == 6000,
{
    6000
}

/// Most switches are on.
pub fn default_true() -> (r: bool)
    ensures
        r,
{
    true
}

/// The shortcuts that a client starts with.
pub open spec fn first_shortcuts() -> Map<Seq<char>, Seq<char>> {
    map!["open"@ => "Ctrl+Alt+Shift+KeyF"@, "ptt"@ => "Ctrl+Alt+Shift+KeyK"@]
}

/// The texts of a map of texts.
pub open spec fn text_map(m: StrMap<String>) -> Map<Seq<char>, Seq<char>> {
    m@.map_values(|s: String| s@)
}

/// The shortcuts that a client starts with.
pub fn default_shortcuts() -> (r: StrMap<String>)
    ensures
        text_map(r) == first_shortcuts(),
{
    let mut m: StrMap<String> = StrMap::new();
    m.insert("open".to_owned(), "Ctrl+Alt+Shift+KeyF".to_owned());
    m.insert("ptt".to_owned(), "Ctrl+Alt+Shift+KeyK".to_owned());
    assert(text_map(m) =~= first_shortcuts());
    m
}

/// The signaling server that is hosted for everyone.
pub fn default_server() -> (r: String)
    ensures
        r@ == "https://sociacli-server.mrtigerst.dev"@,
{
    "https://sociacli-server.mrtigerst.dev".to_owned()
}

/// New releases are looked for.
pub fn default_auto_update() -> (r: bool)
    ensures
        r,
{
    true
}

/// The model of an ICE server.
pub struct IceView {
    pub urls: Seq<Seq<char>>,
    pub username: Option<Seq<char>>,
    pub credential: Option<Seq<char>>,
}

/// The view of an optional text.
pub open spec fn opt_view(s: Option<String>) -> Option<Seq<char>> {
    match s {
        Some(s) => Some(s@),
        None => None,
    }
}

impl IceServer {
    /// The server over the views of its texts.
    pub open spec fn view(self) -> IceView {
        IceView {
            urls: views(self.urls@),
            username: opt_view(self.username),
            credential: opt_view(self.credential),
        }
    }
}

/// The ICE servers over the views of their texts.
pub open spec fn ice_views(v: Seq<IceServer>) -> Seq<IceView> {
    Seq::new(v.len(), |i: int| v[i]@)
}

/// The ICE servers that a client starts with.
pub open spec fn first_ice_servers() -> Seq<IceView> {
    seq![
        IceView {
            urls: seq!["stun:stun.l.google.com:19302"@, "stun:stun1.l.google.com:19302"@],
            username: None,
            credential: None,
        },
    ]
}

/// Public STUN servers. They cannot relay: for a friend behind a symmetric NAT
/// a TURN server has to be added.
pub fn default_ice_servers() -> (r: Vec<IceServer>)
    ensures
        ice_views(r@) == first_ice_servers(),
{
    let mut urls: Vec<String> = Vec::new();
    urls.push("stun:stun.l.google.com:19302".to_owned());
    urls.push("stun:stun1.l.google.com:19302".to_owned());
    assert(views(urls@) =~= first_ice_servers()[0].urls);
    let server = IceServer { urls, username: None, credential: None };
    let mut out: Vec<IceServer> = Vec::new();
    out.push(server);
    assert(ice_views(out@) =~= first_ice_servers());
    out
}

// ---- what the settings say ----

/// Who may run which plugin.
pub open spec fn trust_map(m: StrMap<StrMap<bool>>) -> Map<Seq<char>, Map<Seq<char>, bool>> {
    m@.map_values(|f: StrMap<bool>| f@)
}

/// Whether a friend may run a plugin.
pub open spec fn trusts(
    m: Map<Seq<char>, Map<Seq<char>, bool>>,
    plugin_id: Seq<char>,
    friend_id: Seq<char>,
) -> bool {
    m.contains_key(plugin_id) && m[plugin_id].contains_key(friend_id) && m[plugin_id][friend_id]
}

/// A friend is allowed a plugin.
pub open spec fn trust_given(
    m: Map<Seq<char>, Map<Seq<char>, bool>>,
    plugin_id: Seq<char>,
    friend_id: Seq<char>,
) -> Map<Seq<char>, Map<Seq<char>, bool>> {
    let friends = if m.contains_key(plugin_id) {
        m[plugin_id]
    } else {
        Map::empty()
    };
    m.insert(plugin_id, friends.insert(friend_id, true))
}

/// What was said of a friend and a plugin is forgotten; a plugin of which
/// nothing is left to say goes too.
pub open spec fn trust_taken(
    m: Map<Seq<char>, Map<Seq<char>, bool>>,
    plugin_id: Seq<char>,
    friend_id: Seq<char>,
) -> Map<Seq<char>, Map<Seq<char>, bool>> {
    if !m.contains_key(plugin_id) {
        m
    } else if m[plugin_id].remove(friend_id) == Map::<Seq<char>, bool>::empty() {
        m.remove(plugin_id)
    } else {
        m.insert(plugin_id, m[plugin_id].remove(friend_id))
    }
}

/// Forgets what was said of a friend and a plugin.
fn forget_trust(m: &mut StrMap<StrMap<bool>>, plugin_id: &str, friend_id: &str)
    ensures
        trust_map(*final(m)) == trust_taken(trust_map(*old(m)), plugin_id@, friend_id@),
{
    let ghost model = trust_map(*m);
    match m.remove(plugin_id) {
        Some(f) => {
            let mut friends = f;
            let _ = friends.remove(friend_id);
            assert(model[plugin_id@] == f@);
            if friends.len() > 0 {
                m.insert(plugin_id.to_owned(), friends);
                assert(trust_map(*m) =~= model.insert(plugin_id@, friends@));
            } else {
                assert(trust_map(*m) =~= model.remove(plugin_id@));
            }
        },
        None => {
            assert(trust_map(*m) =~= model);
        },
    }
}

/// Where plugins are: where the settings say, or else beside the settings.
pub open spec fn plugins_place(set: Option<Seq<char>>, beside: Option<Seq<char>>) -> Seq<char> {
    match set {
        Some(p) => p,
        None => match beside {
            Some(d) => d,
            None => "plugins"@,
        },
    }
}

impl Config {
    /// The settings of a client that has none yet.
    pub open spec fn is_fresh(self) -> bool {
        &&& self.server_url@ == "https://sociacli-server.mrtigerst.dev"@
        &&& self.user_id is None
        &&& self.username is None
        &&& self.token is None
        &&& self.notify_sound is None
        &&& self.auto_update_check
        &&& self.last_update_check is None
        &&& self.plugins_dir is None
        &&& trust_map(self.plugin_trust) == Map::<Seq<char>, Map<Seq<char>, bool>>::empty()
        &&& self.radio_effect
        &&& self.radio_beeps
        &&& ice_views(self.ice_servers@) == first_ice_servers()
        &&& text_map(self.shortcuts) == first_shortcuts()
        &&& self.background_enabled
        &&& !self.autostart_installed
        &&& self.default_ptt_friend is None
        &&& !self.first_run_done
        &&& !self.notify_auto_dismiss
        &&& self.notify_auto_dismiss_ms == 6000
        &&& self.notify_show_list
        &&& self.ptt_input_device is None
        &&& self.presence@ == "online"@
        &&& self.dnd_block_message
        &&& self.dnd_block_game_invite
        &&& self.dnd_block_ptt
        &&& self.dnd_block_plugin
        &&& self.dnd_block_custom
        &&& !self.notify_friend_presence
        &&& self.notify_friend_requests
    }

    /// The settings of a client that has none yet.
    pub fn fresh() -> (r: Config)
        ensures
            r.is_fresh(),
    {
        let r = Config {
            server_url: default_server(),
            user_id: None,
            username: None,
            token: None,
            notify_sound: None,
            auto_update_check: default_auto_update(),
            last_update_check: None,
            plugins_dir: None,
            plugin_trust: StrMap::new(),
            radio_effect: default_true(),
            radio_beeps: default_true(),
            ice_servers: default_ice_servers(),
            shortcuts: default_shortcuts(),
            background_enabled: default_true(),
            autostart_installed: false,
            default_ptt_friend: None,
            first_run_done: false,
            notify_auto_dismiss: false,
            notify_auto_dismiss_ms: default_dismiss_ms(),
            notify_show_list: default_true(),
            ptt_input_device: None,
            presence: default_presence(),
            dnd_block_message: default_true(),
            dnd_block_game_invite: default_true(),
            dnd_block_ptt: default_true(),
            dnd_block_plugin: default_true(),
            dnd_block_custom: default_true(),
            notify_friend_presence: false,
            notify_friend_requests: default_true(),
        };
        assert(trust_map(r.plugin_trust) =~= Map::<Seq<char>, Map<Seq<char>, bool>>::empty());
        r
    }

    /// Where the plugins are: where the settings say, or else in the directory
    /// that goes with the settings, or else in one of the working directory.
    pub fn plugins_dir(&self, beside_settings: Option<String>) -> (r: String)
        ensures
            r@ == plugins_place(opt_view(self.plugins_dir), opt_view(beside_settings)),
    {
        match &self.plugins_dir {
            Some(p) => p.clone(),
            None => match beside_settings {
                Some(d) => d,
                None => "plugins".to_owned(),
            },
        }
    }

    /// Whether invocations of a plugin that come from a friend may run.
    pub fn is_plugin_trusted(&self, plugin_id: &str, friend_id: &str) -> (r: bool)
        ensures
            r == trusts(trust_map(self.plugin_trust), plugin_id@, friend_id@),
    {
        match self.plugin_trust.get(plugin_id) {
            Some(friends) => match friends.get(friend_id) {
                Some(allowed) => *allowed,
                None => false,
            },
            None => false,
        }
    }

    /// Allows a friend a plugin.
    pub fn trust_plugin(&mut self, plugin_id: &str, friend_id: &str)
        ensures
            trust_map(final(self).plugin_trust) == trust_given(
                trust_map(old(self).plugin_trust),
                plugin_id@,
                friend_id@,
            ),
            *final(self) == (Config { plugin_trust: final(self).plugin_trust, ..*old(self) }),
    {
        let ghost before = trust_map(self.plugin_trust);
        let mut friends = match self.plugin_trust.remove(plugin_id) {
            Some(f) => f,
            None => StrMap::new(),
        };
        friends.insert(friend_id.to_owned(), true);
        self.plugin_trust.insert(plugin_id.to_owned(), friends);
        assert(trust_map(self.plugin_trust) =~= trust_given(before, plugin_id@, friend_id@));
    }

    /// Forgets what was said of a friend and a plugin.
    pub fn untrust_plugin(&mut self, plugin_id: &str, friend_id: &str)
        ensures
            trust_map(final(self).plugin_trust) == trust_taken(
                trust_map(old(self).plugin_trust),
                plugin_id@,
                friend_id@,
            ),
            *final(self) == (Config { plugin_trust: final(self).plugin_trust, ..*old(self) }),
    {
        forget_trust(&mut self.plugin_trust, plugin_id, friend_id);
    }

    /// The address of the signaling socket. It wants a server address that
    /// parses and whose scheme can be exchanged, and then a login.
    pub fn ws_url(&self) -> (r: Result<String, String>)
        requires
            countable(self.server_url@, opt_view(self.token), version_text()),
        ensures
            is_socket_of(self.server_url@, opt_view(self.token), version_text(), r),
    {
        match &self.token {
            Some(t) => socket_url(self.server_url.as_str(), Some(t.as_str()), current_version()),
            None => socket_url(self.server_url.as_str(), None, current_version()),
        }
    }

    /// The address of the signaling socket, unless it would be too long.
    pub fn checked_ws_url(&self) -> (r: Option<Result<String, String>>)
        ensures
            match r {
                Some(result) => countable(
                    self.server_url@,
                    opt_view(self.token),
                    version_text(),
                ) && is_socket_of(self.server_url@, opt_view(self.token), version_text(), result),
                None => !countable(self.server_url@, opt_view(self.token), version_text()),
            },
    {
        let fits = match &self.token {
            Some(t) => is_countable(self.server_url.as_str(), Some(t.as_str()), current_version()),
            None => is_countable(self.server_url.as_str(), None, current_version()),
        };
        if fits {
            Some(self.ws_url())
        } else {
            None
        }
    }
}

/// A friend who was allowed a plugin may run it, and nothing else changes.
pub proof fn trust_allows(
    m: Map<Seq<char>, Map<Seq<char>, bool>>,
    plugin_id: Seq<char>,
    friend_id: Seq<char>,
)
    ensures
        trusts(trust_given(m, plugin_id, friend_id), plugin_id, friend_id),
        forall|p: Seq<char>, f: Seq<char>|
            p != plugin_id || f != friend_id ==> #[trigger] trusts(
                trust_given(m, plugin_id, friend_id),
                p,
                f,
            ) == trusts(m, p, f),
{
}

/// A friend from whom a plugin was taken may not run it, and nothing else
/// changes.
pub proof fn untrust_revokes(
    m: Map<Seq<char>, Map<Seq<char>, bool>>,
    plugin_id: Seq<char>,
    friend_id: Seq<char>,
)
    ensures
        !trusts(trust_taken(m, plugin_id, friend_id), plugin_id, friend_id),
        forall|p: Seq<char>, f: Seq<char>|
            p != plugin_id || f != friend_id ==> #[trigger] trusts(
                trust_taken(m, plugin_id, friend_id),
                p,
                f,
            ) == trusts(m, p, f),
{
    let rest = m[plugin_id].remove(friend_id);
    assert forall|p: Seq<char>, f: Seq<char>|
        p != plugin_id || f != friend_id implies #[trigger] trusts(
        trust_taken(m, plugin_id, friend_id),
        p,
        f,
    ) == trusts(m, p, f) by {
        if m.contains_key(plugin_id) && rest == Map::<Seq<char>, bool>::empty() && p == plugin_id {
            assert(!rest.contains_key(f));
        }
    }
}

} // verus!
