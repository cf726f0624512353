//! Plugins: which are installed, who may run which, and what an invocation from
//! a friend comes to.
use vstd::prelude::*;

use crate::commands::{Outcome, OutcomeView};
use crate::config::Config;
#[allow(unused_imports)]
use crate::config::{
    trust_allows, trust_given, trust_map, trust_taken, trusts, untrust_revokes,
};
use crate::daemon::make_card;
#[allow(unused_imports)]
use crate::daemon::card;
use crate::friends::{label, one_line, resolve};
#[allow(unused_imports)]
use crate::friends::{is_uuid, label_of, named, resolved};
use crate::json::{Fields, Json};
#[allow(unused_imports)]
use crate::json::{empty_obj, is_tidy, json_pretty_text, parsed_json, JsonView};
use crate::overlay_ipc::OverlayEvent;
#[allow(unused_imports)]
use crate::overlay_ipc::EventView;
use crate::protocol::Friend;
use crate::strmap::StrMap;
#[allow(unused_imports)]
use crate::strmap::{pairs_are_the_map, place, rising};
use crate::text::{is_before, same};
#[allow(unused_imports)]
use crate::text::{before, before_irreflexive, before_total, before_transitive, views};

verus! {

/// What a plugin says of itself.
pub struct Manifest {
    pub id: String,
    pub name: String,
    pub version: String,
    pub author: String,
    pub description: String,
    /// The script to run.
    pub entry: String,
    pub capabilities: Vec<String>,
}

/// A plugin and the directory it is in.
pub struct Plugin {
    pub manifest: Manifest,
    pub dir: String,
}

/// The script of a plugin that names none.
pub fn default_entry() -> (r: String)
    ensures
        r@ == "main.lua"@,
{
    "main.lua".to_owned()
}

/// Whether the manifest that is taken is the right one.
pub open spec fn manifest_found(
    has_plugin_toml: bool,
    has_manifest_toml: bool,
    r: Option<&str>,
) -> bool {
    match r {
        Some(f) => if has_plugin_toml {
            f@ == "plugin.toml"@
        } else {
            has_manifest_toml && f@ == "manifest.toml"@
        },
        None => !has_plugin_toml && !has_manifest_toml,
    }
}

/// The file that makes a directory a plugin: `plugin.toml`, or else
/// `manifest.toml`.
pub fn manifest_file(has_plugin_toml: bool, has_manifest_toml: bool) -> (r: Option<&'static str>)
    ensures
        manifest_found(has_plugin_toml, has_manifest_toml, r),
{
    if has_plugin_toml {
        Some("plugin.toml")
    } else if has_manifest_toml {
        Some("manifest.toml")
    } else {
        None
    }
}

// ---- the list of plugins ----

/// A plugin at its place in a list that is in order: behind all whose ids are
/// not larger.
pub open spec fn inserted(v: Seq<Plugin>, p: Plugin) -> Seq<Plugin>
    decreases v.len(),
{
    if v.len() > 0 && before(p.manifest.id@, v.last().manifest.id@) {
        inserted(v.drop_last(), p).push(v.last())
    } else {
        v.push(p)
    }
}

/// A list in the order of the ids; of two plugins with one id the one that was
/// found first stays first.
pub open spec fn in_order(v: Seq<Plugin>) -> Seq<Plugin>
    decreases v.len(),
{
    if v.len() == 0 {
        v
    } else {
        inserted(in_order(v.drop_last()), v.last())
    }
}

/// Where a plugin goes in a list whose plugins behind place `i` all have larger
/// ids.
proof fn lemma_inserted(v: Seq<Plugin>, p: Plugin, i: int)
    requires
        0 <= i <= v.len(),
        i > 0 ==> !before(p.manifest.id@, v[i - 1].manifest.id@),
        forall|k: int| i <= k < v.len() ==> before(p.manifest.id@, (#[trigger] v[k]).manifest.id@),
    ensures
        inserted(v, p) == v.insert(i, p),
    decreases v.len(),
{
    if i == v.len() {
        assert(v.insert(i, p) =~= v.push(p));
    } else {
        let n = v.len() - 1;
        assert(before(p.manifest.id@, v[n].manifest.id@));
        lemma_inserted(v.drop_last(), p, i);
        assert(v.drop_last().insert(i, p).push(v.last()) =~= v.insert(i, p));
    }
}

/// Puts the plugins that were found in order.
pub fn list(found: Vec<Plugin>) -> (r: Vec<Plugin>)
    ensures
        r@ == in_order(found@),
{
    let mut rest = found;
    let mut out: Vec<Plugin> = Vec::new();
    let n = rest.len();
    let mut done: usize = 0;
    assert(found@.skip(0) == found@);
    assert(found@.take(0) =~= Seq::empty());
    while done < n
        invariant
            done <= n,
            n == found@.len(),
            rest@ == found@.skip(done as int),
            out@ == in_order(found@.take(done as int)),
        decreases n - done,
    {
        assert(found@.skip(done as int)[0] == found@[done as int]);
        let p = rest.remove(0);
        assert(found@.skip(done as int).remove(0) =~= found@.skip(done + 1));
        let mut i: usize = out.len();
        while i > 0 && is_before(p.manifest.id.as_str(), out[i - 1].manifest.id.as_str())
            invariant
                i <= out.len(),
                forall|k: int|
                    i <= k < out@.len() ==> before(
                        p.manifest.id@,
                        (#[trigger] out@[k]).manifest.id@,
                    ),
            decreases i,
        {
            i -= 1;
        }
        proof {
            lemma_inserted(out@, p, i as int);
            assert(found@.take(done + 1).drop_last() == found@.take(done as int));
            assert(found@.take(done + 1).last() == p);
        }
        out.insert(i, p);
        done += 1;
    }
    assert(found@.take(done as int) == found@);
    out
}

/// Whether the ids of a list never fall.
pub open spec fn never_falls(v: Seq<Plugin>) -> bool {
    forall|i: int, j: int|
        0 <= i < j < v.len() ==> !before(
            (#[trigger] v[j]).manifest.id@,
            (#[trigger] v[i]).manifest.id@,
        )
}

/// A list that is put in order holds what it held, and its ids never fall.
pub proof fn listing_sorts(v: Seq<Plugin>)
    ensures
        in_order(v).to_multiset() == v.to_multiset(),
        never_falls(in_order(v)),
    decreases v.len(),
{
    broadcast use vstd::seq_lib::group_to_multiset_ensures;

    if v.len() > 0 {
        let front = v.drop_last();
        listing_sorts(front);
        lemma_inserted_sorts(in_order(front), v.last());
        assert(v =~= front.push(v.last()));
    }
}

/// A plugin that goes to its place leaves a list in order.
proof fn lemma_inserted_sorts(v: Seq<Plugin>, p: Plugin)
    requires
        never_falls(v),
    ensures
        inserted(v, p).to_multiset() == v.to_multiset().insert(p),
        never_falls(inserted(v, p)),
        forall|k: int|
            0 <= k < inserted(v, p).len() ==> inserted(v, p)[k] == p || v.contains(
                #[trigger] inserted(v, p)[k],
            ),
    decreases v.len(),
{
    broadcast use vstd::seq_lib::group_to_multiset_ensures;

    if v.len() > 0 && before(p.manifest.id@, v.last().manifest.id@) {
        let front = v.drop_last();
        let last = v.last();
        lemma_inserted_sorts(front, p);
        let r = inserted(front, p);
        let all = inserted(v, p);
        assert(v =~= front.push(last));
        assert forall|i: int, j: int| 0 <= i < j < all.len() implies !before(
            (#[trigger] all[j]).manifest.id@,
            (#[trigger] all[i]).manifest.id@,
        ) by {
            if j < r.len() {
                assert(all[j] == r[j] && all[i] == r[i]);
            } else {
                assert(all[j] == last);
                assert(all[i] == r[i]);
                if r[i] == p {
                    if before(last.manifest.id@, p.manifest.id@) {
                        before_transitive(last.manifest.id@, p.manifest.id@, last.manifest.id@);
                        before_irreflexive(last.manifest.id@);
                    }
                } else {
                    let k = choose|k: int| 0 <= k < front.len() && front[k] == r[i];
                    assert(v[k] == r[i] && v[v.len() - 1] == last);
                }
            }
        }
        assert forall|k: int| 0 <= k < all.len() implies all[k] == p || v.contains(
            #[trigger] all[k],
        ) by {
            if k < r.len() {
                assert(all[k] == r[k]);
                if r[k] != p {
                    let m = choose|m: int| 0 <= m < front.len() && front[m] == r[k];
                    assert(v[m] == all[k]);
                }
            } else {
                assert(v[v.len() - 1] == all[k]);
            }
        }
    } else {
        let all = v.push(p);
        assert forall|i: int, j: int| 0 <= i < j < all.len() implies !before(
            (#[trigger] all[j]).manifest.id@,
            (#[trigger] all[i]).manifest.id@,
        ) by {
            if j == v.len() {
                assert(all[i] == v[i]);
                if before(p.manifest.id@, v[i].manifest.id@) {
                    let last = v[v.len() - 1].manifest.id@;
                    if i < v.len() - 1 {
                        before_total(v[i].manifest.id@, last);
                        if before(v[i].manifest.id@, last) {
                            before_transitive(p.manifest.id@, v[i].manifest.id@, last);
                        }
                    }
                }
            } else {
                assert(all[i] == v[i] && all[j] == v[j]);
            }
        }
        assert forall|k: int| 0 <= k < all.len() implies all[k] == p || v.contains(
            #[trigger] all[k],
        ) by {
            if k < v.len() {
                assert(v[k] == all[k]);
            }
        }
    }
}

/// The first plugin with an id.
pub open spec fn plugin_with(v: Seq<Plugin>, id: Seq<char>) -> Option<Plugin>
    decreases v.len(),
{
    if v.len() == 0 {
        None
    } else if v[0].manifest.id@ == id {
        Some(v[0])
    } else {
        plugin_with(v.drop_first(), id)
    }
}

/// Whether the plugin with an id is found exactly where it is installed.
pub open spec fn plugin_found(v: Seq<Plugin>, id: Seq<char>, r: Result<&Plugin, String>) -> bool {
    match r {
        Ok(p) => plugin_with(v, id) == Some(*p),
        Err(e) => plugin_with(v, id) is None && e@ == "no plugin with id `"@ + id
            + "` installed"@,
    }
}

/// Finds the plugin with an id.
pub fn find<'a>(plugins: &'a Vec<Plugin>, id: &str) -> (r: Result<&'a Plugin, String>)
    ensures
        plugin_found(plugins@, id@, r),
{
    let mut i: usize = 0;
    assert(plugins@.skip(0) == plugins@);
    while i < plugins.len()
        invariant
            i <= plugins.len(),
            plugin_with(plugins@, id@) == plugin_with(plugins@.skip(i as int), id@),
        decreases plugins.len() - i,
    {
        if same(plugins[i].manifest.id.as_str(), id) {
            return Ok(&plugins[i]);
        }
        assert(plugins@.skip(i as int).drop_first() == plugins@.skip(i + 1));
        i += 1;
    }
    Err("no plugin with id `".to_owned().concat(id).concat("` installed"))
}

/// A plugin as it is listed.
pub open spec fn plugin_line(p: Plugin) -> Seq<char> {
    p.manifest.id@ + " v"@ + p.manifest.version@ + "\t"@ + p.manifest.name@ + "\t"@
        + p.manifest.description@
}

/// What `plugin list` prints.
pub open spec fn plugin_lines(v: Seq<Plugin>, dir: Seq<char>) -> Seq<Seq<char>> {
    if v.len() == 0 {
        seq!["(no plugins installed in "@ + dir + ")"@]
    } else {
        Seq::new(v.len(), |i: int| plugin_line(v[i]))
    }
}

/// Prints the plugins.
pub fn show_plugins(plugins: &Vec<Plugin>, dir: &str) -> (r: Vec<String>)
    ensures
        views(r@) == plugin_lines(plugins@, dir@),
{
    if plugins.len() == 0 {
        return one_line("(no plugins installed in ".to_owned().concat(dir).concat(")"));
    }
    let mut out: Vec<String> = Vec::new();
    let mut i: usize = 0;
    while i < plugins.len()
        invariant
            i <= plugins.len(),
            out@.len() == i,
            forall|k: int| 0 <= k < i ==> (#[trigger] out@[k])@ == plugin_line(plugins@[k]),
        decreases plugins.len() - i,
    {
        let m = &plugins[i].manifest;
        out.push(
            m.id.clone().concat(" v").concat(m.version.as_str()).concat("\t").concat(
                m.name.as_str(),
            ).concat("\t").concat(m.description.as_str()),
        );
        i += 1;
    }
    assert(views(out@) =~= plugin_lines(plugins@, dir@));
    out
}

/// Says that a plugin was installed.
pub fn installed_line(p: &Plugin) -> (r: String)
    ensures
        r@ == "installed "@ + p.manifest.id@ + " v"@ + p.manifest.version@ + " -> "@ + p.dir@,
{
    "installed ".to_owned().concat(p.manifest.id.as_str()).concat(" v").concat(
        p.manifest.version.as_str(),
    ).concat(" -> ").concat(p.dir.as_str())
}

/// Reads the arguments of an invocation.
pub fn parse_args(args: &str) -> (r: Result<Json, String>)
    ensures
        match r {
            Ok(j) => parsed_json(args@) == Ok::<JsonView, Seq<char>>(j@),
            Err(e) => parsed_json(args@) is Err && e@ == "--args must be valid JSON: "@
                + parsed_json(args@)->Err_0,
        },
{
    match Json::parse(args) {
        Ok(j) => Ok(j),
        Err(e) => Err("--args must be valid JSON: ".to_owned().concat(e.as_str())),
    }
}

// ---- trust ----

/// The id under which trust in a friend is kept: that of the friend who goes by a
/// username; anything else is an id already.
pub open spec fn trust_key(friends: Seq<Friend>, friend: Seq<char>) -> Seq<char> {
    match resolved(friends, friend) {
        Some(id) => id,
        None => friend,
    }
}

/// Finds the id under which trust in a friend is kept.
fn key_of(friends: &Vec<Friend>, friend: &str) -> (r: String)
    ensures
        r@ == trust_key(friends@, friend@),
{
    match resolve(friends, friend) {
        Some(id) => id,
        None => friend.to_owned(),
    }
}

/// Allows a friend, by username or id, a plugin.
pub fn trust_cmd(cfg: &mut Config, friends: &Vec<Friend>, friend: &str, plugin_id: &str) -> (r:
    Outcome)
    ensures
        trust_map(final(cfg).plugin_trust) == trust_given(
            trust_map(old(cfg).plugin_trust),
            plugin_id@,
            trust_key(friends@, friend@),
        ),
        *final(cfg) == (Config { plugin_trust: final(cfg).plugin_trust, ..*old(cfg) }),
        r@ == (OutcomeView {
            save: true,
            lines: seq![
                "trusted: friend "@ + friend@ + " may run plugin `"@ + plugin_id@
                    + "` on this client"@,
            ],
        }),
{
    cfg.trust_plugin(plugin_id, key_of(friends, friend).as_str());
    Outcome {
        save: true,
        lines: one_line(
            "trusted: friend ".to_owned().concat(friend).concat(" may run plugin `").concat(
                plugin_id,
            ).concat("` on this client"),
        ),
    }
}

/// What was said of a friend and a plugin is forgotten, under the friend's id and
/// under the very word that was given.
pub open spec fn trust_revoked(
    m: Map<Seq<char>, Map<Seq<char>, bool>>,
    friends: Seq<Friend>,
    friend: Seq<char>,
    plugin_id: Seq<char>,
) -> Map<Seq<char>, Map<Seq<char>, bool>> {
    trust_taken(trust_taken(m, plugin_id, trust_key(friends, friend)), plugin_id, friend)
}

/// Takes a plugin from a friend, by username or id, again.
pub fn untrust_cmd(cfg: &mut Config, friends: &Vec<Friend>, friend: &str, plugin_id: &str) -> (r:
    Outcome)
    ensures
        trust_map(final(cfg).plugin_trust) == trust_revoked(
            trust_map(old(cfg).plugin_trust),
            friends@,
            friend@,
            plugin_id@,
        ),
        *final(cfg) == (Config { plugin_trust: final(cfg).plugin_trust, ..*old(cfg) }),
        r@ == (OutcomeView {
            save: true,
            lines: seq![
                "revoked: friend "@ + friend@ + " for plugin `"@ + plugin_id@ + "`"@,
            ],
        }),
{
    cfg.untrust_plugin(plugin_id, key_of(friends, friend).as_str());
    cfg.untrust_plugin(plugin_id, friend);
    Outcome {
        save: true,
        lines: one_line(
            "revoked: friend ".to_owned().concat(friend).concat(" for plugin `").concat(
                plugin_id,
            ).concat("`"),
        ),
    }
}

/// Trust that is given by username is trust in the friend who goes by it, under
/// their id, and in nobody else; trust that is given by id is trust in that id.
pub proof fn trust_reaches_the_friend(
    m: Map<Seq<char>, Map<Seq<char>, bool>>,
    friends: Seq<Friend>,
    friend: Seq<char>,
    plugin_id: Seq<char>,
)
    ensures
        trusts(
            trust_given(m, plugin_id, trust_key(friends, friend)),
            plugin_id,
            match named(friends, friend) {
                Some(f) if !is_uuid(friend) => f.id@,
                _ => friend,
            },
        ),
        forall|p: Seq<char>, id: Seq<char>|
            p != plugin_id || id != trust_key(friends, friend) ==> #[trigger] trusts(
                trust_given(m, plugin_id, trust_key(friends, friend)),
                p,
                id,
            ) == trusts(m, p, id),
{
    trust_allows(m, plugin_id, trust_key(friends, friend));
}

/// What was given by username can be revoked by username or by id, and then the
/// friend is not trusted with the plugin any more.
pub proof fn revoked_friends_are_not_trusted(
    m: Map<Seq<char>, Map<Seq<char>, bool>>,
    friends: Seq<Friend>,
    friend: Seq<char>,
    plugin_id: Seq<char>,
)
    ensures
        !trusts(
            trust_revoked(m, friends, friend, plugin_id),
            plugin_id,
            trust_key(friends, friend),
        ),
        !trusts(trust_revoked(m, friends, friend, plugin_id), plugin_id, friend),
        !trusts(
            trust_taken(
                trust_given(m, plugin_id, trust_key(friends, friend)),
                plugin_id,
                trust_key(friends, friend),
            ),
            plugin_id,
            trust_key(friends, friend),
        ),
{
    let key = trust_key(friends, friend);
    untrust_revokes(m, plugin_id, key);
    untrust_revokes(trust_taken(m, plugin_id, key), plugin_id, friend);
    untrust_revokes(trust_given(m, plugin_id, key), plugin_id, key);
}

/// The friends who may run a plugin, one line each.
pub open spec fn friend_trust_lines(plugin_id: Seq<char>, friends: Seq<(String, bool)>) -> Seq<
    Seq<char>,
>
    decreases friends.len(),
{
    if friends.len() == 0 {
        Seq::empty()
    } else {
        let head = friend_trust_lines(plugin_id, friends.drop_last());
        if friends.last().1 {
            head.push(plugin_id + "\t"@ + friends.last().0@)
        } else {
            head
        }
    }
}

/// Who may run what, plugin by plugin.
pub open spec fn trust_lines(plugins: Seq<(String, StrMap<bool>)>) -> Seq<Seq<char>>
    decreases plugins.len(),
{
    if plugins.len() == 0 {
        Seq::empty()
    } else {
        trust_lines(plugins.drop_last()) + friend_trust_lines(
            plugins.last().0@,
            plugins.last().1.pairs(),
        )
    }
}

/// Adds the lines of one plugin.
fn add_trusted(out: Vec<String>, plugin_id: &str, friends: &StrMap<bool>) -> (r: Vec<String>)
    ensures
        views(r@) == views(out@) + friend_trust_lines(plugin_id@, friends.pairs()),
        rising(friends.pairs()),
{
    let ghost start = views(out@);
    let mut out = out;
    let n = friends.len();
    let mut i: usize = 0;
    assert(views(out@) =~= start + friend_trust_lines(plugin_id@, friends.pairs().take(0)));
    while i < n
        invariant
            i <= n,
            n == friends.pairs().len(),
            views(out@) == start + friend_trust_lines(
                plugin_id@,
                friends.pairs().take(i as int),
            ),
        decreases n - i,
    {
        let ghost done = views(out@);
        let (friend, allowed) = friends.at(i);
        proof {
            assert(friends.pairs().take(i + 1).drop_last() == friends.pairs().take(i as int));
            assert(friends.pairs().take(i + 1).last() == friends.pairs()[i as int]);
        }
        if *allowed {
            let line = plugin_id.to_owned().concat("\t").concat(friend.as_str());
            out.push(line);
            assert(views(out@) =~= done.push(line@));
        }
        i += 1;
        assert(views(out@) =~= start + friend_trust_lines(
            plugin_id@,
            friends.pairs().take(i as int),
        ));
    }
    assert(friends.pairs().take(i as int) == friends.pairs());
    out
}

/// Whether the plugins, and the friends of each, come in the order of their keys.
pub open spec fn in_key_order(m: StrMap<StrMap<bool>>) -> bool {
    &&& rising(m.pairs())
    &&& forall|i: int| 0 <= i < m.pairs().len() ==> rising((#[trigger] m.pairs()[i]).1.pairs())
}

/// Says who may run what.
pub fn trusted_cmd(cfg: &Config) -> (r: Vec<String>)
    ensures
        views(r@) == (if cfg.plugin_trust.pairs().len() == 0 {
            seq!["(no trust entries)"@]
        } else {
            trust_lines(cfg.plugin_trust.pairs())
        }),
        in_key_order(cfg.plugin_trust),
{
    let n = cfg.plugin_trust.len();
    if n == 0 {
        return one_line("(no trust entries)".to_owned());
    }
    let mut out: Vec<String> = Vec::new();
    let mut i: usize = 0;
    assert(cfg.plugin_trust.pairs().take(0) =~= Seq::empty());
    assert(views(out@) =~= Seq::<Seq<char>>::empty());
    while i < n
        invariant
            i <= n,
            n == cfg.plugin_trust.pairs().len(),
            views(out@) == trust_lines(cfg.plugin_trust.pairs().take(i as int)),
            forall|k: int|
                0 <= k < i ==> rising((#[trigger] cfg.plugin_trust.pairs()[k]).1.pairs()),
        decreases n - i,
    {
        let (plugin_id, friends) = cfg.plugin_trust.at(i);
        out = add_trusted(out, plugin_id.as_str(), friends);
        proof {
            let all = cfg.plugin_trust.pairs();
            assert(all.take(i + 1).drop_last() == all.take(i as int));
            assert(all.take(i + 1).last() == all[i as int]);
        }
        i += 1;
    }
    assert(cfg.plugin_trust.pairs().take(i as int) == cfg.plugin_trust.pairs());
    out
}

/// A friend who may run a plugin has a line, and every line is that of one.
proof fn lemma_friend_lines(plugin_id: Seq<char>, friends: Seq<(String, bool)>)
    ensures
        forall|k: int|
            0 <= k < friends.len() && (#[trigger] friends[k]).1 ==> friend_trust_lines(
                plugin_id,
                friends,
            ).contains(plugin_id + "\t"@ + friends[k].0@),
        forall|i: int|
            0 <= i < friend_trust_lines(plugin_id, friends).len() ==> has_friend_line(
                plugin_id,
                friends,
                #[trigger] friend_trust_lines(plugin_id, friends)[i],
            ),
    decreases friends.len(),
{
    if friends.len() > 0 {
        let front = friends.drop_last();
        let head = friend_trust_lines(plugin_id, front);
        let all = friend_trust_lines(plugin_id, friends);
        let n = friends.len() - 1;
        lemma_friend_lines(plugin_id, front);
        assert forall|k: int| 0 <= k < friends.len() && (#[trigger] friends[k]).1 implies all.contains(
            plugin_id + "\t"@ + friends[k].0@,
        ) by {
            if k == n {
                assert(all[head.len() as int] == plugin_id + "\t"@ + friends[k].0@);
            } else {
                assert(front[k] == friends[k]);
                let j = choose|j: int|
                    0 <= j < head.len() && head[j] == plugin_id + "\t"@ + front[k].0@;
                assert(all[j] == head[j]);
            }
        }
        assert forall|i: int| 0 <= i < all.len() implies has_friend_line(
            plugin_id,
            friends,
            #[trigger] all[i],
        ) by {
            if i < head.len() {
                assert(all[i] == head[i]);
                let k = choose|k: int|
                    0 <= k < front.len() && (#[trigger] front[k]).1 && head[i] == plugin_id + "\t"@
                        + front[k].0@;
                assert(friends[k] == front[k]);
            } else {
                assert(friends[n].1);
            }
        }
    }
}

/// Whether a line is that of a friend who may run a plugin.
pub open spec fn has_friend_line(
    plugin_id: Seq<char>,
    friends: Seq<(String, bool)>,
    line: Seq<char>,
) -> bool {
    exists|k: int|
        0 <= k < friends.len() && (#[trigger] friends[k]).1 && line == plugin_id + "\t"@
            + friends[k].0@
}

/// Whether a line is that of a friend who may run one of the plugins.
spec fn has_line(plugins: Seq<(String, StrMap<bool>)>, line: Seq<char>) -> bool {
    exists|k: int|
        0 <= k < plugins.len() && has_friend_line(
            (#[trigger] plugins[k]).0@,
            plugins[k].1.pairs(),
            line,
        )
}

/// The lines of a plugin are among those of all, and every line is that of one.
proof fn lemma_plugin_lines(plugins: Seq<(String, StrMap<bool>)>)
    ensures
        forall|k: int, line: Seq<char>|
            0 <= k < plugins.len() && #[trigger] friend_trust_lines(
                plugins[k].0@,
                plugins[k].1.pairs(),
            ).contains(line) ==> trust_lines(plugins).contains(line),
        forall|i: int|
            0 <= i < trust_lines(plugins).len() ==> has_line(
                plugins,
                #[trigger] trust_lines(plugins)[i],
            ),
    decreases plugins.len(),
{
    if plugins.len() > 0 {
        let front = plugins.drop_last();
        let head = trust_lines(front);
        let n = plugins.len() - 1;
        let tail = friend_trust_lines(plugins[n].0@, plugins[n].1.pairs());
        let all = trust_lines(plugins);
        lemma_plugin_lines(front);
        lemma_friend_lines(plugins[n].0@, plugins[n].1.pairs());
        assert forall|k: int, line: Seq<char>|
            0 <= k < plugins.len() && #[trigger] friend_trust_lines(
                plugins[k].0@,
                plugins[k].1.pairs(),
            ).contains(line) implies all.contains(line) by {
            if k == n {
                let j = choose|j: int| 0 <= j < tail.len() && tail[j] == line;
                assert(all[head.len() + j] == line);
            } else {
                assert(front[k] == plugins[k]);
                assert(head.contains(line));
                let j = choose|j: int| 0 <= j < head.len() && head[j] == line;
                assert(all[j] == line);
            }
        }
        assert forall|i: int| 0 <= i < all.len() implies has_line(plugins, #[trigger] all[i]) by {
            if i < head.len() {
                assert(all[i] == head[i]);
                let k = choose|k: int|
                    0 <= k < front.len() && has_friend_line(
                        (#[trigger] front[k]).0@,
                        front[k].1.pairs(),
                        head[i],
                    );
                assert(plugins[k] == front[k]);
            } else {
                assert(all[i] == tail[i - head.len()]);
                assert(has_friend_line(plugins[n].0@, plugins[n].1.pairs(), all[i]));
            }
        }
    }
}

/// Whether a line is that of a plugin and a friend who may run it.
pub open spec fn is_trust_line(m: StrMap<StrMap<bool>>, line: Seq<char>) -> bool {
    exists|p: Seq<char>, f: Seq<char>| #[trigger]
        trusts(trust_map(m), p, f) && line == p + "\t"@ + f
}

/// The listing is that of the trust: whoever may run a plugin is listed under it,
/// and nobody else is.
pub proof fn trust_is_listed(m: StrMap<StrMap<bool>>)
    requires
        in_key_order(m),
    ensures
        forall|p: Seq<char>, f: Seq<char>| #[trigger]
            trusts(trust_map(m), p, f) ==> trust_lines(m.pairs()).contains(p + "\t"@ + f),
        forall|i: int|
            0 <= i < trust_lines(m.pairs()).len() ==> is_trust_line(
                m,
                #[trigger] trust_lines(m.pairs())[i],
            ),
{
    let e = m.pairs();
    pairs_are_the_map(m);
    lemma_plugin_lines(e);
    assert forall|p: Seq<char>, f: Seq<char>| #[trigger] trusts(trust_map(m), p, f) implies trust_lines(
        e,
    ).contains(p + "\t"@ + f) by {
        assert(m@.contains_key(p));
        let k = place(e, p);
        let inner = e[k].1;
        assert(m@[p] == inner);
        pairs_are_the_map(inner);
        assert(inner@.contains_key(f));
        let j = place(inner.pairs(), f);
        assert(inner.pairs()[j].0@ == f && inner.pairs()[j].1);
        lemma_friend_lines(p, inner.pairs());
        assert(friend_trust_lines(e[k].0@, e[k].1.pairs()).contains(p + "\t"@ + f));
    }
    assert forall|i: int| 0 <= i < trust_lines(e).len() implies is_trust_line(
        m,
        #[trigger] trust_lines(e)[i],
    ) by {
        let line = trust_lines(e)[i];
        let k = choose|k: int|
            0 <= k < e.len() && has_friend_line((#[trigger] e[k]).0@, e[k].1.pairs(), line);
        let inner = e[k].1;
        let j = choose|j: int|
            0 <= j < inner.pairs().len() && (#[trigger] inner.pairs()[j]).1 && line == e[k].0@
                + "\t"@ + inner.pairs()[j].0@;
        pairs_are_the_map(inner);
        assert(m@.contains_key(e[k].0@) && m@[e[k].0@] == inner);
        assert(trusts(trust_map(m), e[k].0@, inner.pairs()[j].0@));
    }
}

// ---- invocations ----

/// What a friend is sent to invoke a plugin: what the plugin is, for the friend
/// to decide on, and the arguments.
pub open spec fn envelope_of(m: Manifest, args: JsonView) -> JsonView {
    JsonView::Obj(
        map![
            "plugin"@ => JsonView::Obj(
                map![
                    "id"@ => JsonView::Str(m.id@),
                    "name"@ => JsonView::Str(m.name@),
                    "version"@ => JsonView::Str(m.version@),
                    "author"@ => JsonView::Str(m.author@),
                    "description"@ => JsonView::Str(m.description@),
                ],
            ),
            "args"@ => args,
        ],
    )
}

/// Makes what a friend is sent to invoke a plugin.
pub fn payload_envelope(plugin: &Plugin, args: Json) -> (r: Json)
    ensures
        r@ == envelope_of(plugin.manifest, args@),
{
    let m = &plugin.manifest;
    Fields::new().with(
        "plugin",
        Fields::new().with_text("id", m.id.as_str()).with_text("name", m.name.as_str()).with_text(
            "version",
            m.version.as_str(),
        ).with_text("author", m.author.as_str()).with_text(
            "description",
            m.description.as_str(),
        ).done(),
    ).with("args", args).done()
}

/// What an invocation from a friend comes to.
pub enum Incoming {
    /// It names no plugin.
    Nameless,
    /// The friend is not trusted with the plugin: print a line and show a card
    /// that ask for it.
    Ask { line: String, card: OverlayEvent },
    /// The friend is trusted: run the plugin, if it is installed.
    Run { plugin_id: String, args: Json },
}

/// The request for trust in a friend and a plugin.
pub open spec fn ask_words(from: Seq<char>, plugin_id: Seq<char>, meta: JsonView) -> Seq<char> {
    "[plugin] AUTHORIZATION REQUIRED — "@ + from + " sent plugin `"@ + plugin_id + "` ("@
        + meta.text_or("name"@, plugin_id) + " v"@ + meta.text_or("version"@, "?"@) + " by "@
        + meta.text_or("author"@, ""@) + ").\n          "@ + meta.text_or("description"@, ""@)
        + "\n          Authorize with:  sociacli plugin trust "@ + from + " "@ + plugin_id
}

/// The card that asks for trust in a friend, who goes by their username, and a
/// plugin.
pub open spec fn ask_card(
    from: Seq<char>,
    from_username: Seq<char>,
    plugin_id: Seq<char>,
) -> EventView {
    EventView {
        kind: "action"@,
        payload: card(
            from,
            from_username,
            "plugin"@,
            "AUTHORIZATION REQUIRED"@,
            from_username + " sent plugin `"@ + plugin_id + "` — sociacli plugin trust "@
                + from_username + " "@ + plugin_id,
            empty_obj(),
        ),
    }
}

/// Whether an invocation from a friend comes to what it should.
pub open spec fn incoming_done(
    cfg: Config,
    friends: Seq<Friend>,
    from: Seq<char>,
    data: JsonView,
    r: Incoming,
) -> bool {
    let meta = data.member_or("plugin"@, JsonView::Null);
    match meta.text_member("id"@) {
        None => r is Nameless,
        Some(id) => if trusts(trust_map(cfg.plugin_trust), id, from) {
            r matches Incoming::Run { plugin_id, args } && plugin_id@ == id && args@
                == data.member_or("args"@, empty_obj())
        } else {
            r matches Incoming::Ask { line, card } && line@ == ask_words(from, id, meta) && card@
                == ask_card(from, label_of(friends, from), id)
        },
    }
}

/// Looks into an invocation from a friend, who goes by their id. Only a friend who
/// is trusted with the plugin has it run.
pub fn handle_incoming_plugin(
    cfg: &Config,
    friends: &Vec<Friend>,
    from: &str,
    data: &Json,
) -> (r: Incoming)
    ensures
        incoming_done(*cfg, friends@, from@, data@, r),
{
    let meta = data.member_or("plugin", Json::Null);
    let id = match meta.text_member("id") {
        Some(id) => id,
        None => {
            return Incoming::Nameless;
        },
    };
    if cfg.is_plugin_trusted(id, from) {
        Incoming::Run {
            plugin_id: id.to_owned(),
            args: data.member_or("args", Json::object()),
        }
    } else {
        let line = "[plugin] AUTHORIZATION REQUIRED — ".to_owned().concat(from).concat(
            " sent plugin `",
        ).concat(id).concat("` (").concat(meta.text_or("name", id).as_str()).concat(" v").concat(
            meta.text_or("version", "?").as_str(),
        ).concat(" by ").concat(meta.text_or("author", "").as_str()).concat(
            ").\n          ",
        ).concat(meta.text_or("description", "").as_str()).concat(
            "\n          Authorize with:  sociacli plugin trust ",
        ).concat(from).concat(" ").concat(id);
        let username = label(friends, from);
        let body = username.clone().concat(" sent plugin `").concat(id).concat(
            "` — sociacli plugin trust ",
        ).concat(username.as_str()).concat(" ").concat(id);
        let card = make_card(
            from,
            username.as_str(),
            "plugin",
            "AUTHORIZATION REQUIRED",
            body.as_str(),
            Json::object(),
        );
        Incoming::Ask { line, card }
    }
}

/// Says that a plugin that was invoked is not installed.
pub fn not_installed_line(plugin_id: &str, reason: &str) -> (r: String)
    ensures
        r@ == "[plugin] trusted but not installed locally: "@ + plugin_id@ + " — "@ + reason@
            + ". Install with `sociacli plugin install <path>`."@,
{
    "[plugin] trusted but not installed locally: ".to_owned().concat(plugin_id).concat(
        " — ",
    ).concat(reason).concat(". Install with `sociacli plugin install <path>`.")
}

/// An invocation that one client sends is taken for that plugin by another: once
/// the sender is trusted, it is run with the arguments that were sent.
pub proof fn invocations_arrive(m: Manifest, args: JsonView)
    ensures
        envelope_of(m, args).member_or("plugin"@, JsonView::Null).text_member("id"@) == Some(m.id@),
        envelope_of(m, args).member_or("args"@, empty_obj()) == args,
{
    reveal_strlit("plugin");
    reveal_strlit("args");
    reveal_strlit("id");
    reveal_strlit("name");
    reveal_strlit("version");
    reveal_strlit("author");
    reveal_strlit("description");
    assert("plugin"@.len() == 6);
    assert("args"@.len() == 4);
    assert("id"@.len() == 2);
    assert("name"@.len() == 4);
    assert("version"@.len() == 7);
    assert("author"@.len() == 6);
    assert("description"@.len() == 11);
}

// ---- the sandbox ----

/// Whether a path lies under a directory, both by their components.
pub open spec fn is_within(path: Seq<Vec<u8>>, root: Seq<Vec<u8>>) -> bool {
    root.len() <= path.len() && forall|i: int|
        0 <= i < root.len() ==> (#[trigger] root[i])@ == path[i]@
}

/// Whether two components are the same.
fn same_bytes(a: &Vec<u8>, b: &Vec<u8>) -> (r: bool)
    ensures
        r == (a@ == b@),
{
    if a.len() != b.len() {
        return false;
    }
    let mut i: usize = 0;
    while i < a.len()
        invariant
            i <= a.len(),
            a.len() == b.len(),
            forall|k: int| 0 <= k < i ==> a@[k] == b@[k],
        decreases a.len() - i,
    {
        if a[i] != b[i] {
            return false;
        }
        i += 1;
    }
    assert(a@ =~= b@);
    true
}

/// Whether a path is let through exactly where it is in the sandbox.
pub open spec fn kept_in(
    path: Seq<Vec<u8>>,
    root: Seq<Vec<u8>>,
    path_shown: Seq<char>,
    root_shown: Seq<char>,
    r: Result<(), String>,
) -> bool {
    match r {
        Ok(_) => is_within(path, root),
        Err(e) => !is_within(path, root) && e@ == "path `"@ + path_shown
            + "` escapes plugin sandbox `"@ + root_shown + "`"@,
    }
}

/// Lets a script have a file only in the directory of its plugin. Both paths are
/// given with all links and dots resolved, by their components, and as they are
/// shown.
pub fn sandbox(
    path: &Vec<Vec<u8>>,
    root: &Vec<Vec<u8>>,
    path_shown: &str,
    root_shown: &str,
) -> (r: Result<(), String>)
    ensures
        kept_in(path@, root@, path_shown@, root_shown@, r),
{
    let mut inside = root.len() <= path.len();
    let mut i: usize = 0;
    while inside && i < root.len()
        invariant
            i <= root.len(),
            inside ==> root.len() <= path.len(),
            inside ==> forall|k: int| 0 <= k < i ==> (#[trigger] root@[k])@ == path@[k]@,
            !inside ==> !is_within(path@, root@),
        decreases root.len() - i,
    {
        if same_bytes(&root[i], &path[i]) {
            i += 1;
        } else {
            assert(root@[i as int]@ != path@[i as int]@);
            inside = false;
            i += 1;
        }
    }
    if inside {
        Ok(())
    } else {
        Err(
            "path `".to_owned().concat(path_shown).concat("` escapes plugin sandbox `").concat(
                root_shown,
            ).concat("`"),
        )
    }
}

// ---- the store of a plugin ----

/// What a store file holds: an object, or else nothing. One that is no JSON is
/// an error.
pub open spec fn store_in(raw: Option<Seq<char>>) -> Result<JsonView, Seq<char>> {
    match raw {
        Some(text) => match parsed_json(text) {
            Ok(t) => Ok(
                if t is Obj {
                    t
                } else {
                    empty_obj()
                },
            ),
            Err(e) => Err(e),
        },
        None => Ok(empty_obj()),
    }
}

/// The store that scripts see: what the file holds, and nothing where it cannot
/// be read.
pub open spec fn store_tree(raw: Option<Seq<char>>) -> JsonView {
    match store_in(raw) {
        Ok(t) => t,
        Err(_) => empty_obj(),
    }
}

/// The store that a JSON value is: an object, or else an empty one.
pub fn store_from(v: Json) -> (r: Json)
    ensures
        is_tidy(v) ==> is_tidy(r),
        r@ == (if v@ is Obj {
            v@
        } else {
            empty_obj()
        }),
{
    match v {
        Json::Obj(m) => Json::Obj(m),
        _ => Json::object(),
    }
}

/// Reads a store file, where there is one. What `save_store` wrote of whole
/// numbers and less than 128 levels is read back.
pub fn load_store(raw: Option<&str>) -> (r: Result<Json, String>)
    ensures
        store_in(
            match raw {
                Some(text) => Some(text@),
                None => None,
            },
        ) == (match r {
            Ok(j) => Ok::<JsonView, Seq<char>>(j@),
            Err(e) => Err::<JsonView, Seq<char>>(e@),
        }),
        r matches Ok(j) ==> j@ is Obj && is_tidy(j),
        forall|t: JsonView|
            #![trigger t.fits(127)]
            raw is Some && t is Obj && t.fits(127) && raw->0@ == json_pretty_text(t) ==> r is Ok
                && r->Ok_0@ == t,
{
    match raw {
        Some(text) => match Json::parse(text) {
            Ok(v) => Ok(store_from(v)),
            Err(e) => Err(e),
        },
        None => Ok(Json::object()),
    }
}

/// The store that scripts see.
pub fn store_or_empty(raw: Option<&str>) -> (r: Json)
    ensures
        r@ == store_tree(
            match raw {
                Some(text) => Some(text@),
                None => None,
            },
        ),
        r@ is Obj,
        is_tidy(r),
{
    match load_store(raw) {
        Ok(store) => store,
        Err(_) => Json::object(),
    }
}

/// Writes a store file.
pub fn save_store(store: &Json) -> (r: String)
    ensures
        r@ == json_pretty_text(store@),
{
    store.to_pretty_text()
}

/// What is set in a store is what is got from it, and other keys are not
/// touched; what is deleted is gone.
pub proof fn stores_remember(
    store: JsonView,
    key: Seq<char>,
    value: JsonView,
    other: Seq<char>,
)
    requires
        store is Obj,
        other != key,
    ensures
        store.put(key, value).get(key) == Some(value),
        store.put(key, value).get(other) == store.get(other),
        store.without(key).get(key) is None,
        store.without(key).get(other) == store.get(other),
        store.put(key, value) is Obj,
        store.without(key) is Obj,
{
}

/// A store that can be read back still can after a value that fits was set, or
/// one was deleted.
pub proof fn stores_stay_readable(store: JsonView, key: Seq<char>, value: JsonView)
    requires
        store is Obj,
        store.fits(127),
        value.fits(126),
    ensures
        store.put(key, value).fits(127),
        store.without(key).fits(127),
{
    let m = store->Obj_0;
    assert forall|k: Seq<char>| #[trigger] m.insert(key, value).contains_key(k) implies m.insert(
        key,
        value,
    )[k].fits(126) by {
        if k != key {
            assert(m.contains_key(k));
        }
    }
    assert forall|k: Seq<char>| #[trigger] m.remove(key).contains_key(k) implies m.remove(
        key,
    )[k].fits(126) by {
        assert(m.contains_key(k));
    }
}

} // verus!
