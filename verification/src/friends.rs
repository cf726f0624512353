//! The friend list: finding a friend, knowing whether an action would reach
//! one, and the one-shot commands about friends and permissions.
use vstd::prelude::*;

use crate::json::{Fields, Json};
#[allow(unused_imports)]
use crate::json::{trees, JsonView};
use crate::protocol::{friends_json, ActionKind, ClientMsg, Friend, Perm, ServerMsg};
#[allow(unused_imports)]
use crate::protocol::{friends_tree, kind_word, perm_frame, tag_frame, user_frame};
use crate::text::{contains, same, to_lowercase};
#[allow(unused_imports)]
use crate::text::{ascii_lowercase, found_at, lowercase, occurs, views};

verus! {

// ---- identifiers ----

/// A hexadecimal digit of either case.
pub open spec fn is_hex(c: char) -> bool {
    ||| '0' <= c <= '9'
    ||| 'a' <= c <= 'f'
    ||| 'A' <= c <= 'F'
}

/// Eight, four, four, four and twelve hexadecimal digits, with hyphens between
/// the groups.
pub open spec fn is_hyphenated(s: Seq<char>) -> bool {
    &&& s.len() == 36
    &&& forall|i: int|
        #![trigger s[i]]
        0 <= i < 36 ==> if i == 8 || i == 13 || i == 18 || i == 23 {
            s[i] == '-'
        } else {
            is_hex(s[i])
        }
}

/// The texts that name a UUID: bare digits, with hyphens, in braces, or as a
/// URN.
pub open spec fn is_uuid(s: Seq<char>) -> bool {
    ||| s.len() == 32 && forall|i: int| 0 <= i < 32 ==> is_hex(#[trigger] s[i])
    ||| is_hyphenated(s)
    ||| s.len() == 38 && s[0] == '{' && s[37] == '}' && is_hyphenated(s.subrange(1, 37))
    ||| s.len() == 45 && ascii_lowercase(s.take(9)) == "urn:uuid:"@ && is_hyphenated(s.skip(9))
}

/// `uuid::Uuid::parse_str`: it succeeds on the four notations of a UUID.
#[verifier::external_body]
fn parse_uuid(s: &str) -> (r: bool)
    ensures
        r == is_uuid(s@),
{
    uuid::Uuid::parse_str(s).is_ok()
}

// ---- finding a friend ----

/// The first friend with a username.
pub open spec fn named(friends: Seq<Friend>, name: Seq<char>) -> Option<Friend>
    decreases friends.len(),
{
    if friends.len() == 0 {
        None
    } else if friends[0].username@ == name {
        Some(friends[0])
    } else {
        named(friends.drop_first(), name)
    }
}

/// The first friend with an id.
pub open spec fn with_id(friends: Seq<Friend>, id: Seq<char>) -> Option<Friend>
    decreases friends.len(),
{
    if friends.len() == 0 {
        None
    } else if friends[0].id@ == id {
        Some(friends[0])
    } else {
        with_id(friends.drop_first(), id)
    }
}

/// The id that a username or an id stands for: an id itself, a username through
/// the friend list.
pub open spec fn resolved(friends: Seq<Friend>, ident: Seq<char>) -> Option<Seq<char>> {
    if is_uuid(ident) {
        Some(ident)
    } else {
        match named(friends, ident) {
            Some(f) => Some(f.id@),
            None => None,
        }
    }
}

/// The username behind an id, or the id itself for a stranger.
pub open spec fn label_of(friends: Seq<Friend>, id: Seq<char>) -> Seq<char> {
    match with_id(friends, id) {
        Some(f) => f.username@,
        None => id,
    }
}

/// Finds the first friend with a username.
pub fn find_named<'a>(friends: &'a Vec<Friend>, name: &str) -> (r: Option<&'a Friend>)
    ensures
        match r {
            Some(f) => named(friends@, name@) == Some(*f),
            None => named(friends@, name@) is None,
        },
{
    let mut i: usize = 0;
    assert(friends@.skip(0) == friends@);
    while i < friends.len()
        invariant
            i <= friends.len(),
            named(friends@, name@) == named(friends@.skip(i as int), name@),
        decreases friends.len() - i,
    {
        if same(friends[i].username.as_str(), name) {
            return Some(&friends[i]);
        }
        assert(friends@.skip(i as int).drop_first() == friends@.skip(i + 1));
        i += 1;
    }
    None
}

/// Finds the first friend with an id.
pub fn find_with_id<'a>(friends: &'a Vec<Friend>, id: &str) -> (r: Option<&'a Friend>)
    ensures
        match r {
            Some(f) => with_id(friends@, id@) == Some(*f),
            None => with_id(friends@, id@) is None,
        },
{
    let mut i: usize = 0;
    assert(friends@.skip(0) == friends@);
    while i < friends.len()
        invariant
            i <= friends.len(),
            with_id(friends@, id@) == with_id(friends@.skip(i as int), id@),
        decreases friends.len() - i,
    {
        if same(friends[i].id.as_str(), id) {
            return Some(&friends[i]);
        }
        assert(friends@.skip(i as int).drop_first() == friends@.skip(i + 1));
        i += 1;
    }
    None
}

/// Whether a text is an id already and needs no friend list.
pub fn is_id(ident: &str) -> (r: bool)
    ensures
        r == is_uuid(ident@),
{
    parse_uuid(ident)
}

/// Turns a username or an id into an id.
pub fn resolve(friends: &Vec<Friend>, ident: &str) -> (r: Option<String>)
    ensures
        match r {
            Some(id) => resolved(friends@, ident@) == Some(id@),
            None => resolved(friends@, ident@) is None,
        },
{
    if parse_uuid(ident) {
        Some(ident.to_owned())
    } else {
        match find_named(friends, ident) {
            Some(f) => Some(f.id.clone()),
            None => None,
        }
    }
}

/// The username behind an id, or the id.
pub fn label(friends: &Vec<Friend>, id: &str) -> (r: String)
    ensures
        r@ == label_of(friends@, id@),
{
    match find_with_id(friends, id) {
        Some(f) => f.username.clone(),
        None => id.to_owned(),
    }
}

/// What `named` and `with_id` give back is in the list and has what was asked
/// for.
pub proof fn found_friends_are_listed(friends: Seq<Friend>, key: Seq<char>)
    ensures
        named(friends, key) matches Some(f) ==> friends.contains(f) && f.username@ == key,
        named(friends, key) is None ==> forall|i: int|
            0 <= i < friends.len() ==> (#[trigger] friends[i]).username@ != key,
        with_id(friends, key) matches Some(f) ==> friends.contains(f) && f.id@ == key,
        with_id(friends, key) is None ==> forall|i: int|
            0 <= i < friends.len() ==> (#[trigger] friends[i]).id@ != key,
    decreases friends.len(),
{
    if friends.len() > 0 {
        let rest = friends.drop_first();
        found_friends_are_listed(rest, key);
        assert(friends[0] == friends.first());
        if named(friends, key) is Some && friends[0].username@ != key {
            let i = choose|i: int| 0 <= i < rest.len() && rest[i] == named(rest, key)->0;
            assert(friends[i + 1] == rest[i]);
        }
        if with_id(friends, key) is Some && friends[0].id@ != key {
            let i = choose|i: int| 0 <= i < rest.len() && rest[i] == with_id(rest, key)->0;
            assert(friends[i + 1] == rest[i]);
        }
        assert forall|i: int| 0 < i < friends.len() implies friends[i] == rest[i - 1] by {}
    }
}

// ---- whether an action would reach a friend ----

/// Why an action of kind `kind` would not reach a friend, going by the state
/// that the daemon reports of them; nothing where it would.
pub open spec fn obstacle(
    friend_id: Seq<char>,
    kind: Seq<char>,
    state: JsonView,
) -> Option<Seq<char>> {
    let username = state.text_or("username"@, friend_id);
    let status = state.text_or("status"@, ""@);
    if status == "accepted"@ {
        if !state.flag("online"@) {
            Some(username + " is offline"@)
        } else if state.text_or("presence"@, "online"@) == "dnd"@ {
            Some(username + " is in Do Not Disturb — your "@ + kind + " would be dropped"@)
        } else {
            None
        }
    } else if status == "pending_out"@ {
        Some(username + " hasn't accepted your friend request yet"@)
    } else if status == "pending_in"@ {
        Some(
            username + " sent you a request — accept it first with `friend accept "@ + username
                + "`"@,
        )
    } else {
        Some("you're not friends with "@ + username)
    }
}

/// The question to the daemon for the state of a friend.
pub open spec fn state_request_of(friend_id: Seq<char>) -> JsonView {
    JsonView::Obj(
        map!["cmd"@ => JsonView::Str("friend-state"@), "friend_id"@ => JsonView::Str(friend_id)],
    )
}

/// Asks the daemon for the state of a friend.
pub fn state_request(friend_id: &str) -> (r: Json)
    ensures
        r@ == state_request_of(friend_id@),
{
    Fields::new().with_text("cmd", "friend-state").with_text("friend_id", friend_id).done()
}

/// Whether what stands in the way of an action is told right, going by what is
/// known of the friend.
pub open spec fn reached(
    friend_id: Seq<char>,
    action_kind: Seq<char>,
    state: Option<JsonView>,
    r: Option<(String, String)>,
) -> bool {
    match state {
        None => r is None,
        Some(s) => match r {
            Some((reason, username)) => obstacle(friend_id, action_kind, s) == Some(reason@)
                && username@ == s.text_or("username"@, friend_id),
            None => obstacle(friend_id, action_kind, s) is None,
        },
    }
}

/// Says why an action would not reach a friend, and under which name the friend
/// goes. Without a daemon to ask nothing is known and nothing is blocked.
pub fn recipient_unreachable(friend_id: &str, action_kind: &str, state: Option<&Json>) -> (r:
    Option<(String, String)>)
    ensures
        reached(
            friend_id@,
            action_kind@,
            match state {
                Some(s) => Some(s@),
                None => None,
            },
            r,
        ),
{
    let reply = match state {
        Some(s) => s,
        None => {
            return None;
        },
    };
    let username = reply.text_or("username", friend_id);
    let status = reply.text_or("status", "");
    if same(status.as_str(), "accepted") {
        if !reply.flag("online") {
            return Some((username.clone().concat(" is offline"), username));
        }
        let presence = reply.text_or("presence", "online");
        if same(presence.as_str(), "dnd") {
            return Some(
                (
                    username.clone().concat(" is in Do Not Disturb — your ").concat(
                        action_kind,
                    ).concat(" would be dropped"),
                    username,
                ),
            );
        }
        return None;
    }
    if same(status.as_str(), "pending_out") {
        return Some(
            (username.clone().concat(" hasn't accepted your friend request yet"), username),
        );
    }
    if same(status.as_str(), "pending_in") {
        return Some(
            (
                username.clone().concat(
                    " sent you a request — accept it first with `friend accept ",
                ).concat(username.as_str()).concat("`"),
                username,
            ),
        );
    }
    Some(("you're not friends with ".to_owned().concat(username.as_str()), username))
}

/// An action goes out exactly to an accepted friend who is online and not in Do
/// Not Disturb.
pub proof fn only_reachable_friends_are_sent_to(
    friend_id: Seq<char>,
    kind: Seq<char>,
    state: JsonView,
)
    ensures
        obstacle(friend_id, kind, state) is None <==> {
            &&& state.text_or("status"@, ""@) == "accepted"@
            &&& state.flag("online"@)
            &&& state.text_or("presence"@, "online"@) != "dnd"@
        },
{
}

// ---- one-shot commands ----

/// How long a command about friends or permissions that talks to the server
/// itself waits for an objection.
pub const CHANGE_WAIT_MS: u64 = 500;

/// How long a search for friends that talks to the server itself waits for the
/// list.
pub const FIND_WAIT_MS: u64 = 800;

/// How long an action that is sent to the server directly waits for an objection.
pub const SEND_WAIT_MS: u64 = 300;

/// What a command that talks to the server itself can hear while it waits.
pub enum Heard {
    Timeout,
    Closed,
    Said(ServerMsg),
}

/// What such a command does next.
pub enum Flow {
    /// Goes on waiting.
    Wait,
    /// Prints these lines and ends.
    Done(Vec<String>),
    /// Fails with this message.
    Fail(String),
}

/// The model of a next step.
pub enum FlowView {
    Wait,
    Done(Seq<Seq<char>>),
    Fail(Seq<char>),
}

impl Flow {
    /// The step over the views of its texts.
    pub open spec fn view(self) -> FlowView {
        match self {
            Flow::Wait => FlowView::Wait,
            Flow::Done(lines) => FlowView::Done(views(lines@)),
            Flow::Fail(m) => FlowView::Fail(m@),
        }
    }
}

/// A list of one line.
pub fn one_line(s: String) -> (r: Vec<String>)
    ensures
        views(r@) == seq![s@],
{
    let mut out: Vec<String> = Vec::new();
    out.push(s);
    assert(views(out@) =~= seq![s@]);
    out
}

/// The complaint of the server, as it is passed on.
pub open spec fn server_complaint(message: Seq<char>) -> Seq<char> {
    "server: "@ + message
}

/// Passes a complaint of the server on.
pub fn complain(message: &str) -> (r: String)
    ensures
        r@ == server_complaint(message@),
{
    "server: ".to_owned().concat(message)
}

/// What the wait for the greeting comes to: it ends with the greeting and
/// fails when it takes too long or the connection closes.
pub open spec fn hello_step(h: Heard) -> FlowView {
    match h {
        Heard::Timeout => FlowView::Fail(
            "timed out waiting for server hello (is the daemon holding the connection? try `daemon restart`)"@,
        ),
        Heard::Closed => FlowView::Fail("connection closed before server hello"@),
        Heard::Said(ServerMsg::HelloOk { .. }) => FlowView::Done(Seq::empty()),
        Heard::Said(_) => FlowView::Wait,
    }
}

/// Waits for the server's greeting.
pub fn await_hello(h: &Heard) -> (r: Flow)
    ensures
        r@ == hello_step(*h),
{
    match h {
        Heard::Timeout => Flow::Fail(
            "timed out waiting for server hello (is the daemon holding the connection? try `daemon restart`)".to_owned(),
        ),
        Heard::Closed => Flow::Fail("connection closed before server hello".to_owned()),
        Heard::Said(m) => match m {
            ServerMsg::HelloOk { .. } => {
                let none: Vec<String> = Vec::new();
                assert(views(none@) =~= Seq::<Seq<char>>::empty());
                Flow::Done(none)
            },
            _ => Flow::Wait,
        },
    }
}

// ---- resolving without a friend list of one's own ----

/// The daemon's answer to a name: an id, a refusal, or nothing to go by.
pub open spec fn resolve_answer(reply: JsonView) -> Option<Result<Seq<char>, Seq<char>>> {
    match reply.text_member("id"@) {
        Some(id) => Some(Ok(id)),
        None => match reply.text_member("error"@) {
            Some(e) => Some(Err(e)),
            None => None,
        },
    }
}

/// The question to the daemon for the id behind a name.
pub open spec fn resolve_request_of(ident: Seq<char>) -> JsonView {
    JsonView::Obj(
        map!["cmd"@ => JsonView::Str("resolve-friend"@), "ident"@ => JsonView::Str(ident)],
    )
}

/// Asks the daemon to resolve a name.
pub fn resolve_request(ident: &str) -> (r: Json)
    ensures
        r@ == resolve_request_of(ident@),
{
    Fields::new().with_text("cmd", "resolve-friend").with_text("ident", ident).done()
}

/// Reads the daemon's answer to a name.
pub fn resolve_reply(reply: &Json) -> (r: Option<Result<String, String>>)
    ensures
        resolve_answer(reply@) == (match r {
            Some(Ok(id)) => Some(Ok::<Seq<char>, Seq<char>>(id@)),
            Some(Err(e)) => Some(Err::<Seq<char>, Seq<char>>(e@)),
            None => None,
        }),
{
    match reply.text_member("id") {
        Some(id) => Some(Ok(id.to_owned())),
        None => match reply.text_member("error") {
            Some(e) => Some(Err(e.to_owned())),
            None => None,
        },
    }
}

/// What a frame of the server says about a name, when there is no daemon.
pub open spec fn resolve_heard(
    ident: Seq<char>,
    h: Heard,
) -> Option<Result<Seq<char>, Seq<char>>> {
    match h {
        Heard::Said(ServerMsg::Friends { friends }) => Some(
            match named(friends@, ident) {
                Some(f) => Ok(f.id@),
                None => Err("no friend named "@ + ident),
            },
        ),
        Heard::Said(ServerMsg::Error { message }) => Some(Err(server_complaint(message@))),
        Heard::Closed => Some(Err("ws closed before friend list arrived"@)),
        _ => None,
    }
}

/// Looks for a name in what the server says; nothing while the friend list has
/// not come.
pub fn resolve_from_server(ident: &str, h: &Heard) -> (r: Option<Result<String, String>>)
    ensures
        resolve_heard(ident@, *h) == (match r {
            Some(Ok(id)) => Some(Ok::<Seq<char>, Seq<char>>(id@)),
            Some(Err(e)) => Some(Err::<Seq<char>, Seq<char>>(e@)),
            None => None,
        }),
{
    match h {
        Heard::Timeout => None,
        Heard::Closed => Some(Err("ws closed before friend list arrived".to_owned())),
        Heard::Said(m) => match m {
            ServerMsg::Friends { friends } => match find_named(friends, ident) {
                Some(f) => Some(Ok(f.id.clone())),
                None => Some(Err("no friend named ".to_owned().concat(ident))),
            },
            ServerMsg::Error { message } => Some(Err(complain(message.as_str()))),
            _ => None,
        },
    }
}

/// Whether the friend list is taken from what was heard exactly where it is there.
pub open spec fn list_heard(h: Heard, r: Option<Result<Vec<Friend>, String>>) -> bool {
    match h {
        Heard::Said(ServerMsg::Friends { friends }) => r == Some(
            Ok::<Vec<Friend>, String>(friends),
        ),
        Heard::Said(ServerMsg::Error { message }) => r matches Some(Err(e)) && e@
            == server_complaint(message@),
        Heard::Closed => r matches Some(Err(e)) && e@ == "ws closed before friend list arrived"@,
        _ => r is None,
    }
}

/// Takes the friend list out of what the server says; nothing while it has not
/// come.
pub fn list_from_server(h: Heard) -> (r: Option<Result<Vec<Friend>, String>>)
    ensures
        list_heard(h, r),
{
    match h {
        Heard::Timeout => None,
        Heard::Closed => Some(Err("ws closed before friend list arrived".to_owned())),
        Heard::Said(m) => match m {
            ServerMsg::Friends { friends } => Some(Ok(friends)),
            ServerMsg::Error { message } => Some(Err(complain(message.as_str()))),
            _ => None,
        },
    }
}

// ---- the friend commands ----

/// A command about friends.
pub enum FriendCmd {
    Add { username: String },
    Accept { username: String },
    Remove { username: String },
    List,
    Find { query: String },
}

/// A request to the daemon that is nothing but its command.
pub open spec fn bare_request(cmd: Seq<char>) -> JsonView {
    JsonView::Obj(map!["cmd"@ => JsonView::Str(cmd)])
}

/// A request to the daemon about a user.
pub open spec fn user_request(cmd: Seq<char>, username: Seq<char>) -> JsonView {
    JsonView::Obj(map!["cmd"@ => JsonView::Str(cmd), "username"@ => JsonView::Str(username)])
}

/// Makes a request that is nothing but its command.
pub fn bare(cmd: &str) -> (r: Json)
    ensures
        r@ == bare_request(cmd@),
{
    Fields::new().with_text("cmd", cmd).done()
}

/// Makes a request about a user.
fn about(cmd: &str, username: &str) -> (r: Json)
    ensures
        r@ == user_request(cmd@, username@),
{
    Fields::new().with_text("cmd", cmd).with_text("username", username).done()
}

/// The request that a friend command makes to the daemon. To find friends is to
/// list them and look.
pub open spec fn friend_request_of(op: FriendCmd) -> JsonView {
    match op {
        FriendCmd::Add { username } => user_request("friend-add"@, username@),
        FriendCmd::Accept { username } => user_request("friend-accept"@, username@),
        FriendCmd::Remove { username } => user_request("friend-remove"@, username@),
        FriendCmd::List => bare_request("friend-list"@),
        FriendCmd::Find { .. } => bare_request("friend-list"@),
    }
}

/// Makes the request of a friend command to the daemon.
pub fn friend_request(op: &FriendCmd) -> (r: Json)
    ensures
        r@ == friend_request_of(*op),
{
    match op {
        FriendCmd::Add { username } => about("friend-add", username.as_str()),
        FriendCmd::Accept { username } => about("friend-accept", username.as_str()),
        FriendCmd::Remove { username } => about("friend-remove", username.as_str()),
        FriendCmd::List => bare("friend-list"),
        FriendCmd::Find { .. } => bare("friend-list"),
    }
}

/// The frame that a friend command sends to the server when there is no daemon.
pub open spec fn friend_frame_of(op: FriendCmd) -> JsonView {
    match op {
        FriendCmd::Add { username } => user_frame("friend_add"@, username@),
        FriendCmd::Accept { username } => user_frame(
            "friend_accept"@,
            username@,
        ),
        FriendCmd::Remove { username } => user_frame(
            "friend_remove"@,
            username@,
        ),
        FriendCmd::List => tag_frame("friend_list"@),
        FriendCmd::Find { .. } => tag_frame("friend_list"@),
    }
}

/// Makes the message of a friend command to the server.
pub fn friend_message<'a>(op: &'a FriendCmd) -> (r: ClientMsg<'a>)
    ensures
        r@ == friend_frame_of(*op),
{
    match op {
        FriendCmd::Add { username } => ClientMsg::FriendAdd { username: username.as_str() },
        FriendCmd::Accept { username } => ClientMsg::FriendAccept { username: username.as_str() },
        FriendCmd::Remove { username } => ClientMsg::FriendRemove { username: username.as_str() },
        FriendCmd::List => ClientMsg::FriendList,
        FriendCmd::Find { .. } => ClientMsg::FriendList,
    }
}

/// The presence of a friend as the list shows it.
pub open spec fn presence_label(online: bool, presence: Seq<char>) -> Seq<char> {
    if !online {
        "offline       "@
    } else if presence == "dnd"@ {
        "do not disturb"@
    } else {
        "online        "@
    }
}

/// A line of the friend list, from a friend as the daemon gives one.
pub open spec fn friend_line(f: JsonView) -> Seq<char> {
    "["@ + presence_label(f.flag("online"@), f.text_or("presence"@, "offline"@)) + "] ["@
        + f.text_or("status"@, "?"@) + "] "@ + f.text_or("username"@, "?"@) + " — "@ + f.text_or(
        "id"@,
        "?"@,
    )
}

/// Writes a line of the friend list.
fn show_friend(f: &Json) -> (r: String)
    ensures
        r@ == friend_line(f@),
{
    let presence = f.text_or("presence", "offline");
    let label = if !f.flag("online") {
        "offline       "
    } else if same(presence.as_str(), "dnd") {
        "do not disturb"
    } else {
        "online        "
    };
    "[".to_owned().concat(label).concat("] [").concat(f.text_or("status", "?").as_str()).concat(
        "] ",
    ).concat(f.text_or("username", "?").as_str()).concat(" — ").concat(
        f.text_or("id", "?").as_str(),
    )
}

/// Whether a friend is a hit of a search: the query in the username, whatever
/// the case, or the whole id.
pub open spec fn is_hit(f: JsonView, query: Seq<char>) -> bool {
    occurs(lowercase(f.text_or("username"@, ""@)), lowercase(query)) || f.text_or("id"@, ""@)
        == query
}

/// The lines of those friends that `keep` keeps, in their order.
pub open spec fn friend_lines(fs: Seq<JsonView>, keep: spec_fn(JsonView) -> bool) -> Seq<
    Seq<char>,
> {
    fs.filter(keep).map_values(|f: JsonView| friend_line(f))
}

/// One more friend at the end of the list.
proof fn lemma_friend_lines(fs: Seq<JsonView>, i: int, keep: spec_fn(JsonView) -> bool)
    requires
        0 <= i < fs.len(),
    ensures
        friend_lines(fs.take(i + 1), keep) == if keep(fs[i]) {
            friend_lines(fs.take(i), keep).push(friend_line(fs[i]))
        } else {
            friend_lines(fs.take(i), keep)
        },
{
    reveal(Seq::filter);
    let a = fs.take(i + 1);
    assert(a.drop_last() == fs.take(i));
    assert(a.last() == fs[i]);
    if keep(fs[i]) {
        assert(friend_lines(a, keep) =~= friend_lines(fs.take(i), keep).push(friend_line(fs[i])));
    }
}

/// Writes the lines of a friend list.
fn show_all(fs: &Vec<Json>) -> (r: Vec<String>)
    ensures
        views(r@) == friend_lines(trees(fs@), |f: JsonView| true),
{
    let ghost keep = |f: JsonView| true;
    let mut out: Vec<String> = Vec::new();
    let mut i: usize = 0;
    proof {
        reveal(Seq::filter);
        assert(trees(fs@).take(0) =~= Seq::empty());
        assert(views(out@) =~= friend_lines(trees(fs@).take(0), keep));
    }
    while i < fs.len()
        invariant
            i <= fs.len(),
            keep == (|f: JsonView| true),
            views(out@) == friend_lines(trees(fs@).take(i as int), keep),
        decreases fs.len() - i,
    {
        let ghost done = out@;
        out.push(show_friend(&fs[i]));
        proof {
            lemma_friend_lines(trees(fs@), i as int, keep);
            assert(views(out@) =~= views(done).push(friend_line(trees(fs@)[i as int])));
        }
        i += 1;
    }
    assert(trees(fs@).take(i as int) =~= trees(fs@));
    out
}

/// Writes the lines of the friends that a search hits.
fn show_hits(fs: &Vec<Json>, query: &str) -> (r: Vec<String>)
    ensures
        views(r@) == friend_lines(trees(fs@), |f: JsonView| is_hit(f, query@)),
{
    let ghost keep = |f: JsonView| is_hit(f, query@);
    let q = to_lowercase(query);
    let mut out: Vec<String> = Vec::new();
    let mut i: usize = 0;
    proof {
        reveal(Seq::filter);
        assert(trees(fs@).take(0) =~= Seq::empty());
        assert(views(out@) =~= friend_lines(trees(fs@).take(0), keep));
    }
    while i < fs.len()
        invariant
            i <= fs.len(),
            q@ == lowercase(query@),
            keep == (|f: JsonView| is_hit(f, query@)),
            views(out@) == friend_lines(trees(fs@).take(i as int), keep),
        decreases fs.len() - i,
    {
        let ghost done = out@;
        let username = to_lowercase(fs[i].text_or("username", "").as_str());
        let hit = contains(username.as_str(), q.as_str()) || same(
            fs[i].text_or("id", "").as_str(),
            query,
        );
        assert(hit == keep(trees(fs@)[i as int]));
        if hit {
            out.push(show_friend(&fs[i]));
        }
        proof {
            lemma_friend_lines(trees(fs@), i as int, keep);
            if hit {
                assert(views(out@) =~= views(done).push(friend_line(trees(fs@)[i as int])));
            }
        }
        i += 1;
    }
    assert(trees(fs@).take(i as int) =~= trees(fs@));
    out
}

/// What a search prints for a list of friends.
pub open spec fn search_lines(fs: Seq<JsonView>, query: Seq<char>) -> Seq<Seq<char>> {
    let lines = friend_lines(fs, |f: JsonView| is_hit(f, query));
    if lines.len() == 0 {
        seq!["(no matches for `"@ + query + "`)"@]
    } else {
        lines
    }
}

/// Looks for friends by a piece of their username, whatever the case, or by
/// their whole id.
pub fn friend_find(friends: &Vec<Json>, query: &str) -> (r: Vec<String>)
    ensures
        views(r@) == search_lines(trees(friends@), query@),
{
    let lines = show_hits(friends, query);
    if lines.len() == 0 {
        one_line("(no matches for `".to_owned().concat(query).concat("`)"))
    } else {
        lines
    }
}

/// Looks for friends in the daemon's reply. A reply that did not come, or that
/// holds no list, has no friends in it.
pub fn find_reply(reply: Option<&Json>, query: &str) -> (r: Vec<String>)
    ensures
        views(r@) == search_lines(
            match reply {
                Some(v) => v@.items_of("friends"@),
                None => Seq::<JsonView>::empty(),
            },
            query@,
        ),
{
    if let Some(v) = reply {
        if let Some(fs) = v.array_member("friends") {
            return friend_find(fs, query);
        }
    }
    let none: Vec<Json> = Vec::new();
    assert(trees(none@) =~= Seq::<JsonView>::empty());
    friend_find(&none, query)
}

/// What a search does with what it hears from the server: only a friend list
/// counts, and without one it has found nobody.
pub open spec fn find_step(query: Seq<char>, h: Heard) -> FlowView {
    match h {
        Heard::Timeout => FlowView::Done(search_lines(Seq::empty(), query)),
        Heard::Closed => FlowView::Done(search_lines(Seq::empty(), query)),
        Heard::Said(ServerMsg::Friends { friends }) => FlowView::Done(
            search_lines(friends_tree(friends@).items(), query),
        ),
        Heard::Said(_) => FlowView::Wait,
    }
}

/// Goes on with a search that talks to the server itself.
pub fn find_heard(query: &str, h: &Heard) -> (r: Flow)
    ensures
        r@ == find_step(query@, *h),
{
    match h {
        Heard::Timeout => Flow::Done(find_reply(None, query)),
        Heard::Closed => Flow::Done(find_reply(None, query)),
        Heard::Said(m) => match m {
            ServerMsg::Friends { friends } => {
                let list = friends_json(friends);
                match &list {
                    Json::Arr(fs) => {
                        proof {
                            crate::json::array_tree(*fs);
                        }
                        Flow::Done(friend_find(fs, query))
                    },
                    _ => Flow::Wait,
                }
            },
            _ => Flow::Wait,
        },
    }
}

/// Every friend whose id is the query is a hit, and so is every friend whose
/// username is.
pub proof fn whole_names_are_hits(f: JsonView, query: Seq<char>)
    requires
        f.text_or("id"@, ""@) == query || f.text_or("username"@, ""@) == query,
    ensures
        is_hit(f, query),
{
    let u = lowercase(f.text_or("username"@, ""@));
    if f.text_or("username"@, ""@) == query {
        assert(u.subrange(0, u.len() as int) == u);
        assert(found_at(u, lowercase(query), 0));
    }
}

/// What a friend command prints for the daemon's reply.
pub open spec fn friend_reply_of(want_list: bool, reply: JsonView) -> Result<
    Seq<Seq<char>>,
    Seq<char>,
> {
    match reply.text_member("error"@) {
        Some(e) => Err(server_complaint(e)),
        None => Ok(
            if !want_list {
                seq!["ok"@]
            } else {
                let fs = reply.items_of("friends"@);
                if fs.len() == 0 {
                    seq!["(no friends)"@]
                } else {
                    friend_lines(fs, |f: JsonView| true)
                }
            },
        ),
    }
}

/// Reads the daemon's reply to a friend command.
pub fn friend_reply(want_list: bool, reply: &Json) -> (r: Result<Vec<String>, String>)
    ensures
        friend_reply_of(want_list, reply@) == (match r {
            Ok(lines) => Ok::<Seq<Seq<char>>, Seq<char>>(views(lines@)),
            Err(e) => Err::<Seq<Seq<char>>, Seq<char>>(e@),
        }),
{
    match reply.text_member("error") {
        Some(e) => Err(complain(e)),
        None => if !want_list {
            Ok(one_line("ok".to_owned()))
        } else {
            match reply.array_member("friends") {
                None => Ok(one_line("(no friends)".to_owned())),
                Some(fs) => if fs.len() == 0 {
                    Ok(one_line("(no friends)".to_owned()))
                } else {
                    Ok(show_all(fs))
                },
            }
        },
    }
}

/// A line of the friend list, from a friend as the server gives one.
pub open spec fn short_line(f: Friend) -> Seq<char> {
    (if f.online {
        "*"@
    } else {
        " "@
    }) + " ["@ + f.status@ + "] "@ + f.username@ + " — "@ + f.id@
}

/// The lines of a friend list as the server gives one.
pub open spec fn short_lines(fs: Seq<Friend>) -> Seq<Seq<char>> {
    if fs.len() == 0 {
        seq!["(no friends)"@]
    } else {
        Seq::new(fs.len(), |i: int| short_line(fs[i]))
    }
}

/// Writes the lines of a friend list as the server gives one.
fn show_short(fs: &Vec<Friend>) -> (r: Vec<String>)
    ensures
        views(r@) == short_lines(fs@),
{
    if fs.len() == 0 {
        return one_line("(no friends)".to_owned());
    }
    let mut out: Vec<String> = Vec::new();
    let mut i: usize = 0;
    while i < fs.len()
        invariant
            i <= fs.len(),
            out@.len() == i,
            forall|k: int| 0 <= k < i ==> (#[trigger] out@[k])@ == short_line(fs@[k]),
        decreases fs.len() - i,
    {
        let f = &fs[i];
        let dot = if f.online {
            "*"
        } else {
            " "
        };
        out.push(
            dot.to_owned().concat(" [").concat(f.status.as_str()).concat("] ").concat(
                f.username.as_str(),
            ).concat(" — ").concat(f.id.as_str()),
        );
        i += 1;
    }
    assert(views(out@) =~= short_lines(fs@));
    out
}

/// What a friend command does with what it hears from the server: silence
/// means success, since the server only answers a list or an error.
pub open spec fn friend_step(h: Heard) -> FlowView {
    match h {
        Heard::Timeout => FlowView::Done(seq!["ok"@]),
        Heard::Closed => FlowView::Done(Seq::empty()),
        Heard::Said(ServerMsg::Friends { friends }) => FlowView::Done(short_lines(friends@)),
        Heard::Said(ServerMsg::Error { message }) => FlowView::Fail(server_complaint(message@)),
        Heard::Said(_) => FlowView::Wait,
    }
}

/// Goes on with a friend command that talks to the server itself.
pub fn friend_heard(h: &Heard) -> (r: Flow)
    ensures
        r@ == friend_step(*h),
{
    match h {
        Heard::Timeout => Flow::Done(one_line("ok".to_owned())),
        Heard::Closed => {
            let none: Vec<String> = Vec::new();
            assert(views(none@) =~= Seq::<Seq<char>>::empty());
            Flow::Done(none)
        },
        Heard::Said(m) => match m {
            ServerMsg::Friends { friends } => Flow::Done(show_short(friends)),
            ServerMsg::Error { message } => Flow::Fail(complain(message.as_str())),
            _ => Flow::Wait,
        },
    }
}

// ---- the permission commands ----

/// A command about permissions.
pub enum PermCmd {
    List,
    Update { friend_id: String, action: ActionKind, allowed: bool },
}

/// The request that a permission command makes to the daemon.
pub open spec fn perm_request_of(op: PermCmd) -> JsonView {
    match op {
        PermCmd::List => bare_request("perm-list"@),
        PermCmd::Update { friend_id, action, allowed } => JsonView::Obj(
            map![
                "cmd"@ => JsonView::Str("perm-set"@),
                "friend_id"@ => JsonView::Str(friend_id@),
                "action"@ => JsonView::Str(kind_word(action)),
                "allowed"@ => JsonView::Bool(allowed),
            ],
        ),
    }
}

/// Makes the request of a permission command to the daemon.
pub fn perm_request(op: &PermCmd) -> (r: Json)
    ensures
        r@ == perm_request_of(*op),
{
    match op {
        PermCmd::List => bare("perm-list"),
        PermCmd::Update { friend_id, action, allowed } => Fields::new().with_text(
            "cmd",
            "perm-set",
        ).with_text("friend_id", friend_id.as_str()).with_text("action", action.as_str()).with_bool(
            "allowed",
            *allowed,
        ).done(),
    }
}

/// The frame that a `perm` command sends.
pub open spec fn perm_frame_of(op: PermCmd) -> JsonView {
    match op {
        PermCmd::List => tag_frame("perm_list"@),
        PermCmd::Update { friend_id, action, allowed } => perm_frame(
            friend_id@,
            kind_word(action),
            allowed,
        ),
    }
}

/// Makes the message of a permission command to the server.
pub fn perm_message<'a>(op: &'a PermCmd) -> (r: ClientMsg<'a>)
    ensures
        r@ == perm_frame_of(*op),
{
    match op {
        PermCmd::List => ClientMsg::PermList,
        PermCmd::Update { friend_id, action, allowed } => ClientMsg::PermUpdate {
            friend_id: friend_id.as_str(),
            action: *action,
            allowed: *allowed,
        },
    }
}

/// A line of the permission list.
pub open spec fn perm_line(
    allowed: bool,
    action: Seq<char>,
    friend_id: Seq<char>,
) -> Seq<char> {
    (if allowed {
        "allow"@
    } else {
        "block"@
    }) + " "@ + action + " "@ + friend_id
}

/// The lines of a permission list as the daemon gives one.
pub open spec fn perm_lines(ps: Seq<JsonView>) -> Seq<Seq<char>> {
    if ps.len() == 0 {
        seq!["(defaults: all friends allowed for all actions)"@]
    } else {
        Seq::new(
            ps.len(),
            |i: int|
                perm_line(
                    ps[i].flag("allowed"@),
                    ps[i].text_or("action"@, "?"@),
                    ps[i].text_or("friend_id"@, "?"@),
                ),
        )
    }
}

/// Writes a line of the permission list.
fn show_perm(allowed: bool, action: &str, friend_id: &str) -> (r: String)
    ensures
        r@ == perm_line(allowed, action@, friend_id@),
{
    let word = if allowed {
        "allow"
    } else {
        "block"
    };
    word.to_owned().concat(" ").concat(action).concat(" ").concat(friend_id)
}

/// Writes the lines of a permission list as the daemon gives one.
fn show_perms(ps: &Vec<Json>) -> (r: Vec<String>)
    ensures
        views(r@) == perm_lines(trees(ps@)),
{
    if ps.len() == 0 {
        return one_line("(defaults: all friends allowed for all actions)".to_owned());
    }
    let mut out: Vec<String> = Vec::new();
    let mut i: usize = 0;
    while i < ps.len()
        invariant
            i <= ps.len(),
            ps.len() > 0,
            out@.len() == i,
            forall|k: int| 0 <= k < i ==> (#[trigger] out@[k])@ == perm_lines(trees(ps@))[k],
        decreases ps.len() - i,
    {
        let p = &ps[i];
        out.push(
            show_perm(
                p.flag("allowed"),
                p.text_or("action", "?").as_str(),
                p.text_or("friend_id", "?").as_str(),
            ),
        );
        i += 1;
    }
    assert(views(out@) =~= perm_lines(trees(ps@)));
    out
}

/// What a permission command prints for the daemon's reply.
pub open spec fn perm_reply_of(want_list: bool, reply: JsonView) -> Result<
    Seq<Seq<char>>,
    Seq<char>,
> {
    match reply.text_member("error"@) {
        Some(e) => Err(server_complaint(e)),
        None => Ok(
            if want_list {
                perm_lines(reply.items_of("perms"@))
            } else {
                seq!["ok"@]
            },
        ),
    }
}

/// Reads the daemon's reply to a permission command.
pub fn perm_reply(want_list: bool, reply: &Json) -> (r: Result<Vec<String>, String>)
    ensures
        perm_reply_of(want_list, reply@) == (match r {
            Ok(lines) => Ok::<Seq<Seq<char>>, Seq<char>>(views(lines@)),
            Err(e) => Err::<Seq<Seq<char>>, Seq<char>>(e@),
        }),
{
    match reply.text_member("error") {
        Some(e) => Err(complain(e)),
        None => if !want_list {
            Ok(one_line("ok".to_owned()))
        } else {
            match reply.array_member("perms") {
                None => Ok(
                    one_line("(defaults: all friends allowed for all actions)".to_owned()),
                ),
                Some(ps) => Ok(show_perms(ps)),
            }
        },
    }
}

/// The lines of a permission list as the server gives one.
pub open spec fn short_perm_lines(ps: Seq<Perm>) -> Seq<Seq<char>> {
    if ps.len() == 0 {
        seq!["(defaults: all friends allowed for all actions)"@]
    } else {
        Seq::new(ps.len(), |i: int| perm_line(ps[i].allowed, ps[i].action@, ps[i].friend_id@))
    }
}

/// What a permission command does with what it hears from the server.
pub open spec fn perm_step(h: Heard) -> FlowView {
    match h {
        Heard::Timeout => FlowView::Done(seq!["ok"@]),
        Heard::Closed => FlowView::Done(Seq::empty()),
        Heard::Said(ServerMsg::Perms { perms }) => FlowView::Done(short_perm_lines(perms@)),
        Heard::Said(ServerMsg::Error { message }) => FlowView::Fail(server_complaint(message@)),
        Heard::Said(_) => FlowView::Wait,
    }
}

/// Writes the lines of a permission list as the server gives one.
fn show_short_perms(ps: &Vec<Perm>) -> (r: Vec<String>)
    ensures
        views(r@) == short_perm_lines(ps@),
{
    if ps.len() == 0 {
        return one_line("(defaults: all friends allowed for all actions)".to_owned());
    }
    let mut out: Vec<String> = Vec::new();
    let mut i: usize = 0;
    while i < ps.len()
        invariant
            i <= ps.len(),
            ps.len() > 0,
            out@.len() == i,
            forall|k: int| 0 <= k < i ==> (#[trigger] out@[k])@ == short_perm_lines(ps@)[k],
        decreases ps.len() - i,
    {
        out.push(show_perm(ps[i].allowed, ps[i].action.as_str(), ps[i].friend_id.as_str()));
        i += 1;
    }
    assert(views(out@) =~= short_perm_lines(ps@));
    out
}

/// Goes on with a permission command that talks to the server itself.
pub fn perm_heard(h: &Heard) -> (r: Flow)
    ensures
        r@ == perm_step(*h),
{
    match h {
        Heard::Timeout => Flow::Done(one_line("ok".to_owned())),
        Heard::Closed => {
            let none: Vec<String> = Vec::new();
            assert(views(none@) =~= Seq::<Seq<char>>::empty());
            Flow::Done(none)
        },
        Heard::Said(m) => match m {
            ServerMsg::Perms { perms } => Flow::Done(show_short_perms(perms)),
            ServerMsg::Error { message } => Flow::Fail(complain(message.as_str())),
            _ => Flow::Wait,
        },
    }
}

// ---- sending an action ----

/// The request that sends a friend an action through the daemon.
pub open spec fn send_request_of(
    to: Seq<char>,
    action: Seq<char>,
    title: Seq<char>,
    body: Seq<char>,
    data: JsonView,
) -> JsonView {
    JsonView::Obj(
        map![
            "cmd"@ => JsonView::Str("send-action"@),
            "to"@ => JsonView::Str(to),
            "action"@ => JsonView::Str(action),
            "title"@ => JsonView::Str(title),
            "body"@ => JsonView::Str(body),
            "data"@ => data,
        ],
    )
}

/// Makes the request that sends a friend an action.
pub fn send_request(to: &str, action: ActionKind, title: &str, body: &str, data: Json) -> (r: Json)
    ensures
        r@ == send_request_of(to@, kind_word(action), title@, body@, data@),
{
    Fields::new().with_text("cmd", "send-action").with_text("to", to).with_text(
        "action",
        action.as_str(),
    ).with_text("title", title).with_text("body", body).with("data", data).done()
}

/// The refusal to send to a friend who cannot be reached.
pub fn cannot_reach(friend: &str, reason: &str) -> (r: String)
    ensures
        r@ == "can't reach "@ + friend@ + ": "@ + reason@,
{
    "can't reach ".to_owned().concat(friend).concat(": ").concat(reason)
}

/// The line that says an action went out.
pub open spec fn sent_line(friend: Seq<char>, title: Seq<char>, body: Seq<char>) -> Seq<char> {
    "→ "@ + friend + ": "@ + title + " — "@ + body
}

/// Says that an action went out.
pub fn sent(friend: &str, title: &str, body: &str) -> (r: String)
    ensures
        r@ == sent_line(friend@, title@, body@),
{
    "→ ".to_owned().concat(friend).concat(": ").concat(title).concat(" — ").concat(body)
}

/// What a reply to a sent action means: the line to print, or the complaint.
pub open spec fn send_outcome(
    friend: Seq<char>,
    title: Seq<char>,
    body: Seq<char>,
    reply: JsonView,
) -> Result<Seq<char>, Seq<char>> {
    match reply.text_member("error"@) {
        None => Ok(sent_line(friend, title, body)),
        Some(e) => Err(server_complaint(e)),
    }
}

/// Reads the daemon's reply to a sent action.
pub fn send_reply(friend: &str, title: &str, body: &str, reply: &Json) -> (r: Result<
    String,
    String,
>)
    ensures
        match r {
            Ok(line) => send_outcome(friend@, title@, body@, reply@) == Ok::<Seq<char>, Seq<char>>(
                line@,
            ),
            Err(e) => send_outcome(friend@, title@, body@, reply@) == Err::<Seq<char>, Seq<char>>(
                e@,
            ),
        },
{
    match reply.text_member("error") {
        Some(e) => Err(complain(e)),
        None => Ok(sent(friend, title, body)),
    }
}

/// What the sending of an action does with what it hears from the server: it
/// fails on an error and otherwise ends with its grace period.
pub open spec fn send_step(
    friend: Seq<char>,
    title: Seq<char>,
    body: Seq<char>,
    h: Heard,
) -> FlowView {
    match h {
        Heard::Timeout => FlowView::Done(seq![sent_line(friend, title, body)]),
        Heard::Said(ServerMsg::Error { message }) => FlowView::Fail(server_complaint(message@)),
        _ => FlowView::Wait,
    }
}

/// Goes on with the sending of an action that talks to the server itself.
pub fn send_heard(friend: &str, title: &str, body: &str, h: &Heard) -> (r: Flow)
    ensures
        r@ == send_step(friend@, title@, body@, *h),
{
    match h {
        Heard::Timeout => Flow::Done(one_line(sent(friend, title, body))),
        Heard::Closed => Flow::Wait,
        Heard::Said(m) => match m {
            ServerMsg::Error { message } => Flow::Fail(complain(message.as_str())),
            _ => Flow::Wait,
        },
    }
}

} // verus!
