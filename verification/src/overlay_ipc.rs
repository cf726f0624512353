//! The local socket between the daemon and its clients: events for the overlay
//! window, and commands with their replies.
use vstd::prelude::*;

use crate::json::{Fields, Json};
#[allow(unused_imports)]
use crate::json::{json_text, parsed_json, JsonView};
use crate::signaling::WsFrame;
use crate::strmap::StrMap;
use crate::text::{same, to_decimal};
#[allow(unused_imports)]
use crate::text::{decimal, views};

verus! {

/// The port that the daemon listens on. Whoever holds it is the daemon.
pub const DEFAULT_PORT: u16 = 8923;

/// How often a new daemon tries to take the port over.
pub const BIND_ATTEMPTS: u32 = 20;

/// How long it pauses after an attempt that failed.
pub const BIND_PAUSE_MS: u64 = 100;

/// What a new daemon does about a port that is still taken.
pub struct BindStep {
    /// How long it pauses first, in milliseconds.
    pub pause: u64,
    /// Whether it tries again; otherwise another daemon owns the port.
    pub again: bool,
}

/// Whether what follows a failed attempt is the right thing.
pub open spec fn bind_goes_on(attempt: u32, r: BindStep) -> bool {
    &&& r.pause == BIND_PAUSE_MS
    &&& r.again == (attempt + 1 < BIND_ATTEMPTS)
}

/// Goes on after the attempt with a number, counted from zero, has failed.
pub fn bind_failed(attempt: u32) -> (r: BindStep)
    ensures
        bind_goes_on(attempt, r),
{
    BindStep { pause: BIND_PAUSE_MS, again: attempt < BIND_ATTEMPTS - 1 }
}

/// How long a client waits for a reply.
pub const REPLY_WAIT_MS: u64 = 4000;

/// How long a client that wants no reply keeps its socket open.
pub const SEND_GRACE_MS: u64 = 60;

/// How many events a slow overlay may fall behind.
pub const EVENT_BACKLOG: usize = 64;

// ---- events ----

/// An event for the overlay.
pub struct OverlayEvent {
    pub kind: String,
    pub payload: Json,
}

/// The model of an event.
pub struct EventView {
    pub kind: Seq<char>,
    pub payload: JsonView,
}

/// An event as a JSON object.
pub open spec fn event_tree(e: EventView) -> JsonView {
    JsonView::Obj(map!["kind"@ => JsonView::Str(e.kind), "payload"@ => e.payload])
}

impl OverlayEvent {
    /// The event over the views of its parts.
    pub open spec fn view(self) -> EventView {
        EventView { kind: self.kind@, payload: self.payload@ }
    }

    /// An event.
    pub fn new(kind: &str, payload: Json) -> (r: OverlayEvent)
        ensures
            r@ == (EventView { kind: kind@, payload: payload@ }),
    {
        OverlayEvent { kind: kind.to_owned(), payload }
    }

    /// The text of an event, as it goes over the socket.
    pub fn text(&self) -> (r: String)
        ensures
            r@ == json_text(event_tree(self@)),
    {
        Fields::new().with_text("kind", self.kind.as_str()).with(
            "payload",
            self.payload.clone(),
        ).done().to_text()
    }
}

/// The kinds of which the latest event is kept for overlays that come late.
pub open spec fn is_sticky(kind: Seq<char>) -> bool {
    kind == "config"@ || kind == "hello"@ || kind == "friends"@
}

/// The latest event of each kind that is kept.
pub struct Sticky {
    texts: StrMap<String>,
}

impl Sticky {
    /// The text kept for each kind.
    pub closed spec fn view(self) -> Map<Seq<char>, Seq<char>> {
        self.texts@.map_values(|s: String| s@)
    }

    /// Nothing kept yet.
    pub fn new() -> (r: Sticky)
        ensures
            r@ == Map::<Seq<char>, Seq<char>>::empty(),
    {
        let r = Sticky { texts: StrMap::new() };
        assert(r@ =~= Map::<Seq<char>, Seq<char>>::empty());
        r
    }

    /// Keeps an event, if its kind is one that is kept, in place of an earlier
    /// one of its kind.
    pub fn remember(&mut self, ev: &OverlayEvent)
        ensures
            final(self)@ == remembered(old(self)@, ev@),
    {
        let kind = ev.kind.as_str();
        if same(kind, "config") || same(kind, "hello") || same(kind, "friends") {
            let ghost earlier = self.texts@;
            let text = ev.text();
            self.texts.insert(ev.kind.clone(), text);
            assert(self@ =~= earlier.map_values(|s: String| s@).insert(ev@.kind, text@));
        }
    }

    /// Sends an event: it is kept, if its kind is one that is kept, and its text
    /// goes to every overlay that is connected.
    pub fn send(&mut self, ev: &OverlayEvent) -> (r: String)
        ensures
            final(self)@ == remembered(old(self)@, ev@),
            r@ == json_text(event_tree(ev@)),
    {
        self.remember(ev);
        ev.text()
    }

    /// Adds the text kept for a kind, where there is one.
    fn kept(&self, kind: &str, out: Vec<String>) -> (r: Vec<String>)
        ensures
            views(r@) == views(out@) + kept_text(self@, kind@),
    {
        let mut lines = out;
        match self.texts.get(kind) {
            Some(text) => {
                let line = text.clone();
                lines.push(line);
                assert(views(lines@) =~= views(out@) + seq![line@]);
            },
            None => {
                assert(views(lines@) =~= views(out@) + Seq::<Seq<char>>::empty());
            },
        }
        lines
    }

    /// What an overlay that connects is sent first: every event that is kept.
    pub fn replay(&self) -> (r: Vec<String>)
        ensures
            views(r@) == replayed(self@),
    {
        let none: Vec<String> = Vec::new();
        assert(views(none@) =~= Seq::<Seq<char>>::empty());
        let out = self.kept("config", none);
        assert(views(out@) =~= kept_text(self@, "config"@));
        let out = self.kept("friends", out);
        self.kept("hello", out)
    }
}

/// The text kept for a kind, where there is one.
pub open spec fn kept_text(m: Map<Seq<char>, Seq<char>>, kind: Seq<char>) -> Seq<Seq<char>> {
    if m.contains_key(kind) {
        seq![m[kind]]
    } else {
        Seq::empty()
    }
}

/// The texts kept for all kinds.
pub open spec fn replayed(m: Map<Seq<char>, Seq<char>>) -> Seq<Seq<char>> {
    kept_text(m, "config"@) + kept_text(m, "friends"@) + kept_text(m, "hello"@)
}

/// What is kept after one more event.
pub open spec fn remembered(m: Map<Seq<char>, Seq<char>>, ev: EventView) -> Map<
    Seq<char>,
    Seq<char>,
> {
    if is_sticky(ev.kind) {
        m.insert(ev.kind, json_text(event_tree(ev)))
    } else {
        m
    }
}

/// What is kept after a row of events.
pub open spec fn all_remembered(events: Seq<EventView>) -> Map<Seq<char>, Seq<char>>
    decreases events.len(),
{
    if events.len() == 0 {
        Map::empty()
    } else {
        remembered(all_remembered(events.drop_last()), events.last())
    }
}

/// The text of the last event of a kind in a row of events, where there is one.
pub open spec fn latest_text(events: Seq<EventView>, kind: Seq<char>) -> Seq<Seq<char>>
    decreases events.len(),
{
    if events.len() == 0 {
        Seq::empty()
    } else if events.last().kind == kind {
        seq![json_text(event_tree(events.last()))]
    } else {
        latest_text(events.drop_last(), kind)
    }
}

/// What is kept for a kind is its last event.
proof fn lemma_latest_is_kept(events: Seq<EventView>, kind: Seq<char>)
    requires
        is_sticky(kind),
    ensures
        kept_text(all_remembered(events), kind) == latest_text(events, kind),
    decreases events.len(),
{
    if events.len() > 0 {
        lemma_latest_is_kept(events.drop_last(), kind);
    }
}

/// After any row of events, an overlay that comes late hears the last event of
/// each kind that is kept, no older one, and nothing else.
pub proof fn late_overlays_hear_the_latest(events: Seq<EventView>)
    ensures
        replayed(all_remembered(events)) == latest_text(events, "config"@) + latest_text(
            events,
            "friends"@,
        ) + latest_text(events, "hello"@),
{
    lemma_latest_is_kept(events, "config"@);
    lemma_latest_is_kept(events, "friends"@);
    lemma_latest_is_kept(events, "hello"@);
}

/// What an overlay that connects after the first `k` events of a row hears: the
/// replay, and then each event as it is sent.
pub open spec fn heard(events: Seq<EventView>, k: nat) -> Seq<Seq<char>>
    decreases events.len(),
{
    if events.len() <= k {
        replayed(all_remembered(events))
    } else {
        heard(events.drop_last(), k).push(json_text(event_tree(events.last())))
    }
}

/// An overlay hears first the last event of each kind that is kept among those
/// before it came, and then every event after that, once and in order. One that
/// was there from the start hears all of them.
pub proof fn overlays_hear_every_event_once(events: Seq<EventView>, k: nat)
    requires
        k <= events.len(),
    ensures
        heard(events, k) == latest_text(events.take(k as int), "config"@) + latest_text(
            events.take(k as int),
            "friends"@,
        ) + latest_text(events.take(k as int), "hello"@) + Seq::new(
            (events.len() - k) as nat,
            |i: int| json_text(event_tree(events[k + i])),
        ),
        heard(events, 0) == Seq::new(events.len(), |i: int| json_text(event_tree(events[i]))),
    decreases events.len(),
{
    let early = events.take(k as int);
    let tail = Seq::new(
        (events.len() - k) as nat,
        |i: int| json_text(event_tree(events[k + i])),
    );
    late_overlays_hear_the_latest(early);
    if events.len() == k {
        assert(early =~= events);
        assert(heard(events, k) =~= replayed(all_remembered(early)) + tail);
    } else {
        let front = events.drop_last();
        overlays_hear_every_event_once(front, k);
        assert(front.take(k as int) =~= early);
        assert(heard(events, k) =~= replayed(all_remembered(early)) + tail);
    }
    lemma_heard_from_the_start(events);
}

/// An overlay that was there from the start hears every event.
proof fn lemma_heard_from_the_start(events: Seq<EventView>)
    ensures
        heard(events, 0) == Seq::new(events.len(), |i: int| json_text(event_tree(events[i]))),
    decreases events.len(),
{
    let all = Seq::new(events.len(), |i: int| json_text(event_tree(events[i])));
    if events.len() > 0 {
        lemma_heard_from_the_start(events.drop_last());
    }
    assert(heard(events, 0) =~= all);
}

// ---- commands and replies ----

/// Where the daemon listens.
pub open spec fn daemon_url() -> Seq<char> {
    "ws://127.0.0.1:"@ + decimal(DEFAULT_PORT as nat)
}

/// The address of the daemon's socket.
pub fn url() -> (r: String)
    ensures
        r@ == daemon_url(),
{
    "ws://127.0.0.1:".to_owned().concat(to_decimal(DEFAULT_PORT as u64).as_str())
}

/// A command under an id.
pub open spec fn stamped(cmd: JsonView, id: Seq<char>) -> JsonView {
    cmd.put("id"@, JsonView::Str(id))
}

/// Stamps a command with the id that its reply will carry.
pub fn stamp(cmd: Json, id: &str) -> (r: Json)
    ensures
        r@ == stamped(cmd@, id@),
{
    cmd.put("id", Json::text(id))
}

/// Whether a frame answers the command with an id.
pub open spec fn answers(frame: JsonView, id: Seq<char>) -> bool {
    frame.text_member("reply"@) == Some(id)
}

/// Whether a frame answers the command with an id.
pub fn is_answer(frame: &Json, id: &str) -> (r: bool)
    ensures
        r == answers(frame@, id@),
{
    match frame.text_member("reply") {
        Some(x) => same(x, id),
        None => false,
    }
}

/// Whether the reply to a command is found in a text exactly where it is.
pub open spec fn reply_found(text: Seq<char>, id: Seq<char>, r: Option<Json>) -> bool {
    match r {
        Some(v) => parsed_json(text) == Ok::<JsonView, Seq<char>>(v@) && answers(v@, id),
        None => match parsed_json(text) {
            Ok(t) => !answers(t, id),
            Err(_) => true,
        },
    }
}

/// Reads a frame from the daemon's socket. Only the reply to one's own command
/// counts: events and the replies to others are passed over, and so is what is
/// no JSON.
pub fn reply_in(text: &str, id: &str) -> (r: Option<Json>)
    ensures
        reply_found(text@, id@, r),
{
    match Json::parse(text) {
        Ok(v) => if is_answer(&v, id) {
            Some(v)
        } else {
            None
        },
        Err(_) => None,
    }
}

/// What a client that wants no reply is told.
pub fn sent_off() -> (r: Json)
    ensures
        r@ == JsonView::Obj(map!["ok"@ => JsonView::Bool(true)]),
{
    Fields::new().with_bool("ok", true).done()
}

// ---- frames of clients ----

/// What the daemon does with a frame of a client.
pub enum ClientStep {
    /// Does a command.
    Command(Json),
    /// Nothing.
    Ignore,
    /// Lets the client go.
    End,
}

/// Whether what follows a frame of a client is the right thing.
pub open spec fn client_heard(f: WsFrame, r: ClientStep) -> bool {
    match f {
        WsFrame::Text(s) => match parsed_json(s@) {
            Ok(t) => r matches ClientStep::Command(j) && j@ == t,
            Err(_) => r is Ignore,
        },
        WsFrame::Binary(_) => r is Ignore,
        WsFrame::Control => r is Ignore,
        WsFrame::Close => r is End,
    }
}

/// Looks at a frame of a client: a text that is JSON is a command.
pub fn on_client_frame(f: &WsFrame) -> (r: ClientStep)
    ensures
        client_heard(*f, r),
{
    match f {
        WsFrame::Text(s) => match Json::parse(s.as_str()) {
            Ok(j) => ClientStep::Command(j),
            Err(_) => ClientStep::Ignore,
        },
        WsFrame::Binary(_) => ClientStep::Ignore,
        WsFrame::Control => ClientStep::Ignore,
        WsFrame::Close => ClientStep::End,
    }
}

// ---- events in the prompt ----

/// The word for an action kind in front of a line of the prompt.
pub open spec fn shown_kind(action: Seq<char>) -> Seq<char> {
    if action == "message"@ {
        "Message"@
    } else {
        action
    }
}

/// The line that the prompt shows for an event: one for an action, none for
/// anything else. A sender goes by their username.
pub open spec fn tap_line_of(frame: JsonView) -> Option<Seq<char>> {
    if frame.text_member("kind"@) == Some("action"@) {
        let p = frame.member_or("payload"@, JsonView::Null);
        Some(
            "\n["@ + shown_kind(p.text_or("action"@, "?"@)) + "] "@ + p.text_or(
                "from_username"@,
                p.text_or("from"@, "?"@),
            ) + ": "@ + p.text_or("title"@, ""@) + " — "@ + p.text_or("body"@, ""@),
        )
    } else {
        None
    }
}

/// The line that the prompt shows for an event.
pub fn event_line(v: &Json) -> (r: Option<String>)
    ensures
        match r {
            Some(line) => tap_line_of(v@) == Some(line@),
            None => tap_line_of(v@) is None,
        },
{
    let is_action = match v.text_member("kind") {
        Some(k) => same(k, "action"),
        None => false,
    };
    if !is_action {
        return None;
    }
    let p = v.member_or("payload", Json::Null);
    let action = p.text_or("action", "?");
    let shown = if same(action.as_str(), "message") {
        "Message".to_owned()
    } else {
        action
    };
    let from = p.text_or("from", "?");
    Some(
        "\n[".to_owned().concat(shown.as_str()).concat("] ").concat(
            p.text_or("from_username", from.as_str()).as_str(),
        ).concat(": ").concat(p.text_or("title", "").as_str()).concat(" — ").concat(
            p.text_or("body", "").as_str(),
        ),
    )
}

/// The line that the prompt shows for a frame of the daemon's socket; none for
/// what is no JSON.
pub fn tap_line(text: &str) -> (r: Option<String>)
    ensures
        match parsed_json(text@) {
            Ok(t) => match r {
                Some(line) => tap_line_of(t) == Some(line@),
                None => tap_line_of(t) is None,
            },
            Err(_) => r is None,
        },
{
    match Json::parse(text) {
        Ok(v) => event_line(&v),
        Err(_) => None,
    }
}

} // verus!
