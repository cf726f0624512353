//! Connections to friends: what is negotiated, and what is heard.
use vstd::prelude::*;
#[allow(unused_imports)]
use vstd::utf8::{decode_utf8, valid_utf8};

use crate::config::IceServer;
#[allow(unused_imports)]
use crate::config::{opt_view, IceView};
use crate::json::{Fields, Json};
#[allow(unused_imports)]
use crate::json::{json_text, parsed_bytes, parsed_json, JsonView};
use crate::text::same;
#[allow(unused_imports)]
use crate::text::views;

verus! {

// ---- sound ----

/// How incoming speech is to sound.
#[derive(Debug, Clone, Copy, PartialEq, Eq, Structural)]
pub struct AudioFx {
    /// Filter it to 300 to 3400 Hz, like a radio.
    pub radio_effect: bool,
    /// Start and end it with a beep.
    pub radio_beeps: bool,
}

impl Default for AudioFx {
    /// Like a radio, and with beeps.
    fn default() -> (r: AudioFx)
        ensures
            r.radio_effect && r.radio_beeps,
    {
        AudioFx { radio_effect: true, radio_beeps: true }
    }
}

/// The band that the radio effect lets through, in Hz.
pub const BAND_LOW_HZ: u32 = 300;

/// The upper end of the band.
pub const BAND_HIGH_HZ: u32 = 3_400;

/// Something for the speaker.
pub enum AudioCmd {
    /// Speech: 48 kHz, one channel.
    Samples(Vec<i16>),
    /// A sine of a frequency in Hz, for some milliseconds, at some percent of the
    /// full volume.
    Beep { freq: u32, ms: u64, gain: u32 },
}

/// The model of something for the speaker.
pub enum AudioView {
    Samples(Seq<i16>),
    Beep { freq: u32, ms: u64, gain: u32 },
}

impl AudioCmd {
    /// The command over the view of its samples.
    pub open spec fn view(self) -> AudioView {
        match self {
            AudioCmd::Samples(v) => AudioView::Samples(v@),
            AudioCmd::Beep { freq, ms, gain } => AudioView::Beep { freq, ms, gain },
        }
    }
}

/// The beep at the start of speech: high and short.
pub open spec fn start_beep() -> AudioView {
    AudioView::Beep { freq: 1_200, ms: 80, gain: 18 }
}

/// The beep at the end of speech: low and a little longer.
pub open spec fn end_beep() -> AudioView {
    AudioView::Beep { freq: 440, ms: 100, gain: 18 }
}

/// Makes the beep at the start.
fn high_beep() -> (r: AudioCmd)
    ensures
        r@ == start_beep(),
{
    AudioCmd::Beep { freq: 1_200, ms: 80, gain: 18 }
}

/// Makes the beep at the end.
fn low_beep() -> (r: AudioCmd)
    ensures
        r@ == end_beep(),
{
    AudioCmd::Beep { freq: 440, ms: 100, gain: 18 }
}

/// Whether there is a beep exactly where beeps are on.
pub open spec fn beeped(fx: AudioFx, beep: AudioView, r: Option<AudioCmd>) -> bool {
    match r {
        Some(c) => fx.radio_beeps && c@ == beep,
        None => !fx.radio_beeps,
    }
}

/// The beep when one starts to talk, if beeps are on.
pub fn beep_start(fx: AudioFx) -> (r: Option<AudioCmd>)
    ensures
        beeped(fx, start_beep(), r),
{
    if fx.radio_beeps {
        Some(high_beep())
    } else {
        None
    }
}

/// The beep when one stops talking, if beeps are on.
pub fn beep_end(fx: AudioFx) -> (r: Option<AudioCmd>)
    ensures
        beeped(fx, end_beep(), r),
{
    if fx.radio_beeps {
        Some(low_beep())
    } else {
        None
    }
}

/// How long a friend may be silent before their speech counts as over.
pub const SILENCE_MS: u64 = 400;

/// What is heard of a friend.
pub enum AudioEvent {
    /// Nothing for a while.
    Silence,
    /// The connection is over.
    Ended,
    /// A packet without speech: empty, or not to be decoded.
    Blank,
    /// Speech, if there are any samples.
    Speech(Vec<i16>),
}

/// The model of what is heard.
pub enum AudioEventView {
    Silence,
    Ended,
    Blank,
    Speech(Seq<i16>),
}

impl AudioEvent {
    /// The event over the view of its samples.
    pub open spec fn view(self) -> AudioEventView {
        match self {
            AudioEvent::Silence => AudioEventView::Silence,
            AudioEvent::Ended => AudioEventView::Ended,
            AudioEvent::Blank => AudioEventView::Blank,
            AudioEvent::Speech(v) => AudioEventView::Speech(v@),
        }
    }
}

/// Whether a friend is talking after an event.
pub open spec fn talks_after(talking: bool, e: AudioEventView) -> bool {
    match e {
        AudioEventView::Silence => false,
        AudioEventView::Ended => false,
        AudioEventView::Blank => talking,
        AudioEventView::Speech(s) => talking || s.len() > 0,
    }
}

/// What an event is for the speaker.
pub open spec fn sounds_of(talking: bool, beeps: bool, e: AudioEventView) -> Seq<AudioView> {
    match e {
        AudioEventView::Blank => Seq::empty(),
        AudioEventView::Speech(s) => if s.len() == 0 {
            Seq::empty()
        } else if !talking && beeps {
            seq![start_beep(), AudioView::Samples(s)]
        } else {
            seq![AudioView::Samples(s)]
        },
        _ => if talking && beeps {
            seq![end_beep()]
        } else {
            Seq::empty()
        },
    }
}

/// The sounds over the views of their samples.
pub open spec fn sounds(v: Seq<AudioCmd>) -> Seq<AudioView> {
    Seq::new(v.len(), |i: int| v[i]@)
}

/// Hears something of a friend: speech is played, and where it starts and ends
/// there is a beep.
pub fn pump_remote_audio(talking: &mut bool, beeps: bool, event: AudioEvent) -> (r: Vec<AudioCmd>)
    ensures
        *final(talking) == talks_after(*old(talking), event@),
        sounds(r@) == sounds_of(*old(talking), beeps, event@),
{
    let mut out: Vec<AudioCmd> = Vec::new();
    let was = *talking;
    let ghost e = event@;
    match event {
        AudioEvent::Blank => {},
        AudioEvent::Speech(s) => {
            if s.len() > 0 {
                if !was && beeps {
                    out.push(high_beep());
                }
                out.push(AudioCmd::Samples(s));
                *talking = true;
            }
        },
        AudioEvent::Silence => {
            if was && beeps {
                out.push(low_beep());
            }
            *talking = false;
        },
        AudioEvent::Ended => {
            if was && beeps {
                out.push(low_beep());
            }
            *talking = false;
        },
    }
    assert(sounds(out@) =~= sounds_of(was, beeps, e));
    out
}

/// Whether a friend is talking after a row of events.
pub open spec fn talking_at(events: Seq<AudioEventView>) -> bool
    decreases events.len(),
{
    if events.len() == 0 {
        false
    } else {
        talks_after(talking_at(events.drop_last()), events.last())
    }
}

/// What a row of events is for the speaker.
pub open spec fn heard(events: Seq<AudioEventView>, beeps: bool) -> Seq<AudioView>
    decreases events.len(),
{
    if events.len() == 0 {
        Seq::empty()
    } else {
        heard(events.drop_last(), beeps) + sounds_of(
            talking_at(events.drop_last()),
            beeps,
            events.last(),
        )
    }
}

/// How often something sounds.
pub open spec fn count_of(s: Seq<AudioView>, c: AudioView) -> int
    decreases s.len(),
{
    if s.len() == 0 {
        0
    } else {
        count_of(s.drop_last(), c) + if s.last() == c {
            1int
        } else {
            0int
        }
    }
}

/// What sounds in two rows sounds in both together.
proof fn lemma_count_append(a: Seq<AudioView>, b: Seq<AudioView>, c: AudioView)
    ensures
        count_of(a + b, c) == count_of(a, c) + count_of(b, c),
    decreases b.len(),
{
    if b.len() == 0 {
        assert(a + b =~= a);
    } else {
        assert((a + b).drop_last() =~= a + b.drop_last());
        lemma_count_append(a, b.drop_last(), c);
    }
}

/// With beeps on, every stretch of speech starts with one beep and ends with
/// one: whatever is heard, the beeps at the end are as many as those at the
/// start, less the one that is owed while a friend is talking.
pub proof fn beeps_come_in_pairs(events: Seq<AudioEventView>)
    ensures
        count_of(heard(events, true), start_beep()) == count_of(heard(events, true), end_beep()) + (
        if talking_at(events) {
            1int
        } else {
            0int
        }),
    decreases events.len(),
{
    if events.len() > 0 {
        let front = events.drop_last();
        beeps_come_in_pairs(front);
        let t = talking_at(front);
        let s = sounds_of(t, true, events.last());
        lemma_count_append(heard(front, true), s, start_beep());
        lemma_count_append(heard(front, true), s, end_beep());
        reveal_with_fuel(count_of, 3);
        if s.len() == 1 {
            assert(s.drop_last() =~= Seq::<AudioView>::empty());
        }
        if s.len() == 2 {
            assert(s.drop_last() =~= seq![s[0]]);
            assert(s.drop_last().drop_last() =~= Seq::<AudioView>::empty());
        }
    }
}

/// Without beeps there is nothing to hear but speech.
pub proof fn no_beeps_when_off(events: Seq<AudioEventView>, i: int)
    requires
        0 <= i < heard(events, false).len(),
    ensures
        heard(events, false)[i] is Samples,
    decreases events.len(),
{
    if events.len() > 0 {
        let front = heard(events.drop_last(), false);
        if i < front.len() {
            no_beeps_when_off(events.drop_last(), i);
        }
    }
}

// ---- negotiation ----

/// A piece of WebRTC negotiation.
pub enum Negotiation {
    Offer(String),
    Answer(String),
    Candidate(Json),
    /// Something that this version does not know.
    Unknown(String),
}

/// The model of a piece of negotiation.
pub enum NegotiationView {
    Offer(Seq<char>),
    Answer(Seq<char>),
    Candidate(JsonView),
    Unknown(Seq<char>),
}

impl Negotiation {
    /// The piece over the views of its parts.
    pub open spec fn view(self) -> NegotiationView {
        match self {
            Negotiation::Offer(s) => NegotiationView::Offer(s@),
            Negotiation::Answer(s) => NegotiationView::Answer(s@),
            Negotiation::Candidate(j) => NegotiationView::Candidate(j@),
            Negotiation::Unknown(s) => NegotiationView::Unknown(s@),
        }
    }
}

/// What a payload says, or what is missing in it.
pub open spec fn negotiation_in(payload: JsonView) -> Result<NegotiationView, Seq<char>> {
    let kind = payload.text_or("type"@, ""@);
    if kind == "offer"@ {
        match payload.text_member("sdp"@) {
            Some(sdp) => Ok(NegotiationView::Offer(sdp)),
            None => Err("offer missing sdp"@),
        }
    } else if kind == "answer"@ {
        match payload.text_member("sdp"@) {
            Some(sdp) => Ok(NegotiationView::Answer(sdp)),
            None => Err("answer missing sdp"@),
        }
    } else if kind == "candidate"@ {
        match payload.get("candidate"@) {
            Some(c) => Ok(NegotiationView::Candidate(c)),
            None => Err("candidate missing payload"@),
        }
    } else {
        Ok(NegotiationView::Unknown(kind))
    }
}

/// Reads a payload.
pub fn handle_signal(payload: &Json) -> (r: Result<Negotiation, String>)
    ensures
        negotiation_in(payload@) == (match r {
            Ok(n) => Ok::<NegotiationView, Seq<char>>(n@),
            Err(e) => Err::<NegotiationView, Seq<char>>(e@),
        }),
{
    let kind = payload.text_or("type", "");
    if same(kind.as_str(), "offer") {
        match payload.text_member("sdp") {
            Some(sdp) => Ok(Negotiation::Offer(sdp.to_owned())),
            None => Err("offer missing sdp".to_owned()),
        }
    } else if same(kind.as_str(), "answer") {
        match payload.text_member("sdp") {
            Some(sdp) => Ok(Negotiation::Answer(sdp.to_owned())),
            None => Err("answer missing sdp".to_owned()),
        }
    } else if same(kind.as_str(), "candidate") {
        match payload.get("candidate") {
            Some(c) => Ok(Negotiation::Candidate(c.clone())),
            None => Err("candidate missing payload".to_owned()),
        }
    } else {
        Ok(Negotiation::Unknown(kind))
    }
}

/// Whether the connection that a piece of negotiation is for, should it not be
/// there yet, is one that this side opens the control channel of.
pub fn initiates(n: &Negotiation) -> (r: bool)
    ensures
        r == (n@ is Answer),
{
    match n {
        Negotiation::Answer(_) => true,
        _ => false,
    }
}

/// The payload of a session description.
pub open spec fn sdp_payload(kind: Seq<char>, sdp: Seq<char>) -> JsonView {
    JsonView::Obj(map!["type"@ => JsonView::Str(kind), "sdp"@ => JsonView::Str(sdp)])
}

/// The payload of a candidate.
pub open spec fn candidate_payload(c: JsonView) -> JsonView {
    JsonView::Obj(map!["type"@ => JsonView::Str("candidate"@), "candidate"@ => c])
}

/// Makes the payload of an offer.
pub fn offer(sdp: &str) -> (r: Json)
    ensures
        r@ == sdp_payload("offer"@, sdp@),
{
    Fields::new().with_text("type", "offer").with_text("sdp", sdp).done()
}

/// Makes the payload of an answer.
pub fn answer(sdp: &str) -> (r: Json)
    ensures
        r@ == sdp_payload("answer"@, sdp@),
{
    Fields::new().with_text("type", "answer").with_text("sdp", sdp).done()
}

/// Makes the payload of a candidate.
pub fn candidate(c: Json) -> (r: Json)
    ensures
        r@ == candidate_payload(c@),
{
    Fields::new().with_text("type", "candidate").with("candidate", c).done()
}

/// What one side says is what the other side hears.
pub proof fn negotiation_arrives(sdp: Seq<char>, c: JsonView)
    ensures
        negotiation_in(sdp_payload("offer"@, sdp)) == Ok::<NegotiationView, Seq<char>>(
            NegotiationView::Offer(sdp),
        ),
        negotiation_in(sdp_payload("answer"@, sdp)) == Ok::<NegotiationView, Seq<char>>(
            NegotiationView::Answer(sdp),
        ),
        negotiation_in(candidate_payload(c)) == Ok::<NegotiationView, Seq<char>>(
            NegotiationView::Candidate(c),
        ),
{
    reveal_strlit("type");
    reveal_strlit("sdp");
    reveal_strlit("candidate");
    reveal_strlit("offer");
    reveal_strlit("answer");
    assert("type"@.len() == 4);
    assert("sdp"@.len() == 3);
    assert("candidate"@.len() == 9);
    assert("offer"@.len() == 5);
    assert("answer"@.len() == 6);
}

// ---- servers that help to connect ----

/// A server that helps to connect, with nothing left open.
pub struct RtcIceServer {
    pub urls: Vec<String>,
    pub username: String,
    pub credential: String,
}

/// The model of such a server.
pub struct RtcIceView {
    pub urls: Seq<Seq<char>>,
    pub username: Seq<char>,
    pub credential: Seq<char>,
}

impl RtcIceServer {
    /// The server over the views of its texts.
    pub open spec fn view(self) -> RtcIceView {
        RtcIceView {
            urls: views(self.urls@),
            username: self.username@,
            credential: self.credential@,
        }
    }
}

/// The text, or an empty one for none.
pub open spec fn or_empty(s: Option<Seq<char>>) -> Seq<char> {
    match s {
        Some(s) => s,
        None => ""@,
    }
}

/// A server of the settings with nothing left open.
pub open spec fn rtc_of(s: IceView) -> RtcIceView {
    RtcIceView {
        urls: s.urls,
        username: or_empty(s.username),
        credential: or_empty(s.credential),
    }
}

/// The servers over the views of their texts.
pub open spec fn rtc_views(v: Seq<RtcIceServer>) -> Seq<RtcIceView> {
    Seq::new(v.len(), |i: int| v[i]@)
}

/// A copy of a list of texts.
fn copy_texts(v: &Vec<String>) -> (r: Vec<String>)
    ensures
        views(r@) == views(v@),
{
    let mut out: Vec<String> = Vec::new();
    let mut i: usize = 0;
    while i < v.len()
        invariant
            i <= v.len(),
            out@.len() == i,
            forall|k: int| 0 <= k < i ==> (#[trigger] out@[k])@ == v@[k]@,
        decreases v.len() - i,
    {
        out.push(v[i].clone());
        i += 1;
    }
    assert(views(out@) =~= views(v@));
    out
}

/// The text, or an empty one for none.
fn text_or_empty(s: &Option<String>) -> (r: String)
    ensures
        r@ == or_empty(opt_view(*s)),
{
    match s {
        Some(s) => s.clone(),
        None => "".to_owned(),
    }
}

/// The servers of the settings with nothing left open.
pub fn ice_from_config(servers: &Vec<IceServer>) -> (r: Vec<RtcIceServer>)
    ensures
        rtc_views(r@) == Seq::new(servers@.len(), |i: int| rtc_of(servers@[i]@)),
{
    let mut out: Vec<RtcIceServer> = Vec::new();
    let mut i: usize = 0;
    while i < servers.len()
        invariant
            i <= servers.len(),
            out@.len() == i,
            forall|k: int| 0 <= k < i ==> (#[trigger] out@[k])@ == rtc_of(servers@[k]@),
        decreases servers.len() - i,
    {
        let s = &servers[i];
        out.push(
            RtcIceServer {
                urls: copy_texts(&s.urls),
                username: text_or_empty(&s.username),
                credential: text_or_empty(&s.credential),
            },
        );
        i += 1;
    }
    assert(rtc_views(out@) =~= Seq::new(servers@.len(), |i: int| rtc_of(servers@[i]@)));
    out
}

/// The server to fall back on.
pub open spec fn fallback_ice() -> RtcIceView {
    RtcIceView { urls: seq!["stun:stun.l.google.com:19302"@], username: ""@, credential: ""@ }
}

/// The servers that are used: the given ones, or the one that is always there.
pub open spec fn servers_used(servers: Seq<RtcIceView>) -> Seq<RtcIceView> {
    if servers.len() == 0 {
        seq![fallback_ice()]
    } else {
        servers
    }
}

/// The servers to use: never none, since without one nothing connects across a
/// NAT.
pub fn ice_or_fallback(servers: Vec<RtcIceServer>) -> (r: Vec<RtcIceServer>)
    ensures
        rtc_views(r@) == servers_used(rtc_views(servers@)),
        r@.len() > 0,
{
    if servers.len() > 0 {
        return servers;
    }
    let mut urls: Vec<String> = Vec::new();
    urls.push("stun:stun.l.google.com:19302".to_owned());
    assert(views(urls@) =~= seq!["stun:stun.l.google.com:19302"@]);
    let mut out: Vec<RtcIceServer> = Vec::new();
    out.push(RtcIceServer { urls, username: "".to_owned(), credential: "".to_owned() });
    assert(rtc_views(out@) =~= seq![fallback_ice()]);
    out
}

/// The channel that carries actions between peers.
pub open spec fn control_label() -> Seq<char> {
    "ctrl"@
}

/// The frame in a message of a data channel: any JSON. A message that is none is
/// passed over. A frame of whole numbers and less than 128 levels that a friend
/// wrote is what comes in.
pub fn channel_frame(message: &Vec<u8>) -> (r: Option<Json>)
    ensures
        match r {
            Some(j) => parsed_bytes(message@) == Ok::<JsonView, Seq<char>>(j@),
            None => parsed_bytes(message@) is Err,
        },
        valid_utf8(message@) ==> (match r {
            Some(j) => parsed_json(decode_utf8(message@)) == Ok::<JsonView, Seq<char>>(j@),
            None => parsed_json(decode_utf8(message@)) is Err,
        }),
        forall|t: JsonView| #[trigger]
            t.fits(127) && valid_utf8(message@) && decode_utf8(message@) == json_text(t) ==> r
                is Some && r->0@ == t,
{
    match Json::parse_bytes(message) {
        Ok(j) => Some(j),
        Err(_) => None,
    }
}

/// Whether a channel is the one that carries actions.
pub fn is_control(label: &str) -> (r: bool)
    ensures
        r == (label@ == control_label()),
{
    same(label, "ctrl")
}

/// The name of the stream that carries speech to a friend.
pub fn stream_name(friend_id: &str) -> (r: String)
    ensures
        r@ == "ptt-"@ + friend_id@,
{
    "ptt-".to_owned().concat(friend_id)
}

} // verus!
