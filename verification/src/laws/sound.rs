//! Speech: what is heard, mixed and cut, and what peers negotiate.
use vstd::prelude::*;

#[allow(unused_imports)]
use crate::config::{opt_view, IceView};
#[allow(unused_imports)]
use crate::json::JsonView;
#[allow(unused_imports)]
use crate::peers::{
    beeped, candidate_payload, control_label, end_beep, fallback_ice, negotiation_in, or_empty,
    rtc_of, sdp_payload, servers_used, sounds_of, start_beep, talks_after, AudioCmd, AudioEventView,
    AudioFx, AudioView, NegotiationView, RtcIceView,
};
#[allow(unused_imports)]
use crate::ptt::{
    device_picked, level_sum, mixed, moment, quotient, range_picked, suits, PcmSample,
};
#[allow(unused_imports)]
use crate::text::{found_at, lowercase, occurs};

verus! {

/// Speech is played as it was heard, sample by sample, whether there are beeps or
/// not, and nothing is played that was not heard.
pub proof fn speech_is_played_as_heard(talking: bool, beeps: bool, s: Seq<i16>)
    ensures
        ({
            let out = sounds_of(talking, beeps, AudioEventView::Speech(s));
            &&& s.len() > 0 ==> out.len() > 0 && out[out.len() - 1] == AudioView::Samples(s)
            &&& s.len() == 0 ==> out.len() == 0
            &&& out.len() == 2 <==> s.len() > 0 && !talking && beeps
            &&& out.len() == 2 ==> out[0] is Beep
        }),
        sounds_of(talking, beeps, AudioEventView::Blank).len() == 0,
{
}

/// Speech starts with speech and ends with silence or the end of the connection; a
/// packet without speech changes nothing.
pub proof fn talking_starts_and_ends(talking: bool, beeps: bool, s: Seq<i16>)
    ensures
        s.len() > 0 ==> talks_after(talking, AudioEventView::Speech(s)),
        s.len() == 0 ==> talks_after(talking, AudioEventView::Speech(s)) == talking,
        !talks_after(talking, AudioEventView::Silence),
        !talks_after(talking, AudioEventView::Ended),
        talks_after(talking, AudioEventView::Blank) == talking,
        sounds_of(talking, beeps, AudioEventView::Silence).len() == (if talking && beeps {
            1int
        } else {
            0int
        }),
        sounds_of(talking, beeps, AudioEventView::Ended) == sounds_of(
            talking,
            beeps,
            AudioEventView::Silence,
        ),
        talking && beeps ==> sounds_of(talking, beeps, AudioEventView::Silence)[0] is Beep,
{
}

/// The beep at the start is the higher and shorter one of the two, and both are
/// equally loud.
pub proof fn beeps_can_be_told_apart()
    ensures
        start_beep() is Beep && end_beep() is Beep,
        start_beep()->freq > end_beep()->freq,
        start_beep()->ms < end_beep()->ms,
        start_beep()->gain == end_beep()->gain,
        start_beep()->freq == 1200 && end_beep()->freq == 440,
        start_beep()->ms == 80 && end_beep()->ms == 100 && end_beep()->gain == 18,
{
}

// ---- mixing ----

/// Where all channels are at one level, their mean is that level.
pub proof fn equal_channels_mix_to_themselves(level: i16, channels: int, n: nat)
    requires
        channels > 0,
    ensures
        level_sum(Seq::new(n, |i: int| level)) == n * (level as int),
        quotient(channels * (level as int), channels) == level as int,
    decreases n,
{
    let all = Seq::new(n, |i: int| level);
    if n > 0 {
        equal_channels_mix_to_themselves(level, channels, (n - 1) as nat);
        assert(all.drop_last() =~= Seq::new((n - 1) as nat, |i: int| level));
        assert(n * (level as int) == (n - 1) * (level as int) + level as int) by (nonlinear_arith);
    } else {
        assert(0 * (level as int) == 0);
    }
    lemma_divide_back(level as int, channels);
}

/// What is multiplied and divided is what it was.
proof fn lemma_divide_back(x: int, n: int)
    by (nonlinear_arith)
    requires
        n > 0,
    ensures
        quotient(n * x, n) == x,
{
}

/// Silence is silence in every format, and the formats agree on how loud the
/// loudest is: the lowest sample of each is the lowest of 16 bits.
pub proof fn formats_agree_on_silence_and_loudness()
    ensures
        <i16 as PcmSample>::scaled(0i16.level()) == 0,
        <u16 as PcmSample>::scaled(0x8000u16.level()) == 0,
        <i8 as PcmSample>::scaled(0i8.level()) == 0,
        <u8 as PcmSample>::scaled(0x80u8.level()) == 0,
        <i32 as PcmSample>::scaled(0i32.level()) == 0,
        <i16 as PcmSample>::scaled(i16::MIN.level()) == -0x8000,
        <u16 as PcmSample>::scaled(0u16.level()) == -0x8000,
        <i8 as PcmSample>::scaled(i8::MIN.level()) == -0x8000,
        <u8 as PcmSample>::scaled(0u8.level()) == -0x8000,
        <i32 as PcmSample>::scaled(i32::MIN.level()) == -0x8000,
{
}

/// In every format a louder sample stays the louder one, or becomes as loud.
pub proof fn louder_stays_louder(a: i32, b: i32, x: u8, y: u8, p: u16, q: u16, k: i8, l: i8)
    ensures
        a <= b ==> <i32 as PcmSample>::scaled(a.level()) <= <i32 as PcmSample>::scaled(b.level()),
        x < y ==> <u8 as PcmSample>::scaled(x.level()) < <u8 as PcmSample>::scaled(y.level()),
        p < q ==> <u16 as PcmSample>::scaled(p.level()) < <u16 as PcmSample>::scaled(q.level()),
        k < l ==> <i8 as PcmSample>::scaled(k.level()) < <i8 as PcmSample>::scaled(l.level()),
        <i32 as PcmSample>::scaled(a.level()) == a as int / 0x1_0000,
        <u16 as PcmSample>::scaled(p.level()) == p as int - 0x8000,
        <u8 as PcmSample>::scaled(x.level()) == (x as int - 0x80) * 256,
{
}

/// Mixing gives one sample for each full moment, the mean of that moment.
pub proof fn mixing_takes_the_mean_of_each_moment(data: Seq<i16>, channels: int, k: int)
    requires
        channels > 0,
        0 <= k < data.len() as int / channels,
    ensures
        mixed(data, channels).len() == data.len() as int / channels,
        mixed(data, channels)[k] == quotient(
            level_sum(data.subrange(k * channels, k * channels + channels)),
            channels,
        ),
{
}

/// The mean of two channels lies between them.
pub proof fn a_mean_lies_between(a: int, b: int)
    requires
        a <= b,
    ensures
        a <= quotient(a + b, 2) <= b,
{
}

/// A microphone suits what was asked for where its name holds that, in whatever
/// case; its own name always does.
pub proof fn microphones_suit_their_names(name: Seq<char>, want: Seq<char>)
    ensures
        suits(name, name),
        suits(name, want) <==> exists|at: int| #[trigger]
            found_at(lowercase(name), lowercase(want), at),
{
    let l = lowercase(name);
    assert(l.subrange(0, l.len() as int) =~= l);
    assert(found_at(l, l, 0));
}

// ---- negotiation ----

/// A payload is what its type says, and says what is missing where something is.
pub proof fn payloads_are_what_they_say(payload: JsonView, sdp: Seq<char>, c: JsonView)
    ensures
        payload.text_member("type"@) == Some("offer"@) && payload.text_member("sdp"@) == Some(sdp)
            ==> negotiation_in(payload) == Ok::<NegotiationView, Seq<char>>(
            NegotiationView::Offer(sdp),
        ),
        payload.text_member("type"@) == Some("answer"@) && payload.text_member("sdp"@) == Some(sdp)
            ==> negotiation_in(payload) == Ok::<NegotiationView, Seq<char>>(
            NegotiationView::Answer(sdp),
        ),
        payload.text_member("type"@) == Some("candidate"@) && payload.get("candidate"@) == Some(c)
            ==> negotiation_in(payload) == Ok::<NegotiationView, Seq<char>>(
            NegotiationView::Candidate(c),
        ),
        payload.text_member("type"@) == Some("offer"@) && payload.text_member("sdp"@) is None
            ==> negotiation_in(payload) == Err::<NegotiationView, Seq<char>>("offer missing sdp"@),
        payload.text_member("type"@) == Some("answer"@) && payload.text_member("sdp"@) is None
            ==> negotiation_in(payload) == Err::<NegotiationView, Seq<char>>("answer missing sdp"@),
        payload.text_member("type"@) == Some("candidate"@) && payload.get("candidate"@) is None
            ==> negotiation_in(payload) == Err::<NegotiationView, Seq<char>>(
            "candidate missing payload"@,
        ),
        payload.get("type"@) is None ==> negotiation_in(payload) == Ok::<
            NegotiationView,
            Seq<char>,
        >(NegotiationView::Unknown(""@)),
{
    reveal_strlit("offer");
    reveal_strlit("answer");
    reveal_strlit("candidate");
    reveal_strlit("");
    assert("offer"@.len() == 5 && "answer"@.len() == 6 && "candidate"@.len() == 9);
}

/// What is said of a session description and of a candidate is under its name.
pub proof fn payloads_carry_what_they_are_given(kind: Seq<char>, sdp: Seq<char>, c: JsonView)
    ensures
        sdp_payload(kind, sdp).text_member("type"@) == Some(kind),
        sdp_payload(kind, sdp).text_member("sdp"@) == Some(sdp),
        candidate_payload(c).text_member("type"@) == Some("candidate"@),
        candidate_payload(c).get("candidate"@) == Some(c),
{
    reveal_strlit("type");
    reveal_strlit("sdp");
    reveal_strlit("candidate");
    assert("type"@.len() == 4 && "sdp"@.len() == 3 && "candidate"@.len() == 9);
}

/// A server of the settings is used as it stands there; a name or a credential
/// that is not there is empty. There is always a server to fall back on.
pub proof fn servers_are_used_as_set(s: IceView)
    ensures
        rtc_of(s).urls == s.urls,
        s.username matches Some(u) ==> rtc_of(s).username == u,
        s.credential matches Some(c) ==> rtc_of(s).credential == c,
        s.username is None ==> rtc_of(s).username.len() == 0,
        s.credential is None ==> rtc_of(s).credential.len() == 0,
        fallback_ice().urls == seq!["stun:stun.l.google.com:19302"@],
        control_label() == "ctrl"@,
{
    reveal_strlit("");
}

/// One's own speech is framed by the beeps exactly where they are on: the high one
/// at its start, the low one at its end.
pub proof fn beeps_follow_the_setting(fx: AudioFx, start: Option<AudioCmd>, end: Option<AudioCmd>)
    requires
        beeped(fx, start_beep(), start),
        beeped(fx, end_beep(), end),
    ensures
        start is Some <==> fx.radio_beeps,
        end is Some <==> fx.radio_beeps,
        fx.radio_beeps ==> start->0@ == (AudioView::Beep { freq: 1_200, ms: 80, gain: 18 }),
        fx.radio_beeps ==> end->0@ == (AudioView::Beep { freq: 440, ms: 100, gain: 18 }),
{
}

/// The servers of the settings are used as they are; only without any is the one
/// that is always there.
pub proof fn given_servers_are_used(servers: Seq<RtcIceView>)
    ensures
        servers.len() > 0 ==> servers_used(servers) == servers,
        servers.len() == 0 ==> servers_used(servers).len() == 1 && servers_used(servers)[0].urls
            == seq!["stun:stun.l.google.com:19302"@],
{
}

/// The microphone that is picked is the first whose name has what was asked for;
/// none is picked where none was asked for or none suits.
pub proof fn the_first_suitable_microphone_is_picked(
    want: Seq<char>,
    names: Seq<String>,
    r: Option<usize>,
    i: int,
)
    ensures
        device_picked(None, names, r) ==> r is None,
        device_picked(Some(want), names, r) && 0 <= i < names.len() && suits(names[i]@, want)
            ==> r is Some && r->0 <= i && suits(names[r->0 as int]@, want),
        device_picked(Some(want), names, r) && r is Some ==> r->0 < names.len() && suits(
            names[r->0 as int]@,
            want,
        ),
{
}

/// The range that is picked is the first that has 48 kHz; none is where none has.
pub proof fn the_first_suitable_range_is_picked(
    ranges: Seq<(u32, u32)>,
    r: Option<usize>,
    i: int,
)
    requires
        range_picked(ranges, r),
    ensures
        0 <= i < ranges.len() && ranges[i].0 <= 48_000 <= ranges[i].1 ==> r is Some && r->0 <= i,
        r is Some ==> r->0 < ranges.len() && ranges[r->0 as int].0 <= 48_000
            && ranges[r->0 as int].1 >= 48_000,
{
}

} // verus!
