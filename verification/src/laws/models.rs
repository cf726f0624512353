//! The models: nothing of a value is lost or changed in them.
use vstd::prelude::*;

#[allow(unused_imports)]
use crate::address::opt_str;
#[allow(unused_imports)]
use crate::commands::{devices_view, Outcome};
#[allow(unused_imports)]
use crate::config::{ice_views, opt_view, text_map, trust_map, IceServer};
#[allow(unused_imports)]
use crate::daemon::{effects, Effect, EffectView};
#[allow(unused_imports)]
use crate::friends::{Flow, FlowView};
#[allow(unused_imports)]
use crate::ipc::{Listing, Step, StepView};
#[allow(unused_imports)]
use crate::json::{empty_obj, members, opt_text, trees, Json, JsonView};
#[allow(unused_imports)]
use crate::lua::json_view;
#[allow(unused_imports)]
use crate::overlay_ipc::OverlayEvent;
#[allow(unused_imports)]
use crate::peers::{
    rtc_views, sounds, AudioCmd, AudioEvent, AudioEventView, AudioView, Negotiation,
    NegotiationView, RtcIceServer,
};
#[allow(unused_imports)]
use crate::ptt::{frame_views, levels};
#[allow(unused_imports)]
use crate::repl::{Choice, ChoiceView, PromptStep, PromptView, Typed, TypedView};
#[allow(unused_imports)]
use crate::sdk::raw_view;
#[allow(unused_imports)]
use crate::service::{plan_view, step_views, Plan, ServiceStep, ServiceStepView};
#[allow(unused_imports)]
use crate::strmap::StrMap;
#[allow(unused_imports)]
use crate::text::views;

verus! {

// ---- trees ----

/// A member that is put is there, and every other is as it was; one that is taken
/// out is gone, and every other is as it was. Only an object has members.
pub proof fn members_are_put_and_taken(
    m: Map<Seq<char>, JsonView>,
    t: JsonView,
    key: Seq<char>,
    other: Seq<char>,
    val: JsonView,
)
    ensures
        JsonView::Obj(m).put(key, val).get(key) == Some(val),
        JsonView::Obj(m).without(key).get(key) is None,
        other != key ==> t.put(key, val).get(other) == t.get(other),
        other != key ==> t.without(key).get(other) == t.get(other),
        m.contains_key(key) ==> JsonView::Obj(m).get(key) == Some(m[key]),
        !m.contains_key(key) ==> JsonView::Obj(m).get(key) is None,
        !(t is Obj) ==> t.get(key) is None && t.put(key, val) == t && t.without(key) == t,
        empty_obj().get(key) is None,
{
}

/// A member is read as what it is: a text as a text, truth as truth, a list as its
/// items, and where it is none of that, or is not there, what stands for it.
pub proof fn members_are_read_as_they_are(
    t: JsonView,
    key: Seq<char>,
    s: Seq<char>,
    b: bool,
    items: Seq<JsonView>,
    default: Seq<char>,
    other: JsonView,
)
    ensures
        t.text_member(key) == Some(s) <==> t.get(key) == Some(JsonView::Str(s)),
        t.get(key) == Some(JsonView::Str(s)) ==> t.text_or(key, default) == s,
        !(t.text_member(key) is Some) ==> t.text_or(key, default) == default,
        t.flag(key) <==> t.get(key) == Some(JsonView::Bool(true)),
        t.get(key) == Some(JsonView::Arr(items)) ==> t.items_of(key) == items,
        t.get(key) is None ==> t.items_of(key).len() == 0,
        t.get(key) is None ==> t.member_or(key, other) == other,
        t.get(key) is Some ==> t.member_or(key, other) == t.get(key)->0,
{
}

/// The tree of a value has its parts: plain values are themselves, an array has the
/// trees of its items in their order, and an object that of each member under its
/// name, the later of two with one name.
pub proof fn trees_have_their_parts(
    b: bool,
    s: String,
    v: Vec<Json>,
    e: Seq<(String, Json)>,
    name: String,
    val: Json,
    i: int,
)
    ensures
        Json::Null@ == JsonView::Null,
        Json::Bool(b)@ == JsonView::Bool(b),
        Json::Str(s)@ == JsonView::Str(s@),
        Json::Arr(v)@ is Arr && Json::Arr(v)@->Arr_0.len() == v@.len(),
        0 <= i < v@.len() ==> Json::Arr(v)@->Arr_0[i] == v@[i]@,
        trees(v@).len() == v@.len(),
        0 <= i < v@.len() ==> trees(v@)[i] == v@[i]@,
        members(e.push((name, val))) == members(e).insert(name@, val@),
        members(Seq::<(String, Json)>::empty()) == Map::<Seq<char>, JsonView>::empty(),
        opt_text(Some(s)) == JsonView::Str(s@),
        opt_text(None) == JsonView::Null,
{
    assert(e.push((name, val)).drop_last() =~= e);
}

// ---- lists and options ----

/// Lists have the models of their items, in their order and no more; what may be
/// missing has the model of what is there.
pub proof fn lists_have_their_items(
    texts: Seq<String>,
    done: Seq<Effect>,
    servers: Seq<IceServer>,
    relays: Seq<RtcIceServer>,
    heard: Seq<AudioCmd>,
    steps: Seq<ServiceStep>,
    frames: Seq<Vec<i16>>,
    samples: Seq<i16>,
    i: int,
)
    ensures
        views(texts).len() == texts.len() && effects(done).len() == done.len(),
        ice_views(servers).len() == servers.len() && rtc_views(relays).len() == relays.len(),
        sounds(heard).len() == heard.len() && step_views(steps).len() == steps.len(),
        frame_views(frames).len() == frames.len() && levels(samples).len() == samples.len(),
        0 <= i < texts.len() ==> views(texts)[i] == texts[i]@,
        0 <= i < done.len() ==> effects(done)[i] == done[i]@,
        0 <= i < servers.len() ==> ice_views(servers)[i] == servers[i]@,
        0 <= i < relays.len() ==> rtc_views(relays)[i] == relays[i]@,
        0 <= i < heard.len() ==> sounds(heard)[i] == heard[i]@,
        0 <= i < steps.len() ==> step_views(steps)[i] == steps[i]@,
        0 <= i < frames.len() ==> frame_views(frames)[i] == frames[i]@,
        0 <= i < samples.len() ==> levels(samples)[i] == samples[i] as int,
{
}

/// What may be missing has the model of what is there, and a result that of what it
/// is.
pub proof fn options_have_what_is_there(
    s: String,
    t: &str,
    j: Json,
    v: Vec<String>,
    p: Plan,
)
    ensures
        opt_view(Some(s)) == Some(s@),
        opt_view(None) is None,
        opt_str(Some(t)) == Some(t@),
        opt_str(None) is None,
        raw_view(Some(t)) == Some(t@),
        raw_view(None) is None,
        json_view(Ok(j)) == Ok::<JsonView, Seq<char>>(j@),
        json_view(Err(s)) == Err::<JsonView, Seq<char>>(s@),
        devices_view(Ok(v)) == Ok::<Seq<Seq<char>>, Seq<char>>(views(v@)),
        devices_view(Err(s)) == Err::<Seq<Seq<char>>, Seq<char>>(s@),
        plan_view(Ok(p)) is Ok && plan_view(Ok(p))->Ok_0 == p@,
        plan_view(Err(s)) is Err && plan_view(Err(s))->Err_0 == s@,
{
}

/// The maps of the settings have the keys that they have, with their values.
pub proof fn maps_have_their_keys(
    m: StrMap<String>,
    t: StrMap<StrMap<bool>>,
    key: Seq<char>,
)
    ensures
        text_map(m).contains_key(key) == m@.contains_key(key),
        m@.contains_key(key) ==> text_map(m)[key] == m@[key]@,
        trust_map(t).contains_key(key) == t@.contains_key(key),
        t@.contains_key(key) ==> trust_map(t)[key] == t@[key]@,
{
}

// ---- things to do ----

/// What is to be done is modelled with all that it is done with.
pub proof fn effects_keep_their_parts(e: Effect)
    ensures
        e matches Effect::Print(s) ==> e@ == EffectView::Print(s@),
        e matches Effect::Show(x) ==> e@ == EffectView::Show(x@) && e@->Show_0.kind == x.kind@
            && e@->Show_0.payload == x.payload@,
        e matches Effect::Send(j) ==> e@ == EffectView::Send(j@),
        e matches Effect::Negotiate { from, payload } ==> e@ == (EffectView::Negotiate {
            from: from@,
            payload: payload@,
        }),
        e matches Effect::Invoke { from, data } ==> e@ == (EffectView::Invoke {
            from: from@,
            data: data@,
        }),
        e matches Effect::Answer { waiter, list } ==> e@ == (EffectView::Answer {
            waiter,
            list: list@,
        }),
        e matches Effect::Refuse { waiter, message } ==> e@ == (EffectView::Refuse {
            waiter,
            message: message@,
        }),
        e is Prewarm ==> e@ is Prewarm,
{
}

/// So is what follows a command.
pub proof fn steps_keep_their_parts(s: Step)
    ensures
        s matches Step::Reply(j) ==> s@ == StepView::Reply(j@),
        s matches Step::Call { frame } ==> s@ == (StepView::Call { frame: frame@ }),
        s matches Step::List { frame, of } ==> s@ == (StepView::List { frame: frame@, of }),
        s matches Step::Publish { frame, reply } ==> s@ == (StepView::Publish {
            frame: frame@,
            reply: reply@,
        }),
        s matches Step::Prewarm { friend_id, reply } ==> s@ == (StepView::Prewarm {
            friend_id: friend_id@,
            reply: reply@,
        }),
        s matches Step::Talk { friend_id, label, device, reply } ==> s@ == (StepView::Talk {
            friend_id: friend_id@,
            label: label@,
            device: opt_view(device),
            reply: reply@,
        }),
        s matches Step::Hush { session, reply } ==> s@ == (StepView::Hush {
            session,
            reply: reply@,
        }),
{
}

/// So are outcomes, and what commands, the prompt and the setup do next.
pub proof fn outcomes_keep_their_parts(
    o: Outcome,
    f: Flow,
    t: Typed,
    p: PromptStep,
    c: Choice,
)
    ensures
        o@.save == o.save,
        o@.lines == views(o.lines@),
        f is Wait ==> f@ is Wait,
        f matches Flow::Done(lines) ==> f@ == FlowView::Done(views(lines@)),
        f matches Flow::Fail(m) ==> f@ == FlowView::Fail(m@),
        t matches Typed::Line(s) ==> t@ == TypedView::Line(s@),
        t is Interrupted ==> t@ is Interrupted,
        t is End ==> t@ is End,
        t matches Typed::Failed(s) ==> t@ == TypedView::Failed(s@),
        p is Again ==> p@ is Again,
        p matches PromptStep::Complain(s) ==> p@ == PromptView::Complain(s@),
        p matches PromptStep::Run(w) ==> p@ == PromptView::Run(views(w@)),
        p is Leave ==> p@ is Leave,
        p matches PromptStep::Fail(s) ==> p@ == PromptView::Fail(s@),
        c is Register ==> c@ is Register,
        c is SignIn ==> c@ is SignIn,
        c is Skip ==> c@ is Skip,
        c matches Choice::Again(s) ==> c@ == ChoiceView::Again(s@),
{
}

/// So are sounds, negotiation, servers and the steps of autostart.
pub proof fn devices_keep_their_parts(
    a: AudioCmd,
    e: AudioEvent,
    n: Negotiation,
    s: ServiceStep,
    i: IceServer,
    r: RtcIceServer,
)
    ensures
        a matches AudioCmd::Samples(v) ==> a@ == AudioView::Samples(v@),
        a matches AudioCmd::Beep { freq, ms, gain } ==> a@ == (AudioView::Beep { freq, ms, gain }),
        e is Silence ==> e@ is Silence,
        e is Ended ==> e@ is Ended,
        e is Blank ==> e@ is Blank,
        e matches AudioEvent::Speech(v) ==> e@ == AudioEventView::Speech(v@),
        n matches Negotiation::Offer(x) ==> n@ == NegotiationView::Offer(x@),
        n matches Negotiation::Answer(x) ==> n@ == NegotiationView::Answer(x@),
        n matches Negotiation::Candidate(x) ==> n@ == NegotiationView::Candidate(x@),
        n matches Negotiation::Unknown(x) ==> n@ == NegotiationView::Unknown(x@),
        s matches ServiceStep::Write { path, body } ==> s@ == (ServiceStepView::Write {
            path: path@,
            body: body@,
        }),
        s matches ServiceStep::Run { program, args, needed } ==> s@ == (ServiceStepView::Run {
            program: program@,
            args: views(args@),
            needed,
        }),
        s matches ServiceStep::Remove { path } ==> s@ == (ServiceStepView::Remove { path: path@ }),
        i@.urls == views(i.urls@),
        i@.username == opt_view(i.username),
        i@.credential == opt_view(i.credential),
        r@.urls == views(r.urls@),
        r@.username == r.username@,
        r@.credential == r.credential@,
{
}

} // verus!
