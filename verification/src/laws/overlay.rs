//! The local socket, the overlay and the prompt.
use vstd::prelude::*;

#[allow(unused_imports)]
use crate::config::{opt_view, text_map, Config};
#[allow(unused_imports)]
use crate::daemon::{action_effects, card, DaemonState, EffectView};
#[allow(unused_imports)]
use crate::friends::label_of;
#[allow(unused_imports)]
use crate::json::{empty_obj, parsed_json, Json, JsonView};
#[allow(unused_imports)]
use crate::overlay_ipc::{
    answers, bind_goes_on, client_heard, daemon_url, event_tree, is_sticky, kept_text, remembered, reply_found,
    replayed, shown_kind, stamped, tap_line_of, BindStep, ClientStep, EventView,
};
#[allow(unused_imports)]
use crate::repl::{
    choice_of, combo_taken, friend_taken, history_of, is_exit, line_read, open_combo_of,
    prompt_outcome, prompt_text, ptt_combo_of, setup_done_lines, setup_due, setup_lines,
    shell_words, username_of, welcome_lines, ChoiceView, LineStep, PromptView, TypedView,
};
#[allow(unused_imports)]
use crate::signaling::WsFrame;
#[allow(unused_imports)]
use crate::text::{trimmed, views};
#[allow(unused_imports)]
use crate::words::{keys_differ, kinds_differ, states_differ};

verus! {

/// An event goes over the socket as its kind and its payload.
pub proof fn events_are_a_kind_and_a_payload(e: EventView)
    ensures
        event_tree(e).text_member("kind"@) == Some(e.kind),
        event_tree(e).get("payload"@) == Some(e.payload),
        event_tree(e).get("reply"@) is None,
{
    keys_differ();
}

/// A frame answers a command exactly where it carries the command's id as the one
/// it replies to; so no event answers any.
pub proof fn only_replies_answer(frame: JsonView, id: Seq<char>, e: EventView)
    ensures
        frame.get("reply"@) == Some(JsonView::Str(id)) <==> answers(frame, id),
        !answers(event_tree(e), id),
{
    keys_differ();
}

/// The events that are kept for overlays that come late are the settings, the
/// greeting and the friend list, and no other.
pub proof fn what_is_kept(m: Map<Seq<char>, Seq<char>>, ev: EventView)
    ensures
        ev.kind == "config"@ || ev.kind == "hello"@ || ev.kind == "friends"@ ==> remembered(
            m,
            ev,
        ).contains_key(ev.kind),
        ev.kind != "config"@ && ev.kind != "hello"@ && ev.kind != "friends"@ ==> remembered(m, ev)
            == m,
        forall|k: Seq<char>| k != ev.kind ==> #[trigger] kept_text(remembered(m, ev), k)
            == kept_text(m, k),
{
}

/// An action that is received shows up in the prompt as well: under the sender's
/// username, with its title and body, and a message is called `Message`.
pub proof fn actions_show_up_in_the_prompt(
    s: DaemonState,
    from: Seq<char>,
    action: Seq<char>,
    title: Seq<char>,
    body: Seq<char>,
    data: JsonView,
)
    requires
        s.presence@ != "dnd"@,
    ensures
        ({
            let told = action_effects(s, from, action, title, body, data);
            &&& told[1] is Show
            &&& tap_line_of(event_tree(told[1]->Show_0)) == Some(
                "\n["@ + (if action == "message"@ {
                    "Message"@
                } else {
                    action
                }) + "] "@ + label_of(s.friends@, from) + ": "@ + title + " — "@ + body,
            )
        }),
{
    keys_differ();
}

/// Nothing but actions shows up in the prompt.
pub proof fn other_events_stay_out_of_the_prompt(e: EventView)
    ensures
        tap_line_of(event_tree(e)) is Some <==> e.kind == "action"@,
{
    keys_differ();
}

// ---- the prompt ----

/// The prompt shows who one is, and that one is in Do Not Disturb exactly where
/// one is.
pub proof fn prompts_show_who_one_is(u: Seq<char>, presence: Seq<char>)
    ensures
        presence == "dnd"@ ==> prompt_text(Some(u), presence) == "sociacli("@ + u
            + " · do not disturb)> "@,
        presence != "dnd"@ ==> prompt_text(Some(u), presence) == "sociacli("@ + u + ")> "@,
        prompt_text(None, presence) == "sociacli> "@,
{
    reveal_strlit(" · do not disturb");
    reveal_strlit("");
    reveal_strlit(")> ");
    reveal_strlit(" · do not disturb)> ");
    assert(" · do not disturb"@ + ")> "@ =~= " · do not disturb)> "@);
    assert("sociacli("@ + u + " · do not disturb"@ + ")> "@ =~= "sociacli("@ + u + (
    " · do not disturb"@ + ")> "@));
    assert("sociacli("@ + u + ""@ + ")> "@ =~= "sociacli("@ + u + ")> "@);
}

/// The answers of the first run: each way of saying one of the three is read as
/// that one, an empty answer skips, and anything else is asked again with what was
/// said.
pub proof fn first_choices_are_read(answer: Seq<char>)
    ensures
        choice_of(answer) is Register <==> answer == "1"@ || answer == "register"@ || answer == "r"@,
        choice_of(answer) is SignIn <==> answer == "2"@ || answer == "login"@ || answer == "l"@,
        choice_of(answer) is Skip <==> answer == "3"@ || answer == "skip"@ || answer == "s"@
            || answer.len() == 0,
        choice_of(answer) matches ChoiceView::Again(e) ==> e == "pick 1, 2, or 3 (got `"@ + answer
            + "`)"@,
{
    reveal_strlit("1");
    reveal_strlit("2");
    reveal_strlit("3");
    reveal_strlit("r");
    reveal_strlit("l");
    reveal_strlit("s");
    reveal_strlit("register");
    reveal_strlit("login");
    reveal_strlit("skip");
    reveal_strlit("");
    assert("1"@[0] == '1' && "2"@[0] == '2' && "3"@[0] == '3');
    assert("r"@[0] == 'r' && "l"@[0] == 'l' && "s"@[0] == 's');
    assert("1"@.len() == 1 && "2"@.len() == 1 && "3"@.len() == 1);
    assert("r"@.len() == 1 && "l"@.len() == 1 && "s"@.len() == 1);
    assert("register"@.len() == 8 && "login"@.len() == 5 && "skip"@.len() == 4);
    if answer.len() == 0 {
        assert(answer =~= ""@);
    }
}

/// The setup offers the keys that are bound, and where there is none the ones that
/// a client starts with; it ends with the key and the friend that were chosen.
pub proof fn setups_offer_what_is_bound(cfg: Config, friend: Seq<char>, combo: Seq<char>)
    ensures
        text_map(cfg.shortcuts).contains_key("open"@) ==> open_combo_of(cfg) == text_map(
            cfg.shortcuts,
        )["open"@],
        text_map(cfg.shortcuts).contains_key("ptt"@) ==> ptt_combo_of(cfg) == text_map(
            cfg.shortcuts,
        )["ptt"@],
        !text_map(cfg.shortcuts).contains_key("open"@) ==> open_combo_of(cfg)
            == "Ctrl+Alt+Shift+KeyF"@,
        !text_map(cfg.shortcuts).contains_key("ptt"@) ==> ptt_combo_of(cfg)
            == "Ctrl+Alt+Shift+KeyK"@,
        setup_lines(open_combo_of(cfg), combo)[3] == "  • Open hotkey : "@ + open_combo_of(cfg),
        setup_lines(open_combo_of(cfg), combo)[4] == "  • PTT hotkey  : "@ + combo
            + "   (HOLD to talk, release to stop)"@,
        setup_done_lines(combo, Some(friend))[1] == "Done. PTT: HOLD `"@ + combo + "` to talk"@ + (
        " with "@ + friend) + "."@,
        setup_done_lines(combo, None)[1] == "Done. PTT: HOLD `"@ + combo + "` to talk"@ + ""@
            + "."@,
{
}

// ---- clients of the socket ----

/// A command goes out under its id and is otherwise as it was.
pub proof fn commands_go_out_under_their_id(
    members: Map<Seq<char>, JsonView>,
    id: Seq<char>,
    other: Seq<char>,
)
    ensures
        stamped(JsonView::Obj(members), id).text_member("id"@) == Some(id),
        other != "id"@ ==> stamped(JsonView::Obj(members), id).get(other) == JsonView::Obj(
            members,
        ).get(other),
{
}

/// A text is the reply to a command exactly where it is JSON that answers that id;
/// the reply is then that JSON.
pub proof fn replies_are_found_by_their_id(
    text: Seq<char>,
    id: Seq<char>,
    t: JsonView,
    r: Option<Json>,
)
    requires
        reply_found(text, id, r),
    ensures
        parsed_json(text) == Ok::<JsonView, Seq<char>>(t) && t.get("reply"@) == Some(
            JsonView::Str(id),
        ) ==> r is Some && r->0@ == t,
        parsed_json(text) == Ok::<JsonView, Seq<char>>(t) && t.get("reply"@) != Some(
            JsonView::Str(id),
        ) ==> r is None,
        parsed_json(text) is Err ==> r is None,
{
}

/// What a client writes is a command where it is JSON, and that JSON; anything else
/// is ignored, until it closes.
pub proof fn clients_are_heard(f: WsFrame, t: JsonView, r: ClientStep)
    requires
        client_heard(f, r),
    ensures
        f matches WsFrame::Text(s) ==> parsed_json(s@) == Ok::<JsonView, Seq<char>>(t) ==> r
            is Command && r->Command_0@ == t,
        r is Command <==> f is Text && parsed_json(f->Text_0@) is Ok,
        r is End <==> f is Close,
{
}

// ---- lines and answers ----

/// A line is run as its words; an empty one is skipped, the words for leaving
/// leave, and quotes that do not match are complained of. White space at its ends
/// does not matter.
pub proof fn lines_are_read_without_their_ends(raw: Seq<char>, r: LineStep)
    requires
        line_read(raw, r),
    ensures
        trimmed(raw).len() == 0 <==> r is Skip,
        trimmed(raw) == "exit"@ || trimmed(raw) == "quit"@ || trimmed(raw) == ":q"@ ==> r is Exit,
        r is Exit ==> trimmed(raw) == "exit"@ || trimmed(raw) == "quit"@ || trimmed(raw) == ":q"@,
        r matches LineStep::Run(w) ==> shell_words(trimmed(raw)) == Some(views(w@)),
        r is Unbalanced ==> shell_words(trimmed(raw)) is None,
{
    reveal_strlit("exit");
    reveal_strlit("quit");
    reveal_strlit(":q");
}

/// Every line with something in it is kept, without its ends, and nothing else is.
pub proof fn lines_are_kept(raw: Seq<char>, e: Seq<char>)
    ensures
        trimmed(raw).len() > 0 ==> history_of(TypedView::Line(raw)) == Some(trimmed(raw)),
        trimmed(raw).len() == 0 ==> history_of(TypedView::Line(raw)) is None,
        history_of(TypedView::Interrupted) is None,
        history_of(TypedView::End) is None,
        history_of(TypedView::Failed(e)) is None,
        prompt_outcome(TypedView::Interrupted) is Again,
        prompt_outcome(TypedView::End) is Leave,
        prompt_outcome(TypedView::Failed(e)) == PromptView::Fail("readline error: "@ + e),
{
}

/// A username is what was typed without its ends, and not nothing.
pub proof fn usernames_are_not_empty(answer: Seq<char>)
    ensures
        username_of(answer) is Ok <==> trimmed(answer).len() > 0,
        username_of(answer) is Ok ==> username_of(answer)->Ok_0 == trimmed(answer),
        username_of(answer) is Err ==> username_of(answer)->Err_0 == "username can't be empty"@,
{
}

/// An answer about a key binds that key to it where it is a combination, and keeps
/// the key otherwise; the other keys and settings stay as they were. Only a bad one
/// is complained of.
pub proof fn answers_bind_their_key(
    before: Config,
    after: Config,
    action: Seq<char>,
    answer: Seq<char>,
    valid: bool,
    said: Option<Seq<char>>,
    other: Seq<char>,
)
    requires
        combo_taken(before, after, action, answer, valid, said),
    ensures
        trimmed(answer).len() > 0 && valid ==> text_map(after.shortcuts).contains_key(action)
            && text_map(after.shortcuts)[action] == trimmed(answer),
        trimmed(answer).len() == 0 || !valid ==> after == before,
        said is Some <==> trimmed(answer).len() > 0 && !valid,
        said is Some ==> said->0 == "(invalid combo, keeping default)"@,
        other != action ==> text_map(after.shortcuts).contains_key(other) == text_map(
            before.shortcuts,
        ).contains_key(other),
        other != action && text_map(before.shortcuts).contains_key(other) ==> text_map(
            after.shortcuts,
        )[other] == text_map(before.shortcuts)[other],
        after == (Config { shortcuts: after.shortcuts, ..before }),
{
}

/// An answer about the friend is that friend; no answer keeps the one that was.
pub proof fn answers_name_the_friend(before: Config, after: Config, answer: Seq<char>)
    requires
        friend_taken(before, after, answer),
    ensures
        trimmed(answer).len() > 0 ==> after.default_ptt_friend is Some
            && after.default_ptt_friend->0@ == trimmed(answer),
        trimmed(answer).len() == 0 ==> after.default_ptt_friend == before.default_ptt_friend,
        after == (Config { default_ptt_friend: after.default_ptt_friend, ..before }),
{
}

/// The setup comes once, after one has an account.
pub proof fn setups_come_once(cfg: Config)
    ensures
        cfg.first_run_done ==> !setup_due(cfg),
        cfg.username is None ==> !setup_due(cfg),
        cfg.username is Some && !cfg.first_run_done ==> setup_due(cfg),
{
}

/// A line at the prompt is run as its words where they can be told apart, and
/// complained of where they cannot; a word for leaving leaves, and an empty line
/// does nothing.
pub proof fn lines_are_run_as_their_words(raw: Seq<char>, words: Seq<Seq<char>>)
    ensures
        trimmed(raw).len() == 0 ==> prompt_outcome(TypedView::Line(raw)) is Again,
        trimmed(raw) == "exit"@ || trimmed(raw) == "quit"@ || trimmed(raw) == ":q"@
            ==> prompt_outcome(TypedView::Line(raw)) is Leave,
        trimmed(raw).len() > 0 && trimmed(raw) != "exit"@ && trimmed(raw) != "quit"@ && trimmed(raw)
            != ":q"@ && shell_words(trimmed(raw)) == Some(words) ==> prompt_outcome(
            TypedView::Line(raw),
        ) == PromptView::Run(words),
        trimmed(raw).len() > 0 && trimmed(raw) != "exit"@ && trimmed(raw) != "quit"@ && trimmed(raw)
            != ":q"@ && shell_words(trimmed(raw)) is None ==> prompt_outcome(TypedView::Line(raw))
            == PromptView::Complain("parse error (unmatched quotes?)"@),
{
    reveal_strlit("exit");
    reveal_strlit("quit");
    reveal_strlit(":q");
}

/// A port that is taken is tried twenty times, a tenth of a second apart.
pub proof fn ports_are_tried_again(attempt: u32, r: BindStep)
    requires
        bind_goes_on(attempt, r),
    ensures
        r.pause == 100,
        r.again <==> attempt < 19,
{
}

/// The menu of the first run tells the server that is set, and offers under each
/// number what that number does.
pub proof fn menus_offer_what_they_do(server_url: Seq<char>)
    ensures
        ({
            let lines = welcome_lines(server_url);
            &&& lines[2] == "Server: "@ + server_url
            &&& lines[3] == "  1) Register a new account"@ && choice_of("1"@) is Register
            &&& lines[4] == "  2) Sign in to an existing account"@ && choice_of("2"@) is SignIn
            &&& lines[5] == "  3) Skip for now"@ && choice_of("3"@) is Skip
        }),
{
    reveal_strlit("1");
    reveal_strlit("2");
    reveal_strlit("3");
    reveal_strlit("r");
    reveal_strlit("l");
    reveal_strlit("register");
    reveal_strlit("login");
    assert("1"@[0] == '1' && "2"@[0] == '2' && "3"@[0] == '3' && "r"@[0] == 'r' && "l"@[0] == 'l');
}

} // verus!
