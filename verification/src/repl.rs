//! The interactive prompt and the setup of the first run.
use vstd::prelude::*;

#[allow(unused_imports)]
use crate::address::opt_str;
use crate::commands::{combo_is_valid, combo_or_word, Outcome};
#[allow(unused_imports)]
use crate::commands::{combo_objection, combo_or, OutcomeView};
use crate::config::Config;
#[allow(unused_imports)]
use crate::config::{opt_view, text_map};
use crate::text::{same, trim};
#[allow(unused_imports)]
use crate::text::{trimmed, views};
use crate::updater::current_version;
#[allow(unused_imports)]
use crate::updater::version_text;

verus! {

// ---- the prompt ----

/// The prompt: who one is, and whether one is in Do Not Disturb.
pub open spec fn prompt_text(username: Option<Seq<char>>, presence: Seq<char>) -> Seq<char> {
    match username {
        Some(u) => "sociacli("@ + u + (if presence == "dnd"@ {
            " · do not disturb"@
        } else {
            ""@
        }) + ")> "@,
        None => "sociacli> "@,
    }
}

/// Writes the prompt.
pub fn prompt(cfg: &Config) -> (r: String)
    ensures
        r@ == prompt_text(opt_view(cfg.username), cfg.presence@),
{
    let tag = if same(cfg.presence.as_str(), "dnd") {
        " · do not disturb"
    } else {
        ""
    };
    match &cfg.username {
        Some(u) => "sociacli(".to_owned().concat(u.as_str()).concat(tag).concat(")> "),
        None => "sociacli> ".to_owned(),
    }
}

/// The line that the prompt opens with.
pub fn banner() -> (r: String)
    ensures
        r@ == "sociacli "@ + version_text()
            + " — interactive mode. `help`, `exit`, ↑/↓ for history. Try `whoami`, `friend list`, `msg <user> hi`."@,
{
    "sociacli ".to_owned().concat(current_version()).concat(
        " — interactive mode. `help`, `exit`, ↑/↓ for history. Try `whoami`, `friend list`, `msg <user> hi`.",
    )
}

/// What the prompt says when the background daemon is switched off.
pub fn background_disabled() -> (r: &'static str)
    ensures
        r@
            == "(background daemon disabled — no notifications. Enable with `settings background on`.)"@,
{
    "(background daemon disabled — no notifications. Enable with `settings background on`.)"
}

// ---- lines ----

/// The words that `shlex::split` finds in a line; nothing where a quote is left
/// open or a backslash ends the line.
pub uninterp spec fn shell_words(line: Seq<char>) -> Option<Seq<Seq<char>>>;

/// `shlex::split`: a line cut into words as a shell would.
#[verifier::external_body]
fn split_words(line: &str) -> (r: Option<Vec<String>>)
    ensures
        (match r {
            Some(v) => Some(views(v@)),
            None => None,
        }) == shell_words(line@),
{
    shlex::split(line)
}

/// What becomes of a line. Every line but an empty one goes to the history.
pub enum LineStep {
    /// An empty line: nothing.
    Skip,
    /// Leave the prompt.
    Exit,
    /// A quote is left open.
    Unbalanced,
    /// Run a command.
    Run(Vec<String>),
}

/// Whether a line leaves the prompt.
pub open spec fn is_exit(line: Seq<char>) -> bool {
    line == "exit"@ || line == "quit"@ || line == ":q"@
}

/// Says what becomes of a line without white space at its ends, given its words.
pub fn line_step(line: &str, words: Option<Vec<String>>) -> (r: LineStep)
    ensures
        match r {
            LineStep::Skip => line@.len() == 0,
            LineStep::Exit => line@.len() > 0 && is_exit(line@),
            LineStep::Unbalanced => line@.len() > 0 && !is_exit(line@) && words is None,
            LineStep::Run(w) => line@.len() > 0 && !is_exit(line@) && words == Some(w),
        },
{
    if line.is_empty() {
        return LineStep::Skip;
    }
    if same(line, "exit") || same(line, "quit") || same(line, ":q") {
        return LineStep::Exit;
    }
    match words {
        Some(w) => LineStep::Run(w),
        None => LineStep::Unbalanced,
    }
}

/// Whether a line that was typed is read right.
pub open spec fn line_read(raw: Seq<char>, r: LineStep) -> bool {
    let line = trimmed(raw);
    match r {
        LineStep::Skip => line.len() == 0,
        LineStep::Exit => line.len() > 0 && is_exit(line),
        LineStep::Unbalanced => line.len() > 0 && !is_exit(line) && shell_words(line) is None,
        LineStep::Run(w) => line.len() > 0 && !is_exit(line) && shell_words(line) == Some(
            views(w@),
        ),
    }
}

/// Reads a line of the prompt.
pub fn read_line(raw: &str) -> (r: LineStep)
    ensures
        line_read(raw@, r),
{
    let line = trim(raw);
    let words = split_words(line.as_str());
    line_step(line.as_str(), words)
}

/// What a line with an open quote is answered.
pub fn unbalanced() -> (r: &'static str)
    ensures
        r@ == "parse error (unmatched quotes?)"@,
{
    "parse error (unmatched quotes?)"
}

// ---- what the terminal gives ----

/// What the terminal gives when it is asked for a line.
pub enum Typed {
    Line(String),
    /// Ctrl+C.
    Interrupted,
    /// Ctrl+D, or the end of input.
    End,
    /// It could not be read, in the words of the complaint.
    Failed(String),
}

/// The model of what the terminal gives.
pub enum TypedView {
    Line(Seq<char>),
    Interrupted,
    End,
    Failed(Seq<char>),
}

impl Typed {
    /// What was given over the views of its texts.
    pub open spec fn view(self) -> TypedView {
        match self {
            Typed::Line(s) => TypedView::Line(s@),
            Typed::Interrupted => TypedView::Interrupted,
            Typed::End => TypedView::End,
            Typed::Failed(e) => TypedView::Failed(e@),
        }
    }
}

/// What the prompt does next.
pub enum PromptStep {
    /// Asks again.
    Again,
    /// Says this and asks again.
    Complain(String),
    /// Runs a command, and asks again however that ends.
    Run(Vec<String>),
    /// Is left.
    Leave,
    /// Says this and is left.
    Fail(String),
}

/// The model of what the prompt does next.
pub enum PromptView {
    Again,
    Complain(Seq<char>),
    Run(Seq<Seq<char>>),
    Leave,
    Fail(Seq<char>),
}

impl PromptStep {
    /// The step over the views of its texts.
    pub open spec fn view(self) -> PromptView {
        match self {
            PromptStep::Again => PromptView::Again,
            PromptStep::Complain(s) => PromptView::Complain(s@),
            PromptStep::Run(w) => PromptView::Run(views(w@)),
            PromptStep::Leave => PromptView::Leave,
            PromptStep::Fail(s) => PromptView::Fail(s@),
        }
    }
}

/// What the prompt does with a line.
pub open spec fn line_outcome(raw: Seq<char>) -> PromptView {
    let line = trimmed(raw);
    if line.len() == 0 {
        PromptView::Again
    } else if is_exit(line) {
        PromptView::Leave
    } else {
        match shell_words(line) {
            Some(words) => PromptView::Run(words),
            None => PromptView::Complain("parse error (unmatched quotes?)"@),
        }
    }
}

/// What the prompt does with what the terminal gives. Ctrl+C is ignored; the end
/// of input leaves.
pub open spec fn prompt_outcome(t: TypedView) -> PromptView {
    match t {
        TypedView::Line(raw) => line_outcome(raw),
        TypedView::Interrupted => PromptView::Again,
        TypedView::End => PromptView::Leave,
        TypedView::Failed(e) => PromptView::Fail("readline error: "@ + e),
    }
}

/// Goes on with the prompt.
pub fn prompt_step(t: &Typed) -> (r: PromptStep)
    ensures
        r@ == prompt_outcome(t@),
{
    match t {
        Typed::Line(raw) => match read_line(raw.as_str()) {
            LineStep::Skip => PromptStep::Again,
            LineStep::Exit => PromptStep::Leave,
            LineStep::Unbalanced => PromptStep::Complain(unbalanced().to_owned()),
            LineStep::Run(words) => PromptStep::Run(words),
        },
        Typed::Interrupted => PromptStep::Again,
        Typed::End => PromptStep::Leave,
        Typed::Failed(e) => PromptStep::Fail("readline error: ".to_owned().concat(e.as_str())),
    }
}

/// What is kept of what was typed.
pub open spec fn history_of(t: TypedView) -> Option<Seq<char>> {
    match t {
        TypedView::Line(raw) => if trimmed(raw).len() > 0 {
            Some(trimmed(raw))
        } else {
            None
        },
        _ => None,
    }
}

/// What goes to the history: a line that is not empty, without white space at its
/// ends.
pub fn history_entry(t: &Typed) -> (r: Option<String>)
    ensures
        opt_view(r) == history_of(t@),
{
    match t {
        Typed::Line(raw) => {
            let line = trim(raw.as_str());
            if line.as_str().is_empty() {
                None
            } else {
                Some(line)
            }
        },
        _ => None,
    }
}

/// Whether the prompt is left.
pub open spec fn leaves(t: TypedView) -> bool {
    prompt_outcome(t) is Leave || prompt_outcome(t) is Fail
}

/// The commands that the prompt runs, one after the other, for what the terminal
/// gives.
pub open spec fn session(typed: Seq<TypedView>) -> Seq<Seq<Seq<char>>>
    decreases typed.len(),
{
    if typed.len() == 0 || leaves(typed[0]) {
        Seq::empty()
    } else {
        match prompt_outcome(typed[0]) {
            PromptView::Run(words) => seq![words] + session(typed.drop_first()),
            _ => session(typed.drop_first()),
        }
    }
}

/// Ctrl+C runs no command and does not end the prompt: without it everything
/// goes the same.
pub proof fn interrupts_are_ignored(before: Seq<TypedView>, after: Seq<TypedView>)
    ensures
        session(before.push(TypedView::Interrupted) + after) == session(before + after),
    decreases before.len(),
{
    let with = before.push(TypedView::Interrupted) + after;
    let without = before + after;
    if before.len() == 0 {
        assert(with.drop_first() =~= without);
    } else {
        assert(with.drop_first() =~= before.drop_first().push(TypedView::Interrupted) + after);
        assert(without.drop_first() =~= before.drop_first() + after);
        interrupts_are_ignored(before.drop_first(), after);
    }
}

/// An exit line, the end of input or a failure ends the prompt: what was typed
/// before it is run, and nothing after it.
pub proof fn leaving_ends_the_prompt(
    before: Seq<TypedView>,
    last: TypedView,
    after: Seq<TypedView>,
)
    requires
        leaves(last),
    ensures
        session(before.push(last) + after) == session(before),
    decreases before.len(),
{
    let all = before.push(last) + after;
    if before.len() > 0 {
        assert(all.drop_first() =~= before.drop_first().push(last) + after);
        leaving_ends_the_prompt(before.drop_first(), last, after);
    }
}

/// What leaves the prompt: `exit`, `quit` and `:q` with or without white space
/// around them, the end of input, and a terminal that cannot be read. Nothing
/// else does.
pub proof fn only_these_leave(t: TypedView)
    ensures
        leaves(t) <==> (match t {
            TypedView::Line(raw) => trimmed(raw) == "exit"@ || trimmed(raw) == "quit"@ || trimmed(
                raw,
            ) == ":q"@,
            TypedView::Interrupted => false,
            TypedView::End => true,
            TypedView::Failed(_) => true,
        }),
{
    reveal_strlit("exit");
    reveal_strlit("quit");
    reveal_strlit(":q");
}

// ---- the account of the first run ----

/// The menu of the first run.
pub open spec fn welcome_lines(server_url: Seq<char>) -> Seq<Seq<char>> {
    seq![
        ""@,
        "Welcome to sociacli — you're not signed in yet."@,
        "Server: "@ + server_url,
        "  1) Register a new account"@,
        "  2) Sign in to an existing account"@,
        "  3) Skip for now"@,
    ]
}

/// Prints the menu of the first run.
pub fn welcome(cfg: &Config) -> (r: Vec<String>)
    ensures
        views(r@) == welcome_lines(cfg.server_url@),
{
    let mut out: Vec<String> = Vec::new();
    out.push("".to_owned());
    out.push("Welcome to sociacli — you're not signed in yet.".to_owned());
    out.push("Server: ".to_owned().concat(cfg.server_url.as_str()));
    out.push("  1) Register a new account".to_owned());
    out.push("  2) Sign in to an existing account".to_owned());
    out.push("  3) Skip for now".to_owned());
    assert(views(out@) =~= welcome_lines(cfg.server_url@));
    out
}

/// A choice of the menu.
pub enum Choice {
    Register,
    SignIn,
    Skip,
    /// No choice: say this and ask again.
    Again(String),
}

/// The model of a choice.
pub enum ChoiceView {
    Register,
    SignIn,
    Skip,
    Again(Seq<char>),
}

impl Choice {
    /// The choice over the view of its text.
    pub open spec fn view(self) -> ChoiceView {
        match self {
            Choice::Register => ChoiceView::Register,
            Choice::SignIn => ChoiceView::SignIn,
            Choice::Skip => ChoiceView::Skip,
            Choice::Again(s) => ChoiceView::Again(s@),
        }
    }
}

/// The choice that an answer stands for. An empty answer skips.
pub open spec fn choice_of(answer: Seq<char>) -> ChoiceView {
    if answer == "1"@ || answer == "register"@ || answer == "r"@ {
        ChoiceView::Register
    } else if answer == "2"@ || answer == "login"@ || answer == "l"@ {
        ChoiceView::SignIn
    } else if answer == "3"@ || answer == "skip"@ || answer == "s"@ || answer == ""@ {
        ChoiceView::Skip
    } else {
        ChoiceView::Again("pick 1, 2, or 3 (got `"@ + answer + "`)"@)
    }
}

/// Reads a choice of the menu.
pub fn first_run_auth(answer: &str) -> (r: Choice)
    ensures
        r@ == choice_of(trimmed(answer@)),
{
    let word = trim(answer);
    let a = word.as_str();
    if same(a, "1") || same(a, "register") || same(a, "r") {
        Choice::Register
    } else if same(a, "2") || same(a, "login") || same(a, "l") {
        Choice::SignIn
    } else if same(a, "3") || same(a, "skip") || same(a, "s") || same(a, "") {
        Choice::Skip
    } else {
        Choice::Again("pick 1, 2, or 3 (got `".to_owned().concat(a).concat("`)"))
    }
}

/// What is said to who skips.
pub fn skipped() -> (r: &'static str)
    ensures
        r@ == "ok — run `register <name>` or `login <name>` whenever."@,
{
    "ok — run `register <name>` or `login <name>` whenever."
}

/// The username that an answer is, or the complaint.
pub open spec fn username_of(answer: Seq<char>) -> Result<Seq<char>, Seq<char>> {
    if trimmed(answer).len() > 0 {
        Ok(trimmed(answer))
    } else {
        Err("username can't be empty"@)
    }
}

/// Reads a username; an empty one is asked for again.
pub fn read_username(answer: &str) -> (r: Result<String, &'static str>)
    ensures
        match r {
            Ok(u) => username_of(answer@) == Ok::<Seq<char>, Seq<char>>(u@),
            Err(e) => username_of(answer@) == Err::<Seq<char>, Seq<char>>(e@),
        },
{
    let u = trim(answer);
    if u.as_str().is_empty() {
        Err("username can't be empty")
    } else {
        Ok(u)
    }
}

// ---- the setup of the first run ----

/// What the setup opens with.
pub open spec fn setup_lines(open_combo: Seq<char>, ptt_combo: Seq<char>) -> Seq<Seq<char>> {
    seq![
        ""@,
        "─── First-time setup ──────────────────────────────────"@,
        "Defaults that come with sociacli:"@,
        "  • Open hotkey : "@ + open_combo,
        "  • PTT hotkey  : "@ + ptt_combo + "   (HOLD to talk, release to stop)"@,
        ""@,
        "Press Enter to accept each, or type a new combo (e.g. Ctrl+Alt+KeyT)."@,
    ]
}

/// The combination of the `open` key before the setup.
pub open spec fn open_combo_of(cfg: Config) -> Seq<char> {
    combo_or(text_map(cfg.shortcuts), "open"@, "Ctrl+Alt+Shift+KeyF"@)
}

/// The combination of the push-to-talk key before the setup.
pub open spec fn ptt_combo_of(cfg: Config) -> Seq<char> {
    combo_or(text_map(cfg.shortcuts), "ptt"@, "Ctrl+Alt+Shift+KeyK"@)
}

/// Opens the setup: what to print, and the two questions about keys.
pub fn first_run_wizard(cfg: &Config) -> (r: (Vec<String>, String, String))
    ensures
        views(r.0@) == setup_lines(open_combo_of(*cfg), ptt_combo_of(*cfg)),
        r.1@ == "> open hotkey ["@ + open_combo_of(*cfg) + "]: "@,
        r.2@ == "> PTT hotkey  ["@ + ptt_combo_of(*cfg) + "]: "@,
{
    let open_combo = combo_or_word(cfg, "open", "Ctrl+Alt+Shift+KeyF");
    let ptt_combo = combo_or_word(cfg, "ptt", "Ctrl+Alt+Shift+KeyK");
    let mut out: Vec<String> = Vec::new();
    out.push("".to_owned());
    out.push("─── First-time setup ──────────────────────────────────".to_owned());
    out.push("Defaults that come with sociacli:".to_owned());
    out.push("  • Open hotkey : ".to_owned().concat(open_combo.as_str()));
    out.push(
        "  • PTT hotkey  : ".to_owned().concat(ptt_combo.as_str()).concat(
            "   (HOLD to talk, release to stop)",
        ),
    );
    out.push("".to_owned());
    out.push("Press Enter to accept each, or type a new combo (e.g. Ctrl+Alt+KeyT).".to_owned());
    assert(views(out@) =~= setup_lines(open_combo_of(*cfg), ptt_combo_of(*cfg)));
    (
        out,
        "> open hotkey [".to_owned().concat(open_combo.as_str()).concat("]: "),
        "> PTT hotkey  [".to_owned().concat(ptt_combo.as_str()).concat("]: "),
    )
}

/// Whether the answer to a question about a key is taken right. `valid` is whether
/// the answer is a combination.
pub open spec fn combo_taken(
    before: Config,
    after: Config,
    action: Seq<char>,
    answer: Seq<char>,
    valid: bool,
    said: Option<Seq<char>>,
) -> bool {
    if trimmed(answer).len() == 0 {
        after == before && said is None
    } else if valid {
        &&& after == (Config { shortcuts: after.shortcuts, ..before })
        &&& text_map(after.shortcuts) == text_map(before.shortcuts).insert(action, trimmed(answer))
        &&& said is None
    } else {
        after == before && said == Some("(invalid combo, keeping default)"@)
    }
}

/// Takes the answer to a question about a key: an empty one keeps the key, and so
/// does one that is no combination, which is said. `valid` is whether the answer
/// is a combination.
pub fn take_combo(cfg: &mut Config, action: &str, answer: &str, valid: bool) -> (r: Option<
    &'static str,
>)
    ensures
        combo_taken(*old(cfg), *final(cfg), action@, answer@, valid, opt_str(r)),
{
    let combo = trim(answer);
    if combo.as_str().is_empty() {
        return None;
    }
    if valid {
        let ghost before = text_map(cfg.shortcuts);
        cfg.shortcuts.insert(action.to_owned(), combo);
        assert(text_map(cfg.shortcuts) =~= before.insert(action@, trimmed(answer@)));
        return None;
    }
    Some("(invalid combo, keeping default)")
}

/// Takes the answer to a question about a key, asking `global_hotkey` whether it
/// is a combination.
pub fn answer_combo(cfg: &mut Config, action: &str, answer: &str) -> (r: Option<&'static str>)
    ensures
        combo_taken(
            *old(cfg),
            *final(cfg),
            action@,
            answer@,
            combo_objection(trimmed(answer@)) is None,
            opt_str(r),
        ),
{
    let valid = combo_is_valid(trim(answer).as_str());
    take_combo(cfg, action, answer, valid)
}

/// Whether the answer to the question about the push-to-talk friend is taken right.
pub open spec fn friend_taken(before: Config, after: Config, answer: Seq<char>) -> bool {
    if trimmed(answer).len() == 0 {
        after == before
    } else {
        &&& after == (Config { default_ptt_friend: after.default_ptt_friend, ..before })
        &&& opt_view(after.default_ptt_friend) == Some(trimmed(answer))
    }
}

/// Takes the answer to the question about the push-to-talk friend: an empty one
/// changes nothing.
pub fn answer_friend(cfg: &mut Config, answer: &str)
    ensures
        friend_taken(*old(cfg), *final(cfg), answer@),
{
    let friend = trim(answer);
    if !friend.as_str().is_empty() {
        cfg.default_ptt_friend = Some(friend);
    }
}

/// What the setup closes with.
pub open spec fn setup_done_lines(ptt_combo: Seq<char>, friend: Option<Seq<char>>) -> Seq<
    Seq<char>,
> {
    seq![
        ""@,
        "Done. PTT: HOLD `"@ + ptt_combo + "` to talk"@ + (match friend {
            Some(f) => " with "@ + f,
            None => ""@,
        }) + "."@,
        "Change later with: `shortcut set ptt <combo>` or `ptt-friend <name>`."@,
        "───────────────────────────────────────────────────────"@,
        ""@,
    ]
}

/// Closes the setup, which is not opened again.
pub fn finish_setup(cfg: &mut Config) -> (r: Outcome)
    ensures
        *final(cfg) == (Config { first_run_done: true, ..*old(cfg) }),
        r@ == (OutcomeView {
            save: true,
            lines: setup_done_lines(
                combo_or(text_map(old(cfg).shortcuts), "ptt"@, "?"@),
                opt_view(old(cfg).default_ptt_friend),
            ),
        }),
{
    let combo = combo_or_word(cfg, "ptt", "?");
    let with = match &cfg.default_ptt_friend {
        Some(f) => " with ".to_owned().concat(f.as_str()),
        None => "".to_owned(),
    };
    cfg.first_run_done = true;
    let mut out: Vec<String> = Vec::new();
    out.push("".to_owned());
    out.push(
        "Done. PTT: HOLD `".to_owned().concat(combo.as_str()).concat("` to talk").concat(
            with.as_str(),
        ).concat("."),
    );
    out.push("Change later with: `shortcut set ptt <combo>` or `ptt-friend <name>`.".to_owned());
    out.push("───────────────────────────────────────────────────────".to_owned());
    out.push("".to_owned());
    assert(views(out@) =~= setup_done_lines(
        combo_or(text_map(old(cfg).shortcuts), "ptt"@, "?"@),
        opt_view(old(cfg).default_ptt_friend),
    ));
    Outcome { save: true, lines: out }
}

/// Whether the setup is still to come.
pub open spec fn setup_due(cfg: Config) -> bool {
    cfg.username is Some && !cfg.first_run_done
}

/// Whether the setup is to be opened: for someone who is logged in, once.
pub fn needs_setup(cfg: &Config) -> (r: bool)
    ensures
        r == setup_due(*cfg),
{
    cfg.username.is_some() && !cfg.first_run_done
}

} // verus!
