//! Releases: which one is newer, when to look, and what to say of it.
use vstd::prelude::*;

use crate::config::Config;
#[allow(unused_imports)]
use crate::config::opt_view;
use crate::json::{Fields, Json};
#[allow(unused_imports)]
use crate::json::JsonView;
use crate::overlay_ipc::OverlayEvent;
#[allow(unused_imports)]
use crate::overlay_ipc::EventView;
#[allow(unused_imports)]
use crate::text::views;

verus! {

/// The version of this build.
pub open spec fn version_text() -> Seq<char> {
    "0.1.7"@
}

/// The version of this build.
pub fn current_version() -> (r: &'static str)
    ensures
        r@ == version_text(),
{
    "0.1.7"
}

/// Where the releases are: the owner of the repository, its name, and the name of
/// the program.
pub const REPO_OWNER: &'static str = "MrTigerST";

/// The name of the repository.
pub const REPO_NAME: &'static str = "sociacli";

/// The name of the program.
pub const BIN_NAME: &'static str = "sociacli";

// ---- which release is newer ----

/// Whether `self_update` takes a version for newer than another.
pub uninterp spec fn is_newer(current: Seq<char>, other: Seq<char>) -> bool;

/// `self_update::version::bump_is_greater`; what is no version is not newer. No
/// version is newer than itself.
#[verifier::external_body]
fn newer(current: &str, other: &str) -> (r: bool)
    ensures
        r == is_newer(current@, other@),
        current@ == other@ ==> !r,
{
    self_update::version::bump_is_greater(current, other).unwrap_or(false)
}

/// The first release that is newer than a version.
pub open spec fn first_newer(current: Seq<char>, releases: Seq<Seq<char>>) -> Option<Seq<char>>
    decreases releases.len(),
{
    if releases.len() == 0 {
        None
    } else if is_newer(current, releases[0]) {
        Some(releases[0])
    } else {
        first_newer(current, releases.drop_first())
    }
}

/// The first release that is newer than this build.
pub fn latest_if_newer(releases: &Vec<String>) -> (r: Option<String>)
    ensures
        opt_view(r) == first_newer(version_text(), views(releases@)),
        r matches Some(v) ==> v@ != version_text(),
{
    let current = current_version();
    let mut i: usize = 0;
    assert(views(releases@).skip(0) =~= views(releases@));
    while i < releases.len()
        invariant
            i <= releases.len(),
            current@ == version_text(),
            first_newer(version_text(), views(releases@)) == first_newer(
                version_text(),
                views(releases@).skip(i as int),
            ),
        decreases releases.len() - i,
    {
        assert(views(releases@).skip(i as int)[0] == releases@[i as int]@);
        if newer(current, releases[i].as_str()) {
            return Some(releases[i].clone());
        }
        assert(views(releases@).skip(i as int).drop_first() =~= views(releases@).skip(i + 1));
        i += 1;
    }
    None
}

/// A release that is found is one of the list, and it is newer; where none is
/// found, none is.
pub proof fn found_releases_are_newer(current: Seq<char>, releases: Seq<Seq<char>>)
    ensures
        first_newer(current, releases) matches Some(v) ==> releases.contains(v) && is_newer(
            current,
            v,
        ),
        first_newer(current, releases) is None ==> forall|i: int|
            0 <= i < releases.len() ==> !is_newer(current, #[trigger] releases[i]),
    decreases releases.len(),
{
    if releases.len() > 0 {
        let rest = releases.drop_first();
        found_releases_are_newer(current, rest);
        assert(releases[0] == releases.first());
        if !is_newer(current, releases[0]) {
            if first_newer(current, rest) is Some {
                let v = first_newer(current, rest)->0;
                let i = choose|i: int| 0 <= i < rest.len() && rest[i] == v;
                assert(releases[i + 1] == v);
            } else {
                assert forall|i: int| 0 <= i < releases.len() implies !is_newer(
                    current,
                    #[trigger] releases[i],
                ) by {
                    if i > 0 {
                        assert(releases[i] == rest[i - 1]);
                    }
                }
            }
        }
    }
}

// ---- when to look ----

/// How long a look for updates is good for: a day, in seconds.
pub const DAY_SECS: u64 = 86_400;

/// Whether it is time to look for updates: it is wanted, and the last look was
/// more than a day ago. A clock that went backwards does not make it time.
pub open spec fn is_due(cfg: Config, now: u64) -> bool {
    cfg.auto_update_check && (match cfg.last_update_check {
        Some(t) => now - t > DAY_SECS,
        None => true,
    })
}

/// Says whether it is time to look for updates.
pub fn update_check_due(cfg: &Config, now: u64) -> (r: bool)
    ensures
        r == is_due(*cfg, now),
{
    cfg.auto_update_check && match cfg.last_update_check {
        Some(t) => now > t && now - t > DAY_SECS,
        None => true,
    }
}

/// Whether a look for releases is noted and told right.
pub open spec fn look_noted(
    before: Config,
    after: Config,
    now: u64,
    found: Result<Option<String>, String>,
    r: Option<(String, OverlayEvent)>,
) -> bool {
    &&& after == (match found {
        Ok(_) => Config { last_update_check: Some(now), ..before },
        Err(_) => before,
    })
    &&& match found {
        Ok(Some(v)) => r matches Some((line, card)) && line@ == notice(v@) && card@
            == prompt_event(false, Some(v@)),
        _ => r is None,
    }
}

/// Deals with what a look for updates came to: a newer release, none, or the
/// words of its failure. A newer release is worth a line and a card. Only a look
/// that succeeded counts as one.
pub fn update_looked(
    cfg: &mut Config,
    now: u64,
    found: &Result<Option<String>, String>,
) -> (r: Option<(String, OverlayEvent)>)
    ensures
        look_noted(*old(cfg), *final(cfg), now, *found, r),
        found is Ok ==> !is_due(*final(cfg), now),
{
    match found {
        Ok(latest) => {
            cfg.last_update_check = Some(now);
            match latest {
                Some(v) => Some((notice_line(v.as_str()), update_prompt(false, latest))),
                None => None,
            }
        },
        Err(_) => None,
    }
}

/// Within a day of a look that succeeded there is no other.
pub proof fn at_most_one_look_a_day(cfg: Config, then: u64, now: u64)
    requires
        now <= then + DAY_SECS,
        cfg.last_update_check == Some(then),
    ensures
        !is_due(cfg, now),
{
}

// ---- what to say ----

/// The line that tells of a newer release.
pub open spec fn notice(version: Seq<char>) -> Seq<char> {
    "[update] sociacli "@ + version + " available (current "@ + version_text()
        + ") — run `sociacli update`"@
}

/// Tells of a newer release.
pub fn notice_line(version: &str) -> (r: String)
    ensures
        r@ == notice(version@),
{
    "[update] sociacli ".to_owned().concat(version).concat(" available (current ").concat(
        current_version(),
    ).concat(") — run `sociacli update`")
}

/// What a check for updates comes to, in words.
pub open spec fn check_words(latest: Option<Seq<char>>) -> Seq<char> {
    match latest {
        Some(v) => "update available: "@ + v + " (current "@ + version_text() + ")"@,
        None => "up to date ("@ + version_text() + ")"@,
    }
}

/// What `update --check` prints.
pub fn check_line(latest: &Option<String>) -> (r: String)
    ensures
        r@ == check_words(opt_view(*latest)),
{
    match latest {
        Some(v) => "update available: ".to_owned().concat(v.as_str()).concat(" (current ").concat(
            current_version(),
        ).concat(")"),
        None => "up to date (".to_owned().concat(current_version()).concat(")"),
    }
}

/// What an update came to.
pub enum Updated {
    /// The program was replaced by this version.
    To(String),
    /// This version was the latest already.
    Already(String),
    /// It failed.
    Failed(String),
    /// It broke off.
    Panicked(String),
}

/// What an update that did not fail came to, in words.
pub open spec fn updated_words(u: Updated) -> Option<Seq<char>> {
    match u {
        Updated::To(v) => Some(
            "updated to "@ + v@ + ". Restart sociacli to use the new binary."@,
        ),
        Updated::Already(v) => Some("already on latest ("@ + v@ + ")"@),
        _ => None,
    }
}

/// What `update` prints when it did not fail.
pub fn updated_line(u: &Updated) -> (r: Option<String>)
    ensures
        opt_view(r) == updated_words(*u),
{
    match u {
        Updated::To(v) => Some(
            "updated to ".to_owned().concat(v.as_str()).concat(
                ". Restart sociacli to use the new binary.",
            ),
        ),
        Updated::Already(v) => Some(
            "already on latest (".to_owned().concat(v.as_str()).concat(")"),
        ),
        _ => None,
    }
}

/// The title of an update card.
pub open spec fn prompt_title(mandatory: bool) -> Seq<char> {
    if mandatory {
        "Update required"@
    } else {
        "Update available"@
    }
}

/// The text of an update card.
pub open spec fn prompt_body(mandatory: bool, latest: Option<Seq<char>>) -> Seq<char> {
    match latest {
        Some(v) => if mandatory {
            "sociacli "@ + v + " is required to keep connecting (you have "@ + version_text()
                + ")."@
        } else {
            "sociacli "@ + v + " is available (you have "@ + version_text() + ")."@
        },
        None => if mandatory {
            "A newer sociacli is required to keep connecting (you have "@ + version_text() + ")."@
        } else {
            "A sociacli update is available (you have "@ + version_text() + ")."@
        },
    }
}

/// The card that offers an update, or demands it.
pub open spec fn prompt_event(mandatory: bool, latest: Option<Seq<char>>) -> EventView {
    EventView {
        kind: "update"@,
        payload: JsonView::Obj(
            map![
                "mandatory"@ => JsonView::Bool(mandatory),
                "current"@ => JsonView::Str(version_text()),
                "latest"@ => match latest {
                    Some(v) => JsonView::Str(v),
                    None => JsonView::Null,
                },
                "title"@ => JsonView::Str(prompt_title(mandatory)),
                "body"@ => JsonView::Str(prompt_body(mandatory, latest)),
            ],
        ),
    }
}

/// Makes the card that offers an update, or demands it.
pub fn update_prompt(mandatory: bool, latest: &Option<String>) -> (r: OverlayEvent)
    ensures
        r@ == prompt_event(mandatory, opt_view(*latest)),
{
    let current = current_version();
    let title = if mandatory {
        "Update required"
    } else {
        "Update available"
    };
    let body = match latest {
        Some(v) => if mandatory {
            "sociacli ".to_owned().concat(v.as_str()).concat(
                " is required to keep connecting (you have ",
            ).concat(current).concat(").")
        } else {
            "sociacli ".to_owned().concat(v.as_str()).concat(" is available (you have ").concat(
                current,
            ).concat(").")
        },
        None => if mandatory {
            "A newer sociacli is required to keep connecting (you have ".to_owned().concat(
                current,
            ).concat(").")
        } else {
            "A sociacli update is available (you have ".to_owned().concat(current).concat(").")
        },
    };
    OverlayEvent::new(
        "update",
        Fields::new().with_bool("mandatory", mandatory).with_text("current", current).with(
            "latest",
            Json::text_or_null(latest),
        ).with_text("title", title).with_text("body", body.as_str()).done(),
    )
}

/// What the overlay is told while an update goes on.
pub open spec fn progress_payload(
    status: Seq<char>,
    title: Seq<char>,
    body: Seq<char>,
) -> JsonView {
    JsonView::Obj(
        map![
            "mandatory"@ => JsonView::Bool(false),
            "status"@ => JsonView::Str(status),
            "title"@ => JsonView::Str(title),
            "body"@ => JsonView::Str(body),
        ],
    )
}

/// Makes a card about an update that goes on.
fn progress(status: &str, title: &str, body: &str) -> (r: OverlayEvent)
    ensures
        r@ == (EventView {
            kind: "update"@,
            payload: progress_payload(status@, title@, body@),
        }),
{
    OverlayEvent::new(
        "update",
        Fields::new().with_bool("mandatory", false).with_text("status", status).with_text(
            "title",
            title,
        ).with_text("body", body).done(),
    )
}

/// The card at the start of an update.
pub fn update_started() -> (r: OverlayEvent)
    ensures
        r@ == (EventView {
            kind: "update"@,
            payload: progress_payload(
                "updating"@,
                "Updating…"@,
                "Downloading the latest sociacli…"@,
            ),
        }),
{
    progress("updating", "Updating…", "Downloading the latest sociacli…")
}

/// The title of the card at the end of an update.
pub open spec fn done_title(u: Updated) -> Seq<char> {
    match u {
        Updated::To(_) => "Update complete"@,
        Updated::Already(_) => "Already up to date"@,
        Updated::Failed(_) => "Update failed"@,
        Updated::Panicked(_) => "Update failed"@,
    }
}

/// The text of the card at the end of an update.
pub open spec fn done_body(u: Updated) -> Seq<char> {
    match u {
        Updated::To(v) => "Updated to "@ + v@ + ". Restart sociacli to apply."@,
        Updated::Already(v) => "You're on the latest ("@ + v@ + ")."@,
        Updated::Failed(e) => e@,
        Updated::Panicked(e) => "update task panicked: "@ + e@,
    }
}

/// The reply to who asked for an update.
pub open spec fn done_reply(u: Updated) -> JsonView {
    JsonView::Obj(
        map![
            "ok"@ => JsonView::Bool(u is To || u is Already),
            "body"@ => JsonView::Str(done_body(u)),
        ],
    )
}

/// The card at the end of an update, and the reply to who asked for it.
pub fn update_done(u: &Updated) -> (r: (OverlayEvent, Json))
    ensures
        r.0@ == (EventView {
            kind: "update"@,
            payload: progress_payload("done"@, done_title(*u), done_body(*u)),
        }),
        r.1@ == done_reply(*u),
{
    let (title, body, ok) = match u {
        Updated::To(v) => (
            "Update complete",
            "Updated to ".to_owned().concat(v.as_str()).concat(". Restart sociacli to apply."),
            true,
        ),
        Updated::Already(v) => (
            "Already up to date",
            "You're on the latest (".to_owned().concat(v.as_str()).concat(")."),
            true,
        ),
        Updated::Failed(e) => ("Update failed", e.clone(), false),
        Updated::Panicked(e) => (
            "Update failed",
            "update task panicked: ".to_owned().concat(e.as_str()),
            false,
        ),
    };
    (
        progress("done", title, body.as_str()),
        Fields::new().with_bool("ok", ok).with_text("body", body.as_str()).done(),
    )
}

} // verus!
