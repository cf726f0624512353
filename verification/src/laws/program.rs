//! The program around it all: updates, autostart, and the way to the server.
use vstd::prelude::*;

#[allow(unused_imports)]
use crate::address::{
    before_fragment, dialed, form_byte, form_bytes, form_encoded, fragment_of, is_plain_byte,
    is_socket_of,
    origin_of, parsed_url, scheme_in, socket_address, socket_scheme, starts, url_with_scheme,
};
#[allow(unused_imports)]
use crate::config::{opt_view, Config};
#[allow(unused_imports)]
use crate::json::JsonView;
#[allow(unused_imports)]
use crate::service::{
    command_line, exit_words, failure_words, install_plan, plist_text, ran, run_key, status_query, status_words, uninstall_plan,
    unit_text, PlanView, Platform, ServiceStepView,
};
#[allow(unused_imports)]
use crate::signaling::{
    frame_heard, is_too_old, longer, refusal_words, retry_of, FrameStep, Retry, WsFrame,
    FIRST_PAUSE_MS, LONGEST_PAUSE_MS,
};
#[allow(unused_imports)]
use crate::overlay_ipc::OverlayEvent;
#[allow(unused_imports)]
use crate::text::{decimal, found_at, lossy_text, occurs, signed_decimal, trimmed};
#[allow(unused_imports)]
use crate::updater::{
    check_words, done_body, done_reply, done_title, first_newer, is_due, is_newer, look_noted,
    notice, progress_payload, prompt_body, prompt_event, prompt_title, updated_words, version_text,
    Updated, DAY_SECS,
};
#[allow(unused_imports)]
use crate::words::keys_differ;

verus! {

// ---- updates ----

/// Updates are looked for when that is wanted and a day has passed since the last
/// look that succeeded, or there was none.
pub proof fn updates_are_due_after_a_day(cfg: Config, then: u64, now: u64)
    ensures
        !cfg.auto_update_check ==> !is_due(cfg, now),
        cfg.auto_update_check && cfg.last_update_check is None ==> is_due(cfg, now),
        cfg.auto_update_check && cfg.last_update_check == Some(then) ==> (is_due(cfg, now) <==> now
            > then + 86_400),
{
}

/// A release that is newer than this build is found, whichever others stand before
/// it that are not; where none is newer, none is.
pub proof fn the_first_newer_release_is_found(
    current: Seq<char>,
    older: Seq<Seq<char>>,
    v: Seq<char>,
    rest: Seq<Seq<char>>,
)
    requires
        forall|i: int| 0 <= i < older.len() ==> !is_newer(current, #[trigger] older[i]),
        is_newer(current, v),
    ensures
        first_newer(current, older.push(v) + rest) == Some(v),
        first_newer(current, older) is None,
    decreases older.len(),
{
    let all = older.push(v) + rest;
    if older.len() > 0 {
        let tail = older.drop_first();
        assert forall|i: int| 0 <= i < tail.len() implies !is_newer(
            current,
            #[trigger] tail[i],
        ) by {
            assert(tail[i] == older[i + 1]);
        }
        the_first_newer_release_is_found(current, tail, v, rest);
        assert(all.drop_first() =~= tail.push(v) + rest);
        assert(all[0] == older[0]);
        assert(!is_newer(current, older[0]));
    } else {
        assert(all[0] == v);
    }
}

/// A newer release is told of by its version and the one that one has, in a line
/// and on a card; only a card that demands it is mandatory.
pub proof fn newer_releases_are_told_of(v: Seq<char>, mandatory: bool)
    ensures
        notice(v) == "[update] sociacli "@ + v + " available (current "@ + version_text()
            + ") — run `sociacli update`"@,
        prompt_event(mandatory, Some(v)).kind == "update"@,
        prompt_event(mandatory, Some(v)).payload.get("mandatory"@) == Some(
            JsonView::Bool(mandatory),
        ),
        prompt_event(mandatory, Some(v)).payload.text_member("latest"@) == Some(v),
        prompt_event(mandatory, None).payload.get("latest"@) == Some(JsonView::Null),
        prompt_event(mandatory, Some(v)).payload.text_member("current"@) == Some(version_text()),
        prompt_event(true, Some(v)).payload.text_member("title"@) == Some("Update required"@),
        prompt_event(false, Some(v)).payload.text_member("title"@) == Some("Update available"@),
        prompt_event(false, Some(v)).payload.text_member("body"@) == Some(
            "sociacli "@ + v + " is available (you have "@ + version_text() + ")."@,
        ),
        prompt_event(true, Some(v)).payload.text_member("body"@) == Some(
            "sociacli "@ + v + " is required to keep connecting (you have "@ + version_text()
                + ")."@,
        ),
{
    keys_differ();
}

/// How an update went is told as it went, with the version it went to or the
/// reason it failed.
pub proof fn updates_are_told_as_they_went(v: String)
    ensures
        done_title(Updated::To(v)) == "Update complete"@,
        done_title(Updated::Already(v)) == "Already up to date"@,
        done_title(Updated::Failed(v)) == "Update failed"@,
        done_title(Updated::Panicked(v)) == "Update failed"@,
        done_body(Updated::To(v)) == "Updated to "@ + v@ + ". Restart sociacli to apply."@,
        done_body(Updated::Already(v)) == "You're on the latest ("@ + v@ + ")."@,
        done_body(Updated::Failed(v)) == v@,
        done_body(Updated::Panicked(v)) == "update task panicked: "@ + v@,
{
}

/// What the overlay is told while an update goes on carries its state and words.
pub proof fn progress_is_told(status: Seq<char>, title: Seq<char>, body: Seq<char>)
    ensures
        progress_payload(status, title, body).text_member("status"@) == Some(status),
        progress_payload(status, title, body).text_member("title"@) == Some(title),
        progress_payload(status, title, body).text_member("body"@) == Some(body),
        progress_payload(status, title, body).get("mandatory"@) == Some(JsonView::Bool(false)),
{
    keys_differ();
}

// ---- the way to the server ----

/// The pauses between attempts start at half a second, double, and stop growing at
/// half a minute.
pub proof fn pauses_double(pause: int)
    requires
        0 <= pause <= LONGEST_PAUSE_MS,
    ensures
        2 * pause <= 30_000 ==> longer(pause) == 2 * pause,
        2 * pause > 30_000 ==> longer(pause) == 30_000,
        FIRST_PAUSE_MS == 500,
        longer(500) == 1000,
        longer(30_000) == 30_000,
{
}

/// A refusal is told by its number; an inactive server and an old build have words
/// of their own.
pub proof fn refusals_are_told(code: u16)
    ensures
        code == 503 ==> refusal_words(code) == "server is currently inactive (503)"@,
        code == 426 ==> refusal_words(code)
            == "this sociacli build is below the server's minimum version (426) — run `sociacli update`"@,
        code != 503 && code != 426 ==> refusal_words(code)
            == "server rejected the connection (HTTP "@ + decimal(code as nat) + ")"@,
{
}

/// A socket is as safe as its server: `https` has `wss`, and any other has `ws`. An
/// address with `https` is dialed with `wss`, and one with `http` with `ws`,
/// wherever one is logged in.
pub proof fn sockets_are_as_safe_as_their_server(
    server_url: Seq<char>,
    url: Seq<char>,
    token: Seq<char>,
    version: Seq<char>,
    r: Result<String, String>,
)
    requires
        parsed_url(server_url) == Ok::<Seq<char>, Seq<char>>(url),
        is_socket_of(server_url, Some(token), version, r),
    ensures
        socket_scheme("https"@) == "wss"@,
        scheme_in(url) != "https"@ ==> socket_scheme(scheme_in(url)) == "ws"@,
        scheme_in(url) == "https"@ ==> r is Ok && starts(r->Ok_0@, "wss"@ + "://"@),
        scheme_in(url) == "http"@ ==> r is Ok && starts(r->Ok_0@, "ws"@ + "://"@),
{
    reveal_strlit("https");
    reveal_strlit("http");
    assert("https"@.len() == 5 && "http"@.len() == 4);
}

/// The address to dial is that of the server, with the path of the socket, one's
/// token and one's version, and nothing else of the old path or query. Without a
/// token there is none, and why is said; nor is there one without an address.
pub proof fn sockets_are_dialed_with_the_token(
    server_url: Seq<char>,
    url: Seq<char>,
    socket: Seq<char>,
    token: Seq<char>,
    version: Seq<char>,
)
    requires
        parsed_url(server_url) == Ok::<Seq<char>, Seq<char>>(url),
        url_with_scheme(url, socket_scheme(scheme_in(url))) == Some(socket),
    ensures
        socket_address(server_url, Some(token), version) == Ok::<Seq<char>, Seq<char>>(
            origin_of(socket) + "/ws?token="@ + form_encoded(token) + "&version="@ + form_encoded(
                version,
            ) + fragment_of(socket),
        ),
        socket_address(server_url, None, version) == Err::<Seq<char>, Seq<char>>(
            "not logged in — run `sociacli login`"@,
        ),
{
}

/// Escaping keeps letters, digits and `*-._`, turns a space into `+`, and writes
/// every other byte as `%` and two hexadecimal digits.
pub proof fn escaping_is_that_of_forms(b: u8)
    ensures
        (48 <= b <= 57 || 65 <= b <= 90 || 97 <= b <= 122) ==> form_byte(b) == seq![b as char],
        form_byte(32) == seq!['+'],
        form_byte(38) == seq!['%', '2', '6'],
        form_byte(35) == seq!['%', '2', '3'],
        form_byte(0xc3) == seq!['%', 'C', '3'],
        b >= 128 ==> form_byte(b).len() == 3 && form_byte(b)[0] == '%',
{
}

// ---- autostart ----

/// Setting autostart up on Linux writes a unit that runs this program as the
/// daemon, and enables it; on a Mac it writes an agent that does, and loads it; on
/// Windows it registers the launcher, or the program as the daemon. The step that
/// makes it take effect must not fail.
pub proof fn autostart_runs_the_daemon(
    exe: Seq<char>,
    entry: Seq<char>,
    launcher: Seq<char>,
    platform: Platform,
)
    ensures
        ({
            let p = install_plan(Platform::Linux, exe, entry, None);
            &&& p is Ok
            &&& p->Ok_0.steps[0] is Write
            &&& p->Ok_0.steps[0]->Write_path == entry
            &&& occurs(p->Ok_0.steps[0]->body, "ExecStart="@ + exe + " listen"@)
            &&& p->Ok_0.steps[2] == (ServiceStepView::Run {
                program: "systemctl"@,
                args: seq!["--user"@, "enable"@, "--now"@, "sociacli"@],
                needed: true,
            })
            &&& p->Ok_0.steps.len() == 3
        }),
        ({
            let p = install_plan(Platform::MacOs, exe, entry, None);
            &&& p is Ok
            &&& p->Ok_0.steps[0] is Write
            &&& p->Ok_0.steps[0]->Write_path == entry
            &&& occurs(p->Ok_0.steps[0]->body, "<string>"@ + exe + "</string>"@)
            &&& p->Ok_0.steps[2] == (ServiceStepView::Run {
                program: "launchctl"@,
                args: seq!["load"@, "-w"@, entry],
                needed: true,
            })
        }),
        ({
            let p = install_plan(Platform::Windows, exe, entry, None);
            &&& p is Ok
            &&& p->Ok_0.steps.len() == 1
            &&& p->Ok_0.steps[0] is Run && p->Ok_0.steps[0]->needed
            &&& p->Ok_0.steps[0]->args[0] == "add"@
            &&& p->Ok_0.steps[0]->args[7] == "\""@ + exe + "\" listen"@
        }),
        ({
            let p = install_plan(Platform::Windows, exe, entry, Some(launcher));
            &&& p is Ok
            &&& p->Ok_0.steps[0]->args[7] == "\""@ + launcher + "\""@
        }),
        install_plan(Platform::Other, exe, entry, None) is Err,
{
    let unit_head =
        "[Unit]\nDescription=sociacli notification + P2P daemon\nAfter=network.target\n\n[Service]\nExecStart="@;
    let unit_tail =
        " listen\nRestart=on-failure\nRestartSec=3\n\n[Install]\nWantedBy=default.target\n"@;
    reveal_strlit(
        "[Unit]\nDescription=sociacli notification + P2P daemon\nAfter=network.target\n\n[Service]\nExecStart=",
    );
    reveal_strlit(
        " listen\nRestart=on-failure\nRestartSec=3\n\n[Install]\nWantedBy=default.target\n",
    );
    reveal_strlit("ExecStart=");
    reveal_strlit(" listen");
    let unit = unit_text(exe);
    let at = unit_head.len() - 10;
    let piece = "ExecStart="@ + exe + " listen"@;
    assert(unit.subrange(at, at + piece.len()) =~= piece);
    assert(found_at(unit, piece, at));
    let plist_head =
        "<?xml version=\"1.0\" encoding=\"UTF-8\"?>\n<!DOCTYPE plist PUBLIC \"-//Apple//DTD PLIST 1.0//EN\" \"http://www.apple.com/DTDs/PropertyList-1.0.dtd\">\n<plist version=\"1.0\">\n<dict>\n  <key>Label</key><string>dev.sociacli.daemon</string>\n  <key>ProgramArguments</key>\n  <array>\n    <string>"@;
    reveal_strlit(
        "<?xml version=\"1.0\" encoding=\"UTF-8\"?>\n<!DOCTYPE plist PUBLIC \"-//Apple//DTD PLIST 1.0//EN\" \"http://www.apple.com/DTDs/PropertyList-1.0.dtd\">\n<plist version=\"1.0\">\n<dict>\n  <key>Label</key><string>dev.sociacli.daemon</string>\n  <key>ProgramArguments</key>\n  <array>\n    <string>",
    );
    reveal_strlit(
        "</string>\n    <string>listen</string>\n  </array>\n  <key>RunAtLoad</key><true/>\n  <key>KeepAlive</key><true/>\n  <key>StandardOutPath</key><string>/tmp/sociacli.out.log</string>\n  <key>StandardErrorPath</key><string>/tmp/sociacli.err.log</string>\n</dict>\n</plist>\n",
    );
    reveal_strlit("<string>");
    reveal_strlit("</string>");
    let plist = plist_text(exe);
    let from = plist_head.len() - 8;
    let part = "<string>"@ + exe + "</string>"@;
    assert(plist.subrange(from, from + part.len()) =~= part);
    assert(found_at(plist, part, from));
}

/// Taking autostart down undoes it: Linux disables the unit and removes its file, a
/// Mac unloads the agent and removes it, and Windows deletes the very value that
/// was registered. None of these steps has to succeed.
pub proof fn autostart_is_taken_down(exe: Seq<char>, entry: Seq<char>)
    ensures
        ({
            let up = install_plan(Platform::Windows, exe, entry, None)->Ok_0.steps[0]->args;
            let down = uninstall_plan(Platform::Windows, Some(entry));
            &&& down is Ok && down->Ok_0.steps.len() == 1
            &&& down->Ok_0.steps[0] is Run && !down->Ok_0.steps[0]->needed
            &&& down->Ok_0.steps[0]->args[0] == "delete"@
            &&& down->Ok_0.steps[0]->args[1] == up[1]
            &&& down->Ok_0.steps[0]->args[2] == up[2]
            &&& down->Ok_0.steps[0]->args[3] == up[3]
        }),
        ({
            let down = uninstall_plan(Platform::Linux, Some(entry));
            &&& down is Ok
            &&& down->Ok_0.steps[0] == (ServiceStepView::Run {
                program: "systemctl"@,
                args: seq!["--user"@, "disable"@, "--now"@, "sociacli"@],
                needed: false,
            })
            &&& down->Ok_0.steps[1] == (ServiceStepView::Remove { path: entry })
        }),
        ({
            let down = uninstall_plan(Platform::MacOs, Some(entry));
            &&& down is Ok
            &&& down->Ok_0.steps[0] == (ServiceStepView::Run {
                program: "launchctl"@,
                args: seq!["unload"@, entry],
                needed: false,
            })
            &&& down->Ok_0.steps[1] == (ServiceStepView::Remove { path: entry })
        }),
        uninstall_plan(Platform::Other, Some(entry)) is Err,
{
}

/// The state of autostart is asked for under the name it was set up with, and told
/// as it is answered; without an answer it is said that there is none.
pub proof fn autostart_is_told_as_it_is(stdout: Seq<char>, success: bool)
    ensures
        status_query(Platform::Windows) is Some,
        status_query(Platform::Windows)->0->args == seq![
            "query"@,
            "HKCU\\Software\\Microsoft\\Windows\\CurrentVersion\\Run"@,
            "/v"@,
            "sociacli"@,
        ],
        status_query(Platform::Linux)->0->args == seq!["--user"@, "is-enabled"@, "sociacli"@],
        status_query(Platform::MacOs)->0->args == seq!["list"@, "dev.sociacli.daemon"@],
        status_query(Platform::Other) is None,
        status_words(Platform::Windows, true, stdout) == trimmed(stdout),
        status_words(Platform::MacOs, true, stdout) == trimmed(stdout),
        status_words(Platform::Windows, false, stdout)
            == "not registered (run `sociacli service install`)"@,
        status_words(Platform::MacOs, false, stdout)
            == "not loaded (run `sociacli service install`)"@,
        trimmed(stdout).len() > 0 ==> status_words(Platform::Linux, success, stdout) == trimmed(
            stdout,
        ),
        trimmed(stdout).len() == 0 ==> status_words(Platform::Linux, success, stdout)
            == "not installed"@,
        exit_words(None) == "None"@,
{
}

// ---- looking, updating, connecting ----

/// A look that went well is noted with its time, whether it found anything or not,
/// and one that failed is not; only a release that was found is told of, with its
/// version.
pub proof fn looks_are_noted_where_they_succeed(
    before: Config,
    after: Config,
    now: u64,
    found: Result<Option<String>, String>,
    r: Option<(String, OverlayEvent)>,
)
    requires
        look_noted(before, after, now, found, r),
    ensures
        found is Ok ==> after == (Config { last_update_check: Some(now), ..before }),
        found is Err ==> after == before,
        r is Some <==> found is Ok && found->Ok_0 is Some,
        r is Some ==> (r->0).0@ == notice(found->Ok_0->0@) && (r->0).1@ == prompt_event(
            false,
            Some(found->Ok_0->0@),
        ),
{
}

/// A check tells the version that is there to have, or that there is none, and the
/// one that one has.
pub proof fn checks_tell_both_versions(v: Seq<char>)
    ensures
        check_words(Some(v)) == "update available: "@ + v + " (current "@ + version_text() + ")"@,
        check_words(None) == "up to date ("@ + version_text() + ")"@,
{
}

/// An update is told as done only where it was, with the version; who asked for it
/// is told whether it went well, and what came of it.
pub proof fn updates_are_done_or_not(v: String)
    ensures
        updated_words(Updated::To(v)) == Some(
            "updated to "@ + v@ + ". Restart sociacli to use the new binary."@,
        ),
        updated_words(Updated::Already(v)) == Some("already on latest ("@ + v@ + ")"@),
        updated_words(Updated::Failed(v)) is None,
        updated_words(Updated::Panicked(v)) is None,
        done_reply(Updated::To(v)).get("ok"@) == Some(JsonView::Bool(true)),
        done_reply(Updated::Already(v)).get("ok"@) == Some(JsonView::Bool(true)),
        done_reply(Updated::Failed(v)).get("ok"@) == Some(JsonView::Bool(false)),
        done_reply(Updated::Panicked(v)).get("ok"@) == Some(JsonView::Bool(false)),
        done_reply(Updated::To(v)).text_member("body"@) == Some(
            "Updated to "@ + v@ + ". Restart sociacli to apply."@,
        ),
        done_reply(Updated::Already(v)).text_member("body"@) == Some(
            "You're on the latest ("@ + v@ + ")."@,
        ),
        done_reply(Updated::Failed(v)).text_member("body"@) == Some(v@),
        done_reply(Updated::Panicked(v)).text_member("body"@) == Some(
            "update task panicked: "@ + v@,
        ),
{
    keys_differ();
}

/// A failure to connect is tried again after the pause, the next pause being twice
/// as long and half a minute at most; only a build that is too old gives up.
pub proof fn failures_are_tried_again(error: Seq<char>, pause: u64, at: int)
    requires
        pause <= 30_000,
    ensures
        found_at(error, "(426)"@, at) ==> retry_of(error, pause) is NeedsUpdate,
        (forall|i: int| !#[trigger] found_at(error, "(426)"@, i)) ==> {
            &&& retry_of(error, pause) is After
            &&& retry_of(error, pause)->pause == pause
            &&& 2 * pause <= 30_000 ==> retry_of(error, pause)->next == 2 * pause
            &&& 2 * pause > 30_000 ==> retry_of(error, pause)->next == 30_000
        },
{
}

/// What the server writes is read as it is, a binary frame as the text it holds;
/// the rest is skipped, until it closes.
pub proof fn frames_are_read(f: WsFrame, r: FrameStep)
    requires
        frame_heard(f, r),
    ensures
        f matches WsFrame::Text(s) ==> r is Read && r->Read_0@ == s@,
        f matches WsFrame::Binary(b) ==> r is Read && r->Read_0@ == lossy_text(b@),
        f is Control ==> r is Skip,
        f is Close ==> r is Close,
{
}

/// Windows starts the launcher where there is one and the daemon itself otherwise,
/// quoted; and a step that failed is named, with how.
pub proof fn failed_steps_are_named(
    exe: Seq<char>,
    launcher: Seq<char>,
    code: i32,
    stderr: Seq<char>,
)
    ensures
        command_line(exe, Some(launcher)) == "\""@ + launcher + "\""@,
        command_line(exe, None) == "\""@ + exe + "\" listen"@,
        failure_words(Platform::Windows, Some(code), stderr) == "reg add failed: "@ + trimmed(
            stderr,
        ),
        failure_words(Platform::Linux, Some(code), stderr)
            == "systemctl --user enable --now sociacli failed (exit "@ + ("Some("@
            + signed_decimal(code as int) + ")"@) + ")"@,
        failure_words(Platform::MacOs, Some(code), stderr) == "launchctl load failed (exit "@ + (
        "Some("@ + signed_decimal(code as int) + ")"@) + ")"@,
        failure_words(Platform::Linux, None, stderr)
            == "systemctl --user enable --now sociacli failed (exit "@ + "None"@ + ")"@,
        failure_words(Platform::Other, None, stderr)
            == "autostart not implemented on this platform"@,
{
}

} // verus!
