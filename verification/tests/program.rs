use sociacli::api::{auth_body, auth_refusal, auth_url, AuthKind};
use sociacli::config::Config;
use sociacli::protocol::ClientMsg;
use sociacli::repl::{
    answer_combo, answer_friend, background_disabled, banner, finish_setup, first_run_auth,
    first_run_wizard, history_entry, line_step, needs_setup, prompt, prompt_step, read_line,
    read_username, skipped, unbalanced, welcome, Choice, LineStep, PromptStep, Typed,
};
use sociacli::service::{
    autostart_command, install, install_failure, status, status_step, uninstall, Plan, Platform,
    ServiceStep,
};
use sociacli::signaling::{
    connect_failed, on_frame, refusal, send, FrameStep, Retry, WsFrame, FIRST_PAUSE_MS,
    LONGEST_PAUSE_MS,
};
use sociacli::updater::{
    check_line, latest_if_newer, notice_line, update_check_due, update_done, update_looked,
    update_prompt, update_started, updated_line, Updated,
};

// ---- accounts ----

#[test]
fn accounts_are_asked_for_over_http() {
    assert_eq!(auth_url("https://s//", AuthKind::Register), "https://s/register");
    assert_eq!(auth_url("https://s", AuthKind::Login), "https://s/login");
    assert_eq!(auth_body("bob", "pw").to_text(), r#"{"password":"pw","username":"bob"}"#);
    assert_eq!(
        auth_refusal(AuthKind::Login, "401 Unauthorized", "no"),
        "/login -> 401 Unauthorized: no"
    );
}

// ---- the connection ----

#[test]
fn refusals_are_put_in_words() {
    assert_eq!(refusal(503), "server is currently inactive (503)");
    assert_eq!(
        refusal(426),
        "this sociacli build is below the server's minimum version (426) — run `sociacli update`"
    );
    assert_eq!(refusal(401), "server rejected the connection (HTTP 401)");
}

#[test]
fn pauses_double_up_to_half_a_minute() {
    let mut pause = FIRST_PAUSE_MS;
    let mut seen = vec![];
    for _ in 0..8 {
        match connect_failed(&refusal(503), pause) {
            Retry::After { pause: p, next } => {
                seen.push(p);
                pause = next;
            }
            Retry::NeedsUpdate => panic!("gave up"),
        }
    }
    assert_eq!(seen, vec![500, 1000, 2000, 4000, 8000, 16000, 30000, 30000]);
    assert_eq!(connect_failed(&refusal(426), LONGEST_PAUSE_MS), Retry::NeedsUpdate);
}

#[test]
fn frames_are_text_as_far_as_they_can() {
    assert!(matches!(on_frame(WsFrame::Text("x".to_string())), FrameStep::Read(t) if t == "x"));
    assert!(matches!(
        on_frame(WsFrame::Binary(vec![0x68, 0xff])),
        FrameStep::Read(t) if t == "h\u{fffd}"
    ));
    assert!(matches!(on_frame(WsFrame::Control), FrameStep::Skip));
    assert!(matches!(on_frame(WsFrame::Close), FrameStep::Close));
    assert_eq!(send(&ClientMsg::FriendList), r#"{"t":"friend_list"}"#);
}

// ---- releases ----

fn releases(v: &[&str]) -> Vec<String> {
    v.iter().map(|s| s.to_string()).collect()
}

#[test]
fn the_first_newer_release_is_found() {
    assert_eq!(latest_if_newer(&releases(&["0.1.7", "0.1.6"])), None);
    assert_eq!(latest_if_newer(&releases(&["latest", "0.2.0", "0.3.0"])), Some("0.2.0".to_string()));
    assert_eq!(latest_if_newer(&releases(&[])), None);
    assert_eq!(latest_if_newer(&releases(&["0.1.10"])), Some("0.1.10".to_string()));
}

#[test]
fn updates_are_looked_for_once_a_day() {
    let mut c = Config::fresh();
    c.auto_update_check = true;
    assert!(update_check_due(&c, 0));
    assert!(update_looked(&mut c, 900_000, &Err("no network".to_string())).is_none());
    assert_eq!(c.last_update_check, None);
    assert!(update_looked(&mut c, 1_000_000, &Ok(None)).is_none());
    assert_eq!(c.last_update_check, Some(1_000_000));
    assert!(update_looked(&mut c, 1_500_000, &Err("no network".to_string())).is_none());
    assert_eq!(c.last_update_check, Some(1_000_000));
    assert!(!update_check_due(&c, 1_000_000));
    assert!(!update_check_due(&c, 1_086_400));
    assert!(update_check_due(&c, 1_086_401));
    assert!(!update_check_due(&c, 5));
    c.auto_update_check = false;
    assert!(!update_check_due(&c, 2_000_000));
    let (line, card) = update_looked(&mut c, 7, &Ok(Some("0.2.0".to_string()))).unwrap();
    assert_eq!(line, notice_line("0.2.0"));
    assert_eq!(card.text(), update_prompt(false, &Some("0.2.0".to_string())).text());
    assert_eq!(c.last_update_check, Some(7));
}

#[test]
fn updates_are_announced() {
    assert_eq!(
        notice_line("0.2.0"),
        "[update] sociacli 0.2.0 available (current 0.1.7) — run `sociacli update`"
    );
    assert_eq!(check_line(&None), "up to date (0.1.7)");
    assert_eq!(
        check_line(&Some("0.2.0".to_string())),
        "update available: 0.2.0 (current 0.1.7)"
    );
    assert_eq!(
        updated_line(&Updated::To("0.2.0".to_string())).unwrap(),
        "updated to 0.2.0. Restart sociacli to use the new binary."
    );
    assert_eq!(
        updated_line(&Updated::Already("0.1.7".to_string())).unwrap(),
        "already on latest (0.1.7)"
    );
    assert_eq!(updated_line(&Updated::Failed("x".to_string())), None);
    assert_eq!(
        update_prompt(true, &None).text(),
        r#"{"kind":"update","payload":{"body":"A newer sociacli is required to keep connecting (you have 0.1.7).","current":"0.1.7","latest":null,"mandatory":true,"title":"Update required"}}"#
    );
    assert!(update_prompt(false, &Some("0.2.0".to_string()))
        .text()
        .contains("sociacli 0.2.0 is available (you have 0.1.7)."));
    assert!(update_started().text().contains(r#""status":"updating""#));
    let (card, reply) = update_done(&Updated::Failed("no net".to_string()));
    assert!(card.text().contains("Update failed"));
    assert_eq!(reply.to_text(), r#"{"body":"no net","ok":false}"#);
    let (_, reply) = update_done(&Updated::Panicked("x".to_string()));
    assert_eq!(reply.to_text(), r#"{"body":"update task panicked: x","ok":false}"#);
    let (card, reply) = update_done(&Updated::To("0.2.0".to_string()));
    assert!(card.text().contains("Update complete"));
    assert_eq!(
        reply.to_text(),
        r#"{"body":"Updated to 0.2.0. Restart sociacli to apply.","ok":true}"#
    );
}

// ---- autostart ----

fn show(p: Plan) -> Vec<String> {
    p.steps
        .iter()
        .map(|s| match s {
            ServiceStep::Write { path, .. } => format!("write {}", path),
            ServiceStep::Run { program, args, needed } => {
                format!("{} {}{}", program, args.join(" "), if *needed { " !" } else { "" })
            }
            ServiceStep::Remove { path } => format!("remove {}", path),
        })
        .collect()
}

#[test]
fn autostart_is_set_up_and_taken_down() {
    let up = |p| install(p, "/bin/s", "/e", None).ok().unwrap();
    let down = |p| uninstall(p, Some("/e")).ok().unwrap();
    assert_eq!(up(Platform::Linux).message, "installed /e + enabled");
    assert_eq!(
        show(up(Platform::Linux)),
        vec![
            "write /e",
            "systemctl --user daemon-reload",
            "systemctl --user enable --now sociacli !"
        ]
    );
    assert_eq!(
        show(down(Platform::Linux)),
        vec!["systemctl --user disable --now sociacli", "remove /e"]
    );
    assert_eq!(
        show(up(Platform::MacOs)),
        vec!["write /e", "launchctl unload /e", "launchctl load -w /e !"]
    );
    assert_eq!(show(down(Platform::MacOs)), vec!["launchctl unload /e", "remove /e"]);
    assert!(show(uninstall(Platform::MacOs, None).ok().unwrap()).is_empty());
    assert_eq!(
        show(up(Platform::Windows)),
        vec![r#"reg add HKCU\Software\Microsoft\Windows\CurrentVersion\Run /v sociacli /t REG_SZ /d "/bin/s" listen /f !"#]
    );
    assert_eq!(show(down(Platform::Windows)).len(), 1);
    assert!(install(Platform::Other, "", "", None).is_err());
    assert!(uninstall(Platform::Other, None).is_err());
    assert_eq!(autostart_command("a.exe", Some("b.exe")), "\"b.exe\"");
}

#[test]
fn units_start_the_daemon() {
    match &install(Platform::Linux, "/bin/s", "/e", None).ok().unwrap().steps[0] {
        ServiceStep::Write { body, .. } => assert!(body.contains("\nExecStart=/bin/s listen\n")),
        _ => panic!("nothing written"),
    }
    match &install(Platform::MacOs, "/bin/s", "/e", None).ok().unwrap().steps[0] {
        ServiceStep::Write { body, .. } => {
            assert!(body.contains("<string>/bin/s</string>\n    <string>listen</string>"))
        }
        _ => panic!("nothing written"),
    }
}

#[test]
fn autostart_tells_its_state() {
    assert_eq!(install_failure(Platform::Windows, None, " denied \n"), "reg add failed: denied");
    assert_eq!(
        install_failure(Platform::Linux, Some(-1), ""),
        "systemctl --user enable --now sociacli failed (exit Some(-1))"
    );
    assert_eq!(install_failure(Platform::MacOs, None, ""), "launchctl load failed (exit None)");
    assert_eq!(status(Platform::Linux, false, "disabled\n"), "disabled");
    assert_eq!(status(Platform::Linux, false, ""), "not installed");
    assert_eq!(
        status(Platform::Windows, false, "x"),
        "not registered (run `sociacli service install`)"
    );
    assert_eq!(
        status(Platform::MacOs, false, ""),
        "not loaded (run `sociacli service install`)"
    );
    assert_eq!(status(Platform::MacOs, true, " up "), "up");
    assert_eq!(status(Platform::Other, true, ""), "unknown");
    assert!(status_step(Platform::Other).is_none());
    assert!(matches!(
        status_step(Platform::Linux),
        Some(ServiceStep::Run { program, .. }) if program == "systemctl"
    ));
}

// ---- the prompt ----

#[test]
fn prompts_name_the_user() {
    let mut c = Config::fresh();
    assert_eq!(prompt(&c), "sociacli> ");
    c.username = Some("bob".to_string());
    assert_eq!(prompt(&c), "sociacli(bob)> ");
    c.presence = "dnd".to_string();
    assert_eq!(prompt(&c), "sociacli(bob · do not disturb)> ");
    assert!(banner().starts_with("sociacli 0.1.7 — interactive mode."));
    assert!(background_disabled().contains("settings background on"));
}

#[test]
fn lines_are_cut_as_a_shell_would() {
    assert!(matches!(
        read_line("  msg bob \"hi there\" it\\'s "),
        LineStep::Run(w) if w == vec!["msg", "bob", "hi there", "it's"]
    ));
    assert!(matches!(read_line(" \t"), LineStep::Skip));
    for w in ["exit", " quit ", ":q"] {
        assert!(matches!(read_line(w), LineStep::Exit));
    }
    assert!(matches!(read_line("msg \"bob"), LineStep::Unbalanced));
    assert!(matches!(line_step("x", None), LineStep::Unbalanced));
    assert_eq!(unbalanced(), "parse error (unmatched quotes?)");
}

#[test]
fn the_first_run_asks_for_an_account() {
    let c = Config::fresh();
    assert_eq!(welcome(&c).len(), 6);
    assert!(matches!(first_run_auth(" 1\n"), Choice::Register));
    assert!(matches!(first_run_auth("l"), Choice::SignIn));
    assert!(matches!(first_run_auth(""), Choice::Skip));
    assert!(matches!(first_run_auth("9"), Choice::Again(s) if s == "pick 1, 2, or 3 (got `9`)"));
    assert_eq!(read_username(" bob "), Ok("bob".to_string()));
    assert_eq!(read_username("  "), Err("username can't be empty"));
    assert_eq!(skipped(), "ok — run `register <name>` or `login <name>` whenever.");
}

#[test]
fn the_setup_takes_keys_and_a_friend() {
    let mut c = Config::fresh();
    assert!(!needs_setup(&c));
    c.username = Some("bob".to_string());
    assert!(needs_setup(&c));
    let (lines, open, ptt) = first_run_wizard(&c);
    assert_eq!(lines.len(), 7);
    assert_eq!(open, "> open hotkey [Ctrl+Alt+Shift+KeyF]: ");
    assert_eq!(ptt, "> PTT hotkey  [Ctrl+Alt+Shift+KeyK]: ");
    assert_eq!(answer_combo(&mut c, "ptt", "  "), None);
    assert_eq!(
        answer_combo(&mut c, "ptt", "Ctrl+Nonsense"),
        Some("(invalid combo, keeping default)")
    );
    assert_eq!(c.shortcuts.get("ptt"), Some(&"Ctrl+Alt+Shift+KeyK".to_string()));
    assert_eq!(answer_combo(&mut c, "ptt", " Ctrl+KeyT "), None);
    assert_eq!(c.shortcuts.get("ptt"), Some(&"Ctrl+KeyT".to_string()));
    answer_friend(&mut c, " ");
    assert_eq!(c.default_ptt_friend, None);
    answer_friend(&mut c, " zoe ");
    let o = finish_setup(&mut c);
    assert!(o.save && c.first_run_done && !needs_setup(&c));
    assert_eq!(o.lines[1], "Done. PTT: HOLD `Ctrl+KeyT` to talk with zoe.");
}

#[test]
fn only_exit_and_the_end_of_input_leave_the_prompt() {
    let line = |s: &str| Typed::Line(s.to_string());
    assert!(matches!(prompt_step(&Typed::Interrupted), PromptStep::Again));
    assert!(matches!(prompt_step(&line("  ")), PromptStep::Again));
    assert!(matches!(prompt_step(&Typed::End), PromptStep::Leave));
    for word in ["exit", " quit ", ":q"] {
        assert!(matches!(prompt_step(&line(word)), PromptStep::Leave));
    }
    assert!(matches!(
        prompt_step(&Typed::Failed("broken".to_string())),
        PromptStep::Fail(e) if e == "readline error: broken"
    ));
    assert!(matches!(
        prompt_step(&line("msg \"bob")),
        PromptStep::Complain(e) if e == "parse error (unmatched quotes?)"
    ));
    assert!(matches!(
        prompt_step(&line(" friend list ")),
        PromptStep::Run(w) if w == vec!["friend", "list"]
    ));
    assert_eq!(history_entry(&line(" exit ")), Some("exit".to_string()));
    assert_eq!(history_entry(&line(" ")), None);
    assert_eq!(history_entry(&Typed::Interrupted), None);
}
