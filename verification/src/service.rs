//! Starting the daemon at login: what has to be written, run and said on each
//! platform. Everything is per user and needs no administrator.
use vstd::prelude::*;

use crate::text::{to_signed_decimal, trim};
#[allow(unused_imports)]
use crate::text::{signed_decimal, trimmed, views};

verus! {

/// A platform, as far as autostart goes.
#[derive(Debug, Clone, Copy, PartialEq, Eq, Structural)]
pub enum Platform {
    /// The `Run` key of the user's registry.
    Windows,
    /// A unit of the user's systemd.
    Linux,
    /// A launch agent.
    MacOs,
    Other,
}

/// A step of setting autostart up or taking it down.
pub enum ServiceStep {
    /// Write a file.
    Write { path: String, body: String },
    /// Run a program. `needed` is whether its failure is a failure of the whole.
    Run { program: String, args: Vec<String>, needed: bool },
    /// Remove a file, if it is there.
    Remove { path: String },
}

/// The model of a step.
pub enum ServiceStepView {
    Write { path: Seq<char>, body: Seq<char> },
    Run { program: Seq<char>, args: Seq<Seq<char>>, needed: bool },
    Remove { path: Seq<char> },
}

impl ServiceStep {
    /// The step over the views of its texts.
    pub open spec fn view(self) -> ServiceStepView {
        match self {
            ServiceStep::Write { path, body } => ServiceStepView::Write {
                path: path@,
                body: body@,
            },
            ServiceStep::Run { program, args, needed } => ServiceStepView::Run {
                program: program@,
                args: views(args@),
                needed,
            },
            ServiceStep::Remove { path } => ServiceStepView::Remove { path: path@ },
        }
    }
}

/// The steps over the views of their texts.
pub open spec fn step_views(v: Seq<ServiceStep>) -> Seq<ServiceStepView> {
    Seq::new(v.len(), |i: int| v[i]@)
}

/// What to do, and what to say when it is done.
pub struct Plan {
    pub steps: Vec<ServiceStep>,
    pub message: String,
}

/// The model of a plan.
pub struct PlanView {
    pub steps: Seq<ServiceStepView>,
    pub message: Seq<char>,
}

impl Plan {
    /// The plan over the views of its parts.
    pub open spec fn view(self) -> PlanView {
        PlanView { steps: step_views(self.steps@), message: self.message@ }
    }
}

/// A list of texts.
fn texts(words: Vec<&str>) -> (r: Vec<String>)
    ensures
        views(r@) == Seq::new(words@.len(), |i: int| words@[i]@),
{
    let mut out: Vec<String> = Vec::new();
    let mut i: usize = 0;
    while i < words.len()
        invariant
            i <= words@.len(),
            out@.len() == i,
            forall|k: int| 0 <= k < i ==> (#[trigger] out@[k])@ == words@[k]@,
        decreases words@.len() - i,
    {
        out.push(words[i].to_owned());
        i += 1;
    }
    assert(views(out@) =~= Seq::new(words@.len(), |i: int| words@[i]@));
    out
}

// ---- what is written ----

/// The command that Windows starts: the launcher, or the program as the daemon.
pub open spec fn command_line(exe: Seq<char>, launcher: Option<Seq<char>>) -> Seq<char> {
    match launcher {
        Some(l) => "\""@ + l + "\""@,
        None => "\""@ + exe + "\" listen"@,
    }
}

/// The command of the Windows autostart entry: the launcher that opens no
/// console, where it is there, or else the program itself.
pub fn autostart_command(exe: &str, launcher: Option<&str>) -> (r: String)
    ensures
        r@ == command_line(
            exe@,
            match launcher {
                Some(l) => Some(l@),
                None => None,
            },
        ),
{
    match launcher {
        Some(l) => "\"".to_owned().concat(l).concat("\""),
        None => "\"".to_owned().concat(exe).concat("\" listen"),
    }
}

/// The systemd unit of the daemon.
pub open spec fn unit_text(exe: Seq<char>) -> Seq<char> {
    "[Unit]\nDescription=sociacli notification + P2P daemon\nAfter=network.target\n\n[Service]\nExecStart="@
        + exe
        + " listen\nRestart=on-failure\nRestartSec=3\n\n[Install]\nWantedBy=default.target\n"@
}

/// Writes the systemd unit of the daemon.
pub fn unit_file(exe: &str) -> (r: String)
    ensures
        r@ == unit_text(exe@),
{
    "[Unit]\nDescription=sociacli notification + P2P daemon\nAfter=network.target\n\n[Service]\nExecStart=".to_owned().concat(
        exe,
    ).concat(
        " listen\nRestart=on-failure\nRestartSec=3\n\n[Install]\nWantedBy=default.target\n",
    )
}

/// The launch agent of the daemon.
pub open spec fn plist_text(exe: Seq<char>) -> Seq<char> {
    "<?xml version=\"1.0\" encoding=\"UTF-8\"?>\n<!DOCTYPE plist PUBLIC \"-//Apple//DTD PLIST 1.0//EN\" \"http://www.apple.com/DTDs/PropertyList-1.0.dtd\">\n<plist version=\"1.0\">\n<dict>\n  <key>Label</key><string>dev.sociacli.daemon</string>\n  <key>ProgramArguments</key>\n  <array>\n    <string>"@
        + exe
        + "</string>\n    <string>listen</string>\n  </array>\n  <key>RunAtLoad</key><true/>\n  <key>KeepAlive</key><true/>\n  <key>StandardOutPath</key><string>/tmp/sociacli.out.log</string>\n  <key>StandardErrorPath</key><string>/tmp/sociacli.err.log</string>\n</dict>\n</plist>\n"@
}

/// Writes the launch agent of the daemon.
pub fn plist_file(exe: &str) -> (r: String)
    ensures
        r@ == plist_text(exe@),
{
    "<?xml version=\"1.0\" encoding=\"UTF-8\"?>\n<!DOCTYPE plist PUBLIC \"-//Apple//DTD PLIST 1.0//EN\" \"http://www.apple.com/DTDs/PropertyList-1.0.dtd\">\n<plist version=\"1.0\">\n<dict>\n  <key>Label</key><string>dev.sociacli.daemon</string>\n  <key>ProgramArguments</key>\n  <array>\n    <string>".to_owned().concat(
        exe,
    ).concat(
        "</string>\n    <string>listen</string>\n  </array>\n  <key>RunAtLoad</key><true/>\n  <key>KeepAlive</key><true/>\n  <key>StandardOutPath</key><string>/tmp/sociacli.out.log</string>\n  <key>StandardErrorPath</key><string>/tmp/sociacli.err.log</string>\n</dict>\n</plist>\n",
    )
}

// ---- plans ----

/// Where Windows looks for programs to start at login.
pub open spec fn run_key() -> Seq<char> {
    "HKCU\\Software\\Microsoft\\Windows\\CurrentVersion\\Run"@
}

/// A program to run.
pub open spec fn ran(program: Seq<char>, args: Seq<Seq<char>>, needed: bool) -> ServiceStepView {
    ServiceStepView::Run { program, args, needed }
}

/// What sets autostart up. `entry` is where the unit or the launch agent goes.
pub open spec fn install_plan(
    platform: Platform,
    exe: Seq<char>,
    entry: Seq<char>,
    launcher: Option<Seq<char>>,
) -> Result<PlanView, Seq<char>> {
    match platform {
        Platform::Windows => {
            let value = match launcher {
                Some(l) => "\""@ + l + "\""@,
                None => "\""@ + exe + "\" listen"@,
            };
            Ok(
                PlanView {
                    steps: seq![
                        ran(
                            "reg"@,
                            seq![
                                "add"@,
                                run_key(),
                                "/v"@,
                                "sociacli"@,
                                "/t"@,
                                "REG_SZ"@,
                                "/d"@,
                                value,
                                "/f"@,
                            ],
                            true,
                        ),
                    ],
                    message: "registered HKCU\\…\\Run\\sociacli = "@ + value,
                },
            )
        },
        Platform::Linux => Ok(
            PlanView {
                steps: seq![
                    ServiceStepView::Write { path: entry, body: unit_text(exe) },
                    ran("systemctl"@, seq!["--user"@, "daemon-reload"@], false),
                    ran("systemctl"@, seq!["--user"@, "enable"@, "--now"@, "sociacli"@], true),
                ],
                message: "installed "@ + entry + " + enabled"@,
            },
        ),
        Platform::MacOs => Ok(
            PlanView {
                steps: seq![
                    ServiceStepView::Write { path: entry, body: plist_text(exe) },
                    ran("launchctl"@, seq!["unload"@, entry], false),
                    ran("launchctl"@, seq!["load"@, "-w"@, entry], true),
                ],
                message: "installed "@ + entry + " + loaded"@,
            },
        ),
        Platform::Other => Err("autostart not implemented on this platform"@),
    }
}

/// What takes autostart down. `entry` is where the unit or the launch agent is,
/// where that is known.
pub open spec fn uninstall_plan(platform: Platform, entry: Option<Seq<char>>) -> Result<
    PlanView,
    Seq<char>,
> {
    match platform {
        Platform::Windows => Ok(
            PlanView {
                steps: seq![
                    ran(
                        "reg"@,
                        seq!["delete"@, run_key(), "/v"@, "sociacli"@, "/f"@],
                        false,
                    ),
                ],
                message: "removed HKCU\\…\\Run\\sociacli (if present)"@,
            },
        ),
        Platform::Linux => {
            let off = ran(
                "systemctl"@,
                seq!["--user"@, "disable"@, "--now"@, "sociacli"@],
                false,
            );
            Ok(
                PlanView {
                    steps: match entry {
                        Some(p) => seq![off, ServiceStepView::Remove { path: p }],
                        None => seq![off],
                    },
                    message: "disabled + removed user unit"@,
                },
            )
        },
        Platform::MacOs => Ok(
            PlanView {
                steps: match entry {
                    Some(p) => seq![
                        ran("launchctl"@, seq!["unload"@, p], false),
                        ServiceStepView::Remove { path: p },
                    ],
                    None => Seq::empty(),
                },
                message: "unloaded + removed LaunchAgent"@,
            },
        ),
        Platform::Other => Err("autostart not implemented on this platform"@),
    }
}

/// The view of the result of planning.
pub open spec fn plan_view(r: Result<Plan, String>) -> Result<PlanView, Seq<char>> {
    match r {
        Ok(p) => Ok(p@),
        Err(e) => Err(e@),
    }
}

/// A program to run.
fn run(program: &str, args: Vec<&str>, needed: bool) -> (r: ServiceStep)
    ensures
        r@ == ran(program@, Seq::new(args@.len(), |i: int| args@[i]@), needed),
{
    ServiceStep::Run { program: program.to_owned(), args: texts(args), needed }
}

/// Plans to set autostart up.
pub fn install(platform: Platform, exe: &str, entry: &str, launcher: Option<&str>) -> (r: Result<
    Plan,
    String,
>)
    ensures
        plan_view(r) == install_plan(
            platform,
            exe@,
            entry@,
            match launcher {
                Some(l) => Some(l@),
                None => None,
            },
        ),
{
    let mut steps: Vec<ServiceStep> = Vec::new();
    let message = match platform {
        Platform::Windows => {
            let value = autostart_command(exe, launcher);
            let step = run(
                "reg",
                vec![
                    "add",
                    "HKCU\\Software\\Microsoft\\Windows\\CurrentVersion\\Run",
                    "/v",
                    "sociacli",
                    "/t",
                    "REG_SZ",
                    "/d",
                    value.as_str(),
                    "/f",
                ],
                true,
            );
            steps.push(step);
            assert(step@->args =~= seq![
                "add"@,
                run_key(),
                "/v"@,
                "sociacli"@,
                "/t"@,
                "REG_SZ"@,
                "/d"@,
                value@,
                "/f"@,
            ]);
            "registered HKCU\\…\\Run\\sociacli = ".to_owned().concat(value.as_str())
        },
        Platform::Linux => {
            steps.push(ServiceStep::Write { path: entry.to_owned(), body: unit_file(exe) });
            let reload = run("systemctl", vec!["--user", "daemon-reload"], false);
            assert(reload@->args =~= seq!["--user"@, "daemon-reload"@]);
            steps.push(reload);
            let enable = run("systemctl", vec!["--user", "enable", "--now", "sociacli"], true);
            assert(enable@->args =~= seq!["--user"@, "enable"@, "--now"@, "sociacli"@]);
            steps.push(enable);
            "installed ".to_owned().concat(entry).concat(" + enabled")
        },
        Platform::MacOs => {
            steps.push(ServiceStep::Write { path: entry.to_owned(), body: plist_file(exe) });
            let unload = run("launchctl", vec!["unload", entry], false);
            assert(unload@->args =~= seq!["unload"@, entry@]);
            steps.push(unload);
            let load = run("launchctl", vec!["load", "-w", entry], true);
            assert(load@->args =~= seq!["load"@, "-w"@, entry@]);
            steps.push(load);
            "installed ".to_owned().concat(entry).concat(" + loaded")
        },
        Platform::Other => {
            return Err("autostart not implemented on this platform".to_owned());
        },
    };
    let ghost planned = install_plan(
        platform,
        exe@,
        entry@,
        match launcher {
            Some(l) => Some(l@),
            None => None,
        },
    )->Ok_0;
    assert(step_views(steps@) =~= planned.steps);
    Ok(Plan { steps, message })
}

/// Plans to take autostart down.
pub fn uninstall(platform: Platform, entry: Option<&str>) -> (r: Result<Plan, String>)
    ensures
        plan_view(r) == uninstall_plan(
            platform,
            match entry {
                Some(p) => Some(p@),
                None => None,
            },
        ),
{
    let mut steps: Vec<ServiceStep> = Vec::new();
    let message = match platform {
        Platform::Windows => {
            let step = run(
                "reg",
                vec![
                    "delete",
                    "HKCU\\Software\\Microsoft\\Windows\\CurrentVersion\\Run",
                    "/v",
                    "sociacli",
                    "/f",
                ],
                false,
            );
            assert(step@->args =~= seq!["delete"@, run_key(), "/v"@, "sociacli"@, "/f"@]);
            steps.push(step);
            "removed HKCU\\…\\Run\\sociacli (if present)".to_owned()
        },
        Platform::Linux => {
            let step = run("systemctl", vec!["--user", "disable", "--now", "sociacli"], false);
            assert(step@->args =~= seq!["--user"@, "disable"@, "--now"@, "sociacli"@]);
            steps.push(step);
            if let Some(p) = entry {
                steps.push(ServiceStep::Remove { path: p.to_owned() });
            }
            "disabled + removed user unit".to_owned()
        },
        Platform::MacOs => {
            if let Some(p) = entry {
                let step = run("launchctl", vec!["unload", p], false);
                assert(step@->args =~= seq!["unload"@, p@]);
                steps.push(step);
                steps.push(ServiceStep::Remove { path: p.to_owned() });
            }
            "unloaded + removed LaunchAgent".to_owned()
        },
        Platform::Other => {
            return Err("autostart not implemented on this platform".to_owned());
        },
    };
    let ghost planned = uninstall_plan(
        platform,
        match entry {
            Some(p) => Some(p@),
            None => None,
        },
    )->Ok_0;
    assert(step_views(steps@) =~= planned.steps);
    Ok(Plan { steps, message })
}

/// How a program ended, in words.
pub open spec fn exit_words(code: Option<i32>) -> Seq<char> {
    match code {
        Some(c) => "Some("@ + signed_decimal(c as int) + ")"@,
        None => "None"@,
    }
}

/// Which needed step failed, in words.
pub open spec fn failure_words(platform: Platform, code: Option<i32>, stderr: Seq<char>) -> Seq<
    char,
> {
    match platform {
        Platform::Windows => "reg add failed: "@ + trimmed(stderr),
        Platform::Linux => "systemctl --user enable --now sociacli failed (exit "@ + exit_words(
            code,
        ) + ")"@,
        Platform::MacOs => "launchctl load failed (exit "@ + exit_words(code) + ")"@,
        Platform::Other => "autostart not implemented on this platform"@,
    }
}

/// Says which needed step failed. `stderr` is what it complained of.
pub fn install_failure(platform: Platform, code: Option<i32>, stderr: &str) -> (r: String)
    ensures
        r@ == failure_words(platform, code, stderr@),
{
    let exit = match code {
        Some(c) => "Some(".to_owned().concat(to_signed_decimal(c as i64).as_str()).concat(")"),
        None => "None".to_owned(),
    };
    match platform {
        Platform::Windows => "reg add failed: ".to_owned().concat(trim(stderr).as_str()),
        Platform::Linux => "systemctl --user enable --now sociacli failed (exit ".to_owned().concat(
            exit.as_str(),
        ).concat(")"),
        Platform::MacOs => "launchctl load failed (exit ".to_owned().concat(exit.as_str()).concat(
            ")",
        ),
        Platform::Other => "autostart not implemented on this platform".to_owned(),
    }
}

/// What to ask for the state of autostart.
pub open spec fn status_query(platform: Platform) -> Option<ServiceStepView> {
    match platform {
        Platform::Windows => Some(
            ran("reg"@, seq!["query"@, run_key(), "/v"@, "sociacli"@], false),
        ),
        Platform::Linux => Some(
            ran("systemctl"@, seq!["--user"@, "is-enabled"@, "sociacli"@], false),
        ),
        Platform::MacOs => Some(ran("launchctl"@, seq!["list"@, "dev.sociacli.daemon"@], false)),
        Platform::Other => None,
    }
}

/// Asks for the state of autostart.
pub fn status_step(platform: Platform) -> (r: Option<ServiceStep>)
    ensures
        match r {
            Some(s) => status_query(platform) == Some(s@),
            None => status_query(platform) is None,
        },
{
    match platform {
        Platform::Windows => {
            let step = run(
                "reg",
                vec![
                    "query",
                    "HKCU\\Software\\Microsoft\\Windows\\CurrentVersion\\Run",
                    "/v",
                    "sociacli",
                ],
                false,
            );
            assert(step@->args =~= seq!["query"@, run_key(), "/v"@, "sociacli"@]);
            Some(step)
        },
        Platform::Linux => {
            let step = run("systemctl", vec!["--user", "is-enabled", "sociacli"], false);
            assert(step@->args =~= seq!["--user"@, "is-enabled"@, "sociacli"@]);
            Some(step)
        },
        Platform::MacOs => {
            let step = run("launchctl", vec!["list", "dev.sociacli.daemon"], false);
            assert(step@->args =~= seq!["list"@, "dev.sociacli.daemon"@]);
            Some(step)
        },
        Platform::Other => None,
    }
}

/// The state of autostart in words, going by what was answered.
pub open spec fn status_words(platform: Platform, success: bool, stdout: Seq<char>) -> Seq<char> {
    match platform {
        Platform::Windows => if success {
            trimmed(stdout)
        } else {
            "not registered (run `sociacli service install`)"@
        },
        Platform::Linux => if trimmed(stdout).len() == 0 {
            "not installed"@
        } else {
            trimmed(stdout)
        },
        Platform::MacOs => if success {
            trimmed(stdout)
        } else {
            "not loaded (run `sociacli service install`)"@
        },
        Platform::Other => "unknown"@,
    }
}

/// Puts the state of autostart in words.
pub fn status(platform: Platform, success: bool, stdout: &str) -> (r: String)
    ensures
        r@ == status_words(platform, success, stdout@),
{
    let said = trim(stdout);
    match platform {
        Platform::Windows => if success {
            said
        } else {
            "not registered (run `sociacli service install`)".to_owned()
        },
        Platform::Linux => if said.as_str().is_empty() {
            "not installed".to_owned()
        } else {
            said
        },
        Platform::MacOs => if success {
            said
        } else {
            "not loaded (run `sociacli service install`)".to_owned()
        },
        Platform::Other => "unknown".to_owned(),
    }
}

/// A file that setting autostart up writes is removed when it is taken down.
pub proof fn uninstall_removes_what_install_wrote(
    platform: Platform,
    exe: Seq<char>,
    entry: Seq<char>,
    launcher: Option<Seq<char>>,
    i: int,
)
    requires
        install_plan(platform, exe, entry, launcher) is Ok,
        0 <= i < install_plan(platform, exe, entry, launcher)->Ok_0.steps.len(),
        install_plan(platform, exe, entry, launcher)->Ok_0.steps[i] is Write,
    ensures
        uninstall_plan(platform, Some(entry)) is Ok,
        uninstall_plan(platform, Some(entry))->Ok_0.steps.contains(
            ServiceStepView::Remove {
                path: install_plan(platform, exe, entry, launcher)->Ok_0.steps[i]->Write_path,
            },
        ),
{
    let down = uninstall_plan(platform, Some(entry))->Ok_0.steps;
    if platform == Platform::Linux || platform == Platform::MacOs {
        assert(down[1] == (ServiceStepView::Remove { path: entry }));
    }
}

} // verus!
