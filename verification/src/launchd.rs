//! The launchd agent that runs the daemon at login.

use vstd::prelude::*;
use vstd::string::StringExecFns;
use crate::paths::{join, path_text, user_home_dir, PathError};
use crate::tasks::{Task, TaskView};
use crate::text::{push_decimal, quoted_list};

verus! {

/// The name of the agent.
pub const LAUNCHD_LABEL: &'static str = "com.miketineo.quadcastctl";

/// The property list up to the label.
pub const PLIST_TO_LABEL: &'static str = r#"<?xml version="1.0" encoding="UTF-8"?>
<!DOCTYPE plist PUBLIC "-//Apple//DTD PLIST 1.0//EN" "http://www.apple.com/DTDs/PropertyList-1.0.dtd">
<plist version="1.0">
<dict>
    <key>Label</key>
    <string>"#;

/// From the label to the program.
pub const PLIST_TO_PROGRAM: &'static str = r#"</string>
    <key>ProgramArguments</key>
    <array>
        <string>"#;

/// From the program, which is run with the argument `daemon`, to the directory of its output: it
/// runs at login, and again five seconds after it ended unless it ended well.
pub const PLIST_TO_OUTPUT: &'static str = r#"</string>
        <string>daemon</string>
    </array>
    <key>RunAtLoad</key>
    <true/>
    <key>KeepAlive</key>
    <dict>
        <key>SuccessfulExit</key>
        <false/>
    </dict>
    <key>ThrottleInterval</key>
    <integer>5</integer>
    <key>StandardOutPath</key>
    <string>"#;

/// From the directory of the output to that of the errors.
pub const PLIST_TO_ERRORS: &'static str = r#"/quadcastctl.out.log</string>
    <key>StandardErrorPath</key>
    <string>"#;

/// The rest of the property list.
pub const PLIST_END: &'static str = r#"/quadcastctl.err.log</string>
</dict>
</plist>
"#;

/// The directory of the agents of the user with this home directory.
pub open spec fn agents_dir_path(home: Seq<u8>) -> Seq<u8> {
    crate::paths::joined(home, "Library/LaunchAgents"@)
}

/// The property list of the agent.
pub open spec fn plist_path(home: Seq<u8>) -> Seq<u8> {
    crate::paths::joined(agents_dir_path(home), LAUNCHD_LABEL@ + ".plist"@)
}

/// The directory of the agent's logs.
pub open spec fn log_dir_path(home: Seq<u8>) -> Seq<u8> {
    crate::paths::joined(home, "Library/Logs/quadcastctl"@)
}

/// The property list of an agent that runs `exe` and logs to `log_dir`.
pub open spec fn plist_text(exe: Seq<char>, log_dir: Seq<char>) -> Seq<char> {
    PLIST_TO_LABEL@ + LAUNCHD_LABEL@ + PLIST_TO_PROGRAM@ + exe + PLIST_TO_OUTPUT@ + log_dir
        + PLIST_TO_ERRORS@ + log_dir + PLIST_END@
}

/// The login session of a user, in launchctl's terms.
pub open spec fn domain_text(uid: u32) -> Seq<char> {
    "gui/"@ + crate::text::decimal(uid as nat)
}

/// The agent in the login session of a user.
pub open spec fn target_text(uid: u32) -> Seq<char> {
    domain_text(uid) + "/"@ + LAUNCHD_LABEL@
}

/// The directory of the agents below the home directory.
fn agents_dir_below(home: &[u8]) -> (path: Vec<u8>)
    ensures
        path@ == agents_dir_path(home@),
{
    join(home, "Library/LaunchAgents")
}

/// The property list of the agent below the home directory.
fn plist_below(home: &[u8]) -> (path: Vec<u8>)
    ensures
        path@ == plist_path(home@),
{
    let mut name = LAUNCHD_LABEL.to_owned();
    name.append(".plist");
    join(agents_dir_below(home).as_slice(), name.as_str())
}

/// The directory of the agent's logs below the home directory.
fn log_dir_below(home: &[u8]) -> (path: Vec<u8>)
    ensures
        path@ == log_dir_path(home@),
{
    join(home, "Library/Logs/quadcastctl")
}

/// The property list of the agent, when `home` is the home directory.
pub fn launchd_plist_path_in(home: Option<Vec<u8>>) -> (r: Result<Vec<u8>, PathError>)
    ensures
        match home {
            Some(h) => r matches Ok(path) && path@ == plist_path(h@),
            None => r == Err::<Vec<u8>, PathError>(PathError::NoHomeDir),
        },
{
    match home {
        Some(h) => Ok(plist_below(h.as_slice())),
        None => Err(PathError::NoHomeDir),
    }
}

/// The directory of the agent's logs, when `home` is the home directory.
pub fn launchd_log_dir_in(home: Option<Vec<u8>>) -> (r: Result<Vec<u8>, PathError>)
    ensures
        match home {
            Some(h) => r matches Ok(path) && path@ == log_dir_path(h@),
            None => r == Err::<Vec<u8>, PathError>(PathError::NoHomeDir),
        },
{
    match home {
        Some(h) => Ok(log_dir_below(h.as_slice())),
        None => Err(PathError::NoHomeDir),
    }
}

/// The property list of the agent.
pub fn launchd_plist_path() -> (r: Result<Vec<u8>, PathError>)
    ensures
        match r {
            Ok(path) => exists|home: Seq<u8>|
                home.len() > 0 && path@ == #[trigger] plist_path(home),
            Err(e) => e == PathError::NoHomeDir,
        },
{
    launchd_plist_path_in(user_home_dir())
}

/// The directory of the agent's logs.
pub fn launchd_log_dir() -> (r: Result<Vec<u8>, PathError>)
    ensures
        match r {
            Ok(path) => exists|home: Seq<u8>|
                home.len() > 0 && path@ == #[trigger] log_dir_path(home),
            Err(e) => e == PathError::NoHomeDir,
        },
{
    launchd_log_dir_in(user_home_dir())
}

/// The property list of an agent that runs the program at `exe` and logs to `log_dir`.
pub fn render_plist(exe: &[u8], log_dir: &[u8]) -> (plist: String)
    ensures
        plist@ == plist_text(crate::paths::shown_text(exe@), crate::paths::shown_text(log_dir@)),
        plist@ == PLIST_TO_LABEL@ + LAUNCHD_LABEL@ + PLIST_TO_PROGRAM@ + crate::paths::shown_text(
            exe@,
        ) + PLIST_TO_OUTPUT@ + crate::paths::shown_text(log_dir@) + PLIST_TO_ERRORS@
            + crate::paths::shown_text(log_dir@) + PLIST_END@,
{
    let exe_text = path_text(exe);
    let log_dir_text = path_text(log_dir);
    plist_of(exe_text.as_str(), log_dir_text.as_str())
}

/// The property list of an agent, given the texts of the two paths.
pub fn plist_of(exe: &str, log_dir: &str) -> (plist: String)
    ensures
        plist@ == plist_text(exe@, log_dir@),
        plist@ == PLIST_TO_LABEL@ + LAUNCHD_LABEL@ + PLIST_TO_PROGRAM@ + exe@ + PLIST_TO_OUTPUT@
            + log_dir@ + PLIST_TO_ERRORS@ + log_dir@ + PLIST_END@,
{
    let mut plist = PLIST_TO_LABEL.to_owned();
    plist.append(LAUNCHD_LABEL);
    plist.append(PLIST_TO_PROGRAM);
    plist.append(exe);
    plist.append(PLIST_TO_OUTPUT);
    plist.append(log_dir);
    plist.append(PLIST_TO_ERRORS);
    plist.append(log_dir);
    plist.append(PLIST_END);
    plist
}

/// The login session of the user `uid`.
pub fn launchctl_domain(uid: u32) -> (domain: String)
    ensures
        domain@ == domain_text(uid),
        domain@ == "gui/"@ + crate::text::decimal(uid as nat),
{
    let mut domain = "gui/".to_owned();
    push_decimal(&mut domain, uid as u64);
    domain
}

/// The agent in the login session of the user `uid`.
pub fn launchctl_target(uid: u32) -> (target: String)
    ensures
        target@ == target_text(uid),
        target@ == "gui/"@ + crate::text::decimal(uid as nat) + "/"@
            + "com.miketineo.quadcastctl"@,
{
    let mut target = launchctl_domain(uid);
    target.append("/");
    target.append(LAUNCHD_LABEL);
    target
}

/// The arguments of launchctl that start the agent.
pub fn cmd_start(uid: u32) -> (args: Vec<String>)
    ensures
        crate::text::texts(args@) == seq!["kickstart"@, target_text(uid)],
        args@.len() == 2,
        args@[0]@ == "kickstart"@,
        args@[1]@ == "gui/"@ + crate::text::decimal(uid as nat) + "/"@
            + "com.miketineo.quadcastctl"@,
{
    let args = vec!["kickstart".to_owned(), launchctl_target(uid)];
    assert(crate::text::texts(args@) =~= seq!["kickstart"@, target_text(uid)]);
    args
}

/// The arguments of launchctl that stop the agent.
pub fn cmd_stop(uid: u32) -> (args: Vec<String>)
    ensures
        crate::text::texts(args@) == seq!["kill"@, "TERM"@, target_text(uid)],
        args@.len() == 3,
        args@[0]@ == "kill"@,
        args@[1]@ == "TERM"@,
        args@[2]@ == "gui/"@ + crate::text::decimal(uid as nat) + "/"@
            + "com.miketineo.quadcastctl"@,
{
    let args = vec!["kill".to_owned(), "TERM".to_owned(), launchctl_target(uid)];
    assert(crate::text::texts(args@) =~= seq!["kill"@, "TERM"@, target_text(uid)]);
    args
}

/// The arguments of launchctl that restart the agent.
pub fn cmd_restart(uid: u32) -> (args: Vec<String>)
    ensures
        crate::text::texts(args@) == seq!["kickstart"@, "-k"@, target_text(uid)],
        args@.len() == 3,
        args@[0]@ == "kickstart"@,
        args@[1]@ == "-k"@,
        args@[2]@ == "gui/"@ + crate::text::decimal(uid as nat) + "/"@
            + "com.miketineo.quadcastctl"@,
{
    let args = vec!["kickstart".to_owned(), "-k".to_owned(), launchctl_target(uid)];
    assert(crate::text::texts(args@) =~= seq!["kickstart"@, "-k"@, target_text(uid)]);
    args
}

/// The arguments of launchctl that show the state of the agent.
pub fn cmd_status(uid: u32) -> (args: Vec<String>)
    ensures
        crate::text::texts(args@) == seq!["print"@, target_text(uid)],
        args@.len() == 2,
        args@[0]@ == "print"@,
        args@[1]@ == "gui/"@ + crate::text::decimal(uid as nat) + "/"@
            + "com.miketineo.quadcastctl"@,
{
    let args = vec!["print".to_owned(), launchctl_target(uid)];
    assert(crate::text::texts(args@) =~= seq!["print"@, target_text(uid)]);
    args
}

/// The arguments of launchctl that take the agent out of the session.
fn bootout_args(uid: u32) -> (args: Vec<String>)
    ensures
        crate::text::texts(args@) == seq!["bootout"@, target_text(uid)],
        args@.len() == 2,
        args@[0]@ == "bootout"@,
        args@[1]@ == "gui/"@ + crate::text::decimal(uid as nat) + "/"@
            + "com.miketineo.quadcastctl"@,
{
    let args = vec!["bootout".to_owned(), launchctl_target(uid)];
    assert(crate::text::texts(args@) =~= seq!["bootout"@, target_text(uid)]);
    args
}

/// The arguments of launchctl that let the agent start at login.
fn enable_args(uid: u32) -> (args: Vec<String>)
    ensures
        crate::text::texts(args@) == seq!["enable"@, target_text(uid)],
        args@.len() == 2,
        args@[0]@ == "enable"@,
        args@[1]@ == "gui/"@ + crate::text::decimal(uid as nat) + "/"@
            + "com.miketineo.quadcastctl"@,
{
    let args = vec!["enable".to_owned(), launchctl_target(uid)];
    assert(crate::text::texts(args@) =~= seq!["enable"@, target_text(uid)]);
    args
}

/// The arguments of launchctl that bring the agent of the property list `plist` into `domain`.
pub fn bootstrap_args(domain: &str, plist: &str) -> (args: Vec<String>)
    ensures
        crate::text::texts(args@) == seq!["bootstrap"@, domain@, plist@],
        args@.len() == 3,
        args@[0]@ == "bootstrap"@,
        args@[1]@ == domain@,
        args@[2]@ == plist@,
{
    let args = vec!["bootstrap".to_owned(), domain.to_owned(), plist.to_owned()];
    assert(crate::text::texts(args@) =~= seq!["bootstrap"@, domain@, plist@]);
    args
}

/// Launchctl ended badly.
#[derive(Debug)]
pub struct LaunchctlError {
    pub args: Vec<String>,
    /// How it ended, in words.
    pub status: String,
}

/// Accepts a run of launchctl that ended well, and no other.
pub fn run_launchctl(args: Vec<String>, success: bool, status: &str) -> (r: Result<
    (),
    LaunchctlError,
>)
    ensures
        match r {
            Ok(_) => success,
            Err(e) => !success && e.args == args && e.status@ == status@,
        },
        r is Ok <==> success,
{
    if success {
        Ok(())
    } else {
        Err(LaunchctlError { args, status: status.to_owned() })
    }
}

pub open spec fn failed_text(list: Seq<char>, status: Seq<char>) -> Seq<char> {
    "launchctl "@ + list + " failed: "@ + status
}

pub open spec fn launchctl_error_message(args: Seq<Seq<char>>, status: Seq<char>) -> Seq<char> {
    failed_text(crate::text::debug_list(args), status)
}

/// The error for a run of launchctl, given the list of its arguments.
pub fn launchctl_failed(list: &str, status: &str) -> (m: String)
    ensures
        m@ == failed_text(list@, status@),
        m@ == "launchctl "@ + list@ + " failed: "@ + status@,
{
    let mut m = "launchctl ".to_owned();
    m.append(list);
    m.append(" failed: ");
    m.append(status);
    m
}

impl LaunchctlError {
    /// The error in words.
    pub fn message(&self) -> (m: String)
        ensures
            m@ == launchctl_error_message(crate::text::texts(self.args@), self.status@),
            m@ == "launchctl "@ + ("["@ + crate::text::comma_separated(
                Seq::new(self.args@.len(), |i: int| crate::text::debug_quoted(self.args@[i]@)),
            ) + "]"@) + " failed: "@ + self.status@,
    {
        launchctl_failed(quoted_list(self.args.as_slice()).as_str(), self.status.as_str())
    }
}

/// What is being done while launchctl runs, in words.
pub fn launchctl_context(args: &[String]) -> (m: String)
    ensures
        m@ == "running launchctl "@ + crate::text::debug_list(crate::text::texts(args@)),
        m@ == "running launchctl "@ + ("["@ + crate::text::comma_separated(
            Seq::new(args@.len(), |i: int| crate::text::debug_quoted(args@[i]@)),
        ) + "]"@),
{
    let mut m = "running launchctl ".to_owned();
    m.append(quoted_list(args).as_str());
    m
}

/// The agent's state could not be shown.
#[derive(Debug, Clone, Copy, PartialEq, Eq, Structural)]
pub struct StatusError;

/// Accepts a run of launchctl that showed the state of the agent.
pub fn status_result(success: bool) -> (r: Result<(), StatusError>)
    ensures
        r is Ok <==> success,
{
    if success {
        Ok(())
    } else {
        Err(StatusError)
    }
}

impl StatusError {
    /// The error in words.
    pub fn message(&self) -> (m: String)
        ensures
            m@ == "launchctl print failed (daemon may not be installed)"@,
    {
        "launchctl print failed (daemon may not be installed)".to_owned()
    }
}

/// The task that takes the agent out of the session, if it is there.
pub open spec fn bootout_task(uid: u32) -> TaskView {
    TaskView::Launchctl { args: seq!["bootout"@, target_text(uid)], required: false }
}

/// How the paths of an installation are shown.
#[derive(Debug)]
pub struct Shown {
    pub exe: String,
    pub plist: String,
    pub log_dir: String,
}

pub struct ShownView {
    pub exe: Seq<char>,
    pub plist: Seq<char>,
    pub log_dir: Seq<char>,
}

impl View for Shown {
    type V = ShownView;

    open spec fn view(&self) -> ShownView {
        ShownView { exe: self.exe@, plist: self.plist@, log_dir: self.log_dir@ }
    }
}

/// How the agent is installed: its directories and its property list, then launchctl, which
/// takes out an agent of that name that may be there, brings in the new one, and starts it.
pub open spec fn install_plan(
    shown: ShownView,
    plist_home: Seq<u8>,
    log_home: Seq<u8>,
    uid: u32,
) -> Seq<TaskView> {
    seq![
        TaskView::CreateDir { path: log_dir_path(log_home) },
        TaskView::CreateDir { path: agents_dir_path(plist_home) },
        TaskView::WriteFile {
            path: plist_path(plist_home),
            contents: plist_text(shown.exe, shown.log_dir),
        },
        TaskView::Print { line: "wrote "@ + shown.plist },
        bootout_task(uid),
        TaskView::Bootstrap { domain: domain_text(uid), plist: plist_path(plist_home) },
        TaskView::Launchctl { args: seq!["enable"@, target_text(uid)], required: true },
        TaskView::Launchctl { args: seq!["kickstart"@, "-k"@, target_text(uid)], required: true },
        TaskView::Print { line: "daemon installed and started."@ },
        TaskView::Print { line: "logs: "@ + shown.log_dir + "/quadcastctl.{out,err}.log"@ },
    ]
}

/// The texts of the program `exe` and of the paths below the home directories.
pub open spec fn shown_paths(exe: Seq<u8>, plist_home: Seq<u8>, log_home: Seq<u8>) -> ShownView {
    ShownView {
        exe: crate::paths::shown_text(exe),
        plist: crate::paths::shown_text(plist_path(plist_home)),
        log_dir: crate::paths::shown_text(log_dir_path(log_home)),
    }
}

/// How the agent's property list is removed, if it is there.
pub open spec fn removal_plan(plist: Seq<u8>, shown: Seq<char>, present: bool) -> Seq<TaskView> {
    if present {
        seq![
            TaskView::RemoveFile { path: plist },
            TaskView::Print { line: "removed "@ + shown },
        ]
    } else {
        seq![TaskView::Print { line: "plist not present at "@ + shown }]
    }
}

/// How the agent is removed: it is taken out of the session, if it is there, and then its property
/// list is removed, if that is there.
pub open spec fn uninstall_plan(
    uid: u32,
    plist: Seq<u8>,
    shown: Seq<char>,
    present: bool,
) -> Seq<TaskView> {
    seq![bootout_task(uid)] + removal_plan(plist, shown, present)
}

/// The property list is there after the agent was removed: it was there before, and was not
/// removed.
pub open spec fn present_after_uninstall(
    uid: u32,
    plist: Seq<u8>,
    shown: Seq<char>,
    present: bool,
    succeeded: Seq<bool>,
) -> bool {
    present && !crate::tasks::removes(uninstall_plan(uid, plist, shown, present), succeeded, plist)
}

/// The tasks that install the agent, when the home directory is `plist_home` for the property
/// list and `log_home` for the logs, and the paths are shown as `shown`.
pub fn install_tasks(shown: Shown, plist_home: &[u8], log_home: &[u8], uid: u32) -> (tasks: Vec<
    Task,
>)
    ensures
        crate::tasks::plan(tasks@) == install_plan(shown@, plist_home@, log_home@, uid),
{
    let contents = plist_of(shown.exe.as_str(), shown.log_dir.as_str());
    let mut wrote = "wrote ".to_owned();
    wrote.append(shown.plist.as_str());
    let mut logs = "logs: ".to_owned();
    logs.append(shown.log_dir.as_str());
    logs.append("/quadcastctl.{out,err}.log");
    let tasks = vec![
        Task::CreateDir { path: log_dir_below(log_home) },
        Task::CreateDir { path: agents_dir_below(plist_home) },
        Task::WriteFile { path: plist_below(plist_home), contents },
        Task::Print { line: wrote },
        Task::Launchctl { args: bootout_args(uid), required: false },
        Task::Bootstrap { domain: launchctl_domain(uid), plist: plist_below(plist_home) },
        Task::Launchctl { args: enable_args(uid), required: true },
        Task::Launchctl { args: cmd_restart(uid), required: true },
        Task::Print { line: "daemon installed and started.".to_owned() },
        Task::Print { line: logs },
    ];
    assert(crate::tasks::plan(tasks@) =~= install_plan(shown@, plist_home@, log_home@, uid));
    tasks
}

/// The tasks that install the agent for the program at `exe`, when the home directory is
/// `plist_home` for the property list and `log_home` for the logs.
pub fn cmd_install_in(
    exe: &[u8],
    plist_home: Option<Vec<u8>>,
    log_home: Option<Vec<u8>>,
    uid: u32,
) -> (r: Result<Vec<Task>, PathError>)
    ensures
        match (plist_home, log_home) {
            (Some(p), Some(l)) => r matches Ok(tasks) && crate::tasks::plan(tasks@) == install_plan(
                shown_paths(exe@, p@, l@),
                p@,
                l@,
                uid,
            ),
            _ => r == Err::<Vec<Task>, PathError>(PathError::NoHomeDir),
        },
{
    match (plist_home, log_home) {
        (Some(p), Some(l)) => {
            let shown = Shown {
                exe: path_text(exe),
                plist: path_text(plist_below(p.as_slice()).as_slice()),
                log_dir: path_text(log_dir_below(l.as_slice()).as_slice()),
            };
            Ok(install_tasks(shown, p.as_slice(), l.as_slice(), uid))
        },
        _ => Err(PathError::NoHomeDir),
    }
}

/// The tasks that install the agent for the program at `exe`.
pub fn cmd_install(exe: &[u8], uid: u32) -> (r: Result<Vec<Task>, PathError>)
    ensures
        match r {
            Ok(tasks) => exists|plist_home: Seq<u8>, log_home: Seq<u8>|
                plist_home.len() > 0 && log_home.len() > 0 && crate::tasks::plan(tasks@)
                    == #[trigger] install_plan(
                    shown_paths(exe@, plist_home, log_home),
                    plist_home,
                    log_home,
                    uid,
                ),
            Err(e) => e == PathError::NoHomeDir,
        },
{
    cmd_install_in(exe, user_home_dir(), user_home_dir(), uid)
}

/// The first task of removing the agent, and the property list that is then to be removed, when
/// `home` is the home directory.
pub fn cmd_uninstall_in(home: Option<Vec<u8>>, uid: u32) -> (r: Result<(Task, Vec<u8>), PathError>)
    ensures
        match home {
            Some(h) => r matches Ok((task, plist)) && task@ == bootout_task(uid) && plist@
                == plist_path(h@),
            None => r == Err::<(Task, Vec<u8>), PathError>(PathError::NoHomeDir),
        },
{
    match launchd_plist_path_in(home) {
        Ok(plist) => Ok((Task::Launchctl { args: bootout_args(uid), required: false }, plist)),
        Err(e) => Err(e),
    }
}

/// The first task of removing the agent, and the property list that is then to be removed.
pub fn cmd_uninstall(uid: u32) -> (r: Result<(Task, Vec<u8>), PathError>)
    ensures
        match r {
            Ok((task, plist)) => {
                &&& task@ == bootout_task(uid)
                &&& exists|home: Seq<u8>| home.len() > 0 && plist@ == #[trigger] plist_path(home)
            },
            Err(e) => e == PathError::NoHomeDir,
        },
{
    cmd_uninstall_in(user_home_dir(), uid)
}

/// The tasks that remove the property list `plist`, shown as `shown`, or say that it is not there.
pub fn removal_tasks(plist: Vec<u8>, shown: &str, present: bool) -> (tasks: Vec<Task>)
    ensures
        crate::tasks::plan(tasks@) == removal_plan(plist@, shown@, present),
        present ==> {
            &&& tasks@.len() == 2
            &&& tasks@[0] matches Task::RemoveFile { path } && path@ == plist@
            &&& tasks@[1] matches Task::Print { line } && line@ == "removed "@ + shown@
        },
        !present ==> {
            &&& tasks@.len() == 1
            &&& tasks@[0] matches Task::Print { line } && line@ == "plist not present at "@ + shown@
        },
{
    let tasks = if present {
        let mut removed = "removed ".to_owned();
        removed.append(shown);
        vec![Task::RemoveFile { path: plist }, Task::Print { line: removed }]
    } else {
        let mut absent = "plist not present at ".to_owned();
        absent.append(shown);
        vec![Task::Print { line: absent }]
    };
    assert(crate::tasks::plan(tasks@) =~= removal_plan(plist@, shown@, present));
    tasks
}

/// What comes of an installation. Taking out an old agent, whether it succeeds or not, never
/// matters. Once the property list is written, the installation fails if and only if bringing in
/// the agent, enabling it or starting it fails, and after the first of these that fails no more is
/// done. What was written is never removed.
pub proof fn law_install_outcome(
    shown: ShownView,
    plist_home: Seq<u8>,
    log_home: Seq<u8>,
    uid: u32,
    succeeded: Seq<bool>,
    bootout: bool,
)
    requires
        succeeded.len() == install_plan(shown, plist_home, log_home, uid).len(),
        crate::tasks::prints_succeed(install_plan(shown, plist_home, log_home, uid), succeeded),
    ensures
        ({
            let tasks = install_plan(shown, plist_home, log_home, uid);
            let (attempted, ok) = crate::tasks::plan_outcome(tasks, succeeded);
            let written = succeeded[0] && succeeded[1] && succeeded[2];
            &&& tasks[4] == bootout_task(uid)
            &&& forall|i: int|
                0 <= i < tasks.len() ==> (crate::tasks::is_optional(#[trigger] tasks[i]) <==> i
                    == 4)
            &&& crate::tasks::plan_outcome(tasks, succeeded.update(4, bootout)) == (attempted, ok)
            &&& tasks[5] is Bootstrap
            &&& tasks[6] == (TaskView::Launchctl {
                args: seq!["enable"@, target_text(uid)],
                required: true,
            })
            &&& tasks[7] == (TaskView::Launchctl {
                args: seq!["kickstart"@, "-k"@, target_text(uid)],
                required: true,
            })
            &&& ok <==> written && succeeded[5] && succeeded[6] && succeeded[7]
            &&& written && !succeeded[5] ==> attempted == 6
            &&& written && succeeded[5] && !succeeded[6] ==> attempted == 7
            &&& written && succeeded[5] && succeeded[6] && !succeeded[7] ==> attempted == 8
            &&& forall|i: int| 0 <= i < tasks.len() ==> (#[trigger] tasks[i]) !is RemoveFile
        }),
{
    let tasks = install_plan(shown, plist_home, log_home, uid);
    let (attempted, ok) = crate::tasks::plan_outcome(tasks, succeeded);
    crate::tasks::law_first_failure_ends_the_plan(tasks, succeeded);
    crate::tasks::law_optional_task_does_not_matter(tasks, succeeded, 4, bootout);
    assert(tasks[0] is CreateDir && tasks[1] is CreateDir && tasks[2] is WriteFile);
    assert(tasks[3] is Print && tasks[8] is Print && tasks[9] is Print);
}

/// What comes of removing the agent. Launchctl is run once, to take the agent out of the session,
/// and how that ends does not matter: removing fails if and only if the property list is there
/// and cannot be removed. If it succeeds, the property list is gone. No other file is touched.
pub proof fn law_uninstall_outcome(
    uid: u32,
    plist: Seq<u8>,
    shown: Seq<char>,
    present: bool,
    succeeded: Seq<bool>,
    bootout: bool,
)
    requires
        succeeded.len() == uninstall_plan(uid, plist, shown, present).len(),
        crate::tasks::prints_succeed(uninstall_plan(uid, plist, shown, present), succeeded),
    ensures
        ({
            let tasks = uninstall_plan(uid, plist, shown, present);
            let (attempted, ok) = crate::tasks::plan_outcome(tasks, succeeded);
            &&& tasks[0] == bootout_task(uid)
            &&& crate::tasks::plan_outcome(tasks, succeeded.update(0, bootout)) == (attempted, ok)
            &&& !ok <==> present && !succeeded[1]
            &&& ok ==> !present || crate::tasks::removes(tasks, succeeded, plist)
            &&& forall|i: int|
                1 <= i < tasks.len() ==> (#[trigger] tasks[i]) is Print || tasks[i] == (
                TaskView::RemoveFile { path: plist })
        }),
{
    let tasks = uninstall_plan(uid, plist, shown, present);
    crate::tasks::law_first_failure_ends_the_plan(tasks, succeeded);
    crate::tasks::law_optional_task_does_not_matter(tasks, succeeded, 0, bootout);
    if present {
        assert(tasks[1] == (TaskView::RemoveFile { path: plist }));
        assert(tasks[2] is Print);
    } else {
        assert(tasks[1] is Print);
    }
}

/// Removing the agent once more, right after it was removed, succeeds.
pub proof fn law_second_uninstall_succeeds(
    uid: u32,
    plist: Seq<u8>,
    shown: Seq<char>,
    present: bool,
    succeeded: Seq<bool>,
    again: Seq<bool>,
)
    requires
        succeeded.len() == uninstall_plan(uid, plist, shown, present).len(),
        crate::tasks::prints_succeed(uninstall_plan(uid, plist, shown, present), succeeded),
        crate::tasks::plan_outcome(uninstall_plan(uid, plist, shown, present), succeeded).1,
        again.len() == uninstall_plan(
            uid,
            plist,
            shown,
            present_after_uninstall(uid, plist, shown, present, succeeded),
        ).len(),
        crate::tasks::prints_succeed(
            uninstall_plan(
                uid,
                plist,
                shown,
                present_after_uninstall(uid, plist, shown, present, succeeded),
            ),
            again,
        ),
    ensures
        !present_after_uninstall(uid, plist, shown, present, succeeded),
        crate::tasks::plan_outcome(uninstall_plan(uid, plist, shown, false), again).1,
{
    law_uninstall_outcome(uid, plist, shown, present, succeeded, true);
    law_uninstall_outcome(uid, plist, shown, false, again, true);
}

/// The one file that an installation writes is the one that launchctl is handed and the one that
/// removing the agent removes.
pub proof fn law_removal_undoes_install(
    shown: ShownView,
    home: Seq<u8>,
    log_home: Seq<u8>,
    uid: u32,
    i: int,
)
    requires
        0 <= i < install_plan(shown, home, log_home, uid).len(),
    ensures
        ({
            let removal = removal_plan(plist_path(home), shown.plist, true);
            match install_plan(shown, home, log_home, uid)[i] {
                TaskView::WriteFile { path, .. } => removal[0] == (TaskView::RemoveFile { path }),
                TaskView::Bootstrap { plist, .. } => removal[0] == (TaskView::RemoveFile {
                    path: plist,
                }),
                _ => true,
            }
        }),
{
}

/// The agent that launchctl is told of is the one that the property list names.
pub proof fn law_target_is_the_listed_agent(exe: Seq<char>, log_dir: Seq<char>, uid: u32)
    ensures
        ({
            let start = PLIST_TO_LABEL@.len() as int;
            let listed = plist_text(exe, log_dir).subrange(start, start + LAUNCHD_LABEL@.len());
            target_text(uid) == domain_text(uid) + "/"@ + listed
        }),
{
    let start = PLIST_TO_LABEL@.len() as int;
    assert(plist_text(exe, log_dir).subrange(start, start + LAUNCHD_LABEL@.len())
        =~= LAUNCHD_LABEL@);
}

/// The agents of different users have different targets.
pub proof fn law_target_determines_user(a: u32, b: u32)
    requires
        target_text(a) == target_text(b),
    ensures
        a == b,
{
    let (x, y) = (crate::text::decimal(a as nat), crate::text::decimal(b as nat));
    let start = "gui/"@.len() as int;
    let rest = "/"@ + LAUNCHD_LABEL@;
    assert(target_text(a) =~= "gui/"@ + x + rest);
    assert(target_text(b) =~= "gui/"@ + y + rest);
    assert(x.len() == y.len());
    assert(x =~= target_text(a).subrange(start, start + x.len()));
    assert(y =~= target_text(b).subrange(start, start + y.len()));
    crate::text::law_decimal_is_injective(a as nat, b as nat);
}

/// The fixed parts of the property list, letter by letter.
pub proof fn law_fixed_parts()
    ensures
        LAUNCHD_LABEL@ == "com.miketineo.quadcastctl"@,
        PLIST_TO_LABEL@ == r#"<?xml version="1.0" encoding="UTF-8"?>
<!DOCTYPE plist PUBLIC "-//Apple//DTD PLIST 1.0//EN" "http://www.apple.com/DTDs/PropertyList-1.0.dtd">
<plist version="1.0">
<dict>
    <key>Label</key>
    <string>"#@,
        PLIST_TO_PROGRAM@ == r#"</string>
    <key>ProgramArguments</key>
    <array>
        <string>"#@,
        PLIST_TO_OUTPUT@ == r#"</string>
        <string>daemon</string>
    </array>
    <key>RunAtLoad</key>
    <true/>
    <key>KeepAlive</key>
    <dict>
        <key>SuccessfulExit</key>
        <false/>
    </dict>
    <key>ThrottleInterval</key>
    <integer>5</integer>
    <key>StandardOutPath</key>
    <string>"#@,
        PLIST_TO_ERRORS@ == r#"/quadcastctl.out.log</string>
    <key>StandardErrorPath</key>
    <string>"#@,
        PLIST_END@ == r#"/quadcastctl.err.log</string>
</dict>
</plist>
"#@,
{
}

/// The property list holds the label, the whole of the program and, twice, the whole of the
/// directory of the logs, each between its fixed parts, and nothing else.
pub proof fn law_plist_holds_its_paths(exe: Seq<char>, log_dir: Seq<char>)
    ensures
        ({
            let text = plist_text(exe, log_dir);
            let label = PLIST_TO_LABEL@.len() as int;
            let program = label + LAUNCHD_LABEL@.len() + PLIST_TO_PROGRAM@.len();
            let output = program + exe.len() + PLIST_TO_OUTPUT@.len();
            let errors = output + log_dir.len() + PLIST_TO_ERRORS@.len();
            let end = errors + log_dir.len();
            &&& text == PLIST_TO_LABEL@ + LAUNCHD_LABEL@ + PLIST_TO_PROGRAM@ + exe + PLIST_TO_OUTPUT@
                + log_dir + PLIST_TO_ERRORS@ + log_dir + PLIST_END@
            &&& text.len() == end + PLIST_END@.len()
            &&& text.subrange(0, label) == PLIST_TO_LABEL@
            &&& text.subrange(label, label + LAUNCHD_LABEL@.len()) == LAUNCHD_LABEL@
            &&& text.subrange(label + LAUNCHD_LABEL@.len(), program) == PLIST_TO_PROGRAM@
            &&& text.subrange(program, program + exe.len()) == exe
            &&& text.subrange(program + exe.len(), output) == PLIST_TO_OUTPUT@
            &&& text.subrange(output, output + log_dir.len()) == log_dir
            &&& text.subrange(output + log_dir.len(), errors) == PLIST_TO_ERRORS@
            &&& text.subrange(errors, end) == log_dir
            &&& text.subrange(end, end + PLIST_END@.len()) == PLIST_END@
        }),
{
}

/// The first `<` behind the fixed part before the program ends the program: a property list reads
/// back as the program and the directory of the logs that it was made for. Where a program may have
/// a `<`, which the property list does not escape, its length has to be known.
pub proof fn law_plist_determines_its_paths(
    exe: Seq<char>,
    log_dir: Seq<char>,
    other_exe: Seq<char>,
    other_log_dir: Seq<char>,
)
    requires
        plist_text(exe, log_dir) == plist_text(other_exe, other_log_dir),
        (!exe.contains('<') && !other_exe.contains('<')) || exe.len() == other_exe.len(),
    ensures
        exe == other_exe,
        log_dir == other_log_dir,
{
    law_plist_holds_its_paths(exe, log_dir);
    law_plist_holds_its_paths(other_exe, other_log_dir);
    let text = plist_text(exe, log_dir);
    let program: int = PLIST_TO_LABEL@.len() as int + LAUNCHD_LABEL@.len() + PLIST_TO_PROGRAM@.len();
    lemma_output_part_opens_with_a_tag();
    if exe.len() < other_exe.len() {
        let at = exe.len() as int;
        assert(text.subrange(program + at, program + at + PLIST_TO_OUTPUT@.len())[0] == '<');
        assert(text.subrange(program, program + other_exe.len())[at] == '<');
        assert(other_exe[at] == '<');
    }
    if other_exe.len() < exe.len() {
        let at = other_exe.len() as int;
        assert(text.subrange(program + at, program + at + PLIST_TO_OUTPUT@.len())[0] == '<');
        assert(text.subrange(program, program + exe.len())[at] == '<');
        assert(exe[at] == '<');
    }
}

proof fn lemma_output_part_opens_with_a_tag()
    ensures
        PLIST_TO_OUTPUT@.len() > 0,
        PLIST_TO_OUTPUT@[0] == '<',
{
    reveal_strlit(r#"</string>
        <string>daemon</string>
    </array>
    <key>RunAtLoad</key>
    <true/>
    <key>KeepAlive</key>
    <dict>
        <key>SuccessfulExit</key>
        <false/>
    </dict>
    <key>ThrottleInterval</key>
    <integer>5</integer>
    <key>StandardOutPath</key>
    <string>"#);
}

/// The files of the agent below the home directory, and what launchctl calls the session and the
/// agent.
pub proof fn law_agent_names(home: Seq<u8>, uid: u32)
    ensures
        agents_dir_path(home) == crate::paths::joined(home, "Library/LaunchAgents"@),
        plist_path(home) == crate::paths::joined(
            crate::paths::joined(home, "Library/LaunchAgents"@),
            "com.miketineo.quadcastctl"@ + ".plist"@,
        ),
        log_dir_path(home) == crate::paths::joined(home, "Library/Logs/quadcastctl"@),
        domain_text(uid) == "gui/"@ + crate::text::decimal(uid as nat),
        target_text(uid) == "gui/"@ + crate::text::decimal(uid as nat) + "/"@
            + "com.miketineo.quadcastctl"@,
{
}

/// An installation, step by step.
pub proof fn law_install_steps(
    shown: ShownView,
    plist_home: Seq<u8>,
    log_home: Seq<u8>,
    uid: u32,
)
    ensures
        ({
            let tasks = install_plan(shown, plist_home, log_home, uid);
            let target = "gui/"@ + crate::text::decimal(uid as nat) + "/"@
            + "com.miketineo.quadcastctl"@;
            &&& tasks.len() == 10
            &&& tasks[0] == (TaskView::CreateDir { path: log_dir_path(log_home) })
            &&& tasks[1] == (TaskView::CreateDir { path: agents_dir_path(plist_home) })
            &&& tasks[2] is WriteFile
            &&& tasks[2]->WriteFile_path == plist_path(plist_home)
            &&& tasks[2]->contents == PLIST_TO_LABEL@ + LAUNCHD_LABEL@ + PLIST_TO_PROGRAM@ + shown.exe
                + PLIST_TO_OUTPUT@ + shown.log_dir + PLIST_TO_ERRORS@ + shown.log_dir + PLIST_END@
            &&& tasks[3] == (TaskView::Print { line: "wrote "@ + shown.plist })
            &&& tasks[4] == (TaskView::Launchctl {
                args: seq!["bootout"@, target],
                required: false,
            })
            &&& tasks[5] == (TaskView::Bootstrap {
                domain: "gui/"@ + crate::text::decimal(uid as nat),
                plist: plist_path(plist_home),
            })
            &&& tasks[6] == (TaskView::Launchctl { args: seq!["enable"@, target], required: true })
            &&& tasks[7] == (TaskView::Launchctl {
                args: seq!["kickstart"@, "-k"@, target],
                required: true,
            })
            &&& tasks[8] == (TaskView::Print { line: "daemon installed and started."@ })
            &&& tasks[9] == (TaskView::Print {
                line: "logs: "@ + shown.log_dir + "/quadcastctl.{out,err}.log"@,
            })
        }),
{
}

/// A removal, step by step: the agent is taken out of the session first, and its property list
/// removed if it is there.
pub proof fn law_uninstall_steps(uid: u32, plist: Seq<u8>, shown: Seq<char>)
    ensures
        ({
            let there = uninstall_plan(uid, plist, shown, true);
            let gone = uninstall_plan(uid, plist, shown, false);
            let bootout = TaskView::Launchctl {
                args: seq![
                    "bootout"@,
                    "gui/"@ + crate::text::decimal(uid as nat) + "/"@
            + "com.miketineo.quadcastctl"@,
                ],
                required: false,
            };
            &&& bootout_task(uid) == bootout
            &&& there.len() == 3
            &&& there[0] == bootout
            &&& there[1] == (TaskView::RemoveFile { path: plist })
            &&& there[2] == (TaskView::Print { line: "removed "@ + shown })
            &&& gone.len() == 2
            &&& gone[0] == bootout
            &&& gone[1] == (TaskView::Print { line: "plist not present at "@ + shown })
            &&& removal_plan(plist, shown, true) == there.subrange(1, 3)
            &&& removal_plan(plist, shown, false) == gone.subrange(1, 2)
        }),
{
    let there = uninstall_plan(uid, plist, shown, true);
    let gone = uninstall_plan(uid, plist, shown, false);
    assert(removal_plan(plist, shown, true) =~= there.subrange(1, 3));
    assert(removal_plan(plist, shown, false) =~= gone.subrange(1, 2));
}

/// The property list is there after a removal if and only if it was before and removing it failed.
pub proof fn law_present_after_uninstall(
    uid: u32,
    plist: Seq<u8>,
    shown: Seq<char>,
    present: bool,
    succeeded: Seq<bool>,
)
    requires
        succeeded.len() == (if present {
            3int
        } else {
            2
        }),
    ensures
        present_after_uninstall(uid, plist, shown, present, succeeded) <==> present
            && !succeeded[1],
{
    let tasks = uninstall_plan(uid, plist, shown, present);
    crate::tasks::law_first_failure_ends_the_plan(tasks, succeeded);
    law_uninstall_steps(uid, plist, shown);
    if present {
        assert(crate::tasks::is_optional(tasks[0]));
        assert(tasks[1] == (TaskView::RemoveFile { path: plist }));
        assert(crate::tasks::goes_on(tasks[0], succeeded[0]));
        reveal_with_fuel(crate::tasks::outcome_from, 3);
        if crate::tasks::removes(tasks, succeeded, plist) {
            let i = choose|i: int|
                0 <= i < crate::tasks::plan_outcome(tasks, succeeded).0 && #[trigger] tasks[i] == (
                TaskView::RemoveFile { path: plist }) && succeeded[i];
            assert(i == 1);
        }
    }
}

/// What the texts shown of an installation are: those of its three paths.
pub proof fn law_shown_paths(exe: Seq<u8>, plist_home: Seq<u8>, log_home: Seq<u8>, shown: Shown)
    ensures
        shown_paths(exe, plist_home, log_home).exe == crate::paths::shown_text(exe),
        shown_paths(exe, plist_home, log_home).plist == crate::paths::shown_text(
            plist_path(plist_home),
        ),
        shown_paths(exe, plist_home, log_home).log_dir == crate::paths::shown_text(
            log_dir_path(log_home),
        ),
        shown@.exe == shown.exe@,
        shown@.plist == shown.plist@,
        shown@.log_dir == shown.log_dir@,
{
}

/// The error of a run of launchctl names all its arguments and how it ended.
pub proof fn law_launchctl_error_words(args: Seq<Seq<char>>, status: Seq<char>, list: Seq<char>)
    ensures
        failed_text(list, status) == "launchctl "@ + list + " failed: "@ + status,
        launchctl_error_message(args, status) == "launchctl "@ + ("["@
            + crate::text::comma_separated(
            Seq::new(args.len(), |i: int| crate::text::debug_quoted(args[i])),
        ) + "]"@) + " failed: "@ + status,
{
    assert(args.map_values(|s: Seq<char>| crate::text::debug_quoted(s)) =~= Seq::new(
        args.len(),
        |i: int| crate::text::debug_quoted(args[i]),
    ));
}

} // verus!
