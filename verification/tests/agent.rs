use quadcastctl::launchd::{
    bootstrap_args, cmd_install, cmd_install_in, cmd_restart, cmd_start, cmd_status, cmd_stop,
    cmd_uninstall, cmd_uninstall_in, install_tasks, launchctl_context, launchctl_domain,
    launchctl_failed, launchctl_target, launchd_log_dir, launchd_log_dir_in, launchd_plist_path,
    launchd_plist_path_in, removal_tasks, render_plist, run_launchctl, status_result, Shown,
};
use quadcastctl::paths::{
    config_dir, config_dir_in, config_path, config_path_in, path_text, PathError,
};
use quadcastctl::tasks::{go_on_after, Task};

const PLIST: &str = r#"<?xml version="1.0" encoding="UTF-8"?>
<!DOCTYPE plist PUBLIC "-//Apple//DTD PLIST 1.0//EN" "http://www.apple.com/DTDs/PropertyList-1.0.dtd">
<plist version="1.0">
<dict>
    <key>Label</key>
    <string>com.miketineo.quadcastctl</string>
    <key>ProgramArguments</key>
    <array>
        <string>/bin/quadcastctl</string>
        <string>daemon</string>
    </array>
    <key>RunAtLoad</key>
    <true/>
    <key>KeepAlive</key>
    <dict>
        <key>SuccessfulExit</key>
        <false/>
    </dict>
    <key>ThrottleInterval</key>
    <integer>5</integer>
    <key>StandardOutPath</key>
    <string>/logs/quadcastctl.out.log</string>
    <key>StandardErrorPath</key>
    <string>/logs/quadcastctl.err.log</string>
</dict>
</plist>
"#;

const TARGET: &str = "gui/501/com.miketineo.quadcastctl";

#[test]
fn plist_is_rendered() {
    assert_eq!(render_plist(b"/bin/quadcastctl", b"/logs"), PLIST);
}

#[test]
fn malformed_paths_are_shown_with_replacements() {
    assert_eq!(path_text(b"/a\xff/b"), "/a\u{fffd}/b");
    assert_eq!(path_text("/\u{e9}".as_bytes()), "/\u{e9}");
    assert!(render_plist(b"/\xff", b"/l").contains("<string>/\u{fffd}</string>"));
}

#[test]
fn domain_and_target() {
    assert_eq!(launchctl_domain(0), "gui/0");
    assert_eq!(launchctl_domain(u32::MAX), "gui/4294967295");
    assert_eq!(launchctl_target(501), TARGET);
}

#[test]
fn launchctl_arguments() {
    assert_eq!(cmd_start(501), ["kickstart", TARGET]);
    assert_eq!(cmd_stop(501), ["kill", "TERM", TARGET]);
    assert_eq!(cmd_restart(501), ["kickstart", "-k", TARGET]);
    assert_eq!(cmd_status(501), ["print", TARGET]);
    assert_eq!(bootstrap_args("gui/501", "/p"), ["bootstrap", "gui/501", "/p"]);
}

#[test]
fn launchctl_failure_names_its_arguments() {
    assert!(run_launchctl(cmd_start(501), true, "exit status: 0").is_ok());
    let args = vec!["a".to_string(), "b \"c\"".to_string()];
    assert_eq!(launchctl_context(&args), "running launchctl [\"a\", \"b \\\"c\\\"\"]");
    let e = run_launchctl(args, false, "exit status: 3").unwrap_err();
    assert_eq!(e.message(), "launchctl [\"a\", \"b \\\"c\\\"\"] failed: exit status: 3");
    assert_eq!(launchctl_failed("[x]", "s"), "launchctl [x] failed: s");
}

#[test]
fn status_failure() {
    assert!(status_result(true).is_ok());
    assert_eq!(
        status_result(false).unwrap_err().message(),
        "launchctl print failed (daemon may not be installed)"
    );
}

#[test]
fn paths_below_their_base() {
    assert_eq!(config_dir_in(Some(b"/c".to_vec())).unwrap(), b"/c/quadcastctl");
    assert_eq!(config_path_in(Some(b"/c".to_vec())).unwrap(), b"/c/quadcastctl/config.toml");
    assert_eq!(config_path_in(Some(b"/c/".to_vec())).unwrap(), b"/c/quadcastctl/config.toml");
    assert_eq!(config_path_in(Some(b"/".to_vec())).unwrap(), b"/quadcastctl/config.toml");
    assert_eq!(config_dir_in(Some(b"\xff".to_vec())).unwrap(), b"\xff/quadcastctl");
    assert_eq!(
        launchd_plist_path_in(Some(b"/h".to_vec())).unwrap(),
        b"/h/Library/LaunchAgents/com.miketineo.quadcastctl.plist"
    );
    assert_eq!(
        launchd_log_dir_in(Some(b"/h/".to_vec())).unwrap(),
        b"/h/Library/Logs/quadcastctl"
    );
}

#[test]
fn missing_bases() {
    assert_eq!(config_dir_in(None), Err(PathError::NoConfigDir));
    assert_eq!(config_path_in(None), Err(PathError::NoConfigDir));
    assert_eq!(launchd_plist_path_in(None), Err(PathError::NoHomeDir));
    assert_eq!(launchd_log_dir_in(None), Err(PathError::NoHomeDir));
    let home = || Some(b"/h".to_vec());
    assert_eq!(cmd_install_in(b"/e", None, home(), 1).unwrap_err(), PathError::NoHomeDir);
    assert_eq!(cmd_install_in(b"/e", home(), None, 1).unwrap_err(), PathError::NoHomeDir);
    assert_eq!(cmd_uninstall_in(None, 1).unwrap_err(), PathError::NoHomeDir);
    assert_eq!(PathError::NoConfigDir.message(), "no config dir on this platform");
    assert_eq!(PathError::NoHomeDir.message(), "no home dir");
}

#[test]
fn config_paths_follow_the_platform() {
    let base = dirs::config_dir().map(|p| p.into_os_string().into_encoded_bytes());
    assert_eq!(config_dir(), config_dir_in(base.clone()));
    assert_eq!(config_path(), config_path_in(base));
    let joined = dirs::config_dir().map(|p| p.join("quadcastctl").join("config.toml"));
    assert_eq!(config_path().ok(), joined.map(|p| p.into_os_string().into_encoded_bytes()));
}

#[test]
fn home_paths_follow_the_platform() {
    match dirs::home_dir() {
        Some(home) => {
            let plist = home.join("Library/LaunchAgents").join("com.miketineo.quadcastctl.plist");
            let logs = home.join("Library/Logs/quadcastctl");
            assert_eq!(launchd_plist_path().unwrap(), plist.into_os_string().into_encoded_bytes());
            assert_eq!(launchd_log_dir().unwrap(), logs.into_os_string().into_encoded_bytes());
        }
        None => {
            assert_eq!(launchd_plist_path(), Err(PathError::NoHomeDir));
            assert_eq!(launchd_log_dir(), Err(PathError::NoHomeDir));
        }
    }
}

fn is_print(task: &Task, text: &str) -> bool {
    matches!(task, Task::Print { line } if line == text)
}

fn is_launchctl(task: &Task, expected: &[&str], needed: bool) -> bool {
    matches!(task, Task::Launchctl { args, required } if args == expected && *required == needed)
}

#[test]
fn install_in_order() {
    let shown = Shown {
        exe: "/bin/quadcastctl".to_string(),
        plist: "PLIST".to_string(),
        log_dir: "/logs".to_string(),
    };
    let tasks = install_tasks(shown, b"/h", b"/l", 501);
    assert_eq!(tasks.len(), 10);
    assert!(matches!(&tasks[0], Task::CreateDir { path } if path == b"/l/Library/Logs/quadcastctl"));
    assert!(matches!(&tasks[1], Task::CreateDir { path } if path == b"/h/Library/LaunchAgents"));
    assert!(matches!(
        &tasks[2],
        Task::WriteFile { path, contents }
            if path == b"/h/Library/LaunchAgents/com.miketineo.quadcastctl.plist" && contents == PLIST
    ));
    assert!(is_print(&tasks[3], "wrote PLIST"));
    assert!(is_launchctl(&tasks[4], &["bootout", TARGET], false));
    assert!(matches!(
        &tasks[5],
        Task::Bootstrap { domain, plist }
            if domain == "gui/501" && plist == b"/h/Library/LaunchAgents/com.miketineo.quadcastctl.plist"
    ));
    assert!(is_launchctl(&tasks[6], &["enable", TARGET], true));
    assert!(is_launchctl(&tasks[7], &["kickstart", "-k", TARGET], true));
    assert!(is_print(&tasks[8], "daemon installed and started."));
    assert!(is_print(&tasks[9], "logs: /logs/quadcastctl.{out,err}.log"));
    for (i, task) in tasks.iter().enumerate() {
        assert!(go_on_after(task, true));
        assert_eq!(go_on_after(task, false), i == 4);
    }
}

#[test]
fn install_shows_real_paths() {
    match cmd_install(b"/bin/\xff", 7) {
        Ok(tasks) => {
            let plist = launchd_plist_path().unwrap();
            assert!(is_print(&tasks[3], &format!("wrote {}", path_text(&plist))));
            assert!(matches!(&tasks[2], Task::WriteFile { path, contents }
                if *path == plist && contents.contains("<string>/bin/\u{fffd}</string>")));
        }
        Err(e) => assert_eq!(e, PathError::NoHomeDir),
    }
}

#[test]
fn uninstall_removes_what_install_wrote() {
    match cmd_uninstall(501) {
        Ok((task, plist)) => {
            assert!(is_launchctl(&task, &["bootout", TARGET], false));
            assert!(go_on_after(&task, false));
            assert_eq!(plist, launchd_plist_path().unwrap());
        }
        Err(e) => assert_eq!(e, PathError::NoHomeDir),
    }
    let tasks = removal_tasks(b"/p".to_vec(), "/p", true);
    assert_eq!(tasks.len(), 2);
    assert!(matches!(&tasks[0], Task::RemoveFile { path } if path == b"/p"));
    assert!(is_print(&tasks[1], "removed /p"));
    let tasks = removal_tasks(b"/p".to_vec(), "/p", false);
    assert_eq!(tasks.len(), 1);
    assert!(is_print(&tasks[0], "plist not present at /p"));
}

#[test]
fn tasks_on_files_say_what_they_do() {
    let text = |task: Task| task.context();
    assert_eq!(text(Task::CreateDir { path: b"/d".to_vec() }).unwrap(), "creating /d");
    assert_eq!(
        text(Task::WriteFile { path: b"/\xff".to_vec(), contents: String::new() }).unwrap(),
        "writing /\u{fffd}"
    );
    assert_eq!(text(Task::RemoveFile { path: b"/d".to_vec() }).unwrap(), "removing /d");
    assert!(text(Task::Print { line: String::new() }).is_none());
}

#[test]
fn target_names_the_user_and_the_listed_agent() {
    assert_ne!(launchctl_target(1), launchctl_target(11));
    let plist = render_plist(b"/e", b"/l");
    let label = plist.split("<string>").nth(1).unwrap().split("</string>").next().unwrap();
    assert_eq!(launchctl_target(9), format!("{}/{}", launchctl_domain(9), label));
}

/// How many tasks are attempted, and whether the whole succeeds, when `fails` tells which fail.
fn outcome(tasks: &[Task], fails: impl Fn(usize) -> bool) -> (usize, bool) {
    for (i, task) in tasks.iter().enumerate() {
        if !go_on_after(task, !fails(i)) {
            return (i + 1, false);
        }
    }
    (tasks.len(), true)
}

#[test]
fn first_required_failure_ends_an_installation() {
    let shown = Shown { exe: String::new(), plist: String::new(), log_dir: String::new() };
    let tasks = install_tasks(shown, b"/h", b"/l", 501);
    assert_eq!(outcome(&tasks, |_| false), (10, true));
    assert_eq!(outcome(&tasks, |i| i == 4), (10, true));
    assert_eq!(outcome(&tasks, |i| i == 2), (3, false));
    assert_eq!(outcome(&tasks, |i| i >= 4), (6, false));
    assert_eq!(outcome(&tasks, |i| i >= 6), (7, false));
    assert_eq!(outcome(&tasks, |i| i == 7), (8, false));
    assert!(!tasks.iter().any(|t| matches!(t, Task::RemoveFile { .. })));
}

#[test]
fn removing_fails_only_on_a_file_that_stays() {
    let tasks = removal_tasks(b"/p".to_vec(), "/p", true);
    assert_eq!(outcome(&tasks, |i| i == 0), (1, false));
    assert_eq!(outcome(&tasks, |_| false), (2, true));
    let again = removal_tasks(b"/p".to_vec(), "/p", false);
    assert_eq!(outcome(&again, |_| false), (1, true));
}

#[test]
fn known_home_leads_to_tasks() {
    let home = |h: &[u8]| Some(h.to_vec());
    let tasks = cmd_install_in(b"/bin/quadcastctl", home(b"/h"), home(b"/\xc3\xa9"), 501).unwrap();
    assert_eq!(tasks.len(), 10);
    assert!(is_print(
        &tasks[3],
        "wrote /h/Library/LaunchAgents/com.miketineo.quadcastctl.plist"
    ));
    assert!(is_print(
        &tasks[9],
        "logs: /\u{e9}/Library/Logs/quadcastctl/quadcastctl.{out,err}.log"
    ));
    let (task, plist) = cmd_uninstall_in(home(b"/h"), 501).unwrap();
    assert!(is_launchctl(&task, &["bootout", TARGET], false));
    assert!(matches!(&tasks[2], Task::WriteFile { path, .. } if *path == plist));
}
