use vproxy::daemon::log::{LogAction, LogEvent, LogState, Output};
use vproxy::daemon::restart::{spinner_frame, RestartAction, RestartEvent, RestartState};
use vproxy::daemon::start::{Account, DaemonFile, StartAction, StartEvent, StartState};
use vproxy::daemon::status::{StatusReport, StatusRow};
use vproxy::daemon::stop::{signal_target, StopAction, StopEvent, StopState};
use vproxy::daemon::{Daemon, PidVerdict};
use vproxy::process::{Manager, ProcessInfo, ProcessTable};

fn process(name: &str, cmd: &str, parent: Option<u32>) -> ProcessInfo {
    ProcessInfo {
        parent,
        name: name.as_bytes().to_vec(),
        exe: None,
        cmd: vec![cmd.to_string()],
        memory: 2048,
        run_time: 77,
    }
}

#[test]
fn default_files() {
    let daemon = Daemon::default();
    assert_eq!(daemon.pid_file, "/var/run/vproxy.pid");
    assert_eq!(daemon.stdout_file, "/var/run/vproxy.out");
    assert_eq!(daemon.stderr_file, "/var/run/vproxy.err");
}

#[test]
fn pid_file_text() {
    assert_eq!(Daemon::pidfile_raw(Some("1234\n")), Some(1234));
    assert_eq!(Daemon::pidfile_raw(Some("  +7 ")), Some(7));
    assert_eq!(Daemon::pidfile_raw(Some("")), None);
    assert_eq!(Daemon::pidfile_raw(Some("12 34")), None);
    assert_eq!(Daemon::pidfile_raw(Some("4294967296")), None);
    assert_eq!(Daemon::pidfile_raw(None), None);
}

#[test]
fn pid_verdicts() {
    let mut table = ProcessTable::new();
    table.insert(5, process("vproxy", "vproxy run", None));
    table.insert(6, process("bash", "bash", None));
    assert_eq!(Daemon::verdict(5, &table), PidVerdict::Running);
    assert_eq!(Daemon::verdict(6, &table), PidVerdict::Foreign);
    assert_eq!(Daemon::verdict(7, &table), PidVerdict::Gone);
    let report = Daemon::pid(Some(5), &table, "\"vproxy\"");
    assert_eq!((report.running, report.message, report.removes_pid_file), (Some(5), None, false));
    let report = Daemon::pid(Some(6), &table, "\"bash\"");
    assert_eq!((report.running, report.removes_pid_file), (None, true));
    assert_eq!(
        report.message.unwrap(),
        "PID 6 exists but belongs to different process: \"bash\""
    );
    let report = Daemon::pid(Some(7), &table, "");
    assert_eq!((report.running, report.message, report.removes_pid_file), (None, None, true));
}

#[test]
fn no_pid_file_is_nothing_to_do() {
    let mut table = ProcessTable::new();
    table.insert(6, process("bash", "bash", None));
    assert!(Daemon::pid(Some(6), &table, "\"bash\"").removes_pid_file);
    let report = Daemon::pid(Daemon::pidfile_raw(None), &table, "\"bash\"");
    assert_eq!((report.running, report.message, report.removes_pid_file), (None, None, false));
}

#[test]
fn root_is_user_zero() {
    assert!(Daemon::root(0).is_ok());
    for uid in [1, 1000, u32::MAX] {
        assert_eq!(
            Daemon::root(uid).unwrap_err(),
            "You must run this executable with root permissions"
        );
    }
}

/// An error, known by its number.
type Failure = u8;

/// The configuration of a server.
type Config = &'static str;

fn start(
    daemon: &Daemon,
    state: StartState<Config>,
    event: StartEvent<Config, Failure>,
) -> (StartState<Config>, StartAction<Config, Failure>) {
    daemon.start(state, event).expect("the event answers the action")
}

#[test]
fn start_goes_through_all_steps() {
    let d = Daemon::default();
    let (s, a) = start(&d, StartState::Start, StartEvent::Begin { config: "config" });
    assert!(matches!(a, StartAction::ReadPid));
    let (s, a) = start(&d, s, StartEvent::Pid(None));
    assert!(matches!(a, StartAction::ReadUid));
    let (mut s, mut a) = start(&d, s, StartEvent::EffectiveUid(0));
    for file in ["/var/run/vproxy.pid", "/var/run/vproxy.out", "/var/run/vproxy.err"] {
        match a {
            StartAction::CreateFile { path, mode } => {
                assert_eq!(path, file);
                assert_eq!(mode, 0o755);
            }
            _ => panic!("a file is to be created"),
        }
        let next = start(&d, s, StartEvent::FileReady);
        s = next.0;
        a = next.1;
    }
    assert!(matches!(a, StartAction::ReadInvoker));
    let (s, a) = start(&d, s, StartEvent::Invoker(Some("alice".to_string())));
    assert!(matches!(a, StartAction::LookUpAccount { name } if name == "alice"));
    let account = Account { name: "alice".to_string(), gid: 1000 };
    let (s, a) = start(&d, s, StartEvent::Account(Some(account)));
    match a {
        StartAction::Launch(plan) => {
            assert_eq!(plan.pid_file, "/var/run/vproxy.pid");
            assert_eq!(plan.stdout_file, "/var/run/vproxy.out");
            assert_eq!(plan.stderr_file, "/var/run/vproxy.err");
            assert!(plan.chown_pid_file);
            assert_eq!(plan.umask, 0o777);
            let account = plan.account.unwrap();
            assert_eq!(account.name, "alice");
            assert_eq!(account.gid, 1000);
        }
        _ => panic!("the process is to be launched"),
    }
    let (s, a) = start(&d, s, StartEvent::Launched);
    assert!(matches!(a, StartAction::RunServer { config: "config" }));
    let (s, a) = start(&d, s, StartEvent::Served(Ok(())));
    assert!(matches!(a, StartAction::Return(Ok(()))));
    assert!(matches!(s, StartState::Finished));
    assert!(d.start(s, StartEvent::<Config, Failure>::Begin { config: "late" }).is_none());
}

#[test]
fn start_leaves_a_running_daemon_alone() {
    let d = Daemon::default();
    let (s, a) = start(&d, StartState::AwaitPid { config: "config" }, StartEvent::Pid(Some(42)));
    assert!(matches!(s, StartState::Finished));
    match a {
        StartAction::Announce { message } => {
            assert_eq!(message, "vproxy is already running with pid: 42")
        }
        _ => panic!("a message is to be printed"),
    }
}

#[test]
fn start_after_stop_is_not_refused() {
    let d = Daemon::default();
    let mut table = ProcessTable::new();
    table.insert(42, process("vproxy", "vproxy run", None));
    let found = Daemon::pid(Daemon::pidfile_raw(None), &table, "").running;
    let (s, a) = start(&d, StartState::AwaitPid { config: "config" }, StartEvent::Pid(found));
    assert!(matches!(a, StartAction::ReadUid));
    let (_, a) = start(&d, s, StartEvent::EffectiveUid(0));
    assert!(matches!(a, StartAction::CreateFile { .. }));
}

#[test]
fn start_needs_root() {
    let d = Daemon::default();
    let (s, a) = start(&d, StartState::AwaitUid { config: "config" }, StartEvent::EffectiveUid(1000));
    assert!(matches!(s, StartState::Finished));
    match a {
        StartAction::Exit { message, on_stderr, code } => {
            assert_eq!(message, "You must run this executable with root permissions");
            assert!(!on_stderr);
            assert_eq!(code, -1);
        }
        _ => panic!("the command is to exit"),
    }
}

#[test]
fn start_without_sudo_and_with_errors() {
    let d = Daemon::default();
    let (_, a) = start(&d, StartState::AwaitInvoker { config: "config" }, StartEvent::Invoker(None));
    assert!(matches!(a, StartAction::Launch(plan) if plan.account.is_none()));
    let (_, a) = start(&d, StartState::AwaitAccount { config: "config" }, StartEvent::Account(None));
    assert!(matches!(a, StartAction::Launch(plan) if plan.account.is_none()));
    let (s, a) = start(
        &d,
        StartState::AwaitFile { file: DaemonFile::Stdout, config: "config" },
        StartEvent::FileFailed(13),
    );
    assert!(matches!(a, StartAction::Return(Err(13))));
    assert!(matches!(s, StartState::Finished));
    let (_, a) = start(&d, StartState::Serving, StartEvent::Served(Err(98)));
    assert!(matches!(a, StartAction::Return(Err(98))));
    let failed = StartEvent::LaunchFailed("no fork".to_string());
    let (_, a) = start(&d, StartState::AwaitLaunch { config: "config" }, failed);
    match a {
        StartAction::Exit { message, on_stderr, code } => {
            assert_eq!(message, "Error: no fork");
            assert!(on_stderr);
            assert_eq!(code, -1);
        }
        _ => panic!("the command is to exit"),
    }
    assert!(d.start(StartState::Start, StartEvent::<Config, Failure>::Launched).is_none());
}

/// Runs `stop` to its end; every interrupt up to the given one succeeds.
fn stop_run(pid: Option<u32>, interrupts_sent: usize) -> (usize, usize, usize) {
    let d = Daemon::default();
    let (mut interrupts, mut pauses, mut removals) = (0, 0, 0);
    let mut state = StopState::Start;
    let mut event = StopEvent::Begin;
    loop {
        let (next, action) = d.stop(state, event).expect("the event answers the action");
        state = next;
        event = match action {
            StopAction::ReadUid => StopEvent::EffectiveUid(0),
            StopAction::ReadPid => StopEvent::Pid(pid),
            StopAction::Interrupt { target } => {
                assert_eq!(target, pid.unwrap() as i32);
                interrupts += 1;
                if interrupts <= interrupts_sent {
                    StopEvent::SignalSent
                } else {
                    StopEvent::SignalFailed
                }
            }
            StopAction::Pause { secs } => {
                assert_eq!(secs, 1);
                pauses += 1;
                StopEvent::Paused
            }
            StopAction::RemoveFile { path } => {
                assert_eq!(path, "/var/run/vproxy.pid");
                removals += 1;
                StopEvent::Removed
            }
            StopAction::Exit { .. } => panic!("root permissions were there"),
            StopAction::Done { warning } => {
                assert!(warning.is_none());
                assert_eq!(state, StopState::Finished);
                return (interrupts, pauses, removals);
            }
        };
    }
}

#[test]
fn stop_interrupts_until_the_process_is_gone() {
    assert_eq!(stop_run(None, 0), (0, 0, 1));
    assert_eq!(stop_run(Some(9), 0), (1, 0, 1));
    assert_eq!(stop_run(Some(9), 3), (4, 3, 1));
    assert_eq!(stop_run(Some(9), 359), (360, 359, 1));
    assert_eq!(stop_run(Some(9), 10_000), (360, 360, 1));
}

#[test]
fn a_second_stop_does_nothing() {
    assert_eq!(stop_run(Some(9), 3), (4, 3, 1));
    let found = Daemon::pid(Daemon::pidfile_raw(None), &ProcessTable::new(), "").running;
    assert_eq!(stop_run(found, 3), (0, 0, 1));
}

#[test]
fn stop_needs_root() {
    let d = Daemon::default();
    match d.stop(StopState::AwaitUid, StopEvent::EffectiveUid(7)) {
        Some((StopState::Finished, StopAction::Exit { message, code })) => {
            assert_eq!(message, "You must run this executable with root permissions");
            assert_eq!(code, -1);
        }
        _ => panic!("the command is to exit"),
    }
    assert!(d.stop(StopState::Start, StopEvent::Removed).is_none());
}

#[test]
fn stop_reports_a_pid_file_that_stays() {
    let d = Daemon::default();
    let failed = StopEvent::RemoveFailed { not_found: false, reason: "busy".to_string() };
    match d.stop(StopState::Removing, failed) {
        Some((_, StopAction::Done { warning })) => {
            assert_eq!(warning.unwrap(), "failed to remove pid file: busy")
        }
        _ => panic!("the command is done"),
    }
    let gone = StopEvent::RemoveFailed { not_found: true, reason: "gone".to_string() };
    match d.stop(StopState::Removing, gone) {
        Some((_, StopAction::Done { warning })) => assert!(warning.is_none()),
        _ => panic!("the command is done"),
    }
}

#[test]
fn signal_targets_wrap() {
    for pid in [0, 1, 4242, 0x7fff_ffff, 0x8000_0000, u32::MAX] {
        assert_eq!(signal_target(pid), pid as i32);
    }
}

#[test]
fn restart_spins_thirty_frames() {
    let d = Daemon::default();
    let mut shown: Vec<String> = Vec::new();
    let mut slept = 0;
    let mut state = RestartState::Start;
    let mut event: RestartEvent<Config, Failure> = RestartEvent::Begin { config: "config" };
    let mut stopped = false;
    let mut started = false;
    loop {
        let (next, action) = d.restart(state, event).expect("the event answers the action");
        state = next;
        event = match action {
            RestartAction::RunStop => {
                stopped = true;
                RestartEvent::Stopped
            }
            RestartAction::Show { text } => {
                shown.push(text);
                RestartEvent::Shown
            }
            RestartAction::Pause { millis } => {
                slept += millis;
                RestartEvent::Paused
            }
            RestartAction::RunStart { config } => {
                assert_eq!(config, "config");
                started = true;
                RestartEvent::Started(Err(7))
            }
            RestartAction::Return(result) => {
                assert_eq!(result, Err(7));
                break;
            }
        };
    }
    assert!(stopped && started);
    assert_eq!(slept, 3000);
    assert_eq!(shown.len(), 31);
    assert_eq!(shown[0..5], ["\r|", "\r/", "\r-", "\r\\", "\r|"]);
    assert_eq!(shown[29], "\r/");
    assert_eq!(shown[30], "\r \r");
    assert_eq!(spinner_frame(3), "\r\\");
}

#[test]
fn restart_passes_errors_on() {
    let d = Daemon::default();
    for (state, event) in [
        (RestartState::AwaitStop { config: "config" }, RestartEvent::StopFailed(1)),
        (RestartState::Showing { frame: 3, config: "config" }, RestartEvent::ShowFailed(1)),
        (RestartState::Clearing { config: "config" }, RestartEvent::ShowFailed(1)),
        (RestartState::AwaitStart, RestartEvent::Started(Err(1))),
    ] {
        assert!(matches!(
            d.restart(state, event),
            Some((RestartState::Finished, RestartAction::Return(Err(1))))
        ));
    }
    let late: RestartEvent<Config, Failure> = RestartEvent::Begin { config: "late" };
    assert!(d.restart(RestartState::Finished, late).is_none());
}

enum Line {
    Text(&'static str),
    Broken(&'static str),
}

/// Runs `log` over the two files, `None` for one that is missing.
fn log_run(stdout: Option<Vec<Line>>, stderr: Option<Vec<Line>>) -> Vec<String> {
    let d = Daemon::default();
    let mut printed: Vec<String> = Vec::new();
    let mut files = vec![stderr, stdout];
    let mut current: Option<Vec<Line>> = None;
    let mut state = LogState::Start;
    let mut event: LogEvent<Failure> = LogEvent::Begin;
    loop {
        let (next, action) = d.log(state, event).expect("the event answers the action");
        state = next;
        event = match action {
            LogAction::CheckExists { path } => {
                current = files.pop().unwrap();
                let expected = if files.len() == 1 { d.stdout_file.as_str() } else { d.stderr_file.as_str() };
                assert_eq!(path, expected);
                LogEvent::Exists(current.is_some())
            }
            LogAction::ReadLength { .. } => LogEvent::Length(current.as_ref().unwrap().len() as u64),
            LogAction::Open { .. } => LogEvent::Opened,
            LogAction::ReadLine { print } => {
                for line in print {
                    match line {
                        Output::Stdout(text) => printed.push(format!("out {}", text)),
                        Output::Stderr(text) => printed.push(format!("err {}", text)),
                    }
                }
                let lines = current.as_mut().unwrap();
                if lines.is_empty() {
                    LogEvent::EndOfFile
                } else {
                    match lines.remove(0) {
                        Line::Text(text) => LogEvent::Line(text.to_string()),
                        Line::Broken(reason) => LogEvent::LineFailed(reason.to_string()),
                    }
                }
            }
            LogAction::Return(result) => {
                assert_eq!(result, Ok(()));
                return printed;
            }
        };
    }
}

#[test]
fn log_prints_each_file_under_its_heading() {
    let printed = log_run(
        Some(vec![Line::Text("one"), Line::Text("two")]),
        Some(vec![Line::Broken("bad"), Line::Text("three"), Line::Broken("worse"), Line::Text("four")]),
    );
    assert_eq!(
        printed,
        vec![
            "out STDOUT>", "out one", "out two", "err Error reading line: bad", "out STDERR>",
            "out three", "err Error reading line: worse", "out four",
        ]
    );
}

#[test]
fn log_passes_over_missing_and_empty_files() {
    assert!(log_run(None, None).is_empty());
    assert!(log_run(Some(vec![]), None).is_empty());
    assert_eq!(log_run(None, Some(vec![Line::Text("x")])), vec!["out STDERR>", "out x"]);
    assert_eq!(log_run(Some(vec![Line::Broken("b")]), None), vec!["err Error reading line: b"]);
}

#[test]
fn log_passes_errors_on() {
    let d = Daemon::default();
    let file = vproxy::daemon::log::LogFile::Stdout;
    for state in [LogState::AwaitLength(file), LogState::AwaitOpen(file)] {
        assert!(matches!(
            d.log(state, LogEvent::Failed(2)),
            Some((LogState::Finished, LogAction::Return(Err(2))))
        ));
    }
    assert!(d.log(LogState::Start, LogEvent::<Failure>::EndOfFile).is_none());
}

#[test]
fn status_lists_by_pid() {
    let mut table = ProcessTable::new();
    table.insert(300, process("vproxy", "vproxy run", Some(2)));
    table.insert(10, process("vproxy", "vproxy run", Some(1)));
    table.insert(200, process("vproxy", "vproxy run", Some(1)));
    table.insert(2, process("node", "PM2 v5: God Daemon", Some(1)));
    table.insert(1, process("init", "/sbin/init", None));
    let d = Daemon::default();
    match d.status(Some(200), &table) {
        StatusReport::Running { header, rows } => {
            assert_eq!(
                header,
                format!("{:<8} {:<10} {:<8} {:<10} {:<8}", "PID", "MANAGER", "CPU(%)", "MEM(MB)", "RUN(s)")
            );
            let row = |pid: u32, manager: Manager| StatusRow { pid, manager, memory: 2048, run_time: 77 };
            assert_eq!(
                rows,
                vec![row(10, Manager::Direct), row(200, Manager::Daemon), row(300, Manager::Pm2)]
            );
            assert_eq!(
                rows[1].line("0.5", "12.0"),
                format!("200 {:<10} {:<8.1} {:<10.1} {:<8}", "daemon", 0.5, 12.0, 77)
            );
            let pid = sysinfo::Pid::from_u32(200);
            assert_eq!(
                rows[1].line("0.5", "12.0"),
                format!("{:<8} {:<10} {:<8.1} {:<10.1} {:<8}", pid, "daemon", 0.5, 12.0, 77)
            );
        }
        StatusReport::NotRunning { .. } => panic!("three processes run"),
    }
}

#[test]
fn status_trusts_the_pid_file_only_for_vproxy() {
    let mut table = ProcessTable::new();
    table.insert(3, process("vproxy", "vproxy run", None));
    table.insert(4, process("bash", "bash", None));
    let d = Daemon::default();
    for pidfile in [None, Some(4), Some(5)] {
        match d.status(pidfile, &table) {
            StatusReport::Running { rows, .. } => {
                assert_eq!(rows.len(), 1);
                assert_eq!(rows[0].manager, Manager::Direct);
            }
            StatusReport::NotRunning { .. } => panic!("a process runs"),
        }
    }
}

#[test]
fn status_of_nothing() {
    let mut table = ProcessTable::new();
    table.insert(4, process("bash", "bash", None));
    match Daemon::default().status(Some(4), &table) {
        StatusReport::NotRunning { message } => assert_eq!(message, "vproxy is not running"),
        StatusReport::Running { .. } => panic!("nothing runs"),
    }
}
