//! The `start` command: go into the background, once, as root.

use vstd::prelude::*;
use vstd::string::*;

use crate::daemon::{is_pid_report, Daemon, PidReport, EXIT_FAILURE, ROOT_REQUIRED};
use crate::process::{ProcessInfo, BIN_NAME};
use crate::run::Run;
use crate::text::{decimal, joined, to_decimal};

verus! {

/// Permissions of the files that the daemon creates.
pub const FILE_MODE: u32 = 0o755;

/// File mode mask of the daemon.
pub const DAEMON_UMASK: u32 = 0o777;

/// A file that the daemon creates before it starts.
#[derive(Clone, Copy, PartialEq, Eq, Structural, Debug)]
pub enum DaemonFile {
    Pid,
    Stdout,
    Stderr,
}

impl Daemon {
    /// The path of a file of the daemon.
    pub open spec fn path_of(self, file: DaemonFile) -> Seq<char> {
        match file {
            DaemonFile::Pid => self.pid_file@,
            DaemonFile::Stdout => self.stdout_file@,
            DaemonFile::Stderr => self.stderr_file@,
        }
    }

    /// Returns the path of a file of the daemon.
    pub fn path(&self, file: DaemonFile) -> (r: String)
        ensures
            r@ == self.path_of(file),
    {
        match file {
            DaemonFile::Pid => self.pid_file.clone(),
            DaemonFile::Stdout => self.stdout_file.clone(),
            DaemonFile::Stderr => self.stderr_file.clone(),
        }
    }
}

/// A user of the machine.
pub struct Account {
    pub name: String,
    pub gid: u32,
}

/// How the process goes into the background.
pub struct LaunchPlan {
    pub pid_file: String,
    pub chown_pid_file: bool,
    pub umask: u32,
    pub stdout_file: String,
    pub stderr_file: String,
    /// The user, with their group, that the daemon runs as; root if there is none.
    pub account: Option<Account>,
}

/// How far `start` has come. `B` is the configuration of the server, kept until the
/// server runs.
pub enum StartState<B> {
    Start,
    AwaitPid { config: B },
    AwaitUid { config: B },
    AwaitFile { file: DaemonFile, config: B },
    AwaitInvoker { config: B },
    AwaitAccount { config: B },
    AwaitLaunch { config: B },
    /// The server runs.
    Serving,
    Finished,
}

/// What happened. `E` is an error.
pub enum StartEvent<B, E> {
    /// The command was given, with the configuration of the server.
    Begin { config: B },
    /// The process id of a daemon that runs already.
    Pid(Option<u32>),
    EffectiveUid(u32),
    /// The file was created and has its permissions.
    FileReady,
    FileFailed(E),
    /// The user who became root by `sudo`.
    Invoker(Option<String>),
    /// The account of that user.
    Account(Option<Account>),
    Launched,
    /// The reason why the process could not go into the background.
    LaunchFailed(String),
    /// What the server returned.
    Served(Result<(), E>),
}

/// What to do next.
pub enum StartAction<B, E> {
    ReadPid,
    ReadUid,
    /// Create the file, or empty it, and set its permissions.
    CreateFile { path: String, mode: u32 },
    ReadInvoker,
    LookUpAccount { name: String },
    Launch(LaunchPlan),
    /// Print the message; the command has succeeded.
    Announce { message: String },
    /// Print the message on standard output, or on standard error, and exit.
    Exit { message: String, on_stderr: bool, code: i32 },
    /// Run the server with the configuration.
    RunServer { config: B },
    /// Return the result of the command.
    Return(Result<(), E>),
}

pub open spec fn already_running_text(pid: u32) -> Seq<char> {
    BIN_NAME@ + " is already running with pid: "@ + decimal(pid as nat)
}

pub open spec fn launch_failed_text(reason: Seq<char>) -> Seq<char> {
    "Error: "@ + reason
}

pub open spec fn creates<B, E>(
    d: Daemon,
    file: DaemonFile,
    config: B,
    r: Option<(StartState<B>, StartAction<B, E>)>,
) -> bool {
    &&& r matches Some(next)
    &&& next.0 == (StartState::<B>::AwaitFile { file, config })
    &&& next.1 matches StartAction::CreateFile { path, mode }
    &&& path@ == d.path_of(file)
    &&& mode == FILE_MODE
}

pub open spec fn launches<B, E>(
    d: Daemon,
    account: Option<Account>,
    config: B,
    r: Option<(StartState<B>, StartAction<B, E>)>,
) -> bool {
    &&& r matches Some(next)
    &&& next.0 == (StartState::<B>::AwaitLaunch { config })
    &&& next.1 matches StartAction::Launch(plan)
    &&& plan.pid_file@ == d.pid_file@
    &&& plan.chown_pid_file
    &&& plan.umask == DAEMON_UMASK
    &&& plan.stdout_file@ == d.stdout_file@
    &&& plan.stderr_file@ == d.stderr_file@
    &&& plan.account == account
}

pub open spec fn start_exits<B, E>(
    message: Seq<char>,
    stderr: bool,
    r: Option<(StartState<B>, StartAction<B, E>)>,
) -> bool {
    &&& r matches Some(next)
    &&& next.0 is Finished
    &&& next.1 matches StartAction::Exit { message: m, on_stderr, code }
    &&& m@ == message
    &&& on_stderr == stderr
    &&& code == EXIT_FAILURE
}

/// `r` is the step that `event` takes `start` in `state`; none, if the event is
/// not an answer to what was asked for.
pub open spec fn start_step<B, E>(
    d: Daemon,
    state: StartState<B>,
    event: StartEvent<B, E>,
    r: Option<(StartState<B>, StartAction<B, E>)>,
) -> bool {
    match (state, event) {
        (StartState::Start, StartEvent::Begin { config }) => r == Some(
            (StartState::AwaitPid { config }, StartAction::<B, E>::ReadPid),
        ),
        (StartState::AwaitPid { .. }, StartEvent::Pid(Some(pid))) => {
            &&& r matches Some(next)
            &&& next.0 is Finished
            &&& next.1 matches StartAction::Announce { message }
            &&& message@ == already_running_text(pid)
        },
        (StartState::AwaitPid { config }, StartEvent::Pid(None)) => r == Some(
            (StartState::AwaitUid { config }, StartAction::<B, E>::ReadUid),
        ),
        (StartState::AwaitUid { config }, StartEvent::EffectiveUid(uid)) => if uid == 0 {
            creates(d, DaemonFile::Pid, config, r)
        } else {
            start_exits(ROOT_REQUIRED@, false, r)
        },
        (StartState::AwaitFile { file, config }, StartEvent::FileReady) => match file {
            DaemonFile::Pid => creates(d, DaemonFile::Stdout, config, r),
            DaemonFile::Stdout => creates(d, DaemonFile::Stderr, config, r),
            DaemonFile::Stderr => r == Some(
                (StartState::AwaitInvoker { config }, StartAction::<B, E>::ReadInvoker),
            ),
        },
        (StartState::AwaitFile { .. }, StartEvent::FileFailed(error)) => r == Some(
            (StartState::<B>::Finished, StartAction::<B, E>::Return(Err(error))),
        ),
        (StartState::AwaitInvoker { config }, StartEvent::Invoker(Some(user))) => {
            &&& r matches Some(next)
            &&& next.0 == (StartState::<B>::AwaitAccount { config })
            &&& next.1 matches StartAction::LookUpAccount { name }
            &&& name@ == user@
        },
        (StartState::AwaitInvoker { config }, StartEvent::Invoker(None)) => launches(
            d,
            None,
            config,
            r,
        ),
        (StartState::AwaitAccount { config }, StartEvent::Account(account)) => launches(
            d,
            account,
            config,
            r,
        ),
        (StartState::AwaitLaunch { config }, StartEvent::Launched) => r == Some(
            (StartState::<B>::Serving, StartAction::<B, E>::RunServer { config }),
        ),
        (StartState::AwaitLaunch { .. }, StartEvent::LaunchFailed(reason)) => start_exits(
            launch_failed_text(reason@),
            true,
            r,
        ),
        (StartState::Serving, StartEvent::Served(result)) => r == Some(
            (StartState::<B>::Finished, StartAction::<B, E>::Return(result)),
        ),
        _ => r is None,
    }
}

impl Daemon {
    fn launch<B, E>(&self, account: Option<Account>, config: B) -> (r: Option<
        (StartState<B>, StartAction<B, E>),
    >)
        ensures
            launches(*self, account, config, r),
    {
        let plan = LaunchPlan {
            pid_file: self.pid_file.clone(),
            chown_pid_file: true,
            umask: DAEMON_UMASK,
            stdout_file: self.stdout_file.clone(),
            stderr_file: self.stderr_file.clone(),
            account,
        };
        Some((StartState::AwaitLaunch { config }, StartAction::Launch(plan)))
    }

    fn create<B, E>(&self, file: DaemonFile, config: B) -> (r: Option<
        (StartState<B>, StartAction<B, E>),
    >)
        ensures
            creates(*self, file, config, r),
    {
        Some(
            (
                StartState::AwaitFile { file, config },
                StartAction::CreateFile { path: self.path(file), mode: FILE_MODE },
            ),
        )
    }

    /// Starts the daemon: one step of the command.
    pub fn start<B, E>(&self, state: StartState<B>, event: StartEvent<B, E>) -> (r: Option<
        (StartState<B>, StartAction<B, E>),
    >)
        ensures
            start_step(*self, state, event, r),
    {
        match (state, event) {
            (StartState::Start, StartEvent::Begin { config }) => Some(
                (StartState::AwaitPid { config }, StartAction::ReadPid),
            ),
            (StartState::AwaitPid { .. }, StartEvent::Pid(Some(pid))) => {
                let mut message = joined(BIN_NAME, " is already running with pid: ");
                message.append(to_decimal(pid as u64).as_str());
                Some((StartState::Finished, StartAction::Announce { message }))
            },
            (StartState::AwaitPid { config }, StartEvent::Pid(None)) => Some(
                (StartState::AwaitUid { config }, StartAction::ReadUid),
            ),
            (StartState::AwaitUid { config }, StartEvent::EffectiveUid(uid)) => {
                match Daemon::root(uid) {
                    Ok(_) => self.create(DaemonFile::Pid, config),
                    Err(message) => Some(
                        (
                            StartState::Finished,
                            StartAction::Exit { message, on_stderr: false, code: EXIT_FAILURE },
                        ),
                    ),
                }
            },
            (StartState::AwaitFile { file, config }, StartEvent::FileReady) => match file {
                DaemonFile::Pid => self.create(DaemonFile::Stdout, config),
                DaemonFile::Stdout => self.create(DaemonFile::Stderr, config),
                DaemonFile::Stderr => Some(
                    (StartState::AwaitInvoker { config }, StartAction::ReadInvoker),
                ),
            },
            (StartState::AwaitFile { .. }, StartEvent::FileFailed(error)) => Some(
                (StartState::Finished, StartAction::Return(Err(error))),
            ),
            (StartState::AwaitInvoker { config }, StartEvent::Invoker(Some(name))) => Some(
                (StartState::AwaitAccount { config }, StartAction::LookUpAccount { name }),
            ),
            (StartState::AwaitInvoker { config }, StartEvent::Invoker(None)) => self.launch(
                None,
                config,
            ),
            (StartState::AwaitAccount { config }, StartEvent::Account(account)) => self.launch(
                account,
                config,
            ),
            (StartState::AwaitLaunch { config }, StartEvent::Launched) => Some(
                (StartState::Serving, StartAction::RunServer { config }),
            ),
            (StartState::AwaitLaunch { .. }, StartEvent::LaunchFailed(reason)) => Some(
                (
                    StartState::Finished,
                    StartAction::Exit {
                        message: joined("Error: ", reason.as_str()),
                        on_stderr: true,
                        code: EXIT_FAILURE,
                    },
                ),
            ),
            (StartState::Serving, StartEvent::Served(result)) => Some(
                (StartState::Finished, StartAction::Return(result)),
            ),
            _ => None,
        }
    }
}

// ----- laws -----

pub type StartRun<B, E> = Run<StartState<B>, StartEvent<B, E>, StartAction<B, E>>;

/// `run` is a run of `start` on the daemon `d`.
pub open spec fn is_start_run<B, E>(d: Daemon, run: StartRun<B, E>) -> bool {
    &&& run.begins_in(StartState::Start)
    &&& forall|i: int|
        0 <= i < run.len() ==> start_step(
            d,
            run.states[i],
            run.events[i],
            #[trigger] run.step(i),
        )
}

/// The action changes the machine: it writes a file, leaves the foreground or serves.
pub open spec fn has_effect<B, E>(action: StartAction<B, E>) -> bool {
    action is CreateFile || action is Launch || action is RunServer
}

/// The given file is being made.
pub open spec fn awaits_file<B>(state: StartState<B>, file: DaemonFile) -> bool {
    state matches StartState::AwaitFile { file: awaited, .. } && awaited == file
}

/// The state is reached only with root permissions.
pub open spec fn is_privileged<B>(state: StartState<B>) -> bool {
    ||| state is AwaitFile
    ||| state is AwaitInvoker
    ||| state is AwaitAccount
    ||| state is AwaitLaunch
}

/// By step `i` no daemon was running and root permissions were found.
pub open spec fn cleared<B, E>(run: StartRun<B, E>, i: int) -> bool {
    &&& i >= 2
    &&& run.events[1] == StartEvent::<B, E>::Pid(None)
    &&& run.events[2] == StartEvent::<B, E>::EffectiveUid(0)
}

proof fn lemma_start_positions<B, E>(d: Daemon, run: StartRun<B, E>, i: int)
    requires
        is_start_run(d, run),
        0 <= i <= run.len(),
    ensures
        run.states[i] is Start ==> i == 0,
        run.states[i] is AwaitPid ==> i == 1,
        run.states[i] is AwaitUid ==> i == 2 && run.events[1] == StartEvent::<B, E>::Pid(None),
        is_privileged(run.states[i]) ==> i >= 3 && cleared(run, i - 1),
        i == 0 ==> run.states[i] is Start,
    decreases i,
{
    if i > 0 {
        lemma_start_positions(d, run, i - 1);
        assert(start_step(d, run.states[i - 1], run.events[i - 1], run.step(i - 1)));
    }
}

/// Nothing is written, launched or served unless, before it, no running daemon
/// was found and then root permissions were.
pub proof fn law_start_clears_first<B, E>(d: Daemon, run: StartRun<B, E>, i: int)
    requires
        is_start_run(d, run),
        0 <= i < run.len(),
        has_effect(run.actions[i]),
    ensures
        cleared(run, i),
{
    lemma_start_positions(d, run, i);
    assert(start_step(d, run.states[i], run.events[i], run.step(i)));
}

/// Step `i` of the run asks for the given file, with its permissions.
pub open spec fn asks_for_file<B, E>(
    d: Daemon,
    run: StartRun<B, E>,
    i: int,
    file: DaemonFile,
) -> bool {
    &&& run.actions[i] matches StartAction::CreateFile { path, mode }
    &&& path@ == d.path_of(file)
    &&& mode == FILE_MODE
}

/// After step `i` all three files of the daemon are there, made one after the other.
pub open spec fn files_prepared<B, E>(d: Daemon, run: StartRun<B, E>, i: int) -> bool {
    &&& i >= 5
    &&& asks_for_file(d, run, 2, DaemonFile::Pid)
    &&& run.events[3] == StartEvent::<B, E>::FileReady
    &&& asks_for_file(d, run, 3, DaemonFile::Stdout)
    &&& run.events[4] == StartEvent::<B, E>::FileReady
    &&& asks_for_file(d, run, 4, DaemonFile::Stderr)
    &&& run.events[5] == StartEvent::<B, E>::FileReady
}

proof fn lemma_start_files<B, E>(d: Daemon, run: StartRun<B, E>, i: int)
    requires
        is_start_run(d, run),
        0 <= i <= run.len(),
    ensures
        awaits_file(run.states[i], DaemonFile::Pid) ==> i == 3 && asks_for_file(
            d,
            run,
            2,
            DaemonFile::Pid,
        ),
        awaits_file(run.states[i], DaemonFile::Stdout) ==> i == 4 && asks_for_file(
            d,
            run,
            2,
            DaemonFile::Pid,
        ) && run.events[3] == StartEvent::<B, E>::FileReady && asks_for_file(
            d,
            run,
            3,
            DaemonFile::Stdout,
        ),
        awaits_file(run.states[i], DaemonFile::Stderr) ==> i == 5 && asks_for_file(
            d,
            run,
            2,
            DaemonFile::Pid,
        ) && run.events[3] == StartEvent::<B, E>::FileReady && asks_for_file(
            d,
            run,
            3,
            DaemonFile::Stdout,
        ) && run.events[4] == StartEvent::<B, E>::FileReady && asks_for_file(
            d,
            run,
            4,
            DaemonFile::Stderr,
        ),
        run.states[i] is AwaitInvoker || run.states[i] is AwaitAccount
            || run.states[i] is AwaitLaunch ==> files_prepared(d, run, i - 1),
    decreases i,
{
    if i > 0 {
        lemma_start_files(d, run, i - 1);
        lemma_start_positions(d, run, i - 1);
        assert(start_step(d, run.states[i - 1], run.events[i - 1], run.step(i - 1)));
    }
}

/// The process goes into the background only when its three files are there.
pub proof fn law_start_prepares_files<B, E>(d: Daemon, run: StartRun<B, E>, i: int)
    requires
        is_start_run(d, run),
        0 <= i < run.len(),
        run.actions[i] is Launch,
    ensures
        files_prepared(d, run, i),
{
    lemma_start_files(d, run, i);
    assert(start_step(d, run.states[i], run.events[i], run.step(i)));
}

/// The server runs only in the background: right after a launch that succeeded.
pub proof fn law_start_serves_in_background<B, E>(d: Daemon, run: StartRun<B, E>, i: int)
    requires
        is_start_run(d, run),
        0 <= i < run.len(),
        run.actions[i] is RunServer,
    ensures
        i >= 1,
        run.actions[i - 1] is Launch,
        run.events[i] == StartEvent::<B, E>::Launched,
{
    lemma_start_positions(d, run, i);
    assert(start_step(d, run.states[i], run.events[i], run.step(i)));
    assert(start_step(d, run.states[i - 1], run.events[i - 1], run.step(i - 1)));
}

/// The configuration that a state keeps.
pub open spec fn kept_config<B>(state: StartState<B>) -> Option<B> {
    match state {
        StartState::AwaitPid { config } => Some(config),
        StartState::AwaitUid { config } => Some(config),
        StartState::AwaitFile { config, .. } => Some(config),
        StartState::AwaitInvoker { config } => Some(config),
        StartState::AwaitAccount { config } => Some(config),
        StartState::AwaitLaunch { config } => Some(config),
        _ => None,
    }
}

proof fn lemma_start_keeps_config<B, E>(d: Daemon, run: StartRun<B, E>, i: int)
    requires
        is_start_run(d, run),
        0 <= i <= run.len(),
    ensures
        kept_config(run.states[i]) matches Some(config) ==> i >= 1 && run.events[0]
            == (StartEvent::<B, E>::Begin { config }),
    decreases i,
{
    if i > 0 {
        lemma_start_keeps_config(d, run, i - 1);
        lemma_start_positions(d, run, i - 1);
        assert(start_step(d, run.states[i - 1], run.events[i - 1], run.step(i - 1)));
    }
}

/// The server runs with the configuration that `start` was given.
pub proof fn law_start_serves_as_configured<B, E>(d: Daemon, run: StartRun<B, E>, i: int)
    requires
        is_start_run(d, run),
        0 <= i < run.len(),
        run.actions[i] is RunServer,
    ensures
        run.events[0] == (StartEvent::<B, E>::Begin { config: run.actions[i]->config }),
{
    lemma_start_keeps_config(d, run, i);
    assert(start_step(d, run.states[i], run.events[i], run.step(i)));
}

/// A daemon that runs already is left alone: the run ends with the message, and
/// nothing on the machine has changed.
pub proof fn law_start_leaves_running_daemon_alone<B, E>(d: Daemon, run: StartRun<B, E>, pid: u32)
    requires
        is_start_run(d, run),
        run.len() >= 2,
        run.events[1] == StartEvent::<B, E>::Pid(Some(pid)),
    ensures
        run.len() == 2,
        run.actions[0] == StartAction::<B, E>::ReadPid,
        run.actions[1] matches StartAction::Announce { message } && message@
            == already_running_text(pid),
{
    assert(start_step(d, run.states[0], run.events[0], run.step(0)));
    assert(start_step(d, run.states[1], run.events[1], run.step(1)));
    if run.len() > 2 {
        assert(start_step(d, run.states[2], run.events[2], run.step(2)));
    }
}

/// `start` hands on what it is told: it returns the error of the file that could
/// not be made, or what the server returned, and nothing follows.
pub proof fn law_start_hands_on_results<B, E>(
    d: Daemon,
    run: StartRun<B, E>,
    i: int,
    result: Result<(), E>,
)
    requires
        is_start_run(d, run),
        0 <= i < run.len(),
    ensures
        run.actions[i] == StartAction::<B, E>::Return(result) <==> {
            ||| run.events[i] == StartEvent::<B, E>::Served(result)
            ||| run.events[i] matches StartEvent::FileFailed(error) && result == Err::<(), E>(error)
        },
        run.actions[i] is Return ==> i == run.len() - 1,
{
    assert(start_step(d, run.states[i], run.events[i], run.step(i)));
    if i + 1 < run.len() {
        assert(start_step(d, run.states[i + 1], run.events[i + 1], run.step(i + 1)));
    }
}

/// A `start` that finds no pid file never says that the daemon is running
/// already: with root permissions it goes on to create its files.
pub proof fn law_start_without_pid_file_goes_on<B, E>(
    d: Daemon,
    run: StartRun<B, E>,
    table: Map<u32, ProcessInfo>,
    name: Seq<char>,
    report: PidReport,
    i: int,
)
    requires
        is_start_run(d, run),
        is_pid_report(None, table, name, report),
        run.len() >= 2,
        run.events[1] == StartEvent::<B, E>::Pid(report.running),
        0 <= i < run.len(),
    ensures
        !(run.actions[i] is Announce),
        i >= 2 && run.events[2] == StartEvent::<B, E>::EffectiveUid(0) ==> asks_for_file(
            d,
            run,
            2,
            DaemonFile::Pid,
        ),
{
    assert(start_step(d, run.states[0], run.events[0], run.step(0)));
    assert(start_step(d, run.states[1], run.events[1], run.step(1)));
    lemma_start_positions(d, run, i);
    assert(start_step(d, run.states[i], run.events[i], run.step(i)));
    if i >= 2 {
        assert(start_step(d, run.states[2], run.events[2], run.step(2)));
    }
}

/// How many steps are left at most.
pub open spec fn start_rank<B>(state: StartState<B>) -> nat {
    match state {
        StartState::Start => 10,
        StartState::AwaitPid { .. } => 9,
        StartState::AwaitUid { .. } => 8,
        StartState::AwaitFile { file: DaemonFile::Pid, .. } => 7,
        StartState::AwaitFile { file: DaemonFile::Stdout, .. } => 6,
        StartState::AwaitFile { file: DaemonFile::Stderr, .. } => 5,
        StartState::AwaitInvoker { .. } => 4,
        StartState::AwaitAccount { .. } => 3,
        StartState::AwaitLaunch { .. } => 2,
        StartState::Serving => 1,
        StartState::Finished => 0,
    }
}

proof fn lemma_start_rank<B, E>(d: Daemon, run: StartRun<B, E>, i: int)
    requires
        is_start_run(d, run),
        0 <= i <= run.len(),
    ensures
        start_rank(run.states[i]) + i <= 10,
    decreases i,
{
    if i > 0 {
        lemma_start_rank(d, run, i - 1);
        assert(start_step(d, run.states[i - 1], run.events[i - 1], run.step(i - 1)));
    }
}

/// `start` comes to its end within ten steps.
pub proof fn law_start_ends<B, E>(d: Daemon, run: StartRun<B, E>)
    requires
        is_start_run(d, run),
    ensures
        run.len() <= 10,
{
    lemma_start_rank(d, run, run.len() as int);
}

/// `start` begins when it is told to, with any configuration, and by looking for a
/// running daemon.
pub proof fn law_start_looks_for_the_daemon_first<B, E>(
    d: Daemon,
    event: StartEvent<B, E>,
    r: Option<(StartState<B>, StartAction<B, E>)>,
)
    requires
        start_step(d, StartState::Start, event, r),
    ensures
        r is Some <==> event is Begin,
        r matches Some(next) ==> next.1 is ReadPid,
{
}

/// The daemon is started where none runs and where the user is root: a running one
/// is announced by its process id, and without root permissions the command prints
/// why and exits.
pub proof fn law_start_is_for_root_and_once<B, E>(d: Daemon, run: StartRun<B, E>, i: int)
    requires
        is_start_run(d, run),
        0 <= i < run.len(),
    ensures
        run.events[i] matches StartEvent::Pid(Some(pid)) ==> {
            &&& run.actions[i] matches StartAction::Announce { message }
            &&& message@ == "vproxy"@ + " is already running with pid: "@ + decimal(pid as nat)
        },
        run.events[i] matches StartEvent::Pid(None) ==> run.actions[i] is ReadUid,
        run.events[i] matches StartEvent::EffectiveUid(uid) ==> {
            if uid == 0 {
                run.actions[i] is CreateFile
            } else {
                &&& run.actions[i] matches StartAction::Exit { message, on_stderr, code }
                &&& message@ == "You must run this executable with root permissions"@
                &&& !on_stderr
                &&& code == -1
            }
        },
{
    assert(start_step(d, run.states[i], run.events[i], run.step(i)));
}

/// The pid file, the standard output and the standard error are made in this
/// order, each once the one before it is ready, with permissions `rwxr-xr-x`; when
/// the last is ready, `start` asks who became root.
pub proof fn law_start_makes_three_files<B, E>(d: Daemon, run: StartRun<B, E>, i: int)
    requires
        is_start_run(d, run),
        0 <= i < run.len(),
    ensures
        run.actions[i] matches StartAction::CreateFile { path, mode } ==> {
            &&& 2 <= i <= 4
            &&& mode == 0o755
            &&& i == 2 ==> path@ == d.pid_file@ && run.events[2] is EffectiveUid
            &&& i == 3 ==> path@ == d.stdout_file@ && run.events[3] is FileReady
            &&& i == 4 ==> path@ == d.stderr_file@ && run.events[4] is FileReady
        },
        run.events[i] is FileReady ==> {
            &&& 3 <= i <= 5
            &&& run.actions[i] is CreateFile <==> i < 5
            &&& run.actions[i] is ReadInvoker <==> i == 5
        },
{
    lemma_start_positions(d, run, i);
    lemma_start_files(d, run, i);
    assert(start_step(d, run.states[i], run.events[i], run.step(i)));
}

/// The daemon runs as the user who became root by `sudo`, with the group of that
/// very account; as root if nobody did, or if the account is unknown. It is
/// launched with the paths of its three files, hands its pid file over to that
/// user, and masks all permissions of new files.
pub proof fn law_start_runs_as_the_invoker<B, E>(d: Daemon, run: StartRun<B, E>, i: int)
    requires
        is_start_run(d, run),
        0 <= i < run.len(),
    ensures
        run.events[i] matches StartEvent::Invoker(Some(user)) ==> {
            &&& run.actions[i] matches StartAction::LookUpAccount { name }
            &&& name@ == user@
        },
        run.events[i] matches StartEvent::Invoker(None) ==> run.actions[i] is Launch,
        run.events[i] is Account ==> run.actions[i] is Launch,
        run.actions[i] matches StartAction::Launch(plan) ==> {
            &&& plan.pid_file@ == d.pid_file@
            &&& plan.stdout_file@ == d.stdout_file@
            &&& plan.stderr_file@ == d.stderr_file@
            &&& plan.chown_pid_file
            &&& plan.umask == 0o777
            &&& match run.events[i] {
                StartEvent::Account(account) => plan.account == account,
                StartEvent::Invoker(user) => user is None && plan.account is None,
                _ => false,
            }
        },
{
    assert(start_step(d, run.states[i], run.events[i], run.step(i)));
}

/// Once in the background the server is run; if the process cannot go there, the
/// command prints the reason on standard error and exits.
pub proof fn law_start_serves_or_says_why_not<B, E>(d: Daemon, run: StartRun<B, E>, i: int)
    requires
        is_start_run(d, run),
        0 <= i < run.len(),
    ensures
        run.events[i] is Launched ==> run.actions[i] is RunServer,
        run.events[i] matches StartEvent::LaunchFailed(reason) ==> {
            &&& run.actions[i] matches StartAction::Exit { message, on_stderr, code }
            &&& message@ == "Error: "@ + reason@
            &&& on_stderr
            &&& code == -1
        },
{
    assert(start_step(d, run.states[i], run.events[i], run.step(i)));
}

/// A message that announces, an exit and a result are the last thing a run does.
pub proof fn law_start_ends_with_its_outcome<B, E>(d: Daemon, run: StartRun<B, E>, i: int)
    requires
        is_start_run(d, run),
        0 <= i < run.len(),
    ensures
        run.actions[i] is Announce || run.actions[i] is Exit || run.actions[i] is Return ==> i
            == run.len() - 1,
{
    assert(start_step(d, run.states[i], run.events[i], run.step(i)));
    if i + 1 < run.len() {
        assert(start_step(d, run.states[i + 1], run.events[i + 1], run.step(i + 1)));
    }
}

/// The runs that the laws speak of are those of the function: whatever it returns is
/// a step of a run.
pub proof fn law_start_takes_the_steps_of_its_runs<B, E>(
    d: Daemon,
    state: StartState<B>,
    event: StartEvent<B, E>,
    r: Option<(StartState<B>, StartAction<B, E>)>,
)
    requires
        call_ensures(Daemon::start::<B, E>, (&d, state, event), r),
    ensures
        start_step(d, state, event, r),
{
}

/// The event answers the action: it says how the action went.
pub open spec fn start_answers<B, E>(action: StartAction<B, E>, event: StartEvent<B, E>) -> bool {
    match action {
        StartAction::ReadPid => event is Pid,
        StartAction::ReadUid => event is EffectiveUid,
        StartAction::CreateFile { .. } => event is FileReady || event is FileFailed,
        StartAction::ReadInvoker => event is Invoker,
        StartAction::LookUpAccount { .. } => event is Account,
        StartAction::Launch(_) => event is Launched || event is LaunchFailed,
        StartAction::RunServer { .. } => event is Served,
        _ => false,
    }
}

/// `start` is never left without a next step: it takes every event that answers
/// the action it has asked for, and no other.
pub proof fn law_start_takes_answers<B, E>(
    d: Daemon,
    state: StartState<B>,
    event: StartEvent<B, E>,
    next: StartState<B>,
    action: StartAction<B, E>,
    answer: StartEvent<B, E>,
)
    requires
        start_step(d, state, event, Some((next, action))),
    ensures
        start_answers(action, answer) <==> !start_step(d, next, answer, None),
{
}

} // verus!
