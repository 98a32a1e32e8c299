//! The `stop` command: interrupt the daemon until it is gone, then remove its
//! pid file.

use vstd::prelude::*;
use vstd::string::*;

use crate::daemon::{is_pid_report, Daemon, PidReport, EXIT_FAILURE, ROOT_REQUIRED};
use crate::process::ProcessInfo;
use crate::run::Run;
use crate::text::joined;

verus! {

/// How often the daemon is interrupted at most.
pub const MAX_INTERRUPTS: u32 = 360;

/// Seconds between two interrupts.
pub const INTERRUPT_PAUSE_SECS: u64 = 1;

/// The process id as the system call takes it: the same 32 bits, with a sign.
pub open spec fn signed_pid(pid: u32) -> int {
    if pid <= i32::MAX {
        pid as int
    } else {
        pid - 0x1_0000_0000
    }
}

/// Converts a process id to the number that a signal is sent to.
pub fn signal_target(pid: u32) -> (r: i32)
    ensures
        r == signed_pid(pid),
{
    if pid <= 0x7fff_ffff {
        pid as i32
    } else {
        (pid as i64 - 0x1_0000_0000) as i32
    }
}

/// How far `stop` has come.
#[derive(Clone, Copy, PartialEq, Eq, Structural, Debug)]
pub enum StopState {
    Start,
    AwaitUid,
    AwaitPid,
    /// The `attempt`-th interrupt is under way.
    Interrupting { target: i32, attempt: u32 },
    /// The pause after the `attempt`-th interrupt.
    Pausing { target: i32, attempt: u32 },
    Removing,
    Finished,
}

/// What happened.
pub enum StopEvent {
    Begin,
    EffectiveUid(u32),
    /// The process id of the daemon, if it runs.
    Pid(Option<u32>),
    SignalSent,
    /// The signal could not be sent: the process is gone.
    SignalFailed,
    Paused,
    Removed,
    RemoveFailed { not_found: bool, reason: String },
}

/// What to do next.
pub enum StopAction {
    ReadUid,
    ReadPid,
    /// Send the interrupt signal.
    Interrupt { target: i32 },
    Pause { secs: u64 },
    RemoveFile { path: String },
    /// Print the message on standard output and exit.
    Exit { message: String, code: i32 },
    /// The command has succeeded; print the warning, if there is one.
    Done { warning: Option<String> },
}

pub open spec fn remove_failed_text(reason: Seq<char>) -> Seq<char> {
    "failed to remove pid file: "@ + reason
}

pub open spec fn interrupts(target: i32, n: int, r: Option<(StopState, StopAction)>) -> bool {
    &&& r matches Some(next)
    &&& next.0 matches StopState::Interrupting { target: t, attempt }
    &&& t == target
    &&& attempt == n
    &&& next.1 == StopAction::Interrupt { target }
}

pub open spec fn removes(d: Daemon, r: Option<(StopState, StopAction)>) -> bool {
    &&& r matches Some(next)
    &&& next.0 == StopState::Removing
    &&& next.1 matches StopAction::RemoveFile { path }
    &&& path@ == d.pid_file@
}

/// `r` is the step that `event` takes `stop` in `state`; none, if the event is
/// not an answer to what was asked for.
pub open spec fn stop_step(
    d: Daemon,
    state: StopState,
    event: StopEvent,
    r: Option<(StopState, StopAction)>,
) -> bool {
    match (state, event) {
        (StopState::Start, StopEvent::Begin) => r == Some(
            (StopState::AwaitUid, StopAction::ReadUid),
        ),
        (StopState::AwaitUid, StopEvent::EffectiveUid(uid)) => if uid == 0 {
            r == Some((StopState::AwaitPid, StopAction::ReadPid))
        } else {
            &&& r matches Some(next)
            &&& next.0 == StopState::Finished
            &&& next.1 matches StopAction::Exit { message, code }
            &&& message@ == ROOT_REQUIRED@
            &&& code == EXIT_FAILURE
        },
        (StopState::AwaitPid, StopEvent::Pid(Some(pid))) => {
            &&& r matches Some(next)
            &&& next.1 matches StopAction::Interrupt { target }
            &&& target == signed_pid(pid)
            &&& interrupts(target, 1, r)
        },
        (StopState::AwaitPid, StopEvent::Pid(None)) => removes(d, r),
        (StopState::Interrupting { target, attempt }, StopEvent::SignalSent) => r == Some(
            (
                StopState::Pausing { target, attempt },
                StopAction::Pause { secs: INTERRUPT_PAUSE_SECS },
            ),
        ),
        (StopState::Interrupting { .. }, StopEvent::SignalFailed) => removes(d, r),
        (StopState::Pausing { target, attempt }, StopEvent::Paused) => if attempt
            < MAX_INTERRUPTS {
            interrupts(target, attempt + 1, r)
        } else {
            removes(d, r)
        },
        (StopState::Removing, StopEvent::Removed) => r == Some(
            (StopState::Finished, StopAction::Done { warning: None }),
        ),
        (StopState::Removing, StopEvent::RemoveFailed { not_found, reason }) => {
            &&& r matches Some(next)
            &&& next.0 == StopState::Finished
            &&& next.1 matches StopAction::Done { warning }
            &&& match warning {
                Some(m) => !not_found && m@ == remove_failed_text(reason@),
                None => not_found,
            }
        },
        _ => r is None,
    }
}

impl Daemon {
    fn remove_pid_file(&self) -> (r: Option<(StopState, StopAction)>)
        ensures
            removes(*self, r),
    {
        Some((StopState::Removing, StopAction::RemoveFile { path: self.pid_file.clone() }))
    }

    /// Stops the daemon: one step of the command.
    pub fn stop(&self, state: StopState, event: StopEvent) -> (r: Option<(StopState, StopAction)>)
        ensures
            stop_step(*self, state, event, r),
    {
        match (state, event) {
            (StopState::Start, StopEvent::Begin) => Some(
                (StopState::AwaitUid, StopAction::ReadUid),
            ),
            (StopState::AwaitUid, StopEvent::EffectiveUid(uid)) => match Daemon::root(uid) {
                Ok(_) => Some((StopState::AwaitPid, StopAction::ReadPid)),
                Err(message) => Some(
                    (StopState::Finished, StopAction::Exit { message, code: EXIT_FAILURE }),
                ),
            },
            (StopState::AwaitPid, StopEvent::Pid(Some(pid))) => {
                let target = signal_target(pid);
                Some(
                    (
                        StopState::Interrupting { target, attempt: 1 },
                        StopAction::Interrupt { target },
                    ),
                )
            },
            (StopState::AwaitPid, StopEvent::Pid(None)) => self.remove_pid_file(),
            (StopState::Interrupting { target, attempt }, StopEvent::SignalSent) => Some(
                (
                    StopState::Pausing { target, attempt },
                    StopAction::Pause { secs: INTERRUPT_PAUSE_SECS },
                ),
            ),
            (StopState::Interrupting { .. }, StopEvent::SignalFailed) => self.remove_pid_file(),
            (StopState::Pausing { target, attempt }, StopEvent::Paused) => if attempt
                < MAX_INTERRUPTS {
                Some(
                    (
                        StopState::Interrupting { target, attempt: attempt + 1 },
                        StopAction::Interrupt { target },
                    ),
                )
            } else {
                self.remove_pid_file()
            },
            (StopState::Removing, StopEvent::Removed) => Some(
                (StopState::Finished, StopAction::Done { warning: None }),
            ),
            (StopState::Removing, StopEvent::RemoveFailed { not_found, reason }) => {
                let warning = if not_found {
                    None
                } else {
                    Some(joined("failed to remove pid file: ", reason.as_str()))
                };
                Some((StopState::Finished, StopAction::Done { warning }))
            },
            _ => None,
        }
    }
}

// ----- laws -----

pub type StopRun = Run<StopState, StopEvent, StopAction>;

/// `run` is a run of `stop` on the daemon `d`.
pub open spec fn is_stop_run(d: Daemon, run: StopRun) -> bool {
    &&& run.begins_in(StopState::Start)
    &&& forall|i: int|
        0 <= i < run.len() ==> stop_step(d, run.states[i], run.events[i], #[trigger] run.step(i))
}

/// How many interrupts the first `n` actions of a run ask for.
pub open spec fn interrupt_count(actions: Seq<StopAction>, n: int) -> int
    decreases n,
{
    if n <= 0 {
        0
    } else {
        interrupt_count(actions, n - 1) + (if actions[n - 1] is Interrupt {
            1int
        } else {
            0int
        })
    }
}

/// How many steps of a run are left at most.
pub open spec fn stop_rank(state: StopState) -> int {
    match state {
        StopState::Start => 724,
        StopState::AwaitUid => 723,
        StopState::AwaitPid => 722,
        StopState::Interrupting { attempt, .. } => 2 * (MAX_INTERRUPTS - attempt) + 3,
        StopState::Pausing { attempt, .. } => 2 * (MAX_INTERRUPTS - attempt) + 2,
        StopState::Removing => 1,
        StopState::Finished => 0,
    }
}

/// What holds after `i` steps of any run.
pub open spec fn stop_invariant(run: StopRun, i: int) -> bool {
    let count = interrupt_count(run.actions, i);
    &&& 0 <= count <= MAX_INTERRUPTS
    &&& stop_rank(run.states[i]) + i <= 724
    &&& match run.states[i] {
        StopState::Start => i == 0 && count == 0,
        StopState::AwaitUid => i == 1 && count == 0,
        StopState::AwaitPid => i == 2 && count == 0 && run.events[1] == StopEvent::EffectiveUid(0),
        StopState::Interrupting { target, attempt } => {
            &&& i >= 3
            &&& 1 <= attempt <= MAX_INTERRUPTS
            &&& count == attempt
            &&& run.events[2] matches StopEvent::Pid(Some(pid)) && target == signed_pid(pid)
            &&& run.events[1] == StopEvent::EffectiveUid(0)
        },
        StopState::Pausing { target, attempt } => {
            &&& i >= 3
            &&& 1 <= attempt <= MAX_INTERRUPTS
            &&& count == attempt
            &&& run.events[2] matches StopEvent::Pid(Some(pid)) && target == signed_pid(pid)
            &&& run.events[1] == StopEvent::EffectiveUid(0)
        },
        StopState::Removing => i >= 3 && run.events[1] == StopEvent::EffectiveUid(0)
            && run.actions[i - 1] is RemoveFile,
        StopState::Finished => i >= 2,
    }
}

proof fn lemma_stop_invariant(d: Daemon, run: StopRun, i: int)
    requires
        is_stop_run(d, run),
        0 <= i <= run.len(),
    ensures
        stop_invariant(run, i),
    decreases i,
{
    if i > 0 {
        lemma_stop_invariant(d, run, i - 1);
        assert(stop_step(d, run.states[i - 1], run.events[i - 1], run.step(i - 1)));
    }
}

/// The daemon is interrupted at most 360 times, and `stop` comes to its end.
pub proof fn law_stop_is_bounded(d: Daemon, run: StopRun)
    requires
        is_stop_run(d, run),
    ensures
        interrupt_count(run.actions, run.len() as int) <= MAX_INTERRUPTS,
        run.len() <= 724,
{
    lemma_stop_invariant(d, run, run.len() as int);
}

/// Every interrupt goes to the process that the pid file named, and none without
/// root permissions.
pub proof fn law_stop_interrupts_the_daemon_only(d: Daemon, run: StopRun, i: int)
    requires
        is_stop_run(d, run),
        0 <= i < run.len(),
        run.actions[i] is Interrupt,
    ensures
        i >= 2,
        run.events[1] == StopEvent::EffectiveUid(0),
        run.events[2] matches StopEvent::Pid(Some(pid)) && run.actions[i]->Interrupt_target
            == signed_pid(pid),
{
    lemma_stop_invariant(d, run, i);
    assert(stop_step(d, run.states[i], run.events[i], run.step(i)));
}

/// An interrupt that cannot be sent is the last one: what follows is the removal
/// of the pid file.
pub proof fn law_stop_ends_with_first_failure(d: Daemon, run: StopRun, i: int)
    requires
        is_stop_run(d, run),
        0 <= i < run.len(),
        run.events[i] is SignalFailed,
    ensures
        run.actions[i] matches StopAction::RemoveFile { path } && path@ == d.pid_file@,
        forall|j: int| i <= j < run.len() ==> !((#[trigger] run.actions[j]) is Interrupt),
{
    assert(stop_step(d, run.states[i], run.events[i], run.step(i)));
    if i + 1 < run.len() {
        assert(stop_step(d, run.states[i + 1], run.events[i + 1], run.step(i + 1)));
        if i + 2 < run.len() {
            assert(stop_step(d, run.states[i + 2], run.events[i + 2], run.step(i + 2)));
        }
    }
}

/// Every run that has root permissions and comes to its end has asked for the
/// removal of the pid file in the step before its last, whether or not a daemon
/// was running.
pub proof fn law_stop_removes_pid_file(d: Daemon, run: StopRun)
    requires
        is_stop_run(d, run),
        run.states.last() == StopState::Finished,
        run.events[1] == StopEvent::EffectiveUid(0),
    ensures
        run.len() >= 2,
        run.actions[run.len() - 2] matches StopAction::RemoveFile { path } && path@ == d.pid_file@,
        run.actions[run.len() - 1] is Done,
{
    let n = run.len() as int;
    lemma_stop_invariant(d, run, n);
    lemma_stop_invariant(d, run, n - 1);
    assert(stop_step(d, run.states[n - 1], run.events[n - 1], run.step(n - 1)));
    if run.states[n - 1] == StopState::Removing {
        assert(stop_step(d, run.states[n - 2], run.events[n - 2], run.step(n - 2)));
    }
}

/// A signal goes to the number with the same 32 bits as the process id: the id
/// itself wherever it has a sign bit to spare.
pub proof fn law_signal_target_keeps_the_bits(pid: u32)
    ensures
        -0x8000_0000 <= signed_pid(pid) < 0x8000_0000,
        signed_pid(pid) == pid || signed_pid(pid) + 0x1_0000_0000 == pid,
{
}

/// `stop` begins when it is told to, and by asking for the user.
pub proof fn law_stop_asks_for_the_user_first(
    d: Daemon,
    event: StopEvent,
    r: Option<(StopState, StopAction)>,
)
    requires
        stop_step(d, StopState::Start, event, r),
    ensures
        r is Some <==> event is Begin,
        r matches Some(next) ==> next.1 is ReadUid,
{
}

/// The user has to be root: anybody else is told so, and the command exits. Only
/// for root is the daemon looked for.
pub proof fn law_stop_is_for_root(d: Daemon, run: StopRun, i: int)
    requires
        is_stop_run(d, run),
        0 <= i < run.len(),
    ensures
        run.events[i] matches StopEvent::EffectiveUid(uid) ==> {
            if uid == 0 {
                run.actions[i] is ReadPid
            } else {
                &&& run.actions[i] matches StopAction::Exit { message, code }
                &&& message@ == "You must run this executable with root permissions"@
                &&& code == -1
                &&& i == run.len() - 1
            }
        },
{
    assert(stop_step(d, run.states[i], run.events[i], run.step(i)));
    if i + 1 < run.len() {
        assert(stop_step(d, run.states[i + 1], run.events[i + 1], run.step(i + 1)));
    }
}

/// A daemon that was found is interrupted; after every interrupt that was sent there
/// is a pause of a second, and after the pause the same process is interrupted
/// again, until 360 interrupts were sent. Then, or when an interrupt cannot be sent,
/// or when no daemon was found, the pid file is removed.
pub proof fn law_stop_interrupts_again_and_again(d: Daemon, run: StopRun, i: int)
    requires
        is_stop_run(d, run),
        0 <= i < run.len(),
    ensures
        run.events[i] matches StopEvent::Pid(Some(pid)) ==> run.actions[i]
            == (StopAction::Interrupt { target: signed_pid(pid) as i32 }),
        run.events[i] is SignalSent ==> run.actions[i] == (StopAction::Pause { secs: 1 }),
        run.events[i] is Paused ==> i >= 2 && run.actions[i - 2] is Interrupt && if interrupt_count(
            run.actions,
            i,
        ) < 360 {
            run.actions[i] == run.actions[i - 2]
        } else {
            run.actions[i] is RemoveFile
        },
        run.events[i] is SignalFailed || run.events[i] == StopEvent::Pid(None)
            ==> run.actions[i] is RemoveFile,
        run.actions[i] matches StopAction::RemoveFile { path } ==> path@ == d.pid_file@,
{
    lemma_stop_invariant(d, run, i);
    assert(stop_step(d, run.states[i], run.events[i], run.step(i)));
    if run.events[i] is Paused {
        lemma_stop_invariant(d, run, i - 1);
        lemma_stop_invariant(d, run, i - 2);
        assert(stop_step(d, run.states[i - 1], run.events[i - 1], run.step(i - 1)));
        assert(stop_step(d, run.states[i - 2], run.events[i - 2], run.step(i - 2)));
    }
}

/// `stop` succeeds whether or not the pid file could be removed, and then ends. It
/// warns, with the reason, exactly of a file that is there and stays.
pub proof fn law_stop_warns_of_a_file_that_stays(d: Daemon, run: StopRun, i: int)
    requires
        is_stop_run(d, run),
        0 <= i < run.len(),
    ensures
        run.events[i] is Removed ==> run.actions[i] == (StopAction::Done { warning: None }),
        run.events[i] matches StopEvent::RemoveFailed { not_found, reason } ==> {
            &&& run.actions[i] matches StopAction::Done { warning }
            &&& warning is None <==> not_found
            &&& warning matches Some(text) ==> text@ == "failed to remove pid file: "@ + reason@
        },
        run.actions[i] is Done ==> i == run.len() - 1,
{
    assert(stop_step(d, run.states[i], run.events[i], run.step(i)));
    if i + 1 < run.len() {
        assert(stop_step(d, run.states[i + 1], run.events[i + 1], run.step(i + 1)));
    }
}

/// A run of `stop` that came to its end with the pid file gone.
pub open spec fn removed_pid_file(run: StopRun) -> bool {
    &&& run.len() > 0
    &&& run.actions.last() is Done
    &&& match run.events.last() {
        StopEvent::Removed => true,
        StopEvent::RemoveFailed { not_found, .. } => not_found,
        _ => false,
    }
}

/// The process id to be read from the pid file after a run of `stop`, if nobody
/// else touches the file; `before` is the one to be read before it.
pub open spec fn pid_file_after(run: StopRun, before: Option<u32>) -> Option<u32> {
    if removed_pid_file(run) {
        None
    } else {
        before
    }
}

/// Stopping twice is stopping once: after a `stop` that removed the pid file, a
/// second one interrupts nobody and, finding no file to remove, has nothing to
/// warn of.
pub proof fn law_second_stop_does_nothing(
    d: Daemon,
    first: StopRun,
    second: StopRun,
    before: Option<u32>,
    table: Map<u32, ProcessInfo>,
    name: Seq<char>,
    report: PidReport,
)
    requires
        is_stop_run(d, first),
        removed_pid_file(first),
        is_stop_run(d, second),
        is_pid_report(pid_file_after(first, before), table, name, report),
        second.len() >= 3,
        second.events[2] == StopEvent::Pid(report.running),
    ensures
        interrupt_count(second.actions, second.len() as int) == 0,
        second.len() <= 4,
        second.actions[2] matches StopAction::RemoveFile { path } && path@ == d.pid_file@,
        second.len() == 4 && second.events[3] is RemoveFailed
            && second.events[3]->RemoveFailed_not_found ==> second.actions[3] == (StopAction::Done {
            warning: None,
        }),
{
    reveal_with_fuel(interrupt_count, 5);
    assert(stop_step(d, second.states[0], second.events[0], second.step(0)));
    assert(stop_step(d, second.states[1], second.events[1], second.step(1)));
    assert(stop_step(d, second.states[2], second.events[2], second.step(2)));
    if second.len() > 3 {
        assert(stop_step(d, second.states[3], second.events[3], second.step(3)));
    }
    if second.len() > 4 {
        assert(stop_step(d, second.states[4], second.events[4], second.step(4)));
    }
}

/// The runs that the laws speak of are those of the function: whatever it returns is
/// a step of a run.
pub proof fn law_stop_takes_the_steps_of_its_runs(
    d: Daemon,
    state: StopState,
    event: StopEvent,
    r: Option<(StopState, StopAction)>,
)
    requires
        call_ensures(Daemon::stop, (&d, state, event), r),
    ensures
        stop_step(d, state, event, r),
{
}

/// The event answers the action: it says how the action went.
pub open spec fn stop_answers(action: StopAction, event: StopEvent) -> bool {
    match action {
        StopAction::ReadUid => event is EffectiveUid,
        StopAction::ReadPid => event is Pid,
        StopAction::Interrupt { .. } => event is SignalSent || event is SignalFailed,
        StopAction::Pause { .. } => event is Paused,
        StopAction::RemoveFile { .. } => event is Removed || event is RemoveFailed,
        _ => false,
    }
}

/// `stop` is never left without a next step: it takes every event that answers
/// the action it has asked for, and no other.
pub proof fn law_stop_takes_answers(
    d: Daemon,
    state: StopState,
    event: StopEvent,
    next: StopState,
    action: StopAction,
    answer: StopEvent,
)
    requires
        stop_step(d, state, event, Some((next, action))),
    ensures
        stop_answers(action, answer) <==> !stop_step(d, next, answer, None),
{
}

} // verus!
