//! The `restart` command: stop, wait a moment behind a spinner, start.

use vstd::prelude::*;
use vstd::string::*;

use crate::daemon::start::{
    is_start_run, law_start_without_pid_file_goes_on, StartAction, StartEvent, StartRun,
};
use crate::daemon::stop::{is_stop_run, pid_file_after, removed_pid_file, StopRun};
use crate::daemon::{is_pid_report, Daemon, PidReport};
use crate::process::ProcessInfo;
use crate::run::Run;

verus! {

/// How many spinner frames are shown.
pub const SPINNER_FRAMES: u32 = 30;

/// Milliseconds that one frame stays.
pub const FRAME_MILLIS: u64 = 100;

/// What wipes the spinner out.
pub const CLEAR_SPINNER: &'static str = "\r \r";

/// The character that turns, frame by frame.
pub open spec fn spinner_char(frame: int) -> char {
    if frame % 4 == 0 {
        '|'
    } else if frame % 4 == 1 {
        '/'
    } else if frame % 4 == 2 {
        '-'
    } else {
        '\\'
    }
}

/// What a frame prints: back to the start of the line, then the character.
pub open spec fn frame_text(frame: int) -> Seq<char> {
    seq!['\r', spinner_char(frame)]
}

/// Returns what the given frame of the spinner prints.
pub fn spinner_frame(frame: u32) -> (r: &'static str)
    ensures
        r@ == frame_text(frame as int),
{
    proof {
        reveal_strlit("\r|");
        reveal_strlit("\r/");
        reveal_strlit("\r-");
        reveal_strlit("\r\\");
    }
    let turn: u32 = frame % 4;
    let r = if turn == 0 {
        "\r|"
    } else if turn == 1 {
        "\r/"
    } else if turn == 2 {
        "\r-"
    } else {
        "\r\\"
    };
    assert(r@ =~= frame_text(frame as int));
    r
}

/// How far `restart` has come. `B` is the configuration of the server, kept until
/// the daemon is started.
pub enum RestartState<B> {
    Start,
    AwaitStop { config: B },
    /// A frame is being printed.
    Showing { frame: u32, config: B },
    /// A frame stays on the screen.
    Pausing { frame: u32, config: B },
    Clearing { config: B },
    AwaitStart,
    Finished,
}

/// What happened. `E` is an error.
pub enum RestartEvent<B, E> {
    /// The command was given, with the configuration of the server.
    Begin { config: B },
    Stopped,
    StopFailed(E),
    Shown,
    ShowFailed(E),
    Paused,
    /// What starting the daemon returned.
    Started(Result<(), E>),
}

/// What to do next.
pub enum RestartAction<B, E> {
    RunStop,
    /// Print the text without a line end, and flush it.
    Show { text: String },
    Pause { millis: u64 },
    /// Start the daemon with the configuration.
    RunStart { config: B },
    /// Return the result of the command.
    Return(Result<(), E>),
}

pub open spec fn shows<B, E>(
    text: Seq<char>,
    to: RestartState<B>,
    r: Option<(RestartState<B>, RestartAction<B, E>)>,
) -> bool {
    &&& r matches Some(next)
    &&& next.0 == to
    &&& next.1 matches RestartAction::Show { text: t }
    &&& t@ == text
}

/// `r` is the step that `event` takes `restart` in `state`; none, if the event
/// is not an answer to what was asked for.
pub open spec fn restart_step<B, E>(
    state: RestartState<B>,
    event: RestartEvent<B, E>,
    r: Option<(RestartState<B>, RestartAction<B, E>)>,
) -> bool {
    match (state, event) {
        (RestartState::Start, RestartEvent::Begin { config }) => r == Some(
            (RestartState::AwaitStop { config }, RestartAction::<B, E>::RunStop),
        ),
        (RestartState::AwaitStop { config }, RestartEvent::Stopped) => shows(
            frame_text(0),
            RestartState::Showing { frame: 0, config },
            r,
        ),
        (RestartState::AwaitStop { .. }, RestartEvent::StopFailed(error)) => r == Some(
            (RestartState::<B>::Finished, RestartAction::<B, E>::Return(Err(error))),
        ),
        (RestartState::Showing { frame, config }, RestartEvent::Shown) => r == Some(
            (
                RestartState::Pausing { frame, config },
                RestartAction::<B, E>::Pause { millis: FRAME_MILLIS },
            ),
        ),
        (RestartState::Showing { .. }, RestartEvent::ShowFailed(error)) => r == Some(
            (RestartState::<B>::Finished, RestartAction::<B, E>::Return(Err(error))),
        ),
        (RestartState::Pausing { frame, config }, RestartEvent::Paused) => if frame + 1
            < SPINNER_FRAMES {
            shows(
                frame_text(frame + 1),
                RestartState::Showing { frame: (frame + 1) as u32, config },
                r,
            )
        } else {
            shows(CLEAR_SPINNER@, RestartState::Clearing { config }, r)
        },
        (RestartState::Clearing { config }, RestartEvent::Shown) => r == Some(
            (RestartState::<B>::AwaitStart, RestartAction::<B, E>::RunStart { config }),
        ),
        (RestartState::Clearing { .. }, RestartEvent::ShowFailed(error)) => r == Some(
            (RestartState::<B>::Finished, RestartAction::<B, E>::Return(Err(error))),
        ),
        (RestartState::AwaitStart, RestartEvent::Started(result)) => r == Some(
            (RestartState::<B>::Finished, RestartAction::<B, E>::Return(result)),
        ),
        _ => r is None,
    }
}

impl Daemon {
    /// Restarts the daemon: one step of the command.
    pub fn restart<B, E>(&self, state: RestartState<B>, event: RestartEvent<B, E>) -> (r: Option<
        (RestartState<B>, RestartAction<B, E>),
    >)
        ensures
            restart_step(state, event, r),
    {
        match (state, event) {
            (RestartState::Start, RestartEvent::Begin { config }) => Some(
                (RestartState::AwaitStop { config }, RestartAction::RunStop),
            ),
            (RestartState::AwaitStop { config }, RestartEvent::Stopped) => Some(
                (
                    RestartState::Showing { frame: 0, config },
                    RestartAction::Show { text: spinner_frame(0).to_owned() },
                ),
            ),
            (RestartState::AwaitStop { .. }, RestartEvent::StopFailed(error)) => Some(
                (RestartState::Finished, RestartAction::Return(Err(error))),
            ),
            (RestartState::Showing { frame, config }, RestartEvent::Shown) => Some(
                (
                    RestartState::Pausing { frame, config },
                    RestartAction::Pause { millis: FRAME_MILLIS },
                ),
            ),
            (RestartState::Showing { .. }, RestartEvent::ShowFailed(error)) => Some(
                (RestartState::Finished, RestartAction::Return(Err(error))),
            ),
            (RestartState::Pausing { frame, config }, RestartEvent::Paused) => if frame
                < SPINNER_FRAMES - 1 {
                let frame: u32 = frame + 1;
                Some(
                    (
                        RestartState::Showing { frame, config },
                        RestartAction::Show { text: spinner_frame(frame).to_owned() },
                    ),
                )
            } else {
                Some(
                    (
                        RestartState::Clearing { config },
                        RestartAction::Show { text: CLEAR_SPINNER.to_owned() },
                    ),
                )
            },
            (RestartState::Clearing { config }, RestartEvent::Shown) => Some(
                (RestartState::AwaitStart, RestartAction::RunStart { config }),
            ),
            (RestartState::Clearing { .. }, RestartEvent::ShowFailed(error)) => Some(
                (RestartState::Finished, RestartAction::Return(Err(error))),
            ),
            (RestartState::AwaitStart, RestartEvent::Started(result)) => Some(
                (RestartState::Finished, RestartAction::Return(result)),
            ),
            _ => None,
        }
    }
}

// ----- laws -----

pub type RestartRun<B, E> = Run<RestartState<B>, RestartEvent<B, E>, RestartAction<B, E>>;

/// `run` is a run of `restart`.
pub open spec fn is_restart_run<B, E>(run: RestartRun<B, E>) -> bool {
    &&& run.begins_in(RestartState::Start)
    &&& forall|i: int|
        0 <= i < run.len() ==> restart_step(run.states[i], run.events[i], #[trigger] run.step(i))
}

/// The configuration that `restart` was given.
pub open spec fn begun_with<B, E>(run: RestartRun<B, E>) -> B {
    run.events[0]->Begin_config
}

/// Where a run that has not failed stands after `i` steps.
pub open spec fn restart_position<B>(config: B, i: int) -> RestartState<B> {
    if i <= 0 {
        RestartState::Start
    } else if i == 1 {
        RestartState::AwaitStop { config }
    } else if i < 2 + 2 * SPINNER_FRAMES {
        if i % 2 == 0 {
            RestartState::Showing { frame: ((i - 2) / 2) as u32, config }
        } else {
            RestartState::Pausing { frame: ((i - 3) / 2) as u32, config }
        }
    } else if i == 2 + 2 * SPINNER_FRAMES {
        RestartState::Clearing { config }
    } else if i == 3 + 2 * SPINNER_FRAMES {
        RestartState::AwaitStart
    } else {
        RestartState::Finished
    }
}

proof fn lemma_restart_position<B, E>(run: RestartRun<B, E>, i: int)
    requires
        is_restart_run(run),
        0 <= i <= run.len(),
    ensures
        run.states[i] == restart_position(begun_with(run), i) || run.states[i] is Finished,
        i >= 1 ==> run.events[0] is Begin,
        i <= 4 + 2 * SPINNER_FRAMES,
    decreases i,
{
    if i > 0 {
        lemma_restart_position(run, i - 1);
        assert(restart_step(run.states[i - 1], run.events[i - 1], run.step(i - 1)));
    }
}

proof fn lemma_restart_unfinished<B, E>(run: RestartRun<B, E>, i: int)
    requires
        is_restart_run(run),
        0 <= i < run.len(),
    ensures
        run.states[i] == restart_position(begun_with(run), i),
        !(run.states[i] is Finished),
{
    lemma_restart_position(run, i);
    lemma_restart_position(run, i + 1);
    assert(restart_step(run.states[i], run.events[i], run.step(i)));
}

/// The daemon is started again only after it was stopped, all thirty frames
/// were shown for their time, and the spinner was wiped out.
pub proof fn law_restart_stops_before_it_starts<B, E>(run: RestartRun<B, E>, i: int)
    requires
        is_restart_run(run),
        0 <= i < run.len(),
        run.actions[i] is RunStart,
    ensures
        i == 2 + 2 * SPINNER_FRAMES,
        run.len() <= i + 2,
        run.actions[0] is RunStop,
        run.events[1] is Stopped,
        forall|k: int|
            #![trigger run.actions[1 + 2 * k]]
            0 <= k < SPINNER_FRAMES ==> {
                &&& run.actions[1 + 2 * k] matches RestartAction::Show { text }
                &&& text@ == frame_text(k)
                &&& run.events[2 + 2 * k] is Shown
                &&& run.actions[2 + 2 * k] == RestartAction::<B, E>::Pause { millis: FRAME_MILLIS }
                &&& run.events[3 + 2 * k] is Paused
            },
        run.actions[i - 1] matches RestartAction::Show { text } && text@ == CLEAR_SPINNER@,
        run.events[i] is Shown,
{
    lemma_restart_unfinished(run, i);
    assert(restart_step(run.states[i], run.events[i], run.step(i)));
    assert(run.states[i] is Clearing);
    lemma_restart_unfinished(run, 0);
    lemma_restart_unfinished(run, 1);
    lemma_restart_unfinished(run, 2);
    lemma_restart_unfinished(run, i - 1);
    assert(restart_step(run.states[0], run.events[0], run.step(0)));
    assert(restart_step(run.states[1], run.events[1], run.step(1)));
    assert(restart_step(run.states[i - 1], run.events[i - 1], run.step(i - 1)));
    lemma_restart_position(run, run.len() as int);
    assert forall|k: int|
        #![trigger run.actions[1 + 2 * k]]
        0 <= k < SPINNER_FRAMES implies {
        &&& run.actions[1 + 2 * k] matches RestartAction::Show { text }
        &&& text@ == frame_text(k)
        &&& run.events[2 + 2 * k] is Shown
        &&& run.actions[2 + 2 * k] == RestartAction::<B, E>::Pause { millis: FRAME_MILLIS }
        &&& run.events[3 + 2 * k] is Paused
    } by {
        lemma_restart_unfinished(run, 1 + 2 * k);
        lemma_restart_unfinished(run, 2 + 2 * k);
        lemma_restart_unfinished(run, 3 + 2 * k);
        lemma_restart_unfinished(run, 4 + 2 * k);
        assert(restart_step(run.states[1 + 2 * k], run.events[1 + 2 * k], run.step(1 + 2 * k)));
        assert(restart_step(run.states[2 + 2 * k], run.events[2 + 2 * k], run.step(2 + 2 * k)));
        assert(restart_step(run.states[3 + 2 * k], run.events[3 + 2 * k], run.step(3 + 2 * k)));
    }
}

/// `restart` hands on what it is told: it returns the first error that comes up,
/// or what starting the daemon returned, and nothing follows.
pub proof fn law_restart_hands_on_results<B, E>(
    run: RestartRun<B, E>,
    i: int,
    result: Result<(), E>,
)
    requires
        is_restart_run(run),
        0 <= i < run.len(),
    ensures
        run.actions[i] == RestartAction::<B, E>::Return(result) <==> {
            ||| run.events[i] == RestartEvent::<B, E>::Started(result)
            ||| run.events[i] matches RestartEvent::StopFailed(error) && result == Err::<(), E>(
                error,
            )
            ||| run.events[i] matches RestartEvent::ShowFailed(error) && result == Err::<(), E>(
                error,
            )
        },
        run.actions[i] is Return ==> i == run.len() - 1,
{
    assert(restart_step(run.states[i], run.events[i], run.step(i)));
    if i + 1 < run.len() {
        assert(restart_step(run.states[i + 1], run.events[i + 1], run.step(i + 1)));
    }
}

/// The spinner turns through four characters, over and over.
pub proof fn law_spinner_turns(frame: int)
    requires
        0 <= frame,
    ensures
        frame_text(frame).len() == 2,
        frame_text(frame)[0] == '\r',
        frame_text(frame + 4) == frame_text(frame),
        frame_text(4 * frame)[1] == '|',
        frame_text(4 * frame + 1)[1] == '/',
        frame_text(4 * frame + 2)[1] == '-',
        frame_text(4 * frame + 3)[1] == '\\',
{
}

/// `restart` begins when it is told to, with any configuration, and by stopping the
/// daemon.
pub proof fn law_restart_stops_first<B, E>(
    event: RestartEvent<B, E>,
    r: Option<(RestartState<B>, RestartAction<B, E>)>,
)
    requires
        restart_step(RestartState::Start, event, r),
    ensures
        r is Some <==> event is Begin,
        r matches Some(next) ==> next.1 is RunStop,
{
}

/// Once the daemon was stopped, each of the thirty frames of the spinner is shown for
/// a tenth of a second, then the spinner is wiped out, and the daemon is started.
pub proof fn law_restart_goes_on<B, E>(run: RestartRun<B, E>, i: int)
    requires
        is_restart_run(run),
        0 <= i < run.len(),
    ensures
        run.events[i] is Stopped ==> {
            &&& run.actions[i] matches RestartAction::Show { text }
            &&& text@ == seq!['\r', '|']
        },
        run.events[i] is Shown ==> {
            &&& 2 <= i <= 62
            &&& i < 62 ==> run.actions[i] == (RestartAction::<B, E>::Pause { millis: 100 })
            &&& i == 62 ==> run.actions[i] is RunStart
        },
        run.events[i] is Paused ==> {
            &&& 3 <= i <= 61
            &&& run.actions[i] matches RestartAction::Show { text }
            &&& i < 61 ==> text@ == frame_text((i - 1) / 2)
            &&& i == 61 ==> text@ == "\r \r"@
        },
{
    lemma_restart_unfinished(run, i);
    assert(restart_step(run.states[i], run.events[i], run.step(i)));
    assert(frame_text(0) =~= seq!['\r', '|']);
}

/// The start within a restart is not refused because of the daemon that was
/// stopped: once `stop` has removed the pid file, `start` does not find it.
pub proof fn law_restart_is_not_refused<B, E>(
    d: Daemon,
    stop: StopRun,
    start: StartRun<B, E>,
    before: Option<u32>,
    table: Map<u32, ProcessInfo>,
    name: Seq<char>,
    report: PidReport,
    i: int,
)
    requires
        is_stop_run(d, stop),
        removed_pid_file(stop),
        is_start_run(d, start),
        is_pid_report(pid_file_after(stop, before), table, name, report),
        start.len() >= 2,
        start.events[1] == StartEvent::<B, E>::Pid(report.running),
        0 <= i < start.len(),
    ensures
        !(start.actions[i] is Announce),
{
    law_start_without_pid_file_goes_on(d, start, table, name, report, i);
}

/// The daemon is started with the configuration that `restart` was given.
pub proof fn law_restart_starts_as_configured<B, E>(run: RestartRun<B, E>, i: int)
    requires
        is_restart_run(run),
        0 <= i < run.len(),
        run.actions[i] is RunStart,
    ensures
        run.events[0] == (RestartEvent::<B, E>::Begin { config: run.actions[i]->config }),
{
    lemma_restart_position(run, i);
    lemma_restart_position(run, i + 1);
    assert(restart_step(run.states[i], run.events[i], run.step(i)));
}

/// The runs that the laws speak of are those of the function: whatever it returns is
/// a step of a run.
pub proof fn law_restart_takes_the_steps_of_its_runs<B, E>(
    d: Daemon,
    state: RestartState<B>,
    event: RestartEvent<B, E>,
    r: Option<(RestartState<B>, RestartAction<B, E>)>,
)
    requires
        call_ensures(Daemon::restart::<B, E>, (&d, state, event), r),
    ensures
        restart_step(state, event, r),
{
}

/// The event answers the action: it says how the action went.
pub open spec fn restart_answers<B, E>(
    action: RestartAction<B, E>,
    event: RestartEvent<B, E>,
) -> bool {
    match action {
        RestartAction::RunStop => event is Stopped || event is StopFailed,
        RestartAction::Show { .. } => event is Shown || event is ShowFailed,
        RestartAction::Pause { .. } => event is Paused,
        RestartAction::RunStart { .. } => event is Started,
        _ => false,
    }
}

/// `restart` is never left without a next step: it takes every event that answers
/// the action it has asked for, and no other.
pub proof fn law_restart_takes_answers<B, E>(
    state: RestartState<B>,
    event: RestartEvent<B, E>,
    next: RestartState<B>,
    action: RestartAction<B, E>,
    answer: RestartEvent<B, E>,
)
    requires
        restart_step(state, event, Some((next, action))),
    ensures
        restart_answers(action, answer) <==> !restart_step(next, answer, None),
{
}

} // verus!
