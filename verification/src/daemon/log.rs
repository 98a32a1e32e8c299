//! The `log` command: print what the daemon wrote, each file under its heading.

use vstd::prelude::*;
use vstd::string::*;

use crate::daemon::Daemon;
use crate::run::Run;
use crate::text::joined;

verus! {

/// Heading of the standard output.
pub const STDOUT_HEADING: &'static str = "STDOUT>";

/// Heading of the standard error.
pub const STDERR_HEADING: &'static str = "STDERR>";

/// One of the two files that the daemon writes to.
#[derive(Clone, Copy, PartialEq, Eq, Structural, Debug)]
pub enum LogFile {
    Stdout,
    Stderr,
}

/// One line to print.
pub enum Output {
    Stdout(String),
    Stderr(String),
}

/// An output line, by the text it holds.
#[verifier::ext_equal]
pub enum OutputView {
    Stdout(Seq<char>),
    Stderr(Seq<char>),
}

impl View for Output {
    type V = OutputView;

    open spec fn view(&self) -> OutputView {
        match self {
            Output::Stdout(text) => OutputView::Stdout(text@),
            Output::Stderr(text) => OutputView::Stderr(text@),
        }
    }
}

/// The lines of a list of outputs.
pub open spec fn output_views(out: Seq<Output>) -> Seq<OutputView> {
    out.map_values(|o: Output| o@)
}

/// How far `log` has come.
#[derive(Clone, Copy, PartialEq, Eq, Structural, Debug)]
pub enum LogState {
    Start,
    AwaitExists(LogFile),
    AwaitLength(LogFile),
    AwaitOpen(LogFile),
    /// Lines are being read; `fresh` until the first one was printed.
    Reading { file: LogFile, fresh: bool },
    Finished,
}

/// What happened. `E` is an error.
pub enum LogEvent<E> {
    Begin,
    Exists(bool),
    Length(u64),
    Opened,
    /// The file system refused, with the given error.
    Failed(E),
    Line(String),
    /// A line could not be read, for the given reason.
    LineFailed(String),
    EndOfFile,
}

/// What to do next.
pub enum LogAction<E> {
    CheckExists { path: String },
    ReadLength { path: String },
    Open { path: String },
    /// Print the lines, then read the next line of the file.
    ReadLine { print: Vec<Output> },
    /// Return the result of the command.
    Return(Result<(), E>),
}

pub open spec fn line_failed_text(reason: Seq<char>) -> Seq<char> {
    "Error reading line: "@ + reason
}

impl Daemon {
    pub open spec fn log_path_of(self, file: LogFile) -> Seq<char> {
        match file {
            LogFile::Stdout => self.stdout_file@,
            LogFile::Stderr => self.stderr_file@,
        }
    }

    fn log_path(&self, file: LogFile) -> (r: String)
        ensures
            r@ == self.log_path_of(file),
    {
        match file {
            LogFile::Stdout => self.stdout_file.clone(),
            LogFile::Stderr => self.stderr_file.clone(),
        }
    }
}

impl LogFile {
    pub open spec fn heading_text(self) -> Seq<char> {
        match self {
            LogFile::Stdout => STDOUT_HEADING@,
            LogFile::Stderr => STDERR_HEADING@,
        }
    }

    /// Returns the heading that the lines of the file are printed under.
    pub fn heading(self) -> (r: &'static str)
        ensures
            r@ == self.heading_text(),
    {
        match self {
            LogFile::Stdout => STDOUT_HEADING,
            LogFile::Stderr => STDERR_HEADING,
        }
    }
}

pub open spec fn checks_exists<E>(
    d: Daemon,
    file: LogFile,
    r: Option<(LogState, LogAction<E>)>,
) -> bool {
    &&& r matches Some(next)
    &&& next.0 == LogState::AwaitExists(file)
    &&& next.1 matches LogAction::CheckExists { path }
    &&& path@ == d.log_path_of(file)
}

/// A file is done with: the other one follows, or the command ends.
pub open spec fn leaves_file<E>(
    d: Daemon,
    file: LogFile,
    r: Option<(LogState, LogAction<E>)>,
) -> bool {
    match file {
        LogFile::Stdout => checks_exists(d, LogFile::Stderr, r),
        LogFile::Stderr => r == Some(
            (LogState::Finished, LogAction::<E>::Return(Ok(()))),
        ),
    }
}

pub open spec fn reads_on<E>(
    to: LogState,
    print: Seq<OutputView>,
    r: Option<(LogState, LogAction<E>)>,
) -> bool {
    &&& r matches Some(next)
    &&& next.0 == to
    &&& next.1 matches LogAction::ReadLine { print: p }
    &&& output_views(p@) == print
}

/// `r` is the step that `event` takes `log` in `state`; none, if the event is
/// not an answer to what was asked for.
pub open spec fn log_step<E>(
    d: Daemon,
    state: LogState,
    event: LogEvent<E>,
    r: Option<(LogState, LogAction<E>)>,
) -> bool {
    match (state, event) {
        (LogState::Start, LogEvent::Begin) => checks_exists(d, LogFile::Stdout, r),
        (LogState::AwaitExists(file), LogEvent::Exists(exists)) => if exists {
            &&& r matches Some(next)
            &&& next.0 == LogState::AwaitLength(file)
            &&& next.1 matches LogAction::ReadLength { path }
            &&& path@ == d.log_path_of(file)
        } else {
            leaves_file(d, file, r)
        },
        (LogState::AwaitLength(file), LogEvent::Length(length)) => if length > 0 {
            &&& r matches Some(next)
            &&& next.0 == LogState::AwaitOpen(file)
            &&& next.1 matches LogAction::Open { path }
            &&& path@ == d.log_path_of(file)
        } else {
            leaves_file(d, file, r)
        },
        (LogState::AwaitLength(_), LogEvent::Failed(error)) => r == Some(
            (LogState::Finished, LogAction::<E>::Return(Err(error))),
        ),
        (LogState::AwaitOpen(file), LogEvent::Opened) => reads_on(
            LogState::Reading { file, fresh: true },
            Seq::empty(),
            r,
        ),
        (LogState::AwaitOpen(_), LogEvent::Failed(error)) => r == Some(
            (LogState::Finished, LogAction::<E>::Return(Err(error))),
        ),
        (LogState::Reading { file, fresh }, LogEvent::Line(content)) => reads_on(
            LogState::Reading { file, fresh: false },
            if fresh {
                seq![OutputView::Stdout(file.heading_text()), OutputView::Stdout(content@)]
            } else {
                seq![OutputView::Stdout(content@)]
            },
            r,
        ),
        (LogState::Reading { file, fresh }, LogEvent::LineFailed(reason)) => reads_on(
            LogState::Reading { file, fresh },
            seq![OutputView::Stderr(line_failed_text(reason@))],
            r,
        ),
        (LogState::Reading { file, .. }, LogEvent::EndOfFile) => leaves_file(d, file, r),
        _ => r is None,
    }
}

impl Daemon {
    fn leave_log_file<E>(&self, file: LogFile) -> (r: Option<(LogState, LogAction<E>)>)
        ensures
            leaves_file(*self, file, r),
    {
        match file {
            LogFile::Stdout => Some(
                (
                    LogState::AwaitExists(LogFile::Stderr),
                    LogAction::CheckExists { path: self.log_path(LogFile::Stderr) },
                ),
            ),
            LogFile::Stderr => Some((LogState::Finished, LogAction::Return(Ok(())))),
        }
    }

    /// Shows the log of the daemon: one step of the command.
    pub fn log<E>(
        &self,
        state: LogState,
        event: LogEvent<E>,
    ) -> (r: Option<(LogState, LogAction<E>)>)
        ensures
            log_step(*self, state, event, r),
    {
        match (state, event) {
            (LogState::Start, LogEvent::Begin) => Some(
                (
                    LogState::AwaitExists(LogFile::Stdout),
                    LogAction::CheckExists { path: self.log_path(LogFile::Stdout) },
                ),
            ),
            (LogState::AwaitExists(file), LogEvent::Exists(exists)) => if exists {
                Some(
                    (
                        LogState::AwaitLength(file),
                        LogAction::ReadLength { path: self.log_path(file) },
                    ),
                )
            } else {
                self.leave_log_file(file)
            },
            (LogState::AwaitLength(file), LogEvent::Length(length)) => if length > 0 {
                Some((LogState::AwaitOpen(file), LogAction::Open { path: self.log_path(file) }))
            } else {
                self.leave_log_file(file)
            },
            (LogState::AwaitLength(_), LogEvent::Failed(error)) => Some(
                (LogState::Finished, LogAction::Return(Err(error))),
            ),
            (LogState::AwaitOpen(file), LogEvent::Opened) => {
                let print: Vec<Output> = Vec::new();
                assert(output_views(print@) =~= Seq::empty());
                Some((LogState::Reading { file, fresh: true }, LogAction::ReadLine { print }))
            },
            (LogState::AwaitOpen(_), LogEvent::Failed(error)) => Some(
                (LogState::Finished, LogAction::Return(Err(error))),
            ),
            (LogState::Reading { file, fresh }, LogEvent::Line(content)) => {
                let ghost text = content@;
                let mut print: Vec<Output> = Vec::new();
                if fresh {
                    print.push(Output::Stdout(file.heading().to_owned()));
                }
                print.push(Output::Stdout(content));
                proof {
                    let line = OutputView::Stdout(text);
                    if fresh {
                        assert(output_views(print@) =~= seq![
                            OutputView::Stdout(file.heading_text()),
                            line,
                        ]);
                    } else {
                        assert(output_views(print@) =~= seq![line]);
                    }
                }
                Some((LogState::Reading { file, fresh: false }, LogAction::ReadLine { print }))
            },
            (LogState::Reading { file, fresh }, LogEvent::LineFailed(reason)) => {
                let mut print: Vec<Output> = Vec::new();
                print.push(Output::Stderr(joined("Error reading line: ", reason.as_str())));
                assert(output_views(print@) =~= seq![
                    OutputView::Stderr(line_failed_text(reason@)),
                ]);
                Some((LogState::Reading { file, fresh }, LogAction::ReadLine { print }))
            },
            (LogState::Reading { file, .. }, LogEvent::EndOfFile) => self.leave_log_file(file),
            _ => None,
        }
    }
}

// ----- laws -----

pub type LogRun<E> = Run<LogState, LogEvent<E>, LogAction<E>>;

/// `run` is a run of `log` on the daemon `d`.
pub open spec fn is_log_run<E>(d: Daemon, run: LogRun<E>) -> bool {
    &&& run.begins_in(LogState::Start)
    &&& forall|i: int|
        0 <= i < run.len() ==> log_step(d, run.states[i], run.events[i], #[trigger] run.step(i))
}

/// What the actions of a run print from step `a` up to step `b`.
pub open spec fn printed<E>(actions: Seq<LogAction<E>>, a: int, b: int) -> Seq<OutputView>
    decreases b - a,
{
    if b <= a {
        Seq::empty()
    } else {
        printed(actions, a, b - 1) + (match actions[b - 1] {
            LogAction::ReadLine { print } => output_views(print@),
            _ => Seq::empty(),
        })
    }
}

/// The event is a line of a file, read or not.
pub open spec fn is_line_event<E>(event: LogEvent<E>) -> bool {
    event is Line || event is LineFailed
}

/// The output that a line of a file gives, headings apart.
pub open spec fn line_output<E>(event: LogEvent<E>) -> OutputView {
    match event {
        LogEvent::LineFailed(reason) => OutputView::Stderr(line_failed_text(reason@)),
        LogEvent::Line(content) => OutputView::Stdout(content@),
        _ => arbitrary(),
    }
}

/// The outputs of the lines from step `a` up to step `b`, headings apart.
pub open spec fn contents<E>(events: Seq<LogEvent<E>>, a: int, b: int) -> Seq<OutputView> {
    Seq::new((b - a) as nat, |k: int| line_output(events[a + k]))
}

/// From step `a` up to step `b` lines of one file are read, from its first line on.
pub open spec fn reads_lines<E>(run: LogRun<E>, file: LogFile, a: int, b: int) -> bool {
    &&& 0 <= a <= b <= run.len()
    &&& run.states[a] == (LogState::Reading { file, fresh: true })
    &&& forall|i: int| a <= i < b ==> is_line_event(#[trigger] run.events[i])
}

/// A file without a readable line gets no heading: only its errors are printed.
pub proof fn law_log_unreadable_file_has_no_heading<E>(
    d: Daemon,
    run: LogRun<E>,
    file: LogFile,
    a: int,
    b: int,
)
    requires
        is_log_run(d, run),
        reads_lines(run, file, a, b),
        forall|i: int| a <= i < b ==> !((#[trigger] run.events[i]) is Line),
    ensures
        printed(run.actions, a, b) == contents(run.events, a, b),
        run.states[b] == (LogState::Reading { file, fresh: true }),
    decreases b - a,
{
    if a < b {
        law_log_unreadable_file_has_no_heading(d, run, file, a, b - 1);
        assert(log_step(d, run.states[b - 1], run.events[b - 1], run.step(b - 1)));
        assert(is_line_event(run.events[b - 1]));
        assert(contents(run.events, a, b) =~= contents(run.events, a, b - 1).push(
            line_output(run.events[b - 1]),
        ));
    }
    assert(printed(run.actions, a, b) =~= contents(run.events, a, b));
}

/// A file is printed whole and in order, with its heading once: right before the
/// first line `j` that could be read.
pub proof fn law_log_heading_comes_once<E>(
    d: Daemon,
    run: LogRun<E>,
    file: LogFile,
    a: int,
    j: int,
    b: int,
)
    requires
        is_log_run(d, run),
        reads_lines(run, file, a, b),
        a <= j < b,
        run.events[j] is Line,
        forall|i: int| a <= i < j ==> !((#[trigger] run.events[i]) is Line),
    ensures
        printed(run.actions, a, b) == contents(run.events, a, j) + seq![
            OutputView::Stdout(file.heading_text()),
        ] + contents(run.events, j, b),
        run.states[b] == (LogState::Reading { file, fresh: false }),
    decreases b,
{
    let heading = seq![OutputView::Stdout(file.heading_text())];
    assert(log_step(d, run.states[b - 1], run.events[b - 1], run.step(b - 1)));
    assert(is_line_event(run.events[b - 1]));
    if b == j + 1 {
        law_log_unreadable_file_has_no_heading(d, run, file, a, j);
        assert(contents(run.events, j, b) =~= seq![line_output(run.events[j])]);
    } else {
        law_log_heading_comes_once(d, run, file, a, j, b - 1);
        assert(contents(run.events, j, b) =~= contents(run.events, j, b - 1).push(
            line_output(run.events[b - 1]),
        ));
    }
    assert(printed(run.actions, a, b) =~= contents(run.events, a, j) + heading + contents(
        run.events,
        j,
        b,
    ));
}

/// The file that the command is busy with.
pub open spec fn file_in_hand(state: LogState) -> Option<LogFile> {
    match state {
        LogState::AwaitExists(file) => Some(file),
        LogState::AwaitLength(file) => Some(file),
        LogState::AwaitOpen(file) => Some(file),
        LogState::Reading { file, .. } => Some(file),
        _ => None,
    }
}

/// The standard output is shown before the standard error: once the second file
/// is in hand, the first never is again.
pub proof fn law_log_shows_stdout_first<E>(d: Daemon, run: LogRun<E>, i: int, k: int)
    requires
        is_log_run(d, run),
        0 <= i <= k <= run.len(),
        file_in_hand(run.states[i]) == Some(LogFile::Stderr),
    ensures
        file_in_hand(run.states[k]) == Some(LogFile::Stderr) || run.states[k] is Finished,
    decreases k,
{
    if i < k {
        law_log_shows_stdout_first(d, run, i, k - 1);
        assert(log_step(d, run.states[k - 1], run.events[k - 1], run.step(k - 1)));
    }
}

/// `log` fails exactly with the error of the file system, at once; else it succeeds
/// when the second file is done with.
pub proof fn law_log_hands_on_errors<E>(d: Daemon, run: LogRun<E>, i: int, error: E)
    requires
        is_log_run(d, run),
        0 <= i < run.len(),
    ensures
        run.actions[i] == LogAction::<E>::Return(Err::<(), E>(error)) <==> run.events[i]
            == LogEvent::<E>::Failed(error),
        run.actions[i] == LogAction::<E>::Return(Ok::<(), E>(())) ==> file_in_hand(run.states[i])
            == Some(LogFile::Stderr),
        run.actions[i] is Return ==> i == run.len() - 1,
{
    assert(log_step(d, run.states[i], run.events[i], run.step(i)));
    if i + 1 < run.len() {
        assert(log_step(d, run.states[i + 1], run.events[i + 1], run.step(i + 1)));
    }
}

/// `log` begins when it is told to, with the file of the standard output.
pub proof fn law_log_begins_with_stdout<E>(
    d: Daemon,
    event: LogEvent<E>,
    r: Option<(LogState, LogAction<E>)>,
)
    requires
        log_step(d, LogState::Start, event, r),
    ensures
        r is Some <==> event is Begin,
        r matches Some(next) ==> {
            &&& file_in_hand(next.0) == Some(LogFile::Stdout)
            &&& next.1 matches LogAction::CheckExists { path }
            &&& path@ == d.stdout_file@
        },
{
}

/// The file in hand is done with by step `i`: after the standard output comes the
/// standard error, after that the command has succeeded.
pub open spec fn file_is_done<E>(d: Daemon, run: LogRun<E>, i: int) -> bool {
    if file_in_hand(run.states[i]) == Some(LogFile::Stdout) {
        &&& file_in_hand(run.states[i + 1]) == Some(LogFile::Stderr)
        &&& run.actions[i] matches LogAction::CheckExists { path }
        &&& path@ == d.stderr_file@
    } else {
        run.actions[i] == LogAction::<E>::Return(Ok(()))
    }
}

/// A file that is there and not empty is opened and read from its first line to its
/// end, whatever its length; only one that is missing or empty is passed over.
pub proof fn law_log_reads_every_file_that_has_lines<E>(
    d: Daemon,
    run: LogRun<E>,
    i: int,
    file: LogFile,
    file_path: Seq<char>,
)
    requires
        is_log_run(d, run),
        0 <= i < run.len(),
        file_in_hand(run.states[i]) == Some(file),
        file_path == match file {
            LogFile::Stdout => d.stdout_file@,
            LogFile::Stderr => d.stderr_file@,
        },
    ensures
        run.events[i] == LogEvent::<E>::Exists(true) ==> {
            &&& run.actions[i] matches LogAction::ReadLength { path }
            &&& path@ == file_path
            &&& file_in_hand(run.states[i + 1]) == Some(file)
        },
        run.events[i] matches LogEvent::Length(length) && length > 0 ==> {
            &&& run.actions[i] matches LogAction::Open { path }
            &&& path@ == file_path
            &&& file_in_hand(run.states[i + 1]) == Some(file)
        },
        run.events[i] is Opened ==> {
            &&& run.actions[i] matches LogAction::ReadLine { print }
            &&& print@.len() == 0
            &&& run.states[i + 1] == (LogState::Reading { file, fresh: true })
        },
        run.events[i] is Line || run.events[i] is LineFailed ==> {
            &&& run.actions[i] is ReadLine
            &&& file_in_hand(run.states[i + 1]) == Some(file)
        },
        run.events[i] == LogEvent::<E>::Exists(false) || run.events[i] == LogEvent::<E>::Length(0)
            || run.events[i] is EndOfFile ==> file_is_done(d, run, i),
{
    assert(log_step(d, run.states[i], run.events[i], run.step(i)));
    if run.events[i] is Opened {
        let print = run.actions[i]->print;
        assert(output_views(print@).len() == print@.len());
    }
}

/// A line that was read is printed whole on standard output, as the last thing
/// before the next one is read, and with nothing but a heading before it; why a line
/// could not be read is printed on standard error.
pub proof fn law_log_prints_lines_whole<E>(d: Daemon, run: LogRun<E>, i: int)
    requires
        is_log_run(d, run),
        0 <= i < run.len(),
        run.actions[i] is ReadLine,
    ensures
        ({
            let print = run.actions[i]->print@;
            match run.events[i] {
                LogEvent::Line(content) => {
                    &&& 1 <= print.len() <= 2
                    &&& print.last()@ == OutputView::Stdout(content@)
                },
                LogEvent::LineFailed(reason) => {
                    &&& print.len() == 1
                    &&& print[0]@ == OutputView::Stderr("Error reading line: "@ + reason@)
                },
                _ => print.len() == 0,
            }
        }),
{
    assert(log_step(d, run.states[i], run.events[i], run.step(i)));
    let print = run.actions[i]->print@;
    assert(output_views(print).len() == print.len());
    if print.len() > 0 {
        assert(output_views(print)[0] == print[0]@);
        assert(output_views(print)[print.len() - 1] == print.last()@);
    }
}

/// The runs that the laws speak of are those of the function: whatever it returns is
/// a step of a run.
pub proof fn law_log_takes_the_steps_of_its_runs<E>(
    d: Daemon,
    state: LogState,
    event: LogEvent<E>,
    r: Option<(LogState, LogAction<E>)>,
)
    requires
        call_ensures(Daemon::log::<E>, (&d, state, event), r),
    ensures
        log_step(d, state, event, r),
{
}

/// The event answers the action: it says how the action went.
pub open spec fn log_answers<E>(action: LogAction<E>, event: LogEvent<E>) -> bool {
    match action {
        LogAction::CheckExists { .. } => event is Exists,
        LogAction::ReadLength { .. } => event is Length || event is Failed,
        LogAction::Open { .. } => event is Opened || event is Failed,
        LogAction::ReadLine { .. } => event is Line || event is LineFailed || event is EndOfFile,
        _ => false,
    }
}

/// `log` is never left without a next step: it takes every event that answers
/// the action it has asked for, and no other.
pub proof fn law_log_takes_answers<E>(
    d: Daemon,
    state: LogState,
    event: LogEvent<E>,
    next: LogState,
    action: LogAction<E>,
    answer: LogEvent<E>,
)
    requires
        log_step(d, state, event, Some((next, action))),
    ensures
        log_answers(action, answer) <==> !log_step(d, next, answer, None),
{
}

} // verus!
