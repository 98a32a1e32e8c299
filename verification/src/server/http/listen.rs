//! How the server comes to its listening socket.

use vstd::prelude::*;

use crate::run::Run;
use crate::server::context::{BindAddr, Context};

verus! {

/// One system call on the way to a listening socket.
#[derive(Clone, Copy, PartialEq, Eq, Structural, Debug)]
pub enum SocketStep {
    OpenV4,
    OpenV6,
    SetNodelay(bool),
    SetReuseaddr(bool),
    Bind(BindAddr),
    Listen { backlog: u32 },
}

/// How many steps there are to a listening socket.
pub const LISTEN_STEPS: usize = 5;

/// The steps to the listening socket of a server, in order.
pub open spec fn listen_steps_of<C>(ctx: Context<C>) -> Seq<SocketStep> {
    seq![
        if ctx.bind is V4 {
            SocketStep::OpenV4
        } else {
            SocketStep::OpenV6
        },
        SocketStep::SetNodelay(true),
        SocketStep::SetReuseaddr(true),
        SocketStep::Bind(ctx.bind),
        SocketStep::Listen { backlog: ctx.concurrent },
    ]
}

/// Returns the steps to the listening socket of a server.
pub fn listen_steps<C>(ctx: &Context<C>) -> (r: Vec<SocketStep>)
    ensures
        r@ == listen_steps_of(*ctx),
{
    let mut steps: Vec<SocketStep> = Vec::new();
    if ctx.bind.is_ipv4() {
        steps.push(SocketStep::OpenV4);
    } else {
        steps.push(SocketStep::OpenV6);
    }
    steps.push(SocketStep::SetNodelay(true));
    steps.push(SocketStep::SetReuseaddr(true));
    steps.push(SocketStep::Bind(ctx.bind));
    steps.push(SocketStep::Listen { backlog: ctx.concurrent });
    assert(steps@ =~= listen_steps_of(*ctx));
    steps
}

/// How far the server has come.
#[derive(Clone, Copy, PartialEq, Eq, Structural, Debug)]
pub enum ListenState {
    Start,
    /// The step with this number, counted from 0, is under way.
    Await { index: usize },
    Finished,
}

/// What happened. `L` is a listening socket, `E` an error.
pub enum ListenEvent<L, E> {
    Begin,
    /// A step before the last has succeeded.
    Done,
    /// The last step has succeeded.
    Listening(L),
    Failed(E),
}

/// What to do next.
pub enum ListenAction<L, E> {
    Perform(SocketStep),
    /// The attempt is over, with this result.
    Return(Result<L, E>),
}

/// What `event` leads to in `state`; none, if the event is not an answer to what
/// was asked for.
pub open spec fn listen_step<C, L, E>(
    ctx: Context<C>,
    state: ListenState,
    event: ListenEvent<L, E>,
) -> Option<(ListenState, ListenAction<L, E>)> {
    match (state, event) {
        (ListenState::Start, ListenEvent::Begin) => Some(
            (ListenState::Await { index: 0 }, ListenAction::Perform(listen_steps_of(ctx)[0])),
        ),
        (ListenState::Await { index }, ListenEvent::Done) => if index + 1 < LISTEN_STEPS {
            Some(
                (
                    ListenState::Await { index: (index + 1) as usize },
                    ListenAction::Perform(listen_steps_of(ctx)[index + 1]),
                ),
            )
        } else {
            None
        },
        (ListenState::Await { index }, ListenEvent::Listening(listener)) => if index + 1
            == LISTEN_STEPS {
            Some((ListenState::Finished, ListenAction::Return(Ok(listener))))
        } else {
            None
        },
        (ListenState::Await { .. }, ListenEvent::Failed(error)) => Some(
            (ListenState::Finished, ListenAction::Return(Err(error))),
        ),
        _ => None,
    }
}

/// Opens the listening socket of a server: one step. The first system call that
/// fails ends the attempt.
pub fn listen<C, L, E>(
    ctx: &Context<C>,
    state: ListenState,
    event: ListenEvent<L, E>,
) -> (r: Option<
    (ListenState, ListenAction<L, E>),
>)
    ensures
        r == listen_step(*ctx, state, event),
{
    match (state, event) {
        (ListenState::Start, ListenEvent::Begin) => {
            let steps = listen_steps(ctx);
            Some((ListenState::Await { index: 0 }, ListenAction::Perform(steps[0])))
        },
        (ListenState::Await { index }, ListenEvent::Done) => if index < LISTEN_STEPS - 1 {
            let steps = listen_steps(ctx);
            let index: usize = index + 1;
            Some((ListenState::Await { index }, ListenAction::Perform(steps[index])))
        } else {
            None
        },
        (ListenState::Await { index }, ListenEvent::Listening(listener)) => if index
            == LISTEN_STEPS - 1 {
            Some((ListenState::Finished, ListenAction::Return(Ok(listener))))
        } else {
            None
        },
        (ListenState::Await { .. }, ListenEvent::Failed(error)) => Some(
            (ListenState::Finished, ListenAction::Return(Err(error))),
        ),
        _ => None,
    }
}

// ----- laws -----

pub type ListenRun<L, E> = Run<ListenState, ListenEvent<L, E>, ListenAction<L, E>>;

/// `run` is an attempt to open the listening socket of a server.
pub open spec fn is_listen_run<C, L, E>(ctx: Context<C>, run: ListenRun<L, E>) -> bool {
    &&& run.begins_in(ListenState::Start)
    &&& forall|i: int|
        0 <= i < run.len() ==> listen_step(ctx, run.states[i], run.events[i])
            == #[trigger] run.step(i)
}

/// The first `n` actions of an attempt are the first `n` steps, in order, and all
/// of them but the last have succeeded.
pub open spec fn performs_in_order<C, L, E>(
    ctx: Context<C>,
    run: ListenRun<L, E>,
    n: int,
) -> bool {
    &&& 0 <= n <= LISTEN_STEPS
    &&& forall|j: int|
        0 <= j < n ==> #[trigger] run.actions[j] == ListenAction::<L, E>::Perform(
            listen_steps_of(ctx)[j],
        )
    &&& forall|j: int| 0 < j < n ==> (#[trigger] run.events[j]) is Done
}

proof fn lemma_listen_positions<C, L, E>(ctx: Context<C>, run: ListenRun<L, E>, i: int)
    requires
        is_listen_run(ctx, run),
        0 <= i <= run.len(),
    ensures
        match run.states[i] {
            ListenState::Start => i == 0,
            ListenState::Await { index } => i == index + 1 && performs_in_order(ctx, run, i),
            ListenState::Finished => i >= 2 && run.actions[i - 1] is Return && performs_in_order(
                ctx,
                run,
                i - 1,
            ),
        },
    decreases i,
{
    if i > 0 {
        lemma_listen_positions(ctx, run, i - 1);
        assert(listen_step(ctx, run.states[i - 1], run.events[i - 1]) == run.step(i - 1));
    }
}

/// The system calls are made in order, each after the one before it succeeded.
/// The first that fails is the last that is tried, and its error is returned as
/// it is.
pub proof fn law_listen_returns_the_first_error<C, L, E>(
    ctx: Context<C>,
    run: ListenRun<L, E>,
    i: int,
    error: E,
)
    requires
        is_listen_run(ctx, run),
        0 <= i < run.len(),
    ensures
        run.actions[i] == ListenAction::Return(Err::<L, E>(error)) <==> run.events[i]
            == ListenEvent::<L, E>::Failed(error),
        run.actions[i] is Return ==> i == run.len() - 1 && performs_in_order(ctx, run, i),
        run.actions[i] is Perform ==> performs_in_order(ctx, run, i + 1),
{
    lemma_listen_positions(ctx, run, i);
    lemma_listen_positions(ctx, run, i + 1);
    assert(listen_step(ctx, run.states[i], run.events[i]) == run.step(i));
    if i + 1 < run.len() {
        assert(listen_step(ctx, run.states[i + 1], run.events[i + 1]) == run.step(i + 1));
    }
}

/// The attempt succeeds exactly if all five steps do, with the socket that the
/// last of them gave.
pub proof fn law_listen_succeeds_after_all_steps<C, L, E>(
    ctx: Context<C>,
    run: ListenRun<L, E>,
    i: int,
    listener: L,
)
    requires
        is_listen_run(ctx, run),
        0 <= i < run.len(),
    ensures
        run.actions[i] == ListenAction::Return(Ok::<L, E>(listener)) <==> run.events[i]
            == ListenEvent::<L, E>::Listening(listener),
        run.events[i] is Listening ==> i == LISTEN_STEPS && performs_in_order(ctx, run, i),
{
    lemma_listen_positions(ctx, run, i);
    assert(listen_step(ctx, run.states[i], run.events[i]) == run.step(i));
}

/// An attempt begins when it is told to, by opening a socket of the family of the
/// configured address.
pub proof fn law_listen_opens_the_right_family<C, L, E>(
    ctx: Context<C>,
    event: ListenEvent<L, E>,
)
    ensures
        listen_step(ctx, ListenState::Start, event) is Some <==> event is Begin,
        listen_step(ctx, ListenState::Start, event) matches Some(next) ==> match ctx.bind {
            BindAddr::V4 { .. } => next.1 == ListenAction::<L, E>::Perform(SocketStep::OpenV4),
            BindAddr::V6 { .. } => next.1 == ListenAction::<L, E>::Perform(SocketStep::OpenV6),
        },
{
}

/// The server listens where it was told to: the socket is bound to exactly the
/// configured address, with its port, and listens with the configured backlog. Before
/// that `TCP_NODELAY` and the reuse of addresses are switched on.
pub proof fn law_listen_is_as_configured<C, L, E>(ctx: Context<C>, run: ListenRun<L, E>, i: int)
    requires
        is_listen_run(ctx, run),
        0 <= i < run.len(),
    ensures
        run.actions[i] matches ListenAction::Perform(step) ==> match step {
            SocketStep::OpenV4 => i == 0 && ctx.bind is V4,
            SocketStep::OpenV6 => i == 0 && ctx.bind is V6,
            SocketStep::SetNodelay(on) => i == 1 && on,
            SocketStep::SetReuseaddr(on) => i == 2 && on,
            SocketStep::Bind(address) => i == 3 && address == ctx.bind,
            SocketStep::Listen { backlog } => i == 4 && backlog == ctx.concurrent,
        },
        run.events[i] is Done ==> run.actions[i] is Perform && 1 <= i <= 4,
{
    lemma_listen_positions(ctx, run, i);
    assert(listen_step(ctx, run.states[i], run.events[i]) == run.step(i));
}

/// The runs that the laws speak of are those of the function: whatever it returns is
/// a step of a run.
pub proof fn law_listen_takes_the_steps_of_its_runs<C, L, E>(
    ctx: Context<C>,
    state: ListenState,
    event: ListenEvent<L, E>,
    r: Option<(ListenState, ListenAction<L, E>)>,
)
    requires
        call_ensures(listen::<C, L, E>, (&ctx, state, event), r),
    ensures
        r == listen_step(ctx, state, event),
{
}

/// The event answers the action: it says how the action went.
pub open spec fn listen_answers<L, E>(
    action: ListenAction<L, E>,
    event: ListenEvent<L, E>,
) -> bool {
    match action {
        ListenAction::Perform(SocketStep::Listen { .. }) => event is Listening || event is Failed,
        ListenAction::Perform(_) => event is Done || event is Failed,
        ListenAction::Return(_) => false,
    }
}

/// An attempt is never left without a next step: it takes every event that answers
/// the action it has asked for, and no other.
pub proof fn law_listen_takes_answers<C, L, E>(
    ctx: Context<C>,
    state: ListenState,
    event: ListenEvent<L, E>,
    next: ListenState,
    action: ListenAction<L, E>,
    answer: ListenEvent<L, E>,
)
    requires
        listen_step(ctx, state, event) == Some((next, action)),
    ensures
        listen_answers(action, answer) <==> listen_step(ctx, next, answer) is Some,
{
}

} // verus!
