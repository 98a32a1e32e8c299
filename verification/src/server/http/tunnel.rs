//! The tunnel behind a `CONNECT`: take the client's connection over, relay, and
//! close both ends.

use vstd::prelude::*;

use crate::run::Run;

verus! {

/// How far a tunnel has come.
#[derive(Clone, Copy, PartialEq, Eq, Structural, Debug)]
pub enum TunnelState {
    Start,
    AwaitUpgrade,
    /// Bytes go both ways; `direct` if the client's end is a plain TCP stream.
    Relaying { direct: bool },
    ClosingClient,
    /// `upgraded` unless the client's connection could not be taken over.
    ClosingServer { upgraded: bool },
    Finished,
}

/// What happened. `E` is an error.
pub enum TunnelEvent<E> {
    Begin,
    /// The client's connection was taken over.
    Upgraded { direct: bool },
    UpgradeFailed,
    /// Both sides have sent all they had.
    Relayed,
    RelayFailed,
    Closed,
    CloseFailed(E),
}

/// What to do next.
pub enum TunnelAction<E> {
    /// Take the client's connection over.
    Upgrade,
    /// Copy bytes both ways: on the client's TCP stream itself, or through the
    /// upgraded connection.
    Relay { direct: bool },
    CloseClient,
    CloseServer,
    /// The tunnel is done, with this result.
    Finish(Result<(), E>),
}

/// The step that `event` takes a tunnel in `state`; none, if the event is not an
/// answer to what was asked for.
pub open spec fn tunnel_step<E>(state: TunnelState, event: TunnelEvent<E>) -> Option<
    (TunnelState, TunnelAction<E>),
> {
    match (state, event) {
        (TunnelState::Start, TunnelEvent::Begin) => Some(
            (TunnelState::AwaitUpgrade, TunnelAction::Upgrade),
        ),
        (TunnelState::AwaitUpgrade, TunnelEvent::Upgraded { direct }) => Some(
            (TunnelState::Relaying { direct }, TunnelAction::Relay { direct }),
        ),
        (TunnelState::AwaitUpgrade, TunnelEvent::UpgradeFailed) => Some(
            (TunnelState::ClosingServer { upgraded: false }, TunnelAction::CloseServer),
        ),
        (TunnelState::Relaying { direct }, TunnelEvent::Relayed) => Some(after_relay(direct)),
        (TunnelState::Relaying { direct }, TunnelEvent::RelayFailed) => Some(after_relay(direct)),
        (TunnelState::ClosingClient, TunnelEvent::Closed) => Some(
            (TunnelState::ClosingServer { upgraded: true }, TunnelAction::CloseServer),
        ),
        (TunnelState::ClosingClient, TunnelEvent::CloseFailed(error)) => Some(
            (TunnelState::Finished, TunnelAction::Finish(Err(error))),
        ),
        (TunnelState::ClosingServer { .. }, TunnelEvent::Closed) => Some(
            (TunnelState::Finished, TunnelAction::Finish(Ok(()))),
        ),
        (TunnelState::ClosingServer { upgraded }, TunnelEvent::CloseFailed(error)) => Some(
            (
                TunnelState::Finished,
                TunnelAction::Finish(
                    if upgraded {
                        Err(error)
                    } else {
                        Ok(())
                    },
                ),
            ),
        ),
        _ => None,
    }
}

/// After the relay, however it ended, a direct client is closed before the server.
pub open spec fn after_relay<E>(direct: bool) -> (TunnelState, TunnelAction<E>) {
    if direct {
        (TunnelState::ClosingClient, TunnelAction::CloseClient)
    } else {
        (TunnelState::ClosingServer { upgraded: true }, TunnelAction::CloseServer)
    }
}

fn close_after_relay<E>(direct: bool) -> (r: (TunnelState, TunnelAction<E>))
    ensures
        r == after_relay::<E>(direct),
{
    if direct {
        (TunnelState::ClosingClient, TunnelAction::CloseClient)
    } else {
        (TunnelState::ClosingServer { upgraded: true }, TunnelAction::CloseServer)
    }
}

/// Relays bytes between the client and an already-connected server: one step.
pub fn tunnel<E>(
    state: TunnelState,
    event: TunnelEvent<E>,
) -> (r: Option<(TunnelState, TunnelAction<E>)>)
    ensures
        r == tunnel_step(state, event),
{
    match (state, event) {
        (TunnelState::Start, TunnelEvent::Begin) => Some(
            (TunnelState::AwaitUpgrade, TunnelAction::Upgrade),
        ),
        (TunnelState::AwaitUpgrade, TunnelEvent::Upgraded { direct }) => Some(
            (TunnelState::Relaying { direct }, TunnelAction::Relay { direct }),
        ),
        (TunnelState::AwaitUpgrade, TunnelEvent::UpgradeFailed) => Some(
            (TunnelState::ClosingServer { upgraded: false }, TunnelAction::CloseServer),
        ),
        (TunnelState::Relaying { direct }, TunnelEvent::Relayed) => Some(close_after_relay(direct)),
        (TunnelState::Relaying { direct }, TunnelEvent::RelayFailed) => Some(
            close_after_relay(direct),
        ),
        (TunnelState::ClosingClient, TunnelEvent::Closed) => Some(
            (TunnelState::ClosingServer { upgraded: true }, TunnelAction::CloseServer),
        ),
        (TunnelState::ClosingClient, TunnelEvent::CloseFailed(error)) => Some(
            (TunnelState::Finished, TunnelAction::Finish(Err(error))),
        ),
        (TunnelState::ClosingServer { .. }, TunnelEvent::Closed) => Some(
            (TunnelState::Finished, TunnelAction::Finish(Ok(()))),
        ),
        (TunnelState::ClosingServer { upgraded }, TunnelEvent::CloseFailed(error)) => Some(
            (
                TunnelState::Finished,
                TunnelAction::Finish(
                    if upgraded {
                        Err(error)
                    } else {
                        Ok(())
                    },
                ),
            ),
        ),
        _ => None,
    }
}

// ----- laws -----

pub type TunnelRun<E> = Run<TunnelState, TunnelEvent<E>, TunnelAction<E>>;

/// `run` is a run of a tunnel.
pub open spec fn is_tunnel_run<E>(run: TunnelRun<E>) -> bool {
    &&& run.begins_in(TunnelState::Start)
    &&& forall|i: int|
        0 <= i < run.len() ==> tunnel_step(run.states[i], run.events[i]) == #[trigger] run.step(i)
}

proof fn lemma_tunnel_ends<E>(run: TunnelRun<E>)
    requires
        is_tunnel_run(run),
    ensures
        run.len() <= 5,
        run.len() >= 1 ==> run.step(0) == Some((TunnelState::AwaitUpgrade, TunnelAction::<E>::Upgrade)),
{
    if run.len() >= 1 {
        assert(tunnel_step(run.states[0], run.events[0]) == run.step(0));
    }
    if run.len() >= 2 {
        assert(tunnel_step(run.states[1], run.events[1]) == run.step(1));
    }
    if run.len() >= 3 {
        assert(tunnel_step(run.states[2], run.events[2]) == run.step(2));
    }
    if run.len() >= 4 {
        assert(tunnel_step(run.states[3], run.events[3]) == run.step(3));
    }
    if run.len() >= 5 {
        assert(tunnel_step(run.states[4], run.events[4]) == run.step(4));
    }
    if run.len() >= 6 {
        assert(tunnel_step(run.states[5], run.events[5]) == run.step(5));
    }
}

/// Bytes are relayed once at most, and only after the client's connection was
/// taken over: right after it, and in the way it was taken over.
pub proof fn law_tunnel_relays_after_upgrade<E>(run: TunnelRun<E>, i: int)
    requires
        is_tunnel_run(run),
        0 <= i < run.len(),
        run.actions[i] is Relay,
    ensures
        i == 1,
        run.events[1] == (TunnelEvent::<E>::Upgraded { direct: run.actions[1]->direct }),
{
    lemma_tunnel_ends(run);
    if i >= 1 {
        assert(tunnel_step(run.states[1], run.events[1]) == run.step(1));
    }
    if i >= 2 {
        assert(tunnel_step(run.states[2], run.events[2]) == run.step(2));
    }
    if i >= 3 {
        assert(tunnel_step(run.states[3], run.events[3]) == run.step(3));
    }
    if i >= 4 {
        assert(tunnel_step(run.states[4], run.events[4]) == run.step(4));
    }
}

/// A tunnel that is done has closed the server, unless its client could not be
/// closed: then the error is reported.
pub proof fn law_tunnel_closes_server<E>(run: TunnelRun<E>)
    requires
        is_tunnel_run(run),
        run.states.last() == TunnelState::Finished,
    ensures
        run.len() >= 3,
        run.len() <= 5,
        run.actions[run.len() - 2] == TunnelAction::<E>::CloseServer || (run.actions[run.len() - 2]
            == TunnelAction::<E>::CloseClient && (run.events[run.len() - 1] matches
            TunnelEvent::CloseFailed(error) && run.actions[run.len() - 1] == TunnelAction::<E>::Finish(
            Err::<(), E>(error),
        ))),
{
    lemma_tunnel_ends(run);
    let n = run.len() as int;
    assert(n >= 1);
    assert(tunnel_step(run.states[n - 1], run.events[n - 1]) == run.step(n - 1));
    if n >= 2 {
        assert(tunnel_step(run.states[n - 2], run.events[n - 2]) == run.step(n - 2));
    }
}

/// The error that a tunnel reports is that of the close that failed, unless the
/// client's connection could not be taken over.
pub proof fn law_tunnel_reports_the_failed_close<E>(run: TunnelRun<E>, i: int, error: E)
    requires
        is_tunnel_run(run),
        0 <= i < run.len(),
    ensures
        run.actions[i] == TunnelAction::<E>::Finish(Err::<(), E>(error)) <==> run.events[i]
            == TunnelEvent::<E>::CloseFailed(error) && !(run.events[1] is UpgradeFailed),
        run.actions[i] is Finish ==> i == run.len() - 1,
{
    lemma_tunnel_ends(run);
    assert(tunnel_step(run.states[i], run.events[i]) == run.step(i));
    if run.len() >= 2 {
        assert(tunnel_step(run.states[1], run.events[1]) == run.step(1));
    }
    if run.len() >= 3 {
        assert(tunnel_step(run.states[2], run.events[2]) == run.step(2));
    }
    if run.len() >= 4 {
        assert(tunnel_step(run.states[3], run.events[3]) == run.step(3));
    }
    if i + 1 < run.len() {
        assert(tunnel_step(run.states[i + 1], run.events[i + 1]) == run.step(i + 1));
    }
}

/// A relay that breaks off is no error of the tunnel: the steps after it are
/// those after a relay that came to its end.
pub proof fn law_tunnel_ignores_relay_errors<E>(state: TunnelState)
    ensures
        tunnel_step(state, TunnelEvent::<E>::RelayFailed) == tunnel_step(
            state,
            TunnelEvent::<E>::Relayed,
        ),
{
}

/// If the client's connection cannot be taken over, the server is closed and
/// nothing is reported, whether or not the close succeeds.
pub proof fn law_tunnel_upgrade_failure_is_quiet<E>(run: TunnelRun<E>)
    requires
        is_tunnel_run(run),
        run.len() >= 2,
        run.events[1] is UpgradeFailed,
    ensures
        run.actions[1] == TunnelAction::<E>::CloseServer,
        run.len() >= 3 ==> run.len() == 3 && run.actions[2] == TunnelAction::<E>::Finish(
            Ok::<(), E>(()),
        ),
{
    lemma_tunnel_ends(run);
    assert(tunnel_step(run.states[1], run.events[1]) == run.step(1));
    if run.len() >= 3 {
        assert(tunnel_step(run.states[2], run.events[2]) == run.step(2));
    }
    if run.len() >= 4 {
        assert(tunnel_step(run.states[3], run.events[3]) == run.step(3));
    }
}

/// A tunnel begins by taking the client's connection over.
pub proof fn law_tunnel_upgrades_first<E>(event: TunnelEvent<E>)
    ensures
        tunnel_step(TunnelState::Start, event) is Some <==> event is Begin,
        tunnel_step(TunnelState::Start, event) matches Some(next) ==> next.1 is Upgrade,
{
}

/// A connection that was taken over is relayed in the way it was taken over. After
/// the relay, however it ended, a direct client is closed, then the server; any other
/// client goes with the server. A connection that could not be taken over leaves
/// the server to be closed.
pub proof fn law_tunnel_closes_in_order<E>(run: TunnelRun<E>, i: int)
    requires
        is_tunnel_run(run),
        0 <= i < run.len(),
    ensures
        run.events[i] matches TunnelEvent::Upgraded { direct } ==> run.actions[i]
            == (TunnelAction::<E>::Relay { direct }),
        run.events[i] is UpgradeFailed ==> run.actions[i] is CloseServer,
        run.events[i] is Relayed || run.events[i] is RelayFailed ==> {
            &&& i >= 1
            &&& run.actions[i - 1] matches TunnelAction::Relay { direct }
            &&& direct ==> run.actions[i] is CloseClient
            &&& !direct ==> run.actions[i] is CloseServer
        },
        run.events[i] is Closed ==> {
            &&& i >= 1
            &&& run.actions[i - 1] is CloseClient || run.actions[i - 1] is CloseServer
            &&& run.actions[i - 1] is CloseClient ==> run.actions[i] is CloseServer
            &&& run.actions[i - 1] is CloseServer ==> run.actions[i] == TunnelAction::<E>::Finish(
                Ok(()),
            )
        },
{
    assert(tunnel_step(run.states[i], run.events[i]) == run.step(i));
    if i >= 1 {
        assert(tunnel_step(run.states[i - 1], run.events[i - 1]) == run.step(i - 1));
    }
}

/// The runs that the laws speak of are those of the function: whatever it returns is
/// a step of a run.
pub proof fn law_tunnel_takes_the_steps_of_its_runs<E>(
    state: TunnelState,
    event: TunnelEvent<E>,
    r: Option<(TunnelState, TunnelAction<E>)>,
)
    requires
        call_ensures(tunnel::<E>, (state, event), r),
    ensures
        r == tunnel_step(state, event),
{
}

/// The event answers the action: it says how the action went.
pub open spec fn tunnel_answers<E>(action: TunnelAction<E>, event: TunnelEvent<E>) -> bool {
    match action {
        TunnelAction::Upgrade => event is Upgraded || event is UpgradeFailed,
        TunnelAction::Relay { .. } => event is Relayed || event is RelayFailed,
        TunnelAction::CloseClient => event is Closed || event is CloseFailed,
        TunnelAction::CloseServer => event is Closed || event is CloseFailed,
        TunnelAction::Finish(_) => false,
    }
}

/// A tunnel is never left without a next step: it takes every event that answers
/// the action it has asked for, and no other.
pub proof fn law_tunnel_takes_answers<E>(
    state: TunnelState,
    event: TunnelEvent<E>,
    next: TunnelState,
    action: TunnelAction<E>,
    answer: TunnelEvent<E>,
)
    requires
        tunnel_step(state, event) == Some((next, action)),
    ensures
        tunnel_answers(action, answer) <==> tunnel_step(next, answer) is Some,
{
}

} // verus!
