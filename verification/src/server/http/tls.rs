//! Where the certificate of an HTTPS server comes from.

use vstd::prelude::*;

use crate::run::Run;

verus! {

/// Takes connections after a TLS handshake.
#[derive(Clone)]
pub struct RustlsAcceptor<T> {
    /// The TLS configuration, with certificate and key.
    pub config: T,
    /// Seconds that a handshake may take.
    pub timeout: u64,
}

/// Why there is no TLS configuration: both are I/O errors to the caller.
pub enum TlsError<G, E> {
    /// The certificate could not be generated: an I/O error of the kind "other",
    /// with the error of the generator as its cause.
    Other(G),
    /// The I/O error of certificate and key that could not be loaded, as it came.
    Io(E),
}

/// How far the TLS configuration has come.
#[derive(Clone, Copy, PartialEq, Eq, Structural, Debug)]
pub enum TlsState {
    Start,
    AwaitGenerated,
    AwaitLoaded,
    Finished,
}

/// What happened. `P` is a path, `K` a certificate or a key, `T` a TLS
/// configuration, `G` an error of the generator, `E` one of loading.
pub enum TlsEvent<P, K, T, G, E> {
    /// The files that were named, if they were.
    Begin { tls_cert: Option<P>, tls_key: Option<P> },
    /// The server has signed a certificate itself.
    Generated { cert: K, key: K },
    GenerationFailed(G),
    Loaded(T),
    LoadFailed(E),
}

/// What to do next.
pub enum TlsAction<P, K, T, G, E> {
    /// Load a chain of certificates and a private key from PEM files.
    LoadFiles { tls_cert: P, tls_key: P },
    /// Generate a certificate that the server signs itself.
    Generate,
    /// Load certificate and key from PEM data.
    LoadPem { cert: K, key: K },
    /// Return the configuration or the error.
    Return(Result<T, TlsError<G, E>>),
}

/// What `event` leads to in `state`; none, if the event is not an answer to what
/// was asked for.
pub open spec fn tls_step<P, K, T, G, E>(
    state: TlsState,
    event: TlsEvent<P, K, T, G, E>,
) -> Option<(TlsState, TlsAction<P, K, T, G, E>)> {
    match (state, event) {
        (TlsState::Start, TlsEvent::Begin { tls_cert: Some(tls_cert), tls_key: Some(tls_key) }) => Some(
            (TlsState::AwaitLoaded, TlsAction::LoadFiles { tls_cert, tls_key }),
        ),
        (TlsState::Start, TlsEvent::Begin { .. }) => Some(
            (TlsState::AwaitGenerated, TlsAction::Generate),
        ),
        (TlsState::AwaitGenerated, TlsEvent::Generated { cert, key }) => Some(
            (TlsState::AwaitLoaded, TlsAction::LoadPem { cert, key }),
        ),
        (TlsState::AwaitGenerated, TlsEvent::GenerationFailed(error)) => Some(
            (TlsState::Finished, TlsAction::Return(Err(TlsError::Other(error)))),
        ),
        (TlsState::AwaitLoaded, TlsEvent::Loaded(config)) => Some(
            (TlsState::Finished, TlsAction::Return(Ok(config))),
        ),
        (TlsState::AwaitLoaded, TlsEvent::LoadFailed(error)) => Some(
            (TlsState::Finished, TlsAction::Return(Err(TlsError::Io(error)))),
        ),
        _ => None,
    }
}

/// Loads the TLS configuration of a server: one step. The files are used only if
/// both are named; else the server signs its certificate itself.
pub fn load_tls<P, K, T, G, E>(state: TlsState, event: TlsEvent<P, K, T, G, E>) -> (r: Option<
    (TlsState, TlsAction<P, K, T, G, E>),
>)
    ensures
        r == tls_step(state, event),
{
    match (state, event) {
        (TlsState::Start, TlsEvent::Begin { tls_cert, tls_key }) => match (tls_cert, tls_key) {
            (Some(tls_cert), Some(tls_key)) => Some(
                (TlsState::AwaitLoaded, TlsAction::LoadFiles { tls_cert, tls_key }),
            ),
            _ => Some((TlsState::AwaitGenerated, TlsAction::Generate)),
        },
        (TlsState::AwaitGenerated, TlsEvent::Generated { cert, key }) => Some(
            (TlsState::AwaitLoaded, TlsAction::LoadPem { cert, key }),
        ),
        (TlsState::AwaitGenerated, TlsEvent::GenerationFailed(error)) => Some(
            (TlsState::Finished, TlsAction::Return(Err(TlsError::Other(error)))),
        ),
        (TlsState::AwaitLoaded, TlsEvent::Loaded(config)) => Some(
            (TlsState::Finished, TlsAction::Return(Ok(config))),
        ),
        (TlsState::AwaitLoaded, TlsEvent::LoadFailed(error)) => Some(
            (TlsState::Finished, TlsAction::Return(Err(TlsError::Io(error)))),
        ),
        _ => None,
    }
}

// ----- laws -----

pub type TlsRun<P, K, T, G, E> = Run<
    TlsState,
    TlsEvent<P, K, T, G, E>,
    TlsAction<P, K, T, G, E>,
>;

/// `run` is an attempt to load the TLS configuration of a server.
pub open spec fn is_tls_run<P, K, T, G, E>(run: TlsRun<P, K, T, G, E>) -> bool {
    &&& run.begins_in(TlsState::Start)
    &&& forall|i: int|
        0 <= i < run.len() ==> tls_step(run.states[i], run.events[i]) == #[trigger] run.step(i)
}

proof fn lemma_tls_shape<P, K, T, G, E>(run: TlsRun<P, K, T, G, E>)
    requires
        is_tls_run(run),
    ensures
        run.len() <= 3,
        run.len() >= 1 ==> run.events[0] is Begin && tls_step(run.states[0], run.events[0])
            == run.step(0),
        run.len() >= 2 ==> tls_step(run.states[1], run.events[1]) == run.step(1),
        run.len() >= 3 ==> tls_step(run.states[2], run.events[2]) == run.step(2),
{
    if run.len() >= 1 {
        assert(tls_step(run.states[0], run.events[0]) == run.step(0));
    }
    if run.len() >= 2 {
        assert(tls_step(run.states[1], run.events[1]) == run.step(1));
    }
    if run.len() >= 3 {
        assert(tls_step(run.states[2], run.events[2]) == run.step(2));
    }
    if run.len() >= 4 {
        assert(tls_step(run.states[3], run.events[3]) == run.step(3));
    }
}

/// A certificate is generated exactly if a file is not named, and files are read
/// exactly if both are, those that were named.
pub proof fn law_tls_generates_without_files<P, K, T, G, E>(
    run: TlsRun<P, K, T, G, E>,
    cert: Option<P>,
    key: Option<P>,
)
    requires
        is_tls_run(run),
        run.len() >= 1,
        run.events[0] == (TlsEvent::<P, K, T, G, E>::Begin { tls_cert: cert, tls_key: key }),
    ensures
        match (cert, key) {
            (Some(tls_cert), Some(tls_key)) => run.actions[0] == (TlsAction::<
                P,
                K,
                T,
                G,
                E,
            >::LoadFiles { tls_cert, tls_key }),
            _ => run.actions[0] is Generate,
        },
        forall|i: int|
            0 < i < run.len() ==> !((#[trigger] run.actions[i]) is LoadFiles)
                && !(run.actions[i] is Generate),
{
    lemma_tls_shape(run);
}

/// An attempt begins when it is told which files were named, if any.
pub proof fn law_tls_begins_with_the_files<P, K, T, G, E>(event: TlsEvent<P, K, T, G, E>)
    ensures
        tls_step(TlsState::Start, event) is Some <==> event is Begin,
{
}

/// What was generated is what is loaded.
pub proof fn law_tls_loads_what_was_generated<P, K, T, G, E>(
    run: TlsRun<P, K, T, G, E>,
    i: int,
)
    requires
        is_tls_run(run),
        0 <= i < run.len(),
    ensures
        run.actions[i] is LoadPem ==> i == 1 && run.actions[0] is Generate,
        run.actions[i] is LoadPem <==> run.events[i] is Generated,
        run.events[i] matches TlsEvent::Generated { cert, key } ==> run.actions[i]
            == (TlsAction::<P, K, T, G, E>::LoadPem { cert, key }),
{
    lemma_tls_shape(run);
}

/// The configuration that was loaded is returned, or the error that came up: that
/// of loading as it is, that of the generator as an "other" I/O error.
pub proof fn law_tls_hands_on_results<P, K, T, G, E>(
    run: TlsRun<P, K, T, G, E>,
    i: int,
    result: Result<T, TlsError<G, E>>,
)
    requires
        is_tls_run(run),
        0 <= i < run.len(),
    ensures
        run.actions[i] == TlsAction::<P, K, T, G, E>::Return(result) <==> match result {
            Ok(config) => run.events[i] == TlsEvent::<P, K, T, G, E>::Loaded(config),
            Err(TlsError::Io(error)) => run.events[i] == TlsEvent::<P, K, T, G, E>::LoadFailed(
                error,
            ),
            Err(TlsError::Other(error)) => run.events[i] == TlsEvent::<
                P,
                K,
                T,
                G,
                E,
            >::GenerationFailed(error),
        },
        run.actions[i] is Return ==> i == run.len() - 1,
{
    lemma_tls_shape(run);
}

/// The runs that the laws speak of are those of the function: whatever it returns is
/// a step of a run.
pub proof fn law_load_tls_takes_the_steps_of_its_runs<P, K, T, G, E>(
    state: TlsState,
    event: TlsEvent<P, K, T, G, E>,
    r: Option<(TlsState, TlsAction<P, K, T, G, E>)>,
)
    requires
        call_ensures(load_tls::<P, K, T, G, E>, (state, event), r),
    ensures
        r == tls_step(state, event),
{
}

/// The event answers the action: it says how the action went.
pub open spec fn tls_answers<P, K, T, G, E>(
    action: TlsAction<P, K, T, G, E>,
    event: TlsEvent<P, K, T, G, E>,
) -> bool {
    match action {
        TlsAction::LoadFiles { .. } => event is Loaded || event is LoadFailed,
        TlsAction::Generate => event is Generated || event is GenerationFailed,
        TlsAction::LoadPem { .. } => event is Loaded || event is LoadFailed,
        TlsAction::Return(_) => false,
    }
}

/// An attempt is never left without a next step: it takes every event that answers
/// the action it has asked for, and no other.
pub proof fn law_tls_takes_answers<P, K, T, G, E>(
    state: TlsState,
    event: TlsEvent<P, K, T, G, E>,
    next: TlsState,
    action: TlsAction<P, K, T, G, E>,
    answer: TlsEvent<P, K, T, G, E>,
)
    requires
        tls_step(state, event) == Some((next, action)),
    ensures
        tls_answers(action, answer) <==> tls_step(next, answer) is Some,
{
}

} // verus!
