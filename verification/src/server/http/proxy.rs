//! What the proxy does with one request: authenticate the client, then open a
//! tunnel for `CONNECT`, or pass the request on.

use vstd::prelude::*;
use vstd::string::*;

use crate::run::Run;
use crate::server::http::Handler;
use crate::text::same_text;

verus! {

/// Status of a tunnel that stands.
pub const OK: u16 = 200;

/// Status of a `CONNECT` that names no host.
pub const BAD_REQUEST: u16 = 400;

/// Status for a client that is not let in.
pub const FORBIDDEN: u16 = 403;

/// Status for a client that has not said who it is.
pub const PROXY_AUTHENTICATION_REQUIRED: u16 = 407;

/// Status of an authentication that went wrong.
pub const INTERNAL_SERVER_ERROR: u16 = 500;

/// Status of a tunnel whose far end cannot be reached.
pub const BAD_GATEWAY: u16 = 502;

/// The method that asks for a tunnel.
pub const CONNECT: &'static str = "CONNECT";

/// What the `Proxy-Authenticate` header tells a client that has not said who it is.
pub const CHALLENGE: &'static str = "Basic realm=\"Proxy\"";

/// Body of the reply to a `CONNECT` that names no host.
pub const MISSING_AUTHORITY: &'static str = "CONNECT must be to a socket address";

/// Body of the reply when the far end of a tunnel cannot be reached.
pub const OUTBOUND_FAILED: &'static str = "outbound connection failed";

/// The part of a request that its way through the proxy depends on.
pub struct RequestHead {
    pub method: String,
    /// The authority of the request target: host and port, if the target has one.
    pub authority: Option<String>,
}

impl RequestHead {
    /// The authority, by its text.
    pub open spec fn target(self) -> Option<Seq<char>> {
        match self.authority {
            Some(authority) => Some(authority@),
            None => None,
        }
    }
}

/// A response that the proxy makes itself.
pub enum Reply {
    /// A status alone.
    Bare { status: u16 },
    /// A status with the header `Proxy-Authenticate`.
    Challenge { status: u16, challenge: String },
    /// A status with a text.
    Text { status: u16, body: String },
}

/// What a reply says.
#[verifier::ext_equal]
pub enum ReplyView {
    Bare { status: u16 },
    Challenge { status: u16, challenge: Seq<char> },
    Text { status: u16, body: Seq<char> },
}

impl ReplyView {
    /// The status of the reply.
    pub open spec fn code(self) -> u16 {
        match self {
            ReplyView::Bare { status } => status,
            ReplyView::Challenge { status, .. } => status,
            ReplyView::Text { status, .. } => status,
        }
    }
}

impl View for Reply {
    type V = ReplyView;

    open spec fn view(&self) -> ReplyView {
        match *self {
            Reply::Bare { status } => ReplyView::Bare { status },
            Reply::Challenge { status, challenge } => ReplyView::Challenge {
                status,
                challenge: challenge@,
            },
            Reply::Text { status, body } => ReplyView::Text { status, body: body@ },
        }
    }
}

/// Why a client was not authenticated.
#[derive(Clone, Copy, PartialEq, Eq, Structural, Debug)]
pub enum AuthError {
    ProxyAuthenticationRequired,
    Forbidden,
    /// Anything else.
    Other,
}

/// The reply to a client that was not authenticated.
pub open spec fn refusal_of(error: AuthError) -> ReplyView {
    match error {
        AuthError::ProxyAuthenticationRequired => ReplyView::Challenge {
            status: PROXY_AUTHENTICATION_REQUIRED,
            challenge: CHALLENGE@,
        },
        AuthError::Forbidden => ReplyView::Bare { status: FORBIDDEN },
        AuthError::Other => ReplyView::Bare { status: INTERNAL_SERVER_ERROR },
    }
}

/// Makes the reply to a client that was not authenticated.
pub fn refusal(error: AuthError) -> (r: Reply)
    ensures
        r@ == refusal_of(error),
{
    match error {
        AuthError::ProxyAuthenticationRequired => Reply::Challenge {
            status: PROXY_AUTHENTICATION_REQUIRED,
            challenge: CHALLENGE.to_owned(),
        },
        AuthError::Forbidden => Reply::Bare { status: FORBIDDEN },
        AuthError::Other => Reply::Bare { status: INTERNAL_SERVER_ERROR },
    }
}

/// How far a request has come.
pub enum ProxyState {
    Start { head: RequestHead },
    AwaitAuthentication { head: RequestHead },
    /// The connection to `authority` is being made.
    AwaitConnection { authority: String },
    /// The request was sent on.
    AwaitResponse,
    Finished,
}

/// What happened. `X` is what authentication tells about the client, `S` a
/// connection, `R` the response to a request that was sent on, `E` an error.
pub enum ProxyEvent<X, S, R, E> {
    Begin,
    Authenticated(X),
    Refused(AuthError),
    Connected(S),
    ConnectFailed,
    /// What came back for the request that was sent on.
    Forwarded(Result<R, E>),
}

/// What to do next.
pub enum ProxyAction<X, S, R, E> {
    /// Authenticate the client by the headers of its request.
    Authenticate,
    /// Connect to the host and port of the authority.
    Connect { extension: X, authority: String },
    /// Send the reply.
    Respond(Reply),
    /// Run the tunnel to the connection in the background, and send the reply.
    Tunnel { server: S, authority: String, reply: Reply },
    /// Send the request on.
    Forward { extension: X },
    /// Return this response or this error.
    Return(Result<R, E>),
}

pub open spec fn responds<X, S, R, E>(
    reply: ReplyView,
    r: Option<(ProxyState, ProxyAction<X, S, R, E>)>,
) -> bool {
    &&& r matches Some(next)
    &&& next.0 is Finished
    &&& next.1 matches ProxyAction::Respond(made)
    &&& made@ == reply
}

/// A request for a tunnel is led to the given authority; without one it is refused.
pub open spec fn connects<X, S, R, E>(
    extension: X,
    authority: Option<Seq<char>>,
    r: Option<(ProxyState, ProxyAction<X, S, R, E>)>,
) -> bool {
    match authority {
        Some(target) => {
            &&& r matches Some(next)
            &&& next.0 matches ProxyState::AwaitConnection { authority: kept }
            &&& kept@ == target
            &&& next.1 matches ProxyAction::Connect { extension: handed, authority: named }
            &&& handed == extension
            &&& named@ == target
        },
        None => responds(
            ReplyView::Text { status: BAD_REQUEST, body: MISSING_AUTHORITY@ },
            r,
        ),
    }
}

/// `r` is the step that `event` takes a request in `state`; none, if the event
/// is not an answer to what was asked for.
pub open spec fn proxy_step<X, S, R, E>(
    state: ProxyState,
    event: ProxyEvent<X, S, R, E>,
    r: Option<(ProxyState, ProxyAction<X, S, R, E>)>,
) -> bool {
    match (state, event) {
        (ProxyState::Start { head }, ProxyEvent::Begin) => r == Some(
            (ProxyState::AwaitAuthentication { head }, ProxyAction::<X, S, R, E>::Authenticate),
        ),
        (ProxyState::AwaitAuthentication { head }, ProxyEvent::Refused(error)) => responds(
            refusal_of(error),
            r,
        ),
        (ProxyState::AwaitAuthentication { head }, ProxyEvent::Authenticated(extension)) => {
            if head.method@ == CONNECT@ {
                connects(extension, head.target(), r)
            } else {
                r == Some(
                    (ProxyState::AwaitResponse, ProxyAction::<X, S, R, E>::Forward { extension }),
                )
            }
        },
        (ProxyState::AwaitResponse, ProxyEvent::Forwarded(result)) => r == Some(
            (ProxyState::Finished, ProxyAction::<X, S, R, E>::Return(result)),
        ),
        (ProxyState::AwaitConnection { authority }, ProxyEvent::Connected(server)) => {
            &&& r matches Some(next)
            &&& next.0 is Finished
            &&& next.1 matches ProxyAction::Tunnel { server: kept, authority: target, reply }
            &&& kept == server
            &&& target@ == authority@
            &&& reply@ == (ReplyView::Bare { status: OK })
        },
        (ProxyState::AwaitConnection { .. }, ProxyEvent::ConnectFailed) => responds(
            ReplyView::Text { status: BAD_GATEWAY, body: OUTBOUND_FAILED@ },
            r,
        ),
        _ => r is None,
    }
}

/// Leads a request for a tunnel on, once the authority of its target is known.
pub fn route_connect<X, S, R, E>(extension: X, authority: Option<String>) -> (r: Option<
    (ProxyState, ProxyAction<X, S, R, E>),
>)
    ensures
        match authority {
            Some(target) => connects(extension, Some(target@), r),
            None => connects(extension, None, r),
        },
{
    match authority {
        Some(authority) => {
            let named = authority.clone();
            Some(
                (
                    ProxyState::AwaitConnection { authority },
                    ProxyAction::Connect { extension, authority: named },
                ),
            )
        },
        None => {
            let reply = Reply::Text { status: BAD_REQUEST, body: MISSING_AUTHORITY.to_owned() };
            Some((ProxyState::Finished, ProxyAction::Respond(reply)))
        },
    }
}

impl<C> Handler<C> {
    /// Answers a request: one step.
    pub fn proxy<X, S, R, E>(&self, state: ProxyState, event: ProxyEvent<X, S, R, E>) -> (r: Option<
        (ProxyState, ProxyAction<X, S, R, E>),
    >)
        ensures
            proxy_step(state, event, r),
    {
        match (state, event) {
            (ProxyState::Start { head }, ProxyEvent::Begin) => Some(
                (ProxyState::AwaitAuthentication { head }, ProxyAction::Authenticate),
            ),
            (ProxyState::AwaitAuthentication { .. }, ProxyEvent::Refused(error)) => Some(
                (ProxyState::Finished, ProxyAction::Respond(refusal(error))),
            ),
            (ProxyState::AwaitAuthentication { head }, ProxyEvent::Authenticated(extension)) => {
                if same_text(head.method.as_str(), CONNECT) {
                    route_connect(extension, head.authority)
                } else {
                    Some((ProxyState::AwaitResponse, ProxyAction::Forward { extension }))
                }
            },
            (ProxyState::AwaitResponse, ProxyEvent::Forwarded(result)) => Some(
                (ProxyState::Finished, ProxyAction::Return(result)),
            ),
            (ProxyState::AwaitConnection { authority }, ProxyEvent::Connected(server)) => Some(
                (
                    ProxyState::Finished,
                    ProxyAction::Tunnel { server, authority, reply: Reply::Bare { status: OK } },
                ),
            ),
            (ProxyState::AwaitConnection { .. }, ProxyEvent::ConnectFailed) => {
                let reply = Reply::Text { status: BAD_GATEWAY, body: OUTBOUND_FAILED.to_owned() };
                Some((ProxyState::Finished, ProxyAction::Respond(reply)))
            },
            _ => None,
        }
    }
}

// ----- laws -----

pub type ProxyRun<X, S, R, E> = Run<ProxyState, ProxyEvent<X, S, R, E>, ProxyAction<X, S, R, E>>;

/// `run` is a run of the proxy on a request.
pub open spec fn is_proxy_run<X, S, R, E>(head: RequestHead, run: ProxyRun<X, S, R, E>) -> bool {
    &&& run.begins_in(ProxyState::Start { head })
    &&& forall|i: int|
        0 <= i < run.len() ==> proxy_step(run.states[i], run.events[i], #[trigger] run.step(i))
}

/// The action ends the request: the client gets its response by it.
pub open spec fn is_answer<X, S, R, E>(action: ProxyAction<X, S, R, E>) -> bool {
    action is Respond || action is Tunnel || action is Return
}

/// The status that the proxy itself answers with.
pub open spec fn own_status<X, S, R, E>(action: ProxyAction<X, S, R, E>) -> Option<u16> {
    match action {
        ProxyAction::Respond(reply) => Some(reply@.code()),
        ProxyAction::Tunnel { reply, .. } => Some(reply@.code()),
        _ => None,
    }
}

proof fn lemma_proxy_shape<X, S, R, E>(head: RequestHead, run: ProxyRun<X, S, R, E>)
    requires
        is_proxy_run(head, run),
    ensures
        run.len() <= 3,
        run.len() >= 1 ==> run.actions[0] is Authenticate && run.states[1]
            == (ProxyState::AwaitAuthentication { head }),
        run.len() >= 2 ==> proxy_step(run.states[1], run.events[1], run.step(1)),
        run.len() >= 3 ==> proxy_step(run.states[2], run.events[2], run.step(2))
            && (run.states[2] is AwaitConnection || run.states[2] is AwaitResponse)
            && run.states[3] is Finished,
{
    if run.len() >= 1 {
        assert(proxy_step(run.states[0], run.events[0], run.step(0)));
    }
    if run.len() >= 2 {
        assert(proxy_step(run.states[1], run.events[1], run.step(1)));
    }
    if run.len() >= 3 {
        assert(proxy_step(run.states[2], run.events[2], run.step(2)));
    }
    if run.len() >= 4 {
        assert(proxy_step(run.states[3], run.events[3], run.step(3)));
    }
}

/// A client that is not authenticated gets the refusal, and nothing else is done
/// for it: no connection is made, and the request goes nowhere.
pub proof fn law_refused_client_gets_the_refusal_only<X, S, R, E>(
    head: RequestHead,
    run: ProxyRun<X, S, R, E>,
    error: AuthError,
)
    requires
        is_proxy_run(head, run),
        run.len() >= 2,
        run.events[1] == ProxyEvent::<X, S, R, E>::Refused(error),
    ensures
        run.len() == 2,
        run.actions[0] is Authenticate,
        run.actions[1] matches ProxyAction::Respond(reply) && reply@ == refusal_of(error),
{
    lemma_proxy_shape(head, run);
}

/// No connection is made and no request is sent on before the client was
/// authenticated, and what authentication told of the client goes with it.
pub proof fn law_authentication_comes_first<X, S, R, E>(
    head: RequestHead,
    run: ProxyRun<X, S, R, E>,
    i: int,
)
    requires
        is_proxy_run(head, run),
        0 <= i < run.len(),
        run.actions[i] is Connect || run.actions[i] is Forward || run.actions[i] is Tunnel,
    ensures
        i >= 1,
        run.events[1] matches ProxyEvent::Authenticated(extension) && match run.actions[i] {
            ProxyAction::Connect { extension: handed, .. } => handed == extension,
            ProxyAction::Forward { extension: handed } => handed == extension,
            _ => true,
        },
{
    lemma_proxy_shape(head, run);
}

/// `200` is sent only when the tunnel's far end, the authority of the request
/// target, has been connected to.
pub proof fn law_ok_means_connected<X, S, R, E>(
    head: RequestHead,
    run: ProxyRun<X, S, R, E>,
    i: int,
)
    requires
        is_proxy_run(head, run),
        0 <= i < run.len(),
        own_status(run.actions[i]) == Some(OK),
    ensures
        i >= 1,
        head.method@ == CONNECT@,
        run.actions[i - 1] matches ProxyAction::Connect { authority, .. } && head.target() == Some(
            authority@,
        ),
        run.events[i] matches ProxyEvent::Connected(server) && run.actions[i] matches
            ProxyAction::Tunnel { server: used, authority, .. } && used == server && head.target()
            == Some(authority@),
{
    lemma_proxy_shape(head, run);
}

/// A `CONNECT` is never sent on, and only a `CONNECT` gets a tunnel.
pub proof fn law_only_connect_gets_a_tunnel<X, S, R, E>(
    head: RequestHead,
    run: ProxyRun<X, S, R, E>,
    i: int,
)
    requires
        is_proxy_run(head, run),
        0 <= i < run.len(),
    ensures
        run.actions[i] is Forward ==> head.method@ != CONNECT@,
        run.actions[i] is Connect || run.actions[i] is Tunnel ==> head.method@ == CONNECT@,
{
    lemma_proxy_shape(head, run);
}

/// Only a client that has not said who it is gets the challenge, and with `407`.
pub proof fn law_challenge_goes_with_407<X, S, R, E>(
    head: RequestHead,
    run: ProxyRun<X, S, R, E>,
    i: int,
)
    requires
        is_proxy_run(head, run),
        0 <= i < run.len(),
        run.actions[i] is Respond,
    ensures
        ({
            let reply = run.actions[i]->Respond_0@;
            &&& reply is Challenge <==> reply.code() == PROXY_AUTHENTICATION_REQUIRED
            &&& reply is Challenge <==> run.events[i] == ProxyEvent::<X, S, R, E>::Refused(
                AuthError::ProxyAuthenticationRequired,
            )
            &&& reply is Challenge ==> reply->challenge == CHALLENGE@
        }),
{
    lemma_proxy_shape(head, run);
}

/// A request is answered once: within three steps, by the last of them, which is
/// the only answer.
pub proof fn law_one_answer<X, S, R, E>(head: RequestHead, run: ProxyRun<X, S, R, E>, i: int)
    requires
        is_proxy_run(head, run),
        0 <= i < run.len(),
    ensures
        run.len() <= 3,
        is_answer(run.actions[i]) <==> run.states[i + 1] is Finished,
        is_answer(run.actions[i]) ==> i == run.len() - 1,
{
    lemma_proxy_shape(head, run);
}

/// A `CONNECT` is answered with `400` exactly if its target has no authority; any
/// authority, whatever its text, is connected to.
pub proof fn law_connect_needs_an_authority<X, S, R, E>(
    head: RequestHead,
    run: ProxyRun<X, S, R, E>,
)
    requires
        is_proxy_run(head, run),
        run.len() >= 2,
        run.events[1] is Authenticated,
        head.method@ == CONNECT@,
    ensures
        own_status(run.actions[1]) == Some(BAD_REQUEST) <==> head.target() is None,
        head.target() is Some ==> run.actions[1] is Connect,
{
    lemma_proxy_shape(head, run);
}

/// What comes back for a request that was sent on is handed to the client as it
/// is, response or error, and nothing else is.
pub proof fn law_forwarded_result_is_handed_on<X, S, R, E>(
    head: RequestHead,
    run: ProxyRun<X, S, R, E>,
    i: int,
    result: Result<R, E>,
)
    requires
        is_proxy_run(head, run),
        0 <= i < run.len(),
    ensures
        run.actions[i] == ProxyAction::<X, S, R, E>::Return(result) <==> run.events[i]
            == ProxyEvent::<X, S, R, E>::Forwarded(result),
        run.actions[i] is Return ==> i == 2 && run.actions[1] is Forward,
{
    lemma_proxy_shape(head, run);
    assert(proxy_step(run.states[i], run.events[i], run.step(i)));
}

/// Every request begins with the authentication of the client.
pub proof fn law_every_request_is_authenticated<X, S, R, E>(
    head: RequestHead,
    event: ProxyEvent<X, S, R, E>,
    r: Option<(ProxyState, ProxyAction<X, S, R, E>)>,
)
    requires
        proxy_step(ProxyState::Start { head }, event, r),
    ensures
        r is Some <==> event is Begin,
        r matches Some(next) ==> next.1 is Authenticate,
{
}

/// Why a client is refused decides on its answer: `407` with the challenge, `403` or
/// `500` with nothing.
pub proof fn law_refusals_by_reason<X, S, R, E>(
    head: RequestHead,
    run: ProxyRun<X, S, R, E>,
    i: int,
    error: AuthError,
)
    requires
        is_proxy_run(head, run),
        0 <= i < run.len(),
        run.events[i] == ProxyEvent::<X, S, R, E>::Refused(error),
    ensures
        run.actions[i] matches ProxyAction::Respond(reply) && reply@ == match error {
            AuthError::ProxyAuthenticationRequired => ReplyView::Challenge {
                status: 407,
                challenge: "Basic realm=\"Proxy\""@,
            },
            AuthError::Forbidden => ReplyView::Bare { status: 403 },
            AuthError::Other => ReplyView::Bare { status: 500 },
        },
{
    assert(proxy_step(run.states[i], run.events[i], run.step(i)));
}

/// A request of an authenticated client that is no `CONNECT` is sent on, whatever
/// its method and its target, with what authentication told of the client.
pub proof fn law_other_requests_are_sent_on<X, S, R, E>(
    head: RequestHead,
    run: ProxyRun<X, S, R, E>,
    i: int,
    extension: X,
)
    requires
        is_proxy_run(head, run),
        0 <= i < run.len(),
        run.events[i] == ProxyEvent::<X, S, R, E>::Authenticated(extension),
        head.method@ != "CONNECT"@,
    ensures
        run.actions[i] == (ProxyAction::<X, S, R, E>::Forward { extension }),
{
    lemma_proxy_shape(head, run);
    assert(proxy_step(run.states[i], run.events[i], run.step(i)));
}

/// A `CONNECT` of an authenticated client goes to exactly the host that its target
/// names, whatever it is, with what authentication told of the client; one that
/// names none is answered with `400` and the reason.
pub proof fn law_connect_goes_where_it_says<X, S, R, E>(
    head: RequestHead,
    run: ProxyRun<X, S, R, E>,
    i: int,
    extension: X,
)
    requires
        is_proxy_run(head, run),
        0 <= i < run.len(),
        run.events[i] == ProxyEvent::<X, S, R, E>::Authenticated(extension),
        head.method@ == "CONNECT"@,
    ensures
        match head.authority {
            Some(target) => {
                &&& run.actions[i] matches ProxyAction::Connect { extension: handed, authority }
                &&& handed == extension
                &&& authority@ == target@
            },
            None => {
                &&& run.actions[i] matches ProxyAction::Respond(reply)
                &&& reply@ == ReplyView::Text {
                    status: 400,
                    body: "CONNECT must be to a socket address"@,
                }
            },
        },
{
    lemma_proxy_shape(head, run);
    assert(proxy_step(run.states[i], run.events[i], run.step(i)));
}

/// Once the far end was tried, the client gets `200` with a tunnel to that very
/// connection, or `502` and the reason.
pub proof fn law_connection_decides_on_the_tunnel<X, S, R, E>(
    head: RequestHead,
    run: ProxyRun<X, S, R, E>,
    i: int,
)
    requires
        is_proxy_run(head, run),
        0 <= i < run.len(),
    ensures
        run.events[i] matches ProxyEvent::Connected(connection) ==> {
            &&& run.actions[i] matches ProxyAction::Tunnel { server, authority, reply }
            &&& server == connection
            &&& head.authority matches Some(target)
            &&& authority@ == target@
            &&& reply@ == ReplyView::Bare { status: 200 }
        },
        run.events[i] is ConnectFailed ==> {
            &&& run.actions[i] matches ProxyAction::Respond(reply)
            &&& reply@ == ReplyView::Text { status: 502, body: "outbound connection failed"@ }
        },
{
    lemma_proxy_shape(head, run);
    assert(proxy_step(run.states[i], run.events[i], run.step(i)));
}

/// The runs that the laws speak of are those of the function: whatever it returns is
/// a step of a run.
pub proof fn law_proxy_takes_the_steps_of_its_runs<C, X, S, R, E>(
    handler: Handler<C>,
    state: ProxyState,
    event: ProxyEvent<X, S, R, E>,
    r: Option<(ProxyState, ProxyAction<X, S, R, E>)>,
)
    requires
        call_ensures(Handler::<C>::proxy::<X, S, R, E>, (&handler, state, event), r),
    ensures
        proxy_step(state, event, r),
{
}

/// The event answers the action: it says how the action went.
pub open spec fn proxy_answers<X, S, R, E>(
    action: ProxyAction<X, S, R, E>,
    event: ProxyEvent<X, S, R, E>,
) -> bool {
    match action {
        ProxyAction::Authenticate => event is Authenticated || event is Refused,
        ProxyAction::Connect { .. } => event is Connected || event is ConnectFailed,
        ProxyAction::Forward { .. } => event is Forwarded,
        _ => false,
    }
}

/// A request is never left without a next step: it takes every event that answers
/// the action it has asked for, and no other.
pub proof fn law_proxy_takes_answers<X, S, R, E>(
    state: ProxyState,
    event: ProxyEvent<X, S, R, E>,
    next: ProxyState,
    action: ProxyAction<X, S, R, E>,
    answer: ProxyEvent<X, S, R, E>,
)
    requires
        proxy_step(state, event, Some((next, action))),
    ensures
        proxy_answers(action, answer) <==> !proxy_step(next, answer, None),
{
}

} // verus!
