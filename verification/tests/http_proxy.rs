use bytes::Bytes;
use http::StatusCode;
use http_body_util::BodyExt;

use vproxy::server::context::{AuthMode, BindAddr, Context};
use vproxy::server::http::proxy::{
    refusal, route_connect, AuthError, ProxyAction, ProxyEvent, ProxyState, Reply, RequestHead,
    BAD_GATEWAY, BAD_REQUEST, FORBIDDEN, INTERNAL_SERVER_ERROR, OK, PROXY_AUTHENTICATION_REQUIRED,
};
use vproxy::server::http::listen::{
    listen, listen_steps, ListenAction, ListenEvent, ListenState, SocketStep,
};
use vproxy::server::http::response::ProxyResponse;
use vproxy::server::http::tls::{load_tls, TlsAction, TlsError, TlsEvent, TlsState};
use vproxy::server::http::tunnel::{tunnel, TunnelAction, TunnelEvent, TunnelState};
use vproxy::server::http::{Authenticator, Handler, HttpAcceptor, HttpServer};

type Step = Option<(ProxyState, ProxyAction<&'static str, u8, &'static str, u8>)>;

fn context(username: Option<&str>, password: Option<&str>) -> Context<&'static str> {
    Context {
        bind: BindAddr::V4 { address: 0x7f00_0001, port: 1080 },
        concurrent: 1024,
        connect_timeout: 10,
        auth: AuthMode {
            username: username.map(|text| text.to_string()),
            password: password.map(|text| text.to_string()),
        },
        connector: "connector",
    }
}

fn handler() -> Handler<&'static str> {
    Handler::from(context(None, None))
}

fn head(method: &str, authority: Option<&str>) -> RequestHead {
    RequestHead {
        method: method.to_string(),
        authority: authority.map(|text| text.to_string()),
    }
}

/// The head of a request with the given target.
fn head_of(method: &str, uri: &str) -> RequestHead {
    let uri: http::Uri = uri.parse().unwrap();
    head(method, uri.authority().map(|authority| authority.as_str()))
}

fn authenticated(head: RequestHead) -> Step {
    let state = ProxyState::AwaitAuthentication { head };
    handler().proxy(state, ProxyEvent::Authenticated("ext"))
}

fn replied(step: Step) -> Reply {
    match step {
        Some((ProxyState::Finished, ProxyAction::Respond(reply))) => reply,
        _ => panic!("a reply was due"),
    }
}

#[test]
fn statuses_are_those_of_http() {
    assert_eq!(OK, StatusCode::OK.as_u16());
    assert_eq!(BAD_REQUEST, StatusCode::BAD_REQUEST.as_u16());
    assert_eq!(FORBIDDEN, StatusCode::FORBIDDEN.as_u16());
    assert_eq!(
        PROXY_AUTHENTICATION_REQUIRED,
        StatusCode::PROXY_AUTHENTICATION_REQUIRED.as_u16()
    );
    assert_eq!(INTERNAL_SERVER_ERROR, StatusCode::INTERNAL_SERVER_ERROR.as_u16());
    assert_eq!(BAD_GATEWAY, StatusCode::BAD_GATEWAY.as_u16());
    assert_eq!(vproxy::server::http::proxy::CONNECT, http::Method::CONNECT.as_str());
}

#[test]
fn refusals() {
    assert!(matches!(
        refusal(AuthError::ProxyAuthenticationRequired),
        Reply::Challenge { status: 407, challenge } if challenge == "Basic realm=\"Proxy\""
    ));
    assert!(matches!(refusal(AuthError::Forbidden), Reply::Bare { status: 403 }));
    assert!(matches!(refusal(AuthError::Other), Reply::Bare { status: 500 }));
}

#[test]
fn a_refused_client_gets_nothing_else() {
    for method in ["CONNECT", "GET"] {
        let start = ProxyState::Start { head: head(method, Some("example.com:443")) };
        let first: Step = handler().proxy(start, ProxyEvent::Begin);
        let (state, action) = first.unwrap();
        assert!(matches!(action, ProxyAction::Authenticate));
        let reply = replied(handler().proxy(state, ProxyEvent::Refused(AuthError::Forbidden)));
        assert!(matches!(reply, Reply::Bare { status: 403 }));
    }
}

#[test]
fn connect_goes_to_the_authority() {
    for (uri, expected) in [
        ("example.com:443", "example.com:443"),
        ("example.com", "example.com"),
        ("[::1]:8443", "[::1]:8443"),
        ("http://user@example.com:80/path?q", "user@example.com:80"),
    ] {
        match authenticated(head_of("CONNECT", uri)) {
            Some((
                ProxyState::AwaitConnection { authority },
                ProxyAction::Connect { extension, authority: named },
            )) => {
                assert_eq!(authority, expected);
                assert_eq!(named, expected);
                assert_eq!(extension, "ext");
            }
            _ => panic!("a connection was due"),
        }
    }
}

#[test]
fn connect_without_a_host_is_refused() {
    for head in [head_of("CONNECT", "/"), head_of("CONNECT", "/path"), head("CONNECT", None)] {
        assert!(matches!(
            replied(authenticated(head)),
            Reply::Text { status: 400, body } if body == "CONNECT must be to a socket address"
        ));
    }
}

#[test]
fn any_authority_is_connected_to() {
    let asterisk: http::uri::Authority = "*".parse().unwrap();
    for target in [asterisk.as_str(), "h:1"] {
        assert!(matches!(
            authenticated(head("CONNECT", Some(target))),
            Some((_, ProxyAction::Connect { authority, .. })) if authority == target
        ));
    }
}

#[test]
fn routes_follow_the_authority() {
    let step: Step = route_connect("ext", Some("h:1".to_string()));
    assert!(matches!(
        step,
        Some((_, ProxyAction::Connect { extension: "ext", authority })) if authority == "h:1"
    ));
    assert!(matches!(replied(route_connect("ext", None)), Reply::Text { status: 400, .. }));
}

#[test]
fn ok_comes_after_the_connection() {
    let connecting = || ProxyState::AwaitConnection { authority: "h:1".to_string() };
    let step: Step = handler().proxy(connecting(), ProxyEvent::Connected(7));
    match step {
        Some((ProxyState::Finished, ProxyAction::Tunnel { server, authority, reply })) => {
            assert_eq!(server, 7);
            assert_eq!(authority, "h:1");
            assert!(matches!(reply, Reply::Bare { status: 200 }));
        }
        _ => panic!("a tunnel was due"),
    }
    assert!(matches!(
        replied(handler().proxy(connecting(), ProxyEvent::ConnectFailed)),
        Reply::Text { status: 502, body } if body == "outbound connection failed"
    ));
}

#[test]
fn other_methods_are_sent_on() {
    for method in ["GET", "POST", "connect", "CONNECTX", ""] {
        assert!(matches!(
            authenticated(head_of(method, "http://example.com/")),
            Some((ProxyState::AwaitResponse, ProxyAction::Forward { extension: "ext" }))
        ));
    }
}

#[test]
fn what_comes_back_is_handed_on() {
    for result in [Ok("response"), Err(5)] {
        let step: Step = handler().proxy(ProxyState::AwaitResponse, ProxyEvent::Forwarded(result));
        match step {
            Some((ProxyState::Finished, ProxyAction::Return(returned))) => {
                assert_eq!(returned, result)
            }
            _ => panic!("the result was due"),
        }
    }
}

#[test]
fn events_out_of_place_are_not_taken() {
    let step: Step = handler().proxy(ProxyState::Finished, ProxyEvent::Begin);
    assert!(step.is_none());
    let start = ProxyState::Start { head: head("GET", None) };
    let step: Step = handler().proxy(start, ProxyEvent::Connected(1));
    assert!(step.is_none());
}

fn tunnel_run(events: Vec<TunnelEvent<u8>>) -> Vec<TunnelAction<u8>> {
    let mut state = TunnelState::Start;
    let mut actions = Vec::new();
    for event in events {
        let (next, action) = tunnel(state, event).expect("the event answers the action");
        state = next;
        actions.push(action);
    }
    assert_eq!(state, TunnelState::Finished);
    actions
}

#[test]
fn a_direct_tunnel_closes_both_ends() {
    for relay in [TunnelEvent::Relayed, TunnelEvent::RelayFailed] {
        let actions = tunnel_run(vec![
            TunnelEvent::Begin,
            TunnelEvent::Upgraded { direct: true },
            relay,
            TunnelEvent::Closed,
            TunnelEvent::Closed,
        ]);
        assert_eq!(actions.len(), 5);
        assert!(matches!(actions[0], TunnelAction::Upgrade));
        assert!(matches!(actions[1], TunnelAction::Relay { direct: true }));
        assert!(matches!(actions[2], TunnelAction::CloseClient));
        assert!(matches!(actions[3], TunnelAction::CloseServer));
        assert!(matches!(actions[4], TunnelAction::Finish(Ok(()))));
    }
}

#[test]
fn tunnel_errors() {
    let actions = tunnel_run(vec![
        TunnelEvent::Begin,
        TunnelEvent::Upgraded { direct: true },
        TunnelEvent::Relayed,
        TunnelEvent::CloseFailed(3),
    ]);
    assert!(matches!(actions[2], TunnelAction::CloseClient));
    assert!(matches!(actions[3], TunnelAction::Finish(Err(3))));
    let actions = tunnel_run(vec![
        TunnelEvent::Begin,
        TunnelEvent::Upgraded { direct: false },
        TunnelEvent::RelayFailed,
        TunnelEvent::CloseFailed(4),
    ]);
    assert!(matches!(actions[2], TunnelAction::CloseServer));
    assert!(matches!(actions[3], TunnelAction::Finish(Err(4))));
    for close in [TunnelEvent::Closed, TunnelEvent::CloseFailed(5)] {
        let actions = tunnel_run(vec![TunnelEvent::Begin, TunnelEvent::UpgradeFailed, close]);
        assert_eq!(actions.len(), 3);
        assert!(matches!(actions[0], TunnelAction::Upgrade));
        assert!(matches!(actions[1], TunnelAction::CloseServer));
        assert!(matches!(actions[2], TunnelAction::Finish(Ok(()))));
    }
    assert!(tunnel(TunnelState::Start, TunnelEvent::<u8>::Relayed).is_none());
}

#[test]
fn a_password_needs_both_parts() {
    let full = Handler::from(context(Some("user"), Some("secret")));
    assert!(matches!(
        full.authenticator,
        Authenticator::Password { username, password } if username == "user" && password == "secret"
    ));
    assert_eq!(full.connector, "connector");
    for (username, password) in [(None, None), (Some("user"), None), (None, Some("secret"))] {
        let open = Handler::from(context(username, password));
        assert!(matches!(open.authenticator, Authenticator::Open));
    }
}

#[test]
fn acceptors_keep_their_settings() {
    let plain = HttpAcceptor::new(context(Some("user"), Some("secret")));
    assert_eq!(plain.timeout, 10);
    let settings = format!("{:?}", plain.builder);
    assert!(settings.contains("h1_title_case_headers: true"), "{}", settings);
    assert!(settings.contains("h1_preserve_header_case: true"), "{}", settings);
    let secured = plain.with_https(Ok::<&str, u8>("config")).ok().unwrap();
    assert_eq!(secured.acceptor.config, "config");
    assert_eq!(secured.acceptor.timeout, 10);
    assert_eq!(secured.timeout, 10);
    assert_eq!(format!("{:?}", secured.builder), settings);
    assert!(matches!(secured.handler.authenticator, Authenticator::Password { .. }));
    let refused = HttpAcceptor::new(context(None, None)).with_https(Err::<&str, u8>(9));
    assert_eq!(refused.err(), Some(9));
}

#[test]
fn servers_keep_their_socket() {
    let server = HttpServer::new(context(None, None), Ok::<u8, u8>(3)).ok().unwrap();
    assert_eq!(server.listener, 3);
    assert_eq!(server.inner.timeout, 10);
    let server = server.with_https(Ok::<&str, u8>("config")).ok().unwrap();
    assert_eq!(server.listener, 3);
    assert_eq!(server.inner.acceptor.config, "config");
    let server = HttpServer::new(context(None, None), Ok::<u8, u8>(3)).ok().unwrap();
    assert_eq!(server.with_https(Err::<&str, u8>(9)).err(), Some(9));
    assert_eq!(HttpServer::new(context(None, None), Err::<u8, u8>(98)).err(), Some(98));
}

type Tls = TlsEvent<&'static str, u8, &'static str, u8, u8>;

fn tls_run(events: Vec<Tls>) -> Vec<TlsAction<&'static str, u8, &'static str, u8, u8>> {
    let mut state = TlsState::Start;
    let mut actions = Vec::new();
    for event in events {
        let (next, action) = load_tls(state, event).expect("the event answers the action");
        state = next;
        actions.push(action);
    }
    assert_eq!(state, TlsState::Finished);
    actions
}

#[test]
fn tls_files_are_used_if_both_are_named() {
    let begin = || Tls::Begin { tls_cert: Some("cert.pem"), tls_key: Some("key.pem") };
    let actions = tls_run(vec![begin(), Tls::Loaded("config")]);
    assert!(matches!(
        actions[0],
        TlsAction::LoadFiles { tls_cert: "cert.pem", tls_key: "key.pem" }
    ));
    assert!(matches!(actions[1], TlsAction::Return(Ok("config"))));
    let actions = tls_run(vec![begin(), Tls::LoadFailed(2)]);
    assert!(matches!(actions[1], TlsAction::Return(Err(TlsError::Io(2)))));
}

#[test]
fn tls_is_self_signed_else() {
    for (tls_cert, tls_key) in [(None, None), (Some("cert.pem"), None), (None, Some("key.pem"))] {
        let begin = || Tls::Begin { tls_cert, tls_key };
        let generated = || Tls::Generated { cert: 1, key: 2 };
        let actions = tls_run(vec![begin(), generated(), Tls::Loaded("config")]);
        assert!(matches!(actions[0], TlsAction::Generate));
        assert!(matches!(actions[1], TlsAction::LoadPem { cert: 1, key: 2 }));
        assert!(matches!(actions[2], TlsAction::Return(Ok("config"))));
        let actions = tls_run(vec![begin(), generated(), Tls::LoadFailed(5)]);
        assert!(matches!(actions[2], TlsAction::Return(Err(TlsError::Io(5)))));
        let actions = tls_run(vec![begin(), Tls::GenerationFailed(6)]);
        assert!(matches!(actions[1], TlsAction::Return(Err(TlsError::Other(6)))));
    }
    assert!(load_tls(TlsState::Start, Tls::Loaded("config")).is_none());
}

/// Opens a socket; the step with the given number fails.
fn listen_run(failing: Option<usize>) -> (Vec<SocketStep>, Result<&'static str, usize>) {
    let ctx = context(None, None);
    let mut performed = Vec::new();
    let mut state = ListenState::Start;
    let mut event: ListenEvent<&'static str, usize> = ListenEvent::Begin;
    loop {
        let (next, action) = listen(&ctx, state, event).expect("the event answers the action");
        state = next;
        event = match action {
            ListenAction::Perform(step) => {
                let index = performed.len();
                performed.push(step);
                if failing == Some(index) {
                    ListenEvent::Failed(index)
                } else if matches!(step, SocketStep::Listen { .. }) {
                    ListenEvent::Listening("socket")
                } else {
                    ListenEvent::Done
                }
            }
            ListenAction::Return(result) => {
                assert_eq!(state, ListenState::Finished);
                return (performed, result);
            }
        };
    }
}

#[test]
fn the_first_failing_step_is_the_last() {
    let steps = listen_steps(&context(None, None));
    assert_eq!(listen_run(None), (steps.clone(), Ok("socket")));
    for failing in 0..5 {
        assert_eq!(listen_run(Some(failing)), (steps[..=failing].to_vec(), Err(failing)));
    }
    let early: ListenEvent<&str, usize> = ListenEvent::Listening("socket");
    assert!(listen(&context(None, None), ListenState::Await { index: 3 }, early).is_none());
    let late: ListenEvent<&str, usize> = ListenEvent::Done;
    assert!(listen(&context(None, None), ListenState::Await { index: 4 }, late).is_none());
}

#[test]
fn servers_listen_in_five_steps() {
    let mut ctx = context(None, None);
    let v4 = ctx.bind;
    assert_eq!(
        listen_steps(&ctx),
        vec![
            SocketStep::OpenV4,
            SocketStep::SetNodelay(true),
            SocketStep::SetReuseaddr(true),
            SocketStep::Bind(v4),
            SocketStep::Listen { backlog: 1024 },
        ]
    );
    ctx.bind = BindAddr::V6 { address: 1, port: 1080, flowinfo: 0, scope_id: 0 };
    let steps = listen_steps(&ctx);
    assert_eq!(steps[0], SocketStep::OpenV6);
    assert_eq!(steps[3], SocketStep::Bind(ctx.bind));
    assert!(!ctx.bind.is_ipv4());
}

/// The bytes of the response's body.
fn body_of(response: ProxyResponse) -> Bytes {
    let runtime = tokio::runtime::Builder::new_current_thread().build().unwrap();
    runtime.block_on(response.into_body().collect()).unwrap().to_bytes()
}

#[test]
fn replies_become_responses() {
    let response = refusal(AuthError::ProxyAuthenticationRequired).into_response().unwrap();
    assert_eq!(response.status(), StatusCode::PROXY_AUTHENTICATION_REQUIRED);
    assert_eq!(response.headers().len(), 1);
    assert_eq!(response.headers()[http::header::PROXY_AUTHENTICATE], "Basic realm=\"Proxy\"");
    assert_eq!(body_of(response), "");
    let response = refusal(AuthError::Forbidden).into_response().unwrap();
    assert_eq!(response.status(), StatusCode::FORBIDDEN);
    assert!(response.headers().is_empty());
    assert_eq!(body_of(response), "");
    let response = refusal(AuthError::Other).into_response().unwrap();
    assert_eq!(response.status(), StatusCode::INTERNAL_SERVER_ERROR);
    let connecting = ProxyState::AwaitConnection { authority: "h:1".to_string() };
    let failed = replied(handler().proxy(connecting, ProxyEvent::ConnectFailed));
    let response = failed.into_response().unwrap();
    assert_eq!(response.status(), StatusCode::BAD_GATEWAY);
    assert!(response.headers().is_empty());
    assert_eq!(body_of(response), "outbound connection failed");
}

#[test]
fn only_status_codes_and_header_values_are_sent() {
    let challenge = |status: u16, text: &str| {
        Reply::Challenge { status, challenge: text.to_string() }.into_response()
    };
    for (status, sendable) in [(0, false), (99, false), (100, true), (999, true), (1000, false)] {
        assert_eq!(Reply::Bare { status }.into_response().is_ok(), sendable);
        let body = "body".to_string();
        assert_eq!(Reply::Text { status, body }.into_response().is_ok(), sendable);
        assert_eq!(challenge(status, "x").is_ok(), sendable);
    }
    for (text, sendable) in
        [("", true), ("a\tb", true), ("a\nb", false), ("a\u{7f}b", false), ("\u{e9}", true)]
    {
        assert_eq!(challenge(407, text).is_ok(), sendable);
    }
}
