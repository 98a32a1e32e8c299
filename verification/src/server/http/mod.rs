//! HTTP server: how it listens, and what its acceptor is made of.

pub mod listen;
pub mod proxy;
pub mod response;
pub mod tls;
pub mod tunnel;

use hyper_util::rt::TokioExecutor;
use hyper_util::server::conn::auto::Builder;
use vstd::prelude::*;

use crate::server::context::{AuthMode, Context};
use crate::server::http::tls::RustlsAcceptor;

verus! {

/// How clients prove who they are.
#[derive(Clone)]
pub enum Authenticator {
    /// Everybody is let in.
    Open,
    Password { username: String, password: String },
}

/// Answers the requests of all connections.
#[derive(Clone)]
pub struct Handler<C> {
    pub authenticator: Authenticator,
    pub connector: C,
}

/// Clients are asked for a password only if a user name and a password are set.
pub open spec fn authenticator_of(auth: AuthMode) -> Authenticator {
    match (auth.username, auth.password) {
        (Some(username), Some(password)) => Authenticator::Password { username, password },
        _ => Authenticator::Open,
    }
}

impl<C> vstd::std_specs::convert::FromSpecImpl<Context<C>> for Handler<C> {
    open spec fn obeys_from_spec() -> bool {
        true
    }

    open spec fn from_spec(ctx: Context<C>) -> Handler<C> {
        Handler { authenticator: authenticator_of(ctx.auth), connector: ctx.connector }
    }
}

impl<C> From<Context<C>> for Handler<C> {
    fn from(ctx: Context<C>) -> (r: Handler<C>) {
        let authenticator = match (ctx.auth.username, ctx.auth.password) {
            (Some(username), Some(password)) => Authenticator::Password { username, password },
            _ => Authenticator::Open,
        };
        Handler { authenticator, connector: ctx.connector }
    }
}

/// Takes connections as they come.
#[derive(Clone, Copy, PartialEq, Eq, Structural, Debug)]
pub struct DefaultAcceptor;

/// `hyper_util::server::conn::auto::Builder`: how HTTP connections are served.
#[verifier::external_type_specification]
#[verifier::external_body]
#[verifier::reject_recursive_types(E)]
pub struct ExBuilder<E>(hyper_util::server::conn::auto::Builder<E>);

/// `hyper_util::rt::TokioExecutor`: runs the tasks of a connection.
#[verifier::external_type_specification]
#[verifier::external_body]
pub struct ExTokioExecutor(hyper_util::rt::TokioExecutor);

/// The connection builder of `hyper_util` on a `TokioExecutor`, with these two
/// HTTP/1 settings and else as `Builder::new` makes it.
pub uninterp spec fn connection_builder_of(
    title_case_headers: bool,
    preserve_header_case: bool,
) -> Builder<TokioExecutor>;

/// Wraps `Builder::new` and the two HTTP/1 settings `title_case_headers` and
/// `preserve_header_case`. What is built depends on the two arguments alone.
#[verifier::external_body]
fn connection_builder(title_case_headers: bool, preserve_header_case: bool) -> (r: Builder<
    TokioExecutor,
>)
    ensures
        r == connection_builder_of(title_case_headers, preserve_header_case),
{
    let mut builder = Builder::new(TokioExecutor::new());
    builder
        .http1()
        .title_case_headers(title_case_headers)
        .preserve_header_case(preserve_header_case);
    builder
}

/// HTTP acceptor.
pub struct HttpAcceptor<A, C> {
    pub acceptor: A,
    /// Connection timeout in seconds.
    pub timeout: u64,
    pub handler: Handler<C>,
    /// How connections are served: header names are written in title case, and
    /// keep the case they came in.
    pub builder: Builder<TokioExecutor>,
}

/// HTTP server, with the socket that it listens on.
pub struct HttpServer<L, A, C> {
    pub listener: L,
    pub inner: HttpAcceptor<A, C>,
}

/// `secured` is `plain` behind TLS with the given configuration: nothing but the
/// acceptor is another.
pub open spec fn is_secured<T, C>(
    plain: HttpAcceptor<DefaultAcceptor, C>,
    config: T,
    secured: HttpAcceptor<RustlsAcceptor<T>, C>,
) -> bool {
    &&& secured.acceptor.config == config
    &&& secured.acceptor.timeout == plain.timeout
    &&& secured.timeout == plain.timeout
    &&& secured.handler == plain.handler
    &&& secured.builder == plain.builder
}

/// What the acceptor made from a context holds.
pub open spec fn acceptor_of<C>(ctx: Context<C>) -> HttpAcceptor<DefaultAcceptor, C> {
    HttpAcceptor {
        acceptor: DefaultAcceptor,
        timeout: ctx.connect_timeout,
        handler: Handler { authenticator: authenticator_of(ctx.auth), connector: ctx.connector },
        builder: connection_builder_of(true, true),
    }
}

impl<C> HttpAcceptor<DefaultAcceptor, C> {
    /// Create a new [`HttpAcceptor`] instance.
    pub fn new(ctx: Context<C>) -> (r: HttpAcceptor<DefaultAcceptor, C>)
        ensures
            r == acceptor_of(ctx),
    {
        let timeout = ctx.connect_timeout;
        let handler = Handler::from(ctx);
        HttpAcceptor {
            acceptor: DefaultAcceptor,
            timeout,
            handler,
            builder: connection_builder(true, true),
        }
    }

    /// Enable HTTPS with the TLS configuration that the steps of
    /// [`load_tls`](tls::load_tls) have led to, or fail with their error.
    pub fn with_https<T, F>(self, config: Result<T, F>) -> (r: Result<
        HttpAcceptor<RustlsAcceptor<T>, C>,
        F,
    >)
        ensures
            match config {
                Ok(config) => r matches Ok(secured) && is_secured(self, config, secured),
                Err(error) => r == Err::<HttpAcceptor<RustlsAcceptor<T>, C>, F>(error),
            },
    {
        match config {
            Ok(config) => Ok(
                HttpAcceptor {
                    acceptor: RustlsAcceptor { config, timeout: self.timeout },
                    timeout: self.timeout,
                    handler: self.handler,
                    builder: self.builder,
                },
            ),
            Err(error) => Err(error),
        }
    }
}

impl<L, C> HttpServer<L, DefaultAcceptor, C> {
    /// Create a new [`HttpServer`] instance on the socket that the steps of
    /// [`listen`](listen::listen) have led to, or fail with their error.
    pub fn new<E>(ctx: Context<C>, listener: Result<L, E>) -> (r: Result<
        HttpServer<L, DefaultAcceptor, C>,
        E,
    >)
        ensures
            match listener {
                Ok(listener) => {
                    &&& r matches Ok(server)
                    &&& server.listener == listener
                    &&& server.inner == acceptor_of(ctx)
                },
                Err(error) => r == Err::<HttpServer<L, DefaultAcceptor, C>, E>(error),
            },
    {
        match listener {
            Ok(listener) => Ok(HttpServer { listener, inner: HttpAcceptor::new(ctx) }),
            Err(error) => Err(error),
        }
    }

    /// Enable HTTPS with the TLS configuration that the steps of
    /// [`load_tls`](tls::load_tls) have led to, or fail with their error.
    pub fn with_https<T, F>(self, config: Result<T, F>) -> (r: Result<
        HttpServer<L, RustlsAcceptor<T>, C>,
        F,
    >)
        ensures
            match config {
                Ok(config) => {
                    &&& r matches Ok(server)
                    &&& server.listener == self.listener
                    &&& is_secured(self.inner, config, server.inner)
                },
                Err(error) => r == Err::<HttpServer<L, RustlsAcceptor<T>, C>, F>(error),
            },
    {
        match self.inner.with_https(config) {
            Ok(inner) => Ok(HttpServer { listener: self.listener, inner }),
            Err(error) => Err(error),
        }
    }
}

// ----- laws -----

/// Clients are asked for a password exactly if a user name and a password are set,
/// and for exactly these; else everybody is let in.
pub proof fn law_password_needs_both_parts(auth: AuthMode, username: String, password: String)
    ensures
        authenticator_of(auth) == (Authenticator::Password { username, password })
            <==> auth.username == Some(username) && auth.password == Some(password),
        authenticator_of(auth) is Open <==> auth.username is None || auth.password is None,
{
}

/// An acceptor is made as its context says: with its timeout and its connector, its
/// password if it has one whole, and header names in title case that keep the case
/// they came in.
pub proof fn law_acceptor_is_as_configured<C>(ctx: Context<C>)
    ensures
        ({
            let acceptor = acceptor_of(ctx);
            &&& acceptor.timeout == ctx.connect_timeout
            &&& acceptor.handler.connector == ctx.connector
            &&& acceptor.builder == connection_builder_of(true, true)
            &&& match acceptor.handler.authenticator {
                Authenticator::Password { username, password } => {
                    &&& ctx.auth.username == Some(username)
                    &&& ctx.auth.password == Some(password)
                },
                Authenticator::Open => ctx.auth.username is None || ctx.auth.password is None,
            }
        }),
{
}

/// A server is made exactly if its socket listens: with that socket and as its context
/// says, or not at all and with the error as it came.
pub proof fn law_server_needs_its_socket<L, C, E>(
    ctx: Context<C>,
    listener: Result<L, E>,
    r: Result<HttpServer<L, DefaultAcceptor, C>, E>,
)
    requires
        call_ensures(HttpServer::<L, DefaultAcceptor, C>::new::<E>, (ctx, listener), r),
    ensures
        listener matches Ok(socket) ==> {
            &&& r matches Ok(server)
            &&& server.listener == socket
            &&& server.inner.timeout == ctx.connect_timeout
            &&& server.inner.handler.connector == ctx.connector
            &&& server.inner.handler.authenticator == authenticator_of(ctx.auth)
            &&& server.inner.builder == connection_builder_of(true, true)
        },
        listener matches Err(error) ==> (r matches Err(returned) && returned == error),
{
}

/// A server turns to HTTPS exactly if there is a TLS configuration: it keeps its
/// socket, its timeout, its handler and its connection builder. Else the error is
/// returned as it came.
pub proof fn law_https_needs_a_configuration<L, C, T, F>(
    plain: HttpServer<L, DefaultAcceptor, C>,
    config: Result<T, F>,
    r: Result<HttpServer<L, RustlsAcceptor<T>, C>, F>,
)
    requires
        call_ensures(
            HttpServer::<L, DefaultAcceptor, C>::with_https::<T, F>,
            (plain, config),
            r,
        ),
    ensures
        config matches Ok(tls) ==> {
            &&& r matches Ok(server)
            &&& server.listener == plain.listener
            &&& server.inner.acceptor.config == tls
            &&& server.inner.acceptor.timeout == plain.inner.timeout
            &&& server.inner.timeout == plain.inner.timeout
            &&& server.inner.handler == plain.inner.handler
            &&& server.inner.builder == plain.inner.builder
        },
        config matches Err(error) ==> (r matches Err(returned) && returned == error),
{
}

/// HTTPS changes nothing but how connections are taken: the timeout stays, and holds
/// for the handshake too; handler and connection builder stay.
pub proof fn law_https_changes_the_acceptor_only<T, C>(
    plain: HttpAcceptor<DefaultAcceptor, C>,
    config: T,
    secured: HttpAcceptor<RustlsAcceptor<T>, C>,
)
    ensures
        is_secured(plain, config, secured) <==> secured == (HttpAcceptor {
            acceptor: RustlsAcceptor { config, timeout: plain.timeout },
            timeout: plain.timeout,
            handler: plain.handler,
            builder: plain.builder,
        }),
{
}

} // verus!
