//! From a reply of the proxy to the response that is sent.

use bytes::Bytes;
use http_body_util::combinators::BoxBody;
use http_body_util::{BodyExt, Empty, Full};
use vstd::prelude::*;
use vstd::utf8::encode_utf8;

use crate::server::http::proxy::{
    is_proxy_run, proxy_step, refusal_of, AuthError, ProxyAction, ProxyRun, Reply, ReplyView,
    RequestHead, CHALLENGE,
};

verus! {

/// Name of the header that asks a client who it is.
pub const PROXY_AUTHENTICATE: &'static str = "proxy-authenticate";

/// `http::Response`: head and body of a response.
#[verifier::external_type_specification]
#[verifier::external_body]
#[verifier::reject_recursive_types(T)]
pub struct ExResponse<T>(http::Response<T>);

/// `http::Error`: why a response could not be built.
#[verifier::external_type_specification]
#[verifier::external_body]
pub struct ExHttpError(http::Error);

/// `http_body_util::combinators::BoxBody`: a body of any make.
#[verifier::external_type_specification]
#[verifier::external_body]
#[verifier::reject_recursive_types(D)]
#[verifier::reject_recursive_types(E)]
pub struct ExBoxBody<D, E>(http_body_util::combinators::BoxBody<D, E>);

/// `bytes::Bytes`: a piece of a body.
#[verifier::external_type_specification]
#[verifier::external_body]
pub struct ExBytes(bytes::Bytes);

/// `hyper::Error`: why a body broke off.
#[verifier::external_type_specification]
#[verifier::external_body]
pub struct ExHyperError(hyper::Error);

/// A response as the proxy sends it.
pub type ProxyResponse = http::Response<BoxBody<Bytes, hyper::Error>>;

/// The reply cannot be sent: its status is not of three digits, or its challenge
/// holds a byte that no header value may have.
#[derive(Clone, Copy, PartialEq, Eq, Structural, Debug)]
pub struct InvalidReply;

/// A status code has three digits.
pub open spec fn is_status_code(status: u16) -> bool {
    100 <= status <= 999
}

/// The byte may stand in a header name: a digit, a letter, or one of
/// `` !#$%&'*+-.^_`|~ ``.
pub open spec fn is_name_byte(b: u8) -> bool {
    ||| 48 <= b <= 57
    ||| 65 <= b <= 90
    ||| 94 <= b <= 122
    ||| b == 33
    ||| 35 <= b <= 39
    ||| b == 42
    ||| b == 43
    ||| b == 45
    ||| b == 46
    ||| b == 124
    ||| b == 126
}

/// A header name has one byte at least and 65535 at most.
pub open spec fn is_header_name(text: Seq<char>) -> bool {
    &&& 1 <= encode_utf8(text).len() <= 65535
    &&& forall|i: int|
        0 <= i < encode_utf8(text).len() ==> is_name_byte(#[trigger] encode_utf8(text)[i])
}

/// A header value holds no control characters but tabs.
pub open spec fn is_header_value(text: Seq<char>) -> bool {
    forall|i: int|
        0 <= i < encode_utf8(text).len() ==> {
            let b = #[trigger] encode_utf8(text)[i];
            b == 9 || (b >= 32 && b != 127)
        }
}

/// A response can be made with this status and this header.
pub open spec fn is_sendable_with(status: u16, name: Seq<char>, value: Seq<char>) -> bool {
    &&& is_status_code(status)
    &&& is_header_name(name)
    &&& is_header_value(value)
}

/// The response that `http::Response::builder` makes with a status and the body
/// `http_body_util::Empty`.
pub uninterp spec fn bare_response_of(status: u16) -> ProxyResponse;

/// The response that `http::Response::builder` makes with a status, a header and
/// the body `http_body_util::Empty`.
pub uninterp spec fn header_response_of(
    status: u16,
    name: Seq<char>,
    value: Seq<char>,
) -> ProxyResponse;

/// The response that `http::Response::builder` makes with a status and a text as
/// the body `http_body_util::Full`.
pub uninterp spec fn text_response_of(status: u16, body: Seq<char>) -> ProxyResponse;

/// What the builder of `http` returns.
type Built = Result<ProxyResponse, http::Error>;

/// Wraps `http::Response::builder` with `status` and an empty body, boxed by
/// `BodyExt::boxed`. It succeeds exactly on the status codes; the response depends
/// on the status alone.
#[verifier::external_body]
fn bare_response(status: u16) -> (r: Built)
    ensures
        r is Ok <==> is_status_code(status),
        r matches Ok(response) ==> response == bare_response_of(status),
{
    let body = Empty::<Bytes>::new().map_err(|never| match never {}).boxed();
    http::Response::builder().status(status).body(body)
}

/// Wraps `http::Response::builder` with `status`, one `header` and an empty body,
/// boxed by `BodyExt::boxed`. It succeeds exactly on a status code with a header
/// name and a header value; the response depends on the three arguments alone.
#[verifier::external_body]
fn header_response(status: u16, name: &str, value: String) -> (r: Built)
    ensures
        r is Ok <==> is_sendable_with(status, name@, value@),
        r matches Ok(response) ==> response == header_response_of(status, name@, value@),
{
    let body = Empty::<Bytes>::new().map_err(|never| match never {}).boxed();
    http::Response::builder().status(status).header(name, value).body(body)
}

/// Wraps `http::Response::builder` with `status` and a text as the whole body,
/// boxed by `BodyExt::boxed`. It succeeds exactly on the status codes; the
/// response depends on the two arguments alone.
#[verifier::external_body]
fn text_response(status: u16, text: String) -> (r: Built)
    ensures
        r is Ok <==> is_status_code(status),
        r matches Ok(response) ==> response == text_response_of(status, text@),
{
    let body = Full::new(Bytes::from(text)).map_err(|never| match never {}).boxed();
    http::Response::builder().status(status).body(body)
}

/// The reply can be sent.
pub open spec fn is_sendable(reply: ReplyView) -> bool {
    match reply {
        ReplyView::Bare { status } => is_status_code(status),
        ReplyView::Challenge { status, challenge } => is_status_code(status) && is_header_value(
            challenge,
        ),
        ReplyView::Text { status, .. } => is_status_code(status),
    }
}

/// The response to a reply that can be sent.
pub open spec fn response_of(reply: ReplyView) -> ProxyResponse {
    match reply {
        ReplyView::Bare { status } => bare_response_of(status),
        ReplyView::Challenge { status, challenge } => header_response_of(
            status,
            PROXY_AUTHENTICATE@,
            challenge,
        ),
        ReplyView::Text { status, body } => text_response_of(status, body),
    }
}

proof fn lemma_header_name()
    ensures
        is_header_name(PROXY_AUTHENTICATE@),
{
    reveal_strlit("proxy-authenticate");
    vstd::utf8::is_ascii_chars_encode_utf8(PROXY_AUTHENTICATE@);
    assert forall|i: int| 0 <= i < encode_utf8(PROXY_AUTHENTICATE@).len() implies is_name_byte(
        #[trigger] encode_utf8(PROXY_AUTHENTICATE@)[i],
    ) by {
        assert(PROXY_AUTHENTICATE@[i] as u8 == encode_utf8(PROXY_AUTHENTICATE@)[i]);
    }
}

impl Reply {
    /// Makes the response.
    pub fn into_response(self) -> (r: Result<ProxyResponse, InvalidReply>)
        ensures
            match r {
                Ok(response) => is_sendable(self@) && response == response_of(self@),
                Err(_) => !is_sendable(self@),
            },
    {
        proof {
            lemma_header_name();
        }
        let built = match self {
            Reply::Bare { status } => bare_response(status),
            Reply::Challenge { status, challenge } => header_response(
                status,
                PROXY_AUTHENTICATE,
                challenge,
            ),
            Reply::Text { status, body } => text_response(status, body),
        };
        match built {
            Ok(response) => Ok(response),
            Err(_) => Err(InvalidReply),
        }
    }
}

// ----- laws -----

proof fn lemma_refusals_are_sendable(error: AuthError)
    ensures
        is_sendable(refusal_of(error)),
{
    reveal_strlit("Basic realm=\"Proxy\"");
    vstd::utf8::is_ascii_chars_encode_utf8(CHALLENGE@);
    assert forall|i: int| 0 <= i < encode_utf8(CHALLENGE@).len() implies {
        let b = #[trigger] encode_utf8(CHALLENGE@)[i];
        b == 9 || (b >= 32 && b != 127)
    } by {
        assert(CHALLENGE@[i] as u8 == encode_utf8(CHALLENGE@)[i]);
    }
}

/// A reply that can be sent becomes a response that says the same: the same status,
/// the same text, and a challenge as the header `Proxy-Authenticate`.
pub proof fn law_response_says_what_the_reply_says(
    reply: Reply,
    r: Result<ProxyResponse, InvalidReply>,
)
    requires
        call_ensures(Reply::into_response, (reply,), r),
    ensures
        r is Ok <==> is_sendable(reply@),
        r matches Ok(response) ==> match reply {
            Reply::Bare { status } => response == bare_response_of(status),
            Reply::Text { status, body } => response == text_response_of(status, body@),
            Reply::Challenge { status, challenge } => response == header_response_of(
                status,
                "proxy-authenticate"@,
                challenge@,
            ),
        },
{
}

/// A reply can be sent exactly if its status has three digits and its challenge, if
/// it has one, holds no control character but tabs; its text may be any.
pub proof fn law_sendable_replies(status: u16, text: Seq<char>)
    ensures
        is_sendable(ReplyView::Bare { status }) <==> 100 <= status <= 999,
        is_sendable(ReplyView::Text { status, body: text }) <==> 100 <= status <= 999,
        is_sendable(ReplyView::Challenge { status, challenge: text }) <==> 100 <= status <= 999 && (
        forall|i: int|
            0 <= i < encode_utf8(text).len() ==> #[trigger] encode_utf8(text)[i] == 9u8 || (
            encode_utf8(text)[i] >= 32u8 && encode_utf8(text)[i] != 127u8)),
{
}

/// Every reply of the proxy can be sent: making the response never fails.
pub proof fn law_every_reply_is_sendable<X, S, R, E>(
    head: RequestHead,
    run: ProxyRun<X, S, R, E>,
    i: int,
)
    requires
        is_proxy_run(head, run),
        0 <= i < run.len(),
    ensures
        match run.actions[i] {
            ProxyAction::Respond(reply) => is_sendable(reply@),
            ProxyAction::Tunnel { reply, .. } => is_sendable(reply@),
            _ => true,
        },
{
    assert(proxy_step(run.states[i], run.events[i], run.step(i)));
    lemma_refusals_are_sendable(AuthError::ProxyAuthenticationRequired);
    lemma_refusals_are_sendable(AuthError::Forbidden);
    lemma_refusals_are_sendable(AuthError::Other);
}

} // verus!
