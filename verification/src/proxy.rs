//! The entry point for every request: tunnel, refuse or hand on.
//!
//! A CONNECT request is answered at once, before anything is dialled: with
//! success where its authority is well formed, which commits the proxy to a
//! tunnel, and with a refusal otherwise. Every other request belongs to the
//! handler behind the proxy, whose failures become an answer too.

use vstd::prelude::*;
use vstd::string::*;
use crate::session::{Stage, TunnelSession};
use crate::target::{is_port, lemma_well_formed_is_host_colon_port, well_formed, TunnelTarget};

verus! {

/// `200 OK`.
pub const STATUS_OK: u16 = 200;

/// `308 Permanent Redirect`.
pub const STATUS_PERMANENT_REDIRECT: u16 = 308;

/// `400 Bad Request`.
pub const STATUS_BAD_REQUEST: u16 = 400;

/// `500 Internal Server Error`.
pub const STATUS_INTERNAL_SERVER_ERROR: u16 = 500;

/// The body of the answer to a CONNECT request that is refused.
pub const REFUSAL_TEXT: &'static str = "CONNECT must be to a socket address";

/// Where the root route sends its visitors.
pub const REDIRECT_LOCATION: &'static str = "https://bento.me/devjunio";

/// The body of the redirect.
pub const REDIRECT_TEXT: &'static str = "Redirecting to website...";

/// The method of a request, as far as the proxy tells methods apart.
#[derive(Clone, Copy, Debug, PartialEq, Eq, Structural)]
pub enum Method {
    Connect,
    Other,
}

/// What the proxy reads of a request.
#[derive(Debug, PartialEq, Eq)]
pub struct InboundRequest {
    pub method: Method,
    /// The authority of the request target, where it has one.
    pub authority: Option<String>,
}

/// An answer: its status, its `Location` header where it has one, its body.
#[derive(Debug, PartialEq, Eq)]
pub struct Response {
    pub status: u16,
    pub location: Option<String>,
    pub body: String,
}

/// An answer as contracts see it.
pub struct ResponseView {
    pub status: u16,
    pub location: Option<Seq<char>>,
    pub body: Seq<char>,
}

impl View for Response {
    type V = ResponseView;

    open spec fn view(&self) -> ResponseView {
        ResponseView {
            status: self.status,
            location: match self.location {
                Some(l) => Some(l@),
                None => None,
            },
            body: self.body@,
        }
    }
}

impl Clone for Response {
    fn clone(&self) -> (r: Self)
        ensures
            r@ == self@,
    {
        Response {
            status: self.status,
            location: match &self.location {
                Some(l) => Some(l.clone()),
                None => None,
            },
            body: self.body.clone(),
        }
    }
}

/// The answer that commits the proxy to a tunnel: success, with no body.
pub open spec fn committed_answer() -> ResponseView {
    ResponseView { status: STATUS_OK, location: None, body: Seq::empty() }
}

/// The answer to a CONNECT request whose authority is absent or malformed.
pub open spec fn refused_answer() -> ResponseView {
    ResponseView { status: STATUS_BAD_REQUEST, location: None, body: REFUSAL_TEXT@ }
}

/// The answer given for a handler that failed.
pub open spec fn failed_answer() -> ResponseView {
    ResponseView { status: STATUS_INTERNAL_SERVER_ERROR, location: None, body: Seq::empty() }
}

/// The answer of the root route.
pub open spec fn redirect_answer() -> ResponseView {
    ResponseView {
        status: STATUS_PERMANENT_REDIRECT,
        location: Some(REDIRECT_LOCATION@),
        body: REDIRECT_TEXT@,
    }
}

/// The authority that a request asks a tunnel to, where it names one that
/// is well formed.
pub open spec fn tunnel_authority(request: InboundRequest) -> Option<Seq<char>> {
    match request.authority {
        Some(a) => if well_formed(a@) {
            Some(a@)
        } else {
            None
        },
        None => None,
    }
}

/// How a CONNECT request is answered.
#[derive(Debug)]
pub enum Handshake {
    /// The proxy has committed to a tunnel. The answer goes out first; the
    /// session then runs as a task of its own.
    Committed { response: Response, session: TunnelSession },
    /// The request is refused. Nothing is dialled and no task is started.
    Refused { response: Response },
}

/// Where a request goes.
#[derive(Debug)]
pub enum Dispatch {
    /// It is a CONNECT request, and this is its answer.
    Tunnel(Handshake),
    /// It belongs to the handler behind the proxy, unchanged.
    Forward,
}

/// Whether `handshake` is the answer that `request` gets as a CONNECT
/// request: a commitment with a fresh session for its authority where that
/// is well formed, and the refusal otherwise.
pub open spec fn answers(request: InboundRequest, handshake: Handshake) -> bool {
    match handshake {
        Handshake::Committed { response, session } => {
            &&& tunnel_authority(request) == Some(session.spec_target())
            &&& session.spec_stage() == Stage::Upgrading
            &&& response@ == committed_answer()
        },
        Handshake::Refused { response } => {
            &&& tunnel_authority(request) is None
            &&& response@ == refused_answer()
        },
    }
}

/// The handshake, by the authority alone. A CONNECT request is refused, with
/// status 400 and a reason in the body, exactly when its authority is absent
/// or is not a host that is not empty, a `:` and a port. Every other CONNECT
/// request is answered with status 200 and an empty body, and only then is
/// there a session that can order a dial.
pub proof fn lemma_handshake_by_authority(request: InboundRequest, handshake: Handshake)
    requires
        answers(request, handshake),
    ensures
        handshake is Refused <==> (request.authority matches Some(a) ==> !exists|i: int|
            0 < i < a@.len() && a@[i] == ':' && is_port(#[trigger] a@.skip(i + 1))),
        handshake matches Handshake::Refused { response } ==> response.status == 400
            && response.body@.len() > 0,
        handshake matches Handshake::Committed { response, session } ==> response.status == 200
            && response.body@.len() == 0 && response.location is None,
{
    reveal_strlit("CONNECT must be to a socket address");
    match request.authority {
        Some(a) => {
            lemma_well_formed_is_host_colon_port(a@);
        },
        None => {},
    }
}

/// Answers a CONNECT request. The method is not looked at: the caller has.
pub fn proxy(request: &InboundRequest) -> (handshake: Handshake)
    ensures
        answers(*request, handshake),
{
    let parsed = match &request.authority {
        Some(authority) => TunnelTarget::parse(authority.as_str()),
        None => {
            return Handshake::Refused { response: refusal() };
        },
    };
    match parsed {
        Ok(target) => Handshake::Committed {
            response: Response { status: STATUS_OK, location: None, body: String::new() },
            session: TunnelSession::new(target),
        },
        Err(_) => Handshake::Refused { response: refusal() },
    }
}

/// The refusal of a CONNECT request.
fn refusal() -> (r: Response)
    ensures
        r@ == refused_answer(),
{
    Response { status: STATUS_BAD_REQUEST, location: None, body: REFUSAL_TEXT.to_owned() }
}

/// Decides where a request goes: a CONNECT request gets its handshake,
/// any other is handed on.
pub fn dispatch(request: &InboundRequest) -> (d: Dispatch)
    ensures
        match d {
            Dispatch::Tunnel(handshake) => request.method == Method::Connect && answers(
                *request,
                handshake,
            ),
            Dispatch::Forward => request.method == Method::Other,
        },
{
    match request.method {
        Method::Connect => Dispatch::Tunnel(proxy(request)),
        Method::Other => Dispatch::Forward,
    }
}

/// The outcome of a request that was handed on: the handler's own answer,
/// untouched, where it gave one, and a server error in place of its failure.
/// No failure of the handler gets past this function.
pub fn fallback_response<R, E>(outcome: Result<R, E>) -> (r: Result<R, Response>)
    ensures
        match outcome {
            Ok(answer) => r == Ok::<R, Response>(answer),
            Err(_) => r matches Err(response) && response@ == failed_answer(),
        },
{
    match outcome {
        Ok(answer) => Ok(answer),
        Err(_) => Err(
            Response { status: STATUS_INTERNAL_SERVER_ERROR, location: None, body: String::new() },
        ),
    }
}

/// The answer of the root route: a permanent redirect.
pub fn redirect() -> (r: Response)
    ensures
        r@ == redirect_answer(),
{
    Response {
        status: STATUS_PERMANENT_REDIRECT,
        location: Some(REDIRECT_LOCATION.to_owned()),
        body: REDIRECT_TEXT.to_owned(),
    }
}

} // verus!
