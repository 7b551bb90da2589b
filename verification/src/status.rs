//! What the status server answers, and where it listens.
//!
//! The server itself is the caller's; here stand the replies, the routes and the address.

use vstd::prelude::*;
use vstd::string::*;
use crate::text::{decimal, decimal_string};

verus! {

/// One reply of the status server.
#[derive(Clone, Debug, PartialEq, Eq)]
pub struct StatusReply {
    /// The HTTP status code.
    pub status: u16,
    /// The value of the `Content-Type` header.
    pub content_type: String,
    pub body: String,
}

/// The mathematical content of a [`StatusReply`].
pub struct ReplyView {
    pub status: u16,
    pub content_type: Seq<char>,
    pub body: Seq<char>,
}

impl View for StatusReply {
    type V = ReplyView;

    open spec fn view(&self) -> ReplyView {
        ReplyView { status: self.status, content_type: self.content_type@, body: self.body@ }
    }
}

/// The page that the root route shows.
pub const GREETING: &'static str = r#"
            <h1>It looks like your UltiVM instance is running correctly!</h1>
            <p>If you see this message, your UltiVM instance is up and running. You can now connect to the VNC server at <b>localhost:5901</b> using a VNC client.</p>
            <p>If you want a web client for UltiVM, make sure that enableWebApp is set to true in the configuration file <i>(config.ini)</i>.</p>
        "#;

/// The reply of the root route: the greeting page, with status 200.
pub open spec fn greeting() -> ReplyView {
    ReplyView { status: 200, content_type: "text/html; charset=utf-8"@, body: GREETING@ }
}

/// The reply of the authentication route, which is a stub: status 501 and the text `400`.
pub open spec fn auth_stub() -> ReplyView {
    ReplyView { status: 501, content_type: "text/plain; charset=utf-8"@, body: "400"@ }
}

/// Builds [`greeting`].
pub fn greet() -> (r: StatusReply)
    ensures
        r@ == greeting(),
{
    StatusReply {
        status: 200,
        content_type: String::from_str("text/html; charset=utf-8"),
        body: String::from_str(GREETING),
    }
}

/// Builds [`auth_stub`].
pub fn auth() -> (r: StatusReply)
    ensures
        r@ == auth_stub(),
{
    StatusReply {
        status: 501,
        content_type: String::from_str("text/plain; charset=utf-8"),
        body: String::from_str("400"),
    }
}

/// A path that the server answers `GET` requests on, with its reply.
#[derive(Clone, Debug, PartialEq, Eq)]
pub struct Route {
    pub path: String,
    pub reply: StatusReply,
}

/// The mathematical content of a [`Route`].
pub struct RouteView {
    pub path: Seq<char>,
    pub reply: ReplyView,
}

impl View for Route {
    type V = RouteView;

    open spec fn view(&self) -> RouteView {
        RouteView { path: self.path@, reply: self.reply@ }
    }
}

/// The routes of the server: the root always, the authentication stub only where
/// authentication is switched on.
pub open spec fn served_routes(auth_enabled: bool) -> Seq<RouteView> {
    if auth_enabled {
        seq![
            RouteView { path: "/"@, reply: greeting() },
            RouteView { path: "/auth"@, reply: auth_stub() },
        ]
    } else {
        seq![RouteView { path: "/"@, reply: greeting() }]
    }
}

/// Builds [`served_routes`].
pub fn routes(auth_enabled: bool) -> (r: Vec<Route>)
    ensures
        Seq::new(r@.len(), |i: int| r@[i]@) == served_routes(auth_enabled),
{
    let mut r: Vec<Route> = Vec::new();
    r.push(Route { path: String::from_str("/"), reply: greet() });
    if auth_enabled {
        r.push(Route { path: String::from_str("/auth"), reply: auth() });
    }
    assert(Seq::new(r@.len(), |i: int| r@[i]@) =~= served_routes(auth_enabled));
    r
}

/// The address the server binds to: the loopback address and `port`.
pub open spec fn loopback_address(port: u16) -> Seq<char> {
    "127.0.0.1:"@ + decimal(port as nat)
}

/// Builds [`loopback_address`].
pub fn bind_address(port: u16) -> (r: String)
    ensures
        r@ == loopback_address(port),
{
    let mut r = String::from_str("127.0.0.1:");
    r.append(decimal_string(port as u32).as_str());
    r
}

} // verus!
