//! The fixed HTTP service on the tailnet.

use vstd::prelude::*;
use vstd::string::*;

verus! {

/// Default inbound HTTP port.
pub const DEFAULT_HTTP_PORT: u16 = 80;

/// Default request/header scratch bytes.
pub const DEFAULT_HTTP_BUFFER_SIZE: usize = 1024;

/// Default TCP receive bytes for the one HTTP connection.
pub const DEFAULT_HTTP_TCP_RX_SIZE: usize = 1024;

/// Default TCP transmit bytes for the one HTTP connection.
pub const DEFAULT_HTTP_TCP_TX_SIZE: usize = 1024;

/// A response body that never changes.
#[derive(Clone, Copy, Debug)]
pub struct StaticContent {
    /// The media type of the body.
    pub content_type: &'static str,
    /// The body.
    pub body: &'static str,
}

impl StaticContent {
    /// A body with its media type.
    pub fn new(content_type: &'static str, body: &'static str) -> (content: Self)
        ensures
            content.content_type@ == content_type@,
            content.body@ == body@,
    {
        StaticContent { content_type, body }
    }

    /// The media type of the body.
    pub fn content_type(&self) -> (content_type: &'static str)
        ensures
            content_type@ == self.content_type@,
    {
        self.content_type
    }

    /// The length of the body in bytes.
    pub fn content_length(&self) -> (length: usize)
        ensures
            length == self.body.spec_bytes().len(),
    {
        self.write_content().len()
    }

    /// The bytes of the body.
    pub fn write_content(&self) -> (bytes: &'static [u8])
        ensures
            bytes@ == self.body.spec_bytes(),
    {
        self.body.as_bytes()
    }
}

/// A path and what a `GET` on it returns.
#[derive(Clone, Copy, Debug)]
pub struct Route {
    /// The path.
    pub path: &'static str,
    /// The response.
    pub content: StaticContent,
}

/// The two fixed HTTP routes: the health check and the root page.
pub fn http_routes() -> (routes: (Route, Route))
    ensures
        routes.0.path@ == "/health"@,
        routes.0.content.content_type@ == "application/json"@,
        routes.0.content.body@ == "{\"ok\":true}"@,
        routes.1.path@ == "/"@,
        routes.1.content.content_type@ == "text/plain"@,
        routes.1.content.body@ == "Embassy on Tailscale"@,
{
    (
        Route {
            path: "/health",
            content: StaticContent::new("application/json", "{\"ok\":true}"),
        },
        Route { path: "/", content: StaticContent::new("text/plain", "Embassy on Tailscale") },
    )
}

/// Timeouts of the HTTP server, in seconds.
#[derive(Clone, Copy, Debug, PartialEq, Eq)]
pub struct HttpTimeouts {
    /// For the first byte of the request.
    pub start_read_request: u64,
    /// For the first byte of a further request on the same connection.
    pub persistent_start_read_request: u64,
    /// For the rest of the request.
    pub read_request: u64,
    /// For the response.
    pub write: u64,
}

/// Configuration of the HTTP server.
#[derive(Clone, Copy, Debug, PartialEq, Eq)]
pub struct HttpConfig {
    /// The timeouts.
    pub timeouts: HttpTimeouts,
    /// Whether a connection serves more than one request.
    pub keep_connection_open: bool,
}

/// Conservative fixed timeouts for a single concurrent connection, which is
/// closed after its response.
pub fn http_config() -> (config: HttpConfig)
    ensures
        config == (HttpConfig {
            timeouts: HttpTimeouts {
                start_read_request: 10,
                persistent_start_read_request: 1,
                read_request: 5,
                write: 5,
            },
            keep_connection_open: false,
        }),
{
    HttpConfig {
        timeouts: HttpTimeouts {
            start_read_request: 10,
            persistent_start_read_request: 1,
            read_request: 5,
            write: 5,
        },
        keep_connection_open: false,
    }
}

/// What to do with a listening socket.
#[derive(Clone, Copy, Debug, PartialEq, Eq)]
pub enum HttpStep {
    /// Abort it and listen anew.
    Abort,
    /// Serve the connection with this keepalive interval and idle limit, in
    /// seconds, then listen anew.
    Serve {
        /// Keepalive interval.
        keep_alive: u64,
        /// Idle limit.
        timeout: u64,
    },
}

/// Decide on the outcome of an accept.
pub fn after_accept<E>(accepted: Result<(), E>) -> (step: HttpStep)
    ensures
        step == (match accepted {
            Ok(()) => HttpStep::Serve { keep_alive: 30, timeout: 45 },
            Err(_) => HttpStep::Abort,
        }),
{
    match accepted {
        Ok(()) => HttpStep::Serve { keep_alive: 30, timeout: 45 },
        Err(_) => HttpStep::Abort,
    }
}

/// The declared content lengths of the two routes.
pub proof fn route_content_lengths(health: &str, root: &str)
    requires
        health@ == "{\"ok\":true}"@,
        root@ == "Embassy on Tailscale"@,
    ensures
        health.spec_bytes().len() == 11,
        root.spec_bytes().len() == 20,
{
    reveal_strlit("{\"ok\":true}");
    reveal_strlit("Embassy on Tailscale");
    is_ascii_spec_bytes(health);
    is_ascii_spec_bytes(root);
}

/// The default service listens on the HTTP port, with three buffers of a
/// kibibyte each.
pub proof fn default_service_storage()
    ensures
        DEFAULT_HTTP_PORT == 80,
        DEFAULT_HTTP_BUFFER_SIZE == 1024,
        DEFAULT_HTTP_TCP_RX_SIZE == 1024,
        DEFAULT_HTTP_TCP_TX_SIZE == 1024,
{
}

} // verus!
