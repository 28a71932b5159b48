//! Web remote control: server commands, configuration and the URLs the
//! server answers on (`http://[host]:[port]/[app_name]`, with its WebSocket
//! at `/[app_name]/ws`).
use vstd::prelude::*;
use crate::text::{decimal, push_char, push_decimal, push_str, string_of};

verus! {

/// Commands for web server lifecycle control.
#[derive(Debug, Clone, PartialEq, Eq)]
pub enum WebControlCommand {
    Idle,
    Start,
    Stop,
    SetPort(u16),
}

/// Web server configuration.
#[derive(Debug, Clone)]
pub struct WebConfig {
    /// Port to listen on.
    pub port: u16,
    /// App name for the URL path (e.g. `rustjay`).
    pub app_name: String,
    /// Whether the server is running.
    pub enabled: bool,
}

impl Default for WebConfig {
    /// Port 8080, app name `rustjay`, not running.
    fn default() -> (r: Self)
        ensures
            r.port == 8080,
            r.app_name@ == "rustjay"@,
            !r.enabled,
    {
        WebConfig { port: 8080, app_name: string_of("rustjay"), enabled: false }
    }
}

/// `http://host:port/app_name`.
pub open spec fn spec_server_url(host: Seq<char>, port: u16, app_name: Seq<char>) -> Seq<char> {
    seq!['h', 't', 't', 'p', ':', '/', '/'] + host + seq![':'] + decimal(port as nat) + seq!['/']
        + app_name
}

/// The URL under which the web UI is served from `host`.
pub fn server_url(host: &str, port: u16, app_name: &str) -> (r: String)
    ensures
        r@ == spec_server_url(host@, port, app_name@),
{
    let mut r = String::new();
    push_char(&mut r, 'h');
    push_char(&mut r, 't');
    push_char(&mut r, 't');
    push_char(&mut r, 'p');
    push_char(&mut r, ':');
    push_char(&mut r, '/');
    push_char(&mut r, '/');
    push_str(&mut r, host);
    push_char(&mut r, ':');
    push_decimal(&mut r, port as u64);
    push_char(&mut r, '/');
    push_str(&mut r, app_name);
    proof {
        assert(r@ =~= spec_server_url(host@, port, app_name@));
    }
    r
}

/// The page route `/app_name`.
pub fn page_path(app_name: &str) -> (r: String)
    ensures
        r@ == seq!['/'] + app_name@,
{
    let mut r = String::new();
    push_char(&mut r, '/');
    push_str(&mut r, app_name);
    r
}

/// The WebSocket route `/app_name/ws`.
pub fn ws_path(app_name: &str) -> (r: String)
    ensures
        r@ == seq!['/'] + app_name@ + seq!['/', 'w', 's'],
{
    let mut r = page_path(app_name);
    push_char(&mut r, '/');
    push_char(&mut r, 'w');
    push_char(&mut r, 's');
    proof {
        assert(r@ =~= seq!['/'] + app_name@ + seq!['/', 'w', 's']);
    }
    r
}

} // verus!
