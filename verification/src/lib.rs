//! Client-side logic of the PC status reporter: the values it reports, how it
//! renders uptime, how it reads the GPU tool's output, and how it reacts to the
//! server and to an update.
use vstd::prelude::*;

pub mod decimal;
pub mod gpu;
pub mod session;
pub mod status;
pub mod unix_to_date;
pub mod update;

verus! {

/// State shared by the reporting loop: it keeps running until `finish` is set.
pub struct App {
    pub finish: bool,
}

impl App {
    /// A fresh application state, not yet finished.
    pub fn new() -> (app: Self)
        ensures
            !app.finish,
    {
        App { finish: false }
    }
}

/// The server the client reports to unless told otherwise.
pub open spec fn default_server_uri() -> Seq<char> {
    "https://pcss.eov2.com"@
}

/// The client's settings: the server it reports to, and an optional password
/// and host name to report with.
pub struct AppConfig {
    pub uri: String,
    pub password: Option<String>,
    pub hostname: Option<String>,
}

impl Default for AppConfig {
    /// The default server, with no password and no host name set.
    fn default() -> (config: Self)
        ensures
            config.uri@ == default_server_uri(),
            config.password is None,
            config.hostname is None,
    {
        AppConfig { uri: String::from_str("https://pcss.eov2.com"), password: None, hostname: None }
    }
}

/// The server to report to: the configured one where there is one, else the
/// default server.
pub fn server_uri(configured: Option<String>) -> (uri: String)
    ensures
        uri@ == (match configured {
            Some(c) => c@,
            None => default_server_uri(),
        }),
{
    match configured {
        Some(c) => c,
        None => String::from_str("https://pcss.eov2.com"),
    }
}

} // verus!
