//! Client launch options.

use vstd::prelude::*;

verus! {

/// Where to connect, how to run, and how long to wait for the connection.
#[derive(Debug, Clone)]
pub struct Args {
    /// Server address (ip:port).
    pub server: String,
    /// Run without window or rendering.
    pub headless: bool,
    /// Display name sent in the hello.
    pub name: Option<String>,
    /// Seconds to wait for the connection before giving up.
    pub connect_timeout_secs: u64,
}

/// Server address used when none is given.
pub const DEFAULT_SERVER: &'static str = "127.0.0.1:61234";

/// Connection window used when none is given, in seconds.
pub const DEFAULT_CONNECT_TIMEOUT_SECS: u64 = 5;

impl Default for Args {
    fn default() -> (r: Args)
        ensures
            r.server@ == DEFAULT_SERVER@,
            !r.headless,
            r.name is None,
            r.connect_timeout_secs == DEFAULT_CONNECT_TIMEOUT_SECS,
    {
        Args {
            server: DEFAULT_SERVER.to_owned(),
            headless: false,
            name: None,
            connect_timeout_secs: DEFAULT_CONNECT_TIMEOUT_SECS,
        }
    }
}

} // verus!
