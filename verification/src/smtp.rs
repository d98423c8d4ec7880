//! How long the interception of SMTP waits.

use crate::timing::{duration_from_secs, seconds};
use std::time::Duration;
use vstd::prelude::*;

verus! {

/// Seconds to wait for the greeting of the server, unless configured.
pub const DEFAULT_GREETING_TIMEOUT_SECS: u64 = 300;

/// Seconds to wait for the answer to QUIT, unless configured.
pub const DEFAULT_QUIT_WAIT_TIMEOUT_SECS: u64 = 60;

/// The timeouts of the interception of SMTP.
#[derive(Clone, Debug, PartialEq, Eq)]
pub struct SmtpInterceptionConfig {
    /// How long to wait for the greeting of the server.
    pub greeting_timeout: Duration,
    /// How long to wait for the answer to QUIT.
    pub quit_wait_timeout: Duration,
}

impl Default for SmtpInterceptionConfig {
    fn default() -> (config: SmtpInterceptionConfig)
        ensures
            config.greeting_timeout == seconds(DEFAULT_GREETING_TIMEOUT_SECS),
            config.quit_wait_timeout == seconds(DEFAULT_QUIT_WAIT_TIMEOUT_SECS),
    {
        SmtpInterceptionConfig {
            greeting_timeout: duration_from_secs(DEFAULT_GREETING_TIMEOUT_SECS),
            quit_wait_timeout: duration_from_secs(DEFAULT_QUIT_WAIT_TIMEOUT_SECS),
        }
    }
}

} // verus!
