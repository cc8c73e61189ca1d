//! The program's settings.

use vstd::prelude::*;

verus! {

/// Settings of one run.
pub struct Cli {
    /// Address of the display device.
    pub pico_ip: String,
    /// OAuth client identifier of the registered application.
    pub client_id: String,
    /// Tenant to authorize against.
    pub tenant_id: String,
    /// Seconds the redirect listener waits before it shuts down.
    pub auth_wait_for: u64,
    /// Seconds between poll cycles.
    pub poll_after: u64,
    /// Seconds by which each refresh precedes the credential's expiry.
    pub refresh_expiry_padding: u64,
    /// Scope requested for the credential.
    pub scope: String,
    /// Verbose tracing.
    pub verbose: bool,
}

impl Cli {
    pub fn is_verbose(&self) -> (r: bool)
        ensures
            r == self.verbose,
    {
        self.verbose
    }

    pub fn get_pico_ip(&self) -> (r: String)
        ensures
            r@ == self.pico_ip@,
    {
        self.pico_ip.clone()
    }
}

} // verus!
