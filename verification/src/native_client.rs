//! The native Bedrock client's settings. Pinging a server is the
//! application's part.

use vstd::prelude::*;
use std::time::Duration;

verus! {

#[derive(Debug, Clone, Copy)]
pub struct NativeBedrockClient {
    ping_timeout: Duration,
}

impl NativeBedrockClient {
    pub closed spec fn spec_ping_timeout(&self) -> Duration {
        self.ping_timeout
    }

    pub fn new(ping_timeout: Duration) -> (r: Self)
        ensures
            r.spec_ping_timeout() == ping_timeout,
    {
        NativeBedrockClient { ping_timeout }
    }

    pub fn ping_timeout(&self) -> (r: Duration)
        ensures
            r == self.spec_ping_timeout(),
    {
        self.ping_timeout
    }
}

} // verus!
