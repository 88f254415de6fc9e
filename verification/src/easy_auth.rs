//! Settings of the device-code login: where its database and token cache
//! live, which client id it uses, and how often it polls. Running the login
//! (HTTP, files, database) is the application's part.

use vstd::prelude::*;
use crate::auth::ProvisionedBedrockSession;

verus! {

/// The shortest poll interval Microsoft allows, in milliseconds.
pub const MIN_POLL_INTERVAL_MILLIS: u64 = 5_000;

/// A provisioned session: the engine's account id and the Bedrock session.
#[derive(Debug, Clone)]
pub struct EasyAuthSession {
    pub account_id: String,
    pub provisioned: ProvisionedBedrockSession,
}

/// The device-code login builder. Paths are carried as strings, the poll
/// interval in milliseconds.
#[derive(Debug, Clone)]
pub struct DeviceCodeLogin {
    db_dir: Option<String>,
    token_cache_dir: Option<String>,
    client_id: Option<String>,
    poll_interval_millis: u64,
    silent: bool,
}

impl Default for DeviceCodeLogin {
    fn default() -> (r: Self)
        ensures
            r.spec_db_dir() is None,
            r.spec_token_cache_dir() is None,
            r.spec_client_id() is None,
            r.spec_poll_interval_millis() == MIN_POLL_INTERVAL_MILLIS,
            !r.spec_silent(),
    {
        Self::new()
    }
}

impl DeviceCodeLogin {
    pub closed spec fn spec_db_dir(&self) -> Option<String> {
        self.db_dir
    }

    pub closed spec fn spec_token_cache_dir(&self) -> Option<String> {
        self.token_cache_dir
    }

    pub closed spec fn spec_client_id(&self) -> Option<String> {
        self.client_id
    }

    pub closed spec fn spec_poll_interval_millis(&self) -> u64 {
        self.poll_interval_millis
    }

    pub closed spec fn spec_silent(&self) -> bool {
        self.silent
    }

    /// No directories or client id chosen, five-second polling, not silent.
    pub fn new() -> (r: Self)
        ensures
            r.spec_db_dir() is None,
            r.spec_token_cache_dir() is None,
            r.spec_client_id() is None,
            r.spec_poll_interval_millis() == MIN_POLL_INTERVAL_MILLIS,
            !r.spec_silent(),
    {
        DeviceCodeLogin {
            db_dir: None,
            token_cache_dir: None,
            client_id: None,
            poll_interval_millis: MIN_POLL_INTERVAL_MILLIS,
            silent: false,
        }
    }

    pub fn db_dir(self, path: String) -> (r: Self)
        ensures
            r.spec_db_dir() == Some(path),
            r.spec_token_cache_dir() == self.spec_token_cache_dir(),
            r.spec_client_id() == self.spec_client_id(),
            r.spec_poll_interval_millis() == self.spec_poll_interval_millis(),
            r.spec_silent() == self.spec_silent(),
    {
        DeviceCodeLogin { db_dir: Some(path), ..self }
    }

    pub fn token_cache_dir(self, path: String) -> (r: Self)
        ensures
            r.spec_token_cache_dir() == Some(path),
            r.spec_db_dir() == self.spec_db_dir(),
            r.spec_client_id() == self.spec_client_id(),
            r.spec_poll_interval_millis() == self.spec_poll_interval_millis(),
            r.spec_silent() == self.spec_silent(),
    {
        DeviceCodeLogin { token_cache_dir: Some(path), ..self }
    }

    pub fn client_id(self, id: String) -> (r: Self)
        ensures
            r.spec_client_id() == Some(id),
            r.spec_db_dir() == self.spec_db_dir(),
            r.spec_token_cache_dir() == self.spec_token_cache_dir(),
            r.spec_poll_interval_millis() == self.spec_poll_interval_millis(),
            r.spec_silent() == self.spec_silent(),
    {
        DeviceCodeLogin { client_id: Some(id), ..self }
    }

    /// Sets the poll interval, raised to at least five seconds.
    pub fn poll_interval(self, interval_millis: u64) -> (r: Self)
        ensures
            r.spec_poll_interval_millis() == (if interval_millis < MIN_POLL_INTERVAL_MILLIS {
                MIN_POLL_INTERVAL_MILLIS
            } else {
                interval_millis
            }),
            r.spec_db_dir() == self.spec_db_dir(),
            r.spec_token_cache_dir() == self.spec_token_cache_dir(),
            r.spec_client_id() == self.spec_client_id(),
            r.spec_silent() == self.spec_silent(),
    {
        let millis: u64 = if interval_millis < MIN_POLL_INTERVAL_MILLIS {
            MIN_POLL_INTERVAL_MILLIS
        } else {
            interval_millis
        };
        DeviceCodeLogin { poll_interval_millis: millis, ..self }
    }

    /// Suppresses progress output.
    pub fn silent(self) -> (r: Self)
        ensures
            r.spec_silent(),
            r.spec_db_dir() == self.spec_db_dir(),
            r.spec_token_cache_dir() == self.spec_token_cache_dir(),
            r.spec_client_id() == self.spec_client_id(),
            r.spec_poll_interval_millis() == self.spec_poll_interval_millis(),
    {
        DeviceCodeLogin { silent: true, ..self }
    }

    pub fn get_db_dir(&self) -> (r: Option<&String>)
        ensures
            r == (match self.spec_db_dir() {
                Some(d) => Some(&d),
                None => None,
            }),
    {
        self.db_dir.as_ref()
    }

    pub fn get_token_cache_dir(&self) -> (r: Option<&String>)
        ensures
            r == (match self.spec_token_cache_dir() {
                Some(d) => Some(&d),
                None => None,
            }),
    {
        self.token_cache_dir.as_ref()
    }

    pub fn get_client_id(&self) -> (r: Option<&String>)
        ensures
            r == (match self.spec_client_id() {
                Some(d) => Some(&d),
                None => None,
            }),
    {
        self.client_id.as_ref()
    }

    pub fn get_poll_interval_millis(&self) -> (r: u64)
        ensures
            r == self.spec_poll_interval_millis(),
    {
        self.poll_interval_millis
    }

    pub fn is_silent(&self) -> (r: bool)
        ensures
            r == self.spec_silent(),
    {
        self.silent
    }
}

} // verus!
