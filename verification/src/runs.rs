//! The two validation runs the engine offers from its command line: what
//! each makes of its settings before it connects. Reading the settings and
//! running the session are the application's part.

use vstd::prelude::*;
use crate::bot::{AutomationPolicy, BotSessionBuilder, ServerAddress};
use crate::text::{chars_to_string, str_chars, trim_char_vec, trimmed};
use crate::transport::{parse_u64, parse_u64_spec};

verus! {

broadcast use vstd::string::group_string_axioms;

/// The server port when none, or no number, is configured.
pub const DEFAULT_VALIDATION_PORT: u16 = 19132;
/// The run's length when none, or no number, is configured.
pub const DEFAULT_VALIDATION_DURATION_SECONDS: u64 = 300;
/// The shortest run accepted.
pub const MIN_VALIDATION_DURATION_SECONDS: u64 = 5;
/// The longest run accepted.
pub const MAX_VALIDATION_DURATION_SECONDS: u64 = 900;
/// How many chests the chest-room bot expects by default.
pub const DEFAULT_EXPECTED_CHESTS: usize = 5;

/// A setting the run cannot do without is missing; it carries the
/// setting's name.
#[derive(Debug, Clone, PartialEq, Eq)]
pub enum RunSetupError {
    MissingConfig(&'static str),
}

/// What `u16::from_str` gives.
pub open spec fn parse_u16_spec(s: Seq<char>) -> Option<u16> {
    match parse_u64_spec(s) {
        Some(v) => if v <= u16::MAX { Some(v as u16) } else { None },
        None => None,
    }
}

/// What `usize::from_str` gives.
pub open spec fn parse_usize_spec(s: Seq<char>) -> Option<usize> {
    match parse_u64_spec(s) {
        Some(v) => if v <= usize::MAX { Some(v as usize) } else { None },
        None => None,
    }
}

/// The port a setting gives: its value when it is a port number, else the default.
pub open spec fn port_setting(value: Option<Seq<char>>) -> u16 {
    match value {
        Some(v) => match parse_u16_spec(v) {
            Some(p) => p,
            None => DEFAULT_VALIDATION_PORT,
        },
        None => DEFAULT_VALIDATION_PORT,
    }
}

/// The run length a setting gives: its value (or the default) held between
/// five and nine hundred seconds.
pub open spec fn duration_setting(value: Option<Seq<char>>) -> u64 {
    let d = match value {
        Some(v) => match parse_u64_spec(v) {
            Some(n) => n,
            None => DEFAULT_VALIDATION_DURATION_SECONDS,
        },
        None => DEFAULT_VALIDATION_DURATION_SECONDS,
    };
    if d < MIN_VALIDATION_DURATION_SECONDS {
        MIN_VALIDATION_DURATION_SECONDS
    } else if d > MAX_VALIDATION_DURATION_SECONDS {
        MAX_VALIDATION_DURATION_SECONDS
    } else {
        d
    }
}

/// The view of an optional string.
pub open spec fn opt_view(value: Option<&str>) -> Option<Seq<char>> {
    match value {
        Some(v) => Some(v@),
        None => None,
    }
}

fn parse_port(value: Option<&str>) -> (r: u16)
    ensures
        r == port_setting(opt_view(value)),
{
    match value {
        Some(v) => {
            let chars = str_chars(v);
            match parse_u64(&chars) {
                Some(n) => if n <= 65535 {
                    n as u16
                } else {
                    DEFAULT_VALIDATION_PORT
                },
                None => DEFAULT_VALIDATION_PORT,
            }
        },
        None => DEFAULT_VALIDATION_PORT,
    }
}

fn parse_duration(value: Option<&str>) -> (r: u64)
    ensures
        r == duration_setting(opt_view(value)),
{
    let d: u64 = match value {
        Some(v) => {
            let chars = str_chars(v);
            match parse_u64(&chars) {
                Some(n) => n,
                None => DEFAULT_VALIDATION_DURATION_SECONDS,
            }
        },
        None => DEFAULT_VALIDATION_DURATION_SECONDS,
    };
    if d < MIN_VALIDATION_DURATION_SECONDS {
        MIN_VALIDATION_DURATION_SECONDS
    } else if d > MAX_VALIDATION_DURATION_SECONDS {
        MAX_VALIDATION_DURATION_SECONDS
    } else {
        d
    }
}

/// The validation of a real server: a session on the configured server,
/// allowed to act there, run for the configured time.
pub struct RealServerValidation<C, D> {
    config: C,
    db: D,
}

impl<C, D> RealServerValidation<C, D> {
    pub closed spec fn spec_config(&self) -> C {
        self.config
    }

    pub closed spec fn spec_database(&self) -> D {
        self.db
    }

    pub fn new(config: C, db: D) -> (r: Self)
        ensures
            r.spec_config() == config,
            r.spec_database() == db,
    {
        RealServerValidation { config, db }
    }

    /// The session builder and run length from the settings: the account
    /// and host are required, in that order; the port defaults to 19132 and
    /// the length to 300 seconds, held between 5 and 900. The builder carries
    /// the config and database, the account, the server, and a policy that
    /// allows gameplay actions on exactly that host.
    pub fn prepare(
        self,
        account_id: Option<&str>,
        host: Option<&str>,
        port: Option<&str>,
        duration_seconds: Option<&str>,
    ) -> (r: Result<(BotSessionBuilder<C, D>, u64), RunSetupError>)
        ensures
            account_id is None ==> r == Err::<(BotSessionBuilder<C, D>, u64), RunSetupError>(
                RunSetupError::MissingConfig("BEDROCK_VALIDATE_ACCOUNT_ID"),
            ),
            account_id is Some && host is None ==> r == Err::<(BotSessionBuilder<C, D>, u64), RunSetupError>(
                RunSetupError::MissingConfig("BEDROCK_VALIDATE_SERVER_HOST"),
            ),
            account_id is Some && host is Some ==> (r matches Ok((b, d)) && {
                &&& d == duration_setting(opt_view(duration_seconds))
                &&& b.spec_config() == Some(self.spec_config())
                &&& b.spec_database() == Some(self.spec_database())
                &&& b.spec_account() == Some(account_id->0@)
                &&& b.spec_server() is Some
                &&& (b.spec_server()->0).host@ == host->0@
                &&& (b.spec_server()->0).port == port_setting(opt_view(port))
                &&& b.spec_policy().allow_gameplay_actions
                &&& b.spec_policy().allowed_hosts@.len() == 1
                &&& b.spec_policy().allowed_hosts@[0]@ == host->0@
            }),
    {
        let account: &str = match account_id {
            Some(a) => a,
            None => return Err(RunSetupError::MissingConfig("BEDROCK_VALIDATE_ACCOUNT_ID")),
        };
        let host: &str = match host {
            Some(h) => h,
            None => return Err(RunSetupError::MissingConfig("BEDROCK_VALIDATE_SERVER_HOST")),
        };
        let port: u16 = parse_port(port);
        let duration: u64 = parse_duration(duration_seconds);
        let policy = AutomationPolicy::allow_for_hosts(&[host]);
        let builder = BotSessionBuilder::new()
            .config(self.config)
            .database(self.db)
            .account(account)
            .server(ServerAddress::new(host, port))
            .automation_policy(policy);
        Ok((builder, duration))
    }
}

/// The first value that is not blank once trimmed, trimmed.
pub open spec fn first_setting(values: Seq<Option<Seq<char>>>) -> Option<Seq<char>>
    decreases values.len(),
{
    if values.len() == 0 {
        None
    } else {
        match values[0] {
            Some(v) if trimmed(v).len() > 0 => Some(trimmed(v)),
            _ => first_setting(values.drop_first()),
        }
    }
}

/// The views of optional strings.
pub open spec fn opt_views(values: Seq<Option<&str>>) -> Seq<Option<Seq<char>>> {
    values.map_values(|v: Option<&str>| opt_view(v))
}

/// The first of several settings that is not blank, trimmed.
pub fn first_nonblank_setting(values: &[Option<&str>]) -> (r: Option<String>)
    ensures
        match first_setting(opt_views(values@)) {
            Some(v) => r matches Some(s) && s@ == v,
            None => r is None,
        },
{
    let mut i: usize = 0;
    assert(opt_views(values@).skip(0) =~= opt_views(values@));
    while i < values.len()
        invariant
            i <= values@.len(),
            first_setting(opt_views(values@)) == first_setting(opt_views(values@).skip(i as int)),
        decreases values@.len() - i,
    {
        let ghost views = opt_views(values@);
        assert(views.skip(i as int)[0] == opt_view(values@[i as int]));
        assert(views.skip(i as int).drop_first() =~= views.skip(i as int + 1));
        if let Some(v) = values[i] {
            let chars = str_chars(v);
            let t = trim_char_vec(&chars);
            if t.len() > 0 {
                return Some(chars_to_string(t.as_slice()));
            }
        }
        i = i + 1;
    }
    assert(opt_views(values@).skip(i as int) =~= Seq::<Option<Seq<char>>>::empty());
    None
}

/// What the chest-room bot runs against: account, server and how many
/// chests it expects.
pub struct ChestRoomRun {
    pub account_id: String,
    pub host: String,
    pub port: u16,
    pub expected_chests: usize,
}

/// The chest-room bot run: it provisions the account's session and walks
/// the room, expecting a number of chests.
pub struct ChestRoomBotValidation<C, D> {
    config: C,
    db: D,
}

impl<C, D> ChestRoomBotValidation<C, D> {
    pub closed spec fn spec_config(&self) -> C {
        self.config
    }

    pub closed spec fn spec_database(&self) -> D {
        self.db
    }

    pub fn new(config: C, db: D) -> (r: Self)
        ensures
            r.spec_config() == config,
            r.spec_database() == db,
    {
        ChestRoomBotValidation { config, db }
    }

    pub fn config(&self) -> (r: &C)
        ensures
            *r == self.spec_config(),
    {
        &self.config
    }

    pub fn database(&self) -> (r: &D)
        ensures
            *r == self.spec_database(),
    {
        &self.db
    }

    /// The run from its settings: each of account, host and port is the
    /// first of its settings (room-bot name first) that is not blank,
    /// trimmed; account and host are required, in that order; the port
    /// defaults to 19132 and the chest count to 5.
    pub fn prepare(
        &self,
        accounts: &[Option<&str>],
        hosts: &[Option<&str>],
        ports: &[Option<&str>],
        expected_chests: Option<&str>,
    ) -> (r: Result<ChestRoomRun, RunSetupError>)
        ensures
            first_setting(opt_views(accounts@)) is None ==> r == Err::<ChestRoomRun, RunSetupError>(
                RunSetupError::MissingConfig("ROOM_BOT_ACCOUNT_ID"),
            ),
            first_setting(opt_views(accounts@)) is Some && first_setting(opt_views(hosts@)) is None ==> r
                == Err::<ChestRoomRun, RunSetupError>(RunSetupError::MissingConfig("ROOM_BOT_SERVER_HOST")),
            first_setting(opt_views(accounts@)) is Some && first_setting(opt_views(hosts@)) is Some ==> (r matches Ok(run)
                && {
                &&& run.account_id@ == first_setting(opt_views(accounts@))->0
                &&& run.host@ == first_setting(opt_views(hosts@))->0
                &&& run.port == port_setting(first_setting(opt_views(ports@)))
                &&& run.expected_chests == match opt_view(expected_chests) {
                    Some(v) => match parse_usize_spec(v) {
                        Some(n) => n,
                        None => DEFAULT_EXPECTED_CHESTS,
                    },
                    None => DEFAULT_EXPECTED_CHESTS,
                }
            }),
    {
        let account_id: String = match first_nonblank_setting(accounts) {
            Some(a) => a,
            None => return Err(RunSetupError::MissingConfig("ROOM_BOT_ACCOUNT_ID")),
        };
        let host: String = match first_nonblank_setting(hosts) {
            Some(h) => h,
            None => return Err(RunSetupError::MissingConfig("ROOM_BOT_SERVER_HOST")),
        };
        let port: u16 = match first_nonblank_setting(ports) {
            Some(p) => parse_port(Some(p.as_str())),
            None => DEFAULT_VALIDATION_PORT,
        };
        let expected: usize = match expected_chests {
            Some(v) => {
                let chars = str_chars(v);
                match parse_u64(&chars) {
                    Some(n) => if n <= usize::MAX as u64 {
                        n as usize
                    } else {
                        DEFAULT_EXPECTED_CHESTS
                    },
                    None => DEFAULT_EXPECTED_CHESTS,
                }
            },
            None => DEFAULT_EXPECTED_CHESTS,
        };
        Ok(ChestRoomRun { account_id, host, port, expected_chests: expected })
    }
}

} // verus!
