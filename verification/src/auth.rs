//! Account authentication settings and the tokens the Xbox Live, XSTS and
//! PlayFab steps hand on.

use vstd::prelude::*;
use crate::text::{chars_equal, str_chars};

verus! {

broadcast use vstd::string::group_string_axioms;

pub const LIVE_CLIENT_ID: &'static str = "00000000402b5328";
pub const LIVE_SCOPE: &'static str = "service::user.auth.xboxlive.com::MBI_SSL";
/// The XSTS relying party whose token logs in to Bedrock multiplayer.
pub const BEDROCK_RELYING_PARTY: &'static str = "https://multiplayer.minecraft.net/";
/// The XSTS relying party whose token logs in to PlayFab.
pub const PLAYFAB_RELYING_PARTY: &'static str = "http://playfab.xboxlive.com/";

/// How an account signs in.
#[derive(Debug, Clone, PartialEq, Eq)]
pub enum AuthFlow {
    Live,
    Msal,
    Offline { username: String },
}

#[derive(Debug, Clone, PartialEq, Eq)]
pub struct AuthConfig {
    pub client_id: String,
    pub flow: AuthFlow,
}

impl AuthConfig {
    /// Interactive device-code sign-in with the Live client id.
    pub fn device_code() -> (r: Self)
        ensures
            r.client_id@ == LIVE_CLIENT_ID@,
            r.flow == AuthFlow::Live,
    {
        AuthConfig { client_id: String::from_str(LIVE_CLIENT_ID), flow: AuthFlow::Live }
    }

    /// Offline play under a chosen name, with no client id.
    pub fn offline(username: &str) -> (r: Self)
        ensures
            r.client_id@.len() == 0,
            r.flow matches AuthFlow::Offline { username: u } && u@ == username@,
    {
        AuthConfig {
            client_id: String::new(),
            flow: AuthFlow::Offline { username: String::from_str(username) },
        }
    }
}

/// The Xbox user token and what came with it.
#[derive(Debug, Clone)]
pub struct XboxIdentity {
    pub token: String,
    pub device_token: Option<String>,
    pub title_token: Option<String>,
    pub proof_key: Option<()>,
    pub user_hash: String,
    pub xuid: Option<String>,
    pub gamertag: Option<String>,
}

/// An XSTS token for one relying party.
#[derive(Debug, Clone)]
pub struct XstsToken {
    pub token: String,
    pub user_hash: String,
    pub xuid: Option<String>,
    pub gamertag: Option<String>,
    pub relying_party: String,
}

/// What provisioning a Bedrock session produced for an account.
#[derive(Debug, Clone)]
pub struct ProvisionedBedrockSession {
    pub account_id: String,
    pub playfab_id: String,
    pub playfab_session_ticket: String,
    pub minecraft_access_token: String,
    pub bedrock_login_token: String,
    pub legacy_bedrock_token: String,
}

/// A PlayFab login.
#[derive(Debug, Clone)]
pub struct PlayFabSession {
    pub playfab_id: String,
    pub session_ticket: String,
}

/// The tokens of a signed-in account. The Microsoft token's expiry is
/// carried as seconds since the Unix epoch.
#[derive(Debug, Clone, PartialEq, Eq)]
pub struct AuthTokens {
    pub microsoft_access_token: Option<String>,
    pub microsoft_refresh_token: Option<String>,
    pub microsoft_expires_at: Option<i64>,
    pub xbox_token: Option<String>,
    pub xsts_token: Option<String>,
    pub playfab_xsts_token: Option<String>,
    pub playfab_session_ticket: Option<String>,
    pub minecraft_access_token: Option<String>,
    pub legacy_bedrock_token: Option<String>,
    pub bedrock_chain: Vec<String>,
    pub xuid: Option<String>,
    pub gamertag: Option<String>,
    pub playfab_id: Option<String>,
}

/// No token of any step, and no account details.
pub open spec fn no_tokens(t: AuthTokens) -> bool {
    &&& t.microsoft_access_token is None
    &&& t.microsoft_refresh_token is None
    &&& t.microsoft_expires_at is None
    &&& t.xbox_token is None
    &&& t.xsts_token is None
    &&& t.playfab_xsts_token is None
    &&& t.playfab_session_ticket is None
    &&& t.minecraft_access_token is None
    &&& t.legacy_bedrock_token is None
    &&& t.xuid is None
    &&& t.playfab_id is None
}

impl AuthTokens {
    pub fn empty() -> (r: Self)
        ensures
            no_tokens(r),
            r.gamertag is None,
            r.bedrock_chain@.len() == 0,
    {
        AuthTokens {
            microsoft_access_token: None,
            microsoft_refresh_token: None,
            microsoft_expires_at: None,
            xbox_token: None,
            xsts_token: None,
            playfab_xsts_token: None,
            playfab_session_ticket: None,
            minecraft_access_token: None,
            legacy_bedrock_token: None,
            bedrock_chain: Vec::new(),
            xuid: None,
            gamertag: None,
            playfab_id: None,
        }
    }
}

/// Why an account could not be signed in.
#[derive(Debug, Clone, PartialEq, Eq)]
pub enum AuthError {
    OfflineModeDisabled,
    /// Live and MSAL sign-in is interactive and runs elsewhere.
    InteractiveFlowRequired,
    MissingRefreshToken,
    Http(String),
    Json(String),
}

/// The tokens of an offline account: its name as the gamertag and a single
/// chain entry `offline:<name>`.
pub open spec fn offline_tokens(t: AuthTokens, username: Seq<char>) -> bool {
    &&& no_tokens(t)
    &&& t.gamertag matches Some(g) && g@ == username
    &&& t.bedrock_chain@.len() == 1
    &&& t.bedrock_chain@[0]@ == "offline:"@ + username
}

/// What signing in with `config` gives: tokens for an offline account,
/// `InteractiveFlowRequired` for the interactive flows.
pub open spec fn authenticated(config: AuthConfig, r: Result<AuthTokens, AuthError>) -> bool {
    match config.flow {
        AuthFlow::Offline { username } => r matches Ok(t) && offline_tokens(t, username@),
        _ => r == Err::<AuthTokens, AuthError>(AuthError::InteractiveFlowRequired),
    }
}

pub fn authenticate(config: &AuthConfig) -> (r: Result<AuthTokens, AuthError>)
    ensures
        authenticated(*config, r),
{
    match &config.flow {
        AuthFlow::Offline { username } => {
            let mut tokens = AuthTokens::empty();
            let mut entry: Vec<char> = Vec::new();
            let prefix = str_chars("offline:");
            let name = str_chars(username.as_str());
            let mut i: usize = 0;
            while i < prefix.len()
                invariant
                    i <= prefix@.len(),
                    entry@ == prefix@.take(i as int),
                decreases prefix@.len() - i,
            {
                entry.push(prefix[i]);
                i = i + 1;
                assert(entry@ =~= prefix@.take(i as int));
            }
            let mut j: usize = 0;
            while j < name.len()
                invariant
                    j <= name@.len(),
                    entry@ == prefix@ + name@.take(j as int),
                decreases name@.len() - j,
            {
                entry.push(name[j]);
                j = j + 1;
                assert(entry@ =~= prefix@ + name@.take(j as int));
            }
            assert(prefix@.take(prefix@.len() as int) =~= prefix@);
            assert(name@.take(name@.len() as int) =~= name@);
            let mut chain: Vec<String> = Vec::new();
            chain.push(crate::text::chars_to_string(entry.as_slice()));
            tokens.bedrock_chain = chain;
            tokens.gamertag = Some(String::from_str(username.as_str()));
            Ok(tokens)
        },
        _ => Err(AuthError::InteractiveFlowRequired),
    }
}

/// Refreshing never signs in by itself: it needs a refresh token, and with
/// one the interactive flow still has to run.
pub fn refresh(tokens: &AuthTokens) -> (r: Result<AuthTokens, AuthError>)
    ensures
        r == Err::<AuthTokens, AuthError>(
            if tokens.microsoft_refresh_token is None {
                AuthError::MissingRefreshToken
            } else {
                AuthError::InteractiveFlowRequired
            },
        ),
{
    if tokens.microsoft_refresh_token.is_none() {
        return Err(AuthError::MissingRefreshToken);
    }
    Err(AuthError::InteractiveFlowRequired)
}

pub open spec fn key_views(entries: Seq<(String, AuthTokens)>) -> Seq<Seq<char>> {
    entries.map_values(|e: (String, AuthTokens)| e.0@)
}

/// One of `accounts` has the name `key`.
pub open spec fn names_account(accounts: Seq<String>, key: Seq<char>) -> bool {
    exists|k: int| 0 <= k < accounts.len() && #[trigger] accounts[k]@ == key
}

/// `entries` holds each of `accounts` once, each with the tokens signing in
/// gives; or nothing, when signing in fails.
pub open spec fn batch_authenticated(config: AuthConfig, accounts: Seq<String>, entries: Seq<(String, AuthTokens)>) -> bool {
    let keys = key_views(entries);
    &&& forall|i: int, j: int| 0 <= i < j < keys.len() ==> keys[i] != keys[j]
    &&& forall|i: int| 0 <= i < entries.len() ==> #[trigger] authenticated(config, Ok(entries[i].1))
    &&& forall|i: int| 0 <= i < keys.len() ==> names_account(accounts, #[trigger] keys[i])
    &&& (config.flow is Offline) ==> forall|k: int| 0 <= k < accounts.len() ==> keys.contains(#[trigger] accounts[k]@)
    &&& !(config.flow is Offline) ==> entries.len() == 0
}

/// Signs in each account (in groups of `concurrency`, at least one) and
/// keeps the accounts that signed in, each once.
pub fn batch_authenticate(accounts: &[String], config: &AuthConfig, concurrency: usize) -> (r: Vec<(String, AuthTokens)>)
    ensures
        batch_authenticated(*config, accounts@, r@),
{
    let _group: usize = if concurrency == 0 {
        1
    } else {
        concurrency
    };
    let mut entries: Vec<(String, AuthTokens)> = Vec::new();
    let mut i: usize = 0;
    while i < accounts.len()
        invariant
            i <= accounts@.len(),
            forall|a: int, b: int| 0 <= a < b < key_views(entries@).len() ==> key_views(entries@)[a] != key_views(entries@)[b],
            forall|e: int| 0 <= e < entries@.len() ==> #[trigger] authenticated(*config, Ok(entries@[e].1)),
            forall|e: int| 0 <= e < key_views(entries@).len() ==> names_account(accounts@, #[trigger] key_views(entries@)[e]),
            (config.flow is Offline) ==> forall|k: int| 0 <= k < i ==> key_views(entries@).contains(#[trigger] accounts@[k]@),
            !(config.flow is Offline) ==> entries@.len() == 0,
        decreases accounts@.len() - i,
    {
        let account: &String = &accounts[i];
        match authenticate(config) {
            Ok(tokens) => {
                let name: Vec<char> = str_chars(account.as_str());
                let mut found: bool = false;
                let mut j: usize = 0;
                while j < entries.len()
                    invariant
                        j <= entries@.len(),
                        name@ == account@,
                        !found ==> forall|x: int| 0 <= x < j ==> key_views(entries@)[x] != account@,
                        found ==> key_views(entries@).contains(account@),
                    decreases entries@.len() - j,
                {
                    let key: Vec<char> = str_chars(entries[j].0.as_str());
                    if chars_equal(&key, &name) {
                        assert(key_views(entries@)[j as int] == account@);
                        found = true;
                    }
                    j = j + 1;
                }
                if !found {
                    let ghost before = entries@;
                    entries.push((account.clone(), tokens));
                    proof {
                        let kb = key_views(before);
                        let ka = key_views(entries@);
                        assert(ka =~= kb.push(account@));
                        assert(ka.contains(account@)) by {
                            assert(ka[kb.len() as int] == account@);
                        }
                        assert forall|e: int| 0 <= e < ka.len() implies names_account(accounts@, #[trigger] ka[e]) by {
                            if e == kb.len() {
                                assert(accounts@[i as int]@ == ka[e]);
                            } else {
                                assert(ka[e] == kb[e]);
                            }
                        }
                        assert forall|k: int| 0 <= k < i implies ka.contains(#[trigger] accounts@[k]@) by {
                            if config.flow is Offline {
                                assert(kb.contains(accounts@[k]@));
                                let x = choose|x: int| 0 <= x < kb.len() && kb[x] == accounts@[k]@;
                                assert(ka[x] == kb[x]);
                            }
                        }
                    }
                }
            },
            Err(_) => {},
        }
        i = i + 1;
    }
    proof {
        let keys = key_views(entries@);
        assert(forall|a: int, b: int| 0 <= a < b < keys.len() ==> keys[a] != keys[b]);
        assert(forall|e: int| 0 <= e < entries@.len() ==> #[trigger] authenticated(*config, Ok(entries@[e].1)));
        assert((config.flow is Offline) ==> forall|k: int| 0 <= k < accounts@.len() ==> keys.contains(#[trigger] accounts@[k]@));
    }
    entries
}

} // verus!

