//! What a connection to a node is configured with.

use vstd::prelude::*;
use crate::error::{ConfigurationError, Setting};

verus! {

/// Seconds a call may take unless it carries a deadline of its own.
pub const DEFAULT_CALL_TIMEOUT_SECS: u64 = 15;

/// Seconds granted to a scan of the whole set of unspent outputs: 8 minutes.
pub const UTXO_SET_SCAN_TIMEOUT_SECS: u64 = 8 * 60;

impl Setting {
    /// The name of the environment variable that carries the setting.
    pub open spec fn variable_name(self) -> Seq<char> {
        match self {
            Setting::Url => "BITCOIN_RPC_URL"@,
            Setting::User => "BITCOIN_RPC_USER"@,
            Setting::Password => "BITCOIN_RPC_PASSWORD"@,
        }
    }

    /// The environment variable from which the setting is read.
    pub fn variable(&self) -> (name: &'static str)
        ensures
            name@ == self.variable_name(),
    {
        match self {
            Setting::Url => "BITCOIN_RPC_URL",
            Setting::User => "BITCOIN_RPC_USER",
            Setting::Password => "BITCOIN_RPC_PASSWORD",
        }
    }
}

/// The first required setting that is absent, in the order URL, user,
/// password.
pub open spec fn first_missing(url: bool, user: bool, password: bool) -> Option<Setting> {
    if !url {
        Some(Setting::Url)
    } else if !user {
        Some(Setting::User)
    } else if !password {
        Some(Setting::Password)
    } else {
        None
    }
}

/// Endpoint, credentials and default call timeout of one node. Fixed once
/// built.
#[derive(Clone, Debug, PartialEq, Eq)]
pub struct ConnectionConfig {
    url: String,
    user: String,
    password: String,
    timeout_secs: u64,
}

/// The mathematical content of a [`ConnectionConfig`].
pub struct ConnectionConfigView {
    pub url: Seq<char>,
    pub user: Seq<char>,
    pub password: Seq<char>,
    pub timeout_secs: nat,
}

impl View for ConnectionConfig {
    type V = ConnectionConfigView;

    closed spec fn view(&self) -> ConnectionConfigView {
        ConnectionConfigView {
            url: self.url@,
            user: self.user@,
            password: self.password@,
            timeout_secs: self.timeout_secs as nat,
        }
    }
}

impl ConnectionConfig {
    /// Builds the configuration from the three settings as they were found,
    /// with the default call timeout. Fails on the first absent setting; an
    /// empty value counts as present.
    pub fn from_settings(
        url: Option<String>,
        user: Option<String>,
        password: Option<String>,
    ) -> (result: Result<ConnectionConfig, ConfigurationError>)
        ensures
            match first_missing(url is Some, user is Some, password is Some) {
                Some(setting) => result == Err::<ConnectionConfig, _>(
                    ConfigurationError::Missing(setting),
                ),
                None => result is Ok && result->Ok_0@ == (ConnectionConfigView {
                    url: url->Some_0@,
                    user: user->Some_0@,
                    password: password->Some_0@,
                    timeout_secs: DEFAULT_CALL_TIMEOUT_SECS as nat,
                }),
            },
    {
        let url = match url {
            Some(url) => url,
            None => return Err(ConfigurationError::Missing(Setting::Url)),
        };
        let user = match user {
            Some(user) => user,
            None => return Err(ConfigurationError::Missing(Setting::User)),
        };
        let password = match password {
            Some(password) => password,
            None => return Err(ConfigurationError::Missing(Setting::Password)),
        };
        Ok(ConnectionConfig { url, user, password, timeout_secs: DEFAULT_CALL_TIMEOUT_SECS })
    }

    /// The same connection with another default call timeout.
    pub fn with_timeout_secs(self, timeout_secs: u64) -> (config: ConnectionConfig)
        ensures
            config@ == (ConnectionConfigView { timeout_secs: timeout_secs as nat, ..self@ }),
    {
        ConnectionConfig {
            url: self.url,
            user: self.user,
            password: self.password,
            timeout_secs,
        }
    }

    /// The endpoint URL.
    pub fn url(&self) -> (url: &str)
        ensures
            url@ == self@.url,
    {
        self.url.as_str()
    }

    /// The user name sent with each call.
    pub fn user(&self) -> (user: &str)
        ensures
            user@ == self@.user,
    {
        self.user.as_str()
    }

    /// The password sent with each call.
    pub fn password(&self) -> (password: &str)
        ensures
            password@ == self@.password,
    {
        self.password.as_str()
    }

    /// Seconds a call may take unless it carries a deadline of its own.
    pub fn timeout_secs(&self) -> (secs: u64)
        ensures
            secs == self@.timeout_secs,
    {
        self.timeout_secs
    }
}

} // verus!
