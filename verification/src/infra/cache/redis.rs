//! The cache server: how a client for it is set up.

use crate::text::option_view;
use vstd::prelude::*;

verus! {

/// The database of the cache server that holds the conversations.
pub const DATABASE: i64 = 0;

/// Where the cache server is, and the password that it asks for.
#[derive(Debug)]
pub struct Config {
    pub host: String,
    pub port: u16,
    pub password: String,
}

/// Everything a client is told about its connections.
#[derive(Debug, PartialEq, Eq)]
pub struct ConnectionSettings {
    /// Name or address of the server, reached over plain TCP.
    pub host: String,
    /// Port of the server.
    pub port: u16,
    /// Number of the database.
    pub db: i64,
    /// Name to log in with, if any.
    pub username: Option<String>,
    /// Password to log in with, if any.
    pub password: Option<String>,
}

/// [`ConnectionSettings`] with their text as sequences of characters.
pub struct ConnectionSettingsView {
    pub host: Seq<char>,
    pub port: u16,
    pub db: i64,
    pub username: Option<Seq<char>>,
    pub password: Option<Seq<char>>,
}

impl View for ConnectionSettings {
    type V = ConnectionSettingsView;

    open spec fn view(&self) -> ConnectionSettingsView {
        ConnectionSettingsView {
            host: self.host@,
            port: self.port,
            db: self.db,
            username: option_view(self.username),
            password: option_view(self.password),
        }
    }
}

/// The settings that a configuration stands for: the first database, and a
/// login by password alone.
pub open spec fn settings_of(host: Seq<char>, port: u16, password: Seq<char>) -> ConnectionSettingsView {
    ConnectionSettingsView { host, port, db: DATABASE, username: None, password: Some(password) }
}

/// `redis::Client`, through which connections to the server are made. It
/// is carried through and never looked into.
#[verifier::external_type_specification]
#[verifier::external_body]
pub struct ExClient(redis::Client);

/// `redis::RedisError`, why the `redis` crate refuses something. It is
/// carried through and never looked into.
#[verifier::external_type_specification]
#[verifier::external_body]
pub struct ExRedisError(redis::RedisError);

/// The cache could not be set up.
#[derive(Clone, Copy, Debug, PartialEq, Eq, Structural)]
pub enum CacheError {
    /// The client library refused the settings.
    Rejected,
}

/// Hands the settings to `redis::Client::open` as a `ConnectionInfo` for a
/// TCP address. Given such a value, `open` only stores it: it connects to
/// nothing and refuses nothing, so the call succeeds.
#[verifier::external_body]
fn open_client(settings: &ConnectionSettings) -> (r: Result<redis::Client, redis::RedisError>)
    ensures
        r is Ok,
{
    redis::Client::open(
        redis::ConnectionInfo {
            addr: redis::ConnectionAddr::Tcp(settings.host.clone(), settings.port),
            redis: redis::RedisConnectionInfo {
                db: settings.db,
                username: settings.username.clone(),
                password: settings.password.clone(),
            },
        },
    )
}

/// A cache on a cache server. It holds the client through which connections
/// are made, and the settings that the client was given.
pub struct RedisCache {
    client: redis::Client,
    settings: ConnectionSettings,
}

impl RedisCache {
    /// The settings that the client was given.
    pub closed spec fn settings(self) -> ConnectionSettingsView {
        self.settings@
    }

    /// Sets a cache up for the server of a configuration. No connection is
    /// made yet, so this succeeds whether or not the server is there.
    pub fn new(config: Config) -> (r: Result<RedisCache, CacheError>)
        ensures
            r is Ok,
            r->Ok_0.settings() == settings_of(config.host@, config.port, config.password@),
    {
        let settings = ConnectionSettings {
            host: config.host,
            port: config.port,
            db: DATABASE,
            username: None,
            password: Some(config.password),
        };
        match open_client(&settings) {
            Ok(client) => Ok(RedisCache { client, settings }),
            Err(_) => Err(CacheError::Rejected),
        }
    }

    /// The client through which connections to the server are made.
    pub fn client(&self) -> (client: &redis::Client)
        ensures
            *client == self.connector(),
    {
        &self.client
    }

    /// The settings that the client was given.
    pub fn connection_settings(&self) -> (settings: &ConnectionSettings)
        ensures
            settings@ == self.settings(),
    {
        &self.settings
    }

    /// The client that was opened with the settings when the cache was set
    /// up, and through which all its connections are made.
    pub closed spec fn connector(self) -> redis::Client {
        self.client
    }
}

} // verus!
