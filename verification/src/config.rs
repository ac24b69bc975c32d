//! The settings the service starts with.

use vstd::prelude::*;

verus! {

/// The settings of the service.
#[derive(Clone, Debug)]
pub struct Config {
    pub db_url: String,
    pub host_ip: String,
    pub url: String,
    pub port: u16,
}

/// Why the settings could not be made.
#[derive(Debug, Clone, Copy, PartialEq, Eq, Structural)]
pub enum ConfigError {
    /// No address of the database was given.
    MissingDatabaseUrl,
    /// No port was given.
    MissingPort,
    /// The port given is no port number.
    InvalidPort,
}

/// What `str::parse::<u16>` makes of `text`: the number it reads, or `None`
/// where it reports an error.
pub uninterp spec fn parsed_port(text: Seq<char>) -> Option<u16>;

/// Calls `str::parse::<u16>`. The contract only names the result; every
/// error becomes `None`.
#[verifier::external_body]
fn parse_port(text: &str) -> (parsed: Option<u16>)
    ensures
        parsed == parsed_port(text@),
{
    match text.parse::<u16>() {
        Ok(port) => Some(port),
        Err(_) => None,
    }
}

impl Config {
    /// The host the service binds to where none is given.
    pub open spec fn default_host() -> Seq<char> {
        "127.0.0.1"@
    }

    /// The address the service is reached at where none is given.
    pub open spec fn default_url() -> Seq<char> {
        "http://localhost"@
    }

    /// Whether these are the settings for the given values, with the
    /// defaults where the host or the address is not given.
    pub open spec fn holds(
        self,
        db_url: Seq<char>,
        port: u16,
        host_ip: Option<String>,
        url: Option<String>,
    ) -> bool {
        &&& self.db_url@ == db_url
        &&& self.port == port
        &&& self.host_ip@ == match host_ip {
            Some(host_ip) => host_ip@,
            None => Config::default_host(),
        }
        &&& self.url@ == match url {
            Some(url) => url@,
            None => Config::default_url(),
        }
    }

    /// The settings with the given port, and the defaults where the host or
    /// the address is not given.
    pub fn with_port(db_url: String, port: u16, host_ip: Option<String>, url: Option<String>) -> (config:
        Config)
        ensures
            config.holds(db_url@, port, host_ip, url),
    {
        Config {
            db_url,
            host_ip: match host_ip {
                Some(host_ip) => host_ip,
                None => String::from_str("127.0.0.1"),
            },
            url: match url {
                Some(url) => url,
                None => String::from_str("http://localhost"),
            },
            port,
        }
    }

    /// The settings made of what the environment holds under `DATABASE_URL`,
    /// `PORT`, `HOST` and `URL`. The first two must be there, and the port
    /// must be a port number.
    pub fn init(
        db_url: Option<String>,
        port: Option<String>,
        host_ip: Option<String>,
        url: Option<String>,
    ) -> (made: Result<Config, ConfigError>)
        ensures
            match (db_url, port) {
                (None, _) => made matches Err(error) && error == ConfigError::MissingDatabaseUrl,
                (Some(_), None) => made matches Err(error) && error == ConfigError::MissingPort,
                (Some(db_url), Some(port)) => match parsed_port(port@) {
                    None => made matches Err(error) && error == ConfigError::InvalidPort,
                    Some(number) => made matches Ok(config) && config.holds(
                        db_url@,
                        number,
                        host_ip,
                        url,
                    ),
                },
            },
    {
        let db_url = match db_url {
            Some(db_url) => db_url,
            None => {
                return Err(ConfigError::MissingDatabaseUrl);
            },
        };
        let port = match port {
            Some(port) => port,
            None => {
                return Err(ConfigError::MissingPort);
            },
        };
        match parse_port(port.as_str()) {
            Some(number) => Ok(Config::with_port(db_url, number, host_ip, url)),
            None => Err(ConfigError::InvalidPort),
        }
    }
}

} // verus!
