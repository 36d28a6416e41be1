//! Application settings and their defaults. Reading them from files and the
//! environment is left to the program that embeds the library.

use vstd::prelude::*;

verus! {

/// Application settings.
#[derive(Debug, Clone)]
pub struct AppConfig {
    /// Deployment environment: `development`, `staging` or `production`.
    pub environment: String,
    /// Logging settings.
    pub log: LogConfig,
    /// HTTP server settings.
    pub server: ServerConfig,
    /// Database settings.
    pub database: DatabaseConfig,
}

/// Logging settings.
#[derive(Debug, Clone)]
pub struct LogConfig {
    /// Log level.
    pub level: String,
}

/// HTTP server settings.
#[derive(Debug, Clone)]
pub struct ServerConfig {
    /// Host to bind.
    pub host: String,
    /// Port to bind.
    pub port: u16,
}

/// Database settings.
#[derive(Debug, Clone)]
pub struct DatabaseConfig {
    /// Connection URL.
    pub url: String,
    /// Largest number of pooled connections.
    pub max_connections: u32,
}

/// The character of the decimal digit `d`.
pub open spec fn digit_char(d: nat) -> char
    recommends
        d < 10,
{
    seq!['0', '1', '2', '3', '4', '5', '6', '7', '8', '9'][d as int]
}

/// The decimal text of `n`, without leading zeros.
pub open spec fn decimal(n: nat) -> Seq<char>
    decreases n,
{
    if n < 10 {
        seq![digit_char(n)]
    } else {
        decimal(n / 10).push(digit_char(n % 10))
    }
}

fn digit_text(d: u16) -> (r: &'static str)
    requires
        d < 10,
    ensures
        r@ == seq![digit_char(d as nat)],
{
    proof {
        reveal_strlit("0");
        reveal_strlit("1");
        reveal_strlit("2");
        reveal_strlit("3");
        reveal_strlit("4");
        reveal_strlit("5");
        reveal_strlit("6");
        reveal_strlit("7");
        reveal_strlit("8");
        reveal_strlit("9");
    }
    let r = match d {
        0 => "0",
        1 => "1",
        2 => "2",
        3 => "3",
        4 => "4",
        5 => "5",
        6 => "6",
        7 => "7",
        8 => "8",
        _ => "9",
    };
    assert(r@ =~= seq![digit_char(d as nat)]);
    r
}

/// The decimal text of `n`.
pub fn decimal_text(n: u16) -> (r: String)
    ensures
        r@ == decimal(n as nat),
    decreases n,
{
    if n < 10 {
        String::from_str(digit_text(n))
    } else {
        let mut r = decimal_text(n / 10);
        r.append(digit_text(n % 10));
        assert(r@ =~= decimal(n as nat));
        r
    }
}

/// The default environment name, `development`.
pub fn default_environment() -> (r: String)
    ensures
        r@ == "development"@,
{
    String::from_str("development")
}

/// The default log level, `info`.
pub fn default_log_level() -> (r: String)
    ensures
        r@ == "info"@,
{
    String::from_str("info")
}

/// The default host, `127.0.0.1`.
pub fn default_host() -> (r: String)
    ensures
        r@ == "127.0.0.1"@,
{
    String::from_str("127.0.0.1")
}

/// The default port, 3000.
pub fn default_port() -> (r: u16)
    ensures
        r == 3000,
{
    3000
}

/// The default size of the connection pool, 5.
pub fn default_max_connections() -> (r: u32)
    ensures
        r == 5,
{
    5
}

impl Default for LogConfig {
    fn default() -> (r: LogConfig)
        ensures
            r.level@ == "info"@,
    {
        LogConfig { level: default_log_level() }
    }
}

impl Default for ServerConfig {
    fn default() -> (r: ServerConfig)
        ensures
            r.host@ == "127.0.0.1"@,
            r.port == 3000,
    {
        ServerConfig { host: default_host(), port: default_port() }
    }
}

impl Default for DatabaseConfig {
    fn default() -> (r: DatabaseConfig)
        ensures
            r.url@ == Seq::<char>::empty(),
            r.max_connections == 5,
    {
        DatabaseConfig { url: String::new(), max_connections: default_max_connections() }
    }
}

impl ServerConfig {
    /// The address to bind, `host:port`.
    pub fn address(&self) -> (r: String)
        ensures
            r@ == self.host@ + seq![':'] + decimal(self.port as nat),
    {
        proof {
            reveal_strlit(":");
        }
        let mut r = self.host.clone();
        r.append(":");
        let port = decimal_text(self.port);
        r.append(port.as_str());
        assert(r@ =~= self.host@ + seq![':'] + decimal(self.port as nat));
        r
    }
}

impl AppConfig {
    /// Whether the environment is `development`.
    pub fn is_development(&self) -> (r: bool)
        ensures
            r == (self.environment@ == "development"@),
    {
        self.environment == String::from_str("development")
    }

    /// Whether the environment is `production`.
    pub fn is_production(&self) -> (r: bool)
        ensures
            r == (self.environment@ == "production"@),
    {
        self.environment == String::from_str("production")
    }
}

} // verus!
