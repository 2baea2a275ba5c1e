use vstd::prelude::*;
use vstd::string::*;

verus! {

/// The whole configuration of the service, loaded once at start.
#[derive(Clone, Debug)]
pub struct Config {
    pub server: ServerConfig,
    pub log: LogConfig,
    pub postgres: PostgresConfig,
}

/// Where the service listens, its certificate pair and its legacy URLs.
#[derive(Clone, Debug)]
pub struct ServerConfig {
    pub url: String,
    pub cert: String,
    pub key: String,
    pub redirect_from: Vec<String>,
}

/// Log levels of the web framework and of the application.
#[derive(Clone, Debug)]
pub struct LogConfig {
    pub actix_web: String,
    pub webapp: String,
}

/// Connection parameters of the database.
#[derive(Clone, Debug)]
pub struct PostgresConfig {
    pub host: String,
    pub port: String,
    pub username: String,
    pub password: String,
    pub database: String,
}

impl PostgresConfig {
    /// `postgres://<username>:<password>@<host>:<port>/<database>`
    pub open spec fn database_url_spec(&self) -> Seq<char> {
        "postgres://"@ + self.username@ + ":"@ + self.password@ + "@"@ + self.host@ + ":"@
            + self.port@ + "/"@ + self.database@
    }

    /// The connection URL handed to the database pool.
    pub fn database_url(&self) -> (r: String)
        ensures
            r@ == self.database_url_spec(),
    {
        let mut s = String::from_str("postgres://");
        s.append(self.username.as_str());
        s.append(":");
        s.append(self.password.as_str());
        s.append("@");
        s.append(self.host.as_str());
        s.append(":");
        s.append(self.port.as_str());
        s.append("/");
        s.append(self.database.as_str());
        s
    }
}

impl ServerConfig {
    /// Redirect listeners are started only when some legacy URL is configured.
    pub fn has_redirects(&self) -> (r: bool)
        ensures
            r == (self.redirect_from@.len() > 0),
    {
        self.redirect_from.len() > 0
    }
}

} // verus!
