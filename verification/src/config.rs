//! Connection settings and the connection string built from them.

use crate::error::{text_result, DbError, DbErrorModel, DbResult};
use crate::text::{
    decimal, decimal_string, has_prefix, opt_text, same_ignoring_case, str_eq_ignoring_case,
};
use sqlx::any::AnyConnectOptions;
use vstd::prelude::*;
use vstd::string::*;

verus! {

/// The connect options of `sqlx`'s driver-agnostic connection, as an opaque value.
#[verifier::external_type_specification]
#[verifier::external_body]
pub struct ExAnyConnectOptions(sqlx::any::AnyConnectOptions);

/// The error type of `sqlx`, as an opaque value.
#[verifier::external_type_specification]
#[verifier::external_body]
pub struct ExSqlxError(sqlx::Error);

/// Whether `sqlx`'s `AnyConnectOptions::from_str` accepts a connection
/// string. It accepts what its URL parser reads as a URL, which depends on the
/// characters of the string and on nothing else.
pub uninterp spec fn sqlx_reads_url(url: Seq<char>) -> bool;

/// Hands a connection string to `sqlx`'s `AnyConnectOptions::from_str`, which
/// reads it as a URL. The outcome is `Ok` for exactly the strings that
/// `sqlx` accepts; nothing is claimed of what the options or the error hold.
#[verifier::external_body]
fn parse_connect_options(url: &str) -> (r: Result<AnyConnectOptions, sqlx::Error>)
    ensures
        r is Ok <==> sqlx_reads_url(url@),
{
    <AnyConnectOptions as std::str::FromStr>::from_str(url)
}

/// The words in which a `sqlx::Error` describes itself through `Display`.
/// Nothing is claimed of them.
#[verifier::external_body]
fn describe_sqlx_error(e: &sqlx::Error) -> (s: String) {
    e.to_string()
}

/// The words that introduce `sqlx`'s own description when it refuses a connection string.
pub open spec fn refused_heading() -> Seq<char> {
    "Failed to parse connection string for sqlx: "@
}

/// Turns what `sqlx` made of a connection string into the library's result:
/// the options as they are, or a configuration error whose detail is the
/// heading above followed by `sqlx`'s description.
pub fn connect_options_outcome(parsed: Result<AnyConnectOptions, sqlx::Error>) -> (r: DbResult<
    AnyConnectOptions,
>)
    ensures
        match parsed {
            Ok(o) => r == Ok::<AnyConnectOptions, DbError>(o),
            Err(_) => r matches Err(e) && e@ is Config && has_prefix(
                e@.detail(),
                refused_heading(),
            ),
        },
{
    match parsed {
        Ok(o) => Ok(o),
        Err(e) => {
            let mut m = String::from_str("Failed to parse connection string for sqlx: ");
            let ghost heading = m@;
            let words = describe_sqlx_error(&e);
            m.append(words.as_str());
            assert(m@.subrange(0, heading.len() as int) =~= heading);
            Err(DbError::Config(m))
        },
    }
}

/// The database engines that can be named in a configuration.
#[derive(Debug, Clone, Copy, PartialEq, Eq, Hash, Structural)]
pub enum DatabaseType {
    Postgres,
    Mysql,
    Sqlite,
}

impl Default for DatabaseType {
    fn default() -> (r: Self)
        ensures
            r == DatabaseType::Postgres,
    {
        DatabaseType::Postgres
    }
}

/// The engine that a name stands for, letter case aside, if it is a known one.
pub open spec fn engine_named(name: Seq<char>) -> Option<DatabaseType> {
    if same_ignoring_case(name, "postgres"@) || same_ignoring_case(name, "postgresql"@) {
        Some(DatabaseType::Postgres)
    } else if same_ignoring_case(name, "mysql"@) || same_ignoring_case(name, "mariadb"@) {
        Some(DatabaseType::Mysql)
    } else if same_ignoring_case(name, "sqlite"@) {
        Some(DatabaseType::Sqlite)
    } else {
        None
    }
}

impl DatabaseType {
    /// The engine's name as shown to people.
    pub open spec fn label(self) -> Seq<char> {
        match self {
            DatabaseType::Postgres => "PostgreSQL"@,
            DatabaseType::Mysql => "MySQL/MariaDB"@,
            DatabaseType::Sqlite => "SQLite"@,
        }
    }

    /// Reads an engine's name, letter case aside. An unknown name is a
    /// configuration error that quotes the name as it was given.
    pub fn from_str(s: &str) -> (r: DbResult<DatabaseType>)
        ensures
            match engine_named(s@) {
                Some(t) => r == Ok::<DatabaseType, DbError>(t),
                None => r matches Err(e) && e@ == DbErrorModel::Config(
                    "Unsupported database type: "@ + s@,
                ),
            },
    {
        if str_eq_ignoring_case(s, "postgres") || str_eq_ignoring_case(s, "postgresql") {
            Ok(DatabaseType::Postgres)
        } else if str_eq_ignoring_case(s, "mysql") || str_eq_ignoring_case(s, "mariadb") {
            Ok(DatabaseType::Mysql)
        } else if str_eq_ignoring_case(s, "sqlite") {
            Ok(DatabaseType::Sqlite)
        } else {
            let mut m = String::from_str("Unsupported database type: ");
            m.append(s);
            Err(DbError::Config(m))
        }
    }

    /// Renders the engine's name as shown to people.
    pub fn to_string(&self) -> (s: String)
        ensures
            s@ == self.label(),
    {
        match self {
            DatabaseType::Postgres => String::from_str("PostgreSQL"),
            DatabaseType::Mysql => String::from_str("MySQL/MariaDB"),
            DatabaseType::Sqlite => String::from_str("SQLite"),
        }
    }
}

impl std::str::FromStr for DatabaseType {
    type Err = DbError;

    /// Reads an engine's name as the function of the same name on the type
    /// does: letter case aside, and with a configuration error that quotes
    /// the name for a name that is not known.
    fn from_str(s: &str) -> (r: Result<Self, Self::Err>)
        ensures
            match engine_named(s@) {
                Some(t) => r == Ok::<DatabaseType, DbError>(t),
                None => r matches Err(e) && e@ == DbErrorModel::Config(
                    "Unsupported database type: "@ + s@,
                ),
            },
    {
        DatabaseType::from_str(s)
    }
}

/// Limits and timeouts of the connection pool; an absent one is left to the pool.
#[derive(Debug, Clone, Copy)]
pub struct PoolOptionsConfig {
    pub max_connections: Option<u32>,
    pub min_connections: Option<u32>,
    pub connect_timeout_seconds: Option<u64>,
    pub idle_timeout_seconds: Option<u64>,
    pub max_lifetime_seconds: Option<u64>,
    pub acquire_timeout_seconds: Option<u64>,
    pub test_before_acquire: Option<bool>,
}

/// The number of connections that a configured pool may open at most when no limit is given.
pub const DEFAULT_MAX_CONNECTIONS: u32 = 5;

/// The number of connections that a configured pool keeps open when none is given.
pub const DEFAULT_MIN_CONNECTIONS: u32 = 1;

impl Default for PoolOptionsConfig {
    fn default() -> (r: Self)
        ensures
            r == (PoolOptionsConfig {
                max_connections: None,
                min_connections: None,
                connect_timeout_seconds: None,
                idle_timeout_seconds: None,
                max_lifetime_seconds: None,
                acquire_timeout_seconds: None,
                test_before_acquire: None,
            }),
    {
        PoolOptionsConfig {
            max_connections: None,
            min_connections: None,
            connect_timeout_seconds: None,
            idle_timeout_seconds: None,
            max_lifetime_seconds: None,
            acquire_timeout_seconds: None,
            test_before_acquire: None,
        }
    }
}

impl PoolOptionsConfig {
    /// The upper limit that the pool is opened with.
    pub fn effective_max_connections(&self) -> (n: u32)
        ensures
            n == match self.max_connections {
                Some(m) => m,
                None => DEFAULT_MAX_CONNECTIONS,
            },
    {
        match self.max_connections {
            Some(m) => m,
            None => DEFAULT_MAX_CONNECTIONS,
        }
    }

    /// The lower limit that the pool is opened with.
    pub fn effective_min_connections(&self) -> (n: u32)
        ensures
            n == match self.min_connections {
                Some(m) => m,
                None => DEFAULT_MIN_CONNECTIONS,
            },
    {
        match self.min_connections {
            Some(m) => m,
            None => DEFAULT_MIN_CONNECTIONS,
        }
    }
}

/// How to reach a database: either a ready connection string, or the parts
/// from which one is built.
#[derive(Debug)]
pub struct DbConfig {
    pub db_type: DatabaseType,
    pub host: Option<String>,
    pub port: Option<u16>,
    pub username: Option<String>,
    pub password: Option<String>,
    pub database_name: Option<String>,
    pub schema: Option<String>,
    pub connection_string: Option<String>,
    pub pool_options: Option<PoolOptionsConfig>,
    pub sqlite_path: Option<String>,
}

/// A configuration as a mathematical value.
pub struct DbConfigModel {
    pub db_type: DatabaseType,
    pub host: Option<Seq<char>>,
    pub port: Option<u16>,
    pub username: Option<Seq<char>>,
    pub password: Option<Seq<char>>,
    pub database_name: Option<Seq<char>>,
    pub schema: Option<Seq<char>>,
    pub connection_string: Option<Seq<char>>,
    pub pool_options: Option<PoolOptionsConfig>,
    pub sqlite_path: Option<Seq<char>>,
}

impl DbConfigModel {
    /// A configuration that names an engine and nothing else.
    pub open spec fn bare(db_type: DatabaseType) -> DbConfigModel {
        DbConfigModel {
            db_type,
            host: None,
            port: None,
            username: None,
            password: None,
            database_name: None,
            schema: None,
            connection_string: None,
            pool_options: None,
            sqlite_path: None,
        }
    }

    /// The first part that a network connection string needs and the
    /// configuration lacks, in the order in which the parts are written.
    pub open spec fn missing_part(self) -> Option<Seq<char>> {
        if self.username is None {
            Some("username"@)
        } else if self.password is None {
            Some("password"@)
        } else if self.host is None {
            Some("host"@)
        } else if self.port is None {
            Some("port"@)
        } else if self.database_name is None {
            Some("database_name"@)
        } else {
            None
        }
    }

    /// The connection string of an engine reached over the network:
    /// `scheme user:password@host:port/database`, or the error that names the
    /// first missing part and the engine.
    pub open spec fn network_url(self, scheme: Seq<char>, engine: Seq<char>) -> Result<
        Seq<char>,
        DbErrorModel,
    > {
        match self.missing_part() {
            Some(part) => Err(DbErrorModel::Config("Missing "@ + part + " for "@ + engine)),
            None => Ok(
                scheme + self.username->0 + ":"@ + self.password->0 + "@"@ + self.host->0 + ":"@
                    + decimal(self.port->0 as nat) + "/"@ + self.database_name->0,
            ),
        }
    }

    /// The connection string of a file database: in memory when the path is empty.
    pub open spec fn file_url(self) -> Result<Seq<char>, DbErrorModel> {
        match self.sqlite_path {
            None => Err(DbErrorModel::Config("Missing "@ + "sqlite_path"@ + " for "@ + "SQLite"@)),
            Some(path) => if path.len() == 0 {
                Ok("sqlite::memory:"@)
            } else {
                Ok("sqlite:"@ + path)
            },
        }
    }

    /// The connection string that the configuration stands for: the ready one
    /// where it is given, else the one built for the engine.
    pub open spec fn connection_text(self) -> Result<Seq<char>, DbErrorModel> {
        match self.connection_string {
            Some(cs) => Ok(cs),
            None => match self.db_type {
                DatabaseType::Postgres => self.network_url("postgresql://"@, "Postgres"@),
                DatabaseType::Mysql => self.network_url("mysql://"@, "MySQL"@),
                DatabaseType::Sqlite => self.file_url(),
            },
        }
    }
}

impl View for DbConfig {
    type V = DbConfigModel;

    open spec fn view(&self) -> DbConfigModel {
        DbConfigModel {
            db_type: self.db_type,
            host: opt_text(self.host),
            port: self.port,
            username: opt_text(self.username),
            password: opt_text(self.password),
            database_name: opt_text(self.database_name),
            schema: opt_text(self.schema),
            connection_string: opt_text(self.connection_string),
            pool_options: self.pool_options,
            sqlite_path: opt_text(self.sqlite_path),
        }
    }
}

/// Copies an optional string.
pub fn clone_opt_text(o: &Option<String>) -> (r: Option<String>)
    ensures
        opt_text(r) == opt_text(*o),
{
    match o {
        Some(s) => Some(s.clone()),
        None => None,
    }
}

impl Clone for DbConfig {
    fn clone(&self) -> (r: Self)
        ensures
            r@ == self@,
    {
        DbConfig {
            db_type: self.db_type,
            host: clone_opt_text(&self.host),
            port: self.port,
            username: clone_opt_text(&self.username),
            password: clone_opt_text(&self.password),
            database_name: clone_opt_text(&self.database_name),
            schema: clone_opt_text(&self.schema),
            connection_string: clone_opt_text(&self.connection_string),
            pool_options: self.pool_options,
            sqlite_path: clone_opt_text(&self.sqlite_path),
        }
    }
}

impl Default for DbConfig {
    fn default() -> (r: Self)
        ensures
            r@ == DbConfigModel::bare(DatabaseType::Postgres),
    {
        DbConfig::new(DatabaseType::Postgres)
    }
}

/// The error of a connection string that lacks `part` for `engine`.
fn missing(part: &str, engine: &str) -> (e: DbError)
    ensures
        e@ == DbErrorModel::Config("Missing "@ + part@ + " for "@ + engine@),
{
    let mut m = String::from_str("Missing ");
    m.append(part);
    m.append(" for ");
    m.append(engine);
    DbError::Config(m)
}

impl DbConfig {
    /// A configuration for `db_type` with nothing else set.
    pub fn new(db_type: DatabaseType) -> (r: Self)
        ensures
            r@ == DbConfigModel::bare(db_type),
    {
        DbConfig {
            db_type,
            host: None,
            port: None,
            username: None,
            password: None,
            database_name: None,
            schema: None,
            connection_string: None,
            pool_options: None,
            sqlite_path: None,
        }
    }

    /// Sets the host.
    pub fn host(self, host: &str) -> (r: Self)
        ensures
            r@ == (DbConfigModel { host: Some(host@), ..self@ }),
    {
        let mut r = self;
        r.host = Some(String::from_str(host));
        r
    }

    /// Sets the port.
    pub fn port(self, port: u16) -> (r: Self)
        ensures
            r@ == (DbConfigModel { port: Some(port), ..self@ }),
    {
        let mut r = self;
        r.port = Some(port);
        r
    }

    /// Sets the user name.
    pub fn username(self, username: &str) -> (r: Self)
        ensures
            r@ == (DbConfigModel { username: Some(username@), ..self@ }),
    {
        let mut r = self;
        r.username = Some(String::from_str(username));
        r
    }

    /// Sets the password.
    pub fn password(self, password: &str) -> (r: Self)
        ensures
            r@ == (DbConfigModel { password: Some(password@), ..self@ }),
    {
        let mut r = self;
        r.password = Some(String::from_str(password));
        r
    }

    /// Sets the name of the database.
    pub fn database_name(self, database_name: &str) -> (r: Self)
        ensures
            r@ == (DbConfigModel { database_name: Some(database_name@), ..self@ }),
    {
        let mut r = self;
        r.database_name = Some(String::from_str(database_name));
        r
    }

    /// Sets the default schema.
    pub fn schema(self, schema: &str) -> (r: Self)
        ensures
            r@ == (DbConfigModel { schema: Some(schema@), ..self@ }),
    {
        let mut r = self;
        r.schema = Some(String::from_str(schema));
        r
    }

    /// Sets a ready connection string, which then stands in place of the parts.
    pub fn connection_string(self, cs: &str) -> (r: Self)
        ensures
            r@ == (DbConfigModel { connection_string: Some(cs@), ..self@ }),
    {
        let mut r = self;
        r.connection_string = Some(String::from_str(cs));
        r
    }

    /// Sets the pool's limits and timeouts.
    pub fn pool_options(self, pool_opts: PoolOptionsConfig) -> (r: Self)
        ensures
            r@ == (DbConfigModel { pool_options: Some(pool_opts), ..self@ }),
    {
        let mut r = self;
        r.pool_options = Some(pool_opts);
        r
    }

    /// The connection string of an engine reached over the network.
    fn build_network_url(&self, scheme: &str, engine: &str) -> (r: DbResult<String>)
        ensures
            text_result(r) == self@.network_url(scheme@, engine@),
    {
        let username = match &self.username {
            Some(u) => u,
            None => { return Err(missing("username", engine)); },
        };
        let password = match &self.password {
            Some(p) => p,
            None => { return Err(missing("password", engine)); },
        };
        let host = match &self.host {
            Some(h) => h,
            None => { return Err(missing("host", engine)); },
        };
        let port = match self.port {
            Some(p) => p,
            None => { return Err(missing("port", engine)); },
        };
        let database_name = match &self.database_name {
            Some(d) => d,
            None => { return Err(missing("database_name", engine)); },
        };
        let mut s = String::from_str(scheme);
        s.append(username.as_str());
        s.append(":");
        s.append(password.as_str());
        s.append("@");
        s.append(host.as_str());
        s.append(":");
        let digits = decimal_string(port as u64);
        s.append(digits.as_str());
        s.append("/");
        s.append(database_name.as_str());
        Ok(s)
    }

    /// Builds the connection string, or says which essential part is missing.
    ///
    /// A ready connection string is returned as it is. Otherwise the string is
    /// built for the engine; the parts are asked for in the order user name,
    /// password, host, port, database name, and the first one that is absent
    /// is the one reported.
    pub fn build_connection_string(&self) -> (r: DbResult<String>)
        ensures
            text_result(r) == self@.connection_text(),
    {
        if let Some(cs) = &self.connection_string {
            return Ok(cs.clone());
        }
        match self.db_type {
            DatabaseType::Postgres => self.build_network_url("postgresql://", "Postgres"),
            DatabaseType::Mysql => self.build_network_url("mysql://", "MySQL"),
            DatabaseType::Sqlite => {
                match &self.sqlite_path {
                    None => Err(missing("sqlite_path", "SQLite")),
                    Some(path) => {
                        if path.as_str().unicode_len() == 0 {
                            Ok(String::from_str("sqlite::memory:"))
                        } else {
                            let mut s = String::from_str("sqlite:");
                            s.append(path.as_str());
                            Ok(s)
                        }
                    },
                }
            },
        }
    }

    /// The connect options that `sqlx` reads from the connection string.
    ///
    /// A configuration without a connection string gives the error of
    /// [`DbConfig::build_connection_string`]. Otherwise the string goes to
    /// `sqlx`: the options are returned exactly when `sqlx` accepts the
    /// string, and a refusal is a configuration error whose detail is the
    /// heading of [`refused_heading`] followed by `sqlx`'s own words.
    pub fn to_sqlx_any_options(&self) -> (r: DbResult<AnyConnectOptions>)
        ensures
            self@.connection_text() matches Err(e) ==> r matches Err(x) && x@ == e,
            self@.connection_text() matches Ok(cs) ==> (r is Ok <==> sqlx_reads_url(cs)),
            r matches Err(x) ==> x@ is Config,
            self@.connection_text() is Ok ==> (r matches Err(x) ==> has_prefix(
                x@.detail(),
                refused_heading(),
            )),
    {
        match self.build_connection_string() {
            Err(e) => Err(e),
            Ok(cs) => connect_options_outcome(parse_connect_options(cs.as_str())),
        }
    }
}

} // verus!
