//! Settings, their layered resolution, and the connection options derived
//! from them.
use vstd::prelude::*;
use vstd::string::*;
use secrecy::ExposeSecret;
use crate::coerce::{
    ConfigValue, flag_of, port_of, text_of, lower_of, lowercase, same_text, to_flag, to_port,
    to_text,
};

verus! {

/// A database password held in a `secrecy::Secret`, so that it is never
/// written out by accident. Verus cannot declare the outside type, whose
/// parameter is bound by an outside trait, so it is held here opaquely.
#[verifier::external_body]
pub struct Password {
    inner: secrecy::Secret<String>,
}

/// The text held inside a password.
pub uninterp spec fn password_text(p: Password) -> Seq<char>;

impl Password {
    /// Relies on `secrecy::Secret::new`: it stores the value as it is.
    #[verifier::external_body]
    pub fn new(s: String) -> (r: Password)
        ensures
            password_text(r) == s@,
    {
        Password { inner: secrecy::Secret::new(s) }
    }

    /// Relies on `secrecy::ExposeSecret::expose_secret`: it hands back the
    /// stored value.
    #[verifier::external_body]
    pub fn expose_secret(&self) -> (r: &String)
        ensures
            r@ == password_text(*self),
    {
        self.inner.expose_secret()
    }

    /// Relies on the `Debug` impl of `secrecy::Secret`, which writes
    /// `Secret([REDACTED <type name>])` and never the value.
    #[verifier::external_body]
    pub fn redacted(&self) -> (r: String)
        ensures
            r@.len() >= 19,
            r@.subrange(0, 17) == "Secret([REDACTED "@,
            r@.subrange(r@.len() - 2, r@.len() as int) == "])"@,
    {
        format!("{:?}", self.inner)
    }
}

/// The deployment profile whose file is layered over the base file.
#[derive(PartialEq, Eq, Structural, Clone, Copy, Debug)]
pub enum Environment {
    Local,
    Production,
}

/// The sentence that rejects an environment name.
pub open spec fn unsupported_message(name: Seq<char>) -> Seq<char> {
    name + " is not supported environment. use either `local` or `production` instead."@
}

impl Environment {
    pub open spec fn name(self) -> Seq<char> {
        match self {
            Environment::Local => "local"@,
            Environment::Production => "production"@,
        }
    }

    /// The profile whose name, in lower case, is `low`.
    pub open spec fn named(low: Seq<char>) -> Option<Environment> {
        if low == "local"@ {
            Some(Environment::Local)
        } else if low == "production"@ {
            Some(Environment::Production)
        } else {
            None
        }
    }

    /// The name of the profile's configuration file.
    pub fn as_str(&self) -> (r: &'static str)
        ensures
            r@ == self.name(),
    {
        match self {
            Environment::Local => "local",
            Environment::Production => "production",
        }
    }

    /// Reads a profile name in any letter case.
    pub fn try_from(s: String) -> (r: Result<Environment, String>)
        ensures
            match Environment::named(lower_of(s@)) {
                Some(e) => r == Ok::<Environment, String>(e),
                None => r matches Err(m) && m@ == unsupported_message(lower_of(s@)),
            },
    {
        let low = lowercase(s.as_str());
        if same_text(low.as_str(), "local") {
            Ok(Environment::Local)
        } else if same_text(low.as_str(), "production") {
            Ok(Environment::Production)
        } else {
            Err(low.concat(
                " is not supported environment. use either `local` or `production` instead.",
            ))
        }
    }
}

/// The profile selected by the value of the environment variable, if it is
/// set; `Local` when it is not.
pub fn environment_from_var(v: Option<String>) -> (r: Result<Environment, String>)
    ensures
        v is None ==> r == Ok::<Environment, String>(Environment::Local),
        v matches Some(s) ==> match Environment::named(lower_of(s@)) {
            Some(e) => r == Ok::<Environment, String>(e),
            None => r matches Err(m) && m@ == unsupported_message(lower_of(s@)),
        },
{
    match v {
        None => Ok(Environment::Local),
        Some(s) => Environment::try_from(s),
    }
}

/// The leaf fields of the settings, in the order in which they are checked.
#[derive(PartialEq, Eq, Structural, Clone, Copy, Debug)]
pub enum SettingsField {
    ApplicationPort,
    ApplicationHost,
    DatabaseUsername,
    DatabasePassword,
    DatabasePort,
    DatabaseHost,
    DatabaseName,
    DatabaseRequireSsl,
}

/// Why settings could not be built from the merged sources.
#[derive(PartialEq, Eq, Structural, Clone, Copy, Debug)]
pub enum ConfigError {
    /// No source gives the field.
    Missing(SettingsField),
    /// The value given cannot be read as the field's type.
    Invalid(SettingsField),
}

/// What one configuration source gives, field by field.
pub struct SettingsLayer {
    pub application_port: Option<ConfigValue>,
    pub application_host: Option<ConfigValue>,
    pub database_username: Option<ConfigValue>,
    pub database_password: Option<ConfigValue>,
    pub database_port: Option<ConfigValue>,
    pub database_host: Option<ConfigValue>,
    pub database_name: Option<ConfigValue>,
    pub database_require_ssl: Option<ConfigValue>,
}

/// The value of a field after a source of higher precedence is laid over one
/// of lower precedence.
pub open spec fn pick(low: Option<ConfigValue>, high: Option<ConfigValue>) -> Option<ConfigValue> {
    if high is Some {
        high
    } else {
        low
    }
}

fn copy_value(v: &ConfigValue) -> (r: ConfigValue)
    ensures
        r == *v,
{
    match v {
        ConfigValue::Boolean(b) => ConfigValue::Boolean(*b),
        ConfigValue::Integer(n) => ConfigValue::Integer(*n),
        ConfigValue::Text(t) => ConfigValue::Text(t.clone()),
    }
}

fn pick_value(low: &Option<ConfigValue>, high: &Option<ConfigValue>) -> (r: Option<ConfigValue>)
    ensures
        r == pick(*low, *high),
{
    match high {
        Some(v) => Some(copy_value(v)),
        None => match low {
            Some(v) => Some(copy_value(v)),
            None => None,
        },
    }
}

impl SettingsLayer {
    /// A source that gives nothing.
    pub open spec fn spec_empty() -> SettingsLayer {
        SettingsLayer {
            application_port: None,
            application_host: None,
            database_username: None,
            database_password: None,
            database_port: None,
            database_host: None,
            database_name: None,
            database_require_ssl: None,
        }
    }

    /// This source with `over` laid on it: each field of `over` that is given
    /// wins.
    pub open spec fn merged(self, over: SettingsLayer) -> SettingsLayer {
        SettingsLayer {
            application_port: pick(self.application_port, over.application_port),
            application_host: pick(self.application_host, over.application_host),
            database_username: pick(self.database_username, over.database_username),
            database_password: pick(self.database_password, over.database_password),
            database_port: pick(self.database_port, over.database_port),
            database_host: pick(self.database_host, over.database_host),
            database_name: pick(self.database_name, over.database_name),
            database_require_ssl: pick(self.database_require_ssl, over.database_require_ssl),
        }
    }

    /// A source that gives nothing.
    pub fn empty() -> (r: SettingsLayer)
        ensures
            r == SettingsLayer::spec_empty(),
    {
        SettingsLayer {
            application_port: None,
            application_host: None,
            database_username: None,
            database_password: None,
            database_port: None,
            database_host: None,
            database_name: None,
            database_require_ssl: None,
        }
    }

    /// Lays `over` on this source.
    pub fn merge(&self, over: &SettingsLayer) -> (r: SettingsLayer)
        ensures
            r == self.merged(*over),
    {
        SettingsLayer {
            application_port: pick_value(&self.application_port, &over.application_port),
            application_host: pick_value(&self.application_host, &over.application_host),
            database_username: pick_value(&self.database_username, &over.database_username),
            database_password: pick_value(&self.database_password, &over.database_password),
            database_port: pick_value(&self.database_port, &over.database_port),
            database_host: pick_value(&self.database_host, &over.database_host),
            database_name: pick_value(&self.database_name, &over.database_name),
            database_require_ssl: pick_value(
                &self.database_require_ssl,
                &over.database_require_ssl,
            ),
        }
    }
}

/// What is wrong with one field, if anything, given whether its value reads.
pub open spec fn field_issue(v: Option<ConfigValue>, f: SettingsField, reads: bool) -> Option<
    ConfigError,
> {
    if v is None {
        Some(ConfigError::Missing(f))
    } else if !reads {
        Some(ConfigError::Invalid(f))
    } else {
        None
    }
}

pub open spec fn port_issue(v: Option<ConfigValue>, f: SettingsField) -> Option<ConfigError> {
    field_issue(v, f, v is Some && port_of(v->0) is Some)
}

pub open spec fn text_issue(v: Option<ConfigValue>, f: SettingsField) -> Option<ConfigError> {
    field_issue(v, f, v is Some && text_of(v->0) is Some)
}

pub open spec fn flag_issue(v: Option<ConfigValue>, f: SettingsField) -> Option<ConfigError> {
    field_issue(v, f, v is Some && flag_of(v->0) is Some)
}

pub open spec fn first_of(a: Option<ConfigError>, b: Option<ConfigError>) -> Option<ConfigError> {
    if a is Some {
        a
    } else {
        b
    }
}

/// The first field, in the order of `SettingsField`, that is missing or
/// cannot be read.
pub open spec fn first_issue(l: SettingsLayer) -> Option<ConfigError> {
    first_of(port_issue(l.application_port, SettingsField::ApplicationPort),
    first_of(text_issue(l.application_host, SettingsField::ApplicationHost),
    first_of(text_issue(l.database_username, SettingsField::DatabaseUsername),
    first_of(text_issue(l.database_password, SettingsField::DatabasePassword),
    first_of(port_issue(l.database_port, SettingsField::DatabasePort),
    first_of(text_issue(l.database_host, SettingsField::DatabaseHost),
    first_of(text_issue(l.database_name, SettingsField::DatabaseName),
    flag_issue(l.database_require_ssl, SettingsField::DatabaseRequireSsl))))))))
}

/// The application's own settings.
pub struct ApplicationSettings {
    pub port: u16,
    pub host: String,
}

/// Where and how to reach the database.
pub struct DatabaseSettings {
    pub username: String,
    pub password: Password,
    pub port: u16,
    pub host: String,
    pub database_name: String,
    pub require_ssl: bool,
}

/// The whole configuration of the service.
pub struct Settings {
    pub database: DatabaseSettings,
    pub application: ApplicationSettings,
}

/// The settings hold, field by field, what the source gives, read as each
/// field's type.
pub open spec fn settings_from(s: Settings, l: SettingsLayer) -> bool {
    &&& l.application_port is Some && port_of(l.application_port->0) == Some(s.application.port)
    &&& l.application_host is Some && text_of(l.application_host->0) == Some(s.application.host@)
    &&& l.database_username is Some && text_of(l.database_username->0) == Some(
        s.database.username@,
    )
    &&& l.database_password is Some && text_of(l.database_password->0) == Some(
        password_text(s.database.password),
    )
    &&& l.database_port is Some && port_of(l.database_port->0) == Some(s.database.port)
    &&& l.database_host is Some && text_of(l.database_host->0) == Some(s.database.host@)
    &&& l.database_name is Some && text_of(l.database_name->0) == Some(s.database.database_name@)
    &&& l.database_require_ssl is Some && flag_of(l.database_require_ssl->0) == Some(
        s.database.require_ssl,
    )
}

fn read_port(v: &Option<ConfigValue>, f: SettingsField) -> (r: Result<u16, ConfigError>)
    ensures
        match port_issue(*v, f) {
            Some(e) => r == Err::<u16, ConfigError>(e),
            None => r is Ok && v is Some && port_of(v->0) == Some(r->Ok_0),
        },
{
    match v {
        None => Err(ConfigError::Missing(f)),
        Some(x) => match to_port(x) {
            Some(p) => Ok(p),
            None => Err(ConfigError::Invalid(f)),
        },
    }
}

fn read_text(v: &Option<ConfigValue>, f: SettingsField) -> (r: Result<String, ConfigError>)
    ensures
        match text_issue(*v, f) {
            Some(e) => r == Err::<String, ConfigError>(e),
            None => r is Ok && v is Some && text_of(v->0) == Some(r->Ok_0@),
        },
{
    match v {
        None => Err(ConfigError::Missing(f)),
        Some(x) => Ok(to_text(x)),
    }
}

fn read_flag(v: &Option<ConfigValue>, f: SettingsField) -> (r: Result<bool, ConfigError>)
    ensures
        match flag_issue(*v, f) {
            Some(e) => r == Err::<bool, ConfigError>(e),
            None => r is Ok && v is Some && flag_of(v->0) == Some(r->Ok_0),
        },
{
    match v {
        None => Err(ConfigError::Missing(f)),
        Some(x) => match to_flag(x) {
            Some(b) => Ok(b),
            None => Err(ConfigError::Invalid(f)),
        },
    }
}

impl Settings {
    /// Builds the settings from the merged sources, or names the first field
    /// that is missing or cannot be read.
    pub fn from_layer(l: &SettingsLayer) -> (r: Result<Settings, ConfigError>)
        ensures
            match first_issue(*l) {
                Some(e) => r matches Err(x) && x == e,
                None => r matches Ok(s) && settings_from(s, *l),
            },
    {
        let app_port = match read_port(&l.application_port, SettingsField::ApplicationPort) {
            Ok(x) => x,
            Err(e) => return Err(e),
        };
        let app_host = match read_text(&l.application_host, SettingsField::ApplicationHost) {
            Ok(x) => x,
            Err(e) => return Err(e),
        };
        let username = match read_text(&l.database_username, SettingsField::DatabaseUsername) {
            Ok(x) => x,
            Err(e) => return Err(e),
        };
        let password = match read_text(&l.database_password, SettingsField::DatabasePassword) {
            Ok(x) => x,
            Err(e) => return Err(e),
        };
        let db_port = match read_port(&l.database_port, SettingsField::DatabasePort) {
            Ok(x) => x,
            Err(e) => return Err(e),
        };
        let db_host = match read_text(&l.database_host, SettingsField::DatabaseHost) {
            Ok(x) => x,
            Err(e) => return Err(e),
        };
        let db_name = match read_text(&l.database_name, SettingsField::DatabaseName) {
            Ok(x) => x,
            Err(e) => return Err(e),
        };
        let require_ssl = match read_flag(&l.database_require_ssl, SettingsField::DatabaseRequireSsl) {
            Ok(x) => x,
            Err(e) => return Err(e),
        };
        Ok(Settings {
            database: DatabaseSettings {
                username,
                password: Password::new(password),
                port: db_port,
                host: db_host,
                database_name: db_name,
                require_ssl,
            },
            application: ApplicationSettings { port: app_port, host: app_host },
        })
    }
}

/// The three sources in order of precedence: the base file, the profile's
/// file, and the overrides from environment variables.
pub open spec fn layered(base: SettingsLayer, profile: SettingsLayer, overrides: SettingsLayer) -> SettingsLayer {
    base.merged(profile).merged(overrides)
}

/// Merges the three sources, later ones winning field by field, and builds
/// the settings from the result.
pub fn resolve(base: &SettingsLayer, profile: &SettingsLayer, overrides: &SettingsLayer) -> (r:
    Result<Settings, ConfigError>)
    ensures
        match first_issue(layered(*base, *profile, *overrides)) {
            Some(e) => r matches Err(x) && x == e,
            None => r matches Ok(s) && settings_from(s, layered(*base, *profile, *overrides)),
        },
{
    let merged = base.merge(profile).merge(overrides);
    Settings::from_layer(&merged)
}

/// How the connection negotiates TLS.
#[derive(PartialEq, Eq, Structural, Clone, Copy, Debug)]
pub enum SslMode {
    /// Fail unless TLS is negotiated.
    Require,
    /// Use TLS when the server offers it.
    Prefer,
}

/// What a connection pool needs to open a connection.
pub struct ConnectOptions {
    pub host: String,
    pub port: u16,
    pub username: String,
    pub password: String,
    pub database: Option<String>,
    pub ssl_mode: SslMode,
    /// Whether executed statements are logged at trace level.
    pub trace_statements: bool,
}

/// The TLS policy that a settings flag asks for.
pub open spec fn ssl_mode_for(require_ssl: bool) -> SslMode {
    if require_ssl {
        SslMode::Require
    } else {
        SslMode::Prefer
    }
}

impl DatabaseSettings {
    /// Options that address the server alone, with no database selected.
    pub fn without_db(&self) -> (r: ConnectOptions)
        ensures
            r.host@ == self.host@,
            r.port == self.port,
            r.username@ == self.username@,
            r.password@ == password_text(self.password),
            r.database is None,
            r.ssl_mode == ssl_mode_for(self.require_ssl),
            !r.trace_statements,
    {
        let ssl_mode = if self.require_ssl {
            SslMode::Require
        } else {
            SslMode::Prefer
        };
        ConnectOptions {
            host: self.host.clone(),
            port: self.port,
            username: self.username.clone(),
            password: self.password.expose_secret().clone(),
            database: None,
            ssl_mode,
            trace_statements: false,
        }
    }

    /// Options that address the server and select the configured database.
    pub fn with_db(&self) -> (r: ConnectOptions)
        ensures
            r.host@ == self.host@,
            r.port == self.port,
            r.username@ == self.username@,
            r.password@ == password_text(self.password),
            r.database matches Some(d) && d@ == self.database_name@,
            r.ssl_mode == ssl_mode_for(self.require_ssl),
            r.trace_statements,
    {
        let mut options = self.without_db();
        options.database = Some(self.database_name.clone());
        options.trace_statements = true;
        options
    }

    /// The password as it may appear in logs.
    pub fn redacted_password(&self) -> (r: String)
        ensures
            r@.len() >= 19,
            r@.subrange(0, 17) == "Secret([REDACTED "@,
            r@.subrange(r@.len() - 2, r@.len() as int) == "])"@,
    {
        self.password.redacted()
    }
}

/// With no overrides, each field comes from the profile's file where it gives
/// one and from the base file otherwise, and the resolved settings hold those
/// values.
pub proof fn lemma_files_without_overrides(base: SettingsLayer, profile: SettingsLayer, s: Settings)
    ensures
        layered(base, profile, SettingsLayer::spec_empty()) == base.merged(profile),
        base.merged(profile).database_port == (if profile.database_port is Some {
            profile.database_port
        } else {
            base.database_port
        }),
        base.merged(profile).application_port == (if profile.application_port is Some {
            profile.application_port
        } else {
            base.application_port
        }),
        base.merged(profile).database_host == (if profile.database_host is Some {
            profile.database_host
        } else {
            base.database_host
        }),
        settings_from(s, layered(base, profile, SettingsLayer::spec_empty())) <==> settings_from(
            s,
            base.merged(profile),
        ),
{
    assert(base.merged(profile).merged(SettingsLayer::spec_empty()) == base.merged(profile));
}

/// A database port given by an override wins over both files: settings
/// resolved from the sources hold exactly that port.
pub proof fn lemma_port_override(
    base: SettingsLayer,
    profile: SettingsLayer,
    overrides: SettingsLayer,
    n: u16,
    s: Settings,
)
    requires
        overrides.database_port is Some,
        port_of(overrides.database_port->0) == Some(n),
        settings_from(s, layered(base, profile, overrides)),
    ensures
        s.database.port == n,
{
}

/// An override port that cannot be read fails resolution, whatever the
/// files give.
pub proof fn lemma_bad_port_override_fails(
    base: SettingsLayer,
    profile: SettingsLayer,
    overrides: SettingsLayer,
)
    requires
        overrides.database_port is Some,
        port_of(overrides.database_port->0) is None,
    ensures
        first_issue(layered(base, profile, overrides)) is Some,
{
}

} // verus!
