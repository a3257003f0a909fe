use zero2prod::coerce::{parse_port, to_flag, to_port, ConfigValue};
use zero2prod::configuration::{
    environment_from_var, resolve, ConfigError, DatabaseSettings, Environment, Password,
    SettingsField, SettingsLayer, SslMode,
};

fn text(s: &str) -> Option<ConfigValue> {
    Some(ConfigValue::Text(s.to_string()))
}

fn base_layer() -> SettingsLayer {
    SettingsLayer {
        application_port: Some(ConfigValue::Integer(8000)),
        application_host: text("127.0.0.1"),
        database_username: text("postgres"),
        database_password: text("password"),
        database_port: Some(ConfigValue::Integer(5432)),
        database_host: text("localhost"),
        database_name: text("newsletter"),
        database_require_ssl: Some(ConfigValue::Boolean(false)),
    }
}

fn settings_for(require_ssl: bool) -> DatabaseSettings {
    DatabaseSettings {
        username: "postgres".to_string(),
        password: Password::new("hunter2secret".to_string()),
        port: 5432,
        host: "db.example.com".to_string(),
        database_name: "newsletter".to_string(),
        require_ssl,
    }
}

#[test]
fn port_text_is_read_as_decimal() {
    assert_eq!(parse_port("8000"), Some(8000));
    assert_eq!(parse_port("0"), Some(0));
    assert_eq!(parse_port("65535"), Some(65535));
    assert_eq!(parse_port("65536"), None);
    assert_eq!(parse_port("99999999999"), None);
    assert_eq!(parse_port(""), None);
    assert_eq!(parse_port("80a"), None);
    assert_eq!(parse_port("-1"), None);
}

#[test]
fn port_values_by_kind() {
    assert_eq!(to_port(&ConfigValue::Integer(443)), Some(443));
    assert_eq!(to_port(&ConfigValue::Integer(70000)), None);
    assert_eq!(to_port(&ConfigValue::Integer(-5)), None);
    assert_eq!(to_port(&ConfigValue::Boolean(true)), None);
}

#[test]
fn flags_in_any_letter_case() {
    assert_eq!(to_flag(&ConfigValue::Text("TRUE".to_string())), Some(true));
    assert_eq!(to_flag(&ConfigValue::Text("Yes".to_string())), Some(true));
    assert_eq!(to_flag(&ConfigValue::Text("off".to_string())), Some(false));
    assert_eq!(to_flag(&ConfigValue::Text("0".to_string())), Some(false));
    assert_eq!(to_flag(&ConfigValue::Text("maybe".to_string())), None);
    assert_eq!(to_flag(&ConfigValue::Integer(0)), Some(false));
    assert_eq!(to_flag(&ConfigValue::Integer(7)), Some(true));
}

#[test]
fn environment_names() {
    assert_eq!(Environment::try_from("local".to_string()), Ok(Environment::Local));
    assert_eq!(Environment::try_from("PRODUCTION".to_string()), Ok(Environment::Production));
    assert_eq!(Environment::Local.as_str(), "local");
    assert_eq!(Environment::Production.as_str(), "production");
}

#[test]
fn unknown_environment_is_rejected() {
    assert_eq!(
        Environment::try_from("Staging".to_string()),
        Err("staging is not supported environment. use either `local` or `production` instead."
            .to_string())
    );
    assert!(environment_from_var(Some("staging".to_string())).is_err());
}

#[test]
fn absent_environment_means_local() {
    assert_eq!(environment_from_var(None), Ok(Environment::Local));
    assert_eq!(environment_from_var(Some("Production".to_string())), Ok(Environment::Production));
}

#[test]
fn profile_file_wins_over_base_file() {
    let mut profile = SettingsLayer::empty();
    profile.application_host = text("0.0.0.0");
    profile.database_require_ssl = Some(ConfigValue::Boolean(true));
    let s = resolve(&base_layer(), &profile, &SettingsLayer::empty()).unwrap();
    assert_eq!(s.application.host, "0.0.0.0");
    assert_eq!(s.application.port, 8000);
    assert!(s.database.require_ssl);
    assert_eq!(s.database.host, "localhost");
    assert_eq!(s.database.port, 5432);
    assert_eq!(s.database.database_name, "newsletter");
    assert_eq!(s.database.password.expose_secret(), "password");
}

#[test]
fn override_port_wins_over_files() {
    let mut profile = SettingsLayer::empty();
    profile.database_port = Some(ConfigValue::Integer(6000));
    let mut overrides = SettingsLayer::empty();
    overrides.database_port = text("6543");
    overrides.application_port = text("9090");
    let s = resolve(&base_layer(), &profile, &overrides).unwrap();
    assert_eq!(s.database.port, 6543);
    assert_eq!(s.application.port, 9090);
}

#[test]
fn missing_field_fails_resolution() {
    let mut base = base_layer();
    base.database_name = None;
    let r = resolve(&base, &SettingsLayer::empty(), &SettingsLayer::empty());
    assert_eq!(r.err(), Some(ConfigError::Missing(SettingsField::DatabaseName)));
}

#[test]
fn unreadable_override_fails_resolution() {
    let mut overrides = SettingsLayer::empty();
    overrides.database_port = text("abc");
    let r = resolve(&base_layer(), &SettingsLayer::empty(), &overrides);
    assert_eq!(r.err(), Some(ConfigError::Invalid(SettingsField::DatabasePort)));
    let mut overrides = SettingsLayer::empty();
    overrides.database_require_ssl = text("sometimes");
    let r = resolve(&base_layer(), &SettingsLayer::empty(), &overrides);
    assert_eq!(r.err(), Some(ConfigError::Invalid(SettingsField::DatabaseRequireSsl)));
}

#[test]
fn required_ssl_gives_mandatory_tls() {
    let o = settings_for(true).without_db();
    assert_eq!(o.ssl_mode, SslMode::Require);
    assert_eq!(o.database, None);
    assert_eq!(o.password, "hunter2secret");
    assert_eq!(o.host, "db.example.com");
    assert_eq!(o.port, 5432);
    assert!(!o.trace_statements);
}

#[test]
fn optional_ssl_gives_preferred_tls() {
    let o = settings_for(false).with_db();
    assert_eq!(o.ssl_mode, SslMode::Prefer);
    assert_eq!(o.database, Some("newsletter".to_string()));
    assert_eq!(o.username, "postgres");
    assert!(o.trace_statements);
}

#[test]
fn password_is_redacted_in_text() {
    let shown = settings_for(true).redacted_password();
    assert!(!shown.contains("hunter2secret"));
    assert!(shown.starts_with("Secret([REDACTED "));
}

#[test]
fn numeric_and_boolean_values_read_as_text() {
    let mut profile = SettingsLayer::empty();
    profile.database_password = Some(ConfigValue::Integer(1234));
    profile.database_name = Some(ConfigValue::Boolean(true));
    let s = resolve(&base_layer(), &profile, &SettingsLayer::empty()).unwrap();
    assert_eq!(s.database.password.expose_secret(), "1234");
    assert_eq!(s.database.database_name, "true");
}
