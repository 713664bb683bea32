use config::{File, FileFormat};
use hudwiz::server::config::{load_config, ConfigError, ServerConfig};

const COMPLETE_TOML: &str = r#"
[auth]
primary_provider = "mock"

[auth.providers.mock]
username = "testuser"
password_hash = "$argon2id$v=19$m=19456,t=2,p=1$c29tZXNhbHQ$abc"

[auth.sso_providers.google]
client_id = "g-id"
client_secret = "g-secret"
redirect_uri = "http://localhost:8080/api/auth/sso/callback/google"

[auth.sso_providers.microsoft]
client_id = "m-id"
client_secret = "m-secret"
redirect_uri = "http://localhost:8080/api/auth/sso/callback/microsoft"

[auth.sso_providers.apple]
client_id = "a-id"
client_secret = "a-secret"
redirect_uri = "http://localhost:8080/api/auth/sso/callback/apple"
"#;

fn missing(key: &str) -> ConfigError {
    ConfigError { key: key.to_string() }
}

/// Collects the settings that `text` holds and loads the configuration from
/// them.
fn load(text: &str, format: FileFormat) -> Result<ServerConfig, ConfigError> {
    let settings = config::Config::builder().add_source(File::from_str(text, format)).build().unwrap();
    load_config(&settings)
}

#[test]
fn complete_file_loads() {
    let config = load(COMPLETE_TOML, FileFormat::Toml).unwrap();
    assert_eq!(config.auth.primary_provider, "mock");
    assert_eq!(config.auth.providers.mock.username, "testuser");
    assert_eq!(
        config.auth.providers.mock.password_hash,
        "$argon2id$v=19$m=19456,t=2,p=1$c29tZXNhbHQ$abc"
    );
    let sso = &config.auth.sso_providers;
    assert_eq!(
        (sso.google.client_id.as_str(), sso.google.client_secret.as_str()),
        ("g-id", "g-secret")
    );
    assert_eq!(sso.google.redirect_uri, "http://localhost:8080/api/auth/sso/callback/google");
    assert_eq!(
        (sso.microsoft.client_id.as_str(), sso.microsoft.client_secret.as_str()),
        ("m-id", "m-secret")
    );
    assert_eq!(
        sso.microsoft.redirect_uri,
        "http://localhost:8080/api/auth/sso/callback/microsoft"
    );
    assert_eq!(
        (sso.apple.client_id.as_str(), sso.apple.client_secret.as_str()),
        ("a-id", "a-secret")
    );
    assert_eq!(sso.apple.redirect_uri, "http://localhost:8080/api/auth/sso/callback/apple");
}

#[test]
fn json_file_loads() {
    let provider = |name: &str| {
        format!(
            r#"{{"client_id": "{0}-id", "client_secret": "{0}-secret", "redirect_uri": "{0}-uri"}}"#,
            name
        )
    };
    let text = format!(
        r#"{{"auth": {{
            "primary_provider": "db",
            "providers": {{"mock": {{"username": "u", "password_hash": "h"}}}},
            "sso_providers": {{"google": {}, "microsoft": {}, "apple": {}}}
        }}}}"#,
        provider("g"),
        provider("m"),
        provider("a")
    );
    let config = load(&text, FileFormat::Json).unwrap();
    assert_eq!(config.auth.primary_provider, "db");
    assert_eq!(config.auth.providers.mock.username, "u");
    assert_eq!(config.auth.providers.mock.password_hash, "h");
    assert_eq!(config.auth.sso_providers.google.client_id, "g-id");
    assert_eq!(config.auth.sso_providers.microsoft.client_secret, "m-secret");
    assert_eq!(config.auth.sso_providers.apple.redirect_uri, "a-uri");
}

#[test]
fn settings_from_several_sources_load_as_one() {
    let without_google = COMPLETE_TOML
        .replace("client_id = \"g-id\"", "")
        .replace("client_secret = \"g-secret\"", "");
    let google = r#"{"auth": {"sso_providers": {"google": {"client_id": "late-id", "client_secret": "late-secret"}}}}"#;
    let settings = config::Config::builder()
        .add_source(File::from_str(&without_google, FileFormat::Toml))
        .add_source(File::from_str(google, FileFormat::Json))
        .build()
        .unwrap();
    let config = load_config(&settings).unwrap();
    assert_eq!(config.auth.sso_providers.google.client_id, "late-id");
    assert_eq!(config.auth.sso_providers.google.client_secret, "late-secret");
    assert_eq!(config.auth.primary_provider, "mock");
}

#[test]
fn empty_settings_lack_the_first_key() {
    assert_eq!(load_config(&config::Config::default()).unwrap_err(), missing("auth.primary_provider"));
}

#[test]
fn empty_file_lacks_the_first_key() {
    assert_eq!(load("", FileFormat::Toml).unwrap_err(), missing("auth.primary_provider"));
}

#[test]
fn first_missing_key_is_reported() {
    let without = |line: &str| COMPLETE_TOML.replace(line, "");
    assert_eq!(
        load(&without("primary_provider = \"mock\""), FileFormat::Toml).unwrap_err(),
        missing("auth.primary_provider")
    );
    assert_eq!(
        load(&without("username = \"testuser\""), FileFormat::Toml).unwrap_err(),
        missing("auth.providers.mock.username")
    );
    assert_eq!(
        load(&without("client_secret = \"m-secret\""), FileFormat::Toml).unwrap_err(),
        missing("auth.sso_providers.microsoft.client_secret")
    );
    assert_eq!(
        load(&without("client_id = \"a-id\""), FileFormat::Toml).unwrap_err(),
        missing("auth.sso_providers.apple.client_id")
    );
    let two_gone = without("client_secret = \"g-secret\"").replace("client_id = \"a-id\"", "");
    assert_eq!(
        load(&two_gone, FileFormat::Toml).unwrap_err(),
        missing("auth.sso_providers.google.client_secret")
    );
}

#[test]
fn numbers_and_booleans_are_read_as_text() {
    let text = COMPLETE_TOML
        .replace("client_id = \"g-id\"", "client_id = 12345")
        .replace("client_secret = \"g-secret\"", "client_secret = true");
    let config = load(&text, FileFormat::Toml).unwrap();
    assert_eq!(config.auth.sso_providers.google.client_id, "12345");
    assert_eq!(config.auth.sso_providers.google.client_secret, "true");
}

#[test]
fn table_where_text_is_needed_counts_as_missing() {
    let text = COMPLETE_TOML.replace("primary_provider = \"mock\"", "primary_provider = { a = 1 }");
    assert_eq!(
        load(&text, FileFormat::Toml).unwrap_err(),
        missing("auth.primary_provider")
    );
}
