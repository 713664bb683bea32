//! The server's configuration: how the settings that were collected from the
//! configuration file become a typed [`ServerConfig`].
//!
//! Reading the file and collecting its settings is done outside this
//! library; what is read from the settings, in which order, and what a
//! missing setting means, is decided here.

use vstd::prelude::*;

verus! {

/// The server's configuration.
#[derive(Debug)]
pub struct ServerConfig {
    pub auth: AuthConfig,
}

/// How users are authenticated.
#[derive(Debug)]
pub struct AuthConfig {
    pub primary_provider: String,
    pub providers: Providers,
    pub sso_providers: SsoProviders,
}

/// The password providers.
#[derive(Debug)]
pub struct Providers {
    pub mock: MockProviderConfig,
}

/// The one user of the mock provider.
#[derive(Debug)]
pub struct MockProviderConfig {
    pub username: String,
    pub password_hash: String,
}

/// The single sign-on providers.
#[derive(Debug)]
pub struct SsoProviders {
    pub google: SsoProviderConfig,
    pub microsoft: SsoProviderConfig,
    pub apple: SsoProviderConfig,
}

/// The registration of this server with one single sign-on provider.
#[derive(Debug)]
pub struct SsoProviderConfig {
    pub client_id: String,
    pub client_secret: String,
    pub redirect_uri: String,
}

/// A setting that the configuration needs and the settings lack.
#[derive(Debug, PartialEq, Eq)]
pub struct ConfigError {
    /// The key of the setting.
    pub key: String,
}

/// [`SsoProviderConfig`] as a mathematical value.
pub struct SsoProviderConfigView {
    pub client_id: Seq<char>,
    pub client_secret: Seq<char>,
    pub redirect_uri: Seq<char>,
}

/// [`ServerConfig`] as a mathematical value.
pub struct ConfigView {
    pub primary_provider: Seq<char>,
    pub mock_username: Seq<char>,
    pub mock_password_hash: Seq<char>,
    pub google: SsoProviderConfigView,
    pub microsoft: SsoProviderConfigView,
    pub apple: SsoProviderConfigView,
}

impl View for SsoProviderConfig {
    type V = SsoProviderConfigView;

    open spec fn view(&self) -> SsoProviderConfigView {
        SsoProviderConfigView {
            client_id: self.client_id@,
            client_secret: self.client_secret@,
            redirect_uri: self.redirect_uri@,
        }
    }
}

impl View for ServerConfig {
    type V = ConfigView;

    open spec fn view(&self) -> ConfigView {
        ConfigView {
            primary_provider: self.auth.primary_provider@,
            mock_username: self.auth.providers.mock.username@,
            mock_password_hash: self.auth.providers.mock.password_hash@,
            google: self.auth.sso_providers.google@,
            microsoft: self.auth.sso_providers.microsoft@,
            apple: self.auth.sso_providers.apple@,
        }
    }
}

/// The settings that were collected from the configuration sources.
#[verifier::external_type_specification]
#[verifier::external_body]
pub struct ExSettings(config::Config);

/// What a collection of settings holds: under each key that leads to a value
/// with a text form, that text.
pub uninterp spec fn contents(settings: config::Config) -> Map<Seq<char>, Seq<char>>;

/// `config::Config::get_string`: the text of the setting under `key`, where
/// the settings hold one.
#[verifier::external_body]
fn get_string(source: &config::Config, key: &str) -> (value: Option<String>)
    ensures
        value is Some <==> contents(*source).contains_key(key@),
        value matches Some(v) ==> v@ == contents(*source)[key@],
{
    source.get_string(key).ok()
}

/// The keys that the configuration is read from, in the order in which they
/// are read.
pub open spec fn required_keys() -> Seq<Seq<char>> {
    seq![
        "auth.primary_provider"@,
        "auth.providers.mock.username"@,
        "auth.providers.mock.password_hash"@,
        "auth.sso_providers.google.client_id"@,
        "auth.sso_providers.google.client_secret"@,
        "auth.sso_providers.google.redirect_uri"@,
        "auth.sso_providers.microsoft.client_id"@,
        "auth.sso_providers.microsoft.client_secret"@,
        "auth.sso_providers.microsoft.redirect_uri"@,
        "auth.sso_providers.apple.client_id"@,
        "auth.sso_providers.apple.client_secret"@,
        "auth.sso_providers.apple.redirect_uri"@,
    ]
}

/// Whether `key` is the first of `keys` that `values` lacks.
pub open spec fn first_missing(values: Map<Seq<char>, Seq<char>>, keys: Seq<Seq<char>>, key: Seq<char>) -> bool {
    exists|i: int|
        0 <= i < keys.len() && #[trigger] keys[i] == key && !values.contains_key(key) && forall|
            j: int,
        |
            0 <= j < i ==> values.contains_key(#[trigger] keys[j])
}

/// The registration that `values` hold under the three keys.
pub open spec fn sso_provider_spec(
    values: Map<Seq<char>, Seq<char>>,
    client_id: Seq<char>,
    client_secret: Seq<char>,
    redirect_uri: Seq<char>,
) -> SsoProviderConfigView {
    SsoProviderConfigView {
        client_id: values[client_id],
        client_secret: values[client_secret],
        redirect_uri: values[redirect_uri],
    }
}

/// The configuration that `values` hold.
pub open spec fn config_spec(values: Map<Seq<char>, Seq<char>>) -> ConfigView {
    ConfigView {
        primary_provider: values["auth.primary_provider"@],
        mock_username: values["auth.providers.mock.username"@],
        mock_password_hash: values["auth.providers.mock.password_hash"@],
        google: sso_provider_spec(
            values,
            "auth.sso_providers.google.client_id"@,
            "auth.sso_providers.google.client_secret"@,
            "auth.sso_providers.google.redirect_uri"@,
        ),
        microsoft: sso_provider_spec(
            values,
            "auth.sso_providers.microsoft.client_id"@,
            "auth.sso_providers.microsoft.client_secret"@,
            "auth.sso_providers.microsoft.redirect_uri"@,
        ),
        apple: sso_provider_spec(
            values,
            "auth.sso_providers.apple.client_id"@,
            "auth.sso_providers.apple.client_secret"@,
            "auth.sso_providers.apple.redirect_uri"@,
        ),
    }
}

/// Whether `values` hold all that the configuration needs.
pub open spec fn complete(values: Map<Seq<char>, Seq<char>>) -> bool {
    forall|i: int| 0 <= i < required_keys().len() ==> values.contains_key(#[trigger] required_keys()[i])
}

/// The first key that `values` lack.
pub open spec fn first_missing_key(values: Map<Seq<char>, Seq<char>>) -> Seq<char> {
    choose|key: Seq<char>| first_missing(values, required_keys(), key)
}

/// What loading the configuration from `values` comes to: the configuration
/// when nothing is missing, else the first key that is.
pub open spec fn load_config_spec(values: Map<Seq<char>, Seq<char>>) -> Result<
    ConfigView,
    Seq<char>,
> {
    if complete(values) {
        Ok(config_spec(values))
    } else {
        Err(first_missing_key(values))
    }
}

/// When the key at `i` is missing and all before it are there, it is the
/// first missing key, and no other is.
proof fn lemma_first_missing(values: Map<Seq<char>, Seq<char>>, i: int)
    requires
        0 <= i < required_keys().len(),
        !values.contains_key(required_keys()[i]),
        forall|j: int| 0 <= j < i ==> values.contains_key(#[trigger] required_keys()[j]),
    ensures
        !complete(values),
        first_missing_key(values) == required_keys()[i],
{
    let keys = required_keys();
    assert(first_missing(values, keys, keys[i]));
    let key = first_missing_key(values);
    let k = choose|k: int|
        0 <= k < keys.len() && #[trigger] keys[k] == key && !values.contains_key(key) && forall|
            j: int,
        |
            0 <= j < k ==> values.contains_key(#[trigger] keys[j]);
    if k < i {
        assert(values.contains_key(keys[k]));
    } else if i < k {
        assert(values.contains_key(keys[i]));
    }
}

/// The keys of `required_keys`, in their order.
fn keys_to_read() -> (keys: Vec<&'static str>)
    ensures
        keys@.len() == required_keys().len(),
        forall|i: int| 0 <= i < keys@.len() ==> (#[trigger] keys@[i])@ == required_keys()[i],
{
    vec![
        "auth.primary_provider",
        "auth.providers.mock.username",
        "auth.providers.mock.password_hash",
        "auth.sso_providers.google.client_id",
        "auth.sso_providers.google.client_secret",
        "auth.sso_providers.google.redirect_uri",
        "auth.sso_providers.microsoft.client_id",
        "auth.sso_providers.microsoft.client_secret",
        "auth.sso_providers.microsoft.redirect_uri",
        "auth.sso_providers.apple.client_id",
        "auth.sso_providers.apple.client_secret",
        "auth.sso_providers.apple.redirect_uri",
    ]
}

/// Takes the last text off a list.
fn take_last(texts: &mut Vec<String>) -> (text: String)
    requires
        old(texts)@.len() > 0,
    ensures
        text == old(texts)@.last(),
        final(texts)@ == old(texts)@.drop_last(),
{
    texts.pop().unwrap()
}

/// Builds the configuration from the settings that were collected. Every key
/// of `required_keys` is read, in order; the first that the settings lack is
/// reported.
pub fn load_config(source: &config::Config) -> (loaded: Result<ServerConfig, ConfigError>)
    ensures
        loaded matches Ok(config) ==> Ok::<ConfigView, Seq<char>>(config@) == load_config_spec(
            contents(*source),
        ),
        loaded matches Err(e) ==> Err::<ConfigView, Seq<char>>(e.key@) == load_config_spec(
            contents(*source),
        ),
{
    let ghost values = contents(*source);
    let keys = keys_to_read();
    let mut texts: Vec<String> = Vec::new();
    let mut i: usize = 0;
    while i < keys.len()
        invariant
            i <= keys@.len() == required_keys().len(),
            values == contents(*source),
            forall|j: int| 0 <= j < keys@.len() ==> (#[trigger] keys@[j])@ == required_keys()[j],
            texts@.len() == i,
            forall|j: int|
                0 <= j < i ==> values.contains_key(#[trigger] required_keys()[j]) && texts@[j]@
                    == values[required_keys()[j]],
        decreases keys@.len() - i,
    {
        match get_string(source, keys[i]) {
            Some(text) => {
                texts.push(text);
            },
            None => {
                proof {
                    lemma_first_missing(values, i as int);
                }
                return Err(ConfigError { key: keys[i].to_owned() });
            },
        }
        i += 1;
    }
    assert(complete(values));
    let ghost read = texts@;
    let apple_uri = take_last(&mut texts);
    let apple_secret = take_last(&mut texts);
    let apple_id = take_last(&mut texts);
    let microsoft_uri = take_last(&mut texts);
    let microsoft_secret = take_last(&mut texts);
    let microsoft_id = take_last(&mut texts);
    let google_uri = take_last(&mut texts);
    let google_secret = take_last(&mut texts);
    let google_id = take_last(&mut texts);
    let password_hash = take_last(&mut texts);
    let username = take_last(&mut texts);
    let primary_provider = take_last(&mut texts);
    assert(primary_provider == read[0] && username == read[1] && password_hash == read[2]);
    assert(google_id == read[3] && google_secret == read[4] && google_uri == read[5]);
    assert(microsoft_id == read[6] && microsoft_secret == read[7] && microsoft_uri == read[8]);
    assert(apple_id == read[9] && apple_secret == read[10] && apple_uri == read[11]);
    Ok(
        ServerConfig {
            auth: AuthConfig {
                primary_provider,
                providers: Providers { mock: MockProviderConfig { username, password_hash } },
                sso_providers: SsoProviders {
                    google: SsoProviderConfig {
                        client_id: google_id,
                        client_secret: google_secret,
                        redirect_uri: google_uri,
                    },
                    microsoft: SsoProviderConfig {
                        client_id: microsoft_id,
                        client_secret: microsoft_secret,
                        redirect_uri: microsoft_uri,
                    },
                    apple: SsoProviderConfig {
                        client_id: apple_id,
                        client_secret: apple_secret,
                        redirect_uri: apple_uri,
                    },
                },
            },
        },
    )
}

} // verus!
