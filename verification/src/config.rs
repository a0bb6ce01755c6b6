//! Setting up the client: from a DSN and a configuration to the settings that
//! the client is started with.

use crate::scope::LogLevel;
use sentry::types::{Dsn, ParseDsnError};
use std::borrow::Cow;
use vstd::prelude::*;

verus! {

/// `sentry::types::Dsn`, the credential of the backend in its parsed form. It
/// is carried as it is; nothing is known of what is inside one.
#[verifier::external_type_specification]
#[verifier::external_body]
pub struct ExDsn(sentry::types::Dsn);

/// `sentry::types::ParseDsnError`, which tells why a text is no DSN. Nothing
/// is known of what is inside one.
#[verifier::external_type_specification]
#[verifier::external_body]
pub struct ExParseDsnError(sentry::types::ParseDsnError);

/// The DSN that `IntoDsn::into_dsn` reads from a text that is not empty, and
/// `None` where it reports an error instead.
pub uninterp spec fn dsn_parse(text: Seq<char>) -> Option<Dsn>;

/// Calls `IntoDsn::into_dsn` on a string slice. Trusted: the empty text, and
/// no other, gives no DSN and no error; for any other text the outcome is the
/// one that [`dsn_parse`] names.
#[verifier::external_body]
pub(crate) fn read_dsn(text: &str) -> (r: Result<Option<Dsn>, ParseDsnError>)
    ensures
        r matches Ok(Some(dsn)) ==> text@.len() > 0 && dsn_parse(text@) == Some(dsn),
        r matches Ok(None) ==> text@.len() == 0,
        r is Err ==> text@.len() > 0 && dsn_parse(text@) is None,
{
    sentry::IntoDsn::into_dsn(text)
}

/// How the client is set up: the name of the service, the release and the
/// environment that the server runs in.
#[derive(Debug)]
pub struct InitConfig {
    pub service: Option<&'static str>,
    pub release: Option<Cow<'static, str>>,
    pub environment: &'static str,
}

/// The configuration that is taken where none is given: no service name, no
/// release, and the environment `development`.
pub open spec fn default_config() -> InitConfig {
    InitConfig { service: None, release: None, environment: "development" }
}

impl Default for InitConfig {
    fn default() -> (config: Self)
        ensures
            config == default_config(),
    {
        InitConfig { service: None, release: None, environment: "development" }
    }
}

/// What the client is started with.
#[derive(Debug)]
pub struct ClientSettings {
    /// The credential of the backend.
    pub dsn: Dsn,
    pub send_default_pii: bool,
    pub attach_stacktrace: bool,
    pub release: Option<Cow<'static, str>>,
    pub environment: Option<Cow<'static, str>>,
    /// The name that every event is tagged with.
    pub service: String,
}

/// Why no client can be started.
#[derive(Clone, Copy, Debug, PartialEq, Eq, Structural)]
pub enum InitError {
    /// The DSN is the empty text.
    MissingDsn,
    /// The DSN is no valid one.
    InvalidDsn,
}

impl InitError {
    /// The error in words.
    pub fn message(self) -> (r: &'static str)
        ensures
            r@ == match self {
                InitError::MissingDsn => "Could not initialize sentry"@,
                InitError::InvalidDsn => "invalid value for DSN"@,
            },
    {
        match self {
            InitError::MissingDsn => "Could not initialize sentry",
            InitError::InvalidDsn => "invalid value for DSN",
        }
    }
}

/// What is done to an event just before it is sent.
#[derive(Debug)]
pub struct Amendment {
    /// Whether the event keeps its stack trace.
    pub keep_stacktrace: bool,
    /// The key of the tag that the event is given.
    pub tag_key: String,
    /// The value of the tag that the event is given.
    pub tag_value: String,
}

/// The settings are those that the configuration asks for: its release and
/// its environment, its service name or else `unknown`, and personal data and
/// stack traces switched on.
pub open spec fn settings_follow(settings: ClientSettings, config: InitConfig) -> bool {
    &&& settings.send_default_pii
    &&& settings.attach_stacktrace
    &&& settings.release == config.release
    &&& settings.environment matches Some(environment) && environment@ == config.environment@
    &&& settings.service@ == match config.service {
        Some(name) => name@,
        None => "unknown"@,
    }
}

/// The settings are those that the configuration asks for, or those that the
/// default configuration asks for where none is given.
pub open spec fn settings_follow_or_default(settings: ClientSettings, config: Option<InitConfig>) -> bool {
    match config {
        Some(config) => settings_follow(settings, config),
        None => settings_follow(settings, default_config()),
    }
}

/// Works out the settings from a DSN that has been read. No DSN and a DSN in
/// error are refused.
pub fn configure(dsn: Result<Option<Dsn>, ParseDsnError>, config: Option<InitConfig>) -> (r: Result<
    ClientSettings,
    InitError,
>)
    ensures
        match r {
            Ok(settings) => dsn == Ok::<Option<Dsn>, ParseDsnError>(Some(settings.dsn))
                && settings_follow_or_default(settings, config),
            Err(InitError::MissingDsn) => dsn == Ok::<Option<Dsn>, ParseDsnError>(None),
            Err(InitError::InvalidDsn) => dsn is Err,
        },
{
    let dsn = match dsn {
        Ok(Some(dsn)) => dsn,
        Ok(None) => {
            return Err(InitError::MissingDsn);
        },
        Err(_) => {
            return Err(InitError::InvalidDsn);
        },
    };
    let config = match config {
        Some(config) => config,
        None => InitConfig::default(),
    };
    let service = match config.service {
        Some(name) => name,
        None => "unknown",
    };
    Ok(
        ClientSettings {
            dsn,
            send_default_pii: true,
            attach_stacktrace: true,
            release: config.release,
            environment: Some(Cow::Borrowed(config.environment)),
            service: service.to_owned(),
        },
    )
}

/// Works out the settings that the client is started with. Without a
/// configuration, the default one is taken. The empty DSN is refused as
/// missing, and any other text that is no DSN as invalid.
pub fn init(dsn: String, config: Option<InitConfig>) -> (r: Result<ClientSettings, InitError>)
    ensures
        match r {
            Ok(settings) => dsn@.len() > 0 && dsn_parse(dsn@) == Some(settings.dsn)
                && settings_follow_or_default(settings, config),
            Err(InitError::MissingDsn) => dsn@.len() == 0,
            Err(InitError::InvalidDsn) => dsn@.len() > 0 && dsn_parse(dsn@) is None,
        },
{
    configure(read_dsn(dsn.as_str()), config)
}

impl ClientSettings {
    /// Says what is done to an event of the given level before it is sent:
    /// only a fatal event keeps its stack trace, and every event is tagged
    /// with the name of the service.
    pub fn before_send(&self, level: LogLevel) -> (amendment: Amendment)
        ensures
            amendment.keep_stacktrace == (level == LogLevel::Fatal),
            amendment.tag_key@ == "Service"@,
            amendment.tag_value@ == self.service@,
    {
        let keep_stacktrace = match level {
            LogLevel::Fatal => true,
            _ => false,
        };
        Amendment { keep_stacktrace, tag_key: "Service".to_owned(), tag_value: self.service.clone() }
    }
}

} // verus!
