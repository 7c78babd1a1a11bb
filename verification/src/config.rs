//! The configuration of one authentication attempt, resolved from directives.

use vstd::prelude::*;
use vstd::string::*;
use crate::directive::{lookup, spec_lookup};
use crate::error::AuthError;

verus! {

/// Validated configuration of one attempt. It is built anew from the
/// directives of each attempt and cannot be changed once it is built.
#[derive(Clone, Debug, PartialEq, Eq)]
pub struct Config {
    service: String,
    auth_key: String,
    host: String,
    no_2fa_user: String,
    debug: bool,
}

/// Mathematical model of a [`Config`].
pub struct ConfigView {
    /// Identifies the protected service to the remote validator.
    pub service: Seq<char>,
    /// Shared credential that authorizes the query.
    pub auth_key: Seq<char>,
    /// Network address of the remote validator.
    pub host: Seq<char>,
    /// User exempt from the check; empty where no exemption is configured.
    pub no_2fa_user: Seq<char>,
    /// Whether diagnostic messages are emitted.
    pub debug: bool,
}

impl View for Config {
    type V = ConfigView;

    closed spec fn view(&self) -> ConfigView {
        ConfigView {
            service: self.service@,
            auth_key: self.auth_key@,
            host: self.host@,
            no_2fa_user: self.no_2fa_user@,
            debug: self.debug,
        }
    }
}

impl Config {
    /// Builds a configuration from its five values.
    pub fn new(
        service: String,
        auth_key: String,
        host: String,
        no_2fa_user: String,
        debug: bool,
    ) -> (config: Config)
        ensures
            config@ == (ConfigView {
                service: service@,
                auth_key: auth_key@,
                host: host@,
                no_2fa_user: no_2fa_user@,
                debug,
            }),
    {
        Config { service, auth_key, host, no_2fa_user, debug }
    }

    /// Identifies the protected service to the remote validator.
    pub fn service(&self) -> (service: &str)
        ensures
            service@ == self@.service,
    {
        self.service.as_str()
    }

    /// Shared credential that authorizes the query.
    pub fn auth_key(&self) -> (auth_key: &str)
        ensures
            auth_key@ == self@.auth_key,
    {
        self.auth_key.as_str()
    }

    /// Network address of the remote validator.
    pub fn host(&self) -> (host: &str)
        ensures
            host@ == self@.host,
    {
        self.host.as_str()
    }

    /// User exempt from the check; empty where no exemption is configured.
    pub fn no_2fa_user(&self) -> (user: &str)
        ensures
            user@ == self@.no_2fa_user,
    {
        self.no_2fa_user.as_str()
    }

    /// Whether diagnostic messages are emitted.
    pub fn debug(&self) -> (debug: bool)
        ensures
            debug == self@.debug,
    {
        self.debug
    }
}

/// The boolean that a literal stands for: `true` or `false`, nothing else.
pub open spec fn spec_parse_bool(text: Seq<char>) -> Option<bool> {
    if text == "true"@ {
        Some(true)
    } else if text == "false"@ {
        Some(false)
    } else {
        None
    }
}

/// Reads a boolean literal.
pub fn parse_bool(text: &str) -> (parsed: Option<bool>)
    ensures
        parsed == spec_parse_bool(text@),
{
    let given = text.to_owned();
    if given == "true".to_owned() {
        Some(true)
    } else if given == "false".to_owned() {
        Some(false)
    } else {
        None
    }
}

/// What the `debug` directive resolves to: `false` where it is absent, its
/// literal where that can be read, nothing where it cannot.
pub open spec fn spec_debug(args: Seq<Seq<char>>) -> Option<bool> {
    match spec_lookup(args, "debug"@) {
        None => Some(false),
        Some(text) => spec_parse_bool(text),
    }
}

/// One of the required directives is absent.
pub open spec fn missing_required(args: Seq<Seq<char>>) -> bool {
    ||| spec_lookup(args, "service"@) is None
    ||| spec_lookup(args, "auth_key"@) is None
    ||| spec_lookup(args, "host"@) is None
}

/// The configuration that the directives resolve to, or why they do not.
pub open spec fn spec_resolve(args: Seq<Seq<char>>) -> Result<ConfigView, AuthError> {
    if spec_debug(args) is None {
        Err(AuthError::InvalidConfigurationValue)
    } else if missing_required(args) {
        Err(AuthError::MissingConfiguration)
    } else {
        Ok(
            ConfigView {
                service: spec_lookup(args, "service"@)->0,
                auth_key: spec_lookup(args, "auth_key"@)->0,
                host: spec_lookup(args, "host"@)->0,
                no_2fa_user: match spec_lookup(args, "no_2fa_user"@) {
                    Some(user) => user,
                    None => Seq::empty(),
                },
                debug: spec_debug(args)->0,
            },
        )
    }
}

/// Resolves the directives of one attempt into its configuration.
///
/// An unreadable `debug` literal is reported first, then a missing required
/// directive; `no_2fa_user` and `debug` fall back to their defaults.
pub fn resolve(args: &Vec<String>) -> (resolved: Result<Config, AuthError>)
    ensures
        match resolved {
            Ok(config) => spec_resolve(args.deep_view()) == Ok::<ConfigView, AuthError>(config@),
            Err(error) => spec_resolve(args.deep_view()) == Err::<ConfigView, AuthError>(error),
        },
{
    let debug = match lookup(args, "debug") {
        None => false,
        Some(text) => match parse_bool(text.as_str()) {
            Some(flag) => flag,
            None => return Err(AuthError::InvalidConfigurationValue),
        },
    };
    let service = match lookup(args, "service") {
        Some(service) => service,
        None => return Err(AuthError::MissingConfiguration),
    };
    let auth_key = match lookup(args, "auth_key") {
        Some(auth_key) => auth_key,
        None => return Err(AuthError::MissingConfiguration),
    };
    let host = match lookup(args, "host") {
        Some(host) => host,
        None => return Err(AuthError::MissingConfiguration),
    };
    let no_2fa_user = match lookup(args, "no_2fa_user") {
        Some(user) => user,
        None => String::new(),
    };
    Ok(Config::new(service, auth_key, host, no_2fa_user, debug))
}

} // verus!
