//! Configuration of the client: where to register, as whom, and on which
//! local port RTP is received.
//!
//! A configuration comes from a file and may be overridden, value by
//! value, from the environment. Before it is used its ports are checked:
//! both must lie between 1 and 65535.

use crate::sip::opt_text;
use crate::text::{chars_of, decimal_text, parse_u16, parsed_u16, push_decimal};
use vstd::prelude::*;
use vstd::string::*;

verus! {

/// Environment variable that overrides the server host.
pub const ENV_HOST: &'static str = "EVENTPHONE_HOST";

/// Environment variable that overrides the user name.
pub const ENV_USER: &'static str = "EVENTPHONE_USER";

/// Environment variable that overrides the password.
pub const ENV_PASS: &'static str = "EVENTPHONE_PASS";

/// Environment variable that overrides the extension.
pub const ENV_EXTENSION: &'static str = "EVENTPHONE_EXTENSION";

/// Environment variable that overrides the local RTP port.
pub const ENV_RTP_PORT: &'static str = "EVENTPHONE_RTP_PORT";

/// The SIP account and registrar.
#[derive(Debug, Clone)]
pub struct SipConfig {
    pub server: String,
    pub port: u16,
    pub username: String,
    pub password: String,
    pub extension: String,
}

/// The local RTP settings.
#[derive(Debug, Clone)]
pub struct RtpConfig {
    pub local_port: u16,
}

/// The whole configuration.
#[derive(Debug, Clone)]
pub struct Config {
    pub sip: SipConfig,
    pub rtp: RtpConfig,
}

/// Mathematical value of a [`Config`].
pub struct ConfigView {
    pub server: Seq<char>,
    pub sip_port: u16,
    pub username: Seq<char>,
    pub password: Seq<char>,
    pub extension: Seq<char>,
    pub rtp_port: u16,
}

impl View for Config {
    type V = ConfigView;

    open spec fn view(&self) -> ConfigView {
        ConfigView {
            server: self.sip.server@,
            sip_port: self.sip.port,
            username: self.sip.username@,
            password: self.sip.password@,
            extension: self.sip.extension@,
            rtp_port: self.rtp.local_port,
        }
    }
}

/// Values found in the environment. Each one that is present replaces the
/// value of the same name in the configuration.
#[derive(Debug)]
pub struct Overrides {
    pub host: Option<String>,
    pub user: Option<String>,
    pub pass: Option<String>,
    pub extension: Option<String>,
    /// The local RTP port as text; it counts only if it reads as a number.
    pub rtp_port: Option<String>,
}

/// Mathematical value of an [`Overrides`].
pub struct OverridesView {
    pub host: Option<Seq<char>>,
    pub user: Option<Seq<char>>,
    pub pass: Option<Seq<char>>,
    pub extension: Option<Seq<char>>,
    pub rtp_port: Option<Seq<char>>,
}

impl View for Overrides {
    type V = OverridesView;

    open spec fn view(&self) -> OverridesView {
        OverridesView {
            host: opt_text(self.host),
            user: opt_text(self.user),
            pass: opt_text(self.pass),
            extension: opt_text(self.extension),
            rtp_port: opt_text(self.rtp_port),
        }
    }
}

/// Why a configuration is refused.
#[derive(Debug, Clone, Copy, PartialEq, Eq)]
pub enum ConfigError {
    /// The SIP port is not between 1 and 65535.
    SipPortOutOfRange(u16),
    /// The local RTP port is not between 1 and 65535.
    RtpPortOutOfRange(u16),
}

/// `replacement` where there is one, else `current`.
pub open spec fn replaced(current: Seq<char>, replacement: Option<Seq<char>>) -> Seq<char> {
    match replacement {
        Some(text) => text,
        None => current,
    }
}

/// The port that an override names, or `current` where there is no
/// override or it does not read as a 16-bit number.
pub open spec fn replaced_port(current: u16, replacement: Option<Seq<char>>) -> u16 {
    match replacement {
        Some(text) => match parsed_u16(text) {
            Some(port) => port,
            None => current,
        },
        None => current,
    }
}

/// A configuration with the overrides applied.
pub open spec fn overridden(cfg: ConfigView, env: OverridesView) -> ConfigView {
    ConfigView {
        server: replaced(cfg.server, env.host),
        sip_port: cfg.sip_port,
        username: replaced(cfg.username, env.user),
        password: replaced(cfg.password, env.pass),
        extension: replaced(cfg.extension, env.extension),
        rtp_port: replaced_port(cfg.rtp_port, env.rtp_port),
    }
}

/// Whether a port number can be used: every value but zero.
pub open spec fn port_in_range(port: u16) -> bool {
    1 <= port <= 65535
}

/// The verdict on a configuration. The SIP port is checked first.
pub open spec fn checked(cfg: ConfigView) -> Result<(), ConfigError> {
    if !port_in_range(cfg.sip_port) {
        Err(ConfigError::SipPortOutOfRange(cfg.sip_port))
    } else if !port_in_range(cfg.rtp_port) {
        Err(ConfigError::RtpPortOutOfRange(cfg.rtp_port))
    } else {
        Ok(())
    }
}

fn replace(current: String, replacement: Option<String>) -> (r: String)
    ensures
        r@ == replaced(current@, opt_text(replacement)),
{
    match replacement {
        Some(text) => text,
        None => current,
    }
}

impl Config {
    /// Applies the overrides found in the environment.
    pub fn with_overrides(self, env: Overrides) -> (cfg: Config)
        ensures
            cfg@ == overridden(self@, env@),
    {
        let local_port = match &env.rtp_port {
            Some(text) => {
                let digits = chars_of(text.as_str());
                match parse_u16(digits.as_slice()) {
                    Some(port) => port,
                    None => self.rtp.local_port,
                }
            },
            None => self.rtp.local_port,
        };
        Config {
            sip: SipConfig {
                server: replace(self.sip.server, env.host),
                port: self.sip.port,
                username: replace(self.sip.username, env.user),
                password: replace(self.sip.password, env.pass),
                extension: replace(self.sip.extension, env.extension),
            },
            rtp: RtpConfig { local_port },
        }
    }

    /// Checks the port ranges.
    pub fn validate(&self) -> (r: Result<(), ConfigError>)
        ensures
            r == checked(self@),
    {
        if self.sip.port < 1 {
            Err(ConfigError::SipPortOutOfRange(self.sip.port))
        } else if self.rtp.local_port < 1 {
            Err(ConfigError::RtpPortOutOfRange(self.rtp.local_port))
        } else {
            Ok(())
        }
    }

    /// Applies the overrides, then checks the result: the configuration to
    /// use, or the reason why it is refused.
    pub fn resolve(self, env: Overrides) -> (r: Result<Config, ConfigError>)
        ensures
            match r {
                Ok(cfg) => cfg@ == overridden(self@, env@) && checked(cfg@).is_ok(),
                Err(e) => checked(overridden(self@, env@)) == Err::<(), ConfigError>(e),
            },
    {
        let cfg = self.with_overrides(env);
        match cfg.validate() {
            Ok(()) => Ok(cfg),
            Err(e) => Err(e),
        }
    }
}

/// The text that reports an error to the operator.
pub open spec fn error_text(e: ConfigError) -> Seq<char> {
    match e {
        ConfigError::SipPortOutOfRange(port) => "SIP port out of range: "@ + decimal_text(
            port as nat,
        ),
        ConfigError::RtpPortOutOfRange(port) => "RTP port out of range: "@ + decimal_text(
            port as nat,
        ),
    }
}

impl ConfigError {
    /// Describes the error.
    pub fn message(&self) -> (text: String)
        ensures
            text@ == error_text(*self),
    {
        let mut text = String::new();
        match self {
            ConfigError::SipPortOutOfRange(port) => {
                text.append("SIP port out of range: ");
                push_decimal(&mut text, *port as u32);
            },
            ConfigError::RtpPortOutOfRange(port) => {
                text.append("RTP port out of range: ");
                push_decimal(&mut text, *port as u32);
            },
        }
        text
    }
}

} // verus!
