//! The settings of one run of the proxy, and how they come about.

use crate::args::{text_of, Args, ArgsView};
use crate::error::Errors;
use crate::logutil::{level_named, parse_level, LogLevel};
use crate::text::{decimal, push_decimal};
use vstd::prelude::*;
use vstd::string::*;

verus! {

/// The resolved settings. Built once at start-up and only read afterwards.
#[derive(Clone, Debug, PartialEq, Eq)]
pub struct Config {
    /// Host name of the edge endpoint; the TLS certificate must be valid for it.
    pub cfhost: String,
    /// IP address at which the edge endpoint is reached.
    pub cfip: String,
    /// Token that authenticates this proxy to the edge.
    pub token: String,
    /// Address on which clients are accepted.
    pub host: String,
    /// Port on which clients are accepted.
    pub port: u16,
    /// User name that clients must present; empty for none.
    pub user: String,
    /// Password that clients must present; empty for none.
    pub passwd: String,
    /// File that receives the log; empty for standard output.
    pub log: String,
    /// Name of the log level.
    pub loglevel: String,
}

/// What a [`Config`] holds, as sequences.
pub struct ConfigView {
    pub cfhost: Seq<char>,
    pub cfip: Seq<char>,
    pub token: Seq<char>,
    pub host: Seq<char>,
    pub port: u16,
    pub user: Seq<char>,
    pub passwd: Seq<char>,
    pub log: Seq<char>,
    pub loglevel: Seq<char>,
}

impl View for Config {
    type V = ConfigView;

    open spec fn view(&self) -> ConfigView {
        ConfigView {
            cfhost: self.cfhost@,
            cfip: self.cfip@,
            token: self.token@,
            host: self.host@,
            port: self.port,
            user: self.user@,
            passwd: self.passwd@,
            log: self.log@,
            loglevel: self.loglevel@,
        }
    }
}

/// The settings where nothing is configured: the edge at 104.16.0.0, clients
/// accepted on 127.0.0.1 port 4514, the log at level `info` on standard
/// output, everything else empty.
pub open spec fn default_settings() -> ConfigView {
    ConfigView {
        cfhost: Seq::empty(),
        cfip: "104.16.0.0"@,
        token: Seq::empty(),
        host: "127.0.0.1"@,
        port: 4514,
        user: Seq::empty(),
        passwd: Seq::empty(),
        log: Seq::empty(),
        loglevel: "info"@,
    }
}

/// `over` where it is set, else `base`.
pub open spec fn prefer<T>(over: Option<T>, base: T) -> T {
    match over {
        Some(value) => value,
        None => base,
    }
}

/// The settings of `base` with every option that the command line sets put
/// in place of the setting of the same name.
pub open spec fn merged(args: ArgsView, base: ConfigView) -> ConfigView {
    ConfigView {
        cfhost: prefer(args.cfhost, base.cfhost),
        cfip: prefer(args.cfip, base.cfip),
        token: prefer(args.token, base.token),
        host: prefer(args.host, base.host),
        port: prefer(args.port, base.port),
        user: prefer(args.user, base.user),
        passwd: prefer(args.passwd, base.passwd),
        log: prefer(args.log, base.log),
        loglevel: prefer(args.loglevel, base.loglevel),
    }
}

/// The settings of a configuration file, if one was read.
pub open spec fn settings_of(file: Option<Config>) -> Option<ConfigView> {
    match file {
        Some(config) => Some(config@),
        None => None,
    }
}

/// The settings that the command line and the configuration file, if one was
/// read, resolve to.
pub open spec fn resolved(args: ArgsView, file: Option<ConfigView>) -> ConfigView {
    merged(args, prefer(file, default_settings()))
}

/// The text of the error for settings without an edge host name.
pub open spec fn missing_cfhost() -> Seq<char> {
    "Missing the required config 'cfhost'!"@
}

impl Default for Config {
    fn default() -> (config: Config)
        ensures
            config@ == default_settings(),
    {
        Config {
            cfhost: String::new(),
            cfip: String::from_str("104.16.0.0"),
            token: String::new(),
            host: String::from_str("127.0.0.1"),
            port: 4514,
            user: String::new(),
            passwd: String::new(),
            log: String::new(),
            loglevel: String::from_str("info"),
        }
    }
}

/// `over` where it is set, else `base`.
fn prefer_text(over: &Option<String>, base: String) -> (text: String)
    ensures
        text@ == prefer(text_of(*over), base@),
{
    match over {
        Some(value) => value.clone(),
        None => base,
    }
}

impl Config {
    /// Whether a user name or a password is set.
    pub open spec fn credentials_set(&self) -> bool {
        self.user@.len() > 0 || self.passwd@.len() > 0
    }

    /// Whether a user name or a password is set.
    pub fn has_credentials(&self) -> (r: bool)
        ensures
            r == self.credentials_set(),
    {
        !self.user.as_str().is_empty() || !self.passwd.as_str().is_empty()
    }

    /// The level at which to log: the one that `loglevel` names, in any
    /// letter case, else `Info`.
    pub fn get_loglevel(&self) -> (level: LogLevel)
        ensures
            level == prefer(level_named(self.loglevel@), LogLevel::Info),
    {
        match parse_level(self.loglevel.as_str()) {
            Some(level) => level,
            None => LogLevel::Info,
        }
    }

    /// Resolves the settings from the command line and from the configuration
    /// file, where one was read: the file's settings, or the defaults without
    /// a file, each overridden by the option of the same name.
    ///
    /// Fails exactly when the resolved edge host name is empty.
    pub fn load(args: &Args, file: Option<Config>) -> (r: Result<Config, Errors>)
        ensures
            match r {
                Ok(config) => {
                    &&& config@ == resolved(args@, settings_of(file))
                    &&& config@.cfhost.len() > 0
                },
                Err(error) => {
                    &&& resolved(args@, settings_of(file)).cfhost.len() == 0
                    &&& error matches Errors::ConfigError(text) && text@ == missing_cfhost()
                },
            },
    {
        let base = match file {
            Some(config) => config,
            None => Config::default(),
        };
        let config = Config {
            cfhost: prefer_text(&args.cfhost, base.cfhost),
            cfip: prefer_text(&args.cfip, base.cfip),
            token: prefer_text(&args.token, base.token),
            host: prefer_text(&args.host, base.host),
            port: match args.port {
                Some(port) => port,
                None => base.port,
            },
            user: prefer_text(&args.user, base.user),
            passwd: prefer_text(&args.passwd, base.passwd),
            log: prefer_text(&args.log, base.log),
            loglevel: prefer_text(&args.loglevel, base.loglevel),
        };
        if config.cfhost.as_str().is_empty() {
            Err(Errors::ConfigError(String::from_str("Missing the required config 'cfhost'!")))
        } else {
            Ok(config)
        }
    }

    /// The address on which to accept clients: the host, a colon, the port.
    pub fn listen_addr(&self) -> (addr: String)
        ensures
            addr@ == self.host@ + ":"@ + decimal(self.port as nat),
    {
        let mut addr = self.host.clone();
        addr.append(":");
        push_decimal(&mut addr, self.port);
        addr
    }
}

} // verus!
