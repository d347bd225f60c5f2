//! The settings given on the command line.

use vstd::prelude::*;

verus! {

/// What the command line set. Each option that is present overrides the
/// setting of the same name from the configuration file.
#[derive(Clone, Debug, PartialEq, Eq)]
pub struct Args {
    /// Path of the configuration file.
    pub config: Option<String>,
    /// Host name of the edge endpoint.
    pub cfhost: Option<String>,
    /// IP address of the edge endpoint.
    pub cfip: Option<String>,
    /// Token that authenticates this proxy to the edge.
    pub token: Option<String>,
    /// Address on which clients are accepted.
    pub host: Option<String>,
    /// Port on which clients are accepted.
    pub port: Option<u16>,
    /// User name that clients must present.
    pub user: Option<String>,
    /// Password that clients must present.
    pub passwd: Option<String>,
    /// File that receives the log.
    pub log: Option<String>,
    /// Name of the log level.
    pub loglevel: Option<String>,
}

/// The text of an optional string.
pub open spec fn text_of(value: Option<String>) -> Option<Seq<char>> {
    match value {
        Some(text) => Some(text@),
        None => None,
    }
}

/// What [`Args`] holds, as sequences.
pub struct ArgsView {
    pub config: Option<Seq<char>>,
    pub cfhost: Option<Seq<char>>,
    pub cfip: Option<Seq<char>>,
    pub token: Option<Seq<char>>,
    pub host: Option<Seq<char>>,
    pub port: Option<u16>,
    pub user: Option<Seq<char>>,
    pub passwd: Option<Seq<char>>,
    pub log: Option<Seq<char>>,
    pub loglevel: Option<Seq<char>>,
}

impl View for Args {
    type V = ArgsView;

    open spec fn view(&self) -> ArgsView {
        ArgsView {
            config: text_of(self.config),
            cfhost: text_of(self.cfhost),
            cfip: text_of(self.cfip),
            token: text_of(self.token),
            host: text_of(self.host),
            port: self.port,
            user: text_of(self.user),
            passwd: text_of(self.passwd),
            log: text_of(self.log),
            loglevel: text_of(self.loglevel),
        }
    }
}

} // verus!
