//! Decision logic of a SOCKS5 front end that tunnels client connections to an
//! edge endpoint over a websocket.
//!
//! Nothing here touches a socket. Each function takes what was read and says
//! what to write, what to read next, or how the connection ends; the program
//! around it does the reading and writing.
//!
//! - [`socks5`]: method negotiation, the credential exchange and the CONNECT
//!   request, as steps over the bytes read so far.
//! - [`address`]: the target of a request and its text.
//! - [`tunnel`]: where to connect for a target, and the upgrade request.
//! - [`proxy`]: what the two pumps of an open connection do with each read.
//! - [`configutil`], [`args`], [`logutil`]: the settings and how they resolve.
//! - [`text`]: numbers and names as text.
//! - [`error`]: the failures.
//!
//! Everything is proved against its contract but for two functions that are
//! taken on trust, each a single call: `text::decode_lossy`, which is
//! `String::from_utf8_lossy` of std, and `logutil::parse_level`, which is
//! `LevelFilter::from_str` of the log crate.

pub mod address;
pub mod args;
pub mod configutil;
pub mod error;
pub mod logutil;
pub mod proxy;
pub mod socks5;
pub mod text;
pub mod tunnel;
