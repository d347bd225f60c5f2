//! The client side of a connection: method negotiation, the optional
//! credential exchange, and the CONNECT request.
//!
//! A connection passes through up to three stages. In each, the caller keeps
//! the bytes read so far in that stage and asks what to do next: read more,
//! reply and move on, reply and open the tunnel, or reply and close.

use crate::address::{Host, HostView, TargetAddress, TargetView};
use crate::configutil::Config;
use crate::error::{Errors, ProtocolError};
use crate::text::{decode_lossy, permissive_text};
use vstd::prelude::*;
use vstd::slice::slice_subrange;
use vstd::utf8::{encode_utf8, encode_utf8_decode_utf8, encode_utf8_valid_utf8};

verus! {

/// What the connection is waiting for.
#[derive(Clone, Copy, Debug, PartialEq, Eq, Structural)]
pub enum Stage {
    /// The greeting: version, method count, methods.
    Greeting,
    /// The user name and password, after the credential method was selected.
    Credentials,
    /// The request, once a method is settled.
    Request,
}

/// What to do next on a connection.
#[derive(Clone, Debug, PartialEq, Eq)]
pub enum Step {
    /// Read exactly this many further bytes, add them to the input of the
    /// stage, and ask again.
    Read(usize),
    /// Write the reply, then go on in the next stage with empty input.
    Advance { reply: Vec<u8>, stage: Stage },
    /// Write the reply, then open the tunnel to the target.
    Connect { reply: Vec<u8>, target: TargetAddress },
    /// Write the reply, which may be empty, then end the connection with the
    /// error.
    Close { reply: Vec<u8>, error: Errors },
}

/// What a [`Step`] holds, as sequences.
pub enum StepView {
    Read(nat),
    Advance { reply: Seq<u8>, stage: Stage },
    Connect { reply: Seq<u8>, target: TargetView },
    Close { reply: Seq<u8>, error: Errors },
}

impl View for Step {
    type V = StepView;

    open spec fn view(&self) -> StepView {
        match self {
            Step::Read(n) => StepView::Read(*n as nat),
            Step::Advance { reply, stage } => StepView::Advance { reply: reply@, stage: *stage },
            Step::Connect { reply, target } => StepView::Connect {
                reply: reply@,
                target: target@,
            },
            Step::Close { reply, error } => StepView::Close { reply: reply@, error: *error },
        }
    }
}

/// The protocol version in greetings, requests and replies.
pub const VERSION: u8 = 0x05;

/// The version of the credential exchange.
pub const AUTH_VERSION: u8 = 0x01;

/// The method "no authentication".
pub const METHOD_NONE: u8 = 0x00;

/// The method "user name and password".
pub const METHOD_CREDENTIALS: u8 = 0x02;

/// The method byte that refuses every offer.
pub const METHOD_REFUSED: u8 = 0xff;

/// The command CONNECT.
pub const COMMAND_CONNECT: u8 = 0x01;

/// The address type of four IPv4 octets.
pub const ADDRESS_IPV4: u8 = 0x01;

/// The address type of a domain name behind a length byte.
pub const ADDRESS_DOMAIN: u8 = 0x03;

/// The address type of sixteen IPv6 bytes.
pub const ADDRESS_IPV6: u8 = 0x04;

/// The reply to a CONNECT request that was understood: success, bound to
/// 0.0.0.0 port 0, whatever the tunnel ends up bound to.
pub open spec fn connect_reply() -> Seq<u8> {
    seq![0x05u8, 0x00u8, 0x00u8, 0x01u8, 0u8, 0u8, 0u8, 0u8, 0u8, 0u8]
}

/// The step that ends a connection over a protocol error.
pub open spec fn refuse(reply: Seq<u8>, error: ProtocolError) -> StepView {
    StepView::Close { reply, error: Errors::ProtocolError(error) }
}

/// The choice among the methods a client offers: credentials where they are
/// offered and configured, else no authentication where that is offered, else
/// none.
pub open spec fn select_method(credentials_set: bool, methods: Seq<u8>) -> StepView {
    if credentials_set && methods.contains(METHOD_CREDENTIALS) {
        StepView::Advance { reply: seq![VERSION, METHOD_CREDENTIALS], stage: Stage::Credentials }
    } else if methods.contains(METHOD_NONE) {
        StepView::Advance { reply: seq![VERSION, METHOD_NONE], stage: Stage::Request }
    } else {
        refuse(seq![VERSION, METHOD_REFUSED], ProtocolError::NoAcceptableAuth)
    }
}

/// The step in the greeting stage, given the bytes read in it so far.
///
/// Two bytes are read first, the version and the method count. A wrong
/// version is refused at once; else the methods are read and one is selected.
pub open spec fn greeting_step(credentials_set: bool, input: Seq<u8>) -> StepView {
    let len = input.len() as int;
    if len < 2 {
        StepView::Read((2 - len) as nat)
    } else if input[0] != VERSION {
        refuse(seq![VERSION, METHOD_REFUSED], ProtocolError::BadVersion)
    } else if len < 2 + input[1] {
        StepView::Read((2 + input[1] - len) as nat)
    } else {
        select_method(credentials_set, input.subrange(2, 2 + input[1]))
    }
}

/// The verdict on the credentials a client sent.
pub open spec fn check_credentials(
    user: Seq<char>,
    passwd: Seq<char>,
    sent_user: Seq<u8>,
    sent_passwd: Seq<u8>,
) -> StepView {
    if permissive_text(sent_user) == user && permissive_text(sent_passwd) == passwd {
        StepView::Advance { reply: seq![AUTH_VERSION, 0x00u8], stage: Stage::Request }
    } else {
        StepView::Close { reply: seq![AUTH_VERSION, 0x01u8], error: Errors::AuthError }
    }
}

/// The step in the credential stage, given the bytes read in it so far.
///
/// The bytes are read in five parts: the version, which must be 1; the length
/// of the user name; the user name; the length of the password; the password.
/// A wrong version closes the connection without a reply.
pub open spec fn credentials_step(user: Seq<char>, passwd: Seq<char>, input: Seq<u8>) -> StepView {
    let len = input.len() as int;
    if len < 1 {
        StepView::Read(1)
    } else if input[0] != AUTH_VERSION {
        refuse(Seq::empty(), ProtocolError::BadAuthVersion)
    } else if len < 2 {
        StepView::Read(1)
    } else {
        let user_end = 2 + input[1];
        if len < user_end {
            StepView::Read((user_end - len) as nat)
        } else if len < user_end + 1 {
            StepView::Read(1)
        } else {
            let passwd_end = user_end + 1 + input[user_end];
            if len < passwd_end {
                StepView::Read((passwd_end - len) as nat)
            } else {
                check_credentials(
                    user,
                    passwd,
                    input.subrange(2, user_end),
                    input.subrange(user_end + 1, passwd_end),
                )
            }
        }
    }
}

/// The port that follows an address ending at `end`: two bytes, big-endian.
pub open spec fn port_at(input: Seq<u8>, end: int) -> u16 {
    (input[end] as int * 256 + input[end + 1] as int) as u16
}

/// The step once the address type is known and the address ends at `end`:
/// read up to the end of the address, then the two bytes of the port, then
/// accept the request.
pub open spec fn address_step(input: Seq<u8>, end: int, host: HostView) -> StepView {
    let len = input.len() as int;
    if len < end {
        StepView::Read((end - len) as nat)
    } else if len < end + 2 {
        StepView::Read((end + 2 - len) as nat)
    } else {
        StepView::Connect {
            reply: connect_reply(),
            target: TargetView { host, port: port_at(input, end) },
        }
    }
}

/// The step in the request stage, given the bytes read in it so far.
///
/// Four bytes are read first: the version, the command, a reserved byte that
/// is ignored, and the address type. A wrong version, a command other than
/// CONNECT and an unknown address type close the connection without a reply,
/// in this order of precedence. Else the address and the port are read, and
/// the request is answered with [`connect_reply`].
pub open spec fn request_step(input: Seq<u8>) -> StepView {
    let len = input.len() as int;
    if len < 4 {
        StepView::Read((4 - len) as nat)
    } else if input[0] != VERSION {
        refuse(Seq::empty(), ProtocolError::BadRequest)
    } else if input[1] != COMMAND_CONNECT {
        refuse(Seq::empty(), ProtocolError::UnsupportedCommand)
    } else if input[3] == ADDRESS_IPV4 {
        address_step(input, 8, HostView::Ipv4(input.subrange(4, 8)))
    } else if input[3] == ADDRESS_IPV6 {
        address_step(input, 20, HostView::Ipv6(input.subrange(4, 20)))
    } else if input[3] == ADDRESS_DOMAIN {
        if len < 5 {
            StepView::Read(1)
        } else {
            let end = 5 + input[4];
            address_step(input, end, HostView::Domain(permissive_text(input.subrange(5, end))))
        }
    } else {
        refuse(Seq::empty(), ProtocolError::UnsupportedAddressType)
    }
}

/// The step of a connection in `stage`, given the settings and the bytes read
/// in that stage so far.
pub open spec fn client_step(config: &Config, stage: Stage, input: Seq<u8>) -> StepView {
    match stage {
        Stage::Greeting => greeting_step(config.credentials_set(), input),
        Stage::Credentials => credentials_step(config.user@, config.passwd@, input),
        Stage::Request => request_step(input),
    }
}

/// Whether `byte` occurs in `bytes` from `from` up to `to`.
fn offers(bytes: &[u8], from: usize, to: usize, byte: u8) -> (r: bool)
    requires
        from <= to <= bytes@.len(),
    ensures
        r == bytes@.subrange(from as int, to as int).contains(byte),
{
    let ghost part = bytes@.subrange(from as int, to as int);
    let mut i: usize = from;
    while i < to
        invariant
            from <= i <= to <= bytes@.len(),
            part == bytes@.subrange(from as int, to as int),
            forall|k: int| 0 <= k < i - from ==> part[k] != byte,
        decreases to - i,
    {
        if bytes[i] == byte {
            assert(part[i - from] == byte);
            return true;
        }
        i += 1;
    }
    false
}

/// The step that ends a connection over a protocol error.
fn refusal(reply: Vec<u8>, error: ProtocolError) -> (step: Step)
    ensures
        step@ == refuse(reply@, error),
{
    Step::Close { reply, error: Errors::ProtocolError(error) }
}

/// Decides the greeting stage: reads the version, the method count and the
/// methods, then selects a method.
///
/// The credential method is selected where the client offers it and a user
/// name or password is configured; else "no authentication" where the client
/// offers it, also when credentials are configured.
pub fn handshake(config: &Config, input: &[u8]) -> (step: Step)
    ensures
        step@ == greeting_step(config.credentials_set(), input@),
{
    let len: usize = input.len();
    if len < 2 {
        return Step::Read(2 - len);
    }
    if input[0] != VERSION {
        return refusal(vec![VERSION, METHOD_REFUSED], ProtocolError::BadVersion);
    }
    let end: usize = 2 + input[1] as usize;
    if len < end {
        return Step::Read(end - len);
    }
    if config.has_credentials() && offers(input, 2, end, METHOD_CREDENTIALS) {
        Step::Advance { reply: vec![VERSION, METHOD_CREDENTIALS], stage: Stage::Credentials }
    } else if offers(input, 2, end, METHOD_NONE) {
        Step::Advance { reply: vec![VERSION, METHOD_NONE], stage: Stage::Request }
    } else {
        refusal(vec![VERSION, METHOD_REFUSED], ProtocolError::NoAcceptableAuth)
    }
}

/// Decides the credential stage: reads the version, the user name and the
/// password, and compares both names, decoded permissively, with the
/// configured ones.
pub fn auth_user(config: &Config, input: &[u8]) -> (step: Step)
    ensures
        step@ == credentials_step(config.user@, config.passwd@, input@),
{
    let len: usize = input.len();
    if len < 1 {
        return Step::Read(1);
    }
    if input[0] != AUTH_VERSION {
        return refusal(Vec::new(), ProtocolError::BadAuthVersion);
    }
    if len < 2 {
        return Step::Read(1);
    }
    let user_end: usize = 2 + input[1] as usize;
    if len < user_end {
        return Step::Read(user_end - len);
    }
    if len < user_end + 1 {
        return Step::Read(1);
    }
    let passwd_end: usize = user_end + 1 + input[user_end] as usize;
    if len < passwd_end {
        return Step::Read(passwd_end - len);
    }
    let user = decode_lossy(slice_subrange(input, 2, user_end));
    let passwd = decode_lossy(slice_subrange(input, user_end + 1, passwd_end));
    if user == config.user && passwd == config.passwd {
        Step::Advance { reply: vec![AUTH_VERSION, 0x00], stage: Stage::Request }
    } else {
        Step::Close { reply: vec![AUTH_VERSION, 0x01], error: Errors::AuthError }
    }
}

/// Reads the rest of a request whose address ends at `end`.
fn finish_request(input: &[u8], end: usize, host: Host) -> (step: Step)
    requires
        end <= 260,
    ensures
        step@ == address_step(input@, end as int, host@),
{
    let len: usize = input.len();
    if len < end {
        return Step::Read(end - len);
    }
    if len < end + 2 {
        return Step::Read(end + 2 - len);
    }
    let port: u16 = (input[end] as u16) * 256 + (input[end + 1] as u16);
    Step::Connect {
        reply: vec![VERSION, 0x00, 0x00, 0x01, 0, 0, 0, 0, 0, 0],
        target: TargetAddress { host, port },
    }
}

/// Decides the request stage: reads the header, the address and the port of a
/// CONNECT request and answers it.
///
/// A request that is understood is always answered with the same ten bytes,
/// before the tunnel is opened and whether or not it will open. A request
/// that is not understood gets no reply.
pub fn parse_socks5(input: &[u8]) -> (step: Step)
    ensures
        step@ == request_step(input@),
{
    let len: usize = input.len();
    if len < 4 {
        return Step::Read(4 - len);
    }
    if input[0] != VERSION {
        return refusal(Vec::new(), ProtocolError::BadRequest);
    }
    if input[1] != COMMAND_CONNECT {
        return refusal(Vec::new(), ProtocolError::UnsupportedCommand);
    }
    let kind: u8 = input[3];
    if kind == ADDRESS_IPV4 {
        if len < 8 {
            return Step::Read(8 - len);
        }
        let octets = [input[4], input[5], input[6], input[7]];
        assert(octets@ =~= input@.subrange(4, 8));
        finish_request(input, 8, Host::Ipv4(octets))
    } else if kind == ADDRESS_IPV6 {
        if len < 20 {
            return Step::Read(20 - len);
        }
        let bytes = [
            input[4],
            input[5],
            input[6],
            input[7],
            input[8],
            input[9],
            input[10],
            input[11],
            input[12],
            input[13],
            input[14],
            input[15],
            input[16],
            input[17],
            input[18],
            input[19],
        ];
        assert(bytes@ =~= input@.subrange(4, 20));
        finish_request(input, 20, Host::Ipv6(bytes))
    } else if kind == ADDRESS_DOMAIN {
        if len < 5 {
            return Step::Read(1);
        }
        let end: usize = 5 + input[4] as usize;
        if len < end {
            return Step::Read(end - len);
        }
        let name = decode_lossy(slice_subrange(input, 5, end));
        finish_request(input, end, Host::Domain(name))
    } else {
        refusal(Vec::new(), ProtocolError::UnsupportedAddressType)
    }
}

/// Decides the next step of a client connection from its stage and the bytes
/// read in that stage so far.
///
/// A connection starts in [`Stage::Greeting`] with empty input. The caller
/// does what the step says and asks again, until the step is
/// [`Step::Connect`] or [`Step::Close`].
pub fn handle_client(config: &Config, stage: Stage, input: &[u8]) -> (step: Step)
    ensures
        step@ == client_step(config, stage, input@),
{
    match stage {
        Stage::Greeting => handshake(config, input),
        Stage::Credentials => auth_user(config, input),
        Stage::Request => parse_socks5(input),
    }
}

/// A greeting that offers `methods`.
pub open spec fn greeting(methods: Seq<u8>) -> Seq<u8>
    recommends
        methods.len() <= 255,
{
    seq![VERSION, methods.len() as u8] + methods
}

/// A credential message with the given user name and password.
pub open spec fn credentials_message(user: Seq<u8>, passwd: Seq<u8>) -> Seq<u8>
    recommends
        user.len() <= 255,
        passwd.len() <= 255,
{
    seq![AUTH_VERSION, user.len() as u8] + user + seq![passwd.len() as u8] + passwd
}

/// The wire form of a host: the address type, then four octets, or a length
/// byte and a name of up to 255 bytes, or sixteen bytes.
pub enum WireHost {
    Ipv4(Seq<u8>),
    Domain(Seq<u8>),
    Ipv6(Seq<u8>),
}

impl WireHost {
    /// Whether the host has the length its kind asks for.
    pub open spec fn valid(self) -> bool {
        match self {
            WireHost::Ipv4(octets) => octets.len() == 4,
            WireHost::Domain(name) => name.len() <= 255,
            WireHost::Ipv6(bytes) => bytes.len() == 16,
        }
    }

    /// The bytes that stand for the host in a request.
    pub open spec fn encoded(self) -> Seq<u8> {
        match self {
            WireHost::Ipv4(octets) => seq![ADDRESS_IPV4] + octets,
            WireHost::Domain(name) => seq![ADDRESS_DOMAIN, name.len() as u8] + name,
            WireHost::Ipv6(bytes) => seq![ADDRESS_IPV6] + bytes,
        }
    }

    /// The host that the request decoder makes of it.
    pub open spec fn decoded(self) -> HostView {
        match self {
            WireHost::Ipv4(octets) => HostView::Ipv4(octets),
            WireHost::Domain(name) => HostView::Domain(permissive_text(name)),
            WireHost::Ipv6(bytes) => HostView::Ipv6(bytes),
        }
    }
}

/// A request with the given command and reserved byte for a host and a port.
pub open spec fn request_message(command: u8, reserved: u8, host: WireHost, port: u16) -> Seq<u8> {
    seq![VERSION, command, reserved] + host.encoded() + seq![(port / 256) as u8, (port % 256) as u8]
}

/// A step that asks for bytes asks for at least one.
pub proof fn lemma_read_asks_for_bytes(config: Config, stage: Stage, input: Seq<u8>)
    ensures
        client_step(&config, stage, input) matches StepView::Read(n) ==> n >= 1,
{
}

/// A greeting that offers "no authentication" and nothing else is answered by
/// selecting that method, and the connection goes on to the request: no
/// credentials are read, whatever the settings hold.
pub proof fn lemma_only_no_auth_skips_credentials(config: Config, methods: Seq<u8>)
    requires
        1 <= methods.len() <= 255,
        forall|i: int| 0 <= i < methods.len() ==> methods[i] == METHOD_NONE,
    ensures
        client_step(&config, Stage::Greeting, greeting(methods)) == (StepView::Advance {
            reply: seq![VERSION, METHOD_NONE],
            stage: Stage::Request,
        }),
{
    let input = greeting(methods);
    let offered = input.subrange(2, 2 + input[1]);
    assert(offered =~= methods);
    assert(methods[0] == METHOD_NONE);
    assert(!methods.contains(METHOD_CREDENTIALS));
}

/// A credential message is read back as the user name and password it was
/// made of.
proof fn lemma_credentials_message_parts(user: Seq<u8>, passwd: Seq<u8>)
    requires
        user.len() <= 255,
        passwd.len() <= 255,
    ensures
        forall|name: Seq<char>, word: Seq<char>|
            #[trigger] credentials_step(name, word, credentials_message(user, passwd))
                == check_credentials(name, word, user, passwd),
{
    let input = credentials_message(user, passwd);
    let user_end = 2 + input[1];
    assert(user_end == 2 + user.len());
    assert(input[user_end] == passwd.len() as u8);
    let passwd_end = user_end + 1 + input[user_end];
    assert(passwd_end == input.len());
    assert(input.subrange(2, user_end) =~= user);
    assert(input.subrange(user_end + 1, passwd_end) =~= passwd);
}

/// Where a user name or password is configured and the greeting offers the
/// credential method, that method is selected. The credentials that follow
/// are answered with `01 00` and the connection goes on to the request if
/// both decode to the configured names; else they are answered with `01 01`
/// and the connection ends with [`Errors::AuthError`].
pub proof fn lemma_credentials_decide(
    config: Config,
    methods: Seq<u8>,
    user: Seq<u8>,
    passwd: Seq<u8>,
)
    requires
        config.credentials_set(),
        methods.len() <= 255,
        methods.contains(METHOD_CREDENTIALS),
        user.len() <= 255,
        passwd.len() <= 255,
    ensures
        client_step(&config, Stage::Greeting, greeting(methods)) == (StepView::Advance {
            reply: seq![VERSION, METHOD_CREDENTIALS],
            stage: Stage::Credentials,
        }),
        client_step(&config, Stage::Credentials, credentials_message(user, passwd)) == (
        if permissive_text(user) == config.user@ && permissive_text(passwd) == config.passwd@ {
            StepView::Advance { reply: seq![AUTH_VERSION, 0x00u8], stage: Stage::Request }
        } else {
            StepView::Close { reply: seq![AUTH_VERSION, 0x01u8], error: Errors::AuthError }
        }),
{
    let hello = greeting(methods);
    assert(hello.subrange(2, 2 + hello[1]) =~= methods);
    lemma_credentials_message_parts(user, passwd);
}

/// The credentials that are configured, sent in UTF-8, are accepted.
pub proof fn lemma_configured_credentials_are_accepted(config: Config)
    requires
        encode_utf8(config.user@).len() <= 255,
        encode_utf8(config.passwd@).len() <= 255,
    ensures
        client_step(
            &config,
            Stage::Credentials,
            credentials_message(encode_utf8(config.user@), encode_utf8(config.passwd@)),
        ) == (StepView::Advance { reply: seq![AUTH_VERSION, 0x00u8], stage: Stage::Request }),
{
    let user = encode_utf8(config.user@);
    let passwd = encode_utf8(config.passwd@);
    encode_utf8_valid_utf8(config.user@);
    encode_utf8_decode_utf8(config.user@);
    encode_utf8_valid_utf8(config.passwd@);
    encode_utf8_decode_utf8(config.passwd@);
    lemma_credentials_message_parts(user, passwd);
}

/// Credentials sent in UTF-8 that differ from the configured ones in the
/// user name or in the password are rejected.
pub proof fn lemma_other_credentials_are_rejected(
    config: Config,
    user: Seq<char>,
    passwd: Seq<char>,
)
    requires
        encode_utf8(user).len() <= 255,
        encode_utf8(passwd).len() <= 255,
        user != config.user@ || passwd != config.passwd@,
    ensures
        client_step(
            &config,
            Stage::Credentials,
            credentials_message(encode_utf8(user), encode_utf8(passwd)),
        ) == (StepView::Close { reply: seq![AUTH_VERSION, 0x01u8], error: Errors::AuthError }),
{
    encode_utf8_valid_utf8(user);
    encode_utf8_decode_utf8(user);
    encode_utf8_valid_utf8(passwd);
    encode_utf8_decode_utf8(passwd);
    lemma_credentials_message_parts(encode_utf8(user), encode_utf8(passwd));
}

/// A CONNECT request for any host and port is answered with
/// [`connect_reply`], and the target is the host and port that were sent. The
/// reply does not depend on the target, and is due before the tunnel is
/// opened.
pub proof fn lemma_connect_is_answered(config: Config, reserved: u8, host: WireHost, port: u16)
    requires
        host.valid(),
    ensures
        client_step(
            &config,
            Stage::Request,
            request_message(COMMAND_CONNECT, reserved, host, port),
        ) == (StepView::Connect {
            reply: connect_reply(),
            target: TargetView { host: host.decoded(), port },
        }),
{
    let input = request_message(COMMAND_CONNECT, reserved, host, port);
    let hi = (port / 256) as u8;
    let lo = (port % 256) as u8;
    assert(hi as int * 256 + lo as int == port as int);
    match host {
        WireHost::Ipv4(octets) => {
            assert(input.len() == 10);
            assert(input.subrange(4, 8) =~= octets);
            assert(input[8] == hi && input[9] == lo);
        },
        WireHost::Domain(name) => {
            let end = 5 + input[4];
            assert(end == 5 + name.len());
            assert(input.len() == end + 2);
            assert(input.subrange(5, end) =~= name);
            assert(input[end] == hi && input[end + 1] == lo);
        },
        WireHost::Ipv6(bytes) => {
            assert(input.len() == 22);
            assert(input.subrange(4, 20) =~= bytes);
            assert(input[20] == hi && input[21] == lo);
        },
    }
}

/// A domain name sent in UTF-8 is decoded to the name itself.
pub proof fn lemma_domain_name_is_kept(name: Seq<char>)
    ensures
        WireHost::Domain(encode_utf8(name)).decoded() == HostView::Domain(name),
{
    encode_utf8_valid_utf8(name);
    encode_utf8_decode_utf8(name);
}

/// Whenever the tunnel is to be opened, the reply that goes out first is
/// [`connect_reply`].
pub proof fn lemma_connect_reply_is_fixed(config: Config, stage: Stage, input: Seq<u8>)
    ensures
        client_step(&config, stage, input) matches StepView::Connect { reply, .. } ==> reply
            == connect_reply(),
{
}

/// A request whose command is not CONNECT ends the connection once its four
/// header bytes are read, and nothing is written in reply. With the right
/// version the error is [`ProtocolError::UnsupportedCommand`].
pub proof fn lemma_other_command_gets_no_reply(config: Config, input: Seq<u8>)
    requires
        input.len() >= 4,
        input[1] != COMMAND_CONNECT,
    ensures
        client_step(&config, Stage::Request, input) matches StepView::Close { reply, error }
            && reply.len() == 0 && (input[0] == VERSION ==> error == Errors::ProtocolError(
            ProtocolError::UnsupportedCommand,
        )),
{
}

/// While a stage waits for bytes, part of them changes nothing but the count
/// of those still missing: no byte is decided on before all that were asked
/// for are there.
pub proof fn lemma_read_is_exact(
    config: Config,
    stage: Stage,
    input: Seq<u8>,
    more: Seq<u8>,
    n: nat,
)
    requires
        client_step(&config, stage, input) == StepView::Read(n),
        more.len() < n,
    ensures
        client_step(&config, stage, input + more) == StepView::Read((n - more.len()) as nat),
{
    let longer = input + more;
    assert(forall|i: int| 0 <= i < input.len() ==> longer[i] == input[i]);
}

} // verus!
