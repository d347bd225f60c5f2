//! What it takes to open the tunnel for one target: where to connect, which
//! name the certificate must carry, and the upgrade request.

use crate::address::{host_text, TargetAddress, TargetView};
use crate::configutil::Config;
use crate::error::Errors;
use crate::socks5::{
    client_step, lemma_connect_is_answered, request_message, Stage, StepView, WireHost,
    COMMAND_CONNECT,
};
use crate::text::{decimal, push_decimal};
use vstd::prelude::*;
use vstd::string::*;

verus! {

/// The port on which the edge endpoint takes TLS connections.
pub const EDGE_PORT: u16 = 443;

/// One header of the upgrade request.
#[derive(Clone, Debug, PartialEq, Eq)]
pub struct Header {
    pub name: String,
    pub value: String,
}

impl View for Header {
    type V = (Seq<char>, Seq<char>);

    open spec fn view(&self) -> (Seq<char>, Seq<char>) {
        (self.name@, self.value@)
    }
}

/// The plan for one tunnel.
#[derive(Clone, Debug, PartialEq, Eq)]
pub struct TunnelRequest {
    /// Address and port for the TCP connection.
    pub addr: String,
    /// Name that the edge's certificate is validated against.
    pub server_name: String,
    /// URL of the websocket upgrade.
    pub url: String,
    /// Headers that the upgrade request carries besides the usual ones.
    pub headers: Vec<Header>,
}

/// What a [`TunnelRequest`] holds, as sequences.
pub struct TunnelRequestView {
    pub addr: Seq<char>,
    pub server_name: Seq<char>,
    pub url: Seq<char>,
    pub headers: Seq<(Seq<char>, Seq<char>)>,
}

impl View for TunnelRequest {
    type V = TunnelRequestView;

    open spec fn view(&self) -> TunnelRequestView {
        TunnelRequestView {
            addr: self.addr@,
            server_name: self.server_name@,
            url: self.url@,
            headers: Seq::new(self.headers@.len(), |i: int| self.headers@[i]@),
        }
    }
}

/// The plan for a tunnel to `target` through the edge at `cfip` that answers
/// to `cfhost`.
///
/// The TCP connection goes to `cfip` on port 443. The certificate is checked
/// against `cfhost`, never against the target. The upgrade goes to the path
/// `/` on `cfhost` and carries four headers, in this order: `Host` with
/// `cfhost`, `Token` with the token, `Hostname` with the target's host as
/// text, `Port` with the target's port in decimal.
pub open spec fn tunnel_plan(
    cfhost: Seq<char>,
    cfip: Seq<char>,
    token: Seq<char>,
    target: TargetView,
) -> TunnelRequestView {
    TunnelRequestView {
        addr: cfip + ":"@ + decimal(EDGE_PORT as nat),
        server_name: cfhost,
        url: "wss://"@ + cfhost + "/"@,
        headers: seq![
            ("Host"@, cfhost),
            ("Token"@, token),
            ("Hostname"@, host_text(target.host)),
            ("Port"@, decimal(target.port as nat)),
        ],
    }
}

/// A header with the given name and value.
fn header(name: &str, value: String) -> (h: Header)
    ensures
        h@ == (name@, value@),
{
    Header { name: String::from_str(name), value }
}

/// Plans the tunnel for one target.
pub fn tunnel_request(config: &Config, target: &TargetAddress) -> (request: TunnelRequest)
    ensures
        request@ == tunnel_plan(config.cfhost@, config.cfip@, config.token@, target@),
{
    let mut addr = config.cfip.clone();
    addr.append(":");
    push_decimal(&mut addr, EDGE_PORT);
    let mut url = String::from_str("wss://");
    url.append(config.cfhost.as_str());
    url.append("/");
    let mut port = String::new();
    push_decimal(&mut port, target.port);
    let mut headers: Vec<Header> = Vec::new();
    headers.push(header("Host", config.cfhost.clone()));
    headers.push(header("Token", config.token.clone()));
    headers.push(header("Hostname", target.host.text()));
    headers.push(header("Port", port));
    let request = TunnelRequest { addr, server_name: config.cfhost.clone(), url, headers };
    proof {
        let plan = tunnel_plan(config.cfhost@, config.cfip@, config.token@, target@);
        assert(port@ =~= decimal(target.port as nat));
        assert(request@.headers =~= plan.headers);
        assert(request@.addr =~= plan.addr);
        assert(request@.url =~= plan.url);
    }
    request
}

/// The part of opening a tunnel that can fail.
#[derive(Clone, Copy, Debug, PartialEq, Eq, Structural)]
pub enum TunnelStage {
    /// The TCP connection to the edge.
    Connect,
    /// Making a server name of the edge's host name.
    ServerName,
    /// The TLS handshake.
    Tls,
    /// The websocket upgrade.
    Upgrade,
}

impl TunnelStage {
    /// The name of the stage in error texts.
    pub open spec fn name(self) -> Seq<char> {
        match self {
            TunnelStage::Connect => "connect"@,
            TunnelStage::ServerName => "server name"@,
            TunnelStage::Tls => "tls"@,
            TunnelStage::Upgrade => "upgrade"@,
        }
    }
}

/// The error for a tunnel that did not open. Whatever failed, the error is
/// an [`Errors::TunnelError`]; its text is the stage, a colon and a space,
/// and the cause. Nothing is written to the client over it, and nothing is
/// tried again.
pub fn tunnel_failed(stage: TunnelStage, cause: &str) -> (error: Errors)
    ensures
        error matches Errors::TunnelError(text) && text@ == stage.name() + ": "@ + cause@,
{
    let mut text = String::from_str(
        match stage {
            TunnelStage::Connect => "connect",
            TunnelStage::ServerName => "server name",
            TunnelStage::Tls => "tls",
            TunnelStage::Upgrade => "upgrade",
        },
    );
    text.append(": ");
    text.append(cause);
    Errors::TunnelError(text)
}

/// The tunnel that is opened for a CONNECT request names, in its `Hostname`
/// and `Port` headers, the host and the port that the client sent.
pub proof fn lemma_tunnel_names_the_target(
    config: Config,
    reserved: u8,
    host: WireHost,
    port: u16,
)
    requires
        host.valid(),
    ensures
        client_step(
            &config,
            Stage::Request,
            request_message(COMMAND_CONNECT, reserved, host, port),
        ) matches StepView::Connect { target, .. } && ({
            let plan = tunnel_plan(config.cfhost@, config.cfip@, config.token@, target);
            &&& plan.headers[2] == ("Hostname"@, host_text(host.decoded()))
            &&& plan.headers[3] == ("Port"@, decimal(port as nat))
        }),
{
    lemma_connect_is_answered(config, reserved, host, port);
}

} // verus!
