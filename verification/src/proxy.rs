//! The two pumps of an open connection: client to tunnel, tunnel to client.
//!
//! Each pump reads, asks here what to do with what it read, does it, and
//! reads again until it is told to end.

use crate::error::Errors;
use vstd::prelude::*;

verus! {

/// The most that one read from the client asks for, in bytes.
pub const BUFFER_SIZE: usize = 32768;

/// The outcome of one read from the client.
#[derive(Clone, Debug, PartialEq, Eq)]
pub enum ClientRead {
    /// The bytes that were read; none at the end of the stream.
    Data(Vec<u8>),
    /// The read failed; the text is the cause.
    Failed(String),
}

/// A frame that the tunnel delivered.
#[derive(Clone, Debug, PartialEq, Eq)]
pub enum Frame {
    /// A binary frame and its payload.
    Binary(Vec<u8>),
    /// A close frame.
    Close,
    /// A frame of any other kind.
    Other,
}

/// The outcome of one read from the tunnel.
#[derive(Clone, Debug, PartialEq, Eq)]
pub enum TunnelRead {
    /// A frame arrived.
    Frame(Frame),
    /// The tunnel has no more frames.
    Finished,
    /// The transport failed; the text is the cause.
    Failed(String),
}

/// What a pump does after a read.
#[derive(Debug, PartialEq, Eq)]
pub enum Relay {
    /// Pass these bytes on, whole and unchanged, then read again: to the
    /// tunnel as one binary frame, to the client as they are.
    Forward(Vec<u8>),
    /// Pass nothing on and read again.
    Skip,
    /// End the pump with `result`, after logging `report` if there is one.
    End { report: Option<String>, result: Result<(), Errors> },
}

/// What a [`Relay`] holds, as sequences.
pub enum RelayView {
    Forward(Seq<u8>),
    Skip,
    End { report: Option<Seq<char>>, result: Result<(), Errors> },
}

impl View for Relay {
    type V = RelayView;

    open spec fn view(&self) -> RelayView {
        match self {
            Relay::Forward(bytes) => RelayView::Forward(bytes@),
            Relay::Skip => RelayView::Skip,
            Relay::End { report, result } => RelayView::End {
                report: match report {
                    Some(text) => Some(text@),
                    None => None,
                },
                result: *result,
            },
        }
    }
}

/// The end of a pump over a failed transport: the cause is logged, and the
/// pump ends with an [`Errors::IoError`] that carries it.
pub open spec fn failed(cause: String) -> RelayView {
    RelayView::End { report: Some(cause@), result: Err(Errors::IoError(cause)) }
}

/// What the pump from client to tunnel does after a read: bytes go on as one
/// frame; the end of the stream ends the pump in order; a failed read ends it
/// as [`failed`] says.
pub open spec fn client_relay(read: ClientRead) -> RelayView {
    match read {
        ClientRead::Data(bytes) => if bytes@.len() > 0 {
            RelayView::Forward(bytes@)
        } else {
            RelayView::End { report: None, result: Ok(()) }
        },
        ClientRead::Failed(cause) => failed(cause),
    }
}

/// What the pump from tunnel to client does after a read: the payload of a
/// binary frame goes on as it is; a close frame or the end of the frames ends
/// the pump in order; other frames are passed over; a failed transport ends
/// it as [`failed`] says.
pub open spec fn tunnel_relay(read: TunnelRead) -> RelayView {
    match read {
        TunnelRead::Frame(Frame::Binary(payload)) => RelayView::Forward(payload@),
        TunnelRead::Frame(Frame::Close) => RelayView::End { report: None, result: Ok(()) },
        TunnelRead::Frame(Frame::Other) => RelayView::Skip,
        TunnelRead::Finished => RelayView::End { report: None, result: Ok(()) },
        TunnelRead::Failed(cause) => failed(cause),
    }
}

/// Decides what a pump does when passing bytes on has failed, to the tunnel
/// or to the client: it ends, as after a failed read.
pub fn forward_failed(cause: String) -> (relay: Relay)
    ensures
        relay@ == failed(cause),
{
    let report = cause.clone();
    Relay::End { report: Some(report), result: Err(Errors::IoError(cause)) }
}

/// Decides what the pump from client to tunnel does with one read.
pub fn proxy_tcp_to_ws(read: ClientRead) -> (relay: Relay)
    ensures
        relay@ == client_relay(read),
{
    match read {
        ClientRead::Data(bytes) => {
            if bytes.len() > 0 {
                Relay::Forward(bytes)
            } else {
                Relay::End { report: None, result: Ok(()) }
            }
        },
        ClientRead::Failed(cause) => forward_failed(cause),
    }
}

/// Decides what the pump from tunnel to client does with one read.
pub fn proxy_ws_to_tcp(read: TunnelRead) -> (relay: Relay)
    ensures
        relay@ == tunnel_relay(read),
{
    match read {
        TunnelRead::Frame(Frame::Binary(payload)) => Relay::Forward(payload),
        TunnelRead::Frame(Frame::Close) => Relay::End { report: None, result: Ok(()) },
        TunnelRead::Frame(Frame::Other) => Relay::Skip,
        TunnelRead::Finished => Relay::End { report: None, result: Ok(()) },
        TunnelRead::Failed(cause) => forward_failed(cause),
    }
}

/// The result of a connection whose pumps ended with `first` and `second`,
/// in the order in which they ended: the first error, if there is one.
pub fn relay_result(first: Result<(), Errors>, second: Result<(), Errors>) -> (result: Result<
    (),
    Errors,
>)
    ensures
        result == (if first is Err {
            first
        } else {
            second
        }),
{
    match first {
        Err(error) => Err(error),
        Ok(()) => second,
    }
}

/// The bytes that a pump passes on over a run of steps, up to the step that
/// ends it.
pub open spec fn relayed(steps: Seq<RelayView>) -> Seq<u8>
    decreases steps.len(),
{
    if steps.len() == 0 {
        Seq::empty()
    } else {
        match steps[0] {
            RelayView::Forward(bytes) => bytes + relayed(steps.drop_first()),
            RelayView::Skip => relayed(steps.drop_first()),
            RelayView::End { .. } => Seq::empty(),
        }
    }
}

/// The bytes that the client delivered over a run of reads, up to the end of
/// the stream or the first failure.
pub open spec fn client_bytes(reads: Seq<ClientRead>) -> Seq<u8>
    decreases reads.len(),
{
    if reads.len() == 0 {
        Seq::empty()
    } else {
        match reads[0] {
            ClientRead::Data(bytes) => if bytes@.len() > 0 {
                bytes@ + client_bytes(reads.drop_first())
            } else {
                Seq::empty()
            },
            ClientRead::Failed(_) => Seq::empty(),
        }
    }
}

/// The payloads of the binary frames that the tunnel delivered over a run of
/// reads, up to a close frame, the end of the frames or the first failure.
pub open spec fn tunnel_bytes(reads: Seq<TunnelRead>) -> Seq<u8>
    decreases reads.len(),
{
    if reads.len() == 0 {
        Seq::empty()
    } else {
        match reads[0] {
            TunnelRead::Frame(Frame::Binary(payload)) => payload@ + tunnel_bytes(
                reads.drop_first(),
            ),
            TunnelRead::Frame(Frame::Other) => tunnel_bytes(reads.drop_first()),
            _ => Seq::empty(),
        }
    }
}

/// Over any run of reads, the pump from client to tunnel passes on exactly
/// the bytes that the client delivered, in order, none added, lost or
/// changed.
pub proof fn lemma_client_bytes_reach_tunnel(reads: Seq<ClientRead>)
    ensures
        relayed(reads.map_values(|read: ClientRead| client_relay(read))) == client_bytes(reads),
    decreases reads.len(),
{
    let steps = reads.map_values(|read: ClientRead| client_relay(read));
    if reads.len() > 0 {
        lemma_client_bytes_reach_tunnel(reads.drop_first());
        assert(steps.drop_first() =~= reads.drop_first().map_values(
            |read: ClientRead| client_relay(read),
        ));
    }
}

/// Over any run of reads, the pump from tunnel to client passes on exactly
/// the payloads of the binary frames that the tunnel delivered, in order,
/// none added, lost or changed.
pub proof fn lemma_tunnel_bytes_reach_client(reads: Seq<TunnelRead>)
    ensures
        relayed(reads.map_values(|read: TunnelRead| tunnel_relay(read))) == tunnel_bytes(reads),
    decreases reads.len(),
{
    let steps = reads.map_values(|read: TunnelRead| tunnel_relay(read));
    if reads.len() > 0 {
        lemma_tunnel_bytes_reach_client(reads.drop_first());
        assert(steps.drop_first() =~= reads.drop_first().map_values(
            |read: TunnelRead| tunnel_relay(read),
        ));
    }
}

} // verus!
