use cfproxy_rs::error::Errors;
use cfproxy_rs::proxy::{
    forward_failed, proxy_tcp_to_ws, proxy_ws_to_tcp, relay_result, ClientRead, Frame, Relay,
    TunnelRead, BUFFER_SIZE,
};

const CLEAN_END: Relay = Relay::End { report: None, result: Ok(()) };

#[test]
fn buffer_is_32_kib() {
    assert_eq!(BUFFER_SIZE, 32 * 1024);
}

#[test]
fn client_bytes_become_one_frame() {
    assert_eq!(
        proxy_tcp_to_ws(ClientRead::Data(vec![1, 2, 3])),
        Relay::Forward(vec![1, 2, 3])
    );
    assert_eq!(proxy_tcp_to_ws(ClientRead::Data(vec![0])), Relay::Forward(vec![0]));
    let full = vec![0xa5u8; BUFFER_SIZE];
    assert_eq!(proxy_tcp_to_ws(ClientRead::Data(full.clone())), Relay::Forward(full));
}

#[test]
fn client_end_of_stream_ends_the_pump() {
    assert_eq!(proxy_tcp_to_ws(ClientRead::Data(vec![])), CLEAN_END);
}

#[test]
fn client_read_failure_is_reported_and_fails_the_pump() {
    assert_eq!(
        proxy_tcp_to_ws(ClientRead::Failed("connection reset".to_string())),
        Relay::End {
            report: Some("connection reset".to_string()),
            result: Err(Errors::IoError("connection reset".to_string())),
        }
    );
}

#[test]
fn failed_forward_is_reported_and_fails_the_pump() {
    assert_eq!(
        forward_failed("broken pipe".to_string()),
        Relay::End {
            report: Some("broken pipe".to_string()),
            result: Err(Errors::IoError("broken pipe".to_string())),
        }
    );
    assert_eq!(
        forward_failed(String::new()),
        Relay::End { report: Some(String::new()), result: Err(Errors::IoError(String::new())) }
    );
}

#[test]
fn client_read_failure_is_the_result_of_the_connection() {
    let up = match proxy_tcp_to_ws(ClientRead::Failed("connection reset".to_string())) {
        Relay::End { result, .. } => result,
        other => panic!("the pump goes on: {:?}", other),
    };
    let down = match proxy_ws_to_tcp(TunnelRead::Frame(Frame::Close)) {
        Relay::End { result, .. } => result,
        other => panic!("the pump goes on: {:?}", other),
    };
    assert_eq!(
        relay_result(up, down),
        Err(Errors::IoError("connection reset".to_string()))
    );
}

#[test]
fn binary_frames_are_written_verbatim() {
    assert_eq!(
        proxy_ws_to_tcp(TunnelRead::Frame(Frame::Binary(vec![9, 8, 7]))),
        Relay::Forward(vec![9, 8, 7])
    );
    assert_eq!(proxy_ws_to_tcp(TunnelRead::Frame(Frame::Binary(vec![]))), Relay::Forward(vec![]));
}

#[test]
fn close_frame_ends_the_pump() {
    assert_eq!(proxy_ws_to_tcp(TunnelRead::Frame(Frame::Close)), CLEAN_END);
    assert_eq!(proxy_ws_to_tcp(TunnelRead::Finished), CLEAN_END);
}

#[test]
fn other_frames_are_ignored() {
    assert_eq!(proxy_ws_to_tcp(TunnelRead::Frame(Frame::Other)), Relay::Skip);
}

#[test]
fn tunnel_failure_is_reported_and_fails_the_pump() {
    assert_eq!(
        proxy_ws_to_tcp(TunnelRead::Failed("broken pipe".to_string())),
        Relay::End {
            report: Some("broken pipe".to_string()),
            result: Err(Errors::IoError("broken pipe".to_string())),
        }
    );
}

#[test]
fn first_error_is_the_result() {
    let io = |text: &str| Err(Errors::IoError(text.to_string()));
    assert_eq!(relay_result(Ok(()), Ok(())), Ok(()));
    assert_eq!(relay_result(io("first"), Ok(())), io("first"));
    assert_eq!(relay_result(Ok(()), io("second")), io("second"));
    assert_eq!(relay_result(io("first"), io("second")), io("first"));
    assert_eq!(relay_result(Err(Errors::AuthError), io("second")), Err(Errors::AuthError));
}

/// Runs the pump from client to tunnel over the reads and returns the frames
/// it sends.
fn client_pump(reads: Vec<ClientRead>) -> Vec<Vec<u8>> {
    let mut frames = Vec::new();
    for read in reads {
        match proxy_tcp_to_ws(read) {
            Relay::Forward(bytes) => frames.push(bytes),
            Relay::Skip => {}
            Relay::End { .. } => break,
        }
    }
    frames
}

/// Runs the pump from tunnel to client over the reads and returns what it
/// writes.
fn tunnel_pump(reads: Vec<TunnelRead>) -> Vec<u8> {
    let mut written = Vec::new();
    for read in reads {
        match proxy_ws_to_tcp(read) {
            Relay::Forward(bytes) => written.extend(bytes),
            Relay::Skip => {}
            Relay::End { .. } => break,
        }
    }
    written
}

#[test]
fn client_bytes_reach_the_tunnel_unchanged() {
    let data: Vec<u8> = (0..100_000u32).map(|i| (i * 7 + i / 251) as u8).collect();
    for size in [1usize, 2, 999, 4096, BUFFER_SIZE, 100_000] {
        let mut reads: Vec<ClientRead> =
            data.chunks(size).map(|chunk| ClientRead::Data(chunk.to_vec())).collect();
        reads.push(ClientRead::Data(vec![]));
        reads.push(ClientRead::Data(vec![0xee]));
        let frames = client_pump(reads);
        assert!(frames.iter().all(|frame| !frame.is_empty()));
        assert_eq!(frames.concat(), data);
    }
}

#[test]
fn client_bytes_after_a_failure_are_not_sent() {
    let reads = vec![
        ClientRead::Data(vec![1, 2]),
        ClientRead::Failed("reset".to_string()),
        ClientRead::Data(vec![3]),
    ];
    assert_eq!(client_pump(reads), vec![vec![1, 2]]);
}

#[test]
fn tunnel_payloads_reach_the_client_unchanged() {
    let data: Vec<u8> = (0..50_000u32).map(|i| (i * 13 + i / 97) as u8).collect();
    for size in [1usize, 3, 1000, 65_536] {
        let mut reads = Vec::new();
        for chunk in data.chunks(size) {
            reads.push(TunnelRead::Frame(Frame::Binary(chunk.to_vec())));
            reads.push(TunnelRead::Frame(Frame::Other));
        }
        reads.push(TunnelRead::Frame(Frame::Close));
        reads.push(TunnelRead::Frame(Frame::Binary(vec![0xee])));
        assert_eq!(tunnel_pump(reads), data);
    }
}

#[test]
fn tunnel_payloads_after_a_failure_are_not_written() {
    let reads = vec![
        TunnelRead::Frame(Frame::Binary(vec![1])),
        TunnelRead::Frame(Frame::Binary(vec![])),
        TunnelRead::Frame(Frame::Binary(vec![2])),
        TunnelRead::Failed("reset".to_string()),
        TunnelRead::Frame(Frame::Binary(vec![3])),
    ];
    assert_eq!(tunnel_pump(reads), vec![1, 2]);
    let reads = vec![TunnelRead::Finished, TunnelRead::Frame(Frame::Binary(vec![3]))];
    assert_eq!(tunnel_pump(reads), Vec::<u8>::new());
}
