use std::path::PathBuf;

use terminal_cell::{
    ClientStep, ConnectionError, ErrorKind, SocketExchange, TerminalCellSocketClient,
    TerminalInputGateLease, TerminalInputGateSequence, TerminalSize,
};

fn client() -> TerminalCellSocketClient {
    TerminalCellSocketClient::new(PathBuf::from("control.sock"), PathBuf::from("data.sock"))
}

/// Runs a verb against a socket that is expected, a request that is expected and
/// a reply.
fn exchange<'a, T>(
    mut verb: impl FnMut(&mut SocketExchange) -> ClientStep<'a, T>,
    socket: &str,
    request: &[u8],
    reply: &[u8],
) -> Result<T, ConnectionError> {
    let mut exchange = SocketExchange::new();
    match verb(&mut exchange) {
        ClientStep::Connect(path) => assert_eq!(path, &PathBuf::from(socket)),
        _ => panic!("expected a connection"),
    }
    match verb(&mut exchange) {
        ClientStep::Send(bytes) => assert_eq!(bytes, request),
        _ => panic!("expected a request"),
    }
    let mut taken = 0;
    loop {
        match verb(&mut exchange) {
            ClientStep::Receive(count) => {
                exchange.receive(&reply[taken..taken + count]);
                taken += count;
            }
            ClientStep::Done(result) => {
                assert_eq!(taken, reply.len(), "no byte is left and none too many taken");
                return result;
            }
            _ => panic!("expected the reply to be read"),
        }
    }
}

#[test]
fn client_knows_its_sockets() {
    let both = client();
    assert_eq!(both.control_socket(), &PathBuf::from("control.sock"));
    assert_eq!(both.data_socket(), Some(&PathBuf::from("data.sock")));
    let control = TerminalCellSocketClient::for_control_only(PathBuf::from("control.sock"));
    assert_eq!(control.control_socket(), &PathBuf::from("control.sock"));
    assert_eq!(control.data_socket(), None);
    assert_ne!(both, control);
    assert_eq!(both.clone(), both);
    assert_eq!(control.clone(), control);
}

#[test]
fn verbs_exchange_requests_for_replies() {
    let client = client();
    let lease = TerminalInputGateLease::new(TerminalInputGateSequence::new(2));
    assert_eq!(
        exchange(
            |step| client.capture(step),
            "control.sock",
            b"C",
            b"\0\0\0\0\0\0\0\x02hi"
        ),
        Ok(b"hi".to_vec())
    );
    assert_eq!(
        exchange(
            |step| client.send_programmatic_input(b"x", step),
            "control.sock",
            b"P\0\0\0\0\0\0\0\x01x",
            b"A"
        ),
        Ok(())
    );
    assert_eq!(
        exchange(
            |step| client.send_viewer_input(b"", step),
            "control.sock",
            b"V\0\0\0\0\0\0\0\0",
            b"A"
        ),
        Ok(())
    );
    assert_eq!(
        exchange(
            |step| client.close_human_input(step),
            "control.sock",
            b"G",
            b"L\0\0\0\0\0\0\0\x02"
        ),
        Ok(lease)
    );
    let release = exchange(
        |step| client.open_human_input(lease, step),
        "control.sock",
        b"O\0\0\0\0\0\0\0\x02",
        b"U\0\0\0\0\0\0\0\x02\0\0\0\0\0\0\0\x17",
    )
    .expect("release is read");
    assert_eq!(release.lease(), lease);
    assert_eq!(release.held_byte_count(), 23);
    assert_eq!(
        exchange(
            |step| client.resize(TerminalSize::new(31, 97), step),
            "control.sock",
            b"R\0\x1f\0\x61",
            b"A"
        ),
        Ok(())
    );
    assert_eq!(
        exchange(
            |step| client.wait_for_transcript(b"ok", step),
            "control.sock",
            b"W\0\0\0\0\0\0\0\x02ok",
            b"Y"
        ),
        Ok(())
    );
    assert_eq!(
        exchange(
            |step| client.wait_for_terminal_exit(step),
            "control.sock",
            b"X",
            b"\0\0\0\0\0\0\0\x01\x37"
        ),
        Ok("7".to_string())
    );
    assert_eq!(
        exchange(
            |step| client.worker_observation_text(step),
            "control.sock",
            b"H",
            b"\0\0\0\0\0\0\0\x04none"
        ),
        Ok("none".to_string())
    );
    assert_eq!(
        exchange(
            |step| client.subscribe_from_beginning(step),
            "control.sock",
            b"S",
            b""
        ),
        Ok(())
    );
    assert_eq!(
        exchange(
            |step| client.open_attach_stream(step),
            "data.sock",
            b"T",
            b"I"
        ),
        Ok(())
    );
}

#[test]
fn signal_requests_carry_archives() {
    let client = client();
    let archive = Ok(b"query".to_vec());
    assert_eq!(
        exchange(
            |step| client.send_signal_request(&archive, step),
            "control.sock",
            b"\0\0\0\x05query",
            b"\0\0\0\x08response"
        ),
        Ok(b"response".to_vec())
    );
    let missing = Err("no archive".to_string());
    let mut steps = SocketExchange::new();
    assert_eq!(
        client.send_signal_request(&missing, &mut steps),
        ClientStep::Connect(&PathBuf::from("control.sock"))
    );
    assert_eq!(
        client.send_signal_request(&missing, &mut steps),
        ClientStep::Done(Err(ConnectionError::new(
            ErrorKind::InvalidData,
            "signal query archive failed: no archive".to_string()
        )))
    );
}

#[test]
fn attach_needs_a_data_socket() {
    let control = TerminalCellSocketClient::for_control_only(PathBuf::from("control.sock"));
    assert_eq!(
        control.open_attach_stream(&mut SocketExchange::new()),
        ClientStep::Done(Err(ConnectionError::new(
            ErrorKind::Unsupported,
            "terminal-cell client has no data-socket path; \
             construct with TerminalCellSocketClient::new for the attach plane"
                .to_string()
        )))
    );
}

#[test]
fn refused_attach_gives_the_reason() {
    let client = client();
    assert_eq!(
        exchange(
            |step| client.open_attach_stream(step),
            "data.sock",
            b"T",
            b"J\0\0\0\0\0\0\0\x04busy"
        ),
        Err(ConnectionError::new(
            ErrorKind::ConnectionRefused,
            "busy".to_string()
        ))
    );
}

#[test]
fn observation_that_is_not_utf8_is_refused_with_the_reason() {
    let client = client();
    let error = String::from_utf8(vec![0x80]).expect_err("bytes are not text");
    assert_eq!(
        exchange(
            |step| client.worker_observation_text(step),
            "control.sock",
            b"H",
            b"\0\0\0\0\0\0\0\x01\x80"
        ),
        Err(ConnectionError::new(
            ErrorKind::InvalidData,
            format!("worker observation was not utf-8: {error}")
        ))
    );
}

#[test]
fn reply_that_is_cut_off_fails_the_verb() {
    let client = client();
    let mut steps = SocketExchange::new();
    steps.end();
    assert_eq!(
        client.capture(&mut steps),
        ClientStep::Connect(&PathBuf::from("control.sock"))
    );
    assert_eq!(client.capture(&mut steps), ClientStep::Send(b"C".to_vec()));
    assert_eq!(client.capture(&mut steps), ClientStep::Receive(8));
    steps.receive(b"\0\0\0\0\0\0\0\x02h");
    assert_eq!(client.capture(&mut steps), ClientStep::Receive(1));
    steps.end();
    assert_eq!(
        client.capture(&mut steps),
        ClientStep::Done(Err(ConnectionError::new(
            ErrorKind::UnexpectedEof,
            "failed to fill whole buffer".to_string()
        )))
    );
    steps.receive(b"i");
    assert_eq!(
        client.capture(&mut steps),
        ClientStep::Done(Ok(b"hi".to_vec()))
    );
}
