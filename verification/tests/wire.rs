use terminal_cell::signal::{Query, ResolveSessionRequest, Response, SessionListReply};
use terminal_cell::text::{decimal_text, usize_from};
use terminal_cell::{
    ConnectionError, ErrorKind, InputSource, ReadInterruption, ReceivedRequest, SocketReplyReader,
    SocketReplyWriter, SocketRequest, SocketRequestReader, SocketRequestWriter, TerminalInput,
    TerminalInputGateLease, TerminalInputGateRelease, TerminalInputGateSequence, TerminalSize,
    WaitForTranscriptText,
};

fn lease(value: u64) -> TerminalInputGateLease {
    TerminalInputGateLease::new(TerminalInputGateSequence::new(value))
}

fn failed(kind: ErrorKind, message: &str) -> ReadInterruption {
    ReadInterruption::Failed(ConnectionError::new(kind, message.to_string()))
}

fn request(write: impl FnOnce(&mut SocketRequestWriter)) -> Vec<u8> {
    let mut writer = SocketRequestWriter::new(Vec::new());
    write(&mut writer);
    writer.into_bytes()
}

fn reply(write: impl FnOnce(&mut SocketReplyWriter)) -> Vec<u8> {
    let mut writer = SocketReplyWriter::new(Vec::new());
    write(&mut writer);
    writer.into_bytes()
}

fn read(bytes: &[u8]) -> Result<ReceivedRequest, ReadInterruption> {
    SocketRequestReader::new(bytes.to_vec()).read_request()
}

/// Reads a request from bytes that come one at a time.
fn read_slowly(bytes: &[u8]) -> ReceivedRequest {
    let mut reader = SocketRequestReader::new(Vec::new());
    for byte in bytes {
        assert!(matches!(
            reader.read_request(),
            Err(ReadInterruption::NeedBytes(count)) if count > 0
        ));
        reader.receive(&[*byte]);
    }
    reader.read_request().expect("the request is there")
}

#[test]
fn requests_are_written_as_tags_and_fields() {
    assert_eq!(request(|writer| writer.write_capture_request()), b"C");
    assert_eq!(request(|writer| writer.write_subscription_request()), b"S");
    assert_eq!(request(|writer| writer.write_attach_request()), b"T");
    assert_eq!(
        request(|writer| writer.write_programmatic_input(b"ls\r")),
        b"P\0\0\0\0\0\0\0\x03ls\r"
    );
    assert_eq!(
        request(|writer| writer.write_viewer_input(b"q")),
        b"V\0\0\0\0\0\0\0\x01q"
    );
    assert_eq!(
        request(|writer| writer.write_close_human_input_request()),
        b"G"
    );
    assert_eq!(
        request(|writer| writer.write_open_human_input_request(lease(0x0102_0304_0506_0708))),
        b"O\x01\x02\x03\x04\x05\x06\x07\x08"
    );
    assert_eq!(
        request(|writer| writer.write_resize_request(TerminalSize::new(31, 0x0261))),
        b"R\0\x1f\x02\x61"
    );
    assert_eq!(
        request(|writer| writer.write_wait_request(b"")),
        b"W\0\0\0\0\0\0\0\0"
    );
    assert_eq!(request(|writer| writer.write_wait_exit_request()), b"X");
    assert_eq!(
        request(|writer| writer.write_worker_observation_request()),
        b"H"
    );
    assert_eq!(
        request(|writer| writer
            .write_signal_request(Ok(b"rkyv".to_vec()))
            .expect("archive is there")),
        b"\0\0\0\x04rkyv"
    );
}

#[test]
fn requests_survive_the_wire() {
    let cases = vec![
        (
            request(|writer| writer.write_capture_request()),
            SocketRequest::Capture,
        ),
        (
            request(|writer| writer.write_subscription_request()),
            SocketRequest::SubscribeFromBeginning,
        ),
        (
            request(|writer| writer.write_attach_request()),
            SocketRequest::Attach,
        ),
        (
            request(|writer| writer.write_programmatic_input(b"C\0T")),
            SocketRequest::Input(TerminalInput::new(
                b"C\0T".to_vec(),
                InputSource::Programmatic,
            )),
        ),
        (
            request(|writer| writer.write_viewer_input(b"")),
            SocketRequest::Input(TerminalInput::new(Vec::new(), InputSource::Viewer)),
        ),
        (
            request(|writer| writer.write_close_human_input_request()),
            SocketRequest::CloseHumanInput,
        ),
        (
            request(|writer| writer.write_open_human_input_request(lease(u64::MAX))),
            SocketRequest::OpenHumanInput(lease(u64::MAX)),
        ),
        (
            request(|writer| writer.write_resize_request(TerminalSize::new(65535, 1))),
            SocketRequest::Resize(TerminalSize::new(65535, 1)),
        ),
        (
            request(|writer| writer.write_wait_request(b"ready> ")),
            SocketRequest::Wait(WaitForTranscriptText::new(b"ready> ".to_vec())),
        ),
        (
            request(|writer| writer.write_wait_exit_request()),
            SocketRequest::WaitExit,
        ),
        (
            request(|writer| writer.write_worker_observation_request()),
            SocketRequest::WorkerObservation,
        ),
    ];
    for (bytes, expected) in cases {
        assert_eq!(read_slowly(&bytes), ReceivedRequest::Request(expected));
    }
}

#[test]
fn requests_behind_each_other_are_told_apart() {
    let mut writer = SocketRequestWriter::new(Vec::new());
    writer.write_programmatic_input(b"one");
    writer.write_capture_request();
    let mut reader = SocketRequestReader::new(writer.into_bytes());
    assert_eq!(
        reader.read_request(),
        Ok(ReceivedRequest::Request(SocketRequest::Input(
            TerminalInput::new(b"one".to_vec(), InputSource::Programmatic)
        )))
    );
    assert_eq!(
        reader.read_request(),
        Ok(ReceivedRequest::Request(SocketRequest::Capture))
    );
    assert_eq!(
        reader.read_request(),
        Err(ReadInterruption::NeedBytes(1))
    );
}

#[test]
fn reader_asks_for_the_next_field_alone() {
    assert_eq!(read(b""), Err(ReadInterruption::NeedBytes(1)));
    assert_eq!(read(b"R"), Err(ReadInterruption::NeedBytes(2)));
    assert_eq!(read(b"R\0\x1f"), Err(ReadInterruption::NeedBytes(2)));
    assert_eq!(read(b"O\0\0\0"), Err(ReadInterruption::NeedBytes(5)));
    assert_eq!(read(b"P"), Err(ReadInterruption::NeedBytes(8)));
    assert_eq!(
        read(b"P\0\0\0\0\0\0\0\x05abc"),
        Err(ReadInterruption::NeedBytes(2))
    );
    assert_eq!(read(b"\0"), Err(ReadInterruption::NeedBytes(3)));
    assert_eq!(read(b"\0\0\x01\0"), Err(ReadInterruption::NeedBytes(256)));
}

#[test]
fn archive_is_read_and_restored() {
    let archive = match read_slowly(b"\0\0\0\x03abc") {
        ReceivedRequest::Archive(archive) => archive,
        other => panic!("expected an archive, got {other:?}"),
    };
    assert_eq!(archive.bytes(), b"abc");
    let query = Query::ResolveSession(ResolveSessionRequest {
        name: "operator".to_string(),
    });
    let restored = match archive.clone().restored(Ok(query.clone())) {
        Ok(SocketRequest::Signal(restored)) => restored,
        other => panic!("expected a query, got {other:?}"),
    };
    assert_eq!(restored.payload(), &query);
    assert_eq!(restored.into_payload(), query);
    assert_eq!(
        archive.restored(Err("bad archive".to_string())),
        Err(ConnectionError::new(
            ErrorKind::InvalidData,
            "signal query restore failed: bad archive".to_string()
        ))
    );
}

#[test]
fn lengths_over_the_maximum_are_refused() {
    assert_eq!(
        read(b"P\0\0\0\0\x01\0\0\x01"),
        Err(failed(
            ErrorKind::InvalidData,
            "socket frame length 16777217 exceeds maximum"
        ))
    );
    assert_eq!(
        read(b"W\xff\xff\xff\xff\xff\xff\xff\xff"),
        Err(failed(
            ErrorKind::InvalidData,
            "socket frame length 18446744073709551615 exceeds maximum"
        ))
    );
    assert_eq!(
        read(b"V\0\0\0\0\x01\0\0\0"),
        Err(ReadInterruption::NeedBytes(16_777_216))
    );
    assert_eq!(
        read(b"\x01\0\0\x01"),
        Err(failed(
            ErrorKind::InvalidData,
            "signal length exceeds maximum"
        ))
    );
    assert_eq!(
        read(b"\x01\0\0\0"),
        Err(ReadInterruption::NeedBytes(16_777_216))
    );
    assert_eq!(
        SocketReplyReader::new(b"\0\0\0\0\x01\0\0\x01".to_vec()).read_snapshot(),
        Err(failed(
            ErrorKind::InvalidData,
            "socket reply length 16777217 exceeds maximum"
        ))
    );
    assert_eq!(
        SocketReplyReader::new(b"\xff\xff\xff\xff".to_vec()).read_signal_event(),
        Err(failed(
            ErrorKind::InvalidData,
            "signal length exceeds maximum"
        ))
    );
    assert_eq!(
        SocketReplyReader::new(b"J\0\0\0\0\x01\0\0\x01".to_vec()).read_attach_acceptance(),
        Err(failed(
            ErrorKind::InvalidData,
            "socket reply length 16777217 exceeds maximum"
        ))
    );
}

#[test]
fn missing_archives_are_reported() {
    let mut writer = SocketRequestWriter::new(Vec::new());
    assert_eq!(
        writer.write_signal_request(Err("too deep".to_string())),
        Err(ConnectionError::new(
            ErrorKind::InvalidData,
            "signal query archive failed: too deep".to_string()
        ))
    );
    assert_eq!(writer.into_bytes(), b"");
    let mut writer = SocketReplyWriter::new(Vec::new());
    assert_eq!(
        writer.write_signal_event(Err("too deep".to_string())),
        Err(ConnectionError::new(
            ErrorKind::InvalidData,
            "signal response archive failed: too deep".to_string()
        ))
    );
    assert_eq!(writer.into_bytes(), b"");
}

#[test]
fn replies_are_written_as_tags_and_fields() {
    assert_eq!(
        reply(|writer| writer.write_snapshot(b"ab")),
        b"\0\0\0\0\0\0\0\x02ab"
    );
    assert_eq!(reply(|writer| writer.write_acceptance()), b"A");
    assert_eq!(reply(|writer| writer.write_attach_accepted()), b"I");
    assert_eq!(
        reply(|writer| writer.write_attach_rejected("no")),
        b"J\0\0\0\0\0\0\0\x02no"
    );
    assert_eq!(
        reply(|writer| writer.write_gate_lease(lease(258))),
        b"L\0\0\0\0\0\0\x01\x02"
    );
    assert_eq!(
        reply(|writer| writer.write_gate_release(TerminalInputGateRelease::new(lease(1), 23))),
        b"U\0\0\0\0\0\0\0\x01\0\0\0\0\0\0\0\x17"
    );
    assert_eq!(reply(|writer| writer.write_wait_satisfied()), b"Y");
    assert_eq!(
        reply(|writer| writer.write_exit_status("\u{e9}")),
        b"\0\0\0\0\0\0\0\x02\xc3\xa9"
    );
    assert_eq!(
        reply(|writer| writer
            .write_signal_event(Ok(vec![7; 300]))
            .expect("archive is there"))[..5],
        [0, 0, 1, 44, 7]
    );
}

#[test]
fn replies_survive_the_wire() {
    let mut writer = SocketReplyWriter::new(Vec::new());
    let release = TerminalInputGateRelease::new(lease(9), usize::MAX);
    writer.write_snapshot(b"\0transcript");
    writer.write_acceptance();
    writer.write_attach_accepted();
    writer.write_attach_rejected("occupied: \u{1f5a5}");
    writer.write_gate_lease(lease(9));
    writer.write_gate_release(release);
    writer.write_wait_satisfied();
    writer.write_exit_status("exit code 7");
    writer
        .write_signal_event(Ok(b"archive".to_vec()))
        .expect("archive is there");

    let mut reader = SocketReplyReader::new(writer.into_bytes());
    assert_eq!(reader.read_snapshot(), Ok(b"\0transcript".to_vec()));
    assert_eq!(reader.read_acceptance(), Ok(()));
    assert_eq!(reader.read_attach_acceptance(), Ok(()));
    assert_eq!(
        reader.read_attach_acceptance(),
        Err(failed(
            ErrorKind::ConnectionRefused,
            "occupied: \u{1f5a5}"
        ))
    );
    assert_eq!(reader.read_gate_lease(), Ok(lease(9)));
    assert_eq!(reader.read_gate_release(), Ok(release));
    assert_eq!(reader.read_wait_satisfied(), Ok(()));
    assert_eq!(reader.read_exit_status(), Ok("exit code 7".to_string()));
    assert_eq!(reader.read_signal_event(), Ok(b"archive".to_vec()));
    assert_eq!(
        reader.read_acceptance(),
        Err(ReadInterruption::NeedBytes(1))
    );
}

#[test]
fn partial_replies_call_for_their_own_bytes() {
    let bytes = reply(|writer| {
        writer.write_gate_release(TerminalInputGateRelease::new(lease(3), 4));
    });
    for cut in 0..bytes.len() {
        let mut reader = SocketReplyReader::new(bytes[..cut].to_vec());
        match reader.read_gate_release() {
            Err(ReadInterruption::NeedBytes(count)) => {
                assert!(0 < count && count <= bytes.len() - cut)
            }
            other => panic!("expected a call for bytes, got {other:?}"),
        }
        reader.receive(&bytes[cut..]);
        assert_eq!(
            reader.read_gate_release(),
            Ok(TerminalInputGateRelease::new(lease(3), 4))
        );
    }
}

#[test]
fn unexpected_tags_are_named_by_number() {
    assert_eq!(
        SocketReplyReader::new(b"J".to_vec()).read_acceptance(),
        Err(failed(
            ErrorKind::InvalidData,
            "unexpected socket reply tag: 74"
        ))
    );
    assert_eq!(
        SocketReplyReader::new(b"\0".to_vec()).read_wait_satisfied(),
        Err(failed(
            ErrorKind::InvalidData,
            "unexpected socket reply tag: 0"
        ))
    );
    assert_eq!(
        SocketReplyReader::new(b"\xff".to_vec()).read_gate_lease(),
        Err(failed(
            ErrorKind::InvalidData,
            "unexpected socket reply tag: 255"
        ))
    );
    assert_eq!(
        SocketReplyReader::new(b"A".to_vec()).read_attach_acceptance(),
        Err(failed(
            ErrorKind::InvalidData,
            "unexpected attach reply tag: 65"
        ))
    );
}

#[test]
fn text_that_is_not_utf8_is_refused_with_the_reason() {
    let error = String::from_utf8(vec![b'o', 0xff]).expect_err("bytes are not text");
    assert_eq!(
        SocketReplyReader::new(b"\0\0\0\0\0\0\0\x02o\xff".to_vec()).read_exit_status(),
        Err(failed(
            ErrorKind::InvalidData,
            &format!("socket reply string was not utf-8: {error}")
        ))
    );
}

#[test]
fn response_that_cannot_be_restored_is_refused() {
    let response = Response::SessionList(SessionListReply {
        session_entries: Vec::new(),
    });
    assert_eq!(
        SocketReplyReader::restored_signal_event(Ok(response.clone())),
        Ok(response)
    );
    assert_eq!(
        SocketReplyReader::restored_signal_event(Err("truncated".to_string())),
        Err(ConnectionError::new(
            ErrorKind::InvalidData,
            "signal response restore failed: truncated".to_string()
        ))
    );
}

#[test]
fn numbers_are_written_and_converted() {
    assert_eq!(decimal_text(0), "0");
    assert_eq!(decimal_text(1_009), "1009");
    assert_eq!(decimal_text(u64::MAX), "18446744073709551615");
    assert_eq!(usize_from(23), Ok(23));
    assert_eq!(usize_from(u64::MAX), usize::try_from(u64::MAX).map_err(|error| error.to_string()));
}
