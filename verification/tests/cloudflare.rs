use rustclipsync::cloudflare::{
    hello_message, object_endpoint, object_key_from_reply, reader_step, take_object_key,
    writer_step, ws_endpoint, Download, EndReport, EndpointError, ReadErrorKind, ReaderAction,
    ReaderEvent, TransferError, UploadCursor, WriterAction, WriterEvent, PING_INTERVAL_SECS,
    READ_IDLE_TIMEOUT_SECS, UPLOAD_CHUNK_BYTES,
};
use rustclipsync::config::ClientConfig;
use rustclipsync::protocol::{ClientWsMessage, ServerWsMessage};

#[test]
fn builds_ws_endpoint_from_https_server_url() {
    assert_eq!(
        ws_endpoint("https://clipsync.example.com").unwrap(),
        "wss://clipsync.example.com/ws"
    );
}

#[test]
fn builds_object_endpoint_with_filename() {
    assert_eq!(
        object_endpoint("https://clipsync.example.com/", "m1", Some("sample.txt")).unwrap(),
        "https://clipsync.example.com/objects/m1?filename=sample.txt"
    );
}

#[test]
fn builds_ws_endpoint_from_http_server_url() {
    assert_eq!(
        ws_endpoint("http://127.0.0.1:8787//").unwrap(),
        "ws://127.0.0.1:8787/ws"
    );
}

#[test]
fn other_schemes_have_no_ws_endpoint() {
    for url in ["ftp://host", "host", "", "HTTPS://host", "http:/"] {
        assert_eq!(ws_endpoint(url), Err(EndpointError::UnsupportedScheme));
    }
}

#[test]
fn slashes_of_a_bare_scheme_are_trailing() {
    assert_eq!(
        ws_endpoint("https://"),
        Err(EndpointError::UnsupportedScheme)
    );
}

#[test]
fn object_endpoint_percent_encodes() {
    assert_eq!(
        object_endpoint("https://h", "a/b", Some("r\u{e9}sum\u{e9} 1~.txt")).unwrap(),
        "https://h/objects/a%2Fb?filename=r%C3%A9sum%C3%A9%201~.txt"
    );
    assert_eq!(
        object_endpoint("https://h", "m1", None).unwrap(),
        "https://h/objects/m1"
    );
}

#[test]
fn object_endpoints_are_distinct() {
    let url = |id, name| object_endpoint("https://h", id, name).unwrap();
    assert_ne!(url("m1?filename=a", None), url("m1", Some("a")));
    assert_ne!(url("m1", Some("")), url("m1", None));
}

#[test]
fn idle_timeout_exceeds_the_ping_interval() {
    assert_eq!(PING_INTERVAL_SECS, 20);
    assert_eq!(READ_IDLE_TIMEOUT_SECS, 60);
    assert!(READ_IDLE_TIMEOUT_SECS > 2 * PING_INTERVAL_SECS);
}

#[test]
fn hello_says_who_and_what_was_seen() {
    let config = ClientConfig {
        server_url: "https://h".to_string(),
        client_id: "client-a".to_string(),
        client_name: "Client A".to_string(),
        auth_token: "secret".to_string(),
        poll_interval_ms: 300,
        receive_dir: "receive".to_string(),
        max_payload_bytes: 1,
    };
    assert_eq!(
        hello_message(&config, 7),
        ClientWsMessage::Hello {
            client_id: "client-a".to_string(),
            client_name: "Client A".to_string(),
            last_seen_sequence: 7,
        }
    );
}

#[test]
fn writer_sends_what_falls_due_until_it_cannot() {
    assert!(matches!(
        writer_step(WriterEvent::Encoded("{}".to_string())),
        WriterAction::SendText(text) if text == "{}"
    ));
    assert!(matches!(
        writer_step(WriterEvent::EncodingFailed),
        WriterAction::WarnAndWait
    ));
    assert!(matches!(
        writer_step(WriterEvent::PingDue),
        WriterAction::SendPing
    ));
    assert!(matches!(
        writer_step(WriterEvent::FrameSent),
        WriterAction::Wait
    ));
    assert!(matches!(
        writer_step(WriterEvent::OutboxClosed),
        WriterAction::Close
    ));
    assert!(matches!(
        writer_step(WriterEvent::SendFailed),
        WriterAction::Close
    ));
}

#[test]
fn reader_hands_messages_on_and_passes_over_the_rest() {
    let ack = ServerWsMessage::HelloAck { latest_sequence: 3 };
    assert!(matches!(
        reader_step(ReaderEvent::Decoded(ack.clone())),
        ReaderAction::Deliver(message) if message == ack
    ));
    assert!(matches!(
        reader_step(ReaderEvent::Undecodable),
        ReaderAction::WarnAndRead
    ));
    assert!(matches!(
        reader_step(ReaderEvent::Delivered),
        ReaderAction::Read
    ));
    assert!(matches!(
        reader_step(ReaderEvent::OtherFrame),
        ReaderAction::Read
    ));
}

#[test]
fn reader_stops_when_the_conversation_is_over() {
    let report = |event| match reader_step(event) {
        ReaderAction::Stop(report) => report,
        _ => panic!("the reader goes on"),
    };
    assert_eq!(report(ReaderEvent::IdleTimeout), EndReport::IdleTimeout);
    assert_eq!(report(ReaderEvent::InboxClosed), EndReport::Silent);
    assert_eq!(report(ReaderEvent::CloseFrame), EndReport::Silent);
    assert_eq!(report(ReaderEvent::EndOfStream), EndReport::Silent);
    assert_eq!(report(ReaderEvent::WriterClosed), EndReport::Silent);
    for (kind, expected) in [
        (ReadErrorKind::ConnectionClosed, EndReport::ClosedByPeer),
        (
            ReadErrorKind::ResetWithoutClosingHandshake,
            EndReport::ResetByPeer,
        ),
        (ReadErrorKind::ConnectionReset, EndReport::Dropped),
        (ReadErrorKind::ConnectionAborted, EndReport::Dropped),
        (ReadErrorKind::BrokenPipe, EndReport::Dropped),
        (ReadErrorKind::UnexpectedEof, EndReport::Dropped),
        (ReadErrorKind::Other, EndReport::ReadFailed),
    ] {
        assert_eq!(report(ReaderEvent::Failed(kind)), expected);
    }
}

#[test]
fn upload_chunks_make_up_the_object() {
    for len in [0, 1, UPLOAD_CHUNK_BYTES, UPLOAD_CHUNK_BYTES + 1, 200_000] {
        let bytes: Vec<u8> = (0..len).map(|i| (i % 251) as u8).collect();
        let mut cursor = UploadCursor::new(bytes.len());
        let mut sent = Vec::new();
        while let Some((start, end)) = cursor.next_chunk() {
            assert!(start < end && end - start <= 64 * 1024);
            sent.extend_from_slice(&bytes[start..end]);
        }
        assert_eq!(sent, bytes);
        assert_eq!(cursor.next_chunk(), None);
    }
}

#[test]
fn object_key_is_taken_from_the_reply() {
    assert_eq!(
        object_key_from_reply(br#"{"ok":true,"object_key":"rooms/default/m1"}"#),
        Ok("rooms/default/m1".to_string())
    );
    for reply in [&b"{}"[..], b"[]", br#"{"object_key":7}"#, b"null"] {
        assert_eq!(
            object_key_from_reply(reply),
            Err(TransferError::MissingObjectKey)
        );
    }
    for reply in [&b""[..], b"{", b"not json"] {
        assert_eq!(
            object_key_from_reply(reply),
            Err(TransferError::InvalidReply)
        );
    }
}

#[test]
fn object_key_needs_a_member() {
    assert_eq!(
        take_object_key(Some(Some("k".to_string()))),
        Ok("k".to_string())
    );
    assert_eq!(
        take_object_key(Some(None)),
        Err(TransferError::MissingObjectKey)
    );
    assert_eq!(take_object_key(None), Err(TransferError::InvalidReply));
}

#[test]
fn download_collects_what_comes() {
    let mut download = Download::start(Some(5)).unwrap();
    assert_eq!(download.expected_len(), 5);
    assert_eq!(download.accept(b"he"), 2);
    assert_eq!(download.accept(b""), 2);
    assert_eq!(download.accept(b"llo"), 5);
    assert_eq!(download.finish(), b"hello");
}

#[test]
fn download_needs_a_content_length() {
    assert_eq!(
        Download::start(None).err(),
        Some(TransferError::MissingContentLength)
    );
}
