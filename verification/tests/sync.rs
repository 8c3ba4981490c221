use rustclipsync::clipboard::ClipboardItem;
use rustclipsync::config::ClientConfig;
use rustclipsync::protocol::{
    ClientWsMessage, PayloadKind, RelayMessage, RelayPayload, ServerWsMessage,
};
use rustclipsync::security::calculate_bytes_hash;
use rustclipsync::sync::{
    announcement, apply_downloaded, apply_step, apply_written, bytes_from_inline_message,
    expires_at_24h, hash_prefix, is_sendable_file, local_payload_for_item, local_payload_with_id,
    local_step, matches_announcement, payload_source, receive_step, route_for_size, send_step,
    session_step, validate_remote_bytes, ApplyError, ApplyStep, EchoGuard, FileReading,
    LocalEvent, LocalPayload, LocalStep, OutgoingPayloadRoute, PayloadError, PayloadSource,
    ReceiveStep, SendStep, SessionEvent, SessionStep, INLINE_PAYLOAD_LIMIT_BYTES,
    R2_PAYLOAD_LIMIT_BYTES, RECEIVE_CLEANUP_INTERVAL_SECS, RECEIVE_FILE_RETENTION_SECS,
};

fn test_config() -> ClientConfig {
    ClientConfig {
        server_url: "http://127.0.0.1:7878".to_string(),
        client_id: "client-a".to_string(),
        client_name: "Client A".to_string(),
        auth_token: "secret".to_string(),
        poll_interval_ms: 300,
        receive_dir: "receive".to_string(),
        max_payload_bytes: R2_PAYLOAD_LIMIT_BYTES,
    }
}

fn path() -> ClipboardItem {
    ClipboardItem::FilePath(b"/tmp/sample.bin".to_vec())
}

fn sparse_test_file(len: usize) -> FileReading {
    FileReading::File {
        len: len as u64,
        contents: Some(vec![0; len]),
        name: Some("sample.bin".to_string()),
    }
}

fn inline(text: &str, payload_hash: String) -> RelayMessage {
    RelayMessage {
        sequence: 1,
        source: "client-b".to_string(),
        message_id: "m1".to_string(),
        kind: PayloadKind::Text,
        payload_hash,
        filename: None,
        payload: RelayPayload::Inline {
            bytes_base64: text.to_string(),
        },
    }
}

fn stored(kind: PayloadKind, filename: Option<&str>, bytes: &[u8]) -> RelayMessage {
    RelayMessage {
        sequence: 1,
        source: "client-b".to_string(),
        message_id: "m1".to_string(),
        kind,
        payload_hash: calculate_bytes_hash(bytes),
        filename: filename.map(str::to_string),
        payload: RelayPayload::R2 {
            object_key: "k".to_string(),
            size: bytes.len(),
            expires_at: 0,
        },
    }
}

fn payload_of(item: ClipboardItem) -> LocalPayload {
    local_payload_with_id(item, FileReading::NotAFile, "m1".to_string())
        .unwrap()
        .unwrap()
}

#[test]
fn text_payload_uses_inline_route() {
    let config = test_config();
    let payload = local_payload_for_item(
        &config,
        ClipboardItem::Text("hello".to_string()),
        FileReading::NotAFile,
    )
    .unwrap()
    .unwrap();

    assert_eq!(payload.kind, PayloadKind::Text);
    assert_eq!(payload.bytes, b"hello");
    assert_eq!(payload.route, OutgoingPayloadRoute::Inline);
}

#[test]
fn hundred_kb_file_uses_inline_route() {
    let config = test_config();
    let payload =
        local_payload_for_item(&config, path(), sparse_test_file(INLINE_PAYLOAD_LIMIT_BYTES))
            .unwrap()
            .unwrap();

    assert_eq!(payload.kind, PayloadKind::File);
    assert_eq!(payload.filename.as_deref(), Some("sample.bin"));
    assert_eq!(payload.bytes.len(), INLINE_PAYLOAD_LIMIT_BYTES);
    assert_eq!(payload.route, OutgoingPayloadRoute::Inline);
}

#[test]
fn file_above_hundred_kb_uses_r2_route() {
    let config = test_config();
    let file = sparse_test_file(INLINE_PAYLOAD_LIMIT_BYTES + 1);
    let payload = local_payload_for_item(&config, path(), file)
        .unwrap()
        .unwrap();

    assert_eq!(payload.kind, PayloadKind::File);
    assert_eq!(payload.bytes.len(), INLINE_PAYLOAD_LIMIT_BYTES + 1);
    assert_eq!(payload.route, OutgoingPayloadRoute::R2);
}

#[test]
fn file_above_one_hundred_mb_is_rejected() {
    let config = test_config();
    let file = FileReading::File {
        len: (R2_PAYLOAD_LIMIT_BYTES + 1) as u64,
        contents: None,
        name: Some("sample.bin".to_string()),
    };
    let payload = local_payload_for_item(&config, path(), file).unwrap();

    assert!(payload.is_none());
    assert!(!is_sendable_file((R2_PAYLOAD_LIMIT_BYTES + 1) as u64));
    assert!(is_sendable_file(R2_PAYLOAD_LIMIT_BYTES as u64));
}

#[test]
fn missing_file_path_returns_none() {
    let config = test_config();
    let payload = local_payload_for_item(&config, path(), FileReading::NotAFile).unwrap();

    assert!(payload.is_none());
}

#[test]
fn inline_text_message_decodes_to_bytes() {
    let message = inline("aGVsbG8=", calculate_bytes_hash(b"hello"));

    let bytes = bytes_from_inline_message(&message).unwrap().unwrap();

    assert_eq!(bytes, b"hello");
}

#[test]
fn hash_mismatch_is_rejected_before_apply() {
    let message = inline("aGVsbG8=", "bad".to_string());

    assert!(bytes_from_inline_message(&message).unwrap().is_none());
    assert!(matches!(
        apply_step(&message, b"hello".to_vec()),
        Ok(ApplyStep::Skip)
    ));
}

#[test]
fn limits_are_the_documented_ones() {
    assert_eq!(INLINE_PAYLOAD_LIMIT_BYTES, 10_485_760);
    assert_eq!(R2_PAYLOAD_LIMIT_BYTES, 104_857_600);
    assert_eq!(RECEIVE_FILE_RETENTION_SECS, 86_400);
    assert_eq!(RECEIVE_CLEANUP_INTERVAL_SECS, 3_600);
}

#[test]
fn routes_change_at_the_limits() {
    let inline = Some(OutgoingPayloadRoute::Inline);
    let r2 = Some(OutgoingPayloadRoute::R2);
    assert_eq!(route_for_size(0), inline);
    assert_eq!(route_for_size(10 * 1024 * 1024), inline);
    assert_eq!(route_for_size(10 * 1024 * 1024 + 1), r2);
    assert_eq!(route_for_size(100 * 1024 * 1024), r2);
    assert_eq!(route_for_size(100 * 1024 * 1024 + 1), None);
}

#[test]
fn unreadable_files_are_errors() {
    let make = |file| local_payload_with_id(path(), file, "m1".to_string());
    assert_eq!(
        make(FileReading::Unreadable),
        Err(PayloadError::UnreadableFile)
    );
    let unread = FileReading::File {
        len: 3,
        contents: None,
        name: None,
    };
    assert_eq!(make(unread), Err(PayloadError::UnreadableFile));
}

#[test]
fn payloads_carry_id_and_hash() {
    let payload = payload_of(ClipboardItem::ImagePng(b"png".to_vec()));
    assert_eq!(
        payload,
        LocalPayload {
            message_id: "m1".to_string(),
            kind: PayloadKind::ImagePng,
            payload_hash: calculate_bytes_hash(b"png"),
            filename: None,
            bytes: b"png".to_vec(),
            route: OutgoingPayloadRoute::Inline,
        }
    );
}

#[test]
fn message_ids_are_fresh_uuids() {
    let id = || {
        let item = ClipboardItem::Text("hello".to_string());
        local_payload_for_item(&test_config(), item, FileReading::NotAFile)
            .unwrap()
            .unwrap()
            .message_id
    };
    let (first, second) = (id(), id());
    assert_ne!(first, second);
    assert_eq!(first.len(), 36);
    assert_eq!(first.as_bytes()[14], b'4');
    for i in [8, 13, 18, 23] {
        assert_eq!(first.as_bytes()[i], b'-');
    }
}

#[test]
fn what_was_pushed_or_applied_is_not_pushed_again() {
    let mut guard = EchoGuard::new();
    let hello = payload_of(ClipboardItem::Text("hello".to_string()));
    assert!(guard.should_push(&hello));
    guard.record(hello.payload_hash.clone());
    assert!(!guard.should_push(&hello));
    let world = payload_of(ClipboardItem::Text("world".to_string()));
    assert!(guard.should_push(&world));

    let message = inline("d29ybGQ=", calculate_bytes_hash(b"world"));
    match apply_step(&message, b"world".to_vec()) {
        Ok(ApplyStep::WriteItem { item, payload_hash }) => {
            guard.record(payload_hash);
            assert!(!guard.should_push(&payload_of(item)));
        }
        _ => panic!("not an item"),
    }
}

#[test]
fn small_payloads_are_published_inline() {
    let payload = payload_of(ClipboardItem::Text("hello".to_string()));
    let hash = payload.payload_hash.clone();
    match send_step(payload) {
        SendStep::Publish(message) => assert_eq!(
            message,
            ClientWsMessage::PublishInline {
                message_id: "m1".to_string(),
                kind: PayloadKind::Text,
                payload_hash: hash,
                filename: None,
                bytes_base64: "aGVsbG8=".to_string(),
            }
        ),
        SendStep::Upload { .. } => panic!("not inline"),
    }
}

#[test]
fn large_payloads_are_uploaded_and_announced() {
    let large = LocalPayload {
        message_id: "m1".to_string(),
        kind: PayloadKind::File,
        payload_hash: "hash".to_string(),
        filename: Some("a.bin".to_string()),
        bytes: b"hello".to_vec(),
        route: OutgoingPayloadRoute::R2,
    };
    let upload = |payload| match send_step(payload) {
        SendStep::Upload { pending, bytes } => (pending, bytes),
        SendStep::Publish(_) => panic!("not uploaded"),
    };
    let (pending, bytes) = upload(large.clone());
    assert_eq!(bytes, b"hello");
    assert_eq!(
        announcement(pending, Some("key".to_string()), 1000),
        Some(ClientWsMessage::PublishR2 {
            message_id: "m1".to_string(),
            kind: PayloadKind::File,
            payload_hash: "hash".to_string(),
            filename: Some("a.bin".to_string()),
            object_key: "key".to_string(),
            size: 5,
            expires_at: 87_400,
        })
    );
    let (pending, _) = upload(large);
    assert_eq!(announcement(pending, None, 1000), None);
}

#[test]
fn objects_expire_after_a_day() {
    assert_eq!(expires_at_24h(0), 86_400);
    assert_eq!(expires_at_24h(-86_400), 0);
}

#[test]
fn sequence_numbers_are_kept_track_of() {
    let mut last_seen = 0;
    assert!(matches!(
        receive_step(
            &mut last_seen,
            ServerWsMessage::HelloAck { latest_sequence: 4 }
        ),
        ReceiveStep::Wait
    ));
    assert_eq!(last_seen, 4);
    let mut message = inline("aGVsbG8=", "hash".to_string());
    message.sequence = 7;
    assert!(matches!(
        receive_step(&mut last_seen, ServerWsMessage::Message(message.clone())),
        ReceiveStep::Apply(received) if received == message
    ));
    assert_eq!(last_seen, 7);
    let complaint = ServerWsMessage::Error {
        message: "no".to_string(),
    };
    assert!(matches!(
        receive_step(&mut last_seen, complaint),
        ReceiveStep::Warn(text) if text == "no"
    ));
    assert_eq!(last_seen, 7);
}

#[test]
fn payload_bytes_come_from_the_message_or_the_store() {
    let message = inline("aGVsbG8=", "hash".to_string());
    assert!(matches!(
        payload_source("client-a", &message),
        Ok(PayloadSource::Bytes(bytes)) if bytes == b"hello"
    ));
    assert!(matches!(
        payload_source("client-b", &message),
        Ok(PayloadSource::Own)
    ));
    let message = stored(PayloadKind::File, Some("a.txt"), b"hello");
    assert!(matches!(
        payload_source("client-a", &message),
        Ok(PayloadSource::Download)
    ));
    let message = inline("no base64!", "hash".to_string());
    assert_eq!(
        payload_source("client-a", &message).err(),
        Some(ApplyError::InvalidBase64)
    );
    assert_eq!(
        bytes_from_inline_message(&message),
        Err(ApplyError::InvalidBase64)
    );
    assert!(matches!(
        payload_source("client-b", &message),
        Ok(PayloadSource::Own)
    ));
}

#[test]
fn stored_objects_are_no_inline_bytes() {
    let message = stored(PayloadKind::File, Some("a.txt"), b"hello");
    assert_eq!(bytes_from_inline_message(&message), Ok(None));
}

#[test]
fn stored_objects_must_have_the_announced_size() {
    let mut message = stored(PayloadKind::File, Some("a.txt"), b"hello");
    assert_eq!(
        validate_remote_bytes(&message, b"hello".to_vec()),
        Some(b"hello".to_vec())
    );
    message.payload = RelayPayload::R2 {
        object_key: "k".to_string(),
        size: 6,
        expires_at: 0,
    };
    assert_eq!(validate_remote_bytes(&message, b"hello".to_vec()), None);
    assert!(!matches_announcement(&message, &message.payload_hash, 5));
    assert!(matches_announcement(&message, &message.payload_hash, 6));
    assert!(!matches_announcement(&message, "other", 6));
}

#[test]
fn texts_and_images_go_onto_the_clipboard() {
    let message = stored(PayloadKind::Text, None, "h\u{e9}".as_bytes());
    assert!(matches!(
        apply_step(&message, "h\u{e9}".as_bytes().to_vec()),
        Ok(ApplyStep::WriteItem { item: ClipboardItem::Text(text), payload_hash })
            if text == "h\u{e9}" && payload_hash == message.payload_hash
    ));
    let message = stored(PayloadKind::ImagePng, None, b"png");
    assert!(matches!(
        apply_step(&message, b"png".to_vec()),
        Ok(ApplyStep::WriteItem { item: ClipboardItem::ImagePng(png), payload_hash })
            if png == b"png" && payload_hash == message.payload_hash
    ));
}

#[test]
fn files_are_saved() {
    let message = stored(PayloadKind::File, Some("../a.txt"), b"hello");
    assert!(matches!(
        apply_downloaded(&message, Some(b"hello".to_vec())),
        Ok(ApplyStep::SaveFile { filename, bytes }) if filename == "../a.txt" && bytes == b"hello"
    ));
    assert!(matches!(
        apply_downloaded(&message, None),
        Ok(ApplyStep::Skip)
    ));
    let message = stored(PayloadKind::File, None, b"hello");
    assert_eq!(
        apply_step(&message, b"hello".to_vec()).err(),
        Some(ApplyError::MissingFilename)
    );
}

#[test]
fn texts_must_be_utf8() {
    let message = stored(PayloadKind::Text, None, b"\xff");
    assert_eq!(
        apply_step(&message, b"\xff".to_vec()).err(),
        Some(ApplyError::InvalidUtf8)
    );
}

#[test]
fn what_is_copied_is_what_is_pasted() {
    let payload = payload_of(ClipboardItem::Text("gr\u{fc}\u{df}e".to_string()));
    let message = match send_step(payload) {
        SendStep::Publish(ClientWsMessage::PublishInline {
            message_id,
            kind,
            payload_hash,
            filename,
            bytes_base64,
        }) => RelayMessage {
            sequence: 1,
            source: "client-a".to_string(),
            message_id,
            kind,
            payload_hash,
            filename,
            payload: RelayPayload::Inline { bytes_base64 },
        },
        _ => panic!("not inline"),
    };
    let bytes = match payload_source("client-b", &message) {
        Ok(PayloadSource::Bytes(bytes)) => bytes,
        _ => panic!("not inline"),
    };
    assert!(matches!(
        apply_step(&message, bytes),
        Ok(ApplyStep::WriteItem { item: ClipboardItem::Text(text), .. })
            if text == "gr\u{fc}\u{df}e"
    ));
}

#[test]
fn clients_reconnect_until_their_clipboard_is_gone() {
    let again = SessionStep::Reconnect { delay_secs: 2 };
    assert_eq!(session_step(0, SessionEvent::ConnectFailed), (again, 1));
    assert_eq!(session_step(7, SessionEvent::ForwarderEnded), (again, 0));
    assert_eq!(session_step(7, SessionEvent::ReceiverEnded), (again, 0));
    assert_eq!(
        session_step(7, SessionEvent::LocalTaskEnded),
        (SessionStep::Stop, 7)
    );
}

#[test]
fn failed_attempts_double_the_delay_up_to_a_minute() {
    let mut failures = 0;
    let mut delays = Vec::new();
    for _ in 0..8 {
        let (step, failed) = session_step(failures, SessionEvent::ConnectFailed);
        failures = failed;
        match step {
            SessionStep::Reconnect { delay_secs } => delays.push(delay_secs),
            SessionStep::Stop => panic!("the client gave up"),
        }
    }
    assert_eq!(delays, vec![2, 4, 8, 16, 32, 60, 60, 60]);
    assert_eq!(failures, 8);
    assert_eq!(
        session_step(u32::MAX, SessionEvent::ConnectFailed),
        (SessionStep::Reconnect { delay_secs: 60 }, u32::MAX)
    );
}

#[test]
fn failed_writes_are_not_recorded() {
    let mut guard = EchoGuard::new();
    let hello = payload_of(ClipboardItem::Text("hello".to_string()));
    let hash = hello.payload_hash.clone();
    assert!(!apply_written(&mut guard, hash.clone(), false));
    assert!(guard.should_push(&hello));
    assert!(apply_written(&mut guard, hash, true));
    assert!(!guard.should_push(&hello));
    assert!(!apply_written(&mut guard, "other".to_string(), false));
    assert!(!guard.should_push(&hello));
}

#[test]
fn no_hash_is_sent_twice_in_a_row() {
    let mut guard = EchoGuard::new();
    let mut sent = Vec::new();
    for text in ["a", "a", "b", "b", "a", "a", "c"] {
        let payload = payload_of(ClipboardItem::Text(text.to_string()));
        if let LocalStep::Send(payload) = local_step(&mut guard, LocalEvent::Shown(payload)) {
            sent.push(text);
            let payload_hash = payload.payload_hash;
            local_step(&mut guard, LocalEvent::Sent { payload_hash });
        }
    }
    assert_eq!(sent, vec!["a", "b", "a", "c"]);
}

#[test]
fn hashes_are_logged_by_their_first_bytes() {
    assert_eq!(hash_prefix("0123456789"), "01234567");
    assert_eq!(hash_prefix("01234567"), "01234567");
    assert_eq!(hash_prefix("bad"), "bad");
    assert_eq!(hash_prefix("0123456\u{e9}"), "0123456\u{e9}");
}

#[test]
fn the_watch_sends_news_and_waits() {
    let mut guard = EchoGuard::new();
    let hello = payload_of(ClipboardItem::Text("hello".to_string()));
    assert!(matches!(
        local_step(&mut guard, LocalEvent::Changed),
        LocalStep::Look
    ));
    assert!(matches!(
        local_step(&mut guard, LocalEvent::Nothing),
        LocalStep::Wait
    ));
    assert!(matches!(
        local_step(&mut guard, LocalEvent::Shown(hello.clone())),
        LocalStep::Send(payload) if payload == hello
    ));
    let sent = LocalEvent::Sent {
        payload_hash: hello.payload_hash.clone(),
    };
    assert!(matches!(local_step(&mut guard, sent), LocalStep::Wait));
    assert!(matches!(
        local_step(&mut guard, LocalEvent::Shown(hello)),
        LocalStep::Wait
    ));
    assert!(matches!(
        local_step(&mut guard, LocalEvent::Unwanted),
        LocalStep::Stop
    ));
}
