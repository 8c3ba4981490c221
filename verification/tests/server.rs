use rustclipsync::protocol::{PayloadKind, PushRequest, RelayPayload};
use rustclipsync::security::calculate_bytes_hash;
use rustclipsync::server::{
    authorize, inline_payload_size, json_body_limit, judge_payload, pull, push, AppState,
    IncomingMessage, MessageQueue, PullQuery, Refusal,
};

fn test_message(message_id: &str, bytes: &[u8]) -> IncomingMessage {
    IncomingMessage {
        source: "client-a".to_string(),
        message_id: message_id.to_string(),
        kind: PayloadKind::Text,
        payload_hash: calculate_bytes_hash(bytes),
        filename: None,
        bytes: bytes.to_vec(),
    }
}

fn ids(queue: &MessageQueue, client_id: &str, after: u64) -> Vec<String> {
    queue
        .pull(client_id, after)
        .messages
        .iter()
        .map(|message| message.message_id.clone())
        .collect()
}

fn state(max_payload_bytes: usize) -> AppState {
    AppState {
        auth_token: "secret".to_string(),
        max_payload_bytes,
        queue: MessageQueue::new(100, 1024),
    }
}

fn request(kind: PayloadKind, filename: Option<&str>, bytes_base64: &str) -> PushRequest {
    PushRequest {
        client_id: "client-a".to_string(),
        message_id: "m1".to_string(),
        kind,
        payload_hash: calculate_bytes_hash(b"hello"),
        filename: filename.map(str::to_string),
        bytes_base64: bytes_base64.to_string(),
    }
}

#[test]
fn queue_assigns_sequence_and_excludes_self() {
    let mut queue = MessageQueue::new(100, 1024);
    let msg = IncomingMessage {
        source: "client-a".to_string(),
        message_id: "m1".to_string(),
        kind: PayloadKind::Text,
        payload_hash: calculate_bytes_hash(b"hello"),
        filename: None,
        bytes: b"hello".to_vec(),
    };

    let sequence = queue.push(msg);
    let for_b = queue.pull("client-b", 0);
    let for_a = queue.pull("client-a", 0);

    assert_eq!(sequence, 1);
    assert_eq!(for_b.messages.len(), 1);
    assert_eq!(for_a.messages.len(), 0);
    assert_eq!(for_b.latest_sequence, 1);
}

#[test]
fn queue_evicts_old_messages_by_message_count() {
    let mut queue = MessageQueue::new(2, 1024);

    queue.push(test_message("m1", b"one"));
    queue.push(test_message("m2", b"two"));
    queue.push(test_message("m3", b"three"));

    let response = queue.pull("client-b", 0);
    let ids: Vec<_> = response
        .messages
        .iter()
        .map(|message| message.message_id.as_str())
        .collect();
    assert_eq!(ids, vec!["m2", "m3"]);
}

#[test]
fn queue_evicts_old_messages_by_encoded_bytes() {
    let mut queue = MessageQueue::new(100, 8);

    queue.push(test_message("m1", b"abc"));
    queue.push(test_message("m2", b"def"));
    queue.push(test_message("m3", b"ghi"));

    let response = queue.pull("client-b", 0);
    let ids: Vec<_> = response
        .messages
        .iter()
        .map(|message| message.message_id.as_str())
        .collect();
    assert_eq!(ids, vec!["m2", "m3"]);
}

#[test]
fn json_body_limit_allows_base64_overhead() {
    let limit = json_body_limit(10 * 1024 * 1024);
    assert!(limit > 13 * 1024 * 1024);
}

#[test]
fn json_body_limit_rounds_up() {
    assert_eq!(json_body_limit(0), 4096);
    assert_eq!(json_body_limit(1), 4098);
    assert_eq!(json_body_limit(3), 4100);
    assert_eq!(json_body_limit(10 * 1024 * 1024), 13_985_110);
}

#[test]
fn the_newest_message_stays_whatever_its_size() {
    let mut queue = MessageQueue::new(0, 0);
    queue.push(test_message("m1", b"one"));
    queue.push(test_message("m2", b"two"));
    assert_eq!(ids(&queue, "client-b", 0), vec!["m2"]);
    assert_eq!(queue.pull("client-b", 0).latest_sequence, 2);
}

#[test]
fn the_queue_holds_the_longest_suffix_within_its_limits() {
    let mut queue = MessageQueue::new(3, 16);
    for (id, len, kept) in [
        ("m1", 3, vec!["m1"]),
        ("m2", 3, vec!["m1", "m2"]),
        ("m3", 6, vec!["m1", "m2", "m3"]),
        ("m4", 3, vec!["m2", "m3", "m4"]),
        ("m5", 30, vec!["m5"]),
        ("m6", 3, vec!["m6"]),
        ("m7", 9, vec!["m6", "m7"]),
    ] {
        queue.push(test_message(id, &vec![0; len]));
        assert_eq!(ids(&queue, "client-b", 0), kept);
    }
}

#[test]
fn pull_gives_newer_messages_only() {
    let mut queue = MessageQueue::new(100, 1024);
    assert_eq!(queue.pull("client-b", 0).latest_sequence, 0);
    queue.push(test_message("m1", b"one"));
    queue.push(test_message("m2", b"two"));
    assert_eq!(ids(&queue, "client-b", 1), vec!["m2"]);
    assert!(ids(&queue, "client-b", 2).is_empty());
    queue.push(test_message("m3", b"three"));
    assert_eq!(ids(&queue, "client-b", 2), vec!["m3"]);
    assert!(ids(&queue, "client-a", 2).is_empty());
}

#[test]
fn queued_payloads_are_base64() {
    let mut queue = MessageQueue::new(100, 1024);
    queue.push(test_message("m1", b"hello"));
    let response = queue.pull("client-b", 0);
    assert_eq!(
        response.messages[0].payload,
        RelayPayload::Inline {
            bytes_base64: "aGVsbG8=".to_string()
        }
    );
}

#[test]
fn queue_knows_its_room() {
    let mut queue = MessageQueue::new(100, 1024);
    assert!(queue.has_room(usize::MAX));
    queue.push(test_message("m1", b"hello"));
    assert!(queue.has_room(usize::MAX - 8));
    assert!(!queue.has_room(usize::MAX - 7));
}

#[test]
fn stored_objects_take_no_room() {
    let stored = RelayPayload::R2 {
        object_key: "k".to_string(),
        size: 7,
        expires_at: 0,
    };
    assert_eq!(inline_payload_size(&stored), 0);
    let inline = RelayPayload::Inline {
        bytes_base64: "aGVsbG8=".to_string(),
    };
    assert_eq!(inline_payload_size(&inline), 8);
}

#[test]
fn only_the_right_token_is_authorized() {
    assert_eq!(authorize("secret", Some("Bearer secret")), Ok(()));
    for wrong in [
        None,
        Some("Bearer other"),
        Some("secret"),
        Some("bearer secret"),
        Some("Bearer secret "),
    ] {
        assert_eq!(authorize("secret", wrong), Err(Refusal::Unauthorized));
    }
}

#[test]
fn accepted_push_is_pulled_by_others() {
    let mut state = state(5);
    let accepted = push(
        &mut state,
        Some("Bearer secret"),
        request(PayloadKind::Text, None, "aGVsbG8="),
    );
    assert_eq!(accepted.unwrap().sequence, 1);
    let query = PullQuery {
        client_id: "client-b".to_string(),
        after: 0,
    };
    let answer = pull(&state, Some("Bearer secret"), &query).unwrap();
    assert_eq!(answer.messages.len(), 1);
    assert_eq!(answer.messages[0].source, "client-a");
    assert_eq!(
        answer.messages[0].payload,
        RelayPayload::Inline {
            bytes_base64: "aGVsbG8=".to_string()
        }
    );
    assert_eq!(pull(&state, None, &query), Err(Refusal::Unauthorized));
}

#[test]
fn refused_push_leaves_the_queue_alone() {
    let text = |bytes_base64| request(PayloadKind::Text, None, bytes_base64);
    let bearer = Some("Bearer secret");
    let mut relay = state(5);
    assert_eq!(
        push(&mut relay, None, text("aGVsbG8=")),
        Err(Refusal::Unauthorized)
    );
    assert_eq!(
        push(&mut relay, bearer, text("no base64!")),
        Err(Refusal::BadRequest)
    );
    assert_eq!(
        push(&mut relay, bearer, text("aGVsbG8hIQ==")),
        Err(Refusal::PayloadTooLarge)
    );
    assert_eq!(
        push(&mut relay, bearer, text("d29ybGQ=")),
        Err(Refusal::BadRequest)
    );
    for filename in [None, Some("")] {
        assert_eq!(
            push(
                &mut relay,
                bearer,
                request(PayloadKind::File, filename, "aGVsbG8=")
            ),
            Err(Refusal::BadRequest)
        );
    }
    assert_eq!(relay.queue.pull("client-b", 0).latest_sequence, 0);
    let named = request(PayloadKind::File, Some("a.txt"), "aGVsbG8=");
    assert_eq!(push(&mut relay, bearer, named).unwrap().sequence, 1);
}

#[test]
fn size_is_judged_before_the_hash() {
    let request = request(PayloadKind::Text, None, "");
    assert_eq!(
        judge_payload(4, &request, 5, "other"),
        Some(Refusal::PayloadTooLarge)
    );
    assert_eq!(
        judge_payload(5, &request, 5, "other"),
        Some(Refusal::BadRequest)
    );
    let hash = request.payload_hash.clone();
    assert_eq!(judge_payload(5, &request, 5, &hash), None);
}

#[test]
fn refusals_have_their_status() {
    assert_eq!(Refusal::Unauthorized.status_code(), 401);
    assert_eq!(Refusal::BadRequest.status_code(), 400);
    assert_eq!(Refusal::PayloadTooLarge.status_code(), 413);
}
