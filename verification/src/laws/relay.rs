//! The HTTP relay: what it accepts, what it keeps, and what it hands out.

use crate::codec::{base64_bytes, base64_len, base64_text};
use crate::protocol::{
    messages_view, PayloadKind, PullResponse, PushRequest, PushRequestView, PushResponse,
    RelayMessageView, RelayPayload, RelayPayloadView,
};
use crate::security::bytes_hash;
use crate::server::{
    authorize, body_limit, decoded_verdict, eviction_keeps_the_newest, incoming,
    inline_payload_size, is_authorized, json_body_limit, judge_payload, over_limits,
    payload_verdict, pull_hands_out_news_only, pull_misses_nothing,
    pulled_messages_are_in_order, push_decoded, push_verdict, refusal_status, total_size,
    AppState, IncomingMessage, IncomingMessageView, MessageQueue, PullQuery, QueueView, Refusal,
};
use crate::text::optional_text;
use vstd::prelude::*;
use vstd::utf8::encode_utf8;

verus! {

/// Only the very bearer value of the token is let in.
pub proof fn only_the_token_is_let_in(token: Seq<char>, authorization: Option<Seq<char>>)
    ensures
        is_authorized(token, authorization) <==> authorization == Some(
            seq!['B', 'e', 'a', 'r', 'e', 'r', ' '] + token,
        ),
{
    reveal_strlit("Bearer ");
    assert("Bearer "@ =~= seq!['B', 'e', 'a', 'r', 'e', 'r', ' ']);
}

/// A payload is accepted exactly when it is not too large, has the announced hash and, if it is a
/// file, has a name. One that is too large is refused for that, and any other as a bad request.
pub proof fn payloads_are_accepted_by_size_hash_and_name(
    max: nat,
    request: PushRequestView,
    len: nat,
    hash: Seq<char>,
)
    ensures
        payload_verdict(max, request, len, hash) is None <==> {
            &&& len <= max
            &&& hash == request.payload_hash
            &&& request.kind != PayloadKind::File || (request.filename is Some
                && request.filename->0.len() > 0)
        },
        payload_verdict(max, request, len, hash) == Some(Refusal::PayloadTooLarge) <==> len > max,
        payload_verdict(max, request, len, hash) != Some(Refusal::Unauthorized),
{
}

/// A push is accepted exactly when it carries the token and a text that decodes to a payload that
/// is not too large, has the announced hash and, if it is a file, has a name.
pub proof fn pushes_are_accepted_by_token_and_payload(
    token: Seq<char>,
    max: nat,
    authorization: Option<Seq<char>>,
    request: PushRequestView,
)
    ensures
        ({
            let verdict = push_verdict(token, max, authorization, request);
            let bearer = Some(seq!['B', 'e', 'a', 'r', 'e', 'r', ' '] + token);
            &&& verdict == Some(Refusal::Unauthorized) <==> authorization != bearer
            &&& authorization == bearer ==> match base64_bytes(request.bytes_base64) {
                None => verdict == Some(Refusal::BadRequest),
                Some(bytes) => {
                    &&& verdict is None <==> {
                        &&& bytes.len() <= max
                        &&& bytes_hash(bytes) == request.payload_hash
                        &&& request.kind != PayloadKind::File || (request.filename is Some
                            && request.filename->0.len() > 0)
                    }
                    &&& verdict == Some(Refusal::PayloadTooLarge) <==> bytes.len() > max
                },
            }
        }),
{
    only_the_token_is_let_in(token, authorization);
    if let Some(bytes) = base64_bytes(request.bytes_base64) {
        payloads_are_accepted_by_size_hash_and_name(max, request, bytes.len(), bytes_hash(bytes));
    }
}

/// Decoded bytes are judged by their own length and hash; bytes that could not be decoded are a bad
/// request.
pub proof fn decoded_bytes_are_judged(max: nat, request: PushRequestView, bytes: Seq<u8>)
    ensures
        decoded_verdict(max, request, None) == Some(Refusal::BadRequest),
        decoded_verdict(max, request, Some(bytes)) is None <==> {
            &&& bytes.len() <= max
            &&& bytes_hash(bytes) == request.payload_hash
            &&& request.kind != PayloadKind::File || (request.filename is Some
                && request.filename->0.len() > 0)
        },
        decoded_verdict(max, request, Some(bytes)) == Some(Refusal::PayloadTooLarge)
            <==> bytes.len() > max,
        decoded_verdict(max, request, Some(bytes)) != Some(Refusal::Unauthorized),
{
}

/// Refusals are reported under these statuses.
pub proof fn refusals_have_these_statuses()
    ensures
        refusal_status(Refusal::Unauthorized) == 401,
        refusal_status(Refusal::BadRequest) == 400,
        refusal_status(Refusal::PayloadTooLarge) == 413,
{
}

/// An accepted request goes into the queue as its sender's, with everything that it carries.
pub proof fn accepted_requests_keep_their_parts(request: PushRequestView, bytes: Seq<u8>)
    ensures
        incoming(request, bytes).source == request.client_id,
        incoming(request, bytes).message_id == request.message_id,
        incoming(request, bytes).kind == request.kind,
        incoming(request, bytes).payload_hash == request.payload_hash,
        incoming(request, bytes).filename == request.filename,
        incoming(request, bytes).bytes == bytes,
{
}

/// The size of a run of messages grows with every message by the bytes of its text, and not at all
/// by a stored object.
pub proof fn size_grows_by_the_text(messages: Seq<RelayMessageView>, message: RelayMessageView)
    ensures
        total_size(Seq::empty()) == 0,
        total_size(messages.push(message)) == total_size(messages) + match message.payload {
            RelayPayloadView::Inline { bytes_base64 } => encode_utf8(bytes_base64).len(),
            RelayPayloadView::R2 { .. } => 0,
        },
    decreases messages.len(),
{
    if messages.len() == 0 {
        assert(messages.push(message).drop_first() =~= messages);
    } else {
        size_grows_by_the_text(messages.drop_first(), message);
        assert(messages.push(message).drop_first() =~= messages.drop_first().push(message));
    }
}

/// A run of messages is over the limits when there are at least two, and they are more than may be
/// kept or larger than may be kept.
pub proof fn limits_are_on_count_and_size(messages: Seq<RelayMessageView>, max: nat, bytes: nat)
    ensures
        over_limits(messages, max, bytes) <==> messages.len() >= 2 && (messages.len() > max
            || total_size(messages) > bytes),
{
}

/// A push puts the message behind the others, under the next number and as base64, and drops the
/// oldest messages that the limits leave no room for, and no others.
pub proof fn push_keeps_the_newest_that_fit(queue: QueueView, message: IncomingMessageView)
    ensures
        ({
            let entry = RelayMessageView {
                sequence: queue.next_sequence as u64,
                source: message.source,
                message_id: message.message_id,
                kind: message.kind,
                payload_hash: message.payload_hash,
                filename: message.filename,
                payload: RelayPayloadView::Inline { bytes_base64: base64_text(message.bytes) },
            };
            let all = queue.messages.push(entry);
            let after = queue.pushed(message);
            let gone = all.len() - after.messages.len();
            &&& after.next_sequence == queue.next_sequence + 1
            &&& after.max_messages == queue.max_messages
            &&& after.max_bytes == queue.max_bytes
            &&& after.queued_bytes == total_size(after.messages)
            &&& 0 < after.messages.len() <= all.len()
            &&& after.messages == all.skip(gone)
            &&& after.messages.len() == 1 || (after.messages.len() <= queue.max_messages
                && total_size(after.messages) <= queue.max_bytes)
            &&& forall|more: int|
                0 <= more < gone ==> {
                    let longer = #[trigger] all.skip(more);
                    longer.len() > queue.max_messages || total_size(longer) > queue.max_bytes
                }
        }),
{
    let entry = RelayMessageView {
        sequence: queue.next_sequence as u64,
        source: message.source,
        message_id: message.message_id,
        kind: message.kind,
        payload_hash: message.payload_hash,
        filename: message.filename,
        payload: RelayPayloadView::Inline { bytes_base64: base64_text(message.bytes) },
    };
    let all = queue.messages.push(entry);
    eviction_keeps_the_newest(all, queue.max_messages, queue.max_bytes);
}

/// A queued message is handed out exactly to the other clients that have not seen it.
pub proof fn messages_go_to_the_others_once(
    queue: QueueView,
    client_id: Seq<char>,
    after: u64,
    message: RelayMessageView,
)
    ensures
        queue.pulled(client_id, after).contains(message) <==> queue.messages.contains(message)
            && message.sequence > after && message.source != client_id,
{
    let pulled = queue.pulled(client_id, after);
    if pulled.contains(message) {
        let i = choose|i: int| 0 <= i < pulled.len() && pulled[i] == message;
        pull_hands_out_news_only(queue, client_id, after, i);
    }
    if queue.messages.contains(message) && message.sequence > after && message.source != client_id {
        let i = choose|i: int| 0 <= i < queue.messages.len() && queue.messages[i] == message;
        pull_misses_nothing(queue, client_id, after, i);
    }
}

/// The messages of a queue carry the latest numbers without a gap, its byte count is theirs, and
/// they are within the limits or a single one; and a queue of which this holds is in order.
pub proof fn queues_are_numbered_and_bounded(queue: QueueView)
    ensures
        queue.wf() <==> {
            &&& queue.messages.len() < queue.next_sequence
            &&& queue.messages.len() == 0 ==> queue.next_sequence == 1
            &&& forall|i: int|
                0 <= i < queue.messages.len() ==> (#[trigger] queue.messages[i]).sequence
                    == queue.next_sequence - queue.messages.len() + i
            &&& queue.queued_bytes == total_size(queue.messages)
            &&& queue.messages.len() <= 1 || (queue.messages.len() <= queue.max_messages
                && queue.queued_bytes <= queue.max_bytes)
        },
{
}

/// There is room for a message as long as its number and the byte count can be counted.
pub proof fn room_is_what_can_be_counted(queue: QueueView, size: nat)
    ensures
        queue.has_room(size) <==> queue.next_sequence < u64::MAX && queue.queued_bytes + size
            <= usize::MAX,
{
}

/// The body limit is four thirds of the payload limit, rounded up, and 4096 bytes.
pub proof fn body_limit_is_four_thirds(max: nat)
    ensures
        4 * max <= 3 * (body_limit(max) - 4096) < 4 * max + 3,
{
}

/// A request is let in exactly when it carries the bearer value of the token.
pub proof fn requests_need_the_token(
    token: &str,
    authorization: Option<&str>,
    allowed: Result<(), Refusal>,
)
    requires
        call_ensures(authorize, (token, authorization), allowed),
    ensures
        allowed is Ok <==> (authorization matches Some(value) && value@ == seq![
            'B',
            'e',
            'a',
            'r',
            'e',
            'r',
            ' ',
        ] + token@),
        allowed is Err ==> allowed == Err::<(), Refusal>(Refusal::Unauthorized),
{
    only_the_token_is_let_in(
        token@,
        match authorization {
            Some(value) => Some(value@),
            None => None,
        },
    );
}

/// A payload is judged by its size, its hash and, if it is a file, its name.
pub proof fn payloads_are_judged(
    max: usize,
    request: PushRequest,
    len: usize,
    hash: &str,
    refusal: Option<Refusal>,
)
    requires
        call_ensures(judge_payload, (max, &request, len, hash), refusal),
    ensures
        refusal == Some(Refusal::PayloadTooLarge) <==> len > max,
        refusal is None <==> len <= max && hash@ == request.payload_hash@ && (
        request.kind is File ==> (request.filename matches Some(name) && name@.len() > 0)),
        refusal != Some(Refusal::Unauthorized),
{
}

/// A push is accepted exactly when it carries the token and a text that decodes to a payload within
/// the limit, with the announced hash and, for a file, with a name. An accepted push is the newest
/// message, under the number that is answered, with all that the request carries; a refused one
/// leaves the queue as it is.
pub proof fn pushes_are_queued_or_refused(
    state: &mut AppState,
    authorization: Option<&str>,
    request: PushRequest,
    response: Result<PushResponse, Refusal>,
)
    requires
        old(state).queue@.wf(),
        old(state).queue@.has_room(request.bytes_base64@.len()),
        call_ensures(crate::server::push, (state, authorization, request), response),
    ensures
        ({
            let before = old(state).queue@;
            let after = final(state).queue@;
            let allowed = authorization is Some && authorization->0@ == seq![
                'B',
                'e',
                'a',
                'r',
                'e',
                'r',
                ' ',
            ] + old(state).auth_token@;
            let decoded = base64_bytes(request.bytes_base64@);
            let accepted = {
                &&& allowed
                &&& decoded is Some
                &&& decoded->0.len() <= old(state).max_payload_bytes
                &&& bytes_hash(decoded->0) == request.payload_hash@
                &&& request.kind is File ==> (request.filename matches Some(name) && name@.len()
                    > 0)
            };
            &&& response is Ok <==> accepted
            &&& response == Err::<PushResponse, Refusal>(Refusal::Unauthorized) <==> !allowed
            &&& response == Err::<PushResponse, Refusal>(Refusal::PayloadTooLarge) <==> allowed
                && decoded is Some && decoded->0.len() > old(state).max_payload_bytes
            &&& response is Err ==> after == before
            &&& response matches Ok(answer) ==> {
                &&& answer.sequence == before.next_sequence
                &&& after.next_sequence == before.next_sequence + 1
                &&& after.messages.len() > 0
                &&& after.messages.last() == (RelayMessageView {
                    sequence: answer.sequence,
                    source: request.client_id@,
                    message_id: request.message_id@,
                    kind: request.kind,
                    payload_hash: request.payload_hash@,
                    filename: optional_text(request.filename),
                    payload: RelayPayloadView::Inline { bytes_base64: request.bytes_base64@ },
                })
            }
        }),
        final(state).auth_token == old(state).auth_token,
        final(state).max_payload_bytes == old(state).max_payload_bytes,
{
    let value = match authorization {
        Some(value) => Some(value@),
        None => None,
    };
    pushes_are_accepted_by_token_and_payload(
        old(state).auth_token@,
        old(state).max_payload_bytes as nat,
        value,
        request@,
    );
    if let Some(bytes) = base64_bytes(request.bytes_base64@) {
        push_keeps_the_newest_that_fit(old(state).queue@, incoming(request@, bytes));
    }
}

/// Decoded bytes are queued or refused by their size, their hash and, for a file, their name; bytes
/// that could not be decoded are refused.
pub proof fn decoded_pushes_are_queued_or_refused(
    state: &mut AppState,
    request: PushRequest,
    bytes: Option<Vec<u8>>,
    response: Result<PushResponse, Refusal>,
)
    requires
        old(state).queue@.wf(),
        call_ensures(push_decoded, (state, request, bytes), response),
        bytes is Some ==> base64_len(bytes->0@.len()) <= isize::MAX,
        bytes is Some ==> old(state).queue@.has_room(base64_len(bytes->0@.len())),
    ensures
        response is Ok <==> {
            &&& bytes is Some
            &&& bytes->0@.len() <= old(state).max_payload_bytes
            &&& bytes_hash(bytes->0@) == request.payload_hash@
            &&& request.kind is File ==> (request.filename matches Some(name) && name@.len() > 0)
        },
        response == Err::<PushResponse, Refusal>(Refusal::PayloadTooLarge) <==> bytes is Some
            && bytes->0@.len() > old(state).max_payload_bytes,
        response is Err ==> final(state).queue@ == old(state).queue@,
        response matches Ok(answer) ==> answer.sequence == old(state).queue@.next_sequence
            && final(state).queue@ == old(state).queue@.pushed(incoming(request@, bytes->0@)),
{
    if let Some(bytes) = bytes {
        decoded_bytes_are_judged(old(state).max_payload_bytes as nat, request@, bytes@);
    }
}

/// A client with the token is handed exactly the queued messages of the others that it has not seen,
/// in order, and the latest number; any other is refused.
pub proof fn pulls_hand_out_what_is_new(
    state: &AppState,
    authorization: Option<&str>,
    query: &PullQuery,
    response: Result<PullResponse, Refusal>,
)
    requires
        state.queue@.wf(),
        call_ensures(crate::server::pull, (state, authorization, query), response),
    ensures
        response is Ok <==> (authorization matches Some(value) && value@ == seq![
            'B',
            'e',
            'a',
            'r',
            'e',
            'r',
            ' ',
        ] + state.auth_token@),
        response is Err ==> response == Err::<PullResponse, Refusal>(Refusal::Unauthorized),
        response matches Ok(answer) ==> {
            let handed = messages_view(answer.messages@);
            &&& answer.latest_sequence == state.queue@.next_sequence - 1
            &&& forall|message: RelayMessageView| #[trigger]
                handed.contains(message) <==> state.queue@.messages.contains(message)
                    && message.sequence > query.after && message.source != query.client_id@
            &&& forall|i: int, j: int|
                0 <= i < j < handed.len() ==> (#[trigger] handed[i]).sequence < (
                #[trigger] handed[j]).sequence
        },
{
    only_the_token_is_let_in(
        state.auth_token@,
        match authorization {
            Some(value) => Some(value@),
            None => None,
        },
    );
    if let Ok(answer) = response {
        let handed = messages_view(answer.messages@);
        assert forall|message: RelayMessageView| #[trigger]
            handed.contains(message) <==> state.queue@.messages.contains(message)
                && message.sequence > query.after && message.source != query.client_id@ by {
            messages_go_to_the_others_once(state.queue@, query.client_id@, query.after, message);
        }
        assert forall|i: int, j: int| 0 <= i < j < handed.len() implies (
        #[trigger] handed[i]).sequence < (#[trigger] handed[j]).sequence by {
            pulled_messages_are_in_order(state.queue@, query.client_id@, query.after, i, j);
        }
    }
}

/// What is pushed onto a queue is its newest message, under the number that comes back.
pub proof fn queues_take_what_is_pushed(
    queue: &mut MessageQueue,
    message: IncomingMessage,
    sequence: u64,
)
    requires
        old(queue)@.wf(),
        base64_len(message.bytes@.len()) <= isize::MAX,
        old(queue)@.has_room(base64_len(message.bytes@.len())),
        call_ensures(MessageQueue::push, (queue, message), sequence),
    ensures
        sequence == old(queue)@.next_sequence,
        final(queue)@.next_sequence == sequence + 1,
        final(queue)@.max_messages == old(queue)@.max_messages,
        final(queue)@.max_bytes == old(queue)@.max_bytes,
        final(queue)@.messages.len() > 0,
        final(queue)@.messages.last() == (RelayMessageView {
            sequence,
            source: message.source@,
            message_id: message.message_id@,
            kind: message.kind,
            payload_hash: message.payload_hash@,
            filename: optional_text(message.filename),
            payload: RelayPayloadView::Inline { bytes_base64: base64_text(message.bytes@) },
        }),
{
    push_keeps_the_newest_that_fit(old(queue)@, message@);
}

/// What a payload takes up are the bytes of its text, and nothing for a stored object; a body may
/// have four thirds of the payload limit, rounded up, and 4096 bytes; and refusals are reported as
/// 401, 400 and 413.
pub proof fn sizes_and_statuses_are_these(
    payload: RelayPayload,
    size: usize,
    max: usize,
    limit: usize,
    refusal: Refusal,
    status: u16,
)
    requires
        call_ensures(inline_payload_size, (&payload,), size),
        max * 4 <= usize::MAX,
        call_ensures(json_body_limit, (max,), limit),
        call_ensures(Refusal::status_code, (refusal,), status),
    ensures
        payload matches RelayPayload::Inline { bytes_base64 } ==> size == encode_utf8(
            bytes_base64@,
        ).len(),
        payload is R2 ==> size == 0,
        4 * max <= 3 * (limit - 4096) < 4 * max + 3,
        refusal is Unauthorized <==> status == 401,
        refusal is BadRequest <==> status == 400,
        refusal is PayloadTooLarge <==> status == 413,
{
}

/// A queue starts empty, with the limits that it was given and number one to give out.
pub proof fn queues_start_empty(max_messages: usize, max_bytes: usize, queue: MessageQueue)
    requires
        call_ensures(MessageQueue::new, (max_messages, max_bytes), queue),
    ensures
        queue@.messages.len() == 0,
        queue@.queued_bytes == 0,
        queue@.next_sequence == 1,
        queue@.max_messages == max_messages,
        queue@.max_bytes == max_bytes,
        queue@.wf(),
{
}

/// A queue hands out exactly the messages of others that are new, and says what the latest number
/// is and whether another message can be counted.
pub proof fn queues_hand_out_what_is_new(
    queue: &MessageQueue,
    client_id: &str,
    after: u64,
    response: PullResponse,
    size: usize,
    room: bool,
)
    requires
        queue@.wf(),
        call_ensures(MessageQueue::pull, (queue, client_id, after), response),
        call_ensures(MessageQueue::has_room, (queue, size), room),
    ensures
        response.latest_sequence == queue@.next_sequence - 1,
        forall|message: RelayMessageView| #[trigger]
            messages_view(response.messages@).contains(message) <==> queue@.messages.contains(
                message,
            ) && message.sequence > after && message.source != client_id@,
        room <==> queue@.next_sequence < u64::MAX && queue@.queued_bytes + size <= usize::MAX,
{
    assert forall|message: RelayMessageView| #[trigger]
        messages_view(response.messages@).contains(message) <==> queue@.messages.contains(message)
            && message.sequence > after && message.source != client_id@ by {
        messages_go_to_the_others_once(queue@, client_id@, after, message);
    }
}

} // verus!
