//! The HTTP relay: a bounded queue of recent messages behind a bearer token.

use crate::codec::{base64_bytes, base64_len, base64_text, decode_base64, encode_base64};
use crate::protocol::{
    copy_message, messages_view, PayloadKind, PullResponse, PushRequest, PushRequestView,
    PushResponse, RelayMessage, RelayMessageView, RelayPayload, RelayPayloadView,
};
use crate::security::{bearer_text, bearer_value, bytes_hash, calculate_bytes_hash};
use crate::text::{optional_str, optional_text, same_text};
use std::collections::VecDeque;
use vstd::prelude::*;
use vstd::utf8::{encode_utf8, is_ascii_chars_encode_utf8};

verus! {

/// How the relay is set up.
#[derive(Debug, Clone)]
pub struct ServerConfig {
    pub bind_addr: String,
    pub auth_token: String,
    pub max_payload_bytes: usize,
    pub max_queue_messages: usize,
    pub max_queue_bytes: usize,
}

/// A payload that the relay has accepted.
#[derive(Debug, Clone)]
pub struct IncomingMessage {
    pub source: String,
    pub message_id: String,
    pub kind: PayloadKind,
    pub payload_hash: String,
    pub filename: Option<String>,
    pub bytes: Vec<u8>,
}

/// An accepted payload with its texts as character sequences.
pub struct IncomingMessageView {
    pub source: Seq<char>,
    pub message_id: Seq<char>,
    pub kind: PayloadKind,
    pub payload_hash: Seq<char>,
    pub filename: Option<Seq<char>>,
    pub bytes: Seq<u8>,
}

impl View for IncomingMessage {
    type V = IncomingMessageView;

    open spec fn view(&self) -> IncomingMessageView {
        IncomingMessageView {
            source: self.source@,
            message_id: self.message_id@,
            kind: self.kind,
            payload_hash: self.payload_hash@,
            filename: optional_text(self.filename),
            bytes: self.bytes@,
        }
    }
}

/// The recent messages of the relay, oldest first.
pub struct MessageQueue {
    next_sequence: u64,
    max_messages: usize,
    max_bytes: usize,
    queued_bytes: usize,
    messages: VecDeque<RelayMessage>,
}

/// What a queue holds, and its limits.
pub struct QueueView {
    pub next_sequence: nat,
    pub max_messages: nat,
    pub max_bytes: nat,
    pub queued_bytes: nat,
    pub messages: Seq<RelayMessageView>,
}

/// What a payload takes up in the queue: the bytes of its text, nothing for a stored object.
pub open spec fn inline_size(payload: RelayPayloadView) -> nat {
    match payload {
        RelayPayloadView::Inline { bytes_base64 } => encode_utf8(bytes_base64).len(),
        RelayPayloadView::R2 { .. } => 0,
    }
}

/// What a run of messages takes up in the queue.
pub open spec fn total_size(messages: Seq<RelayMessageView>) -> nat
    decreases messages.len(),
{
    if messages.len() == 0 {
        0
    } else {
        inline_size(messages.first().payload) + total_size(messages.drop_first())
    }
}

/// Whether a message has to go: there is more than one, and they are too many or too large.
pub open spec fn over_limits(
    messages: Seq<RelayMessageView>,
    max_messages: nat,
    max_bytes: nat,
) -> bool {
    &&& messages.len() > 1
    &&& messages.len() > max_messages || total_size(messages) > max_bytes
}

/// What is left when the oldest messages go for as long as the limits are exceeded.
pub open spec fn evicted(
    messages: Seq<RelayMessageView>,
    max_messages: nat,
    max_bytes: nat,
) -> Seq<RelayMessageView>
    decreases messages.len(),
{
    if over_limits(messages, max_messages, max_bytes) {
        evicted(messages.drop_first(), max_messages, max_bytes)
    } else {
        messages
    }
}

/// The message under which an accepted payload is queued.
pub open spec fn queued_message(sequence: nat, message: IncomingMessageView) -> RelayMessageView {
    RelayMessageView {
        sequence: sequence as u64,
        source: message.source,
        message_id: message.message_id,
        kind: message.kind,
        payload_hash: message.payload_hash,
        filename: message.filename,
        payload: RelayPayloadView::Inline { bytes_base64: base64_text(message.bytes) },
    }
}

/// Whether a message is newer than `after` and stems from another client.
pub open spec fn is_news_for(client_id: Seq<char>, after: u64) -> spec_fn(RelayMessageView) -> bool {
    |message: RelayMessageView| message.sequence > after && message.source != client_id
}

impl QueueView {
    /// The queue invariant: the messages carry the latest sequence numbers without a gap, the byte
    /// count is theirs, and the limits are exceeded by a single message at most.
    pub open spec fn wf(self) -> bool {
        &&& self.next_sequence >= 1
        &&& self.messages.len() < self.next_sequence
        &&& self.next_sequence > 1 ==> self.messages.len() > 0
        &&& forall|i: int|
            0 <= i < self.messages.len() ==> (#[trigger] self.messages[i]).sequence
                == self.next_sequence - self.messages.len() + i
        &&& self.queued_bytes == total_size(self.messages)
        &&& !over_limits(self.messages, self.max_messages, self.max_bytes)
    }

    /// Whether another message of `size` bytes can be counted.
    pub open spec fn has_room(self, size: nat) -> bool {
        &&& self.next_sequence < u64::MAX
        &&& self.queued_bytes + size <= usize::MAX
    }

    /// The queue after a push.
    pub open spec fn pushed(self, message: IncomingMessageView) -> QueueView {
        let messages = evicted(
            self.messages.push(queued_message(self.next_sequence, message)),
            self.max_messages,
            self.max_bytes,
        );
        QueueView {
            next_sequence: self.next_sequence + 1,
            queued_bytes: total_size(messages),
            messages,
            ..self
        }
    }

    /// The messages that a client is handed: newer than `after` and not its own, oldest first.
    pub open spec fn pulled(self, client_id: Seq<char>, after: u64) -> Seq<RelayMessageView> {
        self.messages.filter(is_news_for(client_id, after))
    }
}

proof fn lemma_total_size_push(messages: Seq<RelayMessageView>, message: RelayMessageView)
    ensures
        total_size(messages.push(message)) == total_size(messages) + inline_size(message.payload),
    decreases messages.len(),
{
    if messages.len() == 0 {
        assert(messages.push(message).drop_first() =~= messages);
    } else {
        assert(messages.push(message).drop_first() =~= messages.drop_first().push(message));
        lemma_total_size_push(messages.drop_first(), message);
    }
}

impl View for MessageQueue {
    type V = QueueView;

    closed spec fn view(&self) -> QueueView {
        QueueView {
            next_sequence: self.next_sequence as nat,
            max_messages: self.max_messages as nat,
            max_bytes: self.max_bytes as nat,
            queued_bytes: self.queued_bytes as nat,
            messages: messages_view(self.messages@),
        }
    }
}

impl MessageQueue {
    /// An empty queue; the first message pushed gets sequence number one.
    pub fn new(max_messages: usize, max_bytes: usize) -> (queue: Self)
        ensures
            queue@.wf(),
            queue@.next_sequence == 1,
            queue@.max_messages == max_messages,
            queue@.max_bytes == max_bytes,
            queue@.queued_bytes == 0,
            queue@.messages == Seq::<RelayMessageView>::empty(),
    {
        let queue = MessageQueue {
            next_sequence: 1,
            max_messages,
            max_bytes,
            queued_bytes: 0,
            messages: VecDeque::new(),
        };
        assert(queue@.messages =~= Seq::<RelayMessageView>::empty());
        queue
    }

    /// Whether another message of `size` bytes can be counted.
    pub fn has_room(&self, size: usize) -> (room: bool)
        ensures
            room == self@.has_room(size as nat),
    {
        self.next_sequence < u64::MAX && size <= usize::MAX - self.queued_bytes
    }

    /// Queues a payload under the next sequence number, which is returned, and drops the oldest
    /// messages while there is more than one and a limit is exceeded.
    pub fn push(&mut self, message: IncomingMessage) -> (sequence: u64)
        requires
            old(self)@.wf(),
            base64_len(message@.bytes.len()) <= isize::MAX,
            old(self)@.has_room(base64_len(message@.bytes.len())),
        ensures
            sequence == old(self)@.next_sequence,
            final(self)@ == old(self)@.pushed(message@),
            final(self)@.wf(),
    {
        let ghost before = self@;
        let ghost view = message@;
        let sequence = self.next_sequence;
        self.next_sequence = sequence + 1;
        let bytes_base64 = encode_base64(&message.bytes);
        proof {
            is_ascii_chars_encode_utf8(bytes_base64@);
        }
        self.queued_bytes = self.queued_bytes + bytes_base64.as_str().as_bytes().len();
        let queued = RelayMessage {
            sequence,
            source: message.source,
            message_id: message.message_id,
            kind: message.kind,
            payload_hash: message.payload_hash,
            filename: message.filename,
            payload: RelayPayload::Inline { bytes_base64 },
        };
        let ghost entry = queued@;
        self.messages.push_back(queued);
        let ghost all = before.messages.push(entry);
        proof {
            assert(entry == queued_message(before.next_sequence, view));
            assert(self@.messages =~= all);
            lemma_total_size_push(before.messages, entry);
        }
        while self.messages.len() > 1 && (self.messages.len() > self.max_messages
            || self.queued_bytes > self.max_bytes)
            invariant
                all.len() > 0,
                self@.messages.len() > 0,
                self@.messages.len() <= all.len(),
                self@.next_sequence == before.next_sequence + 1,
                self@.max_messages == before.max_messages,
                self@.max_bytes == before.max_bytes,
                self@.queued_bytes == total_size(self@.messages),
                self@.messages == all.skip(all.len() - self@.messages.len()),
                evicted(self@.messages, before.max_messages, before.max_bytes) == evicted(
                    all,
                    before.max_messages,
                    before.max_bytes,
                ),
            decreases self.messages.len(),
        {
            let ghost current = self@.messages;
            match self.messages.pop_front() {
                Some(removed) => {
                    assert(self@.messages =~= current.drop_first());
                    assert(removed@ == current.first());
                    self.queued_bytes = self.queued_bytes.saturating_sub(
                        inline_payload_size(&removed.payload),
                    );
                    assert(self@.messages =~= all.skip(all.len() - self@.messages.len()));
                },
                None => {},
            }
        }
        proof {
            let kept = self@.messages;
            assert forall|i: int| 0 <= i < kept.len() implies (#[trigger] kept[i]).sequence
                == self@.next_sequence - kept.len() + i by {
                let k = all.len() - kept.len() + i;
                assert(kept[i] == all[k]);
                if k < before.messages.len() {
                    assert(all[k] == before.messages[k]);
                }
            }
        }
        sequence
    }

    /// The messages newer than `after` that stem from other clients than `client_id`, oldest
    /// first, and the latest sequence number given out.
    pub fn pull(&self, client_id: &str, after: u64) -> (response: PullResponse)
        requires
            self@.wf(),
        ensures
            response.latest_sequence == self@.next_sequence - 1,
            messages_view(response.messages@) == self@.pulled(client_id@, after),
    {
        let latest_sequence = self.next_sequence.saturating_sub(1);
        let ghost news = is_news_for(client_id@, after);
        let mut messages: Vec<RelayMessage> = Vec::new();
        let mut i: usize = 0;
        proof {
            reveal(Seq::filter);
            assert(messages_view(messages@) =~= self@.messages.take(0).filter(news));
        }
        while i < self.messages.len()
            invariant
                i <= self.messages.len(),
                news == is_news_for(client_id@, after),
                messages_view(messages@) == self@.messages.take(i as int).filter(news),
            decreases self.messages.len() - i,
        {
            let message = &self.messages[i];
            let ghost kept = messages@;
            assert(message@ == self@.messages[i as int]);
            if message.sequence > after && !same_text(&message.source, client_id) {
                messages.push(copy_message(message));
                assert(messages_view(messages@) =~= messages_view(kept).push(message@));
            }
            proof {
                reveal(Seq::filter);
                assert(self@.messages.take(i + 1).drop_last() =~= self@.messages.take(i as int));
            }
            i += 1;
        }
        assert(self@.messages.take(self@.messages.len() as int) =~= self@.messages);
        PullResponse { latest_sequence, messages }
    }
}

/// The bytes that a payload takes up in the queue.
pub fn inline_payload_size(payload: &RelayPayload) -> (size: usize)
    ensures
        size == inline_size(payload@),
{
    match payload {
        RelayPayload::Inline { bytes_base64 } => bytes_base64.as_str().as_bytes().len(),
        RelayPayload::R2 { .. } => 0,
    }
}

/// Why the relay refuses a request.
#[derive(Debug, Clone, Copy, PartialEq, Eq, Structural)]
pub enum Refusal {
    Unauthorized,
    BadRequest,
    PayloadTooLarge,
}

/// The HTTP status of a refusal.
pub open spec fn refusal_status(refusal: Refusal) -> u16 {
    match refusal {
        Refusal::Unauthorized => 401,
        Refusal::BadRequest => 400,
        Refusal::PayloadTooLarge => 413,
    }
}

impl Refusal {
    /// The HTTP status under which the refusal is reported.
    pub fn status_code(self) -> (status: u16)
        ensures
            status == refusal_status(self),
    {
        match self {
            Refusal::Unauthorized => 401,
            Refusal::BadRequest => 400,
            Refusal::PayloadTooLarge => 413,
        }
    }
}

/// What the relay keeps between requests.
pub struct AppState {
    pub auth_token: String,
    pub max_payload_bytes: usize,
    pub queue: MessageQueue,
}

/// The parameters of a pull.
#[derive(Debug, Clone)]
pub struct PullQuery {
    pub client_id: String,
    pub after: u64,
}

/// Whether a request's `Authorization` header carries the relay's token.
pub open spec fn is_authorized(auth_token: Seq<char>, authorization: Option<Seq<char>>) -> bool {
    authorization == Some(bearer_text(auth_token))
}

/// Why a payload of `len` bytes whose hash turned out to be `actual_hash` is refused, if it is:
/// for its size first, then for a hash that is not the announced one, then as a file without a
/// name.
pub open spec fn payload_verdict(
    max_payload_bytes: nat,
    request: PushRequestView,
    len: nat,
    actual_hash: Seq<char>,
) -> Option<Refusal> {
    if len > max_payload_bytes {
        Some(Refusal::PayloadTooLarge)
    } else if actual_hash != request.payload_hash {
        Some(Refusal::BadRequest)
    } else if request.kind == PayloadKind::File && match request.filename {
        Some(name) => name.len() == 0,
        None => true,
    } {
        Some(Refusal::BadRequest)
    } else {
        None
    }
}

/// Why a push with these bytes is refused, if it is; `None` for the bytes stands for a text that
/// is no base64.
pub open spec fn decoded_verdict(
    max_payload_bytes: nat,
    request: PushRequestView,
    bytes: Option<Seq<u8>>,
) -> Option<Refusal> {
    match bytes {
        None => Some(Refusal::BadRequest),
        Some(bytes) => payload_verdict(
            max_payload_bytes,
            request,
            bytes.len(),
            bytes_hash(bytes),
        ),
    }
}

/// Why a push is refused, if it is.
pub open spec fn push_verdict(
    auth_token: Seq<char>,
    max_payload_bytes: nat,
    authorization: Option<Seq<char>>,
    request: PushRequestView,
) -> Option<Refusal> {
    if !is_authorized(auth_token, authorization) {
        Some(Refusal::Unauthorized)
    } else {
        decoded_verdict(max_payload_bytes, request, base64_bytes(request.bytes_base64))
    }
}

/// What an accepted push puts into the queue.
pub open spec fn incoming(request: PushRequestView, bytes: Seq<u8>) -> IncomingMessageView {
    IncomingMessageView {
        source: request.client_id,
        message_id: request.message_id,
        kind: request.kind,
        payload_hash: request.payload_hash,
        filename: request.filename,
        bytes,
    }
}

/// Checks the `Authorization` header of a request against the relay's token.
pub fn authorize(auth_token: &str, authorization: Option<&str>) -> (allowed: Result<(), Refusal>)
    ensures
        allowed == (if is_authorized(auth_token@, optional_str(authorization)) {
            Ok::<(), Refusal>(())
        } else {
            Err::<(), Refusal>(Refusal::Unauthorized)
        }),
{
    let expected = bearer_value(auth_token);
    match authorization {
        Some(actual) => if same_text(actual, &expected) {
            Ok(())
        } else {
            Err(Refusal::Unauthorized)
        },
        None => Err(Refusal::Unauthorized),
    }
}

/// Judges a payload by its length and by the hash it turned out to have.
pub fn judge_payload(
    max_payload_bytes: usize,
    request: &PushRequest,
    len: usize,
    actual_hash: &str,
) -> (refusal: Option<Refusal>)
    ensures
        refusal == payload_verdict(max_payload_bytes as nat, request@, len as nat, actual_hash@),
{
    if len > max_payload_bytes {
        return Some(Refusal::PayloadTooLarge);
    }
    if !same_text(actual_hash, &request.payload_hash) {
        return Some(Refusal::BadRequest);
    }
    let nameless = match &request.filename {
        Some(name) => name.as_str().is_empty(),
        None => true,
    };
    if request.kind == PayloadKind::File && nameless {
        return Some(Refusal::BadRequest);
    }
    None
}

/// Queues the decoded bytes of a push, or refuses them and leaves the queue as it is.
pub fn push_decoded(
    state: &mut AppState,
    request: PushRequest,
    bytes: Option<Vec<u8>>,
) -> (response: Result<PushResponse, Refusal>)
    requires
        old(state).queue@.wf(),
        bytes is Some ==> base64_len(bytes->0@.len()) <= isize::MAX,
        bytes is Some ==> old(state).queue@.has_room(base64_len(bytes->0@.len())),
    ensures
        final(state).queue@.wf(),
        final(state).auth_token == old(state).auth_token,
        final(state).max_payload_bytes == old(state).max_payload_bytes,
        ({
            let payload = match bytes {
                Some(bytes) => Some(bytes@),
                None => None,
            };
            match decoded_verdict(old(state).max_payload_bytes as nat, request@, payload) {
                Some(refusal) => {
                    &&& response == Err::<PushResponse, Refusal>(refusal)
                    &&& final(state).queue@ == old(state).queue@
                },
                None => {
                    &&& response matches Ok(accepted)
                    &&& accepted.sequence == old(state).queue@.next_sequence
                    &&& final(state).queue@ == old(state).queue@.pushed(
                        incoming(request@, bytes->0@),
                    )
                },
            }
        }),
{
    let bytes = match bytes {
        Some(bytes) => bytes,
        None => return Err(Refusal::BadRequest),
    };
    if bytes.len() > state.max_payload_bytes {
        return Err(Refusal::PayloadTooLarge);
    }
    let actual_hash = calculate_bytes_hash(&bytes);
    match judge_payload(state.max_payload_bytes, &request, bytes.len(), &actual_hash) {
        Some(refusal) => Err(refusal),
        None => {
            let sequence = state.queue.push(
                IncomingMessage {
                    source: request.client_id,
                    message_id: request.message_id,
                    kind: request.kind,
                    payload_hash: request.payload_hash,
                    filename: request.filename,
                    bytes,
                },
            );
            Ok(PushResponse { sequence })
        },
    }
}

/// Answers a push: checks the token, decodes the payload, judges it and queues it. A refused push
/// leaves the queue as it is.
pub fn push(
    state: &mut AppState,
    authorization: Option<&str>,
    request: PushRequest,
) -> (response: Result<PushResponse, Refusal>)
    requires
        old(state).queue@.wf(),
        old(state).queue@.has_room(request.bytes_base64@.len()),
    ensures
        final(state).queue@.wf(),
        final(state).auth_token == old(state).auth_token,
        final(state).max_payload_bytes == old(state).max_payload_bytes,
        match push_verdict(
            old(state).auth_token@,
            old(state).max_payload_bytes as nat,
            optional_str(authorization),
            request@,
        ) {
            Some(refusal) => {
                &&& response == Err::<PushResponse, Refusal>(refusal)
                &&& final(state).queue@ == old(state).queue@
            },
            None => {
                &&& response matches Ok(accepted)
                &&& accepted.sequence == old(state).queue@.next_sequence
                &&& base64_bytes(request.bytes_base64@) matches Some(bytes)
                &&& base64_text(bytes) == request.bytes_base64@
                &&& final(state).queue@ == old(state).queue@.pushed(incoming(request@, bytes))
            },
        },
{
    match authorize(&state.auth_token, authorization) {
        Ok(()) => {},
        Err(refusal) => return Err(refusal),
    }
    let bytes = match decode_base64(&request.bytes_base64) {
        Ok(bytes) => Some(bytes),
        Err(_) => None,
    };
    push_decoded(state, request, bytes)
}

/// Answers a pull: checks the token and hands out what is new to the client.
pub fn pull(
    state: &AppState,
    authorization: Option<&str>,
    query: &PullQuery,
) -> (response: Result<PullResponse, Refusal>)
    requires
        state.queue@.wf(),
    ensures
        if is_authorized(state.auth_token@, optional_str(authorization)) {
            &&& response matches Ok(answer)
            &&& answer.latest_sequence == state.queue@.next_sequence - 1
            &&& messages_view(answer.messages@) == state.queue@.pulled(
                query.client_id@,
                query.after,
            )
        } else {
            response == Err::<PullResponse, Refusal>(Refusal::Unauthorized)
        },
{
    match authorize(&state.auth_token, authorization) {
        Ok(()) => {},
        Err(refusal) => return Err(refusal),
    }
    Ok(state.queue.pull(&query.client_id, query.after))
}

/// The largest request body that can carry a payload of `max_payload_bytes` bytes as base64 and
/// the JSON around it.
pub open spec fn body_limit(max_payload_bytes: nat) -> nat {
    ((max_payload_bytes * 4 + 2) / 3 + 4096) as nat
}

/// The largest request body that a push may have.
pub fn json_body_limit(max_payload_bytes: usize) -> (limit: usize)
    requires
        max_payload_bytes * 4 <= usize::MAX,
    ensures
        limit == body_limit(max_payload_bytes as nat),
{
    let scaled = max_payload_bytes * 4;
    let third = scaled / 3;
    if scaled % 3 == 0 {
        third + 4096
    } else {
        third + 1 + 4096
    }
}

/// Every payload that the relay takes fits, as base64, into the largest body that it takes.
pub proof fn body_limit_leaves_room_for_base64(len: nat, max_payload_bytes: nat)
    requires
        len <= max_payload_bytes,
    ensures
        base64_len(len) < body_limit(max_payload_bytes),
{
}

/// Eviction takes the oldest messages only, leaves the newest in any case, and takes no more than
/// it has to: what is left is within the limits or a single message, and with more of the evicted
/// messages it would be over the limits.
pub proof fn eviction_keeps_the_newest(
    messages: Seq<RelayMessageView>,
    max_messages: nat,
    max_bytes: nat,
)
    requires
        messages.len() > 0,
    ensures
        ({
            let kept = evicted(messages, max_messages, max_bytes);
            let gone = messages.len() - kept.len();
            &&& 0 < kept.len() <= messages.len()
            &&& kept == messages.skip(gone)
            &&& kept.last() == messages.last()
            &&& !over_limits(kept, max_messages, max_bytes)
            &&& forall|more: int|
                0 <= more < gone ==> over_limits(
                    #[trigger] messages.skip(more),
                    max_messages,
                    max_bytes,
                )
        }),
    decreases messages.len(),
{
    if over_limits(messages, max_messages, max_bytes) {
        let rest = messages.drop_first();
        eviction_keeps_the_newest(rest, max_messages, max_bytes);
        let kept = evicted(messages, max_messages, max_bytes);
        let gone = messages.len() - kept.len();
        assert(kept =~= messages.skip(gone));
        assert forall|more: int| 0 <= more < gone implies over_limits(
            #[trigger] messages.skip(more),
            max_messages,
            max_bytes,
        ) by {
            if more == 0 {
                assert(messages.skip(0) =~= messages);
            } else {
                assert(rest.skip(more - 1) =~= messages.skip(more));
            }
        }
    } else {
        assert(messages.skip(0) =~= messages);
    }
}

proof fn lemma_pulled_member(
    messages: Seq<RelayMessageView>,
    client_id: Seq<char>,
    after: u64,
    i: int,
)
    requires
        0 <= i < messages.filter(is_news_for(client_id, after)).len(),
    ensures
        ({
            let message = messages.filter(is_news_for(client_id, after))[i];
            &&& messages.contains(message)
            &&& message.sequence > after
            &&& message.source != client_id
        }),
    decreases messages.len(),
{
    reveal(Seq::filter);
    let news = is_news_for(client_id, after);
    let rest = messages.drop_last();
    if i < rest.filter(news).len() {
        lemma_pulled_member(rest, client_id, after, i);
        let message = rest.filter(news)[i];
        let k = choose|k: int| 0 <= k < rest.len() && rest[k] == message;
        assert(messages[k] == message);
    } else {
        assert(messages[messages.len() - 1] == messages.last());
    }
}

/// A pull hands out queued messages only, none of the client's own and none that it has seen.
pub proof fn pull_hands_out_news_only(queue: QueueView, client_id: Seq<char>, after: u64, i: int)
    requires
        0 <= i < queue.pulled(client_id, after).len(),
    ensures
        queue.messages.contains(queue.pulled(client_id, after)[i]),
        queue.pulled(client_id, after)[i].sequence > after,
        queue.pulled(client_id, after)[i].source != client_id,
{
    lemma_pulled_member(queue.messages, client_id, after, i);
}

proof fn lemma_nothing_new(messages: Seq<RelayMessageView>, client_id: Seq<char>, after: u64)
    requires
        forall|i: int| 0 <= i < messages.len() ==> (#[trigger] messages[i]).sequence <= after,
    ensures
        messages.filter(is_news_for(client_id, after)).len() == 0,
    decreases messages.len(),
{
    reveal(Seq::filter);
    if messages.len() > 0 {
        let rest = messages.drop_last();
        assert forall|i: int| 0 <= i < rest.len() implies (#[trigger] rest[i]).sequence
            <= after by {
            assert(rest[i] == messages[i]);
        }
        lemma_nothing_new(rest, client_id, after);
        assert(messages[messages.len() - 1].sequence <= after);
    }
}

/// A client that has pulled up to the latest sequence number gets, after one more push, exactly
/// that message if it is another client's, and nothing if it is its own.
pub proof fn push_reaches_the_other_clients(
    queue: QueueView,
    message: IncomingMessageView,
    client_id: Seq<char>,
)
    requires
        queue.wf(),
        queue.next_sequence < u64::MAX,
    ensures
        queue.pushed(message).pulled(client_id, (queue.next_sequence - 1) as u64) == (
        if message.source == client_id {
            Seq::<RelayMessageView>::empty()
        } else {
            seq![queued_message(queue.next_sequence, message)]
        }),
{
    reveal(Seq::filter);
    let entry = queued_message(queue.next_sequence, message);
    let all = queue.messages.push(entry);
    let kept = queue.pushed(message).messages;
    let after = (queue.next_sequence - 1) as u64;
    eviction_keeps_the_newest(all, queue.max_messages, queue.max_bytes);
    let older = kept.drop_last();
    assert forall|i: int| 0 <= i < older.len() implies (#[trigger] older[i]).sequence
        <= after by {
        let k = all.len() - kept.len() + i;
        assert(older[i] == all[k]);
        assert(all[k] == queue.messages[k]);
    }
    lemma_nothing_new(older, client_id, after);
    assert(older.filter(is_news_for(client_id, after)) =~= Seq::<RelayMessageView>::empty());
    assert(kept.last() == entry);
    assert(queue.pushed(message).pulled(client_id, after) =~= (if message.source == client_id {
        Seq::<RelayMessageView>::empty()
    } else {
        seq![entry]
    }));
}

/// What one client pushes is what the others pull: the text, the hash, the name and the id of an
/// accepted request come out as they went in. That the text is that of the queued bytes is what
/// `push` ensures of it.
pub proof fn pulled_payload_is_the_pushed_one(
    queue: QueueView,
    request: PushRequestView,
    bytes: Seq<u8>,
    client_id: Seq<char>,
)
    requires
        queue.wf(),
        queue.next_sequence < u64::MAX,
        base64_text(bytes) == request.bytes_base64,
        client_id != request.client_id,
    ensures
        queue.pushed(incoming(request, bytes)).pulled(
            client_id,
            (queue.next_sequence - 1) as u64,
        ) == seq![
            RelayMessageView {
                sequence: queue.next_sequence as u64,
                source: request.client_id,
                message_id: request.message_id,
                kind: request.kind,
                payload_hash: request.payload_hash,
                filename: request.filename,
                payload: RelayPayloadView::Inline { bytes_base64: request.bytes_base64 },
            },
        ],
{
    push_reaches_the_other_clients(queue, incoming(request, bytes), client_id);
}

/// A client that has pulled up to the latest sequence number gets nothing until the next push.
pub proof fn pulling_again_gives_nothing(queue: QueueView, client_id: Seq<char>)
    requires
        queue.wf(),
        queue.next_sequence <= u64::MAX,
    ensures
        queue.pulled(client_id, (queue.next_sequence - 1) as u64).len() == 0,
{
    lemma_nothing_new(queue.messages, client_id, (queue.next_sequence - 1) as u64);
}

/// A push keeps the queue invariant, and with it the bounds on what the queue holds.
pub proof fn push_keeps_the_queue_bounded(queue: QueueView, message: IncomingMessageView)
    requires
        queue.wf(),
        queue.next_sequence < u64::MAX,
    ensures
        queue.pushed(message).wf(),
        queue.pushed(message).messages.len() <= 1 || (queue.pushed(message).messages.len()
            <= queue.max_messages && queue.pushed(message).queued_bytes <= queue.max_bytes),
{
    let entry = queued_message(queue.next_sequence, message);
    let all = queue.messages.push(entry);
    let kept = queue.pushed(message).messages;
    eviction_keeps_the_newest(all, queue.max_messages, queue.max_bytes);
    assert forall|i: int| 0 <= i < kept.len() implies (#[trigger] kept[i]).sequence
        == queue.next_sequence + 1 - kept.len() + i by {
        let k = all.len() - kept.len() + i;
        assert(kept[i] == all[k]);
        if k < queue.messages.len() {
            assert(all[k] == queue.messages[k]);
        }
    }
}

proof fn lemma_pulled_contains(
    messages: Seq<RelayMessageView>,
    client_id: Seq<char>,
    after: u64,
    i: int,
)
    requires
        0 <= i < messages.len(),
        messages[i].sequence > after,
        messages[i].source != client_id,
    ensures
        messages.filter(is_news_for(client_id, after)).contains(messages[i]),
    decreases messages.len(),
{
    reveal(Seq::filter);
    let news = is_news_for(client_id, after);
    let rest = messages.drop_last();
    let found = messages.filter(news);
    if i < rest.len() {
        lemma_pulled_contains(rest, client_id, after, i);
        let k = choose|k: int|
            0 <= k < rest.filter(news).len() && rest.filter(news)[k] == messages[i];
        assert(found[k] == messages[i]);
    } else {
        assert(found[found.len() - 1] == messages[i]);
    }
}

/// A pull misses nothing: every queued message that is newer and another client's is handed out.
pub proof fn pull_misses_nothing(queue: QueueView, client_id: Seq<char>, after: u64, i: int)
    requires
        0 <= i < queue.messages.len(),
        queue.messages[i].sequence > after,
        queue.messages[i].source != client_id,
    ensures
        queue.pulled(client_id, after).contains(queue.messages[i]),
{
    lemma_pulled_contains(queue.messages, client_id, after, i);
}

proof fn lemma_pulled_in_order(
    messages: Seq<RelayMessageView>,
    client_id: Seq<char>,
    after: u64,
    i: int,
    j: int,
)
    requires
        forall|a: int, b: int|
            0 <= a < b < messages.len() ==> (#[trigger] messages[a]).sequence < (
            #[trigger] messages[b]).sequence,
        0 <= i < j < messages.filter(is_news_for(client_id, after)).len(),
    ensures
        messages.filter(is_news_for(client_id, after))[i].sequence < messages.filter(
            is_news_for(client_id, after),
        )[j].sequence,
    decreases messages.len(),
{
    reveal(Seq::filter);
    let news = is_news_for(client_id, after);
    let rest = messages.drop_last();
    if j < rest.filter(news).len() {
        lemma_pulled_in_order(rest, client_id, after, i, j);
    } else {
        lemma_pulled_member(rest, client_id, after, i);
        let k = choose|k: int| 0 <= k < rest.len() && rest[k] == rest.filter(news)[i];
        assert(messages[k] == rest[k]);
        assert(messages[messages.len() - 1] == messages.last());
    }
}

/// A pull hands messages out in the order in which they were pushed.
pub proof fn pulled_messages_are_in_order(
    queue: QueueView,
    client_id: Seq<char>,
    after: u64,
    i: int,
    j: int,
)
    requires
        queue.wf(),
        0 <= i < j < queue.pulled(client_id, after).len(),
    ensures
        queue.pulled(client_id, after)[i].sequence < queue.pulled(client_id, after)[j].sequence,
{
    lemma_pulled_in_order(queue.messages, client_id, after, i, j);
}

/// The queue after a run of pushes.
pub open spec fn after_pushes(queue: QueueView, run: Seq<IncomingMessageView>) -> QueueView
    decreases run.len(),
{
    if run.len() == 0 {
        queue
    } else {
        after_pushes(queue, run.drop_last()).pushed(run.last())
    }
}

/// The messages under which a run of payloads is queued.
pub open spec fn queued_run(
    next_sequence: nat,
    run: Seq<IncomingMessageView>,
) -> Seq<RelayMessageView> {
    Seq::new(run.len(), |i: int| queued_message((next_sequence + i) as nat, run[i]))
}

proof fn lemma_eviction_in_steps(
    messages: Seq<RelayMessageView>,
    message: RelayMessageView,
    max_messages: nat,
    max_bytes: nat,
)
    ensures
        evicted(
            evicted(messages, max_messages, max_bytes).push(message),
            max_messages,
            max_bytes,
        ) == evicted(messages.push(message), max_messages, max_bytes),
    decreases messages.len(),
{
    if over_limits(messages, max_messages, max_bytes) {
        lemma_total_size_push(messages, message);
        lemma_eviction_in_steps(messages.drop_first(), message, max_messages, max_bytes);
        assert(messages.push(message).drop_first() =~= messages.drop_first().push(message));
    }
}

/// After any run of pushes the queue holds the longest run of newest messages that is within the
/// limits, or the newest message alone: eviction at every push comes to the same as a single one at
/// the end, and any longer run of newest messages would be over the limits.
pub proof fn queue_holds_the_longest_suffix(queue: QueueView, run: Seq<IncomingMessageView>)
    requires
        queue.wf(),
    ensures
        ({
            let all = queue.messages + queued_run(queue.next_sequence, run);
            let after = after_pushes(queue, run);
            let gone = all.len() - after.messages.len();
            &&& after.next_sequence == queue.next_sequence + run.len()
            &&& after.max_messages == queue.max_messages
            &&& after.max_bytes == queue.max_bytes
            &&& after.messages == evicted(all, queue.max_messages, queue.max_bytes)
            &&& all.len() > 0 ==> {
                &&& 0 < after.messages.len() <= all.len()
                &&& after.messages == all.skip(gone)
                &&& after.messages.len() == 1 || (after.messages.len() <= queue.max_messages
                    && total_size(after.messages) <= queue.max_bytes)
                &&& forall|more: int|
                    0 <= more < gone ==> over_limits(
                        #[trigger] all.skip(more),
                        queue.max_messages,
                        queue.max_bytes,
                    )
            }
        }),
    decreases run.len(),
{
    let all = queue.messages + queued_run(queue.next_sequence, run);
    if run.len() == 0 {
        assert(all =~= queue.messages);
    } else {
        let front = run.drop_last();
        let before = queue.messages + queued_run(queue.next_sequence, front);
        queue_holds_the_longest_suffix(queue, front);
        let entry = queued_message(
            (queue.next_sequence + front.len()) as nat,
            run.last(),
        );
        lemma_eviction_in_steps(before, entry, queue.max_messages, queue.max_bytes);
        assert(before.push(entry) =~= all);
    }
    if all.len() > 0 {
        eviction_keeps_the_newest(all, queue.max_messages, queue.max_bytes);
    }
}

} // verus!
