//! What of the local clipboard is sent, and how.

use crate::clipboard::ClipboardItem;
use crate::codec::{base64_bytes, base64_len, base64_text, is_uuid_v4_text};
use crate::config::ClientConfig;
use crate::protocol::{ClientWsMessage, ClientWsMessageView, PayloadKind};
use crate::security::bytes_hash;
use crate::sync::{
    announcement, backoff_secs, expires_at_24h, guard_after, inline_message, is_news, is_payload_outcome,
    is_sendable_file, local_payload_for_item, local_payload_with_id, payload_outcome,
    route_for_size, route_of, send_step, session_outcome, FileReading, LocalEvent, LocalPayload,
    OutgoingPayloadRoute, PayloadError, PendingUpload, SendStep, SessionEvent, SessionStep,
};
use crate::text::optional_text;
use vstd::prelude::*;
use vstd::utf8::encode_utf8;

verus! {

/// Up to 10 MB a payload goes inline, up to 100 MB it is stored, and above that it has no route.
pub proof fn routes_change_at_ten_and_a_hundred_megabytes(len: nat)
    ensures
        route_of(len) == Some(OutgoingPayloadRoute::Inline) <==> len <= 10_485_760,
        route_of(len) == Some(OutgoingPayloadRoute::R2) <==> 10_485_760 < len <= 104_857_600,
        route_of(len) is None <==> len > 104_857_600,
{
}

/// Every text of at most 100 MB is sent, with its UTF-8 bytes and their hash; a larger one is not,
/// and no text is an error.
pub proof fn texts_are_sent(
    text: String,
    file: FileReading,
    message_id: String,
    result: Result<Option<LocalPayload>, PayloadError>,
)
    requires
        call_ensures(
            local_payload_with_id,
            (ClipboardItem::Text(text), file, message_id),
            result,
        ),
    ensures
        ({
            let bytes = encode_utf8(text@);
            if bytes.len() <= 104_857_600 {
                &&& result matches Ok(Some(payload))
                &&& payload.message_id@ == message_id@
                &&& payload.kind == PayloadKind::Text
                &&& payload.payload_hash@ == bytes_hash(bytes)
                &&& payload.filename is None
                &&& payload.bytes@ == bytes
                &&& payload.route == OutgoingPayloadRoute::Inline <==> bytes.len() <= 10_485_760
            } else {
                result matches Ok(none) && none is None
            }
        }),
{
}

/// Every image of at most 100 MB is sent, byte for byte and with its hash; a larger one is not, and
/// no image is an error.
pub proof fn images_are_sent(
    png: Vec<u8>,
    file: FileReading,
    message_id: String,
    result: Result<Option<LocalPayload>, PayloadError>,
)
    requires
        call_ensures(
            local_payload_with_id,
            (ClipboardItem::ImagePng(png), file, message_id),
            result,
        ),
    ensures
        if png@.len() <= 104_857_600 {
            &&& result matches Ok(Some(payload))
            &&& payload.message_id@ == message_id@
            &&& payload.kind == PayloadKind::ImagePng
            &&& payload.payload_hash@ == bytes_hash(png@)
            &&& payload.filename is None
            &&& payload.bytes@ == png@
            &&& payload.route == OutgoingPayloadRoute::Inline <==> png@.len() <= 10_485_760
        } else {
            result matches Ok(none) && none is None
        },
{
}

/// Every file that was read and is within 100 MB, by its length and by what was read, is sent with
/// the bytes and the name that were read. A larger one is not sent, and one that could not be read
/// is an error.
pub proof fn files_are_sent(
    path: Vec<u8>,
    len: u64,
    contents: Option<Vec<u8>>,
    name: Option<String>,
    message_id: String,
    result: Result<Option<LocalPayload>, PayloadError>,
)
    requires
        call_ensures(
            local_payload_with_id,
            (
                ClipboardItem::FilePath(path),
                FileReading::File { len, contents, name },
                message_id,
            ),
            result,
        ),
    ensures
        if len > 104_857_600 {
            result matches Ok(none) && none is None
        } else if contents is None {
            result is Err
        } else if contents->0@.len() > 104_857_600 {
            result matches Ok(none) && none is None
        } else {
            &&& result matches Ok(Some(payload))
            &&& payload.message_id@ == message_id@
            &&& payload.kind == PayloadKind::File
            &&& payload.payload_hash@ == bytes_hash(contents->0@)
            &&& match name {
                Some(name) => payload.filename matches Some(sent) && sent@ == name@,
                None => payload.filename is None,
            }
            &&& payload.bytes@ == contents->0@
            &&& payload.route == OutgoingPayloadRoute::Inline <==> contents->0@.len()
                <= 10_485_760
        },
{
}

/// A path with no file behind it sends nothing, and one that cannot be inspected is an error.
pub proof fn missing_files_are_not_sent(
    path: Vec<u8>,
    message_id: String,
    missing: Result<Option<LocalPayload>, PayloadError>,
    unreadable: Result<Option<LocalPayload>, PayloadError>,
)
    requires
        call_ensures(
            local_payload_with_id,
            (ClipboardItem::FilePath(path), FileReading::NotAFile, message_id),
            missing,
        ),
        call_ensures(
            local_payload_with_id,
            (ClipboardItem::FilePath(path), FileReading::Unreadable, message_id),
            unreadable,
        ),
    ensures
        missing matches Ok(none) && none is None,
        unreadable is Err,
{
}

/// An item is sent under a fresh message id as it would be under a given one.
pub proof fn fresh_ids_change_nothing_else(
    config: &ClientConfig,
    item: ClipboardItem,
    file: FileReading,
    result: Result<Option<LocalPayload>, PayloadError>,
)
    requires
        call_ensures(local_payload_for_item, (config, item, file), result),
    ensures
        exists|message_id: Seq<char>|
            #![trigger payload_outcome(item@, file@, message_id)]
            message_id.len() == 36 && is_payload_outcome(
                result,
                payload_outcome(item@, file@, message_id),
            ),
        item is Text && encode_utf8(item->Text_0@).len() <= 104_857_600 ==> {
            &&& result matches Ok(Some(payload))
            &&& payload.kind == PayloadKind::Text
            &&& payload.bytes@ == encode_utf8(item->Text_0@)
            &&& payload.payload_hash@ == bytes_hash(encode_utf8(item->Text_0@))
        },
        item is ImagePng && item->ImagePng_0@.len() <= 104_857_600 ==> {
            &&& result matches Ok(Some(payload))
            &&& payload.kind == PayloadKind::ImagePng
            &&& payload.bytes@ == item->ImagePng_0@
            &&& payload.payload_hash@ == bytes_hash(item->ImagePng_0@)
        },
{
}

/// Message ids are five groups of lower case hexadecimal digits, of 8, 4, 4, 4 and 12 digits, parted
/// by hyphens.
pub proof fn message_ids_are_grouped_digits(id: Seq<char>, i: int)
    requires
        is_uuid_v4_text(id),
        0 <= i < id.len(),
    ensures
        id.len() == 36,
        id[i] == '-' <==> i == 8 || i == 13 || i == 18 || i == 23,
        id[i] != '-' ==> '0' <= id[i] <= '9' || 'a' <= id[i] <= 'f',
        i == 14 ==> id[i] == '4',
        i == 19 ==> id[i] == '8' || id[i] == '9' || id[i] == 'a' || id[i] == 'b',
{
    assert(id[14] == '4');
}

/// A payload with the inline route is sent in a message with its id, kind, hash and name, and its
/// bytes as base64; any other is uploaded, byte for byte, and announced under its id, kind, hash,
/// name and size.
pub proof fn payloads_go_by_their_routes(payload: LocalPayload, step: SendStep)
    requires
        base64_len(payload.bytes@.len()) <= isize::MAX,
        call_ensures(send_step, (payload,), step),
    ensures
        payload.route is Inline ==> {
            &&& step matches SendStep::Publish(
                ClientWsMessage::PublishInline {
                    message_id,
                    kind,
                    payload_hash,
                    filename,
                    bytes_base64,
                },
            )
            &&& message_id@ == payload.message_id@
            &&& kind == payload.kind
            &&& payload_hash@ == payload.payload_hash@
            &&& optional_text(filename) == optional_text(payload.filename)
            &&& base64_bytes(bytes_base64@) == Some(payload.bytes@)
            &&& bytes_base64@ == base64_text(payload.bytes@)
        },
        payload.route is R2 ==> {
            &&& step matches SendStep::Upload { pending, bytes }
            &&& bytes@ == payload.bytes@
            &&& pending.message_id@ == payload.message_id@
            &&& pending.kind == payload.kind
            &&& pending.payload_hash@ == payload.payload_hash@
            &&& optional_text(pending.filename) == optional_text(payload.filename)
            &&& pending.size == payload.bytes@.len()
        },
{
}

/// An upload that succeeded is announced with all that is pending, the key under which the object
/// is stored, and an expiry a day from now; one that failed is not announced.
pub proof fn stored_objects_are_announced(
    pending: PendingUpload,
    object_key: Option<String>,
    now_secs: i64,
    message: Option<ClientWsMessage>,
)
    requires
        now_secs + 86_400 <= i64::MAX,
        call_ensures(announcement, (pending, object_key, now_secs), message),
    ensures
        message is Some <==> object_key is Some,
        object_key matches Some(stored) ==> {
            &&& message matches Some(
                ClientWsMessage::PublishR2 {
                    message_id,
                    kind,
                    payload_hash,
                    filename,
                    object_key: key,
                    size,
                    expires_at,
                },
            )
            &&& message_id@ == pending.message_id@
            &&& kind == pending.kind
            &&& payload_hash@ == pending.payload_hash@
            &&& optional_text(filename) == optional_text(pending.filename)
            &&& key@ == stored@
            &&& size == pending.size
            &&& expires_at - now_secs == 86_400
        },
{
}

/// The message that carries a payload has its id, kind, hash and name, and its bytes as base64.
pub proof fn inline_messages_carry_the_payload(payload: LocalPayload)
    ensures
        inline_message(payload@) == (ClientWsMessageView::PublishInline {
            message_id: payload.message_id@,
            kind: payload.kind,
            payload_hash: payload.payload_hash@,
            filename: optional_text(payload.filename),
            bytes_base64: base64_text(payload.bytes@),
        }),
{
}

/// A file is worth reading exactly when it has at most 100 MB, and the route of a payload goes by
/// the same limit.
pub proof fn files_are_read_up_to_a_hundred_megabytes(
    file_len: u64,
    sendable: bool,
    len: usize,
    route: Option<OutgoingPayloadRoute>,
)
    requires
        call_ensures(is_sendable_file, (file_len,), sendable),
        call_ensures(route_for_size, (len,), route),
    ensures
        sendable <==> file_len <= 104_857_600,
        route is None <==> len > 104_857_600,
        route == Some(OutgoingPayloadRoute::Inline) <==> len <= 10_485_760,
{
}

/// A payload is news exactly when its hash is not the recorded one.
pub proof fn news_is_what_was_not_recorded(payload: LocalPayload, recorded: Seq<char>)
    ensures
        is_news(recorded, payload@.payload_hash) <==> payload.payload_hash@ != recorded,
{
}

/// The guard records what is on its way, and nothing else changes it.
pub proof fn guard_records_what_is_sent(recorded: Seq<char>, event: LocalEvent)
    ensures
        event matches LocalEvent::Sent { payload_hash } ==> guard_after(recorded, event)
            == payload_hash@,
        !(event is Sent) ==> guard_after(recorded, event) == recorded,
{
}

/// The waits between attempts that fail are 2, 4, 8, 16 and 32 seconds, and a minute from then on.
pub proof fn waits_double_up_to_a_minute(failures: nat)
    ensures
        backoff_secs(0) == 2,
        backoff_secs(1) == 4,
        backoff_secs(2) == 8,
        backoff_secs(3) == 16,
        backoff_secs(4) == 32,
        failures >= 5 ==> backoff_secs(failures) == 60,
    decreases failures,
{
    reveal_with_fuel(backoff_secs, 6);
    if failures > 5 {
        waits_double_up_to_a_minute((failures - 1) as nat);
    }
}

/// A client goes on until its own clipboard is watched no longer: an attempt that fails adds one to
/// the count and waits by it, a session that worked starts the count anew and waits two seconds.
pub proof fn sessions_are_resumed(failures: u32)
    ensures
        session_outcome(failures, SessionEvent::ConnectFailed).0 == (SessionStep::Reconnect {
            delay_secs: backoff_secs(failures as nat) as u64,
        }),
        failures < u32::MAX ==> session_outcome(failures, SessionEvent::ConnectFailed).1 == failures
            + 1,
        session_outcome(u32::MAX, SessionEvent::ConnectFailed).1 == u32::MAX,
        session_outcome(failures, SessionEvent::ForwarderEnded) == (
            SessionStep::Reconnect { delay_secs: 2 },
            0u32,
        ),
        session_outcome(failures, SessionEvent::ReceiverEnded) == (
            SessionStep::Reconnect { delay_secs: 2 },
            0u32,
        ),
        session_outcome(failures, SessionEvent::LocalTaskEnded) == (SessionStep::Stop, failures),
{
}

/// An object expires 24 hours after it was stored.
pub proof fn objects_expire_after_a_day(now_secs: i64, expires_at: i64)
    requires
        now_secs + 86_400 <= i64::MAX,
        call_ensures(expires_at_24h, (now_secs,), expires_at),
    ensures
        expires_at - now_secs == 86_400,
{
}

} // verus!
