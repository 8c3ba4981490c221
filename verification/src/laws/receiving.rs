//! What is done with what the relay sends.

use crate::clipboard::ClipboardItem;
use crate::codec::base64_bytes;
use crate::protocol::{PayloadKind, RelayMessage, RelayPayload, ServerWsMessage};
use crate::security::bytes_hash;
use crate::sync::{
    apply_downloaded, apply_intact_bytes, apply_step, bytes_from_inline_message, inline_bytes,
    intact_outcome, is_announced, is_apply_outcome, is_intact, matches_announcement,
    payload_source, sequence_after, source_outcome, validate_remote_bytes, ApplyError, ApplyStep,
    ApplyStepView, PayloadSource, PayloadSourceView,
};
use vstd::prelude::*;
use vstd::utf8::{decode_utf8, valid_utf8};

verus! {

/// A client is informed up to the number that the relay greets it with, or up to the number of the
/// message that came; a complaint changes nothing.
pub proof fn numbers_are_taken_from_greetings_and_messages(
    last_seen: u64,
    latest_sequence: u64,
    message: RelayMessage,
    complaint: String,
)
    ensures
        sequence_after(last_seen, ServerWsMessage::HelloAck { latest_sequence })
            == latest_sequence,
        sequence_after(last_seen, ServerWsMessage::Message(message)) == message.sequence,
        sequence_after(last_seen, ServerWsMessage::Error { message: complaint }) == last_seen,
{
}

/// The bytes of another client's message are those that its text decodes to, or are to be
/// downloaded; a text that is no base64 is an error; and a client's own message is left alone,
/// whatever it holds.
pub proof fn bytes_come_from_text_or_store(
    client_id: Seq<char>,
    message: RelayMessage,
    source: PayloadSource,
)
    ensures
        ({
            let outcome = source_outcome(client_id, message@, inline_bytes(message@.payload));
            if message.source@ == client_id {
                outcome == Ok::<PayloadSourceView, ApplyError>(PayloadSource::Own@)
            } else {
                match message.payload {
                    RelayPayload::R2 { .. } => outcome == Ok::<PayloadSourceView, ApplyError>(
                        PayloadSource::Download@,
                    ),
                    RelayPayload::Inline { bytes_base64 } => match base64_bytes(bytes_base64@) {
                        Some(bytes) => outcome == Ok::<PayloadSourceView, ApplyError>(
                            PayloadSourceView::Bytes(bytes),
                        ),
                        None => outcome == Err::<PayloadSourceView, ApplyError>(
                            ApplyError::InvalidBase64,
                        ),
                    },
                }
            }
        }),
        source@ is Own <==> source is Own,
        source@ is Download <==> source is Download,
        source matches PayloadSource::Bytes(bytes) ==> source@ == PayloadSourceView::Bytes(bytes@),
{
}

/// Bytes are what a message announces exactly when they have its hash and, for a stored object, its
/// size.
pub proof fn intact_bytes_have_hash_and_size(message: RelayMessage, bytes: Seq<u8>)
    ensures
        is_intact(message@, bytes) <==> bytes_hash(bytes) == message.payload_hash@ && (
        message.payload matches RelayPayload::R2 { size, .. } ==> size == bytes.len()),
{
}

/// A hash and a length are what a message announces exactly when the hash is its own and, for a
/// stored object, the length is its size.
pub proof fn announcements_fix_hash_and_size(message: RelayMessage, hash: Seq<char>, len: nat)
    ensures
        is_announced(message@, hash, len) <==> hash == message.payload_hash@ && (
        message.payload matches RelayPayload::R2 { size, .. } ==> size == len),
{
}

/// Bytes that are what their message announces go where their kind belongs: a text onto the
/// clipboard as the very text, an image as the very bytes, both with the announced hash, and a file
/// into the receive directory with its name and bytes. A text must be UTF-8, a file must be named.
pub proof fn intact_bytes_are_applied(
    message: RelayMessage,
    received: Vec<u8>,
    result: Result<ApplyStep, ApplyError>,
)
    requires
        call_ensures(apply_intact_bytes, (&message, received), result),
    ensures
        match message.kind {
            PayloadKind::Text => if valid_utf8(received@) {
                &&& result matches Ok(ApplyStep::WriteItem { item, payload_hash })
                &&& item matches ClipboardItem::Text(text)
                &&& text@ == decode_utf8(received@)
                &&& payload_hash@ == message.payload_hash@
            } else {
                result == Err::<ApplyStep, ApplyError>(ApplyError::InvalidUtf8)
            },
            PayloadKind::ImagePng => {
                &&& result matches Ok(ApplyStep::WriteItem { item, payload_hash })
                &&& item matches ClipboardItem::ImagePng(png)
                &&& png@ == received@
                &&& payload_hash@ == message.payload_hash@
            },
            PayloadKind::File => match message.filename {
                Some(name) => {
                    &&& result matches Ok(ApplyStep::SaveFile { filename, bytes: saved })
                    &&& filename@ == name@
                    &&& saved@ == received@
                },
                None => result == Err::<ApplyStep, ApplyError>(ApplyError::MissingFilename),
            },
        },
{
}

/// Bytes that are not what their message announces are skipped, and all others are applied, be they
/// from the message or downloaded; what could not be downloaded is skipped.
pub proof fn only_intact_bytes_are_applied(
    message: RelayMessage,
    bytes: Vec<u8>,
    result: Result<ApplyStep, ApplyError>,
    downloaded: Option<Vec<u8>>,
    later: Result<ApplyStep, ApplyError>,
)
    requires
        call_ensures(apply_step, (&message, bytes), result),
        call_ensures(apply_downloaded, (&message, downloaded), later),
    ensures
        ({
            let intact = bytes_hash(bytes@) == message.payload_hash@ && (
            message.payload matches RelayPayload::R2 { size, .. } ==> size == bytes@.len());
            &&& !intact <==> (result matches Ok(step) && step is Skip)
            &&& intact ==> is_apply_outcome(result, intact_outcome(message@, bytes@))
        }),
        downloaded is None ==> (later matches Ok(step) && step is Skip),
        downloaded matches Some(bytes) ==> ({
            let intact = bytes_hash(bytes@) == message.payload_hash@ && (
            message.payload matches RelayPayload::R2 { size, .. } ==> size == bytes@.len());
            &&& !intact <==> (later matches Ok(step) && step is Skip)
            &&& intact ==> is_apply_outcome(later, intact_outcome(message@, bytes@))
        }),
{
}

/// Outcomes are compared whole: a step by all that it holds, an error by itself.
pub proof fn outcomes_are_compared_whole(
    step: ApplyStep,
    error: ApplyError,
    expected: Result<ApplyStepView, ApplyError>,
)
    ensures
        is_apply_outcome(Ok(step), expected) <==> expected == Ok::<ApplyStepView, ApplyError>(
            step@,
        ),
        is_apply_outcome(Err(error), expected) <==> expected == Err::<ApplyStepView, ApplyError>(
            error,
        ),
        match step {
            ApplyStep::Skip => step@ is Skip,
            ApplyStep::WriteItem { item, payload_hash } => step@ == (ApplyStepView::WriteItem {
                item: item@,
                payload_hash: payload_hash@,
            }),
            ApplyStep::SaveFile { filename, bytes } => step@ == (ApplyStepView::SaveFile {
                filename: filename@,
                bytes: bytes@,
            }),
        },
{
}

/// The bytes of another client's message come out of its text or are to be downloaded, those of a
/// client's own message are left alone, and a text that is no base64 is an error.
pub proof fn sources_are_told_by_sender_and_payload(
    client_id: &str,
    message: RelayMessage,
    source: Result<PayloadSource, ApplyError>,
)
    requires
        call_ensures(payload_source, (client_id, &message), source),
    ensures
        message.source@ == client_id@ <==> (source matches Ok(source) && source is Own),
        message.source@ != client_id@ ==> match message.payload {
            RelayPayload::R2 { .. } => source matches Ok(source) && source is Download,
            RelayPayload::Inline { bytes_base64 } => match base64_bytes(bytes_base64@) {
                Some(bytes) => source matches Ok(PayloadSource::Bytes(found)) && found@ == bytes,
                None => source matches Err(error) && error == ApplyError::InvalidBase64,
            },
        },
{
}

/// Bytes pass exactly when they have the announced hash and, for a stored object, the announced
/// size, and then as they are.
pub proof fn intact_bytes_pass(
    message: RelayMessage,
    bytes: Vec<u8>,
    valid: Option<Vec<u8>>,
    hash: &str,
    len: usize,
    same: bool,
)
    requires
        call_ensures(validate_remote_bytes, (&message, bytes), valid),
        call_ensures(matches_announcement, (&message, hash, len), same),
    ensures
        valid is Some <==> bytes_hash(bytes@) == message.payload_hash@ && (
        message.payload matches RelayPayload::R2 { size, .. } ==> size == bytes@.len()),
        valid matches Some(valid) ==> valid@ == bytes@,
        same <==> hash@ == message.payload_hash@ && (
        message.payload matches RelayPayload::R2 { size, .. } ==> size == len),
{
}

/// The bytes that came in a message are those that its text decodes to, if they have the announced
/// hash.
pub proof fn inline_bytes_are_checked(
    message: RelayMessage,
    bytes: Result<Option<Vec<u8>>, ApplyError>,
)
    requires
        call_ensures(bytes_from_inline_message, (&message,), bytes),
    ensures
        message.payload is R2 ==> (bytes matches Ok(none) && none is None),
        message.payload matches RelayPayload::Inline { bytes_base64 } ==> match base64_bytes(
            bytes_base64@,
        ) {
            None => bytes matches Err(error) && error == ApplyError::InvalidBase64,
            Some(decoded) => {
                &&& bytes matches Ok(found)
                &&& found is Some <==> bytes_hash(decoded) == message.payload_hash@
                &&& found matches Some(found) ==> found@ == decoded
            },
        },
{
}

} // verus!
