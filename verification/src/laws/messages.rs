//! The messages, none of whose parts is lost from sight.

use crate::file_transfer::{SaveStep, SaveStepView};
use crate::protocol::{
    kind_name, messages_view, ClientWsMessage, ClientWsMessageView, PayloadKind, PushRequest,
    PushRequestView, RelayMessage, RelayPayload, RelayPayloadView,
};
use crate::server::{IncomingMessage, IncomingMessageView};
use crate::text::optional_text;
use vstd::prelude::*;

verus! {

/// The kinds go by these names.
pub proof fn kinds_go_by_these_names()
    ensures
        kind_name(PayloadKind::Text) == seq!['t', 'e', 'x', 't'],
        kind_name(PayloadKind::ImagePng) == seq!['i', 'm', 'a', 'g', 'e', '_', 'p', 'n', 'g'],
        kind_name(PayloadKind::File) == seq!['f', 'i', 'l', 'e'],
{
    reveal_strlit("text");
    reveal_strlit("image_png");
    reveal_strlit("file");
    assert(kind_name(PayloadKind::Text) =~= seq!['t', 'e', 'x', 't']);
    assert(kind_name(PayloadKind::ImagePng) =~= seq![
        'i',
        'm',
        'a',
        'g',
        'e',
        '_',
        'p',
        'n',
        'g',
    ]);
    assert(kind_name(PayloadKind::File) =~= seq!['f', 'i', 'l', 'e']);
}

/// A relayed message is seen with all its parts.
pub proof fn relayed_messages_are_seen_whole(message: RelayMessage)
    ensures
        message@.sequence == message.sequence,
        message@.source == message.source@,
        message@.message_id == message.message_id@,
        message@.kind == message.kind,
        message@.payload_hash == message.payload_hash@,
        message.filename matches Some(name) ==> message@.filename == Some(name@),
        message.filename is None ==> message@.filename is None,
        message.payload matches RelayPayload::Inline { bytes_base64 } ==> message@.payload == (
        RelayPayloadView::Inline { bytes_base64: bytes_base64@ }),
        message.payload matches RelayPayload::R2 { object_key, size, expires_at }
            ==> message@.payload == (RelayPayloadView::R2 {
            object_key: object_key@,
            size,
            expires_at,
        }),
{
}

/// A run of relayed messages is seen message by message.
pub proof fn runs_of_messages_are_seen_whole(messages: Seq<RelayMessage>, i: int)
    requires
        0 <= i < messages.len(),
    ensures
        messages_view(messages).len() == messages.len(),
        messages_view(messages)[i] == messages[i]@,
{
}

/// A client's message is seen with all its parts.
pub proof fn client_messages_are_seen_whole(message: ClientWsMessage)
    ensures
        match message {
            ClientWsMessage::Hello { client_id, client_name, last_seen_sequence } => message@ == (
            ClientWsMessageView::Hello {
                client_id: client_id@,
                client_name: client_name@,
                last_seen_sequence,
            }),
            ClientWsMessage::PublishInline {
                message_id,
                kind,
                payload_hash,
                filename,
                bytes_base64,
            } => message@ == (ClientWsMessageView::PublishInline {
                message_id: message_id@,
                kind,
                payload_hash: payload_hash@,
                filename: optional_text(filename),
                bytes_base64: bytes_base64@,
            }),
            ClientWsMessage::PublishR2 {
                message_id,
                kind,
                payload_hash,
                filename,
                object_key,
                size,
                expires_at,
            } => message@ == (ClientWsMessageView::PublishR2 {
                message_id: message_id@,
                kind,
                payload_hash: payload_hash@,
                filename: optional_text(filename),
                object_key: object_key@,
                size,
                expires_at,
            }),
        },
{
}

/// A push request is seen with all its parts.
pub proof fn push_requests_are_seen_whole(request: PushRequest)
    ensures
        request@ == (PushRequestView {
            client_id: request.client_id@,
            message_id: request.message_id@,
            kind: request.kind,
            payload_hash: request.payload_hash@,
            filename: optional_text(request.filename),
            bytes_base64: request.bytes_base64@,
        }),
{
}

/// An accepted payload is seen with all its parts.
pub proof fn accepted_payloads_are_seen_whole(message: IncomingMessage)
    ensures
        message@ == (IncomingMessageView {
            source: message.source@,
            message_id: message.message_id@,
            kind: message.kind,
            payload_hash: message.payload_hash@,
            filename: optional_text(message.filename),
            bytes: message.bytes@,
        }),
{
}

/// A step of the search for a name is seen with its name.
pub proof fn search_steps_are_seen_whole(name: String)
    ensures
        SaveStep::Check(name)@ == SaveStepView::Check(name@),
        SaveStep::Write(name)@ == SaveStepView::Write(name@),
        SaveStep::NoAvailableName@ == SaveStepView::NoAvailableName,
{
}

/// A kind gives itself its name on the wire, and no other kind has that name.
pub proof fn kinds_are_told_by_their_names(kind: PayloadKind, name: &'static str)
    requires
        call_ensures(PayloadKind::as_str, (kind,), name),
    ensures
        kind is Text <==> name@ == seq!['t', 'e', 'x', 't'],
        kind is ImagePng <==> name@ == seq!['i', 'm', 'a', 'g', 'e', '_', 'p', 'n', 'g'],
        kind is File <==> name@ == seq!['f', 'i', 'l', 'e'],
{
    kinds_go_by_these_names();
    assert(name@ == kind_name(kind));
    assert(kind is Text ==> name@[0] == 't');
    assert(kind is ImagePng ==> name@[0] == 'i');
    assert(kind is File ==> name@[0] == 'f');
}

} // verus!
