//! The messages that clients and relays exchange.

use crate::text::optional_text;
use vstd::prelude::*;

verus! {

/// What a payload is.
#[derive(Debug, Clone, Copy, PartialEq, Eq, Structural)]
pub enum PayloadKind {
    Text,
    ImagePng,
    File,
}

/// A message of a client on its web socket.
#[derive(Debug, Clone, PartialEq, Eq)]
pub enum ClientWsMessage {
    Hello { client_id: String, client_name: String, last_seen_sequence: u64 },
    PublishInline {
        message_id: String,
        kind: PayloadKind,
        payload_hash: String,
        filename: Option<String>,
        bytes_base64: String,
    },
    PublishR2 {
        message_id: String,
        kind: PayloadKind,
        payload_hash: String,
        filename: Option<String>,
        object_key: String,
        size: usize,
        expires_at: i64,
    },
}

/// A message of the relay on a web socket.
#[derive(Debug, Clone, PartialEq, Eq)]
pub enum ServerWsMessage {
    HelloAck { latest_sequence: u64 },
    Message(RelayMessage),
    Error { message: String },
}

/// A published payload as the relay hands it on.
#[derive(Debug, Clone, PartialEq, Eq)]
pub struct RelayMessage {
    pub sequence: u64,
    pub source: String,
    pub message_id: String,
    pub kind: PayloadKind,
    pub payload_hash: String,
    pub filename: Option<String>,
    pub payload: RelayPayload,
}

/// Where the bytes of a relayed payload are.
#[derive(Debug, Clone, PartialEq, Eq)]
pub enum RelayPayload {
    Inline { bytes_base64: String },
    R2 { object_key: String, size: usize, expires_at: i64 },
}

/// What a client pushes to the HTTP relay.
#[derive(Debug, Clone, PartialEq, Eq)]
pub struct PushRequest {
    pub client_id: String,
    pub message_id: String,
    pub kind: PayloadKind,
    pub payload_hash: String,
    pub filename: Option<String>,
    pub bytes_base64: String,
}

/// The answer of the HTTP relay to a push.
#[derive(Debug, Clone, PartialEq, Eq)]
pub struct PushResponse {
    pub sequence: u64,
}

/// The answer of the HTTP relay to a pull.
#[derive(Debug, Clone, PartialEq, Eq)]
pub struct PullResponse {
    pub latest_sequence: u64,
    pub messages: Vec<RelayMessage>,
}

/// A client message with its texts as character sequences.
pub enum ClientWsMessageView {
    Hello { client_id: Seq<char>, client_name: Seq<char>, last_seen_sequence: u64 },
    PublishInline {
        message_id: Seq<char>,
        kind: PayloadKind,
        payload_hash: Seq<char>,
        filename: Option<Seq<char>>,
        bytes_base64: Seq<char>,
    },
    PublishR2 {
        message_id: Seq<char>,
        kind: PayloadKind,
        payload_hash: Seq<char>,
        filename: Option<Seq<char>>,
        object_key: Seq<char>,
        size: usize,
        expires_at: i64,
    },
}

/// A relayed payload with its texts as character sequences.
pub enum RelayPayloadView {
    Inline { bytes_base64: Seq<char> },
    R2 { object_key: Seq<char>, size: usize, expires_at: i64 },
}

/// A relayed message with its texts as character sequences.
pub struct RelayMessageView {
    pub sequence: u64,
    pub source: Seq<char>,
    pub message_id: Seq<char>,
    pub kind: PayloadKind,
    pub payload_hash: Seq<char>,
    pub filename: Option<Seq<char>>,
    pub payload: RelayPayloadView,
}

/// A push request with its texts as character sequences.
pub struct PushRequestView {
    pub client_id: Seq<char>,
    pub message_id: Seq<char>,
    pub kind: PayloadKind,
    pub payload_hash: Seq<char>,
    pub filename: Option<Seq<char>>,
    pub bytes_base64: Seq<char>,
}

impl View for ClientWsMessage {
    type V = ClientWsMessageView;

    open spec fn view(&self) -> ClientWsMessageView {
        match *self {
            ClientWsMessage::Hello { client_id, client_name, last_seen_sequence } => {
                ClientWsMessageView::Hello {
                    client_id: client_id@,
                    client_name: client_name@,
                    last_seen_sequence,
                }
            },
            ClientWsMessage::PublishInline {
                message_id,
                kind,
                payload_hash,
                filename,
                bytes_base64,
            } => {
                ClientWsMessageView::PublishInline {
                    message_id: message_id@,
                    kind,
                    payload_hash: payload_hash@,
                    filename: optional_text(filename),
                    bytes_base64: bytes_base64@,
                }
            },
            ClientWsMessage::PublishR2 {
                message_id,
                kind,
                payload_hash,
                filename,
                object_key,
                size,
                expires_at,
            } => {
                ClientWsMessageView::PublishR2 {
                    message_id: message_id@,
                    kind,
                    payload_hash: payload_hash@,
                    filename: optional_text(filename),
                    object_key: object_key@,
                    size,
                    expires_at,
                }
            },
        }
    }
}

impl View for RelayPayload {
    type V = RelayPayloadView;

    open spec fn view(&self) -> RelayPayloadView {
        match *self {
            RelayPayload::Inline { bytes_base64 } => RelayPayloadView::Inline {
                bytes_base64: bytes_base64@,
            },
            RelayPayload::R2 { object_key, size, expires_at } => RelayPayloadView::R2 {
                object_key: object_key@,
                size,
                expires_at,
            },
        }
    }
}

impl View for RelayMessage {
    type V = RelayMessageView;

    open spec fn view(&self) -> RelayMessageView {
        RelayMessageView {
            sequence: self.sequence,
            source: self.source@,
            message_id: self.message_id@,
            kind: self.kind,
            payload_hash: self.payload_hash@,
            filename: optional_text(self.filename),
            payload: self.payload@,
        }
    }
}

impl View for PushRequest {
    type V = PushRequestView;

    open spec fn view(&self) -> PushRequestView {
        PushRequestView {
            client_id: self.client_id@,
            message_id: self.message_id@,
            kind: self.kind,
            payload_hash: self.payload_hash@,
            filename: optional_text(self.filename),
            bytes_base64: self.bytes_base64@,
        }
    }
}

/// The messages of a sequence, each with its texts as character sequences.
pub open spec fn messages_view(messages: Seq<RelayMessage>) -> Seq<RelayMessageView> {
    messages.map_values(|message: RelayMessage| message@)
}

/// The name of a kind on the wire.
pub open spec fn kind_name(kind: PayloadKind) -> Seq<char> {
    match kind {
        PayloadKind::Text => "text"@,
        PayloadKind::ImagePng => "image_png"@,
        PayloadKind::File => "file"@,
    }
}

impl PayloadKind {
    /// The name of the kind on the wire.
    pub fn as_str(self) -> (name: &'static str)
        ensures
            name@ == kind_name(self),
    {
        match self {
            PayloadKind::Text => "text",
            PayloadKind::ImagePng => "image_png",
            PayloadKind::File => "file",
        }
    }
}

/// Different kinds have different names.
pub proof fn kind_names_are_distinct(a: PayloadKind, b: PayloadKind)
    requires
        kind_name(a) == kind_name(b),
    ensures
        a == b,
{
    reveal_strlit("text");
    reveal_strlit("image_png");
    reveal_strlit("file");
    assert("text"@[0] == 't');
    assert("image_png"@[0] == 'i');
    assert("file"@[0] == 'f');
}

/// Copies an optional string.
pub(crate) fn copy_optional(text: &Option<String>) -> (copy: Option<String>)
    ensures
        copy == *text,
{
    match text {
        Some(text) => Some(text.clone()),
        None => None,
    }
}

/// Copies a relayed message.
pub(crate) fn copy_message(message: &RelayMessage) -> (copy: RelayMessage)
    ensures
        copy == *message,
{
    let payload = match &message.payload {
        RelayPayload::Inline { bytes_base64 } => RelayPayload::Inline {
            bytes_base64: bytes_base64.clone(),
        },
        RelayPayload::R2 { object_key, size, expires_at } => RelayPayload::R2 {
            object_key: object_key.clone(),
            size: *size,
            expires_at: *expires_at,
        },
    };
    RelayMessage {
        sequence: message.sequence,
        source: message.source.clone(),
        message_id: message.message_id.clone(),
        kind: message.kind,
        payload_hash: message.payload_hash.clone(),
        filename: copy_optional(&message.filename),
        payload,
    }
}

} // verus!
