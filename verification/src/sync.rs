//! The synchronisation rules: what is sent and how, what is applied and how, and what keeps the
//! two from chasing each other.

use crate::clipboard::{ClipboardItem, ClipboardItemView};
use crate::codec::{
    base64_bytes, base64_len, base64_text, decode_base64, encode_base64, is_uuid_v4_text,
    new_message_id,
};
use crate::config::ClientConfig;
use crate::protocol::{
    copy_optional, ClientWsMessage, ClientWsMessageView, PayloadKind, RelayMessage,
    RelayMessageView, RelayPayload, RelayPayloadView, ServerWsMessage,
};
use crate::security::{bytes_hash, calculate_bytes_hash};
use crate::text::{optional_text, same_text};
use vstd::prelude::*;
use vstd::utf8::{
    decode_utf8, encode_utf8, encode_utf8_decode_utf8, encode_utf8_valid_utf8, is_char_boundary,
    valid_utf8,
};

verus! {

/// The largest payload that is sent on the web socket itself: 10 MB.
pub const INLINE_PAYLOAD_LIMIT_BYTES: usize = 10 * 1024 * 1024;

/// The largest payload that is sent at all: 100 MB.
pub const R2_PAYLOAD_LIMIT_BYTES: usize = 100 * 1024 * 1024;

/// How long received files are kept, in seconds.
pub const RECEIVE_FILE_RETENTION_SECS: u64 = 24 * 60 * 60;

/// How often received files are cleaned up, in seconds.
pub const RECEIVE_CLEANUP_INTERVAL_SECS: u64 = 60 * 60;

/// How long stored objects are kept, in seconds.
pub const OBJECT_RETENTION_SECS: i64 = 24 * 60 * 60;

/// How long to wait before a lost connection is made anew, in seconds.
pub const RECONNECT_DELAY_SECS: u64 = 2;

/// How long to wait at most before the next attempt to connect, in seconds.
pub const MAX_RECONNECT_DELAY_SECS: u64 = 60;

/// The way that a payload takes to the other clients.
#[derive(Debug, Clone, Copy, PartialEq, Eq, Structural)]
pub enum OutgoingPayloadRoute {
    /// In the message itself.
    Inline,
    /// As a stored object that a message announces.
    R2,
}

/// Something from the local clipboard that is ready to be sent.
#[derive(Debug, Clone, PartialEq, Eq)]
pub struct LocalPayload {
    pub message_id: String,
    pub kind: PayloadKind,
    pub payload_hash: String,
    pub filename: Option<String>,
    pub bytes: Vec<u8>,
    pub route: OutgoingPayloadRoute,
}

/// A local payload with its texts as character sequences.
pub struct LocalPayloadView {
    pub message_id: Seq<char>,
    pub kind: PayloadKind,
    pub payload_hash: Seq<char>,
    pub filename: Option<Seq<char>>,
    pub bytes: Seq<u8>,
    pub route: OutgoingPayloadRoute,
}

impl View for LocalPayload {
    type V = LocalPayloadView;

    open spec fn view(&self) -> LocalPayloadView {
        LocalPayloadView {
            message_id: self.message_id@,
            kind: self.kind,
            payload_hash: self.payload_hash@,
            filename: optional_text(self.filename),
            bytes: self.bytes@,
            route: self.route,
        }
    }
}

/// The route of a payload by its size, `None` for one that is too large to be sent.
pub open spec fn route_of(len: nat) -> Option<OutgoingPayloadRoute> {
    if len > R2_PAYLOAD_LIMIT_BYTES {
        None
    } else if len <= INLINE_PAYLOAD_LIMIT_BYTES {
        Some(OutgoingPayloadRoute::Inline)
    } else {
        Some(OutgoingPayloadRoute::R2)
    }
}

/// The route of a payload by its size, `None` for one that is too large to be sent.
pub fn route_for_size(len: usize) -> (route: Option<OutgoingPayloadRoute>)
    ensures
        route == route_of(len as nat),
{
    if len > R2_PAYLOAD_LIMIT_BYTES {
        None
    } else if len <= INLINE_PAYLOAD_LIMIT_BYTES {
        Some(OutgoingPayloadRoute::Inline)
    } else {
        Some(OutgoingPayloadRoute::R2)
    }
}

/// Whether a copied file of this length is worth reading.
pub fn is_sendable_file(len: u64) -> (sendable: bool)
    ensures
        sendable == (len <= R2_PAYLOAD_LIMIT_BYTES),
{
    len <= R2_PAYLOAD_LIMIT_BYTES as u64
}

/// What the disk says of a copied file.
#[derive(Debug)]
pub enum FileReading {
    /// There is no regular file under the path, or the item is no file path.
    NotAFile,
    /// The file cannot be inspected.
    Unreadable,
    /// The length of the file, its contents, where they could be read, and its name, where it is
    /// Unicode.
    File { len: u64, contents: Option<Vec<u8>>, name: Option<String> },
}

/// What the disk says of a copied file, in model form.
pub enum FileReadingView {
    NotAFile,
    Unreadable,
    File { len: u64, contents: Option<Seq<u8>>, name: Option<Seq<char>> },
}

impl View for FileReading {
    type V = FileReadingView;

    open spec fn view(&self) -> FileReadingView {
        match *self {
            FileReading::NotAFile => FileReadingView::NotAFile,
            FileReading::Unreadable => FileReadingView::Unreadable,
            FileReading::File { len, contents, name } => FileReadingView::File {
                len,
                contents: match contents {
                    Some(contents) => Some(contents@),
                    None => None,
                },
                name: optional_text(name),
            },
        }
    }
}

/// Why no payload can be made of an item.
#[derive(Debug, Clone, Copy, PartialEq, Eq, Structural)]
pub enum PayloadError {
    /// The copied file cannot be read.
    UnreadableFile,
}

/// What an item has to send.
pub struct ItemContents {
    pub kind: PayloadKind,
    pub filename: Option<Seq<char>>,
    pub bytes: Seq<u8>,
}

/// What an item has to send: nothing, where it is the path of no file or of one too large.
pub open spec fn item_contents(item: ClipboardItemView, file: FileReadingView) -> Result<
    Option<ItemContents>,
    PayloadError,
> {
    match item {
        ClipboardItemView::Text(text) => Ok(
            Some(
                ItemContents { kind: PayloadKind::Text, filename: None, bytes: encode_utf8(text) },
            ),
        ),
        ClipboardItemView::ImagePng(png) => Ok(
            Some(ItemContents { kind: PayloadKind::ImagePng, filename: None, bytes: png }),
        ),
        ClipboardItemView::FilePath(_) => match file {
            FileReadingView::NotAFile => Ok(None),
            FileReadingView::Unreadable => Err(PayloadError::UnreadableFile),
            FileReadingView::File { len, contents, name } => if len > R2_PAYLOAD_LIMIT_BYTES {
                Ok(None)
            } else {
                match contents {
                    None => Err(PayloadError::UnreadableFile),
                    Some(bytes) => Ok(
                        Some(ItemContents { kind: PayloadKind::File, filename: name, bytes }),
                    ),
                }
            },
        },
    }
}

/// The payload of an item under a message id, where it has something to send that is not too
/// large.
pub open spec fn payload_outcome(
    item: ClipboardItemView,
    file: FileReadingView,
    message_id: Seq<char>,
) -> Result<Option<LocalPayloadView>, PayloadError> {
    match item_contents(item, file) {
        Err(error) => Err(error),
        Ok(None) => Ok(None),
        Ok(Some(contents)) => match route_of(contents.bytes.len()) {
            None => Ok(None),
            Some(route) => Ok(
                Some(
                    LocalPayloadView {
                        message_id,
                        kind: contents.kind,
                        payload_hash: bytes_hash(contents.bytes),
                        filename: contents.filename,
                        bytes: contents.bytes,
                        route,
                    },
                ),
            ),
        },
    }
}

/// Whether a payload, its absence or an error is the expected one.
pub open spec fn is_payload_outcome(
    actual: Result<Option<LocalPayload>, PayloadError>,
    expected: Result<Option<LocalPayloadView>, PayloadError>,
) -> bool {
    match (actual, expected) {
        (Ok(Some(payload)), Ok(Some(expected))) => payload@ == expected,
        (Ok(None), Ok(None)) => true,
        (Err(error), Err(expected)) => error == expected,
        _ => false,
    }
}

/// Makes the payload of a clipboard item under a given message id. The contents of a copied file
/// are what `file` says of it.
pub fn local_payload_with_id(item: ClipboardItem, file: FileReading, message_id: String) -> (
    payload: Result<Option<LocalPayload>, PayloadError>)
    ensures
        is_payload_outcome(payload, payload_outcome(item@, file@, message_id@)),
{
    let (kind, filename, bytes): (PayloadKind, Option<String>, Vec<u8>) = match item {
        ClipboardItem::Text(text) => (PayloadKind::Text, None, text.as_str().as_bytes_vec()),
        ClipboardItem::ImagePng(bytes) => (PayloadKind::ImagePng, None, bytes),
        ClipboardItem::FilePath(_) => match file {
            FileReading::NotAFile => return Ok(None),
            FileReading::Unreadable => return Err(PayloadError::UnreadableFile),
            FileReading::File { len, contents, name } => {
                if !is_sendable_file(len) {
                    return Ok(None);
                }
                match contents {
                    Some(bytes) => (PayloadKind::File, name, bytes),
                    None => return Err(PayloadError::UnreadableFile),
                }
            },
        },
    };
    let route = match route_for_size(bytes.len()) {
        Some(route) => route,
        None => return Ok(None),
    };
    let payload_hash = calculate_bytes_hash(&bytes);
    Ok(Some(LocalPayload { message_id, kind, payload_hash, filename, bytes, route }))
}

/// Makes the payload of a clipboard item under a fresh message id.
pub fn local_payload_for_item(
    _config: &ClientConfig,
    item: ClipboardItem,
    file: FileReading,
) -> (payload: Result<Option<LocalPayload>, PayloadError>)
    ensures
        exists|message_id: Seq<char>|
            #![trigger payload_outcome(item@, file@, message_id)]
            is_uuid_v4_text(message_id) && is_payload_outcome(
                payload,
                payload_outcome(item@, file@, message_id),
            ),
{
    let message_id = new_message_id();
    let ghost id = message_id@;
    let payload = local_payload_with_id(item, file, message_id);
    assert(is_payload_outcome(payload, payload_outcome(item@, file@, id)));
    payload
}

/// The hash of what was last pushed or applied: what the clipboard then shows is no news.
#[derive(Debug)]
pub struct EchoGuard {
    last_hash: String,
}

/// Whether a payload is news to a guard.
pub open spec fn is_news(last_hash: Seq<char>, payload_hash: Seq<char>) -> bool {
    payload_hash != last_hash
}

impl View for EchoGuard {
    type V = Seq<char>;

    closed spec fn view(&self) -> Seq<char> {
        self.last_hash@
    }
}

impl EchoGuard {
    /// A guard that has seen nothing.
    pub fn new() -> (guard: Self)
        ensures
            guard@ == Seq::<char>::empty(),
    {
        EchoGuard { last_hash: String::new() }
    }

    /// Whether a payload is to be pushed.
    pub fn should_push(&self, payload: &LocalPayload) -> (push: bool)
        ensures
            push == is_news(self@, payload@.payload_hash),
    {
        !same_text(&payload.payload_hash, &self.last_hash)
    }

    /// Takes note of a payload that was pushed or applied.
    pub fn record(&mut self, payload_hash: String)
        ensures
            final(self)@ == payload_hash@,
    {
        self.last_hash = payload_hash;
    }
}

/// What the watch on the local clipboard meets.
#[derive(Debug)]
pub enum LocalEvent {
    /// The clipboard may have changed.
    Changed,
    /// The clipboard shows nothing that can be sent.
    Nothing,
    /// The clipboard shows this.
    Shown(LocalPayload),
    /// The payload with this hash is on its way.
    Sent { payload_hash: String },
    /// Nobody takes payloads any more.
    Unwanted,
}

/// What the watch on the local clipboard does next.
#[derive(Debug)]
pub enum LocalStep {
    /// Look at the clipboard.
    Look,
    /// Hand the payload on.
    Send(LocalPayload),
    /// Wait for a change.
    Wait,
    /// End the watch.
    Stop,
}

/// What the guard has recorded after an event: what is on its way.
pub open spec fn guard_after(last_hash: Seq<char>, event: LocalEvent) -> Seq<char> {
    match event {
        LocalEvent::Sent { payload_hash } => payload_hash@,
        _ => last_hash,
    }
}

/// What the watch on the local clipboard does on an event: news are handed on, and recorded once
/// they are on their way.
pub fn local_step(guard: &mut EchoGuard, event: LocalEvent) -> (step: LocalStep)
    ensures
        final(guard)@ == guard_after(old(guard)@, event),
        match event {
            LocalEvent::Changed => step is Look,
            LocalEvent::Nothing => step is Wait,
            LocalEvent::Shown(payload) => if is_news(old(guard)@, payload@.payload_hash) {
                step == LocalStep::Send(payload)
            } else {
                step is Wait
            },
            LocalEvent::Sent { .. } => step is Wait,
            LocalEvent::Unwanted => step is Stop,
        },
{
    match event {
        LocalEvent::Changed => LocalStep::Look,
        LocalEvent::Nothing => LocalStep::Wait,
        LocalEvent::Shown(payload) => if guard.should_push(&payload) {
            LocalStep::Send(payload)
        } else {
            LocalStep::Wait
        },
        LocalEvent::Sent { payload_hash } => {
            guard.record(payload_hash);
            LocalStep::Wait
        },
        LocalEvent::Unwanted => LocalStep::Stop,
    }
}

/// A stored object that is to be announced.
#[derive(Debug)]
pub struct PendingUpload {
    pub message_id: String,
    pub kind: PayloadKind,
    pub payload_hash: String,
    pub filename: Option<String>,
    pub size: usize,
}

/// What to do to send a payload.
#[derive(Debug)]
pub enum SendStep {
    /// Send this message.
    Publish(ClientWsMessage),
    /// Upload these bytes under the message id and the file name, and announce them.
    Upload { pending: PendingUpload, bytes: Vec<u8> },
}

/// The message that carries a payload in itself.
pub open spec fn inline_message(payload: LocalPayloadView) -> ClientWsMessageView {
    ClientWsMessageView::PublishInline {
        message_id: payload.message_id,
        kind: payload.kind,
        payload_hash: payload.payload_hash,
        filename: payload.filename,
        bytes_base64: base64_text(payload.bytes),
    }
}

/// What to do to send a payload: it goes in a message of its own or is uploaded, by its route.
pub fn send_step(payload: LocalPayload) -> (step: SendStep)
    requires
        payload.route == OutgoingPayloadRoute::Inline ==> base64_len(payload.bytes@.len())
            <= isize::MAX,
    ensures
        match payload.route {
            OutgoingPayloadRoute::Inline => {
                &&& step matches SendStep::Publish(message)
                &&& message@ == inline_message(payload@)
                &&& base64_bytes(base64_text(payload.bytes@)) == Some(payload.bytes@)
            },
            OutgoingPayloadRoute::R2 => {
                &&& step matches SendStep::Upload { pending, bytes }
                &&& bytes@ == payload.bytes@
                &&& pending.message_id@ == payload.message_id@
                &&& pending.kind == payload.kind
                &&& pending.payload_hash@ == payload.payload_hash@
                &&& optional_text(pending.filename) == optional_text(payload.filename)
                &&& pending.size == payload.bytes@.len()
            },
        },
{
    match payload.route {
        OutgoingPayloadRoute::Inline => {
            let bytes_base64 = encode_base64(&payload.bytes);
            SendStep::Publish(
                ClientWsMessage::PublishInline {
                    message_id: payload.message_id,
                    kind: payload.kind,
                    payload_hash: payload.payload_hash,
                    filename: payload.filename,
                    bytes_base64,
                },
            )
        },
        OutgoingPayloadRoute::R2 => {
            let size = payload.bytes.len();
            SendStep::Upload {
                pending: PendingUpload {
                    message_id: payload.message_id,
                    kind: payload.kind,
                    payload_hash: payload.payload_hash,
                    filename: payload.filename,
                    size,
                },
                bytes: payload.bytes,
            }
        },
    }
}

/// When an object that is stored at `now_secs`, in seconds since the Unix epoch, expires.
pub fn expires_at_24h(now_secs: i64) -> (expires_at: i64)
    requires
        now_secs + OBJECT_RETENTION_SECS <= i64::MAX,
    ensures
        expires_at == now_secs + 86400,
{
    now_secs + OBJECT_RETENTION_SECS
}

/// The message that announces an uploaded object, `None` where the upload failed: what is not
/// stored is not announced.
pub fn announcement(
    pending: PendingUpload,
    object_key: Option<String>,
    now_secs: i64,
) -> (message: Option<ClientWsMessage>)
    requires
        now_secs + OBJECT_RETENTION_SECS <= i64::MAX,
    ensures
        match object_key {
            Some(object_key) => {
                &&& message matches Some(message)
                &&& message@ == (ClientWsMessageView::PublishR2 {
                    message_id: pending.message_id@,
                    kind: pending.kind,
                    payload_hash: pending.payload_hash@,
                    filename: optional_text(pending.filename),
                    object_key: object_key@,
                    size: pending.size,
                    expires_at: (now_secs + 86400) as i64,
                })
            },
            None => message is None,
        },
{
    match object_key {
        Some(object_key) => Some(
            ClientWsMessage::PublishR2 {
                message_id: pending.message_id,
                kind: pending.kind,
                payload_hash: pending.payload_hash,
                filename: pending.filename,
                object_key,
                size: pending.size,
                expires_at: expires_at_24h(now_secs),
            },
        ),
        None => None,
    }
}

/// What to do about a message of the relay.
#[derive(Debug)]
pub enum ReceiveStep {
    /// Wait for the next message.
    Wait,
    /// Report what the relay complains about, and wait for the next message.
    Warn(String),
    /// Apply the payload.
    Apply(RelayMessage),
}

/// The sequence number up to which a client is informed after a message.
pub open spec fn sequence_after(last_seen: u64, message: ServerWsMessage) -> u64 {
    match message {
        ServerWsMessage::HelloAck { latest_sequence } => latest_sequence,
        ServerWsMessage::Message(message) => message.sequence,
        ServerWsMessage::Error { .. } => last_seen,
    }
}

/// Takes a message of the relay: keeps track of the sequence number and says what to do.
pub fn receive_step(last_seen_sequence: &mut u64, message: ServerWsMessage) -> (step: ReceiveStep)
    ensures
        *final(last_seen_sequence) == sequence_after(*old(last_seen_sequence), message),
        match message {
            ServerWsMessage::HelloAck { .. } => step is Wait,
            ServerWsMessage::Error { message } => step == ReceiveStep::Warn(message),
            ServerWsMessage::Message(message) => step == ReceiveStep::Apply(message),
        },
{
    match message {
        ServerWsMessage::HelloAck { latest_sequence } => {
            *last_seen_sequence = latest_sequence;
            ReceiveStep::Wait
        },
        ServerWsMessage::Error { message } => ReceiveStep::Warn(message),
        ServerWsMessage::Message(message) => {
            *last_seen_sequence = message.sequence;
            ReceiveStep::Apply(message)
        },
    }
}

/// Why a remote payload cannot be applied.
#[derive(Debug, Clone, Copy, PartialEq, Eq, Structural)]
pub enum ApplyError {
    /// The payload is no base64.
    InvalidBase64,
    /// A text payload is no UTF-8.
    InvalidUtf8,
    /// A file payload has no name.
    MissingFilename,
}

/// Where the bytes of a remote payload come from.
#[derive(Debug)]
pub enum PayloadSource {
    /// The message is this client's own: there is nothing to apply.
    Own,
    /// They came in the message.
    Bytes(Vec<u8>),
    /// They are a stored object.
    Download,
}

/// Where the bytes of a remote payload come from, in model form.
pub enum PayloadSourceView {
    Own,
    Bytes(Seq<u8>),
    Download,
}

impl View for PayloadSource {
    type V = PayloadSourceView;

    open spec fn view(&self) -> PayloadSourceView {
        match *self {
            PayloadSource::Own => PayloadSourceView::Own,
            PayloadSource::Bytes(bytes) => PayloadSourceView::Bytes(bytes@),
            PayloadSource::Download => PayloadSourceView::Download,
        }
    }
}

/// Where the bytes of a remote payload come from, if its text decodes to `inline_bytes`.
pub open spec fn source_outcome(
    client_id: Seq<char>,
    message: RelayMessageView,
    inline_bytes: Option<Seq<u8>>,
) -> Result<PayloadSourceView, ApplyError> {
    if message.source == client_id {
        Ok(PayloadSourceView::Own)
    } else if message.payload is R2 {
        Ok(PayloadSourceView::Download)
    } else {
        match inline_bytes {
            Some(bytes) => Ok(PayloadSourceView::Bytes(bytes)),
            None => Err(ApplyError::InvalidBase64),
        }
    }
}

/// What the text of a payload in a message decodes to.
pub open spec fn inline_bytes(payload: RelayPayloadView) -> Option<Seq<u8>> {
    match payload {
        RelayPayloadView::Inline { bytes_base64 } => base64_bytes(bytes_base64),
        RelayPayloadView::R2 { .. } => None,
    }
}

/// Where the bytes of a remote payload come from.
pub fn payload_source(client_id: &str, message: &RelayMessage) -> (source: Result<
    PayloadSource,
    ApplyError,
>)
    ensures
        match (source, source_outcome(client_id@, message@, inline_bytes(message@.payload))) {
            (Ok(source), Ok(expected)) => source@ == expected,
            (Err(error), Err(expected)) => error == expected,
            _ => false,
        },
{
    if same_text(&message.source, client_id) {
        return Ok(PayloadSource::Own);
    }
    match &message.payload {
        RelayPayload::R2 { .. } => Ok(PayloadSource::Download),
        RelayPayload::Inline { bytes_base64 } => match decode_base64(bytes_base64) {
            Ok(bytes) => Ok(PayloadSource::Bytes(bytes)),
            Err(_) => Err(ApplyError::InvalidBase64),
        },
    }
}

/// Whether `len` bytes with the hash `actual_hash` are what a message announces: the hash is the
/// announced one, and so is the size of a stored object.
pub open spec fn is_announced(
    message: RelayMessageView,
    actual_hash: Seq<char>,
    len: nat,
) -> bool {
    &&& actual_hash == message.payload_hash
    &&& message.payload matches RelayPayloadView::R2 { size, .. } ==> size == len
}

/// Whether `len` bytes with the hash `actual_hash` are what a message announces.
pub fn matches_announcement(message: &RelayMessage, actual_hash: &str, len: usize) -> (same: bool)
    ensures
        same == is_announced(message@, actual_hash@, len as nat),
{
    let size_matches = match &message.payload {
        RelayPayload::R2 { size, .. } => *size == len,
        RelayPayload::Inline { .. } => true,
    };
    size_matches && same_text(actual_hash, &message.payload_hash)
}

/// Whether bytes are what a message announces.
pub open spec fn is_intact(message: RelayMessageView, bytes: Seq<u8>) -> bool {
    is_announced(message, bytes_hash(bytes), bytes.len())
}

/// The bytes of a remote payload, unless they are not what the message announces.
pub fn validate_remote_bytes(message: &RelayMessage, bytes: Vec<u8>) -> (valid: Option<Vec<u8>>)
    ensures
        if is_intact(message@, bytes@) {
            valid matches Some(valid) && valid@ == bytes@
        } else {
            valid is None
        },
{
    let payload_hash = calculate_bytes_hash(&bytes);
    if matches_announcement(message, &payload_hash, bytes.len()) {
        Some(bytes)
    } else {
        None
    }
}

/// The bytes that came in a message, unless they are not what the message announces; `None` for a
/// stored object.
pub fn bytes_from_inline_message(message: &RelayMessage) -> (bytes: Result<
    Option<Vec<u8>>,
    ApplyError,
>)
    ensures
        match message@.payload {
            RelayPayloadView::R2 { .. } => bytes matches Ok(bytes) && bytes is None,
            RelayPayloadView::Inline { bytes_base64 } => match base64_bytes(bytes_base64) {
                None => bytes matches Err(error) && error == ApplyError::InvalidBase64,
                Some(expected) => if is_intact(message@, expected) {
                    bytes matches Ok(Some(actual)) && actual@ == expected
                } else {
                    bytes matches Ok(bytes) && bytes is None
                },
            },
        },
{
    match &message.payload {
        RelayPayload::Inline { bytes_base64 } => match decode_base64(bytes_base64) {
            Ok(bytes) => Ok(validate_remote_bytes(message, bytes)),
            Err(_) => Err(ApplyError::InvalidBase64),
        },
        RelayPayload::R2 { .. } => Ok(None),
    }
}

/// What to do with the bytes of a remote payload.
#[derive(Debug)]
pub enum ApplyStep {
    /// They are missing or not what the message announces: leave the message alone.
    Skip,
    /// Put the item onto the clipboard, and tell the guard with `apply_written` how that went.
    WriteItem { item: ClipboardItem, payload_hash: String },
    /// Save them as a file.
    SaveFile { filename: String, bytes: Vec<u8> },
}

/// What to do with the bytes of a remote payload, in model form.
pub enum ApplyStepView {
    Skip,
    WriteItem { item: ClipboardItemView, payload_hash: Seq<char> },
    SaveFile { filename: Seq<char>, bytes: Seq<u8> },
}

impl View for ApplyStep {
    type V = ApplyStepView;

    open spec fn view(&self) -> ApplyStepView {
        match *self {
            ApplyStep::Skip => ApplyStepView::Skip,
            ApplyStep::WriteItem { item, payload_hash } => ApplyStepView::WriteItem {
                item: item@,
                payload_hash: payload_hash@,
            },
            ApplyStep::SaveFile { filename, bytes } => ApplyStepView::SaveFile {
                filename: filename@,
                bytes: bytes@,
            },
        }
    }
}

/// What to do with the bytes of a remote payload, if they are what the message announces.
pub open spec fn intact_outcome(message: RelayMessageView, bytes: Seq<u8>) -> Result<
    ApplyStepView,
    ApplyError,
> {
    match message.kind {
        PayloadKind::Text => if valid_utf8(bytes) {
            Ok(
                ApplyStepView::WriteItem {
                    item: ClipboardItemView::Text(decode_utf8(bytes)),
                    payload_hash: message.payload_hash,
                },
            )
        } else {
            Err(ApplyError::InvalidUtf8)
        },
        PayloadKind::ImagePng => Ok(
            ApplyStepView::WriteItem {
                item: ClipboardItemView::ImagePng(bytes),
                payload_hash: message.payload_hash,
            },
        ),
        PayloadKind::File => match message.filename {
            Some(filename) => Ok(ApplyStepView::SaveFile { filename, bytes }),
            None => Err(ApplyError::MissingFilename),
        },
    }
}

/// What to do with the bytes of a remote payload.
pub open spec fn apply_outcome(message: RelayMessageView, bytes: Seq<u8>) -> Result<
    ApplyStepView,
    ApplyError,
> {
    if is_intact(message, bytes) {
        intact_outcome(message, bytes)
    } else {
        Ok(ApplyStepView::Skip)
    }
}

/// Whether a step or an error is the expected one.
pub open spec fn is_apply_outcome(
    actual: Result<ApplyStep, ApplyError>,
    expected: Result<ApplyStepView, ApplyError>,
) -> bool {
    match (actual, expected) {
        (Ok(step), Ok(expected)) => step@ == expected,
        (Err(error), Err(expected)) => error == expected,
        _ => false,
    }
}

/// What to do with the bytes of a remote payload that are what the message announces: texts and
/// images go onto the clipboard, files into the receive directory.
pub fn apply_intact_bytes(message: &RelayMessage, bytes: Vec<u8>) -> (step: Result<
    ApplyStep,
    ApplyError,
>)
    ensures
        is_apply_outcome(step, intact_outcome(message@, bytes@)),
{
    match message.kind {
        PayloadKind::Text => match String::from_utf8(bytes) {
            Ok(text) => {
                proof {
                    encode_utf8_decode_utf8(text@);
                }
                Ok(
                    ApplyStep::WriteItem {
                        item: ClipboardItem::Text(text),
                        payload_hash: message.payload_hash.clone(),
                    },
                )
            },
            Err(_) => Err(ApplyError::InvalidUtf8),
        },
        PayloadKind::ImagePng => Ok(
            ApplyStep::WriteItem {
                item: ClipboardItem::ImagePng(bytes),
                payload_hash: message.payload_hash.clone(),
            },
        ),
        PayloadKind::File => match copy_optional(&message.filename) {
            Some(filename) => Ok(ApplyStep::SaveFile { filename, bytes }),
            None => Err(ApplyError::MissingFilename),
        },
    }
}

/// What to do with the bytes of a remote payload: nothing, where they are not what the message
/// announces.
pub fn apply_step(message: &RelayMessage, bytes: Vec<u8>) -> (step: Result<ApplyStep, ApplyError>)
    ensures
        is_apply_outcome(step, apply_outcome(message@, bytes@)),
{
    match validate_remote_bytes(message, bytes) {
        Some(bytes) => apply_intact_bytes(message, bytes),
        None => Ok(ApplyStep::Skip),
    }
}

/// What to do with a stored object once it was downloaded. One that could not be is skipped.
pub fn apply_downloaded(message: &RelayMessage, downloaded: Option<Vec<u8>>) -> (step: Result<
    ApplyStep,
    ApplyError,
>)
    ensures
        match downloaded {
            Some(bytes) => is_apply_outcome(step, apply_outcome(message@, bytes@)),
            None => step matches Ok(step) && step is Skip,
        },
{
    match downloaded {
        Some(bytes) => apply_step(message, bytes),
        None => Ok(ApplyStep::Skip),
    }
}

/// Takes the outcome of putting a remote item onto the clipboard: its hash is recorded if it is
/// there now, and the guard is left as it is if not.
pub fn apply_written(guard: &mut EchoGuard, payload_hash: String, written: bool) -> (applied: bool)
    ensures
        applied == written,
        final(guard)@ == (if written {
            payload_hash@
        } else {
            old(guard)@
        }),
{
    if written {
        guard.record(payload_hash);
    }
    written
}

/// What ends a session with the relay.
#[derive(Debug, Clone, Copy, PartialEq, Eq, Structural)]
pub enum SessionEvent {
    /// The connection could not be made.
    ConnectFailed,
    /// Sending has ended.
    ForwarderEnded,
    /// Receiving has ended.
    ReceiverEnded,
    /// The local clipboard is watched no longer.
    LocalTaskEnded,
}

/// What to do when a session has ended.
#[derive(Debug, Clone, Copy, PartialEq, Eq, Structural)]
pub enum SessionStep {
    /// Connect again after this many seconds.
    Reconnect { delay_secs: u64 },
    /// Stop the client.
    Stop,
}

/// How long to wait before the next attempt when so many attempts in a row have failed before the
/// last one: twice as long after every failure, up to a limit.
pub open spec fn backoff_secs(failures: nat) -> nat
    decreases failures,
{
    if failures == 0 {
        RECONNECT_DELAY_SECS as nat
    } else {
        let doubled = 2 * backoff_secs((failures - 1) as nat);
        if doubled < MAX_RECONNECT_DELAY_SECS {
            doubled
        } else {
            MAX_RECONNECT_DELAY_SECS as nat
        }
    }
}

/// What to do when a session has ended, and how many attempts have then failed in a row.
pub open spec fn session_outcome(failures: u32, event: SessionEvent) -> (SessionStep, u32) {
    match event {
        SessionEvent::ConnectFailed => (
            SessionStep::Reconnect { delay_secs: backoff_secs(failures as nat) as u64 },
            if failures < u32::MAX {
                (failures + 1) as u32
            } else {
                failures
            },
        ),
        SessionEvent::ForwarderEnded | SessionEvent::ReceiverEnded => (
            SessionStep::Reconnect { delay_secs: RECONNECT_DELAY_SECS },
            0,
        ),
        SessionEvent::LocalTaskEnded => (SessionStep::Stop, failures),
    }
}

proof fn lemma_backoff_is_bounded(failures: nat)
    ensures
        RECONNECT_DELAY_SECS <= backoff_secs(failures) <= MAX_RECONNECT_DELAY_SECS,
    decreases failures,
{
    if failures > 0 {
        lemma_backoff_is_bounded((failures - 1) as nat);
    }
}

proof fn lemma_backoff_stays(reached: nat, failures: nat)
    requires
        reached <= failures,
        backoff_secs(reached) == MAX_RECONNECT_DELAY_SECS,
    ensures
        backoff_secs(failures) == MAX_RECONNECT_DELAY_SECS,
    decreases failures,
{
    if reached < failures {
        lemma_backoff_stays(reached, (failures - 1) as nat);
    }
}

fn backoff_delay(failures: u32) -> (delay_secs: u64)
    ensures
        delay_secs == backoff_secs(failures as nat),
{
    let mut delay_secs: u64 = RECONNECT_DELAY_SECS;
    let mut counted: u32 = 0;
    while counted < failures && delay_secs < MAX_RECONNECT_DELAY_SECS
        invariant
            counted <= failures,
            delay_secs <= MAX_RECONNECT_DELAY_SECS,
            delay_secs == backoff_secs(counted as nat),
        decreases failures - counted,
    {
        delay_secs = if 2 * delay_secs < MAX_RECONNECT_DELAY_SECS {
            2 * delay_secs
        } else {
            MAX_RECONNECT_DELAY_SECS
        };
        counted += 1;
    }
    proof {
        if counted < failures {
            lemma_backoff_stays(counted as nat, failures as nat);
        }
    }
    delay_secs
}

/// What to do when a session has ended after `failures` attempts in a row that failed: a client
/// reconnects for as long as its own clipboard is watched, and waits longer after every attempt
/// that fails. The count for the next time comes back too.
pub fn session_step(failures: u32, event: SessionEvent) -> (next: (SessionStep, u32))
    ensures
        next == session_outcome(failures, event),
        next.0 matches SessionStep::Reconnect { delay_secs } ==> RECONNECT_DELAY_SECS <= delay_secs
            <= MAX_RECONNECT_DELAY_SECS,
{
    proof {
        lemma_backoff_is_bounded(failures as nat);
    }
    match event {
        SessionEvent::ConnectFailed => {
            let failed: u32 = if failures < u32::MAX {
                failures + 1
            } else {
                failures
            };
            (SessionStep::Reconnect { delay_secs: backoff_delay(failures) }, failed)
        },
        SessionEvent::ForwarderEnded => (
            SessionStep::Reconnect { delay_secs: RECONNECT_DELAY_SECS },
            0,
        ),
        SessionEvent::ReceiverEnded => (
            SessionStep::Reconnect { delay_secs: RECONNECT_DELAY_SECS },
            0,
        ),
        SessionEvent::LocalTaskEnded => (SessionStep::Stop, failures),
    }
}

/// The part of a hash that is logged: its first eight bytes, where they end a character.
pub fn hash_prefix(hash: &str) -> (prefix: &str)
    ensures
        if is_char_boundary(encode_utf8(hash@), 8) {
            encode_utf8(prefix@) == encode_utf8(hash@).subrange(0, 8)
        } else {
            prefix@ == hash@
        },
{
    if hash.is_char_boundary(8) {
        hash.split_at(8).0
    } else {
        hash
    }
}

/// Every payload that is sent is within the limits, and goes inline exactly when it is small.
pub proof fn payloads_are_routed_by_size(
    item: ClipboardItemView,
    file: FileReadingView,
    message_id: Seq<char>,
)
    ensures
        payload_outcome(item, file, message_id) matches Ok(Some(payload)) ==> {
            &&& payload.bytes.len() <= R2_PAYLOAD_LIMIT_BYTES
            &&& payload.route == OutgoingPayloadRoute::Inline <==> payload.bytes.len()
                <= INLINE_PAYLOAD_LIMIT_BYTES
            &&& payload.route == OutgoingPayloadRoute::Inline ==> base64_len(payload.bytes.len())
                <= isize::MAX
            &&& payload.payload_hash == bytes_hash(payload.bytes)
        },
{
}

/// The message under which the relay hands a payload on that came in the message `inline_message`.
pub open spec fn relayed_inline(
    payload: LocalPayloadView,
    source: Seq<char>,
    sequence: u64,
) -> RelayMessageView {
    RelayMessageView {
        sequence,
        source,
        message_id: payload.message_id,
        kind: payload.kind,
        payload_hash: payload.payload_hash,
        filename: payload.filename,
        payload: RelayPayloadView::Inline { bytes_base64: base64_text(payload.bytes) },
    }
}

/// The message under which the relay hands on a payload that is stored.
pub open spec fn relayed_object(
    payload: LocalPayloadView,
    source: Seq<char>,
    sequence: u64,
    object_key: Seq<char>,
    expires_at: i64,
) -> RelayMessageView {
    RelayMessageView {
        sequence,
        source,
        message_id: payload.message_id,
        kind: payload.kind,
        payload_hash: payload.payload_hash,
        filename: payload.filename,
        payload: RelayPayloadView::R2 {
            object_key,
            size: payload.bytes.len() as usize,
            expires_at,
        },
    }
}

/// What a client that receives an item does with it.
pub open spec fn arrival(item: ClipboardItemView, payload: LocalPayloadView) -> Result<
    ApplyStepView,
    ApplyError,
> {
    match item {
        ClipboardItemView::FilePath(_) => match payload.filename {
            Some(filename) => Ok(ApplyStepView::SaveFile { filename, bytes: payload.bytes }),
            None => Err(ApplyError::MissingFilename),
        },
        _ => Ok(ApplyStepView::WriteItem { item, payload_hash: payload.payload_hash }),
    }
}

/// What one client copies is what another pastes: a payload that is sent in a message arrives at
/// every other client unchanged. Texts and images come onto the clipboard as the very item, files
/// are saved with the very bytes. That the text of the payload decodes to its bytes is what
/// `send_step` ensures of it.
pub proof fn inline_payload_arrives(
    item: ClipboardItemView,
    file: FileReadingView,
    message_id: Seq<char>,
    payload: LocalPayloadView,
    source: Seq<char>,
    sequence: u64,
    client_id: Seq<char>,
)
    requires
        payload_outcome(item, file, message_id) == Ok::<Option<LocalPayloadView>, PayloadError>(
            Some(payload),
        ),
        base64_bytes(base64_text(payload.bytes)) == Some(payload.bytes),
        source != client_id,
    ensures
        ({
            let message = relayed_inline(payload, source, sequence);
            &&& source_outcome(client_id, message, inline_bytes(message.payload)) == Ok::<
                PayloadSourceView,
                ApplyError,
            >(PayloadSourceView::Bytes(payload.bytes))
            &&& apply_outcome(message, payload.bytes) == arrival(item, payload)
        }),
{
    if let ClipboardItemView::Text(text) = item {
        encode_utf8_valid_utf8(text);
        encode_utf8_decode_utf8(text);
    }
}

/// A payload that is stored and announced arrives at every other client unchanged, once it has
/// downloaded the bytes that were uploaded.
pub proof fn stored_payload_arrives(
    item: ClipboardItemView,
    file: FileReadingView,
    message_id: Seq<char>,
    payload: LocalPayloadView,
    source: Seq<char>,
    sequence: u64,
    object_key: Seq<char>,
    expires_at: i64,
    client_id: Seq<char>,
)
    requires
        payload_outcome(item, file, message_id) == Ok::<Option<LocalPayloadView>, PayloadError>(
            Some(payload),
        ),
        source != client_id,
    ensures
        ({
            let message = relayed_object(payload, source, sequence, object_key, expires_at);
            &&& source_outcome(client_id, message, inline_bytes(message.payload)) == Ok::<
                PayloadSourceView,
                ApplyError,
            >(PayloadSourceView::Download)
            &&& apply_outcome(message, payload.bytes) == arrival(item, payload)
        }),
{
    if let ClipboardItemView::Text(text) = item {
        encode_utf8_valid_utf8(text);
        encode_utf8_decode_utf8(text);
    }
}

/// A client never applies what it has sent itself.
pub proof fn own_messages_are_ignored(message: RelayMessageView, inline: Option<Seq<u8>>)
    ensures
        source_outcome(message.source, message, inline) == Ok::<PayloadSourceView, ApplyError>(
            PayloadSourceView::Own,
        ),
{
}

/// What is not what the message announces touches neither the clipboard nor the disk.
pub proof fn damaged_payloads_are_skipped(message: RelayMessageView, bytes: Seq<u8>)
    requires
        bytes_hash(bytes) != message.payload_hash || (
        message.payload matches RelayPayloadView::R2 { size, .. } && size != bytes.len()),
    ensures
        apply_outcome(message, bytes) == Ok::<ApplyStepView, ApplyError>(ApplyStepView::Skip),
{
}

/// What a client has applied it does not push back: when its clipboard shows the applied item, the
/// payload made of it is no news to a guard that has recorded the hash.
pub proof fn applied_items_are_not_pushed_back(
    message: RelayMessageView,
    bytes: Seq<u8>,
    item: ClipboardItemView,
    recorded_hash: Seq<char>,
    file: FileReadingView,
    message_id: Seq<char>,
)
    requires
        apply_outcome(message, bytes) == Ok::<ApplyStepView, ApplyError>(
            ApplyStepView::WriteItem { item, payload_hash: recorded_hash },
        ),
    ensures
        payload_outcome(item, file, message_id) matches Ok(Some(payload)) ==> !is_news(
            recorded_hash,
            payload.payload_hash,
        ),
{
    if message.kind == PayloadKind::Text {
        vstd::utf8::decode_utf8_encode_utf8(bytes);
    }
}

/// What a client has pushed it does not push again while its clipboard shows the same.
pub proof fn pushed_items_are_not_pushed_again(
    item: ClipboardItemView,
    file: FileReadingView,
    first_id: Seq<char>,
    second_id: Seq<char>,
)
    ensures
        payload_outcome(item, file, first_id) matches Ok(Some(first)) ==> (payload_outcome(
            item,
            file,
            second_id,
        ) matches Ok(Some(second)) && !is_news(first.payload_hash, second.payload_hash)),
{
}

/// The sequence number up to which a client is informed after a run of messages.
pub open spec fn sequence_after_all(last_seen: u64, messages: Seq<ServerWsMessage>) -> u64
    decreases messages.len(),
{
    if messages.len() == 0 {
        last_seen
    } else {
        sequence_after(
            sequence_after_all(last_seen, messages.drop_last()),
            messages.last(),
        )
    }
}

/// A client that reconnects asks for what follows the last message it was handed: complaints of
/// the relay do not make it forget where it was.
pub proof fn reconnecting_resumes_at_the_last_message(
    last_seen: u64,
    messages: Seq<ServerWsMessage>,
    i: int,
)
    requires
        0 <= i < messages.len(),
        messages[i] is Message,
        forall|j: int| i < j < messages.len() ==> #[trigger] messages[j] is Error,
    ensures
        sequence_after_all(last_seen, messages) == messages[i]->Message_0.sequence,
    decreases messages.len(),
{
    if i < messages.len() - 1 {
        let front = messages.drop_last();
        assert(messages[messages.len() - 1] is Error);
        assert(front[i] == messages[i]);
        assert forall|j: int| i < j < front.len() implies #[trigger] front[j] is Error by {
            assert(front[j] == messages[j]);
        }
        reconnecting_resumes_at_the_last_message(last_seen, front, i);
    }
}

/// The count of failed attempts after `attempts` more that all fail.
pub open spec fn failures_after(failures: u32, attempts: nat) -> u32
    decreases attempts,
{
    if attempts == 0 {
        failures
    } else {
        session_outcome(
            failures_after(failures, (attempts - 1) as nat),
            SessionEvent::ConnectFailed,
        ).1
    }
}

/// Reconnecting backs off exponentially: after every attempt that fails the client waits twice as
/// long as after the one before, up to a limit, and goes on trying.
pub proof fn reconnecting_backs_off_exponentially(failures: nat)
    ensures
        backoff_secs(0) == 2,
        backoff_secs(failures + 1) == 2 * backoff_secs(failures) || backoff_secs(failures + 1)
            == MAX_RECONNECT_DELAY_SECS,
        backoff_secs(failures) <= backoff_secs(failures + 1) <= 2 * backoff_secs(failures),
        backoff_secs(failures) < backoff_secs(failures + 1) || backoff_secs(failures)
            == MAX_RECONNECT_DELAY_SECS,
{
    lemma_backoff_is_bounded(failures);
}

/// A run of attempts that all fail waits by the backoff: behind attempt number `attempt`, counted
/// from zero after a session that worked, the client waits `backoff_secs(attempt)` seconds, and
/// tries again.
pub proof fn failed_attempts_wait_by_the_backoff(attempt: nat)
    requires
        attempt < u32::MAX,
    ensures
        failures_after(0, attempt) == attempt,
        session_outcome(failures_after(0, attempt), SessionEvent::ConnectFailed).0 == (
        SessionStep::Reconnect { delay_secs: backoff_secs(attempt) as u64 }),
    decreases attempt,
{
    if attempt > 0 {
        failed_attempts_wait_by_the_backoff((attempt - 1) as nat);
    }
}

/// The hash of what the clipboard shows in an event that has it shown.
pub open spec fn shown_hash(event: LocalEvent) -> Option<Seq<char>> {
    match event {
        LocalEvent::Shown(payload) => Some(payload.payload_hash@),
        _ => None,
    }
}

/// What the guard of a watch has recorded after a run of events.
pub open spec fn guard_after_all(last_hash: Seq<char>, events: Seq<LocalEvent>) -> Seq<char>
    decreases events.len(),
{
    if events.len() == 0 {
        last_hash
    } else {
        guard_after(guard_after_all(last_hash, events.drop_last()), events.last())
    }
}

/// Whether the payload that event number `i` of a run shows is handed on.
pub open spec fn hands_on(last_hash: Seq<char>, events: Seq<LocalEvent>, i: int) -> bool {
    &&& shown_hash(events[i]) is Some
    &&& is_news(guard_after_all(last_hash, events.take(i)), shown_hash(events[i])->0)
}

/// Whether event number `i` of a run says that a payload is on its way.
pub open spec fn is_sent(events: Seq<LocalEvent>, i: int) -> bool {
    events[i] is Sent
}

/// A run of the watch: what is handed on is then on its way, unless nobody takes it and the watch
/// ends, and nothing else is on its way.
pub open spec fn is_watch_run(last_hash: Seq<char>, events: Seq<LocalEvent>) -> bool {
    &&& forall|i: int|
        0 <= i && i + 1 < events.len() && #[trigger] hands_on(last_hash, events, i) ==> {
            ||| events[i + 1] matches LocalEvent::Sent { payload_hash } && payload_hash@
                == shown_hash(events[i])->0
            ||| events[i + 1] is Unwanted && i + 2 == events.len()
        }
    &&& forall|i: int|
        0 <= i < events.len() && #[trigger] is_sent(events, i) ==> i > 0 && hands_on(
            last_hash,
            events,
            i - 1,
        )
}

proof fn lemma_guard_keeps_what_was_sent(
    last_hash: Seq<char>,
    events: Seq<LocalEvent>,
    i: int,
    k: int,
)
    requires
        is_watch_run(last_hash, events),
        0 <= i,
        i + 2 <= k < events.len(),
        hands_on(last_hash, events, i),
        forall|m: int| i < m < k ==> !(#[trigger] hands_on(last_hash, events, m)),
    ensures
        guard_after_all(last_hash, events.take(k)) == shown_hash(events[i])->0,
    decreases k,
{
    assert(events.take(k).drop_last() =~= events.take(k - 1));
    assert(events.take(k).last() == events[k - 1]);
    if k == i + 2 {
        assert(events[i + 1] is Sent);
    } else {
        lemma_guard_keeps_what_was_sent(last_hash, events, i, k - 1);
        if is_sent(events, k - 1) {
            assert(hands_on(last_hash, events, k - 2));
        }
    }
}

/// Over any run of the watch no hash is handed on twice in a row, as long as nothing of another
/// client is applied in between.
pub proof fn nothing_is_sent_twice_in_a_row(
    last_hash: Seq<char>,
    events: Seq<LocalEvent>,
    i: int,
    j: int,
)
    requires
        is_watch_run(last_hash, events),
        0 <= i < j < events.len(),
        hands_on(last_hash, events, i),
        hands_on(last_hash, events, j),
        forall|m: int| i < m < j ==> !(#[trigger] hands_on(last_hash, events, m)),
    ensures
        shown_hash(events[i]) != shown_hash(events[j]),
{
    if j == i + 1 {
        assert(shown_hash(events[i + 1]) is Some);
        assert(!(events[i + 1] is Sent));
    } else {
        lemma_guard_keeps_what_was_sent(last_hash, events, i, j);
    }
}

} // verus!
