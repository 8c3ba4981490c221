//! The web socket relay: its addresses, the conversation on a connection, and the transfer of
//! stored objects.

use crate::codec::{
    json_string_member, percent_encoded, percent_encoded_text_is_url_safe,
    percent_encoding_is_injective, read_json_string, url_encode,
};
use crate::config::ClientConfig;
use crate::network::endpoint;
use crate::protocol::{ClientWsMessage, ClientWsMessageView, ServerWsMessage};
use crate::text::{
    lemma_encoding_is_injective, optional_str, starts_with, text_between, trim_trailing_slashes,
    without_trailing_slashes,
};
use vstd::prelude::*;
use vstd::utf8::encode_utf8;

verus! {

/// Seconds between two pings, which keep the connection warm.
pub const PING_INTERVAL_SECS: u64 = 20;

/// Seconds without data or pong after which a connection is taken for dead, even when no error
/// was reported.
pub const READ_IDLE_TIMEOUT_SECS: u64 = 60;

/// The error of an address that cannot be made.
#[derive(Debug, Clone, Copy, PartialEq, Eq, Structural)]
pub enum EndpointError {
    /// The server URL starts neither with `http://` nor with `https://`.
    UnsupportedScheme,
}

/// The web socket address of a server, where its URL has a scheme that has one.
pub open spec fn ws_endpoint_text(server_url: Seq<char>) -> Option<Seq<char>> {
    let base = without_trailing_slashes(server_url);
    if "https://"@.is_prefix_of(base) {
        Some("wss://"@ + base.skip("https://"@.len() as int) + "/ws"@)
    } else if "http://"@.is_prefix_of(base) {
        Some("ws://"@ + base.skip("http://"@.len() as int) + "/ws"@)
    } else {
        None
    }
}

/// The web socket address of a server.
pub fn ws_endpoint(server_url: &str) -> (url: Result<String, EndpointError>)
    ensures
        match (ws_endpoint_text(server_url@), url) {
            (Some(text), Ok(url)) => url@ == text,
            (None, Err(error)) => error == EndpointError::UnsupportedScheme,
            _ => false,
        },
{
    let base = trim_trailing_slashes(server_url);
    proof {
        reveal_strlit("https://");
        reveal_strlit("http://");
    }
    let (scheme, skipped): (&str, usize) = if starts_with(&base, "https://") {
        ("wss://", 8)
    } else if starts_with(&base, "http://") {
        ("ws://", 7)
    } else {
        return Err(EndpointError::UnsupportedScheme);
    };
    let rest = text_between(&base, skipped, base.len());
    assert(rest@ =~= base@.skip(skipped as int));
    let mut url = scheme.to_owned();
    url.append(&rest);
    url.append("/ws");
    Ok(url)
}

/// The address of a stored object: the message id in the path, and the file name in the query
/// where there is one, both percent-encoded.
pub open spec fn object_endpoint_text(
    server_url: Seq<char>,
    message_id: Seq<char>,
    filename: Option<Seq<char>>,
) -> Seq<char> {
    let object = without_trailing_slashes(server_url) + "/objects/"@ + percent_encoded(
        encode_utf8(message_id),
    );
    match filename {
        Some(filename) => object + "?filename="@ + percent_encoded(encode_utf8(filename)),
        None => object,
    }
}

/// The address of a stored object.
pub fn object_endpoint(
    server_url: &str,
    message_id: &str,
    filename: Option<&str>,
) -> (url: Result<String, EndpointError>)
    ensures
        url matches Ok(url) && url@ == object_endpoint_text(
            server_url@,
            message_id@,
            optional_str(filename),
        ),
{
    let mut url = endpoint(server_url, "/objects/");
    url.append(&url_encode(message_id));
    if let Some(filename) = filename {
        url.append("?filename=");
        url.append(&url_encode(filename));
    }
    Ok(url)
}

/// The address of an object is not that of another: who knows the address knows the message id and
/// the file name, so a download asks for what the upload stored.
pub proof fn object_addresses_are_distinct(
    server_url: Seq<char>,
    message_a: Seq<char>,
    filename_a: Option<Seq<char>>,
    message_b: Seq<char>,
    filename_b: Option<Seq<char>>,
)
    requires
        object_endpoint_text(server_url, message_a, filename_a) == object_endpoint_text(
            server_url,
            message_b,
            filename_b,
        ),
    ensures
        message_a == message_b,
        filename_a == filename_b,
{
    reveal_strlit("?filename=");
    let base = without_trailing_slashes(server_url) + "/objects/"@;
    let id_a = percent_encoded(encode_utf8(message_a));
    let id_b = percent_encoded(encode_utf8(message_b));
    let url = object_endpoint_text(server_url, message_a, filename_a);
    let start = base.len() as int;
    // The query starts at the first question mark behind the base.
    assert(id_a.len() == id_b.len()) by {
        if id_a.len() < id_b.len() {
            percent_encoded_text_is_url_safe(encode_utf8(message_b), id_a.len() as int);
            assert(url[start + id_a.len()] == id_b[id_a.len() as int]);
            assert(filename_a is Some ==> url[start + id_a.len()] == '?');
            assert(filename_a is None ==> url.len() == start + id_a.len());
        }
        if id_b.len() < id_a.len() {
            percent_encoded_text_is_url_safe(encode_utf8(message_a), id_b.len() as int);
            assert(url[start + id_b.len()] == id_a[id_b.len() as int]);
            assert(filename_b is Some ==> url[start + id_b.len()] == '?');
            assert(filename_b is None ==> url.len() == start + id_b.len());
        }
    }
    let end = start + id_a.len();
    assert(id_a =~= url.subrange(start, end));
    assert(id_b =~= url.subrange(start, end));
    percent_encoding_is_injective(encode_utf8(message_a), encode_utf8(message_b));
    lemma_encoding_is_injective(message_a, message_b);
    if filename_a is Some {
        assert(url.len() > end);
        assert(filename_b is Some);
        let name_a = percent_encoded(encode_utf8(filename_a->0));
        let name_b = percent_encoded(encode_utf8(filename_b->0));
        assert(name_a =~= url.skip(end + "?filename="@.len()));
        assert(name_b =~= url.skip(end + "?filename="@.len()));
        percent_encoding_is_injective(encode_utf8(filename_a->0), encode_utf8(filename_b->0));
        lemma_encoding_is_injective(filename_a->0, filename_b->0);
    } else {
        assert(url.len() == end);
    }
}

/// The first message on a connection: who the client is and what it has seen.
pub fn hello_message(config: &ClientConfig, last_seen_sequence: u64) -> (hello: ClientWsMessage)
    ensures
        hello@ == (ClientWsMessageView::Hello {
            client_id: config.client_id@,
            client_name: config.client_name@,
            last_seen_sequence,
        }),
{
    ClientWsMessage::Hello {
        client_id: config.client_id.clone(),
        client_name: config.client_name.clone(),
        last_seen_sequence,
    }
}

/// What the writing half of a connection meets.
#[derive(Debug)]
pub enum WriterEvent {
    /// A message is due, and this is its JSON text.
    Encoded(String),
    /// A message is due that could not be put into JSON.
    EncodingFailed,
    /// No more messages will come.
    OutboxClosed,
    /// The ping interval is over.
    PingDue,
    /// A frame went out.
    FrameSent,
    /// A frame could not be sent.
    SendFailed,
}

/// What the writing half of a connection does next.
#[derive(Debug)]
pub enum WriterAction {
    SendText(String),
    SendPing,
    /// Report the message that could not be encoded, and go on.
    WarnAndWait,
    /// Wait for what comes next.
    Wait,
    /// Stop, and tell the reading half.
    Close,
}

/// What the writing half does on an event: frames go out as they fall due, a message that cannot be
/// encoded is skipped, and the end of the outbox or a failed send ends the connection.
pub fn writer_step(event: WriterEvent) -> (action: WriterAction)
    ensures
        match event {
            WriterEvent::Encoded(text) => action matches WriterAction::SendText(sent) && sent@
                == text@,
            WriterEvent::EncodingFailed => action is WarnAndWait,
            WriterEvent::OutboxClosed => action is Close,
            WriterEvent::PingDue => action is SendPing,
            WriterEvent::FrameSent => action is Wait,
            WriterEvent::SendFailed => action is Close,
        },
{
    match event {
        WriterEvent::Encoded(text) => WriterAction::SendText(text),
        WriterEvent::EncodingFailed => WriterAction::WarnAndWait,
        WriterEvent::OutboxClosed => WriterAction::Close,
        WriterEvent::PingDue => WriterAction::SendPing,
        WriterEvent::FrameSent => WriterAction::Wait,
        WriterEvent::SendFailed => WriterAction::Close,
    }
}

/// The errors of a connection that are told apart.
#[derive(Debug, Clone, Copy, PartialEq, Eq, Structural)]
pub enum ReadErrorKind {
    ConnectionClosed,
    ResetWithoutClosingHandshake,
    ConnectionReset,
    ConnectionAborted,
    BrokenPipe,
    UnexpectedEof,
    Other,
}

/// What the reading half of a connection meets.
#[derive(Debug)]
pub enum ReaderEvent {
    /// Neither data nor a pong came within the idle timeout.
    IdleTimeout,
    /// A text frame came, and this is what it says.
    Decoded(ServerWsMessage),
    /// A text frame came that is no relay message.
    Undecodable,
    /// A decoded message was handed on.
    Delivered,
    /// Nobody takes decoded messages any more.
    InboxClosed,
    /// The peer closes the connection.
    CloseFrame,
    /// A frame of another kind came, such as a pong.
    OtherFrame,
    /// Reading failed.
    Failed(ReadErrorKind),
    /// The stream is at its end.
    EndOfStream,
    /// The writing half has stopped.
    WriterClosed,
}

/// How the end of a connection is reported.
#[derive(Debug, Clone, Copy, PartialEq, Eq, Structural)]
pub enum EndReport {
    Silent,
    IdleTimeout,
    ClosedByPeer,
    ResetByPeer,
    Dropped,
    ReadFailed,
}

/// What the reading half of a connection does next.
#[derive(Debug)]
pub enum ReaderAction {
    Deliver(ServerWsMessage),
    /// Report the frame that could not be decoded, and go on.
    WarnAndRead,
    /// Wait for the next frame.
    Read,
    /// Drop the connection, so that a fresh one can be made.
    Stop(EndReport),
}

/// How a read error is reported: the ways in which a peer or the network drops a connection are
/// expected, anything else is a failure.
pub open spec fn end_report(kind: ReadErrorKind) -> EndReport {
    match kind {
        ReadErrorKind::ConnectionClosed => EndReport::ClosedByPeer,
        ReadErrorKind::ResetWithoutClosingHandshake => EndReport::ResetByPeer,
        ReadErrorKind::Other => EndReport::ReadFailed,
        _ => EndReport::Dropped,
    }
}

fn report_for(kind: ReadErrorKind) -> (report: EndReport)
    ensures
        report == end_report(kind),
{
    match kind {
        ReadErrorKind::ConnectionClosed => EndReport::ClosedByPeer,
        ReadErrorKind::ResetWithoutClosingHandshake => EndReport::ResetByPeer,
        ReadErrorKind::ConnectionReset => EndReport::Dropped,
        ReadErrorKind::ConnectionAborted => EndReport::Dropped,
        ReadErrorKind::BrokenPipe => EndReport::Dropped,
        ReadErrorKind::UnexpectedEof => EndReport::Dropped,
        ReadErrorKind::Other => EndReport::ReadFailed,
    }
}

/// What the reading half does on an event: decoded messages are handed on, other frames and frames
/// that cannot be decoded are passed over, and silence, the peer, an error, or the end of either
/// side of the conversation ends the connection.
pub fn reader_step(event: ReaderEvent) -> (action: ReaderAction)
    ensures
        match event {
            ReaderEvent::IdleTimeout => action == ReaderAction::Stop(EndReport::IdleTimeout),
            ReaderEvent::Decoded(message) => action == ReaderAction::Deliver(message),
            ReaderEvent::Undecodable => action is WarnAndRead,
            ReaderEvent::Delivered => action is Read,
            ReaderEvent::InboxClosed => action == ReaderAction::Stop(EndReport::Silent),
            ReaderEvent::CloseFrame => action == ReaderAction::Stop(EndReport::Silent),
            ReaderEvent::OtherFrame => action is Read,
            ReaderEvent::Failed(kind) => action == ReaderAction::Stop(end_report(kind)),
            ReaderEvent::EndOfStream => action == ReaderAction::Stop(EndReport::Silent),
            ReaderEvent::WriterClosed => action == ReaderAction::Stop(EndReport::Silent),
        },
{
    match event {
        ReaderEvent::IdleTimeout => ReaderAction::Stop(EndReport::IdleTimeout),
        ReaderEvent::Decoded(message) => ReaderAction::Deliver(message),
        ReaderEvent::Undecodable => ReaderAction::WarnAndRead,
        ReaderEvent::Delivered => ReaderAction::Read,
        ReaderEvent::InboxClosed => ReaderAction::Stop(EndReport::Silent),
        ReaderEvent::CloseFrame => ReaderAction::Stop(EndReport::Silent),
        ReaderEvent::OtherFrame => ReaderAction::Read,
        ReaderEvent::Failed(kind) => ReaderAction::Stop(report_for(kind)),
        ReaderEvent::EndOfStream => ReaderAction::Stop(EndReport::Silent),
        ReaderEvent::WriterClosed => ReaderAction::Stop(EndReport::Silent),
    }
}

/// The largest piece in which an object is uploaded.
pub const UPLOAD_CHUNK_BYTES: usize = 65536;

/// Where the piece that starts at `position` ends.
pub open spec fn chunk_end(position: int, total: int) -> int {
    if total - position > UPLOAD_CHUNK_BYTES {
        position + UPLOAD_CHUNK_BYTES
    } else {
        total
    }
}

/// The pieces in which the bytes from `position` on are uploaded.
pub open spec fn chunks_from(bytes: Seq<u8>, position: int) -> Seq<Seq<u8>>
    decreases bytes.len() - position,
{
    if 0 <= position < bytes.len() {
        let end = chunk_end(position, bytes.len() as int);
        seq![bytes.subrange(position, end)] + chunks_from(bytes, end)
    } else {
        Seq::empty()
    }
}

/// How far an upload has come.
#[derive(Debug)]
pub struct UploadCursor {
    position: usize,
    total: usize,
}

impl UploadCursor {
    /// The bytes handed out so far.
    pub closed spec fn position(self) -> int {
        self.position as int
    }

    /// The bytes to hand out in all.
    pub closed spec fn total(self) -> int {
        self.total as int
    }

    /// The cursor never passes the end.
    pub open spec fn wf(self) -> bool {
        0 <= self.position() <= self.total() <= usize::MAX
    }

    /// A cursor at the start of an object of `total` bytes.
    pub fn new(total: usize) -> (cursor: Self)
        ensures
            cursor.wf(),
            cursor.position() == 0,
            cursor.total() == total,
    {
        UploadCursor { position: 0, total }
    }

    /// The bounds of the next piece, `None` at the end of the object.
    pub fn next_chunk(&mut self) -> (chunk: Option<(usize, usize)>)
        requires
            old(self).wf(),
        ensures
            final(self).wf(),
            final(self).total() == old(self).total(),
            if old(self).position() < old(self).total() {
                &&& chunk matches Some((start, end))
                &&& start == old(self).position()
                &&& end == chunk_end(old(self).position(), old(self).total())
                &&& start < end <= start + UPLOAD_CHUNK_BYTES
                &&& final(self).position() == end
            } else {
                &&& chunk is None
                &&& final(self).position() == old(self).position()
            },
    {
        if self.position >= self.total {
            return None;
        }
        let start = self.position;
        let end = if self.total - start > UPLOAD_CHUNK_BYTES {
            start + UPLOAD_CHUNK_BYTES
        } else {
            self.total
        };
        self.position = end;
        Some((start, end))
    }
}

/// The pieces of an upload, put together, are the object: nothing is left out, doubled or moved.
pub proof fn chunks_make_up_the_object(bytes: Seq<u8>, position: int)
    requires
        0 <= position <= bytes.len(),
    ensures
        chunks_from(bytes, position).flatten() == bytes.skip(position),
    decreases bytes.len() - position,
{
    let chunks = chunks_from(bytes, position);
    if position < bytes.len() {
        let end = chunk_end(position, bytes.len() as int);
        chunks_make_up_the_object(bytes, end);
        assert(chunks.first() == bytes.subrange(position, end));
        assert(chunks.drop_first() =~= chunks_from(bytes, end));
        assert(bytes.subrange(position, end) + bytes.skip(end) =~= bytes.skip(position));
    } else {
        assert(bytes.skip(position) =~= Seq::<u8>::empty());
    }
}

/// Why a transfer of a stored object fails.
#[derive(Debug, Clone, Copy, PartialEq, Eq, Structural)]
pub enum TransferError {
    /// The reply to an upload is no JSON document.
    InvalidReply,
    /// The reply to an upload names no object.
    MissingObjectKey,
    /// The reply to a download does not say how long the object is.
    MissingContentLength,
}

/// What is made of the object key found in a reply: `None` stands for a reply that is no JSON
/// document, `Some(None)` for one without the key.
pub open spec fn object_key_outcome(member: Option<Option<Seq<char>>>) -> Result<
    Seq<char>,
    TransferError,
> {
    match member {
        Some(Some(key)) => Ok(key),
        Some(None) => Err(TransferError::MissingObjectKey),
        None => Err(TransferError::InvalidReply),
    }
}

/// The object key, where the reply named one.
pub fn take_object_key(member: Option<Option<String>>) -> (key: Result<String, TransferError>)
    ensures
        match member {
            Some(Some(named)) => key matches Ok(key) && key@ == named@,
            Some(None) => key matches Err(error) && error == TransferError::MissingObjectKey,
            None => key matches Err(error) && error == TransferError::InvalidReply,
        },
{
    match member {
        Some(Some(key)) => Ok(key),
        Some(None) => Err(TransferError::MissingObjectKey),
        None => Err(TransferError::InvalidReply),
    }
}

/// The object key in the reply to an upload.
pub fn object_key_from_reply(body: &[u8]) -> (key: Result<String, TransferError>)
    ensures
        match (object_key_outcome(json_string_member(body@, "object_key"@)), key) {
            (Ok(named), Ok(key)) => key@ == named,
            (Err(expected), Err(error)) => error == expected,
            _ => false,
        },
{
    let member = match read_json_string(body, "object_key") {
        Ok(member) => Some(member),
        Err(_) => None,
    };
    take_object_key(member)
}

/// An object on its way down.
#[derive(Debug)]
pub struct Download {
    expected: u64,
    received: Vec<u8>,
}

impl Download {
    /// The length that the reply announced.
    pub closed spec fn expected(self) -> u64 {
        self.expected
    }

    /// The bytes that have come so far.
    pub closed spec fn received(self) -> Seq<u8> {
        self.received@
    }

    /// Starts a download, which needs a reply that says how long the object is.
    pub fn start(content_length: Option<u64>) -> (download: Result<Self, TransferError>)
        ensures
            match content_length {
                Some(length) => {
                    &&& download matches Ok(download)
                    &&& download.expected() == length
                    &&& download.received() == Seq::<u8>::empty()
                },
                None => download matches Err(error) && error
                    == TransferError::MissingContentLength,
            },
    {
        match content_length {
            Some(length) => Ok(Download { expected: length, received: Vec::new() }),
            None => Err(TransferError::MissingContentLength),
        }
    }

    /// The length that the reply announced.
    pub fn expected_len(&self) -> (length: u64)
        ensures
            length == self.expected(),
    {
        self.expected
    }

    /// Takes the next piece and says how many bytes have come in all.
    pub fn accept(&mut self, chunk: &[u8]) -> (downloaded: usize)
        ensures
            final(self).expected() == old(self).expected(),
            final(self).received() == old(self).received() + chunk@,
            downloaded == final(self).received().len(),
    {
        let ghost before = self.received@;
        self.received.extend_from_slice(chunk);
        assert(self.received@ =~= before + chunk@);
        self.received.len()
    }

    /// The bytes that came, in the order in which they came.
    pub fn finish(self) -> (bytes: Vec<u8>)
        ensures
            bytes@ == self.received(),
    {
        self.received
    }
}

} // verus!
