//! What is done next, by what has happened.

use crate::clipboard::windows::{watcher_step, WatcherEvent, WatcherStep};
use crate::clipboard::x11::{
    target_read, target_written, wait_step, TargetRead, TargetWriteError, WaitStep,
    XCLIP_POLL_MS, XCLIP_TIMEOUT_SECS,
};
use crate::cloudflare::{
    hello_message, object_key_from_reply, reader_step, take_object_key, writer_step, Download,
    EndReport, ReaderAction, ReaderEvent, TransferError, UploadCursor, WriterAction,
    WriterEvent, PING_INTERVAL_SECS, READ_IDLE_TIMEOUT_SECS,
};
use crate::codec::json_string_member;
use crate::config::{
    client_config, default_client_id, default_poll_interval, default_receive_dir, ClientConfig,
    Config,
};
use crate::protocol::{ClientWsMessage, ServerWsMessage};
use crate::sync::{
    apply_written, hash_prefix, local_step, receive_step, session_step, EchoGuard, LocalEvent,
    LocalPayload, LocalStep, ReceiveStep, SessionEvent, SessionStep, MAX_RECONNECT_DELAY_SECS,
    OBJECT_RETENTION_SECS, RECEIVE_CLEANUP_INTERVAL_SECS, RECEIVE_FILE_RETENTION_SECS,
    RECONNECT_DELAY_SECS,
};
use vstd::prelude::*;
use vstd::utf8::{encode_utf8, is_char_boundary};

verus! {

/// The listening window reports exactly the clipboard updates, and cleans up exactly when the client
/// is gone or no more messages come. It waits for a message once it listens and after each that was
/// dispatched, and each is dispatched unless the client is gone.
pub proof fn clipboard_updates_are_reported(event: WatcherEvent, step: WatcherStep)
    requires
        call_ensures(watcher_step, (event,), step),
    ensures
        step is Notify <==> event == (WatcherEvent::Message { clipboard_update: true }),
        step is Dispatch <==> event == (WatcherEvent::Message { clipboard_update: false }) || event
            == (WatcherEvent::Notified { received: true }),
        step is CleanUp <==> event == (WatcherEvent::Notified { received: false }) || event
            == WatcherEvent::Quit,
        step is GetMessage <==> event == (WatcherEvent::ListenerAdded { added: true }) || event
            == WatcherEvent::Dispatched,
        step is AddListener <==> event == (WatcherEvent::WindowCreated { created: true }),
        step is ReportNoWindow <==> event == (WatcherEvent::WindowCreated { created: false }),
        step is ReportNoListener <==> event == (WatcherEvent::ListenerAdded { added: false }),
{
}

/// A child process is killed exactly when it is still running after the timeout.
pub proof fn late_processes_are_killed(
    exited: bool,
    elapsed_ns: u128,
    timeout_ns: u128,
    step: WaitStep,
)
    requires
        call_ensures(wait_step, (exited, elapsed_ns, timeout_ns), step),
    ensures
        step is Exited <==> exited,
        step is Kill <==> !exited && timeout_ns <= elapsed_ns,
        step is Sleep <==> !exited && elapsed_ns < timeout_ns,
{
}

/// A target holds something exactly when `xclip` succeeded and printed something, and then all that
/// was printed. It timed out exactly when `xclip` had to be killed.
pub proof fn targets_hold_what_was_printed(success: Option<bool>, bytes: Vec<u8>, read: TargetRead)
    requires
        call_ensures(target_read, (success, bytes), read),
    ensures
        read is Contents <==> success == Some(true) && bytes@.len() > 0,
        read matches TargetRead::Contents(contents) ==> contents@ == bytes@,
        read is TimedOut <==> success is None,
{
}

/// A target was written exactly when `xclip` succeeded.
pub proof fn targets_are_written_on_success(
    success: Option<bool>,
    written: Result<(), TargetWriteError>,
)
    requires
        call_ensures(target_written, (success,), written),
    ensures
        written is Ok <==> success == Some(true),
        written == Err::<(), TargetWriteError>(TargetWriteError::TimedOut) <==> success is None,
{
}

/// The writing half of a connection sends exactly the texts and pings that are due, text by text as
/// it stands, and closes exactly when nothing more comes or a frame cannot be sent.
pub proof fn due_frames_are_sent(event: WriterEvent, action: WriterAction)
    requires
        call_ensures(writer_step, (event,), action),
    ensures
        action is SendText <==> event is Encoded,
        event matches WriterEvent::Encoded(text) ==> (action matches WriterAction::SendText(sent)
            && sent@ == text@),
        action is SendPing <==> event is PingDue,
        action is Close <==> event is OutboxClosed || event is SendFailed,
        action is Wait <==> event is FrameSent,
        action is WarnAndWait <==> event is EncodingFailed,
{
}

/// The reading half of a connection hands on exactly the messages that could be decoded, as they
/// are, reads on after each, after other frames and after what cannot be decoded, and stops
/// otherwise.
pub proof fn decoded_messages_are_delivered(event: ReaderEvent, action: ReaderAction)
    requires
        call_ensures(reader_step, (event,), action),
    ensures
        action is Deliver <==> event is Decoded,
        event matches ReaderEvent::Decoded(message) ==> action == ReaderAction::Deliver(message),
        action is Read <==> event is Delivered || event is OtherFrame,
        action is WarnAndRead <==> event is Undecodable,
        action == ReaderAction::Stop(EndReport::IdleTimeout) <==> event is IdleTimeout,
        action == ReaderAction::Stop(EndReport::Silent) <==> event is InboxClosed
            || event is CloseFrame || event is EndOfStream || event is WriterClosed,
        event matches ReaderEvent::Failed(kind) ==> {
            &&& action is Stop
            &&& action == ReaderAction::Stop(EndReport::ClosedByPeer) <==> kind is ConnectionClosed
            &&& action == ReaderAction::Stop(EndReport::ResetByPeer)
                <==> kind is ResetWithoutClosingHandshake
            &&& action == ReaderAction::Stop(EndReport::ReadFailed) <==> kind is Other
            &&& action == ReaderAction::Stop(EndReport::Dropped) <==> kind is ConnectionReset
                || kind is ConnectionAborted || kind is BrokenPipe || kind is UnexpectedEof
        },
{
}

/// What the clipboard shows is sent exactly when its hash is not the recorded one, and what is on
/// its way is recorded. The watch looks exactly at changes, and ends exactly when nobody takes
/// payloads any more.
pub proof fn news_are_sent_and_recorded(guard: &mut EchoGuard, event: LocalEvent, step: LocalStep)
    requires
        call_ensures(local_step, (guard, event), step),
    ensures
        step is Send <==> (event matches LocalEvent::Shown(payload) && payload.payload_hash@ != old(
            guard,
        )@),
        event matches LocalEvent::Shown(payload) ==> (step is Send ==> step == LocalStep::Send(
            payload,
        )),
        step is Look <==> event is Changed,
        step is Stop <==> event is Unwanted,
        event matches LocalEvent::Sent { payload_hash } ==> final(guard)@ == payload_hash@,
        !(event is Sent) ==> final(guard)@ == old(guard)@,
{
}

/// What was put onto the clipboard is recorded, and what could not be put there leaves the guard as
/// it is. A payload is then pushed exactly when its hash is not the recorded one.
pub proof fn recorded_payloads_are_not_pushed(
    guard: &mut EchoGuard,
    payload_hash: String,
    written: bool,
    applied: bool,
    later: &EchoGuard,
    payload: &LocalPayload,
    push: bool,
)
    requires
        call_ensures(apply_written, (guard, payload_hash, written), applied),
        call_ensures(EchoGuard::should_push, (later, payload), push),
    ensures
        applied == written,
        written ==> final(guard)@ == payload_hash@,
        !written ==> final(guard)@ == old(guard)@,
        push <==> payload.payload_hash@ != later@,
{
}

/// What the guard is told to record is what it has recorded.
pub proof fn guards_record_what_they_are_told(guard: &mut EchoGuard, payload_hash: String)
    requires
        call_ensures(EchoGuard::record, (guard, payload_hash), ()),
    ensures
        final(guard)@ == payload_hash@,
{
}

/// Every message of the relay is applied, every complaint is reported, and a greeting asks for
/// nothing. A client is informed up to the number that a greeting or a message names.
pub proof fn messages_are_applied_and_counted(
    last_seen: &mut u64,
    message: ServerWsMessage,
    step: ReceiveStep,
)
    requires
        call_ensures(receive_step, (last_seen, message), step),
    ensures
        message matches ServerWsMessage::Message(relayed) ==> step == ReceiveStep::Apply(relayed)
            && *final(last_seen) == relayed.sequence,
        message matches ServerWsMessage::Error { message: complaint } ==> step == ReceiveStep::Warn(
            complaint,
        ) && *final(last_seen) == *old(last_seen),
        message matches ServerWsMessage::HelloAck { latest_sequence } ==> step is Wait
            && *final(last_seen) == latest_sequence,
{
}

/// The client stops exactly when its clipboard is watched no longer. It waits two seconds after a
/// session that worked, and 2, 4, 8, 16, 32 and from then on 60 seconds after attempts that fail in
/// a row.
pub proof fn clients_reconnect(failures: u32, event: SessionEvent, next: (SessionStep, u32))
    requires
        call_ensures(session_step, (failures, event), next),
    ensures
        next.0 is Stop <==> event is LocalTaskEnded,
        event is LocalTaskEnded ==> next.1 == failures,
        event is ForwarderEnded || event is ReceiverEnded ==> {
            &&& next.0 == (SessionStep::Reconnect { delay_secs: 2 })
            &&& next.1 == 0
        },
        event is ConnectFailed ==> {
            &&& next.0 == (SessionStep::Reconnect {
                delay_secs: if failures == 0 {
                    2
                } else if failures == 1 {
                    4
                } else if failures == 2 {
                    8
                } else if failures == 3 {
                    16
                } else if failures == 4 {
                    32
                } else {
                    60
                },
            })
            &&& failures < u32::MAX ==> next.1 == failures + 1
            &&& failures == u32::MAX ==> next.1 == failures
        },
{
    crate::laws::sending::waits_double_up_to_a_minute(failures as nat);
}

/// A client introduces itself by its id and name, and says what it has seen.
pub proof fn greetings_say_who_and_how_far(
    config: &ClientConfig,
    last_seen: u64,
    hello: ClientWsMessage,
)
    requires
        call_ensures(hello_message, (config, last_seen), hello),
    ensures
        hello matches ClientWsMessage::Hello { client_id, client_name, last_seen_sequence }
            && client_id@ == config.client_id@ && client_name@ == config.client_name@
            && last_seen_sequence == last_seen,
{
}

/// A client runs with what its configuration says, under the name of the device where it has none
/// of its own, and takes payloads of up to 100 MB.
pub proof fn configurations_are_kept(config: Config, id: String, client: ClientConfig)
    requires
        call_ensures(client_config, (config, id), client),
    ensures
        client.server_url@ == config.server_url@,
        client.auth_token@ == config.auth_token@,
        client.receive_dir@ == config.receive_dir@,
        client.poll_interval_ms == config.poll_interval_ms,
        client.client_id@ == id@,
        config.client_name matches Some(name) ==> client.client_name@ == name@,
        config.client_name is None ==> client.client_name@ == id@,
        client.max_payload_bytes == 104_857_600,
{
}

/// A device is known by the name of the computer, else of the host, else by a fixed one.
pub proof fn devices_are_known_by_their_names(
    computer_name: Option<String>,
    hostname: Option<String>,
    id: String,
)
    requires
        call_ensures(default_client_id, (computer_name, hostname), id),
    ensures
        computer_name matches Some(name) ==> id@ == name@,
        computer_name is None ==> (hostname matches Some(name) ==> id@ == name@),
        computer_name is None && hostname is None ==> id@ == seq![
            'r', 'u', 's', 't', 'c', 'l', 'i', 'p', 's', 'y', 'n', 'c', '-', 'c', 'l', 'i', 'e',
            'n', 't',
        ],
{
    reveal_strlit("rustclipsync-client");
}

/// The object key is the one that the reply names, and a reply that names none is an error.
pub proof fn object_keys_are_those_named(
    body: &[u8],
    key: Result<String, TransferError>,
    member: Option<Option<String>>,
    taken: Result<String, TransferError>,
)
    requires
        call_ensures(object_key_from_reply, (body,), key),
        call_ensures(take_object_key, (member,), taken),
    ensures
        ({
            let field = seq!['o', 'b', 'j', 'e', 'c', 't', '_', 'k', 'e', 'y'];
            match json_string_member(body@, field) {
                Some(Some(named)) => key matches Ok(key) && key@ == named,
                Some(None) => key == Err::<String, TransferError>(TransferError::MissingObjectKey),
                None => key == Err::<String, TransferError>(TransferError::InvalidReply),
            }
        }),
        taken is Ok <==> (member matches Some(named) && named is Some),
        taken matches Ok(taken) ==> taken@ == member->0->0@,
        taken == Err::<String, TransferError>(TransferError::InvalidReply) <==> member is None,
{
    reveal_strlit("object_key");
    assert("object_key"@ =~= seq!['o', 'b', 'j', 'e', 'c', 't', '_', 'k', 'e', 'y']);
}

/// A download holds the pieces that came, in order, and counts all their bytes.
pub proof fn downloads_hold_what_came(
    download: &mut Download,
    chunk: &[u8],
    downloaded: usize,
    finished: Download,
    bytes: Vec<u8>,
)
    requires
        call_ensures(Download::accept, (download, chunk), downloaded),
        call_ensures(Download::finish, (finished,), bytes),
    ensures
        final(download).received() == old(download).received() + chunk@,
        final(download).expected() == old(download).expected(),
        downloaded == old(download).received().len() + chunk@.len(),
        bytes@ == finished.received(),
{
}

/// A download starts exactly where the reply says how long the object is, and starts empty.
pub proof fn downloads_need_a_length(
    content_length: Option<u64>,
    download: Result<Download, TransferError>,
)
    requires
        call_ensures(Download::start, (content_length,), download),
    ensures
        download is Ok <==> content_length is Some,
        download matches Ok(download) ==> Some(download.expected()) == content_length
            && download.received().len() == 0,
{
}

/// The pieces of an upload follow each other without a gap, each of 65536 bytes but for a shorter
/// last one, until the end is reached.
pub proof fn uploads_go_piece_by_piece(cursor: &mut UploadCursor, chunk: Option<(usize, usize)>)
    requires
        old(cursor).wf(),
        call_ensures(UploadCursor::next_chunk, (cursor,), chunk),
    ensures
        chunk is None <==> old(cursor).position() == old(cursor).total(),
        chunk is None ==> final(cursor).position() == old(cursor).position(),
        chunk matches Some((start, end)) ==> {
            &&& start == old(cursor).position()
            &&& end == final(cursor).position()
            &&& end - start == 65536 || (end == old(cursor).total() && 0 < end - start < 65536)
        },
        final(cursor).total() == old(cursor).total(),
        0 <= final(cursor).position() <= final(cursor).total(),
{
}

/// What is logged of a hash are its first eight bytes, or all of it where they do not end a
/// character.
pub proof fn logged_hashes_are_prefixes(hash: &str, prefix: &str)
    requires
        call_ensures(hash_prefix, (hash,), prefix),
    ensures
        is_char_boundary(encode_utf8(hash@), 8) ==> encode_utf8(prefix@) == encode_utf8(
            hash@,
        ).subrange(0, 8),
        !is_char_boundary(encode_utf8(hash@), 8) ==> prefix@ == hash@,
{
}

/// The times that the client goes by.
pub proof fn times_are_these()
    ensures
        RECEIVE_FILE_RETENTION_SECS == 86_400,
        RECEIVE_CLEANUP_INTERVAL_SECS == 3_600,
        OBJECT_RETENTION_SECS == 86_400,
        RECONNECT_DELAY_SECS == 2,
        MAX_RECONNECT_DELAY_SECS == 60,
        PING_INTERVAL_SECS == 20,
        READ_IDLE_TIMEOUT_SECS == 60,
        XCLIP_TIMEOUT_SECS == 5,
        XCLIP_POLL_MS == 25,
{
}

/// Where nothing else is configured, the clipboard is polled every 300 milliseconds and files are
/// saved under `receive`.
pub proof fn defaults_are_these(interval_ms: u64, dir: String)
    requires
        call_ensures(default_poll_interval, (), interval_ms),
        call_ensures(default_receive_dir, (), dir),
    ensures
        interval_ms == 300,
        dir@ == seq!['r', 'e', 'c', 'e', 'i', 'v', 'e'],
{
    reveal_strlit("receive");
}

/// An upload starts at the first byte, and a download says the length that was announced.
pub proof fn transfers_start_at_the_start(
    total: usize,
    cursor: UploadCursor,
    download: &Download,
    length: u64,
)
    requires
        call_ensures(UploadCursor::new, (total,), cursor),
        call_ensures(Download::expected_len, (download,), length),
    ensures
        cursor.wf(),
        cursor.position() == 0,
        cursor.total() == total,
        length == download.expected(),
{
}

} // verus!
