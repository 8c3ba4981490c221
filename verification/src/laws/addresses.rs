//! Addresses, uploads and replies, and the names of devices.

use crate::cloudflare::{
    chunk_end, chunks_from, object_endpoint, object_endpoint_text, object_key_outcome, ws_endpoint,
    ws_endpoint_text, EndpointError, TransferError,
};
use crate::codec::percent_encoded;
use crate::config::client_id_text;
use crate::network::{endpoint, endpoint_text};
use crate::text::{
    lemma_extra_slash, only_trailing_slashes_go, optional_str, optional_text,
    without_trailing_slashes,
};
use vstd::prelude::*;
use vstd::utf8::encode_utf8;

verus! {

/// The address of a path is the server's with the path behind it, and slashes at the end of the
/// server's make no difference.
pub proof fn endpoint_is_server_and_path(server: Seq<char>, path: Seq<char>)
    ensures
        server.len() == 0 || server.last() != '/' ==> endpoint_text(server, path) == server + path,
        endpoint_text(server.push('/'), path) == endpoint_text(server, path),
{
    lemma_extra_slash(server);
}

/// A host behind `https://` has its web socket at `wss://`, one behind `http://` at `ws://`, both
/// under `/ws`.
pub proof fn web_socket_keeps_the_host(host: Seq<char>)
    requires
        host.len() > 0,
        host.last() != '/',
    ensures
        ws_endpoint_text(seq!['h', 't', 't', 'p', 's', ':', '/', '/'] + host) == Some(
            seq!['w', 's', 's', ':', '/', '/'] + host + seq!['/', 'w', 's'],
        ),
        ws_endpoint_text(seq!['h', 't', 't', 'p', ':', '/', '/'] + host) == Some(
            seq!['w', 's', ':', '/', '/'] + host + seq!['/', 'w', 's'],
        ),
{
    reveal_strlit("https://");
    reveal_strlit("http://");
    reveal_strlit("wss://");
    reveal_strlit("ws://");
    reveal_strlit("/ws");
    assert("https://"@ =~= seq!['h', 't', 't', 'p', 's', ':', '/', '/']);
    assert("http://"@ =~= seq!['h', 't', 't', 'p', ':', '/', '/']);
    assert("wss://"@ =~= seq!['w', 's', 's', ':', '/', '/']);
    assert("ws://"@ =~= seq!['w', 's', ':', '/', '/']);
    assert("/ws"@ =~= seq!['/', 'w', 's']);
    let secure = "https://"@ + host;
    let open = "http://"@ + host;
    assert(secure.last() == host.last() && open.last() == host.last());
    assert(secure.subrange(0, 8) =~= "https://"@);
    assert(open.subrange(0, 7) =~= "http://"@);
    assert(secure.skip(8) =~= host);
    assert(open.skip(7) =~= host);
    assert(!"https://"@.is_prefix_of(open)) by {
        if "https://"@.is_prefix_of(open) {
            assert(open.subrange(0, 8)[4] == "https://"@[4]);
        }
    }
}

/// A slash at the end of the server's URL makes no difference to its web socket, and a URL with
/// neither scheme or without a host has none.
pub proof fn web_socket_needs_a_scheme(server: Seq<char>)
    ensures
        ws_endpoint_text(server.push('/')) == ws_endpoint_text(server),
        !seq!['h', 't', 't', 'p', 's', ':', '/', '/'].is_prefix_of(server) && !seq![
            'h',
            't',
            't',
            'p',
            ':',
            '/',
            '/',
        ].is_prefix_of(server) ==> ws_endpoint_text(server) is None,
        ws_endpoint_text(seq!['h', 't', 't', 'p', 's', ':', '/', '/']) is None,
        ws_endpoint_text(seq!['h', 't', 't', 'p', ':', '/', '/']) is None,
{
    let secure = seq!['h', 't', 't', 'p', 's', ':'];
    let open = seq!['h', 't', 't', 'p', ':'];
    lemma_extra_slash(secure);
    lemma_extra_slash(secure.push('/'));
    lemma_extra_slash(open);
    lemma_extra_slash(open.push('/'));
    assert(secure.push('/').push('/') =~= seq!['h', 't', 't', 'p', 's', ':', '/', '/']);
    assert(open.push('/').push('/') =~= seq!['h', 't', 't', 'p', ':', '/', '/']);
    lemma_extra_slash(server);
    only_trailing_slashes_go(server);
    reveal_strlit("https://");
    reveal_strlit("http://");
    assert("https://"@ =~= seq!['h', 't', 't', 'p', 's', ':', '/', '/']);
    assert("http://"@ =~= seq!['h', 't', 't', 'p', ':', '/', '/']);
    let base = without_trailing_slashes(server);
    assert(base =~= server.take(base.len() as int));
    if "https://"@.is_prefix_of(base) {
        assert(server.subrange(0, 8) =~= base.subrange(0, 8));
    }
    if "http://"@.is_prefix_of(base) {
        assert(server.subrange(0, 7) =~= base.subrange(0, 7));
    }
}

/// The address of an object is the server's, `/objects/` and the encoded message id, and for a named
/// object `?filename=` and the encoded name; slashes at the end of the server's make no difference.
pub proof fn object_address_names_message_and_file(
    server: Seq<char>,
    message_id: Seq<char>,
    filename: Seq<char>,
)
    ensures
        object_endpoint_text(server.push('/'), message_id, None) == object_endpoint_text(
            server,
            message_id,
            None,
        ),
        object_endpoint_text(server.push('/'), message_id, Some(filename)) == object_endpoint_text(
            server,
            message_id,
            Some(filename),
        ),
        server.len() == 0 || server.last() != '/' ==> object_endpoint_text(server, message_id, None)
            == server + seq!['/', 'o', 'b', 'j', 'e', 'c', 't', 's', '/'] + percent_encoded(
            encode_utf8(message_id),
        ),
        object_endpoint_text(server, message_id, Some(filename)) == object_endpoint_text(
            server,
            message_id,
            None,
        ) + seq!['?', 'f', 'i', 'l', 'e', 'n', 'a', 'm', 'e', '='] + percent_encoded(
            encode_utf8(filename),
        ),
{
    lemma_extra_slash(server);
    reveal_strlit("/objects/");
    reveal_strlit("?filename=");
    assert("/objects/"@ =~= seq!['/', 'o', 'b', 'j', 'e', 'c', 't', 's', '/']);
    assert("?filename="@ =~= seq!['?', 'f', 'i', 'l', 'e', 'n', 'a', 'm', 'e', '=']);
}

/// A piece of an upload has 64 KiB, unless it is the rest of the object.
pub proof fn pieces_are_full_but_for_the_last(position: int, total: int)
    requires
        0 <= position < total,
    ensures
        chunk_end(position, total) == position + 65536 || (chunk_end(position, total) == total
            && total - position <= 65536),
        position < chunk_end(position, total) <= total,
{
}

/// The pieces of an upload follow each other: the first starts where the upload stands, and the
/// others are those of what is behind it.
pub proof fn pieces_follow_each_other(bytes: Seq<u8>, position: int)
    requires
        0 <= position < bytes.len(),
    ensures
        ({
            let pieces = chunks_from(bytes, position);
            let len = pieces.first().len();
            &&& pieces.len() > 0
            &&& pieces.first() == bytes.subrange(position, position + len)
            &&& len == 65536 || (len < 65536 && position + len == bytes.len())
            &&& pieces.drop_first() == chunks_from(bytes, position + len)
        }),
        chunks_from(bytes, bytes.len() as int).len() == 0,
{
    assert(chunks_from(bytes, position).drop_first() =~= chunks_from(
        bytes,
        chunk_end(position, bytes.len() as int),
    ));
}

/// A reply's object key is the one that it names, whatever it is; a reply without one, and one that
/// is no JSON document, are told apart.
pub proof fn object_key_is_the_named_one(key: Seq<char>)
    ensures
        object_key_outcome(Some(Some(key))) == Ok::<Seq<char>, TransferError>(key),
        object_key_outcome(Some(None)) == Err::<Seq<char>, TransferError>(
            TransferError::MissingObjectKey,
        ),
        object_key_outcome(None) == Err::<Seq<char>, TransferError>(TransferError::InvalidReply),
{
}

/// A device goes by the computer's name, else by the host's, else by a name for any client.
pub proof fn device_goes_by_the_first_known_name(
    computer: Seq<char>,
    host: Option<Seq<char>>,
    name: Seq<char>,
)
    ensures
        client_id_text(Some(computer), host) == computer,
        client_id_text(None, Some(name)) == name,
        client_id_text(None, None) == "rustclipsync-client"@,
{
}

/// An optional text is seen as it is.
pub proof fn optional_texts_are_seen_whole(text: String, slice: &str)
    ensures
        optional_text(Some(text)) == Some(text@),
        optional_text(None) == None::<Seq<char>>,
        optional_str(Some(slice)) == Some(slice@),
        optional_str(None) == None::<Seq<char>>,
{
}

/// Addresses on a server whose URL does not end in a slash are the URL and the path.
pub proof fn addresses_are_server_and_path(server: &str, path: &str, url: String)
    requires
        call_ensures(endpoint, (server, path), url),
        server@.len() > 0,
        server@.last() != '/',
    ensures
        url@ == server@ + path@,
{
    endpoint_is_server_and_path(server@, path@);
}

/// The web socket of a server is on the same host under `/ws`, secure exactly where the server is.
pub proof fn web_sockets_are_on_the_same_host(
    host: Seq<char>,
    server: &str,
    url: Result<String, EndpointError>,
)
    requires
        call_ensures(ws_endpoint, (server,), url),
        host.len() > 0,
        host.last() != '/',
    ensures
        server@ == seq!['h', 't', 't', 'p', 's', ':', '/', '/'] + host ==> (url matches Ok(url)
            && url@ == seq!['w', 's', 's', ':', '/', '/'] + host + seq!['/', 'w', 's']),
        server@ == seq!['h', 't', 't', 'p', ':', '/', '/'] + host ==> (url matches Ok(url) && url@
            == seq!['w', 's', ':', '/', '/'] + host + seq!['/', 'w', 's']),
        !seq!['h', 't', 't', 'p', 's', ':', '/', '/'].is_prefix_of(server@) && !seq![
            'h',
            't',
            't',
            'p',
            ':',
            '/',
            '/',
        ].is_prefix_of(server@) ==> url is Err,
{
    web_socket_keeps_the_host(host);
    web_socket_needs_a_scheme(server@);
}

/// The address of an object names its message and, where it has one, its file.
pub proof fn object_addresses_name_message_and_file(
    server: &str,
    message_id: &str,
    filename: &str,
    plain: Result<String, EndpointError>,
    named: Result<String, EndpointError>,
)
    requires
        call_ensures(object_endpoint, (server, message_id, None), plain),
        call_ensures(object_endpoint, (server, message_id, Some(filename)), named),
        server@.len() > 0,
        server@.last() != '/',
    ensures
        plain matches Ok(plain) && plain@ == server@ + seq![
            '/',
            'o',
            'b',
            'j',
            'e',
            'c',
            't',
            's',
            '/',
        ] + percent_encoded(encode_utf8(message_id@)),
        named matches Ok(named) && named@ == plain->Ok_0@ + seq![
            '?',
            'f',
            'i',
            'l',
            'e',
            'n',
            'a',
            'm',
            'e',
            '=',
        ] + percent_encoded(encode_utf8(filename@)),
{
    object_address_names_message_and_file(server@, message_id@, filename@);
}

} // verus!
