//! Addresses of the HTTP relay.

use crate::text::{
    lemma_extra_slash, text_between, trim_trailing_slashes, without_trailing_slashes,
};
use vstd::prelude::*;

verus! {

/// The address of `path` on a server: the server's URL without trailing slashes, then the path.
pub open spec fn endpoint_text(server_url: Seq<char>, path: Seq<char>) -> Seq<char> {
    without_trailing_slashes(server_url) + path
}

/// The address of `path` on a server.
pub fn endpoint(server_url: &str, path: &str) -> (url: String)
    ensures
        url@ == endpoint_text(server_url@, path@),
{
    let base = trim_trailing_slashes(server_url);
    let mut url = text_between(&base, 0, base.len());
    assert(url@ =~= base@);
    url.append(path);
    url
}

/// A slash at the end of the server's URL makes no difference to an address.
pub proof fn endpoint_ignores_a_trailing_slash(server_url: Seq<char>, path: Seq<char>)
    ensures
        endpoint_text(server_url.push('/'), path) == endpoint_text(server_url, path),
{
    lemma_extra_slash(server_url);
}

} // verus!
