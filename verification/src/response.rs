//! Responses that the gateway builds itself.

use crate::assets::AssetBundle;
use crate::media::{content_type, content_type_of, extension};
use vstd::prelude::*;
use vstd::string::StringSliceAdditionalSpecFns;

verus! {

/// A complete response: status code, content type and body.
#[derive(Debug, PartialEq, Eq)]
pub struct Response {
    pub status: u16,
    pub content_type: String,
    pub body: Vec<u8>,
}

/// The mathematical value of a `Response`.
pub ghost struct ResponseView {
    pub status: u16,
    pub content_type: Seq<char>,
    pub body: Seq<u8>,
}

impl View for Response {
    type V = ResponseView;

    open spec fn view(&self) -> ResponseView {
        ResponseView { status: self.status, content_type: self.content_type@, body: self.body@ }
    }
}

/// A success reply with the given content type and body.
pub open spec fn ok_reply(content_type: Seq<char>, body: Seq<u8>) -> ResponseView {
    ResponseView { status: 200, content_type, body }
}

/// The fixed reply for a missing asset.
pub open spec fn not_found_reply() -> ResponseView {
    ResponseView {
        status: 404,
        content_type: "text/plain; charset=utf-8"@,
        body: "404 Not Found".spec_bytes(),
    }
}

/// The fixed reply for a request that the client must correct.
pub open spec fn bad_request_reply() -> ResponseView {
    ResponseView {
        status: 400,
        content_type: "text/plain; charset=utf-8"@,
        body: "400 Bad Request".spec_bytes(),
    }
}

/// What a lookup of `path` in `bundle` is answered with.
pub open spec fn embedded_reply(bundle: Map<Seq<char>, Seq<u8>>, path: Seq<char>) -> ResponseView {
    if bundle.contains_key(path) {
        ok_reply(content_type(path), bundle[path])
    } else {
        not_found_reply()
    }
}

impl Response {
    /// A success response with the given content type and body.
    pub fn ok(content_type: String, body: Vec<u8>) -> (r: Response)
        ensures
            r@ == ok_reply(content_type@, body@),
    {
        Response { status: 200, content_type, body }
    }

    /// The fixed response for a missing asset.
    pub fn not_found() -> (r: Response)
        ensures
            r@ == not_found_reply(),
    {
        Response {
            status: 404,
            content_type: String::from_str("text/plain; charset=utf-8"),
            body: "404 Not Found".as_bytes_vec(),
        }
    }

    /// The fixed response for a request that the client must correct.
    pub fn bad_request() -> (r: Response)
        ensures
            r@ == bad_request_reply(),
    {
        Response {
            status: 400,
            content_type: String::from_str("text/plain; charset=utf-8"),
            body: "400 Bad Request".as_bytes_vec(),
        }
    }
}

/// Answers a lookup in the bundle: the file with the content type of its
/// extension where the bundle holds `path`, the fixed not-found response
/// where it does not.
pub fn handle_embedded_file(bundle: &AssetBundle, path: &str) -> (r: Response)
    ensures
        r@ == embedded_reply(bundle@, path@),
        bundle@.contains_key(path@) && extension(path@).len() == 0 ==> r@.content_type
            == "application/octet-stream"@,
{
    match bundle.get(path) {
        Some(data) => Response::ok(content_type_of(path), data.clone()),
        None => Response::not_found(),
    }
}

} // verus!
