//! The discovery page: an interactive page for exploring the API, with the
//! endpoint addresses derived from the host that the client used.
//!
//! The addresses are computed afresh for every request, since the host
//! differs with the way a client reached the server.

use crate::response::{bad_request_reply, ok_reply, Response, ResponseView};
use crate::route::text_of;
use crate::text::{chars_of, decimal, decimal_text, find_char, first_index};
use vstd::prelude::*;
use vstd::string::StringSliceAdditionalSpecFns;

verus! {

/// Why no host name could be taken from a request.
#[derive(Clone, Copy, Debug, PartialEq, Eq, Structural)]
pub enum HostError {
    /// The request has no `Host` header.
    Missing,
    /// The header cannot be read as a host with an optional port.
    Invalid,
}

/// Whether `c` may stand in a header value that is read as text: a
/// printable ASCII character, a space or a tab.
pub open spec fn is_visible(c: char) -> bool {
    (32 <= c as u32 && (c as u32) < 127) || c == '\t'
}

/// Whether every character of `s` may stand in a header value.
pub open spec fn all_visible(s: Seq<char>) -> bool {
    forall|i: int| 0 <= i < s.len() ==> is_visible(#[trigger] s[i])
}

/// Where the host part of a `Host` header value ends, if it has one. A
/// bracketed address literal reaches up to and including its closing
/// bracket; any other host reaches up to the first colon and is not empty.
pub open spec fn host_end(header: Seq<char>) -> Option<int> {
    if header.len() > 0 && header[0] == '[' {
        let close = first_index(header, ']', 0);
        if close >= header.len() {
            None
        } else {
            Some(close + 1)
        }
    } else {
        let colon = first_index(header, ':', 0);
        if colon == 0 {
            None
        } else {
            Some(colon)
        }
    }
}

/// Whether what follows the host part, from `from` on, is nothing or one
/// port segment: a colon with no other colon behind it.
pub open spec fn is_port_suffix(header: Seq<char>, from: int) -> bool {
    from == header.len() || (0 <= from < header.len() && header[from] == ':' && first_index(
        header,
        ':',
        from + 1,
    ) == header.len())
}

/// The host name of a request, or the reason why it has none. The name is
/// the header value without its trailing port segment.
pub open spec fn host_of(header: Option<Seq<char>>) -> Result<Seq<char>, HostError> {
    match header {
        None => Err(HostError::Missing),
        Some(value) => match host_end(value) {
            Some(end) => if all_visible(value) && is_port_suffix(value, end) {
                Ok(value.take(end))
            } else {
                Err(HostError::Invalid)
            },
            None => Err(HostError::Invalid),
        },
    }
}

/// The address of the endpoint for single operations.
pub open spec fn http_endpoint(host: Seq<char>, port: u16) -> Seq<char> {
    "http://"@ + host + ":"@ + decimal(port as nat) + "/graphql"@
}

/// The address of the endpoint for subscriptions.
pub open spec fn ws_endpoint(host: Seq<char>, port: u16) -> Seq<char> {
    "ws://"@ + host + ":"@ + decimal(port as nat) + "/graphql"@
}

/// The characters of an extracted host name, or the reason why there is none.
pub open spec fn name_of(r: Result<&str, HostError>) -> Result<Seq<char>, HostError> {
    match r {
        Ok(name) => Ok(name@),
        Err(e) => Err(e),
    }
}

/// Decides `is_visible`.
pub fn is_visible_char(c: char) -> (b: bool)
    ensures
        b == is_visible(c),
{
    (32 <= c as u32 && (c as u32) < 127) || c == '\t'
}

/// Decides `all_visible`.
pub fn is_visible_text(s: &[char]) -> (b: bool)
    ensures
        b == all_visible(s@),
{
    let mut i: usize = 0;
    while i < s.len()
        invariant
            i <= s@.len(),
            forall|j: int| 0 <= j < i ==> is_visible(#[trigger] s@[j]),
        decreases s@.len() - i,
    {
        if !is_visible_char(s[i]) {
            return false;
        }
        i += 1;
    }
    true
}

/// Computes `host_end`.
pub fn find_host_end(header: &[char]) -> (r: Option<usize>)
    ensures
        match r {
            Some(end) => host_end(header@) == Some(end as int) && end <= header@.len(),
            None => host_end(header@) is None,
        },
{
    if header.len() > 0 && header[0] == '[' {
        let close = find_char(header, ']', 0);
        if close >= header.len() {
            None
        } else {
            Some(close + 1)
        }
    } else {
        let colon = find_char(header, ':', 0);
        if colon == 0 {
            None
        } else {
            Some(colon)
        }
    }
}

/// Takes the host name from the value of a request's `Host` header, if it
/// has one: the value without its trailing port segment. Fails where the
/// header is absent, and where its value holds a character that no header
/// text may hold, names no host, or has more behind the host than one port
/// segment.
pub fn extract_host<'a>(header: Option<&'a str>) -> (r: Result<&'a str, HostError>)
    ensures
        name_of(r) == host_of(text_of(header)),
{
    match header {
        None => Err(HostError::Missing),
        Some(value) => {
            let v = chars_of(value);
            match find_host_end(v.as_slice()) {
                Some(end) => {
                    if !is_visible_text(v.as_slice()) {
                        Err(HostError::Invalid)
                    } else if end == v.len() {
                        Ok(value.substring_char(0, end))
                    } else if v[end] == ':' && find_char(v.as_slice(), ':', end + 1) == v.len() {
                        Ok(value.substring_char(0, end))
                    } else {
                        Err(HostError::Invalid)
                    }
                },
                None => Err(HostError::Invalid),
            }
        },
    }
}

/// Builds the address of the endpoint for single operations.
pub fn graphql_endpoint(host: &str, port: u16) -> (url: String)
    ensures
        url@ == http_endpoint(host@, port),
{
    String::from_str("http://").concat(host).concat(":").concat(decimal_text(port).as_str()).concat(
        "/graphql",
    )
}

/// Builds the address of the endpoint for subscriptions.
pub fn subscription_endpoint(host: &str, port: u16) -> (url: String)
    ensures
        url@ == ws_endpoint(host@, port),
{
    String::from_str("ws://").concat(host).concat(":").concat(decimal_text(port).as_str()).concat(
        "/graphql",
    )
}

/// The exploration page that embeds the two endpoint addresses.
pub uninterp spec fn graphiql_page(endpoint: Seq<char>, subscription_endpoint: Seq<char>) -> Seq<char>;

/// Calls `async_graphql::http::GraphiQLSource`: `build`, then `endpoint`
/// and `subscription_endpoint` with the two addresses, then `finish`. All
/// other settings keep their defaults, so the page that the builder renders
/// from its fixed template is a function of the two addresses alone.
#[verifier::external_body]
fn render_graphiql(endpoint: &str, subscription_endpoint: &str) -> (page: String)
    ensures
        page@ == graphiql_page(endpoint@, subscription_endpoint@),
{
    async_graphql::http::GraphiQLSource::build()
        .endpoint(endpoint)
        .subscription_endpoint(subscription_endpoint)
        .finish()
}

/// The discovery page for a client that reached the server as `host`.
pub open spec fn page_for(host: Seq<char>, port: u16) -> Seq<char> {
    graphiql_page(http_endpoint(host, port), ws_endpoint(host, port))
}

/// Renders the discovery page for a client that reached the server as
/// `host`, with the configured port.
pub fn discovery_page(host: &str, port: u16) -> (page: String)
    ensures
        page@ == page_for(host@, port),
{
    let endpoint = graphql_endpoint(host, port);
    let stream = subscription_endpoint(host, port);
    render_graphiql(endpoint.as_str(), stream.as_str())
}

/// The reply that carries a rendered page.
pub open spec fn page_reply(page: Seq<char>) -> ResponseView {
    ok_reply("text/html; charset=utf-8"@, vstd::utf8::encode_utf8(page))
}

/// Wraps a rendered page into its response.
pub fn page_response(page: String) -> (r: Response)
    ensures
        r@ == page_reply(page@),
{
    Response::ok(String::from_str("text/html; charset=utf-8"), page.as_str().as_bytes_vec())
}

/// What a request for the discovery page is answered with: the page for
/// the request's host, or the client-error reply where it names none.
pub open spec fn discovery_reply(header: Option<Seq<char>>, port: u16) -> ResponseView {
    match host_of(header) {
        Ok(host) => page_reply(page_for(host, port)),
        Err(_) => bad_request_reply(),
    }
}

/// Answers a request for the discovery page from the value of its `Host`
/// header and the configured port.
pub fn index_graphiql(host_header: Option<&str>, port: u16) -> (r: Response)
    ensures
        r@ == discovery_reply(text_of(host_header), port),
{
    match extract_host(host_header) {
        Ok(host) => page_response(discovery_page(host, port)),
        Err(_) => Response::bad_request(),
    }
}

} // verus!
