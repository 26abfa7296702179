//! The front door: one request in, one action out.
//!
//! What needs neither network nor disk is answered here. For the rest the
//! caller is told which service has to do the work.

use crate::assets::AssetBundle;
use crate::discovery::{discovery_reply, index_graphiql};
use crate::media::{content_type, extension};
use crate::response::{
    bad_request_reply, embedded_reply, handle_embedded_file, not_found_reply, ok_reply, Response,
    ResponseView,
};
use crate::route::{
    dispatch, is_client_route, is_cover_path, route_of, text_of, wants_websocket, Method, Route,
    RouteView,
};
use crate::text::{chars_of, find_char, first_index, starts_with};
use vstd::prelude::*;

verus! {

/// What the gateway reads of a request.
pub struct Request<'a> {
    pub method: Method,
    pub path: &'a str,
    /// The value of the `Upgrade` header, if the request has one.
    pub upgrade: Option<&'a str>,
    /// The value of the `Host` header, if the request has one.
    pub host: Option<&'a str>,
}

/// What is to be done for a request.
#[derive(Debug, PartialEq, Eq)]
pub enum Action {
    /// Send this response.
    Respond(Response),
    /// Execute the posted operation against the schema and send its result.
    Execute,
    /// Upgrade the connection and run a subscription stream over it.
    Subscribe,
    /// Serve the file or listing of the cover-art directory under this key.
    ServeCover(String),
}

/// The mathematical value of an `Action`.
pub ghost enum ActionView {
    Respond(ResponseView),
    Execute,
    Subscribe,
    ServeCover(Seq<char>),
}

impl View for Action {
    type V = ActionView;

    open spec fn view(&self) -> ActionView {
        match self {
            Action::Respond(r) => ActionView::Respond(r@),
            Action::Execute => ActionView::Execute,
            Action::Subscribe => ActionView::Subscribe,
            Action::ServeCover(key) => ActionView::ServeCover(key@),
        }
    }
}

/// Whether the segment of `key` that starts at `from` and ends before
/// `end` names the parent directory.
pub open spec fn is_parent_segment(key: Seq<char>, from: int, end: int) -> bool {
    end == from + 2 && key[from] == '.' && key[from + 1] == '.'
}

/// Whether the segment of `key` that starts at `from` and ends before
/// `end` leads nowhere: it is empty or names the directory itself.
pub open spec fn is_idle_segment(key: Seq<char>, from: int, end: int) -> bool {
    end == from || (end == from + 1 && key[from] == '.')
}

/// Whether walking the segments of `key` from `from` on, starting `depth`
/// directories below the root, ever climbs above the root. Segments are
/// separated by `/`; `from` is the start of one. A parent segment climbs
/// one directory, an empty segment or `.` stays, any other descends.
pub open spec fn climbs_out(key: Seq<char>, from: int, depth: nat) -> bool
    decreases key.len() - from,
{
    if from < 0 || from > key.len() {
        false
    } else {
        let end = first_index(key, '/', from);
        if is_parent_segment(key, from, end) && depth == 0 {
            true
        } else if !(from <= end < key.len()) {
            false
        } else if is_parent_segment(key, from, end) {
            climbs_out(key, end + 1, (depth - 1) as nat)
        } else if is_idle_segment(key, from, end) {
            climbs_out(key, end + 1, depth)
        } else {
            climbs_out(key, end + 1, depth + 1)
        }
    }
}

/// Whether a cover key stays inside the cover-art directory: resolved
/// segment by segment from the root, it never climbs above the root.
pub open spec fn stays_inside(key: Seq<char>) -> bool {
    !climbs_out(key, 0, 0)
}

/// Decides `stays_inside`.
pub fn is_inside(key: &str) -> (b: bool)
    ensures
        b == stays_inside(key@),
{
    let k = chars_of(key);
    let mut from: usize = 0;
    let mut depth: usize = 0;
    loop
        invariant
            k@ == key@,
            depth <= from <= k@.len(),
            climbs_out(k@, 0, 0) == climbs_out(k@, from as int, depth as nat),
        decreases k@.len() - from,
    {
        let end = find_char(k.as_slice(), '/', from);
        let parent = end - from == 2 && k[from] == '.' && k[from + 1] == '.';
        let idle = end == from || (end - from == 1 && k[from] == '.');
        if parent && depth == 0 {
            return false;
        }
        if end >= k.len() {
            return true;
        }
        if parent {
            depth -= 1;
        } else if !idle {
            depth += 1;
        }
        from = end + 1;
    }
}

/// The path of the application shell in the bundle.
pub open spec fn shell_path() -> Seq<char> {
    "index.html"@
}

/// What is to be done for a request that was routed to `route`.
pub open spec fn action_for(
    route: RouteView,
    bundle: Map<Seq<char>, Seq<u8>>,
    host: Option<Seq<char>>,
    port: u16,
) -> ActionView {
    match route {
        RouteView::Shell => ActionView::Respond(embedded_reply(bundle, shell_path())),
        RouteView::Operation => ActionView::Execute,
        RouteView::Discovery => ActionView::Respond(discovery_reply(host, port)),
        RouteView::Subscription => ActionView::Subscribe,
        RouteView::Cover(key) => if stays_inside(key) {
            ActionView::ServeCover(key)
        } else {
            ActionView::Respond(not_found_reply())
        },
        RouteView::Asset(path) => ActionView::Respond(embedded_reply(bundle, path)),
        RouteView::Unmatched => ActionView::Respond(not_found_reply()),
    }
}

/// What is to be done for a request.
pub open spec fn action_of(
    bundle: Map<Seq<char>, Seq<u8>>,
    method: Method,
    path: Seq<char>,
    upgrade: Option<Seq<char>>,
    host: Option<Seq<char>>,
    port: u16,
) -> ActionView {
    action_for(route_of(method, path, upgrade), bundle, host, port)
}

/// Answers with the application shell.
pub fn index(bundle: &AssetBundle) -> (r: Response)
    ensures
        r@ == embedded_reply(bundle@, shell_path()),
{
    handle_embedded_file(bundle, "index.html")
}

/// Classifies a request and answers it, or names the service that has to.
pub fn serve(bundle: &AssetBundle, request: &Request, port: u16) -> (action: Action)
    ensures
        action@ == action_of(
            bundle@,
            request.method,
            request.path@,
            text_of(request.upgrade),
            text_of(request.host),
            port,
        ),
{
    match dispatch(request.method, request.path, request.upgrade) {
        Route::Shell => Action::Respond(index(bundle)),
        Route::Operation => Action::Execute,
        Route::Discovery => Action::Respond(index_graphiql(request.host, port)),
        Route::Subscription => Action::Subscribe,
        Route::Cover(key) => if is_inside(key.as_str()) {
            Action::ServeCover(key)
        } else {
            Action::Respond(Response::not_found())
        },
        Route::Asset(path) => Action::Respond(handle_embedded_file(bundle, path.as_str())),
        Route::Unmatched => Action::Respond(Response::not_found()),
    }
}

/// Whether a GET for `path` is taken by a rule that comes before the asset
/// lookup: the shell at `/`, the discovery page, a subscription upgrade, the
/// cover-art directory or a client-side route.
pub open spec fn taken_before_assets(path: Seq<char>, upgrade: Option<Seq<char>>) -> bool {
    ||| path == "/"@
    ||| path == "/graphiql"@
    ||| (path == "/graphql"@ && wants_websocket(upgrade))
    ||| is_cover_path(path)
    ||| is_client_route(path)
}

/// A GET for a client-side route is answered with the application shell,
/// as a GET for `/` is, whatever the bundle holds at that path.
pub proof fn client_route_gets_shell(
    bundle: Map<Seq<char>, Seq<u8>>,
    path: Seq<char>,
    upgrade: Option<Seq<char>>,
    host: Option<Seq<char>>,
    port: u16,
)
    requires
        is_client_route(path),
    ensures
        route_of(Method::Get, path, upgrade) == RouteView::Shell,
        action_of(bundle, Method::Get, path, upgrade, host, port) == ActionView::Respond(
            embedded_reply(bundle, shell_path()),
        ),
        action_of(bundle, Method::Get, path, upgrade, host, port) == action_of(
            bundle,
            Method::Get,
            "/"@,
            upgrade,
            host,
            port,
        ),
{
    reveal_strlit("/");
    reveal_strlit("/graphql");
    reveal_strlit("/graphiql");
    reveal_strlit("/covers");
    reveal_strlit("/covers/");
    reveal_strlit("/tracks");
    reveal_strlit("/artists");
    reveal_strlit("/albums");
    reveal_strlit("/search");
    reveal_strlit("/artists/");
    reveal_strlit("/albums/");
    reveal_strlit("/folders/");
    reveal_strlit("/playlists/");
    let c = path[1];
    assert(path.len() >= 7 && path[0] == '/' && (c == 't' || c == 'a' || c == 's' || c == 'f' || c
        == 'p')) by {
        if starts_with(path, "/artists/"@) {
            assert(path.take(9)[0] == path[0] && path.take(9)[1] == path[1]);
        } else if starts_with(path, "/albums/"@) {
            assert(path.take(8)[0] == path[0] && path.take(8)[1] == path[1]);
        } else if starts_with(path, "/folders/"@) {
            assert(path.take(9)[0] == path[0] && path.take(9)[1] == path[1]);
        } else if starts_with(path, "/playlists/"@) {
            assert(path.take(11)[0] == path[0] && path.take(11)[1] == path[1]);
        }
    }
    assert(!is_cover_path(path)) by {
        if starts_with(path, "/covers/"@) {
            assert(path.take(8)[1] == path[1]);
        }
    }
    assert("/graphql"@[1] == 'g');
    assert("/graphiql"@[1] == 'g');
}

/// A GET for a bundled file is answered with success, the content type of
/// the file's extension and the file's bytes, unless an earlier rule takes
/// the path.
pub proof fn bundled_file_is_served(
    bundle: Map<Seq<char>, Seq<u8>>,
    file: Seq<char>,
    upgrade: Option<Seq<char>>,
    host: Option<Seq<char>>,
    port: u16,
)
    requires
        bundle.contains_key(file),
        !taken_before_assets("/"@ + file, upgrade),
    ensures
        action_of(bundle, Method::Get, "/"@ + file, upgrade, host, port) == ActionView::Respond(
            ok_reply(content_type(file), bundle[file]),
        ),
{
    reveal_strlit("/");
    let path = "/"@ + file;
    assert(path.skip(1) =~= file);
    assert(path.take(1) =~= "/"@);
    assert(starts_with(path, "/"@));
}

/// A GET for a path that the bundle does not hold is answered with the
/// fixed not-found reply, unless an earlier rule takes the path.
pub proof fn missing_file_is_not_found(
    bundle: Map<Seq<char>, Seq<u8>>,
    path: Seq<char>,
    upgrade: Option<Seq<char>>,
    host: Option<Seq<char>>,
    port: u16,
)
    requires
        !bundle.contains_key(path.skip(1)),
        !taken_before_assets(path, upgrade),
    ensures
        action_of(bundle, Method::Get, path, upgrade, host, port) == ActionView::Respond(
            not_found_reply(),
        ),
{
}

/// A GET for a bundled file whose name has no extension is answered with
/// the generic binary content type, unless an earlier rule takes the path.
pub proof fn file_without_extension_is_binary(
    bundle: Map<Seq<char>, Seq<u8>>,
    file: Seq<char>,
    upgrade: Option<Seq<char>>,
    host: Option<Seq<char>>,
    port: u16,
)
    requires
        bundle.contains_key(file),
        extension(file).len() == 0,
        !taken_before_assets("/"@ + file, upgrade),
    ensures
        action_of(bundle, Method::Get, "/"@ + file, upgrade, host, port) == ActionView::Respond(
            ok_reply("application/octet-stream"@, bundle[file]),
        ),
{
    bundled_file_is_served(bundle, file, upgrade, host, port);
}

/// A request for the discovery page without a `Host` header is answered
/// with the client-error reply.
pub proof fn missing_host_is_client_error(port: u16)
    ensures
        discovery_reply(None, port) == bad_request_reply(),
        bad_request_reply().status == 400,
{
}

/// Only a POST to `/graphql` executes an operation, and only a GET to
/// `/graphql` with a websocket upgrade opens a subscription.
pub proof fn api_routes(method: Method, path: Seq<char>, upgrade: Option<Seq<char>>)
    ensures
        route_of(method, path, upgrade) == RouteView::Operation <==> method == Method::Post && path
            == "/graphql"@,
        route_of(method, path, upgrade) == RouteView::Subscription <==> method == Method::Get
            && path == "/graphql"@ && wants_websocket(upgrade),
{
    reveal_strlit("/");
    reveal_strlit("/graphql");
    reveal_strlit("/graphiql");
    assert("/"@.len() == 1 && "/graphql"@.len() == 8 && "/graphiql"@.len() == 9);
}

} // verus!
