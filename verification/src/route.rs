//! The route dispatcher: which handler answers a request.
//!
//! The rules are tried in a fixed order and the first that matches wins, so
//! that a client-side route is answered with the application shell before the
//! catch-all asset lookup can turn it into a missing file.

use crate::text::{chars_of, has_prefix, is_word, matches_word, same_chars, starts_with};
use vstd::prelude::*;

verus! {

/// The request method, as far as routing tells methods apart.
#[derive(Clone, Copy, Debug, PartialEq, Eq, Structural)]
pub enum Method {
    Get,
    Post,
    Other,
}

/// The handler selected for a request.
#[derive(Debug, PartialEq, Eq)]
pub enum Route {
    /// The application shell, for `/` and for client-side routes.
    Shell,
    /// One query or mutation, executed and answered in a single response.
    Operation,
    /// The API exploration page.
    Discovery,
    /// A protocol upgrade that opens a subscription stream.
    Subscription,
    /// A file or listing of the cover-art directory, by its relative key.
    Cover(String),
    /// A bundled asset, by its relative path.
    Asset(String),
    /// No handler: the request is answered as not found.
    Unmatched,
}

/// The mathematical value of a `Route`.
pub ghost enum RouteView {
    Shell,
    Operation,
    Discovery,
    Subscription,
    Cover(Seq<char>),
    Asset(Seq<char>),
    Unmatched,
}

impl View for Route {
    type V = RouteView;

    open spec fn view(&self) -> RouteView {
        match self {
            Route::Shell => RouteView::Shell,
            Route::Operation => RouteView::Operation,
            Route::Discovery => RouteView::Discovery,
            Route::Subscription => RouteView::Subscription,
            Route::Cover(key) => RouteView::Cover(key@),
            Route::Asset(key) => RouteView::Asset(key@),
            Route::Unmatched => RouteView::Unmatched,
        }
    }
}

/// The characters of an optional text.
pub open spec fn text_of(t: Option<&str>) -> Option<Seq<char>> {
    match t {
        Some(s) => Some(s@),
        None => None,
    }
}

/// Whether an `Upgrade` header is present and names the websocket protocol,
/// in any letter case.
pub open spec fn wants_websocket(upgrade: Option<Seq<char>>) -> bool {
    upgrade is Some && matches_word(upgrade->0, "websocket"@)
}

/// Whether `path` is the cover-art mount point or lies below it.
pub open spec fn is_cover_path(path: Seq<char>) -> bool {
    path == "/covers"@ || starts_with(path, "/covers/"@)
}

/// The part of a cover path behind the mount point: the lookup key, empty
/// for the mount point itself.
pub open spec fn cover_key(path: Seq<char>) -> Seq<char> {
    if path.len() <= 8 {
        Seq::empty()
    } else {
        path.skip(8)
    }
}

/// Whether `path` is a route of the single-page application.
pub open spec fn is_client_route(path: Seq<char>) -> bool {
    ||| path == "/tracks"@
    ||| path == "/artists"@
    ||| path == "/albums"@
    ||| path == "/search"@
    ||| starts_with(path, "/artists/"@)
    ||| starts_with(path, "/albums/"@)
    ||| starts_with(path, "/folders/"@)
    ||| starts_with(path, "/playlists/"@)
}

/// The handler for a request, by the first rule that matches.
pub open spec fn route_of(method: Method, path: Seq<char>, upgrade: Option<Seq<char>>) -> RouteView {
    if method == Method::Get && path == "/"@ {
        RouteView::Shell
    } else if method == Method::Post && path == "/graphql"@ {
        RouteView::Operation
    } else if method == Method::Get && path == "/graphiql"@ {
        RouteView::Discovery
    } else if method == Method::Get && path == "/graphql"@ && wants_websocket(upgrade) {
        RouteView::Subscription
    } else if method == Method::Get && is_cover_path(path) {
        RouteView::Cover(cover_key(path))
    } else if method == Method::Get && is_client_route(path) {
        RouteView::Shell
    } else if method == Method::Get && starts_with(path, "/"@) {
        RouteView::Asset(path.skip(1))
    } else {
        RouteView::Unmatched
    }
}

/// Decides `wants_websocket` on a header value.
pub fn is_websocket_upgrade(upgrade: Option<&str>) -> (b: bool)
    ensures
        b == wants_websocket(text_of(upgrade)),
{
    match upgrade {
        Some(value) => {
            let v = chars_of(value);
            let w = chars_of("websocket");
            is_word(v.as_slice(), w.as_slice())
        },
        None => false,
    }
}

/// Decides `is_client_route`.
pub fn is_client_path(path: &[char]) -> (b: bool)
    ensures
        b == is_client_route(path@),
{
    same_chars(path, chars_of("/tracks").as_slice())
        || same_chars(path, chars_of("/artists").as_slice())
        || same_chars(path, chars_of("/albums").as_slice())
        || same_chars(path, chars_of("/search").as_slice())
        || has_prefix(path, chars_of("/artists/").as_slice())
        || has_prefix(path, chars_of("/albums/").as_slice())
        || has_prefix(path, chars_of("/folders/").as_slice())
        || has_prefix(path, chars_of("/playlists/").as_slice())
}

/// Selects the handler for a request from its method, its path and the value
/// of its `Upgrade` header, if it has one.
pub fn dispatch(method: Method, path: &str, upgrade: Option<&str>) -> (r: Route)
    ensures
        r@ == route_of(method, path@, text_of(upgrade)),
{
    let is_get = match method {
        Method::Get => true,
        _ => false,
    };
    let is_post = match method {
        Method::Post => true,
        _ => false,
    };
    let p = chars_of(path);
    let at_api = same_chars(p.as_slice(), chars_of("/graphql").as_slice());
    if is_post && at_api {
        return Route::Operation;
    }
    if !is_get {
        return Route::Unmatched;
    }
    proof {
        reveal_strlit("/");
        reveal_strlit("/covers");
        reveal_strlit("/covers/");
    }
    if same_chars(p.as_slice(), chars_of("/").as_slice()) {
        Route::Shell
    } else if same_chars(p.as_slice(), chars_of("/graphiql").as_slice()) {
        Route::Discovery
    } else if at_api && is_websocket_upgrade(upgrade) {
        Route::Subscription
    } else if same_chars(p.as_slice(), chars_of("/covers").as_slice()) {
        Route::Cover(String::new())
    } else if has_prefix(p.as_slice(), chars_of("/covers/").as_slice()) {
        let key = String::from_str(path.substring_char(8, p.len()));
        assert(key@ =~= cover_key(path@));
        Route::Cover(key)
    } else if is_client_path(p.as_slice()) {
        Route::Shell
    } else if has_prefix(p.as_slice(), chars_of("/").as_slice()) {
        Route::Asset(String::from_str(path.substring_char(1, p.len())))
    } else {
        Route::Unmatched
    }
}

} // verus!
