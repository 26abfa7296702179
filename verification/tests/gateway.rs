use webui::assets::AssetBundle;
use webui::discovery::{
    discovery_page, extract_host, find_host_end, graphql_endpoint, index_graphiql,
    is_visible_char, is_visible_text, page_response, subscription_endpoint, HostError,
};
use webui::gateway::{index, is_inside, serve, Action, Request};
use webui::response::Response;
use webui::route::Method;

fn bundle() -> AssetBundle {
    let mut b = AssetBundle::new();
    b.insert("index.html".to_string(), b"<html>shell</html>".to_vec());
    b.insert("static/js/main.js".to_string(), b"let a;".to_vec());
    b.insert("tracks".to_string(), b"never served".to_vec());
    b
}

fn get(path: &str) -> Action {
    let request = Request { method: Method::Get, path, upgrade: None, host: None };
    serve(&bundle(), &request, 5053)
}

fn response(action: Action) -> Response {
    match action {
        Action::Respond(r) => r,
        other => panic!("expected a response, got {:?}", other),
    }
}

#[test]
fn get_bundled_index_html() {
    let r = response(get("/index.html"));
    assert_eq!(r.status, 200);
    assert_eq!(r.content_type, "text/html");
    assert_eq!(r.body, b"<html>shell</html>".to_vec());
}

#[test]
fn get_bundled_script() {
    let r = response(get("/static/js/main.js"));
    assert_eq!(r.status, 200);
    assert!(r.content_type.ends_with("javascript"));
    assert_eq!(r.body, b"let a;".to_vec());
}

#[test]
fn get_nonexistent_js_is_not_found() {
    let r = response(get("/nonexistent.js"));
    assert_eq!(r.status, 404);
    assert_eq!(r.body, b"404 Not Found".to_vec());
}

#[test]
fn get_album_route_is_the_shell() {
    let shell = response(get("/"));
    assert_eq!(shell.status, 200);
    assert_eq!(shell.body, b"<html>shell</html>".to_vec());
    assert_eq!(response(get("/albums/123")), shell);
    assert_eq!(response(get("/albums/42")), shell);
    assert_eq!(response(get("/search")), shell);
    assert_eq!(index(&bundle()), shell);
}

#[test]
fn client_route_wins_over_a_bundled_file() {
    let shell = response(get("/"));
    assert_eq!(response(get("/tracks")), shell);
}

#[test]
fn shell_missing_from_the_bundle_is_not_found() {
    let request = Request { method: Method::Get, path: "/albums/1", upgrade: None, host: None };
    let action = serve(&AssetBundle::new(), &request, 5053);
    assert_eq!(action, Action::Respond(Response::not_found()));
}

#[test]
fn post_graphql_is_executed() {
    let request = Request { method: Method::Post, path: "/graphql", upgrade: None, host: None };
    assert_eq!(serve(&bundle(), &request, 5053), Action::Execute);
}

#[test]
fn upgrade_on_graphql_subscribes() {
    let request =
        Request { method: Method::Get, path: "/graphql", upgrade: Some("Websocket"), host: None };
    assert_eq!(serve(&bundle(), &request, 5053), Action::Subscribe);
}

#[test]
fn get_graphql_without_upgrade_executes_nothing() {
    assert_eq!(get("/graphql"), Action::Respond(Response::not_found()));
}

#[test]
fn unmatched_request_is_not_found() {
    let request = Request { method: Method::Post, path: "/index.html", upgrade: None, host: None };
    assert_eq!(serve(&bundle(), &request, 5053), Action::Respond(Response::not_found()));
}

#[test]
fn covers_are_left_to_the_file_server() {
    assert_eq!(get("/covers/a.png"), Action::ServeCover("a.png".to_string()));
    assert_eq!(get("/covers"), Action::ServeCover(String::new()));
    assert_eq!(get("/covers/x/..y/z.png"), Action::ServeCover("x/..y/z.png".to_string()));
}

#[test]
fn covers_outside_the_directory_are_refused() {
    assert_eq!(get("/covers/../secret"), Action::Respond(Response::not_found()));
    assert_eq!(get("/covers/a/../../b"), Action::Respond(Response::not_found()));
    assert_eq!(get("/covers/.."), Action::Respond(Response::not_found()));
    assert_eq!(get("/covers/a/b/../../../c.png"), Action::Respond(Response::not_found()));
}

#[test]
fn covers_that_climb_and_stay_inside_are_served() {
    assert_eq!(get("/covers/a/../b.png"), Action::ServeCover("a/../b.png".to_string()));
    assert_eq!(get("/covers/a/.."), Action::ServeCover("a/..".to_string()));
    assert_eq!(get("/covers/a/b/../../c.png"), Action::ServeCover("a/b/../../c.png".to_string()));
}

#[test]
fn only_a_climb_above_the_root_leaves_the_directory() {
    assert!(is_inside(""));
    assert!(is_inside("a.png"));
    assert!(is_inside("a/b/c.png"));
    assert!(is_inside("..."));
    assert!(is_inside("a../b"));
    assert!(is_inside("a/..b"));
    assert!(is_inside("./a"));
    assert!(is_inside("a/.."));
    assert!(is_inside("a/../b"));
    assert!(is_inside("a//.."));
    assert!(is_inside("a/./.."));
    assert!(is_inside("a/b/../../c"));
    assert!(is_inside("a/../b/../c"));
    assert!(!is_inside(".."));
    assert!(!is_inside("../a"));
    assert!(!is_inside("a/../.."));
    assert!(!is_inside("a/../../b"));
    assert!(!is_inside("./.."));
    assert!(!is_inside("/.."));
    assert!(!is_inside("a/./../.."));
    assert!(!is_inside("a/b/../../../c"));
}

#[test]
fn host_is_what_stands_before_the_port() {
    assert_eq!(extract_host(Some("10.0.0.5")), Ok("10.0.0.5"));
    assert_eq!(extract_host(Some("10.0.0.5:8080")), Ok("10.0.0.5"));
    assert_eq!(extract_host(Some("localhost:3000")), Ok("localhost"));
    assert_eq!(extract_host(Some("music.local:")), Ok("music.local"));
}

#[test]
fn bracketed_address_keeps_its_colons() {
    assert_eq!(extract_host(Some("[::1]:8080")), Ok("[::1]"));
    assert_eq!(extract_host(Some("[::1]")), Ok("[::1]"));
    assert_eq!(extract_host(Some("[fe80::1:2]:5053")), Ok("[fe80::1:2]"));
}

#[test]
fn host_errors() {
    assert_eq!(extract_host(None), Err(HostError::Missing));
    assert_eq!(extract_host(Some("")), Err(HostError::Invalid));
    assert_eq!(extract_host(Some(":8080")), Err(HostError::Invalid));
}

#[test]
fn host_with_more_than_a_port_behind_it_is_invalid() {
    assert_eq!(extract_host(Some("music.local:1:2")), Err(HostError::Invalid));
    assert_eq!(extract_host(Some("::1")), Err(HostError::Invalid));
    assert_eq!(extract_host(Some("fe80::1")), Err(HostError::Invalid));
    assert_eq!(extract_host(Some("[::1")), Err(HostError::Invalid));
    assert_eq!(extract_host(Some("[::1]x")), Err(HostError::Invalid));
    assert_eq!(extract_host(Some("[::1]:80:81")), Err(HostError::Invalid));
}

#[test]
fn host_outside_visible_ascii_is_invalid() {
    assert_eq!(extract_host(Some("h\u{f6}st:1")), Err(HostError::Invalid));
    assert_eq!(extract_host(Some("\u{ff}")), Err(HostError::Invalid));
    assert_eq!(extract_host(Some("host\u{fffd}")), Err(HostError::Invalid));
    assert_eq!(extract_host(Some("host\u{7f}")), Err(HostError::Invalid));
    assert_eq!(extract_host(Some("host\n")), Err(HostError::Invalid));
    assert_eq!(extract_host(Some("host:80\u{e9}")), Err(HostError::Invalid));
    assert!(is_visible_char('a'));
    assert!(is_visible_char(' '));
    assert!(is_visible_char('~'));
    assert!(is_visible_char('\t'));
    assert!(!is_visible_char('\u{1f}'));
    assert!(!is_visible_char('\u{7f}'));
    assert!(!is_visible_char('\u{80}'));
    let ok: Vec<char> = "a b\tc".chars().collect();
    assert!(is_visible_text(&ok));
    let bad: Vec<char> = "ab\u{0}".chars().collect();
    assert!(!is_visible_text(&bad));
}

#[test]
fn host_end_is_found() {
    let chars = |s: &str| s.chars().collect::<Vec<char>>();
    assert_eq!(find_host_end(&chars("host:80")), Some(4));
    assert_eq!(find_host_end(&chars("host")), Some(4));
    assert_eq!(find_host_end(&chars("[::1]:80")), Some(5));
    assert_eq!(find_host_end(&chars("[::1")), None);
    assert_eq!(find_host_end(&chars(":80")), None);
    assert_eq!(find_host_end(&chars("")), None);
}

#[test]
fn endpoints_for_a_lan_host() {
    assert_eq!(graphql_endpoint("10.0.0.5", 8080), "http://10.0.0.5:8080/graphql");
    assert_eq!(subscription_endpoint("10.0.0.5", 8080), "ws://10.0.0.5:8080/graphql");
    assert_eq!(graphql_endpoint("localhost", 80), "http://localhost:80/graphql");
    assert_eq!(subscription_endpoint("localhost", 65535), "ws://localhost:65535/graphql");
}

#[test]
fn discovery_page_embeds_both_endpoints() {
    let page = discovery_page("10.0.0.5", 8080);
    assert!(page.contains("http://10.0.0.5:8080/graphql"));
    assert!(page.contains("ws://10.0.0.5:8080/graphql"));
    assert!(page.contains("<html"));
    assert_ne!(page, "10.0.0.5");
    assert_ne!(page, "http://10.0.0.5:8080/graphql");
}

#[test]
fn discovery_page_differs_with_the_host() {
    let a = discovery_page("10.0.0.5", 8080);
    let b = discovery_page("127.0.0.1", 8080);
    assert_ne!(a, b);
    assert!(!b.contains("10.0.0.5"));
    assert_eq!(a, discovery_page("10.0.0.5", 8080));
}

#[test]
fn page_response_is_html() {
    let r = page_response("<p>\u{e9}</p>".to_string());
    assert_eq!(r.status, 200);
    assert_eq!(r.content_type, "text/html; charset=utf-8");
    assert_eq!(r.body, "<p>\u{e9}</p>".as_bytes().to_vec());
}

#[test]
fn get_graphiql_with_lan_host() {
    let r = index_graphiql(Some("192.168.1.5"), 5053);
    assert_eq!(r.status, 200);
    assert_eq!(r.content_type, "text/html; charset=utf-8");
    let page = String::from_utf8(r.body).unwrap();
    assert!(page.contains("http://192.168.1.5:5053/graphql"));
    assert!(page.contains("ws://192.168.1.5:5053/graphql"));
}

#[test]
fn get_graphiql_through_the_gateway() {
    let request = Request {
        method: Method::Get,
        path: "/graphiql",
        upgrade: None,
        host: Some("192.168.1.5:5053"),
    };
    let r = response(serve(&bundle(), &request, 5053));
    assert_eq!(r, index_graphiql(Some("192.168.1.5"), 5053));
}

#[test]
fn get_graphiql_with_bracketed_address() {
    let r = index_graphiql(Some("[::1]:8080"), 8080);
    assert_eq!(r.status, 200);
    let page = String::from_utf8(r.body).unwrap();
    assert!(page.contains("http://[::1]:8080/graphql"));
    assert!(page.contains("ws://[::1]:8080/graphql"));
    assert!(!page.contains("http://[:8080/graphql"));
}

#[test]
fn get_graphiql_with_unreadable_host_is_a_client_error() {
    assert_eq!(index_graphiql(Some("\u{ff}"), 8080), Response::bad_request());
    assert_eq!(index_graphiql(Some("h\u{fffd}st:8080"), 8080), Response::bad_request());
    assert_eq!(index_graphiql(Some("a:1:2"), 8080), Response::bad_request());
    let request = Request {
        method: Method::Get,
        path: "/graphiql",
        upgrade: None,
        host: Some("caf\u{e9}.local"),
    };
    let r = response(serve(&bundle(), &request, 8080));
    assert_eq!(r.status, 400);
    assert_eq!(r.body, b"400 Bad Request".to_vec());
}

#[test]
fn get_graphiql_without_host_is_a_client_error() {
    assert_eq!(index_graphiql(None, 8080), Response::bad_request());
    assert_eq!(index_graphiql(Some(":8080"), 8080), Response::bad_request());
    let r = response(get("/graphiql"));
    assert_eq!(r.status, 400);
}
