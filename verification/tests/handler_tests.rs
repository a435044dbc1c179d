use basic_http_server::error::{Cause, Error, Level, LogRecord};
use basic_http_server::handler::{
    get_unsupported_request_message, handle_unsupported_request,
    log_for, make_error_response_from_code, make_error_response_from_code_and_headers,
    respond_with_file, serve, serve_file, serve_or_error, settle_error, status_for,
    transform_error, try_dir_redirect, Outcome, Unsupported,
};
use basic_http_server::page::{injected_script_for, render_error_html};
use basic_http_server::request::{Config, Probe, Request};
use basic_http_server::response::{
    html_str_to_response_with_headers, Body, Header, Response, StreamedBody,
};
use basic_http_server::text::ends_with;

fn config() -> Config {
    Config { addr: "127.0.0.1:4000".to_string(), ws_port: 8090, root_dir: "/srv".to_string() }
}

fn request(method: &str, path: &str, query: Option<&str>) -> Request {
    Request {
        method: method.to_string(),
        path: path.to_string(),
        query: query.map(|q| q.to_string()),
    }
}

fn get(path: &str) -> Request {
    request("GET", path, None)
}

fn h(name: &str, value: &str) -> Header {
    Header { name: name.to_string(), value: value.to_string() }
}

fn io(text: &str) -> Cause {
    Cause { chain: vec![text.to_string()] }
}

fn absent() -> Probe {
    Probe { is_dir: false, opened: Err(io("No such file or directory (os error 2)")) }
}

fn error_page_response(status: u16, extra: Vec<Header>) -> Response {
    let page = render_error_html(status).unwrap();
    let mut headers = extra;
    headers.push(h("content-length", &page.len().to_string()));
    headers.push(h("content-type", "text/html"));
    Response { status, headers, body: Body::Text(page) }
}

#[test]
fn directory_without_trailing_slash_is_redirected() {
    let probe = Probe { is_dir: true, opened: Ok(120) };
    let outcome = serve(&config(), &get("/docs"), probe);
    assert_eq!(
        outcome.response,
        Response { status: 302, headers: vec![h("location", "/docs/")], body: Body::Empty }
    );
    assert_eq!(outcome.log, Vec::<LogRecord>::new());
}

#[test]
fn redirect_keeps_the_query() {
    let probe = Probe { is_dir: true, opened: Ok(0) };
    let outcome = serve(&config(), &request("GET", "/docs", Some("a=1&b=2")), probe);
    assert_eq!(outcome.response.status, 302);
    assert_eq!(outcome.response.headers, vec![h("location", "/docs/?a=1&b=2")]);
    assert_eq!(outcome.response.body, Body::Empty);
}

#[test]
fn redirect_keeps_the_path_as_it_was_sent() {
    let probe = Probe { is_dir: true, opened: Ok(0) };
    let outcome = serve(&config(), &request("GET", "/my%20docs", Some("")), probe);
    assert_eq!(outcome.response.headers, vec![h("location", "/my%20docs/?")]);
}

#[test]
fn directory_with_trailing_slash_serves_its_index() {
    let probe = Probe { is_dir: true, opened: Ok(120) };
    let outcome = serve(&config(), &get("/docs/"), probe);
    let script = injected_script_for(8090);
    assert_eq!(
        outcome.response,
        Response {
            status: 200,
            headers: vec![
                h("content-length", &(120 + script.len()).to_string()),
                h("content-type", "text/html"),
            ],
            body: Body::File(StreamedBody {
                path: "/srv/docs/index.html".to_string(),
                file_len: 120,
                trailer: script,
            }),
        }
    );
    assert_eq!(outcome.log, Vec::<LogRecord>::new());
}

#[test]
fn other_method_is_refused_with_allow_get() {
    let outcome = serve(&config(), &request("POST", "/anything", None), absent());
    assert_eq!(outcome.response, error_page_response(405, vec![h("allow", "GET")]));
    assert_eq!(outcome.log, Vec::<LogRecord>::new());
    match &outcome.response.body {
        Body::Text(page) => assert!(page.contains("405 Method Not Allowed")),
        _ => panic!("the refusal carries a page"),
    }
}

#[test]
fn refusal_does_not_depend_on_the_path_or_the_disk() {
    let expected = error_page_response(405, vec![h("allow", "GET")]);
    for method in ["POST", "PUT", "DELETE", "HEAD", "OPTIONS", "get", "Get", ""] {
        for path in ["/", "/docs", "/%FF", "relative", "/../x"] {
            let probe = Probe { is_dir: true, opened: Ok(5) };
            let outcome = serve(&config(), &request(method, path, Some("q")), probe);
            assert_eq!(outcome.response, expected);
        }
    }
}

#[test]
fn missing_file_is_answered_with_the_404_page() {
    let outcome = serve(&config(), &get("/missing.txt"), absent());
    assert_eq!(outcome.response, error_page_response(404, vec![]));
    assert_eq!(
        outcome.log,
        vec![LogRecord {
            level: Level::Debug,
            text: "No such file or directory (os error 2)".to_string(),
        }]
    );
    match &outcome.response.body {
        Body::Text(page) => assert!(page.contains("404 Not Found")),
        _ => panic!("the error carries a page"),
    }
}

#[test]
fn stylesheet_is_streamed_as_it_is() {
    let probe = Probe { is_dir: false, opened: Ok(3456) };
    let outcome = serve(&config(), &get("/style.css"), probe);
    assert_eq!(
        outcome.response,
        Response {
            status: 200,
            headers: vec![h("content-length", "3456"), h("content-type", "text/css")],
            body: Body::File(StreamedBody {
                path: "/srv/style.css".to_string(),
                file_len: 3456,
                trailer: String::new(),
            }),
        }
    );
}

#[test]
fn html_file_counts_the_script_in_its_length() {
    let cfg = Config { addr: String::new(), ws_port: 1, root_dir: "/srv".to_string() };
    let script = injected_script_for(1);
    let r = respond_with_file("/srv/a.HTML", &cfg, Ok(0)).unwrap();
    assert_eq!(r.headers[0], h("content-length", &script.len().to_string()));
    assert_eq!(r.headers[1], h("content-type", "text/html"));
    assert_eq!(
        r.body,
        Body::File(StreamedBody { path: "/srv/a.HTML".to_string(), file_len: 0, trailer: script })
    );
}

#[test]
fn content_length_of_the_largest_file_does_not_wrap() {
    let script = injected_script_for(8090);
    let r = respond_with_file("/srv/big.html", &config(), Ok(u64::MAX)).unwrap();
    let expected = u64::MAX as u128 + script.len() as u128;
    assert_eq!(r.headers[0], h("content-length", &expected.to_string()));
    let r = respond_with_file("/srv/big.bin", &config(), Ok(u64::MAX)).unwrap();
    assert_eq!(r.headers[0], h("content-length", "18446744073709551615"));
    assert_eq!(r.headers[1], h("content-type", "application/octet-stream"));
}

#[test]
fn file_that_cannot_be_opened_is_an_io_error() {
    let r = respond_with_file("/srv/a.txt", &config(), Err(io("denied")));
    assert_eq!(r, Err(Error::Io(io("denied"))));
}

#[test]
fn path_that_is_not_utf8_is_answered_with_the_500_page() {
    let outcome = serve(&config(), &get("/%FF"), absent());
    assert_eq!(outcome.response, error_page_response(500, vec![]));
    assert_eq!(
        outcome.log,
        vec![LogRecord {
            level: Level::Error,
            text: "error: requested URI is not UTF-8".to_string(),
        }]
    );
}

#[test]
fn path_that_is_not_absolute_is_answered_with_the_500_page() {
    let outcome = serve(&config(), &get("docs"), absent());
    assert_eq!(outcome.response, error_page_response(500, vec![]));
    assert_eq!(
        outcome.log,
        vec![LogRecord {
            level: Level::Error,
            text: "error: requested URI is not an absolute path".to_string(),
        }]
    );
}

#[test]
fn serve_file_passes_resolution_errors_on() {
    assert_eq!(serve_file(&get("/%C3"), &config(), absent()), Err(Error::UriNotUtf8));
    assert_eq!(serve_file(&get("x"), &config(), absent()), Err(Error::UriNotAbsolute));
    assert_eq!(
        serve_or_error(&config(), &get("/%C3"), absent()),
        Err(Error::UriNotUtf8)
    );
}

#[test]
fn serving_twice_gives_the_same_response() {
    let first = serve(&config(), &get("/a/b.html?x"), Probe { is_dir: false, opened: Ok(9) });
    let second = serve(&config(), &get("/a/b.html?x"), Probe { is_dir: false, opened: Ok(9) });
    assert_eq!(first, second);
}

#[test]
fn only_get_is_supported() {
    assert_eq!(get_unsupported_request_message(&get("/")), None);
    assert_eq!(
        get_unsupported_request_message(&request("POST", "/", None)),
        Some(Unsupported { code: 405, headers: vec![h("allow", "GET")] })
    );
    assert_eq!(
        get_unsupported_request_message(&request("get", "/", None)),
        Some(Unsupported { code: 405, headers: vec![h("allow", "GET")] })
    );
    assert_eq!(handle_unsupported_request(&get("/x")), None);
    assert_eq!(
        handle_unsupported_request(&request("PUT", "/x", None)),
        Some(Ok(error_page_response(405, vec![h("allow", "GET")])))
    );
}

#[test]
fn try_dir_redirect_cases() {
    assert_eq!(try_dir_redirect(&get("/docs/"), "/srv", true), Ok(None));
    assert_eq!(try_dir_redirect(&get("/docs/"), "/srv", false), Ok(None));
    assert_eq!(try_dir_redirect(&get("/docs"), "/srv", false), Ok(None));
    assert_eq!(
        try_dir_redirect(&get("/docs"), "/srv", true),
        Ok(Some(Response { status: 302, headers: vec![h("location", "/docs/")], body: Body::Empty }))
    );
    assert_eq!(try_dir_redirect(&get("/%FF"), "/srv", true), Err(Error::UriNotUtf8));
    assert_eq!(try_dir_redirect(&get("/%FF/"), "/srv", true), Ok(None));
    assert_eq!(try_dir_redirect(&get("docs"), "/srv", true), Err(Error::UriNotAbsolute));
    assert_eq!(try_dir_redirect(&get(""), "/srv", true), Err(Error::UriNotAbsolute));
}

#[test]
fn error_response_carries_the_given_headers_first() {
    let r = make_error_response_from_code_and_headers(404, vec![h("x-a", "1"), h("x-b", "2")]);
    assert_eq!(r, Ok(error_page_response(404, vec![h("x-a", "1"), h("x-b", "2")])));
    assert_eq!(make_error_response_from_code(500), Ok(error_page_response(500, vec![])));
}

#[test]
fn html_response_counts_bytes_not_characters() {
    let r = html_str_to_response_with_headers("h\u{e9}".to_string(), 200, vec![h("x", "y")]);
    assert_eq!(
        r,
        Response {
            status: 200,
            headers: vec![h("x", "y"), h("content-length", "3"), h("content-type", "text/html")],
            body: Body::Text("h\u{e9}".to_string()),
        }
    );
    let r = html_str_to_response_with_headers(String::new(), 404, vec![]);
    assert_eq!(r.headers, vec![h("content-length", "0"), h("content-type", "text/html")]);
}

#[test]
fn transform_error_passes_a_response_on() {
    let resp = Response { status: 302, headers: vec![h("location", "/a/")], body: Body::Empty };
    assert_eq!(
        transform_error(Ok(resp.clone())),
        Outcome { response: resp, log: vec![] }
    );
}

#[test]
fn transform_error_logs_the_whole_chain_for_a_500() {
    let e = Error::Http(Cause { chain: vec!["bad header".to_string(), "invalid byte".to_string()] });
    let outcome = transform_error(Err(e));
    assert_eq!(outcome.response, error_page_response(500, vec![]));
    assert_eq!(
        outcome.log,
        vec![
            LogRecord { level: Level::Error, text: "error: HTTP error".to_string() },
            LogRecord { level: Level::Error, text: "caused by: bad header".to_string() },
            LogRecord { level: Level::Error, text: "caused by: invalid byte".to_string() },
        ]
    );
}

#[test]
fn transform_error_logs_an_io_error_at_debug_level() {
    let e = Error::Io(Cause { chain: vec!["outer".to_string(), "inner".to_string()] });
    let outcome = transform_error(Err(e));
    assert_eq!(outcome.response.status, 404);
    assert_eq!(outcome.log, vec![LogRecord { level: Level::Debug, text: "outer".to_string() }]);
    let outcome = transform_error(Err(Error::Io(Cause { chain: vec![] })));
    assert_eq!(outcome.response.status, 404);
    assert_eq!(outcome.log, vec![LogRecord { level: Level::Debug, text: String::new() }]);
}

#[test]
fn ends_with_looks_at_the_last_character() {
    assert!(ends_with("/docs/", '/'));
    assert!(ends_with("/", '/'));
    assert!(!ends_with("/docs", '/'));
    assert!(!ends_with("", '/'));
}

#[test]
fn header_lookup_finds_the_first_of_a_name() {
    let r = Response {
        status: 200,
        headers: vec![h("a", "1"), h("b", "2"), h("a", "3")],
        body: Body::Empty,
    };
    assert_eq!(r.header("a"), Some("1"));
    assert_eq!(r.header("b"), Some("2"));
    assert_eq!(r.header("c"), None);
    assert_eq!(r.header("A"), None);
    let outcome = serve(&config(), &get("/docs"), Probe { is_dir: true, opened: Ok(1) });
    assert_eq!(outcome.response.header("location"), Some("/docs/"));
    assert_eq!(outcome.response.header("content-length"), None);
}

#[test]
fn io_errors_are_404_and_all_others_500() {
    assert_eq!(status_for(&Error::Io(io("x"))), 404);
    assert_eq!(status_for(&Error::Http(io("x"))), 500);
    assert_eq!(status_for(&Error::Hyper(io("x"))), 500);
    assert_eq!(status_for(&Error::AddrParse(io("x"))), 500);
    assert_eq!(status_for(&Error::TemplateRender(io("x"))), 500);
    assert_eq!(status_for(&Error::UriNotAbsolute), 500);
    assert_eq!(status_for(&Error::UriNotUtf8), 500);
}

#[test]
fn log_of_an_error() {
    assert_eq!(
        log_for(&Error::Io(io("gone"))),
        vec![LogRecord { level: Level::Debug, text: "gone".to_string() }]
    );
    assert_eq!(
        log_for(&Error::TemplateRender(io("bad template"))),
        vec![
            LogRecord { level: Level::Error, text: "error: failed to render template".to_string() },
            LogRecord { level: Level::Error, text: "caused by: bad template".to_string() },
        ]
    );
}

#[test]
fn settled_error_with_its_response() {
    let page = error_page_response(404, vec![]);
    let outcome = settle_error(&Error::Io(io("gone")), Ok(page.clone()));
    assert_eq!(
        outcome,
        Outcome {
            response: page,
            log: vec![LogRecord { level: Level::Debug, text: "gone".to_string() }],
        }
    );
}

#[test]
fn last_resort_is_a_plain_text_that_names_the_failure() {
    let outcome =
        settle_error(&Error::UriNotUtf8, Err(Error::TemplateRender(io("line 1: bad tag"))));
    assert_eq!(
        outcome.response,
        Response {
            status: 200,
            headers: vec![],
            body: Body::Text("unexpected internal error: failed to render template".to_string()),
        }
    );
    assert_eq!(
        outcome.log,
        vec![
            LogRecord { level: Level::Error, text: "error: requested URI is not UTF-8".to_string() },
            LogRecord {
                level: Level::Error,
                text: "unexpected internal error: failed to render template".to_string(),
            },
        ]
    );
    let outcome = settle_error(&Error::Io(io("gone")), Err(Error::Http(io("bad header"))));
    assert_eq!(
        outcome.response.body,
        Body::Text("unexpected internal error: HTTP error".to_string())
    );
    assert_eq!(
        outcome.log,
        vec![
            LogRecord { level: Level::Debug, text: "gone".to_string() },
            LogRecord {
                level: Level::Error,
                text: "unexpected internal error: HTTP error".to_string(),
            },
        ]
    );
}

#[test]
fn parent_segment_is_resolved_like_any_other() {
    let outcome = serve(&config(), &get("/a/../"), Probe { is_dir: true, opened: Ok(12) });
    let script = injected_script_for(8090);
    assert_eq!(
        outcome.response,
        Response {
            status: 200,
            headers: vec![
                h("content-length", &(12 + script.len()).to_string()),
                h("content-type", "text/html"),
            ],
            body: Body::File(StreamedBody {
                path: "/srv/a/../index.html".to_string(),
                file_len: 12,
                trailer: script,
            }),
        }
    );
    let outcome = serve(&config(), &get("/a/.."), Probe { is_dir: true, opened: Ok(12) });
    assert_eq!(
        outcome.response,
        Response { status: 302, headers: vec![h("location", "/a/../")], body: Body::Empty }
    );
    let outcome = serve(&config(), &get("/%2e%2e/x.css"), Probe { is_dir: false, opened: Ok(3) });
    assert_eq!(
        outcome.response.body,
        Body::File(StreamedBody {
            path: "/srv/../x.css".to_string(),
            file_len: 3,
            trailer: String::new(),
        })
    );
}

#[test]
fn serve_file_hands_on_what_the_redirect_step_returns() {
    for (path, is_dir) in [("/a/..", true), ("/docs", true), ("/%FF", true), ("x", false)] {
        let redirect = try_dir_redirect(&get(path), "/srv", is_dir);
        let served = serve_file(&get(path), &config(), Probe { is_dir, opened: Ok(1) });
        match redirect {
            Ok(Some(response)) => assert_eq!(served, Ok(response)),
            Err(e) => assert_eq!(served, Err(e)),
            Ok(None) => panic!("{} is redirected or refused", path),
        }
    }
    for (path, is_dir) in [("/a/", true), ("/a.css", false), ("/a/../b.css", false)] {
        assert_eq!(try_dir_redirect(&get(path), "/srv", is_dir), Ok(None));
        let local =
            basic_http_server::path::local_path_with_maybe_index(path, "/srv", is_dir).unwrap();
        assert_eq!(
            serve_file(&get(path), &config(), Probe { is_dir, opened: Ok(1) }),
            respond_with_file(&local, &config(), Ok(1))
        );
    }
}
