//! From a request, and what was found on disk for it, to the one response it gets.
//!
//! The functions here decide; none of them touches the disk. Whether the local path is a
//! directory and how opening the file went are handed in as a `Probe`.

use vstd::prelude::*;
use vstd::string::*;
use crate::error::{log_error_chain, Cause, Error, ErrorView, Level, LogRecord};
use crate::mime::{file_path_mime, mime_for_path};
use crate::page::{
    error_page, error_page_failure, injected_script, injected_script_for, render_error_html,
};
use crate::path::{
    extension, has_html_extension, is_html_path, local_path, local_path_for_request,
    local_path_or_index, local_path_with_maybe_index,
};
use crate::request::{Config, ConfigView, Probe, ProbeView, Request, RequestView};
use crate::response::{
    byte_len, header, headers_view, html_response, html_str_to_response_with_headers, Body,
    BodyView, Header, Response, ResponseView, StreamedBody, FOUND, INTERNAL_SERVER_ERROR,
    METHOD_NOT_ALLOWED, NOT_FOUND, OK,
};
use crate::text::{decimal, ends_with, to_decimal};

verus! {

/// Why a request is not served: the status to answer with and the headers that go with it.
#[derive(Clone, Debug, PartialEq, Eq)]
pub struct Unsupported {
    pub code: u16,
    pub headers: Vec<Header>,
}

/// A response together with what is to be logged about how it came about.
#[derive(Clone, Debug, PartialEq, Eq)]
pub struct Outcome {
    pub response: Response,
    pub log: Vec<LogRecord>,
}

/// An `Outcome` as a mathematical value.
pub struct OutcomeView {
    pub response: ResponseView,
    pub log: Seq<(Level, Seq<char>)>,
}

/// Log records as pairs of level and text, in order.
pub open spec fn log_view(log: Seq<LogRecord>) -> Seq<(Level, Seq<char>)> {
    Seq::new(log.len(), |i: int| log[i]@)
}

impl View for Outcome {
    type V = OutcomeView;

    open spec fn view(&self) -> OutcomeView {
        OutcomeView { response: self.response@, log: log_view(self.log@) }
    }
}

/// A result of the handler as a mathematical value.
pub open spec fn result_view(r: Result<Response, Error>) -> Result<ResponseView, ErrorView> {
    match r {
        Ok(resp) => Ok(resp@),
        Err(e) => Err(e@),
    }
}

/// The server serves `GET` and nothing else.
pub open spec fn is_supported(req: RequestView) -> bool {
    req.method == "GET"@
}

/// The headers that go with the refusal of a method: `allow: GET`.
pub open spec fn allow_get() -> Seq<(Seq<char>, Seq<char>)> {
    seq![("allow"@, "GET"@)]
}

/// The error response for a status and headers: the error page of the status as an HTML
/// response, or the failure to render it.
pub open spec fn error_response(status: u16, headers: Seq<(Seq<char>, Seq<char>)>) -> Result<
    ResponseView,
    ErrorView,
> {
    match error_page(status) {
        Some(page) => Ok(html_response(page, status, headers)),
        None => Err(error_page_failure(status)),
    }
}

/// Where a directory that was asked for without a trailing `/` is to be found: the path
/// as it was sent, a `/`, and the query behind a `?` if there was one.
pub open spec fn redirect_location(req: RequestView) -> Seq<char> {
    req.path + "/"@ + match req.query {
        Some(q) => "?"@ + q,
        None => Seq::empty(),
    }
}

/// The redirect for a directory: `302` with the location and no body.
pub open spec fn redirect_response(req: RequestView) -> ResponseView {
    ResponseView {
        status: 302,
        headers: seq![("location"@, redirect_location(req))],
        body: BodyView::Empty,
    }
}

/// Whether a request is answered with a redirect: it is when its path does not end in
/// `/` and leads to a directory.
pub open spec fn dir_redirect(req: RequestView, root: Seq<char>, is_dir: bool) -> Result<
    Option<ResponseView>,
    ErrorView,
> {
    if req.path.len() > 0 && req.path.last() == '/' {
        Ok(None)
    } else {
        match local_path(req.path, root) {
            Err(e) => Err(e),
            Ok(_) => if is_dir {
                Ok(Some(redirect_response(req)))
            } else {
                Ok(None)
            },
        }
    }
}

/// What is sent after the file at `path`: the reload script for an HTML file, nothing
/// for any other.
pub open spec fn trailer_for(path: Seq<char>, ws_port: u16) -> Seq<char> {
    if is_html_path(path) {
        injected_script(ws_port)
    } else {
        Seq::empty()
    }
}

/// The response that streams the file at `path`, or the I/O error where it could not
/// be opened.
pub open spec fn file_response(
    path: Seq<char>,
    ws_port: u16,
    opened: Result<u64, Seq<Seq<char>>>,
) -> Result<ResponseView, ErrorView> {
    match opened {
        Err(cause) => Err(ErrorView::Io(cause)),
        Ok(len) => {
            let body = BodyView::File {
                path,
                file_len: len as nat,
                trailer: trailer_for(path, ws_port),
            };
            Ok(
                ResponseView {
                    status: 200,
                    headers: seq![
                        ("content-length"@, decimal(body.byte_len())),
                        ("content-type"@, mime_for_path(path)),
                    ],
                    body,
                },
            )
        },
    }
}

/// What a `GET` request gets, before errors are turned into pages: the redirect where
/// one is due, else the response for the file that the path leads to.
pub open spec fn file_served(req: RequestView, cfg: ConfigView, probe: ProbeView) -> Result<
    ResponseView,
    ErrorView,
> {
    match dir_redirect(req, cfg.root_dir, probe.is_dir) {
        Err(e) => Err(e),
        Ok(Some(resp)) => Ok(resp),
        Ok(None) => match local_path_or_index(req.path, cfg.root_dir, probe.is_dir) {
            Err(e) => Err(e),
            Ok(p) => file_response(p, cfg.ws_port, probe.opened),
        },
    }
}

/// What a request gets, before errors are turned into pages.
pub open spec fn served_or_error(cfg: ConfigView, req: RequestView, probe: ProbeView) -> Result<
    ResponseView,
    ErrorView,
> {
    if is_supported(req) {
        file_served(req, cfg, probe)
    } else {
        error_response(405, allow_get())
    }
}

/// The status that answers an error: `404` for an I/O error, `500` for every other.
pub open spec fn error_status(e: ErrorView) -> u16 {
    if e is Io {
        404
    } else {
        500
    }
}

/// What is logged of an error: an I/O error's own description at debug level, the
/// report of every other error at error level.
pub open spec fn error_log(e: ErrorView) -> Seq<(Level, Seq<char>)> {
    match e {
        ErrorView::Io(cause) => seq![
            (
                Level::Debug,
                if cause.len() > 0 {
                    cause[0]
                } else {
                    Seq::empty()
                },
            ),
        ],
        _ => Seq::new(e.report().len(), |i: int| (Level::Error, e.report()[i])),
    }
}

/// The text of the last resort, sent and logged when not even the error response could
/// be made: it names the failure that stood in the way.
pub open spec fn last_resort_text(failure: ErrorView) -> Seq<char> {
    "unexpected internal error: "@ + failure.message()
}

/// The response of the last resort: the text, with status 200 and no headers.
pub open spec fn last_resort_response(failure: ErrorView) -> ResponseView {
    ResponseView {
        status: 200,
        headers: Seq::empty(),
        body: BodyView::Text(last_resort_text(failure)),
    }
}

/// The outcome of an error, given how making its error response went: the error
/// response and the log of the error, or the last resort with a line more in the log.
pub open spec fn error_outcome(e: ErrorView, made: Result<ResponseView, ErrorView>) -> OutcomeView {
    match made {
        Ok(response) => OutcomeView { response, log: error_log(e) },
        Err(failure) => OutcomeView {
            response: last_resort_response(failure),
            log: error_log(e).push((Level::Error, last_resort_text(failure))),
        },
    }
}

/// The outcome of a result: a response passes and nothing is logged; an error ends in
/// the error response for its status, or in the last resort.
pub open spec fn outcome_for(resp: Result<ResponseView, ErrorView>) -> OutcomeView {
    match resp {
        Ok(response) => OutcomeView { response, log: Seq::empty() },
        Err(e) => error_outcome(e, error_response(error_status(e), Seq::empty())),
    }
}

/// The response that a result ends in.
pub open spec fn final_response(resp: Result<ResponseView, ErrorView>) -> ResponseView {
    outcome_for(resp).response
}

/// The response that a request gets, given what was found on disk.
pub open spec fn served(cfg: ConfigView, req: RequestView, probe: ProbeView) -> ResponseView {
    final_response(served_or_error(cfg, req, probe))
}

/// `o` is the outcome of the request: the response that it gets and what is logged on
/// the way to it.
pub open spec fn is_outcome_of(
    o: OutcomeView,
    cfg: ConfigView,
    req: RequestView,
    probe: ProbeView,
) -> bool {
    o == outcome_for(served_or_error(cfg, req, probe))
}

/// Says why a request is not served, if it is not: any method but `GET` is refused with
/// `405` and the header `allow: GET`.
pub fn get_unsupported_request_message(req: &Request) -> (r: Option<Unsupported>)
    ensures
        match r {
            Some(u) => !is_supported(req@) && u.code == 405 && headers_view(u.headers@)
                == allow_get(),
            None => is_supported(req@),
        },
{
    let get = String::from_str("GET");
    if req.method == get {
        None
    } else {
        let mut headers: Vec<Header> = Vec::new();
        headers.push(header("allow", String::from_str("GET")));
        Some(Unsupported { code: METHOD_NOT_ALLOWED, headers })
    }
}

/// Makes the error response for a status and headers.
///
/// Fails with `TemplateRender` exactly when the error page does not render; the error
/// then wraps what the template engine says of the failure.
pub fn make_error_response_from_code_and_headers(status: u16, headers: Vec<Header>) -> (r: Result<
    Response,
    Error,
>)
    ensures
        result_view(r) == error_response(status, headers_view(headers@)),
{
    match render_error_html(status) {
        Ok(page) => Ok(html_str_to_response_with_headers(page, status, headers)),
        Err(e) => Err(e),
    }
}

/// Makes the error response for a status, without further headers.
pub fn make_error_response_from_code(status: u16) -> (r: Result<Response, Error>)
    ensures
        result_view(r) == error_response(status, Seq::empty()),
{
    let headers: Vec<Header> = Vec::new();
    make_error_response_from_code_and_headers(status, headers)
}

/// Makes the error response for a request that is not served; `None` for one that is.
pub fn handle_unsupported_request(req: &Request) -> (r: Option<Result<Response, Error>>)
    ensures
        match r {
            Some(res) => !is_supported(req@) && result_view(res) == error_response(
                405,
                allow_get(),
            ),
            None => is_supported(req@),
        },
{
    match get_unsupported_request_message(req) {
        Some(unsup) => Some(make_error_response_from_code_and_headers(unsup.code, unsup.headers)),
        None => None,
    }
}

/// Redirects a request for a directory that lacks the trailing `/`.
///
/// `is_dir` says whether the local path of the request is a directory. A path that ends
/// in `/` is never redirected and never fails; any other path fails as
/// `local_path_for_request` does, is redirected with `302` when it is a directory, and
/// is left alone when it is not.
pub fn try_dir_redirect(req: &Request, root_dir: &str, is_dir: bool) -> (r: Result<
    Option<Response>,
    Error,
>)
    ensures
        match r {
            Ok(Some(resp)) => dir_redirect(req@, root_dir@, is_dir) == Ok::<
                Option<ResponseView>,
                ErrorView,
            >(Some(resp@)),
            Ok(None) => dir_redirect(req@, root_dir@, is_dir) == Ok::<
                Option<ResponseView>,
                ErrorView,
            >(None),
            Err(e) => dir_redirect(req@, root_dir@, is_dir) == Err::<
                Option<ResponseView>,
                ErrorView,
            >(e@),
        },
{
    if ends_with(req.path.as_str(), '/') {
        return Ok(None);
    }
    match local_path_for_request(req.path.as_str(), root_dir) {
        Err(e) => Err(e),
        Ok(_) => {
            if !is_dir {
                return Ok(None);
            }
            let mut new_loc = req.path.clone();
            new_loc.append("/");
            if let Some(query) = &req.query {
                new_loc.append("?");
                new_loc.append(query.as_str());
                assert(new_loc@ =~= redirect_location(req@));
            }
            let mut headers: Vec<Header> = Vec::new();
            headers.push(header("location", new_loc));
            let resp = Response { status: FOUND, headers, body: Body::Empty };
            assert(resp@.headers =~= redirect_response(req@).headers);
            Ok(Some(resp))
        },
    }
}

/// Makes the response that streams the file at `path`.
///
/// `opened` says how opening the file went, and the file's length where it went well. A
/// file that could not be opened gives an I/O error. For an HTML file the reload script
/// is sent after the file, and the content length counts both. The content type goes
/// by the extension: `text/html` for `html`, `text/css` for `css`.
pub fn respond_with_file(path: &str, config: &Config, opened: Result<u64, Cause>) -> (r: Result<
    Response,
    Error,
>)
    ensures
        result_view(r) == file_response(
            path@,
            config.ws_port,
            match opened {
                Ok(len) => Ok(len),
                Err(c) => Err(c@),
            },
        ),
        opened is Ok && extension(path@) == Some("html"@) ==> mime_for_path(path@)
            == "text/html"@,
        opened is Ok && extension(path@) == Some("css"@) ==> mime_for_path(path@) == "text/css"@,
{
    match opened {
        Err(cause) => Err(Error::Io(cause)),
        Ok(len) => {
            let mime_type = file_path_mime(path);
            let trailer = if has_html_extension(path) {
                injected_script_for(config.ws_port)
            } else {
                String::new()
            };
            let total: u128 = len as u128 + byte_len(trailer.as_str()) as u128;
            let mut headers: Vec<Header> = Vec::new();
            headers.push(header("content-length", to_decimal(total)));
            headers.push(header("content-type", mime_type));
            let body = Body::File(
                StreamedBody { path: String::from_str(path), file_len: len, trailer },
            );
            let resp = Response { status: OK, headers, body };
            assert(resp@.headers =~= file_response(
                path@,
                config.ws_port,
                Ok::<u64, Seq<Seq<char>>>(len),
            )->Ok_0.headers);
            Ok(resp)
        },
    }
}

/// Serves a file from the root directory, or redirects to it.
///
/// First comes the redirect: whatever `try_dir_redirect` fails with or redirects to is
/// the result. Where it leaves the request alone, the file is streamed: the local
/// path, or the `index.html` in it when it is a directory.
pub fn serve_file(req: &Request, config: &Config, probe: Probe) -> (r: Result<Response, Error>)
    ensures
        result_view(r) == file_served(req@, config@, probe@),
{
    let root_dir = config.root_dir.as_str();
    match try_dir_redirect(req, root_dir, probe.is_dir) {
        Err(e) => Err(e),
        Ok(Some(redir_resp)) => Ok(redir_resp),
        Ok(None) => match local_path_with_maybe_index(req.path.as_str(), root_dir, probe.is_dir) {
            Err(e) => Err(e),
            Ok(path) => respond_with_file(path.as_str(), config, probe.opened),
        },
    }
}

/// Handles a request of any kind, leaving errors as they are.
pub fn serve_or_error(config: &Config, req: &Request, probe: Probe) -> (r: Result<Response, Error>)
    ensures
        result_view(r) == served_or_error(config@, req@, probe@),
{
    match handle_unsupported_request(req) {
        Some(resp) => resp,
        None => serve_file(req, config, probe),
    }
}

/// The status that answers an error: `404` for an I/O error, `500` for every other.
pub fn status_for(err: &Error) -> (status: u16)
    ensures
        status == error_status(err@),
{
    match err {
        Error::Io(_) => NOT_FOUND,
        _ => INTERNAL_SERVER_ERROR,
    }
}

/// What is to be logged of an error: an I/O error is expected and gets one line at
/// debug level, its own description; every other error is reported with its chain of
/// causes at error level.
pub fn log_for(err: &Error) -> (log: Vec<LogRecord>)
    ensures
        log_view(log@) == error_log(err@),
{
    let mut log: Vec<LogRecord> = Vec::new();
    match err {
        Error::Io(cause) => {
            let text = if cause.chain.len() > 0 {
                cause.chain[0].clone()
            } else {
                String::new()
            };
            log.push(LogRecord { level: Level::Debug, text });
        },
        _ => {
            let lines = log_error_chain(err);
            let n = lines.len();
            let mut i: usize = 0;
            while i < n
                invariant
                    n == lines.len(),
                    i <= n,
                    lines.deep_view() == err@.report(),
                    log.len() == i,
                    forall|j: int|
                        0 <= j < i ==> #[trigger] log@[j]@ == (Level::Error, err@.report()[j]),
                decreases n - i,
            {
                log.push(LogRecord { level: Level::Error, text: lines[i].clone() });
                i += 1;
            }
        },
    }
    log
}

/// Ends the handling of an error, given how making its error response went.
///
/// The error is logged. Where the error response was made, it is the response. Where
/// making it failed, a plain text that names the failure is sent with status 200, and
/// logged at error level: a request is never left without a response.
pub fn settle_error(err: &Error, made: Result<Response, Error>) -> (o: Outcome)
    ensures
        o@ == error_outcome(err@, result_view(made)),
{
    let mut log = log_for(err);
    match made {
        Ok(response) => Outcome { response, log },
        Err(failure) => {
            let mut text = String::from_str("unexpected internal error: ");
            let message = failure.message();
            text.append(message.as_str());
            log.push(LogRecord { level: Level::Error, text: text.clone() });
            let response = Response { status: OK, headers: Vec::new(), body: Body::Text(text) };
            assert(response@.headers =~= Seq::empty());
            let o = Outcome { response, log };
            assert(o@.log =~= error_log(err@).push(
                (Level::Error, last_resort_text(failure@)),
            ));
            o
        },
    }
}

/// Turns a result into the one response that is sent, and says what to log.
///
/// A response passes. An I/O error becomes the page for `404` and is logged at debug
/// level; every other error becomes the page for `500` and is logged with its chain of
/// causes at error level. Where the page itself does not render, a plain text is sent
/// and logged instead.
pub fn transform_error(resp: Result<Response, Error>) -> (o: Outcome)
    ensures
        o@ == outcome_for(result_view(resp)),
{
    match resp {
        Ok(response) => {
            let o = Outcome { response, log: Vec::new() };
            assert(o@.log =~= Seq::empty());
            o
        },
        Err(err) => {
            let made = make_error_response_from_code(status_for(&err));
            settle_error(&err, made)
        },
    }
}

/// Answers a request: the one response it gets, and what to log about it.
///
/// `probe` says whether the local path of the request is a directory and how opening
/// the file to serve went. No error leaves this function: each ends in a response.
pub fn serve(config: &Config, req: &Request, probe: Probe) -> (o: Outcome)
    ensures
        is_outcome_of(o@, config@, req@, probe@),
{
    let resp = serve_or_error(config, req, probe);
    transform_error(resp)
}

} // verus!
