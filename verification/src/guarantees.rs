//! What holds of the handler for every request, proved from its definitions.

use vstd::prelude::*;
use vstd::string::*;
use vstd::utf8::*;
use crate::error::{ErrorView, Level};
use crate::handler::{
    allow_get, dir_redirect, file_response, file_served, final_response, is_outcome_of,
    is_supported, last_resort_response, redirect_location, redirect_response, served,
    served_or_error, OutcomeView,
};
use crate::mime::mime_for_path;
use crate::page::{error_page, error_page_failure, injected_script};
use crate::path::{
    decoded_path, file_name, is_html_path, joined, local_path, local_path_or_index,
    relative_path,
};
use crate::request::{ConfigView, ProbeView, RequestView};
use crate::response::{html_response, lemma_header_found, BodyView, ResponseView};
use crate::text::{decimal, lemma_last_index_is};

verus! {

/// The path ends in `/`.
pub open spec fn ends_in_slash(p: Seq<char>) -> bool {
    p.len() > 0 && p.last() == '/'
}

/// The `index.html` of any directory is an HTML file.
pub proof fn lemma_index_is_html(dir: Seq<char>)
    ensures
        file_name(joined(dir, "index.html"@)) == "index.html"@,
        is_html_path(joined(dir, "index.html"@)),
{
    reveal_strlit("index.html");
    let idx = "index.html"@;
    let q = joined(dir, idx);
    let start = q.len() - idx.len();
    assert(q.take(q.len() as int) =~= q);
    lemma_last_index_is(q, '/', start - 1);
    lemma_last_index_is(idx, '.', 5);
}

/// Serving a file hands on what the redirect step returns: its error, or its redirect,
/// for which no file is looked at. Where the step leaves the request alone, the result
/// is the response for the file that the path leads to, or the error of resolving it.
pub proof fn lemma_serve_file_follows_the_redirect_step(
    cfg: ConfigView,
    req: RequestView,
    probe: ProbeView,
)
    ensures
        match dir_redirect(req, cfg.root_dir, probe.is_dir) {
            Err(e) => file_served(req, cfg, probe) == Err::<ResponseView, ErrorView>(e),
            Ok(Some(redirect)) => {
                &&& file_served(req, cfg, probe) == Ok::<ResponseView, ErrorView>(redirect)
                &&& forall|opened: Result<u64, Seq<Seq<char>>>| #[trigger]
                    file_served(req, cfg, ProbeView { is_dir: probe.is_dir, opened }) == Ok::<
                        ResponseView,
                        ErrorView,
                    >(redirect)
            },
            Ok(None) => match local_path_or_index(req.path, cfg.root_dir, probe.is_dir) {
                Err(e) => file_served(req, cfg, probe) == Err::<ResponseView, ErrorView>(e),
                Ok(path) => file_served(req, cfg, probe) == file_response(
                    path,
                    cfg.ws_port,
                    probe.opened,
                ),
            },
        },
{
}

/// A request for a directory, with the trailing `/`, is answered with the directory's
/// `index.html`: status 200, the reload script after the file, and no redirect.
pub proof fn lemma_directory_serves_its_index(
    cfg: ConfigView,
    req: RequestView,
    probe: ProbeView,
)
    requires
        is_supported(req),
        relative_path(req.path) is Ok,
        ends_in_slash(req.path),
        probe.is_dir,
        probe.opened is Ok,
    ensures
        ({
            let dir = local_path(req.path, cfg.root_dir)->Ok_0;
            let index = joined(dir, "index.html"@);
            let script = injected_script(cfg.ws_port);
            let len = probe.opened->Ok_0;
            served(cfg, req, probe) == (ResponseView {
                status: 200,
                headers: seq![
                    ("content-length"@, decimal(len as nat + encode_utf8(script).len())),
                    ("content-type"@, mime_for_path(index)),
                ],
                body: BodyView::File { path: index, file_len: len as nat, trailer: script },
            })
        }),
{
    let dir = local_path(req.path, cfg.root_dir)->Ok_0;
    lemma_index_is_html(dir);
}

/// A request for a directory, without the trailing `/`, is answered with a redirect to
/// the same path with the `/`, and the query if there was one. The response has no body.
pub proof fn lemma_directory_without_slash_is_redirected(
    cfg: ConfigView,
    req: RequestView,
    probe: ProbeView,
)
    requires
        is_supported(req),
        relative_path(req.path) is Ok,
        !ends_in_slash(req.path),
        probe.is_dir,
    ensures
        served(cfg, req, probe) == redirect_response(req),
        served(cfg, req, probe).status == 302,
        served(cfg, req, probe).body == BodyView::Empty,
        served(cfg, req, probe).header("location"@) == Some(redirect_location(req)),
        req.query is None ==> redirect_location(req) == req.path + "/"@,
        req.query matches Some(q) ==> redirect_location(req) == req.path + "/"@ + "?"@ + q,
{
    lemma_header_found(redirect_response(req), "location"@, 0);
    if let Some(q) = req.query {
    }
}

/// Every method but `GET` is refused in the same way, whatever the path, the
/// configuration and the disk: where the error page renders, with status 405 and the
/// header `allow: GET`; where it does not, the failure to render is answered as any
/// other error is.
pub proof fn lemma_other_methods_are_refused(
    cfg: ConfigView,
    req: RequestView,
    probe: ProbeView,
    cfg2: ConfigView,
    req2: RequestView,
    probe2: ProbeView,
)
    requires
        !is_supported(req),
        !is_supported(req2),
    ensures
        served_or_error(cfg, req, probe) == served_or_error(cfg2, req2, probe2),
        served(cfg, req, probe) == served(cfg2, req2, probe2),
        error_page(405) matches Some(page) ==> {
            &&& served(cfg, req, probe) == html_response(page, 405, allow_get())
            &&& served(cfg, req, probe).status == 405
            &&& served(cfg, req, probe).header("allow"@) == Some("GET"@)
        },
        error_page(405) is None ==> served(cfg, req, probe) == final_response(
            Err(error_page_failure(405)),
        ),
{
    if let Some(page) = error_page(405) {
        lemma_header_found(html_response(page, 405, allow_get()), "allow"@, 0);
    }
}

/// A `GET` whose decoded path is not UTF-8 fails with `UriNotUtf8`, whatever is on disk;
/// that is answered with the page for 500 where the page renders and with the last
/// resort where it does not, and the error is logged at error level.
pub proof fn lemma_path_that_is_not_utf8_is_a_500(
    cfg: ConfigView,
    req: RequestView,
    probe: ProbeView,
)
    requires
        is_supported(req),
        decoded_path(req.path) is None,
    ensures
        served_or_error(cfg, req, probe) == Err::<ResponseView, ErrorView>(ErrorView::UriNotUtf8),
        error_page(500) matches Some(page) ==> served(cfg, req, probe) == html_response(
            page,
            500,
            Seq::empty(),
        ) && served(cfg, req, probe).status == 500,
        error_page(500) is None ==> served(cfg, req, probe) == last_resort_response(
            error_page_failure(500),
        ),
        forall|o: OutcomeView| #[trigger]
            is_outcome_of(o, cfg, req, probe) ==> o.log.len() >= 1 && o.log[0] == (
                Level::Error,
                "error: "@ + "requested URI is not UTF-8"@,
            ),
{
}

/// A `GET` for a path that is not on disk, so that it is no directory and cannot be
/// opened, fails with the I/O error of the attempt to open it; that is answered with
/// the page for 404 where the page renders, and with the last resort where it does not.
pub proof fn lemma_missing_file_is_a_404(cfg: ConfigView, req: RequestView, probe: ProbeView)
    requires
        is_supported(req),
        relative_path(req.path) is Ok,
        !probe.is_dir,
        probe.opened is Err,
    ensures
        served_or_error(cfg, req, probe) == Err::<ResponseView, ErrorView>(
            ErrorView::Io(probe.opened->Err_0),
        ),
        error_page(404) matches Some(page) ==> served(cfg, req, probe) == html_response(
            page,
            404,
            Seq::empty(),
        ) && served(cfg, req, probe).status == 404,
        error_page(404) is None ==> served(cfg, req, probe) == last_resort_response(
            error_page_failure(404),
        ),
{
}

/// The content length of a file response is the length of the file, plus the length in
/// bytes of the reload script for an HTML file and plus nothing for any other file. It
/// is the number of bytes that the body puts on the wire.
pub proof fn lemma_content_length_is_exact(path: Seq<char>, ws_port: u16, len: u64)
    ensures
        ({
            let r = file_response(path, ws_port, Ok(len))->Ok_0;
            &&& file_response(path, ws_port, Ok(len)) is Ok
            &&& r.header("content-length"@) == Some(decimal(r.body.byte_len()))
            &&& is_html_path(path) ==> r.body.byte_len() == len + encode_utf8(
                injected_script(ws_port),
            ).len()
            &&& !is_html_path(path) ==> r.body.byte_len() == len
        }),
{
    let r = file_response(path, ws_port, Ok(len))->Ok_0;
    lemma_header_found(r, "content-length"@, 0);
}

/// The content length of a page is its length in bytes.
pub proof fn lemma_page_length_is_exact(
    page: Seq<char>,
    status: u16,
    headers: Seq<(Seq<char>, Seq<char>)>,
)
    requires
        forall|j: int| 0 <= j < headers.len() ==> headers[j].0 != "content-length"@,
    ensures
        html_response(page, status, headers).header("content-length"@) == Some(
            decimal(html_response(page, status, headers).body.byte_len()),
        ),
{
    lemma_header_found(
        html_response(page, status, headers),
        "content-length"@,
        headers.len() as int,
    );
}

/// The same request, with the same configuration and the same things on disk, has the
/// same outcome: the same response, and the same log.
pub proof fn lemma_same_request_same_response(
    first: OutcomeView,
    second: OutcomeView,
    cfg: ConfigView,
    req: RequestView,
    probe: ProbeView,
)
    requires
        is_outcome_of(first, cfg, req, probe),
        is_outcome_of(second, cfg, req, probe),
    ensures
        first == second,
        first.response == served(cfg, req, probe),
{
}

} // verus!
