//! The texts that the server writes itself: the title of a status, the error page, and
//! the script that is sent after an HTML file.

use vstd::prelude::*;
use vstd::string::*;
use crate::error::{Cause, Error, ErrorView};
use crate::text::{decimal, to_decimal};

verus! {

/// The template of the error page: a title, shown twice, and a body.
pub const HTML_TEMPLATE: &'static str =
    "<!DOCTYPE html>\n<html>\n<head>\n<meta charset=\"utf-8\">\n<title>{{title}}</title>\n</head>\n<body>\n<h1>{{title}}</h1>\n{{{body}}}\n</body>\n</html>\n";

/// What the injected script holds before the port of the reload channel.
pub const SCRIPT_HEAD: &'static str =
    "<script>\n(function () {\n  var socket = new WebSocket(\"ws://\" + location.hostname + \":";

/// What the injected script holds after the port of the reload channel.
pub const SCRIPT_TAIL: &'static str =
    "\");\n  socket.onclose = function () {\n    setTimeout(function () { location.reload(); }, 1000);\n  };\n}());\n</script>\n";

/// The reason phrase that the `http` crate lists for a status code; `None` for a number
/// that is no status code (under 100 or over 999) or has no phrase there.
pub uninterp spec fn canonical_reason(code: u16) -> Option<Seq<char>>;

/// What the `handlebars` crate, with its default helpers and HTML escaping, renders
/// from a template and the data `title` and `body`; `None` when it fails.
pub uninterp spec fn rendered_template(
    template: Seq<char>,
    title: Seq<char>,
    body: Seq<char>,
) -> Option<Seq<char>>;

/// How the `handlebars` crate puts a failure to render into words: at depth 0 its own
/// error, at every further depth the error that the one before wraps. `None` where
/// rendering succeeds, and where the chain of wrapped errors ends before the depth.
pub uninterp spec fn render_failure(
    template: Seq<char>,
    title: Seq<char>,
    body: Seq<char>,
    depth: nat,
) -> Option<Seq<char>>;

/// The descriptions of a failure to render from depth `from` on, outermost first, as
/// far as the chain of wrapped errors goes.
pub open spec fn failure_chain(
    template: Seq<char>,
    title: Seq<char>,
    body: Seq<char>,
    from: nat,
) -> Seq<Seq<char>>
    decreases usize::MAX - from,
{
    if from >= usize::MAX {
        Seq::empty()
    } else {
        match render_failure(template, title, body, from) {
            Some(text) => seq![text] + failure_chain(template, title, body, from + 1),
            None => Seq::empty(),
        }
    }
}

/// The title that a status number and its reason phrase make: the number in decimal, a
/// space, and the phrase, or `<unknown status code>` where there is none.
pub open spec fn title_of(code: u16, reason: Option<Seq<char>>) -> Seq<char> {
    decimal(code as nat) + " "@ + match reason {
        Some(phrase) => phrase,
        None => "<unknown status code>"@,
    }
}

/// The title of a status: the one that its number and its reason phrase make.
pub open spec fn status_title(code: u16) -> Seq<char> {
    title_of(code, canonical_reason(code))
}

/// The error page for a status, if rendering it succeeds: the template with the title
/// of the status and an empty body.
pub open spec fn error_page(code: u16) -> Option<Seq<char>> {
    rendered_template(HTML_TEMPLATE@, status_title(code), Seq::empty())
}

/// The error that a failure to render the error page for a status ends in.
pub open spec fn error_page_failure(code: u16) -> ErrorView {
    ErrorView::TemplateRender(failure_chain(HTML_TEMPLATE@, status_title(code), Seq::empty(), 0))
}

/// The script sent after an HTML file: it opens the reload channel on `ws_port`.
pub open spec fn injected_script(ws_port: u16) -> Seq<char> {
    SCRIPT_HEAD@ + decimal(ws_port as nat) + SCRIPT_TAIL@
}

/// Calls `http::StatusCode::from_u16` and `StatusCode::canonical_reason`: the phrase
/// that the crate's table holds for the code, if the number is a status code and the
/// table has one for it. The phrases of the three statuses that error pages are made
/// for are as the table spells them.
#[verifier::external_body]
fn reason_phrase(code: u16) -> (r: Option<&'static str>)
    ensures
        match r {
            Some(reason) => canonical_reason(code) == Some(reason@),
            None => canonical_reason(code) is None,
        },
        code == 404 ==> r is Some && r->0@ == "Not Found"@,
        code == 405 ==> r is Some && r->0@ == "Method Not Allowed"@,
        code == 500 ==> r is Some && r->0@ == "Internal Server Error"@,
{
    match http::StatusCode::from_u16(code) {
        Ok(status) => status.canonical_reason(),
        Err(_) => None,
    }
}

/// Calls `Handlebars::new` and `Handlebars::render_template` with the data `title` and
/// `body`, and on the error of a failure `std::error::Error::source`, `depth` times, and
/// the `Display` of the error reached. It gives the rendered text, or for a failure the
/// description at that depth; the outermost one, at depth 0, is always there. The engine
/// is handed the error page's template and no other: on a template that includes
/// itself it would not return.
#[verifier::external_body]
fn render_template(template: &str, title: &str, body: &str, depth: usize) -> (r: Result<
    String,
    Option<String>,
>)
    requires
        template@ == HTML_TEMPLATE@,
    ensures
        match r {
            Ok(page) => rendered_template(template@, title@, body@) == Some(page@),
            Err(cause) => {
                &&& rendered_template(template@, title@, body@) is None
                &&& render_failure(template@, title@, body@, depth as nat) == match cause {
                    Some(text) => Some(text@),
                    None => None,
                }
                &&& depth == 0 ==> cause is Some
            },
        },
{
    let mut data = std::collections::BTreeMap::new();
    data.insert("title", title);
    data.insert("body", body);
    match handlebars::Handlebars::new().render_template(template, &data) {
        Ok(page) => Ok(page),
        Err(e) => {
            let outermost: &(dyn std::error::Error + 'static) = &e;
            Err(std::iter::successors(Some(outermost), |cause| cause.source())
                .nth(depth)
                .map(|cause| cause.to_string()))
        },
    }
}

/// Makes the title of a status from its number and its reason phrase.
pub fn title_from(code: u16, reason: Option<&str>) -> (r: String)
    ensures
        r@ == title_of(
            code,
            match reason {
                Some(phrase) => Some(phrase@),
                None => None,
            },
        ),
{
    let mut r = to_decimal(code as u128);
    r.append(" ");
    match reason {
        Some(phrase) => r.append(phrase),
        None => r.append("<unknown status code>"),
    }
    r
}

/// The title of a status, as it heads the error page.
pub fn status_title_of(code: u16) -> (r: String)
    ensures
        r@ == status_title(code),
        code == 404 ==> r@ == "404 Not Found"@,
        code == 405 ==> r@ == "405 Method Not Allowed"@,
        code == 500 ==> r@ == "500 Internal Server Error"@,
{
    proof {
        reveal_with_fuel(decimal, 3);
        reveal_strlit(" ");
        reveal_strlit("Not Found");
        reveal_strlit("Method Not Allowed");
        reveal_strlit("Internal Server Error");
        reveal_strlit("404 Not Found");
        reveal_strlit("405 Method Not Allowed");
        reveal_strlit("500 Internal Server Error");
    }
    title_from(code, reason_phrase(code))
}

/// What the error page is rendered from.
#[derive(Clone, Debug, PartialEq, Eq)]
pub struct HtmlCfg {
    pub title: String,
    pub body: String,
}

/// Renders the error page's template with the given title and body.
///
/// Fails with `TemplateRender` exactly when the template engine fails. The error then
/// wraps the engine's own description and that of every error behind it, outermost
/// first; the engine is asked again for each of them, and fails in the same way each
/// time, since what it does depends on the template and the data alone.
pub fn render_html(cfg: HtmlCfg) -> (r: Result<String, Error>)
    ensures
        match r {
            Ok(page) => rendered_template(HTML_TEMPLATE@, cfg.title@, cfg.body@) == Some(page@),
            Err(e) => rendered_template(HTML_TEMPLATE@, cfg.title@, cfg.body@) is None && e@
                == ErrorView::TemplateRender(
                failure_chain(HTML_TEMPLATE@, cfg.title@, cfg.body@, 0),
            ),
        },
{
    let title = cfg.title.as_str();
    let body = cfg.body.as_str();
    let mut cause = match render_template(HTML_TEMPLATE, title, body, 0) {
        Ok(page) => {
            return Ok(page);
        },
        Err(cause) => cause,
    };
    let mut chain: Vec<String> = Vec::new();
    let mut depth: usize = 0;
    while cause.is_some() && depth < usize::MAX
        invariant
            title@ == cfg.title@,
            body@ == cfg.body@,
            rendered_template(HTML_TEMPLATE@, title@, body@) is None,
            render_failure(HTML_TEMPLATE@, title@, body@, depth as nat) == match cause {
                Some(text) => Some(text@),
                None => None,
            },
            chain.deep_view() + failure_chain(HTML_TEMPLATE@, title@, body@, depth as nat)
                == failure_chain(HTML_TEMPLATE@, title@, body@, 0),
        decreases usize::MAX - depth,
    {
        chain.push(cause.unwrap());
        depth += 1;
        cause = match render_template(HTML_TEMPLATE, title, body, depth) {
            Ok(_) => None,
            Err(cause) => cause,
        };
    }
    Err(Error::TemplateRender(Cause { chain }))
}

/// Renders the error page for a status: its title is the status, its body is empty.
///
/// Fails as `render_html` does. The three statuses that error pages are made for have
/// the titles `404 Not Found`, `405 Method Not Allowed` and `500 Internal Server Error`.
pub fn render_error_html(status: u16) -> (r: Result<String, Error>)
    ensures
        match r {
            Ok(page) => error_page(status) == Some(page@),
            Err(e) => error_page(status) is None && e@ == error_page_failure(status),
        },
        status == 404 ==> status_title(status) == "404 Not Found"@,
        status == 405 ==> status_title(status) == "405 Method Not Allowed"@,
        status == 500 ==> status_title(status) == "500 Internal Server Error"@,
{
    render_html(HtmlCfg { title: status_title_of(status), body: String::new() })
}

/// The script that is sent after an HTML file, for the reload channel on `ws_port`.
pub fn injected_script_for(ws_port: u16) -> (r: String)
    ensures
        r@ == injected_script(ws_port),
{
    let mut r = String::from_str(SCRIPT_HEAD);
    let port = to_decimal(ws_port as u128);
    r.append(port.as_str());
    r.append(SCRIPT_TAIL);
    r
}

} // verus!
