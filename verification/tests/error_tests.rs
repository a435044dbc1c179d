use basic_http_server::error::{log_error_chain, Cause, Error};

fn cause(parts: &[&str]) -> Cause {
    Cause { chain: parts.iter().map(|p| p.to_string()).collect() }
}

#[test]
fn each_error_has_its_description() {
    assert_eq!(Error::Http(cause(&["x"])).message(), "HTTP error");
    assert_eq!(Error::Hyper(cause(&["x"])).message(), "Hyper error");
    assert_eq!(Error::Io(cause(&["x"])).message(), "I/O error");
    assert_eq!(Error::AddrParse(cause(&["x"])).message(), "failed to parse IP address");
    assert_eq!(Error::TemplateRender(cause(&["x"])).message(), "failed to render template");
    assert_eq!(Error::UriNotAbsolute.message(), "requested URI is not an absolute path");
    assert_eq!(Error::UriNotUtf8.message(), "requested URI is not UTF-8");
}

#[test]
fn wrapping_errors_have_a_source_and_the_others_none() {
    let c = cause(&["file not found"]);
    assert_eq!(Error::Io(c.clone()).source(), Some(&c));
    assert_eq!(Error::Http(c.clone()).source(), Some(&c));
    assert_eq!(Error::Hyper(c.clone()).source(), Some(&c));
    assert_eq!(Error::AddrParse(c.clone()).source(), Some(&c));
    assert_eq!(Error::TemplateRender(c.clone()).source(), Some(&c));
    assert_eq!(Error::UriNotAbsolute.source(), None);
    assert_eq!(Error::UriNotUtf8.source(), None);
}

#[test]
fn cause_new_holds_one_description() {
    assert_eq!(Cause::new("a".to_string()), cause(&["a"]));
}

#[test]
fn report_of_an_error_without_cause_is_one_line() {
    assert_eq!(
        log_error_chain(&Error::UriNotUtf8),
        vec!["error: requested URI is not UTF-8".to_string()]
    );
    assert_eq!(
        log_error_chain(&Error::UriNotAbsolute),
        vec!["error: requested URI is not an absolute path".to_string()]
    );
}

#[test]
fn report_lists_every_cause_in_order() {
    let e = Error::Io(cause(&["cannot open", "permission denied", "os error 13"]));
    assert_eq!(
        log_error_chain(&e),
        vec![
            "error: I/O error".to_string(),
            "caused by: cannot open".to_string(),
            "caused by: permission denied".to_string(),
            "caused by: os error 13".to_string(),
        ]
    );
}

#[test]
fn report_of_an_empty_chain_is_the_error_alone() {
    assert_eq!(log_error_chain(&Error::Hyper(cause(&[]))), vec!["error: Hyper error".to_string()]);
}
