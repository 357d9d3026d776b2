use minimal_browser::homepage::homepage_html;
use minimal_browser::protocol::handle_scheme_request;

#[test]
fn home_response_is_the_homepage_exactly() {
    let r = handle_scheme_request("minimal://home");
    assert_eq!(r.status, 200);
    assert_eq!(r.content_type, String::from("text/html"));
    assert_eq!(r.body.as_bytes(), homepage_html().as_bytes());
}

#[test]
fn request_contents_are_ignored() {
    let a = handle_scheme_request("minimal://home");
    let b = handle_scheme_request("minimal://anything/else?q=1");
    assert_eq!(a.body, b.body);
    assert_eq!(a.content_type, b.content_type);
}

#[test]
fn homepage_looks_like_a_document() {
    let h = homepage_html();
    assert!(h.starts_with("<!DOCTYPE html>"));
    assert!(h.contains("</html>"));
}
