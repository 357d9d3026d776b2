//! The custom home scheme.
//!
//! Every request addressed to the `minimal` scheme is answered with the
//! homepage, as HTML. The handler is total: it reads nothing of the
//! request, so there is no routing and no failure path.

use vstd::prelude::*;
use vstd::string::StringExecFns;
use crate::homepage::{homepage_html, homepage_text};

verus! {

/// An answer on the custom scheme, ready for the renderer.
pub struct HomeResponse {
    pub status: u16,
    pub content_type: String,
    pub body: String,
}

/// Answers a request on the custom scheme. Whatever address, path or
/// query the request carries, the answer is the homepage, byte for
/// byte, under `text/html`.
pub fn handle_scheme_request(uri: &str) -> (r: HomeResponse)
    ensures
        r.status == 200,
        r.content_type@ == "text/html"@,
        r.body@ == homepage_text(),
{
    let _ = uri;
    HomeResponse {
        status: 200,
        content_type: String::from_str("text/html"),
        body: String::from_str(homepage_html()),
    }
}

} // verus!
