//! The bundled homepage.
//!
//! One immutable HTML document, fixed at build time. It is both the
//! initial content of the renderer and the body of every answer on the
//! custom home scheme; the two uses share this one definition, so the
//! bytes agree by construction.

use vstd::prelude::*;

verus! {

/// The homepage document.
pub const HOMEPAGE_HTML: &'static str = "<!DOCTYPE html>\n<html lang=\"en\">\n<head>\n<meta charset=\"utf-8\">\n<title>Minimal</title>\n<style>\nbody { background-color: #ffffff; color: #000000; font-family: -apple-system, 'Segoe UI', Roboto, Arial, sans-serif; font-weight: 300; display: flex; align-items: center; justify-content: center; min-height: 80vh; margin: 0; }\nbody.dark { background-color: #000000; color: #ffffff; }\n.home-card { text-align: center; }\n.home-card h1 { font-size: 48px; letter-spacing: 8px; text-transform: uppercase; font-weight: 300; margin-bottom: 8px; }\n.home-card p { color: #999999; font-size: 14px; letter-spacing: 2px; }\n</style>\n</head>\n<body>\n<div class=\"home-card\">\n<h1>Minimal</h1>\n<p>Type above to search or enter an address.</p>\n</div>\n</body>\n</html>\n";

/// The homepage's text, as the contracts speak of it.
pub open spec fn homepage_text() -> Seq<char> {
    HOMEPAGE_HTML@
}

/// Hands out the homepage document.
pub fn homepage_html() -> (r: &'static str)
    ensures
        r@ == homepage_text(),
{
    HOMEPAGE_HTML
}

} // verus!
