//! Assembly of the per-navigation initialization script.
//!
//! The overlay travels to every page as one script: a fixed text with
//! the homepage spliced in as a script literal. The splice point is the
//! only variable part, so the script is specified as prefix, literal,
//! suffix.

use vstd::prelude::*;
use vstd::string::StringExecFns;
use crate::text::concat3;

verus! {

/// The JSON string literal that a character sequence encodes to.
pub uninterp spec fn json_string_of(s: Seq<char>) -> Seq<char>;

/// Encodes a string as a JSON string literal.
///
/// Relies on `serde_json::to_string` for `&str`: it writes an opening
/// quote, the escaped characters, and a closing quote, a function of
/// the characters alone.
#[verifier::external_body]
fn json_encode_str(s: &str) -> (r: Option<String>)
    ensures
        r matches Some(j) ==> j@ == json_string_of(s@),
{
    match serde_json::to_string(s) {
        Ok(j) => Some(j),
        Err(_) => None,
    }
}

/// The empty script literal used when encoding fails: a pair of single
/// quotes.
pub open spec fn empty_js_literal() -> Seq<char> {
    "''"@
}

/// The homepage as a script literal: its JSON encoding, or the empty
/// literal in the failure case of the encoder.
pub fn homepage_script_literal(h: &str) -> (r: String)
    ensures
        r@ == json_string_of(h@) || r@ == empty_js_literal(),
{
    match json_encode_str(h) {
        Some(j) => j,
        None => String::from_str("''"),
    }
}

/// Everything of the script before the homepage literal.
pub const SCRIPT_PREFIX: &'static str = "window.__MINIMAL_HOME = ";

/// Everything of the script after the homepage literal: the restore
/// function, the topbar injector, and the capture-phase shortcut
/// listener.
pub const SCRIPT_SUFFIX: &'static str = r#";
window.__MINIMAL_RESTORE = function() {
    try {
        location.href = 'minimal://home';
    } catch (e) {
        console.error('Failed to restore home:', e);
    }
};

function injectTopbar() {
    if (document.getElementById('__minimal-topbar-root')) {
        return;
    }

    var style = document.createElement('style');
    style.textContent = `
        .__minimal-topbar {
            position: fixed;
            top: 0;
            left: 0;
            right: 0;
            height: 60px;
            background-color: #ffffff;
            border-bottom: 1px solid #000000;
            display: flex;
            justify-content: space-between;
            align-items: center;
            padding: 0 20px;
            z-index: 999999;
            font-family: -apple-system, 'Segoe UI', Roboto, Arial, sans-serif;
            gap: 20px;
        }
        body.dark .__minimal-topbar {
            background-color: #000000;
            border-bottom-color: #ffffff;
        }
        .__minimal-topbar-left {
            font-size: 24px;
            font-weight: 300;
            letter-spacing: 2px;
            text-transform: uppercase;
            cursor: pointer;
            user-select: none;
            color: #000000;
            flex-shrink: 0;
        }
        body.dark .__minimal-topbar-left {
            color: #ffffff;
        }
        .__minimal-topbar-left:hover {
            opacity: 0.7;
        }
        .__minimal-topbar-search {
            flex: 1;
            max-width: 400px;
            padding: 8px 12px;
            border: 1px solid #000000;
            background-color: #ffffff;
            color: #000000;
            font-size: 14px;
            font-weight: 300;
        }
        body.dark .__minimal-topbar-search {
            background-color: #000000;
            border-color: #ffffff;
            color: #ffffff;
        }
        .__minimal-topbar-search::placeholder {
            color: #999999;
        }
        .__minimal-topbar-btn {
            padding: 8px 16px;
            border: 1px solid #000000;
            background-color: #ffffff;
            color: #000000;
            cursor: pointer;
            font-size: 14px;
            font-weight: 300;
        }
        body.dark .__minimal-topbar-btn {
            background-color: #000000;
            border-color: #ffffff;
            color: #ffffff;
        }
        body {
            padding-top: 60px !important;
            margin-top: 0 !important;
        }
    `;
    document.head.appendChild(style);

    var topbar = document.createElement('div');
    topbar.className = '__minimal-topbar';
    topbar.id = '__minimal-topbar-root';
    topbar.innerHTML = `
        <div class="__minimal-topbar-left" id="__minimal-home-btn">H</div>
        <input type="text" class="__minimal-topbar-search" id="__minimal-search-input" placeholder="Search or URL...">
        <div class="__minimal-topbar-right">
            <button class="__minimal-topbar-btn" id="__minimal-theme-btn">Dark</button>
        </div>
    `;
    document.body.insertBefore(topbar, document.body.firstChild);

    document.getElementById('__minimal-home-btn').addEventListener('click', function() {
        window.__MINIMAL_RESTORE();
    });

    var searchInput = document.getElementById('__minimal-search-input');
    searchInput.addEventListener('keypress', function(event) {
        if (event.key === 'Enter') {
            var query = searchInput.value.trim();
            if (query) {
                if (query.indexOf('.') !== -1 && query.indexOf(' ') === -1) {
                    let url = query;
                    if (!query.startsWith('http://') && !query.startsWith('https://')) {
                        url = 'https://' + query;
                    }
                    window.location.href = url;
                } else {
                    var searchUrl = 'https://duckduckgo.com/?q=' + encodeURIComponent(query);
                    window.location.href = searchUrl;
                }
            }
        }
    });

    var themeBtn = document.getElementById('__minimal-theme-btn');
    themeBtn.addEventListener('click', function() {
        document.body.classList.toggle('dark');
        themeBtn.textContent = document.body.classList.contains('dark') ? 'Light' : 'Dark';
        localStorage.setItem('__minimal-dark-mode', document.body.classList.contains('dark') ? '1' : '0');
    });

    if (localStorage.getItem('__minimal-dark-mode') === '1') {
        document.body.classList.add('dark');
        themeBtn.textContent = 'Light';
    }

    function updateSearchInputWithCurrentPage() {
        var searchInput = document.getElementById('__minimal-search-input');
        if (!searchInput) return;

        var location = window.location.href;
        if (location.indexOf('minimal://') !== -1) {
            searchInput.value = 'monivo:about';
        } else {
            searchInput.value = location;
        }
        searchInput.scrollLeft = 0;
    }

    updateSearchInputWithCurrentPage();

    window.addEventListener('load', updateSearchInputWithCurrentPage);

    window.addEventListener('popstate', updateSearchInputWithCurrentPage);
}

if (document.readyState === 'loading') {
    document.addEventListener('DOMContentLoaded', injectTopbar);
} else {
    injectTopbar();
}

document.addEventListener('keydown', function(e) {
    if ((e.ctrlKey || e.metaKey) && (e.key === 'h' || e.key === 'H')) {
        try { e.preventDefault(); window.__MINIMAL_RESTORE(); } catch (err) {}
    }
}, true);
"#;

/// The script's fixed head, as the contracts speak of it.
pub open spec fn script_prefix() -> Seq<char> {
    SCRIPT_PREFIX@
}

/// The script's fixed tail, as the contracts speak of it.
pub open spec fn script_suffix() -> Seq<char> {
    SCRIPT_SUFFIX@
}

/// Splices a homepage literal into the fixed script.
pub fn assemble_init_script(hj: &str) -> (r: String)
    ensures
        r@ == script_prefix() + hj@ + script_suffix(),
{
    concat3(SCRIPT_PREFIX, hj, SCRIPT_SUFFIX)
}

/// The per-navigation initialization script for a homepage: the fixed
/// script around the homepage's literal — or around the empty literal,
/// in the failure case of the encoder.
pub fn build_init_script(homepage: &str) -> (r: String)
    ensures
        r@ == script_prefix() + json_string_of(homepage@) + script_suffix() || r@
            == script_prefix() + empty_js_literal() + script_suffix(),
{
    let hj = homepage_script_literal(homepage);
    assemble_init_script(hj.as_str())
}

} // verus!
