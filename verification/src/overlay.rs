//! The injected navigation overlay, as an explicit state machine.
//!
//! In the running shell this logic lives in a script injected into every
//! page. Here the page-side state the script touches — the topbar
//! element, the `dark` marker on the body, the stored preference, the
//! search field and the current address — is an explicit value, and each
//! handler is a function on it.

use vstd::prelude::*;
use vstd::string::StrSliceExecFns;
use crate::text::{str_chars, contains_run, push_all, contains_seq};

verus! {

/// The local-storage slot for the theme: absent, or holding the light
/// or the dark flag.
#[derive(Clone, Copy, Debug, PartialEq, Eq, Structural)]
pub enum StoredTheme {
    Absent,
    Light,
    Dark,
}

/// Mathematical model of the page state the overlay owns.
pub struct PageModel {
    /// How many topbar elements stand in the document.
    pub topbars: nat,
    /// Whether the document body carries the dark marker.
    pub body_dark: bool,
    /// The stored theme preference of the page's origin.
    pub stored: StoredTheme,
    /// The address of the active view.
    pub location: Seq<char>,
    /// The text shown in the search field.
    pub search_field: Seq<char>,
}

/// The page state the overlay owns, as the shell holds it.
pub struct PageState {
    pub topbars: u32,
    pub body_dark: bool,
    pub stored: StoredTheme,
    pub location: Vec<char>,
    pub search_field: Vec<char>,
}

impl View for PageState {
    type V = PageModel;

    open spec fn view(&self) -> PageModel {
        PageModel {
            topbars: self.topbars as nat,
            body_dark: self.body_dark,
            stored: self.stored,
            location: self.location@,
            search_field: self.search_field@,
        }
    }
}

/// The marker by which the overlay recognises the custom home scheme in
/// an address.
pub open spec fn home_scheme_marker() -> Seq<char> {
    "minimal://"@
}

/// The fixed text the search field shows in place of a home-scheme
/// address.
pub open spec fn home_placeholder() -> Seq<char> {
    "monivo:about"@
}

/// What the search field displays for a given address: the fixed
/// placeholder on the home scheme, the address itself everywhere else.
pub open spec fn display_of(loc: Seq<char>) -> Seq<char> {
    if contains_seq(loc, home_scheme_marker()) {
        home_placeholder()
    } else {
        loc
    }
}

/// A freshly loaded document, before the overlay has run: no topbar, no
/// dark marker, an empty search field, the origin's stored preference.
pub open spec fn fresh_page(loc: Seq<char>, stored: StoredTheme) -> PageModel {
    PageModel {
        topbars: 0,
        body_dark: false,
        stored: stored,
        location: loc,
        search_field: Seq::empty(),
    }
}

/// One run of the injector: when no topbar stands yet, insert exactly
/// one, restore the dark marker from the stored preference, and point
/// the search field at the active address; when one already stands,
/// leave the document as it is.
pub open spec fn inject_spec(m: PageModel) -> PageModel {
    if m.topbars >= 1 {
        m
    } else {
        PageModel {
            topbars: 1,
            body_dark: m.body_dark || m.stored is Dark,
            stored: m.stored,
            location: m.location,
            search_field: display_of(m.location),
        }
    }
}

/// One press of the theme button: the dark marker flips, and the flag
/// that now holds is written to storage.
pub open spec fn toggle_spec(m: PageModel) -> PageModel {
    PageModel {
        topbars: m.topbars,
        body_dark: !m.body_dark,
        stored: if !m.body_dark {
            StoredTheme::Dark
        } else {
            StoredTheme::Light
        },
        location: m.location,
        search_field: m.search_field,
    }
}

/// One run of the load / history handler: the search field is rewritten
/// to reflect the active address.
pub open spec fn refresh_spec(m: PageModel) -> PageModel {
    PageModel {
        topbars: m.topbars,
        body_dark: m.body_dark,
        stored: m.stored,
        location: m.location,
        search_field: display_of(m.location),
    }
}

/// Builds the state of a document the overlay has not yet touched.
pub fn load_page(location: &str, stored: StoredTheme) -> (p: PageState)
    ensures
        p@ == fresh_page(location@, stored),
{
    let p = PageState {
        topbars: 0,
        body_dark: false,
        stored: stored,
        location: str_chars(location),
        search_field: Vec::new(),
    };
    p
}

/// What the search field displays for an address.
pub fn display_for_location(loc: &Vec<char>) -> (r: Vec<char>)
    ensures
        r@ == display_of(loc@),
{
    let marker = str_chars("minimal://");
    if contains_run(loc, &marker) {
        str_chars("monivo:about")
    } else {
        let mut r: Vec<char> = Vec::new();
        push_all(&mut r, loc);
        assert(r@ =~= loc@);
        r
    }
}

/// Rewrites the search field to reflect the active address; runs on
/// load and on history navigation.
pub fn update_search_field(p: &mut PageState)
    ensures
        final(p)@ == refresh_spec(old(p)@),
{
    let shown = display_for_location(&p.location);
    p.search_field = shown;
}

/// The injector. Guarded: a second run on the same document changes
/// nothing.
pub fn inject_topbar(p: &mut PageState)
    ensures
        final(p)@ == inject_spec(old(p)@),
{
    if p.topbars >= 1 {
        return ;
    }
    p.topbars = 1;
    let restore_dark = match p.stored {
        StoredTheme::Dark => true,
        _ => false,
    };
    if restore_dark {
        p.body_dark = true;
    }
    update_search_field(p);
}

/// The theme button's handler.
pub fn toggle_theme(p: &mut PageState)
    ensures
        final(p)@ == toggle_spec(old(p)@),
{
    p.body_dark = !p.body_dark;
    p.stored = if p.body_dark {
        StoredTheme::Dark
    } else {
        StoredTheme::Light
    };
}

/// The theme button's caption: it names the mode a press would switch
/// to.
pub fn theme_button_label(p: &PageState) -> (r: &'static str)
    ensures
        p@.body_dark ==> r@ == "Light"@,
        !p@.body_dark ==> r@ == "Dark"@,
{
    if p.body_dark {
        "Light"
    } else {
        "Dark"
    }
}

/// The flag written to storage for a given dark state: `"1"` for dark,
/// `"0"` for light.
pub fn storage_flag(dark: bool) -> (r: &'static str)
    ensures
        dark ==> r@ == "1"@,
        !dark ==> r@ == "0"@,
{
    if dark {
        "1"
    } else {
        "0"
    }
}

/// The preference a stored value means: an absent slot is absent, the
/// dark flag is dark, anything else is light.
pub open spec fn theme_of_stored(v: Option<Seq<char>>) -> StoredTheme {
    match v {
        Option::None => StoredTheme::Absent,
        Option::Some(s) => if s == "1"@ {
            StoredTheme::Dark
        } else {
            StoredTheme::Light
        },
    }
}

/// Reads the stored theme flag back into a preference.
pub fn parse_stored(v: Option<&str>) -> (st: StoredTheme)
    ensures
        match v {
            Option::None => st == theme_of_stored(None::<Seq<char>>),
            Option::Some(s) => st == theme_of_stored(Some(s@)),
        },
{
    match v {
        Option::None => StoredTheme::Absent,
        Option::Some(s) => {
            proof {
                reveal_strlit("1");
            }
            let n = s.unicode_len();
            if n == 1 && s.get_char(0) == '1' {
                assert(s@ =~= "1"@);
                StoredTheme::Dark
            } else {
                assert(s@ != "1"@);
                StoredTheme::Light
            }
        },
    }
}

/// After the injector runs, exactly one topbar stands in a document
/// that had none, and a repeated run — a reconstructed homepage, a
/// second navigation event — changes nothing further.
pub proof fn lemma_inject_once(m: PageModel)
    ensures
        m.topbars == 0 ==> inject_spec(m).topbars == 1,
        inject_spec(inject_spec(m)) == inject_spec(m),
{
}

/// Pressing the theme button twice returns the body to its original
/// class state, touches neither the topbar, the address nor the search
/// field, and leaves in storage the flag of the state the body is back
/// in — so where storage already matched the body, it too is restored.
pub proof fn lemma_toggle_twice(m: PageModel)
    ensures
        toggle_spec(toggle_spec(m)).body_dark == m.body_dark,
        toggle_spec(toggle_spec(m)).topbars == m.topbars,
        toggle_spec(toggle_spec(m)).location == m.location,
        toggle_spec(toggle_spec(m)).search_field == m.search_field,
        toggle_spec(toggle_spec(m)).stored == (if m.body_dark {
            StoredTheme::Dark
        } else {
            StoredTheme::Light
        }),
        m.stored == (if m.body_dark {
            StoredTheme::Dark
        } else {
            StoredTheme::Light
        }) ==> toggle_spec(toggle_spec(m)) == m,
{
}

/// On the home scheme the search field shows the fixed placeholder, not
/// the scheme address; elsewhere it shows the address itself.
pub proof fn lemma_home_address_hidden(loc: Seq<char>)
    ensures
        contains_seq(loc, home_scheme_marker()) ==> display_of(loc) == home_placeholder(),
        !contains_seq(loc, home_scheme_marker()) ==> display_of(loc) == loc,
{
}

} // verus!
