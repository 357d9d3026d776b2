use minimal_browser::overlay::{
    load_page, inject_topbar, toggle_theme, update_search_field, theme_button_label,
    storage_flag, parse_stored, display_for_location, StoredTheme,
};
use minimal_browser::text::{str_chars, chars_to_string};

#[test]
fn injector_installs_exactly_one_topbar() {
    let mut p = load_page("https://example.org/", StoredTheme::Absent);
    inject_topbar(&mut p);
    assert_eq!(p.topbars, 1);
    inject_topbar(&mut p);
    assert_eq!(p.topbars, 1);
}

#[test]
fn repeated_injection_changes_nothing() {
    let mut p = load_page("https://example.org/", StoredTheme::Dark);
    inject_topbar(&mut p);
    let dark = p.body_dark;
    let field = p.search_field.clone();
    inject_topbar(&mut p);
    assert_eq!(p.topbars, 1);
    assert_eq!(p.body_dark, dark);
    assert_eq!(p.search_field, field);
}

#[test]
fn injector_restores_stored_dark_mode() {
    let mut p = load_page("https://example.org/", StoredTheme::Dark);
    inject_topbar(&mut p);
    assert!(p.body_dark);
    assert_eq!(theme_button_label(&p), "Light");

    let mut q = load_page("https://example.org/", StoredTheme::Light);
    inject_topbar(&mut q);
    assert!(!q.body_dark);
    assert_eq!(theme_button_label(&q), "Dark");
}

#[test]
fn toggling_twice_restores_body_and_storage() {
    let mut p = load_page("https://example.org/", StoredTheme::Light);
    inject_topbar(&mut p);
    assert!(!p.body_dark);
    assert_eq!(p.stored, StoredTheme::Light);

    toggle_theme(&mut p);
    assert!(p.body_dark);
    assert_eq!(p.stored, StoredTheme::Dark);
    assert_eq!(theme_button_label(&p), "Light");

    toggle_theme(&mut p);
    assert!(!p.body_dark);
    assert_eq!(p.stored, StoredTheme::Light);
    assert_eq!(theme_button_label(&p), "Dark");
}

#[test]
fn home_scheme_shows_placeholder() {
    let mut p = load_page("minimal://home", StoredTheme::Absent);
    inject_topbar(&mut p);
    assert_eq!(chars_to_string(&p.search_field), String::from("monivo:about"));
}

#[test]
fn ordinary_address_is_shown_as_is() {
    let mut p = load_page("https://example.com/page", StoredTheme::Absent);
    inject_topbar(&mut p);
    assert_eq!(
        chars_to_string(&p.search_field),
        String::from("https://example.com/page")
    );
}

#[test]
fn history_navigation_refreshes_the_field() {
    let mut p = load_page("https://example.com/a", StoredTheme::Absent);
    inject_topbar(&mut p);
    p.location = str_chars("minimal://home");
    update_search_field(&mut p);
    assert_eq!(chars_to_string(&p.search_field), String::from("monivo:about"));
}

#[test]
fn display_hides_any_home_scheme_address() {
    let loc = str_chars("minimal://home?from=elsewhere");
    let shown = display_for_location(&loc);
    assert_eq!(chars_to_string(&shown), String::from("monivo:about"));
}

#[test]
fn storage_flag_values() {
    assert_eq!(storage_flag(true), "1");
    assert_eq!(storage_flag(false), "0");
}

#[test]
fn stored_values_parse_back() {
    assert_eq!(parse_stored(None), StoredTheme::Absent);
    assert_eq!(parse_stored(Some("1")), StoredTheme::Dark);
    assert_eq!(parse_stored(Some("0")), StoredTheme::Light);
    assert_eq!(parse_stored(Some("yes")), StoredTheme::Light);
}
