use minimal_browser::homepage::homepage_html;
use minimal_browser::script::{
    assemble_init_script, build_init_script, homepage_script_literal, SCRIPT_PREFIX,
    SCRIPT_SUFFIX,
};

#[test]
fn literal_is_json_quoted() {
    assert_eq!(homepage_script_literal("a"), String::from("\"a\""));
}

#[test]
fn literal_escapes_quotes_and_newlines() {
    assert_eq!(homepage_script_literal("a\"b\n"), String::from("\"a\\\"b\\n\""));
}

#[test]
fn assembly_is_prefix_literal_suffix() {
    let s = assemble_init_script("'x'");
    assert_eq!(s, format!("{}{}{}", SCRIPT_PREFIX, "'x'", SCRIPT_SUFFIX));
}

#[test]
fn built_script_embeds_the_homepage() {
    let s = build_init_script("<p>x</p>");
    assert_eq!(
        s,
        format!("{}{}{}", SCRIPT_PREFIX, "\"<p>x</p>\"", SCRIPT_SUFFIX)
    );
}

#[test]
fn script_wires_the_overlay() {
    let s = build_init_script(homepage_html());
    assert!(s.starts_with("window.__MINIMAL_HOME = \"<!DOCTYPE html>"));
    assert!(s.contains("minimal://home"));
    assert!(s.contains("addEventListener('keydown'"));
    assert!(s.ends_with(", true);\n"));
}
