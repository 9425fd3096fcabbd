use code_projector::editor::CodeEditor;
use code_projector::gutter::{decimal, gutter, line_label};
use code_projector::projector::{ConstructionError, OnUnknownLanguage};
use code_projector::style::Rgb;
use code_projector::viewer::CodeViewer;
use syntect::highlighting::ThemeSet;
use syntect::parsing::SyntaxSet;

const OCEAN: &str = "base16-ocean.dark";

#[test]
fn decimal_writes_the_digits() {
    assert_eq!(decimal(0), "0");
    assert_eq!(decimal(7), "7");
    assert_eq!(decimal(10), "10");
    assert_eq!(decimal(1234567890), "1234567890");
    assert_eq!(decimal(usize::MAX), usize::MAX.to_string());
}

#[test]
fn a_label_is_pushed_to_the_right() {
    assert_eq!(line_label(7, 3), "  7");
    assert_eq!(line_label(42, 3), " 42");
    assert_eq!(line_label(123, 3), "123");
    assert_eq!(line_label(1, 1), "1");
    assert_eq!(line_label(5, 0), "5");
}

#[test]
fn a_long_number_is_written_in_full() {
    assert_eq!(line_label(1234, 2), "1234");
}

#[test]
fn the_gutter_counts_from_one() {
    assert_eq!(gutter(3, 2), vec![" 1".to_string(), " 2".to_string(), " 3".to_string()]);
    assert!(gutter(0, 4).is_empty());
    let long = gutter(11, 2);
    assert_eq!(long[8], " 9");
    assert_eq!(long[9], "10");
    assert_eq!(long[10], "11");
}

#[test]
fn a_new_editor_is_empty() {
    let e = CodeEditor::new("rs", OCEAN).unwrap();
    assert_eq!(e.code, "");
    assert!(e.layout().is_empty());
    assert!(!e.projector.uses_plaintext());
}

#[test]
fn an_editor_lays_out_what_was_typed() {
    let mut e = CodeEditor::new("rs", OCEAN).unwrap();
    e.code.push_str("fn f() {}\n");
    let lines = e.layout();
    assert_eq!(lines.len(), 1);
    assert_eq!(lines[0][0].text, "fn");
    assert_eq!(lines[0][0].color, Rgb { r: 180, g: 142, b: 173 });
    e.code.push_str("// more");
    assert_eq!(e.layout().len(), 2);
}

#[test]
fn an_editor_refuses_unknown_names() {
    assert!(matches!(CodeEditor::new("rs", "nope"), Err(ConstructionError::UnknownTheme)));
    assert!(matches!(CodeEditor::new("nope", OCEAN), Err(ConstructionError::UnknownLanguage)));
    assert!(matches!(
        CodeEditor::with_policy("nope", "nope", OnUnknownLanguage::FallbackPlaintext),
        Err(ConstructionError::UnknownTheme)
    ));
}

#[test]
fn an_editor_can_fall_back_to_plain_text() {
    let e = CodeEditor::with_policy("nope", OCEAN, OnUnknownLanguage::FallbackPlaintext).unwrap();
    assert!(e.projector.uses_plaintext());
    assert_eq!(e.code, "");
}

#[test]
fn the_default_editor_is_for_rust() {
    let mut e = CodeEditor::with_defaults().unwrap();
    let mut named = CodeEditor::new("rs", OCEAN).unwrap();
    e.code.push_str("let x = 1;\n");
    named.code.push_str("let x = 1;\n");
    assert_eq!(e.layout(), named.layout());
}

#[test]
fn an_editor_from_registries() {
    let themes = ThemeSet::load_defaults();
    let e = CodeEditor::with_registries(
        SyntaxSet::load_defaults_newlines(),
        &themes,
        "rs",
        OCEAN,
        OnUnknownLanguage::Fail,
    )
    .unwrap();
    assert_eq!(e.code, "");
    let none = CodeEditor::with_registries(
        SyntaxSet::new(),
        &themes,
        "rs",
        OCEAN,
        OnUnknownLanguage::Fail,
    );
    assert!(matches!(none, Err(ConstructionError::UnknownLanguage)));
}

#[test]
fn a_viewer_shows_the_text_it_was_given() {
    let mut v = CodeViewer::new("rs", OCEAN).unwrap();
    assert_eq!(v.get_text(), "");
    v.set_text("fn f() {}\n".to_string());
    assert_eq!(v.get_text(), "fn f() {}\n");
    assert_eq!(v.code, "fn f() {}\n");
    v.set_text("x".to_string());
    assert_eq!(v.get_text(), "x");
}

#[test]
fn a_replaced_text_starts_from_a_new_state() {
    let mut v = CodeViewer::new("rs", OCEAN).unwrap();
    v.set_text("let x = 1;\n".to_string());
    let before = v.layout();
    v.set_text("/* left open\n".to_string());
    let _ = v.layout();
    v.set_text("let x = 1;\n".to_string());
    assert_eq!(v.layout(), before);
}

#[test]
fn a_viewer_numbers_its_lines() {
    let mut v = CodeViewer::new("rs", OCEAN).unwrap();
    v.set_text("fn f() {\n    1\n}".to_string());
    let view = v.layout_numbered(3);
    assert_eq!(view.labels, vec!["  1".to_string(), "  2".to_string(), "  3".to_string()]);
    assert_eq!(view.lines, v.layout());
    assert_eq!(view.lines.len(), 3);
}

#[test]
fn an_empty_viewer_has_no_numbers() {
    let v = CodeViewer::with_defaults().unwrap();
    let view = v.layout_numbered(4);
    assert!(view.labels.is_empty());
    assert!(view.lines.is_empty());
}

#[test]
fn a_viewer_refuses_unknown_names() {
    assert!(matches!(CodeViewer::new("rs", "nope"), Err(ConstructionError::UnknownTheme)));
    assert!(matches!(CodeViewer::new("nope", OCEAN), Err(ConstructionError::UnknownLanguage)));
    let v = CodeViewer::with_policy("nope", OCEAN, OnUnknownLanguage::FallbackPlaintext).unwrap();
    assert!(v.projector.uses_plaintext());
}

#[test]
fn a_viewer_from_registries() {
    let themes = ThemeSet::load_defaults();
    let v = CodeViewer::with_registries(
        SyntaxSet::load_defaults_newlines(),
        &themes,
        "nope",
        OCEAN,
        OnUnknownLanguage::FallbackPlaintext,
    )
    .unwrap();
    assert!(v.projector.uses_plaintext());
    assert_eq!(v.get_text(), "");
}

#[test]
fn a_copy_of_an_editor_lays_out_the_same() {
    let mut e = CodeEditor::new("rs", OCEAN).unwrap();
    e.code.push_str("/* a */ fn f() {}\nlet s = \"x\";\n");
    let copy = e.clone();
    assert_eq!(copy.code, e.code);
    assert_eq!(copy.layout(), e.layout());
    assert_eq!(copy.projector.fallback_color(), e.projector.fallback_color());
    assert_eq!(copy.projector.uses_plaintext(), e.projector.uses_plaintext());
}

#[test]
fn a_copy_of_a_viewer_lays_out_the_same() {
    let mut v = CodeViewer::with_policy("nope", OCEAN, OnUnknownLanguage::FallbackPlaintext).unwrap();
    v.set_text("one\ntwo\n".to_string());
    let copy = v.clone();
    assert_eq!(copy.get_text(), "one\ntwo\n");
    assert_eq!(copy.layout(), v.layout());
    assert!(copy.projector.uses_plaintext());
}
