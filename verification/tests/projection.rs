use code_projector::projector::{ConstructionError, OnUnknownLanguage, Projector};
use code_projector::style::{Rgb, StyledRun};
use syntect::highlighting::ThemeSet;
use syntect::parsing::SyntaxSet;

const OCEAN: &str = "base16-ocean.dark";
const PLAIN: Rgb = Rgb { r: 192, g: 197, b: 206 };
const COMMENT: Rgb = Rgb { r: 101, g: 115, b: 126 };
const KEYWORD: Rgb = Rgb { r: 180, g: 142, b: 173 };

fn spell(lines: &Vec<Vec<StyledRun>>) -> String {
    let mut s = String::new();
    for line in lines {
        for run in line {
            s.push_str(&run.text);
        }
    }
    s
}

fn spell_line(line: &Vec<StyledRun>) -> String {
    let mut s = String::new();
    for run in line {
        s.push_str(&run.text);
    }
    s
}

fn run(text: &str, color: Rgb) -> StyledRun {
    StyledRun { text: text.to_string(), color }
}

#[test]
fn runs_spell_the_buffer() {
    let p = Projector::new("rs", OCEAN).unwrap();
    let text = "pub struct Wow { hi: u64 }\nfn blah() -> u64 {}\n";
    let lines = p.project(text);
    assert_eq!(lines.len(), 2);
    assert_eq!(spell(&lines), text);
    assert_eq!(spell_line(&lines[0]), "pub struct Wow { hi: u64 }\n");
    assert_eq!(spell_line(&lines[1]), "fn blah() -> u64 {}\n");
}

#[test]
fn runs_spell_every_kind_of_buffer() {
    let p = Projector::new("rs", OCEAN).unwrap();
    let texts = [
        "",
        "\n",
        "x",
        "x\n",
        "\n\n\n",
        "a\r\nb\r\n",
        "no newline at the end",
        "let s = \"h\u{e9}llo \u{4e16}\u{754c}\";\n// \u{1f600}\n",
        "/* never closed\n\n",
        "\tfn f() {\n\t\t1 + 1\n\t}",
    ];
    for text in texts {
        let lines = p.project(text);
        assert_eq!(spell(&lines), text);
        for line in &lines {
            assert!(!line.is_empty());
            for r in line {
                assert!(!r.text.is_empty());
            }
        }
    }
}

#[test]
fn an_empty_buffer_has_no_lines() {
    let p = Projector::new("rs", OCEAN).unwrap();
    assert!(p.project("").is_empty());
}

#[test]
fn a_line_keeps_its_line_feed() {
    let p = Projector::new("rs", OCEAN).unwrap();
    let lines = p.project("a\n\nb");
    assert_eq!(lines.len(), 3);
    assert_eq!(spell_line(&lines[0]), "a\n");
    assert_eq!(spell_line(&lines[1]), "\n");
    assert_eq!(spell_line(&lines[2]), "b");
}

#[test]
fn a_keyword_gets_the_colour_of_the_theme() {
    let p = Projector::new("rs", OCEAN).unwrap();
    let lines = p.project("fn f() {\n");
    assert_eq!(lines.len(), 1);
    assert_eq!(lines[0][0], run("fn", KEYWORD));
    assert_eq!(lines[0][1], run(" ", PLAIN));
    assert_eq!(lines[0][2], run("f", Rgb { r: 143, g: 161, b: 179 }));
}

#[test]
fn another_theme_gives_other_colours() {
    let dark = Projector::new("rs", OCEAN).unwrap();
    let light = Projector::new("rs", "InspiredGitHub").unwrap();
    let a = dark.project("fn f() {}\n");
    let b = light.project("fn f() {}\n");
    assert_eq!(spell(&a), spell(&b));
    assert_ne!(a, b);
    assert_ne!(dark.fallback_color(), light.fallback_color());
}

#[test]
fn the_same_names_give_the_same_colours() {
    let first = Projector::new("rs", OCEAN).unwrap();
    let second = Projector::new("rs", OCEAN).unwrap();
    let text = "fn main() {\n    let x = \"s\"; // c\n}\n";
    assert_eq!(first.project(text), second.project(text));
    assert_eq!(first.fallback_color(), second.fallback_color());
}

#[test]
fn the_same_registries_give_the_same_colours() {
    let themes = ThemeSet::load_defaults();
    let first = Projector::with_registries(
        SyntaxSet::load_defaults_newlines(),
        &themes,
        "py",
        "Solarized (dark)",
        OnUnknownLanguage::Fail,
    )
    .unwrap();
    let second = Projector::with_registries(
        SyntaxSet::load_defaults_newlines(),
        &themes,
        "py",
        "Solarized (dark)",
        OnUnknownLanguage::Fail,
    )
    .unwrap();
    let text = "def f(x):\n    return x + 1  # one more\n";
    assert_eq!(first.project(text), second.project(text));
}

#[test]
fn unknown_theme_is_refused() {
    assert!(matches!(Projector::new("rs", "no such theme"), Err(ConstructionError::UnknownTheme)));
    assert!(matches!(
        Projector::with_policy("rs", "no such theme", OnUnknownLanguage::FallbackPlaintext),
        Err(ConstructionError::UnknownTheme)
    ));
    assert!(matches!(Projector::new("rs", ""), Err(ConstructionError::UnknownTheme)));
}

#[test]
fn the_theme_is_looked_up_before_the_language() {
    assert!(matches!(
        Projector::new("no-such-language", "no such theme"),
        Err(ConstructionError::UnknownTheme)
    ));
}

#[test]
fn unknown_language_is_refused_under_the_policy_to_fail() {
    assert!(matches!(
        Projector::new("no-such-language", OCEAN),
        Err(ConstructionError::UnknownLanguage)
    ));
    assert!(matches!(
        Projector::with_policy("no-such-language", OCEAN, OnUnknownLanguage::Fail),
        Err(ConstructionError::UnknownLanguage)
    ));
}

#[test]
fn unknown_language_falls_back_to_plain_text() {
    let p = Projector::with_policy("no-such-language", OCEAN, OnUnknownLanguage::FallbackPlaintext)
        .unwrap();
    assert!(p.uses_plaintext());
    assert_eq!(p.fallback_color(), PLAIN);
    let text = "fn main() {\n/* not a comment here */\nlast";
    let lines = p.project(text);
    assert_eq!(spell(&lines), text);
    assert_eq!(lines.len(), 3);
    for line in &lines {
        for r in line {
            assert_eq!(r.color, PLAIN);
        }
    }
    assert_eq!(lines[0], vec![run("fn main() {\n", PLAIN)]);
}

#[test]
fn a_known_language_does_not_fall_back() {
    let p = Projector::with_policy("rs", OCEAN, OnUnknownLanguage::FallbackPlaintext).unwrap();
    assert!(!p.uses_plaintext());
    assert_eq!(p.project("fn f() {}\n")[0][0], run("fn", KEYWORD));
}

#[test]
fn a_set_without_plain_text_cannot_fall_back() {
    let themes = ThemeSet::load_defaults();
    let r = Projector::with_registries(
        SyntaxSet::new(),
        &themes,
        "rs",
        OCEAN,
        OnUnknownLanguage::FallbackPlaintext,
    );
    assert!(matches!(r, Err(ConstructionError::UnknownLanguage)));
}

#[test]
fn an_empty_theme_set_knows_no_theme() {
    let themes = ThemeSet::new();
    let r = Projector::with_registries(
        SyntaxSet::load_defaults_newlines(),
        &themes,
        "rs",
        OCEAN,
        OnUnknownLanguage::Fail,
    );
    assert!(matches!(r, Err(ConstructionError::UnknownTheme)));
}

#[test]
fn a_comment_runs_on_over_the_line_feed() {
    let p = Projector::new("rs", OCEAN).unwrap();
    let lines = p.project("/* open\nstill inside\n");
    assert_eq!(lines.len(), 2);
    assert_eq!(lines[0], vec![run("/*", COMMENT), run(" open\n", COMMENT)]);
    assert_eq!(lines[1], vec![run("still inside\n", COMMENT)]);
    // The same line at the start of a buffer is no comment.
    let alone = p.project("still inside\n");
    assert_eq!(spell(&alone), "still inside\n");
    for r in &alone[0] {
        assert_ne!(r.color, COMMENT);
    }
}

#[test]
fn a_comment_ends_where_it_is_closed() {
    let p = Projector::new("rs", OCEAN).unwrap();
    let lines = p.project("fn f() {\n/* open\nstill inside */ let x = 1;\n");
    assert_eq!(lines.len(), 3);
    assert_eq!(lines[2][0], run("still inside ", COMMENT));
    assert_eq!(lines[2][1], run("*/", COMMENT));
    assert_eq!(lines[2][2], run(" ", PLAIN));
    assert_eq!(lines[2][3], run("let", KEYWORD));
}

#[test]
fn a_second_pass_gives_the_same_runs() {
    let p = Projector::new("rs", OCEAN).unwrap();
    let text = "/* open\nstill inside */ fn f() {}\n// tail";
    let first = p.project(text);
    let second = p.project(text);
    assert_eq!(first, second);
    // A pass in between, over another buffer, leaves nothing behind.
    let _ = p.project("/* left open\n");
    assert_eq!(p.project(text), first);
}

#[test]
fn the_extension_is_matched_without_regard_to_case() {
    let lower = Projector::new("rs", OCEAN).unwrap();
    let upper = Projector::new("RS", OCEAN).unwrap();
    let text = "fn f() {}\n";
    assert_eq!(lower.project(text), upper.project(text));
}
