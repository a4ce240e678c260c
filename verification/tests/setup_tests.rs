use aspy::setup::{answer_to_bool, diff_lines, is_confirmed, lines_of, menu_choice, popular_themes, DiffLine};

fn show(d: &DiffLine) -> String {
    match d {
        DiffLine::Same(l) => format!("  {}", l),
        DiffLine::Added(l) => format!("+ {}", l),
        DiffLine::Removed(l) => format!("- {}", l),
        DiffLine::Changed(o, n) => format!("- {} / + {}", o, n),
    }
}

#[test]
fn confirmation_answers() {
    assert!(is_confirmed("y\n"));
    assert!(is_confirmed("  Y  "));
    assert!(!is_confirmed("yes"));
    assert!(!is_confirmed(""));
    assert!(!is_confirmed("n"));
}

#[test]
fn yes_no_answers_with_default() {
    assert!(answer_to_bool("\n", true));
    assert!(!answer_to_bool("   ", false));
    assert!(answer_to_bool("YES\n", false));
    assert!(answer_to_bool(" y ", false));
    assert!(!answer_to_bool("no", true));
    assert!(!answer_to_bool("yep", true));
}

#[test]
fn menu_numbers() {
    assert_eq!(menu_choice("1\n", 8), Some(0));
    assert_eq!(menu_choice(" 8 ", 8), Some(7));
    assert_eq!(menu_choice("+3", 8), Some(2));
    assert_eq!(menu_choice("0", 8), None);
    assert_eq!(menu_choice("9", 8), None);
    assert_eq!(menu_choice("x", 8), None);
    assert_eq!(menu_choice("", 8), None);
    assert_eq!(menu_choice("99999999999999999999999", 8), None);
}

#[test]
fn popular_theme_menu() {
    let t = popular_themes();
    assert_eq!(t.len(), 8);
    assert_eq!(t[0], "Spy Dark");
    assert_eq!(t[7], "Monokai Pro");
}

#[test]
fn lines_follow_str_lines() {
    for s in ["", "a", "a\n", "\n", "a\r\nb\n\nc\r", "x\n\ny", "\r\n\r\n", "one\r"] {
        let expected: Vec<String> = s.lines().map(|l| l.to_string()).collect();
        assert_eq!(lines_of(s), expected, "input {:?}", s);
    }
}

#[test]
fn update_preview_lines() {
    let old = "a = 1\nb = 2\n\nd = 4\n";
    let new = "a = 1\nb = 3\nc = 5\n\ne = 6\n";
    let shown: Vec<String> = diff_lines(old, new).iter().map(show).collect();
    assert_eq!(shown, vec!["  a = 1", "- b = 2 / + b = 3", "+ c = 5", "- d = 4", "+ e = 6"]);
    assert!(diff_lines("x\n", "x").iter().all(|d| matches!(d, DiffLine::Same(_))));
}

#[test]
fn natural_mode_operators_in_any_case() {
    use_search();
}

fn use_search() {
    let q = aspy::search::SearchMode::Natural.process("rust and Tui oR nOt cli*");
    assert_eq!(q, "rust AND Tui OR NOT cli*");
    assert_eq!(aspy::search::SearchMode::Phrase.process("a \"b\""), "\"a \"\"b\"\"\"");
}
