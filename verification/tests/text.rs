use std::path::Path;

use uran::paths::{join_path, project_dir, BUILD_DIR};
use uran::text::{
    chars_of, join_lines_with, parse_usize, replace_spaces, split_lines, string_of,
};

fn std_lines(s: &str) -> Vec<Vec<char>> {
    s.lines().map(|l| l.chars().collect()).collect()
}

#[test]
fn chars_and_back() {
    let v = chars_of("ação ü");
    assert_eq!(v, vec!['a', 'ç', 'ã', 'o', ' ', 'ü']);
    assert_eq!(string_of(&v), "ação ü");
    assert_eq!(chars_of(""), Vec::<char>::new());
}

#[test]
fn replace_spaces_turns_spaces_into_hyphens() {
    assert_eq!(replace_spaces("my new project"), "my new project".replace(" ", "-"));
    assert_eq!(replace_spaces("  "), "--");
    assert_eq!(replace_spaces("no_space"), "no_space");
    assert_eq!(replace_spaces(""), "");
}

#[test]
fn replace_spaces_twice_is_once() {
    let once = replace_spaces("a b  c");
    assert_eq!(replace_spaces(&once), once);
}

#[test]
fn parse_usize_matches_std() {
    let cases = [
        "5", "+7", "-1", "", "+", " 5", "5 ", "007", "1a", "0", "-0", "++1",
        "18446744073709551615", "18446744073709551616", "99999999999999999999999", "١٢",
    ];
    for c in cases {
        assert_eq!(parse_usize(c), c.parse::<usize>().ok(), "input {:?}", c);
    }
    assert_eq!(parse_usize("12"), Some(12));
    assert_eq!(parse_usize("x"), None);
}

#[test]
fn split_lines_matches_std() {
    let cases = [
        "", "a", "a\n", "a\nb", "a\r\nb\r\n", "\n", "\n\n", "a\r", "a\r\r\n", "\r\n", "x\ry\nz",
        "line one\nline two\n\nline four",
    ];
    for c in cases {
        assert_eq!(split_lines(c), std_lines(c), "input {:?}", c);
    }
}

#[test]
fn join_lines_inserts_after_line() {
    let ls = std_lines("a\nb\nc");
    let extra: Vec<char> = "X".chars().collect();
    assert_eq!(string_of(&join_lines_with(&ls, 0, &extra)), "a\nX\nb\nc\n");
    assert_eq!(string_of(&join_lines_with(&ls, 2, &extra)), "a\nb\nc\nX\n");
    assert_eq!(string_of(&join_lines_with(&ls, 3, &extra)), "a\nb\nc\n");
    assert_eq!(string_of(&join_lines_with(&Vec::new(), 0, &extra)), "");
}

#[test]
fn lines_after_insert_keep_the_old_lines() {
    let ls = std_lines("one\ntwo\nthree\n");
    let extra: Vec<char> = "new".chars().collect();
    let out = string_of(&join_lines_with(&ls, 1, &extra));
    assert_eq!(split_lines(&out), std_lines("one\ntwo\nnew\nthree"));
}

#[test]
fn join_path_matches_std() {
    let cases = [
        ("../build", "demo"),
        ("../build", "/etc"),
        ("../build/", "demo"),
        ("", "demo"),
        ("a", ""),
        ("a/b", "c/d"),
        ("/", "x"),
    ];
    for (b, p) in cases {
        let expected = Path::new(b).join(p).to_str().unwrap().to_string();
        assert_eq!(join_path(b, p), expected, "inputs {:?} {:?}", b, p);
    }
}

#[test]
fn projects_live_in_the_build_dir() {
    assert_eq!(BUILD_DIR, "../build");
    assert_eq!(project_dir("demo"), "../build/demo");
    assert_eq!(project_dir("/abs"), "/abs");
}
