use rust_book::minigrep::{search, search_case_insensitive, Config, MISSING_FILE_PATH, MISSING_QUERY};
use rust_book::text::contains;

#[test]
fn not_matching() {
    let query = "Bird";
    let contents = "\
Is there a bird here?
Perhaps a flamingo?
Or a swan?";

    let expected: Vec<&str> = vec![];
    let actual = search(query, contents);
    assert_eq!(actual.len(), 0);
    assert_eq!(expected, actual);
}

#[test]
fn one_line_matches() {
    let query = "bird";
    let contents = "\
Is there a bird here?
Perhaps a flamingo?
Or a swan?";

    let expected = vec!["Is there a bird here?"];
    let actual = search(query, contents);
    assert_eq!(actual.len(), 1);
    assert_eq!(expected, actual);
}

#[test]
fn one_line_matches_twice() {
    let query = "bird";
    let contents = "\
Is there a bird here, any bird here?
Perhaps a flamingo?
Or a swan?";

    let expected = vec!["Is there a bird here, any bird here?"];
    let actual = search(query, contents);
    assert_eq!(actual.len(), 1);
    assert_eq!(expected, actual);
}

#[test]
fn one_line_matches_with_punctuation() {
    let query = "bird";
    let contents = "\
Is there a bird here?
Perhaps a flamingo?
Or a swan?
Or any other bird?";

    let expected = vec!["Is there a bird here?", "Or any other bird?"];
    let actual = search(query, contents);
    assert_eq!(actual.len(), 2);
    assert_eq!(expected, actual);
}

#[test]
fn two_lines_match() {
    let query = "bird";
    let contents = "\
Is there a bird here?
Perhaps a flamingo?
Or a swan?
Or any other bird here?";

    let expected = vec!["Is there a bird here?", "Or any other bird here?"];
    let actual = search(query, contents);
    assert_eq!(actual.len(), 2);
    assert_eq!(expected, actual);
}

#[test]
fn two_lines_match_with_punctuation() {
    let query = "here";
    let contents = "\
Is there a bird here?
Perhaps a flamingo?
Or a swan?
Or any other bird here?";

    let expected = vec!["Is there a bird here?", "Or any other bird here?"];
    let actual = search(query, contents);
    assert_eq!(actual.len(), 2);
    assert_eq!(expected, actual);
}

#[test]
fn three_lines_match_case_insensitive() {
    let query = "birD";
    let contents = "\
Is there a bird here?
Perhaps a flamingo?
Or a swan?
Or any other bird here?
Perhaps Mr. Bird?";

    let expected = vec!["Is there a bird here?", "Or any other bird here?", "Perhaps Mr. Bird?"];
    let actual = search_case_insensitive(query, contents);
    assert_eq!(actual.len(), 3);
    assert_eq!(expected, actual);
}

#[test]
fn search_strips_carriage_returns_and_empty_text() {
    assert_eq!(search("a", "ab\r\ncd\r\nxa"), vec!["ab", "xa"]);
    assert_eq!(search("a", ""), Vec::<&str>::new());
    assert_eq!(search("", "x\n\ny\n"), vec!["x", "", "y"]);
    assert_eq!(search("\r", "a\r"), vec!["a\r"]);
}

#[test]
fn search_case_sensitive_misses_other_case() {
    assert_eq!(search("BIRD", "a bird\nA BIRD"), vec!["A BIRD"]);
    assert_eq!(search_case_insensitive("BIRD", "a bird\nno"), vec!["a bird"]);
}

#[test]
fn contains_finds_runs() {
    assert!(contains("abcde", "cd"));
    assert!(contains("abc", ""));
    assert!(!contains("abc", "abcd"));
    assert!(!contains("abc", "ac"));
}

fn args(items: &[&str]) -> Vec<String> {
    items.iter().map(|s| s.to_string()).collect()
}

#[test]
fn config_build_reads_arguments() {
    assert_eq!(Config::build(&args(&["prog"]), false).err(), Some(MISSING_QUERY));
    assert_eq!(Config::build(&args(&["prog", "q"]), false).err(), Some(MISSING_FILE_PATH));
    let c = Config::build(&args(&["prog", "q", "f.txt"]), false).ok().unwrap();
    assert_eq!(c.query, "q");
    assert_eq!(c.file_path, "f.txt");
    assert!(!c.ignore_case);
    let c = Config::build(&args(&["prog", "q", "f.txt", "I"]), false).ok().unwrap();
    assert!(c.ignore_case);
    let c = Config::build(&args(&["prog", "q", "f.txt", "x"]), false).ok().unwrap();
    assert!(!c.ignore_case);
    let c = Config::build(&args(&["prog", "q", "f.txt"]), true).ok().unwrap();
    assert!(c.ignore_case);
}
