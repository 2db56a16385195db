use catr::numfmt::right_aligned;
use catr::{
    cat_file, cat_sources, decimal_string, is_stdin, number_field, open_failure_message, Config,
    ConfigError, LineNumbering, Source,
};

fn lines(ls: &[&str]) -> Vec<String> {
    ls.iter().map(|l| l.to_string()).collect()
}

fn config(number_lines: bool, number_nonblank: bool) -> Config {
    Config::new(lines(&["f"]), number_lines, number_nonblank).unwrap()
}

#[test]
fn decimal_digits() {
    assert_eq!(decimal_string(0), "0");
    assert_eq!(decimal_string(7), "7");
    assert_eq!(decimal_string(10), "10");
    assert_eq!(decimal_string(1234567), "1234567");
}

#[test]
fn number_field_is_six_wide() {
    assert_eq!(number_field(1), "     1");
    assert_eq!(number_field(42), "    42");
    assert_eq!(number_field(999999), "999999");
    assert_eq!(number_field(1234567), "1234567");
}

#[test]
fn right_aligned_pads_with_spaces() {
    assert_eq!(right_aligned("ab", 4), "  ab");
    assert_eq!(right_aligned("abcde", 3), "abcde");
    assert_eq!(right_aligned("", 2), "  ");
}

#[test]
fn both_numbering_flags_rejected() {
    let r = Config::new(lines(&["a.txt"]), true, true);
    assert!(matches!(r, Err(ConfigError::ConflictingNumbering)));
    let r = Config::new(Vec::new(), true, true);
    assert!(matches!(r, Err(ConfigError::ConflictingNumbering)));
}

#[test]
fn no_files_means_stdin() {
    let c = Config::new(Vec::new(), false, false).unwrap();
    assert_eq!(c.files(), &lines(&["-"]));
    assert!(!c.number_lines());
    assert!(!c.number_nonblank_lines());
}

#[test]
fn config_keeps_files_and_flags() {
    let c = Config::new(lines(&["a", "-", "b"]), false, true).unwrap();
    assert_eq!(c.files(), &lines(&["a", "-", "b"]));
    assert!(!c.number_lines());
    assert!(c.number_nonblank_lines());
    let c = Config::new(lines(&["a"]), true, false).unwrap();
    assert!(c.number_lines());
    assert!(!c.number_nonblank_lines());
}

#[test]
fn dash_is_stdin() {
    assert!(is_stdin("-"));
    assert!(!is_stdin("--"));
    assert!(!is_stdin(""));
    assert!(!is_stdin("a"));
}

#[test]
fn plain_copy_reproduces_lines() {
    let c = config(false, false);
    assert_eq!(cat_file(&c, &lines(&["a", "", "  b  "])), "a\n\n  b  \n");
    assert_eq!(cat_file(&c, &Vec::new()), "");
}

#[test]
fn number_all_lines() {
    let c = config(true, false);
    assert_eq!(
        cat_file(&c, &lines(&["a", "", "b"])),
        "     1\ta\n     2\t\n     3\tb\n"
    );
}

#[test]
fn number_nonblank_example() {
    let c = config(false, true);
    assert_eq!(
        cat_file(&c, &lines(&["foo", "", "bar"])),
        "     1\tfoo\n\n     2\tbar\n"
    );
}

#[test]
fn whitespace_line_is_not_blank() {
    let c = config(false, true);
    assert_eq!(cat_file(&c, &lines(&["", " ", "x"])), "\n     1\t \n     2\tx\n");
}

#[test]
fn nonblank_count_restarts_per_file() {
    let c = config(false, true);
    let sources = vec![
        Source::Lines(lines(&["x", "", "y"])),
        Source::Lines(lines(&["z"])),
    ];
    let out = cat_sources(&c, &sources);
    assert_eq!(out.stdout, "     1\tx\n\n     2\ty\n     1\tz\n");
    assert_eq!(out.stderr, "");
}

#[test]
fn line_numbers_restart_per_file() {
    let c = config(true, false);
    let sources = vec![Source::Lines(lines(&["a", "b"])), Source::Lines(lines(&["c"]))];
    let out = cat_sources(&c, &sources);
    assert_eq!(out.stdout, "     1\ta\n     2\tb\n     1\tc\n");
}

#[test]
fn unopened_file_is_reported_and_skipped() {
    let c = config(false, false);
    let sources = vec![
        Source::Lines(lines(&["first"])),
        Source::Unopened {
            name: "missing.txt".to_string(),
            reason: "No such file or directory (os error 2)".to_string(),
        },
        Source::Lines(lines(&["second", "third"])),
    ];
    let out = cat_sources(&c, &sources);
    assert_eq!(out.stdout, "first\nsecond\nthird\n");
    assert_eq!(
        out.stderr,
        "Failed to open missing.txt: No such file or directory (os error 2)\n"
    );
}

#[test]
fn failure_message_text() {
    assert_eq!(
        open_failure_message("x.txt", "permission denied"),
        "Failed to open x.txt: permission denied"
    );
}

#[test]
fn streaming_numbering_matches_whole_file() {
    let mut n = LineNumbering::new(false, true);
    assert_eq!(n.next_line("foo"), "     1\tfoo\n");
    assert_eq!(n.next_line(""), "\n");
    assert_eq!(n.next_line("bar"), "     2\tbar\n");
    assert_eq!(n.lines_seen(), 3);
    let mut m = LineNumbering::new(true, false);
    assert_eq!(m.next_line(""), "     1\t\n");
    assert_eq!(m.next_line("q"), "     2\tq\n");
    assert_eq!(m.lines_seen(), 2);
}
