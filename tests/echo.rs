use catr::echo;

fn words(ws: &[&str]) -> Vec<String> {
    ws.iter().map(|w| w.to_string()).collect()
}

#[test]
fn echo_two_words_with_newline() {
    assert_eq!(echo(&words(&["hello", "world"]), false), "hello world\n");
}

#[test]
fn echo_two_words_omit_newline() {
    assert_eq!(echo(&words(&["hello", "world"]), true), "hello world");
}

#[test]
fn echo_single_word() {
    assert_eq!(echo(&words(&["hello"]), false), "hello\n");
    assert_eq!(echo(&words(&["hello"]), true), "hello");
}

#[test]
fn echo_keeps_spaces_inside_tokens() {
    assert_eq!(echo(&words(&["a  b", "", "c"]), false), "a  b  c\n");
}

#[test]
fn echo_join_law_on_values() {
    let t = words(&["one", "two", "three"]);
    assert_eq!(echo(&t, false), format!("{}\n", t.join(" ")));
    assert_eq!(echo(&t, true), t.join(" "));
}

#[test]
fn echo_no_tokens() {
    assert_eq!(echo(&Vec::new(), false), "\n");
    assert_eq!(echo(&Vec::new(), true), "");
}
