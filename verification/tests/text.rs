use clanker::text::join;

#[test]
fn join_of_nothing_is_empty() {
    assert_eq!(join(&Vec::new(), "\n"), "");
}

#[test]
fn join_of_one_part_is_the_part() {
    assert_eq!(join(&vec!["only".to_string()], ", "), "only");
}

#[test]
fn join_puts_separator_between_neighbours_only() {
    let parts = vec!["a".to_string(), "b".to_string(), "c".to_string()];
    assert_eq!(join(&parts, "--"), "a--b--c");
}

#[test]
fn join_keeps_empty_parts() {
    let parts = vec![String::new(), "x".to_string(), String::new()];
    assert_eq!(join(&parts, "/"), "/x/");
}

#[test]
fn join_with_empty_separator_concatenates() {
    let parts = vec!["Hello, ".to_string(), "world!".to_string()];
    assert_eq!(join(&parts, ""), "Hello, world!");
}

#[test]
fn join_agrees_with_the_standard_library() {
    let parts = vec!["é".to_string(), "☃".to_string(), "z".to_string()];
    assert_eq!(join(&parts, "\n"), parts.join("\n"));
}
