use expect::args::{parse_args, ComparisonType};
use expect::report::Outcome;

fn strings(tokens: &[&str]) -> Vec<String> {
    tokens.iter().map(|t| t.to_string()).collect()
}

#[test]
fn parses_contain_form() {
    let r = parse_args(strings(&["expect", "echo hello", "to", "output", "sample.txt"]));
    let u = r.expect("five-token form must parse");
    assert_eq!(u.comparison, ComparisonType::ShouldContain);
    assert_eq!(u.command_being_tested, "echo hello");
    assert_eq!(u.file_name, "sample.txt");
}

#[test]
fn parses_not_contain_form() {
    let r = parse_args(strings(&["expect", "echo hello", "to", "not", "output", "sample.txt"]));
    let u = r.expect("six-token not form must parse");
    assert_eq!(u.comparison, ComparisonType::ShouldNotContain);
    assert_eq!(u.command_being_tested, "echo hello");
    assert_eq!(u.file_name, "sample.txt");
}

#[test]
fn parses_equal_form() {
    let r = parse_args(strings(&["expect", "echo hello", "to", "output", "exactly", "sample.txt"]));
    let u = r.expect("six-token exactly form must parse");
    assert_eq!(u.comparison, ComparisonType::ShouldEqual);
    assert_eq!(u.command_being_tested, "echo hello");
    assert_eq!(u.file_name, "sample.txt");
}

#[test]
fn rejects_three_arguments() {
    let r = parse_args(strings(&["expect", "echo hello", "to"]));
    assert!(r.is_none());
    assert_eq!(Outcome::BadUsage.exit_code(), 1);
}

#[test]
fn rejects_wrong_keyword() {
    assert!(parse_args(strings(&["expect", "echo", "To", "output", "f.txt"])).is_none());
    assert!(parse_args(strings(&["expect", "echo", "to", "Output", "f.txt"])).is_none());
    assert!(parse_args(strings(&["expect", "echo", "to", "not", "Output", "f.txt"])).is_none());
    assert!(parse_args(strings(&["expect", "echo", "to", "output", "Exactly", "f.txt"])).is_none());
}

#[test]
fn rejects_other_token_counts() {
    assert!(parse_args(strings(&[])).is_none());
    assert!(parse_args(strings(&["expect"])).is_none());
    assert!(parse_args(strings(&["expect", "echo", "to", "output"])).is_none());
    assert!(parse_args(strings(&["expect", "echo", "to", "output", "exactly", "f.txt", "x"]))
        .is_none());
}

#[test]
fn six_token_forms_are_distinct() {
    let not_form = parse_args(strings(&["expect", "echo", "to", "not", "output", "f.txt"]))
        .expect("not form must parse");
    let exact_form = parse_args(strings(&["expect", "echo", "to", "output", "exactly", "f.txt"]))
        .expect("exactly form must parse");
    assert_ne!(not_form.comparison, exact_form.comparison);
}

#[test]
fn empty_command_and_file_pass_through() {
    let u = parse_args(strings(&["expect", "", "to", "output", ""])).expect("must parse");
    assert_eq!(u.command_being_tested, "");
    assert_eq!(u.file_name, "");
}
