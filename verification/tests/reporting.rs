use expect::report::{
    failed_message, passed_message, unreadable_message, usage_lines, verdict_outcome, Outcome,
};

#[test]
fn exit_codes_are_the_contract() {
    assert_eq!(Outcome::Passed.exit_code(), 0);
    assert_eq!(Outcome::BadUsage.exit_code(), 1);
    assert_eq!(Outcome::UnreadableFile.exit_code(), 1);
    assert_eq!(Outcome::Failed.exit_code(), 2);
}

#[test]
fn verdict_maps_to_outcome() {
    assert_eq!(verdict_outcome(true), Outcome::Passed);
    assert_eq!(verdict_outcome(false), Outcome::Failed);
}

#[test]
fn status_lines_are_exact() {
    assert_eq!(passed_message(), "Passed. Output matched the expectation.");
    assert_eq!(failed_message(), "Failed. Output did not match the expectation.");
}

#[test]
fn unreadable_message_names_the_path() {
    let msg = unreadable_message("sample.txt");
    assert_eq!(msg, "Can't read from sample.txt");
    assert!(msg.contains("sample.txt"));
}

#[test]
fn usage_block_lists_the_three_forms() {
    let lines = usage_lines();
    assert_eq!(lines.len(), 4);
    assert_eq!(lines[0], "Usage:");
    assert_eq!(lines[1], "expect \"command\" to output sample.txt");
    assert_eq!(lines[2], "expect \"command\" to not output sample.txt");
    assert_eq!(lines[3], "expect \"command\" to output exactly sample.txt");
}
