use clanker::cli::{startup, MisuseError, StartupError, CREDENTIAL_VARIABLE, EXIT_FAILURE};

fn args(items: &[&str]) -> Vec<String> {
    items.iter().map(|item| item.to_string()).collect()
}

#[test]
fn one_argument_and_a_credential_start_a_run() {
    let launch = startup(&args(&["clanker", "services/web"]), Some("k-123".to_string()))
        .expect("the run starts");
    assert_eq!(launch.root, "services/web");
    assert_eq!(launch.api_key, "k-123");
}

#[test]
fn no_argument_is_misuse() {
    let outcome = startup(&args(&["clanker"]), Some("k".to_string()));
    assert_eq!(outcome.unwrap_err(), StartupError::Misuse(MisuseError));
}

#[test]
fn empty_argument_vector_is_misuse() {
    let outcome = startup(&Vec::new(), Some("k".to_string()));
    assert_eq!(outcome.unwrap_err(), StartupError::Misuse(MisuseError));
}

#[test]
fn two_or_more_arguments_are_misuse() {
    let outcome = startup(&args(&["clanker", "a", "b"]), Some("k".to_string()));
    assert_eq!(outcome.unwrap_err(), StartupError::Misuse(MisuseError));
    let outcome = startup(&args(&["clanker", "a", "b", "c"]), Some("k".to_string()));
    assert_eq!(outcome.unwrap_err(), StartupError::Misuse(MisuseError));
}

#[test]
fn argument_count_is_checked_before_the_credential() {
    let outcome = startup(&args(&["clanker"]), None);
    assert_eq!(outcome.unwrap_err(), StartupError::Misuse(MisuseError));
}

#[test]
fn missing_credential_stops_the_run() {
    let outcome = startup(&args(&["clanker", "dir"]), None);
    assert_eq!(outcome.unwrap_err(), StartupError::MissingCredential);
}

#[test]
fn empty_credential_is_a_credential() {
    let launch = startup(&args(&["clanker", "dir"]), Some(String::new())).expect("the run starts");
    assert_eq!(launch.api_key, "");
}

#[test]
fn startup_errors_end_with_failure_status() {
    assert_eq!(EXIT_FAILURE, 1);
    assert_eq!(StartupError::Misuse(MisuseError).exit_status(), 1);
    assert_eq!(StartupError::MissingCredential.exit_status(), 1);
}

#[test]
fn misuse_error_has_no_message() {
    assert_eq!(MisuseError.message(), "");
}

#[test]
fn diagnostics_are_fixed_lines() {
    assert_eq!(
        StartupError::Misuse(MisuseError).diagnostic("clanker"),
        "Usage: clanker dir_name"
    );
    assert_eq!(
        StartupError::MissingCredential.diagnostic("clanker"),
        "Missing Gemini API key in env!"
    );
}

#[test]
fn credential_variable_is_fixed() {
    assert_eq!(CREDENTIAL_VARIABLE, "GEMINI_API_KEY");
}
