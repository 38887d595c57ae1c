use open2e::commands::validation::{validate_key, KeyReply};
use open2e::error::{CommandError, WindowFailure};
use open2e::window_name::WindowName;

#[test]
fn a_store_failure_keeps_its_words() {
    let error = CommandError::Store(String::from("store.json: permission denied"));
    assert_eq!(error.message(), "store.json: permission denied");
}

#[test]
fn a_platform_failure_keeps_its_words() {
    let failure = WindowFailure::Platform(String::from("failed to create webview"));
    assert_eq!(failure.message(), "failed to create webview");
    assert_eq!(CommandError::Window(failure).message(), "failed to create webview");
}

#[test]
fn a_duplicate_names_the_window() {
    assert_eq!(
        WindowFailure::Duplicate(WindowName::Main).message(),
        "a window with label `main` already exists"
    );
    assert_eq!(
        CommandError::Window(WindowFailure::Duplicate(WindowName::Setup)).message(),
        "a window with label `setup` already exists"
    );
    assert_eq!(
        CommandError::Window(WindowFailure::Duplicate(WindowName::Index)).message(),
        "a window with label `index` already exists"
    );
}

#[test]
fn a_host_failure_keeps_its_words() {
    assert_eq!(CommandError::HostInfo(String::from("no answer")).message(), "no answer");
}

#[test]
fn a_validation_failure_keeps_its_words() {
    assert_eq!(CommandError::Validation(String::from("timed out")).message(), "timed out");
    assert_eq!(CommandError::Validation(String::new()).message(), "");
}

#[test]
fn failures_of_different_kinds_differ() {
    let words = String::from("same words");
    assert_ne!(CommandError::Store(words.clone()), CommandError::HostInfo(words.clone()));
    assert_ne!(CommandError::HostInfo(words.clone()), CommandError::Validation(words.clone()));
    assert_ne!(
        CommandError::Window(WindowFailure::Platform(words.clone())),
        CommandError::Store(words)
    );
}

#[test]
fn an_accepted_key_is_valid() {
    assert_eq!(validate_key(KeyReply::Accepted), Ok(true));
}

#[test]
fn a_rejected_key_is_an_answer_not_a_failure() {
    assert_eq!(validate_key(KeyReply::Rejected), Ok(false));
}

#[test]
fn an_unreachable_service_is_a_failure() {
    assert_eq!(
        validate_key(KeyReply::Unreachable(String::from("connection refused"))),
        Err(CommandError::Validation(String::from("connection refused")))
    );
}
