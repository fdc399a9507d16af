use editor_shell::startup::{handle_cli_args, startup_notification, Notification};

fn arguments(items: &[&str]) -> Vec<String> {
    items.iter().map(|a| a.to_string()).collect()
}

fn open_file(path: &str) -> Notification {
    Notification {
        window: "main".to_string(),
        event: "open-file".to_string(),
        payload: path.to_string(),
    }
}

#[test]
fn no_argument_gives_no_candidate() {
    assert_eq!(handle_cli_args(&arguments(&["editor"])), None);
}

#[test]
fn empty_argument_list_gives_no_candidate() {
    assert_eq!(handle_cli_args(&arguments(&[])), None);
}

#[test]
fn first_argument_after_the_program_is_the_candidate() {
    assert_eq!(
        handle_cli_args(&arguments(&["editor", "/tmp/x.txt"])),
        Some("/tmp/x.txt".to_string())
    );
}

#[test]
fn later_arguments_are_ignored() {
    assert_eq!(
        handle_cli_args(&arguments(&["editor", "a.md", "b.md", "c.md"])),
        Some("a.md".to_string())
    );
}

#[test]
fn existing_candidate_is_announced_to_the_main_window() {
    assert_eq!(
        startup_notification(Some("/tmp/x.txt".to_string()), true),
        Some(open_file("/tmp/x.txt"))
    );
}

#[test]
fn missing_candidate_is_not_announced() {
    assert_eq!(startup_notification(Some("/tmp/does-not-exist.txt".to_string()), false), None);
}

#[test]
fn no_candidate_is_not_announced() {
    assert_eq!(startup_notification(None, false), None);
    assert_eq!(startup_notification(None, true), None);
}

#[test]
fn startup_with_existing_file_announces_exactly_that_path() {
    let args = arguments(&["editor", "notes/today.txt", "ignored"]);
    let candidate = handle_cli_args(&args);
    assert_eq!(startup_notification(candidate, true), Some(open_file("notes/today.txt")));
}

#[test]
fn startup_without_argument_announces_nothing() {
    let candidate = handle_cli_args(&arguments(&["editor"]));
    assert_eq!(startup_notification(candidate, false), None);
}
