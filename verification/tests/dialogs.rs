use editor_shell::dialog::{
    dialog_reply, open_file_dialog, save_file_dialog, DialogKind, DialogRequest, FileFilter,
};
use editor_shell::error::CommandError;

fn filter(name: &str, extensions: &[&str]) -> FileFilter {
    FileFilter {
        name: name.to_string(),
        extensions: extensions.iter().map(|e| e.to_string()).collect(),
    }
}

#[test]
fn open_dialog_offers_text_like_files_then_all_files() {
    let expected = DialogRequest {
        kind: DialogKind::Open,
        filters: vec![
            filter("Text Files", &["txt", "md", "json", "rs", "py", "js", "ts"]),
            filter("All Files", &["*"]),
        ],
    };
    assert_eq!(open_file_dialog(), expected);
}

#[test]
fn save_dialog_offers_plain_text_files_only() {
    let expected = DialogRequest {
        kind: DialogKind::Save,
        filters: vec![filter("Text Files", &["txt", "md", "json"])],
    };
    assert_eq!(save_file_dialog(), expected);
}

#[test]
fn save_dialog_is_narrower_than_open_dialog() {
    let open = open_file_dialog();
    let save = save_file_dialog();
    for wanted in &save.filters {
        for extension in &wanted.extensions {
            assert!(open
                .filters
                .iter()
                .any(|f| f.name == wanted.name && f.extensions.contains(extension)));
        }
    }
    let offered = |r: &DialogRequest| r.filters.iter().map(|f| f.extensions.len()).sum::<usize>();
    assert_eq!(offered(&save), 3);
    assert_eq!(offered(&open), 8);
}

#[test]
fn cancelled_dialog_yields_nothing_and_no_error() {
    assert_eq!(dialog_reply(Ok(None)), Ok(None));
}

#[test]
fn confirmed_dialog_yields_the_chosen_path() {
    let reply = dialog_reply(Ok(Some("/home/user/notes.md".to_string())));
    assert_eq!(reply, Ok(Some("/home/user/notes.md".to_string())));
}

#[test]
fn confirmed_dialog_keeps_an_empty_path() {
    assert_eq!(dialog_reply(Ok(Some(String::new()))), Ok(Some(String::new())));
}

#[test]
fn failed_dialog_is_dialog_error_with_cause() {
    let reply = dialog_reply(Err("receiving on a closed channel".to_string()));
    assert_eq!(
        reply,
        Err(CommandError::Dialog("Dialog error: receiving on a closed channel".to_string()))
    );
}

#[test]
fn failed_dialog_is_never_an_io_error() {
    let error = dialog_reply(Err("gone".to_string())).unwrap_err();
    assert!(error.is_dialog());
    assert!(!error.is_io());
    assert_eq!(error.into_message(), "Dialog error: gone");
}
