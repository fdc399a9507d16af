//! The startup hook: a file named on the command line is announced to the
//! main window, once, if it exists.
//!
//! The application hands in the process arguments, asks the filesystem
//! whether the candidate exists, and delivers the notification that comes
//! back. Delivery is best effort: nothing here retries it.

use vstd::prelude::*;

verus! {

/// A one-shot event for a window of the user interface.
#[derive(Clone, Debug, PartialEq, Eq)]
pub struct Notification {
    /// The label of the window that receives the event.
    pub window: String,
    /// The event's name.
    pub event: String,
    /// The text that the event carries.
    pub payload: String,
}

/// The mathematical value of a [`Notification`].
pub struct NotificationModel {
    pub window: Seq<char>,
    pub event: Seq<char>,
    pub payload: Seq<char>,
}

impl View for Notification {
    type V = NotificationModel;

    open spec fn view(&self) -> NotificationModel {
        NotificationModel { window: self.window@, event: self.event@, payload: self.payload@ }
    }
}

/// The process arguments as plain text, the program's own name first.
pub open spec fn arguments_view(arguments: Seq<String>) -> Seq<Seq<char>> {
    arguments.map_values(|argument: String| argument@)
}

/// An optional path as plain text.
pub open spec fn path_view(path: Option<String>) -> Option<Seq<char>> {
    match path {
        Some(text) => Some(text@),
        None => None,
    }
}

/// An optional notification by its value.
pub open spec fn notice_view(notice: Option<Notification>) -> Option<NotificationModel> {
    match notice {
        Some(notification) => Some(notification@),
        None => None,
    }
}

/// The file that the process was launched with: the first argument after
/// the program's name, if there is one. Later arguments are ignored.
pub open spec fn file_argument(arguments: Seq<Seq<char>>) -> Option<Seq<char>> {
    if arguments.len() > 1 {
        Some(arguments[1])
    } else {
        None
    }
}

/// The "open this file" event for the main window.
pub open spec fn open_file_notice(path: Seq<char>) -> NotificationModel {
    NotificationModel { window: "main"@, event: "open-file"@, payload: path }
}

/// What startup announces: the candidate, if there is one and it exists.
pub open spec fn startup_notice(candidate: Option<Seq<char>>, exists: bool) -> Option<
    NotificationModel,
> {
    match candidate {
        Some(path) => if exists {
            Some(open_file_notice(path))
        } else {
            None
        },
        None => None,
    }
}

/// Picks the file to open out of the process arguments, of which the first
/// is the program's own name.
pub fn handle_cli_args(arguments: &Vec<String>) -> (candidate: Option<String>)
    ensures
        path_view(candidate) == file_argument(arguments_view(arguments@)),
{
    if arguments.len() > 1 {
        Some(arguments[1].clone())
    } else {
        None
    }
}

/// Decides what to announce once the main window exists. `candidate` is the
/// file picked from the command line, and `exists` says whether that path
/// resolved to something on the filesystem; with no candidate it is not
/// looked at.
pub fn startup_notification(candidate: Option<String>, exists: bool) -> (notice: Option<
    Notification,
>)
    ensures
        notice_view(notice) == startup_notice(path_view(candidate), exists),
{
    match candidate {
        Some(path) => {
            if exists {
                Some(
                    Notification {
                        window: String::from_str("main"),
                        event: String::from_str("open-file"),
                        payload: path,
                    },
                )
            } else {
                None
            }
        },
        None => None,
    }
}

/// Startup with an argument that names an existing file announces exactly
/// that path, in one open-file event for the main window. Startup with no
/// argument, or with one that names nothing, announces nothing.
pub proof fn lemma_startup_announces_existing_file_only(arguments: Seq<Seq<char>>, exists: bool)
    ensures
        arguments.len() > 1 && exists ==> startup_notice(file_argument(arguments), exists) == Some(
            open_file_notice(arguments[1]),
        ),
        arguments.len() <= 1 || !exists ==> startup_notice(file_argument(arguments), exists)
            is None,
{
}

} // verus!
