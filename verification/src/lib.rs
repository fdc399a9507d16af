//! The command surface of a desktop text-editor shell.
//!
//! The user interface issues a named command, the application performs one
//! call to the operating system, and this library decides what goes back:
//! the content or path on success, and on failure an error whose message
//! discloses the cause. It also holds the filter sets of the two file
//! dialogs and the rule by which a file named on the command line is
//! announced to the main window at startup.
//!
//! Nothing here touches the filesystem or a window: the application hands
//! in what the operating system answered, as plain values.

pub mod error;
pub mod files;
pub mod dialog;
pub mod startup;
