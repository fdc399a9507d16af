//! The two kinds of failure that a command can report.

use vstd::prelude::*;

verus! {

/// A failed command. Each kind carries the text that is shown to the user.
#[derive(Clone, Debug, PartialEq, Eq)]
pub enum CommandError {
    /// A filesystem read or write failed.
    Io(String),
    /// The native dialog subsystem itself failed.
    Dialog(String),
}

/// The mathematical value of a [`CommandError`]: its kind and its message.
pub enum ErrorModel {
    Io(Seq<char>),
    Dialog(Seq<char>),
}

impl ErrorModel {
    /// The text shown to the user.
    pub open spec fn message(self) -> Seq<char> {
        match self {
            ErrorModel::Io(text) => text,
            ErrorModel::Dialog(text) => text,
        }
    }

    /// Whether this is a filesystem failure.
    pub open spec fn is_io(self) -> bool {
        self is Io
    }

    /// Whether this is a failure of the dialog subsystem.
    pub open spec fn is_dialog(self) -> bool {
        self is Dialog
    }
}

impl View for CommandError {
    type V = ErrorModel;

    open spec fn view(&self) -> ErrorModel {
        match self {
            CommandError::Io(text) => ErrorModel::Io(text@),
            CommandError::Dialog(text) => ErrorModel::Dialog(text@),
        }
    }
}

impl CommandError {
    /// Whether this is a filesystem failure.
    pub fn is_io(&self) -> (answer: bool)
        ensures
            answer == self@.is_io(),
    {
        match self {
            CommandError::Io(_) => true,
            CommandError::Dialog(_) => false,
        }
    }

    /// Whether this is a failure of the dialog subsystem.
    pub fn is_dialog(&self) -> (answer: bool)
        ensures
            answer == self@.is_dialog(),
    {
        match self {
            CommandError::Io(_) => false,
            CommandError::Dialog(_) => true,
        }
    }

    /// The text shown to the user, which is all that crosses to the user
    /// interface: the kind is not sent.
    pub fn into_message(self) -> (text: String)
        ensures
            text@ == self@.message(),
    {
        match self {
            CommandError::Io(text) => text,
            CommandError::Dialog(text) => text,
        }
    }
}

} // verus!
