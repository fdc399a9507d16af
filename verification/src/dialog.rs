//! The two native file dialogs: what each presents, and what a command
//! answers once the dialog has closed.
//!
//! The application shows the dialog that a [`DialogRequest`] describes and
//! suspends until it resolves, exactly once, with the user's choice or with
//! a failure of the dialog subsystem. That resolution is handed to
//! [`dialog_reply`].

use vstd::prelude::*;
use crate::error::{CommandError, ErrorModel};

verus! {

/// Which picker a dialog presents.
#[derive(Clone, Copy, Debug, PartialEq, Eq, Structural)]
pub enum DialogKind {
    /// Pick an existing file to open.
    Open,
    /// Pick a target to save to. The dialog itself writes nothing.
    Save,
}

/// One entry of a dialog's filter list: a label and the file extensions
/// that it lets through.
#[derive(Clone, Debug, PartialEq, Eq)]
pub struct FileFilter {
    pub name: String,
    pub extensions: Vec<String>,
}

/// The mathematical value of a [`FileFilter`].
pub struct FilterModel {
    pub name: Seq<char>,
    pub extensions: Seq<Seq<char>>,
}

impl View for FileFilter {
    type V = FilterModel;

    open spec fn view(&self) -> FilterModel {
        FilterModel {
            name: self.name@,
            extensions: self.extensions@.map_values(|extension: String| extension@),
        }
    }
}

/// A dialog to present: its kind and its filters, in the order shown.
#[derive(Clone, Debug, PartialEq, Eq)]
pub struct DialogRequest {
    pub kind: DialogKind,
    pub filters: Vec<FileFilter>,
}

/// The mathematical value of a [`DialogRequest`].
pub struct RequestModel {
    pub kind: DialogKind,
    pub filters: Seq<FilterModel>,
}

impl View for DialogRequest {
    type V = RequestModel;

    open spec fn view(&self) -> RequestModel {
        RequestModel {
            kind: self.kind,
            filters: self.filters@.map_values(|filter: FileFilter| filter@),
        }
    }
}

/// The extensions that both dialogs offer under "Text Files".
pub open spec fn plain_text_extensions() -> Seq<Seq<char>> {
    seq!["txt"@, "md"@, "json"@]
}

/// The source-code extensions that only the open dialog adds.
pub open spec fn source_extensions() -> Seq<Seq<char>> {
    seq!["rs"@, "py"@, "js"@, "ts"@]
}

/// The open dialog: text-like files first, then a fallback that lets every
/// file through.
pub open spec fn open_request() -> RequestModel {
    RequestModel {
        kind: DialogKind::Open,
        filters: seq![
            FilterModel {
                name: "Text Files"@,
                extensions: plain_text_extensions() + source_extensions(),
            },
            FilterModel { name: "All Files"@, extensions: seq!["*"@] },
        ],
    }
}

/// The save dialog: plain text files only.
pub open spec fn save_request() -> RequestModel {
    RequestModel {
        kind: DialogKind::Save,
        filters: seq![FilterModel { name: "Text Files"@, extensions: plain_text_extensions() }],
    }
}

/// The message of a failed dialog: a fixed lead, then the cause.
pub open spec fn dialog_failure_text(detail: Seq<char>) -> Seq<char> {
    "Dialog error: "@ + detail
}

/// How a dialog resolved, as plain text: the chosen path, nothing on
/// cancellation, or the cause of a failure.
pub open spec fn resolution_view(resolution: Result<Option<String>, String>) -> Result<
    Option<Seq<char>>,
    Seq<char>,
> {
    match resolution {
        Ok(Some(path)) => Ok(Some(path@)),
        Ok(None) => Ok(None),
        Err(detail) => Err(detail@),
    }
}

/// The answer to a dialog command, as plain text.
pub open spec fn path_reply_view(reply: Result<Option<String>, CommandError>) -> Result<
    Option<Seq<char>>,
    ErrorModel,
> {
    match reply {
        Ok(Some(path)) => Ok(Some(path@)),
        Ok(None) => Ok(None),
        Err(error) => Err(error@),
    }
}

/// The answer to a dialog command, over plain text: the choice as it was
/// made, cancellation included, or a dialog error that embeds the cause.
pub open spec fn path_reply(resolution: Result<Option<Seq<char>>, Seq<char>>) -> Result<
    Option<Seq<char>>,
    ErrorModel,
> {
    match resolution {
        Ok(choice) => Ok(choice),
        Err(detail) => Err(ErrorModel::Dialog(dialog_failure_text(detail))),
    }
}

fn plain_text_filter_extensions() -> (extensions: Vec<String>)
    ensures
        extensions@.map_values(|extension: String| extension@) == plain_text_extensions(),
{
    let mut extensions: Vec<String> = Vec::new();
    extensions.push(String::from_str("txt"));
    extensions.push(String::from_str("md"));
    extensions.push(String::from_str("json"));
    assert(extensions@.map_values(|extension: String| extension@)
        =~= plain_text_extensions());
    extensions
}

/// The dialog of the open command.
pub fn open_file_dialog() -> (request: DialogRequest)
    ensures
        request@ == open_request(),
{
    let mut extensions = plain_text_filter_extensions();
    let ghost plain = extensions@;
    extensions.push(String::from_str("rs"));
    extensions.push(String::from_str("py"));
    extensions.push(String::from_str("js"));
    extensions.push(String::from_str("ts"));
    assert(extensions@.map_values(|extension: String| extension@) =~= plain.map_values(
        |extension: String| extension@,
    ) + source_extensions());
    let mut fallback: Vec<String> = Vec::new();
    fallback.push(String::from_str("*"));
    assert(fallback@.map_values(|extension: String| extension@) =~= seq!["*"@]);
    let mut filters: Vec<FileFilter> = Vec::new();
    filters.push(FileFilter { name: String::from_str("Text Files"), extensions });
    filters.push(FileFilter { name: String::from_str("All Files"), extensions: fallback });
    assert(filters@.map_values(|filter: FileFilter| filter@) =~= open_request().filters);
    DialogRequest { kind: DialogKind::Open, filters }
}

/// The dialog of the save command.
pub fn save_file_dialog() -> (request: DialogRequest)
    ensures
        request@ == save_request(),
{
    let extensions = plain_text_filter_extensions();
    let mut filters: Vec<FileFilter> = Vec::new();
    filters.push(FileFilter { name: String::from_str("Text Files"), extensions });
    assert(filters@.map_values(|filter: FileFilter| filter@) =~= save_request().filters);
    DialogRequest { kind: DialogKind::Save, filters }
}

/// Answers a dialog command, open or save alike. `resolution` is how the
/// dialog resolved: `Ok(Some(path))` when the user confirmed, `Ok(None)`
/// when the user cancelled, `Err(detail)` when the dialog subsystem failed
/// before any choice arrived.
///
/// Cancellation is a success that carries no path, never an error.
pub fn dialog_reply(resolution: Result<Option<String>, String>) -> (reply: Result<
    Option<String>,
    CommandError,
>)
    ensures
        path_reply_view(reply) == path_reply(resolution_view(resolution)),
        resolution matches Ok(None) ==> reply matches Ok(None),
        reply is Ok <==> resolution is Ok,
        reply matches Err(error) ==> error@.is_dialog(),
{
    match resolution {
        Ok(choice) => Ok(choice),
        Err(detail) => {
            let mut text = String::from_str("Dialog error: ");
            text.append(detail.as_str());
            Err(CommandError::Dialog(text))
        },
    }
}

/// Cancelling a dialog yields "nothing", and only a failure of the dialog
/// subsystem yields an error, which is then a dialog error.
pub proof fn lemma_cancellation_is_not_an_error(resolution: Result<Option<Seq<char>>, Seq<char>>)
    ensures
        resolution == Ok::<Option<Seq<char>>, Seq<char>>(None) ==> path_reply(resolution) == Ok::<
            Option<Seq<char>>,
            ErrorModel,
        >(None),
        path_reply(resolution) is Err <==> resolution is Err,
        path_reply(resolution) matches Err(error) ==> error.is_dialog(),
{
}

/// The save dialog is narrower than the open dialog: every extension that
/// it offers, the open dialog offers too, under a filter of the same name.
pub proof fn lemma_save_filters_within_open_filters()
    ensures
        forall|i: int, j: int|
            0 <= i < save_request().filters.len() && 0 <= j
                < save_request().filters[i].extensions.len() ==> exists|k: int, l: int|
                0 <= k < open_request().filters.len() && 0 <= l
                    < open_request().filters[k].extensions.len()
                    && open_request().filters[k].name == save_request().filters[i].name
                    && #[trigger] open_request().filters[k].extensions[l]
                    == #[trigger] save_request().filters[i].extensions[j],
{
    assert forall|i: int, j: int|
        0 <= i < save_request().filters.len() && 0 <= j
            < save_request().filters[i].extensions.len() implies exists|k: int, l: int|
        0 <= k < open_request().filters.len() && 0 <= l
            < open_request().filters[k].extensions.len() && open_request().filters[k].name
            == save_request().filters[i].name
            && #[trigger] open_request().filters[k].extensions[l]
            == #[trigger] save_request().filters[i].extensions[j] by {
        assert(i == 0);
        assert(open_request().filters[0].extensions[j] == plain_text_extensions()[j]);
        assert(save_request().filters[0].extensions[j] == plain_text_extensions()[j]);
    }
}

} // verus!
