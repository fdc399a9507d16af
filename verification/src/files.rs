//! What the two file commands answer, given what the filesystem did.
//!
//! The application reads or writes the whole file in one call and hands the
//! outcome in: the content (or nothing, for a write) on success, the
//! operating system's description of the failure otherwise.

use vstd::prelude::*;
use crate::error::{CommandError, ErrorModel};

verus! {

/// The message of a failed read: a fixed lead, then the operating system's
/// own description.
pub open spec fn read_failure_text(detail: Seq<char>) -> Seq<char> {
    "Failed to read file: "@ + detail
}

/// The message of a failed write: a fixed lead, then the operating system's
/// own description.
pub open spec fn write_failure_text(detail: Seq<char>) -> Seq<char> {
    "Failed to write file: "@ + detail
}

/// The answer to a read, over plain text: the content as it was read, or an
/// I/O error that embeds the cause.
pub open spec fn read_reply(outcome: Result<Seq<char>, Seq<char>>) -> Result<Seq<char>, ErrorModel> {
    match outcome {
        Ok(content) => Ok(content),
        Err(detail) => Err(ErrorModel::Io(read_failure_text(detail))),
    }
}

/// The answer to a write, over plain text: success, or an I/O error that
/// embeds the cause.
pub open spec fn write_reply(outcome: Result<(), Seq<char>>) -> Result<(), ErrorModel> {
    match outcome {
        Ok(done) => Ok(done),
        Err(detail) => Err(ErrorModel::Io(write_failure_text(detail))),
    }
}

/// The outcome of reading a file, as plain text.
pub open spec fn read_outcome_view(outcome: Result<String, String>) -> Result<Seq<char>, Seq<char>> {
    match outcome {
        Ok(content) => Ok(content@),
        Err(detail) => Err(detail@),
    }
}

/// The outcome of writing a file, as plain text.
pub open spec fn write_outcome_view(outcome: Result<(), String>) -> Result<(), Seq<char>> {
    match outcome {
        Ok(done) => Ok(done),
        Err(detail) => Err(detail@),
    }
}

/// The answer to a read command, as plain text.
pub open spec fn content_reply_view(reply: Result<String, CommandError>) -> Result<Seq<char>, ErrorModel> {
    match reply {
        Ok(content) => Ok(content@),
        Err(error) => Err(error@),
    }
}

/// The answer to a write command, as plain text.
pub open spec fn unit_reply_view(reply: Result<(), CommandError>) -> Result<(), ErrorModel> {
    match reply {
        Ok(done) => Ok(done),
        Err(error) => Err(error@),
    }
}

/// Answers a read command. `outcome` is what reading the whole file as text
/// gave: the content, or the operating system's description of why it could
/// not be read (missing, unreadable, not valid text).
pub fn read_file_reply(outcome: Result<String, String>) -> (reply: Result<String, CommandError>)
    ensures
        content_reply_view(reply) == read_reply(read_outcome_view(outcome)),
        reply is Ok <==> outcome is Ok,
        reply matches Err(error) ==> error@.is_io(),
{
    match outcome {
        Ok(content) => Ok(content),
        Err(detail) => {
            let mut text = String::from_str("Failed to read file: ");
            text.append(detail.as_str());
            Err(CommandError::Io(text))
        },
    }
}

/// Answers a write command. `outcome` is what overwriting the file in full
/// gave: nothing, or the operating system's description of why it could not
/// be written (no parent directory, permission denied).
pub fn write_file_reply(outcome: Result<(), String>) -> (reply: Result<(), CommandError>)
    ensures
        unit_reply_view(reply) == write_reply(write_outcome_view(outcome)),
        reply is Ok <==> outcome is Ok,
        reply matches Err(error) ==> error@.is_io(),
{
    match outcome {
        Ok(done) => Ok(done),
        Err(detail) => {
            let mut text = String::from_str("Failed to write file: ");
            text.append(detail.as_str());
            Err(CommandError::Io(text))
        },
    }
}

/// A file command never loses or alters what the filesystem gave: when the
/// write succeeded and the read that follows it succeeded with `content`,
/// the write is answered with success and the read with `content` exactly.
pub proof fn lemma_replies_keep_content(content: Seq<char>)
    ensures
        write_reply(Ok(())) == Ok::<(), ErrorModel>(()),
        read_reply(Ok(content)) == Ok::<Seq<char>, ErrorModel>(content),
{
}

/// A failed read or write is always answered with an I/O error, and its
/// message ends with the operating system's description.
pub proof fn lemma_failure_is_io_error(detail: Seq<char>)
    ensures
        read_reply(Err(detail)) matches Err(error) && error.is_io() && error.message()
            == read_failure_text(detail),
        write_reply(Err(detail)) matches Err(error) && error.is_io() && error.message()
            == write_failure_text(detail),
        read_failure_text(detail).len() >= detail.len(),
        read_failure_text(detail).subrange(
            read_failure_text(detail).len() - detail.len(),
            read_failure_text(detail).len() as int,
        ) == detail,
        write_failure_text(detail).len() >= detail.len(),
        write_failure_text(detail).subrange(
            write_failure_text(detail).len() - detail.len(),
            write_failure_text(detail).len() as int,
        ) == detail,
{
    let read_text = read_failure_text(detail);
    let write_text = write_failure_text(detail);
    assert(read_text.subrange(read_text.len() - detail.len(), read_text.len() as int) =~= detail);
    assert(write_text.subrange(write_text.len() - detail.len(), write_text.len() as int)
        =~= detail);
}

} // verus!
