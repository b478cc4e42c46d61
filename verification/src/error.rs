//! What can go wrong, and how it is reported: one message that names the
//! source and the cause, and a non-zero exit status.

use vstd::prelude::*;

verus! {

/// The exit status of a run that drew its picture.
pub const EXIT_SUCCESS: i32 = 0;

/// The exit status of a run that failed.
pub const EXIT_FAILURE: i32 = 1;

/// The ways in which a run can fail. None of them is recovered from.
#[derive(Clone, Copy, Debug, PartialEq, Eq, Structural)]
pub enum FailureKind {
    /// The network fetch failed.
    SourceUnreachable,
    /// The file could not be opened.
    SourceUnreadable,
    /// The bytes are not an image in a supported format.
    DecodeFailed,
    /// The output stream broke.
    StreamWriteFailed,
    /// The image or the planned picture is beyond what can be scaled.
    PictureTooLarge,
}

/// A failure: its kind, the source that was being drawn, and the cause as
/// the failing part described it.
#[derive(Clone, Debug)]
pub struct Failure {
    pub kind: FailureKind,
    pub source: String,
    pub cause: String,
}

/// How the message for a kind of failure begins, up to the opening quote
/// before the source.
pub open spec fn headline(kind: FailureKind) -> Seq<char> {
    match kind {
        FailureKind::SourceUnreachable => "Failed to fetch URL '"@,
        FailureKind::SourceUnreadable => "Failed to open image '"@,
        FailureKind::DecodeFailed => "Failed to decode image '"@,
        FailureKind::StreamWriteFailed => "Failed to write image '"@,
        FailureKind::PictureTooLarge => "Failed to scale image '"@,
    }
}

/// The message for a failure: the headline, the source in quotes, a colon
/// and the cause.
pub open spec fn message_text(kind: FailureKind, source: Seq<char>, cause: Seq<char>) -> Seq<
    char,
> {
    headline(kind) + source + "': "@ + cause
}

impl Failure {
    /// A failure of the given kind on `source`, with its cause.
    pub fn new(kind: FailureKind, source: &str, cause: String) -> (failure: Failure)
        ensures
            failure.kind == kind,
            failure.source@ == source@,
            failure.cause@ == cause@,
    {
        Failure { kind, source: String::from_str(source), cause }
    }

    /// The line for the error stream, which names the source and the cause.
    pub fn message(&self) -> (text: String)
        ensures
            text@ == message_text(self.kind, self.source@, self.cause@),
    {
        let mut text: String = match self.kind {
            FailureKind::SourceUnreachable => String::from_str("Failed to fetch URL '"),
            FailureKind::SourceUnreadable => String::from_str("Failed to open image '"),
            FailureKind::DecodeFailed => String::from_str("Failed to decode image '"),
            FailureKind::StreamWriteFailed => String::from_str("Failed to write image '"),
            FailureKind::PictureTooLarge => String::from_str("Failed to scale image '"),
        };
        text.append(self.source.as_str());
        text.append("': ");
        text.append(self.cause.as_str());
        text
    }
}

/// The exit status for the outcome of a run: zero when the picture was
/// drawn, one for every failure.
pub fn exit_status(outcome: &Result<(), Failure>) -> (status: i32)
    ensures
        status == (if outcome is Ok {
            EXIT_SUCCESS
        } else {
            EXIT_FAILURE
        }),
        (status == 0) <==> outcome is Ok,
{
    match outcome {
        Ok(_) => EXIT_SUCCESS,
        Err(_) => EXIT_FAILURE,
    }
}

} // verus!
